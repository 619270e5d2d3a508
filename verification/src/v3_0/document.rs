//! The document as a whole.

use crate::codec::{list_valid, Codec};
use crate::error::{Error, ErrorView, Expected};
use crate::json::{Json, JsonView};
use crate::object::{
    always, entries_of, get_items, get_optional, get_required, if_items, if_some, items_field,
    lemma_lookup_empty, lemma_lookup_with_entry, lemma_read_always, lemma_read_if_items,
    lemma_read_if_some, no_entries, object, optional_field, put, required_field, slot_always,
    slot_if_items, slot_if_some, with_entry,
};
use crate::ordered_map::OrderedMap;
use crate::strings::lemma_spell;
use crate::v3_0::components::{Components, ComponentsView};
use crate::v3_0::info::{ExternalDoc, ExternalDocView, Info, InfoView, Tag, TagView};
use crate::v3_0::operation::{PathItem, PathItemView, SecurityRequirement};
use crate::v3_0::server::{Server, ServerView};
use vstd::prelude::*;

verus! {

/// A document: the description of one API.
#[derive(Clone, Debug, PartialEq, Default)]
pub struct Spec {
    /// The version of the format that the document is written in.
    pub openapi: String,
    /// Metadata about the API.
    pub info: Info,
    /// The servers of the API.
    pub servers: Vec<Server>,
    /// The paths of the API and their operations.
    pub paths: OrderedMap<PathItem>,
    /// The reusable objects of the document.
    pub components: Option<Components>,
    /// The alternative ways to authorize a request to the API.
    pub security: Vec<SecurityRequirement>,
    /// The tags that the document uses, with their metadata.
    pub tags: Vec<Tag>,
    /// Further documentation.
    pub external_docs: Option<ExternalDoc>,
}

/// View of a [`Spec`].
pub struct SpecView {
    pub openapi: Seq<char>,
    pub info: InfoView,
    pub servers: Seq<ServerView>,
    pub paths: Seq<(Seq<char>, PathItemView)>,
    pub components: Option<ComponentsView>,
    pub security: Seq<Seq<(Seq<char>, Seq<Seq<char>>)>>,
    pub tags: Seq<TagView>,
    pub external_docs: Option<ExternalDocView>,
}

impl DeepView for Spec {
    type V = SpecView;

    open spec fn deep_view(&self) -> SpecView {
        SpecView {
            openapi: self.openapi.deep_view(),
            info: self.info.deep_view(),
            servers: self.servers.deep_view(),
            paths: self.paths.deep_view(),
            components: self.components.deep_view(),
            security: self.security.deep_view(),
            tags: self.tags.deep_view(),
            external_docs: self.external_docs.deep_view(),
        }
    }
}

impl Codec for Spec {
    open spec fn to_json(v: SpecView) -> JsonView {
        let e = Seq::empty();
        let e = with_entry(e, "openapi"@, always::<String>(v.openapi));
        let e = with_entry(e, "info"@, always::<Info>(v.info));
        let e = with_entry(e, "servers"@, if_items::<Server>(v.servers));
        let e = with_entry(e, "paths"@, always::<OrderedMap<PathItem>>(v.paths));
        let e = with_entry(e, "components"@, if_some::<Components>(v.components));
        let e = with_entry(e, "security"@, if_items::<SecurityRequirement>(v.security));
        let e = with_entry(e, "tags"@, if_items::<Tag>(v.tags));
        let e = with_entry(e, "externalDocs"@, if_some::<ExternalDoc>(v.external_docs));
        JsonView::Object(e)
    }

    open spec fn from_json(j: JsonView) -> Result<SpecView, ErrorView> {
        match j {
            JsonView::Object(e) => {
                let openapi = required_field::<String>(e, "openapi"@);
                let info = required_field::<Info>(e, "info"@);
                let servers = items_field::<Server>(e, "servers"@);
                let paths = required_field::<OrderedMap<PathItem>>(e, "paths"@);
                let components = optional_field::<Components>(e, "components"@);
                let security = items_field::<SecurityRequirement>(e, "security"@);
                let tags = items_field::<Tag>(e, "tags"@);
                let external_docs = optional_field::<ExternalDoc>(e, "externalDocs"@);
                if openapi is Err {
                    Err(openapi->Err_0)
                } else if info is Err {
                    Err(info->Err_0)
                } else if servers is Err {
                    Err(servers->Err_0)
                } else if paths is Err {
                    Err(paths->Err_0)
                } else if components is Err {
                    Err(components->Err_0)
                } else if security is Err {
                    Err(security->Err_0)
                } else if tags is Err {
                    Err(tags->Err_0)
                } else if external_docs is Err {
                    Err(external_docs->Err_0)
                } else {
                    Ok(
                        SpecView {
                            openapi: openapi->Ok_0,
                            info: info->Ok_0,
                            servers: servers->Ok_0,
                            paths: paths->Ok_0,
                            components: components->Ok_0,
                            security: security->Ok_0,
                            tags: tags->Ok_0,
                            external_docs: external_docs->Ok_0,
                        },
                    )
                }
            },
            _ => Err(ErrorView::mismatch(Expected::Object, j.kind())),
        }
    }

    open spec fn valid(v: SpecView) -> bool {
        &&& Info::valid(v.info)
        &&& list_valid::<Server>(v.servers)
        &&& <OrderedMap<PathItem> as Codec>::valid(v.paths)
        &&& (v.components matches Some(x) ==> Components::valid(x))
        &&& list_valid::<SecurityRequirement>(v.security)
        &&& list_valid::<Tag>(v.tags)
        &&& (v.external_docs matches Some(x) ==> ExternalDoc::valid(x))
    }

    proof fn lemma_round_trip(v: SpecView) {
        broadcast use {lemma_lookup_with_entry, lemma_lookup_empty};

        reveal_strlit("openapi");
        lemma_spell("openapi"@);
        reveal_strlit("info");
        lemma_spell("info"@);
        reveal_strlit("servers");
        lemma_spell("servers"@);
        reveal_strlit("paths");
        lemma_spell("paths"@);
        reveal_strlit("components");
        lemma_spell("components"@);
        reveal_strlit("security");
        lemma_spell("security"@);
        reveal_strlit("tags");
        lemma_spell("tags"@);
        reveal_strlit("externalDocs");
        lemma_spell("externalDocs"@);
        lemma_read_always::<String>(v.openapi, "openapi"@);
        lemma_read_always::<Info>(v.info, "info"@);
        lemma_read_if_items::<Server>(v.servers, "servers"@);
        lemma_read_always::<OrderedMap<PathItem>>(v.paths, "paths"@);
        lemma_read_if_some::<Components>(v.components, "components"@);
        lemma_read_if_items::<SecurityRequirement>(v.security, "security"@);
        lemma_read_if_items::<Tag>(v.tags, "tags"@);
        lemma_read_if_some::<ExternalDoc>(v.external_docs, "externalDocs"@);
    }

    fn encode(&self) -> (j: Json) {
        let mut out = no_entries();
        put(&mut out, "openapi", slot_always(&self.openapi));
        put(&mut out, "info", slot_always(&self.info));
        put(&mut out, "servers", slot_if_items(&self.servers));
        put(&mut out, "paths", slot_always(&self.paths));
        put(&mut out, "components", slot_if_some(&self.components));
        put(&mut out, "security", slot_if_items(&self.security));
        put(&mut out, "tags", slot_if_items(&self.tags));
        put(&mut out, "externalDocs", slot_if_some(&self.external_docs));
        object(out)
    }

    fn decode(j: &Json) -> (r: Result<Self, Error>) {
        let e = entries_of(j)?;
        let openapi = get_required::<String>(e, "openapi")?;
        let info = get_required::<Info>(e, "info")?;
        let servers = get_items::<Server>(e, "servers")?;
        let paths = get_required::<OrderedMap<PathItem>>(e, "paths")?;
        let components = get_optional::<Components>(e, "components")?;
        let security = get_items::<SecurityRequirement>(e, "security")?;
        let tags = get_items::<Tag>(e, "tags")?;
        let external_docs = get_optional::<ExternalDoc>(e, "externalDocs")?;
        Ok(Spec { openapi, info, servers, paths, components, security, tags, external_docs })
    }
}

} // verus!
