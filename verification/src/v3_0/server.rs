//! Servers and the variables of their URL templates.

use crate::codec::Codec;
use crate::error::{Error, ErrorView, Expected};
use crate::json::{Json, JsonView};
use crate::object::{
    always, entries_of, get_items, get_required, get_text, if_items, if_text, items_field,
    lemma_lookup_empty, lemma_lookup_with_entry, lemma_read_always, lemma_read_if_items,
    lemma_read_if_text, no_entries, object, put, required_field, slot_always, slot_if_items,
    slot_if_text, text_field, with_entry,
};
use crate::ordered_map::{
    entries_field, get_entries, if_entries, lemma_read_if_entries, map_valid, slot_if_entries,
    OrderedMap,
};
use crate::strings::lemma_spell;
use vstd::prelude::*;

verus! {

/// A variable for substitution in the URL template of a server.
#[derive(Clone, Debug, PartialEq, Default)]
pub struct ServerVariable {
    /// The value to use for substitution where no other is supplied.
    pub default: String,
    /// The values to choose from, where the options are limited.
    pub substitutions_enum: Vec<String>,
    /// A description of the variable.
    pub description: String,
}

/// View of a [`ServerVariable`].
pub struct ServerVariableView {
    pub default: Seq<char>,
    pub substitutions_enum: Seq<Seq<char>>,
    pub description: Seq<char>,
}

impl DeepView for ServerVariable {
    type V = ServerVariableView;

    open spec fn deep_view(&self) -> ServerVariableView {
        ServerVariableView {
            default: self.default.deep_view(),
            substitutions_enum: self.substitutions_enum.deep_view(),
            description: self.description.deep_view(),
        }
    }
}

impl Codec for ServerVariable {
    open spec fn to_json(v: ServerVariableView) -> JsonView {
        let e = Seq::empty();
        let e = with_entry(e, "default"@, always::<String>(v.default));
        let e = with_entry(e, "enum"@, if_items::<String>(v.substitutions_enum));
        let e = with_entry(e, "description"@, if_text(v.description));
        JsonView::Object(e)
    }

    open spec fn from_json(j: JsonView) -> Result<ServerVariableView, ErrorView> {
        match j {
            JsonView::Object(e) => {
                let default = required_field::<String>(e, "default"@);
                let substitutions_enum = items_field::<String>(e, "enum"@);
                let description = text_field(e, "description"@);
                if default is Err {
                    Err(default->Err_0)
                } else if substitutions_enum is Err {
                    Err(substitutions_enum->Err_0)
                } else if description is Err {
                    Err(description->Err_0)
                } else {
                    Ok(
                        ServerVariableView {
                            default: default->Ok_0,
                            substitutions_enum: substitutions_enum->Ok_0,
                            description: description->Ok_0,
                        },
                    )
                }
            },
            _ => Err(ErrorView::mismatch(Expected::Object, j.kind())),
        }
    }

    open spec fn valid(v: ServerVariableView) -> bool {
        true
    }

    proof fn lemma_round_trip(v: ServerVariableView) {
        broadcast use {lemma_lookup_with_entry, lemma_lookup_empty};

        reveal_strlit("default");
        lemma_spell("default"@);
        reveal_strlit("enum");
        lemma_spell("enum"@);
        reveal_strlit("description");
        lemma_spell("description"@);
        lemma_read_always::<String>(v.default, "default"@);
        lemma_read_if_items::<String>(v.substitutions_enum, "enum"@);
        lemma_read_if_text(v.description, "description"@);
    }

    fn encode(&self) -> (j: Json) {
        let mut out = no_entries();
        put(&mut out, "default", slot_always(&self.default));
        put(&mut out, "enum", slot_if_items(&self.substitutions_enum));
        put(&mut out, "description", slot_if_text(&self.description));
        object(out)
    }

    fn decode(j: &Json) -> (r: Result<Self, Error>) {
        let e = entries_of(j)?;
        let default = get_required::<String>(e, "default")?;
        let substitutions_enum = get_items::<String>(e, "enum")?;
        let description = get_text(e, "description")?;
        Ok(ServerVariable { default, substitutions_enum, description })
    }
}

/// A server.
#[derive(Clone, Debug, PartialEq, Default)]
pub struct Server {
    /// A URL to the target host. It may be relative and may hold variables in braces,
    /// so it is kept as text.
    pub url: String,
    /// A description of the host.
    pub description: String,
    /// The variables of the URL template, by name.
    pub variables: OrderedMap<ServerVariable>,
}

/// View of a [`Server`].
pub struct ServerView {
    pub url: Seq<char>,
    pub description: Seq<char>,
    pub variables: Seq<(Seq<char>, ServerVariableView)>,
}

impl DeepView for Server {
    type V = ServerView;

    open spec fn deep_view(&self) -> ServerView {
        ServerView {
            url: self.url.deep_view(),
            description: self.description.deep_view(),
            variables: self.variables.deep_view(),
        }
    }
}

impl Codec for Server {
    open spec fn to_json(v: ServerView) -> JsonView {
        let e = Seq::empty();
        let e = with_entry(e, "url"@, always::<String>(v.url));
        let e = with_entry(e, "description"@, if_text(v.description));
        let e = with_entry(e, "variables"@, if_entries::<ServerVariable>(v.variables));
        JsonView::Object(e)
    }

    open spec fn from_json(j: JsonView) -> Result<ServerView, ErrorView> {
        match j {
            JsonView::Object(e) => {
                let url = required_field::<String>(e, "url"@);
                let description = text_field(e, "description"@);
                let variables = entries_field::<ServerVariable>(e, "variables"@);
                if url is Err {
                    Err(url->Err_0)
                } else if description is Err {
                    Err(description->Err_0)
                } else if variables is Err {
                    Err(variables->Err_0)
                } else {
                    Ok(
                        ServerView {
                            url: url->Ok_0,
                            description: description->Ok_0,
                            variables: variables->Ok_0,
                        },
                    )
                }
            },
            _ => Err(ErrorView::mismatch(Expected::Object, j.kind())),
        }
    }

    open spec fn valid(v: ServerView) -> bool {
        &&& map_valid::<ServerVariable>(v.variables)
    }

    proof fn lemma_round_trip(v: ServerView) {
        broadcast use {lemma_lookup_with_entry, lemma_lookup_empty};

        reveal_strlit("url");
        lemma_spell("url"@);
        reveal_strlit("description");
        lemma_spell("description"@);
        reveal_strlit("variables");
        lemma_spell("variables"@);
        lemma_read_always::<String>(v.url, "url"@);
        lemma_read_if_text(v.description, "description"@);
        lemma_read_if_entries::<ServerVariable>(v.variables, "variables"@);
    }

    fn encode(&self) -> (j: Json) {
        let mut out = no_entries();
        put(&mut out, "url", slot_always(&self.url));
        put(&mut out, "description", slot_if_text(&self.description));
        put(&mut out, "variables", slot_if_entries(&self.variables));
        object(out)
    }

    fn decode(j: &Json) -> (r: Result<Self, Error>) {
        let e = entries_of(j)?;
        let url = get_required::<String>(e, "url")?;
        let description = get_text(e, "description")?;
        let variables = get_entries::<ServerVariable>(e, "variables")?;
        Ok(Server { url, description, variables })
    }
}

} // verus!
