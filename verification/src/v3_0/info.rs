//! Descriptive metadata: general information, contact, license, tags and
//! external documentation.

use crate::address::Url;
use crate::codec::Codec;
use crate::error::{Error, ErrorView, Expected};
use crate::json::{Json, JsonView};
use crate::object::{
    always, entries_of, get_optional, get_required, get_text, if_some, if_text, lemma_lookup_empty,
    lemma_lookup_with_entry, lemma_read_always, lemma_read_if_some, lemma_read_if_text, no_entries,
    object, optional_field, put, required_field, slot_always, slot_if_some, slot_if_text,
    text_field, with_entry,
};
use crate::strings::lemma_spell;
use vstd::prelude::*;

verus! {

/// Contact information for the exposed API.
#[derive(Clone, Debug, PartialEq, Default)]
pub struct Contact {
    pub name: String,
    pub url: Option<Url>,
    pub email: String,
}

/// View of a [`Contact`].
pub struct ContactView {
    pub name: Seq<char>,
    pub url: Option<Seq<char>>,
    pub email: Seq<char>,
}

impl DeepView for Contact {
    type V = ContactView;

    open spec fn deep_view(&self) -> ContactView {
        ContactView {
            name: self.name.deep_view(),
            url: self.url.deep_view(),
            email: self.email.deep_view(),
        }
    }
}

impl Codec for Contact {
    open spec fn to_json(v: ContactView) -> JsonView {
        let e = Seq::empty();
        let e = with_entry(e, "name"@, if_text(v.name));
        let e = with_entry(e, "url"@, if_some::<Url>(v.url));
        let e = with_entry(e, "email"@, if_text(v.email));
        JsonView::Object(e)
    }

    open spec fn from_json(j: JsonView) -> Result<ContactView, ErrorView> {
        match j {
            JsonView::Object(e) => {
                let name = text_field(e, "name"@);
                let url = optional_field::<Url>(e, "url"@);
                let email = text_field(e, "email"@);
                if name is Err {
                    Err(name->Err_0)
                } else if url is Err {
                    Err(url->Err_0)
                } else if email is Err {
                    Err(email->Err_0)
                } else {
                    Ok(
                        ContactView {
                            name: name->Ok_0,
                            url: url->Ok_0,
                            email: email->Ok_0,
                        },
                    )
                }
            },
            _ => Err(ErrorView::mismatch(Expected::Object, j.kind())),
        }
    }

    open spec fn valid(v: ContactView) -> bool {
        &&& (v.url matches Some(x) ==> Url::valid(x))
    }

    proof fn lemma_round_trip(v: ContactView) {
        broadcast use {lemma_lookup_with_entry, lemma_lookup_empty};

        reveal_strlit("name");
        lemma_spell("name"@);
        reveal_strlit("url");
        lemma_spell("url"@);
        reveal_strlit("email");
        lemma_spell("email"@);
        lemma_read_if_text(v.name, "name"@);
        lemma_read_if_some::<Url>(v.url, "url"@);
        lemma_read_if_text(v.email, "email"@);
    }

    fn encode(&self) -> (j: Json) {
        let mut out = no_entries();
        put(&mut out, "name", slot_if_text(&self.name));
        put(&mut out, "url", slot_if_some(&self.url));
        put(&mut out, "email", slot_if_text(&self.email));
        object(out)
    }

    fn decode(j: &Json) -> (r: Result<Self, Error>) {
        let e = entries_of(j)?;
        let name = get_text(e, "name")?;
        let url = get_optional::<Url>(e, "url")?;
        let email = get_text(e, "email")?;
        Ok(Contact { name, url, email })
    }
}

/// License information for the exposed API.
#[derive(Clone, Debug, PartialEq, Default)]
pub struct License {
    /// The license name used for the API.
    pub name: String,
    /// A URL to the license used for the API.
    pub url: Option<Url>,
}

/// View of a [`License`].
pub struct LicenseView {
    pub name: Seq<char>,
    pub url: Option<Seq<char>>,
}

impl DeepView for License {
    type V = LicenseView;

    open spec fn deep_view(&self) -> LicenseView {
        LicenseView {
            name: self.name.deep_view(),
            url: self.url.deep_view(),
        }
    }
}

impl Codec for License {
    open spec fn to_json(v: LicenseView) -> JsonView {
        let e = Seq::empty();
        let e = with_entry(e, "name"@, always::<String>(v.name));
        let e = with_entry(e, "url"@, if_some::<Url>(v.url));
        JsonView::Object(e)
    }

    open spec fn from_json(j: JsonView) -> Result<LicenseView, ErrorView> {
        match j {
            JsonView::Object(e) => {
                let name = required_field::<String>(e, "name"@);
                let url = optional_field::<Url>(e, "url"@);
                if name is Err {
                    Err(name->Err_0)
                } else if url is Err {
                    Err(url->Err_0)
                } else {
                    Ok(
                        LicenseView {
                            name: name->Ok_0,
                            url: url->Ok_0,
                        },
                    )
                }
            },
            _ => Err(ErrorView::mismatch(Expected::Object, j.kind())),
        }
    }

    open spec fn valid(v: LicenseView) -> bool {
        &&& (v.url matches Some(x) ==> Url::valid(x))
    }

    proof fn lemma_round_trip(v: LicenseView) {
        broadcast use {lemma_lookup_with_entry, lemma_lookup_empty};

        reveal_strlit("name");
        lemma_spell("name"@);
        reveal_strlit("url");
        lemma_spell("url"@);
        lemma_read_always::<String>(v.name, "name"@);
        lemma_read_if_some::<Url>(v.url, "url"@);
    }

    fn encode(&self) -> (j: Json) {
        let mut out = no_entries();
        put(&mut out, "name", slot_always(&self.name));
        put(&mut out, "url", slot_if_some(&self.url));
        object(out)
    }

    fn decode(j: &Json) -> (r: Result<Self, Error>) {
        let e = entries_of(j)?;
        let name = get_required::<String>(e, "name")?;
        let url = get_optional::<Url>(e, "url")?;
        Ok(License { name, url })
    }
}

/// General information about the API.
#[derive(Clone, Debug, PartialEq, Default)]
pub struct Info {
    /// The title of the application.
    pub title: String,
    /// A short description of the application.
    pub description: String,
    /// A URL to the Terms of Service for the API.
    pub terms_of_service: Option<Url>,
    /// The version of the document, which is not the version of the format.
    pub version: String,
    /// The contact information for the exposed API.
    pub contact: Option<Contact>,
    /// The license information for the exposed API.
    pub license: Option<License>,
}

/// View of an [`Info`].
pub struct InfoView {
    pub title: Seq<char>,
    pub description: Seq<char>,
    pub terms_of_service: Option<Seq<char>>,
    pub version: Seq<char>,
    pub contact: Option<ContactView>,
    pub license: Option<LicenseView>,
}

impl DeepView for Info {
    type V = InfoView;

    open spec fn deep_view(&self) -> InfoView {
        InfoView {
            title: self.title.deep_view(),
            description: self.description.deep_view(),
            terms_of_service: self.terms_of_service.deep_view(),
            version: self.version.deep_view(),
            contact: self.contact.deep_view(),
            license: self.license.deep_view(),
        }
    }
}

impl Codec for Info {
    open spec fn to_json(v: InfoView) -> JsonView {
        let e = Seq::empty();
        let e = with_entry(e, "title"@, always::<String>(v.title));
        let e = with_entry(e, "description"@, if_text(v.description));
        let e = with_entry(e, "termsOfService"@, if_some::<Url>(v.terms_of_service));
        let e = with_entry(e, "version"@, always::<String>(v.version));
        let e = with_entry(e, "contact"@, if_some::<Contact>(v.contact));
        let e = with_entry(e, "license"@, if_some::<License>(v.license));
        JsonView::Object(e)
    }

    open spec fn from_json(j: JsonView) -> Result<InfoView, ErrorView> {
        match j {
            JsonView::Object(e) => {
                let title = required_field::<String>(e, "title"@);
                let description = text_field(e, "description"@);
                let terms_of_service = optional_field::<Url>(e, "termsOfService"@);
                let version = required_field::<String>(e, "version"@);
                let contact = optional_field::<Contact>(e, "contact"@);
                let license = optional_field::<License>(e, "license"@);
                if title is Err {
                    Err(title->Err_0)
                } else if description is Err {
                    Err(description->Err_0)
                } else if terms_of_service is Err {
                    Err(terms_of_service->Err_0)
                } else if version is Err {
                    Err(version->Err_0)
                } else if contact is Err {
                    Err(contact->Err_0)
                } else if license is Err {
                    Err(license->Err_0)
                } else {
                    Ok(
                        InfoView {
                            title: title->Ok_0,
                            description: description->Ok_0,
                            terms_of_service: terms_of_service->Ok_0,
                            version: version->Ok_0,
                            contact: contact->Ok_0,
                            license: license->Ok_0,
                        },
                    )
                }
            },
            _ => Err(ErrorView::mismatch(Expected::Object, j.kind())),
        }
    }

    open spec fn valid(v: InfoView) -> bool {
        &&& (v.terms_of_service matches Some(x) ==> Url::valid(x))
        &&& (v.contact matches Some(x) ==> Contact::valid(x))
        &&& (v.license matches Some(x) ==> License::valid(x))
    }

    proof fn lemma_round_trip(v: InfoView) {
        broadcast use {lemma_lookup_with_entry, lemma_lookup_empty};

        reveal_strlit("title");
        lemma_spell("title"@);
        reveal_strlit("description");
        lemma_spell("description"@);
        reveal_strlit("termsOfService");
        lemma_spell("termsOfService"@);
        reveal_strlit("version");
        lemma_spell("version"@);
        reveal_strlit("contact");
        lemma_spell("contact"@);
        reveal_strlit("license");
        lemma_spell("license"@);
        lemma_read_always::<String>(v.title, "title"@);
        lemma_read_if_text(v.description, "description"@);
        lemma_read_if_some::<Url>(v.terms_of_service, "termsOfService"@);
        lemma_read_always::<String>(v.version, "version"@);
        lemma_read_if_some::<Contact>(v.contact, "contact"@);
        lemma_read_if_some::<License>(v.license, "license"@);
    }

    fn encode(&self) -> (j: Json) {
        let mut out = no_entries();
        put(&mut out, "title", slot_always(&self.title));
        put(&mut out, "description", slot_if_text(&self.description));
        put(&mut out, "termsOfService", slot_if_some(&self.terms_of_service));
        put(&mut out, "version", slot_always(&self.version));
        put(&mut out, "contact", slot_if_some(&self.contact));
        put(&mut out, "license", slot_if_some(&self.license));
        object(out)
    }

    fn decode(j: &Json) -> (r: Result<Self, Error>) {
        let e = entries_of(j)?;
        let title = get_required::<String>(e, "title")?;
        let description = get_text(e, "description")?;
        let terms_of_service = get_optional::<Url>(e, "termsOfService")?;
        let version = get_required::<String>(e, "version")?;
        let contact = get_optional::<Contact>(e, "contact")?;
        let license = get_optional::<License>(e, "license")?;
        Ok(Info { title, description, terms_of_service, version, contact, license })
    }
}

/// Metadata for a tag that operations use.
#[derive(Clone, Debug, PartialEq, Default)]
pub struct Tag {
    /// The name of the tag.
    pub name: String,
    /// A short description for the tag.
    pub description: String,
}

/// View of a [`Tag`].
pub struct TagView {
    pub name: Seq<char>,
    pub description: Seq<char>,
}

impl DeepView for Tag {
    type V = TagView;

    open spec fn deep_view(&self) -> TagView {
        TagView {
            name: self.name.deep_view(),
            description: self.description.deep_view(),
        }
    }
}

impl Codec for Tag {
    open spec fn to_json(v: TagView) -> JsonView {
        let e = Seq::empty();
        let e = with_entry(e, "name"@, always::<String>(v.name));
        let e = with_entry(e, "description"@, if_text(v.description));
        JsonView::Object(e)
    }

    open spec fn from_json(j: JsonView) -> Result<TagView, ErrorView> {
        match j {
            JsonView::Object(e) => {
                let name = required_field::<String>(e, "name"@);
                let description = text_field(e, "description"@);
                if name is Err {
                    Err(name->Err_0)
                } else if description is Err {
                    Err(description->Err_0)
                } else {
                    Ok(
                        TagView {
                            name: name->Ok_0,
                            description: description->Ok_0,
                        },
                    )
                }
            },
            _ => Err(ErrorView::mismatch(Expected::Object, j.kind())),
        }
    }

    open spec fn valid(v: TagView) -> bool {
        true
    }

    proof fn lemma_round_trip(v: TagView) {
        broadcast use {lemma_lookup_with_entry, lemma_lookup_empty};

        reveal_strlit("name");
        lemma_spell("name"@);
        reveal_strlit("description");
        lemma_spell("description"@);
        lemma_read_always::<String>(v.name, "name"@);
        lemma_read_if_text(v.description, "description"@);
    }

    fn encode(&self) -> (j: Json) {
        let mut out = no_entries();
        put(&mut out, "name", slot_always(&self.name));
        put(&mut out, "description", slot_if_text(&self.description));
        object(out)
    }

    fn decode(j: &Json) -> (r: Result<Self, Error>) {
        let e = entries_of(j)?;
        let name = get_required::<String>(e, "name")?;
        let description = get_text(e, "description")?;
        Ok(Tag { name, description })
    }
}

/// A reference to external documentation.
#[derive(Clone, Debug, PartialEq)]
pub struct ExternalDoc {
    /// The URL for the target documentation.
    pub url: Url,
    /// A short description of the target documentation.
    pub description: String,
}

/// View of an [`ExternalDoc`].
pub struct ExternalDocView {
    pub url: Seq<char>,
    pub description: Seq<char>,
}

impl DeepView for ExternalDoc {
    type V = ExternalDocView;

    open spec fn deep_view(&self) -> ExternalDocView {
        ExternalDocView {
            url: self.url.deep_view(),
            description: self.description.deep_view(),
        }
    }
}

impl Codec for ExternalDoc {
    open spec fn to_json(v: ExternalDocView) -> JsonView {
        let e = Seq::empty();
        let e = with_entry(e, "url"@, always::<Url>(v.url));
        let e = with_entry(e, "description"@, if_text(v.description));
        JsonView::Object(e)
    }

    open spec fn from_json(j: JsonView) -> Result<ExternalDocView, ErrorView> {
        match j {
            JsonView::Object(e) => {
                let url = required_field::<Url>(e, "url"@);
                let description = text_field(e, "description"@);
                if url is Err {
                    Err(url->Err_0)
                } else if description is Err {
                    Err(description->Err_0)
                } else {
                    Ok(
                        ExternalDocView {
                            url: url->Ok_0,
                            description: description->Ok_0,
                        },
                    )
                }
            },
            _ => Err(ErrorView::mismatch(Expected::Object, j.kind())),
        }
    }

    open spec fn valid(v: ExternalDocView) -> bool {
        &&& Url::valid(v.url)
    }

    proof fn lemma_round_trip(v: ExternalDocView) {
        broadcast use {lemma_lookup_with_entry, lemma_lookup_empty};

        reveal_strlit("url");
        lemma_spell("url"@);
        reveal_strlit("description");
        lemma_spell("description"@);
        lemma_read_always::<Url>(v.url, "url"@);
        lemma_read_if_text(v.description, "description"@);
    }

    fn encode(&self) -> (j: Json) {
        let mut out = no_entries();
        put(&mut out, "url", slot_always(&self.url));
        put(&mut out, "description", slot_if_text(&self.description));
        object(out)
    }

    fn decode(j: &Json) -> (r: Result<Self, Error>) {
        let e = entries_of(j)?;
        let url = get_required::<Url>(e, "url")?;
        let description = get_text(e, "description")?;
        Ok(ExternalDoc { url, description })
    }
}

} // verus!
