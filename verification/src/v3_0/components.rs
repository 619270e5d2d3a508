//! Indirection: a value written in place, or a pointer to one that is
//! defined elsewhere.

use crate::codec::Codec;
use crate::error::{Error, ErrorView, Expected};
use crate::json::{Json, JsonView};
use crate::object::{
    entries_of, find, lemma_lookup_empty, lemma_lookup_with_entry, lookup, no_entries, object, put,
    with_entry,
};
use crate::ordered_map::{
    entries_field, get_entries, if_entries, lemma_read_if_entries, map_valid, slot_if_entries,
    OrderedMap,
};
use crate::strings::lemma_spell;
use crate::v3_0::media::{Example, ExampleView};
use crate::v3_0::operation::{
    Callback, Link, LinkView, RequestBody, RequestBodyView, Response, ResponseView,
};
use crate::v3_0::parameter::{Header, HeaderView, Parameter, ParameterView};
use crate::v3_0::schema::{Schema, SchemaView};
use crate::v3_0::security::{SecurityScheme, SecuritySchemeView};
use vstd::prelude::*;

verus! {

/// The pointer of a reference: the text under the key `$ref` of an object.
/// Whatever else the object holds, a value with such an entry is a
/// reference; a value without one is none.
pub open spec fn pointer_in(j: JsonView) -> Option<Seq<char>> {
    match j {
        JsonView::Object(entries) => match lookup(entries, "$ref"@) {
            Some(JsonView::String(pointer)) => Some(pointer),
            _ => None,
        },
        _ => None,
    }
}

/// The JSON form of a reference: an object with the pointer as its only
/// entry.
pub open spec fn reference_to(pointer: Seq<char>) -> JsonView {
    JsonView::Object(seq![("$ref"@, JsonView::String(pointer))])
}

/// The pointer of a written reference is the pointer that was written.
pub proof fn lemma_pointer_in_reference(pointer: Seq<char>)
    ensures
        pointer_in(reference_to(pointer)) == Some(pointer),
{
    let entries = seq![("$ref"@, JsonView::String(pointer))];
    reveal(lookup);
    crate::object::lemma_index_of_first(entries, "$ref"@, 0);
}

/// Looks for the pointer of a reference before anything else is decoded.
pub fn reference_target(j: &Json) -> (r: Option<&String>)
    ensures
        match r {
            Some(pointer) => pointer_in(j.deep_view()) == Some(pointer@),
            None => pointer_in(j.deep_view()) is None,
        },
{
    match j {
        Json::Object(entries) => {
            proof {
                crate::json::lemma_object_view(*entries);
            }
            match find(entries, "$ref") {
                Some(Json::String(pointer)) => Some(pointer),
                _ => None,
            }
        },
        _ => None,
    }
}

/// Writes a reference.
pub fn reference(pointer: String) -> (j: Json)
    ensures
        j.deep_view() == reference_to(pointer@),
{
    let mut out = no_entries();
    out.push(("$ref".to_owned(), Json::String(pointer)));
    assert(out.deep_view() =~= seq![("$ref"@, JsonView::String(pointer@))]);
    object(out)
}

/// A value written in place, or a pointer to one.
#[derive(Clone, Debug, PartialEq)]
pub enum ObjectOrReference<T> {
    Object(T),
    Ref { ref_path: String },
}

/// View of an [`ObjectOrReference`].
pub enum ObjectOrReferenceView<V> {
    Object(V),
    Ref { ref_path: Seq<char> },
}

impl<T: DeepView> DeepView for ObjectOrReference<T> {
    type V = ObjectOrReferenceView<T::V>;

    open spec fn deep_view(&self) -> ObjectOrReferenceView<T::V> {
        match self {
            ObjectOrReference::Object(v) => ObjectOrReferenceView::Object(v.deep_view()),
            ObjectOrReference::Ref { ref_path } => ObjectOrReferenceView::Ref {
                ref_path: ref_path@,
            },
        }
    }
}

impl<T: Codec> Codec for ObjectOrReference<T> {
    open spec fn to_json(v: ObjectOrReferenceView<T::V>) -> JsonView {
        match v {
            ObjectOrReferenceView::Object(x) => T::to_json(x),
            ObjectOrReferenceView::Ref { ref_path } => reference_to(ref_path),
        }
    }

    /// A value with a pointer is a reference, whatever else it holds; any
    /// other value is decoded as the object itself.
    open spec fn from_json(j: JsonView) -> Result<ObjectOrReferenceView<T::V>, ErrorView> {
        match pointer_in(j) {
            Some(pointer) => Ok(ObjectOrReferenceView::Ref { ref_path: pointer }),
            None => match T::from_json(j) {
                Ok(x) => Ok(ObjectOrReferenceView::Object(x)),
                Err(e) => Err(e),
            },
        }
    }

    /// An object is valid where it is valid as a `T` and its JSON form holds
    /// no pointer, which would turn it into a reference.
    open spec fn valid(v: ObjectOrReferenceView<T::V>) -> bool {
        match v {
            ObjectOrReferenceView::Object(x) => T::valid(x) && pointer_in(T::to_json(x)) is None,
            ObjectOrReferenceView::Ref { .. } => true,
        }
    }

    proof fn lemma_round_trip(v: ObjectOrReferenceView<T::V>) {
        match v {
            ObjectOrReferenceView::Object(x) => {
                T::lemma_round_trip(x);
            },
            ObjectOrReferenceView::Ref { ref_path } => {
                lemma_pointer_in_reference(ref_path);
            },
        }
    }

    fn encode(&self) -> (j: Json) {
        match self {
            ObjectOrReference::Object(v) => v.encode(),
            ObjectOrReference::Ref { ref_path } => reference(ref_path.clone()),
        }
    }

    fn decode(j: &Json) -> (r: Result<Self, Error>) {
        match reference_target(j) {
            Some(pointer) => Ok(ObjectOrReference::Ref { ref_path: pointer.clone() }),
            None => match T::decode(j) {
                Ok(v) => Ok(ObjectOrReference::Object(v)),
                Err(e) => Err(e),
            },
        }
    }
}

/// A value that is valid and whose JSON form holds no pointer is valid where
/// it stands in place of a reference.
pub proof fn lemma_object_valid<T: Codec>(v: T::V)
    requires
        T::valid(v),
        pointer_in(T::to_json(v)) is None,
    ensures
        <ObjectOrReference<T> as Codec>::valid(ObjectOrReferenceView::Object(v)),
{
}

/// A reference wins over an object: a value that holds a pointer decodes to
/// the reference, whatever its other entries are.
pub proof fn lemma_reference_wins<T: Codec>(j: JsonView, pointer: Seq<char>)
    requires
        pointer_in(j) == Some(pointer),
    ensures
        <ObjectOrReference<T> as Codec>::from_json(j) == Ok::<
            ObjectOrReferenceView<T::V>,
            ErrorView,
        >(ObjectOrReferenceView::Ref { ref_path: pointer }),
{
}

/// The reusable objects of a document, by kind and by name. They have no effect
/// unless something outside of them refers to them.
#[derive(Clone, Debug, PartialEq, Default)]
pub struct Components {
    /// Reusable schemas.
    pub schemas: OrderedMap<ObjectOrReference<Schema>>,
    /// Reusable responses.
    pub responses: OrderedMap<ObjectOrReference<Response>>,
    /// Reusable parameters.
    pub parameters: OrderedMap<ObjectOrReference<Parameter>>,
    /// Reusable examples.
    pub examples: OrderedMap<ObjectOrReference<Example>>,
    /// Reusable request bodies.
    pub request_bodies: OrderedMap<ObjectOrReference<RequestBody>>,
    /// Reusable headers.
    pub headers: OrderedMap<ObjectOrReference<Header>>,
    /// Reusable security schemes.
    pub security_schemes: OrderedMap<ObjectOrReference<SecurityScheme>>,
    /// Reusable links.
    pub links: OrderedMap<ObjectOrReference<Link>>,
    /// Reusable callbacks.
    pub callbacks: OrderedMap<ObjectOrReference<Callback>>,
}

/// View of a [`Components`].
pub struct ComponentsView {
    pub schemas: Seq<(Seq<char>, ObjectOrReferenceView<SchemaView>)>,
    pub responses: Seq<(Seq<char>, ObjectOrReferenceView<ResponseView>)>,
    pub parameters: Seq<(Seq<char>, ObjectOrReferenceView<ParameterView>)>,
    pub examples: Seq<(Seq<char>, ObjectOrReferenceView<ExampleView>)>,
    pub request_bodies: Seq<(Seq<char>, ObjectOrReferenceView<RequestBodyView>)>,
    pub headers: Seq<(Seq<char>, ObjectOrReferenceView<HeaderView>)>,
    pub security_schemes: Seq<(Seq<char>, ObjectOrReferenceView<SecuritySchemeView>)>,
    pub links: Seq<(Seq<char>, ObjectOrReferenceView<LinkView>)>,
    pub callbacks: Seq<(Seq<char>, ObjectOrReferenceView<JsonView>)>,
}

impl DeepView for Components {
    type V = ComponentsView;

    open spec fn deep_view(&self) -> ComponentsView {
        ComponentsView {
            schemas: self.schemas.deep_view(),
            responses: self.responses.deep_view(),
            parameters: self.parameters.deep_view(),
            examples: self.examples.deep_view(),
            request_bodies: self.request_bodies.deep_view(),
            headers: self.headers.deep_view(),
            security_schemes: self.security_schemes.deep_view(),
            links: self.links.deep_view(),
            callbacks: self.callbacks.deep_view(),
        }
    }
}

impl Codec for Components {
    open spec fn to_json(v: ComponentsView) -> JsonView {
        let e = Seq::empty();
        let e = with_entry(e, "schemas"@, if_entries::<ObjectOrReference<Schema>>(v.schemas));
        let e = with_entry(e, "responses"@, if_entries::<ObjectOrReference<Response>>(v.responses));
        let e = with_entry(
            e,
            "parameters"@,
            if_entries::<ObjectOrReference<Parameter>>(v.parameters),
        );
        let e = with_entry(e, "examples"@, if_entries::<ObjectOrReference<Example>>(v.examples));
        let e = with_entry(
            e,
            "requestBodies"@,
            if_entries::<ObjectOrReference<RequestBody>>(v.request_bodies),
        );
        let e = with_entry(e, "headers"@, if_entries::<ObjectOrReference<Header>>(v.headers));
        let e = with_entry(
            e,
            "securitySchemes"@,
            if_entries::<ObjectOrReference<SecurityScheme>>(v.security_schemes),
        );
        let e = with_entry(e, "links"@, if_entries::<ObjectOrReference<Link>>(v.links));
        let e = with_entry(e, "callbacks"@, if_entries::<ObjectOrReference<Callback>>(v.callbacks));
        JsonView::Object(e)
    }

    open spec fn from_json(j: JsonView) -> Result<ComponentsView, ErrorView> {
        match j {
            JsonView::Object(e) => {
                let schemas = entries_field::<ObjectOrReference<Schema>>(e, "schemas"@);
                let responses = entries_field::<ObjectOrReference<Response>>(e, "responses"@);
                let parameters = entries_field::<ObjectOrReference<Parameter>>(e, "parameters"@);
                let examples = entries_field::<ObjectOrReference<Example>>(e, "examples"@);
                let request_bodies = entries_field::<ObjectOrReference<RequestBody>>(
                    e,
                    "requestBodies"@,
                );
                let headers = entries_field::<ObjectOrReference<Header>>(e, "headers"@);
                let security_schemes = entries_field::<ObjectOrReference<SecurityScheme>>(
                    e,
                    "securitySchemes"@,
                );
                let links = entries_field::<ObjectOrReference<Link>>(e, "links"@);
                let callbacks = entries_field::<ObjectOrReference<Callback>>(e, "callbacks"@);
                if schemas is Err {
                    Err(schemas->Err_0)
                } else if responses is Err {
                    Err(responses->Err_0)
                } else if parameters is Err {
                    Err(parameters->Err_0)
                } else if examples is Err {
                    Err(examples->Err_0)
                } else if request_bodies is Err {
                    Err(request_bodies->Err_0)
                } else if headers is Err {
                    Err(headers->Err_0)
                } else if security_schemes is Err {
                    Err(security_schemes->Err_0)
                } else if links is Err {
                    Err(links->Err_0)
                } else if callbacks is Err {
                    Err(callbacks->Err_0)
                } else {
                    Ok(
                        ComponentsView {
                            schemas: schemas->Ok_0,
                            responses: responses->Ok_0,
                            parameters: parameters->Ok_0,
                            examples: examples->Ok_0,
                            request_bodies: request_bodies->Ok_0,
                            headers: headers->Ok_0,
                            security_schemes: security_schemes->Ok_0,
                            links: links->Ok_0,
                            callbacks: callbacks->Ok_0,
                        },
                    )
                }
            },
            _ => Err(ErrorView::mismatch(Expected::Object, j.kind())),
        }
    }

    open spec fn valid(v: ComponentsView) -> bool {
        &&& map_valid::<ObjectOrReference<Schema>>(v.schemas)
        &&& map_valid::<ObjectOrReference<Response>>(v.responses)
        &&& map_valid::<ObjectOrReference<Parameter>>(v.parameters)
        &&& map_valid::<ObjectOrReference<Example>>(v.examples)
        &&& map_valid::<ObjectOrReference<RequestBody>>(v.request_bodies)
        &&& map_valid::<ObjectOrReference<Header>>(v.headers)
        &&& map_valid::<ObjectOrReference<SecurityScheme>>(v.security_schemes)
        &&& map_valid::<ObjectOrReference<Link>>(v.links)
        &&& map_valid::<ObjectOrReference<Callback>>(v.callbacks)
    }

    proof fn lemma_round_trip(v: ComponentsView) {
        broadcast use {lemma_lookup_with_entry, lemma_lookup_empty};

        reveal_strlit("schemas");
        lemma_spell("schemas"@);
        reveal_strlit("responses");
        lemma_spell("responses"@);
        reveal_strlit("parameters");
        lemma_spell("parameters"@);
        reveal_strlit("examples");
        lemma_spell("examples"@);
        reveal_strlit("requestBodies");
        lemma_spell("requestBodies"@);
        reveal_strlit("headers");
        lemma_spell("headers"@);
        reveal_strlit("securitySchemes");
        lemma_spell("securitySchemes"@);
        reveal_strlit("links");
        lemma_spell("links"@);
        reveal_strlit("callbacks");
        lemma_spell("callbacks"@);
        lemma_read_if_entries::<ObjectOrReference<Schema>>(v.schemas, "schemas"@);
        lemma_read_if_entries::<ObjectOrReference<Response>>(v.responses, "responses"@);
        lemma_read_if_entries::<ObjectOrReference<Parameter>>(v.parameters, "parameters"@);
        lemma_read_if_entries::<ObjectOrReference<Example>>(v.examples, "examples"@);
        lemma_read_if_entries::<ObjectOrReference<RequestBody>>(v.request_bodies, "requestBodies"@);
        lemma_read_if_entries::<ObjectOrReference<Header>>(v.headers, "headers"@);
        lemma_read_if_entries::<ObjectOrReference<SecurityScheme>>(
            v.security_schemes,
            "securitySchemes"@,
        );
        lemma_read_if_entries::<ObjectOrReference<Link>>(v.links, "links"@);
        lemma_read_if_entries::<ObjectOrReference<Callback>>(v.callbacks, "callbacks"@);
    }

    fn encode(&self) -> (j: Json) {
        let mut out = no_entries();
        put(&mut out, "schemas", slot_if_entries(&self.schemas));
        put(&mut out, "responses", slot_if_entries(&self.responses));
        put(&mut out, "parameters", slot_if_entries(&self.parameters));
        put(&mut out, "examples", slot_if_entries(&self.examples));
        put(&mut out, "requestBodies", slot_if_entries(&self.request_bodies));
        put(&mut out, "headers", slot_if_entries(&self.headers));
        put(&mut out, "securitySchemes", slot_if_entries(&self.security_schemes));
        put(&mut out, "links", slot_if_entries(&self.links));
        put(&mut out, "callbacks", slot_if_entries(&self.callbacks));
        object(out)
    }

    fn decode(j: &Json) -> (r: Result<Self, Error>) {
        let e = entries_of(j)?;
        let schemas = get_entries::<ObjectOrReference<Schema>>(e, "schemas")?;
        let responses = get_entries::<ObjectOrReference<Response>>(e, "responses")?;
        let parameters = get_entries::<ObjectOrReference<Parameter>>(e, "parameters")?;
        let examples = get_entries::<ObjectOrReference<Example>>(e, "examples")?;
        let request_bodies = get_entries::<ObjectOrReference<RequestBody>>(e, "requestBodies")?;
        let headers = get_entries::<ObjectOrReference<Header>>(e, "headers")?;
        let security_schemes = get_entries::<ObjectOrReference<SecurityScheme>>(
            e,
            "securitySchemes",
        )?;
        let links = get_entries::<ObjectOrReference<Link>>(e, "links")?;
        let callbacks = get_entries::<ObjectOrReference<Callback>>(e, "callbacks")?;
        Ok(
            Components {
                schemas,
                responses,
                parameters,
                examples,
                request_bodies,
                headers,
                security_schemes,
                links,
                callbacks,
            },
        )
    }
}

} // verus!
