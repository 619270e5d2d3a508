//! Paths, their operations, and what operations take and give.

use crate::codec::{list_valid, Codec};
use crate::error::{result_view, Error, ErrorView, Expected};
use crate::json::{Json, JsonView};
use crate::object::{
    always, entries_of, get_items, get_optional, get_required, get_text, if_items, if_some, if_text,
    items_field, lemma_lookup_empty, lemma_lookup_with_entry, lemma_read_always,
    lemma_read_if_items, lemma_read_if_some, lemma_read_if_text, lookup, no_entries, object,
    optional_field, put, required_field, slot_always, slot_if_items, slot_if_some, slot_if_text,
    text_field, with_entry,
};
use crate::ordered_map::{
    entries_field, get_entries, if_entries, lemma_read_if_entries, map_valid, slot_if_entries,
    OrderedMap,
};
use crate::strings::lemma_spell;
use crate::v3_0::components::{pointer_in, ObjectOrReference, ObjectOrReferenceView};
use crate::v3_0::info::{ExternalDoc, ExternalDocView};
use crate::v3_0::media::{MediaType, MediaTypeView};
use crate::v3_0::parameter::{Header, HeaderView, Parameter, ParameterView};
use crate::v3_0::server::{Server, ServerView};
use crate::variant::{
    lemma_select_two, no_variant, resolve_failure, select, select_variant, two_keys,
};
use vstd::prelude::*;

verus! {

/// Lists the security schemes that one way to authorize a request requires,
/// each with the scopes it needs.
pub type SecurityRequirement = OrderedMap<Vec<String>>;

/// A runtime expression, or a literal value. A string is an expression; any
/// other value is a literal.
#[derive(Clone, Debug, PartialEq)]
pub enum RuntimeExpressionOrValue {
    RuntimeExpression(String),
    LiteralValue(Json),
}

/// View of a [`RuntimeExpressionOrValue`].
pub enum RuntimeExpressionOrValueView {
    RuntimeExpression(Seq<char>),
    LiteralValue(JsonView),
}

impl DeepView for RuntimeExpressionOrValue {
    type V = RuntimeExpressionOrValueView;

    open spec fn deep_view(&self) -> RuntimeExpressionOrValueView {
        match self {
            RuntimeExpressionOrValue::RuntimeExpression(s) => {
                RuntimeExpressionOrValueView::RuntimeExpression(s.deep_view())
            },
            RuntimeExpressionOrValue::LiteralValue(v) => {
                RuntimeExpressionOrValueView::LiteralValue(v.deep_view())
            },
        }
    }
}

impl Codec for RuntimeExpressionOrValue {
    open spec fn to_json(v: RuntimeExpressionOrValueView) -> JsonView {
        match v {
            RuntimeExpressionOrValueView::RuntimeExpression(s) => JsonView::String(s),
            RuntimeExpressionOrValueView::LiteralValue(x) => x,
        }
    }

    open spec fn from_json(j: JsonView) -> Result<RuntimeExpressionOrValueView, ErrorView> {
        match j {
            JsonView::String(s) => Ok(RuntimeExpressionOrValueView::RuntimeExpression(s)),
            _ => Ok(RuntimeExpressionOrValueView::LiteralValue(j)),
        }
    }

    /// A literal is valid unless it is a string, which reads as an expression.
    open spec fn valid(v: RuntimeExpressionOrValueView) -> bool {
        match v {
            RuntimeExpressionOrValueView::RuntimeExpression(_) => true,
            RuntimeExpressionOrValueView::LiteralValue(x) => x !is String,
        }
    }

    proof fn lemma_round_trip(v: RuntimeExpressionOrValueView) {
    }

    fn encode(&self) -> (j: Json) {
        match self {
            RuntimeExpressionOrValue::RuntimeExpression(s) => Json::String(s.clone()),
            RuntimeExpressionOrValue::LiteralValue(v) => v.clone(),
        }
    }

    fn decode(j: &Json) -> (r: Result<Self, Error>) {
        match j {
            Json::String(s) => Ok(RuntimeExpressionOrValue::RuntimeExpression(s.clone())),
            _ => Ok(RuntimeExpressionOrValue::LiteralValue(j.clone())),
        }
    }
}

/// A callback: requests that the provider of the API may send, kept as the
/// free-form value it is written as.
#[derive(Clone, Debug, PartialEq, Default)]
pub struct Callback(pub Json);

impl DeepView for Callback {
    type V = JsonView;

    open spec fn deep_view(&self) -> JsonView {
        self.0.deep_view()
    }
}

impl Codec for Callback {
    open spec fn to_json(v: JsonView) -> JsonView {
        v
    }

    open spec fn from_json(j: JsonView) -> Result<JsonView, ErrorView> {
        Ok(j)
    }

    open spec fn valid(v: JsonView) -> bool {
        true
    }

    proof fn lemma_round_trip(v: JsonView) {
    }

    fn encode(&self) -> (j: Json) {
        self.0.clone()
    }

    fn decode(j: &Json) -> (r: Result<Self, Error>) {
        Ok(Callback(j.clone()))
    }
}

/// The operation that a link leads to: by its name, or by a reference.
#[derive(Clone, Debug, PartialEq)]
pub enum LinkOperation {
    /// The name of an operation of the same document.
    Id { operation_id: String },
    /// A relative or absolute reference to an operation.
    Ref { operation_ref: String },
}

/// View of a [`LinkOperation`].
pub enum LinkOperationView {
    Id { operation_id: Seq<char> },
    Ref { operation_ref: Seq<char> },
}

impl DeepView for LinkOperation {
    type V = LinkOperationView;

    open spec fn deep_view(&self) -> LinkOperationView {
        match self {
            LinkOperation::Id { operation_id } => LinkOperationView::Id {
                operation_id: operation_id.deep_view(),
            },
            LinkOperation::Ref { operation_ref } => LinkOperationView::Ref {
                operation_ref: operation_ref.deep_view(),
            },
        }
    }
}

impl LinkOperationView {
    /// The keys that select each variant, in the order of declaration.
    pub open spec fn candidates() -> Seq<Seq<Seq<char>>> {
        seq![seq!["operationId"@], seq!["operationRef"@]]
    }

    /// What is written under `operationId`.
    pub open spec fn operation_id_slot(u: Option<LinkOperationView>) -> Option<JsonView> {
        match u {
            Some(LinkOperationView::Id { operation_id }) => always::<String>(operation_id),
            _ => None,
        }
    }

    /// What is written under `operationRef`.
    pub open spec fn operation_ref_slot(u: Option<LinkOperationView>) -> Option<JsonView> {
        match u {
            Some(LinkOperationView::Ref { operation_ref }) => always::<String>(operation_ref),
            _ => None,
        }
    }

    /// The entries with the union written after them: the key of its variant
    /// where it is set, nothing where it is not.
    pub open spec fn written(
        e: Seq<(Seq<char>, JsonView)>,
        u: Option<LinkOperationView>,
    ) -> Seq<(Seq<char>, JsonView)> {
        let e = with_entry(e, "operationId"@, LinkOperationView::operation_id_slot(u));
        with_entry(e, "operationRef"@, LinkOperationView::operation_ref_slot(u))
    }

    /// The union that the keys of an object select: the first variant whose
    /// key is present, read from under that key; unset where neither key is
    /// present.
    pub open spec fn read(
        e: Seq<(Seq<char>, JsonView)>,
    ) -> Result<Option<LinkOperationView>, ErrorView> {
        match select(e, LinkOperationView::candidates()) {
            None => Ok(None),
            Some(i) => if i == 0 {
                match required_field::<String>(e, "operationId"@) {
                    Ok(operation_id) => Ok(Some(LinkOperationView::Id { operation_id })),
                    Err(err) => Err(err),
                }
            } else {
                match required_field::<String>(e, "operationRef"@) {
                    Ok(operation_ref) => Ok(Some(LinkOperationView::Ref { operation_ref })),
                    Err(err) => Err(err),
                }
            },
        }
    }

    /// The union where it must be set: keys that select no variant are a
    /// failure that names the candidates and the keys seen.
    pub open spec fn read_required(
        e: Seq<(Seq<char>, JsonView)>,
    ) -> Result<LinkOperationView, ErrorView> {
        match LinkOperationView::read(e) {
            Ok(Some(u)) => Ok(u),
            Ok(None) => resolve_failure(e, LinkOperationView::candidates()),
            Err(err) => Err(err),
        }
    }

    /// The values that are read back as they were written.
    pub open spec fn valid(self) -> bool {
        match self {
            LinkOperationView::Id { .. } => true,
            LinkOperationView::Ref { .. } => true,
        }
    }

    /// A union is read back from entries that hold under each of its keys what
    /// was written there.
    pub proof fn lemma_read_written(e: Seq<(Seq<char>, JsonView)>, u: Option<LinkOperationView>)
        requires
            lookup(e, "operationId"@) == LinkOperationView::operation_id_slot(u),
            lookup(e, "operationRef"@) == LinkOperationView::operation_ref_slot(u),
            u matches Some(x) ==> x.valid(),
        ensures
            LinkOperationView::read(e) == Ok::<Option<LinkOperationView>, ErrorView>(u),
            u matches Some(x) ==> LinkOperationView::read_required(e)
                == Ok::<LinkOperationView, ErrorView>(x),
    {
        lemma_select_two(e, "operationId"@, "operationRef"@);
        match u {
            Some(LinkOperationView::Id { operation_id }) => {
                lemma_read_always::<String>(operation_id, "operationId"@);
            },
            Some(LinkOperationView::Ref { operation_ref }) => {
                lemma_read_always::<String>(operation_ref, "operationRef"@);
            },
            None => {},
        }
    }
}

impl LinkOperation {
    /// Writes the union, which is set, after the entries of the object that
    /// holds it.
    pub fn write_one(out: &mut Vec<(String, Json)>, u: &LinkOperation)
        ensures
            final(out).deep_view() == LinkOperationView::written(
                old(out).deep_view(),
                Some(u.deep_view()),
            ),
    {
        match u {
            LinkOperation::Id { operation_id } => {
                put(out, "operationId", slot_always(operation_id));
                put(out, "operationRef", None);
            },
            LinkOperation::Ref { operation_ref } => {
                put(out, "operationId", None);
                put(out, "operationRef", slot_always(operation_ref));
            },
        }
    }

    /// Writes the union after the entries of the object that holds it:
    /// nothing where it is unset.
    pub fn write(out: &mut Vec<(String, Json)>, u: &Option<LinkOperation>)
        ensures
            final(out).deep_view() == LinkOperationView::written(
                old(out).deep_view(),
                u.deep_view(),
            ),
    {
        match u {
            Some(x) => {
                LinkOperation::write_one(out, x);
            },
            None => {
                put(out, "operationId", None);
                put(out, "operationRef", None);
            },
        }
    }

    /// Reads the union from the entries of the object that holds it.
    pub fn read(e: &Vec<(String, Json)>) -> (r: Result<Option<LinkOperation>, Error>)
        ensures
            result_view(r) == LinkOperationView::read(e.deep_view()),
    {
        let candidates = two_keys("operationId", "operationRef");
        match select_variant(e, &candidates) {
            None => Ok(None),
            Some(i) => if i == 0 {
                let operation_id = get_required::<String>(e, "operationId")?;
                Ok(Some(LinkOperation::Id { operation_id }))
            } else {
                let operation_ref = get_required::<String>(e, "operationRef")?;
                Ok(Some(LinkOperation::Ref { operation_ref }))
            },
        }
    }

    /// Reads the union where it must be set.
    pub fn read_required(e: &Vec<(String, Json)>) -> (r: Result<LinkOperation, Error>)
        ensures
            result_view(r) == LinkOperationView::read_required(e.deep_view()),
    {
        match LinkOperation::read(e)? {
            Some(u) => Ok(u),
            None => Err(no_variant(e, two_keys("operationId", "operationRef"))),
        }
    }
}

impl Codec for LinkOperation {
    open spec fn to_json(v: LinkOperationView) -> JsonView {
        JsonView::Object(LinkOperationView::written(Seq::empty(), Some(v)))
    }

    open spec fn from_json(j: JsonView) -> Result<LinkOperationView, ErrorView> {
        match j {
            JsonView::Object(e) => LinkOperationView::read_required(e),
            _ => Err(ErrorView::mismatch(Expected::Object, j.kind())),
        }
    }

    open spec fn valid(v: LinkOperationView) -> bool {
        v.valid()
    }

    proof fn lemma_round_trip(v: LinkOperationView) {
        broadcast use {lemma_lookup_with_entry, lemma_lookup_empty};

        reveal_strlit("operationId");
        lemma_spell("operationId"@);
        reveal_strlit("operationRef");
        lemma_spell("operationRef"@);
        LinkOperationView::lemma_read_written(
            LinkOperationView::written(Seq::empty(), Some(v)),
            Some(v),
        );
    }

    fn encode(&self) -> (j: Json) {
        let mut out = no_entries();
        LinkOperation::write_one(&mut out, self);
        object(out)
    }

    fn decode(j: &Json) -> (r: Result<Self, Error>) {
        let e = entries_of(j)?;
        LinkOperation::read_required(e)
    }
}

/// A link from a response to another operation.
#[derive(Clone, Debug, PartialEq)]
pub struct Link {
    /// The operation that the link leads to.
    pub operation: LinkOperation,
    /// The parameters to pass to the operation, by name.
    pub parameters: OrderedMap<RuntimeExpressionOrValue>,
    /// The request body to send to the operation.
    pub request_body: Option<RuntimeExpressionOrValue>,
    /// A description of the link.
    pub description: String,
    /// The server that the operation is to use.
    pub server: Option<Server>,
}

/// View of a [`Link`].
pub struct LinkView {
    pub operation: LinkOperationView,
    pub parameters: Seq<(Seq<char>, RuntimeExpressionOrValueView)>,
    pub request_body: Option<RuntimeExpressionOrValueView>,
    pub description: Seq<char>,
    pub server: Option<ServerView>,
}

impl DeepView for Link {
    type V = LinkView;

    open spec fn deep_view(&self) -> LinkView {
        LinkView {
            operation: self.operation.deep_view(),
            parameters: self.parameters.deep_view(),
            request_body: self.request_body.deep_view(),
            description: self.description.deep_view(),
            server: self.server.deep_view(),
        }
    }
}

impl Codec for Link {
    open spec fn to_json(v: LinkView) -> JsonView {
        let e = Seq::empty();
        let e = LinkOperationView::written(e, Some(v.operation));
        let e = with_entry(e, "parameters"@, if_entries::<RuntimeExpressionOrValue>(v.parameters));
        let e = with_entry(e, "requestBody"@, if_some::<RuntimeExpressionOrValue>(v.request_body));
        let e = with_entry(e, "description"@, if_text(v.description));
        let e = with_entry(e, "server"@, if_some::<Server>(v.server));
        JsonView::Object(e)
    }

    open spec fn from_json(j: JsonView) -> Result<LinkView, ErrorView> {
        match j {
            JsonView::Object(e) => {
                let operation = LinkOperationView::read_required(e);
                let parameters = entries_field::<RuntimeExpressionOrValue>(e, "parameters"@);
                let request_body = optional_field::<RuntimeExpressionOrValue>(e, "requestBody"@);
                let description = text_field(e, "description"@);
                let server = optional_field::<Server>(e, "server"@);
                if operation is Err {
                    Err(operation->Err_0)
                } else if parameters is Err {
                    Err(parameters->Err_0)
                } else if request_body is Err {
                    Err(request_body->Err_0)
                } else if description is Err {
                    Err(description->Err_0)
                } else if server is Err {
                    Err(server->Err_0)
                } else {
                    Ok(
                        LinkView {
                            operation: operation->Ok_0,
                            parameters: parameters->Ok_0,
                            request_body: request_body->Ok_0,
                            description: description->Ok_0,
                            server: server->Ok_0,
                        },
                    )
                }
            },
            _ => Err(ErrorView::mismatch(Expected::Object, j.kind())),
        }
    }

    open spec fn valid(v: LinkView) -> bool {
        &&& v.operation.valid()
        &&& map_valid::<RuntimeExpressionOrValue>(v.parameters)
        &&& (v.request_body matches Some(x) ==> RuntimeExpressionOrValue::valid(x)
            && x != RuntimeExpressionOrValueView::LiteralValue(JsonView::Null))
        &&& (v.server matches Some(x) ==> Server::valid(x))
    }

    proof fn lemma_round_trip(v: LinkView) {
        broadcast use {lemma_lookup_with_entry, lemma_lookup_empty};

        reveal_strlit("operationId");
        lemma_spell("operationId"@);
        reveal_strlit("operationRef");
        lemma_spell("operationRef"@);
        reveal_strlit("parameters");
        lemma_spell("parameters"@);
        reveal_strlit("requestBody");
        lemma_spell("requestBody"@);
        reveal_strlit("description");
        lemma_spell("description"@);
        reveal_strlit("server");
        lemma_spell("server"@);
        LinkOperationView::lemma_read_written(Self::to_json(v)->Object_0, Some(v.operation));
        lemma_read_if_entries::<RuntimeExpressionOrValue>(v.parameters, "parameters"@);
        lemma_read_if_some::<RuntimeExpressionOrValue>(v.request_body, "requestBody"@);
        lemma_read_if_text(v.description, "description"@);
        lemma_read_if_some::<Server>(v.server, "server"@);
    }

    fn encode(&self) -> (j: Json) {
        let mut out = no_entries();
        LinkOperation::write_one(&mut out, &self.operation);
        put(&mut out, "parameters", slot_if_entries(&self.parameters));
        put(&mut out, "requestBody", slot_if_some(&self.request_body));
        put(&mut out, "description", slot_if_text(&self.description));
        put(&mut out, "server", slot_if_some(&self.server));
        object(out)
    }

    fn decode(j: &Json) -> (r: Result<Self, Error>) {
        let e = entries_of(j)?;
        let operation = LinkOperation::read_required(e)?;
        let parameters = get_entries::<RuntimeExpressionOrValue>(e, "parameters")?;
        let request_body = get_optional::<RuntimeExpressionOrValue>(e, "requestBody")?;
        let description = get_text(e, "description")?;
        let server = get_optional::<Server>(e, "server")?;
        Ok(Link { operation, parameters, request_body, description, server })
    }
}

impl LinkView {
    /// The JSON form holds no pointer, so that the value written in place is
    /// not taken for a reference.
    pub proof fn lemma_no_pointer(self)
        ensures
            pointer_in(Link::to_json(self)) is None,
    {
        broadcast use {lemma_lookup_with_entry, lemma_lookup_empty};

        reveal_strlit("$ref");
        lemma_spell("$ref"@);
        reveal_strlit("operationId");
        lemma_spell("operationId"@);
        reveal_strlit("operationRef");
        lemma_spell("operationRef"@);
        reveal_strlit("parameters");
        lemma_spell("parameters"@);
        reveal_strlit("requestBody");
        lemma_spell("requestBody"@);
        reveal_strlit("description");
        lemma_spell("description"@);
        reveal_strlit("server");
        lemma_spell("server"@);
    }
}

/// A request body.
#[derive(Clone, Debug, PartialEq, Default)]
pub struct RequestBody {
    /// A brief description of the request body.
    pub description: String,
    /// The content of the request body, by media type.
    pub content: OrderedMap<MediaType>,
    /// Whether the request body is mandatory.
    pub required: Option<bool>,
}

/// View of a [`RequestBody`].
pub struct RequestBodyView {
    pub description: Seq<char>,
    pub content: Seq<(Seq<char>, MediaTypeView)>,
    pub required: Option<bool>,
}

impl DeepView for RequestBody {
    type V = RequestBodyView;

    open spec fn deep_view(&self) -> RequestBodyView {
        RequestBodyView {
            description: self.description.deep_view(),
            content: self.content.deep_view(),
            required: self.required.deep_view(),
        }
    }
}

impl Codec for RequestBody {
    open spec fn to_json(v: RequestBodyView) -> JsonView {
        let e = Seq::empty();
        let e = with_entry(e, "description"@, if_text(v.description));
        let e = with_entry(e, "content"@, always::<OrderedMap<MediaType>>(v.content));
        let e = with_entry(e, "required"@, if_some::<bool>(v.required));
        JsonView::Object(e)
    }

    open spec fn from_json(j: JsonView) -> Result<RequestBodyView, ErrorView> {
        match j {
            JsonView::Object(e) => {
                let description = text_field(e, "description"@);
                let content = required_field::<OrderedMap<MediaType>>(e, "content"@);
                let required = optional_field::<bool>(e, "required"@);
                if description is Err {
                    Err(description->Err_0)
                } else if content is Err {
                    Err(content->Err_0)
                } else if required is Err {
                    Err(required->Err_0)
                } else {
                    Ok(
                        RequestBodyView {
                            description: description->Ok_0,
                            content: content->Ok_0,
                            required: required->Ok_0,
                        },
                    )
                }
            },
            _ => Err(ErrorView::mismatch(Expected::Object, j.kind())),
        }
    }

    open spec fn valid(v: RequestBodyView) -> bool {
        &&& <OrderedMap<MediaType> as Codec>::valid(v.content)
    }

    proof fn lemma_round_trip(v: RequestBodyView) {
        broadcast use {lemma_lookup_with_entry, lemma_lookup_empty};

        reveal_strlit("description");
        lemma_spell("description"@);
        reveal_strlit("content");
        lemma_spell("content"@);
        reveal_strlit("required");
        lemma_spell("required"@);
        lemma_read_if_text(v.description, "description"@);
        lemma_read_always::<OrderedMap<MediaType>>(v.content, "content"@);
        lemma_read_if_some::<bool>(v.required, "required"@);
    }

    fn encode(&self) -> (j: Json) {
        let mut out = no_entries();
        put(&mut out, "description", slot_if_text(&self.description));
        put(&mut out, "content", slot_always(&self.content));
        put(&mut out, "required", slot_if_some(&self.required));
        object(out)
    }

    fn decode(j: &Json) -> (r: Result<Self, Error>) {
        let e = entries_of(j)?;
        let description = get_text(e, "description")?;
        let content = get_required::<OrderedMap<MediaType>>(e, "content")?;
        let required = get_optional::<bool>(e, "required")?;
        Ok(RequestBody { description, content, required })
    }
}

impl RequestBodyView {
    /// The JSON form holds no pointer, so that the value written in place is
    /// not taken for a reference.
    pub proof fn lemma_no_pointer(self)
        ensures
            pointer_in(RequestBody::to_json(self)) is None,
    {
        broadcast use {lemma_lookup_with_entry, lemma_lookup_empty};

        reveal_strlit("$ref");
        lemma_spell("$ref"@);
        reveal_strlit("description");
        lemma_spell("description"@);
        reveal_strlit("content");
        lemma_spell("content"@);
        reveal_strlit("required");
        lemma_spell("required"@);
    }
}

/// A response of an operation.
#[derive(Clone, Debug, PartialEq, Default)]
pub struct Response {
    /// A short description of the response.
    pub description: String,
    /// The headers of the response, by name.
    pub headers: OrderedMap<ObjectOrReference<Header>>,
    /// The payloads that the response may have, by media type.
    pub content: OrderedMap<MediaType>,
    /// The links that can be followed from the response, by name.
    pub links: OrderedMap<ObjectOrReference<Link>>,
}

/// View of a [`Response`].
pub struct ResponseView {
    pub description: Seq<char>,
    pub headers: Seq<(Seq<char>, ObjectOrReferenceView<HeaderView>)>,
    pub content: Seq<(Seq<char>, MediaTypeView)>,
    pub links: Seq<(Seq<char>, ObjectOrReferenceView<LinkView>)>,
}

impl DeepView for Response {
    type V = ResponseView;

    open spec fn deep_view(&self) -> ResponseView {
        ResponseView {
            description: self.description.deep_view(),
            headers: self.headers.deep_view(),
            content: self.content.deep_view(),
            links: self.links.deep_view(),
        }
    }
}

impl Codec for Response {
    open spec fn to_json(v: ResponseView) -> JsonView {
        let e = Seq::empty();
        let e = with_entry(e, "description"@, always::<String>(v.description));
        let e = with_entry(e, "headers"@, if_entries::<ObjectOrReference<Header>>(v.headers));
        let e = with_entry(e, "content"@, if_entries::<MediaType>(v.content));
        let e = with_entry(e, "links"@, if_entries::<ObjectOrReference<Link>>(v.links));
        JsonView::Object(e)
    }

    open spec fn from_json(j: JsonView) -> Result<ResponseView, ErrorView> {
        match j {
            JsonView::Object(e) => {
                let description = required_field::<String>(e, "description"@);
                let headers = entries_field::<ObjectOrReference<Header>>(e, "headers"@);
                let content = entries_field::<MediaType>(e, "content"@);
                let links = entries_field::<ObjectOrReference<Link>>(e, "links"@);
                if description is Err {
                    Err(description->Err_0)
                } else if headers is Err {
                    Err(headers->Err_0)
                } else if content is Err {
                    Err(content->Err_0)
                } else if links is Err {
                    Err(links->Err_0)
                } else {
                    Ok(
                        ResponseView {
                            description: description->Ok_0,
                            headers: headers->Ok_0,
                            content: content->Ok_0,
                            links: links->Ok_0,
                        },
                    )
                }
            },
            _ => Err(ErrorView::mismatch(Expected::Object, j.kind())),
        }
    }

    open spec fn valid(v: ResponseView) -> bool {
        &&& map_valid::<ObjectOrReference<Header>>(v.headers)
        &&& map_valid::<MediaType>(v.content)
        &&& map_valid::<ObjectOrReference<Link>>(v.links)
    }

    proof fn lemma_round_trip(v: ResponseView) {
        broadcast use {lemma_lookup_with_entry, lemma_lookup_empty};

        reveal_strlit("description");
        lemma_spell("description"@);
        reveal_strlit("headers");
        lemma_spell("headers"@);
        reveal_strlit("content");
        lemma_spell("content"@);
        reveal_strlit("links");
        lemma_spell("links"@);
        lemma_read_always::<String>(v.description, "description"@);
        lemma_read_if_entries::<ObjectOrReference<Header>>(v.headers, "headers"@);
        lemma_read_if_entries::<MediaType>(v.content, "content"@);
        lemma_read_if_entries::<ObjectOrReference<Link>>(v.links, "links"@);
    }

    fn encode(&self) -> (j: Json) {
        let mut out = no_entries();
        put(&mut out, "description", slot_always(&self.description));
        put(&mut out, "headers", slot_if_entries(&self.headers));
        put(&mut out, "content", slot_if_entries(&self.content));
        put(&mut out, "links", slot_if_entries(&self.links));
        object(out)
    }

    fn decode(j: &Json) -> (r: Result<Self, Error>) {
        let e = entries_of(j)?;
        let description = get_required::<String>(e, "description")?;
        let headers = get_entries::<ObjectOrReference<Header>>(e, "headers")?;
        let content = get_entries::<MediaType>(e, "content")?;
        let links = get_entries::<ObjectOrReference<Link>>(e, "links")?;
        Ok(Response { description, headers, content, links })
    }
}

impl ResponseView {
    /// The JSON form holds no pointer, so that the value written in place is
    /// not taken for a reference.
    pub proof fn lemma_no_pointer(self)
        ensures
            pointer_in(Response::to_json(self)) is None,
    {
        broadcast use {lemma_lookup_with_entry, lemma_lookup_empty};

        reveal_strlit("$ref");
        lemma_spell("$ref"@);
        reveal_strlit("description");
        lemma_spell("description"@);
        reveal_strlit("headers");
        lemma_spell("headers"@);
        reveal_strlit("content");
        lemma_spell("content"@);
        reveal_strlit("links");
        lemma_spell("links"@);
    }
}

/// One operation on a path.
#[derive(Clone, Debug, PartialEq, Default)]
pub struct Operation {
    /// Tags for grouping operations.
    pub tags: Vec<String>,
    /// A short summary of what the operation does.
    pub summary: String,
    /// A verbose explanation of the operation.
    pub description: String,
    /// Further documentation for the operation.
    pub external_docs: Option<ExternalDoc>,
    /// A name that identifies the operation among all of the document.
    pub operation_id: String,
    /// The parameters of the operation.
    pub parameters: Vec<ObjectOrReference<Parameter>>,
    /// The request body of the operation.
    pub request_body: Option<ObjectOrReference<RequestBody>>,
    /// The responses of the operation, by status code.
    pub responses: OrderedMap<Response>,
    /// The callbacks that belong to the operation, by name.
    pub callbacks: OrderedMap<Callback>,
    /// Whether the operation is deprecated.
    pub deprecated: Option<bool>,
    /// The alternative ways to authorize a request to the operation.
    pub security: Vec<SecurityRequirement>,
    /// The servers that serve the operation, in place of those of the path or the document.
    pub servers: Vec<Server>,
}

/// View of an [`Operation`].
pub struct OperationView {
    pub tags: Seq<Seq<char>>,
    pub summary: Seq<char>,
    pub description: Seq<char>,
    pub external_docs: Option<ExternalDocView>,
    pub operation_id: Seq<char>,
    pub parameters: Seq<ObjectOrReferenceView<ParameterView>>,
    pub request_body: Option<ObjectOrReferenceView<RequestBodyView>>,
    pub responses: Seq<(Seq<char>, ResponseView)>,
    pub callbacks: Seq<(Seq<char>, JsonView)>,
    pub deprecated: Option<bool>,
    pub security: Seq<Seq<(Seq<char>, Seq<Seq<char>>)>>,
    pub servers: Seq<ServerView>,
}

impl DeepView for Operation {
    type V = OperationView;

    open spec fn deep_view(&self) -> OperationView {
        OperationView {
            tags: self.tags.deep_view(),
            summary: self.summary.deep_view(),
            description: self.description.deep_view(),
            external_docs: self.external_docs.deep_view(),
            operation_id: self.operation_id.deep_view(),
            parameters: self.parameters.deep_view(),
            request_body: self.request_body.deep_view(),
            responses: self.responses.deep_view(),
            callbacks: self.callbacks.deep_view(),
            deprecated: self.deprecated.deep_view(),
            security: self.security.deep_view(),
            servers: self.servers.deep_view(),
        }
    }
}

impl Codec for Operation {
    open spec fn to_json(v: OperationView) -> JsonView {
        let e = Seq::empty();
        let e = with_entry(e, "tags"@, if_items::<String>(v.tags));
        let e = with_entry(e, "summary"@, if_text(v.summary));
        let e = with_entry(e, "description"@, if_text(v.description));
        let e = with_entry(e, "externalDocs"@, if_some::<ExternalDoc>(v.external_docs));
        let e = with_entry(e, "operationId"@, if_text(v.operation_id));
        let e = with_entry(
            e,
            "parameters"@,
            if_items::<ObjectOrReference<Parameter>>(v.parameters),
        );
        let e = with_entry(
            e,
            "requestBody"@,
            if_some::<ObjectOrReference<RequestBody>>(v.request_body),
        );
        let e = with_entry(e, "responses"@, always::<OrderedMap<Response>>(v.responses));
        let e = with_entry(e, "callbacks"@, if_entries::<Callback>(v.callbacks));
        let e = with_entry(e, "deprecated"@, if_some::<bool>(v.deprecated));
        let e = with_entry(e, "security"@, if_items::<SecurityRequirement>(v.security));
        let e = with_entry(e, "servers"@, if_items::<Server>(v.servers));
        JsonView::Object(e)
    }

    open spec fn from_json(j: JsonView) -> Result<OperationView, ErrorView> {
        match j {
            JsonView::Object(e) => {
                let tags = items_field::<String>(e, "tags"@);
                let summary = text_field(e, "summary"@);
                let description = text_field(e, "description"@);
                let external_docs = optional_field::<ExternalDoc>(e, "externalDocs"@);
                let operation_id = text_field(e, "operationId"@);
                let parameters = items_field::<ObjectOrReference<Parameter>>(e, "parameters"@);
                let request_body = optional_field::<ObjectOrReference<RequestBody>>(
                    e,
                    "requestBody"@,
                );
                let responses = required_field::<OrderedMap<Response>>(e, "responses"@);
                let callbacks = entries_field::<Callback>(e, "callbacks"@);
                let deprecated = optional_field::<bool>(e, "deprecated"@);
                let security = items_field::<SecurityRequirement>(e, "security"@);
                let servers = items_field::<Server>(e, "servers"@);
                if tags is Err {
                    Err(tags->Err_0)
                } else if summary is Err {
                    Err(summary->Err_0)
                } else if description is Err {
                    Err(description->Err_0)
                } else if external_docs is Err {
                    Err(external_docs->Err_0)
                } else if operation_id is Err {
                    Err(operation_id->Err_0)
                } else if parameters is Err {
                    Err(parameters->Err_0)
                } else if request_body is Err {
                    Err(request_body->Err_0)
                } else if responses is Err {
                    Err(responses->Err_0)
                } else if callbacks is Err {
                    Err(callbacks->Err_0)
                } else if deprecated is Err {
                    Err(deprecated->Err_0)
                } else if security is Err {
                    Err(security->Err_0)
                } else if servers is Err {
                    Err(servers->Err_0)
                } else {
                    Ok(
                        OperationView {
                            tags: tags->Ok_0,
                            summary: summary->Ok_0,
                            description: description->Ok_0,
                            external_docs: external_docs->Ok_0,
                            operation_id: operation_id->Ok_0,
                            parameters: parameters->Ok_0,
                            request_body: request_body->Ok_0,
                            responses: responses->Ok_0,
                            callbacks: callbacks->Ok_0,
                            deprecated: deprecated->Ok_0,
                            security: security->Ok_0,
                            servers: servers->Ok_0,
                        },
                    )
                }
            },
            _ => Err(ErrorView::mismatch(Expected::Object, j.kind())),
        }
    }

    open spec fn valid(v: OperationView) -> bool {
        &&& (v.external_docs matches Some(x) ==> ExternalDoc::valid(x))
        &&& list_valid::<ObjectOrReference<Parameter>>(v.parameters)
        &&& (v.request_body matches Some(x) ==> <ObjectOrReference<RequestBody> as Codec>::valid(x))
        &&& <OrderedMap<Response> as Codec>::valid(v.responses)
        &&& map_valid::<Callback>(v.callbacks)
        &&& list_valid::<SecurityRequirement>(v.security)
        &&& list_valid::<Server>(v.servers)
    }

    proof fn lemma_round_trip(v: OperationView) {
        broadcast use {lemma_lookup_with_entry, lemma_lookup_empty};

        reveal_strlit("tags");
        lemma_spell("tags"@);
        reveal_strlit("summary");
        lemma_spell("summary"@);
        reveal_strlit("description");
        lemma_spell("description"@);
        reveal_strlit("externalDocs");
        lemma_spell("externalDocs"@);
        reveal_strlit("operationId");
        lemma_spell("operationId"@);
        reveal_strlit("parameters");
        lemma_spell("parameters"@);
        reveal_strlit("requestBody");
        lemma_spell("requestBody"@);
        reveal_strlit("responses");
        lemma_spell("responses"@);
        reveal_strlit("callbacks");
        lemma_spell("callbacks"@);
        reveal_strlit("deprecated");
        lemma_spell("deprecated"@);
        reveal_strlit("security");
        lemma_spell("security"@);
        reveal_strlit("servers");
        lemma_spell("servers"@);
        lemma_read_if_items::<String>(v.tags, "tags"@);
        lemma_read_if_text(v.summary, "summary"@);
        lemma_read_if_text(v.description, "description"@);
        lemma_read_if_some::<ExternalDoc>(v.external_docs, "externalDocs"@);
        lemma_read_if_text(v.operation_id, "operationId"@);
        lemma_read_if_items::<ObjectOrReference<Parameter>>(v.parameters, "parameters"@);
        lemma_read_if_some::<ObjectOrReference<RequestBody>>(v.request_body, "requestBody"@);
        lemma_read_always::<OrderedMap<Response>>(v.responses, "responses"@);
        lemma_read_if_entries::<Callback>(v.callbacks, "callbacks"@);
        lemma_read_if_some::<bool>(v.deprecated, "deprecated"@);
        lemma_read_if_items::<SecurityRequirement>(v.security, "security"@);
        lemma_read_if_items::<Server>(v.servers, "servers"@);
    }

    fn encode(&self) -> (j: Json) {
        let mut out = no_entries();
        put(&mut out, "tags", slot_if_items(&self.tags));
        put(&mut out, "summary", slot_if_text(&self.summary));
        put(&mut out, "description", slot_if_text(&self.description));
        put(&mut out, "externalDocs", slot_if_some(&self.external_docs));
        put(&mut out, "operationId", slot_if_text(&self.operation_id));
        put(&mut out, "parameters", slot_if_items(&self.parameters));
        put(&mut out, "requestBody", slot_if_some(&self.request_body));
        put(&mut out, "responses", slot_always(&self.responses));
        put(&mut out, "callbacks", slot_if_entries(&self.callbacks));
        put(&mut out, "deprecated", slot_if_some(&self.deprecated));
        put(&mut out, "security", slot_if_items(&self.security));
        put(&mut out, "servers", slot_if_items(&self.servers));
        object(out)
    }

    fn decode(j: &Json) -> (r: Result<Self, Error>) {
        let e = entries_of(j)?;
        let tags = get_items::<String>(e, "tags")?;
        let summary = get_text(e, "summary")?;
        let description = get_text(e, "description")?;
        let external_docs = get_optional::<ExternalDoc>(e, "externalDocs")?;
        let operation_id = get_text(e, "operationId")?;
        let parameters = get_items::<ObjectOrReference<Parameter>>(e, "parameters")?;
        let request_body = get_optional::<ObjectOrReference<RequestBody>>(e, "requestBody")?;
        let responses = get_required::<OrderedMap<Response>>(e, "responses")?;
        let callbacks = get_entries::<Callback>(e, "callbacks")?;
        let deprecated = get_optional::<bool>(e, "deprecated")?;
        let security = get_items::<SecurityRequirement>(e, "security")?;
        let servers = get_items::<Server>(e, "servers")?;
        Ok(
            Operation {
                tags,
                summary,
                description,
                external_docs,
                operation_id,
                parameters,
                request_body,
                responses,
                callbacks,
                deprecated,
                security,
                servers,
            },
        )
    }
}

/// The operations that are available on one path.
#[derive(Clone, Debug, PartialEq, Default)]
pub struct PathItem {
    /// A reference to a definition of this path item elsewhere.
    pub reference: String,
    /// A summary that applies to all operations on the path.
    pub summary: String,
    /// A description that applies to all operations on the path.
    pub description: String,
    /// The GET operation on the path.
    pub get: Option<Operation>,
    /// The PUT operation on the path.
    pub put: Option<Operation>,
    /// The POST operation on the path.
    pub post: Option<Operation>,
    /// The DELETE operation on the path.
    pub delete: Option<Operation>,
    /// The OPTIONS operation on the path.
    pub options: Option<Operation>,
    /// The HEAD operation on the path.
    pub head: Option<Operation>,
    /// The PATCH operation on the path.
    pub patch: Option<Operation>,
    /// The TRACE operation on the path.
    pub trace: Option<Operation>,
    /// The servers that serve the operations on the path.
    pub servers: Vec<Server>,
    /// The parameters that apply to all operations on the path.
    pub parameters: Vec<ObjectOrReference<Parameter>>,
}

/// View of a [`PathItem`].
pub struct PathItemView {
    pub reference: Seq<char>,
    pub summary: Seq<char>,
    pub description: Seq<char>,
    pub get: Option<OperationView>,
    pub put: Option<OperationView>,
    pub post: Option<OperationView>,
    pub delete: Option<OperationView>,
    pub options: Option<OperationView>,
    pub head: Option<OperationView>,
    pub patch: Option<OperationView>,
    pub trace: Option<OperationView>,
    pub servers: Seq<ServerView>,
    pub parameters: Seq<ObjectOrReferenceView<ParameterView>>,
}

impl DeepView for PathItem {
    type V = PathItemView;

    open spec fn deep_view(&self) -> PathItemView {
        PathItemView {
            reference: self.reference.deep_view(),
            summary: self.summary.deep_view(),
            description: self.description.deep_view(),
            get: self.get.deep_view(),
            put: self.put.deep_view(),
            post: self.post.deep_view(),
            delete: self.delete.deep_view(),
            options: self.options.deep_view(),
            head: self.head.deep_view(),
            patch: self.patch.deep_view(),
            trace: self.trace.deep_view(),
            servers: self.servers.deep_view(),
            parameters: self.parameters.deep_view(),
        }
    }
}

impl Codec for PathItem {
    open spec fn to_json(v: PathItemView) -> JsonView {
        let e = Seq::empty();
        let e = with_entry(e, "$ref"@, if_text(v.reference));
        let e = with_entry(e, "summary"@, if_text(v.summary));
        let e = with_entry(e, "description"@, if_text(v.description));
        let e = with_entry(e, "get"@, if_some::<Operation>(v.get));
        let e = with_entry(e, "put"@, if_some::<Operation>(v.put));
        let e = with_entry(e, "post"@, if_some::<Operation>(v.post));
        let e = with_entry(e, "delete"@, if_some::<Operation>(v.delete));
        let e = with_entry(e, "options"@, if_some::<Operation>(v.options));
        let e = with_entry(e, "head"@, if_some::<Operation>(v.head));
        let e = with_entry(e, "patch"@, if_some::<Operation>(v.patch));
        let e = with_entry(e, "trace"@, if_some::<Operation>(v.trace));
        let e = with_entry(e, "servers"@, if_items::<Server>(v.servers));
        let e = with_entry(
            e,
            "parameters"@,
            if_items::<ObjectOrReference<Parameter>>(v.parameters),
        );
        JsonView::Object(e)
    }

    open spec fn from_json(j: JsonView) -> Result<PathItemView, ErrorView> {
        match j {
            JsonView::Object(e) => {
                let reference = text_field(e, "$ref"@);
                let summary = text_field(e, "summary"@);
                let description = text_field(e, "description"@);
                let get = optional_field::<Operation>(e, "get"@);
                let put = optional_field::<Operation>(e, "put"@);
                let post = optional_field::<Operation>(e, "post"@);
                let delete = optional_field::<Operation>(e, "delete"@);
                let options = optional_field::<Operation>(e, "options"@);
                let head = optional_field::<Operation>(e, "head"@);
                let patch = optional_field::<Operation>(e, "patch"@);
                let trace = optional_field::<Operation>(e, "trace"@);
                let servers = items_field::<Server>(e, "servers"@);
                let parameters = items_field::<ObjectOrReference<Parameter>>(e, "parameters"@);
                if reference is Err {
                    Err(reference->Err_0)
                } else if summary is Err {
                    Err(summary->Err_0)
                } else if description is Err {
                    Err(description->Err_0)
                } else if get is Err {
                    Err(get->Err_0)
                } else if put is Err {
                    Err(put->Err_0)
                } else if post is Err {
                    Err(post->Err_0)
                } else if delete is Err {
                    Err(delete->Err_0)
                } else if options is Err {
                    Err(options->Err_0)
                } else if head is Err {
                    Err(head->Err_0)
                } else if patch is Err {
                    Err(patch->Err_0)
                } else if trace is Err {
                    Err(trace->Err_0)
                } else if servers is Err {
                    Err(servers->Err_0)
                } else if parameters is Err {
                    Err(parameters->Err_0)
                } else {
                    Ok(
                        PathItemView {
                            reference: reference->Ok_0,
                            summary: summary->Ok_0,
                            description: description->Ok_0,
                            get: get->Ok_0,
                            put: put->Ok_0,
                            post: post->Ok_0,
                            delete: delete->Ok_0,
                            options: options->Ok_0,
                            head: head->Ok_0,
                            patch: patch->Ok_0,
                            trace: trace->Ok_0,
                            servers: servers->Ok_0,
                            parameters: parameters->Ok_0,
                        },
                    )
                }
            },
            _ => Err(ErrorView::mismatch(Expected::Object, j.kind())),
        }
    }

    open spec fn valid(v: PathItemView) -> bool {
        &&& (v.get matches Some(x) ==> Operation::valid(x))
        &&& (v.put matches Some(x) ==> Operation::valid(x))
        &&& (v.post matches Some(x) ==> Operation::valid(x))
        &&& (v.delete matches Some(x) ==> Operation::valid(x))
        &&& (v.options matches Some(x) ==> Operation::valid(x))
        &&& (v.head matches Some(x) ==> Operation::valid(x))
        &&& (v.patch matches Some(x) ==> Operation::valid(x))
        &&& (v.trace matches Some(x) ==> Operation::valid(x))
        &&& list_valid::<Server>(v.servers)
        &&& list_valid::<ObjectOrReference<Parameter>>(v.parameters)
    }

    proof fn lemma_round_trip(v: PathItemView) {
        broadcast use {lemma_lookup_with_entry, lemma_lookup_empty};

        reveal_strlit("$ref");
        lemma_spell("$ref"@);
        reveal_strlit("summary");
        lemma_spell("summary"@);
        reveal_strlit("description");
        lemma_spell("description"@);
        reveal_strlit("get");
        lemma_spell("get"@);
        reveal_strlit("put");
        lemma_spell("put"@);
        reveal_strlit("post");
        lemma_spell("post"@);
        reveal_strlit("delete");
        lemma_spell("delete"@);
        reveal_strlit("options");
        lemma_spell("options"@);
        reveal_strlit("head");
        lemma_spell("head"@);
        reveal_strlit("patch");
        lemma_spell("patch"@);
        reveal_strlit("trace");
        lemma_spell("trace"@);
        reveal_strlit("servers");
        lemma_spell("servers"@);
        reveal_strlit("parameters");
        lemma_spell("parameters"@);
        lemma_read_if_text(v.reference, "$ref"@);
        lemma_read_if_text(v.summary, "summary"@);
        lemma_read_if_text(v.description, "description"@);
        lemma_read_if_some::<Operation>(v.get, "get"@);
        lemma_read_if_some::<Operation>(v.put, "put"@);
        lemma_read_if_some::<Operation>(v.post, "post"@);
        lemma_read_if_some::<Operation>(v.delete, "delete"@);
        lemma_read_if_some::<Operation>(v.options, "options"@);
        lemma_read_if_some::<Operation>(v.head, "head"@);
        lemma_read_if_some::<Operation>(v.patch, "patch"@);
        lemma_read_if_some::<Operation>(v.trace, "trace"@);
        lemma_read_if_items::<Server>(v.servers, "servers"@);
        lemma_read_if_items::<ObjectOrReference<Parameter>>(v.parameters, "parameters"@);
    }

    fn encode(&self) -> (j: Json) {
        let mut out = no_entries();
        put(&mut out, "$ref", slot_if_text(&self.reference));
        put(&mut out, "summary", slot_if_text(&self.summary));
        put(&mut out, "description", slot_if_text(&self.description));
        put(&mut out, "get", slot_if_some(&self.get));
        put(&mut out, "put", slot_if_some(&self.put));
        put(&mut out, "post", slot_if_some(&self.post));
        put(&mut out, "delete", slot_if_some(&self.delete));
        put(&mut out, "options", slot_if_some(&self.options));
        put(&mut out, "head", slot_if_some(&self.head));
        put(&mut out, "patch", slot_if_some(&self.patch));
        put(&mut out, "trace", slot_if_some(&self.trace));
        put(&mut out, "servers", slot_if_items(&self.servers));
        put(&mut out, "parameters", slot_if_items(&self.parameters));
        object(out)
    }

    fn decode(j: &Json) -> (r: Result<Self, Error>) {
        let e = entries_of(j)?;
        let reference = get_text(e, "$ref")?;
        let summary = get_text(e, "summary")?;
        let description = get_text(e, "description")?;
        let get = get_optional::<Operation>(e, "get")?;
        let put = get_optional::<Operation>(e, "put")?;
        let post = get_optional::<Operation>(e, "post")?;
        let delete = get_optional::<Operation>(e, "delete")?;
        let options = get_optional::<Operation>(e, "options")?;
        let head = get_optional::<Operation>(e, "head")?;
        let patch = get_optional::<Operation>(e, "patch")?;
        let trace = get_optional::<Operation>(e, "trace")?;
        let servers = get_items::<Server>(e, "servers")?;
        let parameters = get_items::<ObjectOrReference<Parameter>>(e, "parameters")?;
        Ok(
            PathItem {
                reference,
                summary,
                description,
                get,
                put,
                post,
                delete,
                options,
                head,
                patch,
                trace,
                servers,
                parameters,
            },
        )
    }
}

} // verus!
