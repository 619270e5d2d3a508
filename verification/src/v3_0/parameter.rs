//! Parameters of operations, and headers.

use crate::codec::Codec;
use crate::error::{result_view, Error, ErrorKind, ErrorKindView, ErrorView, Expected};
use crate::json::{Json, JsonView};
use crate::object::{
    always, entries_of, get_optional, get_required, get_text, if_some, if_text, lemma_lookup_empty,
    lemma_lookup_with_entry, lemma_read_always, lemma_read_if_some, lemma_read_if_text, lookup,
    no_entries, object, optional_field, put, required_field, slot_always, slot_if_some,
    slot_if_text, text_field, with_entry,
};
use crate::ordered_map::OrderedMap;
use crate::strings::{lemma_spell, same_text};
use crate::v3_0::components::{pointer_in, ObjectOrReference, ObjectOrReferenceView};
use crate::v3_0::media::{Example, ExampleView, MediaType, MediaTypeView};
use crate::v3_0::schema::{
    lemma_nested_is_object, ComponentOrInlineSchema, ComponentOrInlineSchemaView, Type,
};
use crate::variant::{
    lemma_read_nullable, lemma_select_two, no_variant, nullable, resolve_failure, select,
    select_variant, two_keys,
};
use vstd::prelude::*;

verus! {

/// Where a parameter stands in a request.
#[derive(Clone, Copy, Debug, PartialEq, Eq)]
pub enum Location {
    Query,
    Header,
    Path,
    FormData,
}

impl Default for Location {
    fn default() -> (r: Self)
        ensures
            r == Location::Query,
    {
        Location::Query
    }
}

impl DeepView for Location {
    type V = Location;

    open spec fn deep_view(&self) -> Location {
        *self
    }
}

/// The word that stands for a location.
pub open spec fn location_word(v: Location) -> Seq<char> {
    match v {
        Location::Query => "query"@,
        Location::Header => "header"@,
        Location::Path => "path"@,
        Location::FormData => "formData"@,
    }
}

impl Codec for Location {
    open spec fn to_json(v: Location) -> JsonView {
        JsonView::String(location_word(v))
    }

    open spec fn from_json(j: JsonView) -> Result<Location, ErrorView> {
        match j {
            JsonView::String(s) => if s == "query"@ {
                Ok(Location::Query)
            } else if s == "header"@ {
                Ok(Location::Header)
            } else if s == "path"@ {
                Ok(Location::Path)
            } else if s == "formData"@ {
                Ok(Location::FormData)
            } else {
                Err(ErrorView::here(ErrorKindView::UnknownDiscriminant(s)))
            },
            _ => Err(ErrorView::mismatch(Expected::String, j.kind())),
        }
    }

    open spec fn valid(v: Location) -> bool {
        true
    }

    proof fn lemma_round_trip(v: Location) {
        reveal_strlit("query");
        lemma_spell("query"@);
        reveal_strlit("header");
        lemma_spell("header"@);
        reveal_strlit("path");
        lemma_spell("path"@);
        reveal_strlit("formData");
        lemma_spell("formData"@);
    }

    fn encode(&self) -> (j: Json) {
        let word = match self {
            Location::Query => "query",
            Location::Header => "header",
            Location::Path => "path",
            Location::FormData => "formData",
        };
        Json::String(word.to_owned())
    }

    fn decode(j: &Json) -> (r: Result<Self, Error>) {
        match j {
            Json::String(s) => {
                let s = s.as_str();
                if same_text(s, "query") {
                    Ok(Location::Query)
                } else if same_text(s, "header") {
                    Ok(Location::Header)
                } else if same_text(s, "path") {
                    Ok(Location::Path)
                } else if same_text(s, "formData") {
                    Ok(Location::FormData)
                } else {
                    Err(Error::here(ErrorKind::UnknownDiscriminant(s.to_owned())))
                }
            },
            _ => Err(Error::mismatch(Expected::String, j.kind())),
        }
    }
}

/// How the value of a parameter is serialized.
#[derive(Clone, Copy, Debug, PartialEq, Eq)]
pub enum ParameterStyle {
    Matrix,
    Label,
    Form,
    Simple,
    SpaceDelimited,
    PipeDelimited,
    DeepObject,
}

impl DeepView for ParameterStyle {
    type V = ParameterStyle;

    open spec fn deep_view(&self) -> ParameterStyle {
        *self
    }
}

/// The word that stands for a style.
pub open spec fn parameter_style_word(v: ParameterStyle) -> Seq<char> {
    match v {
        ParameterStyle::Matrix => "matrix"@,
        ParameterStyle::Label => "label"@,
        ParameterStyle::Form => "form"@,
        ParameterStyle::Simple => "simple"@,
        ParameterStyle::SpaceDelimited => "spaceDelimited"@,
        ParameterStyle::PipeDelimited => "pipeDelimited"@,
        ParameterStyle::DeepObject => "deepObject"@,
    }
}

impl Codec for ParameterStyle {
    open spec fn to_json(v: ParameterStyle) -> JsonView {
        JsonView::String(parameter_style_word(v))
    }

    open spec fn from_json(j: JsonView) -> Result<ParameterStyle, ErrorView> {
        match j {
            JsonView::String(s) => if s == "matrix"@ {
                Ok(ParameterStyle::Matrix)
            } else if s == "label"@ {
                Ok(ParameterStyle::Label)
            } else if s == "form"@ {
                Ok(ParameterStyle::Form)
            } else if s == "simple"@ {
                Ok(ParameterStyle::Simple)
            } else if s == "spaceDelimited"@ {
                Ok(ParameterStyle::SpaceDelimited)
            } else if s == "pipeDelimited"@ {
                Ok(ParameterStyle::PipeDelimited)
            } else if s == "deepObject"@ {
                Ok(ParameterStyle::DeepObject)
            } else {
                Err(ErrorView::here(ErrorKindView::UnknownDiscriminant(s)))
            },
            _ => Err(ErrorView::mismatch(Expected::String, j.kind())),
        }
    }

    open spec fn valid(v: ParameterStyle) -> bool {
        true
    }

    proof fn lemma_round_trip(v: ParameterStyle) {
        reveal_strlit("matrix");
        lemma_spell("matrix"@);
        reveal_strlit("label");
        lemma_spell("label"@);
        reveal_strlit("form");
        lemma_spell("form"@);
        reveal_strlit("simple");
        lemma_spell("simple"@);
        reveal_strlit("spaceDelimited");
        lemma_spell("spaceDelimited"@);
        reveal_strlit("pipeDelimited");
        lemma_spell("pipeDelimited"@);
        reveal_strlit("deepObject");
        lemma_spell("deepObject"@);
    }

    fn encode(&self) -> (j: Json) {
        let word = match self {
            ParameterStyle::Matrix => "matrix",
            ParameterStyle::Label => "label",
            ParameterStyle::Form => "form",
            ParameterStyle::Simple => "simple",
            ParameterStyle::SpaceDelimited => "spaceDelimited",
            ParameterStyle::PipeDelimited => "pipeDelimited",
            ParameterStyle::DeepObject => "deepObject",
        };
        Json::String(word.to_owned())
    }

    fn decode(j: &Json) -> (r: Result<Self, Error>) {
        match j {
            Json::String(s) => {
                let s = s.as_str();
                if same_text(s, "matrix") {
                    Ok(ParameterStyle::Matrix)
                } else if same_text(s, "label") {
                    Ok(ParameterStyle::Label)
                } else if same_text(s, "form") {
                    Ok(ParameterStyle::Form)
                } else if same_text(s, "simple") {
                    Ok(ParameterStyle::Simple)
                } else if same_text(s, "spaceDelimited") {
                    Ok(ParameterStyle::SpaceDelimited)
                } else if same_text(s, "pipeDelimited") {
                    Ok(ParameterStyle::PipeDelimited)
                } else if same_text(s, "deepObject") {
                    Ok(ParameterStyle::DeepObject)
                } else {
                    Err(Error::here(ErrorKind::UnknownDiscriminant(s.to_owned())))
                }
            },
            _ => Err(Error::mismatch(Expected::String, j.kind())),
        }
    }
}

/// How the value of a parameter is described: by a schema, or by media type.
#[derive(Clone, Debug, PartialEq)]
pub enum ParameterRepresentation {
    /// The schema of the parameter.
    Simple { schema: ComponentOrInlineSchema },
    /// The representations of the parameter, by media type.
    Content { content: OrderedMap<MediaType> },
}

/// View of a [`ParameterRepresentation`].
pub enum ParameterRepresentationView {
    Simple { schema: ComponentOrInlineSchemaView },
    Content { content: Seq<(Seq<char>, MediaTypeView)> },
}

impl DeepView for ParameterRepresentation {
    type V = ParameterRepresentationView;

    open spec fn deep_view(&self) -> ParameterRepresentationView {
        match self {
            ParameterRepresentation::Simple { schema } => ParameterRepresentationView::Simple {
                schema: schema.deep_view(),
            },
            ParameterRepresentation::Content { content } => ParameterRepresentationView::Content {
                content: content.deep_view(),
            },
        }
    }
}

impl ParameterRepresentationView {
    /// The keys that select each variant, in the order of declaration.
    pub open spec fn candidates() -> Seq<Seq<Seq<char>>> {
        seq![seq!["schema"@], seq!["content"@]]
    }

    /// What is written under `schema`.
    pub open spec fn schema_slot(u: Option<ParameterRepresentationView>) -> Option<JsonView> {
        match u {
            Some(ParameterRepresentationView::Simple { schema }) => {
                always::<ComponentOrInlineSchema>(schema)
            },
            _ => None,
        }
    }

    /// What is written under `content`.
    pub open spec fn content_slot(u: Option<ParameterRepresentationView>) -> Option<JsonView> {
        match u {
            Some(ParameterRepresentationView::Content { content }) => {
                always::<OrderedMap<MediaType>>(content)
            },
            _ => None,
        }
    }

    /// The entries with the union written after them: the key of its variant
    /// where it is set, nothing where it is not.
    pub open spec fn written(
        e: Seq<(Seq<char>, JsonView)>,
        u: Option<ParameterRepresentationView>,
    ) -> Seq<(Seq<char>, JsonView)> {
        let e = with_entry(e, "schema"@, ParameterRepresentationView::schema_slot(u));
        with_entry(e, "content"@, ParameterRepresentationView::content_slot(u))
    }

    /// The union that the keys of an object select: the first variant whose
    /// key is present, read from under that key; unset where neither key is
    /// present.
    pub open spec fn read(
        e: Seq<(Seq<char>, JsonView)>,
    ) -> Result<Option<ParameterRepresentationView>, ErrorView> {
        match select(e, ParameterRepresentationView::candidates()) {
            None => Ok(None),
            Some(i) => if i == 0 {
                match required_field::<ComponentOrInlineSchema>(e, "schema"@) {
                    Ok(schema) => Ok(Some(ParameterRepresentationView::Simple { schema })),
                    Err(err) => Err(err),
                }
            } else {
                match required_field::<OrderedMap<MediaType>>(e, "content"@) {
                    Ok(content) => Ok(Some(ParameterRepresentationView::Content { content })),
                    Err(err) => Err(err),
                }
            },
        }
    }

    /// The union where it must be set: keys that select no variant are a
    /// failure that names the candidates and the keys seen.
    pub open spec fn read_required(
        e: Seq<(Seq<char>, JsonView)>,
    ) -> Result<ParameterRepresentationView, ErrorView> {
        match ParameterRepresentationView::read(e) {
            Ok(Some(u)) => Ok(u),
            Ok(None) => resolve_failure(e, ParameterRepresentationView::candidates()),
            Err(err) => Err(err),
        }
    }

    /// The values that are read back as they were written.
    pub open spec fn valid(self) -> bool {
        match self {
            ParameterRepresentationView::Simple { schema } => {
                ComponentOrInlineSchema::valid(schema)
            },
            ParameterRepresentationView::Content { content } => {
                <OrderedMap<MediaType> as Codec>::valid(content)
            },
        }
    }

    /// A union is read back from entries that hold under each of its keys what
    /// was written there.
    pub proof fn lemma_read_written(
        e: Seq<(Seq<char>, JsonView)>,
        u: Option<ParameterRepresentationView>,
    )
        requires
            lookup(e, "schema"@) == ParameterRepresentationView::schema_slot(u),
            lookup(e, "content"@) == ParameterRepresentationView::content_slot(u),
            u matches Some(x) ==> x.valid(),
        ensures
            ParameterRepresentationView::read(e)
                == Ok::<Option<ParameterRepresentationView>, ErrorView>(u),
            u matches Some(x) ==> ParameterRepresentationView::read_required(e)
                == Ok::<ParameterRepresentationView, ErrorView>(x),
    {
        lemma_select_two(e, "schema"@, "content"@);
        match u {
            Some(ParameterRepresentationView::Simple { schema }) => {
                lemma_read_always::<ComponentOrInlineSchema>(schema, "schema"@);
            },
            Some(ParameterRepresentationView::Content { content }) => {
                lemma_read_always::<OrderedMap<MediaType>>(content, "content"@);
            },
            None => {},
        }
    }
}

impl ParameterRepresentation {
    /// Writes the union, which is set, after the entries of the object that
    /// holds it.
    pub fn write_one(out: &mut Vec<(String, Json)>, u: &ParameterRepresentation)
        ensures
            final(out).deep_view() == ParameterRepresentationView::written(
                old(out).deep_view(),
                Some(u.deep_view()),
            ),
    {
        match u {
            ParameterRepresentation::Simple { schema } => {
                put(out, "schema", slot_always(schema));
                put(out, "content", None);
            },
            ParameterRepresentation::Content { content } => {
                put(out, "schema", None);
                put(out, "content", slot_always(content));
            },
        }
    }

    /// Writes the union after the entries of the object that holds it:
    /// nothing where it is unset.
    pub fn write(out: &mut Vec<(String, Json)>, u: &Option<ParameterRepresentation>)
        ensures
            final(out).deep_view() == ParameterRepresentationView::written(
                old(out).deep_view(),
                u.deep_view(),
            ),
    {
        match u {
            Some(x) => {
                ParameterRepresentation::write_one(out, x);
            },
            None => {
                put(out, "schema", None);
                put(out, "content", None);
            },
        }
    }

    /// Reads the union from the entries of the object that holds it.
    pub fn read(e: &Vec<(String, Json)>) -> (r: Result<Option<ParameterRepresentation>, Error>)
        ensures
            result_view(r) == ParameterRepresentationView::read(e.deep_view()),
    {
        let candidates = two_keys("schema", "content");
        match select_variant(e, &candidates) {
            None => Ok(None),
            Some(i) => if i == 0 {
                let schema = get_required::<ComponentOrInlineSchema>(e, "schema")?;
                Ok(Some(ParameterRepresentation::Simple { schema }))
            } else {
                let content = get_required::<OrderedMap<MediaType>>(e, "content")?;
                Ok(Some(ParameterRepresentation::Content { content }))
            },
        }
    }

    /// Reads the union where it must be set.
    pub fn read_required(e: &Vec<(String, Json)>) -> (r: Result<ParameterRepresentation, Error>)
        ensures
            result_view(r) == ParameterRepresentationView::read_required(e.deep_view()),
    {
        match ParameterRepresentation::read(e)? {
            Some(u) => Ok(u),
            None => Err(no_variant(e, two_keys("schema", "content"))),
        }
    }
}

impl Codec for ParameterRepresentation {
    open spec fn to_json(v: ParameterRepresentationView) -> JsonView {
        JsonView::Object(ParameterRepresentationView::written(Seq::empty(), Some(v)))
    }

    open spec fn from_json(j: JsonView) -> Result<ParameterRepresentationView, ErrorView> {
        match j {
            JsonView::Object(e) => ParameterRepresentationView::read_required(e),
            _ => Err(ErrorView::mismatch(Expected::Object, j.kind())),
        }
    }

    open spec fn valid(v: ParameterRepresentationView) -> bool {
        v.valid()
    }

    proof fn lemma_round_trip(v: ParameterRepresentationView) {
        broadcast use {lemma_lookup_with_entry, lemma_lookup_empty};

        reveal_strlit("schema");
        lemma_spell("schema"@);
        reveal_strlit("content");
        lemma_spell("content"@);
        ParameterRepresentationView::lemma_read_written(
            ParameterRepresentationView::written(Seq::empty(), Some(v)),
            Some(v),
        );
    }

    fn encode(&self) -> (j: Json) {
        let mut out = no_entries();
        ParameterRepresentation::write_one(&mut out, self);
        object(out)
    }

    fn decode(j: &Json) -> (r: Result<Self, Error>) {
        let e = entries_of(j)?;
        ParameterRepresentation::read_required(e)
    }
}

/// One example of the value of a parameter, or several by name.
#[derive(Clone, Debug, PartialEq)]
pub enum ParameterExamples {
    /// The example. Where it is unset, `null` is written.
    One { example: Option<Json> },
    /// The examples, by name.
    Multiple { examples: OrderedMap<ObjectOrReference<Example>> },
}

/// View of a [`ParameterExamples`].
pub enum ParameterExamplesView {
    One { example: Option<JsonView> },
    Multiple { examples: Seq<(Seq<char>, ObjectOrReferenceView<ExampleView>)> },
}

impl DeepView for ParameterExamples {
    type V = ParameterExamplesView;

    open spec fn deep_view(&self) -> ParameterExamplesView {
        match self {
            ParameterExamples::One { example } => ParameterExamplesView::One {
                example: example.deep_view(),
            },
            ParameterExamples::Multiple { examples } => ParameterExamplesView::Multiple {
                examples: examples.deep_view(),
            },
        }
    }
}

impl ParameterExamplesView {
    /// The keys that select each variant, in the order of declaration.
    pub open spec fn candidates() -> Seq<Seq<Seq<char>>> {
        seq![seq!["example"@], seq!["examples"@]]
    }

    /// What is written under `example`.
    pub open spec fn example_slot(u: Option<ParameterExamplesView>) -> Option<JsonView> {
        match u {
            Some(ParameterExamplesView::One { example }) => Some(
                match example {
                    Some(x) => x,
                    None => JsonView::Null,
                },
            ),
            _ => None,
        }
    }

    /// What is written under `examples`.
    pub open spec fn examples_slot(u: Option<ParameterExamplesView>) -> Option<JsonView> {
        match u {
            Some(ParameterExamplesView::Multiple { examples }) => {
                always::<OrderedMap<ObjectOrReference<Example>>>(examples)
            },
            _ => None,
        }
    }

    /// The entries with the union written after them: the key of its variant
    /// where it is set, nothing where it is not.
    pub open spec fn written(
        e: Seq<(Seq<char>, JsonView)>,
        u: Option<ParameterExamplesView>,
    ) -> Seq<(Seq<char>, JsonView)> {
        let e = with_entry(e, "example"@, ParameterExamplesView::example_slot(u));
        with_entry(e, "examples"@, ParameterExamplesView::examples_slot(u))
    }

    /// The union that the keys of an object select: the first variant whose
    /// key is present, read from under that key; unset where neither key is
    /// present.
    pub open spec fn read(
        e: Seq<(Seq<char>, JsonView)>,
    ) -> Result<Option<ParameterExamplesView>, ErrorView> {
        match select(e, ParameterExamplesView::candidates()) {
            None => Ok(None),
            Some(i) => if i == 0 {
                match optional_field::<Json>(e, "example"@) {
                    Ok(example) => Ok(Some(ParameterExamplesView::One { example })),
                    Err(err) => Err(err),
                }
            } else {
                match required_field::<OrderedMap<ObjectOrReference<Example>>>(e, "examples"@) {
                    Ok(examples) => Ok(Some(ParameterExamplesView::Multiple { examples })),
                    Err(err) => Err(err),
                }
            },
        }
    }

    /// The union where it must be set: keys that select no variant are a
    /// failure that names the candidates and the keys seen.
    pub open spec fn read_required(
        e: Seq<(Seq<char>, JsonView)>,
    ) -> Result<ParameterExamplesView, ErrorView> {
        match ParameterExamplesView::read(e) {
            Ok(Some(u)) => Ok(u),
            Ok(None) => resolve_failure(e, ParameterExamplesView::candidates()),
            Err(err) => Err(err),
        }
    }

    /// The values that are read back as they were written.
    pub open spec fn valid(self) -> bool {
        match self {
            ParameterExamplesView::One { example } => example != Some(JsonView::Null),
            ParameterExamplesView::Multiple { examples } => {
                <OrderedMap<ObjectOrReference<Example>> as Codec>::valid(examples)
            },
        }
    }

    /// A union is read back from entries that hold under each of its keys what
    /// was written there.
    pub proof fn lemma_read_written(e: Seq<(Seq<char>, JsonView)>, u: Option<ParameterExamplesView>)
        requires
            lookup(e, "example"@) == ParameterExamplesView::example_slot(u),
            lookup(e, "examples"@) == ParameterExamplesView::examples_slot(u),
            u matches Some(x) ==> x.valid(),
        ensures
            ParameterExamplesView::read(e) == Ok::<Option<ParameterExamplesView>, ErrorView>(u),
            u matches Some(x) ==> ParameterExamplesView::read_required(e)
                == Ok::<ParameterExamplesView, ErrorView>(x),
    {
        lemma_select_two(e, "example"@, "examples"@);
        match u {
            Some(ParameterExamplesView::One { example }) => {
                lemma_read_nullable(example, "example"@);
            },
            Some(ParameterExamplesView::Multiple { examples }) => {
                lemma_read_always::<OrderedMap<ObjectOrReference<Example>>>(examples, "examples"@);
            },
            None => {},
        }
    }
}

impl ParameterExamples {
    /// Writes the union, which is set, after the entries of the object that
    /// holds it.
    pub fn write_one(out: &mut Vec<(String, Json)>, u: &ParameterExamples)
        ensures
            final(out).deep_view() == ParameterExamplesView::written(
                old(out).deep_view(),
                Some(u.deep_view()),
            ),
    {
        match u {
            ParameterExamples::One { example } => {
                put(out, "example", Some(nullable(example)));
                put(out, "examples", None);
            },
            ParameterExamples::Multiple { examples } => {
                put(out, "example", None);
                put(out, "examples", slot_always(examples));
            },
        }
    }

    /// Writes the union after the entries of the object that holds it:
    /// nothing where it is unset.
    pub fn write(out: &mut Vec<(String, Json)>, u: &Option<ParameterExamples>)
        ensures
            final(out).deep_view() == ParameterExamplesView::written(
                old(out).deep_view(),
                u.deep_view(),
            ),
    {
        match u {
            Some(x) => {
                ParameterExamples::write_one(out, x);
            },
            None => {
                put(out, "example", None);
                put(out, "examples", None);
            },
        }
    }

    /// Reads the union from the entries of the object that holds it.
    pub fn read(e: &Vec<(String, Json)>) -> (r: Result<Option<ParameterExamples>, Error>)
        ensures
            result_view(r) == ParameterExamplesView::read(e.deep_view()),
    {
        let candidates = two_keys("example", "examples");
        match select_variant(e, &candidates) {
            None => Ok(None),
            Some(i) => if i == 0 {
                let example = get_optional::<Json>(e, "example")?;
                Ok(Some(ParameterExamples::One { example }))
            } else {
                let examples = get_required::<OrderedMap<ObjectOrReference<Example>>>(
                    e,
                    "examples",
                )?;
                Ok(Some(ParameterExamples::Multiple { examples }))
            },
        }
    }

    /// Reads the union where it must be set.
    pub fn read_required(e: &Vec<(String, Json)>) -> (r: Result<ParameterExamples, Error>)
        ensures
            result_view(r) == ParameterExamplesView::read_required(e.deep_view()),
    {
        match ParameterExamples::read(e)? {
            Some(u) => Ok(u),
            None => Err(no_variant(e, two_keys("example", "examples"))),
        }
    }
}

impl Codec for ParameterExamples {
    open spec fn to_json(v: ParameterExamplesView) -> JsonView {
        JsonView::Object(ParameterExamplesView::written(Seq::empty(), Some(v)))
    }

    open spec fn from_json(j: JsonView) -> Result<ParameterExamplesView, ErrorView> {
        match j {
            JsonView::Object(e) => ParameterExamplesView::read_required(e),
            _ => Err(ErrorView::mismatch(Expected::Object, j.kind())),
        }
    }

    open spec fn valid(v: ParameterExamplesView) -> bool {
        v.valid()
    }

    proof fn lemma_round_trip(v: ParameterExamplesView) {
        broadcast use {lemma_lookup_with_entry, lemma_lookup_empty};

        reveal_strlit("example");
        lemma_spell("example"@);
        reveal_strlit("examples");
        lemma_spell("examples"@);
        ParameterExamplesView::lemma_read_written(
            ParameterExamplesView::written(Seq::empty(), Some(v)),
            Some(v),
        );
    }

    fn encode(&self) -> (j: Json) {
        let mut out = no_entries();
        ParameterExamples::write_one(&mut out, self);
        object(out)
    }

    fn decode(j: &Json) -> (r: Result<Self, Error>) {
        let e = entries_of(j)?;
        ParameterExamples::read_required(e)
    }
}

/// A parameter of an operation. Its name and its location identify it.
#[derive(Clone, Debug, PartialEq, Default)]
pub struct Parameter {
    /// The name of the parameter.
    pub name: String,
    /// The location of the parameter.
    pub location: Location,
    /// A brief description of the parameter.
    pub description: String,
    /// Whether the parameter is mandatory.
    pub required: Option<bool>,
    /// Whether the parameter is deprecated.
    pub deprecated: Option<bool>,
    /// How the value is serialized.
    pub style: Option<ParameterStyle>,
    /// Whether arrays and objects give one parameter for each of their values.
    pub explode: Option<bool>,
    /// Whether reserved characters are passed without percent-encoding.
    pub allow_reserved: Option<bool>,
    /// The schema of the parameter, or its representations by media type.
    pub representation: Option<ParameterRepresentation>,
    /// One example of the value, or several by name.
    pub example: Option<ParameterExamples>,
}

/// View of a [`Parameter`].
pub struct ParameterView {
    pub name: Seq<char>,
    pub location: Location,
    pub description: Seq<char>,
    pub required: Option<bool>,
    pub deprecated: Option<bool>,
    pub style: Option<ParameterStyle>,
    pub explode: Option<bool>,
    pub allow_reserved: Option<bool>,
    pub representation: Option<ParameterRepresentationView>,
    pub example: Option<ParameterExamplesView>,
}

impl DeepView for Parameter {
    type V = ParameterView;

    open spec fn deep_view(&self) -> ParameterView {
        ParameterView {
            name: self.name.deep_view(),
            location: self.location.deep_view(),
            description: self.description.deep_view(),
            required: self.required.deep_view(),
            deprecated: self.deprecated.deep_view(),
            style: self.style.deep_view(),
            explode: self.explode.deep_view(),
            allow_reserved: self.allow_reserved.deep_view(),
            representation: self.representation.deep_view(),
            example: self.example.deep_view(),
        }
    }
}

impl Codec for Parameter {
    open spec fn to_json(v: ParameterView) -> JsonView {
        let e = Seq::empty();
        let e = with_entry(e, "name"@, always::<String>(v.name));
        let e = with_entry(e, "in"@, always::<Location>(v.location));
        let e = with_entry(e, "description"@, if_text(v.description));
        let e = with_entry(e, "required"@, if_some::<bool>(v.required));
        let e = with_entry(e, "deprecated"@, if_some::<bool>(v.deprecated));
        let e = with_entry(e, "style"@, if_some::<ParameterStyle>(v.style));
        let e = with_entry(e, "explode"@, if_some::<bool>(v.explode));
        let e = with_entry(e, "allowReserved"@, if_some::<bool>(v.allow_reserved));
        let e = ParameterRepresentationView::written(e, v.representation);
        let e = ParameterExamplesView::written(e, v.example);
        JsonView::Object(e)
    }

    open spec fn from_json(j: JsonView) -> Result<ParameterView, ErrorView> {
        match j {
            JsonView::Object(e) => {
                let name = required_field::<String>(e, "name"@);
                let location = required_field::<Location>(e, "in"@);
                let description = text_field(e, "description"@);
                let required = optional_field::<bool>(e, "required"@);
                let deprecated = optional_field::<bool>(e, "deprecated"@);
                let style = optional_field::<ParameterStyle>(e, "style"@);
                let explode = optional_field::<bool>(e, "explode"@);
                let allow_reserved = optional_field::<bool>(e, "allowReserved"@);
                let representation = ParameterRepresentationView::read(e);
                let example = ParameterExamplesView::read(e);
                if name is Err {
                    Err(name->Err_0)
                } else if location is Err {
                    Err(location->Err_0)
                } else if description is Err {
                    Err(description->Err_0)
                } else if required is Err {
                    Err(required->Err_0)
                } else if deprecated is Err {
                    Err(deprecated->Err_0)
                } else if style is Err {
                    Err(style->Err_0)
                } else if explode is Err {
                    Err(explode->Err_0)
                } else if allow_reserved is Err {
                    Err(allow_reserved->Err_0)
                } else if representation is Err {
                    Err(representation->Err_0)
                } else if example is Err {
                    Err(example->Err_0)
                } else {
                    Ok(
                        ParameterView {
                            name: name->Ok_0,
                            location: location->Ok_0,
                            description: description->Ok_0,
                            required: required->Ok_0,
                            deprecated: deprecated->Ok_0,
                            style: style->Ok_0,
                            explode: explode->Ok_0,
                            allow_reserved: allow_reserved->Ok_0,
                            representation: representation->Ok_0,
                            example: example->Ok_0,
                        },
                    )
                }
            },
            _ => Err(ErrorView::mismatch(Expected::Object, j.kind())),
        }
    }

    open spec fn valid(v: ParameterView) -> bool {
        &&& (v.representation matches Some(u) ==> u.valid())
        &&& (v.example matches Some(u) ==> u.valid())
    }

    proof fn lemma_round_trip(v: ParameterView) {
        broadcast use {lemma_lookup_with_entry, lemma_lookup_empty};

        reveal_strlit("name");
        lemma_spell("name"@);
        reveal_strlit("in");
        lemma_spell("in"@);
        reveal_strlit("description");
        lemma_spell("description"@);
        reveal_strlit("required");
        lemma_spell("required"@);
        reveal_strlit("deprecated");
        lemma_spell("deprecated"@);
        reveal_strlit("style");
        lemma_spell("style"@);
        reveal_strlit("explode");
        lemma_spell("explode"@);
        reveal_strlit("allowReserved");
        lemma_spell("allowReserved"@);
        reveal_strlit("schema");
        lemma_spell("schema"@);
        reveal_strlit("content");
        lemma_spell("content"@);
        reveal_strlit("example");
        lemma_spell("example"@);
        reveal_strlit("examples");
        lemma_spell("examples"@);
        lemma_read_always::<String>(v.name, "name"@);
        lemma_read_always::<Location>(v.location, "in"@);
        lemma_read_if_text(v.description, "description"@);
        lemma_read_if_some::<bool>(v.required, "required"@);
        lemma_read_if_some::<bool>(v.deprecated, "deprecated"@);
        lemma_read_if_some::<ParameterStyle>(v.style, "style"@);
        lemma_read_if_some::<bool>(v.explode, "explode"@);
        lemma_read_if_some::<bool>(v.allow_reserved, "allowReserved"@);
        ParameterRepresentationView::lemma_read_written(
            Self::to_json(v)->Object_0,
            v.representation,
        );
        ParameterExamplesView::lemma_read_written(Self::to_json(v)->Object_0, v.example);
    }

    fn encode(&self) -> (j: Json) {
        let mut out = no_entries();
        put(&mut out, "name", slot_always(&self.name));
        put(&mut out, "in", slot_always(&self.location));
        put(&mut out, "description", slot_if_text(&self.description));
        put(&mut out, "required", slot_if_some(&self.required));
        put(&mut out, "deprecated", slot_if_some(&self.deprecated));
        put(&mut out, "style", slot_if_some(&self.style));
        put(&mut out, "explode", slot_if_some(&self.explode));
        put(&mut out, "allowReserved", slot_if_some(&self.allow_reserved));
        ParameterRepresentation::write(&mut out, &self.representation);
        ParameterExamples::write(&mut out, &self.example);
        object(out)
    }

    fn decode(j: &Json) -> (r: Result<Self, Error>) {
        let e = entries_of(j)?;
        let name = get_required::<String>(e, "name")?;
        let location = get_required::<Location>(e, "in")?;
        let description = get_text(e, "description")?;
        let required = get_optional::<bool>(e, "required")?;
        let deprecated = get_optional::<bool>(e, "deprecated")?;
        let style = get_optional::<ParameterStyle>(e, "style")?;
        let explode = get_optional::<bool>(e, "explode")?;
        let allow_reserved = get_optional::<bool>(e, "allowReserved")?;
        let representation = ParameterRepresentation::read(e)?;
        let example = ParameterExamples::read(e)?;
        Ok(
            Parameter {
                name,
                location,
                description,
                required,
                deprecated,
                style,
                explode,
                allow_reserved,
                representation,
                example,
            },
        )
    }
}

impl ParameterView {
    /// The JSON form holds no pointer, so that the value written in place is
    /// not taken for a reference.
    pub proof fn lemma_no_pointer(self)
        ensures
            pointer_in(Parameter::to_json(self)) is None,
    {
        broadcast use {lemma_lookup_with_entry, lemma_lookup_empty};

        reveal_strlit("$ref");
        lemma_spell("$ref"@);
        reveal_strlit("name");
        lemma_spell("name"@);
        reveal_strlit("in");
        lemma_spell("in"@);
        reveal_strlit("description");
        lemma_spell("description"@);
        reveal_strlit("required");
        lemma_spell("required"@);
        reveal_strlit("deprecated");
        lemma_spell("deprecated"@);
        reveal_strlit("style");
        lemma_spell("style"@);
        reveal_strlit("explode");
        lemma_spell("explode"@);
        reveal_strlit("allowReserved");
        lemma_spell("allowReserved"@);
        reveal_strlit("schema");
        lemma_spell("schema"@);
        reveal_strlit("content");
        lemma_spell("content"@);
        reveal_strlit("example");
        lemma_spell("example"@);
        reveal_strlit("examples");
        lemma_spell("examples"@);
    }
}

/// A header: a parameter without a name and a location of its own.
#[derive(Clone, Debug, PartialEq, Default)]
pub struct Header {
    pub required: Option<bool>,
    pub schema: Option<ComponentOrInlineSchema>,
    pub unique_items: Option<bool>,
    /// The primitive type of the header.
    pub param_type: Option<Type>,
    pub format: String,
    /// A brief description of the header.
    pub description: String,
}

/// View of a [`Header`].
pub struct HeaderView {
    pub required: Option<bool>,
    pub schema: Option<ComponentOrInlineSchemaView>,
    pub unique_items: Option<bool>,
    pub param_type: Option<Type>,
    pub format: Seq<char>,
    pub description: Seq<char>,
}

impl DeepView for Header {
    type V = HeaderView;

    open spec fn deep_view(&self) -> HeaderView {
        HeaderView {
            required: self.required.deep_view(),
            schema: self.schema.deep_view(),
            unique_items: self.unique_items.deep_view(),
            param_type: self.param_type.deep_view(),
            format: self.format.deep_view(),
            description: self.description.deep_view(),
        }
    }
}

impl Codec for Header {
    open spec fn to_json(v: HeaderView) -> JsonView {
        let e = Seq::empty();
        let e = with_entry(e, "required"@, if_some::<bool>(v.required));
        let e = with_entry(e, "schema"@, if_some::<ComponentOrInlineSchema>(v.schema));
        let e = with_entry(e, "uniqueItems"@, if_some::<bool>(v.unique_items));
        let e = with_entry(e, "type"@, if_some::<Type>(v.param_type));
        let e = with_entry(e, "format"@, if_text(v.format));
        let e = with_entry(e, "description"@, if_text(v.description));
        JsonView::Object(e)
    }

    open spec fn from_json(j: JsonView) -> Result<HeaderView, ErrorView> {
        match j {
            JsonView::Object(e) => {
                let required = optional_field::<bool>(e, "required"@);
                let schema = optional_field::<ComponentOrInlineSchema>(e, "schema"@);
                let unique_items = optional_field::<bool>(e, "uniqueItems"@);
                let param_type = optional_field::<Type>(e, "type"@);
                let format = text_field(e, "format"@);
                let description = text_field(e, "description"@);
                if required is Err {
                    Err(required->Err_0)
                } else if schema is Err {
                    Err(schema->Err_0)
                } else if unique_items is Err {
                    Err(unique_items->Err_0)
                } else if param_type is Err {
                    Err(param_type->Err_0)
                } else if format is Err {
                    Err(format->Err_0)
                } else if description is Err {
                    Err(description->Err_0)
                } else {
                    Ok(
                        HeaderView {
                            required: required->Ok_0,
                            schema: schema->Ok_0,
                            unique_items: unique_items->Ok_0,
                            param_type: param_type->Ok_0,
                            format: format->Ok_0,
                            description: description->Ok_0,
                        },
                    )
                }
            },
            _ => Err(ErrorView::mismatch(Expected::Object, j.kind())),
        }
    }

    open spec fn valid(v: HeaderView) -> bool {
        &&& (v.schema matches Some(x) ==> ComponentOrInlineSchema::valid(x))
    }

    proof fn lemma_round_trip(v: HeaderView) {
        broadcast use {lemma_lookup_with_entry, lemma_lookup_empty};

        reveal_strlit("required");
        lemma_spell("required"@);
        reveal_strlit("schema");
        lemma_spell("schema"@);
        reveal_strlit("uniqueItems");
        lemma_spell("uniqueItems"@);
        reveal_strlit("type");
        lemma_spell("type"@);
        reveal_strlit("format");
        lemma_spell("format"@);
        reveal_strlit("description");
        lemma_spell("description"@);
        lemma_read_if_some::<bool>(v.required, "required"@);
        if v.schema is Some {
            lemma_nested_is_object(v.schema->Some_0);
        }
        lemma_read_if_some::<ComponentOrInlineSchema>(v.schema, "schema"@);
        lemma_read_if_some::<bool>(v.unique_items, "uniqueItems"@);
        lemma_read_if_some::<Type>(v.param_type, "type"@);
        lemma_read_if_text(v.format, "format"@);
        lemma_read_if_text(v.description, "description"@);
    }

    fn encode(&self) -> (j: Json) {
        let mut out = no_entries();
        put(&mut out, "required", slot_if_some(&self.required));
        put(&mut out, "schema", slot_if_some(&self.schema));
        put(&mut out, "uniqueItems", slot_if_some(&self.unique_items));
        put(&mut out, "type", slot_if_some(&self.param_type));
        put(&mut out, "format", slot_if_text(&self.format));
        put(&mut out, "description", slot_if_text(&self.description));
        object(out)
    }

    fn decode(j: &Json) -> (r: Result<Self, Error>) {
        let e = entries_of(j)?;
        let required = get_optional::<bool>(e, "required")?;
        let schema = get_optional::<ComponentOrInlineSchema>(e, "schema")?;
        let unique_items = get_optional::<bool>(e, "uniqueItems")?;
        let param_type = get_optional::<Type>(e, "type")?;
        let format = get_text(e, "format")?;
        let description = get_text(e, "description")?;
        Ok(Header { required, schema, unique_items, param_type, format, description })
    }
}

impl HeaderView {
    /// The JSON form holds no pointer, so that the value written in place is
    /// not taken for a reference.
    pub proof fn lemma_no_pointer(self)
        ensures
            pointer_in(Header::to_json(self)) is None,
    {
        broadcast use {lemma_lookup_with_entry, lemma_lookup_empty};

        reveal_strlit("$ref");
        lemma_spell("$ref"@);
        reveal_strlit("required");
        lemma_spell("required"@);
        reveal_strlit("schema");
        lemma_spell("schema"@);
        reveal_strlit("uniqueItems");
        lemma_spell("uniqueItems"@);
        reveal_strlit("type");
        lemma_spell("type"@);
        reveal_strlit("format");
        lemma_spell("format"@);
        reveal_strlit("description");
        lemma_spell("description"@);
    }
}

} // verus!
