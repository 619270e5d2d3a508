//! Media types and the examples that illustrate them.

use crate::codec::Codec;
use crate::error::{result_view, Error, ErrorView, Expected};
use crate::json::{Json, JsonView};
use crate::object::{
    always, entries_of, get_optional, get_required, get_text, if_some, if_text, lemma_lookup_empty,
    lemma_lookup_with_entry, lemma_read_always, lemma_read_if_some, lemma_read_if_text, lookup,
    no_entries, object, optional_field, put, read_required, required_field, slot_always,
    slot_if_some, slot_if_text, text_field, with_entry,
};
use crate::ordered_map::{
    entries_field, get_entries, if_entries, lemma_read_if_entries, map_valid, slot_if_entries,
    OrderedMap,
};
use crate::strings::lemma_spell;
use crate::v3_0::components::{pointer_in, ObjectOrReference, ObjectOrReferenceView};
use crate::v3_0::parameter::{Header, HeaderView};
use crate::v3_0::schema::{
    lemma_nested_is_object, ComponentOrInlineSchema, ComponentOrInlineSchemaView,
};
use crate::variant::{
    lemma_select_two, no_variant, resolve_failure, select, select_variant, two_keys,
};
use vstd::prelude::*;

verus! {

/// An example that is embedded, or a URL that points to one.
#[derive(Clone, Debug, PartialEq)]
pub enum ExampleValue {
    /// The example itself.
    Embedded { value: Json },
    /// A URL that points to the example.
    External { external_value: String },
}

/// View of an [`ExampleValue`].
pub enum ExampleValueView {
    Embedded { value: JsonView },
    External { external_value: Seq<char> },
}

impl DeepView for ExampleValue {
    type V = ExampleValueView;

    open spec fn deep_view(&self) -> ExampleValueView {
        match self {
            ExampleValue::Embedded { value } => ExampleValueView::Embedded {
                value: value.deep_view(),
            },
            ExampleValue::External { external_value } => ExampleValueView::External {
                external_value: external_value.deep_view(),
            },
        }
    }
}

impl ExampleValueView {
    /// The keys that select each variant, in the order of declaration.
    pub open spec fn candidates() -> Seq<Seq<Seq<char>>> {
        seq![seq!["value"@], seq!["externalValue"@]]
    }

    /// What is written under `value`.
    pub open spec fn value_slot(u: Option<ExampleValueView>) -> Option<JsonView> {
        match u {
            Some(ExampleValueView::Embedded { value }) => always::<Json>(value),
            _ => None,
        }
    }

    /// What is written under `externalValue`.
    pub open spec fn external_value_slot(u: Option<ExampleValueView>) -> Option<JsonView> {
        match u {
            Some(ExampleValueView::External { external_value }) => always::<String>(external_value),
            _ => None,
        }
    }

    /// The entries with the union written after them: the key of its variant
    /// where it is set, nothing where it is not.
    pub open spec fn written(
        e: Seq<(Seq<char>, JsonView)>,
        u: Option<ExampleValueView>,
    ) -> Seq<(Seq<char>, JsonView)> {
        let e = with_entry(e, "value"@, ExampleValueView::value_slot(u));
        with_entry(e, "externalValue"@, ExampleValueView::external_value_slot(u))
    }

    /// The union that the keys of an object select: the first variant whose
    /// key is present, read from under that key; unset where neither key is
    /// present.
    pub open spec fn read(
        e: Seq<(Seq<char>, JsonView)>,
    ) -> Result<Option<ExampleValueView>, ErrorView> {
        match select(e, ExampleValueView::candidates()) {
            None => Ok(None),
            Some(i) => if i == 0 {
                match required_field::<Json>(e, "value"@) {
                    Ok(value) => Ok(Some(ExampleValueView::Embedded { value })),
                    Err(err) => Err(err),
                }
            } else {
                match required_field::<String>(e, "externalValue"@) {
                    Ok(external_value) => Ok(Some(ExampleValueView::External { external_value })),
                    Err(err) => Err(err),
                }
            },
        }
    }

    /// The union where it must be set: keys that select no variant are a
    /// failure that names the candidates and the keys seen.
    pub open spec fn read_required(
        e: Seq<(Seq<char>, JsonView)>,
    ) -> Result<ExampleValueView, ErrorView> {
        match ExampleValueView::read(e) {
            Ok(Some(u)) => Ok(u),
            Ok(None) => resolve_failure(e, ExampleValueView::candidates()),
            Err(err) => Err(err),
        }
    }

    /// The values that are read back as they were written.
    pub open spec fn valid(self) -> bool {
        match self {
            ExampleValueView::Embedded { .. } => true,
            ExampleValueView::External { .. } => true,
        }
    }

    /// A union is read back from entries that hold under each of its keys what
    /// was written there.
    pub proof fn lemma_read_written(e: Seq<(Seq<char>, JsonView)>, u: Option<ExampleValueView>)
        requires
            lookup(e, "value"@) == ExampleValueView::value_slot(u),
            lookup(e, "externalValue"@) == ExampleValueView::external_value_slot(u),
            u matches Some(x) ==> x.valid(),
        ensures
            ExampleValueView::read(e) == Ok::<Option<ExampleValueView>, ErrorView>(u),
            u matches Some(x) ==> ExampleValueView::read_required(e)
                == Ok::<ExampleValueView, ErrorView>(x),
    {
        lemma_select_two(e, "value"@, "externalValue"@);
        match u {
            Some(ExampleValueView::Embedded { value }) => {
                lemma_read_always::<Json>(value, "value"@);
            },
            Some(ExampleValueView::External { external_value }) => {
                lemma_read_always::<String>(external_value, "externalValue"@);
            },
            None => {},
        }
    }
}

impl ExampleValue {
    /// Writes the union, which is set, after the entries of the object that
    /// holds it.
    pub fn write_one(out: &mut Vec<(String, Json)>, u: &ExampleValue)
        ensures
            final(out).deep_view() == ExampleValueView::written(
                old(out).deep_view(),
                Some(u.deep_view()),
            ),
    {
        match u {
            ExampleValue::Embedded { value } => {
                put(out, "value", slot_always(value));
                put(out, "externalValue", None);
            },
            ExampleValue::External { external_value } => {
                put(out, "value", None);
                put(out, "externalValue", slot_always(external_value));
            },
        }
    }

    /// Writes the union after the entries of the object that holds it:
    /// nothing where it is unset.
    pub fn write(out: &mut Vec<(String, Json)>, u: &Option<ExampleValue>)
        ensures
            final(out).deep_view() == ExampleValueView::written(
                old(out).deep_view(),
                u.deep_view(),
            ),
    {
        match u {
            Some(x) => {
                ExampleValue::write_one(out, x);
            },
            None => {
                put(out, "value", None);
                put(out, "externalValue", None);
            },
        }
    }

    /// Reads the union from the entries of the object that holds it.
    pub fn read(e: &Vec<(String, Json)>) -> (r: Result<Option<ExampleValue>, Error>)
        ensures
            result_view(r) == ExampleValueView::read(e.deep_view()),
    {
        let candidates = two_keys("value", "externalValue");
        match select_variant(e, &candidates) {
            None => Ok(None),
            Some(i) => if i == 0 {
                let value = get_required::<Json>(e, "value")?;
                Ok(Some(ExampleValue::Embedded { value }))
            } else {
                let external_value = get_required::<String>(e, "externalValue")?;
                Ok(Some(ExampleValue::External { external_value }))
            },
        }
    }

    /// Reads the union where it must be set.
    pub fn read_required(e: &Vec<(String, Json)>) -> (r: Result<ExampleValue, Error>)
        ensures
            result_view(r) == ExampleValueView::read_required(e.deep_view()),
    {
        match ExampleValue::read(e)? {
            Some(u) => Ok(u),
            None => Err(no_variant(e, two_keys("value", "externalValue"))),
        }
    }
}

impl Codec for ExampleValue {
    open spec fn to_json(v: ExampleValueView) -> JsonView {
        JsonView::Object(ExampleValueView::written(Seq::empty(), Some(v)))
    }

    open spec fn from_json(j: JsonView) -> Result<ExampleValueView, ErrorView> {
        match j {
            JsonView::Object(e) => ExampleValueView::read_required(e),
            _ => Err(ErrorView::mismatch(Expected::Object, j.kind())),
        }
    }

    open spec fn valid(v: ExampleValueView) -> bool {
        v.valid()
    }

    proof fn lemma_round_trip(v: ExampleValueView) {
        broadcast use {lemma_lookup_with_entry, lemma_lookup_empty};

        reveal_strlit("value");
        lemma_spell("value"@);
        reveal_strlit("externalValue");
        lemma_spell("externalValue"@);
        ExampleValueView::lemma_read_written(
            ExampleValueView::written(Seq::empty(), Some(v)),
            Some(v),
        );
    }

    fn encode(&self) -> (j: Json) {
        let mut out = no_entries();
        ExampleValue::write_one(&mut out, self);
        object(out)
    }

    fn decode(j: &Json) -> (r: Result<Self, Error>) {
        let e = entries_of(j)?;
        ExampleValue::read_required(e)
    }
}

/// How the keys of an object select the variant of an example value: the
/// embedded one where `value` is present, whatever else is; the external one
/// where only `externalValue` is; and a failure that names the candidates and
/// the keys seen where neither is.
pub proof fn lemma_example_value_selection(e: Seq<(Seq<char>, JsonView)>)
    ensures
        ExampleValue::from_json(JsonView::Object(e)) == match lookup(e, "value"@) {
            Some(value) => Ok(ExampleValueView::Embedded { value }),
            None => match lookup(e, "externalValue"@) {
                Some(JsonView::String(text)) => Ok(
                    ExampleValueView::External { external_value: text },
                ),
                Some(other) => Err(
                    ErrorView::mismatch(Expected::String, other.kind()).at_key("externalValue"@),
                ),
                None => resolve_failure(e, ExampleValueView::candidates()),
            },
        },
{
    reveal(read_required);
    lemma_select_two(e, "value"@, "externalValue"@);
}

/// An example of a value.
#[derive(Clone, Debug, PartialEq, Default)]
pub struct Example {
    /// Short description for the example.
    pub summary: String,
    /// Long description for the example.
    pub description: String,
    /// The example itself, or where to find it.
    pub value: Option<ExampleValue>,
}

/// View of an [`Example`].
pub struct ExampleView {
    pub summary: Seq<char>,
    pub description: Seq<char>,
    pub value: Option<ExampleValueView>,
}

impl DeepView for Example {
    type V = ExampleView;

    open spec fn deep_view(&self) -> ExampleView {
        ExampleView {
            summary: self.summary.deep_view(),
            description: self.description.deep_view(),
            value: self.value.deep_view(),
        }
    }
}

impl Codec for Example {
    open spec fn to_json(v: ExampleView) -> JsonView {
        let e = Seq::empty();
        let e = with_entry(e, "summary"@, if_text(v.summary));
        let e = with_entry(e, "description"@, if_text(v.description));
        let e = ExampleValueView::written(e, v.value);
        JsonView::Object(e)
    }

    open spec fn from_json(j: JsonView) -> Result<ExampleView, ErrorView> {
        match j {
            JsonView::Object(e) => {
                let summary = text_field(e, "summary"@);
                let description = text_field(e, "description"@);
                let value = ExampleValueView::read(e);
                if summary is Err {
                    Err(summary->Err_0)
                } else if description is Err {
                    Err(description->Err_0)
                } else if value is Err {
                    Err(value->Err_0)
                } else {
                    Ok(
                        ExampleView {
                            summary: summary->Ok_0,
                            description: description->Ok_0,
                            value: value->Ok_0,
                        },
                    )
                }
            },
            _ => Err(ErrorView::mismatch(Expected::Object, j.kind())),
        }
    }

    open spec fn valid(v: ExampleView) -> bool {
        &&& (v.value matches Some(u) ==> u.valid())
    }

    proof fn lemma_round_trip(v: ExampleView) {
        broadcast use {lemma_lookup_with_entry, lemma_lookup_empty};

        reveal_strlit("summary");
        lemma_spell("summary"@);
        reveal_strlit("description");
        lemma_spell("description"@);
        reveal_strlit("value");
        lemma_spell("value"@);
        reveal_strlit("externalValue");
        lemma_spell("externalValue"@);
        lemma_read_if_text(v.summary, "summary"@);
        lemma_read_if_text(v.description, "description"@);
        ExampleValueView::lemma_read_written(Self::to_json(v)->Object_0, v.value);
    }

    fn encode(&self) -> (j: Json) {
        let mut out = no_entries();
        put(&mut out, "summary", slot_if_text(&self.summary));
        put(&mut out, "description", slot_if_text(&self.description));
        ExampleValue::write(&mut out, &self.value);
        object(out)
    }

    fn decode(j: &Json) -> (r: Result<Self, Error>) {
        let e = entries_of(j)?;
        let summary = get_text(e, "summary")?;
        let description = get_text(e, "description")?;
        let value = ExampleValue::read(e)?;
        Ok(Example { summary, description, value })
    }
}

impl ExampleView {
    /// The JSON form holds no pointer, so that the value written in place is
    /// not taken for a reference.
    pub proof fn lemma_no_pointer(self)
        ensures
            pointer_in(Example::to_json(self)) is None,
    {
        broadcast use {lemma_lookup_with_entry, lemma_lookup_empty};

        reveal_strlit("$ref");
        lemma_spell("$ref"@);
        reveal_strlit("summary");
        lemma_spell("summary"@);
        reveal_strlit("description");
        lemma_spell("description"@);
        reveal_strlit("value");
        lemma_spell("value"@);
        reveal_strlit("externalValue");
        lemma_spell("externalValue"@);
    }
}

/// One example of a media type, or several by name.
#[derive(Clone, Debug, PartialEq)]
pub enum MediaTypeExample {
    /// The example.
    Example { example: Json },
    /// The examples, by name.
    Examples { examples: OrderedMap<ObjectOrReference<Example>> },
}

/// View of a [`MediaTypeExample`].
pub enum MediaTypeExampleView {
    Example { example: JsonView },
    Examples { examples: Seq<(Seq<char>, ObjectOrReferenceView<ExampleView>)> },
}

impl DeepView for MediaTypeExample {
    type V = MediaTypeExampleView;

    open spec fn deep_view(&self) -> MediaTypeExampleView {
        match self {
            MediaTypeExample::Example { example } => MediaTypeExampleView::Example {
                example: example.deep_view(),
            },
            MediaTypeExample::Examples { examples } => MediaTypeExampleView::Examples {
                examples: examples.deep_view(),
            },
        }
    }
}

impl MediaTypeExampleView {
    /// The keys that select each variant, in the order of declaration.
    pub open spec fn candidates() -> Seq<Seq<Seq<char>>> {
        seq![seq!["example"@], seq!["examples"@]]
    }

    /// What is written under `example`.
    pub open spec fn example_slot(u: Option<MediaTypeExampleView>) -> Option<JsonView> {
        match u {
            Some(MediaTypeExampleView::Example { example }) => always::<Json>(example),
            _ => None,
        }
    }

    /// What is written under `examples`.
    pub open spec fn examples_slot(u: Option<MediaTypeExampleView>) -> Option<JsonView> {
        match u {
            Some(MediaTypeExampleView::Examples { examples }) => {
                always::<OrderedMap<ObjectOrReference<Example>>>(examples)
            },
            _ => None,
        }
    }

    /// The entries with the union written after them: the key of its variant
    /// where it is set, nothing where it is not.
    pub open spec fn written(
        e: Seq<(Seq<char>, JsonView)>,
        u: Option<MediaTypeExampleView>,
    ) -> Seq<(Seq<char>, JsonView)> {
        let e = with_entry(e, "example"@, MediaTypeExampleView::example_slot(u));
        with_entry(e, "examples"@, MediaTypeExampleView::examples_slot(u))
    }

    /// The union that the keys of an object select: the first variant whose
    /// key is present, read from under that key; unset where neither key is
    /// present.
    pub open spec fn read(
        e: Seq<(Seq<char>, JsonView)>,
    ) -> Result<Option<MediaTypeExampleView>, ErrorView> {
        match select(e, MediaTypeExampleView::candidates()) {
            None => Ok(None),
            Some(i) => if i == 0 {
                match required_field::<Json>(e, "example"@) {
                    Ok(example) => Ok(Some(MediaTypeExampleView::Example { example })),
                    Err(err) => Err(err),
                }
            } else {
                match required_field::<OrderedMap<ObjectOrReference<Example>>>(e, "examples"@) {
                    Ok(examples) => Ok(Some(MediaTypeExampleView::Examples { examples })),
                    Err(err) => Err(err),
                }
            },
        }
    }

    /// The union where it must be set: keys that select no variant are a
    /// failure that names the candidates and the keys seen.
    pub open spec fn read_required(
        e: Seq<(Seq<char>, JsonView)>,
    ) -> Result<MediaTypeExampleView, ErrorView> {
        match MediaTypeExampleView::read(e) {
            Ok(Some(u)) => Ok(u),
            Ok(None) => resolve_failure(e, MediaTypeExampleView::candidates()),
            Err(err) => Err(err),
        }
    }

    /// The values that are read back as they were written.
    pub open spec fn valid(self) -> bool {
        match self {
            MediaTypeExampleView::Example { .. } => true,
            MediaTypeExampleView::Examples { examples } => {
                <OrderedMap<ObjectOrReference<Example>> as Codec>::valid(examples)
            },
        }
    }

    /// A union is read back from entries that hold under each of its keys what
    /// was written there.
    pub proof fn lemma_read_written(e: Seq<(Seq<char>, JsonView)>, u: Option<MediaTypeExampleView>)
        requires
            lookup(e, "example"@) == MediaTypeExampleView::example_slot(u),
            lookup(e, "examples"@) == MediaTypeExampleView::examples_slot(u),
            u matches Some(x) ==> x.valid(),
        ensures
            MediaTypeExampleView::read(e) == Ok::<Option<MediaTypeExampleView>, ErrorView>(u),
            u matches Some(x) ==> MediaTypeExampleView::read_required(e)
                == Ok::<MediaTypeExampleView, ErrorView>(x),
    {
        lemma_select_two(e, "example"@, "examples"@);
        match u {
            Some(MediaTypeExampleView::Example { example }) => {
                lemma_read_always::<Json>(example, "example"@);
            },
            Some(MediaTypeExampleView::Examples { examples }) => {
                lemma_read_always::<OrderedMap<ObjectOrReference<Example>>>(examples, "examples"@);
            },
            None => {},
        }
    }
}

impl MediaTypeExample {
    /// Writes the union, which is set, after the entries of the object that
    /// holds it.
    pub fn write_one(out: &mut Vec<(String, Json)>, u: &MediaTypeExample)
        ensures
            final(out).deep_view() == MediaTypeExampleView::written(
                old(out).deep_view(),
                Some(u.deep_view()),
            ),
    {
        match u {
            MediaTypeExample::Example { example } => {
                put(out, "example", slot_always(example));
                put(out, "examples", None);
            },
            MediaTypeExample::Examples { examples } => {
                put(out, "example", None);
                put(out, "examples", slot_always(examples));
            },
        }
    }

    /// Writes the union after the entries of the object that holds it:
    /// nothing where it is unset.
    pub fn write(out: &mut Vec<(String, Json)>, u: &Option<MediaTypeExample>)
        ensures
            final(out).deep_view() == MediaTypeExampleView::written(
                old(out).deep_view(),
                u.deep_view(),
            ),
    {
        match u {
            Some(x) => {
                MediaTypeExample::write_one(out, x);
            },
            None => {
                put(out, "example", None);
                put(out, "examples", None);
            },
        }
    }

    /// Reads the union from the entries of the object that holds it.
    pub fn read(e: &Vec<(String, Json)>) -> (r: Result<Option<MediaTypeExample>, Error>)
        ensures
            result_view(r) == MediaTypeExampleView::read(e.deep_view()),
    {
        let candidates = two_keys("example", "examples");
        match select_variant(e, &candidates) {
            None => Ok(None),
            Some(i) => if i == 0 {
                let example = get_required::<Json>(e, "example")?;
                Ok(Some(MediaTypeExample::Example { example }))
            } else {
                let examples = get_required::<OrderedMap<ObjectOrReference<Example>>>(
                    e,
                    "examples",
                )?;
                Ok(Some(MediaTypeExample::Examples { examples }))
            },
        }
    }

    /// Reads the union where it must be set.
    pub fn read_required(e: &Vec<(String, Json)>) -> (r: Result<MediaTypeExample, Error>)
        ensures
            result_view(r) == MediaTypeExampleView::read_required(e.deep_view()),
    {
        match MediaTypeExample::read(e)? {
            Some(u) => Ok(u),
            None => Err(no_variant(e, two_keys("example", "examples"))),
        }
    }
}

impl Codec for MediaTypeExample {
    open spec fn to_json(v: MediaTypeExampleView) -> JsonView {
        JsonView::Object(MediaTypeExampleView::written(Seq::empty(), Some(v)))
    }

    open spec fn from_json(j: JsonView) -> Result<MediaTypeExampleView, ErrorView> {
        match j {
            JsonView::Object(e) => MediaTypeExampleView::read_required(e),
            _ => Err(ErrorView::mismatch(Expected::Object, j.kind())),
        }
    }

    open spec fn valid(v: MediaTypeExampleView) -> bool {
        v.valid()
    }

    proof fn lemma_round_trip(v: MediaTypeExampleView) {
        broadcast use {lemma_lookup_with_entry, lemma_lookup_empty};

        reveal_strlit("example");
        lemma_spell("example"@);
        reveal_strlit("examples");
        lemma_spell("examples"@);
        MediaTypeExampleView::lemma_read_written(
            MediaTypeExampleView::written(Seq::empty(), Some(v)),
            Some(v),
        );
    }

    fn encode(&self) -> (j: Json) {
        let mut out = no_entries();
        MediaTypeExample::write_one(&mut out, self);
        object(out)
    }

    fn decode(j: &Json) -> (r: Result<Self, Error>) {
        let e = entries_of(j)?;
        MediaTypeExample::read_required(e)
    }
}

/// How one property of a request body is encoded.
#[derive(Clone, Debug, PartialEq, Default)]
pub struct Encoding {
    /// The content type for encoding the property.
    pub content_type: String,
    /// Further headers, by name.
    pub headers: OrderedMap<ObjectOrReference<Header>>,
    /// How the value of the property is serialized.
    pub style: String,
    /// Whether arrays and objects give one parameter for each of their values.
    pub explode: Option<bool>,
    /// Whether reserved characters are passed without percent-encoding.
    pub allow_reserved: Option<bool>,
}

/// View of an [`Encoding`].
pub struct EncodingView {
    pub content_type: Seq<char>,
    pub headers: Seq<(Seq<char>, ObjectOrReferenceView<HeaderView>)>,
    pub style: Seq<char>,
    pub explode: Option<bool>,
    pub allow_reserved: Option<bool>,
}

impl DeepView for Encoding {
    type V = EncodingView;

    open spec fn deep_view(&self) -> EncodingView {
        EncodingView {
            content_type: self.content_type.deep_view(),
            headers: self.headers.deep_view(),
            style: self.style.deep_view(),
            explode: self.explode.deep_view(),
            allow_reserved: self.allow_reserved.deep_view(),
        }
    }
}

impl Codec for Encoding {
    open spec fn to_json(v: EncodingView) -> JsonView {
        let e = Seq::empty();
        let e = with_entry(e, "contentType"@, if_text(v.content_type));
        let e = with_entry(e, "headers"@, if_entries::<ObjectOrReference<Header>>(v.headers));
        let e = with_entry(e, "style"@, if_text(v.style));
        let e = with_entry(e, "explode"@, if_some::<bool>(v.explode));
        let e = with_entry(e, "allowReserved"@, if_some::<bool>(v.allow_reserved));
        JsonView::Object(e)
    }

    open spec fn from_json(j: JsonView) -> Result<EncodingView, ErrorView> {
        match j {
            JsonView::Object(e) => {
                let content_type = text_field(e, "contentType"@);
                let headers = entries_field::<ObjectOrReference<Header>>(e, "headers"@);
                let style = text_field(e, "style"@);
                let explode = optional_field::<bool>(e, "explode"@);
                let allow_reserved = optional_field::<bool>(e, "allowReserved"@);
                if content_type is Err {
                    Err(content_type->Err_0)
                } else if headers is Err {
                    Err(headers->Err_0)
                } else if style is Err {
                    Err(style->Err_0)
                } else if explode is Err {
                    Err(explode->Err_0)
                } else if allow_reserved is Err {
                    Err(allow_reserved->Err_0)
                } else {
                    Ok(
                        EncodingView {
                            content_type: content_type->Ok_0,
                            headers: headers->Ok_0,
                            style: style->Ok_0,
                            explode: explode->Ok_0,
                            allow_reserved: allow_reserved->Ok_0,
                        },
                    )
                }
            },
            _ => Err(ErrorView::mismatch(Expected::Object, j.kind())),
        }
    }

    open spec fn valid(v: EncodingView) -> bool {
        &&& map_valid::<ObjectOrReference<Header>>(v.headers)
    }

    proof fn lemma_round_trip(v: EncodingView) {
        broadcast use {lemma_lookup_with_entry, lemma_lookup_empty};

        reveal_strlit("contentType");
        lemma_spell("contentType"@);
        reveal_strlit("headers");
        lemma_spell("headers"@);
        reveal_strlit("style");
        lemma_spell("style"@);
        reveal_strlit("explode");
        lemma_spell("explode"@);
        reveal_strlit("allowReserved");
        lemma_spell("allowReserved"@);
        lemma_read_if_text(v.content_type, "contentType"@);
        lemma_read_if_entries::<ObjectOrReference<Header>>(v.headers, "headers"@);
        lemma_read_if_text(v.style, "style"@);
        lemma_read_if_some::<bool>(v.explode, "explode"@);
        lemma_read_if_some::<bool>(v.allow_reserved, "allowReserved"@);
    }

    fn encode(&self) -> (j: Json) {
        let mut out = no_entries();
        put(&mut out, "contentType", slot_if_text(&self.content_type));
        put(&mut out, "headers", slot_if_entries(&self.headers));
        put(&mut out, "style", slot_if_text(&self.style));
        put(&mut out, "explode", slot_if_some(&self.explode));
        put(&mut out, "allowReserved", slot_if_some(&self.allow_reserved));
        object(out)
    }

    fn decode(j: &Json) -> (r: Result<Self, Error>) {
        let e = entries_of(j)?;
        let content_type = get_text(e, "contentType")?;
        let headers = get_entries::<ObjectOrReference<Header>>(e, "headers")?;
        let style = get_text(e, "style")?;
        let explode = get_optional::<bool>(e, "explode")?;
        let allow_reserved = get_optional::<bool>(e, "allowReserved")?;
        Ok(Encoding { content_type, headers, style, explode, allow_reserved })
    }
}

/// The schema and the examples of one media type.
#[derive(Clone, Debug, PartialEq, Default)]
pub struct MediaType {
    /// The schema of the content.
    pub schema: Option<ComponentOrInlineSchema>,
    /// One example, or several by name.
    pub examples: Option<MediaTypeExample>,
    /// How each property is encoded, by the name of the property.
    pub encoding: OrderedMap<Encoding>,
}

/// View of a [`MediaType`].
pub struct MediaTypeView {
    pub schema: Option<ComponentOrInlineSchemaView>,
    pub examples: Option<MediaTypeExampleView>,
    pub encoding: Seq<(Seq<char>, EncodingView)>,
}

impl DeepView for MediaType {
    type V = MediaTypeView;

    open spec fn deep_view(&self) -> MediaTypeView {
        MediaTypeView {
            schema: self.schema.deep_view(),
            examples: self.examples.deep_view(),
            encoding: self.encoding.deep_view(),
        }
    }
}

impl Codec for MediaType {
    open spec fn to_json(v: MediaTypeView) -> JsonView {
        let e = Seq::empty();
        let e = with_entry(e, "schema"@, if_some::<ComponentOrInlineSchema>(v.schema));
        let e = MediaTypeExampleView::written(e, v.examples);
        let e = with_entry(e, "encoding"@, if_entries::<Encoding>(v.encoding));
        JsonView::Object(e)
    }

    open spec fn from_json(j: JsonView) -> Result<MediaTypeView, ErrorView> {
        match j {
            JsonView::Object(e) => {
                let schema = optional_field::<ComponentOrInlineSchema>(e, "schema"@);
                let examples = MediaTypeExampleView::read(e);
                let encoding = entries_field::<Encoding>(e, "encoding"@);
                if schema is Err {
                    Err(schema->Err_0)
                } else if examples is Err {
                    Err(examples->Err_0)
                } else if encoding is Err {
                    Err(encoding->Err_0)
                } else {
                    Ok(
                        MediaTypeView {
                            schema: schema->Ok_0,
                            examples: examples->Ok_0,
                            encoding: encoding->Ok_0,
                        },
                    )
                }
            },
            _ => Err(ErrorView::mismatch(Expected::Object, j.kind())),
        }
    }

    open spec fn valid(v: MediaTypeView) -> bool {
        &&& (v.schema matches Some(x) ==> ComponentOrInlineSchema::valid(x))
        &&& (v.examples matches Some(u) ==> u.valid())
        &&& map_valid::<Encoding>(v.encoding)
    }

    proof fn lemma_round_trip(v: MediaTypeView) {
        broadcast use {lemma_lookup_with_entry, lemma_lookup_empty};

        reveal_strlit("schema");
        lemma_spell("schema"@);
        reveal_strlit("example");
        lemma_spell("example"@);
        reveal_strlit("examples");
        lemma_spell("examples"@);
        reveal_strlit("encoding");
        lemma_spell("encoding"@);
        if v.schema is Some {
            lemma_nested_is_object(v.schema->Some_0);
        }
        lemma_read_if_some::<ComponentOrInlineSchema>(v.schema, "schema"@);
        MediaTypeExampleView::lemma_read_written(Self::to_json(v)->Object_0, v.examples);
        lemma_read_if_entries::<Encoding>(v.encoding, "encoding"@);
    }

    fn encode(&self) -> (j: Json) {
        let mut out = no_entries();
        put(&mut out, "schema", slot_if_some(&self.schema));
        MediaTypeExample::write(&mut out, &self.examples);
        put(&mut out, "encoding", slot_if_entries(&self.encoding));
        object(out)
    }

    fn decode(j: &Json) -> (r: Result<Self, Error>) {
        let e = entries_of(j)?;
        let schema = get_optional::<ComponentOrInlineSchema>(e, "schema")?;
        let examples = MediaTypeExample::read(e)?;
        let encoding = get_entries::<Encoding>(e, "encoding")?;
        Ok(MediaType { schema, examples, encoding })
    }
}

} // verus!
