//! The schema node: a recursive type in which every nested schema is either
//! written in place or named by a pointer to a component.

use crate::codec::{
    decoder, lemma_list_all, lemma_list_failure, lemma_list_step, list_from_json_with, Codec,
};
use crate::error::{
    in_index, in_key, result_view, under_key, Error, ErrorKind, ErrorKindView, ErrorView, Expected,
};
use crate::json::{lemma_array_view, Json, JsonView};
use crate::object::{
    entries_of, find, get_items, get_optional, get_text, if_array, if_items, if_object, if_some,
    if_text, items_field, lemma_index_of, lemma_lookup_empty, lemma_lookup_with_entry,
    lemma_read_defaulted_ok, lemma_read_if_items, lemma_read_if_some, lemma_read_if_text,
    lemma_read_optional_some, lookup, no_entries, object, optional_field, put, read_defaulted,
    read_optional, slot_if_items, slot_if_some, slot_if_text, text_field, with_entry,
};
use crate::ordered_map::{
    distinct_keys, entries_field, get_entries, if_entries, lemma_map_all, lemma_map_distinct,
    lemma_map_failure, lemma_map_step, lemma_read_if_entries, map_from_json_with, slot_if_entries,
    OrderedMap,
};
use crate::strings::{lemma_spell, same_text};
use crate::v3_0::component_ser_as_ref::{
    deserialize, lemma_name_of_pointer, name_of, pointer_of, serialize,
};
use crate::v3_0::components::{
    lemma_pointer_in_reference, pointer_in, reference, reference_target, reference_to,
};
use vstd::prelude::*;

verus! {

/// How deep schemas may be nested in one another. A schema written in place
/// counts one level; a pointer to a component counts none.
pub const MAX_SCHEMA_DEPTH: usize = 64;

/// The primitive type of the values that a schema describes.
#[derive(Clone, Copy, Debug, PartialEq, Eq)]
pub enum Type {
    String,
    Number,
    Integer,
    Boolean,
    Array,
    Object,
    File,
}

impl DeepView for Type {
    type V = Type;

    open spec fn deep_view(&self) -> Type {
        *self
    }
}

/// The word that stands for a type.
pub open spec fn type_word(t: Type) -> Seq<char> {
    match t {
        Type::String => "string"@,
        Type::Number => "number"@,
        Type::Integer => "integer"@,
        Type::Boolean => "boolean"@,
        Type::Array => "array"@,
        Type::Object => "object"@,
        Type::File => "file"@,
    }
}

impl Codec for Type {
    open spec fn to_json(v: Type) -> JsonView {
        JsonView::String(type_word(v))
    }

    open spec fn from_json(j: JsonView) -> Result<Type, ErrorView> {
        match j {
            JsonView::String(s) => if s == "string"@ {
                Ok(Type::String)
            } else if s == "number"@ {
                Ok(Type::Number)
            } else if s == "integer"@ {
                Ok(Type::Integer)
            } else if s == "boolean"@ {
                Ok(Type::Boolean)
            } else if s == "array"@ {
                Ok(Type::Array)
            } else if s == "object"@ {
                Ok(Type::Object)
            } else if s == "file"@ {
                Ok(Type::File)
            } else {
                Err(ErrorView::here(ErrorKindView::UnknownDiscriminant(s)))
            },
            _ => Err(ErrorView::mismatch(Expected::String, j.kind())),
        }
    }

    open spec fn valid(v: Type) -> bool {
        true
    }

    proof fn lemma_round_trip(v: Type) {
        reveal_strlit("string");
        reveal_strlit("number");
        reveal_strlit("integer");
        reveal_strlit("boolean");
        reveal_strlit("array");
        reveal_strlit("object");
        reveal_strlit("file");
        lemma_spell("string"@);
        lemma_spell("number"@);
        lemma_spell("integer"@);
        lemma_spell("boolean"@);
        lemma_spell("array"@);
        lemma_spell("object"@);
        lemma_spell("file"@);
    }

    fn encode(&self) -> (j: Json) {
        let word = match self {
            Type::String => "string",
            Type::Number => "number",
            Type::Integer => "integer",
            Type::Boolean => "boolean",
            Type::Array => "array",
            Type::Object => "object",
            Type::File => "file",
        };
        Json::String(word.to_owned())
    }

    fn decode(j: &Json) -> (r: Result<Self, Error>) {
        match j {
            Json::String(s) => {
                let s = s.as_str();
                if same_text(s, "string") {
                    Ok(Type::String)
                } else if same_text(s, "number") {
                    Ok(Type::Number)
                } else if same_text(s, "integer") {
                    Ok(Type::Integer)
                } else if same_text(s, "boolean") {
                    Ok(Type::Boolean)
                } else if same_text(s, "array") {
                    Ok(Type::Array)
                } else if same_text(s, "object") {
                    Ok(Type::Object)
                } else if same_text(s, "file") {
                    Ok(Type::File)
                } else {
                    Err(Error::here(ErrorKind::UnknownDiscriminant(s.to_owned())))
                }
            },
            _ => Err(Error::mismatch(Expected::String, j.kind())),
        }
    }
}

/// A schema in a nested position: the name of a component, or the schema
/// itself.
#[derive(Debug, PartialEq)]
pub enum ComponentOrInlineSchema {
    /// The bare name of a schema component of the same document.
    Component { name: String },
    /// The schema, written in place.
    Inline(Schema),
}

/// View of a [`ComponentOrInlineSchema`].
pub enum ComponentOrInlineSchemaView {
    Component { name: Seq<char> },
    Inline(SchemaView),
}

/// A description of a set of values: a subset of the JSON Schema vocabulary.
#[derive(Debug, PartialEq, Default)]
pub struct Schema {
    pub description: String,
    pub format: String,
    pub items: Option<Box<ComponentOrInlineSchema>>,
    pub properties: OrderedMap<ComponentOrInlineSchema>,
    pub read_only: Option<bool>,
    pub write_only: Option<bool>,
    pub nullable: Option<bool>,
    pub additional_properties: Option<Box<ComponentOrInlineSchema>>,
    pub example: Option<Json>,
    pub title: String,
    pub default: Option<Json>,
    pub all_of: Vec<ComponentOrInlineSchema>,
    pub one_of: Vec<ComponentOrInlineSchema>,
    pub any_of: Vec<ComponentOrInlineSchema>,
    pub schema_type: Option<Type>,
    pub enum_values: Vec<String>,
    pub const_value: Option<Json>,
    pub multiple_of: Option<Json>,
    pub minimum: Option<Json>,
    pub exclusive_minimum: Option<Json>,
    pub maximum: Option<Json>,
    pub exclusive_maximum: Option<Json>,
    pub max_length: Option<usize>,
    pub min_length: Option<usize>,
    pub pattern: String,
    pub max_items: Option<usize>,
    pub min_items: Option<usize>,
    pub unique_items: Option<bool>,
    pub max_properties: Option<usize>,
    pub min_properties: Option<usize>,
    pub required: Vec<String>,
    pub dependent_required: OrderedMap<Vec<String>>,
}

/// View of a [`Schema`].
pub struct SchemaView {
    pub description: Seq<char>,
    pub format: Seq<char>,
    pub items: Option<Box<ComponentOrInlineSchemaView>>,
    pub properties: Seq<(Seq<char>, ComponentOrInlineSchemaView)>,
    pub read_only: Option<bool>,
    pub write_only: Option<bool>,
    pub nullable: Option<bool>,
    pub additional_properties: Option<Box<ComponentOrInlineSchemaView>>,
    pub example: Option<JsonView>,
    pub title: Seq<char>,
    pub default: Option<JsonView>,
    pub all_of: Seq<ComponentOrInlineSchemaView>,
    pub one_of: Seq<ComponentOrInlineSchemaView>,
    pub any_of: Seq<ComponentOrInlineSchemaView>,
    pub schema_type: Option<Type>,
    pub enum_values: Seq<Seq<char>>,
    pub const_value: Option<JsonView>,
    pub multiple_of: Option<JsonView>,
    pub minimum: Option<JsonView>,
    pub exclusive_minimum: Option<JsonView>,
    pub maximum: Option<JsonView>,
    pub exclusive_maximum: Option<JsonView>,
    pub max_length: Option<usize>,
    pub min_length: Option<usize>,
    pub pattern: Seq<char>,
    pub max_items: Option<usize>,
    pub min_items: Option<usize>,
    pub unique_items: Option<bool>,
    pub max_properties: Option<usize>,
    pub min_properties: Option<usize>,
    pub required: Seq<Seq<char>>,
    pub dependent_required: Seq<(Seq<char>, Seq<Seq<char>>)>,
}

/// The view of a nested schema.
pub open spec fn nested_view(c: ComponentOrInlineSchema) -> ComponentOrInlineSchemaView
    decreases c,
{
    match c {
        ComponentOrInlineSchema::Component { name } => ComponentOrInlineSchemaView::Component {
            name: name@,
        },
        ComponentOrInlineSchema::Inline(s) => ComponentOrInlineSchemaView::Inline(schema_view(s)),
    }
}

/// The view of a nested schema in a box, where there is one.
pub open spec fn boxed_view(c: Option<Box<ComponentOrInlineSchema>>) -> Option<
    Box<ComponentOrInlineSchemaView>,
>
    decreases c,
{
    match c {
        Some(b) => Some(Box::new(nested_view(*b))),
        None => None,
    }
}

/// The views of a list of nested schemas, in order.
pub open spec fn nested_list_view(items: Seq<ComponentOrInlineSchema>) -> Seq<
    ComponentOrInlineSchemaView,
>
    decreases items,
{
    if items.len() == 0 {
        Seq::empty()
    } else {
        nested_list_view(items.drop_last()).push(nested_view(items.last()))
    }
}

/// The views of the entries of a map of nested schemas, in order.
pub open spec fn nested_map_view(entries: Seq<(String, ComponentOrInlineSchema)>) -> Seq<
    (Seq<char>, ComponentOrInlineSchemaView),
>
    decreases entries,
{
    if entries.len() == 0 {
        Seq::empty()
    } else {
        nested_map_view(entries.drop_last()).push(
            (entries.last().0@, nested_view(entries.last().1)),
        )
    }
}

/// The view of a schema.
#[verifier::opaque]
pub open spec fn schema_view(s: Schema) -> SchemaView
    decreases s,
{
    SchemaView {
        description: s.description.deep_view(),
        format: s.format.deep_view(),
        items: boxed_view(s.items),
        properties: nested_map_view(s.properties.entries@),
        read_only: s.read_only.deep_view(),
        write_only: s.write_only.deep_view(),
        nullable: s.nullable.deep_view(),
        additional_properties: boxed_view(s.additional_properties),
        example: s.example.deep_view(),
        title: s.title.deep_view(),
        default: s.default.deep_view(),
        all_of: nested_list_view(s.all_of@),
        one_of: nested_list_view(s.one_of@),
        any_of: nested_list_view(s.any_of@),
        schema_type: s.schema_type.deep_view(),
        enum_values: s.enum_values.deep_view(),
        const_value: s.const_value.deep_view(),
        multiple_of: s.multiple_of.deep_view(),
        minimum: s.minimum.deep_view(),
        exclusive_minimum: s.exclusive_minimum.deep_view(),
        maximum: s.maximum.deep_view(),
        exclusive_maximum: s.exclusive_maximum.deep_view(),
        max_length: s.max_length.deep_view(),
        min_length: s.min_length.deep_view(),
        pattern: s.pattern.deep_view(),
        max_items: s.max_items.deep_view(),
        min_items: s.min_items.deep_view(),
        unique_items: s.unique_items.deep_view(),
        max_properties: s.max_properties.deep_view(),
        min_properties: s.min_properties.deep_view(),
        required: s.required.deep_view(),
        dependent_required: s.dependent_required.deep_view(),
    }
}

/// The view of a schema, field by field.
pub proof fn lemma_schema_view(s: Schema)
    ensures
        schema_view(s) == (SchemaView {
        description: s.description.deep_view(),
        format: s.format.deep_view(),
        items: boxed_view(s.items),
        properties: nested_map_view(s.properties.entries@),
        read_only: s.read_only.deep_view(),
        write_only: s.write_only.deep_view(),
        nullable: s.nullable.deep_view(),
        additional_properties: boxed_view(s.additional_properties),
        example: s.example.deep_view(),
        title: s.title.deep_view(),
        default: s.default.deep_view(),
        all_of: nested_list_view(s.all_of@),
        one_of: nested_list_view(s.one_of@),
        any_of: nested_list_view(s.any_of@),
        schema_type: s.schema_type.deep_view(),
        enum_values: s.enum_values.deep_view(),
        const_value: s.const_value.deep_view(),
        multiple_of: s.multiple_of.deep_view(),
        minimum: s.minimum.deep_view(),
        exclusive_minimum: s.exclusive_minimum.deep_view(),
        maximum: s.maximum.deep_view(),
        exclusive_maximum: s.exclusive_maximum.deep_view(),
        max_length: s.max_length.deep_view(),
        min_length: s.min_length.deep_view(),
        pattern: s.pattern.deep_view(),
        max_items: s.max_items.deep_view(),
        min_items: s.min_items.deep_view(),
        unique_items: s.unique_items.deep_view(),
        max_properties: s.max_properties.deep_view(),
        min_properties: s.min_properties.deep_view(),
        required: s.required.deep_view(),
        dependent_required: s.dependent_required.deep_view(),
    }),
{
    reveal(schema_view);
}

impl DeepView for ComponentOrInlineSchema {
    type V = ComponentOrInlineSchemaView;

    open spec fn deep_view(&self) -> ComponentOrInlineSchemaView {
        nested_view(*self)
    }
}

impl DeepView for Schema {
    type V = SchemaView;

    open spec fn deep_view(&self) -> SchemaView {
        schema_view(*self)
    }
}

/// `nested_list_view` takes the view of each item, one for one.
pub proof fn lemma_nested_list_view(items: Seq<ComponentOrInlineSchema>)
    ensures
        nested_list_view(items).len() == items.len(),
        forall|i: int|
            0 <= i < items.len() ==> #[trigger] nested_list_view(items)[i] == nested_view(
                items[i],
            ),
    decreases items.len(),
{
    if items.len() > 0 {
        lemma_nested_list_view(items.drop_last());
    }
}

/// `nested_map_view` keeps each key and takes the view of each value.
pub proof fn lemma_nested_map_view(entries: Seq<(String, ComponentOrInlineSchema)>)
    ensures
        nested_map_view(entries).len() == entries.len(),
        forall|i: int|
            0 <= i < entries.len() ==> #[trigger] nested_map_view(entries)[i] == (
                entries[i].0@,
                nested_view(entries[i].1),
            ),
    decreases entries.len(),
{
    if entries.len() > 0 {
        lemma_nested_map_view(entries.drop_last());
    }
}

/// The view of a list of nested schemas is the deep view of the vector.
pub proof fn lemma_nested_list_deep_view(items: Vec<ComponentOrInlineSchema>)
    ensures
        nested_list_view(items@) == items.deep_view(),
{
    lemma_nested_list_view(items@);
    assert(nested_list_view(items@) =~= items.deep_view());
}

/// The view of a map of nested schemas is the deep view of the map.
pub proof fn lemma_nested_map_deep_view(m: OrderedMap<ComponentOrInlineSchema>)
    ensures
        nested_map_view(m.entries@) == m.deep_view(),
{
    lemma_nested_map_view(m.entries@);
    assert(nested_map_view(m.entries@) =~= m.deep_view());
}

impl ComponentOrInlineSchema {
    /// The schema, where it is written in place.
    pub fn unwrap(&self) -> (r: Option<&Schema>)
        ensures
            match *self {
                ComponentOrInlineSchema::Inline(s) => r == Some(&s),
                ComponentOrInlineSchema::Component { .. } => r is None,
            },
    {
        match self {
            Self::Inline(s) => Some(s),
            Self::Component { .. } => None,
        }
    }
}

/// The JSON form of a nested schema: an object with the pointer as its only
/// entry, or the JSON form of the schema itself.
pub open spec fn nested_to_json(c: ComponentOrInlineSchemaView) -> JsonView
    decreases c,
{
    match c {
        ComponentOrInlineSchemaView::Component { name } => reference_to(pointer_of(name)),
        ComponentOrInlineSchemaView::Inline(s) => schema_to_json(s),
    }
}

/// The slot of a nested schema that is written where it is set.
pub open spec fn if_nested(c: Option<Box<ComponentOrInlineSchemaView>>) -> Option<JsonView>
    decreases c,
{
    match c {
        Some(b) => Some(nested_to_json(*b)),
        None => None,
    }
}

/// The JSON forms of a list of nested schemas, in order.
pub open spec fn nested_list_to_json(items: Seq<ComponentOrInlineSchemaView>) -> Seq<JsonView>
    decreases items,
{
    if items.len() == 0 {
        Seq::empty()
    } else {
        nested_list_to_json(items.drop_last()).push(nested_to_json(items.last()))
    }
}

/// The entries of the JSON form of a map of nested schemas, in order.
pub open spec fn nested_map_to_json(
    entries: Seq<(Seq<char>, ComponentOrInlineSchemaView)>,
) -> Seq<(Seq<char>, JsonView)>
    decreases entries,
{
    if entries.len() == 0 {
        Seq::empty()
    } else {
        nested_map_to_json(entries.drop_last()).push(
            (entries.last().0, nested_to_json(entries.last().1)),
        )
    }
}

/// The JSON form of a schema: its fields in the order of their declaration,
/// each left out where it is empty or unset. A flag that is set is written,
/// whether to `true` or to `false`.
pub open spec fn schema_to_json(v: SchemaView) -> JsonView
    decreases v,
{
    let e = Seq::empty();
    let e = with_entry(e, "description"@, if_text(v.description));
    let e = with_entry(e, "format"@, if_text(v.format));
    let e = with_entry(e, "items"@, if_nested(v.items));
    let e = with_entry(e, "properties"@, if_object(nested_map_to_json(v.properties)));
    let e = with_entry(e, "readOnly"@, if_some::<bool>(v.read_only));
    let e = with_entry(e, "writeOnly"@, if_some::<bool>(v.write_only));
    let e = with_entry(e, "nullable"@, if_some::<bool>(v.nullable));
    let e = with_entry(e, "additionalProperties"@, if_nested(v.additional_properties));
    let e = with_entry(e, "example"@, if_some::<Json>(v.example));
    let e = with_entry(e, "title"@, if_text(v.title));
    let e = with_entry(e, "default"@, if_some::<Json>(v.default));
    let e = with_entry(e, "allOf"@, if_array(nested_list_to_json(v.all_of)));
    let e = with_entry(e, "oneOf"@, if_array(nested_list_to_json(v.one_of)));
    let e = with_entry(e, "anyOf"@, if_array(nested_list_to_json(v.any_of)));
    let e = with_entry(e, "type"@, if_some::<Type>(v.schema_type));
    let e = with_entry(e, "enum"@, if_items::<String>(v.enum_values));
    let e = with_entry(e, "const"@, if_some::<Json>(v.const_value));
    let e = with_entry(e, "multipleOf"@, if_some::<Json>(v.multiple_of));
    let e = with_entry(e, "minimum"@, if_some::<Json>(v.minimum));
    let e = with_entry(e, "exclusiveMinimum"@, if_some::<Json>(v.exclusive_minimum));
    let e = with_entry(e, "maximum"@, if_some::<Json>(v.maximum));
    let e = with_entry(e, "exclusiveMaximum"@, if_some::<Json>(v.exclusive_maximum));
    let e = with_entry(e, "maxLength"@, if_some::<usize>(v.max_length));
    let e = with_entry(e, "minLength"@, if_some::<usize>(v.min_length));
    let e = with_entry(e, "pattern"@, if_text(v.pattern));
    let e = with_entry(e, "maxItems"@, if_some::<usize>(v.max_items));
    let e = with_entry(e, "minItems"@, if_some::<usize>(v.min_items));
    let e = with_entry(e, "uniqueItems"@, if_some::<bool>(v.unique_items));
    let e = with_entry(e, "maxProperties"@, if_some::<usize>(v.max_properties));
    let e = with_entry(e, "minProperties"@, if_some::<usize>(v.min_properties));
    let e = with_entry(e, "required"@, if_items::<String>(v.required));
    let e = with_entry(e, "dependentRequired"@, if_entries::<Vec<String>>(v.dependent_required));
    JsonView::Object(e)
}

/// `nested_list_to_json` takes the JSON form of each item, one for one.
pub proof fn lemma_nested_list_to_json(items: Seq<ComponentOrInlineSchemaView>)
    ensures
        nested_list_to_json(items).len() == items.len(),
        forall|i: int|
            0 <= i < items.len() ==> #[trigger] nested_list_to_json(items)[i] == nested_to_json(
                items[i],
            ),
    decreases items.len(),
{
    if items.len() > 0 {
        lemma_nested_list_to_json(items.drop_last());
    }
}

/// `nested_map_to_json` keeps each key and takes the JSON form of each value.
pub proof fn lemma_nested_map_to_json(entries: Seq<(Seq<char>, ComponentOrInlineSchemaView)>)
    ensures
        nested_map_to_json(entries).len() == entries.len(),
        forall|i: int|
            0 <= i < entries.len() ==> #[trigger] nested_map_to_json(entries)[i] == (
                entries[i].0,
                nested_to_json(entries[i].1),
            ),
    decreases entries.len(),
{
    if entries.len() > 0 {
        lemma_nested_map_to_json(entries.drop_last());
    }
}

/// Writes a nested schema.
pub fn encode_nested(c: &ComponentOrInlineSchema) -> (j: Json)
    ensures
        j.deep_view() == nested_to_json(nested_view(*c)),
    decreases c,
{
    reveal(schema_view);
    match c {
        ComponentOrInlineSchema::Component { name } => reference(serialize(name.as_str())),
        ComponentOrInlineSchema::Inline(s) => encode_schema(s),
    }
}

/// The slot of a nested schema that is written where it is set.
fn slot_if_nested(c: &Option<Box<ComponentOrInlineSchema>>) -> (slot: Option<Json>)
    ensures
        slot.deep_view() == if_nested(boxed_view(*c)),
    decreases c,
{
    match c {
        Some(b) => Some(encode_nested(&**b)),
        None => None,
    }
}

/// The slot of a list of nested schemas, written unless the list is empty.
fn slot_if_nested_list(items: &Vec<ComponentOrInlineSchema>) -> (slot: Option<Json>)
    ensures
        slot.deep_view() == if_array(nested_list_to_json(nested_list_view(items@))),
    decreases items,
{
    proof {
        lemma_nested_list_view(items@);
        lemma_nested_list_to_json(nested_list_view(items@));
    }
    if items.len() == 0 {
        return None;
    }
    let mut out: Vec<Json> = Vec::new();
    let mut i: usize = 0;
    while i < items.len()
        invariant
            i <= items.len(),
            out.len() == i,
            forall|k: int|
                0 <= k < i ==> (#[trigger] out[k]).deep_view() == nested_to_json(
                    nested_view(items[k]),
                ),
        decreases items.len() - i,
    {
        proof {
            assert(decreases_to!(items => items@));
            assert(decreases_to!(items@ => items@[i as int]));
        }
        out.push(encode_nested(&items[i]));
        i += 1;
    }
    proof {
        lemma_array_view(out);
        lemma_nested_list_to_json(nested_list_view(items@));
        assert(out.deep_view() =~= nested_list_to_json(nested_list_view(items@)));
    }
    Some(Json::Array(out))
}

/// The slot of a map of nested schemas, written unless the map is empty.
fn slot_if_nested_map(m: &OrderedMap<ComponentOrInlineSchema>) -> (slot: Option<Json>)
    ensures
        slot.deep_view() == if_object(nested_map_to_json(nested_map_view(m.entries@))),
    decreases m,
{
    proof {
        lemma_nested_map_view(m.entries@);
        lemma_nested_map_to_json(nested_map_view(m.entries@));
    }
    if m.entries.len() == 0 {
        return None;
    }
    let mut out: Vec<(String, Json)> = Vec::new();
    let mut i: usize = 0;
    while i < m.entries.len()
        invariant
            i <= m.entries.len(),
            out.len() == i,
            forall|k: int|
                0 <= k < i ==> (#[trigger] out[k]).0@ == m.entries[k].0@ && out[k].1.deep_view()
                    == nested_to_json(nested_view(m.entries[k].1)),
        decreases m.entries.len() - i,
    {
        proof {
            assert(decreases_to!(m => m.entries));
            assert(decreases_to!(m.entries => m.entries@));
            assert(decreases_to!(m.entries@ => m.entries@[i as int]));
            assert(decreases_to!(m.entries@[i as int] => m.entries@[i as int].1));
        }
        out.push((m.entries[i].0.clone(), encode_nested(&m.entries[i].1)));
        i += 1;
    }
    proof {
        lemma_nested_map_to_json(nested_map_view(m.entries@));
        assert(out.deep_view() =~= nested_map_to_json(nested_map_view(m.entries@)));
    }
    Some(object(out))
}

/// Writes a schema.
pub fn encode_schema(s: &Schema) -> (j: Json)
    ensures
        j.deep_view() == schema_to_json(schema_view(*s)),
    decreases s,
{
    proof {
        lemma_schema_view(*s);
    }
    let mut out = no_entries();
    put(&mut out, "description", slot_if_text(&s.description));
    put(&mut out, "format", slot_if_text(&s.format));
    put(&mut out, "items", slot_if_nested(&s.items));
    put(&mut out, "properties", slot_if_nested_map(&s.properties));
    put(&mut out, "readOnly", slot_if_some(&s.read_only));
    put(&mut out, "writeOnly", slot_if_some(&s.write_only));
    put(&mut out, "nullable", slot_if_some(&s.nullable));
    put(&mut out, "additionalProperties", slot_if_nested(&s.additional_properties));
    put(&mut out, "example", slot_if_some(&s.example));
    put(&mut out, "title", slot_if_text(&s.title));
    put(&mut out, "default", slot_if_some(&s.default));
    put(&mut out, "allOf", slot_if_nested_list(&s.all_of));
    put(&mut out, "oneOf", slot_if_nested_list(&s.one_of));
    put(&mut out, "anyOf", slot_if_nested_list(&s.any_of));
    put(&mut out, "type", slot_if_some(&s.schema_type));
    put(&mut out, "enum", slot_if_items(&s.enum_values));
    put(&mut out, "const", slot_if_some(&s.const_value));
    put(&mut out, "multipleOf", slot_if_some(&s.multiple_of));
    put(&mut out, "minimum", slot_if_some(&s.minimum));
    put(&mut out, "exclusiveMinimum", slot_if_some(&s.exclusive_minimum));
    put(&mut out, "maximum", slot_if_some(&s.maximum));
    put(&mut out, "exclusiveMaximum", slot_if_some(&s.exclusive_maximum));
    put(&mut out, "maxLength", slot_if_some(&s.max_length));
    put(&mut out, "minLength", slot_if_some(&s.min_length));
    put(&mut out, "pattern", slot_if_text(&s.pattern));
    put(&mut out, "maxItems", slot_if_some(&s.max_items));
    put(&mut out, "minItems", slot_if_some(&s.min_items));
    put(&mut out, "uniqueItems", slot_if_some(&s.unique_items));
    put(&mut out, "maxProperties", slot_if_some(&s.max_properties));
    put(&mut out, "minProperties", slot_if_some(&s.min_properties));
    put(&mut out, "required", slot_if_items(&s.required));
    put(&mut out, "dependentRequired", slot_if_entries(&s.dependent_required));
    object(out)
}

/// The nested schema that a JSON tree stands for, with `fuel` levels of
/// schemas written in place still allowed below it. A value that holds a
/// pointer is the component that the pointer names, whatever else it holds;
/// any other value is a schema written in place.
pub open spec fn nested_from_json(j: JsonView, fuel: nat) -> Result<
    ComponentOrInlineSchemaView,
    ErrorView,
>
    decreases fuel, 2int,
{
    match pointer_in(j) {
        Some(pointer) => match under_key(name_of(pointer), "$ref"@) {
            Ok(name) => Ok(ComponentOrInlineSchemaView::Component { name }),
            Err(e) => Err(e),
        },
        None => match schema_from_json(j, fuel) {
            Ok(s) => Ok(ComponentOrInlineSchemaView::Inline(s)),
            Err(e) => Err(e),
        },
    }
}

/// `nested_from_json` at a given fuel, as a function value.
pub open spec fn nested_decoder(fuel: nat) -> spec_fn(JsonView) -> Result<
    ComponentOrInlineSchemaView,
    ErrorView,
>
    decreases fuel, 3int,
{
    |j: JsonView| nested_from_json(j, fuel)
}

/// Reads a nested schema into a box.
pub open spec fn boxed_decoder(fuel: nat) -> spec_fn(JsonView) -> Result<
    Box<ComponentOrInlineSchemaView>,
    ErrorView,
>
    decreases fuel, 3int,
{
    |j: JsonView|
        match nested_from_json(j, fuel) {
            Ok(c) => Ok(Box::new(c)),
            Err(e) => Err(e),
        }
}

/// Reads an array of nested schemas.
pub open spec fn nested_list_decoder(fuel: nat) -> spec_fn(JsonView) -> Result<
    Seq<ComponentOrInlineSchemaView>,
    ErrorView,
>
    decreases fuel, 4int,
{
    |j: JsonView|
        match j {
            JsonView::Array(items) => list_from_json_with(items, nested_decoder(fuel)),
            _ => Err(ErrorView::mismatch(Expected::Array, j.kind())),
        }
}

/// Reads an object whose values are nested schemas.
pub open spec fn nested_map_decoder(fuel: nat) -> spec_fn(JsonView) -> Result<
    Seq<(Seq<char>, ComponentOrInlineSchemaView)>,
    ErrorView,
>
    decreases fuel, 4int,
{
    |j: JsonView|
        match j {
            JsonView::Object(entries) => map_from_json_with(entries, nested_decoder(fuel)),
            _ => Err(ErrorView::mismatch(Expected::Object, j.kind())),
        }
}

/// The schema that a JSON tree stands for, with `fuel` levels of schemas
/// written in place allowed, this one counted. It fails with
/// `DepthLimitExceeded` where no level is left. Otherwise the tree must be an
/// object; each field is read under its key, absent fields are empty or
/// unset, keys that the schema does not know are passed over, and the first
/// field that fails, in the order of declaration, gives the failure.
pub open spec fn schema_from_json(j: JsonView, fuel: nat) -> Result<SchemaView, ErrorView>
    decreases fuel, 1int,
{
    if fuel == 0 {
        Err(ErrorView::here(ErrorKindView::DepthLimitExceeded))
    } else {
        match j {
            JsonView::Object(e) => {
                let below = (fuel - 1) as nat;
                let description = text_field(e, "description"@);
                let format = text_field(e, "format"@);
                let items = read_optional(lookup(e, "items"@), "items"@, boxed_decoder(below));
                let properties = read_defaulted(
                    lookup(e, "properties"@),
                    "properties"@,
                    nested_map_decoder(below),
                    Seq::empty(),
                );
                let read_only = optional_field::<bool>(e, "readOnly"@);
                let write_only = optional_field::<bool>(e, "writeOnly"@);
                let nullable = optional_field::<bool>(e, "nullable"@);
                let additional_properties = read_optional(
                    lookup(e, "additionalProperties"@),
                    "additionalProperties"@,
                    boxed_decoder(below),
                );
                let example = optional_field::<Json>(e, "example"@);
                let title = text_field(e, "title"@);
                let default = optional_field::<Json>(e, "default"@);
                let all_of = read_defaulted(
                    lookup(e, "allOf"@),
                    "allOf"@,
                    nested_list_decoder(below),
                    Seq::empty(),
                );
                let one_of = read_defaulted(
                    lookup(e, "oneOf"@),
                    "oneOf"@,
                    nested_list_decoder(below),
                    Seq::empty(),
                );
                let any_of = read_defaulted(
                    lookup(e, "anyOf"@),
                    "anyOf"@,
                    nested_list_decoder(below),
                    Seq::empty(),
                );
                let schema_type = optional_field::<Type>(e, "type"@);
                let enum_values = items_field::<String>(e, "enum"@);
                let const_value = optional_field::<Json>(e, "const"@);
                let multiple_of = optional_field::<Json>(e, "multipleOf"@);
                let minimum = optional_field::<Json>(e, "minimum"@);
                let exclusive_minimum = optional_field::<Json>(e, "exclusiveMinimum"@);
                let maximum = optional_field::<Json>(e, "maximum"@);
                let exclusive_maximum = optional_field::<Json>(e, "exclusiveMaximum"@);
                let max_length = optional_field::<usize>(e, "maxLength"@);
                let min_length = optional_field::<usize>(e, "minLength"@);
                let pattern = text_field(e, "pattern"@);
                let max_items = optional_field::<usize>(e, "maxItems"@);
                let min_items = optional_field::<usize>(e, "minItems"@);
                let unique_items = optional_field::<bool>(e, "uniqueItems"@);
                let max_properties = optional_field::<usize>(e, "maxProperties"@);
                let min_properties = optional_field::<usize>(e, "minProperties"@);
                let required = items_field::<String>(e, "required"@);
                let dependent_required = entries_field::<Vec<String>>(e, "dependentRequired"@);
                if description is Err {
                    Err(description->Err_0)
                } else if format is Err {
                    Err(format->Err_0)
                } else if items is Err {
                    Err(items->Err_0)
                } else if properties is Err {
                    Err(properties->Err_0)
                } else if read_only is Err {
                    Err(read_only->Err_0)
                } else if write_only is Err {
                    Err(write_only->Err_0)
                } else if nullable is Err {
                    Err(nullable->Err_0)
                } else if additional_properties is Err {
                    Err(additional_properties->Err_0)
                } else if example is Err {
                    Err(example->Err_0)
                } else if title is Err {
                    Err(title->Err_0)
                } else if default is Err {
                    Err(default->Err_0)
                } else if all_of is Err {
                    Err(all_of->Err_0)
                } else if one_of is Err {
                    Err(one_of->Err_0)
                } else if any_of is Err {
                    Err(any_of->Err_0)
                } else if schema_type is Err {
                    Err(schema_type->Err_0)
                } else if enum_values is Err {
                    Err(enum_values->Err_0)
                } else if const_value is Err {
                    Err(const_value->Err_0)
                } else if multiple_of is Err {
                    Err(multiple_of->Err_0)
                } else if minimum is Err {
                    Err(minimum->Err_0)
                } else if exclusive_minimum is Err {
                    Err(exclusive_minimum->Err_0)
                } else if maximum is Err {
                    Err(maximum->Err_0)
                } else if exclusive_maximum is Err {
                    Err(exclusive_maximum->Err_0)
                } else if max_length is Err {
                    Err(max_length->Err_0)
                } else if min_length is Err {
                    Err(min_length->Err_0)
                } else if pattern is Err {
                    Err(pattern->Err_0)
                } else if max_items is Err {
                    Err(max_items->Err_0)
                } else if min_items is Err {
                    Err(min_items->Err_0)
                } else if unique_items is Err {
                    Err(unique_items->Err_0)
                } else if max_properties is Err {
                    Err(max_properties->Err_0)
                } else if min_properties is Err {
                    Err(min_properties->Err_0)
                } else if required is Err {
                    Err(required->Err_0)
                } else if dependent_required is Err {
                    Err(dependent_required->Err_0)
                } else {
                    Ok(
                        SchemaView {
                            description: description->Ok_0,
                            format: format->Ok_0,
                            items: items->Ok_0,
                            properties: properties->Ok_0,
                            read_only: read_only->Ok_0,
                            write_only: write_only->Ok_0,
                            nullable: nullable->Ok_0,
                            additional_properties: additional_properties->Ok_0,
                            example: example->Ok_0,
                            title: title->Ok_0,
                            default: default->Ok_0,
                            all_of: all_of->Ok_0,
                            one_of: one_of->Ok_0,
                            any_of: any_of->Ok_0,
                            schema_type: schema_type->Ok_0,
                            enum_values: enum_values->Ok_0,
                            const_value: const_value->Ok_0,
                            multiple_of: multiple_of->Ok_0,
                            minimum: minimum->Ok_0,
                            exclusive_minimum: exclusive_minimum->Ok_0,
                            maximum: maximum->Ok_0,
                            exclusive_maximum: exclusive_maximum->Ok_0,
                            max_length: max_length->Ok_0,
                            min_length: min_length->Ok_0,
                            pattern: pattern->Ok_0,
                            max_items: max_items->Ok_0,
                            min_items: min_items->Ok_0,
                            unique_items: unique_items->Ok_0,
                            max_properties: max_properties->Ok_0,
                            min_properties: min_properties->Ok_0,
                            required: required->Ok_0,
                            dependent_required: dependent_required->Ok_0,
                        },
                    )
                }
            },
            _ => Err(ErrorView::mismatch(Expected::Object, j.kind())),
        }
    }
}

/// Reads a nested schema, with `fuel` levels of schemas written in place
/// still allowed below it.
pub fn decode_nested(j: &Json, fuel: usize) -> (r: Result<ComponentOrInlineSchema, Error>)
    ensures
        result_view(r) == nested_from_json(j.deep_view(), fuel as nat),
    decreases fuel, 2int,
{
    reveal(schema_view);
    match reference_target(j) {
        Some(pointer) => match in_key(deserialize(pointer.as_str()), "$ref") {
            Ok(name) => Ok(ComponentOrInlineSchema::Component { name }),
            Err(e) => Err(e),
        },
        None => match decode_schema(j, fuel) {
            Ok(s) => Ok(ComponentOrInlineSchema::Inline(s)),
            Err(e) => Err(e),
        },
    }
}

/// Reads the nested schema under `key`, unset where absent or `null`.
fn optional_nested(fields: &Vec<(String, Json)>, key: &str, fuel: usize) -> (r: Result<
    Option<Box<ComponentOrInlineSchema>>,
    Error,
>)
    ensures
        match r {
            Ok(c) => read_optional(
                lookup(fields.deep_view(), key@),
                key@,
                boxed_decoder(fuel as nat),
            )
                == Ok::<Option<Box<ComponentOrInlineSchemaView>>, ErrorView>(boxed_view(c)),
            Err(e) => read_optional(
                lookup(fields.deep_view(), key@),
                key@,
                boxed_decoder(fuel as nat),
            ) == Err::<Option<Box<ComponentOrInlineSchemaView>>, ErrorView>(e.deep_view()),
        },
    decreases fuel, 3int,
{
    reveal(read_optional);
    match find(fields, key) {
        None => Ok(None),
        Some(Json::Null) => Ok(None),
        Some(j) => match in_key(decode_nested(j, fuel), key) {
            Ok(c) => Ok(Some(Box::new(c))),
            Err(e) => Err(e),
        },
    }
}

/// Reads the list of nested schemas under `key`, empty where absent.
fn nested_list(fields: &Vec<(String, Json)>, key: &str, fuel: usize) -> (r: Result<
    Vec<ComponentOrInlineSchema>,
    Error,
>)
    ensures
        match r {
            Ok(v) => read_defaulted(
                lookup(fields.deep_view(), key@),
                key@,
                nested_list_decoder(fuel as nat),
                Seq::empty(),
            ) == Ok::<Seq<ComponentOrInlineSchemaView>, ErrorView>(nested_list_view(v@)),
            Err(e) => read_defaulted(
                lookup(fields.deep_view(), key@),
                key@,
                nested_list_decoder(fuel as nat),
                Seq::empty(),
            ) == Err::<Seq<ComponentOrInlineSchemaView>, ErrorView>(e.deep_view()),
        },
    decreases fuel, 4int,
{
    reveal(read_defaulted);
    let mut out: Vec<ComponentOrInlineSchema> = Vec::new();
    let found = find(fields, key);
    let j = match found {
        None => {
            return Ok(out);
        },
        Some(j) => j,
    };
    let items = match j {
        Json::Array(items) => items,
        _ => {
            return Err(Error::mismatch(Expected::Array, j.kind()).at_key(key));
        },
    };
    proof {
        lemma_array_view(*items);
    }
    let ghost views = items.deep_view();
    let ghost dec = nested_decoder(fuel as nat);
    let mut i: usize = 0;
    assert(views.take(0) =~= Seq::empty());
    while i < items.len()
        invariant
            views == items.deep_view(),
            dec == nested_decoder(fuel as nat),
            lookup(fields.deep_view(), key@) == Some(JsonView::Array(views)),
            i <= items.len(),
            list_from_json_with(views.take(i as int), dec) == Ok::<
                Seq<ComponentOrInlineSchemaView>,
                ErrorView,
            >(nested_list_view(out@)),
        decreases items.len() - i,
    {
        proof {
            lemma_list_step(views, dec, i as int);
        }
        match in_index(decode_nested(&items[i], fuel), i) {
            Err(e) => {
                proof {
                    reveal(read_defaulted);
                    lemma_list_failure(views, dec, i + 1);
                }
                return Err(e.at_key(key));
            },
            Ok(c) => {
                let ghost before = out@;
                out.push(c);
                assert(out@.drop_last() =~= before);
            },
        }
        i += 1;
    }
    assert(views.take(i as int) =~= views);
    Ok(out)
}

/// Reads the map of nested schemas under `key`, empty where absent.
fn nested_map(fields: &Vec<(String, Json)>, key: &str, fuel: usize) -> (r: Result<
    OrderedMap<ComponentOrInlineSchema>,
    Error,
>)
    ensures
        match r {
            Ok(m) => read_defaulted(
                lookup(fields.deep_view(), key@),
                key@,
                nested_map_decoder(fuel as nat),
                Seq::empty(),
            ) == Ok::<Seq<(Seq<char>, ComponentOrInlineSchemaView)>, ErrorView>(
                nested_map_view(m.entries@),
            ),
            Err(e) => read_defaulted(
                lookup(fields.deep_view(), key@),
                key@,
                nested_map_decoder(fuel as nat),
                Seq::empty(),
            ) == Err::<Seq<(Seq<char>, ComponentOrInlineSchemaView)>, ErrorView>(e.deep_view()),
        },
    decreases fuel, 4int,
{
    reveal(read_defaulted);
    let mut out: OrderedMap<ComponentOrInlineSchema> = OrderedMap::new();
    proof {
        lemma_nested_map_deep_view(out);
    }
    let found = find(fields, key);
    let j = match found {
        None => {
            return Ok(out);
        },
        Some(j) => j,
    };
    let values = match j {
        Json::Object(values) => values,
        _ => {
            return Err(Error::mismatch(Expected::Object, j.kind()).at_key(key));
        },
    };
    proof {
        crate::json::lemma_object_view(*values);
    }
    let ghost views = values.deep_view();
    let ghost dec = nested_decoder(fuel as nat);
    let mut i: usize = 0;
    assert(views.take(0) =~= Seq::empty());
    while i < values.len()
        invariant
            views == values.deep_view(),
            dec == nested_decoder(fuel as nat),
            lookup(fields.deep_view(), key@) == Some(JsonView::Object(views)),
            i <= values.len(),
            map_from_json_with(views.take(i as int), dec) == Ok::<
                Seq<(Seq<char>, ComponentOrInlineSchemaView)>,
                ErrorView,
            >(nested_map_view(out.entries@)),
        decreases values.len() - i,
    {
        proof {
            lemma_map_step(views, dec, i as int);
        }
        match in_key(decode_nested(&values[i].1, fuel), values[i].0.as_str()) {
            Err(e) => {
                proof {
                    reveal(read_defaulted);
                    lemma_map_failure(views, dec, i + 1);
                }
                return Err(e.at_key(key));
            },
            Ok(c) => {
                proof {
                    lemma_nested_map_deep_view(out);
                }
                out.insert(values[i].0.clone(), c);
                proof {
                    lemma_nested_map_deep_view(out);
                }
            },
        }
        i += 1;
    }
    assert(views.take(i as int) =~= views);
    Ok(out)
}

/// Reads a schema, with `fuel` levels of schemas written in place allowed,
/// this one counted.
pub fn decode_schema(j: &Json, fuel: usize) -> (r: Result<Schema, Error>)
    ensures
        result_view(r) == schema_from_json(j.deep_view(), fuel as nat),
    decreases fuel, 1int,
{
    if fuel == 0 {
        return Err(Error::here(ErrorKind::DepthLimitExceeded));
    }
    let e = entries_of(j)?;
    let below = fuel - 1;
    let description = get_text(e, "description")?;
    let format = get_text(e, "format")?;
    let items = optional_nested(e, "items", below)?;
    let properties = nested_map(e, "properties", below)?;
    let read_only = get_optional::<bool>(e, "readOnly")?;
    let write_only = get_optional::<bool>(e, "writeOnly")?;
    let nullable = get_optional::<bool>(e, "nullable")?;
    let additional_properties = optional_nested(e, "additionalProperties", below)?;
    let example = get_optional::<Json>(e, "example")?;
    let title = get_text(e, "title")?;
    let default = get_optional::<Json>(e, "default")?;
    let all_of = nested_list(e, "allOf", below)?;
    let one_of = nested_list(e, "oneOf", below)?;
    let any_of = nested_list(e, "anyOf", below)?;
    let schema_type = get_optional::<Type>(e, "type")?;
    let enum_values = get_items::<String>(e, "enum")?;
    let const_value = get_optional::<Json>(e, "const")?;
    let multiple_of = get_optional::<Json>(e, "multipleOf")?;
    let minimum = get_optional::<Json>(e, "minimum")?;
    let exclusive_minimum = get_optional::<Json>(e, "exclusiveMinimum")?;
    let maximum = get_optional::<Json>(e, "maximum")?;
    let exclusive_maximum = get_optional::<Json>(e, "exclusiveMaximum")?;
    let max_length = get_optional::<usize>(e, "maxLength")?;
    let min_length = get_optional::<usize>(e, "minLength")?;
    let pattern = get_text(e, "pattern")?;
    let max_items = get_optional::<usize>(e, "maxItems")?;
    let min_items = get_optional::<usize>(e, "minItems")?;
    let unique_items = get_optional::<bool>(e, "uniqueItems")?;
    let max_properties = get_optional::<usize>(e, "maxProperties")?;
    let min_properties = get_optional::<usize>(e, "minProperties")?;
    let required = get_items::<String>(e, "required")?;
    let dependent_required = get_entries::<Vec<String>>(e, "dependentRequired")?;
    let s = Schema {
            description,
            format,
            items,
            properties,
            read_only,
            write_only,
            nullable,
            additional_properties,
            example,
            title,
            default,
            all_of,
            one_of,
            any_of,
            schema_type,
            enum_values,
            const_value,
            multiple_of,
            minimum,
            exclusive_minimum,
            maximum,
            exclusive_maximum,
            max_length,
            min_length,
            pattern,
            max_items,
            min_items,
            unique_items,
            max_properties,
            min_properties,
            required,
            dependent_required,
    };
    proof {
        lemma_schema_view(s);
    }
    Ok(s)
}

/// The nested schemas that are read back as they were written, with `fuel`
/// levels of schemas written in place allowed below.
pub open spec fn nested_valid(c: ComponentOrInlineSchemaView, fuel: nat) -> bool
    decreases fuel, 2int,
{
    match c {
        ComponentOrInlineSchemaView::Component { .. } => true,
        ComponentOrInlineSchemaView::Inline(s) => schema_valid(s, fuel),
    }
}

/// The schemas that are read back as they were written, with `fuel` levels
/// of schemas written in place allowed, this one counted: no map holds a key
/// twice, no free-form value that is set is `null`, and every nested schema
/// is valid one level further down.
pub open spec fn schema_valid(v: SchemaView, fuel: nat) -> bool
    decreases fuel, 1int,
{
    let below = (fuel - 1) as nat;
    &&& fuel > 0
    &&& (v.items matches Some(c) ==> nested_valid(*c, below))
    &&& distinct_keys(v.properties)
    &&& forall|i: int|
        0 <= i < v.properties.len() ==> nested_valid((#[trigger] v.properties[i]).1, below)
    &&& (v.additional_properties matches Some(c) ==> nested_valid(*c, below))
    &&& forall|i: int| 0 <= i < v.all_of.len() ==> nested_valid(#[trigger] v.all_of[i], below)
    &&& forall|i: int| 0 <= i < v.one_of.len() ==> nested_valid(#[trigger] v.one_of[i], below)
    &&& forall|i: int| 0 <= i < v.any_of.len() ==> nested_valid(#[trigger] v.any_of[i], below)
    &&& v.example != Some(JsonView::Null)
    &&& v.default != Some(JsonView::Null)
    &&& v.const_value != Some(JsonView::Null)
    &&& v.multiple_of != Some(JsonView::Null)
    &&& v.minimum != Some(JsonView::Null)
    &&& v.exclusive_minimum != Some(JsonView::Null)
    &&& v.maximum != Some(JsonView::Null)
    &&& v.exclusive_maximum != Some(JsonView::Null)
    &&& distinct_keys(v.dependent_required)
}

/// The entries of the JSON form of a schema.
pub open spec fn schema_entries(v: SchemaView) -> Seq<(Seq<char>, JsonView)> {
    schema_to_json(v)->Object_0
}

/// The key of the field of a schema that is written at position `i`; at the
/// position after the last, the key of a pointer, which is never written.
spec fn schema_key(i: int) -> Seq<char> {
    if i == 0 {
        "description"@
    } else if i == 1 {
        "format"@
    } else if i == 2 {
        "items"@
    } else if i == 3 {
        "properties"@
    } else if i == 4 {
        "readOnly"@
    } else if i == 5 {
        "writeOnly"@
    } else if i == 6 {
        "nullable"@
    } else if i == 7 {
        "additionalProperties"@
    } else if i == 8 {
        "example"@
    } else if i == 9 {
        "title"@
    } else if i == 10 {
        "default"@
    } else if i == 11 {
        "allOf"@
    } else if i == 12 {
        "oneOf"@
    } else if i == 13 {
        "anyOf"@
    } else if i == 14 {
        "type"@
    } else if i == 15 {
        "enum"@
    } else if i == 16 {
        "const"@
    } else if i == 17 {
        "multipleOf"@
    } else if i == 18 {
        "minimum"@
    } else if i == 19 {
        "exclusiveMinimum"@
    } else if i == 20 {
        "maximum"@
    } else if i == 21 {
        "exclusiveMaximum"@
    } else if i == 22 {
        "maxLength"@
    } else if i == 23 {
        "minLength"@
    } else if i == 24 {
        "pattern"@
    } else if i == 25 {
        "maxItems"@
    } else if i == 26 {
        "minItems"@
    } else if i == 27 {
        "uniqueItems"@
    } else if i == 28 {
        "maxProperties"@
    } else if i == 29 {
        "minProperties"@
    } else if i == 30 {
        "required"@
    } else if i == 31 {
        "dependentRequired"@
    } else {
        "$ref"@
    }
}

/// What is written for the field of a schema at position `i`.
spec fn schema_slot(v: SchemaView, i: int) -> Option<JsonView> {
    if i == 0 {
        if_text(v.description)
    } else if i == 1 {
        if_text(v.format)
    } else if i == 2 {
        if_nested(v.items)
    } else if i == 3 {
        if_object(nested_map_to_json(v.properties))
    } else if i == 4 {
        if_some::<bool>(v.read_only)
    } else if i == 5 {
        if_some::<bool>(v.write_only)
    } else if i == 6 {
        if_some::<bool>(v.nullable)
    } else if i == 7 {
        if_nested(v.additional_properties)
    } else if i == 8 {
        if_some::<Json>(v.example)
    } else if i == 9 {
        if_text(v.title)
    } else if i == 10 {
        if_some::<Json>(v.default)
    } else if i == 11 {
        if_array(nested_list_to_json(v.all_of))
    } else if i == 12 {
        if_array(nested_list_to_json(v.one_of))
    } else if i == 13 {
        if_array(nested_list_to_json(v.any_of))
    } else if i == 14 {
        if_some::<Type>(v.schema_type)
    } else if i == 15 {
        if_items::<String>(v.enum_values)
    } else if i == 16 {
        if_some::<Json>(v.const_value)
    } else if i == 17 {
        if_some::<Json>(v.multiple_of)
    } else if i == 18 {
        if_some::<Json>(v.minimum)
    } else if i == 19 {
        if_some::<Json>(v.exclusive_minimum)
    } else if i == 20 {
        if_some::<Json>(v.maximum)
    } else if i == 21 {
        if_some::<Json>(v.exclusive_maximum)
    } else if i == 22 {
        if_some::<usize>(v.max_length)
    } else if i == 23 {
        if_some::<usize>(v.min_length)
    } else if i == 24 {
        if_text(v.pattern)
    } else if i == 25 {
        if_some::<usize>(v.max_items)
    } else if i == 26 {
        if_some::<usize>(v.min_items)
    } else if i == 27 {
        if_some::<bool>(v.unique_items)
    } else if i == 28 {
        if_some::<usize>(v.max_properties)
    } else if i == 29 {
        if_some::<usize>(v.min_properties)
    } else if i == 30 {
        if_items::<String>(v.required)
    } else if i == 31 {
        if_entries::<Vec<String>>(v.dependent_required)
    } else {
        None
    }
}

/// After the first `n` fields were written, a lookup of the key of a field
/// finds the field where it is among them, and nothing where it is not.
spec fn written_so_far(e: Seq<(Seq<char>, JsonView)>, v: SchemaView, n: int) -> bool {
    forall|i: int|
        0 <= i <= 32 ==> lookup(e, #[trigger] schema_key(i)) == if i < n {
            schema_slot(v, i)
        } else {
            None
        }
}

/// The keys of a schema differ from one another, and from the key of a
/// pointer.
proof fn lemma_schema_keys_differ()
    ensures
        forall|i: int, j: int|
            0 <= i < j <= 32 ==> #[trigger] schema_key(i) != #[trigger] schema_key(j),
{
    reveal_strlit("description");
    lemma_spell("description"@);
    reveal_strlit("format");
    lemma_spell("format"@);
    reveal_strlit("items");
    lemma_spell("items"@);
    reveal_strlit("properties");
    lemma_spell("properties"@);
    reveal_strlit("readOnly");
    lemma_spell("readOnly"@);
    reveal_strlit("writeOnly");
    lemma_spell("writeOnly"@);
    reveal_strlit("nullable");
    lemma_spell("nullable"@);
    reveal_strlit("additionalProperties");
    lemma_spell("additionalProperties"@);
    reveal_strlit("example");
    lemma_spell("example"@);
    reveal_strlit("title");
    lemma_spell("title"@);
    reveal_strlit("default");
    lemma_spell("default"@);
    reveal_strlit("allOf");
    lemma_spell("allOf"@);
    reveal_strlit("oneOf");
    lemma_spell("oneOf"@);
    reveal_strlit("anyOf");
    lemma_spell("anyOf"@);
    reveal_strlit("type");
    lemma_spell("type"@);
    reveal_strlit("enum");
    lemma_spell("enum"@);
    reveal_strlit("const");
    lemma_spell("const"@);
    reveal_strlit("multipleOf");
    lemma_spell("multipleOf"@);
    reveal_strlit("minimum");
    lemma_spell("minimum"@);
    reveal_strlit("exclusiveMinimum");
    lemma_spell("exclusiveMinimum"@);
    reveal_strlit("maximum");
    lemma_spell("maximum"@);
    reveal_strlit("exclusiveMaximum");
    lemma_spell("exclusiveMaximum"@);
    reveal_strlit("maxLength");
    lemma_spell("maxLength"@);
    reveal_strlit("minLength");
    lemma_spell("minLength"@);
    reveal_strlit("pattern");
    lemma_spell("pattern"@);
    reveal_strlit("maxItems");
    lemma_spell("maxItems"@);
    reveal_strlit("minItems");
    lemma_spell("minItems"@);
    reveal_strlit("uniqueItems");
    lemma_spell("uniqueItems"@);
    reveal_strlit("maxProperties");
    lemma_spell("maxProperties"@);
    reveal_strlit("minProperties");
    lemma_spell("minProperties"@);
    reveal_strlit("required");
    lemma_spell("required"@);
    reveal_strlit("dependentRequired");
    lemma_spell("dependentRequired"@);
    reveal_strlit("$ref");
    lemma_spell("$ref"@);
}

/// Writing one more field keeps `written_so_far`.
proof fn lemma_written_one_more(e: Seq<(Seq<char>, JsonView)>, v: SchemaView, n: int)
    requires
        0 <= n < 32,
        written_so_far(e, v, n),
    ensures
        written_so_far(with_entry(e, schema_key(n), schema_slot(v, n)), v, n + 1),
{
    lemma_schema_keys_differ();
    let after = with_entry(e, schema_key(n), schema_slot(v, n));
    assert forall|i: int| 0 <= i <= 32 implies lookup(after, #[trigger] schema_key(i)) == if i
        <= n {
        schema_slot(v, i)
    } else {
        None
    } by {
        lemma_lookup_with_entry(e, schema_key(n), schema_slot(v, n), schema_key(i));
        if i != n {
            if i < n {
                assert(schema_key(i) != schema_key(n));
            } else {
                assert(schema_key(n) != schema_key(i));
            }
        }
    }
}

/// What a lookup finds in the JSON form of a schema: under each key the
/// field that was written there, and no pointer.
pub proof fn lemma_schema_lookups(v: SchemaView)
    ensures
        schema_to_json(v) == JsonView::Object(schema_entries(v)),
        lookup(schema_entries(v), "$ref"@) is None,
        lookup(schema_entries(v), "description"@) == if_text(v.description),
        lookup(schema_entries(v), "format"@) == if_text(v.format),
        lookup(schema_entries(v), "items"@) == if_nested(v.items),
        lookup(schema_entries(v), "properties"@) == if_object(nested_map_to_json(v.properties)),
        lookup(schema_entries(v), "readOnly"@) == if_some::<bool>(v.read_only),
        lookup(schema_entries(v), "writeOnly"@) == if_some::<bool>(v.write_only),
        lookup(schema_entries(v), "nullable"@) == if_some::<bool>(v.nullable),
        lookup(schema_entries(v), "additionalProperties"@) == if_nested(v.additional_properties),
        lookup(schema_entries(v), "example"@) == if_some::<Json>(v.example),
        lookup(schema_entries(v), "title"@) == if_text(v.title),
        lookup(schema_entries(v), "default"@) == if_some::<Json>(v.default),
        lookup(schema_entries(v), "allOf"@) == if_array(nested_list_to_json(v.all_of)),
        lookup(schema_entries(v), "oneOf"@) == if_array(nested_list_to_json(v.one_of)),
        lookup(schema_entries(v), "anyOf"@) == if_array(nested_list_to_json(v.any_of)),
        lookup(schema_entries(v), "type"@) == if_some::<Type>(v.schema_type),
        lookup(schema_entries(v), "enum"@) == if_items::<String>(v.enum_values),
        lookup(schema_entries(v), "const"@) == if_some::<Json>(v.const_value),
        lookup(schema_entries(v), "multipleOf"@) == if_some::<Json>(v.multiple_of),
        lookup(schema_entries(v), "minimum"@) == if_some::<Json>(v.minimum),
        lookup(schema_entries(v), "exclusiveMinimum"@) == if_some::<Json>(v.exclusive_minimum),
        lookup(schema_entries(v), "maximum"@) == if_some::<Json>(v.maximum),
        lookup(schema_entries(v), "exclusiveMaximum"@) == if_some::<Json>(v.exclusive_maximum),
        lookup(schema_entries(v), "maxLength"@) == if_some::<usize>(v.max_length),
        lookup(schema_entries(v), "minLength"@) == if_some::<usize>(v.min_length),
        lookup(schema_entries(v), "pattern"@) == if_text(v.pattern),
        lookup(schema_entries(v), "maxItems"@) == if_some::<usize>(v.max_items),
        lookup(schema_entries(v), "minItems"@) == if_some::<usize>(v.min_items),
        lookup(schema_entries(v), "uniqueItems"@) == if_some::<bool>(v.unique_items),
        lookup(schema_entries(v), "maxProperties"@) == if_some::<usize>(v.max_properties),
        lookup(schema_entries(v), "minProperties"@) == if_some::<usize>(v.min_properties),
        lookup(schema_entries(v), "required"@) == if_items::<String>(v.required),
        lookup(schema_entries(v), "dependentRequired"@) == if_entries::<Vec<String>>(
            v.dependent_required,
        ),
{
    let e0 = Seq::<(Seq<char>, JsonView)>::empty();
    assert(written_so_far(e0, v, 0)) by {
        assert forall|i: int| 0 <= i <= 32 implies lookup(e0, #[trigger] schema_key(i)) is None by {
            lemma_lookup_empty(schema_key(i));
        }
    }
    let e1 = with_entry(e0, schema_key(0), schema_slot(v, 0));
    lemma_written_one_more(e0, v, 0);
    let e2 = with_entry(e1, schema_key(1), schema_slot(v, 1));
    lemma_written_one_more(e1, v, 1);
    let e3 = with_entry(e2, schema_key(2), schema_slot(v, 2));
    lemma_written_one_more(e2, v, 2);
    let e4 = with_entry(e3, schema_key(3), schema_slot(v, 3));
    lemma_written_one_more(e3, v, 3);
    let e5 = with_entry(e4, schema_key(4), schema_slot(v, 4));
    lemma_written_one_more(e4, v, 4);
    let e6 = with_entry(e5, schema_key(5), schema_slot(v, 5));
    lemma_written_one_more(e5, v, 5);
    let e7 = with_entry(e6, schema_key(6), schema_slot(v, 6));
    lemma_written_one_more(e6, v, 6);
    let e8 = with_entry(e7, schema_key(7), schema_slot(v, 7));
    lemma_written_one_more(e7, v, 7);
    let e9 = with_entry(e8, schema_key(8), schema_slot(v, 8));
    lemma_written_one_more(e8, v, 8);
    let e10 = with_entry(e9, schema_key(9), schema_slot(v, 9));
    lemma_written_one_more(e9, v, 9);
    let e11 = with_entry(e10, schema_key(10), schema_slot(v, 10));
    lemma_written_one_more(e10, v, 10);
    let e12 = with_entry(e11, schema_key(11), schema_slot(v, 11));
    lemma_written_one_more(e11, v, 11);
    let e13 = with_entry(e12, schema_key(12), schema_slot(v, 12));
    lemma_written_one_more(e12, v, 12);
    let e14 = with_entry(e13, schema_key(13), schema_slot(v, 13));
    lemma_written_one_more(e13, v, 13);
    let e15 = with_entry(e14, schema_key(14), schema_slot(v, 14));
    lemma_written_one_more(e14, v, 14);
    let e16 = with_entry(e15, schema_key(15), schema_slot(v, 15));
    lemma_written_one_more(e15, v, 15);
    let e17 = with_entry(e16, schema_key(16), schema_slot(v, 16));
    lemma_written_one_more(e16, v, 16);
    let e18 = with_entry(e17, schema_key(17), schema_slot(v, 17));
    lemma_written_one_more(e17, v, 17);
    let e19 = with_entry(e18, schema_key(18), schema_slot(v, 18));
    lemma_written_one_more(e18, v, 18);
    let e20 = with_entry(e19, schema_key(19), schema_slot(v, 19));
    lemma_written_one_more(e19, v, 19);
    let e21 = with_entry(e20, schema_key(20), schema_slot(v, 20));
    lemma_written_one_more(e20, v, 20);
    let e22 = with_entry(e21, schema_key(21), schema_slot(v, 21));
    lemma_written_one_more(e21, v, 21);
    let e23 = with_entry(e22, schema_key(22), schema_slot(v, 22));
    lemma_written_one_more(e22, v, 22);
    let e24 = with_entry(e23, schema_key(23), schema_slot(v, 23));
    lemma_written_one_more(e23, v, 23);
    let e25 = with_entry(e24, schema_key(24), schema_slot(v, 24));
    lemma_written_one_more(e24, v, 24);
    let e26 = with_entry(e25, schema_key(25), schema_slot(v, 25));
    lemma_written_one_more(e25, v, 25);
    let e27 = with_entry(e26, schema_key(26), schema_slot(v, 26));
    lemma_written_one_more(e26, v, 26);
    let e28 = with_entry(e27, schema_key(27), schema_slot(v, 27));
    lemma_written_one_more(e27, v, 27);
    let e29 = with_entry(e28, schema_key(28), schema_slot(v, 28));
    lemma_written_one_more(e28, v, 28);
    let e30 = with_entry(e29, schema_key(29), schema_slot(v, 29));
    lemma_written_one_more(e29, v, 29);
    let e31 = with_entry(e30, schema_key(30), schema_slot(v, 30));
    lemma_written_one_more(e30, v, 30);
    let e32 = with_entry(e31, schema_key(31), schema_slot(v, 31));
    lemma_written_one_more(e31, v, 31);
    assert(schema_to_json(v) == JsonView::Object(e32));
    assert(lookup(e32, schema_key(0)) == schema_slot(v, 0));
    assert(lookup(e32, schema_key(1)) == schema_slot(v, 1));
    assert(lookup(e32, schema_key(2)) == schema_slot(v, 2));
    assert(lookup(e32, schema_key(3)) == schema_slot(v, 3));
    assert(lookup(e32, schema_key(4)) == schema_slot(v, 4));
    assert(lookup(e32, schema_key(5)) == schema_slot(v, 5));
    assert(lookup(e32, schema_key(6)) == schema_slot(v, 6));
    assert(lookup(e32, schema_key(7)) == schema_slot(v, 7));
    assert(lookup(e32, schema_key(8)) == schema_slot(v, 8));
    assert(lookup(e32, schema_key(9)) == schema_slot(v, 9));
    assert(lookup(e32, schema_key(10)) == schema_slot(v, 10));
    assert(lookup(e32, schema_key(11)) == schema_slot(v, 11));
    assert(lookup(e32, schema_key(12)) == schema_slot(v, 12));
    assert(lookup(e32, schema_key(13)) == schema_slot(v, 13));
    assert(lookup(e32, schema_key(14)) == schema_slot(v, 14));
    assert(lookup(e32, schema_key(15)) == schema_slot(v, 15));
    assert(lookup(e32, schema_key(16)) == schema_slot(v, 16));
    assert(lookup(e32, schema_key(17)) == schema_slot(v, 17));
    assert(lookup(e32, schema_key(18)) == schema_slot(v, 18));
    assert(lookup(e32, schema_key(19)) == schema_slot(v, 19));
    assert(lookup(e32, schema_key(20)) == schema_slot(v, 20));
    assert(lookup(e32, schema_key(21)) == schema_slot(v, 21));
    assert(lookup(e32, schema_key(22)) == schema_slot(v, 22));
    assert(lookup(e32, schema_key(23)) == schema_slot(v, 23));
    assert(lookup(e32, schema_key(24)) == schema_slot(v, 24));
    assert(lookup(e32, schema_key(25)) == schema_slot(v, 25));
    assert(lookup(e32, schema_key(26)) == schema_slot(v, 26));
    assert(lookup(e32, schema_key(27)) == schema_slot(v, 27));
    assert(lookup(e32, schema_key(28)) == schema_slot(v, 28));
    assert(lookup(e32, schema_key(29)) == schema_slot(v, 29));
    assert(lookup(e32, schema_key(30)) == schema_slot(v, 30));
    assert(lookup(e32, schema_key(31)) == schema_slot(v, 31));
    assert(lookup(e32, schema_key(32)) == schema_slot(v, 32));
}

/// A valid nested schema is read back as it was written.
pub proof fn lemma_nested_round_trip(c: ComponentOrInlineSchemaView, fuel: nat)
    requires
        nested_valid(c, fuel),
    ensures
        nested_from_json(nested_to_json(c), fuel) == Ok::<ComponentOrInlineSchemaView, ErrorView>(
            c,
        ),
    decreases fuel, 2int, 0nat,
{
    match c {
        ComponentOrInlineSchemaView::Component { name } => {
            lemma_pointer_in_reference(pointer_of(name));
            lemma_name_of_pointer(name);
        },
        ComponentOrInlineSchemaView::Inline(s) => {
            lemma_schema_lookups(s);
            lemma_schema_round_trip(s, fuel);
        },
    }
}

/// A list of valid nested schemas is read back as it was written.
pub proof fn lemma_nested_list_round_trip(items: Seq<ComponentOrInlineSchemaView>, fuel: nat)
    requires
        forall|i: int| 0 <= i < items.len() ==> nested_valid(#[trigger] items[i], fuel),
    ensures
        list_from_json_with(nested_list_to_json(items), nested_decoder(fuel)) == Ok::<
            Seq<ComponentOrInlineSchemaView>,
            ErrorView,
        >(items),
    decreases fuel, 3int, items.len(),
{
    if items.len() > 0 {
        lemma_nested_list_round_trip(items.drop_last(), fuel);
        lemma_nested_round_trip(items.last(), fuel);
        assert(nested_list_to_json(items).drop_last() =~= nested_list_to_json(items.drop_last()));
        assert(items.drop_last().push(items.last()) =~= items);
    } else {
        assert(items =~= Seq::empty());
    }
}

/// A map of valid nested schemas without a key twice is read back as it was
/// written.
pub proof fn lemma_nested_map_round_trip(
    entries: Seq<(Seq<char>, ComponentOrInlineSchemaView)>,
    fuel: nat,
)
    requires
        distinct_keys(entries),
        forall|i: int| 0 <= i < entries.len() ==> nested_valid((#[trigger] entries[i]).1, fuel),
    ensures
        map_from_json_with(nested_map_to_json(entries), nested_decoder(fuel)) == Ok::<
            Seq<(Seq<char>, ComponentOrInlineSchemaView)>,
            ErrorView,
        >(entries),
    decreases fuel, 3int, entries.len(),
{
    if entries.len() > 0 {
        let front = entries.drop_last();
        assert(forall|i: int| 0 <= i < front.len() ==> front[i] == entries[i]);
        lemma_nested_map_round_trip(front, fuel);
        lemma_nested_round_trip(entries.last().1, fuel);
        assert(nested_map_to_json(entries).drop_last() =~= nested_map_to_json(front));
        lemma_index_of(front, entries.last().0);
        assert(front.push(entries.last()) =~= entries);
    } else {
        assert(entries =~= Seq::empty());
    }
}

/// A nested schema that is written where set is read back as it was.
pub proof fn lemma_read_if_nested(
    c: Option<Box<ComponentOrInlineSchemaView>>,
    key: Seq<char>,
    fuel: nat,
)
    requires
        c matches Some(b) ==> nested_valid(*b, fuel),
    ensures
        read_optional(if_nested(c), key, boxed_decoder(fuel)) == Ok::<
            Option<Box<ComponentOrInlineSchemaView>>,
            ErrorView,
        >(c),
    decreases fuel, 3int, 0nat,
{
    reveal(read_optional);
    if c is Some {
        lemma_nested_round_trip(*c->Some_0, fuel);
        lemma_nested_is_object(*c->Some_0);
    }
}

/// The JSON form of a nested schema is an object.
pub proof fn lemma_nested_is_object(c: ComponentOrInlineSchemaView)
    ensures
        nested_to_json(c) is Object,
{
}

/// A list of nested schemas, written unless empty, is read back as it was.
pub proof fn lemma_read_if_nested_list(
    items: Seq<ComponentOrInlineSchemaView>,
    key: Seq<char>,
    fuel: nat,
)
    requires
        forall|i: int| 0 <= i < items.len() ==> nested_valid(#[trigger] items[i], fuel),
    ensures
        read_defaulted(
            if_array(nested_list_to_json(items)),
            key,
            nested_list_decoder(fuel),
            Seq::empty(),
        ) == Ok::<Seq<ComponentOrInlineSchemaView>, ErrorView>(items),
    decreases fuel, 4int, 0nat,
{
    reveal(read_defaulted);
    lemma_nested_list_to_json(items);
    if items.len() == 0 {
        assert(items =~= Seq::empty());
    } else {
        lemma_nested_list_round_trip(items, fuel);
    }
}

/// A map of nested schemas, written unless empty, is read back as it was.
pub proof fn lemma_read_if_nested_map(
    entries: Seq<(Seq<char>, ComponentOrInlineSchemaView)>,
    key: Seq<char>,
    fuel: nat,
)
    requires
        distinct_keys(entries),
        forall|i: int| 0 <= i < entries.len() ==> nested_valid((#[trigger] entries[i]).1, fuel),
    ensures
        read_defaulted(
            if_object(nested_map_to_json(entries)),
            key,
            nested_map_decoder(fuel),
            Seq::empty(),
        ) == Ok::<Seq<(Seq<char>, ComponentOrInlineSchemaView)>, ErrorView>(entries),
    decreases fuel, 4int, 0nat,
{
    reveal(read_defaulted);
    lemma_nested_map_to_json(entries);
    if entries.len() == 0 {
        assert(entries =~= Seq::empty());
    } else {
        lemma_nested_map_round_trip(entries, fuel);
    }
}

/// A valid schema is read back as it was written.
pub proof fn lemma_schema_round_trip(v: SchemaView, fuel: nat)
    requires
        schema_valid(v, fuel),
    ensures
        schema_from_json(schema_to_json(v), fuel) == Ok::<SchemaView, ErrorView>(v),
    decreases fuel, 1int, 0nat,
{
    let below = (fuel - 1) as nat;
    lemma_schema_lookups(v);
    lemma_read_if_text(v.description, "description"@);
    lemma_read_if_text(v.format, "format"@);
    lemma_read_if_nested(v.items, "items"@, below);
    lemma_read_if_nested_map(v.properties, "properties"@, below);
    lemma_read_if_some::<bool>(v.read_only, "readOnly"@);
    lemma_read_if_some::<bool>(v.write_only, "writeOnly"@);
    lemma_read_if_some::<bool>(v.nullable, "nullable"@);
    lemma_read_if_nested(v.additional_properties, "additionalProperties"@, below);
    lemma_read_if_some::<Json>(v.example, "example"@);
    lemma_read_if_text(v.title, "title"@);
    lemma_read_if_some::<Json>(v.default, "default"@);
    lemma_read_if_nested_list(v.all_of, "allOf"@, below);
    lemma_read_if_nested_list(v.one_of, "oneOf"@, below);
    lemma_read_if_nested_list(v.any_of, "anyOf"@, below);
    lemma_read_if_some::<Type>(v.schema_type, "type"@);
    lemma_read_if_items::<String>(v.enum_values, "enum"@);
    lemma_read_if_some::<Json>(v.const_value, "const"@);
    lemma_read_if_some::<Json>(v.multiple_of, "multipleOf"@);
    lemma_read_if_some::<Json>(v.minimum, "minimum"@);
    lemma_read_if_some::<Json>(v.exclusive_minimum, "exclusiveMinimum"@);
    lemma_read_if_some::<Json>(v.maximum, "maximum"@);
    lemma_read_if_some::<Json>(v.exclusive_maximum, "exclusiveMaximum"@);
    lemma_read_if_some::<usize>(v.max_length, "maxLength"@);
    lemma_read_if_some::<usize>(v.min_length, "minLength"@);
    lemma_read_if_text(v.pattern, "pattern"@);
    lemma_read_if_some::<usize>(v.max_items, "maxItems"@);
    lemma_read_if_some::<usize>(v.min_items, "minItems"@);
    lemma_read_if_some::<bool>(v.unique_items, "uniqueItems"@);
    lemma_read_if_some::<usize>(v.max_properties, "maxProperties"@);
    lemma_read_if_some::<usize>(v.min_properties, "minProperties"@);
    lemma_read_if_items::<String>(v.required, "required"@);
    lemma_read_if_entries::<Vec<String>>(v.dependent_required, "dependentRequired"@);
}

/// A schema at the root of its own tree: decoding allows
/// [`MAX_SCHEMA_DEPTH`] levels of schemas written in place.
impl Codec for Schema {
    open spec fn to_json(v: SchemaView) -> JsonView {
        schema_to_json(v)
    }

    open spec fn from_json(j: JsonView) -> Result<SchemaView, ErrorView> {
        schema_from_json(j, MAX_SCHEMA_DEPTH as nat)
    }

    open spec fn valid(v: SchemaView) -> bool {
        schema_valid(v, MAX_SCHEMA_DEPTH as nat)
    }

    proof fn lemma_round_trip(v: SchemaView) {
        lemma_schema_round_trip(v, MAX_SCHEMA_DEPTH as nat);
    }

    fn encode(&self) -> (j: Json) {
        encode_schema(self)
    }

    fn decode(j: &Json) -> (r: Result<Self, Error>) {
        decode_schema(j, MAX_SCHEMA_DEPTH)
    }
}

/// A nested schema at the root of its own tree: decoding allows
/// [`MAX_SCHEMA_DEPTH`] levels of schemas written in place.
impl Codec for ComponentOrInlineSchema {
    open spec fn to_json(v: ComponentOrInlineSchemaView) -> JsonView {
        nested_to_json(v)
    }

    open spec fn from_json(j: JsonView) -> Result<ComponentOrInlineSchemaView, ErrorView> {
        nested_from_json(j, MAX_SCHEMA_DEPTH as nat)
    }

    open spec fn valid(v: ComponentOrInlineSchemaView) -> bool {
        nested_valid(v, MAX_SCHEMA_DEPTH as nat)
    }

    proof fn lemma_round_trip(v: ComponentOrInlineSchemaView) {
        lemma_nested_round_trip(v, MAX_SCHEMA_DEPTH as nat);
    }

    fn encode(&self) -> (j: Json) {
        encode_nested(self)
    }

    fn decode(j: &Json) -> (r: Result<Self, Error>) {
        decode_nested(j, MAX_SCHEMA_DEPTH)
    }
}

/// A nested schema that was read is valid.
pub proof fn lemma_nested_read_valid(j: JsonView, fuel: nat)
    ensures
        nested_from_json(j, fuel) matches Ok(c) ==> nested_valid(c, fuel),
    decreases fuel, 2int,
{
    if pointer_in(j) is None {
        lemma_schema_read_valid(j, fuel);
    }
}

/// A schema that was read is valid: what is written for it is read back as
/// the same schema.
pub proof fn lemma_schema_read_valid(j: JsonView, fuel: nat)
    ensures
        schema_from_json(j, fuel) matches Ok(v) ==> schema_valid(v, fuel),
    decreases fuel, 1int,
{
    if fuel > 0 && j is Object && schema_from_json(j, fuel) is Ok {
        let e = j->Object_0;
        let below = (fuel - 1) as nat;
        let v = schema_from_json(j, fuel)->Ok_0;
        let nested = nested_decoder(below);
        let holds = |c: ComponentOrInlineSchemaView| nested_valid(c, below);
        assert forall|x: JsonView| (#[trigger] nested(x)) is Ok implies holds(nested(x)->Ok_0) by {
            lemma_nested_read_valid(x, below);
        }
        lemma_read_optional_some(lookup(e, "items"@), "items"@, boxed_decoder(below));
        if let Some(x) = lookup(e, "items"@) {
            lemma_nested_read_valid(x, below);
        }
        lemma_read_optional_some(
            lookup(e, "additionalProperties"@),
            "additionalProperties"@,
            boxed_decoder(below),
        );
        if let Some(x) = lookup(e, "additionalProperties"@) {
            lemma_nested_read_valid(x, below);
        }
        lemma_values_not_null(e);
        lemma_read_nested_list_valid(lookup(e, "allOf"@), "allOf"@, below);
        lemma_read_nested_list_valid(lookup(e, "oneOf"@), "oneOf"@, below);
        lemma_read_nested_list_valid(lookup(e, "anyOf"@), "anyOf"@, below);
        lemma_read_defaulted_ok(
            lookup(e, "properties"@),
            "properties"@,
            nested_map_decoder(below),
            Seq::empty(),
        );
        if let Some(JsonView::Object(entries)) = lookup(e, "properties"@) {
            lemma_map_all(entries, nested, holds);
            lemma_map_distinct(entries, nested);
        }
        lemma_read_defaulted_ok(
            lookup(e, "dependentRequired"@),
            "dependentRequired"@,
            decoder::<OrderedMap<Vec<String>>>(),
            Seq::empty(),
        );
        if let Some(JsonView::Object(entries)) = lookup(e, "dependentRequired"@) {
            lemma_map_distinct(entries, decoder::<Vec<String>>());
        }
    }
}

/// The free-form values of a schema that was read are not `null` where they
/// are set.
proof fn lemma_values_not_null(e: Seq<(Seq<char>, JsonView)>)
    ensures
        optional_field::<Json>(e, "example"@) != Ok::<Option<JsonView>, ErrorView>(
            Some(JsonView::Null),
        ),
        optional_field::<Json>(e, "default"@) != Ok::<Option<JsonView>, ErrorView>(
            Some(JsonView::Null),
        ),
        optional_field::<Json>(e, "const"@) != Ok::<Option<JsonView>, ErrorView>(
            Some(JsonView::Null),
        ),
        optional_field::<Json>(e, "multipleOf"@) != Ok::<Option<JsonView>, ErrorView>(
            Some(JsonView::Null),
        ),
        optional_field::<Json>(e, "minimum"@) != Ok::<Option<JsonView>, ErrorView>(
            Some(JsonView::Null),
        ),
        optional_field::<Json>(e, "exclusiveMinimum"@) != Ok::<Option<JsonView>, ErrorView>(
            Some(JsonView::Null),
        ),
        optional_field::<Json>(e, "maximum"@) != Ok::<Option<JsonView>, ErrorView>(
            Some(JsonView::Null),
        ),
        optional_field::<Json>(e, "exclusiveMaximum"@) != Ok::<Option<JsonView>, ErrorView>(
            Some(JsonView::Null),
        ),
{
    lemma_read_optional_some(lookup(e, "example"@), "example"@, decoder::<Json>());
    lemma_read_optional_some(lookup(e, "default"@), "default"@, decoder::<Json>());
    lemma_read_optional_some(lookup(e, "const"@), "const"@, decoder::<Json>());
    lemma_read_optional_some(lookup(e, "multipleOf"@), "multipleOf"@, decoder::<Json>());
    lemma_read_optional_some(lookup(e, "minimum"@), "minimum"@, decoder::<Json>());
    lemma_read_optional_some(
        lookup(e, "exclusiveMinimum"@),
        "exclusiveMinimum"@,
        decoder::<Json>(),
    );
    lemma_read_optional_some(lookup(e, "maximum"@), "maximum"@, decoder::<Json>());
    lemma_read_optional_some(
        lookup(e, "exclusiveMaximum"@),
        "exclusiveMaximum"@,
        decoder::<Json>(),
    );
}

/// The nested schemas of a list that was read are valid.
proof fn lemma_read_nested_list_valid(found: Option<JsonView>, key: Seq<char>, fuel: nat)
    requires
        forall|x: JsonView|
            (#[trigger] nested_decoder(fuel)(x)) matches Ok(c) ==> nested_valid(c, fuel),
    ensures
        read_defaulted(found, key, nested_list_decoder(fuel), Seq::empty()) matches Ok(items)
            ==> forall|i: int| 0 <= i < items.len() ==> nested_valid(#[trigger] items[i], fuel),
{
    lemma_read_defaulted_ok(found, key, nested_list_decoder(fuel), Seq::empty());
    if let Some(JsonView::Array(items)) = found {
        lemma_list_all(
            items,
            nested_decoder(fuel),
            |c: ComponentOrInlineSchemaView| nested_valid(c, fuel),
        );
    }
}

/// Reading is idempotent through writing: what was read from any tree is
/// read again from what is written for it.
pub proof fn lemma_read_written_read(j: JsonView, fuel: nat)
    ensures
        schema_from_json(j, fuel) matches Ok(v) ==> schema_from_json(schema_to_json(v), fuel)
            == Ok::<SchemaView, ErrorView>(v),
{
    lemma_schema_read_valid(j, fuel);
    if let Ok(v) = schema_from_json(j, fuel) {
        lemma_schema_round_trip(v, fuel);
    }
}

/// The JSON form of a schema holds no pointer, so that a schema written in
/// place is not taken for a reference.
pub proof fn lemma_no_pointer(v: SchemaView)
    ensures
        pointer_in(schema_to_json(v)) is None,
{
    lemma_schema_lookups(v);
}

/// A pointer wins over a schema written in place: a value that holds a
/// pointer decodes to the component that the pointer names, or fails on the
/// pointer, whatever its other entries are and however deep it stands.
pub proof fn lemma_pointer_wins(j: JsonView, pointer: Seq<char>, fuel: nat)
    requires
        pointer_in(j) == Some(pointer),
    ensures
        nested_from_json(j, fuel) == match name_of(pointer) {
            Ok(name) => Ok::<ComponentOrInlineSchemaView, ErrorView>(
                ComponentOrInlineSchemaView::Component { name },
            ),
            Err(e) => Err(e.at_key("$ref"@)),
        },
{
}

/// A flag that is set is written, to `false` as well as to `true`; a flag
/// that is unset leaves no entry.
pub proof fn lemma_nullable_written(v: SchemaView)
    ensures
        lookup(schema_entries(v), "nullable"@) == match v.nullable {
            Some(b) => Some(JsonView::Bool(b)),
            None => None,
        },
{
    lemma_schema_lookups(v);
}

/// Beyond the depth limit decoding fails, whatever the value is.
pub proof fn lemma_depth_limit(j: JsonView)
    ensures
        schema_from_json(j, 0) == Err::<SchemaView, ErrorView>(
            ErrorView::here(ErrorKindView::DepthLimitExceeded),
        ),
{
}

/// What is valid with some levels left is valid with more.
pub proof fn lemma_valid_deeper(v: SchemaView, fuel: nat, more: nat)
    requires
        schema_valid(v, fuel),
        fuel <= more,
    ensures
        schema_valid(v, more),
    decreases fuel, 1int,
{
    let below = (fuel - 1) as nat;
    let above = (more - 1) as nat;
    if v.items is Some {
        lemma_nested_valid_deeper(*v.items->Some_0, below, above);
    }
    if v.additional_properties is Some {
        lemma_nested_valid_deeper(*v.additional_properties->Some_0, below, above);
    }
    assert forall|i: int| 0 <= i < v.properties.len() implies nested_valid(
        (#[trigger] v.properties[i]).1,
        above,
    ) by {
        lemma_nested_valid_deeper(v.properties[i].1, below, above);
    }
    assert forall|i: int| 0 <= i < v.all_of.len() implies nested_valid(
        #[trigger] v.all_of[i],
        above,
    ) by {
        lemma_nested_valid_deeper(v.all_of[i], below, above);
    }
    assert forall|i: int| 0 <= i < v.one_of.len() implies nested_valid(
        #[trigger] v.one_of[i],
        above,
    ) by {
        lemma_nested_valid_deeper(v.one_of[i], below, above);
    }
    assert forall|i: int| 0 <= i < v.any_of.len() implies nested_valid(
        #[trigger] v.any_of[i],
        above,
    ) by {
        lemma_nested_valid_deeper(v.any_of[i], below, above);
    }
}

/// What is valid with some levels left is valid with more.
pub proof fn lemma_nested_valid_deeper(c: ComponentOrInlineSchemaView, fuel: nat, more: nat)
    requires
        nested_valid(c, fuel),
        fuel <= more,
    ensures
        nested_valid(c, more),
    decreases fuel, 2int,
{
    match c {
        ComponentOrInlineSchemaView::Component { .. } => {},
        ComponentOrInlineSchemaView::Inline(s) => {
            lemma_valid_deeper(s, fuel, more);
        },
    }
}

/// A copy of a free-form value, where there is one.
fn clone_value(v: &Option<Json>) -> (r: Option<Json>)
    ensures
        r.deep_view() == v.deep_view(),
{
    match v {
        Some(j) => Some(j.clone()),
        None => None,
    }
}

/// A copy of a list of texts.
fn clone_texts(v: &Vec<String>) -> (r: Vec<String>)
    ensures
        r.deep_view() == v.deep_view(),
{
    let mut out: Vec<String> = Vec::new();
    let mut i: usize = 0;
    while i < v.len()
        invariant
            i <= v.len(),
            out.len() == i,
            forall|k: int| 0 <= k < i ==> (#[trigger] out[k])@ == v[k]@,
        decreases v.len() - i,
    {
        out.push(v[i].clone());
        i += 1;
    }
    assert(out.deep_view() =~= v.deep_view());
    out
}

/// A copy of a map from texts to lists of texts.
fn clone_text_map(m: &OrderedMap<Vec<String>>) -> (r: OrderedMap<Vec<String>>)
    ensures
        r.deep_view() == m.deep_view(),
{
    let mut out: Vec<(String, Vec<String>)> = Vec::new();
    let mut i: usize = 0;
    while i < m.entries.len()
        invariant
            i <= m.entries.len(),
            out.len() == i,
            forall|k: int|
                0 <= k < i ==> (#[trigger] out[k]).0@ == m.entries[k].0@ && out[k].1.deep_view()
                    == m.entries[k].1.deep_view(),
        decreases m.entries.len() - i,
    {
        out.push((m.entries[i].0.clone(), clone_texts(&m.entries[i].1)));
        i += 1;
    }
    let r = OrderedMap { entries: out };
    assert(r.deep_view() =~= m.deep_view());
    r
}

/// A copy of a nested schema in a box, where there is one.
fn clone_boxed(c: &Option<Box<ComponentOrInlineSchema>>) -> (r: Option<
    Box<ComponentOrInlineSchema>,
>)
    ensures
        boxed_view(r) == boxed_view(*c),
    decreases c,
{
    match c {
        Some(b) => Some(Box::new((**b).clone())),
        None => None,
    }
}

/// A copy of a list of nested schemas.
fn clone_nested_list(items: &Vec<ComponentOrInlineSchema>) -> (r: Vec<ComponentOrInlineSchema>)
    ensures
        nested_list_view(r@) == nested_list_view(items@),
    decreases items,
{
    let mut out: Vec<ComponentOrInlineSchema> = Vec::new();
    let mut i: usize = 0;
    while i < items.len()
        invariant
            i <= items.len(),
            out.len() == i,
            forall|k: int| 0 <= k < i ==> nested_view(#[trigger] out[k]) == nested_view(items[k]),
        decreases items.len() - i,
    {
        proof {
            assert(decreases_to!(items => items@));
            assert(decreases_to!(items@ => items@[i as int]));
        }
        out.push(items[i].clone());
        i += 1;
    }
    proof {
        lemma_nested_list_view(out@);
        lemma_nested_list_view(items@);
        assert(nested_list_view(out@) =~= nested_list_view(items@));
    }
    out
}

/// A copy of a map of nested schemas.
fn clone_nested_map(m: &OrderedMap<ComponentOrInlineSchema>) -> (r: OrderedMap<
    ComponentOrInlineSchema,
>)
    ensures
        nested_map_view(r.entries@) == nested_map_view(m.entries@),
    decreases m,
{
    let mut out: Vec<(String, ComponentOrInlineSchema)> = Vec::new();
    let mut i: usize = 0;
    while i < m.entries.len()
        invariant
            i <= m.entries.len(),
            out.len() == i,
            forall|k: int|
                0 <= k < i ==> (#[trigger] out[k]).0@ == m.entries[k].0@ && nested_view(out[k].1)
                    == nested_view(m.entries[k].1),
        decreases m.entries.len() - i,
    {
        proof {
            assert(decreases_to!(m => m.entries));
            assert(decreases_to!(m.entries => m.entries@));
            assert(decreases_to!(m.entries@ => m.entries@[i as int]));
            assert(decreases_to!(m.entries@[i as int] => m.entries@[i as int].1));
        }
        out.push((m.entries[i].0.clone(), m.entries[i].1.clone()));
        i += 1;
    }
    proof {
        lemma_nested_map_view(out@);
        lemma_nested_map_view(m.entries@);
        assert(nested_map_view(out@) =~= nested_map_view(m.entries@));
    }
    OrderedMap { entries: out }
}

impl Clone for ComponentOrInlineSchema {
    /// A copy of the whole tree.
    fn clone(&self) -> (r: Self)
        ensures
            r.deep_view() == self.deep_view(),
        decreases self,
    {
        reveal(schema_view);
        match self {
            ComponentOrInlineSchema::Component { name } => ComponentOrInlineSchema::Component {
                name: name.clone(),
            },
            ComponentOrInlineSchema::Inline(s) => ComponentOrInlineSchema::Inline(s.clone()),
        }
    }
}

impl Clone for Schema {
    /// A copy of the whole tree.
    fn clone(&self) -> (r: Self)
        ensures
            r.deep_view() == self.deep_view(),
        decreases self,
    {
        let r = Schema {
            description: self.description.clone(),
            format: self.format.clone(),
            items: clone_boxed(&self.items),
            properties: clone_nested_map(&self.properties),
            read_only: self.read_only,
            write_only: self.write_only,
            nullable: self.nullable,
            additional_properties: clone_boxed(&self.additional_properties),
            example: clone_value(&self.example),
            title: self.title.clone(),
            default: clone_value(&self.default),
            all_of: clone_nested_list(&self.all_of),
            one_of: clone_nested_list(&self.one_of),
            any_of: clone_nested_list(&self.any_of),
            schema_type: self.schema_type,
            enum_values: clone_texts(&self.enum_values),
            const_value: clone_value(&self.const_value),
            multiple_of: clone_value(&self.multiple_of),
            minimum: clone_value(&self.minimum),
            exclusive_minimum: clone_value(&self.exclusive_minimum),
            maximum: clone_value(&self.maximum),
            exclusive_maximum: clone_value(&self.exclusive_maximum),
            max_length: self.max_length,
            min_length: self.min_length,
            pattern: self.pattern.clone(),
            max_items: self.max_items,
            min_items: self.min_items,
            unique_items: self.unique_items,
            max_properties: self.max_properties,
            min_properties: self.min_properties,
            required: clone_texts(&self.required),
            dependent_required: clone_text_map(&self.dependent_required),
        };
        proof {
            lemma_schema_view(r);
            lemma_schema_view(*self);
        }
        r
    }
}

} // verus!
