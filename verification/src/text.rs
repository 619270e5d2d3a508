//! JSON text. Parsing and printing are the work of `serde_json`; what stands
//! here carries its values into the trees of this crate and back.

use crate::codec::Codec;
use crate::error::{result_view, Error, ErrorKind, ErrorKindView, ErrorView};
use crate::json::{lemma_array_view, lemma_object_view, Json, JsonView, Number, NumberView};
use crate::ordered_map::inserted;
use vstd::prelude::*;

verus! {

/// How deep arrays and objects may be nested in a text that is parsed. The
/// parser of `serde_json` stops before that depth.
pub const JSON_DEPTH_LIMIT: usize = 256;

#[verifier::external_type_specification]
#[verifier::external_body]
pub struct ExValue(serde_json::Value);

/// The tree that a `serde_json::Value` holds.
pub uninterp spec fn value_view(v: serde_json::Value) -> JsonView;

/// What `serde_json::from_str` makes of a text: the tree of the value that
/// it returns, or `None` where it returns an error.
pub uninterp spec fn parsed_json(text: Seq<char>) -> Option<JsonView>;

/// What `serde_json::to_string` prints for a value that holds the tree.
pub uninterp spec fn printed_json(tree: JsonView) -> Seq<char>;

/// One level of a `serde_json::Value`: what a leaf holds, and for an array or
/// an object the values below it. Of a number it gives what the three ways of
/// reading it return.
enum Shape<'a> {
    Null,
    Bool(bool),
    Number { unsigned: Option<u64>, signed: Option<i64>, text: String },
    String(String),
    Array(&'a Vec<serde_json::Value>),
    Object(Vec<(String, &'a serde_json::Value)>),
}

/// The number that the three ways of reading it stand for: an unsigned
/// integer where it can be read as one, else a signed one, else its text.
spec fn number_of(
    unsigned: Option<u64>,
    signed: Option<i64>,
    text: Seq<char>,
) -> NumberView {
    match unsigned {
        Some(n) => NumberView::Unsigned(n),
        None => match signed {
            Some(n) => NumberView::Negative(n),
            None => NumberView::Real(text),
        },
    }
}

/// The trees of the values of an array.
spec fn views_of(items: Seq<serde_json::Value>) -> Seq<JsonView> {
    items.map_values(|v: serde_json::Value| value_view(v))
}

/// The tree of one level with the trees of the values below it.
spec fn shape_view(s: Shape) -> JsonView {
    match s {
        Shape::Null => JsonView::Null,
        Shape::Bool(b) => JsonView::Bool(b),
        Shape::Number { unsigned, signed, text } => JsonView::Number(
            number_of(unsigned, signed, text@),
        ),
        Shape::String(t) => JsonView::String(t@),
        Shape::Array(items) => JsonView::Array(views_of(items@)),
        Shape::Object(entries) => JsonView::Object(
            entries@.map_values(|e: (String, &serde_json::Value)| (e.0@, value_view(*e.1))),
        ),
    }
}

/// Calls `serde_json::from_str` for a `serde_json::Value`. The contract names
/// the tree of the value that comes back and claims nothing else of it.
#[verifier::external_body]
fn parse_value(text: &str) -> (r: Option<serde_json::Value>)
    ensures
        match r {
            Some(v) => parsed_json(text@) == Some(value_view(v)),
            None => parsed_json(text@) is None,
        },
{
    serde_json::from_str::<serde_json::Value>(text).ok()
}

/// Calls `serde_json::to_string` on a value, which does not fail on one. The
/// contract names the text that comes back.
#[verifier::external_body]
fn print_value(v: &serde_json::Value) -> (text: String)
    ensures
        text@ == printed_json(value_view(*v)),
{
    serde_json::to_string(v).unwrap_or_default()
}

/// Tells the variants of `serde_json::Value` apart and hands out what each
/// holds: a number as what `as_u64`, `as_i64` and `to_string` return for it,
/// the entries of an object in the order in which its map walks them.
#[verifier::external_body]
fn shape_of(v: &serde_json::Value) -> (s: Shape<'_>)
    ensures
        shape_view(s) == value_view(*v),
{
    match v {
        serde_json::Value::Null => Shape::Null,
        serde_json::Value::Bool(b) => Shape::Bool(*b),
        serde_json::Value::Number(n) => {
            Shape::Number { unsigned: n.as_u64(), signed: n.as_i64(), text: n.to_string() }
        },
        serde_json::Value::String(t) => Shape::String(t.clone()),
        serde_json::Value::Array(items) => Shape::Array(items),
        serde_json::Value::Object(map) => Shape::Object(
            map.iter().map(|(k, v)| (k.clone(), v)).collect(),
        ),
    }
}

/// `serde_json::Value::Null`.
#[verifier::external_body]
fn value_null() -> (v: serde_json::Value)
    ensures
        value_view(v) == JsonView::Null,
{
    serde_json::Value::Null
}

/// `serde_json::Value::Bool`.
#[verifier::external_body]
fn value_bool(b: bool) -> (v: serde_json::Value)
    ensures
        value_view(v) == JsonView::Bool(b),
{
    serde_json::Value::Bool(b)
}

/// `serde_json::Value::from` on a `u64`: a number that reads as that
/// unsigned integer.
#[verifier::external_body]
fn value_unsigned(n: u64) -> (v: serde_json::Value)
    ensures
        value_view(v) == JsonView::Number(NumberView::Unsigned(n)),
{
    serde_json::Value::from(n)
}

/// `serde_json::Value::from` on an `i64`: a number that reads as an unsigned
/// integer where `n` is not negative, as the signed integer where it is.
#[verifier::external_body]
fn value_signed(n: i64) -> (v: serde_json::Value)
    ensures
        value_view(v) == JsonView::Number(
            if n >= 0 {
                NumberView::Unsigned(n as u64)
            } else {
                NumberView::Negative(n)
            },
        ),
{
    serde_json::Value::from(n)
}

/// `serde_json::Value::String`.
#[verifier::external_body]
fn value_string(text: String) -> (v: serde_json::Value)
    ensures
        value_view(v) == JsonView::String(text@),
{
    serde_json::Value::String(text)
}

/// `serde_json::Value::Array`.
#[verifier::external_body]
fn value_array(items: Vec<serde_json::Value>) -> (v: serde_json::Value)
    ensures
        value_view(v) == JsonView::Array(views_of(items@)),
{
    serde_json::Value::Array(items)
}

/// The entries after each was inserted into a map that keeps the order of
/// insertion: a key that comes again keeps its place and takes the later
/// value.
pub open spec fn collected(entries: Seq<(Seq<char>, JsonView)>) -> Seq<(Seq<char>, JsonView)>
    decreases entries.len(),
{
    if entries.len() == 0 {
        Seq::empty()
    } else {
        inserted(collected(entries.drop_last()), entries.last().0, entries.last().1)
    }
}

/// The keys and the trees of the values of the entries.
spec fn entry_views(entries: Seq<(String, serde_json::Value)>) -> Seq<
    (Seq<char>, JsonView),
> {
    entries.map_values(|e: (String, serde_json::Value)| (e.0@, value_view(e.1)))
}

/// Collects the entries into a `serde_json::Map`, which inserts them one
/// after the other and keeps the order of insertion, and wraps it in
/// `serde_json::Value::Object`.
#[verifier::external_body]
fn value_object(entries: Vec<(String, serde_json::Value)>) -> (v: serde_json::Value)
    ensures
        value_view(v) == JsonView::Object(collected(entry_views(entries@))),
{
    serde_json::Value::Object(entries.into_iter().collect())
}

/// Whether a tree is at most `fuel` levels deep.
pub open spec fn fits(tree: JsonView, fuel: nat) -> bool
    decreases fuel, 0nat,
{
    &&& fuel > 0
    &&& match tree {
        JsonView::Array(items) => all_fit(items, (fuel - 1) as nat),
        JsonView::Object(entries) => all_values_fit(entries, (fuel - 1) as nat),
        _ => true,
    }
}

/// Whether every item is at most `fuel` levels deep.
pub open spec fn all_fit(items: Seq<JsonView>, fuel: nat) -> bool
    decreases fuel, items.len(),
{
    if items.len() == 0 {
        true
    } else {
        all_fit(items.drop_last(), fuel) && fits(items.last(), fuel)
    }
}

/// Whether the value of every entry is at most `fuel` levels deep.
pub open spec fn all_values_fit(entries: Seq<(Seq<char>, JsonView)>, fuel: nat) -> bool
    decreases fuel, entries.len(),
{
    if entries.len() == 0 {
        true
    } else {
        all_values_fit(entries.drop_last(), fuel) && fits(entries.last().1, fuel)
    }
}

/// `all_fit` holds where every item fits.
pub proof fn lemma_all_fit(items: Seq<JsonView>, fuel: nat)
    ensures
        all_fit(items, fuel) <==> forall|i: int| 0 <= i < items.len() ==> fits(
            #[trigger] items[i],
            fuel,
        ),
    decreases items.len(),
{
    if items.len() > 0 {
        lemma_all_fit(items.drop_last(), fuel);
        assert(forall|i: int| 0 <= i < items.len() - 1 ==> items.drop_last()[i] == items[i]);
        if all_fit(items, fuel) {
            assert forall|i: int| 0 <= i < items.len() implies fits(#[trigger] items[i], fuel) by {
                if i < items.len() - 1 {
                    assert(items.drop_last()[i] == items[i]);
                }
            }
        }
    }
}

/// `all_values_fit` holds where the value of every entry fits.
pub proof fn lemma_all_values_fit(entries: Seq<(Seq<char>, JsonView)>, fuel: nat)
    ensures
        all_values_fit(entries, fuel) <==> forall|i: int|
            0 <= i < entries.len() ==> fits((#[trigger] entries[i]).1, fuel),
    decreases entries.len(),
{
    if entries.len() > 0 {
        lemma_all_values_fit(entries.drop_last(), fuel);
        assert(forall|i: int| 0 <= i < entries.len() - 1 ==> entries.drop_last()[i] == entries[i]);
        if all_values_fit(entries, fuel) {
            assert forall|i: int| 0 <= i < entries.len() implies fits(
                (#[trigger] entries[i]).1,
                fuel,
            ) by {
                if i < entries.len() - 1 {
                    assert(entries.drop_last()[i] == entries[i]);
                }
            }
        }
    }
}

/// The tree of a value, where it is at most `fuel` levels deep.
fn from_value(v: &serde_json::Value, fuel: usize) -> (r: Option<Json>)
    ensures
        match r {
            Some(j) => j.deep_view() == value_view(*v) && fits(value_view(*v), fuel as nat),
            None => !fits(value_view(*v), fuel as nat),
        },
    decreases fuel,
{
    if fuel == 0 {
        return None;
    }
    match shape_of(v) {
        Shape::Null => Some(Json::Null),
        Shape::Bool(b) => Some(Json::Bool(b)),
        Shape::Number { unsigned, signed, text } => Some(
            Json::Number(
                match unsigned {
                    Some(n) => Number::Unsigned(n),
                    None => match signed {
                        Some(n) => Number::Negative(n),
                        None => Number::Real(text),
                    },
                },
            ),
        ),
        Shape::String(t) => Some(Json::String(t)),
        Shape::Array(items) => {
            let ghost views = views_of(items@);
            let mut out: Vec<Json> = Vec::new();
            let mut i: usize = 0;
            while i < items.len()
                invariant
                    fuel > 0,
                    views == views_of(items@),
                    value_view(*v) == JsonView::Array(views),
                    i <= items.len(),
                    out.len() == i,
                    forall|k: int|
                        0 <= k < i ==> (#[trigger] out[k]).deep_view() == views[k] && fits(
                            views[k],
                            (fuel - 1) as nat,
                        ),
                decreases items.len() - i,
            {
                match from_value(&items[i], fuel - 1) {
                    None => {
                        proof {
                            lemma_all_fit(views, (fuel - 1) as nat);
                            assert(views[i as int] == value_view(items@[i as int]));
                            assert(!all_fit(views, (fuel - 1) as nat));
                        }
                        return None;
                    },
                    Some(j) => {
                        out.push(j);
                    },
                }
                i += 1;
            }
            proof {
                lemma_array_view(out);
                assert(out.deep_view() =~= views);
                lemma_all_fit(views, (fuel - 1) as nat);
            }
            Some(Json::Array(out))
        },
        Shape::Object(entries) => {
            let ghost views = entries@.map_values(
                |e: (String, &serde_json::Value)| (e.0@, value_view(*e.1)),
            );
            let mut out: Vec<(String, Json)> = Vec::new();
            let mut i: usize = 0;
            while i < entries.len()
                invariant
                    fuel > 0,
                    views == entries@.map_values(
                        |e: (String, &serde_json::Value)| (e.0@, value_view(*e.1)),
                    ),
                    value_view(*v) == JsonView::Object(views),
                    i <= entries.len(),
                    out.len() == i,
                    forall|k: int|
                        0 <= k < i ==> (#[trigger] out[k]).deep_view() == views[k] && fits(
                            views[k].1,
                            (fuel - 1) as nat,
                        ),
                decreases entries.len() - i,
            {
                match from_value(entries[i].1, fuel - 1) {
                    None => {
                        proof {
                            lemma_all_values_fit(views, (fuel - 1) as nat);
                            assert(views[i as int].1 == value_view(*entries@[i as int].1));
                            assert(!all_values_fit(views, (fuel - 1) as nat));
                        }
                        return None;
                    },
                    Some(j) => {
                        out.push((entries[i].0.clone(), j));
                    },
                }
                i += 1;
            }
            proof {
                lemma_object_view(out);
                assert(out.deep_view() =~= views);
                lemma_all_values_fit(views, (fuel - 1) as nat);
            }
            Some(Json::Object(out))
        },
    }
}

/// What a number is printed as: itself where it is an integer; where it is
/// kept as text, the number that the text parses to, or `null` where it
/// parses to none.
pub open spec fn normal_number(n: NumberView) -> JsonView {
    match n {
        NumberView::Unsigned(u) => JsonView::Number(NumberView::Unsigned(u)),
        NumberView::Negative(i) => JsonView::Number(
            if i >= 0 {
                NumberView::Unsigned(i as u64)
            } else {
                NumberView::Negative(i)
            },
        ),
        NumberView::Real(text) => match parsed_json(text) {
            Some(JsonView::Number(m)) => JsonView::Number(m),
            _ => JsonView::Null,
        },
    }
}

/// The tree that is printed for a tree: numbers as `normal_number` says, and
/// in every object a key that comes again folded into its first entry.
pub open spec fn normal(tree: JsonView) -> JsonView
    decreases tree,
{
    match tree {
        JsonView::Number(n) => normal_number(n),
        JsonView::Array(items) => JsonView::Array(normal_items(items)),
        JsonView::Object(entries) => JsonView::Object(collected(normal_entries(entries))),
        _ => tree,
    }
}

/// `normal` of each item.
pub open spec fn normal_items(items: Seq<JsonView>) -> Seq<JsonView>
    decreases items,
{
    if items.len() == 0 {
        Seq::empty()
    } else {
        normal_items(items.drop_last()).push(normal(items.last()))
    }
}

/// Each key with `normal` of its value.
pub open spec fn normal_entries(entries: Seq<(Seq<char>, JsonView)>) -> Seq<(Seq<char>, JsonView)>
    decreases entries,
{
    if entries.len() == 0 {
        Seq::empty()
    } else {
        normal_entries(entries.drop_last()).push((entries.last().0, normal(entries.last().1)))
    }
}

/// `normal_items` takes `normal` of each item, one for one.
pub proof fn lemma_normal_items(items: Seq<JsonView>)
    ensures
        normal_items(items).len() == items.len(),
        forall|i: int| 0 <= i < items.len() ==> #[trigger] normal_items(items)[i]
            == normal(items[i]),
    decreases items.len(),
{
    if items.len() > 0 {
        lemma_normal_items(items.drop_last());
    }
}

/// `normal_entries` keeps each key and takes `normal` of each value.
pub proof fn lemma_normal_entries(entries: Seq<(Seq<char>, JsonView)>)
    ensures
        normal_entries(entries).len() == entries.len(),
        forall|i: int|
            0 <= i < entries.len() ==> #[trigger] normal_entries(entries)[i] == (
                entries[i].0,
                normal(entries[i].1),
            ),
    decreases entries.len(),
{
    if entries.len() > 0 {
        lemma_normal_entries(entries.drop_last());
    }
}

/// The value that is printed for a tree.
fn to_value(j: &Json) -> (v: serde_json::Value)
    ensures
        value_view(v) == normal(j.deep_view()),
    decreases j,
{
    match j {
        Json::Null => value_null(),
        Json::Bool(b) => value_bool(*b),
        Json::Number(Number::Unsigned(n)) => value_unsigned(*n),
        Json::Number(Number::Negative(n)) => value_signed(*n),
        Json::Number(Number::Real(text)) => match parse_value(text.as_str()) {
            Some(parsed) => match shape_of(&parsed) {
                Shape::Number { .. } => parsed,
                _ => value_null(),
            },
            None => value_null(),
        },
        Json::String(t) => value_string(t.clone()),
        Json::Array(items) => {
            proof {
                lemma_array_view(*items);
                lemma_normal_items(items.deep_view());
            }
            let mut out: Vec<serde_json::Value> = Vec::new();
            let mut i: usize = 0;
            while i < items.len()
                invariant
                    *j == Json::Array(*items),
                    i <= items.len(),
                    out.len() == i,
                    forall|k: int|
                        0 <= k < i ==> value_view(#[trigger] out[k]) == normal(
                            items[k].deep_view(),
                        ),
                decreases items.len() - i,
            {
                proof {
                    assert(decreases_to!(*j => j->Array_0));
                    assert(decreases_to!(j->Array_0 => (j->Array_0)@));
                    assert(decreases_to!(items@ => items@[i as int]));
                }
                out.push(to_value(&items[i]));
                i += 1;
            }
            assert(views_of(out@) =~= normal_items(items.deep_view()));
            value_array(out)
        },
        Json::Object(entries) => {
            proof {
                lemma_object_view(*entries);
                lemma_normal_entries(entries.deep_view());
            }
            let mut out: Vec<(String, serde_json::Value)> = Vec::new();
            let mut i: usize = 0;
            while i < entries.len()
                invariant
                    *j == Json::Object(*entries),
                    i <= entries.len(),
                    out.len() == i,
                    forall|k: int|
                        0 <= k < i ==> (#[trigger] out[k]).0@ == entries[k].0@ && value_view(
                            out[k].1,
                        ) == normal(entries[k].1.deep_view()),
                decreases entries.len() - i,
            {
                proof {
                    assert(decreases_to!(*j => j->Object_0));
                    assert(decreases_to!(entries@ => entries@[i as int]));
                    assert(decreases_to!(entries@[i as int] => entries@[i as int].1));
                }
                out.push((entries[i].0.clone(), to_value(&entries[i].1)));
                i += 1;
            }
            assert(entry_views(out@) =~= normal_entries(entries.deep_view()));
            value_object(out)
        },
    }
}

/// The tree that a text stands for: `MalformedInput` where the text is not
/// JSON, `DepthLimitExceeded` where it is nested deeper than
/// [`JSON_DEPTH_LIMIT`].
pub open spec fn tree_of(text: Seq<char>) -> Result<JsonView, ErrorView> {
    match parsed_json(text) {
        None => Err(ErrorView::here(ErrorKindView::MalformedInput)),
        Some(tree) => if fits(tree, JSON_DEPTH_LIMIT as nat) {
            Ok(tree)
        } else {
            Err(ErrorView::here(ErrorKindView::DepthLimitExceeded))
        },
    }
}

/// The value that a text stands for.
pub open spec fn from_text<T: Codec>(text: Seq<char>) -> Result<T::V, ErrorView> {
    match tree_of(text) {
        Ok(tree) => T::from_json(tree),
        Err(e) => Err(e),
    }
}

/// The text that a value is written as.
pub open spec fn to_text<T: Codec>(v: T::V) -> Seq<char> {
    printed_json(normal(T::to_json(v)))
}

/// Parses a text into a tree.
pub fn parse_json(text: &str) -> (r: Result<Json, Error>)
    ensures
        result_view(r) == tree_of(text@),
{
    match parse_value(text) {
        None => Err(Error::here(ErrorKind::MalformedInput)),
        Some(v) => match from_value(&v, JSON_DEPTH_LIMIT) {
            Some(j) => Ok(j),
            None => Err(Error::here(ErrorKind::DepthLimitExceeded)),
        },
    }
}

/// Prints a tree as compact text.
pub fn print_json(j: &Json) -> (text: String)
    ensures
        text@ == printed_json(normal(j.deep_view())),
{
    print_value(&to_value(j))
}

/// Reads a value from its text.
pub fn parse<T: Codec>(text: &str) -> (r: Result<T, Error>)
    ensures
        result_view(r) == from_text::<T>(text@),
{
    let tree = parse_json(text)?;
    T::decode(&tree)
}

/// Writes a value as text.
pub fn print<T: Codec>(v: &T) -> (text: String)
    ensures
        text@ == to_text::<T>(v.deep_view()),
{
    print_json(&v.encode())
}

} // verus!
