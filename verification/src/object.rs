//! The entries of a JSON object: finding a key, and reading and writing the
//! fields of a typed value one by one.

use crate::codec::{decoder, Codec};
use crate::error::{in_key, result_view, under_key, Error, ErrorView, Expected};
use crate::json::{lemma_object_view, Json, JsonView};
use crate::strings::same_text;
use vstd::prelude::*;

verus! {

/// The position of the first entry with the key `key`.
pub open spec fn index_of<V>(entries: Seq<(Seq<char>, V)>, key: Seq<char>) -> Option<int>
    decreases entries.len(),
{
    if entries.len() == 0 {
        None
    } else {
        match index_of(entries.drop_last(), key) {
            Some(i) => Some(i),
            None => if entries.last().0 == key {
                Some(entries.len() - 1)
            } else {
                None
            },
        }
    }
}

/// The value of the first entry with the key `key`.
#[verifier::opaque]
pub open spec fn lookup<V>(entries: Seq<(Seq<char>, V)>, key: Seq<char>) -> Option<V> {
    match index_of(entries, key) {
        Some(i) => Some(entries[i].1),
        None => None,
    }
}

/// `index_of` gives the least position that holds the key, and `None` only
/// where no entry holds it.
pub proof fn lemma_index_of<V>(entries: Seq<(Seq<char>, V)>, key: Seq<char>)
    ensures
        match index_of(entries, key) {
            Some(i) => {
                &&& 0 <= i < entries.len()
                &&& entries[i].0 == key
                &&& forall|k: int| 0 <= k < i ==> (#[trigger] entries[k]).0 != key
            },
            None => forall|k: int| 0 <= k < entries.len() ==> (#[trigger] entries[k]).0 != key,
        },
    decreases entries.len(),
{
    if entries.len() > 0 {
        lemma_index_of(entries.drop_last(), key);
        assert(forall|k: int|
            0 <= k < entries.len() - 1 ==> entries.drop_last()[k] == #[trigger] entries[k]);
    }
}

/// The position that holds the key first is `index_of`.
pub proof fn lemma_index_of_first<V>(entries: Seq<(Seq<char>, V)>, key: Seq<char>, i: int)
    requires
        0 <= i < entries.len(),
        entries[i].0 == key,
        forall|k: int| 0 <= k < i ==> (#[trigger] entries[k]).0 != key,
    ensures
        index_of(entries, key) == Some(i),
{
    lemma_index_of(entries, key);
}

/// No entry holds the key: `index_of` finds none.
pub proof fn lemma_index_of_none<V>(entries: Seq<(Seq<char>, V)>, key: Seq<char>)
    requires
        forall|k: int| 0 <= k < entries.len() ==> (#[trigger] entries[k]).0 != key,
    ensures
        index_of(entries, key) is None,
{
    lemma_index_of(entries, key);
}

/// The entries with one more written at the end, or left as they are where
/// the field is omitted.
#[verifier::opaque]
pub open spec fn with_entry(
    entries: Seq<(Seq<char>, JsonView)>,
    key: Seq<char>,
    slot: Option<JsonView>,
) -> Seq<(Seq<char>, JsonView)> {
    match slot {
        None => entries,
        Some(j) => entries.push((key, j)),
    }
}

/// What a lookup finds after a field was written: the field, where its key
/// is asked for and was not there before; else what was found before.
pub broadcast proof fn lemma_lookup_with_entry(
    entries: Seq<(Seq<char>, JsonView)>,
    key: Seq<char>,
    slot: Option<JsonView>,
    asked: Seq<char>,
)
    ensures
        #[trigger] lookup(with_entry(entries, key, slot), asked) == if asked == key && lookup(
            entries,
            asked,
        ) is None {
            slot
        } else {
            lookup(entries, asked)
        },
{
    reveal(with_entry);
    reveal(lookup);
    if slot is Some {
        let after = entries.push((key, slot->Some_0));
        assert(after.drop_last() =~= entries);
        lemma_index_of(entries, asked);
    }
}

/// Nothing is found among no entries.
pub broadcast proof fn lemma_lookup_empty(asked: Seq<char>)
    ensures
        #[trigger] lookup(Seq::<(Seq<char>, JsonView)>::empty(), asked) is None,
{
    reveal(lookup);
}

/// A field that is always written.
pub open spec fn always<T: Codec>(v: T::V) -> Option<JsonView> {
    Some(T::to_json(v))
}

/// A field that is written where it is set.
pub open spec fn if_some<T: Codec>(v: Option<T::V>) -> Option<JsonView> {
    match v {
        Some(x) => Some(T::to_json(x)),
        None => None,
    }
}

/// A text field, written unless it is empty.
pub open spec fn if_text(v: Seq<char>) -> Option<JsonView> {
    if v.len() == 0 {
        None
    } else {
        Some(JsonView::String(v))
    }
}

/// A list field, written unless it is empty.
pub open spec fn if_items<T: Codec>(v: Seq<T::V>) -> Option<JsonView> {
    if v.len() == 0 {
        None
    } else {
        Some(<Vec<T> as Codec>::to_json(v))
    }
}

/// An array field, written unless the array is empty.
pub open spec fn if_array(items: Seq<JsonView>) -> Option<JsonView> {
    if items.len() == 0 {
        None
    } else {
        Some(JsonView::Array(items))
    }
}

/// An object field, written unless the object is empty.
pub open spec fn if_object(entries: Seq<(Seq<char>, JsonView)>) -> Option<JsonView> {
    if entries.len() == 0 {
        None
    } else {
        Some(JsonView::Object(entries))
    }
}

/// Reads a field that must be present.
#[verifier::opaque]
pub open spec fn read_required<V>(
    found: Option<JsonView>,
    key: Seq<char>,
    dec: spec_fn(JsonView) -> Result<V, ErrorView>,
) -> Result<V, ErrorView> {
    match found {
        None => Err(ErrorView::missing(key)),
        Some(j) => under_key(dec(j), key),
    }
}

/// Reads a field that may be absent: absent or `null`, it is unset.
#[verifier::opaque]
pub open spec fn read_optional<V>(
    found: Option<JsonView>,
    key: Seq<char>,
    dec: spec_fn(JsonView) -> Result<V, ErrorView>,
) -> Result<Option<V>, ErrorView> {
    match found {
        None => Ok(None),
        Some(JsonView::Null) => Ok(None),
        Some(j) => match under_key(dec(j), key) {
            Ok(v) => Ok(Some(v)),
            Err(e) => Err(e),
        },
    }
}

/// Reads a field that stands for `default` where it is absent.
#[verifier::opaque]
pub open spec fn read_defaulted<V>(
    found: Option<JsonView>,
    key: Seq<char>,
    dec: spec_fn(JsonView) -> Result<V, ErrorView>,
    default: V,
) -> Result<V, ErrorView> {
    match found {
        None => Ok(default),
        Some(j) => under_key(dec(j), key),
    }
}

/// The field `key` of an object, which must be present.
pub open spec fn required_field<T: Codec>(
    entries: Seq<(Seq<char>, JsonView)>,
    key: Seq<char>,
) -> Result<T::V, ErrorView> {
    read_required(lookup(entries, key), key, decoder::<T>())
}

/// The field `key` of an object, unset where absent or `null`.
pub open spec fn optional_field<T: Codec>(
    entries: Seq<(Seq<char>, JsonView)>,
    key: Seq<char>,
) -> Result<Option<T::V>, ErrorView> {
    read_optional(lookup(entries, key), key, decoder::<T>())
}

/// The text field `key` of an object, empty where absent.
pub open spec fn text_field(entries: Seq<(Seq<char>, JsonView)>, key: Seq<char>) -> Result<
    Seq<char>,
    ErrorView,
> {
    read_defaulted(lookup(entries, key), key, decoder::<String>(), Seq::empty())
}

/// The list field `key` of an object, empty where absent.
pub open spec fn items_field<T: Codec>(
    entries: Seq<(Seq<char>, JsonView)>,
    key: Seq<char>,
) -> Result<Seq<T::V>, ErrorView> {
    read_defaulted(lookup(entries, key), key, decoder::<Vec<T>>(), Seq::empty())
}

/// A field that is always written reads back as its value.
pub proof fn lemma_read_always<T: Codec>(v: T::V, key: Seq<char>)
    requires
        T::valid(v),
    ensures
        read_required(always::<T>(v), key, decoder::<T>()) == Ok::<T::V, ErrorView>(v),
{
    reveal(read_required);
    T::lemma_round_trip(v);
}

/// A field written where set reads back as it was, unless it was set to a
/// value whose JSON form is `null`.
pub proof fn lemma_read_if_some<T: Codec>(v: Option<T::V>, key: Seq<char>)
    requires
        v matches Some(x) ==> T::valid(x) && T::to_json(x) != JsonView::Null,
    ensures
        read_optional(if_some::<T>(v), key, decoder::<T>()) == Ok::<Option<T::V>, ErrorView>(v),
{
    reveal(read_optional);
    if v is Some {
        T::lemma_round_trip(v->Some_0);
    }
}

/// A text field reads back as it was.
pub proof fn lemma_read_if_text(v: Seq<char>, key: Seq<char>)
    ensures
        read_defaulted(if_text(v), key, decoder::<String>(), Seq::empty()) == Ok::<
            Seq<char>,
            ErrorView,
        >(v),
{
    reveal(read_defaulted);
    if v.len() == 0 {
        assert(v =~= Seq::empty());
    }
}

/// A list field of valid items reads back as it was.
pub proof fn lemma_read_if_items<T: Codec>(v: Seq<T::V>, key: Seq<char>)
    requires
        <Vec<T> as Codec>::valid(v),
    ensures
        read_defaulted(if_items::<T>(v), key, decoder::<Vec<T>>(), Seq::empty()) == Ok::<
            Seq<T::V>,
            ErrorView,
        >(v),
{
    reveal(read_defaulted);
    if v.len() == 0 {
        assert(v =~= Seq::empty());
    } else {
        <Vec<T> as Codec>::lemma_round_trip(v);
    }
}

/// A field that was read and is set was read by `dec` from an entry that is
/// not `null`.
pub proof fn lemma_read_optional_some<V>(
    found: Option<JsonView>,
    key: Seq<char>,
    dec: spec_fn(JsonView) -> Result<V, ErrorView>,
)
    ensures
        read_optional(found, key, dec) matches Ok(Some(x)) ==> found matches Some(j) && j
            != JsonView::Null && dec(j) == Ok::<V, ErrorView>(x),
{
    reveal(read_optional);
}

/// A field that was read where it may be absent is the default, or was read
/// by `dec` from the entry.
pub proof fn lemma_read_defaulted_ok<V>(
    found: Option<JsonView>,
    key: Seq<char>,
    dec: spec_fn(JsonView) -> Result<V, ErrorView>,
    default: V,
)
    ensures
        read_defaulted(found, key, dec, default) matches Ok(x) ==> match found {
            Some(j) => dec(j) == Ok::<V, ErrorView>(x),
            None => x == default,
        },
{
    reveal(read_defaulted);
}

/// The position of the first entry with the key `key`.
pub fn position<T: DeepView>(entries: &Vec<(String, T)>, key: &str) -> (r: Option<usize>)
    ensures
        match r {
            Some(i) => index_of(entries.deep_view(), key@) == Some(i as int) && i < entries.len(),
            None => index_of(entries.deep_view(), key@) is None,
        },
{
    let ghost views = entries.deep_view();
    let mut i: usize = 0;
    while i < entries.len()
        invariant
            views == entries.deep_view(),
            i <= entries.len(),
            forall|k: int| 0 <= k < i ==> (#[trigger] views[k]).0 != key@,
        decreases entries.len() - i,
    {
        if same_text(entries[i].0.as_str(), key) {
            proof {
                lemma_index_of_first(views, key@, i as int);
            }
            return Some(i);
        }
        i += 1;
    }
    proof {
        lemma_index_of_none(views, key@);
    }
    None
}

/// The value of the first entry with the key `key`.
pub fn find<'a, T: DeepView>(entries: &'a Vec<(String, T)>, key: &str) -> (r: Option<&'a T>)
    ensures
        match r {
            Some(v) => lookup(entries.deep_view(), key@) == Some(v.deep_view()),
            None => lookup(entries.deep_view(), key@) is None,
        },
{
    reveal(lookup);
    match position(entries, key) {
        Some(i) => Some(&entries[i].1),
        None => None,
    }
}

/// The entries of an object, or the failure to report of a value that is
/// none.
pub fn entries_of(j: &Json) -> (r: Result<&Vec<(String, Json)>, Error>)
    ensures
        match r {
            Ok(entries) => j.deep_view() == JsonView::Object(entries.deep_view()),
            Err(e) => j.deep_view() !is Object && e.deep_view() == ErrorView::mismatch(
                Expected::Object,
                j.deep_view().kind(),
            ),
        },
{
    match j {
        Json::Object(entries) => {
            proof {
                lemma_object_view(*entries);
            }
            Ok(entries)
        },
        _ => Err(Error::mismatch(Expected::Object, j.kind())),
    }
}

/// Reads the field `key`, which must be present.
pub fn get_required<T: Codec>(entries: &Vec<(String, Json)>, key: &str) -> (r: Result<T, Error>)
    ensures
        result_view(r) == required_field::<T>(entries.deep_view(), key@),
{
    reveal(read_required);
    match find(entries, key) {
        None => Err(Error::missing(key)),
        Some(j) => in_key(T::decode(j), key),
    }
}

/// Reads the field `key`, unset where absent or `null`.
pub fn get_optional<T: Codec>(entries: &Vec<(String, Json)>, key: &str) -> (r: Result<
    Option<T>,
    Error,
>)
    ensures
        result_view(r) == optional_field::<T>(entries.deep_view(), key@),
{
    reveal(read_optional);
    match find(entries, key) {
        None => Ok(None),
        Some(Json::Null) => Ok(None),
        Some(j) => match in_key(T::decode(j), key) {
            Ok(v) => Ok(Some(v)),
            Err(e) => Err(e),
        },
    }
}

/// Reads the text field `key`, empty where absent.
pub fn get_text(entries: &Vec<(String, Json)>, key: &str) -> (r: Result<String, Error>)
    ensures
        result_view(r) == text_field(entries.deep_view(), key@),
{
    reveal(read_defaulted);
    match find(entries, key) {
        None => Ok(String::new()),
        Some(j) => in_key(String::decode(j), key),
    }
}

/// Reads the list field `key`, empty where absent.
pub fn get_items<T: Codec>(entries: &Vec<(String, Json)>, key: &str) -> (r: Result<Vec<T>, Error>)
    ensures
        result_view(r) == items_field::<T>(entries.deep_view(), key@),
{
    reveal(read_defaulted);
    match find(entries, key) {
        None => {
            let v: Vec<T> = Vec::new();
            assert(v.deep_view() =~= Seq::empty());
            Ok(v)
        },
        Some(j) => in_key(Vec::<T>::decode(j), key),
    }
}

/// Writes a field at the end of `out`, or nothing where `slot` is `None`.
pub fn put(out: &mut Vec<(String, Json)>, key: &str, slot: Option<Json>)
    ensures
        final(out).deep_view() == with_entry(old(out).deep_view(), key@, slot.deep_view()),
{
    reveal(with_entry);
    match slot {
        None => {},
        Some(j) => {
            let ghost before = out.deep_view();
            out.push((key.to_owned(), j));
            assert(out.deep_view() =~= before.push((key@, j.deep_view())));
        },
    }
}

/// The slot of a field that is always written.
pub fn slot_always<T: Codec>(v: &T) -> (slot: Option<Json>)
    ensures
        slot.deep_view() == always::<T>(v.deep_view()),
{
    Some(v.encode())
}

/// The slot of a field that is written where it is set.
pub fn slot_if_some<T: Codec>(v: &Option<T>) -> (slot: Option<Json>)
    ensures
        slot.deep_view() == if_some::<T>(v.deep_view()),
{
    match v {
        Some(x) => Some(x.encode()),
        None => None,
    }
}

/// The slot of a text field, written unless it is empty.
pub fn slot_if_text(v: &String) -> (slot: Option<Json>)
    ensures
        slot.deep_view() == if_text(v@),
{
    if v.as_str().unicode_len() == 0 {
        None
    } else {
        Some(Json::String(v.clone()))
    }
}

/// The slot of a list field, written unless it is empty.
pub fn slot_if_items<T: Codec>(v: &Vec<T>) -> (slot: Option<Json>)
    ensures
        slot.deep_view() == if_items::<T>(v.deep_view()),
{
    if v.len() == 0 {
        None
    } else {
        Some(v.encode())
    }
}

/// An object made of the entries written.
pub fn object(entries: Vec<(String, Json)>) -> (j: Json)
    ensures
        j.deep_view() == JsonView::Object(entries.deep_view()),
{
    proof {
        lemma_object_view(entries);
    }
    Json::Object(entries)
}

/// No entries yet.
pub fn no_entries() -> (out: Vec<(String, Json)>)
    ensures
        out.deep_view() == Seq::<(Seq<char>, JsonView)>::empty(),
{
    let out: Vec<(String, Json)> = Vec::new();
    assert(out.deep_view() =~= Seq::empty());
    out
}

} // verus!
