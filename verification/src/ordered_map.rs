//! A map from text keys to values that keeps its entries in the order in
//! which their keys first came.

use crate::codec::{decoder, Codec};
use crate::error::{in_key, result_view, Error, ErrorView, Expected};
use crate::json::{Json, JsonView};
use crate::object::{entries_of, find, index_of, lemma_index_of, lookup, object, position};
use vstd::prelude::*;

verus! {

/// Entries in insertion order. In a well-formed map no key occurs twice.
#[derive(Clone, Debug, PartialEq)]
pub struct OrderedMap<T> {
    pub entries: Vec<(String, T)>,
}

impl<T: DeepView> DeepView for OrderedMap<T> {
    type V = Seq<(Seq<char>, T::V)>;

    open spec fn deep_view(&self) -> Seq<(Seq<char>, T::V)> {
        self.entries.deep_view()
    }
}

impl<T: DeepView> Default for OrderedMap<T> {
    /// A map without entries.
    fn default() -> (m: Self)
        ensures
            m.deep_view() == Seq::<(Seq<char>, T::V)>::empty(),
    {
        OrderedMap::new()
    }
}

/// No key occurs twice.
pub open spec fn distinct_keys<V>(m: Seq<(Seq<char>, V)>) -> bool {
    forall|i: int, j: int| 0 <= i < j < m.len() ==> (#[trigger] m[i]).0 != (#[trigger] m[j]).0
}

/// The map after `key` was given `value`: in the place of the key where the
/// map holds it already, at the end where it does not.
pub open spec fn inserted<V>(m: Seq<(Seq<char>, V)>, key: Seq<char>, value: V) -> Seq<
    (Seq<char>, V),
> {
    match index_of(m, key) {
        Some(i) => m.update(i, (key, value)),
        None => m.push((key, value)),
    }
}

/// Inserting keeps the keys distinct.
pub proof fn lemma_inserted_distinct<V>(m: Seq<(Seq<char>, V)>, key: Seq<char>, value: V)
    requires
        distinct_keys(m),
    ensures
        distinct_keys(inserted(m, key, value)),
{
    lemma_index_of(m, key);
}

/// The map that the entries of an object stand for, each value read by
/// `dec`: the entries inserted one after the other, or the failure of the
/// first value that fails, under its key.
pub open spec fn map_from_json_with<V>(
    entries: Seq<(Seq<char>, JsonView)>,
    dec: spec_fn(JsonView) -> Result<V, ErrorView>,
) -> Result<Seq<(Seq<char>, V)>, ErrorView>
    decreases entries.len(),
{
    if entries.len() == 0 {
        Ok(Seq::empty())
    } else {
        match map_from_json_with(entries.drop_last(), dec) {
            Err(e) => Err(e),
            Ok(front) => match dec(entries.last().1) {
                Err(e) => Err(e.at_key(entries.last().0)),
                Ok(x) => Ok(inserted(front, entries.last().0, x)),
            },
        }
    }
}

/// Reading an object one entry further.
pub proof fn lemma_map_step<V>(
    entries: Seq<(Seq<char>, JsonView)>,
    dec: spec_fn(JsonView) -> Result<V, ErrorView>,
    n: int,
)
    requires
        0 <= n < entries.len(),
    ensures
        map_from_json_with(entries.take(n + 1), dec) == match map_from_json_with(
            entries.take(n),
            dec,
        ) {
            Err(e) => Err(e),
            Ok(front) => match dec(entries[n].1) {
                Err(e) => Err(e.at_key(entries[n].0)),
                Ok(x) => Ok(inserted(front, entries[n].0, x)),
            },
        },
{
    assert(entries.take(n + 1).drop_last() =~= entries.take(n));
}

/// A failure among the first `n` entries is the failure of the whole object.
pub proof fn lemma_map_failure<V>(
    entries: Seq<(Seq<char>, JsonView)>,
    dec: spec_fn(JsonView) -> Result<V, ErrorView>,
    n: int,
)
    requires
        0 <= n <= entries.len(),
        map_from_json_with(entries.take(n), dec) is Err,
    ensures
        map_from_json_with(entries, dec) == map_from_json_with(entries.take(n), dec),
    decreases entries.len() - n,
{
    if n < entries.len() {
        lemma_map_step(entries, dec, n);
        lemma_map_failure(entries, dec, n + 1);
    } else {
        assert(entries.take(n) =~= entries);
    }
}

/// A map that was read holds no key twice.
pub proof fn lemma_map_distinct<V>(
    entries: Seq<(Seq<char>, JsonView)>,
    dec: spec_fn(JsonView) -> Result<V, ErrorView>,
)
    ensures
        map_from_json_with(entries, dec) matches Ok(m) ==> distinct_keys(m),
    decreases entries.len(),
{
    if entries.len() > 0 {
        lemma_map_distinct(entries.drop_last(), dec);
        if let Ok(front) = map_from_json_with(entries.drop_last(), dec) {
            if let Ok(x) = dec(entries.last().1) {
                lemma_inserted_distinct(front, entries.last().0, x);
            }
        }
    }
}

/// What holds of every value that `dec` reads holds of every value of a map
/// that was read with it.
pub proof fn lemma_map_all<V>(
    entries: Seq<(Seq<char>, JsonView)>,
    dec: spec_fn(JsonView) -> Result<V, ErrorView>,
    holds: spec_fn(V) -> bool,
)
    requires
        forall|j: JsonView| (#[trigger] dec(j)) matches Ok(x) ==> holds(x),
    ensures
        map_from_json_with(entries, dec) matches Ok(m) ==> forall|i: int|
            0 <= i < m.len() ==> holds((#[trigger] m[i]).1),
    decreases entries.len(),
{
    if entries.len() > 0 {
        lemma_map_all(entries.drop_last(), dec, holds);
        if let Ok(front) = map_from_json_with(entries.drop_last(), dec) {
            lemma_index_of(front, entries.last().0);
        }
    }
}

/// The entries of the JSON form of a map: one for each of its own, in order.
pub open spec fn map_to_json<T: Codec>(m: Seq<(Seq<char>, T::V)>) -> Seq<(Seq<char>, JsonView)> {
    Seq::new(m.len(), |i: int| (m[i].0, T::to_json(m[i].1)))
}

/// No key occurs twice and every value is valid.
pub open spec fn map_valid<T: Codec>(m: Seq<(Seq<char>, T::V)>) -> bool {
    &&& distinct_keys(m)
    &&& forall|i: int| 0 <= i < m.len() ==> T::valid((#[trigger] m[i]).1)
}

/// Reading back a written map that is valid gives the map.
pub proof fn lemma_map_round_trip<T: Codec>(m: Seq<(Seq<char>, T::V)>)
    requires
        map_valid::<T>(m),
    ensures
        map_from_json_with(map_to_json::<T>(m), decoder::<T>()) == Ok::<
            Seq<(Seq<char>, T::V)>,
            ErrorView,
        >(m),
    decreases m.len(),
{
    if m.len() > 0 {
        let front = m.drop_last();
        assert(forall|i: int| 0 <= i < front.len() ==> front[i] == m[i]);
        lemma_map_round_trip::<T>(front);
        assert(map_to_json::<T>(m).drop_last() =~= map_to_json::<T>(front));
        T::lemma_round_trip(m.last().1);
        lemma_index_of(front, m.last().0);
        assert(front.push(m.last()) =~= m);
    } else {
        assert(m =~= Seq::empty());
    }
}

/// A map field, written unless the map is empty.
pub open spec fn if_entries<T: Codec>(m: Seq<(Seq<char>, T::V)>) -> Option<JsonView> {
    if m.len() == 0 {
        None
    } else {
        Some(<OrderedMap<T> as Codec>::to_json(m))
    }
}

impl<T: DeepView> OrderedMap<T> {
    /// No key occurs twice.
    pub open spec fn wf(&self) -> bool {
        distinct_keys(self.deep_view())
    }

    /// A map without entries.
    pub fn new() -> (m: Self)
        ensures
            m.deep_view() == Seq::<(Seq<char>, T::V)>::empty(),
            m.wf(),
    {
        let m = OrderedMap { entries: Vec::new() };
        assert(m.deep_view() =~= Seq::empty());
        m
    }

    /// The number of entries.
    pub fn len(&self) -> (n: usize)
        ensures
            n == self.deep_view().len(),
    {
        self.entries.len()
    }

    /// Whether the map has no entry.
    pub fn is_empty(&self) -> (b: bool)
        ensures
            b == (self.deep_view().len() == 0),
    {
        self.entries.len() == 0
    }

    /// The value under `key`.
    pub fn get(&self, key: &str) -> (r: Option<&T>)
        ensures
            match r {
                Some(v) => lookup(self.deep_view(), key@) == Some(v.deep_view()),
                None => lookup(self.deep_view(), key@) is None,
            },
    {
        find(&self.entries, key)
    }

    /// Whether the map holds `key`.
    pub fn contains_key(&self, key: &str) -> (b: bool)
        ensures
            b == lookup(self.deep_view(), key@).is_some(),
    {
        let found = find(&self.entries, key);
        found.is_some()
    }

    /// Gives `key` the value `value`. A key that the map holds keeps its
    /// place; a new key goes to the end.
    pub fn insert(&mut self, key: String, value: T)
        ensures
            final(self).deep_view() == inserted(old(self).deep_view(), key@, value.deep_view()),
            old(self).wf() ==> final(self).wf(),
    {
        let ghost before = self.deep_view();
        proof {
            if distinct_keys(before) {
                lemma_inserted_distinct(before, key@, value.deep_view());
            }
        }
        match position(&self.entries, key.as_str()) {
            Some(i) => {
                self.entries.set(i, (key, value));
                assert(self.deep_view() =~= before.update(i as int, (key@, value.deep_view())));
            },
            None => {
                self.entries.push((key, value));
                assert(self.deep_view() =~= before.push((key@, value.deep_view())));
            },
        }
    }
}

/// A map, written as an object with one entry for each of its own.
impl<T: Codec> Codec for OrderedMap<T> {
    open spec fn to_json(m: Seq<(Seq<char>, T::V)>) -> JsonView {
        JsonView::Object(map_to_json::<T>(m))
    }

    open spec fn from_json(j: JsonView) -> Result<Seq<(Seq<char>, T::V)>, ErrorView> {
        match j {
            JsonView::Object(entries) => map_from_json_with(entries, decoder::<T>()),
            _ => Err(ErrorView::mismatch(Expected::Object, j.kind())),
        }
    }

    open spec fn valid(m: Seq<(Seq<char>, T::V)>) -> bool {
        map_valid::<T>(m)
    }

    proof fn lemma_round_trip(m: Seq<(Seq<char>, T::V)>) {
        lemma_map_round_trip::<T>(m);
    }

    fn encode(&self) -> (j: Json) {
        let mut out: Vec<(String, Json)> = Vec::new();
        let mut i: usize = 0;
        while i < self.entries.len()
            invariant
                i <= self.entries.len(),
                out.len() == i,
                forall|k: int|
                    0 <= k < i ==> (#[trigger] out[k]).0@ == self.entries[k].0@
                        && out[k].1.deep_view() == T::to_json(self.entries[k].1.deep_view()),
            decreases self.entries.len() - i,
        {
            out.push((self.entries[i].0.clone(), self.entries[i].1.encode()));
            i += 1;
        }
        assert(out.deep_view() =~= map_to_json::<T>(self.deep_view()));
        object(out)
    }

    fn decode(j: &Json) -> (r: Result<Self, Error>) {
        let entries = entries_of(j)?;
        let ghost views = entries.deep_view();
        let mut out: OrderedMap<T> = OrderedMap::new();
        let mut i: usize = 0;
        assert(views.take(0) =~= Seq::empty());
        while i < entries.len()
            invariant
                views == entries.deep_view(),
                j.deep_view() == JsonView::Object(views),
                i <= entries.len(),
                map_from_json_with(views.take(i as int), decoder::<T>()) == Ok::<
                    Seq<(Seq<char>, T::V)>,
                    ErrorView,
                >(out.deep_view()),
            decreases entries.len() - i,
        {
            proof {
                lemma_map_step(views, decoder::<T>(), i as int);
            }
            match in_key(T::decode(&entries[i].1), entries[i].0.as_str()) {
                Err(e) => {
                    proof {
                        lemma_map_failure(views, decoder::<T>(), i + 1);
                    }
                    return Err(e);
                },
                Ok(x) => {
                    out.insert(entries[i].0.clone(), x);
                },
            }
            i += 1;
        }
        assert(views.take(i as int) =~= views);
        Ok(out)
    }
}

/// Reads the map field `key`, empty where absent.
pub open spec fn entries_field<T: Codec>(
    entries: Seq<(Seq<char>, JsonView)>,
    key: Seq<char>,
) -> Result<Seq<(Seq<char>, T::V)>, ErrorView> {
    crate::object::read_defaulted(
        lookup(entries, key),
        key,
        decoder::<OrderedMap<T>>(),
        Seq::empty(),
    )
}

/// A map field that is valid reads back as it was.
pub proof fn lemma_read_if_entries<T: Codec>(m: Seq<(Seq<char>, T::V)>, key: Seq<char>)
    requires
        map_valid::<T>(m),
    ensures
        crate::object::read_defaulted(
            if_entries::<T>(m),
            key,
            decoder::<OrderedMap<T>>(),
            Seq::empty(),
        ) == Ok::<Seq<(Seq<char>, T::V)>, ErrorView>(m),
{
    reveal(crate::object::read_defaulted);
    if m.len() == 0 {
        assert(m =~= Seq::empty());
    } else {
        lemma_map_round_trip::<T>(m);
    }
}

/// Reads the map field `key`, empty where absent.
pub fn get_entries<T: Codec>(fields: &Vec<(String, Json)>, key: &str) -> (r: Result<
    OrderedMap<T>,
    Error,
>)
    ensures
        result_view(r) == entries_field::<T>(fields.deep_view(), key@),
{
    reveal(crate::object::read_defaulted);
    match find(fields, key) {
        None => Ok(OrderedMap::new()),
        Some(j) => in_key(OrderedMap::<T>::decode(j), key),
    }
}

/// The slot of a map field, written unless the map is empty.
pub fn slot_if_entries<T: Codec>(m: &OrderedMap<T>) -> (slot: Option<Json>)
    ensures
        slot.deep_view() == if_entries::<T>(m.deep_view()),
{
    if m.is_empty() {
        None
    } else {
        Some(m.encode())
    }
}

} // verus!
