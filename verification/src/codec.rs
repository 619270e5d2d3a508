//! The contract between a typed value and its JSON form, and the codecs of
//! the plain values that documents are built from.

use crate::error::{in_index, result_view, Error, ErrorView, Expected};
use crate::json::{lemma_array_view, Json, JsonView, Number, NumberView};
use vstd::prelude::*;

verus! {

/// A type that is written to JSON and read back from it.
///
/// `to_json` and `from_json` say, over views, what `encode` and `decode`
/// compute. `valid` holds of the values that survive the round trip
/// unchanged, which `lemma_round_trip` proves.
pub trait Codec: DeepView + Sized {
    /// The JSON form of a value.
    spec fn to_json(v: <Self as DeepView>::V) -> JsonView;

    /// The value that a JSON tree stands for, or why it stands for none.
    spec fn from_json(j: JsonView) -> Result<<Self as DeepView>::V, ErrorView>;

    /// The values that decoding gives back after encoding.
    spec fn valid(v: <Self as DeepView>::V) -> bool;

    /// Decoding the JSON form of a valid value gives the value back.
    proof fn lemma_round_trip(v: <Self as DeepView>::V)
        requires
            Self::valid(v),
        ensures
            Self::from_json(Self::to_json(v)) == Ok::<<Self as DeepView>::V, ErrorView>(v),
    ;

    /// Writes the value as JSON. Never fails.
    fn encode(&self) -> (j: Json)
        ensures
            j.deep_view() == Self::to_json(self.deep_view()),
    ;

    /// Reads a value from JSON.
    fn decode(j: &Json) -> (r: Result<Self, Error>)
        ensures
            result_view(r) == Self::from_json(j.deep_view()),
    ;
}

/// What is read from the JSON form of a valid value is written as that form
/// again: the form of a valid value is a fixed point of reading and writing.
pub proof fn lemma_canonical_form<T: Codec>(v: T::V)
    requires
        T::valid(v),
    ensures
        T::from_json(T::to_json(v)) matches Ok(w) && T::to_json(w) == T::to_json(v),
{
    T::lemma_round_trip(v);
}

/// `T::from_json` as a function value.
pub open spec fn decoder<T: Codec>() -> spec_fn(JsonView) -> Result<T::V, ErrorView> {
    |j: JsonView| T::from_json(j)
}

impl Codec for bool {
    open spec fn to_json(v: bool) -> JsonView {
        JsonView::Bool(v)
    }

    open spec fn from_json(j: JsonView) -> Result<bool, ErrorView> {
        match j {
            JsonView::Bool(b) => Ok(b),
            _ => Err(ErrorView::mismatch(Expected::Bool, j.kind())),
        }
    }

    open spec fn valid(v: bool) -> bool {
        true
    }

    proof fn lemma_round_trip(v: bool) {
    }

    fn encode(&self) -> (j: Json) {
        Json::Bool(*self)
    }

    fn decode(j: &Json) -> (r: Result<Self, Error>) {
        match j {
            Json::Bool(b) => Ok(*b),
            _ => Err(Error::mismatch(Expected::Bool, j.kind())),
        }
    }
}

impl Codec for usize {
    open spec fn to_json(v: usize) -> JsonView {
        JsonView::Number(NumberView::Unsigned(v as u64))
    }

    open spec fn from_json(j: JsonView) -> Result<usize, ErrorView> {
        match j {
            JsonView::Number(NumberView::Unsigned(n)) if n <= usize::MAX => Ok(n as usize),
            _ => Err(ErrorView::mismatch(Expected::Unsigned, j.kind())),
        }
    }

    open spec fn valid(v: usize) -> bool {
        true
    }

    proof fn lemma_round_trip(v: usize) {
    }

    fn encode(&self) -> (j: Json) {
        Json::Number(Number::Unsigned(*self as u64))
    }

    fn decode(j: &Json) -> (r: Result<Self, Error>) {
        match j {
            Json::Number(Number::Unsigned(n)) => {
                if *n <= usize::MAX as u64 {
                    Ok(*n as usize)
                } else {
                    Err(Error::mismatch(Expected::Unsigned, j.kind()))
                }
            },
            _ => Err(Error::mismatch(Expected::Unsigned, j.kind())),
        }
    }
}

impl Codec for String {
    open spec fn to_json(v: Seq<char>) -> JsonView {
        JsonView::String(v)
    }

    open spec fn from_json(j: JsonView) -> Result<Seq<char>, ErrorView> {
        match j {
            JsonView::String(s) => Ok(s),
            _ => Err(ErrorView::mismatch(Expected::String, j.kind())),
        }
    }

    open spec fn valid(v: Seq<char>) -> bool {
        true
    }

    proof fn lemma_round_trip(v: Seq<char>) {
    }

    fn encode(&self) -> (j: Json) {
        Json::String(self.clone())
    }

    fn decode(j: &Json) -> (r: Result<Self, Error>) {
        match j {
            Json::String(s) => Ok(s.clone()),
            _ => Err(Error::mismatch(Expected::String, j.kind())),
        }
    }
}

/// A JSON value kept as it is: every tree stands for itself.
impl Codec for Json {
    open spec fn to_json(v: JsonView) -> JsonView {
        v
    }

    open spec fn from_json(j: JsonView) -> Result<JsonView, ErrorView> {
        Ok(j)
    }

    open spec fn valid(v: JsonView) -> bool {
        true
    }

    proof fn lemma_round_trip(v: JsonView) {
    }

    fn encode(&self) -> (j: Json) {
        self.clone()
    }

    fn decode(j: &Json) -> (r: Result<Self, Error>) {
        Ok(j.clone())
    }
}

/// What a box holds, written as that value itself.
impl<T: Codec> Codec for Box<T> {
    open spec fn to_json(v: T::V) -> JsonView {
        T::to_json(v)
    }

    open spec fn from_json(j: JsonView) -> Result<T::V, ErrorView> {
        T::from_json(j)
    }

    open spec fn valid(v: T::V) -> bool {
        T::valid(v)
    }

    proof fn lemma_round_trip(v: T::V) {
        T::lemma_round_trip(v);
    }

    fn encode(&self) -> (j: Json) {
        let inner: &T = &**self;
        inner.encode()
    }

    fn decode(j: &Json) -> (r: Result<Self, Error>) {
        match T::decode(j) {
            Ok(v) => Ok(Box::new(v)),
            Err(e) => Err(e),
        }
    }
}

/// The values that the items of an array stand for, each read by `dec`; the
/// failure of the first item that fails, at its position.
pub open spec fn list_from_json_with<V>(
    items: Seq<JsonView>,
    dec: spec_fn(JsonView) -> Result<V, ErrorView>,
) -> Result<Seq<V>, ErrorView>
    decreases items.len(),
{
    if items.len() == 0 {
        Ok(Seq::empty())
    } else {
        match list_from_json_with(items.drop_last(), dec) {
            Err(e) => Err(e),
            Ok(front) => match dec(items.last()) {
                Err(e) => Err(e.at_index((items.len() - 1) as usize)),
                Ok(x) => Ok(front.push(x)),
            },
        }
    }
}

/// Reading an array one item further.
pub proof fn lemma_list_step<V>(
    items: Seq<JsonView>,
    dec: spec_fn(JsonView) -> Result<V, ErrorView>,
    n: int,
)
    requires
        0 <= n < items.len(),
    ensures
        list_from_json_with(items.take(n + 1), dec) == match list_from_json_with(
            items.take(n),
            dec,
        ) {
            Err(e) => Err(e),
            Ok(front) => match dec(items[n]) {
                Err(e) => Err(e.at_index(n as usize)),
                Ok(x) => Ok(front.push(x)),
            },
        },
{
    assert(items.take(n + 1).drop_last() =~= items.take(n));
}

/// A failure among the first `n` items is the failure of the whole array.
pub proof fn lemma_list_failure<V>(
    items: Seq<JsonView>,
    dec: spec_fn(JsonView) -> Result<V, ErrorView>,
    n: int,
)
    requires
        0 <= n <= items.len(),
        list_from_json_with(items.take(n), dec) is Err,
    ensures
        list_from_json_with(items, dec) == list_from_json_with(items.take(n), dec),
    decreases items.len() - n,
{
    if n < items.len() {
        lemma_list_step(items, dec, n);
        lemma_list_failure(items, dec, n + 1);
    } else {
        assert(items.take(n) =~= items);
    }
}

/// What holds of every value that `dec` reads holds of every item of a list
/// that was read with it.
pub proof fn lemma_list_all<V>(
    items: Seq<JsonView>,
    dec: spec_fn(JsonView) -> Result<V, ErrorView>,
    holds: spec_fn(V) -> bool,
)
    requires
        forall|j: JsonView| (#[trigger] dec(j)) matches Ok(x) ==> holds(x),
    ensures
        list_from_json_with(items, dec) matches Ok(v) ==> forall|i: int|
            0 <= i < v.len() ==> holds(#[trigger] v[i]),
    decreases items.len(),
{
    if items.len() > 0 {
        lemma_list_all(items.drop_last(), dec, holds);
    }
}

/// The JSON forms of the items of a list, in order.
pub open spec fn list_to_json<T: Codec>(v: Seq<T::V>) -> Seq<JsonView> {
    Seq::new(v.len(), |i: int| T::to_json(v[i]))
}

/// Every item of a list is valid.
pub open spec fn list_valid<T: Codec>(v: Seq<T::V>) -> bool {
    forall|i: int| 0 <= i < v.len() ==> T::valid(#[trigger] v[i])
}

/// Reading back a written list of valid items gives the list.
pub proof fn lemma_list_round_trip<T: Codec>(v: Seq<T::V>)
    requires
        list_valid::<T>(v),
    ensures
        list_from_json_with(list_to_json::<T>(v), decoder::<T>()) == Ok::<Seq<T::V>, ErrorView>(v),
    decreases v.len(),
{
    if v.len() > 0 {
        lemma_list_round_trip::<T>(v.drop_last());
        assert(list_to_json::<T>(v).drop_last() =~= list_to_json::<T>(v.drop_last()));
        T::lemma_round_trip(v.last());
        assert(v.drop_last().push(v.last()) =~= v);
    } else {
        assert(v =~= Seq::empty());
    }
}

/// A list, written as an array with one item for each of its own.
impl<T: Codec> Codec for Vec<T> {
    open spec fn to_json(v: Seq<T::V>) -> JsonView {
        JsonView::Array(list_to_json::<T>(v))
    }

    open spec fn from_json(j: JsonView) -> Result<Seq<T::V>, ErrorView> {
        match j {
            JsonView::Array(items) => list_from_json_with(items, decoder::<T>()),
            _ => Err(ErrorView::mismatch(Expected::Array, j.kind())),
        }
    }

    open spec fn valid(v: Seq<T::V>) -> bool {
        list_valid::<T>(v)
    }

    proof fn lemma_round_trip(v: Seq<T::V>) {
        lemma_list_round_trip::<T>(v);
    }

    fn encode(&self) -> (j: Json) {
        let mut out: Vec<Json> = Vec::new();
        let mut i: usize = 0;
        while i < self.len()
            invariant
                i <= self.len(),
                out.len() == i,
                forall|k: int| 0 <= k < i ==> out[k].deep_view() == T::to_json(self[k].deep_view()),
            decreases self.len() - i,
        {
            out.push(self[i].encode());
            i += 1;
        }
        proof {
            lemma_array_view(out);
            assert(out.deep_view() =~= list_to_json::<T>(self.deep_view()));
        }
        Json::Array(out)
    }

    fn decode(j: &Json) -> (r: Result<Self, Error>) {
        match j {
            Json::Array(items) => {
                proof {
                    lemma_array_view(*items);
                }
                let ghost views = items.deep_view();
                let mut out: Vec<T> = Vec::new();
                let mut i: usize = 0;
                assert(views.take(0) =~= Seq::empty());
                assert(out.deep_view() =~= Seq::empty());
                while i < items.len()
                    invariant
                        views == items.deep_view(),
                        j.deep_view() == JsonView::Array(views),
                        i <= items.len(),
                        list_from_json_with(views.take(i as int), decoder::<T>()) == Ok::<
                            Seq<T::V>,
                            ErrorView,
                        >(out.deep_view()),
                    decreases items.len() - i,
                {
                    proof {
                        lemma_list_step(views, decoder::<T>(), i as int);
                    }
                    match in_index(T::decode(&items[i]), i) {
                        Err(e) => {
                            proof {
                                lemma_list_failure(views, decoder::<T>(), i + 1);
                            }
                            return Err(e);
                        },
                        Ok(x) => {
                            let ghost before = out.deep_view();
                            out.push(x);
                            assert(out.deep_view() =~= before.push(x.deep_view()));
                        },
                    }
                    i += 1;
                }
                assert(views.take(i as int) =~= views);
                Ok(out)
            },
            _ => Err(Error::mismatch(Expected::Array, j.kind())),
        }
    }
}

} // verus!
