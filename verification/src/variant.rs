//! Choosing the variant of a union that carries no tag: the first variant,
//! in the order of declaration, whose required keys are all present.

use crate::error::{Error, ErrorKind, ErrorKindView, ErrorView};
use crate::json::{Json, JsonView};
use crate::object::{find, lookup};
use vstd::prelude::*;

verus! {

/// Every key of `required` is the key of an entry.
pub open spec fn has_all(entries: Seq<(Seq<char>, JsonView)>, required: Seq<Seq<char>>) -> bool {
    forall|i: int| 0 <= i < required.len() ==> lookup(entries, #[trigger] required[i]) is Some
}

/// The first candidate all of whose keys are present.
pub open spec fn select(
    entries: Seq<(Seq<char>, JsonView)>,
    candidates: Seq<Seq<Seq<char>>>,
) -> Option<int>
    decreases candidates.len(),
{
    if candidates.len() == 0 {
        None
    } else {
        match select(entries, candidates.drop_last()) {
            Some(i) => Some(i),
            None => if has_all(entries, candidates.last()) {
                Some(candidates.len() - 1)
            } else {
                None
            },
        }
    }
}

/// The keys of the entries, in order.
pub open spec fn keys_of(entries: Seq<(Seq<char>, JsonView)>) -> Seq<Seq<char>> {
    Seq::new(entries.len(), |i: int| entries[i].0)
}

/// The failure of keys that select no variant: it names the candidates and
/// the keys that were seen.
pub open spec fn resolve_failure<V>(
    entries: Seq<(Seq<char>, JsonView)>,
    candidates: Seq<Seq<Seq<char>>>,
) -> Result<V, ErrorView> {
    Err(
        ErrorView::here(
            ErrorKindView::AmbiguousOrMissingVariant { candidates, keys_seen: keys_of(entries) },
        ),
    )
}

/// The variant that the keys select, or the failure where they select none.
pub open spec fn resolve(
    entries: Seq<(Seq<char>, JsonView)>,
    candidates: Seq<Seq<Seq<char>>>,
) -> Result<int, ErrorView> {
    match select(entries, candidates) {
        Some(i) => Ok(i),
        None => resolve_failure(entries, candidates),
    }
}

/// `select` gives the least position whose keys are all present, and `None`
/// only where no candidate has all of its keys present.
pub proof fn lemma_select(entries: Seq<(Seq<char>, JsonView)>, candidates: Seq<Seq<Seq<char>>>)
    ensures
        match select(entries, candidates) {
            Some(i) => {
                &&& 0 <= i < candidates.len()
                &&& has_all(entries, candidates[i])
                &&& forall|k: int| 0 <= k < i ==> !has_all(entries, #[trigger] candidates[k])
            },
            None => forall|k: int|
                0 <= k < candidates.len() ==> !has_all(entries, #[trigger] candidates[k]),
        },
    decreases candidates.len(),
{
    if candidates.len() > 0 {
        lemma_select(entries, candidates.drop_last());
        assert(forall|k: int|
            0 <= k < candidates.len() - 1 ==> candidates.drop_last()[k]
                == #[trigger] candidates[k]);
    }
}

/// Whether every key of `required` is the key of an entry.
pub fn holds_all(entries: &Vec<(String, Json)>, required: &Vec<String>) -> (r: bool)
    ensures
        r == has_all(entries.deep_view(), required.deep_view()),
{
    let mut i: usize = 0;
    while i < required.len()
        invariant
            i <= required.len(),
            forall|k: int|
                0 <= k < i ==> lookup(entries.deep_view(), #[trigger] required.deep_view()[k])
                    is Some,
        decreases required.len() - i,
    {
        let found = find(entries, required[i].as_str());
        if found.is_none() {
            assert(lookup(entries.deep_view(), required.deep_view()[i as int]) is None);
            return false;
        }
        i += 1;
    }
    true
}

/// The first candidate all of whose keys are present.
pub fn select_variant(entries: &Vec<(String, Json)>, candidates: &Vec<Vec<String>>) -> (r: Option<
    usize,
>)
    ensures
        match r {
            Some(i) => select(entries.deep_view(), candidates.deep_view()) == Some(i as int)
                && i < candidates.len(),
            None => select(entries.deep_view(), candidates.deep_view()) is None,
        },
{
    let ghost all = candidates.deep_view();
    let mut i: usize = 0;
    assert(all.take(0) =~= Seq::empty());
    while i < candidates.len()
        invariant
            all == candidates.deep_view(),
            i <= candidates.len(),
            select(entries.deep_view(), all.take(i as int)) is None,
        decreases candidates.len() - i,
    {
        assert(all.take(i + 1).drop_last() =~= all.take(i as int));
        if holds_all(entries, &candidates[i]) {
            proof {
                lemma_select(entries.deep_view(), all.take(i + 1));
                lemma_select(entries.deep_view(), all);
                assert(forall|k: int| 0 <= k <= i ==> all.take(i + 1)[k] == #[trigger] all[k]);
            }
            return Some(i);
        }
        i += 1;
    }
    assert(all.take(i as int) =~= all);
    None
}

/// The keys of the entries, in order.
pub fn keys(entries: &Vec<(String, Json)>) -> (r: Vec<String>)
    ensures
        r.deep_view() == keys_of(entries.deep_view()),
{
    let mut out: Vec<String> = Vec::new();
    let mut i: usize = 0;
    while i < entries.len()
        invariant
            i <= entries.len(),
            out.len() == i,
            forall|k: int| 0 <= k < i ==> (#[trigger] out[k])@ == entries[k].0@,
        decreases entries.len() - i,
    {
        out.push(entries[i].0.clone());
        i += 1;
    }
    assert(out.deep_view() =~= keys_of(entries.deep_view()));
    out
}

/// The variant that the keys select. Fails with `AmbiguousOrMissingVariant`,
/// which names the candidates and the keys that were seen, where they select
/// none.
pub fn resolve_variant(entries: &Vec<(String, Json)>, candidates: Vec<Vec<String>>) -> (r: Result<
    usize,
    Error,
>)
    ensures
        match r {
            Ok(i) => resolve(entries.deep_view(), candidates.deep_view()) == Ok::<int, ErrorView>(
                i as int,
            ) && i < candidates.len(),
            Err(e) => resolve(entries.deep_view(), candidates.deep_view()) == Err::<
                int,
                ErrorView,
            >(e.deep_view()),
        },
{
    match select_variant(entries, &candidates) {
        Some(i) => Ok(i),
        None => Err(no_variant(entries, candidates)),
    }
}

/// The failure of keys that select no variant.
pub fn no_variant(entries: &Vec<(String, Json)>, candidates: Vec<Vec<String>>) -> (e: Error)
    ensures
        Err::<int, ErrorView>(e.deep_view()) == resolve_failure::<int>(
            entries.deep_view(),
            candidates.deep_view(),
        ),
{
    Error::here(ErrorKind::AmbiguousOrMissingVariant { candidates, keys_seen: keys(entries) })
}

/// A free-form value that may be unset, written as `null` where it is.
pub fn nullable(v: &Option<Json>) -> (j: Json)
    ensures
        j.deep_view() == match v.deep_view() {
            Some(x) => x,
            None => JsonView::Null,
        },
{
    match v {
        Some(x) => x.clone(),
        None => Json::Null,
    }
}

/// A free-form value that may be unset and is always written reads back as
/// it was, unless it was set to `null`.
pub proof fn lemma_read_nullable(v: Option<JsonView>, key: Seq<char>)
    requires
        v != Some(JsonView::Null),
    ensures
        crate::object::read_optional(
            Some(
                match v {
                    Some(x) => x,
                    None => JsonView::Null,
                },
            ),
            key,
            crate::codec::decoder::<Json>(),
        ) == Ok::<Option<JsonView>, ErrorView>(v),
{
    reveal(crate::object::read_optional);
}

/// One candidate with one required key.
pub fn one_key(key: &str) -> (r: Vec<String>)
    ensures
        r.deep_view() == seq![key@],
{
    let mut out: Vec<String> = Vec::new();
    out.push(key.to_owned());
    assert(out.deep_view() =~= seq![key@]);
    out
}

/// Two candidates with one required key each, in the order of declaration.
pub fn two_keys(first: &str, second: &str) -> (r: Vec<Vec<String>>)
    ensures
        r.deep_view() == seq![seq![first@], seq![second@]],
{
    let mut out: Vec<Vec<String>> = Vec::new();
    out.push(one_key(first));
    out.push(one_key(second));
    assert(out.deep_view() =~= seq![seq![first@], seq![second@]]);
    out
}

/// Among two candidates with one key each the first is selected where its
/// key is present, the second where only its own key is, none otherwise.
pub proof fn lemma_select_two(
    entries: Seq<(Seq<char>, JsonView)>,
    first: Seq<char>,
    second: Seq<char>,
)
    ensures
        select(entries, seq![seq![first], seq![second]]) == if lookup(entries, first) is Some {
            Some(0int)
        } else if lookup(entries, second) is Some {
            Some(1int)
        } else {
            None
        },
{
    let candidates = seq![seq![first], seq![second]];
    lemma_select(entries, candidates);
    assert(candidates[0][0] == first);
    assert(candidates[1][0] == second);
    if lookup(entries, first) is Some {
        assert(has_all(entries, candidates[0]));
    }
    if lookup(entries, second) is Some {
        assert(has_all(entries, candidates[1]));
    }
}

} // verus!
