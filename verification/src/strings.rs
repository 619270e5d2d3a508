//! Comparisons and slicing on strings, stated over their characters.

use vstd::prelude::*;
use vstd::string::StringSliceAdditionalSpecFns;
use vstd::utf8::encode_utf8_decode_utf8;

verus! {

/// Whether `prefix` is an initial part of `text`.
pub open spec fn has_prefix(text: Seq<char>, prefix: Seq<char>) -> bool {
    prefix.len() <= text.len() && text.subrange(0, prefix.len() as int) == prefix
}

/// Holds of every value. Its use is to name a term.
pub closed spec fn noted<A>(a: A) -> bool {
    true
}

/// Names the length of a text and its first characters, so that two string
/// literals that were revealed are told apart by where they differ.
pub proof fn lemma_spell(s: Seq<char>)
    ensures
        noted(s.len()),
        noted(s[0]),
        noted(s[1]),
        noted(s[2]),
        noted(s[3]),
        noted(s[4]),
        noted(s[5]),
        noted(s[6]),
        noted(s[7]),
        noted(s[8]),
        noted(s[9]),
        noted(s[10]),
        noted(s[11]),
        noted(s[12]),
        noted(s[13]),
        noted(s[14]),
        noted(s[15]),
        noted(s[16]),
        noted(s[17]),
        noted(s[18]),
        noted(s[19]),
{
}

/// Whether two strings hold the same characters.
pub fn same_text(a: &str, b: &str) -> (r: bool)
    ensures
        r == (a@ == b@),
{
    let x = a.as_bytes();
    let y = b.as_bytes();
    proof {
        encode_utf8_decode_utf8(a@);
        encode_utf8_decode_utf8(b@);
    }
    if x.len() != y.len() {
        return false;
    }
    let mut i: usize = 0;
    while i < x.len()
        invariant
            i <= x.len(),
            x.len() == y.len(),
            x@ == a.spec_bytes(),
            y@ == b.spec_bytes(),
            forall|k: int| 0 <= k < i ==> x@[k] == y@[k],
        decreases x.len() - i,
    {
        if x[i] != y[i] {
            return false;
        }
        i += 1;
    }
    assert(x@ =~= y@);
    true
}

/// The part of `text` after `prefix`, or `None` where `text` does not start with it.
pub fn strip_prefix(text: &str, prefix: &str) -> (r: Option<String>)
    ensures
        r is Some == has_prefix(text@, prefix@),
        r matches Some(rest) ==> rest@ == text@.subrange(prefix@.len() as int, text@.len() as int),
{
    let n = text.unicode_len();
    let p = prefix.unicode_len();
    if p > n {
        return None;
    }
    let head = text.substring_char(0, p);
    if !same_text(head, prefix) {
        return None;
    }
    Some(text.substring_char(p, n).to_owned())
}

/// `prefix` followed by `rest`.
pub fn join(prefix: &str, rest: &str) -> (r: String)
    ensures
        r@ == prefix@ + rest@,
{
    prefix.to_owned().concat(rest)
}

/// Stripping a prefix that was joined on gives back what followed it.
pub proof fn lemma_strip_join(prefix: Seq<char>, rest: Seq<char>)
    ensures
        has_prefix(prefix + rest, prefix),
        (prefix + rest).subrange(prefix.len() as int, (prefix + rest).len() as int) == rest,
{
    assert((prefix + rest).subrange(0, prefix.len() as int) =~= prefix);
    assert((prefix + rest).subrange(prefix.len() as int, (prefix + rest).len() as int) =~= rest);
}

} // verus!
