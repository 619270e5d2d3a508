//! URLs, kept in the canonical spelling that the `url` crate gives them.

use crate::codec::Codec;
use crate::error::{Error, ErrorView, Expected};
use crate::json::{Json, JsonView};
use vstd::prelude::*;

verus! {

/// What `url::Url::parse` makes of a text: the serialization of the URL that
/// it returns, or `None` where it refuses the text.
pub uninterp spec fn parsed_url(text: Seq<char>) -> Option<Seq<char>>;

/// Calls `url::Url::parse` and hands back the serialization of the URL, the
/// text behind `Url::as_str`, or `None` where the parser returns an error.
/// The contract gives that result its name and claims nothing else of it.
#[verifier::external_body]
fn canonical_url(text: &str) -> (r: Option<String>)
    ensures
        r.deep_view() == parsed_url(text@),
{
    match ::url::Url::parse(text) {
        Ok(parsed) => Some(String::from(parsed)),
        Err(_) => None,
    }
}

/// An absolute URL in its canonical spelling.
#[derive(Clone, Debug, PartialEq, Eq)]
pub struct Url {
    serialization: String,
}

impl DeepView for Url {
    type V = Seq<char>;

    closed spec fn deep_view(&self) -> Seq<char> {
        self.serialization@
    }
}

impl Url {
    /// Parses an absolute URL. `None` where the text is none.
    pub fn parse(text: &str) -> (r: Option<Url>)
        ensures
            r.deep_view() == parsed_url(text@),
    {
        match canonical_url(text) {
            Some(serialization) => Some(Url { serialization }),
            None => None,
        }
    }

    /// The canonical spelling.
    pub fn as_str(&self) -> (text: &str)
        ensures
            text@ == self.deep_view(),
    {
        self.serialization.as_str()
    }
}

/// A URL, written as a string and parsed when read.
impl Codec for Url {
    open spec fn to_json(v: Seq<char>) -> JsonView {
        JsonView::String(v)
    }

    open spec fn from_json(j: JsonView) -> Result<Seq<char>, ErrorView> {
        match j {
            JsonView::String(text) => match parsed_url(text) {
                Some(canonical) => Ok(canonical),
                None => Err(ErrorView::mismatch(Expected::Url, j.kind())),
            },
            _ => Err(ErrorView::mismatch(Expected::Url, j.kind())),
        }
    }

    /// A spelling that the parser leaves as it is.
    open spec fn valid(v: Seq<char>) -> bool {
        parsed_url(v) == Some(v)
    }

    proof fn lemma_round_trip(v: Seq<char>) {
    }

    fn encode(&self) -> (j: Json) {
        Json::String(self.serialization.clone())
    }

    fn decode(j: &Json) -> (r: Result<Self, Error>) {
        match j {
            Json::String(text) => match Url::parse(text.as_str()) {
                Some(url) => Ok(url),
                None => Err(Error::mismatch(Expected::Url, j.kind())),
            },
            _ => Err(Error::mismatch(Expected::Url, j.kind())),
        }
    }
}

} // verus!
