//! Why a document could not be decoded, and where in it.

use crate::json::JsonKind;
use vstd::prelude::*;

verus! {

/// What a decoder was prepared to read at the place where it failed.
#[derive(Clone, Copy, Debug, PartialEq, Eq)]
pub enum Expected {
    Bool,
    Unsigned,
    String,
    Array,
    Object,
    Url,
}

/// One step on the way from the root of a document to a value in it.
#[derive(Debug, PartialEq)]
pub enum Segment {
    /// The value under this key of an object.
    Key(String),
    /// The item at this position of an array.
    Index(usize),
}

/// View of a [`Segment`].
pub enum SegmentView {
    Key(Seq<char>),
    Index(usize),
}

/// The kinds of failure.
#[derive(Debug, PartialEq)]
pub enum ErrorKind {
    /// The text is not JSON at all.
    MalformedInput,
    /// A value has another shape than the one its place asks for. `field` is
    /// the key under which the value stands, empty for the root.
    TypeMismatch { field: String, expected: Expected, found: JsonKind },
    /// An untagged union whose keys select none of its variants.
    AmbiguousOrMissingVariant { candidates: Vec<Vec<String>>, keys_seen: Vec<String> },
    /// A pointer to a schema component that lacks the canonical prefix.
    InvalidReferenceFormat(String),
    /// A tag, or a word of a closed vocabulary, that is not in the set.
    UnknownDiscriminant(String),
    /// An object lacks a key that must be present.
    MissingRequiredField(String),
    /// Schemas are nested deeper than [`crate::v3_0::schema::MAX_SCHEMA_DEPTH`].
    DepthLimitExceeded,
}

/// View of an [`ErrorKind`].
pub enum ErrorKindView {
    MalformedInput,
    TypeMismatch { field: Seq<char>, expected: Expected, found: JsonKind },
    AmbiguousOrMissingVariant { candidates: Seq<Seq<Seq<char>>>, keys_seen: Seq<Seq<char>> },
    InvalidReferenceFormat(Seq<char>),
    UnknownDiscriminant(Seq<char>),
    MissingRequiredField(Seq<char>),
    DepthLimitExceeded,
}

/// A failure and the chain of keys and positions that leads to it, the
/// outermost first.
#[derive(Debug, PartialEq)]
pub struct Error {
    pub kind: ErrorKind,
    pub path: Vec<Segment>,
}

/// View of an [`Error`].
pub struct ErrorView {
    pub kind: ErrorKindView,
    pub path: Seq<SegmentView>,
}

impl DeepView for Segment {
    type V = SegmentView;

    open spec fn deep_view(&self) -> SegmentView {
        match self {
            Segment::Key(k) => SegmentView::Key(k@),
            Segment::Index(i) => SegmentView::Index(*i),
        }
    }
}

impl DeepView for ErrorKind {
    type V = ErrorKindView;

    open spec fn deep_view(&self) -> ErrorKindView {
        match self {
            ErrorKind::MalformedInput => ErrorKindView::MalformedInput,
            ErrorKind::TypeMismatch { field, expected, found } => ErrorKindView::TypeMismatch {
                field: field@,
                expected: *expected,
                found: *found,
            },
            ErrorKind::AmbiguousOrMissingVariant {
                candidates,
                keys_seen,
            } => ErrorKindView::AmbiguousOrMissingVariant {
                candidates: candidates.deep_view(),
                keys_seen: keys_seen.deep_view(),
            },
            ErrorKind::InvalidReferenceFormat(s) => ErrorKindView::InvalidReferenceFormat(s@),
            ErrorKind::UnknownDiscriminant(s) => ErrorKindView::UnknownDiscriminant(s@),
            ErrorKind::MissingRequiredField(s) => ErrorKindView::MissingRequiredField(s@),
            ErrorKind::DepthLimitExceeded => ErrorKindView::DepthLimitExceeded,
        }
    }
}

impl DeepView for Error {
    type V = ErrorView;

    open spec fn deep_view(&self) -> ErrorView {
        ErrorView { kind: self.kind.deep_view(), path: self.path.deep_view() }
    }
}

impl ErrorView {
    /// A failure at the very place where decoding stands.
    pub open spec fn here(kind: ErrorKindView) -> ErrorView {
        ErrorView { kind, path: Seq::empty() }
    }

    /// A value of the wrong shape.
    pub open spec fn mismatch(expected: Expected, found: JsonKind) -> ErrorView {
        ErrorView::here(ErrorKindView::TypeMismatch { field: Seq::empty(), expected, found })
    }

    /// A key that must be present and is not.
    pub open spec fn missing(field: Seq<char>) -> ErrorView {
        ErrorView::here(ErrorKindView::MissingRequiredField(field))
    }

    /// The same failure seen from the object that holds the failing value
    /// under `key`. A shape mismatch that names no field yet is given `key`.
    pub open spec fn at_key(self, key: Seq<char>) -> ErrorView {
        ErrorView {
            kind: match self.kind {
                ErrorKindView::TypeMismatch { field, expected, found } if field.len() == 0 => {
                    ErrorKindView::TypeMismatch { field: key, expected, found }
                },
                kind => kind,
            },
            path: seq![SegmentView::Key(key)] + self.path,
        }
    }

    /// The same failure seen from the array that holds the failing value at
    /// `index`.
    pub open spec fn at_index(self, index: usize) -> ErrorView {
        ErrorView { kind: self.kind, path: seq![SegmentView::Index(index)] + self.path }
    }
}

/// The view of a decoding result: of the value or of the failure.
pub open spec fn result_view<T: DeepView>(r: Result<T, Error>) -> Result<T::V, ErrorView> {
    match r {
        Ok(v) => Ok(v.deep_view()),
        Err(e) => Err(e.deep_view()),
    }
}

/// A result seen from the object that holds the decoded value under `key`.
pub open spec fn under_key<V>(r: Result<V, ErrorView>, key: Seq<char>) -> Result<V, ErrorView> {
    match r {
        Ok(v) => Ok(v),
        Err(e) => Err(e.at_key(key)),
    }
}

/// A result seen from the array that holds the decoded value at `index`.
pub open spec fn under_index<V>(r: Result<V, ErrorView>, index: usize) -> Result<V, ErrorView> {
    match r {
        Ok(v) => Ok(v),
        Err(e) => Err(e.at_index(index)),
    }
}

impl Error {
    /// A failure at the very place where decoding stands.
    pub fn here(kind: ErrorKind) -> (e: Error)
        ensures
            e.deep_view() == ErrorView::here(kind.deep_view()),
    {
        let e = Error { kind, path: Vec::new() };
        assert(e.path.deep_view() =~= Seq::empty());
        e
    }

    /// A value of the wrong shape.
    pub fn mismatch(expected: Expected, found: JsonKind) -> (e: Error)
        ensures
            e.deep_view() == ErrorView::mismatch(expected, found),
    {
        Error::here(ErrorKind::TypeMismatch { field: String::new(), expected, found })
    }

    /// A key that must be present and is not.
    pub fn missing(field: &str) -> (e: Error)
        ensures
            e.deep_view() == ErrorView::missing(field@),
    {
        Error::here(ErrorKind::MissingRequiredField(field.to_owned()))
    }

    /// The same failure seen from the object that holds the failing value
    /// under `key`.
    pub fn at_key(self, key: &str) -> (e: Error)
        ensures
            e.deep_view() == self.deep_view().at_key(key@),
    {
        let Error { kind, path } = self;
        let mut path = path;
        let ghost before = path.deep_view();
        path.insert(0, Segment::Key(key.to_owned()));
        assert(path.deep_view() =~= seq![SegmentView::Key(key@)] + before);
        let kind = match kind {
            ErrorKind::TypeMismatch { field, expected, found } => {
                if field.as_str().unicode_len() == 0 {
                    ErrorKind::TypeMismatch { field: key.to_owned(), expected, found }
                } else {
                    ErrorKind::TypeMismatch { field, expected, found }
                }
            },
            kind => kind,
        };
        Error { kind, path }
    }

    /// The same failure seen from the array that holds the failing value at
    /// `index`.
    pub fn at_index(self, index: usize) -> (e: Error)
        ensures
            e.deep_view() == self.deep_view().at_index(index),
    {
        let Error { kind, path } = self;
        let mut path = path;
        let ghost before = path.deep_view();
        path.insert(0, Segment::Index(index));
        assert(path.deep_view() =~= seq![SegmentView::Index(index)] + before);
        Error { kind, path }
    }
}

/// A result seen from the object that holds the decoded value under `key`.
pub fn in_key<T: DeepView>(r: Result<T, Error>, key: &str) -> (out: Result<T, Error>)
    ensures
        result_view(out) == under_key(result_view(r), key@),
{
    match r {
        Ok(v) => Ok(v),
        Err(e) => Err(e.at_key(key)),
    }
}

/// A result seen from the array that holds the decoded value at `index`.
pub fn in_index<T: DeepView>(r: Result<T, Error>, index: usize) -> (out: Result<T, Error>)
    ensures
        result_view(out) == under_index(result_view(r), index),
{
    match r {
        Ok(v) => Ok(v),
        Err(e) => Err(e.at_index(index)),
    }
}

} // verus!
