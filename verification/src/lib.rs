//! A typed model of OpenAPI documents that is written to JSON and read back
//! from it, with the contract of every conversion stated and proved.
//!
//! The core is the indirection layer: any nested position of a document holds
//! either a definition in place or a pointer to a reusable component. A
//! decoder looks for the pointer first and only then commits to a shape.

pub mod address;
pub mod codec;
pub mod error;
pub mod json;
pub mod object;
pub mod ordered_map;
pub mod strings;
pub mod text;
pub mod v3_0;
pub mod variant;

pub use error::Error;

use crate::codec::Codec;
use crate::error::{result_view, ErrorView};
use crate::json::{Json, JsonView};
use crate::text::{from_text, to_text};
use crate::v3_0::document::SpecView;
use crate::v3_0::Spec;
use vstd::prelude::*;

verus! {

/// A document in one of the supported versions of the format.
#[derive(Clone, Debug, PartialEq)]
pub enum OpenApi {
    /// Version 3.0 of the format.
    #[allow(non_camel_case_types)]
    V3_0(Spec),
}

/// View of an [`OpenApi`].
pub enum OpenApiView {
    #[allow(non_camel_case_types)]
    V3_0(SpecView),
}

impl DeepView for OpenApi {
    type V = OpenApiView;

    open spec fn deep_view(&self) -> OpenApiView {
        match self {
            OpenApi::V3_0(spec) => OpenApiView::V3_0(spec.deep_view()),
        }
    }
}

/// A document, written as the document of its version and nothing around it.
impl Codec for OpenApi {
    open spec fn to_json(v: OpenApiView) -> JsonView {
        match v {
            OpenApiView::V3_0(spec) => Spec::to_json(spec),
        }
    }

    open spec fn from_json(j: JsonView) -> Result<OpenApiView, ErrorView> {
        match Spec::from_json(j) {
            Ok(spec) => Ok(OpenApiView::V3_0(spec)),
            Err(e) => Err(e),
        }
    }

    open spec fn valid(v: OpenApiView) -> bool {
        match v {
            OpenApiView::V3_0(spec) => Spec::valid(spec),
        }
    }

    proof fn lemma_round_trip(v: OpenApiView) {
        match v {
            OpenApiView::V3_0(spec) => {
                Spec::lemma_round_trip(spec);
            },
        }
    }

    fn encode(&self) -> (j: Json) {
        match self {
            OpenApi::V3_0(spec) => spec.encode(),
        }
    }

    fn decode(j: &Json) -> (r: Result<Self, Error>) {
        match Spec::decode(j) {
            Ok(spec) => Ok(OpenApi::V3_0(spec)),
            Err(e) => Err(e),
        }
    }
}

/// Reads a document from JSON text. Decoding is all or nothing: the first
/// failure, with the chain of keys that leads to it, is the result.
pub fn decode(text: &str) -> (r: Result<OpenApi, Error>)
    ensures
        result_view(r) == from_text::<OpenApi>(text@),
{
    crate::text::parse::<OpenApi>(text)
}

/// Writes a document as compact JSON text. Never fails.
pub fn encode(doc: &OpenApi) -> (text: String)
    ensures
        text@ == to_text::<OpenApi>(doc.deep_view()),
{
    crate::text::print(doc)
}

} // verus!
