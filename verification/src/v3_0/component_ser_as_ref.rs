//! The pointer that stands for a schema component: the component's bare
//! name behind a fixed prefix.

use crate::error::{Error, ErrorKind, ErrorKindView, ErrorView};
use crate::strings::{has_prefix, join, strip_prefix};
use vstd::prelude::*;

verus! {

/// The prefix of every pointer to a schema component of the same document.
pub const PATH_REF_PREFIX: &'static str = "#/components/schemas/";

/// The pointer to the component `name`.
pub open spec fn pointer_of(name: Seq<char>) -> Seq<char> {
    PATH_REF_PREFIX@ + name
}

/// The component that `pointer` names, or the failure where it does not
/// start with the prefix.
pub open spec fn name_of(pointer: Seq<char>) -> Result<Seq<char>, ErrorView> {
    if has_prefix(pointer, PATH_REF_PREFIX@) {
        Ok(pointer.subrange(PATH_REF_PREFIX@.len() as int, pointer.len() as int))
    } else {
        Err(ErrorView::here(ErrorKindView::InvalidReferenceFormat(pointer)))
    }
}

/// The name of a component is read back from its pointer.
pub proof fn lemma_name_of_pointer(name: Seq<char>)
    ensures
        name_of(pointer_of(name)) == Ok::<Seq<char>, ErrorView>(name),
{
    crate::strings::lemma_strip_join(PATH_REF_PREFIX@, name);
}

/// Writes the pointer to the component `component`.
pub fn serialize(component: &str) -> (pointer: String)
    ensures
        pointer@ == pointer_of(component@),
{
    join(PATH_REF_PREFIX, component)
}

/// Reads the name of a component from its pointer. Fails with
/// `InvalidReferenceFormat` unless the pointer starts with the prefix.
pub fn deserialize(pointer: &str) -> (r: Result<String, Error>)
    ensures
        crate::error::result_view(r) == name_of(pointer@),
{
    match strip_prefix(pointer, PATH_REF_PREFIX) {
        Some(name) => Ok(name),
        None => Err(Error::here(ErrorKind::InvalidReferenceFormat(pointer.to_owned()))),
    }
}

} // verus!
