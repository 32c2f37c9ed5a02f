//! Byte vectors as a model file stores them: the data of a buffer, the
//! payload of a custom entry. They are held as the `flatbuffers` crate hands
//! them out, and read through it.

use vstd::prelude::*;

verus! {

/// A vector stored in the bytes of a model file, as the `flatbuffers` crate
/// hands it out. Nothing inside it is visible here.
#[verifier::external_type_specification]
#[verifier::external_body]
#[verifier::reject_recursive_types(T)]
pub struct ExVector<'a, T>(flatbuffers::Vector<'a, T>);

/// The bytes that a byte vector holds, in order.
pub uninterp spec fn vector_bytes(v: flatbuffers::Vector<'_, u8>) -> Seq<u8>;

/// The bytes that an optional byte vector holds.
pub open spec fn optional_bytes(v: Option<flatbuffers::Vector<'_, u8>>) -> Option<Seq<u8>> {
    match v {
        Some(bytes) => Some(vector_bytes(bytes)),
        None => None,
    }
}

/// Calls `flatbuffers::Vector::bytes` on a byte vector. For a vector of
/// bytes that method gives the part of the file's bytes that holds the
/// elements, from the first to the last. The contract says that this slice
/// holds what the vector holds.
#[verifier::external_body]
pub(crate) fn bytes_of<'a>(v: &flatbuffers::Vector<'a, u8>) -> (out: &'a [u8])
    ensures
        out@ == vector_bytes(*v),
{
    v.bytes()
}

} // verus!
