//! The bounded byte container that holds the payload of a frame.
//!
//! The container is `heapless::Vec<u8, MAX_MSG_SIZE>`: a vector of fixed
//! capacity that lives without a heap. Its insides are not visible to the
//! verifier; the items of this module say what the library relies on.

use vstd::prelude::*;

verus! {

/// The most bytes that the payload of a frame can hold. It is also the
/// longest diagnostic text that an error response carries.
pub const MAX_MSG_SIZE: usize = 128;

/// `heapless::Vec`, carried as an opaque value.
#[verifier::external_type_specification]
#[verifier::external_body]
#[verifier::reject_recursive_types(T)]
pub struct ExHeaplessVec<T, const N: usize>(heapless::Vec<T, N>);

/// The bytes that a payload container holds, first to last.
pub uninterp spec fn payload_bytes(v: heapless::Vec<u8, MAX_MSG_SIZE>) -> Seq<u8>;

/// Calls `heapless::Vec::new`.
///
/// Trusted: the new container holds no byte.
#[verifier::external_body]
pub(crate) fn payload_new() -> (v: heapless::Vec<u8, MAX_MSG_SIZE>)
    ensures
        payload_bytes(v) == Seq::<u8>::empty(),
{
    heapless::Vec::new()
}

/// Calls `heapless::Vec::from_slice`.
///
/// Trusted: the call succeeds exactly when `src` is no longer than the
/// capacity, and the container then holds the bytes of `src` in order.
#[verifier::external_body]
pub(crate) fn payload_from_slice(src: &[u8]) -> (r: Result<heapless::Vec<u8, MAX_MSG_SIZE>, ()>)
    ensures
        r is Ok <==> src@.len() <= MAX_MSG_SIZE,
        r matches Ok(v) ==> payload_bytes(v) == src@,
{
    heapless::Vec::from_slice(src)
}

/// Calls `heapless::Vec::as_slice`.
///
/// Trusted: the slice shows the bytes that the container holds, and a
/// container never holds more than its capacity.
#[verifier::external_body]
pub(crate) fn payload_as_slice(v: &heapless::Vec<u8, MAX_MSG_SIZE>) -> (s: &[u8])
    ensures
        s@ == payload_bytes(*v),
        s@.len() <= MAX_MSG_SIZE,
{
    v.as_slice()
}

} // verus!
