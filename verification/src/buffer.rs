//! The DFU transfer buffer: a fixed-capacity byte vector from the `heapless`
//! crate, declared to the verifier with its contents named, and the handful
//! of methods the translation layer calls, each with the contract the
//! crate's source shows.

use vstd::prelude::*;

verus! {

/// Capacity of the transfer buffer in bytes: one DFU transfer unit.
pub const TRANSFER_CAPACITY: usize = 1024;

#[verifier::external_type_specification]
#[verifier::external_body]
#[verifier::reject_recursive_types(T)]
pub struct ExHeaplessVec<T, const N: usize>(heapless::Vec<T, N>);

/// The bytes a transfer buffer holds, oldest first.
pub uninterp spec fn transfer_bytes(v: heapless::Vec<u8, 1024>) -> Seq<u8>;

/// Relies on heapless::Vec::new: a new vector is empty.
#[verifier::external_body]
pub fn buffer_new() -> (v: heapless::Vec<u8, 1024>)
    ensures
        transfer_bytes(v) == Seq::<u8>::empty(),
{
    heapless::Vec::new()
}

/// Relies on heapless::Vec::clear, which drops every element.
#[verifier::external_body]
pub fn buffer_clear(v: &mut heapless::Vec<u8, 1024>)
    ensures
        transfer_bytes(*final(v)) == Seq::<u8>::empty(),
{
    v.clear()
}

/// Relies on heapless::Vec::extend_from_slice: where the bytes fit the fixed
/// capacity they are appended and Ok comes back; otherwise nothing is
/// modified and Err comes back.
#[verifier::external_body]
pub fn buffer_extend(v: &mut heapless::Vec<u8, 1024>, src: &[u8]) -> (r: Result<(), ()>)
    ensures
        r is Ok <==> transfer_bytes(*old(v)).len() + src@.len() <= TRANSFER_CAPACITY,
        r is Ok ==> transfer_bytes(*final(v)) == transfer_bytes(*old(v)) + src@,
        r is Err ==> transfer_bytes(*final(v)) == transfer_bytes(*old(v)),
{
    v.extend_from_slice(src)
}

/// Relies on heapless::Vec::as_slice, which exposes exactly the contents.
#[verifier::external_body]
pub fn buffer_as_slice(v: &heapless::Vec<u8, 1024>) -> (r: &[u8])
    ensures
        r@ == transfer_bytes(*v),
{
    v.as_slice()
}

/// Relies on heapless::Vec::len.
#[verifier::external_body]
pub fn buffer_len(v: &heapless::Vec<u8, 1024>) -> (r: usize)
    ensures
        r == transfer_bytes(*v).len(),
{
    v.len()
}

} // verus!
