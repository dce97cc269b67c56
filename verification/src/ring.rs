//! Trusted boundary around `slice_ring_buffer::SliceRingBuffer`, the byte
//! ring buffer that the sequential decoder refills at the tail and trims at
//! the head.  Each wrapper states, over [`ring_bytes`], what the crate's
//! source shows of the call; the engine's own contracts are proved from
//! these statements.

use vstd::prelude::*;

use slice_ring_buffer::SliceRingBuffer;

verus! {

/// Declares the ring-buffer type of the `slice_ring_buffer` crate so that it
/// can stand in fields and signatures.  Values of it are opaque; the
/// wrappers below speak of their contents through [`ring_bytes`].
#[verifier::external_type_specification]
#[verifier::external_body]
#[verifier::reject_recursive_types(T)]
pub struct ExSliceRingBuffer<T>(SliceRingBuffer<T>);

/// The bytes a ring buffer holds, front to back.
pub uninterp spec fn ring_bytes(b: SliceRingBuffer<u8>) -> Seq<u8>;

/// Relies on `SliceRingBuffer::with_capacity`: the new deque is empty.
#[verifier::external_body]
pub(crate) fn ring_new(capacity: usize) -> (r: SliceRingBuffer<u8>)
    ensures
        ring_bytes(r) == Seq::<u8>::empty(),
{
    SliceRingBuffer::with_capacity(capacity)
}

/// Relies on `SliceRingBuffer::len`: the number of elements held.
#[verifier::external_body]
pub(crate) fn ring_len(b: &SliceRingBuffer<u8>) -> (n: usize)
    ensures
        n == ring_bytes(*b).len(),
{
    b.len()
}

/// Relies on `SliceRingBuffer::as_slice`: a view of the entire deque, front
/// to back.
#[verifier::external_body]
pub(crate) fn ring_as_slice(b: &SliceRingBuffer<u8>) -> (s: &[u8])
    ensures
        s@ == ring_bytes(*b),
{
    b.as_slice()
}

/// Relies on `SliceRingBuffer::extend_from_slice`: appends the slice at the
/// tail, growing the allocation as needed (it panics only when the grown
/// capacity would overflow `isize`, which the precondition rules out).
#[verifier::external_body]
pub(crate) fn ring_extend(b: &mut SliceRingBuffer<u8>, chunk: &[u8])
    requires
        ring_bytes(*old(b)).len() + chunk@.len() <= isize::MAX as usize,
    ensures
        ring_bytes(*final(b)) == ring_bytes(*old(b)) + chunk@,
{
    b.extend_from_slice(chunk)
}

/// Relies on `SliceRingBuffer::truncate_front`: keeps the last `keep`
/// elements and drops the ones before them (a no-op when `keep` is not
/// below the length).
#[verifier::external_body]
pub(crate) fn ring_truncate_front(b: &mut SliceRingBuffer<u8>, keep: usize)
    requires
        keep <= ring_bytes(*old(b)).len(),
    ensures
        ring_bytes(*final(b)) == ring_bytes(*old(b)).skip(
            ring_bytes(*old(b)).len() - keep as int,
        ),
{
    b.truncate_front(keep)
}

} // verus!
