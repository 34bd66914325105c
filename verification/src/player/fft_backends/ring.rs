//! Ring buffers of the ringbuffer crate, and what the library relies on of them.
//!
//! The items are the bit patterns of 32-bit floats.
use ringbuffer::{AllocRingBuffer, RingBuffer};
use vstd::prelude::*;

verus! {

/// A ring buffer of the ringbuffer crate.
#[verifier::external_type_specification]
#[verifier::external_body]
#[verifier::reject_recursive_types(T)]
pub struct ExAllocRingBuffer<T>(AllocRingBuffer<T>);

/// What a ring buffer holds, from the oldest to the newest item.
pub uninterp spec fn ring(buffer: AllocRingBuffer<u32>) -> Seq<u32>;

/// How many items a ring buffer was made for.
pub uninterp spec fn ring_capacity(buffer: AllocRingBuffer<u32>) -> nat;

/// `AllocRingBuffer::new`: an empty buffer for so many items. It allocates room
/// for the next power of two, which has to be a size that can be allocated.
#[verifier::external_body]
pub(crate) fn new_ring(capacity: usize) -> (r: AllocRingBuffer<u32>)
    requires
        0 < capacity,
        8 * capacity <= isize::MAX,
    ensures
        ring(r).len() == 0,
        ring_capacity(r) == capacity,
{
    AllocRingBuffer::new(capacity)
}

/// `RingBuffer::fill_with`: the buffer is filled up with one value, in place of
/// what it held.
#[verifier::external_body]
pub(crate) fn fill_ring(buffer: &mut AllocRingBuffer<u32>, value: u32)
    ensures
        ring(*final(buffer)) == Seq::new(ring_capacity(*old(buffer)), |i: int| value),
        ring_capacity(*final(buffer)) == ring_capacity(*old(buffer)),
{
    buffer.fill_with(|| value);
}

/// `RingBuffer::enqueue`: the value becomes the newest item; if the buffer was
/// full, the oldest one leaves.
#[verifier::external_body]
pub(crate) fn push_ring(buffer: &mut AllocRingBuffer<u32>, value: u32)
    ensures
        ring(*final(buffer)) == (if ring(*old(buffer)).len() < ring_capacity(*old(buffer)) {
            ring(*old(buffer)).push(value)
        } else {
            ring(*old(buffer)).drop_first().push(value)
        }),
        ring_capacity(*final(buffer)) == ring_capacity(*old(buffer)),
{
    buffer.enqueue(value);
}

/// `RingBuffer::get_signed`: from zero up it counts from the oldest item, below
/// zero from behind the newest one; it goes round at the ends. An empty buffer
/// has nothing to give.
#[verifier::external_body]
pub(crate) fn at_ring(buffer: &AllocRingBuffer<u32>, index: isize) -> (r: Option<u32>)
    ensures
        r == (if ring(*buffer).len() == 0 {
            None
        } else {
            let n = ring(*buffer).len() as int;
            Some(ring(*buffer)[(if index >= 0 { index as int } else { n + index }) % n])
        }),
{
    buffer.get_signed(index).copied()
}

} // verus!
