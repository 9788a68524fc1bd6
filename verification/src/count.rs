use vstd::prelude::*;

verus! {

/// The count that the native interface reads for a slice of `len` items: it
/// takes a 32-bit unsigned integer, so the length is truncated to its low 32 bits.
pub open spec fn native_count(len: nat) -> int {
    len as int % 0x1_0000_0000
}

/// The element count handed to the native side together with a slice's pointer.
pub fn slice_count<T>(items: &[T]) -> (count: u32)
    ensures
        count == native_count(items@.len()),
        items@.len() <= u32::MAX ==> count == items@.len(),
{
    let len: usize = items.len();
    assert((len as u32) as u64 == (len as u64) % 0x1_0000_0000u64) by (bit_vector);
    len as u32
}

} // verus!
