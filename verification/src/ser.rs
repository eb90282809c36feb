//! Serialization of the packed legacy packet structures.

use crate::layout::PackedLayout;
use vstd::prelude::*;

verus! {

/// Serializes a packed structure into a new byte vector.
pub fn serialize<T: PackedLayout>(value: &T) -> (r: Vec<u8>)
    ensures
        r@ == value.packed_bytes(),
        r@.len() == T::spec_packed_size(),
{
    let mut buffer: Vec<u8> = Vec::with_capacity(T::packed_size());
    value.write_packed(&mut buffer);
    proof {
        assert(buffer@ =~= value.packed_bytes());
        value.lemma_packed_bytes_len();
    }
    buffer
}

/// Serializes the structure into an existing buffer, appending the bytes.
pub fn serialize_into<T: PackedLayout>(value: &T, dst: &mut Vec<u8>)
    ensures
        final(dst)@ == old(dst)@ + value.packed_bytes(),
{
    value.write_packed(dst);
}

} // verus!
