//! Deserialization of the packed legacy packet structures.

use crate::layout::PackedLayout;
use vstd::prelude::*;

verus! {

/// Errors that can happen while interpreting raw bytes as packet structures.
#[derive(Debug, Clone, Copy, PartialEq, Eq, Structural)]
pub enum DeserializeError {
    SizeMismatch { expected: usize, actual: usize },
}

/// `r` is the outcome of reading a `T` from `bytes`: the value whose layout
/// is exactly `bytes` when there are as many bytes as the layout has, and a
/// size mismatch naming both sizes otherwise.
pub open spec fn is_deserialization_of<T: PackedLayout>(
    bytes: Seq<u8>,
    r: Result<T, DeserializeError>,
) -> bool {
    match r {
        Ok(value) => bytes.len() == T::spec_packed_size() && value.packed_bytes() == bytes,
        Err(e) => bytes.len() != T::spec_packed_size() && e == DeserializeError::SizeMismatch {
            expected: T::spec_packed_size() as usize,
            actual: bytes.len() as usize,
        },
    }
}

/// Reconstructs a packed structure from exactly its bytes.
pub fn deserialize<T: PackedLayout>(bytes: &[u8]) -> (r: Result<T, DeserializeError>)
    ensures
        is_deserialization_of(bytes@, r),
{
    let size = T::packed_size();
    if bytes.len() != size {
        return Err(DeserializeError::SizeMismatch { expected: size, actual: bytes.len() });
    }
    let value = T::read_packed_at(bytes, 0);
    proof {
        assert(bytes@.subrange(0, size as int) =~= bytes@);
    }
    Ok(value)
}

/// Deserializing what a value serializes to gives back that value.
pub proof fn lemma_deserialize_serialized<T: PackedLayout>(value: T, r: Result<T, DeserializeError>)
    requires
        is_deserialization_of(value.packed_bytes(), r),
    ensures
        r == Ok::<T, DeserializeError>(value),
{
    value.lemma_packed_bytes_len();
    if let Ok(read) = r {
        read.lemma_packed_bytes_injective(&value);
    }
}

/// Bytes that deserialize successfully are exactly what the resulting value
/// serializes to.
pub proof fn lemma_serialize_deserialized<T: PackedLayout>(bytes: Seq<u8>, value: T)
    requires
        is_deserialization_of(bytes, Ok::<T, DeserializeError>(value)),
    ensures
        value.packed_bytes() == bytes,
        bytes.len() == T::spec_packed_size(),
{
}

} // verus!
