//! Packed byte layout of the binary protocol's packet structures.
//!
//! Every structure is laid out byte-packed: fields one after another, no
//! padding, multi-byte numbers in little-endian order. [`PackedLayout`] describes that layout and converts a
//! structure to and from its bytes.

use vstd::prelude::*;

verus! {

/// A structure with a packed, padding-free byte layout.
pub trait PackedLayout: Sized {
    /// Number of bytes in the layout.
    spec fn spec_packed_size() -> nat;

    /// The bytes of `self` in layout order.
    spec fn packed_bytes(&self) -> Seq<u8>;

    /// Returns the number of bytes in the layout.
    fn packed_size() -> (r: usize)
        ensures
            r == Self::spec_packed_size(),
    ;

    /// Every value has exactly [`PackedLayout::spec_packed_size`] bytes.
    proof fn lemma_packed_bytes_len(&self)
        ensures
            self.packed_bytes().len() == Self::spec_packed_size(),
    ;

    /// Distinct values have distinct bytes.
    proof fn lemma_packed_bytes_injective(&self, other: &Self)
        requires
            self.packed_bytes() == other.packed_bytes(),
        ensures
            *self == *other,
    ;

    /// Appends the bytes of `self` to `out`.
    fn write_packed(&self, out: &mut Vec<u8>)
        ensures
            final(out)@ == old(out)@ + self.packed_bytes(),
    ;

    /// Reads a value from the bytes of `bytes` starting at `start`.
    fn read_packed_at(bytes: &[u8], start: usize) -> (r: Self)
        requires
            start + Self::spec_packed_size() <= bytes@.len(),
        ensures
            r.packed_bytes() == bytes@.subrange(start as int, start + Self::spec_packed_size()),
    ;
}

/// Appends the bytes of an array to `out`.
pub fn write_array<const N: usize>(out: &mut Vec<u8>, bytes: &[u8; N])
    ensures
        final(out)@ == old(out)@ + bytes@,
{
    let mut i: usize = 0;
    while i < N
        invariant
            i <= N,
            N == bytes@.len(),
            out@ == old(out)@ + bytes@.subrange(0, i as int),
        decreases N - i,
    {
        out.push(bytes[i]);
        i = i + 1;
        proof {
            assert(bytes@.subrange(0, i as int) =~= bytes@.subrange(0, i - 1).push(bytes@[i - 1]));
        }
    }
    proof {
        assert(bytes@.subrange(0, N as int) =~= bytes@);
    }
}

/// Copies `N` bytes of `bytes` starting at `start` into an array.
pub fn read_array<const N: usize>(bytes: &[u8], start: usize) -> (r: [u8; N])
    requires
        start + N <= bytes@.len(),
    ensures
        r@ == bytes@.subrange(start as int, start + N),
{
    let mut r = [0u8; N];
    let mut i: usize = 0;
    let total = bytes.len();
    while i < N
        invariant
            i <= N,
            start + N <= bytes@.len(),
            total == bytes@.len(),
            r@.len() == N,
            forall|j: int| 0 <= j < i ==> r@[j] == bytes@[start + j],
        decreases N - i,
    {
        r[i] = bytes[start + i];
        i = i + 1;
    }
    proof {
        assert(r@ =~= bytes@.subrange(start as int, start + N));
    }
    r
}

/// The value of a little-endian 16-bit field.
pub open spec fn spec_word_value(bytes: [u8; 2]) -> u16 {
    (bytes@[0] + 256 * bytes@[1]) as u16
}

/// The value of a little-endian 32-bit field.
pub open spec fn spec_dword_value(bytes: [u8; 4]) -> u32 {
    (bytes@[0] + 256 * bytes@[1] + 65536 * bytes@[2] + 16777216 * bytes@[3]) as u32
}

/// Reads a little-endian 16-bit field.
pub fn word_value(bytes: [u8; 2]) -> (r: u16)
    ensures
        r == spec_word_value(bytes),
{
    bytes[0] as u16 + 256 * (bytes[1] as u16)
}

/// Writes `value` as a little-endian 16-bit field.
pub fn word_bytes(value: u16) -> (r: [u8; 2])
    ensures
        spec_word_value(r) == value,
{
    let r = [(value % 256) as u8, (value / 256) as u8];
    assert(r@[0] == value % 256 && r@[1] == value / 256);
    r
}

/// Reads a little-endian 32-bit field.
pub fn dword_value(bytes: [u8; 4]) -> (r: u32)
    ensures
        r == spec_dword_value(bytes),
{
    bytes[0] as u32 + 256 * (bytes[1] as u32) + 65536 * (bytes[2] as u32) + 16777216 * (
    bytes[3] as u32)
}

/// Writes `value` as a little-endian 32-bit field.
pub fn dword_bytes(value: u32) -> (r: [u8; 4])
    ensures
        spec_dword_value(r) == value,
{
    let r = [
        (value % 256) as u8,
        ((value / 256) % 256) as u8,
        ((value / 65536) % 256) as u8,
        (value / 16777216) as u8,
    ];
    assert(r@[0] == value % 256 && r@[1] == (value / 256) % 256 && r@[2] == (value / 65536) % 256
        && r@[3] == value / 16777216);
    assert((value % 256) + 256 * ((value / 256) % 256) + 65536 * ((value / 65536) % 256) + 16777216
        * (value / 16777216) == value) by (nonlinear_arith);
    r
}

} // verus!
