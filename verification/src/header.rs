//! Packet headers of the game server's binary protocol.

#![allow(non_camel_case_types)]

use crate::layout::{read_array, write_array, PackedLayout};
use crate::packets::BYTE;
use vstd::prelude::*;

verus! {

/// "C1"/"C3" framed packet header (byte-sized length).
#[derive(Clone, Copy, Debug, PartialEq, Eq)]
pub struct PBMSG_HEAD {
    pub type_: BYTE,
    pub size: BYTE,
    pub head: BYTE,
}

impl PackedLayout for PBMSG_HEAD {
    open spec fn spec_packed_size() -> nat {
        3
    }

    open spec fn packed_bytes(&self) -> Seq<u8> {
        seq![self.type_] + seq![self.size] + seq![self.head]
    }

    fn packed_size() -> (r: usize) {
        3
    }

    proof fn lemma_packed_bytes_len(&self) {
    }

    proof fn lemma_packed_bytes_injective(&self, other: &Self) {
        let a = self.packed_bytes();
        let b = other.packed_bytes();
        assert(a[0] == self.type_ && b[0] == other.type_);
        assert(a[1] == self.size && b[1] == other.size);
        assert(a[2] == self.head && b[2] == other.head);
    }

    fn write_packed(&self, out: &mut Vec<u8>) {
        out.push(self.type_);
        out.push(self.size);
        out.push(self.head);
        proof {
            assert(out@ =~= old(out)@ + self.packed_bytes());
        }
    }

    fn read_packed_at(bytes: &[u8], start: usize) -> (r: Self) {
        let _ = bytes.len();
        let type_ = bytes[start + 0];
        let size = bytes[start + 1];
        let head = bytes[start + 2];
        let r = PBMSG_HEAD { type_, size, head };
        proof {
            assert(r.packed_bytes() =~= bytes@.subrange(start as int, start + 3));
        }
        r
    }
}

/// "C1"/"C3" packet header with sub-command byte.
#[derive(Clone, Copy, Debug, PartialEq, Eq)]
pub struct PSBMSG_HEAD {
    pub type_: BYTE,
    pub size: BYTE,
    pub head: BYTE,
    pub subh: BYTE,
}

impl PackedLayout for PSBMSG_HEAD {
    open spec fn spec_packed_size() -> nat {
        4
    }

    open spec fn packed_bytes(&self) -> Seq<u8> {
        seq![self.type_] + seq![self.size] + seq![self.head] + seq![self.subh]
    }

    fn packed_size() -> (r: usize) {
        4
    }

    proof fn lemma_packed_bytes_len(&self) {
    }

    proof fn lemma_packed_bytes_injective(&self, other: &Self) {
        let a = self.packed_bytes();
        let b = other.packed_bytes();
        assert(a[0] == self.type_ && b[0] == other.type_);
        assert(a[1] == self.size && b[1] == other.size);
        assert(a[2] == self.head && b[2] == other.head);
        assert(a[3] == self.subh && b[3] == other.subh);
    }

    fn write_packed(&self, out: &mut Vec<u8>) {
        out.push(self.type_);
        out.push(self.size);
        out.push(self.head);
        out.push(self.subh);
        proof {
            assert(out@ =~= old(out)@ + self.packed_bytes());
        }
    }

    fn read_packed_at(bytes: &[u8], start: usize) -> (r: Self) {
        let _ = bytes.len();
        let type_ = bytes[start + 0];
        let size = bytes[start + 1];
        let head = bytes[start + 2];
        let subh = bytes[start + 3];
        let r = PSBMSG_HEAD { type_, size, head, subh };
        proof {
            assert(r.packed_bytes() =~= bytes@.subrange(start as int, start + 4));
        }
        r
    }
}

/// "C2"/"C4" framed packet header (word-sized length).
#[derive(Clone, Copy, Debug, PartialEq, Eq)]
pub struct PWMSG_HEAD {
    pub type_: BYTE,
    pub size: [BYTE; 2],
    pub head: BYTE,
}

impl PackedLayout for PWMSG_HEAD {
    open spec fn spec_packed_size() -> nat {
        4
    }

    open spec fn packed_bytes(&self) -> Seq<u8> {
        seq![self.type_] + self.size@ + seq![self.head]
    }

    fn packed_size() -> (r: usize) {
        4
    }

    proof fn lemma_packed_bytes_len(&self) {
    }

    proof fn lemma_packed_bytes_injective(&self, other: &Self) {
        let a = self.packed_bytes();
        let b = other.packed_bytes();
        assert(a[0] == self.type_ && b[0] == other.type_);
        assert(self.size@ =~= a.subrange(1, 3));
        assert(other.size@ =~= b.subrange(1, 3));
        assert(self.size =~= other.size);
        assert(a[3] == self.head && b[3] == other.head);
    }

    fn write_packed(&self, out: &mut Vec<u8>) {
        out.push(self.type_);
        write_array(out, &self.size);
        out.push(self.head);
        proof {
            assert(out@ =~= old(out)@ + self.packed_bytes());
        }
    }

    fn read_packed_at(bytes: &[u8], start: usize) -> (r: Self) {
        let _ = bytes.len();
        let type_ = bytes[start + 0];
        let size: [BYTE; 2] = read_array(bytes, start + 1);
        let head = bytes[start + 3];
        let r = PWMSG_HEAD { type_, size, head };
        proof {
            assert(r.packed_bytes() =~= bytes@.subrange(start as int, start + 4));
        }
        r
    }
}

/// "C2"/"C4" framed packet header with sub-command byte.
#[derive(Clone, Copy, Debug, PartialEq, Eq)]
pub struct PSWMSG_HEAD {
    pub type_: BYTE,
    pub size: [BYTE; 2],
    pub head: BYTE,
    pub subh: BYTE,
}

impl PackedLayout for PSWMSG_HEAD {
    open spec fn spec_packed_size() -> nat {
        5
    }

    open spec fn packed_bytes(&self) -> Seq<u8> {
        seq![self.type_] + self.size@ + seq![self.head] + seq![self.subh]
    }

    fn packed_size() -> (r: usize) {
        5
    }

    proof fn lemma_packed_bytes_len(&self) {
    }

    proof fn lemma_packed_bytes_injective(&self, other: &Self) {
        let a = self.packed_bytes();
        let b = other.packed_bytes();
        assert(a[0] == self.type_ && b[0] == other.type_);
        assert(self.size@ =~= a.subrange(1, 3));
        assert(other.size@ =~= b.subrange(1, 3));
        assert(self.size =~= other.size);
        assert(a[3] == self.head && b[3] == other.head);
        assert(a[4] == self.subh && b[4] == other.subh);
    }

    fn write_packed(&self, out: &mut Vec<u8>) {
        out.push(self.type_);
        write_array(out, &self.size);
        out.push(self.head);
        out.push(self.subh);
        proof {
            assert(out@ =~= old(out)@ + self.packed_bytes());
        }
    }

    fn read_packed_at(bytes: &[u8], start: usize) -> (r: Self) {
        let _ = bytes.len();
        let type_ = bytes[start + 0];
        let size: [BYTE; 2] = read_array(bytes, start + 1);
        let head = bytes[start + 3];
        let subh = bytes[start + 4];
        let r = PSWMSG_HEAD { type_, size, head, subh };
        proof {
            assert(r.packed_bytes() =~= bytes@.subrange(start as int, start + 5));
        }
        r
    }
}

} // verus!
