//! Packet structures of the game server's binary protocol.
//!
//! Multi-byte numeric fields are little-endian byte arrays, so that each
//! structure has the packed wire layout (one-byte alignment, no padding);
//! see [`crate::layout`] for reading and writing their values.

#![allow(non_camel_case_types)]

use crate::header::{PBMSG_HEAD, PSBMSG_HEAD, PSWMSG_HEAD, PWMSG_HEAD};
use crate::layout::{read_array, write_array, PackedLayout};
use vstd::prelude::*;

verus! {

/// One byte.
pub type BYTE = u8;

/// A 16-bit number.
pub type WORD = u16;

/// A 32-bit number.
pub type DWORD = u32;

pub const NAME_LEN: usize = 10;

pub const ACCOUNT_LEN: usize = 10;

pub const PASSWORD_SHORT_LEN: usize = 12;

pub const PASSWORD_LONG_LEN: usize = 20;

pub const CHAT_MESSAGE_LEN: usize = 60;

pub const SUBJECT_LEN: usize = 60;

pub const FRIEND_MESSAGE_TEXT_LEN: usize = 1000;

pub const CLIENT_VERSION_LEN: usize = 5;

pub const CLIENT_SERIAL_LEN: usize = 16;

/// Chat message received from the client (`PMSG_CHAT_RECV`).
#[derive(Clone, Copy, Debug, PartialEq, Eq)]
pub struct PMSG_CHAT_RECV {
    pub header: PBMSG_HEAD,
    pub name: [BYTE; NAME_LEN],
    pub message: [BYTE; CHAT_MESSAGE_LEN],
}

impl PackedLayout for PMSG_CHAT_RECV {
    open spec fn spec_packed_size() -> nat {
        73
    }

    open spec fn packed_bytes(&self) -> Seq<u8> {
        self.header.packed_bytes() + self.name@ + self.message@
    }

    fn packed_size() -> (r: usize) {
        73
    }

    proof fn lemma_packed_bytes_len(&self) {
        self.header.lemma_packed_bytes_len();
    }

    proof fn lemma_packed_bytes_injective(&self, other: &Self) {
        self.header.lemma_packed_bytes_len();
        other.header.lemma_packed_bytes_len();
        let a = self.packed_bytes();
        let b = other.packed_bytes();
        assert(self.header.packed_bytes() =~= a.subrange(0, 3));
        assert(other.header.packed_bytes() =~= b.subrange(0, 3));
        self.header.lemma_packed_bytes_injective(&other.header);
        assert(self.name =~= other.name) by {
            assert(self.name@ =~= a.subrange(3, 13));
            assert(other.name@ =~= b.subrange(3, 13));
        }
        assert(self.message =~= other.message) by {
            assert(self.message@ =~= a.subrange(13, 73));
            assert(other.message@ =~= b.subrange(13, 73));
        }
    }

    fn write_packed(&self, out: &mut Vec<u8>) {
        self.header.write_packed(out);
        write_array(out, &self.name);
        write_array(out, &self.message);
        proof {
            assert(out@ =~= old(out)@ + self.packed_bytes());
        }
    }

    fn read_packed_at(bytes: &[u8], start: usize) -> (r: Self) {
        let _ = bytes.len();
        let header = PBMSG_HEAD::read_packed_at(bytes, start + 0);
        let name: [BYTE; NAME_LEN] = read_array(bytes, start + 3);
        let message: [BYTE; CHAT_MESSAGE_LEN] = read_array(bytes, start + 13);
        let r = PMSG_CHAT_RECV { header, name, message };
        proof {
            r.header.lemma_packed_bytes_len();
            assert(r.packed_bytes() =~= bytes@.subrange(start as int, start + 73));
        }
        r
    }
}

/// Whisper chat payload (`PMSG_CHAT_WHISPER_RECV`).
#[derive(Clone, Copy, Debug, PartialEq, Eq)]
pub struct PMSG_CHAT_WHISPER_RECV {
    pub header: PBMSG_HEAD,
    pub name: [BYTE; NAME_LEN],
    pub message: [BYTE; CHAT_MESSAGE_LEN],
}

impl PackedLayout for PMSG_CHAT_WHISPER_RECV {
    open spec fn spec_packed_size() -> nat {
        73
    }

    open spec fn packed_bytes(&self) -> Seq<u8> {
        self.header.packed_bytes() + self.name@ + self.message@
    }

    fn packed_size() -> (r: usize) {
        73
    }

    proof fn lemma_packed_bytes_len(&self) {
        self.header.lemma_packed_bytes_len();
    }

    proof fn lemma_packed_bytes_injective(&self, other: &Self) {
        self.header.lemma_packed_bytes_len();
        other.header.lemma_packed_bytes_len();
        let a = self.packed_bytes();
        let b = other.packed_bytes();
        assert(self.header.packed_bytes() =~= a.subrange(0, 3));
        assert(other.header.packed_bytes() =~= b.subrange(0, 3));
        self.header.lemma_packed_bytes_injective(&other.header);
        assert(self.name =~= other.name) by {
            assert(self.name@ =~= a.subrange(3, 13));
            assert(other.name@ =~= b.subrange(3, 13));
        }
        assert(self.message =~= other.message) by {
            assert(self.message@ =~= a.subrange(13, 73));
            assert(other.message@ =~= b.subrange(13, 73));
        }
    }

    fn write_packed(&self, out: &mut Vec<u8>) {
        self.header.write_packed(out);
        write_array(out, &self.name);
        write_array(out, &self.message);
        proof {
            assert(out@ =~= old(out)@ + self.packed_bytes());
        }
    }

    fn read_packed_at(bytes: &[u8], start: usize) -> (r: Self) {
        let _ = bytes.len();
        let header = PBMSG_HEAD::read_packed_at(bytes, start + 0);
        let name: [BYTE; NAME_LEN] = read_array(bytes, start + 3);
        let message: [BYTE; CHAT_MESSAGE_LEN] = read_array(bytes, start + 13);
        let r = PMSG_CHAT_WHISPER_RECV { header, name, message };
        proof {
            r.header.lemma_packed_bytes_len();
            assert(r.packed_bytes() =~= bytes@.subrange(start as int, start + 73));
        }
        r
    }
}

/// Client heartbeat and status (`PMSG_LIVE_CLIENT_RECV`).
#[derive(Clone, Copy, Debug, PartialEq, Eq)]
pub struct PMSG_LIVE_CLIENT_RECV {
    pub header: PBMSG_HEAD,
    /// Little-endian 32-bit value.
    pub tick_count: [BYTE; 4],
    /// Little-endian 16-bit value.
    pub physi_speed: [BYTE; 2],
    /// Little-endian 16-bit value.
    pub magic_speed: [BYTE; 2],
}

impl PackedLayout for PMSG_LIVE_CLIENT_RECV {
    open spec fn spec_packed_size() -> nat {
        11
    }

    open spec fn packed_bytes(&self) -> Seq<u8> {
        self.header.packed_bytes() + self.tick_count@ + self.physi_speed@ + self.magic_speed@
    }

    fn packed_size() -> (r: usize) {
        11
    }

    proof fn lemma_packed_bytes_len(&self) {
        self.header.lemma_packed_bytes_len();
    }

    proof fn lemma_packed_bytes_injective(&self, other: &Self) {
        self.header.lemma_packed_bytes_len();
        other.header.lemma_packed_bytes_len();
        let a = self.packed_bytes();
        let b = other.packed_bytes();
        assert(self.header.packed_bytes() =~= a.subrange(0, 3));
        assert(other.header.packed_bytes() =~= b.subrange(0, 3));
        self.header.lemma_packed_bytes_injective(&other.header);
        assert(self.tick_count =~= other.tick_count) by {
            assert(self.tick_count@ =~= a.subrange(3, 7));
            assert(other.tick_count@ =~= b.subrange(3, 7));
        }
        assert(self.physi_speed =~= other.physi_speed) by {
            assert(self.physi_speed@ =~= a.subrange(7, 9));
            assert(other.physi_speed@ =~= b.subrange(7, 9));
        }
        assert(self.magic_speed =~= other.magic_speed) by {
            assert(self.magic_speed@ =~= a.subrange(9, 11));
            assert(other.magic_speed@ =~= b.subrange(9, 11));
        }
    }

    fn write_packed(&self, out: &mut Vec<u8>) {
        self.header.write_packed(out);
        write_array(out, &self.tick_count);
        write_array(out, &self.physi_speed);
        write_array(out, &self.magic_speed);
        proof {
            assert(out@ =~= old(out)@ + self.packed_bytes());
        }
    }

    fn read_packed_at(bytes: &[u8], start: usize) -> (r: Self) {
        let _ = bytes.len();
        let header = PBMSG_HEAD::read_packed_at(bytes, start + 0);
        let tick_count: [BYTE; 4] = read_array(bytes, start + 3);
        let physi_speed: [BYTE; 2] = read_array(bytes, start + 7);
        let magic_speed: [BYTE; 2] = read_array(bytes, start + 9);
        let r = PMSG_LIVE_CLIENT_RECV { header, tick_count, physi_speed, magic_speed };
        proof {
            r.header.lemma_packed_bytes_len();
            assert(r.packed_bytes() =~= bytes@.subrange(start as int, start + 11));
        }
        r
    }
}

/// Player movement packet (`PMSG_MOVE_RECV`).
#[derive(Clone, Copy, Debug, PartialEq, Eq)]
pub struct PMSG_MOVE_RECV {
    pub header: PBMSG_HEAD,
    pub x: BYTE,
    pub y: BYTE,
    pub path: [BYTE; 8],
}

impl PackedLayout for PMSG_MOVE_RECV {
    open spec fn spec_packed_size() -> nat {
        13
    }

    open spec fn packed_bytes(&self) -> Seq<u8> {
        self.header.packed_bytes() + seq![self.x] + seq![self.y] + self.path@
    }

    fn packed_size() -> (r: usize) {
        13
    }

    proof fn lemma_packed_bytes_len(&self) {
        self.header.lemma_packed_bytes_len();
    }

    proof fn lemma_packed_bytes_injective(&self, other: &Self) {
        self.header.lemma_packed_bytes_len();
        other.header.lemma_packed_bytes_len();
        let a = self.packed_bytes();
        let b = other.packed_bytes();
        assert(self.header.packed_bytes() =~= a.subrange(0, 3));
        assert(other.header.packed_bytes() =~= b.subrange(0, 3));
        self.header.lemma_packed_bytes_injective(&other.header);
        assert(a[3] == self.x && b[3] == other.x);
        assert(a[4] == self.y && b[4] == other.y);
        assert(self.path =~= other.path) by {
            assert(self.path@ =~= a.subrange(5, 13));
            assert(other.path@ =~= b.subrange(5, 13));
        }
    }

    fn write_packed(&self, out: &mut Vec<u8>) {
        self.header.write_packed(out);
        out.push(self.x);
        out.push(self.y);
        write_array(out, &self.path);
        proof {
            assert(out@ =~= old(out)@ + self.packed_bytes());
        }
    }

    fn read_packed_at(bytes: &[u8], start: usize) -> (r: Self) {
        let _ = bytes.len();
        let header = PBMSG_HEAD::read_packed_at(bytes, start + 0);
        let x = bytes[start + 3];
        let y = bytes[start + 4];
        let path: [BYTE; 8] = read_array(bytes, start + 5);
        let r = PMSG_MOVE_RECV { header, x, y, path };
        proof {
            r.header.lemma_packed_bytes_len();
            assert(r.packed_bytes() =~= bytes@.subrange(start as int, start + 13));
        }
        r
    }
}

/// Player position acknowledgement (`PMSG_POSITION_RECV`).
#[derive(Clone, Copy, Debug, PartialEq, Eq)]
pub struct PMSG_POSITION_RECV {
    pub header: PBMSG_HEAD,
    pub x: BYTE,
    pub y: BYTE,
}

impl PackedLayout for PMSG_POSITION_RECV {
    open spec fn spec_packed_size() -> nat {
        5
    }

    open spec fn packed_bytes(&self) -> Seq<u8> {
        self.header.packed_bytes() + seq![self.x] + seq![self.y]
    }

    fn packed_size() -> (r: usize) {
        5
    }

    proof fn lemma_packed_bytes_len(&self) {
        self.header.lemma_packed_bytes_len();
    }

    proof fn lemma_packed_bytes_injective(&self, other: &Self) {
        self.header.lemma_packed_bytes_len();
        other.header.lemma_packed_bytes_len();
        let a = self.packed_bytes();
        let b = other.packed_bytes();
        assert(self.header.packed_bytes() =~= a.subrange(0, 3));
        assert(other.header.packed_bytes() =~= b.subrange(0, 3));
        self.header.lemma_packed_bytes_injective(&other.header);
        assert(a[3] == self.x && b[3] == other.x);
        assert(a[4] == self.y && b[4] == other.y);
    }

    fn write_packed(&self, out: &mut Vec<u8>) {
        self.header.write_packed(out);
        out.push(self.x);
        out.push(self.y);
        proof {
            assert(out@ =~= old(out)@ + self.packed_bytes());
        }
    }

    fn read_packed_at(bytes: &[u8], start: usize) -> (r: Self) {
        let _ = bytes.len();
        let header = PBMSG_HEAD::read_packed_at(bytes, start + 0);
        let x = bytes[start + 3];
        let y = bytes[start + 4];
        let r = PMSG_POSITION_RECV { header, x, y };
        proof {
            r.header.lemma_packed_bytes_len();
            assert(r.packed_bytes() =~= bytes@.subrange(start as int, start + 5));
        }
        r
    }
}

/// Action packet (`PMSG_ACTION_RECV`).
#[derive(Clone, Copy, Debug, PartialEq, Eq)]
pub struct PMSG_ACTION_RECV {
    pub header: PBMSG_HEAD,
    pub dir: BYTE,
    pub action: BYTE,
    pub index: [BYTE; 2],
}

impl PackedLayout for PMSG_ACTION_RECV {
    open spec fn spec_packed_size() -> nat {
        7
    }

    open spec fn packed_bytes(&self) -> Seq<u8> {
        self.header.packed_bytes() + seq![self.dir] + seq![self.action] + self.index@
    }

    fn packed_size() -> (r: usize) {
        7
    }

    proof fn lemma_packed_bytes_len(&self) {
        self.header.lemma_packed_bytes_len();
    }

    proof fn lemma_packed_bytes_injective(&self, other: &Self) {
        self.header.lemma_packed_bytes_len();
        other.header.lemma_packed_bytes_len();
        let a = self.packed_bytes();
        let b = other.packed_bytes();
        assert(self.header.packed_bytes() =~= a.subrange(0, 3));
        assert(other.header.packed_bytes() =~= b.subrange(0, 3));
        self.header.lemma_packed_bytes_injective(&other.header);
        assert(a[3] == self.dir && b[3] == other.dir);
        assert(a[4] == self.action && b[4] == other.action);
        assert(self.index =~= other.index) by {
            assert(self.index@ =~= a.subrange(5, 7));
            assert(other.index@ =~= b.subrange(5, 7));
        }
    }

    fn write_packed(&self, out: &mut Vec<u8>) {
        self.header.write_packed(out);
        out.push(self.dir);
        out.push(self.action);
        write_array(out, &self.index);
        proof {
            assert(out@ =~= old(out)@ + self.packed_bytes());
        }
    }

    fn read_packed_at(bytes: &[u8], start: usize) -> (r: Self) {
        let _ = bytes.len();
        let header = PBMSG_HEAD::read_packed_at(bytes, start + 0);
        let dir = bytes[start + 3];
        let action = bytes[start + 4];
        let index: [BYTE; 2] = read_array(bytes, start + 5);
        let r = PMSG_ACTION_RECV { header, dir, action, index };
        proof {
            r.header.lemma_packed_bytes_len();
            assert(r.packed_bytes() =~= bytes@.subrange(start as int, start + 7));
        }
        r
    }
}

/// Event remain time notification (`PMSG_EVENT_REMAIN_TIME_RECV`).
#[derive(Clone, Copy, Debug, PartialEq, Eq)]
pub struct PMSG_EVENT_REMAIN_TIME_RECV {
    pub header: PBMSG_HEAD,
    pub event_type: BYTE,
    pub item_level: BYTE,
}

impl PackedLayout for PMSG_EVENT_REMAIN_TIME_RECV {
    open spec fn spec_packed_size() -> nat {
        5
    }

    open spec fn packed_bytes(&self) -> Seq<u8> {
        self.header.packed_bytes() + seq![self.event_type] + seq![self.item_level]
    }

    fn packed_size() -> (r: usize) {
        5
    }

    proof fn lemma_packed_bytes_len(&self) {
        self.header.lemma_packed_bytes_len();
    }

    proof fn lemma_packed_bytes_injective(&self, other: &Self) {
        self.header.lemma_packed_bytes_len();
        other.header.lemma_packed_bytes_len();
        let a = self.packed_bytes();
        let b = other.packed_bytes();
        assert(self.header.packed_bytes() =~= a.subrange(0, 3));
        assert(other.header.packed_bytes() =~= b.subrange(0, 3));
        self.header.lemma_packed_bytes_injective(&other.header);
        assert(a[3] == self.event_type && b[3] == other.event_type);
        assert(a[4] == self.item_level && b[4] == other.item_level);
    }

    fn write_packed(&self, out: &mut Vec<u8>) {
        self.header.write_packed(out);
        out.push(self.event_type);
        out.push(self.item_level);
        proof {
            assert(out@ =~= old(out)@ + self.packed_bytes());
        }
    }

    fn read_packed_at(bytes: &[u8], start: usize) -> (r: Self) {
        let _ = bytes.len();
        let header = PBMSG_HEAD::read_packed_at(bytes, start + 0);
        let event_type = bytes[start + 3];
        let item_level = bytes[start + 4];
        let r = PMSG_EVENT_REMAIN_TIME_RECV { header, event_type, item_level };
        proof {
            r.header.lemma_packed_bytes_len();
            assert(r.packed_bytes() =~= bytes@.subrange(start as int, start + 5));
        }
        r
    }
}

/// Pet item command request (`PMSG_PET_ITEM_COMMAND_RECV`).
#[derive(Clone, Copy, Debug, PartialEq, Eq)]
pub struct PMSG_PET_ITEM_COMMAND_RECV {
    pub header: PBMSG_HEAD,
    pub type_: BYTE,
    pub command: BYTE,
    pub index: [BYTE; 2],
}

impl PackedLayout for PMSG_PET_ITEM_COMMAND_RECV {
    open spec fn spec_packed_size() -> nat {
        7
    }

    open spec fn packed_bytes(&self) -> Seq<u8> {
        self.header.packed_bytes() + seq![self.type_] + seq![self.command] + self.index@
    }

    fn packed_size() -> (r: usize) {
        7
    }

    proof fn lemma_packed_bytes_len(&self) {
        self.header.lemma_packed_bytes_len();
    }

    proof fn lemma_packed_bytes_injective(&self, other: &Self) {
        self.header.lemma_packed_bytes_len();
        other.header.lemma_packed_bytes_len();
        let a = self.packed_bytes();
        let b = other.packed_bytes();
        assert(self.header.packed_bytes() =~= a.subrange(0, 3));
        assert(other.header.packed_bytes() =~= b.subrange(0, 3));
        self.header.lemma_packed_bytes_injective(&other.header);
        assert(a[3] == self.type_ && b[3] == other.type_);
        assert(a[4] == self.command && b[4] == other.command);
        assert(self.index =~= other.index) by {
            assert(self.index@ =~= a.subrange(5, 7));
            assert(other.index@ =~= b.subrange(5, 7));
        }
    }

    fn write_packed(&self, out: &mut Vec<u8>) {
        self.header.write_packed(out);
        out.push(self.type_);
        out.push(self.command);
        write_array(out, &self.index);
        proof {
            assert(out@ =~= old(out)@ + self.packed_bytes());
        }
    }

    fn read_packed_at(bytes: &[u8], start: usize) -> (r: Self) {
        let _ = bytes.len();
        let header = PBMSG_HEAD::read_packed_at(bytes, start + 0);
        let type_ = bytes[start + 3];
        let command = bytes[start + 4];
        let index: [BYTE; 2] = read_array(bytes, start + 5);
        let r = PMSG_PET_ITEM_COMMAND_RECV { header, type_, command, index };
        proof {
            r.header.lemma_packed_bytes_len();
            assert(r.packed_bytes() =~= bytes@.subrange(start as int, start + 7));
        }
        r
    }
}

/// Pet item info request (`PMSG_PET_ITEM_INFO_RECV`).
#[derive(Clone, Copy, Debug, PartialEq, Eq)]
pub struct PMSG_PET_ITEM_INFO_RECV {
    pub header: PBMSG_HEAD,
    pub type_: BYTE,
    pub flag: BYTE,
    pub slot: BYTE,
}

impl PackedLayout for PMSG_PET_ITEM_INFO_RECV {
    open spec fn spec_packed_size() -> nat {
        6
    }

    open spec fn packed_bytes(&self) -> Seq<u8> {
        self.header.packed_bytes() + seq![self.type_] + seq![self.flag] + seq![self.slot]
    }

    fn packed_size() -> (r: usize) {
        6
    }

    proof fn lemma_packed_bytes_len(&self) {
        self.header.lemma_packed_bytes_len();
    }

    proof fn lemma_packed_bytes_injective(&self, other: &Self) {
        self.header.lemma_packed_bytes_len();
        other.header.lemma_packed_bytes_len();
        let a = self.packed_bytes();
        let b = other.packed_bytes();
        assert(self.header.packed_bytes() =~= a.subrange(0, 3));
        assert(other.header.packed_bytes() =~= b.subrange(0, 3));
        self.header.lemma_packed_bytes_injective(&other.header);
        assert(a[3] == self.type_ && b[3] == other.type_);
        assert(a[4] == self.flag && b[4] == other.flag);
        assert(a[5] == self.slot && b[5] == other.slot);
    }

    fn write_packed(&self, out: &mut Vec<u8>) {
        self.header.write_packed(out);
        out.push(self.type_);
        out.push(self.flag);
        out.push(self.slot);
        proof {
            assert(out@ =~= old(out)@ + self.packed_bytes());
        }
    }

    fn read_packed_at(bytes: &[u8], start: usize) -> (r: Self) {
        let _ = bytes.len();
        let header = PBMSG_HEAD::read_packed_at(bytes, start + 0);
        let type_ = bytes[start + 3];
        let flag = bytes[start + 4];
        let slot = bytes[start + 5];
        let r = PMSG_PET_ITEM_INFO_RECV { header, type_, flag, slot };
        proof {
            r.header.lemma_packed_bytes_len();
            assert(r.packed_bytes() =~= bytes@.subrange(start as int, start + 6));
        }
        r
    }
}

/// Map server move auth packet (`PMSG_MAP_SERVER_MOVE_AUTH_RECV`).
#[derive(Clone, Copy, Debug, PartialEq, Eq)]
pub struct PMSG_MAP_SERVER_MOVE_AUTH_RECV {
    pub header: PSBMSG_HEAD,
    pub account: [BYTE; 12],
    pub name: [BYTE; 12],
    /// Little-endian 32-bit value.
    pub auth_code1: [BYTE; 4],
    /// Little-endian 32-bit value.
    pub auth_code2: [BYTE; 4],
    /// Little-endian 32-bit value.
    pub auth_code3: [BYTE; 4],
    /// Little-endian 32-bit value.
    pub auth_code4: [BYTE; 4],
    /// Little-endian 32-bit value.
    pub tick_count: [BYTE; 4],
    pub client_version: [BYTE; CLIENT_VERSION_LEN],
    pub client_serial: [BYTE; CLIENT_SERIAL_LEN],
}

impl PackedLayout for PMSG_MAP_SERVER_MOVE_AUTH_RECV {
    open spec fn spec_packed_size() -> nat {
        69
    }

    open spec fn packed_bytes(&self) -> Seq<u8> {
        self.header.packed_bytes() + self.account@ + self.name@ + self.auth_code1@ + self.auth_code2@ + self.auth_code3@ + self.auth_code4@ + self.tick_count@ + self.client_version@ + self.client_serial@
    }

    fn packed_size() -> (r: usize) {
        69
    }

    proof fn lemma_packed_bytes_len(&self) {
        self.header.lemma_packed_bytes_len();
    }

    proof fn lemma_packed_bytes_injective(&self, other: &Self) {
        self.header.lemma_packed_bytes_len();
        other.header.lemma_packed_bytes_len();
        let a = self.packed_bytes();
        let b = other.packed_bytes();
        assert(self.header.packed_bytes() =~= a.subrange(0, 4));
        assert(other.header.packed_bytes() =~= b.subrange(0, 4));
        self.header.lemma_packed_bytes_injective(&other.header);
        assert(self.account =~= other.account) by {
            assert(self.account@ =~= a.subrange(4, 16));
            assert(other.account@ =~= b.subrange(4, 16));
        }
        assert(self.name =~= other.name) by {
            assert(self.name@ =~= a.subrange(16, 28));
            assert(other.name@ =~= b.subrange(16, 28));
        }
        assert(self.auth_code1 =~= other.auth_code1) by {
            assert(self.auth_code1@ =~= a.subrange(28, 32));
            assert(other.auth_code1@ =~= b.subrange(28, 32));
        }
        assert(self.auth_code2 =~= other.auth_code2) by {
            assert(self.auth_code2@ =~= a.subrange(32, 36));
            assert(other.auth_code2@ =~= b.subrange(32, 36));
        }
        assert(self.auth_code3 =~= other.auth_code3) by {
            assert(self.auth_code3@ =~= a.subrange(36, 40));
            assert(other.auth_code3@ =~= b.subrange(36, 40));
        }
        assert(self.auth_code4 =~= other.auth_code4) by {
            assert(self.auth_code4@ =~= a.subrange(40, 44));
            assert(other.auth_code4@ =~= b.subrange(40, 44));
        }
        assert(self.tick_count =~= other.tick_count) by {
            assert(self.tick_count@ =~= a.subrange(44, 48));
            assert(other.tick_count@ =~= b.subrange(44, 48));
        }
        assert(self.client_version =~= other.client_version) by {
            assert(self.client_version@ =~= a.subrange(48, 53));
            assert(other.client_version@ =~= b.subrange(48, 53));
        }
        assert(self.client_serial =~= other.client_serial) by {
            assert(self.client_serial@ =~= a.subrange(53, 69));
            assert(other.client_serial@ =~= b.subrange(53, 69));
        }
    }

    fn write_packed(&self, out: &mut Vec<u8>) {
        self.header.write_packed(out);
        write_array(out, &self.account);
        write_array(out, &self.name);
        write_array(out, &self.auth_code1);
        write_array(out, &self.auth_code2);
        write_array(out, &self.auth_code3);
        write_array(out, &self.auth_code4);
        write_array(out, &self.tick_count);
        write_array(out, &self.client_version);
        write_array(out, &self.client_serial);
        proof {
            assert(out@ =~= old(out)@ + self.packed_bytes());
        }
    }

    fn read_packed_at(bytes: &[u8], start: usize) -> (r: Self) {
        let _ = bytes.len();
        let header = PSBMSG_HEAD::read_packed_at(bytes, start + 0);
        let account: [BYTE; 12] = read_array(bytes, start + 4);
        let name: [BYTE; 12] = read_array(bytes, start + 16);
        let auth_code1: [BYTE; 4] = read_array(bytes, start + 28);
        let auth_code2: [BYTE; 4] = read_array(bytes, start + 32);
        let auth_code3: [BYTE; 4] = read_array(bytes, start + 36);
        let auth_code4: [BYTE; 4] = read_array(bytes, start + 40);
        let tick_count: [BYTE; 4] = read_array(bytes, start + 44);
        let client_version: [BYTE; CLIENT_VERSION_LEN] = read_array(bytes, start + 48);
        let client_serial: [BYTE; CLIENT_SERIAL_LEN] = read_array(bytes, start + 53);
        let r = PMSG_MAP_SERVER_MOVE_AUTH_RECV { header, account, name, auth_code1, auth_code2, auth_code3, auth_code4, tick_count, client_version, client_serial };
        proof {
            r.header.lemma_packed_bytes_len();
            assert(r.packed_bytes() =~= bytes@.subrange(start as int, start + 69));
        }
        r
    }
}

/// Friend message payload (`PMSG_FRIEND_MESSAGE_RECV`).
#[derive(Clone, Copy, Debug, PartialEq, Eq)]
pub struct PMSG_FRIEND_MESSAGE_RECV {
    pub header: PWMSG_HEAD,
    /// Little-endian 32-bit value.
    pub guid: [BYTE; 4],
    pub name: [BYTE; NAME_LEN],
    pub subject: [BYTE; SUBJECT_LEN],
    pub dir: BYTE,
    pub action: BYTE,
    /// Little-endian 16-bit value.
    pub size: [BYTE; 2],
    pub text: [BYTE; FRIEND_MESSAGE_TEXT_LEN],
}

impl PackedLayout for PMSG_FRIEND_MESSAGE_RECV {
    open spec fn spec_packed_size() -> nat {
        1082
    }

    open spec fn packed_bytes(&self) -> Seq<u8> {
        self.header.packed_bytes() + self.guid@ + self.name@ + self.subject@ + seq![self.dir] + seq![self.action] + self.size@ + self.text@
    }

    fn packed_size() -> (r: usize) {
        1082
    }

    proof fn lemma_packed_bytes_len(&self) {
        self.header.lemma_packed_bytes_len();
    }

    proof fn lemma_packed_bytes_injective(&self, other: &Self) {
        self.header.lemma_packed_bytes_len();
        other.header.lemma_packed_bytes_len();
        let a = self.packed_bytes();
        let b = other.packed_bytes();
        assert(self.header.packed_bytes() =~= a.subrange(0, 4));
        assert(other.header.packed_bytes() =~= b.subrange(0, 4));
        self.header.lemma_packed_bytes_injective(&other.header);
        assert(self.guid =~= other.guid) by {
            assert(self.guid@ =~= a.subrange(4, 8));
            assert(other.guid@ =~= b.subrange(4, 8));
        }
        assert(self.name =~= other.name) by {
            assert(self.name@ =~= a.subrange(8, 18));
            assert(other.name@ =~= b.subrange(8, 18));
        }
        assert(self.subject =~= other.subject) by {
            assert(self.subject@ =~= a.subrange(18, 78));
            assert(other.subject@ =~= b.subrange(18, 78));
        }
        assert(a[78] == self.dir && b[78] == other.dir);
        assert(a[79] == self.action && b[79] == other.action);
        assert(self.size =~= other.size) by {
            assert(self.size@ =~= a.subrange(80, 82));
            assert(other.size@ =~= b.subrange(80, 82));
        }
        assert(self.text =~= other.text) by {
            assert(self.text@ =~= a.subrange(82, 1082));
            assert(other.text@ =~= b.subrange(82, 1082));
        }
    }

    fn write_packed(&self, out: &mut Vec<u8>) {
        self.header.write_packed(out);
        write_array(out, &self.guid);
        write_array(out, &self.name);
        write_array(out, &self.subject);
        out.push(self.dir);
        out.push(self.action);
        write_array(out, &self.size);
        write_array(out, &self.text);
        proof {
            assert(out@ =~= old(out)@ + self.packed_bytes());
        }
    }

    fn read_packed_at(bytes: &[u8], start: usize) -> (r: Self) {
        let _ = bytes.len();
        let header = PWMSG_HEAD::read_packed_at(bytes, start + 0);
        let guid: [BYTE; 4] = read_array(bytes, start + 4);
        let name: [BYTE; NAME_LEN] = read_array(bytes, start + 8);
        let subject: [BYTE; SUBJECT_LEN] = read_array(bytes, start + 18);
        let dir = bytes[start + 78];
        let action = bytes[start + 79];
        let size: [BYTE; 2] = read_array(bytes, start + 80);
        let text: [BYTE; FRIEND_MESSAGE_TEXT_LEN] = read_array(bytes, start + 82);
        let r = PMSG_FRIEND_MESSAGE_RECV { header, guid, name, subject, dir, action, size, text };
        proof {
            r.header.lemma_packed_bytes_len();
            assert(r.packed_bytes() =~= bytes@.subrange(start as int, start + 1082));
        }
        r
    }
}

/// Account connection request (`PMSG_CONNECT_ACCOUNT_RECV`).
#[derive(Clone, Copy, Debug, PartialEq, Eq)]
pub struct PMSG_CONNECT_ACCOUNT_RECV {
    pub header: PSBMSG_HEAD,
    pub account: [BYTE; ACCOUNT_LEN],
    pub password: [BYTE; PASSWORD_SHORT_LEN],
    /// Little-endian 32-bit value.
    pub tick_count: [BYTE; 4],
    pub client_version: [BYTE; CLIENT_VERSION_LEN],
    pub client_serial: [BYTE; CLIENT_SERIAL_LEN],
}

impl PackedLayout for PMSG_CONNECT_ACCOUNT_RECV {
    open spec fn spec_packed_size() -> nat {
        51
    }

    open spec fn packed_bytes(&self) -> Seq<u8> {
        self.header.packed_bytes() + self.account@ + self.password@ + self.tick_count@ + self.client_version@ + self.client_serial@
    }

    fn packed_size() -> (r: usize) {
        51
    }

    proof fn lemma_packed_bytes_len(&self) {
        self.header.lemma_packed_bytes_len();
    }

    proof fn lemma_packed_bytes_injective(&self, other: &Self) {
        self.header.lemma_packed_bytes_len();
        other.header.lemma_packed_bytes_len();
        let a = self.packed_bytes();
        let b = other.packed_bytes();
        assert(self.header.packed_bytes() =~= a.subrange(0, 4));
        assert(other.header.packed_bytes() =~= b.subrange(0, 4));
        self.header.lemma_packed_bytes_injective(&other.header);
        assert(self.account =~= other.account) by {
            assert(self.account@ =~= a.subrange(4, 14));
            assert(other.account@ =~= b.subrange(4, 14));
        }
        assert(self.password =~= other.password) by {
            assert(self.password@ =~= a.subrange(14, 26));
            assert(other.password@ =~= b.subrange(14, 26));
        }
        assert(self.tick_count =~= other.tick_count) by {
            assert(self.tick_count@ =~= a.subrange(26, 30));
            assert(other.tick_count@ =~= b.subrange(26, 30));
        }
        assert(self.client_version =~= other.client_version) by {
            assert(self.client_version@ =~= a.subrange(30, 35));
            assert(other.client_version@ =~= b.subrange(30, 35));
        }
        assert(self.client_serial =~= other.client_serial) by {
            assert(self.client_serial@ =~= a.subrange(35, 51));
            assert(other.client_serial@ =~= b.subrange(35, 51));
        }
    }

    fn write_packed(&self, out: &mut Vec<u8>) {
        self.header.write_packed(out);
        write_array(out, &self.account);
        write_array(out, &self.password);
        write_array(out, &self.tick_count);
        write_array(out, &self.client_version);
        write_array(out, &self.client_serial);
        proof {
            assert(out@ =~= old(out)@ + self.packed_bytes());
        }
    }

    fn read_packed_at(bytes: &[u8], start: usize) -> (r: Self) {
        let _ = bytes.len();
        let header = PSBMSG_HEAD::read_packed_at(bytes, start + 0);
        let account: [BYTE; ACCOUNT_LEN] = read_array(bytes, start + 4);
        let password: [BYTE; PASSWORD_SHORT_LEN] = read_array(bytes, start + 14);
        let tick_count: [BYTE; 4] = read_array(bytes, start + 26);
        let client_version: [BYTE; CLIENT_VERSION_LEN] = read_array(bytes, start + 30);
        let client_serial: [BYTE; CLIENT_SERIAL_LEN] = read_array(bytes, start + 35);
        let r = PMSG_CONNECT_ACCOUNT_RECV { header, account, password, tick_count, client_version, client_serial };
        proof {
            r.header.lemma_packed_bytes_len();
            assert(r.packed_bytes() =~= bytes@.subrange(start as int, start + 51));
        }
        r
    }
}

/// Client disconnect notice (`PMSG_CLOSE_CLIENT_RECV`).
#[derive(Clone, Copy, Debug, PartialEq, Eq)]
pub struct PMSG_CLOSE_CLIENT_RECV {
    pub header: PSBMSG_HEAD,
    pub type_: BYTE,
}

impl PackedLayout for PMSG_CLOSE_CLIENT_RECV {
    open spec fn spec_packed_size() -> nat {
        5
    }

    open spec fn packed_bytes(&self) -> Seq<u8> {
        self.header.packed_bytes() + seq![self.type_]
    }

    fn packed_size() -> (r: usize) {
        5
    }

    proof fn lemma_packed_bytes_len(&self) {
        self.header.lemma_packed_bytes_len();
    }

    proof fn lemma_packed_bytes_injective(&self, other: &Self) {
        self.header.lemma_packed_bytes_len();
        other.header.lemma_packed_bytes_len();
        let a = self.packed_bytes();
        let b = other.packed_bytes();
        assert(self.header.packed_bytes() =~= a.subrange(0, 4));
        assert(other.header.packed_bytes() =~= b.subrange(0, 4));
        self.header.lemma_packed_bytes_injective(&other.header);
        assert(a[4] == self.type_ && b[4] == other.type_);
    }

    fn write_packed(&self, out: &mut Vec<u8>) {
        self.header.write_packed(out);
        out.push(self.type_);
        proof {
            assert(out@ =~= old(out)@ + self.packed_bytes());
        }
    }

    fn read_packed_at(bytes: &[u8], start: usize) -> (r: Self) {
        let _ = bytes.len();
        let header = PSBMSG_HEAD::read_packed_at(bytes, start + 0);
        let type_ = bytes[start + 4];
        let r = PMSG_CLOSE_CLIENT_RECV { header, type_ };
        proof {
            r.header.lemma_packed_bytes_len();
            assert(r.packed_bytes() =~= bytes@.subrange(start as int, start + 5));
        }
        r
    }
}

/// Character creation (`PMSG_CHARACTER_CREATE_RECV`).
#[derive(Clone, Copy, Debug, PartialEq, Eq)]
pub struct PMSG_CHARACTER_CREATE_RECV {
    pub header: PSBMSG_HEAD,
    pub name: [BYTE; NAME_LEN],
    pub class: BYTE,
}

impl PackedLayout for PMSG_CHARACTER_CREATE_RECV {
    open spec fn spec_packed_size() -> nat {
        15
    }

    open spec fn packed_bytes(&self) -> Seq<u8> {
        self.header.packed_bytes() + self.name@ + seq![self.class]
    }

    fn packed_size() -> (r: usize) {
        15
    }

    proof fn lemma_packed_bytes_len(&self) {
        self.header.lemma_packed_bytes_len();
    }

    proof fn lemma_packed_bytes_injective(&self, other: &Self) {
        self.header.lemma_packed_bytes_len();
        other.header.lemma_packed_bytes_len();
        let a = self.packed_bytes();
        let b = other.packed_bytes();
        assert(self.header.packed_bytes() =~= a.subrange(0, 4));
        assert(other.header.packed_bytes() =~= b.subrange(0, 4));
        self.header.lemma_packed_bytes_injective(&other.header);
        assert(self.name =~= other.name) by {
            assert(self.name@ =~= a.subrange(4, 14));
            assert(other.name@ =~= b.subrange(4, 14));
        }
        assert(a[14] == self.class && b[14] == other.class);
    }

    fn write_packed(&self, out: &mut Vec<u8>) {
        self.header.write_packed(out);
        write_array(out, &self.name);
        out.push(self.class);
        proof {
            assert(out@ =~= old(out)@ + self.packed_bytes());
        }
    }

    fn read_packed_at(bytes: &[u8], start: usize) -> (r: Self) {
        let _ = bytes.len();
        let header = PSBMSG_HEAD::read_packed_at(bytes, start + 0);
        let name: [BYTE; NAME_LEN] = read_array(bytes, start + 4);
        let class = bytes[start + 14];
        let r = PMSG_CHARACTER_CREATE_RECV { header, name, class };
        proof {
            r.header.lemma_packed_bytes_len();
            assert(r.packed_bytes() =~= bytes@.subrange(start as int, start + 15));
        }
        r
    }
}

/// Character delete (`PMSG_CHARACTER_DELETE_RECV`).
#[derive(Clone, Copy, Debug, PartialEq, Eq)]
pub struct PMSG_CHARACTER_DELETE_RECV {
    pub header: PSBMSG_HEAD,
    pub name: [BYTE; NAME_LEN],
    pub personal_code: [BYTE; 10],
}

impl PackedLayout for PMSG_CHARACTER_DELETE_RECV {
    open spec fn spec_packed_size() -> nat {
        24
    }

    open spec fn packed_bytes(&self) -> Seq<u8> {
        self.header.packed_bytes() + self.name@ + self.personal_code@
    }

    fn packed_size() -> (r: usize) {
        24
    }

    proof fn lemma_packed_bytes_len(&self) {
        self.header.lemma_packed_bytes_len();
    }

    proof fn lemma_packed_bytes_injective(&self, other: &Self) {
        self.header.lemma_packed_bytes_len();
        other.header.lemma_packed_bytes_len();
        let a = self.packed_bytes();
        let b = other.packed_bytes();
        assert(self.header.packed_bytes() =~= a.subrange(0, 4));
        assert(other.header.packed_bytes() =~= b.subrange(0, 4));
        self.header.lemma_packed_bytes_injective(&other.header);
        assert(self.name =~= other.name) by {
            assert(self.name@ =~= a.subrange(4, 14));
            assert(other.name@ =~= b.subrange(4, 14));
        }
        assert(self.personal_code =~= other.personal_code) by {
            assert(self.personal_code@ =~= a.subrange(14, 24));
            assert(other.personal_code@ =~= b.subrange(14, 24));
        }
    }

    fn write_packed(&self, out: &mut Vec<u8>) {
        self.header.write_packed(out);
        write_array(out, &self.name);
        write_array(out, &self.personal_code);
        proof {
            assert(out@ =~= old(out)@ + self.packed_bytes());
        }
    }

    fn read_packed_at(bytes: &[u8], start: usize) -> (r: Self) {
        let _ = bytes.len();
        let header = PSBMSG_HEAD::read_packed_at(bytes, start + 0);
        let name: [BYTE; NAME_LEN] = read_array(bytes, start + 4);
        let personal_code: [BYTE; 10] = read_array(bytes, start + 14);
        let r = PMSG_CHARACTER_DELETE_RECV { header, name, personal_code };
        proof {
            r.header.lemma_packed_bytes_len();
            assert(r.packed_bytes() =~= bytes@.subrange(start as int, start + 24));
        }
        r
    }
}

/// Character info request (`PMSG_CHARACTER_INFO_RECV`).
#[derive(Clone, Copy, Debug, PartialEq, Eq)]
pub struct PMSG_CHARACTER_INFO_RECV {
    pub header: PSBMSG_HEAD,
    pub name: [BYTE; NAME_LEN],
}

impl PackedLayout for PMSG_CHARACTER_INFO_RECV {
    open spec fn spec_packed_size() -> nat {
        14
    }

    open spec fn packed_bytes(&self) -> Seq<u8> {
        self.header.packed_bytes() + self.name@
    }

    fn packed_size() -> (r: usize) {
        14
    }

    proof fn lemma_packed_bytes_len(&self) {
        self.header.lemma_packed_bytes_len();
    }

    proof fn lemma_packed_bytes_injective(&self, other: &Self) {
        self.header.lemma_packed_bytes_len();
        other.header.lemma_packed_bytes_len();
        let a = self.packed_bytes();
        let b = other.packed_bytes();
        assert(self.header.packed_bytes() =~= a.subrange(0, 4));
        assert(other.header.packed_bytes() =~= b.subrange(0, 4));
        self.header.lemma_packed_bytes_injective(&other.header);
        assert(self.name =~= other.name) by {
            assert(self.name@ =~= a.subrange(4, 14));
            assert(other.name@ =~= b.subrange(4, 14));
        }
    }

    fn write_packed(&self, out: &mut Vec<u8>) {
        self.header.write_packed(out);
        write_array(out, &self.name);
        proof {
            assert(out@ =~= old(out)@ + self.packed_bytes());
        }
    }

    fn read_packed_at(bytes: &[u8], start: usize) -> (r: Self) {
        let _ = bytes.len();
        let header = PSBMSG_HEAD::read_packed_at(bytes, start + 0);
        let name: [BYTE; NAME_LEN] = read_array(bytes, start + 4);
        let r = PMSG_CHARACTER_INFO_RECV { header, name };
        proof {
            r.header.lemma_packed_bytes_len();
            assert(r.packed_bytes() =~= bytes@.subrange(start as int, start + 14));
        }
        r
    }
}

/// Level up point request (`PMSG_LEVEL_UP_POINT_RECV`).
#[derive(Clone, Copy, Debug, PartialEq, Eq)]
pub struct PMSG_LEVEL_UP_POINT_RECV {
    pub header: PSBMSG_HEAD,
    pub type_: BYTE,
}

impl PackedLayout for PMSG_LEVEL_UP_POINT_RECV {
    open spec fn spec_packed_size() -> nat {
        5
    }

    open spec fn packed_bytes(&self) -> Seq<u8> {
        self.header.packed_bytes() + seq![self.type_]
    }

    fn packed_size() -> (r: usize) {
        5
    }

    proof fn lemma_packed_bytes_len(&self) {
        self.header.lemma_packed_bytes_len();
    }

    proof fn lemma_packed_bytes_injective(&self, other: &Self) {
        self.header.lemma_packed_bytes_len();
        other.header.lemma_packed_bytes_len();
        let a = self.packed_bytes();
        let b = other.packed_bytes();
        assert(self.header.packed_bytes() =~= a.subrange(0, 4));
        assert(other.header.packed_bytes() =~= b.subrange(0, 4));
        self.header.lemma_packed_bytes_injective(&other.header);
        assert(a[4] == self.type_ && b[4] == other.type_);
    }

    fn write_packed(&self, out: &mut Vec<u8>) {
        self.header.write_packed(out);
        out.push(self.type_);
        proof {
            assert(out@ =~= old(out)@ + self.packed_bytes());
        }
    }

    fn read_packed_at(bytes: &[u8], start: usize) -> (r: Self) {
        let _ = bytes.len();
        let header = PSBMSG_HEAD::read_packed_at(bytes, start + 0);
        let type_ = bytes[start + 4];
        let r = PMSG_LEVEL_UP_POINT_RECV { header, type_ };
        proof {
            r.header.lemma_packed_bytes_len();
            assert(r.packed_bytes() =~= bytes@.subrange(start as int, start + 5));
        }
        r
    }
}

/// Character name check (`PMSG_CHARACTER_NAME_CHECK_RECV`).
#[derive(Clone, Copy, Debug, PartialEq, Eq)]
pub struct PMSG_CHARACTER_NAME_CHECK_RECV {
    pub header: PSBMSG_HEAD,
    pub name: [BYTE; NAME_LEN],
}

impl PackedLayout for PMSG_CHARACTER_NAME_CHECK_RECV {
    open spec fn spec_packed_size() -> nat {
        14
    }

    open spec fn packed_bytes(&self) -> Seq<u8> {
        self.header.packed_bytes() + self.name@
    }

    fn packed_size() -> (r: usize) {
        14
    }

    proof fn lemma_packed_bytes_len(&self) {
        self.header.lemma_packed_bytes_len();
    }

    proof fn lemma_packed_bytes_injective(&self, other: &Self) {
        self.header.lemma_packed_bytes_len();
        other.header.lemma_packed_bytes_len();
        let a = self.packed_bytes();
        let b = other.packed_bytes();
        assert(self.header.packed_bytes() =~= a.subrange(0, 4));
        assert(other.header.packed_bytes() =~= b.subrange(0, 4));
        self.header.lemma_packed_bytes_injective(&other.header);
        assert(self.name =~= other.name) by {
            assert(self.name@ =~= a.subrange(4, 14));
            assert(other.name@ =~= b.subrange(4, 14));
        }
    }

    fn write_packed(&self, out: &mut Vec<u8>) {
        self.header.write_packed(out);
        write_array(out, &self.name);
        proof {
            assert(out@ =~= old(out)@ + self.packed_bytes());
        }
    }

    fn read_packed_at(bytes: &[u8], start: usize) -> (r: Self) {
        let _ = bytes.len();
        let header = PSBMSG_HEAD::read_packed_at(bytes, start + 0);
        let name: [BYTE; NAME_LEN] = read_array(bytes, start + 4);
        let r = PMSG_CHARACTER_NAME_CHECK_RECV { header, name };
        proof {
            r.header.lemma_packed_bytes_len();
            assert(r.packed_bytes() =~= bytes@.subrange(start as int, start + 14));
        }
        r
    }
}

/// Character name change (`PMSG_CHARACTER_NAME_CHANGE_RECV`).
#[derive(Clone, Copy, Debug, PartialEq, Eq)]
pub struct PMSG_CHARACTER_NAME_CHANGE_RECV {
    pub header: PSBMSG_HEAD,
    pub old_name: [BYTE; NAME_LEN],
    pub new_name: [BYTE; NAME_LEN],
}

impl PackedLayout for PMSG_CHARACTER_NAME_CHANGE_RECV {
    open spec fn spec_packed_size() -> nat {
        24
    }

    open spec fn packed_bytes(&self) -> Seq<u8> {
        self.header.packed_bytes() + self.old_name@ + self.new_name@
    }

    fn packed_size() -> (r: usize) {
        24
    }

    proof fn lemma_packed_bytes_len(&self) {
        self.header.lemma_packed_bytes_len();
    }

    proof fn lemma_packed_bytes_injective(&self, other: &Self) {
        self.header.lemma_packed_bytes_len();
        other.header.lemma_packed_bytes_len();
        let a = self.packed_bytes();
        let b = other.packed_bytes();
        assert(self.header.packed_bytes() =~= a.subrange(0, 4));
        assert(other.header.packed_bytes() =~= b.subrange(0, 4));
        self.header.lemma_packed_bytes_injective(&other.header);
        assert(self.old_name =~= other.old_name) by {
            assert(self.old_name@ =~= a.subrange(4, 14));
            assert(other.old_name@ =~= b.subrange(4, 14));
        }
        assert(self.new_name =~= other.new_name) by {
            assert(self.new_name@ =~= a.subrange(14, 24));
            assert(other.new_name@ =~= b.subrange(14, 24));
        }
    }

    fn write_packed(&self, out: &mut Vec<u8>) {
        self.header.write_packed(out);
        write_array(out, &self.old_name);
        write_array(out, &self.new_name);
        proof {
            assert(out@ =~= old(out)@ + self.packed_bytes());
        }
    }

    fn read_packed_at(bytes: &[u8], start: usize) -> (r: Self) {
        let _ = bytes.len();
        let header = PSBMSG_HEAD::read_packed_at(bytes, start + 0);
        let old_name: [BYTE; NAME_LEN] = read_array(bytes, start + 4);
        let new_name: [BYTE; NAME_LEN] = read_array(bytes, start + 14);
        let r = PMSG_CHARACTER_NAME_CHANGE_RECV { header, old_name, new_name };
        proof {
            r.header.lemma_packed_bytes_len();
            assert(r.packed_bytes() =~= bytes@.subrange(start as int, start + 24));
        }
        r
    }
}

/// Option change skin (`PMSG_OPTION_CHANGE_SKIN_RECV`).
#[derive(Clone, Copy, Debug, PartialEq, Eq)]
pub struct PMSG_OPTION_CHANGE_SKIN_RECV {
    pub header: PSBMSG_HEAD,
    pub change_skin: BYTE,
}

impl PackedLayout for PMSG_OPTION_CHANGE_SKIN_RECV {
    open spec fn spec_packed_size() -> nat {
        5
    }

    open spec fn packed_bytes(&self) -> Seq<u8> {
        self.header.packed_bytes() + seq![self.change_skin]
    }

    fn packed_size() -> (r: usize) {
        5
    }

    proof fn lemma_packed_bytes_len(&self) {
        self.header.lemma_packed_bytes_len();
    }

    proof fn lemma_packed_bytes_injective(&self, other: &Self) {
        self.header.lemma_packed_bytes_len();
        other.header.lemma_packed_bytes_len();
        let a = self.packed_bytes();
        let b = other.packed_bytes();
        assert(self.header.packed_bytes() =~= a.subrange(0, 4));
        assert(other.header.packed_bytes() =~= b.subrange(0, 4));
        self.header.lemma_packed_bytes_injective(&other.header);
        assert(a[4] == self.change_skin && b[4] == other.change_skin);
    }

    fn write_packed(&self, out: &mut Vec<u8>) {
        self.header.write_packed(out);
        out.push(self.change_skin);
        proof {
            assert(out@ =~= old(out)@ + self.packed_bytes());
        }
    }

    fn read_packed_at(bytes: &[u8], start: usize) -> (r: Self) {
        let _ = bytes.len();
        let header = PSBMSG_HEAD::read_packed_at(bytes, start + 0);
        let change_skin = bytes[start + 4];
        let r = PMSG_OPTION_CHANGE_SKIN_RECV { header, change_skin };
        proof {
            r.header.lemma_packed_bytes_len();
            assert(r.packed_bytes() =~= bytes@.subrange(start as int, start + 5));
        }
        r
    }
}

/// Option data update (`PMSG_OPTION_DATA_RECV`).
#[derive(Clone, Copy, Debug, PartialEq, Eq)]
pub struct PMSG_OPTION_DATA_RECV {
    pub header: PSBMSG_HEAD,
    pub skill_key: [BYTE; 20],
    pub game_option: BYTE,
    pub q_key: BYTE,
    pub w_key: BYTE,
    pub e_key: BYTE,
    pub chat_window: BYTE,
    pub r_key: BYTE,
    /// Little-endian 32-bit value.
    pub qwer_level: [BYTE; 4],
}

impl PackedLayout for PMSG_OPTION_DATA_RECV {
    open spec fn spec_packed_size() -> nat {
        34
    }

    open spec fn packed_bytes(&self) -> Seq<u8> {
        self.header.packed_bytes() + self.skill_key@ + seq![self.game_option] + seq![self.q_key] + seq![self.w_key] + seq![self.e_key] + seq![self.chat_window] + seq![self.r_key] + self.qwer_level@
    }

    fn packed_size() -> (r: usize) {
        34
    }

    proof fn lemma_packed_bytes_len(&self) {
        self.header.lemma_packed_bytes_len();
    }

    proof fn lemma_packed_bytes_injective(&self, other: &Self) {
        self.header.lemma_packed_bytes_len();
        other.header.lemma_packed_bytes_len();
        let a = self.packed_bytes();
        let b = other.packed_bytes();
        assert(self.header.packed_bytes() =~= a.subrange(0, 4));
        assert(other.header.packed_bytes() =~= b.subrange(0, 4));
        self.header.lemma_packed_bytes_injective(&other.header);
        assert(self.skill_key =~= other.skill_key) by {
            assert(self.skill_key@ =~= a.subrange(4, 24));
            assert(other.skill_key@ =~= b.subrange(4, 24));
        }
        assert(a[24] == self.game_option && b[24] == other.game_option);
        assert(a[25] == self.q_key && b[25] == other.q_key);
        assert(a[26] == self.w_key && b[26] == other.w_key);
        assert(a[27] == self.e_key && b[27] == other.e_key);
        assert(a[28] == self.chat_window && b[28] == other.chat_window);
        assert(a[29] == self.r_key && b[29] == other.r_key);
        assert(self.qwer_level =~= other.qwer_level) by {
            assert(self.qwer_level@ =~= a.subrange(30, 34));
            assert(other.qwer_level@ =~= b.subrange(30, 34));
        }
    }

    fn write_packed(&self, out: &mut Vec<u8>) {
        self.header.write_packed(out);
        write_array(out, &self.skill_key);
        out.push(self.game_option);
        out.push(self.q_key);
        out.push(self.w_key);
        out.push(self.e_key);
        out.push(self.chat_window);
        out.push(self.r_key);
        write_array(out, &self.qwer_level);
        proof {
            assert(out@ =~= old(out)@ + self.packed_bytes());
        }
    }

    fn read_packed_at(bytes: &[u8], start: usize) -> (r: Self) {
        let _ = bytes.len();
        let header = PSBMSG_HEAD::read_packed_at(bytes, start + 0);
        let skill_key: [BYTE; 20] = read_array(bytes, start + 4);
        let game_option = bytes[start + 24];
        let q_key = bytes[start + 25];
        let w_key = bytes[start + 26];
        let e_key = bytes[start + 27];
        let chat_window = bytes[start + 28];
        let r_key = bytes[start + 29];
        let qwer_level: [BYTE; 4] = read_array(bytes, start + 30);
        let r = PMSG_OPTION_DATA_RECV { header, skill_key, game_option, q_key, w_key, e_key, chat_window, r_key, qwer_level };
        proof {
            r.header.lemma_packed_bytes_len();
            assert(r.packed_bytes() =~= bytes@.subrange(start as int, start + 34));
        }
        r
    }
}

/// Client security breach notification (`PMSG_CLIENT_SECURITY_BREACH_RECV`).
#[derive(Clone, Copy, Debug, PartialEq, Eq)]
pub struct PMSG_CLIENT_SECURITY_BREACH_RECV {
    pub header: PSBMSG_HEAD,
    pub code: [BYTE; 4],
}

impl PackedLayout for PMSG_CLIENT_SECURITY_BREACH_RECV {
    open spec fn spec_packed_size() -> nat {
        8
    }

    open spec fn packed_bytes(&self) -> Seq<u8> {
        self.header.packed_bytes() + self.code@
    }

    fn packed_size() -> (r: usize) {
        8
    }

    proof fn lemma_packed_bytes_len(&self) {
        self.header.lemma_packed_bytes_len();
    }

    proof fn lemma_packed_bytes_injective(&self, other: &Self) {
        self.header.lemma_packed_bytes_len();
        other.header.lemma_packed_bytes_len();
        let a = self.packed_bytes();
        let b = other.packed_bytes();
        assert(self.header.packed_bytes() =~= a.subrange(0, 4));
        assert(other.header.packed_bytes() =~= b.subrange(0, 4));
        self.header.lemma_packed_bytes_injective(&other.header);
        assert(self.code =~= other.code) by {
            assert(self.code@ =~= a.subrange(4, 8));
            assert(other.code@ =~= b.subrange(4, 8));
        }
    }

    fn write_packed(&self, out: &mut Vec<u8>) {
        self.header.write_packed(out);
        write_array(out, &self.code);
        proof {
            assert(out@ =~= old(out)@ + self.packed_bytes());
        }
    }

    fn read_packed_at(bytes: &[u8], start: usize) -> (r: Self) {
        let _ = bytes.len();
        let header = PSBMSG_HEAD::read_packed_at(bytes, start + 0);
        let code: [BYTE; 4] = read_array(bytes, start + 4);
        let r = PMSG_CLIENT_SECURITY_BREACH_RECV { header, code };
        proof {
            r.header.lemma_packed_bytes_len();
            assert(r.packed_bytes() =~= bytes@.subrange(start as int, start + 8));
        }
        r
    }
}

/// SNS data request (`PMSG_SNS_DATA_RECV`).
#[derive(Clone, Copy, Debug, PartialEq, Eq)]
pub struct PMSG_SNS_DATA_RECV {
    pub header: PWMSG_HEAD,
    pub result: BYTE,
    pub data: [BYTE; 256],
}

impl PackedLayout for PMSG_SNS_DATA_RECV {
    open spec fn spec_packed_size() -> nat {
        261
    }

    open spec fn packed_bytes(&self) -> Seq<u8> {
        self.header.packed_bytes() + seq![self.result] + self.data@
    }

    fn packed_size() -> (r: usize) {
        261
    }

    proof fn lemma_packed_bytes_len(&self) {
        self.header.lemma_packed_bytes_len();
    }

    proof fn lemma_packed_bytes_injective(&self, other: &Self) {
        self.header.lemma_packed_bytes_len();
        other.header.lemma_packed_bytes_len();
        let a = self.packed_bytes();
        let b = other.packed_bytes();
        assert(self.header.packed_bytes() =~= a.subrange(0, 4));
        assert(other.header.packed_bytes() =~= b.subrange(0, 4));
        self.header.lemma_packed_bytes_injective(&other.header);
        assert(a[4] == self.result && b[4] == other.result);
        assert(self.data =~= other.data) by {
            assert(self.data@ =~= a.subrange(5, 261));
            assert(other.data@ =~= b.subrange(5, 261));
        }
    }

    fn write_packed(&self, out: &mut Vec<u8>) {
        self.header.write_packed(out);
        out.push(self.result);
        write_array(out, &self.data);
        proof {
            assert(out@ =~= old(out)@ + self.packed_bytes());
        }
    }

    fn read_packed_at(bytes: &[u8], start: usize) -> (r: Self) {
        let _ = bytes.len();
        let header = PWMSG_HEAD::read_packed_at(bytes, start + 0);
        let result = bytes[start + 4];
        let data: [BYTE; 256] = read_array(bytes, start + 5);
        let r = PMSG_SNS_DATA_RECV { header, result, data };
        proof {
            r.header.lemma_packed_bytes_len();
            assert(r.packed_bytes() =~= bytes@.subrange(start as int, start + 261));
        }
        r
    }
}

/// SNS data log request (`PMSG_SNS_DATA_LOG_RECV`).
#[derive(Clone, Copy, Debug, PartialEq, Eq)]
pub struct PMSG_SNS_DATA_LOG_RECV {
    pub header: PBMSG_HEAD,
    pub code: [BYTE; 3],
}

impl PackedLayout for PMSG_SNS_DATA_LOG_RECV {
    open spec fn spec_packed_size() -> nat {
        6
    }

    open spec fn packed_bytes(&self) -> Seq<u8> {
        self.header.packed_bytes() + self.code@
    }

    fn packed_size() -> (r: usize) {
        6
    }

    proof fn lemma_packed_bytes_len(&self) {
        self.header.lemma_packed_bytes_len();
    }

    proof fn lemma_packed_bytes_injective(&self, other: &Self) {
        self.header.lemma_packed_bytes_len();
        other.header.lemma_packed_bytes_len();
        let a = self.packed_bytes();
        let b = other.packed_bytes();
        assert(self.header.packed_bytes() =~= a.subrange(0, 3));
        assert(other.header.packed_bytes() =~= b.subrange(0, 3));
        self.header.lemma_packed_bytes_injective(&other.header);
        assert(self.code =~= other.code) by {
            assert(self.code@ =~= a.subrange(3, 6));
            assert(other.code@ =~= b.subrange(3, 6));
        }
    }

    fn write_packed(&self, out: &mut Vec<u8>) {
        self.header.write_packed(out);
        write_array(out, &self.code);
        proof {
            assert(out@ =~= old(out)@ + self.packed_bytes());
        }
    }

    fn read_packed_at(bytes: &[u8], start: usize) -> (r: Self) {
        let _ = bytes.len();
        let header = PBMSG_HEAD::read_packed_at(bytes, start + 0);
        let code: [BYTE; 3] = read_array(bytes, start + 3);
        let r = PMSG_SNS_DATA_LOG_RECV { header, code };
        proof {
            r.header.lemma_packed_bytes_len();
            assert(r.packed_bytes() =~= bytes@.subrange(start as int, start + 6));
        }
        r
    }
}

/// Off-trade request (`PMSG_OFFTRADE_RECV`).
#[derive(Clone, Copy, Debug, PartialEq, Eq)]
pub struct PMSG_OFFTRADE_RECV {
    pub header: PSBMSG_HEAD,
    /// Little-endian 32-bit signed value.
    pub type_: [BYTE; 4],
}

impl PackedLayout for PMSG_OFFTRADE_RECV {
    open spec fn spec_packed_size() -> nat {
        8
    }

    open spec fn packed_bytes(&self) -> Seq<u8> {
        self.header.packed_bytes() + self.type_@
    }

    fn packed_size() -> (r: usize) {
        8
    }

    proof fn lemma_packed_bytes_len(&self) {
        self.header.lemma_packed_bytes_len();
    }

    proof fn lemma_packed_bytes_injective(&self, other: &Self) {
        self.header.lemma_packed_bytes_len();
        other.header.lemma_packed_bytes_len();
        let a = self.packed_bytes();
        let b = other.packed_bytes();
        assert(self.header.packed_bytes() =~= a.subrange(0, 4));
        assert(other.header.packed_bytes() =~= b.subrange(0, 4));
        self.header.lemma_packed_bytes_injective(&other.header);
        assert(self.type_ =~= other.type_) by {
            assert(self.type_@ =~= a.subrange(4, 8));
            assert(other.type_@ =~= b.subrange(4, 8));
        }
    }

    fn write_packed(&self, out: &mut Vec<u8>) {
        self.header.write_packed(out);
        write_array(out, &self.type_);
        proof {
            assert(out@ =~= old(out)@ + self.packed_bytes());
        }
    }

    fn read_packed_at(bytes: &[u8], start: usize) -> (r: Self) {
        let _ = bytes.len();
        let header = PSBMSG_HEAD::read_packed_at(bytes, start + 0);
        let type_: [BYTE; 4] = read_array(bytes, start + 4);
        let r = PMSG_OFFTRADE_RECV { header, type_ };
        proof {
            r.header.lemma_packed_bytes_len();
            assert(r.packed_bytes() =~= bytes@.subrange(start as int, start + 8));
        }
        r
    }
}

/// Broadcast chat from server (`PMSG_CHAT_SEND`).
#[derive(Clone, Copy, Debug, PartialEq, Eq)]
pub struct PMSG_CHAT_SEND {
    pub header: PBMSG_HEAD,
    pub name: [BYTE; NAME_LEN],
    pub message: [BYTE; CHAT_MESSAGE_LEN],
}

impl PackedLayout for PMSG_CHAT_SEND {
    open spec fn spec_packed_size() -> nat {
        73
    }

    open spec fn packed_bytes(&self) -> Seq<u8> {
        self.header.packed_bytes() + self.name@ + self.message@
    }

    fn packed_size() -> (r: usize) {
        73
    }

    proof fn lemma_packed_bytes_len(&self) {
        self.header.lemma_packed_bytes_len();
    }

    proof fn lemma_packed_bytes_injective(&self, other: &Self) {
        self.header.lemma_packed_bytes_len();
        other.header.lemma_packed_bytes_len();
        let a = self.packed_bytes();
        let b = other.packed_bytes();
        assert(self.header.packed_bytes() =~= a.subrange(0, 3));
        assert(other.header.packed_bytes() =~= b.subrange(0, 3));
        self.header.lemma_packed_bytes_injective(&other.header);
        assert(self.name =~= other.name) by {
            assert(self.name@ =~= a.subrange(3, 13));
            assert(other.name@ =~= b.subrange(3, 13));
        }
        assert(self.message =~= other.message) by {
            assert(self.message@ =~= a.subrange(13, 73));
            assert(other.message@ =~= b.subrange(13, 73));
        }
    }

    fn write_packed(&self, out: &mut Vec<u8>) {
        self.header.write_packed(out);
        write_array(out, &self.name);
        write_array(out, &self.message);
        proof {
            assert(out@ =~= old(out)@ + self.packed_bytes());
        }
    }

    fn read_packed_at(bytes: &[u8], start: usize) -> (r: Self) {
        let _ = bytes.len();
        let header = PBMSG_HEAD::read_packed_at(bytes, start + 0);
        let name: [BYTE; NAME_LEN] = read_array(bytes, start + 3);
        let message: [BYTE; CHAT_MESSAGE_LEN] = read_array(bytes, start + 13);
        let r = PMSG_CHAT_SEND { header, name, message };
        proof {
            r.header.lemma_packed_bytes_len();
            assert(r.packed_bytes() =~= bytes@.subrange(start as int, start + 73));
        }
        r
    }
}

/// Directed chat to specific player (`PMSG_CHAT_TARGET_SEND`).
#[derive(Clone, Copy, Debug, PartialEq, Eq)]
pub struct PMSG_CHAT_TARGET_SEND {
    pub header: PBMSG_HEAD,
    pub index: [BYTE; 2],
    pub message: [BYTE; CHAT_MESSAGE_LEN],
}

impl PackedLayout for PMSG_CHAT_TARGET_SEND {
    open spec fn spec_packed_size() -> nat {
        65
    }

    open spec fn packed_bytes(&self) -> Seq<u8> {
        self.header.packed_bytes() + self.index@ + self.message@
    }

    fn packed_size() -> (r: usize) {
        65
    }

    proof fn lemma_packed_bytes_len(&self) {
        self.header.lemma_packed_bytes_len();
    }

    proof fn lemma_packed_bytes_injective(&self, other: &Self) {
        self.header.lemma_packed_bytes_len();
        other.header.lemma_packed_bytes_len();
        let a = self.packed_bytes();
        let b = other.packed_bytes();
        assert(self.header.packed_bytes() =~= a.subrange(0, 3));
        assert(other.header.packed_bytes() =~= b.subrange(0, 3));
        self.header.lemma_packed_bytes_injective(&other.header);
        assert(self.index =~= other.index) by {
            assert(self.index@ =~= a.subrange(3, 5));
            assert(other.index@ =~= b.subrange(3, 5));
        }
        assert(self.message =~= other.message) by {
            assert(self.message@ =~= a.subrange(5, 65));
            assert(other.message@ =~= b.subrange(5, 65));
        }
    }

    fn write_packed(&self, out: &mut Vec<u8>) {
        self.header.write_packed(out);
        write_array(out, &self.index);
        write_array(out, &self.message);
        proof {
            assert(out@ =~= old(out)@ + self.packed_bytes());
        }
    }

    fn read_packed_at(bytes: &[u8], start: usize) -> (r: Self) {
        let _ = bytes.len();
        let header = PBMSG_HEAD::read_packed_at(bytes, start + 0);
        let index: [BYTE; 2] = read_array(bytes, start + 3);
        let message: [BYTE; CHAT_MESSAGE_LEN] = read_array(bytes, start + 5);
        let r = PMSG_CHAT_TARGET_SEND { header, index, message };
        proof {
            r.header.lemma_packed_bytes_len();
            assert(r.packed_bytes() =~= bytes@.subrange(start as int, start + 65));
        }
        r
    }
}

/// Whisper chat from server (`PMSG_CHAT_WHISPER_SEND`).
#[derive(Clone, Copy, Debug, PartialEq, Eq)]
pub struct PMSG_CHAT_WHISPER_SEND {
    pub header: PBMSG_HEAD,
    pub name: [BYTE; NAME_LEN],
    pub message: [BYTE; CHAT_MESSAGE_LEN],
}

impl PackedLayout for PMSG_CHAT_WHISPER_SEND {
    open spec fn spec_packed_size() -> nat {
        73
    }

    open spec fn packed_bytes(&self) -> Seq<u8> {
        self.header.packed_bytes() + self.name@ + self.message@
    }

    fn packed_size() -> (r: usize) {
        73
    }

    proof fn lemma_packed_bytes_len(&self) {
        self.header.lemma_packed_bytes_len();
    }

    proof fn lemma_packed_bytes_injective(&self, other: &Self) {
        self.header.lemma_packed_bytes_len();
        other.header.lemma_packed_bytes_len();
        let a = self.packed_bytes();
        let b = other.packed_bytes();
        assert(self.header.packed_bytes() =~= a.subrange(0, 3));
        assert(other.header.packed_bytes() =~= b.subrange(0, 3));
        self.header.lemma_packed_bytes_injective(&other.header);
        assert(self.name =~= other.name) by {
            assert(self.name@ =~= a.subrange(3, 13));
            assert(other.name@ =~= b.subrange(3, 13));
        }
        assert(self.message =~= other.message) by {
            assert(self.message@ =~= a.subrange(13, 73));
            assert(other.message@ =~= b.subrange(13, 73));
        }
    }

    fn write_packed(&self, out: &mut Vec<u8>) {
        self.header.write_packed(out);
        write_array(out, &self.name);
        write_array(out, &self.message);
        proof {
            assert(out@ =~= old(out)@ + self.packed_bytes());
        }
    }

    fn read_packed_at(bytes: &[u8], start: usize) -> (r: Self) {
        let _ = bytes.len();
        let header = PBMSG_HEAD::read_packed_at(bytes, start + 0);
        let name: [BYTE; NAME_LEN] = read_array(bytes, start + 3);
        let message: [BYTE; CHAT_MESSAGE_LEN] = read_array(bytes, start + 13);
        let r = PMSG_CHAT_WHISPER_SEND { header, name, message };
        proof {
            r.header.lemma_packed_bytes_len();
            assert(r.packed_bytes() =~= bytes@.subrange(start as int, start + 73));
        }
        r
    }
}

/// Main check response (`PMSG_MAIN_CHECK_SEND`).
#[derive(Clone, Copy, Debug, PartialEq, Eq)]
pub struct PMSG_MAIN_CHECK_SEND {
    pub header: PBMSG_HEAD,
    /// Little-endian 16-bit value.
    pub key: [BYTE; 2],
}

impl PackedLayout for PMSG_MAIN_CHECK_SEND {
    open spec fn spec_packed_size() -> nat {
        5
    }

    open spec fn packed_bytes(&self) -> Seq<u8> {
        self.header.packed_bytes() + self.key@
    }

    fn packed_size() -> (r: usize) {
        5
    }

    proof fn lemma_packed_bytes_len(&self) {
        self.header.lemma_packed_bytes_len();
    }

    proof fn lemma_packed_bytes_injective(&self, other: &Self) {
        self.header.lemma_packed_bytes_len();
        other.header.lemma_packed_bytes_len();
        let a = self.packed_bytes();
        let b = other.packed_bytes();
        assert(self.header.packed_bytes() =~= a.subrange(0, 3));
        assert(other.header.packed_bytes() =~= b.subrange(0, 3));
        self.header.lemma_packed_bytes_injective(&other.header);
        assert(self.key =~= other.key) by {
            assert(self.key@ =~= a.subrange(3, 5));
            assert(other.key@ =~= b.subrange(3, 5));
        }
    }

    fn write_packed(&self, out: &mut Vec<u8>) {
        self.header.write_packed(out);
        write_array(out, &self.key);
        proof {
            assert(out@ =~= old(out)@ + self.packed_bytes());
        }
    }

    fn read_packed_at(bytes: &[u8], start: usize) -> (r: Self) {
        let _ = bytes.len();
        let header = PBMSG_HEAD::read_packed_at(bytes, start + 0);
        let key: [BYTE; 2] = read_array(bytes, start + 3);
        let r = PMSG_MAIN_CHECK_SEND { header, key };
        proof {
            r.header.lemma_packed_bytes_len();
            assert(r.packed_bytes() =~= bytes@.subrange(start as int, start + 5));
        }
        r
    }
}

/// Event state update (`PMSG_EVENT_STATE_SEND`).
#[derive(Clone, Copy, Debug, PartialEq, Eq)]
pub struct PMSG_EVENT_STATE_SEND {
    pub header: PBMSG_HEAD,
    pub state: BYTE,
    pub event: BYTE,
}

impl PackedLayout for PMSG_EVENT_STATE_SEND {
    open spec fn spec_packed_size() -> nat {
        5
    }

    open spec fn packed_bytes(&self) -> Seq<u8> {
        self.header.packed_bytes() + seq![self.state] + seq![self.event]
    }

    fn packed_size() -> (r: usize) {
        5
    }

    proof fn lemma_packed_bytes_len(&self) {
        self.header.lemma_packed_bytes_len();
    }

    proof fn lemma_packed_bytes_injective(&self, other: &Self) {
        self.header.lemma_packed_bytes_len();
        other.header.lemma_packed_bytes_len();
        let a = self.packed_bytes();
        let b = other.packed_bytes();
        assert(self.header.packed_bytes() =~= a.subrange(0, 3));
        assert(other.header.packed_bytes() =~= b.subrange(0, 3));
        self.header.lemma_packed_bytes_injective(&other.header);
        assert(a[3] == self.state && b[3] == other.state);
        assert(a[4] == self.event && b[4] == other.event);
    }

    fn write_packed(&self, out: &mut Vec<u8>) {
        self.header.write_packed(out);
        out.push(self.state);
        out.push(self.event);
        proof {
            assert(out@ =~= old(out)@ + self.packed_bytes());
        }
    }

    fn read_packed_at(bytes: &[u8], start: usize) -> (r: Self) {
        let _ = bytes.len();
        let header = PBMSG_HEAD::read_packed_at(bytes, start + 0);
        let state = bytes[start + 3];
        let event = bytes[start + 4];
        let r = PMSG_EVENT_STATE_SEND { header, state, event };
        proof {
            r.header.lemma_packed_bytes_len();
            assert(r.packed_bytes() =~= bytes@.subrange(start as int, start + 5));
        }
        r
    }
}

/// Server message index (`PMSG_SERVER_MSG_SEND`).
#[derive(Clone, Copy, Debug, PartialEq, Eq)]
pub struct PMSG_SERVER_MSG_SEND {
    pub header: PBMSG_HEAD,
    pub msg_number: BYTE,
}

impl PackedLayout for PMSG_SERVER_MSG_SEND {
    open spec fn spec_packed_size() -> nat {
        4
    }

    open spec fn packed_bytes(&self) -> Seq<u8> {
        self.header.packed_bytes() + seq![self.msg_number]
    }

    fn packed_size() -> (r: usize) {
        4
    }

    proof fn lemma_packed_bytes_len(&self) {
        self.header.lemma_packed_bytes_len();
    }

    proof fn lemma_packed_bytes_injective(&self, other: &Self) {
        self.header.lemma_packed_bytes_len();
        other.header.lemma_packed_bytes_len();
        let a = self.packed_bytes();
        let b = other.packed_bytes();
        assert(self.header.packed_bytes() =~= a.subrange(0, 3));
        assert(other.header.packed_bytes() =~= b.subrange(0, 3));
        self.header.lemma_packed_bytes_injective(&other.header);
        assert(a[3] == self.msg_number && b[3] == other.msg_number);
    }

    fn write_packed(&self, out: &mut Vec<u8>) {
        self.header.write_packed(out);
        out.push(self.msg_number);
        proof {
            assert(out@ =~= old(out)@ + self.packed_bytes());
        }
    }

    fn read_packed_at(bytes: &[u8], start: usize) -> (r: Self) {
        let _ = bytes.len();
        let header = PBMSG_HEAD::read_packed_at(bytes, start + 0);
        let msg_number = bytes[start + 3];
        let r = PMSG_SERVER_MSG_SEND { header, msg_number };
        proof {
            r.header.lemma_packed_bytes_len();
            assert(r.packed_bytes() =~= bytes@.subrange(start as int, start + 4));
        }
        r
    }
}

/// Weather change notification (`PMSG_WEATHER_SEND`).
#[derive(Clone, Copy, Debug, PartialEq, Eq)]
pub struct PMSG_WEATHER_SEND {
    pub header: PBMSG_HEAD,
    pub weather: BYTE,
}

impl PackedLayout for PMSG_WEATHER_SEND {
    open spec fn spec_packed_size() -> nat {
        4
    }

    open spec fn packed_bytes(&self) -> Seq<u8> {
        self.header.packed_bytes() + seq![self.weather]
    }

    fn packed_size() -> (r: usize) {
        4
    }

    proof fn lemma_packed_bytes_len(&self) {
        self.header.lemma_packed_bytes_len();
    }

    proof fn lemma_packed_bytes_injective(&self, other: &Self) {
        self.header.lemma_packed_bytes_len();
        other.header.lemma_packed_bytes_len();
        let a = self.packed_bytes();
        let b = other.packed_bytes();
        assert(self.header.packed_bytes() =~= a.subrange(0, 3));
        assert(other.header.packed_bytes() =~= b.subrange(0, 3));
        self.header.lemma_packed_bytes_injective(&other.header);
        assert(a[3] == self.weather && b[3] == other.weather);
    }

    fn write_packed(&self, out: &mut Vec<u8>) {
        self.header.write_packed(out);
        out.push(self.weather);
        proof {
            assert(out@ =~= old(out)@ + self.packed_bytes());
        }
    }

    fn read_packed_at(bytes: &[u8], start: usize) -> (r: Self) {
        let _ = bytes.len();
        let header = PBMSG_HEAD::read_packed_at(bytes, start + 0);
        let weather = bytes[start + 3];
        let r = PMSG_WEATHER_SEND { header, weather };
        proof {
            r.header.lemma_packed_bytes_len();
            assert(r.packed_bytes() =~= bytes@.subrange(start as int, start + 4));
        }
        r
    }
}

/// Monster death notification (`PMSG_MONSTER_DIE_SEND`).
#[derive(Clone, Copy, Debug, PartialEq, Eq)]
pub struct PMSG_MONSTER_DIE_SEND {
    pub header: PBMSG_HEAD,
    pub index: [BYTE; 2],
    pub experience: [BYTE; 2],
    pub damage: [BYTE; 2],
}

impl PackedLayout for PMSG_MONSTER_DIE_SEND {
    open spec fn spec_packed_size() -> nat {
        9
    }

    open spec fn packed_bytes(&self) -> Seq<u8> {
        self.header.packed_bytes() + self.index@ + self.experience@ + self.damage@
    }

    fn packed_size() -> (r: usize) {
        9
    }

    proof fn lemma_packed_bytes_len(&self) {
        self.header.lemma_packed_bytes_len();
    }

    proof fn lemma_packed_bytes_injective(&self, other: &Self) {
        self.header.lemma_packed_bytes_len();
        other.header.lemma_packed_bytes_len();
        let a = self.packed_bytes();
        let b = other.packed_bytes();
        assert(self.header.packed_bytes() =~= a.subrange(0, 3));
        assert(other.header.packed_bytes() =~= b.subrange(0, 3));
        self.header.lemma_packed_bytes_injective(&other.header);
        assert(self.index =~= other.index) by {
            assert(self.index@ =~= a.subrange(3, 5));
            assert(other.index@ =~= b.subrange(3, 5));
        }
        assert(self.experience =~= other.experience) by {
            assert(self.experience@ =~= a.subrange(5, 7));
            assert(other.experience@ =~= b.subrange(5, 7));
        }
        assert(self.damage =~= other.damage) by {
            assert(self.damage@ =~= a.subrange(7, 9));
            assert(other.damage@ =~= b.subrange(7, 9));
        }
    }

    fn write_packed(&self, out: &mut Vec<u8>) {
        self.header.write_packed(out);
        write_array(out, &self.index);
        write_array(out, &self.experience);
        write_array(out, &self.damage);
        proof {
            assert(out@ =~= old(out)@ + self.packed_bytes());
        }
    }

    fn read_packed_at(bytes: &[u8], start: usize) -> (r: Self) {
        let _ = bytes.len();
        let header = PBMSG_HEAD::read_packed_at(bytes, start + 0);
        let index: [BYTE; 2] = read_array(bytes, start + 3);
        let experience: [BYTE; 2] = read_array(bytes, start + 5);
        let damage: [BYTE; 2] = read_array(bytes, start + 7);
        let r = PMSG_MONSTER_DIE_SEND { header, index, experience, damage };
        proof {
            r.header.lemma_packed_bytes_len();
            assert(r.packed_bytes() =~= bytes@.subrange(start as int, start + 9));
        }
        r
    }
}

/// User death notification (`PMSG_USER_DIE_SEND`).
#[derive(Clone, Copy, Debug, PartialEq, Eq)]
pub struct PMSG_USER_DIE_SEND {
    pub header: PBMSG_HEAD,
    pub index: [BYTE; 2],
    pub skill: [BYTE; 2],
    pub killer: [BYTE; 2],
}

impl PackedLayout for PMSG_USER_DIE_SEND {
    open spec fn spec_packed_size() -> nat {
        9
    }

    open spec fn packed_bytes(&self) -> Seq<u8> {
        self.header.packed_bytes() + self.index@ + self.skill@ + self.killer@
    }

    fn packed_size() -> (r: usize) {
        9
    }

    proof fn lemma_packed_bytes_len(&self) {
        self.header.lemma_packed_bytes_len();
    }

    proof fn lemma_packed_bytes_injective(&self, other: &Self) {
        self.header.lemma_packed_bytes_len();
        other.header.lemma_packed_bytes_len();
        let a = self.packed_bytes();
        let b = other.packed_bytes();
        assert(self.header.packed_bytes() =~= a.subrange(0, 3));
        assert(other.header.packed_bytes() =~= b.subrange(0, 3));
        self.header.lemma_packed_bytes_injective(&other.header);
        assert(self.index =~= other.index) by {
            assert(self.index@ =~= a.subrange(3, 5));
            assert(other.index@ =~= b.subrange(3, 5));
        }
        assert(self.skill =~= other.skill) by {
            assert(self.skill@ =~= a.subrange(5, 7));
            assert(other.skill@ =~= b.subrange(5, 7));
        }
        assert(self.killer =~= other.killer) by {
            assert(self.killer@ =~= a.subrange(7, 9));
            assert(other.killer@ =~= b.subrange(7, 9));
        }
    }

    fn write_packed(&self, out: &mut Vec<u8>) {
        self.header.write_packed(out);
        write_array(out, &self.index);
        write_array(out, &self.skill);
        write_array(out, &self.killer);
        proof {
            assert(out@ =~= old(out)@ + self.packed_bytes());
        }
    }

    fn read_packed_at(bytes: &[u8], start: usize) -> (r: Self) {
        let _ = bytes.len();
        let header = PBMSG_HEAD::read_packed_at(bytes, start + 0);
        let index: [BYTE; 2] = read_array(bytes, start + 3);
        let skill: [BYTE; 2] = read_array(bytes, start + 5);
        let killer: [BYTE; 2] = read_array(bytes, start + 7);
        let r = PMSG_USER_DIE_SEND { header, index, skill, killer };
        proof {
            r.header.lemma_packed_bytes_len();
            assert(r.packed_bytes() =~= bytes@.subrange(start as int, start + 9));
        }
        r
    }
}

/// Action broadcast (`PMSG_ACTION_SEND`).
#[derive(Clone, Copy, Debug, PartialEq, Eq)]
pub struct PMSG_ACTION_SEND {
    pub header: PBMSG_HEAD,
    pub index: [BYTE; 2],
    pub dir: BYTE,
    pub action: BYTE,
    pub target: [BYTE; 2],
}

impl PackedLayout for PMSG_ACTION_SEND {
    open spec fn spec_packed_size() -> nat {
        9
    }

    open spec fn packed_bytes(&self) -> Seq<u8> {
        self.header.packed_bytes() + self.index@ + seq![self.dir] + seq![self.action] + self.target@
    }

    fn packed_size() -> (r: usize) {
        9
    }

    proof fn lemma_packed_bytes_len(&self) {
        self.header.lemma_packed_bytes_len();
    }

    proof fn lemma_packed_bytes_injective(&self, other: &Self) {
        self.header.lemma_packed_bytes_len();
        other.header.lemma_packed_bytes_len();
        let a = self.packed_bytes();
        let b = other.packed_bytes();
        assert(self.header.packed_bytes() =~= a.subrange(0, 3));
        assert(other.header.packed_bytes() =~= b.subrange(0, 3));
        self.header.lemma_packed_bytes_injective(&other.header);
        assert(self.index =~= other.index) by {
            assert(self.index@ =~= a.subrange(3, 5));
            assert(other.index@ =~= b.subrange(3, 5));
        }
        assert(a[5] == self.dir && b[5] == other.dir);
        assert(a[6] == self.action && b[6] == other.action);
        assert(self.target =~= other.target) by {
            assert(self.target@ =~= a.subrange(7, 9));
            assert(other.target@ =~= b.subrange(7, 9));
        }
    }

    fn write_packed(&self, out: &mut Vec<u8>) {
        self.header.write_packed(out);
        write_array(out, &self.index);
        out.push(self.dir);
        out.push(self.action);
        write_array(out, &self.target);
        proof {
            assert(out@ =~= old(out)@ + self.packed_bytes());
        }
    }

    fn read_packed_at(bytes: &[u8], start: usize) -> (r: Self) {
        let _ = bytes.len();
        let header = PBMSG_HEAD::read_packed_at(bytes, start + 0);
        let index: [BYTE; 2] = read_array(bytes, start + 3);
        let dir = bytes[start + 5];
        let action = bytes[start + 6];
        let target: [BYTE; 2] = read_array(bytes, start + 7);
        let r = PMSG_ACTION_SEND { header, index, dir, action, target };
        proof {
            r.header.lemma_packed_bytes_len();
            assert(r.packed_bytes() =~= bytes@.subrange(start as int, start + 9));
        }
        r
    }
}

/// Life update (`PMSG_LIFE_SEND`).
#[derive(Clone, Copy, Debug, PartialEq, Eq)]
pub struct PMSG_LIFE_SEND {
    pub header: PBMSG_HEAD,
    pub type_: BYTE,
    pub life: [BYTE; 2],
    pub flag: BYTE,
    pub shield: [BYTE; 2],
}

impl PackedLayout for PMSG_LIFE_SEND {
    open spec fn spec_packed_size() -> nat {
        9
    }

    open spec fn packed_bytes(&self) -> Seq<u8> {
        self.header.packed_bytes() + seq![self.type_] + self.life@ + seq![self.flag] + self.shield@
    }

    fn packed_size() -> (r: usize) {
        9
    }

    proof fn lemma_packed_bytes_len(&self) {
        self.header.lemma_packed_bytes_len();
    }

    proof fn lemma_packed_bytes_injective(&self, other: &Self) {
        self.header.lemma_packed_bytes_len();
        other.header.lemma_packed_bytes_len();
        let a = self.packed_bytes();
        let b = other.packed_bytes();
        assert(self.header.packed_bytes() =~= a.subrange(0, 3));
        assert(other.header.packed_bytes() =~= b.subrange(0, 3));
        self.header.lemma_packed_bytes_injective(&other.header);
        assert(a[3] == self.type_ && b[3] == other.type_);
        assert(self.life =~= other.life) by {
            assert(self.life@ =~= a.subrange(4, 6));
            assert(other.life@ =~= b.subrange(4, 6));
        }
        assert(a[6] == self.flag && b[6] == other.flag);
        assert(self.shield =~= other.shield) by {
            assert(self.shield@ =~= a.subrange(7, 9));
            assert(other.shield@ =~= b.subrange(7, 9));
        }
    }

    fn write_packed(&self, out: &mut Vec<u8>) {
        self.header.write_packed(out);
        out.push(self.type_);
        write_array(out, &self.life);
        out.push(self.flag);
        write_array(out, &self.shield);
        proof {
            assert(out@ =~= old(out)@ + self.packed_bytes());
        }
    }

    fn read_packed_at(bytes: &[u8], start: usize) -> (r: Self) {
        let _ = bytes.len();
        let header = PBMSG_HEAD::read_packed_at(bytes, start + 0);
        let type_ = bytes[start + 3];
        let life: [BYTE; 2] = read_array(bytes, start + 4);
        let flag = bytes[start + 6];
        let shield: [BYTE; 2] = read_array(bytes, start + 7);
        let r = PMSG_LIFE_SEND { header, type_, life, flag, shield };
        proof {
            r.header.lemma_packed_bytes_len();
            assert(r.packed_bytes() =~= bytes@.subrange(start as int, start + 9));
        }
        r
    }
}

/// Move broadcast (`PMSG_MOVE_SEND`).
#[derive(Clone, Copy, Debug, PartialEq, Eq)]
pub struct PMSG_MOVE_SEND {
    pub header: PBMSG_HEAD,
    pub index: [BYTE; 2],
    pub x: BYTE,
    pub y: BYTE,
    pub dir: BYTE,
}

impl PackedLayout for PMSG_MOVE_SEND {
    open spec fn spec_packed_size() -> nat {
        8
    }

    open spec fn packed_bytes(&self) -> Seq<u8> {
        self.header.packed_bytes() + self.index@ + seq![self.x] + seq![self.y] + seq![self.dir]
    }

    fn packed_size() -> (r: usize) {
        8
    }

    proof fn lemma_packed_bytes_len(&self) {
        self.header.lemma_packed_bytes_len();
    }

    proof fn lemma_packed_bytes_injective(&self, other: &Self) {
        self.header.lemma_packed_bytes_len();
        other.header.lemma_packed_bytes_len();
        let a = self.packed_bytes();
        let b = other.packed_bytes();
        assert(self.header.packed_bytes() =~= a.subrange(0, 3));
        assert(other.header.packed_bytes() =~= b.subrange(0, 3));
        self.header.lemma_packed_bytes_injective(&other.header);
        assert(self.index =~= other.index) by {
            assert(self.index@ =~= a.subrange(3, 5));
            assert(other.index@ =~= b.subrange(3, 5));
        }
        assert(a[5] == self.x && b[5] == other.x);
        assert(a[6] == self.y && b[6] == other.y);
        assert(a[7] == self.dir && b[7] == other.dir);
    }

    fn write_packed(&self, out: &mut Vec<u8>) {
        self.header.write_packed(out);
        write_array(out, &self.index);
        out.push(self.x);
        out.push(self.y);
        out.push(self.dir);
        proof {
            assert(out@ =~= old(out)@ + self.packed_bytes());
        }
    }

    fn read_packed_at(bytes: &[u8], start: usize) -> (r: Self) {
        let _ = bytes.len();
        let header = PBMSG_HEAD::read_packed_at(bytes, start + 0);
        let index: [BYTE; 2] = read_array(bytes, start + 3);
        let x = bytes[start + 5];
        let y = bytes[start + 6];
        let dir = bytes[start + 7];
        let r = PMSG_MOVE_SEND { header, index, x, y, dir };
        proof {
            r.header.lemma_packed_bytes_len();
            assert(r.packed_bytes() =~= bytes@.subrange(start as int, start + 8));
        }
        r
    }
}

/// Elemental damage notification (`PMSG_ELEMENTAL_DAMAGE_SEND`).
#[derive(Clone, Copy, Debug, PartialEq, Eq)]
pub struct PMSG_ELEMENTAL_DAMAGE_SEND {
    pub header: PBMSG_HEAD,
    pub index: [BYTE; 2],
    pub attribute: BYTE,
    /// Little-endian 32-bit value.
    pub damage: [BYTE; 4],
}

impl PackedLayout for PMSG_ELEMENTAL_DAMAGE_SEND {
    open spec fn spec_packed_size() -> nat {
        10
    }

    open spec fn packed_bytes(&self) -> Seq<u8> {
        self.header.packed_bytes() + self.index@ + seq![self.attribute] + self.damage@
    }

    fn packed_size() -> (r: usize) {
        10
    }

    proof fn lemma_packed_bytes_len(&self) {
        self.header.lemma_packed_bytes_len();
    }

    proof fn lemma_packed_bytes_injective(&self, other: &Self) {
        self.header.lemma_packed_bytes_len();
        other.header.lemma_packed_bytes_len();
        let a = self.packed_bytes();
        let b = other.packed_bytes();
        assert(self.header.packed_bytes() =~= a.subrange(0, 3));
        assert(other.header.packed_bytes() =~= b.subrange(0, 3));
        self.header.lemma_packed_bytes_injective(&other.header);
        assert(self.index =~= other.index) by {
            assert(self.index@ =~= a.subrange(3, 5));
            assert(other.index@ =~= b.subrange(3, 5));
        }
        assert(a[5] == self.attribute && b[5] == other.attribute);
        assert(self.damage =~= other.damage) by {
            assert(self.damage@ =~= a.subrange(6, 10));
            assert(other.damage@ =~= b.subrange(6, 10));
        }
    }

    fn write_packed(&self, out: &mut Vec<u8>) {
        self.header.write_packed(out);
        write_array(out, &self.index);
        out.push(self.attribute);
        write_array(out, &self.damage);
        proof {
            assert(out@ =~= old(out)@ + self.packed_bytes());
        }
    }

    fn read_packed_at(bytes: &[u8], start: usize) -> (r: Self) {
        let _ = bytes.len();
        let header = PBMSG_HEAD::read_packed_at(bytes, start + 0);
        let index: [BYTE; 2] = read_array(bytes, start + 3);
        let attribute = bytes[start + 5];
        let damage: [BYTE; 4] = read_array(bytes, start + 6);
        let r = PMSG_ELEMENTAL_DAMAGE_SEND { header, index, attribute, damage };
        proof {
            r.header.lemma_packed_bytes_len();
            assert(r.packed_bytes() =~= bytes@.subrange(start as int, start + 10));
        }
        r
    }
}

/// Character creation enable (`PMSG_CHARACTER_CREATION_ENABLE_SEND`).
#[derive(Clone, Copy, Debug, PartialEq, Eq)]
pub struct PMSG_CHARACTER_CREATION_ENABLE_SEND {
    pub header: PBMSG_HEAD,
    pub flag: BYTE,
    pub result: BYTE,
}

impl PackedLayout for PMSG_CHARACTER_CREATION_ENABLE_SEND {
    open spec fn spec_packed_size() -> nat {
        5
    }

    open spec fn packed_bytes(&self) -> Seq<u8> {
        self.header.packed_bytes() + seq![self.flag] + seq![self.result]
    }

    fn packed_size() -> (r: usize) {
        5
    }

    proof fn lemma_packed_bytes_len(&self) {
        self.header.lemma_packed_bytes_len();
    }

    proof fn lemma_packed_bytes_injective(&self, other: &Self) {
        self.header.lemma_packed_bytes_len();
        other.header.lemma_packed_bytes_len();
        let a = self.packed_bytes();
        let b = other.packed_bytes();
        assert(self.header.packed_bytes() =~= a.subrange(0, 3));
        assert(other.header.packed_bytes() =~= b.subrange(0, 3));
        self.header.lemma_packed_bytes_injective(&other.header);
        assert(a[3] == self.flag && b[3] == other.flag);
        assert(a[4] == self.result && b[4] == other.result);
    }

    fn write_packed(&self, out: &mut Vec<u8>) {
        self.header.write_packed(out);
        out.push(self.flag);
        out.push(self.result);
        proof {
            assert(out@ =~= old(out)@ + self.packed_bytes());
        }
    }

    fn read_packed_at(bytes: &[u8], start: usize) -> (r: Self) {
        let _ = bytes.len();
        let header = PBMSG_HEAD::read_packed_at(bytes, start + 0);
        let flag = bytes[start + 3];
        let result = bytes[start + 4];
        let r = PMSG_CHARACTER_CREATION_ENABLE_SEND { header, flag, result };
        proof {
            r.header.lemma_packed_bytes_len();
            assert(r.packed_bytes() =~= bytes@.subrange(start as int, start + 5));
        }
        r
    }
}

/// Life update with 32-bit fields (`PMSG_LIFE_UPDATE_SEND`).
#[derive(Clone, Copy, Debug, PartialEq, Eq)]
pub struct PMSG_LIFE_UPDATE_SEND {
    pub header: PSBMSG_HEAD,
    pub index: [BYTE; 2],
    pub max_hp: [BYTE; 4],
    pub cur_hp: [BYTE; 4],
}

impl PackedLayout for PMSG_LIFE_UPDATE_SEND {
    open spec fn spec_packed_size() -> nat {
        14
    }

    open spec fn packed_bytes(&self) -> Seq<u8> {
        self.header.packed_bytes() + self.index@ + self.max_hp@ + self.cur_hp@
    }

    fn packed_size() -> (r: usize) {
        14
    }

    proof fn lemma_packed_bytes_len(&self) {
        self.header.lemma_packed_bytes_len();
    }

    proof fn lemma_packed_bytes_injective(&self, other: &Self) {
        self.header.lemma_packed_bytes_len();
        other.header.lemma_packed_bytes_len();
        let a = self.packed_bytes();
        let b = other.packed_bytes();
        assert(self.header.packed_bytes() =~= a.subrange(0, 4));
        assert(other.header.packed_bytes() =~= b.subrange(0, 4));
        self.header.lemma_packed_bytes_injective(&other.header);
        assert(self.index =~= other.index) by {
            assert(self.index@ =~= a.subrange(4, 6));
            assert(other.index@ =~= b.subrange(4, 6));
        }
        assert(self.max_hp =~= other.max_hp) by {
            assert(self.max_hp@ =~= a.subrange(6, 10));
            assert(other.max_hp@ =~= b.subrange(6, 10));
        }
        assert(self.cur_hp =~= other.cur_hp) by {
            assert(self.cur_hp@ =~= a.subrange(10, 14));
            assert(other.cur_hp@ =~= b.subrange(10, 14));
        }
    }

    fn write_packed(&self, out: &mut Vec<u8>) {
        self.header.write_packed(out);
        write_array(out, &self.index);
        write_array(out, &self.max_hp);
        write_array(out, &self.cur_hp);
        proof {
            assert(out@ =~= old(out)@ + self.packed_bytes());
        }
    }

    fn read_packed_at(bytes: &[u8], start: usize) -> (r: Self) {
        let _ = bytes.len();
        let header = PSBMSG_HEAD::read_packed_at(bytes, start + 0);
        let index: [BYTE; 2] = read_array(bytes, start + 4);
        let max_hp: [BYTE; 4] = read_array(bytes, start + 6);
        let cur_hp: [BYTE; 4] = read_array(bytes, start + 10);
        let r = PMSG_LIFE_UPDATE_SEND { header, index, max_hp, cur_hp };
        proof {
            r.header.lemma_packed_bytes_len();
            assert(r.packed_bytes() =~= bytes@.subrange(start as int, start + 14));
        }
        r
    }
}

/// Attack speed update (`PMSG_CHARACTER_ATTACK_SPEED_SEND`).
#[derive(Clone, Copy, Debug, PartialEq, Eq)]
pub struct PMSG_CHARACTER_ATTACK_SPEED_SEND {
    pub header: PSBMSG_HEAD,
    /// Little-endian 32-bit value.
    pub physi_speed: [BYTE; 4],
    /// Little-endian 32-bit value.
    pub magic_speed: [BYTE; 4],
}

impl PackedLayout for PMSG_CHARACTER_ATTACK_SPEED_SEND {
    open spec fn spec_packed_size() -> nat {
        12
    }

    open spec fn packed_bytes(&self) -> Seq<u8> {
        self.header.packed_bytes() + self.physi_speed@ + self.magic_speed@
    }

    fn packed_size() -> (r: usize) {
        12
    }

    proof fn lemma_packed_bytes_len(&self) {
        self.header.lemma_packed_bytes_len();
    }

    proof fn lemma_packed_bytes_injective(&self, other: &Self) {
        self.header.lemma_packed_bytes_len();
        other.header.lemma_packed_bytes_len();
        let a = self.packed_bytes();
        let b = other.packed_bytes();
        assert(self.header.packed_bytes() =~= a.subrange(0, 4));
        assert(other.header.packed_bytes() =~= b.subrange(0, 4));
        self.header.lemma_packed_bytes_injective(&other.header);
        assert(self.physi_speed =~= other.physi_speed) by {
            assert(self.physi_speed@ =~= a.subrange(4, 8));
            assert(other.physi_speed@ =~= b.subrange(4, 8));
        }
        assert(self.magic_speed =~= other.magic_speed) by {
            assert(self.magic_speed@ =~= a.subrange(8, 12));
            assert(other.magic_speed@ =~= b.subrange(8, 12));
        }
    }

    fn write_packed(&self, out: &mut Vec<u8>) {
        self.header.write_packed(out);
        write_array(out, &self.physi_speed);
        write_array(out, &self.magic_speed);
        proof {
            assert(out@ =~= old(out)@ + self.packed_bytes());
        }
    }

    fn read_packed_at(bytes: &[u8], start: usize) -> (r: Self) {
        let _ = bytes.len();
        let header = PSBMSG_HEAD::read_packed_at(bytes, start + 0);
        let physi_speed: [BYTE; 4] = read_array(bytes, start + 4);
        let magic_speed: [BYTE; 4] = read_array(bytes, start + 8);
        let r = PMSG_CHARACTER_ATTACK_SPEED_SEND { header, physi_speed, magic_speed };
        proof {
            r.header.lemma_packed_bytes_len();
            assert(r.packed_bytes() =~= bytes@.subrange(start as int, start + 12));
        }
        r
    }
}

/// Event map error (`PMSG_ENTER_EVENT_MAP_ERROR_SEND`).
#[derive(Clone, Copy, Debug, PartialEq, Eq)]
pub struct PMSG_ENTER_EVENT_MAP_ERROR_SEND {
    pub header: PSBMSG_HEAD,
    /// Little-endian 32-bit value.
    pub result: [BYTE; 4],
}

impl PackedLayout for PMSG_ENTER_EVENT_MAP_ERROR_SEND {
    open spec fn spec_packed_size() -> nat {
        8
    }

    open spec fn packed_bytes(&self) -> Seq<u8> {
        self.header.packed_bytes() + self.result@
    }

    fn packed_size() -> (r: usize) {
        8
    }

    proof fn lemma_packed_bytes_len(&self) {
        self.header.lemma_packed_bytes_len();
    }

    proof fn lemma_packed_bytes_injective(&self, other: &Self) {
        self.header.lemma_packed_bytes_len();
        other.header.lemma_packed_bytes_len();
        let a = self.packed_bytes();
        let b = other.packed_bytes();
        assert(self.header.packed_bytes() =~= a.subrange(0, 4));
        assert(other.header.packed_bytes() =~= b.subrange(0, 4));
        self.header.lemma_packed_bytes_injective(&other.header);
        assert(self.result =~= other.result) by {
            assert(self.result@ =~= a.subrange(4, 8));
            assert(other.result@ =~= b.subrange(4, 8));
        }
    }

    fn write_packed(&self, out: &mut Vec<u8>) {
        self.header.write_packed(out);
        write_array(out, &self.result);
        proof {
            assert(out@ =~= old(out)@ + self.packed_bytes());
        }
    }

    fn read_packed_at(bytes: &[u8], start: usize) -> (r: Self) {
        let _ = bytes.len();
        let header = PSBMSG_HEAD::read_packed_at(bytes, start + 0);
        let result: [BYTE; 4] = read_array(bytes, start + 4);
        let r = PMSG_ENTER_EVENT_MAP_ERROR_SEND { header, result };
        proof {
            r.header.lemma_packed_bytes_len();
            assert(r.packed_bytes() =~= bytes@.subrange(start as int, start + 8));
        }
        r
    }
}

/// Connection acknowledgement variant (`PMSG_CONNECT_CLIENT_SEND2`).
#[derive(Clone, Copy, Debug, PartialEq, Eq)]
pub struct PMSG_CONNECT_CLIENT_SEND2 {
    pub header: PSBMSG_HEAD,
    pub result: BYTE,
    pub index: [BYTE; 2],
    pub client_version: [BYTE; CLIENT_VERSION_LEN],
}

impl PackedLayout for PMSG_CONNECT_CLIENT_SEND2 {
    open spec fn spec_packed_size() -> nat {
        12
    }

    open spec fn packed_bytes(&self) -> Seq<u8> {
        self.header.packed_bytes() + seq![self.result] + self.index@ + self.client_version@
    }

    fn packed_size() -> (r: usize) {
        12
    }

    proof fn lemma_packed_bytes_len(&self) {
        self.header.lemma_packed_bytes_len();
    }

    proof fn lemma_packed_bytes_injective(&self, other: &Self) {
        self.header.lemma_packed_bytes_len();
        other.header.lemma_packed_bytes_len();
        let a = self.packed_bytes();
        let b = other.packed_bytes();
        assert(self.header.packed_bytes() =~= a.subrange(0, 4));
        assert(other.header.packed_bytes() =~= b.subrange(0, 4));
        self.header.lemma_packed_bytes_injective(&other.header);
        assert(a[4] == self.result && b[4] == other.result);
        assert(self.index =~= other.index) by {
            assert(self.index@ =~= a.subrange(5, 7));
            assert(other.index@ =~= b.subrange(5, 7));
        }
        assert(self.client_version =~= other.client_version) by {
            assert(self.client_version@ =~= a.subrange(7, 12));
            assert(other.client_version@ =~= b.subrange(7, 12));
        }
    }

    fn write_packed(&self, out: &mut Vec<u8>) {
        self.header.write_packed(out);
        out.push(self.result);
        write_array(out, &self.index);
        write_array(out, &self.client_version);
        proof {
            assert(out@ =~= old(out)@ + self.packed_bytes());
        }
    }

    fn read_packed_at(bytes: &[u8], start: usize) -> (r: Self) {
        let _ = bytes.len();
        let header = PSBMSG_HEAD::read_packed_at(bytes, start + 0);
        let result = bytes[start + 4];
        let index: [BYTE; 2] = read_array(bytes, start + 5);
        let client_version: [BYTE; CLIENT_VERSION_LEN] = read_array(bytes, start + 7);
        let r = PMSG_CONNECT_CLIENT_SEND2 { header, result, index, client_version };
        proof {
            r.header.lemma_packed_bytes_len();
            assert(r.packed_bytes() =~= bytes@.subrange(start as int, start + 12));
        }
        r
    }
}

/// Connection acknowledgement (`PMSG_CONNECT_CLIENT_SEND`).
#[derive(Clone, Copy, Debug, PartialEq, Eq)]
pub struct PMSG_CONNECT_CLIENT_SEND {
    pub header: PSBMSG_HEAD,
    pub result: BYTE,
    pub index: [BYTE; 2],
    pub client_version: [BYTE; CLIENT_VERSION_LEN],
}

impl PackedLayout for PMSG_CONNECT_CLIENT_SEND {
    open spec fn spec_packed_size() -> nat {
        12
    }

    open spec fn packed_bytes(&self) -> Seq<u8> {
        self.header.packed_bytes() + seq![self.result] + self.index@ + self.client_version@
    }

    fn packed_size() -> (r: usize) {
        12
    }

    proof fn lemma_packed_bytes_len(&self) {
        self.header.lemma_packed_bytes_len();
    }

    proof fn lemma_packed_bytes_injective(&self, other: &Self) {
        self.header.lemma_packed_bytes_len();
        other.header.lemma_packed_bytes_len();
        let a = self.packed_bytes();
        let b = other.packed_bytes();
        assert(self.header.packed_bytes() =~= a.subrange(0, 4));
        assert(other.header.packed_bytes() =~= b.subrange(0, 4));
        self.header.lemma_packed_bytes_injective(&other.header);
        assert(a[4] == self.result && b[4] == other.result);
        assert(self.index =~= other.index) by {
            assert(self.index@ =~= a.subrange(5, 7));
            assert(other.index@ =~= b.subrange(5, 7));
        }
        assert(self.client_version =~= other.client_version) by {
            assert(self.client_version@ =~= a.subrange(7, 12));
            assert(other.client_version@ =~= b.subrange(7, 12));
        }
    }

    fn write_packed(&self, out: &mut Vec<u8>) {
        self.header.write_packed(out);
        out.push(self.result);
        write_array(out, &self.index);
        write_array(out, &self.client_version);
        proof {
            assert(out@ =~= old(out)@ + self.packed_bytes());
        }
    }

    fn read_packed_at(bytes: &[u8], start: usize) -> (r: Self) {
        let _ = bytes.len();
        let header = PSBMSG_HEAD::read_packed_at(bytes, start + 0);
        let result = bytes[start + 4];
        let index: [BYTE; 2] = read_array(bytes, start + 5);
        let client_version: [BYTE; CLIENT_VERSION_LEN] = read_array(bytes, start + 7);
        let r = PMSG_CONNECT_CLIENT_SEND { header, result, index, client_version };
        proof {
            r.header.lemma_packed_bytes_len();
            assert(r.packed_bytes() =~= bytes@.subrange(start as int, start + 12));
        }
        r
    }
}

/// Account connection response (`PMSG_CONNECT_ACCOUNT_SEND`).
#[derive(Clone, Copy, Debug, PartialEq, Eq)]
pub struct PMSG_CONNECT_ACCOUNT_SEND {
    pub header: PSBMSG_HEAD,
    pub result: BYTE,
}

impl PackedLayout for PMSG_CONNECT_ACCOUNT_SEND {
    open spec fn spec_packed_size() -> nat {
        5
    }

    open spec fn packed_bytes(&self) -> Seq<u8> {
        self.header.packed_bytes() + seq![self.result]
    }

    fn packed_size() -> (r: usize) {
        5
    }

    proof fn lemma_packed_bytes_len(&self) {
        self.header.lemma_packed_bytes_len();
    }

    proof fn lemma_packed_bytes_injective(&self, other: &Self) {
        self.header.lemma_packed_bytes_len();
        other.header.lemma_packed_bytes_len();
        let a = self.packed_bytes();
        let b = other.packed_bytes();
        assert(self.header.packed_bytes() =~= a.subrange(0, 4));
        assert(other.header.packed_bytes() =~= b.subrange(0, 4));
        self.header.lemma_packed_bytes_injective(&other.header);
        assert(a[4] == self.result && b[4] == other.result);
    }

    fn write_packed(&self, out: &mut Vec<u8>) {
        self.header.write_packed(out);
        out.push(self.result);
        proof {
            assert(out@ =~= old(out)@ + self.packed_bytes());
        }
    }

    fn read_packed_at(bytes: &[u8], start: usize) -> (r: Self) {
        let _ = bytes.len();
        let header = PSBMSG_HEAD::read_packed_at(bytes, start + 0);
        let result = bytes[start + 4];
        let r = PMSG_CONNECT_ACCOUNT_SEND { header, result };
        proof {
            r.header.lemma_packed_bytes_len();
            assert(r.packed_bytes() =~= bytes@.subrange(start as int, start + 5));
        }
        r
    }
}

/// Client close response (`PMSG_CLOSE_CLIENT_SEND`).
#[derive(Clone, Copy, Debug, PartialEq, Eq)]
pub struct PMSG_CLOSE_CLIENT_SEND {
    pub header: PSBMSG_HEAD,
    pub result: BYTE,
}

impl PackedLayout for PMSG_CLOSE_CLIENT_SEND {
    open spec fn spec_packed_size() -> nat {
        5
    }

    open spec fn packed_bytes(&self) -> Seq<u8> {
        self.header.packed_bytes() + seq![self.result]
    }

    fn packed_size() -> (r: usize) {
        5
    }

    proof fn lemma_packed_bytes_len(&self) {
        self.header.lemma_packed_bytes_len();
    }

    proof fn lemma_packed_bytes_injective(&self, other: &Self) {
        self.header.lemma_packed_bytes_len();
        other.header.lemma_packed_bytes_len();
        let a = self.packed_bytes();
        let b = other.packed_bytes();
        assert(self.header.packed_bytes() =~= a.subrange(0, 4));
        assert(other.header.packed_bytes() =~= b.subrange(0, 4));
        self.header.lemma_packed_bytes_injective(&other.header);
        assert(a[4] == self.result && b[4] == other.result);
    }

    fn write_packed(&self, out: &mut Vec<u8>) {
        self.header.write_packed(out);
        out.push(self.result);
        proof {
            assert(out@ =~= old(out)@ + self.packed_bytes());
        }
    }

    fn read_packed_at(bytes: &[u8], start: usize) -> (r: Self) {
        let _ = bytes.len();
        let header = PSBMSG_HEAD::read_packed_at(bytes, start + 0);
        let result = bytes[start + 4];
        let r = PMSG_CLOSE_CLIENT_SEND { header, result };
        proof {
            r.header.lemma_packed_bytes_len();
            assert(r.packed_bytes() =~= bytes@.subrange(start as int, start + 5));
        }
        r
    }
}

/// Character list header (`PMSG_CHARACTER_LIST_SEND`).
#[derive(Clone, Copy, Debug, PartialEq, Eq)]
pub struct PMSG_CHARACTER_LIST_SEND {
    pub header: PSBMSG_HEAD,
    pub class_code: BYTE,
    pub move_cnt: BYTE,
    pub count: BYTE,
}

impl PackedLayout for PMSG_CHARACTER_LIST_SEND {
    open spec fn spec_packed_size() -> nat {
        7
    }

    open spec fn packed_bytes(&self) -> Seq<u8> {
        self.header.packed_bytes() + seq![self.class_code] + seq![self.move_cnt] + seq![self.count]
    }

    fn packed_size() -> (r: usize) {
        7
    }

    proof fn lemma_packed_bytes_len(&self) {
        self.header.lemma_packed_bytes_len();
    }

    proof fn lemma_packed_bytes_injective(&self, other: &Self) {
        self.header.lemma_packed_bytes_len();
        other.header.lemma_packed_bytes_len();
        let a = self.packed_bytes();
        let b = other.packed_bytes();
        assert(self.header.packed_bytes() =~= a.subrange(0, 4));
        assert(other.header.packed_bytes() =~= b.subrange(0, 4));
        self.header.lemma_packed_bytes_injective(&other.header);
        assert(a[4] == self.class_code && b[4] == other.class_code);
        assert(a[5] == self.move_cnt && b[5] == other.move_cnt);
        assert(a[6] == self.count && b[6] == other.count);
    }

    fn write_packed(&self, out: &mut Vec<u8>) {
        self.header.write_packed(out);
        out.push(self.class_code);
        out.push(self.move_cnt);
        out.push(self.count);
        proof {
            assert(out@ =~= old(out)@ + self.packed_bytes());
        }
    }

    fn read_packed_at(bytes: &[u8], start: usize) -> (r: Self) {
        let _ = bytes.len();
        let header = PSBMSG_HEAD::read_packed_at(bytes, start + 0);
        let class_code = bytes[start + 4];
        let move_cnt = bytes[start + 5];
        let count = bytes[start + 6];
        let r = PMSG_CHARACTER_LIST_SEND { header, class_code, move_cnt, count };
        proof {
            r.header.lemma_packed_bytes_len();
            assert(r.packed_bytes() =~= bytes@.subrange(start as int, start + 7));
        }
        r
    }
}

/// Character list entry.
#[derive(Clone, Copy, Debug, PartialEq, Eq)]
pub struct PMSG_CHARACTER_LIST {
    pub slot: BYTE,
    pub name: [BYTE; NAME_LEN],
    /// Little-endian 16-bit value.
    pub level: [BYTE; 2],
    pub ctl_code: BYTE,
    pub charset: [BYTE; 18],
    pub guild_status: BYTE,
}

impl PackedLayout for PMSG_CHARACTER_LIST {
    open spec fn spec_packed_size() -> nat {
        33
    }

    open spec fn packed_bytes(&self) -> Seq<u8> {
        seq![self.slot] + self.name@ + self.level@ + seq![self.ctl_code] + self.charset@ + seq![self.guild_status]
    }

    fn packed_size() -> (r: usize) {
        33
    }

    proof fn lemma_packed_bytes_len(&self) {
    }

    proof fn lemma_packed_bytes_injective(&self, other: &Self) {
        let a = self.packed_bytes();
        let b = other.packed_bytes();
        assert(a[0] == self.slot && b[0] == other.slot);
        assert(self.name =~= other.name) by {
            assert(self.name@ =~= a.subrange(1, 11));
            assert(other.name@ =~= b.subrange(1, 11));
        }
        assert(self.level =~= other.level) by {
            assert(self.level@ =~= a.subrange(11, 13));
            assert(other.level@ =~= b.subrange(11, 13));
        }
        assert(a[13] == self.ctl_code && b[13] == other.ctl_code);
        assert(self.charset =~= other.charset) by {
            assert(self.charset@ =~= a.subrange(14, 32));
            assert(other.charset@ =~= b.subrange(14, 32));
        }
        assert(a[32] == self.guild_status && b[32] == other.guild_status);
    }

    fn write_packed(&self, out: &mut Vec<u8>) {
        out.push(self.slot);
        write_array(out, &self.name);
        write_array(out, &self.level);
        out.push(self.ctl_code);
        write_array(out, &self.charset);
        out.push(self.guild_status);
        proof {
            assert(out@ =~= old(out)@ + self.packed_bytes());
        }
    }

    fn read_packed_at(bytes: &[u8], start: usize) -> (r: Self) {
        let _ = bytes.len();
        let slot = bytes[start + 0];
        let name: [BYTE; NAME_LEN] = read_array(bytes, start + 1);
        let level: [BYTE; 2] = read_array(bytes, start + 11);
        let ctl_code = bytes[start + 13];
        let charset: [BYTE; 18] = read_array(bytes, start + 14);
        let guild_status = bytes[start + 32];
        let r = PMSG_CHARACTER_LIST { slot, name, level, ctl_code, charset, guild_status };
        proof {
            assert(r.packed_bytes() =~= bytes@.subrange(start as int, start + 33));
        }
        r
    }
}

/// Character create response (`PMSG_CHARACTER_CREATE_SEND`).
#[derive(Clone, Copy, Debug, PartialEq, Eq)]
pub struct PMSG_CHARACTER_CREATE_SEND {
    pub header: PSBMSG_HEAD,
    pub result: BYTE,
    pub name: [BYTE; NAME_LEN],
    pub slot: BYTE,
    /// Little-endian 16-bit value.
    pub level: [BYTE; 2],
    pub class: BYTE,
    pub equipment: [BYTE; 24],
}

impl PackedLayout for PMSG_CHARACTER_CREATE_SEND {
    open spec fn spec_packed_size() -> nat {
        43
    }

    open spec fn packed_bytes(&self) -> Seq<u8> {
        self.header.packed_bytes() + seq![self.result] + self.name@ + seq![self.slot] + self.level@ + seq![self.class] + self.equipment@
    }

    fn packed_size() -> (r: usize) {
        43
    }

    proof fn lemma_packed_bytes_len(&self) {
        self.header.lemma_packed_bytes_len();
    }

    proof fn lemma_packed_bytes_injective(&self, other: &Self) {
        self.header.lemma_packed_bytes_len();
        other.header.lemma_packed_bytes_len();
        let a = self.packed_bytes();
        let b = other.packed_bytes();
        assert(self.header.packed_bytes() =~= a.subrange(0, 4));
        assert(other.header.packed_bytes() =~= b.subrange(0, 4));
        self.header.lemma_packed_bytes_injective(&other.header);
        assert(a[4] == self.result && b[4] == other.result);
        assert(self.name =~= other.name) by {
            assert(self.name@ =~= a.subrange(5, 15));
            assert(other.name@ =~= b.subrange(5, 15));
        }
        assert(a[15] == self.slot && b[15] == other.slot);
        assert(self.level =~= other.level) by {
            assert(self.level@ =~= a.subrange(16, 18));
            assert(other.level@ =~= b.subrange(16, 18));
        }
        assert(a[18] == self.class && b[18] == other.class);
        assert(self.equipment =~= other.equipment) by {
            assert(self.equipment@ =~= a.subrange(19, 43));
            assert(other.equipment@ =~= b.subrange(19, 43));
        }
    }

    fn write_packed(&self, out: &mut Vec<u8>) {
        self.header.write_packed(out);
        out.push(self.result);
        write_array(out, &self.name);
        out.push(self.slot);
        write_array(out, &self.level);
        out.push(self.class);
        write_array(out, &self.equipment);
        proof {
            assert(out@ =~= old(out)@ + self.packed_bytes());
        }
    }

    fn read_packed_at(bytes: &[u8], start: usize) -> (r: Self) {
        let _ = bytes.len();
        let header = PSBMSG_HEAD::read_packed_at(bytes, start + 0);
        let result = bytes[start + 4];
        let name: [BYTE; NAME_LEN] = read_array(bytes, start + 5);
        let slot = bytes[start + 15];
        let level: [BYTE; 2] = read_array(bytes, start + 16);
        let class = bytes[start + 18];
        let equipment: [BYTE; 24] = read_array(bytes, start + 19);
        let r = PMSG_CHARACTER_CREATE_SEND { header, result, name, slot, level, class, equipment };
        proof {
            r.header.lemma_packed_bytes_len();
            assert(r.packed_bytes() =~= bytes@.subrange(start as int, start + 43));
        }
        r
    }
}

/// Character delete response (`PMSG_CHARACTER_DELETE_SEND`).
#[derive(Clone, Copy, Debug, PartialEq, Eq)]
pub struct PMSG_CHARACTER_DELETE_SEND {
    pub header: PSBMSG_HEAD,
    pub result: BYTE,
}

impl PackedLayout for PMSG_CHARACTER_DELETE_SEND {
    open spec fn spec_packed_size() -> nat {
        5
    }

    open spec fn packed_bytes(&self) -> Seq<u8> {
        self.header.packed_bytes() + seq![self.result]
    }

    fn packed_size() -> (r: usize) {
        5
    }

    proof fn lemma_packed_bytes_len(&self) {
        self.header.lemma_packed_bytes_len();
    }

    proof fn lemma_packed_bytes_injective(&self, other: &Self) {
        self.header.lemma_packed_bytes_len();
        other.header.lemma_packed_bytes_len();
        let a = self.packed_bytes();
        let b = other.packed_bytes();
        assert(self.header.packed_bytes() =~= a.subrange(0, 4));
        assert(other.header.packed_bytes() =~= b.subrange(0, 4));
        self.header.lemma_packed_bytes_injective(&other.header);
        assert(a[4] == self.result && b[4] == other.result);
    }

    fn write_packed(&self, out: &mut Vec<u8>) {
        self.header.write_packed(out);
        out.push(self.result);
        proof {
            assert(out@ =~= old(out)@ + self.packed_bytes());
        }
    }

    fn read_packed_at(bytes: &[u8], start: usize) -> (r: Self) {
        let _ = bytes.len();
        let header = PSBMSG_HEAD::read_packed_at(bytes, start + 0);
        let result = bytes[start + 4];
        let r = PMSG_CHARACTER_DELETE_SEND { header, result };
        proof {
            r.header.lemma_packed_bytes_len();
            assert(r.packed_bytes() =~= bytes@.subrange(start as int, start + 5));
        }
        r
    }
}

/// Character info payload (`PMSG_CHARACTER_INFO_SEND`).
#[derive(Clone, Copy, Debug, PartialEq, Eq)]
pub struct PMSG_CHARACTER_INFO_SEND {
    pub header: PSBMSG_HEAD,
    pub x: BYTE,
    pub y: BYTE,
    pub map: BYTE,
    pub dir: BYTE,
    pub experience: [BYTE; 8],
    pub next_experience: [BYTE; 8],
    /// Little-endian 16-bit value.
    pub level_up_point: [BYTE; 2],
    /// Little-endian 16-bit value.
    pub strength: [BYTE; 2],
    /// Little-endian 16-bit value.
    pub dexterity: [BYTE; 2],
    /// Little-endian 16-bit value.
    pub vitality: [BYTE; 2],
    /// Little-endian 16-bit value.
    pub energy: [BYTE; 2],
    /// Little-endian 16-bit value.
    pub life: [BYTE; 2],
    /// Little-endian 16-bit value.
    pub max_life: [BYTE; 2],
    /// Little-endian 16-bit value.
    pub mana: [BYTE; 2],
    /// Little-endian 16-bit value.
    pub max_mana: [BYTE; 2],
    /// Little-endian 16-bit value.
    pub shield: [BYTE; 2],
    /// Little-endian 16-bit value.
    pub max_shield: [BYTE; 2],
    /// Little-endian 16-bit value.
    pub bp: [BYTE; 2],
    /// Little-endian 16-bit value.
    pub max_bp: [BYTE; 2],
    /// Little-endian 32-bit value.
    pub money: [BYTE; 4],
    pub pk_level: BYTE,
    pub ctl_code: BYTE,
    /// Little-endian 16-bit value.
    pub fruit_add_point: [BYTE; 2],
    /// Little-endian 16-bit value.
    pub max_fruit_add_point: [BYTE; 2],
    /// Little-endian 16-bit value.
    pub leadership: [BYTE; 2],
    /// Little-endian 16-bit value.
    pub fruit_sub_point: [BYTE; 2],
    /// Little-endian 16-bit value.
    pub max_fruit_sub_point: [BYTE; 2],
}

impl PackedLayout for PMSG_CHARACTER_INFO_SEND {
    open spec fn spec_packed_size() -> nat {
        66
    }

    open spec fn packed_bytes(&self) -> Seq<u8> {
        self.header.packed_bytes() + seq![self.x] + seq![self.y] + seq![self.map] + seq![self.dir] + self.experience@ + self.next_experience@ + self.level_up_point@ + self.strength@ + self.dexterity@ + self.vitality@ + self.energy@ + self.life@ + self.max_life@ + self.mana@ + self.max_mana@ + self.shield@ + self.max_shield@ + self.bp@ + self.max_bp@ + self.money@ + seq![self.pk_level] + seq![self.ctl_code] + self.fruit_add_point@ + self.max_fruit_add_point@ + self.leadership@ + self.fruit_sub_point@ + self.max_fruit_sub_point@
    }

    fn packed_size() -> (r: usize) {
        66
    }

    proof fn lemma_packed_bytes_len(&self) {
        self.header.lemma_packed_bytes_len();
    }

    #[verifier::rlimit(100)]
    #[verifier::spinoff_prover]
    proof fn lemma_packed_bytes_injective(&self, other: &Self) {
        self.header.lemma_packed_bytes_len();
        other.header.lemma_packed_bytes_len();
        let a = self.packed_bytes();
        let b = other.packed_bytes();
        assert(self.header.packed_bytes() =~= a.subrange(0, 4));
        assert(other.header.packed_bytes() =~= b.subrange(0, 4));
        self.header.lemma_packed_bytes_injective(&other.header);
        assert(a[4] == self.x && b[4] == other.x);
        assert(a[5] == self.y && b[5] == other.y);
        assert(a[6] == self.map && b[6] == other.map);
        assert(a[7] == self.dir && b[7] == other.dir);
        assert(self.experience =~= other.experience) by {
            assert(self.experience@ =~= a.subrange(8, 16));
            assert(other.experience@ =~= b.subrange(8, 16));
        }
        assert(self.next_experience =~= other.next_experience) by {
            assert(self.next_experience@ =~= a.subrange(16, 24));
            assert(other.next_experience@ =~= b.subrange(16, 24));
        }
        assert(self.level_up_point =~= other.level_up_point) by {
            assert(self.level_up_point@ =~= a.subrange(24, 26));
            assert(other.level_up_point@ =~= b.subrange(24, 26));
        }
        assert(self.strength =~= other.strength) by {
            assert(self.strength@ =~= a.subrange(26, 28));
            assert(other.strength@ =~= b.subrange(26, 28));
        }
        assert(self.dexterity =~= other.dexterity) by {
            assert(self.dexterity@ =~= a.subrange(28, 30));
            assert(other.dexterity@ =~= b.subrange(28, 30));
        }
        assert(self.vitality =~= other.vitality) by {
            assert(self.vitality@ =~= a.subrange(30, 32));
            assert(other.vitality@ =~= b.subrange(30, 32));
        }
        assert(self.energy =~= other.energy) by {
            assert(self.energy@ =~= a.subrange(32, 34));
            assert(other.energy@ =~= b.subrange(32, 34));
        }
        assert(self.life =~= other.life) by {
            assert(self.life@ =~= a.subrange(34, 36));
            assert(other.life@ =~= b.subrange(34, 36));
        }
        assert(self.max_life =~= other.max_life) by {
            assert(self.max_life@ =~= a.subrange(36, 38));
            assert(other.max_life@ =~= b.subrange(36, 38));
        }
        assert(self.mana =~= other.mana) by {
            assert(self.mana@ =~= a.subrange(38, 40));
            assert(other.mana@ =~= b.subrange(38, 40));
        }
        assert(self.max_mana =~= other.max_mana) by {
            assert(self.max_mana@ =~= a.subrange(40, 42));
            assert(other.max_mana@ =~= b.subrange(40, 42));
        }
        assert(self.shield =~= other.shield) by {
            assert(self.shield@ =~= a.subrange(42, 44));
            assert(other.shield@ =~= b.subrange(42, 44));
        }
        assert(self.max_shield =~= other.max_shield) by {
            assert(self.max_shield@ =~= a.subrange(44, 46));
            assert(other.max_shield@ =~= b.subrange(44, 46));
        }
        assert(self.bp =~= other.bp) by {
            assert(self.bp@ =~= a.subrange(46, 48));
            assert(other.bp@ =~= b.subrange(46, 48));
        }
        assert(self.max_bp =~= other.max_bp) by {
            assert(self.max_bp@ =~= a.subrange(48, 50));
            assert(other.max_bp@ =~= b.subrange(48, 50));
        }
        assert(self.money =~= other.money) by {
            assert(self.money@ =~= a.subrange(50, 54));
            assert(other.money@ =~= b.subrange(50, 54));
        }
        assert(a[54] == self.pk_level && b[54] == other.pk_level);
        assert(a[55] == self.ctl_code && b[55] == other.ctl_code);
        assert(self.fruit_add_point =~= other.fruit_add_point) by {
            assert(self.fruit_add_point@ =~= a.subrange(56, 58));
            assert(other.fruit_add_point@ =~= b.subrange(56, 58));
        }
        assert(self.max_fruit_add_point =~= other.max_fruit_add_point) by {
            assert(self.max_fruit_add_point@ =~= a.subrange(58, 60));
            assert(other.max_fruit_add_point@ =~= b.subrange(58, 60));
        }
        assert(self.leadership =~= other.leadership) by {
            assert(self.leadership@ =~= a.subrange(60, 62));
            assert(other.leadership@ =~= b.subrange(60, 62));
        }
        assert(self.fruit_sub_point =~= other.fruit_sub_point) by {
            assert(self.fruit_sub_point@ =~= a.subrange(62, 64));
            assert(other.fruit_sub_point@ =~= b.subrange(62, 64));
        }
        assert(self.max_fruit_sub_point =~= other.max_fruit_sub_point) by {
            assert(self.max_fruit_sub_point@ =~= a.subrange(64, 66));
            assert(other.max_fruit_sub_point@ =~= b.subrange(64, 66));
        }
    }

    #[verifier::rlimit(100)]
    fn write_packed(&self, out: &mut Vec<u8>) {
        self.header.write_packed(out);
        out.push(self.x);
        out.push(self.y);
        out.push(self.map);
        out.push(self.dir);
        write_array(out, &self.experience);
        write_array(out, &self.next_experience);
        write_array(out, &self.level_up_point);
        write_array(out, &self.strength);
        write_array(out, &self.dexterity);
        write_array(out, &self.vitality);
        write_array(out, &self.energy);
        write_array(out, &self.life);
        write_array(out, &self.max_life);
        write_array(out, &self.mana);
        write_array(out, &self.max_mana);
        write_array(out, &self.shield);
        write_array(out, &self.max_shield);
        write_array(out, &self.bp);
        write_array(out, &self.max_bp);
        write_array(out, &self.money);
        out.push(self.pk_level);
        out.push(self.ctl_code);
        write_array(out, &self.fruit_add_point);
        write_array(out, &self.max_fruit_add_point);
        write_array(out, &self.leadership);
        write_array(out, &self.fruit_sub_point);
        write_array(out, &self.max_fruit_sub_point);
        proof {
            assert(out@ =~= old(out)@ + self.packed_bytes());
        }
    }

    #[verifier::rlimit(100)]
    fn read_packed_at(bytes: &[u8], start: usize) -> (r: Self) {
        let _ = bytes.len();
        let header = PSBMSG_HEAD::read_packed_at(bytes, start + 0);
        let x = bytes[start + 4];
        let y = bytes[start + 5];
        let map = bytes[start + 6];
        let dir = bytes[start + 7];
        let experience: [BYTE; 8] = read_array(bytes, start + 8);
        let next_experience: [BYTE; 8] = read_array(bytes, start + 16);
        let level_up_point: [BYTE; 2] = read_array(bytes, start + 24);
        let strength: [BYTE; 2] = read_array(bytes, start + 26);
        let dexterity: [BYTE; 2] = read_array(bytes, start + 28);
        let vitality: [BYTE; 2] = read_array(bytes, start + 30);
        let energy: [BYTE; 2] = read_array(bytes, start + 32);
        let life: [BYTE; 2] = read_array(bytes, start + 34);
        let max_life: [BYTE; 2] = read_array(bytes, start + 36);
        let mana: [BYTE; 2] = read_array(bytes, start + 38);
        let max_mana: [BYTE; 2] = read_array(bytes, start + 40);
        let shield: [BYTE; 2] = read_array(bytes, start + 42);
        let max_shield: [BYTE; 2] = read_array(bytes, start + 44);
        let bp: [BYTE; 2] = read_array(bytes, start + 46);
        let max_bp: [BYTE; 2] = read_array(bytes, start + 48);
        let money: [BYTE; 4] = read_array(bytes, start + 50);
        let pk_level = bytes[start + 54];
        let ctl_code = bytes[start + 55];
        let fruit_add_point: [BYTE; 2] = read_array(bytes, start + 56);
        let max_fruit_add_point: [BYTE; 2] = read_array(bytes, start + 58);
        let leadership: [BYTE; 2] = read_array(bytes, start + 60);
        let fruit_sub_point: [BYTE; 2] = read_array(bytes, start + 62);
        let max_fruit_sub_point: [BYTE; 2] = read_array(bytes, start + 64);
        let r = PMSG_CHARACTER_INFO_SEND { header, x, y, map, dir, experience, next_experience, level_up_point, strength, dexterity, vitality, energy, life, max_life, mana, max_mana, shield, max_shield, bp, max_bp, money, pk_level, ctl_code, fruit_add_point, max_fruit_add_point, leadership, fruit_sub_point, max_fruit_sub_point };
        proof {
            r.header.lemma_packed_bytes_len();
            assert(r.packed_bytes() =~= bytes@.subrange(start as int, start + 66));
        }
        r
    }
}

/// Character regeneration payload (`PMSG_CHARACTER_REGEN_SEND`).
#[derive(Clone, Copy, Debug, PartialEq, Eq)]
pub struct PMSG_CHARACTER_REGEN_SEND {
    pub header: PSBMSG_HEAD,
    pub x: BYTE,
    pub y: BYTE,
    pub map: BYTE,
    pub dir: BYTE,
    /// Little-endian 16-bit value.
    pub life: [BYTE; 2],
    /// Little-endian 16-bit value.
    pub mana: [BYTE; 2],
    /// Little-endian 16-bit value.
    pub shield: [BYTE; 2],
    /// Little-endian 16-bit value.
    pub bp: [BYTE; 2],
    pub experience: [BYTE; 8],
    /// Little-endian 32-bit value.
    pub money: [BYTE; 4],
}

impl PackedLayout for PMSG_CHARACTER_REGEN_SEND {
    open spec fn spec_packed_size() -> nat {
        28
    }

    open spec fn packed_bytes(&self) -> Seq<u8> {
        self.header.packed_bytes() + seq![self.x] + seq![self.y] + seq![self.map] + seq![self.dir] + self.life@ + self.mana@ + self.shield@ + self.bp@ + self.experience@ + self.money@
    }

    fn packed_size() -> (r: usize) {
        28
    }

    proof fn lemma_packed_bytes_len(&self) {
        self.header.lemma_packed_bytes_len();
    }

    proof fn lemma_packed_bytes_injective(&self, other: &Self) {
        self.header.lemma_packed_bytes_len();
        other.header.lemma_packed_bytes_len();
        let a = self.packed_bytes();
        let b = other.packed_bytes();
        assert(self.header.packed_bytes() =~= a.subrange(0, 4));
        assert(other.header.packed_bytes() =~= b.subrange(0, 4));
        self.header.lemma_packed_bytes_injective(&other.header);
        assert(a[4] == self.x && b[4] == other.x);
        assert(a[5] == self.y && b[5] == other.y);
        assert(a[6] == self.map && b[6] == other.map);
        assert(a[7] == self.dir && b[7] == other.dir);
        assert(self.life =~= other.life) by {
            assert(self.life@ =~= a.subrange(8, 10));
            assert(other.life@ =~= b.subrange(8, 10));
        }
        assert(self.mana =~= other.mana) by {
            assert(self.mana@ =~= a.subrange(10, 12));
            assert(other.mana@ =~= b.subrange(10, 12));
        }
        assert(self.shield =~= other.shield) by {
            assert(self.shield@ =~= a.subrange(12, 14));
            assert(other.shield@ =~= b.subrange(12, 14));
        }
        assert(self.bp =~= other.bp) by {
            assert(self.bp@ =~= a.subrange(14, 16));
            assert(other.bp@ =~= b.subrange(14, 16));
        }
        assert(self.experience =~= other.experience) by {
            assert(self.experience@ =~= a.subrange(16, 24));
            assert(other.experience@ =~= b.subrange(16, 24));
        }
        assert(self.money =~= other.money) by {
            assert(self.money@ =~= a.subrange(24, 28));
            assert(other.money@ =~= b.subrange(24, 28));
        }
    }

    fn write_packed(&self, out: &mut Vec<u8>) {
        self.header.write_packed(out);
        out.push(self.x);
        out.push(self.y);
        out.push(self.map);
        out.push(self.dir);
        write_array(out, &self.life);
        write_array(out, &self.mana);
        write_array(out, &self.shield);
        write_array(out, &self.bp);
        write_array(out, &self.experience);
        write_array(out, &self.money);
        proof {
            assert(out@ =~= old(out)@ + self.packed_bytes());
        }
    }

    fn read_packed_at(bytes: &[u8], start: usize) -> (r: Self) {
        let _ = bytes.len();
        let header = PSBMSG_HEAD::read_packed_at(bytes, start + 0);
        let x = bytes[start + 4];
        let y = bytes[start + 5];
        let map = bytes[start + 6];
        let dir = bytes[start + 7];
        let life: [BYTE; 2] = read_array(bytes, start + 8);
        let mana: [BYTE; 2] = read_array(bytes, start + 10);
        let shield: [BYTE; 2] = read_array(bytes, start + 12);
        let bp: [BYTE; 2] = read_array(bytes, start + 14);
        let experience: [BYTE; 8] = read_array(bytes, start + 16);
        let money: [BYTE; 4] = read_array(bytes, start + 24);
        let r = PMSG_CHARACTER_REGEN_SEND { header, x, y, map, dir, life, mana, shield, bp, experience, money };
        proof {
            r.header.lemma_packed_bytes_len();
            assert(r.packed_bytes() =~= bytes@.subrange(start as int, start + 28));
        }
        r
    }
}

/// Level up payload (`PMSG_LEVEL_UP_SEND`).
#[derive(Clone, Copy, Debug, PartialEq, Eq)]
pub struct PMSG_LEVEL_UP_SEND {
    pub header: PSBMSG_HEAD,
    /// Little-endian 16-bit value.
    pub level: [BYTE; 2],
    /// Little-endian 16-bit value.
    pub level_up_point: [BYTE; 2],
    /// Little-endian 16-bit value.
    pub max_life: [BYTE; 2],
    /// Little-endian 16-bit value.
    pub max_mana: [BYTE; 2],
    /// Little-endian 16-bit value.
    pub max_shield: [BYTE; 2],
    /// Little-endian 16-bit value.
    pub max_bp: [BYTE; 2],
    /// Little-endian 16-bit value.
    pub fruit_add_point: [BYTE; 2],
    /// Little-endian 16-bit value.
    pub max_fruit_add_point: [BYTE; 2],
    /// Little-endian 16-bit value.
    pub fruit_sub_point: [BYTE; 2],
    /// Little-endian 16-bit value.
    pub max_fruit_sub_point: [BYTE; 2],
}

impl PackedLayout for PMSG_LEVEL_UP_SEND {
    open spec fn spec_packed_size() -> nat {
        24
    }

    open spec fn packed_bytes(&self) -> Seq<u8> {
        self.header.packed_bytes() + self.level@ + self.level_up_point@ + self.max_life@ + self.max_mana@ + self.max_shield@ + self.max_bp@ + self.fruit_add_point@ + self.max_fruit_add_point@ + self.fruit_sub_point@ + self.max_fruit_sub_point@
    }

    fn packed_size() -> (r: usize) {
        24
    }

    proof fn lemma_packed_bytes_len(&self) {
        self.header.lemma_packed_bytes_len();
    }

    proof fn lemma_packed_bytes_injective(&self, other: &Self) {
        self.header.lemma_packed_bytes_len();
        other.header.lemma_packed_bytes_len();
        let a = self.packed_bytes();
        let b = other.packed_bytes();
        assert(self.header.packed_bytes() =~= a.subrange(0, 4));
        assert(other.header.packed_bytes() =~= b.subrange(0, 4));
        self.header.lemma_packed_bytes_injective(&other.header);
        assert(self.level =~= other.level) by {
            assert(self.level@ =~= a.subrange(4, 6));
            assert(other.level@ =~= b.subrange(4, 6));
        }
        assert(self.level_up_point =~= other.level_up_point) by {
            assert(self.level_up_point@ =~= a.subrange(6, 8));
            assert(other.level_up_point@ =~= b.subrange(6, 8));
        }
        assert(self.max_life =~= other.max_life) by {
            assert(self.max_life@ =~= a.subrange(8, 10));
            assert(other.max_life@ =~= b.subrange(8, 10));
        }
        assert(self.max_mana =~= other.max_mana) by {
            assert(self.max_mana@ =~= a.subrange(10, 12));
            assert(other.max_mana@ =~= b.subrange(10, 12));
        }
        assert(self.max_shield =~= other.max_shield) by {
            assert(self.max_shield@ =~= a.subrange(12, 14));
            assert(other.max_shield@ =~= b.subrange(12, 14));
        }
        assert(self.max_bp =~= other.max_bp) by {
            assert(self.max_bp@ =~= a.subrange(14, 16));
            assert(other.max_bp@ =~= b.subrange(14, 16));
        }
        assert(self.fruit_add_point =~= other.fruit_add_point) by {
            assert(self.fruit_add_point@ =~= a.subrange(16, 18));
            assert(other.fruit_add_point@ =~= b.subrange(16, 18));
        }
        assert(self.max_fruit_add_point =~= other.max_fruit_add_point) by {
            assert(self.max_fruit_add_point@ =~= a.subrange(18, 20));
            assert(other.max_fruit_add_point@ =~= b.subrange(18, 20));
        }
        assert(self.fruit_sub_point =~= other.fruit_sub_point) by {
            assert(self.fruit_sub_point@ =~= a.subrange(20, 22));
            assert(other.fruit_sub_point@ =~= b.subrange(20, 22));
        }
        assert(self.max_fruit_sub_point =~= other.max_fruit_sub_point) by {
            assert(self.max_fruit_sub_point@ =~= a.subrange(22, 24));
            assert(other.max_fruit_sub_point@ =~= b.subrange(22, 24));
        }
    }

    fn write_packed(&self, out: &mut Vec<u8>) {
        self.header.write_packed(out);
        write_array(out, &self.level);
        write_array(out, &self.level_up_point);
        write_array(out, &self.max_life);
        write_array(out, &self.max_mana);
        write_array(out, &self.max_shield);
        write_array(out, &self.max_bp);
        write_array(out, &self.fruit_add_point);
        write_array(out, &self.max_fruit_add_point);
        write_array(out, &self.fruit_sub_point);
        write_array(out, &self.max_fruit_sub_point);
        proof {
            assert(out@ =~= old(out)@ + self.packed_bytes());
        }
    }

    fn read_packed_at(bytes: &[u8], start: usize) -> (r: Self) {
        let _ = bytes.len();
        let header = PSBMSG_HEAD::read_packed_at(bytes, start + 0);
        let level: [BYTE; 2] = read_array(bytes, start + 4);
        let level_up_point: [BYTE; 2] = read_array(bytes, start + 6);
        let max_life: [BYTE; 2] = read_array(bytes, start + 8);
        let max_mana: [BYTE; 2] = read_array(bytes, start + 10);
        let max_shield: [BYTE; 2] = read_array(bytes, start + 12);
        let max_bp: [BYTE; 2] = read_array(bytes, start + 14);
        let fruit_add_point: [BYTE; 2] = read_array(bytes, start + 16);
        let max_fruit_add_point: [BYTE; 2] = read_array(bytes, start + 18);
        let fruit_sub_point: [BYTE; 2] = read_array(bytes, start + 20);
        let max_fruit_sub_point: [BYTE; 2] = read_array(bytes, start + 22);
        let r = PMSG_LEVEL_UP_SEND { header, level, level_up_point, max_life, max_mana, max_shield, max_bp, fruit_add_point, max_fruit_add_point, fruit_sub_point, max_fruit_sub_point };
        proof {
            r.header.lemma_packed_bytes_len();
            assert(r.packed_bytes() =~= bytes@.subrange(start as int, start + 24));
        }
        r
    }
}

/// Level up point change (`PMSG_LEVEL_UP_POINT_SEND`).
#[derive(Clone, Copy, Debug, PartialEq, Eq)]
pub struct PMSG_LEVEL_UP_POINT_SEND {
    pub header: PSBMSG_HEAD,
    pub result: BYTE,
    /// Little-endian 16-bit value.
    pub max_life_and_mana: [BYTE; 2],
    /// Little-endian 16-bit value.
    pub max_shield: [BYTE; 2],
    /// Little-endian 16-bit value.
    pub max_bp: [BYTE; 2],
}

impl PackedLayout for PMSG_LEVEL_UP_POINT_SEND {
    open spec fn spec_packed_size() -> nat {
        11
    }

    open spec fn packed_bytes(&self) -> Seq<u8> {
        self.header.packed_bytes() + seq![self.result] + self.max_life_and_mana@ + self.max_shield@ + self.max_bp@
    }

    fn packed_size() -> (r: usize) {
        11
    }

    proof fn lemma_packed_bytes_len(&self) {
        self.header.lemma_packed_bytes_len();
    }

    proof fn lemma_packed_bytes_injective(&self, other: &Self) {
        self.header.lemma_packed_bytes_len();
        other.header.lemma_packed_bytes_len();
        let a = self.packed_bytes();
        let b = other.packed_bytes();
        assert(self.header.packed_bytes() =~= a.subrange(0, 4));
        assert(other.header.packed_bytes() =~= b.subrange(0, 4));
        self.header.lemma_packed_bytes_injective(&other.header);
        assert(a[4] == self.result && b[4] == other.result);
        assert(self.max_life_and_mana =~= other.max_life_and_mana) by {
            assert(self.max_life_and_mana@ =~= a.subrange(5, 7));
            assert(other.max_life_and_mana@ =~= b.subrange(5, 7));
        }
        assert(self.max_shield =~= other.max_shield) by {
            assert(self.max_shield@ =~= a.subrange(7, 9));
            assert(other.max_shield@ =~= b.subrange(7, 9));
        }
        assert(self.max_bp =~= other.max_bp) by {
            assert(self.max_bp@ =~= a.subrange(9, 11));
            assert(other.max_bp@ =~= b.subrange(9, 11));
        }
    }

    fn write_packed(&self, out: &mut Vec<u8>) {
        self.header.write_packed(out);
        out.push(self.result);
        write_array(out, &self.max_life_and_mana);
        write_array(out, &self.max_shield);
        write_array(out, &self.max_bp);
        proof {
            assert(out@ =~= old(out)@ + self.packed_bytes());
        }
    }

    fn read_packed_at(bytes: &[u8], start: usize) -> (r: Self) {
        let _ = bytes.len();
        let header = PSBMSG_HEAD::read_packed_at(bytes, start + 0);
        let result = bytes[start + 4];
        let max_life_and_mana: [BYTE; 2] = read_array(bytes, start + 5);
        let max_shield: [BYTE; 2] = read_array(bytes, start + 7);
        let max_bp: [BYTE; 2] = read_array(bytes, start + 9);
        let r = PMSG_LEVEL_UP_POINT_SEND { header, result, max_life_and_mana, max_shield, max_bp };
        proof {
            r.header.lemma_packed_bytes_len();
            assert(r.packed_bytes() =~= bytes@.subrange(start as int, start + 11));
        }
        r
    }
}

/// Extended character calculation payload (`PMSG_NEW_CHARACTER_CALC_SEND`).
#[derive(Clone, Copy, Debug, PartialEq, Eq)]
pub struct PMSG_NEW_CHARACTER_CALC_SEND {
    pub header: PSBMSG_HEAD,
    /// Little-endian 32-bit value.
    pub view_cur_hp: [BYTE; 4],
    /// Little-endian 32-bit value.
    pub view_max_hp: [BYTE; 4],
    /// Little-endian 32-bit value.
    pub view_cur_mp: [BYTE; 4],
    /// Little-endian 32-bit value.
    pub view_max_mp: [BYTE; 4],
    /// Little-endian 32-bit value.
    pub view_cur_bp: [BYTE; 4],
    /// Little-endian 32-bit value.
    pub view_max_bp: [BYTE; 4],
    /// Little-endian 32-bit value.
    pub view_cur_sd: [BYTE; 4],
    /// Little-endian 32-bit value.
    pub view_max_sd: [BYTE; 4],
    /// Little-endian 32-bit value.
    pub view_add_strength: [BYTE; 4],
    /// Little-endian 32-bit value.
    pub view_add_dexterity: [BYTE; 4],
    /// Little-endian 32-bit value.
    pub view_add_vitality: [BYTE; 4],
    /// Little-endian 32-bit value.
    pub view_add_energy: [BYTE; 4],
    /// Little-endian 32-bit value.
    pub view_add_leadership: [BYTE; 4],
    /// Little-endian 32-bit value.
    pub view_physi_damage_min: [BYTE; 4],
    /// Little-endian 32-bit value.
    pub view_physi_damage_max: [BYTE; 4],
    /// Little-endian 32-bit value.
    pub view_magic_damage_min: [BYTE; 4],
    /// Little-endian 32-bit value.
    pub view_magic_damage_max: [BYTE; 4],
    /// Little-endian 32-bit value.
    pub view_curse_damage_min: [BYTE; 4],
    /// Little-endian 32-bit value.
    pub view_curse_damage_max: [BYTE; 4],
    /// Little-endian 32-bit value.
    pub view_mul_physi_damage: [BYTE; 4],
    /// Little-endian 32-bit value.
    pub view_div_physi_damage: [BYTE; 4],
    /// Little-endian 32-bit value.
    pub view_mul_magic_damage: [BYTE; 4],
    /// Little-endian 32-bit value.
    pub view_div_magic_damage: [BYTE; 4],
    /// Little-endian 32-bit value.
    pub view_mul_curse_damage: [BYTE; 4],
    /// Little-endian 32-bit value.
    pub view_div_curse_damage: [BYTE; 4],
    /// Little-endian 32-bit value.
    pub view_magic_damage_rate: [BYTE; 4],
    /// Little-endian 32-bit value.
    pub view_curse_damage_rate: [BYTE; 4],
    /// Little-endian 32-bit value.
    pub view_physi_speed: [BYTE; 4],
    /// Little-endian 32-bit value.
    pub view_magic_speed: [BYTE; 4],
    /// Little-endian 32-bit value.
    pub view_attack_success_rate: [BYTE; 4],
    /// Little-endian 32-bit value.
    pub view_attack_success_rate_pvp: [BYTE; 4],
    /// Little-endian 32-bit value.
    pub view_defense: [BYTE; 4],
    /// Little-endian 32-bit value.
    pub view_defense_success_rate: [BYTE; 4],
    /// Little-endian 32-bit value.
    pub view_defense_success_rate_pvp: [BYTE; 4],
    /// Little-endian 32-bit value.
    pub view_damage_multiplier: [BYTE; 4],
    /// Little-endian 32-bit value.
    pub view_rf_damage_multiplier_a: [BYTE; 4],
    /// Little-endian 32-bit value.
    pub view_rf_damage_multiplier_b: [BYTE; 4],
    /// Little-endian 32-bit value.
    pub view_rf_damage_multiplier_c: [BYTE; 4],
    /// Little-endian 32-bit value.
    pub view_dark_spirit_attack_damage_min: [BYTE; 4],
    /// Little-endian 32-bit value.
    pub view_dark_spirit_attack_damage_max: [BYTE; 4],
    /// Little-endian 32-bit value.
    pub view_dark_spirit_attack_speed: [BYTE; 4],
    /// Little-endian 32-bit value.
    pub view_dark_spirit_attack_success_rate: [BYTE; 4],
}

impl PackedLayout for PMSG_NEW_CHARACTER_CALC_SEND {
    open spec fn spec_packed_size() -> nat {
        172
    }

    open spec fn packed_bytes(&self) -> Seq<u8> {
        self.header.packed_bytes() + self.view_cur_hp@ + self.view_max_hp@ + self.view_cur_mp@ + self.view_max_mp@ + self.view_cur_bp@ + self.view_max_bp@ + self.view_cur_sd@ + self.view_max_sd@ + self.view_add_strength@ + self.view_add_dexterity@ + self.view_add_vitality@ + self.view_add_energy@ + self.view_add_leadership@ + self.view_physi_damage_min@ + self.view_physi_damage_max@ + self.view_magic_damage_min@ + self.view_magic_damage_max@ + self.view_curse_damage_min@ + self.view_curse_damage_max@ + self.view_mul_physi_damage@ + self.view_div_physi_damage@ + self.view_mul_magic_damage@ + self.view_div_magic_damage@ + self.view_mul_curse_damage@ + self.view_div_curse_damage@ + self.view_magic_damage_rate@ + self.view_curse_damage_rate@ + self.view_physi_speed@ + self.view_magic_speed@ + self.view_attack_success_rate@ + self.view_attack_success_rate_pvp@ + self.view_defense@ + self.view_defense_success_rate@ + self.view_defense_success_rate_pvp@ + self.view_damage_multiplier@ + self.view_rf_damage_multiplier_a@ + self.view_rf_damage_multiplier_b@ + self.view_rf_damage_multiplier_c@ + self.view_dark_spirit_attack_damage_min@ + self.view_dark_spirit_attack_damage_max@ + self.view_dark_spirit_attack_speed@ + self.view_dark_spirit_attack_success_rate@
    }

    fn packed_size() -> (r: usize) {
        172
    }

    proof fn lemma_packed_bytes_len(&self) {
        self.header.lemma_packed_bytes_len();
    }

    #[verifier::rlimit(100)]
    #[verifier::spinoff_prover]
    proof fn lemma_packed_bytes_injective(&self, other: &Self) {
        self.header.lemma_packed_bytes_len();
        other.header.lemma_packed_bytes_len();
        let a = self.packed_bytes();
        let b = other.packed_bytes();
        assert(self.header.packed_bytes() =~= a.subrange(0, 4));
        assert(other.header.packed_bytes() =~= b.subrange(0, 4));
        self.header.lemma_packed_bytes_injective(&other.header);
        assert(self.view_cur_hp =~= other.view_cur_hp) by {
            assert(self.view_cur_hp@ =~= a.subrange(4, 8));
            assert(other.view_cur_hp@ =~= b.subrange(4, 8));
        }
        assert(self.view_max_hp =~= other.view_max_hp) by {
            assert(self.view_max_hp@ =~= a.subrange(8, 12));
            assert(other.view_max_hp@ =~= b.subrange(8, 12));
        }
        assert(self.view_cur_mp =~= other.view_cur_mp) by {
            assert(self.view_cur_mp@ =~= a.subrange(12, 16));
            assert(other.view_cur_mp@ =~= b.subrange(12, 16));
        }
        assert(self.view_max_mp =~= other.view_max_mp) by {
            assert(self.view_max_mp@ =~= a.subrange(16, 20));
            assert(other.view_max_mp@ =~= b.subrange(16, 20));
        }
        assert(self.view_cur_bp =~= other.view_cur_bp) by {
            assert(self.view_cur_bp@ =~= a.subrange(20, 24));
            assert(other.view_cur_bp@ =~= b.subrange(20, 24));
        }
        assert(self.view_max_bp =~= other.view_max_bp) by {
            assert(self.view_max_bp@ =~= a.subrange(24, 28));
            assert(other.view_max_bp@ =~= b.subrange(24, 28));
        }
        assert(self.view_cur_sd =~= other.view_cur_sd) by {
            assert(self.view_cur_sd@ =~= a.subrange(28, 32));
            assert(other.view_cur_sd@ =~= b.subrange(28, 32));
        }
        assert(self.view_max_sd =~= other.view_max_sd) by {
            assert(self.view_max_sd@ =~= a.subrange(32, 36));
            assert(other.view_max_sd@ =~= b.subrange(32, 36));
        }
        assert(self.view_add_strength =~= other.view_add_strength) by {
            assert(self.view_add_strength@ =~= a.subrange(36, 40));
            assert(other.view_add_strength@ =~= b.subrange(36, 40));
        }
        assert(self.view_add_dexterity =~= other.view_add_dexterity) by {
            assert(self.view_add_dexterity@ =~= a.subrange(40, 44));
            assert(other.view_add_dexterity@ =~= b.subrange(40, 44));
        }
        assert(self.view_add_vitality =~= other.view_add_vitality) by {
            assert(self.view_add_vitality@ =~= a.subrange(44, 48));
            assert(other.view_add_vitality@ =~= b.subrange(44, 48));
        }
        assert(self.view_add_energy =~= other.view_add_energy) by {
            assert(self.view_add_energy@ =~= a.subrange(48, 52));
            assert(other.view_add_energy@ =~= b.subrange(48, 52));
        }
        assert(self.view_add_leadership =~= other.view_add_leadership) by {
            assert(self.view_add_leadership@ =~= a.subrange(52, 56));
            assert(other.view_add_leadership@ =~= b.subrange(52, 56));
        }
        assert(self.view_physi_damage_min =~= other.view_physi_damage_min) by {
            assert(self.view_physi_damage_min@ =~= a.subrange(56, 60));
            assert(other.view_physi_damage_min@ =~= b.subrange(56, 60));
        }
        assert(self.view_physi_damage_max =~= other.view_physi_damage_max) by {
            assert(self.view_physi_damage_max@ =~= a.subrange(60, 64));
            assert(other.view_physi_damage_max@ =~= b.subrange(60, 64));
        }
        assert(self.view_magic_damage_min =~= other.view_magic_damage_min) by {
            assert(self.view_magic_damage_min@ =~= a.subrange(64, 68));
            assert(other.view_magic_damage_min@ =~= b.subrange(64, 68));
        }
        assert(self.view_magic_damage_max =~= other.view_magic_damage_max) by {
            assert(self.view_magic_damage_max@ =~= a.subrange(68, 72));
            assert(other.view_magic_damage_max@ =~= b.subrange(68, 72));
        }
        assert(self.view_curse_damage_min =~= other.view_curse_damage_min) by {
            assert(self.view_curse_damage_min@ =~= a.subrange(72, 76));
            assert(other.view_curse_damage_min@ =~= b.subrange(72, 76));
        }
        assert(self.view_curse_damage_max =~= other.view_curse_damage_max) by {
            assert(self.view_curse_damage_max@ =~= a.subrange(76, 80));
            assert(other.view_curse_damage_max@ =~= b.subrange(76, 80));
        }
        assert(self.view_mul_physi_damage =~= other.view_mul_physi_damage) by {
            assert(self.view_mul_physi_damage@ =~= a.subrange(80, 84));
            assert(other.view_mul_physi_damage@ =~= b.subrange(80, 84));
        }
        assert(self.view_div_physi_damage =~= other.view_div_physi_damage) by {
            assert(self.view_div_physi_damage@ =~= a.subrange(84, 88));
            assert(other.view_div_physi_damage@ =~= b.subrange(84, 88));
        }
        assert(self.view_mul_magic_damage =~= other.view_mul_magic_damage) by {
            assert(self.view_mul_magic_damage@ =~= a.subrange(88, 92));
            assert(other.view_mul_magic_damage@ =~= b.subrange(88, 92));
        }
        assert(self.view_div_magic_damage =~= other.view_div_magic_damage) by {
            assert(self.view_div_magic_damage@ =~= a.subrange(92, 96));
            assert(other.view_div_magic_damage@ =~= b.subrange(92, 96));
        }
        assert(self.view_mul_curse_damage =~= other.view_mul_curse_damage) by {
            assert(self.view_mul_curse_damage@ =~= a.subrange(96, 100));
            assert(other.view_mul_curse_damage@ =~= b.subrange(96, 100));
        }
        assert(self.view_div_curse_damage =~= other.view_div_curse_damage) by {
            assert(self.view_div_curse_damage@ =~= a.subrange(100, 104));
            assert(other.view_div_curse_damage@ =~= b.subrange(100, 104));
        }
        assert(self.view_magic_damage_rate =~= other.view_magic_damage_rate) by {
            assert(self.view_magic_damage_rate@ =~= a.subrange(104, 108));
            assert(other.view_magic_damage_rate@ =~= b.subrange(104, 108));
        }
        assert(self.view_curse_damage_rate =~= other.view_curse_damage_rate) by {
            assert(self.view_curse_damage_rate@ =~= a.subrange(108, 112));
            assert(other.view_curse_damage_rate@ =~= b.subrange(108, 112));
        }
        assert(self.view_physi_speed =~= other.view_physi_speed) by {
            assert(self.view_physi_speed@ =~= a.subrange(112, 116));
            assert(other.view_physi_speed@ =~= b.subrange(112, 116));
        }
        assert(self.view_magic_speed =~= other.view_magic_speed) by {
            assert(self.view_magic_speed@ =~= a.subrange(116, 120));
            assert(other.view_magic_speed@ =~= b.subrange(116, 120));
        }
        assert(self.view_attack_success_rate =~= other.view_attack_success_rate) by {
            assert(self.view_attack_success_rate@ =~= a.subrange(120, 124));
            assert(other.view_attack_success_rate@ =~= b.subrange(120, 124));
        }
        assert(self.view_attack_success_rate_pvp =~= other.view_attack_success_rate_pvp) by {
            assert(self.view_attack_success_rate_pvp@ =~= a.subrange(124, 128));
            assert(other.view_attack_success_rate_pvp@ =~= b.subrange(124, 128));
        }
        assert(self.view_defense =~= other.view_defense) by {
            assert(self.view_defense@ =~= a.subrange(128, 132));
            assert(other.view_defense@ =~= b.subrange(128, 132));
        }
        assert(self.view_defense_success_rate =~= other.view_defense_success_rate) by {
            assert(self.view_defense_success_rate@ =~= a.subrange(132, 136));
            assert(other.view_defense_success_rate@ =~= b.subrange(132, 136));
        }
        assert(self.view_defense_success_rate_pvp =~= other.view_defense_success_rate_pvp) by {
            assert(self.view_defense_success_rate_pvp@ =~= a.subrange(136, 140));
            assert(other.view_defense_success_rate_pvp@ =~= b.subrange(136, 140));
        }
        assert(self.view_damage_multiplier =~= other.view_damage_multiplier) by {
            assert(self.view_damage_multiplier@ =~= a.subrange(140, 144));
            assert(other.view_damage_multiplier@ =~= b.subrange(140, 144));
        }
        assert(self.view_rf_damage_multiplier_a =~= other.view_rf_damage_multiplier_a) by {
            assert(self.view_rf_damage_multiplier_a@ =~= a.subrange(144, 148));
            assert(other.view_rf_damage_multiplier_a@ =~= b.subrange(144, 148));
        }
        assert(self.view_rf_damage_multiplier_b =~= other.view_rf_damage_multiplier_b) by {
            assert(self.view_rf_damage_multiplier_b@ =~= a.subrange(148, 152));
            assert(other.view_rf_damage_multiplier_b@ =~= b.subrange(148, 152));
        }
        assert(self.view_rf_damage_multiplier_c =~= other.view_rf_damage_multiplier_c) by {
            assert(self.view_rf_damage_multiplier_c@ =~= a.subrange(152, 156));
            assert(other.view_rf_damage_multiplier_c@ =~= b.subrange(152, 156));
        }
        assert(self.view_dark_spirit_attack_damage_min =~= other.view_dark_spirit_attack_damage_min) by {
            assert(self.view_dark_spirit_attack_damage_min@ =~= a.subrange(156, 160));
            assert(other.view_dark_spirit_attack_damage_min@ =~= b.subrange(156, 160));
        }
        assert(self.view_dark_spirit_attack_damage_max =~= other.view_dark_spirit_attack_damage_max) by {
            assert(self.view_dark_spirit_attack_damage_max@ =~= a.subrange(160, 164));
            assert(other.view_dark_spirit_attack_damage_max@ =~= b.subrange(160, 164));
        }
        assert(self.view_dark_spirit_attack_speed =~= other.view_dark_spirit_attack_speed) by {
            assert(self.view_dark_spirit_attack_speed@ =~= a.subrange(164, 168));
            assert(other.view_dark_spirit_attack_speed@ =~= b.subrange(164, 168));
        }
        assert(self.view_dark_spirit_attack_success_rate =~= other.view_dark_spirit_attack_success_rate) by {
            assert(self.view_dark_spirit_attack_success_rate@ =~= a.subrange(168, 172));
            assert(other.view_dark_spirit_attack_success_rate@ =~= b.subrange(168, 172));
        }
    }

    #[verifier::rlimit(100)]
    fn write_packed(&self, out: &mut Vec<u8>) {
        self.header.write_packed(out);
        write_array(out, &self.view_cur_hp);
        write_array(out, &self.view_max_hp);
        write_array(out, &self.view_cur_mp);
        write_array(out, &self.view_max_mp);
        write_array(out, &self.view_cur_bp);
        write_array(out, &self.view_max_bp);
        write_array(out, &self.view_cur_sd);
        write_array(out, &self.view_max_sd);
        write_array(out, &self.view_add_strength);
        write_array(out, &self.view_add_dexterity);
        write_array(out, &self.view_add_vitality);
        write_array(out, &self.view_add_energy);
        write_array(out, &self.view_add_leadership);
        write_array(out, &self.view_physi_damage_min);
        write_array(out, &self.view_physi_damage_max);
        write_array(out, &self.view_magic_damage_min);
        write_array(out, &self.view_magic_damage_max);
        write_array(out, &self.view_curse_damage_min);
        write_array(out, &self.view_curse_damage_max);
        write_array(out, &self.view_mul_physi_damage);
        write_array(out, &self.view_div_physi_damage);
        write_array(out, &self.view_mul_magic_damage);
        write_array(out, &self.view_div_magic_damage);
        write_array(out, &self.view_mul_curse_damage);
        write_array(out, &self.view_div_curse_damage);
        write_array(out, &self.view_magic_damage_rate);
        write_array(out, &self.view_curse_damage_rate);
        write_array(out, &self.view_physi_speed);
        write_array(out, &self.view_magic_speed);
        write_array(out, &self.view_attack_success_rate);
        write_array(out, &self.view_attack_success_rate_pvp);
        write_array(out, &self.view_defense);
        write_array(out, &self.view_defense_success_rate);
        write_array(out, &self.view_defense_success_rate_pvp);
        write_array(out, &self.view_damage_multiplier);
        write_array(out, &self.view_rf_damage_multiplier_a);
        write_array(out, &self.view_rf_damage_multiplier_b);
        write_array(out, &self.view_rf_damage_multiplier_c);
        write_array(out, &self.view_dark_spirit_attack_damage_min);
        write_array(out, &self.view_dark_spirit_attack_damage_max);
        write_array(out, &self.view_dark_spirit_attack_speed);
        write_array(out, &self.view_dark_spirit_attack_success_rate);
        proof {
            assert(out@ =~= old(out)@ + self.packed_bytes());
        }
    }

    #[verifier::rlimit(100)]
    fn read_packed_at(bytes: &[u8], start: usize) -> (r: Self) {
        let _ = bytes.len();
        let header = PSBMSG_HEAD::read_packed_at(bytes, start + 0);
        let view_cur_hp: [BYTE; 4] = read_array(bytes, start + 4);
        let view_max_hp: [BYTE; 4] = read_array(bytes, start + 8);
        let view_cur_mp: [BYTE; 4] = read_array(bytes, start + 12);
        let view_max_mp: [BYTE; 4] = read_array(bytes, start + 16);
        let view_cur_bp: [BYTE; 4] = read_array(bytes, start + 20);
        let view_max_bp: [BYTE; 4] = read_array(bytes, start + 24);
        let view_cur_sd: [BYTE; 4] = read_array(bytes, start + 28);
        let view_max_sd: [BYTE; 4] = read_array(bytes, start + 32);
        let view_add_strength: [BYTE; 4] = read_array(bytes, start + 36);
        let view_add_dexterity: [BYTE; 4] = read_array(bytes, start + 40);
        let view_add_vitality: [BYTE; 4] = read_array(bytes, start + 44);
        let view_add_energy: [BYTE; 4] = read_array(bytes, start + 48);
        let view_add_leadership: [BYTE; 4] = read_array(bytes, start + 52);
        let view_physi_damage_min: [BYTE; 4] = read_array(bytes, start + 56);
        let view_physi_damage_max: [BYTE; 4] = read_array(bytes, start + 60);
        let view_magic_damage_min: [BYTE; 4] = read_array(bytes, start + 64);
        let view_magic_damage_max: [BYTE; 4] = read_array(bytes, start + 68);
        let view_curse_damage_min: [BYTE; 4] = read_array(bytes, start + 72);
        let view_curse_damage_max: [BYTE; 4] = read_array(bytes, start + 76);
        let view_mul_physi_damage: [BYTE; 4] = read_array(bytes, start + 80);
        let view_div_physi_damage: [BYTE; 4] = read_array(bytes, start + 84);
        let view_mul_magic_damage: [BYTE; 4] = read_array(bytes, start + 88);
        let view_div_magic_damage: [BYTE; 4] = read_array(bytes, start + 92);
        let view_mul_curse_damage: [BYTE; 4] = read_array(bytes, start + 96);
        let view_div_curse_damage: [BYTE; 4] = read_array(bytes, start + 100);
        let view_magic_damage_rate: [BYTE; 4] = read_array(bytes, start + 104);
        let view_curse_damage_rate: [BYTE; 4] = read_array(bytes, start + 108);
        let view_physi_speed: [BYTE; 4] = read_array(bytes, start + 112);
        let view_magic_speed: [BYTE; 4] = read_array(bytes, start + 116);
        let view_attack_success_rate: [BYTE; 4] = read_array(bytes, start + 120);
        let view_attack_success_rate_pvp: [BYTE; 4] = read_array(bytes, start + 124);
        let view_defense: [BYTE; 4] = read_array(bytes, start + 128);
        let view_defense_success_rate: [BYTE; 4] = read_array(bytes, start + 132);
        let view_defense_success_rate_pvp: [BYTE; 4] = read_array(bytes, start + 136);
        let view_damage_multiplier: [BYTE; 4] = read_array(bytes, start + 140);
        let view_rf_damage_multiplier_a: [BYTE; 4] = read_array(bytes, start + 144);
        let view_rf_damage_multiplier_b: [BYTE; 4] = read_array(bytes, start + 148);
        let view_rf_damage_multiplier_c: [BYTE; 4] = read_array(bytes, start + 152);
        let view_dark_spirit_attack_damage_min: [BYTE; 4] = read_array(bytes, start + 156);
        let view_dark_spirit_attack_damage_max: [BYTE; 4] = read_array(bytes, start + 160);
        let view_dark_spirit_attack_speed: [BYTE; 4] = read_array(bytes, start + 164);
        let view_dark_spirit_attack_success_rate: [BYTE; 4] = read_array(bytes, start + 168);
        let r = PMSG_NEW_CHARACTER_CALC_SEND { header, view_cur_hp, view_max_hp, view_cur_mp, view_max_mp, view_cur_bp, view_max_bp, view_cur_sd, view_max_sd, view_add_strength, view_add_dexterity, view_add_vitality, view_add_energy, view_add_leadership, view_physi_damage_min, view_physi_damage_max, view_magic_damage_min, view_magic_damage_max, view_curse_damage_min, view_curse_damage_max, view_mul_physi_damage, view_div_physi_damage, view_mul_magic_damage, view_div_magic_damage, view_mul_curse_damage, view_div_curse_damage, view_magic_damage_rate, view_curse_damage_rate, view_physi_speed, view_magic_speed, view_attack_success_rate, view_attack_success_rate_pvp, view_defense, view_defense_success_rate, view_defense_success_rate_pvp, view_damage_multiplier, view_rf_damage_multiplier_a, view_rf_damage_multiplier_b, view_rf_damage_multiplier_c, view_dark_spirit_attack_damage_min, view_dark_spirit_attack_damage_max, view_dark_spirit_attack_speed, view_dark_spirit_attack_success_rate };
        proof {
            r.header.lemma_packed_bytes_len();
            assert(r.packed_bytes() =~= bytes@.subrange(start as int, start + 172));
        }
        r
    }
}

/// Health bar collection (`PMSG_NEW_HEALTH_BAR_SEND`).
#[derive(Clone, Copy, Debug, PartialEq, Eq)]
pub struct PMSG_NEW_HEALTH_BAR_SEND {
    pub header: PSWMSG_HEAD,
    pub count: BYTE,
}

impl PackedLayout for PMSG_NEW_HEALTH_BAR_SEND {
    open spec fn spec_packed_size() -> nat {
        6
    }

    open spec fn packed_bytes(&self) -> Seq<u8> {
        self.header.packed_bytes() + seq![self.count]
    }

    fn packed_size() -> (r: usize) {
        6
    }

    proof fn lemma_packed_bytes_len(&self) {
        self.header.lemma_packed_bytes_len();
    }

    proof fn lemma_packed_bytes_injective(&self, other: &Self) {
        self.header.lemma_packed_bytes_len();
        other.header.lemma_packed_bytes_len();
        let a = self.packed_bytes();
        let b = other.packed_bytes();
        assert(self.header.packed_bytes() =~= a.subrange(0, 5));
        assert(other.header.packed_bytes() =~= b.subrange(0, 5));
        self.header.lemma_packed_bytes_injective(&other.header);
        assert(a[5] == self.count && b[5] == other.count);
    }

    fn write_packed(&self, out: &mut Vec<u8>) {
        self.header.write_packed(out);
        out.push(self.count);
        proof {
            assert(out@ =~= old(out)@ + self.packed_bytes());
        }
    }

    fn read_packed_at(bytes: &[u8], start: usize) -> (r: Self) {
        let _ = bytes.len();
        let header = PSWMSG_HEAD::read_packed_at(bytes, start + 0);
        let count = bytes[start + 5];
        let r = PMSG_NEW_HEALTH_BAR_SEND { header, count };
        proof {
            r.header.lemma_packed_bytes_len();
            assert(r.packed_bytes() =~= bytes@.subrange(start as int, start + 6));
        }
        r
    }
}

/// Health bar entry (`PMSG_NEW_HEALTH_BAR`).
#[derive(Clone, Copy, Debug, PartialEq, Eq)]
pub struct PMSG_NEW_HEALTH_BAR {
    /// Little-endian 16-bit value.
    pub index: [BYTE; 2],
    pub type_: BYTE,
    pub rate: BYTE,
    pub rate2: BYTE,
}

impl PackedLayout for PMSG_NEW_HEALTH_BAR {
    open spec fn spec_packed_size() -> nat {
        5
    }

    open spec fn packed_bytes(&self) -> Seq<u8> {
        self.index@ + seq![self.type_] + seq![self.rate] + seq![self.rate2]
    }

    fn packed_size() -> (r: usize) {
        5
    }

    proof fn lemma_packed_bytes_len(&self) {
    }

    proof fn lemma_packed_bytes_injective(&self, other: &Self) {
        let a = self.packed_bytes();
        let b = other.packed_bytes();
        assert(self.index =~= other.index) by {
            assert(self.index@ =~= a.subrange(0, 2));
            assert(other.index@ =~= b.subrange(0, 2));
        }
        assert(a[2] == self.type_ && b[2] == other.type_);
        assert(a[3] == self.rate && b[3] == other.rate);
        assert(a[4] == self.rate2 && b[4] == other.rate2);
    }

    fn write_packed(&self, out: &mut Vec<u8>) {
        write_array(out, &self.index);
        out.push(self.type_);
        out.push(self.rate);
        out.push(self.rate2);
        proof {
            assert(out@ =~= old(out)@ + self.packed_bytes());
        }
    }

    fn read_packed_at(bytes: &[u8], start: usize) -> (r: Self) {
        let _ = bytes.len();
        let index: [BYTE; 2] = read_array(bytes, start + 0);
        let type_ = bytes[start + 2];
        let rate = bytes[start + 3];
        let rate2 = bytes[start + 4];
        let r = PMSG_NEW_HEALTH_BAR { index, type_, rate, rate2 };
        proof {
            assert(r.packed_bytes() =~= bytes@.subrange(start as int, start + 5));
        }
        r
    }
}

/// Gens battle info (`PMSG_NEW_GENS_BATTLE_INFO_SEND`).
#[derive(Clone, Copy, Debug, PartialEq, Eq)]
pub struct PMSG_NEW_GENS_BATTLE_INFO_SEND {
    pub header: PSBMSG_HEAD,
    pub gens_battle_map_count: BYTE,
    pub gens_move_index_count: BYTE,
    pub gens_battle_map: [BYTE; 120],
    pub gens_move_index: [BYTE; 120],
}

impl PackedLayout for PMSG_NEW_GENS_BATTLE_INFO_SEND {
    open spec fn spec_packed_size() -> nat {
        246
    }

    open spec fn packed_bytes(&self) -> Seq<u8> {
        self.header.packed_bytes() + seq![self.gens_battle_map_count] + seq![self.gens_move_index_count] + self.gens_battle_map@ + self.gens_move_index@
    }

    fn packed_size() -> (r: usize) {
        246
    }

    proof fn lemma_packed_bytes_len(&self) {
        self.header.lemma_packed_bytes_len();
    }

    proof fn lemma_packed_bytes_injective(&self, other: &Self) {
        self.header.lemma_packed_bytes_len();
        other.header.lemma_packed_bytes_len();
        let a = self.packed_bytes();
        let b = other.packed_bytes();
        assert(self.header.packed_bytes() =~= a.subrange(0, 4));
        assert(other.header.packed_bytes() =~= b.subrange(0, 4));
        self.header.lemma_packed_bytes_injective(&other.header);
        assert(a[4] == self.gens_battle_map_count && b[4] == other.gens_battle_map_count);
        assert(a[5] == self.gens_move_index_count && b[5] == other.gens_move_index_count);
        assert(self.gens_battle_map =~= other.gens_battle_map) by {
            assert(self.gens_battle_map@ =~= a.subrange(6, 126));
            assert(other.gens_battle_map@ =~= b.subrange(6, 126));
        }
        assert(self.gens_move_index =~= other.gens_move_index) by {
            assert(self.gens_move_index@ =~= a.subrange(126, 246));
            assert(other.gens_move_index@ =~= b.subrange(126, 246));
        }
    }

    fn write_packed(&self, out: &mut Vec<u8>) {
        self.header.write_packed(out);
        out.push(self.gens_battle_map_count);
        out.push(self.gens_move_index_count);
        write_array(out, &self.gens_battle_map);
        write_array(out, &self.gens_move_index);
        proof {
            assert(out@ =~= old(out)@ + self.packed_bytes());
        }
    }

    fn read_packed_at(bytes: &[u8], start: usize) -> (r: Self) {
        let _ = bytes.len();
        let header = PSBMSG_HEAD::read_packed_at(bytes, start + 0);
        let gens_battle_map_count = bytes[start + 4];
        let gens_move_index_count = bytes[start + 5];
        let gens_battle_map: [BYTE; 120] = read_array(bytes, start + 6);
        let gens_move_index: [BYTE; 120] = read_array(bytes, start + 126);
        let r = PMSG_NEW_GENS_BATTLE_INFO_SEND { header, gens_battle_map_count, gens_move_index_count, gens_battle_map, gens_move_index };
        proof {
            r.header.lemma_packed_bytes_len();
            assert(r.packed_bytes() =~= bytes@.subrange(start as int, start + 246));
        }
        r
    }
}

/// Server message with inline string (`PMSG_NEW_MESSAGE_SEND`).
#[derive(Clone, Copy, Debug, PartialEq, Eq)]
pub struct PMSG_NEW_MESSAGE_SEND {
    pub header: PSBMSG_HEAD,
    pub message: [BYTE; 128],
}

impl PackedLayout for PMSG_NEW_MESSAGE_SEND {
    open spec fn spec_packed_size() -> nat {
        132
    }

    open spec fn packed_bytes(&self) -> Seq<u8> {
        self.header.packed_bytes() + self.message@
    }

    fn packed_size() -> (r: usize) {
        132
    }

    proof fn lemma_packed_bytes_len(&self) {
        self.header.lemma_packed_bytes_len();
    }

    proof fn lemma_packed_bytes_injective(&self, other: &Self) {
        self.header.lemma_packed_bytes_len();
        other.header.lemma_packed_bytes_len();
        let a = self.packed_bytes();
        let b = other.packed_bytes();
        assert(self.header.packed_bytes() =~= a.subrange(0, 4));
        assert(other.header.packed_bytes() =~= b.subrange(0, 4));
        self.header.lemma_packed_bytes_injective(&other.header);
        assert(self.message =~= other.message) by {
            assert(self.message@ =~= a.subrange(4, 132));
            assert(other.message@ =~= b.subrange(4, 132));
        }
    }

    fn write_packed(&self, out: &mut Vec<u8>) {
        self.header.write_packed(out);
        write_array(out, &self.message);
        proof {
            assert(out@ =~= old(out)@ + self.packed_bytes());
        }
    }

    fn read_packed_at(bytes: &[u8], start: usize) -> (r: Self) {
        let _ = bytes.len();
        let header = PSBMSG_HEAD::read_packed_at(bytes, start + 0);
        let message: [BYTE; 128] = read_array(bytes, start + 4);
        let r = PMSG_NEW_MESSAGE_SEND { header, message };
        proof {
            r.header.lemma_packed_bytes_len();
            assert(r.packed_bytes() =~= bytes@.subrange(start as int, start + 132));
        }
        r
    }
}

/// Off-trade response (`PMSG_OFFTRADE_SEND`).
#[derive(Clone, Copy, Debug, PartialEq, Eq)]
pub struct PMSG_OFFTRADE_SEND {
    pub header: PSBMSG_HEAD,
    /// Little-endian 32-bit signed value.
    pub type_: [BYTE; 4],
}

impl PackedLayout for PMSG_OFFTRADE_SEND {
    open spec fn spec_packed_size() -> nat {
        8
    }

    open spec fn packed_bytes(&self) -> Seq<u8> {
        self.header.packed_bytes() + self.type_@
    }

    fn packed_size() -> (r: usize) {
        8
    }

    proof fn lemma_packed_bytes_len(&self) {
        self.header.lemma_packed_bytes_len();
    }

    proof fn lemma_packed_bytes_injective(&self, other: &Self) {
        self.header.lemma_packed_bytes_len();
        other.header.lemma_packed_bytes_len();
        let a = self.packed_bytes();
        let b = other.packed_bytes();
        assert(self.header.packed_bytes() =~= a.subrange(0, 4));
        assert(other.header.packed_bytes() =~= b.subrange(0, 4));
        self.header.lemma_packed_bytes_injective(&other.header);
        assert(self.type_ =~= other.type_) by {
            assert(self.type_@ =~= a.subrange(4, 8));
            assert(other.type_@ =~= b.subrange(4, 8));
        }
    }

    fn write_packed(&self, out: &mut Vec<u8>) {
        self.header.write_packed(out);
        write_array(out, &self.type_);
        proof {
            assert(out@ =~= old(out)@ + self.packed_bytes());
        }
    }

    fn read_packed_at(bytes: &[u8], start: usize) -> (r: Self) {
        let _ = bytes.len();
        let header = PSBMSG_HEAD::read_packed_at(bytes, start + 0);
        let type_: [BYTE; 4] = read_array(bytes, start + 4);
        let r = PMSG_OFFTRADE_SEND { header, type_ };
        proof {
            r.header.lemma_packed_bytes_len();
            assert(r.packed_bytes() =~= bytes@.subrange(start as int, start + 8));
        }
        r
    }
}

/// Shop active response (`PMSG_SHOPACTIVE_SEND`).
#[derive(Clone, Copy, Debug, PartialEq, Eq)]
pub struct PMSG_SHOPACTIVE_SEND {
    pub header: PSBMSG_HEAD,
    /// Little-endian 32-bit signed value.
    pub active: [BYTE; 4],
    /// Little-endian 32-bit signed value.
    pub type_: [BYTE; 4],
}

impl PackedLayout for PMSG_SHOPACTIVE_SEND {
    open spec fn spec_packed_size() -> nat {
        12
    }

    open spec fn packed_bytes(&self) -> Seq<u8> {
        self.header.packed_bytes() + self.active@ + self.type_@
    }

    fn packed_size() -> (r: usize) {
        12
    }

    proof fn lemma_packed_bytes_len(&self) {
        self.header.lemma_packed_bytes_len();
    }

    proof fn lemma_packed_bytes_injective(&self, other: &Self) {
        self.header.lemma_packed_bytes_len();
        other.header.lemma_packed_bytes_len();
        let a = self.packed_bytes();
        let b = other.packed_bytes();
        assert(self.header.packed_bytes() =~= a.subrange(0, 4));
        assert(other.header.packed_bytes() =~= b.subrange(0, 4));
        self.header.lemma_packed_bytes_injective(&other.header);
        assert(self.active =~= other.active) by {
            assert(self.active@ =~= a.subrange(4, 8));
            assert(other.active@ =~= b.subrange(4, 8));
        }
        assert(self.type_ =~= other.type_) by {
            assert(self.type_@ =~= a.subrange(8, 12));
            assert(other.type_@ =~= b.subrange(8, 12));
        }
    }

    fn write_packed(&self, out: &mut Vec<u8>) {
        self.header.write_packed(out);
        write_array(out, &self.active);
        write_array(out, &self.type_);
        proof {
            assert(out@ =~= old(out)@ + self.packed_bytes());
        }
    }

    fn read_packed_at(bytes: &[u8], start: usize) -> (r: Self) {
        let _ = bytes.len();
        let header = PSBMSG_HEAD::read_packed_at(bytes, start + 0);
        let active: [BYTE; 4] = read_array(bytes, start + 4);
        let type_: [BYTE; 4] = read_array(bytes, start + 8);
        let r = PMSG_SHOPACTIVE_SEND { header, active, type_ };
        proof {
            r.header.lemma_packed_bytes_len();
            assert(r.packed_bytes() =~= bytes@.subrange(start as int, start + 12));
        }
        r
    }
}

/// Ping keep-alive (`PMSG_PING_SEND`).
#[derive(Clone, Copy, Debug, PartialEq, Eq)]
pub struct PMSG_PING_SEND {
    pub header: PSBMSG_HEAD,
}

impl PackedLayout for PMSG_PING_SEND {
    open spec fn spec_packed_size() -> nat {
        4
    }

    open spec fn packed_bytes(&self) -> Seq<u8> {
        self.header.packed_bytes()
    }

    fn packed_size() -> (r: usize) {
        4
    }

    proof fn lemma_packed_bytes_len(&self) {
        self.header.lemma_packed_bytes_len();
    }

    proof fn lemma_packed_bytes_injective(&self, other: &Self) {
        self.header.lemma_packed_bytes_len();
        other.header.lemma_packed_bytes_len();
        let a = self.packed_bytes();
        let b = other.packed_bytes();
        assert(self.header.packed_bytes() =~= a.subrange(0, 4));
        assert(other.header.packed_bytes() =~= b.subrange(0, 4));
        self.header.lemma_packed_bytes_injective(&other.header);
    }

    fn write_packed(&self, out: &mut Vec<u8>) {
        self.header.write_packed(out);
        proof {
            assert(out@ =~= old(out)@ + self.packed_bytes());
        }
    }

    fn read_packed_at(bytes: &[u8], start: usize) -> (r: Self) {
        let _ = bytes.len();
        let header = PSBMSG_HEAD::read_packed_at(bytes, start + 0);
        let r = PMSG_PING_SEND { header };
        proof {
            r.header.lemma_packed_bytes_len();
            assert(r.packed_bytes() =~= bytes@.subrange(start as int, start + 4));
        }
        r
    }
}

} // verus!
