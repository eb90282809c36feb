//! Binary framing for MU protocol messages over QUIC.
//!
//! Packets travel as a `postcard` payload inside a frame:
//!
//! - a datagram frame is the channel id byte followed by the payload;
//! - a stream frame is the magic `MU`, the channel id byte, the payload length
//!   as a little-endian `u32`, then the payload.
//!
//! Turning a packet into payload bytes and back is done by `postcard`, which
//! needs the packet types' serde implementations; the functions here take the
//! outcome of that step as an argument and do everything else: channel,
//! version and size checks, building frames and splitting them apart.

use crate::channel::{channel_from_id, InvalidChannel, QuicChannel, TransportKind};
use crate::message::{
    spec_protocol_version, current_protocol_version, ClientMessage, PacketPayload,
    ProtocolVersion, ServerMessage, WirePacket,
};
use vstd::prelude::*;

verus! {

/// The error type of `postcard`, carried by [`CodecError::Serialization`].
#[verifier::external_type_specification]
#[verifier::external_body]
pub struct ExPostcardError(postcard::Error);

/// First byte of the stream frame magic (`M`).
pub const STREAM_MAGIC_FIRST: u8 = 0x4D;

/// Second byte of the stream frame magic (`U`).
pub const STREAM_MAGIC_SECOND: u8 = 0x55;

pub const STREAM_LENGTH_LEN: usize = 4;

pub const STREAM_CHANNEL_LEN: usize = 1;

pub const STREAM_MAGIC_LEN: usize = 2;

pub const DATAGRAM_CHANNEL_LEN: usize = 1;

/// Number of bytes in the stream frame header.
pub const STREAM_FRAME_HEADER_LEN: usize = STREAM_MAGIC_LEN + STREAM_CHANNEL_LEN + STREAM_LENGTH_LEN;

/// Limits used by the wire codec to protect against malformed payloads.
#[derive(Clone, Copy, Debug, PartialEq, Eq, Structural)]
pub struct CodecLimits {
    pub max_datagram_size: usize,
    pub max_stream_payload_size: usize,
}

impl CodecLimits {
    /// The default limits: 1200-byte datagrams (a safe size for internet
    /// paths without MTU discovery) and 64 KiB stream payloads.
    pub open spec fn spec_default() -> CodecLimits {
        CodecLimits { max_datagram_size: 1200, max_stream_payload_size: 65536 }
    }
}

impl Default for CodecLimits {
    fn default() -> (r: Self)
        ensures
            r == CodecLimits::spec_default(),
    {
        Self { max_datagram_size: 1200, max_stream_payload_size: 64 * 1024 }
    }
}

/// Decoded datagram frame payload.
#[derive(Clone, Debug, PartialEq, Eq)]
pub struct DecodedDatagramFrame {
    pub channel: QuicChannel,
    pub packet: WirePacket,
}

/// Decoded stream frame payload.
#[derive(Clone, Debug, PartialEq, Eq)]
pub struct DecodedStreamFrame {
    pub channel: QuicChannel,
    pub packet: WirePacket,
}

/// Errors produced while encoding/decoding wire packets.
#[derive(Debug)]
pub enum CodecError {
    VersionMismatch { expected: ProtocolVersion, actual: ProtocolVersion },
    ChannelMismatch { channel: QuicChannel, expected: QuicChannel },
    NotDatagramChannel { channel: QuicChannel },
    NotStreamChannel { channel: QuicChannel },
    EmptyDatagram,
    DatagramTooLarge { limit: usize, actual: usize },
    StreamPayloadTooLarge { limit: usize, actual: usize },
    InvalidStreamMagic { actual: [u8; 2] },
    Serialization(postcard::Error),
    InvalidChannel(InvalidChannel),
}

/// Where the frame at the start of a stream buffer lies: its channel, the
/// length of its payload (which starts right after the
/// [`STREAM_FRAME_HEADER_LEN`]-byte header) and the length of the whole frame.
#[derive(Clone, Copy, Debug, PartialEq, Eq, Structural)]
pub struct StreamFrameSpan {
    pub channel: QuicChannel,
    pub payload_len: usize,
    pub total_len: usize,
}

/// Wire codec: QUIC-aware framing and checks around `postcard` payloads.
#[derive(Clone, Debug)]
pub struct WireCodec {
    expected_version: ProtocolVersion,
    limits: CodecLimits,
}

/// Returns the default channel for a payload variant.
pub open spec fn spec_preferred_channel(payload: PacketPayload) -> QuicChannel {
    match payload {
        PacketPayload::Client(msg) => match msg {
            ClientMessage::Move(_) => QuicChannel::GameplayInput,
            ClientMessage::UseSkill(_) => QuicChannel::GameplayEvent,
            ClientMessage::Chat(_) => QuicChannel::Chat,
            _ => QuicChannel::Control,
        },
        PacketPayload::Server(msg) => match msg {
            ServerMessage::StateDelta { .. } => QuicChannel::GameplayInput,
            ServerMessage::Chat(_) => QuicChannel::Chat,
            ServerMessage::EnterMap { .. } => QuicChannel::GameplayEvent,
            _ => QuicChannel::Control,
        },
    }
}

/// Returns the default channel for a payload variant.
pub fn preferred_channel(payload: &PacketPayload) -> (r: QuicChannel)
    ensures
        r == spec_preferred_channel(*payload),
{
    match payload {
        PacketPayload::Client(msg) => match msg {
            ClientMessage::Move(_) => QuicChannel::GameplayInput,
            ClientMessage::UseSkill(_) => QuicChannel::GameplayEvent,
            ClientMessage::Chat(_) => QuicChannel::Chat,
            ClientMessage::Hello(_)
            | ClientMessage::KeepAlive { .. }
            | ClientMessage::SelectCharacter { .. }
            | ClientMessage::MapTransferAck { .. }
            | ClientMessage::Logout => QuicChannel::Control,
        },
        PacketPayload::Server(msg) => match msg {
            ServerMessage::StateDelta { .. } => QuicChannel::GameplayInput,
            ServerMessage::Chat(_) => QuicChannel::Chat,
            ServerMessage::EnterMap { .. } => QuicChannel::GameplayEvent,
            ServerMessage::HelloAck { .. }
            | ServerMessage::CharacterList { .. }
            | ServerMessage::MapTransfer(_)
            | ServerMessage::Pong { .. }
            | ServerMessage::Error { .. } => QuicChannel::Control,
        },
    }
}

/// How payloads are routed: only client movement and server state deltas
/// travel on the unreliable `GameplayInput` datagram channel; skill use and
/// map entry are reliable `GameplayEvent` stream traffic, chat goes on
/// `Chat`, and every other message on `Control`. In particular every
/// payload but movement and state deltas is sent on a reliable stream.
pub proof fn lemma_preferred_channel_routing(payload: PacketPayload)
    ensures
        (spec_preferred_channel(payload) == QuicChannel::GameplayInput) <==> (payload matches PacketPayload::Client(ClientMessage::Move(_))
            || payload matches PacketPayload::Server(ServerMessage::StateDelta { .. })),
        (spec_preferred_channel(payload).spec_transport() == TransportKind::Datagram) <==> (payload matches PacketPayload::Client(ClientMessage::Move(_))
            || payload matches PacketPayload::Server(ServerMessage::StateDelta { .. })),
        payload matches PacketPayload::Client(ClientMessage::UseSkill(_)) ==> spec_preferred_channel(
            payload,
        ) == QuicChannel::GameplayEvent && spec_preferred_channel(payload).spec_delivery()
            == crate::channel::DeliveryGuarantee::ReliableOrdered,
        payload matches PacketPayload::Server(ServerMessage::EnterMap { .. })
            ==> spec_preferred_channel(payload) == QuicChannel::GameplayEvent,
        (spec_preferred_channel(payload) == QuicChannel::Chat) <==> (payload matches PacketPayload::Client(ClientMessage::Chat(_))
            || payload matches PacketPayload::Server(ServerMessage::Chat(_))),
        (spec_preferred_channel(payload) == QuicChannel::GameplayEvent) <==> (payload matches PacketPayload::Client(ClientMessage::UseSkill(_))
            || payload matches PacketPayload::Server(ServerMessage::EnterMap { .. })),
        spec_preferred_channel(payload) != QuicChannel::Economy,
{
}

/// The four little-endian bytes of `n`.
pub open spec fn le_u32_bytes(n: u32) -> Seq<u8> {
    seq![
        (n % 256) as u8,
        ((n / 256) % 256) as u8,
        ((n / 65536) % 256) as u8,
        (n / 16777216) as u8,
    ]
}

/// The value of four little-endian bytes.
pub open spec fn le_u32_value(b0: u8, b1: u8, b2: u8, b3: u8) -> nat {
    (b0 + 256 * b1 + 65536 * b2 + 16777216 * b3) as nat
}

/// The bytes of a datagram frame: the channel id, then the payload.
pub open spec fn datagram_frame_bytes(channel: QuicChannel, payload: Seq<u8>) -> Seq<u8> {
    seq![channel.spec_id()] + payload
}

/// The bytes of a stream frame: `MU`, the channel id, the payload length as a
/// little-endian `u32` (truncated to 32 bits), then the payload.
pub open spec fn stream_frame_bytes(channel: QuicChannel, payload: Seq<u8>) -> Seq<u8> {
    seq![STREAM_MAGIC_FIRST, STREAM_MAGIC_SECOND, channel.spec_id()] + le_u32_bytes(
        payload.len() as u32,
    ) + payload
}

/// The serializer's outcome, with the payload taken by its bytes.
pub open spec fn payload_view(payload: Result<Vec<u8>, postcard::Error>) -> Result<
    Seq<u8>,
    postcard::Error,
> {
    match payload {
        Ok(bytes) => Ok(bytes@),
        Err(e) => Err(e),
    }
}

impl WireCodec {
    /// The protocol version this codec accepts.
    pub closed spec fn spec_expected_version(self) -> ProtocolVersion {
        self.expected_version
    }

    /// The size limits this codec enforces.
    pub closed spec fn spec_limits(self) -> CodecLimits {
        self.limits
    }

    /// The checks shared by every encode and decode: the packet's version is
    /// the expected one, then the channel is the payload's preferred channel.
    pub open spec fn packet_check(self, channel: QuicChannel, packet: WirePacket) -> Result<
        (),
        CodecError,
    > {
        if packet.version != self.spec_expected_version() {
            Err(
                CodecError::VersionMismatch {
                    expected: self.spec_expected_version(),
                    actual: packet.version,
                },
            )
        } else if channel != spec_preferred_channel(packet.payload) {
            Err(
                CodecError::ChannelMismatch {
                    channel,
                    expected: spec_preferred_channel(packet.payload),
                },
            )
        } else {
            Ok(())
        }
    }

    /// Outcome of encoding `packet` as a datagram frame on `channel`, given
    /// what the serializer made of the packet.
    pub open spec fn datagram_encoding(
        self,
        channel: QuicChannel,
        packet: WirePacket,
        payload: Result<Seq<u8>, postcard::Error>,
    ) -> Result<Seq<u8>, CodecError> {
        if channel.spec_transport() != TransportKind::Datagram {
            Err(CodecError::NotDatagramChannel { channel })
        } else if self.packet_check(channel, packet) is Err {
            Err(self.packet_check(channel, packet)->Err_0)
        } else {
            match payload {
                Err(e) => Err(CodecError::Serialization(e)),
                Ok(bytes) => if 1 + bytes.len() > self.spec_limits().max_datagram_size {
                    Err(
                        CodecError::DatagramTooLarge {
                            limit: self.spec_limits().max_datagram_size,
                            actual: (1 + bytes.len()) as usize,
                        },
                    )
                } else {
                    Ok(datagram_frame_bytes(channel, bytes))
                },
            }
        }
    }

    /// Outcome of checking the framing of a datagram: the channel it was sent
    /// on, whose payload starts at byte 1.
    pub open spec fn datagram_framing(self, frame: Seq<u8>) -> Result<QuicChannel, CodecError> {
        if frame.len() == 0 {
            Err(CodecError::EmptyDatagram)
        } else if frame.len() > self.spec_limits().max_datagram_size {
            Err(
                CodecError::DatagramTooLarge {
                    limit: self.spec_limits().max_datagram_size,
                    actual: frame.len() as usize,
                },
            )
        } else {
            match channel_from_id(frame[0]) {
                Err(e) => Err(CodecError::InvalidChannel(e)),
                Ok(channel) => if channel.spec_transport() != TransportKind::Datagram {
                    Err(CodecError::NotDatagramChannel { channel })
                } else {
                    Ok(channel)
                },
            }
        }
    }

    /// Outcome of decoding a packet received on `channel`, given what the
    /// deserializer made of the payload.
    pub open spec fn packet_decoding(
        self,
        channel: QuicChannel,
        parsed: Result<WirePacket, postcard::Error>,
    ) -> Result<WirePacket, CodecError> {
        match parsed {
            Err(e) => Err(CodecError::Serialization(e)),
            Ok(packet) => match self.packet_check(channel, packet) {
                Err(e) => Err(e),
                Ok(_) => Ok(packet),
            },
        }
    }

    /// Outcome of encoding `packet` as a stream frame on `channel`, given what
    /// the serializer made of the packet.
    pub open spec fn stream_encoding(
        self,
        channel: QuicChannel,
        packet: WirePacket,
        payload: Result<Seq<u8>, postcard::Error>,
    ) -> Result<Seq<u8>, CodecError> {
        if channel.spec_transport() == TransportKind::Datagram {
            Err(CodecError::NotStreamChannel { channel })
        } else if self.packet_check(channel, packet) is Err {
            Err(self.packet_check(channel, packet)->Err_0)
        } else {
            match payload {
                Err(e) => Err(CodecError::Serialization(e)),
                Ok(bytes) => if bytes.len() > self.spec_limits().max_stream_payload_size {
                    Err(
                        CodecError::StreamPayloadTooLarge {
                            limit: self.spec_limits().max_stream_payload_size,
                            actual: bytes.len() as usize,
                        },
                    )
                } else {
                    Ok(stream_frame_bytes(channel, bytes))
                },
            }
        }
    }

    /// Outcome of looking for a frame at the start of a stream buffer:
    /// `Ok(None)` while the header or the payload is incomplete.
    pub open spec fn stream_framing(self, buffer: Seq<u8>) -> Result<
        Option<StreamFrameSpan>,
        CodecError,
    > {
        if buffer.len() < 7 {
            Ok(None)
        } else if buffer[0] != STREAM_MAGIC_FIRST || buffer[1] != STREAM_MAGIC_SECOND {
            Err(CodecError::InvalidStreamMagic { actual: [buffer[0], buffer[1]] })
        } else {
            match channel_from_id(buffer[2]) {
                Err(e) => Err(CodecError::InvalidChannel(e)),
                Ok(channel) => if channel.spec_transport() == TransportKind::Datagram {
                    Err(CodecError::NotStreamChannel { channel })
                } else {
                    let len = le_u32_value(buffer[3], buffer[4], buffer[5], buffer[6]);
                    if len > self.spec_limits().max_stream_payload_size {
                        Err(
                            CodecError::StreamPayloadTooLarge {
                                limit: self.spec_limits().max_stream_payload_size,
                                actual: len as usize,
                            },
                        )
                    } else if buffer.len() < 7 + len {
                        Ok(None)
                    } else {
                        Ok(
                            Some(
                                StreamFrameSpan {
                                    channel,
                                    payload_len: len as usize,
                                    total_len: (7 + len) as usize,
                                },
                            ),
                        )
                    }
                },
            }
        }
    }

    /// Builds a codec that accepts `expected_version` and enforces `limits`.
    pub fn new(expected_version: ProtocolVersion, limits: CodecLimits) -> (r: Self)
        ensures
            r.spec_expected_version() == expected_version,
            r.spec_limits() == limits,
    {
        Self { expected_version, limits }
    }

    /// The protocol version this codec accepts.
    pub fn expected_version(&self) -> (r: ProtocolVersion)
        ensures
            r == self.spec_expected_version(),
    {
        self.expected_version
    }

    /// The size limits this codec enforces.
    pub fn limits(&self) -> (r: CodecLimits)
        ensures
            r == self.spec_limits(),
    {
        self.limits
    }

    /// Rejects a packet whose version differs from the expected one.
    pub fn validate_version(&self, packet: &WirePacket) -> (r: Result<(), CodecError>)
        ensures
            packet.version == self.spec_expected_version() ==> r == Ok::<(), CodecError>(()),
            packet.version != self.spec_expected_version() ==> r == Err::<(), CodecError>(
                CodecError::VersionMismatch {
                    expected: self.spec_expected_version(),
                    actual: packet.version,
                },
            ),
    {
        if packet.version != self.expected_version {
            return Err(
                CodecError::VersionMismatch {
                    expected: self.expected_version,
                    actual: packet.version,
                },
            );
        }
        Ok(())
    }

    /// Rejects a packet sent on a channel other than its payload's preferred one.
    pub fn validate_channel(&self, channel: QuicChannel, packet: &WirePacket) -> (r: Result<
        (),
        CodecError,
    >)
        ensures
            channel == spec_preferred_channel(packet.payload) ==> r == Ok::<(), CodecError>(()),
            channel != spec_preferred_channel(packet.payload) ==> r == Err::<(), CodecError>(
                CodecError::ChannelMismatch {
                    channel,
                    expected: spec_preferred_channel(packet.payload),
                },
            ),
    {
        let expected = preferred_channel(&packet.payload);
        if channel != expected {
            return Err(CodecError::ChannelMismatch { channel, expected });
        }
        Ok(())
    }

    fn check_packet(&self, channel: QuicChannel, packet: &WirePacket) -> (r: Result<
        (),
        CodecError,
    >)
        ensures
            r == self.packet_check(channel, *packet),
    {
        match self.validate_version(packet) {
            Ok(()) => self.validate_channel(channel, packet),
            Err(e) => Err(e),
        }
    }

    /// Encodes a datagram frame whose first byte is the channel id, from the
    /// serializer's outcome `payload` for `packet`.
    pub fn encode_datagram_frame_with(
        &self,
        channel: QuicChannel,
        packet: &WirePacket,
        payload: Result<Vec<u8>, postcard::Error>,
    ) -> (r: Result<Vec<u8>, CodecError>)
        requires
            payload matches Ok(bytes) ==> bytes@.len() < usize::MAX,
        ensures
            match (r, self.datagram_encoding(channel, *packet, payload_view(payload))) {
                (Ok(frame), Ok(bytes)) => frame@ == bytes,
                (Err(e), Err(f)) => e == f,
                _ => false,
            },
    {
        if channel.transport() == TransportKind::Datagram {
        } else {
            return Err(CodecError::NotDatagramChannel { channel });
        }
        match self.check_packet(channel, packet) {
            Ok(()) => {},
            Err(e) => return Err(e),
        }
        let mut payload = match payload {
            Ok(bytes) => bytes,
            Err(e) => return Err(CodecError::Serialization(e)),
        };
        let frame_len = DATAGRAM_CHANNEL_LEN + payload.len();
        if frame_len > self.limits.max_datagram_size {
            return Err(
                CodecError::DatagramTooLarge {
                    limit: self.limits.max_datagram_size,
                    actual: frame_len,
                },
            );
        }
        let mut frame: Vec<u8> = Vec::with_capacity(frame_len);
        frame.push(channel.id());
        frame.append(&mut payload);
        Ok(frame)
    }

    /// Checks the framing of a datagram and returns its channel; the payload
    /// is everything after the first byte.
    pub fn decode_datagram_channel(&self, frame: &[u8]) -> (r: Result<QuicChannel, CodecError>)
        ensures
            match (r, self.datagram_framing(frame@)) {
                (Ok(c), Ok(d)) => c == d,
                (Err(e), Err(f)) => e == f,
                _ => false,
            },
    {
        if frame.len() == 0 {
            return Err(CodecError::EmptyDatagram);
        }
        if frame.len() > self.limits.max_datagram_size {
            return Err(
                CodecError::DatagramTooLarge {
                    limit: self.limits.max_datagram_size,
                    actual: frame.len(),
                },
            );
        }
        let channel = match QuicChannel::try_from(frame[0]) {
            Ok(channel) => channel,
            Err(e) => return Err(CodecError::InvalidChannel(e)),
        };
        if channel.transport() != TransportKind::Datagram {
            return Err(CodecError::NotDatagramChannel { channel });
        }
        Ok(channel)
    }

    /// Finishes decoding a datagram received on `channel` from the
    /// deserializer's outcome `parsed` for its payload.
    pub fn decode_datagram_frame_with(
        &self,
        channel: QuicChannel,
        parsed: Result<WirePacket, postcard::Error>,
    ) -> (r: Result<DecodedDatagramFrame, CodecError>)
        ensures
            match (r, self.packet_decoding(channel, parsed)) {
                (Ok(d), Ok(p)) => d == (DecodedDatagramFrame { channel, packet: p }),
                (Err(e), Err(f)) => e == f,
                _ => false,
            },
    {
        let packet = match parsed {
            Ok(packet) => packet,
            Err(e) => return Err(CodecError::Serialization(e)),
        };
        match self.check_packet(channel, &packet) {
            Ok(()) => Ok(DecodedDatagramFrame { channel, packet }),
            Err(e) => Err(e),
        }
    }

    /// Encodes a stream frame (magic `MU`, channel id, payload length as a
    /// little-endian `u32`, payload) from the serializer's outcome `payload`
    /// for `packet`.
    pub fn encode_stream_frame_with(
        &self,
        channel: QuicChannel,
        packet: &WirePacket,
        payload: Result<Vec<u8>, postcard::Error>,
    ) -> (r: Result<Vec<u8>, CodecError>)
        ensures
            match (r, self.stream_encoding(channel, *packet, payload_view(payload))) {
                (Ok(frame), Ok(bytes)) => frame@ == bytes,
                (Err(e), Err(f)) => e == f,
                _ => false,
            },
    {
        if channel.transport() == TransportKind::Datagram {
            return Err(CodecError::NotStreamChannel { channel });
        }
        match self.check_packet(channel, packet) {
            Ok(()) => {},
            Err(e) => return Err(e),
        }
        let mut payload = match payload {
            Ok(bytes) => bytes,
            Err(e) => return Err(CodecError::Serialization(e)),
        };
        if payload.len() > self.limits.max_stream_payload_size {
            return Err(
                CodecError::StreamPayloadTooLarge {
                    limit: self.limits.max_stream_payload_size,
                    actual: payload.len(),
                },
            );
        }
        let len: u32 = payload.len() as u32;
        let mut frame: Vec<u8> = Vec::new();
        frame.push(STREAM_MAGIC_FIRST);
        frame.push(STREAM_MAGIC_SECOND);
        frame.push(channel.id());
        frame.push((len % 256) as u8);
        frame.push(((len / 256) % 256) as u8);
        frame.push(((len / 65536) % 256) as u8);
        frame.push((len / 16777216) as u8);
        let ghost header = frame@;
        frame.append(&mut payload);
        proof {
            assert(header =~= seq![STREAM_MAGIC_FIRST, STREAM_MAGIC_SECOND, channel.spec_id()]
                + le_u32_bytes(len));
        }
        Ok(frame)
    }

    /// Looks for a complete frame at the start of `buffer`.
    ///
    /// Returns `Ok(None)` when there are not enough bytes yet.
    pub fn decode_stream_span(&self, buffer: &[u8]) -> (r: Result<
        Option<StreamFrameSpan>,
        CodecError,
    >)
        ensures
            match (r, self.stream_framing(buffer@)) {
                (Ok(a), Ok(b)) => a == b,
                (Err(e), Err(f)) => e == f,
                _ => false,
            },
    {
        if buffer.len() < STREAM_FRAME_HEADER_LEN {
            return Ok(None);
        }
        if buffer[0] != STREAM_MAGIC_FIRST || buffer[1] != STREAM_MAGIC_SECOND {
            return Err(CodecError::InvalidStreamMagic { actual: [buffer[0], buffer[1]] });
        }
        let channel = match QuicChannel::try_from(buffer[2]) {
            Ok(channel) => channel,
            Err(e) => return Err(CodecError::InvalidChannel(e)),
        };
        if channel.transport() == TransportKind::Datagram {
            return Err(CodecError::NotStreamChannel { channel });
        }
        let len: u32 = buffer[3] as u32 + 256 * (buffer[4] as u32) + 65536 * (buffer[5] as u32)
            + 16777216 * (buffer[6] as u32);
        let payload_len = len as usize;
        if payload_len > self.limits.max_stream_payload_size {
            return Err(
                CodecError::StreamPayloadTooLarge {
                    limit: self.limits.max_stream_payload_size,
                    actual: payload_len,
                },
            );
        }
        if buffer.len() - STREAM_FRAME_HEADER_LEN < payload_len {
            return Ok(None);
        }
        Ok(
            Some(
                StreamFrameSpan {
                    channel,
                    payload_len,
                    total_len: STREAM_FRAME_HEADER_LEN + payload_len,
                },
            ),
        )
    }

    /// Finishes decoding the stream frame at `span` from the deserializer's
    /// outcome `parsed` for its payload; returns the frame and the number of
    /// bytes it used.
    pub fn decode_stream_frame_with(
        &self,
        span: StreamFrameSpan,
        parsed: Result<WirePacket, postcard::Error>,
    ) -> (r: Result<(DecodedStreamFrame, usize), CodecError>)
        ensures
            match (r, self.packet_decoding(span.channel, parsed)) {
                (Ok(d), Ok(p)) => d == (
                    DecodedStreamFrame { channel: span.channel, packet: p },
                    span.total_len,
                ),
                (Err(e), Err(f)) => e == f,
                _ => false,
            },
    {
        let packet = match parsed {
            Ok(packet) => packet,
            Err(e) => return Err(CodecError::Serialization(e)),
        };
        match self.check_packet(span.channel, &packet) {
            Ok(()) => Ok((DecodedStreamFrame { channel: span.channel, packet }, span.total_len)),
            Err(e) => Err(e),
        }
    }
}

impl Default for WireCodec {
    fn default() -> (r: Self)
        ensures
            r.spec_expected_version() == spec_protocol_version(),
            r.spec_limits() == CodecLimits::spec_default(),
    {
        Self { expected_version: current_protocol_version(), limits: CodecLimits::default() }
    }
}

/// Reading back the four little-endian bytes of `n` gives `n`.
pub proof fn lemma_le_u32_roundtrip(n: u32)
    ensures
        le_u32_value(le_u32_bytes(n)[0], le_u32_bytes(n)[1], le_u32_bytes(n)[2], le_u32_bytes(n)[3])
            == n,
{
    let b = le_u32_bytes(n);
    assert(b[0] == n % 256);
    assert(b[1] == (n / 256) % 256);
    assert(b[2] == (n / 65536) % 256);
    assert(b[3] == n / 16777216);
    assert((n % 256) + 256 * ((n / 256) % 256) + 65536 * ((n / 65536) % 256) + 16777216 * (n
        / 16777216) == n) by (nonlinear_arith);
}

/// A datagram frame built by the codec passes the codec's framing check on
/// its own channel, carries the serialized payload after its first byte, and
/// the packet it was built from passes the decoding checks: decoding what
/// was encoded gives back the channel and, when the deserializer reads the
/// payload back as the packet, the packet.
pub proof fn lemma_datagram_roundtrip(
    codec: WireCodec,
    channel: QuicChannel,
    packet: WirePacket,
    payload: Seq<u8>,
    frame: Seq<u8>,
)
    requires
        codec.datagram_encoding(channel, packet, Ok(payload)) == Ok::<Seq<u8>, CodecError>(frame),
    ensures
        codec.datagram_framing(frame) == Ok::<QuicChannel, CodecError>(channel),
        frame.subrange(1, frame.len() as int) == payload,
        codec.packet_decoding(channel, Ok(packet)) == Ok::<WirePacket, CodecError>(packet),
{
    assert(frame == datagram_frame_bytes(channel, payload));
    assert(frame[0] == channel.spec_id());
    crate::channel::lemma_channel_id_roundtrip(channel);
    assert(frame.subrange(1, frame.len() as int) =~= payload);
}

/// A stream frame built by the codec, followed by any further bytes, is found
/// again at the start of the buffer: same channel, payload length and total
/// length, with the serialized payload right after the header, and the packet
/// it was built from passes the decoding checks. This is what lets a reader
/// take frames off a stream one after another.
pub proof fn lemma_stream_roundtrip(
    codec: WireCodec,
    channel: QuicChannel,
    packet: WirePacket,
    payload: Seq<u8>,
    frame: Seq<u8>,
    rest: Seq<u8>,
)
    requires
        codec.stream_encoding(channel, packet, Ok(payload)) == Ok::<Seq<u8>, CodecError>(frame),
        payload.len() <= u32::MAX,
    ensures
        frame.len() == 7 + payload.len(),
        codec.stream_framing(frame + rest) == Ok::<Option<StreamFrameSpan>, CodecError>(
            Some(
                StreamFrameSpan {
                    channel,
                    payload_len: payload.len() as usize,
                    total_len: frame.len() as usize,
                },
            ),
        ),
        (frame + rest).subrange(7, frame.len() as int) == payload,
        codec.packet_decoding(channel, Ok(packet)) == Ok::<WirePacket, CodecError>(packet),
{
    let n = payload.len() as u32;
    assert(frame == stream_frame_bytes(channel, payload));
    let buffer = frame + rest;
    lemma_le_u32_roundtrip(n);
    crate::channel::lemma_channel_id_roundtrip(channel);
    assert(buffer[0] == STREAM_MAGIC_FIRST);
    assert(buffer[1] == STREAM_MAGIC_SECOND);
    assert(buffer[2] == channel.spec_id());
    assert(buffer[3] == le_u32_bytes(n)[0]);
    assert(buffer[4] == le_u32_bytes(n)[1]);
    assert(buffer[5] == le_u32_bytes(n)[2]);
    assert(buffer[6] == le_u32_bytes(n)[3]);
    assert(buffer.subrange(7, frame.len() as int) =~= payload);
}

/// While only part of a codec-built stream frame has arrived, the codec
/// reports that more bytes are needed.
pub proof fn lemma_stream_partial_frame_waits(
    codec: WireCodec,
    channel: QuicChannel,
    packet: WirePacket,
    payload: Seq<u8>,
    frame: Seq<u8>,
    received: int,
)
    requires
        codec.stream_encoding(channel, packet, Ok(payload)) == Ok::<Seq<u8>, CodecError>(frame),
        payload.len() <= u32::MAX,
        0 <= received < frame.len(),
    ensures
        codec.stream_framing(frame.subrange(0, received)) == Ok::<
            Option<StreamFrameSpan>,
            CodecError,
        >(None),
{
    let n = payload.len() as u32;
    assert(frame == stream_frame_bytes(channel, payload));
    let buffer = frame.subrange(0, received);
    if received >= 7 {
        lemma_le_u32_roundtrip(n);
        crate::channel::lemma_channel_id_roundtrip(channel);
        assert(buffer[0] == STREAM_MAGIC_FIRST);
        assert(buffer[1] == STREAM_MAGIC_SECOND);
        assert(buffer[2] == channel.spec_id());
        assert(buffer[3] == le_u32_bytes(n)[0]);
        assert(buffer[4] == le_u32_bytes(n)[1]);
        assert(buffer[5] == le_u32_bytes(n)[2]);
        assert(buffer[6] == le_u32_bytes(n)[3]);
    }
}

} // verus!
