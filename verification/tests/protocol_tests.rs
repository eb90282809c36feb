use mu_online::channel::{DeliveryGuarantee, InvalidChannel, QuicChannel, TransportKind};
use mu_online::codec::{
    preferred_channel, CodecError, CodecLimits, DecodedStreamFrame, StreamFrameSpan, WireCodec,
    STREAM_FRAME_HEADER_LEN,
};
use mu_online::de::{deserialize, DeserializeError};
use mu_online::header::{PBMSG_HEAD, PSBMSG_HEAD, PSWMSG_HEAD, PWMSG_HEAD};
use mu_online::message::{
    current_protocol_version, ChatChannel, ChatPayload, ClientHello, ClientMessage, MoveInput,
    PacketPayload, ProtocolVersion, RouteKey, ServerMessage, WirePacket,
};
use mu_online::packets::{
    PMSG_ACTION_RECV, PMSG_ACTION_SEND, PMSG_CHARACTER_CREATE_SEND, PMSG_CHARACTER_DELETE_SEND,
    PMSG_CHARACTER_INFO_SEND, PMSG_CHARACTER_LIST, PMSG_CHAT_RECV, PMSG_CHAT_SEND,
    PMSG_CHAT_TARGET_SEND, PMSG_CHAT_WHISPER_RECV, PMSG_CLOSE_CLIENT_RECV,
    PMSG_CONNECT_ACCOUNT_RECV, PMSG_EVENT_REMAIN_TIME_RECV, PMSG_EVENT_STATE_SEND,
    PMSG_FRIEND_MESSAGE_RECV, PMSG_LIVE_CLIENT_RECV, PMSG_MAIN_CHECK_SEND,
    PMSG_MAP_SERVER_MOVE_AUTH_RECV, PMSG_MOVE_RECV, PMSG_MOVE_SEND, PMSG_PET_ITEM_COMMAND_RECV,
    PMSG_PET_ITEM_INFO_RECV, PMSG_POSITION_RECV, PMSG_SERVER_MSG_SEND, PMSG_USER_DIE_SEND,
    PMSG_WEATHER_SEND, ACCOUNT_LEN, CHAT_MESSAGE_LEN, CLIENT_SERIAL_LEN, CLIENT_VERSION_LEN,
    FRIEND_MESSAGE_TEXT_LEN, NAME_LEN, PASSWORD_SHORT_LEN, SUBJECT_LEN,
};
use mu_online::protocol_version;
use mu_online::ser::serialize;

// ---------------------------------------------------------------------------
// Sample packets and their postcard payloads, written field by field with
// postcard's encoding of the plain values they are made of.
// ---------------------------------------------------------------------------

fn sample_route() -> RouteKey {
    RouteKey {
        world_id: 1,
        entry_id: 2,
        map_id: 3,
        instance_id: 4,
    }
}

fn sample_move_packet() -> WirePacket {
    WirePacket::client(
        100,
        sample_route(),
        10,
        Some(9),
        42_000,
        ClientMessage::Move(MoveInput {
            client_tick: 120,
            x: 125,
            y: 111,
            direction: 2,
            path: [1, 2, 3, 4, 5, 6, 7, 8],
        }),
    )
}

fn sample_move_payload(version: (u8, u8)) -> Vec<u8> {
    postcard::to_stdvec(&(
        (version.0, version.1, 100u64, 1u16, 2u16, 3u16, 4u16, 10u32, Some(9u32), 42_000u64),
        (0u32, 3u32, 120u32, 125u16, 111u16, 2u8, [1u8, 2, 3, 4, 5, 6, 7, 8]),
    ))
    .unwrap()
}

fn sample_control_packet() -> WirePacket {
    WirePacket::client(
        200,
        RouteKey::lobby(),
        1,
        None,
        1_000,
        ClientMessage::Hello(ClientHello {
            account_id: 77,
            auth_token: "token-abc".to_string(),
            client_build: "0.1.0".to_string(),
            locale: "pt-BR".to_string(),
        }),
    )
}

fn sample_control_payload(version: (u8, u8)) -> Vec<u8> {
    postcard::to_stdvec(&(
        (version.0, version.1, 200u64, 0u16, 0u16, 0u16, 0u16, 1u32, None::<u32>, 1_000u64),
        (0u32, 0u32, 77u64, "token-abc", "0.1.0", "pt-BR"),
    ))
    .unwrap()
}

fn sample_chat_packet() -> WirePacket {
    WirePacket::server(
        200,
        sample_route(),
        2,
        Some(1),
        1_100,
        ServerMessage::Chat(ChatPayload {
            channel: ChatChannel::Guild,
            target: None,
            text: "evento em devias".to_string(),
        }),
    )
}

fn sample_chat_payload() -> Vec<u8> {
    postcard::to_stdvec(&(
        (2u8, 0u8, 200u64, 1u16, 2u16, 3u16, 4u16, 2u32, Some(1u32), 1_100u64),
        (1u32, 4u32, 3u32, None::<&str>, "evento em devias"),
    ))
    .unwrap()
}

fn keep_alive_packet() -> WirePacket {
    WirePacket::client(
        10,
        RouteKey::lobby(),
        1,
        None,
        50,
        ClientMessage::KeepAlive { client_time_ms: 50 },
    )
}

fn keep_alive_payload() -> Vec<u8> {
    postcard::to_stdvec(&(
        (2u8, 0u8, 10u64, 0u16, 0u16, 0u16, 0u16, 1u32, None::<u32>, 50u64),
        (0u32, 1u32, 50u64),
    ))
    .unwrap()
}

/// Decodes the stream frame at the start of `buffer`, checking that its
/// payload is `payload` and handing the packet that payload stands for to
/// the codec as the parser's result.
fn decode_stream(
    codec: &WireCodec,
    buffer: &[u8],
    payload: &[u8],
    packet: &WirePacket,
) -> Result<Option<(DecodedStreamFrame, usize)>, CodecError> {
    match codec.decode_stream_span(buffer)? {
        None => Ok(None),
        Some(span) => {
            assert_eq!(&buffer[STREAM_FRAME_HEADER_LEN..span.total_len], payload);
            codec
                .decode_stream_frame_with(span, Ok(packet.clone()))
                .map(Some)
        }
    }
}

// ---------------------------------------------------------------------------
// Channels
// ---------------------------------------------------------------------------

#[test]
fn gameplay_input_is_datagram_unreliable() {
    assert_eq!(
        QuicChannel::GameplayInput.transport(),
        TransportKind::Datagram
    );
    assert_eq!(
        QuicChannel::GameplayInput.delivery(),
        DeliveryGuarantee::Unreliable
    );
}

#[test]
fn economy_is_critical() {
    assert!(QuicChannel::Economy.is_critical());
    assert!(!QuicChannel::GameplayInput.is_critical());
}

#[test]
fn channel_ids_round_trip() {
    for channel in [
        QuicChannel::Control,
        QuicChannel::Chat,
        QuicChannel::GameplayInput,
        QuicChannel::GameplayEvent,
        QuicChannel::Economy,
    ] {
        assert_eq!(QuicChannel::try_from(channel.id()), Ok(channel));
    }
    assert_eq!(QuicChannel::Economy.id(), 4);
    assert_eq!(QuicChannel::try_from(5u8), Err(InvalidChannel(5)));
    assert_eq!(InvalidChannel(9).message(), "invalid QUIC channel id 9");
}

#[test]
fn stream_channels_are_reliable_ordered() {
    assert_eq!(QuicChannel::Control.transport(), TransportKind::BidiStream);
    assert_eq!(
        QuicChannel::Chat.delivery(),
        DeliveryGuarantee::ReliableOrdered
    );
    assert!(QuicChannel::Control.is_critical());
    assert!(QuicChannel::GameplayEvent.is_critical());
    assert!(!QuicChannel::Chat.is_critical());
}

// ---------------------------------------------------------------------------
// Headers and packets
// ---------------------------------------------------------------------------

#[test]
fn pbmsg_head_layout_matches_cpp() {
    assert_eq!(core::mem::size_of::<PBMSG_HEAD>(), 3);
}

#[test]
fn psbmsg_head_layout_matches_cpp() {
    assert_eq!(core::mem::size_of::<PSBMSG_HEAD>(), 4);
}

#[test]
fn pwmsg_head_layout_matches_cpp() {
    assert_eq!(core::mem::size_of::<PWMSG_HEAD>(), 4);
}

#[test]
fn pswmsg_head_layout_matches_cpp() {
    assert_eq!(core::mem::size_of::<PSWMSG_HEAD>(), 5);
}

#[test]
fn size_matches_cpp_layouts_basic() {
    assert_eq!(
        core::mem::size_of::<PMSG_CHAT_RECV>(),
        3 + NAME_LEN + CHAT_MESSAGE_LEN
    );
    assert_eq!(
        core::mem::size_of::<PMSG_CHAT_WHISPER_RECV>(),
        3 + NAME_LEN + CHAT_MESSAGE_LEN
    );
    assert_eq!(core::mem::size_of::<PMSG_LIVE_CLIENT_RECV>(), 3 + 4 + 2 + 2);
    assert_eq!(core::mem::size_of::<PMSG_MOVE_RECV>(), 3 + 1 + 1 + 8);
    assert_eq!(core::mem::size_of::<PMSG_POSITION_RECV>(), 3 + 1 + 1);
    assert_eq!(core::mem::size_of::<PMSG_ACTION_RECV>(), 3 + 1 + 1 + 2);
    assert_eq!(
        core::mem::size_of::<PMSG_EVENT_REMAIN_TIME_RECV>(),
        3 + 1 + 1
    );
    assert_eq!(
        core::mem::size_of::<PMSG_PET_ITEM_COMMAND_RECV>(),
        3 + 1 + 1 + 2
    );
    assert_eq!(
        core::mem::size_of::<PMSG_PET_ITEM_INFO_RECV>(),
        3 + 1 + 1 + 1
    );
    assert_eq!(
        core::mem::size_of::<PMSG_MAP_SERVER_MOVE_AUTH_RECV>(),
        4 + 12 + 12 + (4 * 5) + CLIENT_VERSION_LEN + CLIENT_SERIAL_LEN
    );
    assert_eq!(
        core::mem::size_of::<PMSG_FRIEND_MESSAGE_RECV>(),
        4 + 4 + NAME_LEN + SUBJECT_LEN + 1 + 1 + 2 + FRIEND_MESSAGE_TEXT_LEN
    );
    assert_eq!(
        core::mem::size_of::<PMSG_CONNECT_ACCOUNT_RECV>(),
        4 + ACCOUNT_LEN + PASSWORD_SHORT_LEN + 4 + CLIENT_VERSION_LEN + CLIENT_SERIAL_LEN
    );
    assert_eq!(core::mem::size_of::<PMSG_CLOSE_CLIENT_RECV>(), 4 + 1);
    assert_eq!(
        core::mem::size_of::<PMSG_CHAT_SEND>(),
        3 + NAME_LEN + CHAT_MESSAGE_LEN
    );
    assert_eq!(
        core::mem::size_of::<PMSG_CHAT_TARGET_SEND>(),
        3 + 2 + CHAT_MESSAGE_LEN
    );
    assert_eq!(core::mem::size_of::<PMSG_MAIN_CHECK_SEND>(), 3 + 2);
    assert_eq!(core::mem::size_of::<PMSG_EVENT_STATE_SEND>(), 3 + 1 + 1);
    assert_eq!(core::mem::size_of::<PMSG_SERVER_MSG_SEND>(), 3 + 1);
    assert_eq!(core::mem::size_of::<PMSG_WEATHER_SEND>(), 3 + 1);
    assert_eq!(core::mem::size_of::<PMSG_USER_DIE_SEND>(), 3 + 2 + 2 + 2);
    assert_eq!(core::mem::size_of::<PMSG_ACTION_SEND>(), 3 + 2 + 1 + 1 + 2);
    assert_eq!(core::mem::size_of::<PMSG_MOVE_SEND>(), 3 + 2 + 1 + 1 + 1);
    assert_eq!(
        core::mem::size_of::<PMSG_CHARACTER_LIST>(),
        1 + NAME_LEN + 2 + 1 + 18 + 1
    );
}

#[test]
fn size_matches_character_packets() {
    assert_eq!(
        core::mem::size_of::<PMSG_CHARACTER_CREATE_SEND>(),
        4 + 1 + NAME_LEN + 1 + 2 + 1 + 24
    );
    assert_eq!(core::mem::size_of::<PMSG_CHARACTER_DELETE_SEND>(), 4 + 1);

    // The library is built without the optional game-server features, so
    // neither the extra byte nor the extra fields are present.
    let expected_info = 4 // header
        + 4 // coordinates/map/dir
        + 8 // experience
        + 8 // next experience
        + (18 * 2) // WORD stats
        + 4 // money
        + 1 // pk level
        + 1; // ctl code
    assert_eq!(
        core::mem::size_of::<PMSG_CHARACTER_INFO_SEND>(),
        expected_info
    );
}

#[test]
fn packed_bytes_round_trip_through_deserialize() {
    let head = PBMSG_HEAD {
        type_: 0xC1,
        size: 3,
        head: 0x0E,
    };
    let bytes = serialize(&head);
    assert_eq!(bytes, vec![0xC1, 3, 0x0E]);
    let back: PBMSG_HEAD = deserialize(&bytes).unwrap();
    assert_eq!(back, head);
}

#[test]
fn deserialize_rejects_wrong_size() {
    let result: Result<PBMSG_HEAD, DeserializeError> = deserialize(&[1, 2]);
    assert_eq!(
        result,
        Err(DeserializeError::SizeMismatch {
            expected: 3,
            actual: 2
        })
    );
}

// ---------------------------------------------------------------------------
// Versions and envelopes
// ---------------------------------------------------------------------------

#[test]
fn version_matches_pkg() {
    assert_eq!(protocol_version(), "0.1.0");
}

#[test]
fn packet_constructors_set_current_version() {
    let packet = WirePacket::client(
        7,
        RouteKey::lobby(),
        1,
        None,
        99,
        ClientMessage::KeepAlive { client_time_ms: 99 },
    );
    assert_eq!(packet.version, current_protocol_version());
    assert_eq!(current_protocol_version(), ProtocolVersion::new(2, 0));
}

#[test]
fn preferred_channels_follow_the_payload() {
    assert_eq!(
        preferred_channel(&sample_move_packet().payload),
        QuicChannel::GameplayInput
    );
    assert_eq!(
        preferred_channel(&sample_control_packet().payload),
        QuicChannel::Control
    );
    assert_eq!(
        preferred_channel(&sample_chat_packet().payload),
        QuicChannel::Chat
    );
    assert_eq!(
        preferred_channel(&PacketPayload::Server(ServerMessage::EnterMap {
            entity_id: 1,
            map_id: 2,
            x: 3,
            y: 4
        })),
        QuicChannel::GameplayEvent
    );
}

// ---------------------------------------------------------------------------
// Codec
// ---------------------------------------------------------------------------

#[test]
fn datagram_roundtrip() {
    let codec = WireCodec::default();
    let packet = WirePacket::client(
        10,
        RouteKey {
            world_id: 1,
            entry_id: 2,
            map_id: 3,
            instance_id: 1,
        },
        7,
        Some(6),
        5_000,
        ClientMessage::Move(MoveInput {
            client_tick: 22,
            x: 125,
            y: 87,
            direction: 3,
            path: [1, 2, 3, 4, 5, 6, 7, 8],
        }),
    );
    let payload = postcard::to_stdvec(&(
        (2u8, 0u8, 10u64, 1u16, 2u16, 3u16, 1u16, 7u32, Some(6u32), 5_000u64),
        (0u32, 3u32, 22u32, 125u16, 87u16, 3u8, [1u8, 2, 3, 4, 5, 6, 7, 8]),
    ))
    .unwrap();

    let frame = codec
        .encode_datagram_frame_with(QuicChannel::GameplayInput, &packet, Ok(payload.clone()))
        .unwrap();
    let channel = codec.decode_datagram_channel(&frame).unwrap();
    assert_eq!(&frame[1..], &payload[..]);
    let decoded = codec
        .decode_datagram_frame_with(channel, Ok(packet.clone()))
        .unwrap();

    assert_eq!(decoded.channel, QuicChannel::GameplayInput);
    assert_eq!(decoded.packet, packet);
}

#[test]
fn stream_decode_waits_for_complete_frame() {
    let codec = WireCodec::default();
    let packet = keep_alive_packet();
    let payload = keep_alive_payload();
    let frame = codec
        .encode_stream_frame_with(QuicChannel::Control, &packet, Ok(payload.clone()))
        .unwrap();

    let partial = &frame[..frame.len() - 1];
    assert!(decode_stream(&codec, partial, &payload, &packet)
        .unwrap()
        .is_none());
}

#[test]
fn move_packet_datagram_roundtrip() {
    let codec = WireCodec::default();
    let packet = sample_move_packet();
    let payload = sample_move_payload((2, 0));

    let bytes = codec
        .encode_datagram_frame_with(QuicChannel::GameplayInput, &packet, Ok(payload.clone()))
        .unwrap();
    assert_eq!(bytes[0], QuicChannel::GameplayInput.id());
    let channel = codec.decode_datagram_channel(&bytes).unwrap();
    assert_eq!(&bytes[1..], &payload[..]);
    let decoded = codec
        .decode_datagram_frame_with(channel, Ok(packet.clone()))
        .unwrap();

    assert_eq!(decoded.channel, QuicChannel::GameplayInput);
    assert_eq!(decoded.packet, packet);
}

#[test]
fn control_packet_stream_roundtrip() {
    let codec = WireCodec::default();
    let packet = sample_control_packet();
    let payload = sample_control_payload((2, 0));

    let frame = codec
        .encode_stream_frame_with(QuicChannel::Control, &packet, Ok(payload.clone()))
        .unwrap();

    let (decoded, consumed) = decode_stream(&codec, &frame, &payload, &packet)
        .unwrap()
        .unwrap();
    assert_eq!(consumed, frame.len());
    assert_eq!(decoded.channel, QuicChannel::Control);
    assert_eq!(decoded.packet, packet);
}

#[test]
fn stream_decoder_can_parse_back_to_back_frames() {
    let codec = WireCodec::default();
    let control = sample_control_packet();
    let control_payload = sample_control_payload((2, 0));
    let chat = sample_chat_packet();
    let chat_payload = sample_chat_payload();
    let first = codec
        .encode_stream_frame_with(QuicChannel::Control, &control, Ok(control_payload.clone()))
        .unwrap();
    let second = codec
        .encode_stream_frame_with(QuicChannel::Chat, &chat, Ok(chat_payload.clone()))
        .unwrap();

    let mut buffer = Vec::new();
    buffer.extend_from_slice(&first);
    buffer.extend_from_slice(&second);

    let (frame1, used1) = decode_stream(&codec, &buffer, &control_payload, &control)
        .unwrap()
        .unwrap();
    let (frame2, used2) = decode_stream(&codec, &buffer[used1..], &chat_payload, &chat)
        .unwrap()
        .unwrap();

    assert_eq!(frame1.channel, QuicChannel::Control);
    assert_eq!(frame2.channel, QuicChannel::Chat);
    assert_eq!(used1 + used2, buffer.len());
}

#[test]
fn stream_decoder_returns_none_for_partial_frame() {
    let codec = WireCodec::default();
    let packet = sample_control_packet();
    let payload = sample_control_payload((2, 0));
    let frame = codec
        .encode_stream_frame_with(QuicChannel::Control, &packet, Ok(payload.clone()))
        .unwrap();

    let partial = &frame[..frame.len() - 3];
    assert!(decode_stream(&codec, partial, &payload, &packet)
        .unwrap()
        .is_none());
}

#[test]
fn rejects_channel_payload_mismatch() {
    let codec = WireCodec::default();
    let packet = sample_control_packet();

    let err = codec
        .encode_stream_frame_with(
            QuicChannel::Chat,
            &packet,
            Ok(sample_control_payload((2, 0))),
        )
        .unwrap_err();

    assert!(matches!(err, CodecError::ChannelMismatch { .. }));
}

#[test]
fn rejects_version_mismatch_during_decode() {
    let compat_codec = WireCodec::new(ProtocolVersion::new(3, 0), CodecLimits::default());
    let mut packet = sample_control_packet();
    packet.version = ProtocolVersion::new(3, 0);
    let payload = sample_control_payload((3, 0));

    let frame = compat_codec
        .encode_stream_frame_with(QuicChannel::Control, &packet, Ok(payload.clone()))
        .unwrap();

    let err = decode_stream(&WireCodec::default(), &frame, &payload, &packet).unwrap_err();

    assert!(matches!(err, CodecError::VersionMismatch { .. }));
}

#[test]
fn rejects_oversized_datagram() {
    let tiny_codec = WireCodec::new(
        ProtocolVersion::new(2, 0),
        CodecLimits {
            max_datagram_size: 16,
            max_stream_payload_size: 1024,
        },
    );

    let packet = sample_move_packet();
    let err = tiny_codec
        .encode_datagram_frame_with(
            QuicChannel::GameplayInput,
            &packet,
            Ok(sample_move_payload((2, 0))),
        )
        .unwrap_err();

    assert!(matches!(err, CodecError::DatagramTooLarge { .. }));
}

#[test]
fn packet_payload_variant_is_preserved() {
    let codec = WireCodec::default();
    let packet = sample_chat_packet();
    let payload = sample_chat_payload();

    let frame = codec
        .encode_stream_frame_with(QuicChannel::Chat, &packet, Ok(payload.clone()))
        .unwrap();
    let (decoded, _) = decode_stream(&codec, &frame, &payload, &packet)
        .unwrap()
        .unwrap();

    assert!(matches!(
        decoded.packet.payload,
        PacketPayload::Server(ServerMessage::Chat(_))
    ));
}

#[test]
fn stream_frame_header_is_magic_channel_and_length() {
    let codec = WireCodec::default();
    let frame = codec
        .encode_stream_frame_with(
            QuicChannel::Control,
            &keep_alive_packet(),
            Ok(vec![9, 8, 7]),
        )
        .unwrap();
    assert_eq!(frame, vec![b'M', b'U', 0, 3, 0, 0, 0, 9, 8, 7]);
    assert_eq!(
        codec.decode_stream_span(&frame).unwrap(),
        Some(StreamFrameSpan {
            channel: QuicChannel::Control,
            payload_len: 3,
            total_len: 10,
        })
    );
}

#[test]
fn codec_reports_each_framing_error() {
    let codec = WireCodec::default();
    assert!(matches!(
        codec.decode_datagram_channel(&[]),
        Err(CodecError::EmptyDatagram)
    ));
    assert!(matches!(
        codec.decode_datagram_channel(&[9, 1]),
        Err(CodecError::InvalidChannel(InvalidChannel(9)))
    ));
    assert!(matches!(
        codec.decode_datagram_channel(&[0, 1]),
        Err(CodecError::NotDatagramChannel {
            channel: QuicChannel::Control
        })
    ));
    assert!(matches!(
        codec.decode_datagram_channel(&vec![2u8; 1201]),
        Err(CodecError::DatagramTooLarge {
            limit: 1200,
            actual: 1201
        })
    ));
    assert!(matches!(
        codec.decode_stream_span(b"XU\x00\x00\x00\x00\x00"),
        Err(CodecError::InvalidStreamMagic { actual: [b'X', b'U'] })
    ));
    assert!(matches!(
        codec.decode_stream_span(b"MU\x02\x00\x00\x00\x00"),
        Err(CodecError::NotStreamChannel {
            channel: QuicChannel::GameplayInput
        })
    ));
    assert!(matches!(
        codec.decode_stream_span(b"MU\x00\x01\x00\x01\x00"),
        Err(CodecError::StreamPayloadTooLarge {
            limit: 65536,
            actual: 65537
        })
    ));
    assert!(matches!(
        codec.encode_stream_frame_with(
            QuicChannel::GameplayInput,
            &sample_move_packet(),
            Ok(vec![])
        ),
        Err(CodecError::NotStreamChannel { .. })
    ));
    assert!(matches!(
        codec.encode_datagram_frame_with(
            QuicChannel::Control,
            &sample_control_packet(),
            Ok(vec![])
        ),
        Err(CodecError::NotDatagramChannel { .. })
    ));
    assert_eq!(codec.decode_stream_span(b"MU\x00").unwrap(), None);
}

#[test]
fn codec_passes_serializer_errors_on() {
    let codec = WireCodec::default();
    let err = codec
        .encode_stream_frame_with(
            QuicChannel::Control,
            &keep_alive_packet(),
            Err(postcard::Error::SerializeBufferFull),
        )
        .unwrap_err();
    assert!(matches!(
        err,
        CodecError::Serialization(postcard::Error::SerializeBufferFull)
    ));
    let err = codec
        .decode_datagram_frame_with(
            QuicChannel::GameplayInput,
            Err(postcard::Error::DeserializeUnexpectedEnd),
        )
        .unwrap_err();
    assert!(matches!(
        err,
        CodecError::Serialization(postcard::Error::DeserializeUnexpectedEnd)
    ));
}

#[test]
fn codec_keeps_its_settings() {
    let codec = WireCodec::default();
    assert_eq!(codec.expected_version(), ProtocolVersion::new(2, 0));
    assert_eq!(
        codec.limits(),
        CodecLimits {
            max_datagram_size: 1200,
            max_stream_payload_size: 64 * 1024,
        }
    );
}
