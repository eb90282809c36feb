//! QUIC transport channel definitions.

use crate::text::{decimal, push_decimal};
use vstd::prelude::*;

verus! {

/// Logical transport primitive used by a channel.
#[derive(Clone, Copy, Debug, PartialEq, Eq, Structural)]
pub enum TransportKind {
    BidiStream,
    UniStream,
    Datagram,
}

/// Message delivery guarantee expected for a channel.
#[derive(Clone, Copy, Debug, PartialEq, Eq, Structural)]
pub enum DeliveryGuarantee {
    ReliableOrdered,
    ReliableUnordered,
    Unreliable,
}

/// Stable channel identifiers used by the protocol on top of QUIC.
///
/// The wire identifier of each channel is given by [`QuicChannel::id`]:
/// `Control` is 0, `Chat` 1, `GameplayInput` 2, `GameplayEvent` 3 and
/// `Economy` 4.
#[derive(Clone, Copy, Debug, PartialEq, Eq, Hash, Structural)]
pub enum QuicChannel {
    /// Authentication, keepalive, world routing, acks.
    Control,
    /// Chat and social signals.
    Chat,
    /// Movement and high-frequency input updates.
    GameplayInput,
    /// Critical gameplay events that must be reliable.
    GameplayEvent,
    /// Economy/inventory/trade/cash operations.
    Economy,
}

impl QuicChannel {
    /// Wire identifier of the channel.
    pub open spec fn spec_id(self) -> u8 {
        match self {
            QuicChannel::Control => 0,
            QuicChannel::Chat => 1,
            QuicChannel::GameplayInput => 2,
            QuicChannel::GameplayEvent => 3,
            QuicChannel::Economy => 4,
        }
    }

    /// Transport primitive required by the channel: only `GameplayInput`
    /// travels as datagrams, every other channel uses a bidirectional stream.
    pub open spec fn spec_transport(self) -> TransportKind {
        if self == QuicChannel::GameplayInput {
            TransportKind::Datagram
        } else {
            TransportKind::BidiStream
        }
    }

    /// Delivery guarantee of the channel: only `GameplayInput` is unreliable,
    /// every other channel is reliable and ordered.
    pub open spec fn spec_delivery(self) -> DeliveryGuarantee {
        if self == QuicChannel::GameplayInput {
            DeliveryGuarantee::Unreliable
        } else {
            DeliveryGuarantee::ReliableOrdered
        }
    }

    /// Channels whose operations can never be dropped.
    pub open spec fn spec_is_critical(self) -> bool {
        self == QuicChannel::Economy || self == QuicChannel::GameplayEvent
            || self == QuicChannel::Control
    }

    /// Returns the wire identifier of this channel.
    pub fn id(self) -> (r: u8)
        ensures
            r == self.spec_id(),
    {
        match self {
            QuicChannel::Control => 0,
            QuicChannel::Chat => 1,
            QuicChannel::GameplayInput => 2,
            QuicChannel::GameplayEvent => 3,
            QuicChannel::Economy => 4,
        }
    }

    /// Returns the required transport primitive for this channel.
    pub fn transport(self) -> (r: TransportKind)
        ensures
            r == self.spec_transport(),
    {
        match self {
            Self::Control | Self::Chat | Self::GameplayEvent | Self::Economy => {
                TransportKind::BidiStream
            },
            Self::GameplayInput => TransportKind::Datagram,
        }
    }

    /// Returns the delivery guarantee for this channel.
    pub fn delivery(self) -> (r: DeliveryGuarantee)
        ensures
            r == self.spec_delivery(),
    {
        match self {
            Self::Control | Self::Chat | Self::GameplayEvent | Self::Economy => {
                DeliveryGuarantee::ReliableOrdered
            },
            Self::GameplayInput => DeliveryGuarantee::Unreliable,
        }
    }

    /// Indicates whether this channel carries operations that cannot be dropped.
    pub fn is_critical(self) -> (r: bool)
        ensures
            r == self.spec_is_critical(),
    {
        matches!(self, Self::Economy | Self::GameplayEvent | Self::Control)
    }
}

/// Decoding of a wire channel identifier: the channel whose identifier is
/// `value`, or `InvalidChannel(value)` when no channel has it.
pub open spec fn channel_from_id(value: u8) -> Result<QuicChannel, InvalidChannel> {
    if value == 0 {
        Ok(QuicChannel::Control)
    } else if value == 1 {
        Ok(QuicChannel::Chat)
    } else if value == 2 {
        Ok(QuicChannel::GameplayInput)
    } else if value == 3 {
        Ok(QuicChannel::GameplayEvent)
    } else if value == 4 {
        Ok(QuicChannel::Economy)
    } else {
        Err(InvalidChannel(value))
    }
}

impl core::convert::TryFrom<u8> for QuicChannel {
    type Error = InvalidChannel;

    fn try_from(value: u8) -> (r: Result<Self, Self::Error>) {
        match value {
            0 => Ok(Self::Control),
            1 => Ok(Self::Chat),
            2 => Ok(Self::GameplayInput),
            3 => Ok(Self::GameplayEvent),
            4 => Ok(Self::Economy),
            _ => Err(InvalidChannel(value)),
        }
    }
}

impl vstd::std_specs::convert::TryFromSpecImpl<u8> for QuicChannel {
    open spec fn obeys_try_from_spec() -> bool {
        true
    }

    open spec fn try_from_spec(v: u8) -> Result<Self, Self::Error> {
        channel_from_id(v)
    }
}

/// Error returned when an unknown channel id is decoded.
#[derive(Debug, Clone, Copy, PartialEq, Eq, Structural)]
pub struct InvalidChannel(pub u8);

impl InvalidChannel {
    /// The error message: `invalid QUIC channel id ` followed by the id.
    pub fn message(&self) -> (r: String)
        ensures
            r@ == "invalid QUIC channel id "@ + decimal(self.0 as nat),
    {
        let mut text = String::from_str("invalid QUIC channel id ");
        push_decimal(&mut text, self.0 as u32);
        text
    }
}

/// Decoding the identifier of a channel gives back that channel.
pub proof fn lemma_channel_id_roundtrip(channel: QuicChannel)
    ensures
        channel_from_id(channel.spec_id()) == Ok::<QuicChannel, InvalidChannel>(channel),
{
}

/// An identifier decodes to a channel exactly when it is below 5, and the
/// decoded channel's identifier is the one decoded.
pub proof fn lemma_channel_from_id_inverse(value: u8)
    ensures
        channel_from_id(value) is Ok <==> value < 5,
        channel_from_id(value) matches Ok(channel) ==> channel.spec_id() == value,
        channel_from_id(value) matches Err(e) ==> e == InvalidChannel(value),
{
}

/// Every critical channel is delivered reliably and in order, and the only
/// unreliable channel travels as datagrams.
pub proof fn lemma_critical_channels_are_reliable(channel: QuicChannel)
    ensures
        channel.spec_is_critical() ==> channel.spec_delivery()
            == DeliveryGuarantee::ReliableOrdered,
        channel.spec_delivery() == DeliveryGuarantee::Unreliable <==> channel.spec_transport()
            == TransportKind::Datagram,
{
}

} // verus!
