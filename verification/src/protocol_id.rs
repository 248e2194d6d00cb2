//! Protocol identifiers: a network layer paired with a one-byte code.

use vstd::prelude::*;

verus! {

/// The network layer at which a protocol operates.
#[derive(Clone, Copy, Debug, PartialEq, Eq, Hash, Structural)]
pub enum NetworkLayer {
    Link,
    Network,
    Transport,
    User,
}

impl NetworkLayer {
    /// The numeric code of this layer in the compact protocol-id encoding.
    pub open spec fn spec_code(self) -> u8 {
        match self {
            NetworkLayer::Link => 0,
            NetworkLayer::Network => 1,
            NetworkLayer::Transport => 2,
            NetworkLayer::User => 3,
        }
    }

    pub fn code(self) -> (r: u8)
        ensures
            r == self.spec_code(),
    {
        match self {
            NetworkLayer::Link => 0,
            NetworkLayer::Network => 1,
            NetworkLayer::Transport => 2,
            NetworkLayer::User => 3,
        }
    }

    /// The layer encoded by `code`, if any.
    pub open spec fn spec_from_code(code: u8) -> Option<NetworkLayer> {
        if code == 0 {
            Some(NetworkLayer::Link)
        } else if code == 1 {
            Some(NetworkLayer::Network)
        } else if code == 2 {
            Some(NetworkLayer::Transport)
        } else if code == 3 {
            Some(NetworkLayer::User)
        } else {
            None
        }
    }

    pub fn from_code(code: u8) -> (r: Option<NetworkLayer>)
        ensures
            r == Self::spec_from_code(code),
    {
        if code == 0 {
            Some(NetworkLayer::Link)
        } else if code == 1 {
            Some(NetworkLayer::Network)
        } else if code == 2 {
            Some(NetworkLayer::Transport)
        } else if code == 3 {
            Some(NetworkLayer::User)
        } else {
            None
        }
    }
}

/// A two-byte encoding of a layer that does not name a valid layer.
#[derive(Clone, Copy, Debug, PartialEq, Eq, Structural)]
pub struct NetworkLayerError {
    pub code: u8,
}

/// Identifies one protocol: its layer and a per-layer code.
///
/// Encodes compactly to a `u16` as `layer * 256 + code`.
#[derive(Clone, Copy, Debug, PartialEq, Eq, Hash, Structural)]
pub struct ProtocolId {
    pub layer: NetworkLayer,
    pub code: u8,
}

impl ProtocolId {
    pub open spec fn spec_to_u16(self) -> u16 {
        (self.layer.spec_code() * 256 + self.code) as u16
    }

    /// The two big-endian bytes of the compact encoding.
    pub open spec fn spec_bytes(self) -> Seq<u8> {
        seq![self.layer.spec_code(), self.code]
    }

    pub fn new(layer: NetworkLayer, code: u8) -> (r: ProtocolId)
        ensures
            r == (ProtocolId { layer, code }),
    {
        ProtocolId { layer, code }
    }

    pub fn to_u16(self) -> (r: u16)
        ensures
            r == self.spec_to_u16(),
    {
        self.layer.code() as u16 * 256 + self.code as u16
    }

    /// The protocol id encoded by `value`, or the invalid layer byte.
    pub open spec fn spec_from_u16(value: u16) -> Result<ProtocolId, NetworkLayerError> {
        match NetworkLayer::spec_from_code((value / 256) as u8) {
            Some(layer) => Ok(ProtocolId { layer, code: (value % 256) as u8 }),
            None => Err(NetworkLayerError { code: (value / 256) as u8 }),
        }
    }

    pub fn from_u16(value: u16) -> (r: Result<ProtocolId, NetworkLayerError>)
        ensures
            r == Self::spec_from_u16(value),
    {
        let high: u8 = (value / 256) as u8;
        let low: u8 = (value % 256) as u8;
        match NetworkLayer::from_code(high) {
            Some(layer) => Ok(ProtocolId { layer, code: low }),
            None => Err(NetworkLayerError { code: high }),
        }
    }
}

/// The id of the link-layer tap.
pub open spec fn spec_tap_id() -> ProtocolId {
    ProtocolId { layer: NetworkLayer::Link, code: 0 }
}

pub fn tap_id() -> (r: ProtocolId)
    ensures
        r == spec_tap_id(),
{
    ProtocolId { layer: NetworkLayer::Link, code: 0 }
}

/// The id of the IPv4 protocol.
pub open spec fn spec_ipv4_id() -> ProtocolId {
    ProtocolId { layer: NetworkLayer::Network, code: 4 }
}

pub fn ipv4_id() -> (r: ProtocolId)
    ensures
        r == spec_ipv4_id(),
{
    ProtocolId { layer: NetworkLayer::Network, code: 4 }
}

/// The id of the UDP protocol.
pub open spec fn spec_udp_id() -> ProtocolId {
    ProtocolId { layer: NetworkLayer::Transport, code: 17 }
}

pub fn udp_id() -> (r: ProtocolId)
    ensures
        r == spec_udp_id(),
{
    ProtocolId { layer: NetworkLayer::Transport, code: 17 }
}

/// The id reserved for TCP; named by number only, never implemented here.
pub open spec fn spec_tcp_id() -> ProtocolId {
    ProtocolId { layer: NetworkLayer::Transport, code: 6 }
}

pub fn tcp_id() -> (r: ProtocolId)
    ensures
        r == spec_tcp_id(),
{
    ProtocolId { layer: NetworkLayer::Transport, code: 6 }
}

/// Round trip: decoding an encoded protocol id gives the id back.
pub proof fn lemma_id_encoding_round_trip(p: ProtocolId)
    ensures
        ProtocolId::spec_from_u16(p.spec_to_u16()) == Ok::<ProtocolId, NetworkLayerError>(p),
{
}

} // verus!
