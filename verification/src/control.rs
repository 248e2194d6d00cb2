//! Controls: the typed key-value record threaded through the protocol stack.

use vstd::prelude::*;

verus! {

/// Out-of-band demultiplexing hints carried alongside a message.
///
/// A control maps a small, fixed set of keys to primitive values. Layers fill
/// keys in as a frame ascends the stack: IPv4 records the addresses, UDP the
/// ports, the tap the arrival network. A key that has not been set is `None`.
#[derive(Clone, Copy, Debug, PartialEq, Eq)]
pub struct Control {
    /// IPv4 address of this endpoint.
    pub local_address: Option<u32>,
    /// IPv4 address of the peer.
    pub remote_address: Option<u32>,
    /// UDP/TCP port of this endpoint.
    pub local_port: Option<u16>,
    /// UDP/TCP port of the peer.
    pub remote_port: Option<u16>,
    /// Which attached network carried this frame.
    pub network_index: Option<u8>,
    /// The upper-layer protocol, in the compact encoding.
    pub protocol_id: Option<u16>,
}

impl Control {
    /// A control with no keys set.
    pub fn new() -> (r: Control)
        ensures
            r == Control::spec_empty(),
    {
        Control {
            local_address: None,
            remote_address: None,
            local_port: None,
            remote_port: None,
            network_index: None,
            protocol_id: None,
        }
    }

    pub open spec fn spec_empty() -> Control {
        Control {
            local_address: None,
            remote_address: None,
            local_port: None,
            remote_port: None,
            network_index: None,
            protocol_id: None,
        }
    }
}

/// The cooperative signal a protocol returns from its per-tick hook.
#[derive(Clone, Copy, Debug, PartialEq, Eq, Structural)]
pub enum ControlFlow {
    /// Keep the simulation running.
    Continue,
    /// End the simulation at the next tick boundary.
    EndSimulation,
}

/// A reference to a session at some layer, by that layer's connection key.
#[derive(Clone, Copy, Debug, PartialEq, Eq, Structural)]
pub enum SessionRef {
    Tap(crate::tap::SessionId),
    Ipv4(crate::ipv4::Identifier),
    Udp(crate::udp::SessionId),
}

/// The per-delivery scratch handed through every demultiplexing call.
///
/// `info` accumulates demultiplexing keys as a frame ascends the stack;
/// `current_session` names the lower-layer session that made the current
/// call, so that a passively opened session can record its downstream.
#[derive(Clone, Copy, Debug, PartialEq, Eq)]
pub struct ProtocolContext {
    pub info: Control,
    pub current_session: Option<SessionRef>,
}

impl ProtocolContext {
    /// A fresh context with no keys set and no current session.
    pub fn new() -> (r: ProtocolContext)
        ensures
            r == ProtocolContext::spec_empty(),
    {
        ProtocolContext { info: Control::new(), current_session: None }
    }

    pub open spec fn spec_empty() -> ProtocolContext {
        ProtocolContext { info: Control::spec_empty(), current_session: None }
    }
}

} // verus!
