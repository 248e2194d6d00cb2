//! The IPv4 protocol: header parse/build, address-keyed demultiplexing and
//! session creation.

use vstd::prelude::*;
use crate::control::{Control, ControlFlow, ProtocolContext, SessionRef};
use crate::ipv4_address::Ipv4Address;
use crate::ipv4_parsing::{build_header_bytes, spec_ipv4_header_bytes, spec_parse_header, Ipv4Header};
use crate::message::Message;
use crate::protocol_id::{ipv4_id, spec_ipv4_id, spec_tcp_id, spec_udp_id, ProtocolId};
use crate::tap::{spec_tap_frame, Tap, TapSessionView};

verus! {

/// Everything that can go wrong inside the IPv4 protocol.
#[derive(Clone, Copy, Debug, PartialEq, Eq, Structural)]
pub enum Ipv4Error {
    /// No listen binding covers the local address of an inbound frame.
    MissingListenBinding(u32),
    /// The participant set lacks a local address.
    MissingSourceAddress,
    /// The participant set lacks a remote address.
    MissingDestinationAddress,
    /// A listen binding for this local address already exists.
    BindingExists(u32),
    /// A session keyed `(local, remote)` already exists.
    SessionExists(u32, u32),
    /// No session is keyed `(local, remote)`.
    MissingSession(u32, u32),
    /// The session's upstream protocol has no protocol number.
    UnknownUpstreamProtocol,
    /// The checksum field does not match the recomputed checksum.
    IncorrectChecksum { expected: u16, actual: u16 },
    /// The version field is not 4.
    IncorrectIpv4Version,
    /// The header length field is not 5.
    InvalidHeaderLength,
    /// A reserved type-of-service bit is set.
    UsedReservedTos,
    /// The reserved control flag is set.
    UsedReservedFlag,
    /// Fewer than twenty header bytes.
    HeaderTooShort,
    /// Not a valid delay bit.
    Delay(u8),
    /// Not a valid throughput bit.
    Throughput(u8),
    /// Not a valid reliability bit.
    Reliability(u8),
    /// Not a valid precedence code.
    Precedence(u8),
}

/// The connection identifier of an IPv4 session: the pair of endpoint
/// addresses, seen from this machine.
#[derive(Clone, Copy, Debug, PartialEq, Eq, Hash, Structural)]
pub struct Identifier {
    pub local: u32,
    pub remote: u32,
}

impl Identifier {
    pub fn new(local: u32, destination: u32) -> (r: Identifier)
        ensures
            r == (Identifier { local, remote: destination }),
    {
        Identifier { local, remote: destination }
    }
}

/// The local address named in `control`, or the error for its absence.
pub fn get_local(control: &Control) -> (r: Result<u32, Ipv4Error>)
    ensures
        r == match control.local_address {
            Some(a) => Ok::<u32, Ipv4Error>(a),
            None => Err::<u32, Ipv4Error>(Ipv4Error::MissingSourceAddress),
        },
{
    match control.local_address {
        Some(a) => Ok(a),
        None => Err(Ipv4Error::MissingSourceAddress),
    }
}

/// The remote address named in `control`, or the error for its absence.
pub fn get_remote(control: &Control) -> (r: Result<u32, Ipv4Error>)
    ensures
        r == match control.remote_address {
            Some(a) => Ok::<u32, Ipv4Error>(a),
            None => Err::<u32, Ipv4Error>(Ipv4Error::MissingDestinationAddress),
        },
{
    match control.remote_address {
        Some(a) => Ok(a),
        None => Err(Ipv4Error::MissingDestinationAddress),
    }
}

/// The protocol number that encodes `upstream` on the wire: 17 for UDP,
/// 6 for TCP, nothing for any other protocol.
pub open spec fn spec_ip_number(upstream: ProtocolId) -> Option<u8> {
    if upstream == spec_udp_id() {
        Some(17u8)
    } else if upstream == spec_tcp_id() {
        Some(6u8)
    } else {
        None
    }
}

/// One open IPv4 connection: its upstream protocol, the tap session it
/// sends through, and its address pair.
#[derive(Clone, Copy, Debug, PartialEq, Eq, Structural)]
pub struct Ipv4Session {
    pub upstream: ProtocolId,
    pub downstream: crate::tap::SessionId,
    pub identifier: Identifier,
}

impl Ipv4Session {
    fn new(downstream: crate::tap::SessionId, upstream: ProtocolId, identifier: Identifier) -> (r:
        Ipv4Session)
        ensures
            r == (Ipv4Session { upstream, downstream, identifier }),
    {
        Ipv4Session { upstream, downstream, identifier }
    }

    /// IPv4 owns this session.
    pub fn protocol(&self) -> (r: ProtocolId)
        ensures
            r == spec_ipv4_id(),
    {
        ipv4_id()
    }

    /// Prepends this session's IPv4 header and hands the frame to the tap
    /// session below.
    pub fn send(&self, message: &Message, tap: &mut Tap) -> (r: Result<(), Ipv4Error>)
        requires
            message@.len() <= 65515,
            old(tap).wf(),
        ensures
            final(tap).wf(),
            match spec_ip_number(self.upstream) {
                None => r == Err::<(), Ipv4Error>(Ipv4Error::UnknownUpstreamProtocol) && final(tap)@ == old(tap)@,
                Some(p) => {
                    if crate::tap::spec_has_session(
                        old(tap)@,
                        self.downstream.upstream,
                        self.downstream.network,
                    ) {
                        let i = crate::tap::spec_session_index(
                            old(tap)@,
                            self.downstream.upstream,
                            self.downstream.network,
                        );
                        r == Ok::<(), Ipv4Error>(()) && final(tap)@ == old(tap)@.update(
                            i,
                            TapSessionView {
                                upstream: old(tap)@[i].upstream,
                                network: old(tap)@[i].network,
                                queued: old(tap)@[i].queued.push(
                                    spec_tap_frame(
                                        old(tap)@[i].upstream,
                                        spec_ipv4_header_bytes(
                                            message@.len() as u16,
                                            30,
                                            p,
                                            self.identifier.local,
                                            self.identifier.remote,
                                        ) + message@,
                                    ),
                                ),
                            },
                        )
                    } else {
                        r == Err::<(), Ipv4Error>(
                            Ipv4Error::MissingSession(self.identifier.local, self.identifier.remote),
                        ) && final(tap)@ == old(tap)@
                    }
                },
            },
    {
        let ip_number: u8 = if self.upstream == crate::protocol_id::udp_id() {
            17
        } else if self.upstream == crate::protocol_id::tcp_id() {
            6
        } else {
            return Err(Ipv4Error::UnknownUpstreamProtocol);
        };
        let header = build_header_bytes(
            message.len() as u16,
            30,
            ip_number,
            Ipv4Address::new(self.identifier.local),
            Ipv4Address::new(self.identifier.remote),
        );
        let framed = message.with_header(&header);
        match tap.send_on(self.downstream, &framed) {
            Ok(()) => Ok(()),
            Err(_) => Err(Ipv4Error::MissingSession(self.identifier.local, self.identifier.remote)),
        }
    }

    /// Strips this layer's twenty-byte header, records the addresses and
    /// this session in the context, and hands the rest up.
    pub fn recv(&self, message: &Message, context: &mut ProtocolContext) -> (r: (ProtocolId, Message))
        requires
            message@.len() >= 20,
        ensures
            r.0 == self.upstream,
            r.1@ == message@.skip(20),
            *final(context) == (ProtocolContext {
                info: Control {
                    local_address: Some(self.identifier.local),
                    remote_address: Some(self.identifier.remote),
                    ..old(context).info
                },
                current_session: Some(SessionRef::Ipv4(self.identifier)),
            }),
    {
        context.info.local_address = Some(self.identifier.local);
        context.info.remote_address = Some(self.identifier.remote);
        context.current_session = Some(SessionRef::Ipv4(self.identifier));
        let rest = message.slice(20);
        (self.upstream, rest)
    }
}

/// Whether some binding in `s` covers `address`.
pub open spec fn spec_has_binding(s: Seq<(u32, ProtocolId)>, address: u32) -> bool {
    exists|i: int| 0 <= i < s.len() && s[i].0 == address
}

/// The index of the binding covering `address`; meaningful only when it
/// exists and the binding keys are distinct.
pub open spec fn spec_binding_index(s: Seq<(u32, ProtocolId)>, address: u32) -> int {
    choose|i: int| 0 <= i < s.len() && s[i].0 == address
}

/// The protocol listening on `address`.
pub open spec fn spec_binding_upstream(s: Seq<(u32, ProtocolId)>, address: u32) -> ProtocolId {
    s[spec_binding_index(s, address)].1
}

/// Whether the binding keys of `s` are pairwise distinct.
pub open spec fn spec_distinct_bindings(s: Seq<(u32, ProtocolId)>) -> bool {
    forall|i: int, j: int| 0 <= i < j < s.len() ==> s[i].0 != s[j].0
}

/// Whether some session in `s` is keyed `key`.
pub open spec fn spec_has_session(s: Seq<Ipv4Session>, key: Identifier) -> bool {
    exists|i: int| 0 <= i < s.len() && s[i].identifier == key
}

/// The index of the session keyed `key`; meaningful only when it exists and
/// the session keys are distinct.
pub open spec fn spec_session_index(s: Seq<Ipv4Session>, key: Identifier) -> int {
    choose|i: int| 0 <= i < s.len() && s[i].identifier == key
}

/// The session keyed `key`.
pub open spec fn spec_session_at(s: Seq<Ipv4Session>, key: Identifier) -> Ipv4Session {
    s[spec_session_index(s, key)]
}

/// Whether the session keys of `s` are pairwise distinct.
pub open spec fn spec_distinct_sessions(s: Seq<Ipv4Session>) -> bool {
    forall|i: int, j: int| 0 <= i < j < s.len() ==> s[i].identifier != s[j].identifier
}

/// The abstract state of the IPv4 protocol.
pub ghost struct Ipv4View {
    /// Listen bindings: local address to listening protocol, in creation order.
    pub bindings: Seq<(u32, ProtocolId)>,
    /// Live sessions, in creation order.
    pub sessions: Seq<Ipv4Session>,
}

/// The IPv4 protocol of one machine: its listen bindings and live sessions.
pub struct Ipv4 {
    listen_bindings: Vec<(u32, ProtocolId)>,
    sessions: Vec<Ipv4Session>,
}

impl View for Ipv4 {
    type V = Ipv4View;

    closed spec fn view(&self) -> Ipv4View {
        Ipv4View { bindings: self.listen_bindings@, sessions: self.sessions@ }
    }
}

impl Ipv4 {
    /// Well-formed: binding keys and session keys are pairwise distinct.
    pub open spec fn wf(self) -> bool {
        spec_distinct_bindings(self@.bindings) && spec_distinct_sessions(self@.sessions)
    }

    pub fn new() -> (r: Ipv4)
        ensures
            r@ == (Ipv4View {
                bindings: Seq::<(u32, ProtocolId)>::empty(),
                sessions: Seq::<Ipv4Session>::empty(),
            }),
            r.wf(),
    {
        Ipv4 { listen_bindings: Vec::new(), sessions: Vec::new() }
    }

    pub fn id(&self) -> (r: ProtocolId)
        ensures
            r == spec_ipv4_id(),
    {
        ipv4_id()
    }

    /// The index of the binding covering `address`, if any.
    fn find_binding(&self, address: u32) -> (r: Option<usize>)
        requires
            self.wf(),
        ensures
            match r {
                Some(i) => spec_has_binding(self@.bindings, address) && i == spec_binding_index(
                    self@.bindings,
                    address,
                ) && i < self@.bindings.len() && self@.bindings[i as int].0 == address,
                None => !spec_has_binding(self@.bindings, address),
            },
    {
        let mut i: usize = 0;
        while i < self.listen_bindings.len()
            invariant
                self.wf(),
                i <= self@.bindings.len(),
                self@.bindings.len() == self.listen_bindings@.len(),
                forall|j: int| 0 <= j < i ==> self@.bindings[j].0 != address,
            decreases self.listen_bindings.len() - i,
        {
            if self.listen_bindings[i].0 == address {
                proof {
                    let k = spec_binding_index(self@.bindings, address);
                    assert(0 <= k < self@.bindings.len() && self@.bindings[k].0 == address);
                    assert(k == i as int);
                }
                return Some(i);
            }
            i += 1;
        }
        None
    }

    /// The index of the session keyed `key`, if any.
    fn find_session(&self, key: Identifier) -> (r: Option<usize>)
        requires
            self.wf(),
        ensures
            match r {
                Some(i) => spec_has_session(self@.sessions, key) && i == spec_session_index(
                    self@.sessions,
                    key,
                ) && i < self@.sessions.len() && self@.sessions[i as int].identifier == key,
                None => !spec_has_session(self@.sessions, key),
            },
    {
        let mut i: usize = 0;
        while i < self.sessions.len()
            invariant
                self.wf(),
                i <= self@.sessions.len(),
                self@.sessions.len() == self.sessions@.len(),
                forall|j: int| 0 <= j < i ==> self@.sessions[j].identifier != key,
            decreases self.sessions.len() - i,
        {
            if self.sessions[i].identifier == key {
                proof {
                    let k = spec_session_index(self@.sessions, key);
                    assert(0 <= k < self@.sessions.len() && self@.sessions[k].identifier == key);
                    assert(k == i as int);
                }
                return Some(i);
            }
            i += 1;
        }
        None
    }

    /// The session keyed `key`, if any.
    pub fn get_session(&self, key: Identifier) -> (r: Option<Ipv4Session>)
        requires
            self.wf(),
        ensures
            match r {
                Some(s) => spec_has_session(self@.sessions, key) && s == spec_session_at(
                    self@.sessions,
                    key,
                ),
                None => !spec_has_session(self@.sessions, key),
            },
    {
        match self.find_session(key) {
            Some(i) => Some(self.sessions[i]),
            None => None,
        }
    }

    /// Creates an outbound session keyed by the local and remote addresses
    /// named in `participants`, opening a tap session below it.
    ///
    /// Fails with `SessionExists` if a session with the same pair exists;
    /// the second of two identical opens always fails this way.
    pub fn open_active(
        &mut self,
        upstream: ProtocolId,
        participants: &Control,
        tap: &mut Tap,
    ) -> (r: Result<Identifier, Ipv4Error>)
        requires
            old(self).wf(),
            old(tap).wf(),
        ensures
            final(self).wf(),
            final(tap).wf(),
            match (participants.local_address, participants.remote_address) {
                (None, _) => r == Err::<Identifier, Ipv4Error>(Ipv4Error::MissingSourceAddress)
                    && final(self)@ == old(self)@ && final(tap)@ == old(tap)@,
                (Some(_), None) => r == Err::<Identifier, Ipv4Error>(
                    Ipv4Error::MissingDestinationAddress,
                ) && final(self)@ == old(self)@ && final(tap)@ == old(tap)@,
                (Some(local), Some(remote)) => {
                    let key = Identifier { local, remote };
                    if spec_has_session(old(self)@.sessions, key) {
                        r == Err::<Identifier, Ipv4Error>(Ipv4Error::SessionExists(local, remote))
                            && final(self)@ == old(self)@ && final(tap)@ == old(tap)@
                    } else {
                        r == Ok::<Identifier, Ipv4Error>(key) && final(self)@ == (Ipv4View {
                            bindings: old(self)@.bindings,
                            sessions: old(self)@.sessions.push(
                                Ipv4Session {
                                    upstream,
                                    downstream: crate::tap::SessionId {
                                        upstream: spec_ipv4_id(),
                                        network: 0,
                                    },
                                    identifier: key,
                                },
                            ),
                        }) && (if crate::tap::spec_has_session(old(tap)@, spec_ipv4_id(), 0) {
                            final(tap)@ == old(tap)@
                        } else {
                            final(tap)@ == old(tap)@.push(
                                TapSessionView {
                                    upstream: spec_ipv4_id(),
                                    network: 0,
                                    queued: Seq::<Seq<u8>>::empty(),
                                },
                            )
                        })
                    }
                },
            },
    {
        let local: u32 = match get_local(participants) {
            Ok(a) => a,
            Err(e) => {
                return Err(e);
            },
        };
        let remote: u32 = match get_remote(participants) {
            Ok(a) => a,
            Err(e) => {
                return Err(e);
            },
        };
        let key = Identifier::new(local, remote);
        match self.find_session(key) {
            Some(_) => Err(Ipv4Error::SessionExists(local, remote)),
            None => {
                let mut forwarded = *participants;
                forwarded.network_index = Some(0);
                let downstream = match tap.open_active(ipv4_id(), &forwarded) {
                    Ok(sid) => sid,
                    Err(_) => {
                        proof {
                            assert(false);
                        }
                        return Err(Ipv4Error::MissingSourceAddress);
                    },
                };
                let session = Ipv4Session::new(downstream, upstream, key);
                self.sessions.push(session);
                Ok(key)
            },
        }
    }

    /// Registers a passive binding: inbound frames for `local address` will
    /// be delivered up to `upstream`.
    ///
    /// Fails with `BindingExists` if the address is already bound; the
    /// second of two identical listens always fails this way and leaves the
    /// first binding untouched.
    pub fn listen(&mut self, upstream: ProtocolId, participants: &Control) -> (r: Result<
        (),
        Ipv4Error,
    >)
        requires
            old(self).wf(),
        ensures
            final(self).wf(),
            match participants.local_address {
                None => r == Err::<(), Ipv4Error>(Ipv4Error::MissingSourceAddress) && final(self)@
                    == old(self)@,
                Some(local) => {
                    if spec_has_binding(old(self)@.bindings, local) {
                        r == Err::<(), Ipv4Error>(Ipv4Error::BindingExists(local)) && final(self)@
                            == old(self)@
                    } else {
                        r == Ok::<(), Ipv4Error>(()) && final(self)@ == (Ipv4View {
                            bindings: old(self)@.bindings.push((local, upstream)),
                            sessions: old(self)@.sessions,
                        })
                    }
                },
            },
    {
        let local: u32 = match get_local(participants) {
            Ok(a) => a,
            Err(e) => {
                return Err(e);
            },
        };
        match self.find_binding(local) {
            Some(_) => Err(Ipv4Error::BindingExists(local)),
            None => {
                self.listen_bindings.push((local, upstream));
                Ok(())
            },
        }
    }

    /// Passes an inbound frame up: parses the header, records the addresses
    /// in the context, finds the session keyed `(destination, source)` or
    /// builds one from the listen binding for the destination, and hands
    /// back the upstream protocol with the de-framed message.
    ///
    /// `downstream` is the tap session that delivered the frame; a passively
    /// opened session records it as its way back down.
    pub fn demux(
        &mut self,
        message: &Message,
        downstream: crate::tap::SessionId,
        context: &mut ProtocolContext,
    ) -> (r: Result<(ProtocolId, Message), Ipv4Error>)
        requires
            old(self).wf(),
        ensures
            final(self).wf(),
            match spec_parse_header(message@) {
                Err(e) => r matches Err(re) && re == e && final(self)@ == old(self)@ && *final(context) == *old(context),
                Ok(h) => {
                    let local = h.destination.value;
                    let remote = h.source.value;
                    let key = Identifier { local, remote };
                    let info1 = Control {
                        local_address: Some(local),
                        remote_address: Some(remote),
                        ..old(context).info
                    };
                    if spec_has_session(old(self)@.sessions, key) {
                        r matches Ok(p) && p.0 == spec_session_at(old(self)@.sessions, key).upstream
                            && p.1@ == message@.skip(20) && final(self)@ == old(self)@ && *final(context) == (ProtocolContext {
                            info: info1,
                            current_session: Some(SessionRef::Ipv4(key)),
                        })
                    } else if spec_has_binding(old(self)@.bindings, local) {
                        r matches Ok(p) && p.0 == spec_binding_upstream(old(self)@.bindings, local)
                            && p.1@ == message@.skip(20) && final(self)@ == (Ipv4View {
                            bindings: old(self)@.bindings,
                            sessions: old(self)@.sessions.push(
                                Ipv4Session {
                                    upstream: spec_binding_upstream(old(self)@.bindings, local),
                                    downstream,
                                    identifier: key,
                                },
                            ),
                        }) && *final(context) == (ProtocolContext {
                            info: info1,
                            current_session: Some(SessionRef::Ipv4(key)),
                        })
                    } else {
                        r == Err::<(ProtocolId, Message), Ipv4Error>(
                            Ipv4Error::MissingListenBinding(local),
                        ) && final(self)@ == old(self)@ && *final(context) == (ProtocolContext {
                            info: info1,
                            current_session: old(context).current_session,
                        })
                    }
                },
            },
    {
        let header = match Ipv4Header::from_bytes(message.bytes().as_slice()) {
            Ok(h) => h,
            Err(e) => {
                return Err(e);
            },
        };
        let local: u32 = header.destination.to_u32();
        let remote: u32 = header.source.to_u32();
        let key = Identifier::new(local, remote);
        context.info.local_address = Some(local);
        context.info.remote_address = Some(remote);
        match self.find_session(key) {
            Some(i) => {
                let session = self.sessions[i];
                let (upstream, rest) = session.recv(message, context);
                Ok((upstream, rest))
            },
            None => {
                match self.find_binding(local) {
                    Some(b) => {
                        let upstream = self.listen_bindings[b].1;
                        let session = Ipv4Session::new(downstream, upstream, key);
                        self.sessions.push(session);
                        let (up2, rest) = session.recv(message, context);
                        Ok((up2, rest))
                    },
                    None => Err(Ipv4Error::MissingListenBinding(local)),
                }
            },
        }
    }

    /// Gives the protocol its tick; IPv4 has nothing to do.
    pub fn awake(&self) -> (r: ControlFlow)
        ensures
            r == ControlFlow::Continue,
    {
        ControlFlow::Continue
    }
}

} // verus!
