//! The UDP protocol: port-keyed demultiplexing over IPv4.

use vstd::prelude::*;
use crate::control::{Control, ControlFlow, ProtocolContext, SessionRef};
use crate::ipv4::{Identifier, Ipv4, Ipv4Error, Ipv4Session};
use crate::ipv4_parsing::{spec_be16, spec_ipv4_header_bytes};
use crate::message::Message;
use crate::protocol_id::{spec_ipv4_id, spec_udp_id, udp_id, ProtocolId};
use crate::tap::{spec_tap_frame, Tap, TapSessionView};

verus! {

/// The connection identifier of a UDP session: both endpoint addresses and
/// ports, seen from this machine.
#[derive(Clone, Copy, Debug, PartialEq, Eq, Hash, Structural)]
pub struct SessionId {
    pub local_address: u32,
    pub local_port: u16,
    pub remote_address: u32,
    pub remote_port: u16,
}

/// The key of a UDP listen binding: the local address and port.
#[derive(Clone, Copy, Debug, PartialEq, Eq, Hash, Structural)]
pub struct ListenId {
    pub address: u32,
    pub port: u16,
}

/// Everything that can go wrong inside the UDP protocol.
#[derive(Clone, Copy, Debug, PartialEq, Eq, Structural)]
pub enum UdpError {
    /// A session with this connection identifier already exists.
    SessionExists,
    /// No session and no listen binding matches an inbound frame.
    MissingSession,
    /// A listen binding for this local address and port already exists.
    BindingExists(u32, u16),
    /// Fewer than eight header bytes.
    HeaderTooShort,
    /// The participant set lacks a local address.
    MissingLocalAddress,
    /// The participant set lacks a remote address.
    MissingRemoteAddress,
    /// The participant set lacks a local port.
    MissingLocalPort,
    /// The participant set lacks a remote port.
    MissingRemotePort,
    /// The IPv4 layer below refused the call.
    Ipv4(Ipv4Error),
}

/// The eight-byte UDP header: source port, destination port, length and a
/// zero checksum, each as a big-endian 16-bit word.
pub open spec fn spec_udp_header(source_port: u16, destination_port: u16, length: u16) -> Seq<u8> {
    seq![
        (source_port / 256) as u8,
        (source_port % 256) as u8,
        (destination_port / 256) as u8,
        (destination_port % 256) as u8,
        (length / 256) as u8,
        (length % 256) as u8,
        0u8,
        0u8,
    ]
}

/// Relies on etherparse's `UdpHeaderSlice`: `from_slice` succeeds on any
/// slice of at least eight bytes, and the accessors read the four big-endian
/// 16-bit fields at offsets 0, 2, 4 and 6: source port, destination port,
/// length and checksum.
#[verifier::external_body]
fn parse_udp_header(bytes: &[u8]) -> (r: (u16, u16, u16, u16))
    requires
        bytes@.len() >= 8,
    ensures
        r.0 == spec_be16(bytes@[0], bytes@[1]),
        r.1 == spec_be16(bytes@[2], bytes@[3]),
        r.2 == spec_be16(bytes@[4], bytes@[5]),
        r.3 == spec_be16(bytes@[6], bytes@[7]),
{
    let header = etherparse::UdpHeaderSlice::from_slice(bytes).unwrap();
    (header.source_port(), header.destination_port(), header.length(), header.checksum())
}

/// One open UDP connection: its upstream protocol, the IPv4 session it
/// sends through, and its four-part key.
#[derive(Clone, Copy, Debug, PartialEq, Eq, Structural)]
pub struct UdpSession {
    pub upstream: ProtocolId,
    pub downstream: Identifier,
    pub identifier: SessionId,
}

impl UdpSession {
    /// UDP owns this session.
    pub fn protocol(&self) -> (r: ProtocolId)
        ensures
            r == spec_udp_id(),
    {
        udp_id()
    }

    /// Prepends this session's UDP header and hands the datagram to the
    /// IPv4 session below, which frames it further down to the tap.
    pub fn send(&self, message: &Message, ipv4: &Ipv4, tap: &mut Tap) -> (r: Result<(), UdpError>)
        requires
            message@.len() <= 65507,
            ipv4.wf(),
            old(tap).wf(),
        ensures
            final(tap).wf(),
            ({
                let length = (message@.len() + 8) as u16;
                let datagram = spec_udp_header(
                    self.identifier.local_port,
                    self.identifier.remote_port,
                    length,
                ) + message@;
                if !crate::ipv4::spec_has_session(ipv4@.sessions, self.downstream) {
                    r == Err::<(), UdpError>(UdpError::MissingSession) && final(tap)@ == old(tap)@
                } else {
                    let s4 = crate::ipv4::spec_session_at(ipv4@.sessions, self.downstream);
                    match crate::ipv4::spec_ip_number(s4.upstream) {
                        None => r == Err::<(), UdpError>(
                            UdpError::Ipv4(Ipv4Error::UnknownUpstreamProtocol),
                        ) && final(tap)@ == old(tap)@,
                        Some(p) => {
                            if crate::tap::spec_has_session(
                                old(tap)@,
                                s4.downstream.upstream,
                                s4.downstream.network,
                            ) {
                                let i = crate::tap::spec_session_index(
                                    old(tap)@,
                                    s4.downstream.upstream,
                                    s4.downstream.network,
                                );
                                r == Ok::<(), UdpError>(()) && final(tap)@ == old(tap)@.update(
                                    i,
                                    TapSessionView {
                                        upstream: old(tap)@[i].upstream,
                                        network: old(tap)@[i].network,
                                        queued: old(tap)@[i].queued.push(
                                            spec_tap_frame(
                                                old(tap)@[i].upstream,
                                                spec_ipv4_header_bytes(
                                                    length,
                                                    30,
                                                    p,
                                                    s4.identifier.local,
                                                    s4.identifier.remote,
                                                ) + datagram,
                                            ),
                                        ),
                                    },
                                )
                            } else {
                                r == Err::<(), UdpError>(
                                    UdpError::Ipv4(
                                        Ipv4Error::MissingSession(
                                            s4.identifier.local,
                                            s4.identifier.remote,
                                        ),
                                    ),
                                ) && final(tap)@ == old(tap)@
                            }
                        },
                    }
                }
            }),
    {
        let length: u16 = message.len() as u16 + 8;
        let mut header: Vec<u8> = Vec::new();
        header.push((self.identifier.local_port / 256) as u8);
        header.push((self.identifier.local_port % 256) as u8);
        header.push((self.identifier.remote_port / 256) as u8);
        header.push((self.identifier.remote_port % 256) as u8);
        header.push((length / 256) as u8);
        header.push((length % 256) as u8);
        header.push(0);
        header.push(0);
        proof {
            assert(header@ =~= spec_udp_header(
                self.identifier.local_port,
                self.identifier.remote_port,
                length,
            ));
        }
        let datagram = message.with_header(&header);
        let downstream = match ipv4.get_session(self.downstream) {
            Some(s) => s,
            None => {
                return Err(UdpError::MissingSession);
            },
        };
        match downstream.send(&datagram, tap) {
            Ok(()) => Ok(()),
            Err(e) => Err(UdpError::Ipv4(e)),
        }
    }
}

/// Whether some binding in `s` is keyed `key`.
pub open spec fn spec_has_binding(s: Seq<(ListenId, ProtocolId)>, key: ListenId) -> bool {
    exists|i: int| 0 <= i < s.len() && s[i].0 == key
}

/// The index of the binding keyed `key`; meaningful only when it exists and
/// the binding keys are distinct.
pub open spec fn spec_binding_index(s: Seq<(ListenId, ProtocolId)>, key: ListenId) -> int {
    choose|i: int| 0 <= i < s.len() && s[i].0 == key
}

/// The protocol listening on `key`.
pub open spec fn spec_binding_upstream(s: Seq<(ListenId, ProtocolId)>, key: ListenId) -> ProtocolId {
    s[spec_binding_index(s, key)].1
}

/// Whether the binding keys of `s` are pairwise distinct.
pub open spec fn spec_distinct_bindings(s: Seq<(ListenId, ProtocolId)>) -> bool {
    forall|i: int, j: int| 0 <= i < j < s.len() ==> s[i].0 != s[j].0
}

/// Whether some session in `s` is keyed `key`.
pub open spec fn spec_has_session(s: Seq<UdpSession>, key: SessionId) -> bool {
    exists|i: int| 0 <= i < s.len() && s[i].identifier == key
}

/// The index of the session keyed `key`; meaningful only when it exists and
/// the session keys are distinct.
pub open spec fn spec_session_index(s: Seq<UdpSession>, key: SessionId) -> int {
    choose|i: int| 0 <= i < s.len() && s[i].identifier == key
}

/// The session keyed `key`.
pub open spec fn spec_session_at(s: Seq<UdpSession>, key: SessionId) -> UdpSession {
    s[spec_session_index(s, key)]
}

/// Whether the session keys of `s` are pairwise distinct.
pub open spec fn spec_distinct_sessions(s: Seq<UdpSession>) -> bool {
    forall|i: int, j: int| 0 <= i < j < s.len() ==> s[i].identifier != s[j].identifier
}

/// The abstract state of the UDP protocol.
pub ghost struct UdpView {
    /// Listen bindings: local key to listening protocol, in creation order.
    pub bindings: Seq<(ListenId, ProtocolId)>,
    /// Live sessions, in creation order.
    pub sessions: Seq<UdpSession>,
}

/// The UDP protocol of one machine: its listen bindings and live sessions.
pub struct Udp {
    listen_bindings: Vec<(ListenId, ProtocolId)>,
    sessions: Vec<UdpSession>,
}

impl View for Udp {
    type V = UdpView;

    closed spec fn view(&self) -> UdpView {
        UdpView { bindings: self.listen_bindings@, sessions: self.sessions@ }
    }
}

impl Udp {
    /// Well-formed: binding keys and session keys are pairwise distinct.
    pub open spec fn wf(self) -> bool {
        spec_distinct_bindings(self@.bindings) && spec_distinct_sessions(self@.sessions)
    }

    pub fn new() -> (r: Udp)
        ensures
            r@ == (UdpView {
                bindings: Seq::<(ListenId, ProtocolId)>::empty(),
                sessions: Seq::<UdpSession>::empty(),
            }),
            r.wf(),
    {
        Udp { listen_bindings: Vec::new(), sessions: Vec::new() }
    }

    pub fn id(&self) -> (r: ProtocolId)
        ensures
            r == spec_udp_id(),
    {
        udp_id()
    }

    /// The index of the binding keyed `key`, if any.
    fn find_binding(&self, key: ListenId) -> (r: Option<usize>)
        requires
            self.wf(),
        ensures
            match r {
                Some(i) => spec_has_binding(self@.bindings, key) && i == spec_binding_index(
                    self@.bindings,
                    key,
                ) && i < self@.bindings.len() && self@.bindings[i as int].0 == key,
                None => !spec_has_binding(self@.bindings, key),
            },
    {
        let mut i: usize = 0;
        while i < self.listen_bindings.len()
            invariant
                self.wf(),
                i <= self@.bindings.len(),
                self@.bindings.len() == self.listen_bindings@.len(),
                forall|j: int| 0 <= j < i ==> self@.bindings[j].0 != key,
            decreases self.listen_bindings.len() - i,
        {
            if self.listen_bindings[i].0 == key {
                proof {
                    let k = spec_binding_index(self@.bindings, key);
                    assert(0 <= k < self@.bindings.len() && self@.bindings[k].0 == key);
                    assert(k == i as int);
                }
                return Some(i);
            }
            i += 1;
        }
        None
    }

    /// The index of the session keyed `key`, if any.
    fn find_session(&self, key: SessionId) -> (r: Option<usize>)
        requires
            self.wf(),
        ensures
            match r {
                Some(i) => spec_has_session(self@.sessions, key) && i == spec_session_index(
                    self@.sessions,
                    key,
                ) && i < self@.sessions.len() && self@.sessions[i as int].identifier == key,
                None => !spec_has_session(self@.sessions, key),
            },
    {
        let mut i: usize = 0;
        while i < self.sessions.len()
            invariant
                self.wf(),
                i <= self@.sessions.len(),
                self@.sessions.len() == self.sessions@.len(),
                forall|j: int| 0 <= j < i ==> self@.sessions[j].identifier != key,
            decreases self.sessions.len() - i,
        {
            if self.sessions[i].identifier == key {
                proof {
                    let k = spec_session_index(self@.sessions, key);
                    assert(0 <= k < self@.sessions.len() && self@.sessions[k].identifier == key);
                    assert(k == i as int);
                }
                return Some(i);
            }
            i += 1;
        }
        None
    }

    /// The session keyed `key`, if any.
    pub fn get_session(&self, key: SessionId) -> (r: Option<UdpSession>)
        requires
            self.wf(),
        ensures
            match r {
                Some(s) => spec_has_session(self@.sessions, key) && s == spec_session_at(
                    self@.sessions,
                    key,
                ),
                None => !spec_has_session(self@.sessions, key),
            },
    {
        match self.find_session(key) {
            Some(i) => Some(self.sessions[i]),
            None => None,
        }
    }

    /// Creates an outbound session keyed by the addresses and ports named in
    /// `participants`, opening an IPv4 session (and below it a tap session)
    /// as its way down.
    ///
    /// Fails with `SessionExists` if a session with the same four-part key
    /// exists; the second of two identical opens always fails this way.
    pub fn open_active(
        &mut self,
        upstream: ProtocolId,
        participants: &Control,
        ipv4: &mut Ipv4,
        tap: &mut Tap,
    ) -> (r: Result<SessionId, UdpError>)
        requires
            old(self).wf(),
            old(ipv4).wf(),
            old(tap).wf(),
        ensures
            final(self).wf(),
            final(ipv4).wf(),
            final(tap).wf(),
            match (
                participants.local_port,
                participants.remote_port,
                participants.local_address,
                participants.remote_address,
            ) {
                (None, _, _, _) => r == Err::<SessionId, UdpError>(UdpError::MissingLocalPort)
                    && final(self)@ == old(self)@ && final(ipv4)@ == old(ipv4)@ && final(tap)@
                    == old(tap)@,
                (Some(_), None, _, _) => r == Err::<SessionId, UdpError>(
                    UdpError::MissingRemotePort,
                ) && final(self)@ == old(self)@ && final(ipv4)@ == old(ipv4)@ && final(tap)@ == old(tap)@,
                (Some(_), Some(_), None, _) => r == Err::<SessionId, UdpError>(
                    UdpError::MissingLocalAddress,
                ) && final(self)@ == old(self)@ && final(ipv4)@ == old(ipv4)@ && final(tap)@ == old(tap)@,
                (Some(_), Some(_), Some(_), None) => r == Err::<SessionId, UdpError>(
                    UdpError::MissingRemoteAddress,
                ) && final(self)@ == old(self)@ && final(ipv4)@ == old(ipv4)@ && final(tap)@ == old(tap)@,
                (Some(lp), Some(rp), Some(la), Some(ra)) => {
                    let id4 = SessionId {
                        local_address: la,
                        local_port: lp,
                        remote_address: ra,
                        remote_port: rp,
                    };
                    let key = Identifier { local: la, remote: ra };
                    if spec_has_session(old(self)@.sessions, id4) {
                        r == Err::<SessionId, UdpError>(UdpError::SessionExists) && final(self)@
                            == old(self)@ && final(ipv4)@ == old(ipv4)@ && final(tap)@ == old(tap)@
                    } else if crate::ipv4::spec_has_session(old(ipv4)@.sessions, key) {
                        r == Err::<SessionId, UdpError>(
                            UdpError::Ipv4(Ipv4Error::SessionExists(la, ra)),
                        ) && final(self)@ == old(self)@ && final(ipv4)@ == old(ipv4)@ && final(tap)@
                            == old(tap)@
                    } else {
                        r == Ok::<SessionId, UdpError>(id4) && final(self)@ == (UdpView {
                            bindings: old(self)@.bindings,
                            sessions: old(self)@.sessions.push(
                                UdpSession { upstream, downstream: key, identifier: id4 },
                            ),
                        }) && final(ipv4)@ == (crate::ipv4::Ipv4View {
                            bindings: old(ipv4)@.bindings,
                            sessions: old(ipv4)@.sessions.push(
                                Ipv4Session {
                                    upstream: spec_udp_id(),
                                    downstream: crate::tap::SessionId {
                                        upstream: spec_ipv4_id(),
                                        network: 0,
                                    },
                                    identifier: key,
                                },
                            ),
                        }) && (if crate::tap::spec_has_session(old(tap)@, spec_ipv4_id(), 0) {
                            final(tap)@ == old(tap)@
                        } else {
                            final(tap)@ == old(tap)@.push(
                                TapSessionView {
                                    upstream: spec_ipv4_id(),
                                    network: 0,
                                    queued: Seq::<Seq<u8>>::empty(),
                                },
                            )
                        })
                    }
                },
            },
    {
        let local_port: u16 = match participants.local_port {
            Some(p) => p,
            None => {
                return Err(UdpError::MissingLocalPort);
            },
        };
        let remote_port: u16 = match participants.remote_port {
            Some(p) => p,
            None => {
                return Err(UdpError::MissingRemotePort);
            },
        };
        let local_address: u32 = match participants.local_address {
            Some(a) => a,
            None => {
                return Err(UdpError::MissingLocalAddress);
            },
        };
        let remote_address: u32 = match participants.remote_address {
            Some(a) => a,
            None => {
                return Err(UdpError::MissingRemoteAddress);
            },
        };
        let identifier = SessionId { local_address, local_port, remote_address, remote_port };
        match self.find_session(identifier) {
            Some(_) => Err(UdpError::SessionExists),
            None => {
                let downstream = match ipv4.open_active(udp_id(), participants, tap) {
                    Ok(key) => key,
                    Err(e) => {
                        return Err(UdpError::Ipv4(e));
                    },
                };
                let session = UdpSession { upstream, downstream, identifier };
                self.sessions.push(session);
                Ok(identifier)
            },
        }
    }

    /// Records a passive binding for the local address and port named in
    /// `participants`, then forwards the listen down to IPv4 so that frames
    /// for this address are accepted at all.
    ///
    /// Fails with `BindingExists` if the pair is already bound; the second
    /// of two identical listens always fails this way and leaves the first
    /// binding untouched. A refusal from IPv4 is handed back after the UDP
    /// binding is recorded, as the layering dictates.
    pub fn listen(&mut self, upstream: ProtocolId, participants: &Control, ipv4: &mut Ipv4) -> (r:
        Result<(), UdpError>)
        requires
            old(self).wf(),
            old(ipv4).wf(),
        ensures
            final(self).wf(),
            final(ipv4).wf(),
            match (participants.local_port, participants.local_address) {
                (None, _) => r == Err::<(), UdpError>(UdpError::MissingLocalPort) && final(self)@
                    == old(self)@ && final(ipv4)@ == old(ipv4)@,
                (Some(_), None) => r == Err::<(), UdpError>(UdpError::MissingLocalAddress) && final(self)@ == old(self)@ && final(ipv4)@ == old(ipv4)@,
                (Some(port), Some(address)) => {
                    let lid = ListenId { address, port };
                    if spec_has_binding(old(self)@.bindings, lid) {
                        r == Err::<(), UdpError>(UdpError::BindingExists(address, port)) && final(self)@ == old(self)@ && final(ipv4)@ == old(ipv4)@
                    } else {
                        final(self)@ == (UdpView {
                            bindings: old(self)@.bindings.push((lid, upstream)),
                            sessions: old(self)@.sessions,
                        }) && (if crate::ipv4::spec_has_binding(old(ipv4)@.bindings, address) {
                            r == Err::<(), UdpError>(
                                UdpError::Ipv4(Ipv4Error::BindingExists(address)),
                            ) && final(ipv4)@ == old(ipv4)@
                        } else {
                            r == Ok::<(), UdpError>(()) && final(ipv4)@ == (crate::ipv4::Ipv4View {
                                bindings: old(ipv4)@.bindings.push((address, spec_udp_id())),
                                sessions: old(ipv4)@.sessions,
                            })
                        })
                    }
                },
            },
    {
        let port: u16 = match participants.local_port {
            Some(p) => p,
            None => {
                return Err(UdpError::MissingLocalPort);
            },
        };
        let address: u32 = match participants.local_address {
            Some(a) => a,
            None => {
                return Err(UdpError::MissingLocalAddress);
            },
        };
        let lid = ListenId { address, port };
        match self.find_binding(lid) {
            Some(_) => Err(UdpError::BindingExists(address, port)),
            None => {
                self.listen_bindings.push((lid, upstream));
                match ipv4.listen(udp_id(), participants) {
                    Ok(()) => Ok(()),
                    Err(e) => Err(UdpError::Ipv4(e)),
                }
            },
        }
    }

    /// Passes an inbound datagram up: parses the eight-byte header, derives
    /// the ports, records them in the context, finds the session keyed by
    /// the four-part identifier or materializes one from the matching listen
    /// binding, and hands back the upstream protocol with the payload.
    ///
    /// A materialized session records as its way down the IPv4 session that
    /// delivered the datagram, read from the context's current session.
    pub fn demux(&mut self, message: &Message, context: &mut ProtocolContext) -> (r: Result<
        (ProtocolId, Message),
        UdpError,
    >)
        requires
            old(self).wf(),
            old(context).current_session matches Some(SessionRef::Ipv4(_)),
        ensures
            final(self).wf(),
            message@.len() < 8 ==> r == Err::<(ProtocolId, Message), UdpError>(
                UdpError::HeaderTooShort,
            ) && final(self)@ == old(self)@ && *final(context) == *old(context),
            message@.len() >= 8 ==> match (
                old(context).info.local_address,
                old(context).info.remote_address,
            ) {
                (None, _) => r == Err::<(ProtocolId, Message), UdpError>(
                    UdpError::MissingLocalAddress,
                ) && final(self)@ == old(self)@ && *final(context) == *old(context),
                (Some(_), None) => r == Err::<(ProtocolId, Message), UdpError>(
                    UdpError::MissingRemoteAddress,
                ) && final(self)@ == old(self)@ && *final(context) == *old(context),
                (Some(la), Some(ra)) => {
                    let lp = spec_be16(message@[2], message@[3]);
                    let rp = spec_be16(message@[0], message@[1]);
                    let id4 = SessionId {
                        local_address: la,
                        local_port: lp,
                        remote_address: ra,
                        remote_port: rp,
                    };
                    let info1 = Control {
                        local_port: Some(lp),
                        remote_port: Some(rp),
                        ..old(context).info
                    };
                    if spec_has_session(old(self)@.sessions, id4) {
                        r matches Ok(p) && p.0 == spec_session_at(old(self)@.sessions, id4).upstream
                            && p.1@ == message@.skip(8) && final(self)@ == old(self)@ && *final(context) == (ProtocolContext {
                            info: info1,
                            current_session: Some(SessionRef::Udp(id4)),
                        })
                    } else if spec_has_binding(
                        old(self)@.bindings,
                        ListenId { address: la, port: lp },
                    ) {
                        let up = spec_binding_upstream(
                            old(self)@.bindings,
                            ListenId { address: la, port: lp },
                        );
                        let down = old(context).current_session->Some_0->Ipv4_0;
                        r matches Ok(p) && p.0 == up && p.1@ == message@.skip(8) && final(self)@
                            == (UdpView {
                            bindings: old(self)@.bindings,
                            sessions: old(self)@.sessions.push(
                                UdpSession { upstream: up, downstream: down, identifier: id4 },
                            ),
                        }) && *final(context) == (ProtocolContext {
                            info: info1,
                            current_session: Some(SessionRef::Udp(id4)),
                        })
                    } else {
                        r == Err::<(ProtocolId, Message), UdpError>(UdpError::MissingSession)
                            && final(self)@ == old(self)@ && *final(context) == (ProtocolContext {
                            info: info1,
                            current_session: old(context).current_session,
                        })
                    }
                },
            },
    {
        if message.len() < 8 {
            return Err(UdpError::HeaderTooShort);
        }
        let local_address: u32 = match context.info.local_address {
            Some(a) => a,
            None => {
                return Err(UdpError::MissingLocalAddress);
            },
        };
        let remote_address: u32 = match context.info.remote_address {
            Some(a) => a,
            None => {
                return Err(UdpError::MissingRemoteAddress);
            },
        };
        let (source_port, destination_port, _length, _checksum) = parse_udp_header(
            message.bytes().as_slice(),
        );
        let local_port: u16 = destination_port;
        let remote_port: u16 = source_port;
        let identifier = SessionId { local_address, local_port, remote_address, remote_port };
        context.info.local_port = Some(local_port);
        context.info.remote_port = Some(remote_port);
        let payload = message.slice(8);
        match self.find_session(identifier) {
            Some(i) => {
                let session = self.sessions[i];
                context.current_session = Some(SessionRef::Udp(identifier));
                Ok((session.upstream, payload))
            },
            None => {
                let lid = ListenId { address: local_address, port: local_port };
                match self.find_binding(lid) {
                    Some(b) => {
                        let upstream = self.listen_bindings[b].1;
                        let downstream: Identifier = match context.current_session {
                            Some(SessionRef::Ipv4(key)) => key,
                            _ => {
                                proof {
                                    assert(false);
                                }
                                return Err(UdpError::MissingSession);
                            },
                        };
                        let session = UdpSession { upstream, downstream, identifier };
                        self.sessions.push(session);
                        context.current_session = Some(SessionRef::Udp(identifier));
                        Ok((upstream, payload))
                    },
                    None => Err(UdpError::MissingSession),
                }
            },
        }
    }

    /// Frames and sends a message on the session keyed `id`.
    pub fn send_on(&self, id: SessionId, message: &Message, ipv4: &Ipv4, tap: &mut Tap) -> (r:
        Result<(), UdpError>)
        requires
            self.wf(),
            ipv4.wf(),
            old(tap).wf(),
            message@.len() <= 65507,
        ensures
            final(tap).wf(),
            !spec_has_session(self@.sessions, id) ==> r == Err::<(), UdpError>(
                UdpError::MissingSession,
            ) && final(tap)@ == old(tap)@,
            spec_has_session(self@.sessions, id) ==> ({
                let session = spec_session_at(self@.sessions, id);
                let length = (message@.len() + 8) as u16;
                let datagram = spec_udp_header(
                    session.identifier.local_port,
                    session.identifier.remote_port,
                    length,
                ) + message@;
                if !crate::ipv4::spec_has_session(ipv4@.sessions, session.downstream) {
                    r == Err::<(), UdpError>(UdpError::MissingSession) && final(tap)@ == old(tap)@
                } else {
                    let s4 = crate::ipv4::spec_session_at(ipv4@.sessions, session.downstream);
                    match crate::ipv4::spec_ip_number(s4.upstream) {
                        None => r == Err::<(), UdpError>(
                            UdpError::Ipv4(Ipv4Error::UnknownUpstreamProtocol),
                        ) && final(tap)@ == old(tap)@,
                        Some(p) => {
                            if crate::tap::spec_has_session(
                                old(tap)@,
                                s4.downstream.upstream,
                                s4.downstream.network,
                            ) {
                                let i = crate::tap::spec_session_index(
                                    old(tap)@,
                                    s4.downstream.upstream,
                                    s4.downstream.network,
                                );
                                r == Ok::<(), UdpError>(()) && final(tap)@ == old(tap)@.update(
                                    i,
                                    TapSessionView {
                                        upstream: old(tap)@[i].upstream,
                                        network: old(tap)@[i].network,
                                        queued: old(tap)@[i].queued.push(
                                            spec_tap_frame(
                                                old(tap)@[i].upstream,
                                                spec_ipv4_header_bytes(
                                                    length,
                                                    30,
                                                    p,
                                                    s4.identifier.local,
                                                    s4.identifier.remote,
                                                ) + datagram,
                                            ),
                                        ),
                                    },
                                )
                            } else {
                                r == Err::<(), UdpError>(
                                    UdpError::Ipv4(
                                        Ipv4Error::MissingSession(
                                            s4.identifier.local,
                                            s4.identifier.remote,
                                        ),
                                    ),
                                ) && final(tap)@ == old(tap)@
                            }
                        },
                    }
                }
            }),
    {
        match self.get_session(id) {
            Some(session) => session.send(message, ipv4, tap),
            None => Err(UdpError::MissingSession),
        }
    }

    /// Gives the protocol its tick; UDP has nothing to do.
    pub fn awake(&self) -> (r: ControlFlow)
        ensures
            r == ControlFlow::Continue,
    {
        ControlFlow::Continue
    }
}

} // verus!
