//! The link-layer tap: first responder for inbound frames, last writer on
//! outbound frames.
//!
//! The tap frames an outbound message with the two-byte encoding of the
//! protocol id immediately above it, and on receive reads that header to
//! dispatch. Sessions are keyed by `(upstream, network)` and buffer outgoing
//! frames per network until the machine drains them.

use vstd::prelude::*;
use crate::control::{Control, ControlFlow, ProtocolContext, SessionRef};
use crate::message::Message;
use crate::protocol_id::{spec_tap_id, tap_id, NetworkLayerError, ProtocolId};
use crate::ipv4_parsing::spec_be16;

verus! {

/// The key of a tap session: the protocol above it and the network index.
#[derive(Clone, Copy, Debug, PartialEq, Eq, Hash, Structural)]
pub struct SessionId {
    pub upstream: ProtocolId,
    pub network: u8,
}

impl SessionId {
    pub fn new(upstream: ProtocolId, network: u8) -> (r: SessionId)
        ensures
            r == (SessionId { upstream, network }),
    {
        SessionId { upstream, network }
    }
}

/// Everything that can go wrong inside the tap.
#[derive(Clone, Copy, Debug, PartialEq, Eq, Structural)]
pub enum TapError {
    /// Fewer than the two header bytes.
    HeaderLength,
    /// The header does not encode a valid protocol id.
    InvalidProtocolId(NetworkLayerError),
    /// No protocol with this id exists on the machine.
    NoSuchProtocol(ProtocolId),
    /// The participant set lacks a network index.
    MissingNetworkIndex,
    /// No session is keyed by this upstream and network.
    SessionNotFound,
}

/// The two-byte link frame: the upstream protocol id, then the payload.
pub open spec fn spec_tap_frame(upstream: ProtocolId, payload: Seq<u8>) -> Seq<u8> {
    upstream.spec_bytes() + payload
}

/// The abstract state of one tap session.
pub ghost struct TapSessionView {
    pub upstream: ProtocolId,
    pub network: u8,
    /// The views of the queued outgoing frames, oldest first.
    pub queued: Seq<Seq<u8>>,
}

/// One open connection at the tap.
pub struct TapSession {
    upstream: ProtocolId,
    network: u8,
    outgoing: Vec<Message>,
}

impl View for TapSession {
    type V = TapSessionView;

    closed spec fn view(&self) -> TapSessionView {
        TapSessionView {
            upstream: self.upstream,
            network: self.network,
            queued: self.outgoing@.map_values(|m: Message| m@),
        }
    }
}

impl TapSession {
    fn new(upstream: ProtocolId, network: u8) -> (r: TapSession)
        ensures
            r@ == (TapSessionView { upstream, network, queued: Seq::<Seq<u8>>::empty() }),
    {
        let r = TapSession { upstream, network, outgoing: Vec::new() };
        proof {
            assert(r@.queued =~= Seq::<Seq<u8>>::empty());
        }
        r
    }

    /// The tap owns this session.
    pub fn protocol(&self) -> (r: ProtocolId)
        ensures
            r == spec_tap_id(),
    {
        tap_id()
    }

    /// The network this session sends on.
    pub fn network(&self) -> (r: u8)
        ensures
            r == self@.network,
    {
        self.network
    }

    /// Destructively yields the queued outgoing frames, oldest first.
    pub fn outgoing(&mut self) -> (r: Vec<Message>)
        ensures
            r@.map_values(|m: Message| m@) == old(self)@.queued,
            final(self)@ == (TapSessionView {
                upstream: old(self)@.upstream,
                network: old(self)@.network,
                queued: Seq::<Seq<u8>>::empty(),
            }),
    {
        let mut taken: Vec<Message> = Vec::new();
        core::mem::swap(&mut taken, &mut self.outgoing);
        proof {
            assert(taken@.map_values(|m: Message| m@) =~= old(self)@.queued);
            assert(self@.queued =~= Seq::<Seq<u8>>::empty());
        }
        taken
    }

    /// Frames the message with the upstream protocol id and queues it.
    pub fn send(&mut self, message: &Message)
        ensures
            final(self)@ == (TapSessionView {
                upstream: old(self)@.upstream,
                network: old(self)@.network,
                queued: old(self)@.queued.push(spec_tap_frame(old(self)@.upstream, message@)),
            }),
    {
        let mut header: Vec<u8> = Vec::new();
        header.push(self.upstream.layer.code());
        header.push(self.upstream.code);
        let framed = message.with_header(&header);
        proof {
            assert(header@ =~= self.upstream.spec_bytes());
        }
        self.outgoing.push(framed);
        proof {
            assert(self@.queued =~= old(self)@.queued.push(
                spec_tap_frame(old(self)@.upstream, message@),
            ));
        }
    }
}

/// Whether some session in `s` is keyed `(upstream, network)`.
pub open spec fn spec_has_session(s: Seq<TapSessionView>, upstream: ProtocolId, network: u8) -> bool {
    exists|i: int| 0 <= i < s.len() && s[i].upstream == upstream && s[i].network == network
}

/// The index of the session keyed `(upstream, network)`; meaningful only
/// when it exists and the keys are distinct.
pub open spec fn spec_session_index(s: Seq<TapSessionView>, upstream: ProtocolId, network: u8) -> int {
    choose|i: int| 0 <= i < s.len() && s[i].upstream == upstream && s[i].network == network
}

/// Whether the session keys of `s` are pairwise distinct.
pub open spec fn spec_distinct_sessions(s: Seq<TapSessionView>) -> bool {
    forall|i: int, j: int|
        0 <= i < j < s.len() ==> !(s[i].upstream == s[j].upstream && s[i].network == s[j].network)
}

/// The link-layer tap protocol: a table of sessions keyed by upstream
/// protocol and network index.
pub struct Tap {
    sessions: Vec<TapSession>,
}

impl View for Tap {
    type V = Seq<TapSessionView>;

    closed spec fn view(&self) -> Seq<TapSessionView> {
        self.sessions@.map_values(|s: TapSession| s@)
    }
}

impl Tap {
    /// Well-formed: session keys are pairwise distinct.
    pub open spec fn wf(self) -> bool {
        spec_distinct_sessions(self@)
    }

    pub fn new() -> (r: Tap)
        ensures
            r@ == Seq::<TapSessionView>::empty(),
            r.wf(),
    {
        let r = Tap { sessions: Vec::new() };
        proof {
            assert(r@ =~= Seq::<TapSessionView>::empty());
        }
        r
    }

    pub fn id(&self) -> (r: ProtocolId)
        ensures
            r == spec_tap_id(),
    {
        tap_id()
    }

    /// The index of the session keyed `(upstream, network)`, if any.
    fn find_session(&self, upstream: ProtocolId, network: u8) -> (r: Option<usize>)
        requires
            self.wf(),
        ensures
            match r {
                Some(i) => spec_has_session(self@, upstream, network) && i
                    == spec_session_index(self@, upstream, network) && i < self@.len()
                    && self@[i as int].upstream == upstream && self@[i as int].network == network,
                None => !spec_has_session(self@, upstream, network),
            },
    {
        let mut i: usize = 0;
        while i < self.sessions.len()
            invariant
                self.wf(),
                i <= self@.len(),
                self@.len() == self.sessions@.len(),
                forall|j: int|
                    0 <= j < i ==> !(self@[j].upstream == upstream && self@[j].network == network),
            decreases self.sessions.len() - i,
        {
            let s = &self.sessions[i];
            if s.upstream == upstream && s.network == network {
                proof {
                    assert(self@[i as int].upstream == upstream && self@[i as int].network
                        == network);
                    let k = spec_session_index(self@, upstream, network);
                    assert(0 <= k < self@.len() && self@[k].upstream == upstream && self@[k].network
                        == network);
                    assert(k == i as int);
                }
                return Some(i);
            }
            proof {
                assert(self@[i as int] == self.sessions@[i as int]@);
            }
            i += 1;
        }
        None
    }

    /// Creates or returns the session keyed by `upstream` and the network
    /// index named in `participants`.
    pub fn open_active(&mut self, upstream: ProtocolId, participants: &Control) -> (r: Result<
        SessionId,
        TapError,
    >)
        requires
            old(self).wf(),
        ensures
            final(self).wf(),
            match participants.network_index {
                None => r == Err::<SessionId, TapError>(TapError::MissingNetworkIndex) && final(self)@ == old(self)@,
                Some(network) => r == Ok::<SessionId, TapError>(SessionId { upstream, network })
                    && (if spec_has_session(old(self)@, upstream, network) {
                    final(self)@ == old(self)@
                } else {
                    final(self)@ == old(self)@.push(
                        TapSessionView { upstream, network, queued: Seq::<Seq<u8>>::empty() },
                    )
                }),
            },
    {
        let network: u8 = match participants.network_index {
            None => {
                return Err(TapError::MissingNetworkIndex);
            },
            Some(n) => n,
        };
        match self.find_session(upstream, network) {
            Some(_) => Ok(SessionId { upstream, network }),
            None => {
                let session = TapSession::new(upstream, network);
                self.sessions.push(session);
                proof {
                    assert(self@ =~= old(self)@.push(
                        TapSessionView { upstream, network, queued: Seq::<Seq<u8>>::empty() },
                    ));
                }
                Ok(SessionId { upstream, network })
            },
        }
    }

    /// Accepts a frame straight off a network: reads the two-byte upstream
    /// id, records the arrival network and the delivering session in the
    /// context, and hands back the upstream id with the de-framed message.
    pub fn accept_incoming(
        &mut self,
        message: &Message,
        network: u8,
        context: &mut ProtocolContext,
    ) -> (r: Result<(ProtocolId, Message), TapError>)
        requires
            old(self).wf(),
        ensures
            final(self).wf(),
            message@.len() < 2 ==> r == Err::<(ProtocolId, Message), TapError>(
                TapError::HeaderLength,
            ) && final(self)@ == old(self)@ && *final(context) == *old(context),
            message@.len() >= 2 ==> match ProtocolId::spec_from_u16(
                spec_be16(message@[0], message@[1]),
            ) {
                Err(e) => r matches Err(te) && te == TapError::InvalidProtocolId(e) && final(self)@
                    == old(self)@ && *final(context) == *old(context),
                Ok(pid) => r matches Ok(p) && p.0 == pid && p.1@ == message@.skip(2) && *final(context) == (ProtocolContext {
                    info: Control { network_index: Some(network), ..old(context).info },
                    current_session: Some(
                        SessionRef::Tap(SessionId { upstream: pid, network }),
                    ),
                }) && (if spec_has_session(old(self)@, pid, network) {
                    final(self)@ == old(self)@
                } else {
                    final(self)@ == old(self)@.push(
                        TapSessionView {
                            upstream: pid,
                            network,
                            queued: Seq::<Seq<u8>>::empty(),
                        },
                    )
                }),
            },
    {
        if message.len() < 2 {
            return Err(TapError::HeaderLength);
        }
        let bytes = message.bytes();
        let encoded: u16 = bytes[0] as u16 * 256 + bytes[1] as u16;
        let pid = match ProtocolId::from_u16(encoded) {
            Err(e) => {
                return Err(TapError::InvalidProtocolId(e));
            },
            Ok(pid) => pid,
        };
        match self.find_session(pid, network) {
            Some(_) => (),
            None => {
                let session = TapSession::new(pid, network);
                self.sessions.push(session);
                proof {
                    assert(self@ =~= old(self)@.push(
                        TapSessionView {
                            upstream: pid,
                            network,
                            queued: Seq::<Seq<u8>>::empty(),
                        },
                    ));
                }
            },
        }
        context.info.network_index = Some(network);
        context.current_session = Some(SessionRef::Tap(SessionId { upstream: pid, network }));
        let rest = message.slice(2);
        Ok((pid, rest))
    }

    /// Frames and queues a message on the session keyed `id`.
    pub fn send_on(&mut self, id: SessionId, message: &Message) -> (r: Result<(), TapError>)
        requires
            old(self).wf(),
        ensures
            final(self).wf(),
            if spec_has_session(old(self)@, id.upstream, id.network) {
                r == Ok::<(), TapError>(()) && final(self)@ == old(self)@.update(
                    spec_session_index(old(self)@, id.upstream, id.network),
                    TapSessionView {
                        upstream: id.upstream,
                        network: id.network,
                        queued: old(self)@[spec_session_index(
                            old(self)@,
                            id.upstream,
                            id.network,
                        )].queued.push(spec_tap_frame(id.upstream, message@)),
                    },
                )
            } else {
                r == Err::<(), TapError>(TapError::SessionNotFound) && final(self)@ == old(self)@
            },
    {
        match self.find_session(id.upstream, id.network) {
            None => Err(TapError::SessionNotFound),
            Some(i) => {
                let mut session = self.sessions.remove(i);
                session.send(message);
                self.sessions.insert(i, session);
                proof {
                    let k = i as int;
                    assert(self@ =~= old(self)@.update(
                        k,
                        TapSessionView {
                            upstream: id.upstream,
                            network: id.network,
                            queued: old(self)@[k].queued.push(
                                spec_tap_frame(id.upstream, message@),
                            ),
                        },
                    ));
                }
                Ok(())
            },
        }
    }

    /// Destructively yields every session's queued frames, as pairs of the
    /// session's network index and its frames in send order.
    pub fn outgoing(&mut self) -> (r: Vec<(u8, Vec<Message>)>)
        requires
            old(self).wf(),
        ensures
            final(self).wf(),
            r@.len() == old(self)@.len(),
            final(self)@.len() == old(self)@.len(),
            forall|i: int|
                0 <= i < r@.len() ==> r@[i].0 == old(self)@[i].network && r@[i].1@.map_values(
                    |m: Message| m@,
                ) == old(self)@[i].queued,
            forall|i: int|
                0 <= i < old(self)@.len() ==> final(self)@[i] == (TapSessionView {
                    upstream: old(self)@[i].upstream,
                    network: old(self)@[i].network,
                    queued: Seq::<Seq<u8>>::empty(),
                }),
    {
        let mut result: Vec<(u8, Vec<Message>)> = Vec::new();
        let mut i: usize = 0;
        while i < self.sessions.len()
            invariant
                i <= self.sessions@.len(),
                self.sessions@.len() == old(self)@.len(),
                self@.len() == self.sessions@.len(),
                result@.len() == i,
                forall|j: int| i <= j < old(self)@.len() ==> self@[j] == old(self)@[j],
                forall|j: int|
                    0 <= j < i ==> result@[j].0 == old(self)@[j].network && result@[j].1@.map_values(
                        |m: Message| m@,
                    ) == old(self)@[j].queued,
                forall|j: int|
                    0 <= j < i ==> self@[j] == (TapSessionView {
                        upstream: old(self)@[j].upstream,
                        network: old(self)@[j].network,
                        queued: Seq::<Seq<u8>>::empty(),
                    }),
            decreases self.sessions.len() - i,
        {
            let ghost pre_view = self@;
            let ghost pre = self.sessions@;
            let mut session = self.sessions.remove(i);
            let network = session.network();
            let frames = session.outgoing();
            self.sessions.insert(i, session);
            proof {
                let v = self.sessions@[i as int];
                assert(self.sessions@ =~= pre.update(i as int, v));
                assert(self@ =~= pre_view.update(i as int, v@));
            }
            result.push((network, frames));
            i += 1;
        }
        proof {
            assert(forall|j: int|
                0 <= j < self.sessions@.len() ==> self@[j] == self.sessions@[j]@);
        }
        result
    }

    /// Gives every session its tick; tap sessions have nothing to do.
    pub fn awake(&self) -> (r: ControlFlow)
        ensures
            r == ControlFlow::Continue,
    {
        ControlFlow::Continue
    }
}

} // verus!
