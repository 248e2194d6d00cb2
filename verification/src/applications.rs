//! User applications: opaque upper protocols that open sessions, send and
//! receive.
//!
//! Two applications are provided. `SendMessage` opens a UDP session on its
//! first tick and sends one message through the stack. `Capture` listens on
//! a UDP endpoint, stores the first message delivered to it, and asks to end
//! the simulation once it has one.

use vstd::prelude::*;
use vstd::string::StrSliceExecFns;
use vstd::string::StringSliceAdditionalSpecFns;
use crate::control::{Control, ControlFlow};
use crate::ipv4::{Identifier, Ipv4, Ipv4Error, Ipv4View};
use crate::message::Message;
use crate::protocol_id::{spec_ipv4_id, spec_udp_id, NetworkLayer, ProtocolId};
use crate::tap::{Tap, TapSessionView};
use crate::udp::{ListenId, SessionId, Udp, UdpError, UdpView};

verus! {

/// The id of the message-capturing application.
pub open spec fn spec_capture_id() -> ProtocolId {
    ProtocolId { layer: NetworkLayer::User, code: 0 }
}

pub fn capture_id() -> (r: ProtocolId)
    ensures
        r == spec_capture_id(),
{
    ProtocolId { layer: NetworkLayer::User, code: 0 }
}

/// The id of the message-sending application.
pub open spec fn spec_send_message_id() -> ProtocolId {
    ProtocolId { layer: NetworkLayer::User, code: 1 }
}

pub fn send_message_id() -> (r: ProtocolId)
    ensures
        r == spec_send_message_id(),
{
    ProtocolId { layer: NetworkLayer::User, code: 1 }
}

/// The abstract state of a capturing application.
pub ghost struct CaptureView {
    /// The bytes of the stored message, if one has arrived.
    pub message: Option<Seq<u8>>,
    pub did_set_up: bool,
    pub local_address: u32,
    pub local_port: u16,
}

/// An application that stores the first message delivered to it and then
/// asks to end the simulation.
pub struct Capture {
    message: Option<Message>,
    did_set_up: bool,
    local_address: u32,
    local_port: u16,
}

impl View for Capture {
    type V = CaptureView;

    closed spec fn view(&self) -> CaptureView {
        CaptureView {
            message: match self.message {
                None => None,
                Some(m) => Some(m@),
            },
            did_set_up: self.did_set_up,
            local_address: self.local_address,
            local_port: self.local_port,
        }
    }
}

impl Capture {
    /// A capture listening on `127.0.0.1`, port `0xbeef`.
    pub fn new() -> (r: Capture)
        ensures
            r@ == (CaptureView {
                message: None,
                did_set_up: false,
                local_address: 0x7f000001,
                local_port: 0xbeef,
            }),
    {
        Capture { message: None, did_set_up: false, local_address: 0x7f000001, local_port: 0xbeef }
    }

    /// A capture listening on the given address and port.
    pub fn listen_on(local_address: u32, local_port: u16) -> (r: Capture)
        ensures
            r@ == (CaptureView { message: None, did_set_up: false, local_address, local_port }),
    {
        Capture { message: None, did_set_up: false, local_address, local_port }
    }

    /// The stored message, if one has arrived.
    pub fn message(&self) -> (r: Option<Message>)
        ensures
            match r {
                None => self@.message is None,
                Some(m) => self@.message == Some(m@),
            },
    {
        match &self.message {
            None => None,
            Some(m) => Some(m.clone()),
        }
    }

    /// On the first tick, registers the UDP listen binding; on every tick,
    /// asks to end the simulation exactly when a message has been stored.
    pub fn awake(&mut self, udp: &mut Udp, ipv4: &mut Ipv4) -> (r: Result<ControlFlow, UdpError>)
        requires
            old(udp).wf(),
            old(ipv4).wf(),
        ensures
            final(udp).wf(),
            final(ipv4).wf(),
            final(self)@.message == old(self)@.message,
            final(self)@.local_address == old(self)@.local_address,
            final(self)@.local_port == old(self)@.local_port,
            r matches Ok(f) ==> (f == ControlFlow::EndSimulation <==> old(self)@.message is Some),
            old(self)@.did_set_up ==> r == Ok::<ControlFlow, UdpError>(
                if old(self)@.message is Some {
                    ControlFlow::EndSimulation
                } else {
                    ControlFlow::Continue
                },
            ) && final(self)@.did_set_up && final(udp)@ == old(udp)@ && final(ipv4)@ == old(ipv4)@,
            !old(self)@.did_set_up ==> ({
                let lid = ListenId {
                    address: old(self)@.local_address,
                    port: old(self)@.local_port,
                };
                if crate::udp::spec_has_binding(old(udp)@.bindings, lid) {
                    r == Err::<ControlFlow, UdpError>(
                        UdpError::BindingExists(old(self)@.local_address, old(self)@.local_port),
                    ) && !final(self)@.did_set_up && final(udp)@ == old(udp)@ && final(ipv4)@
                        == old(ipv4)@
                } else {
                    final(udp)@ == (UdpView {
                        bindings: old(udp)@.bindings.push((lid, spec_capture_id())),
                        sessions: old(udp)@.sessions,
                    }) && (if crate::ipv4::spec_has_binding(
                        old(ipv4)@.bindings,
                        old(self)@.local_address,
                    ) {
                        r == Err::<ControlFlow, UdpError>(
                            UdpError::Ipv4(Ipv4Error::BindingExists(old(self)@.local_address)),
                        ) && !final(self)@.did_set_up && final(ipv4)@ == old(ipv4)@
                    } else {
                        r == Ok::<ControlFlow, UdpError>(
                            if old(self)@.message is Some {
                                ControlFlow::EndSimulation
                            } else {
                                ControlFlow::Continue
                            },
                        ) && final(self)@.did_set_up && final(ipv4)@ == (Ipv4View {
                            bindings: old(ipv4)@.bindings.push(
                                (old(self)@.local_address, spec_udp_id()),
                            ),
                            sessions: old(ipv4)@.sessions,
                        })
                    })
                }
            }),
    {
        if !self.did_set_up {
            let mut participants = Control::new();
            participants.local_address = Some(self.local_address);
            participants.local_port = Some(self.local_port);
            match udp.listen(capture_id(), &participants, ipv4) {
                Ok(()) => (),
                Err(e) => {
                    return Err(e);
                },
            }
        }
        self.did_set_up = true;
        Ok(
            if self.message.is_some() {
                ControlFlow::EndSimulation
            } else {
                ControlFlow::Continue
            },
        )
    }

    /// Stores the delivered message.
    pub fn recv(&mut self, message: Message)
        ensures
            final(self)@ == (CaptureView {
                message: Some(message@),
                did_set_up: old(self)@.did_set_up,
                local_address: old(self)@.local_address,
                local_port: old(self)@.local_port,
            }),
    {
        self.message = Some(message);
    }
}

/// The abstract state of a message-sending application.
pub ghost struct SendMessageView {
    /// The bytes it sends.
    pub text: Seq<u8>,
    pub did_set_up: bool,
    pub local_address: u32,
    pub local_port: u16,
    pub remote_address: u32,
    pub remote_port: u16,
}

/// An application that opens a UDP session on its first tick and sends one
/// message through it.
pub struct SendMessage {
    text: Message,
    did_set_up: bool,
    local_address: u32,
    local_port: u16,
    remote_address: u32,
    remote_port: u16,
}

impl View for SendMessage {
    type V = SendMessageView;

    closed spec fn view(&self) -> SendMessageView {
        SendMessageView {
            text: self.text@,
            did_set_up: self.did_set_up,
            local_address: self.local_address,
            local_port: self.local_port,
            remote_address: self.remote_address,
            remote_port: self.remote_port,
        }
    }
}

impl SendMessage {
    /// A sender from `127.0.0.1:0xdead` to `127.0.0.1:0xbeef`.
    pub fn new(text: &'static str) -> (r: SendMessage)
        requires
            text.spec_bytes().len() <= 65507,
        ensures
            r@ == (SendMessageView {
                text: text.spec_bytes(),
                did_set_up: false,
                local_address: 0x7f000001,
                local_port: 0xdead,
                remote_address: 0x7f000001,
                remote_port: 0xbeef,
            }),
    {
        SendMessage {
            text: Message::new(text.as_bytes_vec()),
            did_set_up: false,
            local_address: 0x7f000001,
            local_port: 0xdead,
            remote_address: 0x7f000001,
            remote_port: 0xbeef,
        }
    }

    /// A sender between the given endpoints.
    pub fn new_to(
        text: &'static str,
        local_address: u32,
        local_port: u16,
        remote_address: u32,
        remote_port: u16,
    ) -> (r: SendMessage)
        requires
            text.spec_bytes().len() <= 65507,
        ensures
            r@ == (SendMessageView {
                text: text.spec_bytes(),
                did_set_up: false,
                local_address,
                local_port,
                remote_address,
                remote_port,
            }),
    {
        SendMessage {
            text: Message::new(text.as_bytes_vec()),
            did_set_up: false,
            local_address,
            local_port,
            remote_address,
            remote_port,
        }
    }

    /// Whether the text fits a UDP datagram inside an IPv4 frame.
    pub open spec fn wf(self) -> bool {
        self@.text.len() <= 65507
    }

    /// On the first tick, opens the UDP session and sends the text through
    /// it, so that the framed message ends on the tap's outgoing queue; on
    /// every later tick, does nothing.
    pub fn awake(&mut self, udp: &mut Udp, ipv4: &mut Ipv4, tap: &mut Tap) -> (r: Result<
        ControlFlow,
        UdpError,
    >)
        requires
            old(self).wf(),
            old(udp).wf(),
            old(ipv4).wf(),
            old(tap).wf(),
        ensures
            final(self).wf(),
            final(udp).wf(),
            final(ipv4).wf(),
            final(tap).wf(),
            final(self)@ == (SendMessageView { did_set_up: true, ..old(self)@ }),
            r matches Ok(f) ==> f == ControlFlow::Continue,
            old(self)@.did_set_up ==> r == Ok::<ControlFlow, UdpError>(ControlFlow::Continue)
                && final(udp)@ == old(udp)@ && final(ipv4)@ == old(ipv4)@ && final(tap)@ == old(tap)@,
            !old(self)@.did_set_up ==> ({
                let id4 = SessionId {
                    local_address: old(self)@.local_address,
                    local_port: old(self)@.local_port,
                    remote_address: old(self)@.remote_address,
                    remote_port: old(self)@.remote_port,
                };
                let key = Identifier {
                    local: old(self)@.local_address,
                    remote: old(self)@.remote_address,
                };
                if crate::udp::spec_has_session(old(udp)@.sessions, id4) {
                    r == Err::<ControlFlow, UdpError>(UdpError::SessionExists) && final(udp)@
                        == old(udp)@ && final(ipv4)@ == old(ipv4)@ && final(tap)@ == old(tap)@
                } else if crate::ipv4::spec_has_session(old(ipv4)@.sessions, key) {
                    r == Err::<ControlFlow, UdpError>(
                        UdpError::Ipv4(
                            Ipv4Error::SessionExists(
                                old(self)@.local_address,
                                old(self)@.remote_address,
                            ),
                        ),
                    ) && final(udp)@ == old(udp)@ && final(ipv4)@ == old(ipv4)@ && final(tap)@
                        == old(tap)@
                } else {
                    r == Ok::<ControlFlow, UdpError>(ControlFlow::Continue) && final(udp)@
                        == (UdpView {
                        bindings: old(udp)@.bindings,
                        sessions: old(udp)@.sessions.push(
                            crate::udp::UdpSession {
                                upstream: spec_send_message_id(),
                                downstream: key,
                                identifier: id4,
                            },
                        ),
                    }) && final(ipv4)@ == (Ipv4View {
                        bindings: old(ipv4)@.bindings,
                        sessions: old(ipv4)@.sessions.push(
                            crate::ipv4::Ipv4Session {
                                upstream: spec_udp_id(),
                                downstream: crate::tap::SessionId {
                                    upstream: spec_ipv4_id(),
                                    network: 0,
                                },
                                identifier: key,
                            },
                        ),
                    }) && final(tap)@ == spec_tap_after_send(old(tap)@, old(self)@)
                }
            }),
    {
        if self.did_set_up {
            return Ok(ControlFlow::Continue);
        }
        self.did_set_up = true;
        let mut participants = Control::new();
        participants.local_address = Some(self.local_address);
        participants.remote_address = Some(self.remote_address);
        participants.local_port = Some(self.local_port);
        participants.remote_port = Some(self.remote_port);
        let session_id = match udp.open_active(send_message_id(), &participants, ipv4, tap) {
            Ok(id) => id,
            Err(e) => {
                return Err(e);
            },
        };
        let ghost tap1 = tap@;
        proof {
            let u = udp@.sessions;
            assert(u[u.len() - 1].identifier == session_id);
            assert(crate::udp::spec_has_session(u, session_id));
            let k = crate::udp::spec_session_index(u, session_id);
            assert(0 <= k < u.len() && u[k].identifier == session_id);
            assert(k == u.len() - 1);
            let session = crate::udp::spec_session_at(u, session_id);
            let key = session.downstream;
            let v4 = ipv4@.sessions;
            assert(v4[v4.len() - 1].identifier == key);
            assert(crate::ipv4::spec_has_session(v4, key));
            let k4 = crate::ipv4::spec_session_index(v4, key);
            assert(0 <= k4 < v4.len() && v4[k4].identifier == key);
            assert(k4 == v4.len() - 1);
            let s4 = crate::ipv4::spec_session_at(v4, key);
            assert(s4.upstream == spec_udp_id());
            assert(s4.downstream == (crate::tap::SessionId { upstream: spec_ipv4_id(), network: 0 }));
            if !crate::tap::spec_has_session(old(tap)@, spec_ipv4_id(), 0) {
                assert(tap1[tap1.len() - 1].upstream == spec_ipv4_id() && tap1[tap1.len() - 1].network
                    == 0);
            }
            assert(crate::tap::spec_has_session(tap1, spec_ipv4_id(), 0));
            let i = crate::tap::spec_session_index(tap1, spec_ipv4_id(), 0);
            assert(0 <= i < tap1.len() && tap1[i].upstream == spec_ipv4_id() && tap1[i].network == 0);
        }
        let message = self.text.clone();
        match udp.send_on(session_id, &message, ipv4, tap) {
            Ok(()) => (),
            Err(_) => {
                proof {
                    assert(false);
                }
                return Err(UdpError::MissingSession);
            },
        }
        proof {
            let i = crate::tap::spec_session_index(tap1, spec_ipv4_id(), 0);
            if !crate::tap::spec_has_session(old(tap)@, spec_ipv4_id(), 0) {
                assert(forall|j: int|
                    0 <= j < old(tap)@.len() ==> !(old(tap)@[j].upstream == spec_ipv4_id()
                        && old(tap)@[j].network == 0));
                assert(i == tap1.len() - 1);
                assert(tap@ =~= spec_tap_after_send(old(tap)@, old(self)@));
            } else {
                assert(tap1 == old(tap)@);
                assert(tap@ =~= spec_tap_after_send(old(tap)@, old(self)@));
            }
        }
        Ok(ControlFlow::Continue)
    }

    /// A sender ignores whatever is delivered to it.
    pub fn recv(&mut self, message: Message)
        ensures
            final(self)@ == old(self)@,
    {
        let _ = message;
    }
}

/// The tap state after the sender's first tick: the session toward IPv4 on
/// network 0 exists (created if it was absent) and holds, as its newest
/// queued frame, the fully framed message: the tap's two id bytes, the IPv4
/// header, the UDP header, then the text.
pub open spec fn spec_tap_after_send(tap0: Seq<TapSessionView>, sender: SendMessageView) -> Seq<
    TapSessionView,
> {
    let length = (sender.text.len() + 8) as u16;
    let frame = crate::tap::spec_tap_frame(
        spec_ipv4_id(),
        crate::ipv4_parsing::spec_ipv4_header_bytes(
            length,
            30,
            17,
            sender.local_address,
            sender.remote_address,
        ) + (crate::udp::spec_udp_header(sender.local_port, sender.remote_port, length)
            + sender.text),
    );
    if crate::tap::spec_has_session(tap0, spec_ipv4_id(), 0) {
        let i = crate::tap::spec_session_index(tap0, spec_ipv4_id(), 0);
        tap0.update(
            i,
            TapSessionView {
                upstream: tap0[i].upstream,
                network: tap0[i].network,
                queued: tap0[i].queued.push(frame),
            },
        )
    } else {
        tap0.push(
            TapSessionView {
                upstream: spec_ipv4_id(),
                network: 0,
                queued: Seq::<Seq<u8>>::empty().push(frame),
            },
        )
    }
}

/// The abstract state of a user application.
pub ghost enum UserProcessView {
    Capture(CaptureView),
    SendMessage(SendMessageView),
}

/// A user application living at the top of the protocol stack.
pub enum UserProcess {
    Capture(Capture),
    SendMessage(SendMessage),
}

impl View for UserProcess {
    type V = UserProcessView;

    closed spec fn view(&self) -> UserProcessView {
        match self {
            UserProcess::Capture(c) => UserProcessView::Capture(c@),
            UserProcess::SendMessage(s) => UserProcessView::SendMessage(s@),
        }
    }
}

/// The protocol id of an application.
pub open spec fn spec_user_id(v: UserProcessView) -> ProtocolId {
    match v {
        UserProcessView::Capture(_) => spec_capture_id(),
        UserProcessView::SendMessage(_) => spec_send_message_id(),
    }
}

/// Whether an application asks to end the simulation at its next tick.
pub open spec fn spec_wants_end(v: UserProcessView) -> bool {
    match v {
        UserProcessView::Capture(c) => c.message is Some,
        UserProcessView::SendMessage(_) => false,
    }
}

/// An application's state after a message is delivered to it: a capture
/// stores the bytes, a sender ignores them.
pub open spec fn spec_recv(v: UserProcessView, m: Seq<u8>) -> UserProcessView {
    match v {
        UserProcessView::Capture(c) => UserProcessView::Capture(
            CaptureView {
                message: Some(m),
                did_set_up: c.did_set_up,
                local_address: c.local_address,
                local_port: c.local_port,
            },
        ),
        UserProcessView::SendMessage(s) => UserProcessView::SendMessage(s),
    }
}

/// Everything one application's tick does: the application's new state, the
/// new protocol states, and the call's result.
pub ghost struct AppAwakeOutcome {
    pub app: UserProcessView,
    pub udp: UdpView,
    pub ipv4: Ipv4View,
    pub tap: Seq<TapSessionView>,
    pub result: Result<ControlFlow, UdpError>,
}

/// A capture's tick over the abstract states: on its first tick it records
/// the UDP listen binding (which UDP forwards down to IPv4), and it asks to
/// end the simulation exactly when a message has been stored. The tap is
/// untouched.
pub open spec fn spec_capture_awake(
    c: CaptureView,
    vu: UdpView,
    v4: Ipv4View,
    tap: Seq<TapSessionView>,
) -> AppAwakeOutcome {
    let flow = if c.message is Some {
        ControlFlow::EndSimulation
    } else {
        ControlFlow::Continue
    };
    if c.did_set_up {
        AppAwakeOutcome {
            app: UserProcessView::Capture(c),
            udp: vu,
            ipv4: v4,
            tap,
            result: Ok(flow),
        }
    } else {
        let lid = ListenId { address: c.local_address, port: c.local_port };
        if crate::udp::spec_has_binding(vu.bindings, lid) {
            AppAwakeOutcome {
                app: UserProcessView::Capture(c),
                udp: vu,
                ipv4: v4,
                tap,
                result: Err(UdpError::BindingExists(c.local_address, c.local_port)),
            }
        } else {
            let vu1 = UdpView {
                bindings: vu.bindings.push((lid, spec_capture_id())),
                sessions: vu.sessions,
            };
            if crate::ipv4::spec_has_binding(v4.bindings, c.local_address) {
                AppAwakeOutcome {
                    app: UserProcessView::Capture(c),
                    udp: vu1,
                    ipv4: v4,
                    tap,
                    result: Err(UdpError::Ipv4(Ipv4Error::BindingExists(c.local_address))),
                }
            } else {
                AppAwakeOutcome {
                    app: UserProcessView::Capture(CaptureView { did_set_up: true, ..c }),
                    udp: vu1,
                    ipv4: Ipv4View {
                        bindings: v4.bindings.push((c.local_address, spec_udp_id())),
                        sessions: v4.sessions,
                    },
                    tap,
                    result: Ok(flow),
                }
            }
        }
    }
}

/// A sender's tick over the abstract states: on its first tick it opens the
/// UDP session (creating the IPv4 and tap sessions below it) and queues the
/// fully framed text on the tap; on every later tick it does nothing.
pub open spec fn spec_send_message_awake(
    s: SendMessageView,
    vu: UdpView,
    v4: Ipv4View,
    tap: Seq<TapSessionView>,
) -> AppAwakeOutcome {
    if s.did_set_up {
        AppAwakeOutcome {
            app: UserProcessView::SendMessage(s),
            udp: vu,
            ipv4: v4,
            tap,
            result: Ok(ControlFlow::Continue),
        }
    } else {
        let s1 = SendMessageView { did_set_up: true, ..s };
        let id4 = SessionId {
            local_address: s.local_address,
            local_port: s.local_port,
            remote_address: s.remote_address,
            remote_port: s.remote_port,
        };
        let key = Identifier { local: s.local_address, remote: s.remote_address };
        if crate::udp::spec_has_session(vu.sessions, id4) {
            AppAwakeOutcome {
                app: UserProcessView::SendMessage(s1),
                udp: vu,
                ipv4: v4,
                tap,
                result: Err(UdpError::SessionExists),
            }
        } else if crate::ipv4::spec_has_session(v4.sessions, key) {
            AppAwakeOutcome {
                app: UserProcessView::SendMessage(s1),
                udp: vu,
                ipv4: v4,
                tap,
                result: Err(
                    UdpError::Ipv4(Ipv4Error::SessionExists(s.local_address, s.remote_address)),
                ),
            }
        } else {
            AppAwakeOutcome {
                app: UserProcessView::SendMessage(s1),
                udp: UdpView {
                    bindings: vu.bindings,
                    sessions: vu.sessions.push(
                        crate::udp::UdpSession {
                            upstream: spec_send_message_id(),
                            downstream: key,
                            identifier: id4,
                        },
                    ),
                },
                ipv4: Ipv4View {
                    bindings: v4.bindings,
                    sessions: v4.sessions.push(
                        crate::ipv4::Ipv4Session {
                            upstream: spec_udp_id(),
                            downstream: crate::tap::SessionId {
                                upstream: spec_ipv4_id(),
                                network: 0,
                            },
                            identifier: key,
                        },
                    ),
                },
                tap: spec_tap_after_send(tap, s),
                result: Ok(ControlFlow::Continue),
            }
        }
    }
}

/// One application's tick over the abstract states.
pub open spec fn spec_app_awake(
    app: UserProcessView,
    vu: UdpView,
    v4: Ipv4View,
    tap: Seq<TapSessionView>,
) -> AppAwakeOutcome {
    match app {
        UserProcessView::Capture(c) => spec_capture_awake(c, vu, v4, tap),
        UserProcessView::SendMessage(s) => spec_send_message_awake(s, vu, v4, tap),
    }
}

impl UserProcess {
    /// Whether the application's state is within machine limits.
    pub open spec fn wf(self) -> bool {
        match self {
            UserProcess::Capture(_) => true,
            UserProcess::SendMessage(s) => s.wf(),
        }
    }

    pub fn id(&self) -> (r: ProtocolId)
        ensures
            r == spec_user_id(self@),
    {
        match self {
            UserProcess::Capture(_) => capture_id(),
            UserProcess::SendMessage(_) => send_message_id(),
        }
    }

    /// Gives the application its tick.
    ///
    /// The result is `EndSimulation` exactly when the application asked to
    /// end, and asking to end is not changed by the tick itself.
    pub fn awake(&mut self, udp: &mut Udp, ipv4: &mut Ipv4, tap: &mut Tap) -> (r: Result<
        ControlFlow,
        UdpError,
    >)
        requires
            old(self).wf(),
            old(udp).wf(),
            old(ipv4).wf(),
            old(tap).wf(),
        ensures
            final(self).wf(),
            final(udp).wf(),
            final(ipv4).wf(),
            final(tap).wf(),
            spec_user_id(final(self)@) == spec_user_id(old(self)@),
            spec_wants_end(final(self)@) == spec_wants_end(old(self)@),
            r matches Ok(f) ==> (f == ControlFlow::EndSimulation <==> spec_wants_end(old(self)@)),
            ({
                let o = spec_app_awake(old(self)@, old(udp)@, old(ipv4)@, old(tap)@);
                &&& final(self)@ == o.app
                &&& final(udp)@ == o.udp
                &&& final(ipv4)@ == o.ipv4
                &&& final(tap)@ == o.tap
                &&& r == o.result
            }),
    {
        match self {
            UserProcess::Capture(c) => c.awake(udp, ipv4),
            UserProcess::SendMessage(s) => s.awake(udp, ipv4, tap),
        }
    }

    /// Delivers a message to the application.
    pub fn recv(&mut self, message: Message)
        ensures
            final(self)@ == spec_recv(old(self)@, message@),
            final(self).wf() == old(self).wf(),
    {
        match self {
            UserProcess::Capture(c) => c.recv(message),
            UserProcess::SendMessage(s) => s.recv(message),
        }
    }
}

} // verus!
