//! A simulated machine: a protocol stack driven one tick at a time.

use vstd::prelude::*;
use crate::applications::{spec_recv, spec_user_id, spec_wants_end, UserProcess, UserProcessView};
use crate::control::{Control, ControlFlow, ProtocolContext, SessionRef};
use crate::ipv4::{Identifier, Ipv4, Ipv4Error, Ipv4View};
use crate::ipv4_parsing::{spec_be16, spec_parse_header, Ipv4Header};
use crate::message::Message;
use crate::protocol_id::{ipv4_id, spec_ipv4_id, spec_udp_id, udp_id, NetworkLayerError, ProtocolId};
use crate::tap::{Tap, TapError, TapSessionView};
use crate::udp::{ListenId, Udp, UdpError, UdpView};

verus! {

/// Everything that can go wrong while a machine handles one inbound frame.
#[derive(Clone, Copy, Debug, PartialEq, Eq, Structural)]
pub enum MachineError {
    Tap(TapError),
    Ipv4(Ipv4Error),
    Udp(UdpError),
}

/// What a machine exchanges with its surroundings during one tick: the
/// messages pending on its attached networks, each tagged with the local
/// index of the network it arrived on, and the frames it queues for those
/// networks, tagged the same way.
pub struct MachineContext {
    pub pending: Vec<(u8, Message)>,
    pub outgoing: Vec<(u8, Message)>,
}

impl MachineContext {
    pub fn new(pending: Vec<(u8, Message)>) -> (r: MachineContext)
        ensures
            r.pending@ == pending@,
            r.outgoing@.len() == 0,
    {
        MachineContext { pending, outgoing: Vec::new() }
    }
}

/// The views of a sequence of applications.
pub open spec fn spec_views_of(apps: Seq<UserProcess>) -> Seq<UserProcessView> {
    apps.map_values(|a: UserProcess| a@)
}

/// Whether some application in `s` has the id.
pub open spec fn spec_has_app(s: Seq<UserProcessView>, id: ProtocolId) -> bool {
    exists|i: int| 0 <= i < s.len() && spec_user_id(s[i]) == id
}

/// The index of the application with the id; meaningful only when it exists
/// and the ids are distinct.
pub open spec fn spec_app_index(s: Seq<UserProcessView>, id: ProtocolId) -> int {
    choose|i: int| 0 <= i < s.len() && spec_user_id(s[i]) == id
}

/// Whether the application ids of `s` are pairwise distinct.
pub open spec fn spec_distinct_apps(s: Seq<UserProcessView>) -> bool {
    forall|i: int, j: int| 0 <= i < j < s.len() ==> spec_user_id(s[i]) != spec_user_id(s[j])
}

/// Whether `m` is a frame the whole stack accepts: a two-byte tap header
/// naming IPv4, a parseable IPv4 header, and at least eight bytes after it
/// for the UDP header.
pub open spec fn spec_udp_frame_ok(m: Seq<u8>) -> bool {
    &&& m.len() >= 2
    &&& ProtocolId::spec_from_u16(spec_be16(m[0], m[1])) == Ok::<ProtocolId, NetworkLayerError>(
        spec_ipv4_id(),
    )
    &&& spec_parse_header(m.skip(2)) is Ok
    &&& m.skip(2).skip(20).len() >= 8
}

/// The parsed IPv4 header of such a frame.
pub open spec fn spec_frame_header(m: Seq<u8>) -> Ipv4Header {
    spec_parse_header(m.skip(2))->Ok_0
}

/// The IPv4 connection key of such a frame, seen from the receiver:
/// local is the destination, remote is the source.
pub open spec fn spec_frame_key(m: Seq<u8>) -> Identifier {
    Identifier {
        local: spec_frame_header(m).destination.value,
        remote: spec_frame_header(m).source.value,
    }
}

/// The UDP connection key of such a frame, seen from the receiver.
pub open spec fn spec_frame_session(m: Seq<u8>) -> crate::udp::SessionId {
    crate::udp::SessionId {
        local_address: spec_frame_key(m).local,
        local_port: spec_be16(m.skip(2).skip(20)[2], m.skip(2).skip(20)[3]),
        remote_address: spec_frame_key(m).remote,
        remote_port: spec_be16(m.skip(2).skip(20)[0], m.skip(2).skip(20)[1]),
    }
}

/// The UDP payload of such a frame.
pub open spec fn spec_frame_payload(m: Seq<u8>) -> Seq<u8> {
    m.skip(2).skip(20).skip(8)
}

/// Whether the IPv4 table routes frames keyed `key` up to UDP: either the
/// session exists with UDP above it, or a listen binding for the local
/// address names UDP.
pub open spec fn spec_ipv4_routes_to_udp(v: Ipv4View, key: Identifier) -> bool {
    if crate::ipv4::spec_has_session(v.sessions, key) {
        crate::ipv4::spec_session_at(v.sessions, key).upstream == spec_udp_id()
    } else {
        crate::ipv4::spec_has_binding(v.bindings, key.local)
            && crate::ipv4::spec_binding_upstream(v.bindings, key.local) == spec_udp_id()
    }
}

/// The protocol a UDP datagram keyed `id4` is delivered up to: the session's
/// upstream if one exists, else the matching listen binding's, else none.
pub open spec fn spec_udp_target(v: UdpView, id4: crate::udp::SessionId) -> Option<ProtocolId> {
    if crate::udp::spec_has_session(v.sessions, id4) {
        Some(crate::udp::spec_session_at(v.sessions, id4).upstream)
    } else if crate::udp::spec_has_binding(
        v.bindings,
        ListenId { address: id4.local_address, port: id4.local_port },
    ) {
        Some(
            crate::udp::spec_binding_upstream(
                v.bindings,
                ListenId { address: id4.local_address, port: id4.local_port },
            ),
        )
    } else {
        None
    }
}

/// Everything one inbound frame does to a machine: the new component
/// states and the call's result.
pub ghost struct DeliverOutcome {
    pub tap: Seq<TapSessionView>,
    pub ipv4: Ipv4View,
    pub udp: UdpView,
    pub apps: Seq<UserProcessView>,
    pub result: Result<ProtocolContext, MachineError>,
}

/// Hands a payload to the application with the id: the application receives
/// it, or the frame dies with `NoSuchProtocol`.
pub open spec fn spec_dispatch(
    tap: Seq<TapSessionView>,
    v4: Ipv4View,
    vu: UdpView,
    apps: Seq<UserProcessView>,
    id: ProtocolId,
    payload: Seq<u8>,
    ctx: ProtocolContext,
) -> DeliverOutcome {
    if spec_has_app(apps, id) {
        let k = spec_app_index(apps, id);
        DeliverOutcome {
            tap,
            ipv4: v4,
            udp: vu,
            apps: apps.update(k, spec_recv(apps[k], payload)),
            result: Ok(ctx),
        }
    } else {
        DeliverOutcome {
            tap,
            ipv4: v4,
            udp: vu,
            apps,
            result: Err(MachineError::Tap(TapError::NoSuchProtocol(id))),
        }
    }
}

/// The UDP leg of a delivery: parse the eight header bytes, look the
/// session up or materialize it from the listen binding, and dispatch the
/// payload to the session's upstream.
pub open spec fn spec_deliver_udp(
    tap: Seq<TapSessionView>,
    v4: Ipv4View,
    vu: UdpView,
    apps: Seq<UserProcessView>,
    key: Identifier,
    m2: Seq<u8>,
    ctx2: ProtocolContext,
) -> DeliverOutcome {
    if m2.len() < 8 {
        DeliverOutcome {
            tap,
            ipv4: v4,
            udp: vu,
            apps,
            result: Err(MachineError::Udp(UdpError::HeaderTooShort)),
        }
    } else {
        let lp = spec_be16(m2[2], m2[3]);
        let rp = spec_be16(m2[0], m2[1]);
        let id4 = crate::udp::SessionId {
            local_address: key.local,
            local_port: lp,
            remote_address: key.remote,
            remote_port: rp,
        };
        let ctx3 = ProtocolContext {
            info: Control { local_port: Some(lp), remote_port: Some(rp), ..ctx2.info },
            current_session: Some(SessionRef::Udp(id4)),
        };
        if crate::udp::spec_has_session(vu.sessions, id4) {
            let up = crate::udp::spec_session_at(vu.sessions, id4).upstream;
            spec_dispatch(tap, v4, vu, apps, up, m2.skip(8), ctx3)
        } else if crate::udp::spec_has_binding(
            vu.bindings,
            ListenId { address: key.local, port: lp },
        ) {
            let up = crate::udp::spec_binding_upstream(
                vu.bindings,
                ListenId { address: key.local, port: lp },
            );
            let vu1 = UdpView {
                bindings: vu.bindings,
                sessions: vu.sessions.push(
                    crate::udp::UdpSession { upstream: up, downstream: key, identifier: id4 },
                ),
            };
            spec_dispatch(tap, v4, vu1, apps, up, m2.skip(8), ctx3)
        } else {
            DeliverOutcome {
                tap,
                ipv4: v4,
                udp: vu,
                apps,
                result: Err(MachineError::Udp(UdpError::MissingSession)),
            }
        }
    }
}

/// The IPv4 leg of a delivery: parse the header, find or passively open the
/// session, and carry on with the session's upstream — UDP or an
/// application directly.
pub open spec fn spec_deliver_ipv4(
    tap: Seq<TapSessionView>,
    v4: Ipv4View,
    vu: UdpView,
    apps: Seq<UserProcessView>,
    m1: Seq<u8>,
    network: u8,
    ctx1: ProtocolContext,
) -> DeliverOutcome {
    match spec_parse_header(m1) {
        Err(e) => DeliverOutcome {
            tap,
            ipv4: v4,
            udp: vu,
            apps,
            result: Err(MachineError::Ipv4(e)),
        },
        Ok(h) => {
            let key = Identifier { local: h.destination.value, remote: h.source.value };
            let ctx2 = ProtocolContext {
                info: Control {
                    local_address: Some(key.local),
                    remote_address: Some(key.remote),
                    ..ctx1.info
                },
                current_session: Some(SessionRef::Ipv4(key)),
            };
            if crate::ipv4::spec_has_session(v4.sessions, key) {
                let up = crate::ipv4::spec_session_at(v4.sessions, key).upstream;
                if up == spec_udp_id() {
                    spec_deliver_udp(tap, v4, vu, apps, key, m1.skip(20), ctx2)
                } else {
                    spec_dispatch(tap, v4, vu, apps, up, m1.skip(20), ctx2)
                }
            } else if crate::ipv4::spec_has_binding(v4.bindings, key.local) {
                let up = crate::ipv4::spec_binding_upstream(v4.bindings, key.local);
                let v41 = Ipv4View {
                    bindings: v4.bindings,
                    sessions: v4.sessions.push(
                        crate::ipv4::Ipv4Session {
                            upstream: up,
                            downstream: crate::tap::SessionId {
                                upstream: spec_ipv4_id(),
                                network,
                            },
                            identifier: key,
                        },
                    ),
                };
                if up == spec_udp_id() {
                    spec_deliver_udp(tap, v41, vu, apps, key, m1.skip(20), ctx2)
                } else {
                    spec_dispatch(tap, v41, vu, apps, up, m1.skip(20), ctx2)
                }
            } else {
                DeliverOutcome {
                    tap,
                    ipv4: v4,
                    udp: vu,
                    apps,
                    result: Err(MachineError::Ipv4(Ipv4Error::MissingListenBinding(key.local))),
                }
            }
        },
    }
}

/// Everything delivering one frame does: the tap reads and validates the
/// two-byte upstream id and opens its session for the arrival network; an
/// id naming IPv4 goes up the full stack, any other id is dispatched to the
/// application so named.
pub open spec fn spec_deliver(
    tap: Seq<TapSessionView>,
    v4: Ipv4View,
    vu: UdpView,
    apps: Seq<UserProcessView>,
    m: Seq<u8>,
    network: u8,
) -> DeliverOutcome {
    if m.len() < 2 {
        DeliverOutcome {
            tap,
            ipv4: v4,
            udp: vu,
            apps,
            result: Err(MachineError::Tap(TapError::HeaderLength)),
        }
    } else {
        match ProtocolId::spec_from_u16(spec_be16(m[0], m[1])) {
            Err(e) => DeliverOutcome {
                tap,
                ipv4: v4,
                udp: vu,
                apps,
                result: Err(MachineError::Tap(TapError::InvalidProtocolId(e))),
            },
            Ok(pid) => {
                let tap1 = if crate::tap::spec_has_session(tap, pid, network) {
                    tap
                } else {
                    tap.push(
                        TapSessionView { upstream: pid, network, queued: Seq::<Seq<u8>>::empty() },
                    )
                };
                let ctx1 = ProtocolContext {
                    info: Control { network_index: Some(network), ..Control::spec_empty() },
                    current_session: Some(
                        SessionRef::Tap(crate::tap::SessionId { upstream: pid, network }),
                    ),
                };
                if pid == spec_ipv4_id() {
                    spec_deliver_ipv4(tap1, v4, vu, apps, m.skip(2), network, ctx1)
                } else {
                    spec_dispatch(tap1, v4, vu, apps, pid, m.skip(2), ctx1)
                }
            },
        }
    }
}

/// The abstract state of a whole machine.
pub ghost struct MachineView {
    pub tap: Seq<TapSessionView>,
    pub ipv4: Ipv4View,
    pub udp: UdpView,
    pub apps: Seq<UserProcessView>,
}

/// The views of a sequence of tagged messages.
pub open spec fn spec_tagged_views(v: Seq<(u8, Message)>) -> Seq<(u8, Seq<u8>)> {
    v.map_values(|p: (u8, Message)| (p.0, p.1@))
}

/// The machine after the first `k` pending messages were driven up the
/// stack, in order; a delivery that errors changes only what it had already
/// changed and the tick goes on with the next message.
pub open spec fn spec_deliver_all(m: MachineView, pending: Seq<(u8, Seq<u8>)>, k: int) -> MachineView
    decreases k,
{
    if k <= 0 {
        m
    } else {
        let prev = spec_deliver_all(m, pending, k - 1);
        let o = spec_deliver(
            prev.tap,
            prev.ipv4,
            prev.udp,
            prev.apps,
            pending[k - 1].1,
            pending[k - 1].0,
        );
        MachineView { tap: o.tap, ipv4: o.ipv4, udp: o.udp, apps: o.apps }
    }
}

/// A machine mid-tick, and whether any application has asked to end.
pub ghost struct AwakePhase {
    pub machine: MachineView,
    pub end: bool,
}

/// The machine after the first `k` applications got their tick, in table
/// order; `end` holds exactly when one of them returned `EndSimulation`.
pub open spec fn spec_awake_all(m: MachineView, k: int) -> AwakePhase
    decreases k,
{
    if k <= 0 {
        AwakePhase { machine: m, end: false }
    } else {
        let prev = spec_awake_all(m, k - 1);
        let o = crate::applications::spec_app_awake(
            prev.machine.apps[k - 1],
            prev.machine.udp,
            prev.machine.ipv4,
            prev.machine.tap,
        );
        AwakePhase {
            machine: MachineView {
                tap: o.tap,
                ipv4: o.ipv4,
                udp: o.udp,
                apps: prev.machine.apps.update(k - 1, o.app),
            },
            end: prev.end || o.result == Ok::<ControlFlow, UdpError>(ControlFlow::EndSimulation),
        }
    }
}

/// One tap session's queued frames, each tagged with its network index.
pub open spec fn spec_session_frames(v: TapSessionView) -> Seq<(u8, Seq<u8>)> {
    v.queued.map_values(|f: Seq<u8>| (v.network, f))
}

/// Every session's queued frames, in session order then send order.
pub open spec fn spec_drained(tap: Seq<TapSessionView>) -> Seq<(u8, Seq<u8>)>
    decreases tap.len(),
{
    if tap.len() == 0 {
        Seq::<(u8, Seq<u8>)>::empty()
    } else {
        spec_drained(tap.drop_last()) + spec_session_frames(tap.last())
    }
}

/// The tap's sessions with every queue emptied.
pub open spec fn spec_cleared(tap: Seq<TapSessionView>) -> Seq<TapSessionView> {
    tap.map_values(
        |v: TapSessionView| TapSessionView {
            upstream: v.upstream,
            network: v.network,
            queued: Seq::<Seq<u8>>::empty(),
        },
    )
}

/// Everything one machine tick does: the machine's new state, the frames it
/// hands to its networks, and whether it asks to end the simulation.
pub ghost struct MachineAwakeOutcome {
    pub machine: MachineView,
    pub outgoing: Seq<(u8, Seq<u8>)>,
    pub end: bool,
}

/// One machine tick over the abstract state: deliver every pending message
/// in order, give every application its tick in order, then drain the tap.
pub open spec fn spec_machine_awake(m: MachineView, pending: Seq<(u8, Seq<u8>)>) -> MachineAwakeOutcome {
    let delivered = spec_deliver_all(m, pending, pending.len() as int);
    let phase = spec_awake_all(delivered, delivered.apps.len() as int);
    MachineAwakeOutcome {
        machine: MachineView {
            tap: spec_cleared(phase.machine.tap),
            ipv4: phase.machine.ipv4,
            udp: phase.machine.udp,
            apps: phase.machine.apps,
        },
        outgoing: spec_drained(phase.machine.tap),
        end: phase.end,
    }
}

/// A networked computer in the simulation: a tap, the IPv4 and UDP
/// protocols, and its user applications.
pub struct Machine {
    tap: Tap,
    ipv4: Ipv4,
    udp: Udp,
    apps: Vec<UserProcess>,
}

impl Machine {
    /// The abstract state of the tap's session table.
    pub closed spec fn spec_tap_state(self) -> Seq<TapSessionView> {
        self.tap@
    }

    /// The abstract state of the IPv4 protocol.
    pub closed spec fn spec_ipv4_state(self) -> Ipv4View {
        self.ipv4@
    }

    /// The abstract state of the UDP protocol.
    pub closed spec fn spec_udp_state(self) -> UdpView {
        self.udp@
    }

    /// The abstract states of the applications, in table order.
    pub closed spec fn spec_apps(self) -> Seq<UserProcessView> {
        spec_views_of(self.apps@)
    }

    /// The abstract state of the whole machine.
    pub open spec fn spec_view(self) -> MachineView {
        MachineView {
            tap: self.spec_tap_state(),
            ipv4: self.spec_ipv4_state(),
            udp: self.spec_udp_state(),
            apps: self.spec_apps(),
        }
    }

    /// Well-formed: every component table has distinct keys, the
    /// applications have distinct ids, and each is within machine limits.
    pub closed spec fn wf(self) -> bool {
        &&& self.tap.wf()
        &&& self.ipv4.wf()
        &&& self.udp.wf()
        &&& spec_distinct_apps(self.spec_apps())
        &&& forall|i: int| 0 <= i < self.apps@.len() ==> self.apps@[i].wf()
    }

    /// Builds a machine from its protocols and applications.
    ///
    /// The protocol table must be one-to-one, so the application ids must be
    /// pairwise distinct.
    pub fn new(tap: Tap, ipv4: Ipv4, udp: Udp, apps: Vec<UserProcess>) -> (r: Machine)
        requires
            tap.wf(),
            ipv4.wf(),
            udp.wf(),
            spec_distinct_apps(spec_views_of(apps@)),
            forall|i: int| 0 <= i < apps@.len() ==> apps@[i].wf(),
        ensures
            r.wf(),
            r.spec_tap_state() == tap@,
            r.spec_ipv4_state() == ipv4@,
            r.spec_udp_state() == udp@,
            r.spec_apps() == spec_views_of(apps@),
    {
        Machine { tap, ipv4, udp, apps }
    }

    /// How many applications the machine runs.
    pub fn app_count(&self) -> (r: usize)
        ensures
            r == self.spec_apps().len(),
    {
        self.apps.len()
    }

    /// The application at `index`.
    pub fn app_at(&self, index: usize) -> (r: &UserProcess)
        requires
            index < self.spec_apps().len(),
        ensures
            r@ == self.spec_apps()[index as int],
    {
        &self.apps[index]
    }

    /// The index of the application with the id, if any.
    fn find_app(&self, id: ProtocolId) -> (r: Option<usize>)
        requires
            self.wf(),
        ensures
            match r {
                Some(i) => spec_has_app(self.spec_apps(), id) && i == spec_app_index(
                    self.spec_apps(),
                    id,
                ) && i < self.spec_apps().len() && spec_user_id(self.spec_apps()[i as int]) == id,
                None => !spec_has_app(self.spec_apps(), id),
            },
    {
        let mut i: usize = 0;
        while i < self.apps.len()
            invariant
                self.wf(),
                i <= self.apps@.len(),
                self.spec_apps().len() == self.apps@.len(),
                forall|j: int| 0 <= j < i ==> spec_user_id(self.spec_apps()[j]) != id,
            decreases self.apps.len() - i,
        {
            let aid = self.apps[i].id();
            if aid == id {
                proof {
                    assert(self.spec_apps()[i as int] == self.apps@[i as int]@);
                    assert(spec_user_id(self.spec_apps()[i as int]) == id);
                    assert(spec_has_app(self.spec_apps(), id));
                    let k = spec_app_index(self.spec_apps(), id);
                    assert(0 <= k < self.spec_apps().len() && spec_user_id(self.spec_apps()[k])
                        == id);
                    assert(k == i as int);
                }
                return Some(i);
            }
            i += 1;
        }
        None
    }

    /// Hands a message to the application with the id.
    fn dispatch_app(&mut self, id: ProtocolId, message: Message) -> (r: Result<(), MachineError>)
        requires
            old(self).wf(),
        ensures
            final(self).wf(),
            final(self).spec_tap_state() == old(self).spec_tap_state(),
            final(self).spec_ipv4_state() == old(self).spec_ipv4_state(),
            final(self).spec_udp_state() == old(self).spec_udp_state(),
            if spec_has_app(old(self).spec_apps(), id) {
                r == Ok::<(), MachineError>(()) && final(self).spec_apps() == old(
                    self,
                ).spec_apps().update(
                    spec_app_index(old(self).spec_apps(), id),
                    spec_recv(
                        old(self).spec_apps()[spec_app_index(old(self).spec_apps(), id)],
                        message@,
                    ),
                )
            } else {
                r == Err::<(), MachineError>(
                    MachineError::Tap(TapError::NoSuchProtocol(id)),
                ) && final(self).spec_apps() == old(self).spec_apps()
            },
    {
        match self.find_app(id) {
            None => Err(MachineError::Tap(TapError::NoSuchProtocol(id))),
            Some(i) => {
                let ghost pre = self.apps@;
                let ghost pre_views = self.spec_apps();
                let mut app = self.apps.remove(i);
                app.recv(message);
                self.apps.insert(i, app);
                proof {
                    let v = self.apps@[i as int];
                    assert(self.apps@ =~= pre.update(i as int, v));
                    assert(self.spec_apps() =~= pre_views.update(i as int, v@));
                }
                Ok(())
            },
        }
    }

    /// Drives one inbound frame up the stack: the tap reads its two-byte
    /// header, the named protocol demultiplexes, and so on until an
    /// application receives the payload. Returns the context as the top of
    /// the stack saw it.
    ///
    /// Layer demultiplexing consistency: when the frame is well-formed
    /// UDP-in-IPv4, IPv4 routes its key up to UDP, UDP delivers its key to
    /// an application that exists, then that application receives exactly
    /// the UDP payload, and the returned context exposes the frame's
    /// addresses, its ports, and the arrival network.
    pub fn deliver(&mut self, message: &Message, network: u8) -> (r: Result<
        ProtocolContext,
        MachineError,
    >)
        requires
            old(self).wf(),
        ensures
            final(self).wf(),
            ({
                let o = spec_deliver(
                    old(self).spec_tap_state(),
                    old(self).spec_ipv4_state(),
                    old(self).spec_udp_state(),
                    old(self).spec_apps(),
                    message@,
                    network,
                );
                &&& final(self).spec_tap_state() == o.tap
                &&& final(self).spec_ipv4_state() == o.ipv4
                &&& final(self).spec_udp_state() == o.udp
                &&& final(self).spec_apps() == o.apps
                &&& r == o.result
            }),
            r is Err ==> final(self).spec_apps() == old(self).spec_apps(),
            (spec_udp_frame_ok(message@) && spec_ipv4_routes_to_udp(
                old(self).spec_ipv4_state(),
                spec_frame_key(message@),
            ) && (spec_udp_target(old(self).spec_udp_state(), spec_frame_session(message@))
                matches Some(aid) && spec_has_app(old(self).spec_apps(), aid))) ==> ({
                let aid = spec_udp_target(
                    old(self).spec_udp_state(),
                    spec_frame_session(message@),
                )->Some_0;
                let k = spec_app_index(old(self).spec_apps(), aid);
                &&& r is Ok
                &&& (r matches Ok(ctx) ==> {
                    &&& ctx.info.local_address == Some(spec_frame_key(message@).local)
                    &&& ctx.info.remote_address == Some(spec_frame_key(message@).remote)
                    &&& ctx.info.local_port == Some(spec_frame_session(message@).local_port)
                    &&& ctx.info.remote_port == Some(spec_frame_session(message@).remote_port)
                    &&& ctx.info.network_index == Some(network)
                })
                &&& final(self).spec_apps() == old(self).spec_apps().update(
                    k,
                    spec_recv(old(self).spec_apps()[k], spec_frame_payload(message@)),
                )
            }),
    {
        let mut context = ProtocolContext::new();
        let (pid, after_tap) = match self.tap.accept_incoming(message, network, &mut context) {
            Ok(p) => p,
            Err(e) => {
                return Err(MachineError::Tap(e));
            },
        };
        if pid == ipv4_id() {
            let downstream = crate::tap::SessionId { upstream: pid, network };
            let (pid2, after_ipv4) = match self.ipv4.demux(&after_tap, downstream, &mut context) {
                Ok(p) => p,
                Err(e) => {
                    return Err(MachineError::Ipv4(e));
                },
            };
            if pid2 == udp_id() {
                let (pid3, payload) = match self.udp.demux(&after_ipv4, &mut context) {
                    Ok(p) => p,
                    Err(e) => {
                        return Err(MachineError::Udp(e));
                    },
                };
                match self.dispatch_app(pid3, payload) {
                    Ok(()) => Ok(context),
                    Err(e) => Err(e),
                }
            } else {
                match self.dispatch_app(pid2, after_ipv4) {
                    Ok(()) => Ok(context),
                    Err(e) => Err(e),
                }
            }
        } else {
            match self.dispatch_app(pid, after_tap) {
                Ok(()) => Ok(context),
                Err(e) => Err(e),
            }
        }
    }

    /// One tick: ingest every pending message, give every protocol its
    /// `awake`, and drain the tap's outgoing queues into the context.
    ///
    /// The whole tick is pinned down by `spec_machine_awake`: the pending
    /// messages are delivered in order (a delivery that errors is dropped
    /// and the tick goes on), every application then runs in table order,
    /// the drained frames are appended to the context's outgoing queue in
    /// session order then send order with their network indices, and the
    /// result is `EndSimulation` exactly when some application's tick
    /// returned it.
    #[verifier::rlimit(100)]
    pub fn awake(&mut self, context: &mut MachineContext) -> (r: ControlFlow)
        requires
            old(self).wf(),
        ensures
            final(self).wf(),
            final(context).pending@ == old(context).pending@,
            forall|i: int|
                0 <= i < final(self).spec_tap_state().len() ==> (#[trigger] final(self).spec_tap_state()[i]).queued.len() == 0,
            r == ControlFlow::EndSimulation ==> exists|i: int|
                0 <= i < final(self).spec_apps().len() && spec_wants_end(
                    final(self).spec_apps()[i],
                ),
            ({
                let o = spec_machine_awake(
                    old(self).spec_view(),
                    spec_tagged_views(old(context).pending@),
                );
                &&& final(self).spec_view() == o.machine
                &&& spec_tagged_views(final(context).outgoing@) == spec_tagged_views(
                    old(context).outgoing@,
                ) + o.outgoing
                &&& r == (if o.end {
                    ControlFlow::EndSimulation
                } else {
                    ControlFlow::Continue
                })
            }),
    {
        let ghost mv0 = old(self).spec_view();
        let ghost pviews = spec_tagged_views(old(context).pending@);
        let mut i: usize = 0;
        while i < context.pending.len()
            invariant
                self.wf(),
                i <= context.pending@.len(),
                context.pending@ == old(context).pending@,
                context.outgoing@ == old(context).outgoing@,
                pviews == spec_tagged_views(old(context).pending@),
                mv0 == old(self).spec_view(),
                self.spec_view() == spec_deliver_all(mv0, pviews, i as int),
            decreases context.pending.len() - i,
        {
            let network: u8 = context.pending[i].0;
            let message = context.pending[i].1.clone();
            proof {
                assert(pviews[i as int] == (context.pending@[i as int].0, context.pending@[i as int].1@));
            }
            let _ = self.deliver(&message, network);
            proof {
                assert(self.spec_view() == spec_deliver_all(mv0, pviews, i as int + 1));
            }
            i += 1;
        }
        let ghost dv = spec_deliver_all(mv0, pviews, pviews.len() as int);
        proof {
            assert(pviews.len() == context.pending@.len());
            assert(self.spec_view() == dv);
        }
        let _ = self.tap.awake();
        let _ = self.ipv4.awake();
        let _ = self.udp.awake();
        let mut flow = ControlFlow::Continue;
        let mut k: usize = 0;
        while k < self.apps.len()
            invariant
                self.wf(),
                k <= self.apps@.len(),
                self.apps@.len() == dv.apps.len(),
                context.pending@ == old(context).pending@,
                context.outgoing@ == old(context).outgoing@,
                self.spec_view() == spec_awake_all(dv, k as int).machine,
                (flow == ControlFlow::EndSimulation) == spec_awake_all(dv, k as int).end,
                flow == ControlFlow::EndSimulation ==> exists|j: int|
                    0 <= j < self.spec_apps().len() && spec_wants_end(self.spec_apps()[j]),
            decreases self.apps.len() - k,
        {
            let ghost pre = self.apps@;
            let ghost pre_views = self.spec_apps();
            let mut app = self.apps.remove(k);
            let outcome = app.awake(&mut self.udp, &mut self.ipv4, &mut self.tap);
            self.apps.insert(k, app);
            proof {
                let v = self.apps@[k as int];
                assert(self.apps@ =~= pre.update(k as int, v));
                assert(self.spec_apps() =~= pre_views.update(k as int, v@));
                assert(spec_user_id(v@) == spec_user_id(pre_views[k as int]));
                assert(spec_wants_end(v@) == spec_wants_end(pre_views[k as int]));
                assert(forall|a: int|
                    0 <= a < self.spec_apps().len() ==> spec_user_id(#[trigger] self.spec_apps()[a])
                        == spec_user_id(pre_views[a]));
                assert(spec_distinct_apps(self.spec_apps()));
                assert(forall|j: int| 0 <= j < self.apps@.len() ==> (#[trigger] self.apps@[j]).wf());
                if flow == ControlFlow::EndSimulation {
                    let j = choose|j: int|
                        0 <= j < pre_views.len() && spec_wants_end(pre_views[j]);
                    assert(spec_wants_end(self.spec_apps()[j]));
                }
                assert(self.spec_view().apps == spec_awake_all(dv, k as int + 1).machine.apps);
                assert(self.spec_view() == spec_awake_all(dv, k as int + 1).machine);
                assert(spec_awake_all(dv, k as int + 1).end == (spec_awake_all(dv, k as int).end
                    || outcome == Ok::<ControlFlow, UdpError>(ControlFlow::EndSimulation)));
            }
            match outcome {
                Ok(ControlFlow::EndSimulation) => {
                    proof {
                        assert(self.spec_apps()[k as int] == self.apps@[k as int]@);
                        assert(spec_wants_end(self.spec_apps()[k as int]));
                    }
                    flow = ControlFlow::EndSimulation;
                },
                _ => (),
            }
            k += 1;
        }
        let ghost av = spec_awake_all(dv, dv.apps.len() as int).machine;
        proof {
            assert(k == dv.apps.len());
            assert(self.spec_view() == av);
        }
        let drained = self.tap.outgoing();
        proof {
            assert(self.spec_tap_state() =~= spec_cleared(av.tap));
            if flow == ControlFlow::EndSimulation {
                let j = choose|j: int|
                    0 <= j < self.spec_apps().len() && spec_wants_end(self.spec_apps()[j]);
                assert(spec_wants_end(self.spec_apps()[j]));
            }
        }
        let ghost base = spec_tagged_views(old(context).outgoing@);
        let mut d: usize = 0;
        while d < drained.len()
            invariant
                self.wf(),
                d <= drained@.len(),
                drained@.len() == av.tap.len(),
                context.pending@ == old(context).pending@,
                self.spec_view() == (MachineView {
                    tap: spec_cleared(av.tap),
                    ipv4: av.ipv4,
                    udp: av.udp,
                    apps: av.apps,
                }),
                forall|j: int|
                    0 <= j < drained@.len() ==> (#[trigger] drained@[j]).0 == av.tap[j].network
                        && drained@[j].1@.map_values(|m: Message| m@) == av.tap[j].queued,
                base == spec_tagged_views(old(context).outgoing@),
                spec_tagged_views(context.outgoing@) == base + spec_drained(
                    av.tap.take(d as int),
                ),
                flow == ControlFlow::EndSimulation ==> exists|j: int|
                    0 <= j < self.spec_apps().len() && spec_wants_end(self.spec_apps()[j]),
                (flow == ControlFlow::EndSimulation) == spec_awake_all(dv, dv.apps.len() as int).end,
            decreases drained.len() - d,
        {
            let network: u8 = drained[d].0;
            let mut f: usize = 0;
            let frames = &drained[d].1;
            while f < frames.len()
                invariant
                    d < drained@.len(),
                    f <= frames@.len(),
                    drained@.len() == av.tap.len(),
                    frames@ == drained@[d as int].1@,
                    network == av.tap[d as int].network,
                    frames@.map_values(|m: Message| m@) == av.tap[d as int].queued,
                    context.pending@ == old(context).pending@,
                    spec_tagged_views(context.outgoing@) == base + spec_drained(
                        av.tap.take(d as int),
                    ) + av.tap[d as int].queued.take(f as int).map_values(
                        |b: Seq<u8>| (av.tap[d as int].network, b),
                    ),
                decreases frames.len() - f,
            {
                proof {
                    assert(frames@[f as int]@ == av.tap[d as int].queued[f as int]);
                }
                let frame = frames[f].clone();
                let ghost fv = frame@;
                let ghost pre_out = context.outgoing@;
                context.outgoing.push((network, frame));
                proof {
                    let lam = |b: Seq<u8>| (av.tap[d as int].network, b);
                    let queued = av.tap[d as int].queued;
                    assert(fv == queued[f as int]);
                    assert(spec_tagged_views(context.outgoing@) =~= spec_tagged_views(
                        pre_out,
                    ).push((network, fv)));
                    assert(queued.take(f as int + 1) =~= queued.take(f as int).push(
                        queued[f as int],
                    ));
                    assert(queued.take(f as int + 1).map_values(lam) =~= queued.take(
                        f as int,
                    ).map_values(lam).push((av.tap[d as int].network, queued[f as int])));
                    assert(spec_tagged_views(context.outgoing@) =~= base + spec_drained(
                        av.tap.take(d as int),
                    ) + queued.take(f as int + 1).map_values(lam));
                    assert(spec_tagged_views(context.outgoing@) =~= base + spec_drained(
                        av.tap.take(d as int),
                    ) + av.tap[d as int].queued.take(f as int + 1).map_values(
                        |b: Seq<u8>| (av.tap[d as int].network, b),
                    ));
                }
                f += 1;
            }
            proof {
                assert(av.tap.take(d as int + 1).drop_last() =~= av.tap.take(d as int));
                assert(av.tap.take(d as int + 1).last() == av.tap[d as int]);
                assert(av.tap[d as int].queued.take(frames@.len() as int) =~= av.tap[
                    d as int
                ].queued);
                assert(spec_session_frames(av.tap[d as int]) =~= av.tap[d as int].queued.map_values(
                    |b: Seq<u8>| (av.tap[d as int].network, b),
                ));
                assert(spec_tagged_views(context.outgoing@) =~= base + spec_drained(
                    av.tap.take(d as int + 1),
                ));
            }
            d += 1;
        }
        proof {
            assert(av.tap.take(av.tap.len() as int) =~= av.tap);
            assert(spec_tagged_views(context.outgoing@) == base + spec_drained(av.tap));
        }
        flow
    }
}

} // verus!
