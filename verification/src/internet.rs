//! The top-level driver: machines, networks, and the tick loop.

use vstd::prelude::*;
use crate::control::ControlFlow;
use crate::machine::{spec_machine_awake, spec_tagged_views, Machine, MachineContext, MachineView};
use crate::message::Message;
use crate::network::{
    spec_advance, spec_deliverable, spec_send, MachineId, Network, NetworkView, PhysicalAddress,
};

verus! {

/// The messages machine `machine` observes this tick, gathered from the
/// first `k` of its attached networks in local order, each tagged with the
/// local index of the network that carried it.
pub open spec fn spec_gathered(
    networks: Seq<NetworkView>,
    att: Seq<usize>,
    machine: MachineId,
    k: int,
) -> Seq<(u8, Seq<u8>)>
    decreases k,
{
    if k <= 0 {
        Seq::<(u8, Seq<u8>)>::empty()
    } else {
        spec_gathered(networks, att, machine, k - 1) + spec_deliverable(
            networks[att[k - 1] as int].pending,
            machine,
        ).map_values(|b: Seq<u8>| (((k - 1) as u8), b))
    }
}

/// The networks after the first `k` outgoing frames of one machine were
/// published: each frame goes broadcast onto the attached network its local
/// index names; a frame with an out-of-range index goes nowhere.
pub open spec fn spec_publish(
    networks: Seq<NetworkView>,
    att: Seq<usize>,
    outgoing: Seq<(u8, Seq<u8>)>,
    k: int,
) -> Seq<NetworkView>
    decreases k,
{
    if k <= 0 {
        networks
    } else {
        let prev = spec_publish(networks, att, outgoing, k - 1);
        let local = outgoing[k - 1].0;
        if (local as int) < att.len() {
            let nid = att[local as int] as int;
            prev.update(
                nid,
                spec_send(prev[nid], PhysicalAddress::Broadcast, outgoing[k - 1].1),
            )
        } else {
            prev
        }
    }
}

/// The simulation mid-tick: machine and network states, and whether some
/// machine has asked to end.
pub ghost struct InternetTickState {
    pub machines: Seq<MachineView>,
    pub networks: Seq<NetworkView>,
    pub end: bool,
}

/// The simulation after the first `k` machines ran their tick, in order:
/// each observes what is pending for it on its attached networks, runs, and
/// publishes its outgoing frames onto those networks.
pub open spec fn spec_tick_upto(
    machines: Seq<MachineView>,
    networks: Seq<NetworkView>,
    att: Seq<Seq<usize>>,
    k: int,
) -> InternetTickState
    decreases k,
{
    if k <= 0 {
        InternetTickState { machines, networks, end: false }
    } else {
        let prev = spec_tick_upto(machines, networks, att, k - 1);
        let i = k - 1;
        let pending = spec_gathered(prev.networks, att[i], i as MachineId, att[i].len() as int);
        let o = spec_machine_awake(prev.machines[i], pending);
        InternetTickState {
            machines: prev.machines.update(i, o.machine),
            networks: spec_publish(prev.networks, att[i], o.outgoing, o.outgoing.len() as int),
            end: prev.end || o.end,
        }
    }
}

/// The whole simulation: its machines, its networks, and which networks
/// each machine is attached to, plus the record of every tick's outcome.
pub struct Internet {
    machines: Vec<Machine>,
    networks: Vec<Network>,
    attachments: Vec<Vec<usize>>,
    history: Ghost<Seq<ControlFlow>>,
}

impl Internet {
    /// The outcome of every tick run so far, in order.
    pub closed spec fn spec_history(self) -> Seq<ControlFlow> {
        self.history@
    }

    /// How many machines the simulation has.
    pub closed spec fn spec_machine_count(self) -> nat {
        self.machines@.len()
    }

    /// The machines of the simulation, in order.
    pub closed spec fn spec_machines(self) -> Seq<Machine> {
        self.machines@
    }

    /// The abstract states of the machines, in order.
    pub closed spec fn spec_machine_views(self) -> Seq<MachineView> {
        self.machines@.map_values(|m: Machine| m.spec_view())
    }

    /// The abstract states of the networks, in order.
    pub closed spec fn spec_network_views(self) -> Seq<NetworkView> {
        self.networks@.map_values(|n: Network| n@)
    }

    /// The attachment map: for each machine, the networks it is plugged
    /// into, in local order.
    pub closed spec fn spec_attachment_views(self) -> Seq<Seq<usize>> {
        self.attachments@.map_values(|v: Vec<usize>| v@)
    }

    /// Whether no network holds any message, pending or buffered.
    pub closed spec fn spec_all_idle(self) -> bool {
        forall|i: int|
            0 <= i < self.networks@.len() ==> (#[trigger] self.networks@[i])@.pending.len() == 0
                && self.networks@[i]@.buffered.len() == 0
    }

    /// Well-formed: every machine is, every machine has an attachment list,
    /// each list stays within the network table and within the one-byte
    /// local index space.
    pub closed spec fn wf(self) -> bool {
        &&& forall|i: int| 0 <= i < self.machines@.len() ==> (#[trigger] self.machines@[i]).wf()
        &&& self.attachments@.len() == self.machines@.len()
        &&& forall|i: int|
            0 <= i < self.attachments@.len() ==> (#[trigger] self.attachments@[i])@.len() <= 255
        &&& forall|i: int, j: int|
            0 <= i < self.attachments@.len() && 0 <= j < self.attachments@[i]@.len()
                ==> #[trigger] self.attachments@[i]@[j] < self.networks@.len()
    }

    /// Builds a simulation from machines, networks and an attachment map
    /// giving each machine the networks it is plugged into, in local order.
    pub fn new(machines: Vec<Machine>, networks: Vec<Network>, attachments: Vec<Vec<usize>>) -> (r:
        Internet)
        requires
            forall|i: int| 0 <= i < machines@.len() ==> (#[trigger] machines@[i]).wf(),
            attachments@.len() == machines@.len(),
            forall|i: int|
                0 <= i < attachments@.len() ==> (#[trigger] attachments@[i])@.len() <= 255,
            forall|i: int, j: int|
                0 <= i < attachments@.len() && 0 <= j < attachments@[i]@.len()
                    ==> #[trigger] attachments@[i]@[j] < networks@.len(),
        ensures
            r.wf(),
            r.spec_history() == Seq::<ControlFlow>::empty(),
            r.spec_machine_count() == machines@.len(),
            r.spec_machine_views() == machines@.map_values(|m: Machine| m.spec_view()),
            r.spec_network_views() == networks@.map_values(|n: Network| n@),
            r.spec_attachment_views() == attachments@.map_values(|v: Vec<usize>| v@),
    {
        Internet { machines, networks, attachments, history: Ghost(Seq::empty()) }
    }

    /// The machine at `index`.
    pub fn machine_at(&self, index: usize) -> (r: &Machine)
        requires
            index < self.spec_machine_count(),
        ensures
            *r == self.spec_machines()[index as int],
            self.wf() ==> r.wf(),
    {
        &self.machines[index]
    }

    /// Whether no network holds any message.
    pub fn all_idle(&self) -> (r: bool)
        ensures
            r == self.spec_all_idle(),
    {
        let mut i: usize = 0;
        while i < self.networks.len()
            invariant
                i <= self.networks@.len(),
                forall|j: int|
                    0 <= j < i ==> (#[trigger] self.networks@[j])@.pending.len() == 0
                        && self.networks@[j]@.buffered.len() == 0,
            decreases self.networks.len() - i,
        {
            if !self.networks[i].is_idle() {
                return false;
            }
            i += 1;
        }
        true
    }

    /// One tick, pinned down by `spec_tick_upto`: every machine, in order,
    /// observes what is pending for it on its attached networks, runs, and
    /// publishes its outgoing frames broadcast onto those networks; then
    /// every network advances, so that everything sent during this tick
    /// becomes pending for the next. The result is `EndSimulation` exactly
    /// when some machine's tick returned it.
    #[verifier::rlimit(100)]
    pub fn tick(&mut self) -> (r: ControlFlow)
        requires
            old(self).wf(),
        ensures
            final(self).wf(),
            final(self).spec_history() == old(self).spec_history().push(r),
            final(self).spec_machine_count() == old(self).spec_machine_count(),
            ({
                let s = spec_tick_upto(
                    old(self).spec_machine_views(),
                    old(self).spec_network_views(),
                    old(self).spec_attachment_views(),
                    old(self).spec_machine_count() as int,
                );
                &&& final(self).spec_machine_views() == s.machines
                &&& final(self).spec_network_views() == s.networks.map_values(
                    |v: NetworkView| spec_advance(v),
                )
                &&& r == (if s.end {
                    ControlFlow::EndSimulation
                } else {
                    ControlFlow::Continue
                })
            }),
    {
        let ghost m0 = old(self).spec_machine_views();
        let ghost n0 = old(self).spec_network_views();
        let ghost att = old(self).spec_attachment_views();
        let mut flow = ControlFlow::Continue;
        let mut m: usize = 0;
        while m < self.machines.len()
            invariant
                self.wf(),
                m <= self.machines@.len(),
                self.machines@.len() == old(self).machines@.len(),
                self.networks@.len() == old(self).networks@.len(),
                self.spec_history() == old(self).spec_history(),
                m0 == old(self).spec_machine_views(),
                n0 == old(self).spec_network_views(),
                att == old(self).spec_attachment_views(),
                self.spec_attachment_views() == att,
                self.spec_machine_views() == spec_tick_upto(m0, n0, att, m as int).machines,
                self.spec_network_views() == spec_tick_upto(m0, n0, att, m as int).networks,
                (flow == ControlFlow::EndSimulation) == spec_tick_upto(m0, n0, att, m as int).end,
            decreases self.machines.len() - m,
        {
            let ghost at_entry = spec_tick_upto(m0, n0, att, m as int);
            let mut pending: Vec<(u8, Message)> = Vec::new();
            let mut j: usize = 0;
            while j < self.attachments[m].len()
                invariant
                    self.wf(),
                    m < self.machines@.len(),
                    j <= self.attachments@[m as int]@.len(),
                    self.machines@.len() == old(self).machines@.len(),
                    self.networks@.len() == old(self).networks@.len(),
                    self.spec_history() == old(self).spec_history(),
                    self.spec_attachment_views() == att,
                    self.spec_machine_views() == at_entry.machines,
                    self.spec_network_views() == at_entry.networks,
                    att[m as int] == self.attachments@[m as int]@,
                    spec_tagged_views(pending@) == spec_gathered(
                        at_entry.networks,
                        att[m as int],
                        m as MachineId,
                        j as int,
                    ),
                decreases self.attachments[m as int]@.len() - j,
            {
                let network_id: usize = self.attachments[m][j];
                let messages = self.networks[network_id].pending_for(m);
                proof {
                    assert(self.networks@[network_id as int]@ == at_entry.networks[
                        network_id as int
                    ]);
                }
                let mut k: usize = 0;
                while k < messages.len()
                    invariant
                        j <= 255,
                        k <= messages@.len(),
                        m < self.machines@.len(),
                        network_id == att[m as int][j as int],
                        (network_id as int) < at_entry.networks.len(),
                        messages@.map_values(|msg: Message| msg@) == spec_deliverable(
                            at_entry.networks[network_id as int].pending,
                            m as MachineId,
                        ),
                        spec_tagged_views(pending@) == spec_gathered(
                            at_entry.networks,
                            att[m as int],
                            m as MachineId,
                            j as int,
                        ) + spec_deliverable(
                            at_entry.networks[network_id as int].pending,
                            m as MachineId,
                        ).take(k as int).map_values(|b: Seq<u8>| ((j as u8), b)),
                    decreases messages.len() - k,
                {
                    let message = messages[k].clone();
                    let ghost mv = message@;
                    let ghost pre_pending = pending@;
                    pending.push((j as u8, message));
                    proof {
                        let lam = |b: Seq<u8>| ((j as u8), b);
                        let del = spec_deliverable(
                            at_entry.networks[network_id as int].pending,
                            m as MachineId,
                        );
                        assert(mv == del[k as int]);
                        assert(spec_tagged_views(pending@) =~= spec_tagged_views(
                            pre_pending,
                        ).push(((j as u8), mv)));
                        assert(del.take(k as int + 1) =~= del.take(k as int).push(del[k as int]));
                        assert(del.take(k as int + 1).map_values(lam) =~= del.take(
                            k as int,
                        ).map_values(lam).push(((j as u8), del[k as int])));
                        assert(spec_tagged_views(pending@) =~= spec_gathered(
                            at_entry.networks,
                            att[m as int],
                            m as MachineId,
                            j as int,
                        ) + del.take(k as int + 1).map_values(lam));
                    }
                    k += 1;
                }
                proof {
                    let del = spec_deliverable(
                        at_entry.networks[network_id as int].pending,
                        m as MachineId,
                    );
                    assert(del.take(del.len() as int) =~= del);
                    assert(spec_tagged_views(pending@) =~= spec_gathered(
                        at_entry.networks,
                        att[m as int],
                        m as MachineId,
                        j as int + 1,
                    ));
                }
                j += 1;
            }
            let ghost gathered = spec_gathered(
                at_entry.networks,
                att[m as int],
                m as MachineId,
                att[m as int].len() as int,
            );
            proof {
                assert(spec_tagged_views(pending@) == gathered);
            }
            let mut context = MachineContext::new(pending);
            let ghost pre_machines = self.machines@;
            let mut machine = self.machines.remove(m);
            let ghost mview = machine.spec_view();
            let outcome = machine.awake(&mut context);
            self.machines.insert(m, machine);
            let ghost o = spec_machine_awake(mview, gathered);
            proof {
                assert(mview == at_entry.machines[m as int]);
                let v = self.machines@[m as int];
                assert(self.machines@ =~= pre_machines.update(m as int, v));
                assert(forall|i: int|
                    0 <= i < self.machines@.len() ==> (#[trigger] self.machines@[i]).wf());
                assert(v.spec_view() == o.machine);
                assert(self.spec_machine_views() =~= at_entry.machines.update(
                    m as int,
                    o.machine,
                ));
                assert(spec_tagged_views(context.outgoing@) =~= o.outgoing);
            }
            if outcome == ControlFlow::EndSimulation {
                flow = ControlFlow::EndSimulation;
            }
            let mut q: usize = 0;
            while q < context.outgoing.len()
                invariant
                    self.wf(),
                    m < self.machines@.len(),
                    q <= context.outgoing@.len(),
                    self.machines@.len() == old(self).machines@.len(),
                    self.networks@.len() == old(self).networks@.len(),
                    self.spec_history() == old(self).spec_history(),
                    self.spec_attachment_views() == att,
                    att[m as int] == self.attachments@[m as int]@,
                    self.spec_machine_views() == at_entry.machines.update(m as int, o.machine),
                    spec_tagged_views(context.outgoing@) == o.outgoing,
                    self.spec_network_views() == spec_publish(
                        at_entry.networks,
                        att[m as int],
                        o.outgoing,
                        q as int,
                    ),
                decreases context.outgoing.len() - q,
            {
                let local: u8 = context.outgoing[q].0;
                proof {
                    assert(o.outgoing[q as int] == (context.outgoing@[q as int].0, context.outgoing@[
                        q as int
                    ].1@));
                }
                if (local as usize) < self.attachments[m].len() {
                    let network_id: usize = self.attachments[m][local as usize];
                    let message = context.outgoing[q].1.clone();
                    let ghost pre_networks = self.networks@;
                    let ghost pre_views = self.spec_network_views();
                    let mut network = self.networks.remove(network_id);
                    network.send(PhysicalAddress::Broadcast, message);
                    self.networks.insert(network_id, network);
                    proof {
                        let v = self.networks@[network_id as int];
                        assert(self.networks@ =~= pre_networks.update(network_id as int, v));
                        assert(self.spec_network_views() =~= pre_views.update(
                            network_id as int,
                            v@,
                        ));
                        assert(self.spec_network_views() =~= spec_publish(
                            at_entry.networks,
                            att[m as int],
                            o.outgoing,
                            q as int + 1,
                        ));
                    }
                } else {
                    proof {
                        assert(self.spec_network_views() =~= spec_publish(
                            at_entry.networks,
                            att[m as int],
                            o.outgoing,
                            q as int + 1,
                        ));
                    }
                }
                q += 1;
            }
            proof {
                assert(o.outgoing.len() == context.outgoing@.len());
                assert(self.spec_network_views() == spec_tick_upto(
                    m0,
                    n0,
                    att,
                    m as int + 1,
                ).networks);
                assert(self.spec_machine_views() == spec_tick_upto(
                    m0,
                    n0,
                    att,
                    m as int + 1,
                ).machines);
            }
            m += 1;
        }
        let ghost s = spec_tick_upto(m0, n0, att, m0.len() as int);
        let mut n: usize = 0;
        while n < self.networks.len()
            invariant
                self.wf(),
                n <= self.networks@.len(),
                self.machines@.len() == old(self).machines@.len(),
                self.networks@.len() == s.networks.len(),
                self.spec_history() == old(self).spec_history(),
                self.spec_machine_views() == s.machines,
                (flow == ControlFlow::EndSimulation) == s.end,
                forall|j: int|
                    0 <= j < n ==> self.spec_network_views()[j] == spec_advance(
                        #[trigger] s.networks[j],
                    ),
                forall|j: int|
                    n <= j < self.networks@.len() ==> self.spec_network_views()[j]
                        == #[trigger] s.networks[j],
            decreases self.networks.len() - n,
        {
            let ghost pre_networks = self.networks@;
            let ghost pre_views = self.spec_network_views();
            let mut network = self.networks.remove(n);
            network.advance();
            self.networks.insert(n, network);
            proof {
                let v = self.networks@[n as int];
                assert(self.networks@ =~= pre_networks.update(n as int, v));
                assert(self.spec_network_views() =~= pre_views.update(n as int, v@));
            }
            n += 1;
        }
        proof {
            assert(self.spec_network_views() =~= s.networks.map_values(
                |v: NetworkView| spec_advance(v),
            ));
        }
        self.history = Ghost(self.history@.push(flow));
        flow
    }

    /// Runs ticks until some protocol asks for termination, or until the
    /// simulation goes quiet: the run stops once a tick both starts and
    /// ends with every network empty, so the last deliveries are still
    /// acted upon before the stop.
    ///
    /// Cooperative termination: when any tick returns `EndSimulation`, no
    /// tick runs after it, so in the history this run appends, only the
    /// final entry may be `EndSimulation`; and the run stops only on that
    /// signal, on a quiet simulation, or when its tick budget is spent.
    pub fn run(&mut self)
        requires
            old(self).wf(),
        ensures
            final(self).wf(),
            final(self).spec_history().len() > old(self).spec_history().len(),
            old(self).spec_history() == final(self).spec_history().take(
                old(self).spec_history().len() as int,
            ),
            forall|i: int|
                old(self).spec_history().len() <= i < final(self).spec_history().len() - 1
                    ==> final(self).spec_history()[i] == ControlFlow::Continue,
            final(self).spec_history().last() == ControlFlow::EndSimulation || final(self).spec_all_idle() || final(self).spec_history().len() == old(self).spec_history().len() + u64::MAX,
    {
        let mut idle_streak: bool = false;
        let mut ticks: u64 = 0;
        while ticks < u64::MAX
            invariant
                self.wf(),
                self.spec_history().len() == old(self).spec_history().len() + ticks,
                old(self).spec_history() == self.spec_history().take(
                    old(self).spec_history().len() as int,
                ),
                forall|i: int|
                    old(self).spec_history().len() <= i < self.spec_history().len()
                        ==> self.spec_history()[i] == ControlFlow::Continue,
            decreases u64::MAX - ticks,
        {
            let flow = self.tick();
            ticks = ticks + 1;
            proof {
                assert(self.spec_history().take(old(self).spec_history().len() as int)
                    =~= old(self).spec_history());
            }
            if flow == ControlFlow::EndSimulation {
                return ;
            }
            let idle_now = self.all_idle();
            if idle_now && idle_streak {
                return ;
            }
            idle_streak = idle_now;
        }
    }
}

} // verus!
