//! A simulated broadcast medium between machines.
//!
//! A network holds two sets of tagged messages: those pending for the
//! current tick, which every attached machine reads, and those buffered
//! during the current tick, which become pending only when the network
//! advances at the tick boundary.

use vstd::prelude::*;
use crate::message::Message;

verus! {

/// An identifier for a particular machine in the simulation.
pub type MachineId = usize;

/// Who a message on a network is for.
#[derive(Clone, Copy, Debug, PartialEq, Eq, Structural)]
pub enum PhysicalAddress {
    /// Every attached machine.
    Broadcast,
    /// One particular machine.
    Recipient(MachineId),
}

/// Whether a message tagged `address` is for `machine`.
pub open spec fn spec_addressed_to(address: PhysicalAddress, machine: MachineId) -> bool {
    match address {
        PhysicalAddress::Broadcast => true,
        PhysicalAddress::Recipient(m) => m == machine,
    }
}

/// The abstract state of a network: tagged message bytes, oldest first.
pub ghost struct NetworkView {
    pub pending: Seq<(PhysicalAddress, Seq<u8>)>,
    pub buffered: Seq<(PhysicalAddress, Seq<u8>)>,
}

/// The network after a send during a tick: the message is buffered, and the
/// pending set, the one machines observe, is untouched.
pub open spec fn spec_send(v: NetworkView, address: PhysicalAddress, m: Seq<u8>) -> NetworkView {
    NetworkView { pending: v.pending, buffered: v.buffered.push((address, m)) }
}

/// The network after the tick boundary: what was buffered is now pending.
pub open spec fn spec_advance(v: NetworkView) -> NetworkView {
    NetworkView { pending: v.buffered, buffered: Seq::<(PhysicalAddress, Seq<u8>)>::empty() }
}

/// The messages among `entries` that `machine` observes, in order.
pub open spec fn spec_deliverable(
    entries: Seq<(PhysicalAddress, Seq<u8>)>,
    machine: MachineId,
) -> Seq<Seq<u8>>
    decreases entries.len(),
{
    if entries.len() == 0 {
        Seq::<Seq<u8>>::empty()
    } else {
        let head = spec_deliverable(entries.drop_last(), machine);
        if spec_addressed_to(entries.last().0, machine) {
            head.push(entries.last().1)
        } else {
            head
        }
    }
}

/// A broadcast medium carrying messages tagged with a physical address.
pub struct Network {
    pending: Vec<(PhysicalAddress, Message)>,
    buffered: Vec<(PhysicalAddress, Message)>,
}

impl View for Network {
    type V = NetworkView;

    closed spec fn view(&self) -> NetworkView {
        NetworkView {
            pending: self.pending@.map_values(|e: (PhysicalAddress, Message)| (e.0, e.1@)),
            buffered: self.buffered@.map_values(|e: (PhysicalAddress, Message)| (e.0, e.1@)),
        }
    }
}

impl Network {
    pub fn new() -> (r: Network)
        ensures
            r@ == (NetworkView {
                pending: Seq::<(PhysicalAddress, Seq<u8>)>::empty(),
                buffered: Seq::<(PhysicalAddress, Seq<u8>)>::empty(),
            }),
    {
        let r = Network { pending: Vec::new(), buffered: Vec::new() };
        proof {
            assert(r@.pending =~= Seq::<(PhysicalAddress, Seq<u8>)>::empty());
            assert(r@.buffered =~= Seq::<(PhysicalAddress, Seq<u8>)>::empty());
        }
        r
    }

    /// Buffers a message for the next tick. What is pending for the current
    /// tick is untouched: nothing sent during a tick is observed during it.
    pub fn send(&mut self, address: PhysicalAddress, message: Message)
        ensures
            final(self)@ == spec_send(old(self)@, address, message@),
    {
        self.buffered.push((address, message));
        proof {
            assert(self@.buffered =~= old(self)@.buffered.push((address, message@)));
            assert(self@.pending =~= old(self)@.pending);
        }
    }

    /// The tick boundary: everything buffered becomes pending, to be
    /// observed by the attached machines on the next tick.
    pub fn advance(&mut self)
        ensures
            final(self)@ == spec_advance(old(self)@),
    {
        let mut taken: Vec<(PhysicalAddress, Message)> = Vec::new();
        core::mem::swap(&mut taken, &mut self.buffered);
        self.pending = taken;
        proof {
            assert(self@.buffered =~= Seq::<(PhysicalAddress, Seq<u8>)>::empty());
        }
    }

    /// The pending messages that `machine` observes this tick, in order.
    pub fn pending_for(&self, machine: MachineId) -> (r: Vec<Message>)
        ensures
            r@.map_values(|m: Message| m@) == spec_deliverable(self@.pending, machine),
    {
        let mut result: Vec<Message> = Vec::new();
        let mut i: usize = 0;
        while i < self.pending.len()
            invariant
                i <= self.pending@.len(),
                self@.pending.len() == self.pending@.len(),
                result@.map_values(|m: Message| m@) == spec_deliverable(
                    self@.pending.take(i as int),
                    machine,
                ),
            decreases self.pending.len() - i,
        {
            let ghost pre = result@.map_values(|m: Message| m@);
            let entry = &self.pending[i];
            let deliver = match entry.0 {
                PhysicalAddress::Broadcast => true,
                PhysicalAddress::Recipient(m) => m == machine,
            };
            proof {
                assert(self@.pending.take(i as int + 1).drop_last() =~= self@.pending.take(
                    i as int,
                ));
                assert(self@.pending.take(i as int + 1).last() == self@.pending[i as int]);
                assert(self@.pending[i as int] == (entry.0, entry.1@));
            }
            if deliver {
                result.push(entry.1.clone());
                proof {
                    assert(result@.map_values(|m: Message| m@) =~= pre.push(entry.1@));
                }
            }
            i += 1;
        }
        proof {
            assert(self@.pending.take(self.pending@.len() as int) =~= self@.pending);
        }
        result
    }

    /// Whether the network holds no messages at all.
    pub fn is_idle(&self) -> (r: bool)
        ensures
            r == (self@.pending.len() == 0 && self@.buffered.len() == 0),
    {
        self.pending.len() == 0 && self.buffered.len() == 0
    }
}

/// Tick-boundary delivery.
///
/// A message sent on a network during tick `T` is not observed by any
/// machine during `T`: the pending set, the only thing machines read, is
/// unchanged by the send. Once the network advances at the tick boundary,
/// the message is pending, and every attached machine the address covers —
/// in particular every machine other than the sender, under the broadcast
/// address always used — observes it during tick `T + 1`, after everything
/// that was buffered before it.
pub proof fn lemma_tick_boundary_delivery(
    v: NetworkView,
    address: PhysicalAddress,
    m: Seq<u8>,
    machine: MachineId,
)
    ensures
        spec_send(v, address, m).pending == v.pending,
        spec_advance(spec_send(v, address, m)).pending == v.buffered.push((address, m)),
        spec_addressed_to(address, machine) ==> spec_deliverable(
            spec_advance(spec_send(v, address, m)).pending,
            machine,
        ) == spec_deliverable(v.buffered, machine).push(m),
{
    let after = spec_advance(spec_send(v, address, m)).pending;
    assert(after.drop_last() =~= v.buffered);
    assert(after.last() == (address, m));
}

} // verus!
