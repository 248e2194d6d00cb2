//! IPv4 addresses.

use vstd::prelude::*;

verus! {

/// An address used by the IPv4 protocol, stored as its 32-bit value.
#[derive(Clone, Copy, Debug, PartialEq, Eq, Hash, Structural)]
pub struct Ipv4Address {
    /// The 32-bit value of the address.
    pub value: u32,
}

impl Ipv4Address {
    /// The numeric value of the address.
    pub open spec fn spec_to_u32(self) -> u32 {
        self.value
    }

    /// The four big-endian octets of the address.
    pub open spec fn spec_octets(self) -> Seq<u8> {
        spec_u32_octets(self.value)
    }

    /// Creates a new address from its 32-bit value.
    pub fn new(address: u32) -> (r: Ipv4Address)
        ensures
            r.spec_to_u32() == address,
    {
        Ipv4Address { value: address }
    }

    /// Creates a new address from its four big-endian octets.
    pub fn from_bytes(octets: [u8; 4]) -> (r: Ipv4Address)
        ensures
            r.spec_to_u32() == spec_u32_from_octets(
                octets@[0],
                octets@[1],
                octets@[2],
                octets@[3],
            ),
    {
        let value: u32 = octets[0] as u32 * 0x1000000 + octets[1] as u32 * 0x10000
            + octets[2] as u32 * 0x100 + octets[3] as u32;
        Ipv4Address { value }
    }

    /// Gets the address as a `u32`.
    pub fn to_u32(self) -> (r: u32)
        ensures
            r == self.spec_to_u32(),
    {
        self.value
    }

    /// Gets the address as its four big-endian octets.
    pub fn to_bytes(self) -> (r: [u8; 4])
        ensures
            r@ == self.spec_octets(),
    {
        let b0: u8 = (self.value / 0x1000000) as u8;
        let b1: u8 = ((self.value / 0x10000) % 0x100) as u8;
        let b2: u8 = ((self.value / 0x100) % 0x100) as u8;
        let b3: u8 = (self.value % 0x100) as u8;
        let r = [b0, b1, b2, b3];
        proof {
            assert(r@ =~= self.spec_octets());
        }
        r
    }

    /// The address `0.0.0.0`.
    pub fn current_network() -> (r: Ipv4Address)
        ensures
            r.spec_to_u32() == 0,
    {
        Ipv4Address { value: 0 }
    }

    /// The address `127.0.0.1`.
    pub fn localhost() -> (r: Ipv4Address)
        ensures
            r.spec_to_u32() == 0x7f000001,
    {
        Ipv4Address { value: 0x7f000001 }
    }

    /// The address `255.255.255.255`.
    pub fn subnet() -> (r: Ipv4Address)
        ensures
            r.spec_to_u32() == 0xffffffff,
    {
        Ipv4Address { value: 0xffffffff }
    }
}

/// The four big-endian octets of a 32-bit value.
pub open spec fn spec_u32_octets(value: u32) -> Seq<u8> {
    seq![
        (value / 0x1000000) as u8,
        ((value / 0x10000) % 0x100) as u8,
        ((value / 0x100) % 0x100) as u8,
        (value % 0x100) as u8,
    ]
}

/// The 32-bit value with big-endian octets `b0 b1 b2 b3`.
pub open spec fn spec_u32_from_octets(b0: u8, b1: u8, b2: u8, b3: u8) -> u32 {
    (b0 * 0x1000000 + b1 * 0x10000 + b2 * 0x100 + b3) as u32
}

/// Splitting a 32-bit value into octets and reassembling them is the identity.
pub proof fn lemma_u32_octets_round_trip(value: u32)
    ensures
        spec_u32_from_octets(
            spec_u32_octets(value)[0],
            spec_u32_octets(value)[1],
            spec_u32_octets(value)[2],
            spec_u32_octets(value)[3],
        ) == value,
{
    assert(spec_u32_from_octets(
        (value / 0x1000000) as u8,
        ((value / 0x10000) % 0x100) as u8,
        ((value / 0x100) % 0x100) as u8,
        (value % 0x100) as u8,
    ) == value) by (nonlinear_arith);
}

} // verus!
