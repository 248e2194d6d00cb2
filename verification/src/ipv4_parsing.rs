//! The twenty-byte IPv4 wire header: checksum, parsing and building.

use vstd::prelude::*;
use crate::ipv4::Ipv4Error;
use crate::ipv4_address::{spec_u32_from_octets, spec_u32_octets, Ipv4Address};

verus! {

/// The 16-bit value with big-endian bytes `hi lo`.
pub open spec fn spec_be16(hi: u8, lo: u8) -> u16 {
    (hi * 256 + lo) as u16
}

fn be16(hi: u8, lo: u8) -> (r: u16)
    ensures
        r == spec_be16(hi, lo),
{
    hi as u16 * 256 + lo as u16
}

/// Splitting a 16-bit value into bytes and reassembling them is the identity.
pub proof fn lemma_be16_round_trip(v: u16)
    ensures
        spec_be16((v / 256) as u8, (v % 256) as u8) == v,
{
    assert(v / 256 < 256) by (nonlinear_arith);
    assert((v / 256) * 256 + v % 256 == v) by (nonlinear_arith);
}

/// One step of the one's-complement sum: add with end-around carry.
pub open spec fn spec_oc_add(a: u16, b: u16) -> u16 {
    if a + b >= 0x10000 {
        (a + b - 0xffff) as u16
    } else {
        (a + b) as u16
    }
}

fn oc_add(a: u16, b: u16) -> (r: u16)
    ensures
        r == spec_oc_add(a, b),
{
    let sum: u32 = a as u32 + b as u32;
    if sum >= 0x10000 {
        (sum - 0xffff) as u16
    } else {
        sum as u16
    }
}

/// The one's-complement sum of the nine header words that take part in the
/// checksum: every big-endian word of the first twenty bytes except the
/// checksum field itself.
pub open spec fn spec_checksum_sum(b: Seq<u8>) -> u16
    recommends
        b.len() >= 20,
{
    spec_oc_add(
        spec_oc_add(
            spec_oc_add(
                spec_oc_add(
                    spec_oc_add(
                        spec_oc_add(
                            spec_oc_add(
                                spec_oc_add(
                                    spec_oc_add(0, spec_be16(b[0], b[1])),
                                    spec_be16(b[2], b[3]),
                                ),
                                spec_be16(b[4], b[5]),
                            ),
                            spec_be16(b[6], b[7]),
                        ),
                        spec_be16(b[8], b[9]),
                    ),
                    spec_be16(b[12], b[13]),
                ),
                spec_be16(b[14], b[15]),
            ),
            spec_be16(b[16], b[17]),
        ),
        spec_be16(b[18], b[19]),
    )
}

/// The checksum field emitted for a header: the one's-complement of the
/// word sum, with a result of zero represented as `0xffff` so that zero is
/// left free to mean "not checksummed".
pub open spec fn spec_header_checksum(b: Seq<u8>) -> u16
    recommends
        b.len() >= 20,
{
    let complement = (0xffff - spec_checksum_sum(b)) as u16;
    if complement == 0 {
        0xffff
    } else {
        complement
    }
}

/// Computes the checksum field over the first twenty bytes of a header,
/// skipping the checksum field itself.
pub fn compute_header_checksum(bytes: &[u8]) -> (r: u16)
    requires
        bytes@.len() >= 20,
    ensures
        r == spec_header_checksum(bytes@),
{
    let mut sum: u16 = 0;
    sum = oc_add(sum, be16(bytes[0], bytes[1]));
    sum = oc_add(sum, be16(bytes[2], bytes[3]));
    sum = oc_add(sum, be16(bytes[4], bytes[5]));
    sum = oc_add(sum, be16(bytes[6], bytes[7]));
    sum = oc_add(sum, be16(bytes[8], bytes[9]));
    sum = oc_add(sum, be16(bytes[12], bytes[13]));
    sum = oc_add(sum, be16(bytes[14], bytes[15]));
    sum = oc_add(sum, be16(bytes[16], bytes[17]));
    sum = oc_add(sum, be16(bytes[18], bytes[19]));
    let complement: u16 = 0xffff - sum;
    if complement == 0 {
        0xffff
    } else {
        complement
    }
}

/// Reserved-zero rule for the checksum field.
///
/// The emitted field is never zero: when the one's-complemented sum comes to
/// zero the field reads `0xffff` instead, and a header whose checksum field
/// holds `0xffff` while the complemented sum is zero passes verification,
/// since the recomputed field is `0xffff` as well.
pub proof fn lemma_checksum_reserved_zero(b: Seq<u8>)
    requires
        b.len() >= 20,
    ensures
        spec_header_checksum(b) != 0,
        0xffff - spec_checksum_sum(b) == 0 ==> spec_header_checksum(b) == 0xffff,
        (b[10] == 0xff && b[11] == 0xff && 0xffff - spec_checksum_sum(b) == 0) ==> spec_be16(
            b[10],
            b[11],
        ) == spec_header_checksum(b),
{
}

/// The three control flag bits of an IPv4 header.
#[derive(Clone, Copy, Debug, PartialEq, Eq, Hash, Structural)]
pub struct ControlFlags(pub u8);

impl ControlFlags {
    pub fn new(byte: u8) -> (r: ControlFlags)
        ensures
            r == ControlFlags(byte),
    {
        ControlFlags(byte)
    }

    /// Whether the don't-fragment bit is clear.
    pub open spec fn spec_may_fragment(self) -> bool {
        self.0 % 4 / 2 == 0
    }

    pub fn may_fragment(&self) -> (r: bool)
        ensures
            r == self.spec_may_fragment(),
    {
        self.0 % 4 / 2 == 0
    }

    /// Whether the more-fragments bit is clear.
    pub open spec fn spec_is_last_fragment(self) -> bool {
        self.0 % 2 == 0
    }

    pub fn is_last_fragment(&self) -> (r: bool)
        ensures
            r == self.spec_is_last_fragment(),
    {
        self.0 % 2 == 0
    }
}

/// The delay bit of the type-of-service field.
#[derive(Clone, Copy, Debug, PartialEq, Eq, PartialOrd, Ord, Hash)]
pub enum Delay {
    Normal,
    Low,
}

impl Delay {
    pub open spec fn spec_try_from(byte: u8) -> Result<Delay, Ipv4Error> {
        if byte == 0 {
            Ok(Delay::Normal)
        } else if byte == 1 {
            Ok(Delay::Low)
        } else {
            Err(Ipv4Error::Delay(byte))
        }
    }

    pub fn try_from(byte: u8) -> (r: Result<Delay, Ipv4Error>)
        ensures
            r == Self::spec_try_from(byte),
    {
        if byte == 0 {
            Ok(Delay::Normal)
        } else if byte == 1 {
            Ok(Delay::Low)
        } else {
            Err(Ipv4Error::Delay(byte))
        }
    }
}

/// The throughput bit of the type-of-service field.
#[derive(Clone, Copy, Debug, PartialEq, Eq, PartialOrd, Ord, Hash)]
pub enum Throughput {
    Normal,
    High,
}

impl Throughput {
    pub open spec fn spec_try_from(byte: u8) -> Result<Throughput, Ipv4Error> {
        if byte == 0 {
            Ok(Throughput::Normal)
        } else if byte == 1 {
            Ok(Throughput::High)
        } else {
            Err(Ipv4Error::Throughput(byte))
        }
    }

    pub fn try_from(byte: u8) -> (r: Result<Throughput, Ipv4Error>)
        ensures
            r == Self::spec_try_from(byte),
    {
        if byte == 0 {
            Ok(Throughput::Normal)
        } else if byte == 1 {
            Ok(Throughput::High)
        } else {
            Err(Ipv4Error::Throughput(byte))
        }
    }
}

/// The reliability bit of the type-of-service field.
#[derive(Clone, Copy, Debug, PartialEq, Eq, PartialOrd, Ord, Hash)]
pub enum Reliability {
    Normal,
    High,
}

impl Reliability {
    pub open spec fn spec_try_from(byte: u8) -> Result<Reliability, Ipv4Error> {
        if byte == 0 {
            Ok(Reliability::Normal)
        } else if byte == 1 {
            Ok(Reliability::High)
        } else {
            Err(Ipv4Error::Reliability(byte))
        }
    }

    pub fn try_from(byte: u8) -> (r: Result<Reliability, Ipv4Error>)
        ensures
            r == Self::spec_try_from(byte),
    {
        if byte == 0 {
            Ok(Reliability::Normal)
        } else if byte == 1 {
            Ok(Reliability::High)
        } else {
            Err(Ipv4Error::Reliability(byte))
        }
    }
}

/// The precedence designation of the type-of-service field.
#[derive(Clone, Copy, Debug, PartialEq, Eq, PartialOrd, Ord, Hash)]
pub enum Precedence {
    NetworkControl,
    InternetworkControl,
    CriticEcp,
    FlashOverride,
    Flash,
    Immediate,
    Priority,
    Routine,
}

impl Precedence {
    pub open spec fn spec_try_from(byte: u8) -> Result<Precedence, Ipv4Error> {
        if byte == 7 {
            Ok(Precedence::NetworkControl)
        } else if byte == 6 {
            Ok(Precedence::InternetworkControl)
        } else if byte == 5 {
            Ok(Precedence::CriticEcp)
        } else if byte == 4 {
            Ok(Precedence::FlashOverride)
        } else if byte == 3 {
            Ok(Precedence::Flash)
        } else if byte == 2 {
            Ok(Precedence::Immediate)
        } else if byte == 1 {
            Ok(Precedence::Priority)
        } else if byte == 0 {
            Ok(Precedence::Routine)
        } else {
            Err(Ipv4Error::Precedence(byte))
        }
    }

    pub fn try_from(byte: u8) -> (r: Result<Precedence, Ipv4Error>)
        ensures
            r == Self::spec_try_from(byte),
    {
        if byte == 7 {
            Ok(Precedence::NetworkControl)
        } else if byte == 6 {
            Ok(Precedence::InternetworkControl)
        } else if byte == 5 {
            Ok(Precedence::CriticEcp)
        } else if byte == 4 {
            Ok(Precedence::FlashOverride)
        } else if byte == 3 {
            Ok(Precedence::Flash)
        } else if byte == 2 {
            Ok(Precedence::Immediate)
        } else if byte == 1 {
            Ok(Precedence::Priority)
        } else if byte == 0 {
            Ok(Precedence::Routine)
        } else {
            Err(Ipv4Error::Precedence(byte))
        }
    }
}

/// The type-of-service byte of an IPv4 header.
#[derive(Clone, Copy, Debug, PartialEq, Eq, Hash, Structural)]
pub struct TypeOfService(pub u8);

impl TypeOfService {
    pub fn new(byte: u8) -> (r: TypeOfService)
        ensures
            r == TypeOfService(byte),
    {
        TypeOfService(byte)
    }

    pub open spec fn spec_precedence(self) -> Precedence {
        match Precedence::spec_try_from(self.0 / 32) {
            Ok(p) => p,
            Err(_) => Precedence::Routine,
        }
    }

    pub fn precedence(&self) -> (r: Precedence)
        ensures
            r == self.spec_precedence(),
    {
        let bits: u8 = self.0 / 32;
        match Precedence::try_from(bits) {
            Ok(p) => p,
            Err(_) => Precedence::Routine,
        }
    }

    pub open spec fn spec_delay(self) -> Delay {
        if self.0 / 16 % 2 == 0 {
            Delay::Normal
        } else {
            Delay::Low
        }
    }

    pub fn delay(&self) -> (r: Delay)
        ensures
            r == self.spec_delay(),
    {
        if self.0 / 16 % 2 == 0 {
            Delay::Normal
        } else {
            Delay::Low
        }
    }

    pub open spec fn spec_throughput(self) -> Throughput {
        if self.0 / 8 % 2 == 0 {
            Throughput::Normal
        } else {
            Throughput::High
        }
    }

    pub fn throughput(&self) -> (r: Throughput)
        ensures
            r == self.spec_throughput(),
    {
        if self.0 / 8 % 2 == 0 {
            Throughput::Normal
        } else {
            Throughput::High
        }
    }

    pub open spec fn spec_reliability(self) -> Reliability {
        if self.0 / 4 % 2 == 0 {
            Reliability::Normal
        } else {
            Reliability::High
        }
    }

    pub fn reliability(&self) -> (r: Reliability)
        ensures
            r == self.spec_reliability(),
    {
        if self.0 / 4 % 2 == 0 {
            Reliability::Normal
        } else {
            Reliability::High
        }
    }
}

/// An IPv4 header with its fields taken apart.
#[derive(Clone, Copy, Debug, PartialEq, Eq, Hash, Structural)]
pub struct Ipv4Header {
    /// The internet header length, in 32-bit words. Always 5 when parsed.
    pub ihl: u8,
    pub type_of_service: TypeOfService,
    pub total_length: u16,
    pub identification: u16,
    pub fragment_offset: u16,
    pub flags: ControlFlags,
    pub time_to_live: u8,
    pub protocol: u8,
    pub checksum: u16,
    pub source: Ipv4Address,
    pub destination: Ipv4Address,
}

/// What parsing the first twenty bytes of `b` yields.
///
/// Rejected are: fewer than twenty bytes, a version other than 4, a header
/// length other than 5, a nonzero reserved type-of-service bit, a set
/// reserved control flag, and a nonzero checksum field that differs from the
/// recomputed checksum. A zero checksum field is accepted unverified.
pub open spec fn spec_parse_header(b: Seq<u8>) -> Result<Ipv4Header, Ipv4Error> {
    if b.len() < 20 {
        Err(Ipv4Error::HeaderTooShort)
    } else if b[0] / 16 != 4 {
        Err(Ipv4Error::IncorrectIpv4Version)
    } else if b[0] % 16 != 5 {
        Err(Ipv4Error::InvalidHeaderLength)
    } else if b[1] % 4 != 0 {
        Err(Ipv4Error::UsedReservedTos)
    } else if spec_be16(b[6], b[7]) / 0x2000 >= 4 {
        Err(Ipv4Error::UsedReservedFlag)
    } else if spec_be16(b[10], b[11]) != 0 && spec_be16(b[10], b[11]) != spec_header_checksum(b) {
        Err(
            Ipv4Error::IncorrectChecksum {
                expected: spec_be16(b[10], b[11]),
                actual: spec_header_checksum(b),
            },
        )
    } else {
        Ok(
            Ipv4Header {
                ihl: (b[0] % 16) as u8,
                type_of_service: TypeOfService(b[1]),
                total_length: spec_be16(b[2], b[3]),
                identification: spec_be16(b[4], b[5]),
                fragment_offset: (spec_be16(b[6], b[7]) % 0x2000) as u16,
                flags: ControlFlags((spec_be16(b[6], b[7]) / 0x2000) as u8),
                time_to_live: b[8],
                protocol: b[9],
                checksum: spec_be16(b[10], b[11]),
                source: Ipv4Address { value: spec_u32_from_octets(b[12], b[13], b[14], b[15]) },
                destination: Ipv4Address {
                    value: spec_u32_from_octets(b[16], b[17], b[18], b[19]),
                },
            },
        )
    }
}

impl Ipv4Header {
    /// Parses the first twenty bytes of `bytes` as an IPv4 header.
    pub fn from_bytes(bytes: &[u8]) -> (r: Result<Ipv4Header, Ipv4Error>)
        ensures
            r == spec_parse_header(bytes@),
    {
        if bytes.len() < 20 {
            return Err(Ipv4Error::HeaderTooShort);
        }
        let version: u8 = bytes[0] / 16;
        if version != 4 {
            return Err(Ipv4Error::IncorrectIpv4Version);
        }
        let ihl: u8 = bytes[0] % 16;
        if ihl != 5 {
            return Err(Ipv4Error::InvalidHeaderLength);
        }
        let tos_byte: u8 = bytes[1];
        if tos_byte % 4 != 0 {
            return Err(Ipv4Error::UsedReservedTos);
        }
        let flags_and_offset: u16 = be16(bytes[6], bytes[7]);
        let control_flag_bits: u8 = (flags_and_offset / 0x2000) as u8;
        if control_flag_bits >= 4 {
            return Err(Ipv4Error::UsedReservedFlag);
        }
        let expected: u16 = be16(bytes[10], bytes[11]);
        if expected != 0 {
            let actual: u16 = compute_header_checksum(bytes);
            if expected != actual {
                return Err(Ipv4Error::IncorrectChecksum { expected, actual });
            }
        }
        Ok(
            Ipv4Header {
                ihl,
                type_of_service: TypeOfService(tos_byte),
                total_length: be16(bytes[2], bytes[3]),
                identification: be16(bytes[4], bytes[5]),
                fragment_offset: flags_and_offset % 0x2000,
                flags: ControlFlags(control_flag_bits),
                time_to_live: bytes[8],
                protocol: bytes[9],
                checksum: expected,
                source: Ipv4Address::from_bytes([bytes[12], bytes[13], bytes[14], bytes[15]]),
                destination: Ipv4Address::from_bytes(
                    [bytes[16], bytes[17], bytes[18], bytes[19]],
                ),
            },
        )
    }
}

/// The twenty header bytes before the checksum field is filled in: version 4,
/// header length 5, zero type of service, total length `payload_len + 20`,
/// zero identification, only the don't-fragment flag set, zero fragment
/// offset, and the given time to live, protocol number and addresses.
pub open spec fn spec_ipv4_base_bytes(
    payload_len: u16,
    time_to_live: u8,
    protocol: u8,
    src: Seq<u8>,
    dst: Seq<u8>,
) -> Seq<u8>
    recommends
        payload_len <= 65515,
        src.len() == 4,
        dst.len() == 4,
{
    let total = (payload_len + 20) as u16;
    seq![
        0x45u8,
        0u8,
        (total / 256) as u8,
        (total % 256) as u8,
        0u8,
        0u8,
        0x40u8,
        0u8,
        time_to_live,
        protocol,
        0u8,
        0u8,
        src[0],
        src[1],
        src[2],
        src[3],
        dst[0],
        dst[1],
        dst[2],
        dst[3],
    ]
}

/// The twenty bytes of a built header, checksum field included.
pub open spec fn spec_ipv4_header_bytes(
    payload_len: u16,
    time_to_live: u8,
    protocol: u8,
    src: u32,
    dst: u32,
) -> Seq<u8>
    recommends
        payload_len <= 65515,
{
    let base = spec_ipv4_base_bytes(
        payload_len,
        time_to_live,
        protocol,
        spec_u32_octets(src),
        spec_u32_octets(dst),
    );
    let cs = spec_header_checksum(base);
    base.update(10, (cs / 256) as u8).update(11, (cs % 256) as u8)
}

/// Relies on etherparse's `Ipv4Header::new` and `Ipv4Header::to_bytes`: a
/// fresh header carries version 4, header length 5, zero type of service,
/// total length `payload_len + 20`, zero identification, only the
/// don't-fragment flag, zero fragment offset, a zero checksum field, and the
/// given time to live, protocol number and addresses, serialized big-endian
/// into exactly twenty bytes. `new` only refuses a payload length above
/// `0xffff - 20`, which the precondition rules out.
#[verifier::external_body]
fn ipv4_base_header_bytes(
    payload_len: u16,
    time_to_live: u8,
    protocol: u8,
    source: [u8; 4],
    destination: [u8; 4],
) -> (r: Vec<u8>)
    requires
        payload_len <= 65515,
    ensures
        r@ == spec_ipv4_base_bytes(payload_len, time_to_live, protocol, source@, destination@),
{
    let header = etherparse::Ipv4Header::new(
        payload_len,
        time_to_live,
        etherparse::IpNumber(protocol),
        source,
        destination,
    ).unwrap();
    header.to_bytes().to_vec()
}

/// Builds the twenty wire bytes of an IPv4 header, with the checksum field
/// filled in under the reserved-zero rule.
pub fn build_header_bytes(
    payload_len: u16,
    time_to_live: u8,
    protocol: u8,
    source: Ipv4Address,
    destination: Ipv4Address,
) -> (r: Vec<u8>)
    requires
        payload_len <= 65515,
    ensures
        r@ == spec_ipv4_header_bytes(
            payload_len,
            time_to_live,
            protocol,
            source.spec_to_u32(),
            destination.spec_to_u32(),
        ),
{
    let mut bytes = ipv4_base_header_bytes(
        payload_len,
        time_to_live,
        protocol,
        source.to_bytes(),
        destination.to_bytes(),
    );
    let cs: u16 = compute_header_checksum(bytes.as_slice());
    bytes[10] = (cs / 256) as u8;
    bytes[11] = (cs % 256) as u8;
    bytes
}

/// Header round trip: a header built from the given fields parses back to
/// exactly those fields, and its checksum verifies, since the stored field
/// equals the recomputed one.
pub proof fn lemma_header_round_trip(
    payload_len: u16,
    time_to_live: u8,
    protocol: u8,
    src: u32,
    dst: u32,
)
    requires
        payload_len <= 65515,
    ensures
        spec_parse_header(
            spec_ipv4_header_bytes(payload_len, time_to_live, protocol, src, dst),
        ) == Ok::<
            Ipv4Header,
            Ipv4Error,
        >(
            Ipv4Header {
                ihl: 5,
                type_of_service: TypeOfService(0),
                total_length: (payload_len + 20) as u16,
                identification: 0,
                fragment_offset: 0,
                flags: ControlFlags(2),
                time_to_live,
                protocol,
                checksum: spec_header_checksum(
                    spec_ipv4_base_bytes(
                        payload_len,
                        time_to_live,
                        protocol,
                        spec_u32_octets(src),
                        spec_u32_octets(dst),
                    ),
                ),
                source: Ipv4Address { value: src },
                destination: Ipv4Address { value: dst },
            },
        ),
{
    let base = spec_ipv4_base_bytes(
        payload_len,
        time_to_live,
        protocol,
        spec_u32_octets(src),
        spec_u32_octets(dst),
    );
    let cs = spec_header_checksum(base);
    let b = spec_ipv4_header_bytes(payload_len, time_to_live, protocol, src, dst);
    assert(b.len() == 20);
    assert(b[0] == 0x45 && b[1] == 0 && b[4] == 0 && b[5] == 0 && b[6] == 0x40 && b[7] == 0);
    assert(b[10] == (cs / 256) as u8 && b[11] == (cs % 256) as u8);
    lemma_be16_round_trip(cs);
    lemma_be16_round_trip((payload_len + 20) as u16);
    assert(spec_checksum_sum(b) == spec_checksum_sum(base));
    crate::ipv4_address::lemma_u32_octets_round_trip(src);
    crate::ipv4_address::lemma_u32_octets_round_trip(dst);
    assert(spec_be16(b[6], b[7]) == 0x4000);
}

} // verus!

