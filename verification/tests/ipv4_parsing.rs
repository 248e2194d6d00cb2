use elvis::ipv4::Ipv4Error;
use elvis::ipv4_address::Ipv4Address;
use elvis::ipv4_parsing::{
    build_header_bytes, compute_header_checksum, ControlFlags, Delay, Ipv4Header, Precedence,
    Reliability, Throughput, TypeOfService,
};

#[test]
fn parses_basic_header() {
    let payload = "Hello, world!";
    let ttl = 30;
    let protocol = etherparse::IpNumber::UDP;
    let source = [127, 0, 0, 1];
    let destination = [123, 45, 67, 89];
    let valid_header = etherparse::Ipv4Header::new(
        payload.len().try_into().unwrap(),
        ttl,
        protocol,
        source,
        destination,
    )
    .unwrap();
    let mut serial_header = vec![];
    valid_header.write(&mut serial_header).unwrap();
    let parsed = Ipv4Header::from_bytes(serial_header.as_slice()).unwrap();
    assert_eq!(parsed.ihl, valid_header.ihl());
    assert_eq!(parsed.type_of_service.delay(), Delay::Normal);
    assert_eq!(parsed.type_of_service.throughput(), Throughput::Normal);
    assert_eq!(parsed.type_of_service.reliability(), Reliability::Normal);
    assert_eq!(parsed.type_of_service.precedence(), Precedence::Routine);
    assert_eq!(parsed.total_length, valid_header.total_len);
    assert_eq!(parsed.identification, valid_header.identification);
    assert_eq!(parsed.flags.is_last_fragment(), !valid_header.more_fragments);
    assert_eq!(parsed.flags.may_fragment(), valid_header.is_fragmenting_payload());
    assert_eq!(parsed.fragment_offset, 0);
    assert_eq!(parsed.time_to_live, valid_header.time_to_live);
    assert_eq!(parsed.protocol, valid_header.protocol.0);
    assert_eq!(parsed.checksum, valid_header.calc_header_checksum());
    assert_eq!(parsed.source.to_bytes(), valid_header.source);
    assert_eq!(parsed.destination.to_bytes(), valid_header.destination);
}

fn plain_header_bytes() -> Vec<u8> {
    // version 4, ihl 5, zero tos, total length 20, nothing else set,
    // checksum field zero (accepted unverified).
    let mut bytes = vec![0u8; 20];
    bytes[0] = 0x45;
    bytes[3] = 20;
    bytes
}

#[test]
fn built_header_round_trips() {
    let source = Ipv4Address::new(0x7f000001);
    let destination = Ipv4Address::new(0x0a000002);
    let built = build_header_bytes(13, 30, 17, source, destination);
    assert_eq!(built.len(), 20);
    let parsed = Ipv4Header::from_bytes(built.as_slice()).unwrap();
    assert_eq!(parsed.ihl, 5);
    assert_eq!(parsed.total_length, 33);
    assert_eq!(parsed.identification, 0);
    assert_eq!(parsed.fragment_offset, 0);
    assert_eq!(parsed.time_to_live, 30);
    assert_eq!(parsed.protocol, 17);
    assert_eq!(parsed.source.to_u32(), 0x7f000001);
    assert_eq!(parsed.destination.to_u32(), 0x0a000002);
    assert_ne!(parsed.checksum, 0);
}

#[test]
fn built_header_matches_reference_serialization() {
    // The same fields serialized by etherparse end in the same twenty
    // bytes, checksum included.
    let built = build_header_bytes(
        13,
        30,
        17,
        Ipv4Address::new(0x7f000001),
        Ipv4Address::new(0x7b2d4359),
    );
    let reference = etherparse::Ipv4Header::new(
        13,
        30,
        etherparse::IpNumber::UDP,
        [127, 0, 0, 1],
        [123, 45, 67, 89],
    )
    .unwrap();
    let mut serial = vec![];
    reference.write(&mut serial).unwrap();
    assert_eq!(built, serial);
}

#[test]
fn rejects_wrong_version() {
    let mut bytes = plain_header_bytes();
    bytes[0] = 0x65;
    assert_eq!(
        Ipv4Header::from_bytes(bytes.as_slice()),
        Err(Ipv4Error::IncorrectIpv4Version)
    );
}

#[test]
fn rejects_wrong_header_length() {
    let mut bytes = plain_header_bytes();
    bytes[0] = 0x46;
    assert_eq!(
        Ipv4Header::from_bytes(bytes.as_slice()),
        Err(Ipv4Error::InvalidHeaderLength)
    );
}

#[test]
fn rejects_reserved_tos_bits() {
    let mut bytes = plain_header_bytes();
    bytes[1] = 0b0000_0001;
    assert_eq!(
        Ipv4Header::from_bytes(bytes.as_slice()),
        Err(Ipv4Error::UsedReservedTos)
    );
}

#[test]
fn rejects_reserved_flag() {
    let mut bytes = plain_header_bytes();
    bytes[6] = 0b1000_0000;
    assert_eq!(
        Ipv4Header::from_bytes(bytes.as_slice()),
        Err(Ipv4Error::UsedReservedFlag)
    );
}

#[test]
fn rejects_short_header() {
    let bytes = vec![0x45u8; 19];
    assert_eq!(
        Ipv4Header::from_bytes(bytes.as_slice()),
        Err(Ipv4Error::HeaderTooShort)
    );
}

#[test]
fn accepts_zero_checksum_without_verification() {
    // Any content passes when the checksum field is zero.
    let mut bytes = plain_header_bytes();
    bytes[4] = 0xde;
    bytes[5] = 0xad;
    let parsed = Ipv4Header::from_bytes(bytes.as_slice()).unwrap();
    assert_eq!(parsed.checksum, 0);
    assert_eq!(parsed.identification, 0xdead);
}

#[test]
fn rejects_wrong_nonzero_checksum() {
    let mut bytes = plain_header_bytes();
    bytes[10] = 0x12;
    bytes[11] = 0x34;
    let expected_field = 0x1234;
    let actual = compute_header_checksum(bytes.as_slice());
    assert_eq!(
        Ipv4Header::from_bytes(bytes.as_slice()),
        Err(Ipv4Error::IncorrectChecksum { expected: expected_field, actual })
    );
}

#[test]
fn checksum_zero_is_emitted_as_all_ones() {
    // Words: 0x4500 from the first byte pair and 0xbaff from the
    // identification field sum to 0xffff, whose one's complement is zero,
    // so the emitted field is 0xffff, and a header carrying it verifies.
    let mut bytes = vec![0u8; 20];
    bytes[0] = 0x45;
    bytes[2] = 0;
    bytes[3] = 0;
    bytes[4] = 0xba;
    bytes[5] = 0xff;
    assert_eq!(compute_header_checksum(bytes.as_slice()), 0xffff);
    bytes[10] = 0xff;
    bytes[11] = 0xff;
    let parsed = Ipv4Header::from_bytes(bytes.as_slice()).unwrap();
    assert_eq!(parsed.checksum, 0xffff);
}

#[test]
fn type_of_service_fields() {
    let tos = TypeOfService::new(0b1011_1000);
    assert_eq!(tos.precedence(), Precedence::CriticEcp);
    assert_eq!(tos.delay(), Delay::Low);
    assert_eq!(tos.throughput(), Throughput::High);
    assert_eq!(tos.reliability(), Reliability::Normal);
}

#[test]
fn type_of_service_try_from_errors() {
    assert_eq!(Delay::try_from(2), Err(Ipv4Error::Delay(2)));
    assert_eq!(Throughput::try_from(9), Err(Ipv4Error::Throughput(9)));
    assert_eq!(Reliability::try_from(3), Err(Ipv4Error::Reliability(3)));
    assert_eq!(Precedence::try_from(8), Err(Ipv4Error::Precedence(8)));
    assert_eq!(Precedence::try_from(0b110), Ok(Precedence::InternetworkControl));
}

#[test]
fn control_flags_bits() {
    let flags = ControlFlags::new(0b010);
    assert!(!flags.may_fragment());
    assert!(flags.is_last_fragment());
    let flags = ControlFlags::new(0b001);
    assert!(flags.may_fragment());
    assert!(!flags.is_last_fragment());
}

#[test]
fn address_conversions() {
    let address = Ipv4Address::new(0x7b2d4359);
    assert_eq!(address.to_bytes(), [123, 45, 67, 89]);
    assert_eq!(address.to_u32(), 0x7b2d4359);
    assert_eq!(Ipv4Address::from_bytes([123, 45, 67, 89]), address);
    assert_eq!(Ipv4Address::localhost().to_bytes(), [127, 0, 0, 1]);
}
