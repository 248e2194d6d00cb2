use elvis::applications::{Capture, SendMessage, UserProcess};
use elvis::control::ControlFlow;
use elvis::ipv4::{Ipv4, Ipv4Error};
use elvis::ipv4_address::Ipv4Address;
use elvis::ipv4_parsing::build_header_bytes;
use elvis::machine::{Machine, MachineContext, MachineError};
use elvis::message::Message;
use elvis::tap::Tap;
use elvis::udp::{Udp, UdpError};

/// A full UDP-in-IPv4 frame as it would arrive off a network.
fn udp_frame(
    source: u32,
    source_port: u16,
    destination: u32,
    destination_port: u16,
    payload: &[u8],
) -> Message {
    let length = (payload.len() + 8) as u16;
    let mut udp_header = vec![
        (source_port / 256) as u8,
        (source_port % 256) as u8,
        (destination_port / 256) as u8,
        (destination_port % 256) as u8,
        (length / 256) as u8,
        (length % 256) as u8,
        0,
        0,
    ];
    udp_header.extend_from_slice(payload);
    let ipv4_header = build_header_bytes(
        length,
        30,
        17,
        Ipv4Address::new(source),
        Ipv4Address::new(destination),
    );
    let mut frame = vec![1, 4];
    frame.extend_from_slice(&ipv4_header);
    frame.extend_from_slice(&udp_header);
    Message::new(frame)
}

fn listening_machine(address: u32, port: u16) -> Machine {
    let apps = vec![UserProcess::Capture(Capture::listen_on(address, port))];
    let mut machine = Machine::new(Tap::new(), Ipv4::new(), Udp::new(), apps);
    // One idle tick so the capture registers its listen binding.
    let mut context = MachineContext::new(Vec::new());
    assert_eq!(machine.awake(&mut context), ControlFlow::Continue);
    machine
}

#[test]
fn demux_delivers_payload_and_keys() {
    let mut machine = listening_machine(0x0a000002, 2000);
    let frame = udp_frame(0x0a000001, 1000, 0x0a000002, 2000, b"Hello!");
    let context = machine.deliver(&frame, 5).unwrap();
    assert_eq!(context.info.local_address, Some(0x0a000002));
    assert_eq!(context.info.remote_address, Some(0x0a000001));
    assert_eq!(context.info.local_port, Some(2000));
    assert_eq!(context.info.remote_port, Some(1000));
    assert_eq!(context.info.network_index, Some(5));
    match machine.app_at(0) {
        UserProcess::Capture(capture) => {
            let stored = capture.message().unwrap();
            assert_eq!(stored.bytes(), &b"Hello!".to_vec());
        },
        _ => panic!("expected the capture"),
    }
}

#[test]
fn demux_without_binding_is_missing_session() {
    // The machine listens on port 2000; a frame for port 2001 matches no
    // session and no binding.
    let mut machine = listening_machine(0x0a000002, 2000);
    let frame = udp_frame(0x0a000001, 1000, 0x0a000002, 2001, b"Hi");
    assert_eq!(
        machine.deliver(&frame, 0).unwrap_err(),
        MachineError::Udp(UdpError::MissingSession)
    );
    match machine.app_at(0) {
        UserProcess::Capture(capture) => assert!(capture.message().is_none()),
        _ => panic!("expected the capture"),
    }
}

#[test]
fn demux_rejects_bad_version_frame() {
    let mut machine = listening_machine(0x0a000002, 2000);
    let frame = udp_frame(0x0a000001, 1000, 0x0a000002, 2000, b"Hi");
    let mut bytes = frame.bytes().clone();
    // Flip the version nibble to 6; keep everything else.
    bytes[2] = 0x65;
    assert_eq!(
        machine.deliver(&Message::new(bytes), 0).unwrap_err(),
        MachineError::Ipv4(Ipv4Error::IncorrectIpv4Version)
    );
    match machine.app_at(0) {
        UserProcess::Capture(capture) => assert!(capture.message().is_none()),
        _ => panic!("expected the capture"),
    }
}

#[test]
fn sender_queues_full_frame_for_its_network() {
    let apps = vec![UserProcess::SendMessage(SendMessage::new_to(
        "Ping",
        0x0a000001,
        1000,
        0x0a000002,
        2000,
    ))];
    let mut machine = Machine::new(Tap::new(), Ipv4::new(), Udp::new(), apps);
    let mut context = MachineContext::new(Vec::new());
    assert_eq!(machine.awake(&mut context), ControlFlow::Continue);
    assert_eq!(context.outgoing.len(), 1);
    let (network, frame) = &context.outgoing[0];
    assert_eq!(*network, 0);
    let expected = udp_frame(0x0a000001, 1000, 0x0a000002, 2000, b"Ping");
    assert_eq!(frame.bytes(), expected.bytes());
}
