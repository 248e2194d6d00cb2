use elvis::applications::{capture_id, Capture, UserProcess};
use elvis::control::{ControlFlow, ProtocolContext, SessionRef};
use elvis::ipv4::{Identifier, Ipv4, Ipv4Error, Ipv4Session};
use elvis::machine::{Machine, MachineContext, MachineError};
use elvis::message::Message;
use elvis::protocol_id::udp_id;
use elvis::tap::{SessionId, Tap, TapError};
use elvis::udp::{Udp, UdpError};

fn idle_machine_with_capture() -> Machine {
    let apps = vec![UserProcess::Capture(Capture::listen_on(10, 7))];
    let mut machine = Machine::new(Tap::new(), Ipv4::new(), Udp::new(), apps);
    let mut context = MachineContext::new(Vec::new());
    assert_eq!(machine.awake(&mut context), ControlFlow::Continue);
    machine
}

#[test]
fn one_byte_frame_is_too_short_for_the_tap() {
    let mut machine = idle_machine_with_capture();
    let r = machine.deliver(&Message::new(vec![1]), 0);
    assert_eq!(r.unwrap_err(), MachineError::Tap(TapError::HeaderLength));
}

#[test]
fn invalid_layer_byte_is_rejected_by_the_tap() {
    let mut machine = idle_machine_with_capture();
    let r = machine.deliver(&Message::new(vec![9, 0, 1, 2]), 0);
    match r.unwrap_err() {
        MachineError::Tap(TapError::InvalidProtocolId(e)) => assert_eq!(e.code, 9),
        other => panic!("unexpected error {:?}", other),
    }
}

#[test]
fn frame_for_unknown_protocol_is_rejected() {
    // Layer 3 is the user layer; no application has code 9.
    let mut machine = idle_machine_with_capture();
    let r = machine.deliver(&Message::new(vec![3, 9, 1, 2]), 0);
    match r.unwrap_err() {
        MachineError::Tap(TapError::NoSuchProtocol(id)) => assert_eq!(id.to_u16(), 0x0309),
        other => panic!("unexpected error {:?}", other),
    }
}

#[test]
fn ipv4_frame_without_listen_binding_is_rejected() {
    // A syntactically fine frame for an address nobody listens on.
    let mut machine = idle_machine_with_capture();
    let header = elvis::ipv4_parsing::build_header_bytes(
        0,
        30,
        17,
        elvis::ipv4_address::Ipv4Address::new(99),
        elvis::ipv4_address::Ipv4Address::new(98),
    );
    let mut frame = vec![1, 4];
    frame.extend_from_slice(&header);
    let r = machine.deliver(&Message::new(frame), 0);
    assert_eq!(
        r.unwrap_err(),
        MachineError::Ipv4(Ipv4Error::MissingListenBinding(98))
    );
}

#[test]
fn ipv4_session_refuses_unknown_upstream() {
    let mut tap = Tap::new();
    let session = Ipv4Session {
        upstream: capture_id(),
        downstream: SessionId::new(udp_id(), 0),
        identifier: Identifier::new(1, 2),
    };
    assert_eq!(
        session.send(&Message::new(Vec::new()), &mut tap),
        Err(Ipv4Error::UnknownUpstreamProtocol)
    );
}

#[test]
fn ipv4_session_without_tap_session_cannot_send() {
    let mut tap = Tap::new();
    let session = Ipv4Session {
        upstream: udp_id(),
        downstream: SessionId::new(udp_id(), 0),
        identifier: Identifier::new(1, 2),
    };
    assert_eq!(
        session.send(&Message::new(Vec::new()), &mut tap),
        Err(Ipv4Error::MissingSession(1, 2))
    );
}

#[test]
fn udp_demux_needs_the_addresses_from_ipv4() {
    let mut udp = Udp::new();
    let datagram = Message::new(vec![0, 7, 0, 9, 0, 8, 0, 0]);
    let mut context = ProtocolContext::new();
    context.current_session = Some(SessionRef::Ipv4(Identifier::new(10, 20)));
    assert_eq!(
        udp.demux(&datagram, &mut context).unwrap_err(),
        UdpError::MissingLocalAddress
    );
    context.info.local_address = Some(10);
    assert_eq!(
        udp.demux(&datagram, &mut context).unwrap_err(),
        UdpError::MissingRemoteAddress
    );
}
