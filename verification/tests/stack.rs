use elvis::applications::capture_id;
use elvis::control::{Control, ProtocolContext, SessionRef};
use elvis::ipv4::{Identifier, Ipv4, Ipv4Error};
use elvis::message::Message;
use elvis::protocol_id::{ipv4_id, udp_id};
use elvis::tap::{SessionId, Tap, TapError};
use elvis::udp::{Udp, UdpError};

fn participants(
    local_address: u32,
    local_port: u16,
    remote_address: u32,
    remote_port: u16,
) -> Control {
    let mut c = Control::new();
    c.local_address = Some(local_address);
    c.local_port = Some(local_port);
    c.remote_address = Some(remote_address);
    c.remote_port = Some(remote_port);
    c
}

#[test]
fn tap_frames_outgoing_messages() {
    let mut tap = Tap::new();
    let mut c = Control::new();
    c.network_index = Some(3);
    let sid = tap.open_active(ipv4_id(), &c).unwrap();
    assert_eq!(sid, SessionId::new(ipv4_id(), 3));
    tap.send_on(sid, &Message::new(b"pay".to_vec())).unwrap();
    let outgoing = tap.outgoing();
    assert_eq!(outgoing.len(), 1);
    let (network, frames) = &outgoing[0];
    assert_eq!(*network, 3);
    assert_eq!(frames.len(), 1);
    // The two-byte header encodes IPv4's id: network layer 1, code 4.
    assert_eq!(frames[0].bytes(), &b"\x01\x04pay".to_vec());
    // The queue was drained.
    let again = tap.outgoing();
    assert_eq!(again[0].1.len(), 0);
}

#[test]
fn tap_requires_network_index() {
    let mut tap = Tap::new();
    assert_eq!(
        tap.open_active(ipv4_id(), &Control::new()),
        Err(TapError::MissingNetworkIndex)
    );
}

#[test]
fn tap_send_on_unknown_session_fails() {
    let mut tap = Tap::new();
    let sid = SessionId::new(ipv4_id(), 0);
    assert_eq!(
        tap.send_on(sid, &Message::new(Vec::new())),
        Err(TapError::SessionNotFound)
    );
}

#[test]
fn ipv4_second_listen_fails_and_keeps_first() {
    let mut ipv4 = Ipv4::new();
    let p = participants(10, 0, 20, 0);
    ipv4.listen(udp_id(), &p).unwrap();
    assert_eq!(ipv4.listen(udp_id(), &p), Err(Ipv4Error::BindingExists(10)));
    // The first binding still routes: an active open on another pair works,
    // and a fresh listen for another address is accepted.
    let p2 = participants(11, 0, 20, 0);
    ipv4.listen(udp_id(), &p2).unwrap();
}

#[test]
fn ipv4_second_open_fails_with_session_exists() {
    let mut ipv4 = Ipv4::new();
    let mut tap = Tap::new();
    let p = participants(10, 0, 20, 0);
    let key = ipv4.open_active(udp_id(), &p, &mut tap).unwrap();
    assert_eq!(key, Identifier::new(10, 20));
    assert_eq!(
        ipv4.open_active(udp_id(), &p, &mut tap),
        Err(Ipv4Error::SessionExists(10, 20))
    );
}

#[test]
fn ipv4_open_requires_addresses() {
    let mut ipv4 = Ipv4::new();
    let mut tap = Tap::new();
    let mut p = Control::new();
    assert_eq!(
        ipv4.open_active(udp_id(), &p, &mut tap),
        Err(Ipv4Error::MissingSourceAddress)
    );
    p.local_address = Some(1);
    assert_eq!(
        ipv4.open_active(udp_id(), &p, &mut tap),
        Err(Ipv4Error::MissingDestinationAddress)
    );
}

#[test]
fn udp_second_open_fails_with_session_exists() {
    let mut udp = Udp::new();
    let mut ipv4 = Ipv4::new();
    let mut tap = Tap::new();
    let p = participants(10, 1000, 20, 2000);
    udp.open_active(capture_id(), &p, &mut ipv4, &mut tap).unwrap();
    assert_eq!(
        udp.open_active(capture_id(), &p, &mut ipv4, &mut tap),
        Err(UdpError::SessionExists)
    );
}

#[test]
fn udp_second_listen_fails_with_binding_exists() {
    let mut udp = Udp::new();
    let mut ipv4 = Ipv4::new();
    let p = participants(10, 1000, 0, 0);
    udp.listen(capture_id(), &p, &mut ipv4).unwrap();
    assert_eq!(
        udp.listen(capture_id(), &p, &mut ipv4),
        Err(UdpError::BindingExists(10, 1000))
    );
}

#[test]
fn udp_listen_same_address_other_port_hits_ipv4_binding() {
    // UDP accepts the new port, but IPv4 is already bound to the address,
    // and its refusal is handed back.
    let mut udp = Udp::new();
    let mut ipv4 = Ipv4::new();
    udp.listen(capture_id(), &participants(10, 1000, 0, 0), &mut ipv4).unwrap();
    assert_eq!(
        udp.listen(capture_id(), &participants(10, 1001, 0, 0), &mut ipv4),
        Err(UdpError::Ipv4(Ipv4Error::BindingExists(10)))
    );
}

#[test]
fn udp_demux_without_binding_is_missing_session() {
    let mut udp = Udp::new();
    let mut context = ProtocolContext::new();
    context.info.local_address = Some(10);
    context.info.remote_address = Some(20);
    context.current_session = Some(SessionRef::Ipv4(Identifier::new(10, 20)));
    // An eight-byte UDP header for ports 7 -> 9 and no payload.
    let datagram = Message::new(vec![0, 7, 0, 9, 0, 8, 0, 0]);
    assert_eq!(udp.demux(&datagram, &mut context).unwrap_err(), UdpError::MissingSession);
    // The ports were still recorded for the benefit of diagnostics.
    assert_eq!(context.info.local_port, Some(9));
    assert_eq!(context.info.remote_port, Some(7));
}

#[test]
fn udp_demux_short_header_fails() {
    let mut udp = Udp::new();
    let mut context = ProtocolContext::new();
    context.info.local_address = Some(10);
    context.info.remote_address = Some(20);
    context.current_session = Some(SessionRef::Ipv4(Identifier::new(10, 20)));
    let datagram = Message::new(vec![1, 2, 3]);
    assert_eq!(udp.demux(&datagram, &mut context).unwrap_err(), UdpError::HeaderTooShort);
}

#[test]
fn udp_open_requires_every_key() {
    let mut udp = Udp::new();
    let mut ipv4 = Ipv4::new();
    let mut tap = Tap::new();
    let mut p = Control::new();
    assert_eq!(
        udp.open_active(capture_id(), &p, &mut ipv4, &mut tap),
        Err(UdpError::MissingLocalPort)
    );
    p.local_port = Some(1);
    assert_eq!(
        udp.open_active(capture_id(), &p, &mut ipv4, &mut tap),
        Err(UdpError::MissingRemotePort)
    );
    p.remote_port = Some(2);
    assert_eq!(
        udp.open_active(capture_id(), &p, &mut ipv4, &mut tap),
        Err(UdpError::MissingLocalAddress)
    );
    p.local_address = Some(3);
    assert_eq!(
        udp.open_active(capture_id(), &p, &mut ipv4, &mut tap),
        Err(UdpError::MissingRemoteAddress)
    );
}
