use elvis::control::{Control, ProtocolContext};
use elvis::message::Message;
use elvis::protocol_id::{ipv4_id, udp_id, NetworkLayer, ProtocolId};

#[test]
fn framing_round_trip() {
    // Prepending a header and slicing it off again leaves the body.
    let body = Message::new(b"Body".to_vec());
    let framed = body.with_header(&b"Header".to_vec());
    assert_eq!(framed.bytes(), &b"HeaderBody".to_vec());
    let sliced = framed.slice(6);
    assert_eq!(sliced.bytes(), body.bytes());
}

#[test]
fn slicing_is_not_mutation() {
    let original = Message::new(b"abcdef".to_vec());
    let sliced = original.slice(2);
    assert_eq!(sliced.bytes(), &b"cdef".to_vec());
    assert_eq!(original.bytes(), &b"abcdef".to_vec());
    let clone = original.clone();
    assert_eq!(clone.bytes(), original.bytes());
}

#[test]
fn empty_message_and_full_slice() {
    let empty = Message::new(Vec::new());
    assert_eq!(empty.len(), 0);
    let m = Message::new(b"xy".to_vec());
    let all_gone = m.slice(2);
    assert_eq!(all_gone.len(), 0);
}

#[test]
fn protocol_id_encoding_round_trip() {
    let id = ProtocolId::new(NetworkLayer::Transport, 17);
    assert_eq!(id, udp_id());
    assert_eq!(id.to_u16(), 0x0211);
    assert_eq!(ProtocolId::from_u16(0x0211), Ok(id));
    assert_eq!(ipv4_id().to_u16(), 0x0104);
}

#[test]
fn protocol_id_rejects_bad_layer() {
    let r = ProtocolId::from_u16(0x0700);
    assert!(r.is_err());
    assert_eq!(r.unwrap_err().code, 7);
}

#[test]
fn fresh_control_is_empty() {
    let control = Control::new();
    assert_eq!(control.local_address, None);
    assert_eq!(control.remote_address, None);
    assert_eq!(control.local_port, None);
    assert_eq!(control.remote_port, None);
    assert_eq!(control.network_index, None);
    assert_eq!(control.protocol_id, None);
    let context = ProtocolContext::new();
    assert!(context.current_session.is_none());
}
