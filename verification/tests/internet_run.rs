use elvis::applications::{Capture, SendMessage, UserProcess};
use elvis::internet::Internet;
use elvis::ipv4::Ipv4;
use elvis::machine::Machine;
use elvis::message::Message;
use elvis::network::{Network, PhysicalAddress};
use elvis::tap::Tap;
use elvis::udp::Udp;

fn capture_of(machine: &Machine, index: usize) -> &Capture {
    match machine.app_at(index) {
        UserProcess::Capture(c) => c,
        _ => panic!("expected a capture"),
    }
}

#[test]
fn loopback_capture() {
    // One machine runs both a sender and a capture on localhost; the
    // message goes out onto the network during one tick and comes back to
    // the same machine on the next.
    let apps = vec![
        UserProcess::Capture(Capture::new()),
        UserProcess::SendMessage(SendMessage::new("Hello!")),
    ];
    let machine = Machine::new(Tap::new(), Ipv4::new(), Udp::new(), apps);
    let mut internet = Internet::new(
        vec![machine],
        vec![Network::new()],
        vec![vec![0]],
    );
    internet.run();
    let stored = capture_of(internet.machine_at(0), 0).message().unwrap();
    assert_eq!(stored.bytes(), &b"Hello!".to_vec());
}

#[test]
fn two_machine_exchange() {
    let sender = Machine::new(
        Tap::new(),
        Ipv4::new(),
        Udp::new(),
        vec![UserProcess::SendMessage(SendMessage::new_to(
            "Ping",
            0x0a000001,
            1000,
            0x0a000002,
            2000,
        ))],
    );
    let receiver = Machine::new(
        Tap::new(),
        Ipv4::new(),
        Udp::new(),
        vec![UserProcess::Capture(Capture::listen_on(0x0a000002, 2000))],
    );
    let mut internet = Internet::new(
        vec![sender, receiver],
        vec![Network::new()],
        vec![vec![0], vec![0]],
    );
    internet.run();
    let stored = capture_of(internet.machine_at(1), 0).message().unwrap();
    assert_eq!(stored.bytes(), &b"Ping".to_vec());
    // The sender's own capture-free stack stored nothing, and the run ended.
}

#[test]
fn idle_simulation_stops() {
    let machine = Machine::new(Tap::new(), Ipv4::new(), Udp::new(), Vec::new());
    let mut internet = Internet::new(
        vec![machine],
        vec![Network::new()],
        vec![vec![0]],
    );
    // No sender and no capture: nothing to do, and the run returns.
    internet.run();
}

#[test]
fn network_delivers_only_after_advance() {
    // A message sent during a tick is not pending during that tick; after
    // the boundary every machine the address covers observes it.
    let mut network = Network::new();
    network.send(PhysicalAddress::Broadcast, Message::new(b"late".to_vec()));
    assert_eq!(network.pending_for(0).len(), 0);
    assert_eq!(network.pending_for(1).len(), 0);
    network.advance();
    let for_zero = network.pending_for(0);
    assert_eq!(for_zero.len(), 1);
    assert_eq!(for_zero[0].bytes(), &b"late".to_vec());
    assert_eq!(network.pending_for(1).len(), 1);
    // Advancing again clears what was pending.
    network.advance();
    assert_eq!(network.pending_for(0).len(), 0);
}

#[test]
fn recipient_address_reaches_only_its_machine() {
    let mut network = Network::new();
    network.send(PhysicalAddress::Recipient(2), Message::new(b"direct".to_vec()));
    network.advance();
    assert_eq!(network.pending_for(2).len(), 1);
    assert_eq!(network.pending_for(1).len(), 0);
}

#[test]
fn pending_kept_in_send_order() {
    let mut network = Network::new();
    network.send(PhysicalAddress::Broadcast, Message::new(b"one".to_vec()));
    network.send(PhysicalAddress::Broadcast, Message::new(b"two".to_vec()));
    network.advance();
    let pending = network.pending_for(0);
    assert_eq!(pending[0].bytes(), &b"one".to_vec());
    assert_eq!(pending[1].bytes(), &b"two".to_vec());
}
