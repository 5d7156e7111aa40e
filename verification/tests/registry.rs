use p2p_chat::connection::{Connection, PeerAddress};
use p2p_chat::listener::{Listener, ListenerState};
use p2p_chat::registry::{IndexError, PendingRequestRegistry};

fn peer(last: u32, port: u16) -> PeerAddress {
    PeerAddress { host: 0x7f00_0000 + last, port }
}

fn connection(last: u32, stream: u32) -> Connection<u32> {
    Connection::new(peer(last, 9000), stream)
}

#[test]
fn address_is_shown_with_dots_and_a_colon() {
    assert_eq!(PeerAddress { host: 0x7f00_0001, port: 9090 }.to_string(), "127.0.0.1:9090");
    assert_eq!(PeerAddress { host: 0x0a0a_0e84, port: 777 }.to_string(), "10.10.14.132:777");
    assert_eq!(PeerAddress { host: 0, port: 0 }.to_string(), "0.0.0.0:0");
    assert_eq!(PeerAddress { host: u32::MAX, port: u16::MAX }.to_string(), "255.255.255.255:65535");
}

#[test]
fn connection_holds_address_and_stream() {
    let c = Connection::new(peer(1, 5), "stream");
    assert_eq!(c.peer_address, peer(1, 5));
    assert_eq!(c.stream, "stream");
}

#[test]
fn new_registry_is_empty() {
    let registry: PendingRequestRegistry<u32> = PendingRequestRegistry::new();
    assert!(registry.is_empty());
    assert_eq!(registry.len(), 0);
    assert_eq!(registry.list(), Vec::<PeerAddress>::new());
}

#[test]
fn enqueue_files_behind_those_that_wait() {
    let mut registry = PendingRequestRegistry::new();
    registry.enqueue(connection(1, 10));
    registry.enqueue(connection(2, 20));
    registry.enqueue(connection(3, 30));
    assert!(!registry.is_empty());
    assert_eq!(registry.len(), 3);
    assert_eq!(registry.list(), vec![peer(1, 9000), peer(2, 9000), peer(3, 9000)]);
}

#[test]
fn take_hands_over_the_entry_that_was_listed_at_the_index() {
    let mut registry = PendingRequestRegistry::new();
    registry.enqueue(connection(1, 10));
    registry.enqueue(connection(2, 20));
    registry.enqueue(connection(3, 30));
    let listed = registry.list();
    let taken = registry.take(1).unwrap();
    assert_eq!(taken.peer_address, listed[1]);
    assert_eq!(taken.stream, 20);
}

#[test]
fn take_moves_later_entries_down_by_one() {
    let mut registry = PendingRequestRegistry::new();
    registry.enqueue(connection(1, 10));
    registry.enqueue(connection(2, 20));
    registry.enqueue(connection(3, 30));
    assert_eq!(registry.take(0), Ok(connection(1, 10)));
    assert_eq!(registry.list(), vec![peer(2, 9000), peer(3, 9000)]);
    assert_eq!(registry.take(0), Ok(connection(2, 20)));
    assert_eq!(registry.list(), vec![peer(3, 9000)]);
}

#[test]
fn take_of_the_last_entry_leaves_its_index_unused() {
    let mut registry = PendingRequestRegistry::new();
    registry.enqueue(connection(1, 10));
    registry.enqueue(connection(2, 20));
    assert_eq!(registry.take(1), Ok(connection(2, 20)));
    assert_eq!(registry.list(), vec![peer(1, 9000)]);
    assert_eq!(registry.take(1), Err(IndexError { index: 1, len: 1 }));
}

#[test]
fn take_beyond_the_end_fails_and_changes_nothing() {
    let mut registry = PendingRequestRegistry::new();
    assert_eq!(registry.take(0), Err(IndexError { index: 0, len: 0 }));
    registry.enqueue(connection(1, 10));
    assert_eq!(registry.take(1), Err(IndexError { index: 1, len: 1 }));
    assert_eq!(registry.take(usize::MAX), Err(IndexError { index: usize::MAX, len: 1 }));
    assert_eq!(registry.list(), vec![peer(1, 9000)]);
}

#[test]
fn enqueue_between_list_and_take_does_not_disturb_the_listed_indices() {
    let mut registry = PendingRequestRegistry::new();
    registry.enqueue(connection(1, 10));
    registry.enqueue(connection(2, 20));
    let listed = registry.list();
    registry.enqueue(connection(3, 30));
    let taken = registry.take(1).unwrap();
    assert_eq!(taken.peer_address, listed[1]);
    assert_eq!(registry.list(), vec![peer(1, 9000), peer(3, 9000)]);
}

#[test]
fn listener_starts_stopped() {
    let listener = Listener::new();
    assert_eq!(listener.state(), ListenerState::Stopped);
    assert!(!listener.is_listening());
    assert!(!listener.launched());
}

#[test]
fn toggle_flips_the_switch_and_launches_the_loop_once() {
    let mut listener = Listener::new();
    assert!(listener.toggle());
    assert_eq!(listener.state(), ListenerState::Listening);
    assert!(listener.is_listening());
    assert!(listener.launched());
    assert!(!listener.toggle());
    assert_eq!(listener.state(), ListenerState::Stopped);
    assert!(listener.launched());
    assert!(!listener.toggle());
    assert_eq!(listener.state(), ListenerState::Listening);
}

#[test]
fn set_listening_sets_the_switch() {
    let mut listener = Listener::new();
    assert!(!listener.set_listening(false));
    assert_eq!(listener.state(), ListenerState::Stopped);
    assert!(!listener.launched());
    assert!(listener.set_listening(true));
    assert_eq!(listener.state(), ListenerState::Listening);
    assert!(!listener.set_listening(true));
    assert_eq!(listener.state(), ListenerState::Listening);
    assert!(!listener.set_listening(false));
    assert_eq!(listener.state(), ListenerState::Stopped);
    assert!(listener.launched());
}

#[test]
fn stopped_listener_hands_every_connection_back() {
    let listener = Listener::new();
    let mut registry = PendingRequestRegistry::new();
    assert_eq!(listener.accept(&mut registry, connection(1, 10)), Some(connection(1, 10)));
    assert_eq!(listener.accept(&mut registry, connection(2, 20)), Some(connection(2, 20)));
    assert!(registry.is_empty());
    assert_eq!(registry.list(), Vec::<PeerAddress>::new());
}

#[test]
fn listening_listener_files_every_connection_once_and_in_order() {
    let mut listener = Listener::new();
    listener.toggle();
    let mut registry = PendingRequestRegistry::new();
    assert_eq!(listener.accept(&mut registry, connection(1, 10)), None);
    assert_eq!(listener.accept(&mut registry, connection(2, 20)), None);
    assert_eq!(listener.accept(&mut registry, connection(3, 30)), None);
    assert_eq!(registry.list(), vec![peer(1, 9000), peer(2, 9000), peer(3, 9000)]);
}

#[test]
fn connections_accepted_while_stopped_never_show_later() {
    let mut listener = Listener::new();
    let mut registry = PendingRequestRegistry::new();
    listener.toggle();
    listener.accept(&mut registry, connection(1, 10));
    listener.toggle();
    listener.accept(&mut registry, connection(2, 20));
    listener.toggle();
    listener.accept(&mut registry, connection(3, 30));
    assert_eq!(registry.list(), vec![peer(1, 9000), peer(3, 9000)]);
}
