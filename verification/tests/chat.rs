use p2p_chat::chat::{
    Chat, ChatCloseType, Command, PollStep, ReadOutcome, Reply, SessionState, POLL_INTERVAL_SECS,
};
use p2p_chat::codec::{encode_handshake, HandshakeError};
use p2p_chat::connection::{Connection, PeerAddress};

fn chat() -> Chat<u32> {
    Chat::new(1, 42, String::from("Bob"), 99)
}

fn data(bytes: &[u8]) -> ReadOutcome {
    ReadOutcome::Data(bytes.to_vec())
}

#[test]
fn close_types_differ() {
    assert_ne!(ChatCloseType::Minimize, ChatCloseType::Close);
}

#[test]
fn new_chat_is_active_and_silent() {
    let chat = chat();
    assert_eq!(chat.local_id(), 1);
    assert_eq!(chat.id(), 42);
    assert_eq!(chat.name(), "Bob");
    assert_eq!(*chat.stream(), 99);
    assert_eq!(chat.state(), SessionState::Active);
    assert!(chat.messages().is_empty());
}

#[test]
fn handshake_makes_a_chat_with_what_the_peer_declared() {
    let frame = encode_handshake(42, "Bob");
    let chat = Chat::from_tcp_stream(5u32, 1, &frame).unwrap();
    assert_eq!(chat, Chat::new(1, 42, String::from("Bob"), 5u32));
}

#[test]
fn handshake_fails_on_a_short_identity() {
    assert_eq!(Chat::from_tcp_stream(5u32, 1, &[0, 0, 0]), Err(HandshakeError::Incomplete));
}

#[test]
fn handshake_fails_on_a_name_that_is_not_utf8() {
    let frame = [0, 0, 0, 0, 0, 0, 0, 42, 0xc0, 0x80];
    assert_eq!(Chat::from_tcp_stream(5u32, 1, &frame), Err(HandshakeError::Malformed));
}

#[test]
fn handshake_on_a_connection() {
    let connection = Connection::new(PeerAddress { host: 0x7f00_0001, port: 4000 }, 5u32);
    let chat = connection.handshake(1, &encode_handshake(42, "Bob")).unwrap();
    assert_eq!(chat.id(), 42);
    assert_eq!(chat.name(), "Bob");
    assert_eq!(*chat.stream(), 5);
    let connection = Connection::new(PeerAddress { host: 0x7f00_0001, port: 4000 }, 5u32);
    assert_eq!(connection.handshake(1, &[1, 2]), Err(HandshakeError::Incomplete));
}

#[test]
fn command_of_a_line() {
    assert_eq!(Chat::<u32>::command("hello\n"), Command::Send(String::from("hello")));
    assert_eq!(Chat::<u32>::command("/exit\n"), Command::Exit);
    assert_eq!(Chat::<u32>::command(" /exit\n"), Command::Send(String::from(" /exit")));
    assert_eq!(Chat::<u32>::command("/exit now\n"), Command::Send(String::from("/exit now")));
    assert_eq!(Chat::<u32>::command("/EXIT\n"), Command::Send(String::from("/EXIT")));
    assert_eq!(Chat::<u32>::command("越 é\n"), Command::Send(String::from("越 é")));
}

#[test]
fn command_loses_only_the_line_feed_at_its_end() {
    assert_eq!(Chat::<u32>::command("hi  \n"), Command::Send(String::from("hi  ")));
    assert_eq!(
        Chat::<u32>::command("  hi there  \r\n"),
        Command::Send(String::from("  hi there  \r"))
    );
    assert_eq!(Chat::<u32>::command("/exit  \n"), Command::Send(String::from("/exit  ")));
    assert_eq!(Chat::<u32>::command("/exit\r\n"), Command::Send(String::from("/exit\r")));
    assert_eq!(Chat::<u32>::command("   \n"), Command::Send(String::from("   ")));
    assert_eq!(Chat::<u32>::command("\n\n"), Command::Send(String::from("\n")));
}

#[test]
fn empty_or_unfinished_line_asks_for_nothing() {
    assert_eq!(Chat::<u32>::command(""), Command::Ignore);
    assert_eq!(Chat::<u32>::command("\n"), Command::Ignore);
    assert_eq!(Chat::<u32>::command("hello"), Command::Ignore);
    assert_eq!(Chat::<u32>::command("/exit"), Command::Ignore);
    assert_eq!(Chat::<u32>::command("hello\n "), Command::Ignore);
    assert_eq!(Chat::<u32>::command("x"), Command::Ignore);
}

#[test]
fn check_new_message_makes_a_message_of_a_read() {
    let message = Chat::<u32>::check_new_message(42, &data(b"hello\n")).unwrap();
    assert_eq!(message.chat_id(), 42);
    assert_eq!(message.text(), "hello");
}

#[test]
fn check_new_message_finds_none_where_nothing_came() {
    assert_eq!(Chat::<u32>::check_new_message(42, &ReadOutcome::WouldBlock), None);
    assert_eq!(Chat::<u32>::check_new_message(42, &ReadOutcome::Closed), None);
    assert_eq!(Chat::<u32>::check_new_message(42, &ReadOutcome::Failed), None);
    assert_eq!(Chat::<u32>::check_new_message(42, &data(&[])), None);
    assert_eq!(Chat::<u32>::check_new_message(42, &data(&[0xff])), None);
}

#[test]
fn send_message_records_the_message_and_hands_over_its_frame() {
    let mut chat = chat();
    assert_eq!(chat.send_message(String::from("hello")), Some(b"hello".to_vec()));
    assert_eq!(chat.messages().len(), 1);
    let sent = chat.messages().last().unwrap();
    assert_eq!(sent.chat_id(), 1);
    assert_eq!(sent.text(), "hello");
    assert_eq!(chat.state(), SessionState::Active);
    assert_eq!(chat.id(), 42);
    assert_eq!(chat.name(), "Bob");
}

#[test]
fn send_message_keeps_the_order_of_sending() {
    let mut chat = chat();
    chat.send_message(String::from("one"));
    chat.send_message(String::from("two"));
    assert_eq!(chat.messages().get(0).unwrap().text(), "one");
    assert_eq!(chat.messages().get(1).unwrap().text(), "two");
}

#[test]
fn send_message_does_nothing_once_the_session_is_over() {
    let mut chat = chat();
    chat.exit();
    assert_eq!(chat.send_message(String::from("late")), None);
    chat.joined();
    assert_eq!(chat.send_message(String::from("later")), None);
    assert!(chat.messages().is_empty());
}

#[test]
fn poll_records_what_the_peer_sent() {
    let mut chat = chat();
    let step = chat.poll(&data(b"hello\n"));
    assert_eq!(step, PollStep { received: true, sleep: false, stop: false });
    assert_eq!(chat.messages().len(), 1);
    let received = chat.messages().last().unwrap();
    assert_eq!(received.chat_id(), 42);
    assert_eq!(received.text(), "hello");
}

#[test]
fn poll_interval_is_one_second() {
    assert_eq!(POLL_INTERVAL_SECS, 1);
}

#[test]
fn poll_waits_where_no_message_came() {
    let mut chat = chat();
    let wait = PollStep { received: false, sleep: true, stop: false };
    assert_eq!(chat.poll(&ReadOutcome::WouldBlock), wait);
    assert_eq!(chat.poll(&ReadOutcome::Closed), wait);
    assert_eq!(chat.poll(&ReadOutcome::Failed), wait);
    assert_eq!(chat.poll(&data(&[])), wait);
    assert_eq!(chat.poll(&data(&[0xff, 0xff])), wait);
    assert!(chat.messages().is_empty());
    assert_eq!(chat.state(), SessionState::Active);
}

#[test]
fn poll_stops_once_the_operator_has_left() {
    let mut chat = chat();
    chat.exit();
    assert_eq!(
        chat.poll(&ReadOutcome::WouldBlock),
        PollStep { received: false, sleep: true, stop: true }
    );
    assert_eq!(chat.poll(&data(b"bye")), PollStep { received: true, sleep: false, stop: true });
    assert_eq!(chat.messages().len(), 1);
    chat.joined();
    assert_eq!(chat.poll(&data(b"gone")), PollStep { received: false, sleep: false, stop: true });
    assert_eq!(chat.messages().len(), 1);
}

#[test]
fn exit_then_join_ends_the_session() {
    let mut chat = chat();
    assert!(chat.exit());
    assert_eq!(chat.state(), SessionState::Terminating);
    chat.joined();
    assert_eq!(chat.state(), SessionState::Terminated);
}

#[test]
fn exit_on_a_terminated_session_changes_nothing() {
    let mut chat = chat();
    chat.send_message(String::from("hi"));
    chat.exit();
    chat.joined();
    let before = format!("{:?}", chat);
    assert!(!chat.exit());
    assert!(!chat.exit());
    assert_eq!(chat.state(), SessionState::Terminated);
    assert_eq!(format!("{:?}", chat), before);
}

#[test]
fn exit_signals_the_receiver_only_once() {
    let mut chat = chat();
    assert!(chat.exit());
    assert!(!chat.exit());
    assert_eq!(chat.state(), SessionState::Terminating);
}

#[test]
fn joined_changes_only_a_terminating_session() {
    let mut chat = chat();
    chat.joined();
    assert_eq!(chat.state(), SessionState::Active);
    chat.exit();
    chat.joined();
    chat.joined();
    assert_eq!(chat.state(), SessionState::Terminated);
}

#[test]
fn enter_sends_a_line_of_text() {
    let mut chat = chat();
    assert_eq!(chat.enter("hello\n"), Reply::Write(b"hello".to_vec()));
    assert_eq!(chat.messages().len(), 1);
    assert_eq!(chat.messages().last().unwrap().chat_id(), 1);
    assert_eq!(chat.messages().last().unwrap().text(), "hello");
}

#[test]
fn enter_sends_the_line_as_it_stands_without_its_line_feed() {
    let mut chat = chat();
    assert_eq!(chat.enter("hi  \n"), Reply::Write(b"hi  ".to_vec()));
    assert_eq!(chat.messages().last().unwrap().text(), "hi  ");
    assert_eq!(chat.enter("/exit  \n"), Reply::Write(b"/exit  ".to_vec()));
    assert_eq!(chat.state(), SessionState::Active);
    assert_eq!(chat.enter("/exit\n"), Reply::Leave);
}

#[test]
fn enter_passes_over_an_empty_line() {
    let mut chat = chat();
    assert_eq!(chat.enter("\n"), Reply::Nothing);
    assert_eq!(chat.enter("no line feed"), Reply::Nothing);
    assert!(chat.messages().is_empty());
    assert_eq!(chat.state(), SessionState::Active);
}

#[test]
fn enter_leaves_on_the_exit_command() {
    let mut chat = chat();
    assert_eq!(chat.enter("/exit\n"), Reply::Leave);
    assert_eq!(chat.state(), SessionState::Terminating);
    assert_eq!(chat.enter("/exit\n"), Reply::Nothing);
    assert_eq!(chat.enter("hello\n"), Reply::Nothing);
    assert!(chat.messages().is_empty());
}

#[test]
fn what_one_end_sends_the_other_receives_without_trailing_white_space() {
    let mut alice: Chat<u32> = Chat::new(1, 2, String::from("Bob"), 0);
    let mut bob: Chat<u32> = Chat::new(2, 1, String::from("Alice"), 0);
    for text in ["hello", "hello  ", "  two words\t", "越 é ", " ", "x\u{a0}"] {
        let frame = alice.send_message(String::from(text)).unwrap();
        let step = bob.poll(&ReadOutcome::Data(frame));
        assert!(step.received);
        let received = bob.messages().last().unwrap();
        assert_eq!(received.text(), text.trim_end());
        assert_eq!(received.chat_id(), 1);
    }
    assert_eq!(alice.messages().len(), 6);
    assert_eq!(bob.messages().len(), 6);
}

#[test]
fn an_empty_text_sent_is_never_received() {
    let mut alice: Chat<u32> = Chat::new(1, 2, String::from("Bob"), 0);
    let mut bob: Chat<u32> = Chat::new(2, 1, String::from("Alice"), 0);
    let frame = alice.send_message(String::new()).unwrap();
    assert!(frame.is_empty());
    assert!(!bob.poll(&ReadOutcome::Data(frame)).received);
    assert!(bob.messages().is_empty());
}
