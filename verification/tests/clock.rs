use p2p_chat::clock::Timestamp;
use p2p_chat::message::{Message, Transcript};

#[test]
fn timestamp_needs_a_time_of_day() {
    assert!(Timestamp::new(0, 0, 0).is_some());
    assert!(Timestamp::new(23, 59, 59).is_some());
    assert!(Timestamp::new(24, 0, 0).is_none());
    assert!(Timestamp::new(0, 60, 0).is_none());
    assert!(Timestamp::new(0, 0, 60).is_none());
}

#[test]
fn timestamp_gives_back_its_numbers() {
    let time = Timestamp::new(9, 5, 0).unwrap();
    assert_eq!(time.hour(), 9);
    assert_eq!(time.minute(), 5);
    assert_eq!(time.second(), 0);
}

#[test]
fn timestamp_is_shown_in_two_digits_each() {
    assert_eq!(Timestamp::new(9, 5, 0).unwrap().to_string(), "09:05:00");
    assert_eq!(Timestamp::new(0, 0, 0).unwrap().to_string(), "00:00:00");
    assert_eq!(Timestamp::new(23, 59, 59).unwrap().to_string(), "23:59:59");
    assert_eq!(Timestamp::new(12, 34, 56).unwrap().to_string(), "12:34:56");
    assert_eq!(Timestamp::new(10, 10, 10).unwrap().to_string(), "10:10:10");
}

#[test]
fn now_is_a_time_of_day() {
    let time = Timestamp::now();
    assert!(time.hour() < 24);
    assert!(time.minute() < 60);
    assert!(time.second() < 60);
    assert_eq!(Timestamp::new(time.hour(), time.minute(), time.second()), Some(time));
    assert_eq!(time.to_string().len(), 8);
}

#[test]
fn message_keeps_what_it_was_made_of() {
    let date = Timestamp::new(9, 5, 0).unwrap();
    let message = Message::stamped(42, String::from("hello"), date);
    assert_eq!(message.chat_id(), 42);
    assert_eq!(message.text(), "hello");
    assert_eq!(message.date(), date);
}

#[test]
fn message_is_shown_with_its_time_in_brackets() {
    let date = Timestamp::new(9, 5, 0).unwrap();
    assert_eq!(Message::stamped(42, String::from("hello"), date).to_string(), "hello (09:05:00)");
    assert_eq!(Message::stamped(1, String::new(), date).to_string(), " (09:05:00)");
}

#[test]
fn new_message_is_stamped_with_a_time_of_day() {
    let message = Message::new(7, String::from("hi"));
    assert_eq!(message.chat_id(), 7);
    assert_eq!(message.text(), "hi");
    assert!(message.date().hour() < 24);
    let shown = message.to_string();
    assert!(shown.starts_with("hi ("));
    assert!(shown.ends_with(')'));
    assert_eq!(shown.len(), 2 + 2 + 8 + 1);
}

#[test]
fn transcript_keeps_messages_in_order() {
    let date = Timestamp::new(1, 2, 3).unwrap();
    let mut transcript = Transcript::new();
    assert!(transcript.is_empty());
    assert_eq!(transcript.len(), 0);
    assert_eq!(transcript.last(), None);
    assert_eq!(transcript.get(0), None);

    let first = Message::stamped(1, String::from("one"), date);
    let second = Message::stamped(2, String::from("two"), date);
    transcript.append(first.clone());
    transcript.append(second.clone());

    assert!(!transcript.is_empty());
    assert_eq!(transcript.len(), 2);
    assert_eq!(transcript.get(0), Some(&first));
    assert_eq!(transcript.get(1), Some(&second));
    assert_eq!(transcript.get(2), None);
    assert_eq!(transcript.last(), Some(&second));
}
