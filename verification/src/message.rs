//! Messages and the transcript of a chat: an ordered record to which
//! messages are added and from which none is ever taken.

use crate::clock::{clock_text, Timestamp};
use vstd::prelude::*;
use vstd::string::StringExecFns;

verus! {

/// What a [`Message`] holds.
pub struct MessageView {
    /// The identity of whoever wrote the message.
    pub chat_id: u64,
    pub text: Seq<char>,
    pub date: Timestamp,
}

/// One line of a chat, with its author and the time at which it was recorded.
#[derive(Clone, Debug, PartialEq, Eq)]
pub struct Message {
    chat_id: u64,
    text: String,
    date: Timestamp,
}

impl View for Message {
    type V = MessageView;

    closed spec fn view(&self) -> MessageView {
        MessageView { chat_id: self.chat_id, text: self.text@, date: self.date }
    }
}

/// A message as it is shown: the text, then the time of day in brackets.
pub open spec fn shown(message: MessageView) -> Seq<char> {
    message.text + seq![' ', '('] + clock_text(
        message.date@.hour,
        message.date@.minute,
        message.date@.second,
    ) + seq![')']
}

impl Message {
    /// A message written by `chat_id`, recorded at the current local time.
    pub fn new(chat_id: u64, text: String) -> (message: Message)
        ensures
            message@.chat_id == chat_id,
            message@.text == text@,
    {
        Message { chat_id, text, date: Timestamp::now() }
    }

    /// A message written by `chat_id` and recorded at `date`.
    pub fn stamped(chat_id: u64, text: String, date: Timestamp) -> (message: Message)
        ensures
            message@ == (MessageView { chat_id, text: text@, date }),
    {
        Message { chat_id, text, date }
    }

    /// The identity of whoever wrote the message.
    pub fn chat_id(&self) -> (chat_id: u64)
        ensures
            chat_id == self@.chat_id,
    {
        self.chat_id
    }

    /// The text of the message.
    pub fn text(&self) -> (text: &str)
        ensures
            text@ == self@.text,
    {
        self.text.as_str()
    }

    /// The time of day at which the message was recorded.
    pub fn date(&self) -> (date: Timestamp)
        ensures
            date == self@.date,
    {
        self.date
    }

    /// The message as it is shown, such as `hello (09:05:00)`.
    pub fn to_string(&self) -> (line: String)
        ensures
            line@ == shown(self@),
    {
        let clock = self.date.to_string();
        let mut line = self.text.clone();
        proof {
            reveal_strlit(" (");
            reveal_strlit(")");
            assert(" ("@ == seq![' ', '(']);
            assert(")"@ == seq![')']);
        }
        line.append(" (");
        line.append(clock.as_str());
        line.append(")");
        line
    }
}

/// The messages of a chat in the order in which they were recorded.
#[derive(Clone, Debug, PartialEq, Eq)]
pub struct Transcript {
    messages: Vec<Message>,
}

impl View for Transcript {
    type V = Seq<MessageView>;

    closed spec fn view(&self) -> Seq<MessageView> {
        self.messages@.map_values(|m: Message| m@)
    }
}

impl Transcript {
    /// An empty transcript.
    pub fn new() -> (transcript: Transcript)
        ensures
            transcript@ == Seq::<MessageView>::empty(),
    {
        Transcript { messages: Vec::new() }
    }

    /// Adds `message` at the end; what was recorded before stays as it was.
    pub fn append(&mut self, message: Message)
        ensures
            final(self)@ == old(self)@.push(message@),
    {
        self.messages.push(message);
        assert(self.messages@.map_values(|m: Message| m@) == old(self).messages@.map_values(
            |m: Message| m@,
        ).push(message@));
    }

    /// The number of messages recorded.
    pub fn len(&self) -> (len: usize)
        ensures
            len == self@.len(),
    {
        self.messages.len()
    }

    /// Whether nothing has been recorded yet.
    pub fn is_empty(&self) -> (empty: bool)
        ensures
            empty == (self@.len() == 0),
    {
        self.messages.len() == 0
    }

    /// The message at `index`, counted from the oldest, if there is one.
    pub fn get(&self, index: usize) -> (message: Option<&Message>)
        ensures
            message is Some <==> index < self@.len(),
            message matches Some(m) ==> m@ == self@[index as int],
    {
        if index < self.messages.len() {
            Some(&self.messages[index])
        } else {
            None
        }
    }

    /// The message recorded last, if there is one.
    pub fn last(&self) -> (message: Option<&Message>)
        ensures
            message is Some <==> self@.len() > 0,
            message matches Some(m) ==> m@ == self@.last(),
    {
        let len = self.messages.len();
        if len > 0 {
            Some(&self.messages[len - 1])
        } else {
            None
        }
    }
}

} // verus!
