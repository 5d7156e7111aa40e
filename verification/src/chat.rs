//! The chat session: a handshaken connection with its transcript, and the
//! decisions of its two loops.
//!
//! A session is `Active` from the handshake on. The operator's exit command
//! makes it `Terminating`: the receiver is signalled once, and once it has
//! stopped the session is `Terminated`. Whoever runs the loops performs the
//! reads, the writes and the waiting; what to make of each line and each read
//! is decided here.

use crate::codec::{
    decode_handshake, decode_message, encode_message, lemma_message_round_trip, message_frame,
    parsed_handshake, parsed_message, HandshakeError, MESSAGE_CAP,
};
use crate::connection::Connection;
use crate::message::{Message, MessageView, Transcript};
use crate::text::{chars_of, is_white_space, trimmed_end};
use vstd::prelude::*;
use vstd::string::StringExecFns;

verus! {

/// The seconds that the receiver waits after a read that brought no message.
pub const POLL_INTERVAL_SECS: u64 = 1;

/// How the operator leaves the view of a chat.
#[derive(Clone, Copy, Debug, PartialEq, Eq, Structural)]
pub enum ChatCloseType {
    Minimize,
    Close,
}

/// Where a session stands in its life.
#[derive(Clone, Copy, Debug, PartialEq, Eq, Structural)]
pub enum SessionState {
    /// Messages are sent and received.
    Active,
    /// The operator has left; the receiver has been told to stop.
    Terminating,
    /// The receiver has stopped.
    Terminated,
}

/// What a non-blocking read on the stream of a session came back with.
#[derive(Clone, Debug, PartialEq, Eq)]
pub enum ReadOutcome {
    /// These bytes were read.
    Data(Vec<u8>),
    /// Nothing has arrived yet.
    WouldBlock,
    /// The peer has closed the connection.
    Closed,
    /// The read failed in another way.
    Failed,
}

/// What the operator asks for with one line of input.
#[derive(Clone, Debug, PartialEq, Eq)]
pub enum Command {
    /// Nothing: the line is unfinished or empty.
    Ignore,
    /// To leave the chat.
    Exit,
    /// To send this text.
    Send(String),
}

/// What is to be done for a line that the operator entered.
#[derive(Clone, Debug, PartialEq, Eq)]
pub enum Reply {
    /// Nothing.
    Nothing,
    /// Write these bytes to the stream.
    Write(Vec<u8>),
    /// Signal the receiver to stop, and wait until it has.
    Leave,
}

/// What the receiver does after one read.
#[derive(Clone, Copy, Debug, PartialEq, Eq, Structural)]
pub struct PollStep {
    /// A message was added to the transcript.
    pub received: bool,
    /// Wait for [`POLL_INTERVAL_SECS`] before going on.
    pub sleep: bool,
    /// Stop: the session is no longer active.
    pub stop: bool,
}

/// The text of the exit command.
pub open spec fn exit_command() -> Seq<char> {
    seq!['/', 'e', 'x', 'i', 't']
}

/// What the operator asks for with `line`, as plain values: nothing, to leave,
/// or to send a text.
pub enum CommandView {
    Ignore,
    Exit,
    Send(Seq<char>),
}

impl View for Command {
    type V = CommandView;

    open spec fn view(&self) -> CommandView {
        match self {
            Command::Ignore => CommandView::Ignore,
            Command::Exit => CommandView::Exit,
            Command::Send(text) => CommandView::Send(text@),
        }
    }
}

/// What a line of input asks for. A line counts once it ends in a line feed.
/// Without that line feed, an empty line asks for nothing, the exit command
/// asks to leave, and any other text is to be sent as it stands.
pub open spec fn parsed_command(line: Seq<char>) -> CommandView {
    if line.len() <= 1 || line.last() != '\n' {
        CommandView::Ignore
    } else if line.drop_last() == exit_command() {
        CommandView::Exit
    } else {
        CommandView::Send(line.drop_last())
    }
}

/// The text that the receiver makes of a read, if any.
pub open spec fn read_text(read: ReadOutcome) -> Option<Seq<char>> {
    match read {
        ReadOutcome::Data(bytes) => parsed_message(bytes@),
        _ => None,
    }
}

/// The state that follows the operator's exit command.
pub open spec fn after_exit(state: SessionState) -> SessionState {
    match state {
        SessionState::Active => SessionState::Terminating,
        other => other,
    }
}

/// The state that follows once the receiver has stopped.
pub open spec fn after_join(state: SessionState) -> SessionState {
    match state {
        SessionState::Terminating => SessionState::Terminated,
        other => other,
    }
}

/// What a [`Chat`] holds.
pub struct ChatView<S> {
    /// The identity of this end.
    pub local_id: u64,
    /// The identity that the peer declared in the handshake.
    pub id: u64,
    /// The name that the peer declared in the handshake.
    pub name: Seq<char>,
    pub stream: S,
    pub messages: Seq<MessageView>,
    pub state: SessionState,
}

/// A session with one peer.
#[derive(Debug, PartialEq, Eq)]
pub struct Chat<S> {
    local_id: u64,
    id: u64,
    name: String,
    stream: S,
    messages: Transcript,
    state: SessionState,
}

impl<S> View for Chat<S> {
    type V = ChatView<S>;

    closed spec fn view(&self) -> ChatView<S> {
        ChatView {
            local_id: self.local_id,
            id: self.id,
            name: self.name@,
            stream: self.stream,
            messages: self.messages@,
            state: self.state,
        }
    }
}

impl<S> Chat<S> {
    /// An active session between `local_id` at this end and the peer that
    /// declared `id` and `name`, with nothing said yet.
    pub fn new(local_id: u64, id: u64, name: String, stream: S) -> (chat: Chat<S>)
        ensures
            chat@ == (ChatView {
                local_id,
                id,
                name: name@,
                stream,
                messages: Seq::<MessageView>::empty(),
                state: SessionState::Active,
            }),
    {
        Chat { local_id, id, name, stream, messages: Transcript::new(), state: SessionState::Active }
    }

    /// Completes the handshake on `stream` with the frame that arrived from
    /// the peer: an active session with the identity and the name that the
    /// frame declares.
    ///
    /// Fails with `Incomplete` where fewer than the eight bytes of the
    /// identity arrived, and with `Malformed` where the name is not valid
    /// UTF-8. The stream is then dropped.
    pub fn from_tcp_stream(stream: S, local_id: u64, frame: &[u8]) -> (chat: Result<
        Chat<S>,
        HandshakeError,
    >)
        ensures
            match parsed_handshake(frame@) {
                Ok((id, name)) => chat matches Ok(c) && c@ == (ChatView {
                    local_id,
                    id,
                    name,
                    stream,
                    messages: Seq::<MessageView>::empty(),
                    state: SessionState::Active,
                }),
                Err(e) => chat matches Err(f) && f == e,
            },
    {
        match decode_handshake(frame) {
            Ok(peer) => Ok(Chat::new(local_id, peer.id, peer.name, stream)),
            Err(e) => Err(e),
        }
    }

    /// The identity of this end.
    pub fn local_id(&self) -> (local_id: u64)
        ensures
            local_id == self@.local_id,
    {
        self.local_id
    }

    /// The identity that the peer declared.
    pub fn id(&self) -> (id: u64)
        ensures
            id == self@.id,
    {
        self.id
    }

    /// The name that the peer declared.
    pub fn name(&self) -> (name: &str)
        ensures
            name@ == self@.name,
    {
        self.name.as_str()
    }

    /// The stream to the peer.
    pub fn stream(&self) -> (stream: &S)
        ensures
            *stream == self@.stream,
    {
        &self.stream
    }

    /// Where the session stands.
    pub fn state(&self) -> (state: SessionState)
        ensures
            state == self@.state,
    {
        self.state
    }

    /// What was said so far.
    pub fn messages(&self) -> (messages: &Transcript)
        ensures
            messages@ == self@.messages,
    {
        &self.messages
    }

    /// What a line of input asks for.
    pub fn command(line: &str) -> (command: Command)
        ensures
            command@ == parsed_command(line@),
    {
        let chars = chars_of(line);
        let len = chars.len();
        if len <= 1 || chars[len - 1] != '\n' {
            return Command::Ignore;
        }
        let text = line.substring_char(0, len - 1).to_owned();
        assert(text@ == line@.drop_last());
        proof {
            reveal_strlit("/exit");
            assert("/exit"@ == exit_command());
        }
        let exit = String::from_str("/exit");
        if text == exit {
            Command::Exit
        } else {
            Command::Send(text)
        }
    }

    /// The message, written by `chat_id`, that a read brought, if it brought
    /// one: none where nothing arrived, where the peer has closed, where the
    /// read failed or where the bytes are not valid UTF-8.
    pub fn check_new_message(chat_id: u64, read: &ReadOutcome) -> (message: Option<Message>)
        ensures
            message is Some <==> read_text(*read) is Some,
            message matches Some(m) ==> m@.chat_id == chat_id && Some(m@.text) == read_text(*read),
    {
        match read {
            ReadOutcome::Data(bytes) => match decode_message(bytes.as_slice()) {
                Some(text) => Some(Message::new(chat_id, text)),
                None => None,
            },
            _ => None,
        }
    }

    /// Sends `message`: while the session is active, the message is added to
    /// the transcript as written by this end, and its frame is handed over to
    /// be written to the stream. Otherwise nothing happens.
    pub fn send_message(&mut self, message: String) -> (frame: Option<Vec<u8>>)
        ensures
            old(self)@.state == SessionState::Active ==> {
                &&& frame matches Some(bytes)
                &&& bytes@ == message_frame(message@)
                &&& final(self)@.messages.len() == old(self)@.messages.len() + 1
                &&& final(self)@.messages.drop_last() == old(self)@.messages
                &&& final(self)@.messages.last().chat_id == old(self)@.local_id
                &&& final(self)@.messages.last().text == message@
                &&& final(self)@ == (ChatView { messages: final(self)@.messages, ..old(self)@ })
            },
            old(self)@.state != SessionState::Active ==> frame is None && final(self)@ == old(
                self,
            )@,
    {
        match self.state {
            SessionState::Active => {
                let frame = encode_message(message.as_str());
                let sent = Message::new(self.local_id, message);
                self.messages.append(sent);
                assert(self@.messages.drop_last() == old(self)@.messages);
                Some(frame)
            },
            _ => None,
        }
    }

    /// One turn of the receiver, on what its read came back with.
    ///
    /// Unless the session is terminated, a read that brought a message adds
    /// it to the transcript as written by the peer, and any other read asks
    /// for a wait. The receiver stops as soon as the session is no longer
    /// active. On a terminated session nothing happens.
    pub fn poll(&mut self, read: &ReadOutcome) -> (step: PollStep)
        ensures
            step.stop == (old(self)@.state != SessionState::Active),
            old(self)@.state == SessionState::Terminated ==> !step.received && !step.sleep
                && final(self)@ == old(self)@,
            old(self)@.state != SessionState::Terminated ==> {
                &&& step.received == read_text(*read) is Some
                &&& step.sleep == !step.received
            },
            !step.received ==> final(self)@ == old(self)@,
            step.received ==> {
                &&& final(self)@.messages.len() == old(self)@.messages.len() + 1
                &&& final(self)@.messages.drop_last() == old(self)@.messages
                &&& final(self)@.messages.last().chat_id == old(self)@.id
                &&& Some(final(self)@.messages.last().text) == read_text(*read)
                &&& final(self)@ == (ChatView { messages: final(self)@.messages, ..old(self)@ })
            },
    {
        let stop = match self.state {
            SessionState::Active => false,
            _ => true,
        };
        match self.state {
            SessionState::Terminated => PollStep { received: false, sleep: false, stop },
            _ => match Chat::<S>::check_new_message(self.id, read) {
                Some(message) => {
                    self.messages.append(message);
                    assert(self@.messages.drop_last() == old(self)@.messages);
                    PollStep { received: true, sleep: false, stop }
                },
                None => PollStep { received: false, sleep: true, stop },
            },
        }
    }

    /// The operator's exit command. On an active session it returns `true`:
    /// the receiver is to be signalled and waited for. On any other session
    /// it changes nothing and returns `false`.
    pub fn exit(&mut self) -> (signal: bool)
        ensures
            signal == (old(self)@.state == SessionState::Active),
            final(self)@ == (ChatView { state: after_exit(old(self)@.state), ..old(self)@ }),
    {
        match self.state {
            SessionState::Active => {
                self.state = SessionState::Terminating;
                true
            },
            _ => false,
        }
    }

    /// The receiver has stopped: a terminating session is terminated.
    pub fn joined(&mut self)
        ensures
            final(self)@ == (ChatView { state: after_join(old(self)@.state), ..old(self)@ }),
    {
        match self.state {
            SessionState::Terminating => {
                self.state = SessionState::Terminated;
            },
            _ => {},
        }
    }

    /// Acts on a line that the operator entered: the exit command ends the
    /// session, any other text is sent as it stands, an empty or unfinished
    /// line is passed over.
    pub fn enter(&mut self, line: &str) -> (reply: Reply)
        ensures
            match parsed_command(line@) {
                CommandView::Ignore => reply == Reply::Nothing && final(self)@ == old(self)@,
                CommandView::Exit => {
                    &&& final(self)@ == (ChatView {
                        state: after_exit(old(self)@.state),
                        ..old(self)@
                    })
                    &&& reply == if old(self)@.state == SessionState::Active {
                        Reply::Leave
                    } else {
                        Reply::Nothing
                    }
                },
                CommandView::Send(text) => if old(self)@.state == SessionState::Active {
                    &&& reply matches Reply::Write(bytes)
                    &&& bytes@ == message_frame(text)
                    &&& final(self)@.messages.len() == old(self)@.messages.len() + 1
                    &&& final(self)@.messages.drop_last() == old(self)@.messages
                    &&& final(self)@.messages.last().chat_id == old(self)@.local_id
                    &&& final(self)@.messages.last().text == text
                    &&& final(self)@ == (ChatView {
                        messages: final(self)@.messages,
                        ..old(self)@
                    })
                } else {
                    reply == Reply::Nothing && final(self)@ == old(self)@
                },
            },
    {
        match Chat::<S>::command(line) {
            Command::Ignore => Reply::Nothing,
            Command::Exit => if self.exit() {
                Reply::Leave
            } else {
                Reply::Nothing
            },
            Command::Send(text) => match self.send_message(text) {
                Some(frame) => Reply::Write(frame),
                None => Reply::Nothing,
            },
        }
    }
}

impl<S> Connection<S> {
    /// Completes the handshake on this connection with the frame that arrived
    /// from the peer. See [`Chat::from_tcp_stream`].
    pub fn handshake(self, local_id: u64, frame: &[u8]) -> (chat: Result<Chat<S>, HandshakeError>)
        ensures
            match parsed_handshake(frame@) {
                Ok((id, name)) => chat matches Ok(c) && c@ == (ChatView {
                    local_id,
                    id,
                    name,
                    stream: self.stream,
                    messages: Seq::<MessageView>::empty(),
                    state: SessionState::Active,
                }),
                Err(e) => chat matches Err(f) && f == e,
            },
    {
        Chat::from_tcp_stream(self.stream, local_id, frame)
    }
}

/// What one end sends, the other receives: where a text that is not empty
/// and takes up to 1024 bytes is sent as `frame` and one read brings that
/// frame whole, the receiver makes of it the text without the white space at
/// its end.
pub proof fn lemma_sent_text_is_received(text: Seq<char>, frame: Vec<u8>)
    requires
        text.len() > 0,
        frame@ == message_frame(text),
        frame@.len() <= MESSAGE_CAP,
    ensures
        read_text(ReadOutcome::Data(frame)) == Some(trimmed_end(text)),
{
    lemma_message_round_trip(text);
}

/// A text that does not end in white space is received as it was sent, under
/// the same conditions.
pub proof fn lemma_text_without_trailing_space_arrives_whole(text: Seq<char>, frame: Vec<u8>)
    requires
        text.len() > 0,
        !is_white_space(text.last()),
        frame@ == message_frame(text),
        frame@.len() <= MESSAGE_CAP,
    ensures
        read_text(ReadOutcome::Data(frame)) == Some(text),
{
    lemma_sent_text_is_received(text, frame);
}

/// The exit command on a session that is no longer active changes nothing,
/// however often it is given; on an active session the second one changes
/// nothing.
pub proof fn lemma_exit_is_idempotent(state: SessionState)
    ensures
        after_exit(after_exit(state)) == after_exit(state),
        state != SessionState::Active ==> after_exit(state) == state,
        after_exit(SessionState::Terminated) == SessionState::Terminated,
{
}

/// No step leaves the terminated state, and none returns to the active one.
pub proof fn lemma_states_only_advance(state: SessionState)
    ensures
        after_exit(SessionState::Terminated) == SessionState::Terminated,
        after_join(SessionState::Terminated) == SessionState::Terminated,
        after_exit(state) == SessionState::Active ==> state == SessionState::Active,
        after_join(state) == SessionState::Active ==> state == SessionState::Active,
{
}

} // verus!
