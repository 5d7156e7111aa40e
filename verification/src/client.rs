//! The client: this end's identity, its listener, its waiting room and its
//! chats, and the decisions of the operator's menu.

use crate::chat::{Chat, ChatView, SessionState};
use crate::codec::{encode_handshake, handshake_frame, parsed_handshake, HandshakeError};
use crate::connection::{Connection, PeerAddress};
use crate::listener::{after_accept, flipped, Listener, ListenerState};
use crate::message::MessageView;
use crate::registry::{addresses, after_take, IndexError, PendingRequestRegistry};
use crate::text::{parse_usize, parsed_usize, trim, trimmed};
use vstd::prelude::*;

verus! {

/// The highest number that the menu offers.
pub const LAST_OPTION: usize = 4;

/// What the operator's choice in the menu leads to.
#[derive(Clone, Copy, Debug, PartialEq, Eq, Structural)]
pub enum MenuAction {
    /// Leave the program.
    Quit,
    /// The listener's switch was flipped; `launch` tells whether its accept
    /// loop has to be started now.
    Toggled { launch: bool },
    /// Show the waiting room and let the operator pick a request.
    AcceptRequest,
    /// Ask for an address and dial it.
    SendRequest,
    /// Show the chats and let the operator pick one.
    SelectChat,
    /// The number is none of the menu: leave the program.
    Unknown,
}

/// Why no pending request was picked.
#[derive(Clone, Copy, Debug, PartialEq, Eq, Structural)]
pub enum RequestError {
    /// The input is no number.
    NotANumber,
    /// The number names no pending request.
    OutOfRange(IndexError),
}

/// The number that a line of input names, white space around it aside.
pub open spec fn chosen_index(line: Seq<char>) -> Option<usize> {
    parsed_usize(trimmed(line))
}

/// The option of the menu that a line of input names, if it names one.
pub open spec fn menu_choice(line: Seq<char>) -> Option<usize> {
    match chosen_index(line) {
        Some(n) => if n <= LAST_OPTION {
            Some(n)
        } else {
            None
        },
        None => None,
    }
}

/// What a [`Client`] holds.
pub struct ClientView<S> {
    pub id: u64,
    pub name: Seq<char>,
    pub listener: Listener,
    pub chats: Seq<ChatView<S>>,
    pub connections: Seq<Connection<S>>,
}

/// This end of the chat.
#[derive(Debug)]
pub struct Client<S> {
    id: u64,
    name: String,
    listener: Listener,
    chats: Vec<Chat<S>>,
    connections: PendingRequestRegistry<S>,
}

impl<S> View for Client<S> {
    type V = ClientView<S>;

    closed spec fn view(&self) -> ClientView<S> {
        ClientView {
            id: self.id,
            name: self.name@,
            listener: self.listener,
            chats: self.chats@.map_values(|c: Chat<S>| c@),
            connections: self.connections@,
        }
    }
}

/// The number that a line of input names, white space around it aside.
pub fn choose_index(line: &str) -> (index: Option<usize>)
    ensures
        index == chosen_index(line@),
{
    let text = trim(line);
    parse_usize(text.as_str())
}

impl<S> Client<S> {
    /// A client with the identity `id`, called `name`, with a stopped
    /// listener, no chat and nobody waiting.
    pub fn new(id: u64, name: String) -> (client: Client<S>)
        ensures
            client@.id == id,
            client@.name == name@,
            client@.listener.spec_state() == ListenerState::Stopped,
            !client@.listener.spec_launched(),
            client@.chats == Seq::<ChatView<S>>::empty(),
            client@.connections == Seq::<Connection<S>>::empty(),
    {
        Client {
            id,
            name,
            listener: Listener::new(),
            chats: Vec::new(),
            connections: PendingRequestRegistry::new(),
        }
    }

    /// The identity of this end.
    pub fn id(&self) -> (id: u64)
        ensures
            id == self@.id,
    {
        self.id
    }

    /// The name of this end.
    pub fn name(&self) -> (name: &str)
        ensures
            name@ == self@.name,
    {
        self.name.as_str()
    }

    /// The listener's switch.
    pub fn listener(&self) -> (listener: Listener)
        ensures
            listener == self@.listener,
    {
        self.listener
    }

    /// The number of chats.
    pub fn chats_len(&self) -> (len: usize)
        ensures
            len == self@.chats.len(),
    {
        self.chats.len()
    }

    /// The chat at `index`, if there is one.
    pub fn chat(&self, index: usize) -> (chat: Option<&Chat<S>>)
        ensures
            chat is Some <==> index < self@.chats.len(),
            chat matches Some(c) ==> c@ == self@.chats[index as int],
    {
        if index < self.chats.len() {
            Some(&self.chats[index])
        } else {
            None
        }
    }

    /// Flips the listener's switch. Returns whether the accept loop has to be
    /// started now.
    pub fn toggle_connections_listening(&mut self) -> (launch: bool)
        ensures
            final(self)@.listener.spec_state() == flipped(old(self)@.listener.spec_state()),
            launch == (final(self)@.listener.spec_state() == ListenerState::Listening && !old(
                self,
            )@.listener.spec_launched()),
            final(self)@.listener.spec_launched() == (old(self)@.listener.spec_launched()
                || launch),
            final(self)@ == (ClientView { listener: final(self)@.listener, ..old(self)@ }),
    {
        self.listener.toggle()
    }

    /// The option of the menu that a line of input names: a number from 0 to
    /// 4, white space around it aside. Any other line names none.
    pub fn main_menu(line: &str) -> (option: Option<usize>)
        ensures
            option == menu_choice(line@),
    {
        match choose_index(line) {
            Some(n) => if n <= LAST_OPTION {
                Some(n)
            } else {
                None
            },
            None => None,
        }
    }

    /// One turn of the menu on the option that the operator chose. Option 1
    /// flips the listener's switch; no other option changes the client.
    pub fn run(&mut self, option: usize) -> (action: MenuAction)
        ensures
            option == 0 ==> action == MenuAction::Quit,
            option == 1 ==> action == (MenuAction::Toggled {
                launch: final(self)@.listener.spec_state() == ListenerState::Listening && !old(
                    self,
                )@.listener.spec_launched(),
            }),
            option == 2 ==> action == MenuAction::AcceptRequest,
            option == 3 ==> action == MenuAction::SendRequest,
            option == 4 ==> action == MenuAction::SelectChat,
            option > 4 ==> action == MenuAction::Unknown,
            option == 1 ==> {
                &&& final(self)@.listener.spec_state() == flipped(
                    old(self)@.listener.spec_state(),
                )
                &&& final(self)@.listener.spec_launched() == (old(self)@.listener.spec_launched()
                    || final(self)@.listener.spec_state() == ListenerState::Listening)
                &&& final(self)@ == (ClientView { listener: final(self)@.listener, ..old(self)@ })
            },
            option != 1 ==> final(self)@ == old(self)@,
    {
        if option == 0 {
            MenuAction::Quit
        } else if option == 1 {
            let launch = self.toggle_connections_listening();
            MenuAction::Toggled { launch }
        } else if option == 2 {
            MenuAction::AcceptRequest
        } else if option == 3 {
            MenuAction::SendRequest
        } else if option == 4 {
            MenuAction::SelectChat
        } else {
            MenuAction::Unknown
        }
    }

    /// The handshake frame that declares this end.
    pub fn send_self_creds(&self) -> (frame: Vec<u8>)
        ensures
            frame@ == handshake_frame(self@.id, self@.name),
    {
        encode_handshake(self.id, self.name.as_str())
    }

    /// Decides on a connection that the network layer accepted: filed in the
    /// waiting room while the listener listens, handed back to be closed
    /// while it is stopped.
    pub fn accepted(&mut self, connection: Connection<S>) -> (refused: Option<Connection<S>>)
        ensures
            final(self)@.connections == after_accept(
                old(self)@.listener.spec_state(),
                old(self)@.connections,
                connection,
            ),
            refused == match old(self)@.listener.spec_state() {
                ListenerState::Listening => None,
                ListenerState::Stopped => Some(connection),
            },
            final(self)@ == (ClientView { connections: final(self)@.connections, ..old(self)@ }),
    {
        self.listener.accept(&mut self.connections, connection)
    }

    /// The addresses of the peers that wait, oldest first, each at the index
    /// by which the operator picks it.
    pub fn pending_requests(&self) -> (peers: Vec<PeerAddress>)
        ensures
            peers@ == addresses(self@.connections),
    {
        self.connections.list()
    }

    /// Takes the pending request that a line of input names out of the
    /// waiting room. The handshake on it is still to come.
    ///
    /// Fails, and changes nothing, where the line is no number or the number
    /// names no request.
    pub fn accept_connection_request(&mut self, line: &str) -> (picked: Result<
        Connection<S>,
        RequestError,
    >)
        ensures
            match chosen_index(line@) {
                None => {
                    &&& picked == Err::<Connection<S>, _>(RequestError::NotANumber)
                    &&& final(self)@ == old(self)@
                },
                Some(n) => {
                    &&& final(self)@ == (ClientView {
                        connections: after_take(old(self)@.connections, n as int),
                        ..old(self)@
                    })
                    &&& picked == if n < old(self)@.connections.len() {
                        Ok::<_, RequestError>(old(self)@.connections[n as int])
                    } else {
                        Err(
                            RequestError::OutOfRange(
                                IndexError { index: n, len: old(self)@.connections.len() as usize },
                            ),
                        )
                    }
                },
            },
    {
        match choose_index(line) {
            None => Err(RequestError::NotANumber),
            Some(n) => match self.connections.take(n) {
                Ok(connection) => Ok(connection),
                Err(e) => Err(RequestError::OutOfRange(e)),
            },
        }
    }

    /// Completes the handshake on `stream` with the frame that arrived from
    /// the peer, and adds the chat behind the others. Returns its index.
    ///
    /// Fails, and changes nothing, where the frame is incomplete or
    /// malformed. The stream is then dropped.
    pub fn open_chat(&mut self, stream: S, frame: &[u8]) -> (opened: Result<usize, HandshakeError>)
        ensures
            match parsed_handshake(frame@) {
                Ok((id, name)) => {
                    &&& opened == Ok::<_, HandshakeError>(old(self)@.chats.len() as usize)
                    &&& final(self)@ == (ClientView {
                        chats: old(self)@.chats.push(
                            ChatView {
                                local_id: old(self)@.id,
                                id,
                                name,
                                stream,
                                messages: Seq::<MessageView>::empty(),
                                state: SessionState::Active,
                            },
                        ),
                        ..old(self)@
                    })
                },
                Err(e) => opened == Err::<usize, _>(e) && final(self)@ == old(self)@,
            },
    {
        match Chat::from_tcp_stream(stream, self.id, frame) {
            Ok(chat) => {
                let index = self.chats.len();
                self.chats.push(chat);
                assert(self.chats@.map_values(|c: Chat<S>| c@) == old(self).chats@.map_values(
                    |c: Chat<S>| c@,
                ).push(chat@));
                Ok(index)
            },
            Err(e) => Err(e),
        }
    }

    /// The chat at `index`, to act on it, if there is one.
    pub fn chat_mut(&mut self, index: usize) -> (chat: Option<&mut Chat<S>>)
        ensures
            chat is Some <==> index < old(self)@.chats.len(),
            match chat {
                Some(c) => {
                    &&& c@ == old(self)@.chats[index as int]
                    &&& final(self)@ == (ClientView {
                        chats: old(self)@.chats.update(index as int, final(c)@),
                        ..old(self)@
                    })
                },
                None => final(self)@ == old(self)@,
            },
    {
        if index < self.chats.len() {
            let ghost before = self.chats@;
            assert forall|c: Chat<S>|
                (#[trigger] before.update(index as int, c)).map_values(|c: Chat<S>| c@)
                    == before.map_values(|c: Chat<S>| c@).update(index as int, c@) by {
                assert(before.update(index as int, c).map_values(|c: Chat<S>| c@)
                    =~= before.map_values(|c: Chat<S>| c@).update(index as int, c@));
            }
            Some(&mut self.chats[index])
        } else {
            None
        }
    }

    /// The index of the chat that a line of input names, if it names one: a
    /// number below the number of chats, white space around it aside.
    pub fn select_chat(&self, line: &str) -> (index: Option<usize>)
        ensures
            index == match chosen_index(line@) {
                Some(n) => if n < self@.chats.len() {
                    Some(n)
                } else {
                    None
                },
                None => None,
            },
    {
        match choose_index(line) {
            Some(n) => if n < self.chats.len() {
                Some(n)
            } else {
                None
            },
            None => None,
        }
    }
}

} // verus!
