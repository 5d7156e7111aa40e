//! The listener's switch: whether inbound connections are let into the
//! waiting room or turned away.
//!
//! The accept loop itself never pauses; the operating system hands over
//! connections as they come. While the listener is stopped, each of them is
//! handed back to be closed.

use crate::connection::Connection;
use crate::registry::PendingRequestRegistry;
use vstd::prelude::*;

verus! {

/// Whether the listener lets connections in.
#[derive(Clone, Copy, Debug, PartialEq, Eq, Structural)]
pub enum ListenerState {
    Stopped,
    Listening,
}

/// What is pending once `connection` was accepted by the network layer.
pub open spec fn after_accept<S>(
    state: ListenerState,
    pending: Seq<Connection<S>>,
    connection: Connection<S>,
) -> Seq<Connection<S>> {
    match state {
        ListenerState::Listening => pending.push(connection),
        ListenerState::Stopped => pending,
    }
}

/// What is pending once each of `arrivals` was accepted in turn, the listener
/// being in `state` all the while.
pub open spec fn after_accepts<S>(
    state: ListenerState,
    pending: Seq<Connection<S>>,
    arrivals: Seq<Connection<S>>,
) -> Seq<Connection<S>>
    decreases arrivals.len(),
{
    if arrivals.len() == 0 {
        pending
    } else {
        after_accept(state, after_accepts(state, pending, arrivals.drop_last()), arrivals.last())
    }
}

/// The other state of the switch.
pub open spec fn flipped(state: ListenerState) -> ListenerState {
    match state {
        ListenerState::Stopped => ListenerState::Listening,
        ListenerState::Listening => ListenerState::Stopped,
    }
}

/// The switch of the listener, and whether its accept loop was ever started.
#[derive(Clone, Copy, Debug, PartialEq, Eq)]
pub struct Listener {
    state: ListenerState,
    launched: bool,
}

impl Listener {
    /// The state of the switch.
    pub closed spec fn spec_state(&self) -> ListenerState {
        self.state
    }

    /// Whether the accept loop was started.
    pub closed spec fn spec_launched(&self) -> bool {
        self.launched
    }

    /// A listener that is stopped and whose accept loop was never started.
    pub fn new() -> (listener: Listener)
        ensures
            listener.spec_state() == ListenerState::Stopped,
            !listener.spec_launched(),
    {
        Listener { state: ListenerState::Stopped, launched: false }
    }

    /// The state of the switch.
    #[verifier::when_used_as_spec(spec_state)]
    pub fn state(&self) -> (state: ListenerState)
        ensures
            state == self.spec_state(),
    {
        self.state
    }

    /// Whether connections are let in.
    pub fn is_listening(&self) -> (listening: bool)
        ensures
            listening == (self.spec_state() == ListenerState::Listening),
    {
        match self.state {
            ListenerState::Listening => true,
            ListenerState::Stopped => false,
        }
    }

    /// Whether the accept loop was started.
    #[verifier::when_used_as_spec(spec_launched)]
    pub fn launched(&self) -> (launched: bool)
        ensures
            launched == self.spec_launched(),
    {
        self.launched
    }

    /// Flips the switch. Returns whether the accept loop has to be started
    /// now: it is started at the first turn to `Listening` and never again.
    pub fn toggle(&mut self) -> (launch: bool)
        ensures
            final(self).spec_state() == flipped(old(self).spec_state()),
            launch == (final(self).spec_state() == ListenerState::Listening && !old(
                self,
            ).spec_launched()),
            final(self).spec_launched() == (old(self).spec_launched() || launch),
    {
        let listen = match self.state {
            ListenerState::Stopped => true,
            ListenerState::Listening => false,
        };
        self.set_listening(listen)
    }

    /// Sets the switch.
    pub fn set_listening(&mut self, listen: bool) -> (launch: bool)
        ensures
            final(self).spec_state() == if listen {
                ListenerState::Listening
            } else {
                ListenerState::Stopped
            },
            final(self).spec_launched() == (old(self).spec_launched() || listen),
            launch == (listen && !old(self).spec_launched()),
    {
        let launch = listen && !self.launched;
        self.state =
        if listen {
            ListenerState::Listening
        } else {
            ListenerState::Stopped
        };
        self.launched = self.launched || listen;
        launch
    }

    /// Decides on a connection that the network layer accepted. While
    /// listening it is filed in the waiting room, behind those that wait
    /// there. While stopped the waiting room stays as it is and the connection
    /// is handed back, to be closed.
    pub fn accept<S>(
        &self,
        registry: &mut PendingRequestRegistry<S>,
        connection: Connection<S>,
    ) -> (refused: Option<Connection<S>>)
        ensures
            final(registry)@ == after_accept(self.spec_state(), old(registry)@, connection),
            refused == match self.spec_state() {
                ListenerState::Listening => None,
                ListenerState::Stopped => Some(connection),
            },
    {
        match self.state {
            ListenerState::Listening => {
                registry.enqueue(connection);
                None
            },
            ListenerState::Stopped => Some(connection),
        }
    }
}

/// While the listener is stopped, no connection that the network layer
/// accepts ever shows in the waiting room.
pub proof fn lemma_stopped_accepts_none<S>(
    pending: Seq<Connection<S>>,
    arrivals: Seq<Connection<S>>,
)
    ensures
        after_accepts(ListenerState::Stopped, pending, arrivals) == pending,
    decreases arrivals.len(),
{
    if arrivals.len() > 0 {
        lemma_stopped_accepts_none(pending, arrivals.drop_last());
    }
}

/// While the listener listens, every connection that the network layer
/// accepts shows in the waiting room exactly once, behind those that waited
/// before, in the order of acceptance.
pub proof fn lemma_listening_accepts_all_in_order<S>(
    pending: Seq<Connection<S>>,
    arrivals: Seq<Connection<S>>,
)
    ensures
        after_accepts(ListenerState::Listening, pending, arrivals) == pending + arrivals,
    decreases arrivals.len(),
{
    if arrivals.len() > 0 {
        lemma_listening_accepts_all_in_order(pending, arrivals.drop_last());
        assert(pending + arrivals == (pending + arrivals.drop_last()).push(arrivals.last()));
    } else {
        assert(pending + arrivals == pending);
    }
}

} // verus!
