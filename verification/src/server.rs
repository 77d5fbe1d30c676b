//! The state machine of the server loop.
//!
//! The loop itself waits on four sources at once and takes what is ready
//! first: an event of the transport, a queued one-way message, a queued gossip
//! message, or the shutdown signal. What it does with what it took is decided
//! here.

use crate::message::{GossipMessage, Outgoing};
use crate::payload::PayloadT;
use crate::translator::{handle_swarm_event, is_translation, SwarmCommand, SwarmEvent, Translation};
use vstd::prelude::*;

verus! {

/// How far the server loop has come.
#[derive(Clone, Copy, Debug, PartialEq, Eq, Structural)]
pub enum ServerState {
    /// The loop takes input.
    Running,
    /// The shutdown signal came or a queue was closed: the loop is about to
    /// end and takes no more input.
    Draining,
    /// The loop has ended.
    Stopped,
}

/// What the loop took from one of its four sources.
#[derive(Debug)]
pub enum ServerInput {
    /// An event of the transport.
    Swarm(SwarmEvent),
    /// The next queued one-way message, or `None` where the queue is closed.
    OneWay(Option<Outgoing>),
    /// The next queued gossip message, or `None` where the queue is closed.
    Gossip(Option<GossipMessage>),
    /// The shutdown signal.
    Shutdown,
}

impl ServerInput {
    /// Whether this input ends the loop: the shutdown signal, or a queue that
    /// is closed.
    pub open spec fn ends_loop(self) -> bool {
        match self {
            ServerInput::Swarm(_) => false,
            ServerInput::OneWay(message) => message is None,
            ServerInput::Gossip(message) => message is None,
            ServerInput::Shutdown => true,
        }
    }
}

impl ServerState {
    /// The state after `input`: a running loop goes on unless the input ends
    /// it; a loop that is about to end ends, whatever else is ready.
    pub open spec fn after(self, input: ServerInput) -> ServerState {
        match self {
            ServerState::Running => if input.ends_loop() {
                ServerState::Draining
            } else {
                ServerState::Running
            },
            ServerState::Draining => ServerState::Stopped,
            ServerState::Stopped => ServerState::Stopped,
        }
    }

    /// The state after the inputs of `inputs`, in order.
    pub open spec fn after_all(self, inputs: Seq<ServerInput>) -> ServerState
        decreases inputs.len(),
    {
        if inputs.len() == 0 {
            self
        } else {
            self.after_all(inputs.drop_last()).after(inputs.last())
        }
    }
}

/// What the loop has to do for `input` in the state `state`. A loop that is
/// not running does nothing. A running loop hands a queued message to the
/// transport and translates an event of the transport; for an input that ends
/// it, it does nothing.
pub open spec fn is_step<P: PayloadT>(state: ServerState, input: ServerInput, todo: Translation<P>) -> bool {
    if state != ServerState::Running {
        todo.is_nothing()
    } else {
        match input {
            ServerInput::Swarm(event) => is_translation(event, todo),
            ServerInput::OneWay(Some(message)) => todo.scheduled is None && todo.command == Some(
                SwarmCommand::SendOneWayMessage(message),
            ),
            ServerInput::Gossip(Some(message)) => todo.scheduled is None && todo.command == Some(
                SwarmCommand::Gossip(message),
            ),
            _ => todo.is_nothing(),
        }
    }
}

/// The server loop, as far as its decisions go.
#[derive(Debug)]
pub struct ServerLoop {
    state: ServerState,
}

impl View for ServerLoop {
    type V = ServerState;

    closed spec fn view(&self) -> ServerState {
        self.state
    }
}

impl ServerLoop {
    /// A loop that is running.
    pub fn new() -> (server: ServerLoop)
        ensures
            server@ == ServerState::Running,
    {
        ServerLoop { state: ServerState::Running }
    }

    /// The state of the loop.
    pub fn state(&self) -> (state: ServerState)
        ensures
            state == self@,
    {
        self.state
    }

    /// Whether the loop takes input.
    pub fn is_running(&self) -> (running: bool)
        ensures
            running == (self@ == ServerState::Running),
    {
        match self.state {
            ServerState::Running => true,
            _ => false,
        }
    }

    /// Takes one input and says what is to be done for it.
    pub fn step<P: PayloadT>(&mut self, input: ServerInput) -> (todo:
        Translation<P>)
        ensures
            final(self)@ == old(self)@.after(input),
            is_step(old(self)@, input, todo),
    {
        match self.state {
            ServerState::Running => match input {
                ServerInput::Swarm(event) => handle_swarm_event(event),
                ServerInput::OneWay(Some(message)) => Translation {
                    command: Some(SwarmCommand::SendOneWayMessage(message)),
                    scheduled: None,
                },
                ServerInput::Gossip(Some(message)) => Translation {
                    command: Some(SwarmCommand::Gossip(message)),
                    scheduled: None,
                },
                ServerInput::OneWay(None) => {
                    self.state = ServerState::Draining;
                    Translation::nothing()
                },
                ServerInput::Gossip(None) => {
                    self.state = ServerState::Draining;
                    Translation::nothing()
                },
                ServerInput::Shutdown => {
                    self.state = ServerState::Draining;
                    Translation::nothing()
                },
            },
            ServerState::Draining => {
                self.state = ServerState::Stopped;
                Translation::nothing()
            },
            ServerState::Stopped => Translation::nothing(),
        }
    }

    /// Ends a loop that takes no more input. What is still queued is lost.
    pub fn stop(&mut self)
        ensures
            final(self)@ == if old(self)@ == ServerState::Running {
                ServerState::Running
            } else {
                ServerState::Stopped
            },
    {
        match self.state {
            ServerState::Running => {},
            _ => {
                self.state = ServerState::Stopped;
            },
        }
    }
}

/// A loop that has left the running state never runs again, whatever becomes
/// ready.
pub proof fn lemma_no_return_to_running(state: ServerState, inputs: Seq<ServerInput>)
    requires
        state != ServerState::Running,
    ensures
        state.after_all(inputs) != ServerState::Running,
    decreases inputs.len(),
{
    if inputs.len() > 0 {
        lemma_no_return_to_running(state, inputs.drop_last());
    }
}

/// After the shutdown signal nothing that is queued is sent: whatever the
/// loop is handed after the signal, and however much of it, it hands no
/// message to the transport and schedules nothing.
pub proof fn lemma_nothing_sent_after_shutdown<P: PayloadT>(
    state: ServerState,
    later: Seq<ServerInput>,
    input: ServerInput,
    todo: Translation<P>,
)
    requires
        is_step(state.after(ServerInput::Shutdown).after_all(later), input, todo),
    ensures
        todo.is_nothing(),
{
    lemma_no_return_to_running(state.after(ServerInput::Shutdown), later);
}

} // verus!
