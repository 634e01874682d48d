//! The channel to cooperating peers: what goes over it, and what the
//! events of its transport do to the connection.
//!
//! The transport itself belongs to the host.  It reports how a connection
//! attempt ended and what arrived since the last tick; this module keeps
//! the state of the channel and says what is handed on.

use vstd::prelude::*;
use vstd::string::StringExecFns;
use std::collections::HashMap;
use crate::agent::{Agent, AgentView, Id, Task, TaskView, task_views};

verus! {

broadcast use vstd::std_specs::hash::group_hash_axioms;

/// What peers tell each other.
#[derive(Debug)]
pub enum CollabMessage {
    /// A peer makes itself known.
    Hello { id: Id, name: String },
    /// The code that a peer now holds.
    Code { text: String },
    /// The agents that a peer owns, and all the tasks it knows.
    AgentUpdate { agents: Vec<Agent>, tasks: Vec<Task> },
}

/// Model of a [`CollabMessage`].
pub enum CollabMessageView {
    Hello { id: Id, name: Seq<char> },
    Code { text: Seq<char> },
    AgentUpdate { agents: Seq<AgentView>, tasks: Seq<TaskView> },
}

/// The models of a sequence of agents, in order.
pub open spec fn agent_list_views(agents: Seq<Agent>) -> Seq<AgentView> {
    agents.map_values(|a: Agent| a@)
}

impl View for CollabMessage {
    type V = CollabMessageView;

    open spec fn view(&self) -> CollabMessageView {
        match self {
            CollabMessage::Hello { id, name } => CollabMessageView::Hello { id: *id, name: name@ },
            CollabMessage::Code { text } => CollabMessageView::Code { text: text@ },
            CollabMessage::AgentUpdate { agents, tasks } => CollabMessageView::AgentUpdate {
                agents: agent_list_views(agents@),
                tasks: task_views(tasks@),
            },
        }
    }
}

/// The models of a sequence of messages, in order.
pub open spec fn collab_views(messages: Seq<CollabMessage>) -> Seq<CollabMessageView> {
    messages.map_values(|m: CollabMessage| m@)
}

/// What the transport reports of an open connection.
#[derive(Debug)]
pub enum ChannelEvent {
    /// A text frame that holds a message.
    Message(CollabMessage),
    /// Anything that carries no message: a frame that is no text or does
    /// not hold a message, or the notice that the connection is open.
    Ignored,
    /// The connection was closed.
    Closed,
    /// The connection failed; the transport says why.
    Error(String),
}

/// Model of a [`ChannelEvent`].
pub enum ChannelEventView {
    Message(CollabMessageView),
    Ignored,
    Closed,
    Error(Seq<char>),
}

impl View for ChannelEvent {
    type V = ChannelEventView;

    open spec fn view(&self) -> ChannelEventView {
        match self {
            ChannelEvent::Message(message) => ChannelEventView::Message(message@),
            ChannelEvent::Ignored => ChannelEventView::Ignored,
            ChannelEvent::Closed => ChannelEventView::Closed,
            ChannelEvent::Error(reason) => ChannelEventView::Error(reason@),
        }
    }
}

/// The models of a sequence of channel events, in order.
pub open spec fn channel_views(events: Seq<ChannelEvent>) -> Seq<ChannelEventView> {
    events.map_values(|e: ChannelEvent| e@)
}

/// The messages among `events`, in order.
pub open spec fn received(events: Seq<ChannelEventView>) -> Seq<CollabMessageView>
    decreases events.len(),
{
    if events.len() == 0 {
        Seq::empty()
    } else {
        match events.last() {
            ChannelEventView::Message(message) => received(events.drop_last()).push(message),
            _ => received(events.drop_last()),
        }
    }
}

/// Whether the connection was closed among `events`.
pub open spec fn closed_among(events: Seq<ChannelEventView>) -> bool {
    exists|i: int| 0 <= i < events.len() && events[i] is Closed
}

/// The reason of the last failure among `events`, if there was one.
pub open spec fn last_error(events: Seq<ChannelEventView>) -> Option<Seq<char>>
    decreases events.len(),
{
    if events.len() == 0 {
        None
    } else {
        match events.last() {
            ChannelEventView::Error(reason) => Some(reason),
            _ => last_error(events.drop_last()),
        }
    }
}

/// The state of the channel to the peers.
pub struct CollabSystem {
    /// Whether the transport holds an open connection.
    pub connected: bool,
    /// A line for the user on how the channel is.
    pub status: String,
    /// The names of the peers that made themselves known.
    pub peers: HashMap<Id, String>,
    /// When agents and tasks were last sent to the peers, in
    /// milliseconds.
    pub last_sync: u64,
}

/// Model of a [`CollabSystem`].
pub struct CollabView {
    pub connected: bool,
    pub status: Seq<char>,
    pub peers: Map<Id, Seq<char>>,
    pub last_sync: u64,
}

/// The models of the names in a peer directory, under the same keys.
pub open spec fn peer_views(peers: Map<Id, String>) -> Map<Id, Seq<char>> {
    Map::new(|id: Id| peers.contains_key(id), |id: Id| peers[id]@)
}

impl View for CollabSystem {
    type V = CollabView;

    open spec fn view(&self) -> CollabView {
        CollabView {
            connected: self.connected,
            status: self.status@,
            peers: peer_views(self.peers@),
            last_sync: self.last_sync,
        }
    }
}

impl CollabView {
    /// The state of a channel that was never connected.
    pub open spec fn initial() -> CollabView {
        CollabView {
            connected: false,
            status: "Disconnected"@,
            peers: Map::empty(),
            last_sync: 0,
        }
    }

    /// The state after a connection attempt that succeeded.
    pub open spec fn opened(self) -> CollabView {
        CollabView { connected: true, status: "Connected"@, ..self }
    }

    /// The state after the connection was lost or could not be made, with
    /// `status` as the line for the user.
    pub open spec fn dropped(self, status: Seq<char>) -> CollabView {
        CollabView { connected: false, status, ..self }
    }

    /// The state after a connection attempt.
    pub open spec fn after_connect(self, outcome: Result<(), Seq<char>>) -> CollabView {
        match outcome {
            Ok(_) => self.opened(),
            Err(reason) => self.dropped("Error: "@ + reason),
        }
    }

    /// The state after the transport reported `events`.  A channel that is
    /// not connected has no events to look at.
    pub open spec fn after_poll(self, events: Seq<ChannelEventView>) -> CollabView {
        if !self.connected {
            self
        } else {
            match last_error(events) {
                Some(reason) => self.dropped("Error: "@ + reason),
                None => if closed_among(events) {
                    self.dropped("Disconnected"@)
                } else {
                    self
                },
            }
        }
    }

    /// The messages that a poll hands on.
    pub open spec fn poll_messages(self, events: Seq<ChannelEventView>) -> Seq<CollabMessageView> {
        if self.connected {
            received(events)
        } else {
            Seq::empty()
        }
    }

    /// The state after a peer made itself known.
    pub open spec fn with_peer(self, id: Id, name: Seq<char>) -> CollabView {
        CollabView { peers: self.peers.insert(id, name), ..self }
    }
}

/// The model of an optional message.
pub open spec fn optional_message_view(message: Option<CollabMessage>) -> Option<
    CollabMessageView,
> {
    match message {
        Some(m) => Some(m@),
        None => None,
    }
}

/// The model of the outcome of a connection attempt.
pub open spec fn outcome_view(outcome: Result<(), String>) -> Result<(), Seq<char>> {
    match outcome {
        Ok(_) => Ok(()),
        Err(reason) => Err(reason@),
    }
}

impl Default for CollabSystem {
    fn default() -> (collab: CollabSystem)
        ensures
            collab@ == CollabView::initial(),
    {
        CollabSystem::new()
    }
}

impl CollabSystem {
    /// A channel that is not connected and knows no peer.
    pub fn new() -> (collab: CollabSystem)
        ensures
            collab@ == CollabView::initial(),
    {
        let collab = CollabSystem {
            connected: false,
            status: String::from_str("Disconnected"),
            peers: HashMap::new(),
            last_sync: 0,
        };
        assert(collab@.peers =~= Map::empty());
        collab
    }

    /// Records how a connection attempt ended.  Success connects the
    /// channel; failure leaves it disconnected, with the reason in the
    /// status line.
    pub fn connect(&mut self, outcome: Result<(), String>)
        ensures
            final(self)@ == old(self)@.after_connect(outcome_view(outcome)),
    {
        match outcome {
            Ok(_) => {
                self.connected = true;
                self.status = String::from_str("Connected");
            },
            Err(reason) => {
                let mut status = String::from_str("Error: ");
                status.append(reason.as_str());
                self.connected = false;
                self.status = status;
            },
        }
    }

    /// Whether the channel is connected.
    pub fn is_connected(&self) -> (connected: bool)
        ensures
            connected == self@.connected,
    {
        self.connected
    }

    /// Decides whether a message goes out: it is handed back for the
    /// transport when the channel is connected, and dropped when it is
    /// not.
    pub fn send(&self, msg: CollabMessage) -> (outgoing: Option<CollabMessage>)
        ensures
            optional_message_view(outgoing) == if self@.connected {
                Some(msg@)
            } else {
                None
            },
    {
        if self.connected {
            Some(msg)
        } else {
            None
        }
    }

    /// Takes in what the transport reported since the last tick, oldest
    /// first, and returns the messages among it in the same order.  A
    /// close or a failure disconnects the channel and shows in the status
    /// line, the reason of the last failure before anything else; neither
    /// is handed on as a message.
    pub fn poll(&mut self, events: Vec<ChannelEvent>) -> (messages: Vec<CollabMessage>)
        ensures
            final(self)@ == old(self)@.after_poll(channel_views(events@)),
            collab_views(messages@) == old(self)@.poll_messages(channel_views(events@)),
    {
        let mut messages: Vec<CollabMessage> = Vec::new();
        if !self.connected {
            return messages;
        }
        let ghost views = channel_views(events@);
        let mut disconnect = false;
        let mut error: Option<String> = None;
        for event in it: events.into_iter()
            invariant
                it.seq() == events@,
                views == channel_views(events@),
                collab_views(messages@) == received(views.take(it.index() as int)),
                disconnect == closed_among(views.take(it.index() as int)),
                crate::agent::text_view(error) == last_error(views.take(it.index() as int)),
        {
            let ghost k = it.index() as int;
            let ghost seen = views.take(k);
            let ghost next = views.take(k + 1);
            proof {
                assert(next.drop_last() =~= seen);
            }
            match event {
                ChannelEvent::Message(message) => {
                    messages.push(message);
                },
                ChannelEvent::Ignored => {},
                ChannelEvent::Closed => {
                    disconnect = true;
                },
                ChannelEvent::Error(reason) => {
                    error = Some(reason);
                },
            }
        }
        assert(views.take(views.len() as int) =~= views);
        if disconnect {
            self.status = String::from_str("Disconnected");
            self.connected = false;
        }
        if let Some(reason) = error {
            let mut status = String::from_str("Error: ");
            status.append(reason.as_str());
            self.status = status;
            self.connected = false;
        }
        messages
    }

    /// Enters a peer in the directory, under its identifier; a name that
    /// stood there is replaced.
    pub fn greet(&mut self, id: Id, name: String)
        ensures
            final(self)@ == old(self)@.with_peer(id, name@),
    {
        self.peers.insert(id, name);
        assert(peer_views(self.peers@) =~= old(self)@.peers.insert(id, name@));
    }
}

} // verus!
