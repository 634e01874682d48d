//! The queue through which finished requests reach the scheduler.
//!
//! Producers push events as requests complete; the scheduler takes the
//! whole content at once, oldest first.  The queue itself is plain data:
//! a host that completes requests on other threads keeps it behind its own
//! lock, so that a push lands either wholly before a drain or wholly
//! after it.

use vstd::prelude::*;
use std::collections::VecDeque;
use crate::agent::{AgentEvent, AgentEventView, event_views};

verus! {

/// Events in the order in which they arrived.
pub struct EventQueue {
    events: VecDeque<AgentEvent>,
}

impl View for EventQueue {
    type V = Seq<AgentEventView>;

    closed spec fn view(&self) -> Seq<AgentEventView> {
        event_views(self.events@)
    }
}

impl Default for EventQueue {
    fn default() -> (queue: EventQueue)
        ensures
            queue@ == Seq::<AgentEventView>::empty(),
    {
        EventQueue::new()
    }
}

impl EventQueue {
    /// An empty queue.
    pub fn new() -> (queue: EventQueue)
        ensures
            queue@ == Seq::<AgentEventView>::empty(),
    {
        let queue = EventQueue { events: VecDeque::new() };
        queue
    }

    /// The number of events that wait.
    pub fn len(&self) -> (n: usize)
        ensures
            n == self@.len(),
    {
        self.events.len()
    }

    /// Whether no event waits.
    pub fn is_empty(&self) -> (b: bool)
        ensures
            b == (self@.len() == 0),
    {
        self.events.len() == 0
    }

    /// Adds an event behind those that wait.
    pub fn push(&mut self, event: AgentEvent)
        ensures
            final(self)@ == old(self)@.push(event@),
    {
        self.events.push_back(event);
    }

    /// Takes every event that waits, oldest first, and leaves the queue
    /// empty.
    pub fn drain(&mut self) -> (events: Vec<AgentEvent>)
        ensures
            event_views(events@) == old(self)@,
            final(self)@ == Seq::<AgentEventView>::empty(),
    {
        let mut events: Vec<AgentEvent> = Vec::new();
        loop
            invariant_except_break
                event_views(events@) + self@ == old(self)@,
            ensures
                event_views(events@) == old(self)@,
                self@ == Seq::<AgentEventView>::empty(),
            decreases self.events@.len(),
        {
            match self.events.pop_front() {
                Some(event) => {
                    events.push(event);
                },
                None => {
                    break;
                },
            }
        }
        events
    }
}

} // verus!
