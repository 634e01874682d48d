//! Sending local state to the peers.
//!
//! While the channel is connected, the agents that this process owns and
//! all its tasks go out at most once in each interval.

use vstd::prelude::*;
use vstd::string::StringExecFns;
use crate::agent::{Agent, AgentView, Id, clone_tasks};
use crate::collab::{
    CollabMessage, CollabMessageView, CollabSystem, CollabView, agent_list_views,
    optional_message_view,
};
use crate::system::{AgentSystem, SystemView};

verus! {

broadcast use vstd::std_specs::hash::group_hash_axioms;

/// The least time between two updates to the peers, in milliseconds.
pub const SYNC_INTERVAL_MS: u64 = 1000;

impl SystemView {
    /// The records found on a walk that belong to agents this process
    /// owns, in the order of the walk.
    pub open spec fn local_records(self, order: Seq<Id>) -> Seq<AgentView>
        decreases order.len(),
    {
        if order.len() == 0 {
            Seq::empty()
        } else {
            let earlier = self.local_records(order.drop_last());
            let key = order.last();
            if self.agents.contains_key(key) && self.local_ids.contains(self.agents[key].id) {
                earlier.push(self.agents[key])
            } else {
                earlier
            }
        }
    }

    /// The update that tells the peers of the local agents, found on a
    /// walk in `order`, and of all tasks.
    pub open spec fn update_for_peers(self, order: Seq<Id>) -> CollabMessageView {
        CollabMessageView::AgentUpdate { agents: self.local_records(order), tasks: self.tasks }
    }

    /// Whether `message` is the update for the peers on some walk of the
    /// agents held.
    pub open spec fn is_update_for_peers(self, message: CollabMessageView) -> bool {
        exists|order: Seq<Id>| #[trigger] self.is_walk(order) && message == self.update_for_peers(order)
    }
}

impl CollabView {
    /// Whether an update to the peers is due at time `now`.
    pub open spec fn sync_due(self, now: u64) -> bool {
        self.connected && now - self.last_sync >= SYNC_INTERVAL_MS
    }

    /// The state after an update went out at time `now`.
    pub open spec fn synced(self, now: u64) -> CollabView {
        CollabView { last_sync: now, ..self }
    }
}

impl AgentSystem {
    /// Copies the records found under `order` that belong to agents this
    /// process owns.
    pub fn local_agents(&self, order: &Vec<Id>) -> (agents: Vec<Agent>)
        ensures
            agent_list_views(agents@) == self@.local_records(order@),
    {
        let mut agents: Vec<Agent> = Vec::new();
        let mut i: usize = 0;
        while i < order.len()
            invariant
                i <= order.len(),
                agent_list_views(agents@) == self@.local_records(order@.take(i as int)),
            decreases order.len() - i,
        {
            proof {
                let next = order@.take(i + 1);
                assert(next.drop_last() =~= order@.take(i as int));
            }
            match self.agents.get(&order[i]) {
                Some(agent) => {
                    if self.local_ids.contains(&agent.id) {
                        agents.push(agent.clone());
                    }
                },
                None => {},
            }
            i += 1;
        }
        assert(order@.take(i as int) =~= order@);
        agents
    }
}

/// Decides whether an update goes to the peers at time `now`, in
/// milliseconds, and builds it: one is due while the channel is connected
/// and the last one is at least [`SYNC_INTERVAL_MS`] old.  The update
/// holds the agents that this process owns and all tasks.
pub fn sync_message(collab: &mut CollabSystem, system: &AgentSystem, now: u64) -> (message: Option<
    CollabMessage,
>)
    ensures
        match message {
            Some(m) => {
                &&& old(collab)@.sync_due(now)
                &&& final(collab)@ == old(collab)@.synced(now)
                &&& system@.is_update_for_peers(m@)
            },
            None => !old(collab)@.sync_due(now) && final(collab)@ == old(collab)@,
        },
{
    if !collab.connected || now < collab.last_sync || now - collab.last_sync < SYNC_INTERVAL_MS {
        return None;
    }
    collab.last_sync = now;
    let order = system.agent_ids();
    let agents = system.local_agents(&order);
    let tasks = clone_tasks(&system.tasks);
    let message = CollabMessage::AgentUpdate { agents, tasks };
    Some(message)
}

/// Decides whether the live code goes to the peers after an edit: it does
/// when the user changed it, no peer changed it in the same tick, and the
/// channel is connected.  Code that a peer just sent is not sent back.
pub fn code_update(
    collab: &CollabSystem,
    live_code: &str,
    edited: bool,
    changed_by_peer: bool,
) -> (message: Option<CollabMessage>)
    ensures
        optional_message_view(message) == if edited && !changed_by_peer && collab@.connected {
            Some(CollabMessageView::Code { text: live_code@ })
        } else {
            None
        },
{
    if edited && !changed_by_peer && collab.connected {
        Some(CollabMessage::Code { text: String::from_str(live_code) })
    } else {
        None
    }
}

} // verus!
