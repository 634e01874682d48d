//! The scheduler's state: the agents and tasks of one process.

use vstd::prelude::*;
use vstd::string::StringExecFns;
use std::collections::{HashMap, HashSet, VecDeque};
use crate::agent::{
    Agent, AgentConfig, AgentConfigView, AgentView, Id, Task, TaskView, task_views,
};
use crate::ids::fresh_id;

verus! {

broadcast use vstd::std_specs::hash::group_hash_axioms;

/// The most messages that [`AgentSystem::log`] keeps.
pub const LOG_CAPACITY: usize = 100;

/// The least time between two assignment passes, in milliseconds.
pub const POLL_INTERVAL_MS: u64 = 1000;

/// The agents and tasks of one process.
///
/// `agents` holds the agents created here beside those mirrored from
/// peers; `local_ids` tells them apart: only an agent whose identifier is
/// in it is ever given a task.  Times are in milliseconds on the host's
/// clock.
pub struct AgentSystem {
    pub agents: HashMap<Id, Agent>,
    pub local_ids: HashSet<Id>,
    pub tasks: Vec<Task>,
    pub message_log: VecDeque<String>,
    pub pending_changes: VecDeque<(Id, String)>,
    pub last_poll: u64,
}

/// Model of an [`AgentSystem`].
pub struct SystemView {
    pub agents: Map<Id, AgentView>,
    pub local_ids: Set<Id>,
    pub tasks: Seq<TaskView>,
    pub message_log: Seq<Seq<char>>,
    pub pending_changes: Seq<(Id, Seq<char>)>,
    pub last_poll: u64,
}

/// The models of the agents in a map, under the same keys.
pub open spec fn agent_views(agents: Map<Id, Agent>) -> Map<Id, AgentView> {
    Map::new(|id: Id| agents.contains_key(id), |id: Id| agents[id]@)
}

/// The models of a sequence of messages, in order.
pub open spec fn message_views(messages: Seq<String>) -> Seq<Seq<char>> {
    messages.map_values(|m: String| m@)
}

/// The models of a sequence of proposed changes, in order.
pub open spec fn change_views(changes: Seq<(Id, String)>) -> Seq<(Id, Seq<char>)> {
    changes.map_values(|c: (Id, String)| (c.0, c.1@))
}

impl View for AgentSystem {
    type V = SystemView;

    open spec fn view(&self) -> SystemView {
        SystemView {
            agents: agent_views(self.agents@),
            local_ids: self.local_ids@,
            tasks: task_views(self.tasks@),
            message_log: message_views(self.message_log@),
            pending_changes: change_views(self.pending_changes@),
            last_poll: self.last_poll,
        }
    }
}

/// A log after one more message, cut back to the newest
/// [`LOG_CAPACITY`] where it had grown beyond that by one.
pub open spec fn capped_log(log: Seq<Seq<char>>, message: Seq<char>) -> Seq<Seq<char>> {
    let grown = log.push(message);
    if grown.len() > LOG_CAPACITY {
        grown.drop_first()
    } else {
        grown
    }
}

impl SystemView {
    /// The state of a system that was just created.
    pub open spec fn empty() -> SystemView {
        SystemView {
            agents: Map::empty(),
            local_ids: Set::empty(),
            tasks: Seq::empty(),
            message_log: Seq::empty(),
            pending_changes: Seq::empty(),
            last_poll: 0,
        }
    }

    /// The state after `message` was logged.
    pub open spec fn logged(self, message: Seq<char>) -> SystemView {
        SystemView { message_log: capped_log(self.message_log, message), ..self }
    }

    /// The state after a local agent was added under `id`.
    pub open spec fn with_agent(self, id: Id, config: AgentConfigView) -> SystemView {
        SystemView {
            agents: self.agents.insert(id, AgentView::fresh(id, config)),
            local_ids: self.local_ids.insert(id),
            ..self
        }.logged("Agent added: "@ + config.name)
    }

    /// The state after a pending task was added under `id`.
    pub open spec fn with_task(self, id: Id, description: Seq<char>) -> SystemView {
        SystemView {
            tasks: self.tasks.push(TaskView::pending(id, description)),
            ..self
        }.logged("Task added: "@ + description)
    }

    /// The state without the record of one agent.
    pub open spec fn without_agent_record(self, id: Id) -> SystemView {
        SystemView { agents: self.agents.remove(id), ..self }
    }

    /// The state with one more message at the end of the log, however
    /// long the log is.
    pub open spec fn noted(self, message: Seq<char>) -> SystemView {
        SystemView { message_log: self.message_log.push(message), ..self }
    }

    /// The state with `agent` as the record held under `id`.
    pub open spec fn with_agent_record(self, id: Id, agent: AgentView) -> SystemView {
        SystemView { agents: self.agents.insert(id, agent), ..self }
    }
}

impl Default for AgentSystem {
    fn default() -> (system: AgentSystem)
        ensures
            system@ == SystemView::empty(),
    {
        AgentSystem::new()
    }
}

impl AgentSystem {
    /// A system without agents or tasks, whose clock stands at zero.
    pub fn new() -> (system: AgentSystem)
        ensures
            system@ == SystemView::empty(),
    {
        let system = AgentSystem {
            agents: HashMap::new(),
            local_ids: HashSet::new(),
            tasks: Vec::new(),
            message_log: VecDeque::new(),
            pending_changes: VecDeque::new(),
            last_poll: 0,
        };
        assert(system@.agents =~= Map::empty());
        assert(system@.tasks =~= Seq::empty());
        assert(system@.message_log =~= Seq::empty());
        assert(system@.pending_changes =~= Seq::empty());
        system
    }

    /// Appends a message to the log and drops the oldest one where the
    /// log then holds more than [`LOG_CAPACITY`].
    pub fn log(&mut self, msg: String)
        ensures
            final(self)@ == old(self)@.logged(msg@),
    {
        self.message_log.push_back(msg);
        assert(message_views(self.message_log@) =~= old(self)@.message_log.push(msg@));
        if self.message_log.len() > LOG_CAPACITY {
            let ghost grown = message_views(self.message_log@);
            self.message_log.pop_front();
            assert(message_views(self.message_log@) =~= grown.drop_first());
        }
    }

    /// Adds a local agent under the given identifier: idle, with no task.
    /// An agent that was held under that identifier is replaced.
    pub fn add_agent_with_id(&mut self, id: Id, config: AgentConfig)
        ensures
            final(self)@ == old(self)@.with_agent(id, config@),
    {
        let mut message = String::from_str("Agent added: ");
        message.append(config.name.as_str());
        let agent = Agent::new(id, config);
        self.agents.insert(id, agent);
        self.local_ids.insert(id);
        assert(agent_views(self.agents@) =~= old(self)@.agents.insert(
            id,
            AgentView::fresh(id, config@),
        ));
        self.log(message);
    }

    /// Adds a local agent under a fresh identifier and returns the
    /// identifier.
    pub fn add_agent(&mut self, config: AgentConfig) -> (id: Id)
        ensures
            final(self)@ == old(self)@.with_agent(id, config@),
    {
        let id = fresh_id();
        self.add_agent_with_id(id, config);
        id
    }

    /// Adds a pending task under the given identifier, behind the tasks
    /// that are there.
    pub fn add_task_with_id(&mut self, id: Id, description: String)
        ensures
            final(self)@ == old(self)@.with_task(id, description@),
    {
        let mut message = String::from_str("Task added: ");
        message.append(description.as_str());
        let task = Task::new(id, description);
        self.tasks.push(task);
        assert(task_views(self.tasks@) =~= old(self)@.tasks.push(
            TaskView::pending(id, description@),
        ));
        self.log(message);
    }

    /// Adds a pending task under a fresh identifier and returns the
    /// identifier.  The second argument is reference material that the
    /// caller gathered for the task; a task record has no place for it
    /// and the state does not depend on it.
    pub fn add_task(&mut self, description: String, _context_docs: &str) -> (id: Id)
        ensures
            final(self)@ == old(self)@.with_task(id, description@),
    {
        let id = fresh_id();
        self.add_task_with_id(id, description);
        id
    }

    /// Puts an agent's record under the given identifier.
    pub(crate) fn put_agent(&mut self, id: Id, agent: Agent)
        ensures
            final(self)@ == old(self)@.with_agent_record(id, agent@),
    {
        let ghost view = agent@;
        self.agents.insert(id, agent);
        assert(agent_views(self.agents@) =~= old(self)@.agents.insert(id, view));
    }

    /// Takes an agent's record out, if the agent is held.
    pub(crate) fn take_agent(&mut self, id: Id) -> (agent: Option<Agent>)
        ensures
            match agent {
                Some(a) => {
                    &&& old(self)@.agents.contains_key(id)
                    &&& a@ == old(self)@.agents[id]
                    &&& final(self)@ == old(self)@.without_agent_record(id)
                },
                None => !old(self)@.agents.contains_key(id) && final(self)@ == old(self)@,
            },
    {
        let agent = self.agents.remove(&id);
        assert(agent_views(self.agents@) =~= old(self)@.agents.remove(id));
        if agent.is_none() {
            assert(old(self)@.agents.remove(id) =~= old(self)@.agents);
        }
        agent
    }

    /// Appends a message to the log as it is, however long the log is.
    pub(crate) fn note(&mut self, message: String)
        ensures
            final(self)@ == old(self)@.noted(message@),
    {
        self.message_log.push_back(message);
        assert(message_views(self.message_log@) =~= old(self)@.message_log.push(message@));
    }
}

} // verus!
