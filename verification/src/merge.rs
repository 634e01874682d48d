//! The merge policy: how what peers report is folded into local state.
//!
//! Agents that this process owns are never overwritten by a peer; tasks
//! are shared, and the last report of a task wins; code is replaced only
//! where it differs, so that an edit does not echo between peers.

use vstd::prelude::*;
use crate::agent::{Agent, AgentView, Id, Task, TaskView, task_views};
use crate::collab::{CollabMessage, CollabMessageView, CollabSystem, agent_list_views};
use crate::reconcile::{find_task, task_index};
use crate::system::{AgentSystem, SystemView};

verus! {

broadcast use vstd::std_specs::hash::group_hash_axioms;

/// `tasks` after a peer reported `task`: the report takes the place of
/// the first task with its identifier, or stands at the end if there is
/// none.
pub open spec fn with_remote_task(tasks: Seq<TaskView>, task: TaskView) -> Seq<TaskView> {
    match task_index(tasks, task.id) {
        Some(i) => tasks.update(i, task),
        None => tasks.push(task),
    }
}

/// `tasks` after a peer reported `reports`, taken in order.
pub open spec fn with_remote_tasks(tasks: Seq<TaskView>, reports: Seq<TaskView>) -> Seq<TaskView>
    decreases reports.len(),
{
    if reports.len() == 0 {
        tasks
    } else {
        with_remote_task(with_remote_tasks(tasks, reports.drop_last()), reports.last())
    }
}

impl SystemView {
    /// The state after a peer reported `agent`: the report is held under
    /// the agent's identifier, unless this process owns that identifier.
    pub open spec fn with_remote_agent(self, agent: AgentView) -> SystemView {
        if self.local_ids.contains(agent.id) {
            self
        } else {
            self.with_agent_record(agent.id, agent)
        }
    }

    /// The state after a peer reported `agents`, taken in order.
    pub open spec fn with_remote_agents(self, agents: Seq<AgentView>) -> SystemView
        decreases agents.len(),
    {
        if agents.len() == 0 {
            self
        } else {
            self.with_remote_agents(agents.drop_last()).with_remote_agent(agents.last())
        }
    }

    /// The state with another task list.
    pub open spec fn with_tasks(self, tasks: Seq<TaskView>) -> SystemView {
        SystemView { tasks, ..self }
    }

    /// The state after a peer's update of agents and tasks.
    pub open spec fn after_update(self, agents: Seq<AgentView>, tasks: Seq<TaskView>) -> SystemView {
        let merged = self.with_remote_agents(agents);
        merged.with_tasks(with_remote_tasks(merged.tasks, tasks))
    }
}

/// Takes over the code that a peer reported, if it differs from the code
/// held, and says whether it did.
pub fn merge_code(live_code: &mut String, text: String) -> (changed: bool)
    ensures
        changed == (old(live_code)@ != text@),
        final(live_code)@ == text@,
{
    if *live_code != text {
        *live_code = text;
        true
    } else {
        false
    }
}

impl AgentSystem {
    /// Folds the agents that a peer reported into the agents held.  A
    /// report under an identifier that this process owns is dropped.
    pub fn merge_remote_agents(&mut self, agents: Vec<Agent>)
        ensures
            final(self)@ == old(self)@.with_remote_agents(agent_list_views(agents@)),
    {
        let ghost views = agent_list_views(agents@);
        let ghost start = self@;
        for agent in it: agents.into_iter()
            invariant
                it.seq() == agents@,
                views == agent_list_views(agents@),
                start == old(self)@,
                self@ == start.with_remote_agents(views.take(it.index() as int)),
        {
            proof {
                let next = views.take(it.index() + 1);
                assert(next.drop_last() =~= views.take(it.index() as int));
            }
            if !self.local_ids.contains(&agent.id) {
                let id = agent.id;
                self.put_agent(id, agent);
            }
        }
        assert(views.take(views.len() as int) =~= views);
    }

    /// Folds the tasks that a peer reported into the tasks held: a report
    /// replaces the first task with its identifier, or is added at the
    /// end.
    pub fn merge_remote_tasks(&mut self, tasks: Vec<Task>)
        ensures
            final(self)@ == old(self)@.with_tasks(
                with_remote_tasks(old(self)@.tasks, task_views(tasks@)),
            ),
    {
        let ghost views = task_views(tasks@);
        let ghost start = self@;
        for task in it: tasks.into_iter()
            invariant
                it.seq() == tasks@,
                views == task_views(tasks@),
                start == old(self)@,
                self@ == start.with_tasks(
                    with_remote_tasks(start.tasks, views.take(it.index() as int)),
                ),
        {
            let ghost held = self@.tasks;
            proof {
                let next = views.take(it.index() + 1);
                assert(next.drop_last() =~= views.take(it.index() as int));
            }
            match find_task(&self.tasks, task.id) {
                Some(i) => {
                    self.tasks.set(i, task);
                    assert(task_views(self.tasks@) =~= held.update(i as int, task@));
                },
                None => {
                    self.tasks.push(task);
                    assert(task_views(self.tasks@) =~= held.push(task@));
                },
            }
        }
        assert(views.take(views.len() as int) =~= views);
    }

    /// Folds a peer's update of agents and tasks into the state.
    pub fn merge_update(&mut self, agents: Vec<Agent>, tasks: Vec<Task>)
        ensures
            final(self)@ == old(self)@.after_update(
                agent_list_views(agents@),
                task_views(tasks@),
            ),
    {
        self.merge_remote_agents(agents);
        self.merge_remote_tasks(tasks);
    }
}

/// Folds one message of a peer into the local state, and says whether it
/// changed the code.  `Hello` enters the peer in the directory; `Code`
/// replaces the code if it differs; `AgentUpdate` merges agents and tasks.
pub fn merge_message(
    system: &mut AgentSystem,
    collab: &mut CollabSystem,
    live_code: &mut String,
    message: CollabMessage,
) -> (code_changed: bool)
    ensures
        match message@ {
            CollabMessageView::Hello { id, name } => {
                &&& final(collab)@ == old(collab)@.with_peer(id, name)
                &&& final(system)@ == old(system)@
                &&& final(live_code)@ == old(live_code)@
                &&& !code_changed
            },
            CollabMessageView::Code { text } => {
                &&& final(collab)@ == old(collab)@
                &&& final(system)@ == old(system)@
                &&& final(live_code)@ == text
                &&& code_changed == (old(live_code)@ != text)
            },
            CollabMessageView::AgentUpdate { agents, tasks } => {
                &&& final(collab)@ == old(collab)@
                &&& final(system)@ == old(system)@.after_update(agents, tasks)
                &&& final(live_code)@ == old(live_code)@
                &&& !code_changed
            },
        },
{
    match message {
        CollabMessage::Hello { id, name } => {
            collab.greet(id, name);
            false
        },
        CollabMessage::Code { text } => merge_code(live_code, text),
        CollabMessage::AgentUpdate { agents, tasks } => {
            system.merge_update(agents, tasks);
            false
        },
    }
}

/// Merging what a peer reports leaves every agent that this process owns
/// as it was: no record appears, disappears or changes under an
/// identifier of the local set, whatever the report holds.
pub proof fn law_merge_keeps_local_agents(s: SystemView, agents: Seq<AgentView>, id: Id)
    requires
        s.local_ids.contains(id),
    ensures
        s.with_remote_agents(agents).local_ids == s.local_ids,
        s.with_remote_agents(agents).agents.contains_key(id) == s.agents.contains_key(id),
        s.with_remote_agents(agents).agents[id] == s.agents[id],
    decreases agents.len(),
{
    if agents.len() > 0 {
        law_merge_keeps_local_agents(s, agents.drop_last(), id);
    }
}

/// A peer's update leaves every agent that this process owns as it was,
/// and touches nothing but agents and tasks.
pub proof fn law_update_keeps_local_agents(
    s: SystemView,
    agents: Seq<AgentView>,
    tasks: Seq<TaskView>,
    id: Id,
)
    requires
        s.local_ids.contains(id),
    ensures
        s.after_update(agents, tasks).agents.contains_key(id) == s.agents.contains_key(id),
        s.after_update(agents, tasks).agents[id] == s.agents[id],
        s.after_update(agents, tasks).local_ids == s.local_ids,
{
    law_merge_keeps_local_agents(s, agents, id);
}

} // verus!
