//! Moving between workspaces.
//!
//! A switch saves the workspace that is left, and it clears what is in
//! flight: the edits that wait for review, the changes not yet collected,
//! and the busy state of every agent.  An answer that arrives late then
//! finds an idle agent without a task and cannot finish a task of the
//! workspace that was entered.

use vstd::prelude::*;
use vstd::string::StringExecFns;
use crate::agent::{AgentStatus, AgentStatusView, AgentView, Id, TaskView, clone_tasks, task_views};
use crate::review::ReviewQueue;
use crate::system::{AgentSystem, SystemView};
use crate::workspace::{Workspace, WorkspaceStore, WorkspaceView};

verus! {

/// The record of an agent that was told to drop what it was doing.
pub open spec fn rested(agent: AgentView) -> AgentView {
    AgentView { status: AgentStatusView::Idle, current_task_id: None, ..agent }
}

/// The workspace that holds the given code and tasks under a name.
pub open spec fn snapshot_of(name: Seq<char>, code: Seq<char>, tasks: Seq<TaskView>) -> WorkspaceView {
    WorkspaceView { name, code, tasks }
}

impl SystemView {
    /// The state in which the agents of `done` dropped what they were
    /// doing.
    pub open spec fn with_rested(self, done: Set<Id>) -> SystemView {
        SystemView {
            agents: Map::new(
                |id: Id| self.agents.contains_key(id),
                |id: Id|
                    if done.contains(id) {
                        rested(self.agents[id])
                    } else {
                        self.agents[id]
                    },
            ),
            ..self
        }
    }

    /// The state in which every agent dropped what it was doing.
    pub open spec fn with_all_rested(self) -> SystemView {
        self.with_rested(self.agents.dom())
    }

    /// The state that a switch leaves before the workspace entered is
    /// loaded: nothing waits, nobody is busy.
    pub open spec fn cleared(self) -> SystemView {
        self.without_changes().with_all_rested()
    }
}

/// The store after the current workspace was saved into it.
pub open spec fn saved(
    store: Map<Seq<char>, WorkspaceView>,
    current: Seq<char>,
    code: Seq<char>,
    s: SystemView,
) -> Map<Seq<char>, WorkspaceView> {
    store.insert(current, snapshot_of(current, code, s.tasks))
}

/// The code that is live after a switch to `name`: that of the workspace
/// entered, or the code as it was where no workspace has that name.
pub open spec fn code_after_switch(
    store: Map<Seq<char>, WorkspaceView>,
    name: Seq<char>,
    code: Seq<char>,
) -> Seq<char> {
    if store.contains_key(name) {
        store[name].code
    } else {
        code
    }
}

/// The scheduler's state after a switch to `name`.
pub open spec fn system_after_switch(
    store: Map<Seq<char>, WorkspaceView>,
    name: Seq<char>,
    s: SystemView,
) -> SystemView {
    if store.contains_key(name) {
        s.cleared().with_tasks(store[name].tasks)
    } else {
        s.cleared()
    }
}

impl AgentSystem {
    /// Makes every agent drop what it was doing: each is idle and has no
    /// task.
    pub fn rest_agents(&mut self)
        ensures
            final(self)@ == old(self)@.with_all_rested(),
    {
        let keys = self.agent_ids();
        let ghost start = self@;
        let mut i: usize = 0;
        assert(self@.agents =~= start.with_rested(keys@.take(0).to_set()).agents);
        while i < keys.len()
            invariant
                i <= keys.len(),
                start == old(self)@,
                keys@.to_set() == start.agents.dom(),
                self@ == start.with_rested(keys@.take(i as int).to_set()),
            decreases keys.len() - i,
        {
            let id = keys[i];
            let ghost done = keys@.take(i as int).to_set();
            let ghost more = keys@.take(i + 1).to_set();
            proof {
                let longer = keys@.take(i + 1);
                assert forall|x: Id| more.contains(x) == done.insert(id).contains(x) by {
                    if x == id {
                        assert(longer[i as int] == x);
                    }
                }
            }
            match self.take_agent(id) {
                Some(mut agent) => {
                    agent.status = AgentStatus::Idle;
                    agent.current_task_id = None;
                    self.put_agent(id, agent);
                    assert(self@.agents =~= start.with_rested(more).agents);
                },
                None => {},
            }
            i += 1;
        }
        assert(keys@.take(keys.len() as int) =~= keys@);
    }

    /// Drops every proposed change that was not collected for review.
    pub fn clear_changes(&mut self)
        ensures
            final(self)@ == old(self)@.without_changes(),
    {
        self.pending_changes.clear();
        assert(self@.pending_changes =~= Seq::empty());
    }
}

/// Saves the current workspace: its code and tasks are kept under its
/// name, in place of what was kept there.
pub fn save_workspace(
    store: &mut WorkspaceStore,
    current: &String,
    live_code: &String,
    system: &AgentSystem,
)
    ensures
        final(store)@ == saved(old(store)@, current@, live_code@, system@),
{
    let workspace = Workspace {
        name: current.clone(),
        code: live_code.clone(),
        tasks: clone_tasks(&system.tasks),
    };
    store.insert(workspace);
}

/// Loads the workspace kept under `name`, if there is one: its code
/// becomes the live code and its tasks the tasks of the scheduler.
/// Returns whether one was found.
pub fn load_workspace(
    store: &WorkspaceStore,
    name: &String,
    live_code: &mut String,
    system: &mut AgentSystem,
) -> (found: bool)
    ensures
        found == store@.contains_key(name@),
        final(live_code)@ == code_after_switch(store@, name@, old(live_code)@),
        final(system)@ == if found {
            old(system)@.with_tasks(store@[name@].tasks)
        } else {
            old(system)@
        },
{
    match store.get(name) {
        Some(workspace) => {
            *live_code = workspace.code.clone();
            system.tasks = clone_tasks(&workspace.tasks);
            true
        },
        None => false,
    }
}

/// Switches to the workspace `name`.
///
/// The workspace that is left is saved first.  Then the review queue and
/// the proposed changes are emptied and every agent is made idle, with no
/// task.  Last the workspace entered is loaded, if one is kept under
/// `name`: its code becomes the live code and its tasks the tasks of the
/// scheduler.
pub fn switch_workspace(
    store: &mut WorkspaceStore,
    current: &mut String,
    live_code: &mut String,
    system: &mut AgentSystem,
    reviews: &mut ReviewQueue,
    name: String,
)
    ensures
        final(store)@ == saved(old(store)@, old(current)@, old(live_code)@, old(system)@),
        final(reviews)@ == Seq::<(Id, Seq<char>)>::empty(),
        final(current)@ == name@,
        final(live_code)@ == code_after_switch(final(store)@, name@, old(live_code)@),
        final(system)@ == system_after_switch(final(store)@, name@, old(system)@),
{
    save_workspace(store, current, live_code, system);
    reviews.clear();
    system.clear_changes();
    system.rest_agents();
    load_workspace(store, &name, live_code, system);
    *current = name;
}

/// The name of the copy that a fork makes of the workspace `current`.
pub open spec fn fork_name(current: Seq<char>) -> Seq<char> {
    current + "-copy"@
}

/// Forks the current workspace: its code and tasks are kept once more
/// under the name of the copy, which becomes the current workspace.
/// Nothing happens where a workspace is kept under that name already.
pub fn fork_workspace(
    store: &mut WorkspaceStore,
    current: &mut String,
    live_code: &String,
    system: &AgentSystem,
) -> (forked: bool)
    ensures
        forked == !old(store)@.contains_key(fork_name(old(current)@)),
        forked ==> final(current)@ == fork_name(old(current)@) && final(store)@ == saved(
            old(store)@,
            fork_name(old(current)@),
            live_code@,
            system@,
        ),
        !forked ==> final(current)@ == old(current)@ && final(store)@ == old(store)@,
{
    let mut name = current.clone();
    name.append("-copy");
    if store.contains(&name) {
        return false;
    }
    save_workspace(store, &name, live_code, system);
    *current = name;
    true
}

/// The store after an empty workspace was created under `name`, with the
/// workspace that was current saved first.
pub open spec fn with_created(
    store: Map<Seq<char>, WorkspaceView>,
    current: Seq<char>,
    code: Seq<char>,
    s: SystemView,
    name: Seq<char>,
) -> Map<Seq<char>, WorkspaceView> {
    saved(store, current, code, s).insert(name, snapshot_of(name, Seq::empty(), Seq::empty()))
}

/// Creates an empty workspace under `name` and enters it: the workspace
/// that was current is saved, and then there is no code and no task.
/// Nothing happens where `name` is empty or a workspace is kept under it
/// already.
pub fn create_workspace(
    store: &mut WorkspaceStore,
    current: &mut String,
    live_code: &mut String,
    system: &mut AgentSystem,
    name: String,
) -> (created: bool)
    ensures
        created == (name@.len() > 0 && !old(store)@.contains_key(name@)),
        created ==> {
            &&& final(store)@ == with_created(
                old(store)@,
                old(current)@,
                old(live_code)@,
                old(system)@,
                name@,
            )
            &&& final(current)@ == name@
            &&& final(live_code)@ == Seq::<char>::empty()
            &&& final(system)@ == old(system)@.with_tasks(Seq::empty())
        },
        !created ==> {
            &&& final(store)@ == old(store)@
            &&& final(current)@ == old(current)@
            &&& final(live_code)@ == old(live_code)@
            &&& final(system)@ == old(system)@
        },
{
    if name.as_str().is_empty() || store.contains(&name) {
        return false;
    }
    save_workspace(store, current, live_code, system);
    *live_code = String::new();
    system.tasks = Vec::new();
    assert(task_views(system.tasks@) =~= Seq::empty());
    let workspace = Workspace { name: name.clone(), code: String::new(), tasks: Vec::new() };
    store.insert(workspace);
    *current = name;
    true
}

} // verus!
