//! Reconciling finished requests with the scheduler's state.

use vstd::prelude::*;
use vstd::string::StringExecFns;
use crate::agent::{
    event_views, AgentEvent, AgentEventView, AgentStatus, AgentStatusView, AgentView,
    ChatMessage, ChatMessageView, Id, Task, TaskStatus, TaskView, chat_views, task_views,
};
use crate::ids::fresh_id;
use crate::plan::{parse_plan_lines, plan_descriptions, texts};
use crate::response::{extract_response_text, response_of};
use crate::system::{AgentSystem, SystemView, change_views};

verus! {

broadcast use vstd::std_specs::hash::group_hash_axioms;

/// Whether index `i` holds the first task of `tasks` with identifier `id`.
pub open spec fn first_with_id(tasks: Seq<TaskView>, id: Id, i: int) -> bool {
    &&& 0 <= i < tasks.len()
    &&& tasks[i].id == id
    &&& forall|j: int| 0 <= j < i ==> (#[trigger] tasks[j]).id != id
}

/// The index of the first task with identifier `id`, if there is one.
pub open spec fn task_index(tasks: Seq<TaskView>, id: Id) -> Option<int> {
    if exists|i: int| first_with_id(tasks, id, i) {
        Some(choose|i: int| first_with_id(tasks, id, i))
    } else {
        None
    }
}

/// The tasks that a plan adds: one pending task for each description,
/// under the identifier at the same place of `ids`.
pub open spec fn planned_tasks(ids: Seq<Id>, descriptions: Seq<Seq<char>>) -> Seq<TaskView> {
    Seq::new(descriptions.len(), |i: int| TaskView::pending(ids[i], descriptions[i]))
}

/// `tasks` with the task at index `i` marked done.
pub open spec fn with_done(tasks: Seq<TaskView>, i: int) -> Seq<TaskView> {
    tasks.update(i, TaskView { status: TaskStatus::Done, ..tasks[i] })
}

impl SystemView {
    /// The state with the tasks of a plan added behind those that are
    /// there.
    pub open spec fn with_planned(self, ids: Seq<Id>, descriptions: Seq<Seq<char>>) -> SystemView {
        SystemView { tasks: self.tasks + planned_tasks(ids, descriptions), ..self }
    }

    /// The index of the task that the agent `id` would finish now: the
    /// first task that carries the identifier of the agent's current task.
    pub open spec fn finishing(self, id: Id) -> Option<int> {
        match self.agents[id].current_task_id {
            Some(task) => task_index(self.tasks, task),
            None => None,
        }
    }

    /// The state after the answer to a work request of a known agent: the
    /// agent is idle again and has no task, its task is done, and the
    /// answer waits for review.
    pub open spec fn after_response(self, id: Id, body: Seq<char>) -> SystemView {
        let agent = self.agents[id];
        let done = self.finishing(id);
        SystemView {
            agents: self.agents.insert(
                id,
                AgentView { status: AgentStatusView::Idle, current_task_id: None, ..agent },
            ),
            tasks: match done {
                Some(i) => with_done(self.tasks, i),
                None => self.tasks,
            },
            message_log: match done {
                Some(_) => self.message_log.push(agent.config.name + " finished task."@),
                None => self.message_log,
            },
            pending_changes: self.pending_changes.push((id, response_of(body).text())),
            ..self
        }
    }

    /// The state after the answer to a chat request of a known agent: the
    /// answer stands at the end of the conversation, under the agent's
    /// name, and the agent is idle.
    pub open spec fn after_chat(self, id: Id, body: Seq<char>) -> SystemView {
        let agent = self.agents[id];
        SystemView {
            agents: self.agents.insert(
                id,
                AgentView {
                    status: AgentStatusView::Idle,
                    chat_history: agent.chat_history.push(
                        ChatMessageView {
                            sender: agent.config.name,
                            content: response_of(body).text(),
                        },
                    ),
                    ..agent
                },
            ),
            ..self
        }
    }

    /// The state after the answer to a planning request of a known agent:
    /// each task that the answer names is added as pending, under the
    /// identifiers `ids`, and the agent is idle.
    pub open spec fn after_plan(self, id: Id, body: Seq<char>, ids: Seq<Id>) -> SystemView {
        let agent = self.agents[id];
        SystemView {
            agents: self.agents.insert(id, AgentView { status: AgentStatusView::Idle, ..agent }),
            tasks: self.tasks + planned_tasks(ids, plan_descriptions(response_of(body).text())),
            message_log: self.message_log.push(agent.config.name + " generated a plan."@),
            ..self
        }
    }

    /// The state after a request of a known agent failed: the agent shows
    /// the error, and nothing else changes but the log.
    pub open spec fn after_error(self, id: Id, reason: Seq<char>) -> SystemView {
        let agent = self.agents[id];
        SystemView {
            agents: self.agents.insert(
                id,
                AgentView { status: AgentStatusView::Error(reason), ..agent },
            ),
            message_log: self.message_log.push(
                "Agent "@ + agent.config.name + " error: "@ + reason,
            ),
            ..self
        }
    }

    /// The number of fresh identifiers that an event takes: one for each
    /// task of a plan that reaches a known agent.
    pub open spec fn ids_needed(self, event: AgentEventView) -> nat {
        match event {
            AgentEventView::PlanResponse(id, body) => if self.agents.contains_key(id) {
                plan_descriptions(response_of(body).text()).len()
            } else {
                0
            },
            _ => 0,
        }
    }

    /// The state after one event.  An event for an agent that is not held
    /// changes nothing.
    pub open spec fn after_event(self, event: AgentEventView, ids: Seq<Id>) -> SystemView {
        if !self.agents.contains_key(event.agent()) {
            self
        } else {
            match event {
                AgentEventView::LlmResponse(id, body) => self.after_response(id, body),
                AgentEventView::ChatResponse(id, body) => self.after_chat(id, body),
                AgentEventView::PlanResponse(id, body) => self.after_plan(id, body, ids),
                AgentEventView::LlmError(id, reason) => self.after_error(id, reason),
            }
        }
    }
}

/// The first task with a given identifier stands at one index only.
pub proof fn lemma_first_with_id_unique(tasks: Seq<TaskView>, id: Id, i: int, j: int)
    requires
        first_with_id(tasks, id, i),
        first_with_id(tasks, id, j),
    ensures
        i == j,
{
}

/// Finds the first task with the given identifier.
pub fn find_task(tasks: &Vec<Task>, id: Id) -> (found: Option<usize>)
    ensures
        match found {
            Some(i) => task_index(task_views(tasks@), id) == Some(i as int) && first_with_id(
                task_views(tasks@),
                id,
                i as int,
            ),
            None => (task_index(task_views(tasks@), id) is None),
        },
{
    let ghost views = task_views(tasks@);
    let mut i: usize = 0;
    while i < tasks.len()
        invariant
            i <= tasks.len(),
            views == task_views(tasks@),
            forall|j: int| 0 <= j < i ==> (#[trigger] views[j]).id != id,
        decreases tasks.len() - i,
    {
        if tasks[i].id == id {
            proof {
                assert(first_with_id(views, id, i as int));
                let c = choose|c: int| first_with_id(views, id, c);
                lemma_first_with_id_unique(views, id, c, i as int);
            }
            return Some(i);
        }
        i += 1;
    }
    None
}

impl SystemView {
    /// The number of fresh identifiers that a run of events takes.
    pub open spec fn ids_needed_all(self, events: Seq<AgentEventView>) -> nat
        decreases events.len(),
    {
        if events.len() == 0 {
            0
        } else {
            self.ids_needed_all(events.drop_last()) + self.ids_needed(events.last())
        }
    }

    /// The state after a run of events, taken in order.  `ids` holds the
    /// identifiers for the tasks that the events create, in the order in
    /// which they are created.
    pub open spec fn after_events(self, events: Seq<AgentEventView>, ids: Seq<Id>) -> SystemView
        decreases events.len(),
    {
        if events.len() == 0 {
            self
        } else {
            let n = self.ids_needed_all(events.drop_last()) as int;
            self.after_events(events.drop_last(), ids.take(n)).after_event(
                events.last(),
                ids.skip(n),
            )
        }
    }
}

impl AgentSystem {
    /// Adds one pending task for each description, each under a fresh
    /// identifier, and returns the identifiers in the same order.
    fn add_planned(&mut self, descriptions: &Vec<String>) -> (created: Vec<Id>)
        ensures
            created.len() == descriptions.len(),
            final(self)@ == old(self)@.with_planned(created@, texts(descriptions@)),
    {
        let mut created: Vec<Id> = Vec::new();
        let ghost items = texts(descriptions@);
        let mut i: usize = 0;
        while i < descriptions.len()
            invariant
                i <= descriptions.len(),
                created.len() == i,
                items == texts(descriptions@),
                self@ == old(self)@.with_planned(created@, items.take(i as int)),
            decreases descriptions.len() - i,
        {
            let ghost before = self@.tasks;
            let id = fresh_id();
            let description = descriptions[i].clone();
            self.tasks.push(Task::new(id, description));
            created.push(id);
            assert(self@.tasks =~= before.push(TaskView::pending(id, items[i as int])));
            assert(self@.tasks =~= old(self)@.tasks + planned_tasks(
                created@,
                items.take(i + 1),
            ));
            i += 1;
        }
        assert(items.take(i as int) =~= items);
        created
    }

    /// Reconciles one finished request with the state and returns the
    /// identifiers of the tasks that it created.
    pub fn apply_event(&mut self, event: AgentEvent) -> (created: Vec<Id>)
        ensures
            created.len() == old(self)@.ids_needed(event@),
            final(self)@ == old(self)@.after_event(event@, created@),
    {
        match event {
            AgentEvent::LlmResponse(id, body) => {
                match self.take_agent(id) {
                    Some(mut agent) => {
                        let answer = extract_response_text(body).into_text();
                        agent.status = AgentStatus::Idle;
                        if let Some(task) = agent.current_task_id {
                            if let Some(i) = find_task(&self.tasks, task) {
                                self.tasks[i].status = TaskStatus::Done;
                                assert(task_views(self.tasks@) =~= with_done(
                                    old(self)@.tasks,
                                    i as int,
                                ));
                                let mut message = agent.config.name.clone();
                                message.append(" finished task.");
                                self.note(message);
                            }
                        }
                        agent.current_task_id = None;
                        self.pending_changes.push_back((id, answer));
                        assert(change_views(self.pending_changes@) =~= old(
                            self,
                        )@.pending_changes.push((id, answer@)));
                        self.put_agent(id, agent);
                        assert(self@.agents =~= old(self)@.after_response(id, body@).agents);
                    },
                    None => {},
                }
                Vec::new()
            },
            AgentEvent::ChatResponse(id, body) => {
                match self.take_agent(id) {
                    Some(mut agent) => {
                        let answer = extract_response_text(body).into_text();
                        let ghost history = chat_views(agent.chat_history@);
                        let message = ChatMessage {
                            sender: agent.config.name.clone(),
                            content: answer,
                        };
                        agent.chat_history.push(message);
                        assert(chat_views(agent.chat_history@) =~= history.push(message@));
                        agent.status = AgentStatus::Idle;
                        self.put_agent(id, agent);
                        assert(self@.agents =~= old(self)@.after_chat(id, body@).agents);
                    },
                    None => {},
                }
                Vec::new()
            },
            AgentEvent::PlanResponse(id, body) => {
                match self.take_agent(id) {
                    Some(mut agent) => {
                        let answer = extract_response_text(body).into_text();
                        let descriptions = parse_plan_lines(answer.as_str());
                        let created = self.add_planned(&descriptions);
                        let mut message = agent.config.name.clone();
                        message.append(" generated a plan.");
                        self.note(message);
                        agent.status = AgentStatus::Idle;
                        self.put_agent(id, agent);
                        assert(self@.agents =~= old(self)@.after_plan(
                            id,
                            body@,
                            created@,
                        ).agents);
                        created
                    },
                    None => Vec::new(),
                }
            },
            AgentEvent::LlmError(id, reason) => {
                match self.take_agent(id) {
                    Some(mut agent) => {
                        let mut message = String::from_str("Agent ");
                        message.append(agent.config.name.as_str());
                        message.append(" error: ");
                        message.append(reason.as_str());
                        agent.status = AgentStatus::Error(reason);
                        self.note(message);
                        self.put_agent(id, agent);
                        assert(self@.agents =~= old(self)@.after_error(id, reason@).agents);
                    },
                    None => {},
                }
                Vec::new()
            },
        }
    }
}

impl AgentSystem {
    /// Reconciles a run of finished requests with the state, oldest
    /// first, and returns the identifiers of the tasks that they created.
    pub fn apply_events(&mut self, events: Vec<AgentEvent>) -> (created: Vec<Id>)
        ensures
            created.len() == old(self)@.ids_needed_all(event_views(events@)),
            final(self)@ == old(self)@.after_events(
                event_views(events@),
                created@,
            ),
    {
        let ghost views = event_views(events@);
        let ghost start = self@;
        let mut created: Vec<Id> = Vec::new();
        for event in it: events.into_iter()
            invariant
                it.seq() == events@,
                views == event_views(events@),
                start == old(self)@,
                created.len() == start.ids_needed_all(views.take(it.index() as int)),
                self@ == start.after_events(views.take(it.index() as int), created@),
                self@.agents.dom() == start.agents.dom(),
        {
            let ghost k = it.index() as int;
            let ghost earlier = created@;
            let mut ids = self.apply_event(event);
            proof {
                let done = views.take(k + 1);
                assert(done.drop_last() =~= views.take(k));
                assert((earlier + ids@).take(earlier.len() as int) =~= earlier);
                assert((earlier + ids@).skip(earlier.len() as int) =~= ids@);
            }
            created.append(&mut ids);
        }
        assert(views.take(views.len() as int) =~= views);
        created
    }
}

} // verus!
