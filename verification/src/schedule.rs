//! The tick of the scheduler: the throttle, and the pass that hands
//! pending tasks to idle agents.

use vstd::prelude::*;
use vstd::string::StringExecFns;
use vstd::std_specs::iter::IteratorSpec;
use crate::agent::{
    event_views, AgentEvent, AgentEventView, AgentStatus, AgentStatusView, AgentView, Id, Task,
    TaskStatus, TaskView, task_views,
};
use crate::dispatch::{LlmRequest, LlmRequestView, build_work_request, request_views, work_request};
use crate::system::{AgentSystem, SystemView, POLL_INTERVAL_MS};

verus! {

broadcast use vstd::std_specs::hash::group_hash_axioms;

/// Whether index `i` holds the first pending task of `tasks`.
pub open spec fn is_first_pending(tasks: Seq<TaskView>, i: int) -> bool {
    &&& 0 <= i < tasks.len()
    &&& tasks[i].status == TaskStatus::Pending
    &&& forall|j: int| 0 <= j < i ==> (#[trigger] tasks[j]).status != TaskStatus::Pending
}

/// The index of the first pending task, if there is one.
pub open spec fn first_pending(tasks: Seq<TaskView>) -> Option<int> {
    if exists|i: int| is_first_pending(tasks, i) {
        Some(choose|i: int| is_first_pending(tasks, i))
    } else {
        None
    }
}

/// `tasks` with the task at index `i` in progress for `agent`.
pub open spec fn with_assigned(tasks: Seq<TaskView>, i: int, agent: Id) -> Seq<TaskView> {
    tasks.update(
        i,
        TaskView { status: TaskStatus::InProgress, assignee: Some(agent), ..tasks[i] },
    )
}

/// The record of an agent that was just given `task`, with `code` as the
/// code it starts from.
pub open spec fn at_work(agent: AgentView, task: Id, code: Seq<char>) -> AgentView {
    AgentView {
        status: AgentStatusView::Thinking("Requesting LLM..."@),
        current_task_id: Some(task),
        snapshot: Some(code),
        ..agent
    }
}

/// The model of an optional request.
pub open spec fn optional_request_view(request: Option<LlmRequest>) -> Option<LlmRequestView> {
    match request {
        Some(r) => Some(r@),
        None => None,
    }
}

impl SystemView {
    /// The index of the task that `agent` is given when its turn comes:
    /// the first pending task, if the agent is held.
    pub open spec fn assignment(self, agent: Id) -> Option<int> {
        if self.agents.contains_key(agent) {
            first_pending(self.tasks)
        } else {
            None
        }
    }

    /// The state after `agent` had its turn in an assignment pass.
    pub open spec fn after_assignment(self, agent: Id, code: Seq<char>) -> SystemView {
        match self.assignment(agent) {
            Some(i) => SystemView {
                agents: self.agents.insert(
                    agent,
                    at_work(self.agents[agent], self.tasks[i].id, code),
                ),
                tasks: with_assigned(self.tasks, i, agent),
                ..self
            }.logged(self.agents[agent].config.name + " started: "@ + self.tasks[i].description),
            None => self,
        }
    }

    /// The request that goes out when `agent` has its turn, if it is given
    /// a task.
    pub open spec fn assignment_request(self, agent: Id, code: Seq<char>) -> Option<
        LlmRequestView,
    > {
        match self.assignment(agent) {
            Some(i) => Some(
                work_request(agent, self.agents[agent].config, self.tasks[i].description, code),
            ),
            None => None,
        }
    }

    /// The state after the agents of `order` had their turns, one after
    /// the other.
    pub open spec fn after_assignments(self, order: Seq<Id>, code: Seq<char>) -> SystemView
        decreases order.len(),
    {
        if order.len() == 0 {
            self
        } else {
            self.after_assignments(order.drop_last(), code).after_assignment(order.last(), code)
        }
    }

    /// The requests that go out while the agents of `order` have their
    /// turns, in that order.
    pub open spec fn assignment_requests(self, order: Seq<Id>, code: Seq<char>) -> Seq<
        LlmRequestView,
    >
        decreases order.len(),
    {
        if order.len() == 0 {
            Seq::empty()
        } else {
            let earlier = self.assignment_requests(order.drop_last(), code);
            match self.after_assignments(order.drop_last(), code).assignment_request(
                order.last(),
                code,
            ) {
                Some(request) => earlier.push(request),
                None => earlier,
            }
        }
    }
}

/// The first pending task stands at one index only.
pub proof fn lemma_first_pending_unique(tasks: Seq<TaskView>, i: int, j: int)
    requires
        is_first_pending(tasks, i),
        is_first_pending(tasks, j),
    ensures
        i == j,
{
}

/// Finds the first pending task.
pub fn find_pending(tasks: &Vec<Task>) -> (found: Option<usize>)
    ensures
        match found {
            Some(i) => first_pending(task_views(tasks@)) == Some(i as int) && is_first_pending(
                task_views(tasks@),
                i as int,
            ),
            None => (first_pending(task_views(tasks@)) is None),
        },
{
    let ghost views = task_views(tasks@);
    let mut i: usize = 0;
    while i < tasks.len()
        invariant
            i <= tasks.len(),
            views == task_views(tasks@),
            forall|j: int| 0 <= j < i ==> (#[trigger] views[j]).status != TaskStatus::Pending,
        decreases tasks.len() - i,
    {
        match tasks[i].status {
            TaskStatus::Pending => {
                proof {
                    assert(is_first_pending(views, i as int));
                    let c = choose|c: int| is_first_pending(views, c);
                    lemma_first_pending_unique(views, c, i as int);
                }
                return Some(i);
            },
            _ => {},
        }
        i += 1;
    }
    None
}

impl AgentSystem {
    /// Gives `agent_id` its turn in an assignment pass: if the agent is
    /// held and a task is pending, the first pending task becomes the
    /// agent's, and the request for it is returned.
    pub fn assign_task(&mut self, agent_id: Id, current_code: &str) -> (request: Option<LlmRequest>)
        ensures
            final(self)@ == old(self)@.after_assignment(agent_id, current_code@),
            optional_request_view(request) == old(self)@.assignment_request(
                agent_id,
                current_code@,
            ),
    {
        let found = find_pending(&self.tasks);
        match found {
            Some(i) => {
                match self.take_agent(agent_id) {
                    Some(mut agent) => {
                        let task_id = self.tasks[i].id;
                        let description = self.tasks[i].description.clone();
                        self.tasks[i].status = TaskStatus::InProgress;
                        self.tasks[i].assignee = Some(agent_id);
                        assert(task_views(self.tasks@) =~= with_assigned(
                            old(self)@.tasks,
                            i as int,
                            agent_id,
                        ));
                        agent.status = AgentStatus::Thinking(String::from_str("Requesting LLM..."));
                        agent.current_task_id = Some(task_id);
                        agent.snapshot = Some(String::from_str(current_code));
                        let mut message = agent.config.name.clone();
                        message.append(" started: ");
                        message.append(description.as_str());
                        let request = build_work_request(
                            agent_id,
                            &agent.config,
                            description.as_str(),
                            current_code,
                        );
                        self.put_agent(agent_id, agent);
                        assert(self@.agents =~= old(self)@.agents.insert(
                            agent_id,
                            at_work(
                                old(self)@.agents[agent_id],
                                old(self)@.tasks[i as int].id,
                                current_code@,
                            ),
                        ));
                        self.log(message);
                        Some(request)
                    },
                    None => None,
                }
            },
            None => None,
        }
    }

    /// Gives each agent of `order` its turn, one after the other, and
    /// returns the requests for the tasks that were handed out.
    pub fn assign_tasks(&mut self, order: &Vec<Id>, current_code: &str) -> (requests: Vec<
        LlmRequest,
    >)
        ensures
            final(self)@ == old(self)@.after_assignments(order@, current_code@),
            request_views(requests@) == old(self)@.assignment_requests(order@, current_code@),
    {
        let ghost start = self@;
        let mut requests: Vec<LlmRequest> = Vec::new();
        let mut i: usize = 0;
        while i < order.len()
            invariant
                i <= order.len(),
                start == old(self)@,
                self@ == start.after_assignments(order@.take(i as int), current_code@),
                request_views(requests@) == start.assignment_requests(
                    order@.take(i as int),
                    current_code@,
                ),
            decreases order.len() - i,
        {
            proof {
                let next = order@.take(i + 1);
                assert(next.drop_last() =~= order@.take(i as int));
            }
            match self.assign_task(order[i], current_code) {
                Some(request) => {
                    requests.push(request);
                },
                None => {},
            }
            i += 1;
        }
        assert(order@.take(i as int) =~= order@);
        requests
    }
}

impl SystemView {
    /// Whether `agent` may be given a task: it was created here, is held,
    /// and is idle.
    pub open spec fn is_idle_local(self, agent: Id) -> bool {
        &&& self.local_ids.contains(agent)
        &&& self.agents.contains_key(agent)
        &&& self.agents[agent].status is Idle
    }

    /// The agents that may be given a task.
    pub open spec fn idle_local(self) -> Set<Id> {
        Set::new(|agent: Id| self.is_idle_local(agent))
    }

    /// Whether `order` walks the agents held, each once.
    pub open spec fn is_walk(self, order: Seq<Id>) -> bool {
        order.no_duplicates() && order.to_set() == self.agents.dom()
    }
}

impl AgentSystem {
    /// The identifiers under which agents are held, each once, in the
    /// order in which the map hands them out, which is not fixed.
    pub fn agent_ids(&self) -> (keys: Vec<Id>)
        ensures
            self@.is_walk(keys@),
    {
        let mut keys: Vec<Id> = Vec::new();
        let ghost all = self.agents.keys().remaining().unref();
        for key in it: self.agents.keys()
            invariant
                all == it.seq().unref(),
                all.no_duplicates(),
                all.to_set() == self.agents@.dom(),
                keys@ == all.take(it.index() as int),
        {
            keys.push(*key);
        }
        assert(keys@ =~= all);
        assert(self@.agents.dom() =~= self.agents@.dom());
        keys
    }

    /// Collects the agents that may be given a task.  Each stands once in
    /// the result; the order is that in which the map hands its keys out
    /// and is not fixed.
    pub fn idle_local_agents(&self) -> (ids: Vec<Id>)
        ensures
            ids@.no_duplicates(),
            ids@.to_set() == self@.idle_local(),
    {
        let keys = self.agent_ids();
        let ghost state = self@;
        let mut ids: Vec<Id> = Vec::new();
        let mut i: usize = 0;
        while i < keys.len()
            invariant
                i <= keys.len(),
                state == self@,
                keys@.no_duplicates(),
                ids@.no_duplicates(),
                forall|j: int|
                    0 <= j < ids.len() ==> state.is_idle_local(#[trigger] ids@[j]) && exists|m: int|
                        0 <= m < i && keys@[m] == ids@[j],
                forall|m: int|
                    0 <= m < i && state.is_idle_local(#[trigger] keys@[m]) ==> ids@.contains(
                        keys@[m],
                    ),
            decreases keys.len() - i,
        {
            let id = keys[i];
            let ghost before = ids@;
            let mut idle = false;
            if self.local_ids.contains(&id) {
                match self.agents.get(&id) {
                    Some(agent) => {
                        idle = agent.status.is_idle();
                    },
                    None => {},
                }
            }
            if idle {
                ids.push(id);
                proof {
                    assert forall|m: int|
                        0 <= m < i + 1 && state.is_idle_local(
                            #[trigger] keys@[m],
                        ) implies ids@.contains(keys@[m]) by {
                        if m < i {
                            let j = choose|j: int| 0 <= j < before.len() && before[j] == keys@[m];
                            assert(ids@[j] == keys@[m]);
                        } else {
                            assert(ids@[before.len() as int] == keys@[m]);
                        }
                    }
                }
            }
            i += 1;
        }
        ids
    }
}

/// What one tick of the scheduler did.
#[derive(Debug)]
pub struct Tick {
    /// The requests to send, one for each task that was handed out, in
    /// the order in which the tasks were handed out.
    pub requests: Vec<LlmRequest>,
    /// The identifiers of the tasks that plans created, in the order in
    /// which they were created.
    pub created_tasks: Vec<Id>,
    /// The agents that had a turn in the assignment pass, in the order of
    /// their turns; empty when the pass was held back.
    pub candidates: Vec<Id>,
}

impl SystemView {
    /// Whether an assignment pass at time `now` comes too soon after the
    /// last one.
    pub open spec fn throttled(self, now: u64) -> bool {
        now - self.last_poll < POLL_INTERVAL_MS
    }

    /// The state with `now` as the time of the last assignment pass.
    pub open spec fn stamped(self, now: u64) -> SystemView {
        SystemView { last_poll: now, ..self }
    }

    /// Whether `order` is a way to take turns at time `now`: nobody while
    /// the pass is held back, and else every agent that may be given a
    /// task, once.
    pub open spec fn is_turn_order(self, now: u64, order: Seq<Id>) -> bool {
        if self.throttled(now) {
            order == Seq::<Id>::empty()
        } else {
            order.no_duplicates() && order.to_set() == self.idle_local()
        }
    }

    /// The state after the assignment pass of a tick at time `now`, if
    /// one is due, with turns taken in `order`.
    pub open spec fn after_pass(self, now: u64, code: Seq<char>, order: Seq<Id>) -> SystemView {
        if self.throttled(now) {
            self
        } else {
            self.stamped(now).after_assignments(order, code)
        }
    }

    /// The requests of the assignment pass of a tick at time `now`.
    pub open spec fn pass_requests(self, now: u64, code: Seq<char>, order: Seq<Id>) -> Seq<
        LlmRequestView,
    > {
        if self.throttled(now) {
            Seq::empty()
        } else {
            self.stamped(now).assignment_requests(order, code)
        }
    }

    /// The state after a tick: the events are reconciled, and then the
    /// assignment pass runs if it is due.
    pub open spec fn after_poll(
        self,
        now: u64,
        code: Seq<char>,
        events: Seq<AgentEventView>,
        ids: Seq<Id>,
        order: Seq<Id>,
    ) -> SystemView {
        self.after_events(events, ids).after_pass(now, code, order)
    }

    /// The requests of a tick.
    pub open spec fn poll_requests(
        self,
        now: u64,
        code: Seq<char>,
        events: Seq<AgentEventView>,
        ids: Seq<Id>,
        order: Seq<Id>,
    ) -> Seq<LlmRequestView> {
        self.after_events(events, ids).pass_requests(now, code, order)
    }
}

impl AgentSystem {
    /// Runs the assignment pass of a tick at time `now`, if one is due:
    /// each agent that may be given a task takes the first task that is
    /// still pending.  Returns the agents in the order of their turns and
    /// the requests for the tasks handed out.
    pub fn assignment_pass(&mut self, now: u64, current_code: &str) -> (pass: (
        Vec<Id>,
        Vec<LlmRequest>,
    ))
        ensures
            old(self)@.is_turn_order(now, pass.0@),
            final(self)@ == old(self)@.after_pass(now, current_code@, pass.0@),
            request_views(pass.1@) == old(self)@.pass_requests(now, current_code@, pass.0@),
    {
        if now < self.last_poll || now - self.last_poll < POLL_INTERVAL_MS {
            let requests: Vec<LlmRequest> = Vec::new();
            return (Vec::new(), requests);
        }
        self.last_poll = now;
        let candidates = self.idle_local_agents();
        assert(self@.idle_local() =~= old(self)@.idle_local());
        let requests = self.assign_tasks(&candidates, current_code);
        (candidates, requests)
    }

    /// One tick of the scheduler at time `now`, in milliseconds.
    ///
    /// `events` are the finished requests that arrived since the last
    /// tick, oldest first; they are reconciled in that order, whatever the
    /// time.  Then, unless the last assignment pass is less than
    /// [`POLL_INTERVAL_MS`] ago, the time is recorded and each local idle
    /// agent is given the first task that is still pending, with
    /// `current_code` as its snapshot.  The requests in the result are to
    /// be sent by the caller.
    pub fn poll(&mut self, now: u64, current_code: &str, events: Vec<AgentEvent>) -> (tick: Tick)
        ensures
            tick.created_tasks.len() == old(self)@.ids_needed_all(event_views(events@)),
            old(self)@.after_events(event_views(events@), tick.created_tasks@).is_turn_order(
                now,
                tick.candidates@,
            ),
            final(self)@ == old(self)@.after_poll(
                now,
                current_code@,
                event_views(events@),
                tick.created_tasks@,
                tick.candidates@,
            ),
            request_views(tick.requests@) == old(self)@.poll_requests(
                now,
                current_code@,
                event_views(events@),
                tick.created_tasks@,
                tick.candidates@,
            ),
    {
        let created_tasks = self.apply_events(events);
        let (candidates, requests) = self.assignment_pass(now, current_code);
        Tick { requests, created_tasks, candidates }
    }
}

} // verus!
