//! Properties of the scheduler that hold in every state.
//!
//! Each is stated over the models that the contracts of
//! [`AgentSystem`](crate::system::AgentSystem) use, so that it holds of
//! every run of the executable code.

use vstd::prelude::*;
use crate::agent::{AgentEventView, AgentStatusView, Id, TaskStatus, TaskView};
use crate::dispatch::LlmRequestView;
use crate::reconcile::first_with_id;
use crate::schedule::{at_work, first_pending, is_first_pending, lemma_first_pending_unique, with_assigned};
use crate::system::{SystemView, POLL_INTERVAL_MS};

verus! {

/// Events change neither the clock nor which agents are held or local.
pub proof fn lemma_event_keeps_frame(s: SystemView, event: AgentEventView, ids: Seq<Id>)
    ensures
        s.after_event(event, ids).last_poll == s.last_poll,
        s.after_event(event, ids).local_ids == s.local_ids,
        s.after_event(event, ids).agents.dom() == s.agents.dom(),
{
}

/// A run of events changes neither the clock nor which agents are held or
/// local.
pub proof fn lemma_events_keep_frame(s: SystemView, events: Seq<AgentEventView>, ids: Seq<Id>)
    ensures
        s.after_events(events, ids).last_poll == s.last_poll,
        s.after_events(events, ids).local_ids == s.local_ids,
        s.after_events(events, ids).agents.dom() == s.agents.dom(),
    decreases events.len(),
{
    if events.len() > 0 {
        let n = s.ids_needed_all(events.drop_last()) as int;
        lemma_events_keep_frame(s, events.drop_last(), ids.take(n));
        lemma_event_keeps_frame(
            s.after_events(events.drop_last(), ids.take(n)),
            events.last(),
            ids.skip(n),
        );
    }
}

/// Handing out tasks does not change the clock.
pub proof fn lemma_assignments_keep_clock(s: SystemView, order: Seq<Id>, code: Seq<char>)
    ensures
        s.after_assignments(order, code).last_poll == s.last_poll,
    decreases order.len(),
{
    if order.len() > 0 {
        lemma_assignments_keep_clock(s, order.drop_last(), code);
    }
}

/// A tick that finds no event, inside the throttle window, changes
/// nothing and sends nothing; so does every further such tick.
pub proof fn law_idle_tick_changes_nothing(
    s: SystemView,
    first: u64,
    second: u64,
    code: Seq<char>,
    ids: Seq<Id>,
    order: Seq<Id>,
)
    requires
        s.throttled(first),
        s.throttled(second),
    ensures
        s.after_poll(first, code, Seq::empty(), ids, order) == s,
        s.poll_requests(first, code, Seq::empty(), ids, order) == Seq::<LlmRequestView>::empty(),
        s.after_poll(first, code, Seq::empty(), ids, order).after_poll(
            second,
            code,
            Seq::empty(),
            ids,
            order,
        ) == s,
        s.after_poll(first, code, Seq::empty(), ids, order).poll_requests(
            second,
            code,
            Seq::empty(),
            ids,
            order,
        ) == Seq::<LlmRequestView>::empty(),
{
}

/// Of two ticks less than [`POLL_INTERVAL_MS`] apart, at most one runs an
/// assignment pass: where the first runs one, it records its time, and the
/// second hands out nothing and sends nothing, whatever events either of
/// them finds.
pub proof fn law_throttle(
    s: SystemView,
    first: u64,
    second: u64,
    code: Seq<char>,
    events1: Seq<AgentEventView>,
    ids1: Seq<Id>,
    order1: Seq<Id>,
    events2: Seq<AgentEventView>,
    ids2: Seq<Id>,
    order2: Seq<Id>,
)
    requires
        second - first < POLL_INTERVAL_MS,
        !s.after_events(events1, ids1).throttled(first),
    ensures
        s.after_poll(first, code, events1, ids1, order1).last_poll == first,
        s.after_poll(first, code, events1, ids1, order1).after_events(events2, ids2).throttled(
            second,
        ),
        s.after_poll(first, code, events1, ids1, order1).after_poll(
            second,
            code,
            events2,
            ids2,
            order2,
        ) == s.after_poll(first, code, events1, ids1, order1).after_events(events2, ids2),
        s.after_poll(first, code, events1, ids1, order1).poll_requests(
            second,
            code,
            events2,
            ids2,
            order2,
        ) == Seq::<LlmRequestView>::empty(),
{
    let drained = s.after_events(events1, ids1);
    lemma_assignments_keep_clock(drained.stamped(first), order1, code);
    let after = s.after_poll(first, code, events1, ids1, order1);
    lemma_events_keep_frame(after, events2, ids2);
}

/// A tick that comes at least [`POLL_INTERVAL_MS`] after the last
/// assignment pass runs one and records its time, whatever events it
/// finds.
pub proof fn law_due_pass_runs(
    s: SystemView,
    now: u64,
    code: Seq<char>,
    events: Seq<AgentEventView>,
    ids: Seq<Id>,
    order: Seq<Id>,
)
    requires
        now - s.last_poll >= POLL_INTERVAL_MS,
    ensures
        !s.after_events(events, ids).throttled(now),
        s.after_poll(now, code, events, ids, order).last_poll == now,
        s.after_poll(now, code, events, ids, order) == s.after_events(events, ids).stamped(
            now,
        ).after_assignments(order, code),
{
    lemma_events_keep_frame(s, events, ids);
    lemma_assignments_keep_clock(s.after_events(events, ids).stamped(now), order, code);
}

/// The answer to a work request finishes the agent's task and frees the
/// agent in one step: in the state that the next event meets, the task is
/// done, the agent is idle and has no task, and every other task is as it
/// was.
pub proof fn law_response_finishes_task(
    s: SystemView,
    agent: Id,
    task: Id,
    i: int,
    body: Seq<char>,
    ids: Seq<Id>,
)
    requires
        s.agents.contains_key(agent),
        s.agents[agent].current_task_id == Some(task),
        first_with_id(s.tasks, task, i),
    ensures
        ({
            let after = s.after_event(AgentEventView::LlmResponse(agent, body), ids);
            &&& after.tasks.len() == s.tasks.len()
            &&& after.tasks[i].status == TaskStatus::Done
            &&& after.tasks[i].id == task
            &&& forall|j: int| 0 <= j < s.tasks.len() && j != i ==> after.tasks[j] == s.tasks[j]
            &&& after.agents.contains_key(agent)
            &&& after.agents[agent].status == AgentStatusView::Idle
            &&& after.agents[agent].current_task_id == None::<Id>
        }),
{
    let c = choose|c: int| first_with_id(s.tasks, task, c);
    crate::reconcile::lemma_first_with_id_unique(s.tasks, task, c, i);
}

/// The events of a run are reconciled one after the other: each meets the
/// state that the one before it left.
pub proof fn law_events_in_order(
    s: SystemView,
    earlier: Seq<AgentEventView>,
    event: AgentEventView,
    ids: Seq<Id>,
    more: Seq<Id>,
)
    requires
        ids.len() == s.ids_needed_all(earlier),
    ensures
        s.after_events(earlier.push(event), ids + more) == s.after_events(earlier, ids).after_event(
            event,
            more,
        ),
{
    let all = earlier.push(event);
    assert(all.drop_last() =~= earlier);
    assert((ids + more).take(ids.len() as int) =~= ids);
    assert((ids + more).skip(ids.len() as int) =~= more);
}

/// A failed request touches nobody but its agent: every task, every other
/// agent and the queue of proposed changes are as they were; the agent
/// shows the error and keeps its task, which stays as it was.
pub proof fn law_error_is_contained(s: SystemView, agent: Id, reason: Seq<char>, ids: Seq<Id>)
    ensures
        ({
            let after = s.after_event(AgentEventView::LlmError(agent, reason), ids);
            &&& after.tasks == s.tasks
            &&& after.pending_changes == s.pending_changes
            &&& after.local_ids == s.local_ids
            &&& after.last_poll == s.last_poll
            &&& after.agents.dom() == s.agents.dom()
            &&& forall|other: Id|
                other != agent && s.agents.contains_key(other) ==> after.agents[other]
                    == s.agents[other]
            &&& s.agents.contains_key(agent) ==> {
                &&& after.agents[agent].status == AgentStatusView::Error(reason)
                &&& after.agents[agent].current_task_id == s.agents[agent].current_task_id
            }
        }),
{
}

/// The number of pending tasks.
pub open spec fn pending_count(tasks: Seq<TaskView>) -> nat
    decreases tasks.len(),
{
    if tasks.len() == 0 {
        0
    } else {
        pending_count(tasks.drop_last()) + if tasks.last().status == TaskStatus::Pending {
            1nat
        } else {
            0nat
        }
    }
}

/// The smaller of two numbers.
pub open spec fn smaller(a: nat, b: nat) -> nat {
    if a <= b {
        a
    } else {
        b
    }
}

impl SystemView {
    /// The pairs of an agent and the index of the task it is given that
    /// are made while the agents of `order` have their turns, in the
    /// order in which they are made.
    pub open spec fn assignment_pairs(self, order: Seq<Id>, code: Seq<char>) -> Seq<(Id, int)>
        decreases order.len(),
    {
        if order.len() == 0 {
            Seq::empty()
        } else {
            let earlier = self.assignment_pairs(order.drop_last(), code);
            match self.after_assignments(order.drop_last(), code).assignment(order.last()) {
                Some(i) => earlier.push((order.last(), i)),
                None => earlier,
            }
        }
    }
}

/// Where no task is counted as pending, none is pending.
proof fn lemma_none_pending(tasks: Seq<TaskView>)
    requires
        pending_count(tasks) == 0,
    ensures
        forall|i: int| 0 <= i < tasks.len() ==> (#[trigger] tasks[i]).status != TaskStatus::Pending,
        first_pending(tasks) is None,
    decreases tasks.len(),
{
    if tasks.len() > 0 {
        lemma_none_pending(tasks.drop_last());
        assert forall|i: int| 0 <= i < tasks.len() implies (#[trigger] tasks[i]).status
            != TaskStatus::Pending by {
            if i < tasks.len() - 1 {
                assert(tasks.drop_last()[i] == tasks[i]);
            }
        }
    }
}

/// Where a task is counted as pending, there is a first pending task.
proof fn lemma_some_pending(tasks: Seq<TaskView>) -> (i: int)
    requires
        pending_count(tasks) > 0,
    ensures
        is_first_pending(tasks, i),
        first_pending(tasks) == Some(i),
    decreases tasks.len(),
{
    let front = tasks.drop_last();
    let i = if pending_count(front) > 0 {
        lemma_some_pending(front)
    } else {
        tasks.len() - 1
    };
    assert(is_first_pending(tasks, i)) by {
        if pending_count(front) > 0 {
            assert forall|j: int| 0 <= j < i implies (#[trigger] tasks[j]).status
                != TaskStatus::Pending by {
                assert(front[j] == tasks[j]);
            }
        } else {
            lemma_none_pending(front);
            assert forall|j: int| 0 <= j < i implies (#[trigger] tasks[j]).status
                != TaskStatus::Pending by {
                assert(front[j] == tasks[j]);
            }
        }
    }
    let c = choose|c: int| is_first_pending(tasks, c);
    lemma_first_pending_unique(tasks, c, i);
    i
}

/// Taking a pending task out of the pending ones lowers their number by
/// one.
proof fn lemma_one_less_pending(tasks: Seq<TaskView>, i: int, task: TaskView)
    requires
        0 <= i < tasks.len(),
        tasks[i].status == TaskStatus::Pending,
        task.status != TaskStatus::Pending,
    ensures
        pending_count(tasks.update(i, task)) == pending_count(tasks) - 1,
    decreases tasks.len(),
{
    let changed = tasks.update(i, task);
    if i == tasks.len() - 1 {
        assert(changed.drop_last() =~= tasks.drop_last());
    } else {
        assert(changed.drop_last() =~= tasks.drop_last().update(i, task));
        lemma_one_less_pending(tasks.drop_last(), i, task);
    }
}

/// In one assignment pass over agents that are held, each of them once,
/// with `n` agents and `m` pending tasks, exactly the smaller of `n` and
/// `m` pairs of an agent and a task are made and as many requests go out.
/// The agents of the pairs are the first of the order, one pair each; the
/// tasks are pending ones, taken front to back, one pair each.  Each task
/// of a pair is in progress for its agent, which is at work on it; every
/// other task and every other agent is as it was.
pub proof fn law_exclusive_assignment(s: SystemView, order: Seq<Id>, code: Seq<char>)
    requires
        order.no_duplicates(),
        forall|j: int| 0 <= j < order.len() ==> s.agents.contains_key(#[trigger] order[j]),
    ensures
        ({
            let after = s.after_assignments(order, code);
            let pairs = s.assignment_pairs(order, code);
            let k = smaller(order.len(), pending_count(s.tasks));
            &&& pairs.len() == k
            &&& s.assignment_requests(order, code).len() == k
            &&& after.tasks.len() == s.tasks.len()
            &&& after.agents.dom() == s.agents.dom()
            &&& pending_count(after.tasks) == pending_count(s.tasks) - k
            &&& forall|j: int| 0 <= j < k ==> (#[trigger] pairs[j]).0 == order[j]
            &&& forall|a: int, b: int| 0 <= a < b < k ==> pairs[a].1 < pairs[b].1
            &&& forall|j: int|
                0 <= j < k ==> {
                    let i = (#[trigger] pairs[j]).1;
                    &&& 0 <= i < s.tasks.len()
                    &&& s.tasks[i].status == TaskStatus::Pending
                    &&& after.tasks[i] == with_assigned(s.tasks, i, order[j])[i]
                    &&& after.agents[order[j]] == at_work(s.agents[order[j]], s.tasks[i].id, code)
                }
            &&& forall|i: int|
                0 <= i < s.tasks.len() && (forall|j: int| 0 <= j < k ==> (#[trigger] pairs[j]).1
                    != i) ==> #[trigger] after.tasks[i] == s.tasks[i]
            &&& forall|a: Id|
                s.agents.contains_key(a) && (forall|j: int| 0 <= j < k ==> #[trigger] order[j]
                    != a) ==> #[trigger] after.agents[a] == s.agents[a]
            &&& forall|j: int, i: int|
                0 <= j < k && 0 <= i <= (#[trigger] pairs[j]).1 ==> (#[trigger] after.tasks[i]).status
                    != TaskStatus::Pending
        }),
    decreases order.len(),
{
    if order.len() == 0 {
        return ;
    }
    let front = order.drop_last();
    let agent = order.last();
    let n = front.len();
    let m = pending_count(s.tasks);
    law_exclusive_assignment(s, front, code);
    let before = s.after_assignments(front, code);
    let made = s.assignment_pairs(front, code);
    let kn = smaller(n, m);
    let after = s.after_assignments(order, code);
    let pairs = s.assignment_pairs(order, code);
    let k = smaller(order.len(), m);
    if n < m {
        let i = lemma_some_pending(before.tasks);
        lemma_one_less_pending(
            before.tasks,
            i,
            TaskView {
                status: TaskStatus::InProgress,
                assignee: Some(agent),
                ..before.tasks[i]
            },
        );
        assert forall|t: int|
            0 <= t < s.tasks.len() && (forall|j: int| 0 <= j < k ==> (#[trigger] pairs[j]).1
                != t) implies #[trigger] after.tasks[t] == s.tasks[t] by {
            assert(pairs[kn as int].1 != t);
            assert forall|j: int| 0 <= j < kn implies (#[trigger] made[j]).1 != t by {
                assert(pairs[j] == made[j]);
            }
        }
    } else {
        lemma_none_pending(before.tasks);
    }
}

/// An assignment pass that is due, over `n` agents that may be given a
/// task and `m` pending tasks, makes exactly the smaller of `n` and `m`
/// pairs and sends as many requests, in whatever order the agents take
/// their turns.
pub proof fn law_pass_pairs_the_smaller_number(
    s: SystemView,
    now: u64,
    code: Seq<char>,
    order: Seq<Id>,
)
    requires
        !s.throttled(now),
        s.is_turn_order(now, order),
    ensures
        s.stamped(now).assignment_pairs(order, code).len() == smaller(
            s.idle_local().len(),
            pending_count(s.tasks),
        ),
        s.pass_requests(now, code, order).len() == smaller(
            s.idle_local().len(),
            pending_count(s.tasks),
        ),
{
    order.unique_seq_to_set();
    assert forall|j: int| 0 <= j < order.len() implies s.stamped(now).agents.contains_key(
        #[trigger] order[j],
    ) by {
        assert(order.to_set().contains(order[j]));
    }
    law_exclusive_assignment(s.stamped(now), order, code);
}

/// After a switch of workspaces, an answer that arrives late finishes no
/// task: no agent has a task then, so the tasks of the workspace entered
/// stay as they were loaded.
pub proof fn law_late_answer_finishes_nothing(
    s: SystemView,
    tasks: Seq<TaskView>,
    agent: Id,
    body: Seq<char>,
    ids: Seq<Id>,
)
    ensures
        s.cleared().with_tasks(tasks).after_event(
            AgentEventView::LlmResponse(agent, body),
            ids,
        ).tasks == tasks,
        forall|id: Id| #[trigger]
            s.cleared().agents.contains_key(id) ==> s.cleared().agents[id].status
                == AgentStatusView::Idle && s.cleared().agents[id].current_task_id == None::<Id>,
{
}

/// Whether every pending task is unassigned and every task in progress
/// has an assignee.
pub open spec fn assignees_consistent(tasks: Seq<TaskView>) -> bool {
    forall|i: int|
        0 <= i < tasks.len() ==> {
            &&& (#[trigger] tasks[i]).status == TaskStatus::Pending ==> tasks[i].assignee
                == None::<Id>
            &&& tasks[i].status == TaskStatus::InProgress ==> tasks[i].assignee != None::<Id>
        }
}

/// Reconciling an event keeps pending tasks unassigned and tasks in
/// progress assigned.
pub proof fn lemma_event_keeps_assignees(s: SystemView, event: AgentEventView, ids: Seq<Id>)
    requires
        assignees_consistent(s.tasks),
    ensures
        assignees_consistent(s.after_event(event, ids).tasks),
{
}

/// Reconciling a run of events keeps pending tasks unassigned and tasks
/// in progress assigned.
pub proof fn lemma_events_keep_assignees(
    s: SystemView,
    events: Seq<AgentEventView>,
    ids: Seq<Id>,
)
    requires
        assignees_consistent(s.tasks),
    ensures
        assignees_consistent(s.after_events(events, ids).tasks),
    decreases events.len(),
{
    if events.len() > 0 {
        let n = s.ids_needed_all(events.drop_last()) as int;
        lemma_events_keep_assignees(s, events.drop_last(), ids.take(n));
        lemma_event_keeps_assignees(
            s.after_events(events.drop_last(), ids.take(n)),
            events.last(),
            ids.skip(n),
        );
    }
}

/// Handing out tasks keeps pending tasks unassigned and tasks in progress
/// assigned.
pub proof fn lemma_assignments_keep_assignees(s: SystemView, order: Seq<Id>, code: Seq<char>)
    requires
        assignees_consistent(s.tasks),
    ensures
        assignees_consistent(s.after_assignments(order, code).tasks),
    decreases order.len(),
{
    if order.len() > 0 {
        lemma_assignments_keep_assignees(s, order.drop_last(), code);
    }
}

/// A tick keeps pending tasks unassigned and tasks in progress assigned,
/// whatever events it finds and in whatever order agents take their
/// turns.
pub proof fn law_tick_keeps_assignees(
    s: SystemView,
    now: u64,
    code: Seq<char>,
    events: Seq<AgentEventView>,
    ids: Seq<Id>,
    order: Seq<Id>,
)
    requires
        assignees_consistent(s.tasks),
    ensures
        assignees_consistent(s.after_poll(now, code, events, ids, order).tasks),
{
    lemma_events_keep_assignees(s, events, ids);
    lemma_assignments_keep_assignees(s.after_events(events, ids).stamped(now), order, code);
}

/// Adding a task keeps pending tasks unassigned and tasks in progress
/// assigned.
pub proof fn law_new_task_keeps_assignees(s: SystemView, id: Id, description: Seq<char>)
    requires
        assignees_consistent(s.tasks),
    ensures
        assignees_consistent(s.with_task(id, description).tasks),
{
}

} // verus!
