use agent_core::agent::{
    Agent, AgentConfig, AgentEvent, AgentRole, AgentStatus, Task, TaskStatus,
};
use agent_core::dispatch::RequestKind;
use agent_core::schedule::{find_pending, Tick};
use agent_core::system::AgentSystem;

fn config(name: &str) -> AgentConfig {
    AgentConfig {
        name: name.to_string(),
        role: AgentRole::Specialist("rust".to_string()),
        api_key: String::new(),
        base_url: "http://host".to_string(),
        model: "m".to_string(),
        system_prompt: String::new(),
    }
}

fn is_idle(system: &AgentSystem, id: u128) -> bool {
    matches!(system.agents[&id].status, AgentStatus::Idle)
}

fn is_thinking(system: &AgentSystem, id: u128) -> bool {
    matches!(&system.agents[&id].status, AgentStatus::Thinking(reason) if reason == "Requesting LLM...")
}

fn statuses(system: &AgentSystem) -> Vec<TaskStatus> {
    system.tasks.iter().map(|t| t.status).collect()
}

fn log(system: &AgentSystem) -> Vec<String> {
    system.message_log.iter().cloned().collect()
}

fn no_events() -> Vec<AgentEvent> {
    Vec::new()
}

#[test]
fn new_system_is_empty() {
    let system = AgentSystem::new();
    assert!(system.agents.is_empty());
    assert!(system.local_ids.is_empty());
    assert!(system.tasks.is_empty());
    assert!(system.message_log.is_empty());
    assert!(system.pending_changes.is_empty());
    assert_eq!(system.last_poll, 0);
    let system = AgentSystem::default();
    assert!(system.agents.is_empty());
}

#[test]
fn add_agent_creates_an_idle_local_agent() {
    let mut system = AgentSystem::new();
    let id = system.add_agent(config("Ada"));
    let agent = &system.agents[&id];
    assert_eq!(agent.id, id);
    assert_eq!(agent.config.name, "Ada");
    assert!(matches!(agent.status, AgentStatus::Idle));
    assert_eq!(agent.current_task_id, None);
    assert_eq!(agent.cursor_idx, None);
    assert_eq!(agent.snapshot, None);
    assert!(agent.chat_history.is_empty());
    assert_eq!(agent.chat_input, "");
    assert!(system.local_ids.contains(&id));
    assert_eq!(log(&system), vec!["Agent added: Ada"]);
}

#[test]
fn add_agent_gives_distinct_identifiers() {
    let mut system = AgentSystem::new();
    let a = system.add_agent(config("A"));
    let b = system.add_agent(config("B"));
    assert_ne!(a, b);
    assert_eq!(system.agents.len(), 2);
}

#[test]
fn add_task_creates_a_pending_task_at_the_end() {
    let mut system = AgentSystem::new();
    let first = system.add_task("one".to_string(), "");
    let second = system.add_task("two".to_string(), "some docs");
    assert_ne!(first, second);
    assert_eq!(system.tasks.len(), 2);
    assert_eq!(system.tasks[0].id, first);
    assert_eq!(system.tasks[0].description, "one");
    assert_eq!(system.tasks[0].status, TaskStatus::Pending);
    assert_eq!(system.tasks[0].assignee, None);
    assert_eq!(system.tasks[1].id, second);
    assert_eq!(system.tasks[1].description, "two");
    assert_eq!(log(&system), vec!["Task added: one", "Task added: two"]);
}

#[test]
fn log_keeps_the_newest_hundred() {
    let mut system = AgentSystem::new();
    for i in 0..100 {
        system.log(format!("m{}", i));
    }
    assert_eq!(system.message_log.len(), 100);
    assert_eq!(system.message_log[0], "m0");
    system.log("m100".to_string());
    assert_eq!(system.message_log.len(), 100);
    assert_eq!(system.message_log[0], "m1");
    assert_eq!(system.message_log[99], "m100");
}

#[test]
fn empty_poll_inside_the_window_changes_nothing() {
    let mut system = AgentSystem::new();
    let id = system.add_agent_with_id(1, config("Ada"));
    let _ = id;
    system.add_task_with_id(10, "t".to_string());
    let tick = system.poll(5_000, "code", no_events());
    assert_eq!(tick.requests.len(), 1);
    let log_before = log(&system);
    for now in [5_000u64, 5_001, 5_999, 4_000, 0] {
        let tick = system.poll(now, "other code", no_events());
        assert!(tick.requests.is_empty());
        assert!(tick.created_tasks.is_empty());
        assert!(tick.candidates.is_empty());
        assert_eq!(system.last_poll, 5_000);
        assert_eq!(statuses(&system), vec![TaskStatus::InProgress]);
        assert!(is_thinking(&system, 1));
        assert_eq!(system.agents[&1].snapshot, Some("code".to_string()));
        assert_eq!(log(&system), log_before);
    }
}

#[test]
fn first_second_of_the_clock_is_throttled() {
    let mut system = AgentSystem::new();
    system.add_agent_with_id(1, config("Ada"));
    system.add_task_with_id(10, "t".to_string());
    let tick = system.poll(999, "code", no_events());
    assert!(tick.requests.is_empty());
    assert_eq!(system.last_poll, 0);
    assert_eq!(statuses(&system), vec![TaskStatus::Pending]);
    let tick = system.poll(1_000, "code", no_events());
    assert_eq!(tick.requests.len(), 1);
    assert_eq!(system.last_poll, 1_000);
}

#[test]
fn two_polls_less_than_a_second_apart_assign_once() {
    let mut system = AgentSystem::new();
    system.add_agent_with_id(1, config("Ada"));
    system.add_agent_with_id(2, config("Bob"));
    system.add_task_with_id(10, "first".to_string());
    let tick = system.poll(2_000, "code", no_events());
    assert_eq!(tick.requests.len(), 1);
    system.add_task_with_id(11, "second".to_string());
    let tick = system.poll(2_999, "code", no_events());
    assert!(tick.requests.is_empty());
    assert_eq!(statuses(&system), vec![TaskStatus::InProgress, TaskStatus::Pending]);
    let tick = system.poll(3_000, "code", no_events());
    assert_eq!(tick.requests.len(), 1);
    assert_eq!(statuses(&system), vec![TaskStatus::InProgress, TaskStatus::InProgress]);
    assert_eq!(system.last_poll, 3_000);
}

fn pairs_after_one_pass(agents: u128, tasks: u128) -> (AgentSystem, Tick) {
    let mut system = AgentSystem::new();
    for a in 0..agents {
        system.add_agent_with_id(100 + a, config(&format!("agent{}", a)));
    }
    for t in 0..tasks {
        system.add_task_with_id(200 + t, format!("task{}", t));
    }
    let tick = system.poll(10_000, "the code", no_events());
    (system, tick)
}

fn check_exclusive(agents: u128, tasks: u128) {
    let (system, tick) = pairs_after_one_pass(agents, tasks);
    let expected = std::cmp::min(agents, tasks) as usize;
    assert_eq!(tick.requests.len(), expected);
    assert_eq!(tick.candidates.len(), agents as usize);
    let in_progress: Vec<&Task> =
        system.tasks.iter().filter(|t| t.status == TaskStatus::InProgress).collect();
    assert_eq!(in_progress.len(), expected);
    // the tasks handed out are the first pending ones, in order
    for (i, task) in system.tasks.iter().enumerate() {
        if i < expected {
            assert_eq!(task.status, TaskStatus::InProgress);
            assert_eq!(task.assignee, Some(tick.candidates[i]));
            let agent: &Agent = &system.agents[&tick.candidates[i]];
            assert_eq!(agent.current_task_id, Some(task.id));
            assert_eq!(agent.snapshot, Some("the code".to_string()));
            assert!(is_thinking(&system, agent.id));
            let request = &tick.requests[i];
            assert_eq!(request.agent_id, agent.id);
            assert_eq!(request.kind, RequestKind::Work);
            assert_eq!(request.prompt, format!("Task: task{}\nCode:\nthe code", i));
        } else {
            assert_eq!(task.status, TaskStatus::Pending);
            assert_eq!(task.assignee, None);
        }
    }
    // each agent and each task stands in at most one pair
    let mut assignees: Vec<u128> = in_progress.iter().map(|t| t.assignee.unwrap()).collect();
    assignees.sort();
    assignees.dedup();
    assert_eq!(assignees.len(), expected);
    let busy = system.agents.values().filter(|a| !matches!(a.status, AgentStatus::Idle)).count();
    assert_eq!(busy, expected);
    for agent in system.agents.values() {
        if matches!(agent.status, AgentStatus::Idle) {
            assert_eq!(agent.current_task_id, None);
            assert_eq!(agent.snapshot, None);
        }
    }
}

#[test]
fn one_pass_pairs_the_smaller_number() {
    for (agents, tasks) in [(0, 0), (0, 3), (3, 0), (1, 1), (2, 5), (5, 2), (4, 4)] {
        check_exclusive(agents, tasks);
    }
}

#[test]
fn candidates_are_the_idle_local_agents_each_once() {
    let (_, tick) = pairs_after_one_pass(6, 2);
    let mut candidates = tick.candidates.clone();
    candidates.sort();
    assert_eq!(candidates, vec![100, 101, 102, 103, 104, 105]);
}

#[test]
fn remote_and_busy_agents_are_not_scheduled() {
    let mut system = AgentSystem::new();
    system.add_agent_with_id(1, config("local"));
    system.agents.insert(2, Agent::new(2, config("remote")));
    system.add_agent_with_id(3, config("busy"));
    system.agents.get_mut(&3).unwrap().status = AgentStatus::Typing;
    system.add_task_with_id(10, "a".to_string());
    system.add_task_with_id(11, "b".to_string());
    system.add_task_with_id(12, "c".to_string());
    let tick = system.poll(1_000, "code", no_events());
    assert_eq!(tick.candidates, vec![1]);
    assert_eq!(tick.requests.len(), 1);
    assert_eq!(tick.requests[0].agent_id, 1);
    assert_eq!(
        statuses(&system),
        vec![TaskStatus::InProgress, TaskStatus::Pending, TaskStatus::Pending]
    );
    assert!(is_idle(&system, 2));
}

#[test]
fn blocked_and_done_tasks_are_passed_over() {
    let mut system = AgentSystem::new();
    system.add_agent_with_id(1, config("Ada"));
    system.add_task_with_id(10, "blocked".to_string());
    system.add_task_with_id(11, "done".to_string());
    system.add_task_with_id(12, "open".to_string());
    system.tasks[0].status = TaskStatus::Blocked;
    system.tasks[1].status = TaskStatus::Done;
    assert_eq!(find_pending(&system.tasks), Some(2));
    let tick = system.poll(1_000, "code", no_events());
    assert_eq!(tick.requests.len(), 1);
    assert_eq!(
        statuses(&system),
        vec![TaskStatus::Blocked, TaskStatus::Done, TaskStatus::InProgress]
    );
    assert_eq!(system.agents[&1].current_task_id, Some(12));
    assert_eq!(log(&system).last().unwrap(), "Ada started: open");
}

#[test]
fn answer_finishes_the_task_and_frees_the_agent() {
    let mut system = AgentSystem::new();
    system.add_agent_with_id(1, config("Ada"));
    system.add_task_with_id(10, "t".to_string());
    system.poll(1_000, "code", no_events());
    assert!(is_thinking(&system, 1));
    let events = vec![AgentEvent::LlmResponse(1, "{\"response\": \"patch\"}".to_string())];
    let tick = system.poll(1_500, "code", events);
    assert!(tick.requests.is_empty());
    assert_eq!(statuses(&system), vec![TaskStatus::Done]);
    assert_eq!(system.tasks[0].assignee, Some(1));
    assert!(is_idle(&system, 1));
    assert_eq!(system.agents[&1].current_task_id, None);
    assert_eq!(system.pending_changes.len(), 1);
    assert_eq!(system.pending_changes[0], (1, "patch".to_string()));
    assert_eq!(log(&system).last().unwrap(), "Ada finished task.");
}

#[test]
fn answer_is_seen_by_the_next_event_of_the_same_drain() {
    let mut system = AgentSystem::new();
    system.add_agent_with_id(1, config("Ada"));
    system.add_task_with_id(10, "t".to_string());
    system.poll(1_000, "code", no_events());
    let events = vec![
        AgentEvent::LlmResponse(1, "first".to_string()),
        AgentEvent::LlmResponse(1, "second".to_string()),
    ];
    system.poll(1_100, "code", events);
    // the second answer met an idle agent without a task: one log line only
    let finished = log(&system).iter().filter(|m| m.as_str() == "Ada finished task.").count();
    assert_eq!(finished, 1);
    assert_eq!(system.pending_changes.len(), 2);
    assert_eq!(system.pending_changes[0], (1, "first".to_string()));
    assert_eq!(system.pending_changes[1], (1, "second".to_string()));
}

#[test]
fn freed_agent_takes_the_next_task_in_the_same_tick() {
    let mut system = AgentSystem::new();
    system.add_agent_with_id(1, config("Ada"));
    system.add_task_with_id(10, "a".to_string());
    system.add_task_with_id(11, "b".to_string());
    system.poll(1_000, "code", no_events());
    let events = vec![AgentEvent::LlmResponse(1, "raw".to_string())];
    let tick = system.poll(2_000, "code2", events);
    assert_eq!(tick.requests.len(), 1);
    assert_eq!(statuses(&system), vec![TaskStatus::Done, TaskStatus::InProgress]);
    assert_eq!(system.agents[&1].current_task_id, Some(11));
    assert_eq!(system.agents[&1].snapshot, Some("code2".to_string()));
    assert_eq!(system.pending_changes[0], (1, "raw".to_string()));
}

#[test]
fn error_touches_only_its_agent() {
    let mut system = AgentSystem::new();
    system.add_agent_with_id(1, config("Ada"));
    system.add_agent_with_id(2, config("Bob"));
    system.add_task_with_id(10, "a".to_string());
    system.add_task_with_id(11, "b".to_string());
    let tick = system.poll(1_000, "code", no_events());
    assert_eq!(tick.requests.len(), 2);
    let failing = tick.candidates[0];
    let other = tick.candidates[1];
    let task_of_failing = system.agents[&failing].current_task_id;
    let other_before = format!("{:?}", system.agents[&other]);
    let tasks_before = format!("{:?}", system.tasks);
    let name = system.agents[&failing].config.name.clone();
    let events = vec![AgentEvent::LlmError(failing, "Status: 500".to_string())];
    let tick = system.poll(1_200, "code", events);
    assert!(tick.requests.is_empty());
    assert!(matches!(&system.agents[&failing].status, AgentStatus::Error(m) if m == "Status: 500"));
    assert_eq!(system.agents[&failing].current_task_id, task_of_failing);
    assert_eq!(format!("{:?}", system.agents[&other]), other_before);
    assert_eq!(format!("{:?}", system.tasks), tasks_before);
    assert_eq!(statuses(&system), vec![TaskStatus::InProgress, TaskStatus::InProgress]);
    assert!(system.pending_changes.is_empty());
    assert_eq!(log(&system).last().unwrap(), &format!("Agent {} error: Status: 500", name));
    // an agent in error is not scheduled again
    system.add_task_with_id(12, "c".to_string());
    let tick = system.poll(5_000, "code", no_events());
    assert!(tick.candidates.is_empty());
    assert!(tick.requests.is_empty());
}

#[test]
fn plan_answer_adds_pending_tasks_in_order() {
    let mut system = AgentSystem::new();
    system.add_agent_with_id(1, config("Ada"));
    system.agents.get_mut(&1).unwrap().status = AgentStatus::Thinking("Planning".to_string());
    let text = "- Refactor parser\n1. Add tests\nrandom line\n* Update docs";
    let created = system.apply_event(AgentEvent::PlanResponse(1, text.to_string()));
    assert_eq!(created.len(), 3);
    assert_eq!(system.tasks.len(), 3);
    let descriptions: Vec<&str> = system.tasks.iter().map(|t| t.description.as_str()).collect();
    assert_eq!(descriptions, vec!["Refactor parser", "Add tests", "Update docs"]);
    for (task, id) in system.tasks.iter().zip(created.iter()) {
        assert_eq!(task.id, *id);
        assert_eq!(task.status, TaskStatus::Pending);
        assert_eq!(task.assignee, None);
    }
    assert!(is_idle(&system, 1));
    assert_eq!(log(&system).last().unwrap(), "Ada generated a plan.");
}

#[test]
fn plan_answer_in_json_is_unwrapped_first() {
    let mut system = AgentSystem::new();
    system.add_agent_with_id(1, config("Ada"));
    let body = "{\"response\": \"- a\\n- b\"}".to_string();
    let tick = system.poll(500, "code", vec![AgentEvent::PlanResponse(1, body)]);
    assert_eq!(tick.created_tasks.len(), 2);
    assert_eq!(system.tasks[0].description, "a");
    assert_eq!(system.tasks[1].description, "b");
    assert_eq!(system.tasks[0].id, tick.created_tasks[0]);
    assert_eq!(system.tasks[1].id, tick.created_tasks[1]);
}

#[test]
fn chat_answer_is_appended_under_the_agents_name() {
    let mut system = AgentSystem::new();
    system.add_agent_with_id(1, config("Ada"));
    system.agents.get_mut(&1).unwrap().status = AgentStatus::Thinking("Chatting...".to_string());
    system.apply_event(AgentEvent::ChatResponse(1, "{\"response\":\"hello\"}".to_string()));
    let history = &system.agents[&1].chat_history;
    assert_eq!(history.len(), 1);
    assert_eq!(history[0].sender, "Ada");
    assert_eq!(history[0].content, "hello");
    assert!(is_idle(&system, 1));
}

#[test]
fn events_for_unknown_agents_change_nothing() {
    let mut system = AgentSystem::new();
    system.add_agent_with_id(1, config("Ada"));
    system.add_task_with_id(10, "t".to_string());
    let before = format!("{:?}{:?}{:?}{:?}", system.agents, system.tasks, system.message_log, system.pending_changes);
    let events = vec![
        AgentEvent::LlmResponse(9, "x".to_string()),
        AgentEvent::ChatResponse(9, "x".to_string()),
        AgentEvent::PlanResponse(9, "- x".to_string()),
        AgentEvent::LlmError(9, "x".to_string()),
    ];
    let created = system.apply_events(events);
    assert!(created.is_empty());
    let after = format!("{:?}{:?}{:?}{:?}", system.agents, system.tasks, system.message_log, system.pending_changes);
    assert_eq!(before, after);
}

#[test]
fn answer_without_a_known_task_still_queues_the_change() {
    let mut system = AgentSystem::new();
    system.add_agent_with_id(1, config("Ada"));
    system.agents.get_mut(&1).unwrap().current_task_id = Some(77);
    let lines = system.message_log.len();
    system.apply_event(AgentEvent::LlmResponse(1, "snippet".to_string()));
    assert_eq!(system.message_log.len(), lines);
    assert_eq!(system.agents[&1].current_task_id, None);
    assert_eq!(system.pending_changes[0], (1, "snippet".to_string()));
}

#[test]
fn assign_tasks_follows_the_given_order() {
    let mut system = AgentSystem::new();
    system.add_agent_with_id(1, config("A"));
    system.add_agent_with_id(2, config("B"));
    system.add_agent_with_id(3, config("C"));
    system.add_task_with_id(10, "x".to_string());
    system.add_task_with_id(11, "y".to_string());
    let requests = system.assign_tasks(&vec![3, 9, 1, 2], "c");
    assert_eq!(requests.len(), 2);
    assert_eq!(requests[0].agent_id, 3);
    assert_eq!(requests[1].agent_id, 1);
    assert_eq!(system.tasks[0].assignee, Some(3));
    assert_eq!(system.tasks[1].assignee, Some(1));
    assert!(is_idle(&system, 2));
    assert_eq!(system.last_poll, 0);
}

#[test]
fn idle_local_agents_are_found() {
    let mut system = AgentSystem::new();
    assert!(system.idle_local_agents().is_empty());
    system.add_agent_with_id(1, config("A"));
    system.add_agent_with_id(2, config("B"));
    system.agents.insert(5, Agent::new(5, config("remote")));
    system.agents.get_mut(&2).unwrap().status = AgentStatus::Voting;
    assert_eq!(system.idle_local_agents(), vec![1]);
    let mut all = system.agent_ids();
    all.sort();
    assert_eq!(all, vec![1, 2, 5]);
}
