use agent_core::agent::{Agent, AgentConfig, AgentRole, AgentStatus, Task, TaskStatus};
use agent_core::collab::{ChannelEvent, CollabMessage, CollabSystem};
use agent_core::merge::{merge_code, merge_message};
use agent_core::system::AgentSystem;

fn config(name: &str) -> AgentConfig {
    AgentConfig {
        name: name.to_string(),
        role: AgentRole::Generalist,
        api_key: String::new(),
        base_url: String::new(),
        model: String::new(),
        system_prompt: String::new(),
    }
}

fn task(id: u128, description: &str, status: TaskStatus) -> Task {
    Task { id, description: description.to_string(), status, assignee: None }
}

fn connected() -> CollabSystem {
    let mut collab = CollabSystem::new();
    collab.connect(Ok(()));
    collab
}

#[test]
fn channel_starts_disconnected() {
    let collab = CollabSystem::default();
    assert!(!collab.is_connected());
    assert_eq!(collab.status, "Disconnected");
    assert!(collab.peers.is_empty());
}

#[test]
fn connect_success_connects() {
    let collab = connected();
    assert!(collab.is_connected());
    assert_eq!(collab.status, "Connected");
}

#[test]
fn connect_failure_leaves_the_channel_disconnected() {
    let mut collab = CollabSystem::new();
    collab.connect(Err("refused".to_string()));
    assert!(!collab.is_connected());
    assert_eq!(collab.status, "Error: refused");
    let mut collab = connected();
    collab.connect(Err("timeout".to_string()));
    assert!(!collab.is_connected());
    assert_eq!(collab.status, "Error: timeout");
}

#[test]
fn send_hands_the_message_on_only_when_connected() {
    let collab = CollabSystem::new();
    assert!(collab.send(CollabMessage::Code { text: "x".to_string() }).is_none());
    let collab = connected();
    match collab.send(CollabMessage::Code { text: "x".to_string() }) {
        Some(CollabMessage::Code { text }) => assert_eq!(text, "x"),
        other => panic!("{:?}", other),
    }
}

#[test]
fn poll_returns_messages_in_order_and_skips_the_rest() {
    let mut collab = connected();
    let events = vec![
        ChannelEvent::Ignored,
        ChannelEvent::Message(CollabMessage::Code { text: "one".to_string() }),
        ChannelEvent::Ignored,
        ChannelEvent::Message(CollabMessage::Hello { id: 4, name: "peer".to_string() }),
    ];
    let messages = collab.poll(events);
    assert_eq!(messages.len(), 2);
    assert!(matches!(&messages[0], CollabMessage::Code { text } if text == "one"));
    assert!(matches!(&messages[1], CollabMessage::Hello { id: 4, name } if name == "peer"));
    assert!(collab.is_connected());
    assert_eq!(collab.status, "Connected");
}

#[test]
fn poll_close_disconnects_and_is_not_a_message() {
    let mut collab = connected();
    let events = vec![
        ChannelEvent::Message(CollabMessage::Code { text: "a".to_string() }),
        ChannelEvent::Closed,
        ChannelEvent::Message(CollabMessage::Code { text: "b".to_string() }),
    ];
    let messages = collab.poll(events);
    assert_eq!(messages.len(), 2);
    assert!(!collab.is_connected());
    assert_eq!(collab.status, "Disconnected");
}

#[test]
fn poll_error_disconnects_and_shows_the_last_reason() {
    let mut collab = connected();
    let events = vec![
        ChannelEvent::Error("first".to_string()),
        ChannelEvent::Closed,
        ChannelEvent::Error("second".to_string()),
    ];
    let messages = collab.poll(events);
    assert!(messages.is_empty());
    assert!(!collab.is_connected());
    assert_eq!(collab.status, "Error: second");
    let mut collab = connected();
    collab.poll(vec![ChannelEvent::Error("only".to_string())]);
    assert!(!collab.is_connected());
    assert_eq!(collab.status, "Error: only");
}

#[test]
fn poll_without_a_connection_looks_at_nothing() {
    let mut collab = CollabSystem::new();
    let events = vec![
        ChannelEvent::Message(CollabMessage::Code { text: "a".to_string() }),
        ChannelEvent::Error("e".to_string()),
    ];
    assert!(collab.poll(events).is_empty());
    assert_eq!(collab.status, "Disconnected");
    let mut collab = connected();
    assert!(collab.poll(Vec::new()).is_empty());
    assert!(collab.is_connected());
}

#[test]
fn hello_enters_the_peer() {
    let mut system = AgentSystem::new();
    let mut collab = connected();
    let mut code = "code".to_string();
    let changed = merge_message(&mut system, &mut collab, &mut code, CollabMessage::Hello { id: 7, name: "first".to_string() });
    assert!(!changed);
    assert_eq!(collab.peers[&7], "first");
    merge_message(&mut system, &mut collab, &mut code, CollabMessage::Hello { id: 7, name: "renamed".to_string() });
    assert_eq!(collab.peers.len(), 1);
    assert_eq!(collab.peers[&7], "renamed");
    assert_eq!(code, "code");
}

#[test]
fn code_is_replaced_only_where_it_differs() {
    let mut code = "same".to_string();
    assert!(!merge_code(&mut code, "same".to_string()));
    assert_eq!(code, "same");
    assert!(merge_code(&mut code, "other".to_string()));
    assert_eq!(code, "other");
    let mut system = AgentSystem::new();
    let mut collab = connected();
    assert!(merge_message(&mut system, &mut collab, &mut code, CollabMessage::Code { text: "third".to_string() }));
    assert_eq!(code, "third");
    assert!(!merge_message(&mut system, &mut collab, &mut code, CollabMessage::Code { text: "third".to_string() }));
}

#[test]
fn update_never_overwrites_a_local_agent() {
    let mut system = AgentSystem::new();
    system.add_agent_with_id(1, config("mine"));
    system.agents.get_mut(&1).unwrap().status = AgentStatus::Typing;
    let before = format!("{:?}", system.agents[&1]);
    let mut intruder = Agent::new(1, config("theirs"));
    intruder.status = AgentStatus::Error("boom".to_string());
    let remote = Agent::new(2, config("remote"));
    system.merge_remote_agents(vec![intruder, remote]);
    assert_eq!(format!("{:?}", system.agents[&1]), before);
    assert_eq!(system.agents[&2].config.name, "remote");
    assert_eq!(system.agents.len(), 2);
    assert!(system.local_ids.contains(&1));
    assert!(!system.local_ids.contains(&2));
}

#[test]
fn update_replaces_remote_agents_with_the_last_report() {
    let mut system = AgentSystem::new();
    let first = Agent::new(2, config("v1"));
    let second = Agent::new(2, config("v2"));
    system.merge_remote_agents(vec![first, second]);
    assert_eq!(system.agents.len(), 1);
    assert_eq!(system.agents[&2].config.name, "v2");
    system.merge_remote_agents(vec![Agent::new(2, config("v3"))]);
    assert_eq!(system.agents[&2].config.name, "v3");
}

#[test]
fn update_upserts_tasks_by_identifier() {
    let mut system = AgentSystem::new();
    system.add_task_with_id(10, "local".to_string());
    system.add_task_with_id(11, "kept".to_string());
    let reports = vec![
        task(10, "remote view", TaskStatus::Done),
        task(12, "new", TaskStatus::Blocked),
        task(12, "new again", TaskStatus::Pending),
    ];
    system.merge_remote_tasks(reports);
    assert_eq!(system.tasks.len(), 3);
    assert_eq!(system.tasks[0].id, 10);
    assert_eq!(system.tasks[0].description, "remote view");
    assert_eq!(system.tasks[0].status, TaskStatus::Done);
    assert_eq!(system.tasks[1].description, "kept");
    assert_eq!(system.tasks[2].id, 12);
    assert_eq!(system.tasks[2].description, "new again");
    assert_eq!(system.tasks[2].status, TaskStatus::Pending);
}

#[test]
fn agent_update_message_merges_both() {
    let mut system = AgentSystem::new();
    system.add_agent_with_id(1, config("mine"));
    let mut collab = connected();
    let mut code = "code".to_string();
    let message = CollabMessage::AgentUpdate {
        agents: vec![Agent::new(1, config("theirs")), Agent::new(3, config("peer agent"))],
        tasks: vec![task(20, "shared", TaskStatus::InProgress)],
    };
    let changed = merge_message(&mut system, &mut collab, &mut code, message);
    assert!(!changed);
    assert_eq!(code, "code");
    assert_eq!(system.agents[&1].config.name, "mine");
    assert_eq!(system.agents[&3].config.name, "peer agent");
    assert_eq!(system.tasks.len(), 1);
    assert_eq!(system.tasks[0].status, TaskStatus::InProgress);
    // a mirrored agent is never given a task
    system.add_task_with_id(21, "open".to_string());
    system.agents.get_mut(&1).unwrap().status = AgentStatus::Voting;
    let tick = system.poll(1_000, "code", Vec::new());
    assert!(tick.candidates.is_empty());
    assert!(tick.requests.is_empty());
}
