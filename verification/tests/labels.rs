use agent_core::agent::{AgentConfig, AgentRole, AgentStatus, Task, TaskStatus};
use agent_core::labels::{status_label, task_icon};
use agent_core::session::load_workspace;
use agent_core::system::AgentSystem;
use agent_core::workspace::{Workspace, WorkspaceStore};

fn config(name: &str) -> AgentConfig {
    AgentConfig {
        name: name.to_string(),
        role: AgentRole::Generalist,
        api_key: String::new(),
        base_url: String::new(),
        model: String::new(),
        system_prompt: String::new(),
    }
}

#[test]
fn status_labels_name_the_state() {
    assert_eq!(status_label(&AgentStatus::Idle), "Idle");
    assert_eq!(status_label(&AgentStatus::Thinking("Requesting LLM...".to_string())), "Thinking: Requesting LLM...");
    assert_eq!(status_label(&AgentStatus::Typing), "Typing...");
    assert_eq!(status_label(&AgentStatus::Voting), "Voting");
    assert_eq!(status_label(&AgentStatus::Error("Status: 500".to_string())), "Error: Status: 500");
}

#[test]
fn task_icons_differ_by_status() {
    assert_eq!(task_icon(TaskStatus::Pending), "\u{2B1C}");
    assert_eq!(task_icon(TaskStatus::InProgress), "\u{1F504}");
    assert_eq!(task_icon(TaskStatus::Done), "\u{2705}");
    assert_eq!(task_icon(TaskStatus::Blocked), "\u{26D4}");
}

#[test]
fn working_on_names_the_current_task() {
    let mut system = AgentSystem::new();
    system.add_agent_with_id(1, config("Ada"));
    system.add_task_with_id(10, "write docs".to_string());
    assert_eq!(system.working_on(1), None);
    assert_eq!(system.working_on(2), None);
    system.poll(1_000, "code", Vec::new());
    assert_eq!(system.working_on(1), Some("Working on: write docs".to_string()));
    system.agents.get_mut(&1).unwrap().current_task_id = Some(99);
    assert_eq!(system.working_on(1), None);
}

#[test]
fn assignee_label_names_a_held_assignee() {
    let mut system = AgentSystem::new();
    system.add_agent_with_id(1, config("Ada"));
    let mut task = Task::new(10, "t".to_string());
    assert_eq!(system.assignee_label(&task), None);
    task.assignee = Some(1);
    assert_eq!(system.assignee_label(&task), Some("(Ada)".to_string()));
    task.assignee = Some(2);
    assert_eq!(system.assignee_label(&task), None);
}

#[test]
fn equality_of_roles_and_statuses_compares_the_texts() {
    assert!(AgentRole::Generalist == AgentRole::Generalist);
    assert!(AgentRole::Specialist("a".to_string()) == AgentRole::Specialist("a".to_string()));
    assert!(AgentRole::Specialist("a".to_string()) != AgentRole::Specialist("b".to_string()));
    assert!(AgentRole::Generalist != AgentRole::Specialist(String::new()));
    assert!(AgentStatus::Idle == AgentStatus::Idle);
    assert!(AgentStatus::Thinking("x".to_string()) == AgentStatus::Thinking("x".to_string()));
    assert!(AgentStatus::Thinking("x".to_string()) != AgentStatus::Error("x".to_string()));
    assert!(AgentStatus::Typing != AgentStatus::Voting);
    assert!(AgentStatus::Idle.is_idle());
    assert!(!AgentStatus::Voting.is_idle());
}

#[test]
fn load_takes_code_and_tasks_of_a_kept_workspace() {
    let mut store = WorkspaceStore::new();
    store.insert(Workspace {
        name: "Kept".to_string(),
        code: "kept code".to_string(),
        tasks: vec![Task::new(1, "kept task".to_string())],
    });
    let mut system = AgentSystem::new();
    system.add_task_with_id(5, "mine".to_string());
    let mut live_code = "live".to_string();
    assert!(!load_workspace(&store, &"Missing".to_string(), &mut live_code, &mut system));
    assert_eq!(live_code, "live");
    assert_eq!(system.tasks[0].description, "mine");
    assert!(load_workspace(&store, &"Kept".to_string(), &mut live_code, &mut system));
    assert_eq!(live_code, "kept code");
    assert_eq!(system.tasks.len(), 1);
    assert_eq!(system.tasks[0].description, "kept task");
}

#[test]
fn ui_tasks_gives_a_row_for_each_task_in_order() {
    let mut system = AgentSystem::new();
    assert!(system.ui_tasks().is_empty());
    system.add_agent_with_id(1, config("Ada"));
    system.add_task_with_id(10, "first".to_string());
    system.add_task_with_id(11, "second".to_string());
    system.tasks[1].status = TaskStatus::Blocked;
    system.poll(1_000, "code", Vec::new());
    let rows = system.ui_tasks();
    assert_eq!(rows.len(), 2);
    assert_eq!(rows[0].icon, "\u{1F504}");
    assert_eq!(rows[0].description, "first");
    assert_eq!(rows[0].assignee, Some("(Ada)".to_string()));
    assert_eq!(rows[1].icon, "\u{26D4}");
    assert_eq!(rows[1].description, "second");
    assert_eq!(rows[1].assignee, None);
}

#[test]
fn ui_agents_gives_a_panel_for_each_agent() {
    let mut system = AgentSystem::new();
    assert!(system.ui_agents().is_empty());
    assert!(system.agent_panel(1).is_none());
    system.add_agent_with_id(1, config("Ada"));
    system.add_agent_with_id(2, config("Bob"));
    system.add_task_with_id(10, "write docs".to_string());
    system.agents.get_mut(&2).unwrap().status = AgentStatus::Voting;
    system.agents.get_mut(&2).unwrap().chat_input = "draft".to_string();
    system.poll(1_000, "code", Vec::new());
    system.apply_event(agent_core::agent::AgentEvent::ChatResponse(2, "hi".to_string()));
    let mut panels = system.ui_agents();
    panels.sort_by_key(|p| p.id);
    assert_eq!(panels.len(), 2);
    assert_eq!(panels[0].id, 1);
    assert_eq!(panels[0].name, "Ada");
    assert_eq!(panels[0].status, "Thinking: Requesting LLM...");
    assert_eq!(panels[0].working_on, Some("Working on: write docs".to_string()));
    assert!(panels[0].chat.is_empty());
    assert_eq!(panels[1].id, 2);
    assert_eq!(panels[1].name, "Bob");
    assert_eq!(panels[1].status, "Idle");
    assert_eq!(panels[1].working_on, None);
    assert_eq!(panels[1].chat.len(), 1);
    assert_eq!(panels[1].chat[0].sender, "Bob");
    assert_eq!(panels[1].chat[0].content, "hi");
    assert_eq!(panels[1].chat_input, "draft");
    let panel = system.agent_panel(2).unwrap();
    assert_eq!(panel.name, "Bob");
}
