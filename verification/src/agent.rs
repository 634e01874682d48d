//! Agent and task records, the events that report finished requests, and
//! the mathematical views that the contracts of this crate speak about.

use vstd::prelude::*;

verus! {

/// Identifier of an agent, a task or a peer: the 128 bits of a UUID.
pub type Id = u128;

/// What kind of work an agent takes.
#[derive(Debug)]
pub enum AgentRole {
    Generalist,
    Specialist(String),
}

/// Model of an [`AgentRole`].
pub enum AgentRoleView {
    Generalist,
    Specialist(Seq<char>),
}

impl View for AgentRole {
    type V = AgentRoleView;

    open spec fn view(&self) -> AgentRoleView {
        match self {
            AgentRole::Generalist => AgentRoleView::Generalist,
            AgentRole::Specialist(tag) => AgentRoleView::Specialist(tag@),
        }
    }
}

impl Clone for AgentRole {
    fn clone(&self) -> (r: Self)
        ensures
            r@ == self@,
    {
        match self {
            AgentRole::Generalist => AgentRole::Generalist,
            AgentRole::Specialist(tag) => AgentRole::Specialist(tag.clone()),
        }
    }
}

impl PartialEq for AgentRole {
    fn eq(&self, other: &Self) -> (equal: bool) {
        match (self, other) {
            (AgentRole::Generalist, AgentRole::Generalist) => true,
            (AgentRole::Specialist(a), AgentRole::Specialist(b)) => *a == *b,
            _ => false,
        }
    }
}

impl vstd::std_specs::cmp::PartialEqSpecImpl for AgentRole {
    open spec fn obeys_eq_spec() -> bool {
        true
    }

    open spec fn eq_spec(&self, other: &Self) -> bool {
        self@ == other@
    }
}

/// What an agent is doing right now.
#[derive(Debug)]
pub enum AgentStatus {
    Idle,
    Thinking(String),
    Typing,
    Voting,
    Error(String),
}

/// Model of an [`AgentStatus`].
pub enum AgentStatusView {
    Idle,
    Thinking(Seq<char>),
    Typing,
    Voting,
    Error(Seq<char>),
}

impl View for AgentStatus {
    type V = AgentStatusView;

    open spec fn view(&self) -> AgentStatusView {
        match self {
            AgentStatus::Idle => AgentStatusView::Idle,
            AgentStatus::Thinking(reason) => AgentStatusView::Thinking(reason@),
            AgentStatus::Typing => AgentStatusView::Typing,
            AgentStatus::Voting => AgentStatusView::Voting,
            AgentStatus::Error(message) => AgentStatusView::Error(message@),
        }
    }
}

impl Clone for AgentStatus {
    fn clone(&self) -> (r: Self)
        ensures
            r@ == self@,
    {
        match self {
            AgentStatus::Idle => AgentStatus::Idle,
            AgentStatus::Thinking(reason) => AgentStatus::Thinking(reason.clone()),
            AgentStatus::Typing => AgentStatus::Typing,
            AgentStatus::Voting => AgentStatus::Voting,
            AgentStatus::Error(message) => AgentStatus::Error(message.clone()),
        }
    }
}

impl PartialEq for AgentStatus {
    fn eq(&self, other: &Self) -> (equal: bool) {
        match (self, other) {
            (AgentStatus::Idle, AgentStatus::Idle) => true,
            (AgentStatus::Thinking(a), AgentStatus::Thinking(b)) => *a == *b,
            (AgentStatus::Typing, AgentStatus::Typing) => true,
            (AgentStatus::Voting, AgentStatus::Voting) => true,
            (AgentStatus::Error(a), AgentStatus::Error(b)) => *a == *b,
            _ => false,
        }
    }
}

impl vstd::std_specs::cmp::PartialEqSpecImpl for AgentStatus {
    open spec fn obeys_eq_spec() -> bool {
        true
    }

    open spec fn eq_spec(&self, other: &Self) -> bool {
        self@ == other@
    }
}

impl AgentStatus {
    /// Whether the agent is free to take a task.
    pub fn is_idle(&self) -> (b: bool)
        ensures
            b == (self@ is Idle),
    {
        match self {
            AgentStatus::Idle => true,
            _ => false,
        }
    }
}

/// How to reach and address the model behind an agent.
#[derive(Debug)]
pub struct AgentConfig {
    pub name: String,
    pub role: AgentRole,
    pub api_key: String,
    pub base_url: String,
    pub model: String,
    pub system_prompt: String,
}

/// Model of an [`AgentConfig`].
pub struct AgentConfigView {
    pub name: Seq<char>,
    pub role: AgentRoleView,
    pub api_key: Seq<char>,
    pub base_url: Seq<char>,
    pub model: Seq<char>,
    pub system_prompt: Seq<char>,
}

impl View for AgentConfig {
    type V = AgentConfigView;

    open spec fn view(&self) -> AgentConfigView {
        AgentConfigView {
            name: self.name@,
            role: self.role@,
            api_key: self.api_key@,
            base_url: self.base_url@,
            model: self.model@,
            system_prompt: self.system_prompt@,
        }
    }
}

impl Clone for AgentConfig {
    fn clone(&self) -> (r: Self)
        ensures
            r@ == self@,
    {
        AgentConfig {
            name: self.name.clone(),
            role: self.role.clone(),
            api_key: self.api_key.clone(),
            base_url: self.base_url.clone(),
            model: self.model.clone(),
            system_prompt: self.system_prompt.clone(),
        }
    }
}

/// One line of a conversation with an agent.
#[derive(Debug)]
pub struct ChatMessage {
    pub sender: String,
    pub content: String,
}

/// Model of a [`ChatMessage`].
pub struct ChatMessageView {
    pub sender: Seq<char>,
    pub content: Seq<char>,
}

impl View for ChatMessage {
    type V = ChatMessageView;

    open spec fn view(&self) -> ChatMessageView {
        ChatMessageView { sender: self.sender@, content: self.content@ }
    }
}

impl Clone for ChatMessage {
    fn clone(&self) -> (r: Self)
        ensures
            r@ == self@,
    {
        ChatMessage { sender: self.sender.clone(), content: self.content.clone() }
    }
}

/// The models of a sequence of chat messages, in order.
pub open spec fn chat_views(messages: Seq<ChatMessage>) -> Seq<ChatMessageView> {
    messages.map_values(|m: ChatMessage| m@)
}

/// The model of an optional text.
pub open spec fn text_view(text: Option<String>) -> Option<Seq<char>> {
    match text {
        Some(s) => Some(s@),
        None => None,
    }
}

/// Copies a conversation.
pub fn clone_chat(messages: &Vec<ChatMessage>) -> (r: Vec<ChatMessage>)
    ensures
        chat_views(r@) == chat_views(messages@),
{
    let mut out: Vec<ChatMessage> = Vec::new();
    let mut i: usize = 0;
    while i < messages.len()
        invariant
            i <= messages.len(),
            out.len() == i,
            forall|j: int| 0 <= j < i ==> out@[j]@ == messages@[j]@,
        decreases messages.len() - i,
    {
        out.push(messages[i].clone());
        i += 1;
    }
    out
}

/// Copies an optional text.
pub fn clone_text(text: &Option<String>) -> (r: Option<String>)
    ensures
        text_view(r) == text_view(*text),
{
    match text {
        Some(s) => Some(s.clone()),
        None => None,
    }
}

/// A worker identity.
#[derive(Debug)]
pub struct Agent {
    pub id: Id,
    pub config: AgentConfig,
    pub status: AgentStatus,
    pub current_task_id: Option<Id>,
    pub cursor_idx: Option<usize>,
    pub snapshot: Option<String>,
    pub chat_history: Vec<ChatMessage>,
    pub chat_input: String,
}

/// Model of an [`Agent`].
pub struct AgentView {
    pub id: Id,
    pub config: AgentConfigView,
    pub status: AgentStatusView,
    pub current_task_id: Option<Id>,
    pub cursor_idx: Option<usize>,
    pub snapshot: Option<Seq<char>>,
    pub chat_history: Seq<ChatMessageView>,
    pub chat_input: Seq<char>,
}

impl View for Agent {
    type V = AgentView;

    open spec fn view(&self) -> AgentView {
        AgentView {
            id: self.id,
            config: self.config@,
            status: self.status@,
            current_task_id: self.current_task_id,
            cursor_idx: self.cursor_idx,
            snapshot: text_view(self.snapshot),
            chat_history: chat_views(self.chat_history@),
            chat_input: self.chat_input@,
        }
    }
}

impl Clone for Agent {
    fn clone(&self) -> (r: Self)
        ensures
            r@ == self@,
    {
        Agent {
            id: self.id,
            config: self.config.clone(),
            status: self.status.clone(),
            current_task_id: self.current_task_id,
            cursor_idx: self.cursor_idx,
            snapshot: clone_text(&self.snapshot),
            chat_history: clone_chat(&self.chat_history),
            chat_input: self.chat_input.clone(),
        }
    }
}

impl Agent {
    /// A fresh agent: idle, with no task, no snapshot and an empty
    /// conversation.
    pub fn new(id: Id, config: AgentConfig) -> (agent: Agent)
        ensures
            agent@ == AgentView::fresh(id, config@),
    {
        let agent = Agent {
            id,
            config,
            status: AgentStatus::Idle,
            current_task_id: None,
            cursor_idx: None,
            snapshot: None,
            chat_history: Vec::new(),
            chat_input: String::new(),
        };
        assert(chat_views(agent.chat_history@) =~= Seq::empty());
        agent
    }
}

impl AgentView {
    /// The model of an agent that was just created.
    pub open spec fn fresh(id: Id, config: AgentConfigView) -> AgentView {
        AgentView {
            id,
            config,
            status: AgentStatusView::Idle,
            current_task_id: None,
            cursor_idx: None,
            snapshot: None,
            chat_history: Seq::empty(),
            chat_input: Seq::empty(),
        }
    }
}

/// Where a task stands in its life.
#[derive(Clone, Copy, Debug, PartialEq, Eq, Structural)]
pub enum TaskStatus {
    Pending,
    InProgress,
    Done,
    Blocked,
}

/// A unit of work.
#[derive(Debug)]
pub struct Task {
    pub id: Id,
    pub description: String,
    pub status: TaskStatus,
    pub assignee: Option<Id>,
}

/// Model of a [`Task`].
pub struct TaskView {
    pub id: Id,
    pub description: Seq<char>,
    pub status: TaskStatus,
    pub assignee: Option<Id>,
}

impl View for Task {
    type V = TaskView;

    open spec fn view(&self) -> TaskView {
        TaskView {
            id: self.id,
            description: self.description@,
            status: self.status,
            assignee: self.assignee,
        }
    }
}

impl Clone for Task {
    fn clone(&self) -> (r: Self)
        ensures
            r@ == self@,
    {
        Task {
            id: self.id,
            description: self.description.clone(),
            status: self.status,
            assignee: self.assignee,
        }
    }
}

impl Task {
    /// A new task: pending and unassigned.
    pub fn new(id: Id, description: String) -> (task: Task)
        ensures
            task@ == TaskView::pending(id, description@),
    {
        Task { id, description, status: TaskStatus::Pending, assignee: None }
    }
}

impl TaskView {
    /// The model of a task that was just created.
    pub open spec fn pending(id: Id, description: Seq<char>) -> TaskView {
        TaskView { id, description, status: TaskStatus::Pending, assignee: None }
    }
}

/// The models of a sequence of tasks, in order.
pub open spec fn task_views(tasks: Seq<Task>) -> Seq<TaskView> {
    tasks.map_values(|t: Task| t@)
}

/// Copies a task list.
pub fn clone_tasks(tasks: &Vec<Task>) -> (r: Vec<Task>)
    ensures
        task_views(r@) == task_views(tasks@),
{
    let mut out: Vec<Task> = Vec::new();
    let mut i: usize = 0;
    while i < tasks.len()
        invariant
            i <= tasks.len(),
            out.len() == i,
            forall|j: int| 0 <= j < i ==> out@[j]@ == tasks@[j]@,
        decreases tasks.len() - i,
    {
        out.push(tasks[i].clone());
        i += 1;
    }
    out
}

/// The outcome of one request to a model, delivered after the fact.
#[derive(Debug)]
pub enum AgentEvent {
    /// The body returned for a work request of the agent.
    LlmResponse(Id, String),
    /// The body returned for a chat request of the agent.
    ChatResponse(Id, String),
    /// The body returned for a planning request of the agent.
    PlanResponse(Id, String),
    /// The reason a request of the agent failed.
    LlmError(Id, String),
}

/// Model of an [`AgentEvent`].
pub enum AgentEventView {
    LlmResponse(Id, Seq<char>),
    ChatResponse(Id, Seq<char>),
    PlanResponse(Id, Seq<char>),
    LlmError(Id, Seq<char>),
}

impl View for AgentEvent {
    type V = AgentEventView;

    open spec fn view(&self) -> AgentEventView {
        match self {
            AgentEvent::LlmResponse(agent, body) => AgentEventView::LlmResponse(*agent, body@),
            AgentEvent::ChatResponse(agent, body) => AgentEventView::ChatResponse(*agent, body@),
            AgentEvent::PlanResponse(agent, body) => AgentEventView::PlanResponse(*agent, body@),
            AgentEvent::LlmError(agent, reason) => AgentEventView::LlmError(*agent, reason@),
        }
    }
}

impl AgentEventView {
    /// The agent that the event is addressed to.
    pub open spec fn agent(self) -> Id {
        match self {
            AgentEventView::LlmResponse(agent, _) => agent,
            AgentEventView::ChatResponse(agent, _) => agent,
            AgentEventView::PlanResponse(agent, _) => agent,
            AgentEventView::LlmError(agent, _) => agent,
        }
    }
}

/// The models of a sequence of events, in order.
pub open spec fn event_views(events: Seq<AgentEvent>) -> Seq<AgentEventView> {
    events.map_values(|e: AgentEvent| e@)
}

} // verus!
