//! The short texts under which agents and tasks are shown.

use vstd::prelude::*;
use vstd::string::StringExecFns;
use crate::agent::{
    AgentStatus, AgentStatusView, ChatMessage, ChatMessageView, Id, Task, TaskStatus, TaskView,
    chat_views, clone_chat, text_view,
};
use crate::reconcile::find_task;
use crate::system::{AgentSystem, SystemView};

verus! {

broadcast use vstd::std_specs::hash::group_hash_axioms;

/// The text that shows what an agent is doing.
pub open spec fn status_text(status: AgentStatusView) -> Seq<char> {
    match status {
        AgentStatusView::Idle => "Idle"@,
        AgentStatusView::Thinking(reason) => "Thinking: "@ + reason,
        AgentStatusView::Typing => "Typing..."@,
        AgentStatusView::Voting => "Voting"@,
        AgentStatusView::Error(message) => "Error: "@ + message,
    }
}

/// The sign that shows where a task stands.
pub open spec fn icon(status: TaskStatus) -> Seq<char> {
    match status {
        TaskStatus::Pending => "\u{2B1C}"@,
        TaskStatus::InProgress => "\u{1F504}"@,
        TaskStatus::Done => "\u{2705}"@,
        TaskStatus::Blocked => "\u{26D4}"@,
    }
}

/// The line that tells which task the agent `id` works on, if it is held
/// and its current task is among the tasks.
pub open spec fn working_on_text(s: SystemView, id: Id) -> Option<Seq<char>> {
    if s.agents.contains_key(id) {
        match s.finishing(id) {
            Some(i) => Some("Working on: "@ + s.tasks[i].description),
            None => None,
        }
    } else {
        None
    }
}

/// The note that names the assignee of a task, if the task has one and
/// the assignee is held.
pub open spec fn assignee_text(s: SystemView, task: TaskView) -> Option<Seq<char>> {
    match task.assignee {
        Some(id) => if s.agents.contains_key(id) {
            Some("("@ + s.agents[id].config.name + ")"@)
        } else {
            None
        },
        None => None,
    }
}

/// Renders what an agent is doing.
pub fn status_label(status: &AgentStatus) -> (label: String)
    ensures
        label@ == status_text(status@),
{
    match status {
        AgentStatus::Idle => String::from_str("Idle"),
        AgentStatus::Thinking(reason) => {
            let mut label = String::from_str("Thinking: ");
            label.append(reason.as_str());
            label
        },
        AgentStatus::Typing => String::from_str("Typing..."),
        AgentStatus::Voting => String::from_str("Voting"),
        AgentStatus::Error(message) => {
            let mut label = String::from_str("Error: ");
            label.append(message.as_str());
            label
        },
    }
}

/// The sign for a task's status.
pub fn task_icon(status: TaskStatus) -> (sign: &'static str)
    ensures
        sign@ == icon(status),
{
    match status {
        TaskStatus::Pending => "\u{2B1C}",
        TaskStatus::InProgress => "\u{1F504}",
        TaskStatus::Done => "\u{2705}",
        TaskStatus::Blocked => "\u{26D4}",
    }
}

impl AgentSystem {
    /// Renders the line that tells which task an agent works on.
    pub fn working_on(&self, agent_id: Id) -> (line: Option<String>)
        ensures
            text_view(line) == working_on_text(self@, agent_id),
    {
        match self.agents.get(&agent_id) {
            Some(agent) => match agent.current_task_id {
                Some(task) => match find_task(&self.tasks, task) {
                    Some(i) => {
                        let mut line = String::from_str("Working on: ");
                        line.append(self.tasks[i].description.as_str());
                        Some(line)
                    },
                    None => None,
                },
                None => None,
            },
            None => None,
        }
    }

    /// Renders the note that names the assignee of a task.
    pub fn assignee_label(&self, task: &Task) -> (note: Option<String>)
        ensures
            text_view(note) == assignee_text(self@, task@),
    {
        match task.assignee {
            Some(id) => match self.agents.get(&id) {
                Some(agent) => {
                    let mut note = String::from_str("(");
                    note.append(agent.config.name.as_str());
                    note.append(")");
                    Some(note)
                },
                None => None,
            },
            None => None,
        }
    }
}

/// One row of the task list as it is shown.
#[derive(Debug)]
pub struct TaskRow {
    pub icon: &'static str,
    pub description: String,
    pub assignee: Option<String>,
}

/// Model of a [`TaskRow`].
pub struct TaskRowView {
    pub icon: Seq<char>,
    pub description: Seq<char>,
    pub assignee: Option<Seq<char>>,
}

impl View for TaskRow {
    type V = TaskRowView;

    open spec fn view(&self) -> TaskRowView {
        TaskRowView {
            icon: self.icon@,
            description: self.description@,
            assignee: text_view(self.assignee),
        }
    }
}

/// The models of the rows of a task list, in order.
pub open spec fn row_views(rows: Seq<TaskRow>) -> Seq<TaskRowView> {
    rows.map_values(|r: TaskRow| r@)
}

/// The row that shows a task.
pub open spec fn row_of(s: SystemView, task: TaskView) -> TaskRowView {
    TaskRowView {
        icon: icon(task.status),
        description: task.description,
        assignee: assignee_text(s, task),
    }
}

/// The panel of one agent as it is shown.
#[derive(Debug)]
pub struct AgentPanel {
    pub id: Id,
    pub name: String,
    pub status: String,
    pub working_on: Option<String>,
    pub chat: Vec<ChatMessage>,
    pub chat_input: String,
}

/// Model of an [`AgentPanel`].
pub struct AgentPanelView {
    pub id: Id,
    pub name: Seq<char>,
    pub status: Seq<char>,
    pub working_on: Option<Seq<char>>,
    pub chat: Seq<ChatMessageView>,
    pub chat_input: Seq<char>,
}

impl View for AgentPanel {
    type V = AgentPanelView;

    open spec fn view(&self) -> AgentPanelView {
        AgentPanelView {
            id: self.id,
            name: self.name@,
            status: self.status@,
            working_on: text_view(self.working_on),
            chat: chat_views(self.chat@),
            chat_input: self.chat_input@,
        }
    }
}

/// The models of a sequence of panels, in order.
pub open spec fn panel_views(panels: Seq<AgentPanel>) -> Seq<AgentPanelView> {
    panels.map_values(|p: AgentPanel| p@)
}

/// The model of an optional panel.
pub open spec fn optional_panel_view(panel: Option<AgentPanel>) -> Option<AgentPanelView> {
    match panel {
        Some(p) => Some(p@),
        None => None,
    }
}

impl SystemView {
    /// The task list as it is shown: one row for each task, in order.
    pub open spec fn task_rows(self) -> Seq<TaskRowView> {
        self.tasks.map_values(|t: TaskView| row_of(self, t))
    }

    /// The panel that shows the agent held under `id`.
    pub open spec fn panel_of(self, id: Id) -> AgentPanelView {
        AgentPanelView {
            id,
            name: self.agents[id].config.name,
            status: status_text(self.agents[id].status),
            working_on: working_on_text(self, id),
            chat: self.agents[id].chat_history,
            chat_input: self.agents[id].chat_input,
        }
    }

    /// The panels of the agents found on a walk in `order`.
    pub open spec fn panels(self, order: Seq<Id>) -> Seq<AgentPanelView> {
        order.map_values(|id: Id| self.panel_of(id))
    }

    /// Whether `panels` shows every agent held, each once.
    pub open spec fn shows_all_agents(self, panels: Seq<AgentPanelView>) -> bool {
        exists|order: Seq<Id>| #[trigger] self.is_walk(order) && panels == self.panels(order)
    }
}

impl AgentSystem {
    /// The task list as it is shown: for each task its sign, its
    /// description and a note that names its assignee.
    pub fn ui_tasks(&self) -> (rows: Vec<TaskRow>)
        ensures
            row_views(rows@) == self@.task_rows(),
    {
        let mut rows: Vec<TaskRow> = Vec::new();
        let mut i: usize = 0;
        while i < self.tasks.len()
            invariant
                i <= self.tasks.len(),
                rows.len() == i,
                forall|j: int| 0 <= j < i ==> rows@[j]@ == row_of(self@, self.tasks@[j]@),
            decreases self.tasks.len() - i,
        {
            let task = &self.tasks[i];
            rows.push(
                TaskRow {
                    icon: task_icon(task.status),
                    description: task.description.clone(),
                    assignee: self.assignee_label(task),
                },
            );
            i += 1;
        }
        rows
    }

    /// The panel of the agent held under `agent_id`: its name, what it is
    /// doing, the task it works on, and its conversation.
    pub fn agent_panel(&self, agent_id: Id) -> (panel: Option<AgentPanel>)
        ensures
            optional_panel_view(panel) == if self@.agents.contains_key(agent_id) {
                Some(self@.panel_of(agent_id))
            } else {
                None
            },
    {
        match self.agents.get(&agent_id) {
            Some(agent) => Some(
                AgentPanel {
                    id: agent_id,
                    name: agent.config.name.clone(),
                    status: status_label(&agent.status),
                    working_on: self.working_on(agent_id),
                    chat: clone_chat(&agent.chat_history),
                    chat_input: agent.chat_input.clone(),
                },
            ),
            None => None,
        }
    }

    /// The panels of all agents held, in the order in which the map hands
    /// the agents out, which is not fixed.
    pub fn ui_agents(&self) -> (panels: Vec<AgentPanel>)
        ensures
            self@.shows_all_agents(panel_views(panels@)),
    {
        let order = self.agent_ids();
        let mut panels: Vec<AgentPanel> = Vec::new();
        let mut i: usize = 0;
        while i < order.len()
            invariant
                i <= order.len(),
                panels.len() == i,
                order@.to_set() == self@.agents.dom(),
                forall|j: int| 0 <= j < i ==> panels@[j]@ == self@.panel_of(order@[j]),
            decreases order.len() - i,
        {
            match self.agent_panel(order[i]) {
                Some(panel) => {
                    panels.push(panel);
                },
                None => {},
            }
            i += 1;
        }
        proof {
            assert(panel_views(panels@) =~= self@.panels(order@));
        }
        panels
    }
}

} // verus!
