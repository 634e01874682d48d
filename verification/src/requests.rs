//! Requests that the user starts by hand: a chat message, a plan for a
//! goal, a fix for an error.

use vstd::prelude::*;
use vstd::string::StringExecFns;
use crate::agent::{
    AgentConfig, AgentStatus, AgentStatusView, AgentView, ChatMessage, ChatMessageView, Id,
    chat_views,
};
use crate::dispatch::{
    LlmRequest, LlmRequestView, build_chat_request, build_planning_request, build_work_request,
    chat_request, planning_request, work_request,
};
use crate::schedule::optional_request_view;
use crate::system::{AgentSystem, SystemView};

verus! {

broadcast use vstd::std_specs::hash::group_hash_axioms;

/// The message that the user's input makes in a conversation.
pub open spec fn user_message(content: Seq<char>) -> ChatMessageView {
    ChatMessageView { sender: "User"@, content }
}

/// The record of an agent after the user sent what stood in its input
/// line.
pub open spec fn chatting(agent: AgentView) -> AgentView {
    AgentView {
        status: AgentStatusView::Thinking("Chatting..."@),
        chat_history: agent.chat_history.push(user_message(agent.chat_input)),
        chat_input: Seq::empty(),
        ..agent
    }
}

/// The task that asks for the fix of an error.
pub open spec fn fix_task(error: Seq<char>) -> Seq<char> {
    "Fix error: "@ + error
}

impl SystemView {
    /// Whether the agent `id` has a chat message to send: it is held and
    /// its input line is not empty.
    pub open spec fn can_chat(self, id: Id) -> bool {
        self.agents.contains_key(id) && self.agents[id].chat_input.len() > 0
    }

    /// The state after the user sent the input line of the agent `id`.
    pub open spec fn after_chat_sent(self, id: Id) -> SystemView {
        if self.can_chat(id) {
            self.with_agent_record(id, chatting(self.agents[id]))
        } else {
            self
        }
    }

    /// The request that goes out when the user sends the input line of
    /// the agent `id`.
    pub open spec fn chat_sent_request(self, id: Id) -> Option<LlmRequestView> {
        if self.can_chat(id) {
            Some(
                chat_request(
                    id,
                    self.agents[id].config,
                    chatting(self.agents[id]).chat_history,
                ),
            )
        } else {
            None
        }
    }

    /// Whether `request` is a planning request for `goal` on behalf of an
    /// agent that is held.
    pub open spec fn plans_with_some_agent(
        self,
        request: LlmRequestView,
        goal: Seq<char>,
        code: Seq<char>,
    ) -> bool {
        exists|key: Id| #[trigger]
            self.agents.contains_key(key) && request == planning_request(
                self.agents[key].id,
                self.agents[key].config,
                goal,
                code,
            )
    }

    /// Whether `request` asks an agent that is held to fix `error`.
    pub open spec fn fixes_with_some_agent(
        self,
        request: LlmRequestView,
        error: Seq<char>,
        code: Seq<char>,
    ) -> bool {
        exists|key: Id| #[trigger]
            self.agents.contains_key(key) && request == work_request(
                self.agents[key].id,
                self.agents[key].config,
                fix_task(error),
                code,
            )
    }
}

impl AgentSystem {
    /// The work request of an agent for a task on the given code.
    pub fn spawn_llm_request(&self, agent_id: Id, config: AgentConfig, task: &str, code: &str) -> (request:
        LlmRequest)
        ensures
            request@ == work_request(agent_id, config@, task@, code@),
    {
        build_work_request(agent_id, &config, task, code)
    }

    /// The planning request of an agent for a goal on the given code.
    pub fn spawn_planning_request(
        &self,
        agent_id: Id,
        config: AgentConfig,
        goal: &str,
        current_code: &str,
    ) -> (request: LlmRequest)
        ensures
            request@ == planning_request(agent_id, config@, goal@, current_code@),
    {
        build_planning_request(agent_id, &config, goal, current_code)
    }

    /// The chat request of an agent for a conversation.
    pub fn spawn_chat_request(&self, agent_id: Id, config: AgentConfig, history: Vec<ChatMessage>) -> (request:
        LlmRequest)
        ensures
            request@ == chat_request(agent_id, config@, chat_views(history@)),
    {
        build_chat_request(agent_id, &config, &history)
    }

    /// Sends what stands in the input line of an agent: the text goes to
    /// the end of the conversation as the user's message, the input line
    /// is emptied, the agent is busy, and the request to continue the
    /// conversation is returned.  Nothing happens where the agent is not
    /// held or its input line is empty.
    pub fn submit_chat(&mut self, agent_id: Id) -> (request: Option<LlmRequest>)
        ensures
            final(self)@ == old(self)@.after_chat_sent(agent_id),
            optional_request_view(request) == old(self)@.chat_sent_request(agent_id),
    {
        match self.take_agent(agent_id) {
            Some(mut agent) => {
                if agent.chat_input.as_str().is_empty() {
                    self.put_agent(agent_id, agent);
                    assert(self@.agents =~= old(self)@.agents);
                    None
                } else {
                    let ghost held = agent@;
                    let content = agent.chat_input.clone();
                    agent.chat_input = String::new();
                    let message = ChatMessage { sender: String::from_str("User"), content };
                    agent.chat_history.push(message);
                    assert(chat_views(agent.chat_history@) =~= held.chat_history.push(
                        user_message(held.chat_input),
                    ));
                    agent.status = AgentStatus::Thinking(String::from_str("Chatting..."));
                    let request = build_chat_request(
                        agent_id,
                        &agent.config,
                        &agent.chat_history,
                    );
                    self.put_agent(agent_id, agent);
                    assert(self@.agents =~= old(self)@.after_chat_sent(agent_id).agents);
                    Some(request)
                }
            },
            None => None,
        }
    }

    /// Some agent that is held, if any is: the one that the map hands out
    /// first.
    pub fn any_agent(&self) -> (key: Option<Id>)
        ensures
            match key {
                Some(k) => self@.agents.contains_key(k),
                None => self@.agents.dom() == Set::<Id>::empty(),
            },
    {
        let keys = self.agent_ids();
        if keys.len() > 0 {
            Some(keys[0])
        } else {
            None
        }
    }

    /// Asks some agent to break `goal` down into tasks, and logs that it
    /// did.  Nothing happens where no agent is held.
    pub fn start_planning(&mut self, goal: &str, current_code: &str) -> (request: Option<
        LlmRequest,
    >)
        ensures
            match request {
                Some(r) => {
                    &&& old(self)@.plans_with_some_agent(r@, goal@, current_code@)
                    &&& final(self)@ == old(self)@.logged("Planning started for: "@ + goal@)
                },
                None => old(self)@.agents.dom() == Set::<Id>::empty() && final(self)@ == old(
                    self,
                )@,
            },
    {
        match self.any_agent() {
            Some(key) => {
                let agent = self.agents.get(&key).unwrap();
                let request = build_planning_request(agent.id, &agent.config, goal, current_code);
                let mut message = String::from_str("Planning started for: ");
                message.append(goal);
                self.log(message);
                Some(request)
            },
            None => None,
        }
    }

    /// Asks some agent to fix `error` in the given code, and logs that it
    /// did.  Nothing happens where no agent is held.
    pub fn request_fix(&mut self, error: &str, current_code: &str) -> (request: Option<LlmRequest>)
        ensures
            match request {
                Some(r) => {
                    &&& old(self)@.fixes_with_some_agent(r@, error@, current_code@)
                    &&& final(self)@ == old(self)@.logged("Requested fix for error: "@ + error@)
                },
                None => old(self)@.agents.dom() == Set::<Id>::empty() && final(self)@ == old(
                    self,
                )@,
            },
    {
        match self.any_agent() {
            Some(key) => {
                let agent = self.agents.get(&key).unwrap();
                let mut task = String::from_str("Fix error: ");
                task.append(error);
                let request = build_work_request(
                    agent.id,
                    &agent.config,
                    task.as_str(),
                    current_code,
                );
                let mut message = String::from_str("Requested fix for error: ");
                message.append(error);
                self.log(message);
                Some(request)
            },
            None => None,
        }
    }
}

} // verus!
