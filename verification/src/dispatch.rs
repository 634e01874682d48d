//! Requests to a model and the events that their completion turns into.
//!
//! The crate does not talk to the network.  It says what is to be sent,
//! as an [`LlmRequest`], and what a finished exchange means, through
//! [`completion_event`]; the host carries the request out in between.

use vstd::prelude::*;
use vstd::string::StringExecFns;
use crate::agent::{
    AgentConfig, AgentConfigView, AgentEvent, AgentEventView, ChatMessage, ChatMessageView, Id,
    chat_views,
};
use crate::text::{append_decimal, decimal};

verus! {

/// What a request asks the model for; it decides the event that the
/// answer is reported as.
#[derive(Clone, Copy, Debug, PartialEq, Eq, Structural)]
pub enum RequestKind {
    /// Carry out a task on the code.
    Work,
    /// Break a goal down into tasks.
    Planning,
    /// Continue a conversation.
    Chat,
}

/// One call to a model: a POST of `{model, prompt, stream: false}` as JSON
/// to `url`, on behalf of `agent_id`.
#[derive(Debug)]
pub struct LlmRequest {
    pub agent_id: Id,
    pub kind: RequestKind,
    pub url: String,
    pub model: String,
    pub prompt: String,
}

/// Model of an [`LlmRequest`].
pub struct LlmRequestView {
    pub agent_id: Id,
    pub kind: RequestKind,
    pub url: Seq<char>,
    pub model: Seq<char>,
    pub prompt: Seq<char>,
}

impl View for LlmRequest {
    type V = LlmRequestView;

    open spec fn view(&self) -> LlmRequestView {
        LlmRequestView {
            agent_id: self.agent_id,
            kind: self.kind,
            url: self.url@,
            model: self.model@,
            prompt: self.prompt@,
        }
    }
}

/// The models of a sequence of requests, in order.
pub open spec fn request_views(requests: Seq<LlmRequest>) -> Seq<LlmRequestView> {
    requests.map_values(|r: LlmRequest| r@)
}

/// The address that requests for a model served at `base_url` go to.
pub open spec fn generate_url(base_url: Seq<char>) -> Seq<char> {
    base_url + "/api/generate"@
}

/// The prompt of a work request.
pub open spec fn work_prompt(task: Seq<char>, code: Seq<char>) -> Seq<char> {
    "Task: "@ + task + "\nCode:\n"@ + code
}

/// The prompt of a planning request.
pub open spec fn planning_prompt(goal: Seq<char>, code: Seq<char>) -> Seq<char> {
    "You are a technical lead. Your goal is: "@ + goal + "\nCurrent Code:\n"@ + code
        + "\nBreak this goal down into a list of small, actionable coding tasks.\nFormat the output as a bulleted list (start lines with '- ').\nDo not include extra chatter, just the list."@
}

/// One line of a chat transcript.
pub open spec fn chat_line(message: ChatMessageView) -> Seq<char> {
    message.sender + ": "@ + message.content + "\n"@
}

/// The transcript of a conversation: one line for each message, in order.
pub open spec fn transcript(history: Seq<ChatMessageView>) -> Seq<char>
    decreases history.len(),
{
    if history.len() == 0 {
        Seq::empty()
    } else {
        transcript(history.drop_last()) + chat_line(history.last())
    }
}

/// The prompt of a chat request: the system prompt, if there is one, and
/// then the transcript.
pub open spec fn chat_prompt(system_prompt: Seq<char>, history: Seq<ChatMessageView>) -> Seq<
    char,
> {
    if system_prompt.len() == 0 {
        transcript(history)
    } else {
        "System: "@ + system_prompt + "\n"@ + transcript(history)
    }
}

/// The request that a prompt of the given kind makes for an agent.
pub open spec fn request_for(
    agent_id: Id,
    kind: RequestKind,
    config: AgentConfigView,
    prompt: Seq<char>,
) -> LlmRequestView {
    LlmRequestView {
        agent_id,
        kind,
        url: generate_url(config.base_url),
        model: config.model,
        prompt,
    }
}

/// The request that asks an agent's model to carry out `task` on `code`.
pub open spec fn work_request(
    agent_id: Id,
    config: AgentConfigView,
    task: Seq<char>,
    code: Seq<char>,
) -> LlmRequestView {
    request_for(agent_id, RequestKind::Work, config, work_prompt(task, code))
}

/// The request that asks an agent's model to break `goal` down.
pub open spec fn planning_request(
    agent_id: Id,
    config: AgentConfigView,
    goal: Seq<char>,
    code: Seq<char>,
) -> LlmRequestView {
    request_for(agent_id, RequestKind::Planning, config, planning_prompt(goal, code))
}

/// The request that asks an agent's model to continue a conversation.
pub open spec fn chat_request(
    agent_id: Id,
    config: AgentConfigView,
    history: Seq<ChatMessageView>,
) -> LlmRequestView {
    request_for(agent_id, RequestKind::Chat, config, chat_prompt(config.system_prompt, history))
}

/// Puts a request together from its prompt.
fn build_request(agent_id: Id, kind: RequestKind, config: &AgentConfig, prompt: String) -> (request:
    LlmRequest)
    ensures
        request@ == request_for(agent_id, kind, config@, prompt@),
{
    let mut url = config.base_url.clone();
    url.append("/api/generate");
    LlmRequest { agent_id, kind, url, model: config.model.clone(), prompt }
}

/// Builds the work request of an agent for a task.
pub fn build_work_request(agent_id: Id, config: &AgentConfig, task: &str, code: &str) -> (request:
    LlmRequest)
    ensures
        request@ == work_request(agent_id, config@, task@, code@),
{
    let mut prompt = String::from_str("Task: ");
    prompt.append(task);
    prompt.append("\nCode:\n");
    prompt.append(code);
    build_request(agent_id, RequestKind::Work, config, prompt)
}

/// Builds the planning request of an agent for a goal.
pub fn build_planning_request(
    agent_id: Id,
    config: &AgentConfig,
    goal: &str,
    code: &str,
) -> (request: LlmRequest)
    ensures
        request@ == planning_request(agent_id, config@, goal@, code@),
{
    let mut prompt = String::from_str("You are a technical lead. Your goal is: ");
    prompt.append(goal);
    prompt.append("\nCurrent Code:\n");
    prompt.append(code);
    prompt.append(
        "\nBreak this goal down into a list of small, actionable coding tasks.\nFormat the output as a bulleted list (start lines with '- ').\nDo not include extra chatter, just the list.",
    );
    build_request(agent_id, RequestKind::Planning, config, prompt)
}

/// Builds the chat request of an agent for a conversation.
pub fn build_chat_request(agent_id: Id, config: &AgentConfig, history: &Vec<ChatMessage>) -> (request:
    LlmRequest)
    ensures
        request@ == chat_request(agent_id, config@, chat_views(history@)),
{
    let mut prompt = String::new();
    if !config.system_prompt.as_str().is_empty() {
        prompt.append("System: ");
        prompt.append(config.system_prompt.as_str());
        prompt.append("\n");
    }
    let ghost head = prompt@;
    let ghost views = chat_views(history@);
    let mut i: usize = 0;
    while i < history.len()
        invariant
            i <= history.len(),
            views == chat_views(history@),
            prompt@ == head + transcript(views.take(i as int)),
        decreases history.len() - i,
    {
        let message = &history[i];
        prompt.append(message.sender.as_str());
        prompt.append(": ");
        prompt.append(message.content.as_str());
        prompt.append("\n");
        proof {
            let next = views.take(i + 1);
            assert(next.drop_last() =~= views.take(i as int));
        }
        i += 1;
    }
    assert(views.take(i as int) =~= views);
    build_request(agent_id, RequestKind::Chat, config, prompt)
}

/// How an exchange with a model's server ended.
#[derive(Debug)]
pub enum HttpOutcome {
    /// The server answered, with this status code and body.
    Response { status: u16, body: String },
    /// No answer came; the transport says why.
    Failed(String),
}

/// Model of an [`HttpOutcome`].
pub enum HttpOutcomeView {
    Response { status: u16, body: Seq<char> },
    Failed(Seq<char>),
}

impl View for HttpOutcome {
    type V = HttpOutcomeView;

    open spec fn view(&self) -> HttpOutcomeView {
        match self {
            HttpOutcome::Response { status, body } => HttpOutcomeView::Response {
                status: *status,
                body: body@,
            },
            HttpOutcome::Failed(reason) => HttpOutcomeView::Failed(reason@),
        }
    }
}

/// The event that reports a body returned for a request of the given kind.
pub open spec fn response_event(kind: RequestKind, agent_id: Id, body: Seq<char>) -> AgentEventView {
    match kind {
        RequestKind::Work => AgentEventView::LlmResponse(agent_id, body),
        RequestKind::Planning => AgentEventView::PlanResponse(agent_id, body),
        RequestKind::Chat => AgentEventView::ChatResponse(agent_id, body),
    }
}

/// The event that the end of an exchange is reported as.  Status 200
/// carries the body on, whatever it holds; any other status and any
/// transport failure is an error of the agent.
pub open spec fn event_of_outcome(
    kind: RequestKind,
    agent_id: Id,
    outcome: HttpOutcomeView,
) -> AgentEventView {
    match outcome {
        HttpOutcomeView::Response { status, body } => if status == 200 {
            response_event(kind, agent_id, body)
        } else {
            AgentEventView::LlmError(agent_id, "Status: "@ + decimal(status as nat))
        },
        HttpOutcomeView::Failed(reason) => AgentEventView::LlmError(agent_id, reason),
    }
}

/// Turns the end of an exchange into the event for the scheduler.
pub fn completion_event(kind: RequestKind, agent_id: Id, outcome: HttpOutcome) -> (event:
    AgentEvent)
    ensures
        event@ == event_of_outcome(kind, agent_id, outcome@),
{
    match outcome {
        HttpOutcome::Response { status, body } => {
            if status == 200 {
                match kind {
                    RequestKind::Work => AgentEvent::LlmResponse(agent_id, body),
                    RequestKind::Planning => AgentEvent::PlanResponse(agent_id, body),
                    RequestKind::Chat => AgentEvent::ChatResponse(agent_id, body),
                }
            } else {
                let mut reason = String::from_str("Status: ");
                append_decimal(&mut reason, status);
                AgentEvent::LlmError(agent_id, reason)
            }
        },
        HttpOutcome::Failed(reason) => AgentEvent::LlmError(agent_id, reason),
    }
}

} // verus!
