use agent_core::agent::{AgentConfig, AgentEvent, AgentRole, ChatMessage};
use agent_core::dispatch::{
    build_chat_request, build_planning_request, build_work_request, completion_event,
    HttpOutcome, RequestKind,
};
use agent_core::text::append_decimal;

fn config(system_prompt: &str) -> AgentConfig {
    AgentConfig {
        name: "Ada".to_string(),
        role: AgentRole::Generalist,
        api_key: "k".to_string(),
        base_url: "http://localhost:11434".to_string(),
        model: "llama3".to_string(),
        system_prompt: system_prompt.to_string(),
    }
}

#[test]
fn work_request_has_the_documented_prompt() {
    let request = build_work_request(7, &config(""), "Add tests", "fn f() {}");
    assert_eq!(request.agent_id, 7);
    assert_eq!(request.kind, RequestKind::Work);
    assert_eq!(request.url, "http://localhost:11434/api/generate");
    assert_eq!(request.model, "llama3");
    assert_eq!(request.prompt, "Task: Add tests\nCode:\nfn f() {}");
}

#[test]
fn planning_request_has_the_documented_prompt() {
    let request = build_planning_request(9, &config(""), "ship it", "code");
    assert_eq!(request.kind, RequestKind::Planning);
    assert_eq!(
        request.prompt,
        "You are a technical lead. Your goal is: ship it\nCurrent Code:\ncode\nBreak this goal down into a list of small, actionable coding tasks.\nFormat the output as a bulleted list (start lines with '- ').\nDo not include extra chatter, just the list."
    );
}

#[test]
fn chat_request_joins_the_transcript() {
    let history = vec![
        ChatMessage { sender: "User".to_string(), content: "hi".to_string() },
        ChatMessage { sender: "Ada".to_string(), content: "hello".to_string() },
    ];
    let request = build_chat_request(1, &config(""), &history);
    assert_eq!(request.kind, RequestKind::Chat);
    assert_eq!(request.prompt, "User: hi\nAda: hello\n");
    let request = build_chat_request(1, &config("Be brief."), &history);
    assert_eq!(request.prompt, "System: Be brief.\nUser: hi\nAda: hello\n");
    let request = build_chat_request(1, &config("Be brief."), &Vec::new());
    assert_eq!(request.prompt, "System: Be brief.\n");
    let request = build_chat_request(1, &config(""), &Vec::new());
    assert_eq!(request.prompt, "");
}

fn response(status: u16, body: &str) -> HttpOutcome {
    HttpOutcome::Response { status, body: body.to_string() }
}

#[test]
fn status_200_carries_the_body_on_by_kind() {
    match completion_event(RequestKind::Work, 3, response(200, "not json")) {
        AgentEvent::LlmResponse(id, body) => {
            assert_eq!(id, 3);
            assert_eq!(body, "not json");
        }
        other => panic!("{:?}", other),
    }
    match completion_event(RequestKind::Planning, 3, response(200, "- a")) {
        AgentEvent::PlanResponse(id, body) => {
            assert_eq!(id, 3);
            assert_eq!(body, "- a");
        }
        other => panic!("{:?}", other),
    }
    match completion_event(RequestKind::Chat, 3, response(200, "")) {
        AgentEvent::ChatResponse(id, body) => {
            assert_eq!(id, 3);
            assert_eq!(body, "");
        }
        other => panic!("{:?}", other),
    }
}

#[test]
fn other_status_is_an_error_with_the_code() {
    for (status, text) in [(404u16, "Status: 404"), (500, "Status: 500"), (0, "Status: 0"), (201, "Status: 201"), (65535, "Status: 65535"), (10, "Status: 10")] {
        match completion_event(RequestKind::Work, 5, response(status, "body")) {
            AgentEvent::LlmError(id, reason) => {
                assert_eq!(id, 5);
                assert_eq!(reason, text);
            }
            other => panic!("{:?}", other),
        }
    }
}

#[test]
fn transport_failure_is_an_error_with_the_reason() {
    match completion_event(RequestKind::Chat, 8, HttpOutcome::Failed("connection refused".to_string())) {
        AgentEvent::LlmError(id, reason) => {
            assert_eq!(id, 8);
            assert_eq!(reason, "connection refused");
        }
        other => panic!("{:?}", other),
    }
}

#[test]
fn decimal_is_appended_without_leading_zeros() {
    for n in [0u16, 7, 10, 99, 100, 1000, 40000, u16::MAX] {
        let mut out = "n=".to_string();
        append_decimal(&mut out, n);
        assert_eq!(out, format!("n={}", n));
    }
}
