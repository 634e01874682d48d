use agent_core::response::{extract_response_text, text_or_body, ResponseText};

fn parsed(answer: ResponseText) -> Option<String> {
    match answer {
        ResponseText::Parsed(text) => Some(text),
        ResponseText::RawFallback(_) => None,
    }
}

fn raw(answer: ResponseText) -> Option<String> {
    match answer {
        ResponseText::Parsed(_) => None,
        ResponseText::RawFallback(text) => Some(text),
    }
}

#[test]
fn response_field_is_preferred() {
    let body = "{\"response\": \"fn main() {}\", \"done\": true}".to_string();
    assert_eq!(parsed(extract_response_text(body)), Some("fn main() {}".to_string()));
}

#[test]
fn response_field_is_unescaped() {
    let body = "{\"response\": \"a\\nb \\\"q\\\" \\u00e9\"}".to_string();
    assert_eq!(parsed(extract_response_text(body)), Some("a\nb \"q\" \u{e9}".to_string()));
}

#[test]
fn response_falls_back_on_text_that_is_no_json() {
    let body = "just some text".to_string();
    assert_eq!(raw(extract_response_text(body)), Some("just some text".to_string()));
}

#[test]
fn response_falls_back_when_the_field_is_missing() {
    let body = "{\"answer\": \"x\"}".to_string();
    assert_eq!(raw(extract_response_text(body.clone())), Some(body));
}

#[test]
fn response_falls_back_when_the_field_is_no_string() {
    let body = "{\"response\": 42}".to_string();
    assert_eq!(raw(extract_response_text(body.clone())), Some(body));
    let body = "{\"response\": null}".to_string();
    assert_eq!(raw(extract_response_text(body.clone())), Some(body));
}

#[test]
fn response_falls_back_when_the_top_level_is_no_object() {
    for body in ["[\"response\"]", "\"response\"", "7", "null", ""] {
        assert_eq!(raw(extract_response_text(body.to_string())), Some(body.to_string()));
    }
}

#[test]
fn response_falls_back_on_trailing_garbage() {
    let body = "{\"response\": \"x\"} tail".to_string();
    assert_eq!(raw(extract_response_text(body.clone())), Some(body));
}

#[test]
fn response_into_text_gives_the_text_either_way() {
    assert_eq!(extract_response_text("{\"response\":\"ok\"}".to_string()).into_text(), "ok");
    assert_eq!(extract_response_text("plain".to_string()).into_text(), "plain");
}

#[test]
fn text_or_body_chooses_the_field() {
    let answer = text_or_body(Some("field".to_string()), "body".to_string());
    assert_eq!(parsed(answer), Some("field".to_string()));
    let answer = text_or_body(None, "body".to_string());
    assert_eq!(raw(answer), Some("body".to_string()));
}
