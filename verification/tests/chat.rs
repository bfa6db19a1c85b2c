use workspace_agent::agent::{ChatMessage, Role};
use workspace_agent::chat::{
    chat_request, completion_from_json, parse_completion, request_body, MODEL,
};
use workspace_agent::json::JsonValue;

#[test]
fn role_names_on_the_wire() {
    assert_eq!(Role::System.name(), "system");
    assert_eq!(Role::User.name(), "user");
    assert_eq!(Role::Assistant.name(), "assistant");
}

#[test]
fn request_body_holds_model_messages_and_stream_flag() {
    let messages = vec![
        ChatMessage { role: Role::System, content: "be brief".to_string() },
        ChatMessage { role: Role::User, content: "say \"hi\"\n".to_string() },
        ChatMessage { role: Role::Assistant, content: "hi".to_string() },
    ];
    assert_eq!(
        request_body(MODEL, &messages),
        "{\"model\":\"qwen2.5-coder-7b\",\"messages\":[\
{\"role\":\"system\",\"content\":\"be brief\"},\
{\"role\":\"user\",\"content\":\"say \\\"hi\\\"\\n\"},\
{\"role\":\"assistant\",\"content\":\"hi\"}],\"stream\":false}"
    );
}

#[test]
fn request_body_without_messages() {
    assert_eq!(request_body("m", &vec![]), "{\"model\":\"m\",\"messages\":[],\"stream\":false}");
    assert_eq!(
        chat_request("m", &vec![]).to_text(),
        "{\"model\":\"m\",\"messages\":[],\"stream\":false}"
    );
}

#[test]
fn message_as_json_text() {
    let message = ChatMessage { role: Role::User, content: "x".to_string() };
    assert_eq!(message.to_json().to_text(), "{\"role\":\"user\",\"content\":\"x\"}");
}

#[test]
fn completion_is_the_content_of_the_first_choice() {
    let body = "{\"id\":\"1\",\"choices\":[\
{\"index\":0,\"message\":{\"role\":\"assistant\",\"content\":\"first\"},\"finish_reason\":\"stop\"},\
{\"index\":1,\"message\":{\"role\":\"assistant\",\"content\":\"second\"}}]}";
    assert_eq!(parse_completion(body), Some("first".to_string()));
}

#[test]
fn completion_is_empty_without_choices() {
    assert_eq!(parse_completion("{\"choices\":[]}"), Some(String::new()));
}

#[test]
fn malformed_envelope_holds_no_completion() {
    for body in [
        "",
        "not json",
        "{}",
        "[]",
        "{\"choices\":{}}",
        "{\"choices\":null}",
        "{\"choices\":[{}]}",
        "{\"choices\":[{\"message\":{}}]}",
        "{\"choices\":[{\"message\":{\"content\":5}}]}",
        "{\"choices\":[{\"message\":\"text\"}]}",
        "{\"choices\":[{\"message\":{\"content\":\"ok\"}},{\"message\":{}}]}",
        "{\"choices\":[\"x\"]}",
    ] {
        assert_eq!(parse_completion(body), None, "{}", body);
    }
}

#[test]
fn completion_from_a_built_document() {
    let choice = JsonValue::Object(vec![(
        "message".to_string(),
        JsonValue::Object(vec![("content".to_string(), JsonValue::Text("done".to_string()))]),
    )]);
    let doc = JsonValue::Object(vec![("choices".to_string(), JsonValue::Array(vec![choice]))]);
    assert_eq!(completion_from_json(&doc), Some("done".to_string()));
    assert_eq!(completion_from_json(&JsonValue::Null), None);
}
