use navichat::chat::{
    tool_calls_msg, tool_fn, tool_response_msg, user_msg, ConversationEntry, ToolCallRequest,
};
use navichat::error::Error;

fn call(id: &str, name: &str, args: &str) -> ToolCallRequest {
    ToolCallRequest {
        id: id.to_string(),
        name: name.to_string(),
        arguments: args.to_string(),
    }
}

#[test]
fn test_user_msg() {
    let msg = user_msg("hello".to_string());
    assert!(msg.is_ok());
}

#[test]
fn user_msg_keeps_content() {
    let e = user_msg("What is 2+2?".to_string()).unwrap();
    assert!(matches!(e, ConversationEntry::User { ref content } if content == "What is 2+2?"));
}

#[test]
fn user_msg_rejects_empty() {
    assert!(matches!(
        user_msg(String::new()),
        Err(Error::Validation { .. })
    ));
}

#[test]
fn tool_calls_msg_keeps_order() {
    let e = tool_calls_msg(vec![call("1", "a", "{}"), call("2", "b", "{}")]).unwrap();
    match e {
        ConversationEntry::AssistantToolCalls { tool_calls } => {
            assert_eq!(tool_calls.len(), 2);
            assert!(tool_calls[0].id == "1" && tool_calls[0].name == "a");
            assert!(tool_calls[1].id == "2" && tool_calls[1].name == "b");
        }
        _ => panic!("expected an assistant tool-call entry"),
    }
}

#[test]
fn tool_calls_msg_rejects_empty() {
    assert!(matches!(
        tool_calls_msg(Vec::new()),
        Err(Error::Validation { .. })
    ));
}

#[test]
fn tool_response_msg_keeps_fields() {
    let e = tool_response_msg("1".to_string(), "{\"temperature\":15}".to_string()).unwrap();
    match e {
        ConversationEntry::Tool {
            tool_call_id,
            content,
        } => {
            assert_eq!(tool_call_id, "1");
            assert_eq!(content, "{\"temperature\":15}");
        }
        _ => panic!("expected a tool-result entry"),
    }
}

#[test]
fn tool_fn_accepts_object_schema() {
    let d = tool_fn(
        "get_weather".to_string(),
        "get the weather for a city".to_string(),
        "{\"type\":\"object\",\"properties\":{}}".to_string(),
    )
    .unwrap();
    assert_eq!(d.name, "get_weather");
    assert_eq!(d.description, "get the weather for a city");
    assert_eq!(d.parameters, "{\"type\":\"object\",\"properties\":{}}");
}

#[test]
fn tool_fn_rejects_empty_name() {
    let r = tool_fn(
        String::new(),
        "a tool".to_string(),
        "{\"type\":\"object\"}".to_string(),
    );
    assert!(matches!(r, Err(Error::Validation { .. })));
}

#[test]
fn tool_fn_rejects_non_object_schema() {
    let r = tool_fn(
        "t".to_string(),
        "a tool".to_string(),
        "[1,2,3]".to_string(),
    );
    assert!(matches!(r, Err(Error::Validation { .. })));
}

#[test]
fn tool_fn_rejects_malformed_schema() {
    let r = tool_fn("t".to_string(), "a tool".to_string(), "{oops".to_string());
    assert!(matches!(r, Err(Error::Validation { .. })));
}

#[test]
fn tool_fn_rejects_leading_whitespace_schema() {
    let r = tool_fn("t".to_string(), "a tool".to_string(), " {}".to_string());
    assert!(matches!(r, Err(Error::Validation { .. })));
}
