use rustagent::api::{MathError, PathArgs};
use rustagent::mcp::{
    closed_stream_error, match_reply, CallToolResult, DynamicToolError, McpError, McpToolInfo,
    ReplyMatch, RpcReply, ToolContent,
};

fn content(text: Option<&str>) -> ToolContent {
    ToolContent {
        content_type: "text".to_string(),
        text: text.map(|t| t.to_string()),
    }
}

#[test]
fn tool_output_joins_texts() {
    let r = CallToolResult {
        content: vec![content(Some("a")), content(None), content(Some("b")), content(Some(""))],
        is_error: false,
    };
    assert_eq!(r.output().unwrap(), "a\nb\n");
    let empty = CallToolResult { content: vec![], is_error: false };
    assert_eq!(empty.output().unwrap(), "");
}

#[test]
fn tool_error_status_is_a_protocol_error() {
    let r = CallToolResult { content: vec![content(Some("x"))], is_error: true };
    match r.output() {
        Err(McpError::Protocol(m)) => assert_eq!(m, "Tool returned error status"),
        _ => panic!("an error status fails"),
    }
}

#[test]
fn replies_are_matched_by_id() {
    let other = RpcReply { id: Some(7), error: None, result: Some(serde_json::Value::from(1)) };
    assert!(matches!(match_reply(8, other), ReplyMatch::Unrelated));
    let notification = RpcReply { id: None, error: None, result: None };
    assert!(matches!(match_reply(1, notification), ReplyMatch::Unrelated));
    let answer = RpcReply { id: Some(3), error: None, result: Some(serde_json::from_str::<serde_json::Value>("{\"tools\": []}").unwrap()) };
    match match_reply(3, answer) {
        ReplyMatch::Answer(Ok(Some(v))) => assert_eq!(v, serde_json::from_str::<serde_json::Value>("{\"tools\": []}").unwrap()),
        _ => panic!("the reply answers"),
    }
    let no_result = RpcReply { id: Some(3), error: None, result: None };
    match match_reply(3, no_result) {
        ReplyMatch::Answer(Ok(None)) => {}
        _ => panic!("a reply without result has no result"),
    }
    let failed = RpcReply {
        id: Some(4),
        error: Some("{\"code\":-32601}".to_string()),
        result: Some(serde_json::Value::from(1)),
    };
    match match_reply(4, failed) {
        ReplyMatch::Answer(Err(McpError::Protocol(m))) => assert_eq!(m, "{\"code\":-32601}"),
        _ => panic!("an error reply fails"),
    }
    match closed_stream_error() {
        McpError::Protocol(m) => assert_eq!(m, "Process stream closed without response"),
        _ => panic!(),
    }
}

#[test]
fn tool_descriptions() {
    let with = McpToolInfo {
        name: "read_file".to_string(),
        description: Some("Reads".to_string()),
        input_schema: serde_json::Value::Object(serde_json::Map::new()),
    };
    assert_eq!(with.payload_description(), "Reads");
    assert_eq!(with.definition_description(), "Reads");
    let without = McpToolInfo { name: "x".to_string(), description: None, input_schema: serde_json::Value::Object(serde_json::Map::new()) };
    assert_eq!(without.payload_description(), "");
    assert_eq!(without.definition_description(), "Lit le contenu d'un fichier");
}

#[test]
fn error_texts() {
    assert_eq!(
        DynamicToolError("boom".to_string()).to_message(),
        "MCP Tool Execution Error: boom"
    );
    assert_eq!(MathError("div by 0".to_string()).to_message(), "Math execution error: div by 0");
    let p = PathArgs { path: "/tmp".to_string() };
    assert_eq!(p.path, "/tmp");
}

#[test]
fn tool_arguments_parse_or_fall_back_to_an_empty_object() {
    let parsed = rustagent::mcp::tool_arguments("{\"path\": \"src\"}");
    assert_eq!(parsed["path"], serde_json::Value::from("src"));
    let fallback = rustagent::mcp::tool_arguments("not json");
    assert_eq!(fallback, serde_json::Value::Object(serde_json::Map::new()));
    assert_eq!(
        rustagent::mcp::arguments_or_empty(None),
        serde_json::Value::Object(serde_json::Map::new())
    );
}

#[test]
fn reply_lines_are_decoded() {
    assert!(rustagent::mcp::decode_reply("   ").is_none());
    assert!(rustagent::mcp::decode_reply("not json").is_none());
    let r = rustagent::mcp::decode_reply("{\"jsonrpc\":\"2.0\",\"id\":5,\"result\":{\"ok\":true}}").unwrap();
    assert_eq!(r.id, Some(5));
    assert!(r.error.is_none());
    assert_eq!(r.result.unwrap()["ok"], serde_json::Value::from(true));
    let e = rustagent::mcp::decode_reply("{\"id\":\"x\",\"error\":{\"code\":-1}}").unwrap();
    assert_eq!(e.id, None);
    assert_eq!(e.error, Some("{\"code\":-1}".to_string()));
    assert!(e.result.is_none());
    let n = rustagent::mcp::decode_reply("[1,2]").unwrap();
    assert!(n.id.is_none() && n.error.is_none() && n.result.is_none());
}
