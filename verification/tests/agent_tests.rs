use rustagent::agent::{
    completions_url, tool_output_can_be_cut, truncate_tool_output, AgentAction, AgentEvent,
    AgentFailure, AgentLoop, AgentMode, MAX_AGENT_ITERATIONS, MAX_TOOL_OUTPUT_BYTES,
};
use rustagent::api::{ChatCompletionResponse, ChatMessage, Choice, FunctionCall, ToolCall};
use rustagent::sse::{StreamDelta, StreamTurn, ToolCallDelta};

fn reply(content: Option<&str>, calls: Option<Vec<(&str, &str, &str)>>) -> AgentEvent {
    AgentEvent::Answered(ChatCompletionResponse {
        choices: vec![Choice {
            message: ChatMessage {
                role: "assistant".to_string(),
                content: content.map(|c| c.to_string()),
                tool_calls: calls.map(|cs| {
                    cs.into_iter()
                        .map(|(id, name, args)| ToolCall {
                            id: id.to_string(),
                            call_type: "function".to_string(),
                            function: FunctionCall {
                                name: name.to_string(),
                                arguments: args.to_string(),
                            },
                        })
                        .collect()
                }),
                tool_call_id: None,
            },
        }],
    })
}

#[test]
fn completions_url_strips_trailing_slashes() {
    assert_eq!(
        completions_url("https://albert.api/v1//"),
        "https://albert.api/v1/chat/completions"
    );
    assert_eq!(completions_url("http://x"), "http://x/chat/completions");
    assert_eq!(completions_url("/"), "/chat/completions");
}

#[test]
fn run_starts_with_system_and_user_prompts() {
    let (run, action) = AgentLoop::new(AgentMode::Plain, "sys", "hi");
    assert!(matches!(action, AgentAction::SendRequest));
    let m = run.messages();
    assert_eq!(m.len(), 2);
    assert_eq!(m[0].role, "system");
    assert_eq!(m[0].content, Some("sys".to_string()));
    assert_eq!(m[1].role, "user");
    assert_eq!(m[1].content, Some("hi".to_string()));
}

#[test]
fn plain_run_calls_tools_then_answers() {
    let (mut run, _) = AgentLoop::new(AgentMode::Plain, "sys", "list files");
    let action = run.step(reply(
        None,
        Some(vec![("c1", "list_directory", "{\"path\":\".\"}"), ("c2", "read_file", "oops")]),
    ));
    match action {
        AgentAction::CallTool { name, arguments, notice } => {
            assert_eq!(name, "list_directory");
            assert_eq!(arguments, "{\"path\":\".\"}");
            assert!(notice.is_none());
        }
        _ => panic!("the first tool is called"),
    }
    match run.step(AgentEvent::ToolResult(Ok("a.txt".to_string()))) {
        AgentAction::CallTool { name, .. } => assert_eq!(name, "read_file"),
        _ => panic!("the second tool is called"),
    }
    assert!(matches!(
        run.step(AgentEvent::ToolResult(Err("boom".to_string()))),
        AgentAction::SendRequest
    ));
    let m = run.messages();
    assert_eq!(m.len(), 5);
    assert_eq!(m[2].role, "assistant");
    assert_eq!(m[3].role, "tool");
    assert_eq!(m[3].content, Some("a.txt".to_string()));
    assert_eq!(m[3].tool_call_id, Some("c1".to_string()));
    assert_eq!(m[4].content, Some("Erreur MCP: boom".to_string()));
    assert_eq!(m[4].tool_call_id, Some("c2".to_string()));
    assert_eq!(run.iteration(), 1);
    match run.step(reply(Some("Here are your files"), None)) {
        AgentAction::Finish(r) => assert_eq!(r, Ok("Here are your files".to_string())),
        _ => panic!("the answer ends the run"),
    }
}

#[test]
fn blank_answers_and_empty_tool_lists_continue() {
    let (mut run, _) = AgentLoop::new(AgentMode::Plain, "s", "u");
    assert!(matches!(run.step(reply(Some("  \n"), None)), AgentAction::SendRequest));
    assert!(matches!(run.step(reply(None, Some(vec![]))), AgentAction::SendRequest));
    assert_eq!(run.iteration(), 2);
    assert_eq!(run.messages().len(), 2);
}

#[test]
fn run_gives_up_after_the_request_budget() {
    let (mut run, _) = AgentLoop::new(AgentMode::Plain, "s", "u");
    let mut requests = 1;
    loop {
        match run.step(reply(None, None)) {
            AgentAction::SendRequest => requests += 1,
            AgentAction::Finish(r) => {
                assert_eq!(r, Err("Nombre maximum d'itérations atteint sans réponse".to_string()));
                break;
            }
            _ => panic!("no tool is called"),
        }
    }
    assert_eq!(requests, MAX_AGENT_ITERATIONS);
}

#[test]
fn empty_reply_and_failures_end_the_run() {
    let (mut run, _) = AgentLoop::new(AgentMode::Plain, "s", "u");
    match run.step(AgentEvent::Answered(ChatCompletionResponse { choices: vec![] })) {
        AgentAction::Finish(r) => assert_eq!(r, Err("Réponse API vide".to_string())),
        _ => panic!(),
    }
    let cases = vec![
        (AgentMode::Plain, AgentFailure::Transport("dns".to_string()), "Erreur réseau: dns"),
        (
            AgentMode::Streaming,
            AgentFailure::Transport("dns".to_string()),
            "Erreur réseau (connexion impossible) : dns",
        ),
        (
            AgentMode::Plain,
            AgentFailure::Status { status: "500 Internal Server Error".to_string(), body: None },
            "Erreur API: ",
        ),
        (
            AgentMode::Streaming,
            AgentFailure::Status {
                status: "500 Internal Server Error".to_string(),
                body: Some("oops".to_string()),
            },
            "HTTP 500 Internal Server Error : oops",
        ),
        (
            AgentMode::Streaming,
            AgentFailure::Status { status: "502 Bad Gateway".to_string(), body: None },
            "HTTP 502 Bad Gateway : Impossible de lire le corps de l'erreur",
        ),
        (AgentMode::Plain, AgentFailure::Decode("eof".to_string()), "Erreur parsing JSON: eof"),
        (AgentMode::Streaming, AgentFailure::Stream("reset".to_string()), "reset"),
    ];
    for (mode, failure, text) in cases {
        let (mut run, _) = AgentLoop::new(mode, "s", "u");
        match run.step(AgentEvent::Failed(failure)) {
            AgentAction::Finish(r) => assert_eq!(r, Err(text.to_string())),
            _ => panic!("a failure ends the run"),
        }
    }
}

#[test]
fn streamed_run_announces_tools_and_cuts_outputs() {
    let (mut run, _) = AgentLoop::new(AgentMode::Streaming, "s", "u");
    let mut turn = StreamTurn::new();
    turn.apply_delta(&StreamDelta {
        content: Some("Je regarde".to_string()),
        tool_calls: vec![ToolCallDelta {
            index: Some(0),
            id: Some("t0".to_string()),
            name: Some("read_file".to_string()),
            arguments: Some("{}".to_string()),
        }],
    });
    match run.step(AgentEvent::Streamed(turn)) {
        AgentAction::CallTool { notice, .. } => {
            assert_eq!(notice, Some("\n\n⚙️ Execution de `read_file`...\n\n".to_string()))
        }
        _ => panic!("the tool is called"),
    }
    let big = "x".repeat(MAX_TOOL_OUTPUT_BYTES + 5);
    let result = Ok(big);
    assert!(run.accepts_tool_result(&result));
    assert!(matches!(run.step(AgentEvent::ToolResult(result)), AgentAction::SendRequest));
    let m = run.messages();
    assert_eq!(m[2].content, Some("Je regarde".to_string()));
    let recorded = m[3].content.clone().unwrap();
    assert!(recorded.starts_with(&"x".repeat(MAX_TOOL_OUTPUT_BYTES)));
    assert!(recorded[MAX_TOOL_OUTPUT_BYTES..].starts_with("\n\n[... Sortie tronquée"));

    let mut answer = StreamTurn::new();
    answer.apply_delta(&StreamDelta { content: Some("Fini".to_string()), tool_calls: vec![] });
    match run.step(AgentEvent::Streamed(answer)) {
        AgentAction::Finish(r) => assert_eq!(r, Ok("Fini".to_string())),
        _ => panic!("the text answers"),
    }
}

#[test]
fn tool_output_cut_rules() {
    let short = "é".repeat(10);
    assert_eq!(truncate_tool_output(short.clone()), short);
    let exact = "a".repeat(MAX_TOOL_OUTPUT_BYTES);
    assert_eq!(truncate_tool_output(exact.clone()), exact);
    // 11999 ASCII bytes then a two-byte character: byte 12000 is inside it.
    let split = format!("{}é", "a".repeat(MAX_TOOL_OUTPUT_BYTES - 1));
    assert!(!tool_output_can_be_cut(&split));
    let aligned = format!("{}éé", "a".repeat(MAX_TOOL_OUTPUT_BYTES - 2));
    assert!(tool_output_can_be_cut(&aligned));
    let cut = truncate_tool_output(aligned);
    assert!(cut.starts_with(&format!("{}é\n\n[...", "a".repeat(MAX_TOOL_OUTPUT_BYTES - 2))));
}

#[test]
fn tools_are_offered_only_when_there_are_some() {
    let none = rustagent::agent::request_tools(vec![]);
    assert!(none.tools.is_none());
    assert!(none.tool_choice.is_none());
    let tool = serde_json::Value::from("read_file");
    let some = rustagent::agent::request_tools(vec![tool.clone()]);
    assert_eq!(some.tools, Some(vec![tool]));
    assert_eq!(some.tool_choice, Some("auto".to_string()));
}
