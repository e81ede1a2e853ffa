use rustagent::sse::{stream_delta, SseDecoder, StreamDelta, StreamTurn, ToolCallDelta};

#[test]
fn data_lines_are_trimmed_and_other_lines_skipped() {
    let mut d = SseDecoder::new();
    let payloads = d.push_text(": comment\n  data: {\"a\":1}  \nevent: x\ndata: two\npartial");
    assert_eq!(payloads, vec!["{\"a\":1}", "two"]);
    assert_eq!(d.pending(), "partial");
}

#[test]
fn lines_split_across_pieces_are_joined() {
    let mut d = SseDecoder::new();
    assert!(d.push_text("data: hel").is_empty());
    assert_eq!(d.push_text("lo\ndata: world\n"), vec!["hello", "world"]);
    assert_eq!(d.pending(), "");
}

#[test]
fn done_stops_taking_lines_until_more_text_arrives() {
    let mut d = SseDecoder::new();
    let payloads = d.push_text("data: a\ndata: [DONE]\ndata: b\n");
    assert_eq!(payloads, vec!["a"]);
    assert_eq!(d.pending(), "data: b\n");
    // The remaining lines are taken with the next piece of text.
    assert_eq!(d.push_text(""), vec!["b"]);
}

#[test]
fn data_marker_needs_its_space() {
    let mut d = SseDecoder::new();
    assert!(d.push_text("data:x\r\ndata: \n").is_empty());
}

#[test]
fn bytes_are_decoded_lossily() {
    let mut d = SseDecoder::new();
    let payloads = d.push_bytes(b"data: caf\xc3\xa9\ndata: \xff\n");
    assert_eq!(payloads, vec!["café", "\u{FFFD}"]);
}

fn fragment(index: Option<u64>, id: Option<&str>, name: Option<&str>, args: Option<&str>) -> ToolCallDelta {
    ToolCallDelta {
        index,
        id: id.map(|s| s.to_string()),
        name: name.map(|s| s.to_string()),
        arguments: args.map(|s| s.to_string()),
    }
}

#[test]
fn text_pieces_are_emitted_and_accumulated() {
    let mut t = StreamTurn::new();
    let e1 = t.apply_delta(&StreamDelta { content: Some("Hel".to_string()), tool_calls: vec![] });
    let e2 = t.apply_delta(&StreamDelta { content: Some(String::new()), tool_calls: vec![] });
    let e3 = t.apply_delta(&StreamDelta { content: Some("lo".to_string()), tool_calls: vec![] });
    assert_eq!(e1, Some("Hel".to_string()));
    assert_eq!(e2, None);
    assert_eq!(e3, Some("lo".to_string()));
    assert_eq!(t.content(), "Hello");
    assert!(!t.has_tool_calls());
    let m = t.assistant_message();
    assert_eq!(m.role, "assistant");
    assert_eq!(m.content, Some("Hello".to_string()));
    assert!(m.tool_calls.is_none());
}

#[test]
fn tool_call_fragments_assemble_by_slot_in_slot_order() {
    let mut t = StreamTurn::new();
    t.apply_delta(&StreamDelta {
        content: None,
        tool_calls: vec![
            fragment(Some(1), Some("call_b"), Some("list_"), Some("{\"p")),
            fragment(None, Some("call_a"), Some("read_file"), None),
        ],
    });
    t.apply_delta(&StreamDelta {
        content: None,
        tool_calls: vec![
            fragment(Some(1), None, Some("directory"), Some("\":1}")),
            fragment(Some(0), None, None, Some("{}")),
        ],
    });
    let calls = t.tool_calls();
    assert_eq!(calls.len(), 2);
    assert_eq!(calls[0].id, "call_a");
    assert_eq!(calls[0].function.name, "read_file");
    assert_eq!(calls[0].function.arguments, "{}");
    assert_eq!(calls[1].id, "call_b");
    assert_eq!(calls[1].function.name, "list_directory");
    assert_eq!(calls[1].function.arguments, "{\"p\":1}");
    assert_eq!(calls[1].call_type, "function");
    let m = t.assistant_message();
    assert!(m.content.is_none());
    assert_eq!(m.tool_calls.map(|c| c.len()), Some(2));
}

#[test]
fn payloads_do_not_depend_on_piece_boundaries() {
    let text = "data: one\n\ndata: two\nid: 3\ndata:  three \ndata: four";
    let mut whole = SseDecoder::new();
    let all_at_once = whole.push_text(text);
    for cut in 0..text.len() {
        if !text.is_char_boundary(cut) {
            continue;
        }
        let mut pieces = SseDecoder::new();
        let mut got = pieces.push_text(&text[..cut]);
        got.extend(pieces.push_text(&text[cut..]));
        assert_eq!(got, all_at_once);
        assert_eq!(pieces.pending(), whole.pending());
    }
    assert_eq!(all_at_once, vec!["one", "two", "three"]);
    assert_eq!(whole.pending(), "data: four");
}

#[test]
fn payloads_are_decoded_into_deltas() {
    assert!(stream_delta("not json").is_none());
    assert!(stream_delta("{\"choices\":[]}").is_none());
    assert!(stream_delta("{\"choices\":[{\"index\":0}]}").is_none());
    assert!(stream_delta("{\"choices\":{}}").is_none());
    let d = stream_delta("{\"choices\":[{\"delta\":{\"content\":\"Hi\"}}]}").unwrap();
    assert_eq!(d.content, Some("Hi".to_string()));
    assert!(d.tool_calls.is_empty());
    let d = stream_delta(
        "{\"choices\":[{\"delta\":{\"content\":null,\"tool_calls\":[{\"index\":2,\"id\":\"c\",\"function\":{\"name\":\"read\",\"arguments\":\"{\\\"a\"}},{\"function\":{\"arguments\":1}}]}}]}",
    )
    .unwrap();
    assert_eq!(d.content, None);
    assert_eq!(d.tool_calls.len(), 2);
    assert_eq!(d.tool_calls[0].index, Some(2));
    assert_eq!(d.tool_calls[0].id, Some("c".to_string()));
    assert_eq!(d.tool_calls[0].name, Some("read".to_string()));
    assert_eq!(d.tool_calls[0].arguments, Some("{\"a".to_string()));
    assert_eq!(d.tool_calls[1].index, None);
    assert_eq!(d.tool_calls[1].id, None);
    assert_eq!(d.tool_calls[1].name, None);
    assert_eq!(d.tool_calls[1].arguments, None);
}
