use pi_agent::stream::{
    chunk_to_event, parse_sse_line, StreamChoice, StreamChunk, StreamDecoder, StreamDelta,
    StreamEvent, StreamFunction, StreamToolCall,
};

fn chunk_line(payload: &str) -> String {
    format!("data: {}", payload)
}

#[test]
fn token_then_done_decodes_in_order() {
    let mut decoder = StreamDecoder::new();
    let line = chunk_line(
        "{\"id\":\"c1\",\"object\":\"chat.completion.chunk\",\"created\":1,\"model\":\"m\",\
         \"choices\":[{\"index\":0,\"delta\":{\"content\":\"Hi\"}}]}",
    );
    let mut events = decoder.feed_line(&line);
    let done = decoder.feed_line("data: [DONE]");
    events.extend(done);
    assert_eq!(
        events,
        vec![StreamEvent::Token("Hi".to_string()), StreamEvent::Done]
    );
}

#[test]
fn empty_and_unframed_lines_are_ignored() {
    let mut decoder = StreamDecoder::new();
    assert!(decoder.feed_line("").is_empty());
    assert!(decoder.feed_line("   ").is_empty());
    assert!(decoder.feed_line("event: ping").is_empty());
}

#[test]
fn malformed_payload_is_one_error_event_and_decoding_goes_on() {
    let mut decoder = StreamDecoder::new();
    let events = decoder.feed_line("data: {not json");
    assert_eq!(events.len(), 1);
    match &events[0] {
        StreamEvent::Error(text) => {
            assert!(text.starts_with("Failed to parse SSE data: "));
        }
        _ => panic!("expected an error event"),
    }
    let line = chunk_line(
        "{\"id\":\"c\",\"object\":\"o\",\"created\":2,\"model\":\"m\",\
         \"choices\":[{\"index\":0,\"delta\":{\"content\":\"ok\"}}]}",
    );
    let events = decoder.feed_line(&line);
    assert_eq!(events, vec![StreamEvent::Token("ok".to_string())]);
}

#[test]
fn fragments_accumulate_into_one_tool_call() {
    let mut decoder = StreamDecoder::new();
    let first = chunk_line(
        "{\"id\":\"c\",\"object\":\"o\",\"created\":3,\"model\":\"m\",\"choices\":[{\"index\":0,\
         \"delta\":{\"tool_calls\":[{\"index\":0,\"id\":\"call-7\",\
         \"function\":{\"name\":\"lookup\",\"arguments\":\"{\\\"q\\\":\"}}]}}]}",
    );
    assert!(decoder.feed_line(&first).is_empty());
    let second = chunk_line(
        "{\"id\":\"c\",\"object\":\"o\",\"created\":4,\"model\":\"m\",\"choices\":[{\"index\":0,\
         \"delta\":{\"tool_calls\":[{\"index\":0,\
         \"function\":{\"arguments\":\"\\\"x\\\"}\"}}]}}]}",
    );
    assert!(decoder.feed_line(&second).is_empty());
    let last = chunk_line(
        "{\"id\":\"c\",\"object\":\"o\",\"created\":5,\"model\":\"m\",\"choices\":[{\"index\":0,\
         \"delta\":{},\"finish_reason\":\"tool_calls\"}]}",
    );
    let events = decoder.feed_line(&last);
    assert_eq!(
        events,
        vec![
            StreamEvent::ToolCall {
                id: "call-7".to_string(),
                name: "lookup".to_string(),
                arguments: "{\"q\":\"x\"}".to_string(),
            },
            StreamEvent::Done,
        ]
    );
}

#[test]
fn done_sentinel_flushes_assembled_calls() {
    let mut decoder = StreamDecoder::new();
    let first = chunk_line(
        "{\"id\":\"c\",\"object\":\"o\",\"created\":6,\"model\":\"m\",\"choices\":[{\"index\":0,\
         \"delta\":{\"tool_calls\":[{\"index\":1,\"id\":\"call-8\",\
         \"function\":{\"name\":\"go\",\"arguments\":\"{}\"}}]}}]}",
    );
    assert!(decoder.feed_line(&first).is_empty());
    let events = decoder.feed_line("data: [DONE]");
    assert_eq!(
        events,
        vec![
            StreamEvent::ToolCall {
                id: "call-8".to_string(),
                name: "go".to_string(),
                arguments: "{}".to_string(),
            },
            StreamEvent::Done,
        ]
    );
}

#[test]
fn parse_sse_line_classifies_every_shape() {
    assert!(matches!(parse_sse_line(""), Ok(None)));
    assert!(matches!(parse_sse_line("   "), Ok(None)));
    assert!(matches!(parse_sse_line("comment"), Ok(None)));
    assert!(matches!(parse_sse_line("data: [DONE]"), Ok(None)));
    assert!(parse_sse_line("data: {oops").is_err());
    let ok = parse_sse_line(
        "data: {\"id\":\"z\",\"object\":\"o\",\"created\":9,\"model\":\"m\",\"choices\":[]}",
    );
    let chunk = ok.unwrap().unwrap();
    assert_eq!(chunk.id, "z");
    assert_eq!(chunk.created, 9);
    assert!(chunk.choices.is_empty());
    let missing = parse_sse_line("data: {\"id\":\"z\"}");
    assert!(missing.is_err());
}

#[test]
fn chunk_to_event_requires_complete_triples() {
    let chunk = StreamChunk {
        id: "c".to_string(),
        object: "o".to_string(),
        created: 1,
        model: "m".to_string(),
        choices: vec![StreamChoice {
            index: 0,
            delta: StreamDelta {
                role: None,
                content: Some("Hello".to_string()),
                tool_calls: Some(vec![
                    StreamToolCall {
                        index: 0,
                        id: Some("call-1".to_string()),
                        tool_type: Some("function".to_string()),
                        function: Some(StreamFunction {
                            name: Some("f".to_string()),
                            arguments: Some("{}".to_string()),
                        }),
                    },
                    StreamToolCall {
                        index: 1,
                        id: None,
                        tool_type: None,
                        function: Some(StreamFunction {
                            name: Some("partial".to_string()),
                            arguments: None,
                        }),
                    },
                ]),
            },
            finish_reason: Some("stop".to_string()),
        }],
    };
    let events = chunk_to_event(&chunk);
    assert_eq!(
        events,
        vec![
            StreamEvent::Token("Hello".to_string()),
            StreamEvent::ToolCall {
                id: "call-1".to_string(),
                name: "f".to_string(),
                arguments: "{}".to_string(),
            },
            StreamEvent::Done,
        ]
    );
}

#[test]
fn empty_content_yields_no_token() {
    let chunk = StreamChunk {
        id: "c".to_string(),
        object: "o".to_string(),
        created: 1,
        model: "m".to_string(),
        choices: vec![StreamChoice {
            index: 0,
            delta: StreamDelta {
                role: Some("assistant".to_string()),
                content: Some(String::new()),
                tool_calls: None,
            },
            finish_reason: None,
        }],
    };
    assert!(chunk_to_event(&chunk).is_empty());
}

#[test]
fn stream_event_text_is_exact() {
    let token = StreamEvent::Token("abc".to_string());
    assert_eq!(token.to_string(), "abc");
    let call = StreamEvent::ToolCall {
        id: "i".to_string(),
        name: "n".to_string(),
        arguments: "{}".to_string(),
    };
    assert_eq!(call.to_string(), "[ToolCall: n(i) args={}]");
    assert_eq!(StreamEvent::Done.to_string(), "[Done]");
    assert_eq!(StreamEvent::Error("x".to_string()).to_string(), "[Error: x]");
}
