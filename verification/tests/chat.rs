use codex_ios::chat::{
    chat_request_from_responses_request, chat_tools_from_responses_tool, content_items_to_text,
    is_false, namespaced_tool_name, responses_function_to_chat_tool, ChatMessage, ChatToolCall,
    ChatToolCallFunction, ResponsesApiRequest,
};
use codex_ios::chat_stream::{
    split_namespaced_tool_name, ChatCompletionChoice, ChatCompletionChunk, ChatCompletionDelta,
    ChatCompletionDeltaFunction, ChatCompletionDeltaToolCall, ChatStream, ResponseEvent, SseInput,
};
use codex_ios::json::Json;
use codex_ios::protocol::{
    ContentItem, FunctionCallOutputBody, FunctionCallOutputPayload, ResponseItem,
};

fn json(text: &str) -> Json {
    Json::parse(text).expect("JSON")
}

fn request(instructions: &str, input: Vec<ResponseItem>) -> ResponsesApiRequest {
    ResponsesApiRequest {
        model: "model".to_string(),
        instructions: instructions.to_string(),
        input,
        tools: None,
        tool_choice: "auto".to_string(),
        parallel_tool_calls: true,
        reasoning: None,
        store: false,
        stream: true,
        included: vec![],
        service_tier: None,
        prompt_cache_key: None,
        text: None,
        client_metadata: None,
    }
}

fn said(role: &str, text: &str) -> ResponseItem {
    ResponseItem::Message {
        id: None,
        role: role.to_string(),
        content: vec![ContentItem::InputText { text: text.to_string() }],
        phase: None,
        internal_chat_message_metadata_passthrough: None,
    }
}

fn call(call_id: &str, namespace: Option<&str>, name: &str) -> ResponseItem {
    ResponseItem::FunctionCall {
        id: None,
        name: name.to_string(),
        namespace: namespace.map(str::to_string),
        arguments: "{}".to_string(),
        call_id: call_id.to_string(),
        internal_chat_message_metadata_passthrough: None,
    }
}

fn output(call_id: &str, body: FunctionCallOutputBody) -> ResponseItem {
    ResponseItem::FunctionCallOutput {
        id: None,
        call_id: call_id.to_string(),
        output: FunctionCallOutputPayload { body, success: None },
        internal_chat_message_metadata_passthrough: None,
    }
}

fn text_message(role: &str, content: &str) -> ChatMessage {
    ChatMessage {
        role: role.to_string(),
        content: Some(content.to_string()),
        tool_calls: None,
        tool_call_id: None,
    }
}

fn chat_call(id: &str, name: &str, arguments: &str) -> ChatToolCall {
    ChatToolCall {
        id: id.to_string(),
        kind: "function".to_string(),
        function: ChatToolCallFunction {
            name: name.to_string(),
            arguments: arguments.to_string(),
        },
    }
}

fn calls_message(calls: Vec<ChatToolCall>) -> ChatMessage {
    ChatMessage {
        role: "assistant".to_string(),
        content: None,
        tool_calls: Some(calls),
        tool_call_id: None,
    }
}

fn result_message(call_id: &str, content: &str) -> ChatMessage {
    ChatMessage {
        role: "tool".to_string(),
        content: Some(content.to_string()),
        tool_calls: None,
        tool_call_id: Some(call_id.to_string()),
    }
}

#[test]
fn parallel_calls_are_one_message_followed_by_their_results() {
    let converted = chat_request_from_responses_request(request(
        "be brief",
        vec![
            said("user", "go"),
            call("c1", None, "a"),
            call("c2", Some("fs"), "b"),
            output("c1", FunctionCallOutputBody::Text("one".to_string())),
            output("c2", FunctionCallOutputBody::ContentItems(json(r#"[{"b":1,"a":2}]"#))),
            said("developer", "note"),
            said("critic", "hm"),
        ],
    ));
    assert_eq!(
        converted.messages,
        vec![
            text_message("system", "be brief"),
            text_message("user", "go"),
            calls_message(vec![chat_call("c1", "a", "{}"), chat_call("c2", "fs__b", "{}")]),
            result_message("c1", "one"),
            result_message("c2", r#"[{"a":2,"b":1}]"#),
            text_message("system", "note"),
            text_message("user", "hm"),
        ]
    );
    assert_eq!(converted.tools, None);
    assert!(converted.stream);
    assert_eq!(converted.tool_choice, "auto");
    assert!(converted.parallel_tool_calls);
}

#[test]
fn trailing_calls_and_blank_texts() {
    let custom = ResponseItem::CustomToolCall {
        id: None,
        status: None,
        call_id: "c3".to_string(),
        name: "patch".to_string(),
        namespace: None,
        input: "raw".to_string(),
        internal_chat_message_metadata_passthrough: None,
    };
    let converted = chat_request_from_responses_request(request(
        " \n",
        vec![call("c1", None, "a"), said("user", ""), call("c2", None, "b"), custom],
    ));
    assert_eq!(
        converted.messages,
        vec![
            calls_message(vec![chat_call("c1", "a", "{}")]),
            calls_message(vec![chat_call("c2", "b", "{}"), chat_call("c3", "patch", "raw")]),
        ]
    );
}

#[test]
fn message_contents_are_joined_by_lines() {
    let content = vec![
        ContentItem::InputText { text: "a".to_string() },
        ContentItem::OutputText { text: String::new() },
        ContentItem::InputImage { image_url: "data:x".to_string(), detail: None },
        ContentItem::InputAudio { audio_url: "data:y".to_string() },
    ];
    assert_eq!(content_items_to_text(&content), Some("a\ndata:x\ndata:y".to_string()));
    assert_eq!(content_items_to_text(&vec![]), None);
}

#[test]
fn tools_are_flattened_under_their_namespace() {
    let plain = json(r#"{"type":"function","name":"a","parameters":{"type":"object"}}"#);
    let expected = json(
        r#"{"type":"function",
            "function":{"name":"a","description":"","parameters":{"type":"object"}}}"#,
    );
    assert_eq!(responses_function_to_chat_tool(None, &plain), Some(expected.clone()));
    assert_eq!(chat_tools_from_responses_tool(&plain), vec![expected]);

    let grouped = json(
        r#"{"type":"namespace","name":"fs","tools":[
            {"type":"function","name":"read","description":"reads"},
            {"type":"other","name":"skip"},{"type":"function"}]}"#,
    );
    assert_eq!(
        chat_tools_from_responses_tool(&grouped),
        vec![json(
            r#"{"type":"function","function":{"name":"fs__read","description":"reads",
                "parameters":{"type":"object","properties":{}}}}"#
        )]
    );
    assert!(chat_tools_from_responses_tool(&json(r#"{"type":"web_search"}"#)).is_empty());
    assert!(chat_tools_from_responses_tool(&json(r#"{"name":"a"}"#)).is_empty());

    let mut asked = request("", vec![]);
    asked.tools = Some(vec![json(r#"{"type":"web_search"}"#), grouped]);
    asked.input.push(ResponseItem::AdditionalTools {
        id: None,
        tools: vec![json(r#"{"type":"function","name":"late"}"#)],
        body: Json::Null,
        internal_chat_message_metadata_passthrough: None,
    });
    assert_eq!(
        chat_request_from_responses_request(asked).tools.map(|tools| tools.len()),
        Some(2)
    );
}

#[test]
fn names_are_joined_and_split_at_the_first_separator() {
    let fs = "fs".to_string();
    assert_eq!(namespaced_tool_name(Some(&fs), "read"), "fs__read");
    assert_eq!(namespaced_tool_name(Some(&String::new()), "read"), "read");
    assert_eq!(namespaced_tool_name(None, "read"), "read");
    assert_eq!(
        split_namespaced_tool_name("fs__read__all"),
        (Some("fs".to_string()), "read__all".to_string())
    );
    assert_eq!(split_namespaced_tool_name("read"), (None, "read".to_string()));
    assert!(is_false(&false));
    assert!(!is_false(&true));
}

fn delta(
    index: Option<usize>,
    id: Option<&str>,
    name: &str,
    arguments: &str,
) -> ChatCompletionDeltaToolCall {
    ChatCompletionDeltaToolCall {
        index,
        id: id.map(str::to_string),
        function: Some(ChatCompletionDeltaFunction {
            name: Some(name.to_string()),
            arguments: Some(arguments.to_string()),
        }),
    }
}

fn event(
    id: Option<&str>,
    content: Option<&str>,
    tool_calls: Option<Vec<ChatCompletionDeltaToolCall>>,
) -> SseInput {
    SseInput::Event {
        data: "{}".to_string(),
        chunk: Some(ChatCompletionChunk {
            id: id.map(str::to_string),
            choices: vec![ChatCompletionChoice {
                delta: ChatCompletionDelta { content: content.map(str::to_string), tool_calls },
            }],
        }),
    }
}

#[test]
fn streams_are_gathered_into_items() {
    let mut stream = ChatStream::new();
    assert_eq!(
        stream.accept(&event(Some("r1"), Some("Hel"), None)),
        (vec![ResponseEvent::OutputTextDelta("Hel".to_string())], true)
    );
    assert_eq!(
        stream.accept(&event(Some("r2"), Some("lo"), None)),
        (vec![ResponseEvent::OutputTextDelta("lo".to_string())], true)
    );
    assert_eq!(stream.accept(&event(None, Some(""), None)), (vec![], true));
    assert_eq!(
        stream.accept(&SseInput::Event { data: "{".to_string(), chunk: None }),
        (vec![], true)
    );
    stream.accept(&event(None, None, Some(vec![delta(Some(2), Some("c1"), "fs__", "{")])));
    stream.accept(&event(None, None, Some(vec![delta(Some(2), None, "read", "}")])));
    stream.accept(&event(None, None, Some(vec![delta(None, None, "late", "")])));
    assert_eq!(
        stream.accept(&SseInput::Event { data: " [DONE]\n".to_string(), chunk: None }),
        (vec![], false)
    );
    assert_eq!(
        stream.finish(),
        vec![
            ResponseEvent::OutputItemDone(ResponseItem::Message {
                id: None,
                role: "assistant".to_string(),
                content: vec![ContentItem::OutputText { text: "Hello".to_string() }],
                phase: None,
                internal_chat_message_metadata_passthrough: None,
            }),
            ResponseEvent::OutputItemDone(call("c1", Some("fs"), "read")),
            ResponseEvent::OutputItemDone(ResponseItem::FunctionCall {
                id: None,
                name: "late".to_string(),
                namespace: None,
                arguments: String::new(),
                call_id: "call_chat_3".to_string(),
                internal_chat_message_metadata_passthrough: None,
            }),
            ResponseEvent::Completed {
                response_id: "r1".to_string(),
                token_usage: None,
                end_turn: Some(true),
            },
        ]
    );
}

#[test]
fn broken_streams_say_why_and_still_complete() {
    let mut stream = ChatStream::new();
    assert_eq!(
        stream.accept(&SseInput::IdleTimeout { millis: 300000 }),
        (
            vec![ResponseEvent::Failed {
                message: "stream idle timeout after 300000 ms".to_string()
            }],
            false
        )
    );
    assert_eq!(
        stream.accept(&SseInput::Broken { error: "reset".to_string() }),
        (
            vec![ResponseEvent::Failed {
                message: "chat completions SSE error: reset".to_string()
            }],
            false
        )
    );
    assert_eq!(stream.accept(&SseInput::End), (vec![], false));
    assert_eq!(
        stream.finish(),
        vec![ResponseEvent::Completed {
            response_id: "chatcmpl".to_string(),
            token_usage: None,
            end_turn: Some(true),
        }]
    );
}
