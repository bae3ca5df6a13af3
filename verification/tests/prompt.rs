use codex_ios::chat_stream::ResponseEvent;
use codex_ios::prompt::{
    auth_headers, build_provider, build_request, call_result, download_result, CallOutcome,
    CommandCapture, CommandReport, PromptAnswer, PromptStep,
};
use codex_ios::protocol::{ContentItem, ResponseItem};
use codex_ios::json::{Json, Member};

#[test]
fn prompts_go_to_one_backend() {
    let provider = build_provider();
    assert_eq!(provider.base_url, "https://chatgpt.com/backend-api/codex");
    assert_eq!(provider.max_attempts, 3);
    assert_eq!(provider.stream_idle_timeout_secs, 60);
    let headers = auth_headers("token", "account");
    assert_eq!(
        headers.iter().map(|h| (h.name.as_str(), h.value.as_str())).collect::<Vec<_>>(),
        vec![("authorization", "Bearer token"), ("ChatGPT-Account-ID", "account")]
    );
    let request = build_request("model".to_string(), "hello".to_string());
    assert_eq!(request.instructions, "You are a helpful assistant.");
    assert_eq!(
        request.input,
        vec![ResponseItem::Message {
            id: None,
            role: "user".to_string(),
            content: vec![ContentItem::InputText { text: "hello".to_string() }],
            phase: None,
            internal_chat_message_metadata_passthrough: None,
        }]
    );
    assert_eq!(request.tools, None);
    assert_eq!(request.tool_choice, "auto");
    assert!(!request.parallel_tool_calls);
    assert_eq!(request.reasoning, None);
    assert!(!request.store);
    assert!(request.stream);
    assert!(request.included.is_empty());
    assert_eq!(request.service_tier, None);
    assert_eq!(request.prompt_cache_key, None);
    assert_eq!(request.text, None);
    assert_eq!(request.client_metadata, None);
}

fn finished(role: &str) -> ResponseEvent {
    ResponseEvent::OutputItemDone(ResponseItem::Message {
        id: None,
        role: role.to_string(),
        content: vec![
            ContentItem::OutputText { text: "a".to_string() },
            ContentItem::InputText { text: "x".to_string() },
            ContentItem::OutputText { text: "b".to_string() },
        ],
        phase: None,
        internal_chat_message_metadata_passthrough: None,
    })
}

#[test]
fn answers_are_gathered_once() {
    let mut answer = PromptAnswer::new();
    assert_eq!(answer.accept(&ResponseEvent::Created), PromptStep::Continue);
    assert_eq!(answer.accept(&finished("user")), PromptStep::Continue);
    assert_eq!(answer.text, "");
    answer.accept(&finished("assistant"));
    assert_eq!(answer.text, "ab");
    answer.accept(&ResponseEvent::OutputTextDelta("c".to_string()));
    answer.accept(&finished("assistant"));
    assert_eq!(answer.text, "abc");
    assert_eq!(
        answer.accept(&ResponseEvent::Completed {
            response_id: "r".to_string(),
            token_usage: None,
            end_turn: None,
        }),
        PromptStep::Finish
    );
    assert_eq!(
        answer.accept(&ResponseEvent::Failed { message: "reset".to_string() }),
        PromptStep::Fail { problem: "stream error: reset".to_string() }
    );
}

#[test]
fn hosts_get_a_text_or_an_error() {
    assert_eq!(call_result(&CallOutcome::Text("a\0b".to_string()), "p"), "ab");
    assert_eq!(call_result(&CallOutcome::Failed("no".to_string()), "p"), "ERROR: no");
    assert_eq!(call_result(&CallOutcome::Panicked, "panic"), "ERROR: panic");
    assert_eq!(download_result(&CallOutcome::Text("3".to_string())), "");
    assert_eq!(download_result(&CallOutcome::Failed("no".to_string())), "ERROR: no");
    assert_eq!(
        download_result(&CallOutcome::Failed("a\0b".to_string())),
        "ERROR: invalid download result"
    );
    assert_eq!(
        download_result(&CallOutcome::Panicked),
        "ERROR: panic while downloading SSH workspace file"
    );
}

#[test]
fn remote_commands_are_captured() {
    let mut capture = CommandCapture::new();
    assert_eq!(capture.finish().exit_code, 0);
    capture.accept(&CommandReport::Output(b"ok \xff".to_vec()));
    capture.accept(&CommandReport::Other);
    capture.accept(&CommandReport::Output(b"err".to_vec()));
    capture.accept(&CommandReport::ExitStatus(3));
    let output = capture.finish();
    assert_eq!(output.output, "ok \u{fffd}err");
    assert_eq!(output.exit_code, 3);
}

#[test]
fn documents_are_read_and_written() {
    let value = Json::parse(r#" {"b":[1,-2.50,"x\n"],"a":{"z":null,"y":true}} "#).expect("JSON");
    assert_eq!(
        value,
        Json::Object(vec![
            Member {
                key: "a".to_string(),
                value: Json::Object(vec![
                    Member { key: "y".to_string(), value: Json::Bool(true) },
                    Member { key: "z".to_string(), value: Json::Null },
                ]),
            },
            Member {
                key: "b".to_string(),
                value: Json::Array(vec![
                    Json::Number("1".to_string()),
                    Json::Number("-2.5".to_string()),
                    Json::Text("x\n".to_string()),
                ]),
            },
        ])
    );
    assert_eq!(value.render(), r#"{"a":{"y":true,"z":null},"b":[1,-2.5,"x\n"]}"#);
    assert!(Json::parse("{").is_err());
}
