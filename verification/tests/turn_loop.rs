use codex_ios::bridge::{
    BridgeEvent, CodexErrorInfo, ErrorEvent, KIND_DYNAMIC_TOOL_CALL, KIND_ERROR, KIND_HISTORY,
    KIND_REASONING_BREAK, KIND_REASONING_DELTA, KIND_STARTUP_STAGE, KIND_STRUCTURED_ERROR,
    KIND_TEXT_DELTA, KIND_TOKEN_COUNT, KIND_TOOL_CALL, KIND_TOOL_DISCOVERY, KIND_TURN_ABORTED,
    KIND_TURN_READY,
};
use codex_ios::commands::ToolReply;
use codex_ios::context::ImageDetail;
use codex_ios::dynamic_tools::{DynamicToolCallOutputContentItem, DynamicToolResponse};
use codex_ios::json::Json;
use codex_ios::protocol::ResponseItem;
use codex_ios::turn_loop::{
    event_matches_turn, patch_target_file, tool_call_replay_key, Action, LoopInput, Phase,
    SubmitOutcome, TurnEvent, TurnLoop, TurnMsg, Wait,
};

fn emitted(kind: i32, text: &str) -> Action {
    Action::Emit(BridgeEvent { kind, text: text.to_string() })
}

fn event(msg: TurnMsg) -> LoopInput {
    LoopInput::Event(TurnEvent { id: "turn-1".to_string(), msg })
}

fn completed(failed: bool) -> LoopInput {
    event(TurnMsg::TurnComplete { turn_id: "turn-1".to_string(), failed })
}

/// A turn that waits for its events.
fn streaming(images: bool, replayed: Vec<String>) -> TurnLoop {
    let (mut turn, actions) = TurnLoop::begin(7, replayed, images, false);
    assert_eq!(actions[1], Action::SubmitPrompt { timed: images });
    let actions =
        turn.step(&LoopInput::PromptSubmitted(SubmitOutcome::Done("turn-1".to_string())));
    assert_eq!(actions[1], Action::Activate);
    assert_eq!(
        turn.step(&LoopInput::Activated { interrupted: false }),
        vec![emitted(KIND_TURN_READY, "7")]
    );
    assert_eq!(turn.phase, Phase::Streaming);
    turn
}

fn call(call_id: &str, arguments: &str) -> ResponseItem {
    ResponseItem::FunctionCall {
        id: None,
        name: "exec".to_string(),
        namespace: None,
        arguments: arguments.to_string(),
        call_id: call_id.to_string(),
        internal_chat_message_metadata_passthrough: None,
    }
}

fn error(message: &str, codex_error_info: Option<CodexErrorInfo>) -> LoopInput {
    event(TurnMsg::Error { error: ErrorEvent { message: message.to_string(), codex_error_info } })
}

fn problem(text: &str) -> Action {
    Action::Finish { problem: Some(text.to_string()) }
}

#[test]
fn a_turn_streams_its_answer_and_tells_its_history() {
    let mut turn = streaming(false, vec![]);
    assert_eq!(turn.wait(), Wait::Unlimited);
    assert_eq!(
        turn.step(&event(TurnMsg::AgentMessageContentDelta { delta: "Hi".to_string() })),
        vec![emitted(KIND_TEXT_DELTA, "Hi")]
    );
    assert_eq!(
        turn.step(&event(TurnMsg::AgentMessage { message: "Hi".to_string() })),
        vec![]
    );
    assert_eq!(
        turn.step(&event(TurnMsg::AgentMessage { message: "there".to_string() })),
        vec![emitted(KIND_TEXT_DELTA, "there")]
    );
    assert_eq!(
        turn.step(&completed(false)),
        vec![
            emitted(
                KIND_HISTORY,
                r#"[{"content":[{"text":"there","type":"output_text"}],"role":"assistant","type":"message"}]"#
            ),
            Action::Finish { problem: None },
        ]
    );
    assert!(turn.completed);
    assert_eq!(turn.wait(), Wait::Nothing);
    assert_eq!(turn.step(&completed(false)), vec![]);
}

#[test]
fn events_of_other_turns_change_nothing() {
    let mut turn = streaming(false, vec![]);
    let stale = TurnEvent {
        id: "turn-0".to_string(),
        msg: TurnMsg::TurnComplete { turn_id: "turn-0".to_string(), failed: false },
    };
    assert!(!event_matches_turn(&stale, &"turn-1".to_string()));
    assert_eq!(turn.step(&LoopInput::Event(stale)), vec![]);
    let mixed = TurnEvent {
        id: "turn-1".to_string(),
        msg: TurnMsg::TurnAborted { turn_id: Some("turn-0".to_string()) },
    };
    assert_eq!(turn.step(&LoopInput::Event(mixed)), vec![]);
    assert_eq!(turn.phase, Phase::Streaming);
    assert_eq!(
        turn.step(&event(TurnMsg::TurnAborted { turn_id: Some("turn-1".to_string()) })),
        vec![emitted(KIND_TURN_ABORTED, ""), Action::Finish { problem: None }]
    );
    assert!(!turn.completed);
}

#[test]
fn errors_are_told_once_and_the_turn_drains() {
    let mut turn = streaming(false, vec![]);
    let limits = Json::parse(r#"{"primary":null}"#).expect("JSON");
    assert_eq!(
        turn.step(&event(TurnMsg::TokenCount {
            json: Some("{}".to_string()),
            rate_limits: Some(limits),
        })),
        vec![emitted(KIND_TOKEN_COUNT, "{}")]
    );
    assert_eq!(
        turn.step(&error("limit", Some(CodexErrorInfo::UsageLimitExceeded))),
        vec![emitted(
            KIND_STRUCTURED_ERROR,
            r#"{"code":"usage_limit_exceeded","contract_version":1,"message":"limit","rate_limits":{"primary":null}}"#
        )]
    );
    assert_eq!(turn.step(&error("again", None)), vec![]);
    assert_eq!(turn.wait(), Wait::ErrorDrain);
    let mut late = turn.clone();
    assert_eq!(turn.step(&completed(true)), vec![Action::Finish { problem: None }]);
    assert!(!turn.completed);
    assert_eq!(late.step(&LoopInput::TimedOut), vec![Action::Finish { problem: None }]);
}

#[test]
fn failed_turns_are_told_without_their_cause() {
    let mut turn = streaming(false, vec![]);
    assert_eq!(
        turn.step(&completed(true)),
        vec![
            emitted(
                KIND_STRUCTURED_ERROR,
                r#"{"code":"other","contract_version":1,"message":"A protected turn failed."}"#
            ),
            Action::Finish { problem: None },
        ]
    );
    assert!(turn.protected_error_emitted);
}

#[test]
fn replayed_tool_calls_are_passed_over_once() {
    assert_eq!(tool_call_replay_key(&call("c1", "{}")).as_deref(), Some("function:c1"));
    let mut turn = streaming(false, vec!["function:c1".to_string()]);
    let again = || event(TurnMsg::RawResponseItem { item: call("c1", r#"{"cmd":"ls"}"#) });
    assert_eq!(turn.step(&again()), vec![]);
    assert_eq!(
        turn.step(&again()),
        vec![emitted(KIND_TOOL_CALL, r#"{"args":{"cmd":"ls"},"tool":"exec"}"#)]
    );
    assert_eq!(
        turn.step(&event(TurnMsg::RawResponseItem { item: call("c2", "{") })),
        vec![emitted(KIND_TOOL_CALL, r#"{"args":null,"tool":"exec"}"#)]
    );
    let search = ResponseItem::ToolSearchCall {
        id: None,
        body: Json::Null,
        internal_chat_message_metadata_passthrough: None,
    };
    assert_eq!(
        turn.step(&event(TurnMsg::RawResponseItem { item: search })),
        vec![emitted(
            KIND_TOOL_DISCOVERY,
            r#"{"contract_version":1,"event":"search_requested"}"#
        )]
    );
}

#[test]
fn patches_are_told_by_their_file() {
    assert_eq!(patch_target_file("*** Begin Patch\r\n*** Add File: a/b.rs\r\n+x"), "a/b.rs");
    assert_eq!(patch_target_file("  *** Delete File: old\n*** Update File: new"), "old");
    assert_eq!(patch_target_file("nothing"), "");
    let mut turn = streaming(false, vec![]);
    let patch = ResponseItem::CustomToolCall {
        id: None,
        status: None,
        call_id: "c".to_string(),
        name: "apply_patch".to_string(),
        namespace: None,
        input: "*** Update File: x.rs".to_string(),
        internal_chat_message_metadata_passthrough: None,
    };
    assert_eq!(
        turn.step(&event(TurnMsg::RawResponseItem { item: patch })),
        vec![emitted(KIND_TOOL_CALL, r#"{"args":{"path":"x.rs"},"tool":"apply_patch"}"#)]
    );
}

#[test]
fn reasoning_sections_are_set_apart() {
    let mut turn = streaming(false, vec![]);
    let delta = |summary_index: i64| {
        event(TurnMsg::ReasoningContentDelta { summary_index, delta: "r".to_string() })
    };
    assert_eq!(turn.step(&delta(0)), vec![emitted(KIND_REASONING_DELTA, "r")]);
    assert_eq!(turn.step(&delta(0)), vec![emitted(KIND_REASONING_DELTA, "r")]);
    assert_eq!(
        turn.step(&delta(1)),
        vec![emitted(KIND_REASONING_BREAK, ""), emitted(KIND_REASONING_DELTA, "r")]
    );
    assert_eq!(
        turn.step(&event(TurnMsg::AgentReasoningSectionBreak)),
        vec![emitted(KIND_REASONING_BREAK, "")]
    );
    assert_eq!(turn.step(&delta(2)), vec![emitted(KIND_REASONING_DELTA, "r")]);
}

fn reply(item: DynamicToolCallOutputContentItem) -> LoopInput {
    LoopInput::ReplyReceived(ToolReply {
        call_id: "c1".to_string(),
        response: DynamicToolResponse { content_items: vec![item], success: true },
    })
}

fn asked(turn: &mut TurnLoop) {
    assert_eq!(
        turn.step(&event(TurnMsg::DynamicToolCallRequest {
            call_id: "c1".to_string(),
            tool: "look".to_string(),
            namespace: None,
            arguments: Json::Null,
        })),
        vec![emitted(
            KIND_DYNAMIC_TOOL_CALL,
            r#"{"arguments":null,"call_id":"c1","namespace":null,"tool":"look","turn_handle":7}"#
        )]
    );
    assert_eq!(turn.wait(), Wait::EventOrReply);
}

#[test]
fn the_host_answers_dynamic_tools() {
    let mut turn = streaming(false, vec![]);
    asked(&mut turn);
    let said = DynamicToolCallOutputContentItem::InputText { text: "ok".to_string() };
    let actions = turn.step(&reply(said));
    assert!(matches!(&actions[..], [Action::SubmitReply { timed: false, .. }]));
    assert_eq!(turn.step(&LoopInput::ReplySubmitted(SubmitOutcome::Done(String::new()))), vec![]);
    assert_eq!(turn.wait(), Wait::Unlimited);

    asked(&mut turn);
    assert_eq!(
        turn.step(&LoopInput::ReplyChannelClosed),
        vec![
            emitted(KIND_ERROR, "dynamic tool response channel closed"),
            Action::Finish { problem: None }
        ]
    );
}

fn seen() -> LoopInput {
    reply(DynamicToolCallOutputContentItem::InputImage {
        image_url: "data:x".to_string(),
        detail: Some(ImageDetail::High),
    })
}

#[test]
fn images_in_answers_are_waited_for() {
    let mut turn = streaming(false, vec![]);
    asked(&mut turn);
    let actions = turn.step(&seen());
    assert!(matches!(&actions[1], Action::SubmitReply { timed: true, .. }));
    let mut slow = turn.clone();
    turn.step(&LoopInput::ReplySubmitted(SubmitOutcome::Done(String::new())));
    assert_eq!(turn.wait(), Wait::ToolImage);
    assert_eq!(
        turn.step(&LoopInput::TimedOut),
        vec![
            emitted(KIND_ERROR, "model did not continue after receiving image tool output"),
            Action::RequestInterrupt,
        ]
    );
    turn.step(&LoopInput::InterruptRequested { problem: None });
    assert_eq!(turn.wait(), Wait::Unlimited);
    assert_eq!(turn.step(&completed(false)), vec![Action::Finish { problem: None }]);
    assert!(!turn.completed);

    assert_eq!(
        slow.step(&LoopInput::ReplySubmitted(SubmitOutcome::TimedOut))[0],
        emitted(KIND_ERROR, "timed out submitting image tool output to the model")
    );
    assert_eq!(
        slow.step(&LoopInput::InterruptRequested { problem: Some("gone".to_string()) }),
        vec![problem("gone")]
    );
}

#[test]
fn images_in_prompts_are_waited_for() {
    let mut turn = streaming(true, vec![]);
    assert_eq!(turn.wait(), Wait::PromptImage);
    let mut answered = turn.clone();
    answered.step(&event(TurnMsg::Other));
    assert_eq!(answered.wait(), Wait::Unlimited);
    assert_eq!(
        turn.step(&LoopInput::TimedOut)[0],
        emitted(
            KIND_ERROR,
            "model did not produce an event after receiving prompt image input"
        )
    );

    let (mut slow, actions) = TurnLoop::begin(7, vec![], true, false);
    assert_eq!(actions[0], emitted(KIND_STARTUP_STAGE, "prompt_image_submit_begin"));
    slow.step(&LoopInput::PromptSubmitted(SubmitOutcome::TimedOut));
    assert_eq!(
        slow.step(&LoopInput::Activated { interrupted: false }),
        vec![emitted(KIND_TURN_READY, "7"), Action::Cancel]
    );
    assert!(slow.interrupting);
}

#[test]
fn turns_interrupted_during_startup_hand_no_prompt_over() {
    let (turn, actions) = TurnLoop::begin(7, vec![], false, true);
    assert_eq!(
        actions,
        vec![emitted(KIND_TURN_ABORTED, ""), Action::Finish { problem: None }]
    );
    assert_eq!(turn.phase, Phase::Finished);

    let (mut turn, _) = TurnLoop::begin(7, vec![], false, false);
    turn.step(&LoopInput::PromptSubmitted(SubmitOutcome::Done("turn-1".to_string())));
    assert_eq!(
        turn.step(&LoopInput::Activated { interrupted: true })[1],
        Action::Cancel
    );
    assert_eq!(turn.step(&LoopInput::CancelSubmitted { error: None }), vec![]);
    assert!(turn.interrupting);
    assert_eq!(
        turn.step(&LoopInput::StreamFailed { error: "x".to_string() }),
        vec![problem("event stream error while interrupting: x")]
    );
}

#[test]
fn problems_end_the_turn() {
    let (mut turn, _) = TurnLoop::begin(7, vec![], false, false);
    assert_eq!(
        turn.step(&LoopInput::PromptSubmitted(SubmitOutcome::Failed("x".to_string()))),
        vec![problem("failed to submit user input: x")]
    );
    let mut turn = streaming(false, vec![]);
    assert_eq!(
        turn.step(&LoopInput::StreamFailed { error: "x".to_string() }),
        vec![problem("event stream error: x")]
    );
    let mut turn = streaming(false, vec![]);
    asked(&mut turn);
    assert_eq!(
        turn.step(&LoopInput::StreamFailed { error: "x".to_string() }),
        vec![problem("event stream error while awaiting tool: x")]
    );
    let mut turn = streaming(false, vec![]);
    asked(&mut turn);
    turn.step(&seen());
    assert_eq!(
        turn.step(&LoopInput::ReplySubmitted(SubmitOutcome::Failed("x".to_string()))),
        vec![problem("failed to submit dynamic image tool response: x")]
    );
}
