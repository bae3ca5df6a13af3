use codex_ios::adapter::CodexContextAdapter;
use codex_ios::attachment::{AttachmentResolver, NoAttachments, ResolvedAttachment};
use codex_ios::codec::{
    event_payload, message_role, opaque_kind, output_phase, provider_serialization_view,
    restore_local_only_fields, role_text, tool_or_control,
};
use codex_ios::context::{
    AttachmentKind, CompactionMode, ContentPart, ContextEvent, ContextEventPayload, ImageDetail,
    MessageDelivery, MessagePhase, MessageRole, MessageVisibility, ModelContextPayload,
    ProviderLineage, ToolPhase, ToolRecord,
};
use codex_ios::error::CodexAdapterError;
use codex_ios::json::Json;
use codex_ios::protocol::{
    AgentMessageInputContent, CompactedItem, ContentItem, DecodedItem, DecodedTool, EncodedItem,
    FunctionCallOutputBody, FunctionCallOutputPayload, InterAgentCommunication, LocalShellStatus,
    ProviderReading, RawItem, ReasoningItemContent, ReasoningItemReasoningSummary, ResponseItem,
    RolloutItem, WiredItem,
};
use codex_ios::types::{AdaptedRolloutItem, EventMetadata, IgnoredRolloutItem};

struct TestAttachments;

impl AttachmentResolver for TestAttachments {
    fn resolve(&self, source: &str, kind: &AttachmentKind) -> Option<ResolvedAttachment> {
        match (source, kind) {
            ("upload://photo", AttachmentKind::Image) => Some(ResolvedAttachment {
                attachment_id: "attachment-photo".to_string(),
                media_type: "image/png".to_string(),
            }),
            ("upload://blank", AttachmentKind::Image) => Some(ResolvedAttachment {
                attachment_id: String::new(),
                media_type: "image/png".to_string(),
            }),
            ("upload://untyped", AttachmentKind::Audio) => Some(ResolvedAttachment {
                attachment_id: "attachment-sound".to_string(),
                media_type: String::new(),
            }),
            _ => None,
        }
    }
}

fn adapter() -> CodexContextAdapter<'static, NoAttachments, NoAttachments> {
    CodexContextAdapter::new(lineage())
}

fn lineage() -> ProviderLineage {
    ProviderLineage {
        provider: "openai".to_string(),
        protocol: "responses".to_string(),
        lineage_id: "oauth-account:model-family".to_string(),
    }
}

fn metadata(event_id: &str, sequence: u64) -> EventMetadata {
    EventMetadata {
        event_id: event_id.to_string(),
        conversation_id: "conversation-1".to_string(),
        turn_id: Some("turn-1".to_string()),
        sequence,
    }
}

/// The item with the bytes that it is sent as, which decode to its serialization view.
fn wired(item: ResponseItem, bytes: &[u8]) -> WiredItem {
    let view = provider_serialization_view(&item);
    WiredItem {
        item,
        encoded: EncodedItem::Bytes(bytes.to_vec()),
        reading: ProviderReading {
            response: DecodedItem::Item(view),
            tool: DecodedTool::Failed("no tool record".to_string()),
        },
    }
}

fn raw(bytes: &[u8], item: ResponseItem) -> Option<RawItem> {
    Some(RawItem { bytes: bytes.to_vec(), decoded: DecodedItem::Item(item) })
}

fn message(role: &str, content: Vec<ContentItem>) -> ResponseItem {
    ResponseItem::Message {
        id: None,
        role: role.to_string(),
        content,
        phase: None,
        internal_chat_message_metadata_passthrough: None,
    }
}

fn expect_event(adapted: Result<AdaptedRolloutItem, CodexAdapterError>) -> ContextEvent {
    match adapted {
        Ok(AdaptedRolloutItem::Event(event)) => *event,
        Ok(AdaptedRolloutItem::Ignored(reason)) => panic!("ignored: {reason:?}"),
        Err(error) => panic!("{error:?}"),
    }
}

fn expect_error(adapted: Result<AdaptedRolloutItem, CodexAdapterError>) -> CodexAdapterError {
    let Err(error) = adapted else {
        panic!("expected an error");
    };
    error
}

fn expect_tool(adapted: Result<AdaptedRolloutItem, CodexAdapterError>) -> ToolRecord {
    let event = expect_event(adapted);
    let ContextEventPayload::Tool(tool) = event.payload else {
        panic!("expected tool record");
    };
    tool
}

fn text(value: &str) -> Json {
    Json::Text(value.to_string())
}

#[test]
fn maps_messages_and_replaces_provider_media_urls_with_attachment_ids() {
    let attachments = TestAttachments;
    let adapter = adapter().with_attachment_resolver(&attachments);
    let item = ResponseItem::Message {
        id: Some("msg_1".to_string()),
        role: "user".to_string(),
        content: vec![
            ContentItem::InputText { text: "inspect this".to_string() },
            ContentItem::InputImage {
                image_url: "upload://photo".to_string(),
                detail: Some(ImageDetail::High),
            },
        ],
        phase: Some(MessagePhase::Commentary),
        internal_chat_message_metadata_passthrough: None,
    };

    let event =
        expect_event(adapter.adapt_response_item(metadata("event-1", 1), &wired(item, b""), &None));
    let ContextEventPayload::Message(message) = event.payload else {
        panic!("expected message");
    };
    assert_eq!(message.visibility, MessageVisibility::TranscriptAndModel);
    assert_eq!(message.phase, Some(MessagePhase::Commentary));
    assert_eq!(
        message.content,
        vec![
            ContentPart::Text { text: "inspect this".to_string() },
            ContentPart::Attachment {
                attachment_id: "attachment-photo".to_string(),
                media_type: "image/png".to_string(),
                kind: AttachmentKind::Image,
                image_detail: Some(ImageDetail::High),
            },
        ]
    );
}

#[test]
fn refuses_to_persist_unresolved_provider_media_urls() {
    let item = message(
        "user",
        vec![ContentItem::InputImage {
            image_url: "data:image/png;base64,secret".to_string(),
            detail: None,
        }],
    );

    assert!(
        adapter().adapt_response_item(metadata("event-1", 1), &wired(item, b""), &None)
            == Err(CodexAdapterError::UnresolvedAttachment { kind: AttachmentKind::Image })
    );
}

#[test]
fn attachments_are_named_in_full() {
    let attachments = TestAttachments;
    let adapter = adapter().with_attachment_resolver(&attachments);
    let image = message(
        "user",
        vec![ContentItem::InputImage { image_url: "upload://blank".to_string(), detail: None }],
    );
    assert_eq!(
        expect_error(adapter.adapt_response_item(metadata("e", 1), &wired(image, b""), &None)),
        CodexAdapterError::EmptyAttachmentField { field: "attachment_id" }
    );
    let audio = message(
        "user",
        vec![ContentItem::InputAudio { audio_url: "upload://untyped".to_string() }],
    );
    assert_eq!(
        expect_error(adapter.adapt_response_item(metadata("e", 1), &wired(audio, b""), &None)),
        CodexAdapterError::EmptyAttachmentField { field: "media_type" }
    );
}

#[test]
fn preserves_original_reasoning_json_as_exact_opaque_bytes() {
    let bytes = br#"{
  "type": "reasoning",
  "id": "rs_1",
  "summary": [{"type":"summary_text","text":"private summary"}],
  "encrypted_content": "ciphertext-value"
}"#;
    let item = ResponseItem::Reasoning {
        id: Some("rs_1".to_string()),
        summary: vec![ReasoningItemReasoningSummary::SummaryText {
            text: "private summary".to_string(),
        }],
        content: None,
        encrypted_content: Some("ciphertext-value".to_string()),
        internal_chat_message_metadata_passthrough: None,
    };

    let event = expect_event(adapter().adapt_response_item(
        metadata("event-2", 2),
        &wired(item.clone(), b"{}"),
        &raw(bytes, item),
    ));
    let ContextEventPayload::ProviderOpaque(opaque) = event.payload else {
        panic!("expected opaque reasoning");
    };
    assert_eq!(opaque.provider_item_id, "rs_1");
    assert_eq!(opaque.kind, "codex.reasoning");
    assert_eq!(opaque.lineage, lineage());
    assert_eq!(opaque.payload.as_bytes(), bytes);
    assert!(!opaque.payload.redacted().contains("ciphertext-value"));
}

#[test]
fn preserves_hosted_web_search_as_exact_lineage_bound_state() {
    let bytes = br#"{
  "type": "web_search_call",
  "id": "ws_1",
  "status": "completed",
  "action": {"type":"search","query":"current weather"}
}"#;
    let item = ResponseItem::WebSearchCall {
        id: Some("ws_1".to_string()),
        body: Json::parse(
            r#"{"status":"completed","action":{"type":"search","query":"current weather"}}"#,
        )
        .expect("web search JSON"),
        internal_chat_message_metadata_passthrough: None,
    };

    let event = expect_event(adapter().adapt_response_item(
        metadata("web-search", 3),
        &wired(item.clone(), b"{}"),
        &raw(bytes, item),
    ));
    let ContextEventPayload::ProviderOpaque(opaque) = event.payload else {
        panic!("expected opaque hosted search");
    };
    assert_eq!(opaque.kind, "codex.web_search_call");
    assert_eq!(opaque.lineage, lineage());
    assert_eq!(opaque.payload.as_bytes(), bytes);
}

#[test]
fn omits_local_only_reasoning_from_the_neutral_provider_payload() {
    let item = ResponseItem::Reasoning {
        id: None,
        summary: vec![ReasoningItemReasoningSummary::SummaryText { text: "summary".to_string() }],
        content: Some(vec![ReasoningItemContent::Text {
            text: "provider-only thought".to_string(),
        }]),
        encrypted_content: Some("ciphertext".to_string()),
        internal_chat_message_metadata_passthrough: None,
    };
    let ResponseItem::Reasoning { content, encrypted_content, .. } =
        provider_serialization_view(&item)
    else {
        panic!("expected reasoning payload");
    };
    assert_eq!(content, None);
    assert_eq!(encrypted_content.as_deref(), Some("ciphertext"));

    let sent = br#"{"type":"reasoning","summary":[],"encrypted_content":"ciphertext"}"#;
    let event = expect_event(adapter().adapt_response_item(
        metadata("event-2", 2),
        &wired(item.clone(), sent),
        &None,
    ));
    let ContextEventPayload::ProviderOpaque(opaque) = event.payload else {
        panic!("expected opaque reasoning");
    };
    assert_eq!(opaque.payload.as_bytes(), sent);

    // Bytes that still decode to the local text are not kept.
    let mut leaking = wired(item.clone(), b"{}");
    leaking.reading.response = DecodedItem::Item(item);
    assert_eq!(
        expect_error(adapter().adapt_response_item(metadata("event-2", 2), &leaking, &None)),
        CodexAdapterError::RawPayloadRequired { kind: "codex.reasoning" }
    );
}

#[test]
fn local_only_reasoning_is_restored_from_its_source() {
    let reasoning = |content: Option<Vec<ReasoningItemContent>>| ResponseItem::Reasoning {
        id: None,
        summary: vec![],
        content,
        encrypted_content: None,
        internal_chat_message_metadata_passthrough: None,
    };
    let source =
        reasoning(Some(vec![ReasoningItemContent::Text { text: "thought".to_string() }]));
    let mut rebuilt = provider_serialization_view(&source);
    assert_eq!(rebuilt, reasoning(None));
    restore_local_only_fields(&source, &mut rebuilt);
    assert_eq!(rebuilt, source);

    let sent = reasoning(Some(vec![ReasoningItemContent::ReasoningText {
        text: "thought".to_string(),
    }]));
    assert_eq!(provider_serialization_view(&sent), sent);
}

#[test]
fn keeps_noncanonical_message_text_shape_provider_opaque() {
    let item = message(
        "assistant",
        vec![ContentItem::InputText { text: "assistant input text".to_string() }],
    );
    let sent = br#"{"type":"message","role":"assistant"}"#;

    let event = expect_event(adapter().adapt_response_item(
        metadata("message", 3),
        &wired(item, sent),
        &None,
    ));
    let ContextEventPayload::ProviderOpaque(opaque) = event.payload else {
        panic!("expected provider-opaque message");
    };
    assert_eq!(opaque.kind, "codex.message");
    assert_eq!(opaque.provider_item_id, "message");
    assert_eq!(opaque.payload.as_bytes(), sent);
}

#[test]
fn normalizes_local_tool_calls_and_keeps_failure_status() {
    let call = ResponseItem::FunctionCall {
        id: None,
        name: "exec_command".to_string(),
        namespace: Some("functions".to_string()),
        arguments: "{\"cmd\":\"pwd\"}".to_string(),
        call_id: "call-1".to_string(),
        internal_chat_message_metadata_passthrough: None,
    };
    let output = ResponseItem::FunctionCallOutput {
        id: None,
        call_id: "call-1".to_string(),
        output: FunctionCallOutputPayload {
            body: FunctionCallOutputBody::Text("permission denied".to_string()),
            success: Some(false),
        },
        internal_chat_message_metadata_passthrough: None,
    };

    let call = expect_tool(adapter().adapt_response_item(
        metadata("event-3", 3),
        &wired(call, b""),
        &None,
    ));
    assert_eq!(call.name, "exec_command");
    assert_eq!(call.phase, ToolPhase::Requested);
    assert_eq!(call.data.get("arguments"), Some(&text("{\"cmd\":\"pwd\"}")));

    let output = expect_tool(adapter().adapt_response_item(
        metadata("event-4", 4),
        &wired(output, b""),
        &None,
    ));
    assert_eq!(output.call_id, "call-1");
    assert_eq!(output.phase, ToolPhase::Failed);
    assert_eq!(output.data.get("output"), Some(&text("permission denied")));
}

#[test]
fn shell_calls_need_an_identity() {
    let shell = |id: Option<&str>, call_id: Option<&str>, status| ResponseItem::LocalShellCall {
        id: id.map(str::to_string),
        call_id: call_id.map(str::to_string),
        status,
        action: Json::Null,
        internal_chat_message_metadata_passthrough: None,
    };
    let tool = expect_tool(adapter().adapt_response_item(
        metadata("e", 1),
        &wired(shell(Some("ls_1"), None, LocalShellStatus::InProgress), b""),
        &None,
    ));
    assert_eq!(tool.call_id, "ls_1");
    assert_eq!(tool.name, "local_shell");
    assert_eq!(
        expect_error(adapter().adapt_response_item(
            metadata("e", 1),
            &wired(shell(None, None, LocalShellStatus::Completed), b""),
            &None,
        )),
        CodexAdapterError::MissingCallId { kind: "local_shell_call" }
    );
}

fn communication(encrypted: Option<&str>) -> InterAgentCommunication {
    InterAgentCommunication {
        id: None,
        author: "/root/researcher".to_string(),
        recipient: "/root".to_string(),
        other_recipients: vec!["/root/critic".to_string()],
        content: "evidence is ready".to_string(),
        encrypted_content: encrypted.map(str::to_string),
        trigger_turn: encrypted.is_none(),
    }
}

#[test]
fn retains_plain_inter_agent_routing_and_delivery_semantics() {
    let event = expect_event(adapter().adapt_rollout_item(
        metadata("event-5", 5),
        &RolloutItem::InterAgentCommunication {
            communication: communication(None),
            encoded: EncodedItem::Bytes(vec![]),
        },
    ));
    let ContextEventPayload::Message(message) = event.payload else {
        panic!("expected message");
    };
    assert_eq!(message.visibility, MessageVisibility::ModelOnly);
    let route = message.route.expect("message route");
    assert_eq!(route.author, "/root/researcher");
    assert_eq!(route.recipients, ["/root", "/root/critic"]);
    assert_eq!(route.delivery, Some(MessageDelivery::TriggerTurn));
}

#[test]
fn keeps_encrypted_inter_agent_communication_opaque() {
    let sent = br#"{"encrypted_content":"encrypted-child-message"}"#;
    let event = expect_event(adapter().adapt_rollout_item(
        metadata("encrypted-message", 6),
        &RolloutItem::InterAgentCommunication {
            communication: communication(Some("encrypted-child-message")),
            encoded: EncodedItem::Bytes(sent.to_vec()),
        },
    ));
    let ContextEventPayload::ProviderOpaque(opaque) = event.payload else {
        panic!("expected opaque communication");
    };
    assert_eq!(opaque.kind, "codex.inter_agent_communication");
    assert_eq!(opaque.provider_item_id, "encrypted-message");
    assert_eq!(opaque.payload.as_bytes(), sent);

    assert_eq!(
        expect_error(adapter().adapt_rollout_item(
            metadata("encrypted-message", 6),
            &RolloutItem::InterAgentCommunication {
                communication: communication(Some("encrypted-child-message")),
                encoded: EncodedItem::Failed("no".to_string()),
            },
        )),
        CodexAdapterError::ProviderJson {
            operation: "serialize opaque rollout item",
            message: "no".to_string(),
        }
    );
}

#[test]
fn marks_compaction_native_when_replacement_contains_opaque_state() {
    let replacement_history = vec![
        wired(
            message("user", vec![ContentItem::InputText { text: "continue".to_string() }]),
            b"",
        ),
        wired(
            ResponseItem::Reasoning {
                id: Some("rs_2".to_string()),
                summary: Vec::new(),
                content: None,
                encrypted_content: Some("encrypted-checkpoint".to_string()),
                internal_chat_message_metadata_passthrough: None,
            },
            b"{}",
        ),
    ];
    let compacted = CompactedItem {
        message: "summary".to_string(),
        replacement_history: Some(replacement_history),
        window_number: Some(2),
        first_window_id: Some("window-1".to_string()),
        previous_window_id: Some("window-1".to_string()),
        window_id: Some("window-2".to_string()),
    };

    let event = expect_event(adapter().adapt_rollout_item(
        metadata("compaction-event", 8),
        &RolloutItem::Compacted(compacted),
    ));
    let ContextEventPayload::Compaction(checkpoint) = event.payload else {
        panic!("expected checkpoint");
    };
    assert_eq!(checkpoint.id, "window-2");
    assert_eq!(checkpoint.through_sequence, 7);
    assert_eq!(checkpoint.mode, CompactionMode::ProviderNative);
    assert_eq!(checkpoint.lineage, Some(lineage()));
    assert_eq!(checkpoint.replacement.len(), 2);
    assert!(matches!(
        checkpoint.replacement[1].payload,
        ModelContextPayload::ProviderOpaque(_)
    ));
}

fn portable_summary() -> CompactedItem {
    CompactedItem {
        message: "portable summary".to_string(),
        replacement_history: None,
        window_number: Some(3),
        first_window_id: Some("window-1".to_string()),
        previous_window_id: Some("window-2".to_string()),
        window_id: Some("window-3".to_string()),
    }
}

#[test]
fn keeps_text_only_compaction_provider_neutral() {
    let event = expect_event(adapter().adapt_rollout_item(
        metadata("semantic-compaction", 9),
        &RolloutItem::Compacted(portable_summary()),
    ));
    let ContextEventPayload::Compaction(checkpoint) = event.payload else {
        panic!("expected checkpoint");
    };
    assert_eq!(checkpoint.mode, CompactionMode::Semantic);
    assert_eq!(checkpoint.lineage, None);
    let ModelContextPayload::Message(summary) = &checkpoint.replacement[0].payload else {
        panic!("expected semantic summary");
    };
    assert_eq!(
        summary.content,
        [ContentPart::Text { text: "portable summary".to_string() }]
    );
}

#[test]
fn a_compaction_needs_something_before_it() {
    assert_eq!(
        expect_error(adapter().adapt_rollout_item(
            metadata("first", 0),
            &RolloutItem::Compacted(portable_summary()),
        )),
        CodexAdapterError::InvalidCompactionSequence
    );
}

#[test]
fn preserves_unknown_future_response_items_only_when_raw_bytes_are_available() {
    let bytes = br#"{"type":"future_continuation","token":"do-not-drop"}"#;
    let item = ResponseItem::Other;
    assert!(
        adapter().adapt_response_item(metadata("event-9", 9), &wired(item.clone(), b""), &None)
            == Err(CodexAdapterError::RawPayloadRequired { kind: "codex.unknown_response_item" })
    );

    let event = expect_event(adapter().adapt_response_item(
        metadata("event-9", 9),
        &wired(item.clone(), b""),
        &raw(bytes, item),
    ));
    let ContextEventPayload::ProviderOpaque(opaque) = event.payload else {
        panic!("expected opaque future item");
    };
    assert_eq!(opaque.payload.as_bytes(), bytes);
}

#[test]
fn classifies_request_controls_instead_of_silently_dropping_them() {
    assert!(
        adapter().adapt_response_item(
            metadata("control", 10),
            &wired(ResponseItem::CompactionTrigger, b""),
            &None,
        ) == Ok(AdaptedRolloutItem::Ignored(IgnoredRolloutItem::RequestControl))
    );
}

#[test]
fn raw_bytes_must_be_those_of_the_item() {
    let item = ResponseItem::Compaction {
        id: None,
        body: text("cipher"),
        internal_chat_message_metadata_passthrough: None,
    };
    assert_eq!(
        expect_error(adapter().adapt_response_item(
            metadata("e", 1),
            &wired(item.clone(), b""),
            &raw(b"{}", ResponseItem::Other),
        )),
        CodexAdapterError::RawPayloadMismatch
    );
    let failed = Some(RawItem {
        bytes: b"{".to_vec(),
        decoded: DecodedItem::Failed("EOF".to_string()),
    });
    assert_eq!(
        expect_error(adapter().adapt_response_item(
            metadata("e", 1),
            &wired(item.clone(), b""),
            &failed,
        )),
        CodexAdapterError::ProviderJson {
            operation: "decode raw response item",
            message: "EOF".to_string(),
        }
    );
    let mut unsent = wired(item.clone(), b"");
    unsent.encoded = EncodedItem::Failed("no".to_string());
    assert_eq!(
        expect_error(adapter().adapt_response_item(metadata("e", 1), &unsent, &None)),
        CodexAdapterError::ProviderJson {
            operation: "serialize response item",
            message: "no".to_string(),
        }
    );
    let mut unread = wired(item, b"");
    unread.reading.response = DecodedItem::Failed("no".to_string());
    assert_eq!(
        expect_error(adapter().adapt_response_item(metadata("e", 1), &unread, &None)),
        CodexAdapterError::ProviderJson {
            operation: "verify response item",
            message: "no".to_string(),
        }
    );
}

#[test]
fn roles_are_known_by_name() {
    for role in
        [MessageRole::User, MessageRole::Assistant, MessageRole::Developer, MessageRole::System]
    {
        assert_eq!(message_role(role_text(role)), Ok(role));
    }
    assert_eq!(
        message_role("tool"),
        Err(CodexAdapterError::UnsupportedRole { role: "tool".to_string() })
    );
    assert_eq!(
        expect_error(adapter().adapt_response_item(
            metadata("e", 1),
            &wired(message("tool", vec![]), b""),
            &None,
        )),
        CodexAdapterError::UnsupportedRole { role: "tool".to_string() }
    );
}

#[test]
fn tool_phases_follow_success() {
    assert_eq!(output_phase(Some(false)), ToolPhase::Failed);
    assert_eq!(output_phase(Some(true)), ToolPhase::Completed);
    assert_eq!(output_phase(None), ToolPhase::Completed);
    assert!(tool_or_control(&ResponseItem::CompactionTrigger));
    assert!(!tool_or_control(&ResponseItem::Other));
    assert_eq!(opaque_kind(&ResponseItem::Other), "codex.unknown_response_item");
}

#[test]
fn records_without_a_place_in_the_context_are_ignored() {
    for item in [
        RolloutItem::SessionMeta,
        RolloutItem::TurnContext,
        RolloutItem::WorldState,
        RolloutItem::EventMsg,
        RolloutItem::RemoteExecutionLaunchIntent,
    ] {
        assert!(matches!(
            adapter().adapt_rollout_item(metadata("e", 1), &item),
            Ok(AdaptedRolloutItem::Ignored(_))
        ));
    }
}

#[test]
fn agent_messages_stay_readable_only_while_they_are_plain() {
    let agent = |content: Vec<AgentMessageInputContent>| ResponseItem::AgentMessage {
        id: None,
        author: "/root/a".to_string(),
        recipient: "/root".to_string(),
        content,
        internal_chat_message_metadata_passthrough: None,
    };
    let plain = agent(vec![AgentMessageInputContent::InputText { text: "done".to_string() }]);
    let event =
        expect_event(adapter().adapt_response_item(metadata("e", 1), &wired(plain, b""), &None));
    let ContextEventPayload::Message(message) = &event.payload else {
        panic!("expected message");
    };
    assert_eq!(message.route.as_ref().map(|route| route.author.as_str()), Some("/root/a"));

    let sealed = agent(vec![AgentMessageInputContent::EncryptedContent {
        encrypted_content: "x".to_string(),
    }]);
    let event =
        expect_event(adapter().adapt_response_item(metadata("e", 1), &wired(sealed, b"{}"), &None));
    assert!(matches!(
        event.payload,
        ContextEventPayload::ProviderOpaque(opaque)
            if opaque.kind == "codex.agent_message.encrypted"
    ));
}

#[test]
fn metadata_names_the_event() {
    let tool = ToolRecord {
        call_id: "c".to_string(),
        name: "n".to_string(),
        phase: ToolPhase::Requested,
        data: Json::Null,
    };
    let event =
        metadata("event-7", 7).into_event(event_payload(ModelContextPayload::Tool(tool)));
    assert_eq!(event.id, "event-7");
    assert_eq!(event.conversation_id, "conversation-1");
    assert_eq!(event.turn_id.as_deref(), Some("turn-1"));
    assert_eq!(event.sequence, 7);
    assert!(matches!(event.payload, ContextEventPayload::Tool(_)));
}

#[test]
fn transport_fields_can_be_set_and_cleared() {
    let mut item = message("user", vec![]);
    item.set_id(Some("msg_1".to_string()));
    item.set_turn_id_if_missing("turn-1");
    item.set_turn_id_if_missing("turn-2");
    assert_eq!(item.id().map(String::as_str), Some("msg_1"));
    assert_eq!(item.turn_id().map(String::as_str), Some("turn-1"));
    item.set_id(None);
    item.clear_internal_chat_message_metadata_passthrough();
    assert_eq!(item, message("user", vec![]));
}
