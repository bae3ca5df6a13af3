use codex_ios::adapter::CodexContextAdapter;
use codex_ios::attachment::{AttachmentMaterializer, MaterializedAttachment, NoAttachments};
use codex_ios::codec::provider_serialization_view;
use codex_ios::context::{
    AttachmentKind, ContentPart, ImageDetail, Message, MessagePhase, MessageRole, MessageRoute,
    MessageVisibility, ModelContextItem, ModelContextPayload, OpaquePayload, ProviderLineage,
    ProviderOpaqueItem, ToolPhase, ToolRecord,
};
use codex_ios::error::CodexAdapterError;
use codex_ios::json::{object2, Json};
use codex_ios::parity::{
    normalize_semantic, response_item_kind, CodexInputParityFailure, CodexInputParityReport,
    CodexInputParityStage,
};
use codex_ios::protocol::{
    AgentMessageInputContent, ContentItem, DecodedItem, DecodedTool, EncodedItem,
    FunctionCallOutputBody, FunctionCallOutputPayload, LocalShellStatus, ProviderReading,
    ReasoningItemContent, ResponseItem, WiredItem,
};
use codex_ios::types::{PreparedCodexInputItem, ReadItem};

struct TestMaterializer;

impl AttachmentMaterializer for TestMaterializer {
    fn materialize(
        &self,
        attachment_id: &str,
        media_type: &str,
        kind: &AttachmentKind,
    ) -> Option<MaterializedAttachment> {
        match (attachment_id, media_type, kind) {
            ("photo-1", "image/png", AttachmentKind::Image) => Some(MaterializedAttachment {
                source: "data:image/png;base64,cGl4ZWxz".to_string(),
            }),
            ("blank", _, _) => Some(MaterializedAttachment { source: String::new() }),
            _ => None,
        }
    }
}

fn adapter() -> CodexContextAdapter<'static, NoAttachments, NoAttachments> {
    CodexContextAdapter::new(lineage())
}

fn lineage() -> ProviderLineage {
    ProviderLineage {
        provider: "openai".to_string(),
        protocol: "responses".to_string(),
        lineage_id: "oauth-account:model-family".to_string(),
    }
}

fn unread() -> ProviderReading {
    ProviderReading {
        response: DecodedItem::Failed("no response item".to_string()),
        tool: DecodedTool::Failed("no tool record".to_string()),
    }
}

fn model_item(payload: ModelContextPayload) -> ReadItem {
    ReadItem {
        item: ModelContextItem {
            id: "model-item".to_string(),
            source_sequence: Some(1),
            payload,
        },
        reading: unread(),
    }
}

fn tool_item(tool: ToolRecord, decoded: DecodedTool) -> ReadItem {
    let mut read = model_item(ModelContextPayload::Tool(tool));
    read.reading.tool = decoded;
    read
}

fn opaque_model_item(
    item_id: &str,
    kind: &str,
    raw: &[u8],
    lineage: ProviderLineage,
    decoded: ResponseItem,
) -> ReadItem {
    let mut read = model_item(ModelContextPayload::ProviderOpaque(ProviderOpaqueItem {
        lineage,
        provider_item_id: item_id.to_string(),
        kind: kind.to_string(),
        payload: OpaquePayload::new(raw.to_vec()),
    }));
    read.reading.response = DecodedItem::Item(decoded);
    read
}

fn wired(item: ResponseItem) -> WiredItem {
    let view = provider_serialization_view(&item);
    WiredItem {
        item,
        encoded: EncodedItem::Bytes(b"{}".to_vec()),
        reading: ProviderReading {
            response: DecodedItem::Item(view),
            tool: DecodedTool::Failed("no tool record".to_string()),
        },
    }
}

fn json(text: &str) -> Json {
    Json::parse(text).expect("JSON")
}

fn prepared_one(read: ReadItem) -> Result<ResponseItem, CodexAdapterError> {
    adapter().prepare_response_items(&[read]).map(|mut items| items.remove(0))
}

#[test]
fn prepares_semantic_messages_and_materializes_images_per_request() {
    let materializer = TestMaterializer;
    let adapter = adapter().with_attachment_materializer(&materializer);
    let input = model_item(ModelContextPayload::Message(Message {
        role: MessageRole::User,
        visibility: MessageVisibility::TranscriptAndModel,
        content: vec![
            ContentPart::Text { text: "describe this".to_string() },
            ContentPart::Attachment {
                attachment_id: "photo-1".to_string(),
                media_type: "image/png".to_string(),
                kind: AttachmentKind::Image,
                image_detail: None,
            },
        ],
        phase: Some(MessagePhase::Commentary),
        route: None,
    }));

    assert_eq!(
        adapter.prepare_response_items(&[input]),
        Ok(vec![ResponseItem::Message {
            id: None,
            role: "user".to_string(),
            content: vec![
                ContentItem::InputText { text: "describe this".to_string() },
                ContentItem::InputImage {
                    image_url: "data:image/png;base64,cGl4ZWxz".to_string(),
                    detail: None,
                },
            ],
            phase: Some(MessagePhase::Commentary),
            internal_chat_message_metadata_passthrough: None,
        }])
    );
}

#[test]
fn prepares_plain_routed_messages_as_codex_agent_messages() {
    let input = model_item(ModelContextPayload::Message(Message {
        role: MessageRole::Assistant,
        visibility: MessageVisibility::ModelOnly,
        content: vec![ContentPart::Text { text: "review complete".to_string() }],
        phase: Some(MessagePhase::Commentary),
        route: Some(MessageRoute {
            author: "/root/critic".to_string(),
            recipients: vec!["/root".to_string(), "/root/observer".to_string()],
            delivery: None,
        }),
    }));

    assert_eq!(
        adapter().prepare_response_items(&[input]),
        Ok(vec![ResponseItem::AgentMessage {
            id: None,
            author: "/root/critic".to_string(),
            recipient: "/root".to_string(),
            content: vec![AgentMessageInputContent::InputText {
                text: "review complete".to_string(),
            }],
            internal_chat_message_metadata_passthrough: None,
        }])
    );
}

#[test]
fn round_trips_function_calls_and_failed_outputs() {
    let call = tool_item(
        ToolRecord {
            call_id: "call-1".to_string(),
            name: "exec_command".to_string(),
            phase: ToolPhase::Requested,
            data: json(
                r#"{"kind":"function","namespace":"functions","arguments":"{\"cmd\":\"pwd\"}"}"#,
            ),
        },
        DecodedTool::Failed("no output".to_string()),
    );
    let output = tool_item(
        ToolRecord {
            call_id: "call-1".to_string(),
            name: "function_call".to_string(),
            phase: ToolPhase::Failed,
            data: json(r#"{"kind":"function","output":"permission denied","success":false}"#),
        },
        DecodedTool::Value(Json::Text("permission denied".to_string())),
    );

    assert_eq!(
        adapter().prepare_response_items(&[call, output]),
        Ok(vec![
            ResponseItem::FunctionCall {
                id: None,
                name: "exec_command".to_string(),
                namespace: Some("functions".to_string()),
                arguments: "{\"cmd\":\"pwd\"}".to_string(),
                call_id: "call-1".to_string(),
                internal_chat_message_metadata_passthrough: None,
            },
            ResponseItem::FunctionCallOutput {
                id: None,
                call_id: "call-1".to_string(),
                output: FunctionCallOutputPayload {
                    body: FunctionCallOutputBody::Text("permission denied".to_string()),
                    success: Some(false),
                },
                internal_chat_message_metadata_passthrough: None,
            },
        ])
    );
}

#[test]
fn prepares_local_shell_records_with_their_terminal_phase() {
    let action = json(
        r#"{"type":"exec","command":["pwd"],"timeout_ms":1000,"working_directory":"/workspace",
            "env":null,"user":null}"#,
    );
    let data = object2(
        "kind",
        Json::Text("local_shell".to_string()),
        "action",
        action.clone(),
    );
    let input = tool_item(
        ToolRecord {
            call_id: "shell-1".to_string(),
            name: "local_shell".to_string(),
            phase: ToolPhase::Completed,
            data,
        },
        DecodedTool::Value(action.clone()),
    );

    assert_eq!(
        adapter().prepare_response_items(&[input]),
        Ok(vec![ResponseItem::LocalShellCall {
            id: None,
            call_id: Some("shell-1".to_string()),
            status: LocalShellStatus::Completed,
            action,
            internal_chat_message_metadata_passthrough: None,
        }])
    );
}

#[test]
fn restores_known_opaque_items_and_retains_the_original_json() {
    let raw = br#"{
  "type": "reasoning",
  "id": "rs_1",
  "summary": [],
  "encrypted_content": "ciphertext"
}"#;
    let decoded = ResponseItem::Reasoning {
        id: Some("rs_1".to_string()),
        summary: vec![],
        content: None,
        encrypted_content: Some("ciphertext".to_string()),
        internal_chat_message_metadata_passthrough: None,
    };
    let input = opaque_model_item("rs_1", "codex.reasoning", raw, lineage(), decoded);

    let Ok(prepared) = adapter().prepare_model_input(&[input]) else {
        panic!("prepare opaque reasoning");
    };
    assert_eq!(prepared[0].original_json(), Some(raw.as_slice()));
    let Some(ResponseItem::Reasoning { id, encrypted_content, .. }) = prepared[0].response_item()
    else {
        panic!("expected typed reasoning");
    };
    assert_eq!(id.as_deref(), Some("rs_1"));
    assert_eq!(encrypted_content.as_deref(), Some("ciphertext"));
    let shown = prepared[0].redacted().expect("opaque record");
    assert!(!shown.contains("ciphertext"));
    assert_eq!(
        shown,
        format!(
            "TypedOpaque {{ original_json: <redacted opaque payload: {} bytes>, .. }}",
            raw.len()
        )
    );
}

#[test]
fn restores_encrypted_inter_agent_communication_for_codex() {
    let decoded = ResponseItem::AgentMessage {
        id: None,
        author: "/root/critic".to_string(),
        recipient: "/root".to_string(),
        content: vec![AgentMessageInputContent::EncryptedContent {
            encrypted_content: "encrypted-child-message".to_string(),
        }],
        internal_chat_message_metadata_passthrough: None,
    };
    let input = opaque_model_item(
        "agent-message",
        "codex.inter_agent_communication",
        br#"{"encrypted_content":"encrypted-child-message"}"#,
        lineage(),
        decoded,
    );

    let prepared = adapter().prepare_response_items(&[input]).expect("prepare communication");
    let ResponseItem::AgentMessage { content, .. } = &prepared[0] else {
        panic!("expected agent message");
    };
    assert!(matches!(
        content.last(),
        Some(AgentMessageInputContent::EncryptedContent { encrypted_content })
            if encrypted_content == "encrypted-child-message"
    ));
}

fn compaction(id: &str) -> ResponseItem {
    ResponseItem::Compaction {
        id: Some(id.to_string()),
        body: json(r#"{"encrypted_content":"cipher"}"#),
        internal_chat_message_metadata_passthrough: None,
    }
}

#[test]
fn rejects_incompatible_opaque_lineage() {
    let raw = br#"{"type":"compaction","id":"cmp_1","encrypted_content":"cipher"}"#;
    let other_lineage = ProviderLineage {
        provider: "openai".to_string(),
        protocol: "responses".to_string(),
        lineage_id: "other-account".to_string(),
    };
    let input = opaque_model_item(
        "cmp_1",
        "codex.compaction",
        raw,
        other_lineage.clone(),
        compaction("cmp_1"),
    );

    assert!(
        adapter().prepare_model_input(&[input])
            == Err(CodexAdapterError::IncompatibleLineage {
                item_id: "cmp_1".to_string(),
                expected: lineage(),
                actual: other_lineage,
            })
    );
}

#[test]
fn unknown_provider_items_require_the_raw_transport() {
    let raw = br#"{"type":"future_continuation","token":"keep-me"}"#;
    let input = opaque_model_item(
        "future-1",
        "codex.unknown_response_item",
        raw,
        lineage(),
        ResponseItem::Other,
    );

    let Ok(mut prepared) = adapter().prepare_model_input(std::slice::from_ref(&input)) else {
        panic!("prepare raw item");
    };
    assert!(matches!(
        &prepared[0],
        PreparedCodexInputItem::RawOpaque { item_id, .. } if item_id == "future-1"
    ));
    assert_eq!(prepared[0].original_json(), Some(raw.as_slice()));
    assert!(prepared[0].response_item().is_none());
    assert_eq!(
        prepared[0].redacted().expect("opaque record"),
        format!(
            "RawOpaque {{ item_id: \"future-1\", kind: \"codex.unknown_response_item\", \
             payload: <redacted opaque payload: {} bytes> }}",
            raw.len()
        )
    );
    assert_eq!(
        prepared.remove(0).into_response_item(),
        Err(CodexAdapterError::RawTransportRequired { item_id: "future-1".to_string() })
    );
    assert_eq!(
        adapter().prepare_response_items(&[input]),
        Err(CodexAdapterError::RawTransportRequired { item_id: "future-1".to_string() })
    );
}

#[test]
fn missing_attachment_materializer_fails_without_exposing_stored_bytes() {
    let input = model_item(ModelContextPayload::Message(Message {
        role: MessageRole::User,
        visibility: MessageVisibility::TranscriptAndModel,
        content: vec![ContentPart::Attachment {
            attachment_id: "photo-1".to_string(),
            media_type: "image/png".to_string(),
            kind: AttachmentKind::Image,
            image_detail: None,
        }],
        phase: None,
        route: None,
    }));

    assert_eq!(
        adapter().prepare_response_items(&[input]),
        Err(CodexAdapterError::MissingAttachmentMaterializer { kind: AttachmentKind::Image })
    );
}

fn private_prompt() -> Vec<WiredItem> {
    vec![
        wired(ResponseItem::Message {
            id: Some("msg_1".to_string()),
            role: "user".to_string(),
            content: vec![ContentItem::InputText { text: "private prompt text".to_string() }],
            phase: None,
            internal_chat_message_metadata_passthrough: None,
        }),
        wired(ResponseItem::FunctionCall {
            id: Some("fc_1".to_string()),
            name: "exec_command".to_string(),
            namespace: None,
            arguments: "{\"cmd\":\"pwd\"}".to_string(),
            call_id: "call-1".to_string(),
            internal_chat_message_metadata_passthrough: None,
        }),
    ]
}

#[test]
fn shadow_audit_reports_equivalence_without_returning_prompt_content() {
    let report = adapter().audit_response_items("conversation-1", &private_prompt());
    assert!(report.is_equivalent());
    assert_eq!(report.source_items, 2);
    assert_eq!(report.compared_items, 2);
    assert_eq!(report.ignored_items, 0);
    assert!(!format!("{report:?}").contains("private prompt text"));
}

#[test]
fn shadow_audit_classifies_lossy_reasoning_without_exposing_it() {
    let source = vec![wired(ResponseItem::Reasoning {
        id: None,
        summary: Vec::new(),
        content: Some(vec![ReasoningItemContent::Text { text: "private thought".to_string() }]),
        encrypted_content: Some("ciphertext".to_string()),
        internal_chat_message_metadata_passthrough: None,
    })];

    let report = adapter().audit_response_items("conversation-1", &source);
    assert!(!report.is_equivalent());
    assert_eq!(report.failures.len(), 1);
    assert_eq!(report.failures[0].stage, CodexInputParityStage::Import);
    let debug = format!("{report:?}");
    assert!(!debug.contains("private thought"));
    assert!(!debug.contains("ciphertext"));

    assert_eq!(report.compared_items, 0);
    assert_eq!(report.failures[0].reason_code, "raw_payload_required");
    assert_eq!(report.failures[0].item_kind, "reasoning");
    let rebuilt = adapter().rebuild_response_items_exact("conversation-1", &source);
    assert_eq!(rebuilt, Ok(vec![source[0].item.clone()]));
}

#[test]
fn shadow_audits_classify_what_cannot_be_taken_over() {
    let mut source = vec![wired(ResponseItem::Reasoning {
        id: None,
        summary: Vec::new(),
        content: None,
        encrypted_content: Some("ciphertext".to_string()),
        internal_chat_message_metadata_passthrough: None,
    })];
    assert!(adapter().audit_response_items("conversation-1", &source).is_equivalent());

    source[0].reading.response = DecodedItem::Failed("gone".to_string());
    source.push(wired(ResponseItem::CompactionTrigger));
    let report = adapter().audit_response_items("conversation-1", &source);
    assert!(!report.is_equivalent());
    assert_eq!(report.ignored_items, 1);
    assert_eq!(report.failures.len(), 1);
    assert_eq!(report.failure_count(CodexInputParityStage::Import), 1);
    assert_eq!(report.failure_count(CodexInputParityStage::Export), 0);
    assert_eq!(report.failures[0].stage.as_str(), "import");
    assert_eq!(report.failures[0].item_kind, "reasoning");
    assert!(!format!("{report:?}").contains("ciphertext"));
}

#[test]
fn rebuilt_prompts_are_their_source() {
    let source = private_prompt();
    let rebuilt = adapter()
        .rebuild_response_items_exact("conversation-1", &source)
        .expect("rebuilt prompt");
    let expected = source.iter().map(|wired| wired.item.clone()).collect::<Vec<_>>();
    assert_eq!(rebuilt, expected);

    let mut broken = private_prompt();
    broken.push(wired(ResponseItem::Other));
    let report = adapter()
        .rebuild_response_items_exact("conversation-1", &broken)
        .expect_err("unknown items need their bytes");
    assert_eq!(report.failures[0].index, 2);
    assert_eq!(report.failures[0].item_kind, "unknown");
}

#[test]
fn reports_weigh_failures_and_counts() {
    let mut report = CodexInputParityReport {
        source_items: 3,
        compared_items: 2,
        ignored_items: 1,
        failures: vec![],
    };
    assert!(report.is_equivalent());
    report.ignored_items = 0;
    assert!(!report.is_equivalent());
    report.ignored_items = 1;
    report.failures.push(CodexInputParityFailure {
        index: 0,
        stage: CodexInputParityStage::Compare,
        item_kind: "message",
        reason_code: "changed",
        reason: String::new(),
    });
    assert!(!report.is_equivalent());
    assert_eq!(report.failure_count(CodexInputParityStage::Compare), 1);
    assert_eq!(CodexInputParityStage::Compare.as_str(), "compare");
    assert_eq!(CodexInputParityStage::Export.as_str(), "export");
}

#[test]
fn transport_envelopes_are_no_part_of_the_meaning() {
    let source = private_prompt().remove(0).item;
    let ResponseItem::Message { id, .. } = normalize_semantic(source.clone()) else {
        panic!("message");
    };
    assert_eq!(id, None);
    assert_eq!(response_item_kind(&source), "message");
    assert_eq!(response_item_kind(&ResponseItem::Other), "unknown");
}

#[test]
fn images_keep_their_detail_and_need_a_source() {
    let materializer = TestMaterializer;
    let adapter = adapter().with_attachment_materializer(&materializer);
    let with = |id: &str, kind: AttachmentKind| {
        model_item(ModelContextPayload::Message(Message {
            role: MessageRole::User,
            visibility: MessageVisibility::TranscriptAndModel,
            content: vec![ContentPart::Attachment {
                attachment_id: id.to_string(),
                media_type: "image/png".to_string(),
                kind,
                image_detail: Some(ImageDetail::Low),
            }],
            phase: None,
            route: None,
        }))
    };
    let items = adapter
        .prepare_response_items(&[with("photo-1", AttachmentKind::Image)])
        .expect("image");
    assert!(matches!(
        &items[0],
        ResponseItem::Message { content, .. } if matches!(
            content[0],
            ContentItem::InputImage { detail: Some(ImageDetail::Low), .. }
        )
    ));
    assert_eq!(
        adapter.prepare_response_items(&[with("photo-2", AttachmentKind::Image)]),
        Err(CodexAdapterError::UnmaterializedAttachment { attachment_id: "photo-2".to_string() })
    );
    assert_eq!(
        adapter.prepare_response_items(&[with("blank", AttachmentKind::Image)]),
        Err(CodexAdapterError::EmptyMaterializedAttachment)
    );
    assert_eq!(
        adapter.prepare_response_items(&[with("blank", AttachmentKind::File)]),
        Err(CodexAdapterError::UnsupportedAttachment { kind: AttachmentKind::File })
    );
}

#[test]
fn routed_messages_need_a_recipient_and_plain_text() {
    let routed = |recipients: Vec<String>, content: Vec<ContentPart>| {
        model_item(ModelContextPayload::Message(Message {
            role: MessageRole::Assistant,
            visibility: MessageVisibility::ModelOnly,
            content,
            phase: None,
            route: Some(MessageRoute { author: "/root".to_string(), recipients, delivery: None }),
        }))
    };
    assert_eq!(
        prepared_one(routed(vec![], vec![])),
        Err(CodexAdapterError::MissingRouteRecipient { item_id: "model-item".to_string() })
    );
    let attached = ContentPart::Attachment {
        attachment_id: "a".to_string(),
        media_type: "m".to_string(),
        kind: AttachmentKind::Image,
        image_detail: None,
    };
    assert_eq!(
        prepared_one(routed(vec!["/root/a".to_string()], vec![attached])),
        Err(CodexAdapterError::UnsupportedRoutedContent { item_id: "model-item".to_string() })
    );
}

#[test]
fn tool_records_must_hold_what_their_item_needs() {
    let tool = |name: &str, phase: ToolPhase, data: &str| ToolRecord {
        call_id: "c".to_string(),
        name: name.to_string(),
        phase,
        data: json(data),
    };
    let none = || DecodedTool::Failed("bad".to_string());
    assert!(matches!(
        prepared_one(tool_item(tool("f", ToolPhase::Requested, r#"{"kind":"function"}"#), none())),
        Err(CodexAdapterError::InvalidToolData { field: "arguments", .. })
    ));
    assert!(matches!(
        prepared_one(tool_item(
            tool("f", ToolPhase::Completed, r#"{"kind":"function","output":1}"#),
            none()
        )),
        Err(CodexAdapterError::InvalidToolData { field: "output", message, .. }) if message == "bad"
    ));
    assert_eq!(
        prepared_one(tool_item(tool("f", ToolPhase::Requested, r#"{"kind":"other"}"#), none())),
        Err(CodexAdapterError::UnsupportedToolRecord {
            call_id: "c".to_string(),
            name: "f".to_string(),
            phase: ToolPhase::Requested,
        })
    );
    assert_eq!(
        prepared_one(tool_item(
            tool("f", ToolPhase::Requested, r#"{"kind":"custom","input":"x"}"#),
            none()
        )),
        Ok(ResponseItem::CustomToolCall {
            id: None,
            status: None,
            call_id: "c".to_string(),
            name: "f".to_string(),
            namespace: None,
            input: "x".to_string(),
            internal_chat_message_metadata_passthrough: None,
        })
    );
}

#[test]
fn opaque_records_must_decode_to_their_kind() {
    let read = opaque_model_item("x", "codex.reasoning", b"{}", lineage(), compaction("x"));
    assert_eq!(
        prepared_one(read),
        Err(CodexAdapterError::OpaqueKindMismatch {
            item_id: "x".to_string(),
            declared_kind: "codex.reasoning".to_string(),
            actual_kind: "codex.compaction".to_string(),
        })
    );
    let mut bad = opaque_model_item("x", "codex.reasoning", b"{", lineage(), compaction("x"));
    bad.reading.response = DecodedItem::Failed("EOF".to_string());
    assert_eq!(
        prepared_one(bad),
        Err(CodexAdapterError::ProviderJson {
            operation: "decode opaque response item",
            message: "EOF".to_string(),
        })
    );
}
