use codex_ios::adapter::CodexContextAdapter;
use codex_ios::attachment::{
    AttachmentMaterializer, AttachmentResolver, MaterializedAttachment, NoAttachments,
    ResolvedAttachment,
};
use codex_ios::codec::{event_payload_to_model, provider_serialization_view};
use codex_ios::context::{
    AttachmentKind, ImageDetail, MessagePhase, ModelContextItem, ModelContextPayload,
    ProviderLineage,
};
use codex_ios::json::Json;
use codex_ios::parity::normalize_semantic;
use codex_ios::protocol::{
    AgentMessageInputContent, ContentItem, DecodedItem, DecodedTool, EncodedItem,
    FunctionCallOutputBody, FunctionCallOutputPayload, LocalShellStatus, ProviderReading,
    ResponseItem, WiredItem,
};

fn lineage() -> ProviderLineage {
    ProviderLineage {
        provider: "openai".to_string(),
        protocol: "responses".to_string(),
        lineage_id: "account".to_string(),
    }
}

/// Keeps a photo under a name of its own.
struct Album;

impl AttachmentResolver for Album {
    fn resolve(&self, source: &str, _kind: &AttachmentKind) -> Option<ResolvedAttachment> {
        (source == "data:photo").then(|| ResolvedAttachment {
            attachment_id: "photo-1".to_string(),
            media_type: "image/png".to_string(),
        })
    }
}

impl AttachmentMaterializer for Album {
    fn materialize(
        &self,
        attachment_id: &str,
        _media_type: &str,
        _kind: &AttachmentKind,
    ) -> Option<MaterializedAttachment> {
        (attachment_id == "photo-1")
            .then(|| MaterializedAttachment { source: "data:photo".to_string() })
    }
}

/// The item with the bytes and the tool JSON that the provider's decoder reads back.
fn wired(item: ResponseItem, tool: Json) -> WiredItem {
    let view = provider_serialization_view(&item);
    WiredItem {
        item,
        encoded: EncodedItem::Bytes(b"{}".to_vec()),
        reading: ProviderReading {
            response: DecodedItem::Item(view),
            tool: DecodedTool::Value(tool),
        },
    }
}

/// Takes an item over into the neutral context and prepares it for the provider again.
fn there_and_back(item: ResponseItem, tool: Json) -> ResponseItem {
    let album = Album;
    let plain: CodexContextAdapter<'_, NoAttachments, NoAttachments> =
        CodexContextAdapter::new(lineage());
    let adapter = plain.with_attachment_resolver(&album).with_attachment_materializer(&album);
    let wired = wired(item, tool);
    let payload = match adapter.response_payload(&wired, &None, "item-1") {
        Ok(Some(payload)) => payload,
        Ok(None) => panic!("nothing was taken over"),
        Err(error) => panic!("{error:?}"),
    };
    let item =
        ModelContextItem { id: "item-1".to_string(), source_sequence: Some(1), payload };
    match adapter.prepare_model_input_item(&item, &wired.reading) {
        Ok(prepared) => prepared.into_response_item().expect("typed item"),
        Err(error) => panic!("{error:?}"),
    }
}

fn assert_comes_back(item: ResponseItem, tool: Json) {
    let rebuilt = there_and_back(item.clone(), tool);
    assert_eq!(normalize_semantic(rebuilt), normalize_semantic(item));
}

#[test]
fn calls_come_back() {
    for namespace in [None, Some("functions".to_string())] {
        assert_comes_back(
            ResponseItem::FunctionCall {
                id: Some("fc_1".to_string()),
                name: "exec".to_string(),
                namespace: namespace.clone(),
                arguments: "{\"cmd\":\"pwd\"}".to_string(),
                call_id: "call-1".to_string(),
                internal_chat_message_metadata_passthrough: None,
            },
            Json::Null,
        );
        assert_comes_back(
            ResponseItem::CustomToolCall {
                id: None,
                status: None,
                call_id: "call-1".to_string(),
                name: "apply_patch".to_string(),
                namespace,
                input: "*** Begin Patch".to_string(),
                internal_chat_message_metadata_passthrough: None,
            },
            Json::Null,
        );
    }
}

#[test]
fn outputs_come_back() {
    let items = Json::parse(r#"[{"type":"input_text","text":"a"}]"#).expect("JSON");
    for (body, tool) in [
        (FunctionCallOutputBody::Text("ok".to_string()), Json::Text("ok".to_string())),
        (FunctionCallOutputBody::ContentItems(items.clone()), items),
    ] {
        for success in [None, Some(true), Some(false)] {
            assert_comes_back(
                ResponseItem::FunctionCallOutput {
                    id: None,
                    call_id: "call-1".to_string(),
                    output: FunctionCallOutputPayload { body: body.clone(), success },
                    internal_chat_message_metadata_passthrough: None,
                },
                tool.clone(),
            );
        }
    }
}

#[test]
fn shell_calls_come_back() {
    let action = Json::parse(r#"{"type":"exec","command":["pwd"]}"#).expect("JSON");
    for status in [LocalShellStatus::Completed, LocalShellStatus::InProgress] {
        assert_comes_back(
            ResponseItem::LocalShellCall {
                id: None,
                call_id: Some("call-1".to_string()),
                status,
                action: action.clone(),
                internal_chat_message_metadata_passthrough: None,
            },
            action.clone(),
        );
    }
}

#[test]
fn messages_come_back_with_their_pictures() {
    assert_comes_back(
        ResponseItem::Message {
            id: Some("msg_1".to_string()),
            role: "user".to_string(),
            content: vec![
                ContentItem::InputText { text: "look".to_string() },
                ContentItem::InputImage {
                    image_url: "data:photo".to_string(),
                    detail: Some(ImageDetail::High),
                },
            ],
            phase: None,
            internal_chat_message_metadata_passthrough: None,
        },
        Json::Null,
    );
    assert_comes_back(
        ResponseItem::Message {
            id: None,
            role: "assistant".to_string(),
            content: vec![ContentItem::OutputText { text: "seen".to_string() }],
            phase: Some(MessagePhase::FinalAnswer),
            internal_chat_message_metadata_passthrough: None,
        },
        Json::Null,
    );
    assert_comes_back(
        ResponseItem::AgentMessage {
            id: None,
            author: "/root/a".to_string(),
            recipient: "/root".to_string(),
            content: vec![AgentMessageInputContent::InputText { text: "done".to_string() }],
            internal_chat_message_metadata_passthrough: None,
        },
        Json::Null,
    );
}

#[test]
fn provider_records_come_back_whole() {
    let item = ResponseItem::Reasoning {
        id: Some("rs_1".to_string()),
        summary: vec![],
        content: None,
        encrypted_content: Some("ciphertext".to_string()),
        internal_chat_message_metadata_passthrough: None,
    };
    assert_eq!(there_and_back(item.clone(), Json::Null), item);
}

#[test]
fn payloads_become_items_under_the_fallback_id() {
    let tool = codex_ios::context::ToolRecord {
        call_id: "c".to_string(),
        name: "n".to_string(),
        phase: codex_ios::context::ToolPhase::Requested,
        data: Json::Null,
    };
    let item =
        event_payload_to_model(ModelContextPayload::Tool(tool), "fallback".to_string(), None);
    assert_eq!(item.id, "fallback");
    assert_eq!(item.source_sequence, None);
}
