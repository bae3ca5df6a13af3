//! From neutral model items to the provider's request items.
use vstd::prelude::*;

use crate::adapter::{Adapted, CodexContextAdapter, Materialization};
use crate::attachment::{
    AttachmentMaterializer, AttachmentResolver, MaterializedAttachment,
    MaterializedAttachmentModel,
};
use crate::codec::{is_tool_or_control, opaque_kind, opaque_kind_of, role_name, role_text};
use crate::context::{
    AttachmentKind, ContentPart, ContentPartModel, ImageDetail, Message, MessageModel, MessageRole,
    ModelContextItem, ModelContextPayload, ModelContextPayloadModel, ProviderLineageModel,
    ProviderOpaqueItem, ProviderOpaqueItemModel, ToolPhase, ToolRecord, ToolRecordModel,
};
use crate::error::{CodexAdapterError, CodexAdapterErrorModel};
use crate::json::{member_of, text_member, Json, JsonModel};
use crate::lists::{
    collected, lemma_collected_error, lemma_collected_step, lemma_empty_content, outcome,
};
use crate::model::Modeled;
use crate::protocol::{
    AgentMessageInputContent, AgentMessageInputContentModel, ContentItem, ContentItemModel,
    DecodedItem, DecodedItemModel, DecodedTool, DecodedToolModel, FunctionCallOutputBody,
    FunctionCallOutputBodyModel, FunctionCallOutputPayload, FunctionCallOutputPayloadModel,
    LocalShellStatus, ProviderReading, ResponseItem, ResponseItemModel,
};
use crate::text::same_text;
use crate::types::{
    typed_item, PreparedCodexInputItem, PreparedCodexInputItemModel, ReadItem, ReadItemModel,
};

verus! {

// ---------------------------------------------------------------------------------------------
// Messages

/// The content item that a materialized attachment becomes.
pub open spec fn attachment_input(
    materialized: MaterializedAttachmentModel,
    kind: AttachmentKind,
    image_detail: Option<ImageDetail>,
) -> Adapted<ContentItemModel> {
    if materialized.source.len() == 0 {
        Err(CodexAdapterErrorModel::EmptyMaterializedAttachment)
    } else {
        match kind {
            AttachmentKind::Image => Ok(
                ContentItemModel::InputImage {
                    image_url: materialized.source,
                    detail: image_detail,
                },
            ),
            AttachmentKind::Audio => Ok(
                ContentItemModel::InputAudio { audio_url: materialized.source },
            ),
            AttachmentKind::File => Err(CodexAdapterErrorModel::UnsupportedAttachment { kind }),
        }
    }
}

/// The content item that a part of a message becomes.
pub open spec fn content_input_of(
    materialize: Option<Materialization>,
    role: MessageRole,
    part: ContentPartModel,
) -> Adapted<ContentItemModel> {
    match part {
        ContentPartModel::Text { text } => if role == MessageRole::Assistant {
            Ok(ContentItemModel::OutputText { text })
        } else {
            Ok(ContentItemModel::InputText { text })
        },
        ContentPartModel::Attachment { attachment_id, media_type, kind, image_detail } =>
            if kind == AttachmentKind::File {
                Err(CodexAdapterErrorModel::UnsupportedAttachment { kind })
            } else {
                match materialize {
                    None => Err(CodexAdapterErrorModel::MissingAttachmentMaterializer { kind }),
                    Some(materialize) => match materialize(attachment_id, media_type, kind) {
                        None => Err(
                            CodexAdapterErrorModel::UnmaterializedAttachment { attachment_id },
                        ),
                        Some(materialized) => attachment_input(materialized, kind, image_detail),
                    },
                }
            },
    }
}

/// The content of a message between agents that a part becomes.
pub open spec fn routed_input_of(item_id: Seq<char>, part: ContentPartModel) -> Adapted<
    AgentMessageInputContentModel,
> {
    match part {
        ContentPartModel::Text { text } => Ok(AgentMessageInputContentModel::InputText { text }),
        ContentPartModel::Attachment { .. } => Err(
            CodexAdapterErrorModel::UnsupportedRoutedContent { item_id },
        ),
    }
}

/// The provider item that a message becomes: a message between agents where it is routed.
pub open spec fn message_input_of(
    materialize: Option<Materialization>,
    item_id: Seq<char>,
    message: MessageModel,
) -> Adapted<ResponseItemModel> {
    match message.route {
        Some(route) => if route.recipients.len() == 0 {
            Err(CodexAdapterErrorModel::MissingRouteRecipient { item_id })
        } else {
            match collected(
                message.content,
                |part: ContentPartModel| routed_input_of(item_id, part),
            ) {
                Err(error) => Err(error),
                Ok(content) => Ok(
                    ResponseItemModel::AgentMessage {
                        id: None,
                        author: route.author,
                        recipient: route.recipients[0],
                        content,
                        internal_chat_message_metadata_passthrough: None,
                    },
                ),
            }
        },
        None => match collected(
            message.content,
            |part: ContentPartModel| content_input_of(materialize, message.role, part),
        ) {
            Err(error) => Err(error),
            Ok(content) => Ok(
                ResponseItemModel::Message {
                    id: None,
                    role: role_name(message.role),
                    content,
                    phase: message.phase,
                    internal_chat_message_metadata_passthrough: None,
                },
            ),
        },
    }
}

// ---------------------------------------------------------------------------------------------
// Tools

/// The error of a tool record whose data cannot be used.
pub open spec fn invalid_data(
    tool: ToolRecordModel,
    field: Seq<char>,
    message: Seq<char>,
) -> CodexAdapterErrorModel {
    CodexAdapterErrorModel::InvalidToolData { call_id: tool.call_id, field, message }
}

/// A field of the data that must be a text.
pub open spec fn string_field_of(tool: ToolRecordModel, field: Seq<char>) -> Adapted<Seq<char>> {
    match text_member(tool.data, field) {
        Some(text) => Ok(text),
        None => Err(invalid_data(tool, field, "expected a string"@)),
    }
}

/// A field of the data that may be missing.
pub open spec fn optional_string_field_of(tool: ToolRecordModel, field: Seq<char>) -> Adapted<
    Option<Seq<char>>,
> {
    match member_of(tool.data, field) {
        None => Ok(None),
        Some(JsonModel::Null) => Ok(None),
        Some(JsonModel::Text(text)) => Ok(Some(text)),
        Some(_) => Err(invalid_data(tool, field, "expected a string or null"@)),
    }
}

/// A field of the data as the provider's decoder reads it.
pub open spec fn decoded_field_of(
    tool: ToolRecordModel,
    field: Seq<char>,
    decoded: DecodedToolModel,
) -> Adapted<JsonModel> {
    match member_of(tool.data, field) {
        None => Err(invalid_data(tool, field, "field is missing"@)),
        Some(_) => match decoded {
            DecodedToolModel::Value(value) => Ok(value),
            DecodedToolModel::Failed(message) => Err(invalid_data(tool, field, message)),
        },
    }
}

/// What a finished call returned. A text is a text; any other JSON goes through the provider's
/// decoder.
pub open spec fn output_body_of(tool: ToolRecordModel, decoded: DecodedToolModel) -> Adapted<
    FunctionCallOutputBodyModel,
> {
    match text_member(tool.data, "output"@) {
        Some(text) => Ok(FunctionCallOutputBodyModel::Text(text)),
        None => match decoded_field_of(tool, "output"@, decoded) {
            Ok(value) => Ok(FunctionCallOutputBodyModel::ContentItems(value)),
            Err(error) => Err(error),
        },
    }
}

/// Whether a finished call succeeded, where the record says so or the phase does.
pub open spec fn success_of(tool: ToolRecordModel) -> Adapted<Option<bool>> {
    let success = match member_of(tool.data, "success"@) {
        None => Ok(
            if tool.phase == ToolPhase::Failed {
                Some(false)
            } else {
                None
            },
        ),
        Some(JsonModel::Null) => Ok(
            if tool.phase == ToolPhase::Failed {
                Some(false)
            } else {
                None
            },
        ),
        Some(JsonModel::Bool(success)) => Ok(Some(success)),
        Some(_) => Err(invalid_data(tool, "success"@, "expected a boolean or null"@)),
    };
    match success {
        Ok(success) => if tool.phase == ToolPhase::Failed && success != Some(false) {
            Err(invalid_data(tool, "success"@, "failed output must set success to false"@))
        } else {
            Ok(success)
        },
        Err(error) => Err(error),
    }
}

/// The result of a finished call.
pub open spec fn output_payload_of(tool: ToolRecordModel, decoded: DecodedToolModel) -> Adapted<
    FunctionCallOutputPayloadModel,
> {
    match output_body_of(tool, decoded) {
        Err(error) => Err(error),
        Ok(body) => match success_of(tool) {
            Err(error) => Err(error),
            Ok(success) => Ok(FunctionCallOutputPayloadModel { body, success }),
        },
    }
}

/// The status of a shell call in a phase.
pub open spec fn shell_status(phase: ToolPhase) -> LocalShellStatus {
    match phase {
        ToolPhase::Requested => LocalShellStatus::InProgress,
        ToolPhase::Completed => LocalShellStatus::Completed,
        ToolPhase::Failed => LocalShellStatus::Incomplete,
    }
}

/// The provider item that a tool record becomes.
pub open spec fn tool_input_of(tool: ToolRecordModel, decoded: DecodedToolModel) -> Adapted<
    ResponseItemModel,
> {
    match string_field_of(tool, "kind"@) {
        Err(error) => Err(error),
        Ok(kind) => if kind == "function"@ && tool.phase == ToolPhase::Requested {
            match optional_string_field_of(tool, "namespace"@) {
                Err(error) => Err(error),
                Ok(namespace) => match string_field_of(tool, "arguments"@) {
                    Err(error) => Err(error),
                    Ok(arguments) => Ok(
                        ResponseItemModel::FunctionCall {
                            id: None,
                            name: tool.name,
                            namespace,
                            arguments,
                            call_id: tool.call_id,
                            internal_chat_message_metadata_passthrough: None,
                        },
                    ),
                },
            }
        } else if kind == "custom"@ && tool.phase == ToolPhase::Requested {
            match optional_string_field_of(tool, "namespace"@) {
                Err(error) => Err(error),
                Ok(namespace) => match string_field_of(tool, "input"@) {
                    Err(error) => Err(error),
                    Ok(input) => Ok(
                        ResponseItemModel::CustomToolCall {
                            id: None,
                            status: None,
                            call_id: tool.call_id,
                            name: tool.name,
                            namespace,
                            input,
                            internal_chat_message_metadata_passthrough: None,
                        },
                    ),
                },
            }
        } else if kind == "function"@ {
            match output_payload_of(tool, decoded) {
                Err(error) => Err(error),
                Ok(output) => Ok(
                    ResponseItemModel::FunctionCallOutput {
                        id: None,
                        call_id: tool.call_id,
                        output,
                        internal_chat_message_metadata_passthrough: None,
                    },
                ),
            }
        } else if kind == "custom"@ {
            match output_payload_of(tool, decoded) {
                Err(error) => Err(error),
                Ok(output) => Ok(
                    ResponseItemModel::CustomToolCallOutput {
                        id: None,
                        call_id: tool.call_id,
                        name: if tool.name == "custom_tool"@ {
                            None
                        } else {
                            Some(tool.name)
                        },
                        output,
                        internal_chat_message_metadata_passthrough: None,
                    },
                ),
            }
        } else if kind == "local_shell"@ {
            match decoded_field_of(tool, "action"@, decoded) {
                Err(error) => Err(error),
                Ok(action) => Ok(
                    ResponseItemModel::LocalShellCall {
                        id: None,
                        call_id: Some(tool.call_id),
                        status: shell_status(tool.phase),
                        action,
                        internal_chat_message_metadata_passthrough: None,
                    },
                ),
            }
        } else {
            Err(
                CodexAdapterErrorModel::UnsupportedToolRecord {
                    call_id: tool.call_id,
                    name: tool.name,
                    phase: tool.phase,
                },
            )
        },
    }
}

fn invalid_tool_data(tool: &ToolRecord, field: &'static str, message: String) -> (r:
    CodexAdapterError)
    ensures
        r.deep_view() == invalid_data(tool.deep_view(), field@, message@),
{
    CodexAdapterError::InvalidToolData { call_id: tool.call_id.clone(), field, message }
}

fn string_field<'a>(tool: &'a ToolRecord, field: &'static str) -> (r: Result<
    &'a String,
    CodexAdapterError,
>)
    ensures
        outcome(r) == string_field_of(tool.deep_view(), field@),
{
    match tool.data.get_text(field) {
        Some(text) => Ok(text),
        None => Err(invalid_tool_data(tool, field, "expected a string".to_string())),
    }
}

fn optional_string_field(tool: &ToolRecord, field: &'static str) -> (r: Result<
    Option<String>,
    CodexAdapterError,
>)
    ensures
        outcome(r) == optional_string_field_of(tool.deep_view(), field@),
{
    match tool.data.get(field) {
        None => Ok(None),
        Some(Json::Null) => Ok(None),
        Some(Json::Text(text)) => Ok(Some(text.clone())),
        Some(_) => Err(invalid_tool_data(tool, field, "expected a string or null".to_string())),
    }
}

fn decode_field(tool: &ToolRecord, field: &'static str, decoded: &DecodedTool) -> (r: Result<
    Json,
    CodexAdapterError,
>)
    ensures
        outcome(r) == decoded_field_of(tool.deep_view(), field@, decoded.deep_view()),
{
    match tool.data.get(field) {
        None => Err(invalid_tool_data(tool, field, "field is missing".to_string())),
        Some(_) => match decoded {
            DecodedTool::Value(value) => Ok(value.duplicate()),
            DecodedTool::Failed(message) => Err(invalid_tool_data(tool, field, message.clone())),
        },
    }
}

fn output_payload(tool: &ToolRecord, decoded: &DecodedTool) -> (r: Result<
    FunctionCallOutputPayload,
    CodexAdapterError,
>)
    ensures
        outcome(r) == output_payload_of(tool.deep_view(), decoded.deep_view()),
{
    let body = match tool.data.get_text("output") {
        Some(text) => FunctionCallOutputBody::Text(text.clone()),
        None => match decode_field(tool, "output", decoded) {
            Ok(value) => FunctionCallOutputBody::ContentItems(value),
            Err(error) => {
                return Err(error);
            },
        },
    };
    let failed = tool.phase == ToolPhase::Failed;
    let success: Option<bool> = match tool.data.get("success") {
        None | Some(Json::Null) => if failed {
            Some(false)
        } else {
            None
        },
        Some(Json::Bool(success)) => Some(*success),
        Some(_) => {
            return Err(
                invalid_tool_data(tool, "success", "expected a boolean or null".to_string()),
            );
        },
    };
    let refused = match success {
        Some(false) => false,
        _ => failed,
    };
    if refused {
        return Err(
            invalid_tool_data(
                tool,
                "success",
                "failed output must set success to false".to_string(),
            ),
        );
    }
    Ok(FunctionCallOutputPayload { body, success })
}

fn local_shell_input(tool: &ToolRecord, decoded: &DecodedTool) -> (r: Result<
    ResponseItem,
    CodexAdapterError,
>)
    ensures
        outcome(r) == match decoded_field_of(tool.deep_view(), "action"@, decoded.deep_view()) {
            Err(error) => Err(error),
            Ok(action) => Ok(
                ResponseItemModel::LocalShellCall {
                    id: None,
                    call_id: Some(tool.call_id@),
                    status: shell_status(tool.phase),
                    action,
                    internal_chat_message_metadata_passthrough: None,
                },
            ),
        },
{
    let action = match decode_field(tool, "action", decoded) {
        Ok(action) => action,
        Err(error) => {
            return Err(error);
        },
    };
    let status = match tool.phase {
        ToolPhase::Requested => LocalShellStatus::InProgress,
        ToolPhase::Completed => LocalShellStatus::Completed,
        ToolPhase::Failed => LocalShellStatus::Incomplete,
    };
    Ok(
        ResponseItem::LocalShellCall {
            id: None,
            call_id: Some(tool.call_id.clone()),
            status,
            action,
            internal_chat_message_metadata_passthrough: None,
        },
    )
}

/// The provider item that a tool record becomes. `decoded` is how the provider's decoder reads
/// the record's output or action.
pub fn tool_input(tool: &ToolRecord, decoded: &DecodedTool) -> (r: Result<
    ResponseItem,
    CodexAdapterError,
>)
    ensures
        outcome(r) == tool_input_of(tool.deep_view(), decoded.deep_view()),
{
    let kind = match string_field(tool, "kind") {
        Ok(kind) => kind.as_str(),
        Err(error) => {
            return Err(error);
        },
    };
    let requested = tool.phase == ToolPhase::Requested;
    if same_text(kind, "function") && requested {
        let namespace = match optional_string_field(tool, "namespace") {
            Ok(namespace) => namespace,
            Err(error) => {
                return Err(error);
            },
        };
        match string_field(tool, "arguments") {
            Err(error) => Err(error),
            Ok(arguments) => Ok(
                ResponseItem::FunctionCall {
                    id: None,
                    name: tool.name.clone(),
                    namespace,
                    arguments: arguments.clone(),
                    call_id: tool.call_id.clone(),
                    internal_chat_message_metadata_passthrough: None,
                },
            ),
        }
    } else if same_text(kind, "custom") && requested {
        let namespace = match optional_string_field(tool, "namespace") {
            Ok(namespace) => namespace,
            Err(error) => {
                return Err(error);
            },
        };
        match string_field(tool, "input") {
            Err(error) => Err(error),
            Ok(input) => Ok(
                ResponseItem::CustomToolCall {
                    id: None,
                    status: None,
                    call_id: tool.call_id.clone(),
                    name: tool.name.clone(),
                    namespace,
                    input: input.clone(),
                    internal_chat_message_metadata_passthrough: None,
                },
            ),
        }
    } else if same_text(kind, "function") {
        match output_payload(tool, decoded) {
            Err(error) => Err(error),
            Ok(output) => Ok(
                ResponseItem::FunctionCallOutput {
                    id: None,
                    call_id: tool.call_id.clone(),
                    output,
                    internal_chat_message_metadata_passthrough: None,
                },
            ),
        }
    } else if same_text(kind, "custom") {
        let name = if same_text(tool.name.as_str(), "custom_tool") {
            None
        } else {
            Some(tool.name.clone())
        };
        match output_payload(tool, decoded) {
            Err(error) => Err(error),
            Ok(output) => Ok(
                ResponseItem::CustomToolCallOutput {
                    id: None,
                    call_id: tool.call_id.clone(),
                    name,
                    output,
                    internal_chat_message_metadata_passthrough: None,
                },
            ),
        }
    } else if same_text(kind, "local_shell") {
        local_shell_input(tool, decoded)
    } else {
        Err(
            CodexAdapterError::UnsupportedToolRecord {
                call_id: tool.call_id.clone(),
                name: tool.name.clone(),
                phase: tool.phase,
            },
        )
    }
}

// ---------------------------------------------------------------------------------------------
// Provider records

/// The kind of messages between agents that stay with the provider.
pub open spec fn is_communication(opaque: ProviderOpaqueItemModel) -> bool {
    opaque.kind == "codex.inter_agent_communication"@
}

/// The request item that a provider record becomes.
pub open spec fn opaque_input_of(
    lineage: ProviderLineageModel,
    opaque: ProviderOpaqueItemModel,
    decoded: DecodedItemModel,
) -> Adapted<PreparedCodexInputItemModel> {
    if opaque.lineage != lineage {
        Err(
            CodexAdapterErrorModel::IncompatibleLineage {
                item_id: opaque.provider_item_id,
                expected: lineage,
                actual: opaque.lineage,
            },
        )
    } else if is_communication(opaque) {
        match decoded {
            DecodedItemModel::Failed(message) => Err(
                CodexAdapterErrorModel::ProviderJson {
                    operation: "decode opaque inter-agent communication"@,
                    message,
                },
            ),
            DecodedItemModel::Item(item) => Ok(
                PreparedCodexInputItemModel::Typed { item, original_json: Some(opaque.payload) },
            ),
        }
    } else {
        match decoded {
            DecodedItemModel::Failed(message) => Err(
                CodexAdapterErrorModel::ProviderJson {
                    operation: "decode opaque response item"@,
                    message,
                },
            ),
            DecodedItemModel::Item(item) => if item is Other {
                Ok(
                    PreparedCodexInputItemModel::RawOpaque {
                        item_id: opaque.provider_item_id,
                        kind: opaque.kind,
                        payload: opaque.payload,
                    },
                )
            } else if opaque_kind_of(item) != opaque.kind {
                Err(
                    CodexAdapterErrorModel::OpaqueKindMismatch {
                        item_id: opaque.provider_item_id,
                        declared_kind: opaque.kind,
                        actual_kind: opaque_kind_of(item),
                    },
                )
            } else {
                Ok(
                    PreparedCodexInputItemModel::Typed {
                        item,
                        original_json: Some(opaque.payload),
                    },
                )
            },
        }
    }
}

/// Whether a provider record of this lineage decodes to an item that is never stored as one.
pub open spec fn holds_stray_item(lineage: ProviderLineageModel, read: ReadItemModel) -> bool {
    match (read.item.payload, read.reading.response) {
        (ModelContextPayloadModel::ProviderOpaque(opaque), DecodedItemModel::Item(item)) =>
            opaque.lineage == lineage && !is_communication(opaque) && is_tool_or_control(item),
        _ => false,
    }
}

/// What a model item becomes on the way to the provider.
pub open spec fn prepared_of(
    lineage: ProviderLineageModel,
    materialize: Option<Materialization>,
    read: ReadItemModel,
) -> Adapted<PreparedCodexInputItemModel> {
    match read.item.payload {
        ModelContextPayloadModel::Message(message) => match message_input_of(
            materialize,
            read.item.id,
            message,
        ) {
            Err(error) => Err(error),
            Ok(item) => Ok(PreparedCodexInputItemModel::Typed { item, original_json: None }),
        },
        ModelContextPayloadModel::Tool(tool) => match tool_input_of(tool, read.reading.tool) {
            Err(error) => Err(error),
            Ok(item) => Ok(PreparedCodexInputItemModel::Typed { item, original_json: None }),
        },
        ModelContextPayloadModel::ProviderOpaque(opaque) => opaque_input_of(
            lineage,
            opaque,
            read.reading.response,
        ),
    }
}

/// What model items become on the way to the provider.
pub open spec fn prepared_all(
    lineage: ProviderLineageModel,
    materialize: Option<Materialization>,
    items: Seq<ReadItemModel>,
) -> Adapted<Seq<PreparedCodexInputItemModel>> {
    collected(items, |read: ReadItemModel| prepared_of(lineage, materialize, read))
}

/// The typed items that model items become on the way to the provider.
pub open spec fn typed_all(
    lineage: ProviderLineageModel,
    materialize: Option<Materialization>,
    items: Seq<ReadItemModel>,
) -> Adapted<Seq<ResponseItemModel>> {
    match prepared_all(lineage, materialize, items) {
        Err(error) => Err(error),
        Ok(prepared) => collected(prepared, |p: PreparedCodexInputItemModel| typed_item(p)),
    }
}

fn materialized_input(
    materialized: MaterializedAttachment,
    kind: AttachmentKind,
    image_detail: Option<ImageDetail>,
) -> (r: Result<ContentItem, CodexAdapterError>)
    ensures
        outcome(r) == attachment_input(materialized.deep_view(), kind, image_detail),
{
    if materialized.source.as_str().is_empty() {
        return Err(CodexAdapterError::EmptyMaterializedAttachment);
    }
    match kind {
        AttachmentKind::Image => Ok(
            ContentItem::InputImage { image_url: materialized.source, detail: image_detail },
        ),
        AttachmentKind::Audio => Ok(ContentItem::InputAudio { audio_url: materialized.source }),
        AttachmentKind::File => Err(CodexAdapterError::UnsupportedAttachment { kind }),
    }
}

fn routed_content(item_id: &String, content: &Vec<ContentPart>) -> (r: Result<
    Vec<AgentMessageInputContent>,
    CodexAdapterError,
>)
    ensures
        outcome(r) == collected(
            content.deep_view(),
            |part: ContentPartModel| routed_input_of(item_id@, part),
        ),
{
    let ghost model = content.deep_view();
    let ghost f = |part: ContentPartModel| routed_input_of(item_id@, part);
    let mut out: Vec<AgentMessageInputContent> = Vec::new();
    let mut i: usize = 0;
    proof {
        lemma_empty_content(out);
        assert(model.take(0) =~= Seq::empty());
    }
    while i < content.len()
        invariant
            i <= content@.len(),
            model == content.deep_view(),
            model.len() == content@.len(),
            f == (|part: ContentPartModel| routed_input_of(item_id@, part)),
            collected(model.take(i as int), f) == Ok::<
                Seq<AgentMessageInputContentModel>,
                CodexAdapterErrorModel,
            >(out.deep_view()),
        decreases content.len() - i,
    {
        proof {
            assert(model[i as int] == content@[i as int].deep_view());
            lemma_collected_step(model, f, i as int);
        }
        match &content[i] {
            ContentPart::Text { text } => {
                let ghost before = out;
                let part = AgentMessageInputContent::InputText { text: text.clone() };
                out.push(part);
                assert(out.deep_view() =~= before.deep_view().push(part.deep_view()));
            },
            ContentPart::Attachment { .. } => {
                proof {
                    lemma_collected_error(model, f, i + 1);
                }
                return Err(
                    CodexAdapterError::UnsupportedRoutedContent { item_id: item_id.clone() },
                );
            },
        }
        i = i + 1;
    }
    assert(model.take(model.len() as int) =~= model);
    Ok(out)
}

impl<'a, R: AttachmentResolver, M: AttachmentMaterializer> CodexContextAdapter<'a, R, M> {
    /// How this adapter materializes attachments, where it can.
    pub open spec fn materializes(self) -> Option<Materialization> {
        match self.attachment_materializer {
            Some(materializer) => Some(
                |attachment_id: Seq<char>, media_type: Seq<char>, kind: AttachmentKind|
                    materializer.materialization(attachment_id, media_type, kind),
            ),
            None => None,
        }
    }

    fn content_input(&self, part: &ContentPart, role: MessageRole) -> (r: Result<
        ContentItem,
        CodexAdapterError,
    >)
        ensures
            outcome(r) == content_input_of(self.materializes(), role, part.deep_view()),
    {
        match part {
            ContentPart::Text { text } => {
                if role == MessageRole::Assistant {
                    Ok(ContentItem::OutputText { text: text.clone() })
                } else {
                    Ok(ContentItem::InputText { text: text.clone() })
                }
            },
            ContentPart::Attachment { attachment_id, media_type, kind, image_detail } => {
                if *kind == AttachmentKind::File {
                    return Err(CodexAdapterError::UnsupportedAttachment { kind: *kind });
                }
                let materializer = match self.attachment_materializer {
                    Some(materializer) => materializer,
                    None => {
                        return Err(
                            CodexAdapterError::MissingAttachmentMaterializer { kind: *kind },
                        );
                    },
                };
                match materializer.materialize(attachment_id.as_str(), media_type.as_str(), kind) {
                    None => Err(
                        CodexAdapterError::UnmaterializedAttachment {
                            attachment_id: attachment_id.clone(),
                        },
                    ),
                    Some(materialized) => materialized_input(materialized, *kind, *image_detail),
                }
            },
        }
    }

    fn plain_content(&self, content: &Vec<ContentPart>, role: MessageRole) -> (r: Result<
        Vec<ContentItem>,
        CodexAdapterError,
    >)
        ensures
            outcome(r) == collected(
                content.deep_view(),
                |part: ContentPartModel| content_input_of(self.materializes(), role, part),
            ),
    {
        let ghost model = content.deep_view();
        let ghost f = |part: ContentPartModel| content_input_of(self.materializes(), role, part);
        let mut out: Vec<ContentItem> = Vec::new();
        let mut i: usize = 0;
        proof {
            lemma_empty_content(out);
            assert(model.take(0) =~= Seq::empty());
        }
        while i < content.len()
            invariant
                i <= content@.len(),
                model == content.deep_view(),
                model.len() == content@.len(),
                f == (|part: ContentPartModel| content_input_of(self.materializes(), role, part)),
                collected(model.take(i as int), f) == Ok::<
                    Seq<ContentItemModel>,
                    CodexAdapterErrorModel,
                >(out.deep_view()),
            decreases content.len() - i,
        {
            proof {
                assert(model[i as int] == content@[i as int].deep_view());
                lemma_collected_step(model, f, i as int);
            }
            match self.content_input(&content[i], role) {
                Ok(item) => {
                    let ghost before = out;
                    out.push(item);
                    assert(out.deep_view() =~= before.deep_view().push(item.deep_view()));
                },
                Err(error) => {
                    proof {
                        lemma_collected_error(model, f, i + 1);
                    }
                    return Err(error);
                },
            }
            i = i + 1;
        }
        assert(model.take(model.len() as int) =~= model);
        Ok(out)
    }

    /// The provider item that a message becomes.
    pub fn message_input(&self, item_id: &String, message: &Message) -> (r: Result<
        ResponseItem,
        CodexAdapterError,
    >)
        ensures
            outcome(r) == message_input_of(self.materializes(), item_id@, message.deep_view()),
    {
        if let Some(route) = &message.route {
            if route.recipients.len() == 0 {
                return Err(CodexAdapterError::MissingRouteRecipient { item_id: item_id.clone() });
            }
            assert(route.deep_view().recipients[0] == route.recipients@[0]@);
            return match routed_content(item_id, &message.content) {
                Err(error) => Err(error),
                Ok(content) => Ok(
                    ResponseItem::AgentMessage {
                        id: None,
                        author: route.author.clone(),
                        recipient: route.recipients[0].clone(),
                        content,
                        internal_chat_message_metadata_passthrough: None,
                    },
                ),
            };
        }
        match self.plain_content(&message.content, message.role) {
            Err(error) => Err(error),
            Ok(content) => Ok(
                ResponseItem::Message {
                    id: None,
                    role: role_text(message.role).to_owned(),
                    content,
                    phase: message.phase,
                    internal_chat_message_metadata_passthrough: None,
                },
            ),
        }
    }

    /// The request item that a provider record becomes.
    pub fn opaque_input(&self, opaque: &ProviderOpaqueItem, decoded: &DecodedItem) -> (r: Result<
        PreparedCodexInputItem,
        CodexAdapterError,
    >)
        requires
            opaque.deep_view().lineage == self.lineage.deep_view() && !is_communication(
                opaque.deep_view(),
            ) && decoded.deep_view() is Item ==> !is_tool_or_control(decoded.deep_view()->Item_0),
        ensures
            outcome(r) == opaque_input_of(
                self.lineage.deep_view(),
                opaque.deep_view(),
                decoded.deep_view(),
            ),
    {
        if !opaque.lineage.same(&self.lineage) {
            return Err(
                CodexAdapterError::IncompatibleLineage {
                    item_id: opaque.provider_item_id.clone(),
                    expected: self.lineage.duplicate(),
                    actual: opaque.lineage.duplicate(),
                },
            );
        }
        if same_text(opaque.kind.as_str(), "codex.inter_agent_communication") {
            return match decoded {
                DecodedItem::Failed(message) => Err(
                    CodexAdapterError::ProviderJson {
                        operation: "decode opaque inter-agent communication",
                        message: message.clone(),
                    },
                ),
                DecodedItem::Item(item) => Ok(
                    PreparedCodexInputItem::Typed {
                        item: item.duplicate(),
                        original_json: Some(opaque.payload.duplicate()),
                    },
                ),
            };
        }
        match decoded {
            DecodedItem::Failed(message) => Err(
                CodexAdapterError::ProviderJson {
                    operation: "decode opaque response item",
                    message: message.clone(),
                },
            ),
            DecodedItem::Item(item) => {
                if let ResponseItem::Other = item {
                    return Ok(
                        PreparedCodexInputItem::RawOpaque {
                            item_id: opaque.provider_item_id.clone(),
                            kind: opaque.kind.clone(),
                            payload: opaque.payload.duplicate(),
                        },
                    );
                }
                let actual_kind = opaque_kind(item);
                if !same_text(actual_kind, opaque.kind.as_str()) {
                    return Err(
                        CodexAdapterError::OpaqueKindMismatch {
                            item_id: opaque.provider_item_id.clone(),
                            declared_kind: opaque.kind.clone(),
                            actual_kind: actual_kind.to_owned(),
                        },
                    );
                }
                Ok(
                    PreparedCodexInputItem::Typed {
                        item: item.duplicate(),
                        original_json: Some(opaque.payload.duplicate()),
                    },
                )
            },
        }
    }

    /// Prepares one item of the model context for the provider.
    pub fn prepare_model_input_item(&self, item: &ModelContextItem, reading: &ProviderReading)
        -> (r: Result<PreparedCodexInputItem, CodexAdapterError>)
        requires
            !holds_stray_item(
                self.lineage.deep_view(),
                (ReadItemModel { item: item.deep_view(), reading: reading.deep_view() }),
            ),
        ensures
            outcome(r) == prepared_of(
                self.lineage.deep_view(),
                self.materializes(),
                (ReadItemModel { item: item.deep_view(), reading: reading.deep_view() }),
            ),
    {
        match &item.payload {
            ModelContextPayload::Message(message) => match self.message_input(&item.id, message) {
                Err(error) => Err(error),
                Ok(item) => Ok(PreparedCodexInputItem::Typed { item, original_json: None }),
            },
            ModelContextPayload::Tool(tool) => match tool_input(tool, &reading.tool) {
                Err(error) => Err(error),
                Ok(item) => Ok(PreparedCodexInputItem::Typed { item, original_json: None }),
            },
            ModelContextPayload::ProviderOpaque(opaque) => self.opaque_input(
                opaque,
                &reading.response,
            ),
        }
    }

    /// Prepares provider input while retaining original opaque JSON alongside typed records.
    pub fn prepare_model_input(&self, items: &[ReadItem]) -> (r: Result<
        Vec<PreparedCodexInputItem>,
        CodexAdapterError,
    >)
        requires
            forall|i: int|
                0 <= i < items@.len() ==> !holds_stray_item(
                    self.lineage.deep_view(),
                    #[trigger] items.deep_view()[i],
                ),
        ensures
            outcome(r) == prepared_all(
                self.lineage.deep_view(),
                self.materializes(),
                items.deep_view(),
            ),
    {
        let ghost model = items.deep_view();
        let ghost lineage = self.lineage.deep_view();
        let ghost f = |read: ReadItemModel| prepared_of(lineage, self.materializes(), read);
        let mut out: Vec<PreparedCodexInputItem> = Vec::new();
        let mut i: usize = 0;
        proof {
            lemma_empty_content(out);
            assert(model.take(0) =~= Seq::empty());
        }
        while i < items.len()
            invariant
                i <= items@.len(),
                model == items.deep_view(),
                model.len() == items@.len(),
                lineage == self.lineage.deep_view(),
                f == (|read: ReadItemModel| prepared_of(lineage, self.materializes(), read)),
                forall|k: int| 0 <= k < model.len() ==> !holds_stray_item(
                    lineage,
                    #[trigger] model[k],
                ),
                collected(model.take(i as int), f) == Ok::<
                    Seq<PreparedCodexInputItemModel>,
                    CodexAdapterErrorModel,
                >(out.deep_view()),
            decreases items.len() - i,
        {
            proof {
                assert(model[i as int] == items@[i as int].deep_view());
                lemma_collected_step(model, f, i as int);
            }
            match self.prepare_model_input_item(&items[i].item, &items[i].reading) {
                Ok(prepared) => {
                    let ghost before = out;
                    out.push(prepared);
                    assert(out.deep_view() =~= before.deep_view().push(prepared.deep_view()));
                },
                Err(error) => {
                    proof {
                        lemma_collected_error(model, f, i + 1);
                    }
                    return Err(error);
                },
            }
            i = i + 1;
        }
        assert(model.take(model.len() as int) =~= model);
        Ok(out)
    }

    /// Produces input for the typed request path.
    ///
    /// Unknown future provider records require a raw request transport and are rejected here
    /// instead of degrading to [`ResponseItem::Other`].
    pub fn prepare_response_items(&self, items: &[ReadItem]) -> (r: Result<
        Vec<ResponseItem>,
        CodexAdapterError,
    >)
        requires
            forall|i: int|
                0 <= i < items@.len() ==> !holds_stray_item(
                    self.lineage.deep_view(),
                    #[trigger] items.deep_view()[i],
                ),
        ensures
            outcome(r) == typed_all(
                self.lineage.deep_view(),
                self.materializes(),
                items.deep_view(),
            ),
    {
        let prepared = match self.prepare_model_input(items) {
            Ok(prepared) => prepared,
            Err(error) => {
                return Err(error);
            },
        };
        let ghost model = prepared.deep_view();
        let ghost f = |p: PreparedCodexInputItemModel| typed_item(p);
        let mut out: Vec<ResponseItem> = Vec::new();
        let mut i: usize = 0;
        proof {
            lemma_empty_content(out);
            assert(model.take(0) =~= Seq::empty());
        }
        while i < prepared.len()
            invariant
                i <= prepared@.len(),
                model == prepared.deep_view(),
                model.len() == prepared@.len(),
                prepared_all(
                    self.lineage.deep_view(),
                    self.materializes(),
                    items.deep_view(),
                ) == Ok::<Seq<PreparedCodexInputItemModel>, CodexAdapterErrorModel>(model),
                f == (|p: PreparedCodexInputItemModel| typed_item(p)),
                collected(model.take(i as int), f) == Ok::<
                    Seq<ResponseItemModel>,
                    CodexAdapterErrorModel,
                >(out.deep_view()),
            decreases prepared.len() - i,
        {
            proof {
                assert(model[i as int] == prepared@[i as int].deep_view());
                lemma_collected_step(model, f, i as int);
            }
            match prepared[i].duplicate().into_response_item() {
                Ok(item) => {
                    let ghost before = out;
                    out.push(item);
                    assert(out.deep_view() =~= before.deep_view().push(item.deep_view()));
                },
                Err(error) => {
                    proof {
                        lemma_collected_error(model, f, i + 1);
                    }
                    return Err(error);
                },
            }
            i = i + 1;
        }
        assert(model.take(model.len() as int) =~= model);
        Ok(out)
    }
}

} // verus!
