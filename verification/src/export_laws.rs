//! Laws of what the records of a journal become in the provider's input.
use vstd::prelude::*;

use crate::adapter::Materialization;
use crate::codec::{
    event_record, id_of, metadata_of, opaque_kind_of, record_id, serialization_view_of, turn_id_of,
    with_id, with_metadata, with_turn_id,
};
use crate::context::{
    AttachmentKind, ContentPartModel, ContextEventPayloadModel, MessageModel, MessageRole,
    ModelContextPayloadModel, ProviderLineageModel, ProviderOpaqueItemModel, ToolPhase,
    ToolRecordModel,
};
use crate::error::CodexAdapterErrorModel;
use crate::json::{member_of, JsonModel};
use crate::lists::{collected, lemma_collected_ok};
use crate::outbound::{
    content_input_of, message_input_of, opaque_input_of, prepared_all, prepared_of, routed_input_of,
    success_of, tool_input_of, typed_all,
};
use crate::protocol::{
    AgentMessageInputContentModel, ContentItemModel, DecodedItemModel, DecodedToolModel,
    FunctionCallOutputBodyModel, InternalChatMessageMetadataModel, LocalShellStatus,
    ResponseItemModel,
};
use crate::text::{debug_text, decimal_text};
use crate::types::{redacted_record, typed_item, PreparedCodexInputItemModel, ReadItemModel};

verus! {

// ---------------------------------------------------------------------------------------------
// Messages

/// Whether a content item stands for a part: the same text, as output exactly if the assistant
/// said it, or the media that its attachment was turned into, of its kind and with its detail.
pub open spec fn sent_as(
    materialize: Option<Materialization>,
    role: MessageRole,
    part: ContentPartModel,
    item: ContentItemModel,
) -> bool {
    match part {
        ContentPartModel::Text { text } => if role == MessageRole::Assistant {
            item == (ContentItemModel::OutputText { text })
        } else {
            item == (ContentItemModel::InputText { text })
        },
        ContentPartModel::Attachment { attachment_id, media_type, kind, image_detail } => {
            let media = (materialize->0)(attachment_id, media_type, kind);
            &&& materialize is Some
            &&& media is Some
            &&& media->0.source.len() > 0
            &&& kind != AttachmentKind::File
            &&& kind == AttachmentKind::Image ==> item == (ContentItemModel::InputImage {
                image_url: media->0.source,
                detail: image_detail,
            })
            &&& kind == AttachmentKind::Audio ==> item == (ContentItemModel::InputAudio {
                audio_url: media->0.source,
            })
        },
    }
}

/// A part is sent exactly as it stands or not at all, and it is refused exactly if it is a file
/// or media that cannot be turned into a source.
pub proof fn law_parts_are_sent(
    materialize: Option<Materialization>,
    role: MessageRole,
    part: ContentPartModel,
)
    ensures
        ({
            let sent = content_input_of(materialize, role, part);
            &&& sent is Ok ==> sent_as(materialize, role, part, sent->Ok_0)
            &&& part is Text ==> sent is Ok
            &&& part is Attachment ==> {
                let kind = part->Attachment_kind;
                let media = (materialize->0)(
                    part->Attachment_attachment_id,
                    part->Attachment_media_type,
                    kind,
                );
                &&& kind == AttachmentKind::File ==> sent == Err::<
                    ContentItemModel,
                    CodexAdapterErrorModel,
                >(CodexAdapterErrorModel::UnsupportedAttachment { kind })
                &&& kind != AttachmentKind::File && materialize is None ==> sent == Err::<
                    ContentItemModel,
                    CodexAdapterErrorModel,
                >(CodexAdapterErrorModel::MissingAttachmentMaterializer { kind })
                &&& kind != AttachmentKind::File && materialize is Some && media is None ==> sent
                    == Err::<ContentItemModel, CodexAdapterErrorModel>(
                    CodexAdapterErrorModel::UnmaterializedAttachment {
                        attachment_id: part->Attachment_attachment_id,
                    },
                )
                &&& kind != AttachmentKind::File && materialize is Some && media is Some
                    && media->0.source.len() == 0 ==> sent == Err::<
                    ContentItemModel,
                    CodexAdapterErrorModel,
                >(CodexAdapterErrorModel::EmptyMaterializedAttachment)
                &&& kind != AttachmentKind::File && materialize is Some && media is Some
                    && media->0.source.len() > 0 ==> sent is Ok
            }
        }),
{
}

/// A message is sent under its role, in its phase, and with all its parts in order. It is refused
/// exactly if one of them is.
pub proof fn law_messages_are_sent(
    materialize: Option<Materialization>,
    item_id: Seq<char>,
    message: MessageModel,
)
    requires
        message.route is None,
    ensures
        ({
            let sent = message_input_of(materialize, item_id, message);
            let item = sent->Ok_0;
            let content = item->Message_content;
            &&& sent is Ok <==> forall|i: int|
                0 <= i < message.content.len() ==> content_input_of(
                    materialize,
                    message.role,
                    #[trigger] message.content[i],
                ) is Ok
            &&& sent is Ok ==> {
                &&& item is Message
                &&& item->Message_id is None
                &&& item->Message_phase == message.phase
                &&& item->Message_role == match message.role {
                    MessageRole::User => "user"@,
                    MessageRole::Assistant => "assistant"@,
                    MessageRole::Developer => "developer"@,
                    MessageRole::System => "system"@,
                }
                &&& item->Message_internal_chat_message_metadata_passthrough is None
                &&& content.len() == message.content.len()
                &&& forall|i: int|
                    0 <= i < content.len() ==> sent_as(
                        materialize,
                        message.role,
                        message.content[i],
                        #[trigger] content[i],
                    )
            }
        }),
{
    let parts = message.content;
    let f = |part: ContentPartModel| content_input_of(materialize, message.role, part);
    crate::text_laws::law_lists_are_worked_through(parts, f, 0);
    if forall|i: int|
        0 <= i < parts.len() ==> content_input_of(
            materialize,
            message.role,
            #[trigger] parts[i],
        ) is Ok {
        assert forall|k: int| 0 <= k < parts.len() implies f(#[trigger] parts[k]) is Ok by {}
    }
    if message_input_of(materialize, item_id, message) is Ok {
        let content = collected(parts, f)->Ok_0;
        assert forall|i: int| 0 <= i < parts.len() implies content_input_of(
            materialize,
            message.role,
            #[trigger] parts[i],
        ) is Ok by {
            assert(f(parts[i]) is Ok);
        }
        assert forall|i: int| 0 <= i < content.len() implies sent_as(
            materialize,
            message.role,
            parts[i],
            #[trigger] content[i],
        ) by {
            assert(f(parts[i]) == Ok::<ContentItemModel, CodexAdapterErrorModel>(content[i]));
            law_parts_are_sent(materialize, message.role, parts[i]);
        }
    }
}

/// A message between agents is sent from its author to its first recipient, text by text in order.
/// Without a recipient, or with an attachment, it is refused.
pub proof fn law_routed_messages_are_sent(
    materialize: Option<Materialization>,
    item_id: Seq<char>,
    message: MessageModel,
)
    requires
        message.route is Some,
    ensures
        ({
            let sent = message_input_of(materialize, item_id, message);
            let item = sent->Ok_0;
            let content = item->AgentMessage_content;
            let plain = forall|i: int|
                0 <= i < message.content.len() ==> #[trigger] message.content[i] is Text;
            &&& message.route->0.recipients.len() == 0 ==> sent == Err::<
                ResponseItemModel,
                CodexAdapterErrorModel,
            >(CodexAdapterErrorModel::MissingRouteRecipient { item_id })
            &&& message.route->0.recipients.len() > 0 && !plain ==> sent == Err::<
                ResponseItemModel,
                CodexAdapterErrorModel,
            >(CodexAdapterErrorModel::UnsupportedRoutedContent { item_id })
            &&& message.route->0.recipients.len() > 0 && plain ==> {
                &&& sent is Ok
                &&& item is AgentMessage
                &&& item->AgentMessage_id is None
                &&& item->AgentMessage_author == message.route->0.author
                &&& item->AgentMessage_recipient == message.route->0.recipients[0]
                &&& item->AgentMessage_internal_chat_message_metadata_passthrough is None
                &&& content.len() == message.content.len()
                &&& forall|i: int|
                    0 <= i < content.len() ==> #[trigger] content[i] == (
                    AgentMessageInputContentModel::InputText {
                        text: message.content[i]->Text_text,
                    })
            }
        }),
{
    let parts = message.content;
    let f = |part: ContentPartModel| routed_input_of(item_id, part);
    lemma_routed(item_id, parts);
    if collected(parts, f) is Ok {
        lemma_collected_ok(parts, f);
        let content = collected(parts, f)->Ok_0;
        assert forall|i: int| 0 <= i < content.len() implies #[trigger] content[i] == (
        AgentMessageInputContentModel::InputText { text: parts[i]->Text_text }) by {
            assert(f(parts[i]) == Ok::<AgentMessageInputContentModel, CodexAdapterErrorModel>(
                content[i],
            ));
        }
    }
}

proof fn lemma_routed(item_id: Seq<char>, parts: Seq<ContentPartModel>)
    ensures
        ({
            let done = collected(parts, |part: ContentPartModel| routed_input_of(item_id, part));
            let plain = forall|i: int| 0 <= i < parts.len() ==> #[trigger] parts[i] is Text;
            &&& plain <==> done is Ok
            &&& !plain ==> done->Err_0 == (CodexAdapterErrorModel::UnsupportedRoutedContent {
                item_id,
            })
        }),
    decreases parts.len(),
{
    if parts.len() > 0 {
        let front = parts.drop_last();
        lemma_routed(item_id, front);
        assert forall|i: int| 0 <= i < front.len() implies front[i] == parts[i] by {}
        if forall|i: int| 0 <= i < parts.len() ==> #[trigger] parts[i] is Text {
            assert forall|i: int| 0 <= i < front.len() implies #[trigger] front[i] is Text by {
                assert(front[i] == parts[i]);
            }
            assert(parts[parts.len() - 1] is Text);
        } else {
            let k = choose|k: int| 0 <= k < parts.len() && !(#[trigger] parts[k] is Text);
            if k < front.len() {
                assert(!(front[k] is Text));
            }
        }
    }
}

// ---------------------------------------------------------------------------------------------
// Tools

/// Whether a tool record is of a kind.
pub open spec fn of_kind(tool: ToolRecordModel, kind: Seq<char>) -> bool {
    member_of(tool.data, "kind"@) == Some(JsonModel::Text(kind))
}

/// A member that may be left out or null.
pub open spec fn maybe_text(value: Option<JsonModel>) -> Option<Seq<char>> {
    if value is Some && value->0 is Text {
        Some(value->0->Text_0)
    } else {
        None
    }
}

proof fn lemma_kinds_differ()
    ensures
        "function"@ != "custom"@,
        "function"@ != "local_shell"@,
        "custom"@ != "local_shell"@,
{
    reveal_strlit("function");
    reveal_strlit("custom");
    reveal_strlit("local_shell");
    assert("function"@.len() == 8);
    assert("custom"@.len() == 6);
    assert("local_shell"@.len() == 11);
}

/// A requested call is sent as a call, under its id and its name, with what the record holds.
pub proof fn law_requested_calls_are_sent(tool: ToolRecordModel, decoded: DecodedToolModel)
    requires
        tool.phase == ToolPhase::Requested,
        of_kind(tool, "function"@) || of_kind(tool, "custom"@),
        tool_input_of(tool, decoded) is Ok,
    ensures
        ({
            let item = tool_input_of(tool, decoded)->Ok_0;
            let namespace = maybe_text(member_of(tool.data, "namespace"@));
            &&& of_kind(tool, "function"@) ==> {
                &&& item is FunctionCall
                &&& item->FunctionCall_id is None
                &&& item->FunctionCall_name == tool.name
                &&& item->FunctionCall_call_id == tool.call_id
                &&& item->FunctionCall_namespace == namespace
                &&& member_of(tool.data, "arguments"@) == Some(
                    JsonModel::Text(item->FunctionCall_arguments),
                )
                &&& item->FunctionCall_internal_chat_message_metadata_passthrough is None
            }
            &&& of_kind(tool, "custom"@) ==> {
                &&& item is CustomToolCall
                &&& item->CustomToolCall_id is None
                &&& item->CustomToolCall_status is None
                &&& item->CustomToolCall_name == tool.name
                &&& item->CustomToolCall_call_id == tool.call_id
                &&& item->CustomToolCall_namespace == namespace
                &&& member_of(tool.data, "input"@) == Some(
                    JsonModel::Text(item->CustomToolCall_input),
                )
                &&& item->CustomToolCall_internal_chat_message_metadata_passthrough is None
            }
        }),
{
    lemma_kinds_differ();
}

/// A requested call is sent exactly if its input is a text and its namespace a text or nothing.
pub proof fn law_usable_calls(tool: ToolRecordModel, decoded: DecodedToolModel)
    requires
        tool.phase == ToolPhase::Requested,
    ensures
        ({
            let namespace = member_of(tool.data, "namespace"@);
            let named = namespace is None || namespace->0 is Null || namespace->0 is Text;
            let arguments = member_of(tool.data, "arguments"@);
            let input = member_of(tool.data, "input"@);
            &&& of_kind(tool, "function"@) ==> (tool_input_of(tool, decoded) is Ok <==> named
                && arguments is Some && arguments->0 is Text)
            &&& of_kind(tool, "custom"@) ==> (tool_input_of(tool, decoded) is Ok <==> named
                && input is Some && input->0 is Text)
        }),
{
    lemma_kinds_differ();
}

/// What is wrong with the record of a call is told with the call and the field.
pub proof fn law_unusable_records_are_told(tool: ToolRecordModel, decoded: DecodedToolModel)
    ensures
        ({
            let sent = tool_input_of(tool, decoded);
            let requested = tool.phase == ToolPhase::Requested;
            let function = of_kind(tool, "function"@);
            let custom = of_kind(tool, "custom"@);
            let namespace = member_of(tool.data, "namespace"@);
            let named = namespace is None || namespace->0 is Null || namespace->0 is Text;
            let output = member_of(tool.data, "output"@);
            let wrong = |field: Seq<char>, message: Seq<char>|
                sent == Err::<ResponseItemModel, CodexAdapterErrorModel>(
                    CodexAdapterErrorModel::InvalidToolData {
                        call_id: tool.call_id,
                        field,
                        message,
                    },
                );
            let no_text = |field: Seq<char>|
                !(member_of(tool.data, field) is Some && member_of(tool.data, field)->0 is Text);
            &&& requested && (function || custom) && !named ==> wrong(
                "namespace"@,
                "expected a string or null"@,
            )
            &&& requested && function && named && no_text("arguments"@) ==> wrong(
                "arguments"@,
                "expected a string"@,
            )
            &&& requested && custom && named && no_text("input"@) ==> wrong(
                "input"@,
                "expected a string"@,
            )
            &&& !requested && (function || custom) && output is None ==> wrong(
                "output"@,
                "field is missing"@,
            )
            &&& !requested && (function || custom) && output is Some && no_text("output"@)
                && decoded is Failed ==> wrong("output"@, decoded->Failed_0)
            &&& !requested && (function || custom) && output is Some && output->0 is Text
                && success_of(tool) is Err ==> sent is Err && sent->Err_0 == success_of(tool)->Err_0
        }),
{
    lemma_kinds_differ();
}

/// A finished call is sent as its output: text as it is, anything else as it was decoded, with
/// its success.
pub proof fn law_finished_calls_are_sent(tool: ToolRecordModel, decoded: DecodedToolModel)
    requires
        tool.phase != ToolPhase::Requested,
        of_kind(tool, "function"@) || of_kind(tool, "custom"@),
    ensures
        ({
            let sent = tool_input_of(tool, decoded);
            let item = sent->Ok_0;
            let output = member_of(tool.data, "output"@);
            let payload = if item is FunctionCallOutput {
                item->FunctionCallOutput_output
            } else {
                item->CustomToolCallOutput_output
            };
            &&& sent is Ok <==> output is Some && (output->0 is Text || decoded is Value)
                && success_of(tool) is Ok
            &&& sent is Ok ==> {
                &&& of_kind(tool, "function"@) ==> {
                    &&& item is FunctionCallOutput
                    &&& item->FunctionCallOutput_id is None
                    &&& item->FunctionCallOutput_call_id == tool.call_id
                }
                &&& of_kind(tool, "custom"@) ==> {
                    &&& item is CustomToolCallOutput
                    &&& item->CustomToolCallOutput_id is None
                    &&& item->CustomToolCallOutput_call_id == tool.call_id
                    &&& tool.name == "custom_tool"@ ==> item->CustomToolCallOutput_name is None
                    &&& tool.name != "custom_tool"@ ==> item->CustomToolCallOutput_name == Some(
                        tool.name,
                    )
                }
                &&& payload.success == success_of(tool)->Ok_0
                &&& output->0 is Text ==> payload.body == FunctionCallOutputBodyModel::Text(
                    output->0->Text_0,
                )
                &&& !(output->0 is Text) ==> payload.body
                    == FunctionCallOutputBodyModel::ContentItems(decoded->Value_0)
            }
        }),
{
    lemma_kinds_differ();
}

/// Whether an output succeeded is what its record says; a failed call never succeeded, and one
/// that says so is refused.
pub proof fn law_success_of_outputs(tool: ToolRecordModel)
    ensures
        ({
            let said = member_of(tool.data, "success"@);
            let failed = tool.phase == ToolPhase::Failed;
            let success = success_of(tool);
            &&& said is None || said->0 is Null ==> success == Ok::<
                Option<bool>,
                CodexAdapterErrorModel,
            >(
                if failed {
                    Some(false)
                } else {
                    None
                },
            )
            &&& said == Some(JsonModel::Bool(false)) ==> success == Ok::<
                Option<bool>,
                CodexAdapterErrorModel,
            >(Some(false))
            &&& said == Some(JsonModel::Bool(true)) && !failed ==> success == Ok::<
                Option<bool>,
                CodexAdapterErrorModel,
            >(Some(true))
            &&& said == Some(JsonModel::Bool(true)) && failed ==> success == Err::<
                Option<bool>,
                CodexAdapterErrorModel,
            >(
                CodexAdapterErrorModel::InvalidToolData {
                    call_id: tool.call_id,
                    field: "success"@,
                    message: "failed output must set success to false"@,
                },
            )
            &&& said is Some && !(said->0 is Null) && !(said->0 is Bool) ==> success == Err::<
                Option<bool>,
                CodexAdapterErrorModel,
            >(
                CodexAdapterErrorModel::InvalidToolData {
                    call_id: tool.call_id,
                    field: "success"@,
                    message: "expected a boolean or null"@,
                },
            )
        }),
{
}

/// A shell call is sent under its id, with its action as it was decoded and with the status of its
/// phase. A record of another kind is refused.
pub proof fn law_shell_calls_are_sent(tool: ToolRecordModel, decoded: DecodedToolModel)
    ensures
        ({
            let sent = tool_input_of(tool, decoded);
            let action = member_of(tool.data, "action"@);
            let kind = member_of(tool.data, "kind"@);
            &&& of_kind(tool, "local_shell"@) && action is Some && decoded is Value ==> sent
                == Ok::<ResponseItemModel, CodexAdapterErrorModel>(
                ResponseItemModel::LocalShellCall {
                    id: None,
                    call_id: Some(tool.call_id),
                    status: match tool.phase {
                        ToolPhase::Requested => LocalShellStatus::InProgress,
                        ToolPhase::Completed => LocalShellStatus::Completed,
                        ToolPhase::Failed => LocalShellStatus::Incomplete,
                    },
                    action: decoded->Value_0,
                    internal_chat_message_metadata_passthrough: None,
                },
            )
            &&& of_kind(tool, "local_shell"@) && action is Some && decoded is Failed ==> sent
                == Err::<ResponseItemModel, CodexAdapterErrorModel>(
                CodexAdapterErrorModel::InvalidToolData {
                    call_id: tool.call_id,
                    field: "action"@,
                    message: decoded->Failed_0,
                },
            )
            &&& of_kind(tool, "local_shell"@) && action is None ==> sent == Err::<
                ResponseItemModel,
                CodexAdapterErrorModel,
            >(
                CodexAdapterErrorModel::InvalidToolData {
                    call_id: tool.call_id,
                    field: "action"@,
                    message: "field is missing"@,
                },
            )
            &&& !of_kind(tool, "function"@) && !of_kind(tool, "custom"@) && !of_kind(
                tool,
                "local_shell"@,
            ) && kind is Some && kind->0 is Text ==> sent == Err::<
                ResponseItemModel,
                CodexAdapterErrorModel,
            >(
                CodexAdapterErrorModel::UnsupportedToolRecord {
                    call_id: tool.call_id,
                    name: tool.name,
                    phase: tool.phase,
                },
            )
            &&& !(kind is Some && kind->0 is Text) ==> sent == Err::<
                ResponseItemModel,
                CodexAdapterErrorModel,
            >(
                CodexAdapterErrorModel::InvalidToolData {
                    call_id: tool.call_id,
                    field: "kind"@,
                    message: "expected a string"@,
                },
            )
        }),
{
    lemma_kinds_differ();
}

// ---------------------------------------------------------------------------------------------
// Provider records

/// A provider record goes back to its own lineage alone: as the item that it decodes to, together
/// with its bytes, or as its bytes where the item is unknown. A record of another kind than it
/// says is refused.
pub proof fn law_provider_records_are_sent(
    lineage: ProviderLineageModel,
    opaque: ProviderOpaqueItemModel,
    decoded: DecodedItemModel,
)
    ensures
        ({
            let sent = opaque_input_of(lineage, opaque, decoded);
            let item = decoded->Item_0;
            let between_agents = opaque.kind == "codex.inter_agent_communication"@;
            let own = opaque.lineage == lineage;
            &&& !own ==> sent == Err::<PreparedCodexInputItemModel, CodexAdapterErrorModel>(
                CodexAdapterErrorModel::IncompatibleLineage {
                    item_id: opaque.provider_item_id,
                    expected: lineage,
                    actual: opaque.lineage,
                },
            )
            &&& own && decoded is Failed ==> sent == Err::<
                PreparedCodexInputItemModel,
                CodexAdapterErrorModel,
            >(
                CodexAdapterErrorModel::ProviderJson {
                    operation: if between_agents {
                        "decode opaque inter-agent communication"@
                    } else {
                        "decode opaque response item"@
                    },
                    message: decoded->Failed_0,
                },
            )
            &&& own && decoded is Item && (between_agents || (!(item is Other) && opaque_kind_of(
                item,
            ) == opaque.kind)) ==> sent == Ok::<
                PreparedCodexInputItemModel,
                CodexAdapterErrorModel,
            >(PreparedCodexInputItemModel::Typed { item, original_json: Some(opaque.payload) })
            &&& own && decoded is Item && !between_agents && item is Other ==> sent == Ok::<
                PreparedCodexInputItemModel,
                CodexAdapterErrorModel,
            >(
                PreparedCodexInputItemModel::RawOpaque {
                    item_id: opaque.provider_item_id,
                    kind: opaque.kind,
                    payload: opaque.payload,
                },
            )
            &&& own && decoded is Item && !between_agents && !(item is Other) && opaque_kind_of(
                item,
            ) != opaque.kind ==> sent == Err::<PreparedCodexInputItemModel, CodexAdapterErrorModel>(
                CodexAdapterErrorModel::OpaqueKindMismatch {
                    item_id: opaque.provider_item_id,
                    declared_kind: opaque.kind,
                    actual_kind: opaque_kind_of(item),
                },
            )
        }),
{
}

// ---------------------------------------------------------------------------------------------
// Whole contexts

/// A context is sent item by item in order, each as it would be sent by itself; a message and a
/// tool record carry no bytes along. One item that cannot be sent keeps the whole back.
pub proof fn law_contexts_are_sent_in_order(
    lineage: ProviderLineageModel,
    materialize: Option<Materialization>,
    items: Seq<ReadItemModel>,
    i: int,
)
    requires
        0 <= i < items.len(),
    ensures
        ({
            let sent = prepared_all(lineage, materialize, items);
            let read = items[i];
            let prepared = sent->Ok_0[i];
            &&& prepared_of(lineage, materialize, read) is Err ==> sent is Err
            &&& sent is Ok ==> {
                &&& sent->Ok_0.len() == items.len()
                &&& read.item.payload is Message ==> message_input_of(
                    materialize,
                    read.item.id,
                    read.item.payload->Message_0,
                ) == Ok::<ResponseItemModel, CodexAdapterErrorModel>(prepared->Typed_item)
                    && prepared is Typed && prepared->Typed_original_json is None
                &&& read.item.payload is Tool ==> tool_input_of(
                    read.item.payload->Tool_0,
                    read.reading.tool,
                ) == Ok::<ResponseItemModel, CodexAdapterErrorModel>(prepared->Typed_item)
                    && prepared is Typed && prepared->Typed_original_json is None
                &&& read.item.payload is ProviderOpaque ==> opaque_input_of(
                    lineage,
                    read.item.payload->ProviderOpaque_0,
                    read.reading.response,
                ) == Ok::<PreparedCodexInputItemModel, CodexAdapterErrorModel>(prepared)
            }
            &&& (forall|k: int|
                0 <= k < items.len() ==> prepared_of(
                    lineage,
                    materialize,
                    #[trigger] items[k],
                ) is Ok) ==> sent is Ok
        }),
{
    let f = |read: ReadItemModel| prepared_of(lineage, materialize, read);
    crate::text_laws::law_lists_are_worked_through(items, f, 0);
    if forall|k: int|
        0 <= k < items.len() ==> prepared_of(lineage, materialize, #[trigger] items[k]) is Ok {
        assert forall|k: int| 0 <= k < items.len() implies f(#[trigger] items[k]) is Ok by {}
    }
    if collected(items, f) is Ok {
        assert(f(items[i]) is Ok);
        assert(f(items[i]) == Ok::<PreparedCodexInputItemModel, CodexAdapterErrorModel>(
            collected(items, f)->Ok_0[i],
        ));
    }
}

/// The typed input is the item of each prepared item, in order. Bytes of an unknown item cannot
/// be sent that way.
pub proof fn law_typed_input(
    lineage: ProviderLineageModel,
    materialize: Option<Materialization>,
    items: Seq<ReadItemModel>,
    i: int,
)
    requires
        0 <= i < items.len(),
        prepared_all(lineage, materialize, items) is Ok,
    ensures
        ({
            let prepared = prepared_all(lineage, materialize, items)->Ok_0;
            let typed = typed_all(lineage, materialize, items);
            &&& prepared[i] is RawOpaque ==> typed is Err
            &&& typed is Ok ==> typed->Ok_0.len() == prepared.len() && prepared[i] is Typed
                && typed->Ok_0[i] == prepared[i]->Typed_item
            &&& (forall|k: int| 0 <= k < prepared.len() ==> #[trigger] prepared[k] is Typed)
                ==> typed is Ok
        }),
{
    let prepared = prepared_all(lineage, materialize, items)->Ok_0;
    let f = |p: PreparedCodexInputItemModel| typed_item(p);
    let g = |read: ReadItemModel| prepared_of(lineage, materialize, read);
    lemma_collected_ok(items, g);
    crate::text_laws::law_lists_are_worked_through(prepared, f, 0);
    if forall|k: int| 0 <= k < prepared.len() ==> #[trigger] prepared[k] is Typed {
        assert forall|k: int| 0 <= k < prepared.len() implies f(#[trigger] prepared[k]) is Ok by {}
    }
    if collected(prepared, f) is Ok {
        assert(f(prepared[i]) is Ok);
        assert(f(prepared[i]) == Ok::<ResponseItemModel, CodexAdapterErrorModel>(
            collected(prepared, f)->Ok_0[i],
        ));
    }
}

/// What is shown of a prepared item tells how long its bytes are, and nothing of them.
pub proof fn law_bytes_are_not_shown(
    item: ResponseItemModel,
    id: Seq<char>,
    kind: Seq<char>,
    bytes: Seq<u8>,
)
    ensures
        redacted_record(PreparedCodexInputItemModel::Typed { item, original_json: None }) is None,
        redacted_record(PreparedCodexInputItemModel::Typed { item, original_json: Some(bytes) })
            == Some(
            "TypedOpaque { original_json: "@ + "<redacted opaque payload: "@ + decimal_text(
                bytes.len(),
            ) + " bytes>"@ + ", .. }"@,
        ),
        redacted_record(
            PreparedCodexInputItemModel::RawOpaque { item_id: id, kind, payload: bytes },
        ) == Some(
            "RawOpaque { item_id: "@ + debug_text(id) + ", kind: "@ + debug_text(kind)
                + ", payload: "@ + "<redacted opaque payload: "@ + decimal_text(bytes.len())
                + " bytes>"@ + " }"@,
        ),
{
    let n = decimal_text(bytes.len());
    assert("TypedOpaque { original_json: "@ + "<redacted opaque payload: "@ + n + " bytes>"@
        + ", .. }"@ =~= "TypedOpaque { original_json: "@ + ("<redacted opaque payload: "@ + n
        + " bytes>"@) + ", .. }"@);
    let shown = "<redacted opaque payload: "@ + n + " bytes>"@;
    assert("RawOpaque { item_id: "@ + debug_text(id) + ", kind: "@ + debug_text(kind)
        + ", payload: "@ + "<redacted opaque payload: "@ + n + " bytes>"@ + " }"@
        =~= "RawOpaque { item_id: "@ + debug_text(id) + (", kind: "@ + debug_text(kind) + (
    ", payload: "@ + shown + " }"@)));
}

// ---------------------------------------------------------------------------------------------
// Items

/// Whether an item has an id and metadata of its own.
pub open spec fn is_identified(item: ResponseItemModel) -> bool {
    !(item is CompactionTrigger) && !(item is Other)
}

/// The id that is set is the id that is found, setting it leaves everything else as it is, and
/// setting the old one gives the item back. The same holds of the metadata.
pub proof fn law_ids_and_metadata_are_set(
    item: ResponseItemModel,
    id: Option<Seq<char>>,
    other: Option<Seq<char>>,
    metadata: Option<InternalChatMessageMetadataModel>,
    more: Option<InternalChatMessageMetadataModel>,
)
    ensures
        is_identified(item) ==> id_of(with_id(item, id)) == id,
        is_identified(item) ==> metadata_of(with_metadata(item, metadata)) == metadata,
        metadata_of(with_id(item, id)) == metadata_of(item),
        id_of(with_metadata(item, metadata)) == id_of(item),
        with_id(with_id(item, id), other) == with_id(item, other),
        with_id(item, id_of(item)) == item,
        with_metadata(with_metadata(item, metadata), more) == with_metadata(item, more),
        with_metadata(item, metadata_of(item)) == item,
        !is_identified(item) ==> with_id(item, id) == item && with_metadata(item, metadata) == item
            && id_of(item) is None && metadata_of(item) is None,
{
}

/// A turn is noted on an item that names none, and stays where one is named.
pub proof fn law_turns_are_noted_once(item: ResponseItemModel, turn: Seq<char>, other: Seq<char>)
    ensures
        turn_id_of(item) is Some <==> metadata_of(item) is Some && metadata_of(
            item,
        )->0.turn_id is Some,
        turn_id_of(item) is Some ==> turn_id_of(item) == metadata_of(item)->0.turn_id,
        turn_id_of(item) is Some ==> with_turn_id(item, turn) == item,
        turn_id_of(item) is None && is_identified(item) ==> turn_id_of(with_turn_id(item, turn))
            == Some(turn),
        id_of(with_turn_id(item, turn)) == id_of(item),
        with_metadata(with_turn_id(item, turn), metadata_of(item)) == item,
        is_identified(item) ==> with_turn_id(with_turn_id(item, turn), other) == with_turn_id(
            item,
            turn,
        ),
{
}

/// Serializing drops the content of reasoning exactly if it holds no raw reasoning, and nothing
/// else of any item.
pub proof fn law_serialized_items(item: ResponseItemModel)
    ensures
        !(item is Reasoning) ==> serialization_view_of(item) == item,
        item is Reasoning ==> {
            let seen = serialization_view_of(item);
            let content = item->Reasoning_content;
            let raw = content is Some && exists|i: int|
                0 <= i < content->0.len() && (#[trigger] content->0[i]) is ReasoningText;
            &&& seen is Reasoning
            &&& seen->Reasoning_id == item->Reasoning_id
            &&& seen->Reasoning_summary == item->Reasoning_summary
            &&& seen->Reasoning_encrypted_content == item->Reasoning_encrypted_content
            &&& seen->Reasoning_internal_chat_message_metadata_passthrough
                == item->Reasoning_internal_chat_message_metadata_passthrough
            &&& raw ==> seen->Reasoning_content == content
            &&& !raw ==> seen->Reasoning_content is None
        },
{
}

/// A record is the same in an event and in a context, and only provider records have an id of
/// their own there.
pub proof fn law_records_keep_their_content(payload: ModelContextPayloadModel, id: Seq<char>)
    ensures
        payload is Message ==> event_record(payload) == ContextEventPayloadModel::Message(
            payload->Message_0,
        ) && record_id(payload, id) == id,
        payload is Tool ==> event_record(payload) == ContextEventPayloadModel::Tool(payload->Tool_0)
            && record_id(payload, id) == id,
        payload is ProviderOpaque ==> event_record(payload)
            == ContextEventPayloadModel::ProviderOpaque(payload->ProviderOpaque_0) && record_id(
            payload,
            id,
        ) == payload->ProviderOpaque_0.provider_item_id,
{
}

} // verus!
