//! Laws of what the provider's records become in the journal.
use vstd::prelude::*;

use crate::adapter::{
    adapted_response, adapted_rollout, canonical_content, content_part_of, replacement_items,
    Adapted, Resolution,
};
use crate::codec::{id_of, opaque_kind_of, role_of, serialization_view_of};
use crate::context::{
    AttachmentKind, CompactionMode, ContentPartModel, ContextEventPayloadModel, MessageDelivery,
    MessagePhase, MessageRole, MessageVisibility, ModelContextItemModel, ModelContextPayloadModel,
    ProviderLineageModel, ToolPhase,
};
use crate::error::CodexAdapterErrorModel;
use crate::json::{member_of, JsonModel};
use crate::lists::{collected, lemma_collected_ok};
use crate::outbound::message_input_of;
use crate::protocol::{
    AgentMessageInputContentModel, CompactedItemModel, ContentItemModel, DecodedItemModel,
    EncodedItemModel, FunctionCallOutputBodyModel, InterAgentCommunicationModel, LocalShellStatus,
    RawItemModel, ResponseItemModel, RolloutItemModel, WiredItemModel,
};
use crate::round_trip::{lemma_member2, lemma_member3, lemma_names_differ};
use crate::text::decimal_text;
use crate::types::{AdaptedRolloutItemModel, EventMetadataModel, IgnoredRolloutItem};

verus! {

/// The record of the event that an adapted record became.
pub open spec fn recorded(adapted: Adapted<AdaptedRolloutItemModel>) -> ContextEventPayloadModel {
    adapted->Ok_0->Event_0.payload
}

/// Whether a record became an event of the given identity.
pub open spec fn became_event(
    adapted: Adapted<AdaptedRolloutItemModel>,
    metadata: EventMetadataModel,
) -> bool {
    &&& adapted is Ok
    &&& adapted->Ok_0 is Event
    &&& adapted->Ok_0->Event_0.id == metadata.event_id
    &&& adapted->Ok_0->Event_0.conversation_id == metadata.conversation_id
    &&& adapted->Ok_0->Event_0.turn_id == metadata.turn_id
    &&& adapted->Ok_0->Event_0.sequence == metadata.sequence
}

// ---------------------------------------------------------------------------------------------
// Messages between agents

/// A message between agents that is not encrypted is taken over as it was said: its text is the
/// only content, its author and all its recipients in order are on the route, and it triggers a
/// turn exactly if it was meant to. Sent on, it is a message between agents with that text.
pub proof fn law_communications_are_taken_over(
    lineage: ProviderLineageModel,
    resolve: Resolution,
    metadata: EventMetadataModel,
    communication: InterAgentCommunicationModel,
    encoded: EncodedItemModel,
)
    requires
        communication.encrypted_content is None,
    ensures
        ({
            let adapted = adapted_rollout(
                lineage,
                resolve,
                metadata,
                RolloutItemModel::InterAgentCommunication { communication, encoded },
            );
            let message = recorded(adapted)->Message_0;
            &&& became_event(adapted, metadata)
            &&& recorded(adapted) is Message
            &&& message.content == seq![ContentPartModel::Text { text: communication.content }]
            &&& message.route is Some
            &&& message.route->0.author == communication.author
            &&& message.route->0.recipients.len() == communication.other_recipients.len() + 1
            &&& message.route->0.recipients[0] == communication.recipient
            &&& forall|i: int|
                0 <= i < communication.other_recipients.len()
                    ==> #[trigger] communication.other_recipients[i]
                    == message.route->0.recipients[i + 1]
            &&& message.route->0.delivery == Some(MessageDelivery::TriggerTurn)
                <==> communication.trigger_turn
            &&& message.route->0.delivery == Some(MessageDelivery::QueueOnly)
                <==> !communication.trigger_turn
            &&& message.role == MessageRole::Assistant
            &&& message.visibility == MessageVisibility::ModelOnly
            &&& message.phase == Some(MessagePhase::Commentary)
            &&& message_input_of(None, metadata.event_id, message) == Ok::<
                ResponseItemModel,
                CodexAdapterErrorModel,
            >(
                ResponseItemModel::AgentMessage {
                    id: None,
                    author: communication.author,
                    recipient: communication.recipient,
                    content: seq![
                        AgentMessageInputContentModel::InputText { text: communication.content },
                    ],
                    internal_chat_message_metadata_passthrough: None,
                },
            )
        }),
{
    let content = seq![ContentPartModel::Text { text: communication.content }];
    reveal_with_fuel(collected, 2);
    assert(content.drop_last() =~= Seq::empty());
    assert(Seq::<AgentMessageInputContentModel>::empty().push(
        AgentMessageInputContentModel::InputText { text: communication.content },
    ) =~= seq![AgentMessageInputContentModel::InputText { text: communication.content }]);
}

/// An encrypted message between agents is kept as the bytes that were serialized, for its lineage
/// alone, under its id or else under the event's.
pub proof fn law_encrypted_communications_stay_sealed(
    lineage: ProviderLineageModel,
    resolve: Resolution,
    metadata: EventMetadataModel,
    communication: InterAgentCommunicationModel,
    bytes: Seq<u8>,
    error: Seq<char>,
)
    requires
        communication.encrypted_content is Some,
    ensures
        ({
            let adapted = adapted_rollout(
                lineage,
                resolve,
                metadata,
                RolloutItemModel::InterAgentCommunication {
                    communication,
                    encoded: EncodedItemModel::Bytes(bytes),
                },
            );
            let opaque = recorded(adapted)->ProviderOpaque_0;
            &&& became_event(adapted, metadata)
            &&& recorded(adapted) is ProviderOpaque
            &&& opaque.payload == bytes
            &&& opaque.lineage == lineage
            &&& opaque.kind == "codex.inter_agent_communication"@
            &&& communication.id is Some ==> opaque.provider_item_id == communication.id->0
            &&& communication.id is None ==> opaque.provider_item_id == metadata.event_id
        }),
        adapted_rollout(
            lineage,
            resolve,
            metadata,
            RolloutItemModel::InterAgentCommunication {
                communication,
                encoded: EncodedItemModel::Failed(error),
            },
        ) == Err::<AdaptedRolloutItemModel, CodexAdapterErrorModel>(
            CodexAdapterErrorModel::ProviderJson {
                operation: "serialize opaque rollout item"@,
                message: error,
            },
        ),
{
}

/// Plain text from one agent to another keeps its parts in order, its author and its recipient,
/// and is shown to the model alone.
pub proof fn law_agent_messages_are_taken_over(
    lineage: ProviderLineageModel,
    resolve: Resolution,
    metadata: EventMetadataModel,
    wired: WiredItemModel,
    raw: Option<RawItemModel>,
)
    requires
        wired.item is AgentMessage,
        forall|i: int|
            0 <= i < wired.item->AgentMessage_content.len()
                ==> #[trigger] wired.item->AgentMessage_content[i] is InputText,
    ensures
        ({
            let adapted = adapted_response(lineage, resolve, metadata, wired, raw);
            let message = recorded(adapted)->Message_0;
            let content = wired.item->AgentMessage_content;
            &&& became_event(adapted, metadata)
            &&& recorded(adapted) is Message
            &&& message.content.len() == content.len()
            &&& forall|i: int|
                0 <= i < content.len() ==> #[trigger] message.content[i] == (
                ContentPartModel::Text { text: content[i]->InputText_text })
            &&& message.route is Some
            &&& message.route->0.author == wired.item->AgentMessage_author
            &&& message.route->0.recipients == seq![wired.item->AgentMessage_recipient]
            &&& message.route->0.delivery is None
            &&& message.role == MessageRole::Assistant
            &&& message.visibility == MessageVisibility::ModelOnly
            &&& message.phase == Some(MessagePhase::Commentary)
        }),
{
}

// ---------------------------------------------------------------------------------------------
// Messages

/// The role names, each with its role and whether the transcript shows what it says.
pub open spec fn known_role(name: Seq<char>, role: MessageRole) -> bool {
    match role {
        MessageRole::User => name == "user"@,
        MessageRole::Assistant => name == "assistant"@,
        MessageRole::Developer => name == "developer"@,
        MessageRole::System => name == "system"@,
    }
}

/// Whether the text of a message is written as its role writes it: the assistant's as output,
/// everybody else's as input.
pub open spec fn written_as(role: MessageRole, content: Seq<ContentItemModel>) -> bool {
    forall|i: int|
        0 <= i < content.len() ==> {
            &&& #[trigger] content[i] is OutputText ==> role == MessageRole::Assistant
            &&& content[i] is InputText ==> role != MessageRole::Assistant
        }
}

/// Whether a part stands for a content item: the same text, or the attachment that its media was
/// resolved to, of its kind and with its detail.
pub open spec fn stands_for(
    resolve: Resolution,
    part: ContentPartModel,
    item: ContentItemModel,
) -> bool {
    match item {
        ContentItemModel::InputText { text } => part == (ContentPartModel::Text { text }),
        ContentItemModel::OutputText { text } => part == (ContentPartModel::Text { text }),
        ContentItemModel::InputImage { image_url, detail } => {
            let resolved = resolve(image_url, AttachmentKind::Image);
            &&& resolved is Some
            &&& part == (ContentPartModel::Attachment {
                attachment_id: resolved->0.attachment_id,
                media_type: resolved->0.media_type,
                kind: AttachmentKind::Image,
                image_detail: detail,
            })
        },
        ContentItemModel::InputAudio { audio_url } => {
            let resolved = resolve(audio_url, AttachmentKind::Audio);
            &&& resolved is Some
            &&& part == (ContentPartModel::Attachment {
                attachment_id: resolved->0.attachment_id,
                media_type: resolved->0.media_type,
                kind: AttachmentKind::Audio,
                image_detail: None,
            })
        },
    }
}

/// Whether a content item can be taken over: text always, media where it is resolved to a named
/// attachment with a type.
pub open spec fn can_be_taken(resolve: Resolution, item: ContentItemModel) -> bool {
    match item {
        ContentItemModel::InputText { .. } | ContentItemModel::OutputText { .. } => true,
        ContentItemModel::InputImage { image_url, .. } => {
            let resolved = resolve(image_url, AttachmentKind::Image);
            resolved is Some && resolved->0.attachment_id.len() > 0 && resolved->0.media_type.len()
                > 0
        },
        ContentItemModel::InputAudio { audio_url } => {
            let resolved = resolve(audio_url, AttachmentKind::Audio);
            resolved is Some && resolved->0.attachment_id.len() > 0 && resolved->0.media_type.len()
                > 0
        },
    }
}

/// The role names stand for their roles, and no other name stands for one.
pub proof fn law_role_names(name: Seq<char>)
    ensures
        role_of("user"@) == Ok::<MessageRole, CodexAdapterErrorModel>(MessageRole::User),
        role_of("assistant"@) == Ok::<MessageRole, CodexAdapterErrorModel>(MessageRole::Assistant),
        role_of("developer"@) == Ok::<MessageRole, CodexAdapterErrorModel>(MessageRole::Developer),
        role_of("system"@) == Ok::<MessageRole, CodexAdapterErrorModel>(MessageRole::System),
        name != "user"@ && name != "assistant"@ && name != "developer"@ && name != "system"@
            ==> role_of(name) == Err::<MessageRole, CodexAdapterErrorModel>(
            CodexAdapterErrorModel::UnsupportedRole { role: name },
        ),
{
    reveal_strlit("user");
    reveal_strlit("assistant");
    reveal_strlit("developer");
    reveal_strlit("system");
    assert("user"@.len() == 4);
    assert("assistant"@[0] == 'a');
    assert("developer"@[0] == 'd');
    assert("system"@.len() == 6);
    assert("assistant"@.len() == 9);
    assert("developer"@.len() == 9);
}

proof fn lemma_all_taken(resolve: Resolution, content: Seq<ContentItemModel>)
    requires
        forall|i: int| 0 <= i < content.len() ==> can_be_taken(resolve, #[trigger] content[i]),
    ensures
        collected(content, |item: ContentItemModel| content_part_of(resolve, item)) is Ok,
    decreases content.len(),
{
    if content.len() > 0 {
        let front = content.drop_last();
        assert forall|i: int| 0 <= i < front.len() implies can_be_taken(
            resolve,
            #[trigger] front[i],
        ) by {
            assert(front[i] == content[i]);
        }
        lemma_all_taken(resolve, front);
        assert(can_be_taken(resolve, content[content.len() - 1]));
    }
}

/// A message in the shape of its role is taken over with its role, its phase and all its parts in
/// order. The transcript shows it exactly if the user or the assistant said it.
pub proof fn law_messages_are_taken_over(
    lineage: ProviderLineageModel,
    resolve: Resolution,
    metadata: EventMetadataModel,
    wired: WiredItemModel,
    raw: Option<RawItemModel>,
    role: MessageRole,
)
    requires
        wired.item is Message,
        known_role(wired.item->Message_role, role),
        written_as(role, wired.item->Message_content),
        forall|i: int|
            0 <= i < wired.item->Message_content.len() ==> can_be_taken(
                resolve,
                #[trigger] wired.item->Message_content[i],
            ),
    ensures
        ({
            let adapted = adapted_response(lineage, resolve, metadata, wired, raw);
            let message = recorded(adapted)->Message_0;
            let content = wired.item->Message_content;
            &&& became_event(adapted, metadata)
            &&& recorded(adapted) is Message
            &&& message.role == role
            &&& message.phase == wired.item->Message_phase
            &&& message.route is None
            &&& message.visibility == if role == MessageRole::User || role
                == MessageRole::Assistant {
                MessageVisibility::TranscriptAndModel
            } else {
                MessageVisibility::ModelOnly
            }
            &&& message.content.len() == content.len()
            &&& forall|i: int|
                0 <= i < content.len() ==> stands_for(
                    resolve,
                    #[trigger] message.content[i],
                    content[i],
                )
        }),
{
    let content = wired.item->Message_content;
    law_role_names(wired.item->Message_role);
    assert forall|i: int| 0 <= i < content.len() implies crate::adapter::canonical_part(
        role,
        #[trigger] content[i],
    ) by {}
    let f = |item: ContentItemModel| content_part_of(resolve, item);
    lemma_all_taken(resolve, content);
    lemma_collected_ok(content, f);
    let parts = collected(content, f)->Ok_0;
    assert forall|i: int| 0 <= i < content.len() implies stands_for(
        resolve,
        #[trigger] parts[i],
        content[i],
    ) by {
        assert(f(content[i]) == Ok::<ContentPartModel, CodexAdapterErrorModel>(parts[i]));
        assert(can_be_taken(resolve, content[i]));
    }
}

/// Media that cannot be resolved keeps its message out, with the reason of the first such part.
pub proof fn law_unresolved_media_is_refused(
    lineage: ProviderLineageModel,
    resolve: Resolution,
    metadata: EventMetadataModel,
    wired: WiredItemModel,
    raw: Option<RawItemModel>,
    role: MessageRole,
    i: int,
)
    requires
        wired.item is Message,
        known_role(wired.item->Message_role, role),
        written_as(role, wired.item->Message_content),
        0 <= i < wired.item->Message_content.len(),
        !can_be_taken(resolve, wired.item->Message_content[i]),
        forall|k: int|
            0 <= k < i ==> can_be_taken(resolve, #[trigger] wired.item->Message_content[k]),
    ensures
        adapted_response(lineage, resolve, metadata, wired, raw) is Err,
        adapted_response(lineage, resolve, metadata, wired, raw)->Err_0 == content_part_of(
            resolve,
            wired.item->Message_content[i],
        )->Err_0,
{
    let content = wired.item->Message_content;
    law_role_names(wired.item->Message_role);
    assert forall|k: int| 0 <= k < content.len() implies crate::adapter::canonical_part(
        role,
        #[trigger] content[k],
    ) by {}
    let f = |item: ContentItemModel| content_part_of(resolve, item);
    assert forall|k: int| 0 <= k < i implies f(#[trigger] content[k]) is Ok by {
        assert(can_be_taken(resolve, content[k]));
    }
    crate::text_laws::law_lists_are_worked_through(content, f, i);
}

/// Why media cannot be taken over.
pub proof fn law_media_problems_are_named(
    resolve: Resolution,
    url: Seq<char>,
    detail: Option<crate::context::ImageDetail>,
)
    ensures
        resolve(url, AttachmentKind::Image) is None ==> content_part_of(
            resolve,
            ContentItemModel::InputImage { image_url: url, detail },
        ) == Err::<ContentPartModel, CodexAdapterErrorModel>(
            CodexAdapterErrorModel::UnresolvedAttachment { kind: AttachmentKind::Image },
        ),
        resolve(url, AttachmentKind::Audio) is None ==> content_part_of(
            resolve,
            ContentItemModel::InputAudio { audio_url: url },
        ) == Err::<ContentPartModel, CodexAdapterErrorModel>(
            CodexAdapterErrorModel::UnresolvedAttachment { kind: AttachmentKind::Audio },
        ),
        resolve(url, AttachmentKind::Audio) matches Some(resolved) && resolved.attachment_id.len()
            == 0 ==> content_part_of(
            resolve,
            ContentItemModel::InputAudio { audio_url: url },
        ) == Err::<ContentPartModel, CodexAdapterErrorModel>(
            CodexAdapterErrorModel::EmptyAttachmentField { field: "attachment_id"@ },
        ),
        resolve(url, AttachmentKind::Audio) matches Some(resolved) && resolved.attachment_id.len()
            > 0 && resolved.media_type.len() == 0 ==> content_part_of(
            resolve,
            ContentItemModel::InputAudio { audio_url: url },
        ) == Err::<ContentPartModel, CodexAdapterErrorModel>(
            CodexAdapterErrorModel::EmptyAttachmentField { field: "media_type"@ },
        ),
        resolve(url, AttachmentKind::Image) matches Some(resolved) && resolved.attachment_id.len()
            == 0 ==> content_part_of(
            resolve,
            ContentItemModel::InputImage { image_url: url, detail },
        ) == Err::<ContentPartModel, CodexAdapterErrorModel>(
            CodexAdapterErrorModel::EmptyAttachmentField { field: "attachment_id"@ },
        ),
        resolve(url, AttachmentKind::Image) matches Some(resolved) && resolved.attachment_id.len()
            > 0 && resolved.media_type.len() == 0 ==> content_part_of(
            resolve,
            ContentItemModel::InputImage { image_url: url, detail },
        ) == Err::<ContentPartModel, CodexAdapterErrorModel>(
            CodexAdapterErrorModel::EmptyAttachmentField { field: "media_type"@ },
        ),
{
}

/// A message in another shape than its role's, or between agents and not plain, is kept whole as a
/// provider record, and a message of an unknown role is refused.
pub proof fn law_other_messages_stay_whole(
    lineage: ProviderLineageModel,
    resolve: Resolution,
    metadata: EventMetadataModel,
    wired: WiredItemModel,
    raw: Option<RawItemModel>,
    role: MessageRole,
)
    requires
        adapted_response(lineage, resolve, metadata, wired, raw) is Ok,
    ensures
        wired.item is Message && known_role(wired.item->Message_role, role) && !written_as(
            role,
            wired.item->Message_content,
        ) ==> recorded(adapted_response(lineage, resolve, metadata, wired, raw)) is ProviderOpaque,
        wired.item is AgentMessage && (exists|i: int|
            0 <= i < wired.item->AgentMessage_content.len() && !(
            #[trigger] wired.item->AgentMessage_content[i] is InputText)) ==> recorded(
            adapted_response(lineage, resolve, metadata, wired, raw),
        ) is ProviderOpaque,
        wired.item is Message ==> wired.item->Message_role == "user"@ || wired.item->Message_role
            == "assistant"@ || wired.item->Message_role == "developer"@
            || wired.item->Message_role == "system"@,
{
    if wired.item is Message {
        law_role_names(wired.item->Message_role);
        if known_role(wired.item->Message_role, role) && !written_as(
            role,
            wired.item->Message_content,
        ) {
            lemma_not_canonical(wired.item, role);
        }
    }
}

/// A message of an unknown role is refused, and the role is told.
pub proof fn law_unknown_roles_are_refused(
    lineage: ProviderLineageModel,
    resolve: Resolution,
    metadata: EventMetadataModel,
    wired: WiredItemModel,
    raw: Option<RawItemModel>,
)
    requires
        wired.item is Message,
        wired.item->Message_role != "user"@,
        wired.item->Message_role != "assistant"@,
        wired.item->Message_role != "developer"@,
        wired.item->Message_role != "system"@,
    ensures
        adapted_response(lineage, resolve, metadata, wired, raw) == Err::<
            AdaptedRolloutItemModel,
            CodexAdapterErrorModel,
        >(CodexAdapterErrorModel::UnsupportedRole { role: wired.item->Message_role }),
{
}

// ---------------------------------------------------------------------------------------------
// Tools

/// The record of a call names the call and its tool, is requested, and holds the arguments.
pub proof fn law_calls_are_recorded(
    lineage: ProviderLineageModel,
    resolve: Resolution,
    metadata: EventMetadataModel,
    wired: WiredItemModel,
    raw: Option<RawItemModel>,
)
    requires
        wired.item is FunctionCall || wired.item is CustomToolCall,
    ensures
        ({
            let adapted = adapted_response(lineage, resolve, metadata, wired, raw);
            let tool = recorded(adapted)->Tool_0;
            &&& became_event(adapted, metadata)
            &&& recorded(adapted) is Tool
            &&& tool.phase == ToolPhase::Requested
            &&& wired.item matches ResponseItemModel::FunctionCall {
                name,
                namespace,
                arguments,
                call_id,
                ..
            } ==> {
                &&& tool.call_id == call_id
                &&& tool.name == name
                &&& member_of(tool.data, "kind"@) == Some(JsonModel::Text("function"@))
                &&& member_of(tool.data, "arguments"@) == Some(JsonModel::Text(arguments))
                &&& member_of(tool.data, "namespace"@) == Some(
                    match namespace {
                        Some(namespace) => JsonModel::Text(namespace),
                        None => JsonModel::Null,
                    },
                )
            }
            &&& wired.item matches ResponseItemModel::CustomToolCall {
                name,
                namespace,
                input,
                call_id,
                ..
            } ==> {
                &&& tool.call_id == call_id
                &&& tool.name == name
                &&& member_of(tool.data, "kind"@) == Some(JsonModel::Text("custom"@))
                &&& member_of(tool.data, "input"@) == Some(JsonModel::Text(input))
                &&& member_of(tool.data, "namespace"@) == Some(
                    match namespace {
                        Some(namespace) => JsonModel::Text(namespace),
                        None => JsonModel::Null,
                    },
                )
            }
        }),
{
    lemma_names_differ();
    let tool = recorded(adapted_response(lineage, resolve, metadata, wired, raw))->Tool_0;
    let members = tool.data->Object_0;
    lemma_member3(members[0], members[1], members[2], "kind"@);
    lemma_member3(members[0], members[1], members[2], "namespace"@);
    lemma_member3(members[0], members[1], members[2], "arguments"@);
    lemma_member3(members[0], members[1], members[2], "input"@);
    assert(members =~= seq![members[0], members[1], members[2]]);
}

/// The record of an output names its call, is failed exactly if the output says that it failed,
/// and holds the output and whether it succeeded.
pub proof fn law_outputs_are_recorded(
    lineage: ProviderLineageModel,
    resolve: Resolution,
    metadata: EventMetadataModel,
    wired: WiredItemModel,
    raw: Option<RawItemModel>,
)
    requires
        wired.item is FunctionCallOutput || wired.item is CustomToolCallOutput,
    ensures
        ({
            let adapted = adapted_response(lineage, resolve, metadata, wired, raw);
            let tool = recorded(adapted)->Tool_0;
            let (call_id, output) = if wired.item is FunctionCallOutput {
                (wired.item->FunctionCallOutput_call_id, wired.item->FunctionCallOutput_output)
            } else {
                (wired.item->CustomToolCallOutput_call_id, wired.item->CustomToolCallOutput_output)
            };
            &&& became_event(adapted, metadata)
            &&& recorded(adapted) is Tool
            &&& tool.call_id == call_id
            &&& tool.phase == ToolPhase::Failed <==> output.success == Some(false)
            &&& tool.phase == ToolPhase::Completed <==> output.success != Some(false)
            &&& member_of(tool.data, "output"@) == Some(
                match output.body {
                    FunctionCallOutputBodyModel::Text(text) => JsonModel::Text(text),
                    FunctionCallOutputBodyModel::ContentItems(items) => items,
                },
            )
            &&& member_of(tool.data, "success"@) == Some(
                match output.success {
                    Some(success) => JsonModel::Bool(success),
                    None => JsonModel::Null,
                },
            )
            &&& member_of(tool.data, "kind"@) == Some(
                JsonModel::Text(
                    if wired.item is FunctionCallOutput {
                        "function"@
                    } else {
                        "custom"@
                    },
                ),
            )
            &&& wired.item is FunctionCallOutput ==> tool.name == "function_call"@
            &&& wired.item is CustomToolCallOutput ==> tool.name
                == match wired.item->CustomToolCallOutput_name {
                Some(name) => name,
                None => "custom_tool"@,
            }
        }),
{
    lemma_names_differ();
    let tool = recorded(adapted_response(lineage, resolve, metadata, wired, raw))->Tool_0;
    let members = tool.data->Object_0;
    lemma_member3(members[0], members[1], members[2], "kind"@);
    lemma_member3(members[0], members[1], members[2], "output"@);
    lemma_member3(members[0], members[1], members[2], "success"@);
    assert(members =~= seq![members[0], members[1], members[2]]);
}

/// The record of a shell call is named by its call id or else by its provider id, is in the phase
/// of its status, and holds its action. Without either id the call is refused.
pub proof fn law_shell_calls_are_recorded(
    lineage: ProviderLineageModel,
    resolve: Resolution,
    metadata: EventMetadataModel,
    wired: WiredItemModel,
    raw: Option<RawItemModel>,
)
    requires
        wired.item is LocalShellCall,
    ensures
        ({
            let adapted = adapted_response(lineage, resolve, metadata, wired, raw);
            let tool = recorded(adapted)->Tool_0;
            let id = wired.item->LocalShellCall_id;
            let call_id = wired.item->LocalShellCall_call_id;
            &&& call_id is None && id is None ==> adapted == Err::<
                AdaptedRolloutItemModel,
                CodexAdapterErrorModel,
            >(CodexAdapterErrorModel::MissingCallId { kind: "local_shell_call"@ })
            &&& call_id is Some || id is Some ==> {
                &&& became_event(adapted, metadata)
                &&& recorded(adapted) is Tool
                &&& call_id is Some ==> tool.call_id == call_id->0
                &&& call_id is None ==> tool.call_id == id->0
                &&& tool.name == "local_shell"@
                &&& tool.phase == match wired.item->LocalShellCall_status {
                    LocalShellStatus::InProgress => ToolPhase::Requested,
                    LocalShellStatus::Completed => ToolPhase::Completed,
                    LocalShellStatus::Incomplete => ToolPhase::Failed,
                }
                &&& member_of(tool.data, "action"@) == Some(wired.item->LocalShellCall_action)
                &&& member_of(tool.data, "kind"@) == Some(JsonModel::Text("local_shell"@))
            }
        }),
{
    lemma_names_differ();
    if wired.item->LocalShellCall_call_id is Some || wired.item->LocalShellCall_id is Some {
        let tool = recorded(adapted_response(lineage, resolve, metadata, wired, raw))->Tool_0;
        let members = tool.data->Object_0;
        lemma_member2(members[0], members[1], "kind"@);
        lemma_member2(members[0], members[1], "action"@);
        assert(members =~= seq![members[0], members[1]]);
    }
}

// ---------------------------------------------------------------------------------------------
// Provider records

/// Whether an item is only ever kept as a provider record.
pub open spec fn is_provider_item(item: ResponseItemModel) -> bool {
    item is AdditionalTools || item is Reasoning || item is ToolSearchCall
        || item is ToolSearchOutput || item is WebSearchCall || item is ImageGenerationCall
        || item is Compaction || item is ContextCompaction || item is Other
}

/// Whether an item is kept whole as a provider record: it is only ever kept so, or it is a message
/// in another shape than its role's or not in plain text.
pub open spec fn is_kept_whole(item: ResponseItemModel, role: MessageRole) -> bool {
    ||| is_provider_item(item)
    ||| item is Message && known_role(item->Message_role, role) && !written_as(
        role,
        item->Message_content,
    )
    ||| item is AgentMessage && exists|i: int|
        0 <= i < item->AgentMessage_content.len() && !(
        #[trigger] item->AgentMessage_content[i] is InputText)
}

proof fn lemma_not_canonical(item: ResponseItemModel, role: MessageRole)
    requires
        item is Message,
        known_role(item->Message_role, role),
        !written_as(role, item->Message_content),
    ensures
        role_of(item->Message_role) == Ok::<MessageRole, CodexAdapterErrorModel>(role),
        !canonical_content(role, item->Message_content),
{
    law_role_names(item->Message_role);
    let content = item->Message_content;
    let i = choose|i: int|
        0 <= i < content.len() && !({
            &&& #[trigger] content[i] is OutputText ==> role == MessageRole::Assistant
            &&& content[i] is InputText ==> role != MessageRole::Assistant
        });
    assert(!crate::adapter::canonical_part(role, content[i]));
}

/// A provider item whose original JSON is known and decodes to it is kept as exactly those bytes,
/// for its lineage alone, under its id or else under the event's. JSON of another item is refused.
pub proof fn law_provider_items_keep_their_bytes(
    lineage: ProviderLineageModel,
    resolve: Resolution,
    metadata: EventMetadataModel,
    wired: WiredItemModel,
    raw: RawItemModel,
    role: MessageRole,
)
    requires
        is_kept_whole(wired.item, role),
    ensures
        ({
            let adapted = adapted_response(lineage, resolve, metadata, wired, Some(raw));
            let opaque = recorded(adapted)->ProviderOpaque_0;
            &&& raw.decoded == DecodedItemModel::Item(wired.item) ==> {
                &&& became_event(adapted, metadata)
                &&& recorded(adapted) is ProviderOpaque
                &&& opaque.payload == raw.bytes
                &&& opaque.lineage == lineage
                &&& opaque.kind == opaque_kind_of(wired.item)
                &&& id_of(wired.item) is Some ==> opaque.provider_item_id == id_of(wired.item)->0
                &&& id_of(wired.item) is None ==> opaque.provider_item_id == metadata.event_id
            }
            &&& raw.decoded is Item && raw.decoded->Item_0 != wired.item ==> adapted == Err::<
                AdaptedRolloutItemModel,
                CodexAdapterErrorModel,
            >(CodexAdapterErrorModel::RawPayloadMismatch)
            &&& raw.decoded is Failed ==> adapted == Err::<
                AdaptedRolloutItemModel,
                CodexAdapterErrorModel,
            >(
                CodexAdapterErrorModel::ProviderJson {
                    operation: "decode raw response item"@,
                    message: raw.decoded->Failed_0,
                },
            )
        }),
{
    if wired.item is Message {
        lemma_not_canonical(wired.item, role);
    }
}

/// The kinds of provider records.
pub proof fn law_provider_kinds(item: ResponseItemModel)
    ensures
        item is AdditionalTools ==> opaque_kind_of(item) == "codex.additional_tools"@,
        item is Message ==> opaque_kind_of(item) == "codex.message"@,
        item is AgentMessage ==> opaque_kind_of(item) == "codex.agent_message.encrypted"@,
        item is Reasoning ==> opaque_kind_of(item) == "codex.reasoning"@,
        item is ToolSearchCall ==> opaque_kind_of(item) == "codex.tool_search_call"@,
        item is ToolSearchOutput ==> opaque_kind_of(item) == "codex.tool_search_output"@,
        item is WebSearchCall ==> opaque_kind_of(item) == "codex.web_search_call"@,
        item is ImageGenerationCall ==> opaque_kind_of(item) == "codex.image_generation_call"@,
        item is Compaction ==> opaque_kind_of(item) == "codex.compaction"@,
        item is ContextCompaction ==> opaque_kind_of(item) == "codex.context_compaction"@,
        item is Other ==> opaque_kind_of(item) == "codex.unknown_response_item"@,
{
}

/// A provider item without its original JSON is kept as what the serializer wrote, provided that
/// this decodes to what the serializer takes of the item. An unknown item is refused, and so is
/// one that cannot be written or read again.
pub proof fn law_provider_items_are_serialized(
    lineage: ProviderLineageModel,
    resolve: Resolution,
    metadata: EventMetadataModel,
    wired: WiredItemModel,
    role: MessageRole,
)
    requires
        is_kept_whole(wired.item, role),
    ensures
        ({
            let adapted = adapted_response(lineage, resolve, metadata, wired, None);
            let opaque = recorded(adapted)->ProviderOpaque_0;
            let known = !(wired.item is Other);
            let written = wired.encoded is Bytes;
            let read = wired.reading.response;
            let same = read is Item && read->Item_0 == serialization_view_of(wired.item);
            &&& known && written && same ==> {
                &&& became_event(adapted, metadata)
                &&& recorded(adapted) is ProviderOpaque
                &&& opaque.payload == wired.encoded->Bytes_0
                &&& opaque.lineage == lineage
                &&& opaque.kind == opaque_kind_of(wired.item)
                &&& id_of(wired.item) is Some ==> opaque.provider_item_id == id_of(wired.item)->0
                &&& id_of(wired.item) is None ==> opaque.provider_item_id == metadata.event_id
            }
            &&& !known ==> adapted == Err::<AdaptedRolloutItemModel, CodexAdapterErrorModel>(
                CodexAdapterErrorModel::RawPayloadRequired {
                    kind: "codex.unknown_response_item"@,
                },
            )
            &&& known && !written ==> adapted == Err::<
                AdaptedRolloutItemModel,
                CodexAdapterErrorModel,
            >(
                CodexAdapterErrorModel::ProviderJson {
                    operation: "serialize response item"@,
                    message: wired.encoded->Failed_0,
                },
            )
            &&& known && written && read is Failed ==> adapted == Err::<
                AdaptedRolloutItemModel,
                CodexAdapterErrorModel,
            >(
                CodexAdapterErrorModel::ProviderJson {
                    operation: "verify response item"@,
                    message: read->Failed_0,
                },
            )
            &&& known && written && read is Item && !same ==> adapted == Err::<
                AdaptedRolloutItemModel,
                CodexAdapterErrorModel,
            >(CodexAdapterErrorModel::RawPayloadRequired { kind: opaque_kind_of(wired.item) })
        }),
{
    if wired.item is Message {
        lemma_not_canonical(wired.item, role);
    }
}

// ---------------------------------------------------------------------------------------------
// Compactions and other records

/// A compaction becomes a checkpoint that replaces everything before its event, under the window's
/// id or else the event's. Where only a summary is known, the summary is what replaces.
pub proof fn law_compactions_become_checkpoints(
    lineage: ProviderLineageModel,
    resolve: Resolution,
    metadata: EventMetadataModel,
    compacted: CompactedItemModel,
)
    ensures
        ({
            let adapted = adapted_rollout(
                lineage,
                resolve,
                metadata,
                RolloutItemModel::Compacted(compacted),
            );
            let checkpoint = recorded(adapted)->Compaction_0;
            &&& metadata.sequence == 0 ==> adapted == Err::<
                AdaptedRolloutItemModel,
                CodexAdapterErrorModel,
            >(CodexAdapterErrorModel::InvalidCompactionSequence)
            &&& adapted is Ok ==> {
                &&& became_event(adapted, metadata)
                &&& recorded(adapted) is Compaction
                &&& checkpoint.through_sequence + 1 == metadata.sequence
                &&& checkpoint.conversation_id == metadata.conversation_id
                &&& compacted.window_id is Some ==> checkpoint.id == compacted.window_id->0
                &&& compacted.window_id is None ==> checkpoint.id == metadata.event_id
            }
            &&& metadata.sequence > 0 && compacted.replacement_history is None ==> {
                &&& adapted is Ok
                &&& checkpoint.replacement.len() == 1
                &&& checkpoint.lineage is None
                &&& checkpoint.mode == CompactionMode::Semantic
                &&& checkpoint.replacement[0].id == metadata.event_id + ":summary"@
                &&& checkpoint.replacement[0].source_sequence is None
                &&& checkpoint.replacement[0].payload is Message
                &&& checkpoint.replacement[0].payload->Message_0.content == seq![
                    ContentPartModel::Text { text: compacted.message },
                ]
                &&& checkpoint.replacement[0].payload->Message_0.role == MessageRole::Assistant
                &&& checkpoint.replacement[0].payload->Message_0.visibility
                    == MessageVisibility::ModelOnly
            }
        }),
{
}

/// The replacement history becomes the replacement item by item, in order: each item is the record
/// that the item would become in the journal, request controls are left out, and one item that
/// cannot be taken over keeps the whole out.
pub proof fn law_replacements_are_taken_over(
    lineage: ProviderLineageModel,
    resolve: Resolution,
    metadata: EventMetadataModel,
    compacted: CompactedItemModel,
    last: WiredItemModel,
)
    requires
        metadata.sequence > 0,
        compacted.replacement_history is Some,
    ensures
        ({
            let history = compacted.replacement_history->0;
            let longer = CompactedItemModel {
                replacement_history: Some(history.push(last)),
                ..compacted
            };
            let before = adapted_rollout(
                lineage,
                resolve,
                metadata,
                RolloutItemModel::Compacted(compacted),
            );
            let after = adapted_rollout(
                lineage,
                resolve,
                metadata,
                RolloutItemModel::Compacted(longer),
            );
            let id = metadata.event_id + ":replacement:"@ + decimal_text(history.len());
            let record = adapted_response(
                lineage,
                resolve,
                EventMetadataModel { event_id: id, ..metadata },
                last,
                None,
            );
            let old_items = recorded(before)->Compaction_0.replacement;
            let new_items = recorded(after)->Compaction_0.replacement;
            &&& before is Err ==> after == before
            &&& before is Ok && record is Err ==> after is Err && after->Err_0 == record->Err_0
            &&& before is Ok && record is Ok && record->Ok_0 is Ignored ==> after is Ok && new_items
                == old_items
            &&& before is Ok && record is Ok && record->Ok_0 is Event ==> {
                &&& after is Ok
                &&& new_items.len() == old_items.len() + 1
                &&& new_items.drop_last() == old_items
                &&& new_items.last().source_sequence is None
                &&& recorded(record) is Message ==> new_items.last().id == id
                    && new_items.last().payload == ModelContextPayloadModel::Message(
                    recorded(record)->Message_0,
                )
                &&& recorded(record) is Tool ==> new_items.last().id == id
                    && new_items.last().payload == ModelContextPayloadModel::Tool(
                    recorded(record)->Tool_0,
                )
                &&& recorded(record) is ProviderOpaque ==> new_items.last().payload
                    == ModelContextPayloadModel::ProviderOpaque(recorded(record)->ProviderOpaque_0)
                    && new_items.last().id == recorded(record)->ProviderOpaque_0.provider_item_id
            }
            &&& history.len() == 0 ==> before is Ok && old_items.len() == 0
        }),
{
    let history = compacted.replacement_history->0;
    let all = history.push(last);
    assert(all.drop_last() =~= history);
    let front = replacement_items(lineage, resolve, metadata.event_id, history);
    if let Ok(items) = front {
        assert forall|item: ModelContextItemModel| items.push(item).drop_last() == items by {
            assert(items.push(item).drop_last() =~= items);
        }
    }
}

/// A checkpoint is bound to the lineage exactly if one of its items is a provider record.
pub proof fn law_native_checkpoints_are_bound(
    lineage: ProviderLineageModel,
    resolve: Resolution,
    metadata: EventMetadataModel,
    compacted: CompactedItemModel,
)
    requires
        adapted_rollout(lineage, resolve, metadata, RolloutItemModel::Compacted(compacted)) is Ok,
    ensures
        ({
            let checkpoint = recorded(
                adapted_rollout(lineage, resolve, metadata, RolloutItemModel::Compacted(compacted)),
            )->Compaction_0;
            let native = exists|i: int|
                0 <= i < checkpoint.replacement.len() && (
                #[trigger] checkpoint.replacement[i]).payload is ProviderOpaque;
            &&& native ==> checkpoint.lineage == Some(lineage) && checkpoint.mode
                == CompactionMode::ProviderNative
            &&& !native ==> checkpoint.lineage is None && checkpoint.mode
                == CompactionMode::Semantic
        }),
{
}

/// Request controls and bookkeeping become no event, each with its reason. A response item of the
/// rollout becomes what it becomes by itself.
pub proof fn law_other_records(
    lineage: ProviderLineageModel,
    resolve: Resolution,
    metadata: EventMetadataModel,
    wired: WiredItemModel,
    item: RolloutItemModel,
)
    ensures
        wired.item is CompactionTrigger ==> adapted_response(
            lineage,
            resolve,
            metadata,
            wired,
            None,
        ) == Ok::<AdaptedRolloutItemModel, CodexAdapterErrorModel>(
            AdaptedRolloutItemModel::Ignored(IgnoredRolloutItem::RequestControl),
        ),
        adapted_rollout(lineage, resolve, metadata, RolloutItemModel::ResponseItem(wired))
            == adapted_response(lineage, resolve, metadata, wired, None),
        ({
            let adapted = adapted_rollout(lineage, resolve, metadata, item);
            let reason = match item {
                RolloutItemModel::SessionMeta => Some(IgnoredRolloutItem::SessionMetadata),
                RolloutItemModel::InterAgentCommunicationMetadata => Some(
                    IgnoredRolloutItem::DeliveryMetadata,
                ),
                RolloutItemModel::TurnContext => Some(IgnoredRolloutItem::TurnReferenceContext),
                RolloutItemModel::WorldState => Some(IgnoredRolloutItem::WorldState),
                RolloutItemModel::EventMsg => Some(IgnoredRolloutItem::PresentationEvent),
                RolloutItemModel::ResponseItem(_) => None,
                RolloutItemModel::InterAgentCommunication { .. } => None,
                RolloutItemModel::Compacted(_) => None,
                _ => Some(IgnoredRolloutItem::RemoteExecutionPersistence),
            };
            reason is Some ==> adapted == Ok::<AdaptedRolloutItemModel, CodexAdapterErrorModel>(
                AdaptedRolloutItemModel::Ignored(reason->0),
            )
        }),
{
}

} // verus!
