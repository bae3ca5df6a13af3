//! The plain mappings between provider records and the neutral contract.
use vstd::prelude::*;

use crate::context::{
    ContextEventPayload, ContextEventPayloadModel, MessageRole, ModelContextItem,
    ModelContextItemModel, ModelContextPayload, ModelContextPayloadModel, ToolPhase,
};
use crate::error::{CodexAdapterError, CodexAdapterErrorModel};
use crate::lists::outcome;
use crate::model::Modeled;
use crate::protocol::{
    InternalChatMessageMetadata, InternalChatMessageMetadataModel, ReasoningItemContent,
    ReasoningItemContentModel, ResponseItem, ResponseItemModel,
};
use crate::text::same_text;

verus! {

// ---------------------------------------------------------------------------------------------
// The transport envelope of an item

/// The provider's id of an item.
pub open spec fn id_of(item: ResponseItemModel) -> Option<Seq<char>> {
    match item {
        ResponseItemModel::AdditionalTools { id, .. } => id,
        ResponseItemModel::Message { id, .. } => id,
        ResponseItemModel::AgentMessage { id, .. } => id,
        ResponseItemModel::Reasoning { id, .. } => id,
        ResponseItemModel::LocalShellCall { id, .. } => id,
        ResponseItemModel::FunctionCall { id, .. } => id,
        ResponseItemModel::ToolSearchCall { id, .. } => id,
        ResponseItemModel::FunctionCallOutput { id, .. } => id,
        ResponseItemModel::CustomToolCall { id, .. } => id,
        ResponseItemModel::CustomToolCallOutput { id, .. } => id,
        ResponseItemModel::ToolSearchOutput { id, .. } => id,
        ResponseItemModel::WebSearchCall { id, .. } => id,
        ResponseItemModel::ImageGenerationCall { id, .. } => id,
        ResponseItemModel::Compaction { id, .. } => id,
        ResponseItemModel::ContextCompaction { id, .. } => id,
        ResponseItemModel::CompactionTrigger => None,
        ResponseItemModel::Other => None,
    }
}

/// The transport metadata of an item.
pub open spec fn metadata_of(item: ResponseItemModel) -> Option<InternalChatMessageMetadataModel> {
    match item {
        ResponseItemModel::AdditionalTools { internal_chat_message_metadata_passthrough, .. } => {
            internal_chat_message_metadata_passthrough
        },
        ResponseItemModel::Message { internal_chat_message_metadata_passthrough, .. } => {
            internal_chat_message_metadata_passthrough
        },
        ResponseItemModel::AgentMessage { internal_chat_message_metadata_passthrough, .. } => {
            internal_chat_message_metadata_passthrough
        },
        ResponseItemModel::Reasoning { internal_chat_message_metadata_passthrough, .. } => {
            internal_chat_message_metadata_passthrough
        },
        ResponseItemModel::LocalShellCall { internal_chat_message_metadata_passthrough, .. } => {
            internal_chat_message_metadata_passthrough
        },
        ResponseItemModel::FunctionCall { internal_chat_message_metadata_passthrough, .. } => {
            internal_chat_message_metadata_passthrough
        },
        ResponseItemModel::ToolSearchCall { internal_chat_message_metadata_passthrough, .. } => {
            internal_chat_message_metadata_passthrough
        },
        ResponseItemModel::FunctionCallOutput {
            internal_chat_message_metadata_passthrough,
            ..
        } => internal_chat_message_metadata_passthrough,
        ResponseItemModel::CustomToolCall { internal_chat_message_metadata_passthrough, .. } => {
            internal_chat_message_metadata_passthrough
        },
        ResponseItemModel::CustomToolCallOutput {
            internal_chat_message_metadata_passthrough,
            ..
        } => internal_chat_message_metadata_passthrough,
        ResponseItemModel::ToolSearchOutput { internal_chat_message_metadata_passthrough, .. } => {
            internal_chat_message_metadata_passthrough
        },
        ResponseItemModel::WebSearchCall { internal_chat_message_metadata_passthrough, .. } => {
            internal_chat_message_metadata_passthrough
        },
        ResponseItemModel::ImageGenerationCall {
            internal_chat_message_metadata_passthrough,
            ..
        } => internal_chat_message_metadata_passthrough,
        ResponseItemModel::Compaction { internal_chat_message_metadata_passthrough, .. } => {
            internal_chat_message_metadata_passthrough
        },
        ResponseItemModel::ContextCompaction {
            internal_chat_message_metadata_passthrough,
            ..
        } => internal_chat_message_metadata_passthrough,
        ResponseItemModel::CompactionTrigger => None,
        ResponseItemModel::Other => None,
    }
}

/// The turn to which an item belongs, where its metadata names one.
pub open spec fn turn_id_of(item: ResponseItemModel) -> Option<Seq<char>> {
    match metadata_of(item) {
        Some(metadata) => metadata.turn_id,
        None => None,
    }
}

/// The item under another provider id. Controls and unknown items have no id.
pub open spec fn with_id(item: ResponseItemModel, new_id: Option<Seq<char>>) -> ResponseItemModel {
    match item {
        ResponseItemModel::AdditionalTools {
            id,
            tools,
            body,
            internal_chat_message_metadata_passthrough,
        } => ResponseItemModel::AdditionalTools {
            id: new_id,
            tools,
            body,
            internal_chat_message_metadata_passthrough,
        },
        ResponseItemModel::Message {
            id,
            role,
            content,
            phase,
            internal_chat_message_metadata_passthrough,
        } => ResponseItemModel::Message {
            id: new_id,
            role,
            content,
            phase,
            internal_chat_message_metadata_passthrough,
        },
        ResponseItemModel::AgentMessage {
            id,
            author,
            recipient,
            content,
            internal_chat_message_metadata_passthrough,
        } => ResponseItemModel::AgentMessage {
            id: new_id,
            author,
            recipient,
            content,
            internal_chat_message_metadata_passthrough,
        },
        ResponseItemModel::Reasoning {
            id,
            summary,
            content,
            encrypted_content,
            internal_chat_message_metadata_passthrough,
        } => ResponseItemModel::Reasoning {
            id: new_id,
            summary,
            content,
            encrypted_content,
            internal_chat_message_metadata_passthrough,
        },
        ResponseItemModel::LocalShellCall {
            id,
            call_id,
            status,
            action,
            internal_chat_message_metadata_passthrough,
        } => ResponseItemModel::LocalShellCall {
            id: new_id,
            call_id,
            status,
            action,
            internal_chat_message_metadata_passthrough,
        },
        ResponseItemModel::FunctionCall {
            id,
            name,
            namespace,
            arguments,
            call_id,
            internal_chat_message_metadata_passthrough,
        } => ResponseItemModel::FunctionCall {
            id: new_id,
            name,
            namespace,
            arguments,
            call_id,
            internal_chat_message_metadata_passthrough,
        },
        ResponseItemModel::ToolSearchCall {
            id,
            body,
            internal_chat_message_metadata_passthrough,
        } => ResponseItemModel::ToolSearchCall {
            id: new_id,
            body,
            internal_chat_message_metadata_passthrough,
        },
        ResponseItemModel::FunctionCallOutput {
            id,
            call_id,
            output,
            internal_chat_message_metadata_passthrough,
        } => ResponseItemModel::FunctionCallOutput {
            id: new_id,
            call_id,
            output,
            internal_chat_message_metadata_passthrough,
        },
        ResponseItemModel::CustomToolCall {
            id,
            status,
            call_id,
            name,
            namespace,
            input,
            internal_chat_message_metadata_passthrough,
        } => ResponseItemModel::CustomToolCall {
            id: new_id,
            status,
            call_id,
            name,
            namespace,
            input,
            internal_chat_message_metadata_passthrough,
        },
        ResponseItemModel::CustomToolCallOutput {
            id,
            call_id,
            name,
            output,
            internal_chat_message_metadata_passthrough,
        } => ResponseItemModel::CustomToolCallOutput {
            id: new_id,
            call_id,
            name,
            output,
            internal_chat_message_metadata_passthrough,
        },
        ResponseItemModel::ToolSearchOutput {
            id,
            body,
            internal_chat_message_metadata_passthrough,
        } => ResponseItemModel::ToolSearchOutput {
            id: new_id,
            body,
            internal_chat_message_metadata_passthrough,
        },
        ResponseItemModel::WebSearchCall {
            id,
            body,
            internal_chat_message_metadata_passthrough,
        } => ResponseItemModel::WebSearchCall {
            id: new_id,
            body,
            internal_chat_message_metadata_passthrough,
        },
        ResponseItemModel::ImageGenerationCall {
            id,
            body,
            internal_chat_message_metadata_passthrough,
        } => ResponseItemModel::ImageGenerationCall {
            id: new_id,
            body,
            internal_chat_message_metadata_passthrough,
        },
        ResponseItemModel::Compaction {
            id,
            body,
            internal_chat_message_metadata_passthrough,
        } => ResponseItemModel::Compaction {
            id: new_id,
            body,
            internal_chat_message_metadata_passthrough,
        },
        ResponseItemModel::ContextCompaction {
            id,
            body,
            internal_chat_message_metadata_passthrough,
        } => ResponseItemModel::ContextCompaction {
            id: new_id,
            body,
            internal_chat_message_metadata_passthrough,
        },
        ResponseItemModel::CompactionTrigger => item,
        ResponseItemModel::Other => item,
    }
}

/// The item with other transport metadata.
pub open spec fn with_metadata(
    item: ResponseItemModel,
    metadata: Option<InternalChatMessageMetadataModel>,
) -> ResponseItemModel {
    match item {
        ResponseItemModel::AdditionalTools {
            id,
            tools,
            body,
            internal_chat_message_metadata_passthrough,
        } => ResponseItemModel::AdditionalTools {
            id,
            tools,
            body,
            internal_chat_message_metadata_passthrough: metadata,
        },
        ResponseItemModel::Message {
            id,
            role,
            content,
            phase,
            internal_chat_message_metadata_passthrough,
        } => ResponseItemModel::Message {
            id,
            role,
            content,
            phase,
            internal_chat_message_metadata_passthrough: metadata,
        },
        ResponseItemModel::AgentMessage {
            id,
            author,
            recipient,
            content,
            internal_chat_message_metadata_passthrough,
        } => ResponseItemModel::AgentMessage {
            id,
            author,
            recipient,
            content,
            internal_chat_message_metadata_passthrough: metadata,
        },
        ResponseItemModel::Reasoning {
            id,
            summary,
            content,
            encrypted_content,
            internal_chat_message_metadata_passthrough,
        } => ResponseItemModel::Reasoning {
            id,
            summary,
            content,
            encrypted_content,
            internal_chat_message_metadata_passthrough: metadata,
        },
        ResponseItemModel::LocalShellCall {
            id,
            call_id,
            status,
            action,
            internal_chat_message_metadata_passthrough,
        } => ResponseItemModel::LocalShellCall {
            id,
            call_id,
            status,
            action,
            internal_chat_message_metadata_passthrough: metadata,
        },
        ResponseItemModel::FunctionCall {
            id,
            name,
            namespace,
            arguments,
            call_id,
            internal_chat_message_metadata_passthrough,
        } => ResponseItemModel::FunctionCall {
            id,
            name,
            namespace,
            arguments,
            call_id,
            internal_chat_message_metadata_passthrough: metadata,
        },
        ResponseItemModel::ToolSearchCall {
            id,
            body,
            internal_chat_message_metadata_passthrough,
        } => ResponseItemModel::ToolSearchCall {
            id,
            body,
            internal_chat_message_metadata_passthrough: metadata,
        },
        ResponseItemModel::FunctionCallOutput {
            id,
            call_id,
            output,
            internal_chat_message_metadata_passthrough,
        } => ResponseItemModel::FunctionCallOutput {
            id,
            call_id,
            output,
            internal_chat_message_metadata_passthrough: metadata,
        },
        ResponseItemModel::CustomToolCall {
            id,
            status,
            call_id,
            name,
            namespace,
            input,
            internal_chat_message_metadata_passthrough,
        } => ResponseItemModel::CustomToolCall {
            id,
            status,
            call_id,
            name,
            namespace,
            input,
            internal_chat_message_metadata_passthrough: metadata,
        },
        ResponseItemModel::CustomToolCallOutput {
            id,
            call_id,
            name,
            output,
            internal_chat_message_metadata_passthrough,
        } => ResponseItemModel::CustomToolCallOutput {
            id,
            call_id,
            name,
            output,
            internal_chat_message_metadata_passthrough: metadata,
        },
        ResponseItemModel::ToolSearchOutput {
            id,
            body,
            internal_chat_message_metadata_passthrough,
        } => ResponseItemModel::ToolSearchOutput {
            id,
            body,
            internal_chat_message_metadata_passthrough: metadata,
        },
        ResponseItemModel::WebSearchCall {
            id,
            body,
            internal_chat_message_metadata_passthrough,
        } => ResponseItemModel::WebSearchCall {
            id,
            body,
            internal_chat_message_metadata_passthrough: metadata,
        },
        ResponseItemModel::ImageGenerationCall {
            id,
            body,
            internal_chat_message_metadata_passthrough,
        } => ResponseItemModel::ImageGenerationCall {
            id,
            body,
            internal_chat_message_metadata_passthrough: metadata,
        },
        ResponseItemModel::Compaction {
            id,
            body,
            internal_chat_message_metadata_passthrough,
        } => ResponseItemModel::Compaction {
            id,
            body,
            internal_chat_message_metadata_passthrough: metadata,
        },
        ResponseItemModel::ContextCompaction {
            id,
            body,
            internal_chat_message_metadata_passthrough,
        } => ResponseItemModel::ContextCompaction {
            id,
            body,
            internal_chat_message_metadata_passthrough: metadata,
        },
        ResponseItemModel::CompactionTrigger => item,
        ResponseItemModel::Other => item,
    }
}

/// The item with the given turn, unless it already names one.
pub open spec fn with_turn_id(item: ResponseItemModel, turn_id: Seq<char>) -> ResponseItemModel {
    if turn_id_of(item) is Some {
        item
    } else {
        with_metadata(item, Some(InternalChatMessageMetadataModel { turn_id: Some(turn_id) }))
    }
}

impl ResponseItem {
    /// The provider's id of the item.
    pub fn id(&self) -> (r: Option<&String>)
        ensures
            r.deep_view() == id_of(self.deep_view()),
    {
        match self {
            ResponseItem::AdditionalTools { id, .. } => id.as_ref(),
            ResponseItem::Message { id, .. } => id.as_ref(),
            ResponseItem::AgentMessage { id, .. } => id.as_ref(),
            ResponseItem::Reasoning { id, .. } => id.as_ref(),
            ResponseItem::LocalShellCall { id, .. } => id.as_ref(),
            ResponseItem::FunctionCall { id, .. } => id.as_ref(),
            ResponseItem::ToolSearchCall { id, .. } => id.as_ref(),
            ResponseItem::FunctionCallOutput { id, .. } => id.as_ref(),
            ResponseItem::CustomToolCall { id, .. } => id.as_ref(),
            ResponseItem::CustomToolCallOutput { id, .. } => id.as_ref(),
            ResponseItem::ToolSearchOutput { id, .. } => id.as_ref(),
            ResponseItem::WebSearchCall { id, .. } => id.as_ref(),
            ResponseItem::ImageGenerationCall { id, .. } => id.as_ref(),
            ResponseItem::Compaction { id, .. } => id.as_ref(),
            ResponseItem::ContextCompaction { id, .. } => id.as_ref(),
            ResponseItem::CompactionTrigger => None,
            ResponseItem::Other => None,
        }
    }

    fn metadata(&self) -> (r: Option<&InternalChatMessageMetadata>)
        ensures
            r.deep_view() == metadata_of(self.deep_view()),
    {
        match self {
            ResponseItem::AdditionalTools { internal_chat_message_metadata_passthrough, .. } => {
                internal_chat_message_metadata_passthrough.as_ref()
            },
            ResponseItem::Message { internal_chat_message_metadata_passthrough, .. } => {
                internal_chat_message_metadata_passthrough.as_ref()
            },
            ResponseItem::AgentMessage { internal_chat_message_metadata_passthrough, .. } => {
                internal_chat_message_metadata_passthrough.as_ref()
            },
            ResponseItem::Reasoning { internal_chat_message_metadata_passthrough, .. } => {
                internal_chat_message_metadata_passthrough.as_ref()
            },
            ResponseItem::LocalShellCall { internal_chat_message_metadata_passthrough, .. } => {
                internal_chat_message_metadata_passthrough.as_ref()
            },
            ResponseItem::FunctionCall { internal_chat_message_metadata_passthrough, .. } => {
                internal_chat_message_metadata_passthrough.as_ref()
            },
            ResponseItem::ToolSearchCall { internal_chat_message_metadata_passthrough, .. } => {
                internal_chat_message_metadata_passthrough.as_ref()
            },
            ResponseItem::FunctionCallOutput {
                internal_chat_message_metadata_passthrough,
                ..
            } => internal_chat_message_metadata_passthrough.as_ref(),
            ResponseItem::CustomToolCall { internal_chat_message_metadata_passthrough, .. } => {
                internal_chat_message_metadata_passthrough.as_ref()
            },
            ResponseItem::CustomToolCallOutput {
                internal_chat_message_metadata_passthrough,
                ..
            } => internal_chat_message_metadata_passthrough.as_ref(),
            ResponseItem::ToolSearchOutput { internal_chat_message_metadata_passthrough, .. } => {
                internal_chat_message_metadata_passthrough.as_ref()
            },
            ResponseItem::WebSearchCall { internal_chat_message_metadata_passthrough, .. } => {
                internal_chat_message_metadata_passthrough.as_ref()
            },
            ResponseItem::ImageGenerationCall {
                internal_chat_message_metadata_passthrough,
                ..
            } => internal_chat_message_metadata_passthrough.as_ref(),
            ResponseItem::Compaction { internal_chat_message_metadata_passthrough, .. } => {
                internal_chat_message_metadata_passthrough.as_ref()
            },
            ResponseItem::ContextCompaction { internal_chat_message_metadata_passthrough, .. } => {
                internal_chat_message_metadata_passthrough.as_ref()
            },
            ResponseItem::CompactionTrigger => None,
            ResponseItem::Other => None,
        }
    }

    /// The turn to which the item belongs, where its metadata names one.
    pub fn turn_id(&self) -> (r: Option<&String>)
        ensures
            r.deep_view() == turn_id_of(self.deep_view()),
    {
        match self.metadata() {
            Some(metadata) => metadata.turn_id.as_ref(),
            None => None,
        }
    }

    /// Puts the item under another provider id.
    pub fn set_id(&mut self, new_id: Option<String>)
        ensures
            final(self).deep_view() == with_id(old(self).deep_view(), new_id.deep_view()),
    {
        match self {
            ResponseItem::AdditionalTools { id, .. } => {
                *id = new_id;
            },
            ResponseItem::Message { id, .. } => {
                *id = new_id;
            },
            ResponseItem::AgentMessage { id, .. } => {
                *id = new_id;
            },
            ResponseItem::Reasoning { id, .. } => {
                *id = new_id;
            },
            ResponseItem::LocalShellCall { id, .. } => {
                *id = new_id;
            },
            ResponseItem::FunctionCall { id, .. } => {
                *id = new_id;
            },
            ResponseItem::ToolSearchCall { id, .. } => {
                *id = new_id;
            },
            ResponseItem::FunctionCallOutput { id, .. } => {
                *id = new_id;
            },
            ResponseItem::CustomToolCall { id, .. } => {
                *id = new_id;
            },
            ResponseItem::CustomToolCallOutput { id, .. } => {
                *id = new_id;
            },
            ResponseItem::ToolSearchOutput { id, .. } => {
                *id = new_id;
            },
            ResponseItem::WebSearchCall { id, .. } => {
                *id = new_id;
            },
            ResponseItem::ImageGenerationCall { id, .. } => {
                *id = new_id;
            },
            ResponseItem::Compaction { id, .. } => {
                *id = new_id;
            },
            ResponseItem::ContextCompaction { id, .. } => {
                *id = new_id;
            },
            ResponseItem::CompactionTrigger => {},
            ResponseItem::Other => {},
        }
    }

    fn set_metadata(&mut self, metadata: Option<InternalChatMessageMetadata>)
        ensures
            final(self).deep_view() == with_metadata(old(self).deep_view(), metadata.deep_view()),
    {
        match self {
            ResponseItem::AdditionalTools { internal_chat_message_metadata_passthrough, .. } => {
                *internal_chat_message_metadata_passthrough = metadata;
            },
            ResponseItem::Message { internal_chat_message_metadata_passthrough, .. } => {
                *internal_chat_message_metadata_passthrough = metadata;
            },
            ResponseItem::AgentMessage { internal_chat_message_metadata_passthrough, .. } => {
                *internal_chat_message_metadata_passthrough = metadata;
            },
            ResponseItem::Reasoning { internal_chat_message_metadata_passthrough, .. } => {
                *internal_chat_message_metadata_passthrough = metadata;
            },
            ResponseItem::LocalShellCall { internal_chat_message_metadata_passthrough, .. } => {
                *internal_chat_message_metadata_passthrough = metadata;
            },
            ResponseItem::FunctionCall { internal_chat_message_metadata_passthrough, .. } => {
                *internal_chat_message_metadata_passthrough = metadata;
            },
            ResponseItem::ToolSearchCall { internal_chat_message_metadata_passthrough, .. } => {
                *internal_chat_message_metadata_passthrough = metadata;
            },
            ResponseItem::FunctionCallOutput { internal_chat_message_metadata_passthrough, .. } => {
                *internal_chat_message_metadata_passthrough = metadata;
            },
            ResponseItem::CustomToolCall { internal_chat_message_metadata_passthrough, .. } => {
                *internal_chat_message_metadata_passthrough = metadata;
            },
            ResponseItem::CustomToolCallOutput {
                internal_chat_message_metadata_passthrough,
                ..
            } => {
                *internal_chat_message_metadata_passthrough = metadata;
            },
            ResponseItem::ToolSearchOutput { internal_chat_message_metadata_passthrough, .. } => {
                *internal_chat_message_metadata_passthrough = metadata;
            },
            ResponseItem::WebSearchCall { internal_chat_message_metadata_passthrough, .. } => {
                *internal_chat_message_metadata_passthrough = metadata;
            },
            ResponseItem::ImageGenerationCall {
                internal_chat_message_metadata_passthrough,
                ..
            } => {
                *internal_chat_message_metadata_passthrough = metadata;
            },
            ResponseItem::Compaction { internal_chat_message_metadata_passthrough, .. } => {
                *internal_chat_message_metadata_passthrough = metadata;
            },
            ResponseItem::ContextCompaction { internal_chat_message_metadata_passthrough, .. } => {
                *internal_chat_message_metadata_passthrough = metadata;
            },
            ResponseItem::CompactionTrigger => {},
            ResponseItem::Other => {},
        }
    }

    /// Names the item's turn, unless the item already names one.
    pub fn set_turn_id_if_missing(&mut self, turn_id: &str)
        ensures
            final(self).deep_view() == with_turn_id(old(self).deep_view(), turn_id@),
    {
        if self.turn_id().is_none() {
            self.set_metadata(
                Some(InternalChatMessageMetadata { turn_id: Some(turn_id.to_owned()) }),
            );
        }
    }

    /// Takes the transport metadata off the item.
    pub fn clear_internal_chat_message_metadata_passthrough(&mut self)
        ensures
            final(self).deep_view() == with_metadata(old(self).deep_view(), None),
    {
        self.set_metadata(None);
    }
}

// ---------------------------------------------------------------------------------------------
// Roles, phases and kinds

/// The role that a provider's role name stands for.
pub open spec fn role_of(role: Seq<char>) -> Result<MessageRole, CodexAdapterErrorModel> {
    if role == "user"@ {
        Ok(MessageRole::User)
    } else if role == "assistant"@ {
        Ok(MessageRole::Assistant)
    } else if role == "developer"@ {
        Ok(MessageRole::Developer)
    } else if role == "system"@ {
        Ok(MessageRole::System)
    } else {
        Err(CodexAdapterErrorModel::UnsupportedRole { role })
    }
}

/// The provider's name of a role.
pub open spec fn role_name(role: MessageRole) -> Seq<char> {
    match role {
        MessageRole::User => "user"@,
        MessageRole::Assistant => "assistant"@,
        MessageRole::Developer => "developer"@,
        MessageRole::System => "system"@,
    }
}

/// The role that a provider's role name stands for.
pub fn message_role(role: &str) -> (r: Result<MessageRole, CodexAdapterError>)
    ensures
        outcome(r) == role_of(role@),
{
    if same_text(role, "user") {
        Ok(MessageRole::User)
    } else if same_text(role, "assistant") {
        Ok(MessageRole::Assistant)
    } else if same_text(role, "developer") {
        Ok(MessageRole::Developer)
    } else if same_text(role, "system") {
        Ok(MessageRole::System)
    } else {
        Err(CodexAdapterError::UnsupportedRole { role: role.to_owned() })
    }
}

/// The provider's name of a role.
pub fn role_text(role: MessageRole) -> (r: &'static str)
    ensures
        r@ == role_name(role),
{
    match role {
        MessageRole::User => "user",
        MessageRole::Assistant => "assistant",
        MessageRole::Developer => "developer",
        MessageRole::System => "system",
    }
}

/// Reading back the name of a role gives the role.
pub proof fn law_role_names_read_back(role: MessageRole)
    ensures
        role_of(role_name(role)) == Ok::<MessageRole, CodexAdapterErrorModel>(role),
{
    reveal_strlit("user");
    reveal_strlit("assistant");
    reveal_strlit("developer");
    reveal_strlit("system");
    assert("user"@[0] == 'u');
    assert("assistant"@[0] == 'a');
    assert("developer"@[0] == 'd');
    assert("system"@[0] == 's');
}

/// The phase of a finished call.
pub open spec fn finished_phase(success: Option<bool>) -> ToolPhase {
    if success == Some(false) {
        ToolPhase::Failed
    } else {
        ToolPhase::Completed
    }
}

/// The phase of a finished call: failed only where the result says so.
pub fn output_phase(success: Option<bool>) -> (r: ToolPhase)
    ensures
        r == finished_phase(success),
{
    match success {
        Some(false) => ToolPhase::Failed,
        _ => ToolPhase::Completed,
    }
}

/// Whether the neutral contract carries an item as a tool record or drops it as a control. Every
/// other item can be carried as a provider record.
pub open spec fn is_tool_or_control(item: ResponseItemModel) -> bool {
    ||| item is LocalShellCall
    ||| item is FunctionCall
    ||| item is FunctionCallOutput
    ||| item is CustomToolCall
    ||| item is CustomToolCallOutput
    ||| item is CompactionTrigger
}

/// Whether the neutral contract carries an item as a tool record or drops it as a control.
pub fn tool_or_control(item: &ResponseItem) -> (r: bool)
    ensures
        r == is_tool_or_control(item.deep_view()),
{
    matches!(
        item,
        ResponseItem::LocalShellCall { .. } | ResponseItem::FunctionCall { .. }
        | ResponseItem::FunctionCallOutput { .. } | ResponseItem::CustomToolCall { .. }
        | ResponseItem::CustomToolCallOutput { .. } | ResponseItem::CompactionTrigger
    )
}

/// The kind under which an item is carried as a provider record.
pub open spec fn opaque_kind_of(item: ResponseItemModel) -> Seq<char> {
    match item {
        ResponseItemModel::AdditionalTools { .. } => "codex.additional_tools"@,
        ResponseItemModel::Message { .. } => "codex.message"@,
        ResponseItemModel::AgentMessage { .. } => "codex.agent_message.encrypted"@,
        ResponseItemModel::Reasoning { .. } => "codex.reasoning"@,
        ResponseItemModel::ToolSearchCall { .. } => "codex.tool_search_call"@,
        ResponseItemModel::ToolSearchOutput { .. } => "codex.tool_search_output"@,
        ResponseItemModel::WebSearchCall { .. } => "codex.web_search_call"@,
        ResponseItemModel::ImageGenerationCall { .. } => "codex.image_generation_call"@,
        ResponseItemModel::Compaction { .. } => "codex.compaction"@,
        ResponseItemModel::ContextCompaction { .. } => "codex.context_compaction"@,
        _ => "codex.unknown_response_item"@,
    }
}

/// The kind under which an item is carried as a provider record.
pub fn opaque_kind(item: &ResponseItem) -> (r: &'static str)
    requires
        !is_tool_or_control(item.deep_view()),
    ensures
        r@ == opaque_kind_of(item.deep_view()),
{
    match item {
        ResponseItem::AdditionalTools { .. } => "codex.additional_tools",
        ResponseItem::Message { .. } => "codex.message",
        ResponseItem::AgentMessage { .. } => "codex.agent_message.encrypted",
        ResponseItem::Reasoning { .. } => "codex.reasoning",
        ResponseItem::ToolSearchCall { .. } => "codex.tool_search_call",
        ResponseItem::ToolSearchOutput { .. } => "codex.tool_search_output",
        ResponseItem::WebSearchCall { .. } => "codex.web_search_call",
        ResponseItem::ImageGenerationCall { .. } => "codex.image_generation_call",
        ResponseItem::Compaction { .. } => "codex.compaction",
        ResponseItem::ContextCompaction { .. } => "codex.context_compaction",
        _ => "codex.unknown_response_item",
    }
}

// ---------------------------------------------------------------------------------------------
// Local-only reasoning

/// Whether the provider's serializer leaves the reasoning text out: none of it came from the
/// provider.
pub open spec fn content_omitted(content: Option<Seq<ReasoningItemContentModel>>) -> bool {
    match content {
        Some(parts) => forall|i: int|
            0 <= i < parts.len() ==> !(#[trigger] parts[i] is ReasoningText),
        None => false,
    }
}

/// The value that the provider's serializer represents.
pub open spec fn serialization_view_of(item: ResponseItemModel) -> ResponseItemModel {
    match item {
        ResponseItemModel::Reasoning {
            id,
            summary,
            content,
            encrypted_content,
            internal_chat_message_metadata_passthrough,
        } => ResponseItemModel::Reasoning {
            id,
            summary,
            content: if content_omitted(content) {
                None
            } else {
                content
            },
            encrypted_content,
            internal_chat_message_metadata_passthrough,
        },
        _ => item,
    }
}

/// The rebuilt item with the source's local-only reasoning text.
pub open spec fn with_local_fields(
    source: ResponseItemModel,
    rebuilt: ResponseItemModel,
) -> ResponseItemModel {
    match (source, rebuilt) {
        (
            ResponseItemModel::Reasoning { content: local, .. },
            ResponseItemModel::Reasoning {
                id,
                summary,
                content,
                encrypted_content,
                internal_chat_message_metadata_passthrough,
            },
        ) => ResponseItemModel::Reasoning {
            id,
            summary,
            content: if content_omitted(local) {
                local
            } else {
                content
            },
            encrypted_content,
            internal_chat_message_metadata_passthrough,
        },
        _ => rebuilt,
    }
}

fn reasoning_content_is_omitted(content: &Option<Vec<ReasoningItemContent>>) -> (r: bool)
    ensures
        r == content_omitted(content.deep_view()),
{
    match content {
        Some(parts) => {
            let ghost model = parts.deep_view();
            let mut i: usize = 0;
            while i < parts.len()
                invariant
                    i <= parts@.len(),
                    content.deep_view() == Some(model),
                    model == parts.deep_view(),
                    model.len() == parts@.len(),
                    forall|k: int| 0 <= k < i ==> !(#[trigger] model[k] is ReasoningText),
                decreases parts.len() - i,
            {
                assert(model[i as int] == parts@[i as int].deep_view());
                if let ReasoningItemContent::ReasoningText { .. } = &parts[i] {
                    assert(model[i as int] is ReasoningText);
                    return false;
                }
                i = i + 1;
            }
            true
        },
        None => false,
    }
}

/// Returns the value represented by the provider's serializer.
///
/// Locally retained reasoning text is left out of provider input. Keeping that omission explicit
/// means that a lossless provider payload does not require persisting the decrypted text.
pub fn provider_serialization_view(item: &ResponseItem) -> (r: ResponseItem)
    ensures
        r.deep_view() == serialization_view_of(item.deep_view()),
{
    let mut view = item.duplicate();
    if let ResponseItem::Reasoning { content, .. } = &mut view {
        if reasoning_content_is_omitted(content) {
            *content = None;
        }
    }
    view
}

/// Restores the fields that the provider's serializer leaves out.
///
/// The values come from the source item in memory and never enter a neutral event.
pub fn restore_local_only_fields(source: &ResponseItem, rebuilt: &mut ResponseItem)
    ensures
        final(rebuilt).deep_view() == with_local_fields(
            source.deep_view(),
            old(rebuilt).deep_view(),
        ),
{
    if let ResponseItem::Reasoning { content: local, .. } = source {
        if let ResponseItem::Reasoning { content, .. } = rebuilt {
            if reasoning_content_is_omitted(local) {
                *content = local.duplicate();
            }
        }
    }
}

/// Restoring the local-only text of an item into its serialization view gives the item back.
pub proof fn law_restore_undoes_serialization_view(item: ResponseItemModel)
    ensures
        with_local_fields(item, serialization_view_of(item)) == item,
{
}

/// Taking the serialization view twice is taking it once.
pub proof fn law_serialization_view_is_stable(item: ResponseItemModel)
    ensures
        serialization_view_of(serialization_view_of(item)) == serialization_view_of(item),
{
}

// ---------------------------------------------------------------------------------------------
// Records in events and in checkpoints

/// The record of a journal event.
pub open spec fn event_record(payload: ModelContextPayloadModel) -> ContextEventPayloadModel {
    match payload {
        ModelContextPayloadModel::Message(message) => ContextEventPayloadModel::Message(message),
        ModelContextPayloadModel::Tool(tool) => ContextEventPayloadModel::Tool(tool),
        ModelContextPayloadModel::ProviderOpaque(opaque) =>
            ContextEventPayloadModel::ProviderOpaque(opaque),
    }
}

/// The record of a journal event.
pub fn event_payload(payload: ModelContextPayload) -> (r: ContextEventPayload)
    ensures
        r.deep_view() == event_record(payload.deep_view()),
{
    match payload {
        ModelContextPayload::Message(message) => ContextEventPayload::Message(message),
        ModelContextPayload::Tool(tool) => ContextEventPayload::Tool(tool),
        ModelContextPayload::ProviderOpaque(opaque) => ContextEventPayload::ProviderOpaque(opaque),
    }
}

/// The id of a record's model item: a provider record keeps the provider's id.
pub open spec fn record_id(payload: ModelContextPayloadModel, fallback_id: Seq<char>) -> Seq<char> {
    match payload {
        ModelContextPayloadModel::ProviderOpaque(opaque) => opaque.provider_item_id,
        _ => fallback_id,
    }
}

/// The model item of a record.
pub open spec fn item_of_record(
    payload: ModelContextPayloadModel,
    fallback_id: Seq<char>,
    source_sequence: Option<u64>,
) -> ModelContextItemModel {
    ModelContextItemModel { id: record_id(payload, fallback_id), source_sequence, payload }
}

/// The model item of a record. A provider record keeps the provider's id.
pub fn event_payload_to_model(
    payload: ModelContextPayload,
    fallback_id: String,
    source_sequence: Option<u64>,
) -> (r: ModelContextItem)
    ensures
        r.deep_view() == item_of_record(payload.deep_view(), fallback_id@, source_sequence),
{
    let id = match &payload {
        ModelContextPayload::ProviderOpaque(opaque) => opaque.provider_item_id.clone(),
        _ => fallback_id,
    };
    ModelContextItem { id, source_sequence, payload }
}

} // verus!
