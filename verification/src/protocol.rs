//! The provider's records, as far as the adapter reads them.
//!
//! The provider's own serializer stays outside: what it made of an item comes in beside the item.
use vstd::prelude::*;

use crate::context::{ImageDetail, MessagePhase};
use crate::json::{Json, JsonModel};
use crate::model::Modeled;

verus! {

/// Transport metadata that a chat message carries through the provider.
#[derive(Debug, PartialEq, Eq)]
pub struct InternalChatMessageMetadata {
    pub turn_id: Option<String>,
}

/// The mathematical content of a [`InternalChatMessageMetadata`].
pub struct InternalChatMessageMetadataModel {
    pub turn_id: Option<Seq<char>>,
}

impl DeepView for InternalChatMessageMetadata {
    type V = InternalChatMessageMetadataModel;

    open spec fn deep_view(&self) -> InternalChatMessageMetadataModel {
        InternalChatMessageMetadataModel {
            turn_id: self.turn_id.deep_view(),
        }
    }
}

impl Modeled for InternalChatMessageMetadata {
    fn duplicate(&self) -> (r: Self) {
        InternalChatMessageMetadata {
            turn_id: self.turn_id.duplicate(),
        }
    }

    fn same(&self, other: &Self) -> (r: bool) {
        self.turn_id.same(&other.turn_id)
    }
}

impl Clone for InternalChatMessageMetadata {
    fn clone(&self) -> (r: Self)
        ensures
            r.deep_view() == self.deep_view(),
    {
        self.duplicate()
    }
}

/// One content item of a provider message.
#[derive(Debug, PartialEq, Eq)]
pub enum ContentItem {
    InputText { text: String },
    OutputText { text: String },
    InputImage { image_url: String, detail: Option<ImageDetail> },
    InputAudio { audio_url: String },
}

/// The mathematical content of a [`ContentItem`].
pub enum ContentItemModel {
    InputText { text: Seq<char> },
    OutputText { text: Seq<char> },
    InputImage { image_url: Seq<char>, detail: Option<ImageDetail> },
    InputAudio { audio_url: Seq<char> },
}

impl DeepView for ContentItem {
    type V = ContentItemModel;

    open spec fn deep_view(&self) -> ContentItemModel {
        match self {
            ContentItem::InputText { text } => ContentItemModel::InputText {
                text: text.deep_view(),
            },
            ContentItem::OutputText { text } => ContentItemModel::OutputText {
                text: text.deep_view(),
            },
            ContentItem::InputImage { image_url, detail } => ContentItemModel::InputImage {
                image_url: image_url.deep_view(),
                detail: detail.deep_view(),
            },
            ContentItem::InputAudio { audio_url } => ContentItemModel::InputAudio {
                audio_url: audio_url.deep_view(),
            },
        }
    }
}

impl Modeled for ContentItem {
    fn duplicate(&self) -> (r: Self) {
        match self {
            ContentItem::InputText { text } => ContentItem::InputText { text: text.duplicate() },
            ContentItem::OutputText { text } => ContentItem::OutputText { text: text.duplicate() },
            ContentItem::InputImage { image_url, detail } => ContentItem::InputImage {
                image_url: image_url.duplicate(),
                detail: detail.duplicate(),
            },
            ContentItem::InputAudio { audio_url } => ContentItem::InputAudio {
                audio_url: audio_url.duplicate(),
            },
        }
    }

    fn same(&self, other: &Self) -> (r: bool) {
        match (self, other) {
            (ContentItem::InputText { text }, ContentItem::InputText { text: text_other }) => {
                text.same(text_other)
            },
            (ContentItem::OutputText { text }, ContentItem::OutputText { text: text_other }) => {
                text.same(text_other)
            },
            (
                ContentItem::InputImage { image_url, detail },
                ContentItem::InputImage { image_url: image_url_other, detail: detail_other },
            ) => image_url.same(image_url_other) && detail.same(detail_other),
            (
                ContentItem::InputAudio { audio_url },
                ContentItem::InputAudio { audio_url: audio_url_other },
            ) => audio_url.same(audio_url_other),
            _ => false,
        }
    }
}

impl Clone for ContentItem {
    fn clone(&self) -> (r: Self)
        ensures
            r.deep_view() == self.deep_view(),
    {
        self.duplicate()
    }
}

/// One content item of a message between agents.
#[derive(Debug, PartialEq, Eq)]
pub enum AgentMessageInputContent {
    InputText { text: String },
    EncryptedContent { encrypted_content: String },
}

/// The mathematical content of a [`AgentMessageInputContent`].
pub enum AgentMessageInputContentModel {
    InputText { text: Seq<char> },
    EncryptedContent { encrypted_content: Seq<char> },
}

impl DeepView for AgentMessageInputContent {
    type V = AgentMessageInputContentModel;

    open spec fn deep_view(&self) -> AgentMessageInputContentModel {
        match self {
            AgentMessageInputContent::InputText { text } => {
                AgentMessageInputContentModel::InputText { text: text.deep_view() }
            },
            AgentMessageInputContent::EncryptedContent { encrypted_content } => {
                AgentMessageInputContentModel::EncryptedContent {
                    encrypted_content: encrypted_content.deep_view(),
                }
            },
        }
    }
}

impl Modeled for AgentMessageInputContent {
    fn duplicate(&self) -> (r: Self) {
        match self {
            AgentMessageInputContent::InputText { text } => AgentMessageInputContent::InputText {
                text: text.duplicate(),
            },
            AgentMessageInputContent::EncryptedContent { encrypted_content } => {
                AgentMessageInputContent::EncryptedContent {
                    encrypted_content: encrypted_content.duplicate(),
                }
            },
        }
    }

    fn same(&self, other: &Self) -> (r: bool) {
        match (self, other) {
            (
                AgentMessageInputContent::InputText { text },
                AgentMessageInputContent::InputText { text: text_other },
            ) => text.same(text_other),
            (
                AgentMessageInputContent::EncryptedContent { encrypted_content },
                AgentMessageInputContent::EncryptedContent {
                    encrypted_content: encrypted_content_other,
                },
            ) => encrypted_content.same(encrypted_content_other),
            _ => false,
        }
    }
}

impl Clone for AgentMessageInputContent {
    fn clone(&self) -> (r: Self)
        ensures
            r.deep_view() == self.deep_view(),
    {
        self.duplicate()
    }
}

/// Reasoning text, as the provider sent it or as it was decrypted locally.
#[derive(Debug, PartialEq, Eq)]
pub enum ReasoningItemContent {
    ReasoningText { text: String },
    Text { text: String },
}

/// The mathematical content of a [`ReasoningItemContent`].
pub enum ReasoningItemContentModel {
    ReasoningText { text: Seq<char> },
    Text { text: Seq<char> },
}

impl DeepView for ReasoningItemContent {
    type V = ReasoningItemContentModel;

    open spec fn deep_view(&self) -> ReasoningItemContentModel {
        match self {
            ReasoningItemContent::ReasoningText { text } => {
                ReasoningItemContentModel::ReasoningText { text: text.deep_view() }
            },
            ReasoningItemContent::Text { text } => ReasoningItemContentModel::Text {
                text: text.deep_view(),
            },
        }
    }
}

impl Modeled for ReasoningItemContent {
    fn duplicate(&self) -> (r: Self) {
        match self {
            ReasoningItemContent::ReasoningText { text } => ReasoningItemContent::ReasoningText {
                text: text.duplicate(),
            },
            ReasoningItemContent::Text { text } => ReasoningItemContent::Text {
                text: text.duplicate(),
            },
        }
    }

    fn same(&self, other: &Self) -> (r: bool) {
        match (self, other) {
            (
                ReasoningItemContent::ReasoningText { text },
                ReasoningItemContent::ReasoningText { text: text_other },
            ) => text.same(text_other),
            (
                ReasoningItemContent::Text { text },
                ReasoningItemContent::Text { text: text_other },
            ) => text.same(text_other),
            _ => false,
        }
    }
}

impl Clone for ReasoningItemContent {
    fn clone(&self) -> (r: Self)
        ensures
            r.deep_view() == self.deep_view(),
    {
        self.duplicate()
    }
}

/// One part of a reasoning summary.
#[derive(Debug, PartialEq, Eq)]
pub enum ReasoningItemReasoningSummary {
    SummaryText { text: String },
}

/// The mathematical content of a [`ReasoningItemReasoningSummary`].
pub enum ReasoningItemReasoningSummaryModel {
    SummaryText { text: Seq<char> },
}

impl DeepView for ReasoningItemReasoningSummary {
    type V = ReasoningItemReasoningSummaryModel;

    open spec fn deep_view(&self) -> ReasoningItemReasoningSummaryModel {
        match self {
            ReasoningItemReasoningSummary::SummaryText { text } => {
                ReasoningItemReasoningSummaryModel::SummaryText { text: text.deep_view() }
            },
        }
    }
}

impl Modeled for ReasoningItemReasoningSummary {
    fn duplicate(&self) -> (r: Self) {
        match self {
            ReasoningItemReasoningSummary::SummaryText { text } => {
                ReasoningItemReasoningSummary::SummaryText { text: text.duplicate() }
            },
        }
    }

    fn same(&self, other: &Self) -> (r: bool) {
        match (self, other) {
            (
                ReasoningItemReasoningSummary::SummaryText { text },
                ReasoningItemReasoningSummary::SummaryText { text: text_other },
            ) => text.same(text_other),
        }
    }
}

impl Clone for ReasoningItemReasoningSummary {
    fn clone(&self) -> (r: Self)
        ensures
            r.deep_view() == self.deep_view(),
    {
        self.duplicate()
    }
}

/// What a tool returned: a text, or a JSON array of content items.
#[derive(Debug, PartialEq, Eq)]
pub enum FunctionCallOutputBody {
    Text(String),
    ContentItems(Json),
}

/// The mathematical content of a [`FunctionCallOutputBody`].
pub enum FunctionCallOutputBodyModel {
    Text(Seq<char>),
    ContentItems(JsonModel),
}

impl DeepView for FunctionCallOutputBody {
    type V = FunctionCallOutputBodyModel;

    open spec fn deep_view(&self) -> FunctionCallOutputBodyModel {
        match self {
            FunctionCallOutputBody::Text(x) => FunctionCallOutputBodyModel::Text(x.deep_view()),
            FunctionCallOutputBody::ContentItems(x) => FunctionCallOutputBodyModel::ContentItems(
                x.deep_view(),
            ),
        }
    }
}

impl Modeled for FunctionCallOutputBody {
    fn duplicate(&self) -> (r: Self) {
        match self {
            FunctionCallOutputBody::Text(x) => FunctionCallOutputBody::Text(x.duplicate()),
            FunctionCallOutputBody::ContentItems(x) => FunctionCallOutputBody::ContentItems(
                x.duplicate(),
            ),
        }
    }

    fn same(&self, other: &Self) -> (r: bool) {
        match (self, other) {
            (FunctionCallOutputBody::Text(x), FunctionCallOutputBody::Text(x_other)) => x.same(
                x_other,
            ),
            (
                FunctionCallOutputBody::ContentItems(x),
                FunctionCallOutputBody::ContentItems(x_other),
            ) => x.same(x_other),
            _ => false,
        }
    }
}

impl Clone for FunctionCallOutputBody {
    fn clone(&self) -> (r: Self)
        ensures
            r.deep_view() == self.deep_view(),
    {
        self.duplicate()
    }
}

/// What a tool returned, and whether it succeeded where that is known.
#[derive(Debug, PartialEq, Eq)]
pub struct FunctionCallOutputPayload {
    pub body: FunctionCallOutputBody,
    pub success: Option<bool>,
}

/// The mathematical content of a [`FunctionCallOutputPayload`].
pub struct FunctionCallOutputPayloadModel {
    pub body: FunctionCallOutputBodyModel,
    pub success: Option<bool>,
}

impl DeepView for FunctionCallOutputPayload {
    type V = FunctionCallOutputPayloadModel;

    open spec fn deep_view(&self) -> FunctionCallOutputPayloadModel {
        FunctionCallOutputPayloadModel {
            body: self.body.deep_view(),
            success: self.success.deep_view(),
        }
    }
}

impl Modeled for FunctionCallOutputPayload {
    fn duplicate(&self) -> (r: Self) {
        FunctionCallOutputPayload {
            body: self.body.duplicate(),
            success: self.success.duplicate(),
        }
    }

    fn same(&self, other: &Self) -> (r: bool) {
        self.body.same(&other.body)
            && self.success.same(&other.success)
    }
}

impl Clone for FunctionCallOutputPayload {
    fn clone(&self) -> (r: Self)
        ensures
            r.deep_view() == self.deep_view(),
    {
        self.duplicate()
    }
}

/// How far a shell call has come.
#[derive(Clone, Copy, Debug, PartialEq, Eq, Structural)]
pub enum LocalShellStatus {
    Completed,
    InProgress,
    Incomplete,
}

impl DeepView for LocalShellStatus {
    type V = LocalShellStatus;

    open spec fn deep_view(&self) -> LocalShellStatus {
        *self
    }
}

impl Modeled for LocalShellStatus {
    fn duplicate(&self) -> (r: Self) {
        *self
    }

    fn same(&self, other: &Self) -> (r: bool) {
        *self == *other
    }
}

/// An item of a provider request or response. Items that are only carried through hold the rest
/// of their content as JSON in `body`.
#[derive(Debug, PartialEq, Eq)]
#[allow(inconsistent_fields)]
pub enum ResponseItem {
    AdditionalTools {
        id: Option<String>,
        tools: Vec<Json>,
        body: Json,
        internal_chat_message_metadata_passthrough: Option<InternalChatMessageMetadata>,
    },
    Message {
        id: Option<String>,
        role: String,
        content: Vec<ContentItem>,
        phase: Option<MessagePhase>,
        internal_chat_message_metadata_passthrough: Option<InternalChatMessageMetadata>,
    },
    AgentMessage {
        id: Option<String>,
        author: String,
        recipient: String,
        content: Vec<AgentMessageInputContent>,
        internal_chat_message_metadata_passthrough: Option<InternalChatMessageMetadata>,
    },
    Reasoning {
        id: Option<String>,
        summary: Vec<ReasoningItemReasoningSummary>,
        content: Option<Vec<ReasoningItemContent>>,
        encrypted_content: Option<String>,
        internal_chat_message_metadata_passthrough: Option<InternalChatMessageMetadata>,
    },
    LocalShellCall {
        id: Option<String>,
        call_id: Option<String>,
        status: LocalShellStatus,
        action: Json,
        internal_chat_message_metadata_passthrough: Option<InternalChatMessageMetadata>,
    },
    FunctionCall {
        id: Option<String>,
        name: String,
        namespace: Option<String>,
        arguments: String,
        call_id: String,
        internal_chat_message_metadata_passthrough: Option<InternalChatMessageMetadata>,
    },
    ToolSearchCall {
        id: Option<String>,
        body: Json,
        internal_chat_message_metadata_passthrough: Option<InternalChatMessageMetadata>,
    },
    FunctionCallOutput {
        id: Option<String>,
        call_id: String,
        output: FunctionCallOutputPayload,
        internal_chat_message_metadata_passthrough: Option<InternalChatMessageMetadata>,
    },
    CustomToolCall {
        id: Option<String>,
        status: Option<String>,
        call_id: String,
        name: String,
        namespace: Option<String>,
        input: String,
        internal_chat_message_metadata_passthrough: Option<InternalChatMessageMetadata>,
    },
    CustomToolCallOutput {
        id: Option<String>,
        call_id: String,
        name: Option<String>,
        output: FunctionCallOutputPayload,
        internal_chat_message_metadata_passthrough: Option<InternalChatMessageMetadata>,
    },
    ToolSearchOutput {
        id: Option<String>,
        body: Json,
        internal_chat_message_metadata_passthrough: Option<InternalChatMessageMetadata>,
    },
    WebSearchCall {
        id: Option<String>,
        body: Json,
        internal_chat_message_metadata_passthrough: Option<InternalChatMessageMetadata>,
    },
    ImageGenerationCall {
        id: Option<String>,
        body: Json,
        internal_chat_message_metadata_passthrough: Option<InternalChatMessageMetadata>,
    },
    Compaction {
        id: Option<String>,
        body: Json,
        internal_chat_message_metadata_passthrough: Option<InternalChatMessageMetadata>,
    },
    CompactionTrigger,
    ContextCompaction {
        id: Option<String>,
        body: Json,
        internal_chat_message_metadata_passthrough: Option<InternalChatMessageMetadata>,
    },
    Other,
}

/// The mathematical content of a [`ResponseItem`].
#[allow(inconsistent_fields)]
pub enum ResponseItemModel {
    AdditionalTools {
        id: Option<Seq<char>>,
        tools: Seq<JsonModel>,
        body: JsonModel,
        internal_chat_message_metadata_passthrough: Option<InternalChatMessageMetadataModel>,
    },
    Message {
        id: Option<Seq<char>>,
        role: Seq<char>,
        content: Seq<ContentItemModel>,
        phase: Option<MessagePhase>,
        internal_chat_message_metadata_passthrough: Option<InternalChatMessageMetadataModel>,
    },
    AgentMessage {
        id: Option<Seq<char>>,
        author: Seq<char>,
        recipient: Seq<char>,
        content: Seq<AgentMessageInputContentModel>,
        internal_chat_message_metadata_passthrough: Option<InternalChatMessageMetadataModel>,
    },
    Reasoning {
        id: Option<Seq<char>>,
        summary: Seq<ReasoningItemReasoningSummaryModel>,
        content: Option<Seq<ReasoningItemContentModel>>,
        encrypted_content: Option<Seq<char>>,
        internal_chat_message_metadata_passthrough: Option<InternalChatMessageMetadataModel>,
    },
    LocalShellCall {
        id: Option<Seq<char>>,
        call_id: Option<Seq<char>>,
        status: LocalShellStatus,
        action: JsonModel,
        internal_chat_message_metadata_passthrough: Option<InternalChatMessageMetadataModel>,
    },
    FunctionCall {
        id: Option<Seq<char>>,
        name: Seq<char>,
        namespace: Option<Seq<char>>,
        arguments: Seq<char>,
        call_id: Seq<char>,
        internal_chat_message_metadata_passthrough: Option<InternalChatMessageMetadataModel>,
    },
    ToolSearchCall {
        id: Option<Seq<char>>,
        body: JsonModel,
        internal_chat_message_metadata_passthrough: Option<InternalChatMessageMetadataModel>,
    },
    FunctionCallOutput {
        id: Option<Seq<char>>,
        call_id: Seq<char>,
        output: FunctionCallOutputPayloadModel,
        internal_chat_message_metadata_passthrough: Option<InternalChatMessageMetadataModel>,
    },
    CustomToolCall {
        id: Option<Seq<char>>,
        status: Option<Seq<char>>,
        call_id: Seq<char>,
        name: Seq<char>,
        namespace: Option<Seq<char>>,
        input: Seq<char>,
        internal_chat_message_metadata_passthrough: Option<InternalChatMessageMetadataModel>,
    },
    CustomToolCallOutput {
        id: Option<Seq<char>>,
        call_id: Seq<char>,
        name: Option<Seq<char>>,
        output: FunctionCallOutputPayloadModel,
        internal_chat_message_metadata_passthrough: Option<InternalChatMessageMetadataModel>,
    },
    ToolSearchOutput {
        id: Option<Seq<char>>,
        body: JsonModel,
        internal_chat_message_metadata_passthrough: Option<InternalChatMessageMetadataModel>,
    },
    WebSearchCall {
        id: Option<Seq<char>>,
        body: JsonModel,
        internal_chat_message_metadata_passthrough: Option<InternalChatMessageMetadataModel>,
    },
    ImageGenerationCall {
        id: Option<Seq<char>>,
        body: JsonModel,
        internal_chat_message_metadata_passthrough: Option<InternalChatMessageMetadataModel>,
    },
    Compaction {
        id: Option<Seq<char>>,
        body: JsonModel,
        internal_chat_message_metadata_passthrough: Option<InternalChatMessageMetadataModel>,
    },
    CompactionTrigger,
    ContextCompaction {
        id: Option<Seq<char>>,
        body: JsonModel,
        internal_chat_message_metadata_passthrough: Option<InternalChatMessageMetadataModel>,
    },
    Other,
}

impl DeepView for ResponseItem {
    type V = ResponseItemModel;

    open spec fn deep_view(&self) -> ResponseItemModel {
        match self {
            ResponseItem::AdditionalTools {
                id,
                tools,
                body,
                internal_chat_message_metadata_passthrough,
            } => ResponseItemModel::AdditionalTools {
                id: id.deep_view(),
                tools: tools.deep_view(),
                body: body.deep_view(),
                internal_chat_message_metadata_passthrough:
                    internal_chat_message_metadata_passthrough.deep_view(),
            },
            ResponseItem::Message {
                id,
                role,
                content,
                phase,
                internal_chat_message_metadata_passthrough,
            } => ResponseItemModel::Message {
                id: id.deep_view(),
                role: role.deep_view(),
                content: content.deep_view(),
                phase: phase.deep_view(),
                internal_chat_message_metadata_passthrough:
                    internal_chat_message_metadata_passthrough.deep_view(),
            },
            ResponseItem::AgentMessage {
                id,
                author,
                recipient,
                content,
                internal_chat_message_metadata_passthrough,
            } => ResponseItemModel::AgentMessage {
                id: id.deep_view(),
                author: author.deep_view(),
                recipient: recipient.deep_view(),
                content: content.deep_view(),
                internal_chat_message_metadata_passthrough:
                    internal_chat_message_metadata_passthrough.deep_view(),
            },
            ResponseItem::Reasoning {
                id,
                summary,
                content,
                encrypted_content,
                internal_chat_message_metadata_passthrough,
            } => ResponseItemModel::Reasoning {
                id: id.deep_view(),
                summary: summary.deep_view(),
                content: content.deep_view(),
                encrypted_content: encrypted_content.deep_view(),
                internal_chat_message_metadata_passthrough:
                    internal_chat_message_metadata_passthrough.deep_view(),
            },
            ResponseItem::LocalShellCall {
                id,
                call_id,
                status,
                action,
                internal_chat_message_metadata_passthrough,
            } => ResponseItemModel::LocalShellCall {
                id: id.deep_view(),
                call_id: call_id.deep_view(),
                status: *status,
                action: action.deep_view(),
                internal_chat_message_metadata_passthrough:
                    internal_chat_message_metadata_passthrough.deep_view(),
            },
            ResponseItem::FunctionCall {
                id,
                name,
                namespace,
                arguments,
                call_id,
                internal_chat_message_metadata_passthrough,
            } => ResponseItemModel::FunctionCall {
                id: id.deep_view(),
                name: name.deep_view(),
                namespace: namespace.deep_view(),
                arguments: arguments.deep_view(),
                call_id: call_id.deep_view(),
                internal_chat_message_metadata_passthrough:
                    internal_chat_message_metadata_passthrough.deep_view(),
            },
            ResponseItem::ToolSearchCall {
                id,
                body,
                internal_chat_message_metadata_passthrough,
            } => ResponseItemModel::ToolSearchCall {
                id: id.deep_view(),
                body: body.deep_view(),
                internal_chat_message_metadata_passthrough:
                    internal_chat_message_metadata_passthrough.deep_view(),
            },
            ResponseItem::FunctionCallOutput {
                id,
                call_id,
                output,
                internal_chat_message_metadata_passthrough,
            } => ResponseItemModel::FunctionCallOutput {
                id: id.deep_view(),
                call_id: call_id.deep_view(),
                output: output.deep_view(),
                internal_chat_message_metadata_passthrough:
                    internal_chat_message_metadata_passthrough.deep_view(),
            },
            ResponseItem::CustomToolCall {
                id,
                status,
                call_id,
                name,
                namespace,
                input,
                internal_chat_message_metadata_passthrough,
            } => ResponseItemModel::CustomToolCall {
                id: id.deep_view(),
                status: status.deep_view(),
                call_id: call_id.deep_view(),
                name: name.deep_view(),
                namespace: namespace.deep_view(),
                input: input.deep_view(),
                internal_chat_message_metadata_passthrough:
                    internal_chat_message_metadata_passthrough.deep_view(),
            },
            ResponseItem::CustomToolCallOutput {
                id,
                call_id,
                name,
                output,
                internal_chat_message_metadata_passthrough,
            } => ResponseItemModel::CustomToolCallOutput {
                id: id.deep_view(),
                call_id: call_id.deep_view(),
                name: name.deep_view(),
                output: output.deep_view(),
                internal_chat_message_metadata_passthrough:
                    internal_chat_message_metadata_passthrough.deep_view(),
            },
            ResponseItem::ToolSearchOutput {
                id,
                body,
                internal_chat_message_metadata_passthrough,
            } => ResponseItemModel::ToolSearchOutput {
                id: id.deep_view(),
                body: body.deep_view(),
                internal_chat_message_metadata_passthrough:
                    internal_chat_message_metadata_passthrough.deep_view(),
            },
            ResponseItem::WebSearchCall {
                id,
                body,
                internal_chat_message_metadata_passthrough,
            } => ResponseItemModel::WebSearchCall {
                id: id.deep_view(),
                body: body.deep_view(),
                internal_chat_message_metadata_passthrough:
                    internal_chat_message_metadata_passthrough.deep_view(),
            },
            ResponseItem::ImageGenerationCall {
                id,
                body,
                internal_chat_message_metadata_passthrough,
            } => ResponseItemModel::ImageGenerationCall {
                id: id.deep_view(),
                body: body.deep_view(),
                internal_chat_message_metadata_passthrough:
                    internal_chat_message_metadata_passthrough.deep_view(),
            },
            ResponseItem::Compaction { id, body, internal_chat_message_metadata_passthrough } => {
                ResponseItemModel::Compaction {
                    id: id.deep_view(),
                    body: body.deep_view(),
                    internal_chat_message_metadata_passthrough:
                        internal_chat_message_metadata_passthrough.deep_view(),
                }
            },
            ResponseItem::CompactionTrigger => ResponseItemModel::CompactionTrigger,
            ResponseItem::ContextCompaction {
                id,
                body,
                internal_chat_message_metadata_passthrough,
            } => ResponseItemModel::ContextCompaction {
                id: id.deep_view(),
                body: body.deep_view(),
                internal_chat_message_metadata_passthrough:
                    internal_chat_message_metadata_passthrough.deep_view(),
            },
            ResponseItem::Other => ResponseItemModel::Other,
        }
    }
}

impl Modeled for ResponseItem {
    fn duplicate(&self) -> (r: Self) {
        match self {
            ResponseItem::AdditionalTools {
                id,
                tools,
                body,
                internal_chat_message_metadata_passthrough,
            } => ResponseItem::AdditionalTools {
                id: id.duplicate(),
                tools: tools.duplicate(),
                body: body.duplicate(),
                internal_chat_message_metadata_passthrough:
                    internal_chat_message_metadata_passthrough.duplicate(),
            },
            ResponseItem::Message {
                id,
                role,
                content,
                phase,
                internal_chat_message_metadata_passthrough,
            } => ResponseItem::Message {
                id: id.duplicate(),
                role: role.duplicate(),
                content: content.duplicate(),
                phase: phase.duplicate(),
                internal_chat_message_metadata_passthrough:
                    internal_chat_message_metadata_passthrough.duplicate(),
            },
            ResponseItem::AgentMessage {
                id,
                author,
                recipient,
                content,
                internal_chat_message_metadata_passthrough,
            } => ResponseItem::AgentMessage {
                id: id.duplicate(),
                author: author.duplicate(),
                recipient: recipient.duplicate(),
                content: content.duplicate(),
                internal_chat_message_metadata_passthrough:
                    internal_chat_message_metadata_passthrough.duplicate(),
            },
            ResponseItem::Reasoning {
                id,
                summary,
                content,
                encrypted_content,
                internal_chat_message_metadata_passthrough,
            } => ResponseItem::Reasoning {
                id: id.duplicate(),
                summary: summary.duplicate(),
                content: content.duplicate(),
                encrypted_content: encrypted_content.duplicate(),
                internal_chat_message_metadata_passthrough:
                    internal_chat_message_metadata_passthrough.duplicate(),
            },
            ResponseItem::LocalShellCall {
                id,
                call_id,
                status,
                action,
                internal_chat_message_metadata_passthrough,
            } => ResponseItem::LocalShellCall {
                id: id.duplicate(),
                call_id: call_id.duplicate(),
                status: *status,
                action: action.duplicate(),
                internal_chat_message_metadata_passthrough:
                    internal_chat_message_metadata_passthrough.duplicate(),
            },
            ResponseItem::FunctionCall {
                id,
                name,
                namespace,
                arguments,
                call_id,
                internal_chat_message_metadata_passthrough,
            } => ResponseItem::FunctionCall {
                id: id.duplicate(),
                name: name.duplicate(),
                namespace: namespace.duplicate(),
                arguments: arguments.duplicate(),
                call_id: call_id.duplicate(),
                internal_chat_message_metadata_passthrough:
                    internal_chat_message_metadata_passthrough.duplicate(),
            },
            ResponseItem::ToolSearchCall {
                id,
                body,
                internal_chat_message_metadata_passthrough,
            } => ResponseItem::ToolSearchCall {
                id: id.duplicate(),
                body: body.duplicate(),
                internal_chat_message_metadata_passthrough:
                    internal_chat_message_metadata_passthrough.duplicate(),
            },
            ResponseItem::FunctionCallOutput {
                id,
                call_id,
                output,
                internal_chat_message_metadata_passthrough,
            } => ResponseItem::FunctionCallOutput {
                id: id.duplicate(),
                call_id: call_id.duplicate(),
                output: output.duplicate(),
                internal_chat_message_metadata_passthrough:
                    internal_chat_message_metadata_passthrough.duplicate(),
            },
            ResponseItem::CustomToolCall {
                id,
                status,
                call_id,
                name,
                namespace,
                input,
                internal_chat_message_metadata_passthrough,
            } => ResponseItem::CustomToolCall {
                id: id.duplicate(),
                status: status.duplicate(),
                call_id: call_id.duplicate(),
                name: name.duplicate(),
                namespace: namespace.duplicate(),
                input: input.duplicate(),
                internal_chat_message_metadata_passthrough:
                    internal_chat_message_metadata_passthrough.duplicate(),
            },
            ResponseItem::CustomToolCallOutput {
                id,
                call_id,
                name,
                output,
                internal_chat_message_metadata_passthrough,
            } => ResponseItem::CustomToolCallOutput {
                id: id.duplicate(),
                call_id: call_id.duplicate(),
                name: name.duplicate(),
                output: output.duplicate(),
                internal_chat_message_metadata_passthrough:
                    internal_chat_message_metadata_passthrough.duplicate(),
            },
            ResponseItem::ToolSearchOutput {
                id,
                body,
                internal_chat_message_metadata_passthrough,
            } => ResponseItem::ToolSearchOutput {
                id: id.duplicate(),
                body: body.duplicate(),
                internal_chat_message_metadata_passthrough:
                    internal_chat_message_metadata_passthrough.duplicate(),
            },
            ResponseItem::WebSearchCall {
                id,
                body,
                internal_chat_message_metadata_passthrough,
            } => ResponseItem::WebSearchCall {
                id: id.duplicate(),
                body: body.duplicate(),
                internal_chat_message_metadata_passthrough:
                    internal_chat_message_metadata_passthrough.duplicate(),
            },
            ResponseItem::ImageGenerationCall {
                id,
                body,
                internal_chat_message_metadata_passthrough,
            } => ResponseItem::ImageGenerationCall {
                id: id.duplicate(),
                body: body.duplicate(),
                internal_chat_message_metadata_passthrough:
                    internal_chat_message_metadata_passthrough.duplicate(),
            },
            ResponseItem::Compaction { id, body, internal_chat_message_metadata_passthrough } => {
                ResponseItem::Compaction {
                    id: id.duplicate(),
                    body: body.duplicate(),
                    internal_chat_message_metadata_passthrough:
                        internal_chat_message_metadata_passthrough.duplicate(),
                }
            },
            ResponseItem::CompactionTrigger => ResponseItem::CompactionTrigger,
            ResponseItem::ContextCompaction {
                id,
                body,
                internal_chat_message_metadata_passthrough,
            } => ResponseItem::ContextCompaction {
                id: id.duplicate(),
                body: body.duplicate(),
                internal_chat_message_metadata_passthrough:
                    internal_chat_message_metadata_passthrough.duplicate(),
            },
            ResponseItem::Other => ResponseItem::Other,
        }
    }

    fn same(&self, other: &Self) -> (r: bool) {
        match (self, other) {
            (
                ResponseItem::AdditionalTools {
                    id,
                    tools,
                    body,
                    internal_chat_message_metadata_passthrough,
                },
                ResponseItem::AdditionalTools {
                    id: id_other,
                    tools: tools_other,
                    body: body_other,
                    internal_chat_message_metadata_passthrough: metadata_other,
                },
            ) => {
                id.same(id_other)
                    && tools.same(tools_other)
                    && body.same(body_other)
                    && internal_chat_message_metadata_passthrough.same(metadata_other)
            },
            (
                ResponseItem::Message {
                    id,
                    role,
                    content,
                    phase,
                    internal_chat_message_metadata_passthrough,
                },
                ResponseItem::Message {
                    id: id_other,
                    role: role_other,
                    content: content_other,
                    phase: phase_other,
                    internal_chat_message_metadata_passthrough: metadata_other,
                },
            ) => {
                id.same(id_other)
                    && role.same(role_other)
                    && content.same(content_other)
                    && phase.same(phase_other)
                    && internal_chat_message_metadata_passthrough.same(metadata_other)
            },
            (
                ResponseItem::AgentMessage {
                    id,
                    author,
                    recipient,
                    content,
                    internal_chat_message_metadata_passthrough,
                },
                ResponseItem::AgentMessage {
                    id: id_other,
                    author: author_other,
                    recipient: recipient_other,
                    content: content_other,
                    internal_chat_message_metadata_passthrough: metadata_other,
                },
            ) => {
                id.same(id_other)
                    && author.same(author_other)
                    && recipient.same(recipient_other)
                    && content.same(content_other)
                    && internal_chat_message_metadata_passthrough.same(metadata_other)
            },
            (
                ResponseItem::Reasoning {
                    id,
                    summary,
                    content,
                    encrypted_content,
                    internal_chat_message_metadata_passthrough,
                },
                ResponseItem::Reasoning {
                    id: id_other,
                    summary: summary_other,
                    content: content_other,
                    encrypted_content: encrypted_content_other,
                    internal_chat_message_metadata_passthrough: metadata_other,
                },
            ) => {
                id.same(id_other)
                    && summary.same(summary_other)
                    && content.same(content_other)
                    && encrypted_content.same(encrypted_content_other)
                    && internal_chat_message_metadata_passthrough.same(metadata_other)
            },
            (
                ResponseItem::LocalShellCall {
                    id,
                    call_id,
                    status,
                    action,
                    internal_chat_message_metadata_passthrough,
                },
                ResponseItem::LocalShellCall {
                    id: id_other,
                    call_id: call_id_other,
                    status: status_other,
                    action: action_other,
                    internal_chat_message_metadata_passthrough: metadata_other,
                },
            ) => {
                id.same(id_other)
                    && call_id.same(call_id_other)
                    && *status == *status_other
                    && action.same(action_other)
                    && internal_chat_message_metadata_passthrough.same(metadata_other)
            },
            (
                ResponseItem::FunctionCall {
                    id,
                    name,
                    namespace,
                    arguments,
                    call_id,
                    internal_chat_message_metadata_passthrough,
                },
                ResponseItem::FunctionCall {
                    id: id_other,
                    name: name_other,
                    namespace: namespace_other,
                    arguments: arguments_other,
                    call_id: call_id_other,
                    internal_chat_message_metadata_passthrough: metadata_other,
                },
            ) => {
                id.same(id_other)
                    && name.same(name_other)
                    && namespace.same(namespace_other)
                    && arguments.same(arguments_other)
                    && call_id.same(call_id_other)
                    && internal_chat_message_metadata_passthrough.same(metadata_other)
            },
            (
                ResponseItem::ToolSearchCall {
                    id,
                    body,
                    internal_chat_message_metadata_passthrough,
                },
                ResponseItem::ToolSearchCall {
                    id: id_other,
                    body: body_other,
                    internal_chat_message_metadata_passthrough: metadata_other,
                },
            ) => {
                id.same(id_other)
                    && body.same(body_other)
                    && internal_chat_message_metadata_passthrough.same(metadata_other)
            },
            (
                ResponseItem::FunctionCallOutput {
                    id,
                    call_id,
                    output,
                    internal_chat_message_metadata_passthrough,
                },
                ResponseItem::FunctionCallOutput {
                    id: id_other,
                    call_id: call_id_other,
                    output: output_other,
                    internal_chat_message_metadata_passthrough: metadata_other,
                },
            ) => {
                id.same(id_other)
                    && call_id.same(call_id_other)
                    && output.same(output_other)
                    && internal_chat_message_metadata_passthrough.same(metadata_other)
            },
            (
                ResponseItem::CustomToolCall {
                    id,
                    status,
                    call_id,
                    name,
                    namespace,
                    input,
                    internal_chat_message_metadata_passthrough,
                },
                ResponseItem::CustomToolCall {
                    id: id_other,
                    status: status_other,
                    call_id: call_id_other,
                    name: name_other,
                    namespace: namespace_other,
                    input: input_other,
                    internal_chat_message_metadata_passthrough: metadata_other,
                },
            ) => {
                id.same(id_other)
                    && status.same(status_other)
                    && call_id.same(call_id_other)
                    && name.same(name_other)
                    && namespace.same(namespace_other)
                    && input.same(input_other)
                    && internal_chat_message_metadata_passthrough.same(metadata_other)
            },
            (
                ResponseItem::CustomToolCallOutput {
                    id,
                    call_id,
                    name,
                    output,
                    internal_chat_message_metadata_passthrough,
                },
                ResponseItem::CustomToolCallOutput {
                    id: id_other,
                    call_id: call_id_other,
                    name: name_other,
                    output: output_other,
                    internal_chat_message_metadata_passthrough: metadata_other,
                },
            ) => {
                id.same(id_other)
                    && call_id.same(call_id_other)
                    && name.same(name_other)
                    && output.same(output_other)
                    && internal_chat_message_metadata_passthrough.same(metadata_other)
            },
            (
                ResponseItem::ToolSearchOutput {
                    id,
                    body,
                    internal_chat_message_metadata_passthrough,
                },
                ResponseItem::ToolSearchOutput {
                    id: id_other,
                    body: body_other,
                    internal_chat_message_metadata_passthrough: metadata_other,
                },
            ) => {
                id.same(id_other)
                    && body.same(body_other)
                    && internal_chat_message_metadata_passthrough.same(metadata_other)
            },
            (
                ResponseItem::WebSearchCall {
                    id,
                    body,
                    internal_chat_message_metadata_passthrough,
                },
                ResponseItem::WebSearchCall {
                    id: id_other,
                    body: body_other,
                    internal_chat_message_metadata_passthrough: metadata_other,
                },
            ) => {
                id.same(id_other)
                    && body.same(body_other)
                    && internal_chat_message_metadata_passthrough.same(metadata_other)
            },
            (
                ResponseItem::ImageGenerationCall {
                    id,
                    body,
                    internal_chat_message_metadata_passthrough,
                },
                ResponseItem::ImageGenerationCall {
                    id: id_other,
                    body: body_other,
                    internal_chat_message_metadata_passthrough: metadata_other,
                },
            ) => {
                id.same(id_other)
                    && body.same(body_other)
                    && internal_chat_message_metadata_passthrough.same(metadata_other)
            },
            (
                ResponseItem::Compaction { id, body, internal_chat_message_metadata_passthrough },
                ResponseItem::Compaction {
                    id: id_other,
                    body: body_other,
                    internal_chat_message_metadata_passthrough: metadata_other,
                },
            ) => {
                id.same(id_other)
                    && body.same(body_other)
                    && internal_chat_message_metadata_passthrough.same(metadata_other)
            },
            (ResponseItem::CompactionTrigger, ResponseItem::CompactionTrigger) => true,
            (
                ResponseItem::ContextCompaction {
                    id,
                    body,
                    internal_chat_message_metadata_passthrough,
                },
                ResponseItem::ContextCompaction {
                    id: id_other,
                    body: body_other,
                    internal_chat_message_metadata_passthrough: metadata_other,
                },
            ) => {
                id.same(id_other)
                    && body.same(body_other)
                    && internal_chat_message_metadata_passthrough.same(metadata_other)
            },
            (ResponseItem::Other, ResponseItem::Other) => true,
            _ => false,
        }
    }
}

impl Clone for ResponseItem {
    fn clone(&self) -> (r: Self)
        ensures
            r.deep_view() == self.deep_view(),
    {
        self.duplicate()
    }
}

/// What the provider's serializer made of an item.
#[derive(Debug, PartialEq, Eq)]
pub enum EncodedItem {
    Bytes(Vec<u8>),
    Failed(String),
}

/// The mathematical content of a [`EncodedItem`].
pub enum EncodedItemModel {
    Bytes(Seq<u8>),
    Failed(Seq<char>),
}

impl DeepView for EncodedItem {
    type V = EncodedItemModel;

    open spec fn deep_view(&self) -> EncodedItemModel {
        match self {
            EncodedItem::Bytes(x) => EncodedItemModel::Bytes(x.deep_view()),
            EncodedItem::Failed(x) => EncodedItemModel::Failed(x.deep_view()),
        }
    }
}

impl Modeled for EncodedItem {
    fn duplicate(&self) -> (r: Self) {
        match self {
            EncodedItem::Bytes(x) => EncodedItem::Bytes(x.duplicate()),
            EncodedItem::Failed(x) => EncodedItem::Failed(x.duplicate()),
        }
    }

    fn same(&self, other: &Self) -> (r: bool) {
        match (self, other) {
            (EncodedItem::Bytes(x), EncodedItem::Bytes(x_other)) => x.same(x_other),
            (EncodedItem::Failed(x), EncodedItem::Failed(x_other)) => x.same(x_other),
            _ => false,
        }
    }
}

impl Clone for EncodedItem {
    fn clone(&self) -> (r: Self)
        ensures
            r.deep_view() == self.deep_view(),
    {
        self.duplicate()
    }
}

/// What the provider's decoder made of stored bytes.
#[derive(Debug, PartialEq, Eq)]
pub enum DecodedItem {
    Item(ResponseItem),
    Failed(String),
}

/// The mathematical content of a [`DecodedItem`].
pub enum DecodedItemModel {
    Item(ResponseItemModel),
    Failed(Seq<char>),
}

impl DeepView for DecodedItem {
    type V = DecodedItemModel;

    open spec fn deep_view(&self) -> DecodedItemModel {
        match self {
            DecodedItem::Item(x) => DecodedItemModel::Item(x.deep_view()),
            DecodedItem::Failed(x) => DecodedItemModel::Failed(x.deep_view()),
        }
    }
}

impl Modeled for DecodedItem {
    fn duplicate(&self) -> (r: Self) {
        match self {
            DecodedItem::Item(x) => DecodedItem::Item(x.duplicate()),
            DecodedItem::Failed(x) => DecodedItem::Failed(x.duplicate()),
        }
    }

    fn same(&self, other: &Self) -> (r: bool) {
        match (self, other) {
            (DecodedItem::Item(x), DecodedItem::Item(x_other)) => x.same(x_other),
            (DecodedItem::Failed(x), DecodedItem::Failed(x_other)) => x.same(x_other),
            _ => false,
        }
    }
}

impl Clone for DecodedItem {
    fn clone(&self) -> (r: Self)
        ensures
            r.deep_view() == self.deep_view(),
    {
        self.duplicate()
    }
}

/// What the provider's decoder made of the JSON inside a tool record.
#[derive(Debug, PartialEq, Eq)]
pub enum DecodedTool {
    Value(Json),
    Failed(String),
}

/// The mathematical content of a [`DecodedTool`].
pub enum DecodedToolModel {
    Value(JsonModel),
    Failed(Seq<char>),
}

impl DeepView for DecodedTool {
    type V = DecodedToolModel;

    open spec fn deep_view(&self) -> DecodedToolModel {
        match self {
            DecodedTool::Value(x) => DecodedToolModel::Value(x.deep_view()),
            DecodedTool::Failed(x) => DecodedToolModel::Failed(x.deep_view()),
        }
    }
}

impl Modeled for DecodedTool {
    fn duplicate(&self) -> (r: Self) {
        match self {
            DecodedTool::Value(x) => DecodedTool::Value(x.duplicate()),
            DecodedTool::Failed(x) => DecodedTool::Failed(x.duplicate()),
        }
    }

    fn same(&self, other: &Self) -> (r: bool) {
        match (self, other) {
            (DecodedTool::Value(x), DecodedTool::Value(x_other)) => x.same(x_other),
            (DecodedTool::Failed(x), DecodedTool::Failed(x_other)) => x.same(x_other),
            _ => false,
        }
    }
}

impl Clone for DecodedTool {
    fn clone(&self) -> (r: Self)
        ensures
            r.deep_view() == self.deep_view(),
    {
        self.duplicate()
    }
}

/// How the provider's decoder reads an item: its stored bytes as a response item (the bytes of a
/// message between agents as the input item that it becomes), and its tool JSON, which is the
/// output body or the shell action.
#[derive(Debug, PartialEq, Eq)]
pub struct ProviderReading {
    pub response: DecodedItem,
    pub tool: DecodedTool,
}

/// The mathematical content of a [`ProviderReading`].
pub struct ProviderReadingModel {
    pub response: DecodedItemModel,
    pub tool: DecodedToolModel,
}

impl DeepView for ProviderReading {
    type V = ProviderReadingModel;

    open spec fn deep_view(&self) -> ProviderReadingModel {
        ProviderReadingModel {
            response: self.response.deep_view(),
            tool: self.tool.deep_view(),
        }
    }
}

impl Modeled for ProviderReading {
    fn duplicate(&self) -> (r: Self) {
        ProviderReading {
            response: self.response.duplicate(),
            tool: self.tool.duplicate(),
        }
    }

    fn same(&self, other: &Self) -> (r: bool) {
        self.response.same(&other.response)
            && self.tool.same(&other.tool)
    }
}

impl Clone for ProviderReading {
    fn clone(&self) -> (r: Self)
        ensures
            r.deep_view() == self.deep_view(),
    {
        self.duplicate()
    }
}

/// A response item together with the bytes of its serialization view and how those are read back.
#[derive(Debug, PartialEq, Eq)]
pub struct WiredItem {
    pub item: ResponseItem,
    pub encoded: EncodedItem,
    pub reading: ProviderReading,
}

/// The mathematical content of a [`WiredItem`].
pub struct WiredItemModel {
    pub item: ResponseItemModel,
    pub encoded: EncodedItemModel,
    pub reading: ProviderReadingModel,
}

impl DeepView for WiredItem {
    type V = WiredItemModel;

    open spec fn deep_view(&self) -> WiredItemModel {
        WiredItemModel {
            item: self.item.deep_view(),
            encoded: self.encoded.deep_view(),
            reading: self.reading.deep_view(),
        }
    }
}

impl Modeled for WiredItem {
    fn duplicate(&self) -> (r: Self) {
        WiredItem {
            item: self.item.duplicate(),
            encoded: self.encoded.duplicate(),
            reading: self.reading.duplicate(),
        }
    }

    fn same(&self, other: &Self) -> (r: bool) {
        self.item.same(&other.item)
            && self.encoded.same(&other.encoded)
            && self.reading.same(&other.reading)
    }
}

impl Clone for WiredItem {
    fn clone(&self) -> (r: Self)
        ensures
            r.deep_view() == self.deep_view(),
    {
        self.duplicate()
    }
}

/// The original JSON of a response item and what it decodes to.
#[derive(Debug, PartialEq, Eq)]
pub struct RawItem {
    pub bytes: Vec<u8>,
    pub decoded: DecodedItem,
}

/// The mathematical content of a [`RawItem`].
pub struct RawItemModel {
    pub bytes: Seq<u8>,
    pub decoded: DecodedItemModel,
}

impl DeepView for RawItem {
    type V = RawItemModel;

    open spec fn deep_view(&self) -> RawItemModel {
        RawItemModel {
            bytes: self.bytes.deep_view(),
            decoded: self.decoded.deep_view(),
        }
    }
}

impl Modeled for RawItem {
    fn duplicate(&self) -> (r: Self) {
        RawItem {
            bytes: self.bytes.duplicate(),
            decoded: self.decoded.duplicate(),
        }
    }

    fn same(&self, other: &Self) -> (r: bool) {
        self.bytes.same(&other.bytes)
            && self.decoded.same(&other.decoded)
    }
}

impl Clone for RawItem {
    fn clone(&self) -> (r: Self)
        ensures
            r.deep_view() == self.deep_view(),
    {
        self.duplicate()
    }
}

/// A message from one agent to others.
#[derive(Debug, PartialEq, Eq)]
pub struct InterAgentCommunication {
    pub id: Option<String>,
    pub author: String,
    pub recipient: String,
    pub other_recipients: Vec<String>,
    pub content: String,
    pub encrypted_content: Option<String>,
    pub trigger_turn: bool,
}

/// The mathematical content of a [`InterAgentCommunication`].
pub struct InterAgentCommunicationModel {
    pub id: Option<Seq<char>>,
    pub author: Seq<char>,
    pub recipient: Seq<char>,
    pub other_recipients: Seq<Seq<char>>,
    pub content: Seq<char>,
    pub encrypted_content: Option<Seq<char>>,
    pub trigger_turn: bool,
}

impl DeepView for InterAgentCommunication {
    type V = InterAgentCommunicationModel;

    open spec fn deep_view(&self) -> InterAgentCommunicationModel {
        InterAgentCommunicationModel {
            id: self.id.deep_view(),
            author: self.author.deep_view(),
            recipient: self.recipient.deep_view(),
            other_recipients: self.other_recipients.deep_view(),
            content: self.content.deep_view(),
            encrypted_content: self.encrypted_content.deep_view(),
            trigger_turn: self.trigger_turn,
        }
    }
}

impl Modeled for InterAgentCommunication {
    fn duplicate(&self) -> (r: Self) {
        InterAgentCommunication {
            id: self.id.duplicate(),
            author: self.author.duplicate(),
            recipient: self.recipient.duplicate(),
            other_recipients: self.other_recipients.duplicate(),
            content: self.content.duplicate(),
            encrypted_content: self.encrypted_content.duplicate(),
            trigger_turn: self.trigger_turn,
        }
    }

    fn same(&self, other: &Self) -> (r: bool) {
        self.id.same(&other.id)
            && self.author.same(&other.author)
            && self.recipient.same(&other.recipient)
            && self.other_recipients.same(&other.other_recipients)
            && self.content.same(&other.content)
            && self.encrypted_content.same(&other.encrypted_content)
            && self.trigger_turn == other.trigger_turn
    }
}

impl Clone for InterAgentCommunication {
    fn clone(&self) -> (r: Self)
        ensures
            r.deep_view() == self.deep_view(),
    {
        self.duplicate()
    }
}

/// The record of a compaction in a rollout.
#[derive(Debug, PartialEq, Eq)]
pub struct CompactedItem {
    pub message: String,
    pub replacement_history: Option<Vec<WiredItem>>,
    pub window_number: Option<u64>,
    pub first_window_id: Option<String>,
    pub previous_window_id: Option<String>,
    pub window_id: Option<String>,
}

/// The mathematical content of a [`CompactedItem`].
pub struct CompactedItemModel {
    pub message: Seq<char>,
    pub replacement_history: Option<Seq<WiredItemModel>>,
    pub window_number: Option<u64>,
    pub first_window_id: Option<Seq<char>>,
    pub previous_window_id: Option<Seq<char>>,
    pub window_id: Option<Seq<char>>,
}

impl DeepView for CompactedItem {
    type V = CompactedItemModel;

    open spec fn deep_view(&self) -> CompactedItemModel {
        CompactedItemModel {
            message: self.message.deep_view(),
            replacement_history: self.replacement_history.deep_view(),
            window_number: self.window_number.deep_view(),
            first_window_id: self.first_window_id.deep_view(),
            previous_window_id: self.previous_window_id.deep_view(),
            window_id: self.window_id.deep_view(),
        }
    }
}

impl Modeled for CompactedItem {
    fn duplicate(&self) -> (r: Self) {
        CompactedItem {
            message: self.message.duplicate(),
            replacement_history: self.replacement_history.duplicate(),
            window_number: self.window_number.duplicate(),
            first_window_id: self.first_window_id.duplicate(),
            previous_window_id: self.previous_window_id.duplicate(),
            window_id: self.window_id.duplicate(),
        }
    }

    fn same(&self, other: &Self) -> (r: bool) {
        self.message.same(&other.message)
            && self.replacement_history.same(&other.replacement_history)
            && self.window_number.same(&other.window_number)
            && self.first_window_id.same(&other.first_window_id)
            && self.previous_window_id.same(&other.previous_window_id)
            && self.window_id.same(&other.window_id)
    }
}

impl Clone for CompactedItem {
    fn clone(&self) -> (r: Self)
        ensures
            r.deep_view() == self.deep_view(),
    {
        self.duplicate()
    }
}

/// A record of a rollout. Records without a place in the model context carry nothing here.
#[derive(Debug, PartialEq, Eq)]
pub enum RolloutItem {
    ResponseItem(WiredItem),
    InterAgentCommunication { communication: InterAgentCommunication, encoded: EncodedItem },
    Compacted(CompactedItem),
    SessionMeta,
    InterAgentCommunicationMetadata,
    RemoteExecutionProtocolMarker,
    RemoteExecutionLaunchIntent,
    RemoteExecutionWriteRequest,
    RemoteExecutionWriteIntent,
    RemoteExecutionSessionPrepared,
    RemoteExecutionSessionCommitted,
    RemoteExecutionSessionAcknowledged,
    RemoteExecutionSessionReleased,
    TurnContext,
    WorldState,
    EventMsg,
}

/// The mathematical content of a [`RolloutItem`].
pub enum RolloutItemModel {
    ResponseItem(WiredItemModel),
    InterAgentCommunication {
        communication: InterAgentCommunicationModel,
        encoded: EncodedItemModel,
    },
    Compacted(CompactedItemModel),
    SessionMeta,
    InterAgentCommunicationMetadata,
    RemoteExecutionProtocolMarker,
    RemoteExecutionLaunchIntent,
    RemoteExecutionWriteRequest,
    RemoteExecutionWriteIntent,
    RemoteExecutionSessionPrepared,
    RemoteExecutionSessionCommitted,
    RemoteExecutionSessionAcknowledged,
    RemoteExecutionSessionReleased,
    TurnContext,
    WorldState,
    EventMsg,
}

impl DeepView for RolloutItem {
    type V = RolloutItemModel;

    open spec fn deep_view(&self) -> RolloutItemModel {
        match self {
            RolloutItem::ResponseItem(x) => RolloutItemModel::ResponseItem(x.deep_view()),
            RolloutItem::InterAgentCommunication { communication, encoded } => {
                RolloutItemModel::InterAgentCommunication {
                    communication: communication.deep_view(),
                    encoded: encoded.deep_view(),
                }
            },
            RolloutItem::Compacted(x) => RolloutItemModel::Compacted(x.deep_view()),
            RolloutItem::SessionMeta => RolloutItemModel::SessionMeta,
            RolloutItem::InterAgentCommunicationMetadata => {
                RolloutItemModel::InterAgentCommunicationMetadata
            },
            RolloutItem::RemoteExecutionProtocolMarker => {
                RolloutItemModel::RemoteExecutionProtocolMarker
            },
            RolloutItem::RemoteExecutionLaunchIntent => {
                RolloutItemModel::RemoteExecutionLaunchIntent
            },
            RolloutItem::RemoteExecutionWriteRequest => {
                RolloutItemModel::RemoteExecutionWriteRequest
            },
            RolloutItem::RemoteExecutionWriteIntent => RolloutItemModel::RemoteExecutionWriteIntent,
            RolloutItem::RemoteExecutionSessionPrepared => {
                RolloutItemModel::RemoteExecutionSessionPrepared
            },
            RolloutItem::RemoteExecutionSessionCommitted => {
                RolloutItemModel::RemoteExecutionSessionCommitted
            },
            RolloutItem::RemoteExecutionSessionAcknowledged => {
                RolloutItemModel::RemoteExecutionSessionAcknowledged
            },
            RolloutItem::RemoteExecutionSessionReleased => {
                RolloutItemModel::RemoteExecutionSessionReleased
            },
            RolloutItem::TurnContext => RolloutItemModel::TurnContext,
            RolloutItem::WorldState => RolloutItemModel::WorldState,
            RolloutItem::EventMsg => RolloutItemModel::EventMsg,
        }
    }
}

impl Modeled for RolloutItem {
    fn duplicate(&self) -> (r: Self) {
        match self {
            RolloutItem::ResponseItem(x) => RolloutItem::ResponseItem(x.duplicate()),
            RolloutItem::InterAgentCommunication { communication, encoded } => {
                RolloutItem::InterAgentCommunication {
                    communication: communication.duplicate(),
                    encoded: encoded.duplicate(),
                }
            },
            RolloutItem::Compacted(x) => RolloutItem::Compacted(x.duplicate()),
            RolloutItem::SessionMeta => RolloutItem::SessionMeta,
            RolloutItem::InterAgentCommunicationMetadata => {
                RolloutItem::InterAgentCommunicationMetadata
            },
            RolloutItem::RemoteExecutionProtocolMarker => {
                RolloutItem::RemoteExecutionProtocolMarker
            },
            RolloutItem::RemoteExecutionLaunchIntent => RolloutItem::RemoteExecutionLaunchIntent,
            RolloutItem::RemoteExecutionWriteRequest => RolloutItem::RemoteExecutionWriteRequest,
            RolloutItem::RemoteExecutionWriteIntent => RolloutItem::RemoteExecutionWriteIntent,
            RolloutItem::RemoteExecutionSessionPrepared => {
                RolloutItem::RemoteExecutionSessionPrepared
            },
            RolloutItem::RemoteExecutionSessionCommitted => {
                RolloutItem::RemoteExecutionSessionCommitted
            },
            RolloutItem::RemoteExecutionSessionAcknowledged => {
                RolloutItem::RemoteExecutionSessionAcknowledged
            },
            RolloutItem::RemoteExecutionSessionReleased => {
                RolloutItem::RemoteExecutionSessionReleased
            },
            RolloutItem::TurnContext => RolloutItem::TurnContext,
            RolloutItem::WorldState => RolloutItem::WorldState,
            RolloutItem::EventMsg => RolloutItem::EventMsg,
        }
    }

    fn same(&self, other: &Self) -> (r: bool) {
        match (self, other) {
            (RolloutItem::ResponseItem(x), RolloutItem::ResponseItem(x_other)) => x.same(x_other),
            (
                RolloutItem::InterAgentCommunication { communication, encoded },
                RolloutItem::InterAgentCommunication {
                    communication: communication_other,
                    encoded: encoded_other,
                },
            ) => communication.same(communication_other) && encoded.same(encoded_other),
            (RolloutItem::Compacted(x), RolloutItem::Compacted(x_other)) => x.same(x_other),
            (RolloutItem::SessionMeta, RolloutItem::SessionMeta) => true,
            (
                RolloutItem::InterAgentCommunicationMetadata,
                RolloutItem::InterAgentCommunicationMetadata,
            ) => true,
            (
                RolloutItem::RemoteExecutionProtocolMarker,
                RolloutItem::RemoteExecutionProtocolMarker,
            ) => true,
            (
                RolloutItem::RemoteExecutionLaunchIntent,
                RolloutItem::RemoteExecutionLaunchIntent,
            ) => true,
            (
                RolloutItem::RemoteExecutionWriteRequest,
                RolloutItem::RemoteExecutionWriteRequest,
            ) => true,
            (RolloutItem::RemoteExecutionWriteIntent, RolloutItem::RemoteExecutionWriteIntent) => {
                true
            },
            (
                RolloutItem::RemoteExecutionSessionPrepared,
                RolloutItem::RemoteExecutionSessionPrepared,
            ) => true,
            (
                RolloutItem::RemoteExecutionSessionCommitted,
                RolloutItem::RemoteExecutionSessionCommitted,
            ) => true,
            (
                RolloutItem::RemoteExecutionSessionAcknowledged,
                RolloutItem::RemoteExecutionSessionAcknowledged,
            ) => true,
            (
                RolloutItem::RemoteExecutionSessionReleased,
                RolloutItem::RemoteExecutionSessionReleased,
            ) => true,
            (RolloutItem::TurnContext, RolloutItem::TurnContext) => true,
            (RolloutItem::WorldState, RolloutItem::WorldState) => true,
            (RolloutItem::EventMsg, RolloutItem::EventMsg) => true,
            _ => false,
        }
    }
}

impl Clone for RolloutItem {
    fn clone(&self) -> (r: Self)
        ensures
            r.deep_view() == self.deep_view(),
    {
        self.duplicate()
    }
}


} // verus!
