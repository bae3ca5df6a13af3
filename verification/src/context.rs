//! The provider-neutral journal of a conversation: its types and their content.
use vstd::prelude::*;

use crate::json::{Json, JsonModel};
use crate::model::Modeled;
use crate::text::{decimal, decimal_text, glue3};

verus! {

/// Bytes that only the owning adapter reads. They are never shown in diagnostics.
#[derive(PartialEq, Eq)]
pub struct OpaquePayload(Vec<u8>);

impl DeepView for OpaquePayload {
    type V = Seq<u8>;

    closed spec fn deep_view(&self) -> Seq<u8> {
        self.0.deep_view()
    }
}

impl Modeled for OpaquePayload {
    fn duplicate(&self) -> (r: Self) {
        OpaquePayload(self.0.duplicate())
    }

    fn same(&self, other: &Self) -> (r: bool) {
        self.0.same(&other.0)
    }
}

impl Clone for OpaquePayload {
    fn clone(&self) -> (r: Self)
        ensures
            r.deep_view() == self.deep_view(),
    {
        self.duplicate()
    }
}

impl OpaquePayload {
    /// Wraps the bytes of a provider record.
    pub fn new(bytes: Vec<u8>) -> (r: Self)
        ensures
            r.deep_view() == bytes@,
    {
        let r = OpaquePayload(bytes);
        assert(r.0.deep_view() =~= bytes@);
        r
    }

    /// Returns the exact bytes only for serialization by the owning adapter.
    pub fn as_bytes(&self) -> (r: &[u8])
        ensures
            r@ == self.deep_view(),
    {
        assert(self.0.deep_view() =~= self.0@);
        self.0.as_slice()
    }

    /// What diagnostics say of the payload: its length, and nothing of its content.
    pub fn redacted(&self) -> (r: String)
        ensures
            r@ == "<redacted opaque payload: "@ + decimal_text(self.deep_view().len())
                + " bytes>"@,
    {
        assert(self.0.deep_view() =~= self.0@);
        glue3("<redacted opaque payload: ", decimal(self.0.len() as u64).as_str(), " bytes>")
    }
}

/// The identity under which a provider continues a conversation.
#[derive(Debug, PartialEq, Eq)]
pub struct ProviderLineage {
    pub provider: String,
    pub protocol: String,
    /// Adapter-defined compatibility identity. A model change may keep or
    /// replace this value depending on provider continuation rules.
    pub lineage_id: String,
}

/// The mathematical content of a [`ProviderLineage`].
pub struct ProviderLineageModel {
    pub provider: Seq<char>,
    pub protocol: Seq<char>,
    pub lineage_id: Seq<char>,
}

impl DeepView for ProviderLineage {
    type V = ProviderLineageModel;

    open spec fn deep_view(&self) -> ProviderLineageModel {
        ProviderLineageModel {
            provider: self.provider.deep_view(),
            protocol: self.protocol.deep_view(),
            lineage_id: self.lineage_id.deep_view(),
        }
    }
}

impl Modeled for ProviderLineage {
    fn duplicate(&self) -> (r: Self) {
        ProviderLineage {
            provider: self.provider.duplicate(),
            protocol: self.protocol.duplicate(),
            lineage_id: self.lineage_id.duplicate(),
        }
    }

    fn same(&self, other: &Self) -> (r: bool) {
        self.provider.same(&other.provider)
            && self.protocol.same(&other.protocol)
            && self.lineage_id.same(&other.lineage_id)
    }
}

impl Clone for ProviderLineage {
    fn clone(&self) -> (r: Self)
        ensures
            r.deep_view() == self.deep_view(),
    {
        self.duplicate()
    }
}

/// A record that only the adapter of one provider lineage can read.
#[derive(PartialEq, Eq)]
pub struct ProviderOpaqueItem {
    pub lineage: ProviderLineage,
    pub provider_item_id: String,
    pub kind: String,
    pub payload: OpaquePayload,
}

/// The mathematical content of a [`ProviderOpaqueItem`].
pub struct ProviderOpaqueItemModel {
    pub lineage: ProviderLineageModel,
    pub provider_item_id: Seq<char>,
    pub kind: Seq<char>,
    pub payload: Seq<u8>,
}

impl DeepView for ProviderOpaqueItem {
    type V = ProviderOpaqueItemModel;

    open spec fn deep_view(&self) -> ProviderOpaqueItemModel {
        ProviderOpaqueItemModel {
            lineage: self.lineage.deep_view(),
            provider_item_id: self.provider_item_id.deep_view(),
            kind: self.kind.deep_view(),
            payload: self.payload.deep_view(),
        }
    }
}

impl Modeled for ProviderOpaqueItem {
    fn duplicate(&self) -> (r: Self) {
        ProviderOpaqueItem {
            lineage: self.lineage.duplicate(),
            provider_item_id: self.provider_item_id.duplicate(),
            kind: self.kind.duplicate(),
            payload: self.payload.duplicate(),
        }
    }

    fn same(&self, other: &Self) -> (r: bool) {
        self.lineage.same(&other.lineage)
            && self.provider_item_id.same(&other.provider_item_id)
            && self.kind.same(&other.kind)
            && self.payload.same(&other.payload)
    }
}

impl Clone for ProviderOpaqueItem {
    fn clone(&self) -> (r: Self)
        ensures
            r.deep_view() == self.deep_view(),
    {
        self.duplicate()
    }
}

/// Who speaks in a message.
#[derive(Clone, Copy, Debug, PartialEq, Eq, Structural)]
pub enum MessageRole {
    User,
    Assistant,
    Developer,
    System,
}

impl DeepView for MessageRole {
    type V = MessageRole;

    open spec fn deep_view(&self) -> MessageRole {
        *self
    }
}

impl Modeled for MessageRole {
    fn duplicate(&self) -> (r: Self) {
        *self
    }

    fn same(&self, other: &Self) -> (r: bool) {
        *self == *other
    }
}

/// Which readers a message is meant for.
#[derive(Clone, Copy, Debug, PartialEq, Eq, Structural)]
pub enum MessageVisibility {
    TranscriptAndModel,
    TranscriptOnly,
    ModelOnly,
}

impl DeepView for MessageVisibility {
    type V = MessageVisibility;

    open spec fn deep_view(&self) -> MessageVisibility {
        *self
    }
}

impl Modeled for MessageVisibility {
    fn duplicate(&self) -> (r: Self) {
        *self
    }

    fn same(&self, other: &Self) -> (r: bool) {
        *self == *other
    }
}

/// The part of a turn in which a message was written.
#[derive(Clone, Copy, Debug, PartialEq, Eq, Structural)]
pub enum MessagePhase {
    Commentary,
    FinalAnswer,
}

impl DeepView for MessagePhase {
    type V = MessagePhase;

    open spec fn deep_view(&self) -> MessagePhase {
        *self
    }
}

impl Modeled for MessagePhase {
    fn duplicate(&self) -> (r: Self) {
        *self
    }

    fn same(&self, other: &Self) -> (r: bool) {
        *self == *other
    }
}

/// Whether a routed message starts a turn of its recipient.
#[derive(Clone, Copy, Debug, PartialEq, Eq, Structural)]
pub enum MessageDelivery {
    QueueOnly,
    TriggerTurn,
}

impl DeepView for MessageDelivery {
    type V = MessageDelivery;

    open spec fn deep_view(&self) -> MessageDelivery {
        *self
    }
}

impl Modeled for MessageDelivery {
    fn duplicate(&self) -> (r: Self) {
        *self
    }

    fn same(&self, other: &Self) -> (r: bool) {
        *self == *other
    }
}

/// The author and the recipients of a message between agents.
#[derive(Debug, PartialEq, Eq)]
pub struct MessageRoute {
    pub author: String,
    pub recipients: Vec<String>,
    pub delivery: Option<MessageDelivery>,
}

/// The mathematical content of a [`MessageRoute`].
pub struct MessageRouteModel {
    pub author: Seq<char>,
    pub recipients: Seq<Seq<char>>,
    pub delivery: Option<MessageDelivery>,
}

impl DeepView for MessageRoute {
    type V = MessageRouteModel;

    open spec fn deep_view(&self) -> MessageRouteModel {
        MessageRouteModel {
            author: self.author.deep_view(),
            recipients: self.recipients.deep_view(),
            delivery: self.delivery.deep_view(),
        }
    }
}

impl Modeled for MessageRoute {
    fn duplicate(&self) -> (r: Self) {
        MessageRoute {
            author: self.author.duplicate(),
            recipients: self.recipients.duplicate(),
            delivery: self.delivery.duplicate(),
        }
    }

    fn same(&self, other: &Self) -> (r: bool) {
        self.author.same(&other.author)
            && self.recipients.same(&other.recipients)
            && self.delivery.same(&other.delivery)
    }
}

impl Clone for MessageRoute {
    fn clone(&self) -> (r: Self)
        ensures
            r.deep_view() == self.deep_view(),
    {
        self.duplicate()
    }
}

/// The kinds of attached media.
#[derive(Clone, Copy, Debug, PartialEq, Eq, Structural)]
pub enum AttachmentKind {
    Image,
    Audio,
    File,
}

impl DeepView for AttachmentKind {
    type V = AttachmentKind;

    open spec fn deep_view(&self) -> AttachmentKind {
        *self
    }
}

impl Modeled for AttachmentKind {
    fn duplicate(&self) -> (r: Self) {
        *self
    }

    fn same(&self, other: &Self) -> (r: bool) {
        *self == *other
    }
}

/// The resolution at which an image is shown to the model.
#[derive(Clone, Copy, Debug, PartialEq, Eq, Structural)]
pub enum ImageDetail {
    Auto,
    Low,
    High,
    Original,
}

impl DeepView for ImageDetail {
    type V = ImageDetail;

    open spec fn deep_view(&self) -> ImageDetail {
        *self
    }
}

impl Modeled for ImageDetail {
    fn duplicate(&self) -> (r: Self) {
        *self
    }

    fn same(&self, other: &Self) -> (r: bool) {
        *self == *other
    }
}

/// One part of a message.
#[derive(Debug, PartialEq, Eq)]
pub enum ContentPart {
    Text { text: String },
    Attachment {
        attachment_id: String,
        media_type: String,
        kind: AttachmentKind,
        image_detail: Option<ImageDetail>,
    },
}

/// The mathematical content of a [`ContentPart`].
pub enum ContentPartModel {
    Text { text: Seq<char> },
    Attachment {
        attachment_id: Seq<char>,
        media_type: Seq<char>,
        kind: AttachmentKind,
        image_detail: Option<ImageDetail>,
    },
}

impl DeepView for ContentPart {
    type V = ContentPartModel;

    open spec fn deep_view(&self) -> ContentPartModel {
        match self {
            ContentPart::Text { text } => ContentPartModel::Text { text: text.deep_view() },
            ContentPart::Attachment { attachment_id, media_type, kind, image_detail } => {
                ContentPartModel::Attachment {
                    attachment_id: attachment_id.deep_view(),
                    media_type: media_type.deep_view(),
                    kind: *kind,
                    image_detail: image_detail.deep_view(),
                }
            },
        }
    }
}

impl Modeled for ContentPart {
    fn duplicate(&self) -> (r: Self) {
        match self {
            ContentPart::Text { text } => ContentPart::Text { text: text.duplicate() },
            ContentPart::Attachment { attachment_id, media_type, kind, image_detail } => {
                ContentPart::Attachment {
                    attachment_id: attachment_id.duplicate(),
                    media_type: media_type.duplicate(),
                    kind: *kind,
                    image_detail: image_detail.duplicate(),
                }
            },
        }
    }

    fn same(&self, other: &Self) -> (r: bool) {
        match (self, other) {
            (ContentPart::Text { text }, ContentPart::Text { text: text_other }) => text.same(
                text_other,
            ),
            (
                ContentPart::Attachment { attachment_id, media_type, kind, image_detail },
                ContentPart::Attachment {
                    attachment_id: attachment_id_other,
                    media_type: media_type_other,
                    kind: kind_other,
                    image_detail: image_detail_other,
                },
            ) => {
                attachment_id.same(attachment_id_other)
                    && media_type.same(media_type_other)
                    && *kind == *kind_other
                    && image_detail.same(image_detail_other)
            },
            _ => false,
        }
    }
}

impl Clone for ContentPart {
    fn clone(&self) -> (r: Self)
        ensures
            r.deep_view() == self.deep_view(),
    {
        self.duplicate()
    }
}

/// A message of the conversation.
#[derive(Debug, PartialEq, Eq)]
pub struct Message {
    pub role: MessageRole,
    pub visibility: MessageVisibility,
    pub content: Vec<ContentPart>,
    pub phase: Option<MessagePhase>,
    pub route: Option<MessageRoute>,
}

/// The mathematical content of a [`Message`].
pub struct MessageModel {
    pub role: MessageRole,
    pub visibility: MessageVisibility,
    pub content: Seq<ContentPartModel>,
    pub phase: Option<MessagePhase>,
    pub route: Option<MessageRouteModel>,
}

impl DeepView for Message {
    type V = MessageModel;

    open spec fn deep_view(&self) -> MessageModel {
        MessageModel {
            role: self.role,
            visibility: self.visibility,
            content: self.content.deep_view(),
            phase: self.phase.deep_view(),
            route: self.route.deep_view(),
        }
    }
}

impl Modeled for Message {
    fn duplicate(&self) -> (r: Self) {
        Message {
            role: self.role,
            visibility: self.visibility,
            content: self.content.duplicate(),
            phase: self.phase.duplicate(),
            route: self.route.duplicate(),
        }
    }

    fn same(&self, other: &Self) -> (r: bool) {
        self.role == other.role
            && self.visibility == other.visibility
            && self.content.same(&other.content)
            && self.phase.same(&other.phase)
            && self.route.same(&other.route)
    }
}

impl Clone for Message {
    fn clone(&self) -> (r: Self)
        ensures
            r.deep_view() == self.deep_view(),
    {
        self.duplicate()
    }
}

/// How far a tool call has come.
#[derive(Clone, Copy, Debug, PartialEq, Eq, Structural)]
pub enum ToolPhase {
    Requested,
    Completed,
    Failed,
}

impl DeepView for ToolPhase {
    type V = ToolPhase;

    open spec fn deep_view(&self) -> ToolPhase {
        *self
    }
}

impl Modeled for ToolPhase {
    fn duplicate(&self) -> (r: Self) {
        *self
    }

    fn same(&self, other: &Self) -> (r: bool) {
        *self == *other
    }
}

/// A tool call or its result.
#[derive(Debug, PartialEq, Eq)]
pub struct ToolRecord {
    pub call_id: String,
    pub name: String,
    pub phase: ToolPhase,
    pub data: Json,
}

/// The mathematical content of a [`ToolRecord`].
pub struct ToolRecordModel {
    pub call_id: Seq<char>,
    pub name: Seq<char>,
    pub phase: ToolPhase,
    pub data: JsonModel,
}

impl DeepView for ToolRecord {
    type V = ToolRecordModel;

    open spec fn deep_view(&self) -> ToolRecordModel {
        ToolRecordModel {
            call_id: self.call_id.deep_view(),
            name: self.name.deep_view(),
            phase: self.phase,
            data: self.data.deep_view(),
        }
    }
}

impl Modeled for ToolRecord {
    fn duplicate(&self) -> (r: Self) {
        ToolRecord {
            call_id: self.call_id.duplicate(),
            name: self.name.duplicate(),
            phase: self.phase,
            data: self.data.duplicate(),
        }
    }

    fn same(&self, other: &Self) -> (r: bool) {
        self.call_id.same(&other.call_id)
            && self.name.same(&other.name)
            && self.phase == other.phase
            && self.data.same(&other.data)
    }
}

impl Clone for ToolRecord {
    fn clone(&self) -> (r: Self)
        ensures
            r.deep_view() == self.deep_view(),
    {
        self.duplicate()
    }
}

/// What the model is shown of one record.
#[derive(PartialEq, Eq)]
pub enum ModelContextPayload {
    Message(Message),
    Tool(ToolRecord),
    ProviderOpaque(ProviderOpaqueItem),
}

/// The mathematical content of a [`ModelContextPayload`].
pub enum ModelContextPayloadModel {
    Message(MessageModel),
    Tool(ToolRecordModel),
    ProviderOpaque(ProviderOpaqueItemModel),
}

impl DeepView for ModelContextPayload {
    type V = ModelContextPayloadModel;

    open spec fn deep_view(&self) -> ModelContextPayloadModel {
        match self {
            ModelContextPayload::Message(x) => ModelContextPayloadModel::Message(x.deep_view()),
            ModelContextPayload::Tool(x) => ModelContextPayloadModel::Tool(x.deep_view()),
            ModelContextPayload::ProviderOpaque(x) => ModelContextPayloadModel::ProviderOpaque(
                x.deep_view(),
            ),
        }
    }
}

impl Modeled for ModelContextPayload {
    fn duplicate(&self) -> (r: Self) {
        match self {
            ModelContextPayload::Message(x) => ModelContextPayload::Message(x.duplicate()),
            ModelContextPayload::Tool(x) => ModelContextPayload::Tool(x.duplicate()),
            ModelContextPayload::ProviderOpaque(x) => ModelContextPayload::ProviderOpaque(
                x.duplicate(),
            ),
        }
    }

    fn same(&self, other: &Self) -> (r: bool) {
        match (self, other) {
            (ModelContextPayload::Message(x), ModelContextPayload::Message(x_other)) => x.same(
                x_other,
            ),
            (ModelContextPayload::Tool(x), ModelContextPayload::Tool(x_other)) => x.same(x_other),
            (
                ModelContextPayload::ProviderOpaque(x),
                ModelContextPayload::ProviderOpaque(x_other),
            ) => x.same(x_other),
            _ => false,
        }
    }
}

impl Clone for ModelContextPayload {
    fn clone(&self) -> (r: Self)
        ensures
            r.deep_view() == self.deep_view(),
    {
        self.duplicate()
    }
}

/// One item of the bounded context that the model is shown.
#[derive(PartialEq, Eq)]
pub struct ModelContextItem {
    pub id: String,
    pub source_sequence: Option<u64>,
    pub payload: ModelContextPayload,
}

/// The mathematical content of a [`ModelContextItem`].
pub struct ModelContextItemModel {
    pub id: Seq<char>,
    pub source_sequence: Option<u64>,
    pub payload: ModelContextPayloadModel,
}

impl DeepView for ModelContextItem {
    type V = ModelContextItemModel;

    open spec fn deep_view(&self) -> ModelContextItemModel {
        ModelContextItemModel {
            id: self.id.deep_view(),
            source_sequence: self.source_sequence.deep_view(),
            payload: self.payload.deep_view(),
        }
    }
}

impl Modeled for ModelContextItem {
    fn duplicate(&self) -> (r: Self) {
        ModelContextItem {
            id: self.id.duplicate(),
            source_sequence: self.source_sequence.duplicate(),
            payload: self.payload.duplicate(),
        }
    }

    fn same(&self, other: &Self) -> (r: bool) {
        self.id.same(&other.id)
            && self.source_sequence.same(&other.source_sequence)
            && self.payload.same(&other.payload)
    }
}

impl Clone for ModelContextItem {
    fn clone(&self) -> (r: Self)
        ensures
            r.deep_view() == self.deep_view(),
    {
        self.duplicate()
    }
}

/// How a checkpoint replaces the history before it.
#[derive(Clone, Copy, Debug, PartialEq, Eq, Structural)]
pub enum CompactionMode {
    Semantic,
    ProviderNative,
}

impl DeepView for CompactionMode {
    type V = CompactionMode;

    open spec fn deep_view(&self) -> CompactionMode {
        *self
    }
}

impl Modeled for CompactionMode {
    fn duplicate(&self) -> (r: Self) {
        *self
    }

    fn same(&self, other: &Self) -> (r: bool) {
        *self == *other
    }
}

/// A replacement for all events up to a sequence number.
#[derive(PartialEq, Eq)]
pub struct ContextCheckpoint {
    pub id: String,
    pub conversation_id: String,
    pub through_sequence: u64,
    /// None is a provider-neutral semantic checkpoint. Native checkpoints are
    /// usable only by the exact adapter-defined lineage.
    pub lineage: Option<ProviderLineage>,
    pub mode: CompactionMode,
    pub replacement: Vec<ModelContextItem>,
}

/// The mathematical content of a [`ContextCheckpoint`].
pub struct ContextCheckpointModel {
    pub id: Seq<char>,
    pub conversation_id: Seq<char>,
    pub through_sequence: u64,
    pub lineage: Option<ProviderLineageModel>,
    pub mode: CompactionMode,
    pub replacement: Seq<ModelContextItemModel>,
}

impl DeepView for ContextCheckpoint {
    type V = ContextCheckpointModel;

    open spec fn deep_view(&self) -> ContextCheckpointModel {
        ContextCheckpointModel {
            id: self.id.deep_view(),
            conversation_id: self.conversation_id.deep_view(),
            through_sequence: self.through_sequence,
            lineage: self.lineage.deep_view(),
            mode: self.mode,
            replacement: self.replacement.deep_view(),
        }
    }
}

impl Modeled for ContextCheckpoint {
    fn duplicate(&self) -> (r: Self) {
        ContextCheckpoint {
            id: self.id.duplicate(),
            conversation_id: self.conversation_id.duplicate(),
            through_sequence: self.through_sequence,
            lineage: self.lineage.duplicate(),
            mode: self.mode,
            replacement: self.replacement.duplicate(),
        }
    }

    fn same(&self, other: &Self) -> (r: bool) {
        self.id.same(&other.id)
            && self.conversation_id.same(&other.conversation_id)
            && self.through_sequence == other.through_sequence
            && self.lineage.same(&other.lineage)
            && self.mode == other.mode
            && self.replacement.same(&other.replacement)
    }
}

impl Clone for ContextCheckpoint {
    fn clone(&self) -> (r: Self)
        ensures
            r.deep_view() == self.deep_view(),
    {
        self.duplicate()
    }
}

/// What a journal event records.
#[derive(PartialEq, Eq)]
pub enum ContextEventPayload {
    Message(Message),
    Tool(ToolRecord),
    ProviderOpaque(ProviderOpaqueItem),
    Compaction(ContextCheckpoint),
}

/// The mathematical content of a [`ContextEventPayload`].
pub enum ContextEventPayloadModel {
    Message(MessageModel),
    Tool(ToolRecordModel),
    ProviderOpaque(ProviderOpaqueItemModel),
    Compaction(ContextCheckpointModel),
}

impl DeepView for ContextEventPayload {
    type V = ContextEventPayloadModel;

    open spec fn deep_view(&self) -> ContextEventPayloadModel {
        match self {
            ContextEventPayload::Message(x) => ContextEventPayloadModel::Message(x.deep_view()),
            ContextEventPayload::Tool(x) => ContextEventPayloadModel::Tool(x.deep_view()),
            ContextEventPayload::ProviderOpaque(x) => ContextEventPayloadModel::ProviderOpaque(
                x.deep_view(),
            ),
            ContextEventPayload::Compaction(x) => ContextEventPayloadModel::Compaction(
                x.deep_view(),
            ),
        }
    }
}

impl Modeled for ContextEventPayload {
    fn duplicate(&self) -> (r: Self) {
        match self {
            ContextEventPayload::Message(x) => ContextEventPayload::Message(x.duplicate()),
            ContextEventPayload::Tool(x) => ContextEventPayload::Tool(x.duplicate()),
            ContextEventPayload::ProviderOpaque(x) => ContextEventPayload::ProviderOpaque(
                x.duplicate(),
            ),
            ContextEventPayload::Compaction(x) => ContextEventPayload::Compaction(x.duplicate()),
        }
    }

    fn same(&self, other: &Self) -> (r: bool) {
        match (self, other) {
            (ContextEventPayload::Message(x), ContextEventPayload::Message(x_other)) => x.same(
                x_other,
            ),
            (ContextEventPayload::Tool(x), ContextEventPayload::Tool(x_other)) => x.same(x_other),
            (
                ContextEventPayload::ProviderOpaque(x),
                ContextEventPayload::ProviderOpaque(x_other),
            ) => x.same(x_other),
            (ContextEventPayload::Compaction(x), ContextEventPayload::Compaction(x_other)) => {
                x.same(x_other)
            },
            _ => false,
        }
    }
}

impl Clone for ContextEventPayload {
    fn clone(&self) -> (r: Self)
        ensures
            r.deep_view() == self.deep_view(),
    {
        self.duplicate()
    }
}

/// One immutable event of a conversation's journal.
#[derive(PartialEq, Eq)]
pub struct ContextEvent {
    pub id: String,
    pub conversation_id: String,
    pub turn_id: Option<String>,
    pub sequence: u64,
    pub payload: ContextEventPayload,
}

/// The mathematical content of a [`ContextEvent`].
pub struct ContextEventModel {
    pub id: Seq<char>,
    pub conversation_id: Seq<char>,
    pub turn_id: Option<Seq<char>>,
    pub sequence: u64,
    pub payload: ContextEventPayloadModel,
}

impl DeepView for ContextEvent {
    type V = ContextEventModel;

    open spec fn deep_view(&self) -> ContextEventModel {
        ContextEventModel {
            id: self.id.deep_view(),
            conversation_id: self.conversation_id.deep_view(),
            turn_id: self.turn_id.deep_view(),
            sequence: self.sequence,
            payload: self.payload.deep_view(),
        }
    }
}

impl Modeled for ContextEvent {
    fn duplicate(&self) -> (r: Self) {
        ContextEvent {
            id: self.id.duplicate(),
            conversation_id: self.conversation_id.duplicate(),
            turn_id: self.turn_id.duplicate(),
            sequence: self.sequence,
            payload: self.payload.duplicate(),
        }
    }

    fn same(&self, other: &Self) -> (r: bool) {
        self.id.same(&other.id)
            && self.conversation_id.same(&other.conversation_id)
            && self.turn_id.same(&other.turn_id)
            && self.sequence == other.sequence
            && self.payload.same(&other.payload)
    }
}

impl Clone for ContextEvent {
    fn clone(&self) -> (r: Self)
        ensures
            r.deep_view() == self.deep_view(),
    {
        self.duplicate()
    }
}

/// The two readings of a journal: the whole transcript and the bounded model context.
#[derive(PartialEq, Eq)]
pub struct ContextProjection {
    pub transcript: Vec<ContextEvent>,
    pub model_context: Vec<ModelContextItem>,
    pub excluded_opaque_event_ids: Vec<String>,
    pub checkpoint_id: Option<String>,
}

/// The mathematical content of a [`ContextProjection`].
pub struct ContextProjectionModel {
    pub transcript: Seq<ContextEventModel>,
    pub model_context: Seq<ModelContextItemModel>,
    pub excluded_opaque_event_ids: Seq<Seq<char>>,
    pub checkpoint_id: Option<Seq<char>>,
}

impl DeepView for ContextProjection {
    type V = ContextProjectionModel;

    open spec fn deep_view(&self) -> ContextProjectionModel {
        ContextProjectionModel {
            transcript: self.transcript.deep_view(),
            model_context: self.model_context.deep_view(),
            excluded_opaque_event_ids: self.excluded_opaque_event_ids.deep_view(),
            checkpoint_id: self.checkpoint_id.deep_view(),
        }
    }
}

impl Modeled for ContextProjection {
    fn duplicate(&self) -> (r: Self) {
        ContextProjection {
            transcript: self.transcript.duplicate(),
            model_context: self.model_context.duplicate(),
            excluded_opaque_event_ids: self.excluded_opaque_event_ids.duplicate(),
            checkpoint_id: self.checkpoint_id.duplicate(),
        }
    }

    fn same(&self, other: &Self) -> (r: bool) {
        self.transcript.same(&other.transcript)
            && self.model_context.same(&other.model_context)
            && self.excluded_opaque_event_ids.same(&other.excluded_opaque_event_ids)
            && self.checkpoint_id.same(&other.checkpoint_id)
    }
}

impl Clone for ContextProjection {
    fn clone(&self) -> (r: Self)
        ensures
            r.deep_view() == self.deep_view(),
    {
        self.duplicate()
    }
}

/// A request to continue a prefix of one conversation as another.
#[derive(Debug, PartialEq, Eq)]
pub struct ForkRequest {
    pub source_conversation_id: String,
    pub target_conversation_id: String,
    pub through_sequence: u64,
}

/// The mathematical content of a [`ForkRequest`].
pub struct ForkRequestModel {
    pub source_conversation_id: Seq<char>,
    pub target_conversation_id: Seq<char>,
    pub through_sequence: u64,
}

impl DeepView for ForkRequest {
    type V = ForkRequestModel;

    open spec fn deep_view(&self) -> ForkRequestModel {
        ForkRequestModel {
            source_conversation_id: self.source_conversation_id.deep_view(),
            target_conversation_id: self.target_conversation_id.deep_view(),
            through_sequence: self.through_sequence,
        }
    }
}

impl Modeled for ForkRequest {
    fn duplicate(&self) -> (r: Self) {
        ForkRequest {
            source_conversation_id: self.source_conversation_id.duplicate(),
            target_conversation_id: self.target_conversation_id.duplicate(),
            through_sequence: self.through_sequence,
        }
    }

    fn same(&self, other: &Self) -> (r: bool) {
        self.source_conversation_id.same(&other.source_conversation_id)
            && self.target_conversation_id.same(&other.target_conversation_id)
            && self.through_sequence == other.through_sequence
    }
}

impl Clone for ForkRequest {
    fn clone(&self) -> (r: Self)
        ensures
            r.deep_view() == self.deep_view(),
    {
        self.duplicate()
    }
}

/// What a forked conversation starts from.
#[derive(PartialEq, Eq)]
pub struct ForkSeed {
    pub source_conversation_id: String,
    pub target_conversation_id: String,
    pub forked_at_sequence: u64,
    pub transcript: Vec<ContextEvent>,
    pub model_context: Vec<ModelContextItem>,
}

/// The mathematical content of a [`ForkSeed`].
pub struct ForkSeedModel {
    pub source_conversation_id: Seq<char>,
    pub target_conversation_id: Seq<char>,
    pub forked_at_sequence: u64,
    pub transcript: Seq<ContextEventModel>,
    pub model_context: Seq<ModelContextItemModel>,
}

impl DeepView for ForkSeed {
    type V = ForkSeedModel;

    open spec fn deep_view(&self) -> ForkSeedModel {
        ForkSeedModel {
            source_conversation_id: self.source_conversation_id.deep_view(),
            target_conversation_id: self.target_conversation_id.deep_view(),
            forked_at_sequence: self.forked_at_sequence,
            transcript: self.transcript.deep_view(),
            model_context: self.model_context.deep_view(),
        }
    }
}

impl Modeled for ForkSeed {
    fn duplicate(&self) -> (r: Self) {
        ForkSeed {
            source_conversation_id: self.source_conversation_id.duplicate(),
            target_conversation_id: self.target_conversation_id.duplicate(),
            forked_at_sequence: self.forked_at_sequence,
            transcript: self.transcript.duplicate(),
            model_context: self.model_context.duplicate(),
        }
    }

    fn same(&self, other: &Self) -> (r: bool) {
        self.source_conversation_id.same(&other.source_conversation_id)
            && self.target_conversation_id.same(&other.target_conversation_id)
            && self.forked_at_sequence == other.forked_at_sequence
            && self.transcript.same(&other.transcript)
            && self.model_context.same(&other.model_context)
    }
}

impl Clone for ForkSeed {
    fn clone(&self) -> (r: Self)
        ensures
            r.deep_view() == self.deep_view(),
    {
        self.duplicate()
    }
}

/// Why a journal or a request is refused.
#[derive(Debug, PartialEq, Eq)]
pub enum ContextContractError {
    EmptyField { field: &'static str },
    ConversationMismatch { event_id: String, expected: String, actual: String },
    NonIncreasingSequence { previous: u64, current: u64 },
    DuplicateEventId { event_id: String },
    InvalidCheckpoint { checkpoint_id: String, reason: String },
    ForkOutOfRange { through_sequence: u64, last_sequence: u64 },
}

/// The mathematical content of a [`ContextContractError`].
pub enum ContextContractErrorModel {
    EmptyField { field: Seq<char> },
    ConversationMismatch { event_id: Seq<char>, expected: Seq<char>, actual: Seq<char> },
    NonIncreasingSequence { previous: u64, current: u64 },
    DuplicateEventId { event_id: Seq<char> },
    InvalidCheckpoint { checkpoint_id: Seq<char>, reason: Seq<char> },
    ForkOutOfRange { through_sequence: u64, last_sequence: u64 },
}

impl DeepView for ContextContractError {
    type V = ContextContractErrorModel;

    open spec fn deep_view(&self) -> ContextContractErrorModel {
        match self {
            ContextContractError::EmptyField { field } => ContextContractErrorModel::EmptyField {
                field: field.deep_view(),
            },
            ContextContractError::ConversationMismatch { event_id, expected, actual } => {
                ContextContractErrorModel::ConversationMismatch {
                    event_id: event_id.deep_view(),
                    expected: expected.deep_view(),
                    actual: actual.deep_view(),
                }
            },
            ContextContractError::NonIncreasingSequence { previous, current } => {
                ContextContractErrorModel::NonIncreasingSequence {
                    previous: *previous,
                    current: *current,
                }
            },
            ContextContractError::DuplicateEventId { event_id } => {
                ContextContractErrorModel::DuplicateEventId { event_id: event_id.deep_view() }
            },
            ContextContractError::InvalidCheckpoint { checkpoint_id, reason } => {
                ContextContractErrorModel::InvalidCheckpoint {
                    checkpoint_id: checkpoint_id.deep_view(),
                    reason: reason.deep_view(),
                }
            },
            ContextContractError::ForkOutOfRange { through_sequence, last_sequence } => {
                ContextContractErrorModel::ForkOutOfRange {
                    through_sequence: *through_sequence,
                    last_sequence: *last_sequence,
                }
            },
        }
    }
}

impl Modeled for ContextContractError {
    fn duplicate(&self) -> (r: Self) {
        match self {
            ContextContractError::EmptyField { field } => ContextContractError::EmptyField {
                field: field.duplicate(),
            },
            ContextContractError::ConversationMismatch { event_id, expected, actual } => {
                ContextContractError::ConversationMismatch {
                    event_id: event_id.duplicate(),
                    expected: expected.duplicate(),
                    actual: actual.duplicate(),
                }
            },
            ContextContractError::NonIncreasingSequence { previous, current } => {
                ContextContractError::NonIncreasingSequence {
                    previous: *previous,
                    current: *current,
                }
            },
            ContextContractError::DuplicateEventId { event_id } => {
                ContextContractError::DuplicateEventId { event_id: event_id.duplicate() }
            },
            ContextContractError::InvalidCheckpoint { checkpoint_id, reason } => {
                ContextContractError::InvalidCheckpoint {
                    checkpoint_id: checkpoint_id.duplicate(),
                    reason: reason.duplicate(),
                }
            },
            ContextContractError::ForkOutOfRange { through_sequence, last_sequence } => {
                ContextContractError::ForkOutOfRange {
                    through_sequence: *through_sequence,
                    last_sequence: *last_sequence,
                }
            },
        }
    }

    fn same(&self, other: &Self) -> (r: bool) {
        match (self, other) {
            (
                ContextContractError::EmptyField { field },
                ContextContractError::EmptyField { field: field_other },
            ) => field.same(field_other),
            (
                ContextContractError::ConversationMismatch { event_id, expected, actual },
                ContextContractError::ConversationMismatch {
                    event_id: event_id_other,
                    expected: expected_other,
                    actual: actual_other,
                },
            ) => {
                event_id.same(event_id_other)
                    && expected.same(expected_other)
                    && actual.same(actual_other)
            },
            (
                ContextContractError::NonIncreasingSequence { previous, current },
                ContextContractError::NonIncreasingSequence {
                    previous: previous_other,
                    current: current_other,
                },
            ) => *previous == *previous_other && *current == *current_other,
            (
                ContextContractError::DuplicateEventId { event_id },
                ContextContractError::DuplicateEventId { event_id: event_id_other },
            ) => event_id.same(event_id_other),
            (
                ContextContractError::InvalidCheckpoint { checkpoint_id, reason },
                ContextContractError::InvalidCheckpoint {
                    checkpoint_id: checkpoint_id_other,
                    reason: reason_other,
                },
            ) => checkpoint_id.same(checkpoint_id_other) && reason.same(reason_other),
            (
                ContextContractError::ForkOutOfRange { through_sequence, last_sequence },
                ContextContractError::ForkOutOfRange {
                    through_sequence: through_sequence_other,
                    last_sequence: last_sequence_other,
                },
            ) => {
                *through_sequence == *through_sequence_other
                    && *last_sequence == *last_sequence_other
            },
            _ => false,
        }
    }
}

impl Clone for ContextContractError {
    fn clone(&self) -> (r: Self)
        ensures
            r.deep_view() == self.deep_view(),
    {
        self.duplicate()
    }
}


} // verus!
