//! From the provider's rollout records to journal events.
use vstd::prelude::*;

use crate::attachment::{
    AttachmentMaterializer, AttachmentResolver, MaterializedAttachmentModel, NoAttachments,
    ResolvedAttachment, ResolvedAttachmentModel,
};
use crate::codec::{
    event_payload, event_payload_to_model, event_record, finished_phase, id_of, is_tool_or_control,
    item_of_record, message_role, opaque_kind, opaque_kind_of, output_phase,
    provider_serialization_view, role_of, serialization_view_of,
};
use crate::context::{
    AttachmentKind, CompactionMode, ContentPart, ContentPartModel, ContextCheckpoint,
    ContextCheckpointModel, ContextEvent, ContextEventPayload, ContextEventPayloadModel,
    ImageDetail, Message, MessageDelivery, MessageModel, MessagePhase, MessageRole, MessageRoute,
    MessageRouteModel, MessageVisibility, ModelContextItem, ModelContextItemModel,
    ModelContextPayload, ModelContextPayloadModel, OpaquePayload, ProviderLineage,
    ProviderLineageModel, ProviderOpaqueItem, ProviderOpaqueItemModel, ToolPhase, ToolRecord,
    ToolRecordModel,
};
use crate::error::{CodexAdapterError, CodexAdapterErrorModel};
use crate::json::{bool_or_null, member, object2, object3, text_or_null, Json, JsonModel};
use crate::lists::{
    collected, lemma_collected_error, lemma_collected_step, lemma_empty_content, outcome,
};
use crate::model::Modeled;
use crate::protocol::{
    AgentMessageInputContent, AgentMessageInputContentModel, CompactedItem, CompactedItemModel,
    ContentItem, ContentItemModel, DecodedItem, DecodedItemModel, EncodedItem, EncodedItemModel,
    FunctionCallOutputBody, FunctionCallOutputBodyModel, InterAgentCommunication,
    InterAgentCommunicationModel, LocalShellStatus, RawItem, RawItemModel, ResponseItem,
    ResponseItemModel, RolloutItem, RolloutItemModel, WiredItem, WiredItemModel,
};
use crate::text::{decimal, decimal_text, glue, glue3};
use crate::types::{
    event_with, AdaptedRolloutItem, AdaptedRolloutItemModel, EventMetadata, EventMetadataModel,
    IgnoredRolloutItem,
};

verus! {

/// Takes the records of one provider lineage over into the neutral contract, and prepares neutral
/// items for that lineage.
pub struct CodexContextAdapter<'a, R: AttachmentResolver, M: AttachmentMaterializer> {
    pub lineage: ProviderLineage,
    pub attachments: Option<&'a R>,
    pub attachment_materializer: Option<&'a M>,
}

/// How media URLs are resolved.
pub type Resolution = spec_fn(Seq<char>, AttachmentKind) -> Option<ResolvedAttachmentModel>;

/// How attachments are materialized.
pub type Materialization = spec_fn(
    Seq<char>,
    Seq<char>,
    AttachmentKind,
) -> Option<MaterializedAttachmentModel>;

/// The result of adapting a record.
pub type Adapted<T> = Result<T, CodexAdapterErrorModel>;

// ---------------------------------------------------------------------------------------------
// Messages

/// The content part that a resolved attachment becomes.
pub open spec fn attachment_part_of(
    resolved: Option<ResolvedAttachmentModel>,
    kind: AttachmentKind,
    image_detail: Option<ImageDetail>,
) -> Adapted<ContentPartModel> {
    match resolved {
        None => Err(CodexAdapterErrorModel::UnresolvedAttachment { kind }),
        Some(resolved) => if resolved.attachment_id.len() == 0 {
            Err(CodexAdapterErrorModel::EmptyAttachmentField { field: "attachment_id"@ })
        } else if resolved.media_type.len() == 0 {
            Err(CodexAdapterErrorModel::EmptyAttachmentField { field: "media_type"@ })
        } else {
            Ok(
                ContentPartModel::Attachment {
                    attachment_id: resolved.attachment_id,
                    media_type: resolved.media_type,
                    kind,
                    image_detail,
                },
            )
        },
    }
}

/// The content part that a provider's content item becomes.
pub open spec fn content_part_of(resolve: Resolution, item: ContentItemModel) -> Adapted<
    ContentPartModel,
> {
    match item {
        ContentItemModel::InputText { text } => Ok(ContentPartModel::Text { text }),
        ContentItemModel::OutputText { text } => Ok(ContentPartModel::Text { text }),
        ContentItemModel::InputImage { image_url, detail } => attachment_part_of(
            resolve(image_url, AttachmentKind::Image),
            AttachmentKind::Image,
            detail,
        ),
        ContentItemModel::InputAudio { audio_url } => attachment_part_of(
            resolve(audio_url, AttachmentKind::Audio),
            AttachmentKind::Audio,
            None,
        ),
    }
}

/// Who sees a message of a role: the transcript shows only what user and assistant say.
pub open spec fn role_visibility(role: MessageRole) -> MessageVisibility {
    match role {
        MessageRole::User | MessageRole::Assistant => MessageVisibility::TranscriptAndModel,
        MessageRole::Developer | MessageRole::System => MessageVisibility::ModelOnly,
    }
}

/// The message that a provider message of a known role becomes.
pub open spec fn message_of(
    resolve: Resolution,
    role: MessageRole,
    content: Seq<ContentItemModel>,
    phase: Option<MessagePhase>,
) -> Adapted<MessageModel> {
    match collected(content, |item: ContentItemModel| content_part_of(resolve, item)) {
        Err(error) => Err(error),
        Ok(content) => Ok(
            MessageModel { role, visibility: role_visibility(role), content, phase, route: None },
        ),
    }
}

/// Whether a text item has the shape in which its role is written: output for the assistant,
/// input for everybody else.
pub open spec fn canonical_part(role: MessageRole, item: ContentItemModel) -> bool {
    match item {
        ContentItemModel::InputText { .. } => role != MessageRole::Assistant,
        ContentItemModel::OutputText { .. } => role == MessageRole::Assistant,
        _ => true,
    }
}

/// Whether all text of a message has the shape in which its role is written.
pub open spec fn canonical_content(role: MessageRole, content: Seq<ContentItemModel>) -> bool {
    forall|i: int| 0 <= i < content.len() ==> canonical_part(role, #[trigger] content[i])
}

/// Whether all content of a message between agents is plain text.
pub open spec fn plain_text(content: Seq<AgentMessageInputContentModel>) -> bool {
    forall|i: int| 0 <= i < content.len() ==> #[trigger] content[i] is InputText
}

/// The message that plain text from one agent to another becomes.
pub open spec fn agent_message_of(
    author: Seq<char>,
    recipient: Seq<char>,
    content: Seq<AgentMessageInputContentModel>,
) -> MessageModel {
    MessageModel {
        role: MessageRole::Assistant,
        visibility: MessageVisibility::ModelOnly,
        content: content.map_values(
            |part: AgentMessageInputContentModel|
                ContentPartModel::Text { text: part->InputText_text },
        ),
        phase: Some(MessagePhase::Commentary),
        route: Some(MessageRouteModel { author, recipients: seq![recipient], delivery: None }),
    }
}

fn attachment_part(
    resolved: Option<ResolvedAttachment>,
    kind: AttachmentKind,
    image_detail: Option<ImageDetail>,
) -> (r: Result<ContentPart, CodexAdapterError>)
    ensures
        outcome(r) == attachment_part_of(resolved.deep_view(), kind, image_detail),
{
    match resolved {
        None => Err(CodexAdapterError::UnresolvedAttachment { kind }),
        Some(resolved) => {
            if resolved.attachment_id.as_str().is_empty() {
                return Err(CodexAdapterError::EmptyAttachmentField { field: "attachment_id" });
            }
            if resolved.media_type.as_str().is_empty() {
                return Err(CodexAdapterError::EmptyAttachmentField { field: "media_type" });
            }
            Ok(
                ContentPart::Attachment {
                    attachment_id: resolved.attachment_id,
                    media_type: resolved.media_type,
                    kind,
                    image_detail,
                },
            )
        },
    }
}

fn has_canonical_content(role: MessageRole, content: &Vec<ContentItem>) -> (r: bool)
    ensures
        r == canonical_content(role, content.deep_view()),
{
    let ghost model = content.deep_view();
    let mut i: usize = 0;
    while i < content.len()
        invariant
            i <= content@.len(),
            model == content.deep_view(),
            model.len() == content@.len(),
            forall|k: int| 0 <= k < i ==> canonical_part(role, #[trigger] model[k]),
        decreases content.len() - i,
    {
        assert(model[i as int] == content@[i as int].deep_view());
        let fits = match &content[i] {
            ContentItem::InputText { .. } => role != MessageRole::Assistant,
            ContentItem::OutputText { .. } => role == MessageRole::Assistant,
            _ => true,
        };
        if !fits {
            assert(!canonical_part(role, model[i as int]));
            return false;
        }
        i = i + 1;
    }
    true
}

/// Whether all content of a message between agents is plain text.
pub fn is_plain_text(content: &Vec<AgentMessageInputContent>) -> (r: bool)
    ensures
        r == plain_text(content.deep_view()),
{
    let ghost model = content.deep_view();
    let mut i: usize = 0;
    while i < content.len()
        invariant
            i <= content@.len(),
            model == content.deep_view(),
            model.len() == content@.len(),
            forall|k: int| 0 <= k < i ==> #[trigger] model[k] is InputText,
        decreases content.len() - i,
    {
        assert(model[i as int] == content@[i as int].deep_view());
        if let AgentMessageInputContent::EncryptedContent { .. } = &content[i] {
            assert(!(model[i as int] is InputText));
            return false;
        }
        i = i + 1;
    }
    true
}

fn agent_message(
    author: &String,
    recipient: &String,
    content: &Vec<AgentMessageInputContent>,
) -> (r: Message)
    requires
        plain_text(content.deep_view()),
    ensures
        r.deep_view() == agent_message_of(author@, recipient@, content.deep_view()),
{
    let ghost model = content.deep_view();
    let mut parts: Vec<ContentPart> = Vec::new();
    let mut i: usize = 0;
    while i < content.len()
        invariant
            i <= content@.len(),
            model == content.deep_view(),
            model.len() == content@.len(),
            plain_text(model),
            parts@.len() == i,
            forall|k: int|
                0 <= k < i ==> (#[trigger] parts@[k]).deep_view() == (ContentPartModel::Text {
                    text: model[k]->InputText_text,
                }),
        decreases content.len() - i,
    {
        assert(model[i as int] == content@[i as int].deep_view());
        assert(model[i as int] is InputText);
        if let AgentMessageInputContent::InputText { text } = &content[i] {
            parts.push(ContentPart::Text { text: text.clone() });
        }
        i = i + 1;
    }
    let mut recipients: Vec<String> = Vec::new();
    recipients.push(recipient.clone());
    let r = Message {
        role: MessageRole::Assistant,
        visibility: MessageVisibility::ModelOnly,
        content: parts,
        phase: Some(MessagePhase::Commentary),
        route: Some(MessageRoute { author: author.clone(), recipients, delivery: None }),
    };
    proof {
        let expected = agent_message_of(author@, recipient@, model);
        assert(r.deep_view().content =~= expected.content);
        assert(r.deep_view().route->0.recipients =~= expected.route->0.recipients);
    }
    r
}

// ---------------------------------------------------------------------------------------------
// Tools

/// The JSON of a tool's output.
pub open spec fn output_json(body: FunctionCallOutputBodyModel) -> JsonModel {
    match body {
        FunctionCallOutputBodyModel::Text(text) => JsonModel::Text(text),
        FunctionCallOutputBodyModel::ContentItems(items) => items,
    }
}

fn output_value(body: &FunctionCallOutputBody) -> (r: Json)
    ensures
        r.deep_view() == output_json(body.deep_view()),
{
    match body {
        FunctionCallOutputBody::Text(text) => Json::Text(text.clone()),
        FunctionCallOutputBody::ContentItems(items) => items.duplicate(),
    }
}

/// The phase of a shell call.
pub open spec fn shell_phase(status: LocalShellStatus) -> ToolPhase {
    match status {
        LocalShellStatus::InProgress => ToolPhase::Requested,
        LocalShellStatus::Completed => ToolPhase::Completed,
        LocalShellStatus::Incomplete => ToolPhase::Failed,
    }
}

/// The record of a shell call, under its call id or else under its provider id.
pub open spec fn shell_record(
    id: Option<Seq<char>>,
    call_id: Option<Seq<char>>,
    status: LocalShellStatus,
    action: JsonModel,
) -> Adapted<ToolRecordModel> {
    let name = if call_id is Some {
        call_id
    } else {
        id
    };
    match name {
        None => Err(CodexAdapterErrorModel::MissingCallId { kind: "local_shell_call"@ }),
        Some(call_id) => Ok(
            ToolRecordModel {
                call_id,
                name: "local_shell"@,
                phase: shell_phase(status),
                data: JsonModel::Object(
                    seq![
                        member("action"@, action),
                        member("kind"@, JsonModel::Text("local_shell"@)),
                    ],
                ),
            },
        ),
    }
}

/// The record of a requested call of a function.
pub open spec fn function_record(
    name: Seq<char>,
    namespace: Option<Seq<char>>,
    arguments: Seq<char>,
    call_id: Seq<char>,
) -> ToolRecordModel {
    ToolRecordModel {
        call_id,
        name,
        phase: ToolPhase::Requested,
        data: JsonModel::Object(
            seq![
                member("arguments"@, JsonModel::Text(arguments)),
                member("kind"@, JsonModel::Text("function"@)),
                member("namespace"@, text_or_null(namespace)),
            ],
        ),
    }
}

/// The record of a requested call of a custom tool.
pub open spec fn custom_record(
    name: Seq<char>,
    namespace: Option<Seq<char>>,
    input: Seq<char>,
    call_id: Seq<char>,
) -> ToolRecordModel {
    ToolRecordModel {
        call_id,
        name,
        phase: ToolPhase::Requested,
        data: JsonModel::Object(
            seq![
                member("input"@, JsonModel::Text(input)),
                member("kind"@, JsonModel::Text("custom"@)),
                member("namespace"@, text_or_null(namespace)),
            ],
        ),
    }
}

/// The record of a finished call.
pub open spec fn output_record(
    kind: Seq<char>,
    name: Seq<char>,
    call_id: Seq<char>,
    body: FunctionCallOutputBodyModel,
    success: Option<bool>,
) -> ToolRecordModel {
    ToolRecordModel {
        call_id,
        name,
        phase: finished_phase(success),
        data: JsonModel::Object(
            seq![
                member("kind"@, JsonModel::Text(kind)),
                member("output"@, output_json(body)),
                member("success"@, bool_or_null(success)),
            ],
        ),
    }
}

fn output_tool(
    kind: &str,
    name: String,
    call_id: &String,
    body: &FunctionCallOutputBody,
    success: Option<bool>,
) -> (r: ToolRecord)
    ensures
        r.deep_view() == output_record(kind@, name@, call_id@, body.deep_view(), success),
{
    ToolRecord {
        call_id: call_id.clone(),
        name,
        phase: output_phase(success),
        data: object3(
            "kind",
            Json::Text(kind.to_owned()),
            "output",
            output_value(body),
            "success",
            Json::optional_bool(success),
        ),
    }
}

// ---------------------------------------------------------------------------------------------
// Provider records

/// The bytes under which an item is carried as a provider record. The original JSON is kept as
/// it is where it decodes to the item. Otherwise the item is serialized, and the result is used
/// only if it decodes to the item's serialization view.
pub open spec fn opaque_bytes(wired: WiredItemModel, raw: Option<RawItemModel>) -> Adapted<
    Seq<u8>,
> {
    match raw {
        Some(raw) => match raw.decoded {
            DecodedItemModel::Failed(message) => Err(
                CodexAdapterErrorModel::ProviderJson {
                    operation: "decode raw response item"@,
                    message,
                },
            ),
            DecodedItemModel::Item(decoded) => if decoded == wired.item {
                Ok(raw.bytes)
            } else {
                Err(CodexAdapterErrorModel::RawPayloadMismatch)
            },
        },
        None => if wired.item is Other {
            Err(CodexAdapterErrorModel::RawPayloadRequired { kind: opaque_kind_of(wired.item) })
        } else {
            match wired.encoded {
                EncodedItemModel::Failed(message) => Err(
                    CodexAdapterErrorModel::ProviderJson {
                        operation: "serialize response item"@,
                        message,
                    },
                ),
                EncodedItemModel::Bytes(bytes) => match wired.reading.response {
                    DecodedItemModel::Failed(message) => Err(
                        CodexAdapterErrorModel::ProviderJson {
                            operation: "verify response item"@,
                            message,
                        },
                    ),
                    DecodedItemModel::Item(decoded) => if decoded == serialization_view_of(
                        wired.item,
                    ) {
                        Ok(bytes)
                    } else {
                        Err(
                            CodexAdapterErrorModel::RawPayloadRequired {
                                kind: opaque_kind_of(wired.item),
                            },
                        )
                    },
                },
            }
        },
    }
}

/// The provider record that carries an item.
pub open spec fn opaque_item_of(
    lineage: ProviderLineageModel,
    wired: WiredItemModel,
    raw: Option<RawItemModel>,
    fallback_id: Seq<char>,
) -> Adapted<ProviderOpaqueItemModel> {
    match opaque_bytes(wired, raw) {
        Err(error) => Err(error),
        Ok(payload) => Ok(
            ProviderOpaqueItemModel {
                lineage,
                provider_item_id: match id_of(wired.item) {
                    Some(id) => id,
                    None => fallback_id,
                },
                kind: opaque_kind_of(wired.item),
                payload,
            },
        ),
    }
}

/// The record that a response item becomes. A request control becomes none.
pub open spec fn response_record(
    lineage: ProviderLineageModel,
    resolve: Resolution,
    wired: WiredItemModel,
    raw: Option<RawItemModel>,
    fallback_id: Seq<char>,
) -> Adapted<Option<ModelContextPayloadModel>> {
    let opaque = match opaque_item_of(lineage, wired, raw, fallback_id) {
        Ok(item) => Ok(Some(ModelContextPayloadModel::ProviderOpaque(item))),
        Err(error) => Err(error),
    };
    match wired.item {
        ResponseItemModel::Message { role, content, phase, .. } => match role_of(role) {
            Err(error) => Err(error),
            Ok(role) => if canonical_content(role, content) {
                match message_of(resolve, role, content, phase) {
                    Ok(message) => Ok(Some(ModelContextPayloadModel::Message(message))),
                    Err(error) => Err(error),
                }
            } else {
                opaque
            },
        },
        ResponseItemModel::AgentMessage { author, recipient, content, .. } => if plain_text(
            content,
        ) {
            Ok(
                Some(
                    ModelContextPayloadModel::Message(
                        agent_message_of(author, recipient, content),
                    ),
                ),
            )
        } else {
            opaque
        },
        ResponseItemModel::LocalShellCall { id, call_id, status, action, .. } => match shell_record(
            id,
            call_id,
            status,
            action,
        ) {
            Ok(record) => Ok(Some(ModelContextPayloadModel::Tool(record))),
            Err(error) => Err(error),
        },
        ResponseItemModel::FunctionCall { name, namespace, arguments, call_id, .. } => Ok(
            Some(
                ModelContextPayloadModel::Tool(
                    function_record(name, namespace, arguments, call_id),
                ),
            ),
        ),
        ResponseItemModel::FunctionCallOutput { call_id, output, .. } => Ok(
            Some(
                ModelContextPayloadModel::Tool(
                    output_record(
                        "function"@,
                        "function_call"@,
                        call_id,
                        output.body,
                        output.success,
                    ),
                ),
            ),
        ),
        ResponseItemModel::CustomToolCall { call_id, name, namespace, input, .. } => Ok(
            Some(ModelContextPayloadModel::Tool(custom_record(name, namespace, input, call_id))),
        ),
        ResponseItemModel::CustomToolCallOutput { call_id, name, output, .. } => Ok(
            Some(
                ModelContextPayloadModel::Tool(
                    output_record(
                        "custom"@,
                        match name {
                            Some(name) => name,
                            None => "custom_tool"@,
                        },
                        call_id,
                        output.body,
                        output.success,
                    ),
                ),
            ),
        ),
        ResponseItemModel::CompactionTrigger => Ok(None),
        _ => opaque,
    }
}

/// What a response item becomes in the journal.
pub open spec fn adapted_response(
    lineage: ProviderLineageModel,
    resolve: Resolution,
    metadata: EventMetadataModel,
    wired: WiredItemModel,
    raw: Option<RawItemModel>,
) -> Adapted<AdaptedRolloutItemModel> {
    match response_record(lineage, resolve, wired, raw, metadata.event_id) {
        Err(error) => Err(error),
        Ok(None) => Ok(AdaptedRolloutItemModel::Ignored(IgnoredRolloutItem::RequestControl)),
        Ok(Some(payload)) => Ok(
            AdaptedRolloutItemModel::Event(event_with(metadata, event_record(payload))),
        ),
    }
}

impl<'a> CodexContextAdapter<'a, NoAttachments, NoAttachments> {
    /// An adapter for a lineage that knows no attachments.
    pub fn new(lineage: ProviderLineage) -> (r: Self)
        ensures
            r.lineage == lineage,
            r.attachments is None,
            r.attachment_materializer is None,
    {
        CodexContextAdapter { lineage, attachments: None, attachment_materializer: None }
    }
}

impl<'a, R: AttachmentResolver, M: AttachmentMaterializer> CodexContextAdapter<'a, R, M> {
    /// How this adapter resolves media URLs.
    pub open spec fn resolves(self) -> Resolution {
        |source: Seq<char>, kind: AttachmentKind|
            match self.attachments {
                Some(resolver) => resolver.resolution(source, kind),
                None => None,
            }
    }

    /// The adapter with a resolver for media URLs.
    pub fn with_attachment_resolver<S: AttachmentResolver>(
        self,
        resolver: &'a S,
    ) -> (r: CodexContextAdapter<'a, S, M>)
        ensures
            r.lineage == self.lineage,
            r.attachments == Some(resolver),
            r.attachment_materializer == self.attachment_materializer,
    {
        CodexContextAdapter {
            lineage: self.lineage,
            attachments: Some(resolver),
            attachment_materializer: self.attachment_materializer,
        }
    }

    /// The adapter with a materializer for attachments.
    pub fn with_attachment_materializer<N: AttachmentMaterializer>(
        self,
        materializer: &'a N,
    ) -> (r: CodexContextAdapter<'a, R, N>)
        ensures
            r.lineage == self.lineage,
            r.attachments == self.attachments,
            r.attachment_materializer == Some(materializer),
    {
        CodexContextAdapter {
            lineage: self.lineage,
            attachments: self.attachments,
            attachment_materializer: Some(materializer),
        }
    }

    /// The lineage of the adapter.
    pub fn lineage(&self) -> (r: &ProviderLineage)
        ensures
            *r == self.lineage,
    {
        &self.lineage
    }

    fn resolve(&self, source: &str, kind: AttachmentKind) -> (r: Option<ResolvedAttachment>)
        ensures
            r.deep_view() == (self.resolves())(source@, kind),
    {
        match self.attachments {
            Some(resolver) => resolver.resolve(source, &kind),
            None => None,
        }
    }

    fn content_part(&self, item: &ContentItem) -> (r: Result<ContentPart, CodexAdapterError>)
        ensures
            outcome(r) == content_part_of(self.resolves(), item.deep_view()),
    {
        match item {
            ContentItem::InputText { text } => Ok(ContentPart::Text { text: text.clone() }),
            ContentItem::OutputText { text } => Ok(ContentPart::Text { text: text.clone() }),
            ContentItem::InputImage { image_url, detail } => attachment_part(
                self.resolve(image_url.as_str(), AttachmentKind::Image),
                AttachmentKind::Image,
                *detail,
            ),
            ContentItem::InputAudio { audio_url } => attachment_part(
                self.resolve(audio_url.as_str(), AttachmentKind::Audio),
                AttachmentKind::Audio,
                None,
            ),
        }
    }

    fn message(
        &self,
        role: MessageRole,
        content: &Vec<ContentItem>,
        phase: Option<MessagePhase>,
    ) -> (r: Result<Message, CodexAdapterError>)
        ensures
            outcome(r) == message_of(self.resolves(), role, content.deep_view(), phase),
    {
        let ghost model = content.deep_view();
        let ghost f = |item: ContentItemModel| content_part_of(self.resolves(), item);
        let mut parts: Vec<ContentPart> = Vec::new();
        let mut i: usize = 0;
        proof {
            lemma_empty_content(parts);
            assert(model.take(0) =~= Seq::empty());
        }
        while i < content.len()
            invariant
                i <= content@.len(),
                model == content.deep_view(),
                model.len() == content@.len(),
                f == (|item: ContentItemModel| content_part_of(self.resolves(), item)),
                collected(model.take(i as int), f) == Ok::<
                    Seq<ContentPartModel>,
                    CodexAdapterErrorModel,
                >(parts.deep_view()),
            decreases content.len() - i,
        {
            proof {
                assert(model[i as int] == content@[i as int].deep_view());
                lemma_collected_step(model, f, i as int);
            }
            match self.content_part(&content[i]) {
                Ok(part) => {
                    let ghost before = parts;
                    parts.push(part);
                    assert(parts.deep_view() =~= before.deep_view().push(part.deep_view()));
                },
                Err(error) => {
                    proof {
                        lemma_collected_error(model, f, i + 1);
                    }
                    return Err(error);
                },
            }
            i = i + 1;
        }
        assert(model.take(model.len() as int) =~= model);
        let visibility = match role {
            MessageRole::User | MessageRole::Assistant => MessageVisibility::TranscriptAndModel,
            MessageRole::Developer | MessageRole::System => MessageVisibility::ModelOnly,
        };
        Ok(Message { role, visibility, content: parts, phase, route: None })
    }

    fn opaque_response_item(
        &self,
        wired: &WiredItem,
        raw: &Option<RawItem>,
        fallback_id: &str,
    ) -> (r: Result<ProviderOpaqueItem, CodexAdapterError>)
        requires
            !is_tool_or_control(wired.item.deep_view()),
        ensures
            outcome(r) == opaque_item_of(
                self.lineage.deep_view(),
                wired.deep_view(),
                raw.deep_view(),
                fallback_id@,
            ),
    {
        let kind = opaque_kind(&wired.item);
        let payload: Vec<u8> = match raw {
            Some(raw) => match &raw.decoded {
                DecodedItem::Failed(message) => {
                    return Err(
                        CodexAdapterError::ProviderJson {
                            operation: "decode raw response item",
                            message: message.clone(),
                        },
                    );
                },
                DecodedItem::Item(decoded) => {
                    if !decoded.same(&wired.item) {
                        return Err(CodexAdapterError::RawPayloadMismatch);
                    }
                    raw.bytes.duplicate()
                },
            },
            None => {
                if let ResponseItem::Other = &wired.item {
                    return Err(CodexAdapterError::RawPayloadRequired { kind });
                }
                match &wired.encoded {
                    EncodedItem::Failed(message) => {
                        return Err(
                            CodexAdapterError::ProviderJson {
                                operation: "serialize response item",
                                message: message.clone(),
                            },
                        );
                    },
                    EncodedItem::Bytes(bytes) => match &wired.reading.response {
                        DecodedItem::Failed(message) => {
                            return Err(
                                CodexAdapterError::ProviderJson {
                                    operation: "verify response item",
                                    message: message.clone(),
                                },
                            );
                        },
                        DecodedItem::Item(decoded) => {
                            if !decoded.same(&provider_serialization_view(&wired.item)) {
                                return Err(CodexAdapterError::RawPayloadRequired { kind });
                            }
                            bytes.duplicate()
                        },
                    },
                }
            },
        };
        let provider_item_id = match wired.item.id() {
            Some(id) => id.clone(),
            None => fallback_id.to_owned(),
        };
        assert(payload.deep_view() =~= payload@);
        Ok(
            ProviderOpaqueItem {
                lineage: self.lineage.duplicate(),
                provider_item_id,
                kind: kind.to_owned(),
                payload: OpaquePayload::new(payload),
            },
        )
    }

    fn opaque_payload(
        &self,
        wired: &WiredItem,
        raw: &Option<RawItem>,
        fallback_id: &str,
    ) -> (r: Result<Option<ModelContextPayload>, CodexAdapterError>)
        requires
            !is_tool_or_control(wired.item.deep_view()),
        ensures
            outcome(r) == match opaque_item_of(
                self.lineage.deep_view(),
                wired.deep_view(),
                raw.deep_view(),
                fallback_id@,
            ) {
                Ok(item) => Ok(Some(ModelContextPayloadModel::ProviderOpaque(item))),
                Err(error) => Err(error),
            },
    {
        match self.opaque_response_item(wired, raw, fallback_id) {
            Ok(item) => Ok(Some(ModelContextPayload::ProviderOpaque(item))),
            Err(error) => Err(error),
        }
    }

    /// The record that a response item becomes. A request control becomes none.
    pub fn response_payload(
        &self,
        wired: &WiredItem,
        raw: &Option<RawItem>,
        fallback_id: &str,
    ) -> (r: Result<Option<ModelContextPayload>, CodexAdapterError>)
        ensures
            outcome(r) == response_record(
                self.lineage.deep_view(),
                self.resolves(),
                wired.deep_view(),
                raw.deep_view(),
                fallback_id@,
            ),
    {
        match &wired.item {
            ResponseItem::Message { role, content, phase, .. } => {
                let role = match message_role(role.as_str()) {
                    Ok(role) => role,
                    Err(error) => {
                        return Err(error);
                    },
                };
                if !has_canonical_content(role, content) {
                    return self.opaque_payload(wired, raw, fallback_id);
                }
                match self.message(role, content, *phase) {
                    Ok(message) => Ok(Some(ModelContextPayload::Message(message))),
                    Err(error) => Err(error),
                }
            },
            ResponseItem::AgentMessage { author, recipient, content, .. } => {
                if !is_plain_text(content) {
                    return self.opaque_payload(wired, raw, fallback_id);
                }
                Ok(Some(ModelContextPayload::Message(agent_message(author, recipient, content))))
            },
            ResponseItem::LocalShellCall { id, call_id, status, action, .. } => {
                let call_id = match (call_id, id) {
                    (Some(call_id), _) => call_id.clone(),
                    (None, Some(id)) => id.clone(),
                    (None, None) => {
                        return Err(CodexAdapterError::MissingCallId { kind: "local_shell_call" });
                    },
                };
                let phase = match *status {
                    LocalShellStatus::InProgress => ToolPhase::Requested,
                    LocalShellStatus::Completed => ToolPhase::Completed,
                    LocalShellStatus::Incomplete => ToolPhase::Failed,
                };
                Ok(
                    Some(
                        ModelContextPayload::Tool(
                            ToolRecord {
                                call_id,
                                name: "local_shell".to_string(),
                                phase,
                                data: object2(
                                    "action",
                                    action.duplicate(),
                                    "kind",
                                    Json::Text("local_shell".to_string()),
                                ),
                            },
                        ),
                    ),
                )
            },
            ResponseItem::FunctionCall { name, namespace, arguments, call_id, .. } => Ok(
                Some(
                    ModelContextPayload::Tool(
                        ToolRecord {
                            call_id: call_id.clone(),
                            name: name.clone(),
                            phase: ToolPhase::Requested,
                            data: object3(
                                "arguments",
                                Json::Text(arguments.clone()),
                                "kind",
                                Json::Text("function".to_string()),
                                "namespace",
                                Json::optional_text(namespace),
                            ),
                        },
                    ),
                ),
            ),
            ResponseItem::FunctionCallOutput { call_id, output, .. } => Ok(
                Some(
                    ModelContextPayload::Tool(
                        output_tool(
                            "function",
                            "function_call".to_string(),
                            call_id,
                            &output.body,
                            output.success,
                        ),
                    ),
                ),
            ),
            ResponseItem::CustomToolCall { call_id, name, namespace, input, .. } => Ok(
                Some(
                    ModelContextPayload::Tool(
                        ToolRecord {
                            call_id: call_id.clone(),
                            name: name.clone(),
                            phase: ToolPhase::Requested,
                            data: object3(
                                "input",
                                Json::Text(input.clone()),
                                "kind",
                                Json::Text("custom".to_string()),
                                "namespace",
                                Json::optional_text(namespace),
                            ),
                        },
                    ),
                ),
            ),
            ResponseItem::CustomToolCallOutput { call_id, name, output, .. } => {
                let name = match name {
                    Some(name) => name.clone(),
                    None => "custom_tool".to_string(),
                };
                Ok(
                    Some(
                        ModelContextPayload::Tool(
                            output_tool("custom", name, call_id, &output.body, output.success),
                        ),
                    ),
                )
            },
            ResponseItem::CompactionTrigger => Ok(None),
            _ => self.opaque_payload(wired, raw, fallback_id),
        }
    }

    /// Adapts a provider response item. Supplying the original JSON preserves opaque state byte
    /// for byte and is mandatory for unknown future variants.
    pub fn adapt_response_item(
        &self,
        metadata: EventMetadata,
        wired: &WiredItem,
        raw: &Option<RawItem>,
    ) -> (r: Result<AdaptedRolloutItem, CodexAdapterError>)
        ensures
            outcome(r) == adapted_response(
                self.lineage.deep_view(),
                self.resolves(),
                metadata.deep_view(),
                wired.deep_view(),
                raw.deep_view(),
            ),
    {
        match self.response_payload(wired, raw, metadata.event_id.as_str()) {
            Err(error) => Err(error),
            Ok(None) => Ok(AdaptedRolloutItem::Ignored(IgnoredRolloutItem::RequestControl)),
            Ok(Some(payload)) => Ok(
                AdaptedRolloutItem::Event(Box::new(metadata.into_event(event_payload(payload)))),
            ),
        }
    }
}

// ---------------------------------------------------------------------------------------------
// Rollout records

/// All recipients of a message between agents, the first one first.
pub open spec fn all_recipients(communication: InterAgentCommunicationModel) -> Seq<Seq<char>> {
    seq![communication.recipient] + communication.other_recipients
}

/// The record that a message between agents becomes. Encrypted messages stay with the provider.
pub open spec fn communication_record(
    lineage: ProviderLineageModel,
    communication: InterAgentCommunicationModel,
    encoded: EncodedItemModel,
    fallback_id: Seq<char>,
) -> Adapted<ModelContextPayloadModel> {
    if communication.encrypted_content is Some {
        match encoded {
            EncodedItemModel::Failed(message) => Err(
                CodexAdapterErrorModel::ProviderJson {
                    operation: "serialize opaque rollout item"@,
                    message,
                },
            ),
            EncodedItemModel::Bytes(payload) => Ok(
                ModelContextPayloadModel::ProviderOpaque(
                    ProviderOpaqueItemModel {
                        lineage,
                        provider_item_id: match communication.id {
                            Some(id) => id,
                            None => fallback_id,
                        },
                        kind: "codex.inter_agent_communication"@,
                        payload,
                    },
                ),
            ),
        }
    } else {
        Ok(
            ModelContextPayloadModel::Message(
                MessageModel {
                    role: MessageRole::Assistant,
                    visibility: MessageVisibility::ModelOnly,
                    content: seq![ContentPartModel::Text { text: communication.content }],
                    phase: Some(MessagePhase::Commentary),
                    route: Some(
                        MessageRouteModel {
                            author: communication.author,
                            recipients: all_recipients(communication),
                            delivery: Some(
                                if communication.trigger_turn {
                                    MessageDelivery::TriggerTurn
                                } else {
                                    MessageDelivery::QueueOnly
                                },
                            ),
                        },
                    ),
                },
            ),
        )
    }
}

/// The id of a replacement item without a provider id.
pub open spec fn replacement_id(event_id: Seq<char>, index: nat) -> Seq<char> {
    event_id + ":replacement:"@ + decimal_text(index)
}

/// The items that replace the history, or the error of the first record that has none. Request
/// controls are left out.
pub open spec fn replacement_items(
    lineage: ProviderLineageModel,
    resolve: Resolution,
    event_id: Seq<char>,
    history: Seq<WiredItemModel>,
) -> Adapted<Seq<ModelContextItemModel>>
    decreases history.len(),
{
    if history.len() == 0 {
        Ok(Seq::empty())
    } else {
        let index = (history.len() - 1) as nat;
        let id = replacement_id(event_id, index);
        match replacement_items(lineage, resolve, event_id, history.drop_last()) {
            Err(error) => Err(error),
            Ok(front) => match response_record(lineage, resolve, history.last(), None, id) {
                Err(error) => Err(error),
                Ok(None) => Ok(front),
                Ok(Some(payload)) => Ok(front.push(item_of_record(payload, id, None))),
            },
        }
    }
}

/// The item that stands for the history where only a summary is known.
pub open spec fn summary_item(event_id: Seq<char>, message: Seq<char>) -> ModelContextItemModel {
    ModelContextItemModel {
        id: event_id + ":summary"@,
        source_sequence: None,
        payload: ModelContextPayloadModel::Message(
            MessageModel {
                role: MessageRole::Assistant,
                visibility: MessageVisibility::ModelOnly,
                content: seq![ContentPartModel::Text { text: message }],
                phase: None,
                route: None,
            },
        ),
    }
}

/// Whether a replacement holds a provider record.
pub open spec fn holds_opaque(items: Seq<ModelContextItemModel>) -> bool {
    exists|i: int| 0 <= i < items.len() && (#[trigger] items[i]).payload is ProviderOpaque
}

/// The checkpoint that a compaction records.
pub open spec fn checkpoint_of(
    lineage: ProviderLineageModel,
    resolve: Resolution,
    metadata: EventMetadataModel,
    compacted: CompactedItemModel,
) -> Adapted<ContextCheckpointModel> {
    if metadata.sequence == 0 {
        Err(CodexAdapterErrorModel::InvalidCompactionSequence)
    } else {
        let replacement = match compacted.replacement_history {
            Some(history) => replacement_items(lineage, resolve, metadata.event_id, history),
            None => Ok(seq![summary_item(metadata.event_id, compacted.message)]),
        };
        match replacement {
            Err(error) => Err(error),
            Ok(replacement) => Ok(
                ContextCheckpointModel {
                    id: match compacted.window_id {
                        Some(id) => id,
                        None => metadata.event_id,
                    },
                    conversation_id: metadata.conversation_id,
                    through_sequence: (metadata.sequence - 1) as u64,
                    lineage: if holds_opaque(replacement) {
                        Some(lineage)
                    } else {
                        None
                    },
                    mode: if holds_opaque(replacement) {
                        CompactionMode::ProviderNative
                    } else {
                        CompactionMode::Semantic
                    },
                    replacement,
                },
            ),
        }
    }
}

/// Why a record without a place in the model context is left out.
pub open spec fn ignored_reason(item: RolloutItemModel) -> Option<IgnoredRolloutItem> {
    match item {
        RolloutItemModel::ResponseItem(_) => None,
        RolloutItemModel::InterAgentCommunication { .. } => None,
        RolloutItemModel::Compacted(_) => None,
        RolloutItemModel::SessionMeta => Some(IgnoredRolloutItem::SessionMetadata),
        RolloutItemModel::InterAgentCommunicationMetadata => Some(
            IgnoredRolloutItem::DeliveryMetadata,
        ),
        RolloutItemModel::TurnContext => Some(IgnoredRolloutItem::TurnReferenceContext),
        RolloutItemModel::WorldState => Some(IgnoredRolloutItem::WorldState),
        RolloutItemModel::EventMsg => Some(IgnoredRolloutItem::PresentationEvent),
        _ => Some(IgnoredRolloutItem::RemoteExecutionPersistence),
    }
}

/// What a rollout record becomes in the journal.
pub open spec fn adapted_rollout(
    lineage: ProviderLineageModel,
    resolve: Resolution,
    metadata: EventMetadataModel,
    item: RolloutItemModel,
) -> Adapted<AdaptedRolloutItemModel> {
    match item {
        RolloutItemModel::ResponseItem(wired) => adapted_response(
            lineage,
            resolve,
            metadata,
            wired,
            None,
        ),
        RolloutItemModel::InterAgentCommunication { communication, encoded } =>
            match communication_record(lineage, communication, encoded, metadata.event_id) {
                Err(error) => Err(error),
                Ok(payload) => Ok(
                    AdaptedRolloutItemModel::Event(event_with(metadata, event_record(payload))),
                ),
            },
        RolloutItemModel::Compacted(compacted) => match checkpoint_of(
            lineage,
            resolve,
            metadata,
            compacted,
        ) {
            Err(error) => Err(error),
            Ok(checkpoint) => Ok(
                AdaptedRolloutItemModel::Event(
                    event_with(metadata, ContextEventPayloadModel::Compaction(checkpoint)),
                ),
            ),
        },
        _ => Ok(AdaptedRolloutItemModel::Ignored(ignored_reason(item)->0)),
    }
}

fn is_provider_native(items: &Vec<ModelContextItem>) -> (r: bool)
    ensures
        r == holds_opaque(items.deep_view()),
{
    let ghost model = items.deep_view();
    let mut i: usize = 0;
    while i < items.len()
        invariant
            i <= items@.len(),
            model == items.deep_view(),
            model.len() == items@.len(),
            forall|k: int| 0 <= k < i ==> !((#[trigger] model[k]).payload is ProviderOpaque),
        decreases items.len() - i,
    {
        assert(model[i as int] == items@[i as int].deep_view());
        if let ModelContextPayload::ProviderOpaque(_) = &items[i].payload {
            assert(model[i as int].payload is ProviderOpaque);
            return true;
        }
        i = i + 1;
    }
    false
}

/// An error among the first records is the error of the whole replacement.
proof fn lemma_replacement_error(
    lineage: ProviderLineageModel,
    resolve: Resolution,
    event_id: Seq<char>,
    history: Seq<WiredItemModel>,
    i: int,
)
    requires
        0 <= i <= history.len(),
        replacement_items(lineage, resolve, event_id, history.take(i)) is Err,
    ensures
        replacement_items(lineage, resolve, event_id, history) == replacement_items(
            lineage,
            resolve,
            event_id,
            history.take(i),
        ),
    decreases history.len() - i,
{
    if i < history.len() {
        assert(history.take(i + 1).drop_last() =~= history.take(i));
        lemma_replacement_error(lineage, resolve, event_id, history, i + 1);
    } else {
        assert(history.take(i) =~= history);
    }
}

fn text_content(text: &String) -> (r: Vec<ContentPart>)
    ensures
        r.deep_view() == seq![ContentPartModel::Text { text: text@ }],
{
    let mut content: Vec<ContentPart> = Vec::new();
    content.push(ContentPart::Text { text: text.clone() });
    assert(content.deep_view() =~= seq![ContentPartModel::Text { text: text@ }]);
    content
}

impl<'a, R: AttachmentResolver, M: AttachmentMaterializer> CodexContextAdapter<'a, R, M> {
    /// The record that a message between agents becomes.
    pub fn inter_agent_payload(
        &self,
        communication: &InterAgentCommunication,
        encoded: &EncodedItem,
        fallback_id: &str,
    ) -> (r: Result<ModelContextPayload, CodexAdapterError>)
        ensures
            outcome(r) == communication_record(
                self.lineage.deep_view(),
                communication.deep_view(),
                encoded.deep_view(),
                fallback_id@,
            ),
    {
        if communication.encrypted_content.is_some() {
            return match encoded {
                EncodedItem::Failed(message) => Err(
                    CodexAdapterError::ProviderJson {
                        operation: "serialize opaque rollout item",
                        message: message.clone(),
                    },
                ),
                EncodedItem::Bytes(bytes) => {
                    let payload = bytes.duplicate();
                    assert(payload.deep_view() =~= payload@);
                    Ok(
                        ModelContextPayload::ProviderOpaque(
                            ProviderOpaqueItem {
                                lineage: self.lineage.duplicate(),
                                provider_item_id: match &communication.id {
                                    Some(id) => id.clone(),
                                    None => fallback_id.to_owned(),
                                },
                                kind: "codex.inter_agent_communication".to_string(),
                                payload: OpaquePayload::new(payload),
                            },
                        ),
                    )
                },
            };
        }
        let mut recipients: Vec<String> = Vec::new();
        recipients.push(communication.recipient.clone());
        let ghost others = communication.other_recipients.deep_view();
        let mut i: usize = 0;
        assert(recipients.deep_view() =~= seq![communication.recipient@] + others.take(0));
        while i < communication.other_recipients.len()
            invariant
                i <= communication.other_recipients@.len(),
                others == communication.other_recipients.deep_view(),
                recipients.deep_view() == seq![communication.recipient@] + others.take(i as int),
            decreases communication.other_recipients.len() - i,
        {
            let ghost before = recipients.deep_view();
            recipients.push(communication.other_recipients[i].clone());
            proof {
                assert(recipients.deep_view() =~= before.push(others[i as int]));
                assert(others.take(i + 1) =~= others.take(i as int).push(others[i as int]));
            }
            i = i + 1;
            assert(recipients.deep_view() =~= seq![communication.recipient@] + others.take(
                i as int,
            ));
        }
        assert(others.take(others.len() as int) =~= others);
        let delivery = if communication.trigger_turn {
            MessageDelivery::TriggerTurn
        } else {
            MessageDelivery::QueueOnly
        };
        Ok(
            ModelContextPayload::Message(
                Message {
                    role: MessageRole::Assistant,
                    visibility: MessageVisibility::ModelOnly,
                    content: text_content(&communication.content),
                    phase: Some(MessagePhase::Commentary),
                    route: Some(
                        MessageRoute {
                            author: communication.author.clone(),
                            recipients,
                            delivery: Some(delivery),
                        },
                    ),
                },
            ),
        )
    }

    fn replacement(&self, event_id: &String, history: &Vec<WiredItem>) -> (r: Result<
        Vec<ModelContextItem>,
        CodexAdapterError,
    >)
        ensures
            outcome(r) == replacement_items(
                self.lineage.deep_view(),
                self.resolves(),
                event_id@,
                history.deep_view(),
            ),
    {
        let ghost model = history.deep_view();
        let ghost lineage = self.lineage.deep_view();
        let ghost resolve = self.resolves();
        let mut items: Vec<ModelContextItem> = Vec::new();
        let mut i: usize = 0;
        proof {
            lemma_empty_content(items);
            assert(model.take(0) =~= Seq::empty());
        }
        while i < history.len()
            invariant
                i <= history@.len(),
                model == history.deep_view(),
                model.len() == history@.len(),
                lineage == self.lineage.deep_view(),
                resolve == self.resolves(),
                replacement_items(lineage, resolve, event_id@, model.take(i as int)) == Ok::<
                    Seq<ModelContextItemModel>,
                    CodexAdapterErrorModel,
                >(items.deep_view()),
            decreases history.len() - i,
        {
            proof {
                assert(model[i as int] == history@[i as int].deep_view());
                assert(model.take(i + 1).drop_last() =~= model.take(i as int));
                assert(model.take(i + 1).last() == model[i as int]);
            }
            let id = glue3(event_id.as_str(), ":replacement:", decimal(i as u64).as_str());
            match self.response_payload(&history[i], &None, id.as_str()) {
                Err(error) => {
                    proof {
                        lemma_replacement_error(lineage, resolve, event_id@, model, i + 1);
                    }
                    return Err(error);
                },
                Ok(None) => {},
                Ok(Some(payload)) => {
                    let item = event_payload_to_model(payload, id, None);
                    let ghost before = items;
                    items.push(item);
                    assert(items.deep_view() =~= before.deep_view().push(item.deep_view()));
                },
            }
            i = i + 1;
        }
        assert(model.take(model.len() as int) =~= model);
        Ok(items)
    }

    /// The checkpoint that a compaction records. It is bound to the lineage exactly if it holds
    /// a provider record.
    pub fn compaction_event(&self, metadata: EventMetadata, compacted: &CompactedItem) -> (r:
        Result<ContextEvent, CodexAdapterError>)
        ensures
            outcome(r) == match checkpoint_of(
                self.lineage.deep_view(),
                self.resolves(),
                metadata.deep_view(),
                compacted.deep_view(),
            ) {
                Err(error) => Err(error),
                Ok(checkpoint) => Ok(
                    event_with(
                        metadata.deep_view(),
                        ContextEventPayloadModel::Compaction(checkpoint),
                    ),
                ),
            },
    {
        if metadata.sequence == 0 {
            return Err(CodexAdapterError::InvalidCompactionSequence);
        }
        let through_sequence: u64 = metadata.sequence - 1;
        let replacement = match &compacted.replacement_history {
            Some(history) => match self.replacement(&metadata.event_id, history) {
                Ok(items) => items,
                Err(error) => {
                    return Err(error);
                },
            },
            None => {
                let item = ModelContextItem {
                    id: glue(metadata.event_id.as_str(), ":summary"),
                    source_sequence: None,
                    payload: ModelContextPayload::Message(
                        Message {
                            role: MessageRole::Assistant,
                            visibility: MessageVisibility::ModelOnly,
                            content: text_content(&compacted.message),
                            phase: None,
                            route: None,
                        },
                    ),
                };
                let mut items: Vec<ModelContextItem> = Vec::new();
                items.push(item);
                assert(items.deep_view() =~= seq![
                    summary_item(metadata.event_id@, compacted.message@),
                ]);
                items
            },
        };
        let provider_native = is_provider_native(&replacement);
        let checkpoint = ContextCheckpoint {
            id: match &compacted.window_id {
                Some(id) => id.clone(),
                None => metadata.event_id.clone(),
            },
            conversation_id: metadata.conversation_id.clone(),
            through_sequence,
            lineage: if provider_native {
                Some(self.lineage.duplicate())
            } else {
                None
            },
            mode: if provider_native {
                CompactionMode::ProviderNative
            } else {
                CompactionMode::Semantic
            },
            replacement,
        };
        Ok(metadata.into_event(ContextEventPayload::Compaction(checkpoint)))
    }

    /// Adapts a record of a rollout. Records that only restore runtime or presentation state are
    /// classified explicitly.
    pub fn adapt_rollout_item(&self, metadata: EventMetadata, item: &RolloutItem) -> (r: Result<
        AdaptedRolloutItem,
        CodexAdapterError,
    >)
        ensures
            outcome(r) == adapted_rollout(
                self.lineage.deep_view(),
                self.resolves(),
                metadata.deep_view(),
                item.deep_view(),
            ),
    {
        match item {
            RolloutItem::ResponseItem(wired) => self.adapt_response_item(metadata, wired, &None),
            RolloutItem::InterAgentCommunication { communication, encoded } => {
                match self.inter_agent_payload(communication, encoded, metadata.event_id.as_str()) {
                    Err(error) => Err(error),
                    Ok(payload) => Ok(
                        AdaptedRolloutItem::Event(
                            Box::new(metadata.into_event(event_payload(payload))),
                        ),
                    ),
                }
            },
            RolloutItem::Compacted(compacted) => match self.compaction_event(metadata, compacted) {
                Err(error) => Err(error),
                Ok(event) => Ok(AdaptedRolloutItem::Event(Box::new(event))),
            },
            RolloutItem::SessionMeta => Ok(
                AdaptedRolloutItem::Ignored(IgnoredRolloutItem::SessionMetadata),
            ),
            RolloutItem::InterAgentCommunicationMetadata => Ok(
                AdaptedRolloutItem::Ignored(IgnoredRolloutItem::DeliveryMetadata),
            ),
            RolloutItem::RemoteExecutionProtocolMarker
            | RolloutItem::RemoteExecutionLaunchIntent
            | RolloutItem::RemoteExecutionWriteRequest
            | RolloutItem::RemoteExecutionWriteIntent
            | RolloutItem::RemoteExecutionSessionPrepared
            | RolloutItem::RemoteExecutionSessionCommitted
            | RolloutItem::RemoteExecutionSessionAcknowledged
            | RolloutItem::RemoteExecutionSessionReleased => Ok(
                AdaptedRolloutItem::Ignored(IgnoredRolloutItem::RemoteExecutionPersistence),
            ),
            RolloutItem::TurnContext => Ok(
                AdaptedRolloutItem::Ignored(IgnoredRolloutItem::TurnReferenceContext),
            ),
            RolloutItem::WorldState => Ok(
                AdaptedRolloutItem::Ignored(IgnoredRolloutItem::WorldState),
            ),
            RolloutItem::EventMsg => Ok(
                AdaptedRolloutItem::Ignored(IgnoredRolloutItem::PresentationEvent),
            ),
        }
    }
}

} // verus!
