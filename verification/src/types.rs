//! What rollout records become, and what model items become on the way to the provider.
use vstd::prelude::*;

use crate::context::{
    ContextEvent, ContextEventModel, ContextEventPayload, ContextEventPayloadModel,
    ModelContextItem, ModelContextItemModel, OpaquePayload,
};
use crate::error::CodexAdapterError;
use crate::error::CodexAdapterErrorModel;
use crate::lists::outcome;
use crate::model::Modeled;
use crate::protocol::{ProviderReading, ProviderReadingModel, ResponseItem, ResponseItemModel};
use crate::text::{debug_text, decimal_text, glue3, quoted};

verus! {

/// The identity of the journal event that a record becomes.
#[derive(Debug, PartialEq, Eq)]
pub struct EventMetadata {
    pub event_id: String,
    pub conversation_id: String,
    pub turn_id: Option<String>,
    pub sequence: u64,
}

/// The mathematical content of a [`EventMetadata`].
pub struct EventMetadataModel {
    pub event_id: Seq<char>,
    pub conversation_id: Seq<char>,
    pub turn_id: Option<Seq<char>>,
    pub sequence: u64,
}

impl DeepView for EventMetadata {
    type V = EventMetadataModel;

    open spec fn deep_view(&self) -> EventMetadataModel {
        EventMetadataModel {
            event_id: self.event_id.deep_view(),
            conversation_id: self.conversation_id.deep_view(),
            turn_id: self.turn_id.deep_view(),
            sequence: self.sequence,
        }
    }
}

impl Modeled for EventMetadata {
    fn duplicate(&self) -> (r: Self) {
        EventMetadata {
            event_id: self.event_id.duplicate(),
            conversation_id: self.conversation_id.duplicate(),
            turn_id: self.turn_id.duplicate(),
            sequence: self.sequence,
        }
    }

    fn same(&self, other: &Self) -> (r: bool) {
        self.event_id.same(&other.event_id)
            && self.conversation_id.same(&other.conversation_id)
            && self.turn_id.same(&other.turn_id)
            && self.sequence == other.sequence
    }
}

impl Clone for EventMetadata {
    fn clone(&self) -> (r: Self)
        ensures
            r.deep_view() == self.deep_view(),
    {
        self.duplicate()
    }
}

/// Why a rollout record has no place in the model context.
#[derive(Clone, Copy, Debug, PartialEq, Eq, Structural)]
pub enum IgnoredRolloutItem {
    SessionMetadata,
    DeliveryMetadata,
    RemoteExecutionPersistence,
    TurnReferenceContext,
    WorldState,
    PresentationEvent,
    RequestControl,
}

impl DeepView for IgnoredRolloutItem {
    type V = IgnoredRolloutItem;

    open spec fn deep_view(&self) -> IgnoredRolloutItem {
        *self
    }
}

impl Modeled for IgnoredRolloutItem {
    fn duplicate(&self) -> (r: Self) {
        *self
    }

    fn same(&self, other: &Self) -> (r: bool) {
        *self == *other
    }
}

/// What a rollout record becomes.
#[derive(PartialEq, Eq)]
pub enum AdaptedRolloutItem {
    Event(Box<ContextEvent>),
    Ignored(IgnoredRolloutItem),
}

/// The mathematical content of a [`AdaptedRolloutItem`].
pub enum AdaptedRolloutItemModel {
    Event(ContextEventModel),
    Ignored(IgnoredRolloutItem),
}

impl DeepView for AdaptedRolloutItem {
    type V = AdaptedRolloutItemModel;

    open spec fn deep_view(&self) -> AdaptedRolloutItemModel {
        match self {
            AdaptedRolloutItem::Event(x) => AdaptedRolloutItemModel::Event(x.deep_view()),
            AdaptedRolloutItem::Ignored(x) => AdaptedRolloutItemModel::Ignored(*x),
        }
    }
}

impl Modeled for AdaptedRolloutItem {
    fn duplicate(&self) -> (r: Self) {
        match self {
            AdaptedRolloutItem::Event(x) => AdaptedRolloutItem::Event(x.duplicate()),
            AdaptedRolloutItem::Ignored(x) => AdaptedRolloutItem::Ignored(*x),
        }
    }

    fn same(&self, other: &Self) -> (r: bool) {
        match (self, other) {
            (AdaptedRolloutItem::Event(x), AdaptedRolloutItem::Event(x_other)) => x.same(x_other),
            (AdaptedRolloutItem::Ignored(x), AdaptedRolloutItem::Ignored(x_other)) => {
                *x == *x_other
            },
            _ => false,
        }
    }
}

impl Clone for AdaptedRolloutItem {
    fn clone(&self) -> (r: Self)
        ensures
            r.deep_view() == self.deep_view(),
    {
        self.duplicate()
    }
}

/// A record prepared for a provider request.
#[derive(PartialEq, Eq)]
pub enum PreparedCodexInputItem {
    /// A current item. Opaque source JSON remains available so a raw transport can preserve the
    /// provider envelope byte for byte.
    Typed { item: ResponseItem, original_json: Option<OpaquePayload> },
    /// A future record that the provider's decoder does not know.
    RawOpaque { item_id: String, kind: String, payload: OpaquePayload },
}

/// The mathematical content of a [`PreparedCodexInputItem`].
pub enum PreparedCodexInputItemModel {
    Typed { item: ResponseItemModel, original_json: Option<Seq<u8>> },
    RawOpaque { item_id: Seq<char>, kind: Seq<char>, payload: Seq<u8> },
}

impl DeepView for PreparedCodexInputItem {
    type V = PreparedCodexInputItemModel;

    open spec fn deep_view(&self) -> PreparedCodexInputItemModel {
        match self {
            PreparedCodexInputItem::Typed { item, original_json } => {
                PreparedCodexInputItemModel::Typed {
                    item: item.deep_view(),
                    original_json: original_json.deep_view(),
                }
            },
            PreparedCodexInputItem::RawOpaque { item_id, kind, payload } => {
                PreparedCodexInputItemModel::RawOpaque {
                    item_id: item_id.deep_view(),
                    kind: kind.deep_view(),
                    payload: payload.deep_view(),
                }
            },
        }
    }
}

impl Modeled for PreparedCodexInputItem {
    fn duplicate(&self) -> (r: Self) {
        match self {
            PreparedCodexInputItem::Typed { item, original_json } => PreparedCodexInputItem::Typed {
                item: item.duplicate(),
                original_json: original_json.duplicate(),
            },
            PreparedCodexInputItem::RawOpaque { item_id, kind, payload } => {
                PreparedCodexInputItem::RawOpaque {
                    item_id: item_id.duplicate(),
                    kind: kind.duplicate(),
                    payload: payload.duplicate(),
                }
            },
        }
    }

    fn same(&self, other: &Self) -> (r: bool) {
        match (self, other) {
            (
                PreparedCodexInputItem::Typed { item, original_json },
                PreparedCodexInputItem::Typed {
                    item: item_other,
                    original_json: original_json_other,
                },
            ) => item.same(item_other) && original_json.same(original_json_other),
            (
                PreparedCodexInputItem::RawOpaque { item_id, kind, payload },
                PreparedCodexInputItem::RawOpaque {
                    item_id: item_id_other,
                    kind: kind_other,
                    payload: payload_other,
                },
            ) => {
                item_id.same(item_id_other) && kind.same(kind_other) && payload.same(payload_other)
            },
            _ => false,
        }
    }
}

impl Clone for PreparedCodexInputItem {
    fn clone(&self) -> (r: Self)
        ensures
            r.deep_view() == self.deep_view(),
    {
        self.duplicate()
    }
}

/// A model item together with how the provider's decoder reads it.
#[derive(PartialEq, Eq)]
pub struct ReadItem {
    pub item: ModelContextItem,
    pub reading: ProviderReading,
}

/// The mathematical content of a [`ReadItem`].
pub struct ReadItemModel {
    pub item: ModelContextItemModel,
    pub reading: ProviderReadingModel,
}

impl DeepView for ReadItem {
    type V = ReadItemModel;

    open spec fn deep_view(&self) -> ReadItemModel {
        ReadItemModel {
            item: self.item.deep_view(),
            reading: self.reading.deep_view(),
        }
    }
}

impl Modeled for ReadItem {
    fn duplicate(&self) -> (r: Self) {
        ReadItem {
            item: self.item.duplicate(),
            reading: self.reading.duplicate(),
        }
    }

    fn same(&self, other: &Self) -> (r: bool) {
        self.item.same(&other.item)
            && self.reading.same(&other.reading)
    }
}

impl Clone for ReadItem {
    fn clone(&self) -> (r: Self)
        ensures
            r.deep_view() == self.deep_view(),
    {
        self.duplicate()
    }
}

/// The journal event with the given identity and record.
pub open spec fn event_with(
    metadata: EventMetadataModel,
    payload: ContextEventPayloadModel,
) -> ContextEventModel {
    ContextEventModel {
        id: metadata.event_id,
        conversation_id: metadata.conversation_id,
        turn_id: metadata.turn_id,
        sequence: metadata.sequence,
        payload,
    }
}

impl EventMetadata {
    /// The journal event with this identity and the given record.
    pub fn into_event(self, payload: ContextEventPayload) -> (r: ContextEvent)
        ensures
            r.deep_view() == event_with(self.deep_view(), payload.deep_view()),
    {
        ContextEvent {
            id: self.event_id,
            conversation_id: self.conversation_id,
            turn_id: self.turn_id,
            sequence: self.sequence,
            payload,
        }
    }
}

/// The typed item of a prepared record, or the error that it needs the raw transport.
pub open spec fn typed_item(prepared: PreparedCodexInputItemModel) -> Result<
    ResponseItemModel,
    CodexAdapterErrorModel,
> {
    match prepared {
        PreparedCodexInputItemModel::Typed { item, .. } => Ok(item),
        PreparedCodexInputItemModel::RawOpaque { item_id, .. } => Err(
            CodexAdapterErrorModel::RawTransportRequired { item_id },
        ),
    }
}

/// What diagnostics say of a payload of some length.
pub open spec fn redacted_payload(length: nat) -> Seq<char> {
    "<redacted opaque payload: "@ + decimal_text(length) + " bytes>"@
}

/// What diagnostics say of a prepared record that carries opaque JSON: how long it is, and
/// nothing of its content. A record without opaque JSON has nothing to hide.
pub open spec fn redacted_record(prepared: PreparedCodexInputItemModel) -> Option<Seq<char>> {
    match prepared {
        PreparedCodexInputItemModel::Typed { original_json: Some(payload), .. } => Some(
            "TypedOpaque { original_json: "@ + redacted_payload(payload.len()) + ", .. }"@,
        ),
        PreparedCodexInputItemModel::Typed { original_json: None, .. } => None,
        PreparedCodexInputItemModel::RawOpaque { item_id, kind, payload } => Some(
            "RawOpaque { item_id: "@ + debug_text(item_id) + (", kind: "@ + debug_text(kind) + (
            ", payload: "@ + redacted_payload(payload.len()) + " }"@)),
        ),
    }
}

/// Diagnostics tell two payloads of one length not apart.
pub proof fn law_diagnostics_hide_payloads(
    item: ResponseItemModel,
    other: ResponseItemModel,
    item_id: Seq<char>,
    kind: Seq<char>,
    a: Seq<u8>,
    b: Seq<u8>,
)
    requires
        a.len() == b.len(),
    ensures
        redacted_record(PreparedCodexInputItemModel::Typed { item, original_json: Some(a) })
            == redacted_record(
            PreparedCodexInputItemModel::Typed { item: other, original_json: Some(b) },
        ),
        redacted_record(PreparedCodexInputItemModel::RawOpaque { item_id, kind, payload: a })
            == redacted_record(
            PreparedCodexInputItemModel::RawOpaque { item_id, kind, payload: b },
        ),
{
}

impl PreparedCodexInputItem {
    /// What diagnostics say of the record where it carries opaque JSON.
    pub fn redacted(&self) -> (r: Option<String>)
        ensures
            r.deep_view() == redacted_record(self.deep_view()),
    {
        match self {
            PreparedCodexInputItem::Typed { original_json: Some(payload), .. } => Some(
                glue3("TypedOpaque { original_json: ", payload.redacted().as_str(), ", .. }"),
            ),
            PreparedCodexInputItem::Typed { original_json: None, .. } => None,
            PreparedCodexInputItem::RawOpaque { item_id, kind, payload } => Some(
                glue3(
                    "RawOpaque { item_id: ",
                    quoted(item_id.as_str()).as_str(),
                    glue3(
                        ", kind: ",
                        quoted(kind.as_str()).as_str(),
                        glue3(", payload: ", payload.redacted().as_str(), " }").as_str(),
                    ).as_str(),
                ),
            ),
        }
    }

    /// The typed item, where there is one.
    pub fn response_item(&self) -> (r: Option<&ResponseItem>)
        ensures
            r.deep_view() == match self.deep_view() {
                PreparedCodexInputItemModel::Typed { item, .. } => Some(item),
                PreparedCodexInputItemModel::RawOpaque { .. } => None,
            },
    {
        match self {
            PreparedCodexInputItem::Typed { item, .. } => Some(item),
            PreparedCodexInputItem::RawOpaque { .. } => None,
        }
    }

    /// The exact JSON that the record was stored as, where it is known.
    pub fn original_json(&self) -> (r: Option<&[u8]>)
        ensures
            (match r {
                Some(bytes) => Some(bytes@),
                None => None,
            }) == match self.deep_view() {
                PreparedCodexInputItemModel::Typed { original_json, .. } => original_json,
                PreparedCodexInputItemModel::RawOpaque { payload, .. } => Some(payload),
            },
    {
        match self {
            PreparedCodexInputItem::Typed { original_json: Some(payload), .. } => Some(
                payload.as_bytes(),
            ),
            PreparedCodexInputItem::RawOpaque { payload, .. } => Some(payload.as_bytes()),
            PreparedCodexInputItem::Typed { original_json: None, .. } => None,
        }
    }

    /// The typed item, or the error that the record needs the raw transport.
    pub fn into_response_item(self) -> (r: Result<ResponseItem, CodexAdapterError>)
        ensures
            outcome(r) == typed_item(self.deep_view()),
    {
        match self {
            PreparedCodexInputItem::Typed { item, .. } => Ok(item),
            PreparedCodexInputItem::RawOpaque { item_id, .. } => Err(
                CodexAdapterError::RawTransportRequired { item_id },
            ),
        }
    }
}

} // verus!
