//! Validation, projection and forking of a conversation's journal.
use vstd::prelude::*;

use crate::context::{
    CompactionMode, ContextCheckpoint, ContextCheckpointModel, ContextContractError,
    ContextContractErrorModel, ContextEvent, ContextEventModel, ContextEventPayload,
    ContextEventPayloadModel, ContextProjection, ContextProjectionModel, ForkRequest,
    ForkRequestModel, ForkSeed, ForkSeedModel, MessageVisibility, ModelContextItem,
    ModelContextItemModel, ModelContextPayload, ModelContextPayloadModel, ProviderLineage,
    ProviderLineageModel, ProviderOpaqueItem, ProviderOpaqueItemModel,
};
use crate::lists::{lemma_empty_content, lemma_filter_step, lemma_push_content, outcome};
use crate::model::Modeled;
use crate::text::{decimal, decimal_text, glue, glue3};

verus! {

broadcast use lemma_push_content;

impl MessageVisibility {
    /// Whether the transcript shows such a message.
    pub fn includes_transcript(&self) -> (r: bool)
        ensures
            r == transcript_visible(*self),
    {
        matches!(self, MessageVisibility::TranscriptAndModel | MessageVisibility::TranscriptOnly)
    }

    /// Whether the model is shown such a message.
    pub fn includes_model(&self) -> (r: bool)
        ensures
            r == model_visible(*self),
    {
        matches!(self, MessageVisibility::TranscriptAndModel | MessageVisibility::ModelOnly)
    }
}

pub open spec fn transcript_visible(v: MessageVisibility) -> bool {
    v != MessageVisibility::ModelOnly
}

pub open spec fn model_visible(v: MessageVisibility) -> bool {
    v != MessageVisibility::TranscriptOnly
}

// ---------------------------------------------------------------------------------------------
// Validation

/// The error for an empty field, if the field is empty.
pub open spec fn empty_problem(value: Seq<char>, field: Seq<char>) -> Option<
    ContextContractErrorModel,
> {
    if value.len() == 0 {
        Some(ContextContractErrorModel::EmptyField { field })
    } else {
        None
    }
}

/// The first of two problems.
pub open spec fn first_of(
    a: Option<ContextContractErrorModel>,
    b: Option<ContextContractErrorModel>,
) -> Option<ContextContractErrorModel> {
    if a is Some {
        a
    } else {
        b
    }
}

/// What is wrong with a provider record: its names and its payload must not be empty.
pub open spec fn opaque_problem(item: ProviderOpaqueItemModel) -> Option<
    ContextContractErrorModel,
> {
    first_of(
        empty_problem(item.provider_item_id, "provider_opaque.provider_item_id"@),
        first_of(
            empty_problem(item.kind, "provider_opaque.kind"@),
            first_of(
                empty_problem(item.lineage.provider, "provider_lineage.provider"@),
                first_of(
                    empty_problem(item.lineage.protocol, "provider_lineage.protocol"@),
                    first_of(
                        empty_problem(item.lineage.lineage_id, "provider_lineage.lineage_id"@),
                        if item.payload.len() == 0 {
                            Some(
                                ContextContractErrorModel::EmptyField {
                                    field: "provider_opaque.payload"@,
                                },
                            )
                        } else {
                            None
                        },
                    ),
                ),
            ),
        ),
    )
}

/// What is wrong with one replacement item of a checkpoint.
pub open spec fn replacement_item_problem(
    checkpoint: ContextCheckpointModel,
    item: ModelContextItemModel,
) -> Option<ContextContractErrorModel> {
    match item.payload {
        ModelContextPayloadModel::ProviderOpaque(opaque) => first_of(
            opaque_problem(opaque),
            if checkpoint.lineage != Some(opaque.lineage) {
                Some(
                    ContextContractErrorModel::InvalidCheckpoint {
                        checkpoint_id: checkpoint.id,
                        reason: "opaque replacement does not match checkpoint lineage"@,
                    },
                )
            } else {
                None
            },
        ),
        _ => None,
    }
}

/// The problem of the first replacement item, from `i` on, that has one.
pub open spec fn replacement_problem(checkpoint: ContextCheckpointModel, i: int) -> Option<
    ContextContractErrorModel,
>
    decreases checkpoint.replacement.len() - i,
{
    if i < 0 || i >= checkpoint.replacement.len() {
        None
    } else {
        first_of(
            replacement_item_problem(checkpoint, checkpoint.replacement[i]),
            replacement_problem(checkpoint, i + 1),
        )
    }
}

/// What is wrong with a checkpoint recorded by an event.
pub open spec fn checkpoint_problem(
    event: ContextEventModel,
    checkpoint: ContextCheckpointModel,
) -> Option<ContextContractErrorModel> {
    if checkpoint.id.len() == 0 {
        Some(ContextContractErrorModel::EmptyField { field: "checkpoint.id"@ })
    } else if checkpoint.conversation_id != event.conversation_id {
        Some(
            ContextContractErrorModel::InvalidCheckpoint {
                checkpoint_id: checkpoint.id,
                reason: "conversation does not match its event"@,
            },
        )
    } else if checkpoint.through_sequence >= event.sequence {
        Some(
            ContextContractErrorModel::InvalidCheckpoint {
                checkpoint_id: checkpoint.id,
                reason: "through_sequence must precede the checkpoint event"@,
            },
        )
    } else if (checkpoint.mode == CompactionMode::ProviderNative) != (checkpoint.lineage is Some) {
        Some(
            ContextContractErrorModel::InvalidCheckpoint {
                checkpoint_id: checkpoint.id,
                reason: "native checkpoints require lineage; semantic checkpoints forbid it"@,
            },
        )
    } else {
        replacement_problem(checkpoint, 0)
    }
}

/// What is wrong with the record that an event carries.
pub open spec fn payload_problem(event: ContextEventModel) -> Option<ContextContractErrorModel> {
    match event.payload {
        ContextEventPayloadModel::Message(message) => if message.content.len() == 0 {
            Some(ContextContractErrorModel::EmptyField { field: "message.content"@ })
        } else {
            None
        },
        ContextEventPayloadModel::Tool(tool) => first_of(
            empty_problem(tool.call_id, "tool.call_id"@),
            empty_problem(tool.name, "tool.name"@),
        ),
        ContextEventPayloadModel::ProviderOpaque(item) => opaque_problem(item),
        ContextEventPayloadModel::Compaction(checkpoint) => checkpoint_problem(event, checkpoint),
    }
}

/// The sequence number that event `i` must exceed.
pub open spec fn previous_sequence(events: Seq<ContextEventModel>, i: int) -> u64 {
    if i <= 0 {
        0
    } else {
        events[i - 1].sequence
    }
}

/// What is wrong with event `i` of a journal.
pub open spec fn event_problem(events: Seq<ContextEventModel>, i: int) -> Option<
    ContextContractErrorModel,
> {
    let event = events[i];
    if event.id.len() == 0 {
        Some(ContextContractErrorModel::EmptyField { field: "event_id"@ })
    } else if event.conversation_id != events[0].conversation_id {
        Some(
            ContextContractErrorModel::ConversationMismatch {
                event_id: event.id,
                expected: events[0].conversation_id,
                actual: event.conversation_id,
            },
        )
    } else if event.sequence <= previous_sequence(events, i) {
        Some(
            ContextContractErrorModel::NonIncreasingSequence {
                previous: previous_sequence(events, i),
                current: event.sequence,
            },
        )
    } else if exists|j: int| 0 <= j < i && (#[trigger] events[j]).id == event.id {
        Some(ContextContractErrorModel::DuplicateEventId { event_id: event.id })
    } else {
        payload_problem(event)
    }
}

/// The problem of the first event, from `i` on, that has one.
pub open spec fn problem_from(events: Seq<ContextEventModel>, i: int) -> Option<
    ContextContractErrorModel,
>
    decreases events.len() - i,
{
    if i < 0 || i >= events.len() {
        None
    } else {
        first_of(event_problem(events, i), problem_from(events, i + 1))
    }
}

/// What is wrong with a journal. The empty journal is in order.
pub open spec fn journal_problem(events: Seq<ContextEventModel>) -> Option<
    ContextContractErrorModel,
> {
    if events.len() == 0 {
        None
    } else {
        first_of(
            empty_problem(events[0].conversation_id, "conversation_id"@),
            problem_from(events, 0),
        )
    }
}

/// Refuses an empty field under its name.
pub fn require_nonempty(value: &str, field: &'static str) -> (r: Result<(), ContextContractError>)
    ensures
        r is Ok <==> value@.len() > 0,
        r matches Err(e) ==> Some(e.deep_view()) == empty_problem(value@, field@),
{
    if value.is_empty() {
        return Err(ContextContractError::EmptyField { field });
    }
    Ok(())
}

/// Checks a provider record.
pub fn validate_opaque(item: &ProviderOpaqueItem) -> (r: Result<(), ContextContractError>)
    ensures
        r is Ok <==> opaque_problem(item.deep_view()) is None,
        r matches Err(e) ==> opaque_problem(item.deep_view()) == Some(e.deep_view()),
{
    require_nonempty(item.provider_item_id.as_str(), "provider_opaque.provider_item_id")?;
    require_nonempty(item.kind.as_str(), "provider_opaque.kind")?;
    require_nonempty(item.lineage.provider.as_str(), "provider_lineage.provider")?;
    require_nonempty(item.lineage.protocol.as_str(), "provider_lineage.protocol")?;
    require_nonempty(item.lineage.lineage_id.as_str(), "provider_lineage.lineage_id")?;
    if item.payload.as_bytes().len() == 0 {
        return Err(ContextContractError::EmptyField { field: "provider_opaque.payload" });
    }
    Ok(())
}

fn validate_checkpoint(event: &ContextEvent, checkpoint: &ContextCheckpoint) -> (r: Result<
    (),
    ContextContractError,
>)
    ensures
        r is Ok <==> checkpoint_problem(event.deep_view(), checkpoint.deep_view()) is None,
        r matches Err(e) ==> checkpoint_problem(event.deep_view(), checkpoint.deep_view()) == Some(
            e.deep_view(),
        ),
{
    require_nonempty(checkpoint.id.as_str(), "checkpoint.id")?;
    if checkpoint.conversation_id != event.conversation_id {
        return Err(
            ContextContractError::InvalidCheckpoint {
                checkpoint_id: checkpoint.id.clone(),
                reason: "conversation does not match its event".to_string(),
            },
        );
    }
    if checkpoint.through_sequence >= event.sequence {
        return Err(
            ContextContractError::InvalidCheckpoint {
                checkpoint_id: checkpoint.id.clone(),
                reason: "through_sequence must precede the checkpoint event".to_string(),
            },
        );
    }
    if (checkpoint.mode == CompactionMode::ProviderNative) != checkpoint.lineage.is_some() {
        return Err(
            ContextContractError::InvalidCheckpoint {
                checkpoint_id: checkpoint.id.clone(),
                reason: "native checkpoints require lineage; semantic checkpoints forbid it"
                    .to_string(),
            },
        );
    }
    let ghost model = checkpoint.deep_view();
    let mut i: usize = 0;
    while i < checkpoint.replacement.len()
        invariant
            i <= checkpoint.replacement@.len(),
            model == checkpoint.deep_view(),
            replacement_problem(model, 0) == replacement_problem(model, i as int),
            checkpoint_problem(event.deep_view(), model) == replacement_problem(model, 0),
        decreases checkpoint.replacement.len() - i,
    {
        let item = &checkpoint.replacement[i];
        assert(model.replacement[i as int] == item.deep_view());
        if let ModelContextPayload::ProviderOpaque(opaque) = &item.payload {
            validate_opaque(opaque)?;
            let matching = match &checkpoint.lineage {
                Some(lineage) => lineage.same(&opaque.lineage),
                None => false,
            };
            if !matching {
                return Err(
                    ContextContractError::InvalidCheckpoint {
                        checkpoint_id: checkpoint.id.clone(),
                        reason: "opaque replacement does not match checkpoint lineage".to_string(),
                    },
                );
            }
        }
        i = i + 1;
    }
    Ok(())
}

/// Checks the record that an event carries.
pub fn validate_event(event: &ContextEvent) -> (r: Result<(), ContextContractError>)
    ensures
        r is Ok <==> payload_problem(event.deep_view()) is None,
        r matches Err(e) ==> payload_problem(event.deep_view()) == Some(e.deep_view()),
{
    match &event.payload {
        ContextEventPayload::Message(message) => {
            if message.content.len() == 0 {
                return Err(ContextContractError::EmptyField { field: "message.content" });
            }
        },
        ContextEventPayload::Tool(tool) => {
            require_nonempty(tool.call_id.as_str(), "tool.call_id")?;
            require_nonempty(tool.name.as_str(), "tool.name")?;
        },
        ContextEventPayload::ProviderOpaque(item) => {
            validate_opaque(item)?;
        },
        ContextEventPayload::Compaction(checkpoint) => {
            validate_checkpoint(event, checkpoint)?;
        },
    }
    Ok(())
}

fn id_occurs(events: &[ContextEvent], limit: usize, id: &String) -> (r: bool)
    requires
        limit <= events@.len(),
    ensures
        r == exists|j: int| 0 <= j < limit && (#[trigger] events.deep_view()[j]).id == id@,
{
    let mut j: usize = 0;
    while j < limit
        invariant
            j <= limit <= events@.len(),
            forall|k: int| 0 <= k < j ==> (#[trigger] events.deep_view()[k]).id != id@,
        decreases limit - j,
    {
        assert(events.deep_view()[j as int] == events@[j as int].deep_view());
        if events[j].id == *id {
            return true;
        }
        j = j + 1;
    }
    false
}

/// Checks a journal: one conversation, nonempty and distinct event ids, increasing positive
/// sequence numbers, and records in order. The error names the first problem.
pub fn validate_events(events: &[ContextEvent]) -> (r: Result<(), ContextContractError>)
    ensures
        r is Ok <==> journal_problem(events.deep_view()) is None,
        r matches Err(e) ==> journal_problem(events.deep_view()) == Some(e.deep_view()),
{
    let ghost model = events.deep_view();
    if events.len() == 0 {
        return Ok(());
    }
    let first = &events[0];
    assert(model[0] == first.deep_view());
    require_nonempty(first.conversation_id.as_str(), "conversation_id")?;
    let mut previous: u64 = 0;
    let mut i: usize = 0;
    while i < events.len()
        invariant
            0 < events@.len(),
            i <= events@.len(),
            model == events.deep_view(),
            model.len() == events@.len(),
            model[0] == first.deep_view(),
            previous == previous_sequence(model, i as int),
            journal_problem(model) == problem_from(model, 0),
            problem_from(model, 0) == problem_from(model, i as int),
        decreases events.len() - i,
    {
        let event = &events[i];
        assert(model[i as int] == event.deep_view());
        require_nonempty(event.id.as_str(), "event_id")?;
        if event.conversation_id != first.conversation_id {
            return Err(
                ContextContractError::ConversationMismatch {
                    event_id: event.id.clone(),
                    expected: first.conversation_id.clone(),
                    actual: event.conversation_id.clone(),
                },
            );
        }
        if event.sequence <= previous {
            return Err(
                ContextContractError::NonIncreasingSequence { previous, current: event.sequence },
            );
        }
        previous = event.sequence;
        if id_occurs(events, i, &event.id) {
            return Err(ContextContractError::DuplicateEventId { event_id: event.id.clone() });
        }
        validate_event(event)?;
        i = i + 1;
    }
    Ok(())
}

// ---------------------------------------------------------------------------------------------
// Projection

/// Whether an event belongs to the transcript.
pub open spec fn in_transcript(event: ContextEventModel) -> bool {
    event.payload matches ContextEventPayloadModel::Message(message) && transcript_visible(
        message.visibility,
    )
}

/// The events that a reader of the conversation sees.
pub open spec fn transcript_of(events: Seq<ContextEventModel>) -> Seq<ContextEventModel> {
    events.filter(|e: ContextEventModel| in_transcript(e))
}

/// The checkpoint of an event, where it is usable by the target lineage.
pub open spec fn usable_checkpoint(
    event: ContextEventModel,
    target: ProviderLineageModel,
) -> Option<ContextCheckpointModel> {
    match event.payload {
        ContextEventPayloadModel::Compaction(checkpoint) => if checkpoint.lineage is None
            || checkpoint.lineage == Some(target) {
            Some(checkpoint)
        } else {
            None
        },
        _ => None,
    }
}

/// The latest checkpoint that the target lineage can use.
pub open spec fn latest_checkpoint(
    events: Seq<ContextEventModel>,
    target: ProviderLineageModel,
) -> Option<ContextCheckpointModel>
    decreases events.len(),
{
    if events.len() == 0 {
        None
    } else if usable_checkpoint(events.last(), target) is Some {
        usable_checkpoint(events.last(), target)
    } else {
        latest_checkpoint(events.drop_last(), target)
    }
}

/// What the model is shown of an event, if anything.
pub open spec fn model_item(event: ContextEventModel) -> Option<ModelContextItemModel> {
    let payload = match event.payload {
        ContextEventPayloadModel::Message(message) => if model_visible(message.visibility) {
            Some(ModelContextPayloadModel::Message(message))
        } else {
            None
        },
        ContextEventPayloadModel::Tool(tool) => Some(ModelContextPayloadModel::Tool(tool)),
        ContextEventPayloadModel::ProviderOpaque(item) => Some(
            ModelContextPayloadModel::ProviderOpaque(item),
        ),
        ContextEventPayloadModel::Compaction(_) => None,
    };
    match payload {
        Some(payload) => Some(
            ModelContextItemModel {
                id: event.id,
                source_sequence: Some(event.sequence),
                payload,
            },
        ),
        None => None,
    }
}

/// What the model is shown of an event that follows a sequence number.
pub open spec fn model_item_after(event: ContextEventModel, through: u64) -> Option<
    ModelContextItemModel,
> {
    if event.sequence > through {
        model_item(event)
    } else {
        None
    }
}

/// Whether an item may be sent to the target lineage.
pub open spec fn compatible(item: ModelContextItemModel, target: ProviderLineageModel) -> bool {
    item.payload matches ModelContextPayloadModel::ProviderOpaque(opaque) ==> opaque.lineage
        == target
}

/// The sequence number through which the latest usable checkpoint replaces the journal.
pub open spec fn replaced_through(
    events: Seq<ContextEventModel>,
    target: ProviderLineageModel,
) -> u64 {
    match latest_checkpoint(events, target) {
        Some(checkpoint) => checkpoint.through_sequence,
        None => 0,
    }
}

/// The items of the latest usable checkpoint, followed by those of the events after it.
pub open spec fn candidate_items(
    events: Seq<ContextEventModel>,
    target: ProviderLineageModel,
) -> Seq<ModelContextItemModel> {
    let through = replaced_through(events, target);
    let replacement = match latest_checkpoint(events, target) {
        Some(checkpoint) => checkpoint.replacement,
        None => Seq::empty(),
    };
    replacement + events.filter_map(|e: ContextEventModel| model_item_after(e, through))
}

/// The items among the candidates that the target lineage may be sent.
pub open spec fn kept_items(
    items: Seq<ModelContextItemModel>,
    target: ProviderLineageModel,
) -> Seq<ModelContextItemModel> {
    items.filter(|item: ModelContextItemModel| compatible(item, target))
}

/// The ids of the items that only another lineage can read.
pub open spec fn excluded_ids(
    items: Seq<ModelContextItemModel>,
    target: ProviderLineageModel,
) -> Seq<Seq<char>> {
    items.filter(|item: ModelContextItemModel| !compatible(item, target)).map_values(
        |item: ModelContextItemModel| item.id,
    )
}

/// The projection of a journal in order.
pub open spec fn projection_of(
    events: Seq<ContextEventModel>,
    target: ProviderLineageModel,
) -> ContextProjectionModel {
    ContextProjectionModel {
        transcript: transcript_of(events),
        model_context: kept_items(candidate_items(events, target), target),
        excluded_opaque_event_ids: excluded_ids(candidate_items(events, target), target),
        checkpoint_id: match latest_checkpoint(events, target) {
            Some(checkpoint) => Some(checkpoint.id),
            None => None,
        },
    }
}

/// The projection of a journal, or what is wrong with the journal.
pub open spec fn projected(
    events: Seq<ContextEventModel>,
    target: ProviderLineageModel,
) -> Result<ContextProjectionModel, ContextContractErrorModel> {
    match journal_problem(events) {
        Some(problem) => Err(problem),
        None => Ok(projection_of(events, target)),
    }
}

/// What the model is shown of an event, if anything.
pub fn event_model_item(event: &ContextEvent) -> (r: Option<ModelContextItem>)
    ensures
        r.deep_view() == model_item(event.deep_view()),
{
    let payload = match &event.payload {
        ContextEventPayload::Message(message) => {
            if message.visibility.includes_model() {
                ModelContextPayload::Message(message.duplicate())
            } else {
                return None;
            }
        },
        ContextEventPayload::Tool(tool) => ModelContextPayload::Tool(tool.duplicate()),
        ContextEventPayload::ProviderOpaque(item) => ModelContextPayload::ProviderOpaque(
            item.duplicate(),
        ),
        ContextEventPayload::Compaction(_) => {
            return None;
        },
    };
    Some(
        ModelContextItem { id: event.id.clone(), source_sequence: Some(event.sequence), payload },
    )
}

/// Adds an item to the output, or only its id to the excluded ones.
fn push_compatible_item(
    item: ModelContextItem,
    target: &ProviderLineage,
    output: &mut Vec<ModelContextItem>,
    excluded: &mut Vec<String>,
)
    ensures
        compatible(item.deep_view(), target.deep_view()) ==> final(output).deep_view() == old(
            output,
        ).deep_view().push(item.deep_view()) && final(excluded).deep_view() == old(
            excluded,
        ).deep_view(),
        !compatible(item.deep_view(), target.deep_view()) ==> final(excluded).deep_view() == old(
            excluded,
        ).deep_view().push(item.id@) && final(output).deep_view() == old(output).deep_view(),
{
    let foreign = match &item.payload {
        ModelContextPayload::ProviderOpaque(opaque) => !opaque.lineage.same(target),
        _ => false,
    };
    if foreign {
        excluded.push(item.id);
        assert(excluded.deep_view() =~= old(excluded).deep_view().push(item.id@));
    } else {
        output.push(item);
        assert(output.deep_view() =~= old(output).deep_view().push(item.deep_view()));
    }
}

/// One more candidate is either kept or excluded.
proof fn lemma_candidate_step(
    before: Seq<ModelContextItemModel>,
    item: ModelContextItemModel,
    target: ProviderLineageModel,
)
    ensures
        compatible(item, target) ==> kept_items(before.push(item), target) == kept_items(
            before,
            target,
        ).push(item) && excluded_ids(before.push(item), target) == excluded_ids(before, target),
        !compatible(item, target) ==> excluded_ids(before.push(item), target) == excluded_ids(
            before,
            target,
        ).push(item.id) && kept_items(before.push(item), target) == kept_items(before, target),
{
    let keep = |item: ModelContextItemModel| compatible(item, target);
    let drop = |item: ModelContextItemModel| !compatible(item, target);
    let ids = |item: ModelContextItemModel| item.id;
    let all = before.push(item);
    lemma_filter_step(all, keep, before.len() as int);
    lemma_filter_step(all, drop, before.len() as int);
    assert(all.take(before.len() as int) =~= before);
    assert(all.take(before.len() as int + 1) =~= all);
    if !compatible(item, target) {
        assert(before.filter(drop).push(item).map_values(ids) =~= before.filter(drop).map_values(
            ids,
        ).push(item.id));
    }
}

fn collect_transcript(events: &[ContextEvent]) -> (r: Vec<ContextEvent>)
    ensures
        r.deep_view() == transcript_of(events.deep_view()),
{
    let ghost model = events.deep_view();
    let ghost pred = |e: ContextEventModel| in_transcript(e);
    let mut out: Vec<ContextEvent> = Vec::new();
    let mut i: usize = 0;
    proof {
        lemma_empty_content(out);
        reveal(Seq::filter);
        assert(model.take(0).filter(pred) =~= Seq::empty());
    }
    while i < events.len()
        invariant
            i <= events@.len(),
            model == events.deep_view(),
            model.len() == events@.len(),
            pred == (|e: ContextEventModel| in_transcript(e)),
            out.deep_view() == model.take(i as int).filter(pred),
        decreases events.len() - i,
    {
        let event = &events[i];
        assert(model[i as int] == event.deep_view());
        proof {
            lemma_filter_step(model, pred, i as int);
        }
        if let ContextEventPayload::Message(message) = &event.payload {
            if message.visibility.includes_transcript() {
                let ghost before = out;
                out.push(event.duplicate());
                assert(out.deep_view() =~= before.deep_view().push(event.deep_view()));
            }
        }
        i = i + 1;
    }
    assert(model.take(model.len() as int) =~= model);
    out
}

fn find_checkpoint<'a>(events: &'a [ContextEvent], target: &ProviderLineage) -> (r: Option<
    &'a ContextCheckpoint,
>)
    ensures
        r.deep_view() == latest_checkpoint(events.deep_view(), target.deep_view()),
{
    let ghost model = events.deep_view();
    let mut i: usize = events.len();
    assert(model.take(i as int) =~= model);
    while i > 0
        invariant
            i <= events@.len(),
            model == events.deep_view(),
            model.len() == events@.len(),
            latest_checkpoint(model, target.deep_view()) == latest_checkpoint(
                model.take(i as int),
                target.deep_view(),
            ),
        decreases i,
    {
        i = i - 1;
        let event = &events[i];
        proof {
            assert(model[i as int] == event.deep_view());
            assert(model.take(i + 1).last() == model[i as int]);
            assert(model.take(i + 1).drop_last() =~= model.take(i as int));
        }
        if let ContextEventPayload::Compaction(checkpoint) = &event.payload {
            let usable = match &checkpoint.lineage {
                Some(lineage) => lineage.same(target),
                None => true,
            };
            if usable {
                return Some(checkpoint);
            }
        }
    }
    None
}

/// Projects a journal for a target lineage: the transcript of all visible messages, and the model
/// context that starts at the latest usable checkpoint and leaves out the records of other
/// lineages.
pub fn project_context(events: &[ContextEvent], target: &ProviderLineage) -> (r: Result<
    ContextProjection,
    ContextContractError,
>)
    ensures
        outcome(r) == projected(events.deep_view(), target.deep_view()),
{
    validate_events(events)?;
    let ghost model = events.deep_view();
    let ghost lineage = target.deep_view();
    let transcript = collect_transcript(events);
    let checkpoint = find_checkpoint(events, target);
    let mut excluded_opaque_event_ids: Vec<String> = Vec::new();
    let mut model_context: Vec<ModelContextItem> = Vec::new();
    let mut through_sequence: u64 = 0;
    let ghost mut done: Seq<ModelContextItemModel> = Seq::empty();
    proof {
        lemma_empty_content(excluded_opaque_event_ids);
        lemma_empty_content(model_context);
        reveal(Seq::filter);
        assert(kept_items(done, lineage) =~= Seq::empty());
        assert(excluded_ids(done, lineage) =~= Seq::empty());
    }
    let ghost replacement = match latest_checkpoint(model, lineage) {
        Some(checkpoint) => checkpoint.replacement,
        None => Seq::empty(),
    };
    if let Some(checkpoint) = checkpoint {
        let mut i: usize = 0;
        assert(replacement == checkpoint.replacement.deep_view());
        assert(replacement.take(0) =~= done);
        while i < checkpoint.replacement.len()
            invariant
                i <= checkpoint.replacement@.len(),
                replacement == checkpoint.replacement.deep_view(),
                lineage == target.deep_view(),
                done == replacement.take(i as int),
                model_context.deep_view() == kept_items(done, lineage),
                excluded_opaque_event_ids.deep_view() == excluded_ids(done, lineage),
            decreases checkpoint.replacement.len() - i,
        {
            let item = checkpoint.replacement[i].duplicate();
            proof {
                lemma_candidate_step(done, item.deep_view(), lineage);
                assert(replacement.take(i + 1) =~= done.push(item.deep_view()));
                done = done.push(item.deep_view());
            }
            push_compatible_item(item, target, &mut model_context, &mut excluded_opaque_event_ids);
            i = i + 1;
        }
        through_sequence = checkpoint.through_sequence;
    }
    let ghost select = |e: ContextEventModel| model_item_after(e, through_sequence);
    let mut i: usize = 0;
    proof {
        assert(done =~= replacement);
        reveal(Seq::filter_map);
        assert(done =~= replacement + model.take(0).filter_map(select));
    }
    while i < events.len()
        invariant
            i <= events@.len(),
            model == events.deep_view(),
            model.len() == events@.len(),
            lineage == target.deep_view(),
            select == (|e: ContextEventModel| model_item_after(e, through_sequence)),
            done == replacement + model.take(i as int).filter_map(select),
            model_context.deep_view() == kept_items(done, lineage),
            excluded_opaque_event_ids.deep_view() == excluded_ids(done, lineage),
        decreases events.len() - i,
    {
        let event = &events[i];
        proof {
            assert(model[i as int] == event.deep_view());
            model.lemma_filter_map_take_succ(select, i as int);
        }
        let ghost rest = model.take(i as int).filter_map(select);
        if event.sequence > through_sequence {
            if let Some(item) = event_model_item(event) {
                proof {
                    lemma_candidate_step(done, item.deep_view(), lineage);
                    assert(model.take(i + 1).filter_map(select) == rest + seq![item.deep_view()]);
                    assert(replacement + model.take(i + 1).filter_map(select) =~= done.push(
                        item.deep_view(),
                    ));
                    done = done.push(item.deep_view());
                }
                push_compatible_item(
                    item,
                    target,
                    &mut model_context,
                    &mut excluded_opaque_event_ids,
                );
            }
        }
        proof {
            assert(model_item_after(model[i as int], through_sequence) is None ==> model.take(
                i + 1,
            ).filter_map(select) =~= rest);
        }
        i = i + 1;
    }
    proof {
        assert(model.take(model.len() as int) =~= model);
    }
    Ok(
        ContextProjection {
            transcript,
            model_context,
            excluded_opaque_event_ids,
            checkpoint_id: match checkpoint {
                Some(checkpoint) => Some(checkpoint.id.clone()),
                None => None,
            },
        },
    )
}

// ---------------------------------------------------------------------------------------------
// Forks

/// The sequence number of the last event.
pub open spec fn last_sequence(events: Seq<ContextEventModel>) -> u64 {
    if events.len() == 0 {
        0
    } else {
        events.last().sequence
    }
}

/// The events up to and with a sequence number.
pub open spec fn events_through(events: Seq<ContextEventModel>, through: u64) -> Seq<
    ContextEventModel,
> {
    events.filter(|e: ContextEventModel| e.sequence <= through)
}

/// What a fork of a journal starts from, or why it is refused.
pub open spec fn fork_of(
    events: Seq<ContextEventModel>,
    request: ForkRequestModel,
    target: ProviderLineageModel,
) -> Result<ForkSeedModel, ContextContractErrorModel> {
    let source = events_through(events, request.through_sequence);
    if journal_problem(events) is Some {
        Err(journal_problem(events)->0)
    } else if request.through_sequence > last_sequence(events) {
        Err(
            ContextContractErrorModel::ForkOutOfRange {
                through_sequence: request.through_sequence,
                last_sequence: last_sequence(events),
            },
        )
    } else if source.len() > 0 && source[0].conversation_id != request.source_conversation_id {
        Err(
            ContextContractErrorModel::ConversationMismatch {
                event_id: source[0].id,
                expected: request.source_conversation_id,
                actual: source[0].conversation_id,
            },
        )
    } else {
        Ok(
            ForkSeedModel {
                source_conversation_id: request.source_conversation_id,
                target_conversation_id: request.target_conversation_id,
                forked_at_sequence: request.through_sequence,
                transcript: transcript_of(source),
                model_context: projection_of(source, target).model_context,
            },
        )
    }
}

/// Sequence numbers of a journal without problems increase from event to event.
pub(crate) proof fn lemma_sequences_increase(events: Seq<ContextEventModel>, i: int, j: int)
    requires
        journal_problem(events) is None,
        0 <= i < j < events.len(),
    ensures
        0 < events[i].sequence < events[j].sequence,
    decreases j - i,
{
    lemma_no_event_problem(events, i);
    lemma_no_event_problem(events, j);
    if i + 1 < j {
        lemma_sequences_increase(events, i, j - 1);
    }
}

/// In a journal without problems no event has one.
pub(crate) proof fn lemma_no_event_problem(events: Seq<ContextEventModel>, i: int)
    requires
        journal_problem(events) is None,
        0 <= i < events.len(),
    ensures
        event_problem(events, i) is None,
        problem_from(events, i) is None,
    decreases i,
{
    if i > 0 {
        lemma_no_event_problem(events, i - 1);
    }
}

/// Where no event from `i` on has a problem, the rest of the journal has none.
pub proof fn lemma_no_problem_from(events: Seq<ContextEventModel>, i: int)
    requires
        0 <= i <= events.len(),
        forall|k: int| i <= k < events.len() ==> event_problem(events, k) is None,
    ensures
        problem_from(events, i) is None,
    decreases events.len() - i,
{
    if i < events.len() {
        lemma_no_problem_from(events, i + 1);
    }
}

/// Every prefix of a journal in order is in order.
pub proof fn law_prefixes_stay_valid(events: Seq<ContextEventModel>, n: int)
    requires
        journal_problem(events) is None,
        0 <= n <= events.len(),
    ensures
        journal_problem(events.take(n)) is None,
{
    let prefix = events.take(n);
    if n > 0 {
        assert forall|k: int| 0 <= k < n implies event_problem(prefix, k) is None by {
            lemma_no_event_problem(events, k);
            assert forall|j: int| 0 <= j < k implies (#[trigger] prefix[j]).id != prefix[k].id by {
                assert(prefix[j] == events[j]);
            }
        }
        lemma_no_problem_from(prefix, 0);
    }
}

/// The events through a sequence number are a prefix of the journal.
pub(crate) proof fn lemma_through_is_prefix(events: Seq<ContextEventModel>, through: u64) -> (n: int)
    requires
        journal_problem(events) is None,
    ensures
        0 <= n <= events.len(),
        events_through(events, through) == events.take(n),
        forall|k: int| 0 <= k < n ==> (#[trigger] events[k]).sequence <= through,
        forall|k: int| n <= k < events.len() ==> (#[trigger] events[k]).sequence > through,
    decreases events.len(),
{
    let pred = |e: ContextEventModel| e.sequence <= through;
    reveal(Seq::filter);
    if events.len() == 0 {
        assert(events.take(0) =~= events);
        0
    } else {
        let last = events.len() - 1;
        let front = events.take(last);
        law_prefixes_stay_valid(events, last);
        let n = lemma_through_is_prefix(front, through);
        assert(events.drop_last() =~= front);
        assert forall|k: int| 0 <= k < n implies (#[trigger] events[k]).sequence <= through by {
            assert(front[k] == events[k]);
        }
        assert forall|k: int| n <= k < last implies (#[trigger] events[k]).sequence > through by {
            assert(front[k] == events[k]);
        }
        if events[last].sequence <= through {
            if n < last {
                lemma_sequences_increase(events, n, last);
            }
            assert(front.take(n).push(events[last]) =~= events.take(n + 1));
            n + 1
        } else {
            assert(front.take(n) =~= events.take(n));
            n
        }
    }
}

/// Prepares a fork: the projection of the events through the requested sequence number.
pub fn prepare_fork(
    events: &[ContextEvent],
    request: &ForkRequest,
    target: &ProviderLineage,
) -> (r: Result<ForkSeed, ContextContractError>)
    ensures
        outcome(r) == fork_of(events.deep_view(), request.deep_view(), target.deep_view()),
{
    validate_events(events)?;
    let ghost model = events.deep_view();
    let last_sequence: u64 = if events.len() == 0 {
        0
    } else {
        assert(model.last() == events@[events@.len() - 1].deep_view());
        events[events.len() - 1].sequence
    };
    if request.through_sequence > last_sequence {
        return Err(
            ContextContractError::ForkOutOfRange {
                through_sequence: request.through_sequence,
                last_sequence,
            },
        );
    }
    let ghost pred = |e: ContextEventModel| e.sequence <= request.through_sequence;
    let mut source: Vec<ContextEvent> = Vec::new();
    let mut i: usize = 0;
    proof {
        lemma_empty_content(source);
        reveal(Seq::filter);
        assert(model.take(0).filter(pred) =~= Seq::empty());
    }
    while i < events.len()
        invariant
            i <= events@.len(),
            model == events.deep_view(),
            model.len() == events@.len(),
            pred == (|e: ContextEventModel| e.sequence <= request.through_sequence),
            source.deep_view() == model.take(i as int).filter(pred),
        decreases events.len() - i,
    {
        let event = &events[i];
        assert(model[i as int] == event.deep_view());
        proof {
            lemma_filter_step(model, pred, i as int);
        }
        if event.sequence <= request.through_sequence {
            let ghost before = source;
            source.push(event.duplicate());
            assert(source.deep_view() =~= before.deep_view().push(event.deep_view()));
        }
        i = i + 1;
    }
    proof {
        assert(model.take(model.len() as int) =~= model);
        let n = lemma_through_is_prefix(model, request.through_sequence);
        law_prefixes_stay_valid(model, n);
    }
    if source.len() > 0 {
        let event = &source[0];
        assert(source.deep_view()[0] == event.deep_view());
        if event.conversation_id != request.source_conversation_id {
            return Err(
                ContextContractError::ConversationMismatch {
                    event_id: event.id.clone(),
                    expected: request.source_conversation_id.clone(),
                    actual: event.conversation_id.clone(),
                },
            );
        }
    }
    let source_events = source.as_slice();
    assert(source_events.deep_view() =~= source.deep_view());
    let projection = project_context(source_events, target)?;
    Ok(
        ForkSeed {
            source_conversation_id: request.source_conversation_id.clone(),
            target_conversation_id: request.target_conversation_id.clone(),
            forked_at_sequence: request.through_sequence,
            transcript: projection.transcript,
            model_context: projection.model_context,
        },
    )
}

// ---------------------------------------------------------------------------------------------
// Laws

/// The journals that validation accepts: one named conversation, named events that occur once,
/// positive sequence numbers that increase, and no record with a problem.
pub open spec fn well_ordered(events: Seq<ContextEventModel>) -> bool {
    &&& forall|i: int|
        0 <= i < events.len() ==> {
            &&& (#[trigger] events[i]).id.len() > 0
            &&& events[i].conversation_id.len() > 0
            &&& events[i].conversation_id == events[0].conversation_id
            &&& events[i].sequence > 0
            &&& payload_problem(events[i]) is None
        }
    &&& forall|i: int, j: int|
        0 <= i < j < events.len() ==> (#[trigger] events[i]).id != (#[trigger] events[j]).id
            && events[i].sequence < events[j].sequence
}

/// Validation accepts exactly the well-ordered journals.
pub proof fn law_validation_accepts_well_ordered(events: Seq<ContextEventModel>)
    ensures
        journal_problem(events) is None <==> well_ordered(events),
{
    if journal_problem(events) is None {
        assert forall|i: int| 0 <= i < events.len() implies {
            &&& (#[trigger] events[i]).id.len() > 0
            &&& events[i].conversation_id.len() > 0
            &&& events[i].conversation_id == events[0].conversation_id
            &&& events[i].sequence > 0
            &&& payload_problem(events[i]) is None
        } by {
            lemma_no_event_problem(events, i);
        }
        assert forall|i: int, j: int| 0 <= i < j < events.len() implies (#[trigger] events[i]).id
            != (#[trigger] events[j]).id && events[i].sequence < events[j].sequence by {
            lemma_no_event_problem(events, j);
            lemma_sequences_increase(events, i, j);
        }
    }
    if well_ordered(events) && events.len() > 0 {
        assert forall|k: int| 0 <= k < events.len() implies event_problem(events, k) is None by {
            assert(events[k].id.len() > 0);
        }
        lemma_no_problem_from(events, 0);
        assert(events[0].conversation_id.len() > 0);
    }
}

/// Whether an event records a checkpoint.
pub open spec fn is_compaction(event: ContextEventModel) -> bool {
    event.payload is Compaction
}

/// Compaction never changes the transcript: leaving all checkpoints out of a journal leaves the
/// transcript as it is.
pub proof fn law_transcript_ignores_compaction(events: Seq<ContextEventModel>)
    ensures
        transcript_of(events.filter(|e: ContextEventModel| !is_compaction(e))) == transcript_of(
            events,
        ),
    decreases events.len(),
{
    reveal(Seq::filter);
    let other = |e: ContextEventModel| !is_compaction(e);
    let shown = |e: ContextEventModel| in_transcript(e);
    if events.len() > 0 {
        law_transcript_ignores_compaction(events.drop_last());
        let rest = events.drop_last().filter(other);
        if other(events.last()) {
            assert(rest.push(events.last()).drop_last() =~= rest);
        }
    }
}

/// Appending an event that the transcript does not show, such as a checkpoint, changes only the
/// model's reading of the journal.
pub proof fn law_hidden_event_keeps_transcript(
    events: Seq<ContextEventModel>,
    event: ContextEventModel,
    target: ProviderLineageModel,
)
    requires
        !in_transcript(event),
    ensures
        projection_of(events.push(event), target).transcript == projection_of(
            events,
            target,
        ).transcript,
{
    reveal(Seq::filter);
    assert(events.push(event).drop_last() =~= events);
}

/// A usable checkpoint at the end of a journal in order stands for everything before it except
/// the events after the sequence number through which it replaces.
pub proof fn law_checkpoint_takes_over(
    events: Seq<ContextEventModel>,
    event: ContextEventModel,
    target: ProviderLineageModel,
)
    requires
        usable_checkpoint(event, target) is Some,
    ensures
        projection_of(events.push(event), target).checkpoint_id == Some(
            usable_checkpoint(event, target)->0.id,
        ),
        candidate_items(events.push(event), target) == usable_checkpoint(
            event,
            target,
        )->0.replacement
            + events.filter_map(
            |e: ContextEventModel|
                model_item_after(e, usable_checkpoint(event, target)->0.through_sequence),
        ),
{
    let all = events.push(event);
    let checkpoint = usable_checkpoint(event, target)->0;
    let select = |e: ContextEventModel| model_item_after(e, checkpoint.through_sequence);
    assert(all.last() == event);
    assert(latest_checkpoint(all, target) == Some(checkpoint));
    all.lemma_filter_map_take_succ(select, events.len() as int);
    assert(all.take(events.len() as int) =~= events);
    assert(all.take(events.len() as int + 1) =~= all);
    assert(all.filter_map(select) =~= events.filter_map(select));
}

/// The model context holds no provider record of another lineage.
pub proof fn law_model_context_fits_lineage(
    events: Seq<ContextEventModel>,
    target: ProviderLineageModel,
)
    ensures
        forall|i: int|
            0 <= i < projection_of(events, target).model_context.len() ==> compatible(
                #[trigger] projection_of(events, target).model_context[i],
                target,
            ),
{
    broadcast use Seq::lemma_filter_pred;

}

/// Every candidate is either shown to the model or named as excluded.
pub proof fn law_candidates_are_kept_or_excluded(
    items: Seq<ModelContextItemModel>,
    target: ProviderLineageModel,
)
    ensures
        kept_items(items, target).len() + excluded_ids(items, target).len() == items.len(),
        forall|i: int|
            0 <= i < items.len() && compatible(#[trigger] items[i], target) ==> kept_items(
                items,
                target,
            ).contains(items[i]),
        forall|i: int|
            0 <= i < items.len() && !compatible(#[trigger] items[i], target) ==> excluded_ids(
                items,
                target,
            ).contains(items[i].id),
    decreases items.len(),
{
    if items.len() == 0 {
        reveal(Seq::filter);
    } else {
        let front = items.drop_last();
        let item = items.last();
        law_candidates_are_kept_or_excluded(front, target);
        lemma_candidate_step(front, item, target);
        assert(front.push(item) =~= items);
        let kept = kept_items(front, target);
        let excluded = excluded_ids(front, target);
        assert forall|i: int|
            0 <= i < items.len() && compatible(#[trigger] items[i], target) implies kept_items(
            items,
            target,
        ).contains(items[i]) by {
            if i < front.len() {
                assert(front[i] == items[i]);
                let k = choose|k: int| 0 <= k < kept.len() && kept[k] == items[i];
                assert(kept_items(items, target)[k] == items[i]);
            } else {
                assert(kept_items(items, target)[kept.len() as int] == items[i]);
            }
        }
        assert forall|i: int|
            0 <= i < items.len() && !compatible(#[trigger] items[i], target) implies excluded_ids(
            items,
            target,
        ).contains(items[i].id) by {
            if i < front.len() {
                assert(front[i] == items[i]);
                let k = choose|k: int| 0 <= k < excluded.len() && excluded[k] == items[i].id;
                assert(excluded_ids(items, target)[k] == items[i].id);
            } else {
                assert(excluded_ids(items, target)[excluded.len() as int] == items[i].id);
            }
        }
    }
}

/// Switching to another lineage excludes provider records but does not delete them: projecting
/// for the record's own lineage shows it again, unless a checkpoint of that lineage replaced it.
pub proof fn law_own_lineage_sees_opaque_record(events: Seq<ContextEventModel>, i: int)
    requires
        0 <= i < events.len(),
        events[i].payload is ProviderOpaque,
        events[i].sequence > replaced_through(
            events,
            events[i].payload->ProviderOpaque_0.lineage,
        ),
    ensures
        projection_of(
            events,
            events[i].payload->ProviderOpaque_0.lineage,
        ).model_context.contains(model_item(events[i])->0),
{
    let target = events[i].payload->ProviderOpaque_0.lineage;
    let through = replaced_through(events, target);
    let select = |e: ContextEventModel| model_item_after(e, through);
    let item = model_item(events[i])->0;
    let items = candidate_items(events, target);
    let tail = events.filter_map(select);
    lemma_filter_map_keeps(events, select, i);
    let k = choose|k: int| 0 <= k < tail.len() && tail[k] == item;
    assert(items[items.len() - tail.len() + k] == item);
    law_candidates_are_kept_or_excluded(items, target);
}

/// A selected element is among the results.
proof fn lemma_filter_map_keeps<A, B>(s: Seq<A>, f: spec_fn(A) -> Option<B>, i: int)
    requires
        0 <= i < s.len(),
        f(s[i]) is Some,
    ensures
        s.filter_map(f).contains(f(s[i])->0),
    decreases s.len(),
{
    let last = s.len() - 1;
    s.lemma_filter_map_take_succ(f, last);
    assert(s.take(s.len() as int) =~= s);
    let front = s.take(last);
    let out = s.filter_map(f);
    if i == last {
        assert(out[out.len() - 1] == f(s[i])->0);
    } else {
        lemma_filter_map_keeps(front, f, i);
        let part = front.filter_map(f);
        let k = choose|k: int| 0 <= k < part.len() && part[k] == f(s[i])->0;
        assert(out[k] == f(s[i])->0);
    }
}

/// Forking at the last event of a journal in order continues exactly its projection.
pub proof fn law_fork_at_end_is_projection(
    events: Seq<ContextEventModel>,
    request: ForkRequestModel,
    target: ProviderLineageModel,
)
    requires
        journal_problem(events) is None,
        request.through_sequence == last_sequence(events),
        events.len() > 0 ==> events[0].conversation_id == request.source_conversation_id,
    ensures
        fork_of(events, request, target) matches Ok(seed) && {
            &&& seed.transcript == projection_of(events, target).transcript
            &&& seed.model_context == projection_of(events, target).model_context
            &&& seed.forked_at_sequence == request.through_sequence
            &&& seed.source_conversation_id == request.source_conversation_id
            &&& seed.target_conversation_id == request.target_conversation_id
        },
{
    let n = lemma_through_is_prefix(events, request.through_sequence);
    if n < events.len() {
        assert(events[n].sequence > request.through_sequence);
        if n < events.len() - 1 {
            lemma_sequences_increase(events, n, events.len() - 1);
        }
    }
    assert(events.take(n) =~= events);
}

/// A fork sees nothing of what its source records later.
pub proof fn law_fork_ignores_later_events(
    events: Seq<ContextEventModel>,
    n: int,
    request: ForkRequestModel,
    target: ProviderLineageModel,
)
    requires
        journal_problem(events) is None,
        0 <= n <= events.len(),
        request.through_sequence <= last_sequence(events.take(n)),
    ensures
        fork_of(events, request, target) == fork_of(events.take(n), request, target),
{
    let early = events.take(n);
    law_prefixes_stay_valid(events, n);
    if n > 0 && n < events.len() {
        lemma_sequences_increase(events, n - 1, events.len() - 1);
    }
    assert(request.through_sequence <= last_sequence(events));
    let a = lemma_through_is_prefix(events, request.through_sequence);
    let b = lemma_through_is_prefix(early, request.through_sequence);
    if n == 0 {
        assert(early.len() == 0);
        assert(a == 0) by {
            if a > 0 {
                lemma_no_event_problem(events, 0);
                assert(events[0].sequence <= request.through_sequence);
            }
        }
    } else {
        if a > n {
            assert(events[n].sequence <= request.through_sequence);
            lemma_sequences_increase(events, n - 1, n);
        }
        assert(a <= n);
        if a < b {
            assert(early[a] == events[a]);
        }
        if b < a {
            assert(early[b] == events[b]);
        }
    }
    assert(a == b);
    assert(events.take(a) =~= early.take(b));
}

// ---------------------------------------------------------------------------------------------
// Messages

/// The text of a contract error.
pub open spec fn contract_error_text(error: ContextContractErrorModel) -> Seq<char> {
    match error {
        ContextContractErrorModel::EmptyField { field } => field + " must not be empty"@,
        ContextContractErrorModel::ConversationMismatch { event_id, expected, actual } => "event "@
            + event_id + (" belongs to "@ + actual + (", expected "@ + expected)),
        ContextContractErrorModel::NonIncreasingSequence { previous, current } =>
            "event sequence "@ + decimal_text(current as nat) + (" must be greater than "@
                + decimal_text(previous as nat)),
        ContextContractErrorModel::DuplicateEventId { event_id } => "duplicate event id "@
            + event_id,
        ContextContractErrorModel::InvalidCheckpoint { checkpoint_id, reason } => "checkpoint "@
            + checkpoint_id + (" is invalid: "@ + reason),
        ContextContractErrorModel::ForkOutOfRange { through_sequence, last_sequence } =>
            "fork sequence "@ + decimal_text(through_sequence as nat)
                + (" exceeds available sequence "@ + decimal_text(last_sequence as nat)),
    }
}

impl ContextContractError {
    /// The text of the error.
    pub fn message(&self) -> (r: String)
        ensures
            r@ == contract_error_text(self.deep_view()),
    {
        match self {
            ContextContractError::EmptyField { field } => glue(field, " must not be empty"),
            ContextContractError::ConversationMismatch { event_id, expected, actual } => glue3(
                "event ",
                event_id,
                glue3(" belongs to ", actual, glue(", expected ", expected).as_str()).as_str(),
            ),
            ContextContractError::NonIncreasingSequence { previous, current } => glue3(
                "event sequence ",
                decimal(*current).as_str(),
                glue(" must be greater than ", decimal(*previous).as_str()).as_str(),
            ),
            ContextContractError::DuplicateEventId { event_id } => glue(
                "duplicate event id ",
                event_id,
            ),
            ContextContractError::InvalidCheckpoint { checkpoint_id, reason } => glue3(
                "checkpoint ",
                checkpoint_id,
                glue(" is invalid: ", reason).as_str(),
            ),
            ContextContractError::ForkOutOfRange { through_sequence, last_sequence } => glue3(
                "fork sequence ",
                decimal(*through_sequence).as_str(),
                glue(" exceeds available sequence ", decimal(*last_sequence).as_str()).as_str(),
            ),
        }
    }
}

} // verus!
