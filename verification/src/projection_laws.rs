//! Laws of projections and forks, on the events themselves.
use vstd::prelude::*;

use crate::context::{
    CompactionMode, ContextCheckpointModel, ContextContractErrorModel, ContextEventModel,
    ContextEventPayloadModel, ContextProjectionModel, ForkRequestModel, ForkSeedModel,
    MessageVisibility, ModelContextItemModel, ModelContextPayloadModel, ProviderLineageModel,
    ProviderOpaqueItemModel,
};
use crate::projection::{
    event_problem, fork_of, journal_problem, latest_checkpoint, lemma_no_problem_from, model_item,
    payload_problem, problem_from, projected, projection_of,
};

verus! {

// ---------------------------------------------------------------------------------------------
// Checkpoints

/// Whether a checkpoint may stand for the history of a target: it is neutral or of its lineage.
pub open spec fn serves(checkpoint: ContextCheckpointModel, target: ProviderLineageModel) -> bool {
    checkpoint.lineage is None || checkpoint.lineage == Some(target)
}

/// Whether an event records a checkpoint that may stand for the history of a target.
pub open spec fn serving(event: ContextEventModel, target: ProviderLineageModel) -> bool {
    event.payload is Compaction && serves(event.payload->Compaction_0, target)
}

/// Whether no event from `i` on records a checkpoint that may stand for the history of a target.
pub open spec fn none_serves_from(
    events: Seq<ContextEventModel>,
    target: ProviderLineageModel,
    i: int,
) -> bool {
    forall|j: int|
        i <= j < events.len() ==> ((
        #[trigger] events[j]).payload matches ContextEventPayloadModel::Compaction(later)
            ==> !serves(later, target))
}

/// Whether an item may be sent to a target: only the provider records of other lineages may not.
pub open spec fn sendable(item: ModelContextItemModel, target: ProviderLineageModel) -> bool {
    !(item.payload is ProviderOpaque) || item.payload->ProviderOpaque_0.lineage == target
}

/// The items of the events that follow a sequence number.
pub open spec fn items_after(events: Seq<ContextEventModel>, through: u64) -> Seq<
    ModelContextItemModel,
>
    decreases events.len(),
{
    if events.len() == 0 {
        Seq::empty()
    } else {
        let before = items_after(events.drop_last(), through);
        match model_item(events.last()) {
            Some(item) => if events.last().sequence > through {
                before.push(item)
            } else {
                before
            },
            None => before,
        }
    }
}

proof fn lemma_items_after(events: Seq<ContextEventModel>, through: u64)
    ensures
        events.filter_map(
            |e: ContextEventModel| crate::projection::model_item_after(e, through),
        ) == items_after(events, through),
    decreases events.len(),
{
    let select = |e: ContextEventModel| crate::projection::model_item_after(e, through);
    if events.len() == 0 {
        reveal(Seq::filter_map);
        assert(events.filter_map(select) =~= Seq::empty());
    } else {
        let n = events.len() - 1;
        lemma_items_after(events.drop_last(), through);
        events.lemma_filter_map_take_succ(select, n);
        assert(events.take(n) =~= events.drop_last());
        assert(events.take(n + 1) =~= events);
        assert(events.filter_map(select) =~= items_after(events, through));
    }
}

proof fn lemma_checkpoint_at(
    events: Seq<ContextEventModel>,
    target: ProviderLineageModel,
    i: int,
    checkpoint: ContextCheckpointModel,
)
    requires
        0 <= i < events.len(),
        events[i].payload == ContextEventPayloadModel::Compaction(checkpoint),
        serves(checkpoint, target),
        none_serves_from(events, target, i + 1),
    ensures
        latest_checkpoint(events, target) == Some(checkpoint),
    decreases events.len(),
{
    let front = events.drop_last();
    if i == events.len() - 1 {
        assert(events.last() == events[i]);
    } else {
        assert(front[i] == events[i]);
        assert forall|j: int| i + 1 <= j < front.len() implies ((
        #[trigger] front[j]).payload matches ContextEventPayloadModel::Compaction(later)
            ==> !serves(later, target)) by {
            assert(front[j] == events[j]);
        }
        assert(events[events.len() - 1] == events.last());
        lemma_checkpoint_at(front, target, i, checkpoint);
    }
}

proof fn lemma_no_checkpoint(events: Seq<ContextEventModel>, target: ProviderLineageModel)
    requires
        none_serves_from(events, target, 0),
    ensures
        latest_checkpoint(events, target) is None,
    decreases events.len(),
{
    if events.len() > 0 {
        let front = events.drop_last();
        assert(events[events.len() - 1] == events.last());
        assert forall|j: int| 0 <= j < front.len() implies ((
        #[trigger] front[j]).payload matches ContextEventPayloadModel::Compaction(later)
            ==> !serves(later, target)) by {
            assert(front[j] == events[j]);
        }
        lemma_no_checkpoint(front, target);
    }
}

/// The latest checkpoint that may stand for the history does, whatever else follows it and
/// whatever checkpoints precede it: the model is shown its replacement and then the events after
/// the sequence number through which it replaces, without the provider records of other lineages.
pub proof fn law_latest_checkpoint_is_used(
    events: Seq<ContextEventModel>,
    target: ProviderLineageModel,
    i: int,
    checkpoint: ContextCheckpointModel,
)
    requires
        0 <= i < events.len(),
        events[i].payload == ContextEventPayloadModel::Compaction(checkpoint),
        checkpoint.lineage is None || checkpoint.lineage == Some(target),
        none_serves_from(events, target, i + 1),
    ensures
        projection_of(events, target).checkpoint_id == Some(checkpoint.id),
        projection_of(events, target).model_context == (checkpoint.replacement + items_after(
            events,
            checkpoint.through_sequence,
        )).filter(|item: ModelContextItemModel| sendable(item, target)),
        projection_of(events, target).excluded_opaque_event_ids == (checkpoint.replacement
            + items_after(events, checkpoint.through_sequence)).filter(
            |item: ModelContextItemModel| !sendable(item, target),
        ).map_values(|item: ModelContextItemModel| item.id),
{
    lemma_checkpoint_at(events, target, i, checkpoint);
    lemma_items_after(events, checkpoint.through_sequence);
    lemma_same_filter(
        checkpoint.replacement + items_after(events, checkpoint.through_sequence),
        target,
    );
}

proof fn lemma_same_filter(items: Seq<ModelContextItemModel>, target: ProviderLineageModel)
    ensures
        crate::projection::kept_items(items, target) == items.filter(
            |item: ModelContextItemModel| sendable(item, target),
        ),
        crate::projection::excluded_ids(items, target) == items.filter(
            |item: ModelContextItemModel| !sendable(item, target),
        ).map_values(|item: ModelContextItemModel| item.id),
{
    let kept = |item: ModelContextItemModel| crate::projection::compatible(item, target);
    let left = |item: ModelContextItemModel| !crate::projection::compatible(item, target);
    let may = |item: ModelContextItemModel| sendable(item, target);
    let may_not = |item: ModelContextItemModel| !sendable(item, target);
    assert(kept =~= may);
    assert(left =~= may_not);
}

/// Where no checkpoint may stand for the history, every event counts.
pub proof fn law_without_checkpoint_everything_counts(
    events: Seq<ContextEventModel>,
    target: ProviderLineageModel,
)
    requires
        none_serves_from(events, target, 0),
    ensures
        projection_of(events, target).checkpoint_id is None,
        projection_of(events, target).model_context == items_after(events, 0).filter(
            |item: ModelContextItemModel| sendable(item, target),
        ),
        projection_of(events, target).excluded_opaque_event_ids == items_after(events, 0).filter(
            |item: ModelContextItemModel| !sendable(item, target),
        ).map_values(|item: ModelContextItemModel| item.id),
{
    lemma_no_checkpoint(events, target);
    lemma_items_after(events, 0);
    assert(Seq::<ModelContextItemModel>::empty() + items_after(events, 0) =~= items_after(
        events,
        0,
    ));
    lemma_same_filter(items_after(events, 0), target);
}

/// Appending an event that is no checkpoint for the target leaves the chosen checkpoint as it is.
pub proof fn law_other_events_keep_the_checkpoint(
    events: Seq<ContextEventModel>,
    event: ContextEventModel,
    target: ProviderLineageModel,
)
    requires
        event.payload matches ContextEventPayloadModel::Compaction(checkpoint) ==> !serves(
            checkpoint,
            target,
        ),
    ensures
        projection_of(events.push(event), target).checkpoint_id == projection_of(
            events,
            target,
        ).checkpoint_id,
        latest_checkpoint(events.push(event), target) == latest_checkpoint(events, target),
{
    if exists|i: int|
        0 <= i < events.len() && serving(#[trigger] events[i], target) {
        let i = lemma_last_serving(events, target);
        let checkpoint = events[i].payload->Compaction_0;
        let all = events.push(event);
        lemma_checkpoint_at(events, target, i, checkpoint);
        assert(all[i] == events[i]);
        assert forall|j: int| i + 1 <= j < all.len() implies ((
        #[trigger] all[j]).payload matches ContextEventPayloadModel::Compaction(later) ==> !serves(
            later,
            target,
        )) by {
            if j < events.len() {
                assert(all[j] == events[j]);
            }
        }
        lemma_checkpoint_at(all, target, i, checkpoint);
    } else {
        let all = events.push(event);
        assert forall|j: int| 0 <= j < all.len() implies ((
        #[trigger] all[j]).payload matches ContextEventPayloadModel::Compaction(later) ==> !serves(
            later,
            target,
        )) by {
            if j < events.len() {
                assert(all[j] == events[j]);
            }
        }
        lemma_no_checkpoint(events, target);
        lemma_no_checkpoint(all, target);
    }
}

proof fn lemma_last_serving(events: Seq<ContextEventModel>, target: ProviderLineageModel) -> (i:
    int)
    requires
        exists|i: int|
            0 <= i < events.len() && serving(#[trigger] events[i], target),
    ensures
        0 <= i < events.len(),
        events[i].payload is Compaction,
        serves(events[i].payload->Compaction_0, target),
        none_serves_from(events, target, i + 1),
    decreases events.len(),
{
    let last = events.len() - 1;
    if events[last].payload is Compaction && serves(events[last].payload->Compaction_0, target) {
        last
    } else {
        let front = events.drop_last();
        let k = choose|k: int|
            0 <= k < events.len() && serving(#[trigger] events[k], target);
        assert(front[k] == events[k]);
        let i = lemma_last_serving(front, target);
        assert forall|j: int| i + 1 <= j < events.len() implies ((
        #[trigger] events[j]).payload matches ContextEventPayloadModel::Compaction(later)
            ==> !serves(later, target)) by {
            if j < front.len() {
                assert(front[j] == events[j]);
            }
        }
        i
    }
}

// ---------------------------------------------------------------------------------------------
// Events

/// What the model is shown of an event: its record under the event's id and sequence number. It
/// is shown no checkpoint, and no message that is meant for the transcript alone.
pub proof fn law_model_sees_records(event: ContextEventModel)
    ensures
        event.payload matches ContextEventPayloadModel::Message(message) ==> model_item(event)
            == if message.visibility == MessageVisibility::TranscriptOnly {
            None
        } else {
            Some(
                ModelContextItemModel {
                    id: event.id,
                    source_sequence: Some(event.sequence),
                    payload: ModelContextPayloadModel::Message(message),
                },
            )
        },
        event.payload matches ContextEventPayloadModel::Tool(tool) ==> model_item(event) == Some(
            ModelContextItemModel {
                id: event.id,
                source_sequence: Some(event.sequence),
                payload: ModelContextPayloadModel::Tool(tool),
            },
        ),
        event.payload matches ContextEventPayloadModel::ProviderOpaque(opaque) ==> model_item(event)
            == Some(
            ModelContextItemModel {
                id: event.id,
                source_sequence: Some(event.sequence),
                payload: ModelContextPayloadModel::ProviderOpaque(opaque),
            },
        ),
        event.payload is Compaction ==> model_item(event) is None,
{
}

/// The transcript is made event by event, and shows exactly the messages that are not meant for
/// the model alone, as they are and in order.
pub proof fn law_transcript_shows_messages(
    events: Seq<ContextEventModel>,
    event: ContextEventModel,
    target: ProviderLineageModel,
)
    ensures
        projection_of(Seq::empty(), target).transcript.len() == 0,
        projection_of(events.push(event), target).transcript == if event.payload is Message
            && event.payload->Message_0.visibility != MessageVisibility::ModelOnly {
            projection_of(events, target).transcript.push(event)
        } else {
            projection_of(events, target).transcript
        },
{
    reveal(Seq::filter);
    assert(events.push(event).drop_last() =~= events);
    assert(Seq::<ContextEventModel>::empty().filter(
        |e: ContextEventModel| crate::projection::in_transcript(e),
    ) =~= Seq::empty());
}

/// A journal is projected exactly if it is in order; otherwise its problem is given.
pub proof fn law_only_ordered_journals_are_projected(
    events: Seq<ContextEventModel>,
    target: ProviderLineageModel,
)
    ensures
        journal_problem(events) is None ==> projected(events, target) == Ok::<
            ContextProjectionModel,
            ContextContractErrorModel,
        >(projection_of(events, target)),
        journal_problem(events) is Some ==> projected(events, target) == Err::<
            ContextProjectionModel,
            ContextContractErrorModel,
        >(journal_problem(events)->0),
{
}

// ---------------------------------------------------------------------------------------------
// Problems

/// Whether all names and the payload of a provider record are there.
pub open spec fn is_complete(item: ProviderOpaqueItemModel) -> bool {
    &&& item.provider_item_id.len() > 0
    &&& item.kind.len() > 0
    &&& item.lineage.provider.len() > 0
    &&& item.lineage.protocol.len() > 0
    &&& item.lineage.lineage_id.len() > 0
    &&& item.payload.len() > 0
}

proof fn lemma_replacement_is_sound(checkpoint: ContextCheckpointModel, i: int)
    requires
        0 <= i <= checkpoint.replacement.len(),
    ensures
        crate::projection::replacement_problem(checkpoint, i) is None <==> forall|k: int|
            i <= k < checkpoint.replacement.len() ==> ((
            #[trigger] checkpoint.replacement[k]).payload is ProviderOpaque ==> is_complete(
                checkpoint.replacement[k].payload->ProviderOpaque_0,
            ) && checkpoint.lineage == Some(
                checkpoint.replacement[k].payload->ProviderOpaque_0.lineage,
            )),
    decreases checkpoint.replacement.len() - i,
{
    if i < checkpoint.replacement.len() {
        lemma_replacement_is_sound(checkpoint, i + 1);
        let item = checkpoint.replacement[i];
        let sound = item.payload is ProviderOpaque ==> is_complete(item.payload->ProviderOpaque_0)
            && checkpoint.lineage == Some(item.payload->ProviderOpaque_0.lineage);
        assert(crate::projection::replacement_item_problem(checkpoint, item) is None <==> sound);
    }
}

/// The records that are in order: messages with content, named tool calls, complete provider
/// records, and checkpoints of the same conversation that replace only what came before them, are
/// bound to a lineage exactly if they are native, and hold only complete provider records of it.
pub proof fn law_records_in_order(event: ContextEventModel)
    ensures
        payload_problem(event) is None <==> match event.payload {
            ContextEventPayloadModel::Message(message) => message.content.len() > 0,
            ContextEventPayloadModel::Tool(tool) => tool.call_id.len() > 0 && tool.name.len() > 0,
            ContextEventPayloadModel::ProviderOpaque(item) => is_complete(item),
            ContextEventPayloadModel::Compaction(checkpoint) => {
                &&& checkpoint.id.len() > 0
                &&& checkpoint.conversation_id == event.conversation_id
                &&& checkpoint.through_sequence < event.sequence
                &&& checkpoint.mode == CompactionMode::ProviderNative <==> checkpoint.lineage
                    is Some
                &&& forall|k: int|
                    0 <= k < checkpoint.replacement.len() ==> ((
                    #[trigger] checkpoint.replacement[k]).payload is ProviderOpaque ==> is_complete(
                        checkpoint.replacement[k].payload->ProviderOpaque_0,
                    ) && checkpoint.lineage == Some(
                        checkpoint.replacement[k].payload->ProviderOpaque_0.lineage,
                    ))
            },
        },
{
    if let ContextEventPayloadModel::Compaction(checkpoint) = event.payload {
        lemma_replacement_is_sound(checkpoint, 0);
    }
}

proof fn lemma_first_problem(events: Seq<ContextEventModel>, i: int, k: int)
    requires
        0 <= i <= k < events.len(),
        forall|j: int| i <= j < k ==> event_problem(events, j) is None,
        event_problem(events, k) is Some,
    ensures
        problem_from(events, i) == event_problem(events, k),
    decreases k - i,
{
    if i < k {
        lemma_first_problem(events, i + 1, k);
    }
}

/// The problem of a journal is that of its first event with one: the event has no id, belongs to
/// another conversation, does not follow in sequence, has the id of an earlier one, or carries a
/// record that is not in order, in this order of precedence.
pub proof fn law_first_problem_is_given(events: Seq<ContextEventModel>, event: ContextEventModel)
    requires
        journal_problem(events) is None,
        events.len() > 0,
    ensures
        ({
            let problem = journal_problem(events.push(event));
            let first = events[0].conversation_id;
            if event.id.len() == 0 {
                problem == Some(ContextContractErrorModel::EmptyField { field: "event_id"@ })
            } else if event.conversation_id != first {
                problem == Some(
                    ContextContractErrorModel::ConversationMismatch {
                        event_id: event.id,
                        expected: first,
                        actual: event.conversation_id,
                    },
                )
            } else if event.sequence <= events.last().sequence {
                problem == Some(
                    ContextContractErrorModel::NonIncreasingSequence {
                        previous: events.last().sequence,
                        current: event.sequence,
                    },
                )
            } else if exists|j: int|
                0 <= j < events.len() && (#[trigger] events[j]).id == event.id {
                problem == Some(ContextContractErrorModel::DuplicateEventId { event_id: event.id })
            } else {
                problem == payload_problem(event)
            }
        }),
{
    let all = events.push(event);
    let n = events.len() as int;
    assert(all[0] == events[0]);
    assert forall|k: int| 0 <= k < n implies event_problem(all, k) is None by {
        crate::projection::lemma_no_event_problem(events, k);
        assert(all[k] == events[k]);
        if k > 0 {
            assert(all[k - 1] == events[k - 1]);
        }
        assert forall|j: int| 0 <= j < k implies (#[trigger] all[j]).id != all[k].id by {
            assert(all[j] == events[j]);
        }
    }
    assert(all[n] == event);
    assert(all[n - 1] == events.last());
    let repeated = exists|j: int| 0 <= j < n && (#[trigger] events[j]).id == event.id;
    assert(repeated <==> exists|j: int| 0 <= j < n && (#[trigger] all[j]).id == event.id) by {
        if repeated {
            let j = choose|j: int| 0 <= j < n && (#[trigger] events[j]).id == event.id;
            assert(all[j].id == event.id);
        }
        if exists|j: int| 0 <= j < n && (#[trigger] all[j]).id == event.id {
            let j = choose|j: int| 0 <= j < n && (#[trigger] all[j]).id == event.id;
            assert(events[j].id == event.id);
        }
    }
    if event_problem(all, n) is Some {
        lemma_first_problem(all, 0, n);
    } else {
        lemma_no_problem_from(all, 0);
    }
}

/// A journal that is not in order stays so with the same problem, whatever is appended.
pub proof fn law_problems_stay(events: Seq<ContextEventModel>, event: ContextEventModel)
    requires
        journal_problem(events) is Some,
    ensures
        journal_problem(events.push(event)) == journal_problem(events),
{
    let all = events.push(event);
    assert(all[0] == events[0]);
    lemma_same_problem(events, event, 0);
}

proof fn lemma_same_problem(events: Seq<ContextEventModel>, event: ContextEventModel, i: int)
    requires
        0 <= i <= events.len(),
    ensures
        problem_from(events, i) is Some ==> problem_from(events.push(event), i) == problem_from(
            events,
            i,
        ),
    decreases events.len() - i,
{
    let all = events.push(event);
    if i < events.len() {
        lemma_same_problem(events, event, i + 1);
        assert(all[0] == events[0]);
        assert(all[i] == events[i]);
        if i > 0 {
            assert(all[i - 1] == events[i - 1]);
        }
        assert((exists|j: int| 0 <= j < i && (#[trigger] all[j]).id == all[i].id) <==> (exists|
            j: int,
        |
            0 <= j < i && (#[trigger] events[j]).id == events[i].id)) by {
            if exists|j: int| 0 <= j < i && (#[trigger] all[j]).id == all[i].id {
                let j = choose|j: int| 0 <= j < i && (#[trigger] all[j]).id == all[i].id;
                assert(events[j].id == events[i].id);
            }
            if exists|j: int| 0 <= j < i && (#[trigger] events[j]).id == events[i].id {
                let j = choose|j: int| 0 <= j < i && (#[trigger] events[j]).id == events[i].id;
                assert(all[j].id == all[i].id);
            }
        }
    }
}

/// The problems of a first event.
pub proof fn law_first_event_is_checked(event: ContextEventModel)
    ensures
        journal_problem(Seq::empty()) is None,
        ({
            let problem = journal_problem(seq![event]);
            if event.conversation_id.len() == 0 {
                problem == Some(ContextContractErrorModel::EmptyField { field: "conversation_id"@ })
            } else if event.id.len() == 0 {
                problem == Some(ContextContractErrorModel::EmptyField { field: "event_id"@ })
            } else if event.sequence == 0 {
                problem == Some(
                    ContextContractErrorModel::NonIncreasingSequence { previous: 0, current: 0 },
                )
            } else {
                problem == payload_problem(event)
            }
        }),
{
    reveal_with_fuel(problem_from, 3);
    let one = seq![event];
    assert(one[0] == event);
}

/// The problems of records name the first field that is empty, or what is wrong with a checkpoint.
pub proof fn law_record_problems_are_named(event: ContextEventModel)
    ensures
        event.payload matches ContextEventPayloadModel::Message(message) && message.content.len()
            == 0 ==> payload_problem(event) == Some(
            ContextContractErrorModel::EmptyField { field: "message.content"@ },
        ),
        event.payload matches ContextEventPayloadModel::Tool(tool) && tool.call_id.len() == 0
            ==> payload_problem(event) == Some(
            ContextContractErrorModel::EmptyField { field: "tool.call_id"@ },
        ),
        event.payload matches ContextEventPayloadModel::Tool(tool) && tool.call_id.len() > 0
            && tool.name.len() == 0 ==> payload_problem(event) == Some(
            ContextContractErrorModel::EmptyField { field: "tool.name"@ },
        ),
        event.payload matches ContextEventPayloadModel::Compaction(checkpoint)
            && checkpoint.id.len() == 0 ==> payload_problem(event) == Some(
            ContextContractErrorModel::EmptyField { field: "checkpoint.id"@ },
        ),
        event.payload matches ContextEventPayloadModel::Compaction(checkpoint)
            && checkpoint.id.len() > 0 && checkpoint.conversation_id != event.conversation_id
            ==> payload_problem(event) == Some(
            ContextContractErrorModel::InvalidCheckpoint {
                checkpoint_id: event.payload->Compaction_0.id,
                reason: "conversation does not match its event"@,
            },
        ),
        event.payload matches ContextEventPayloadModel::Compaction(checkpoint)
            && checkpoint.id.len() > 0 && checkpoint.conversation_id == event.conversation_id
            && checkpoint.through_sequence >= event.sequence ==> payload_problem(event) == Some(
            ContextContractErrorModel::InvalidCheckpoint {
                checkpoint_id: event.payload->Compaction_0.id,
                reason: "through_sequence must precede the checkpoint event"@,
            },
        ),
{
}

/// The first field of a provider record that is empty.
pub open spec fn first_missing(item: ProviderOpaqueItemModel) -> Seq<char> {
    if item.provider_item_id.len() == 0 {
        "provider_opaque.provider_item_id"@
    } else if item.kind.len() == 0 {
        "provider_opaque.kind"@
    } else if item.lineage.provider.len() == 0 {
        "provider_lineage.provider"@
    } else if item.lineage.protocol.len() == 0 {
        "provider_lineage.protocol"@
    } else if item.lineage.lineage_id.len() == 0 {
        "provider_lineage.lineage_id"@
    } else {
        "provider_opaque.payload"@
    }
}

/// The problem of a provider record is its first empty field.
pub proof fn law_missing_fields_are_named(event: ContextEventModel)
    requires
        event.payload is ProviderOpaque,
        !is_complete(event.payload->ProviderOpaque_0),
    ensures
        payload_problem(event) == Some(
            ContextContractErrorModel::EmptyField {
                field: first_missing(event.payload->ProviderOpaque_0),
            },
        ),
{
}

proof fn lemma_first_unsound(checkpoint: ContextCheckpointModel, i: int, k: int)
    requires
        0 <= i <= k < checkpoint.replacement.len(),
        forall|j: int|
            i <= j < k ==> crate::projection::replacement_item_problem(
                checkpoint,
                #[trigger] checkpoint.replacement[j],
            ) is None,
        crate::projection::replacement_item_problem(
            checkpoint,
            checkpoint.replacement[k],
        ) is Some,
    ensures
        crate::projection::replacement_problem(checkpoint, i)
            == crate::projection::replacement_item_problem(checkpoint, checkpoint.replacement[k]),
    decreases k - i,
{
    if i < k {
        assert(crate::projection::replacement_item_problem(
            checkpoint,
            checkpoint.replacement[i],
        ) is None);
        lemma_first_unsound(checkpoint, i + 1, k);
    }
}

/// A checkpoint that replaces only what came before it may still be bound to a lineage wrongly, or
/// hold a provider record that is incomplete or of another lineage. The first of these is named.
pub proof fn law_unsound_checkpoints_are_named(event: ContextEventModel, k: int)
    requires
        event.payload is Compaction,
        event.payload->Compaction_0.id.len() > 0,
        event.payload->Compaction_0.conversation_id == event.conversation_id,
        event.payload->Compaction_0.through_sequence < event.sequence,
    ensures
        ({
            let checkpoint = event.payload->Compaction_0;
            let bound = checkpoint.lineage is Some;
            let native = checkpoint.mode == CompactionMode::ProviderNative;
            let opaque = checkpoint.replacement[k].payload->ProviderOpaque_0;
            let sound = |item: ModelContextItemModel|
                item.payload is ProviderOpaque ==> is_complete(item.payload->ProviderOpaque_0)
                    && checkpoint.lineage == Some(item.payload->ProviderOpaque_0.lineage);
            let first = 0 <= k < checkpoint.replacement.len() && !sound(checkpoint.replacement[k])
                && forall|j: int| 0 <= j < k ==> sound(#[trigger] checkpoint.replacement[j]);
            &&& bound != native ==> payload_problem(event) == Some(
                ContextContractErrorModel::InvalidCheckpoint {
                    checkpoint_id: checkpoint.id,
                    reason: "native checkpoints require lineage; semantic checkpoints forbid it"@,
                },
            )
            &&& bound == native && first && !is_complete(opaque) ==> payload_problem(event) == Some(
                ContextContractErrorModel::EmptyField { field: first_missing(opaque) },
            )
            &&& bound == native && first && is_complete(opaque) ==> payload_problem(event) == Some(
                ContextContractErrorModel::InvalidCheckpoint {
                    checkpoint_id: checkpoint.id,
                    reason: "opaque replacement does not match checkpoint lineage"@,
                },
            )
        }),
{
    let checkpoint = event.payload->Compaction_0;
    let sound = |item: ModelContextItemModel|
        item.payload is ProviderOpaque ==> is_complete(item.payload->ProviderOpaque_0)
            && checkpoint.lineage == Some(item.payload->ProviderOpaque_0.lineage);
    if 0 <= k < checkpoint.replacement.len() && !sound(checkpoint.replacement[k]) && (forall|
        j: int,
    |
        0 <= j < k ==> sound(#[trigger] checkpoint.replacement[j])) {
        assert forall|j: int| 0 <= j < k implies crate::projection::replacement_item_problem(
            checkpoint,
            #[trigger] checkpoint.replacement[j],
        ) is None by {
            assert(sound(checkpoint.replacement[j]));
        }
        lemma_first_unsound(checkpoint, 0, k);
    }
}

// ---------------------------------------------------------------------------------------------
// Forks

/// A fork is the projection of the events up to its sequence number, under the names of its
/// request.
pub proof fn law_forks_project_the_past(
    events: Seq<ContextEventModel>,
    n: int,
    request: ForkRequestModel,
    target: ProviderLineageModel,
)
    requires
        journal_problem(events) is None,
        0 < n <= events.len(),
        events[n - 1].sequence <= request.through_sequence,
        n < events.len() ==> request.through_sequence < events[n].sequence,
        n == events.len() ==> request.through_sequence == events[n - 1].sequence,
        events[0].conversation_id == request.source_conversation_id,
    ensures
        fork_of(events, request, target) == Ok::<ForkSeedModel, ContextContractErrorModel>(
            ForkSeedModel {
                source_conversation_id: request.source_conversation_id,
                target_conversation_id: request.target_conversation_id,
                forked_at_sequence: request.through_sequence,
                transcript: projection_of(events.take(n), target).transcript,
                model_context: projection_of(events.take(n), target).model_context,
            },
        ),
{
    let m = crate::projection::lemma_through_is_prefix(events, request.through_sequence);
    if m < n {
        if m < n - 1 {
            crate::projection::lemma_sequences_increase(events, m, n - 1);
        }
        assert(events[m].sequence <= request.through_sequence);
    }
    if m > n {
        assert(events[n].sequence <= request.through_sequence);
    }
    if n < events.len() {
        if n < events.len() - 1 {
            crate::projection::lemma_sequences_increase(events, n, events.len() - 1);
        }
    }
    assert(events.take(n)[0] == events[0]);
}

/// A fork beyond the journal, or of another conversation, is refused.
pub proof fn law_forks_are_refused(
    events: Seq<ContextEventModel>,
    request: ForkRequestModel,
    target: ProviderLineageModel,
)
    requires
        journal_problem(events) is None,
        events.len() > 0,
    ensures
        request.through_sequence > events.last().sequence ==> fork_of(events, request, target)
            == Err::<ForkSeedModel, ContextContractErrorModel>(
            ContextContractErrorModel::ForkOutOfRange {
                through_sequence: request.through_sequence,
                last_sequence: events.last().sequence,
            },
        ),
        events[0].sequence <= request.through_sequence <= events.last().sequence
            && events[0].conversation_id != request.source_conversation_id ==> fork_of(
            events,
            request,
            target,
        ) == Err::<ForkSeedModel, ContextContractErrorModel>(
            ContextContractErrorModel::ConversationMismatch {
                event_id: events[0].id,
                expected: request.source_conversation_id,
                actual: events[0].conversation_id,
            },
        ),
{
    let m = crate::projection::lemma_through_is_prefix(events, request.through_sequence);
    if events[0].sequence <= request.through_sequence {
        assert(m > 0);
        assert(events.take(m)[0] == events[0]);
    }
}

/// A fork before the first event is empty, a fork of nothing is empty, and a journal that is not
/// in order is not forked.
pub proof fn law_forks_at_the_edges(
    events: Seq<ContextEventModel>,
    request: ForkRequestModel,
    target: ProviderLineageModel,
)
    ensures
        journal_problem(events) is Some ==> fork_of(events, request, target) == Err::<
            ForkSeedModel,
            ContextContractErrorModel,
        >(journal_problem(events)->0),
        events.len() == 0 && request.through_sequence > 0 ==> fork_of(events, request, target)
            == Err::<ForkSeedModel, ContextContractErrorModel>(
            ContextContractErrorModel::ForkOutOfRange {
                through_sequence: request.through_sequence,
                last_sequence: 0,
            },
        ),
        journal_problem(events) is None && (events.len() == 0 && request.through_sequence == 0
            || events.len() > 0 && request.through_sequence < events[0].sequence) ==> fork_of(
            events,
            request,
            target,
        ) == Ok::<ForkSeedModel, ContextContractErrorModel>(
            ForkSeedModel {
                source_conversation_id: request.source_conversation_id,
                target_conversation_id: request.target_conversation_id,
                forked_at_sequence: request.through_sequence,
                transcript: Seq::empty(),
                model_context: Seq::empty(),
            },
        ),
{
    if journal_problem(events) is None && (events.len() == 0 && request.through_sequence == 0
        || events.len() > 0 && request.through_sequence < events[0].sequence) {
        let m = crate::projection::lemma_through_is_prefix(events, request.through_sequence);
        if m > 0 {
            assert(events[0].sequence <= request.through_sequence);
        }
        assert(events.take(0) =~= Seq::empty());
        let none = Seq::<ContextEventModel>::empty();
        reveal(Seq::filter);
        reveal(Seq::filter_map);
        assert(none.filter(|e: ContextEventModel| crate::projection::in_transcript(e))
            =~= Seq::empty());
        law_without_checkpoint_everything_counts(none, target);
        assert(items_after(none, 0) =~= Seq::empty());
        assert(projection_of(none, target).model_context =~= Seq::empty());
        if events.len() > 1 {
            crate::projection::lemma_sequences_increase(events, 0, events.len() - 1);
        }
    }
}

} // verus!
