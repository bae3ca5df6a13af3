//! Laws of streamed chat answers: how pieces add up and what they become in the end.
use vstd::prelude::*;

use crate::chat_stream::{
    after_choices, after_chunk, after_input, all_grown, closing_events, finished_calls,
    first_separator, grown_calls, lemma_has_first_separator, split_name, text_events,
    AccumulatedToolCallModel, ChatCompletionChoiceModel, ChatCompletionChunkModel,
    ChatCompletionDeltaToolCallModel, ChatStreamModel, ResponseEventModel, SseInputModel,
};
use crate::protocol::{ContentItemModel, ResponseItemModel};
use crate::text::{decimal_text, occurs_at, occurs_in, trim_text};

verus! {

/// The text behind an optional piece of a text.
pub open spec fn piece(text: Option<Seq<char>>) -> Seq<char> {
    if text is Some {
        text->0
    } else {
        Seq::empty()
    }
}

/// The piece of the arguments that a delta brings.
pub open spec fn arguments_piece(delta: ChatCompletionDeltaToolCallModel) -> Seq<char> {
    if delta.function is Some {
        piece(delta.function->0.arguments)
    } else {
        Seq::empty()
    }
}

/// The piece of the name that a delta brings.
pub open spec fn name_piece(delta: ChatCompletionDeltaToolCallModel) -> Seq<char> {
    if delta.function is Some {
        piece(delta.function->0.name)
    } else {
        Seq::empty()
    }
}

/// The pieces of the arguments of call `k`, one after the other.
pub open spec fn arguments_for(k: int, deltas: Seq<ChatCompletionDeltaToolCallModel>) -> Seq<char>
    decreases deltas.len(),
{
    if deltas.len() == 0 {
        Seq::empty()
    } else if deltas[0].index == Some(k as usize) {
        arguments_piece(deltas[0]) + arguments_for(k, deltas.drop_first())
    } else {
        arguments_for(k, deltas.drop_first())
    }
}

/// The pieces of the name of call `k`, one after the other.
pub open spec fn name_for(k: int, deltas: Seq<ChatCompletionDeltaToolCallModel>) -> Seq<char>
    decreases deltas.len(),
{
    if deltas.len() == 0 {
        Seq::empty()
    } else if deltas[0].index == Some(k as usize) {
        name_piece(deltas[0]) + name_for(k, deltas.drop_first())
    } else {
        name_for(k, deltas.drop_first())
    }
}

/// What is known of call `k`, which is nothing before its first piece.
pub open spec fn call_at(calls: Seq<AccumulatedToolCallModel>, k: int) -> AccumulatedToolCallModel {
    if 0 <= k < calls.len() {
        calls[k]
    } else {
        AccumulatedToolCallModel { id: Seq::empty(), name: Seq::empty(), arguments: Seq::empty() }
    }
}

/// Pieces that come in two lots add up to the same calls as pieces that come in one.
pub proof fn law_lots_add_up(
    calls: Seq<AccumulatedToolCallModel>,
    first: Seq<ChatCompletionDeltaToolCallModel>,
    second: Seq<ChatCompletionDeltaToolCallModel>,
)
    ensures
        all_grown(calls, first + second) == all_grown(all_grown(calls, first), second),
        all_grown(calls, Seq::empty()) == calls,
    decreases second.len(),
{
    if second.len() == 0 {
        assert(first + second =~= first);
    } else {
        law_lots_add_up(calls, first, second.drop_last());
        assert((first + second).drop_last() =~= first + second.drop_last());
        assert((first + second).last() == second.last());
    }
}

/// One piece extends the call at its index, or starts the next call where it has no index. It
/// replaces the id if it brings one, it adds to the name and to the arguments, and it leaves every
/// other call as it is.
pub proof fn law_one_piece_extends_one_call(
    calls: Seq<AccumulatedToolCallModel>,
    delta: ChatCompletionDeltaToolCallModel,
    k: int,
)
    requires
        0 <= k,
    ensures
        ({
            let grown = all_grown(calls, seq![delta]);
            let index = if delta.index is Some {
                delta.index->0 as int
            } else {
                calls.len() as int
            };
            let old_call = call_at(calls, index);
            let new_call = grown[index];
            &&& grown.len() == if index < calls.len() {
                calls.len() as int
            } else {
                index + 1
            }
            &&& k != index ==> call_at(grown, k) == call_at(calls, k)
            &&& new_call.arguments == old_call.arguments + arguments_piece(delta)
            &&& new_call.name == old_call.name + name_piece(delta)
            &&& delta.id is Some ==> new_call.id == delta.id->0
            &&& delta.id is None ==> new_call.id == old_call.id
        }),
{
    reveal_with_fuel(all_grown, 2);
    assert(seq![delta].drop_last() =~= Seq::empty());
    assert(seq![delta].last() == delta);
    let index = if delta.index is Some {
        delta.index->0 as int
    } else {
        calls.len() as int
    };
    let grown = grown_calls(calls, delta);
    assert(all_grown(calls, seq![delta]) == grown);
    let old_call = call_at(calls, index);
    assert(old_call.arguments + Seq::<char>::empty() =~= old_call.arguments);
    assert(old_call.name + Seq::<char>::empty() =~= old_call.name);
}

/// The arguments and the name of a call are the pieces for it in the order in which they came,
/// whatever came in between for other calls.
pub proof fn law_pieces_are_put_together(
    calls: Seq<AccumulatedToolCallModel>,
    deltas: Seq<ChatCompletionDeltaToolCallModel>,
    k: int,
)
    requires
        0 <= k <= usize::MAX,
        forall|i: int| 0 <= i < deltas.len() ==> (#[trigger] deltas[i]).index is Some,
    ensures
        ({
            let grown = all_grown(calls, deltas);
            &&& call_at(grown, k).arguments == call_at(calls, k).arguments + arguments_for(
                k,
                deltas,
            )
            &&& call_at(grown, k).name == call_at(calls, k).name + name_for(k, deltas)
            &&& grown.len() >= calls.len()
            &&& forall|i: int|
                0 <= i < deltas.len() ==> (#[trigger] deltas[i]).index->0 < grown.len()
        }),
    decreases deltas.len(),
{
    if deltas.len() == 0 {
        assert(call_at(calls, k).arguments + Seq::<char>::empty() =~= call_at(calls, k).arguments);
        assert(call_at(calls, k).name + Seq::<char>::empty() =~= call_at(calls, k).name);
    } else {
        let first = deltas[0];
        let rest = deltas.drop_first();
        let next = all_grown(calls, seq![first]);
        assert(deltas =~= seq![first] + rest);
        law_lots_add_up(calls, seq![first], rest);
        law_one_piece_extends_one_call(calls, first, k);
        assert forall|i: int| 0 <= i < rest.len() implies (#[trigger] rest[i]).index is Some by {
            assert(rest[i] == deltas[i + 1]);
        }
        law_pieces_are_put_together(next, rest, k);
        let grown = all_grown(calls, deltas);
        assert(grown == all_grown(next, rest));
        assert(first.index == Some(k as usize) <==> first.index->0 as int == k);
        let old_call = call_at(calls, k);
        assert((old_call.arguments + arguments_piece(first)) + arguments_for(k, rest)
            =~= old_call.arguments + (arguments_piece(first) + arguments_for(k, rest)));
        assert((old_call.name + name_piece(first)) + name_for(k, rest) =~= old_call.name + (
        name_piece(first) + name_for(k, rest)));
        assert forall|i: int| 0 <= i < deltas.len() implies (#[trigger] deltas[i]).index->0
            < grown.len() by {
            if i > 0 {
                assert(rest[i - 1] == deltas[i]);
            }
        }
    }
}

/// Choices count one after the other: each adds its text to the answer and its pieces to the
/// calls, and the id stays.
pub proof fn law_choices_add_up(
    state: ChatStreamModel,
    choices: Seq<ChatCompletionChoiceModel>,
    last: ChatCompletionChoiceModel,
)
    ensures
        after_choices(state, Seq::empty()) == state,
        ({
            let before = after_choices(state, choices);
            let after = after_choices(state, choices.push(last));
            &&& after.response_id == before.response_id
            &&& after.assistant_text == before.assistant_text + piece(last.delta.content)
            &&& last.delta.tool_calls is Some ==> after.tool_calls == all_grown(
                before.tool_calls,
                last.delta.tool_calls->0,
            )
            &&& last.delta.tool_calls is None ==> after.tool_calls == before.tool_calls
        }),
{
    let before = after_choices(state, choices);
    assert(choices.push(last).drop_last() =~= choices);
    assert(choices.push(last).last() == last);
    assert(before.assistant_text + Seq::<char>::empty() =~= before.assistant_text);
    if last.delta.content is Some && last.delta.content->0.len() == 0 {
        assert(last.delta.content->0 =~= Seq::<char>::empty());
    }
}

/// Text is told as it comes: one event for each choice that brings some.
pub proof fn law_text_is_told_as_it_comes(
    choices: Seq<ChatCompletionChoiceModel>,
    last: ChatCompletionChoiceModel,
)
    ensures
        text_events(Seq::<ChatCompletionChoiceModel>::empty()).len() == 0,
        piece(last.delta.content).len() > 0 ==> text_events(choices.push(last)) == text_events(
            choices,
        ).push(ResponseEventModel::OutputTextDelta(last.delta.content->0)),
        piece(last.delta.content).len() == 0 ==> text_events(choices.push(last)) == text_events(
            choices,
        ),
{
    let f = |choice: ChatCompletionChoiceModel|
        match crate::chat_stream::new_text(choice) {
            Some(text) => Some(ResponseEventModel::OutputTextDelta(text)),
            None => None,
        };
    let all = choices.push(last);
    let n = choices.len() as int;
    reveal(Seq::filter_map);
    let none = Seq::<ChatCompletionChoiceModel>::empty();
    assert(none.filter_map(f) =~= Seq::empty());
    assert(text_events(none) == none.filter_map(f));
    all.lemma_filter_map_take_succ(f, n);
    assert(all.take(n) =~= choices);
    assert(all.take(n + 1) =~= all);
    assert(text_events(all) == all.filter_map(f));
    assert(text_events(choices) == choices.filter_map(f));
}

/// The first id that a stream gives is the answer's.
pub proof fn law_first_id_stays(state: ChatStreamModel, chunk: ChatCompletionChunkModel)
    ensures
        state.response_id is Some ==> after_chunk(state, chunk).response_id == state.response_id,
        state.response_id is None ==> after_chunk(state, chunk).response_id == chunk.id,
        after_chunk(state, chunk).assistant_text == after_choices(
            state,
            chunk.choices,
        ).assistant_text,
        after_chunk(state, chunk).tool_calls == after_choices(state, chunk.choices).tool_calls,
{
    let start = ChatStreamModel {
        response_id: if state.response_id is Some {
            state.response_id
        } else {
            chunk.id
        },
        ..state
    };
    lemma_id_is_passive(start, state, chunk.choices);
}

proof fn lemma_id_is_passive(
    one: ChatStreamModel,
    other: ChatStreamModel,
    choices: Seq<ChatCompletionChoiceModel>,
)
    requires
        one.tool_calls == other.tool_calls,
        one.assistant_text == other.assistant_text,
    ensures
        after_choices(one, choices).tool_calls == after_choices(other, choices).tool_calls,
        after_choices(one, choices).assistant_text == after_choices(other, choices).assistant_text,
        after_choices(one, choices).response_id == one.response_id,
    decreases choices.len(),
{
    if choices.len() > 0 {
        lemma_id_is_passive(one, other, choices.drop_last());
    }
}

/// A chunk counts and the stream goes on; what is no chunk is passed over; the end mark ends the
/// stream, and so do its end, a break and a silence, of which the latter two are told.
pub proof fn law_inputs_of_a_stream(
    state: ChatStreamModel,
    data: Seq<char>,
    chunk: ChatCompletionChunkModel,
    error: Seq<char>,
    millis: u64,
)
    ensures
        trim_text(data) != "[DONE]"@ ==> after_input(
            state,
            SseInputModel::Event { data, chunk: Some(chunk) },
        ) == (after_chunk(state, chunk), text_events(chunk.choices), true),
        trim_text(data) != "[DONE]"@ ==> after_input(
            state,
            SseInputModel::Event { data, chunk: None },
        ) == (state, Seq::<ResponseEventModel>::empty(), true),
        trim_text(data) == "[DONE]"@ ==> after_input(
            state,
            SseInputModel::Event { data, chunk: Some(chunk) },
        ) == (state, Seq::<ResponseEventModel>::empty(), false),
        trim_text(data) == "[DONE]"@ ==> after_input(
            state,
            SseInputModel::Event { data, chunk: None },
        ) == (state, Seq::<ResponseEventModel>::empty(), false),
        after_input(state, SseInputModel::End) == (
            state,
            Seq::<ResponseEventModel>::empty(),
            false,
        ),
        after_input(state, SseInputModel::Broken { error }) == (
            state,
            seq![ResponseEventModel::Failed { message: "chat completions SSE error: "@ + error }],
            false,
        ),
        after_input(state, SseInputModel::IdleTimeout { millis }) == (
            state,
            seq![
                ResponseEventModel::Failed {
                    message: "stream idle timeout after "@ + decimal_text(millis as nat) + " ms"@,
                },
            ],
            false,
        ),
{
}

/// A name splits at its first separator into what stands before it and what stands behind it, and
/// does not split where it has none.
pub proof fn law_names_split_at_the_first_separator(name: Seq<char>)
    ensures
        !occurs_in(name, "__"@) ==> split_name(name) == (None::<Seq<char>>, name),
        occurs_in(name, "__"@) ==> {
            let parts = split_name(name);
            &&& parts.0 is Some
            &&& parts.0->0 + "__"@ + parts.1 == name
            &&& forall|j: int| 0 <= j < parts.0->0.len() ==> !#[trigger] occurs_at(name, "__"@, j)
        },
{
    reveal_strlit("__");
    if occurs_in(name, "__"@) {
        lemma_has_first_separator(name);
        let i = choose|i: int| first_separator(name, i);
        assert(occurs_at(name, "__"@, i));
        assert(name.take(i) + "__"@ + name.skip(i + 2) =~= name) by {
            assert(name.subrange(i, i + 2) =~= "__"@);
            assert(name =~= name.take(i) + name.subrange(i, i + 2) + name.skip(i + 2));
        }
    }
}

/// Whether an event reports a call as it was put together: under its id or else a numbered one,
/// with all its arguments, and under its name, split at the first separator.
pub open spec fn reports_call(
    event: ResponseEventModel,
    index: nat,
    call: AccumulatedToolCallModel,
) -> bool {
    let item = event->OutputItemDone_0;
    &&& event is OutputItemDone
    &&& item is FunctionCall
    &&& item->FunctionCall_id is None
    &&& item->FunctionCall_arguments == call.arguments
    &&& item->FunctionCall_internal_chat_message_metadata_passthrough is None
    &&& call.id.len() > 0 ==> item->FunctionCall_call_id == call.id
    &&& call.id.len() == 0 ==> item->FunctionCall_call_id == "call_chat_"@ + decimal_text(index)
    &&& item->FunctionCall_namespace is Some <==> occurs_in(call.name, "__"@)
    &&& item->FunctionCall_namespace is None ==> item->FunctionCall_name == call.name
    &&& item->FunctionCall_namespace is Some ==> (forall|j: int|
        0 <= j < item->FunctionCall_namespace->0.len() ==> !#[trigger] occurs_at(
            call.name,
            "__"@,
            j,
        )) && call.name == item->FunctionCall_namespace->0
        + "__"@ + item->FunctionCall_name
}

/// Every named call is reported, in order, and calls without a name are not.
pub proof fn law_named_calls_are_reported(calls: Seq<AccumulatedToolCallModel>, n: nat)
    requires
        n < calls.len(),
    ensures
        finished_calls(calls, 0).len() == 0,
        ({
            let before = finished_calls(calls, n);
            let after = finished_calls(calls, n + 1);
            &&& calls[n as int].name.len() == 0 ==> after == before
            &&& calls[n as int].name.len() > 0 ==> after.len() == before.len() + 1
                && after.drop_last() == before && reports_call(
                after[before.len() as int],
                n,
                calls[n as int],
            )
        }),
{
    let before = finished_calls(calls, n);
    let after = finished_calls(calls, n + 1);
    law_names_split_at_the_first_separator(calls[n as int].name);
    if calls[n as int].name.len() > 0 {
        assert(after.drop_last() =~= before);
    }
}

/// At the end the whole text is reported as a message of the assistant, then the calls, and then
/// the completion under the stream's id.
pub proof fn law_streams_close_in_order(state: ChatStreamModel)
    ensures
        ({
            let events = closing_events(state);
            let calls = finished_calls(state.tool_calls, state.tool_calls.len());
            let skip = if state.assistant_text.len() > 0 {
                1int
            } else {
                0
            };
            &&& events.len() == skip + calls.len() + 1
            &&& events.subrange(skip, skip + calls.len()) == calls
            &&& state.assistant_text.len() > 0 ==> events[0] == ResponseEventModel::OutputItemDone(
                ResponseItemModel::Message {
                    id: None,
                    role: "assistant"@,
                    content: seq![ContentItemModel::OutputText { text: state.assistant_text }],
                    phase: None,
                    internal_chat_message_metadata_passthrough: None,
                },
            )
            &&& events[events.len() - 1] == (ResponseEventModel::Completed {
                response_id: if state.response_id is Some {
                    state.response_id->0
                } else {
                    "chatcmpl"@
                },
                token_usage: None,
                end_turn: Some(true),
            })
        }),
{
    let events = closing_events(state);
    let calls = finished_calls(state.tool_calls, state.tool_calls.len());
    let skip = if state.assistant_text.len() > 0 {
        1int
    } else {
        0
    };
    assert(events.subrange(skip, skip + calls.len()) =~= calls);
}

} // verus!
