//! Laws of the chat protocol's requests and streamed answers.
use vstd::prelude::*;

use crate::chat::{
    calls_message, chat_request, content_text, conversion_start, converted, flushed, function_call,
    output_text, result_message, ChatMessageModel, ChatToolCallModel, Conversion,
    ResponsesApiRequestModel,
};
use crate::chat_stream::{
    after_choices, closing_events, finished_calls, new_text, text_events, ChatCompletionChoiceModel,
    ChatStreamModel, ResponseEventModel,
};
use crate::protocol::ResponseItemModel;

verus! {

/// The tool call that an item makes, if it makes one.
pub open spec fn call_of(item: ResponseItemModel) -> Option<ChatToolCallModel> {
    match item {
        ResponseItemModel::FunctionCall { name, namespace, arguments, call_id, .. } => Some(
            function_call(call_id, namespace, name, arguments),
        ),
        ResponseItemModel::CustomToolCall { name, namespace, input, call_id, .. } => Some(
            function_call(call_id, namespace, name, input),
        ),
        _ => None,
    }
}

/// All tool calls of some items, in order.
pub open spec fn calls_of(items: Seq<ResponseItemModel>) -> Seq<ChatToolCallModel> {
    items.filter_map(|item: ResponseItemModel| call_of(item))
}

/// All tool calls of some messages, in order.
pub open spec fn calls_in(messages: Seq<ChatMessageModel>) -> Seq<ChatToolCallModel>
    decreases messages.len(),
{
    if messages.len() == 0 {
        Seq::empty()
    } else {
        calls_in(messages.drop_last()) + match messages.last().tool_calls {
            Some(calls) => calls,
            None => Seq::empty(),
        }
    }
}

proof fn lemma_calls_push(messages: Seq<ChatMessageModel>, message: ChatMessageModel)
    ensures
        calls_in(messages.push(message)) == calls_in(messages) + match message.tool_calls {
            Some(calls) => calls,
            None => Seq::empty(),
        },
{
    assert(messages.push(message).drop_last() =~= messages);
}

proof fn lemma_calls_flushed(messages: Seq<ChatMessageModel>, pending: Seq<ChatToolCallModel>)
    ensures
        calls_in(flushed(messages, pending)) == calls_in(messages) + pending,
{
    if pending.len() == 0 {
        assert(calls_in(messages) + pending =~= calls_in(messages));
    } else {
        lemma_calls_push(messages, calls_message(pending));
    }
}

proof fn lemma_calls_kept(start: Conversion, items: Seq<ResponseItemModel>)
    requires
        start.pending.len() == 0,
    ensures
        ({
            let end = converted(start, items);
            calls_in(end.messages) + end.pending == calls_in(start.messages) + calls_of(items)
        }),
    decreases items.len(),
{
    let select = |item: ResponseItemModel| call_of(item);
    if items.len() == 0 {
        reveal(Seq::filter_map);
        assert(items.filter_map(select) =~= Seq::empty());
        assert(calls_in(start.messages) + start.pending =~= calls_in(start.messages) + calls_of(
            items,
        ));
    } else {
        let front = items.drop_last();
        let n = front.len() as int;
        lemma_calls_kept(start, front);
        let state = converted(start, front);
        let end = converted(start, items);
        let item = items.last();
        items.lemma_filter_map_take_succ(select, n);
        assert(items.take(n) =~= front);
        assert(items.take(n + 1) =~= items);
        lemma_calls_flushed(state.messages, state.pending);
        let settled = flushed(state.messages, state.pending);
        match item {
            ResponseItemModel::Message { role, content, .. } => {
                if let Some(text) = content_text(content) {
                    lemma_calls_push(
                        settled,
                        crate::chat::text_message(crate::chat::chat_role(role), text),
                    );
                }
            },
            ResponseItemModel::FunctionCallOutput { call_id, output, .. } => {
                lemma_calls_push(settled, result_message(call_id, output_text(output.body)));
            },
            ResponseItemModel::CustomToolCallOutput { call_id, output, .. } => {
                lemma_calls_push(settled, result_message(call_id, output_text(output.body)));
            },
            _ => {},
        }
        let sent = calls_in(start.messages);
        if let Some(call) = call_of(item) {
            assert(calls_of(items) =~= calls_of(front).push(call));
            assert(end.pending == state.pending.push(call));
            assert(calls_in(end.messages) + end.pending =~= (calls_in(state.messages)
                + state.pending).push(call));
            assert(sent + calls_of(items) =~= (sent + calls_of(front)).push(call));
        } else {
            assert(calls_of(items) =~= calls_of(front));
            assert(calls_in(end.messages) + end.pending =~= calls_in(state.messages)
                + state.pending);
        }
    }
}

/// Every tool call of a request is sent exactly once, and the calls keep their order.
pub proof fn law_tool_calls_are_sent_once(request: ResponsesApiRequestModel)
    ensures
        calls_in(chat_request(request).messages) == calls_of(request.input),
{
    let start = conversion_start(request);
    let end = converted(start, request.input);
    reveal_with_fuel(calls_in, 2);
    assert(calls_in(start.messages) =~= Seq::empty());
    lemma_calls_kept(start, request.input);
    lemma_calls_flushed(end.messages, end.pending);
    assert(calls_in(start.messages) + calls_of(request.input) =~= calls_of(request.input));
}

/// The message of the tool result that an item holds, if it holds one.
pub open spec fn result_of(item: ResponseItemModel) -> Option<ChatMessageModel> {
    match item {
        ResponseItemModel::FunctionCallOutput { call_id, output, .. } => Some(
            result_message(call_id, output_text(output.body)),
        ),
        ResponseItemModel::CustomToolCallOutput { call_id, output, .. } => Some(
            result_message(call_id, output_text(output.body)),
        ),
        _ => None,
    }
}

/// The messages among some that answer a tool call.
pub open spec fn results_in(messages: Seq<ChatMessageModel>) -> Seq<ChatMessageModel> {
    messages.filter(|message: ChatMessageModel| message.tool_call_id is Some)
}

/// The tool results of some items, in order.
pub open spec fn results_of(items: Seq<ResponseItemModel>) -> Seq<ChatMessageModel> {
    items.filter_map(|item: ResponseItemModel| result_of(item))
}

proof fn lemma_results_push(messages: Seq<ChatMessageModel>, message: ChatMessageModel)
    ensures
        results_in(messages.push(message)) == if message.tool_call_id is Some {
            results_in(messages).push(message)
        } else {
            results_in(messages)
        },
{
    reveal(Seq::filter);
    assert(messages.push(message).drop_last() =~= messages);
}

proof fn lemma_results_flushed(messages: Seq<ChatMessageModel>, pending: Seq<ChatToolCallModel>)
    ensures
        results_in(flushed(messages, pending)) == results_in(messages),
{
    if pending.len() > 0 {
        lemma_results_push(messages, calls_message(pending));
    }
}

proof fn lemma_results_kept(start: Conversion, items: Seq<ResponseItemModel>)
    ensures
        results_in(converted(start, items).messages) == results_in(start.messages) + results_of(
            items,
        ),
    decreases items.len(),
{
    let select = |item: ResponseItemModel| result_of(item);
    if items.len() == 0 {
        reveal(Seq::filter_map);
        assert(items.filter_map(select) =~= Seq::empty());
        assert(results_in(start.messages) + results_of(items) =~= results_in(start.messages));
    } else {
        let front = items.drop_last();
        let n = front.len() as int;
        lemma_results_kept(start, front);
        let state = converted(start, front);
        let item = items.last();
        items.lemma_filter_map_take_succ(select, n);
        assert(items.take(n) =~= front);
        assert(items.take(n + 1) =~= items);
        lemma_results_flushed(state.messages, state.pending);
        let settled = flushed(state.messages, state.pending);
        let sent = results_in(start.messages);
        if let Some(message) = result_of(item) {
            lemma_results_push(settled, message);
            assert(results_of(items) =~= results_of(front).push(message));
            assert(sent + results_of(items) =~= (sent + results_of(front)).push(message));
        } else {
            assert(results_of(items) =~= results_of(front));
            if let ResponseItemModel::Message { role, content, .. } = item {
                if let Some(text) = content_text(content) {
                    lemma_results_push(
                        settled,
                        crate::chat::text_message(crate::chat::chat_role(role), text),
                    );
                }
            }
        }
    }
}

/// Every tool result of a request goes out as one message of its own, and the results keep their
/// order.
pub proof fn law_tool_results_are_sent_once(request: ResponsesApiRequestModel)
    ensures
        results_in(chat_request(request).messages) == results_of(request.input),
{
    let start = conversion_start(request);
    let end = converted(start, request.input);
    reveal_with_fuel(Seq::filter, 2);
    assert(results_in(start.messages) =~= Seq::empty());
    lemma_results_kept(start, request.input);
    lemma_results_flushed(end.messages, end.pending);
    assert(results_in(start.messages) + results_of(request.input) =~= results_of(request.input));
}

/// Consecutive tool calls followed by a result go out as one message of the assistant that holds
/// them all, with the result directly behind it.
pub proof fn law_consecutive_calls_share_a_message(
    state: Conversion,
    calls: Seq<ResponseItemModel>,
    result: ResponseItemModel,
)
    requires
        state.pending.len() == 0,
        calls.len() > 0,
        forall|i: int| 0 <= i < calls.len() ==> call_of(#[trigger] calls[i]) is Some,
        result is FunctionCallOutput || result is CustomToolCallOutput,
    ensures
        ({
            let end = converted(state, calls.push(result));
            let (call_id, body) = match result {
                ResponseItemModel::FunctionCallOutput { call_id, output, .. } => (
                    call_id,
                    output.body,
                ),
                ResponseItemModel::CustomToolCallOutput { call_id, output, .. } => (
                    call_id,
                    output.body,
                ),
                _ => arbitrary(),
            };
            &&& end.messages == state.messages.push(
                calls_message(calls.map_values(|item: ResponseItemModel| call_of(item)->0)),
            ).push(result_message(call_id, output_text(body)))
            &&& end.pending.len() == 0
        }),
{
    lemma_calls_are_held(state, calls);
    assert(calls.push(result).drop_last() =~= calls);
}

proof fn lemma_calls_are_held(state: Conversion, calls: Seq<ResponseItemModel>)
    requires
        state.pending.len() == 0,
        forall|i: int| 0 <= i < calls.len() ==> call_of(#[trigger] calls[i]) is Some,
    ensures
        converted(state, calls).messages == state.messages,
        converted(state, calls).tools == state.tools,
        converted(state, calls).pending == calls.map_values(
            |item: ResponseItemModel| call_of(item)->0,
        ),
    decreases calls.len(),
{
    let call = |item: ResponseItemModel| call_of(item)->0;
    if calls.len() == 0 {
        assert(state.pending =~= calls.map_values(call));
    } else {
        let front = calls.drop_last();
        assert forall|i: int| 0 <= i < front.len() implies call_of(#[trigger] front[i]) is Some by {
            assert(front[i] == calls[i]);
        }
        lemma_calls_are_held(state, front);
        assert(call_of(calls[calls.len() - 1]) is Some);
        assert(calls.map_values(call) =~= front.map_values(call).push(call(calls.last())));
    }
}

/// Whether no message that calls tools stands directly behind another.
pub open spec fn calls_stand_apart(messages: Seq<ChatMessageModel>) -> bool {
    forall|i: int|
        0 <= i < messages.len() - 1 ==> (#[trigger] messages[i]).tool_calls is None || messages[i
            + 1].tool_calls is None
}

/// Where every message of a request has text, no message that calls tools stands directly behind
/// another: a provider finds the results of each before it meets the next.
pub proof fn law_call_messages_stand_apart(request: ResponsesApiRequestModel)
    requires
        forall|i: int|
            0 <= i < request.input.len() ==> (
            #[trigger] request.input[i] matches ResponseItemModel::Message { content, .. }
                ==> content_text(content) is Some),
    ensures
        calls_stand_apart(chat_request(request).messages),
{
    lemma_apart(conversion_start(request), request.input);
}

proof fn lemma_apart(start: Conversion, items: Seq<ResponseItemModel>)
    requires
        calls_stand_apart(start.messages),
        start.messages.len() > 0 ==> start.messages.last().tool_calls is None,
        start.pending.len() == 0,
        forall|i: int|
            0 <= i < items.len() ==> (
            #[trigger] items[i] matches ResponseItemModel::Message { content, .. } ==> content_text(
                content,
            ) is Some),
    ensures
        calls_stand_apart(converted(start, items).messages),
        converted(start, items).messages.len() > 0 ==> converted(
            start,
            items,
        ).messages.last().tool_calls is None,
    decreases items.len(),
{
    if items.len() > 0 {
        let front = items.drop_last();
        assert forall|i: int| 0 <= i < front.len() implies (
        #[trigger] front[i] matches ResponseItemModel::Message { content, .. } ==> content_text(
            content,
        ) is Some) by {
            assert(front[i] == items[i]);
        }
        lemma_apart(start, front);
        let item = items[items.len() - 1];
        assert(item == items.last());
        let state = converted(start, front);
        let settled = flushed(state.messages, state.pending);
        assert(calls_stand_apart(settled));
        if item is Message || item is FunctionCallOutput || item is CustomToolCallOutput {
            let after = converted(start, items).messages;
            assert(after.drop_last() =~= settled);
            assert forall|i: int| 0 <= i < after.len() - 1 implies (
            #[trigger] after[i]).tool_calls is None || after[i + 1].tool_calls is None by {
                if i + 1 < settled.len() {
                    assert(after[i] == settled[i]);
                    assert(after[i + 1] == settled[i + 1]);
                } else {
                    assert(after[i + 1] == after.last());
                }
            }
        }
    }
}

/// The text that some events hand on.
pub open spec fn streamed_text(events: Seq<ResponseEventModel>) -> Seq<char>
    decreases events.len(),
{
    if events.len() == 0 {
        Seq::empty()
    } else {
        streamed_text(events.drop_last()) + match events.last() {
            ResponseEventModel::OutputTextDelta(text) => text,
            _ => Seq::empty(),
        }
    }
}

/// The text handed on while an answer is streamed is exactly the text by which its message grows.
pub proof fn law_streamed_text_is_the_message(
    state: ChatStreamModel,
    choices: Seq<ChatCompletionChoiceModel>,
)
    ensures
        after_choices(state, choices).assistant_text == state.assistant_text + streamed_text(
            text_events(choices),
        ),
    decreases choices.len(),
{
    let select = |choice: ChatCompletionChoiceModel|
        match new_text(choice) {
            Some(text) => Some(ResponseEventModel::OutputTextDelta(text)),
            None => None,
        };
    if choices.len() == 0 {
        reveal(Seq::filter_map);
        assert(choices.filter_map(select) =~= Seq::empty());
        assert(text_events(choices) =~= Seq::empty());
        assert(state.assistant_text + Seq::<char>::empty() =~= state.assistant_text);
    } else {
        let front = choices.drop_last();
        let n = front.len() as int;
        law_streamed_text_is_the_message(state, front);
        choices.lemma_filter_map_take_succ(select, n);
        assert(choices.take(n) =~= front);
        assert(choices.take(n + 1) =~= choices);
        let before = text_events(front);
        if let Some(text) = new_text(choices.last()) {
            let event = ResponseEventModel::OutputTextDelta(text);
            assert(text_events(choices) =~= before.push(event));
            assert(before.push(event).drop_last() =~= before);
            assert(streamed_text(text_events(choices)) =~= streamed_text(before) + text);
            assert(after_choices(state, choices).assistant_text =~= state.assistant_text
                + streamed_text(text_events(choices)));
        } else {
            assert(text_events(choices) =~= before);
        }
    }
}

/// An answer is completed exactly once, at its end.
pub proof fn law_completion_comes_last(state: ChatStreamModel)
    ensures
        closing_events(state).len() > 0,
        forall|i: int|
            0 <= i < closing_events(state).len() ==> ((
            #[trigger] closing_events(state)[i] is Completed) <==> i == closing_events(state).len()
                - 1),
{
    lemma_no_completion(state.tool_calls, state.tool_calls.len());
}

proof fn lemma_no_completion(calls: Seq<crate::chat_stream::AccumulatedToolCallModel>, n: nat)
    ensures
        forall|i: int|
            0 <= i < finished_calls(calls, n).len() ==> !(
            #[trigger] finished_calls(calls, n)[i] is Completed),
    decreases n,
{
    if n > 0 {
        lemma_no_completion(calls, (n - 1) as nat);
    }
}

} // verus!
