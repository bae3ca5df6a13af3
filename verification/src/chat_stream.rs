//! The streamed answer of the chat protocol, put together into response items.
use vstd::prelude::*;
use vstd::string::*;

use crate::chat::namespaced_name;
use crate::json::{Json, JsonModel};
use crate::lists::lemma_empty_content;
use crate::model::Modeled;
use crate::protocol::{ContentItem, ContentItemModel, ResponseItem, ResponseItemModel};
use crate::text::{
    chars_of, decimal, decimal_text, find_text, glue, glue3, occurs_at, occurs_in, same_text,
    text_of, trim_text, trimmed,
};

verus! {

/// The function part of a streamed tool call.
#[derive(Debug, PartialEq, Eq)]
pub struct ChatCompletionDeltaFunction {
    pub name: Option<String>,
    pub arguments: Option<String>,
}

/// The mathematical content of a [`ChatCompletionDeltaFunction`].
pub struct ChatCompletionDeltaFunctionModel {
    pub name: Option<Seq<char>>,
    pub arguments: Option<Seq<char>>,
}

impl DeepView for ChatCompletionDeltaFunction {
    type V = ChatCompletionDeltaFunctionModel;

    open spec fn deep_view(&self) -> ChatCompletionDeltaFunctionModel {
        ChatCompletionDeltaFunctionModel {
            name: self.name.deep_view(),
            arguments: self.arguments.deep_view(),
        }
    }
}

impl Modeled for ChatCompletionDeltaFunction {
    fn duplicate(&self) -> (r: Self) {
        ChatCompletionDeltaFunction {
            name: self.name.duplicate(),
            arguments: self.arguments.duplicate(),
        }
    }

    fn same(&self, other: &Self) -> (r: bool) {
        self.name.same(&other.name)
            && self.arguments.same(&other.arguments)
    }
}

impl Clone for ChatCompletionDeltaFunction {
    fn clone(&self) -> (r: Self)
        ensures
            r.deep_view() == self.deep_view(),
    {
        self.duplicate()
    }
}

/// A piece of a streamed tool call.
#[derive(Debug, PartialEq, Eq)]
pub struct ChatCompletionDeltaToolCall {
    pub index: Option<usize>,
    pub id: Option<String>,
    pub function: Option<ChatCompletionDeltaFunction>,
}

/// The mathematical content of a [`ChatCompletionDeltaToolCall`].
pub struct ChatCompletionDeltaToolCallModel {
    pub index: Option<usize>,
    pub id: Option<Seq<char>>,
    pub function: Option<ChatCompletionDeltaFunctionModel>,
}

impl DeepView for ChatCompletionDeltaToolCall {
    type V = ChatCompletionDeltaToolCallModel;

    open spec fn deep_view(&self) -> ChatCompletionDeltaToolCallModel {
        ChatCompletionDeltaToolCallModel {
            index: self.index.deep_view(),
            id: self.id.deep_view(),
            function: self.function.deep_view(),
        }
    }
}

impl Modeled for ChatCompletionDeltaToolCall {
    fn duplicate(&self) -> (r: Self) {
        ChatCompletionDeltaToolCall {
            index: self.index.duplicate(),
            id: self.id.duplicate(),
            function: self.function.duplicate(),
        }
    }

    fn same(&self, other: &Self) -> (r: bool) {
        self.index.same(&other.index)
            && self.id.same(&other.id)
            && self.function.same(&other.function)
    }
}

impl Clone for ChatCompletionDeltaToolCall {
    fn clone(&self) -> (r: Self)
        ensures
            r.deep_view() == self.deep_view(),
    {
        self.duplicate()
    }
}

/// A piece of a streamed answer.
#[derive(Debug, PartialEq, Eq)]
pub struct ChatCompletionDelta {
    pub content: Option<String>,
    pub tool_calls: Option<Vec<ChatCompletionDeltaToolCall>>,
}

/// The mathematical content of a [`ChatCompletionDelta`].
pub struct ChatCompletionDeltaModel {
    pub content: Option<Seq<char>>,
    pub tool_calls: Option<Seq<ChatCompletionDeltaToolCallModel>>,
}

impl DeepView for ChatCompletionDelta {
    type V = ChatCompletionDeltaModel;

    open spec fn deep_view(&self) -> ChatCompletionDeltaModel {
        ChatCompletionDeltaModel {
            content: self.content.deep_view(),
            tool_calls: self.tool_calls.deep_view(),
        }
    }
}

impl Modeled for ChatCompletionDelta {
    fn duplicate(&self) -> (r: Self) {
        ChatCompletionDelta {
            content: self.content.duplicate(),
            tool_calls: self.tool_calls.duplicate(),
        }
    }

    fn same(&self, other: &Self) -> (r: bool) {
        self.content.same(&other.content)
            && self.tool_calls.same(&other.tool_calls)
    }
}

impl Clone for ChatCompletionDelta {
    fn clone(&self) -> (r: Self)
        ensures
            r.deep_view() == self.deep_view(),
    {
        self.duplicate()
    }
}

/// One alternative of a chunk.
#[derive(Debug, PartialEq, Eq)]
pub struct ChatCompletionChoice {
    pub delta: ChatCompletionDelta,
}

/// The mathematical content of a [`ChatCompletionChoice`].
pub struct ChatCompletionChoiceModel {
    pub delta: ChatCompletionDeltaModel,
}

impl DeepView for ChatCompletionChoice {
    type V = ChatCompletionChoiceModel;

    open spec fn deep_view(&self) -> ChatCompletionChoiceModel {
        ChatCompletionChoiceModel {
            delta: self.delta.deep_view(),
        }
    }
}

impl Modeled for ChatCompletionChoice {
    fn duplicate(&self) -> (r: Self) {
        ChatCompletionChoice {
            delta: self.delta.duplicate(),
        }
    }

    fn same(&self, other: &Self) -> (r: bool) {
        self.delta.same(&other.delta)
    }
}

impl Clone for ChatCompletionChoice {
    fn clone(&self) -> (r: Self)
        ensures
            r.deep_view() == self.deep_view(),
    {
        self.duplicate()
    }
}

/// One chunk of a streamed answer.
#[derive(Debug, PartialEq, Eq)]
pub struct ChatCompletionChunk {
    pub id: Option<String>,
    pub choices: Vec<ChatCompletionChoice>,
}

/// The mathematical content of a [`ChatCompletionChunk`].
pub struct ChatCompletionChunkModel {
    pub id: Option<Seq<char>>,
    pub choices: Seq<ChatCompletionChoiceModel>,
}

impl DeepView for ChatCompletionChunk {
    type V = ChatCompletionChunkModel;

    open spec fn deep_view(&self) -> ChatCompletionChunkModel {
        ChatCompletionChunkModel {
            id: self.id.deep_view(),
            choices: self.choices.deep_view(),
        }
    }
}

impl Modeled for ChatCompletionChunk {
    fn duplicate(&self) -> (r: Self) {
        ChatCompletionChunk {
            id: self.id.duplicate(),
            choices: self.choices.duplicate(),
        }
    }

    fn same(&self, other: &Self) -> (r: bool) {
        self.id.same(&other.id)
            && self.choices.same(&other.choices)
    }
}

impl Clone for ChatCompletionChunk {
    fn clone(&self) -> (r: Self)
        ensures
            r.deep_view() == self.deep_view(),
    {
        self.duplicate()
    }
}

/// A tool call as far as it has been received.
#[derive(Debug, PartialEq, Eq)]
pub struct AccumulatedToolCall {
    pub id: String,
    pub name: String,
    pub arguments: String,
}

/// The mathematical content of a [`AccumulatedToolCall`].
pub struct AccumulatedToolCallModel {
    pub id: Seq<char>,
    pub name: Seq<char>,
    pub arguments: Seq<char>,
}

impl DeepView for AccumulatedToolCall {
    type V = AccumulatedToolCallModel;

    open spec fn deep_view(&self) -> AccumulatedToolCallModel {
        AccumulatedToolCallModel {
            id: self.id.deep_view(),
            name: self.name.deep_view(),
            arguments: self.arguments.deep_view(),
        }
    }
}

impl Modeled for AccumulatedToolCall {
    fn duplicate(&self) -> (r: Self) {
        AccumulatedToolCall {
            id: self.id.duplicate(),
            name: self.name.duplicate(),
            arguments: self.arguments.duplicate(),
        }
    }

    fn same(&self, other: &Self) -> (r: bool) {
        self.id.same(&other.id)
            && self.name.same(&other.name)
            && self.arguments.same(&other.arguments)
    }
}

impl Clone for AccumulatedToolCall {
    fn clone(&self) -> (r: Self)
        ensures
            r.deep_view() == self.deep_view(),
    {
        self.duplicate()
    }
}

/// What the network delivered next.
#[derive(Debug, PartialEq, Eq)]
pub enum SseInput {
    /// Nothing came for the given number of milliseconds.
    IdleTimeout { millis: u64 },
    /// The stream is at its end.
    End,
    /// The stream broke with the given error.
    Broken { error: String },
    /// An event came: its data, and the chunk that the data decodes to, if it does.
    Event { data: String, chunk: Option<ChatCompletionChunk> },
}

/// The mathematical content of a [`SseInput`].
pub enum SseInputModel {
    IdleTimeout { millis: u64 },
    End,
    Broken { error: Seq<char> },
    Event { data: Seq<char>, chunk: Option<ChatCompletionChunkModel> },
}

impl DeepView for SseInput {
    type V = SseInputModel;

    open spec fn deep_view(&self) -> SseInputModel {
        match self {
            SseInput::IdleTimeout { millis } => SseInputModel::IdleTimeout { millis: *millis },
            SseInput::End => SseInputModel::End,
            SseInput::Broken { error } => SseInputModel::Broken { error: error.deep_view() },
            SseInput::Event { data, chunk } => SseInputModel::Event {
                data: data.deep_view(),
                chunk: chunk.deep_view(),
            },
        }
    }
}

impl Modeled for SseInput {
    fn duplicate(&self) -> (r: Self) {
        match self {
            SseInput::IdleTimeout { millis } => SseInput::IdleTimeout { millis: *millis },
            SseInput::End => SseInput::End,
            SseInput::Broken { error } => SseInput::Broken { error: error.duplicate() },
            SseInput::Event { data, chunk } => SseInput::Event {
                data: data.duplicate(),
                chunk: chunk.duplicate(),
            },
        }
    }

    fn same(&self, other: &Self) -> (r: bool) {
        match (self, other) {
            (SseInput::IdleTimeout { millis }, SseInput::IdleTimeout { millis: millis_other }) => {
                *millis == *millis_other
            },
            (SseInput::End, SseInput::End) => true,
            (SseInput::Broken { error }, SseInput::Broken { error: error_other }) => error.same(
                error_other,
            ),
            (
                SseInput::Event { data, chunk },
                SseInput::Event { data: data_other, chunk: chunk_other },
            ) => data.same(data_other) && chunk.same(chunk_other),
            _ => false,
        }
    }
}

impl Clone for SseInput {
    fn clone(&self) -> (r: Self)
        ensures
            r.deep_view() == self.deep_view(),
    {
        self.duplicate()
    }
}

/// What is handed on to the reader of the answer.
#[derive(Debug, PartialEq, Eq)]
pub enum ResponseEvent {
    Created,
    OutputTextDelta(String),
    OutputItemDone(ResponseItem),
    /// The answer is complete. The chat protocol reports no token usage.
    Completed { response_id: String, token_usage: Option<Json>, end_turn: Option<bool> },
    /// The stream failed.
    Failed { message: String },
}

/// The mathematical content of a [`ResponseEvent`].
pub enum ResponseEventModel {
    Created,
    OutputTextDelta(Seq<char>),
    OutputItemDone(ResponseItemModel),
    Completed { response_id: Seq<char>, token_usage: Option<JsonModel>, end_turn: Option<bool> },
    Failed { message: Seq<char> },
}

impl DeepView for ResponseEvent {
    type V = ResponseEventModel;

    open spec fn deep_view(&self) -> ResponseEventModel {
        match self {
            ResponseEvent::Created => ResponseEventModel::Created,
            ResponseEvent::OutputTextDelta(x) => ResponseEventModel::OutputTextDelta(x.deep_view()),
            ResponseEvent::OutputItemDone(x) => ResponseEventModel::OutputItemDone(x.deep_view()),
            ResponseEvent::Completed { response_id, token_usage, end_turn } => {
                ResponseEventModel::Completed {
                    response_id: response_id.deep_view(),
                    token_usage: token_usage.deep_view(),
                    end_turn: end_turn.deep_view(),
                }
            },
            ResponseEvent::Failed { message } => ResponseEventModel::Failed {
                message: message.deep_view(),
            },
        }
    }
}

impl Modeled for ResponseEvent {
    fn duplicate(&self) -> (r: Self) {
        match self {
            ResponseEvent::Created => ResponseEvent::Created,
            ResponseEvent::OutputTextDelta(x) => ResponseEvent::OutputTextDelta(x.duplicate()),
            ResponseEvent::OutputItemDone(x) => ResponseEvent::OutputItemDone(x.duplicate()),
            ResponseEvent::Completed { response_id, token_usage, end_turn } => {
                ResponseEvent::Completed {
                    response_id: response_id.duplicate(),
                    token_usage: token_usage.duplicate(),
                    end_turn: end_turn.duplicate(),
                }
            },
            ResponseEvent::Failed { message } => ResponseEvent::Failed {
                message: message.duplicate(),
            },
        }
    }

    fn same(&self, other: &Self) -> (r: bool) {
        match (self, other) {
            (ResponseEvent::Created, ResponseEvent::Created) => true,
            (ResponseEvent::OutputTextDelta(x), ResponseEvent::OutputTextDelta(x_other)) => x.same(
                x_other,
            ),
            (ResponseEvent::OutputItemDone(x), ResponseEvent::OutputItemDone(x_other)) => x.same(
                x_other,
            ),
            (
                ResponseEvent::Completed { response_id, token_usage, end_turn },
                ResponseEvent::Completed {
                    response_id: response_id_other,
                    token_usage: token_usage_other,
                    end_turn: end_turn_other,
                },
            ) => {
                response_id.same(response_id_other)
                    && token_usage.same(token_usage_other)
                    && end_turn.same(end_turn_other)
            },
            (
                ResponseEvent::Failed { message },
                ResponseEvent::Failed { message: message_other },
            ) => message.same(message_other),
            _ => false,
        }
    }
}

impl Clone for ResponseEvent {
    fn clone(&self) -> (r: Self)
        ensures
            r.deep_view() == self.deep_view(),
    {
        self.duplicate()
    }
}

/// What has been received of an answer.
#[derive(Debug, PartialEq, Eq)]
pub struct ChatStream {
    pub response_id: Option<String>,
    pub tool_calls: Vec<AccumulatedToolCall>,
    pub assistant_text: String,
}

/// The mathematical content of a [`ChatStream`].
pub struct ChatStreamModel {
    pub response_id: Option<Seq<char>>,
    pub tool_calls: Seq<AccumulatedToolCallModel>,
    pub assistant_text: Seq<char>,
}

impl DeepView for ChatStream {
    type V = ChatStreamModel;

    open spec fn deep_view(&self) -> ChatStreamModel {
        ChatStreamModel {
            response_id: self.response_id.deep_view(),
            tool_calls: self.tool_calls.deep_view(),
            assistant_text: self.assistant_text.deep_view(),
        }
    }
}

impl Modeled for ChatStream {
    fn duplicate(&self) -> (r: Self) {
        ChatStream {
            response_id: self.response_id.duplicate(),
            tool_calls: self.tool_calls.duplicate(),
            assistant_text: self.assistant_text.duplicate(),
        }
    }

    fn same(&self, other: &Self) -> (r: bool) {
        self.response_id.same(&other.response_id)
            && self.tool_calls.same(&other.tool_calls)
            && self.assistant_text.same(&other.assistant_text)
    }
}

impl Clone for ChatStream {
    fn clone(&self) -> (r: Self)
        ensures
            r.deep_view() == self.deep_view(),
    {
        self.duplicate()
    }
}


// ---------------------------------------------------------------------------------------------
// Namespaced names

/// Where the separator first stands in a name.
pub open spec fn first_separator(name: Seq<char>, i: int) -> bool {
    occurs_at(name, "__"@, i) && forall|j: int| 0 <= j < i ==> !occurs_at(name, "__"@, j)
}

/// The namespace and the name behind a name of the chat protocol, split at the first separator.
pub open spec fn split_name(name: Seq<char>) -> (Option<Seq<char>>, Seq<char>) {
    if occurs_in(name, "__"@) {
        let i = choose|i: int| first_separator(name, i);
        (Some(name.take(i)), name.skip(i + "__"@.len()))
    } else {
        (None, name)
    }
}

/// There is only one first separator.
proof fn lemma_first_separator(name: Seq<char>, i: int)
    requires
        first_separator(name, i),
    ensures
        split_name(name) == (Some(name.take(i)), name.skip(i + "__"@.len())),
{
    let k = choose|k: int| first_separator(name, k);
    assert(occurs_at(name, "__"@, i));
    assert(k == i) by {
        if k < i {
            assert(!occurs_at(name, "__"@, k));
        }
        if i < k {
            assert(!occurs_at(name, "__"@, i));
        }
    }
}

/// Splits a name of the chat protocol at the first separator.
pub fn split_namespaced_tool_name(name: &str) -> (r: (Option<String>, String))
    ensures
        (r.0.deep_view(), r.1@) == split_name(name@),
{
    match find_text(name, "__") {
        Some(i) => {
            proof {
                reveal_strlit("__");
                lemma_first_separator(name@, i as int);
            }
            let v = chars_of(name);
            let n = v.len();
            assert(i + 2 <= n);
            let namespace = text_of(&v, 0, i);
            let tool = text_of(&v, i + 2, n);
            proof {
                assert(namespace@ =~= name@.take(i as int));
                assert(tool@ =~= name@.skip(i + 2));
            }
            (Some(namespace), tool)
        },
        None => (None, name.to_owned()),
    }
}

/// Splitting undoes joining where the namespace is not empty, holds no separator, and does not
/// end with half of one.
pub proof fn law_split_undoes_join(namespace: Seq<char>, name: Seq<char>)
    requires
        namespace.len() > 0,
        !occurs_in(namespace, "__"@),
        namespace.last() != '_',
    ensures
        split_name(namespaced_name(Some(namespace), name)) == (Some(namespace), name),
{
    reveal_strlit("__");
    let full = namespace + "__"@ + name;
    let n = namespace.len() as int;
    assert(full.subrange(n, n + 2) =~= "__"@);
    assert(occurs_at(full, "__"@, n));
    assert forall|j: int| 0 <= j < n implies !occurs_at(full, "__"@, j) by {
        if occurs_at(full, "__"@, j) {
            let piece = full.subrange(j, j + 2);
            assert(piece[0] == '_' && piece[1] == '_');
            assert(full[j] == '_');
            if j == n - 1 {
                assert(full[j] == namespace[j]);
            } else {
                assert(namespace.subrange(j, j + 2) =~= piece);
                assert(occurs_at(namespace, "__"@, j));
            }
        }
    }
    assert(first_separator(full, n));
    lemma_first_separator(full, n);
    assert(full.take(n) =~= namespace);
    assert(full.skip(n + 2) =~= name);
}

/// Joining undoes splitting where the name has a nonempty namespace or none.
pub proof fn law_join_undoes_split(name: Seq<char>)
    requires
        split_name(name).0 != Some(Seq::<char>::empty()),
    ensures
        namespaced_name(split_name(name).0, split_name(name).1) == name,
{
    reveal_strlit("__");
    if occurs_in(name, "__"@) {
        lemma_has_first_separator(name);
        let i = choose|i: int| first_separator(name, i);
        assert(occurs_at(name, "__"@, i));
        if i == 0 {
            assert(name.take(0) =~= Seq::empty());
        }
        assert(name.take(i) + "__"@ + name.skip(i + 2) =~= name);
    }
}

/// A name that holds the separator has a first one.
pub(crate) proof fn lemma_has_first_separator(name: Seq<char>)
    requires
        occurs_in(name, "__"@),
    ensures
        exists|i: int| first_separator(name, i),
{
    let k = choose|k: int| occurs_at(name, "__"@, k);
    lemma_first_separator_below(name, k);
}

proof fn lemma_first_separator_below(name: Seq<char>, k: int)
    requires
        occurs_at(name, "__"@, k),
    ensures
        exists|i: int| first_separator(name, i),
    decreases k,
{
    if exists|j: int| 0 <= j < k && occurs_at(name, "__"@, j) {
        let j = choose|j: int| 0 <= j < k && occurs_at(name, "__"@, j);
        lemma_first_separator_below(name, j);
    } else {
        assert(first_separator(name, k));
    }
}

// ---------------------------------------------------------------------------------------------
// Accumulation

/// A tool call of which nothing has been received.
pub open spec fn blank_call() -> AccumulatedToolCallModel {
    AccumulatedToolCallModel { id: Seq::empty(), name: Seq::empty(), arguments: Seq::empty() }
}

/// The calls, with blank ones behind them up to the given number.
pub open spec fn padded(calls: Seq<AccumulatedToolCallModel>, n: nat) -> Seq<
    AccumulatedToolCallModel,
> {
    if calls.len() >= n {
        calls
    } else {
        calls + Seq::new((n - calls.len()) as nat, |i: int| blank_call())
    }
}

/// A text with more of it, where more has come.
pub open spec fn extended(text: Seq<char>, more: Option<Seq<char>>) -> Seq<char> {
    match more {
        Some(more) => text + more,
        None => text,
    }
}

/// A call with one more piece: a new id replaces the old one, name and arguments grow.
pub open spec fn grown_call(
    call: AccumulatedToolCallModel,
    delta: ChatCompletionDeltaToolCallModel,
) -> AccumulatedToolCallModel {
    AccumulatedToolCallModel {
        id: match delta.id {
            Some(id) => id,
            None => call.id,
        },
        name: match delta.function {
            Some(function) => extended(call.name, function.name),
            None => call.name,
        },
        arguments: match delta.function {
            Some(function) => extended(call.arguments, function.arguments),
            None => call.arguments,
        },
    }
}

/// The position of the call that a piece belongs to: the one it names, or a new one.
pub open spec fn delta_index(
    calls: Seq<AccumulatedToolCallModel>,
    delta: ChatCompletionDeltaToolCallModel,
) -> nat {
    match delta.index {
        Some(index) => index as nat,
        None => calls.len(),
    }
}

/// The calls with one more piece.
pub open spec fn grown_calls(
    calls: Seq<AccumulatedToolCallModel>,
    delta: ChatCompletionDeltaToolCallModel,
) -> Seq<AccumulatedToolCallModel> {
    let index = delta_index(calls, delta);
    let room = padded(calls, index + 1);
    room.update(index as int, grown_call(room[index as int], delta))
}

/// The calls with many more pieces.
pub open spec fn all_grown(
    calls: Seq<AccumulatedToolCallModel>,
    deltas: Seq<ChatCompletionDeltaToolCallModel>,
) -> Seq<AccumulatedToolCallModel>
    decreases deltas.len(),
{
    if deltas.len() == 0 {
        calls
    } else {
        grown_calls(all_grown(calls, deltas.drop_last()), deltas.last())
    }
}

/// The new text of a choice, where it has any.
pub open spec fn new_text(choice: ChatCompletionChoiceModel) -> Option<Seq<char>> {
    match choice.delta.content {
        Some(content) => if content.len() > 0 {
            Some(content)
        } else {
            None
        },
        None => None,
    }
}

/// The stream after one choice.
pub open spec fn after_choice(
    state: ChatStreamModel,
    choice: ChatCompletionChoiceModel,
) -> ChatStreamModel {
    ChatStreamModel {
        response_id: state.response_id,
        tool_calls: match choice.delta.tool_calls {
            Some(deltas) => all_grown(state.tool_calls, deltas),
            None => state.tool_calls,
        },
        assistant_text: extended(state.assistant_text, new_text(choice)),
    }
}

/// The stream after many choices.
pub open spec fn after_choices(
    state: ChatStreamModel,
    choices: Seq<ChatCompletionChoiceModel>,
) -> ChatStreamModel
    decreases choices.len(),
{
    if choices.len() == 0 {
        state
    } else {
        after_choice(after_choices(state, choices.drop_last()), choices.last())
    }
}

/// The events that a chunk hands on at once: its new text.
pub open spec fn text_events(choices: Seq<ChatCompletionChoiceModel>) -> Seq<ResponseEventModel> {
    choices.filter_map(
        |choice: ChatCompletionChoiceModel|
            match new_text(choice) {
                Some(text) => Some(ResponseEventModel::OutputTextDelta(text)),
                None => None,
            },
    )
}

/// The stream after a chunk. The first id is kept.
pub open spec fn after_chunk(
    state: ChatStreamModel,
    chunk: ChatCompletionChunkModel,
) -> ChatStreamModel {
    after_choices(
        ChatStreamModel {
            response_id: if state.response_id is Some {
                state.response_id
            } else {
                chunk.id
            },
            ..state
        },
        chunk.choices,
    )
}

/// What one input does: the stream after it, the events that it hands on at once, and whether
/// more may follow.
pub open spec fn after_input(state: ChatStreamModel, input: SseInputModel) -> (
    ChatStreamModel,
    Seq<ResponseEventModel>,
    bool,
) {
    match input {
        SseInputModel::IdleTimeout { millis } => (
            state,
            seq![
                ResponseEventModel::Failed {
                    message: "stream idle timeout after "@ + decimal_text(millis as nat) + " ms"@,
                },
            ],
            false,
        ),
        SseInputModel::End => (state, Seq::empty(), false),
        SseInputModel::Broken { error } => (
            state,
            seq![
                ResponseEventModel::Failed { message: "chat completions SSE error: "@ + error },
            ],
            false,
        ),
        SseInputModel::Event { data, chunk } => if trim_text(data) == "[DONE]"@ {
            (state, Seq::empty(), false)
        } else {
            match chunk {
                None => (state, Seq::empty(), true),
                Some(chunk) => (after_chunk(state, chunk), text_events(chunk.choices), true),
            }
        },
    }
}

/// The item of a call at a position, where its name has come.
pub open spec fn finished_call(index: nat, call: AccumulatedToolCallModel) -> Option<
    ResponseEventModel,
> {
    if call.name.len() == 0 {
        None
    } else {
        let (namespace, name) = split_name(call.name);
        Some(
            ResponseEventModel::OutputItemDone(
                ResponseItemModel::FunctionCall {
                    id: None,
                    name,
                    namespace,
                    arguments: call.arguments,
                    call_id: if call.id.len() == 0 {
                        "call_chat_"@ + decimal_text(index)
                    } else {
                        call.id
                    },
                    internal_chat_message_metadata_passthrough: None,
                },
            ),
        )
    }
}

/// The items of the first `n` calls.
pub open spec fn finished_calls(calls: Seq<AccumulatedToolCallModel>, n: nat) -> Seq<
    ResponseEventModel,
>
    decreases n,
{
    if n == 0 {
        Seq::empty()
    } else {
        let before = finished_calls(calls, (n - 1) as nat);
        match finished_call((n - 1) as nat, calls[n - 1]) {
            Some(event) => before.push(event),
            None => before,
        }
    }
}

/// The message of the assistant, where it said anything.
pub open spec fn finished_text(text: Seq<char>) -> Seq<ResponseEventModel> {
    if text.len() == 0 {
        Seq::empty()
    } else {
        seq![
            ResponseEventModel::OutputItemDone(
                ResponseItemModel::Message {
                    id: None,
                    role: "assistant"@,
                    content: seq![ContentItemModel::OutputText { text }],
                    phase: None,
                    internal_chat_message_metadata_passthrough: None,
                },
            ),
        ]
    }
}

/// The events that end an answer: its message, its tool calls in order, and its completion.
pub open spec fn closing_events(state: ChatStreamModel) -> Seq<ResponseEventModel> {
    (finished_text(state.assistant_text) + finished_calls(
        state.tool_calls,
        state.tool_calls.len(),
    )).push(
        ResponseEventModel::Completed {
            response_id: match state.response_id {
                Some(id) => id,
                None => "chatcmpl"@,
            },
            token_usage: None,
            end_turn: Some(true),
        },
    )
}

/// Whether no piece of an input names a position beyond what memory can hold.
pub open spec fn input_in_bounds(input: SseInputModel) -> bool {
    input matches SseInputModel::Event { chunk: Some(chunk), .. } ==> choices_in_bounds(
        chunk.choices,
    )
}

/// Whether no piece of the choices names a position beyond what memory can hold.
pub open spec fn choices_in_bounds(choices: Seq<ChatCompletionChoiceModel>) -> bool {
    forall|i: int|
        0 <= i < choices.len() ==> (
        (#[trigger] choices[i]).delta.tool_calls matches Some(deltas) ==> deltas_in_bounds(deltas))
}

/// Whether no piece names a position beyond what memory can hold.
pub open spec fn deltas_in_bounds(deltas: Seq<ChatCompletionDeltaToolCallModel>) -> bool {
    forall|i: int|
        0 <= i < deltas.len() ==> ((#[trigger] deltas[i]).index matches Some(index) ==> index
            < usize::MAX)
}

impl ChatStream {
    /// A stream of which nothing has been received.
    pub fn new() -> (r: Self)
        ensures
            r.deep_view() == (ChatStreamModel {
                response_id: None,
                tool_calls: Seq::empty(),
                assistant_text: Seq::empty(),
            }),
    {
        let r = ChatStream {
            response_id: None,
            tool_calls: Vec::new(),
            assistant_text: String::new(),
        };
        proof {
            lemma_empty_content(r.tool_calls);
        }
        r
    }

    fn add_blank_call(&mut self)
        ensures
            final(self).response_id == old(self).response_id,
            final(self).assistant_text == old(self).assistant_text,
            final(self).tool_calls@.len() == old(self).tool_calls@.len() + 1,
            final(self).tool_calls.deep_view() == old(self).tool_calls.deep_view().push(
                blank_call(),
            ),
    {
        let ghost was = self.tool_calls.deep_view();
        let call = AccumulatedToolCall {
            id: String::new(),
            name: String::new(),
            arguments: String::new(),
        };
        proof {
            assert(call.deep_view().id =~= Seq::empty());
            assert(call.deep_view().name =~= Seq::empty());
            assert(call.deep_view().arguments =~= Seq::empty());
        }
        self.tool_calls.push(call);
        assert(self.tool_calls.deep_view() =~= was.push(blank_call()));
    }

    fn add_delta(&mut self, delta: &ChatCompletionDeltaToolCall)
        requires
            delta.index matches Some(index) ==> index < usize::MAX,
        ensures
            final(self).deep_view() == (ChatStreamModel {
                tool_calls: grown_calls(old(self).deep_view().tool_calls, delta.deep_view()),
                ..old(self).deep_view()
            }),
    {
        let ghost before = self.tool_calls.deep_view();
        let index: usize = match delta.index {
            None => {
                let index = self.tool_calls.len();
                self.add_blank_call();
                index
            },
            Some(index) => {
                while self.tool_calls.len() <= index
                    invariant
                        index < usize::MAX,
                        self.response_id == old(self).response_id,
                        self.assistant_text == old(self).assistant_text,
                        before.len() <= self.tool_calls@.len(),
                        self.tool_calls@.len() <= index + 1 || self.tool_calls@.len()
                            == before.len(),
                        self.tool_calls.deep_view() == padded(before, self.tool_calls@.len()),
                    decreases index + 1 - self.tool_calls.len(),
                {
                    self.add_blank_call();
                    assert(self.tool_calls.deep_view() =~= padded(before, self.tool_calls@.len()));
                }
                index
            },
        };
        let ghost room = self.tool_calls.deep_view();
        proof {
            assert(room =~= padded(before, (index + 1) as nat));
            assert(room[index as int] == self.tool_calls@[index as int].deep_view());
        }
        let mut call = self.tool_calls[index].duplicate();
        if let Some(id) = &delta.id {
            call.id = id.clone();
        }
        if let Some(function) = &delta.function {
            if let Some(name) = &function.name {
                call.name.append(name.as_str());
            }
            if let Some(arguments) = &function.arguments {
                call.arguments.append(arguments.as_str());
            }
        }
        let ghost grown = call.deep_view();
        self.tool_calls.set(index, call);
        assert(self.tool_calls.deep_view() =~= room.update(index as int, grown));
    }

    fn add_deltas(&mut self, deltas: &Vec<ChatCompletionDeltaToolCall>)
        requires
            deltas_in_bounds(deltas.deep_view()),
        ensures
            final(self).deep_view() == (ChatStreamModel {
                tool_calls: all_grown(old(self).deep_view().tool_calls, deltas.deep_view()),
                ..old(self).deep_view()
            }),
    {
        let ghost model = deltas.deep_view();
        let ghost before = self.deep_view();
        let mut i: usize = 0;
        assert(model.take(0) =~= Seq::empty());
        while i < deltas.len()
            invariant
                i <= deltas@.len(),
                model == deltas.deep_view(),
                model.len() == deltas@.len(),
                deltas_in_bounds(model),
                self.deep_view() == (ChatStreamModel {
                    tool_calls: all_grown(before.tool_calls, model.take(i as int)),
                    ..before
                }),
            decreases deltas.len() - i,
        {
            proof {
                assert(model[i as int] == deltas@[i as int].deep_view());
                assert(model.take(i + 1).drop_last() =~= model.take(i as int));
                assert(model.take(i + 1).last() == model[i as int]);
            }
            self.add_delta(&deltas[i]);
            i = i + 1;
        }
        assert(model.take(model.len() as int) =~= model);
    }

    fn add_choice(&mut self, choice: &ChatCompletionChoice) -> (r: Option<String>)
        requires
            choice.deep_view().delta.tool_calls matches Some(deltas) ==> deltas_in_bounds(deltas),
        ensures
            final(self).deep_view() == after_choice(old(self).deep_view(), choice.deep_view()),
            r.deep_view() == new_text(choice.deep_view()),
    {
        let mut text: Option<String> = None;
        if let Some(content) = &choice.delta.content {
            if !content.as_str().is_empty() {
                self.assistant_text.append(content.as_str());
                text = Some(content.clone());
            }
        }
        if let Some(deltas) = &choice.delta.tool_calls {
            self.add_deltas(deltas);
        }
        text
    }

    fn add_chunk(&mut self, chunk: &ChatCompletionChunk) -> (r: Vec<ResponseEvent>)
        requires
            choices_in_bounds(chunk.deep_view().choices),
        ensures
            final(self).deep_view() == after_chunk(old(self).deep_view(), chunk.deep_view()),
            r.deep_view() == text_events(chunk.deep_view().choices),
    {
        if self.response_id.is_none() {
            self.response_id = chunk.id.duplicate();
        }
        let ghost model = chunk.choices.deep_view();
        let ghost start = self.deep_view();
        let ghost select = |choice: ChatCompletionChoiceModel|
            match new_text(choice) {
                Some(text) => Some(ResponseEventModel::OutputTextDelta(text)),
                None => None,
            };
        let mut events: Vec<ResponseEvent> = Vec::new();
        let mut i: usize = 0;
        proof {
            lemma_empty_content(events);
            reveal(Seq::filter_map);
            assert(model.take(0) =~= Seq::empty());
            assert(model.take(0).filter_map(select) =~= Seq::empty());
        }
        while i < chunk.choices.len()
            invariant
                i <= chunk.choices@.len(),
                model == chunk.choices.deep_view(),
                model.len() == chunk.choices@.len(),
                choices_in_bounds(model),
                select == (|choice: ChatCompletionChoiceModel|
                    match new_text(choice) {
                        Some(text) => Some(ResponseEventModel::OutputTextDelta(text)),
                        None => None,
                    }),
                self.deep_view() == after_choices(start, model.take(i as int)),
                events.deep_view() == model.take(i as int).filter_map(select),
            decreases chunk.choices.len() - i,
        {
            let ghost before = events.deep_view();
            proof {
                assert(model[i as int] == chunk.choices@[i as int].deep_view());
                assert(model.take(i + 1).drop_last() =~= model.take(i as int));
                assert(model.take(i + 1).last() == model[i as int]);
                model.lemma_filter_map_take_succ(select, i as int);
            }
            if let Some(text) = self.add_choice(&chunk.choices[i]) {
                let event = ResponseEvent::OutputTextDelta(text);
                events.push(event);
                assert(events.deep_view() =~= before + seq![event.deep_view()]);
            }
            assert(events.deep_view() =~= model.take(i + 1).filter_map(select));
            i = i + 1;
        }
        proof {
            assert(model.take(model.len() as int) =~= model);
            assert(events.deep_view() =~= text_events(model));
        }
        events
    }

    /// Takes the next input of the stream. Gives the events that are handed on at once, and
    /// whether more input may follow. Data that is no chunk is passed over.
    pub fn accept(&mut self, input: &SseInput) -> (r: (Vec<ResponseEvent>, bool))
        requires
            input_in_bounds(input.deep_view()),
        ensures
            (final(self).deep_view(), r.0.deep_view(), r.1) == after_input(
                old(self).deep_view(),
                input.deep_view(),
            ),
    {
        let mut events: Vec<ResponseEvent> = Vec::new();
        proof {
            lemma_empty_content(events);
        }
        match input {
            SseInput::IdleTimeout { millis } => {
                let event = ResponseEvent::Failed {
                    message: glue3(
                        "stream idle timeout after ",
                        decimal(*millis).as_str(),
                        " ms",
                    ),
                };
                events.push(event);
                assert(events.deep_view() =~= seq![event.deep_view()]);
                (events, false)
            },
            SseInput::End => (events, false),
            SseInput::Broken { error } => {
                let event = ResponseEvent::Failed {
                    message: glue("chat completions SSE error: ", error.as_str()),
                };
                events.push(event);
                assert(events.deep_view() =~= seq![event.deep_view()]);
                (events, false)
            },
            SseInput::Event { data, chunk } => {
                if same_text(trimmed(data.as_str()).as_str(), "[DONE]") {
                    return (events, false);
                }
                match chunk {
                    None => (events, true),
                    Some(chunk) => (self.add_chunk(chunk), true),
                }
            },
        }
    }

    /// Ends the answer: its message, its tool calls in order, and its completion.
    pub fn finish(self) -> (r: Vec<ResponseEvent>)
        ensures
            r.deep_view() == closing_events(self.deep_view()),
    {
        let ghost state = self.deep_view();
        let ghost calls = self.tool_calls.deep_view();
        let mut events: Vec<ResponseEvent> = Vec::new();
        proof {
            lemma_empty_content(events);
        }
        if !self.assistant_text.as_str().is_empty() {
            let mut content: Vec<ContentItem> = Vec::new();
            content.push(ContentItem::OutputText { text: self.assistant_text.clone() });
            assert(content.deep_view() =~= seq![
                ContentItemModel::OutputText { text: self.assistant_text@ },
            ]);
            let event = ResponseEvent::OutputItemDone(
                ResponseItem::Message {
                    id: None,
                    role: "assistant".to_string(),
                    content,
                    phase: None,
                    internal_chat_message_metadata_passthrough: None,
                },
            );
            events.push(event);
            assert(events.deep_view() =~= seq![event.deep_view()]);
        }
        let ghost head = finished_text(state.assistant_text);
        assert(events.deep_view() =~= head);
        let mut i: usize = 0;
        assert(events.deep_view() =~= head + finished_calls(calls, 0));
        while i < self.tool_calls.len()
            invariant
                i <= self.tool_calls@.len(),
                calls == self.tool_calls.deep_view(),
                calls.len() == self.tool_calls@.len(),
                events.deep_view() == head + finished_calls(calls, i as nat),
            decreases self.tool_calls.len() - i,
        {
            let call = &self.tool_calls[i];
            assert(calls[i as int] == call.deep_view());
            let ghost before = events.deep_view();
            if !call.name.as_str().is_empty() {
                let call_id = if call.id.as_str().is_empty() {
                    glue("call_chat_", decimal(i as u64).as_str())
                } else {
                    call.id.clone()
                };
                let (namespace, name) = split_namespaced_tool_name(call.name.as_str());
                let event = ResponseEvent::OutputItemDone(
                    ResponseItem::FunctionCall {
                        id: None,
                        name,
                        namespace,
                        arguments: call.arguments.clone(),
                        call_id,
                        internal_chat_message_metadata_passthrough: None,
                    },
                );
                events.push(event);
                proof {
                    assert(events.deep_view() =~= before.push(event.deep_view()));
                    assert(events.deep_view() =~= head + finished_calls(calls, (i + 1) as nat));
                }
            }
            i = i + 1;
        }
        let ghost before = events.deep_view();
        let response_id = match self.response_id {
            Some(id) => id,
            None => "chatcmpl".to_string(),
        };
        let event = ResponseEvent::Completed {
            response_id,
            token_usage: None,
            end_turn: Some(true),
        };
        events.push(event);
        assert(events.deep_view() =~= before.push(event.deep_view()));
        events
    }
}

} // verus!
