//! One turn from its prompt to its end, as a machine that is told what happened and says what to
//! do next.
use vstd::prelude::*;

use crate::bridge::{
    discovery_json, emit, emit_debug_stage, emit_item_started_events, error_json, event_of,
    ios_error_payload, item_started_events, tool_discovery_event_json, BridgeEvent,
    BridgeEventModel, ErrorEvent, ErrorEventModel, KIND_CONTEXT_COMPACTED, KIND_DYNAMIC_TOOL_CALL,
    KIND_ERROR, KIND_HISTORY, KIND_ITEM_COMPLETED, KIND_RAW_RESPONSE_COMPLETED,
    KIND_REASONING_BREAK, KIND_REASONING_DELTA, KIND_STARTUP_STAGE, KIND_STRUCTURED_ERROR,
    KIND_TEXT_DELTA, KIND_TOKEN_COUNT, KIND_TOOL_CALL, KIND_TOOL_DISCOVERY, KIND_TURN_ABORTED,
    KIND_TURN_READY,
};
use crate::commands::{ToolReply, ToolReplyModel};
use crate::dynamic_tools::shows_image;
use crate::json::{
    add_member, array_of, member, members_of, object1, object2, object3, object_of, text_or_null,
    Json, JsonModel, Member,
};
use crate::json_text::{json_document, json_text};
use crate::lists::{lemma_empty_content, outcome};
use crate::model::Modeled;
use crate::protocol::{ResponseItem, ResponseItemModel};
use crate::text::{after_prefix, decimal, decimal_text, glue, pieces, split_on, trim_text, trimmed};

verus! {

/// What the runtime reports of a turn.
#[derive(Debug, PartialEq, Eq)]
#[allow(inconsistent_fields)]
pub enum TurnMsg {
    /// An item started. The item in JSON, where it could be encoded.
    ItemStarted { json: Option<String>, is_compaction: bool },
    ItemCompleted { json: Option<String> },
    ExecApprovalRequest { approval_id: String, turn_id: String },
    ApplyPatchApprovalRequest { call_id: String },
    ReasoningContentDelta { summary_index: i64, delta: String },
    AgentReasoningSectionBreak,
    ReasoningRawContentDelta { delta: String },
    RawResponseItem { item: ResponseItem },
    WebSearchEnd { search: Json },
    AgentMessageContentDelta { delta: String },
    AgentMessage { message: String },
    ContextCompacted,
    TokenCount { json: Option<String>, rate_limits: Option<Json> },
    RawResponseCompleted { json: Option<String> },
    DynamicToolCallRequest {
        call_id: String,
        tool: String,
        namespace: Option<String>,
        arguments: Json,
    },
    Error { error: ErrorEvent },
    TurnAborted { turn_id: Option<String> },
    TurnComplete { turn_id: String, failed: bool },
    Other,
}

/// The mathematical content of a [`TurnMsg`].
#[allow(inconsistent_fields)]
pub enum TurnMsgModel {
    ItemStarted { json: Option<Seq<char>>, is_compaction: bool },
    ItemCompleted { json: Option<Seq<char>> },
    ExecApprovalRequest { approval_id: Seq<char>, turn_id: Seq<char> },
    ApplyPatchApprovalRequest { call_id: Seq<char> },
    ReasoningContentDelta { summary_index: i64, delta: Seq<char> },
    AgentReasoningSectionBreak,
    ReasoningRawContentDelta { delta: Seq<char> },
    RawResponseItem { item: ResponseItemModel },
    WebSearchEnd { search: JsonModel },
    AgentMessageContentDelta { delta: Seq<char> },
    AgentMessage { message: Seq<char> },
    ContextCompacted,
    TokenCount { json: Option<Seq<char>>, rate_limits: Option<JsonModel> },
    RawResponseCompleted { json: Option<Seq<char>> },
    DynamicToolCallRequest {
        call_id: Seq<char>,
        tool: Seq<char>,
        namespace: Option<Seq<char>>,
        arguments: JsonModel,
    },
    Error { error: ErrorEventModel },
    TurnAborted { turn_id: Option<Seq<char>> },
    TurnComplete { turn_id: Seq<char>, failed: bool },
    Other,
}

impl DeepView for TurnMsg {
    type V = TurnMsgModel;

    open spec fn deep_view(&self) -> TurnMsgModel {
        match self {
            TurnMsg::ItemStarted { json, is_compaction } => TurnMsgModel::ItemStarted {
                json: json.deep_view(),
                is_compaction: *is_compaction,
            },
            TurnMsg::ItemCompleted { json } => TurnMsgModel::ItemCompleted {
                json: json.deep_view(),
            },
            TurnMsg::ExecApprovalRequest { approval_id, turn_id } => {
                TurnMsgModel::ExecApprovalRequest {
                    approval_id: approval_id.deep_view(),
                    turn_id: turn_id.deep_view(),
                }
            },
            TurnMsg::ApplyPatchApprovalRequest { call_id } => {
                TurnMsgModel::ApplyPatchApprovalRequest { call_id: call_id.deep_view() }
            },
            TurnMsg::ReasoningContentDelta { summary_index, delta } => {
                TurnMsgModel::ReasoningContentDelta {
                    summary_index: *summary_index,
                    delta: delta.deep_view(),
                }
            },
            TurnMsg::AgentReasoningSectionBreak => TurnMsgModel::AgentReasoningSectionBreak,
            TurnMsg::ReasoningRawContentDelta { delta } => TurnMsgModel::ReasoningRawContentDelta {
                delta: delta.deep_view(),
            },
            TurnMsg::RawResponseItem { item } => TurnMsgModel::RawResponseItem {
                item: item.deep_view(),
            },
            TurnMsg::WebSearchEnd { search } => TurnMsgModel::WebSearchEnd {
                search: search.deep_view(),
            },
            TurnMsg::AgentMessageContentDelta { delta } => TurnMsgModel::AgentMessageContentDelta {
                delta: delta.deep_view(),
            },
            TurnMsg::AgentMessage { message } => TurnMsgModel::AgentMessage {
                message: message.deep_view(),
            },
            TurnMsg::ContextCompacted => TurnMsgModel::ContextCompacted,
            TurnMsg::TokenCount { json, rate_limits } => TurnMsgModel::TokenCount {
                json: json.deep_view(),
                rate_limits: rate_limits.deep_view(),
            },
            TurnMsg::RawResponseCompleted { json } => TurnMsgModel::RawResponseCompleted {
                json: json.deep_view(),
            },
            TurnMsg::DynamicToolCallRequest { call_id, tool, namespace, arguments } => {
                TurnMsgModel::DynamicToolCallRequest {
                    call_id: call_id.deep_view(),
                    tool: tool.deep_view(),
                    namespace: namespace.deep_view(),
                    arguments: arguments.deep_view(),
                }
            },
            TurnMsg::Error { error } => TurnMsgModel::Error { error: error.deep_view() },
            TurnMsg::TurnAborted { turn_id } => TurnMsgModel::TurnAborted {
                turn_id: turn_id.deep_view(),
            },
            TurnMsg::TurnComplete { turn_id, failed } => TurnMsgModel::TurnComplete {
                turn_id: turn_id.deep_view(),
                failed: *failed,
            },
            TurnMsg::Other => TurnMsgModel::Other,
        }
    }
}

impl Modeled for TurnMsg {
    fn duplicate(&self) -> (r: Self) {
        match self {
            TurnMsg::ItemStarted { json, is_compaction } => TurnMsg::ItemStarted {
                json: json.duplicate(),
                is_compaction: *is_compaction,
            },
            TurnMsg::ItemCompleted { json } => TurnMsg::ItemCompleted { json: json.duplicate() },
            TurnMsg::ExecApprovalRequest { approval_id, turn_id } => TurnMsg::ExecApprovalRequest {
                approval_id: approval_id.duplicate(),
                turn_id: turn_id.duplicate(),
            },
            TurnMsg::ApplyPatchApprovalRequest { call_id } => TurnMsg::ApplyPatchApprovalRequest {
                call_id: call_id.duplicate(),
            },
            TurnMsg::ReasoningContentDelta { summary_index, delta } => {
                TurnMsg::ReasoningContentDelta {
                    summary_index: *summary_index,
                    delta: delta.duplicate(),
                }
            },
            TurnMsg::AgentReasoningSectionBreak => TurnMsg::AgentReasoningSectionBreak,
            TurnMsg::ReasoningRawContentDelta { delta } => TurnMsg::ReasoningRawContentDelta {
                delta: delta.duplicate(),
            },
            TurnMsg::RawResponseItem { item } => TurnMsg::RawResponseItem {
                item: item.duplicate(),
            },
            TurnMsg::WebSearchEnd { search } => TurnMsg::WebSearchEnd {
                search: search.duplicate(),
            },
            TurnMsg::AgentMessageContentDelta { delta } => TurnMsg::AgentMessageContentDelta {
                delta: delta.duplicate(),
            },
            TurnMsg::AgentMessage { message } => TurnMsg::AgentMessage {
                message: message.duplicate(),
            },
            TurnMsg::ContextCompacted => TurnMsg::ContextCompacted,
            TurnMsg::TokenCount { json, rate_limits } => TurnMsg::TokenCount {
                json: json.duplicate(),
                rate_limits: rate_limits.duplicate(),
            },
            TurnMsg::RawResponseCompleted { json } => TurnMsg::RawResponseCompleted {
                json: json.duplicate(),
            },
            TurnMsg::DynamicToolCallRequest { call_id, tool, namespace, arguments } => {
                TurnMsg::DynamicToolCallRequest {
                    call_id: call_id.duplicate(),
                    tool: tool.duplicate(),
                    namespace: namespace.duplicate(),
                    arguments: arguments.duplicate(),
                }
            },
            TurnMsg::Error { error } => TurnMsg::Error { error: error.duplicate() },
            TurnMsg::TurnAborted { turn_id } => TurnMsg::TurnAborted {
                turn_id: turn_id.duplicate(),
            },
            TurnMsg::TurnComplete { turn_id, failed } => TurnMsg::TurnComplete {
                turn_id: turn_id.duplicate(),
                failed: *failed,
            },
            TurnMsg::Other => TurnMsg::Other,
        }
    }

    fn same(&self, other: &Self) -> (r: bool) {
        match (self, other) {
            (
                TurnMsg::ItemStarted { json, is_compaction },
                TurnMsg::ItemStarted { json: json_other, is_compaction: is_compaction_other },
            ) => json.same(json_other) && *is_compaction == *is_compaction_other,
            (TurnMsg::ItemCompleted { json }, TurnMsg::ItemCompleted { json: json_other }) => {
                json.same(json_other)
            },
            (
                TurnMsg::ExecApprovalRequest { approval_id, turn_id },
                TurnMsg::ExecApprovalRequest {
                    approval_id: approval_id_other,
                    turn_id: turn_id_other,
                },
            ) => approval_id.same(approval_id_other) && turn_id.same(turn_id_other),
            (
                TurnMsg::ApplyPatchApprovalRequest { call_id },
                TurnMsg::ApplyPatchApprovalRequest { call_id: call_id_other },
            ) => call_id.same(call_id_other),
            (
                TurnMsg::ReasoningContentDelta { summary_index, delta },
                TurnMsg::ReasoningContentDelta {
                    summary_index: summary_index_other,
                    delta: delta_other,
                },
            ) => *summary_index == *summary_index_other && delta.same(delta_other),
            (TurnMsg::AgentReasoningSectionBreak, TurnMsg::AgentReasoningSectionBreak) => true,
            (
                TurnMsg::ReasoningRawContentDelta { delta },
                TurnMsg::ReasoningRawContentDelta { delta: delta_other },
            ) => delta.same(delta_other),
            (TurnMsg::RawResponseItem { item }, TurnMsg::RawResponseItem { item: item_other }) => {
                item.same(item_other)
            },
            (TurnMsg::WebSearchEnd { search }, TurnMsg::WebSearchEnd { search: search_other }) => {
                search.same(search_other)
            },
            (
                TurnMsg::AgentMessageContentDelta { delta },
                TurnMsg::AgentMessageContentDelta { delta: delta_other },
            ) => delta.same(delta_other),
            (
                TurnMsg::AgentMessage { message },
                TurnMsg::AgentMessage { message: message_other },
            ) => message.same(message_other),
            (TurnMsg::ContextCompacted, TurnMsg::ContextCompacted) => true,
            (
                TurnMsg::TokenCount { json, rate_limits },
                TurnMsg::TokenCount { json: json_other, rate_limits: rate_limits_other },
            ) => json.same(json_other) && rate_limits.same(rate_limits_other),
            (
                TurnMsg::RawResponseCompleted { json },
                TurnMsg::RawResponseCompleted { json: json_other },
            ) => json.same(json_other),
            (
                TurnMsg::DynamicToolCallRequest { call_id, tool, namespace, arguments },
                TurnMsg::DynamicToolCallRequest {
                    call_id: call_id_other,
                    tool: tool_other,
                    namespace: namespace_other,
                    arguments: arguments_other,
                },
            ) => {
                call_id.same(call_id_other)
                    && tool.same(tool_other)
                    && namespace.same(namespace_other)
                    && arguments.same(arguments_other)
            },
            (TurnMsg::Error { error }, TurnMsg::Error { error: error_other }) => error.same(
                error_other,
            ),
            (
                TurnMsg::TurnAborted { turn_id },
                TurnMsg::TurnAborted { turn_id: turn_id_other },
            ) => turn_id.same(turn_id_other),
            (
                TurnMsg::TurnComplete { turn_id, failed },
                TurnMsg::TurnComplete { turn_id: turn_id_other, failed: failed_other },
            ) => turn_id.same(turn_id_other) && *failed == *failed_other,
            (TurnMsg::Other, TurnMsg::Other) => true,
            _ => false,
        }
    }
}

impl Clone for TurnMsg {
    fn clone(&self) -> (r: Self)
        ensures
            r.deep_view() == self.deep_view(),
    {
        self.duplicate()
    }
}

/// A report of the runtime, with the turn that it belongs to.
#[derive(Debug, PartialEq, Eq)]
pub struct TurnEvent {
    pub id: String,
    pub msg: TurnMsg,
}

/// The mathematical content of a [`TurnEvent`].
pub struct TurnEventModel {
    pub id: Seq<char>,
    pub msg: TurnMsgModel,
}

impl DeepView for TurnEvent {
    type V = TurnEventModel;

    open spec fn deep_view(&self) -> TurnEventModel {
        TurnEventModel {
            id: self.id.deep_view(),
            msg: self.msg.deep_view(),
        }
    }
}

impl Modeled for TurnEvent {
    fn duplicate(&self) -> (r: Self) {
        TurnEvent {
            id: self.id.duplicate(),
            msg: self.msg.duplicate(),
        }
    }

    fn same(&self, other: &Self) -> (r: bool) {
        self.id.same(&other.id)
            && self.msg.same(&other.msg)
    }
}

impl Clone for TurnEvent {
    fn clone(&self) -> (r: Self)
        ensures
            r.deep_view() == self.deep_view(),
    {
        self.duplicate()
    }
}

/// What became of handing something to the runtime.
#[derive(Debug, PartialEq, Eq)]
pub enum SubmitOutcome {
    /// It was taken, under this id.
    Done(String),
    Failed(String),
    TimedOut,
}

/// The mathematical content of a [`SubmitOutcome`].
pub enum SubmitOutcomeModel {
    Done(Seq<char>),
    Failed(Seq<char>),
    TimedOut,
}

impl DeepView for SubmitOutcome {
    type V = SubmitOutcomeModel;

    open spec fn deep_view(&self) -> SubmitOutcomeModel {
        match self {
            SubmitOutcome::Done(x) => SubmitOutcomeModel::Done(x.deep_view()),
            SubmitOutcome::Failed(x) => SubmitOutcomeModel::Failed(x.deep_view()),
            SubmitOutcome::TimedOut => SubmitOutcomeModel::TimedOut,
        }
    }
}

impl Modeled for SubmitOutcome {
    fn duplicate(&self) -> (r: Self) {
        match self {
            SubmitOutcome::Done(x) => SubmitOutcome::Done(x.duplicate()),
            SubmitOutcome::Failed(x) => SubmitOutcome::Failed(x.duplicate()),
            SubmitOutcome::TimedOut => SubmitOutcome::TimedOut,
        }
    }

    fn same(&self, other: &Self) -> (r: bool) {
        match (self, other) {
            (SubmitOutcome::Done(x), SubmitOutcome::Done(x_other)) => x.same(x_other),
            (SubmitOutcome::Failed(x), SubmitOutcome::Failed(x_other)) => x.same(x_other),
            (SubmitOutcome::TimedOut, SubmitOutcome::TimedOut) => true,
            _ => false,
        }
    }
}

impl Clone for SubmitOutcome {
    fn clone(&self) -> (r: Self)
        ensures
            r.deep_view() == self.deep_view(),
    {
        self.duplicate()
    }
}

/// What a turn waits for.
#[derive(Clone, Copy, Debug, PartialEq, Eq, Structural)]
pub enum Phase {
    /// The prompt is being handed over.
    Prompting,
    /// The prompt was handed over, and the turn is being made active.
    Activating,
    /// Handing the prompt over took too long, and the turn is being made active.
    ActivatingAfterTimeout,
    /// The turn is being cancelled right after its prompt.
    Cancelling,
    /// Events come in.
    Streaming,
    /// The turn is paused until the host answers a tool call.
    AwaitingTool,
    /// An answer of the host is being handed over.
    SubmittingReply,
    /// An answer of the host that shows an image is being handed over.
    SubmittingImageReply,
    /// An interrupt is being requested.
    Interrupting,
    Finished,
}

impl DeepView for Phase {
    type V = Phase;

    open spec fn deep_view(&self) -> Phase {
        *self
    }
}

impl Modeled for Phase {
    fn duplicate(&self) -> (r: Self) {
        *self
    }

    fn same(&self, other: &Self) -> (r: bool) {
        *self == *other
    }
}

/// What happened next.
#[derive(Debug, PartialEq, Eq)]
#[allow(inconsistent_fields)]
pub enum LoopInput {
    PromptSubmitted(SubmitOutcome),
    Activated { interrupted: bool },
    ActivationFailed { problem: String },
    /// The runtime was told to cancel. The error, if there was one.
    CancelSubmitted { error: Option<String> },
    Event(TurnEvent),
    StreamFailed { error: String },
    TimedOut,
    ReplyReceived(ToolReply),
    ReplyChannelClosed,
    ReplySubmitted(SubmitOutcome),
    /// An interrupt was requested. The problem, if there was one.
    InterruptRequested { problem: Option<String> },
}

/// The mathematical content of a [`LoopInput`].
#[allow(inconsistent_fields)]
pub enum LoopInputModel {
    PromptSubmitted(SubmitOutcomeModel),
    Activated { interrupted: bool },
    ActivationFailed { problem: Seq<char> },
    CancelSubmitted { error: Option<Seq<char>> },
    Event(TurnEventModel),
    StreamFailed { error: Seq<char> },
    TimedOut,
    ReplyReceived(ToolReplyModel),
    ReplyChannelClosed,
    ReplySubmitted(SubmitOutcomeModel),
    InterruptRequested { problem: Option<Seq<char>> },
}

impl DeepView for LoopInput {
    type V = LoopInputModel;

    open spec fn deep_view(&self) -> LoopInputModel {
        match self {
            LoopInput::PromptSubmitted(x) => LoopInputModel::PromptSubmitted(x.deep_view()),
            LoopInput::Activated { interrupted } => LoopInputModel::Activated {
                interrupted: *interrupted,
            },
            LoopInput::ActivationFailed { problem } => LoopInputModel::ActivationFailed {
                problem: problem.deep_view(),
            },
            LoopInput::CancelSubmitted { error } => LoopInputModel::CancelSubmitted {
                error: error.deep_view(),
            },
            LoopInput::Event(x) => LoopInputModel::Event(x.deep_view()),
            LoopInput::StreamFailed { error } => LoopInputModel::StreamFailed {
                error: error.deep_view(),
            },
            LoopInput::TimedOut => LoopInputModel::TimedOut,
            LoopInput::ReplyReceived(x) => LoopInputModel::ReplyReceived(x.deep_view()),
            LoopInput::ReplyChannelClosed => LoopInputModel::ReplyChannelClosed,
            LoopInput::ReplySubmitted(x) => LoopInputModel::ReplySubmitted(x.deep_view()),
            LoopInput::InterruptRequested { problem } => LoopInputModel::InterruptRequested {
                problem: problem.deep_view(),
            },
        }
    }
}

impl Modeled for LoopInput {
    fn duplicate(&self) -> (r: Self) {
        match self {
            LoopInput::PromptSubmitted(x) => LoopInput::PromptSubmitted(x.duplicate()),
            LoopInput::Activated { interrupted } => LoopInput::Activated {
                interrupted: *interrupted,
            },
            LoopInput::ActivationFailed { problem } => LoopInput::ActivationFailed {
                problem: problem.duplicate(),
            },
            LoopInput::CancelSubmitted { error } => LoopInput::CancelSubmitted {
                error: error.duplicate(),
            },
            LoopInput::Event(x) => LoopInput::Event(x.duplicate()),
            LoopInput::StreamFailed { error } => LoopInput::StreamFailed {
                error: error.duplicate(),
            },
            LoopInput::TimedOut => LoopInput::TimedOut,
            LoopInput::ReplyReceived(x) => LoopInput::ReplyReceived(x.duplicate()),
            LoopInput::ReplyChannelClosed => LoopInput::ReplyChannelClosed,
            LoopInput::ReplySubmitted(x) => LoopInput::ReplySubmitted(x.duplicate()),
            LoopInput::InterruptRequested { problem } => LoopInput::InterruptRequested {
                problem: problem.duplicate(),
            },
        }
    }

    fn same(&self, other: &Self) -> (r: bool) {
        match (self, other) {
            (LoopInput::PromptSubmitted(x), LoopInput::PromptSubmitted(x_other)) => x.same(x_other),
            (
                LoopInput::Activated { interrupted },
                LoopInput::Activated { interrupted: interrupted_other },
            ) => *interrupted == *interrupted_other,
            (
                LoopInput::ActivationFailed { problem },
                LoopInput::ActivationFailed { problem: problem_other },
            ) => problem.same(problem_other),
            (
                LoopInput::CancelSubmitted { error },
                LoopInput::CancelSubmitted { error: error_other },
            ) => error.same(error_other),
            (LoopInput::Event(x), LoopInput::Event(x_other)) => x.same(x_other),
            (
                LoopInput::StreamFailed { error },
                LoopInput::StreamFailed { error: error_other },
            ) => error.same(error_other),
            (LoopInput::TimedOut, LoopInput::TimedOut) => true,
            (LoopInput::ReplyReceived(x), LoopInput::ReplyReceived(x_other)) => x.same(x_other),
            (LoopInput::ReplyChannelClosed, LoopInput::ReplyChannelClosed) => true,
            (LoopInput::ReplySubmitted(x), LoopInput::ReplySubmitted(x_other)) => x.same(x_other),
            (
                LoopInput::InterruptRequested { problem },
                LoopInput::InterruptRequested { problem: problem_other },
            ) => problem.same(problem_other),
            _ => false,
        }
    }
}

impl Clone for LoopInput {
    fn clone(&self) -> (r: Self)
        ensures
            r.deep_view() == self.deep_view(),
    {
        self.duplicate()
    }
}

/// What is to be done next.
#[derive(Debug, PartialEq, Eq)]
pub enum Action {
    Emit(BridgeEvent),
    /// Hand the prompt over, within a limit of time where asked for.
    SubmitPrompt { timed: bool },
    /// Make the turn active.
    Activate,
    /// Tell the runtime to cancel what was submitted.
    Cancel,
    ApproveExec { id: String, turn_id: String },
    ApprovePatch { id: String },
    /// Hand an answer of the host over, within a limit of time where asked for.
    SubmitReply { reply: ToolReply, timed: bool },
    /// Request an interrupt of the turn.
    RequestInterrupt,
    /// End the turn. The problem, if there was one.
    Finish { problem: Option<String> },
}

/// The mathematical content of a [`Action`].
pub enum ActionModel {
    Emit(BridgeEventModel),
    SubmitPrompt { timed: bool },
    Activate,
    Cancel,
    ApproveExec { id: Seq<char>, turn_id: Seq<char> },
    ApprovePatch { id: Seq<char> },
    SubmitReply { reply: ToolReplyModel, timed: bool },
    RequestInterrupt,
    Finish { problem: Option<Seq<char>> },
}

impl DeepView for Action {
    type V = ActionModel;

    open spec fn deep_view(&self) -> ActionModel {
        match self {
            Action::Emit(x) => ActionModel::Emit(x.deep_view()),
            Action::SubmitPrompt { timed } => ActionModel::SubmitPrompt { timed: *timed },
            Action::Activate => ActionModel::Activate,
            Action::Cancel => ActionModel::Cancel,
            Action::ApproveExec { id, turn_id } => ActionModel::ApproveExec {
                id: id.deep_view(),
                turn_id: turn_id.deep_view(),
            },
            Action::ApprovePatch { id } => ActionModel::ApprovePatch { id: id.deep_view() },
            Action::SubmitReply { reply, timed } => ActionModel::SubmitReply {
                reply: reply.deep_view(),
                timed: *timed,
            },
            Action::RequestInterrupt => ActionModel::RequestInterrupt,
            Action::Finish { problem } => ActionModel::Finish { problem: problem.deep_view() },
        }
    }
}

impl Modeled for Action {
    fn duplicate(&self) -> (r: Self) {
        match self {
            Action::Emit(x) => Action::Emit(x.duplicate()),
            Action::SubmitPrompt { timed } => Action::SubmitPrompt { timed: *timed },
            Action::Activate => Action::Activate,
            Action::Cancel => Action::Cancel,
            Action::ApproveExec { id, turn_id } => Action::ApproveExec {
                id: id.duplicate(),
                turn_id: turn_id.duplicate(),
            },
            Action::ApprovePatch { id } => Action::ApprovePatch { id: id.duplicate() },
            Action::SubmitReply { reply, timed } => Action::SubmitReply {
                reply: reply.duplicate(),
                timed: *timed,
            },
            Action::RequestInterrupt => Action::RequestInterrupt,
            Action::Finish { problem } => Action::Finish { problem: problem.duplicate() },
        }
    }

    fn same(&self, other: &Self) -> (r: bool) {
        match (self, other) {
            (Action::Emit(x), Action::Emit(x_other)) => x.same(x_other),
            (Action::SubmitPrompt { timed }, Action::SubmitPrompt { timed: timed_other }) => {
                *timed == *timed_other
            },
            (Action::Activate, Action::Activate) => true,
            (Action::Cancel, Action::Cancel) => true,
            (
                Action::ApproveExec { id, turn_id },
                Action::ApproveExec { id: id_other, turn_id: turn_id_other },
            ) => id.same(id_other) && turn_id.same(turn_id_other),
            (Action::ApprovePatch { id }, Action::ApprovePatch { id: id_other }) => id.same(
                id_other,
            ),
            (
                Action::SubmitReply { reply, timed },
                Action::SubmitReply { reply: reply_other, timed: timed_other },
            ) => reply.same(reply_other) && *timed == *timed_other,
            (Action::RequestInterrupt, Action::RequestInterrupt) => true,
            (Action::Finish { problem }, Action::Finish { problem: problem_other }) => problem.same(
                problem_other,
            ),
            _ => false,
        }
    }
}

impl Clone for Action {
    fn clone(&self) -> (r: Self)
        ensures
            r.deep_view() == self.deep_view(),
    {
        self.duplicate()
    }
}

/// For how long the next event is waited for.
#[derive(Clone, Copy, Debug, PartialEq, Eq, Structural)]
pub enum Wait {
    /// Without a limit.
    Unlimited,
    /// Until the deadline that was set when an error was reported.
    ErrorDrain,
    /// For as long as the first event after an image prompt may take.
    PromptImage,
    /// For as long as the first event after an image of a tool may take.
    ToolImage,
    /// Without a limit, and for an answer of the host as well.
    EventOrReply,
    /// Not at all.
    Nothing,
}

impl DeepView for Wait {
    type V = Wait;

    open spec fn deep_view(&self) -> Wait {
        *self
    }
}

impl Modeled for Wait {
    fn duplicate(&self) -> (r: Self) {
        *self
    }

    fn same(&self, other: &Self) -> (r: bool) {
        *self == *other
    }
}

/// A turn under way.
#[derive(Debug, PartialEq, Eq)]
pub struct TurnLoop {
    pub turn_handle: u64,
    pub phase: Phase,
    /// The id under which the prompt was taken.
    pub expected_turn_id: Option<String>,
    /// The tool calls that a replayed history will report again.
    pub replayed_tool_calls: Vec<String>,
    pub interrupting: bool,
    /// An error was reported, and only the end of the turn is waited for.
    pub draining: bool,
    pub protected_error_emitted: bool,
    pub awaiting_prompt_image: bool,
    pub awaiting_tool_image: bool,
    pub last_summary_index: Option<i64>,
    pub saw_message_delta: bool,
    pub latest_agent_message: Option<String>,
    pub rate_limits: Option<Json>,
    /// The turn ran to its end without an error.
    pub completed: bool,
}

/// The mathematical content of a [`TurnLoop`].
pub struct TurnLoopModel {
    pub turn_handle: u64,
    pub phase: Phase,
    pub expected_turn_id: Option<Seq<char>>,
    pub replayed_tool_calls: Seq<Seq<char>>,
    pub interrupting: bool,
    pub draining: bool,
    pub protected_error_emitted: bool,
    pub awaiting_prompt_image: bool,
    pub awaiting_tool_image: bool,
    pub last_summary_index: Option<i64>,
    pub saw_message_delta: bool,
    pub latest_agent_message: Option<Seq<char>>,
    pub rate_limits: Option<JsonModel>,
    pub completed: bool,
}

impl DeepView for TurnLoop {
    type V = TurnLoopModel;

    open spec fn deep_view(&self) -> TurnLoopModel {
        TurnLoopModel {
            turn_handle: self.turn_handle,
            phase: self.phase,
            expected_turn_id: self.expected_turn_id.deep_view(),
            replayed_tool_calls: self.replayed_tool_calls.deep_view(),
            interrupting: self.interrupting,
            draining: self.draining,
            protected_error_emitted: self.protected_error_emitted,
            awaiting_prompt_image: self.awaiting_prompt_image,
            awaiting_tool_image: self.awaiting_tool_image,
            last_summary_index: self.last_summary_index.deep_view(),
            saw_message_delta: self.saw_message_delta,
            latest_agent_message: self.latest_agent_message.deep_view(),
            rate_limits: self.rate_limits.deep_view(),
            completed: self.completed,
        }
    }
}

impl Modeled for TurnLoop {
    fn duplicate(&self) -> (r: Self) {
        TurnLoop {
            turn_handle: self.turn_handle,
            phase: self.phase,
            expected_turn_id: self.expected_turn_id.duplicate(),
            replayed_tool_calls: self.replayed_tool_calls.duplicate(),
            interrupting: self.interrupting,
            draining: self.draining,
            protected_error_emitted: self.protected_error_emitted,
            awaiting_prompt_image: self.awaiting_prompt_image,
            awaiting_tool_image: self.awaiting_tool_image,
            last_summary_index: self.last_summary_index.duplicate(),
            saw_message_delta: self.saw_message_delta,
            latest_agent_message: self.latest_agent_message.duplicate(),
            rate_limits: self.rate_limits.duplicate(),
            completed: self.completed,
        }
    }

    fn same(&self, other: &Self) -> (r: bool) {
        self.turn_handle == other.turn_handle
            && self.phase == other.phase
            && self.expected_turn_id.same(&other.expected_turn_id)
            && self.replayed_tool_calls.same(&other.replayed_tool_calls)
            && self.interrupting == other.interrupting
            && self.draining == other.draining
            && self.protected_error_emitted == other.protected_error_emitted
            && self.awaiting_prompt_image == other.awaiting_prompt_image
            && self.awaiting_tool_image == other.awaiting_tool_image
            && self.last_summary_index.same(&other.last_summary_index)
            && self.saw_message_delta == other.saw_message_delta
            && self.latest_agent_message.same(&other.latest_agent_message)
            && self.rate_limits.same(&other.rate_limits)
            && self.completed == other.completed
    }
}

impl Clone for TurnLoop {
    fn clone(&self) -> (r: Self)
        ensures
            r.deep_view() == self.deep_view(),
    {
        self.duplicate()
    }
}


// ---------------------------------------------------------------------------------------------
// Tool calls

/// The key of a tool call that a replayed history may report again.
pub open spec fn replay_key(item: ResponseItemModel) -> Option<Seq<char>> {
    match item {
        ResponseItemModel::FunctionCall { call_id, .. } => Some("function:"@ + call_id),
        ResponseItemModel::CustomToolCall { call_id, .. } => Some("custom:"@ + call_id),
        _ => None,
    }
}

/// The key of a tool call that a replayed history may report again.
pub fn tool_call_replay_key(item: &ResponseItem) -> (r: Option<String>)
    ensures
        r.deep_view() == replay_key(item.deep_view()),
{
    match item {
        ResponseItem::FunctionCall { call_id, .. } => Some(glue("function:", call_id.as_str())),
        ResponseItem::CustomToolCall { call_id, .. } => Some(glue("custom:", call_id.as_str())),
        _ => None,
    }
}

/// What follows a prefix of a line, where the line starts with it.
pub open spec fn behind(line: Seq<char>, prefix: Seq<char>) -> Option<Seq<char>> {
    if prefix.is_prefix_of(line) {
        Some(trim_text(line.skip(prefix.len() as int)))
    } else {
        None
    }
}

/// The file that a line of a patch names, where it names one.
pub open spec fn line_target(line: Seq<char>) -> Option<Seq<char>> {
    let line = trim_text(line);
    if behind(line, "*** Update File: "@) is Some {
        behind(line, "*** Update File: "@)
    } else if behind(line, "*** Add File: "@) is Some {
        behind(line, "*** Add File: "@)
    } else {
        behind(line, "*** Delete File: "@)
    }
}

/// The first file that some lines of a patch name, from line `i` on.
pub open spec fn first_target(lines: Seq<Seq<char>>, i: int) -> Seq<char>
    decreases lines.len() - i,
{
    if i < 0 || i >= lines.len() {
        Seq::empty()
    } else {
        match line_target(lines[i]) {
            Some(file) => file,
            None => first_target(lines, i + 1),
        }
    }
}

/// The first file that a patch names, or nothing.
pub open spec fn patch_target(input: Seq<char>) -> Seq<char> {
    first_target(pieces(input, '\n'), 0)
}

fn find_line_target(line: &str) -> (r: Option<String>)
    ensures
        r.deep_view() == line_target(line@),
{
    let line = trimmed(line);
    let line = line.as_str();
    match after_prefix(line, "*** Update File: ") {
        Some(rest) => {
            return Some(trimmed(rest.as_str()));
        },
        None => {},
    }
    match after_prefix(line, "*** Add File: ") {
        Some(rest) => {
            return Some(trimmed(rest.as_str()));
        },
        None => {},
    }
    match after_prefix(line, "*** Delete File: ") {
        Some(rest) => Some(trimmed(rest.as_str())),
        None => None,
    }
}

/// The first file that a patch names, so that the host can show which file is being edited.
/// Nothing where it names none.
pub fn patch_target_file(input: &str) -> (r: String)
    ensures
        r@ == patch_target(input@),
{
    let lines = split_on(input, '\n');
    let ghost model = lines.deep_view();
    let mut i: usize = 0;
    while i < lines.len()
        invariant
            i <= lines@.len(),
            model == lines.deep_view(),
            model.len() == lines@.len(),
            patch_target(input@) == first_target(model, i as int),
        decreases lines.len() - i,
    {
        assert(model[i as int] == lines@[i as int]@);
        if let Some(file) = find_line_target(lines[i].as_str()) {
            return file;
        }
        i = i + 1;
    }
    let none = String::new();
    assert(none@ =~= Seq::empty());
    none
}

/// The payload of a tool call.
pub open spec fn tool_call_json(tool: Seq<char>, args: JsonModel) -> JsonModel {
    JsonModel::Object(seq![member("args"@, args), member("tool"@, JsonModel::Text(tool))])
}

/// The payload of a tool call that the host answers.
pub open spec fn dynamic_call_json(
    turn_handle: u64,
    call_id: Seq<char>,
    tool: Seq<char>,
    namespace: Option<Seq<char>>,
    arguments: JsonModel,
) -> JsonModel {
    JsonModel::Object(
        seq![
            member("arguments"@, arguments),
            member("call_id"@, JsonModel::Text(call_id)),
            member("namespace"@, text_or_null(namespace)),
            member("tool"@, JsonModel::Text(tool)),
            member("turn_handle"@, JsonModel::Number(decimal_text(turn_handle as nat))),
        ],
    )
}

/// The payload of the history: the latest message of the assistant alone.
pub open spec fn history_json(message: Seq<char>) -> JsonModel {
    JsonModel::Array(
        seq![
            JsonModel::Object(
                seq![
                    member(
                        "content"@,
                        JsonModel::Array(
                            seq![
                                JsonModel::Object(
                                    seq![
                                        member("text"@, JsonModel::Text(message)),
                                        member("type"@, JsonModel::Text("output_text"@)),
                                    ],
                                ),
                            ],
                        ),
                    ),
                    member("role"@, JsonModel::Text("assistant"@)),
                    member("type"@, JsonModel::Text("message"@)),
                ],
            ),
        ],
    )
}

/// The arguments of a function call: the JSON that they hold, or null where they hold none.
pub open spec fn call_arguments(arguments: Seq<char>) -> JsonModel {
    match json_document(arguments) {
        Ok(value) => value,
        Err(_) => JsonModel::Null,
    }
}

/// The event that tells the host of an item of the model.
pub open spec fn item_event(item: ResponseItemModel) -> Option<BridgeEventModel> {
    match item {
        ResponseItemModel::FunctionCall { name, arguments, .. } => Some(
            event_of(KIND_TOOL_CALL, json_text(tool_call_json(name, call_arguments(arguments)))),
        ),
        ResponseItemModel::CustomToolCall { name, input, .. } => Some(
            event_of(
                KIND_TOOL_CALL,
                json_text(
                    tool_call_json(
                        name,
                        JsonModel::Object(
                            seq![member("path"@, JsonModel::Text(patch_target(input)))],
                        ),
                    ),
                ),
            ),
        ),
        ResponseItemModel::ToolSearchCall { .. } => Some(
            event_of(KIND_TOOL_DISCOVERY, json_text(discovery_json("search_requested"@))),
        ),
        ResponseItemModel::ToolSearchOutput { .. } => Some(
            event_of(KIND_TOOL_DISCOVERY, json_text(discovery_json("search_loaded"@))),
        ),
        _ => None,
    }
}

/// The payload of a tool call.
pub fn tool_call_payload(tool: &str, args: Json) -> (r: Json)
    ensures
        r.deep_view() == tool_call_json(tool@, args.deep_view()),
{
    object2("args", args, "tool", Json::Text(tool.to_owned()))
}

/// The payload of a tool call that the host answers.
pub fn dynamic_call_payload(
    turn_handle: u64,
    call_id: &String,
    tool: &String,
    namespace: &Option<String>,
    arguments: &Json,
) -> (r: Json)
    ensures
        r.deep_view() == dynamic_call_json(
            turn_handle,
            call_id@,
            tool@,
            namespace.deep_view(),
            arguments.deep_view(),
        ),
{
    let mut members: Vec<Member> = Vec::new();
    add_member(&mut members, "arguments", arguments.duplicate());
    add_member(&mut members, "call_id", Json::Text(call_id.clone()));
    add_member(&mut members, "namespace", Json::optional_text(namespace));
    add_member(&mut members, "tool", Json::Text(tool.clone()));
    add_member(&mut members, "turn_handle", Json::Number(decimal(turn_handle)));
    assert(members_of(members@) =~= dynamic_call_json(
        turn_handle,
        call_id@,
        tool@,
        namespace.deep_view(),
        arguments.deep_view(),
    )->Object_0);
    object_of(members)
}

/// The payload of the history: the latest message of the assistant alone. The durable model
/// context is the rollout; this exists for hosts that recover a message that was not streamed.
pub fn history_payload(message: &String) -> (r: Json)
    ensures
        r.deep_view() == history_json(message@),
{
    let part = object2(
        "text",
        Json::Text(message.clone()),
        "type",
        Json::Text("output_text".to_string()),
    );
    let mut parts: Vec<Json> = Vec::new();
    parts.push(part);
    assert(parts.deep_view() =~= seq![part.deep_view()]);
    let item = object3(
        "content",
        array_of(parts),
        "role",
        Json::Text("assistant".to_string()),
        "type",
        Json::Text("message".to_string()),
    );
    let mut items: Vec<Json> = Vec::new();
    items.push(item);
    assert(items.deep_view() =~= seq![item.deep_view()]);
    array_of(items)
}

fn find_item_event(item: &ResponseItem) -> (r: Option<BridgeEvent>)
    ensures
        r.deep_view() == item_event(item.deep_view()),
{
    match item {
        ResponseItem::FunctionCall { name, arguments, .. } => {
            let args = match Json::parse(arguments.as_str()) {
                Ok(value) => value,
                Err(_) => Json::Null,
            };
            Some(emit(KIND_TOOL_CALL, tool_call_payload(name.as_str(), args).render().as_str()))
        },
        ResponseItem::CustomToolCall { name, input, .. } => {
            let args = object1("path", Json::Text(patch_target_file(input.as_str())));
            Some(emit(KIND_TOOL_CALL, tool_call_payload(name.as_str(), args).render().as_str()))
        },
        ResponseItem::ToolSearchCall { .. } => Some(
            emit(KIND_TOOL_DISCOVERY, tool_discovery_event_json("search_requested").as_str()),
        ),
        ResponseItem::ToolSearchOutput { .. } => Some(
            emit(KIND_TOOL_DISCOVERY, tool_discovery_event_json("search_loaded").as_str()),
        ),
        _ => None,
    }
}

// ---------------------------------------------------------------------------------------------
// The machine

/// What a step gives: the turn after it, and what is to be done.
pub type Step = (TurnLoopModel, Seq<ActionModel>);

/// The action that tells the host something.
pub open spec fn tell(kind: i32, text: Seq<char>) -> ActionModel {
    ActionModel::Emit(event_of(kind, text))
}

/// The turn at its end.
pub open spec fn ended(state: TurnLoopModel) -> TurnLoopModel {
    TurnLoopModel { phase: Phase::Finished, ..state }
}

/// The end of a turn without a problem.
pub open spec fn finished(state: TurnLoopModel, before: Seq<ActionModel>) -> Step {
    (ended(state), before.push(ActionModel::Finish { problem: None }))
}

/// The end of a turn with a problem.
pub open spec fn failed(state: TurnLoopModel, problem: Seq<char>) -> Step {
    (ended(state), seq![ActionModel::Finish { problem: Some(problem) }])
}

/// Whether an event belongs to the turn that is expected.
pub open spec fn matches_turn(event: TurnEventModel, expected: Seq<char>) -> bool {
    &&& event.id == expected
    &&& match event.msg {
        TurnMsgModel::TurnComplete { turn_id, .. } => turn_id == expected,
        TurnMsgModel::TurnAborted { turn_id } => turn_id == Some(expected),
        _ => true,
    }
}

/// Whether an event belongs to another turn than the one that is expected.
pub open spec fn foreign(state: TurnLoopModel, event: TurnEventModel) -> bool {
    match state.expected_turn_id {
        Some(expected) => !matches_turn(event, expected),
        None => false,
    }
}

/// An error of the runtime. Only the first one is told; then the end of the turn is waited for.
pub open spec fn on_error(state: TurnLoopModel, error: ErrorEventModel) -> Step {
    if state.protected_error_emitted {
        (state, Seq::empty())
    } else {
        (
            TurnLoopModel { protected_error_emitted: true, draining: true, ..state },
            seq![tell(KIND_STRUCTURED_ERROR, json_text(error_json(error, state.rate_limits)))],
        )
    }
}

/// The position of a key among some keys, from `i` on.
pub open spec fn key_position(keys: Seq<Seq<char>>, key: Seq<char>, i: int) -> Option<int>
    decreases keys.len() - i,
{
    if i < 0 || i >= keys.len() {
        None
    } else if keys[i] == key {
        Some(i)
    } else {
        key_position(keys, key, i + 1)
    }
}

/// An item of the model. A tool call that a replayed history reports again is passed over once.
pub open spec fn on_item(state: TurnLoopModel, item: ResponseItemModel) -> Step {
    let position = match replay_key(item) {
        Some(key) => key_position(state.replayed_tool_calls, key, 0),
        None => None,
    };
    match position {
        Some(i) => (
            TurnLoopModel { replayed_tool_calls: state.replayed_tool_calls.remove(i), ..state },
            Seq::empty(),
        ),
        None => match item_event(item) {
            Some(event) => (state, seq![ActionModel::Emit(event)]),
            None => (state, Seq::empty()),
        },
    }
}

/// A part of the reasoning. A new section is announced by a break.
pub open spec fn on_reasoning(state: TurnLoopModel, summary_index: i64, delta: Seq<char>) -> Step {
    let told = tell(KIND_REASONING_DELTA, delta);
    (
        TurnLoopModel { last_summary_index: Some(summary_index), ..state },
        if state.last_summary_index is Some && state.last_summary_index != Some(summary_index) {
            seq![tell(KIND_REASONING_BREAK, Seq::empty()), told]
        } else {
            seq![told]
        },
    )
}

/// A finished message. Its text is told here only if it was not streamed.
pub open spec fn on_message(state: TurnLoopModel, message: Seq<char>) -> Step {
    (
        TurnLoopModel {
            latest_agent_message: Some(message),
            saw_message_delta: false,
            ..state
        },
        if !state.saw_message_delta && message.len() > 0 {
            seq![tell(KIND_TEXT_DELTA, message)]
        } else {
            Seq::empty()
        },
    )
}

/// The end of the turn at the runtime. After an error or an interrupt nothing more is told;
/// otherwise the latest message is.
pub open spec fn on_complete(state: TurnLoopModel, error: bool) -> Step {
    let late = error && !state.protected_error_emitted;
    let told = if late {
        seq![
            tell(
                KIND_STRUCTURED_ERROR,
                json_text(error_json(protected_error(), state.rate_limits)),
            ),
        ]
    } else {
        Seq::empty()
    };
    let state = TurnLoopModel {
        protected_error_emitted: state.protected_error_emitted || late,
        ..state
    };
    if state.interrupting || state.protected_error_emitted {
        finished(state, told)
    } else {
        finished(
            TurnLoopModel { completed: true, ..state },
            match state.latest_agent_message {
                Some(message) => seq![tell(KIND_HISTORY, json_text(history_json(message)))],
                None => Seq::empty(),
            },
        )
    }
}

/// The error that stands for a failure that must not be told.
pub open spec fn protected_error() -> ErrorEventModel {
    ErrorEventModel { message: "A protected turn failed."@, codex_error_info: None }
}

/// An encoded report, where it could be encoded.
pub open spec fn told_json(kind: i32, json: Option<Seq<char>>) -> Seq<ActionModel> {
    match json {
        Some(json) => seq![tell(kind, json)],
        None => Seq::empty(),
    }
}

/// A report of the runtime on the turn.
pub open spec fn on_message_of_turn(state: TurnLoopModel, msg: TurnMsgModel) -> Step {
    match msg {
        TurnMsgModel::ItemStarted { json, is_compaction } => (
            state,
            item_started_events(json, is_compaction).map_values(
                |e: BridgeEventModel| ActionModel::Emit(e),
            ),
        ),
        TurnMsgModel::ItemCompleted { json } => (state, told_json(KIND_ITEM_COMPLETED, json)),
        TurnMsgModel::ExecApprovalRequest { approval_id, turn_id } => (
            state,
            seq![ActionModel::ApproveExec { id: approval_id, turn_id }],
        ),
        TurnMsgModel::ApplyPatchApprovalRequest { call_id } => (
            state,
            seq![ActionModel::ApprovePatch { id: call_id }],
        ),
        TurnMsgModel::ReasoningContentDelta { summary_index, delta } => on_reasoning(
            state,
            summary_index,
            delta,
        ),
        TurnMsgModel::AgentReasoningSectionBreak => (
            TurnLoopModel { last_summary_index: None, ..state },
            seq![tell(KIND_REASONING_BREAK, Seq::empty())],
        ),
        TurnMsgModel::ReasoningRawContentDelta { delta } => (
            state,
            seq![tell(KIND_REASONING_DELTA, delta)],
        ),
        TurnMsgModel::RawResponseItem { item } => on_item(state, item),
        TurnMsgModel::WebSearchEnd { search } => (
            state,
            seq![tell(KIND_TOOL_CALL, json_text(tool_call_json("web_search"@, search)))],
        ),
        TurnMsgModel::AgentMessageContentDelta { delta } => (
            TurnLoopModel { saw_message_delta: true, ..state },
            seq![tell(KIND_TEXT_DELTA, delta)],
        ),
        TurnMsgModel::AgentMessage { message } => on_message(state, message),
        TurnMsgModel::ContextCompacted => (state, seq![tell(KIND_CONTEXT_COMPACTED, "{}"@)]),
        TurnMsgModel::TokenCount { json, rate_limits } => (
            TurnLoopModel {
                rate_limits: if rate_limits is Some {
                    rate_limits
                } else {
                    state.rate_limits
                },
                ..state
            },
            told_json(KIND_TOKEN_COUNT, json),
        ),
        TurnMsgModel::RawResponseCompleted { json } => (
            state,
            told_json(KIND_RAW_RESPONSE_COMPLETED, json),
        ),
        TurnMsgModel::DynamicToolCallRequest { call_id, tool, namespace, arguments } => (
            TurnLoopModel { phase: Phase::AwaitingTool, ..state },
            seq![
                tell(
                    KIND_DYNAMIC_TOOL_CALL,
                    json_text(
                        dynamic_call_json(state.turn_handle, call_id, tool, namespace, arguments),
                    ),
                ),
            ],
        ),
        TurnMsgModel::Error { error } => on_error(state, error),
        TurnMsgModel::TurnAborted { .. } => finished(
            state,
            seq![tell(KIND_TURN_ABORTED, Seq::empty())],
        ),
        TurnMsgModel::TurnComplete { failed, .. } => on_complete(state, failed),
        TurnMsgModel::Other => (state, Seq::empty()),
    }
}

/// An event while events are waited for. One of another turn is passed over; one of this turn
/// shows that the model goes on after an image.
pub open spec fn on_streamed_event(state: TurnLoopModel, event: TurnEventModel) -> Step {
    if foreign(state, event) {
        (state, Seq::empty())
    } else {
        on_message_of_turn(
            TurnLoopModel { awaiting_prompt_image: false, awaiting_tool_image: false, ..state },
            event.msg,
        )
    }
}

/// An event while the host's answer is waited for. Only the end of the turn and errors count.
pub open spec fn on_event_while_paused(state: TurnLoopModel, event: TurnEventModel) -> Step {
    if foreign(state, event) {
        (state, Seq::empty())
    } else {
        match event.msg {
            TurnMsgModel::TurnAborted { .. } => finished(
                state,
                seq![tell(KIND_TURN_ABORTED, Seq::empty())],
            ),
            TurnMsgModel::Error { error } => on_error(
                TurnLoopModel { phase: Phase::Streaming, ..state },
                error,
            ),
            _ => (state, Seq::empty()),
        }
    }
}

/// The time for the next event is over.
pub open spec fn on_timeout(state: TurnLoopModel) -> Step {
    let stopping = TurnLoopModel { phase: Phase::Interrupting, ..state };
    if state.draining {
        finished(state, Seq::empty())
    } else if state.interrupting {
        (state, Seq::empty())
    } else if state.awaiting_prompt_image {
        (
            stopping,
            seq![
                tell(
                    KIND_ERROR,
                    "model did not produce an event after receiving prompt image input"@,
                ),
                ActionModel::RequestInterrupt,
            ],
        )
    } else if state.awaiting_tool_image {
        (
            stopping,
            seq![
                tell(KIND_ERROR, "model did not continue after receiving image tool output"@),
                ActionModel::RequestInterrupt,
            ],
        )
    } else {
        (state, Seq::empty())
    }
}

/// An answer of the host.
pub open spec fn on_reply(state: TurnLoopModel, reply: ToolReplyModel) -> Step {
    if shows_image(reply.response) {
        (
            TurnLoopModel { phase: Phase::SubmittingImageReply, ..state },
            seq![
                tell(
                    KIND_TOOL_CALL,
                    "{\"tool\":\"dynamic_image_response_submit\",\"args\":{\"phase\":\"begin\"}}"@,
                ),
                ActionModel::SubmitReply { reply, timed: true },
            ],
        )
    } else {
        (
            TurnLoopModel { phase: Phase::SubmittingReply, ..state },
            seq![ActionModel::SubmitReply { reply, timed: false }],
        )
    }
}

/// An answer of the host without an image was handed over.
pub open spec fn on_reply_submitted(state: TurnLoopModel, outcome: SubmitOutcomeModel) -> Step {
    match outcome {
        SubmitOutcomeModel::Failed(error) => failed(
            state,
            "failed to submit dynamic tool response: "@ + error,
        ),
        _ => (
            TurnLoopModel { phase: Phase::Streaming, awaiting_tool_image: false, ..state },
            Seq::empty(),
        ),
    }
}

/// An answer of the host with an image was handed over, or took too long.
pub open spec fn on_image_reply_submitted(
    state: TurnLoopModel,
    outcome: SubmitOutcomeModel,
) -> Step {
    match outcome {
        SubmitOutcomeModel::Failed(error) => failed(
            state,
            "failed to submit dynamic image tool response: "@ + error,
        ),
        SubmitOutcomeModel::Done(_) => (
            TurnLoopModel { phase: Phase::Streaming, awaiting_tool_image: true, ..state },
            seq![
                tell(
                    KIND_TOOL_CALL,
                    "{\"tool\":\"dynamic_image_response_submit\",\"args\":{\"phase\":\"end\"}}"@,
                ),
            ],
        ),
        SubmitOutcomeModel::TimedOut => (
            TurnLoopModel { phase: Phase::Interrupting, awaiting_tool_image: true, ..state },
            seq![
                tell(KIND_ERROR, "timed out submitting image tool output to the model"@),
                ActionModel::RequestInterrupt,
            ],
        ),
    }
}

/// The prompt was handed over, or took too long.
pub open spec fn on_prompt_submitted(state: TurnLoopModel, outcome: SubmitOutcomeModel) -> Step {
    match outcome {
        SubmitOutcomeModel::Failed(error) => failed(
            state,
            "failed to submit user input: "@ + error,
        ),
        SubmitOutcomeModel::Done(turn_id) => (
            TurnLoopModel {
                phase: Phase::Activating,
                expected_turn_id: Some(turn_id),
                ..state
            },
            seq![
                tell(
                    KIND_STARTUP_STAGE,
                    if state.awaiting_prompt_image {
                        "prompt_image_submit_end"@
                    } else {
                        "prompt_submit_end"@
                    },
                ),
                ActionModel::Activate,
            ],
        ),
        SubmitOutcomeModel::TimedOut => (
            TurnLoopModel { phase: Phase::ActivatingAfterTimeout, ..state },
            seq![
                tell(KIND_ERROR, "timed out submitting prompt image input to the model"@),
                ActionModel::Activate,
            ],
        ),
    }
}

/// The turn became active. Where it was interrupted meanwhile, or its prompt may not have come
/// through, it is cancelled right away: its prompt is already in order, so that nothing overtakes
/// the cancellation.
pub open spec fn on_activated(state: TurnLoopModel, interrupted: bool) -> Step {
    let ready = tell(KIND_TURN_READY, decimal_text(state.turn_handle as nat));
    if interrupted || state.phase == Phase::ActivatingAfterTimeout {
        (
            TurnLoopModel { phase: Phase::Cancelling, interrupting: true, ..state },
            seq![ready, ActionModel::Cancel],
        )
    } else {
        (TurnLoopModel { phase: Phase::Streaming, ..state }, seq![ready])
    }
}

/// How an error of the event stream is told.
pub open spec fn stream_problem(state: TurnLoopModel, error: Seq<char>) -> Seq<char> {
    if state.phase == Phase::AwaitingTool {
        "event stream error while awaiting tool: "@ + error
    } else if state.interrupting && !state.draining {
        "event stream error while interrupting: "@ + error
    } else {
        "event stream error: "@ + error
    }
}

/// One step of a turn. What the phase does not wait for changes nothing.
pub open spec fn turn_step(state: TurnLoopModel, input: LoopInputModel) -> Step {
    match (state.phase, input) {
        (Phase::Prompting, LoopInputModel::PromptSubmitted(outcome)) => on_prompt_submitted(
            state,
            outcome,
        ),
        (Phase::Activating, LoopInputModel::Activated { interrupted }) => on_activated(
            state,
            interrupted,
        ),
        (Phase::ActivatingAfterTimeout, LoopInputModel::Activated { interrupted }) => on_activated(
            state,
            interrupted,
        ),
        (Phase::Activating, LoopInputModel::ActivationFailed { problem }) => failed(state, problem),
        (Phase::ActivatingAfterTimeout, LoopInputModel::ActivationFailed { problem }) => failed(
            state,
            problem,
        ),
        (Phase::Cancelling, LoopInputModel::CancelSubmitted { error }) => match error {
            Some(error) => failed(state, "failed to interrupt submitted turn: "@ + error),
            None => (TurnLoopModel { phase: Phase::Streaming, ..state }, Seq::empty()),
        },
        (Phase::Streaming, LoopInputModel::Event(event)) => on_streamed_event(state, event),
        (Phase::Streaming, LoopInputModel::StreamFailed { error }) => failed(
            state,
            stream_problem(state, error),
        ),
        (Phase::Streaming, LoopInputModel::TimedOut) => on_timeout(state),
        (Phase::AwaitingTool, LoopInputModel::Event(event)) => on_event_while_paused(state, event),
        (Phase::AwaitingTool, LoopInputModel::StreamFailed { error }) => failed(
            state,
            stream_problem(state, error),
        ),
        (Phase::AwaitingTool, LoopInputModel::ReplyReceived(reply)) => on_reply(state, reply),
        (Phase::AwaitingTool, LoopInputModel::ReplyChannelClosed) => finished(
            state,
            seq![tell(KIND_ERROR, "dynamic tool response channel closed"@)],
        ),
        (Phase::SubmittingReply, LoopInputModel::ReplySubmitted(outcome)) => on_reply_submitted(
            state,
            outcome,
        ),
        (Phase::SubmittingImageReply, LoopInputModel::ReplySubmitted(outcome)) =>
            on_image_reply_submitted(state, outcome),
        (Phase::Interrupting, LoopInputModel::InterruptRequested { problem }) => match problem {
            Some(problem) => failed(state, problem),
            None => (
                TurnLoopModel { phase: Phase::Streaming, interrupting: true, ..state },
                Seq::empty(),
            ),
        },
        _ => (state, Seq::empty()),
    }
}

/// The turn before its prompt is handed over.
pub open spec fn fresh_loop(
    turn_handle: u64,
    replayed: Seq<Seq<char>>,
    images: bool,
) -> TurnLoopModel {
    TurnLoopModel {
        turn_handle,
        phase: Phase::Prompting,
        expected_turn_id: None,
        replayed_tool_calls: replayed,
        interrupting: false,
        draining: false,
        protected_error_emitted: false,
        awaiting_prompt_image: images,
        awaiting_tool_image: false,
        last_summary_index: None,
        saw_message_delta: false,
        latest_agent_message: None,
        rate_limits: None,
        completed: false,
    }
}

/// The beginning of a turn. One that was interrupted during its startup hands no prompt over.
pub open spec fn turn_start(
    turn_handle: u64,
    replayed: Seq<Seq<char>>,
    images: bool,
    startup_interrupted: bool,
) -> Step {
    let state = fresh_loop(turn_handle, replayed, images);
    if startup_interrupted {
        finished(state, seq![tell(KIND_TURN_ABORTED, Seq::empty())])
    } else {
        (
            state,
            seq![
                tell(
                    KIND_STARTUP_STAGE,
                    if images {
                        "prompt_image_submit_begin"@
                    } else {
                        "prompt_submit_begin"@
                    },
                ),
                ActionModel::SubmitPrompt { timed: images },
            ],
        )
    }
}

/// For how long the next event is waited for.
pub open spec fn next_wait(state: TurnLoopModel) -> Wait {
    match state.phase {
        Phase::Streaming => if state.draining {
            Wait::ErrorDrain
        } else if state.interrupting {
            Wait::Unlimited
        } else if state.awaiting_prompt_image {
            Wait::PromptImage
        } else if state.awaiting_tool_image {
            Wait::ToolImage
        } else {
            Wait::Unlimited
        },
        Phase::AwaitingTool => Wait::EventOrReply,
        _ => Wait::Nothing,
    }
}

// ---------------------------------------------------------------------------------------------
// Execution

fn no_actions() -> (r: Vec<Action>)
    ensures
        r.deep_view() == Seq::<ActionModel>::empty(),
{
    let actions: Vec<Action> = Vec::new();
    proof {
        lemma_empty_content(actions);
    }
    actions
}

fn one_action(action: Action) -> (r: Vec<Action>)
    ensures
        r.deep_view() == seq![action.deep_view()],
{
    let mut actions: Vec<Action> = Vec::new();
    actions.push(action);
    assert(actions.deep_view() =~= seq![action.deep_view()]);
    actions
}

fn two_actions(first: Action, second: Action) -> (r: Vec<Action>)
    ensures
        r.deep_view() == seq![first.deep_view(), second.deep_view()],
{
    let mut actions: Vec<Action> = Vec::new();
    actions.push(first);
    actions.push(second);
    assert(actions.deep_view() =~= seq![first.deep_view(), second.deep_view()]);
    actions
}

fn say(kind: i32, text: &str) -> (r: Action)
    ensures
        r.deep_view() == tell(kind, text@),
{
    Action::Emit(emit(kind, text))
}

fn say_nothing(kind: i32) -> (r: Action)
    ensures
        r.deep_view() == tell(kind, Seq::empty()),
{
    proof {
        reveal_strlit("");
        assert(""@ =~= Seq::empty());
    }
    Action::Emit(emit(kind, ""))
}

fn say_json(kind: i32, json: &Option<String>) -> (r: Vec<Action>)
    ensures
        r.deep_view() == told_json(kind, json.deep_view()),
{
    match json {
        Some(json) => one_action(say(kind, json.as_str())),
        None => no_actions(),
    }
}

/// Whether an event belongs to the turn that is expected.
pub fn event_matches_turn(event: &TurnEvent, expected_turn_id: &String) -> (r: bool)
    ensures
        r == matches_turn(event.deep_view(), expected_turn_id@),
{
    if event.id != *expected_turn_id {
        return false;
    }
    match &event.msg {
        TurnMsg::TurnComplete { turn_id, .. } => *turn_id == *expected_turn_id,
        TurnMsg::TurnAborted { turn_id } => match turn_id {
            Some(turn_id) => *turn_id == *expected_turn_id,
            None => false,
        },
        _ => true,
    }
}

impl TurnLoop {
    /// Begins a turn. `images` says whether its prompt shows images, and `startup_interrupted`
    /// whether an interrupt was requested before the prompt.
    pub fn begin(
        turn_handle: u64,
        replayed_tool_calls: Vec<String>,
        images: bool,
        startup_interrupted: bool,
    ) -> (r: (Self, Vec<Action>))
        ensures
            (r.0.deep_view(), r.1.deep_view()) == turn_start(
                turn_handle,
                replayed_tool_calls.deep_view(),
                images,
                startup_interrupted,
            ),
    {
        let mut state = TurnLoop {
            turn_handle,
            phase: Phase::Prompting,
            expected_turn_id: None,
            replayed_tool_calls,
            interrupting: false,
            draining: false,
            protected_error_emitted: false,
            awaiting_prompt_image: images,
            awaiting_tool_image: false,
            last_summary_index: None,
            saw_message_delta: false,
            latest_agent_message: None,
            rate_limits: None,
            completed: false,
        };
        if startup_interrupted {
            let actions = state.finish_after(one_action(say_nothing(KIND_TURN_ABORTED)));
            return (state, actions);
        }
        let stage = if images {
            emit_debug_stage("prompt_image_submit_begin")
        } else {
            emit_debug_stage("prompt_submit_begin")
        };
        let actions = two_actions(Action::Emit(stage), Action::SubmitPrompt { timed: images });
        (state, actions)
    }

    /// For how long the next event is to be waited for.
    pub fn wait(&self) -> (r: Wait)
        ensures
            r == next_wait(self.deep_view()),
    {
        match self.phase {
            Phase::Streaming => if self.draining {
                Wait::ErrorDrain
            } else if self.interrupting {
                Wait::Unlimited
            } else if self.awaiting_prompt_image {
                Wait::PromptImage
            } else if self.awaiting_tool_image {
                Wait::ToolImage
            } else {
                Wait::Unlimited
            },
            Phase::AwaitingTool => Wait::EventOrReply,
            _ => Wait::Nothing,
        }
    }

    fn finish_after(&mut self, before: Vec<Action>) -> (r: Vec<Action>)
        ensures
            (final(self).deep_view(), r.deep_view()) == finished(
                old(self).deep_view(),
                before.deep_view(),
            ),
    {
        self.phase = Phase::Finished;
        let mut actions = before;
        let ghost told = actions.deep_view();
        let end = Action::Finish { problem: None };
        actions.push(end);
        assert(actions.deep_view() =~= told.push(end.deep_view()));
        actions
    }

    fn fail(&mut self, problem: String) -> (r: Vec<Action>)
        ensures
            (final(self).deep_view(), r.deep_view()) == failed(old(self).deep_view(), problem@),
    {
        self.phase = Phase::Finished;
        one_action(Action::Finish { problem: Some(problem) })
    }

    fn is_foreign(&self, event: &TurnEvent) -> (r: bool)
        ensures
            r == foreign(self.deep_view(), event.deep_view()),
    {
        match &self.expected_turn_id {
            Some(expected) => !event_matches_turn(event, expected),
            None => false,
        }
    }

    fn take_error(&mut self, error: &ErrorEvent) -> (r: Vec<Action>)
        ensures
            (final(self).deep_view(), r.deep_view()) == on_error(
                old(self).deep_view(),
                error.deep_view(),
            ),
    {
        if self.protected_error_emitted {
            return no_actions();
        }
        let payload = ios_error_payload(error, &self.rate_limits);
        self.protected_error_emitted = true;
        self.draining = true;
        one_action(say(KIND_STRUCTURED_ERROR, payload.as_str()))
    }

    fn find_replayed(&self, item: &ResponseItem) -> (r: Option<usize>)
        ensures
            (match r {
                Some(i) => Some(i as int),
                None => None,
            }) == match replay_key(item.deep_view()) {
                Some(key) => key_position(self.deep_view().replayed_tool_calls, key, 0),
                None => None,
            },
            r matches Some(i) ==> i < self.replayed_tool_calls@.len(),
    {
        let key = match tool_call_replay_key(item) {
            Some(key) => key,
            None => {
                return None;
            },
        };
        let ghost keys = self.replayed_tool_calls.deep_view();
        let mut i: usize = 0;
        while i < self.replayed_tool_calls.len()
            invariant
                i <= self.replayed_tool_calls@.len(),
                keys == self.replayed_tool_calls.deep_view(),
                keys.len() == self.replayed_tool_calls@.len(),
                replay_key(item.deep_view()) == Some(key@),
                key_position(keys, key@, 0) == key_position(keys, key@, i as int),
            decreases self.replayed_tool_calls.len() - i,
        {
            assert(keys[i as int] == self.replayed_tool_calls@[i as int]@);
            if self.replayed_tool_calls[i] == key {
                return Some(i);
            }
            i = i + 1;
        }
        None
    }

    fn take_item(&mut self, item: &ResponseItem) -> (r: Vec<Action>)
        ensures
            (final(self).deep_view(), r.deep_view()) == on_item(
                old(self).deep_view(),
                item.deep_view(),
            ),
    {
        if let Some(i) = self.find_replayed(item) {
            let ghost keys = self.replayed_tool_calls.deep_view();
            self.replayed_tool_calls.remove(i);
            assert(self.replayed_tool_calls.deep_view() =~= keys.remove(i as int));
            return no_actions();
        }
        match find_item_event(item) {
            Some(event) => one_action(Action::Emit(event)),
            None => no_actions(),
        }
    }

    fn take_reasoning(&mut self, summary_index: i64, delta: &String) -> (r: Vec<Action>)
        ensures
            (final(self).deep_view(), r.deep_view()) == on_reasoning(
                old(self).deep_view(),
                summary_index,
                delta@,
            ),
    {
        let new_section = match self.last_summary_index {
            Some(previous) => previous != summary_index,
            None => false,
        };
        self.last_summary_index = Some(summary_index);
        let told = say(KIND_REASONING_DELTA, delta.as_str());
        if new_section {
            two_actions(say_nothing(KIND_REASONING_BREAK), told)
        } else {
            one_action(told)
        }
    }

    fn take_message(&mut self, message: &String) -> (r: Vec<Action>)
        ensures
            (final(self).deep_view(), r.deep_view()) == on_message(
                old(self).deep_view(),
                message@,
            ),
    {
        let streamed = self.saw_message_delta;
        self.latest_agent_message = Some(message.clone());
        self.saw_message_delta = false;
        if !streamed && !message.as_str().is_empty() {
            one_action(say(KIND_TEXT_DELTA, message.as_str()))
        } else {
            no_actions()
        }
    }

    fn take_completion(&mut self, error: bool) -> (r: Vec<Action>)
        ensures
            (final(self).deep_view(), r.deep_view()) == on_complete(old(self).deep_view(), error),
    {
        let late = error && !self.protected_error_emitted;
        let mut told = no_actions();
        if late {
            let error = ErrorEvent {
                message: "A protected turn failed.".to_string(),
                codex_error_info: None,
            };
            let payload = ios_error_payload(&error, &self.rate_limits);
            told = one_action(say(KIND_STRUCTURED_ERROR, payload.as_str()));
            self.protected_error_emitted = true;
        }
        if self.interrupting || self.protected_error_emitted {
            return self.finish_after(told);
        }
        self.completed = true;
        let history = match &self.latest_agent_message {
            Some(message) => one_action(
                say(KIND_HISTORY, history_payload(message).render().as_str()),
            ),
            None => no_actions(),
        };
        self.finish_after(history)
    }

    fn take_msg(&mut self, msg: &TurnMsg) -> (r: Vec<Action>)
        ensures
            (final(self).deep_view(), r.deep_view()) == on_message_of_turn(
                old(self).deep_view(),
                msg.deep_view(),
            ),
    {
        match msg {
            TurnMsg::ItemStarted { json, is_compaction } => {
                let events = emit_item_started_events(json, *is_compaction);
                let ghost model = events.deep_view();
                let ghost wrap = |e: BridgeEventModel| ActionModel::Emit(e);
                let mut actions = no_actions();
                let mut i: usize = 0;
                assert(actions.deep_view() =~= model.take(0).map_values(wrap));
                while i < events.len()
                    invariant
                        i <= events@.len(),
                        model == events.deep_view(),
                        model.len() == events@.len(),
                        wrap == (|e: BridgeEventModel| ActionModel::Emit(e)),
                        actions.deep_view() == model.take(i as int).map_values(wrap),
                    decreases events.len() - i,
                {
                    let ghost before = actions.deep_view();
                    actions.push(Action::Emit(events[i].duplicate()));
                    proof {
                        assert(model[i as int] == events@[i as int].deep_view());
                        assert(actions.deep_view() =~= before.push(wrap(model[i as int])));
                        assert(model.take(i + 1).map_values(wrap) =~= model.take(
                            i as int,
                        ).map_values(wrap).push(wrap(model[i as int])));
                    }
                    i = i + 1;
                }
                assert(model.take(model.len() as int) =~= model);
                actions
            },
            TurnMsg::ItemCompleted { json } => say_json(KIND_ITEM_COMPLETED, json),
            TurnMsg::ExecApprovalRequest { approval_id, turn_id } => one_action(
                Action::ApproveExec { id: approval_id.clone(), turn_id: turn_id.clone() },
            ),
            TurnMsg::ApplyPatchApprovalRequest { call_id } => one_action(
                Action::ApprovePatch { id: call_id.clone() },
            ),
            TurnMsg::ReasoningContentDelta { summary_index, delta } => self.take_reasoning(
                *summary_index,
                delta,
            ),
            TurnMsg::AgentReasoningSectionBreak => {
                self.last_summary_index = None;
                one_action(say_nothing(KIND_REASONING_BREAK))
            },
            TurnMsg::ReasoningRawContentDelta { delta } => one_action(
                say(KIND_REASONING_DELTA, delta.as_str()),
            ),
            TurnMsg::RawResponseItem { item } => self.take_item(item),
            TurnMsg::WebSearchEnd { search } => one_action(
                say(
                    KIND_TOOL_CALL,
                    tool_call_payload("web_search", search.duplicate()).render().as_str(),
                ),
            ),
            TurnMsg::AgentMessageContentDelta { delta } => {
                self.saw_message_delta = true;
                one_action(say(KIND_TEXT_DELTA, delta.as_str()))
            },
            TurnMsg::AgentMessage { message } => self.take_message(message),
            TurnMsg::ContextCompacted => one_action(say(KIND_CONTEXT_COMPACTED, "{}")),
            TurnMsg::TokenCount { json, rate_limits } => {
                if rate_limits.is_some() {
                    self.rate_limits = rate_limits.duplicate();
                }
                say_json(KIND_TOKEN_COUNT, json)
            },
            TurnMsg::RawResponseCompleted { json } => say_json(KIND_RAW_RESPONSE_COMPLETED, json),
            TurnMsg::DynamicToolCallRequest { call_id, tool, namespace, arguments } => {
                let payload = dynamic_call_payload(
                    self.turn_handle,
                    call_id,
                    tool,
                    namespace,
                    arguments,
                );
                self.phase = Phase::AwaitingTool;
                one_action(say(KIND_DYNAMIC_TOOL_CALL, payload.render().as_str()))
            },
            TurnMsg::Error { error } => self.take_error(error),
            TurnMsg::TurnAborted { .. } => self.finish_after(
                one_action(say_nothing(KIND_TURN_ABORTED)),
            ),
            TurnMsg::TurnComplete { failed, .. } => self.take_completion(*failed),
            TurnMsg::Other => no_actions(),
        }
    }

    fn take_streamed_event(&mut self, event: &TurnEvent) -> (r: Vec<Action>)
        ensures
            (final(self).deep_view(), r.deep_view()) == on_streamed_event(
                old(self).deep_view(),
                event.deep_view(),
            ),
    {
        if self.is_foreign(event) {
            return no_actions();
        }
        self.awaiting_prompt_image = false;
        self.awaiting_tool_image = false;
        self.take_msg(&event.msg)
    }

    fn take_event_while_paused(&mut self, event: &TurnEvent) -> (r: Vec<Action>)
        ensures
            (final(self).deep_view(), r.deep_view()) == on_event_while_paused(
                old(self).deep_view(),
                event.deep_view(),
            ),
    {
        if self.is_foreign(event) {
            return no_actions();
        }
        match &event.msg {
            TurnMsg::TurnAborted { .. } => self.finish_after(
                one_action(say_nothing(KIND_TURN_ABORTED)),
            ),
            TurnMsg::Error { error } => {
                self.phase = Phase::Streaming;
                self.take_error(error)
            },
            _ => no_actions(),
        }
    }

    fn take_timeout(&mut self) -> (r: Vec<Action>)
        ensures
            (final(self).deep_view(), r.deep_view()) == on_timeout(old(self).deep_view()),
    {
        if self.draining {
            return self.finish_after(no_actions());
        }
        if self.interrupting {
            return no_actions();
        }
        let problem = if self.awaiting_prompt_image {
            "model did not produce an event after receiving prompt image input"
        } else if self.awaiting_tool_image {
            "model did not continue after receiving image tool output"
        } else {
            return no_actions();
        };
        self.phase = Phase::Interrupting;
        two_actions(say(KIND_ERROR, problem), Action::RequestInterrupt)
    }

    fn take_reply(&mut self, reply: &ToolReply) -> (r: Vec<Action>)
        ensures
            (final(self).deep_view(), r.deep_view()) == on_reply(
                old(self).deep_view(),
                reply.deep_view(),
            ),
    {
        if reply.response.contains_image() {
            self.phase = Phase::SubmittingImageReply;
            two_actions(
                say(
                    KIND_TOOL_CALL,
                    "{\"tool\":\"dynamic_image_response_submit\",\"args\":{\"phase\":\"begin\"}}",
                ),
                Action::SubmitReply { reply: reply.duplicate(), timed: true },
            )
        } else {
            self.phase = Phase::SubmittingReply;
            one_action(Action::SubmitReply { reply: reply.duplicate(), timed: false })
        }
    }

    fn take_reply_submitted(&mut self, outcome: &SubmitOutcome) -> (r: Vec<Action>)
        ensures
            (final(self).deep_view(), r.deep_view()) == on_reply_submitted(
                old(self).deep_view(),
                outcome.deep_view(),
            ),
    {
        if let SubmitOutcome::Failed(error) = outcome {
            return self.fail(glue("failed to submit dynamic tool response: ", error.as_str()));
        }
        self.phase = Phase::Streaming;
        self.awaiting_tool_image = false;
        no_actions()
    }

    fn take_image_reply_submitted(&mut self, outcome: &SubmitOutcome) -> (r: Vec<Action>)
        ensures
            (final(self).deep_view(), r.deep_view()) == on_image_reply_submitted(
                old(self).deep_view(),
                outcome.deep_view(),
            ),
    {
        match outcome {
            SubmitOutcome::Failed(error) => self.fail(
                glue("failed to submit dynamic image tool response: ", error.as_str()),
            ),
            SubmitOutcome::Done(_) => {
                self.phase = Phase::Streaming;
                self.awaiting_tool_image = true;
                one_action(
                    say(
                        KIND_TOOL_CALL,
                        "{\"tool\":\"dynamic_image_response_submit\",\"args\":{\"phase\":\"end\"}}",
                    ),
                )
            },
            SubmitOutcome::TimedOut => {
                self.phase = Phase::Interrupting;
                self.awaiting_tool_image = true;
                two_actions(
                    say(KIND_ERROR, "timed out submitting image tool output to the model"),
                    Action::RequestInterrupt,
                )
            },
        }
    }

    fn take_prompt_submitted(&mut self, outcome: &SubmitOutcome) -> (r: Vec<Action>)
        ensures
            (final(self).deep_view(), r.deep_view()) == on_prompt_submitted(
                old(self).deep_view(),
                outcome.deep_view(),
            ),
    {
        match outcome {
            SubmitOutcome::Failed(error) => self.fail(
                glue("failed to submit user input: ", error.as_str()),
            ),
            SubmitOutcome::Done(turn_id) => {
                let stage = if self.awaiting_prompt_image {
                    emit_debug_stage("prompt_image_submit_end")
                } else {
                    emit_debug_stage("prompt_submit_end")
                };
                self.phase = Phase::Activating;
                self.expected_turn_id = Some(turn_id.clone());
                two_actions(Action::Emit(stage), Action::Activate)
            },
            SubmitOutcome::TimedOut => {
                self.phase = Phase::ActivatingAfterTimeout;
                two_actions(
                    say(KIND_ERROR, "timed out submitting prompt image input to the model"),
                    Action::Activate,
                )
            },
        }
    }

    fn take_activated(&mut self, interrupted: bool) -> (r: Vec<Action>)
        ensures
            (final(self).deep_view(), r.deep_view()) == on_activated(
                old(self).deep_view(),
                interrupted,
            ),
    {
        let ready = say(KIND_TURN_READY, decimal(self.turn_handle).as_str());
        if interrupted || self.phase == Phase::ActivatingAfterTimeout {
            self.phase = Phase::Cancelling;
            self.interrupting = true;
            two_actions(ready, Action::Cancel)
        } else {
            self.phase = Phase::Streaming;
            one_action(ready)
        }
    }

    fn take_stream_failure(&mut self, error: &String) -> (r: Vec<Action>)
        ensures
            (final(self).deep_view(), r.deep_view()) == failed(
                old(self).deep_view(),
                stream_problem(old(self).deep_view(), error@),
            ),
    {
        let problem = if self.phase == Phase::AwaitingTool {
            glue("event stream error while awaiting tool: ", error.as_str())
        } else if self.interrupting && !self.draining {
            glue("event stream error while interrupting: ", error.as_str())
        } else {
            glue("event stream error: ", error.as_str())
        };
        self.fail(problem)
    }

    /// Takes the next step of the turn: is told what happened, and says what to do.
    pub fn step(&mut self, input: &LoopInput) -> (r: Vec<Action>)
        ensures
            (final(self).deep_view(), r.deep_view()) == turn_step(
                old(self).deep_view(),
                input.deep_view(),
            ),
    {
        match (self.phase, input) {
            (Phase::Prompting, LoopInput::PromptSubmitted(outcome)) => self.take_prompt_submitted(
                outcome,
            ),
            (Phase::Activating, LoopInput::Activated { interrupted })
            | (Phase::ActivatingAfterTimeout, LoopInput::Activated { interrupted }) =>
                self.take_activated(*interrupted),
            (Phase::Activating, LoopInput::ActivationFailed { problem })
            | (Phase::ActivatingAfterTimeout, LoopInput::ActivationFailed { problem }) => self.fail(
                problem.clone(),
            ),
            (Phase::Cancelling, LoopInput::CancelSubmitted { error }) => match error {
                Some(error) => self.fail(
                    glue("failed to interrupt submitted turn: ", error.as_str()),
                ),
                None => {
                    self.phase = Phase::Streaming;
                    no_actions()
                },
            },
            (Phase::Streaming, LoopInput::Event(event)) => self.take_streamed_event(event),
            (Phase::Streaming, LoopInput::StreamFailed { error }) => self.take_stream_failure(
                error,
            ),
            (Phase::Streaming, LoopInput::TimedOut) => self.take_timeout(),
            (Phase::AwaitingTool, LoopInput::Event(event)) => self.take_event_while_paused(event),
            (Phase::AwaitingTool, LoopInput::StreamFailed { error }) => self.take_stream_failure(
                error,
            ),
            (Phase::AwaitingTool, LoopInput::ReplyReceived(reply)) => self.take_reply(reply),
            (Phase::AwaitingTool, LoopInput::ReplyChannelClosed) => self.finish_after(
                one_action(say(KIND_ERROR, "dynamic tool response channel closed")),
            ),
            (Phase::SubmittingReply, LoopInput::ReplySubmitted(outcome)) =>
                self.take_reply_submitted(outcome),
            (Phase::SubmittingImageReply, LoopInput::ReplySubmitted(outcome)) =>
                self.take_image_reply_submitted(outcome),
            (Phase::Interrupting, LoopInput::InterruptRequested { problem }) => match problem {
                Some(problem) => self.fail(problem.clone()),
                None => {
                    self.phase = Phase::Streaming;
                    self.interrupting = true;
                    no_actions()
                },
            },
            _ => no_actions(),
        }
    }
}

// ---------------------------------------------------------------------------------------------
// Laws

/// What holds of every turn: only a finished turn is completed, and no turn is completed after an
/// error or an interrupt; only after an error was told is its end waited for.
pub open spec fn consistent(state: TurnLoopModel) -> bool {
    &&& state.completed ==> state.phase == Phase::Finished && !state.protected_error_emitted
        && !state.interrupting
    &&& state.draining ==> state.protected_error_emitted
}

/// Every turn begins consistent.
pub proof fn law_turns_begin_consistent(
    turn_handle: u64,
    replayed: Seq<Seq<char>>,
    images: bool,
    startup_interrupted: bool,
)
    ensures
        consistent(turn_start(turn_handle, replayed, images, startup_interrupted).0),
        startup_interrupted ==> turn_start(
            turn_handle,
            replayed,
            images,
            startup_interrupted,
        ).0.phase == Phase::Finished,
{
}

/// Every step keeps a turn consistent.
pub proof fn law_steps_keep_turns_consistent(state: TurnLoopModel, input: LoopInputModel)
    requires
        consistent(state),
    ensures
        consistent(turn_step(state, input).0),
{
}

/// A finished turn stays as it is, and nothing more is done for it.
pub proof fn law_finished_turns_stay_finished(state: TurnLoopModel, input: LoopInputModel)
    requires
        state.phase == Phase::Finished,
    ensures
        turn_step(state, input) == (state, Seq::<ActionModel>::empty()),
{
}

/// Whether some actions end a turn.
pub open spec fn ends_turn(actions: Seq<ActionModel>) -> bool {
    actions.len() > 0 && actions.last() is Finish
}

/// Whether a step ends the turn exactly if the turn is finished after it, by its last action and
/// by no other.
pub open spec fn ends_once(step: Step) -> bool {
    &&& step.0.phase == Phase::Finished <==> ends_turn(step.1)
    &&& forall|i: int| 0 <= i < step.1.len() - 1 ==> !(#[trigger] step.1[i] is Finish)
}

proof fn lemma_message_ends_once(state: TurnLoopModel, msg: TurnMsgModel)
    requires
        state.phase != Phase::Finished,
    ensures
        ends_once(on_message_of_turn(state, msg)),
{
    match msg {
        TurnMsgModel::RawResponseItem { item } => {
            assert(ends_once(on_item(state, item)));
        },
        TurnMsgModel::TurnComplete { failed, .. } => {
            assert(ends_once(on_complete(state, failed)));
        },
        TurnMsgModel::Error { error } => {
            assert(ends_once(on_error(state, error)));
        },
        TurnMsgModel::ItemStarted { json, is_compaction } => {
            assert(ends_once(on_message_of_turn(state, msg)));
        },
        _ => {},
    }
}

/// A turn is ended exactly when it finishes, by the last action of the step and by no other.
pub proof fn law_turns_end_once(state: TurnLoopModel, input: LoopInputModel)
    requires
        state.phase != Phase::Finished,
    ensures
        ends_once(turn_step(state, input)),
{
    match (state.phase, input) {
        (Phase::Streaming, LoopInputModel::Event(event)) => {
            if !foreign(state, event) {
                lemma_message_ends_once(
                    TurnLoopModel {
                        awaiting_prompt_image: false,
                        awaiting_tool_image: false,
                        ..state
                    },
                    event.msg,
                );
            }
        },
        (Phase::AwaitingTool, LoopInputModel::Event(event)) => {
            assert(ends_once(on_event_while_paused(state, event)));
        },
        (Phase::AwaitingTool, LoopInputModel::ReplyReceived(reply)) => {
            assert(ends_once(on_reply(state, reply)));
        },
        (Phase::Prompting, LoopInputModel::PromptSubmitted(outcome)) => {
            assert(ends_once(on_prompt_submitted(state, outcome)));
        },
        _ => {
            assert(ends_once(turn_step(state, input)));
        },
    }
}

/// Whether an action tells the host of a classified error.
pub open spec fn tells_error(action: ActionModel) -> bool {
    action matches ActionModel::Emit(event) && event.kind == KIND_STRUCTURED_ERROR
}

/// Whether a step tells a classified error only where none was told before, and remembers it.
pub open spec fn tells_once(before: TurnLoopModel, step: Step) -> bool {
    &&& forall|i: int|
        0 <= i < step.1.len() && tells_error(#[trigger] step.1[i])
            ==> !before.protected_error_emitted && step.0.protected_error_emitted
    &&& before.protected_error_emitted ==> step.0.protected_error_emitted
}

proof fn lemma_message_tells_once(state: TurnLoopModel, msg: TurnMsgModel)
    ensures
        tells_once(state, on_message_of_turn(state, msg)),
{
    match msg {
        TurnMsgModel::RawResponseItem { item } => {
            assert(tells_once(state, on_item(state, item)));
        },
        TurnMsgModel::TurnComplete { failed, .. } => {
            assert(tells_once(state, on_complete(state, failed)));
        },
        TurnMsgModel::Error { error } => {
            assert(tells_once(state, on_error(state, error)));
        },
        TurnMsgModel::ItemStarted { json, is_compaction } => {
            assert(tells_once(state, on_message_of_turn(state, msg)));
        },
        _ => {},
    }
}

/// A classified error is told at most once in a turn: only where none was told before, and from
/// then on one was.
pub proof fn law_errors_are_told_once(state: TurnLoopModel, input: LoopInputModel)
    ensures
        tells_once(state, turn_step(state, input)),
{
    match (state.phase, input) {
        (Phase::Streaming, LoopInputModel::Event(event)) => {
            if !foreign(state, event) {
                lemma_message_tells_once(
                    TurnLoopModel {
                        awaiting_prompt_image: false,
                        awaiting_tool_image: false,
                        ..state
                    },
                    event.msg,
                );
            }
        },
        (Phase::AwaitingTool, LoopInputModel::Event(event)) => {
            assert(tells_once(state, on_event_while_paused(state, event)));
        },
        (Phase::AwaitingTool, LoopInputModel::ReplyReceived(reply)) => {
            assert(tells_once(state, on_reply(state, reply)));
        },
        (Phase::Prompting, LoopInputModel::PromptSubmitted(outcome)) => {
            assert(tells_once(state, on_prompt_submitted(state, outcome)));
        },
        _ => {
            assert(tells_once(state, turn_step(state, input)));
        },
    }
}

/// Once a turn is being interrupted it stays so, and does not complete.
pub proof fn law_interrupted_turns_do_not_complete(state: TurnLoopModel, input: LoopInputModel)
    requires
        state.interrupting,
        !state.completed,
    ensures
        turn_step(state, input).0.interrupting,
        !turn_step(state, input).0.completed,
{
}

/// Whether an action tells the host that the turn went wrong or was aborted.
pub open spec fn tells_failure(action: ActionModel) -> bool {
    action matches ActionModel::Emit(event) && (event.kind == KIND_ERROR || event.kind
        == KIND_TURN_ABORTED)
}

/// Whether some actions tell the host that the turn went wrong or was aborted.
pub open spec fn tell_failure(actions: Seq<ActionModel>) -> bool {
    exists|i: int| 0 <= i < actions.len() && tells_failure(#[trigger] actions[i])
}

/// Whether a turn is over without completion, or on its way to be interrupted.
pub open spec fn past_completion(state: TurnLoopModel) -> bool {
    &&& !state.completed
    &&& state.phase == Phase::Finished || state.interrupting || state.phase == Phase::Interrupting
        || state.phase == Phase::ActivatingAfterTimeout
}

/// The turn after some more inputs.
pub open spec fn turn_after(state: TurnLoopModel, inputs: Seq<LoopInputModel>) -> TurnLoopModel
    decreases inputs.len(),
{
    if inputs.len() == 0 {
        state
    } else {
        turn_step(turn_after(state, inputs.drop_last()), inputs.last()).0
    }
}

proof fn lemma_stays_past_completion(state: TurnLoopModel, inputs: Seq<LoopInputModel>)
    requires
        past_completion(state),
    ensures
        past_completion(turn_after(state, inputs)),
    decreases inputs.len(),
{
    if inputs.len() > 0 {
        lemma_stays_past_completion(state, inputs.drop_last());
    }
}

proof fn lemma_failing_step_is_past_completion(state: TurnLoopModel, input: LoopInputModel)
    requires
        consistent(state),
        tell_failure(turn_step(state, input).1),
    ensures
        past_completion(turn_step(state, input).0),
{
}

/// A turn that told the host of an error or of its abortion never completes, whatever follows.
pub proof fn law_failed_turns_never_complete(
    state: TurnLoopModel,
    input: LoopInputModel,
    later: Seq<LoopInputModel>,
)
    requires
        consistent(state),
        tell_failure(turn_step(state, input).1),
    ensures
        !turn_after(turn_step(state, input).0, later).completed,
{
    lemma_failing_step_is_past_completion(state, input);
    lemma_stays_past_completion(turn_step(state, input).0, later);
}

/// An event of another turn changes nothing.
pub proof fn law_foreign_events_change_nothing(state: TurnLoopModel, event: TurnEventModel)
    requires
        foreign(state, event),
    ensures
        turn_step(state, LoopInputModel::Event(event)) == (state, Seq::<ActionModel>::empty()),
{
}

/// A message that was streamed is not told again, and one that was not is told once.
pub proof fn law_messages_are_told_once(state: TurnLoopModel, message: Seq<char>)
    ensures
        state.saw_message_delta ==> on_message(state, message).1.len() == 0,
        !state.saw_message_delta && message.len() > 0 ==> on_message(state, message).1 == seq![
            tell(KIND_TEXT_DELTA, message),
        ],
{
}

} // verus!
