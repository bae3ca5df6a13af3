//! The events that cross to the host, and how a turn ends.
use vstd::prelude::*;
use vstd::std_specs::convert::FromSpecImpl;

use crate::json::{add_member, member, members_of, object2, object_of, Json, JsonModel, Member};
use crate::json_text::json_text;
use crate::lists::{lemma_filter_step, outcome};
use crate::model::Modeled;
use crate::text::{chars_of, contains_text, decimal, decimal_text, glue3, occurs_in};

verus! {

pub const KIND_REASONING_DELTA: i32 = 0;

pub const KIND_TEXT_DELTA: i32 = 1;

pub const KIND_DONE: i32 = 2;

pub const KIND_ERROR: i32 = 3;

/// Compatibility projection that holds only the latest completed assistant message. The actual
/// model context stays in the persistent rollout.
pub const KIND_HISTORY: i32 = 4;

/// A tool call of the model, as JSON `{"tool": <name>, "args": <value>}`.
pub const KIND_TOOL_CALL: i32 = 5;

/// Boundary between two reasoning summary sections.
pub const KIND_REASONING_BREAK: i32 = 6;

/// A dynamic tool call that pauses the turn until the host replies. The payload is JSON
/// `{"turn_handle", "call_id", "tool", "namespace", "arguments"}`.
pub const KIND_DYNAMIC_TOOL_CALL: i32 = 7;

/// Announces the numeric handle of a live, steerable turn.
pub const KIND_TURN_READY: i32 = 8;

/// The persistent model context was compacted.
pub const KIND_CONTEXT_COMPACTED: i32 = 9;

/// Accumulated token and context-window information of the thread.
pub const KIND_TOKEN_COUNT: i32 = 10;

/// Exact token usage reported by one completed response.
pub const KIND_RAW_RESPONSE_COMPLETED: i32 = 11;

pub const KIND_ITEM_STARTED: i32 = 12;

pub const KIND_ITEM_COMPLETED: i32 = 13;

/// Compaction of the persistent model context started.
pub const KIND_CONTEXT_COMPACTION_STARTED: i32 = 14;

/// Content-free lifecycle telemetry of deferred tool discovery. Search queries, schemas, call ids
/// and arguments never cross this boundary.
pub const KIND_TOOL_DISCOVERY: i32 = 15;

/// The turn was aborted. This is terminal and is never followed by [`KIND_DONE`] for the handle.
pub const KIND_TURN_ABORTED: i32 = 16;

/// Announces the numeric handle of a turn that is starting.
pub const KIND_TURN_STARTING: i32 = 17;

/// An error with its classification, as JSON.
pub const KIND_STRUCTURED_ERROR: i32 = 18;

/// A stage of the startup, for diagnosis.
pub const KIND_STARTUP_STAGE: i32 = 19;

/// Highest content-free discovery-event payload contract that is emitted.
pub const TOOL_DISCOVERY_CONTRACT_VERSION: u32 = 1;

/// The version of the payload of structured errors.
pub const ERROR_CONTRACT_VERSION: u32 = 1;

/// One event for the host: its kind and its text.
#[derive(Debug, PartialEq, Eq)]
pub struct BridgeEvent {
    pub kind: i32,
    pub text: String,
}

/// The mathematical content of a [`BridgeEvent`].
pub struct BridgeEventModel {
    pub kind: i32,
    pub text: Seq<char>,
}

impl DeepView for BridgeEvent {
    type V = BridgeEventModel;

    open spec fn deep_view(&self) -> BridgeEventModel {
        BridgeEventModel {
            kind: self.kind,
            text: self.text.deep_view(),
        }
    }
}

impl Modeled for BridgeEvent {
    fn duplicate(&self) -> (r: Self) {
        BridgeEvent {
            kind: self.kind,
            text: self.text.duplicate(),
        }
    }

    fn same(&self, other: &Self) -> (r: bool) {
        self.kind == other.kind
            && self.text.same(&other.text)
    }
}

impl Clone for BridgeEvent {
    fn clone(&self) -> (r: Self)
        ensures
            r.deep_view() == self.deep_view(),
    {
        self.duplicate()
    }
}

/// Why a turn failed: for the host to see, or already reported as a protected error.
#[derive(Debug, PartialEq, Eq)]
pub enum TurnFailure {
    Public(String),
    ProtectedAlreadyReported,
}

/// The mathematical content of a [`TurnFailure`].
pub enum TurnFailureModel {
    Public(Seq<char>),
    ProtectedAlreadyReported,
}

impl DeepView for TurnFailure {
    type V = TurnFailureModel;

    open spec fn deep_view(&self) -> TurnFailureModel {
        match self {
            TurnFailure::Public(x) => TurnFailureModel::Public(x.deep_view()),
            TurnFailure::ProtectedAlreadyReported => TurnFailureModel::ProtectedAlreadyReported,
        }
    }
}

impl Modeled for TurnFailure {
    fn duplicate(&self) -> (r: Self) {
        match self {
            TurnFailure::Public(x) => TurnFailure::Public(x.duplicate()),
            TurnFailure::ProtectedAlreadyReported => TurnFailure::ProtectedAlreadyReported,
        }
    }

    fn same(&self, other: &Self) -> (r: bool) {
        match (self, other) {
            (TurnFailure::Public(x), TurnFailure::Public(x_other)) => x.same(x_other),
            (TurnFailure::ProtectedAlreadyReported, TurnFailure::ProtectedAlreadyReported) => true,
            _ => false,
        }
    }
}

impl Clone for TurnFailure {
    fn clone(&self) -> (r: Self)
        ensures
            r.deep_view() == self.deep_view(),
    {
        self.duplicate()
    }
}

/// How the worker of a turn ended.
#[derive(Debug, PartialEq, Eq)]
pub enum TurnEnd {
    Finished,
    Failed(TurnFailure),
    Panicked,
}

/// The mathematical content of a [`TurnEnd`].
pub enum TurnEndModel {
    Finished,
    Failed(TurnFailureModel),
    Panicked,
}

impl DeepView for TurnEnd {
    type V = TurnEndModel;

    open spec fn deep_view(&self) -> TurnEndModel {
        match self {
            TurnEnd::Finished => TurnEndModel::Finished,
            TurnEnd::Failed(x) => TurnEndModel::Failed(x.deep_view()),
            TurnEnd::Panicked => TurnEndModel::Panicked,
        }
    }
}

impl Modeled for TurnEnd {
    fn duplicate(&self) -> (r: Self) {
        match self {
            TurnEnd::Finished => TurnEnd::Finished,
            TurnEnd::Failed(x) => TurnEnd::Failed(x.duplicate()),
            TurnEnd::Panicked => TurnEnd::Panicked,
        }
    }

    fn same(&self, other: &Self) -> (r: bool) {
        match (self, other) {
            (TurnEnd::Finished, TurnEnd::Finished) => true,
            (TurnEnd::Failed(x), TurnEnd::Failed(x_other)) => x.same(x_other),
            (TurnEnd::Panicked, TurnEnd::Panicked) => true,
            _ => false,
        }
    }
}

impl Clone for TurnEnd {
    fn clone(&self) -> (r: Self)
        ensures
            r.deep_view() == self.deep_view(),
    {
        self.duplicate()
    }
}

/// Why a rollout could not be read.
#[derive(Clone, Copy, Debug, PartialEq, Eq, Structural)]
pub enum RolloutReadError {
    ResourceExhausted,
    RecordTooLarge,
    DecodedBytesTooLarge,
    TooManyRecords,
    TruncatedRecord,
    InvalidUtf8,
    MalformedJson,
    CompressedData,
    EmptySession,
    WorkerFailed,
}

impl DeepView for RolloutReadError {
    type V = RolloutReadError;

    open spec fn deep_view(&self) -> RolloutReadError {
        *self
    }
}

impl Modeled for RolloutReadError {
    fn duplicate(&self) -> (r: Self) {
        *self
    }

    fn same(&self, other: &Self) -> (r: bool) {
        *self == *other
    }
}

/// Why a thread could not be resumed.
#[derive(Debug, PartialEq, Eq)]
pub enum ResumeError {
    RolloutRead(RolloutReadError),
    Fatal(String),
    Other,
}

/// The mathematical content of a [`ResumeError`].
pub enum ResumeErrorModel {
    RolloutRead(RolloutReadError),
    Fatal(Seq<char>),
    Other,
}

impl DeepView for ResumeError {
    type V = ResumeErrorModel;

    open spec fn deep_view(&self) -> ResumeErrorModel {
        match self {
            ResumeError::RolloutRead(x) => ResumeErrorModel::RolloutRead(*x),
            ResumeError::Fatal(x) => ResumeErrorModel::Fatal(x.deep_view()),
            ResumeError::Other => ResumeErrorModel::Other,
        }
    }
}

impl Modeled for ResumeError {
    fn duplicate(&self) -> (r: Self) {
        match self {
            ResumeError::RolloutRead(x) => ResumeError::RolloutRead(*x),
            ResumeError::Fatal(x) => ResumeError::Fatal(x.duplicate()),
            ResumeError::Other => ResumeError::Other,
        }
    }

    fn same(&self, other: &Self) -> (r: bool) {
        match (self, other) {
            (ResumeError::RolloutRead(x), ResumeError::RolloutRead(x_other)) => *x == *x_other,
            (ResumeError::Fatal(x), ResumeError::Fatal(x_other)) => x.same(x_other),
            (ResumeError::Other, ResumeError::Other) => true,
            _ => false,
        }
    }
}

impl Clone for ResumeError {
    fn clone(&self) -> (r: Self)
        ensures
            r.deep_view() == self.deep_view(),
    {
        self.duplicate()
    }
}

/// The classification that the runtime gives an error.
#[derive(Debug, PartialEq, Eq)]
pub enum CodexErrorInfo {
    ContextWindowExceeded,
    SessionBudgetExceeded,
    UsageLimitExceeded,
    ServerOverloaded,
    CyberPolicy,
    HttpConnectionFailed { http_status_code: Option<u16> },
    ResponseStreamConnectionFailed { http_status_code: Option<u16> },
    InternalServerError,
    Unauthorized,
    BadRequest,
    SandboxError,
    ResponseStreamDisconnected { http_status_code: Option<u16> },
    ResponseTooManyFailedAttempts { http_status_code: Option<u16> },
    Other,
}

/// The mathematical content of a [`CodexErrorInfo`].
pub enum CodexErrorInfoModel {
    ContextWindowExceeded,
    SessionBudgetExceeded,
    UsageLimitExceeded,
    ServerOverloaded,
    CyberPolicy,
    HttpConnectionFailed { http_status_code: Option<u16> },
    ResponseStreamConnectionFailed { http_status_code: Option<u16> },
    InternalServerError,
    Unauthorized,
    BadRequest,
    SandboxError,
    ResponseStreamDisconnected { http_status_code: Option<u16> },
    ResponseTooManyFailedAttempts { http_status_code: Option<u16> },
    Other,
}

impl DeepView for CodexErrorInfo {
    type V = CodexErrorInfoModel;

    open spec fn deep_view(&self) -> CodexErrorInfoModel {
        match self {
            CodexErrorInfo::ContextWindowExceeded => CodexErrorInfoModel::ContextWindowExceeded,
            CodexErrorInfo::SessionBudgetExceeded => CodexErrorInfoModel::SessionBudgetExceeded,
            CodexErrorInfo::UsageLimitExceeded => CodexErrorInfoModel::UsageLimitExceeded,
            CodexErrorInfo::ServerOverloaded => CodexErrorInfoModel::ServerOverloaded,
            CodexErrorInfo::CyberPolicy => CodexErrorInfoModel::CyberPolicy,
            CodexErrorInfo::HttpConnectionFailed { http_status_code } => {
                CodexErrorInfoModel::HttpConnectionFailed {
                    http_status_code: http_status_code.deep_view(),
                }
            },
            CodexErrorInfo::ResponseStreamConnectionFailed { http_status_code } => {
                CodexErrorInfoModel::ResponseStreamConnectionFailed {
                    http_status_code: http_status_code.deep_view(),
                }
            },
            CodexErrorInfo::InternalServerError => CodexErrorInfoModel::InternalServerError,
            CodexErrorInfo::Unauthorized => CodexErrorInfoModel::Unauthorized,
            CodexErrorInfo::BadRequest => CodexErrorInfoModel::BadRequest,
            CodexErrorInfo::SandboxError => CodexErrorInfoModel::SandboxError,
            CodexErrorInfo::ResponseStreamDisconnected { http_status_code } => {
                CodexErrorInfoModel::ResponseStreamDisconnected {
                    http_status_code: http_status_code.deep_view(),
                }
            },
            CodexErrorInfo::ResponseTooManyFailedAttempts { http_status_code } => {
                CodexErrorInfoModel::ResponseTooManyFailedAttempts {
                    http_status_code: http_status_code.deep_view(),
                }
            },
            CodexErrorInfo::Other => CodexErrorInfoModel::Other,
        }
    }
}

impl Modeled for CodexErrorInfo {
    fn duplicate(&self) -> (r: Self) {
        match self {
            CodexErrorInfo::ContextWindowExceeded => CodexErrorInfo::ContextWindowExceeded,
            CodexErrorInfo::SessionBudgetExceeded => CodexErrorInfo::SessionBudgetExceeded,
            CodexErrorInfo::UsageLimitExceeded => CodexErrorInfo::UsageLimitExceeded,
            CodexErrorInfo::ServerOverloaded => CodexErrorInfo::ServerOverloaded,
            CodexErrorInfo::CyberPolicy => CodexErrorInfo::CyberPolicy,
            CodexErrorInfo::HttpConnectionFailed { http_status_code } => {
                CodexErrorInfo::HttpConnectionFailed {
                    http_status_code: http_status_code.duplicate(),
                }
            },
            CodexErrorInfo::ResponseStreamConnectionFailed { http_status_code } => {
                CodexErrorInfo::ResponseStreamConnectionFailed {
                    http_status_code: http_status_code.duplicate(),
                }
            },
            CodexErrorInfo::InternalServerError => CodexErrorInfo::InternalServerError,
            CodexErrorInfo::Unauthorized => CodexErrorInfo::Unauthorized,
            CodexErrorInfo::BadRequest => CodexErrorInfo::BadRequest,
            CodexErrorInfo::SandboxError => CodexErrorInfo::SandboxError,
            CodexErrorInfo::ResponseStreamDisconnected { http_status_code } => {
                CodexErrorInfo::ResponseStreamDisconnected {
                    http_status_code: http_status_code.duplicate(),
                }
            },
            CodexErrorInfo::ResponseTooManyFailedAttempts { http_status_code } => {
                CodexErrorInfo::ResponseTooManyFailedAttempts {
                    http_status_code: http_status_code.duplicate(),
                }
            },
            CodexErrorInfo::Other => CodexErrorInfo::Other,
        }
    }

    fn same(&self, other: &Self) -> (r: bool) {
        match (self, other) {
            (CodexErrorInfo::ContextWindowExceeded, CodexErrorInfo::ContextWindowExceeded) => true,
            (CodexErrorInfo::SessionBudgetExceeded, CodexErrorInfo::SessionBudgetExceeded) => true,
            (CodexErrorInfo::UsageLimitExceeded, CodexErrorInfo::UsageLimitExceeded) => true,
            (CodexErrorInfo::ServerOverloaded, CodexErrorInfo::ServerOverloaded) => true,
            (CodexErrorInfo::CyberPolicy, CodexErrorInfo::CyberPolicy) => true,
            (
                CodexErrorInfo::HttpConnectionFailed { http_status_code },
                CodexErrorInfo::HttpConnectionFailed { http_status_code: http_status_code_other },
            ) => http_status_code.same(http_status_code_other),
            (
                CodexErrorInfo::ResponseStreamConnectionFailed { http_status_code },
                CodexErrorInfo::ResponseStreamConnectionFailed {
                    http_status_code: http_status_code_other,
                },
            ) => http_status_code.same(http_status_code_other),
            (CodexErrorInfo::InternalServerError, CodexErrorInfo::InternalServerError) => true,
            (CodexErrorInfo::Unauthorized, CodexErrorInfo::Unauthorized) => true,
            (CodexErrorInfo::BadRequest, CodexErrorInfo::BadRequest) => true,
            (CodexErrorInfo::SandboxError, CodexErrorInfo::SandboxError) => true,
            (
                CodexErrorInfo::ResponseStreamDisconnected { http_status_code },
                CodexErrorInfo::ResponseStreamDisconnected {
                    http_status_code: http_status_code_other,
                },
            ) => http_status_code.same(http_status_code_other),
            (
                CodexErrorInfo::ResponseTooManyFailedAttempts { http_status_code },
                CodexErrorInfo::ResponseTooManyFailedAttempts {
                    http_status_code: http_status_code_other,
                },
            ) => http_status_code.same(http_status_code_other),
            (CodexErrorInfo::Other, CodexErrorInfo::Other) => true,
            _ => false,
        }
    }
}

impl Clone for CodexErrorInfo {
    fn clone(&self) -> (r: Self)
        ensures
            r.deep_view() == self.deep_view(),
    {
        self.duplicate()
    }
}

/// An error of a turn.
#[derive(Debug, PartialEq, Eq)]
pub struct ErrorEvent {
    pub message: String,
    pub codex_error_info: Option<CodexErrorInfo>,
}

/// The mathematical content of a [`ErrorEvent`].
pub struct ErrorEventModel {
    pub message: Seq<char>,
    pub codex_error_info: Option<CodexErrorInfoModel>,
}

impl DeepView for ErrorEvent {
    type V = ErrorEventModel;

    open spec fn deep_view(&self) -> ErrorEventModel {
        ErrorEventModel {
            message: self.message.deep_view(),
            codex_error_info: self.codex_error_info.deep_view(),
        }
    }
}

impl Modeled for ErrorEvent {
    fn duplicate(&self) -> (r: Self) {
        ErrorEvent {
            message: self.message.duplicate(),
            codex_error_info: self.codex_error_info.duplicate(),
        }
    }

    fn same(&self, other: &Self) -> (r: bool) {
        self.message.same(&other.message)
            && self.codex_error_info.same(&other.codex_error_info)
    }
}

impl Clone for ErrorEvent {
    fn clone(&self) -> (r: Self)
        ensures
            r.deep_view() == self.deep_view(),
    {
        self.duplicate()
    }
}


// ---------------------------------------------------------------------------------------------
// Events

/// A text without NUL characters, which no C string can hold.
pub open spec fn without_nul(text: Seq<char>) -> Seq<char> {
    text.filter(|c: char| c != '\0')
}

/// The event of a kind with a text.
pub open spec fn event_of(kind: i32, text: Seq<char>) -> BridgeEventModel {
    BridgeEventModel { kind, text: without_nul(text) }
}

/// A text without NUL characters.
pub fn strip_nul(text: &str) -> (r: String)
    ensures
        r@ == without_nul(text@),
{
    let v = chars_of(text);
    let ghost pred = |c: char| c != '\0';
    let mut out = String::new();
    let mut i: usize = 0;
    proof {
        reveal(Seq::filter);
        assert(v@.take(0).filter(pred) =~= Seq::empty());
        assert(out@ =~= Seq::empty());
    }
    while i < v.len()
        invariant
            i <= v@.len(),
            v@ == text@,
            pred == (|c: char| c != '\0'),
            out@ == v@.take(i as int).filter(pred),
        decreases v.len() - i,
    {
        let c = v[i];
        proof {
            lemma_filter_step(v@, pred, i as int);
        }
        if c != '\0' {
            out.push(c);
        }
        i = i + 1;
    }
    assert(v@.take(v@.len() as int) =~= v@);
    out
}

/// The event of a kind with a text. NUL characters are taken out of the text.
pub fn emit(kind: i32, text: &str) -> (r: BridgeEvent)
    ensures
        r.deep_view() == event_of(kind, text@),
{
    BridgeEvent { kind, text: strip_nul(text) }
}

/// A text without NUL characters reaches the host as it is.
pub proof fn law_plain_text_is_emitted_unchanged(text: Seq<char>)
    requires
        forall|i: int| 0 <= i < text.len() ==> #[trigger] text[i] != '\0',
    ensures
        without_nul(text) == text,
    decreases text.len(),
{
    reveal(Seq::filter);
    if text.len() > 0 {
        let front = text.drop_last();
        assert forall|i: int| 0 <= i < front.len() implies #[trigger] front[i] != '\0' by {
            assert(front[i] == text[i]);
        }
        law_plain_text_is_emitted_unchanged(front);
        assert(text[text.len() - 1] != '\0');
        assert(front.push(text.last()) =~= text);
    }
}

/// The event of a startup stage.
pub fn emit_debug_stage(stage: &str) -> (r: BridgeEvent)
    ensures
        r.deep_view() == event_of(KIND_STARTUP_STAGE, stage@),
{
    emit(KIND_STARTUP_STAGE, stage)
}

/// The events of a started item: always the item itself, and the start of a compaction where the
/// item is one. An item that could not be encoded gives none.
pub open spec fn item_started_events(json: Option<Seq<char>>, is_compaction: bool) -> Seq<
    BridgeEventModel,
> {
    match json {
        None => Seq::empty(),
        Some(json) => if is_compaction {
            seq![event_of(KIND_ITEM_STARTED, json), event_of(KIND_CONTEXT_COMPACTION_STARTED, json)]
        } else {
            seq![event_of(KIND_ITEM_STARTED, json)]
        },
    }
}

/// The events of a started item.
pub fn emit_item_started_events(json: &Option<String>, is_compaction: bool) -> (r: Vec<BridgeEvent>)
    ensures
        r.deep_view() == item_started_events(json.deep_view(), is_compaction),
{
    let mut events: Vec<BridgeEvent> = Vec::new();
    if let Some(json) = json {
        events.push(emit(KIND_ITEM_STARTED, json.as_str()));
        if is_compaction {
            events.push(emit(KIND_CONTEXT_COMPACTION_STARTED, json.as_str()));
        }
    }
    assert(events.deep_view() =~= item_started_events(json.deep_view(), is_compaction));
    events
}

/// The highest discovery-event payload contract that is emitted.
pub fn codex_ios_tool_discovery_contract_version() -> (r: u32)
    ensures
        r == TOOL_DISCOVERY_CONTRACT_VERSION,
{
    TOOL_DISCOVERY_CONTRACT_VERSION
}

/// The payload of a discovery event: its version and its name, and nothing else.
pub open spec fn discovery_json(event: Seq<char>) -> JsonModel {
    JsonModel::Object(
        seq![
            member(
                "contract_version"@,
                JsonModel::Number(decimal_text(TOOL_DISCOVERY_CONTRACT_VERSION as nat)),
            ),
            member("event"@, JsonModel::Text(event)),
        ],
    )
}

/// The payload of a discovery event.
pub fn tool_discovery_event(event: &str) -> (r: Json)
    ensures
        r.deep_view() == discovery_json(event@),
{
    object2(
        "contract_version",
        Json::Number(decimal(TOOL_DISCOVERY_CONTRACT_VERSION as u64)),
        "event",
        Json::Text(event.to_owned()),
    )
}

/// The payload of a discovery event, written out.
pub fn tool_discovery_event_json(event: &str) -> (r: String)
    ensures
        r@ == json_text(discovery_json(event@)),
{
    tool_discovery_event(event).render()
}

// ---------------------------------------------------------------------------------------------
// The end of a turn

impl FromSpecImpl<String> for TurnFailure {
    open spec fn obeys_from_spec() -> bool {
        true
    }

    open spec fn from_spec(message: String) -> Self {
        TurnFailure::Public(message)
    }
}

impl From<String> for TurnFailure {
    fn from(message: String) -> (r: Self) {
        TurnFailure::Public(message)
    }
}

/// Two errors in one text.
pub open spec fn joined_errors(first: Seq<char>, second: Seq<char>) -> Seq<char> {
    first + "; additionally: "@ + second
}

/// The error of two results, where either has one.
pub open spec fn either_error(
    first: Result<(),
    Seq<char>>,
    second: Result<(),
    Seq<char>>,
) -> Result<
    (),
    Seq<char>,
> {
    match (first, second) {
        (Ok(_), Ok(_)) => Ok(()),
        (Err(error), Ok(_)) => Err(error),
        (Ok(_), Err(error)) => Err(error),
        (Err(error), Err(other)) => Err(joined_errors(error, other)),
    }
}

fn join_results(first: Result<(), String>, second: Result<(), String>) -> (r: Result<(), String>)
    ensures
        outcome(r) == either_error(outcome(first), outcome(second)),
{
    match (first, second) {
        (Ok(()), Ok(())) => Ok(()),
        (Err(error), Ok(())) => Err(error),
        (Ok(()), Err(error)) => Err(error),
        (Err(error), Err(other)) => Err(
            glue3(error.as_str(), "; additionally: ", other.as_str()),
        ),
    }
}

/// How a turn ended, once its cleanup is known. After a protected error nothing more is said of
/// what went wrong.
pub open spec fn turn_outcome(
    protected_error_emitted: bool,
    turn_result: Result<(), Seq<char>>,
    cleanup_result: Result<(), Seq<char>>,
) -> Result<(), TurnFailureModel> {
    match either_error(turn_result, cleanup_result) {
        Ok(_) => Ok(()),
        Err(error) => if protected_error_emitted {
            Err(TurnFailureModel::ProtectedAlreadyReported)
        } else {
            Err(TurnFailureModel::Public(error))
        },
    }
}

/// How a turn ended, once its cleanup is known.
pub fn finish_turn_with_cleanup(
    protected_error_emitted: bool,
    turn_result: Result<(), String>,
    cleanup_result: Result<(), String>,
) -> (r: Result<(), TurnFailure>)
    ensures
        outcome(r) == turn_outcome(
            protected_error_emitted,
            outcome(turn_result),
            outcome(cleanup_result),
        ),
{
    match join_results(turn_result, cleanup_result) {
        Ok(()) => Ok(()),
        Err(error) => {
            if protected_error_emitted {
                Err(TurnFailure::ProtectedAlreadyReported)
            } else {
                Err(TurnFailure::Public(error))
            }
        },
    }
}

/// What became of handing the model context back to the host. A completed turn stands once its
/// context is flushed, even if the shutdown behind it fails.
pub open spec fn detach_outcome(
    completed_turn: bool,
    detach_result: Result<(), Seq<char>>,
    shutdown_result: Result<(), Seq<char>>,
) -> Result<(), Seq<char>> {
    if completed_turn && detach_result is Ok {
        Ok(())
    } else {
        either_error(detach_result, shutdown_result)
    }
}

/// What became of handing the model context back to the host.
pub fn finish_host_detach_cleanup(
    completed_turn: bool,
    detach_result: Result<(), String>,
    shutdown_result: Result<(), String>,
) -> (r: Result<(), String>)
    ensures
        outcome(r) == detach_outcome(
            completed_turn,
            outcome(detach_result),
            outcome(shutdown_result),
        ),
{
    if completed_turn && detach_result.is_ok() {
        return Ok(());
    }
    join_results(detach_result, shutdown_result)
}

/// The events after the cleanup of a turn: success is announced for a completed turn without a
/// reported error, and only where turn and cleanup both succeeded.
pub open spec fn completion_events(
    completed_turn: bool,
    protected_error_emitted: bool,
    turn_result: Result<(), Seq<char>>,
    cleanup_result: Result<(), Seq<char>>,
) -> Seq<BridgeEventModel> {
    if completed_turn && !protected_error_emitted && turn_result is Ok && cleanup_result is Ok {
        seq![event_of(KIND_DONE, Seq::empty())]
    } else {
        Seq::empty()
    }
}

/// Ends a turn after its cleanup.
pub fn finish_turn_after_cleanup(
    completed_turn: bool,
    protected_error_emitted: bool,
    turn_result: Result<(), String>,
    cleanup_result: Result<(), String>,
) -> (r: (Vec<BridgeEvent>, Result<(), TurnFailure>))
    ensures
        r.0.deep_view() == completion_events(
            completed_turn,
            protected_error_emitted,
            outcome(turn_result),
            outcome(cleanup_result),
        ),
        outcome(r.1) == turn_outcome(
            protected_error_emitted,
            outcome(turn_result),
            outcome(cleanup_result),
        ),
{
    let result = finish_turn_with_cleanup(protected_error_emitted, turn_result, cleanup_result);
    let mut events: Vec<BridgeEvent> = Vec::new();
    if completed_turn && !protected_error_emitted && result.is_ok() {
        proof {
            reveal_strlit("");
            assert(""@ =~= Seq::empty());
        }
        events.push(emit(KIND_DONE, ""));
    }
    proof {
        assert(events.deep_view() =~= completion_events(
            completed_turn,
            protected_error_emitted,
            outcome(turn_result),
            outcome(cleanup_result),
        ));
    }
    (events, result)
}

/// The last events of a turn.
pub open spec fn ending_events(end: TurnEndModel) -> Seq<BridgeEventModel> {
    match end {
        TurnEndModel::Finished => Seq::empty(),
        TurnEndModel::Failed(TurnFailureModel::ProtectedAlreadyReported) => Seq::empty(),
        TurnEndModel::Failed(TurnFailureModel::Public(message)) => seq![
            event_of(KIND_ERROR, message),
        ],
        TurnEndModel::Panicked => seq![event_of(KIND_ERROR, "panic during turn"@)],
    }
}

/// The last events of a turn: an error for the host to see, where there is one.
pub fn emit_turn_result(end: &TurnEnd) -> (r: Vec<BridgeEvent>)
    ensures
        r.deep_view() == ending_events(end.deep_view()),
{
    let mut events: Vec<BridgeEvent> = Vec::new();
    match end {
        TurnEnd::Finished => {},
        TurnEnd::Failed(TurnFailure::ProtectedAlreadyReported) => {},
        TurnEnd::Failed(TurnFailure::Public(message)) => {
            events.push(emit(KIND_ERROR, message.as_str()));
        },
        TurnEnd::Panicked => {
            events.push(emit(KIND_ERROR, "panic during turn"));
        },
    }
    assert(events.deep_view() =~= ending_events(end.deep_view()));
    events
}

/// Success is announced only after turn and cleanup succeeded, and never beside an error.
pub proof fn law_done_only_after_successful_cleanup(
    completed_turn: bool,
    protected_error_emitted: bool,
    turn_result: Result<(), Seq<char>>,
    cleanup_result: Result<(), Seq<char>>,
)
    ensures
        completion_events(
            completed_turn,
            protected_error_emitted,
            turn_result,
            cleanup_result,
        ).len() > 0 ==> {
            &&& completed_turn
            &&& turn_result is Ok
            &&& cleanup_result is Ok
            &&& turn_outcome(protected_error_emitted, turn_result, cleanup_result) is Ok
        },
{
}

/// After a protected error no later failure reaches the host.
pub proof fn law_protected_failures_stay_inside(
    turn_result: Result<(), Seq<char>>,
    cleanup_result: Result<(), Seq<char>>,
)
    ensures
        match turn_outcome(true, turn_result, cleanup_result) {
            Ok(_) => true,
            Err(failure) => ending_events(TurnEndModel::Failed(failure)).len() == 0,
        },
{
}

// ---------------------------------------------------------------------------------------------
// Errors of the model context

/// The text of a failed storage operation. What went wrong inside is not told.
pub fn persistent_model_context_storage_error(operation: &str, _error: &str) -> (r: String)
    ensures
        r@ == "failed to "@ + operation@ + " persistent model context"@,
{
    glue3("failed to ", operation, " persistent model context")
}

/// The text of a failed end of an interrupted turn. What went wrong inside is not told.
pub fn interrupted_model_turn_cleanup_error(_error: &str) -> (r: String)
    ensures
        r@ == "failed to terminate interrupted model turn"@,
{
    "failed to terminate interrupted model turn".to_string()
}

/// The class of a failed resume.
pub open spec fn resume_class(error: ResumeErrorModel) -> Seq<char> {
    match error {
        ResumeErrorModel::RolloutRead(error) => match error {
            RolloutReadError::ResourceExhausted => "resource_exhausted"@,
            RolloutReadError::RecordTooLarge => "record_size_limit"@,
            RolloutReadError::DecodedBytesTooLarge => "decoded_bytes_limit"@,
            RolloutReadError::TooManyRecords => "record_count_limit"@,
            RolloutReadError::TruncatedRecord => "truncated_record"@,
            RolloutReadError::InvalidUtf8 => "invalid_utf8"@,
            RolloutReadError::MalformedJson => "malformed_json"@,
            RolloutReadError::CompressedData => "compressed_data"@,
            RolloutReadError::EmptySession => "invalid_or_unavailable"@,
            RolloutReadError::WorkerFailed => "invalid_or_unavailable"@,
        },
        _ => "invalid_or_unavailable"@,
    }
}

/// The reason of a failed resume.
pub open spec fn resume_reason(error: ResumeErrorModel) -> Seq<char> {
    match error {
        ResumeErrorModel::RolloutRead(_) => "rollout_read"@,
        ResumeErrorModel::Fatal(message) => if occurs_in(
            message,
            "without a durable stdout cursor receipt"@,
        ) {
            "remote_write_receipt_gap"@
        } else if occurs_in(message, "did not resolve to one exact descriptor"@) {
            "remote_session_restoration"@
        } else {
            "unclassified"@
        },
        ResumeErrorModel::Other => "unclassified"@,
    }
}

/// The class of a failed resume. It holds no content of the rollout.
pub fn model_context_resume_error_class(error: &ResumeError) -> (r: &'static str)
    ensures
        r@ == resume_class(error.deep_view()),
{
    match error {
        ResumeError::RolloutRead(error) => match *error {
            RolloutReadError::ResourceExhausted => "resource_exhausted",
            RolloutReadError::RecordTooLarge => "record_size_limit",
            RolloutReadError::DecodedBytesTooLarge => "decoded_bytes_limit",
            RolloutReadError::TooManyRecords => "record_count_limit",
            RolloutReadError::TruncatedRecord => "truncated_record",
            RolloutReadError::InvalidUtf8 => "invalid_utf8",
            RolloutReadError::MalformedJson => "malformed_json",
            RolloutReadError::CompressedData => "compressed_data",
            RolloutReadError::EmptySession => "invalid_or_unavailable",
            RolloutReadError::WorkerFailed => "invalid_or_unavailable",
        },
        _ => "invalid_or_unavailable",
    }
}

/// The reason of a failed resume. It holds no content of the error.
pub fn model_context_resume_error_reason(error: &ResumeError) -> (r: &'static str)
    ensures
        r@ == resume_reason(error.deep_view()),
{
    match error {
        ResumeError::RolloutRead(_) => "rollout_read",
        ResumeError::Fatal(message) => {
            if contains_text(message.as_str(), "without a durable stdout cursor receipt") {
                "remote_write_receipt_gap"
            } else if contains_text(message.as_str(), "did not resolve to one exact descriptor") {
                "remote_session_restoration"
            } else {
                "unclassified"
            }
        },
        ResumeError::Other => "unclassified",
    }
}

/// The text of a failed resume: its class, its stage and its reason.
pub open spec fn resume_text(stage: Seq<char>, error: ResumeErrorModel) -> Seq<char> {
    "failed to resume persistent model context ["@ + resume_class(error) + (";stage="@ + stage + (
    ";reason="@ + resume_reason(error) + "]"@))
}

/// The text of a failed resume: its class, its stage and its reason.
pub fn persistent_model_context_resume_error(stage: &str, error: &ResumeError) -> (r: String)
    ensures
        r@ == resume_text(stage@, error.deep_view()),
{
    glue3(
        "failed to resume persistent model context [",
        model_context_resume_error_class(error),
        glue3(
            ";stage=",
            stage,
            glue3(";reason=", model_context_resume_error_reason(error), "]").as_str(),
        ).as_str(),
    )
}

/// What the host is told of a failed resume depends on nothing but its stage, its class and its
/// reason.
pub proof fn law_resume_errors_are_content_free(
    stage: Seq<char>,
    a: ResumeErrorModel,
    b: ResumeErrorModel,
)
    requires
        resume_class(a) == resume_class(b),
        resume_reason(a) == resume_reason(b),
    ensures
        resume_text(stage, a) == resume_text(stage, b),
{
}

// ---------------------------------------------------------------------------------------------
// Structured errors

/// The code of an error.
pub open spec fn error_code(info: Option<CodexErrorInfoModel>) -> Seq<char> {
    match info {
        None => "other"@,
        Some(info) => match info {
            CodexErrorInfoModel::ContextWindowExceeded => "context_window_exceeded"@,
            CodexErrorInfoModel::SessionBudgetExceeded => "session_budget_exceeded"@,
            CodexErrorInfoModel::UsageLimitExceeded => "usage_limit_exceeded"@,
            CodexErrorInfoModel::ServerOverloaded => "server_overloaded"@,
            CodexErrorInfoModel::CyberPolicy => "cyber_policy"@,
            CodexErrorInfoModel::HttpConnectionFailed { .. } => "http_connection_failed"@,
            CodexErrorInfoModel::ResponseStreamConnectionFailed { .. } =>
                "response_stream_connection_failed"@,
            CodexErrorInfoModel::InternalServerError => "internal_server_error"@,
            CodexErrorInfoModel::Unauthorized => "unauthorized"@,
            CodexErrorInfoModel::BadRequest => "bad_request"@,
            CodexErrorInfoModel::SandboxError => "sandbox_error"@,
            CodexErrorInfoModel::ResponseStreamDisconnected { .. } =>
                "response_stream_disconnected"@,
            CodexErrorInfoModel::ResponseTooManyFailedAttempts { .. } =>
                "response_too_many_failed_attempts"@,
            CodexErrorInfoModel::Other => "other"@,
        },
    }
}

/// The HTTP status behind an error, where it is known.
pub open spec fn error_status(info: Option<CodexErrorInfoModel>) -> Option<u16> {
    match info {
        Some(CodexErrorInfoModel::HttpConnectionFailed { http_status_code }) => http_status_code,
        Some(CodexErrorInfoModel::ResponseStreamConnectionFailed { http_status_code }) =>
            http_status_code,
        Some(CodexErrorInfoModel::ResponseStreamDisconnected { http_status_code }) =>
            http_status_code,
        Some(CodexErrorInfoModel::ResponseTooManyFailedAttempts { http_status_code }) =>
            http_status_code,
        _ => None,
    }
}

/// The payload of a structured error. Rate limits are attached to usage-limit errors only.
pub open spec fn error_json(error: ErrorEventModel, rate_limits: Option<JsonModel>) -> JsonModel {
    let head = seq![
        member("code"@, JsonModel::Text(error_code(error.codex_error_info))),
        member(
            "contract_version"@,
            JsonModel::Number(decimal_text(ERROR_CONTRACT_VERSION as nat)),
        ),
    ];
    let status = match error_status(error.codex_error_info) {
        Some(status) => seq![
            member("http_status_code"@, JsonModel::Number(decimal_text(status as nat))),
        ],
        None => Seq::empty(),
    };
    let message = seq![member("message"@, JsonModel::Text(error.message))];
    let limits = match (error.codex_error_info, rate_limits) {
        (Some(CodexErrorInfoModel::UsageLimitExceeded), Some(limits)) => seq![
            member("rate_limits"@, limits),
        ],
        _ => Seq::empty(),
    };
    JsonModel::Object(head + status + message + limits)
}

fn code_of(info: &Option<CodexErrorInfo>) -> (r: &'static str)
    ensures
        r@ == error_code(info.deep_view()),
{
    match info {
        None => "other",
        Some(info) => match info {
            CodexErrorInfo::ContextWindowExceeded => "context_window_exceeded",
            CodexErrorInfo::SessionBudgetExceeded => "session_budget_exceeded",
            CodexErrorInfo::UsageLimitExceeded => "usage_limit_exceeded",
            CodexErrorInfo::ServerOverloaded => "server_overloaded",
            CodexErrorInfo::CyberPolicy => "cyber_policy",
            CodexErrorInfo::HttpConnectionFailed { .. } => "http_connection_failed",
            CodexErrorInfo::ResponseStreamConnectionFailed { .. } =>
                "response_stream_connection_failed",
            CodexErrorInfo::InternalServerError => "internal_server_error",
            CodexErrorInfo::Unauthorized => "unauthorized",
            CodexErrorInfo::BadRequest => "bad_request",
            CodexErrorInfo::SandboxError => "sandbox_error",
            CodexErrorInfo::ResponseStreamDisconnected { .. } => "response_stream_disconnected",
            CodexErrorInfo::ResponseTooManyFailedAttempts { .. } =>
                "response_too_many_failed_attempts",
            CodexErrorInfo::Other => "other",
        },
    }
}

fn status_of(info: &Option<CodexErrorInfo>) -> (r: Option<u16>)
    ensures
        r == error_status(info.deep_view()),
{
    match info {
        Some(CodexErrorInfo::HttpConnectionFailed { http_status_code }) => *http_status_code,
        Some(CodexErrorInfo::ResponseStreamConnectionFailed { http_status_code }) =>
            *http_status_code,
        Some(CodexErrorInfo::ResponseStreamDisconnected { http_status_code }) => *http_status_code,
        Some(CodexErrorInfo::ResponseTooManyFailedAttempts { http_status_code }) =>
            *http_status_code,
        _ => None,
    }
}

/// The payload of a structured error.
pub fn ios_error_json(error: &ErrorEvent, rate_limits: &Option<Json>) -> (r: Json)
    ensures
        r.deep_view() == error_json(error.deep_view(), rate_limits.deep_view()),
{
    let mut members: Vec<Member> = Vec::new();
    let ghost model = error.deep_view();
    assert(members_of(members@) =~= Seq::empty());
    add_member(
        &mut members,
        "code",
        Json::Text(code_of(&error.codex_error_info).to_owned()),
    );
    add_member(
        &mut members,
        "contract_version",
        Json::Number(decimal(ERROR_CONTRACT_VERSION as u64)),
    );
    if let Some(status) = status_of(&error.codex_error_info) {
        add_member(&mut members, "http_status_code", Json::Number(decimal(status as u64)));
    }
    add_member(&mut members, "message", Json::Text(error.message.clone()));
    if let Some(CodexErrorInfo::UsageLimitExceeded) = &error.codex_error_info {
        if let Some(limits) = rate_limits {
            add_member(&mut members, "rate_limits", limits.duplicate());
        }
    }
    assert(members_of(members@) =~= error_json(model, rate_limits.deep_view())->Object_0);
    object_of(members)
}

/// The payload of a structured error, written out.
pub fn ios_error_payload(error: &ErrorEvent, rate_limits: &Option<Json>) -> (r: String)
    ensures
        r@ == json_text(error_json(error.deep_view(), rate_limits.deep_view())),
{
    ios_error_json(error, rate_limits).render()
}

/// Rate limits reach the host with usage-limit errors only.
pub proof fn law_rate_limits_only_with_usage_limit(
    error: ErrorEventModel,
    rate_limits: Option<JsonModel>,
)
    requires
        error.codex_error_info != Some(CodexErrorInfoModel::UsageLimitExceeded),
    ensures
        error_json(error, rate_limits) == error_json(error, None),
{
}

} // verus!
