//! Durable, content-free admission receipts.
//!
//! Only the hash of the immutable ticket, the semantic request digest and the exact digest of one
//! execution are kept. The execution digest binds the model input and the model-context selector
//! of one generation without keeping the one verified retry from moving to a fresh context.
//!
//! Reading and writing the files, and holding the lock meanwhile, is the caller's: it hands in
//! what it found on disk and is told which record to write.
use vstd::prelude::*;
use vstd::string::*;
use vstd::utf8::encode_utf8;

use crate::digest::{canonical_digest, is_canonical_digest, sha256_digest, sha256_hex};
use crate::lists::outcome;
use crate::model::Modeled;
use crate::text::{glue3, starts_with};

verus! {

/// The version of the receipts that are written.
pub const RECEIPT_VERSION: u32 = 2;

/// The version of the answers to questions about receipts.
pub const QUERY_CONTRACT_VERSION: u32 = 1;

/// The most bytes that a ticket may have.
pub const MAX_TICKET_BYTES: usize = 512;

/// How far the admission of a turn has come, as it is kept on disk.
#[derive(Clone, Copy, Debug, PartialEq, Eq, Structural)]
pub enum AdmissionState {
    Preparing,
    PersistedQueued,
    RejectedBeforeAdmission,
    ToolOrSideEffectPossible,
    ModelRequestPossible,
    Admitted,
    Terminal,
}

impl DeepView for AdmissionState {
    type V = AdmissionState;

    open spec fn deep_view(&self) -> AdmissionState {
        *self
    }
}

impl Modeled for AdmissionState {
    fn duplicate(&self) -> (r: Self) {
        *self
    }

    fn same(&self, other: &Self) -> (r: bool) {
        *self == *other
    }
}

/// How far the admission of a turn has come in this process.
#[derive(Clone, Copy, Debug, PartialEq, Eq, Structural)]
pub enum RuntimeState {
    PreAdmission,
    ToolOrSideEffectPossible,
    ModelRequestPossible,
    Admitted,
    Finalized,
}

impl DeepView for RuntimeState {
    type V = RuntimeState;

    open spec fn deep_view(&self) -> RuntimeState {
        *self
    }
}

impl Modeled for RuntimeState {
    fn duplicate(&self) -> (r: Self) {
        *self
    }

    fn same(&self, other: &Self) -> (r: bool) {
        *self == *other
    }
}

/// Why a turn is not admitted.
#[derive(Clone, Copy, Debug, PartialEq, Eq, Structural)]
pub enum AdmissionError {
    InvalidRequest,
    Unavailable,
    Ambiguous,
    NotEligible,
    UnexpectedTransition,
}

impl DeepView for AdmissionError {
    type V = AdmissionError;

    open spec fn deep_view(&self) -> AdmissionError {
        *self
    }
}

impl Modeled for AdmissionError {
    fn duplicate(&self) -> (r: Self) {
        *self
    }

    fn same(&self, other: &Self) -> (r: bool) {
        *self == *other
    }
}

/// A request to admit a turn.
#[derive(Debug, PartialEq, Eq)]
pub struct AdmissionRequest {
    pub agent_inbox_ticket_id: String,
    pub ticket_digest: String,
    pub semantic_request_prompt: String,
    pub semantic_request_digest: String,
    pub execution_request_digest: String,
    pub receipt_root: String,
    pub generation: u32,
}

/// The mathematical content of a [`AdmissionRequest`].
pub struct AdmissionRequestModel {
    pub agent_inbox_ticket_id: Seq<char>,
    pub ticket_digest: Seq<char>,
    pub semantic_request_prompt: Seq<char>,
    pub semantic_request_digest: Seq<char>,
    pub execution_request_digest: Seq<char>,
    pub receipt_root: Seq<char>,
    pub generation: u32,
}

impl DeepView for AdmissionRequest {
    type V = AdmissionRequestModel;

    open spec fn deep_view(&self) -> AdmissionRequestModel {
        AdmissionRequestModel {
            agent_inbox_ticket_id: self.agent_inbox_ticket_id.deep_view(),
            ticket_digest: self.ticket_digest.deep_view(),
            semantic_request_prompt: self.semantic_request_prompt.deep_view(),
            semantic_request_digest: self.semantic_request_digest.deep_view(),
            execution_request_digest: self.execution_request_digest.deep_view(),
            receipt_root: self.receipt_root.deep_view(),
            generation: self.generation,
        }
    }
}

impl Modeled for AdmissionRequest {
    fn duplicate(&self) -> (r: Self) {
        AdmissionRequest {
            agent_inbox_ticket_id: self.agent_inbox_ticket_id.duplicate(),
            ticket_digest: self.ticket_digest.duplicate(),
            semantic_request_prompt: self.semantic_request_prompt.duplicate(),
            semantic_request_digest: self.semantic_request_digest.duplicate(),
            execution_request_digest: self.execution_request_digest.duplicate(),
            receipt_root: self.receipt_root.duplicate(),
            generation: self.generation,
        }
    }

    fn same(&self, other: &Self) -> (r: bool) {
        self.agent_inbox_ticket_id.same(&other.agent_inbox_ticket_id)
            && self.ticket_digest.same(&other.ticket_digest)
            && self.semantic_request_prompt.same(&other.semantic_request_prompt)
            && self.semantic_request_digest.same(&other.semantic_request_digest)
            && self.execution_request_digest.same(&other.execution_request_digest)
            && self.receipt_root.same(&other.receipt_root)
            && self.generation == other.generation
    }
}

impl Clone for AdmissionRequest {
    fn clone(&self) -> (r: Self)
        ensures
            r.deep_view() == self.deep_view(),
    {
        self.duplicate()
    }
}

/// What is kept on disk of a ticket. It holds digests and a state, never a prompt, a path, a
/// credential or an output.
#[derive(Debug, PartialEq, Eq)]
pub struct ReceiptRecord {
    pub version: u32,
    pub generation: u32,
    pub ticket_digest: String,
    pub semantic_request_digest: String,
    pub execution_request_digest: String,
    pub state: AdmissionState,
}

/// The mathematical content of a [`ReceiptRecord`].
pub struct ReceiptRecordModel {
    pub version: u32,
    pub generation: u32,
    pub ticket_digest: Seq<char>,
    pub semantic_request_digest: Seq<char>,
    pub execution_request_digest: Seq<char>,
    pub state: AdmissionState,
}

impl DeepView for ReceiptRecord {
    type V = ReceiptRecordModel;

    open spec fn deep_view(&self) -> ReceiptRecordModel {
        ReceiptRecordModel {
            version: self.version,
            generation: self.generation,
            ticket_digest: self.ticket_digest.deep_view(),
            semantic_request_digest: self.semantic_request_digest.deep_view(),
            execution_request_digest: self.execution_request_digest.deep_view(),
            state: self.state,
        }
    }
}

impl Modeled for ReceiptRecord {
    fn duplicate(&self) -> (r: Self) {
        ReceiptRecord {
            version: self.version,
            generation: self.generation,
            ticket_digest: self.ticket_digest.duplicate(),
            semantic_request_digest: self.semantic_request_digest.duplicate(),
            execution_request_digest: self.execution_request_digest.duplicate(),
            state: self.state,
        }
    }

    fn same(&self, other: &Self) -> (r: bool) {
        self.version == other.version
            && self.generation == other.generation
            && self.ticket_digest.same(&other.ticket_digest)
            && self.semantic_request_digest.same(&other.semantic_request_digest)
            && self.execution_request_digest.same(&other.execution_request_digest)
            && self.state == other.state
    }
}

impl Clone for ReceiptRecord {
    fn clone(&self) -> (r: Self)
        ensures
            r.deep_view() == self.deep_view(),
    {
        self.duplicate()
    }
}

/// What was found on disk of a ticket.
#[derive(Debug, PartialEq, Eq)]
pub enum StoredReceipt {
    /// A write was interrupted and left its temporary file behind.
    Interrupted,
    /// There is no receipt.
    Missing,
    /// The receipt cannot be looked at or read.
    Unreadable,
    /// Something other than a plain file stands in the receipt's place.
    NotAFile,
    /// The file is no receipt.
    Malformed,
    /// The file holds this record.
    Record(ReceiptRecord),
}

/// The mathematical content of a [`StoredReceipt`].
pub enum StoredReceiptModel {
    Interrupted,
    Missing,
    Unreadable,
    NotAFile,
    Malformed,
    Record(ReceiptRecordModel),
}

impl DeepView for StoredReceipt {
    type V = StoredReceiptModel;

    open spec fn deep_view(&self) -> StoredReceiptModel {
        match self {
            StoredReceipt::Interrupted => StoredReceiptModel::Interrupted,
            StoredReceipt::Missing => StoredReceiptModel::Missing,
            StoredReceipt::Unreadable => StoredReceiptModel::Unreadable,
            StoredReceipt::NotAFile => StoredReceiptModel::NotAFile,
            StoredReceipt::Malformed => StoredReceiptModel::Malformed,
            StoredReceipt::Record(x) => StoredReceiptModel::Record(x.deep_view()),
        }
    }
}

impl Modeled for StoredReceipt {
    fn duplicate(&self) -> (r: Self) {
        match self {
            StoredReceipt::Interrupted => StoredReceipt::Interrupted,
            StoredReceipt::Missing => StoredReceipt::Missing,
            StoredReceipt::Unreadable => StoredReceipt::Unreadable,
            StoredReceipt::NotAFile => StoredReceipt::NotAFile,
            StoredReceipt::Malformed => StoredReceipt::Malformed,
            StoredReceipt::Record(x) => StoredReceipt::Record(x.duplicate()),
        }
    }

    fn same(&self, other: &Self) -> (r: bool) {
        match (self, other) {
            (StoredReceipt::Interrupted, StoredReceipt::Interrupted) => true,
            (StoredReceipt::Missing, StoredReceipt::Missing) => true,
            (StoredReceipt::Unreadable, StoredReceipt::Unreadable) => true,
            (StoredReceipt::NotAFile, StoredReceipt::NotAFile) => true,
            (StoredReceipt::Malformed, StoredReceipt::Malformed) => true,
            (StoredReceipt::Record(x), StoredReceipt::Record(x_other)) => x.same(x_other),
            _ => false,
        }
    }
}

impl Clone for StoredReceipt {
    fn clone(&self) -> (r: Self)
        ensures
            r.deep_view() == self.deep_view(),
    {
        self.duplicate()
    }
}

/// What was found on the way to a receipt.
#[derive(Debug, PartialEq, Eq)]
pub enum ReceiptLookup {
    /// The directory of receipts does not exist.
    RootMissing,
    /// The directory is unusable, or the lock could not be taken.
    RootUnavailable,
    /// Under the lock, this was found.
    Found(StoredReceipt),
}

/// The mathematical content of a [`ReceiptLookup`].
pub enum ReceiptLookupModel {
    RootMissing,
    RootUnavailable,
    Found(StoredReceiptModel),
}

impl DeepView for ReceiptLookup {
    type V = ReceiptLookupModel;

    open spec fn deep_view(&self) -> ReceiptLookupModel {
        match self {
            ReceiptLookup::RootMissing => ReceiptLookupModel::RootMissing,
            ReceiptLookup::RootUnavailable => ReceiptLookupModel::RootUnavailable,
            ReceiptLookup::Found(x) => ReceiptLookupModel::Found(x.deep_view()),
        }
    }
}

impl Modeled for ReceiptLookup {
    fn duplicate(&self) -> (r: Self) {
        match self {
            ReceiptLookup::RootMissing => ReceiptLookup::RootMissing,
            ReceiptLookup::RootUnavailable => ReceiptLookup::RootUnavailable,
            ReceiptLookup::Found(x) => ReceiptLookup::Found(x.duplicate()),
        }
    }

    fn same(&self, other: &Self) -> (r: bool) {
        match (self, other) {
            (ReceiptLookup::RootMissing, ReceiptLookup::RootMissing) => true,
            (ReceiptLookup::RootUnavailable, ReceiptLookup::RootUnavailable) => true,
            (ReceiptLookup::Found(x), ReceiptLookup::Found(x_other)) => x.same(x_other),
            _ => false,
        }
    }
}

impl Clone for ReceiptLookup {
    fn clone(&self) -> (r: Self)
        ensures
            r.deep_view() == self.deep_view(),
    {
        self.duplicate()
    }
}

/// The receipt that one turn holds.
#[derive(Debug, PartialEq, Eq)]
pub struct Receipt {
    pub ticket_digest: String,
    pub semantic_request_digest: String,
    pub execution_request_digest: String,
    pub generation: u32,
}

/// The mathematical content of a [`Receipt`].
pub struct ReceiptModel {
    pub ticket_digest: Seq<char>,
    pub semantic_request_digest: Seq<char>,
    pub execution_request_digest: Seq<char>,
    pub generation: u32,
}

impl DeepView for Receipt {
    type V = ReceiptModel;

    open spec fn deep_view(&self) -> ReceiptModel {
        ReceiptModel {
            ticket_digest: self.ticket_digest.deep_view(),
            semantic_request_digest: self.semantic_request_digest.deep_view(),
            execution_request_digest: self.execution_request_digest.deep_view(),
            generation: self.generation,
        }
    }
}

impl Modeled for Receipt {
    fn duplicate(&self) -> (r: Self) {
        Receipt {
            ticket_digest: self.ticket_digest.duplicate(),
            semantic_request_digest: self.semantic_request_digest.duplicate(),
            execution_request_digest: self.execution_request_digest.duplicate(),
            generation: self.generation,
        }
    }

    fn same(&self, other: &Self) -> (r: bool) {
        self.ticket_digest.same(&other.ticket_digest)
            && self.semantic_request_digest.same(&other.semantic_request_digest)
            && self.execution_request_digest.same(&other.execution_request_digest)
            && self.generation == other.generation
    }
}

impl Clone for Receipt {
    fn clone(&self) -> (r: Self)
        ensures
            r.deep_view() == self.deep_view(),
    {
        self.duplicate()
    }
}

/// The admission of one turn.
#[derive(Debug, PartialEq, Eq)]
pub struct TurnAdmission {
    pub receipt: Receipt,
    pub agent_inbox_ticket_id: String,
    pub semantic_request_prompt: String,
    pub runtime_state: RuntimeState,
}

/// The mathematical content of a [`TurnAdmission`].
pub struct TurnAdmissionModel {
    pub receipt: ReceiptModel,
    pub agent_inbox_ticket_id: Seq<char>,
    pub semantic_request_prompt: Seq<char>,
    pub runtime_state: RuntimeState,
}

impl DeepView for TurnAdmission {
    type V = TurnAdmissionModel;

    open spec fn deep_view(&self) -> TurnAdmissionModel {
        TurnAdmissionModel {
            receipt: self.receipt.deep_view(),
            agent_inbox_ticket_id: self.agent_inbox_ticket_id.deep_view(),
            semantic_request_prompt: self.semantic_request_prompt.deep_view(),
            runtime_state: self.runtime_state,
        }
    }
}

impl Modeled for TurnAdmission {
    fn duplicate(&self) -> (r: Self) {
        TurnAdmission {
            receipt: self.receipt.duplicate(),
            agent_inbox_ticket_id: self.agent_inbox_ticket_id.duplicate(),
            semantic_request_prompt: self.semantic_request_prompt.duplicate(),
            runtime_state: self.runtime_state,
        }
    }

    fn same(&self, other: &Self) -> (r: bool) {
        self.receipt.same(&other.receipt)
            && self.agent_inbox_ticket_id.same(&other.agent_inbox_ticket_id)
            && self.semantic_request_prompt.same(&other.semantic_request_prompt)
            && self.runtime_state == other.runtime_state
    }
}

impl Clone for TurnAdmission {
    fn clone(&self) -> (r: Self)
        ensures
            r.deep_view() == self.deep_view(),
    {
        self.duplicate()
    }
}

/// The steps of an admission.
#[derive(Clone, Copy, Debug, PartialEq, Eq, Structural)]
pub enum AdmissionStep {
    RejectedBeforeAdmission,
    ToolOrSideEffectPossible,
    ModelRequestPossible,
    Admitted,
    Terminal,
}

impl DeepView for AdmissionStep {
    type V = AdmissionStep;

    open spec fn deep_view(&self) -> AdmissionStep {
        *self
    }
}

impl Modeled for AdmissionStep {
    fn duplicate(&self) -> (r: Self) {
        *self
    }

    fn same(&self, other: &Self) -> (r: bool) {
        *self == *other
    }
}

/// The answer to a question about a receipt.
#[derive(Debug, PartialEq, Eq)]
pub struct AdmissionReceiptQuery {
    pub contract_version: u32,
    pub receipt_version: u32,
    pub state: &'static str,
    pub generation: u32,
    pub digest_match: bool,
    pub authorizes_generation_one_start: bool,
}

/// The mathematical content of a [`AdmissionReceiptQuery`].
pub struct AdmissionReceiptQueryModel {
    pub contract_version: u32,
    pub receipt_version: u32,
    pub state: Seq<char>,
    pub generation: u32,
    pub digest_match: bool,
    pub authorizes_generation_one_start: bool,
}

impl DeepView for AdmissionReceiptQuery {
    type V = AdmissionReceiptQueryModel;

    open spec fn deep_view(&self) -> AdmissionReceiptQueryModel {
        AdmissionReceiptQueryModel {
            contract_version: self.contract_version,
            receipt_version: self.receipt_version,
            state: self.state.deep_view(),
            generation: self.generation,
            digest_match: self.digest_match,
            authorizes_generation_one_start: self.authorizes_generation_one_start,
        }
    }
}

impl Modeled for AdmissionReceiptQuery {
    fn duplicate(&self) -> (r: Self) {
        AdmissionReceiptQuery {
            contract_version: self.contract_version,
            receipt_version: self.receipt_version,
            state: self.state.duplicate(),
            generation: self.generation,
            digest_match: self.digest_match,
            authorizes_generation_one_start: self.authorizes_generation_one_start,
        }
    }

    fn same(&self, other: &Self) -> (r: bool) {
        self.contract_version == other.contract_version
            && self.receipt_version == other.receipt_version
            && self.state.same(&other.state)
            && self.generation == other.generation
            && self.digest_match == other.digest_match
            && self.authorizes_generation_one_start == other.authorizes_generation_one_start
    }
}

impl Clone for AdmissionReceiptQuery {
    fn clone(&self) -> (r: Self)
        ensures
            r.deep_view() == self.deep_view(),
    {
        self.duplicate()
    }
}

/// The names of the files of a receipt within the directory of receipts.
#[derive(Debug, PartialEq, Eq)]
pub struct ReceiptPaths {
    pub receipt: String,
    pub temporary: String,
    pub lock: String,
}

/// The mathematical content of a [`ReceiptPaths`].
pub struct ReceiptPathsModel {
    pub receipt: Seq<char>,
    pub temporary: Seq<char>,
    pub lock: Seq<char>,
}

impl DeepView for ReceiptPaths {
    type V = ReceiptPathsModel;

    open spec fn deep_view(&self) -> ReceiptPathsModel {
        ReceiptPathsModel {
            receipt: self.receipt.deep_view(),
            temporary: self.temporary.deep_view(),
            lock: self.lock.deep_view(),
        }
    }
}

impl Modeled for ReceiptPaths {
    fn duplicate(&self) -> (r: Self) {
        ReceiptPaths {
            receipt: self.receipt.duplicate(),
            temporary: self.temporary.duplicate(),
            lock: self.lock.duplicate(),
        }
    }

    fn same(&self, other: &Self) -> (r: bool) {
        self.receipt.same(&other.receipt)
            && self.temporary.same(&other.temporary)
            && self.lock.same(&other.lock)
    }
}

impl Clone for ReceiptPaths {
    fn clone(&self) -> (r: Self)
        ensures
            r.deep_view() == self.deep_view(),
    {
        self.duplicate()
    }
}


/// The name of a state.
pub open spec fn state_name(state: AdmissionState) -> Seq<char> {
    match state {
        AdmissionState::Preparing => "preparing"@,
        AdmissionState::PersistedQueued => "persisted_queued"@,
        AdmissionState::RejectedBeforeAdmission => "rejected_before_admission"@,
        AdmissionState::ToolOrSideEffectPossible => "tool_or_side_effect_possible"@,
        AdmissionState::ModelRequestPossible => "model_request_possible"@,
        AdmissionState::Admitted => "admitted"@,
        AdmissionState::Terminal => "terminal"@,
    }
}

impl AdmissionState {
    /// The name of the state.
    pub fn as_str(self) -> (r: &'static str)
        ensures
            r@ == state_name(self),
    {
        match self {
            AdmissionState::Preparing => "preparing",
            AdmissionState::PersistedQueued => "persisted_queued",
            AdmissionState::RejectedBeforeAdmission => "rejected_before_admission",
            AdmissionState::ToolOrSideEffectPossible => "tool_or_side_effect_possible",
            AdmissionState::ModelRequestPossible => "model_request_possible",
            AdmissionState::Admitted => "admitted",
            AdmissionState::Terminal => "terminal",
        }
    }
}

/// The text of an admission error.
pub open spec fn admission_error_text(error: AdmissionError) -> Seq<char> {
    match error {
        AdmissionError::InvalidRequest => "AgentApp turn admission request is invalid."@,
        AdmissionError::Unavailable => "AgentApp turn admission storage is unavailable."@,
        AdmissionError::Ambiguous => "AgentApp turn admission is ambiguous."@,
        AdmissionError::NotEligible => "AgentApp turn admission is not eligible."@,
        AdmissionError::UnexpectedTransition =>
            "AgentApp turn admission state changed unexpectedly."@,
    }
}

impl AdmissionError {
    /// The text of the error.
    pub fn message(self) -> (r: &'static str)
        ensures
            r@ == admission_error_text(self),
    {
        match self {
            AdmissionError::InvalidRequest => "AgentApp turn admission request is invalid.",
            AdmissionError::Unavailable => "AgentApp turn admission storage is unavailable.",
            AdmissionError::Ambiguous => "AgentApp turn admission is ambiguous.",
            AdmissionError::NotEligible => "AgentApp turn admission is not eligible.",
            AdmissionError::UnexpectedTransition =>
                "AgentApp turn admission state changed unexpectedly.",
        }
    }
}

// ---------------------------------------------------------------------------------------------
// Requests

/// Whether the parts of a request are in order.
pub open spec fn request_is_valid(
    ticket: Seq<char>,
    semantic: Seq<char>,
    execution: Seq<char>,
    root: Seq<char>,
    generation: u32,
) -> bool {
    &&& ticket.len() > 0
    &&& encode_utf8(ticket).len() <= MAX_TICKET_BYTES
    &&& generation <= 1
    &&& canonical_digest(semantic)
    &&& canonical_digest(execution)
    &&& "/"@.is_prefix_of(root)
}

impl AdmissionRequest {
    /// A request for a ticket. It is refused unless the ticket is named within bounds, there is
    /// at most one retry, both digests have their form, and the directory is an absolute path.
    pub fn new(
        agent_inbox_ticket_id: String,
        semantic_request_digest: String,
        execution_request_digest: String,
        receipt_root: String,
        generation: u32,
    ) -> (r: Result<Self, AdmissionError>)
        ensures
            r is Ok <==> request_is_valid(
                agent_inbox_ticket_id@,
                semantic_request_digest@,
                execution_request_digest@,
                receipt_root@,
                generation,
            ),
            r matches Err(error) ==> error == AdmissionError::InvalidRequest,
            r matches Ok(request) ==> request.deep_view() == (AdmissionRequestModel {
                agent_inbox_ticket_id: agent_inbox_ticket_id@,
                ticket_digest: sha256_hex(encode_utf8(agent_inbox_ticket_id@)),
                semantic_request_prompt: Seq::empty(),
                semantic_request_digest: semantic_request_digest@,
                execution_request_digest: execution_request_digest@,
                receipt_root: receipt_root@,
                generation,
            }),
            r matches Ok(request) ==> canonical_digest(request.ticket_digest@),
    {
        if agent_inbox_ticket_id.as_str().is_empty()
            || agent_inbox_ticket_id.as_str().as_bytes().len() > MAX_TICKET_BYTES || generation > 1
            || !is_canonical_digest(semantic_request_digest.as_str())
            || !is_canonical_digest(execution_request_digest.as_str()) {
            return Err(AdmissionError::InvalidRequest);
        }
        if !starts_with(receipt_root.as_str(), "/") {
            return Err(AdmissionError::InvalidRequest);
        }
        let ticket_digest = sha256_digest(agent_inbox_ticket_id.as_str());
        let prompt = String::new();
        assert(prompt@ =~= Seq::empty());
        Ok(
            AdmissionRequest {
                agent_inbox_ticket_id,
                ticket_digest,
                semantic_request_prompt: prompt,
                semantic_request_digest,
                execution_request_digest,
                receipt_root,
                generation,
            },
        )
    }

    /// The request with the prompt that it stands for.
    pub fn with_semantic_request_prompt(self, prompt: String) -> (r: Self)
        ensures
            r == (AdmissionRequest { semantic_request_prompt: prompt, ..self }),
    {
        AdmissionRequest {
            agent_inbox_ticket_id: self.agent_inbox_ticket_id,
            ticket_digest: self.ticket_digest,
            semantic_request_prompt: prompt,
            semantic_request_digest: self.semantic_request_digest,
            execution_request_digest: self.execution_request_digest,
            receipt_root: self.receipt_root,
            generation: self.generation,
        }
    }
}

/// The first part of the names of a receipt's files.
pub open spec fn receipt_prefix(ticket_digest: Seq<char>) -> Seq<char> {
    ".agentapp-turn-admission-v2-"@ + ticket_digest
}

impl ReceiptPaths {
    /// The names of the files of a ticket's receipt.
    pub fn for_request(request: &AdmissionRequest) -> (r: Self)
        ensures
            r.receipt@ == receipt_prefix(request.ticket_digest@) + ".json"@,
            r.temporary@ == receipt_prefix(request.ticket_digest@) + ".json.tmp"@,
            r.lock@ == receipt_prefix(request.ticket_digest@) + ".lock"@,
    {
        let digest = request.ticket_digest.as_str();
        ReceiptPaths {
            receipt: glue3(".agentapp-turn-admission-v2-", digest, ".json"),
            temporary: glue3(".agentapp-turn-admission-v2-", digest, ".json.tmp"),
            lock: glue3(".agentapp-turn-admission-v2-", digest, ".lock"),
        }
    }
}

// ---------------------------------------------------------------------------------------------
// Records

/// The record of a request in a state.
pub open spec fn record_of(request: AdmissionRequestModel, state: AdmissionState, generation: u32)
    -> ReceiptRecordModel {
    ReceiptRecordModel {
        version: RECEIPT_VERSION,
        generation,
        ticket_digest: request.ticket_digest,
        semantic_request_digest: request.semantic_request_digest,
        execution_request_digest: request.execution_request_digest,
        state,
    }
}

impl ReceiptRecord {
    /// The record of a request in a state.
    pub fn new(request: &AdmissionRequest, state: AdmissionState, generation: u32) -> (r: Self)
        ensures
            r.deep_view() == record_of(request.deep_view(), state, generation),
    {
        ReceiptRecord {
            version: RECEIPT_VERSION,
            generation,
            ticket_digest: request.ticket_digest.clone(),
            semantic_request_digest: request.semantic_request_digest.clone(),
            execution_request_digest: request.execution_request_digest.clone(),
            state,
        }
    }
}

/// Whether a record can be the receipt of a ticket.
pub open spec fn record_is_valid(record: ReceiptRecordModel, ticket_digest: Seq<char>) -> bool {
    &&& record.version == RECEIPT_VERSION
    &&& record.generation <= 1
    &&& canonical_digest(record.ticket_digest)
    &&& canonical_digest(record.semantic_request_digest)
    &&& canonical_digest(record.execution_request_digest)
    &&& record.ticket_digest == ticket_digest
}

/// The record of a ticket. Whatever is not plainly absent or plainly its record is refused.
pub open spec fn record_found(stored: StoredReceiptModel, ticket_digest: Seq<char>) -> Result<
    Option<ReceiptRecordModel>,
    AdmissionError,
> {
    match stored {
        StoredReceiptModel::Interrupted => Err(AdmissionError::Ambiguous),
        StoredReceiptModel::Missing => Ok(None),
        StoredReceiptModel::Unreadable => Err(AdmissionError::Unavailable),
        StoredReceiptModel::NotAFile => Err(AdmissionError::Ambiguous),
        StoredReceiptModel::Malformed => Err(AdmissionError::Ambiguous),
        StoredReceiptModel::Record(record) => if record_is_valid(record, ticket_digest) {
            Ok(Some(record))
        } else {
            Err(AdmissionError::Ambiguous)
        },
    }
}

/// The record of a ticket among what was found on disk.
pub fn read_record(stored: &StoredReceipt, ticket_digest: &String) -> (r: Result<
    Option<ReceiptRecord>,
    AdmissionError,
>)
    ensures
        outcome(r) == record_found(stored.deep_view(), ticket_digest@),
{
    match stored {
        StoredReceipt::Interrupted => Err(AdmissionError::Ambiguous),
        StoredReceipt::Missing => Ok(None),
        StoredReceipt::Unreadable => Err(AdmissionError::Unavailable),
        StoredReceipt::NotAFile => Err(AdmissionError::Ambiguous),
        StoredReceipt::Malformed => Err(AdmissionError::Ambiguous),
        StoredReceipt::Record(record) => {
            if record.version != RECEIPT_VERSION || record.generation > 1
                || !is_canonical_digest(record.ticket_digest.as_str())
                || !is_canonical_digest(record.semantic_request_digest.as_str())
                || !is_canonical_digest(record.execution_request_digest.as_str())
                || record.ticket_digest != *ticket_digest {
                return Err(AdmissionError::Ambiguous);
            }
            Ok(Some(record.duplicate()))
        },
    }
}

/// Whether a request may begin a turn where `existing` is the record of its ticket: the original
/// where there is none, and the one retry where the original was rejected before admission and
/// asked for the same.
pub open spec fn may_begin(
    request: AdmissionRequestModel,
    existing: Option<ReceiptRecordModel>,
) -> bool {
    match existing {
        None => request.generation == 0,
        Some(record) => {
            &&& request.generation == 1
            &&& record.generation == 0
            &&& record.state == AdmissionState::RejectedBeforeAdmission
            &&& record.semantic_request_digest == request.semantic_request_digest
        },
    }
}

/// The two records that are written, one after the other, when a turn begins.
pub open spec fn beginning(request: AdmissionRequestModel, stored: StoredReceiptModel) -> Result<
    (ReceiptRecordModel, ReceiptRecordModel),
    AdmissionError,
> {
    match record_found(stored, request.ticket_digest) {
        Err(error) => Err(error),
        Ok(existing) => if may_begin(request, existing) {
            Ok(
                (
                    record_of(request, AdmissionState::Preparing, request.generation),
                    record_of(request, AdmissionState::PersistedQueued, request.generation),
                ),
            )
        } else {
            Err(AdmissionError::NotEligible)
        },
    }
}

/// The receipt that a turn holds after it began.
pub open spec fn receipt_of(request: AdmissionRequestModel) -> ReceiptModel {
    ReceiptModel {
        ticket_digest: request.ticket_digest,
        semantic_request_digest: request.semantic_request_digest,
        execution_request_digest: request.execution_request_digest,
        generation: request.generation,
    }
}

/// The record that is written when a receipt goes from one state to the next.
pub open spec fn moved_record(
    receipt: ReceiptModel,
    stored: StoredReceiptModel,
    expected: AdmissionState,
    next: AdmissionState,
) -> Result<ReceiptRecordModel, AdmissionError> {
    match record_found(stored, receipt.ticket_digest) {
        Err(error) => Err(error),
        Ok(None) => Err(AdmissionError::Ambiguous),
        Ok(Some(record)) => if record.generation != receipt.generation || record.state != expected
            || record.semantic_request_digest != receipt.semantic_request_digest
            || record.execution_request_digest != receipt.execution_request_digest {
            Err(AdmissionError::UnexpectedTransition)
        } else {
            Ok(ReceiptRecordModel { state: next, ..record })
        },
    }
}

impl Receipt {
    /// Whether a turn may begin, and the two records that are then written one after the other.
    pub fn begin(request: &AdmissionRequest, stored: &StoredReceipt) -> (r: Result<
        (ReceiptRecord, ReceiptRecord),
        AdmissionError,
    >)
        ensures
            outcome(r) == beginning(request.deep_view(), stored.deep_view()),
    {
        let existing = match read_record(stored, &request.ticket_digest) {
            Ok(existing) => existing,
            Err(error) => {
                return Err(error);
            },
        };
        let eligible = match &existing {
            None => request.generation == 0,
            Some(record) => request.generation == 1 && record.generation == 0 && record.state
                == AdmissionState::RejectedBeforeAdmission && record.semantic_request_digest
                == request.semantic_request_digest,
        };
        if !eligible {
            return Err(AdmissionError::NotEligible);
        }
        Ok(
            (
                ReceiptRecord::new(request, AdmissionState::Preparing, request.generation),
                ReceiptRecord::new(request, AdmissionState::PersistedQueued, request.generation),
            ),
        )
    }

    /// The receipt that a turn holds after it began.
    pub fn for_request(request: &AdmissionRequest) -> (r: Self)
        ensures
            r.deep_view() == receipt_of(request.deep_view()),
    {
        Receipt {
            ticket_digest: request.ticket_digest.clone(),
            semantic_request_digest: request.semantic_request_digest.clone(),
            execution_request_digest: request.execution_request_digest.clone(),
            generation: request.generation,
        }
    }

    /// The record that is written when the receipt goes from one state to the next. It is refused
    /// unless exactly this receipt was found in the expected state.
    pub fn transition(
        &self,
        stored: &StoredReceipt,
        expected: AdmissionState,
        next: AdmissionState,
    ) -> (r: Result<ReceiptRecord, AdmissionError>)
        ensures
            outcome(r) == moved_record(self.deep_view(), stored.deep_view(), expected, next),
    {
        let record = match read_record(stored, &self.ticket_digest) {
            Ok(Some(record)) => record,
            Ok(None) => {
                return Err(AdmissionError::Ambiguous);
            },
            Err(error) => {
                return Err(error);
            },
        };
        if record.generation != self.generation || record.state != expected
            || record.semantic_request_digest != self.semantic_request_digest
            || record.execution_request_digest != self.execution_request_digest {
            return Err(AdmissionError::UnexpectedTransition);
        }
        Ok(
            ReceiptRecord {
                version: record.version,
                generation: record.generation,
                ticket_digest: record.ticket_digest,
                semantic_request_digest: record.semantic_request_digest,
                execution_request_digest: record.execution_request_digest,
                state: next,
            },
        )
    }
}

// ---------------------------------------------------------------------------------------------
// Turns

/// The state on disk that belongs to a state in this process.
pub open spec fn disk_state(state: RuntimeState) -> Option<AdmissionState> {
    match state {
        RuntimeState::PreAdmission => Some(AdmissionState::PersistedQueued),
        RuntimeState::ToolOrSideEffectPossible => Some(AdmissionState::ToolOrSideEffectPossible),
        RuntimeState::ModelRequestPossible => Some(AdmissionState::ModelRequestPossible),
        RuntimeState::Admitted => Some(AdmissionState::Admitted),
        RuntimeState::Finalized => None,
    }
}

/// The state on disk to which a step leads.
pub open spec fn step_target(step: AdmissionStep) -> AdmissionState {
    match step {
        AdmissionStep::RejectedBeforeAdmission => AdmissionState::RejectedBeforeAdmission,
        AdmissionStep::ToolOrSideEffectPossible => AdmissionState::ToolOrSideEffectPossible,
        AdmissionStep::ModelRequestPossible => AdmissionState::ModelRequestPossible,
        AdmissionStep::Admitted => AdmissionState::Admitted,
        AdmissionStep::Terminal => AdmissionState::Terminal,
    }
}

/// The state in this process to which a step leads.
pub open spec fn step_result(step: AdmissionStep) -> RuntimeState {
    match step {
        AdmissionStep::RejectedBeforeAdmission => RuntimeState::Finalized,
        AdmissionStep::ToolOrSideEffectPossible => RuntimeState::ToolOrSideEffectPossible,
        AdmissionStep::ModelRequestPossible => RuntimeState::ModelRequestPossible,
        AdmissionStep::Admitted => RuntimeState::Admitted,
        AdmissionStep::Terminal => RuntimeState::Finalized,
    }
}

/// Whether a step may be taken in a state.
pub open spec fn step_allowed(state: RuntimeState, step: AdmissionStep) -> bool {
    match step {
        AdmissionStep::RejectedBeforeAdmission => state == RuntimeState::PreAdmission,
        AdmissionStep::ToolOrSideEffectPossible => state == RuntimeState::PreAdmission,
        AdmissionStep::ModelRequestPossible => state == RuntimeState::PreAdmission || state
            == RuntimeState::ToolOrSideEffectPossible,
        AdmissionStep::Admitted => state == RuntimeState::ModelRequestPossible,
        AdmissionStep::Terminal => state != RuntimeState::Finalized,
    }
}

/// The record that a step writes.
pub open spec fn step_record(
    admission: TurnAdmissionModel,
    step: AdmissionStep,
    stored: StoredReceiptModel,
) -> Result<ReceiptRecordModel, AdmissionError> {
    if step_allowed(admission.runtime_state, step) {
        moved_record(
            admission.receipt,
            stored,
            disk_state(admission.runtime_state)->0,
            step_target(step),
        )
    } else {
        Err(AdmissionError::UnexpectedTransition)
    }
}

/// What a step gives: an error, or the admission in its next state. The step is taken only if its
/// record could be written.
pub open spec fn step_outcome(
    admission: TurnAdmissionModel,
    step: AdmissionStep,
    stored: StoredReceiptModel,
    written: Result<(), AdmissionError>,
) -> Result<TurnAdmissionModel, AdmissionError> {
    match step_record(admission, step, stored) {
        Err(error) => Err(error),
        Ok(_) => match written {
            Err(error) => Err(error),
            Ok(()) => Ok(TurnAdmissionModel { runtime_state: step_result(step), ..admission }),
        },
    }
}

impl TurnAdmission {
    /// Begins a turn. `written` says whether the two records of [`Receipt::begin`] were written.
    pub fn begin(
        request: &AdmissionRequest,
        stored: &StoredReceipt,
        written: Result<(), AdmissionError>,
    ) -> (r: Result<Self, AdmissionError>)
        ensures
            outcome(r) == match beginning(request.deep_view(), stored.deep_view()) {
                Err(error) => Err(error),
                Ok(_) => match written {
                    Err(error) => Err(error),
                    Ok(()) => Ok(
                        TurnAdmissionModel {
                            receipt: receipt_of(request.deep_view()),
                            agent_inbox_ticket_id: request.agent_inbox_ticket_id@,
                            semantic_request_prompt: request.semantic_request_prompt@,
                            runtime_state: RuntimeState::PreAdmission,
                        },
                    ),
                },
            },
    {
        match Receipt::begin(request, stored) {
            Err(error) => Err(error),
            Ok(_) => match written {
                Err(error) => Err(error),
                Ok(()) => Ok(
                    TurnAdmission {
                        receipt: Receipt::for_request(request),
                        agent_inbox_ticket_id: request.agent_inbox_ticket_id.clone(),
                        semantic_request_prompt: request.semantic_request_prompt.clone(),
                        runtime_state: RuntimeState::PreAdmission,
                    },
                ),
            },
        }
    }

    /// The prompt that the request stands for.
    pub fn semantic_request_prompt(&self) -> (r: &str)
        ensures
            r@ == self.semantic_request_prompt@,
    {
        self.semantic_request_prompt.as_str()
    }

    /// The ticket of the turn.
    pub fn agent_inbox_ticket_id(&self) -> (r: &str)
        ensures
            r@ == self.agent_inbox_ticket_id@,
    {
        self.agent_inbox_ticket_id.as_str()
    }

    /// The digest of what the request asks for.
    pub fn semantic_request_digest(&self) -> (r: &str)
        ensures
            r@ == self.receipt.semantic_request_digest@,
    {
        self.receipt.semantic_request_digest.as_str()
    }

    /// The digest of this execution of the request.
    pub fn execution_request_digest(&self) -> (r: &str)
        ensures
            r@ == self.receipt.execution_request_digest@,
    {
        self.receipt.execution_request_digest.as_str()
    }

    /// Whether nothing has been done for the turn yet.
    pub fn is_pre_admission(&self) -> (r: bool)
        ensures
            r == (self.runtime_state == RuntimeState::PreAdmission),
    {
        self.runtime_state == RuntimeState::PreAdmission
    }

    /// Whether the turn is over.
    pub fn is_finalized(&self) -> (r: bool)
        ensures
            r == (self.runtime_state == RuntimeState::Finalized),
    {
        self.runtime_state == RuntimeState::Finalized
    }

    /// The record that a step writes, where the step may be taken.
    pub fn next_record(&self, step: AdmissionStep, stored: &StoredReceipt) -> (r: Result<
        ReceiptRecord,
        AdmissionError,
    >)
        ensures
            outcome(r) == step_record(self.deep_view(), step, stored.deep_view()),
    {
        let expected = match self.runtime_state {
            RuntimeState::PreAdmission => AdmissionState::PersistedQueued,
            RuntimeState::ToolOrSideEffectPossible => AdmissionState::ToolOrSideEffectPossible,
            RuntimeState::ModelRequestPossible => AdmissionState::ModelRequestPossible,
            RuntimeState::Admitted => AdmissionState::Admitted,
            RuntimeState::Finalized => {
                return Err(AdmissionError::UnexpectedTransition);
            },
        };
        let (next, allowed) = match step {
            AdmissionStep::RejectedBeforeAdmission => (
                AdmissionState::RejectedBeforeAdmission,
                self.runtime_state == RuntimeState::PreAdmission,
            ),
            AdmissionStep::ToolOrSideEffectPossible => (
                AdmissionState::ToolOrSideEffectPossible,
                self.runtime_state == RuntimeState::PreAdmission,
            ),
            AdmissionStep::ModelRequestPossible => (
                AdmissionState::ModelRequestPossible,
                self.runtime_state == RuntimeState::PreAdmission || self.runtime_state
                    == RuntimeState::ToolOrSideEffectPossible,
            ),
            AdmissionStep::Admitted => (
                AdmissionState::Admitted,
                self.runtime_state == RuntimeState::ModelRequestPossible,
            ),
            AdmissionStep::Terminal => (AdmissionState::Terminal, true),
        };
        if !allowed {
            return Err(AdmissionError::UnexpectedTransition);
        }
        self.receipt.transition(stored, expected, next)
    }

    fn take_step(
        &mut self,
        step: AdmissionStep,
        stored: &StoredReceipt,
        written: Result<(), AdmissionError>,
    ) -> (r: Result<(), AdmissionError>)
        ensures
            match step_outcome(old(self).deep_view(), step, stored.deep_view(), written) {
                Ok(next) => r is Ok && final(self).deep_view() == next,
                Err(error) => r == Err::<(), AdmissionError>(error) && *final(self) == *old(self),
            },
    {
        match self.next_record(step, stored) {
            Err(error) => Err(error),
            Ok(_) => match written {
                Err(error) => Err(error),
                Ok(()) => {
                    self.runtime_state = match step {
                        AdmissionStep::RejectedBeforeAdmission => RuntimeState::Finalized,
                        AdmissionStep::ToolOrSideEffectPossible =>
                            RuntimeState::ToolOrSideEffectPossible,
                        AdmissionStep::ModelRequestPossible => RuntimeState::ModelRequestPossible,
                        AdmissionStep::Admitted => RuntimeState::Admitted,
                        AdmissionStep::Terminal => RuntimeState::Finalized,
                    };
                    Ok(())
                },
            },
        }
    }

    /// The turn was rejected before anything was done for it. Only this leaves room for a retry.
    pub fn mark_rejected_before_admission(
        &mut self,
        stored: &StoredReceipt,
        written: Result<(), AdmissionError>,
    ) -> (r: Result<(), AdmissionError>)
        ensures
            match step_outcome(
                old(self).deep_view(),
                AdmissionStep::RejectedBeforeAdmission,
                stored.deep_view(),
                written,
            ) {
                Ok(next) => r is Ok && final(self).deep_view() == next,
                Err(error) => r == Err::<(), AdmissionError>(error) && *final(self) == *old(self),
            },
    {
        self.take_step(AdmissionStep::RejectedBeforeAdmission, stored, written)
    }

    /// From here on a request may have reached the model.
    pub fn mark_model_request_possible(
        &mut self,
        stored: &StoredReceipt,
        written: Result<(), AdmissionError>,
    ) -> (r: Result<(), AdmissionError>)
        ensures
            match step_outcome(
                old(self).deep_view(),
                AdmissionStep::ModelRequestPossible,
                stored.deep_view(),
                written,
            ) {
                Ok(next) => r is Ok && final(self).deep_view() == next,
                Err(error) => r == Err::<(), AdmissionError>(error) && *final(self) == *old(self),
            },
    {
        self.take_step(AdmissionStep::ModelRequestPossible, stored, written)
    }

    /// From here on a tool may have run or a side effect may have happened.
    pub fn mark_tool_or_side_effect_possible(
        &mut self,
        stored: &StoredReceipt,
        written: Result<(), AdmissionError>,
    ) -> (r: Result<(), AdmissionError>)
        ensures
            match step_outcome(
                old(self).deep_view(),
                AdmissionStep::ToolOrSideEffectPossible,
                stored.deep_view(),
                written,
            ) {
                Ok(next) => r is Ok && final(self).deep_view() == next,
                Err(error) => r == Err::<(), AdmissionError>(error) && *final(self) == *old(self),
            },
    {
        self.take_step(AdmissionStep::ToolOrSideEffectPossible, stored, written)
    }

    /// The model has taken the turn.
    pub fn mark_admitted(
        &mut self,
        stored: &StoredReceipt,
        written: Result<(), AdmissionError>,
    ) -> (r: Result<(), AdmissionError>)
        ensures
            match step_outcome(
                old(self).deep_view(),
                AdmissionStep::Admitted,
                stored.deep_view(),
                written,
            ) {
                Ok(next) => r is Ok && final(self).deep_view() == next,
                Err(error) => r == Err::<(), AdmissionError>(error) && *final(self) == *old(self),
            },
    {
        self.take_step(AdmissionStep::Admitted, stored, written)
    }

    /// The turn is over. Marking it again changes nothing.
    pub fn mark_terminal(
        &mut self,
        stored: &StoredReceipt,
        written: Result<(), AdmissionError>,
    ) -> (r: Result<(), AdmissionError>)
        ensures
            old(self).runtime_state == RuntimeState::Finalized ==> r is Ok && *final(self) == *old(
                self,
            ),
            old(self).runtime_state != RuntimeState::Finalized ==> match step_outcome(
                old(self).deep_view(),
                AdmissionStep::Terminal,
                stored.deep_view(),
                written,
            ) {
                Ok(next) => r is Ok && final(self).deep_view() == next,
                Err(error) => r == Err::<(), AdmissionError>(error) && *final(self) == *old(self),
            },
    {
        if self.runtime_state == RuntimeState::Finalized {
            return Ok(());
        }
        self.take_step(AdmissionStep::Terminal, stored, written)
    }
}

// ---------------------------------------------------------------------------------------------
// Questions

/// The answer where there is no record to speak of.
pub open spec fn unavailable_answer(state: Seq<char>) -> AdmissionReceiptQueryModel {
    AdmissionReceiptQueryModel {
        contract_version: QUERY_CONTRACT_VERSION,
        receipt_version: 0,
        state,
        generation: 0,
        digest_match: false,
        authorizes_generation_one_start: false,
    }
}

/// The answer to a question about a ticket.
pub open spec fn answer(
    request: AdmissionRequestModel,
    lookup: ReceiptLookupModel,
) -> AdmissionReceiptQueryModel {
    match lookup {
        ReceiptLookupModel::RootMissing => unavailable_answer("missing"@),
        ReceiptLookupModel::RootUnavailable => unavailable_answer("unavailable"@),
        ReceiptLookupModel::Found(stored) => match record_found(stored, request.ticket_digest) {
            Ok(None) => unavailable_answer("missing"@),
            Err(AdmissionError::Ambiguous) => unavailable_answer("ambiguous"@),
            Err(_) => unavailable_answer("unavailable"@),
            Ok(Some(record)) => AdmissionReceiptQueryModel {
                contract_version: QUERY_CONTRACT_VERSION,
                receipt_version: record.version,
                state: state_name(record.state),
                generation: record.generation,
                digest_match: record.semantic_request_digest == request.semantic_request_digest
                    && record.execution_request_digest == request.execution_request_digest
                    && record.generation == request.generation,
                authorizes_generation_one_start: record.version == RECEIPT_VERSION && record.state
                    == AdmissionState::RejectedBeforeAdmission && record.generation == 0
                    && request.generation == 1 && record.semantic_request_digest
                    == request.semantic_request_digest,
            },
        },
    }
}

impl AdmissionReceiptQuery {
    /// The answer where there is no record to speak of.
    pub fn unavailable(state: &'static str) -> (r: Self)
        ensures
            r.deep_view() == unavailable_answer(state@),
    {
        AdmissionReceiptQuery {
            contract_version: QUERY_CONTRACT_VERSION,
            receipt_version: 0,
            state,
            generation: 0,
            digest_match: false,
            authorizes_generation_one_start: false,
        }
    }
}

/// Answers a question about a ticket.
pub fn query(request: &AdmissionRequest, lookup: &ReceiptLookup) -> (r: AdmissionReceiptQuery)
    ensures
        r.deep_view() == answer(request.deep_view(), lookup.deep_view()),
{
    let stored = match lookup {
        ReceiptLookup::RootMissing => {
            return AdmissionReceiptQuery::unavailable("missing");
        },
        ReceiptLookup::RootUnavailable => {
            return AdmissionReceiptQuery::unavailable("unavailable");
        },
        ReceiptLookup::Found(stored) => stored,
    };
    match read_record(stored, &request.ticket_digest) {
        Ok(Some(record)) => {
            let same_semantics = record.semantic_request_digest == request.semantic_request_digest;
            AdmissionReceiptQuery {
                contract_version: QUERY_CONTRACT_VERSION,
                receipt_version: record.version,
                state: record.state.as_str(),
                generation: record.generation,
                digest_match: same_semantics && record.execution_request_digest
                    == request.execution_request_digest && record.generation == request.generation,
                authorizes_generation_one_start: record.version == RECEIPT_VERSION && record.state
                    == AdmissionState::RejectedBeforeAdmission && record.generation == 0
                    && request.generation == 1 && same_semantics,
            }
        },
        Ok(None) => AdmissionReceiptQuery::unavailable("missing"),
        Err(AdmissionError::Ambiguous) => AdmissionReceiptQuery::unavailable("ambiguous"),
        Err(_) => AdmissionReceiptQuery::unavailable("unavailable"),
    }
}

// ---------------------------------------------------------------------------------------------
// Laws

/// What is written for a request is found again by every request for the same ticket.
pub proof fn law_written_record_is_found(
    request: AdmissionRequestModel,
    state: AdmissionState,
    generation: u32,
)
    requires
        canonical_digest(request.ticket_digest),
        canonical_digest(request.semantic_request_digest),
        canonical_digest(request.execution_request_digest),
        generation <= 1,
    ensures
        record_found(
            StoredReceiptModel::Record(record_of(request, state, generation)),
            request.ticket_digest,
        ) == Ok::<Option<ReceiptRecordModel>, AdmissionError>(
            Some(record_of(request, state, generation)),
        ),
{
}

/// Whether a record leaves room for a retry.
pub open spec fn retryable(record: ReceiptRecordModel) -> bool {
    record.state == AdmissionState::RejectedBeforeAdmission && record.generation == 0
}

/// A question says that the retry may begin exactly where the retry then begins.
pub proof fn law_answer_authorizes_what_begins(
    request: AdmissionRequestModel,
    stored: StoredReceiptModel,
)
    requires
        request.generation == 1,
    ensures
        answer(request, ReceiptLookupModel::Found(stored)).authorizes_generation_one_start
            <==> beginning(request, stored) is Ok,
{
}

/// A ticket is admitted once: where any record of it is stored, no original begins.
pub proof fn law_original_begins_once(
    request: AdmissionRequestModel,
    record: ReceiptRecordModel,
)
    requires
        request.generation == 0,
    ensures
        beginning(request, StoredReceiptModel::Record(record)) is Err,
{
}

/// The one retry is consumed by beginning it: after that no request begins for the ticket.
pub proof fn law_retry_is_consumed_once(
    retry: AdmissionRequestModel,
    stored: StoredReceiptModel,
    again: AdmissionRequestModel,
)
    requires
        beginning(retry, stored) is Ok,
        retry.generation == 1,
    ensures
        beginning(again, StoredReceiptModel::Record(beginning(retry, stored)->Ok_0.0)) is Err,
        beginning(again, StoredReceiptModel::Record(beginning(retry, stored)->Ok_0.1)) is Err,
{
}

/// A turn that stopped between its two first writes is never retried.
pub proof fn law_preparing_is_never_retried(
    request: AdmissionRequestModel,
    stored: StoredReceiptModel,
    retry: AdmissionRequestModel,
)
    requires
        beginning(request, stored) is Ok,
    ensures
        beginning(retry, StoredReceiptModel::Record(beginning(request, stored)->Ok_0.0)) is Err,
{
}

/// Only the rejection of a turn for which nothing was done writes a retryable record. Once a tool
/// or the model may have been reached, no step leads back to one.
pub proof fn law_only_rejection_is_retryable(
    admission: TurnAdmissionModel,
    step: AdmissionStep,
    stored: StoredReceiptModel,
)
    ensures
        step_record(admission, step, stored) matches Ok(record) && retryable(record) ==> {
            &&& step == AdmissionStep::RejectedBeforeAdmission
            &&& admission.runtime_state == RuntimeState::PreAdmission
            &&& stored matches StoredReceiptModel::Record(before) && before.state
                == AdmissionState::PersistedQueued
        },
{
}

/// The states that a turn may have after the given one.
pub open spec fn may_follow(before: RuntimeState, after: RuntimeState) -> bool {
    match before {
        RuntimeState::PreAdmission => after != RuntimeState::PreAdmission && after
            != RuntimeState::Admitted,
        RuntimeState::ToolOrSideEffectPossible => after == RuntimeState::ModelRequestPossible
            || after == RuntimeState::Finalized,
        RuntimeState::ModelRequestPossible => after == RuntimeState::Admitted || after
            == RuntimeState::Finalized,
        RuntimeState::Admitted => after == RuntimeState::Finalized,
        RuntimeState::Finalized => false,
    }
}

/// A turn only moves forward, and a finalized one not at all.
pub proof fn law_turns_only_move_forward(
    admission: TurnAdmissionModel,
    step: AdmissionStep,
    stored: StoredReceiptModel,
    written: Result<(), AdmissionError>,
)
    ensures
        step_outcome(admission, step, stored, written) matches Ok(next) ==> may_follow(
            admission.runtime_state,
            next.runtime_state,
        ) && next.receipt == admission.receipt,
{
}

/// A step keeps the disk and this process in agreement: the record that it writes is in the state
/// that belongs to the next state, and it stays the record of the same request.
pub proof fn law_steps_keep_disk_and_process_together(
    admission: TurnAdmissionModel,
    step: AdmissionStep,
    stored: StoredReceiptModel,
)
    ensures
        step_record(admission, step, stored) matches Ok(record) ==> {
            &&& record.ticket_digest == admission.receipt.ticket_digest
            &&& record.semantic_request_digest == admission.receipt.semantic_request_digest
            &&& record.execution_request_digest == admission.receipt.execution_request_digest
            &&& record.generation == admission.receipt.generation
            &&& step_result(step) != RuntimeState::Finalized ==> disk_state(step_result(step))
                == Some(record.state)
        },
{
}

} // verus!
