//! The requests of the durable store behind a journal.
use vstd::prelude::*;

use crate::context::{
    ContextEvent, ContextEventModel, ForkRequest, ForkRequestModel, ForkSeed, ForkSeedModel,
};
use crate::model::Modeled;

verus! {

/// A request to append immutable events to a conversation.
#[derive(PartialEq, Eq)]
pub struct AppendEventsRequest {
    pub conversation_id: String,
    pub expected_next_sequence: u64,
    pub events: Vec<ContextEvent>,
}

/// The mathematical content of a [`AppendEventsRequest`].
pub struct AppendEventsRequestModel {
    pub conversation_id: Seq<char>,
    pub expected_next_sequence: u64,
    pub events: Seq<ContextEventModel>,
}

impl DeepView for AppendEventsRequest {
    type V = AppendEventsRequestModel;

    open spec fn deep_view(&self) -> AppendEventsRequestModel {
        AppendEventsRequestModel {
            conversation_id: self.conversation_id.deep_view(),
            expected_next_sequence: self.expected_next_sequence,
            events: self.events.deep_view(),
        }
    }
}

impl Modeled for AppendEventsRequest {
    fn duplicate(&self) -> (r: Self) {
        AppendEventsRequest {
            conversation_id: self.conversation_id.duplicate(),
            expected_next_sequence: self.expected_next_sequence,
            events: self.events.duplicate(),
        }
    }

    fn same(&self, other: &Self) -> (r: bool) {
        self.conversation_id.same(&other.conversation_id)
            && self.expected_next_sequence == other.expected_next_sequence
            && self.events.same(&other.events)
    }
}

impl Clone for AppendEventsRequest {
    fn clone(&self) -> (r: Self)
        ensures
            r.deep_view() == self.deep_view(),
    {
        self.duplicate()
    }
}

/// A request for all events of a conversation.
#[derive(Debug, PartialEq, Eq)]
pub struct LoadEventsRequest {
    pub conversation_id: String,
}

/// The mathematical content of a [`LoadEventsRequest`].
pub struct LoadEventsRequestModel {
    pub conversation_id: Seq<char>,
}

impl DeepView for LoadEventsRequest {
    type V = LoadEventsRequestModel;

    open spec fn deep_view(&self) -> LoadEventsRequestModel {
        LoadEventsRequestModel {
            conversation_id: self.conversation_id.deep_view(),
        }
    }
}

impl Modeled for LoadEventsRequest {
    fn duplicate(&self) -> (r: Self) {
        LoadEventsRequest {
            conversation_id: self.conversation_id.duplicate(),
        }
    }

    fn same(&self, other: &Self) -> (r: bool) {
        self.conversation_id.same(&other.conversation_id)
    }
}

impl Clone for LoadEventsRequest {
    fn clone(&self) -> (r: Self)
        ensures
            r.deep_view() == self.deep_view(),
    {
        self.duplicate()
    }
}

/// The events of a conversation.
#[derive(PartialEq, Eq)]
pub struct StoredEvents {
    pub conversation_id: String,
    pub events: Vec<ContextEvent>,
}

/// The mathematical content of a [`StoredEvents`].
pub struct StoredEventsModel {
    pub conversation_id: Seq<char>,
    pub events: Seq<ContextEventModel>,
}

impl DeepView for StoredEvents {
    type V = StoredEventsModel;

    open spec fn deep_view(&self) -> StoredEventsModel {
        StoredEventsModel {
            conversation_id: self.conversation_id.deep_view(),
            events: self.events.deep_view(),
        }
    }
}

impl Modeled for StoredEvents {
    fn duplicate(&self) -> (r: Self) {
        StoredEvents {
            conversation_id: self.conversation_id.duplicate(),
            events: self.events.duplicate(),
        }
    }

    fn same(&self, other: &Self) -> (r: bool) {
        self.conversation_id.same(&other.conversation_id)
            && self.events.same(&other.events)
    }
}

impl Clone for StoredEvents {
    fn clone(&self) -> (r: Self)
        ensures
            r.deep_view() == self.deep_view(),
    {
        self.duplicate()
    }
}

/// A request to publish a checkpoint.
#[derive(PartialEq, Eq)]
pub struct CommitCompactionRequest {
    pub conversation_id: String,
    pub expected_last_sequence: u64,
    /// The immutable journal event whose payload is the new checkpoint.
    /// Supplying its identity makes an interrupted commit idempotent.
    pub checkpoint_event: ContextEvent,
}

/// The mathematical content of a [`CommitCompactionRequest`].
pub struct CommitCompactionRequestModel {
    pub conversation_id: Seq<char>,
    pub expected_last_sequence: u64,
    pub checkpoint_event: ContextEventModel,
}

impl DeepView for CommitCompactionRequest {
    type V = CommitCompactionRequestModel;

    open spec fn deep_view(&self) -> CommitCompactionRequestModel {
        CommitCompactionRequestModel {
            conversation_id: self.conversation_id.deep_view(),
            expected_last_sequence: self.expected_last_sequence,
            checkpoint_event: self.checkpoint_event.deep_view(),
        }
    }
}

impl Modeled for CommitCompactionRequest {
    fn duplicate(&self) -> (r: Self) {
        CommitCompactionRequest {
            conversation_id: self.conversation_id.duplicate(),
            expected_last_sequence: self.expected_last_sequence,
            checkpoint_event: self.checkpoint_event.duplicate(),
        }
    }

    fn same(&self, other: &Self) -> (r: bool) {
        self.conversation_id.same(&other.conversation_id)
            && self.expected_last_sequence == other.expected_last_sequence
            && self.checkpoint_event.same(&other.checkpoint_event)
    }
}

impl Clone for CommitCompactionRequest {
    fn clone(&self) -> (r: Self)
        ensures
            r.deep_view() == self.deep_view(),
    {
        self.duplicate()
    }
}

/// A request to create a forked conversation together with its lineage.
#[derive(PartialEq, Eq)]
pub struct ForkCommitRequest {
    pub request: ForkRequest,
    pub seed: ForkSeed,
}

/// The mathematical content of a [`ForkCommitRequest`].
pub struct ForkCommitRequestModel {
    pub request: ForkRequestModel,
    pub seed: ForkSeedModel,
}

impl DeepView for ForkCommitRequest {
    type V = ForkCommitRequestModel;

    open spec fn deep_view(&self) -> ForkCommitRequestModel {
        ForkCommitRequestModel {
            request: self.request.deep_view(),
            seed: self.seed.deep_view(),
        }
    }
}

impl Modeled for ForkCommitRequest {
    fn duplicate(&self) -> (r: Self) {
        ForkCommitRequest {
            request: self.request.duplicate(),
            seed: self.seed.duplicate(),
        }
    }

    fn same(&self, other: &Self) -> (r: bool) {
        self.request.same(&other.request)
            && self.seed.same(&other.seed)
    }
}

impl Clone for ForkCommitRequest {
    fn clone(&self) -> (r: Self)
        ensures
            r.deep_view() == self.deep_view(),
    {
        self.duplicate()
    }
}


} // verus!
