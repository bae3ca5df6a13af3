//! Laws of receipts, of capabilities, of digests and of warm threads.
use vstd::prelude::*;

use crate::admission::{
    admission_error_text, answer, beginning, receipt_of, receipt_prefix, record_found,
    request_is_valid, state_name, step_outcome, step_record, AdmissionError,
    AdmissionReceiptQueryModel, AdmissionRequestModel, AdmissionState, AdmissionStep,
    ReceiptLookupModel, ReceiptRecordModel, RuntimeState, StoredReceiptModel, TurnAdmissionModel,
};
use crate::capabilities::{
    active_tools, any_image, capability_name, ProviderCapabilitiesModel, ProviderCapability,
    ToolDefinitionModel,
};
use crate::config_text::{SshAuthenticationModel, SshTmuxMode, WireApi};
use crate::context::{AttachmentKind, ModelContextItemModel};
use crate::digest::{canonical_digest, hex_text, lower_hex, sha256_bytes, sha256_hex};
use crate::paths::same_path;
use crate::turn_args::{ProviderAuthConfigModel, ServerModeModel};
use crate::warm_cache::{
    configuration_parts, evicted, fits, home_position, kept, oldest_position, FingerprintPartModel,
    WarmSlotModel, WarmThreadEntryModel,
};

verus! {

// ---------------------------------------------------------------------------------------------
// Receipts

/// Whether a text is 64 hexadecimal digits in small letters.
pub open spec fn is_digest(text: Seq<char>) -> bool {
    text.len() == 64 && forall|i: int|
        0 <= i < text.len() ==> ('0' <= #[trigger] text[i] <= '9' || 'a' <= text[i] <= 'f')
}

/// A stored record counts for a ticket exactly if it is of this version, of one of the two
/// generations, with digests in their form, and of that ticket. Anything else that is stored is
/// ambiguous or unavailable, and nothing stored is no record.
pub proof fn law_stored_records(record: ReceiptRecordModel, ticket: Seq<char>)
    ensures
        ({
            let counts = record.version == 2 && record.generation <= 1 && is_digest(
                record.ticket_digest,
            ) && is_digest(record.semantic_request_digest) && is_digest(
                record.execution_request_digest,
            ) && record.ticket_digest == ticket;
            &&& counts ==> record_found(StoredReceiptModel::Record(record), ticket) == Ok::<
                Option<ReceiptRecordModel>,
                AdmissionError,
            >(Some(record))
            &&& !counts ==> record_found(StoredReceiptModel::Record(record), ticket) == Err::<
                Option<ReceiptRecordModel>,
                AdmissionError,
            >(AdmissionError::Ambiguous)
        }),
        record_found(StoredReceiptModel::Missing, ticket) == Ok::<
            Option<ReceiptRecordModel>,
            AdmissionError,
        >(None),
        record_found(StoredReceiptModel::Unreadable, ticket) == Err::<
            Option<ReceiptRecordModel>,
            AdmissionError,
        >(AdmissionError::Unavailable),
        record_found(StoredReceiptModel::Interrupted, ticket) == Err::<
            Option<ReceiptRecordModel>,
            AdmissionError,
        >(AdmissionError::Ambiguous),
        record_found(StoredReceiptModel::NotAFile, ticket) == Err::<
            Option<ReceiptRecordModel>,
            AdmissionError,
        >(AdmissionError::Ambiguous),
        record_found(StoredReceiptModel::Malformed, ticket) == Err::<
            Option<ReceiptRecordModel>,
            AdmissionError,
        >(AdmissionError::Ambiguous),
{
    assert forall|text: Seq<char>| canonical_digest(text) <==> #[trigger] is_digest(text) by {
        if canonical_digest(text) {
            assert forall|i: int| 0 <= i < text.len() implies ('0' <= #[trigger] text[i] <= '9'
                || 'a' <= text[i] <= 'f') by {
                assert(crate::digest::hex_char(text[i]));
            }
        }
        if is_digest(text) {
            assert forall|i: int| 0 <= i < text.len() implies crate::digest::hex_char(
                #[trigger] text[i],
            ) by {}
        }
    }
}

/// An original begins exactly if nothing is stored for its ticket; the retry begins exactly if the
/// original of the same request was rejected before anything was done. Then the record is written
/// first as preparing and then as queued.
pub proof fn law_what_begins(request: AdmissionRequestModel, stored: StoredReceiptModel)
    ensures
        ({
            let begun = beginning(request, stored);
            let found = record_found(stored, request.ticket_digest);
            let record = found->Ok_0->0;
            let fresh = found is Ok && found->Ok_0 is None && request.generation == 0;
            let retry = found is Ok && found->Ok_0 is Some && request.generation == 1
                && record.generation == 0 && record.state
                == AdmissionState::RejectedBeforeAdmission && record.semantic_request_digest
                == request.semantic_request_digest;
            &&& begun is Ok <==> fresh || retry
            &&& found is Err ==> begun is Err && begun->Err_0 == found->Err_0
            &&& found is Ok && begun is Err ==> begun->Err_0 == AdmissionError::NotEligible
            &&& begun is Ok ==> {
                let (first, second) = begun->Ok_0;
                &&& first.version == 2
                &&& first.generation == request.generation
                &&& first.ticket_digest == request.ticket_digest
                &&& first.semantic_request_digest == request.semantic_request_digest
                &&& first.execution_request_digest == request.execution_request_digest
                &&& first.state == AdmissionState::Preparing
                &&& second == (ReceiptRecordModel {
                    state: AdmissionState::PersistedQueued,
                    ..first
                })
            }
        }),
{
}

/// The state on disk that a running turn must find.
pub open spec fn expected_on_disk(state: RuntimeState, on_disk: AdmissionState) -> bool {
    match state {
        RuntimeState::PreAdmission => on_disk == AdmissionState::PersistedQueued,
        RuntimeState::ToolOrSideEffectPossible => on_disk
            == AdmissionState::ToolOrSideEffectPossible,
        RuntimeState::ModelRequestPossible => on_disk == AdmissionState::ModelRequestPossible,
        RuntimeState::Admitted => on_disk == AdmissionState::Admitted,
        RuntimeState::Finalized => false,
    }
}

/// The steps that a running turn may take.
pub open spec fn may_step(state: RuntimeState, step: AdmissionStep) -> bool {
    match state {
        RuntimeState::PreAdmission => step == AdmissionStep::RejectedBeforeAdmission || step
            == AdmissionStep::ToolOrSideEffectPossible || step
            == AdmissionStep::ModelRequestPossible || step == AdmissionStep::Terminal,
        RuntimeState::ToolOrSideEffectPossible => step == AdmissionStep::ModelRequestPossible
            || step == AdmissionStep::Terminal,
        RuntimeState::ModelRequestPossible => step == AdmissionStep::Admitted || step
            == AdmissionStep::Terminal,
        RuntimeState::Admitted => step == AdmissionStep::Terminal,
        RuntimeState::Finalized => false,
    }
}

/// A step is taken exactly if the turn may take it and the disk holds the record of the turn in
/// its present state. It writes that record in the next state, and the turn has moved once the
/// record is written.
pub proof fn law_what_steps_do(
    admission: TurnAdmissionModel,
    step: AdmissionStep,
    stored: StoredReceiptModel,
    problem: AdmissionError,
)
    ensures
        ({
            let taken = step_record(admission, step, stored);
            let receipt = admission.receipt;
            let found = record_found(stored, receipt.ticket_digest);
            let record = found->Ok_0->0;
            let present = found is Ok && found->Ok_0 is Some;
            let own = present && record.generation == receipt.generation
                && record.semantic_request_digest == receipt.semantic_request_digest
                && record.execution_request_digest == receipt.execution_request_digest
                && expected_on_disk(admission.runtime_state, record.state);
            let allowed = may_step(admission.runtime_state, step);
            let next = match step {
                AdmissionStep::RejectedBeforeAdmission => AdmissionState::RejectedBeforeAdmission,
                AdmissionStep::ToolOrSideEffectPossible => AdmissionState::ToolOrSideEffectPossible,
                AdmissionStep::ModelRequestPossible => AdmissionState::ModelRequestPossible,
                AdmissionStep::Admitted => AdmissionState::Admitted,
                AdmissionStep::Terminal => AdmissionState::Terminal,
            };
            let reached = match step {
                AdmissionStep::RejectedBeforeAdmission => RuntimeState::Finalized,
                AdmissionStep::ToolOrSideEffectPossible => RuntimeState::ToolOrSideEffectPossible,
                AdmissionStep::ModelRequestPossible => RuntimeState::ModelRequestPossible,
                AdmissionStep::Admitted => RuntimeState::Admitted,
                AdmissionStep::Terminal => RuntimeState::Finalized,
            };
            &&& taken is Ok <==> allowed && own
            &&& taken is Ok ==> taken->Ok_0 == (ReceiptRecordModel { state: next, ..record })
            &&& !allowed ==> taken == Err::<ReceiptRecordModel, AdmissionError>(
                AdmissionError::UnexpectedTransition,
            )
            &&& allowed && found is Err ==> taken is Err && taken->Err_0 == found->Err_0
            &&& allowed && found is Ok && found->Ok_0 is None ==> taken == Err::<
                ReceiptRecordModel,
                AdmissionError,
            >(AdmissionError::Ambiguous)
            &&& allowed && present && !own ==> taken == Err::<ReceiptRecordModel, AdmissionError>(
                AdmissionError::UnexpectedTransition,
            )
            &&& taken is Ok ==> step_outcome(admission, step, stored, Ok(())) == Ok::<
                TurnAdmissionModel,
                AdmissionError,
            >(TurnAdmissionModel { runtime_state: reached, ..admission }) && step_outcome(
                admission,
                step,
                stored,
                Err(problem),
            ) == Err::<TurnAdmissionModel, AdmissionError>(problem)
            &&& taken is Err ==> step_outcome(admission, step, stored, Ok(())) == Err::<
                TurnAdmissionModel,
                AdmissionError,
            >(taken->Err_0)
        }),
{
}

/// The names of the states of receipts.
pub proof fn law_state_names()
    ensures
        state_name(AdmissionState::Preparing) == "preparing"@,
        state_name(AdmissionState::PersistedQueued) == "persisted_queued"@,
        state_name(AdmissionState::RejectedBeforeAdmission) == "rejected_before_admission"@,
        state_name(AdmissionState::ToolOrSideEffectPossible) == "tool_or_side_effect_possible"@,
        state_name(AdmissionState::ModelRequestPossible) == "model_request_possible"@,
        state_name(AdmissionState::Admitted) == "admitted"@,
        state_name(AdmissionState::Terminal) == "terminal"@,
{
}

/// A question is answered with what the record says, whether it is of the same request, and
/// whether the retry may begin; without a record, with why there is none.
pub proof fn law_questions_are_answered(
    request: AdmissionRequestModel,
    stored: StoredReceiptModel,
)
    ensures
        ({
            let told = answer(request, ReceiptLookupModel::Found(stored));
            let found = record_found(stored, request.ticket_digest);
            let record = found->Ok_0->0;
            let none = |state: Seq<char>|
                AdmissionReceiptQueryModel {
                    contract_version: 1,
                    receipt_version: 0,
                    state,
                    generation: 0,
                    digest_match: false,
                    authorizes_generation_one_start: false,
                };
            &&& answer(request, ReceiptLookupModel::RootMissing) == none("missing"@)
            &&& answer(request, ReceiptLookupModel::RootUnavailable) == none("unavailable"@)
            &&& found is Ok && found->Ok_0 is None ==> told == none("missing"@)
            &&& found is Err && found->Err_0 == AdmissionError::Ambiguous ==> told == none(
                "ambiguous"@,
            )
            &&& found is Err && found->Err_0 != AdmissionError::Ambiguous ==> told == none(
                "unavailable"@,
            )
            &&& found is Ok && found->Ok_0 is Some ==> {
                &&& told.contract_version == 1
                &&& told.receipt_version == 2
                &&& told.state == state_name(record.state)
                &&& told.generation == record.generation
                &&& told.digest_match <==> record.semantic_request_digest
                    == request.semantic_request_digest && record.execution_request_digest
                    == request.execution_request_digest && record.generation == request.generation
                &&& told.authorizes_generation_one_start <==> record.state
                    == AdmissionState::RejectedBeforeAdmission && record.generation == 0
                    && request.generation == 1 && record.semantic_request_digest
                    == request.semantic_request_digest
            }
        }),
{
}

/// Every condition on a request counts.
pub proof fn law_valid_requests(
    ticket: Seq<char>,
    semantic: Seq<char>,
    execution: Seq<char>,
    root: Seq<char>,
    generation: u32,
)
    ensures
        request_is_valid(ticket, semantic, execution, root, generation) ==> {
            &&& ticket.len() > 0
            &&& vstd::utf8::encode_utf8(ticket).len() <= 512
            &&& generation == 0 || generation == 1
            &&& is_digest(semantic)
            &&& is_digest(execution)
            &&& root.len() > 0 && root[0] == '/'
        },
        ticket.len() > 0 && vstd::utf8::encode_utf8(ticket).len() <= 512 && generation <= 1
            && is_digest(semantic) && is_digest(execution) && root.len() > 0 && root[0] == '/'
            ==> request_is_valid(ticket, semantic, execution, root, generation),
{
    reveal_strlit("/");
    assert forall|text: Seq<char>| canonical_digest(text) <==> #[trigger] is_digest(text) by {
        if canonical_digest(text) {
            assert forall|i: int| 0 <= i < text.len() implies ('0' <= #[trigger] text[i] <= '9'
                || 'a' <= text[i] <= 'f') by {
                assert(crate::digest::hex_char(text[i]));
            }
        }
        if is_digest(text) {
            assert forall|i: int| 0 <= i < text.len() implies crate::digest::hex_char(
                #[trigger] text[i],
            ) by {}
        }
    }
    if root.len() > 0 && root[0] == '/' {
        assert(root.subrange(0, 1) =~= "/"@);
    }
    if "/"@.is_prefix_of(root) {
        assert(root.subrange(0, 1)[0] == "/"@[0]);
    }
}

/// A receipt of a request is of its ticket, its digests and its generation, and its files are
/// named by the ticket's digest.
pub proof fn law_receipts_are_of_their_request(request: AdmissionRequestModel)
    ensures
        receipt_of(request).ticket_digest == request.ticket_digest,
        receipt_of(request).semantic_request_digest == request.semantic_request_digest,
        receipt_of(request).execution_request_digest == request.execution_request_digest,
        receipt_of(request).generation == request.generation,
        receipt_prefix(request.ticket_digest) == ".agentapp-turn-admission-v2-"@
            + request.ticket_digest,
{
}

/// The texts of the errors of admission.
pub proof fn law_admission_error_texts()
    ensures
        admission_error_text(AdmissionError::InvalidRequest)
            == "AgentApp turn admission request is invalid."@,
        admission_error_text(AdmissionError::Unavailable)
            == "AgentApp turn admission storage is unavailable."@,
        admission_error_text(AdmissionError::Ambiguous)
            == "AgentApp turn admission is ambiguous."@,
        admission_error_text(AdmissionError::NotEligible)
            == "AgentApp turn admission is not eligible."@,
        admission_error_text(AdmissionError::UnexpectedTransition)
            == "AgentApp turn admission state changed unexpectedly."@,
{
}

// ---------------------------------------------------------------------------------------------
// Digests

/// The value of a hexadecimal digit.
pub open spec fn digit_value(c: char) -> int {
    if '0' <= c <= '9' {
        c as int - '0' as int
    } else {
        c as int - 'a' as int + 10
    }
}

/// Bytes are written as two hexadecimal digits each, in order, and read back as they are.
pub proof fn law_bytes_are_written_in_hex(bytes: Seq<u8>)
    ensures
        hex_text(bytes).len() == 2 * bytes.len(),
        forall|i: int|
            0 <= i < bytes.len() ==> #[trigger] bytes[i] == 16 * digit_value(
                hex_text(bytes)[2 * i],
            ) + digit_value(hex_text(bytes)[2 * i + 1]),
        forall|i: int|
            0 <= i < hex_text(bytes).len() ==> ('0' <= #[trigger] hex_text(bytes)[i] <= '9' || 'a'
                <= hex_text(bytes)[i] <= 'f'),
    decreases bytes.len(),
{
    if bytes.len() > 0 {
        let front = bytes.drop_last();
        law_bytes_are_written_in_hex(front);
        let text = hex_text(bytes);
        let n = front.len() as int;
        let last = bytes.last();
        assert(text[2 * n] == lower_hex((last / 16) as nat));
        assert(text[2 * n + 1] == lower_hex((last % 16) as nat));
        assert(last == 16 * (last / 16) + last % 16);
        assert forall|i: int| 0 <= i < bytes.len() implies #[trigger] bytes[i] == 16 * digit_value(
            text[2 * i],
        ) + digit_value(text[2 * i + 1]) by {
            if i < n {
                assert(bytes[i] == front[i]);
                assert(text[2 * i] == hex_text(front)[2 * i]);
                assert(text[2 * i + 1] == hex_text(front)[2 * i + 1]);
            }
        }
        assert forall|i: int| 0 <= i < text.len() implies ('0' <= #[trigger] text[i] <= '9' || 'a'
            <= text[i] <= 'f') by {
            if i < 2 * n {
                assert(text[i] == hex_text(front)[i]);
            }
        }
    }
}

/// A digest of a text is the SHA-256 of its bytes in hexadecimal digits.
pub proof fn law_digests_are_written_in_hex(bytes: Seq<u8>)
    ensures
        sha256_hex(bytes) == hex_text(sha256_bytes(bytes)),
        sha256_hex(bytes).len() == 2 * sha256_bytes(bytes).len(),
{
    law_bytes_are_written_in_hex(sha256_bytes(bytes));
}

// ---------------------------------------------------------------------------------------------
// Capabilities

/// Tools are offered in the order in which they were asked for: those of the host always, those of
/// the provider exactly if it supports them.
pub proof fn law_offered_tools(
    capabilities: ProviderCapabilitiesModel,
    requested: Seq<ToolDefinitionModel>,
    last: ToolDefinitionModel,
)
    ensures
        active_tools(capabilities, Seq::empty()).len() == 0,
        ({
            let before = active_tools(capabilities, requested);
            let after = active_tools(capabilities, requested.push(last));
            let hosted = last.execution is ProviderHosted;
            let supported = exists|i: int|
                0 <= i < capabilities.supported.len() && #[trigger] capabilities.supported[i]
                    == last.execution->ProviderHosted_capability;
            &&& !hosted || supported ==> after == before.push(last)
            &&& hosted && !supported ==> after == before
        }),
{
    reveal(Seq::filter);
    assert(requested.push(last).drop_last() =~= requested);
    assert(active_tools(capabilities, Seq::empty()) =~= Seq::empty());
    if last.execution is ProviderHosted {
        let wanted = last.execution->ProviderHosted_capability;
        if exists|i: int|
            0 <= i < capabilities.supported.len() && #[trigger] capabilities.supported[i]
                == wanted {
            assert(capabilities.supported.contains(wanted));
        }
    }
}

/// The names of the capabilities.
pub proof fn law_capability_names()
    ensures
        capability_name(ProviderCapability::ImageInput) == "ImageInput"@,
        capability_name(ProviderCapability::NativeCompaction) == "NativeCompaction"@,
        capability_name(ProviderCapability::OpaqueReasoning) == "OpaqueReasoning"@,
        capability_name(ProviderCapability::HostedWebSearch) == "HostedWebSearch"@,
{
}

/// A context shows an image exactly if one of its messages has an image among its attachments.
pub proof fn law_images_are_seen(items: Seq<ModelContextItemModel>)
    ensures
        any_image(items) <==> exists|i: int, k: int|
            #![trigger items[i], items[i].payload->Message_0.content[k]]
            0 <= i < items.len() && items[i].payload is Message && 0 <= k
                < items[i].payload->Message_0.content.len()
                && items[i].payload->Message_0.content[k] is Attachment
                && items[i].payload->Message_0.content[k]->Attachment_kind == AttachmentKind::Image,
{
    if any_image(items) {
        let i = choose|i: int|
            0 <= i < items.len() && crate::capabilities::shows_image(#[trigger] items[i]);
        let content = items[i].payload->Message_0.content;
        let k = choose|k: int|
            0 <= k < content.len() && crate::capabilities::is_image(#[trigger] content[k]);
        assert(items[i].payload->Message_0.content[k] is Attachment);
    }
    if exists|i: int, k: int|
        #![trigger items[i], items[i].payload->Message_0.content[k]]
        0 <= i < items.len() && items[i].payload is Message && 0 <= k
            < items[i].payload->Message_0.content.len()
            && items[i].payload->Message_0.content[k] is Attachment
            && items[i].payload->Message_0.content[k]->Attachment_kind == AttachmentKind::Image {
        let (i, k) = choose|i: int, k: int|
            #![trigger items[i], items[i].payload->Message_0.content[k]]
            0 <= i < items.len() && items[i].payload is Message && 0 <= k
                < items[i].payload->Message_0.content.len()
                && items[i].payload->Message_0.content[k] is Attachment
                && items[i].payload->Message_0.content[k]->Attachment_kind == AttachmentKind::Image;
        let content = items[i].payload->Message_0.content;
        assert(crate::capabilities::is_image(content[k]));
        assert(crate::capabilities::shows_image(items[i]));
    }
}

// ---------------------------------------------------------------------------------------------
// Warm threads

proof fn lemma_first_home(slots: Seq<WarmSlotModel>, home: Seq<char>, i: int)
    requires
        0 <= i <= slots.len(),
    ensures
        match home_position(slots, home, i) {
            Some(k) => i <= k < slots.len() && same_path(slots[k].codex_home, home) && forall|
                j: int,
            |
                i <= j < k ==> !same_path((#[trigger] slots[j]).codex_home, home),
            None => forall|j: int|
                i <= j < slots.len() ==> !same_path((#[trigger] slots[j]).codex_home, home),
        },
    decreases slots.len() - i,
{
    if i < slots.len() && !same_path(slots[i].codex_home, home) {
        lemma_first_home(slots, home, i + 1);
    }
}

proof fn lemma_first_oldest(slots: Seq<WarmSlotModel>, best: int, i: int)
    requires
        0 <= best < i <= slots.len(),
        forall|j: int|
            0 <= j < i ==> slots[best].entry.last_used <= (#[trigger] slots[j]).entry.last_used,
        forall|j: int|
            0 <= j < best ==> slots[best].entry.last_used < (#[trigger] slots[j]).entry.last_used,
    ensures
        ({
            let k = oldest_position(slots, best, i);
            &&& 0 <= k < slots.len()
            &&& forall|j: int|
                0 <= j < slots.len() ==> slots[k].entry.last_used <= (
                #[trigger] slots[j]).entry.last_used
            &&& forall|j: int|
                0 <= j < k ==> slots[k].entry.last_used < (#[trigger] slots[j]).entry.last_used
        }),
    decreases slots.len() - i,
{
    if i < slots.len() {
        if slots[i].entry.last_used < slots[best].entry.last_used {
            lemma_first_oldest(slots, i, i + 1);
        } else {
            lemma_first_oldest(slots, best, i + 1);
        }
    }
}

/// Whether the slot at `k` was used least recently, and is the first of those that were.
pub open spec fn is_oldest(slots: Seq<WarmSlotModel>, k: int) -> bool {
    &&& 0 <= k < slots.len()
    &&& forall|j: int|
        0 <= j < slots.len() ==> slots[k].entry.last_used <= (#[trigger] slots[j]).entry.last_used
    &&& forall|j: int|
        0 <= j < k ==> slots[k].entry.last_used < (#[trigger] slots[j]).entry.last_used
}

/// Keeping a thread retires the one that its home had before. Where its home had none and the
/// twelve places are taken, the thread that was used least recently is retired, and otherwise
/// none is.
pub proof fn law_what_keeping_retires(
    slots: Seq<WarmSlotModel>,
    home: Seq<char>,
    entry: WarmThreadEntryModel,
    i: int,
)
    requires
        slots.len() <= 12,
    ensures
        ({
            let slot = WarmSlotModel { codex_home: home, entry };
            let after = kept(slots, home, entry);
            let full = slots.push(slot);
            let known = exists|j: int|
                0 <= j < slots.len() && same_path((#[trigger] slots[j]).codex_home, home);
            &&& 0 <= i < slots.len() && same_path(slots[i].codex_home, home) && (forall|j: int|
                0 <= j < i ==> !same_path((#[trigger] slots[j]).codex_home, home)) ==> after == (
                slots.remove(i).push(slot),
                seq![slots[i].entry],
            )
            &&& !known && slots.len() < 12 ==> after == (
                full,
                Seq::<WarmThreadEntryModel>::empty(),
            )
            &&& !known && slots.len() == 12 && is_oldest(full, i) ==> after == (
                full.remove(i),
                seq![full[i].entry],
            )
        }),
{
    reveal_with_fuel(evicted, 2);
    lemma_first_home(slots, home, 0);
    let slot = WarmSlotModel { codex_home: home, entry };
    let full = slots.push(slot);
    lemma_first_oldest(full, 0, 1);
    let oldest = oldest_position(full, 0, 1);
    if is_oldest(full, i) {
        assert(full[oldest].entry.last_used <= full[i].entry.last_used);
        assert(full[i].entry.last_used <= full[oldest].entry.last_used);
        if oldest < i {
            assert(full[i].entry.last_used < full[oldest].entry.last_used);
        }
        if i < oldest {
            assert(full[oldest].entry.last_used < full[i].entry.last_used);
        }
        assert(oldest == i);
    }
    assert(Seq::<WarmThreadEntryModel>::empty().push(full[oldest].entry) =~= seq![
        full[oldest].entry,
    ]);
    if home_position(slots, home, 0) is Some {
        let k = home_position(slots, home, 0)->0;
        if 0 <= i < slots.len() && same_path(slots[i].codex_home, home) && (forall|j: int|
            0 <= j < i ==> !same_path((#[trigger] slots[j]).codex_home, home)) {
            if k < i {
                assert(!same_path(slots[k].codex_home, home));
            }
            if i < k {
                assert(!same_path(slots[i].codex_home, home));
            }
            assert(k == i);
        }
    }
}

/// A configuration is told by its sign-in, then its settings in order, then its server, each with
/// everything that counts of it.
pub proof fn law_configurations_in_full(
    a: Seq<char>,
    b: Seq<char>,
    c: Seq<char>,
    settings: Seq<Seq<char>>,
    server: ServerModeModel,
    key: Option<Seq<u8>>,
)
    ensures
        ({
            let text = |t: Seq<char>| FingerprintPartModel::Text(t);
            let middle = Seq::new(settings.len(), |i: int| text(settings[i]));
            let local = |provider: ProviderAuthConfigModel|
                configuration_parts(provider, settings, None, key);
            let remote = configuration_parts(
                ProviderAuthConfigModel::ChatgptOAuth {
                    access_token: a,
                    id_token: b,
                    account_id: c,
                },
                settings,
                Some(server),
                key,
            );
            let print = if server.host_fingerprint is Some {
                seq![text("some"@), text(server.host_fingerprint->0)]
            } else {
                seq![text("none"@)]
            };
            let mode = match server.tmux_mode {
                SshTmuxMode::Required => "tmux_required"@,
                SshTmuxMode::Preferred => "tmux_preferred"@,
                SshTmuxMode::Disabled => "tmux_disabled"@,
            };
            let secret = match server.authentication {
                SshAuthenticationModel::Password(password) => seq![
                    text("password"@),
                    text(password),
                ],
                SshAuthenticationModel::PrivateKeyPath(path) => seq![
                    text("private_key"@),
                    if key is Some {
                        FingerprintPartModel::Bytes(key->0)
                    } else {
                        text(path)
                    },
                ],
            };
            &&& local(
                ProviderAuthConfigModel::ChatgptOAuth {
                    access_token: a,
                    id_token: b,
                    account_id: c,
                },
            ) == seq![text("oauth"@), text(a), text(b), text(c)] + middle + seq![text("local"@)]
            &&& local(
                ProviderAuthConfigModel::ApiKey {
                    base_url: a,
                    api_key: b,
                    wire_api: WireApi::Responses,
                },
            ) == seq![text("api_key"@), text(a), text(b), text("responses"@)] + middle + seq![
                text("local"@),
            ]
            &&& local(
                ProviderAuthConfigModel::ApiKey {
                    base_url: a,
                    api_key: b,
                    wire_api: WireApi::ChatCompletions,
                },
            ) == seq![text("api_key"@), text(a), text(b), text("chat_completions"@)] + middle
                + seq![text("local"@)]
            &&& remote == seq![text("oauth"@), text(a), text(b), text(c)] + middle + (seq![
                text("server"@),
                text(server.connection_key),
                text(server.session_key),
                text(server.host),
                FingerprintPartModel::Port(server.port),
                text(server.user),
            ] + print + seq![text(mode)] + secret)
        }),
{
    let text = |t: Seq<char>| FingerprintPartModel::Text(t);
    let middle = Seq::new(settings.len(), |i: int| text(settings[i]));
    assert(settings.map_values(|s: Seq<char>| crate::warm_cache::text_part(s)) =~= middle);
}

/// A thread is used again exactly for the same configuration and the same rollout.
pub proof fn law_fitting_threads(
    entry: WarmThreadEntryModel,
    fingerprint: u64,
    path: Seq<char>,
    slots: Seq<WarmSlotModel>,
    home: Seq<char>,
    i: int,
)
    ensures
        fits(entry, fingerprint, Some(path)) <==> entry.fingerprint == fingerprint && same_path(
            path,
            entry.rollout_path,
        ),
        !fits(entry, fingerprint, None),
        0 <= i < slots.len() && same_path(slots[i].codex_home, home) && (forall|j: int|
            0 <= j < i ==> !same_path((#[trigger] slots[j]).codex_home, home)) ==> home_position(
            slots,
            home,
            0,
        ) == Some(i),
        (forall|j: int| 0 <= j < slots.len() ==> !same_path((#[trigger] slots[j]).codex_home, home))
            ==> home_position(slots, home, 0) is None,
{
    lemma_first_home(slots, home, 0);
    if home_position(slots, home, 0) is Some {
        let k = home_position(slots, home, 0)->0;
        assert(same_path(slots[k].codex_home, home));
        if 0 <= i < slots.len() && same_path(slots[i].codex_home, home) && (forall|j: int|
            0 <= j < i ==> !same_path((#[trigger] slots[j]).codex_home, home)) {
            if k < i {
                assert(!same_path(slots[k].codex_home, home));
            }
            if i < k {
                assert(!same_path(slots[i].codex_home, home));
            }
        }
    }
}

} // verus!
