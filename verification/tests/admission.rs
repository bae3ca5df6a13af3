use codex_ios::admission::{
    query, AdmissionError, AdmissionReceiptQuery, AdmissionRequest, AdmissionState, AdmissionStep,
    Receipt, ReceiptLookup, ReceiptPaths, ReceiptRecord, StoredReceipt, TurnAdmission,
};
use codex_ios::digest::{is_canonical_digest, sha256_digest};

const ROOT: &str = "/receipts";

fn digest(byte: char) -> String {
    std::iter::repeat_n(byte, 64).collect()
}

fn request(ticket: &str, digest_byte: char, generation: u32) -> AdmissionRequest {
    AdmissionRequest::new(
        ticket.to_string(),
        digest(digest_byte),
        digest('f'),
        ROOT.to_string(),
        generation,
    )
    .expect("valid request")
}

/// The directory of receipts, as far as one ticket goes.
struct Disk {
    stored: StoredReceipt,
}

impl Disk {
    fn empty() -> Self {
        Disk { stored: StoredReceipt::Missing }
    }

    fn begin(&mut self, request: &AdmissionRequest) -> Result<TurnAdmission, AdmissionError> {
        let before = self.stored.clone();
        if let Ok((preparing, queued)) = Receipt::begin(request, &before) {
            assert_eq!(preparing.state, AdmissionState::Preparing);
            self.stored = StoredReceipt::Record(queued);
        }
        TurnAdmission::begin(request, &before, Ok(()))
    }

    fn step(
        &mut self,
        admission: &mut TurnAdmission,
        step: AdmissionStep,
    ) -> Result<(), AdmissionError> {
        let before = self.stored.clone();
        if let Ok(record) = admission.next_record(step, &before) {
            self.stored = StoredReceipt::Record(record);
        }
        match step {
            AdmissionStep::RejectedBeforeAdmission => {
                admission.mark_rejected_before_admission(&before, Ok(()))
            }
            AdmissionStep::ToolOrSideEffectPossible => {
                admission.mark_tool_or_side_effect_possible(&before, Ok(()))
            }
            AdmissionStep::ModelRequestPossible => {
                admission.mark_model_request_possible(&before, Ok(()))
            }
            AdmissionStep::Admitted => admission.mark_admitted(&before, Ok(())),
            AdmissionStep::Terminal => admission.mark_terminal(&before, Ok(())),
        }
    }

    fn query(&self, request: &AdmissionRequest) -> AdmissionReceiptQuery {
        query(request, &ReceiptLookup::Found(self.stored.clone()))
    }
}

fn answer(
    state: &'static str,
    generation: u32,
    digest_match: bool,
    authorizes_generation_one_start: bool,
) -> AdmissionReceiptQuery {
    AdmissionReceiptQuery {
        contract_version: 1,
        receipt_version: 2,
        state,
        generation,
        digest_match,
        authorizes_generation_one_start,
    }
}

#[test]
fn atomically_persists_and_reopens_a_queued_receipt() {
    let mut disk = Disk::empty();
    let request = request("ticket-a", 'a', 0);

    let admission = disk.begin(&request).expect("admit original");
    assert!(admission.is_pre_admission());

    assert_eq!(disk.query(&request), answer("persisted_queued", 0, true, false));
}

#[test]
fn crash_in_preparing_is_ambiguous_and_never_retryable() {
    let original = request("ticket-a", 'a', 0);
    let mut disk = Disk {
        stored: StoredReceipt::Record(ReceiptRecord::new(&original, AdmissionState::Preparing, 0)),
    };

    assert_eq!(
        disk.begin(&request("ticket-a", 'a', 1)).expect_err("retry denied"),
        AdmissionError::NotEligible
    );
}

#[test]
fn retry_requires_the_same_semantic_digest() {
    let mut disk = Disk::empty();
    let original = request("ticket-a", 'a', 0);
    let mut admission = disk.begin(&original).expect("admit original");
    disk.step(&mut admission, AdmissionStep::RejectedBeforeAdmission).expect("durable rejection");
    let mismatched = request("ticket-a", 'b', 1);

    assert_eq!(
        disk.begin(&mismatched).expect_err("mismatch denied"),
        AdmissionError::NotEligible
    );
    assert_eq!(
        disk.query(&mismatched),
        answer("rejected_before_admission", 0, false, false)
    );
}

#[test]
fn generation_is_bounded_and_one_retry_is_consumed_once() {
    assert_eq!(
        AdmissionRequest::new(
            "ticket-a".to_string(),
            digest('a'),
            digest('f'),
            ROOT.to_string(),
            2,
        )
        .expect_err("generation two rejected"),
        AdmissionError::InvalidRequest
    );

    let mut disk = Disk::empty();
    let original = request("ticket-a", 'a', 0);
    let mut admission = disk.begin(&original).expect("admit original");
    disk.step(&mut admission, AdmissionStep::RejectedBeforeAdmission).expect("durable rejection");
    let retry = request("ticket-a", 'a', 1);
    assert_eq!(disk.query(&retry), answer("rejected_before_admission", 0, false, true));
    let _retry = disk.begin(&retry).expect("admit sole retry");

    assert_eq!(
        disk.begin(&retry).expect_err("duplicate retry denied"),
        AdmissionError::NotEligible
    );
}

#[test]
fn sole_retry_binds_its_own_exact_execution_digest() {
    let mut disk = Disk::empty();
    let original = request("ticket-a", 'a', 0);
    let mut admission = disk.begin(&original).expect("admit original");
    disk.step(&mut admission, AdmissionStep::RejectedBeforeAdmission).expect("durable rejection");
    let retry = AdmissionRequest::new(
        "ticket-a".to_string(),
        digest('a'),
        digest('e'),
        ROOT.to_string(),
        1,
    )
    .expect("valid retry");
    let _retry = disk.begin(&retry).expect("admit retry");

    assert_eq!(disk.query(&retry), answer("persisted_queued", 1, true, false));
}

#[test]
fn an_original_is_admitted_once_however_often_it_is_asked_for() {
    let mut disk = Disk::empty();
    let admitted = (0..8).filter(|_| disk.begin(&request("ticket-a", 'a', 0)).is_ok()).count();
    assert_eq!(admitted, 1);
}

#[test]
fn transitions_preserve_the_only_retryable_pre_admission_state() {
    let mut disk = Disk::empty();
    let request = request("ticket-a", 'a', 0);
    let mut admission = disk.begin(&request).expect("admit original");

    assert_eq!(
        disk.step(&mut admission, AdmissionStep::Admitted).expect_err("admit ordering"),
        AdmissionError::UnexpectedTransition
    );
    disk.step(&mut admission, AdmissionStep::ModelRequestPossible)
        .expect("persist before model request");
    assert_eq!(
        disk.step(&mut admission, AdmissionStep::RejectedBeforeAdmission)
            .expect_err("cannot reopen after model request"),
        AdmissionError::UnexpectedTransition
    );
    disk.step(&mut admission, AdmissionStep::Admitted).expect("mark admitted");
    disk.step(&mut admission, AdmissionStep::Terminal).expect("mark terminal");
    assert!(admission.is_finalized());
    assert_eq!(disk.query(&request), answer("terminal", 0, true, false));
}

#[test]
fn remote_or_tool_side_effect_boundary_is_never_retryable() {
    let mut disk = Disk::empty();
    let request = request("ticket-a", 'a', 0);
    let mut admission = disk.begin(&request).expect("admit original");

    disk.step(&mut admission, AdmissionStep::ToolOrSideEffectPossible)
        .expect("persist side-effect boundary");
    assert_eq!(
        disk.step(&mut admission, AdmissionStep::RejectedBeforeAdmission)
            .expect_err("side effects cannot reopen retry"),
        AdmissionError::UnexpectedTransition
    );
    assert_eq!(
        disk.query(&request),
        answer("tool_or_side_effect_possible", 0, true, false)
    );

    disk.step(&mut admission, AdmissionStep::ModelRequestPossible)
        .expect("advance to model boundary");
    disk.step(&mut admission, AdmissionStep::Admitted).expect("mark admitted");
    disk.step(&mut admission, AdmissionStep::Terminal).expect("mark terminal");
    disk.step(&mut admission, AdmissionStep::Terminal).expect("terminal twice");
}

#[test]
fn malformed_or_incomplete_atomic_writes_fail_closed() {
    let request = request("ticket-a", 'a', 0);
    let mut disk = Disk { stored: StoredReceipt::Interrupted };

    assert_eq!(
        disk.begin(&request).expect_err("ambiguous receipt denied"),
        AdmissionError::Ambiguous
    );
    assert_eq!(
        disk.query(&request),
        AdmissionReceiptQuery {
            contract_version: 1,
            receipt_version: 0,
            state: "ambiguous",
            generation: 0,
            digest_match: false,
            authorizes_generation_one_start: false,
        }
    );

    for (stored, error) in [
        (StoredReceipt::Malformed, AdmissionError::Ambiguous),
        (StoredReceipt::NotAFile, AdmissionError::Ambiguous),
        (StoredReceipt::Unreadable, AdmissionError::Unavailable),
    ] {
        assert_eq!(TurnAdmission::begin(&request, &stored, Ok(())).expect_err("denied"), error);
    }
}

#[test]
fn requests_are_refused_unless_every_part_is_in_order() {
    let valid = |ticket: &str, semantic: String, execution: String, root: &str, generation: u32| {
        AdmissionRequest::new(ticket.to_string(), semantic, execution, root.to_string(), generation)
    };
    assert!(valid(&"t".repeat(512), digest('a'), digest('0'), "/", 1).is_ok());
    for refused in [
        valid("", digest('a'), digest('f'), "/", 0),
        valid(&"t".repeat(513), digest('a'), digest('f'), "/", 0),
        valid(&"é".repeat(257), digest('a'), digest('f'), "/", 0),
        valid("t", digest('A'), digest('f'), "/", 0),
        valid("t", digest('a'), digest('g'), "/", 0),
        valid("t", digest('a'), "f".repeat(63), "/", 0),
        valid("t", digest('a'), digest('f'), "receipts", 0),
        valid("t", digest('a'), digest('f'), "", 0),
        valid("t", digest('a'), digest('f'), "/", 2),
    ] {
        assert_eq!(refused.unwrap_err(), AdmissionError::InvalidRequest);
    }
}

#[test]
fn tickets_are_kept_as_their_digest() {
    assert_eq!(
        sha256_digest("abc"),
        "ba7816bf8f01cfea414140de5dae2223b00361a396177a9cb410ff61f20015ad"
    );
    assert_eq!(
        sha256_digest(""),
        "e3b0c44298fc1c149afbf4c8996fb92427ae41e4649b934ca495991b7852b855"
    );
    assert!(is_canonical_digest(&sha256_digest("ticket")));
    let paths = ReceiptPaths::for_request(&request("abc", 'a', 0));
    let prefix = ".agentapp-turn-admission-v2-\
                  ba7816bf8f01cfea414140de5dae2223b00361a396177a9cb410ff61f20015ad";
    assert_eq!(paths.receipt, format!("{prefix}.json"));
    assert_eq!(paths.temporary, format!("{prefix}.json.tmp"));
    assert_eq!(paths.lock, format!("{prefix}.lock"));
}

#[test]
fn records_of_another_ticket_or_version_are_ambiguous() {
    let asked = request("ticket-a", 'a', 0);
    let other = ReceiptRecord::new(&request("ticket-b", 'a', 0), AdmissionState::Terminal, 0);
    let mut newer = ReceiptRecord::new(&asked, AdmissionState::Terminal, 0);
    newer.version = 3;
    let mut third = ReceiptRecord::new(&asked, AdmissionState::Terminal, 0);
    third.generation = 2;
    for record in [other, newer, third] {
        assert_eq!(
            query(&asked, &ReceiptLookup::Found(StoredReceipt::Record(record))).state,
            "ambiguous"
        );
    }
    assert_eq!(query(&asked, &ReceiptLookup::RootMissing).state, "missing");
    assert_eq!(query(&asked, &ReceiptLookup::RootUnavailable).state, "unavailable");
    assert_eq!(query(&asked, &ReceiptLookup::Found(StoredReceipt::Missing)).state, "missing");
    assert_eq!(
        query(&asked, &ReceiptLookup::Found(StoredReceipt::Unreadable)).state,
        "unavailable"
    );
}

#[test]
fn a_step_that_could_not_be_written_is_not_taken() {
    let mut disk = Disk::empty();
    let request = request("ticket-a", 'a', 0).with_semantic_request_prompt("do it".to_string());
    let mut admission = disk.begin(&request).expect("admit original");
    assert_eq!(admission.semantic_request_prompt(), "do it");
    assert_eq!(admission.agent_inbox_ticket_id(), "ticket-a");
    assert_eq!(admission.semantic_request_digest(), digest('a'));
    assert_eq!(admission.execution_request_digest(), digest('f'));
    assert_eq!(
        admission.mark_model_request_possible(&disk.stored, Err(AdmissionError::Unavailable)),
        Err(AdmissionError::Unavailable)
    );
    assert!(admission.is_pre_admission());
    assert_eq!(
        admission.mark_model_request_possible(&StoredReceipt::Missing, Ok(())),
        Err(AdmissionError::Ambiguous)
    );
    assert!(admission.is_pre_admission());
}

#[test]
fn admission_errors_have_their_texts() {
    assert_eq!(
        AdmissionError::InvalidRequest.message(),
        "AgentApp turn admission request is invalid."
    );
    assert_eq!(
        AdmissionError::Unavailable.message(),
        "AgentApp turn admission storage is unavailable."
    );
    assert_eq!(AdmissionError::Ambiguous.message(), "AgentApp turn admission is ambiguous.");
    assert_eq!(AdmissionError::NotEligible.message(), "AgentApp turn admission is not eligible.");
    assert_eq!(
        AdmissionError::UnexpectedTransition.message(),
        "AgentApp turn admission state changed unexpectedly."
    );
}
