//! Laws of what the host is told and of what it may do to a turn.
use vstd::prelude::*;

use crate::bridge::{
    completion_events, detach_outcome, ending_events, error_code, error_json, error_status,
    event_of, resume_class, resume_reason, resume_text, turn_outcome, without_nul,
    CodexErrorInfoModel, ErrorEventModel, ResumeErrorModel, RolloutReadError, TurnEndModel,
    TurnFailureModel,
};
use crate::commands::{rejection_code, reply_of, steering_of, SteerInputError};
use crate::json::{member, JsonModel};
use crate::json_text::json_document;
use crate::registry::{
    activated, exit_claimed, interrupt_requested, startup_interrupt, takes_input, TurnBridge,
    TurnExitDisposition, Turns,
};
use crate::text::{decimal_text, occurs_in, trim_text};
use crate::turn_args::CArgModel;

verus! {

// ---------------------------------------------------------------------------------------------
// Events

/// An event has the kind that it was given, and its text is the given one without the NUL
/// characters, which is the only thing that is left out.
pub proof fn law_events_carry_their_text(kind: i32, text: Seq<char>, c: char)
    ensures
        event_of(kind, text).kind == kind,
        event_of(kind, text).text == without_nul(text),
        without_nul(Seq::empty()).len() == 0,
        c == '\0' ==> without_nul(text.push(c)) == without_nul(text),
        c != '\0' ==> without_nul(text.push(c)) == without_nul(text).push(c),
{
    reveal(Seq::filter);
    assert(text.push(c).drop_last() =~= text);
    assert(without_nul(Seq::empty()) =~= Seq::empty());
}

/// How a turn ends: what went wrong in the turn or in its cleanup is given, and both where both
/// went wrong. After a protected error only that something went wrong is given.
pub proof fn law_failures_add_up(turn: Seq<char>, cleanup: Seq<char>, protected: bool)
    ensures
        turn_outcome(protected, Ok(()), Ok(())) is Ok,
        turn_outcome(false, Err(turn), Ok(())) == Err::<(), TurnFailureModel>(
            TurnFailureModel::Public(turn),
        ),
        turn_outcome(false, Ok(()), Err(cleanup)) == Err::<(), TurnFailureModel>(
            TurnFailureModel::Public(cleanup),
        ),
        turn_outcome(false, Err(turn), Err(cleanup)) == Err::<(), TurnFailureModel>(
            TurnFailureModel::Public(turn + "; additionally: "@ + cleanup),
        ),
        turn_outcome(true, Err(turn), Ok(())) == Err::<(), TurnFailureModel>(
            TurnFailureModel::ProtectedAlreadyReported,
        ),
        turn_outcome(true, Ok(()), Err(cleanup)) == Err::<(), TurnFailureModel>(
            TurnFailureModel::ProtectedAlreadyReported,
        ),
        turn_outcome(true, Err(turn), Err(cleanup)) == Err::<(), TurnFailureModel>(
            TurnFailureModel::ProtectedAlreadyReported,
        ),
{
}

/// Handing the context back succeeds if it was handed back after a completed turn, whatever the
/// shutdown does, or if both went well.
pub proof fn law_detaching(completed: bool, detach: Seq<char>, shutdown: Seq<char>)
    ensures
        detach_outcome(completed, Ok(()), Ok(())) is Ok,
        detach_outcome(true, Ok(()), Err(shutdown)) is Ok,
        detach_outcome(false, Ok(()), Err(shutdown)) == Err::<(), Seq<char>>(shutdown),
        detach_outcome(completed, Err(detach), Ok(())) == Err::<(), Seq<char>>(detach),
        detach_outcome(completed, Err(detach), Err(shutdown)) == Err::<(), Seq<char>>(
            detach + "; additionally: "@ + shutdown,
        ),
{
}

/// A turn is done exactly if it completed, nothing went wrong and no error was told; then the host
/// is told so once.
pub proof fn law_done_is_told(
    completed: bool,
    protected: bool,
    turn: Result<(), Seq<char>>,
    cleanup: Result<(), Seq<char>>,
)
    ensures
        ({
            let events = completion_events(completed, protected, turn, cleanup);
            let done = completed && !protected && turn is Ok && cleanup is Ok;
            &&& done ==> events.len() == 1 && events[0].kind == 2 && events[0].text.len() == 0
            &&& !done ==> events.len() == 0
        }),
{
    reveal(Seq::filter);
    assert(without_nul(Seq::empty()) =~= Seq::empty());
}

/// The end of a turn is told as an error exactly if it failed in the open or broke down.
pub proof fn law_failures_are_told(message: Seq<char>)
    ensures
        ending_events(TurnEndModel::Finished).len() == 0,
        ending_events(
            TurnEndModel::Failed(TurnFailureModel::ProtectedAlreadyReported),
        ).len() == 0,
        ({
            let events = ending_events(TurnEndModel::Failed(TurnFailureModel::Public(message)));
            events.len() == 1 && events[0].kind == 3 && events[0].text == without_nul(message)
        }),
        ({
            let events = ending_events(TurnEndModel::Panicked);
            events.len() == 1 && events[0].kind == 3 && events[0].text == without_nul(
                "panic during turn"@,
            )
        }),
{
}

/// The codes of errors.
pub proof fn law_error_codes(status: Option<u16>)
    ensures
        error_code(None) == "other"@,
        error_code(Some(CodexErrorInfoModel::Other)) == "other"@,
        error_code(Some(CodexErrorInfoModel::ContextWindowExceeded)) == "context_window_exceeded"@,
        error_code(Some(CodexErrorInfoModel::SessionBudgetExceeded)) == "session_budget_exceeded"@,
        error_code(Some(CodexErrorInfoModel::UsageLimitExceeded)) == "usage_limit_exceeded"@,
        error_code(Some(CodexErrorInfoModel::ServerOverloaded)) == "server_overloaded"@,
        error_code(Some(CodexErrorInfoModel::CyberPolicy)) == "cyber_policy"@,
        error_code(Some(CodexErrorInfoModel::InternalServerError)) == "internal_server_error"@,
        error_code(Some(CodexErrorInfoModel::Unauthorized)) == "unauthorized"@,
        error_code(Some(CodexErrorInfoModel::BadRequest)) == "bad_request"@,
        error_code(Some(CodexErrorInfoModel::SandboxError)) == "sandbox_error"@,
        error_code(Some(CodexErrorInfoModel::HttpConnectionFailed { http_status_code: status }))
            == "http_connection_failed"@,
        error_code(
            Some(CodexErrorInfoModel::ResponseStreamConnectionFailed { http_status_code: status }),
        ) == "response_stream_connection_failed"@,
        error_code(
            Some(CodexErrorInfoModel::ResponseStreamDisconnected { http_status_code: status }),
        ) == "response_stream_disconnected"@,
        error_code(
            Some(CodexErrorInfoModel::ResponseTooManyFailedAttempts { http_status_code: status }),
        ) == "response_too_many_failed_attempts"@,
        error_status(Some(CodexErrorInfoModel::HttpConnectionFailed { http_status_code: status }))
            == status,
        error_status(
            Some(CodexErrorInfoModel::ResponseStreamConnectionFailed { http_status_code: status }),
        ) == status,
        error_status(
            Some(CodexErrorInfoModel::ResponseStreamDisconnected { http_status_code: status }),
        ) == status,
        error_status(
            Some(CodexErrorInfoModel::ResponseTooManyFailedAttempts { http_status_code: status }),
        ) == status,
{
}

/// The payload of an error: its code, the version of the payload, the status where there is one,
/// the message, and the limits with a usage limit alone.
pub proof fn law_error_payloads(error: ErrorEventModel, limits: Option<JsonModel>)
    ensures
        ({
            let payload = error_json(error, limits);
            let members = payload->Object_0;
            let status = error_status(error.codex_error_info);
            let told = error.codex_error_info == Some(CodexErrorInfoModel::UsageLimitExceeded)
                && limits is Some;
            let at = if status is Some {
                3int
            } else {
                2
            };
            &&& payload is Object
            &&& members[0] == member("code"@, JsonModel::Text(error_code(error.codex_error_info)))
            &&& members[1] == member("contract_version"@, JsonModel::Number(decimal_text(1)))
            &&& status is Some ==> members[2] == member(
                "http_status_code"@,
                JsonModel::Number(decimal_text(status->0 as nat)),
            )
            &&& members[at] == member("message"@, JsonModel::Text(error.message))
            &&& told ==> members.len() == at + 2 && members[at + 1] == member(
                "rate_limits"@,
                limits->0,
            )
            &&& !told ==> members.len() == at + 1
        }),
{
}

/// The classes and the reasons of failed resumes, and the text that holds them.
pub proof fn law_resume_errors(stage: Seq<char>, message: Seq<char>, error: ResumeErrorModel)
    ensures
        resume_class(ResumeErrorModel::RolloutRead(RolloutReadError::ResourceExhausted))
            == "resource_exhausted"@,
        resume_class(ResumeErrorModel::RolloutRead(RolloutReadError::RecordTooLarge))
            == "record_size_limit"@,
        resume_class(ResumeErrorModel::RolloutRead(RolloutReadError::DecodedBytesTooLarge))
            == "decoded_bytes_limit"@,
        resume_class(ResumeErrorModel::RolloutRead(RolloutReadError::TooManyRecords))
            == "record_count_limit"@,
        resume_class(ResumeErrorModel::RolloutRead(RolloutReadError::TruncatedRecord))
            == "truncated_record"@,
        resume_class(ResumeErrorModel::RolloutRead(RolloutReadError::InvalidUtf8))
            == "invalid_utf8"@,
        resume_class(ResumeErrorModel::RolloutRead(RolloutReadError::MalformedJson))
            == "malformed_json"@,
        resume_class(ResumeErrorModel::RolloutRead(RolloutReadError::CompressedData))
            == "compressed_data"@,
        resume_class(ResumeErrorModel::RolloutRead(RolloutReadError::EmptySession))
            == "invalid_or_unavailable"@,
        resume_class(ResumeErrorModel::RolloutRead(RolloutReadError::WorkerFailed))
            == "invalid_or_unavailable"@,
        resume_class(ResumeErrorModel::Fatal(message)) == "invalid_or_unavailable"@,
        resume_class(ResumeErrorModel::Other) == "invalid_or_unavailable"@,
        error is RolloutRead ==> resume_reason(error) == "rollout_read"@,
        resume_reason(ResumeErrorModel::Other) == "unclassified"@,
        occurs_in(message, "without a durable stdout cursor receipt"@) ==> resume_reason(
            ResumeErrorModel::Fatal(message),
        ) == "remote_write_receipt_gap"@,
        !occurs_in(message, "without a durable stdout cursor receipt"@) && occurs_in(
            message,
            "did not resolve to one exact descriptor"@,
        ) ==> resume_reason(ResumeErrorModel::Fatal(message)) == "remote_session_restoration"@,
        !occurs_in(message, "without a durable stdout cursor receipt"@) && !occurs_in(
            message,
            "did not resolve to one exact descriptor"@,
        ) ==> resume_reason(ResumeErrorModel::Fatal(message)) == "unclassified"@,
        resume_text(stage, error) == "failed to resume persistent model context ["@ + resume_class(
            error,
        ) + ";stage="@ + stage + ";reason="@ + resume_reason(error) + "]"@,
{
    assert("failed to resume persistent model context ["@ + resume_class(error) + ";stage="@ + stage
        + ";reason="@ + resume_reason(error) + "]"@ =~= resume_text(stage, error));
}

// ---------------------------------------------------------------------------------------------
// Turns

/// A starting turn that becomes active is active afterwards, with the interrupt and the claim that
/// it had, and whether it was interrupted is told. No other turn becomes active.
pub proof fn law_activation(turns: Turns, handle: u64, interrupt: bool, claim: bool)
    ensures
        turns.contains_key(handle) && turns[handle] == (TurnBridge::Starting {
            interrupt_requested: interrupt,
            cleanup_claimed: claim,
        }) ==> {
            &&& activated(turns, handle) == Ok::<(Turns, bool), Seq<char>>(
                (
                    turns.insert(
                        handle,
                        TurnBridge::Active {
                            interrupt_requested: interrupt,
                            cleanup_claimed: claim,
                        },
                    ),
                    interrupt,
                ),
            )
            &&& startup_interrupt(turns, handle) == Ok::<bool, Seq<char>>(interrupt)
        },
        turns.contains_key(handle) && turns[handle] is Active ==> activated(turns, handle) == Err::<
            (Turns, bool),
            Seq<char>,
        >("turn handle was already activated"@) && startup_interrupt(turns, handle) == Err::<
            bool,
            Seq<char>,
        >("turn handle was already activated"@),
        !turns.contains_key(handle) ==> activated(turns, handle) == Err::<
            (Turns, bool),
            Seq<char>,
        >("turn handle was removed during startup"@) && startup_interrupt(turns, handle) == Err::<
            bool,
            Seq<char>,
        >("unknown or finished turn handle"@),
{
}

/// What an interrupt and a claim do to a turn that is starting or active.
pub proof fn law_interrupts_and_claims(
    turns: Turns,
    handle: u64,
    interrupt: bool,
    claim: bool,
    active: bool,
)
    requires
        turns.contains_key(handle),
        active ==> turns[handle] == (TurnBridge::Active {
            interrupt_requested: interrupt,
            cleanup_claimed: claim,
        }),
        !active ==> turns[handle] == (TurnBridge::Starting {
            interrupt_requested: interrupt,
            cleanup_claimed: claim,
        }),
    ensures
        takes_input(turns, handle) <==> active && !interrupt,
        interrupt ==> interrupt_requested(turns, handle) == Ok::<(Turns, bool), Seq<char>>(
            (turns, false),
        ),
        !interrupt && claim ==> interrupt_requested(turns, handle) == Err::<
            (Turns, bool),
            Seq<char>,
        >("turn cleanup has already started"@),
        !interrupt && !claim ==> interrupt_requested(turns, handle) is Ok && interrupt_requested(
            turns,
            handle,
        )->Ok_0.1 == active && interrupt_requested(turns, handle)->Ok_0.0 == turns.insert(
            handle,
            if active {
                TurnBridge::Active { interrupt_requested: true, cleanup_claimed: false }
            } else {
                TurnBridge::Starting { interrupt_requested: true, cleanup_claimed: false }
            },
        ),
        claim ==> exit_claimed(turns, handle) == Err::<(Turns, TurnExitDisposition), Seq<char>>(
            "turn cleanup was already claimed"@,
        ),
        !claim ==> exit_claimed(turns, handle) is Ok && exit_claimed(turns, handle)->Ok_0.1 == (
        if interrupt {
            TurnExitDisposition::UserInterrupt
        } else {
            TurnExitDisposition::HostDetach
        }) && exit_claimed(turns, handle)->Ok_0.0 == turns.insert(
            handle,
            if active {
                TurnBridge::Active { interrupt_requested: interrupt, cleanup_claimed: true }
            } else {
                TurnBridge::Starting { interrupt_requested: interrupt, cleanup_claimed: true }
            },
        ),
{
}

/// A turn that is not known takes nothing.
pub proof fn law_unknown_turns(turns: Turns, handle: u64)
    requires
        !turns.contains_key(handle),
    ensures
        !takes_input(turns, handle),
        interrupt_requested(turns, handle) == Err::<(Turns, bool), Seq<char>>(
            "unknown or finished turn handle"@,
        ),
        exit_claimed(turns, handle) == Err::<(Turns, TurnExitDisposition), Seq<char>>(
            "unknown or finished turn handle"@,
        ),
{
}

// ---------------------------------------------------------------------------------------------
// Commands

/// An answer of the host is taken for the call that it names, with what its JSON says; the codes
/// say which argument is wrong.
pub proof fn law_reply_arguments(call_id: CArgModel, response: CArgModel)
    ensures
        ({
            let reply = reply_of(call_id, response);
            let document = json_document(response->Text_0);
            &&& !(call_id is Text) ==> reply == Err::<crate::commands::ToolReplyModel, i32>(1)
            &&& call_id is Text && !(response is Text) ==> reply == Err::<
                crate::commands::ToolReplyModel,
                i32,
            >(2)
            &&& call_id is Text && response is Text && document is Err ==> reply == Err::<
                crate::commands::ToolReplyModel,
                i32,
            >(3)
            &&& call_id is Text && response is Text && document is Ok ==> {
                let read = crate::dynamic_tools::response_of(document->Ok_0);
                &&& read is Err ==> reply == Err::<crate::commands::ToolReplyModel, i32>(3)
                &&& read is Ok ==> reply is Ok && reply->Ok_0.call_id == call_id->Text_0
                    && reply->Ok_0.response == read->Ok_0
            }
        }),
{
}

/// Text of the host is taken as it is, with the images among its uploads behind it; the codes say
/// what is wrong.
pub proof fn law_steering_arguments(text: CArgModel)
    ensures
        ({
            let steering = steering_of(text, CArgModel::Null);
            &&& !(text is Text) ==> steering == Err::<crate::commands::SteeringModel, i32>(1)
            &&& text is Text && trim_text(text->Text_0).len() == 0 ==> steering == Err::<
                crate::commands::SteeringModel,
                i32,
            >(2)
            &&& text is Text && trim_text(text->Text_0).len() > 0 ==> {
                &&& steering is Ok
                &&& steering->Ok_0.uploads.len() == 0
                &&& steering->Ok_0.input == seq![
                    crate::uploads::UserInputModel::Text { text: text->Text_0 },
                ]
            }
        }),
{
    reveal(Seq::filter);
    let none = Seq::<crate::uploads::ServerFileUploadModel>::empty();
    assert(crate::uploads::images_of(none) =~= none);
    if text is Text {
        assert(crate::uploads::user_input(text->Text_0, none) =~= seq![
            crate::uploads::UserInputModel::Text { text: text->Text_0 },
        ]);
    }
}

/// Uploads that cannot be used keep the text back; usable ones go along, with their images.
pub proof fn law_steering_with_uploads(text: Seq<char>, manifest: Seq<char>)
    requires
        trim_text(text).len() > 0,
    ensures
        ({
            let steering = steering_of(CArgModel::Text(text), CArgModel::Text(manifest));
            let uploads = crate::uploads::manifest_text_uploads(manifest);
            let images = crate::uploads::images_of(uploads->Ok_0);
            &&& uploads is Err || images.len() > 10 ==> steering == Err::<
                crate::commands::SteeringModel,
                i32,
            >(8)
            &&& uploads is Ok && images.len() <= 10 ==> {
                &&& steering is Ok
                &&& steering->Ok_0.uploads == uploads->Ok_0
                &&& steering->Ok_0.input == crate::uploads::user_input(text, images)
            }
        }),
{
}

/// Empty input has a code of its own among the refusals.
pub proof fn law_refusals()
    ensures
        rejection_code(SteerInputError::EmptyInput) == 2,
        rejection_code(SteerInputError::NoActiveTurn) == 6,
        rejection_code(SteerInputError::ExpectedTurnMismatch) == 6,
        rejection_code(SteerInputError::ActiveTurnNotSteerable) == 6,
{
}

} // verus!
