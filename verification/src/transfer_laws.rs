//! Laws of transfers: each step of an upload, a rollback and a download.
use vstd::prelude::*;

use crate::digest::sha256_bytes;
use crate::paths::within;
use crate::text::{decimal_text, pieces, trim_text};
use crate::transfer::{
    attempt_is_valid, check_start, check_step, connect_problem, copy_limit, download_request_check,
    download_step, fingerprint_fits, relative_is_valid, rollback_step, seen_from,
    upload_request_check, upload_step, CheckOutcomeModel, CheckPhase, ConnectStage, DownloadModel,
    DownloadPhase, FileCheckModel, FileInfoModel, RollbackModel, RollbackPhase,
    SshWorkspaceUploadReceiptModel, TransferActionModel, TransferReplyModel, UploadModel,
    UploadPhase,
};

verus! {

// ---------------------------------------------------------------------------------------------
// Requests

/// Whether a path starts at the root.
pub open spec fn rooted(path: Seq<char>) -> bool {
    path.len() > 0 && path[0] == '/'
}

proof fn lemma_rooted(path: Seq<char>)
    ensures
        crate::paths::absolute(path) <==> rooted(path),
{
    reveal_strlit("/");
    if rooted(path) {
        assert(path.subrange(0, 1) =~= "/"@);
    }
    if crate::paths::absolute(path) {
        assert(path.subrange(0, 1)[0] == "/"@[0]);
    }
}

/// An upload is accepted exactly if the workspace is an absolute path, the file a relative path
/// without idle segments, ways up and backslashes, and the attempt a name of plain characters.
/// The first of these that fails is told.
pub proof fn law_upload_requests(workspace: Seq<char>, relative: Seq<char>, attempt: Seq<char>)
    ensures
        ({
            let checked = upload_request_check(workspace, relative, attempt);
            let place = trim_text(workspace).len() > 0 && rooted(workspace);
            let file = relative.len() > 0 && !rooted(relative) && !relative.contains('\\')
                && forall|i: int|
                0 <= i < pieces(relative, '/').len() ==> {
                    let segment = #[trigger] pieces(relative, '/')[i];
                    segment.len() > 0 && segment != "."@ && segment != ".."@
                };
            let name = attempt.len() > 0 && forall|i: int|
                0 <= i < attempt.len() ==> {
                    let c = #[trigger] attempt[i];
                    'a' <= c <= 'z' || 'A' <= c <= 'Z' || '0' <= c <= '9' || c == '-' || c == '_'
                };
            &&& checked is Ok <==> place && file && name
            &&& !place ==> checked == Err::<(), Seq<char>>(
                "remote workspace must be a nonempty absolute path"@,
            )
            &&& place && !file ==> checked == Err::<(), Seq<char>>(
                "remote upload path must be a normalized relative path"@,
            )
            &&& place && file && !name ==> checked == Err::<(), Seq<char>>(
                "remote upload attempt id is invalid"@,
            )
        }),
{
    lemma_rooted(workspace);
    lemma_rooted(relative);
    if attempt_is_valid(attempt) {
        assert forall|i: int| 0 <= i < attempt.len() implies {
            let c = #[trigger] attempt[i];
            'a' <= c <= 'z' || 'A' <= c <= 'Z' || '0' <= c <= '9' || c == '-' || c == '_'
        } by {
            assert(crate::transfer::attempt_char(attempt[i]));
        }
    } else if attempt.len() > 0 {
        let i = choose|i: int|
            0 <= i < attempt.len() && !crate::transfer::attempt_char(#[trigger] attempt[i]);
        assert(!crate::transfer::attempt_char(attempt[i]));
    }
    if relative_is_valid(relative) {
        assert forall|i: int| 0 <= i < pieces(relative, '/').len() implies {
            let segment = #[trigger] pieces(relative, '/')[i];
            segment.len() > 0 && segment != "."@ && segment != ".."@
        } by {}
    }
}

/// A download is accepted exactly if neither path is blank.
pub proof fn law_download_requests(workspace: Seq<char>, requested: Seq<char>)
    ensures
        trim_text(workspace).len() == 0 ==> download_request_check(workspace, requested) == Err::<
            (),
            Seq<char>,
        >("remote workspace path is empty"@),
        trim_text(workspace).len() > 0 && trim_text(requested).len() == 0
            ==> download_request_check(workspace, requested) == Err::<(), Seq<char>>(
            "remote file path is empty"@,
        ),
        trim_text(workspace).len() > 0 && trim_text(requested).len() > 0 ==> download_request_check(
            workspace,
            requested,
        ) is Ok,
{
}

/// A host is trusted if its fingerprint is the expected one, with or without the name of the hash,
/// or if none is expected.
pub proof fn law_fingerprints(expected: Seq<char>, actual: Seq<char>)
    ensures
        fingerprint_fits(None, actual),
        fingerprint_fits(Some("SHA256:"@ + expected), actual) <==> actual == expected,
        !"SHA256:"@.is_prefix_of(expected) ==> (fingerprint_fits(Some(expected), actual) <==> actual
            == expected),
{
    reveal_strlit("SHA256:");
    let full = "SHA256:"@ + expected;
    assert(full.subrange(0, "SHA256:"@.len() as int) =~= "SHA256:"@);
    assert("SHA256:"@.is_prefix_of(full));
    assert(full.skip("SHA256:"@.len() as int) =~= expected);
}

/// What goes wrong on the way to the server is told with where it went wrong.
pub proof fn law_connect_problems(error: Seq<char>)
    ensures
        connect_problem(ConnectStage::Connect, false, error) == "connect: "@ + error,
        connect_problem(ConnectStage::Connect, true, error) == "connect rollback: "@ + error,
        connect_problem(ConnectStage::LoadKey, false, error) == "load key: "@ + error,
        connect_problem(ConnectStage::LoadKey, true, error) == "load rollback key: "@ + error,
        connect_problem(ConnectStage::Authenticate, false, error) == "auth: "@ + error,
        connect_problem(ConnectStage::Authenticate, true, error) == "rollback auth: "@ + error,
        connect_problem(ConnectStage::OpenChannel, false, error) == "open channel: "@ + error,
        connect_problem(ConnectStage::OpenChannel, true, error) == "open rollback channel: "@
            + error,
        connect_problem(ConnectStage::RequestSubsystem, false, error)
            == "request sftp subsystem: "@ + error,
        connect_problem(ConnectStage::RequestSubsystem, true, error)
            == "request rollback sftp subsystem: "@ + error,
        connect_problem(ConnectStage::Handshake, false, error) == "sftp handshake: "@ + error,
        connect_problem(ConnectStage::Handshake, true, error) == "rollback sftp handshake: "@
            + error,
{
}

// ---------------------------------------------------------------------------------------------
// Comparisons

/// A comparison looks whether the file is there, whether it is a regular file of the expected
/// size, and then reads all of it: it is the same exactly if the digest of what was read is the
/// expected one.
pub proof fn law_comparisons(
    check: FileCheckModel,
    info: FileInfoModel,
    bytes: Seq<u8>,
    error: Seq<char>,
    size: u64,
    digest: Seq<u8>,
)
    ensures
        check_start(check.path, size, digest) == (FileCheckModel {
            path: check.path,
            expected_size: size,
            expected_digest: digest,
            phase: CheckPhase::Probing,
            read: Seq::empty(),
        }),
        check.phase == CheckPhase::Probing ==> check_step(check, TransferReplyModel::Found(true))
            == (
            FileCheckModel { phase: CheckPhase::Inspecting, ..check },
            CheckOutcomeModel::Do(TransferActionModel::Lstat { path: check.path }),
        ) && check_step(check, TransferReplyModel::Found(false)) == (
            check,
            CheckOutcomeModel::Answer(false),
        ) && check_step(check, TransferReplyModel::Failed(error)) == (
            check,
            CheckOutcomeModel::Fail { problem: "inspect remote destination: "@ + error },
        ),
        check.phase == CheckPhase::Inspecting ==> {
            let same = info.regular && !info.symlink && info.size == check.expected_size;
            let step = check_step(check, TransferReplyModel::Info(info));
            &&& same ==> step == (
                FileCheckModel { phase: CheckPhase::Opening, ..check },
                CheckOutcomeModel::Do(TransferActionModel::OpenRemote { path: check.path }),
            )
            &&& !same ==> step == (check, CheckOutcomeModel::Answer(false))
            &&& check_step(check, TransferReplyModel::Failed(error)) == (
                check,
                CheckOutcomeModel::Fail { problem: "inspect remote destination: "@ + error },
            )
        },
        check.phase == CheckPhase::Opening ==> check_step(check, TransferReplyModel::Done) == (
            FileCheckModel { phase: CheckPhase::Reading, ..check },
            CheckOutcomeModel::Do(TransferActionModel::ReadRemote),
        ) && check_step(check, TransferReplyModel::Failed(error)) == (
            check,
            CheckOutcomeModel::Fail { problem: "open existing remote destination: "@ + error },
        ),
        check.phase == CheckPhase::Reading && bytes.len() > 0 ==> check_step(
            check,
            TransferReplyModel::Bytes(bytes),
        ) == (
            FileCheckModel { read: check.read + bytes, ..check },
            CheckOutcomeModel::Do(TransferActionModel::ReadRemote),
        ),
        check.phase == CheckPhase::Reading && bytes.len() == 0 ==> check_step(
            check,
            TransferReplyModel::Bytes(bytes),
        ) == (
            check,
            CheckOutcomeModel::Answer(sha256_bytes(check.read) == check.expected_digest),
        ),
        check.phase == CheckPhase::Reading ==> check_step(check, TransferReplyModel::Failed(error))
            == (
            check,
            CheckOutcomeModel::Fail { problem: "read existing remote destination: "@ + error },
        ),
{
}

// ---------------------------------------------------------------------------------------------
// Uploads

/// What a step of an upload gives.
pub type UploadResult = (UploadModel, TransferActionModel);

/// The file in a directory under a name.
pub open spec fn in_directory(directory: Seq<char>, name: Seq<char>) -> Seq<char> {
    directory + "/"@ + name
}

/// The file that an upload writes before it is complete.
pub open spec fn temporary_file(state: UploadModel) -> Seq<char> {
    in_directory(state.parent, ".agentapp-upload-"@ + state.attempt_id)
}

/// The file that an upload is for.
pub open spec fn final_file(state: UploadModel) -> Seq<char> {
    in_directory(state.parent, state.segments[state.segments.len() - 1])
}

/// The directory that an upload comes to next.
pub open spec fn next_directory(state: UploadModel) -> Seq<char> {
    in_directory(state.parent, state.segments[state.next_segment as int])
}

/// Whether an upload goes on to a phase with an action, and nothing else of it changes.
pub open spec fn goes_on(
    step: UploadResult,
    state: UploadModel,
    phase: UploadPhase,
    action: TransferActionModel,
) -> bool {
    step.0 == (UploadModel { phase, ..state }) && step.1 == action
}

/// Whether an upload ends with a problem.
pub open spec fn ends_with(step: UploadResult, state: UploadModel, problem: Seq<char>) -> bool {
    goes_on(step, state, UploadPhase::Finished, TransferActionModel::Fail { problem })
}

/// Whether an upload is given up for a problem: first its file is removed.
pub open spec fn is_given_up(step: UploadResult, state: UploadModel, problem: Seq<char>) -> bool {
    &&& step.0 == (UploadModel { phase: UploadPhase::RemovingFailed, problem, ..state })
    &&& step.1 == (TransferActionModel::Remove { path: temporary_file(state) })
}

/// Whether an upload comes to the next directory, or to its file where there is none.
pub open spec fn comes_to_next(step: UploadResult, state: UploadModel) -> bool {
    if state.next_segment < state.segments.len() - 1 {
        goes_on(
            step,
            state,
            UploadPhase::ProbingParent,
            TransferActionModel::Exists { path: next_directory(state) },
        )
    } else {
        goes_on(
            step,
            state,
            UploadPhase::ProbingTemporary,
            TransferActionModel::Exists { path: temporary_file(state) },
        )
    }
}

/// An upload opens its file, connects, and finds its workspace, which must be a directory with an
/// absolute path.
pub proof fn law_uploads_find_their_workspace(
    state: UploadModel,
    path: Seq<char>,
    info: FileInfoModel,
    error: Seq<char>,
)
    ensures
        ({
            let done = upload_step(state, TransferReplyModel::Done);
            let failed = upload_step(state, TransferReplyModel::Failed(error));
            let found = upload_step(state, TransferReplyModel::Path(path));
            let known = upload_step(state, TransferReplyModel::Info(info));
            &&& state.phase == UploadPhase::OpeningLocal ==> goes_on(
                done,
                state,
                UploadPhase::Connecting,
                TransferActionModel::Connect,
            ) && ends_with(failed, state, "open local file: "@ + error)
            &&& state.phase == UploadPhase::Connecting ==> goes_on(
                done,
                state,
                UploadPhase::ResolvingWorkspace,
                TransferActionModel::Canonicalize { path: state.workspace_path },
            ) && ends_with(failed, state, error)
            &&& state.phase == UploadPhase::ResolvingWorkspace ==> {
                &&& rooted(path) ==> goes_on(
                    found,
                    UploadModel { workspace: path, parent: path, ..state },
                    UploadPhase::InspectingWorkspace,
                    TransferActionModel::Stat { path },
                )
                &&& !rooted(path) ==> ends_with(
                    found,
                    state,
                    "canonical remote workspace was not absolute"@,
                )
                &&& ends_with(failed, state, "canonicalize remote workspace: "@ + error)
            }
            &&& state.phase == UploadPhase::InspectingWorkspace ==> {
                &&& info.directory ==> comes_to_next(known, state)
                &&& !info.directory ==> ends_with(
                    known,
                    state,
                    "remote workspace is not a directory"@,
                )
                &&& ends_with(failed, state, "inspect remote workspace: "@ + error)
            }
        }),
{
    lemma_rooted(path);
}

/// An upload goes down its path one directory at a time: it creates what is not there, and goes
/// into a directory that is no link and lies within the workspace.
pub proof fn law_uploads_go_down_their_path(
    state: UploadModel,
    path: Seq<char>,
    info: FileInfoModel,
    error: Seq<char>,
)
    requires
        state.next_segment < usize::MAX,
    ensures
        ({
            let done = upload_step(state, TransferReplyModel::Done);
            let failed = upload_step(state, TransferReplyModel::Failed(error));
            let found = upload_step(state, TransferReplyModel::Path(path));
            let known = upload_step(state, TransferReplyModel::Info(info));
            let next = next_directory(state);
            let deeper = UploadModel {
                parent: path,
                next_segment: (state.next_segment + 1) as usize,
                ..state
            };
            &&& state.phase == UploadPhase::ProbingParent ==> goes_on(
                upload_step(state, TransferReplyModel::Found(true)),
                state,
                UploadPhase::InspectingParent,
                TransferActionModel::Lstat { path: next },
            ) && goes_on(
                upload_step(state, TransferReplyModel::Found(false)),
                state,
                UploadPhase::CreatingParent,
                TransferActionModel::CreateDir { path: next },
            ) && ends_with(failed, state, "inspect remote upload parent: "@ + error)
            &&& state.phase == UploadPhase::CreatingParent ==> goes_on(
                done,
                state,
                UploadPhase::InspectingParent,
                TransferActionModel::Lstat { path: next },
            ) && ends_with(failed, state, "create remote upload parent: "@ + error)
            &&& state.phase == UploadPhase::InspectingParent ==> {
                &&& info.directory && !info.symlink ==> goes_on(
                    known,
                    state,
                    UploadPhase::ResolvingParent,
                    TransferActionModel::Canonicalize { path: next },
                )
                &&& !info.directory || info.symlink ==> ends_with(
                    known,
                    state,
                    "remote upload parent is not a non-symlink directory"@,
                )
                &&& ends_with(failed, state, "inspect remote upload parent: "@ + error)
            }
            &&& state.phase == UploadPhase::ResolvingParent ==> {
                &&& within(path, state.workspace) ==> comes_to_next(found, deeper)
                &&& !within(path, state.workspace) ==> ends_with(
                    found,
                    state,
                    "remote upload parent escapes the configured workspace"@,
                )
                &&& ends_with(failed, state, "canonicalize remote upload parent: "@ + error)
            }
        }),
{
}

/// An upload writes every byte that it reads, in order, counts them, and keeps to its limit.
pub proof fn law_uploads_write_what_they_read(
    state: UploadModel,
    bytes: Seq<u8>,
    error: Seq<char>,
)
    ensures
        ({
            let done = upload_step(state, TransferReplyModel::Done);
            let failed = upload_step(state, TransferReplyModel::Failed(error));
            let read = upload_step(state, TransferReplyModel::Bytes(bytes));
            let total = state.copied + bytes.len();
            &&& state.phase == UploadPhase::ProbingTemporary ==> goes_on(
                upload_step(state, TransferReplyModel::Found(false)),
                state,
                UploadPhase::CreatingTemporary,
                TransferActionModel::CreateRemote { path: temporary_file(state) },
            ) && ends_with(
                upload_step(state, TransferReplyModel::Found(true)),
                state,
                "remote upload attempt already exists"@,
            ) && ends_with(failed, state, "inspect remote temporary file: "@ + error)
            &&& state.phase == UploadPhase::CreatingTemporary ==> goes_on(
                done,
                state,
                UploadPhase::Reading,
                TransferActionModel::ReadLocal,
            ) && ends_with(failed, state, "open remote file: "@ + error)
            &&& state.phase == UploadPhase::Reading ==> {
                &&& bytes.len() == 0 ==> goes_on(
                    read,
                    state,
                    UploadPhase::Syncing,
                    TransferActionModel::SyncRemote,
                )
                &&& bytes.len() > 0 && total <= state.max_bytes ==> {
                    &&& read.1 == (TransferActionModel::WriteRemote { bytes })
                    &&& read.0.phase == UploadPhase::Writing
                    &&& read.0.copied == total
                    &&& read.0.sent == state.sent + bytes
                    &&& read.0 == (UploadModel {
                        phase: read.0.phase,
                        copied: read.0.copied,
                        sent: read.0.sent,
                        ..state
                    })
                }
                &&& bytes.len() > 0 && total > u64::MAX ==> is_given_up(
                    read,
                    state,
                    "local upload size overflowed"@,
                )
                &&& bytes.len() > 0 && state.max_bytes < total <= u64::MAX ==> is_given_up(
                    read,
                    state,
                    "local upload exceeds "@ + decimal_text(state.max_bytes as nat) + " bytes"@,
                )
                &&& is_given_up(failed, state, "read local file: "@ + error)
            }
            &&& state.phase == UploadPhase::Writing ==> goes_on(
                done,
                state,
                UploadPhase::Reading,
                TransferActionModel::ReadLocal,
            ) && is_given_up(failed, state, "stream remote file: "@ + error)
            &&& state.phase == UploadPhase::Syncing ==> goes_on(
                done,
                state,
                UploadPhase::Closing,
                TransferActionModel::CloseRemote,
            ) && is_given_up(failed, state, "sync remote file: "@ + error)
            &&& state.phase == UploadPhase::Closing ==> {
                &&& done.0 == (UploadModel {
                    phase: UploadPhase::Checking,
                    check: FileCheckModel {
                        path: final_file(state),
                        expected_size: state.copied,
                        expected_digest: sha256_bytes(state.sent),
                        phase: CheckPhase::Probing,
                        read: Seq::empty(),
                    },
                    ..state
                })
                &&& done.1 == (TransferActionModel::Exists { path: final_file(state) })
                &&& is_given_up(failed, state, "finish remote file: "@ + error)
            }
        }),
{
}

/// The receipt of an upload.
pub open spec fn receipt_for(state: UploadModel, created: bool) -> TransferActionModel {
    TransferActionModel::Uploaded(
        SshWorkspaceUploadReceiptModel {
            remote_path: final_file(state),
            size: state.copied,
            sha256: sha256_bytes(state.sent),
            created,
        },
    )
}

/// An upload that finds its file already there removes its own and is done without having created
/// it. One that finds nothing puts its file there. Anything else that is there stops it, and if
/// another upload was faster, the files are compared once more.
pub proof fn law_uploads_settle(state: UploadModel, reply: TransferReplyModel, error: Seq<char>)
    ensures
        ({
            let done = upload_step(state, TransferReplyModel::Done);
            let failed = upload_step(state, TransferReplyModel::Failed(error));
            let step = upload_step(state, reply);
            let compared = check_step(state.check, reply);
            let checked = UploadModel { check: compared.0, ..state };
            &&& state.phase == UploadPhase::Checking || state.phase == UploadPhase::Rechecking ==> {
                &&& compared.1 is Do ==> step == (checked, compared.1->Do_0)
                &&& compared.1 is Fail ==> is_given_up(step, checked, compared.1->Fail_problem)
                &&& compared.1 == CheckOutcomeModel::Answer(true) ==> goes_on(
                    step,
                    checked,
                    if state.phase == UploadPhase::Checking {
                        UploadPhase::RemovingDuplicate
                    } else {
                        UploadPhase::RemovingLoser
                    },
                    TransferActionModel::Remove { path: temporary_file(state) },
                )
                &&& compared.1 == CheckOutcomeModel::Answer(false) && state.phase
                    == UploadPhase::Checking ==> goes_on(
                    step,
                    checked,
                    UploadPhase::ProbingConflict,
                    TransferActionModel::Exists { path: final_file(state) },
                )
                &&& compared.1 == CheckOutcomeModel::Answer(false) && state.phase
                    == UploadPhase::Rechecking ==> is_given_up(
                    step,
                    checked,
                    "commit remote upload: "@ + state.rename_error,
                )
            }
            &&& state.phase == UploadPhase::RemovingDuplicate ==> goes_on(
                done,
                state,
                UploadPhase::Finished,
                receipt_for(state, false),
            ) && is_given_up(failed, state, "remove duplicate temporary upload: "@ + error)
            &&& state.phase == UploadPhase::RemovingLoser ==> goes_on(
                step,
                state,
                UploadPhase::Finished,
                receipt_for(state, false),
            )
            &&& state.phase == UploadPhase::ProbingConflict ==> goes_on(
                upload_step(state, TransferReplyModel::Found(false)),
                state,
                UploadPhase::Renaming,
                TransferActionModel::Rename {
                    from: temporary_file(state),
                    to: final_file(state),
                },
            ) && is_given_up(
                upload_step(state, TransferReplyModel::Found(true)),
                state,
                "remote destination exists with different content or type"@,
            ) && is_given_up(failed, state, "inspect remote destination: "@ + error)
            &&& state.phase == UploadPhase::Renaming ==> {
                &&& goes_on(done, state, UploadPhase::Finished, receipt_for(state, true))
                &&& failed.0 == (UploadModel {
                    phase: UploadPhase::Rechecking,
                    rename_error: error,
                    check: FileCheckModel {
                        path: final_file(state),
                        expected_size: state.copied,
                        expected_digest: sha256_bytes(state.sent),
                        phase: CheckPhase::Probing,
                        read: Seq::empty(),
                    },
                    ..state
                })
                &&& failed.1 == (TransferActionModel::Exists { path: final_file(state) })
            }
            &&& state.phase == UploadPhase::RemovingFailed ==> ends_with(
                step,
                state,
                state.problem,
            )
            &&& state.phase == UploadPhase::Finished ==> step == (
                state,
                TransferActionModel::Nothing,
            )
        }),
{
}

/// A reply that an upload did not ask for ends it, after its file is removed where it has one.
pub proof fn law_uploads_refuse_other_replies(
    state: UploadModel,
    bytes: Seq<u8>,
    path: Seq<char>,
    count: u64,
)
    ensures
        ({
            let problem = "unexpected transfer reply"@;
            let early = state.phase == UploadPhase::OpeningLocal || state.phase
                == UploadPhase::Connecting || state.phase == UploadPhase::ResolvingWorkspace
                || state.phase == UploadPhase::InspectingWorkspace || state.phase
                == UploadPhase::ProbingParent || state.phase == UploadPhase::CreatingParent
                || state.phase == UploadPhase::InspectingParent || state.phase
                == UploadPhase::ResolvingParent || state.phase == UploadPhase::ProbingTemporary
                || state.phase == UploadPhase::CreatingTemporary;
            let writing = state.phase == UploadPhase::Writing || state.phase
                == UploadPhase::Syncing || state.phase == UploadPhase::Closing || state.phase
                == UploadPhase::RemovingDuplicate || state.phase == UploadPhase::ProbingConflict
                || state.phase == UploadPhase::Renaming;
            &&& early ==> ends_with(
                upload_step(state, TransferReplyModel::Bytes(bytes)),
                state,
                problem,
            ) && ends_with(upload_step(state, TransferReplyModel::Count(count)), state, problem)
            &&& writing ==> is_given_up(
                upload_step(state, TransferReplyModel::Bytes(bytes)),
                state,
                problem,
            ) && is_given_up(upload_step(state, TransferReplyModel::Path(path)), state, problem)
            &&& state.phase == UploadPhase::Reading ==> is_given_up(
                upload_step(state, TransferReplyModel::Done),
                state,
                problem,
            ) && is_given_up(upload_step(state, TransferReplyModel::Path(path)), state, problem)
        }),
{
}

// ---------------------------------------------------------------------------------------------
// Rollbacks

/// What a step of a rollback gives.
pub type RollbackResult = (RollbackModel, TransferActionModel);

/// Whether a rollback goes on to a phase with an action, and nothing else of it changes.
pub open spec fn rolls_on(
    step: RollbackResult,
    state: RollbackModel,
    phase: RollbackPhase,
    action: TransferActionModel,
) -> bool {
    step.0 == (RollbackModel { phase, ..state }) && step.1 == action
}

/// Whether a rollback ends with a problem.
pub open spec fn rollback_ends(
    step: RollbackResult,
    state: RollbackModel,
    problem: Seq<char>,
) -> bool {
    rolls_on(step, state, RollbackPhase::Finished, TransferActionModel::Fail { problem })
}

/// A rollback finds its workspace and the file of its receipt; a file that is gone is rolled back,
/// one outside the workspace or the workspace itself is left alone, and any other is compared with
/// the receipt.
pub proof fn law_rollbacks_find_their_file(
    state: RollbackModel,
    path: Seq<char>,
    error: Seq<char>,
)
    ensures
        ({
            let done = rollback_step(state, TransferReplyModel::Done);
            let failed = rollback_step(state, TransferReplyModel::Failed(error));
            let found = rollback_step(state, TransferReplyModel::Path(path));
            let own = within(path, state.workspace) && path != state.workspace;
            &&& state.phase == RollbackPhase::Connecting ==> rolls_on(
                done,
                state,
                RollbackPhase::ResolvingWorkspace,
                TransferActionModel::Canonicalize { path: state.workspace_path },
            ) && rollback_ends(failed, state, error)
            &&& state.phase == RollbackPhase::ResolvingWorkspace ==> rolls_on(
                found,
                RollbackModel { workspace: path, ..state },
                RollbackPhase::ResolvingFile,
                TransferActionModel::Canonicalize { path: state.receipt.remote_path },
            ) && rollback_ends(failed, state, "canonicalize rollback workspace: "@ + error)
            &&& state.phase == RollbackPhase::ResolvingFile ==> {
                &&& rolls_on(
                    failed,
                    RollbackModel { resolve_error: error, ..state },
                    RollbackPhase::ProbingFile,
                    TransferActionModel::Exists { path: state.receipt.remote_path },
                )
                &&& !own ==> rollback_ends(
                    found,
                    state,
                    "rollback destination escapes the configured workspace"@,
                )
                &&& own ==> rolls_on(
                    found,
                    RollbackModel {
                        check: FileCheckModel {
                            path,
                            expected_size: state.receipt.size,
                            expected_digest: state.receipt.sha256,
                            phase: CheckPhase::Probing,
                            read: Seq::empty(),
                        },
                        ..state
                    },
                    RollbackPhase::Checking,
                    TransferActionModel::Exists { path },
                )
            }
            &&& state.phase == RollbackPhase::ProbingFile ==> rolls_on(
                rollback_step(state, TransferReplyModel::Found(false)),
                state,
                RollbackPhase::Finished,
                TransferActionModel::RolledBack,
            ) && rollback_ends(
                rollback_step(state, TransferReplyModel::Found(true)),
                state,
                "canonicalize rollback destination: "@ + state.resolve_error,
            ) && rollback_ends(failed, state, "inspect rollback destination: "@ + error)
        }),
{
}

/// A rollback removes its file exactly if the comparison finds it unchanged, and is done once it
/// is removed.
pub proof fn law_rollbacks_remove_their_file(
    state: RollbackModel,
    reply: TransferReplyModel,
    error: Seq<char>,
)
    ensures
        ({
            let done = rollback_step(state, TransferReplyModel::Done);
            let failed = rollback_step(state, TransferReplyModel::Failed(error));
            let step = rollback_step(state, reply);
            let compared = check_step(state.check, reply);
            let checked = RollbackModel { check: compared.0, ..state };
            &&& state.phase == RollbackPhase::Checking ==> {
                &&& compared.1 is Do ==> step == (checked, compared.1->Do_0)
                &&& compared.1 is Fail ==> rollback_ends(step, checked, compared.1->Fail_problem)
                &&& compared.1 == CheckOutcomeModel::Answer(true) ==> rolls_on(
                    step,
                    checked,
                    RollbackPhase::Removing,
                    TransferActionModel::Remove { path: compared.0.path },
                )
                &&& compared.1 == CheckOutcomeModel::Answer(false) ==> rollback_ends(
                    step,
                    checked,
                    "rollback destination changed after upload"@,
                )
            }
            &&& state.phase == RollbackPhase::Removing ==> rolls_on(
                done,
                state,
                RollbackPhase::Finished,
                TransferActionModel::RolledBack,
            ) && rollback_ends(failed, state, "remove rollback destination: "@ + error)
            &&& state.phase == RollbackPhase::Finished ==> step == (
                state,
                TransferActionModel::Nothing,
            )
        }),
{
}

// ---------------------------------------------------------------------------------------------
// Downloads

/// What a step of a download gives.
pub type DownloadResult = (DownloadModel, TransferActionModel);

/// The file that a download writes before it is complete.
pub open spec fn partial_file(state: DownloadModel) -> Seq<char> {
    state.local_path + ".partial"@
}

/// Whether a download goes on to a phase with an action, and nothing else of it changes.
pub open spec fn fetches_on(
    step: DownloadResult,
    state: DownloadModel,
    phase: DownloadPhase,
    action: TransferActionModel,
) -> bool {
    step.0 == (DownloadModel { phase, ..state }) && step.1 == action
}

/// Whether a download ends with a problem.
pub open spec fn download_ends(
    step: DownloadResult,
    state: DownloadModel,
    problem: Seq<char>,
) -> bool {
    fetches_on(step, state, DownloadPhase::Finished, TransferActionModel::Fail { problem })
}

/// Whether a download is given up for a problem: first its file is removed.
pub open spec fn download_given_up(
    step: DownloadResult,
    state: DownloadModel,
    problem: Seq<char>,
) -> bool {
    &&& step.0 == (DownloadModel { phase: DownloadPhase::Discarding, problem, ..state })
    &&& step.1 == (TransferActionModel::RemoveLocal { path: partial_file(state) })
}

/// A requested path is taken as it is where it is absolute, and from the workspace otherwise.
pub proof fn law_requested_paths(workspace: Seq<char>, requested: Seq<char>)
    ensures
        rooted(requested) || workspace.len() == 0 ==> seen_from(workspace, requested) == requested,
        !rooted(requested) && workspace.len() > 0 && workspace[workspace.len() - 1] == '/'
            ==> seen_from(workspace, requested) == workspace + requested,
        !rooted(requested) && workspace.len() > 0 && workspace[workspace.len() - 1] != '/'
            ==> seen_from(workspace, requested) == workspace + "/"@ + requested,
{
    lemma_rooted(requested);
}

/// A download finds its workspace and its file, which must lie within the workspace, be a regular
/// file and keep to the limit.
pub proof fn law_downloads_find_their_file(
    state: DownloadModel,
    path: Seq<char>,
    info: FileInfoModel,
    error: Seq<char>,
)
    ensures
        ({
            let done = download_step(state, TransferReplyModel::Done);
            let failed = download_step(state, TransferReplyModel::Failed(error));
            let found = download_step(state, TransferReplyModel::Path(path));
            let known = download_step(state, TransferReplyModel::Info(info));
            &&& state.phase == DownloadPhase::Connecting ==> fetches_on(
                done,
                state,
                DownloadPhase::ResolvingWorkspace,
                TransferActionModel::Canonicalize { path: state.workspace_path },
            ) && download_ends(failed, state, error)
            &&& state.phase == DownloadPhase::ResolvingWorkspace ==> fetches_on(
                found,
                DownloadModel { workspace: path, ..state },
                DownloadPhase::ResolvingFile,
                TransferActionModel::Canonicalize {
                    path: seen_from(state.workspace_path, state.requested_path),
                },
            ) && download_ends(failed, state, "resolve remote workspace: "@ + error)
            &&& state.phase == DownloadPhase::ResolvingFile ==> {
                &&& within(path, state.workspace) ==> fetches_on(
                    found,
                    DownloadModel { file: path, ..state },
                    DownloadPhase::Inspecting,
                    TransferActionModel::Stat { path },
                )
                &&& !within(path, state.workspace) ==> download_ends(
                    found,
                    state,
                    "remote file resolves outside this agent's workspace"@,
                )
                &&& download_ends(failed, state, "resolve remote file: "@ + error)
            }
            &&& state.phase == DownloadPhase::Inspecting ==> {
                &&& info.regular && info.size <= state.max_bytes ==> fetches_on(
                    known,
                    state,
                    DownloadPhase::OpeningRemote,
                    TransferActionModel::OpenRemote { path: state.file },
                )
                &&& !info.regular ==> download_ends(
                    known,
                    state,
                    "remote path is not a regular file"@,
                )
                &&& info.regular && info.size > state.max_bytes ==> download_ends(
                    known,
                    state,
                    "remote file is too large ("@ + decimal_text(info.size as nat)
                        + " bytes; limit is "@ + decimal_text(state.max_bytes as nat) + ")"@,
                )
                &&& download_ends(failed, state, "inspect remote file: "@ + error)
            }
        }),
{
    let size = decimal_text(info.size as nat);
    let limit = decimal_text(state.max_bytes as nat);
    assert("remote file is too large ("@ + size + " bytes; limit is "@ + limit + ")"@
        =~= "remote file is too large ("@ + size + (" bytes; limit is "@ + limit + ")"@));
}

/// A download copies into a new partial file, at most one byte more than it may, so that too much
/// is noticed; it puts the file in its place only after everything was copied and synced.
pub proof fn law_downloads_copy_their_file(
    state: DownloadModel,
    reply: TransferReplyModel,
    count: u64,
    error: Seq<char>,
)
    ensures
        copy_limit(state.max_bytes) == if state.max_bytes < u64::MAX {
            state.max_bytes + 1
        } else {
            u64::MAX as int
        },
        ({
            let done = download_step(state, TransferReplyModel::Done);
            let failed = download_step(state, TransferReplyModel::Failed(error));
            let copied = download_step(state, TransferReplyModel::Count(count));
            let step = download_step(state, reply);
            &&& state.phase == DownloadPhase::OpeningRemote ==> fetches_on(
                done,
                state,
                DownloadPhase::RemovingPartial,
                TransferActionModel::RemoveLocal { path: partial_file(state) },
            ) && download_ends(failed, state, "open remote file: "@ + error)
            &&& state.phase == DownloadPhase::RemovingPartial ==> fetches_on(
                step,
                state,
                DownloadPhase::CreatingPartial,
                TransferActionModel::CreateLocal { path: partial_file(state) },
            )
            &&& state.phase == DownloadPhase::CreatingPartial ==> fetches_on(
                done,
                state,
                DownloadPhase::Copying,
                TransferActionModel::Copy { limit: copy_limit(state.max_bytes) },
            ) && download_ends(failed, state, "create partial download: "@ + error)
            &&& state.phase == DownloadPhase::Copying ==> {
                &&& count <= state.max_bytes ==> fetches_on(
                    copied,
                    DownloadModel { copied: count, ..state },
                    DownloadPhase::Flushing,
                    TransferActionModel::FlushLocal,
                )
                &&& count > state.max_bytes ==> download_given_up(
                    copied,
                    state,
                    "remote file is too large ("@ + decimal_text(count as nat)
                        + " bytes read; limit is "@ + decimal_text(state.max_bytes as nat) + ")"@,
                )
                &&& download_given_up(failed, state, "stream remote file: "@ + error)
            }
            &&& state.phase == DownloadPhase::Flushing ==> fetches_on(
                done,
                state,
                DownloadPhase::Syncing,
                TransferActionModel::SyncLocal,
            ) && download_given_up(failed, state, "flush downloaded file: "@ + error)
            &&& state.phase == DownloadPhase::Syncing ==> fetches_on(
                done,
                state,
                DownloadPhase::Renaming,
                TransferActionModel::RenameLocal {
                    from: partial_file(state),
                    to: state.local_path,
                },
            ) && download_given_up(failed, state, "sync downloaded file: "@ + error)
            &&& state.phase == DownloadPhase::Renaming ==> fetches_on(
                done,
                state,
                DownloadPhase::Finished,
                TransferActionModel::Downloaded { bytes: state.copied },
            ) && download_given_up(failed, state, "finalize downloaded file: "@ + error)
            &&& state.phase == DownloadPhase::Discarding ==> download_ends(
                step,
                state,
                state.problem,
            )
            &&& state.phase == DownloadPhase::Finished ==> step == (
                state,
                TransferActionModel::Nothing,
            )
        }),
{
    let size = decimal_text(count as nat);
    let limit = decimal_text(state.max_bytes as nat);
    assert("remote file is too large ("@ + size + " bytes read; limit is "@ + limit + ")"@
        =~= "remote file is too large ("@ + size + (" bytes read; limit is "@ + limit + ")"@));
}

} // verus!
