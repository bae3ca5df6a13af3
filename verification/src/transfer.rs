//! Copying files to and from the workspace of a server, as machines that say what to do next and
//! are told what became of it.
use vstd::prelude::*;

use crate::digest::{digest_input, sha256_bytes, ContentDigest};
use crate::lists::outcome;
use crate::model::Modeled;
use crate::paths::{absolute, is_within, law_containment, within};
use crate::text::{
    after_prefix, chars_of, decimal, decimal_text, glue, glue3, is_blank, pieces, same_text,
    split_on, starts_with, trim_text,
};

verus! {

/// What is known of a file.
#[derive(Debug, PartialEq, Eq)]
pub struct FileInfo {
    pub symlink: bool,
    pub directory: bool,
    pub regular: bool,
    pub size: u64,
}

/// The mathematical content of a [`FileInfo`].
pub struct FileInfoModel {
    pub symlink: bool,
    pub directory: bool,
    pub regular: bool,
    pub size: u64,
}

impl DeepView for FileInfo {
    type V = FileInfoModel;

    open spec fn deep_view(&self) -> FileInfoModel {
        FileInfoModel {
            symlink: self.symlink,
            directory: self.directory,
            regular: self.regular,
            size: self.size,
        }
    }
}

impl Modeled for FileInfo {
    fn duplicate(&self) -> (r: Self) {
        FileInfo {
            symlink: self.symlink,
            directory: self.directory,
            regular: self.regular,
            size: self.size,
        }
    }

    fn same(&self, other: &Self) -> (r: bool) {
        self.symlink == other.symlink
            && self.directory == other.directory
            && self.regular == other.regular
            && self.size == other.size
    }
}

impl Clone for FileInfo {
    fn clone(&self) -> (r: Self)
        ensures
            r.deep_view() == self.deep_view(),
    {
        self.duplicate()
    }
}

/// What became of an operation.
#[derive(Debug, PartialEq, Eq)]
pub enum TransferReply {
    Done,
    Failed(String),
    Path(String),
    Found(bool),
    Info(FileInfo),
    Bytes(Vec<u8>),
    Count(u64),
}

/// The mathematical content of a [`TransferReply`].
pub enum TransferReplyModel {
    Done,
    Failed(Seq<char>),
    Path(Seq<char>),
    Found(bool),
    Info(FileInfoModel),
    Bytes(Seq<u8>),
    Count(u64),
}

impl DeepView for TransferReply {
    type V = TransferReplyModel;

    open spec fn deep_view(&self) -> TransferReplyModel {
        match self {
            TransferReply::Done => TransferReplyModel::Done,
            TransferReply::Failed(x) => TransferReplyModel::Failed(x.deep_view()),
            TransferReply::Path(x) => TransferReplyModel::Path(x.deep_view()),
            TransferReply::Found(x) => TransferReplyModel::Found(*x),
            TransferReply::Info(x) => TransferReplyModel::Info(x.deep_view()),
            TransferReply::Bytes(x) => TransferReplyModel::Bytes(x.deep_view()),
            TransferReply::Count(x) => TransferReplyModel::Count(*x),
        }
    }
}

impl Modeled for TransferReply {
    fn duplicate(&self) -> (r: Self) {
        match self {
            TransferReply::Done => TransferReply::Done,
            TransferReply::Failed(x) => TransferReply::Failed(x.duplicate()),
            TransferReply::Path(x) => TransferReply::Path(x.duplicate()),
            TransferReply::Found(x) => TransferReply::Found(*x),
            TransferReply::Info(x) => TransferReply::Info(x.duplicate()),
            TransferReply::Bytes(x) => TransferReply::Bytes(x.duplicate()),
            TransferReply::Count(x) => TransferReply::Count(*x),
        }
    }

    fn same(&self, other: &Self) -> (r: bool) {
        match (self, other) {
            (TransferReply::Done, TransferReply::Done) => true,
            (TransferReply::Failed(x), TransferReply::Failed(x_other)) => x.same(x_other),
            (TransferReply::Path(x), TransferReply::Path(x_other)) => x.same(x_other),
            (TransferReply::Found(x), TransferReply::Found(x_other)) => *x == *x_other,
            (TransferReply::Info(x), TransferReply::Info(x_other)) => x.same(x_other),
            (TransferReply::Bytes(x), TransferReply::Bytes(x_other)) => x.same(x_other),
            (TransferReply::Count(x), TransferReply::Count(x_other)) => *x == *x_other,
            _ => false,
        }
    }
}

impl Clone for TransferReply {
    fn clone(&self) -> (r: Self)
        ensures
            r.deep_view() == self.deep_view(),
    {
        self.duplicate()
    }
}

/// What is known of an uploaded file.
#[derive(Debug, PartialEq, Eq)]
pub struct SshWorkspaceUploadReceipt {
    pub remote_path: String,
    pub size: u64,
    pub sha256: Vec<u8>,
    /// The upload created the file, and may take it back.
    pub created: bool,
}

/// The mathematical content of a [`SshWorkspaceUploadReceipt`].
pub struct SshWorkspaceUploadReceiptModel {
    pub remote_path: Seq<char>,
    pub size: u64,
    pub sha256: Seq<u8>,
    pub created: bool,
}

impl DeepView for SshWorkspaceUploadReceipt {
    type V = SshWorkspaceUploadReceiptModel;

    open spec fn deep_view(&self) -> SshWorkspaceUploadReceiptModel {
        SshWorkspaceUploadReceiptModel {
            remote_path: self.remote_path.deep_view(),
            size: self.size,
            sha256: self.sha256.deep_view(),
            created: self.created,
        }
    }
}

impl Modeled for SshWorkspaceUploadReceipt {
    fn duplicate(&self) -> (r: Self) {
        SshWorkspaceUploadReceipt {
            remote_path: self.remote_path.duplicate(),
            size: self.size,
            sha256: self.sha256.duplicate(),
            created: self.created,
        }
    }

    fn same(&self, other: &Self) -> (r: bool) {
        self.remote_path.same(&other.remote_path)
            && self.size == other.size
            && self.sha256.same(&other.sha256)
            && self.created == other.created
    }
}

impl Clone for SshWorkspaceUploadReceipt {
    fn clone(&self) -> (r: Self)
        ensures
            r.deep_view() == self.deep_view(),
    {
        self.duplicate()
    }
}

/// An operation on the server or on a local file. Each is answered by a [`TransferReply`].
#[derive(Debug, PartialEq, Eq)]
#[allow(inconsistent_fields)]
pub enum TransferAction {
    OpenLocal,
    /// Connect, authenticate and open the file subsystem.
    Connect,
    Canonicalize { path: String },
    /// What is known of a file, through symbolic links.
    Stat { path: String },
    /// What is known of a file itself.
    Lstat { path: String },
    Exists { path: String },
    CreateDir { path: String },
    /// Create a file on the server for writing. It must not exist.
    CreateRemote { path: String },
    ReadLocal,
    WriteRemote { bytes: Vec<u8> },
    SyncRemote,
    CloseRemote,
    OpenRemote { path: String },
    ReadRemote,
    Remove { path: String },
    Rename { from: String, to: String },
    RemoveLocal { path: String },
    /// Create or truncate a local file for writing.
    CreateLocal { path: String },
    /// Copy at most so many bytes of the open remote file into the open local one.
    Copy { limit: u64 },
    FlushLocal,
    SyncLocal,
    RenameLocal { from: String, to: String },
    Uploaded(SshWorkspaceUploadReceipt),
    RolledBack,
    Downloaded { bytes: u64 },
    Fail { problem: String },
    Nothing,
}

/// The mathematical content of a [`TransferAction`].
#[allow(inconsistent_fields)]
pub enum TransferActionModel {
    OpenLocal,
    Connect,
    Canonicalize { path: Seq<char> },
    Stat { path: Seq<char> },
    Lstat { path: Seq<char> },
    Exists { path: Seq<char> },
    CreateDir { path: Seq<char> },
    CreateRemote { path: Seq<char> },
    ReadLocal,
    WriteRemote { bytes: Seq<u8> },
    SyncRemote,
    CloseRemote,
    OpenRemote { path: Seq<char> },
    ReadRemote,
    Remove { path: Seq<char> },
    Rename { from: Seq<char>, to: Seq<char> },
    RemoveLocal { path: Seq<char> },
    CreateLocal { path: Seq<char> },
    Copy { limit: u64 },
    FlushLocal,
    SyncLocal,
    RenameLocal { from: Seq<char>, to: Seq<char> },
    Uploaded(SshWorkspaceUploadReceiptModel),
    RolledBack,
    Downloaded { bytes: u64 },
    Fail { problem: Seq<char> },
    Nothing,
}

impl DeepView for TransferAction {
    type V = TransferActionModel;

    open spec fn deep_view(&self) -> TransferActionModel {
        match self {
            TransferAction::OpenLocal => TransferActionModel::OpenLocal,
            TransferAction::Connect => TransferActionModel::Connect,
            TransferAction::Canonicalize { path } => TransferActionModel::Canonicalize {
                path: path.deep_view(),
            },
            TransferAction::Stat { path } => TransferActionModel::Stat { path: path.deep_view() },
            TransferAction::Lstat { path } => TransferActionModel::Lstat { path: path.deep_view() },
            TransferAction::Exists { path } => TransferActionModel::Exists {
                path: path.deep_view(),
            },
            TransferAction::CreateDir { path } => TransferActionModel::CreateDir {
                path: path.deep_view(),
            },
            TransferAction::CreateRemote { path } => TransferActionModel::CreateRemote {
                path: path.deep_view(),
            },
            TransferAction::ReadLocal => TransferActionModel::ReadLocal,
            TransferAction::WriteRemote { bytes } => TransferActionModel::WriteRemote {
                bytes: bytes.deep_view(),
            },
            TransferAction::SyncRemote => TransferActionModel::SyncRemote,
            TransferAction::CloseRemote => TransferActionModel::CloseRemote,
            TransferAction::OpenRemote { path } => TransferActionModel::OpenRemote {
                path: path.deep_view(),
            },
            TransferAction::ReadRemote => TransferActionModel::ReadRemote,
            TransferAction::Remove { path } => TransferActionModel::Remove {
                path: path.deep_view(),
            },
            TransferAction::Rename { from, to } => TransferActionModel::Rename {
                from: from.deep_view(),
                to: to.deep_view(),
            },
            TransferAction::RemoveLocal { path } => TransferActionModel::RemoveLocal {
                path: path.deep_view(),
            },
            TransferAction::CreateLocal { path } => TransferActionModel::CreateLocal {
                path: path.deep_view(),
            },
            TransferAction::Copy { limit } => TransferActionModel::Copy { limit: *limit },
            TransferAction::FlushLocal => TransferActionModel::FlushLocal,
            TransferAction::SyncLocal => TransferActionModel::SyncLocal,
            TransferAction::RenameLocal { from, to } => TransferActionModel::RenameLocal {
                from: from.deep_view(),
                to: to.deep_view(),
            },
            TransferAction::Uploaded(x) => TransferActionModel::Uploaded(x.deep_view()),
            TransferAction::RolledBack => TransferActionModel::RolledBack,
            TransferAction::Downloaded { bytes } => TransferActionModel::Downloaded {
                bytes: *bytes,
            },
            TransferAction::Fail { problem } => TransferActionModel::Fail {
                problem: problem.deep_view(),
            },
            TransferAction::Nothing => TransferActionModel::Nothing,
        }
    }
}

impl Modeled for TransferAction {
    fn duplicate(&self) -> (r: Self) {
        match self {
            TransferAction::OpenLocal => TransferAction::OpenLocal,
            TransferAction::Connect => TransferAction::Connect,
            TransferAction::Canonicalize { path } => TransferAction::Canonicalize {
                path: path.duplicate(),
            },
            TransferAction::Stat { path } => TransferAction::Stat { path: path.duplicate() },
            TransferAction::Lstat { path } => TransferAction::Lstat { path: path.duplicate() },
            TransferAction::Exists { path } => TransferAction::Exists { path: path.duplicate() },
            TransferAction::CreateDir { path } => TransferAction::CreateDir {
                path: path.duplicate(),
            },
            TransferAction::CreateRemote { path } => TransferAction::CreateRemote {
                path: path.duplicate(),
            },
            TransferAction::ReadLocal => TransferAction::ReadLocal,
            TransferAction::WriteRemote { bytes } => TransferAction::WriteRemote {
                bytes: bytes.duplicate(),
            },
            TransferAction::SyncRemote => TransferAction::SyncRemote,
            TransferAction::CloseRemote => TransferAction::CloseRemote,
            TransferAction::OpenRemote { path } => TransferAction::OpenRemote {
                path: path.duplicate(),
            },
            TransferAction::ReadRemote => TransferAction::ReadRemote,
            TransferAction::Remove { path } => TransferAction::Remove { path: path.duplicate() },
            TransferAction::Rename { from, to } => TransferAction::Rename {
                from: from.duplicate(),
                to: to.duplicate(),
            },
            TransferAction::RemoveLocal { path } => TransferAction::RemoveLocal {
                path: path.duplicate(),
            },
            TransferAction::CreateLocal { path } => TransferAction::CreateLocal {
                path: path.duplicate(),
            },
            TransferAction::Copy { limit } => TransferAction::Copy { limit: *limit },
            TransferAction::FlushLocal => TransferAction::FlushLocal,
            TransferAction::SyncLocal => TransferAction::SyncLocal,
            TransferAction::RenameLocal { from, to } => TransferAction::RenameLocal {
                from: from.duplicate(),
                to: to.duplicate(),
            },
            TransferAction::Uploaded(x) => TransferAction::Uploaded(x.duplicate()),
            TransferAction::RolledBack => TransferAction::RolledBack,
            TransferAction::Downloaded { bytes } => TransferAction::Downloaded { bytes: *bytes },
            TransferAction::Fail { problem } => TransferAction::Fail {
                problem: problem.duplicate(),
            },
            TransferAction::Nothing => TransferAction::Nothing,
        }
    }

    fn same(&self, other: &Self) -> (r: bool) {
        match (self, other) {
            (TransferAction::OpenLocal, TransferAction::OpenLocal) => true,
            (TransferAction::Connect, TransferAction::Connect) => true,
            (
                TransferAction::Canonicalize { path },
                TransferAction::Canonicalize { path: path_other },
            ) => path.same(path_other),
            (TransferAction::Stat { path }, TransferAction::Stat { path: path_other }) => path.same(
                path_other,
            ),
            (TransferAction::Lstat { path }, TransferAction::Lstat { path: path_other }) => {
                path.same(path_other)
            },
            (TransferAction::Exists { path }, TransferAction::Exists { path: path_other }) => {
                path.same(path_other)
            },
            (
                TransferAction::CreateDir { path },
                TransferAction::CreateDir { path: path_other },
            ) => path.same(path_other),
            (
                TransferAction::CreateRemote { path },
                TransferAction::CreateRemote { path: path_other },
            ) => path.same(path_other),
            (TransferAction::ReadLocal, TransferAction::ReadLocal) => true,
            (
                TransferAction::WriteRemote { bytes },
                TransferAction::WriteRemote { bytes: bytes_other },
            ) => bytes.same(bytes_other),
            (TransferAction::SyncRemote, TransferAction::SyncRemote) => true,
            (TransferAction::CloseRemote, TransferAction::CloseRemote) => true,
            (
                TransferAction::OpenRemote { path },
                TransferAction::OpenRemote { path: path_other },
            ) => path.same(path_other),
            (TransferAction::ReadRemote, TransferAction::ReadRemote) => true,
            (TransferAction::Remove { path }, TransferAction::Remove { path: path_other }) => {
                path.same(path_other)
            },
            (
                TransferAction::Rename { from, to },
                TransferAction::Rename { from: from_other, to: to_other },
            ) => from.same(from_other) && to.same(to_other),
            (
                TransferAction::RemoveLocal { path },
                TransferAction::RemoveLocal { path: path_other },
            ) => path.same(path_other),
            (
                TransferAction::CreateLocal { path },
                TransferAction::CreateLocal { path: path_other },
            ) => path.same(path_other),
            (TransferAction::Copy { limit }, TransferAction::Copy { limit: limit_other }) => {
                *limit == *limit_other
            },
            (TransferAction::FlushLocal, TransferAction::FlushLocal) => true,
            (TransferAction::SyncLocal, TransferAction::SyncLocal) => true,
            (
                TransferAction::RenameLocal { from, to },
                TransferAction::RenameLocal { from: from_other, to: to_other },
            ) => from.same(from_other) && to.same(to_other),
            (TransferAction::Uploaded(x), TransferAction::Uploaded(x_other)) => x.same(x_other),
            (TransferAction::RolledBack, TransferAction::RolledBack) => true,
            (
                TransferAction::Downloaded { bytes },
                TransferAction::Downloaded { bytes: bytes_other },
            ) => *bytes == *bytes_other,
            (
                TransferAction::Fail { problem },
                TransferAction::Fail { problem: problem_other },
            ) => problem.same(problem_other),
            (TransferAction::Nothing, TransferAction::Nothing) => true,
            _ => false,
        }
    }
}

impl Clone for TransferAction {
    fn clone(&self) -> (r: Self)
        ensures
            r.deep_view() == self.deep_view(),
    {
        self.duplicate()
    }
}

/// How far the comparison of a remote file has come.
#[derive(Clone, Copy, Debug, PartialEq, Eq, Structural)]
pub enum CheckPhase {
    Probing,
    Inspecting,
    Opening,
    Reading,
}

impl DeepView for CheckPhase {
    type V = CheckPhase;

    open spec fn deep_view(&self) -> CheckPhase {
        *self
    }
}

impl Modeled for CheckPhase {
    fn duplicate(&self) -> (r: Self) {
        *self
    }

    fn same(&self, other: &Self) -> (r: bool) {
        *self == *other
    }
}

/// What a comparison says.
#[derive(Debug, PartialEq, Eq)]
pub enum CheckOutcome {
    Do(TransferAction),
    Answer(bool),
    Fail { problem: String },
}

/// The mathematical content of a [`CheckOutcome`].
pub enum CheckOutcomeModel {
    Do(TransferActionModel),
    Answer(bool),
    Fail { problem: Seq<char> },
}

impl DeepView for CheckOutcome {
    type V = CheckOutcomeModel;

    open spec fn deep_view(&self) -> CheckOutcomeModel {
        match self {
            CheckOutcome::Do(x) => CheckOutcomeModel::Do(x.deep_view()),
            CheckOutcome::Answer(x) => CheckOutcomeModel::Answer(*x),
            CheckOutcome::Fail { problem } => CheckOutcomeModel::Fail {
                problem: problem.deep_view(),
            },
        }
    }
}

impl Modeled for CheckOutcome {
    fn duplicate(&self) -> (r: Self) {
        match self {
            CheckOutcome::Do(x) => CheckOutcome::Do(x.duplicate()),
            CheckOutcome::Answer(x) => CheckOutcome::Answer(*x),
            CheckOutcome::Fail { problem } => CheckOutcome::Fail { problem: problem.duplicate() },
        }
    }

    fn same(&self, other: &Self) -> (r: bool) {
        match (self, other) {
            (CheckOutcome::Do(x), CheckOutcome::Do(x_other)) => x.same(x_other),
            (CheckOutcome::Answer(x), CheckOutcome::Answer(x_other)) => *x == *x_other,
            (CheckOutcome::Fail { problem }, CheckOutcome::Fail { problem: problem_other }) => {
                problem.same(problem_other)
            },
            _ => false,
        }
    }
}

impl Clone for CheckOutcome {
    fn clone(&self) -> (r: Self)
        ensures
            r.deep_view() == self.deep_view(),
    {
        self.duplicate()
    }
}

/// How far an upload has come.
#[derive(Clone, Copy, Debug, PartialEq, Eq, Structural)]
pub enum UploadPhase {
    OpeningLocal,
    Connecting,
    ResolvingWorkspace,
    InspectingWorkspace,
    ProbingParent,
    CreatingParent,
    InspectingParent,
    ResolvingParent,
    ProbingTemporary,
    CreatingTemporary,
    Reading,
    Writing,
    Syncing,
    Closing,
    Checking,
    RemovingDuplicate,
    ProbingConflict,
    Renaming,
    Rechecking,
    RemovingLoser,
    RemovingFailed,
    Finished,
}

impl DeepView for UploadPhase {
    type V = UploadPhase;

    open spec fn deep_view(&self) -> UploadPhase {
        *self
    }
}

impl Modeled for UploadPhase {
    fn duplicate(&self) -> (r: Self) {
        *self
    }

    fn same(&self, other: &Self) -> (r: bool) {
        *self == *other
    }
}

/// How far taking an upload back has come.
#[derive(Clone, Copy, Debug, PartialEq, Eq, Structural)]
pub enum RollbackPhase {
    Connecting,
    ResolvingWorkspace,
    ResolvingFile,
    ProbingFile,
    Checking,
    Removing,
    Finished,
}

impl DeepView for RollbackPhase {
    type V = RollbackPhase;

    open spec fn deep_view(&self) -> RollbackPhase {
        *self
    }
}

impl Modeled for RollbackPhase {
    fn duplicate(&self) -> (r: Self) {
        *self
    }

    fn same(&self, other: &Self) -> (r: bool) {
        *self == *other
    }
}

/// How far a download has come.
#[derive(Clone, Copy, Debug, PartialEq, Eq, Structural)]
pub enum DownloadPhase {
    Connecting,
    ResolvingWorkspace,
    ResolvingFile,
    Inspecting,
    OpeningRemote,
    RemovingPartial,
    CreatingPartial,
    Copying,
    Flushing,
    Syncing,
    Renaming,
    Discarding,
    Finished,
}

impl DeepView for DownloadPhase {
    type V = DownloadPhase;

    open spec fn deep_view(&self) -> DownloadPhase {
        *self
    }
}

impl Modeled for DownloadPhase {
    fn duplicate(&self) -> (r: Self) {
        *self
    }

    fn same(&self, other: &Self) -> (r: bool) {
        *self == *other
    }
}

/// The steps of a connection.
#[derive(Clone, Copy, Debug, PartialEq, Eq, Structural)]
pub enum ConnectStage {
    Connect,
    LoadKey,
    Authenticate,
    OpenChannel,
    RequestSubsystem,
    Handshake,
}

impl DeepView for ConnectStage {
    type V = ConnectStage;

    open spec fn deep_view(&self) -> ConnectStage {
        *self
    }
}

impl Modeled for ConnectStage {
    fn duplicate(&self) -> (r: Self) {
        *self
    }

    fn same(&self, other: &Self) -> (r: bool) {
        *self == *other
    }
}


// ---------------------------------------------------------------------------------------------
// Paths and requests

/// Whether a workspace can be used: it is named by an absolute path.
pub open spec fn workspace_is_valid(workspace: Seq<char>) -> bool {
    trim_text(workspace).len() > 0 && absolute(workspace)
}

/// Whether a path within a workspace is normalized.
pub open spec fn relative_is_valid(path: Seq<char>) -> bool {
    &&& path.len() > 0
    &&& !absolute(path)
    &&& !path.contains('\\')
    &&& forall|i: int|
        0 <= i < pieces(path, '/').len() ==> {
            &&& (#[trigger] pieces(path, '/')[i]).len() > 0
            &&& pieces(path, '/')[i] != "."@
            &&& pieces(path, '/')[i] != ".."@
        }
}

/// The characters of an attempt's id.
pub open spec fn attempt_char(c: char) -> bool {
    ('a' <= c && c <= 'z') || ('A' <= c && c <= 'Z') || ('0' <= c && c <= '9') || c == '-' || c
        == '_'
}

/// Whether an attempt's id can be part of a file name.
pub open spec fn attempt_is_valid(id: Seq<char>) -> bool {
    id.len() > 0 && forall|i: int| 0 <= i < id.len() ==> attempt_char(#[trigger] id[i])
}

/// What is wrong with a request to upload.
pub open spec fn upload_request_check(
    workspace: Seq<char>,
    relative: Seq<char>,
    attempt: Seq<char>,
) -> Result<(), Seq<char>> {
    if !workspace_is_valid(workspace) {
        Err("remote workspace must be a nonempty absolute path"@)
    } else if !relative_is_valid(relative) {
        Err("remote upload path must be a normalized relative path"@)
    } else if !attempt_is_valid(attempt) {
        Err("remote upload attempt id is invalid"@)
    } else {
        Ok(())
    }
}

fn is_valid_relative(path: &str) -> (r: bool)
    ensures
        r == relative_is_valid(path@),
{
    if path.is_empty() || starts_with(path, "/") {
        return false;
    }
    let v = chars_of(path);
    let mut i: usize = 0;
    while i < v.len()
        invariant
            i <= v@.len(),
            v@ == path@,
            forall|k: int| 0 <= k < i ==> #[trigger] v@[k] != '\\',
        decreases v.len() - i,
    {
        if v[i] == '\\' {
            assert(path@[i as int] == '\\');
            return false;
        }
        i = i + 1;
    }
    assert(!path@.contains('\\'));
    let segments = split_on(path, '/');
    let ghost model = segments.deep_view();
    i = 0;
    while i < segments.len()
        invariant
            i <= segments@.len(),
            model == segments.deep_view(),
            model.len() == segments@.len(),
            model == pieces(path@, '/'),
            forall|k: int|
                0 <= k < i ==> (#[trigger] model[k]).len() > 0 && model[k] != "."@ && model[k]
                    != ".."@,
        decreases segments.len() - i,
    {
        assert(model[i as int] == segments@[i as int]@);
        let part = segments[i].as_str();
        if part.is_empty() || same_text(part, ".") || same_text(part, "..") {
            assert(!(pieces(path@, '/')[i as int].len() > 0 && pieces(path@, '/')[i as int] != "."@
                && pieces(path@, '/')[i as int] != ".."@));
            return false;
        }
        i = i + 1;
    }
    true
}

fn is_valid_attempt(id: &str) -> (r: bool)
    ensures
        r == attempt_is_valid(id@),
{
    let v = chars_of(id);
    if v.len() == 0 {
        return false;
    }
    let mut i: usize = 0;
    while i < v.len()
        invariant
            i <= v@.len(),
            v@ == id@,
            forall|k: int| 0 <= k < i ==> attempt_char(#[trigger] v@[k]),
        decreases v.len() - i,
    {
        let c = v[i];
        if !(('a' <= c && c <= 'z') || ('A' <= c && c <= 'Z') || ('0' <= c && c <= '9') || c == '-'
            || c == '_') {
            assert(!attempt_char(id@[i as int]));
            return false;
        }
        i = i + 1;
    }
    true
}

/// Checks a request to upload.
pub fn validate_upload_request(workspace: &str, relative: &str, attempt: &str) -> (r: Result<
    (),
    String,
>)
    ensures
        outcome(r) == upload_request_check(workspace@, relative@, attempt@),
{
    if is_blank(workspace) || !starts_with(workspace, "/") {
        return Err("remote workspace must be a nonempty absolute path".to_string());
    }
    if !is_valid_relative(relative) {
        return Err("remote upload path must be a normalized relative path".to_string());
    }
    if !is_valid_attempt(attempt) {
        return Err("remote upload attempt id is invalid".to_string());
    }
    Ok(())
}

// ---------------------------------------------------------------------------------------------
// Connections

/// The text of a failed step of a connection. While an upload is taken back, the text says so.
pub open spec fn connect_problem(
    stage: ConnectStage,
    rollback: bool,
    error: Seq<char>,
) -> Seq<char> {
    match stage {
        ConnectStage::Connect => if rollback {
            "connect rollback: "@ + error
        } else {
            "connect: "@ + error
        },
        ConnectStage::LoadKey => if rollback {
            "load rollback key: "@ + error
        } else {
            "load key: "@ + error
        },
        ConnectStage::Authenticate => if rollback {
            "rollback auth: "@ + error
        } else {
            "auth: "@ + error
        },
        ConnectStage::OpenChannel => if rollback {
            "open rollback channel: "@ + error
        } else {
            "open channel: "@ + error
        },
        ConnectStage::RequestSubsystem => if rollback {
            "request rollback sftp subsystem: "@ + error
        } else {
            "request sftp subsystem: "@ + error
        },
        ConnectStage::Handshake => if rollback {
            "rollback sftp handshake: "@ + error
        } else {
            "sftp handshake: "@ + error
        },
    }
}

/// The text of a failed step of a connection.
pub fn connection_error(stage: ConnectStage, rollback: bool, error: &str) -> (r: String)
    ensures
        r@ == connect_problem(stage, rollback, error@),
{
    let prefix = match stage {
        ConnectStage::Connect => if rollback {
            "connect rollback: "
        } else {
            "connect: "
        },
        ConnectStage::LoadKey => if rollback {
            "load rollback key: "
        } else {
            "load key: "
        },
        ConnectStage::Authenticate => if rollback {
            "rollback auth: "
        } else {
            "auth: "
        },
        ConnectStage::OpenChannel => if rollback {
            "open rollback channel: "
        } else {
            "open channel: "
        },
        ConnectStage::RequestSubsystem => if rollback {
            "request rollback sftp subsystem: "
        } else {
            "request sftp subsystem: "
        },
        ConnectStage::Handshake => if rollback {
            "rollback sftp handshake: "
        } else {
            "sftp handshake: "
        },
    };
    glue(prefix, error)
}

/// The text of a refused credential.
pub fn credential_rejected(rollback: bool) -> (r: &'static str)
    ensures
        r@ == if rollback {
            "rollback authentication failed"@
        } else {
            "authentication failed (credential rejected)"@
        },
{
    if rollback {
        "rollback authentication failed"
    } else {
        "authentication failed (credential rejected)"
    }
}

/// Whether the key of a server is accepted. Without an expected fingerprint any is.
pub open spec fn fingerprint_fits(expected: Option<Seq<char>>, actual: Seq<char>) -> bool {
    match expected {
        None => true,
        Some(expected) => if "SHA256:"@.is_prefix_of(expected) {
            actual == expected.skip("SHA256:"@.len() as int)
        } else {
            actual == expected
        },
    }
}

/// Whether the key of a server with the given fingerprint is accepted. The expected fingerprint
/// may be written with its algorithm in front.
pub fn accepts_fingerprint(expected: &Option<String>, actual: &str) -> (r: bool)
    ensures
        r == fingerprint_fits(expected.deep_view(), actual@),
{
    match expected {
        None => true,
        Some(expected) => match after_prefix(expected.as_str(), "SHA256:") {
            Some(rest) => same_text(actual, rest.as_str()),
            None => same_text(actual, expected.as_str()),
        },
    }
}

// ---------------------------------------------------------------------------------------------
// Comparing a remote file

/// A comparison of a remote file with a size and a digest.
pub struct FileCheck {
    pub path: String,
    pub expected_size: u64,
    pub expected_digest: Vec<u8>,
    pub phase: CheckPhase,
    pub digest: ContentDigest,
}

/// The mathematical content of a [`FileCheck`]. `read` is what was read of the file.
pub struct FileCheckModel {
    pub path: Seq<char>,
    pub expected_size: u64,
    pub expected_digest: Seq<u8>,
    pub phase: CheckPhase,
    pub read: Seq<u8>,
}

impl DeepView for FileCheck {
    type V = FileCheckModel;

    open spec fn deep_view(&self) -> FileCheckModel {
        FileCheckModel {
            path: self.path@,
            expected_size: self.expected_size,
            expected_digest: self.expected_digest@,
            phase: self.phase,
            read: digest_input(self.digest),
        }
    }
}

/// The text of a reply that does not answer the operation.
pub open spec fn unexpected() -> Seq<char> {
    "unexpected transfer reply"@
}

/// A comparison before its first operation, which asks whether the file exists.
pub open spec fn check_start(path: Seq<char>, size: u64, digest: Seq<u8>) -> FileCheckModel {
    FileCheckModel {
        path,
        expected_size: size,
        expected_digest: digest,
        phase: CheckPhase::Probing,
        read: Seq::empty(),
    }
}

/// One step of a comparison. Only a regular file of the expected size is read, and only one with
/// the expected digest is the same.
pub open spec fn check_step(check: FileCheckModel, reply: TransferReplyModel) -> (
    FileCheckModel,
    CheckOutcomeModel,
) {
    match (check.phase, reply) {
        (CheckPhase::Probing, TransferReplyModel::Failed(error)) => (
            check,
            CheckOutcomeModel::Fail { problem: "inspect remote destination: "@ + error },
        ),
        (CheckPhase::Probing, TransferReplyModel::Found(found)) => if found {
            (
                FileCheckModel { phase: CheckPhase::Inspecting, ..check },
                CheckOutcomeModel::Do(TransferActionModel::Lstat { path: check.path }),
            )
        } else {
            (check, CheckOutcomeModel::Answer(false))
        },
        (CheckPhase::Inspecting, TransferReplyModel::Failed(error)) => (
            check,
            CheckOutcomeModel::Fail { problem: "inspect remote destination: "@ + error },
        ),
        (CheckPhase::Inspecting, TransferReplyModel::Info(info)) => if info.symlink
            || !info.regular || info.size != check.expected_size {
            (check, CheckOutcomeModel::Answer(false))
        } else {
            (
                FileCheckModel { phase: CheckPhase::Opening, ..check },
                CheckOutcomeModel::Do(TransferActionModel::OpenRemote { path: check.path }),
            )
        },
        (CheckPhase::Opening, TransferReplyModel::Failed(error)) => (
            check,
            CheckOutcomeModel::Fail { problem: "open existing remote destination: "@ + error },
        ),
        (CheckPhase::Opening, TransferReplyModel::Done) => (
            FileCheckModel { phase: CheckPhase::Reading, ..check },
            CheckOutcomeModel::Do(TransferActionModel::ReadRemote),
        ),
        (CheckPhase::Reading, TransferReplyModel::Failed(error)) => (
            check,
            CheckOutcomeModel::Fail { problem: "read existing remote destination: "@ + error },
        ),
        (CheckPhase::Reading, TransferReplyModel::Bytes(bytes)) => if bytes.len() == 0 {
            (
                check,
                CheckOutcomeModel::Answer(sha256_bytes(check.read) == check.expected_digest),
            )
        } else {
            (
                FileCheckModel { read: check.read + bytes, ..check },
                CheckOutcomeModel::Do(TransferActionModel::ReadRemote),
            )
        },
        _ => (check, CheckOutcomeModel::Fail { problem: unexpected() }),
    }
}

fn unexpected_reply() -> (r: String)
    ensures
        r@ == unexpected(),
{
    "unexpected transfer reply".to_string()
}

impl FileCheck {
    /// A comparison before its first operation, which asks whether the file exists.
    pub fn start(path: String, size: u64, digest: Vec<u8>) -> (r: Self)
        ensures
            r.deep_view() == check_start(path@, size, digest@),
    {
        FileCheck {
            path,
            expected_size: size,
            expected_digest: digest,
            phase: CheckPhase::Probing,
            digest: ContentDigest::start(),
        }
    }

    /// Takes the next step of the comparison.
    pub fn step(&mut self, reply: &TransferReply) -> (r: CheckOutcome)
        ensures
            (final(self).deep_view(), r.deep_view()) == check_step(
                old(self).deep_view(),
                reply.deep_view(),
            ),
    {
        match (self.phase, reply) {
            (CheckPhase::Probing, TransferReply::Failed(error)) => CheckOutcome::Fail {
                problem: glue("inspect remote destination: ", error.as_str()),
            },
            (CheckPhase::Probing, TransferReply::Found(found)) => if *found {
                self.phase = CheckPhase::Inspecting;
                CheckOutcome::Do(TransferAction::Lstat { path: self.path.clone() })
            } else {
                CheckOutcome::Answer(false)
            },
            (CheckPhase::Inspecting, TransferReply::Failed(error)) => CheckOutcome::Fail {
                problem: glue("inspect remote destination: ", error.as_str()),
            },
            (CheckPhase::Inspecting, TransferReply::Info(info)) => if info.symlink || !info.regular
                || info.size != self.expected_size {
                CheckOutcome::Answer(false)
            } else {
                self.phase = CheckPhase::Opening;
                CheckOutcome::Do(TransferAction::OpenRemote { path: self.path.clone() })
            },
            (CheckPhase::Opening, TransferReply::Failed(error)) => CheckOutcome::Fail {
                problem: glue("open existing remote destination: ", error.as_str()),
            },
            (CheckPhase::Opening, TransferReply::Done) => {
                self.phase = CheckPhase::Reading;
                CheckOutcome::Do(TransferAction::ReadRemote)
            },
            (CheckPhase::Reading, TransferReply::Failed(error)) => CheckOutcome::Fail {
                problem: glue("read existing remote destination: ", error.as_str()),
            },
            (CheckPhase::Reading, TransferReply::Bytes(bytes)) => {
                assert(bytes.deep_view() =~= bytes@);
                if bytes.len() == 0 {
                    let value = self.digest.value();
                    proof {
                        assert(value.deep_view() =~= value@);
                        assert(self.expected_digest.deep_view() =~= self.expected_digest@);
                    }
                    CheckOutcome::Answer(value.same(&self.expected_digest))
                } else {
                    self.digest.absorb(bytes.as_slice());
                    CheckOutcome::Do(TransferAction::ReadRemote)
                }
            },
            _ => CheckOutcome::Fail { problem: unexpected_reply() },
        }
    }
}

// ---------------------------------------------------------------------------------------------
// Uploads

/// An upload of one file beneath the workspace of a server.
pub struct Upload {
    pub workspace_path: String,
    pub segments: Vec<String>,
    pub attempt_id: String,
    pub max_bytes: u64,
    pub phase: UploadPhase,
    /// The workspace as the server resolves it.
    pub workspace: String,
    /// The directory reached so far, as the server resolves it.
    pub parent: String,
    /// The next segment that leads to the file's directory.
    pub next_segment: usize,
    pub copied: u64,
    pub digest: ContentDigest,
    /// The comparison with the destination.
    pub check: FileCheck,
    pub rename_error: String,
    pub problem: String,
}

/// The mathematical content of an [`Upload`]. `sent` is what was read of the local file.
pub struct UploadModel {
    pub workspace_path: Seq<char>,
    pub segments: Seq<Seq<char>>,
    pub attempt_id: Seq<char>,
    pub max_bytes: u64,
    pub phase: UploadPhase,
    pub workspace: Seq<char>,
    pub parent: Seq<char>,
    pub next_segment: usize,
    pub copied: u64,
    pub sent: Seq<u8>,
    pub check: FileCheckModel,
    pub rename_error: Seq<char>,
    pub problem: Seq<char>,
}

impl DeepView for Upload {
    type V = UploadModel;

    open spec fn deep_view(&self) -> UploadModel {
        UploadModel {
            workspace_path: self.workspace_path@,
            segments: self.segments.deep_view(),
            attempt_id: self.attempt_id@,
            max_bytes: self.max_bytes,
            phase: self.phase,
            workspace: self.workspace@,
            parent: self.parent@,
            next_segment: self.next_segment,
            copied: self.copied,
            sent: digest_input(self.digest),
            check: self.check.deep_view(),
            rename_error: self.rename_error@,
            problem: self.problem@,
        }
    }
}

/// What a step of an upload gives: the upload after it, and the next operation.
pub type UploadStep = (UploadModel, TransferActionModel);

/// A name within a directory.
pub open spec fn child(directory: Seq<char>, name: Seq<char>) -> Seq<char> {
    directory + "/"@ + name
}

/// Where the file will be.
pub open spec fn destination(state: UploadModel) -> Seq<char> {
    child(state.parent, state.segments.last())
}

/// Where the file is written first.
pub open spec fn temporary(state: UploadModel) -> Seq<char> {
    child(state.parent, ".agentapp-upload-"@ + state.attempt_id)
}

/// The directory that is looked at next.
pub open spec fn candidate(state: UploadModel) -> Seq<char> {
    child(state.parent, state.segments[state.next_segment as int])
}

/// The next operation of an upload.
pub open spec fn proceed(
    state: UploadModel,
    phase: UploadPhase,
    action: TransferActionModel,
) -> UploadStep {
    (UploadModel { phase, ..state }, action)
}

/// The end of an upload that has created nothing yet.
pub open spec fn refuse(state: UploadModel, problem: Seq<char>) -> UploadStep {
    proceed(state, UploadPhase::Finished, TransferActionModel::Fail { problem })
}

/// The end of an upload that has created its temporary file, which is removed first.
pub open spec fn abandon(state: UploadModel, problem: Seq<char>) -> UploadStep {
    (
        UploadModel { phase: UploadPhase::RemovingFailed, problem, ..state },
        TransferActionModel::Remove { path: temporary(state) },
    )
}

/// The end of an upload that left the file in its place.
pub open spec fn complete(state: UploadModel, created: bool) -> UploadStep {
    proceed(
        state,
        UploadPhase::Finished,
        TransferActionModel::Uploaded(
            SshWorkspaceUploadReceiptModel {
                remote_path: destination(state),
                size: state.copied,
                sha256: sha256_bytes(state.sent),
                created,
            },
        ),
    )
}

/// The next segment on the way to the file's directory, or the directory itself.
pub open spec fn descend(state: UploadModel) -> UploadStep {
    if state.next_segment < state.segments.len() - 1 {
        proceed(
            state,
            UploadPhase::ProbingParent,
            TransferActionModel::Exists { path: candidate(state) },
        )
    } else {
        proceed(
            state,
            UploadPhase::ProbingTemporary,
            TransferActionModel::Exists { path: temporary(state) },
        )
    }
}

/// Some bytes of the local file, or its end.
pub open spec fn on_local_bytes(state: UploadModel, bytes: Seq<u8>) -> UploadStep {
    if bytes.len() == 0 {
        proceed(state, UploadPhase::Syncing, TransferActionModel::SyncRemote)
    } else if state.copied + bytes.len() > u64::MAX {
        abandon(state, "local upload size overflowed"@)
    } else if state.copied + bytes.len() > state.max_bytes {
        abandon(
            state,
            "local upload exceeds "@ + decimal_text(state.max_bytes as nat) + " bytes"@,
        )
    } else {
        (
            UploadModel {
                phase: UploadPhase::Writing,
                copied: (state.copied + bytes.len()) as u64,
                sent: state.sent + bytes,
                ..state
            },
            TransferActionModel::WriteRemote { bytes },
        )
    }
}

/// The comparison with the destination begins.
pub open spec fn begin_check(state: UploadModel, phase: UploadPhase) -> UploadStep {
    (
        UploadModel {
            phase,
            check: check_start(destination(state), state.copied, sha256_bytes(state.sent)),
            ..state
        },
        TransferActionModel::Exists { path: destination(state) },
    )
}

/// One step of an upload.
pub open spec fn upload_step(state: UploadModel, reply: TransferReplyModel) -> UploadStep {
    match (state.phase, reply) {
        (UploadPhase::OpeningLocal, TransferReplyModel::Done) => proceed(
            state,
            UploadPhase::Connecting,
            TransferActionModel::Connect,
        ),
        (UploadPhase::OpeningLocal, TransferReplyModel::Failed(error)) => refuse(
            state,
            "open local file: "@ + error,
        ),
        (UploadPhase::Connecting, TransferReplyModel::Done) => proceed(
            state,
            UploadPhase::ResolvingWorkspace,
            TransferActionModel::Canonicalize { path: state.workspace_path },
        ),
        (UploadPhase::Connecting, TransferReplyModel::Failed(error)) => refuse(state, error),
        (UploadPhase::ResolvingWorkspace, TransferReplyModel::Failed(error)) => refuse(
            state,
            "canonicalize remote workspace: "@ + error,
        ),
        (UploadPhase::ResolvingWorkspace, TransferReplyModel::Path(path)) => if !absolute(path) {
            refuse(state, "canonical remote workspace was not absolute"@)
        } else {
            proceed(
                UploadModel { workspace: path, parent: path, ..state },
                UploadPhase::InspectingWorkspace,
                TransferActionModel::Stat { path },
            )
        },
        (UploadPhase::InspectingWorkspace, TransferReplyModel::Failed(error)) => refuse(
            state,
            "inspect remote workspace: "@ + error,
        ),
        (UploadPhase::InspectingWorkspace, TransferReplyModel::Info(info)) => if !info.directory {
            refuse(state, "remote workspace is not a directory"@)
        } else {
            descend(state)
        },
        (UploadPhase::ProbingParent, TransferReplyModel::Failed(error)) => refuse(
            state,
            "inspect remote upload parent: "@ + error,
        ),
        (UploadPhase::ProbingParent, TransferReplyModel::Found(found)) => if found {
            proceed(
                state,
                UploadPhase::InspectingParent,
                TransferActionModel::Lstat { path: candidate(state) },
            )
        } else {
            proceed(
                state,
                UploadPhase::CreatingParent,
                TransferActionModel::CreateDir { path: candidate(state) },
            )
        },
        (UploadPhase::CreatingParent, TransferReplyModel::Failed(error)) => refuse(
            state,
            "create remote upload parent: "@ + error,
        ),
        (UploadPhase::CreatingParent, TransferReplyModel::Done) => proceed(
            state,
            UploadPhase::InspectingParent,
            TransferActionModel::Lstat { path: candidate(state) },
        ),
        (UploadPhase::InspectingParent, TransferReplyModel::Failed(error)) => refuse(
            state,
            "inspect remote upload parent: "@ + error,
        ),
        (UploadPhase::InspectingParent, TransferReplyModel::Info(info)) => if info.symlink
            || !info.directory {
            refuse(state, "remote upload parent is not a non-symlink directory"@)
        } else {
            proceed(
                state,
                UploadPhase::ResolvingParent,
                TransferActionModel::Canonicalize { path: candidate(state) },
            )
        },
        (UploadPhase::ResolvingParent, TransferReplyModel::Failed(error)) => refuse(
            state,
            "canonicalize remote upload parent: "@ + error,
        ),
        (UploadPhase::ResolvingParent, TransferReplyModel::Path(path)) => if !within(
            path,
            state.workspace,
        ) {
            refuse(state, "remote upload parent escapes the configured workspace"@)
        } else {
            descend(
                UploadModel {
                    parent: path,
                    next_segment: (state.next_segment + 1) as usize,
                    ..state
                },
            )
        },
        (UploadPhase::ProbingTemporary, TransferReplyModel::Failed(error)) => refuse(
            state,
            "inspect remote temporary file: "@ + error,
        ),
        (UploadPhase::ProbingTemporary, TransferReplyModel::Found(found)) => if found {
            refuse(state, "remote upload attempt already exists"@)
        } else {
            proceed(
                state,
                UploadPhase::CreatingTemporary,
                TransferActionModel::CreateRemote { path: temporary(state) },
            )
        },
        (UploadPhase::CreatingTemporary, TransferReplyModel::Failed(error)) => refuse(
            state,
            "open remote file: "@ + error,
        ),
        (UploadPhase::CreatingTemporary, TransferReplyModel::Done) => proceed(
            state,
            UploadPhase::Reading,
            TransferActionModel::ReadLocal,
        ),
        (UploadPhase::Reading, TransferReplyModel::Failed(error)) => abandon(
            state,
            "read local file: "@ + error,
        ),
        (UploadPhase::Reading, TransferReplyModel::Bytes(bytes)) => on_local_bytes(state, bytes),
        (UploadPhase::Writing, TransferReplyModel::Failed(error)) => abandon(
            state,
            "stream remote file: "@ + error,
        ),
        (UploadPhase::Writing, TransferReplyModel::Done) => proceed(
            state,
            UploadPhase::Reading,
            TransferActionModel::ReadLocal,
        ),
        (UploadPhase::Syncing, TransferReplyModel::Failed(error)) => abandon(
            state,
            "sync remote file: "@ + error,
        ),
        (UploadPhase::Syncing, TransferReplyModel::Done) => proceed(
            state,
            UploadPhase::Closing,
            TransferActionModel::CloseRemote,
        ),
        (UploadPhase::Closing, TransferReplyModel::Failed(error)) => abandon(
            state,
            "finish remote file: "@ + error,
        ),
        (UploadPhase::Closing, TransferReplyModel::Done) => begin_check(
            state,
            UploadPhase::Checking,
        ),
        (UploadPhase::Checking, _) => {
            let (check, outcome) = check_step(state.check, reply);
            let state = UploadModel { check, ..state };
            match outcome {
                CheckOutcomeModel::Do(action) => (state, action),
                CheckOutcomeModel::Fail { problem } => abandon(state, problem),
                CheckOutcomeModel::Answer(true) => proceed(
                    state,
                    UploadPhase::RemovingDuplicate,
                    TransferActionModel::Remove { path: temporary(state) },
                ),
                CheckOutcomeModel::Answer(false) => proceed(
                    state,
                    UploadPhase::ProbingConflict,
                    TransferActionModel::Exists { path: destination(state) },
                ),
            }
        },
        (UploadPhase::RemovingDuplicate, TransferReplyModel::Failed(error)) => abandon(
            state,
            "remove duplicate temporary upload: "@ + error,
        ),
        (UploadPhase::RemovingDuplicate, TransferReplyModel::Done) => complete(state, false),
        (UploadPhase::ProbingConflict, TransferReplyModel::Failed(error)) => abandon(
            state,
            "inspect remote destination: "@ + error,
        ),
        (UploadPhase::ProbingConflict, TransferReplyModel::Found(found)) => if found {
            abandon(state, "remote destination exists with different content or type"@)
        } else {
            proceed(
                state,
                UploadPhase::Renaming,
                TransferActionModel::Rename { from: temporary(state), to: destination(state) },
            )
        },
        (UploadPhase::Renaming, TransferReplyModel::Done) => complete(state, true),
        (UploadPhase::Renaming, TransferReplyModel::Failed(error)) => begin_check(
            UploadModel { rename_error: error, ..state },
            UploadPhase::Rechecking,
        ),
        (UploadPhase::Rechecking, _) => {
            let (check, outcome) = check_step(state.check, reply);
            let state = UploadModel { check, ..state };
            match outcome {
                CheckOutcomeModel::Do(action) => (state, action),
                CheckOutcomeModel::Fail { problem } => abandon(state, problem),
                CheckOutcomeModel::Answer(true) => proceed(
                    state,
                    UploadPhase::RemovingLoser,
                    TransferActionModel::Remove { path: temporary(state) },
                ),
                CheckOutcomeModel::Answer(false) => abandon(
                    state,
                    "commit remote upload: "@ + state.rename_error,
                ),
            }
        },
        (UploadPhase::RemovingLoser, _) => complete(state, false),
        (UploadPhase::RemovingFailed, _) => refuse(state, state.problem),
        (UploadPhase::Finished, _) => (state, TransferActionModel::Nothing),
        _ => if has_temporary(state.phase) {
            abandon(state, unexpected())
        } else {
            refuse(state, unexpected())
        },
    }
}

/// Whether an upload in a phase has created its temporary file.
pub open spec fn has_temporary(phase: UploadPhase) -> bool {
    match phase {
        UploadPhase::Reading | UploadPhase::Writing | UploadPhase::Syncing
        | UploadPhase::Closing | UploadPhase::Checking | UploadPhase::RemovingDuplicate
        | UploadPhase::ProbingConflict | UploadPhase::Renaming | UploadPhase::Rechecking
        | UploadPhase::RemovingLoser | UploadPhase::RemovingFailed => true,
        _ => false,
    }
}

/// Whether the position of an upload on its way is in order.
pub open spec fn on_the_way(state: UploadModel) -> bool {
    &&& state.segments.len() > 0
    &&& state.next_segment <= state.segments.len() - 1
    &&& (state.phase == UploadPhase::ProbingParent || state.phase == UploadPhase::CreatingParent
        || state.phase == UploadPhase::InspectingParent || state.phase
        == UploadPhase::ResolvingParent) ==> state.next_segment < state.segments.len() - 1
}

impl Upload {
    /// Begins an upload of the local file into the workspace of a server.
    ///
    /// Every parent is created and resolved one segment at a time, symbolic links are refused as
    /// parents and destinations, and the final name becomes visible only when a fully synced
    /// temporary file of this attempt is renamed. A retry accepts an existing destination only if
    /// its size and digest match what was sent.
    pub fn begin(workspace_path: String, relative_path: &str, attempt_id: String, max_bytes: u64)
        -> (r: Result<(Self, TransferAction), String>)
        ensures
            match upload_request_check(workspace_path@, relative_path@, attempt_id@) {
                Err(problem) => r is Err && r->Err_0@ == problem,
                Ok(_) => r matches Ok((upload, action)) && {
                    &&& action.deep_view() == TransferActionModel::OpenLocal
                    &&& upload.phase == UploadPhase::OpeningLocal
                    &&& upload.workspace_path@ == workspace_path@
                    &&& upload.segments.deep_view() == pieces(relative_path@, '/')
                    &&& upload.attempt_id@ == attempt_id@
                    &&& upload.max_bytes == max_bytes
                    &&& upload.next_segment == 0
                    &&& upload.copied == 0
                    &&& upload.deep_view().sent == Seq::<u8>::empty()
                    &&& upload_in_order(upload.deep_view())
                },
            },
    {
        match validate_upload_request(
            workspace_path.as_str(),
            relative_path,
            attempt_id.as_str(),
        ) {
            Err(problem) => {
                return Err(problem);
            },
            Ok(()) => {},
        }
        let segments = split_on(relative_path, '/');
        proof {
            crate::text::lemma_pieces_nonempty(relative_path@, '/');
        }
        let upload = Upload {
            workspace_path,
            segments,
            attempt_id,
            max_bytes,
            phase: UploadPhase::OpeningLocal,
            workspace: String::new(),
            parent: String::new(),
            next_segment: 0,
            copied: 0,
            digest: ContentDigest::start(),
            check: FileCheck::start(String::new(), 0, Vec::new()),
            rename_error: String::new(),
            problem: String::new(),
        };
        proof {
            law_containment(upload.workspace@, upload.workspace@, upload.workspace@);
        }
        Ok((upload, TransferAction::OpenLocal))
    }

    fn destination(&self) -> (r: String)
        requires
            self.segments@.len() > 0,
        ensures
            r@ == destination(self.deep_view()),
    {
        assert(self.segments.deep_view().last() == self.segments@[self.segments@.len() - 1]@);
        glue3(self.parent.as_str(), "/", self.segments[self.segments.len() - 1].as_str())
    }

    fn temporary(&self) -> (r: String)
        ensures
            r@ == temporary(self.deep_view()),
    {
        glue3(
            self.parent.as_str(),
            "/",
            glue(".agentapp-upload-", self.attempt_id.as_str()).as_str(),
        )
    }

    fn candidate(&self) -> (r: String)
        requires
            self.next_segment < self.segments@.len(),
        ensures
            r@ == candidate(self.deep_view()),
    {
        assert(self.segments.deep_view()[self.next_segment as int]
            == self.segments@[self.next_segment as int]@);
        glue3(self.parent.as_str(), "/", self.segments[self.next_segment].as_str())
    }

    fn refuse(&mut self, problem: String) -> (r: TransferAction)
        ensures
            (final(self).deep_view(), r.deep_view()) == refuse(old(self).deep_view(), problem@),
    {
        self.phase = UploadPhase::Finished;
        TransferAction::Fail { problem }
    }

    fn abandon(&mut self, problem: String) -> (r: TransferAction)
        ensures
            (final(self).deep_view(), r.deep_view()) == abandon(old(self).deep_view(), problem@),
    {
        let path = self.temporary();
        self.phase = UploadPhase::RemovingFailed;
        self.problem = problem;
        TransferAction::Remove { path }
    }

    fn complete(&mut self, created: bool) -> (r: TransferAction)
        requires
            old(self).segments@.len() > 0,
        ensures
            (final(self).deep_view(), r.deep_view()) == complete(old(self).deep_view(), created),
    {
        let sha256 = self.digest.value();
        assert(sha256.deep_view() =~= sha256@);
        let receipt = SshWorkspaceUploadReceipt {
            remote_path: self.destination(),
            size: self.copied,
            sha256,
            created,
        };
        self.phase = UploadPhase::Finished;
        TransferAction::Uploaded(receipt)
    }

    fn descend(&mut self) -> (r: TransferAction)
        requires
            old(self).segments@.len() > 0,
        ensures
            (final(self).deep_view(), r.deep_view()) == descend(old(self).deep_view()),
    {
        if self.next_segment < self.segments.len() - 1 {
            self.phase = UploadPhase::ProbingParent;
            TransferAction::Exists { path: self.candidate() }
        } else {
            self.phase = UploadPhase::ProbingTemporary;
            TransferAction::Exists { path: self.temporary() }
        }
    }

    fn take_local_bytes(&mut self, bytes: &Vec<u8>) -> (r: TransferAction)
        ensures
            (final(self).deep_view(), r.deep_view()) == on_local_bytes(
                old(self).deep_view(),
                bytes.deep_view(),
            ),
    {
        assert(bytes.deep_view() =~= bytes@);
        if bytes.len() == 0 {
            self.phase = UploadPhase::Syncing;
            return TransferAction::SyncRemote;
        }
        let count: u64 = bytes.len() as u64;
        if count > u64::MAX - self.copied {
            return self.abandon("local upload size overflowed".to_string());
        }
        let copied: u64 = self.copied + count;
        if copied > self.max_bytes {
            return self.abandon(
                glue3("local upload exceeds ", decimal(self.max_bytes).as_str(), " bytes"),
            );
        }
        self.phase = UploadPhase::Writing;
        self.copied = copied;
        self.digest.absorb(bytes.as_slice());
        TransferAction::WriteRemote { bytes: bytes.duplicate() }
    }

    fn begin_check(&mut self, phase: UploadPhase) -> (r: TransferAction)
        requires
            old(self).segments@.len() > 0,
        ensures
            (final(self).deep_view(), r.deep_view()) == begin_check(old(self).deep_view(), phase),
    {
        let path = self.destination();
        self.check = FileCheck::start(path.clone(), self.copied, self.digest.value());
        self.phase = phase;
        TransferAction::Exists { path }
    }

    /// Takes the next step of the upload: is told what became of the last operation, and says
    /// what to do next.
    pub fn step(&mut self, reply: &TransferReply) -> (r: TransferAction)
        requires
            on_the_way(old(self).deep_view()),
        ensures
            (final(self).deep_view(), r.deep_view()) == upload_step(
                old(self).deep_view(),
                reply.deep_view(),
            ),
            on_the_way(final(self).deep_view()),
    {
        match (self.phase, reply) {
            (UploadPhase::OpeningLocal, TransferReply::Done) => {
                self.phase = UploadPhase::Connecting;
                TransferAction::Connect
            },
            (UploadPhase::OpeningLocal, TransferReply::Failed(error)) => self.refuse(
                glue("open local file: ", error.as_str()),
            ),
            (UploadPhase::Connecting, TransferReply::Done) => {
                self.phase = UploadPhase::ResolvingWorkspace;
                TransferAction::Canonicalize { path: self.workspace_path.clone() }
            },
            (UploadPhase::Connecting, TransferReply::Failed(error)) => self.refuse(error.clone()),
            (UploadPhase::ResolvingWorkspace, TransferReply::Failed(error)) => self.refuse(
                glue("canonicalize remote workspace: ", error.as_str()),
            ),
            (UploadPhase::ResolvingWorkspace, TransferReply::Path(path)) => {
                if !starts_with(path.as_str(), "/") {
                    return self.refuse("canonical remote workspace was not absolute".to_string());
                }
                self.workspace = path.clone();
                self.parent = path.clone();
                self.phase = UploadPhase::InspectingWorkspace;
                TransferAction::Stat { path: path.clone() }
            },
            (UploadPhase::InspectingWorkspace, TransferReply::Failed(error)) => self.refuse(
                glue("inspect remote workspace: ", error.as_str()),
            ),
            (UploadPhase::InspectingWorkspace, TransferReply::Info(info)) => {
                if !info.directory {
                    return self.refuse("remote workspace is not a directory".to_string());
                }
                self.descend()
            },
            (UploadPhase::ProbingParent, TransferReply::Failed(error)) => self.refuse(
                glue("inspect remote upload parent: ", error.as_str()),
            ),
            (UploadPhase::ProbingParent, TransferReply::Found(found)) => {
                let path = self.candidate();
                if *found {
                    self.phase = UploadPhase::InspectingParent;
                    TransferAction::Lstat { path }
                } else {
                    self.phase = UploadPhase::CreatingParent;
                    TransferAction::CreateDir { path }
                }
            },
            (UploadPhase::CreatingParent, TransferReply::Failed(error)) => self.refuse(
                glue("create remote upload parent: ", error.as_str()),
            ),
            (UploadPhase::CreatingParent, TransferReply::Done) => {
                self.phase = UploadPhase::InspectingParent;
                TransferAction::Lstat { path: self.candidate() }
            },
            (UploadPhase::InspectingParent, TransferReply::Failed(error)) => self.refuse(
                glue("inspect remote upload parent: ", error.as_str()),
            ),
            (UploadPhase::InspectingParent, TransferReply::Info(info)) => {
                if info.symlink || !info.directory {
                    return self.refuse(
                        "remote upload parent is not a non-symlink directory".to_string(),
                    );
                }
                self.phase = UploadPhase::ResolvingParent;
                TransferAction::Canonicalize { path: self.candidate() }
            },
            (UploadPhase::ResolvingParent, TransferReply::Failed(error)) => self.refuse(
                glue("canonicalize remote upload parent: ", error.as_str()),
            ),
            (UploadPhase::ResolvingParent, TransferReply::Path(path)) => {
                if !is_within(path.as_str(), self.workspace.as_str()) {
                    return self.refuse(
                        "remote upload parent escapes the configured workspace".to_string(),
                    );
                }
                let count = self.segments.len();
                assert(self.next_segment < count);
                self.parent = path.clone();
                self.next_segment = self.next_segment + 1;
                self.descend()
            },
            (UploadPhase::ProbingTemporary, TransferReply::Failed(error)) => self.refuse(
                glue("inspect remote temporary file: ", error.as_str()),
            ),
            (UploadPhase::ProbingTemporary, TransferReply::Found(found)) => {
                if *found {
                    return self.refuse("remote upload attempt already exists".to_string());
                }
                self.phase = UploadPhase::CreatingTemporary;
                TransferAction::CreateRemote { path: self.temporary() }
            },
            (UploadPhase::CreatingTemporary, TransferReply::Failed(error)) => self.refuse(
                glue("open remote file: ", error.as_str()),
            ),
            (UploadPhase::CreatingTemporary, TransferReply::Done) => {
                self.phase = UploadPhase::Reading;
                TransferAction::ReadLocal
            },
            (UploadPhase::Reading, TransferReply::Failed(error)) => self.abandon(
                glue("read local file: ", error.as_str()),
            ),
            (UploadPhase::Reading, TransferReply::Bytes(bytes)) => self.take_local_bytes(bytes),
            (UploadPhase::Writing, TransferReply::Failed(error)) => self.abandon(
                glue("stream remote file: ", error.as_str()),
            ),
            (UploadPhase::Writing, TransferReply::Done) => {
                self.phase = UploadPhase::Reading;
                TransferAction::ReadLocal
            },
            (UploadPhase::Syncing, TransferReply::Failed(error)) => self.abandon(
                glue("sync remote file: ", error.as_str()),
            ),
            (UploadPhase::Syncing, TransferReply::Done) => {
                self.phase = UploadPhase::Closing;
                TransferAction::CloseRemote
            },
            (UploadPhase::Closing, TransferReply::Failed(error)) => self.abandon(
                glue("finish remote file: ", error.as_str()),
            ),
            (UploadPhase::Closing, TransferReply::Done) => self.begin_check(UploadPhase::Checking),
            (UploadPhase::Checking, _) => match self.check.step(reply) {
                CheckOutcome::Do(action) => action,
                CheckOutcome::Fail { problem } => self.abandon(problem),
                CheckOutcome::Answer(same) => if same {
                    self.phase = UploadPhase::RemovingDuplicate;
                    TransferAction::Remove { path: self.temporary() }
                } else {
                    self.phase = UploadPhase::ProbingConflict;
                    TransferAction::Exists { path: self.destination() }
                },
            },
            (UploadPhase::RemovingDuplicate, TransferReply::Failed(error)) => self.abandon(
                glue("remove duplicate temporary upload: ", error.as_str()),
            ),
            (UploadPhase::RemovingDuplicate, TransferReply::Done) => self.complete(false),
            (UploadPhase::ProbingConflict, TransferReply::Failed(error)) => self.abandon(
                glue("inspect remote destination: ", error.as_str()),
            ),
            (UploadPhase::ProbingConflict, TransferReply::Found(found)) => {
                if *found {
                    return self.abandon(
                        "remote destination exists with different content or type".to_string(),
                    );
                }
                self.phase = UploadPhase::Renaming;
                TransferAction::Rename { from: self.temporary(), to: self.destination() }
            },
            (UploadPhase::Renaming, TransferReply::Done) => self.complete(true),
            (UploadPhase::Renaming, TransferReply::Failed(error)) => {
                self.rename_error = error.clone();
                self.begin_check(UploadPhase::Rechecking)
            },
            (UploadPhase::Rechecking, _) => match self.check.step(reply) {
                CheckOutcome::Do(action) => action,
                CheckOutcome::Fail { problem } => self.abandon(problem),
                CheckOutcome::Answer(same) => if same {
                    self.phase = UploadPhase::RemovingLoser;
                    TransferAction::Remove { path: self.temporary() }
                } else {
                    let problem = glue("commit remote upload: ", self.rename_error.as_str());
                    self.abandon(problem)
                },
            },
            (UploadPhase::RemovingLoser, _) => self.complete(false),
            (UploadPhase::RemovingFailed, _) => {
                let problem = self.problem.clone();
                self.refuse(problem)
            },
            (UploadPhase::Finished, _) => TransferAction::Nothing,
            _ => {
                let created = matches!(
                    self.phase,
                    UploadPhase::Reading | UploadPhase::Writing | UploadPhase::Syncing
                    | UploadPhase::Closing | UploadPhase::RemovingDuplicate
                    | UploadPhase::ProbingConflict | UploadPhase::Renaming
                );
                if created {
                    self.abandon(unexpected_reply())
                } else {
                    self.refuse(unexpected_reply())
                }
            },
        }
    }
}

// ---------------------------------------------------------------------------------------------
// Taking an upload back

/// Taking back an upload after the request that it belonged to was refused.
pub struct Rollback {
    pub workspace_path: String,
    pub receipt: SshWorkspaceUploadReceipt,
    pub phase: RollbackPhase,
    /// The workspace as the server resolves it.
    pub workspace: String,
    /// The file as the server resolves it, in the comparison.
    pub check: FileCheck,
    pub resolve_error: String,
}

/// The mathematical content of a [`Rollback`].
pub struct RollbackModel {
    pub workspace_path: Seq<char>,
    pub receipt: SshWorkspaceUploadReceiptModel,
    pub phase: RollbackPhase,
    pub workspace: Seq<char>,
    pub check: FileCheckModel,
    pub resolve_error: Seq<char>,
}

impl DeepView for Rollback {
    type V = RollbackModel;

    open spec fn deep_view(&self) -> RollbackModel {
        RollbackModel {
            workspace_path: self.workspace_path@,
            receipt: self.receipt.deep_view(),
            phase: self.phase,
            workspace: self.workspace@,
            check: self.check.deep_view(),
            resolve_error: self.resolve_error@,
        }
    }
}

/// What a step of a rollback gives.
pub type RollbackStep = (RollbackModel, TransferActionModel);

/// The next operation of a rollback.
pub open spec fn roll(
    state: RollbackModel,
    phase: RollbackPhase,
    action: TransferActionModel,
) -> RollbackStep {
    (RollbackModel { phase, ..state }, action)
}

/// The end of a rollback that fails.
pub open spec fn roll_fail(state: RollbackModel, problem: Seq<char>) -> RollbackStep {
    roll(state, RollbackPhase::Finished, TransferActionModel::Fail { problem })
}

/// The file was resolved. It is compared only if it lies below the workspace.
pub open spec fn on_rollback_file(state: RollbackModel, path: Seq<char>) -> RollbackStep {
    if !within(path, state.workspace) || path == state.workspace {
        roll_fail(state, "rollback destination escapes the configured workspace"@)
    } else {
        (
            RollbackModel {
                phase: RollbackPhase::Checking,
                check: check_start(path, state.receipt.size, state.receipt.sha256),
                ..state
            },
            TransferActionModel::Exists { path },
        )
    }
}

/// One step of a rollback.
pub open spec fn rollback_step(state: RollbackModel, reply: TransferReplyModel) -> RollbackStep {
    match (state.phase, reply) {
        (RollbackPhase::Connecting, TransferReplyModel::Done) => roll(
            state,
            RollbackPhase::ResolvingWorkspace,
            TransferActionModel::Canonicalize { path: state.workspace_path },
        ),
        (RollbackPhase::Connecting, TransferReplyModel::Failed(error)) => roll_fail(state, error),
        (RollbackPhase::ResolvingWorkspace, TransferReplyModel::Failed(error)) => roll_fail(
            state,
            "canonicalize rollback workspace: "@ + error,
        ),
        (RollbackPhase::ResolvingWorkspace, TransferReplyModel::Path(path)) => roll(
            RollbackModel { workspace: path, ..state },
            RollbackPhase::ResolvingFile,
            TransferActionModel::Canonicalize { path: state.receipt.remote_path },
        ),
        (RollbackPhase::ResolvingFile, TransferReplyModel::Failed(error)) => roll(
            RollbackModel { resolve_error: error, ..state },
            RollbackPhase::ProbingFile,
            TransferActionModel::Exists { path: state.receipt.remote_path },
        ),
        (RollbackPhase::ResolvingFile, TransferReplyModel::Path(path)) => on_rollback_file(
            state,
            path,
        ),
        (RollbackPhase::ProbingFile, TransferReplyModel::Failed(error)) => roll_fail(
            state,
            "inspect rollback destination: "@ + error,
        ),
        (RollbackPhase::ProbingFile, TransferReplyModel::Found(found)) => if found {
            roll_fail(state, "canonicalize rollback destination: "@ + state.resolve_error)
        } else {
            roll(state, RollbackPhase::Finished, TransferActionModel::RolledBack)
        },
        (RollbackPhase::Checking, _) => {
            let (check, outcome) = check_step(state.check, reply);
            let state = RollbackModel { check, ..state };
            match outcome {
                CheckOutcomeModel::Do(action) => (state, action),
                CheckOutcomeModel::Fail { problem } => roll_fail(state, problem),
                CheckOutcomeModel::Answer(true) => roll(
                    state,
                    RollbackPhase::Removing,
                    TransferActionModel::Remove { path: state.check.path },
                ),
                CheckOutcomeModel::Answer(false) => roll_fail(
                    state,
                    "rollback destination changed after upload"@,
                ),
            }
        },
        (RollbackPhase::Removing, TransferReplyModel::Failed(error)) => roll_fail(
            state,
            "remove rollback destination: "@ + error,
        ),
        (RollbackPhase::Removing, TransferReplyModel::Done) => roll(
            state,
            RollbackPhase::Finished,
            TransferActionModel::RolledBack,
        ),
        (RollbackPhase::Finished, _) => (state, TransferActionModel::Nothing),
        _ => roll_fail(state, unexpected()),
    }
}

impl Rollback {
    /// Begins to take an upload back. A file that the upload found in its place is never removed,
    /// and one that has changed since is left alone.
    pub fn begin(workspace_path: String, receipt: SshWorkspaceUploadReceipt) -> (r: Result<
        (Self, TransferAction),
        String,
    >)
        ensures
            receipt.created && !workspace_is_valid(workspace_path@) ==> r is Err && r->Err_0@
                == "remote workspace must be a nonempty absolute path"@,
            !receipt.created || workspace_is_valid(workspace_path@) ==> r is Ok
                && r->Ok_0.0.workspace_path@ == workspace_path@ && r->Ok_0.0.receipt == receipt,
            !receipt.created ==> r->Ok_0.0.phase == RollbackPhase::Finished
                && r->Ok_0.1.deep_view() == TransferActionModel::RolledBack,
            receipt.created && workspace_is_valid(workspace_path@) ==> r->Ok_0.0.phase
                == RollbackPhase::Connecting && r->Ok_0.1.deep_view()
                == TransferActionModel::Connect,
    {
        let created = receipt.created;
        if created && (is_blank(workspace_path.as_str()) || !starts_with(
            workspace_path.as_str(),
            "/",
        )) {
            return Err("remote workspace must be a nonempty absolute path".to_string());
        }
        let phase = if created {
            RollbackPhase::Connecting
        } else {
            RollbackPhase::Finished
        };
        let rollback = Rollback {
            workspace_path,
            receipt,
            phase,
            workspace: String::new(),
            check: FileCheck::start(String::new(), 0, Vec::new()),
            resolve_error: String::new(),
        };
        if created {
            Ok((rollback, TransferAction::Connect))
        } else {
            Ok((rollback, TransferAction::RolledBack))
        }
    }

    fn fail(&mut self, problem: String) -> (r: TransferAction)
        ensures
            (final(self).deep_view(), r.deep_view()) == roll_fail(old(self).deep_view(), problem@),
    {
        self.phase = RollbackPhase::Finished;
        TransferAction::Fail { problem }
    }

    fn take_file(&mut self, path: &String) -> (r: TransferAction)
        ensures
            (final(self).deep_view(), r.deep_view()) == on_rollback_file(
                old(self).deep_view(),
                path@,
            ),
    {
        if !is_within(path.as_str(), self.workspace.as_str()) || *path == self.workspace {
            return self.fail("rollback destination escapes the configured workspace".to_string());
        }
        let sha256 = self.receipt.sha256.duplicate();
        proof {
            assert(sha256.deep_view() =~= sha256@);
        }
        self.check = FileCheck::start(path.clone(), self.receipt.size, sha256);
        self.phase = RollbackPhase::Checking;
        TransferAction::Exists { path: path.clone() }
    }

    /// Takes the next step of the rollback.
    pub fn step(&mut self, reply: &TransferReply) -> (r: TransferAction)
        ensures
            (final(self).deep_view(), r.deep_view()) == rollback_step(
                old(self).deep_view(),
                reply.deep_view(),
            ),
    {
        match (self.phase, reply) {
            (RollbackPhase::Connecting, TransferReply::Done) => {
                self.phase = RollbackPhase::ResolvingWorkspace;
                TransferAction::Canonicalize { path: self.workspace_path.clone() }
            },
            (RollbackPhase::Connecting, TransferReply::Failed(error)) => self.fail(error.clone()),
            (RollbackPhase::ResolvingWorkspace, TransferReply::Failed(error)) => self.fail(
                glue("canonicalize rollback workspace: ", error.as_str()),
            ),
            (RollbackPhase::ResolvingWorkspace, TransferReply::Path(path)) => {
                self.workspace = path.clone();
                self.phase = RollbackPhase::ResolvingFile;
                TransferAction::Canonicalize { path: self.receipt.remote_path.clone() }
            },
            (RollbackPhase::ResolvingFile, TransferReply::Failed(error)) => {
                self.resolve_error = error.clone();
                self.phase = RollbackPhase::ProbingFile;
                TransferAction::Exists { path: self.receipt.remote_path.clone() }
            },
            (RollbackPhase::ResolvingFile, TransferReply::Path(path)) => self.take_file(path),
            (RollbackPhase::ProbingFile, TransferReply::Failed(error)) => self.fail(
                glue("inspect rollback destination: ", error.as_str()),
            ),
            (RollbackPhase::ProbingFile, TransferReply::Found(found)) => {
                if *found {
                    let problem = glue(
                        "canonicalize rollback destination: ",
                        self.resolve_error.as_str(),
                    );
                    return self.fail(problem);
                }
                self.phase = RollbackPhase::Finished;
                TransferAction::RolledBack
            },
            (RollbackPhase::Checking, _) => match self.check.step(reply) {
                CheckOutcome::Do(action) => action,
                CheckOutcome::Fail { problem } => self.fail(problem),
                CheckOutcome::Answer(same) => if same {
                    self.phase = RollbackPhase::Removing;
                    TransferAction::Remove { path: self.check.path.clone() }
                } else {
                    self.fail("rollback destination changed after upload".to_string())
                },
            },
            (RollbackPhase::Removing, TransferReply::Failed(error)) => self.fail(
                glue("remove rollback destination: ", error.as_str()),
            ),
            (RollbackPhase::Removing, TransferReply::Done) => {
                self.phase = RollbackPhase::Finished;
                TransferAction::RolledBack
            },
            (RollbackPhase::Finished, _) => TransferAction::Nothing,
            _ => self.fail(unexpected_reply()),
        }
    }
}

// ---------------------------------------------------------------------------------------------
// Downloads

/// A download of one file from the workspace of a server.
#[derive(Debug)]
pub struct Download {
    pub workspace_path: String,
    pub requested_path: String,
    pub local_path: String,
    pub max_bytes: u64,
    pub phase: DownloadPhase,
    /// The workspace as the server resolves it.
    pub workspace: String,
    /// The file as the server resolves it.
    pub file: String,
    pub copied: u64,
    pub problem: String,
}

/// The mathematical content of a [`Download`].
pub struct DownloadModel {
    pub workspace_path: Seq<char>,
    pub requested_path: Seq<char>,
    pub local_path: Seq<char>,
    pub max_bytes: u64,
    pub phase: DownloadPhase,
    pub workspace: Seq<char>,
    pub file: Seq<char>,
    pub copied: u64,
    pub problem: Seq<char>,
}

impl DeepView for Download {
    type V = DownloadModel;

    open spec fn deep_view(&self) -> DownloadModel {
        DownloadModel {
            workspace_path: self.workspace_path@,
            requested_path: self.requested_path@,
            local_path: self.local_path@,
            max_bytes: self.max_bytes,
            phase: self.phase,
            workspace: self.workspace@,
            file: self.file@,
            copied: self.copied,
            problem: self.problem@,
        }
    }
}

/// What a step of a download gives.
pub type DownloadStep = (DownloadModel, TransferActionModel);

/// A path seen from a directory: itself where it is absolute.
pub open spec fn seen_from(directory: Seq<char>, path: Seq<char>) -> Seq<char> {
    if absolute(path) || directory.len() == 0 {
        path
    } else if directory.last() == '/' {
        directory + path
    } else {
        directory + "/"@ + path
    }
}

/// Where the download is written first.
pub open spec fn partial(state: DownloadModel) -> Seq<char> {
    state.local_path + ".partial"@
}

/// The next operation of a download.
pub open spec fn fetch(
    state: DownloadModel,
    phase: DownloadPhase,
    action: TransferActionModel,
) -> DownloadStep {
    (DownloadModel { phase, ..state }, action)
}

/// The end of a download that has written nothing yet.
pub open spec fn fetch_fail(state: DownloadModel, problem: Seq<char>) -> DownloadStep {
    fetch(state, DownloadPhase::Finished, TransferActionModel::Fail { problem })
}

/// The end of a download that has written something, which is removed first.
pub open spec fn discard(state: DownloadModel, problem: Seq<char>) -> DownloadStep {
    (
        DownloadModel { phase: DownloadPhase::Discarding, problem, ..state },
        TransferActionModel::RemoveLocal { path: partial(state) },
    )
}

/// The limit for one byte more than allowed, so that too large a file is noticed.
pub open spec fn copy_limit(max_bytes: u64) -> u64 {
    if max_bytes == u64::MAX {
        u64::MAX
    } else {
        (max_bytes + 1) as u64
    }
}

/// The file's information came.
pub open spec fn on_file_info(state: DownloadModel, info: FileInfoModel) -> DownloadStep {
    if !info.regular {
        fetch_fail(state, "remote path is not a regular file"@)
    } else if info.size > state.max_bytes {
        fetch_fail(
            state,
            "remote file is too large ("@ + decimal_text(info.size as nat) + (
            " bytes; limit is "@ + decimal_text(state.max_bytes as nat) + ")"@),
        )
    } else {
        fetch(
            state,
            DownloadPhase::OpeningRemote,
            TransferActionModel::OpenRemote { path: state.file },
        )
    }
}

/// The file was copied.
pub open spec fn on_copied(state: DownloadModel, count: u64) -> DownloadStep {
    if count > state.max_bytes {
        discard(
            state,
            "remote file is too large ("@ + decimal_text(count as nat) + (
            " bytes read; limit is "@ + decimal_text(state.max_bytes as nat) + ")"@),
        )
    } else {
        fetch(
            DownloadModel { copied: count, ..state },
            DownloadPhase::Flushing,
            TransferActionModel::FlushLocal,
        )
    }
}

/// One step of a download.
pub open spec fn download_step(state: DownloadModel, reply: TransferReplyModel) -> DownloadStep {
    match (state.phase, reply) {
        (DownloadPhase::Connecting, TransferReplyModel::Done) => fetch(
            state,
            DownloadPhase::ResolvingWorkspace,
            TransferActionModel::Canonicalize { path: state.workspace_path },
        ),
        (DownloadPhase::Connecting, TransferReplyModel::Failed(error)) => fetch_fail(state, error),
        (DownloadPhase::ResolvingWorkspace, TransferReplyModel::Failed(error)) => fetch_fail(
            state,
            "resolve remote workspace: "@ + error,
        ),
        (DownloadPhase::ResolvingWorkspace, TransferReplyModel::Path(path)) => fetch(
            DownloadModel { workspace: path, ..state },
            DownloadPhase::ResolvingFile,
            TransferActionModel::Canonicalize {
                path: seen_from(state.workspace_path, state.requested_path),
            },
        ),
        (DownloadPhase::ResolvingFile, TransferReplyModel::Failed(error)) => fetch_fail(
            state,
            "resolve remote file: "@ + error,
        ),
        (DownloadPhase::ResolvingFile, TransferReplyModel::Path(path)) => if !within(
            path,
            state.workspace,
        ) {
            fetch_fail(state, "remote file resolves outside this agent's workspace"@)
        } else {
            fetch(
                DownloadModel { file: path, ..state },
                DownloadPhase::Inspecting,
                TransferActionModel::Stat { path },
            )
        },
        (DownloadPhase::Inspecting, TransferReplyModel::Failed(error)) => fetch_fail(
            state,
            "inspect remote file: "@ + error,
        ),
        (DownloadPhase::Inspecting, TransferReplyModel::Info(info)) => on_file_info(state, info),
        (DownloadPhase::OpeningRemote, TransferReplyModel::Failed(error)) => fetch_fail(
            state,
            "open remote file: "@ + error,
        ),
        (DownloadPhase::OpeningRemote, TransferReplyModel::Done) => fetch(
            state,
            DownloadPhase::RemovingPartial,
            TransferActionModel::RemoveLocal { path: partial(state) },
        ),
        (DownloadPhase::RemovingPartial, _) => fetch(
            state,
            DownloadPhase::CreatingPartial,
            TransferActionModel::CreateLocal { path: partial(state) },
        ),
        (DownloadPhase::CreatingPartial, TransferReplyModel::Failed(error)) => fetch_fail(
            state,
            "create partial download: "@ + error,
        ),
        (DownloadPhase::CreatingPartial, TransferReplyModel::Done) => fetch(
            state,
            DownloadPhase::Copying,
            TransferActionModel::Copy { limit: copy_limit(state.max_bytes) },
        ),
        (DownloadPhase::Copying, TransferReplyModel::Failed(error)) => discard(
            state,
            "stream remote file: "@ + error,
        ),
        (DownloadPhase::Copying, TransferReplyModel::Count(count)) => on_copied(state, count),
        (DownloadPhase::Flushing, TransferReplyModel::Failed(error)) => discard(
            state,
            "flush downloaded file: "@ + error,
        ),
        (DownloadPhase::Flushing, TransferReplyModel::Done) => fetch(
            state,
            DownloadPhase::Syncing,
            TransferActionModel::SyncLocal,
        ),
        (DownloadPhase::Syncing, TransferReplyModel::Failed(error)) => discard(
            state,
            "sync downloaded file: "@ + error,
        ),
        (DownloadPhase::Syncing, TransferReplyModel::Done) => fetch(
            state,
            DownloadPhase::Renaming,
            TransferActionModel::RenameLocal { from: partial(state), to: state.local_path },
        ),
        (DownloadPhase::Renaming, TransferReplyModel::Failed(error)) => discard(
            state,
            "finalize downloaded file: "@ + error,
        ),
        (DownloadPhase::Renaming, TransferReplyModel::Done) => fetch(
            state,
            DownloadPhase::Finished,
            TransferActionModel::Downloaded { bytes: state.copied },
        ),
        (DownloadPhase::Discarding, _) => fetch_fail(state, state.problem),
        (DownloadPhase::Finished, _) => (state, TransferActionModel::Nothing),
        _ => if has_partial(state.phase) {
            discard(state, unexpected())
        } else {
            fetch_fail(state, unexpected())
        },
    }
}

/// Whether a download in a phase has created its partial file.
pub open spec fn has_partial(phase: DownloadPhase) -> bool {
    match phase {
        DownloadPhase::Copying | DownloadPhase::Flushing | DownloadPhase::Syncing
        | DownloadPhase::Renaming | DownloadPhase::Discarding => true,
        _ => false,
    }
}

/// What is wrong with a request to download.
pub open spec fn download_request_check(workspace: Seq<char>, requested: Seq<char>) -> Result<
    (),
    Seq<char>,
> {
    if trim_text(workspace).len() == 0 {
        Err("remote workspace path is empty"@)
    } else if trim_text(requested).len() == 0 {
        Err("remote file path is empty"@)
    } else {
        Ok(())
    }
}

impl Download {
    /// Begins a download of one regular file from the workspace of a server.
    ///
    /// Workspace and file are both resolved by the server before the file is looked at, so that
    /// neither `..` nor a symbolic link leads out of the workspace.
    pub fn begin(
        workspace_path: String,
        requested_path: String,
        local_path: String,
        max_bytes: u64,
    ) -> (r: Result<(Self, TransferAction), String>)
        ensures
            match download_request_check(workspace_path@, requested_path@) {
                Err(problem) => r is Err && r->Err_0@ == problem,
                Ok(_) => r matches Ok((download, action)) && {
                    &&& action.deep_view() == TransferActionModel::Connect
                    &&& download.phase == DownloadPhase::Connecting
                    &&& download.workspace_path@ == workspace_path@
                    &&& download.requested_path@ == requested_path@
                    &&& download.local_path@ == local_path@
                    &&& download.max_bytes == max_bytes
                    &&& download_in_order(download.deep_view())
                },
            },
    {
        if is_blank(workspace_path.as_str()) {
            return Err("remote workspace path is empty".to_string());
        }
        if is_blank(requested_path.as_str()) {
            return Err("remote file path is empty".to_string());
        }
        let download = Download {
            workspace_path,
            requested_path,
            local_path,
            max_bytes,
            phase: DownloadPhase::Connecting,
            workspace: String::new(),
            file: String::new(),
            copied: 0,
            problem: String::new(),
        };
        Ok((download, TransferAction::Connect))
    }

    fn partial(&self) -> (r: String)
        ensures
            r@ == partial(self.deep_view()),
    {
        glue(self.local_path.as_str(), ".partial")
    }

    fn requested(&self) -> (r: String)
        ensures
            r@ == seen_from(self.workspace_path@, self.requested_path@),
    {
        let directory = chars_of(self.workspace_path.as_str());
        let path = self.requested_path.as_str();
        if starts_with(path, "/") || directory.len() == 0 {
            self.requested_path.clone()
        } else if directory[directory.len() - 1] == '/' {
            glue(self.workspace_path.as_str(), path)
        } else {
            glue3(self.workspace_path.as_str(), "/", path)
        }
    }

    fn fail(&mut self, problem: String) -> (r: TransferAction)
        ensures
            (final(self).deep_view(), r.deep_view()) == fetch_fail(old(self).deep_view(), problem@),
    {
        self.phase = DownloadPhase::Finished;
        TransferAction::Fail { problem }
    }

    fn discard(&mut self, problem: String) -> (r: TransferAction)
        ensures
            (final(self).deep_view(), r.deep_view()) == discard(old(self).deep_view(), problem@),
    {
        let path = self.partial();
        self.phase = DownloadPhase::Discarding;
        self.problem = problem;
        TransferAction::RemoveLocal { path }
    }

    fn take_info(&mut self, info: &FileInfo) -> (r: TransferAction)
        ensures
            (final(self).deep_view(), r.deep_view()) == on_file_info(
                old(self).deep_view(),
                info.deep_view(),
            ),
    {
        if !info.regular {
            return self.fail("remote path is not a regular file".to_string());
        }
        if info.size > self.max_bytes {
            let problem = glue3(
                "remote file is too large (",
                decimal(info.size).as_str(),
                glue3(" bytes; limit is ", decimal(self.max_bytes).as_str(), ")").as_str(),
            );
            return self.fail(problem);
        }
        self.phase = DownloadPhase::OpeningRemote;
        TransferAction::OpenRemote { path: self.file.clone() }
    }

    fn take_copied(&mut self, count: u64) -> (r: TransferAction)
        ensures
            (final(self).deep_view(), r.deep_view()) == on_copied(old(self).deep_view(), count),
    {
        if count > self.max_bytes {
            let problem = glue3(
                "remote file is too large (",
                decimal(count).as_str(),
                glue3(" bytes read; limit is ", decimal(self.max_bytes).as_str(), ")").as_str(),
            );
            return self.discard(problem);
        }
        self.copied = count;
        self.phase = DownloadPhase::Flushing;
        TransferAction::FlushLocal
    }

    /// Takes the next step of the download.
    pub fn step(&mut self, reply: &TransferReply) -> (r: TransferAction)
        ensures
            (final(self).deep_view(), r.deep_view()) == download_step(
                old(self).deep_view(),
                reply.deep_view(),
            ),
    {
        match (self.phase, reply) {
            (DownloadPhase::Connecting, TransferReply::Done) => {
                self.phase = DownloadPhase::ResolvingWorkspace;
                TransferAction::Canonicalize { path: self.workspace_path.clone() }
            },
            (DownloadPhase::Connecting, TransferReply::Failed(error)) => self.fail(error.clone()),
            (DownloadPhase::ResolvingWorkspace, TransferReply::Failed(error)) => self.fail(
                glue("resolve remote workspace: ", error.as_str()),
            ),
            (DownloadPhase::ResolvingWorkspace, TransferReply::Path(path)) => {
                self.workspace = path.clone();
                self.phase = DownloadPhase::ResolvingFile;
                TransferAction::Canonicalize { path: self.requested() }
            },
            (DownloadPhase::ResolvingFile, TransferReply::Failed(error)) => self.fail(
                glue("resolve remote file: ", error.as_str()),
            ),
            (DownloadPhase::ResolvingFile, TransferReply::Path(path)) => {
                if !is_within(path.as_str(), self.workspace.as_str()) {
                    return self.fail(
                        "remote file resolves outside this agent's workspace".to_string(),
                    );
                }
                self.file = path.clone();
                self.phase = DownloadPhase::Inspecting;
                TransferAction::Stat { path: path.clone() }
            },
            (DownloadPhase::Inspecting, TransferReply::Failed(error)) => self.fail(
                glue("inspect remote file: ", error.as_str()),
            ),
            (DownloadPhase::Inspecting, TransferReply::Info(info)) => self.take_info(info),
            (DownloadPhase::OpeningRemote, TransferReply::Failed(error)) => self.fail(
                glue("open remote file: ", error.as_str()),
            ),
            (DownloadPhase::OpeningRemote, TransferReply::Done) => {
                self.phase = DownloadPhase::RemovingPartial;
                TransferAction::RemoveLocal { path: self.partial() }
            },
            (DownloadPhase::RemovingPartial, _) => {
                self.phase = DownloadPhase::CreatingPartial;
                TransferAction::CreateLocal { path: self.partial() }
            },
            (DownloadPhase::CreatingPartial, TransferReply::Failed(error)) => self.fail(
                glue("create partial download: ", error.as_str()),
            ),
            (DownloadPhase::CreatingPartial, TransferReply::Done) => {
                self.phase = DownloadPhase::Copying;
                let limit: u64 = if self.max_bytes == u64::MAX {
                    u64::MAX
                } else {
                    self.max_bytes + 1
                };
                TransferAction::Copy { limit }
            },
            (DownloadPhase::Copying, TransferReply::Failed(error)) => self.discard(
                glue("stream remote file: ", error.as_str()),
            ),
            (DownloadPhase::Copying, TransferReply::Count(count)) => self.take_copied(*count),
            (DownloadPhase::Flushing, TransferReply::Failed(error)) => self.discard(
                glue("flush downloaded file: ", error.as_str()),
            ),
            (DownloadPhase::Flushing, TransferReply::Done) => {
                self.phase = DownloadPhase::Syncing;
                TransferAction::SyncLocal
            },
            (DownloadPhase::Syncing, TransferReply::Failed(error)) => self.discard(
                glue("sync downloaded file: ", error.as_str()),
            ),
            (DownloadPhase::Syncing, TransferReply::Done) => {
                self.phase = DownloadPhase::Renaming;
                TransferAction::RenameLocal { from: self.partial(), to: self.local_path.clone() }
            },
            (DownloadPhase::Renaming, TransferReply::Failed(error)) => self.discard(
                glue("finalize downloaded file: ", error.as_str()),
            ),
            (DownloadPhase::Renaming, TransferReply::Done) => {
                self.phase = DownloadPhase::Finished;
                TransferAction::Downloaded { bytes: self.copied }
            },
            (DownloadPhase::Discarding, _) => {
                let problem = self.problem.clone();
                self.fail(problem)
            },
            (DownloadPhase::Finished, _) => TransferAction::Nothing,
            _ => {
                let created = matches!(
                    self.phase,
                    DownloadPhase::Copying | DownloadPhase::Flushing | DownloadPhase::Syncing
                    | DownloadPhase::Renaming
                );
                if created {
                    self.discard(unexpected_reply())
                } else {
                    self.fail(unexpected_reply())
                }
            },
        }
    }
}

// ---------------------------------------------------------------------------------------------
// Laws

/// What holds of an upload under way: what it counted is what it read, within the limit, and the
/// directory that it reached lies within the workspace.
pub open spec fn upload_in_order(state: UploadModel) -> bool {
    &&& on_the_way(state)
    &&& state.copied == state.sent.len()
    &&& state.copied <= state.max_bytes
    &&& within(state.parent, state.workspace)
}

/// Every step keeps an upload in order.
pub proof fn law_uploads_stay_in_order(state: UploadModel, reply: TransferReplyModel)
    requires
        upload_in_order(state),
    ensures
        upload_in_order(upload_step(state, reply).0),
        upload_step(state, reply).0.max_bytes == state.max_bytes,
{
    if let (UploadPhase::ResolvingWorkspace, TransferReplyModel::Path(path)) = (
        state.phase,
        reply,
    ) {
        law_containment(path, path, path);
    }
}

/// The receipt of an upload names a file directly in a directory within the workspace, and states
/// the size and the digest of exactly what was sent.
pub proof fn law_receipts_are_exact(state: UploadModel, reply: TransferReplyModel)
    requires
        upload_in_order(state),
    ensures
        upload_step(state, reply).1 matches TransferActionModel::Uploaded(receipt) ==> {
            &&& receipt.remote_path == child(state.parent, state.segments.last())
            &&& within(state.parent, state.workspace)
            &&& receipt.size == state.sent.len()
            &&& receipt.sha256 == sha256_bytes(state.sent)
            &&& receipt.size <= state.max_bytes
        },
{
}

/// An upload claims to have created its file only if its own rename put the file there.
pub proof fn law_created_means_renamed(state: UploadModel, reply: TransferReplyModel)
    ensures
        upload_step(state, reply).1 matches TransferActionModel::Uploaded(receipt) ==> (
        receipt.created <==> state.phase == UploadPhase::Renaming && reply
            == TransferReplyModel::Done),
{
}

/// An upload never overwrites: it renames its file into place only right after the server said
/// that nothing is there.
pub proof fn law_uploads_do_not_overwrite(state: UploadModel, reply: TransferReplyModel)
    ensures
        upload_step(state, reply).1 matches TransferActionModel::Rename { from, to } ==> {
            &&& from == temporary(state)
            &&& to == destination(state)
            &&& state.phase == UploadPhase::ProbingConflict
            &&& reply == TransferReplyModel::Found(false)
        },
{
}

/// Once an upload has created its temporary file, it does not fail before it has asked to remove
/// it.
pub proof fn law_failed_uploads_are_cleaned_up(state: UploadModel, reply: TransferReplyModel)
    requires
        has_temporary(state.phase),
    ensures
        upload_step(state, reply).1 is Fail ==> state.phase == UploadPhase::RemovingFailed,
        upload_step(state, reply).0.phase == UploadPhase::RemovingFailed
            ==> upload_step(state, reply).1 == (TransferActionModel::Remove {
            path: temporary(state),
        }),
{
}

/// A rollback removes a file only if it lies below the workspace, and only after the comparison
/// found it to be what the upload created: a regular file of the same size and digest.
pub proof fn law_rollback_removes_only_its_own(state: RollbackModel, reply: TransferReplyModel)
    ensures
        rollback_step(state, reply).1 matches TransferActionModel::Remove { path } ==> {
            &&& path == state.check.path
            &&& state.phase == RollbackPhase::Checking
            &&& state.check.phase == CheckPhase::Reading
            &&& sha256_bytes(state.check.read) == state.check.expected_digest
        },
        rollback_step(state, reply).0.phase == RollbackPhase::Checking && state.phase
            != RollbackPhase::Checking ==> {
            &&& within(rollback_step(state, reply).0.check.path, state.workspace)
            &&& rollback_step(state, reply).0.check.path != state.workspace
            &&& rollback_step(state, reply).0.check.expected_digest == state.receipt.sha256
            &&& rollback_step(state, reply).0.check.expected_size == state.receipt.size
            &&& rollback_step(state, reply).0.check.phase == CheckPhase::Probing
        },
        state.phase == RollbackPhase::Checking && rollback_step(state, reply).0.check.phase
            == CheckPhase::Opening && state.check.phase != CheckPhase::Opening ==> {
            &&& state.check.phase == CheckPhase::Inspecting
            &&& reply matches TransferReplyModel::Info(info) && info.regular && !info.symlink
                && info.size == state.check.expected_size
        },
        state.phase == RollbackPhase::Checking && rollback_step(state, reply).0.check.phase
            == CheckPhase::Reading && state.check.phase != CheckPhase::Reading
            ==> state.check.phase == CheckPhase::Opening,
{
}

/// What holds of a download under way: it has not copied more than allowed.
pub open spec fn download_in_order(state: DownloadModel) -> bool {
    state.copied <= state.max_bytes
}

/// A download gives at most the allowed number of bytes.
pub proof fn law_downloads_are_bounded(state: DownloadModel, reply: TransferReplyModel)
    requires
        download_in_order(state),
    ensures
        download_in_order(download_step(state, reply).0),
        download_step(state, reply).1 matches TransferActionModel::Downloaded { bytes } ==> bytes
            <= state.max_bytes,
{
}

/// A download looks only at a file within the workspace, as the server resolves both.
pub proof fn law_downloads_stay_inside(state: DownloadModel, reply: TransferReplyModel)
    ensures
        download_step(state, reply).1 matches TransferActionModel::Stat { path } ==> within(
            path,
            state.workspace,
        ),
{
}

/// Once a download has created its partial file, it does not fail before it has asked to remove
/// it.
pub proof fn law_failed_downloads_are_cleaned_up(state: DownloadModel, reply: TransferReplyModel)
    requires
        has_partial(state.phase),
    ensures
        download_step(state, reply).1 is Fail ==> state.phase == DownloadPhase::Discarding,
        download_step(state, reply).0.phase == DownloadPhase::Discarding
            ==> download_step(state, reply).1 == (TransferActionModel::RemoveLocal {
            path: partial(state),
        }),
{
}

} // verus!
