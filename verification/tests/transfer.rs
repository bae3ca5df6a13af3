use std::collections::{BTreeMap, BTreeSet};

use codex_ios::paths::{is_same_path, is_within};
use codex_ios::transfer::{
    accepts_fingerprint, connection_error, credential_rejected, validate_upload_request,
    ConnectStage, Download, FileInfo, Rollback, SshWorkspaceUploadReceipt, TransferAction,
    TransferReply, Upload,
};

const ABC: [u8; 32] = [
    0xba, 0x78, 0x16, 0xbf, 0x8f, 0x01, 0xcf, 0xea, 0x41, 0x41, 0x40, 0xde, 0x5d, 0xae, 0x22, 0x23,
    0xb0, 0x03, 0x61, 0xa3, 0x96, 0x17, 0x7a, 0x9c, 0xb4, 0x10, 0xff, 0x61, 0xf2, 0x00, 0x15, 0xad,
];

/// A server and a local disk in memory.
#[derive(Default)]
struct World {
    directories: BTreeSet<String>,
    files: BTreeMap<String, Vec<u8>>,
    local: BTreeMap<String, Vec<u8>>,
    /// The parts of the local file that is sent.
    parts: Vec<Vec<u8>>,
    writing: String,
    reading: Vec<u8>,
    rename_fails: bool,
    /// A file that appears while the rename fails.
    appears: Option<(String, Vec<u8>)>,
    log: Vec<TransferAction>,
}

impl World {
    fn new(parts: &[&[u8]]) -> Self {
        let mut world = World::default();
        world.directories.insert("/work".to_string());
        world.parts = parts.iter().map(|part| part.to_vec()).collect();
        world
    }

    fn info(&self, path: &str) -> TransferReply {
        if self.directories.contains(path) {
            TransferReply::Info(FileInfo {
                symlink: false,
                directory: true,
                regular: false,
                size: 0,
            })
        } else if let Some(bytes) = self.files.get(path) {
            TransferReply::Info(FileInfo {
                symlink: false,
                directory: false,
                regular: true,
                size: bytes.len() as u64,
            })
        } else {
            TransferReply::Failed("no such file".to_string())
        }
    }

    fn reply(&mut self, action: &TransferAction) -> TransferReply {
        match action {
            TransferAction::Canonicalize { path } => {
                if self.directories.contains(path) || self.files.contains_key(path) {
                    TransferReply::Path(path.clone())
                } else {
                    TransferReply::Failed("no such file".to_string())
                }
            }
            TransferAction::Stat { path } | TransferAction::Lstat { path } => self.info(path),
            TransferAction::Exists { path } => TransferReply::Found(
                self.directories.contains(path) || self.files.contains_key(path),
            ),
            TransferAction::CreateDir { path } => {
                self.directories.insert(path.clone());
                TransferReply::Done
            }
            TransferAction::CreateRemote { path } => {
                self.files.insert(path.clone(), Vec::new());
                self.writing = path.clone();
                TransferReply::Done
            }
            TransferAction::ReadLocal => TransferReply::Bytes(if self.parts.is_empty() {
                Vec::new()
            } else {
                self.parts.remove(0)
            }),
            TransferAction::WriteRemote { bytes } => {
                self.files.get_mut(&self.writing).expect("open file").extend_from_slice(bytes);
                TransferReply::Done
            }
            TransferAction::OpenRemote { path } => {
                self.reading = self.files[path].clone();
                TransferReply::Done
            }
            TransferAction::ReadRemote => TransferReply::Bytes(std::mem::take(&mut self.reading)),
            TransferAction::Remove { path } => {
                self.files.remove(path);
                TransferReply::Done
            }
            TransferAction::Rename { from, to } => {
                if self.rename_fails {
                    if let Some((path, bytes)) = self.appears.take() {
                        self.files.insert(path, bytes);
                    }
                    return TransferReply::Failed("taken".to_string());
                }
                let bytes = self.files.remove(from).expect("temporary file");
                self.files.insert(to.clone(), bytes);
                TransferReply::Done
            }
            TransferAction::RemoveLocal { path } => {
                self.local.remove(path);
                TransferReply::Done
            }
            TransferAction::CreateLocal { path } => {
                self.local.insert(path.clone(), Vec::new());
                self.writing = path.clone();
                TransferReply::Done
            }
            TransferAction::Copy { limit } => {
                let count = self.reading.len().min(*limit as usize);
                let bytes = self.reading[..count].to_vec();
                self.local.insert(self.writing.clone(), bytes);
                TransferReply::Count(count as u64)
            }
            TransferAction::RenameLocal { from, to } => {
                let bytes = self.local.remove(from).expect("partial file");
                self.local.insert(to.clone(), bytes);
                TransferReply::Done
            }
            _ => TransferReply::Done,
        }
    }

    fn upload(
        &mut self,
        relative: &str,
        max_bytes: u64,
    ) -> Result<SshWorkspaceUploadReceipt, String> {
        let (mut upload, mut action) =
            Upload::begin("/work".to_string(), relative, "a-1".to_string(), max_bytes)?;
        loop {
            self.log.push(action.clone());
            match action {
                TransferAction::Uploaded(receipt) => return Ok(receipt),
                TransferAction::Fail { problem } => return Err(problem),
                _ => {}
            }
            let reply = self.reply(&action);
            action = upload.step(&reply);
        }
    }

    fn roll_back(&mut self, receipt: &SshWorkspaceUploadReceipt) -> Result<(), String> {
        let (mut rollback, mut action) = Rollback::begin("/work".to_string(), receipt.clone())?;
        loop {
            match action {
                TransferAction::RolledBack => return Ok(()),
                TransferAction::Fail { problem } => return Err(problem),
                _ => {}
            }
            let reply = self.reply(&action);
            action = rollback.step(&reply);
        }
    }

    fn download(&mut self, path: &str, max_bytes: u64) -> Result<u64, String> {
        let (mut download, mut action) = Download::begin(
            "/work".to_string(),
            path.to_string(),
            "/local".to_string(),
            max_bytes,
        )?;
        loop {
            match action {
                TransferAction::Downloaded { bytes } => return Ok(bytes),
                TransferAction::Fail { problem } => return Err(problem),
                _ => {}
            }
            let reply = self.reply(&action);
            action = download.step(&reply);
        }
    }
}

#[test]
fn uploads_become_visible_whole() {
    let mut world = World::new(&[b"a", b"bc"]);
    let receipt = world.upload("uploads/new/a.txt", 3).expect("upload");
    assert_eq!(
        receipt,
        SshWorkspaceUploadReceipt {
            remote_path: "/work/uploads/new/a.txt".to_string(),
            size: 3,
            sha256: ABC.to_vec(),
            created: true,
        }
    );
    assert_eq!(world.files.len(), 1);
    assert_eq!(world.files["/work/uploads/new/a.txt"], b"abc");
    assert!(world.directories.contains("/work/uploads/new"));
    assert!(world.log.contains(&TransferAction::CreateRemote {
        path: "/work/uploads/new/.agentapp-upload-a-1".to_string()
    }));

    assert_eq!(world.roll_back(&receipt), Ok(()));
    assert!(world.files.is_empty());
    assert_eq!(world.roll_back(&receipt), Ok(()));
}

#[test]
fn retries_accept_only_the_same_content() {
    let mut world = World::new(&[b"abc"]);
    world.files.insert("/work/a.txt".to_string(), b"abc".to_vec());
    let receipt = world.upload("a.txt", 100).expect("retry");
    assert!(!receipt.created);
    assert_eq!(world.files.len(), 1);
    assert_eq!(world.roll_back(&receipt), Ok(()));
    assert_eq!(world.files.len(), 1);

    for other in [b"abd".to_vec(), b"ab".to_vec()] {
        let mut world = World::new(&[b"abc"]);
        world.files.insert("/work/a.txt".to_string(), other.clone());
        assert_eq!(
            world.upload("a.txt", 100).unwrap_err(),
            "remote destination exists with different content or type"
        );
        assert_eq!(world.files.len(), 1);
        assert_eq!(world.files["/work/a.txt"], other);
    }
}

#[test]
fn a_lost_race_claims_nothing() {
    let mut world = World::new(&[b"abc"]);
    world.rename_fails = true;
    world.appears = Some(("/work/a.txt".to_string(), b"abc".to_vec()));
    let receipt = world.upload("a.txt", 100).expect("same bytes");
    assert!(!receipt.created);
    assert_eq!(world.files.len(), 1);

    let mut world = World::new(&[b"abc"]);
    world.rename_fails = true;
    assert_eq!(world.upload("a.txt", 100).unwrap_err(), "commit remote upload: taken");
    assert!(world.files.is_empty());
}

#[test]
fn uploads_are_bounded_and_leave_nothing_behind() {
    let mut world = World::new(&[b"ab", b"cd"]);
    assert_eq!(world.upload("a.txt", 3).unwrap_err(), "local upload exceeds 3 bytes");
    assert!(world.files.is_empty());

    let mut world = World::new(&[b"ab"]);
    world.files.insert("/work/.agentapp-upload-a-1".to_string(), vec![]);
    assert_eq!(world.upload("a.txt", 3).unwrap_err(), "remote upload attempt already exists");

    let mut world = World::new(&[b"ab"]);
    world.files.insert("/work/dir".to_string(), vec![]);
    assert_eq!(
        world.upload("dir/a.txt", 3).unwrap_err(),
        "remote upload parent is not a non-symlink directory"
    );
}

#[test]
fn uploads_stay_within_the_workspace() {
    let (mut upload, _) =
        Upload::begin("/work".to_string(), "dir/a.txt", "a".to_string(), 10).expect("begin");
    let directory = || {
        TransferReply::Info(FileInfo { symlink: false, directory: true, regular: false, size: 0 })
    };
    upload.step(&TransferReply::Done);
    upload.step(&TransferReply::Done);
    upload.step(&TransferReply::Path("/work".to_string()));
    assert_eq!(
        upload.step(&directory()),
        TransferAction::Exists { path: "/work/dir".to_string() }
    );
    upload.step(&TransferReply::Found(true));
    upload.step(&directory());
    assert_eq!(
        upload.step(&TransferReply::Path("/work2/dir".to_string())),
        TransferAction::Fail {
            problem: "remote upload parent escapes the configured workspace".to_string()
        }
    );
    assert_eq!(upload.step(&TransferReply::Done), TransferAction::Nothing);
}

#[test]
fn rollbacks_keep_what_changed() {
    let receipt = SshWorkspaceUploadReceipt {
        remote_path: "/work/a.txt".to_string(),
        size: 3,
        sha256: ABC.to_vec(),
        created: true,
    };
    let mut world = World::new(&[]);
    world.files.insert("/work/a.txt".to_string(), b"new".to_vec());
    assert_eq!(
        world.roll_back(&receipt).unwrap_err(),
        "rollback destination changed after upload"
    );
    assert_eq!(world.files.len(), 1);

    let mut outside = receipt;
    outside.remote_path = "/etc/a.txt".to_string();
    world.files.insert("/etc/a.txt".to_string(), b"abc".to_vec());
    assert_eq!(
        world.roll_back(&outside).unwrap_err(),
        "rollback destination escapes the configured workspace"
    );
    assert_eq!(world.files.len(), 2);
}

#[test]
fn downloads_are_bounded_and_finish_whole() {
    let mut world = World::new(&[]);
    world.files.insert("/work/a.txt".to_string(), b"abc".to_vec());
    assert_eq!(world.download("a.txt", 3), Ok(3));
    assert_eq!(world.local["/local"], b"abc");
    assert_eq!(world.local.len(), 1);
    assert_eq!(
        world.download("/work/a.txt", 2).unwrap_err(),
        "remote file is too large (3 bytes; limit is 2)"
    );
    assert_eq!(world.download("/work", 2).unwrap_err(), "remote path is not a regular file");
    world.files.insert("/etc/b".to_string(), vec![]);
    assert_eq!(
        world.download("/etc/b", 2).unwrap_err(),
        "remote file resolves outside this agent's workspace"
    );
    assert_eq!(
        world.download("gone", 2).unwrap_err(),
        "resolve remote file: no such file"
    );
    assert_eq!(world.download(" ", 2).unwrap_err(), "remote file path is empty");
    assert_eq!(
        Download::begin(" ".to_string(), "a".to_string(), "/l".to_string(), 1)
            .map(|_| ())
            .unwrap_err(),
        "remote workspace path is empty"
    );
}

#[test]
fn downloads_that_grow_are_discarded() {
    let (mut download, action) =
        Download::begin("/work".to_string(), "a".to_string(), "/l".to_string(), 2).expect("begin");
    assert_eq!(action, TransferAction::Connect);
    download.step(&TransferReply::Done);
    assert_eq!(
        download.step(&TransferReply::Path("/work".to_string())),
        TransferAction::Canonicalize { path: "/work/a".to_string() }
    );
    download.step(&TransferReply::Path("/work/a".to_string()));
    download.step(&TransferReply::Info(FileInfo {
        symlink: false,
        directory: false,
        regular: true,
        size: 0,
    }));
    download.step(&TransferReply::Done);
    download.step(&TransferReply::Failed("not there".to_string()));
    assert_eq!(download.step(&TransferReply::Done), TransferAction::Copy { limit: 3 });
    assert_eq!(
        download.step(&TransferReply::Count(3)),
        TransferAction::RemoveLocal { path: "/l.partial".to_string() }
    );
    assert_eq!(
        download.step(&TransferReply::Done),
        TransferAction::Fail {
            problem: "remote file is too large (3 bytes read; limit is 2)".to_string()
        }
    );
}

#[test]
fn upload_requests_are_checked_first() {
    assert_eq!(validate_upload_request("/work", "a/b", "A-1_z"), Ok(()));
    for workspace in ["", " ", "work"] {
        assert_eq!(
            validate_upload_request(workspace, "a", "a").unwrap_err(),
            "remote workspace must be a nonempty absolute path"
        );
    }
    for relative in ["", "/a", "a\\b", "a//b", "./a", "a/..", "a/"] {
        assert_eq!(
            validate_upload_request("/work", relative, "a").unwrap_err(),
            "remote upload path must be a normalized relative path"
        );
    }
    for attempt in ["", "a b", "a/b", "é"] {
        assert_eq!(
            validate_upload_request("/work", "a", attempt).unwrap_err(),
            "remote upload attempt id is invalid"
        );
    }
}

#[test]
fn containment_goes_by_components() {
    assert!(is_within("/work/a", "/work"));
    assert!(is_within("/work", "/work"));
    assert!(is_within("/work//a/./b", "/work/a"));
    assert!(is_within("/a", "/"));
    assert!(is_within("/a", ""));
    assert!(is_within("a", ""));
    assert!(!is_within("a", "."));
    assert!(!is_within("/work2/a", "/work"));
    assert!(!is_within("work/a", "/work"));
    assert!(!is_within("/work", "/work/a"));
}

#[test]
fn paths_are_the_same_by_components() {
    assert!(is_same_path("/a/b", "/a//b/"));
    assert!(is_same_path("/a/./b", "/a/b"));
    assert!(is_same_path("./a", "./a/"));
    assert!(!is_same_path("./a", "a"));
    assert!(!is_same_path("/a", "a"));
    assert!(!is_same_path("/a/../b", "/b"));
}

#[test]
fn servers_that_name_no_workspace_contain_every_file() {
    let (mut download, _) =
        Download::begin("/work".to_string(), "a".to_string(), "/l".to_string(), 2).expect("begin");
    download.step(&TransferReply::Done);
    download.step(&TransferReply::Path(String::new()));
    assert_eq!(
        download.step(&TransferReply::Path("/etc/a".to_string())),
        TransferAction::Stat { path: "/etc/a".to_string() }
    );
}

#[test]
fn servers_are_pinned_by_fingerprint() {
    assert!(accepts_fingerprint(&None, "abc"));
    assert!(accepts_fingerprint(&Some("SHA256:abc".to_string()), "abc"));
    assert!(accepts_fingerprint(&Some("abc".to_string()), "abc"));
    assert!(!accepts_fingerprint(&Some("SHA256:abd".to_string()), "abc"));
    assert_eq!(connection_error(ConnectStage::Connect, false, "x"), "connect: x");
    assert_eq!(connection_error(ConnectStage::Connect, true, "x"), "connect rollback: x");
    assert_eq!(connection_error(ConnectStage::LoadKey, true, "x"), "load rollback key: x");
    assert_eq!(connection_error(ConnectStage::Authenticate, false, "x"), "auth: x");
    assert_eq!(connection_error(ConnectStage::Handshake, true, "x"), "rollback sftp handshake: x");
    assert_eq!(credential_rejected(false), "authentication failed (credential rejected)");
    assert_eq!(credential_rejected(true), "rollback authentication failed");
}
