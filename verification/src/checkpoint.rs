//! The record of an upload that lets it go on after an interruption or a
//! restart of the program.

use vstd::prelude::*;
use vstd::utf8::encode_utf8;

use crate::path::{join_bytes, joined_bytes};
use crate::storage::{app_data_dir, data_dir_under};
use crate::text::{copy_opt, opt_view};

verus! {

/// How a user proves who they are.
#[derive(Debug, Clone, Copy, PartialEq, Eq, Structural)]
pub enum AuthKind {
    Password,
    PrivateKey,
}

/// What became of the transfer that a checkpoint belongs to.
#[derive(Debug, Clone, Copy, PartialEq, Eq, Structural)]
pub enum CheckpointStatus {
    InProgress,
    Failed,
    Completed,
}

/// The record of an upload.
#[derive(Debug, Clone)]
pub struct UploadCheckpoint {
    pub local_path: String,
    pub remote_path: String,
    pub host: String,
    pub port: u16,
    pub username: String,
    pub auth_kind: AuthKind,
    pub key_path: Option<String>,
    pub file_size: u64,
    pub local_mtime: Option<u64>,
    pub uploaded_bytes: u64,
    /// How much of the file has passed the comparison of SHA-256 digests chunk
    /// by chunk, from its start; the safe place to resume.
    pub verified_bytes: u64,
    pub retry_count: u32,
    pub failure_reason: Option<String>,
    pub status: CheckpointStatus,
}

/// What a checkpoint says, whichever way the file travels. `moved` counts the
/// bytes that have arrived, and `mtime` is the modification time of the source.
pub struct Checkpoint {
    pub local_path: Seq<char>,
    pub remote_path: Seq<char>,
    pub host: Seq<char>,
    pub port: u16,
    pub username: Seq<char>,
    pub auth_kind: AuthKind,
    pub key_path: Option<Seq<char>>,
    pub file_size: u64,
    pub mtime: Option<u64>,
    pub moved: u64,
    pub verified: u64,
    pub retry_count: u32,
    pub failure_reason: Option<Seq<char>>,
    pub status: CheckpointStatus,
}

impl View for UploadCheckpoint {
    type V = Checkpoint;

    open spec fn view(&self) -> Checkpoint {
        Checkpoint {
            local_path: self.local_path@,
            remote_path: self.remote_path@,
            host: self.host@,
            port: self.port,
            username: self.username@,
            auth_kind: self.auth_kind,
            key_path: opt_view(self.key_path),
            file_size: self.file_size,
            mtime: self.local_mtime,
            moved: self.uploaded_bytes,
            verified: self.verified_bytes,
            retry_count: self.retry_count,
            failure_reason: opt_view(self.failure_reason),
            status: self.status,
        }
    }
}

impl Default for UploadCheckpoint {
    fn default() -> (r: Self)
        ensures
            r@ == (Checkpoint {
                local_path: Seq::empty(),
                remote_path: Seq::empty(),
                host: Seq::empty(),
                port: 22,
                username: Seq::empty(),
                auth_kind: AuthKind::Password,
                key_path: None,
                file_size: 0,
                mtime: None,
                moved: 0,
                verified: 0,
                retry_count: 0,
                failure_reason: None,
                status: CheckpointStatus::InProgress,
            }),
    {
        UploadCheckpoint {
            local_path: String::new(),
            remote_path: String::new(),
            host: String::new(),
            port: 22,
            username: String::new(),
            auth_kind: AuthKind::Password,
            key_path: None,
            file_size: 0,
            local_mtime: None,
            uploaded_bytes: 0,
            verified_bytes: 0,
            retry_count: 0,
            failure_reason: None,
            status: CheckpointStatus::InProgress,
        }
    }
}

impl UploadCheckpoint {
    /// A copy of the record.
    pub fn copy(&self) -> (r: Self)
        ensures
            r@ == self@,
    {
        UploadCheckpoint {
            local_path: self.local_path.clone(),
            remote_path: self.remote_path.clone(),
            host: self.host.clone(),
            port: self.port,
            username: self.username.clone(),
            auth_kind: self.auth_kind,
            key_path: copy_opt(&self.key_path),
            file_size: self.file_size,
            local_mtime: self.local_mtime,
            uploaded_bytes: self.uploaded_bytes,
            verified_bytes: self.verified_bytes,
            retry_count: self.retry_count,
            failure_reason: copy_opt(&self.failure_reason),
            status: self.status,
        }
    }
}

/// Where the upload checkpoint is kept. The directory depends on the user's
/// environment.
pub fn checkpoint_path() -> (r: Vec<u8>)
    ensures
        exists|base: Option<Seq<u8>>|
            r@ == joined_bytes(
                #[trigger] data_dir_under(base),
                encode_utf8("upload-checkpoint.json"@),
            ),
{
    join_bytes(app_data_dir(), "upload-checkpoint.json")
}

/// What is said of the checkpoint of an upload is said of its fields, each of
/// them.
pub proof fn upload_checkpoints_show_every_field(cp: UploadCheckpoint)
    ensures
        cp@.local_path == cp.local_path@,
        cp@.remote_path == cp.remote_path@,
        cp@.host == cp.host@,
        cp@.port == cp.port,
        cp@.username == cp.username@,
        cp@.auth_kind == cp.auth_kind,
        cp@.key_path is Some <==> cp.key_path is Some,
        cp.key_path is Some ==> cp@.key_path.unwrap() == cp.key_path.unwrap()@,
        cp@.file_size == cp.file_size,
        cp@.mtime == cp.local_mtime,
        cp@.moved == cp.uploaded_bytes,
        cp@.verified == cp.verified_bytes,
        cp@.retry_count == cp.retry_count,
        cp@.failure_reason is Some <==> cp.failure_reason is Some,
        cp.failure_reason is Some ==> cp@.failure_reason.unwrap() == cp.failure_reason.unwrap()@,
        cp@.status == cp.status,
{
}

} // verus!
