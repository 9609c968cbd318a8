//! The record of a download that lets it go on after an interruption or a
//! restart of the program.

use vstd::prelude::*;
use vstd::utf8::encode_utf8;

use crate::checkpoint::{AuthKind, Checkpoint, CheckpointStatus};
use crate::path::{join_bytes, joined_bytes};
use crate::storage::{app_data_dir, data_dir_under};
use crate::text::{copy_opt, opt_view};

verus! {

/// The record of a download.
#[derive(Debug, Clone)]
pub struct DownloadCheckpoint {
    pub local_path: String,
    pub remote_path: String,
    pub host: String,
    pub port: u16,
    pub username: String,
    pub auth_kind: AuthKind,
    pub key_path: Option<String>,
    pub file_size: u64,
    pub remote_mtime: Option<u64>,
    pub downloaded_bytes: u64,
    /// How much of the file has passed the comparison of SHA-256 digests chunk
    /// by chunk, from its start; the safe place to resume.
    pub verified_bytes: u64,
    pub retry_count: u32,
    pub failure_reason: Option<String>,
    pub status: CheckpointStatus,
}

impl View for DownloadCheckpoint {
    type V = Checkpoint;

    open spec fn view(&self) -> Checkpoint {
        Checkpoint {
            local_path: self.local_path@,
            remote_path: self.remote_path@,
            host: self.host@,
            port: self.port,
            username: self.username@,
            auth_kind: self.auth_kind,
            key_path: opt_view(self.key_path),
            file_size: self.file_size,
            mtime: self.remote_mtime,
            moved: self.downloaded_bytes,
            verified: self.verified_bytes,
            retry_count: self.retry_count,
            failure_reason: opt_view(self.failure_reason),
            status: self.status,
        }
    }
}

impl DownloadCheckpoint {
    /// A copy of the record.
    pub fn copy(&self) -> (r: Self)
        ensures
            r@ == self@,
    {
        DownloadCheckpoint {
            local_path: self.local_path.clone(),
            remote_path: self.remote_path.clone(),
            host: self.host.clone(),
            port: self.port,
            username: self.username.clone(),
            auth_kind: self.auth_kind,
            key_path: copy_opt(&self.key_path),
            file_size: self.file_size,
            remote_mtime: self.remote_mtime,
            downloaded_bytes: self.downloaded_bytes,
            verified_bytes: self.verified_bytes,
            retry_count: self.retry_count,
            failure_reason: copy_opt(&self.failure_reason),
            status: self.status,
        }
    }
}

/// Where the download checkpoint is kept. The directory depends on the user's
/// environment.
pub fn checkpoint_path() -> (r: Vec<u8>)
    ensures
        exists|base: Option<Seq<u8>>|
            r@ == joined_bytes(
                #[trigger] data_dir_under(base),
                encode_utf8("download-checkpoint.json"@),
            ),
{
    join_bytes(app_data_dir(), "download-checkpoint.json")
}

/// What is said of the checkpoint of a download is said of its fields, each of
/// them.
pub proof fn download_checkpoints_show_every_field(cp: DownloadCheckpoint)
    ensures
        cp@.local_path == cp.local_path@,
        cp@.remote_path == cp.remote_path@,
        cp@.host == cp.host@,
        cp@.port == cp.port,
        cp@.username == cp.username@,
        cp@.auth_kind == cp.auth_kind,
        cp@.key_path is Some <==> cp.key_path is Some,
        cp.key_path is Some ==> cp@.key_path.unwrap() == cp.key_path.unwrap()@,
        cp@.file_size == cp.file_size,
        cp@.mtime == cp.remote_mtime,
        cp@.moved == cp.downloaded_bytes,
        cp@.verified == cp.verified_bytes,
        cp@.retry_count == cp.retry_count,
        cp@.failure_reason is Some <==> cp.failure_reason is Some,
        cp.failure_reason is Some ==> cp@.failure_reason.unwrap() == cp.failure_reason.unwrap()@,
        cp@.status == cp.status,
{
}

} // verus!
