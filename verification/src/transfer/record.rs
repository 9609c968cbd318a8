//! The checkpoint of a running transfer, whichever way the file travels.

use vstd::prelude::*;

use super::model::trusted_bytes;
use crate::checkpoint::{AuthKind, Checkpoint, CheckpointStatus, UploadCheckpoint};
use crate::chunk::align_down;
use crate::download_checkpoint::DownloadCheckpoint;
use crate::text::{copy_opt, opt_view};

verus! {

/// The checkpoint of a running transfer.
#[derive(Debug, Clone)]
pub struct TransferRecord {
    pub local_path: String,
    pub remote_path: String,
    pub host: String,
    pub port: u16,
    pub username: String,
    pub auth_kind: AuthKind,
    pub key_path: Option<String>,
    pub file_size: u64,
    pub mtime: Option<u64>,
    pub moved_bytes: u64,
    pub verified_bytes: u64,
    pub retry_count: u32,
    pub failure_reason: Option<String>,
    pub status: CheckpointStatus,
}

impl View for TransferRecord {
    type V = Checkpoint;

    open spec fn view(&self) -> Checkpoint {
        Checkpoint {
            local_path: self.local_path@,
            remote_path: self.remote_path@,
            host: self.host@,
            port: self.port,
            username: self.username@,
            auth_kind: self.auth_kind,
            key_path: opt_view(self.key_path),
            file_size: self.file_size,
            mtime: self.mtime,
            moved: self.moved_bytes,
            verified: self.verified_bytes,
            retry_count: self.retry_count,
            failure_reason: opt_view(self.failure_reason),
            status: self.status,
        }
    }
}

impl TransferRecord {
    /// The record of an upload.
    pub fn from_upload(cp: UploadCheckpoint) -> (r: Self)
        ensures
            r@ == cp@,
            r.local_path@ == cp.local_path@,
            r.remote_path@ == cp.remote_path@,
            r.host@ == cp.host@,
            r.username@ == cp.username@,
            r.port == cp.port,
            r.auth_kind == cp.auth_kind,
            r.file_size == cp.file_size,
            r.verified_bytes == cp.verified_bytes,
            r.retry_count == cp.retry_count,
            r.status == cp.status,
            r.mtime == cp.local_mtime,
            r.moved_bytes == cp.uploaded_bytes,
    {
        TransferRecord {
            local_path: cp.local_path,
            remote_path: cp.remote_path,
            host: cp.host,
            port: cp.port,
            username: cp.username,
            auth_kind: cp.auth_kind,
            key_path: cp.key_path,
            file_size: cp.file_size,
            mtime: cp.local_mtime,
            moved_bytes: cp.uploaded_bytes,
            verified_bytes: cp.verified_bytes,
            retry_count: cp.retry_count,
            failure_reason: cp.failure_reason,
            status: cp.status,
        }
    }

    /// The record of a download.
    pub fn from_download(cp: DownloadCheckpoint) -> (r: Self)
        ensures
            r@ == cp@,
            r.local_path@ == cp.local_path@,
            r.remote_path@ == cp.remote_path@,
            r.host@ == cp.host@,
            r.username@ == cp.username@,
            r.port == cp.port,
            r.auth_kind == cp.auth_kind,
            r.file_size == cp.file_size,
            r.verified_bytes == cp.verified_bytes,
            r.retry_count == cp.retry_count,
            r.status == cp.status,
            r.mtime == cp.remote_mtime,
            r.moved_bytes == cp.downloaded_bytes,
    {
        TransferRecord {
            local_path: cp.local_path,
            remote_path: cp.remote_path,
            host: cp.host,
            port: cp.port,
            username: cp.username,
            auth_kind: cp.auth_kind,
            key_path: cp.key_path,
            file_size: cp.file_size,
            mtime: cp.remote_mtime,
            moved_bytes: cp.downloaded_bytes,
            verified_bytes: cp.verified_bytes,
            retry_count: cp.retry_count,
            failure_reason: cp.failure_reason,
            status: cp.status,
        }
    }

    /// A copy of the record.
    pub fn copy(&self) -> (r: Self)
        ensures
            r@ == self@,
            r.local_path@ == self.local_path@,
            r.remote_path@ == self.remote_path@,
            r.host@ == self.host@,
            r.username@ == self.username@,
            r.port == self.port,
            r.auth_kind == self.auth_kind,
            r.file_size == self.file_size,
            r.verified_bytes == self.verified_bytes,
            r.retry_count == self.retry_count,
            r.status == self.status,
            r.mtime == self.mtime,
            r.moved_bytes == self.moved_bytes,
    {
        TransferRecord {
            local_path: self.local_path.clone(),
            remote_path: self.remote_path.clone(),
            host: self.host.clone(),
            port: self.port,
            username: self.username.clone(),
            auth_kind: self.auth_kind,
            key_path: copy_opt(&self.key_path),
            file_size: self.file_size,
            mtime: self.mtime,
            moved_bytes: self.moved_bytes,
            verified_bytes: self.verified_bytes,
            retry_count: self.retry_count,
            failure_reason: copy_opt(&self.failure_reason),
            status: self.status,
        }
    }

    /// The record as the checkpoint of an upload.
    pub fn into_upload(self) -> (r: UploadCheckpoint)
        ensures
            r@ == self@,
            r.local_path@ == self.local_path@,
            r.remote_path@ == self.remote_path@,
            r.host@ == self.host@,
            r.username@ == self.username@,
            r.port == self.port,
            r.auth_kind == self.auth_kind,
            r.file_size == self.file_size,
            r.verified_bytes == self.verified_bytes,
            r.retry_count == self.retry_count,
            r.status == self.status,
            r.local_mtime == self.mtime,
            r.uploaded_bytes == self.moved_bytes,
    {
        UploadCheckpoint {
            local_path: self.local_path,
            remote_path: self.remote_path,
            host: self.host,
            port: self.port,
            username: self.username,
            auth_kind: self.auth_kind,
            key_path: self.key_path,
            file_size: self.file_size,
            local_mtime: self.mtime,
            uploaded_bytes: self.moved_bytes,
            verified_bytes: self.verified_bytes,
            retry_count: self.retry_count,
            failure_reason: self.failure_reason,
            status: self.status,
        }
    }

    /// The record as the checkpoint of a download.
    pub fn into_download(self) -> (r: DownloadCheckpoint)
        ensures
            r@ == self@,
            r.local_path@ == self.local_path@,
            r.remote_path@ == self.remote_path@,
            r.host@ == self.host@,
            r.username@ == self.username@,
            r.port == self.port,
            r.auth_kind == self.auth_kind,
            r.file_size == self.file_size,
            r.verified_bytes == self.verified_bytes,
            r.retry_count == self.retry_count,
            r.status == self.status,
            r.remote_mtime == self.mtime,
            r.downloaded_bytes == self.moved_bytes,
    {
        DownloadCheckpoint {
            local_path: self.local_path,
            remote_path: self.remote_path,
            host: self.host,
            port: self.port,
            username: self.username,
            auth_kind: self.auth_kind,
            key_path: self.key_path,
            file_size: self.file_size,
            remote_mtime: self.mtime,
            downloaded_bytes: self.moved_bytes,
            verified_bytes: self.verified_bytes,
            retry_count: self.retry_count,
            failure_reason: self.failure_reason,
            status: self.status,
        }
    }
}

/// How much of the target can be kept when a transfer goes on.
pub fn effective_verified_bytes(cp: &TransferRecord) -> (r: u64)
    ensures
        r == trusted_bytes(cp@),
{
    if cp.verified_bytes > 0 {
        return cp.verified_bytes;
    }
    align_down(cp.moved_bytes)
}

/// What is said of the checkpoint of a running transfer is said of its fields,
/// each of them.
pub proof fn records_show_every_field(record: TransferRecord)
    ensures
        record@.local_path == record.local_path@,
        record@.remote_path == record.remote_path@,
        record@.host == record.host@,
        record@.port == record.port,
        record@.username == record.username@,
        record@.auth_kind == record.auth_kind,
        record@.key_path is Some <==> record.key_path is Some,
        record.key_path is Some ==> record@.key_path.unwrap() == record.key_path.unwrap()@,
        record@.file_size == record.file_size,
        record@.mtime == record.mtime,
        record@.moved == record.moved_bytes,
        record@.verified == record.verified_bytes,
        record@.retry_count == record.retry_count,
        record@.failure_reason is Some <==> record.failure_reason is Some,
        record.failure_reason is Some ==> record@.failure_reason.unwrap()
            == record.failure_reason.unwrap()@,
        record@.status == record.status,
{
}

} // verus!
