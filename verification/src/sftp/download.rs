//! Downloading: where a file goes on this machine, and what its errors mean.

use vstd::prelude::*;

use super::client::ConnectError;
use super::fault::{fault_text, Direction, Fault, TransferError};
use super::upload::{
    hopeless, is_hopeless, permanent_for_upload, strip_sftp_wrapper, unwrapped,
};
use crate::path::{file_name, joined_name_is_last, last_name, last_names_are_plain, plain_name};
use crate::text::{
    ascii_lower, contains, ends_in, ends_with_char, mentions, to_ascii_lowercase, trim,
    trim_end_of, trimmed, without_trailing,
};

verus! {

/// Why a download stopped.
#[derive(Debug)]
pub enum DownloadError {
    Cancelled,
    InvalidRemotePath(String),
    InvalidLocalPath(String),
    RemoteNotAFile(String),
    LocalLargerThanRemote { local: u64, remote: u64 },
    ResumeBoundaryMismatch { offset: u64 },
    SizeMismatch { remote: u64, local: u64 },
    HashMismatch,
    ChunkVerifyMismatch { offset: u64, len: u64 },
    LocalIo(String),
    Connect(ConnectError),
    Sftp(String),
}

impl View for DownloadError {
    type V = Fault;

    open spec fn view(&self) -> Fault {
        match *self {
            DownloadError::Cancelled => Fault::Cancelled,
            DownloadError::InvalidRemotePath(m) => Fault::InvalidRemotePath(m@),
            DownloadError::InvalidLocalPath(m) => Fault::InvalidLocalPath(m@),
            DownloadError::RemoteNotAFile(m) => Fault::RemoteNotAFile(m@),
            DownloadError::LocalLargerThanRemote { local, remote } => Fault::TargetLarger {
                target: local,
                source: remote,
            },
            DownloadError::ResumeBoundaryMismatch { offset } => Fault::ResumeBoundaryMismatch {
                offset,
            },
            DownloadError::SizeMismatch { remote, local } => Fault::SizeMismatch {
                source: remote,
                target: local,
            },
            DownloadError::HashMismatch => Fault::HashMismatch,
            DownloadError::ChunkVerifyMismatch { offset, len } => Fault::ChunkVerifyMismatch {
                offset,
                len,
            },
            DownloadError::LocalIo(m) => Fault::LocalIo(m@),
            DownloadError::Connect(e) => Fault::Connect(e@),
            DownloadError::Sftp(m) => Fault::Sftp(m@),
        }
    }
}

impl DownloadError {
    /// The error of a download that stopped.
    pub fn from_transfer(e: TransferError) -> (r: Self)
        ensures
            r@ == e@,
    {
        match e {
            TransferError::Cancelled => DownloadError::Cancelled,
            TransferError::InvalidRemotePath(m) => DownloadError::InvalidRemotePath(m),
            TransferError::InvalidLocalPath(m) => DownloadError::InvalidLocalPath(m),
            TransferError::RemoteNotAFile(m) => DownloadError::RemoteNotAFile(m),
            TransferError::TargetLarger {
                target,
                source,
            } => DownloadError::LocalLargerThanRemote { local: target, remote: source },
            TransferError::ResumeBoundaryMismatch {
                offset,
            } => DownloadError::ResumeBoundaryMismatch { offset },
            TransferError::SizeMismatch { source, target } => DownloadError::SizeMismatch {
                remote: source,
                local: target,
            },
            TransferError::HashMismatch => DownloadError::HashMismatch,
            TransferError::ChunkVerifyMismatch {
                offset,
                len,
            } => DownloadError::ChunkVerifyMismatch { offset, len },
            TransferError::LocalIo(m) => DownloadError::LocalIo(m),
            TransferError::Connect(e) => DownloadError::Connect(e),
            TransferError::Sftp(m) => DownloadError::Sftp(m),
        }
    }

    /// The error as that of a transfer.
    pub fn to_transfer(&self) -> (r: TransferError)
        ensures
            r@ == self@,
    {
        match self {
            DownloadError::Cancelled => TransferError::Cancelled,
            DownloadError::InvalidRemotePath(m) => TransferError::InvalidRemotePath(m.clone()),
            DownloadError::InvalidLocalPath(m) => TransferError::InvalidLocalPath(m.clone()),
            DownloadError::RemoteNotAFile(m) => TransferError::RemoteNotAFile(m.clone()),
            DownloadError::LocalLargerThanRemote {
                local,
                remote,
            } => TransferError::TargetLarger { target: *local, source: *remote },
            DownloadError::ResumeBoundaryMismatch {
                offset,
            } => TransferError::ResumeBoundaryMismatch { offset: *offset },
            DownloadError::SizeMismatch { remote, local } => TransferError::SizeMismatch {
                source: *remote,
                target: *local,
            },
            DownloadError::HashMismatch => TransferError::HashMismatch,
            DownloadError::ChunkVerifyMismatch {
                offset,
                len,
            } => TransferError::ChunkVerifyMismatch { offset: *offset, len: *len },
            DownloadError::LocalIo(m) => TransferError::LocalIo(m.clone()),
            DownloadError::Connect(e) => TransferError::Connect(e.copy()),
            DownloadError::Sftp(m) => TransferError::Sftp(m.clone()),
        }
    }

    /// The text shown to the user.
    pub fn message(&self) -> (r: String)
        ensures
            r@ == fault_text(Direction::Download, self@),
    {
        let e = self.to_transfer();
        e.message(Direction::Download)
    }
}

/// The outcome of a path computation, by its text.
pub open spec fn download_path_view(r: Result<String, DownloadError>) -> Result<Seq<char>, Fault> {
    match r {
        Ok(path) => Ok(path@),
        Err(e) => Err(e@),
    }
}

/// The local path that a user's entry stands for: an entry that ends in a
/// slash or backslash is a directory and gets the name of the remote file.
pub open spec fn resolved_local(local: Seq<char>, name: Seq<char>) -> Result<Seq<char>, Fault> {
    let entry = trimmed(local);
    if entry.len() == 0 {
        Err(Fault::InvalidLocalPath("本地路径不能为空"@))
    } else if ends_in(entry, '/') || ends_in(entry, '\\') {
        Ok(without_trailing(entry, '/', '\\') + "/"@ + name)
    } else {
        Ok(entry)
    }
}

/// Completes a local directory by the name of the remote file.
pub fn resolve_local_path(local_path: &str, remote_file_name: &str) -> (r: Result<
    String,
    DownloadError,
>)
    ensures
        download_path_view(r) == resolved_local(local_path@, remote_file_name@),
{
    let entry = trim(local_path);
    if entry.is_empty() {
        return Err(DownloadError::InvalidLocalPath("本地路径不能为空".to_owned()));
    }
    if ends_with_char(entry, '/') || ends_with_char(entry, '\\') {
        let base = trim_end_of(entry, '/', '\\');
        Ok(base.to_owned().concat("/").concat(remote_file_name))
    } else {
        Ok(entry.to_owned())
    }
}

/// The name of the file that a remote path points to.
pub open spec fn name_of_remote(remote: Seq<char>) -> Result<Seq<char>, Fault> {
    match last_name(without_trailing(trimmed(remote), '/', '/')) {
        Some(name) => if name.len() > 0 {
            Ok(name)
        } else {
            Err(Fault::InvalidRemotePath("无法读取远端文件名"@))
        },
        None => Err(Fault::InvalidRemotePath("无法读取远端文件名"@)),
    }
}

/// The name of the file that a remote path points to.
pub fn remote_file_name(remote_path: &str) -> (r: Result<String, DownloadError>)
    ensures
        download_path_view(r) == name_of_remote(remote_path@),
{
    match file_name(trim_end_of(trim(remote_path), '/', '/')) {
        Some(name) => if !name.is_empty() {
            Ok(name.to_owned())
        } else {
            Err(DownloadError::InvalidRemotePath("无法读取远端文件名".to_owned()))
        },
        None => Err(DownloadError::InvalidRemotePath("无法读取远端文件名".to_owned())),
    }
}

/// A download error that no repetition will cure.
pub open spec fn permanent_for_download(message: Seq<char>) -> bool {
    let lower = ascii_lower(unwrapped(message));
    hopeless(lower) || mentions(lower, "远端不是文件"@)
}

/// Whether a download error is permanent, however much has been downloaded.
pub fn is_permanent_sftp_error(message: &str, _downloaded_bytes: u64) -> (r: bool)
    ensures
        r == permanent_for_download(message@),
{
    let raw = strip_sftp_wrapper(message);
    let lower = to_ascii_lowercase(raw.as_str());
    is_hopeless(lower.as_str()) || contains(lower.as_str(), "远端不是文件")
}

/// Whether the local file is made anew for a chunk at `offset`: only for the
/// first one, and only where no file is in the way.
pub fn creates_local_file(offset: u64, local_exists: bool) -> (r: bool)
    ensures
        r == (offset == 0 && !local_exists),
{
    offset == 0 && !local_exists
}

/// A local directory is completed by the name of the remote file and nothing
/// else.
pub proof fn directories_get_the_remote_name(local: Seq<char>, name: Seq<char>)
    requires
        plain_name(name),
        ends_in(trimmed(local), '/') || ends_in(trimmed(local), '\\'),
    ensures
        resolved_local(local, name) is Ok,
        last_name(resolved_local(local, name)->Ok_0) == Some(name),
{
    reveal_strlit("/");
    joined_name_is_last(without_trailing(trimmed(local), '/', '\\') + "/"@, name);
}

/// The name of a remote file is a plain name.
pub proof fn remote_names_are_plain(remote: Seq<char>)
    requires
        name_of_remote(remote) is Ok,
    ensures
        plain_name(name_of_remote(remote)->Ok_0),
{
    last_names_are_plain(without_trailing(trimmed(remote), '/', '/'));
}

/// The local path that an entry stands for is the entry without white space
/// around it; where it ends in a slash or a backslash, these give way to one
/// slash and the name of the remote file. A blank entry stands for none.
pub proof fn entries_stand_for_local_paths(local: Seq<char>, name: Seq<char>)
    ensures
        ({
            let entry = trimmed(local);
            let path = resolved_local(local, name);
            &&& path is Ok <==> entry.len() > 0
            &&& path is Ok && entry.last() != '/' && entry.last() != '\\' ==> path->Ok_0 == entry
            &&& path is Ok && (entry.last() == '/' || entry.last() == '\\') ==> path->Ok_0
                == without_trailing(entry, '/', '\\') + seq!['/'] + name
            &&& path is Err ==> path->Err_0 is InvalidLocalPath
        }),
{
    reveal_strlit("/");
    assert("/"@ =~= seq!['/']);
}

/// The name of a remote file is the last name in its path; white space around the
/// path and slashes at its end do not count. A path without a name is refused.
pub proof fn remote_names_are_last(remote: Seq<char>)
    ensures
        ({
            let last = last_name(without_trailing(trimmed(remote), '/', '/'));
            &&& name_of_remote(remote) is Ok <==> last is Some
            &&& name_of_remote(remote) is Ok ==> Some(name_of_remote(remote)->Ok_0) == last
            &&& name_of_remote(remote) is Err ==> name_of_remote(remote)->Err_0 is InvalidRemotePath
        }),
{
    let path = without_trailing(trimmed(remote), '/', '/');
    if last_name(path) is Some {
        last_names_are_plain(path);
    }
}

/// What ends an upload ends a download; and so does, of a download alone, that
/// the remote path is no file.
pub proof fn lasting_faults_end_downloads_too(message: Seq<char>)
    ensures
        permanent_for_upload(message) ==> permanent_for_download(message),
        permanent_for_download(message) && !permanent_for_upload(message) ==> mentions(
            ascii_lower(unwrapped(message)),
            "远端不是文件"@,
        ),
        mentions(ascii_lower(unwrapped(message)), "远端不是文件"@) ==> permanent_for_download(
            message,
        ),
{
}

/// The local file is made anew exactly for the first chunk where no file is in the
/// way.
pub proof fn only_the_first_chunk_makes_the_local_file(
    offset: u64,
    local_exists: bool,
    made: bool,
)
    requires
        call_ensures(creates_local_file, (offset, local_exists), made),
    ensures
        made ==> offset == 0 && !local_exists,
        offset == 0 && !local_exists ==> made,
{
}

} // verus!
