//! Uploading: where a file goes on the server, and what its errors mean.

use vstd::pervasive::unreached;
use vstd::prelude::*;

use super::client::ConnectError;
use super::fault::{fault_text, Direction, Fault, TransferError};
use crate::path::{
    file_name, joined_name_is_last, last_name, last_names_are_plain, parent, upper_path,
};
use crate::text::{
    ascii_lower, bare_text_is_kept, beginnings_are_followed_by_the_rest, begins, chars_of,
    contains, ends_in, ends_with_char, find_char, mentions, mentions_stand_inside, opt_view,
    position, positions_are_first, same, starts_with, string_of, texts, to_ascii_lowercase, trim,
    trim_start, trimmed, trimmed_start, trimmed_text_is_bare, trimming_is_stable,
};
use crate::transfer::model::FileStat;

verus! {

/// The mode of a remote directory that is made.
pub const REMOTE_DIR_MODE: i32 = 0o755;

/// The mode of a remote file that is made.
pub const REMOTE_FILE_MODE: i32 = 0o644;

/// Why an upload stopped.
#[derive(Debug)]
pub enum UploadError {
    Cancelled,
    InvalidRemotePath(String),
    RemoteLargerThanLocal { remote: u64, local: u64 },
    ResumeBoundaryMismatch { offset: u64 },
    SizeMismatch { local: u64, remote: u64 },
    HashMismatch,
    ChunkVerifyMismatch { offset: u64, len: u64 },
    LocalIo(String),
    Connect(ConnectError),
    Sftp(String),
}

impl View for UploadError {
    type V = Fault;

    open spec fn view(&self) -> Fault {
        match *self {
            UploadError::Cancelled => Fault::Cancelled,
            UploadError::InvalidRemotePath(m) => Fault::InvalidRemotePath(m@),
            UploadError::RemoteLargerThanLocal { remote, local } => Fault::TargetLarger {
                target: remote,
                source: local,
            },
            UploadError::ResumeBoundaryMismatch { offset } => Fault::ResumeBoundaryMismatch {
                offset,
            },
            UploadError::SizeMismatch { local, remote } => Fault::SizeMismatch {
                source: local,
                target: remote,
            },
            UploadError::HashMismatch => Fault::HashMismatch,
            UploadError::ChunkVerifyMismatch { offset, len } => Fault::ChunkVerifyMismatch {
                offset,
                len,
            },
            UploadError::LocalIo(m) => Fault::LocalIo(m@),
            UploadError::Connect(e) => Fault::Connect(e@),
            UploadError::Sftp(m) => Fault::Sftp(m@),
        }
    }
}

/// A fault that an upload can meet.
pub open spec fn upload_fault(fault: Fault) -> bool {
    !(fault is InvalidLocalPath) && !(fault is RemoteNotAFile)
}

impl UploadError {
    /// The error of an upload that stopped.
    pub fn from_transfer(e: TransferError) -> (r: Self)
        requires
            upload_fault(e@),
        ensures
            r@ == e@,
    {
        match e {
            TransferError::Cancelled => UploadError::Cancelled,
            TransferError::InvalidRemotePath(m) => UploadError::InvalidRemotePath(m),
            TransferError::InvalidLocalPath(_) | TransferError::RemoteNotAFile(_) => unreached(),
            TransferError::TargetLarger { target, source } => UploadError::RemoteLargerThanLocal {
                remote: target,
                local: source,
            },
            TransferError::ResumeBoundaryMismatch {
                offset,
            } => UploadError::ResumeBoundaryMismatch { offset },
            TransferError::SizeMismatch { source, target } => UploadError::SizeMismatch {
                local: source,
                remote: target,
            },
            TransferError::HashMismatch => UploadError::HashMismatch,
            TransferError::ChunkVerifyMismatch {
                offset,
                len,
            } => UploadError::ChunkVerifyMismatch { offset, len },
            TransferError::LocalIo(m) => UploadError::LocalIo(m),
            TransferError::Connect(e) => UploadError::Connect(e),
            TransferError::Sftp(m) => UploadError::Sftp(m),
        }
    }

    /// The error as that of a transfer.
    pub fn to_transfer(&self) -> (r: TransferError)
        ensures
            r@ == self@,
            upload_fault(r@),
    {
        match self {
            UploadError::Cancelled => TransferError::Cancelled,
            UploadError::InvalidRemotePath(m) => TransferError::InvalidRemotePath(m.clone()),
            UploadError::RemoteLargerThanLocal { remote, local } => TransferError::TargetLarger {
                target: *remote,
                source: *local,
            },
            UploadError::ResumeBoundaryMismatch {
                offset,
            } => TransferError::ResumeBoundaryMismatch { offset: *offset },
            UploadError::SizeMismatch { local, remote } => TransferError::SizeMismatch {
                source: *local,
                target: *remote,
            },
            UploadError::HashMismatch => TransferError::HashMismatch,
            UploadError::ChunkVerifyMismatch {
                offset,
                len,
            } => TransferError::ChunkVerifyMismatch { offset: *offset, len: *len },
            UploadError::LocalIo(m) => TransferError::LocalIo(m.clone()),
            UploadError::Connect(e) => TransferError::Connect(e.copy()),
            UploadError::Sftp(m) => TransferError::Sftp(m.clone()),
        }
    }

    /// The text shown to the user.
    pub fn message(&self) -> (r: String)
        ensures
            r@ == fault_text(Direction::Upload, self@),
    {
        let e = self.to_transfer();
        e.message(Direction::Upload)
    }
}

/// The path of a file called `name` in the directory `base`.
pub open spec fn remote_joined(base: Seq<char>, name: Seq<char>) -> Seq<char> {
    if ends_in(base, '/') {
        base + name
    } else {
        base + "/"@ + name
    }
}

/// The path of a file called `file_name` in the directory `base`.
pub fn join_remote_path(base: &str, file_name: &str) -> (r: String)
    ensures
        r@ == remote_joined(base@, file_name@),
{
    if ends_with_char(base, '/') {
        base.to_owned().concat(file_name)
    } else {
        base.to_owned().concat("/").concat(file_name)
    }
}

/// A directory path that ends in a slash, completed by the name of a file.
pub open spec fn with_file_name(dir: Seq<char>, local: Seq<char>) -> Result<Seq<char>, Fault> {
    match last_name(local) {
        Some(name) => Ok(dir + name),
        None => Err(Fault::InvalidRemotePath("无法读取本地文件名"@)),
    }
}

/// The remote path that a user's entry stands for: an entry that ends in a
/// slash is a directory and gets the name of the local file.
pub open spec fn resolved_remote(remote: Seq<char>, local: Seq<char>) -> Result<Seq<char>, Fault> {
    let entry = trimmed(remote);
    if entry.len() == 0 {
        Err(Fault::InvalidRemotePath("远端路径不能为空"@))
    } else if ends_in(entry, '/') {
        with_file_name(entry, local)
    } else {
        Ok(entry)
    }
}

/// The outcome of a path computation, by its text.
pub open spec fn upload_path_view(r: Result<String, UploadError>) -> Result<Seq<char>, Fault> {
    match r {
        Ok(path) => Ok(path@),
        Err(e) => Err(e@),
    }
}

fn append_local_filename(dir_path: &str, local_path: &str) -> (r: Result<String, UploadError>)
    ensures
        upload_path_view(r) == with_file_name(dir_path@, local_path@),
{
    match file_name(local_path) {
        Some(name) => Ok(dir_path.to_owned().concat(name)),
        None => Err(UploadError::InvalidRemotePath("无法读取本地文件名".to_owned())),
    }
}

/// Completes a remote directory by the name of the local file.
pub fn resolve_remote_path(remote_path: &str, local_path: &str) -> (r: Result<String, UploadError>)
    ensures
        upload_path_view(r) == resolved_remote(remote_path@, local_path@),
{
    let entry = trim(remote_path);
    if entry.is_empty() {
        return Err(UploadError::InvalidRemotePath("远端路径不能为空".to_owned()));
    }
    if ends_with_char(entry, '/') {
        return append_local_filename(entry, local_path);
    }
    Ok(entry.to_owned())
}

/// The directory of a remote file, unless it is the root or not named.
pub open spec fn parent_of_file(remote: Seq<char>) -> Option<Seq<char>> {
    match upper_path(trimmed(remote)) {
        Some(dir) => if dir.len() > 0 && dir != "/"@ {
            Some(dir)
        } else {
            None
        },
        None => None,
    }
}

/// The directory of a remote file, unless it is the root or not named.
pub fn remote_parent_path(remote_file: &str) -> (r: Option<String>)
    ensures
        opt_view(r) == parent_of_file(remote_file@),
{
    match parent(trim(remote_file)) {
        Some(dir) => if !dir.is_empty() && !same(dir, "/") {
            Some(dir.to_owned())
        } else {
            None
        },
        None => None,
    }
}

/// The directories that lead from `path` down through `parts`, outermost first.
pub open spec fn directories(path: Seq<char>, parts: Seq<Seq<char>>) -> Seq<Seq<char>>
    decreases parts.len(),
{
    if parts.len() == 0 {
        Seq::empty()
    } else {
        let dir = path + "/"@ + parts[0];
        seq![dir] + directories(dir, parts.drop_first())
    }
}

/// The non-empty pieces between the slashes of a path.
pub open spec fn path_parts(path: Seq<char>) -> Seq<Seq<char>>
    decreases path.len(),
{
    if path.len() == 0 {
        Seq::empty()
    } else {
        let n = position(path, '/');
        let head = path.take(n);
        let tail = if 0 <= n < path.len() {
            path.skip(n + 1)
        } else {
            Seq::empty()
        };
        if head.len() > 0 {
            seq![head] + path_parts(tail)
        } else {
            path_parts(tail)
        }
    }
}

/// The directories that lead down through `parts`: from the root, or from the
/// directory that the server starts in.
pub open spec fn directories_from(rooted: bool, parts: Seq<Seq<char>>) -> Seq<Seq<char>> {
    if rooted || parts.len() == 0 {
        directories(Seq::empty(), parts)
    } else {
        seq![parts[0]] + directories(parts[0], parts.drop_first())
    }
}

/// The directories that must exist before a remote file is written, outermost
/// first. Those of a relative path are relative.
pub open spec fn parent_directories(remote: Seq<char>) -> Seq<Seq<char>> {
    match parent_of_file(remote) {
        Some(dir) => directories_from(begins(dir, "/"@), path_parts(dir)),
        None => Seq::empty(),
    }
}

/// Splits a path into its non-empty pieces.
fn split_path(path: &str) -> (r: Vec<String>)
    ensures
        texts(r@) == path_parts(path@),
{
    let v = chars_of(path);
    let mut out: Vec<String> = Vec::new();
    let mut i: usize = 0;
    proof {
        assert(v@.skip(0) =~= v@);
        assert(texts(out@) =~= Seq::<Seq<char>>::empty());
        assert(texts(out@) + path_parts(v@.skip(0)) =~= path_parts(v@));
    }
    while i < v.len()
        invariant
            i <= v@.len(),
            texts(out@) + path_parts(v@.skip(i as int)) == path_parts(v@),
        decreases v@.len() - i,
    {
        let mut j: usize = i;
        let ghost rest = v@.skip(i as int);
        proof {
            assert(rest.skip(0) =~= rest);
        }
        while j < v.len() && v[j] != '/'
            invariant
                i <= j <= v@.len(),
                rest == v@.skip(i as int),
                position(rest, '/') == (j - i) + position(rest.skip(j - i), '/'),
            decreases v@.len() - j,
        {
            proof {
                assert(rest.skip(j - i).drop_first() =~= rest.skip(j - i + 1));
            }
            j = j + 1;
        }
        let next: usize = if j < v.len() {
            j + 1
        } else {
            j
        };
        let ghost head = rest.take(j - i);
        let ghost tail = if j < v@.len() {
            rest.skip(j - i + 1)
        } else {
            Seq::empty()
        };
        proof {
            assert(position(rest, '/') == j - i);
            assert(tail =~= v@.skip(next as int));
        }
        if j > i {
            let piece = string_of(&v, i, j);
            let ghost before = out@;
            out.push(piece);
            proof {
                assert(piece@ =~= head);
                assert(path_parts(rest) == seq![head] + path_parts(tail));
                assert(texts(out@) =~= texts(before) + seq![head]);
                assert(texts(out@) + path_parts(tail) =~= texts(before) + (seq![head]
                    + path_parts(tail)));
            }
        } else {
            proof {
                assert(path_parts(rest) == path_parts(tail));
            }
        }
        i = next;
    }
    proof {
        assert(v@.skip(i as int) =~= Seq::<char>::empty());
        assert(texts(out@) + path_parts(Seq::empty()) =~= texts(out@));
    }
    out
}

/// Lists the directories that must exist before a remote file is written.
pub fn list_parent_directories(remote_file: &str) -> (r: Vec<String>)
    ensures
        texts(r@) == parent_directories(remote_file@),
{
    let mut out: Vec<String> = Vec::new();
    proof {
        assert(texts(out@) =~= Seq::<Seq<char>>::empty());
    }
    let dir = match remote_parent_path(remote_file) {
        Some(dir) => dir,
        None => return out,
    };
    let rooted = starts_with(dir.as_str(), "/");
    let parts = split_path(dir.as_str());
    let ghost all = texts(parts@);
    let mut current = String::new();
    let mut i: usize = 0;
    if !rooted && parts.len() > 0 {
        current = parts[0].clone();
        out.push(current.clone());
        i = 1;
        proof {
            assert(texts(out@) =~= seq![all[0]]);
            assert(all.skip(1) =~= all.drop_first());
        }
    } else {
        proof {
            assert(all.skip(0) =~= all);
            assert(texts(out@) + directories(current@, all) =~= directories(Seq::empty(), all));
        }
    }
    while i < parts.len()
        invariant
            i <= parts@.len(),
            all == texts(parts@),
            texts(out@) + directories(current@, all.skip(i as int)) == directories_from(
                rooted,
                all,
            ),
        decreases parts@.len() - i,
    {
        let ghost before = out@;
        let ghost rest = all.skip(i as int);
        current = current.concat("/").concat(parts[i].as_str());
        out.push(current.clone());
        proof {
            assert(rest[0] == parts@[i as int]@);
            assert(rest.drop_first() =~= all.skip(i + 1));
            assert(texts(out@) =~= texts(before) + seq![current@]);
            assert(texts(out@) + directories(current@, all.skip(i + 1)) =~= texts(before) + (
            seq![current@] + directories(current@, all.skip(i + 1))));
        }
        i = i + 1;
    }
    proof {
        assert(all.skip(i as int) =~= Seq::<Seq<char>>::empty());
        assert(texts(out@) + directories(current@, Seq::empty()) =~= texts(out@));
    }
    out
}

/// A message that blames the remote path: it, or the right to write to it, is
/// missing.
pub open spec fn speaks_of_path(message: Seq<char>) -> bool {
    let lower = ascii_lower(message);
    ||| mentions(lower, "no such file"@)
    ||| mentions(lower, "sftp(2)"@)
    ||| mentions(lower, "permission denied"@)
    ||| mentions(lower, "access denied"@)
    ||| mentions(lower, "sftp(4)"@)
    ||| mentions(lower, "failure"@)
}

/// Whether a message blames the remote path.
pub fn blames_path(message: &str) -> (r: bool)
    ensures
        r == speaks_of_path(message@),
{
    let lower_text = to_ascii_lowercase(message);
    let lower = lower_text.as_str();
    contains(lower, "no such file") || contains(lower, "sftp(2)") || contains(
        lower,
        "permission denied",
    ) || contains(lower, "access denied") || contains(lower, "sftp(4)") || contains(
        lower,
        "failure",
    )
}

/// The message for an SFTP error on a remote path.
pub open spec fn sftp_error_text(message: Seq<char>, remote: Seq<char>) -> Seq<char> {
    let lower = ascii_lower(message);
    if mentions(lower, "no such file"@) || mentions(lower, "sftp(2)"@) {
        match parent_of_file(remote) {
            Some(p) => "远端路径错误："@ + remote + "\n上级目录「"@ + p
                + "」在服务器上不存在，请核对用户名与目录名（本地文件不受影响）"@,
            None => "远端路径错误："@ + remote + "\n该路径在服务器上不存在（本地文件不受影响）"@,
        }
    } else if mentions(lower, "permission denied"@) || mentions(lower, "access denied"@) {
        "远端路径错误："@ + remote + "\n没有写入权限，请检查该目录权限"@
    } else if mentions(lower, "sftp(4)"@) || mentions(lower, "failure"@) {
        "远端路径错误："@ + remote + "\n写入失败："@ + message
    } else {
        "远端路径「"@ + remote + "」操作失败："@ + message
    }
}

/// Turns a raw SFTP error into a message that names the remote path.
pub fn format_remote_sftp_error(message: &str, remote_path: &str) -> (r: String)
    ensures
        r@ == sftp_error_text(message@, remote_path@),
{
    let lower_text = to_ascii_lowercase(message);
    let lower = lower_text.as_str();
    if contains(lower, "no such file") || contains(lower, "sftp(2)") {
        return match remote_parent_path(remote_path) {
            Some(p) => "远端路径错误：".to_owned().concat(remote_path).concat(
                "\n上级目录「",
            ).concat(p.as_str()).concat(
                "」在服务器上不存在，请核对用户名与目录名（本地文件不受影响）",
            ),
            None => "远端路径错误：".to_owned().concat(remote_path).concat(
                "\n该路径在服务器上不存在（本地文件不受影响）",
            ),
        };
    }
    if contains(lower, "permission denied") || contains(lower, "access denied") {
        return "远端路径错误：".to_owned().concat(remote_path).concat(
            "\n没有写入权限，请检查该目录权限",
        );
    }
    if contains(lower, "sftp(4)") || contains(lower, "failure") {
        return "远端路径错误：".to_owned().concat(remote_path).concat("\n写入失败：").concat(
            message,
        );
    }
    "远端路径「".to_owned().concat(remote_path).concat("」操作失败：").concat(message)
}

/// The message inside the wrapping that `sftp_error_text` puts round it; a
/// message without that wrapping as it is.
pub open spec fn unwrapped(message: Seq<char>) -> Seq<char> {
    if message.contains('」') && begins(message, "远端路径「"@) {
        let rest = trimmed_start(message.skip(position(message, '」') + 1));
        if begins(rest, "操作失败："@) {
            rest.skip("操作失败："@.len() as int)
        } else {
            rest
        }
    } else {
        message
    }
}

/// Takes off the wrapping that names the remote path.
pub fn strip_sftp_wrapper(message: &str) -> (r: String)
    ensures
        r@ == unwrapped(message@),
{
    let v = chars_of(message);
    let at = find_char(&v, '」');
    if at < v.len() && starts_with(message, "远端路径「") {
        let tail = message.substring_char(at + 1, v.len());
        proof {
            assert(message@.skip(at + 1) =~= tail@);
        }
        let rest = trim_start(tail);
        if starts_with(rest, "操作失败：") {
            let rv = chars_of(rest);
            let pv = chars_of("操作失败：");
            let inner = string_of(&rv, pv.len(), rv.len());
            proof {
                assert(inner@ =~= rest@.skip("操作失败："@.len() as int));
            }
            return inner;
        }
        return rest.to_owned();
    }
    message.to_owned()
}

/// A message that speaks of something that no repetition will cure.
pub open spec fn hopeless(lower: Seq<char>) -> bool {
    ||| mentions(lower, "permission denied"@)
    ||| mentions(lower, "no such file"@)
    ||| mentions(lower, "not a directory"@)
    ||| mentions(lower, "is a directory"@)
    ||| mentions(lower, "cannot create"@)
    ||| mentions(lower, "access denied"@)
    ||| mentions(lower, "auth"@)
    ||| mentions(lower, "续传边界校验失败"@)
    ||| mentions(lower, "sha-256"@)
    ||| mentions(lower, "远端路径错误"@)
}

/// An upload error that no repetition will cure.
pub open spec fn permanent_for_upload(message: Seq<char>) -> bool {
    hopeless(ascii_lower(unwrapped(message)))
}

pub(crate) fn is_hopeless(lower: &str) -> (r: bool)
    ensures
        r == hopeless(lower@),
{
    contains(lower, "permission denied") || contains(lower, "no such file") || contains(
        lower,
        "not a directory",
    ) || contains(lower, "is a directory") || contains(lower, "cannot create") || contains(
        lower,
        "access denied",
    ) || contains(lower, "auth") || contains(lower, "续传边界校验失败") || contains(
        lower,
        "sha-256",
    ) || contains(lower, "远端路径错误")
}

/// Whether an upload error is permanent, however much has been uploaded.
pub fn is_permanent_sftp_error(message: &str, _uploaded_bytes: u64) -> (r: bool)
    ensures
        r == permanent_for_upload(message@),
{
    let raw = strip_sftp_wrapper(message);
    let lower = to_ascii_lowercase(raw.as_str());
    is_hopeless(lower.as_str())
}

/// Whether a remote path is a directory, by its description or, where that
/// leaves it open, by whether it can be opened as one.
pub open spec fn taken_for_directory(stat: Option<FileStat>, opens: bool) -> bool {
    match stat {
        Some(s) => if s.is_dir {
            true
        } else if s.is_file {
            false
        } else {
            opens
        },
        None => opens,
    }
}

/// Whether a remote path is a directory.
pub fn is_remote_directory(stat: &Option<FileStat>, opens: bool) -> (r: bool)
    ensures
        r == taken_for_directory(*stat, opens),
{
    match stat {
        Some(s) => if s.is_dir {
            true
        } else if s.is_file {
            false
        } else {
            opens
        },
        None => opens,
    }
}

/// The path of the remote file, once it is known whether the path entered is
/// an existing directory: a directory gets the name of the local file.
pub open spec fn upload_target(remote: Seq<char>, local: Seq<char>, is_dir: bool) -> Result<
    Seq<char>,
    Fault,
> {
    let entry = trimmed(remote);
    if entry.len() == 0 {
        Err(Fault::InvalidRemotePath("远端路径不能为空"@))
    } else if ends_in(entry, '/') {
        with_file_name(entry, local)
    } else if is_dir {
        match last_name(local) {
            Some(name) => Ok(remote_joined(entry, name)),
            None => Err(Fault::InvalidRemotePath("无法读取本地文件名"@)),
        }
    } else {
        Ok(entry)
    }
}

/// Finds the path of the remote file. `is_dir` says whether the path entered is
/// a directory on the server.
pub fn resolve_upload_target(remote_path: &str, local_path: &str, is_dir: bool) -> (r: Result<
    String,
    UploadError,
>)
    ensures
        upload_path_view(r) == upload_target(remote_path@, local_path@, is_dir),
{
    let entry = trim(remote_path);
    if entry.is_empty() {
        return Err(UploadError::InvalidRemotePath("远端路径不能为空".to_owned()));
    }
    if ends_with_char(entry, '/') {
        return append_local_filename(entry, local_path);
    }
    if is_dir {
        return match file_name(local_path) {
            Some(name) => Ok(join_remote_path(entry, name)),
            None => Err(UploadError::InvalidRemotePath("无法读取本地文件名".to_owned())),
        };
    }
    Ok(entry.to_owned())
}

/// A warning that the directory of a remote file does not exist.
pub open spec fn parent_warning(remote: Seq<char>, parent_exists: bool) -> Option<Seq<char>> {
    match parent_of_file(remote) {
        Some(dir) => if parent_exists {
            None
        } else {
            Some("远端路径可能有问题：上级目录「"@ + dir + "」在服务器上不存在"@)
        },
        None => None,
    }
}

/// Warns if the directory of a remote file does not exist.
pub fn remote_parent_status(remote_file: &str, parent_exists: bool) -> (r: Option<String>)
    ensures
        opt_view(r) == parent_warning(remote_file@, parent_exists),
{
    match remote_parent_path(remote_file) {
        Some(dir) => if parent_exists {
            None
        } else {
            Some(
                "远端路径可能有问题：上级目录「".to_owned().concat(dir.as_str()).concat(
                    "」在服务器上不存在",
                ),
            )
        },
        None => None,
    }
}

/// How a file is opened for writing.
#[derive(Debug, Clone, Copy, PartialEq, Eq, Structural)]
pub enum WriteMode {
    /// Made if it is not there, and emptied if it is.
    CreateTruncated,
    /// Made if it is not there.
    Create,
    /// Written to where it is.
    Update,
}

/// How the remote file is opened for a chunk at `offset`.
pub fn write_mode(offset: u64, truncate_first: bool, remote_exists: bool) -> (r: WriteMode)
    ensures
        r == if offset > 0 {
            WriteMode::Update
        } else if truncate_first && remote_exists {
            WriteMode::CreateTruncated
        } else {
            WriteMode::Create
        },
{
    if offset == 0 {
        if truncate_first && remote_exists {
            WriteMode::CreateTruncated
        } else {
            WriteMode::Create
        }
    } else {
        WriteMode::Update
    }
}

proof fn lemma_position(s: Seq<char>, c: char, n: int)
    requires
        0 <= n < s.len(),
        s[n] == c,
        forall|i: int| 0 <= i < n ==> s[i] != c,
    ensures
        position(s, c) == n,
    decreases s.len(),
{
    if n > 0 {
        assert(s[0] != c);
        lemma_position(s.drop_first(), c, n - 1);
    }
}

/// Taking off the wrapping gives the message back that was wrapped, for every
/// remote path that does not hold the closing bracket itself.
pub proof fn unwrapping_undoes_wrapping(message: Seq<char>, remote: Seq<char>)
    requires
        !remote.contains('」'),
    ensures
        unwrapped("远端路径「"@ + remote + "」操作失败："@ + message) == message,
{
    let open = "远端路径「"@;
    let close = "」操作失败："@;
    let mark = "操作失败："@;
    reveal_strlit("远端路径「");
    reveal_strlit("」操作失败：");
    reveal_strlit("操作失败：");
    let whole = open + remote + close + message;
    let n = open.len() + remote.len() as int;
    assert(whole[n] == '」');
    assert forall|i: int| 0 <= i < n implies whole[i] != '」' by {
        if i >= open.len() {
            assert(whole[i] == remote[i - open.len()]);
        }
    }
    lemma_position(whole, '」', n);
    assert(whole.contains('」'));
    assert(whole.subrange(0, open.len() as int) =~= open);
    let rest = whole.skip(n + 1);
    assert(rest =~= mark + message);
    assert(rest[0] == '操');
    assert(trimmed_start(rest) == rest);
    assert(rest.subrange(0, mark.len() as int) =~= mark);
    assert(rest.skip(mark.len() as int) =~= message);
}

/// A remote directory is completed by the name of the local file and nothing
/// else.
pub proof fn directories_get_the_local_name(remote: Seq<char>, local: Seq<char>)
    requires
        ends_in(trimmed(remote), '/'),
        last_name(local) is Some,
    ensures
        resolved_remote(remote, local) is Ok,
        last_name(resolved_remote(remote, local)->Ok_0) == last_name(local),
{
    last_names_are_plain(local);
    joined_name_is_last(trimmed(remote), last_name(local).unwrap());
}

/// A remote path that has been resolved stands for itself, unless the name of
/// the local file starts or ends in white space.
pub proof fn resolved_paths_are_stable(remote: Seq<char>, local: Seq<char>)
    requires
        resolved_remote(remote, local) is Ok,
        last_name(local) matches Some(name) ==> trimmed(name) == name,
    ensures
        resolved_remote(resolved_remote(remote, local)->Ok_0, local) == resolved_remote(
            remote,
            local,
        ),
{
    let entry = trimmed(remote);
    let path = resolved_remote(remote, local)->Ok_0;
    trimmed_text_is_bare(remote);
    if ends_in(entry, '/') {
        let name = last_name(local).unwrap();
        last_names_are_plain(local);
        trimmed_text_is_bare(name);
        assert(path == entry + name);
        assert(path.last() == name.last());
        assert(name.contains(name.last()));
        bare_text_is_kept(path);
    } else {
        trimming_is_stable(remote);
    }
}

proof fn lemma_directories(path: Seq<char>, parts: Seq<Seq<char>>, i: int)
    requires
        0 <= i < parts.len(),
    ensures
        directories(path, parts).len() == parts.len(),
        directories(path, parts)[i] == if i == 0 {
            path + "/"@ + parts[0]
        } else {
            directories(path, parts)[i - 1] + "/"@ + parts[i]
        },
    decreases parts.len(),
{
    let dir = path + "/"@ + parts[0];
    let rest = parts.drop_first();
    if rest.len() > 0 {
        lemma_directories(dir, rest, if i == 0 { 0 } else { i - 1 });
    } else {
        assert(directories(dir, rest).len() == 0);
    }
}

/// The directories above a remote file are listed from the outside in: the first
/// is the first component of the path, below the root only where the path is,
/// and each of the others is the one before it with one more component.
pub proof fn parent_directories_are_nested(remote: Seq<char>, i: int)
    requires
        parent_of_file(remote) is Some,
        0 <= i < parent_directories(remote).len(),
    ensures
        ({
            let dirs = parent_directories(remote);
            let dir = parent_of_file(remote).unwrap();
            let parts = path_parts(dir);
            &&& dirs.len() == parts.len()
            &&& dirs[i] == if i > 0 {
                dirs[i - 1] + "/"@ + parts[i]
            } else if begins(dir, "/"@) {
                "/"@ + parts[0]
            } else {
                parts[0]
            }
        }),
{
    let dir = parent_of_file(remote).unwrap();
    let parts = path_parts(dir);
    if parts.len() == 0 {
        assert(directories(Seq::empty(), parts).len() == 0);
    }
    if begins(dir, "/"@) {
        lemma_directories(Seq::empty(), parts, 0);
        lemma_directories(Seq::empty(), parts, i);
        assert(Seq::<char>::empty() + "/"@ =~= "/"@);
    } else {
        let rest = parts.drop_first();
        if rest.len() > 0 {
            lemma_directories(parts[0], rest, 0);
            if i > 0 {
                lemma_directories(parts[0], rest, i - 1);
            }
        } else {
            assert(directories(parts[0], rest).len() == 0);
        }
    }
}

/// A file in a directory is reached by the path of the directory, one slash, and
/// the name of the file; a slash that the directory ends in is that slash.
pub proof fn joined_paths_have_one_slash_between(base: Seq<char>, name: Seq<char>)
    ensures
        base.len() > 0 && base.last() == '/' ==> remote_joined(base, name) == base + name,
        base.len() == 0 || base.last() != '/' ==> remote_joined(base, name) == base + seq!['/']
            + name,
{
    reveal_strlit("/");
    assert("/"@ =~= seq!['/']);
}

/// The remote path that an entry stands for is the entry without white space
/// around it, completed by the name of the local file exactly where it ends in a
/// slash. A blank entry, and a directory for a local path without a name, stand
/// for none.
pub proof fn entries_stand_for_remote_paths(remote: Seq<char>, local: Seq<char>)
    ensures
        ({
            let entry = trimmed(remote);
            let path = resolved_remote(remote, local);
            &&& path is Ok <==> entry.len() > 0 && (entry.last() == '/' ==> last_name(local) is Some)
            &&& path is Ok && entry.last() != '/' ==> path->Ok_0 == entry
            &&& path is Ok && entry.last() == '/' ==> path->Ok_0 == entry + last_name(
                local,
            ).unwrap()
            &&& path is Err ==> path->Err_0 is InvalidRemotePath
        }),
{
}

/// The remote file of an upload is the path entered, or, where that ends in a
/// slash or is a directory on the server, the file of the local name in it.
pub proof fn uploads_into_directories_take_the_local_name(
    remote: Seq<char>,
    local: Seq<char>,
    is_dir: bool,
)
    ensures
        ({
            let entry = trimmed(remote);
            let target = upload_target(remote, local, is_dir);
            let inside = is_dir || entry.last() == '/';
            &&& target is Ok <==> entry.len() > 0 && (inside ==> last_name(local) is Some)
            &&& target is Ok && !inside ==> target->Ok_0 == entry
            &&& target is Ok && entry.last() == '/' ==> target->Ok_0 == entry + last_name(
                local,
            ).unwrap()
            &&& target is Ok && is_dir && entry.last() != '/' ==> target->Ok_0 == entry + seq!['/']
                + last_name(local).unwrap()
            &&& target is Err ==> target->Err_0 is InvalidRemotePath
        }),
{
    reveal_strlit("/");
    assert("/"@ =~= seq!['/']);
}

/// The directory of a remote file is what stands above it; there is none to see
/// to where that is the root, or where the path names no directory.
pub proof fn parents_stand_above_their_files(remote: Seq<char>)
    ensures
        ({
            let above = upper_path(trimmed(remote));
            &&& parent_of_file(remote) is Some <==> above is Some && above.unwrap().len() > 0
                && above.unwrap() != seq!['/']
            &&& parent_of_file(remote) is Some ==> parent_of_file(remote) == above
            &&& parent_of_file(remote) is None ==> parent_directories(remote).len() == 0
        }),
{
    reveal_strlit("/");
    assert("/"@ =~= seq!['/']);
}

/// The parts of a path are the names between its slashes: those in front of a
/// slash and then those behind it; a name without a slash is the only part of
/// itself, and nothing has none.
pub proof fn parts_stand_between_slashes(a: Seq<char>, b: Seq<char>)
    ensures
        path_parts(a + seq!['/'] + b) == path_parts(a) + path_parts(b),
        a.len() > 0 && !a.contains('/') ==> path_parts(a) == seq![a],
        path_parts(Seq::empty()) == Seq::<Seq<char>>::empty(),
    decreases a.len(),
{
    let whole = a + seq!['/'] + b;
    let n = position(a, '/');
    positions_are_first(a, '/');
    positions_are_first(whole, '/');
    assert(whole[a.len() as int] == '/');
    if n < a.len() {
        assert(whole[n] == '/');
        lemma_whole_position(whole, a, n);
        let rest = a.skip(n + 1);
        assert(whole.take(n) =~= a.take(n));
        assert(whole.skip(n + 1) =~= rest + seq!['/'] + b);
        parts_stand_between_slashes(rest, b);
        assert(a.contains(a[n]));
        assert(path_parts(whole) =~= path_parts(a) + path_parts(b));
    } else {
        lemma_whole_position(whole, a, n);
        assert(whole.take(n) =~= a);
        assert(whole.skip(n + 1) =~= b);
        assert(a.take(n) =~= a);
        assert(path_parts(Seq::<char>::empty()) =~= Seq::<Seq<char>>::empty());
        assert(path_parts(whole) =~= path_parts(a) + path_parts(b));
        if a.len() > 0 {
            assert(path_parts(a) =~= seq![a]);
        }
    }
}

proof fn lemma_whole_position(whole: Seq<char>, a: Seq<char>, n: int)
    requires
        0 <= n <= a.len() < whole.len(),
        whole[n] == '/',
        forall|i: int| 0 <= i < a.len() ==> whole[i] == a[i],
        forall|i: int| 0 <= i < n ==> a[i] != '/',
    ensures
        position(whole, '/') == n,
{
    lemma_position(whole, '/', n);
}

/// The words by which a message blames the remote path.
pub open spec fn path_words() -> Seq<Seq<char>> {
    seq![
        "no such file"@,
        "sftp(2)"@,
        "permission denied"@,
        "access denied"@,
        "sftp(4)"@,
        "failure"@,
    ]
}

/// A message blames the remote path exactly if it holds one of the words for
/// that, in capitals or in small letters. The text that the user is shown then
/// says so in front; of any other message it holds the path and the whole
/// message. In either case it names the path.
pub proof fn blamed_paths_are_named(message: Seq<char>, remote: Seq<char>)
    ensures
        speaks_of_path(message) <==> exists|i: int|
            0 <= i < path_words().len() && mentions(
                ascii_lower(message),
                #[trigger] path_words()[i],
            ),
        speaks_of_path(message) ==> begins(
            sftp_error_text(message, remote),
            "远端路径错误："@ + remote,
        ),
        !speaks_of_path(message) ==> sftp_error_text(message, remote) == "远端路径「"@ + remote
            + "」操作失败："@ + message,
        mentions(sftp_error_text(message, remote), remote),
{
    let words = path_words();
    let lower = ascii_lower(message);
    assert(words[0] == "no such file"@ && words[1] == "sftp(2)"@ && words[2]
        == "permission denied"@ && words[3] == "access denied"@ && words[4] == "sftp(4)"@
        && words[5] == "failure"@);
    let text = sftp_error_text(message, remote);
    let head = "远端路径错误："@ + remote;
    if speaks_of_path(message) {
        if mentions(lower, "no such file"@) || mentions(lower, "sftp(2)"@) {
            match parent_of_file(remote) {
                Some(p) => {
                    assert(text =~= head + ("\n上级目录「"@ + p
                        + "」在服务器上不存在，请核对用户名与目录名（本地文件不受影响）"@));
                },
                None => {
                    assert(text =~= head + "\n该路径在服务器上不存在（本地文件不受影响）"@);
                },
            }
        } else if mentions(lower, "permission denied"@) || mentions(lower, "access denied"@) {
            assert(text =~= head + "\n没有写入权限，请检查该目录权限"@);
        } else {
            assert(text =~= head + ("\n写入失败："@ + message));
        }
        let rest = text.skip(head.len() as int);
        assert(text =~= head + rest);
        beginnings_are_followed_by_the_rest(text, head);
        mentions_stand_inside(text, remote);
        assert(text =~= "远端路径错误："@ + remote + rest);
    } else {
        mentions_stand_inside(text, remote);
        assert(text =~= "远端路径「"@ + remote + ("」操作失败："@ + message));
    }
}

/// A message without the wrapping that names the remote path is left as it is.
pub proof fn unwrapped_messages_are_kept(message: Seq<char>)
    requires
        !begins(message, "远端路径「"@),
    ensures
        unwrapped(message) == message,
{
}

/// The words for a fault that no repetition will cure.
pub open spec fn lasting_words() -> Seq<Seq<char>> {
    seq![
        "permission denied"@,
        "no such file"@,
        "not a directory"@,
        "is a directory"@,
        "cannot create"@,
        "access denied"@,
        "auth"@,
        "续传边界校验失败"@,
        "sha-256"@,
        "远端路径错误"@,
    ]
}

/// A message of the server ends an upload exactly if it holds one of the words
/// for a lasting fault, in capitals or in small letters.
pub proof fn lasting_faults_are_known_by_their_words(message: Seq<char>)
    requires
        !begins(message, "远端路径「"@),
    ensures
        permanent_for_upload(message) <==> exists|i: int|
            0 <= i < lasting_words().len() && mentions(
                ascii_lower(message),
                #[trigger] lasting_words()[i],
            ),
{
    let words = lasting_words();
    assert(words[0] == "permission denied"@ && words[1] == "no such file"@ && words[2]
        == "not a directory"@ && words[3] == "is a directory"@ && words[4] == "cannot create"@
        && words[5] == "access denied"@ && words[6] == "auth"@ && words[7]
        == "续传边界校验失败"@ && words[8] == "sha-256"@ && words[9] == "远端路径错误"@);
}

/// A remote path is a directory if the server says so, is none if the server
/// calls it a file, and else is one exactly if it can be opened as one.
pub proof fn directories_are_told_from_files(stat: Option<FileStat>, opens: bool)
    ensures
        stat is Some && stat.unwrap().is_dir ==> taken_for_directory(stat, opens),
        stat is Some && !stat.unwrap().is_dir && stat.unwrap().is_file ==> !taken_for_directory(
            stat,
            opens,
        ),
        stat is None || (!stat.unwrap().is_dir && !stat.unwrap().is_file) ==> taken_for_directory(
            stat,
            opens,
        ) == opens,
{
}

/// The user is warned exactly if a remote file has a directory to be in and that
/// does not exist, and the warning names it.
pub proof fn missing_directories_are_named(remote: Seq<char>, parent_exists: bool)
    ensures
        parent_warning(remote, parent_exists) is Some <==> parent_of_file(remote) is Some
            && !parent_exists,
        parent_warning(remote, parent_exists) is Some ==> mentions(
            parent_warning(remote, parent_exists).unwrap(),
            parent_of_file(remote).unwrap(),
        ),
{
    if parent_of_file(remote) is Some {
        let dir = parent_of_file(remote).unwrap();
        let text = "远端路径可能有问题：上级目录「"@ + dir + "」在服务器上不存在"@;
        mentions_stand_inside(text, dir);
    }
}

/// The remote file is emptied only for the first chunk, only where that is wanted
/// and only if it is there; behind the first chunk it is written to as it is.
pub proof fn only_the_first_chunk_makes_the_file(
    offset: u64,
    truncate_first: bool,
    remote_exists: bool,
    mode: WriteMode,
)
    requires
        call_ensures(write_mode, (offset, truncate_first, remote_exists), mode),
    ensures
        mode is Update <==> offset > 0,
        mode is CreateTruncated <==> offset == 0 && truncate_first && remote_exists,
{
}

} // verus!
