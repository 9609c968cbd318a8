//! The transfer as a state machine, in mathematical terms: what a transfer does
//! next, given what the last thing it did has led to.

use vstd::prelude::*;

use crate::checkpoint::{Checkpoint, CheckpointStatus};
use crate::chunk::{chunk_edge, least, CHUNK_SIZE};
use crate::number::decimal;
use crate::path::{last_name, upper_path};
use crate::retry::{doubled_backoff, INITIAL_BACKOFF_MS, MAX_BACKOFF_MS, NAP_MS};
use crate::sftp::client::{connect_text, ConnectFault};
use crate::sftp::download::{name_of_remote, permanent_for_download, resolved_local};
use crate::sftp::fault::{fault_text, Direction, Fault};
use crate::sftp::upload::{
    parent_directories, permanent_for_upload, remote_joined, sftp_error_text, speaks_of_path,
    upload_fault, with_file_name, REMOTE_DIR_MODE, REMOTE_FILE_MODE,
};
use crate::text::{ends_in, trimmed};

verus! {

/// What the server or this machine says about a file.
#[derive(Debug, Clone, Copy)]
pub struct FileStat {
    pub is_dir: bool,
    pub is_file: bool,
    pub size: Option<u64>,
    pub mtime: Option<u64>,
}

/// What a transfer is waiting for.
#[derive(Debug, Clone, Copy)]
pub enum Phase {
    /// Nothing has been done yet.
    Ready,
    Connecting,
    /// Napping before the next attempt, for `waited` milliseconds so far.
    Waiting { waited: u64 },
    OpeningSftp,
    /// Upload: is the remote path a directory?
    ProbingTarget,
    ProbingTargetDir,
    /// Upload: the checkpoint is being saved with the path found.
    SavingTarget,
    /// Upload: does the directory with this index exist, and its creation.
    CheckingParent { index: usize },
    MakingParent { index: usize },
    /// Upload: how large is the remote file?
    SizingTarget,
    /// Download: does the remote file exist, and how large is it?
    FindingSource,
    SizingSource,
    MakingLocalDir,
    /// Download: the checkpoint is being saved with what was found.
    SavingSource,
    SizingLocal,
    /// The target is being cut to `offset` bytes.
    Truncating { offset: u64 },
    /// Upload: is what stands in the way a file?
    InspectingStale,
    RemovingStale,
    /// The bytes in front of `offset` are being compared.
    ComparingBoundary { offset: u64 },
    /// Upload: the local file is being opened at `offset`.
    OpeningSource { offset: u64 },
    CopyingChunk { offset: u64, len: u64 },
    /// The chunk is being hashed on both sides.
    CheckingChunk { offset: u64, len: u64 },
    /// A chunk that differs is being cut off.
    RewindingChunk { offset: u64, len: u64 },
    /// The checkpoint is being saved, with all in front of `offset` moved.
    SavingChunk { offset: u64 },
    SizingResult,
    HashingLocal,
    ReopeningSftp,
    HashingRemote,
    SavingReadFailure,
    RemovingMismatch,
    SavingMismatch,
    Finished,
}

/// What a transfer wants done.
pub enum Task {
    Connect,
    Sleep { ms: u64 },
    OpenSftp,
    StatRemote { path: Seq<char> },
    OpenRemoteDir { path: Seq<char> },
    MakeRemoteDir { path: Seq<char>, mode: i32 },
    MakeLocalDir { path: Seq<char> },
    SizeLocal { path: Seq<char> },
    SaveCheckpoint,
    TruncateRemote { path: Seq<char>, size: u64 },
    TruncateLocal { path: Seq<char>, size: u64 },
    RemoveRemote { path: Seq<char> },
    RemoveLocal { path: Seq<char> },
    /// Read the same range of both files.
    ReadBoundary { local: Seq<char>, remote: Seq<char>, start: u64, len: u64 },
    /// Open the local file at an offset.
    OpenLocal { path: Seq<char>, offset: u64 },
    /// Copy a range from the source to the target. A remote file that is made
    /// gets the mode.
    CopyChunk {
        local: Seq<char>,
        remote: Seq<char>,
        offset: u64,
        len: u64,
        first: bool,
        mode: i32,
    },
    /// Hash the same range of both files.
    HashChunk { local: Seq<char>, remote: Seq<char>, offset: u64, len: u64 },
    /// Hash the whole local file.
    HashLocal { path: Seq<char> },
    /// Hash the first `len` bytes of the remote file.
    HashRemote { path: Seq<char>, len: u64 },
    Finish,
}

/// What came of a task.
pub enum Reply {
    Begin,
    Done,
    Failed(Seq<char>),
    ConnectFailed(ConnectFault),
    Stat(FileStat),
    Size(u64),
    LocalFailed(Seq<char>),
    RemoteFailed(Seq<char>),
    Boundary { local: Seq<u8>, remote: Seq<u8> },
    Digests { local: Seq<u8>, remote: Seq<u8> },
    Digest(Seq<u8>),
    Interrupted,
}

/// What the user is told.
pub enum News {
    Progress { done: u64, total: u64, status: Seq<char>, retry_count: u32 },
    Retry { retry_count: u32, delay_ms: u64, message: Seq<char> },
}

/// The state of a transfer.
pub struct State {
    pub direction: Direction,
    pub phase: Phase,
    pub record: Checkpoint,
    /// The paths that the transfer was started with.
    pub given_local: Seq<char>,
    pub given_remote: Seq<char>,
    /// The paths of the two files, once they are known.
    pub local: Seq<char>,
    pub remote: Seq<char>,
    /// The size of the source.
    pub size: u64,
    /// The modification time of the source (download).
    pub mtime: Option<u64>,
    /// Whether every chunk is compared after it was moved.
    pub strict: bool,
    /// Whether what exists is overwritten from the start.
    pub force: bool,
    /// The wait before the next attempt, in milliseconds.
    pub backoff: u64,
    /// The directories above the remote file (upload).
    pub parents: Seq<Seq<char>>,
    /// The digest of the local file.
    pub local_digest: Seq<u8>,
    /// Why the remote file could not be read for the final comparison.
    pub detail: Seq<char>,
    /// How the transfer ended.
    pub outcome: Option<Result<(), Fault>>,
}

/// One step: what to tell the user, and what to do then.
pub struct Move {
    pub news: Option<News>,
    pub task: Task,
}

/// Whether a reply answers what the transfer is waiting for.
pub open spec fn answers(direction: Direction, phase: Phase, reply: Reply) -> bool {
    match phase {
        Phase::Ready => reply is Begin,
        Phase::Connecting => reply is Done || reply is ConnectFailed,
        Phase::Waiting { .. } => reply is Done,
        Phase::ProbingTarget
        | Phase::CheckingParent { .. }
        | Phase::SizingTarget
        | Phase::FindingSource
        | Phase::SizingSource
        | Phase::InspectingStale => reply is Stat || reply is Failed,
        Phase::OpeningSftp
        | Phase::ProbingTargetDir
        | Phase::SavingTarget
        | Phase::MakingParent { .. }
        | Phase::MakingLocalDir
        | Phase::SavingSource
        | Phase::Truncating { .. }
        | Phase::RemovingStale
        | Phase::OpeningSource { .. }
        | Phase::RewindingChunk { .. }
        | Phase::SavingChunk { .. }
        | Phase::ReopeningSftp
        | Phase::SavingReadFailure
        | Phase::RemovingMismatch
        | Phase::SavingMismatch => reply is Done || reply is Failed,
        Phase::SizingLocal => reply is Size,
        Phase::ComparingBoundary { .. } => reply is Boundary || reply is LocalFailed
            || reply is RemoteFailed,
        Phase::CopyingChunk { .. } => reply is Done || reply is LocalFailed
            || reply is RemoteFailed,
        Phase::CheckingChunk { .. } => reply is Digests || reply is LocalFailed
            || reply is RemoteFailed,
        Phase::SizingResult => if direction is Upload {
            reply is Stat || reply is Failed
        } else {
            reply is Size
        },
        Phase::HashingLocal => reply is Digest || reply is LocalFailed || reply is Interrupted,
        Phase::HashingRemote => reply is Digest || reply is RemoteFailed || reply is Interrupted,
        Phase::Finished => false,
    }
}

/// How much of the target can be kept: what has been verified, or else the
/// whole chunks of what has been moved.
pub open spec fn trusted_bytes(record: Checkpoint) -> int {
    if record.verified > 0 {
        record.verified as int
    } else {
        chunk_edge(record.moved as int)
    }
}

/// What is done with a target of some size before the transfer goes on.
pub enum Resume {
    /// Go on at `offset`.
    At { offset: u64 },
    /// Cut the target to `offset` bytes and go on there.
    CutTo { offset: u64 },
    /// Remove the target and start from nothing.
    Discard,
}

/// Where a transfer goes on that finds `target_size` bytes in place.
pub open spec fn resume_plan(
    direction: Direction,
    target_size: u64,
    force: bool,
    record: Checkpoint,
) -> Resume {
    let trusted = trusted_bytes(record);
    if force {
        if direction is Download || target_size > 0 {
            Resume::Discard
        } else {
            Resume::At { offset: 0 }
        }
    } else if trusted > 0 {
        if target_size > trusted {
            Resume::CutTo { offset: trusted as u64 }
        } else {
            Resume::At { offset: trusted as u64 }
        }
    } else if target_size > 0 {
        Resume::Discard
    } else {
        Resume::At { offset: 0 }
    }
}

/// The status shown while chunks are moving.
pub open spec fn moving_label(direction: Direction) -> Seq<char> {
    if direction is Upload {
        "uploading"@
    } else {
        "downloading"@
    }
}

/// Whether an error is one that no repetition will cure.
pub open spec fn permanent(direction: Direction, message: Seq<char>) -> bool {
    if direction is Upload {
        permanent_for_upload(message)
    } else {
        permanent_for_download(message)
    }
}

/// What the user is told when a connection could not be made.
pub open spec fn connect_message(st: State, fault: ConnectFault) -> Seq<char> {
    if st.direction is Upload && st.record.moved > 0 {
        "连接失败（已传 "@ + decimal(st.record.moved as nat) + " 字节），"@ + decimal(
            st.backoff as nat,
        ) + "ms 后重连续传: "@ + connect_text(fault)
    } else {
        "连接失败，"@ + decimal(st.backoff as nat) + "ms 后重试: "@ + connect_text(fault)
    }
}

/// What the user is told when a transfer breaks off and will be taken up again.
pub open spec fn broken_message(st: State, detail: Seq<char>) -> Seq<char> {
    "传输中断（"@ + detail + "），"@ + decimal(st.backoff as nat) + "ms 后重连续传"@
}

/// What the user is told when the remote file could not be read back.
pub open spec fn unread_message(direction: Direction, detail: Seq<char>) -> Seq<char> {
    if direction is Upload {
        "传完后校验时读取远端失败（弱网常见），数据块已全部校验通过，可点「开始上传」仅重试校验: "@
            + detail
    } else {
        "传完后校验时读取远端失败，可点「开始下载」重试校验: "@ + detail
    }
}

pub open spec fn go(st: State, phase: Phase, task: Task) -> (State, Move) {
    (State { phase, ..st }, Move { news: None, task })
}

pub open spec fn tell(news: News, next: (State, Move)) -> (State, Move) {
    (next.0, Move { news: Some(news), task: next.1.task })
}

pub open spec fn finish(st: State, outcome: Result<(), Fault>) -> (State, Move) {
    go(State { outcome: Some(outcome), ..st }, Phase::Finished, Task::Finish)
}

pub open spec fn marked(st: State, status: CheckpointStatus) -> State {
    State { record: Checkpoint { status, ..st.record }, ..st }
}

/// Ends a transfer that has failed for good.
pub open spec fn give_up(st: State, fault: Fault) -> (State, Move) {
    finish(marked(st, CheckpointStatus::Failed), Err(fault))
}

/// The start of an attempt.
pub open spec fn attempt(st: State, cancelled: bool) -> (State, Move) {
    if cancelled {
        give_up(st, Fault::Cancelled)
    } else {
        go(st, Phase::Connecting, Task::Connect)
    }
}

/// One more than a count, unless it is at its maximum.
pub open spec fn counted(n: u32) -> u32 {
    if n < u32::MAX {
        (n + 1) as u32
    } else {
        n
    }
}

/// Waits and tries again.
pub open spec fn retry(st: State, message: Seq<char>) -> (State, Move) {
    let count = counted(st.record.retry_count);
    let next = State { record: Checkpoint { retry_count: count, ..st.record }, ..st };
    tell(
        News::Retry { retry_count: count, delay_ms: st.backoff, message },
        go(next, Phase::Waiting { waited: 0 }, Task::Sleep { ms: NAP_MS }),
    )
}

/// A kind of fault that a repetition may cure.
pub open spec fn repeatable(fault: Fault) -> bool {
    fault is Connect || fault is Sftp || fault is ChunkVerifyMismatch
}

/// A fault that no repetition will cure: one of a kind that is not repeated, or
/// an SFTP error whose own message says so.
pub open spec fn lasting(direction: Direction, fault: Fault) -> bool {
    match fault {
        Fault::Sftp(message) => permanent(direction, message),
        _ => !repeatable(fault),
    }
}

/// Breaks off: waits and tries again, unless the user has cancelled.
pub open spec fn break_off(st: State, fault: Fault, cancelled: bool) -> (State, Move) {
    if cancelled {
        finish(st, Err(Fault::Cancelled))
    } else {
        retry(st, broken_message(st, fault_text(st.direction, fault)))
    }
}

/// Meets a fault that may pass or not, according to `hopeless`.
pub open spec fn meet(st: State, fault: Fault, hopeless: bool, cancelled: bool) -> (State, Move) {
    if hopeless && !cancelled {
        give_up(st, fault)
    } else {
        break_off(st, fault, cancelled)
    }
}

/// Meets an error while the file was being moved: some end the transfer, the
/// others are repeated unless the user has cancelled or nothing can help.
pub open spec fn fail(st: State, fault: Fault, cancelled: bool) -> (State, Move) {
    if repeatable(fault) {
        meet(st, fault, lasting(st.direction, fault), cancelled)
    } else {
        give_up(st, fault)
    }
}

/// Download: the server does not describe the remote file. A message that may
/// pass is no proof that the file is not there.
pub open spec fn source_unseen(st: State, message: Seq<char>, cancelled: bool) -> (State, Move) {
    if permanent(st.direction, message) {
        fail(
            st,
            Fault::InvalidRemotePath("远端文件不存在: "@ + trimmed(st.given_remote)),
            cancelled,
        )
    } else {
        fail(st, Fault::Sftp(message), cancelled)
    }
}

/// Upload: a directory above the remote file could not be made. Whether that
/// may pass is judged by what the server says, not by the name of the directory.
pub open spec fn parent_unmade(
    st: State,
    index: int,
    message: Seq<char>,
    cancelled: bool,
) -> (State, Move) {
    meet(
        st,
        Fault::Sftp(
            sftp_error_text(
                "创建远端目录「"@ + st.parents[index] + "」失败: "@ + message,
                st.remote,
            ),
        ),
        permanent(st.direction, message) || speaks_of_path(message),
        cancelled,
    )
}

/// An error on the side of the target.
pub open spec fn target_fault(direction: Direction, message: Seq<char>) -> Fault {
    if direction is Upload {
        Fault::Sftp(message)
    } else {
        Fault::LocalIo(message)
    }
}

/// Cuts the target to a size.
pub open spec fn truncate_task(st: State, size: u64) -> Task {
    if st.direction is Upload {
        Task::TruncateRemote { path: st.remote, size }
    } else {
        Task::TruncateLocal { path: st.local, size }
    }
}

/// Removes the target.
pub open spec fn remove_task(st: State) -> Task {
    if st.direction is Upload {
        Task::RemoveRemote { path: st.remote }
    } else {
        Task::RemoveLocal { path: st.local }
    }
}

/// The connection stands: find out where the file goes, or where it is.
pub open spec fn locate(st: State, cancelled: bool) -> (State, Move) {
    let entry = trimmed(st.given_remote);
    if entry.len() == 0 {
        fail(st, Fault::InvalidRemotePath("远端路径不能为空"@), cancelled)
    } else if st.direction is Download {
        go(st, Phase::FindingSource, Task::StatRemote { path: entry })
    } else if ends_in(entry, '/') {
        match with_file_name(entry, st.given_local) {
            Ok(path) => target_found(st, path),
            Err(fault) => fail(st, fault, cancelled),
        }
    } else {
        go(st, Phase::ProbingTarget, Task::StatRemote { path: entry })
    }
}

/// Upload: the remote path is an existing directory, or it is not.
pub open spec fn probed(st: State, is_dir: bool, cancelled: bool) -> (State, Move) {
    let entry = trimmed(st.given_remote);
    if is_dir {
        match last_name(st.given_local) {
            Some(name) => target_found(st, remote_joined(entry, name)),
            None => fail(st, Fault::InvalidRemotePath("无法读取本地文件名"@), cancelled),
        }
    } else {
        target_found(st, entry)
    }
}

/// Upload: the path of the remote file is known.
pub open spec fn target_found(st: State, path: Seq<char>) -> (State, Move) {
    let found = State { remote: path, parents: parent_directories(path), ..st };
    if path != st.given_remote {
        go(
            State { record: Checkpoint { remote_path: path, ..st.record }, ..found },
            Phase::SavingTarget,
            Task::SaveCheckpoint,
        )
    } else {
        check_parent(found, 0)
    }
}

/// Upload: see to the directories from `index` on.
pub open spec fn check_parent(st: State, index: int) -> (State, Move) {
    if index < st.parents.len() {
        go(
            st,
            Phase::CheckingParent { index: index as usize },
            Task::StatRemote { path: st.parents[index] },
        )
    } else {
        go(st, Phase::SizingTarget, Task::StatRemote { path: st.remote })
    }
}

/// Download: the remote file has been described.
pub open spec fn source_sized(st: State, stat: FileStat, cancelled: bool) -> (State, Move) {
    let size = stat.size.unwrap_or(0);
    if !stat.is_file {
        fail(st, Fault::RemoteNotAFile(st.remote), cancelled)
    } else if size == 0 {
        fail(st, Fault::InvalidRemotePath("远端文件为空"@), cancelled)
    } else {
        match name_of_remote(st.remote) {
            Err(fault) => fail(st, fault, cancelled),
            Ok(name) => match resolved_local(st.given_local, name) {
                Err(fault) => fail(st, fault, cancelled),
                Ok(local) => {
                    let found = State { local, size, mtime: stat.mtime, ..st };
                    match upper_path(local) {
                        Some(dir) => go(
                            found,
                            Phase::MakingLocalDir,
                            Task::MakeLocalDir { path: dir },
                        ),
                        None => source_found(found),
                    }
                },
            },
        }
    }
}

/// Download: all that the checkpoint says about the files is known.
pub open spec fn source_found(st: State) -> (State, Move) {
    let record = Checkpoint {
        file_size: st.size,
        remote_path: st.remote,
        local_path: st.local,
        mtime: st.mtime,
        ..st.record
    };
    go(State { record, ..st }, Phase::SavingSource, Task::SaveCheckpoint)
}

/// The size of the target is known: decide where to go on.
pub open spec fn sized(st: State, target_size: u64, cancelled: bool) -> (State, Move) {
    if target_size > st.size && !st.force {
        fail(st, Fault::TargetLarger { target: target_size, source: st.size }, cancelled)
    } else {
        let ready = State { force: false, ..st };
        match resume_plan(st.direction, target_size, st.force, st.record) {
            Resume::At { offset } => resume(ready, offset, cancelled),
            Resume::CutTo { offset } => go(
                ready,
                Phase::Truncating { offset },
                truncate_task(st, offset),
            ),
            Resume::Discard => if st.direction is Upload {
                go(ready, Phase::InspectingStale, Task::StatRemote { path: st.remote })
            } else {
                go(ready, Phase::RemovingStale, remove_task(st))
            },
        }
    }
}

/// Goes on at `offset`; what stands in front of it is compared first.
pub open spec fn resume(st: State, offset: u64, cancelled: bool) -> (State, Move) {
    if offset > 0 {
        let len = least(CHUNK_SIZE as int, offset as int);
        go(
            st,
            Phase::ComparingBoundary { offset },
            Task::ReadBoundary {
                local: st.local,
                remote: st.remote,
                start: (offset - len) as u64,
                len: len as u64,
            },
        )
    } else {
        begin(st, 0, cancelled)
    }
}

/// The progress made so far.
pub open spec fn progress(st: State, done: u64) -> News {
    News::Progress {
        done,
        total: st.size,
        status: moving_label(st.direction),
        retry_count: st.record.retry_count,
    }
}

/// How much counts as verified once chunks are moved from `offset` on. A fast
/// transfer compares none of them, so it sets what was verified aside and goes
/// by the whole chunks that it has moved.
pub open spec fn verified_from(st: State, offset: u64) -> u64 {
    if st.strict || offset >= st.size {
        least(st.record.verified as int, offset as int) as u64
    } else {
        0
    }
}

/// Starts to move chunks at `offset`. Only what was verified before counts as
/// verified.
pub open spec fn begin(st: State, offset: u64, cancelled: bool) -> (State, Move) {
    let record = Checkpoint {
        moved: offset,
        verified: verified_from(st, offset),
        ..st.record
    };
    let started = State { record, ..st };
    tell(
        progress(st, offset),
        if st.direction is Upload {
            go(
                started,
                Phase::OpeningSource { offset },
                Task::OpenLocal { path: st.local, offset },
            )
        } else {
            next_chunk(started, offset, cancelled)
        },
    )
}

/// Moves the chunk at `offset`, or looks at the result behind the last one.
pub open spec fn next_chunk(st: State, offset: u64, cancelled: bool) -> (State, Move) {
    if offset < st.size {
        if cancelled {
            fail(st, Fault::Cancelled, cancelled)
        } else {
            let len = least(CHUNK_SIZE as int, st.size - offset) as u64;
            go(
                st,
                Phase::CopyingChunk { offset, len },
                Task::CopyChunk {
                    local: st.local,
                    remote: st.remote,
                    offset,
                    len,
                    first: offset == 0,
                    mode: REMOTE_FILE_MODE,
                },
            )
        }
    } else if st.direction is Upload {
        go(st, Phase::SizingResult, Task::StatRemote { path: st.remote })
    } else {
        go(st, Phase::SizingResult, Task::SizeLocal { path: st.local })
    }
}

/// A chunk has arrived. It extends what is verified only if it was compared
/// and nothing in front of it is unverified.
pub open spec fn chunk_done(st: State, offset: u64, len: u64, compared: bool) -> (State, Move) {
    let end = (offset + len) as u64;
    let record = Checkpoint {
        moved: end,
        verified: if compared && st.record.verified == offset {
            end
        } else {
            st.record.verified
        },
        ..st.record
    };
    go(State { record, ..st }, Phase::SavingChunk { offset: end }, Task::SaveCheckpoint)
}

/// The target is complete: compare it as a whole.
pub open spec fn conclude(st: State, target_size: u64, cancelled: bool) -> (State, Move) {
    if target_size != st.size {
        fail(st, Fault::SizeMismatch { source: st.size, target: target_size }, cancelled)
    } else {
        tell(
            News::Progress {
                done: st.size,
                total: st.size,
                status: "verifying"@,
                retry_count: st.record.retry_count,
            },
            if cancelled {
                give_up(st, Fault::Cancelled)
            } else {
                go(st, Phase::HashingLocal, Task::HashLocal { path: st.local })
            },
        )
    }
}

/// The transfer has succeeded.
pub open spec fn complete(st: State) -> (State, Move) {
    let record = Checkpoint {
        moved: st.size,
        status: CheckpointStatus::Completed,
        ..st.record
    };
    tell(
        News::Progress {
            done: st.size,
            total: st.size,
            status: "completed"@,
            retry_count: st.record.retry_count,
        },
        finish(State { record, ..st }, Ok(())),
    )
}

/// What the transfer does next.
pub open spec fn step(st: State, reply: Reply, cancelled: bool) -> (State, Move) {
    match (st.phase, reply) {
        (Phase::Ready, _) => attempt(st, cancelled),
        (Phase::Connecting, Reply::ConnectFailed(fault)) => if cancelled {
            finish(st, Err(Fault::Cancelled))
        } else {
            retry(st, connect_message(st, fault))
        },
        (Phase::Connecting, _) => go(
            State { backoff: INITIAL_BACKOFF_MS, ..st },
            Phase::OpeningSftp,
            Task::OpenSftp,
        ),
        (Phase::Waiting { waited }, _) => if waited + NAP_MS < st.backoff {
            if cancelled {
                finish(st, Err(Fault::Cancelled))
            } else {
                go(
                    st,
                    Phase::Waiting { waited: (waited + NAP_MS) as u64 },
                    Task::Sleep { ms: NAP_MS },
                )
            }
        } else {
            attempt(
                State { backoff: doubled_backoff(st.backoff as int) as u64, ..st },
                cancelled,
            )
        },
        (Phase::OpeningSftp, Reply::Failed(e)) => fail(st, Fault::Sftp(e), cancelled),
        (Phase::OpeningSftp, _) => locate(st, cancelled),
        (Phase::ProbingTarget, Reply::Stat(stat)) => if stat.is_dir {
            probed(st, true, cancelled)
        } else if stat.is_file {
            probed(st, false, cancelled)
        } else {
            go(
                st,
                Phase::ProbingTargetDir,
                Task::OpenRemoteDir { path: trimmed(st.given_remote) },
            )
        },
        (Phase::ProbingTarget, _) => go(
            st,
            Phase::ProbingTargetDir,
            Task::OpenRemoteDir { path: trimmed(st.given_remote) },
        ),
        (Phase::ProbingTargetDir, reply) => probed(st, reply is Done, cancelled),
        (Phase::SavingTarget, Reply::Failed(e)) => fail(st, Fault::Sftp(e), cancelled),
        (Phase::SavingTarget, _) => check_parent(st, 0),
        (Phase::CheckingParent { index }, Reply::Failed(_)) => go(
            st,
            Phase::MakingParent { index },
            Task::MakeRemoteDir { path: st.parents[index as int], mode: REMOTE_DIR_MODE },
        ),
        (Phase::CheckingParent { index }, _) => check_parent(st, index + 1),
        (Phase::MakingParent { index }, Reply::Failed(e)) => parent_unmade(
            st,
            index as int,
            e,
            cancelled,
        ),
        (Phase::MakingParent { index }, _) => check_parent(st, index + 1),
        (Phase::SizingTarget, Reply::Stat(stat)) => sized(st, stat.size.unwrap_or(0), cancelled),
        (Phase::SizingTarget, _) => sized(st, 0, cancelled),
        (Phase::FindingSource, Reply::Stat(stat)) => if stat.is_dir {
            fail(
                st,
                Fault::RemoteNotAFile("请填写远端文件路径，不支持下载整个目录"@),
                cancelled,
            )
        } else {
            let path = trimmed(st.given_remote);
            go(State { remote: path, ..st }, Phase::SizingSource, Task::StatRemote { path })
        },
        (Phase::FindingSource, Reply::Failed(e)) => source_unseen(st, e, cancelled),
        (Phase::SizingSource, Reply::Stat(stat)) => source_sized(st, stat, cancelled),
        (Phase::SizingSource, Reply::Failed(e)) => fail(st, Fault::Sftp(e), cancelled),
        (Phase::MakingLocalDir, Reply::Failed(e)) => fail(st, Fault::LocalIo(e), cancelled),
        (Phase::MakingLocalDir, _) => source_found(st),
        (Phase::SavingSource, Reply::Failed(e)) => fail(st, Fault::Sftp(e), cancelled),
        (Phase::SavingSource, _) => go(
            st,
            Phase::SizingLocal,
            Task::SizeLocal { path: st.local },
        ),
        (Phase::SizingLocal, Reply::Size(size)) => sized(st, size, cancelled),
        (Phase::Truncating { .. }, Reply::Failed(e)) => fail(
            st,
            target_fault(st.direction, e),
            cancelled,
        ),
        (Phase::Truncating { offset }, _) => resume(st, offset, cancelled),
        (Phase::InspectingStale, Reply::Stat(stat)) => if stat.is_file {
            go(st, Phase::RemovingStale, remove_task(st))
        } else {
            resume(st, 0, cancelled)
        },
        (Phase::InspectingStale, _) => resume(st, 0, cancelled),
        (Phase::RemovingStale, _) => resume(st, 0, cancelled),
        (Phase::ComparingBoundary { offset }, Reply::Boundary { local, remote }) => if local
            == remote {
            begin(st, offset, cancelled)
        } else {
            fail(st, Fault::ResumeBoundaryMismatch { offset }, cancelled)
        },
        (Phase::OpeningSource { .. }, Reply::Failed(e)) => fail(st, Fault::LocalIo(e), cancelled),
        (Phase::OpeningSource { offset }, _) => next_chunk(st, offset, cancelled),
        (Phase::CopyingChunk { offset, len }, Reply::Done) => if st.strict {
            go(
                st,
                Phase::CheckingChunk { offset, len },
                Task::HashChunk { local: st.local, remote: st.remote, offset, len },
            )
        } else {
            chunk_done(st, offset, len, false)
        },
        (Phase::CheckingChunk { offset, len }, Reply::Digests { local, remote }) => if local
            == remote {
            chunk_done(st, offset, len, true)
        } else {
            go(st, Phase::RewindingChunk { offset, len }, truncate_task(st, offset))
        },
        (Phase::RewindingChunk { .. }, Reply::Failed(e)) => fail(
            st,
            target_fault(st.direction, e),
            cancelled,
        ),
        (Phase::RewindingChunk { offset, len }, _) => fail(
            st,
            Fault::ChunkVerifyMismatch { offset, len },
            cancelled,
        ),
        (Phase::SavingChunk { .. }, Reply::Failed(e)) => fail(st, Fault::Sftp(e), cancelled),
        (Phase::SavingChunk { offset }, _) => tell(
            progress(st, offset),
            next_chunk(st, offset, cancelled),
        ),
        (Phase::SizingResult, Reply::Stat(stat)) => conclude(
            st,
            stat.size.unwrap_or(0),
            cancelled,
        ),
        (Phase::SizingResult, Reply::Size(size)) => conclude(st, size, cancelled),
        (Phase::SizingResult, Reply::Failed(e)) => fail(st, Fault::Sftp(e), cancelled),
        (Phase::HashingLocal, Reply::Digest(digest)) => go(
            State { local_digest: digest, ..st },
            Phase::ReopeningSftp,
            Task::OpenSftp,
        ),
        (Phase::HashingLocal, Reply::LocalFailed(e)) => finish(st, Err(Fault::LocalIo(e))),
        (Phase::HashingLocal, _) => give_up(st, Fault::Cancelled),
        (Phase::ReopeningSftp, Reply::Failed(e)) => finish(st, Err(Fault::Sftp(e))),
        (Phase::ReopeningSftp, _) => go(
            st,
            Phase::HashingRemote,
            Task::HashRemote { path: st.remote, len: st.size },
        ),
        (Phase::HashingRemote, Reply::Digest(digest)) => if st.local_digest == digest {
            complete(st)
        } else {
            go(st, Phase::RemovingMismatch, remove_task(st))
        },
        (Phase::HashingRemote, Reply::RemoteFailed(e)) => {
            let record = Checkpoint {
                failure_reason: Some("verify_read_failed"@),
                status: CheckpointStatus::Failed,
                ..st.record
            };
            go(
                State { record, detail: e, ..st },
                Phase::SavingReadFailure,
                Task::SaveCheckpoint,
            )
        },
        (Phase::HashingRemote, _) => give_up(st, Fault::Cancelled),
        (Phase::SavingReadFailure, _) => finish(
            st,
            Err(Fault::Sftp(unread_message(st.direction, st.detail))),
        ),
        (Phase::RemovingMismatch, _) => {
            let record = Checkpoint {
                moved: 0,
                verified: 0,
                failure_reason: Some("hash_mismatch"@),
                status: CheckpointStatus::Failed,
                ..st.record
            };
            go(State { record, ..st }, Phase::SavingMismatch, Task::SaveCheckpoint)
        },
        (Phase::SavingMismatch, _) => finish(st, Err(Fault::HashMismatch)),
        (_, Reply::LocalFailed(e)) => fail(st, Fault::LocalIo(e), cancelled),
        (_, Reply::RemoteFailed(e)) => fail(st, Fault::Sftp(e), cancelled),
        _ => go(st, Phase::Finished, Task::Finish),
    }
}

/// The state in which an upload starts. `remote` is the resolved remote path.
pub open spec fn upload_start(
    local: Seq<char>,
    remote: Seq<char>,
    size: u64,
    force: bool,
    strict: bool,
    checkpoint: Checkpoint,
) -> State {
    State {
        direction: Direction::Upload,
        phase: Phase::Ready,
        record: Checkpoint {
            file_size: size,
            remote_path: remote,
            status: CheckpointStatus::InProgress,
            ..checkpoint
        },
        given_local: local,
        given_remote: remote,
        local,
        remote,
        size,
        mtime: None,
        strict,
        force,
        backoff: INITIAL_BACKOFF_MS,
        parents: Seq::empty(),
        local_digest: Seq::new(32, |i: int| 0u8),
        detail: Seq::empty(),
        outcome: None,
    }
}

/// The state in which a download starts. How large the file is, and where it
/// goes, is found out later.
pub open spec fn download_start(
    remote: Seq<char>,
    local: Seq<char>,
    force: bool,
    strict: bool,
    checkpoint: Checkpoint,
) -> State {
    State {
        direction: Direction::Download,
        phase: Phase::Ready,
        record: checkpoint,
        given_local: local,
        given_remote: remote,
        local,
        remote,
        size: 0,
        mtime: None,
        strict,
        force,
        backoff: INITIAL_BACKOFF_MS,
        parents: Seq::empty(),
        local_digest: Seq::new(32, |i: int| 0u8),
        detail: Seq::empty(),
        outcome: None,
    }
}

/// The chunk of `len` bytes at `offset` is the next one to arrive.
pub open spec fn chunk_due(st: State, offset: u64, len: u64) -> bool {
    &&& offset < st.size
    &&& len == least(CHUNK_SIZE as int, st.size - offset)
    &&& st.record.moved == offset
}

/// What holds in every state of a transfer.
pub open spec fn valid(st: State) -> bool {
    &&& INITIAL_BACKOFF_MS <= st.backoff <= MAX_BACKOFF_MS
    &&& st.phase is Finished <==> st.outcome is Some
    &&& st.direction is Upload ==> (st.outcome matches Some(Err(fault)) ==> upload_fault(fault))
    &&& match st.phase {
        Phase::Ready | Phase::Connecting | Phase::Finished => true,
        Phase::Waiting { waited } => waited < st.backoff,
        _ => st.backoff == INITIAL_BACKOFF_MS,
    }
    &&& match st.phase {
        Phase::ProbingTarget
        | Phase::ProbingTargetDir
        | Phase::SavingTarget
        | Phase::SizingTarget
        | Phase::InspectingStale => st.direction is Upload,
        Phase::CheckingParent { index } | Phase::MakingParent { index } => st.direction is Upload
            && index < st.parents.len(),
        Phase::OpeningSource { offset } => st.direction is Upload && st.record.moved == offset,
        Phase::FindingSource
        | Phase::SizingSource
        | Phase::MakingLocalDir
        | Phase::SavingSource
        | Phase::SizingLocal => st.direction is Download,
        Phase::CopyingChunk { offset, len } => chunk_due(st, offset, len),
        Phase::CheckingChunk { offset, len }
        | Phase::RewindingChunk { offset, len } => st.strict && chunk_due(st, offset, len),
        Phase::SavingChunk { offset } => st.record.moved == offset && offset <= st.size,
        Phase::SavingMismatch => st.record.moved == 0 && st.record.verified == 0
            && st.record.failure_reason == Some("hash_mismatch"@) && st.record.status is Failed,
        _ => true,
    }
}

/// What a transfer is told at one step.
pub struct Exchange {
    pub reply: Reply,
    pub cancelled: bool,
}

/// The state after one step.
#[verifier::opaque]
pub open spec fn advanced(st: State, told: Exchange) -> State {
    step(st, told.reply, told.cancelled).0
}

/// The state after a number of steps.
pub open spec fn run(start: State, events: Seq<Exchange>) -> State
    decreases events.len(),
{
    if events.len() == 0 {
        start
    } else {
        advanced(run(start, events.drop_last()), events.last())
    }
}

/// The state before step `i`.
pub open spec fn state_at(start: State, events: Seq<Exchange>, i: int) -> State {
    run(start, events.take(i))
}

/// Every reply answers what the transfer was waiting for.
pub open spec fn answered(start: State, events: Seq<Exchange>) -> bool {
    forall|i: int|
        0 <= i < events.len() ==> answers(
            (#[trigger] state_at(start, events, i)).direction,
            state_at(start, events, i).phase,
            events[i].reply,
        )
}

} // verus!
