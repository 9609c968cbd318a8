//! The transfer as a program: it is told what came of its last action, and
//! says what to do next.

use vstd::prelude::*;

use super::laws::steps_keep_valid;
use super::model::{
    self, answers, valid, FileStat, Move, News, Phase, Reply, Resume, State, Task,
};
use super::record::{effective_verified_bytes, TransferRecord};
use crate::checkpoint::{Checkpoint, CheckpointStatus, UploadCheckpoint};
use crate::chunk::{boundary_len, chunk_len, smaller};
use crate::download_checkpoint::DownloadCheckpoint;
use crate::hashing::same_digest;
use crate::number::decimal_text;
use crate::path::{file_name, parent};
use crate::retry::{next_backoff_ms, INITIAL_BACKOFF_MS, NAP_MS};
use crate::sftp::client::ConnectError;
use crate::sftp::download::{self, remote_file_name, resolve_local_path, DownloadError};
use crate::sftp::fault::{Direction, Fault, TransferError};
use crate::sftp::upload::{
    self, blames_path, format_remote_sftp_error, join_remote_path, list_parent_directories,
    resolve_remote_path, resolved_remote, UploadError, REMOTE_DIR_MODE, REMOTE_FILE_MODE,
};
use crate::text::{ends_with_char, same, texts, trim};

verus! {

/// What a transfer wants done.
#[derive(Debug)]
pub enum Action {
    Connect,
    Sleep { ms: u64 },
    OpenSftp,
    StatRemote { path: String },
    OpenRemoteDir { path: String },
    MakeRemoteDir { path: String, mode: i32 },
    MakeLocalDir { path: String },
    SizeLocal { path: String },
    SaveCheckpoint,
    TruncateRemote { path: String, size: u64 },
    TruncateLocal { path: String, size: u64 },
    RemoveRemote { path: String },
    RemoveLocal { path: String },
    /// Read the same range of both files.
    ReadBoundary { local: String, remote: String, start: u64, len: u64 },
    /// Open the local file at an offset.
    OpenLocal { path: String, offset: u64 },
    /// Copy a range from the source to the target. A remote file that is made
    /// gets the mode.
    CopyChunk { local: String, remote: String, offset: u64, len: u64, first: bool, mode: i32 },
    /// Hash the same range of both files.
    HashChunk { local: String, remote: String, offset: u64, len: u64 },
    /// Hash the whole local file.
    HashLocal { path: String },
    /// Hash the first `len` bytes of the remote file.
    HashRemote { path: String, len: u64 },
    Finish,
}

impl View for Action {
    type V = Task;

    open spec fn view(&self) -> Task {
        match *self {
            Action::Connect => Task::Connect,
            Action::Sleep { ms } => Task::Sleep { ms },
            Action::OpenSftp => Task::OpenSftp,
            Action::StatRemote { path } => Task::StatRemote { path: path@ },
            Action::OpenRemoteDir { path } => Task::OpenRemoteDir { path: path@ },
            Action::MakeRemoteDir { path, mode } => Task::MakeRemoteDir { path: path@, mode },
            Action::MakeLocalDir { path } => Task::MakeLocalDir { path: path@ },
            Action::SizeLocal { path } => Task::SizeLocal { path: path@ },
            Action::SaveCheckpoint => Task::SaveCheckpoint,
            Action::TruncateRemote { path, size } => Task::TruncateRemote { path: path@, size },
            Action::TruncateLocal { path, size } => Task::TruncateLocal { path: path@, size },
            Action::RemoveRemote { path } => Task::RemoveRemote { path: path@ },
            Action::RemoveLocal { path } => Task::RemoveLocal { path: path@ },
            Action::ReadBoundary { local, remote, start, len } => Task::ReadBoundary {
                local: local@,
                remote: remote@,
                start,
                len,
            },
            Action::OpenLocal { path, offset } => Task::OpenLocal { path: path@, offset },
            Action::CopyChunk { local, remote, offset, len, first, mode } => Task::CopyChunk {
                local: local@,
                remote: remote@,
                offset,
                len,
                first,
                mode,
            },
            Action::HashChunk { local, remote, offset, len } => Task::HashChunk {
                local: local@,
                remote: remote@,
                offset,
                len,
            },
            Action::HashLocal { path } => Task::HashLocal { path: path@ },
            Action::HashRemote { path, len } => Task::HashRemote { path: path@, len },
            Action::Finish => Task::Finish,
        }
    }
}

/// What came of an action.
#[derive(Debug)]
pub enum Event {
    /// The transfer may begin.
    Begin,
    /// The action has succeeded.
    Done,
    /// The action has failed.
    Failed(String),
    ConnectFailed(ConnectError),
    Stat(FileStat),
    Size(u64),
    /// The action has failed on this machine.
    LocalFailed(String),
    /// The action has failed on the server.
    RemoteFailed(String),
    Boundary { local: Vec<u8>, remote: Vec<u8> },
    Digests { local: [u8; 32], remote: [u8; 32] },
    Digest([u8; 32]),
    /// The user has cancelled while the action was going on.
    Interrupted,
}

impl View for Event {
    type V = Reply;

    open spec fn view(&self) -> Reply {
        match *self {
            Event::Begin => Reply::Begin,
            Event::Done => Reply::Done,
            Event::Failed(e) => Reply::Failed(e@),
            Event::ConnectFailed(e) => Reply::ConnectFailed(e@),
            Event::Stat(stat) => Reply::Stat(stat),
            Event::Size(size) => Reply::Size(size),
            Event::LocalFailed(e) => Reply::LocalFailed(e@),
            Event::RemoteFailed(e) => Reply::RemoteFailed(e@),
            Event::Boundary { local, remote } => Reply::Boundary {
                local: local@,
                remote: remote@,
            },
            Event::Digests { local, remote } => Reply::Digests { local: local@, remote: remote@ },
            Event::Digest(digest) => Reply::Digest(digest@),
            Event::Interrupted => Reply::Interrupted,
        }
    }
}

/// What the user is told.
#[derive(Debug)]
pub enum Notice {
    Progress { done: u64, total: u64, status: String, retry_count: u32 },
    Retry { retry_count: u32, delay_ms: u64, message: String },
}

impl View for Notice {
    type V = News;

    open spec fn view(&self) -> News {
        match *self {
            Notice::Progress { done, total, status, retry_count } => News::Progress {
                done,
                total,
                status: status@,
                retry_count,
            },
            Notice::Retry { retry_count, delay_ms, message } => News::Retry {
                retry_count,
                delay_ms,
                message: message@,
            },
        }
    }
}

/// One step: what to tell the user, and what to do then.
#[derive(Debug)]
pub struct Step {
    pub notice: Option<Notice>,
    pub action: Action,
}

impl View for Step {
    type V = Move;

    open spec fn view(&self) -> Move {
        Move {
            news: match self.notice {
                Some(notice) => Some(notice@),
                None => None,
            },
            task: self.action@,
        }
    }
}

/// What is done with a target before the transfer goes on.
#[derive(Debug, Clone, Copy)]
pub enum ResumePlan {
    At { offset: u64 },
    CutTo { offset: u64 },
    Discard,
}

impl View for ResumePlan {
    type V = Resume;

    open spec fn view(&self) -> Resume {
        match *self {
            ResumePlan::At { offset } => Resume::At { offset },
            ResumePlan::CutTo { offset } => Resume::CutTo { offset },
            ResumePlan::Discard => Resume::Discard,
        }
    }
}

/// Decides where a transfer goes on that finds `target_size` bytes in place.
pub fn resolve_resume_offset(
    direction: Direction,
    target_size: u64,
    force_overwrite: bool,
    record: &TransferRecord,
) -> (r: ResumePlan)
    ensures
        r@ == model::resume_plan(direction, target_size, force_overwrite, record@),
{
    if force_overwrite {
        if direction == Direction::Download || target_size > 0 {
            return ResumePlan::Discard;
        }
        return ResumePlan::At { offset: 0 };
    }
    let trusted = effective_verified_bytes(record);
    if trusted > 0 {
        if target_size > trusted {
            return ResumePlan::CutTo { offset: trusted };
        }
        return ResumePlan::At { offset: trusted };
    }
    if target_size > 0 {
        return ResumePlan::Discard;
    }
    ResumePlan::At { offset: 0 }
}

/// Whether an error is one that no repetition will cure.
fn is_permanent(direction: Direction, message: &str, moved: u64) -> (r: bool)
    ensures
        r == model::permanent(direction, message@),
{
    match direction {
        Direction::Upload => upload::is_permanent_sftp_error(message, moved),
        Direction::Download => download::is_permanent_sftp_error(message, moved),
    }
}

/// Whether two byte strings are equal.
fn same_bytes(a: &Vec<u8>, b: &Vec<u8>) -> (r: bool)
    ensures
        r == (a@ == b@),
{
    if a.len() != b.len() {
        return false;
    }
    let mut i: usize = 0;
    while i < a.len()
        invariant
            i <= a@.len(),
            a@.len() == b@.len(),
            forall|k: int| 0 <= k < i ==> a@[k] == b@[k],
        decreases a@.len() - i,
    {
        if a[i] != b[i] {
            return false;
        }
        i = i + 1;
    }
    proof {
        assert(a@ =~= b@);
    }
    true
}

/// A transfer that is going on.
#[derive(Debug)]
pub struct Transfer {
    direction: Direction,
    phase: Phase,
    record: TransferRecord,
    given_local: String,
    given_remote: String,
    local: String,
    remote: String,
    size: u64,
    mtime: Option<u64>,
    strict: bool,
    force: bool,
    backoff: u64,
    parents: Vec<String>,
    local_digest: [u8; 32],
    detail: String,
    outcome: Option<Result<(), TransferError>>,
}

impl View for Transfer {
    type V = State;

    closed spec fn view(&self) -> State {
        State {
            direction: self.direction,
            phase: self.phase,
            record: self.record@,
            given_local: self.given_local@,
            given_remote: self.given_remote@,
            local: self.local@,
            remote: self.remote@,
            size: self.size,
            mtime: self.mtime,
            strict: self.strict,
            force: self.force,
            backoff: self.backoff,
            parents: texts(self.parents@),
            local_digest: self.local_digest@,
            detail: self.detail@,
            outcome: match self.outcome {
                None => None,
                Some(Ok(_)) => Some(Ok(())),
                Some(Err(e)) => Some(Err(e@)),
            },
        }
    }
}

impl Transfer {
    fn go(&mut self, phase: Phase, action: Action) -> (r: Step)
        ensures
            (final(self)@, r@) == model::go(old(self)@, phase, action@),
    {
        self.phase = phase;
        Step { notice: None, action }
    }

    fn finish(&mut self, outcome: Result<(), TransferError>) -> (r: Step)
        ensures
            (final(self)@, r@) == model::finish(
                old(self)@,
                match outcome {
                    Ok(_) => Ok(()),
                    Err(e) => Err(e@),
                },
            ),
    {
        self.outcome = Some(outcome);
        self.go(Phase::Finished, Action::Finish)
    }

    fn give_up(&mut self, error: TransferError) -> (r: Step)
        ensures
            (final(self)@, r@) == model::give_up(old(self)@, error@),
    {
        self.record.status = CheckpointStatus::Failed;
        self.finish(Err(error))
    }

    fn attempt(&mut self, cancelled: bool) -> (r: Step)
        ensures
            (final(self)@, r@) == model::attempt(old(self)@, cancelled),
    {
        if cancelled {
            self.give_up(TransferError::Cancelled)
        } else {
            self.go(Phase::Connecting, Action::Connect)
        }
    }

    /// Counts one more repetition.
    fn increment_retry_count(&mut self) -> (r: u32)
        ensures
            r == model::counted(old(self)@.record.retry_count),
            final(self)@ == (State {
                record: Checkpoint { retry_count: r, ..old(self)@.record },
                ..old(self)@
            }),
    {
        if self.record.retry_count < u32::MAX {
            self.record.retry_count = self.record.retry_count + 1;
        }
        self.record.retry_count
    }

    fn retry(&mut self, message: String) -> (r: Step)
        ensures
            (final(self)@, r@) == model::retry(old(self)@, message@),
    {
        let retry_count = self.increment_retry_count();
        let step = self.go(Phase::Waiting { waited: 0 }, Action::Sleep { ms: NAP_MS });
        Step {
            notice: Some(Notice::Retry { retry_count, delay_ms: self.backoff, message }),
            action: step.action,
        }
    }

    fn break_off(&mut self, error: TransferError, cancelled: bool) -> (r: Step)
        ensures
            (final(self)@, r@) == model::break_off(old(self)@, error@, cancelled),
    {
        if cancelled {
            return self.finish(Err(TransferError::Cancelled));
        }
        let detail = error.message(self.direction);
        let delay = decimal_text(self.backoff as u128);
        let message = "传输中断（".to_owned().concat(detail.as_str()).concat("），").concat(
            delay.as_str(),
        ).concat("ms 后重连续传");
        self.retry(message)
    }

    fn meet(&mut self, error: TransferError, hopeless: bool, cancelled: bool) -> (r: Step)
        ensures
            (final(self)@, r@) == model::meet(old(self)@, error@, hopeless, cancelled),
    {
        if hopeless && !cancelled {
            self.give_up(error)
        } else {
            self.break_off(error, cancelled)
        }
    }

    fn fail(&mut self, error: TransferError, cancelled: bool) -> (r: Step)
        ensures
            (final(self)@, r@) == model::fail(old(self)@, error@, cancelled),
    {
        match &error {
            TransferError::Sftp(message) => {
                let hopeless = is_permanent(
                    self.direction,
                    message.as_str(),
                    self.record.moved_bytes,
                );
                self.meet(error, hopeless, cancelled)
            },
            TransferError::Connect(_) => self.meet(error, false, cancelled),
            TransferError::ChunkVerifyMismatch { .. } => self.meet(error, false, cancelled),
            _ => self.give_up(error),
        }
    }

    fn connect_failed(&mut self, error: ConnectError, cancelled: bool) -> (r: Step)
        requires
            old(self)@.phase is Connecting,
        ensures
            (final(self)@, r@) == model::step(old(self)@, Reply::ConnectFailed(error@), cancelled),
    {
        if cancelled {
            return self.finish(Err(TransferError::Cancelled));
        }
        let delay = decimal_text(self.backoff as u128);
        let reason = error.message();
        let message = if self.direction == Direction::Upload && self.record.moved_bytes > 0 {
            let moved = decimal_text(self.record.moved_bytes as u128);
            "连接失败（已传 ".to_owned().concat(moved.as_str()).concat(" 字节），").concat(
                delay.as_str(),
            ).concat("ms 后重连续传: ").concat(reason.as_str())
        } else {
            "连接失败，".to_owned().concat(delay.as_str()).concat("ms 后重试: ").concat(
                reason.as_str(),
            )
        };
        self.retry(message)
    }

    fn target_error(&self, message: String) -> (r: TransferError)
        ensures
            r@ == model::target_fault(self@.direction, message@),
    {
        match self.direction {
            Direction::Upload => TransferError::Sftp(message),
            Direction::Download => TransferError::LocalIo(message),
        }
    }

    fn truncate_action(&self, size: u64) -> (r: Action)
        ensures
            r@ == model::truncate_task(self@, size),
    {
        match self.direction {
            Direction::Upload => Action::TruncateRemote { path: self.remote.clone(), size },
            Direction::Download => Action::TruncateLocal { path: self.local.clone(), size },
        }
    }

    fn remove_action(&self) -> (r: Action)
        ensures
            r@ == model::remove_task(self@),
    {
        match self.direction {
            Direction::Upload => Action::RemoveRemote { path: self.remote.clone() },
            Direction::Download => Action::RemoveLocal { path: self.local.clone() },
        }
    }

    fn locate(&mut self, cancelled: bool) -> (r: Step)
        ensures
            (final(self)@, r@) == model::locate(old(self)@, cancelled),
    {
        let entry = trim(self.given_remote.as_str()).to_owned();
        if entry.as_str().is_empty() {
            return self.fail(
                TransferError::InvalidRemotePath("远端路径不能为空".to_owned()),
                cancelled,
            );
        }
        if self.direction == Direction::Download {
            return self.go(Phase::FindingSource, Action::StatRemote { path: entry });
        }
        if ends_with_char(entry.as_str(), '/') {
            return match file_name(self.given_local.as_str()) {
                Some(name) => {
                    let path = entry.concat(name);
                    self.target_found(path)
                },
                None => self.fail(
                    TransferError::InvalidRemotePath("无法读取本地文件名".to_owned()),
                    cancelled,
                ),
            };
        }
        self.go(Phase::ProbingTarget, Action::StatRemote { path: entry })
    }

    fn probe_dir(&mut self) -> (r: Step)
        ensures
            (final(self)@, r@) == model::go(
                old(self)@,
                Phase::ProbingTargetDir,
                Task::OpenRemoteDir { path: crate::text::trimmed(old(self)@.given_remote) },
            ),
    {
        let path = trim(self.given_remote.as_str()).to_owned();
        self.go(Phase::ProbingTargetDir, Action::OpenRemoteDir { path })
    }

    fn probed(&mut self, is_dir: bool, cancelled: bool) -> (r: Step)
        ensures
            (final(self)@, r@) == model::probed(old(self)@, is_dir, cancelled),
    {
        let entry = trim(self.given_remote.as_str()).to_owned();
        if is_dir {
            match file_name(self.given_local.as_str()) {
                Some(name) => {
                    let path = join_remote_path(entry.as_str(), name);
                    self.target_found(path)
                },
                None => self.fail(
                    TransferError::InvalidRemotePath("无法读取本地文件名".to_owned()),
                    cancelled,
                ),
            }
        } else {
            self.target_found(entry)
        }
    }

    fn target_found(&mut self, path: String) -> (r: Step)
        ensures
            (final(self)@, r@) == model::target_found(old(self)@, path@),
    {
        self.parents = list_parent_directories(path.as_str());
        self.remote = path.clone();
        if !same(path.as_str(), self.given_remote.as_str()) {
            self.record.remote_path = path;
            self.go(Phase::SavingTarget, Action::SaveCheckpoint)
        } else {
            self.check_parent(0)
        }
    }

    fn check_parent(&mut self, index: usize) -> (r: Step)
        ensures
            (final(self)@, r@) == model::check_parent(old(self)@, index as int),
    {
        if index < self.parents.len() {
            let path = self.parents[index].clone();
            self.go(Phase::CheckingParent { index }, Action::StatRemote { path })
        } else {
            let path = self.remote.clone();
            self.go(Phase::SizingTarget, Action::StatRemote { path })
        }
    }

    fn check_next_parent(&mut self, index: usize) -> (r: Step)
        requires
            index < old(self)@.parents.len(),
        ensures
            (final(self)@, r@) == model::check_parent(old(self)@, index + 1),
    {
        let count: usize = self.parents.len();
        if index < count - 1 {
            self.check_parent(index + 1)
        } else {
            self.check_parent(count)
        }
    }

    fn source_sized(&mut self, stat: FileStat, cancelled: bool) -> (r: Step)
        ensures
            (final(self)@, r@) == model::source_sized(old(self)@, stat, cancelled),
    {
        let size: u64 = stat.size.unwrap_or(0);
        if !stat.is_file {
            let path = self.remote.clone();
            return self.fail(TransferError::RemoteNotAFile(path), cancelled);
        }
        if size == 0 {
            return self.fail(
                TransferError::InvalidRemotePath("远端文件为空".to_owned()),
                cancelled,
            );
        }
        let name = match remote_file_name(self.remote.as_str()) {
            Ok(name) => name,
            Err(e) => {
                let error = e.to_transfer();
                return self.fail(error, cancelled);
            },
        };
        let local = match resolve_local_path(self.given_local.as_str(), name.as_str()) {
            Ok(local) => local,
            Err(e) => {
                let error = e.to_transfer();
                return self.fail(error, cancelled);
            },
        };
        self.size = size;
        self.mtime = stat.mtime;
        let dir = match parent(local.as_str()) {
            Some(dir) => Some(dir.to_owned()),
            None => None,
        };
        self.local = local;
        match dir {
            Some(path) => self.go(Phase::MakingLocalDir, Action::MakeLocalDir { path }),
            None => self.source_found(),
        }
    }

    fn source_found(&mut self) -> (r: Step)
        ensures
            (final(self)@, r@) == model::source_found(old(self)@),
    {
        self.record.file_size = self.size;
        self.record.remote_path = self.remote.clone();
        self.record.local_path = self.local.clone();
        self.record.mtime = self.mtime;
        self.go(Phase::SavingSource, Action::SaveCheckpoint)
    }

    fn sized(&mut self, target_size: u64, cancelled: bool) -> (r: Step)
        ensures
            (final(self)@, r@) == model::sized(old(self)@, target_size, cancelled),
    {
        if target_size > self.size && !self.force {
            let source = self.size;
            return self.fail(
                TransferError::TargetLarger { target: target_size, source },
                cancelled,
            );
        }
        let plan = resolve_resume_offset(self.direction, target_size, self.force, &self.record);
        self.force = false;
        match plan {
            ResumePlan::At { offset } => self.resume(offset, cancelled),
            ResumePlan::CutTo { offset } => {
                let action = self.truncate_action(offset);
                self.go(Phase::Truncating { offset }, action)
            },
            ResumePlan::Discard => {
                if self.direction == Direction::Upload {
                    let path = self.remote.clone();
                    self.go(Phase::InspectingStale, Action::StatRemote { path })
                } else {
                    let action = self.remove_action();
                    self.go(Phase::RemovingStale, action)
                }
            },
        }
    }

    fn resume(&mut self, offset: u64, cancelled: bool) -> (r: Step)
        ensures
            (final(self)@, r@) == model::resume(old(self)@, offset, cancelled),
    {
        if offset > 0 {
            let len = boundary_len(offset);
            let local = self.local.clone();
            let remote = self.remote.clone();
            self.go(
                Phase::ComparingBoundary { offset },
                Action::ReadBoundary { local, remote, start: offset - len, len },
            )
        } else {
            self.begin(0, cancelled)
        }
    }

    /// The progress of moving chunks, at `done` bytes.
    pub fn progress(&self, done: u64) -> (r: Notice)
        ensures
            r@ == model::progress(self@, done),
    {
        let status = match self.direction {
            Direction::Upload => "uploading".to_owned(),
            Direction::Download => "downloading".to_owned(),
        };
        Notice::Progress {
            done,
            total: self.size,
            status,
            retry_count: self.record.retry_count,
        }
    }

    fn begin(&mut self, offset: u64, cancelled: bool) -> (r: Step)
        ensures
            (final(self)@, r@) == model::begin(old(self)@, offset, cancelled),
    {
        let notice = self.progress(offset);
        self.record.moved_bytes = offset;
        self.record.verified_bytes = if self.strict || offset >= self.size {
            smaller(self.record.verified_bytes, offset)
        } else {
            0
        };
        let step = if self.direction == Direction::Upload {
            let path = self.local.clone();
            self.go(Phase::OpeningSource { offset }, Action::OpenLocal { path, offset })
        } else {
            self.next_chunk(offset, cancelled)
        };
        Step { notice: Some(notice), action: step.action }
    }

    fn next_chunk(&mut self, offset: u64, cancelled: bool) -> (r: Step)
        ensures
            (final(self)@, r@) == model::next_chunk(old(self)@, offset, cancelled),
    {
        if offset < self.size {
            if cancelled {
                return self.fail(TransferError::Cancelled, cancelled);
            }
            let len = chunk_len(offset, self.size);
            let local = self.local.clone();
            let remote = self.remote.clone();
            self.go(
                Phase::CopyingChunk { offset, len },
                Action::CopyChunk {
                    local,
                    remote,
                    offset,
                    len,
                    first: offset == 0,
                    mode: REMOTE_FILE_MODE,
                },
            )
        } else if self.direction == Direction::Upload {
            let path = self.remote.clone();
            self.go(Phase::SizingResult, Action::StatRemote { path })
        } else {
            let path = self.local.clone();
            self.go(Phase::SizingResult, Action::SizeLocal { path })
        }
    }

    fn chunk_done(&mut self, offset: u64, len: u64, compared: bool) -> (r: Step)
        requires
            offset + len <= u64::MAX,
        ensures
            (final(self)@, r@) == model::chunk_done(old(self)@, offset, len, compared),
    {
        let end: u64 = offset + len;
        self.record.moved_bytes = end;
        if compared && self.record.verified_bytes == offset {
            self.record.verified_bytes = end;
        }
        self.go(Phase::SavingChunk { offset: end }, Action::SaveCheckpoint)
    }

    fn conclude(&mut self, target_size: u64, cancelled: bool) -> (r: Step)
        ensures
            (final(self)@, r@) == model::conclude(old(self)@, target_size, cancelled),
    {
        if target_size != self.size {
            let source = self.size;
            return self.fail(
                TransferError::SizeMismatch { source, target: target_size },
                cancelled,
            );
        }
        let notice = Notice::Progress {
            done: self.size,
            total: self.size,
            status: "verifying".to_owned(),
            retry_count: self.record.retry_count,
        };
        let step = if cancelled {
            self.give_up(TransferError::Cancelled)
        } else {
            let path = self.local.clone();
            self.go(Phase::HashingLocal, Action::HashLocal { path })
        };
        Step { notice: Some(notice), action: step.action }
    }

    fn complete(&mut self) -> (r: Step)
        ensures
            (final(self)@, r@) == model::complete(old(self)@),
    {
        let notice = Notice::Progress {
            done: self.size,
            total: self.size,
            status: "completed".to_owned(),
            retry_count: self.record.retry_count,
        };
        self.record.moved_bytes = self.size;
        self.record.status = CheckpointStatus::Completed;
        let step = self.finish(Ok(()));
        Step { notice: Some(notice), action: step.action }
    }

    fn saved_chunk(&mut self, offset: u64, cancelled: bool) -> (r: Step)
        ensures
            (final(self)@, r@) == model::tell(
                model::progress(old(self)@, offset),
                model::next_chunk(old(self)@, offset, cancelled),
            ),
    {
        let notice = self.progress(offset);
        let step = self.next_chunk(offset, cancelled);
        Step { notice: Some(notice), action: step.action }
    }

    fn make_parent(&mut self, index: usize) -> (r: Step)
        requires
            index < old(self)@.parents.len(),
        ensures
            (final(self)@, r@) == model::go(
                old(self)@,
                Phase::MakingParent { index },
                Task::MakeRemoteDir {
                    path: old(self)@.parents[index as int],
                    mode: REMOTE_DIR_MODE,
                },
            ),
    {
        let path = self.parents[index].clone();
        self.go(Phase::MakingParent { index }, Action::MakeRemoteDir { path, mode: REMOTE_DIR_MODE })
    }

    fn parent_unmade(&mut self, index: usize, error: String, cancelled: bool) -> (r: Step)
        requires
            index < old(self)@.parents.len(),
        ensures
            (final(self)@, r@) == model::parent_unmade(
                old(self)@,
                index as int,
                error@,
                cancelled,
            ),
    {
        let raw = "创建远端目录「".to_owned().concat(self.parents[index].as_str()).concat(
            "」失败: ",
        ).concat(error.as_str());
        let message = format_remote_sftp_error(raw.as_str(), self.remote.as_str());
        let hopeless = is_permanent(self.direction, error.as_str(), self.record.moved_bytes)
            || blames_path(error.as_str());
        self.meet(TransferError::Sftp(message), hopeless, cancelled)
    }

    fn source_unseen(&mut self, error: String, cancelled: bool) -> (r: Step)
        ensures
            (final(self)@, r@) == model::source_unseen(old(self)@, error@, cancelled),
    {
        if is_permanent(self.direction, error.as_str(), self.record.moved_bytes) {
            let message = "远端文件不存在: ".to_owned().concat(trim(self.given_remote.as_str()));
            self.fail(TransferError::InvalidRemotePath(message), cancelled)
        } else {
            self.fail(TransferError::Sftp(error), cancelled)
        }
    }

    fn source_seen(&mut self) -> (r: Step)
        ensures
            ({
                let path = crate::text::trimmed(old(self)@.given_remote);
                (final(self)@, r@) == model::go(
                    State { remote: path, ..old(self)@ },
                    Phase::SizingSource,
                    Task::StatRemote { path },
                )
            }),
    {
        let path = trim(self.given_remote.as_str()).to_owned();
        self.remote = path.clone();
        self.go(Phase::SizingSource, Action::StatRemote { path })
    }

    fn unread(&mut self, error: String) -> (r: Step)
        requires
            old(self)@.phase is HashingRemote,
        ensures
            (final(self)@, r@) == model::step(old(self)@, Reply::RemoteFailed(error@), false),
            (final(self)@, r@) == model::step(old(self)@, Reply::RemoteFailed(error@), true),
    {
        self.record.failure_reason = Some("verify_read_failed".to_owned());
        self.record.status = CheckpointStatus::Failed;
        self.detail = error;
        self.go(Phase::SavingReadFailure, Action::SaveCheckpoint)
    }

    fn unread_saved(&mut self) -> (r: Step)
        ensures
            (final(self)@, r@) == model::finish(
                old(self)@,
                Err(Fault::Sftp(model::unread_message(old(self)@.direction, old(self)@.detail))),
            ),
    {
        let message = match self.direction {
            Direction::Upload => "传完后校验时读取远端失败（弱网常见），数据块已全部校验通过，可点「开始上传」仅重试校验: ".to_owned(),
            Direction::Download => "传完后校验时读取远端失败，可点「开始下载」重试校验: ".to_owned(),
        }.concat(self.detail.as_str());
        self.finish(Err(TransferError::Sftp(message)))
    }

    fn mismatch(&mut self) -> (r: Step)
        requires
            old(self)@.phase is RemovingMismatch,
        ensures
            (final(self)@, r@) == model::step(old(self)@, Reply::Done, false),
    {
        self.record.moved_bytes = 0;
        self.record.verified_bytes = 0;
        self.record.failure_reason = Some("hash_mismatch".to_owned());
        self.record.status = CheckpointStatus::Failed;
        self.go(Phase::SavingMismatch, Action::SaveCheckpoint)
    }

    /// What holds of every transfer.
    pub open spec fn wf(&self) -> bool {
        valid(self@)
    }

    /// Whether an event answers what the transfer is waiting for.
    pub fn accepts(&self, event: &Event) -> (r: bool)
        ensures
            r == answers(self@.direction, self@.phase, event@),
    {
        let done_or_failed = match event {
            Event::Done | Event::Failed(_) => true,
            _ => false,
        };
        let stat_or_failed = match event {
            Event::Stat(_) | Event::Failed(_) => true,
            _ => false,
        };
        let size = match event {
            Event::Size(_) => true,
            _ => false,
        };
        let side_failed = match event {
            Event::LocalFailed(_) | Event::RemoteFailed(_) => true,
            _ => false,
        };
        match self.phase {
            Phase::Ready => match event {
                Event::Begin => true,
                _ => false,
            },
            Phase::Connecting => match event {
                Event::Done | Event::ConnectFailed(_) => true,
                _ => false,
            },
            Phase::Waiting { .. } => match event {
                Event::Done => true,
                _ => false,
            },
            Phase::ProbingTarget
            | Phase::CheckingParent { .. }
            | Phase::SizingTarget
            | Phase::FindingSource
            | Phase::SizingSource
            | Phase::InspectingStale => stat_or_failed,
            Phase::OpeningSftp
            | Phase::ProbingTargetDir
            | Phase::SavingTarget
            | Phase::MakingParent { .. }
            | Phase::MakingLocalDir
            | Phase::SavingSource
            | Phase::Truncating { .. }
            | Phase::RemovingStale
            | Phase::OpeningSource { .. }
            | Phase::RewindingChunk { .. }
            | Phase::SavingChunk { .. }
            | Phase::ReopeningSftp
            | Phase::SavingReadFailure
            | Phase::RemovingMismatch
            | Phase::SavingMismatch => done_or_failed,
            Phase::SizingLocal => size,
            Phase::ComparingBoundary { .. } => match event {
                Event::Boundary { .. } => true,
                _ => side_failed,
            },
            Phase::CopyingChunk { .. } => match event {
                Event::Done => true,
                _ => side_failed,
            },
            Phase::CheckingChunk { .. } => match event {
                Event::Digests { .. } => true,
                _ => side_failed,
            },
            Phase::SizingResult => if self.direction == Direction::Upload {
                stat_or_failed
            } else {
                size
            },
            Phase::HashingLocal => match event {
                Event::Digest(_) | Event::LocalFailed(_) | Event::Interrupted => true,
                _ => false,
            },
            Phase::HashingRemote => match event {
                Event::Digest(_) | Event::RemoteFailed(_) | Event::Interrupted => true,
                _ => false,
            },
            Phase::Finished => false,
        }
    }

    /// Takes in what came of the last action, and says what to do next.
    #[verifier::rlimit(60)]
    pub fn step(&mut self, event: Event, cancelled: bool) -> (r: Step)
        requires
            old(self).wf(),
            answers(old(self)@.direction, old(self)@.phase, event@),
        ensures
            (final(self)@, r@) == model::step(old(self)@, event@, cancelled),
            final(self).wf(),
    {
        proof {
            steps_keep_valid(self@, event@, cancelled);
        }
        match (self.phase, event) {
            (Phase::Ready, _) => self.attempt(cancelled),
            (Phase::Connecting, Event::ConnectFailed(error)) => self.connect_failed(
                error,
                cancelled,
            ),
            (Phase::Connecting, _) => {
                self.backoff = INITIAL_BACKOFF_MS;
                self.go(Phase::OpeningSftp, Action::OpenSftp)
            },
            (Phase::Waiting { waited }, _) => {
                if waited + NAP_MS < self.backoff {
                    if cancelled {
                        self.finish(Err(TransferError::Cancelled))
                    } else {
                        self.go(
                            Phase::Waiting { waited: waited + NAP_MS },
                            Action::Sleep { ms: NAP_MS },
                        )
                    }
                } else {
                    self.backoff = next_backoff_ms(self.backoff);
                    self.attempt(cancelled)
                }
            },
            (Phase::OpeningSftp, Event::Failed(e)) => self.fail(TransferError::Sftp(e), cancelled),
            (Phase::OpeningSftp, _) => self.locate(cancelled),
            (Phase::ProbingTarget, Event::Stat(stat)) => {
                if stat.is_dir {
                    self.probed(true, cancelled)
                } else if stat.is_file {
                    self.probed(false, cancelled)
                } else {
                    self.probe_dir()
                }
            },
            (Phase::ProbingTarget, _) => self.probe_dir(),
            (Phase::ProbingTargetDir, Event::Done) => self.probed(true, cancelled),
            (Phase::ProbingTargetDir, _) => self.probed(false, cancelled),
            (Phase::SavingTarget, Event::Failed(e)) => self.fail(TransferError::Sftp(e), cancelled),
            (Phase::SavingTarget, _) => self.check_parent(0),
            (Phase::CheckingParent { index }, Event::Failed(_)) => self.make_parent(index),
            (Phase::CheckingParent { index }, _) => self.check_next_parent(index),
            (Phase::MakingParent { index }, Event::Failed(e)) => self.parent_unmade(
                index,
                e,
                cancelled,
            ),
            (Phase::MakingParent { index }, _) => self.check_next_parent(index),
            (Phase::SizingTarget, Event::Stat(stat)) => self.sized(
                stat.size.unwrap_or(0),
                cancelled,
            ),
            (Phase::SizingTarget, _) => self.sized(0, cancelled),
            (Phase::FindingSource, Event::Stat(stat)) => {
                if stat.is_dir {
                    self.fail(
                        TransferError::RemoteNotAFile(
                            "请填写远端文件路径，不支持下载整个目录".to_owned(),
                        ),
                        cancelled,
                    )
                } else {
                    self.source_seen()
                }
            },
            (Phase::FindingSource, Event::Failed(e)) => self.source_unseen(e, cancelled),
            (Phase::SizingSource, Event::Stat(stat)) => self.source_sized(stat, cancelled),
            (Phase::SizingSource, Event::Failed(e)) => self.fail(TransferError::Sftp(e), cancelled),
            (Phase::MakingLocalDir, Event::Failed(e)) => self.fail(
                TransferError::LocalIo(e),
                cancelled,
            ),
            (Phase::MakingLocalDir, _) => self.source_found(),
            (Phase::SavingSource, Event::Failed(e)) => self.fail(TransferError::Sftp(e), cancelled),
            (Phase::SavingSource, _) => {
                let path = self.local.clone();
                self.go(Phase::SizingLocal, Action::SizeLocal { path })
            },
            (Phase::SizingLocal, Event::Size(size)) => self.sized(size, cancelled),
            (Phase::Truncating { .. }, Event::Failed(e)) => {
                let error = self.target_error(e);
                self.fail(error, cancelled)
            },
            (Phase::Truncating { offset }, _) => self.resume(offset, cancelled),
            (Phase::InspectingStale, Event::Stat(stat)) => {
                if stat.is_file {
                    let action = self.remove_action();
                    self.go(Phase::RemovingStale, action)
                } else {
                    self.resume(0, cancelled)
                }
            },
            (Phase::InspectingStale, _) => self.resume(0, cancelled),
            (Phase::RemovingStale, _) => self.resume(0, cancelled),
            (Phase::ComparingBoundary { offset }, Event::Boundary { local, remote }) => {
                if same_bytes(&local, &remote) {
                    self.begin(offset, cancelled)
                } else {
                    self.fail(TransferError::ResumeBoundaryMismatch { offset }, cancelled)
                }
            },
            (Phase::OpeningSource { .. }, Event::Failed(e)) => self.fail(
                TransferError::LocalIo(e),
                cancelled,
            ),
            (Phase::OpeningSource { offset }, _) => self.next_chunk(offset, cancelled),
            (Phase::CopyingChunk { offset, len }, Event::Done) => {
                if self.strict {
                    let local = self.local.clone();
                    let remote = self.remote.clone();
                    self.go(
                        Phase::CheckingChunk { offset, len },
                        Action::HashChunk { local, remote, offset, len },
                    )
                } else {
                    self.chunk_done(offset, len, false)
                }
            },
            (Phase::CheckingChunk { offset, len }, Event::Digests { local, remote }) => {
                if same_digest(&local, &remote) {
                    self.chunk_done(offset, len, true)
                } else {
                    let action = self.truncate_action(offset);
                    self.go(Phase::RewindingChunk { offset, len }, action)
                }
            },
            (Phase::RewindingChunk { .. }, Event::Failed(e)) => {
                let error = self.target_error(e);
                self.fail(error, cancelled)
            },
            (Phase::RewindingChunk { offset, len }, _) => self.fail(
                TransferError::ChunkVerifyMismatch { offset, len },
                cancelled,
            ),
            (Phase::SavingChunk { .. }, Event::Failed(e)) => self.fail(
                TransferError::Sftp(e),
                cancelled,
            ),
            (Phase::SavingChunk { offset }, _) => self.saved_chunk(offset, cancelled),
            (Phase::SizingResult, Event::Stat(stat)) => self.conclude(
                stat.size.unwrap_or(0),
                cancelled,
            ),
            (Phase::SizingResult, Event::Size(size)) => self.conclude(size, cancelled),
            (Phase::SizingResult, Event::Failed(e)) => self.fail(TransferError::Sftp(e), cancelled),
            (Phase::HashingLocal, Event::Digest(digest)) => {
                self.local_digest = digest;
                self.go(Phase::ReopeningSftp, Action::OpenSftp)
            },
            (Phase::HashingLocal, Event::LocalFailed(e)) => self.finish(
                Err(TransferError::LocalIo(e)),
            ),
            (Phase::HashingLocal, _) => self.give_up(TransferError::Cancelled),
            (Phase::ReopeningSftp, Event::Failed(e)) => self.finish(Err(TransferError::Sftp(e))),
            (Phase::ReopeningSftp, _) => {
                let len: u64 = self.size;
                let path = self.remote.clone();
                self.go(Phase::HashingRemote, Action::HashRemote { path, len })
            },
            (Phase::HashingRemote, Event::Digest(digest)) => {
                if same_digest(&self.local_digest, &digest) {
                    self.complete()
                } else {
                    let action = self.remove_action();
                    self.go(Phase::RemovingMismatch, action)
                }
            },
            (Phase::HashingRemote, Event::RemoteFailed(e)) => self.unread(e),
            (Phase::HashingRemote, _) => self.give_up(TransferError::Cancelled),
            (Phase::SavingReadFailure, _) => self.unread_saved(),
            (Phase::RemovingMismatch, _) => self.mismatch(),
            (Phase::SavingMismatch, _) => self.finish(Err(TransferError::HashMismatch)),
            (_, Event::LocalFailed(e)) => self.fail(TransferError::LocalIo(e), cancelled),
            (_, Event::RemoteFailed(e)) => self.fail(TransferError::Sftp(e), cancelled),
            _ => self.go(Phase::Finished, Action::Finish),
        }
    }

    /// Which way the file travels.
    pub fn direction(&self) -> (r: Direction)
        ensures
            r == self@.direction,
    {
        self.direction
    }

    /// The checkpoint as it stands.
    pub fn record(&self) -> (r: &TransferRecord)
        ensures
            r@ == self@.record,
    {
        &self.record
    }

    /// How often the transfer has been taken up again.
    pub fn current_retry_count(&self) -> (r: u32)
        ensures
            r == self@.record.retry_count,
    {
        self.record.retry_count
    }

    /// The path of the local file.
    pub fn local_path(&self) -> (r: &str)
        ensures
            r@ == self@.local,
    {
        self.local.as_str()
    }

    /// The path of the remote file.
    pub fn remote_path(&self) -> (r: &str)
        ensures
            r@ == self@.remote,
    {
        self.remote.as_str()
    }

    /// Whether every chunk is compared after it was moved.
    pub fn is_strict(&self) -> (r: bool)
        ensures
            r == self@.strict,
    {
        self.strict
    }

    /// How an upload ended; nothing while it goes on.
    pub fn upload_outcome(&self) -> (r: Option<Result<(), UploadError>>)
        requires
            self.wf(),
            self@.direction is Upload,
        ensures
            match r {
                None => self@.outcome is None,
                Some(Ok(_)) => self@.outcome == Some(Ok::<(), Fault>(())),
                Some(Err(e)) => self@.outcome == Some(Err::<(), Fault>(e@)),
            },
    {
        match &self.outcome {
            None => None,
            Some(Ok(_)) => Some(Ok(())),
            Some(Err(e)) => {
                let error = e.copy();
                Some(Err(UploadError::from_transfer(error)))
            },
        }
    }

    /// How a download ended; nothing while it goes on.
    pub fn download_outcome(&self) -> (r: Option<Result<(), DownloadError>>)
        ensures
            match r {
                None => self@.outcome is None,
                Some(Ok(_)) => self@.outcome == Some(Ok::<(), Fault>(())),
                Some(Err(e)) => self@.outcome == Some(Err::<(), Fault>(e@)),
            },
    {
        match &self.outcome {
            None => None,
            Some(Ok(_)) => Some(Ok(())),
            Some(Err(e)) => {
                let error = e.copy();
                Some(Err(DownloadError::from_transfer(error)))
            },
        }
    }
}

/// Sets up an upload. `local_size` is what the local file's size was found to
/// be, or why it could not be found.
pub fn upload_with_resume(
    local_path: &str,
    remote_path: &str,
    local_size: Result<u64, String>,
    force_overwrite: bool,
    strict_chunk_verify: bool,
    checkpoint: UploadCheckpoint,
) -> (r: Result<Transfer, UploadError>)
    ensures
        match (resolved_remote(remote_path@, local_path@), local_size) {
            (Err(fault), _) => r matches Err(e) && e@ == fault,
            (Ok(_), Err(message)) => r matches Err(e) && e@ == Fault::LocalIo(message@),
            (Ok(remote), Ok(size)) => r matches Ok(transfer) && transfer.wf() && transfer@
                == model::upload_start(
                local_path@,
                remote,
                size,
                force_overwrite,
                strict_chunk_verify,
                checkpoint@,
            ),
        },
{
    let remote = match resolve_remote_path(remote_path, local_path) {
        Ok(remote) => remote,
        Err(e) => return Err(e),
    };
    let size: u64 = match local_size {
        Ok(size) => size,
        Err(message) => return Err(UploadError::LocalIo(message)),
    };
    let mut record = TransferRecord::from_upload(checkpoint);
    record.file_size = size;
    record.remote_path = remote.clone();
    record.status = CheckpointStatus::InProgress;
    let transfer = Transfer {
        direction: Direction::Upload,
        phase: Phase::Ready,
        record,
        given_local: local_path.to_owned(),
        given_remote: remote.clone(),
        local: local_path.to_owned(),
        remote,
        size,
        mtime: None,
        strict: strict_chunk_verify,
        force: force_overwrite,
        backoff: INITIAL_BACKOFF_MS,
        parents: Vec::new(),
        local_digest: [0u8; 32],
        detail: String::new(),
        outcome: None,
    };
    proof {
        let start = model::upload_start(
            local_path@,
            transfer@.remote,
            size,
            force_overwrite,
            strict_chunk_verify,
            checkpoint@,
        );
        assert(transfer@.parents =~= start.parents);
        assert(transfer@.local_digest =~= start.local_digest);
        assert(transfer@.detail =~= start.detail);
    }
    Ok(transfer)
}

/// Sets up a download.
pub fn download_with_resume(
    remote_path: &str,
    local_path: &str,
    force_overwrite: bool,
    strict_chunk_verify: bool,
    checkpoint: DownloadCheckpoint,
) -> (r: Transfer)
    ensures
        r.wf(),
        r@ == model::download_start(
            remote_path@,
            local_path@,
            force_overwrite,
            strict_chunk_verify,
            checkpoint@,
        ),
{
    let transfer = Transfer {
        direction: Direction::Download,
        phase: Phase::Ready,
        record: TransferRecord::from_download(checkpoint),
        given_local: local_path.to_owned(),
        given_remote: remote_path.to_owned(),
        local: local_path.to_owned(),
        remote: remote_path.to_owned(),
        size: 0,
        mtime: None,
        strict: strict_chunk_verify,
        force: force_overwrite,
        backoff: INITIAL_BACKOFF_MS,
        parents: Vec::new(),
        local_digest: [0u8; 32],
        detail: String::new(),
        outcome: None,
    };
    proof {
        let start = model::download_start(
            remote_path@,
            local_path@,
            force_overwrite,
            strict_chunk_verify,
            checkpoint@,
        );
        assert(transfer@.parents =~= start.parents);
        assert(transfer@.local_digest =~= start.local_digest);
        assert(transfer@.detail =~= start.detail);
    }
    transfer
}

} // verus!
