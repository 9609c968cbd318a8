//! The course of a transfer, step by step: what it asks for while it waits for
//! something, what leads to what, and what a step leaves as it was.

use vstd::prelude::*;

use super::model::{
    answers, download_start, step, upload_start, valid, News, Phase, Reply, State, Task,
};
use crate::checkpoint::Checkpoint;
use crate::chunk::CHUNK_SIZE;
use crate::number::decimal;
use crate::path::upper_path;
use crate::sftp::client::connect_text;
use crate::sftp::fault::{fault_text, Fault};
use crate::sftp::upload::sftp_error_text;
use crate::text::{mentions, mentions_stand_inside, trimmed};

verus! {

/// Cuts the file that is written to a size.
pub open spec fn cuts_target(st: State, task: Task, size: u64) -> bool {
    task == if st.direction is Upload {
        Task::TruncateRemote { path: st.remote, size }
    } else {
        Task::TruncateLocal { path: st.local, size }
    }
}

/// Removes the file that is written.
pub open spec fn removes_target(st: State, task: Task) -> bool {
    task == if st.direction is Upload {
        Task::RemoveRemote { path: st.remote }
    } else {
        Task::RemoveLocal { path: st.local }
    }
}

/// What a transfer asks for is what it then waits for.
pub open spec fn asks(st: State, task: Task) -> bool {
    match st.phase {
        Phase::Ready => false,
        Phase::Connecting => task is Connect,
        Phase::Waiting { .. } => task == (Task::Sleep { ms: 200 }),
        Phase::OpeningSftp | Phase::ReopeningSftp => task is OpenSftp,
        Phase::ProbingTarget | Phase::FindingSource => task == (Task::StatRemote {
            path: trimmed(st.given_remote),
        }),
        Phase::ProbingTargetDir => task == (Task::OpenRemoteDir {
            path: trimmed(st.given_remote),
        }),
        Phase::SavingTarget
        | Phase::SavingSource
        | Phase::SavingChunk { .. }
        | Phase::SavingReadFailure
        | Phase::SavingMismatch => task is SaveCheckpoint,
        Phase::CheckingParent { index } => st.parents.len() <= usize::MAX ==> task == (
        Task::StatRemote { path: st.parents[index as int] }),
        Phase::MakingParent { index } => task == (Task::MakeRemoteDir {
            path: st.parents[index as int],
            mode: 0o755,
        }),
        Phase::SizingTarget | Phase::SizingSource | Phase::InspectingStale => task == (
        Task::StatRemote { path: st.remote }),
        Phase::MakingLocalDir => upper_path(st.local) is Some && task == (Task::MakeLocalDir {
            path: upper_path(st.local).unwrap(),
        }),
        Phase::SizingLocal => task == (Task::SizeLocal { path: st.local }),
        Phase::Truncating { offset } | Phase::RewindingChunk { offset, .. } => cuts_target(
            st,
            task,
            offset,
        ),
        Phase::RemovingStale | Phase::RemovingMismatch => removes_target(st, task),
        Phase::ComparingBoundary { offset } => {
            &&& task is ReadBoundary
            &&& task->ReadBoundary_local == st.local
            &&& task->ReadBoundary_remote == st.remote
            &&& task->ReadBoundary_start + task->ReadBoundary_len == offset
            &&& task->ReadBoundary_len == if offset < CHUNK_SIZE {
                offset
            } else {
                CHUNK_SIZE
            }
        },
        Phase::OpeningSource { offset } => task == (Task::OpenLocal { path: st.local, offset }),
        Phase::CopyingChunk { offset, len } => task == (Task::CopyChunk {
            local: st.local,
            remote: st.remote,
            offset,
            len,
            first: offset == 0,
            mode: 0o644,
        }),
        Phase::CheckingChunk { offset, len } => task == (Task::HashChunk {
            local: st.local,
            remote: st.remote,
            offset,
            len,
        }),
        Phase::SizingResult => task == if st.direction is Upload {
            Task::StatRemote { path: st.remote }
        } else {
            Task::SizeLocal { path: st.local }
        },
        Phase::HashingLocal => task == (Task::HashLocal { path: st.local }),
        Phase::HashingRemote => task == (Task::HashRemote { path: st.remote, len: st.size }),
        Phase::Finished => task is Finish,
    }
}

/// The size that a reply tells of the file that is written.
pub open spec fn told_size(reply: Reply) -> int {
    match reply {
        Reply::Stat(stat) => match stat.size {
            Some(size) => size as int,
            None => 0,
        },
        Reply::Size(size) => size as int,
        _ => 0,
    }
}

/// The bytes in front of a place were read on both sides and are equal.
pub open spec fn equal_boundary(reply: Reply) -> bool {
    reply is Boundary && reply->Boundary_local == reply->Boundary_remote
}

/// What leads to the phases in which a transfer gets ready to move chunks.
pub open spec fn led_up(st: State, reply: Reply, cancelled: bool, next: State) -> bool {
    match next.phase {
        Phase::Ready => false,
        Phase::Connecting => !cancelled && (st.phase is Ready || st.phase is Waiting),
        Phase::OpeningSftp => st.phase is Connecting && reply is Done && next.backoff == 1_000,
        Phase::ProbingTarget => st.phase is OpeningSftp && reply is Done
            && st.direction is Upload,
        Phase::ProbingTargetDir => st.phase is ProbingTarget && (reply is Failed || (
        !reply->Stat_0.is_dir && !reply->Stat_0.is_file)),
        Phase::SavingTarget => {
            &&& st.phase is OpeningSftp || st.phase is ProbingTarget || st.phase is ProbingTargetDir
            &&& next.record.remote_path == next.remote
        },
        Phase::CheckingParent { index } => {
            ||| next.parents.len() > usize::MAX
            ||| index == 0 && (st.phase is OpeningSftp || st.phase is ProbingTarget
                || st.phase is ProbingTargetDir || (st.phase is SavingTarget && reply is Done))
            ||| index > 0 && st.phase == (Phase::CheckingParent { index: (index - 1) as usize })
                && reply is Stat
            ||| index > 0 && st.phase == (Phase::MakingParent { index: (index - 1) as usize })
                && reply is Done
        },
        Phase::MakingParent { index } => st.phase == (Phase::CheckingParent { index })
            && reply is Failed,
        Phase::SizingTarget => {
            ||| next.parents.len() == 0 || next.parents.len() > usize::MAX
            ||| st.phase == (Phase::CheckingParent { index: (st.parents.len() - 1) as usize })
                && reply is Stat
            ||| st.phase == (Phase::MakingParent { index: (st.parents.len() - 1) as usize })
                && reply is Done
        },
        Phase::FindingSource => st.phase is OpeningSftp && reply is Done
            && st.direction is Download,
        Phase::SizingSource => st.phase is FindingSource && reply is Stat && !reply->Stat_0.is_dir
            && next.remote == trimmed(st.given_remote),
        Phase::MakingLocalDir => st.phase is SizingSource && reply is Stat
            && reply->Stat_0.is_file && next.size == told_size(reply) && next.size > 0
            && next.mtime == reply->Stat_0.mtime,
        Phase::SavingSource => {
            &&& st.phase is SizingSource || (st.phase is MakingLocalDir && reply is Done)
            &&& next.record.file_size == next.size
            &&& next.record.local_path == next.local
            &&& next.record.remote_path == next.remote
            &&& next.record.mtime == next.mtime
        },
        Phase::SizingLocal => st.phase is SavingSource && reply is Done,
        Phase::Truncating { offset } => {
            &&& st.phase is SizingTarget || st.phase is SizingLocal
            &&& !st.force && offset < told_size(reply) <= st.size
        },
        Phase::InspectingStale => st.phase is SizingTarget,
        Phase::RemovingStale => {
            ||| st.direction is Upload && st.phase is InspectingStale && reply is Stat
                && reply->Stat_0.is_file
            ||| st.direction is Download && st.phase is SizingLocal
        },
        Phase::ComparingBoundary { offset } => {
            &&& offset > 0
            &&& st.phase is SizingTarget || st.phase is SizingLocal || (st.phase
                == (Phase::Truncating { offset }) && reply is Done)
        },
        _ => true,
    }
}

/// What leads to the phases in which a transfer moves chunks and compares the
/// result.
pub open spec fn led_on(st: State, reply: Reply, cancelled: bool, next: State) -> bool {
    match next.phase {
        Phase::OpeningSource { offset } => {
            &&& st.direction is Upload
            &&& next.record.moved == offset
            &&& offset > 0 ==> st.phase == (Phase::ComparingBoundary { offset }) && equal_boundary(
                reply,
            )
        },
        Phase::CopyingChunk { offset, len } => {
            &&& !cancelled
            &&& offset < next.size
            &&& len == if next.size - offset < CHUNK_SIZE {
                next.size - offset
            } else {
                CHUNK_SIZE as int
            }
            &&& next.record.moved == offset
            &&& {
                ||| st.phase == (Phase::OpeningSource { offset }) && reply is Done
                ||| st.phase == (Phase::SavingChunk { offset }) && reply is Done
                ||| st.direction is Download && st.phase == (Phase::ComparingBoundary { offset })
                    && equal_boundary(reply)
                ||| st.direction is Download && offset == 0
            }
        },
        Phase::CheckingChunk { offset, len } => st.strict && st.phase == (Phase::CopyingChunk {
            offset,
            len,
        }) && reply is Done,
        Phase::RewindingChunk { offset, len } => st.phase == (Phase::CheckingChunk { offset, len })
            && reply is Digests && reply->Digests_local != reply->Digests_remote,
        Phase::SavingChunk { offset } => {
            &&& next.record.moved == offset
            &&& {
                ||| st.phase is CopyingChunk && !st.strict && reply is Done && offset
                    == st.phase->CopyingChunk_offset + st.phase->CopyingChunk_len
                ||| st.phase is CheckingChunk && reply is Digests && reply->Digests_local
                    == reply->Digests_remote && offset == st.phase->CheckingChunk_offset
                    + st.phase->CheckingChunk_len
            }
        },
        Phase::SizingResult => {
            &&& next.record.moved >= next.size
            &&& st.phase is SavingChunk || st.phase is OpeningSource
                || st.phase is ComparingBoundary || next.size == 0
        },
        Phase::HashingLocal => !cancelled && st.phase is SizingResult && told_size(reply)
            == st.size && !(reply is Failed),
        Phase::ReopeningSftp => st.phase is HashingLocal && reply is Digest && next.local_digest
            == reply->Digest_0,
        Phase::HashingRemote => st.phase is ReopeningSftp && reply is Done && next.local_digest
            == st.local_digest,
        Phase::SavingReadFailure => st.phase is HashingRemote && reply is RemoteFailed
            && next.detail == reply->RemoteFailed_0 && next.record.failure_reason == Some(
            "verify_read_failed"@,
        ) && next.record.status is Failed && next.record.moved == st.record.moved
            && next.record.verified == st.record.verified,
        Phase::RemovingMismatch => st.phase is HashingRemote && reply is Digest && reply->Digest_0
            != st.local_digest,
        Phase::SavingMismatch => st.phase is RemovingMismatch && next.record.moved == 0
            && next.record.verified == 0 && next.record.failure_reason == Some("hash_mismatch"@)
            && next.record.status is Failed,
        _ => true,
    }
}

/// A step from `st` to `next` has left alone what it has no business with.
pub open spec fn left_alone(st: State, next: State) -> bool {
    &&& next.direction == st.direction
    &&& next.strict == st.strict
    &&& next.given_local == st.given_local
    &&& next.given_remote == st.given_remote
    &&& next.force ==> st.force
    &&& next.record.host == st.record.host
    &&& next.record.port == st.record.port
    &&& next.record.username == st.record.username
    &&& next.record.auth_kind == st.record.auth_kind
    &&& next.record.key_path == st.record.key_path
    &&& next.local != st.local || next.size != st.size ==> st.phase is SizingSource
    &&& next.remote != st.remote ==> st.phase is OpeningSftp || st.phase is ProbingTarget
        || st.phase is ProbingTargetDir || st.phase is FindingSource
    &&& next.record.local_path != st.record.local_path || next.record.file_size
        != st.record.file_size || next.record.mtime != st.record.mtime
        ==> next.phase is SavingSource
    &&& next.record.remote_path != st.record.remote_path ==> next.phase is SavingSource
        || next.phase is SavingTarget
    &&& next.record.failure_reason != st.record.failure_reason
        ==> next.phase is SavingReadFailure || next.phase is SavingMismatch
    &&& next.record.status != st.record.status ==> next.phase is SavingReadFailure
        || next.phase is SavingMismatch || next.phase is Finished
    &&& next.record.status is Completed && !(st.record.status is Completed)
        <==> next.outcome == Some(Ok::<(), Fault>(())) && !(st.record.status is Completed)
}

#[verifier::opaque]
spec fn in_course(st: State, reply: Reply, cancelled: bool) -> bool {
    let (next, then) = step(st, reply, cancelled);
    &&& asks(next, then.task)
    &&& led_up(st, reply, cancelled, next)
    &&& led_on(st, reply, cancelled, next)
    &&& left_alone(st, next)
}

#[verifier::rlimit(60)]
proof fn lemma_connecting(st: State, reply: Reply, cancelled: bool)
    requires
        valid(st),
        answers(st.direction, st.phase, reply),
        st.phase is Ready || st.phase is Connecting || st.phase is Waiting,
    ensures
        in_course(st, reply, cancelled),
{
    reveal(in_course);
}

#[verifier::rlimit(60)]
proof fn lemma_opening(st: State, reply: Reply, cancelled: bool)
    requires
        valid(st),
        answers(st.direction, st.phase, reply),
        st.phase is OpeningSftp,
    ensures
        in_course(st, reply, cancelled),
{
    reveal(in_course);
}

#[verifier::rlimit(60)]
proof fn lemma_probing(st: State, reply: Reply, cancelled: bool)
    requires
        valid(st),
        answers(st.direction, st.phase, reply),
        st.phase is ProbingTarget || st.phase is ProbingTargetDir,
    ensures
        in_course(st, reply, cancelled),
{
    reveal(in_course);
}

#[verifier::rlimit(60)]
proof fn lemma_parents(st: State, reply: Reply, cancelled: bool)
    requires
        valid(st),
        answers(st.direction, st.phase, reply),
        st.phase is SavingTarget || st.phase is CheckingParent || st.phase is MakingParent,
    ensures
        in_course(st, reply, cancelled),
{
    reveal(in_course);
}

#[verifier::rlimit(60)]
proof fn lemma_finding(st: State, reply: Reply, cancelled: bool)
    requires
        valid(st),
        answers(st.direction, st.phase, reply),
        st.phase is FindingSource || st.phase is MakingLocalDir || st.phase is SavingSource,
    ensures
        in_course(st, reply, cancelled),
{
    reveal(in_course);
}

#[verifier::rlimit(60)]
proof fn lemma_sizing_source(st: State, reply: Reply, cancelled: bool)
    requires
        valid(st),
        answers(st.direction, st.phase, reply),
        st.phase is SizingSource,
    ensures
        in_course(st, reply, cancelled),
{
    reveal(in_course);
}

#[verifier::rlimit(60)]
proof fn lemma_sizing(st: State, reply: Reply, cancelled: bool)
    requires
        valid(st),
        answers(st.direction, st.phase, reply),
        st.phase is SizingTarget || st.phase is SizingLocal,
    ensures
        in_course(st, reply, cancelled),
{
    reveal(in_course);
}

#[verifier::rlimit(60)]
proof fn lemma_clearing(st: State, reply: Reply, cancelled: bool)
    requires
        valid(st),
        answers(st.direction, st.phase, reply),
        st.phase is Truncating || st.phase is InspectingStale || st.phase is RemovingStale,
    ensures
        in_course(st, reply, cancelled),
{
    reveal(in_course);
}

#[verifier::rlimit(60)]
proof fn lemma_comparing(st: State, reply: Reply, cancelled: bool)
    requires
        valid(st),
        answers(st.direction, st.phase, reply),
        st.phase is ComparingBoundary,
    ensures
        in_course(st, reply, cancelled),
{
    reveal(in_course);
}

#[verifier::rlimit(60)]
proof fn lemma_moving(st: State, reply: Reply, cancelled: bool)
    requires
        valid(st),
        answers(st.direction, st.phase, reply),
        st.phase is OpeningSource || st.phase is SavingChunk,
    ensures
        in_course(st, reply, cancelled),
{
    reveal(in_course);
}

#[verifier::rlimit(60)]
proof fn lemma_copying(st: State, reply: Reply, cancelled: bool)
    requires
        valid(st),
        answers(st.direction, st.phase, reply),
        st.phase is CopyingChunk || st.phase is CheckingChunk || st.phase is RewindingChunk,
    ensures
        in_course(st, reply, cancelled),
{
    reveal(in_course);
}

#[verifier::rlimit(60)]
proof fn lemma_concluding(st: State, reply: Reply, cancelled: bool)
    requires
        valid(st),
        answers(st.direction, st.phase, reply),
        st.phase is SizingResult || st.phase is HashingLocal || st.phase is ReopeningSftp,
    ensures
        in_course(st, reply, cancelled),
{
    reveal(in_course);
}

#[verifier::rlimit(60)]
proof fn lemma_ending(st: State, reply: Reply, cancelled: bool)
    requires
        valid(st),
        answers(st.direction, st.phase, reply),
        st.phase is HashingRemote || st.phase is SavingReadFailure || st.phase is RemovingMismatch
            || st.phase is SavingMismatch,
    ensures
        in_course(st, reply, cancelled),
{
    reveal(in_course);
}

proof fn lemma_in_course(st: State, reply: Reply, cancelled: bool)
    requires
        valid(st),
        answers(st.direction, st.phase, reply),
    ensures
        in_course(st, reply, cancelled),
{
    match st.phase {
        Phase::Ready | Phase::Connecting | Phase::Waiting { .. } => lemma_connecting(
            st,
            reply,
            cancelled,
        ),
        Phase::OpeningSftp => lemma_opening(st, reply, cancelled),
        Phase::ProbingTarget | Phase::ProbingTargetDir => lemma_probing(st, reply, cancelled),
        Phase::SavingTarget | Phase::CheckingParent { .. } | Phase::MakingParent {
            ..
        } => lemma_parents(st, reply, cancelled),
        Phase::FindingSource | Phase::MakingLocalDir | Phase::SavingSource => lemma_finding(
            st,
            reply,
            cancelled,
        ),
        Phase::SizingSource => lemma_sizing_source(st, reply, cancelled),
        Phase::SizingTarget | Phase::SizingLocal => lemma_sizing(st, reply, cancelled),
        Phase::Truncating { .. } | Phase::InspectingStale | Phase::RemovingStale => lemma_clearing(
            st,
            reply,
            cancelled,
        ),
        Phase::ComparingBoundary { .. } => lemma_comparing(st, reply, cancelled),
        Phase::OpeningSource { .. } | Phase::SavingChunk { .. } => lemma_moving(
            st,
            reply,
            cancelled,
        ),
        Phase::CopyingChunk { .. } | Phase::CheckingChunk { .. } | Phase::RewindingChunk {
            ..
        } => lemma_copying(st, reply, cancelled),
        Phase::SizingResult | Phase::HashingLocal | Phase::ReopeningSftp => lemma_concluding(
            st,
            reply,
            cancelled,
        ),
        Phase::HashingRemote
        | Phase::SavingReadFailure
        | Phase::RemovingMismatch
        | Phase::SavingMismatch => lemma_ending(st, reply, cancelled),
        Phase::Finished => {},
    }
}

/// Every step asks for exactly what the transfer waits for next, on the files of
/// the transfer.
pub proof fn transfers_ask_for_what_they_wait_for(st: State, reply: Reply, cancelled: bool)
    requires
        valid(st),
        answers(st.direction, st.phase, reply),
    ensures
        asks(step(st, reply, cancelled).0, step(st, reply, cancelled).1.task),
{
    lemma_in_course(st, reply, cancelled);
    assert(in_course(st, reply, cancelled));
    reveal(in_course);
}

/// A transfer gets ready to move chunks in this order, and in no other: it
/// connects, finds the two files, makes the directories that are missing one
/// after the other, saves what it has found, looks at how much is in place, cuts
/// or removes what cannot be kept, and compares the bytes in front of the place
/// where it goes on.
pub proof fn transfers_get_ready_in_order(st: State, reply: Reply, cancelled: bool)
    requires
        valid(st),
        answers(st.direction, st.phase, reply),
    ensures
        led_up(st, reply, cancelled, step(st, reply, cancelled).0),
{
    lemma_in_course(st, reply, cancelled);
    assert(in_course(st, reply, cancelled));
    reveal(in_course);
}

/// A transfer moves chunks in this order, and in no other: a chunk is copied,
/// compared if the transfer is strict, and cut off again if it differs, or else
/// saved; behind the last one the size is looked at, and then the whole files are
/// hashed, first the local one, then the remote one.
pub proof fn transfers_move_chunks_in_order(st: State, reply: Reply, cancelled: bool)
    requires
        valid(st),
        answers(st.direction, st.phase, reply),
    ensures
        led_on(st, reply, cancelled, step(st, reply, cancelled).0),
{
    lemma_in_course(st, reply, cancelled);
    assert(in_course(st, reply, cancelled));
    reveal(in_course);
}

/// No step changes which way a transfer goes, its mode, or the paths that it was
/// started with, nor of its checkpoint the server, the user and the login. The
/// files and their sizes change only where they are found.
pub proof fn steps_leave_the_rest_alone(st: State, reply: Reply, cancelled: bool)
    requires
        valid(st),
        answers(st.direction, st.phase, reply),
    ensures
        left_alone(st, step(st, reply, cancelled).0),
{
    lemma_in_course(st, reply, cancelled);
    assert(in_course(st, reply, cancelled));
    reveal(in_course);
}

/// A repetition is counted once, is announced with the count and the waiting
/// time, and its message holds what the server or the network reported.
#[verifier::rlimit(100)]
pub proof fn repetitions_are_announced(st: State, reply: Reply, cancelled: bool)
    requires
        valid(st),
        answers(st.direction, st.phase, reply),
        step(st, reply, cancelled).1.news matches Some(News::Retry { .. }),
    ensures
        ({
            let (next, then) = step(st, reply, cancelled);
            let news = then.news.unwrap();
            &&& !cancelled
            &&& next.record.retry_count == if st.record.retry_count < u32::MAX {
                st.record.retry_count + 1
            } else {
                st.record.retry_count as int
            }
            &&& news->Retry_retry_count == next.record.retry_count
            &&& news->Retry_delay_ms == st.backoff
            &&& mentions(news->Retry_message, decimal(st.backoff as nat))
            &&& reply matches Reply::ConnectFailed(fault) ==> mentions(
                news->Retry_message,
                connect_text(fault),
            )
            &&& reply matches Reply::RemoteFailed(m) ==> mentions(news->Retry_message, m)
        }),
{
    let wait = decimal(st.backoff as nat);
    let message = step(st, reply, cancelled).1.news.unwrap()->Retry_message;
    if let Reply::ConnectFailed(fault) = reply {
        let text = connect_text(fault);
        let nothing = Seq::<char>::empty();
        let moved = decimal(st.record.moved as nat);
        let long = "连接失败（已传 "@ + moved + " 字节），"@;
        lemma_inside(long, wait, "ms 后重连续传: "@ + text);
        lemma_inside(long + wait + "ms 后重连续传: "@, text, nothing);
        lemma_inside("连接失败，"@, wait, "ms 后重试: "@ + text);
        lemma_inside("连接失败，"@ + wait + "ms 后重试: "@, text, nothing);
        if st.direction is Upload && st.record.moved > 0 {
            assert(message =~= long + wait + ("ms 后重连续传: "@ + text));
            assert(message =~= long + wait + "ms 后重连续传: "@ + text + nothing);
        } else {
            assert(message =~= "连接失败，"@ + wait + ("ms 后重试: "@ + text));
            assert(message =~= "连接失败，"@ + wait + "ms 后重试: "@ + text + nothing);
        }
    } else {
        lemma_broken(st, reply, cancelled);
        let detail = choose|detail: Seq<char>|
            message == #[trigger] broken(detail, st.backoff) && (reply matches Reply::RemoteFailed(
                m,
            ) ==> detail == fault_text(st.direction, Fault::Sftp(m)));
        lemma_inside("传输中断（"@ + detail + "），"@, wait, "ms 后重连续传"@);
        if let Reply::RemoteFailed(m) = reply {
            let front = "传输中断（"@ + "SFTP 错误: "@;
            let back = "），"@ + wait + "ms 后重连续传"@;
            lemma_inside(front, m, back);
            assert(message =~= front + m + back);
        }
    }
}

spec fn broken(detail: Seq<char>, backoff: u64) -> Seq<char> {
    "传输中断（"@ + detail + "），"@ + decimal(backoff as nat) + "ms 后重连续传"@
}

#[verifier::rlimit(100)]
proof fn lemma_broken(st: State, reply: Reply, cancelled: bool)
    requires
        valid(st),
        answers(st.direction, st.phase, reply),
        !(reply is ConnectFailed),
        step(st, reply, cancelled).1.news matches Some(News::Retry { .. }),
    ensures
        exists|detail: Seq<char>|
            step(st, reply, cancelled).1.news.unwrap()->Retry_message == #[trigger] broken(
                detail,
                st.backoff,
            ) && (reply matches Reply::RemoteFailed(m) ==> detail == fault_text(
                st.direction,
                Fault::Sftp(m),
            )),
{
    match (st.phase, reply) {
        (_, Reply::RemoteFailed(m)) => {
            assert(step(st, reply, cancelled).1.news.unwrap()->Retry_message == broken(
                fault_text(st.direction, Fault::Sftp(m)),
                st.backoff,
            ));
        },
        (Phase::RewindingChunk { offset, len }, Reply::Done) => {
            assert(step(st, reply, cancelled).1.news.unwrap()->Retry_message == broken(
                fault_text(st.direction, Fault::ChunkVerifyMismatch { offset, len }),
                st.backoff,
            ));
        },
        (Phase::MakingParent { index }, Reply::Failed(e)) => {
            let fault = Fault::Sftp(
                sftp_error_text(
                    "创建远端目录「"@ + st.parents[index as int] + "」失败: "@ + e,
                    st.remote,
                ),
            );
            assert(step(st, reply, cancelled).1.news.unwrap()->Retry_message == broken(
                fault_text(st.direction, fault),
                st.backoff,
            ));
        },
        (_, Reply::Failed(e)) => {
            assert(step(st, reply, cancelled).1.news.unwrap()->Retry_message == broken(
                fault_text(st.direction, Fault::Sftp(e)),
                st.backoff,
            ));
        },
        _ => {
            assert(false);
        },
    }
}

proof fn lemma_inside(a: Seq<char>, p: Seq<char>, b: Seq<char>)
    ensures
        mentions(a + p + b, p),
{
    mentions_stand_inside(a + p + b, p);
}

/// Progress is reported out of the whole size and with the count of repetitions:
/// where chunks are moving, what has been moved, and whether it goes up or down;
/// before the whole files are compared and at the end, all of it.
#[verifier::rlimit(100)]
pub proof fn progress_is_reported_as_it_is(st: State, reply: Reply, cancelled: bool)
    requires
        valid(st),
        answers(st.direction, st.phase, reply),
        step(st, reply, cancelled).1.news matches Some(News::Progress { .. }),
    ensures
        ({
            let (next, then) = step(st, reply, cancelled);
            let news = then.news.unwrap();
            &&& news->Progress_total == next.size
            &&& news->Progress_retry_count == next.record.retry_count
            &&& next.outcome == Some(Ok::<(), Fault>(())) ==> news->Progress_status
                == "completed"@ && news->Progress_done == next.size
            &&& st.phase is SizingResult ==> news->Progress_status == "verifying"@
                && news->Progress_done == next.size
            &&& !(st.phase is SizingResult) && !(st.phase is HashingRemote) ==> {
                &&& news->Progress_done == next.record.moved
                &&& st.direction is Upload ==> news->Progress_status == "uploading"@
                &&& st.direction is Download ==> news->Progress_status == "downloading"@
            }
        }),
{
}

/// A chunk that is saved, and the start of moving, are always reported; so are
/// the comparison of the whole files and the end.
#[verifier::rlimit(60)]
pub proof fn milestones_are_reported(st: State, reply: Reply, cancelled: bool)
    requires
        valid(st),
        answers(st.direction, st.phase, reply),
    ensures
        ({
            let (next, then) = step(st, reply, cancelled);
            &&& next.phase is OpeningSource || next.phase is HashingLocal || next.outcome == Some(
                Ok::<(), Fault>(()),
            ) || (st.phase is SavingChunk && reply is Done) ==> then.news is Some
                && then.news.unwrap() is Progress
        }),
{
}

/// A transfer that ends without the user's doing says why: that the target is
/// larger than the source, that the sizes differ in the end, that the bytes in
/// front of the place to go on differ, that the remote path is a directory or no
/// file, or that the local side failed, each with what was found.
#[verifier::rlimit(100)]
pub proof fn endings_say_what_was_found(st: State, reply: Reply)
    requires
        valid(st),
        answers(st.direction, st.phase, reply),
    ensures
        ({
            let outcome = step(st, reply, false).0.outcome;
            let sizing = (st.phase is SizingTarget || st.phase is SizingLocal);
            &&& sizing && told_size(reply) > st.size && !st.force ==> outcome == Some(
                Err::<(), Fault>(
                    Fault::TargetLarger { target: told_size(reply) as u64, source: st.size },
                ),
            )
            &&& sizing && (told_size(reply) <= st.size || st.force) ==> outcome is None
            &&& st.phase is SizingResult && !(reply is Failed) ==> if told_size(reply) != st.size {
                outcome == Some(
                    Err::<(), Fault>(
                        Fault::SizeMismatch { source: st.size, target: told_size(reply) as u64 },
                    ),
                )
            } else {
                outcome is None
            }
            &&& st.phase is ComparingBoundary && reply is Boundary && !equal_boundary(reply)
                ==> outcome == Some(
                Err::<(), Fault>(
                    Fault::ResumeBoundaryMismatch { offset: st.phase->ComparingBoundary_offset },
                ),
            )
            &&& st.phase is FindingSource && reply is Stat && reply->Stat_0.is_dir ==> (
            outcome matches Some(Err(fault)) && fault is RemoteNotAFile)
            &&& st.phase is SizingSource && reply is Stat && !reply->Stat_0.is_file ==> outcome
                == Some(Err::<(), Fault>(Fault::RemoteNotAFile(st.remote)))
            &&& reply matches Reply::LocalFailed(m) ==> outcome == Some(
                Err::<(), Fault>(Fault::LocalIo(m)),
            )
            &&& st.phase is SavingMismatch ==> outcome == Some(
                Err::<(), Fault>(Fault::HashMismatch),
            )
        }),
{
}

/// A transfer starts as it was asked to: with the two paths, the mode, and
/// whether to overwrite; with all that the checkpoint says, but that an upload
/// takes the size and the path of its file as they are now. Nothing has been
/// tried, and the first wait is the shortest.
pub proof fn transfers_start_as_asked(
    local: Seq<char>,
    remote: Seq<char>,
    size: u64,
    force: bool,
    strict: bool,
    checkpoint: Checkpoint,
)
    ensures
        ({
            let up = upload_start(local, remote, size, force, strict, checkpoint);
            let down = download_start(remote, local, force, strict, checkpoint);
            &&& up.direction is Upload && down.direction is Download
            &&& up.phase is Ready && down.phase is Ready
            &&& up.strict == strict && down.strict == strict
            &&& up.force == force && down.force == force
            &&& up.given_local == local && down.given_local == local
            &&& up.given_remote == remote && down.given_remote == remote
            &&& up.local == local && up.remote == remote && up.size == size
            &&& up.backoff == 1_000 && down.backoff == 1_000
            &&& up.outcome is None && down.outcome is None
            &&& down.record == checkpoint
            &&& up.record.file_size == size
            &&& up.record.remote_path == remote
            &&& up.record.status is InProgress
            &&& up.record.moved == checkpoint.moved
            &&& up.record.verified == checkpoint.verified
            &&& up.record.retry_count == checkpoint.retry_count
            &&& up.record.local_path == checkpoint.local_path
            &&& up.record.mtime == checkpoint.mtime
            &&& up.record.host == checkpoint.host
            &&& up.record.port == checkpoint.port
            &&& up.record.username == checkpoint.username
        }),
{
}

} // verus!
