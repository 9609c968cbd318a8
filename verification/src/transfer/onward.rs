//! How a transfer goes on: what follows when a task has gone well, what ends a
//! transfer at once, and which ways of ending a task are understood.

use vstd::prelude::*;

use super::flow::{
    asks, equal_boundary, left_alone, steps_leave_the_rest_alone, told_size,
    transfers_ask_for_what_they_wait_for,
};
use super::laws::{says_it_lasts, server_failed, steps_keep_valid};
use super::machine::{Event, Step, Transfer};
use super::model::{
    answers, permanent, resume_plan, step, trusted_bytes, unread_message, valid, Phase, Reply,
    Resume, State, Task,
};
use crate::checkpoint::Checkpoint;
use crate::sftp::download::{name_of_remote, permanent_for_download, resolved_local};
use crate::sftp::fault::{ends_with, Direction, Fault};
use crate::sftp::upload::permanent_for_upload;
use crate::text::{ends_in, trimmed};

verus! {

/// The ways in which a task can end.
pub open spec fn can_end(task: Task, reply: Reply) -> bool {
    match task {
        Task::Connect => reply is Done || reply is ConnectFailed,
        Task::Sleep { .. } => reply is Done,
        Task::StatRemote { .. } => reply is Stat || reply is Failed,
        Task::SizeLocal { .. } => reply is Size,
        Task::OpenSftp
        | Task::OpenRemoteDir { .. }
        | Task::MakeRemoteDir { .. }
        | Task::MakeLocalDir { .. }
        | Task::SaveCheckpoint
        | Task::TruncateRemote { .. }
        | Task::TruncateLocal { .. }
        | Task::RemoveRemote { .. }
        | Task::RemoveLocal { .. }
        | Task::OpenLocal { .. } => reply is Done || reply is Failed,
        Task::ReadBoundary { .. } => reply is Boundary || reply is LocalFailed
            || reply is RemoteFailed,
        Task::CopyChunk { .. } => reply is Done || reply is LocalFailed || reply is RemoteFailed,
        Task::HashChunk { .. } => reply is Digests || reply is LocalFailed
            || reply is RemoteFailed,
        Task::HashLocal { .. } => reply is Digest || reply is LocalFailed || reply is Interrupted,
        Task::HashRemote { .. } => reply is Digest || reply is RemoteFailed
            || reply is Interrupted,
        Task::Finish => false,
    }
}

/// A transfer understands every way in which the task that it waits for can end,
/// and nothing else.
pub proof fn every_ending_of_a_task_is_understood(st: State, task: Task, reply: Reply)
    requires
        valid(st),
        asks(st, task),
        st.parents.len() <= usize::MAX,
    ensures
        can_end(task, reply) <==> answers(st.direction, st.phase, reply),
{
}

/// What is waited for once chunks can be moved from `offset` on.
pub open spec fn moves_on(next: State, offset: u64) -> bool {
    if offset < next.size {
        next.phase is CopyingChunk && next.phase->CopyingChunk_offset == offset
    } else {
        next.phase is SizingResult
    }
}

/// What is waited for once the target can be written from `offset` on.
pub open spec fn writes_on(next: State, offset: u64) -> bool {
    if next.direction is Upload {
        next.phase == (Phase::OpeningSource { offset })
    } else {
        moves_on(next, offset)
    }
}

/// What is waited for once the directories in front of `index` are there.
pub open spec fn descends(next: State, index: int) -> bool {
    if next.parents.len() > usize::MAX {
        true
    } else if index < next.parents.len() {
        next.phase is CheckingParent && next.phase->CheckingParent_index == index
    } else {
        next.phase is SizingTarget
    }
}

/// What a transfer waits for next when a task has gone well.
pub open spec fn follows(st: State, reply: Reply, next: State) -> bool {
    let entry = trimmed(st.given_remote);
    match st.phase {
        Phase::Ready => next.phase is Connecting,
        Phase::Connecting => reply is Done ==> next.phase is OpeningSftp,
        Phase::OpeningSftp => reply is Done && entry.len() > 0 ==> {
            &&& st.direction is Download ==> next.phase is FindingSource
            &&& st.direction is Upload && !ends_in(entry, '/') ==> next.phase is ProbingTarget
        },
        Phase::ProbingTarget => {
            &&& reply is Failed ==> next.phase is ProbingTargetDir
            &&& reply is Stat && !reply->Stat_0.is_dir && !reply->Stat_0.is_file
                ==> next.phase is ProbingTargetDir
            &&& reply is Stat && !reply->Stat_0.is_dir && reply->Stat_0.is_file ==> next.remote
                == entry
        },
        Phase::ProbingTargetDir => reply is Failed ==> next.remote == entry,
        Phase::SavingTarget => reply is Done ==> descends(next, 0),
        Phase::CheckingParent { index } => {
            &&& reply is Stat ==> descends(next, index + 1)
            &&& reply is Failed ==> next.phase == (Phase::MakingParent { index })
        },
        Phase::MakingParent { index } => reply is Done ==> descends(next, index + 1),
        Phase::FindingSource => reply is Stat && !reply->Stat_0.is_dir
            ==> next.phase is SizingSource,
        Phase::MakingLocalDir => reply is Done ==> next.phase is SavingSource,
        Phase::SavingSource => reply is Done ==> next.phase is SizingLocal,
        Phase::Truncating { offset } => reply is Done && offset > 0 ==> next.phase == (
        Phase::ComparingBoundary { offset }),
        Phase::InspectingStale => if reply is Stat && reply->Stat_0.is_file {
            next.phase is RemovingStale
        } else {
            writes_on(next, 0)
        },
        Phase::RemovingStale => writes_on(next, 0),
        Phase::ComparingBoundary { offset } => equal_boundary(reply) ==> writes_on(next, offset),
        Phase::OpeningSource { offset } => reply is Done ==> moves_on(next, offset),
        Phase::CopyingChunk { offset, len } => reply is Done ==> if st.strict {
            next.phase == (Phase::CheckingChunk { offset, len })
        } else {
            next.phase is SavingChunk && next.phase->SavingChunk_offset == offset + len
        },
        Phase::CheckingChunk { offset, len } => reply is Digests ==> if reply->Digests_local
            == reply->Digests_remote {
            next.phase is SavingChunk && next.phase->SavingChunk_offset == offset + len
        } else {
            next.phase == (Phase::RewindingChunk { offset, len })
        },
        Phase::SavingChunk { offset } => reply is Done ==> moves_on(next, offset),
        Phase::SizingResult => !(reply is Failed) && told_size(reply) == st.size
            ==> next.phase is HashingLocal,
        Phase::HashingLocal => reply is Digest ==> next.phase is ReopeningSftp,
        Phase::ReopeningSftp => reply is Done ==> next.phase is HashingRemote,
        Phase::HashingRemote => {
            &&& reply is Digest && reply->Digest_0 == st.local_digest ==> next.outcome == Some(
                Ok::<(), Fault>(()),
            ) && next.record.moved == st.size
            &&& reply is Digest && reply->Digest_0 != st.local_digest
                ==> next.phase is RemovingMismatch
            &&& reply is RemoteFailed ==> next.phase is SavingReadFailure
        },
        Phase::SavingReadFailure => next.outcome matches Some(Err(Fault::Sftp(text)))
            && ends_with(text, st.detail),
        Phase::RemovingMismatch => next.phase is SavingMismatch,
        _ => true,
    }
}

/// A task that has gone well is followed by the next one, up to the comparison of
/// the whole files and the end.
#[verifier::rlimit(100)]
#[verifier::spinoff_prover]
pub proof fn transfers_go_on_when_all_is_well(st: State, reply: Reply)
    requires
        valid(st),
        answers(st.direction, st.phase, reply),
    ensures
        follows(st, reply, step(st, reply, false).0),
{
    if st.phase is SavingReadFailure {
        let text = unread_message(st.direction, st.detail);
        assert(text.skip(text.len() - st.detail.len()) =~= st.detail);
    }
}

/// A point at which a transfer looks whether the user has cancelled.
pub open spec fn heeds_cancelling(st: State, reply: Reply) -> bool {
    ||| st.phase is Ready || st.phase is Waiting
    ||| reply is ConnectFailed || reply is Interrupted
    ||| server_failed(st, reply) && !says_it_lasts(st, reply)
    ||| (st.phase is OpeningSource || st.phase is SavingChunk) && reply is Done && st.record.moved
        < st.size
    ||| st.phase is SizingResult && !(reply is Failed) && told_size(reply) == st.size
    ||| st.phase is RewindingChunk && reply is Done
}

/// A transfer that the user has cancelled ends as cancelled before the next
/// attempt, in a pause, before the next chunk and before the whole files are
/// compared, and where it would have been repeated.
#[verifier::rlimit(100)]
#[verifier::spinoff_prover]
pub proof fn cancelled_transfers_end(st: State, reply: Reply)
    requires
        valid(st),
        answers(st.direction, st.phase, reply),
        heeds_cancelling(st, reply),
    ensures
        step(st, reply, true).0.outcome == Some(Err::<(), Fault>(Fault::Cancelled)),
{
}

/// A failure of which the server says that no repetition will help ends the
/// transfer at once, and leaves its progress alone.
#[verifier::rlimit(100)]
#[verifier::spinoff_prover]
pub proof fn lasting_failures_end_a_transfer(st: State, reply: Reply)
    requires
        valid(st),
        answers(st.direction, st.phase, reply),
        server_failed(st, reply),
        says_it_lasts(st, reply),
    ensures
        ({
            let next = step(st, reply, false).0;
            &&& next.outcome is Some && next.outcome.unwrap() is Err
            &&& next.record.status is Failed
            &&& next.record.moved == st.record.moved
            &&& next.record.verified == st.record.verified
        }),
{
}

/// Each direction goes by its own words for a fault that lasts.
pub proof fn each_direction_has_its_own_lasting_faults(message: Seq<char>)
    ensures
        permanent(Direction::Upload, message) == permanent_for_upload(message),
        permanent(Direction::Download, message) == permanent_for_download(message),
{
}

/// What was verified can be kept, and nothing less; where nothing was, all of
/// what was moved but less than one chunk, in whole chunks.
pub proof fn whole_chunks_can_be_kept(record: Checkpoint)
    ensures
        record.verified > 0 ==> trusted_bytes(record) == record.verified,
        record.verified == 0 ==> {
            &&& 0 <= trusted_bytes(record) <= record.moved
            &&& record.moved < trusted_bytes(record) + 1_048_576
            &&& trusted_bytes(record) % 1_048_576 == 0
        },
{
}

/// Nothing stays in place behind the point where a transfer goes on: what is
/// longer is cut, and where nothing can be kept, it is removed.
pub proof fn what_cannot_be_kept_is_removed(
    direction: Direction,
    target_size: u64,
    force: bool,
    record: Checkpoint,
)
    ensures
        match resume_plan(direction, target_size, force, record) {
            Resume::At { offset } => target_size <= offset,
            Resume::CutTo { offset } => 0 < offset < target_size && !force,
            Resume::Discard => force || target_size > 0,
        },
{
}

/// A download writes the file that its local path stands for, given the name of
/// the remote file.
#[verifier::rlimit(40)]
pub proof fn downloads_go_to_their_target(st: State, reply: Reply, cancelled: bool)
    requires
        valid(st),
        st.phase is SizingSource,
        reply is Stat,
        reply->Stat_0.is_file,
        told_size(reply) > 0,
        name_of_remote(st.remote) is Ok,
        resolved_local(st.given_local, name_of_remote(st.remote)->Ok_0) is Ok,
    ensures
        ({
            let next = step(st, reply, cancelled).0;
            &&& next.outcome is None
            &&& next.local == resolved_local(
                st.given_local,
                name_of_remote(st.remote)->Ok_0,
            )->Ok_0
            &&& next.size == told_size(reply)
            &&& next.mtime == reply->Stat_0.mtime
        }),
{
}

/// An upload looks at the directories above its target only once its checkpoint
/// names that target, or where that is the path that it was started with.
#[verifier::rlimit(60)]
pub proof fn new_targets_are_saved_first(st: State, reply: Reply, cancelled: bool)
    requires
        valid(st),
        answers(st.direction, st.phase, reply),
        st.phase is OpeningSftp || st.phase is ProbingTarget || st.phase is ProbingTargetDir,
    ensures
        ({
            let next = step(st, reply, cancelled).0;
            &&& next.phase is CheckingParent || next.phase is SizingTarget ==> next.remote
                == st.given_remote
            &&& next.phase is SavingTarget ==> next.remote != st.given_remote
        }),
{
}

/// A running transfer asks for what it then waits for, and leaves alone what it
/// has no business with; it stays valid.
pub proof fn running_transfers_ask_for_what_they_wait_for(
    transfer: &mut Transfer,
    event: Event,
    cancelled: bool,
    next: Step,
)
    requires
        old(transfer).wf(),
        answers(old(transfer)@.direction, old(transfer)@.phase, event@),
        call_ensures(Transfer::step, (transfer, event, cancelled), next),
    ensures
        valid(final(transfer)@),
        asks(final(transfer)@, next.action@),
        left_alone(old(transfer)@, final(transfer)@),
        !cancelled ==> follows(old(transfer)@, event@, final(transfer)@),
{
    let before = old(transfer)@;
    transfers_ask_for_what_they_wait_for(before, event@, cancelled);
    steps_leave_the_rest_alone(before, event@, cancelled);
    steps_keep_valid(before, event@, cancelled);
    if !cancelled {
        transfers_go_on_when_all_is_well(before, event@);
    }
}

} // verus!
