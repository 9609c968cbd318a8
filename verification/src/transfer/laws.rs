//! What every transfer keeps to, whatever the network does.

use vstd::prelude::*;

use super::model::{
    advanced, answered, answers, begin, conclude, counted, download_start, fail, locate, next_chunk,
    permanent, probed, remove_task, resume, resume_plan, run, sized, source_sized, state_at, step,
    truncate_task, trusted_bytes, upload_start, valid, verified_from, Exchange, FileStat, Move, News, Phase, Reply,
    Resume, State, Task,
};
use crate::checkpoint::Checkpoint;
use crate::chunk::{
    chunk_edge, chunk_edge_is_monotone, chunk_edge_is_stable, least, on_edge, CHUNK_SIZE,
};
use crate::retry::{doubled_backoff, INITIAL_BACKOFF_MS, MAX_BACKOFF_MS, NAP_MS};
use crate::sftp::client::ConnectFault;
use crate::sftp::fault::{Direction, Fault};
use crate::sftp::upload::{
    parent_directories, speaks_of_path, upload_fault, upload_target, REMOTE_DIR_MODE,
    REMOTE_FILE_MODE,
};
use crate::text::{ends_in, trimmed};

verus! {

/// A transfer that is going on.
spec fn running(st: State) -> bool {
    &&& INITIAL_BACKOFF_MS <= st.backoff <= MAX_BACKOFF_MS
    &&& st.outcome is None
}

/// A transfer that is going on and has a connection.
spec fn connected(st: State) -> bool {
    st.backoff == INITIAL_BACKOFF_MS && st.outcome is None
}

proof fn lemma_fail(st: State, fault: Fault, cancelled: bool)
    requires
        running(st),
        st.direction is Upload ==> upload_fault(fault),
    ensures
        valid(fail(st, fault, cancelled).0),
{
}

proof fn lemma_next_chunk(st: State, offset: u64, cancelled: bool)
    requires
        connected(st),
        st.record.moved == offset,
    ensures
        valid(next_chunk(st, offset, cancelled).0),
{
    lemma_fail(st, Fault::Cancelled, cancelled);
}

proof fn lemma_begin(st: State, offset: u64, cancelled: bool)
    requires
        connected(st),
    ensures
        valid(begin(st, offset, cancelled).0),
{
    let record = Checkpoint {
        moved: offset,
        verified: verified_from(st, offset),
        ..st.record
    };
    lemma_next_chunk(State { record, ..st }, offset, cancelled);
}

proof fn lemma_resume(st: State, offset: u64, cancelled: bool)
    requires
        connected(st),
    ensures
        valid(resume(st, offset, cancelled).0),
{
    lemma_begin(st, offset, cancelled);
}

proof fn lemma_sized(st: State, target_size: u64, cancelled: bool)
    requires
        connected(st),
    ensures
        valid(sized(st, target_size, cancelled).0),
{
    lemma_fail(st, Fault::TargetLarger { target: target_size, source: st.size }, cancelled);
    let ready = State { force: false, ..st };
    lemma_resume(ready, 0, cancelled);
    lemma_resume(ready, trusted_bytes(st.record) as u64, cancelled);
}

proof fn lemma_source_sized(st: State, stat: FileStat, cancelled: bool)
    requires
        connected(st),
        st.direction is Download,
    ensures
        valid(source_sized(st, stat, cancelled).0),
{
}

proof fn lemma_locate(st: State, cancelled: bool)
    requires
        connected(st),
    ensures
        valid(locate(st, cancelled).0),
{
}

proof fn lemma_probed(st: State, is_dir: bool, cancelled: bool)
    requires
        connected(st),
        st.direction is Upload,
    ensures
        valid(probed(st, is_dir, cancelled).0),
{
}

proof fn lemma_conclude(st: State, target_size: u64, cancelled: bool)
    requires
        connected(st),
    ensures
        valid(conclude(st, target_size, cancelled).0),
{
}

/// Every step of a transfer leads from a valid state to a valid state.
#[verifier::rlimit(40)]
pub proof fn steps_keep_valid(st: State, reply: Reply, cancelled: bool)
    requires
        valid(st),
        answers(st.direction, st.phase, reply),
    ensures
        valid(step(st, reply, cancelled).0),
{
    let next = step(st, reply, cancelled).0;
    match reply {
        Reply::Failed(e) => {
            lemma_fail(st, Fault::Sftp(e), cancelled);
            lemma_fail(st, Fault::LocalIo(e), cancelled);
        },
        Reply::LocalFailed(e) => {
            lemma_fail(st, Fault::LocalIo(e), cancelled);
        },
        Reply::RemoteFailed(e) => {
            lemma_fail(st, Fault::Sftp(e), cancelled);
        },
        _ => {},
    }
    match (st.phase, reply) {
        (Phase::OpeningSftp, _) => {
            lemma_locate(st, cancelled);
            assert(valid(next));
        },
        (Phase::ProbingTarget, _) | (Phase::ProbingTargetDir, _) => {
            lemma_probed(st, true, cancelled);
            lemma_probed(st, false, cancelled);
            assert(valid(next));
        },
        (Phase::SizingTarget, Reply::Stat(stat)) => {
            lemma_sized(st, stat.size.unwrap_or(0), cancelled);
            assert(valid(next));
        },
        (Phase::SizingTarget, _) => {
            lemma_sized(st, 0, cancelled);
            assert(valid(next));
        },
        (Phase::SizingSource, Reply::Stat(stat)) => {
            lemma_source_sized(st, stat, cancelled);
            assert(valid(next));
        },
        (Phase::SizingLocal, Reply::Size(size)) => {
            lemma_sized(st, size, cancelled);
            assert(valid(next));
        },
        (Phase::Truncating { offset }, _) => {
            lemma_resume(st, offset, cancelled);
            assert(valid(next));
        },
        (Phase::InspectingStale, _) | (Phase::RemovingStale, _) => {
            lemma_resume(st, 0, cancelled);
            assert(valid(next));
        },
        (Phase::ComparingBoundary { offset }, _) => {
            lemma_begin(st, offset, cancelled);
            lemma_fail(st, Fault::ResumeBoundaryMismatch { offset }, cancelled);
            assert(valid(next));
        },
        (Phase::OpeningSource { offset }, _) => {
            lemma_next_chunk(st, offset, cancelled);
            assert(valid(next));
        },
        (Phase::SavingChunk { offset }, _) => {
            lemma_next_chunk(st, offset, cancelled);
            assert(valid(next));
        },
        (Phase::RewindingChunk { offset, len }, _) => {
            lemma_fail(st, Fault::ChunkVerifyMismatch { offset, len }, cancelled);
            assert(valid(next));
        },
        (Phase::CopyingChunk { .. }, _) | (Phase::CheckingChunk { .. }, _) => {
            assert(valid(next));
        },
        (Phase::SizingResult, Reply::Stat(stat)) => {
            lemma_conclude(st, stat.size.unwrap_or(0), cancelled);
            assert(valid(next));
        },
        (Phase::SizingResult, Reply::Size(size)) => {
            lemma_conclude(st, size, cancelled);
            assert(valid(next));
        },
        (Phase::FindingSource, _) => {
            assert(valid(next));
        },
        _ => {
            assert(valid(next));
        },
    }
}

/// What has been verified grows only by a chunk whose two digests were found
/// equal, and only at its end.
#[verifier::rlimit(40)]
pub proof fn verified_grows_by_compared_chunks(st: State, reply: Reply, cancelled: bool)
    requires
        valid(st),
        answers(st.direction, st.phase, reply),
    ensures
        ({
            let before = st.record.verified;
            let after = step(st, reply, cancelled).0.record.verified;
            after > before ==> {
                &&& st.phase == (Phase::CheckingChunk {
                    offset: before,
                    len: (after - before) as u64,
                })
                &&& reply matches Reply::Digests { local, remote } && local == remote
            }
        }),
{
}

/// A chunk whose digests differ is cut off the target before anything else
/// happens, and counts neither as moved nor as verified.
pub proof fn bad_chunk_is_cut_off(
    st: State,
    offset: u64,
    len: u64,
    local: Seq<u8>,
    remote: Seq<u8>,
    cancelled: bool,
)
    requires
        valid(st),
        st.phase == (Phase::CheckingChunk { offset, len }),
        local != remote,
    ensures
        ({
            let (next, then) = step(st, Reply::Digests { local, remote }, cancelled);
            &&& then.task == truncate_task(st, offset)
            &&& next.record == st.record
            &&& next.record.moved == offset
            &&& next.outcome is None
        }),
{
}

/// A connection that cannot be made never ends a transfer: unless the user has
/// cancelled, it waits and tries again.
pub proof fn connect_failures_are_repeated(st: State, fault: ConnectFault)
    requires
        valid(st),
        st.phase is Connecting,
    ensures
        ({
            let (next, then) = step(st, Reply::ConnectFailed(fault), false);
            &&& next.phase == (Phase::Waiting { waited: 0 })
            &&& next.outcome is None
            &&& next.record.moved == st.record.moved
            &&& next.record.verified == st.record.verified
            &&& then.task == (Task::Sleep { ms: NAP_MS })
        }),
{
}

/// A transfer that breaks off for a reason that may pass is taken up again,
/// after the first waiting time, with all its progress.
pub proof fn passing_faults_are_repeated(st: State, message: Seq<char>)
    requires
        valid(st),
        st.phase is CopyingChunk,
        !permanent(st.direction, message),
    ensures
        ({
            let (next, then) = step(st, Reply::RemoteFailed(message), false);
            &&& next.phase == (Phase::Waiting { waited: 0 })
            &&& next.record == (Checkpoint {
                retry_count: counted(st.record.retry_count),
                ..st.record
            })
            &&& then.news matches Some(News::Retry { retry_count, delay_ms, .. })
                && retry_count == counted(st.record.retry_count) && delay_ms == INITIAL_BACKOFF_MS
        }),
{
}

/// A transfer ends as cancelled only if the user has cancelled.
#[verifier::rlimit(40)]
pub proof fn only_the_user_cancels(st: State, reply: Reply, cancelled: bool)
    requires
        valid(st),
        answers(st.direction, st.phase, reply),
        step(st, reply, cancelled).0.outcome == Some(Err::<(), Fault>(Fault::Cancelled)),
    ensures
        cancelled || reply is Interrupted,
{
}

/// A phase of a download in which it is still finding out where to go on.
pub open spec fn finding_resume_point(st: State) -> bool {
    st.direction is Download && (st.phase is SizingLocal || st.phase is Truncating
        || st.phase is RemovingStale || st.phase is ComparingBoundary)
}

/// A transfer that stops, cancelled or failed, keeps its progress.
#[verifier::rlimit(40)]
pub proof fn stopping_keeps_progress(st: State, reply: Reply, cancelled: bool)
    requires
        valid(st),
        answers(st.direction, st.phase, reply),
        step(st, reply, cancelled).0.outcome matches Some(Err(_)),
        !finding_resume_point(st),
    ensures
        step(st, reply, cancelled).0.record.moved == st.record.moved,
        step(st, reply, cancelled).0.record.verified == st.record.verified,
{
}

/// A download that is cancelled while it finds out where to go on counts what
/// it has found in place.
#[verifier::rlimit(40)]
pub proof fn stopping_while_resuming_keeps_the_resume_point(
    st: State,
    reply: Reply,
    cancelled: bool,
)
    requires
        valid(st),
        answers(st.direction, st.phase, reply),
        step(st, reply, cancelled).0.outcome matches Some(Err(_)),
        finding_resume_point(st),
    ensures
        ({
            let kept = step(st, reply, cancelled).0.record;
            ||| kept.moved == st.record.moved && kept.verified == st.record.verified
            ||| kept.moved == 0 && kept.verified == 0
            ||| st.phase == (Phase::ComparingBoundary { offset: kept.moved })
                && kept.verified == verified_from(st, kept.moved)
        }),
{
}

/// When the digests of the two whole files differ, the target is removed, the
/// checkpoint is set back to the start and saved, and the transfer fails.
pub proof fn hash_mismatch_starts_over(
    st: State,
    digest: Seq<u8>,
    removed: Reply,
    saved: Reply,
    cancelled: bool,
)
    requires
        valid(st),
        st.phase is HashingRemote,
        digest != st.local_digest,
    ensures
        ({
            let (s1, m1) = step(st, Reply::Digest(digest), cancelled);
            let (s2, m2) = step(s1, removed, cancelled);
            let (s3, _) = step(s2, saved, cancelled);
            &&& m1.task == remove_task(st)
            &&& m2.task is SaveCheckpoint
            &&& s2.record.moved == 0 && s2.record.verified == 0
            &&& s2.record.failure_reason == Some("hash_mismatch"@)
            &&& s3.record == s2.record
            &&& s3.outcome == Some(Err::<(), Fault>(Fault::HashMismatch))
        }),
{
}

/// A transfer goes on exactly at the end of what is verified, or, where nothing
/// is, of the whole chunks that were moved; a forced one starts at zero.
pub proof fn resume_point_is_trusted(
    direction: Direction,
    target_size: u64,
    force: bool,
    record: Checkpoint,
)
    ensures
        ({
            let plan = resume_plan(direction, target_size, force, record);
            let point = match plan {
                Resume::At { offset } => offset,
                Resume::CutTo { offset } => offset,
                Resume::Discard => 0,
            };
            &&& point == 0 || point == trusted_bytes(record)
            &&& !force && trusted_bytes(record) > 0 ==> point == trusted_bytes(record)
            &&& record.verified > 0 ==> point <= record.verified
            &&& record.verified == 0 ==> point <= record.moved && point % CHUNK_SIZE == 0
            &&& force ==> point == 0
            &&& plan is CutTo ==> point < target_size
        }),
{
}

/// What is overwritten by force is overwritten once: repeated attempts resume.
#[verifier::rlimit(40)]
pub proof fn force_holds_for_one_attempt(st: State, target_size: u64, cancelled: bool)
    requires
        target_size <= st.size || st.force,
    ensures
        !sized(st, target_size, cancelled).0.force,
{
}

/// The positions that a transfer stands at are chunk edges.
pub open spec fn aligned(st: State) -> bool {
    &&& on_edge(st.record.verified as int, st.record.file_size as int)
    &&& match st.phase {
        Phase::Truncating { offset }
        | Phase::ComparingBoundary { offset }
        | Phase::OpeningSource { offset }
        | Phase::CopyingChunk { offset, .. }
        | Phase::CheckingChunk { offset, .. }
        | Phase::RewindingChunk { offset, .. }
        | Phase::SavingChunk { offset } => on_edge(offset as int, st.size as int),
        Phase::MakingLocalDir => on_edge(st.record.verified as int, st.size as int),
        _ => true,
    }
    &&& sourced(st) ==> st.record.file_size == st.size
}

/// The size of the source is known.
pub open spec fn sourced(st: State) -> bool {
    st.direction is Upload || !(st.phase is Ready || st.phase is Connecting
        || st.phase is Waiting || st.phase is OpeningSftp || st.phase is FindingSource
        || st.phase is SizingSource || st.phase is MakingLocalDir || st.phase is Finished)
}

/// The source of a download is as large as its checkpoint says, wherever that
/// matters: a place in the middle of a chunk is kept only at the file's end.
pub open spec fn source_steady(st: State, reply: Reply) -> bool {
    st.phase is SizingSource ==> (reply matches Reply::Stat(stat) ==> stat.size.unwrap_or(0)
        == st.record.file_size || st.record.verified as int % CHUNK_SIZE as int == 0)
}

/// A chunk that is to be copied starts at a multiple of the chunk size, exactly
/// behind what has arrived, and reaches to the next multiple or to the end of
/// the file. It goes between the two files of the transfer.
pub open spec fn copies_in_order(st: State, task: Task) -> bool {
    task matches Task::CopyChunk { local, remote, offset, len, first, mode } ==> {
        &&& local == st.local
        &&& remote == st.remote
        &&& mode == REMOTE_FILE_MODE
        &&& offset as int % CHUNK_SIZE as int == 0
        &&& offset == st.record.moved
        &&& 0 < len <= CHUNK_SIZE
        &&& offset + len <= st.size
        &&& len == CHUNK_SIZE || offset + len == st.size
        &&& first == (offset == 0)
    }
}

spec fn tidy(next: (State, Move)) -> bool {
    aligned(next.0) && copies_in_order(next.0, next.1.task)
}

spec fn settled(st: State) -> bool {
    on_edge(st.record.verified as int, st.record.file_size as int) && st.record.file_size
        == st.size
}

proof fn lemma_fail_tidy(st: State, fault: Fault, cancelled: bool)
    requires
        on_edge(st.record.verified as int, st.record.file_size as int),
        st.direction is Upload ==> st.record.file_size == st.size,
    ensures
        tidy(fail(st, fault, cancelled)),
{
}

proof fn lemma_next_chunk_tidy(st: State, offset: u64, cancelled: bool)
    requires
        settled(st),
        st.record.moved == offset,
        on_edge(offset as int, st.size as int),
    ensures
        tidy(next_chunk(st, offset, cancelled)),
{
    lemma_fail_tidy(st, Fault::Cancelled, cancelled);
}

proof fn lemma_begin_tidy(st: State, offset: u64, cancelled: bool)
    requires
        settled(st),
        on_edge(offset as int, st.size as int),
    ensures
        tidy(begin(st, offset, cancelled)),
{
    let record = Checkpoint {
        moved: offset,
        verified: verified_from(st, offset),
        ..st.record
    };
    lemma_next_chunk_tidy(State { record, ..st }, offset, cancelled);
}

proof fn lemma_resume_tidy(st: State, offset: u64, cancelled: bool)
    requires
        settled(st),
        on_edge(offset as int, st.size as int),
    ensures
        tidy(resume(st, offset, cancelled)),
{
    lemma_begin_tidy(st, offset, cancelled);
}

proof fn lemma_sized_tidy(st: State, target_size: u64, cancelled: bool)
    requires
        settled(st),
    ensures
        tidy(sized(st, target_size, cancelled)),
{
    lemma_fail_tidy(st, Fault::TargetLarger { target: target_size, source: st.size }, cancelled);
    let ready = State { force: false, ..st };
    lemma_resume_tidy(ready, 0, cancelled);
    lemma_resume_tidy(ready, trusted_bytes(st.record) as u64, cancelled);
}

proof fn lemma_source_sized_tidy(st: State, stat: FileStat, cancelled: bool)
    requires
        st.direction is Download,
        on_edge(st.record.verified as int, st.record.file_size as int),
        on_edge(st.record.verified as int, stat.size.unwrap_or(0) as int),
    ensures
        tidy(source_sized(st, stat, cancelled)),
{
}

/// Chunks are copied in order, from one chunk edge to the next.
#[verifier::rlimit(60)]
pub proof fn chunks_are_copied_in_order(st: State, reply: Reply, cancelled: bool)
    requires
        valid(st),
        aligned(st),
        answers(st.direction, st.phase, reply),
        source_steady(st, reply),
    ensures
        aligned(step(st, reply, cancelled).0),
        copies_in_order(
            step(st, reply, cancelled).0,
            step(st, reply, cancelled).1.task,
        ),
{
    let next = step(st, reply, cancelled);
    match reply {
        Reply::Failed(e) => {
            lemma_fail_tidy(st, Fault::Sftp(e), cancelled);
            lemma_fail_tidy(st, Fault::LocalIo(e), cancelled);
        },
        Reply::LocalFailed(e) => {
            lemma_fail_tidy(st, Fault::LocalIo(e), cancelled);
        },
        Reply::RemoteFailed(e) => {
            lemma_fail_tidy(st, Fault::Sftp(e), cancelled);
        },
        _ => {},
    }
    match (st.phase, reply) {
        (Phase::OpeningSftp, _) => {
            assert(tidy(next));
        },
        (Phase::ProbingTarget, _) | (Phase::ProbingTargetDir, _) => {
            assert(tidy(next));
        },
        (Phase::SizingTarget, Reply::Stat(stat)) => {
            lemma_sized_tidy(st, stat.size.unwrap_or(0), cancelled);
            assert(tidy(next));
        },
        (Phase::SizingTarget, _) => {
            lemma_sized_tidy(st, 0, cancelled);
            assert(tidy(next));
        },
        (Phase::SizingSource, Reply::Stat(stat)) => {
            lemma_source_sized_tidy(st, stat, cancelled);
            assert(tidy(next));
        },
        (Phase::SizingLocal, Reply::Size(size)) => {
            lemma_sized_tidy(st, size, cancelled);
            assert(tidy(next));
        },
        (Phase::Truncating { offset }, _) => {
            lemma_resume_tidy(st, offset, cancelled);
            assert(tidy(next));
        },
        (Phase::InspectingStale, _) | (Phase::RemovingStale, _) => {
            lemma_resume_tidy(st, 0, cancelled);
            assert(tidy(next));
        },
        (Phase::ComparingBoundary { offset }, _) => {
            lemma_begin_tidy(st, offset, cancelled);
            lemma_fail_tidy(st, Fault::ResumeBoundaryMismatch { offset }, cancelled);
            assert(tidy(next));
        },
        (Phase::OpeningSource { offset }, _) => {
            lemma_next_chunk_tidy(st, offset, cancelled);
            assert(tidy(next));
        },
        (Phase::SavingChunk { offset }, _) => {
            lemma_next_chunk_tidy(st, offset, cancelled);
            assert(tidy(next));
        },
        (Phase::RewindingChunk { offset, len }, _) => {
            lemma_fail_tidy(st, Fault::ChunkVerifyMismatch { offset, len }, cancelled);
            assert(tidy(next));
        },
        (Phase::CopyingChunk { .. }, _) | (Phase::CheckingChunk { .. }, _) => {
            assert(tidy(next));
        },
        (Phase::SizingResult, _) => {
            assert(tidy(next));
        },
        _ => {
            assert(tidy(next));
        },
    }
}

/// A transfer is told to sleep for the whole waiting time, a nap at a time:
/// after `n` naps that do not reach it, it has slept for `n` naps.
pub proof fn waits_are_slept_through(st: State, n: nat)
    requires
        valid(st),
        st.phase == (Phase::Waiting { waited: 0 }),
        n * NAP_MS < st.backoff,
    ensures
        run(st, naps(n)) == (State {
            phase: Phase::Waiting { waited: (n * NAP_MS) as u64 },
            ..st
        }),
    decreases n,
{
    if n > 0 {
        let m = (n - 1) as nat;
        waits_are_slept_through(st, m);
        assert(naps(n).drop_last() =~= naps(m));
        reveal(advanced);
    } else {
        assert(naps(n).len() == 0);
    }
}

/// `n` naps that nobody interrupts.
pub open spec fn naps(n: nat) -> Seq<Exchange> {
    Seq::new(n, |i: int| Exchange { reply: Reply::Done, cancelled: false })
}

/// The nap that reaches the waiting time ends it: the next attempt begins, and
/// the next waiting time is twice as long, up to the maximum.
pub proof fn the_next_wait_is_longer(st: State, waited: u64)
    requires
        valid(st),
        st.phase == (Phase::Waiting { waited }),
        waited + NAP_MS >= st.backoff,
    ensures
        ({
            let (next, then) = step(st, Reply::Done, false);
            &&& next.phase is Connecting
            &&& then.task is Connect
            &&& next.backoff == doubled_backoff(st.backoff as int)
            &&& next.record == st.record
        }),
{
}

/// A connection that is made sets the waiting time back, so that whenever
/// bytes are moving it is the first one.
pub proof fn moving_resets_the_wait(st: State)
    requires
        valid(st),
        st.phase is CopyingChunk || st.phase is CheckingChunk || st.phase is SavingChunk,
    ensures
        st.backoff == INITIAL_BACKOFF_MS,
{
}

/// No step lowers the count of repetitions.
#[verifier::rlimit(40)]
pub proof fn retries_are_counted(st: State, reply: Reply, cancelled: bool)
    requires
        valid(st),
        answers(st.direction, st.phase, reply),
    ensures
        ({
            let (next, then) = step(st, reply, cancelled);
            &&& st.record.retry_count <= next.record.retry_count
            &&& then.news is Some && then.news.unwrap() is Retry
                <==> next.phase == (Phase::Waiting { waited: 0 })
            &&& next.record.retry_count == if next.phase == (Phase::Waiting { waited: 0 }) {
                counted(st.record.retry_count)
            } else {
                st.record.retry_count
            }
        }),
{
}

/// A step in which the two digests of the chunk that holds byte `p` were found
/// equal.
pub open spec fn compares(st: State, reply: Reply, p: int) -> bool {
    &&& st.phase matches Phase::CheckingChunk { offset, len } && offset <= p < offset + len
    &&& reply matches Reply::Digests { local, remote } && local == remote
}

/// Byte `p` was compared in step `i`, and has counted as verified ever since.
pub open spec fn compared_at(start: State, events: Seq<Exchange>, p: int, i: int) -> bool {
    &&& 0 <= i < events.len()
    &&& compares(state_at(start, events, i), events[i].reply, p)
    &&& forall|j: int|
        i < j <= events.len() ==> p < (#[trigger] state_at(start, events, j)).record.verified
}

/// Byte `p` has been compared, chunk by chunk: in this run, or before it.
pub open spec fn compared(start: State, events: Seq<Exchange>, p: int) -> bool {
    ||| exists|i: int| #[trigger] compared_at(start, events, p, i)
    ||| forall|j: int|
        0 <= j <= events.len() ==> p < (#[trigger] state_at(start, events, j)).record.verified
}

/// What step `i` has asked for.
pub open spec fn asked(start: State, events: Seq<Exchange>, i: int) -> Task {
    step(state_at(start, events, i), events[i].reply, events[i].cancelled).1.task
}

/// The last four steps have asked for the digest of the whole local file, got
/// it, asked for that of the whole remote file, and got an equal one.
pub open spec fn whole_files_compared(start: State, events: Seq<Exchange>) -> bool {
    let n = events.len() as int;
    let end = state_at(start, events, n);
    &&& n >= 4
    &&& asked(start, events, n - 4) == (Task::HashLocal { path: end.local })
    &&& events[n - 3].reply is Digest
    &&& asked(start, events, n - 2) == (Task::HashRemote { path: end.remote, len: end.size })
    &&& events[n - 1].reply == events[n - 3].reply
}

proof fn lemma_run_is_valid(start: State, events: Seq<Exchange>, i: int)
    requires
        valid(start),
        answered(start, events),
        0 <= i <= events.len(),
    ensures
        valid(state_at(start, events, i)),
    decreases i,
{
    if i > 0 {
        lemma_run_is_valid(start, events, i - 1);
        lemma_one_step(start, events, i - 1);
        let st = state_at(start, events, i - 1);
        steps_keep_valid(st, events[i - 1].reply, events[i - 1].cancelled);
    }
}

proof fn lemma_one_step(start: State, events: Seq<Exchange>, i: int)
    requires
        0 <= i < events.len(),
    ensures
        state_at(start, events, i + 1) == step(
            state_at(start, events, i),
            events[i].reply,
            events[i].cancelled,
        ).0,
{
    let longer = events.take(i + 1);
    assert(longer.drop_last() =~= events.take(i));
    assert(longer.last() == events[i]);
    reveal(advanced);
}

/// Every byte that counts as verified has been compared.
pub proof fn verified_means_compared(start: State, events: Seq<Exchange>, p: int)
    requires
        valid(start),
        answered(start, events),
        0 <= p < state_at(start, events, events.len() as int).record.verified,
    ensures
        compared(start, events, p),
    decreases events.len(),
{
    let n = events.len() as int;
    if n == 0 {
        assert forall|j: int| 0 <= j <= events.len() implies p < (#[trigger] state_at(
            start,
            events,
            j,
        )).record.verified by {}
    } else {
        let shorter = events.drop_last();
        assert forall|j: int| 0 <= j <= n - 1 implies #[trigger] state_at(start, events, j)
            == state_at(start, shorter, j) by {
            assert(events.take(j) =~= shorter.take(j));
        }
        assert(answered(start, shorter)) by {
            assert forall|i: int| 0 <= i < shorter.len() implies answers(
                (#[trigger] state_at(start, shorter, i)).direction,
                state_at(start, shorter, i).phase,
                shorter[i].reply,
            ) by {
                assert(state_at(start, events, i) == state_at(start, shorter, i));
            }
        }
        let before = state_at(start, events, n - 1);
        lemma_run_is_valid(start, events, n - 1);
        lemma_one_step(start, events, n - 1);
        let last = events[n - 1];
        verified_grows_by_compared_chunks(before, last.reply, last.cancelled);
        if p < before.record.verified {
            assert(state_at(start, shorter, n - 1) == before);
            verified_means_compared(start, shorter, p);
            if exists|i: int| #[trigger] compared_at(start, shorter, p, i) {
                let i = choose|i: int| #[trigger] compared_at(start, shorter, p, i);
                assert(state_at(start, events, i) == state_at(start, shorter, i));
                assert forall|j: int| i < j <= n implies p < (#[trigger] state_at(
                    start,
                    events,
                    j,
                )).record.verified by {
                    if j < n {
                        assert(state_at(start, events, j) == state_at(start, shorter, j));
                    }
                }
                assert(compared_at(start, events, p, i));
            } else {
                assert forall|j: int| 0 <= j <= n implies p < (#[trigger] state_at(
                    start,
                    events,
                    j,
                )).record.verified by {
                    if j < n {
                        assert(state_at(start, events, j) == state_at(start, shorter, j));
                    }
                }
            }
        } else {
            assert(compares(before, last.reply, p));
            assert(compared_at(start, events, p, n - 1));
        }
    }
}

#[verifier::rlimit(40)]
proof fn lemma_how_it_succeeds(st: State, reply: Reply, cancelled: bool)
    requires
        valid(st),
        answers(st.direction, st.phase, reply),
        step(st, reply, cancelled).0.outcome == Some(Ok::<(), Fault>(())),
    ensures
        ({
            let next = step(st, reply, cancelled).0;
            &&& next.record.status is Completed
            &&& next.record.moved == next.size == st.size
            &&& next.local == st.local
            &&& next.remote == st.remote
            &&& st.phase is HashingRemote
            &&& reply == Reply::Digest(st.local_digest)
        }),
{
}

#[verifier::rlimit(40)]
proof fn lemma_before_remote_hash(st: State, reply: Reply, cancelled: bool)
    requires
        valid(st),
        answers(st.direction, st.phase, reply),
    ensures
        ({
            let (next, then) = step(st, reply, cancelled);
            &&& next.phase is HashingRemote ==> {
                &&& st.phase is ReopeningSftp
                &&& next.local_digest == st.local_digest
                &&& next.local == st.local
                &&& then.task == (Task::HashRemote { path: next.remote, len: next.size })
            }
            &&& next.phase is ReopeningSftp ==> {
                &&& st.phase is HashingLocal
                &&& next.local == st.local
                &&& reply == Reply::Digest(next.local_digest)
            }
            &&& next.phase is HashingLocal ==> then.task == (Task::HashLocal {
                path: next.local,
            })
        }),
{
}

/// Every transfer that succeeds, strict or not, ends with a comparison of the
/// two whole files: the digests of both were asked for last, and were equal.
pub proof fn success_means_compared(start: State, events: Seq<Exchange>)
    requires
        valid(start),
        start.phase is Ready,
        answered(start, events),
        state_at(start, events, events.len() as int).outcome == Some(Ok::<(), Fault>(())),
    ensures
        ({
            let end = state_at(start, events, events.len() as int);
            &&& end.record.status is Completed
            &&& end.record.moved == end.size
            &&& whole_files_compared(start, events)
        }),
{
    let n = events.len() as int;
    assert(state_at(start, events, 0) == start) by {
        assert(events.take(0).len() == 0);
    }
    lemma_earlier(start, events, n - 1);
    let before = state_at(start, events, n - 1);
    lemma_how_it_succeeds(before, events[n - 1].reply, events[n - 1].cancelled);
    lemma_earlier(start, events, n - 2);
    lemma_earlier(start, events, n - 3);
    lemma_earlier(start, events, n - 4);
}

proof fn lemma_earlier(start: State, events: Seq<Exchange>, i: int)
    requires
        valid(start),
        answered(start, events),
        0 <= i < events.len(),
    ensures
        ({
            let st = state_at(start, events, i);
            let e = events[i];
            let (next, then) = step(st, e.reply, e.cancelled);
            &&& valid(st)
            &&& answers(st.direction, st.phase, e.reply)
            &&& state_at(start, events, i + 1) == next
            &&& next.phase is HashingRemote ==> {
                &&& st.phase is ReopeningSftp
                &&& next.local_digest == st.local_digest
                &&& next.local == st.local
                &&& then.task == (Task::HashRemote { path: next.remote, len: next.size })
            }
            &&& next.phase is ReopeningSftp ==> {
                &&& st.phase is HashingLocal
                &&& next.local == st.local
                &&& e.reply == Reply::Digest(next.local_digest)
            }
            &&& next.phase is HashingLocal ==> then.task == (Task::HashLocal {
                path: next.local,
            })
        }),
{
    lemma_run_is_valid(start, events, i);
    lemma_one_step(start, events, i);
    lemma_before_remote_hash(state_at(start, events, i), events[i].reply, events[i].cancelled);
}

/// An upload goes to the file that its remote path stands for, given what the
/// server says about that path.
pub proof fn uploads_go_to_their_target(st: State, is_dir: bool, cancelled: bool)
    requires
        st.direction is Upload,
        trimmed(st.given_remote).len() > 0,
    ensures
        match upload_target(st.given_remote, st.given_local, is_dir) {
            Ok(path) => {
                let next = if ends_in(trimmed(st.given_remote), '/') {
                    locate(st, cancelled)
                } else {
                    probed(st, is_dir, cancelled)
                };
                next.0.remote == path && next.0.parents == parent_directories(path)
            },
            Err(fault) => upload_fault(fault),
        },
{
}

/// Without the user's doing, a failure to connect or to move bytes ends a
/// transfer only if the server's own message says that no repetition will help,
/// or if it comes after the last byte, while the two whole files are compared.
/// A remote file is called missing only on such a message too.
#[verifier::rlimit(60)]
pub proof fn only_lasting_faults_end_a_transfer(st: State, reply: Reply, fault: Fault)
    requires
        valid(st),
        answers(st.direction, st.phase, reply),
        step(st, reply, false).0.outcome == Some(Err::<(), Fault>(fault)),
    ensures
        !(fault is Connect),
        !(fault is ChunkVerifyMismatch),
        fault is Cancelled ==> reply is Interrupted,
        fault is Sftp ==> says_it_lasts(st, reply) || st.phase is ReopeningSftp
            || st.phase is SavingReadFailure,
        fault is InvalidRemotePath && st.phase is FindingSource && reply is Failed
            ==> says_it_lasts(st, reply),
{
}

/// A reply in which the server says that no repetition will help; where a
/// directory was to be made, also one that blames its path.
pub open spec fn says_it_lasts(st: State, reply: Reply) -> bool {
    match reply {
        Reply::Failed(message) => permanent(st.direction, message) || (st.phase is MakingParent
            && speaks_of_path(message)),
        Reply::RemoteFailed(message) => permanent(st.direction, message),
        _ => false,
    }
}

/// A failure of the server that a transfer cannot go on with, at any point
/// between its connection and the comparison of the whole files.
pub open spec fn server_failed(st: State, reply: Reply) -> bool {
    match reply {
        Reply::RemoteFailed(_) => !(st.phase is HashingRemote),
        Reply::Failed(_) => match st.phase {
            Phase::OpeningSftp
            | Phase::MakingParent { .. }
            | Phase::FindingSource
            | Phase::SizingSource
            | Phase::SizingResult => true,
            Phase::Truncating { .. } | Phase::RewindingChunk { .. } => st.direction is Upload,
            _ => false,
        },
        _ => false,
    }
}

/// Any other failure of the server is met with a pause and another attempt,
/// whatever the paths that the transfer works on are called.
#[verifier::rlimit(60)]
pub proof fn other_failures_are_repeated(st: State, reply: Reply)
    requires
        valid(st),
        answers(st.direction, st.phase, reply),
        server_failed(st, reply),
        !says_it_lasts(st, reply),
    ensures
        ({
            let (next, then) = step(st, reply, false);
            &&& next.phase == (Phase::Waiting { waited: 0 })
            &&& next.outcome is None
            &&& then.task == (Task::Sleep { ms: NAP_MS })
        }),
{
}

/// A chunk that was found different never ends a transfer: once it is cut off,
/// the transfer waits, and goes on with the same progress as before.
pub proof fn bad_chunks_are_copied_again(st: State, offset: u64, len: u64)
    requires
        valid(st),
        st.phase == (Phase::RewindingChunk { offset, len }),
    ensures
        ({
            let (next, then) = step(st, Reply::Done, false);
            &&& next.phase == (Phase::Waiting { waited: 0 })
            &&& next.outcome is None
            &&& next.record.moved == offset
            &&& next.record.verified == st.record.verified
            &&& then.task == (Task::Sleep { ms: NAP_MS })
        }),
{
}

/// Every transfer starts valid, and at a chunk edge if its checkpoint has
/// verified whole chunks or the whole file.
pub proof fn transfers_start_in_order(
    local: Seq<char>,
    remote: Seq<char>,
    size: u64,
    force: bool,
    strict: bool,
    checkpoint: Checkpoint,
)
    ensures
        valid(upload_start(local, remote, size, force, strict, checkpoint)),
        valid(download_start(remote, local, force, strict, checkpoint)),
        on_edge(checkpoint.verified as int, size as int) ==> aligned(
            upload_start(local, remote, size, force, strict, checkpoint),
        ),
        on_edge(checkpoint.verified as int, checkpoint.file_size as int) ==> aligned(
            download_start(remote, local, force, strict, checkpoint),
        ),
{
}

/// Once the user has cancelled, nothing more is copied, no connection is made
/// and nobody waits.
#[verifier::rlimit(40)]
pub proof fn cancelled_transfers_move_nothing(st: State, reply: Reply)
    requires
        valid(st),
        answers(st.direction, st.phase, reply),
    ensures
        ({
            let task = step(st, reply, true).1.task;
            !(task is CopyChunk) && !(task is Connect) && !(task is Sleep)
        }),
{
}

/// Progress never exceeds the size of the file, unless a transfer goes on from
/// a checkpoint that lies behind the end of a file that has shrunk.
#[verifier::rlimit(40)]
pub proof fn progress_stays_within_the_file(st: State, reply: Reply, cancelled: bool)
    requires
        valid(st),
        answers(st.direction, st.phase, reply),
        st.phase matches Phase::ComparingBoundary { offset } ==> offset <= st.size,
    ensures
        step(st, reply, cancelled).1.news matches Some(News::Progress { done, total, .. })
            ==> done <= total && total == step(st, reply, cancelled).0.size,
{
}

/// A transfer that goes on behind what is in place first compares the bytes in
/// front of that point, and goes on only if they are equal.
pub proof fn resuming_compares_what_is_in_place(
    st: State,
    offset: u64,
    reply: Reply,
    cancelled: bool,
)
    requires
        valid(st),
        offset > 0,
    ensures
        ({
            let (asking, then) = resume(st, offset, cancelled);
            let len = least(CHUNK_SIZE as int, offset as int);
            &&& asking.phase == (Phase::ComparingBoundary { offset })
            &&& then.task == (Task::ReadBoundary {
                local: st.local,
                remote: st.remote,
                start: (offset - len) as u64,
                len: len as u64,
            })
        }),
        st.phase == (Phase::ComparingBoundary { offset }) && answers(
            st.direction,
            st.phase,
            reply,
        ) && (step(st, reply, cancelled).1.task is CopyChunk || step(
            st,
            reply,
            cancelled,
        ).1.task is OpenLocal) ==> (reply matches Reply::Boundary { local, remote } && local
            == remote),
{
}

/// In strict mode every chunk is read back and hashed right after it was moved,
/// before it counts as moved.
pub proof fn strict_chunks_are_read_back(st: State, offset: u64, len: u64, cancelled: bool)
    requires
        valid(st),
        st.strict,
        st.phase == (Phase::CopyingChunk { offset, len }),
    ensures
        ({
            let (next, then) = step(st, Reply::Done, cancelled);
            &&& then.task == (Task::HashChunk {
                local: st.local,
                remote: st.remote,
                offset,
                len,
            })
            &&& next.record == st.record
        }),
{
}

/// A remote directory is made only where the server does not know it, and only
/// if it is one of those above the remote file.
#[verifier::rlimit(40)]
pub proof fn only_missing_directories_are_made(st: State, reply: Reply, cancelled: bool)
    requires
        valid(st),
        answers(st.direction, st.phase, reply),
        step(st, reply, cancelled).1.task is MakeRemoteDir,
    ensures
        st.direction is Upload,
        reply is Failed,
        st.phase matches Phase::CheckingParent { index } && step(st, reply, cancelled).1.task
            == (Task::MakeRemoteDir {
            path: st.parents[index as int],
            mode: REMOTE_DIR_MODE,
        }),
{
}

/// A strict transfer in which all that was moved is verified, and which goes on
/// nowhere else than behind it.
pub open spec fn in_step(st: State) -> bool {
    &&& st.strict
    &&& st.outcome == Some(Ok::<(), Fault>(())) || st.record.verified == st.record.moved
    &&& match st.phase {
        Phase::Truncating { offset } | Phase::ComparingBoundary { offset } => offset
            == st.record.moved,
        _ => true,
    }
}

/// A strict transfer that has verified all that it has moved keeps to that, with
/// every chunk that is saved and with every resume.
#[verifier::rlimit(60)]
pub proof fn strict_transfers_keep_in_step(st: State, reply: Reply, cancelled: bool)
    requires
        valid(st),
        answers(st.direction, st.phase, reply),
        in_step(st),
    ensures
        in_step(step(st, reply, cancelled).0),
{
}

/// Whatever happens to a strict transfer that starts with all that was moved
/// verified, that is so at every point of it.
pub proof fn strict_transfers_stay_in_step(start: State, events: Seq<Exchange>, i: int)
    requires
        valid(start),
        start.phase is Ready,
        start.strict,
        start.record.verified == start.record.moved,
        answered(start, events),
        0 <= i <= events.len(),
    ensures
        in_step(state_at(start, events, i)),
    decreases i,
{
    if i == 0 {
        assert(events.take(0).len() == 0);
    } else {
        strict_transfers_stay_in_step(start, events, i - 1);
        lemma_run_is_valid(start, events, i - 1);
        lemma_one_step(start, events, i - 1);
        strict_transfers_keep_in_step(
            state_at(start, events, i - 1),
            events[i - 1].reply,
            events[i - 1].cancelled,
        );
    }
}

/// A strict transfer that was broken goes on exactly where it was: it cuts the
/// target there if it is longer, compares the bytes in front of that point, and
/// moves the next chunk from there, with its record as it was.
pub proof fn strict_transfers_go_on_where_they_were(
    st: State,
    target_size: u64,
    bytes: Seq<u8>,
    cancelled: bool,
)
    requires
        valid(st),
        in_step(st),
        !st.force,
        st.outcome is None,
        target_size <= st.size,
        st.record.moved > 0,
    ensures
        ({
            let point = st.record.moved;
            let next = sized(st, target_size, cancelled).0;
            &&& next.record == st.record
            &&& next.phase == if target_size > point {
                Phase::Truncating { offset: point }
            } else {
                Phase::ComparingBoundary { offset: point }
            }
        }),
        st.phase == (Phase::Truncating { offset: st.record.moved }) ==> ({
            let next = step(st, Reply::Done, cancelled).0;
            next.record == st.record && next.phase == (Phase::ComparingBoundary {
                offset: st.record.moved,
            })
        }),
        st.phase is ComparingBoundary && !cancelled && st.record.moved < st.size ==> ({
            let (next, then) = step(
                st,
                Reply::Boundary { local: bytes, remote: bytes },
                cancelled,
            );
            &&& next.record == st.record
            &&& st.direction is Upload ==> then.task == (Task::OpenLocal {
                path: st.local,
                offset: st.record.moved,
            })
            &&& st.direction is Download ==> (then.task matches Task::CopyChunk { offset, .. }
                && offset == st.record.moved)
        }),
{
}

/// A fast transfer that is moving chunks counts none of them as verified.
pub open spec fn set_aside(st: State) -> bool {
    match st.phase {
        Phase::OpeningSource { offset } => st.record.verified == 0 || offset >= st.size,
        Phase::CopyingChunk { .. } | Phase::SavingChunk { .. } => st.record.verified == 0,
        _ => true,
    }
}

/// A fast transfer moves no chunk before it has set aside what was verified, so
/// that a resume goes by the chunks that it has moved itself.
#[verifier::rlimit(40)]
pub proof fn fast_transfers_set_verified_aside(st: State, reply: Reply, cancelled: bool)
    requires
        valid(st),
        answers(st.direction, st.phase, reply),
        !st.strict,
        set_aside(st),
    ensures
        ({
            let (next, then) = step(st, reply, cancelled);
            &&& set_aside(next)
            &&& then.task is CopyChunk ==> next.record.verified == 0
        }),
{
}

/// A fast transfer that was broken goes on at the edge of the last whole chunk
/// that it has moved.
pub proof fn fast_transfers_go_on_at_the_last_whole_chunk(
    st: State,
    target_size: u64,
    cancelled: bool,
)
    requires
        !st.force,
        st.record.verified == 0,
        chunk_edge(st.record.moved as int) > 0,
        target_size <= st.size,
    ensures
        ({
            let point = chunk_edge(st.record.moved as int) as u64;
            let next = sized(st, target_size, cancelled).0;
            &&& next.record == st.record
            &&& next.phase == if target_size > point {
                Phase::Truncating { offset: point }
            } else {
                Phase::ComparingBoundary { offset: point }
            }
        }),
{
}

/// A transfer that is not forced, or no more, and that goes on only where it
/// can.
pub open spec fn placed(st: State) -> bool {
    &&& !st.force
    &&& match st.phase {
        Phase::Truncating { offset } | Phase::ComparingBoundary { offset } => offset
            == trusted_bytes(st.record),
        Phase::InspectingStale | Phase::RemovingStale => trusted_bytes(st.record) == 0,
        _ => true,
    }
}

/// No step takes back what a later attempt can keep, unless the two whole files
/// were found different.
#[verifier::rlimit(60)]
pub proof fn progress_is_never_lost(st: State, reply: Reply, cancelled: bool)
    requires
        valid(st),
        aligned(st),
        placed(st),
        answers(st.direction, st.phase, reply),
    ensures
        ({
            let next = step(st, reply, cancelled).0;
            &&& placed(next)
            &&& st.phase is RemovingMismatch || next.outcome == Some(Ok::<(), Fault>(()))
                || trusted_bytes(st.record) <= trusted_bytes(next.record)
        }),
{
    let next = step(st, reply, cancelled).0;
    match reply {
        Reply::Failed(e) => {
            lemma_fail_keeps(st, Fault::Sftp(e), cancelled);
            lemma_fail_keeps(st, Fault::LocalIo(e), cancelled);
        },
        Reply::LocalFailed(e) => {
            lemma_fail_keeps(st, Fault::LocalIo(e), cancelled);
        },
        Reply::RemoteFailed(e) => {
            lemma_fail_keeps(st, Fault::Sftp(e), cancelled);
        },
        _ => {},
    }
    match (st.phase, reply) {
        (Phase::SizingTarget, Reply::Stat(stat)) => {
            lemma_sized_keeps(st, stat.size.unwrap_or(0), cancelled);
            assert(keeps(st, next));
        },
        (Phase::SizingTarget, _) => {
            lemma_sized_keeps(st, 0, cancelled);
            assert(keeps(st, next));
        },
        (Phase::SizingLocal, Reply::Size(size)) => {
            lemma_sized_keeps(st, size, cancelled);
            assert(keeps(st, next));
        },
        (Phase::Truncating { offset }, _) => {
            lemma_resume_keeps(st, offset, cancelled);
            assert(keeps(st, next));
        },
        (Phase::InspectingStale, _) | (Phase::RemovingStale, _) => {
            lemma_resume_keeps(st, 0, cancelled);
            assert(keeps(st, next));
        },
        (Phase::ComparingBoundary { offset }, _) => {
            lemma_begin_keeps(st, offset, cancelled);
            lemma_fail_keeps(st, Fault::ResumeBoundaryMismatch { offset }, cancelled);
            assert(keeps(st, next));
        },
        (Phase::OpeningSource { offset }, _) | (Phase::SavingChunk { offset }, _) => {
            lemma_next_chunk_keeps(st, offset, cancelled);
            assert(keeps(st, next));
        },
        (Phase::RewindingChunk { offset, len }, _) => {
            lemma_fail_keeps(st, Fault::ChunkVerifyMismatch { offset, len }, cancelled);
            assert(keeps(st, next));
        },
        (Phase::CopyingChunk { offset, len }, _) | (Phase::CheckingChunk { offset, len }, _) => {
            chunk_edge_is_monotone(offset as int, offset + len);
            assert(keeps(st, next));
        },
        (Phase::RemovingMismatch, _) => {},
        _ => {
            assert(keeps(st, next));
        },
    }
}

spec fn keeps(st: State, next: State) -> bool {
    &&& placed(next)
    &&& next.outcome == Some(Ok::<(), Fault>(())) || trusted_bytes(st.record) <= trusted_bytes(
        next.record,
    )
}

proof fn lemma_fail_keeps(st: State, fault: Fault, cancelled: bool)
    requires
        !st.force,
    ensures
        keeps(st, fail(st, fault, cancelled).0),
{
}

proof fn lemma_next_chunk_keeps(st: State, offset: u64, cancelled: bool)
    requires
        !st.force,
    ensures
        keeps(st, next_chunk(st, offset, cancelled).0),
{
    lemma_fail_keeps(st, Fault::Cancelled, cancelled);
}

proof fn lemma_begin_keeps(st: State, offset: u64, cancelled: bool)
    requires
        !st.force,
        settled(st),
        offset == trusted_bytes(st.record),
    ensures
        keeps(st, begin(st, offset, cancelled).0),
{
    let record = Checkpoint {
        moved: offset,
        verified: verified_from(st, offset),
        ..st.record
    };
    chunk_edge_is_stable(st.record.moved as int);
    assert(trusted_bytes(record) == offset);
    lemma_next_chunk_keeps(State { record, ..st }, offset, cancelled);
}

proof fn lemma_resume_keeps(st: State, offset: u64, cancelled: bool)
    requires
        !st.force,
        settled(st),
        offset == trusted_bytes(st.record),
    ensures
        keeps(st, resume(st, offset, cancelled).0),
{
    lemma_begin_keeps(st, offset, cancelled);
}

proof fn lemma_sized_keeps(st: State, target_size: u64, cancelled: bool)
    requires
        !st.force,
        settled(st),
    ensures
        keeps(st, sized(st, target_size, cancelled).0),
{
    lemma_fail_keeps(st, Fault::TargetLarger { target: target_size, source: st.size }, cancelled);
    chunk_edge_is_stable(st.record.moved as int);
    lemma_resume_keeps(st, trusted_bytes(st.record) as u64, cancelled);
}

/// However often a transfer breaks, what a later attempt can keep does not
/// shrink from one point of it to a later one, unless it ends well or the two
/// whole files were found different.
pub proof fn broken_transfers_lose_nothing(
    start: State,
    events: Seq<Exchange>,
    i: int,
    j: int,
)
    requires
        valid(start),
        aligned(start),
        answered(start, events),
        forall|k: int|
            0 <= k < events.len() ==> source_steady(
                #[trigger] state_at(start, events, k),
                events[k].reply,
            ),
        0 <= i <= j <= events.len(),
        placed(state_at(start, events, i)),
        forall|k: int|
            i <= k < j ==> !((#[trigger] state_at(start, events, k)).phase is RemovingMismatch),
    ensures
        placed(state_at(start, events, j)),
        state_at(start, events, j).outcome == Some(Ok::<(), Fault>(())) || trusted_bytes(
            state_at(start, events, i).record,
        ) <= trusted_bytes(state_at(start, events, j).record),
    decreases j,
{
    if i < j {
        broken_transfers_lose_nothing(start, events, i, j - 1);
        lemma_run_is_valid(start, events, j - 1);
        lemma_run_is_aligned(start, events, j - 1);
        lemma_one_step(start, events, j - 1);
        let st = state_at(start, events, j - 1);
        progress_is_never_lost(st, events[j - 1].reply, events[j - 1].cancelled);
    }
}

proof fn lemma_run_is_aligned(start: State, events: Seq<Exchange>, i: int)
    requires
        valid(start),
        aligned(start),
        answered(start, events),
        forall|k: int|
            0 <= k < events.len() ==> source_steady(
                #[trigger] state_at(start, events, k),
                events[k].reply,
            ),
        0 <= i <= events.len(),
    ensures
        aligned(state_at(start, events, i)),
    decreases i,
{
    if i == 0 {
        assert(events.take(0).len() == 0);
    } else {
        lemma_run_is_aligned(start, events, i - 1);
        lemma_run_is_valid(start, events, i - 1);
        lemma_one_step(start, events, i - 1);
        chunks_are_copied_in_order(
            state_at(start, events, i - 1),
            events[i - 1].reply,
            events[i - 1].cancelled,
        );
    }
}

} // verus!
