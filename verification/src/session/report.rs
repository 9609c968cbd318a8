//! What the user is told while a transfer goes on and when it ends.

use vstd::prelude::*;

use crate::checkpoint::{Checkpoint, CheckpointStatus};
use crate::history::FinishedTransfer;
use crate::number::{decimal, decimal_text};
use crate::sftp::download::DownloadError;
use crate::sftp::fault::{fault_text, Direction, Fault};
use crate::sftp::upload::{format_remote_sftp_error, sftp_error_text, UploadError};
use crate::text::{
    beginnings_are_followed_by_the_rest, begins, contains, mentions, mentions_stand_inside,
    occurs_at, opt_view, same, starts_with,
};
use crate::transfer::record::TransferRecord;

verus! {

/// A progress message.
#[derive(Debug)]
pub struct ProgressEvent {
    pub done_bytes: u64,
    pub total_bytes: u64,
    pub status: String,
    pub message: String,
    pub retry_count: u32,
    pub verify_summary: Option<String>,
}

/// What a progress message says.
pub struct Told {
    pub done: u64,
    pub total: u64,
    pub status: Seq<char>,
    pub message: Seq<char>,
    pub retry_count: u32,
    pub summary: Option<Seq<char>>,
}

impl View for ProgressEvent {
    type V = Told;

    open spec fn view(&self) -> Told {
        Told {
            done: self.done_bytes,
            total: self.total_bytes,
            status: self.status@,
            message: self.message@,
            retry_count: self.retry_count,
            summary: opt_view(self.verify_summary),
        }
    }
}

/// A message about a repeated attempt.
#[derive(Debug)]
pub struct RetryEvent {
    pub delay_ms: u64,
    pub message: String,
    pub retry_count: u32,
}

/// The message for some progress.
pub open spec fn progress_told(
    direction: Direction,
    done: u64,
    total: u64,
    status: Seq<char>,
    retry_count: u32,
) -> Told {
    let verb = if direction is Upload {
        "已上传 "@
    } else {
        "已下载 "@
    };
    let counted = verb + decimal(done as nat) + " / "@ + decimal(total as nat) + " 字节"@;
    Told {
        done,
        total,
        status,
        message: if retry_count > 0 {
            counted + " · 重试 "@ + decimal(retry_count as nat) + " 次"@
        } else {
            counted
        },
        retry_count,
        summary: None,
    }
}

/// Makes the message for some progress.
pub fn progress_event(
    direction: Direction,
    done: u64,
    total: u64,
    status: &str,
    retry_count: u32,
) -> (r: ProgressEvent)
    ensures
        r@ == progress_told(direction, done, total, status@, retry_count),
{
    let verb = match direction {
        Direction::Upload => "已上传 ".to_owned(),
        Direction::Download => "已下载 ".to_owned(),
    };
    let done_text = decimal_text(done as u128);
    let total_text = decimal_text(total as u128);
    let counted = verb.concat(done_text.as_str()).concat(" / ").concat(
        total_text.as_str(),
    ).concat(" 字节");
    let message = if retry_count > 0 {
        let retries = decimal_text(retry_count as u128);
        counted.concat(" · 重试 ").concat(retries.as_str()).concat(" 次")
    } else {
        counted
    };
    ProgressEvent {
        done_bytes: done,
        total_bytes: total,
        status: status.to_owned(),
        message,
        retry_count,
        verify_summary: None,
    }
}

/// The words for a repeated attempt.
pub open spec fn retry_text(message: Seq<char>, retry_count: u32) -> Seq<char> {
    message + "（第 "@ + decimal(retry_count as nat) + " 次重试）"@
}

/// Makes the two messages for a repeated attempt.
pub fn retry_events(
    record: &TransferRecord,
    retry_count: u32,
    delay_ms: u64,
    message: &str,
) -> (r: (RetryEvent, ProgressEvent))
    ensures
        r.0.delay_ms == delay_ms,
        r.0.retry_count == retry_count,
        r.0.message@ == retry_text(message@, retry_count),
        r.1@ == (Told {
            done: record@.moved,
            total: record@.file_size,
            status: "retrying"@,
            message: retry_text(message@, retry_count),
            retry_count,
            summary: None,
        }),
{
    let count = decimal_text(retry_count as u128);
    let text = message.to_owned().concat("（第 ").concat(count.as_str()).concat(" 次重试）");
    (
        RetryEvent { delay_ms, message: text.clone(), retry_count },
        ProgressEvent {
            done_bytes: record.moved_bytes,
            total_bytes: record.file_size,
            status: "retrying".to_owned(),
            message: text,
            retry_count,
            verify_summary: None,
        },
    )
}

/// Makes the message for a transfer that stands still.
pub fn stalled_event(
    stalled_bytes: u64,
    total: u64,
    retry_count: u32,
    stall_secs: u64,
) -> (r: ProgressEvent)
    ensures
        r@ == (Told {
            done: stalled_bytes,
            total,
            status: "stalled"@,
            message: "传输超过 "@ + decimal(stall_secs as nat)
                + " 秒无响应，正在中断并重连..."@,
            retry_count,
            summary: None,
        }),
{
    let secs = decimal_text(stall_secs as u128);
    ProgressEvent {
        done_bytes: stalled_bytes,
        total_bytes: total,
        status: "stalled".to_owned(),
        message: "传输超过 ".to_owned().concat(secs.as_str()).concat(
            " 秒无响应，正在中断并重连...",
        ),
        retry_count,
        verify_summary: None,
    }
}

/// Answers a request to cancel: refuses it if nothing is going on.
pub fn cancel_event(direction: Direction, running: bool) -> (r: Result<ProgressEvent, String>)
    ensures
        if running {
            r matches Ok(event) && event@ == (Told {
                done: 0,
                total: 0,
                status: "cancelling"@,
                message: "正在取消，正在中断连接..."@,
                retry_count: 0,
                summary: None,
            })
        } else {
            r matches Err(e) && e@ == if direction is Upload {
                "当前没有进行中的上传"@
            } else {
                "当前没有进行中的下载"@
            }
        },
{
    if !running {
        return match direction {
            Direction::Upload => Err("当前没有进行中的上传".to_owned()),
            Direction::Download => Err("当前没有进行中的下载".to_owned()),
        };
    }
    Ok(
        ProgressEvent {
            done_bytes: 0,
            total_bytes: 0,
            status: "cancelling".to_owned(),
            message: "正在取消，正在中断连接...".to_owned(),
            retry_count: 0,
            verify_summary: None,
        },
    )
}

/// An SFTP error that already speaks of the remote path.
pub open spec fn names_the_path(detail: Seq<char>) -> bool {
    mentions(detail, "远端路径错误"@) || begins(detail, "远端路径「"@)
}

/// Why a transfer has failed, without the count of its repetitions.
pub open spec fn failure_body(direction: Direction, fault: Fault, remote: Seq<char>) -> Seq<char> {
    let up = direction is Upload;
    match fault {
        Fault::HashMismatch => if up {
            "SHA-256 校验未通过，远端文件已删除，请重新上传"@
        } else {
            "SHA-256 校验未通过，本地文件已删除，请重新下载"@
        },
        Fault::InvalidRemotePath(m) => "远端路径错误："@ + remote + " — "@ + m,
        Fault::RemoteNotAFile(m) => "远端路径错误："@ + remote + " — "@ + m,
        Fault::TargetLarger { target, source } => if up {
            "远端路径错误："@ + remote + " — 远端文件（"@ + decimal(target as nat)
                + " 字节）大于本地文件（"@ + decimal(source as nat) + " 字节）"@
        } else {
            fault_text(direction, fault)
        },
        Fault::ResumeBoundaryMismatch { offset } => if up {
            "远端路径错误："@ + remote + " — 续传边界校验失败（offset="@ + decimal(
                offset as nat,
            ) + "），建议清除断点后重试"@
        } else {
            fault_text(direction, fault)
        },
        Fault::Sftp(detail) => if names_the_path(detail) {
            detail
        } else {
            sftp_error_text(detail, remote)
        },
        _ => fault_text(direction, fault),
    }
}

/// Why a transfer has failed, and how often it was repeated.
pub open spec fn failure_text(
    direction: Direction,
    fault: Fault,
    remote: Seq<char>,
    retry_count: u32,
) -> Seq<char> {
    failure_body(direction, fault, remote) + "（已累计自动重试 "@ + decimal(retry_count as nat)
        + " 次）"@
}

fn with_count(body: String, retry_count: u32) -> (r: String)
    ensures
        r@ == body@ + "（已累计自动重试 "@ + decimal(retry_count as nat) + " 次）"@,
{
    let count = decimal_text(retry_count as u128);
    body.concat("（已累计自动重试 ").concat(count.as_str()).concat(" 次）")
}

fn sftp_failure(detail: &String, remote_path: &str) -> (r: String)
    ensures
        r@ == if names_the_path(detail@) {
            detail@
        } else {
            sftp_error_text(detail@, remote_path@)
        },
{
    if contains(detail.as_str(), "远端路径错误") || starts_with(detail.as_str(), "远端路径「") {
        detail.clone()
    } else {
        format_remote_sftp_error(detail.as_str(), remote_path)
    }
}

/// Says why an upload has failed.
pub fn format_upload_failure(err: &UploadError, remote_path: &str, retry_count: u32) -> (r: String)
    ensures
        r@ == failure_text(Direction::Upload, err@, remote_path@, retry_count),
{
    let body = match err {
        UploadError::HashMismatch => "SHA-256 校验未通过，远端文件已删除，请重新上传".to_owned(),
        UploadError::InvalidRemotePath(m) => "远端路径错误：".to_owned().concat(
            remote_path,
        ).concat(" — ").concat(m.as_str()),
        UploadError::RemoteLargerThanLocal { remote, local } => {
            let remote_text = decimal_text(*remote as u128);
            let local_text = decimal_text(*local as u128);
            "远端路径错误：".to_owned().concat(remote_path).concat(" — 远端文件（").concat(
                remote_text.as_str(),
            ).concat(" 字节）大于本地文件（").concat(local_text.as_str()).concat(" 字节）")
        },
        UploadError::ResumeBoundaryMismatch { offset } => {
            let offset_text = decimal_text(*offset as u128);
            "远端路径错误：".to_owned().concat(remote_path).concat(
                " — 续传边界校验失败（offset=",
            ).concat(offset_text.as_str()).concat("），建议清除断点后重试")
        },
        UploadError::Sftp(detail) => sftp_failure(detail, remote_path),
        _ => err.message(),
    };
    with_count(body, retry_count)
}

/// Says why a download has failed.
pub fn format_download_failure(
    err: &DownloadError,
    remote_path: &str,
    retry_count: u32,
) -> (r: String)
    ensures
        r@ == failure_text(Direction::Download, err@, remote_path@, retry_count),
{
    let body = match err {
        DownloadError::HashMismatch => "SHA-256 校验未通过，本地文件已删除，请重新下载".to_owned(),
        DownloadError::InvalidRemotePath(m) => "远端路径错误：".to_owned().concat(
            remote_path,
        ).concat(" — ").concat(m.as_str()),
        DownloadError::RemoteNotAFile(m) => "远端路径错误：".to_owned().concat(
            remote_path,
        ).concat(" — ").concat(m.as_str()),
        DownloadError::Sftp(detail) => sftp_failure(detail, remote_path),
        _ => err.message(),
    };
    with_count(body, retry_count)
}

/// How the two files were compared.
pub open spec fn summary_text(strict: bool) -> Seq<char> {
    if strict {
        "校验通过 · 逐块校验 + SHA-256 一致"@
    } else {
        "校验通过 · SHA-256 一致"@
    }
}

/// Says how the two files were compared.
pub fn completed_verify_summary(strict_chunk_verify: bool) -> (r: String)
    ensures
        r@ == summary_text(strict_chunk_verify),
{
    if strict_chunk_verify {
        "校验通过 · 逐块校验 + SHA-256 一致".to_owned()
    } else {
        "校验通过 · SHA-256 一致".to_owned()
    }
}

/// What is done when a transfer has ended.
#[derive(Debug)]
pub struct Closing {
    /// The checkpoint that is saved.
    pub record: TransferRecord,
    /// The checkpoint is removed, since nothing is left to go on with.
    pub clear_checkpoint: bool,
    /// What the history remembers.
    pub finished: FinishedTransfer,
    /// The title of a notification, where there is one.
    pub notification: Option<String>,
    pub event: ProgressEvent,
}

/// How the message on a cancelled transfer begins.
pub open spec fn cancelled_words(direction: Direction) -> Seq<char> {
    if direction is Upload {
        "上传已取消，可稍后继续（已重试 "@
    } else {
        "下载已取消，可稍后继续（已重试 "@
    }
}

/// How the message on a transfer begins whose result could not be read back.
pub open spec fn unread_words(direction: Direction) -> Seq<char> {
    if direction is Upload {
        "传完后校验时网络中断，各数据块均已校验通过，请直接点「开始上传」重试（已重试 "@
    } else {
        "传完后校验时网络中断，各数据块均已校验通过，请直接点「开始下载」重试（已重试 "@
    }
}

/// The last words on a transfer: its status in the history, the message, and
/// the title of a notification.
pub open spec fn last_words(
    direction: Direction,
    outcome: Result<(), Fault>,
    record: Checkpoint,
) -> (Seq<char>, Seq<char>, Option<Seq<char>>) {
    let up = direction is Upload;
    let count = decimal(record.retry_count as nat);
    match outcome {
        Ok(_) => {
            let done = if up {
                "上传完成"@
            } else {
                "下载完成"@
            };
            (
                "completed"@,
                if record.retry_count > 0 {
                    done + "（共重试 "@ + count + " 次）"@
                } else {
                    done
                },
                Some("ResiliSSH"@),
            )
        },
        Err(Fault::Cancelled) => (
            "cancelled"@,
            cancelled_words(direction) + count + " 次）"@,
            None,
        ),
        Err(fault) => (
            "failed"@,
            if record.failure_reason == Some("verify_read_failed"@) {
                unread_words(direction) + count + " 次）"@
            } else {
                failure_text(direction, fault, record.remote_path, record.retry_count)
            },
            Some(
                if up {
                    "ResiliSSH 上传失败"@
                } else {
                    "ResiliSSH 下载失败"@
                },
            ),
        ),
    }
}

/// What is done when a transfer has ended: a failed one is marked as such, and
/// the checkpoint of a completed one is removed.
pub open spec fn closes(
    closing: Closing,
    direction: Direction,
    outcome: Result<(), Fault>,
    record: Checkpoint,
    strict: bool,
) -> bool {
    let (status, message, title) = last_words(direction, outcome, record);
    &&& closing.record@ == if outcome is Ok || outcome == Err::<(), Fault>(Fault::Cancelled) {
        record
    } else {
        Checkpoint { status: CheckpointStatus::Failed, ..record }
    }
    &&& closing.clear_checkpoint == (outcome is Ok)
    &&& closing.finished.local_path@ == record.local_path
    &&& closing.finished.remote_path@ == record.remote_path
    &&& closing.finished.host@ == record.host
    &&& closing.finished.port == record.port
    &&& closing.finished.username@ == record.username
    &&& closing.finished.file_size == record.file_size
    &&& closing.finished.status@ == status
    &&& closing.finished.retry_count == record.retry_count
    &&& opt_view(closing.finished.message) == Some(message)
    &&& opt_view(closing.notification) == title
    &&& closing.event@ == (Told {
        done: if outcome is Ok {
            record.file_size
        } else {
            record.moved
        },
        total: record.file_size,
        status,
        message,
        retry_count: record.retry_count,
        summary: if outcome is Ok {
            Some(summary_text(strict))
        } else {
            None
        },
    })
}

fn failed_for_reading(record: &TransferRecord) -> (r: bool)
    ensures
        r == (record@.failure_reason == Some("verify_read_failed"@)),
{
    match &record.failure_reason {
        Some(reason) => same(reason.as_str(), "verify_read_failed"),
        None => false,
    }
}

fn completed_text(direction: Direction, retry_count: u32) -> (r: String)
    ensures
        forall|record: Checkpoint|
            record.retry_count == retry_count ==> r@ == (#[trigger] last_words(
                direction,
                Ok(()),
                record,
            )).1,
{
    let done = match direction {
        Direction::Upload => "上传完成".to_owned(),
        Direction::Download => "下载完成".to_owned(),
    };
    if retry_count > 0 {
        let count = decimal_text(retry_count as u128);
        done.concat("（共重试 ").concat(count.as_str()).concat(" 次）")
    } else {
        done
    }
}

fn cancelled_text(direction: Direction, retry_count: u32) -> (r: String)
    ensures
        forall|record: Checkpoint|
            record.retry_count == retry_count ==> r@ == (#[trigger] last_words(
                direction,
                Err(Fault::Cancelled),
                record,
            )).1,
{
    let count = decimal_text(retry_count as u128);
    match direction {
        Direction::Upload => "上传已取消，可稍后继续（已重试 ".to_owned(),
        Direction::Download => "下载已取消，可稍后继续（已重试 ".to_owned(),
    }.concat(count.as_str()).concat(" 次）")
}

fn unread_text(direction: Direction, retry_count: u32) -> (r: String)
    ensures
        r@ == unread_words(direction) + decimal(retry_count as nat) + " 次）"@,
{
    let count = decimal_text(retry_count as u128);
    match direction {
        Direction::Upload => "传完后校验时网络中断，各数据块均已校验通过，请直接点「开始上传」重试（已重试 ".to_owned(),
        Direction::Download => "传完后校验时网络中断，各数据块均已校验通过，请直接点「开始下载」重试（已重试 ".to_owned(),
    }.concat(count.as_str()).concat(" 次）")
}

fn close(
    record: TransferRecord,
    status: &str,
    message: String,
    notification: Option<String>,
    done_bytes: u64,
    clear_checkpoint: bool,
    verify_summary: Option<String>,
) -> (r: Closing)
    ensures
        r.record@ == record@,
        r.clear_checkpoint == clear_checkpoint,
        r.finished.local_path@ == record@.local_path,
        r.finished.remote_path@ == record@.remote_path,
        r.finished.host@ == record@.host,
        r.finished.port == record@.port,
        r.finished.username@ == record@.username,
        r.finished.file_size == record@.file_size,
        r.finished.status@ == status@,
        r.finished.retry_count == record@.retry_count,
        opt_view(r.finished.message) == Some(message@),
        opt_view(r.notification) == opt_view(notification),
        r.event@ == (Told {
            done: done_bytes,
            total: record@.file_size,
            status: status@,
            message: message@,
            retry_count: record@.retry_count,
            summary: opt_view(verify_summary),
        }),
{
    let finished = FinishedTransfer {
        local_path: record.local_path.clone(),
        remote_path: record.remote_path.clone(),
        host: record.host.clone(),
        port: record.port,
        username: record.username.clone(),
        file_size: record.file_size,
        status: status.to_owned(),
        retry_count: record.retry_count,
        message: Some(message.clone()),
    };
    let event = ProgressEvent {
        done_bytes,
        total_bytes: record.file_size,
        status: status.to_owned(),
        message,
        retry_count: record.retry_count,
        verify_summary,
    };
    Closing { record, clear_checkpoint, finished, notification, event }
}

fn close_completed(direction: Direction, record: TransferRecord, strict: bool) -> (r: Closing)
    ensures
        closes(r, direction, Ok(()), record@, strict),
{
    let message = completed_text(direction, record.retry_count);
    let size: u64 = record.file_size;
    proof {
        assert(message@ == last_words(direction, Ok(()), record@).1);
    }
    close(
        record,
        "completed",
        message,
        Some("ResiliSSH".to_owned()),
        size,
        true,
        Some(completed_verify_summary(strict)),
    )
}

fn close_cancelled(direction: Direction, record: TransferRecord, strict: bool) -> (r: Closing)
    ensures
        closes(r, direction, Err(Fault::Cancelled), record@, strict),
{
    let message = cancelled_text(direction, record.retry_count);
    let moved: u64 = record.moved_bytes;
    proof {
        assert(message@ == last_words(direction, Err(Fault::Cancelled), record@).1);
    }
    close(record, "cancelled", message, None, moved, false, None)
}

/// Closes an upload that has ended.
pub fn finish_upload(
    outcome: &Result<(), UploadError>,
    record: TransferRecord,
    strict_chunk_verify: bool,
) -> (r: Closing)
    ensures
        closes(
            r,
            Direction::Upload,
            match *outcome {
                Ok(_) => Ok(()),
                Err(e) => Err(e@),
            },
            record@,
            strict_chunk_verify,
        ),
{
    match outcome {
        Ok(_) => close_completed(Direction::Upload, record, strict_chunk_verify),
        Err(UploadError::Cancelled) => close_cancelled(
            Direction::Upload,
            record,
            strict_chunk_verify,
        ),
        Err(err) => {
            let mut failed = record;
            failed.status = CheckpointStatus::Failed;
            let message = if failed_for_reading(&failed) {
                unread_text(Direction::Upload, failed.retry_count)
            } else {
                format_upload_failure(err, failed.remote_path.as_str(), failed.retry_count)
            };
            let moved: u64 = failed.moved_bytes;
            close(
                failed,
                "failed",
                message,
                Some("ResiliSSH 上传失败".to_owned()),
                moved,
                false,
                None,
            )
        },
    }
}

/// Closes a download that has ended.
pub fn finish_download(
    outcome: &Result<(), DownloadError>,
    record: TransferRecord,
    strict_chunk_verify: bool,
) -> (r: Closing)
    ensures
        closes(
            r,
            Direction::Download,
            match *outcome {
                Ok(_) => Ok(()),
                Err(e) => Err(e@),
            },
            record@,
            strict_chunk_verify,
        ),
{
    match outcome {
        Ok(_) => close_completed(Direction::Download, record, strict_chunk_verify),
        Err(DownloadError::Cancelled) => close_cancelled(
            Direction::Download,
            record,
            strict_chunk_verify,
        ),
        Err(err) => {
            let mut failed = record;
            failed.status = CheckpointStatus::Failed;
            let message = if failed_for_reading(&failed) {
                unread_text(Direction::Download, failed.retry_count)
            } else {
                format_download_failure(err, failed.remote_path.as_str(), failed.retry_count)
            };
            let moved: u64 = failed.moved_bytes;
            close(
                failed,
                "failed",
                message,
                Some("ResiliSSH 下载失败".to_owned()),
                moved,
                false,
                None,
            )
        },
    }
}

/// The checkpoint is removed exactly when the transfer has succeeded; one that
/// failed or was cancelled keeps its progress.
pub proof fn only_success_removes_the_checkpoint(
    closing: Closing,
    direction: Direction,
    outcome: Result<(), Fault>,
    record: Checkpoint,
    strict: bool,
)
    requires
        closes(closing, direction, outcome, record, strict),
    ensures
        closing.clear_checkpoint <==> outcome is Ok,
        closing.record@.moved == record.moved,
        closing.record@.verified == record.verified,
        closing.notification is None <==> outcome == Err::<(), Fault>(Fault::Cancelled),
{
}

proof fn lemma_inside(a: Seq<char>, p: Seq<char>, b: Seq<char>)
    ensures
        mentions(a + p + b, p),
{
    mentions_stand_inside(a + p + b, p);
}

/// A progress message says how far the transfer has come of how much, in numbers
/// and in words, and how often it was repeated, where it was.
pub proof fn progress_messages_say_how_far(
    direction: Direction,
    done: u64,
    total: u64,
    status: Seq<char>,
    retry_count: u32,
)
    ensures
        ({
            let told = progress_told(direction, done, total, status, retry_count);
            &&& told.done == done
            &&& told.total == total
            &&& told.status == status
            &&& told.retry_count == retry_count
            &&& told.summary is None
            &&& mentions(told.message, decimal(done as nat))
            &&& mentions(told.message, decimal(total as nat))
            &&& retry_count > 0 ==> mentions(told.message, decimal(retry_count as nat))
        }),
{
    let verb = if direction is Upload {
        "已上传 "@
    } else {
        "已下载 "@
    };
    let a = decimal(done as nat);
    let b = decimal(total as nat);
    let c = decimal(retry_count as nat);
    let end = if retry_count > 0 {
        " 字节"@ + " · 重试 "@ + c + " 次"@
    } else {
        " 字节"@
    };
    let message = progress_told(direction, done, total, status, retry_count).message;
    lemma_inside(verb + a + " / "@, b, end);
    lemma_inside(verb, a, " / "@ + b + end);
    assert(message =~= verb + a + " / "@ + b + end);
    assert(message =~= verb + a + (" / "@ + b + end));
    if retry_count > 0 {
        lemma_inside(verb + a + " / "@ + b + " 字节"@ + " · 重试 "@, c, " 次"@);
    }
}

/// The words for a repeated attempt begin with its message and name the count.
pub proof fn retry_messages_say_which_attempt(message: Seq<char>, retry_count: u32)
    ensures
        begins(retry_text(message, retry_count), message),
        mentions(retry_text(message, retry_count), decimal(retry_count as nat)),
{
    let c = decimal(retry_count as nat);
    lemma_inside(message + "（第 "@, c, " 次重试）"@);
    let text = retry_text(message, retry_count);
    assert(text =~= message + ("（第 "@ + c + " 次重试）"@));
    beginnings_are_followed_by_the_rest(text, message);
}

/// What is told of a failure names the count of repetitions; of a failure that is
/// about the remote path, the path and what was reported; of one that is about
/// sizes or a place, these; and what else was reported of any other.
pub proof fn failures_are_told_in_full(
    direction: Direction,
    fault: Fault,
    remote: Seq<char>,
    retry_count: u32,
)
    ensures
        ({
            let text = failure_text(direction, fault, remote, retry_count);
            &&& mentions(text, decimal(retry_count as nat))
            &&& match fault {
                Fault::InvalidRemotePath(m) | Fault::RemoteNotAFile(m) => mentions(text, remote)
                    && mentions(text, m),
                Fault::TargetLarger { target, source } => direction is Upload ==> mentions(
                    text,
                    remote,
                ) && mentions(
                    text,
                    "远端文件（"@ + decimal(target as nat) + " 字节）大于本地文件（"@ + decimal(
                        source as nat,
                    ) + " 字节）"@,
                ),
                Fault::ResumeBoundaryMismatch { offset } => direction is Upload ==> mentions(
                    text,
                    remote,
                ) && mentions(text, decimal(offset as nat)),
                Fault::Sftp(detail) => begins(
                    text,
                    if mentions(detail, "远端路径错误"@) || begins(detail, "远端路径「"@) {
                        detail
                    } else {
                        sftp_error_text(detail, remote)
                    },
                ),
                Fault::HashMismatch => mentions(text, "SHA-256"@),
                Fault::Cancelled
                | Fault::InvalidLocalPath(_)
                | Fault::SizeMismatch { .. }
                | Fault::ChunkVerifyMismatch { .. }
                | Fault::LocalIo(_)
                | Fault::Connect(_) => begins(text, fault_text(direction, fault)),
            }
        }),
{
    let body = failure_body(direction, fault, remote);
    let c = decimal(retry_count as nat);
    let end = "（已累计自动重试 "@ + c + " 次）"@;
    let text = failure_text(direction, fault, remote, retry_count);
    lemma_inside(body + "（已累计自动重试 "@, c, " 次）"@);
    assert(text =~= body + end);
    beginnings_are_followed_by_the_rest(text, body);
    let head = "远端路径错误："@;
    match fault {
        Fault::InvalidRemotePath(m) | Fault::RemoteNotAFile(m) => {
            lemma_inside(head, remote, " — "@ + m + end);
            assert(text =~= head + remote + (" — "@ + m + end));
            lemma_inside(head + remote + " — "@, m, end);
        },
        Fault::TargetLarger { target, source } => {
            if direction is Upload {
                let a = decimal(target as nat);
                let b = decimal(source as nat);
                let s1 = " — 远端文件（"@;
                let s2 = " 字节）大于本地文件（"@;
                let s3 = " 字节）"@;
                lemma_inside(head, remote, s1 + a + s2 + b + s3 + end);
                assert(text =~= head + remote + (s1 + a + s2 + b + s3 + end));
                reveal_strlit(" — 远端文件（");
                reveal_strlit("远端文件（");
                reveal_strlit(" — ");
                assert(s1 =~= " — "@ + "远端文件（"@);
                let sizes = "远端文件（"@ + a + s2 + b + s3;
                lemma_inside(head + remote + " — "@, sizes, end);
                assert(text =~= head + remote + " — "@ + sizes + end);
            }
        },
        Fault::ResumeBoundaryMismatch { offset } => {
            if direction is Upload {
                let a = decimal(offset as nat);
                let s1 = " — 续传边界校验失败（offset="@;
                let s2 = "），建议清除断点后重试"@;
                lemma_inside(head, remote, s1 + a + s2 + end);
                assert(text =~= head + remote + (s1 + a + s2 + end));
                lemma_inside(head + remote + s1, a, s2 + end);
                assert(text =~= head + remote + s1 + a + (s2 + end));
            }
        },
        Fault::HashMismatch => {
            reveal_strlit("SHA-256 校验未通过，远端文件已删除，请重新上传");
            reveal_strlit("SHA-256 校验未通过，本地文件已删除，请重新下载");
            reveal_strlit("SHA-256");
            assert(text.subrange(0, 7) =~= "SHA-256"@);
            assert(occurs_at(text, "SHA-256"@, 0));
        },
        _ => {},
    }
}

/// The history calls a transfer completed exactly if it succeeded, cancelled
/// exactly if the user cancelled it, and failed otherwise. The message names the
/// count of repetitions, where there were any, and of a failure says why, unless
/// only the result could not be read back.
pub proof fn last_words_tell_how_it_ended(
    direction: Direction,
    outcome: Result<(), Fault>,
    record: Checkpoint,
)
    ensures
        ({
            let (status, message, title) = last_words(direction, outcome, record);
            &&& status == "completed"@ <==> outcome is Ok
            &&& status == "cancelled"@ <==> outcome is Err && outcome->Err_0 is Cancelled
            &&& status == "failed"@ <==> outcome is Err && !(outcome->Err_0 is Cancelled)
            &&& record.retry_count > 0 || outcome is Err ==> mentions(
                message,
                decimal(record.retry_count as nat),
            )
            &&& title is Some <==> status != "cancelled"@
            &&& status == "failed"@ && record.failure_reason != Some("verify_read_failed"@)
                ==> message == failure_text(
                direction,
                outcome->Err_0,
                record.remote_path,
                record.retry_count,
            )
        }),
{
    reveal_strlit("completed");
    reveal_strlit("cancelled");
    reveal_strlit("failed");
    assert("completed"@[1] == 'o' && "cancelled"@[1] == 'a' && "failed"@.len() == 6);
    let c = decimal(record.retry_count as nat);
    match outcome {
        Ok(_) => {
            lemma_inside("上传完成"@ + "（共重试 "@, c, " 次）"@);
            lemma_inside("下载完成"@ + "（共重试 "@, c, " 次）"@);
        },
        Err(fault) => {
            lemma_inside(cancelled_words(direction), c, " 次）"@);
            lemma_inside(unread_words(direction), c, " 次）"@);
            failures_are_told_in_full(direction, fault, record.remote_path, record.retry_count);
        },
    }
}

/// Closing a transfer remembers what its checkpoint says, and reports the whole
/// size for one that succeeded, what was moved for any other. The checkpoint of
/// one that failed is marked so; nothing else in it changes. How the files were
/// compared is told exactly of one that succeeded.
pub proof fn closing_reports_the_checkpoint(
    closing: Closing,
    direction: Direction,
    outcome: Result<(), Fault>,
    record: Checkpoint,
    strict: bool,
)
    requires
        closes(closing, direction, outcome, record, strict),
    ensures
        closing.finished.local_path@ == record.local_path,
        closing.finished.remote_path@ == record.remote_path,
        closing.finished.host@ == record.host,
        closing.finished.port == record.port,
        closing.finished.username@ == record.username,
        closing.finished.file_size == record.file_size,
        closing.finished.retry_count == record.retry_count,
        closing.finished.status@ == closing.event@.status,
        opt_view(closing.finished.message) == Some(closing.event@.message),
        closing.event@.status == "completed"@ <==> outcome is Ok,
        closing.event@.status == "cancelled"@ <==> outcome is Err && outcome->Err_0 is Cancelled,
        closing.event@.total == record.file_size,
        closing.event@.retry_count == record.retry_count,
        outcome is Ok ==> closing.event@.done == record.file_size,
        outcome is Err ==> closing.event@.done == record.moved,
        closing.event@.summary is Some <==> outcome is Ok,
        closing.record@ == (Checkpoint { status: closing.record@.status, ..record }),
        outcome is Err && !(outcome->Err_0 is Cancelled) ==> closing.record@.status is Failed,
        outcome is Ok || outcome->Err_0 is Cancelled ==> closing.record@.status == record.status,
{
    last_words_tell_how_it_ended(direction, outcome, record);
}

/// A summary says that the digests of the whole files agree, and that every chunk
/// was compared exactly if it was.
pub proof fn summaries_tell_the_mode()
    ensures
        mentions(summary_text(true), "SHA-256 一致"@),
        mentions(summary_text(false), "SHA-256 一致"@),
        mentions(summary_text(true), "逐块校验"@),
        !mentions(summary_text(false), "逐块校验"@),
{
    reveal_strlit("校验通过 · 逐块校验 + SHA-256 一致");
    reveal_strlit("校验通过 · SHA-256 一致");
    reveal_strlit("SHA-256 一致");
    reveal_strlit("逐块校验");
    let strict = summary_text(true);
    let fast = summary_text(false);
    assert(strict.subrange(14, 24) =~= "SHA-256 一致"@);
    assert(occurs_at(strict, "SHA-256 一致"@, 14));
    assert(fast.subrange(7, 17) =~= "SHA-256 一致"@);
    assert(occurs_at(fast, "SHA-256 一致"@, 7));
    assert(strict.subrange(7, 11) =~= "逐块校验"@);
    assert(occurs_at(strict, "逐块校验"@, 7));
    if mentions(fast, "逐块校验"@) {
        let i = choose|i: int| #[trigger] occurs_at(fast, "逐块校验"@, i);
        assert(fast.subrange(i, i + 4)[0] == fast[i]);
        assert(fast[i] == '逐');
        assert(0 <= i < 17);
        assert(i == 0 || i == 1 || i == 2 || i == 3 || i == 4 || i == 5 || i == 6 || i == 7 || i
            == 8 || i == 9 || i == 10 || i == 11 || i == 12 || i == 13 || i == 14 || i == 15 || i
            == 16);
    }
}

/// What is said of a report is said of its fields, each of them.
pub proof fn events_show_every_field(event: ProgressEvent)
    ensures
        event@.done == event.done_bytes,
        event@.total == event.total_bytes,
        event@.status == event.status@,
        event@.message == event.message@,
        event@.retry_count == event.retry_count,
        event@.summary is Some <==> event.verify_summary is Some,
        event.verify_summary is Some ==> event@.summary.unwrap() == event.verify_summary.unwrap()@,
{
}

/// A repeated attempt is told twice, in the same words: once with the count and
/// the pause, once with how far the transfer has come.
pub proof fn repeated_attempts_are_told_with_their_progress(
    record: TransferRecord,
    retry_count: u32,
    delay_ms: u64,
    message: &str,
    told: (RetryEvent, ProgressEvent),
)
    requires
        call_ensures(retry_events, (&record, retry_count, delay_ms, message), told),
    ensures
        told.0.delay_ms == delay_ms,
        told.0.retry_count == retry_count,
        begins(told.0.message@, message@),
        told.1.message@ == told.0.message@,
        told.1.done_bytes == record.moved_bytes,
        told.1.total_bytes == record.file_size,
        told.1.retry_count == retry_count,
        told.1.status@ == "retrying"@,
        told.1.verify_summary is None,
{
    retry_messages_say_which_attempt(message@, retry_count);
}

/// A transfer that stands still is told with where it stands, of how much, and
/// for how long.
pub proof fn stalls_are_told_with_where_they_stand(
    stalled_bytes: u64,
    total: u64,
    retry_count: u32,
    stall_secs: u64,
    told: ProgressEvent,
)
    requires
        call_ensures(stalled_event, (stalled_bytes, total, retry_count, stall_secs), told),
    ensures
        told.done_bytes == stalled_bytes,
        told.total_bytes == total,
        told.retry_count == retry_count,
        told.status@ == "stalled"@,
        mentions(told.message@, decimal(stall_secs as nat)),
{
    lemma_inside(
        "传输超过 "@,
        decimal(stall_secs as nat),
        " 秒无响应，正在中断并重连..."@,
    );
}

/// Only what is going on can be cancelled.
pub proof fn only_what_runs_is_cancelled(
    direction: Direction,
    running: bool,
    told: Result<ProgressEvent, String>,
)
    requires
        call_ensures(cancel_event, (direction, running), told),
    ensures
        told is Ok <==> running,
        told matches Ok(event) ==> event.status@ == "cancelling"@,
{
}

/// An upload that has ended is closed by how it ended: only success removes the
/// checkpoint, and only what the user cancelled is passed over in silence. What
/// is remembered and reported is what its checkpoint says.
pub proof fn ended_uploads_are_closed_by_how_they_ended(
    outcome: Result<(), UploadError>,
    record: TransferRecord,
    strict: bool,
    closing: Closing,
)
    requires
        call_ensures(finish_upload, (&outcome, record, strict), closing),
    ensures
        closing.clear_checkpoint <==> outcome is Ok,
        closing.notification is None <==> outcome is Err && outcome->Err_0 is Cancelled,
        closing.finished.local_path@ == record.local_path@,
        closing.finished.remote_path@ == record.remote_path@,
        closing.finished.host@ == record.host@,
        closing.finished.file_size == record.file_size,
        closing.finished.retry_count == record.retry_count,
        closing.event.total_bytes == record.file_size,
        closing.event.done_bytes == if outcome is Ok {
            record.file_size
        } else {
            record.moved_bytes
        },
        closing.record.moved_bytes == record.moved_bytes,
        closing.record.verified_bytes == record.verified_bytes,
        closing.event.verify_summary is Some <==> outcome is Ok,
{
    let ended = match outcome {
        Ok(_) => Ok(()),
        Err(e) => Err(e@),
    };
    only_success_removes_the_checkpoint(closing, Direction::Upload, ended, record@, strict);
    closing_reports_the_checkpoint(closing, Direction::Upload, ended, record@, strict);
}

/// A download that has ended is closed by how it ended, like an upload.
pub proof fn ended_downloads_are_closed_by_how_they_ended(
    outcome: Result<(), DownloadError>,
    record: TransferRecord,
    strict: bool,
    closing: Closing,
)
    requires
        call_ensures(finish_download, (&outcome, record, strict), closing),
    ensures
        closing.clear_checkpoint <==> outcome is Ok,
        closing.notification is None <==> outcome is Err && outcome->Err_0 is Cancelled,
        closing.finished.local_path@ == record.local_path@,
        closing.finished.remote_path@ == record.remote_path@,
        closing.finished.host@ == record.host@,
        closing.finished.file_size == record.file_size,
        closing.finished.retry_count == record.retry_count,
        closing.event.total_bytes == record.file_size,
        closing.event.done_bytes == if outcome is Ok {
            record.file_size
        } else {
            record.moved_bytes
        },
        closing.record.moved_bytes == record.moved_bytes,
        closing.record.verified_bytes == record.verified_bytes,
        closing.event.verify_summary is Some <==> outcome is Ok,
{
    let ended = match outcome {
        Ok(_) => Ok(()),
        Err(e) => Err(e@),
    };
    only_success_removes_the_checkpoint(closing, Direction::Download, ended, record@, strict);
    closing_reports_the_checkpoint(closing, Direction::Download, ended, record@, strict);
}

/// The words say which way the file went: of an upload they speak of uploading, of
/// a download of downloading, while it goes on, when it has succeeded, and in the
/// title of a failure.
pub proof fn words_tell_the_direction(
    outcome: Result<(), Fault>,
    record: Checkpoint,
    done: u64,
    total: u64,
    status: Seq<char>,
    retry_count: u32,
)
    ensures
        ({
            let up = last_words(Direction::Upload, outcome, record);
            let down = last_words(Direction::Download, outcome, record);
            &&& begins(
                progress_told(Direction::Upload, done, total, status, retry_count).message,
                "已上传 "@,
            )
            &&& begins(
                progress_told(Direction::Download, done, total, status, retry_count).message,
                "已下载 "@,
            )
            &&& outcome is Ok ==> begins(up.1, "上传完成"@) && begins(down.1, "下载完成"@)
            &&& outcome is Ok ==> up.2 == Some("ResiliSSH"@) && down.2 == Some("ResiliSSH"@)
            &&& up.0 == "failed"@ ==> up.2 == Some("ResiliSSH 上传失败"@)
            &&& down.0 == "failed"@ ==> down.2 == Some("ResiliSSH 下载失败"@)
        }),
{
    reveal_strlit("completed");
    reveal_strlit("cancelled");
    reveal_strlit("failed");
    assert("completed"@.len() == 9 && "cancelled"@.len() == 9 && "failed"@.len() == 6);
    let a = decimal(done as nat);
    let b = decimal(total as nat);
    let c = decimal(retry_count as nat);
    let rest = a + " / "@ + b + " 字节"@ + if retry_count > 0 {
        " · 重试 "@ + c + " 次"@
    } else {
        Seq::<char>::empty()
    };
    let up = progress_told(Direction::Upload, done, total, status, retry_count).message;
    let down = progress_told(Direction::Download, done, total, status, retry_count).message;
    beginnings_are_followed_by_the_rest(up, "已上传 "@);
    beginnings_are_followed_by_the_rest(down, "已下载 "@);
    assert(up =~= "已上传 "@ + rest);
    assert(down =~= "已下载 "@ + rest);
    let times = if record.retry_count > 0 {
        "（共重试 "@ + decimal(record.retry_count as nat) + " 次）"@
    } else {
        Seq::<char>::empty()
    };
    if outcome is Ok {
        let u = last_words(Direction::Upload, outcome, record).1;
        let d = last_words(Direction::Download, outcome, record).1;
        beginnings_are_followed_by_the_rest(u, "上传完成"@);
        beginnings_are_followed_by_the_rest(d, "下载完成"@);
        assert(u =~= "上传完成"@ + times);
        assert(d =~= "下载完成"@ + times);
    }
}

} // verus!
