//! Deciding, from a request and what is remembered of an earlier attempt,
//! whether a transfer goes on or starts over.

use vstd::prelude::*;

use super::request::{
    at_or_below, auth_kind, auth_of, build_auth, credentials_are_those_entered,
    fitting_local_paths_belong, fitting_remote_paths_belong, kind_of, kinds_follow_the_login,
    leads_to, local_fits, local_paths_compatible, remote_fits, remote_paths_compatible, Login,
    Order, TransferRequest,
};
use crate::checkpoint::{AuthKind, Checkpoint, CheckpointStatus, UploadCheckpoint};
use crate::download_checkpoint::DownloadCheckpoint;
use crate::number::{decimal, decimal_text};
use crate::path::{last_name, last_names_are_plain};
use crate::sftp::client::{AuthMethod, ConnectionConfig, Credentials, Endpoint};
use crate::sftp::download::{
    name_of_remote, remote_file_name, resolve_local_path, resolved_local,
};
use crate::sftp::fault::{fault_text, Direction, Fault};
use crate::sftp::upload::{resolve_remote_path, resolved_remote, upload_target};
use crate::text::{
    begins, copy_opt, ends_in, nothing_to_take_off, opt_view, same, taking_off_leaves_a_beginning,
    trim, trimmed, trimmed_text_is_bare, trimming_is_stable, trimming_keeps_bare_beginnings,
    without_trailing,
};
use crate::transfer::model::FileStat;
use crate::transfer::record::TransferRecord;

verus! {

/// How far an earlier attempt has come: what was verified, or else what was
/// moved.
pub open spec fn progress_of(cp: Checkpoint) -> u64 {
    if cp.verified > 0 {
        cp.verified
    } else {
        cp.moved
    }
}

/// How far an earlier attempt has come.
pub fn saved_progress(cp: &TransferRecord) -> (r: u64)
    ensures
        r == progress_of(cp@),
{
    if cp.verified_bytes > 0 {
        cp.verified_bytes
    } else {
        cp.moved_bytes
    }
}

/// A checkpoint was made for the same user on the same server.
pub open spec fn same_account(cp: Checkpoint, login: Login) -> bool {
    cp.host == login.host && cp.port == login.port && cp.username == login.username
}

pub(crate) fn is_same_account(
    cp: &TransferRecord,
    host: &str,
    port: u16,
    username: &str,
) -> (r: bool)
    ensures
        r == (cp@.host == host@ && cp@.port == port && cp@.username == username@),
{
    same(cp.host.as_str(), host) && cp.port == port && same(cp.username.as_str(), username)
}

/// An attempt that has come some way, but not to the end.
pub open spec fn unfinished(cp: Checkpoint) -> bool {
    0 < progress_of(cp) < cp.file_size && !(cp.status is Completed)
}

fn is_unfinished(cp: &TransferRecord) -> (r: bool)
    ensures
        r == unfinished(cp@),
{
    let progress = saved_progress(cp);
    progress > 0 && progress < cp.file_size && cp.status != CheckpointStatus::Completed
}

/// An attempt that has failed with nothing done.
pub open spec fn fruitless(cp: Checkpoint) -> bool {
    cp.status is Failed && progress_of(cp) == 0
}

fn is_fruitless(cp: &TransferRecord) -> (r: bool)
    ensures
        r == fruitless(cp@),
{
    cp.status == CheckpointStatus::Failed && saved_progress(cp) == 0
}

/// A transfer that is about to start.
pub struct Plan {
    pub endpoint: Endpoint,
    /// The two paths that the transfer is started with.
    pub local: Seq<char>,
    pub remote: Seq<char>,
    pub record: Checkpoint,
    /// The old checkpoint is removed first.
    pub clear: bool,
    /// What exists is overwritten from the start; otherwise the transfer goes
    /// on where the checkpoint says.
    pub force: bool,
    pub strict: bool,
}

/// The checkpoint that a transfer starts with. One that goes on keeps what was
/// done and how often it was repeated.
pub open spec fn starting_record(
    order: Order,
    auth: Credentials,
    local: Seq<char>,
    remote: Seq<char>,
    file_size: u64,
    mtime: Option<u64>,
    resumed: Option<Checkpoint>,
) -> Checkpoint {
    Checkpoint {
        local_path: local,
        remote_path: remote,
        host: order.login.host,
        port: order.login.port,
        username: order.login.username,
        auth_kind: kind_of(auth),
        key_path: order.login.key_path,
        file_size,
        mtime,
        moved: match resumed {
            Some(cp) => progress_of(cp),
            None => 0,
        },
        verified: match resumed {
            Some(cp) => cp.verified,
            None => 0,
        },
        retry_count: match resumed {
            Some(cp) => cp.retry_count,
            None => 0,
        },
        failure_reason: None,
        status: CheckpointStatus::InProgress,
    }
}

/// The checkpoint of an upload that a new request can go on from.
pub open spec fn resumable_upload(
    order: Order,
    resolved: Seq<char>,
    saved: Option<Checkpoint>,
) -> Option<Checkpoint> {
    match saved {
        Some(cp) => if order.force != Some(true) && remote_fits(
            cp.remote_path,
            resolved,
            order.remote,
        ) && cp.local_path == order.local && same_account(cp, order.login) && unfinished(cp) {
            Some(cp)
        } else {
            None
        },
        None => None,
    }
}

/// The old checkpoint is of no use any more.
pub open spec fn clears(order: Order, saved: Option<Checkpoint>) -> bool {
    order.force == Some(true) || (saved is Some && fruitless(saved.unwrap()))
}

/// A file that has changed since a checkpoint was made.
pub open spec fn upload_refusal(
    resumed: Option<Checkpoint>,
    size: u64,
    mtime: u64,
) -> Option<Seq<char>> {
    match resumed {
        None => None,
        Some(cp) => if cp.file_size != size {
            Some(
                "本地文件大小已变化（断点记录 "@ + decimal(cp.file_size as nat) + " 字节，当前 "@
                    + decimal(size as nat) + " 字节），请清除断点后重新上传"@,
            )
        } else if cp.mtime is Some && cp.mtime != Some(mtime) {
            Some("本地文件已修改（修改时间变化），请清除断点后重新上传"@)
        } else {
            None
        },
    }
}

/// What a request to upload leads to. `fingerprint` is the size and the
/// modification time of the local file.
pub open spec fn upload_plan(
    running: bool,
    order: Order,
    is_file: bool,
    fingerprint: Result<(u64, u64), Seq<char>>,
    saved: Option<Checkpoint>,
) -> Result<Plan, Seq<char>> {
    if running {
        Err("已有上传任务在进行中"@)
    } else if !is_file {
        Err("本地文件不存在"@)
    } else if trimmed(order.remote).len() == 0 {
        Err("请填写远端路径"@)
    } else {
        match (resolved_remote(order.remote, order.local), auth_of(order.login), fingerprint) {
            (Err(fault), _, _) => Err(fault_text(Direction::Upload, fault)),
            (_, Err(e), _) => Err(e),
            (_, _, Err(e)) => Err(e),
            (Ok(resolved), Ok(auth), Ok((size, mtime))) => {
                let resumed = resumable_upload(order, resolved, saved);
                match upload_refusal(resumed, size, mtime) {
                    Some(e) => Err(e),
                    None => Ok(
                        Plan {
                            endpoint: Endpoint {
                                host: order.login.host,
                                port: order.login.port,
                                username: order.login.username,
                                auth,
                            },
                            local: order.local,
                            remote: resolved,
                            record: starting_record(
                                order,
                                auth,
                                order.local,
                                match resumed {
                                    Some(cp) => cp.remote_path,
                                    None => resolved,
                                },
                                size,
                                Some(mtime),
                                resumed,
                            ),
                            clear: clears(order, saved),
                            force: resumed is None,
                            strict: order.strict != Some(false),
                        },
                    ),
                }
            },
        }
    }
}

/// An upload that is about to start.
#[derive(Debug)]
pub struct UploadPlan {
    pub config: ConnectionConfig,
    pub local_path: String,
    pub remote_path: String,
    pub checkpoint: UploadCheckpoint,
    pub clear_checkpoint: bool,
    pub force_overwrite: bool,
    pub strict_chunk_verify: bool,
}

impl View for UploadPlan {
    type V = Plan;

    open spec fn view(&self) -> Plan {
        Plan {
            endpoint: self.config@,
            local: self.local_path@,
            remote: self.remote_path@,
            record: self.checkpoint@,
            clear: self.clear_checkpoint,
            force: self.force_overwrite,
            strict: self.strict_chunk_verify,
        }
    }
}

/// What is remembered of an earlier attempt.
pub open spec fn saved_view(saved: Option<TransferRecord>) -> Option<Checkpoint> {
    match saved {
        Some(cp) => Some(cp@),
        None => None,
    }
}

fn make_record(
    request: &TransferRequest,
    kind: AuthKind,
    local: String,
    remote: String,
    file_size: u64,
    mtime: Option<u64>,
    resumed: &Option<TransferRecord>,
) -> (r: TransferRecord)
    ensures
        forall|auth: Credentials|
            kind == kind_of(auth) ==> r@ == #[trigger] starting_record(
                request@,
                auth,
                local@,
                remote@,
                file_size,
                mtime,
                saved_view(*resumed),
            ),
{
    let moved_bytes: u64 = match resumed {
        Some(cp) => saved_progress(cp),
        None => 0,
    };
    let verified_bytes: u64 = match resumed {
        Some(cp) => cp.verified_bytes,
        None => 0,
    };
    let retry_count: u32 = match resumed {
        Some(cp) => cp.retry_count,
        None => 0,
    };
    TransferRecord {
        local_path: local,
        remote_path: remote,
        host: request.connection.host.clone(),
        port: request.connection.port,
        username: request.connection.username.clone(),
        auth_kind: kind,
        key_path: copy_opt(&request.connection.key_path),
        file_size,
        mtime,
        moved_bytes,
        verified_bytes,
        retry_count,
        failure_reason: None,
        status: CheckpointStatus::InProgress,
    }
}

fn is_some_true(flag: Option<bool>) -> (r: bool)
    ensures
        r == (flag == Some(true)),
{
    match flag {
        Some(value) => value,
        None => false,
    }
}

fn should_clear(request: &TransferRequest, saved: &Option<TransferRecord>) -> (r: bool)
    ensures
        r == clears(request@, saved_view(*saved)),
{
    if is_some_true(request.force_overwrite) {
        return true;
    }
    match saved {
        Some(cp) => is_fruitless(cp),
        None => false,
    }
}

fn find_resumable_upload(
    request: &TransferRequest,
    resolved: &str,
    saved: &Option<TransferRecord>,
) -> (r: Option<TransferRecord>)
    ensures
        saved_view(r) == resumable_upload(request@, resolved@, saved_view(*saved)),
{
    if is_some_true(request.force_overwrite) {
        return None;
    }
    match saved {
        Some(cp) => {
            if remote_paths_compatible(
                cp.remote_path.as_str(),
                resolved,
                request.remote_path.as_str(),
            ) && same(cp.local_path.as_str(), request.local_path.as_str()) && is_same_account(
                cp,
                request.connection.host.as_str(),
                request.connection.port,
                request.connection.username.as_str(),
            ) && is_unfinished(cp) {
                Some(cp.copy())
            } else {
                None
            }
        },
        None => None,
    }
}

fn check_upload_source(resumed: &Option<TransferRecord>, size: u64, mtime: u64) -> (r: Option<
    String,
>)
    ensures
        opt_view(r) == upload_refusal(saved_view(*resumed), size, mtime),
{
    match resumed {
        None => None,
        Some(cp) => {
            if cp.file_size != size {
                let saved_text = decimal_text(cp.file_size as u128);
                let size_text = decimal_text(size as u128);
                return Some(
                    "本地文件大小已变化（断点记录 ".to_owned().concat(
                        saved_text.as_str(),
                    ).concat(" 字节，当前 ").concat(size_text.as_str()).concat(
                        " 字节），请清除断点后重新上传",
                    ),
                );
            }
            match cp.mtime {
                Some(saved_mtime) => {
                    if saved_mtime != mtime {
                        return Some(
                            "本地文件已修改（修改时间变化），请清除断点后重新上传".to_owned(),
                        );
                    }
                },
                None => {},
            }
            None
        },
    }
}

fn config_for(request: &TransferRequest, auth: AuthMethod) -> (r: ConnectionConfig)
    ensures
        r@ == (Endpoint {
            host: request@.login.host,
            port: request@.login.port,
            username: request@.login.username,
            auth: auth@,
        }),
{
    ConnectionConfig {
        host: request.connection.host.clone(),
        port: request.connection.port,
        username: request.connection.username.clone(),
        auth,
    }
}

/// The size and the modification time of a file, or why they are not known.
pub open spec fn fingerprint_view(found: Result<(u64, u64), String>) -> Result<
    (u64, u64),
    Seq<char>,
> {
    match found {
        Ok(pair) => Ok(pair),
        Err(e) => Err(e@),
    }
}

/// Plans an upload. `running` says whether another one is going on, `is_file`
/// whether the local path names a file, `fingerprint` what its size and its
/// modification time are, and `saved` what is remembered of an earlier attempt.
pub fn start_upload(
    running: bool,
    request: &TransferRequest,
    is_file: bool,
    fingerprint: Result<(u64, u64), String>,
    saved: &Option<TransferRecord>,
) -> (r: Result<UploadPlan, String>)
    ensures
        ({
            let plan = upload_plan(
                running,
                request@,
                is_file,
                fingerprint_view(fingerprint),
                saved_view(*saved),
            );
            match r {
                Ok(made) => plan == Ok::<Plan, Seq<char>>(made@),
                Err(e) => plan == Err::<Plan, Seq<char>>(e@),
            }
        }),
{
    if running {
        return Err("已有上传任务在进行中".to_owned());
    }
    if !is_file {
        return Err("本地文件不存在".to_owned());
    }
    if trim(request.remote_path.as_str()).is_empty() {
        return Err("请填写远端路径".to_owned());
    }
    let resolved = match resolve_remote_path(
        request.remote_path.as_str(),
        request.local_path.as_str(),
    ) {
        Ok(path) => path,
        Err(e) => return Err(e.message()),
    };
    let auth = match build_auth(&request.connection) {
        Ok(auth) => auth,
        Err(e) => return Err(e),
    };
    let (size, mtime) = match fingerprint {
        Ok(pair) => pair,
        Err(e) => return Err(e),
    };
    let resumed = find_resumable_upload(request, resolved.as_str(), saved);
    match check_upload_source(&resumed, size, mtime) {
        Some(e) => return Err(e),
        None => {},
    }
    let remote = match &resumed {
        Some(cp) => cp.remote_path.clone(),
        None => resolved.clone(),
    };
    let kind = auth_kind(&auth);
    let ghost means = auth@;
    let record = make_record(
        request,
        kind,
        request.local_path.clone(),
        remote,
        size,
        Some(mtime),
        &resumed,
    );
    let plan = UploadPlan {
        config: config_for(request, auth),
        local_path: request.local_path.clone(),
        remote_path: resolved,
        checkpoint: record.into_upload(),
        clear_checkpoint: should_clear(request, saved),
        force_overwrite: resumed.is_none(),
        strict_chunk_verify: request.strict_chunk_verify.unwrap_or(true),
    };
    proof {
        assert(plan@.record == starting_record(
            request@,
            means,
            request.local_path@,
            remote@,
            size,
            Some(mtime),
            saved_view(resumed),
        ));
    }
    Ok(plan)
}

/// The checkpoint of a download that a new request can go on from.
pub open spec fn resumable_download(
    order: Order,
    resolved: Seq<char>,
    saved: Option<Checkpoint>,
) -> Option<Checkpoint> {
    let remote = trimmed(order.remote);
    match saved {
        Some(cp) => if order.force != Some(true) && local_fits(
            cp.local_path,
            resolved,
            order.local,
        ) && remote_fits(cp.remote_path, remote, remote) && same_account(cp, order.login)
            && unfinished(cp) {
            Some(cp)
        } else {
            None
        },
        None => None,
    }
}

/// What a request to download leads to. A plan that goes on from a checkpoint
/// holds only if the remote file is still the same.
pub open spec fn download_plan(
    running: bool,
    order: Order,
    saved: Option<Checkpoint>,
) -> Result<Plan, Seq<char>> {
    let remote = trimmed(order.remote);
    if running {
        Err("已有下载任务在进行中"@)
    } else if remote.len() == 0 {
        Err("请填写远端文件路径"@)
    } else if trimmed(order.local).len() == 0 {
        Err("请填写本地保存路径"@)
    } else {
        match name_of_remote(remote) {
            Err(fault) => Err(fault_text(Direction::Download, fault)),
            Ok(name) => match (resolved_local(order.local, name), auth_of(order.login)) {
                (Err(fault), _) => Err(fault_text(Direction::Download, fault)),
                (_, Err(e)) => Err(e),
                (Ok(resolved), Ok(auth)) => {
                    let resumed = resumable_download(order, resolved, saved);
                    Ok(
                        Plan {
                            endpoint: Endpoint {
                                host: order.login.host,
                                port: order.login.port,
                                username: order.login.username,
                                auth,
                            },
                            local: order.local,
                            remote,
                            record: starting_record(
                                order,
                                auth,
                                match resumed {
                                    Some(cp) => cp.local_path,
                                    None => resolved,
                                },
                                match resumed {
                                    Some(cp) => cp.remote_path,
                                    None => remote,
                                },
                                match resumed {
                                    Some(cp) => cp.file_size,
                                    None => 0,
                                },
                                match resumed {
                                    Some(cp) => cp.mtime,
                                    None => None,
                                },
                                resumed,
                            ),
                            clear: clears(order, saved),
                            force: resumed is None,
                            strict: order.strict != Some(false),
                        },
                    )
                },
            },
        }
    }
}

/// A download that is about to start.
#[derive(Debug)]
pub struct DownloadPlan {
    pub config: ConnectionConfig,
    pub local_path: String,
    pub remote_path: String,
    pub checkpoint: DownloadCheckpoint,
    pub clear_checkpoint: bool,
    pub force_overwrite: bool,
    pub strict_chunk_verify: bool,
}

impl View for DownloadPlan {
    type V = Plan;

    open spec fn view(&self) -> Plan {
        Plan {
            endpoint: self.config@,
            local: self.local_path@,
            remote: self.remote_path@,
            record: self.checkpoint@,
            clear: self.clear_checkpoint,
            force: self.force_overwrite,
            strict: self.strict_chunk_verify,
        }
    }
}

fn find_resumable_download(
    request: &TransferRequest,
    resolved: &str,
    saved: &Option<TransferRecord>,
) -> (r: Option<TransferRecord>)
    ensures
        saved_view(r) == resumable_download(request@, resolved@, saved_view(*saved)),
{
    if is_some_true(request.force_overwrite) {
        return None;
    }
    let remote = trim(request.remote_path.as_str());
    match saved {
        Some(cp) => {
            if local_paths_compatible(
                cp.local_path.as_str(),
                resolved,
                request.local_path.as_str(),
            ) && remote_paths_compatible(cp.remote_path.as_str(), remote, remote)
                && is_same_account(
                cp,
                request.connection.host.as_str(),
                request.connection.port,
                request.connection.username.as_str(),
            ) && is_unfinished(cp) {
                Some(cp.copy())
            } else {
                None
            }
        },
        None => None,
    }
}

/// Plans a download. `running` says whether another one is going on, and
/// `saved` what is remembered of an earlier attempt. Where the plan goes on
/// from there, `confirm_source` has to agree before it is carried out.
pub fn start_download(
    running: bool,
    request: &TransferRequest,
    saved: &Option<TransferRecord>,
) -> (r: Result<DownloadPlan, String>)
    ensures
        ({
            let plan = download_plan(running, request@, saved_view(*saved));
            match r {
                Ok(made) => plan == Ok::<Plan, Seq<char>>(made@),
                Err(e) => plan == Err::<Plan, Seq<char>>(e@),
            }
        }),
{
    if running {
        return Err("已有下载任务在进行中".to_owned());
    }
    let remote = trim(request.remote_path.as_str());
    if remote.is_empty() {
        return Err("请填写远端文件路径".to_owned());
    }
    if trim(request.local_path.as_str()).is_empty() {
        return Err("请填写本地保存路径".to_owned());
    }
    let name = match remote_file_name(remote) {
        Ok(name) => name,
        Err(e) => return Err(e.message()),
    };
    let resolved = match resolve_local_path(request.local_path.as_str(), name.as_str()) {
        Ok(path) => path,
        Err(e) => return Err(e.message()),
    };
    let auth = match build_auth(&request.connection) {
        Ok(auth) => auth,
        Err(e) => return Err(e),
    };
    let resumed = find_resumable_download(request, resolved.as_str(), saved);
    let local_path = match &resumed {
        Some(cp) => cp.local_path.clone(),
        None => resolved.clone(),
    };
    let remote_path = match &resumed {
        Some(cp) => cp.remote_path.clone(),
        None => remote.to_owned(),
    };
    let file_size: u64 = match &resumed {
        Some(cp) => cp.file_size,
        None => 0,
    };
    let mtime: Option<u64> = match &resumed {
        Some(cp) => cp.mtime,
        None => None,
    };
    let kind = auth_kind(&auth);
    let ghost means = auth@;
    let record = make_record(request, kind, local_path, remote_path, file_size, mtime, &resumed);
    let plan = DownloadPlan {
        config: config_for(request, auth),
        local_path: request.local_path.clone(),
        remote_path: remote.to_owned(),
        checkpoint: record.into_download(),
        clear_checkpoint: should_clear(request, saved),
        force_overwrite: resumed.is_none(),
        strict_chunk_verify: request.strict_chunk_verify.unwrap_or(true),
    };
    proof {
        assert(plan@.record == starting_record(
            request@,
            means,
            local_path@,
            remote_path@,
            file_size,
            mtime,
            saved_view(resumed),
        ));
    }
    Ok(plan)
}

/// Why a download cannot go on from its checkpoint, given what the server says
/// about the remote file now.
pub open spec fn download_refusal(
    record: Checkpoint,
    found: Result<FileStat, Seq<char>>,
) -> Option<Seq<char>> {
    match found {
        Err(e) => Some("无法读取远端文件: "@ + e),
        Ok(stat) => {
            let size = stat.size.unwrap_or(0);
            if record.file_size != size {
                Some(
                    "远端文件大小已变化（断点记录 "@ + decimal(record.file_size as nat)
                        + " 字节，当前 "@ + decimal(size as nat)
                        + " 字节），请清除断点后重新下载"@,
                )
            } else if record.mtime is Some && stat.mtime != record.mtime {
                Some("远端文件已修改（修改时间变化），请清除断点后重新下载"@)
            } else {
                None
            }
        },
    }
}

/// Checks that the remote file is still the one that a checkpoint was made for.
pub fn confirm_source(
    checkpoint: &DownloadCheckpoint,
    found: Result<FileStat, String>,
) -> (r: Result<(), String>)
    ensures
        ({
            let refusal = download_refusal(
                checkpoint@,
                match found {
                    Ok(stat) => Ok(stat),
                    Err(e) => Err(e@),
                },
            );
            match r {
                Ok(_) => refusal is None,
                Err(e) => refusal == Some(e@),
            }
        }),
{
    let stat = match found {
        Ok(stat) => stat,
        Err(e) => return Err("无法读取远端文件: ".to_owned().concat(e.as_str())),
    };
    let size: u64 = stat.size.unwrap_or(0);
    if checkpoint.file_size != size {
        let saved_text = decimal_text(checkpoint.file_size as u128);
        let size_text = decimal_text(size as u128);
        return Err(
            "远端文件大小已变化（断点记录 ".to_owned().concat(saved_text.as_str()).concat(
                " 字节，当前 ",
            ).concat(size_text.as_str()).concat(" 字节），请清除断点后重新下载"),
        );
    }
    match checkpoint.remote_mtime {
        Some(saved_mtime) => {
            let unchanged = match stat.mtime {
                Some(mtime) => mtime == saved_mtime,
                None => false,
            };
            if !unchanged {
                return Err("远端文件已修改（修改时间变化），请清除断点后重新下载".to_owned());
            }
        },
        None => {},
    }
    Ok(())
}

/// An upload goes on only for the same user on the same server, with a local
/// file of the same path, size and modification time, and never when the user
/// wants it overwritten; otherwise it starts from nothing.
pub proof fn uploads_resume_only_what_is_theirs(
    running: bool,
    order: Order,
    is_file: bool,
    fingerprint: Result<(u64, u64), Seq<char>>,
    saved: Option<Checkpoint>,
)
    requires
        upload_plan(running, order, is_file, fingerprint, saved) is Ok,
    ensures
        ({
            let plan = upload_plan(running, order, is_file, fingerprint, saved)->Ok_0;
            &&& !running && is_file && fingerprint is Ok
            &&& plan.record.file_size == fingerprint->Ok_0.0
            &&& plan.record.mtime == Some(fingerprint->Ok_0.1)
            &&& plan.force ==> plan.record.moved == 0 && plan.record.verified == 0
            &&& order.force == Some(true) ==> plan.force && plan.clear
            &&& !plan.force ==> {
                &&& saved is Some
                &&& same_account(saved.unwrap(), order.login)
                &&& saved.unwrap().local_path == order.local
                &&& saved.unwrap().file_size == plan.record.file_size
                &&& saved.unwrap().mtime is None || saved.unwrap().mtime == plan.record.mtime
                &&& 0 < plan.record.moved < plan.record.file_size
                &&& plan.record.moved == progress_of(saved.unwrap())
                &&& plan.record.verified == saved.unwrap().verified
                &&& !plan.clear
            }
        }),
{
}

/// A download goes on only for the same user on the same server, and never when
/// the user wants it overwritten; otherwise it starts from nothing.
pub proof fn downloads_resume_only_what_is_theirs(
    running: bool,
    order: Order,
    saved: Option<Checkpoint>,
)
    requires
        download_plan(running, order, saved) is Ok,
    ensures
        ({
            let plan = download_plan(running, order, saved)->Ok_0;
            &&& !running
            &&& plan.force ==> plan.record.moved == 0 && plan.record.verified == 0
            &&& order.force == Some(true) ==> plan.force && plan.clear
            &&& !plan.force ==> {
                &&& saved is Some
                &&& same_account(saved.unwrap(), order.login)
                &&& plan.record.file_size == saved.unwrap().file_size
                &&& plan.record.mtime == saved.unwrap().mtime
                &&& 0 < plan.record.moved < plan.record.file_size
                &&& plan.record.moved == progress_of(saved.unwrap())
                &&& plan.record.verified == saved.unwrap().verified
                &&& !plan.clear
            }
        }),
{
}

/// A remote file that is confirmed has the size and, where it is known, the
/// modification time of the checkpoint.
pub proof fn confirmed_sources_are_unchanged(record: Checkpoint, found: Result<FileStat, Seq<char>>)
    requires
        download_refusal(record, found) is None,
    ensures
        found is Ok,
        found->Ok_0.size.unwrap_or(0) == record.file_size,
        record.mtime is Some ==> found->Ok_0.mtime == record.mtime,
{
}

/// The remote file that an upload goes to belongs to the request, so that the
/// same request finds the checkpoint again.
pub proof fn upload_targets_fit_their_request(
    remote: Seq<char>,
    local: Seq<char>,
    is_dir: bool,
)
    requires
        resolved_remote(remote, local) is Ok,
        upload_target(resolved_remote(remote, local)->Ok_0, local, is_dir) is Ok,
    ensures
        ({
            let resolved = resolved_remote(remote, local)->Ok_0;
            let target = upload_target(resolved, local, is_dir)->Ok_0;
            remote_fits(target, resolved, remote)
        }),
{
    let resolved = resolved_remote(remote, local)->Ok_0;
    let target = upload_target(resolved, local, is_dir)->Ok_0;
    let user = trimmed(remote);
    let entry = trimmed(resolved);
    let base = without_trailing(user, '/', '/');
    reveal_strlit("/");
    assert(base + "/"@ =~= base.push('/'));
    trimmed_text_is_bare(remote);
    trimming_is_stable(remote);
    trimming_is_stable(resolved);
    let head = base.push('/');
    if ends_in(user, '/') {
        taking_off_leaves_a_beginning(user, '/');
        assert(user.subrange(0, head.len() as int)[0] == user[0]);
        assert(begins(resolved, head)) by {
            assert(resolved.subrange(0, head.len() as int) =~= user.subrange(0, head.len() as int));
        }
        trimming_keeps_bare_beginnings(resolved, head);
        if ends_in(entry, '/') || is_dir {
            assert(target.subrange(0, head.len() as int) =~= entry.subrange(0, head.len() as int));
            trimming_keeps_bare_beginnings(target, head);
        }
    } else {
        nothing_to_take_off(user, '/');
        assert(entry == user);
        if is_dir {
            assert(head[0] == user[0]);
            assert(target.subrange(0, head.len() as int) =~= head);
            trimming_keeps_bare_beginnings(target, head);
        }
    }
}

/// An upload that stopped on its way goes on when it is asked for again, with
/// all that was verified, if the local file has not changed and the user does
/// not want it overwritten.
pub proof fn stopped_uploads_go_on(
    order: Order,
    is_dir: bool,
    size: u64,
    mtime: u64,
    cp: Checkpoint,
)
    requires
        trimmed(order.remote).len() > 0,
        resolved_remote(order.remote, order.local) is Ok,
        auth_of(order.login) is Ok,
        order.force != Some(true),
        upload_target(resolved_remote(order.remote, order.local)->Ok_0, order.local, is_dir)
            == Ok::<Seq<char>, Fault>(cp.remote_path),
        cp.local_path == order.local,
        same_account(cp, order.login),
        unfinished(cp),
        cp.file_size == size,
        cp.mtime == Some(mtime),
    ensures
        upload_plan(false, order, true, Ok((size, mtime)), Some(cp)) is Ok,
        ({
            let plan = upload_plan(false, order, true, Ok((size, mtime)), Some(cp))->Ok_0;
            &&& !plan.force
            &&& plan.record.remote_path == cp.remote_path
            &&& plan.record.moved == progress_of(cp)
            &&& plan.record.verified == cp.verified
            &&& plan.record.retry_count == cp.retry_count
        }),
{
    upload_targets_fit_their_request(order.remote, order.local, is_dir);
}

/// A download that stopped on its way goes on when it is asked for again, with
/// all that was verified, if the user does not want it overwritten.
pub proof fn stopped_downloads_go_on(order: Order, name: Seq<char>, cp: Checkpoint)
    requires
        trimmed(order.remote).len() > 0,
        trimmed(order.local).len() > 0,
        name_of_remote(trimmed(order.remote)) == Ok::<Seq<char>, Fault>(name),
        resolved_local(order.local, name) == Ok::<Seq<char>, Fault>(cp.local_path),
        cp.remote_path == trimmed(order.remote),
        auth_of(order.login) is Ok,
        order.force != Some(true),
        same_account(cp, order.login),
        unfinished(cp),
    ensures
        download_plan(false, order, Some(cp)) is Ok,
        ({
            let plan = download_plan(false, order, Some(cp))->Ok_0;
            &&& !plan.force
            &&& plan.record.local_path == cp.local_path
            &&& plan.record.moved == progress_of(cp)
            &&& plan.record.verified == cp.verified
            &&& plan.record.file_size == cp.file_size
        }),
{
}

/// An upload is planned as it was asked for: to the server and with the login
/// that were entered, from the local path that was entered, in the mode that was
/// asked for and otherwise in the reliable one, to the remote path that was
/// entered, or below it under the name of the local file where it ends in a
/// slash. Its checkpoint says the same, and is that of a transfer under way.
pub proof fn uploads_are_planned_as_asked(
    running: bool,
    order: Order,
    is_file: bool,
    fingerprint: Result<(u64, u64), Seq<char>>,
    saved: Option<Checkpoint>,
)
    requires
        upload_plan(running, order, is_file, fingerprint, saved) is Ok,
    ensures
        ({
            let plan = upload_plan(running, order, is_file, fingerprint, saved)->Ok_0;
            let entry = trimmed(order.remote);
            &&& order.strict matches Some(strict) ==> plan.strict == strict
            &&& order.strict is None ==> plan.strict
            &&& plan.endpoint.host == order.login.host
            &&& plan.endpoint.port == order.login.port
            &&& plan.endpoint.username == order.login.username
            &&& auth_of(order.login) == Ok::<Credentials, Seq<char>>(plan.endpoint.auth)
            &&& plan.local == order.local
            &&& entry.len() > 0
            &&& entry.last() != '/' ==> plan.remote == entry
            &&& entry.last() == '/' ==> last_name(order.local) is Some && plan.remote == entry
                + last_name(order.local).unwrap()
            &&& plan.record.local_path == order.local
            &&& plan.record.file_size == fingerprint->Ok_0.0
            &&& plan.record.mtime == Some(fingerprint->Ok_0.1)
            &&& plan.record.host == order.login.host
            &&& plan.record.port == order.login.port
            &&& plan.record.username == order.login.username
            &&& plan.record.key_path == order.login.key_path
            &&& plan.record.auth_kind is Password <==> order.login.auth_type == "password"@
            &&& plan.record.failure_reason is None
            &&& plan.record.status is InProgress
        }),
{
    credentials_are_those_entered(order.login);
    kinds_follow_the_login(order.login);
}

/// An upload goes on from the saved checkpoint exactly if the user does not want
/// the file overwritten, and the checkpoint is of the same local file, of the
/// same user on the same server, of a remote path that belongs to the request,
/// and of an attempt that has come some way but not to the end. It then keeps
/// the remote path, the progress and the count of repetitions; otherwise it
/// starts with none.
pub proof fn uploads_go_on_exactly_where_they_can(
    running: bool,
    order: Order,
    is_file: bool,
    fingerprint: Result<(u64, u64), Seq<char>>,
    saved: Option<Checkpoint>,
)
    requires
        upload_plan(running, order, is_file, fingerprint, saved) is Ok,
    ensures
        ({
            let plan = upload_plan(running, order, is_file, fingerprint, saved)->Ok_0;
            let cp = saved.unwrap();
            let done = if cp.verified > 0 {
                cp.verified
            } else {
                cp.moved
            };
            &&& !plan.force <==> {
                &&& saved is Some
                &&& order.force != Some(true)
                &&& cp.local_path == order.local
                &&& cp.host == order.login.host
                &&& cp.port == order.login.port
                &&& cp.username == order.login.username
                &&& trimmed(cp.remote_path) == trimmed(plan.remote) || at_or_below(
                    trimmed(cp.remote_path),
                    trimmed(order.remote),
                )
                &&& 0 < done < cp.file_size
                &&& cp.status is InProgress || cp.status is Failed
            }
            &&& !plan.force ==> {
                &&& plan.record.remote_path == cp.remote_path
                &&& plan.record.moved == done
                &&& plan.record.verified == cp.verified
                &&& plan.record.retry_count == cp.retry_count
            }
            &&& plan.force ==> {
                &&& plan.record.remote_path == plan.remote
                &&& plan.record.moved == 0
                &&& plan.record.verified == 0
                &&& plan.record.retry_count == 0
            }
        }),
{
    if saved is Some {
        fitting_remote_paths_belong(
            saved.unwrap().remote_path,
            resolved_remote(order.remote, order.local)->Ok_0,
            order.remote,
        );
    }
}

/// An upload is refused exactly where another one is going on, where there is no
/// local file, where the remote path is blank or leads to no name, where the
/// login is refused, where the local file cannot be looked at, or where it is no
/// longer the file that the checkpoint to go on from was made for.
pub proof fn uploads_are_refused_for_a_reason(
    running: bool,
    order: Order,
    is_file: bool,
    fingerprint: Result<(u64, u64), Seq<char>>,
    saved: Option<Checkpoint>,
)
    ensures
        ({
            let plan = upload_plan(running, order, is_file, fingerprint, saved);
            let entry = trimmed(order.remote);
            let resolved = resolved_remote(order.remote, order.local)->Ok_0;
            let cp = saved.unwrap();
            let done = if cp.verified > 0 {
                cp.verified
            } else {
                cp.moved
            };
            let goes_on = {
                &&& saved is Some
                &&& order.force != Some(true)
                &&& cp.local_path == order.local
                &&& cp.host == order.login.host
                &&& cp.port == order.login.port
                &&& cp.username == order.login.username
                &&& trimmed(cp.remote_path) == trimmed(resolved) || at_or_below(
                    trimmed(cp.remote_path),
                    entry,
                )
                &&& 0 < done < cp.file_size
                &&& !(cp.status is Completed)
            };
            &&& plan is Ok <==> {
                &&& !running
                &&& is_file
                &&& entry.len() > 0
                &&& entry.last() == '/' ==> last_name(order.local) is Some
                &&& auth_of(order.login) is Ok
                &&& fingerprint is Ok
                &&& goes_on ==> cp.file_size == fingerprint->Ok_0.0 && (cp.mtime is None
                    || cp.mtime == Some(fingerprint->Ok_0.1))
            }
            &&& running ==> plan == Err::<Plan, Seq<char>>("已有上传任务在进行中"@)
            &&& !running && !is_file ==> plan == Err::<Plan, Seq<char>>("本地文件不存在"@)
            &&& !running && is_file && entry.len() == 0 ==> plan == Err::<Plan, Seq<char>>(
                "请填写远端路径"@,
            )
        }),
{
    if saved is Some {
        fitting_remote_paths_belong(
            saved.unwrap().remote_path,
            resolved_remote(order.remote, order.local)->Ok_0,
            order.remote,
        );
    }
}

/// The old checkpoint is removed exactly if the user wants the file overwritten,
/// or if it is that of an attempt that failed with nothing done.
pub proof fn useless_checkpoints_are_removed(
    running: bool,
    order: Order,
    is_file: bool,
    fingerprint: Result<(u64, u64), Seq<char>>,
    saved: Option<Checkpoint>,
)
    ensures
        ({
            let useless = order.force == Some(true) || (saved is Some
                && saved.unwrap().status is Failed && saved.unwrap().verified == 0
                && saved.unwrap().moved == 0);
            &&& upload_plan(running, order, is_file, fingerprint, saved) matches Ok(plan)
                ==> plan.clear == useless
            &&& download_plan(running, order, saved) matches Ok(plan) ==> plan.clear == useless
        }),
{
}

/// A download is planned as it was asked for: to the server and with the login
/// that were entered, from the remote path that was entered, in the mode that
/// was asked for and otherwise in the reliable one.
pub proof fn downloads_are_planned_as_asked(
    running: bool,
    order: Order,
    saved: Option<Checkpoint>,
)
    requires
        download_plan(running, order, saved) is Ok,
    ensures
        ({
            let plan = download_plan(running, order, saved)->Ok_0;
            &&& order.strict matches Some(strict) ==> plan.strict == strict
            &&& order.strict is None ==> plan.strict
            &&& plan.endpoint.host == order.login.host
            &&& plan.endpoint.port == order.login.port
            &&& plan.endpoint.username == order.login.username
            &&& auth_of(order.login) == Ok::<Credentials, Seq<char>>(plan.endpoint.auth)
            &&& plan.local == order.local
            &&& plan.remote == trimmed(order.remote)
            &&& plan.record.host == order.login.host
            &&& plan.record.port == order.login.port
            &&& plan.record.username == order.login.username
            &&& plan.record.key_path == order.login.key_path
            &&& plan.record.auth_kind is Password <==> order.login.auth_type == "password"@
            &&& plan.record.failure_reason is None
            &&& plan.record.status is InProgress
        }),
{
    credentials_are_those_entered(order.login);
    kinds_follow_the_login(order.login);
}

/// The local path that a download request stands for: the path entered, or,
/// where it ends in a slash or a backslash, the name of the remote file below
/// it.
pub open spec fn stands_for_local(path: Seq<char>, order: Order) -> bool {
    let entry = trimmed(order.local);
    let name = last_name(without_trailing(trimmed(order.remote), '/', '/'));
    &&& entry.len() > 0
    &&& entry.last() != '/' && entry.last() != '\\' ==> path == entry
    &&& entry.last() == '/' || entry.last() == '\\' ==> name is Some && path == without_trailing(
        entry,
        '/',
        '\\',
    ) + seq!['/'] + name.unwrap()
}

/// A download goes on from the saved checkpoint exactly if the user does not
/// want the file overwritten, and the checkpoint is of the same remote file or
/// one below the path entered, of a local path that belongs to the request, of
/// the same user on the same server, and of an attempt that has come some way
/// but not to the end. It then keeps what the checkpoint says of the two files,
/// the progress and the count of repetitions; otherwise it starts with none,
/// from the remote path entered to the local path that the request stands for.
pub proof fn downloads_go_on_exactly_where_they_can(
    running: bool,
    order: Order,
    saved: Option<Checkpoint>,
)
    requires
        download_plan(running, order, saved) is Ok,
    ensures
        ({
            let plan = download_plan(running, order, saved)->Ok_0;
            let cp = saved.unwrap();
            let s = trimmed(cp.local_path);
            let entry = trimmed(order.local);
            let base = without_trailing(entry, '/', '\\');
            let done = if cp.verified > 0 {
                cp.verified
            } else {
                cp.moved
            };
            &&& !plan.force <==> {
                &&& saved is Some
                &&& order.force != Some(true)
                &&& at_or_below(trimmed(cp.remote_path), trimmed(order.remote))
                &&& {
                    ||| exists|path: Seq<char>|
                        #[trigger] stands_for_local(path, order) && s == trimmed(path)
                    ||| s == entry
                    ||| s == base
                    ||| s.len() > base.len() && s.take(base.len() as int) == base && (s[base.len()
                        as int] == '/' || s[base.len() as int] == '\\')
                }
                &&& cp.host == order.login.host
                &&& cp.port == order.login.port
                &&& cp.username == order.login.username
                &&& 0 < done < cp.file_size
                &&& cp.status is InProgress || cp.status is Failed
            }
            &&& !plan.force ==> {
                &&& plan.record.local_path == cp.local_path
                &&& plan.record.remote_path == cp.remote_path
                &&& plan.record.file_size == cp.file_size
                &&& plan.record.mtime == cp.mtime
                &&& plan.record.moved == done
                &&& plan.record.verified == cp.verified
                &&& plan.record.retry_count == cp.retry_count
            }
            &&& plan.force ==> {
                &&& stands_for_local(plan.record.local_path, order)
                &&& plan.record.remote_path == trimmed(order.remote)
                &&& plan.record.file_size == 0
                &&& plan.record.mtime is None
                &&& plan.record.moved == 0
                &&& plan.record.verified == 0
                &&& plan.record.retry_count == 0
            }
        }),
{
    let remote = trimmed(order.remote);
    trimming_is_stable(order.remote);
    let name = name_of_remote(remote)->Ok_0;
    let resolved = resolved_local(order.local, name)->Ok_0;
    reveal_strlit("/");
    assert("/"@ =~= seq!['/']);
    assert(stands_for_local(resolved, order));
    if saved is Some {
        let cp = saved.unwrap();
        fitting_remote_paths_belong(cp.remote_path, remote, remote);
        fitting_local_paths_belong(cp.local_path, resolved, order.local);
        lemma_own_path_belongs(remote);
        if exists|path: Seq<char>|
            #[trigger] stands_for_local(path, order) && trimmed(cp.local_path) == trimmed(path) {
            let path = choose|path: Seq<char>|
                #[trigger] stands_for_local(path, order) && trimmed(cp.local_path) == trimmed(
                    path,
                );
            assert(path == resolved);
        }
    }
}

proof fn lemma_own_path_belongs(dir: Seq<char>)
    ensures
        at_or_below(dir, dir),
{
    assert(dir =~= dir + Seq::<char>::empty());
    assert(leads_to(dir, dir, dir, Seq::empty(), Seq::empty()));
}

/// A download is refused exactly where another one is going on, where one of the
/// two paths is blank, where the remote path ends in no name, or where the login
/// is refused.
pub proof fn downloads_are_refused_for_a_reason(
    running: bool,
    order: Order,
    saved: Option<Checkpoint>,
)
    ensures
        ({
            let plan = download_plan(running, order, saved);
            let remote = trimmed(order.remote);
            let local = trimmed(order.local);
            &&& plan is Ok <==> {
                &&& !running
                &&& remote.len() > 0
                &&& local.len() > 0
                &&& last_name(without_trailing(remote, '/', '/')) is Some
                &&& auth_of(order.login) is Ok
            }
            &&& running ==> plan == Err::<Plan, Seq<char>>("已有下载任务在进行中"@)
            &&& !running && remote.len() == 0 ==> plan == Err::<Plan, Seq<char>>(
                "请填写远端文件路径"@,
            )
            &&& !running && remote.len() > 0 && local.len() == 0 ==> plan == Err::<
                Plan,
                Seq<char>,
            >("请填写本地保存路径"@)
        }),
{
    let remote = trimmed(order.remote);
    trimming_is_stable(order.remote);
    if last_name(without_trailing(remote, '/', '/')) is Some {
        last_names_are_plain(without_trailing(remote, '/', '/'));
    }
}

/// A download that would go on is refused exactly if the server does not
/// describe the remote file, or if it has another size or, where the checkpoint
/// knows one, another modification time, or no longer tells it.
pub proof fn changed_sources_are_refused(record: Checkpoint, found: Result<FileStat, Seq<char>>)
    ensures
        download_refusal(record, found) is None <==> {
            &&& found is Ok
            &&& match found->Ok_0.size {
                Some(size) => size == record.file_size,
                None => record.file_size == 0,
            }
            &&& record.mtime is None || found->Ok_0.mtime == record.mtime
        },
        found matches Err(e) ==> download_refusal(record, found) == Some("无法读取远端文件: "@ + e),
{
}

/// What is said of a planned upload is said of its fields, each of them.
pub proof fn upload_plans_show_every_field(plan: UploadPlan)
    ensures
        plan@.endpoint == plan.config@,
        plan@.local == plan.local_path@,
        plan@.remote == plan.remote_path@,
        plan@.record == plan.checkpoint@,
        plan@.clear == plan.clear_checkpoint,
        plan@.force == plan.force_overwrite,
        plan@.strict == plan.strict_chunk_verify,
{
}

/// What is said of a planned download is said of its fields, each of them.
pub proof fn download_plans_show_every_field(plan: DownloadPlan)
    ensures
        plan@.endpoint == plan.config@,
        plan@.local == plan.local_path@,
        plan@.remote == plan.remote_path@,
        plan@.record == plan.checkpoint@,
        plan@.clear == plan.clear_checkpoint,
        plan@.force == plan.force_overwrite,
        plan@.strict == plan.strict_chunk_verify,
{
}

/// An upload that `start_upload` agrees to goes as the user entered it: to the
/// host, the port and as the user entered, from the local path entered, with
/// every chunk compared unless that was switched off, of the size and the time
/// that the local file has now. What is remembered of it says so too.
pub proof fn started_uploads_are_those_entered(
    running: bool,
    request: TransferRequest,
    is_file: bool,
    fingerprint: Result<(u64, u64), String>,
    saved: Option<TransferRecord>,
    started: Result<UploadPlan, String>,
)
    requires
        call_ensures(start_upload, (running, &request, is_file, fingerprint, &saved), started),
        started is Ok,
    ensures
        ({
            let plan = started->Ok_0;
            let cp = plan.checkpoint;
            &&& !running && is_file && fingerprint is Ok
            &&& plan.strict_chunk_verify <==> request.strict_chunk_verify != Some(false)
            &&& plan.config.host@ == request.connection.host@
            &&& plan.config.port == request.connection.port
            &&& plan.config.username@ == request.connection.username@
            &&& plan.local_path@ == request.local_path@
            &&& request.force_overwrite == Some(true) ==> plan.force_overwrite
            &&& saved is None ==> plan.force_overwrite
            &&& cp.local_path@ == request.local_path@
            &&& cp.host@ == request.connection.host@
            &&& cp.port == request.connection.port
            &&& cp.username@ == request.connection.username@
            &&& cp.file_size == fingerprint->Ok_0.0
            &&& cp.local_mtime == Some(fingerprint->Ok_0.1)
            &&& plan.force_overwrite ==> {
                &&& cp.uploaded_bytes == 0
                &&& cp.verified_bytes == 0
                &&& cp.retry_count == 0
                &&& cp.remote_path@ == plan.remote_path@
            }
            &&& !plan.force_overwrite ==> {
                &&& saved is Some
                &&& saved.unwrap().local_path@ == request.local_path@
                &&& saved.unwrap().host@ == request.connection.host@
                &&& saved.unwrap().port == request.connection.port
                &&& saved.unwrap().username@ == request.connection.username@
                &&& saved.unwrap().file_size == fingerprint->Ok_0.0
                &&& cp.remote_path@ == saved.unwrap().remote_path@
                &&& cp.verified_bytes == saved.unwrap().verified_bytes
                &&& cp.retry_count == saved.unwrap().retry_count
            }
        }),
{
    let found = fingerprint_view(fingerprint);
    uploads_are_planned_as_asked(running, request@, is_file, found, saved_view(saved));
    uploads_go_on_exactly_where_they_can(running, request@, is_file, found, saved_view(saved));
    uploads_are_refused_for_a_reason(running, request@, is_file, found, saved_view(saved));
}

/// A download that `start_download` agrees to goes as the user entered it: from
/// the host, the port and as the user entered, with every chunk compared unless
/// that was switched off. It goes on only from a checkpoint of the same user on
/// the same server and of the remote file entered, or one below it.
pub proof fn started_downloads_are_those_entered(
    running: bool,
    request: TransferRequest,
    saved: Option<TransferRecord>,
    started: Result<DownloadPlan, String>,
)
    requires
        call_ensures(start_download, (running, &request, &saved), started),
        started is Ok,
    ensures
        ({
            let plan = started->Ok_0;
            let cp = plan.checkpoint;
            &&& !running
            &&& plan.strict_chunk_verify <==> request.strict_chunk_verify != Some(false)
            &&& plan.config.host@ == request.connection.host@
            &&& plan.config.port == request.connection.port
            &&& plan.config.username@ == request.connection.username@
            &&& plan.local_path@ == request.local_path@
            &&& plan.remote_path@ == trimmed(request.remote_path@)
            &&& request.force_overwrite == Some(true) ==> plan.force_overwrite
            &&& saved is None ==> plan.force_overwrite
            &&& cp.host@ == request.connection.host@
            &&& cp.port == request.connection.port
            &&& cp.username@ == request.connection.username@
            &&& plan.force_overwrite ==> {
                &&& cp.downloaded_bytes == 0
                &&& cp.verified_bytes == 0
                &&& cp.retry_count == 0
                &&& cp.remote_path@ == trimmed(request.remote_path@)
            }
            &&& !plan.force_overwrite ==> {
                &&& saved is Some
                &&& at_or_below(
                    trimmed(saved.unwrap().remote_path@),
                    trimmed(request.remote_path@),
                )
                &&& saved.unwrap().host@ == request.connection.host@
                &&& saved.unwrap().port == request.connection.port
                &&& saved.unwrap().username@ == request.connection.username@
                &&& cp.local_path@ == saved.unwrap().local_path@
                &&& cp.remote_path@ == saved.unwrap().remote_path@
                &&& cp.file_size == saved.unwrap().file_size
                &&& cp.verified_bytes == saved.unwrap().verified_bytes
                &&& cp.retry_count == saved.unwrap().retry_count
            }
        }),
{
    downloads_are_planned_as_asked(running, request@, saved_view(saved));
    downloads_go_on_exactly_where_they_can(running, request@, saved_view(saved));
    downloads_are_refused_for_a_reason(running, request@, saved_view(saved));
}

} // verus!
