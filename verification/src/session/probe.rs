//! Telling the user, before a transfer starts, what it would do.

use vstd::prelude::*;

use super::plan::{
    download_plan, is_same_account, progress_of, same_account, saved_progress, saved_view,
    upload_plan,
};
use super::request::{
    at_or_below, auth_of, build_connection_config, endpoint_of, fitting_local_paths_belong,
    fitting_remote_paths_belong, leads_to, local_fits, local_paths_compatible, remote_fits,
    remote_paths_compatible, ConnectionRequest, Login, Order,
};
use crate::checkpoint::{Checkpoint, CheckpointStatus};
use crate::number::{decimal, decimal_text};
use crate::path::{last_name, last_names_are_plain};
use crate::sftp::client::{ConnectionConfig, Credentials, Endpoint};
use crate::sftp::download::{
    name_of_remote, remote_file_name, resolve_local_path, resolved_local,
};
use crate::sftp::fault::{fault_text, Direction};
use crate::sftp::upload::{resolve_remote_path, resolved_remote};
use crate::text::{
    beginnings_are_followed_by_the_rest, begins, mentions, mentions_stand_inside, opt_view, same,
    trim, trimmed, trimming_is_stable, without_trailing,
};
use crate::transfer::model::FileStat;
use crate::transfer::record::TransferRecord;

verus! {

/// A request to find out what a transfer would do.
#[derive(Debug)]
pub struct ProbeRequest {
    pub connection: ConnectionRequest,
    pub local_path: String,
    pub remote_path: String,
}

/// What a request says.
pub struct Question {
    pub login: Login,
    pub local: Seq<char>,
    pub remote: Seq<char>,
}

impl View for ProbeRequest {
    type V = Question;

    open spec fn view(&self) -> Question {
        Question {
            login: self.connection@,
            local: self.local_path@,
            remote: self.remote_path@,
        }
    }
}

/// What an upload would do.
#[derive(Debug)]
pub struct RemoteUploadProbe {
    pub resolved_remote_path: String,
    pub remote_exists: bool,
    pub remote_size: u64,
    pub local_size: u64,
    pub verified_bytes: u64,
    pub action: String,
    pub message: String,
}

/// What a download would do.
#[derive(Debug)]
pub struct RemoteDownloadProbe {
    pub resolved_local_path: String,
    pub resolved_remote_path: String,
    pub remote_exists: bool,
    pub remote_size: u64,
    pub local_size: u64,
    pub verified_bytes: u64,
    pub action: String,
    pub message: String,
}

/// What an answer says.
pub struct Forecast {
    pub local: Seq<char>,
    pub remote: Seq<char>,
    pub remote_exists: bool,
    pub remote_size: u64,
    pub local_size: u64,
    pub verified: u64,
    pub action: Seq<char>,
    pub message: Seq<char>,
}

/// The size of the local file, or why it is not known.
pub open spec fn size_view(size: Result<u64, String>) -> Result<u64, Seq<char>> {
    match size {
        Ok(n) => Ok(n),
        Err(e) => Err(e@),
    }
}

/// Where a question about an upload leads: to a server, and to the path that
/// the remote entry stands for.
pub open spec fn upload_question(
    question: Question,
    is_file: bool,
    local_size: Result<u64, Seq<char>>,
) -> Result<(Endpoint, Seq<char>), Seq<char>> {
    if trimmed(question.login.host).len() == 0 {
        Err("请填写主机"@)
    } else if trimmed(question.remote).len() == 0 {
        Err("请填写远端路径"@)
    } else if !is_file {
        Err("本地文件不存在"@)
    } else {
        match (
            local_size,
            resolved_remote(question.remote, question.local),
            endpoint_of(question.login),
        ) {
            (Err(e), _, _) => Err(e),
            (_, Err(fault), _) => Err(fault_text(Direction::Upload, fault)),
            (_, _, Err(e)) => Err(e),
            (Ok(_), Ok(remote), Ok(endpoint)) => Ok((endpoint, remote)),
        }
    }
}

/// Checks a question about an upload.
pub fn check_upload_question(
    request: &ProbeRequest,
    is_file: bool,
    local_size: &Result<u64, String>,
) -> (r: Result<(ConnectionConfig, String), String>)
    ensures
        ({
            let answer = upload_question(request@, is_file, size_view(*local_size));
            match r {
                Ok((config, remote)) => answer == Ok::<(Endpoint, Seq<char>), Seq<char>>(
                    (config@, remote@),
                ),
                Err(e) => answer == Err::<(Endpoint, Seq<char>), Seq<char>>(e@),
            }
        }),
{
    if trim(request.connection.host.as_str()).is_empty() {
        return Err("请填写主机".to_owned());
    }
    if trim(request.remote_path.as_str()).is_empty() {
        return Err("请填写远端路径".to_owned());
    }
    if !is_file {
        return Err("本地文件不存在".to_owned());
    }
    match local_size {
        Ok(_) => {},
        Err(e) => return Err(e.clone()),
    }
    let remote = match resolve_remote_path(
        request.remote_path.as_str(),
        request.local_path.as_str(),
    ) {
        Ok(remote) => remote,
        Err(e) => return Err(e.message()),
    };
    match build_connection_config(&request.connection) {
        Ok(config) => Ok((config, remote)),
        Err(e) => Err(e),
    }
}

/// Checks a question about a download.
pub fn check_download_question(request: &ProbeRequest) -> (r: Result<ConnectionConfig, String>)
    ensures
        match r {
            Ok(config) => download_question(request@) == Ok::<Endpoint, Seq<char>>(config@),
            Err(e) => download_question(request@) == Err::<Endpoint, Seq<char>>(e@),
        },
{
    if trim(request.connection.host.as_str()).is_empty() {
        return Err("请填写主机".to_owned());
    }
    if trim(request.remote_path.as_str()).is_empty() {
        return Err("请填写远端文件路径".to_owned());
    }
    if trim(request.local_path.as_str()).is_empty() {
        return Err("请填写本地保存路径".to_owned());
    }
    build_connection_config(&request.connection)
}

/// Where a question about a download leads.
pub open spec fn download_question(question: Question) -> Result<Endpoint, Seq<char>> {
    if trimmed(question.login.host).len() == 0 {
        Err("请填写主机"@)
    } else if trimmed(question.remote).len() == 0 {
        Err("请填写远端文件路径"@)
    } else if trimmed(question.local).len() == 0 {
        Err("请填写本地保存路径"@)
    } else {
        endpoint_of(question.login)
    }
}

/// What a remote file is found to be: its size, and where it would go.
pub open spec fn download_source(
    question: Question,
    found: Result<FileStat, Seq<char>>,
) -> Result<(u64, Seq<char>), Seq<char>> {
    let remote = trimmed(question.remote);
    match found {
        Err(e) => Err("远端路径错误："@ + remote + " — 无法访问："@ + e),
        Ok(stat) => {
            let size = stat.size.unwrap_or(0);
            if !stat.is_file {
                Err("远端路径错误："@ + remote + " — 请填写服务器上的文件路径，不能是目录"@)
            } else if size == 0 {
                Err("远端文件为空"@)
            } else {
                match name_of_remote(remote) {
                    Err(fault) => Err(fault_text(Direction::Download, fault)),
                    Ok(name) => match resolved_local(question.local, name) {
                        Err(fault) => Err(fault_text(Direction::Download, fault)),
                        Ok(local) => Ok((size, local)),
                    },
                }
            }
        },
    }
}

/// Judges the remote file that a question about a download is about.
pub fn check_download_source(
    request: &ProbeRequest,
    found: Result<FileStat, String>,
) -> (r: Result<(u64, String), String>)
    ensures
        ({
            let source = download_source(
                request@,
                match found {
                    Ok(stat) => Ok(stat),
                    Err(e) => Err(e@),
                },
            );
            match r {
                Ok((size, local)) => source == Ok::<(u64, Seq<char>), Seq<char>>((size, local@)),
                Err(e) => source == Err::<(u64, Seq<char>), Seq<char>>(e@),
            }
        }),
{
    let remote = trim(request.remote_path.as_str());
    let stat = match found {
        Ok(stat) => stat,
        Err(e) => return Err(
            "远端路径错误：".to_owned().concat(remote).concat(" — 无法访问：").concat(e.as_str()),
        ),
    };
    if !stat.is_file {
        return Err(
            "远端路径错误：".to_owned().concat(remote).concat(
                " — 请填写服务器上的文件路径，不能是目录",
            ),
        );
    }
    let size: u64 = stat.size.unwrap_or(0);
    if size == 0 {
        return Err("远端文件为空".to_owned());
    }
    let name = match remote_file_name(remote) {
        Ok(name) => name,
        Err(e) => return Err(e.message()),
    };
    match resolve_local_path(request.local_path.as_str(), name.as_str()) {
        Ok(local) => Ok((size, local)),
        Err(e) => Err(e.message()),
    }
}

/// How far an upload has come before, if the checkpoint belongs to it.
pub open spec fn known_upload_progress(
    question: Question,
    target: Seq<char>,
    saved: Option<Checkpoint>,
) -> u64 {
    match saved {
        Some(cp) => if cp.local_path == question.local && remote_fits(
            cp.remote_path,
            target,
            question.remote,
        ) && same_account(cp, question.login) {
            progress_of(cp)
        } else {
            0
        },
        None => 0,
    }
}

/// How far an upload has come before, if the checkpoint belongs to it.
pub fn upload_progress_known(
    request: &ProbeRequest,
    target: &str,
    saved: &Option<TransferRecord>,
) -> (r: u64)
    ensures
        r == known_upload_progress(request@, target@, saved_view(*saved)),
{
    match saved {
        Some(cp) => {
            if same(cp.local_path.as_str(), request.local_path.as_str())
                && remote_paths_compatible(
                cp.remote_path.as_str(),
                target,
                request.remote_path.as_str(),
            ) && is_same_account(
                cp,
                request.connection.host.as_str(),
                request.connection.port,
                request.connection.username.as_str(),
            ) {
                saved_progress(cp)
            } else {
                0
            }
        },
        None => 0,
    }
}

/// How far a download has come before, if the checkpoint belongs to it.
pub open spec fn known_download_progress(
    question: Question,
    target: Seq<char>,
    saved: Option<Checkpoint>,
) -> u64 {
    let remote = trimmed(question.remote);
    match saved {
        Some(cp) => if local_fits(cp.local_path, target, question.local) && remote_fits(
            cp.remote_path,
            remote,
            remote,
        ) && same_account(cp, question.login) {
            progress_of(cp)
        } else {
            0
        },
        None => 0,
    }
}

/// How far a download has come before, if the checkpoint belongs to it.
pub fn download_progress_known(
    request: &ProbeRequest,
    target: &str,
    saved: &Option<TransferRecord>,
) -> (r: u64)
    ensures
        r == known_download_progress(request@, target@, saved_view(*saved)),
{
    let remote = trim(request.remote_path.as_str());
    match saved {
        Some(cp) => {
            if local_paths_compatible(
                cp.local_path.as_str(),
                target,
                request.local_path.as_str(),
            ) && remote_paths_compatible(cp.remote_path.as_str(), remote, remote)
                && is_same_account(
                cp,
                request.connection.host.as_str(),
                request.connection.port,
                request.connection.username.as_str(),
            ) {
                saved_progress(cp)
            } else {
                0
            }
        },
        None => 0,
    }
}

/// All bytes were moved, but the remote file could not be read back.
pub open spec fn only_unread(cp: Checkpoint) -> bool {
    cp.failure_reason == Some("verify_read_failed"@) && cp.moved >= cp.file_size
}

/// The comparison of the two files has failed.
pub open spec fn found_wrong(cp: Checkpoint) -> bool {
    cp.failure_reason == Some("hash_mismatch"@) || (cp.status is Failed && cp.moved
        >= cp.file_size && cp.failure_reason != Some("verify_read_failed"@))
}

fn reason_is(reason: &Option<String>, text: &str) -> (r: bool)
    ensures
        r == (opt_view(*reason) == Some(text@)),
{
    match reason {
        Some(given) => same(given.as_str(), text),
        None => false,
    }
}

/// What a transfer would do, and the words for it. `megabytes` is the progress
/// known, in megabytes.
pub open spec fn forecast(
    direction: Direction,
    saved: Option<Checkpoint>,
    progress: u64,
    source_size: u64,
    target_size: u64,
    megabytes: Seq<char>,
) -> (Seq<char>, Seq<char>) {
    let up = direction is Upload;
    if saved is Some && only_unread(saved.unwrap()) {
        (
            "verify_retry"@,
            if up {
                "传输已完成，仅需重试最终校验，无需从头重传"@
            } else {
                "传输已完成，仅需重试最终校验，无需从头重下"@
            },
        )
    } else if saved is Some && found_wrong(saved.unwrap()) {
        if up {
            ("full_reupload"@, "上次校验未通过，将删除远端文件并从头重传"@)
        } else {
            ("full_redownload"@, "上次校验未通过，将删除本地文件并从头重下"@)
        }
    } else if 0 < progress < source_size {
        (
            "resume"@,
            "将从已验证的 "@ + decimal(progress as nat) + " 字节处续传（约 "@ + megabytes
                + " MB）"@,
        )
    } else if target_size > 0 {
        (
            "overwrite"@,
            if up {
                "远端已有文件（"@ + decimal(target_size as nat) + " 字节），将覆盖重传"@
            } else {
                "本地已有文件（"@ + decimal(target_size as nat) + " 字节），将覆盖重下"@
            },
        )
    } else {
        (
            "new"@,
            if up {
                "远端无此文件，将新建上传"@
            } else {
                "本地无此文件，将新建下载"@
            },
        )
    }
}

fn make_forecast(
    direction: Direction,
    saved: &Option<TransferRecord>,
    progress: u64,
    source_size: u64,
    target_size: u64,
    megabytes: &str,
) -> (r: (String, String))
    ensures
        (r.0@, r.1@) == forecast(
            direction,
            saved_view(*saved),
            progress,
            source_size,
            target_size,
            megabytes@,
        ),
{
    let up = direction == Direction::Upload;
    let (unread, wrong) = match saved {
        Some(cp) => {
            let read_failed = reason_is(&cp.failure_reason, "verify_read_failed");
            let complete = cp.moved_bytes >= cp.file_size;
            (
                read_failed && complete,
                reason_is(&cp.failure_reason, "hash_mismatch") || (cp.status
                    == CheckpointStatus::Failed && complete && !read_failed),
            )
        },
        None => (false, false),
    };
    if unread {
        return (
            "verify_retry".to_owned(),
            if up {
                "传输已完成，仅需重试最终校验，无需从头重传".to_owned()
            } else {
                "传输已完成，仅需重试最终校验，无需从头重下".to_owned()
            },
        );
    }
    if wrong {
        return if up {
            (
                "full_reupload".to_owned(),
                "上次校验未通过，将删除远端文件并从头重传".to_owned(),
            )
        } else {
            (
                "full_redownload".to_owned(),
                "上次校验未通过，将删除本地文件并从头重下".to_owned(),
            )
        };
    }
    if progress > 0 && progress < source_size {
        let bytes = decimal_text(progress as u128);
        return (
            "resume".to_owned(),
            "将从已验证的 ".to_owned().concat(bytes.as_str()).concat(
                " 字节处续传（约 ",
            ).concat(megabytes).concat(" MB）"),
        );
    }
    if target_size > 0 {
        let bytes = decimal_text(target_size as u128);
        return (
            "overwrite".to_owned(),
            if up {
                "远端已有文件（".to_owned().concat(bytes.as_str()).concat(
                    " 字节），将覆盖重传",
                )
            } else {
                "本地已有文件（".to_owned().concat(bytes.as_str()).concat(
                    " 字节），将覆盖重下",
                )
            },
        );
    }
    (
        "new".to_owned(),
        if up {
            "远端无此文件，将新建上传".to_owned()
        } else {
            "本地无此文件，将新建下载".to_owned()
        },
    )
}

/// What an upload to `target` would do.
pub open spec fn upload_forecast(
    question: Question,
    target: Seq<char>,
    hint: Option<Seq<char>>,
    remote_size: u64,
    local_size: u64,
    saved: Option<Checkpoint>,
    megabytes: Seq<char>,
) -> Forecast {
    let progress = known_upload_progress(question, target, saved);
    let (action, message) = forecast(
        Direction::Upload,
        saved,
        progress,
        local_size,
        remote_size,
        megabytes,
    );
    Forecast {
        local: question.local,
        remote: target,
        remote_exists: remote_size > 0,
        remote_size,
        local_size,
        verified: progress,
        action,
        message: match hint {
            Some(h) => message + "。"@ + h,
            None => message,
        },
    }
}

/// Tells what an upload would do. `target` is the path of the remote file,
/// `hint` a warning about its directory, `remote_size` what stands there now,
/// and `megabytes` the progress known, in megabytes.
pub fn probe_remote_upload(
    request: &ProbeRequest,
    target: &str,
    hint: Option<String>,
    remote_size: u64,
    local_size: u64,
    saved: &Option<TransferRecord>,
    megabytes: &str,
) -> (r: RemoteUploadProbe)
    ensures
        ({
            let told = upload_forecast(
                request@,
                target@,
                opt_view(hint),
                remote_size,
                local_size,
                saved_view(*saved),
                megabytes@,
            );
            &&& r.resolved_remote_path@ == told.remote
            &&& r.remote_exists == told.remote_exists
            &&& r.remote_size == told.remote_size
            &&& r.local_size == told.local_size
            &&& r.verified_bytes == told.verified
            &&& r.action@ == told.action
            &&& r.message@ == told.message
        }),
{
    let verified_bytes = upload_progress_known(request, target, saved);
    let (action, text) = make_forecast(
        Direction::Upload,
        saved,
        verified_bytes,
        local_size,
        remote_size,
        megabytes,
    );
    let message = match hint {
        Some(h) => text.concat("。").concat(h.as_str()),
        None => text,
    };
    RemoteUploadProbe {
        resolved_remote_path: target.to_owned(),
        remote_exists: remote_size > 0,
        remote_size,
        local_size,
        verified_bytes,
        action,
        message,
    }
}

/// What a download to `target` would do.
pub open spec fn download_forecast(
    question: Question,
    target: Seq<char>,
    remote_size: u64,
    local_size: u64,
    saved: Option<Checkpoint>,
    megabytes: Seq<char>,
) -> Forecast {
    let progress = known_download_progress(question, target, saved);
    let (action, message) = forecast(
        Direction::Download,
        saved,
        progress,
        remote_size,
        local_size,
        megabytes,
    );
    Forecast {
        local: target,
        remote: trimmed(question.remote),
        remote_exists: true,
        remote_size,
        local_size,
        verified: progress,
        action,
        message,
    }
}

/// Tells what a download would do. `target` is the path of the local file,
/// `local_size` what stands there now, and `megabytes` the progress known, in
/// megabytes.
pub fn probe_remote_download(
    request: &ProbeRequest,
    target: &str,
    remote_size: u64,
    local_size: u64,
    saved: &Option<TransferRecord>,
    megabytes: &str,
) -> (r: RemoteDownloadProbe)
    ensures
        ({
            let told = download_forecast(
                request@,
                target@,
                remote_size,
                local_size,
                saved_view(*saved),
                megabytes@,
            );
            &&& r.resolved_local_path@ == told.local
            &&& r.resolved_remote_path@ == told.remote
            &&& r.remote_exists == told.remote_exists
            &&& r.remote_size == told.remote_size
            &&& r.local_size == told.local_size
            &&& r.verified_bytes == told.verified
            &&& r.action@ == told.action
            &&& r.message@ == told.message
        }),
{
    let verified_bytes = download_progress_known(request, target, saved);
    let (action, message) = make_forecast(
        Direction::Download,
        saved,
        verified_bytes,
        remote_size,
        local_size,
        megabytes,
    );
    RemoteDownloadProbe {
        resolved_local_path: target.to_owned(),
        resolved_remote_path: trim(request.remote_path.as_str()).to_owned(),
        remote_exists: true,
        remote_size,
        local_size,
        verified_bytes,
        action,
        message,
    }
}

/// A question about an upload is answered exactly if there is a host, a remote
/// path that leads to a name, a local file whose size is known, and a login. It
/// leads to the server that was entered and to the remote path that was entered,
/// or below it under the name of the local file where it ends in a slash.
pub proof fn upload_questions_lead_where_they_were_entered(
    question: Question,
    is_file: bool,
    local_size: Result<u64, Seq<char>>,
)
    ensures
        ({
            let answer = upload_question(question, is_file, local_size);
            let entry = trimmed(question.remote);
            &&& answer is Ok <==> {
                &&& trimmed(question.login.host).len() > 0
                &&& entry.len() > 0
                &&& entry.last() == '/' ==> last_name(question.local) is Some
                &&& is_file
                &&& local_size is Ok
                &&& auth_of(question.login) is Ok
            }
            &&& answer matches Ok((endpoint, remote)) ==> {
                &&& endpoint.host == question.login.host
                &&& endpoint.port == question.login.port
                &&& endpoint.username == question.login.username
                &&& auth_of(question.login) == Ok::<Credentials, Seq<char>>(endpoint.auth)
                &&& entry.last() != '/' ==> remote == entry
                &&& entry.last() == '/' ==> remote == entry + last_name(question.local).unwrap()
            }
            &&& trimmed(question.login.host).len() == 0 ==> answer == Err::<
                (Endpoint, Seq<char>),
                Seq<char>,
            >("请填写主机"@)
            &&& trimmed(question.login.host).len() > 0 && entry.len() == 0 ==> answer == Err::<
                (Endpoint, Seq<char>),
                Seq<char>,
            >("请填写远端路径"@)
            &&& trimmed(question.login.host).len() > 0 && entry.len() > 0 && !is_file ==> answer
                == Err::<(Endpoint, Seq<char>), Seq<char>>("本地文件不存在"@)
        }),
{
}

/// A question about a download is put to the server that was entered, exactly if
/// there is a host, a remote path, a local path and a login.
pub proof fn download_questions_lead_where_they_were_entered(question: Question)
    ensures
        ({
            let answer = download_question(question);
            &&& answer is Ok <==> {
                &&& trimmed(question.login.host).len() > 0
                &&& trimmed(question.remote).len() > 0
                &&& trimmed(question.local).len() > 0
                &&& auth_of(question.login) is Ok
            }
            &&& answer matches Ok(endpoint) ==> {
                &&& endpoint.host == question.login.host
                &&& endpoint.port == question.login.port
                &&& endpoint.username == question.login.username
                &&& auth_of(question.login) == Ok::<Credentials, Seq<char>>(endpoint.auth)
            }
            &&& trimmed(question.login.host).len() == 0 ==> answer == Err::<Endpoint, Seq<char>>(
                "请填写主机"@,
            )
            &&& trimmed(question.login.host).len() > 0 && trimmed(question.remote).len() == 0
                ==> answer == Err::<Endpoint, Seq<char>>("请填写远端文件路径"@)
        }),
{
}

/// A remote file can be downloaded exactly if the server describes it as a file
/// with a size above zero and it has a name, and there is a local path to put it
/// to. Its size is what the server says, and it goes to the local path entered,
/// or below it under its own name where that ends in a slash or a backslash.
pub proof fn download_sources_are_files(question: Question, found: Result<FileStat, Seq<char>>)
    ensures
        ({
            let source = download_source(question, found);
            let entry = trimmed(question.local);
            let name = last_name(without_trailing(trimmed(question.remote), '/', '/'));
            &&& source is Ok <==> {
                &&& found is Ok
                &&& found->Ok_0.is_file
                &&& found->Ok_0.size is Some
                &&& found->Ok_0.size.unwrap() > 0
                &&& name is Some
                &&& entry.len() > 0
            }
            &&& source matches Ok((size, local)) ==> {
                &&& Some(size) == found->Ok_0.size
                &&& entry.last() != '/' && entry.last() != '\\' ==> local == entry
                &&& entry.last() == '/' || entry.last() == '\\' ==> local == without_trailing(
                    entry,
                    '/',
                    '\\',
                ) + seq!['/'] + name.unwrap()
            }
            &&& found matches Err(reason) ==> source is Err && mentions(
                source->Err_0,
                trimmed(question.remote),
            ) && mentions(source->Err_0, reason)
        }),
{
    let remote = trimmed(question.remote);
    trimming_is_stable(question.remote);
    reveal_strlit("/");
    assert("/"@ =~= seq!['/']);
    if last_name(without_trailing(remote, '/', '/')) is Some {
        last_names_are_plain(without_trailing(remote, '/', '/'));
    }
    if found is Err {
        let e = "远端路径错误："@ + remote + " — 无法访问："@ + found->Err_0;
        lemma_holds("远端路径错误："@, remote, " — 无法访问："@ + found->Err_0);
        assert(e =~= "远端路径错误："@ + remote + (" — 无法访问："@ + found->Err_0));
        lemma_holds(
            "远端路径错误："@ + remote + " — 无法访问："@,
            found->Err_0,
            Seq::empty(),
        );
        assert(e =~= "远端路径错误："@ + remote + " — 无法访问："@ + found->Err_0 + Seq::<
            char,
        >::empty());
    }
}

proof fn lemma_holds(a: Seq<char>, p: Seq<char>, b: Seq<char>)
    ensures
        mentions(a + p + b, p),
{
    mentions_stand_inside(a + p + b, p);
}

/// The progress that is known of an upload is that of the saved checkpoint, if
/// it is of the same local file, the same user on the same server, and a remote
/// path that belongs to the question; otherwise none is known.
pub proof fn known_upload_progress_is_its_own(
    question: Question,
    target: Seq<char>,
    saved: Option<Checkpoint>,
)
    ensures
        ({
            let cp = saved.unwrap();
            let own = {
                &&& saved is Some
                &&& cp.local_path == question.local
                &&& trimmed(cp.remote_path) == trimmed(target) || at_or_below(
                    trimmed(cp.remote_path),
                    trimmed(question.remote),
                )
                &&& cp.host == question.login.host
                &&& cp.port == question.login.port
                &&& cp.username == question.login.username
            };
            &&& !own ==> known_upload_progress(question, target, saved) == 0
            &&& own && cp.verified > 0 ==> known_upload_progress(question, target, saved)
                == cp.verified
            &&& own && cp.verified == 0 ==> known_upload_progress(question, target, saved)
                == cp.moved
        }),
{
    if saved is Some {
        fitting_remote_paths_belong(saved.unwrap().remote_path, target, question.remote);
    }
}

/// The progress that is known of a download is that of the saved checkpoint, if
/// it is of the same remote file or one below the path entered, of a local path
/// that belongs to the question, and of the same user on the same server;
/// otherwise none is known.
pub proof fn known_download_progress_is_its_own(
    question: Question,
    target: Seq<char>,
    saved: Option<Checkpoint>,
)
    ensures
        ({
            let cp = saved.unwrap();
            let s = trimmed(cp.local_path);
            let entry = trimmed(question.local);
            let base = without_trailing(entry, '/', '\\');
            let own = {
                &&& saved is Some
                &&& at_or_below(trimmed(cp.remote_path), trimmed(question.remote))
                &&& {
                    ||| s == trimmed(target)
                    ||| s == entry
                    ||| s == base
                    ||| s.len() > base.len() && s.take(base.len() as int) == base && (s[base.len()
                        as int] == '/' || s[base.len() as int] == '\\')
                }
                &&& cp.host == question.login.host
                &&& cp.port == question.login.port
                &&& cp.username == question.login.username
            };
            &&& !own ==> known_download_progress(question, target, saved) == 0
            &&& own && cp.verified > 0 ==> known_download_progress(question, target, saved)
                == cp.verified
            &&& own && cp.verified == 0 ==> known_download_progress(question, target, saved)
                == cp.moved
        }),
{
    let remote = trimmed(question.remote);
    trimming_is_stable(question.remote);
    if saved is Some {
        let cp = saved.unwrap();
        fitting_remote_paths_belong(cp.remote_path, remote, remote);
        fitting_local_paths_belong(cp.local_path, target, question.local);
        assert(remote =~= remote + Seq::<char>::empty());
        assert(leads_to(remote, remote, remote, Seq::empty(), Seq::empty()));
    }
}

/// What a transfer is said to do: only the comparison is repeated exactly if all
/// bytes were moved and the remote file could not be read back; all is done anew
/// if the comparison failed; else it goes on exactly if it has come some way but
/// not to the end; else it overwrites what is there, and is new where nothing is.
pub proof fn forecasts_say_what_will_happen(
    direction: Direction,
    saved: Option<Checkpoint>,
    progress: u64,
    source_size: u64,
    target_size: u64,
    megabytes: Seq<char>,
)
    ensures
        ({
            let (action, message) = forecast(
                direction,
                saved,
                progress,
                source_size,
                target_size,
                megabytes,
            );
            let cp = saved.unwrap();
            let unread = saved is Some && cp.failure_reason == Some("verify_read_failed"@)
                && cp.file_size <= cp.moved;
            let wrong = saved is Some && (cp.failure_reason == Some("hash_mismatch"@) || (
            cp.status is Failed && cp.file_size <= cp.moved && cp.failure_reason != Some(
                "verify_read_failed"@,
            )));
            let midway = 0 < progress && progress < source_size;
            &&& action == "verify_retry"@ <==> unread
            &&& action == "full_reupload"@ <==> direction is Upload && wrong && !unread
            &&& action == "full_redownload"@ <==> direction is Download && wrong && !unread
            &&& action == "resume"@ <==> midway && !wrong && !unread
            &&& action == "overwrite"@ <==> target_size > 0 && !midway && !wrong && !unread
            &&& action == "new"@ <==> target_size == 0 && !midway && !wrong && !unread
            &&& action == "resume"@ ==> mentions(message, decimal(progress as nat)) && mentions(
                message,
                megabytes,
            )
            &&& action == "overwrite"@ ==> mentions(message, decimal(target_size as nat))
        }),
{
    reveal_strlit("verify_retry");
    reveal_strlit("full_reupload");
    reveal_strlit("full_redownload");
    reveal_strlit("resume");
    reveal_strlit("overwrite");
    reveal_strlit("new");
    assert("verify_retry"@.len() == 12 && "full_reupload"@.len() == 13
        && "full_redownload"@.len() == 15 && "resume"@.len() == 6 && "overwrite"@.len() == 9
        && "new"@.len() == 3);
    let done = decimal(progress as nat);
    let there = decimal(target_size as nat);
    let resumed = "将从已验证的 "@ + done + " 字节处续传（约 "@ + megabytes + " MB）"@;
    lemma_holds("将从已验证的 "@, done, " 字节处续传（约 "@ + megabytes + " MB）"@);
    assert(resumed =~= "将从已验证的 "@ + done + (" 字节处续传（约 "@ + megabytes + " MB）"@));
    lemma_holds("将从已验证的 "@ + done + " 字节处续传（约 "@, megabytes, " MB）"@);
    lemma_holds("远端已有文件（"@, there, " 字节），将覆盖重传"@);
    lemma_holds("本地已有文件（"@, there, " 字节），将覆盖重下"@);
}

/// The answer about an upload names the remote path, the two sizes, whether there
/// is a remote file, and the progress that is known; a warning stands at the end
/// of its message.
pub proof fn upload_answers_are_complete(
    question: Question,
    target: Seq<char>,
    hint: Option<Seq<char>>,
    remote_size: u64,
    local_size: u64,
    saved: Option<Checkpoint>,
    megabytes: Seq<char>,
)
    ensures
        ({
            let told = upload_forecast(
                question,
                target,
                hint,
                remote_size,
                local_size,
                saved,
                megabytes,
            );
            let (action, message) = forecast(
                Direction::Upload,
                saved,
                told.verified,
                local_size,
                remote_size,
                megabytes,
            );
            &&& told.remote == target
            &&& told.local == question.local
            &&& told.remote_size == remote_size
            &&& told.local_size == local_size
            &&& told.remote_exists <==> remote_size > 0
            &&& told.verified == known_upload_progress(question, target, saved)
            &&& told.action == action
            &&& begins(told.message, message)
            &&& hint matches Some(h) ==> mentions(told.message, h)
            &&& hint is None ==> told.message == message
        }),
{
    let (action, message) = forecast(
        Direction::Upload,
        saved,
        known_upload_progress(question, target, saved),
        local_size,
        remote_size,
        megabytes,
    );
    match hint {
        Some(h) => {
            let whole = message + "。"@ + h;
            assert(whole =~= message + ("。"@ + h));
            beginnings_are_followed_by_the_rest(whole, message);
            lemma_holds(message + "。"@, h, Seq::empty());
            assert(whole =~= message + "。"@ + h + Seq::<char>::empty());
        },
        None => {
            assert(message =~= message + Seq::<char>::empty());
            beginnings_are_followed_by_the_rest(message, message);
        },
    }
}

/// The answer about a download names the two paths, the two sizes and the
/// progress that is known.
pub proof fn download_answers_are_complete(
    question: Question,
    target: Seq<char>,
    remote_size: u64,
    local_size: u64,
    saved: Option<Checkpoint>,
    megabytes: Seq<char>,
)
    ensures
        ({
            let told = download_forecast(
                question,
                target,
                remote_size,
                local_size,
                saved,
                megabytes,
            );
            let (action, message) = forecast(
                Direction::Download,
                saved,
                told.verified,
                remote_size,
                local_size,
                megabytes,
            );
            &&& told.local == target
            &&& told.remote == trimmed(question.remote)
            &&& told.remote_size == remote_size
            &&& told.local_size == local_size
            &&& told.remote_exists
            &&& told.verified == known_download_progress(question, target, saved)
            &&& told.action == action
            &&& told.message == message
        }),
{
}

/// What is told before an upload is what the upload then does: one that is told
/// to go on does go on, from the place that was told, and one that goes on was
/// told to, unless its bytes had all been moved or found wrong.
pub proof fn uploads_do_what_was_told(
    order: Order,
    size: u64,
    mtime: u64,
    remote_size: u64,
    saved: Option<Checkpoint>,
    megabytes: Seq<char>,
)
    requires
        order.force != Some(true),
        upload_plan(false, order, true, Ok((size, mtime)), saved) is Ok,
    ensures
        ({
            let plan = upload_plan(false, order, true, Ok((size, mtime)), saved)->Ok_0;
            let question = Question {
                login: order.login,
                local: order.local,
                remote: order.remote,
            };
            let told = upload_forecast(
                question,
                plan.remote,
                None,
                remote_size,
                size,
                saved,
                megabytes,
            );
            let cp = saved.unwrap();
            &&& !plan.force ==> told.verified == plan.record.moved
            &&& told.action == "resume"@ && !(cp.status is Completed) && cp.file_size == size
                ==> !plan.force
            &&& !plan.force && cp.moved < cp.file_size && cp.failure_reason != Some(
                "hash_mismatch"@,
            ) ==> told.action == "resume"@
        }),
{
    let plan = upload_plan(false, order, true, Ok((size, mtime)), saved)->Ok_0;
    let question = Question { login: order.login, local: order.local, remote: order.remote };
    let progress = known_upload_progress(question, plan.remote, saved);
    forecasts_say_what_will_happen(
        Direction::Upload,
        saved,
        progress,
        size,
        remote_size,
        megabytes,
    );
}

/// What is told before a download is what the download then does: one that is
/// told to go on does go on, from the place that was told, and one that goes on
/// was told to, unless its bytes had all been moved or found wrong.
pub proof fn downloads_do_what_was_told(
    order: Order,
    stat: FileStat,
    local_size: u64,
    saved: Option<Checkpoint>,
    megabytes: Seq<char>,
)
    requires
        order.force != Some(true),
        download_plan(false, order, saved) is Ok,
        download_source(
            (Question { login: order.login, local: order.local, remote: order.remote }),
            Ok(stat),
        ) is Ok,
    ensures
        ({
            let plan = download_plan(false, order, saved)->Ok_0;
            let question = Question {
                login: order.login,
                local: order.local,
                remote: order.remote,
            };
            let (size, target) = download_source(question, Ok(stat))->Ok_0;
            let told = download_forecast(question, target, size, local_size, saved, megabytes);
            let cp = saved.unwrap();
            &&& told.remote == plan.remote
            &&& plan.force ==> told.local == plan.record.local_path
            &&& !plan.force ==> told.verified == plan.record.moved
            &&& told.action == "resume"@ && !(cp.status is Completed) && cp.file_size == size
                ==> !plan.force
            &&& !plan.force && cp.moved < cp.file_size && cp.file_size == size
                && cp.failure_reason != Some("hash_mismatch"@) ==> told.action == "resume"@
        }),
{
    let plan = download_plan(false, order, saved)->Ok_0;
    let question = Question { login: order.login, local: order.local, remote: order.remote };
    let (size, target) = download_source(question, Ok(stat))->Ok_0;
    let progress = known_download_progress(question, target, saved);
    forecasts_say_what_will_happen(
        Direction::Download,
        saved,
        progress,
        size,
        local_size,
        megabytes,
    );
}

/// What is said of a question is said of what was entered, field by field.
pub proof fn questions_show_every_field(request: ProbeRequest)
    ensures
        request@.login == request.connection@,
        request@.local == request.local_path@,
        request@.remote == request.remote_path@,
{
}

} // verus!
