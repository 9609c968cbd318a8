use resilissh::checkpoint::{checkpoint_path, AuthKind, CheckpointStatus, UploadCheckpoint};
use resilissh::download_checkpoint::{self, DownloadCheckpoint};
use resilissh::session::plan::{
    confirm_source, saved_progress, start_download, start_upload,
};
use resilissh::session::probe::{
    check_download_question, check_download_source, check_upload_question,
    download_progress_known, probe_remote_download, probe_remote_upload, upload_progress_known,
    ProbeRequest,
};
use resilissh::session::report::{
    cancel_event, completed_verify_summary, finish_download, finish_upload,
    format_download_failure, format_upload_failure, progress_event, retry_events, stalled_event,
};
use resilissh::session::request::{
    auth_kind, build_auth, build_connection_config, check_connection_request, create_remote_dir,
    list_remote_dir, local_paths_compatible, remote_paths_compatible, should_block_app_close,
    ConnectionRequest, CreateRemoteDirRequest, ListRemoteDirRequest, TransferRequest,
};
use resilissh::sftp::client::AuthMethod;
use resilissh::sftp::download::DownloadError;
use resilissh::sftp::fault::Direction;
use resilissh::sftp::upload::UploadError;
use resilissh::storage::app_data_dir;
use resilissh::transfer::model::FileStat;
use resilissh::transfer::record::{effective_verified_bytes, TransferRecord};

fn login() -> ConnectionRequest {
    ConnectionRequest {
        host: "h".into(),
        port: 22,
        username: "u".into(),
        auth_type: "password".into(),
        password: Some("p".into()),
        key_path: None,
        key_passphrase: None,
    }
}

fn record() -> TransferRecord {
    TransferRecord {
        local_path: "/tmp/a".into(),
        remote_path: "/d/a".into(),
        host: "h".into(),
        port: 22,
        username: "u".into(),
        auth_kind: AuthKind::Password,
        key_path: None,
        file_size: 100,
        mtime: Some(5),
        moved_bytes: 60,
        verified_bytes: 40,
        retry_count: 2,
        failure_reason: None,
        status: CheckpointStatus::Failed,
    }
}

fn order(local: &str, remote: &str) -> TransferRequest {
    TransferRequest {
        connection: login(),
        local_path: local.into(),
        remote_path: remote.into(),
        strict_chunk_verify: None,
        force_overwrite: None,
    }
}

#[test]
fn credentials_come_from_the_request() {
    assert!(matches!(build_auth(&login()), Ok(AuthMethod::Password(p)) if p == "p"));
    let mut r = login();
    r.password = Some(String::new());
    assert_eq!(build_auth(&r).unwrap_err(), "请填写密码");
    r.auth_type = "key".into();
    assert_eq!(build_auth(&r).unwrap_err(), "请选择私钥文件");
    r.key_path = Some("/k".into());
    r.key_passphrase = Some(String::new());
    let auth = build_auth(&r).unwrap();
    assert!(matches!(auth_kind(&auth), AuthKind::PrivateKey));
    assert!(matches!(auth, AuthMethod::PrivateKey { passphrase: None, .. }));
    r.auth_type = "x".into();
    assert_eq!(build_auth(&r).unwrap_err(), "未知认证方式");
    assert_eq!(build_connection_config(&login()).unwrap().host, "h");
}

#[test]
fn requests_are_checked_before_a_connection_is_made() {
    let mut r = login();
    r.host = " ".into();
    assert_eq!(check_connection_request(&r).unwrap_err(), "请填写主机");
    r.host = "h".into();
    r.username = "".into();
    assert_eq!(check_connection_request(&r).unwrap_err(), "请填写用户名");
    let listing = list_remote_dir(&ListRemoteDirRequest { connection: r, path: None });
    assert_eq!(listing.unwrap_err(), "请填写用户名");
    assert!(list_remote_dir(&ListRemoteDirRequest { connection: login(), path: Some("/".into()) }).is_ok());
    let create = |parent: &str, name: &str| {
        create_remote_dir(&CreateRemoteDirRequest {
            connection: login(),
            parent_path: parent.into(),
            dir_name: name.into(),
        })
    };
    assert_eq!(create(" ", "x").unwrap_err(), "请先进入要创建目录的父路径");
    assert_eq!(create("/", "..").unwrap_err(), "无效的目录名");
    assert!(create("/", "x").is_ok());
}

#[test]
fn checkpoints_belong_to_paths() {
    assert!(remote_paths_compatible("/d/a", "/d/a", "/x"));
    assert!(remote_paths_compatible(" /d/a ", "/y", "/d/a"));
    assert!(remote_paths_compatible("/d/a", "/y", "/d/"));
    assert!(remote_paths_compatible("/d", "/y", "/d/"));
    assert!(!remote_paths_compatible("/dd/a", "/y", "/d"));
    assert!(local_paths_compatible("C:\\d\\a", "/y", "C:\\d"));
    assert!(local_paths_compatible("/d/a", "/y", "/d/"));
    assert!(!local_paths_compatible("/e/a", "/y", "/d"));
}

#[test]
fn closing_is_blocked_while_something_moves() {
    assert!(should_block_app_close(false, true, false));
    assert!(should_block_app_close(false, false, true));
    assert!(!should_block_app_close(true, true, true));
    assert!(!should_block_app_close(false, false, false));
}

#[test]
fn an_upload_goes_on_from_its_checkpoint() {
    let plan = start_upload(false, &order("/tmp/a", "/d/"), true, Ok((100, 5)), &Some(record())).unwrap();
    assert_eq!(plan.remote_path, "/d/a");
    assert!(!plan.force_overwrite);
    assert!(!plan.clear_checkpoint);
    assert!(plan.strict_chunk_verify);
    assert_eq!(plan.checkpoint.uploaded_bytes, 40);
    assert_eq!(plan.checkpoint.verified_bytes, 40);
    assert_eq!(plan.checkpoint.retry_count, 2);
    assert!(matches!(plan.checkpoint.status, CheckpointStatus::InProgress));
}

#[test]
fn an_upload_starts_over_when_it_must() {
    let mut forced = order("/tmp/a", "/d/");
    forced.force_overwrite = Some(true);
    forced.strict_chunk_verify = Some(false);
    let plan = start_upload(false, &forced, true, Ok((100, 5)), &Some(record())).unwrap();
    assert!(plan.force_overwrite && plan.clear_checkpoint && !plan.strict_chunk_verify);
    assert_eq!(plan.checkpoint.uploaded_bytes, 0);
    let mut other = record();
    other.host = "else".into();
    let plan = start_upload(false, &order("/tmp/a", "/d/"), true, Ok((100, 5)), &Some(other)).unwrap();
    assert!(plan.force_overwrite && !plan.clear_checkpoint);
    let mut empty = record();
    empty.moved_bytes = 0;
    empty.verified_bytes = 0;
    let plan = start_upload(false, &order("/tmp/a", "/d/"), true, Ok((100, 5)), &Some(empty)).unwrap();
    assert!(plan.force_overwrite && plan.clear_checkpoint);
    let plan = start_upload(false, &order("/tmp/a", "/d/"), true, Ok((100, 5)), &None).unwrap();
    assert!(plan.force_overwrite && !plan.clear_checkpoint);
    assert_eq!(plan.checkpoint.local_mtime, Some(5));
}

#[test]
fn uploads_that_cannot_start_are_refused() {
    let o = order("/tmp/a", "/d/");
    let saved = Some(record());
    assert_eq!(start_upload(true, &o, true, Ok((1, 1)), &saved).unwrap_err(), "已有上传任务在进行中");
    assert_eq!(start_upload(false, &o, false, Ok((1, 1)), &saved).unwrap_err(), "本地文件不存在");
    assert_eq!(start_upload(false, &order("/tmp/a", " "), true, Ok((1, 1)), &saved).unwrap_err(), "请填写远端路径");
    assert_eq!(
        start_upload(false, &order("/", "/d/"), true, Ok((1, 1)), &saved).unwrap_err(),
        "远端路径无效: 无法读取本地文件名"
    );
    assert_eq!(start_upload(false, &o, true, Err("io".into()), &saved).unwrap_err(), "io");
    assert_eq!(
        start_upload(false, &o, true, Ok((101, 5)), &saved).unwrap_err(),
        "本地文件大小已变化（断点记录 100 字节，当前 101 字节），请清除断点后重新上传"
    );
    assert_eq!(
        start_upload(false, &o, true, Ok((100, 6)), &saved).unwrap_err(),
        "本地文件已修改（修改时间变化），请清除断点后重新上传"
    );
    let mut bad = order("/tmp/a", "/d/");
    bad.connection.password = None;
    assert_eq!(start_upload(false, &bad, true, Ok((1, 1)), &saved).unwrap_err(), "请填写密码");
}

#[test]
fn a_download_goes_on_if_the_source_is_unchanged() {
    let plan = start_download(false, &order("/tmp/", " /d/a "), &Some(record())).unwrap();
    assert!(!plan.force_overwrite);
    assert_eq!(plan.remote_path, "/d/a");
    assert_eq!(plan.local_path, "/tmp/");
    assert_eq!(plan.checkpoint.local_path, "/tmp/a");
    assert_eq!(plan.checkpoint.downloaded_bytes, 40);
    let stat = |size, mtime| FileStat { is_dir: false, is_file: true, size: Some(size), mtime };
    assert!(confirm_source(&plan.checkpoint, Ok(stat(100, Some(5)))).is_ok());
    assert_eq!(
        confirm_source(&plan.checkpoint, Ok(stat(99, Some(5)))).unwrap_err(),
        "远端文件大小已变化（断点记录 100 字节，当前 99 字节），请清除断点后重新下载"
    );
    assert_eq!(
        confirm_source(&plan.checkpoint, Ok(stat(100, None))).unwrap_err(),
        "远端文件已修改（修改时间变化），请清除断点后重新下载"
    );
    assert_eq!(confirm_source(&plan.checkpoint, Err("x".into())).unwrap_err(), "无法读取远端文件: x");
}

#[test]
fn downloads_that_cannot_start_are_refused() {
    assert_eq!(start_download(true, &order("/l", "/r"), &None).unwrap_err(), "已有下载任务在进行中");
    assert_eq!(start_download(false, &order("/l", ""), &None).unwrap_err(), "请填写远端文件路径");
    assert_eq!(start_download(false, &order(" ", "/r"), &None).unwrap_err(), "请填写本地保存路径");
    assert_eq!(
        start_download(false, &order("/l", "/"), &None).unwrap_err(),
        "远端路径无效: 无法读取远端文件名"
    );
    let plan = start_download(false, &order("/l/", "/r"), &None).unwrap();
    assert!(plan.force_overwrite);
    assert_eq!(plan.checkpoint.file_size, 0);
    assert_eq!(plan.checkpoint.local_path, "/l/r");
}

fn question() -> ProbeRequest {
    ProbeRequest { connection: login(), local_path: "/tmp/a".into(), remote_path: "/d/".into() }
}

#[test]
fn uploads_are_forecast() {
    let (_, remote) = check_upload_question(&question(), true, &Ok(100)).unwrap();
    assert_eq!(remote, "/d/a");
    assert_eq!(check_upload_question(&question(), false, &Ok(1)).unwrap_err(), "本地文件不存在");
    assert_eq!(check_upload_question(&question(), true, &Err("io".into())).unwrap_err(), "io");
    let saved = Some(record());
    assert_eq!(upload_progress_known(&question(), "/d/a", &saved), 40);
    assert_eq!(upload_progress_known(&question(), "/d/a", &None), 0);
    let ask = |saved: &Option<TransferRecord>, size: u64| {
        probe_remote_upload(&question(), "/d/a", None, size, 100, saved, "0.0")
    };
    let p = ask(&saved, 50);
    assert_eq!(p.action, "resume");
    assert_eq!(p.message, "将从已验证的 40 字节处续传（约 0.0 MB）");
    assert_eq!(p.verified_bytes, 40);
    assert_eq!(ask(&None, 7).message, "远端已有文件（7 字节），将覆盖重传");
    assert_eq!(ask(&None, 0).message, "远端无此文件，将新建上传");
    let mut r = record();
    r.moved_bytes = 100;
    r.failure_reason = Some("verify_read_failed".into());
    assert_eq!(ask(&Some(r.copy()), 1).action, "verify_retry");
    r.failure_reason = None;
    assert_eq!(ask(&Some(r.copy()), 1).action, "full_reupload");
    let p = probe_remote_upload(&question(), "/d/a", Some("hint".into()), 0, 100, &None, "");
    assert_eq!(p.message, "远端无此文件，将新建上传。hint");
    assert!(!p.remote_exists);
}

#[test]
fn downloads_are_forecast() {
    let q = ProbeRequest { connection: login(), local_path: "/tmp/".into(), remote_path: " /d/a ".into() };
    assert!(check_download_question(&q).is_ok());
    let stat = |is_file: bool, size: Option<u64>| FileStat { is_dir: !is_file, is_file, size, mtime: None };
    assert_eq!(check_download_source(&q, Ok(stat(true, Some(9)))).unwrap(), (9, "/tmp/a".to_string()));
    assert_eq!(
        check_download_source(&q, Err("x".into())).unwrap_err(),
        "远端路径错误：/d/a — 无法访问：x"
    );
    assert_eq!(
        check_download_source(&q, Ok(stat(false, None))).unwrap_err(),
        "远端路径错误：/d/a — 请填写服务器上的文件路径，不能是目录"
    );
    assert_eq!(check_download_source(&q, Ok(stat(true, None))).unwrap_err(), "远端文件为空");
    let mut r = record();
    assert_eq!(download_progress_known(&q, "/tmp/a", &Some(record())), 40);
    let ask = |saved: &Option<TransferRecord>, local: u64| {
        probe_remote_download(&q, "/tmp/a", 100, local, saved, "0.0")
    };
    assert_eq!(ask(&Some(record()), 3).action, "resume");
    assert_eq!(ask(&None, 3).message, "本地已有文件（3 字节），将覆盖重下");
    assert_eq!(ask(&None, 0).message, "本地无此文件，将新建下载");
    r.failure_reason = Some("hash_mismatch".into());
    let p = ask(&Some(r), 3);
    assert_eq!(p.action, "full_redownload");
    assert_eq!(p.resolved_remote_path, "/d/a");
    assert!(p.remote_exists);
}

#[test]
fn progress_is_put_into_words() {
    let e = progress_event(Direction::Upload, 3, 9, "uploading", 0);
    assert_eq!(e.message, "已上传 3 / 9 字节");
    let e = progress_event(Direction::Download, 3, 9, "downloading", 2);
    assert_eq!(e.message, "已下载 3 / 9 字节 · 重试 2 次");
    let (retry, event) = retry_events(&record(), 3, 1000, "x");
    assert_eq!(retry.message, "x（第 3 次重试）");
    assert_eq!(event.done_bytes, 60);
    assert_eq!(event.status, "retrying");
    assert_eq!(stalled_event(5, 9, 0, 45).message, "传输超过 45 秒无响应，正在中断并重连...");
    assert_eq!(cancel_event(Direction::Upload, false).unwrap_err(), "当前没有进行中的上传");
    assert_eq!(cancel_event(Direction::Download, false).unwrap_err(), "当前没有进行中的下载");
    assert_eq!(cancel_event(Direction::Download, true).unwrap().status, "cancelling");
    assert_eq!(completed_verify_summary(true), "校验通过 · 逐块校验 + SHA-256 一致");
    assert_eq!(completed_verify_summary(false), "校验通过 · SHA-256 一致");
}

#[test]
fn failures_are_put_into_words() {
    let up = |e: UploadError| format_upload_failure(&e, "/r", 2);
    assert_eq!(up(UploadError::HashMismatch), "SHA-256 校验未通过，远端文件已删除，请重新上传（已累计自动重试 2 次）");
    assert_eq!(up(UploadError::InvalidRemotePath("m".into())), "远端路径错误：/r — m（已累计自动重试 2 次）");
    assert_eq!(
        up(UploadError::RemoteLargerThanLocal { remote: 9, local: 3 }),
        "远端路径错误：/r — 远端文件（9 字节）大于本地文件（3 字节）（已累计自动重试 2 次）"
    );
    assert_eq!(
        up(UploadError::ResumeBoundaryMismatch { offset: 4 }),
        "远端路径错误：/r — 续传边界校验失败（offset=4），建议清除断点后重试（已累计自动重试 2 次）"
    );
    assert_eq!(up(UploadError::Sftp("远端路径「/r」x".into())), "远端路径「/r」x（已累计自动重试 2 次）");
    assert_eq!(up(UploadError::Sftp("x".into())), "远端路径「/r」操作失败：x（已累计自动重试 2 次）");
    assert_eq!(up(UploadError::LocalIo("io".into())), "本地文件读取失败: io（已累计自动重试 2 次）");
    let down = |e: DownloadError| format_download_failure(&e, "/r", 0);
    assert_eq!(down(DownloadError::HashMismatch), "SHA-256 校验未通过，本地文件已删除，请重新下载（已累计自动重试 0 次）");
    assert_eq!(down(DownloadError::RemoteNotAFile("m".into())), "远端路径错误：/r — m（已累计自动重试 0 次）");
    assert_eq!(down(DownloadError::Sftp("y".into())), "远端路径「/r」操作失败：y（已累计自动重试 0 次）");
    assert_eq!(
        down(DownloadError::LocalLargerThanRemote { local: 2, remote: 1 }),
        "本地文件大于远端文件，无法续传（已累计自动重试 0 次）"
    );
}

#[test]
fn a_finished_transfer_is_closed() {
    let done = finish_upload(&Ok(()), record(), true);
    assert!(done.clear_checkpoint);
    assert_eq!(done.event.message, "上传完成（共重试 2 次）");
    assert_eq!(done.event.done_bytes, 100);
    assert_eq!(done.notification.as_deref(), Some("ResiliSSH"));
    assert_eq!(done.finished.status, "completed");
    let stopped = finish_download(&Err(DownloadError::Cancelled), record(), true);
    assert!(!stopped.clear_checkpoint);
    assert_eq!(stopped.notification, None);
    assert_eq!(stopped.event.message, "下载已取消，可稍后继续（已重试 2 次）");
    assert_eq!(stopped.event.done_bytes, 60);
    let mut r = record();
    r.status = CheckpointStatus::InProgress;
    let failed = finish_upload(&Err(UploadError::HashMismatch), r, false);
    assert!(matches!(failed.record.status, CheckpointStatus::Failed));
    assert_eq!(failed.notification.as_deref(), Some("ResiliSSH 上传失败"));
    let mut r = record();
    r.failure_reason = Some("verify_read_failed".into());
    let unread = finish_download(&Err(DownloadError::Sftp("x".into())), r, false);
    assert_eq!(
        unread.event.message,
        "传完后校验时网络中断，各数据块均已校验通过，请直接点「开始下载」重试（已重试 2 次）"
    );
}

#[test]
fn checkpoints_have_their_places_and_defaults() {
    let below = |name: &str| [app_data_dir(), name.as_bytes().to_vec()].concat();
    assert_eq!(checkpoint_path(), below("/upload-checkpoint.json"));
    assert_eq!(download_checkpoint::checkpoint_path(), below("/download-checkpoint.json"));
    let cp = UploadCheckpoint::default();
    assert_eq!(cp.port, 22);
    assert_eq!(cp.copy().verified_bytes, 0);
    let back: DownloadCheckpoint = record().into_download();
    assert_eq!(back.downloaded_bytes, 60);
    assert_eq!(back.remote_mtime, Some(5));
    let mut r = TransferRecord::from_download(back.copy());
    assert_eq!(saved_progress(&r), 40);
    assert_eq!(effective_verified_bytes(&r), 40);
    r.verified_bytes = 0;
    r.moved_bytes = 33_556_504;
    assert_eq!(effective_verified_bytes(&r), 33_554_432);
    assert_eq!(saved_progress(&r), 33_556_504);
}
