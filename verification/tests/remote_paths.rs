use resilissh::sftp::browse::{
    create_remote_directory, entry_name, join_remote_path, list_remote_directory,
    parent_remote_path, read_directory_listing, validate_dir_name, Browse, BrowseAction,
    BrowseEvent, RawEntry,
};
use resilissh::sftp::client::ConnectError;
use resilissh::sftp::download::{
    self, creates_local_file, remote_file_name, resolve_local_path, DownloadError,
};
use resilissh::sftp::fault::RemoteRead;
use resilissh::sftp::upload::{
    format_remote_sftp_error, is_permanent_sftp_error, is_remote_directory,
    list_parent_directories, remote_parent_path, remote_parent_status, resolve_remote_path,
    resolve_upload_target, strip_sftp_wrapper, write_mode, UploadError, WriteMode,
};
use resilissh::transfer::model::FileStat;

#[test]
fn join_path_handles_trailing_slash() {
    assert_eq!(join_remote_path("/home/user", "dir"), "/home/user/dir");
    assert_eq!(join_remote_path("/home/user/", "dir"), "/home/user/dir");
}

#[test]
fn parent_path_root_is_none() {
    assert_eq!(parent_remote_path("/"), None);
    assert_eq!(parent_remote_path("/home/user"), Some("/home".to_string()));
}

#[test]
fn validate_dir_name_rejects_slashes() {
    assert!(validate_dir_name("a/b").is_err());
    assert!(validate_dir_name("ok").is_ok());
}

#[test]
fn resolves_local_directory_path() {
    let path = resolve_local_path("/tmp/downloads/", "demo.jar").unwrap();
    assert_eq!(path, "/tmp/downloads/demo.jar");
}

#[test]
fn appends_filename_for_directory_remote_path() {
    let resolved = resolve_remote_path("/home/user/dsn/", "/tmp/demo.jar").unwrap();
    assert_eq!(resolved, "/home/user/dsn/demo.jar");
}

#[test]
fn socket_timeout_after_progress_is_retryable() {
    let wrapped = format_remote_sftp_error("Timed out waiting on socket", "/tmp/a.jar");
    assert!(!is_permanent_sftp_error(&wrapped, 19_922_944));
    assert!(!is_permanent_sftp_error("Timed out waiting on socket", 19_922_944));
}

fn stat(is_dir: bool, is_file: bool) -> FileStat {
    FileStat { is_dir, is_file, size: Some(3), mtime: None }
}

#[test]
fn directory_names_are_checked() {
    assert_eq!(validate_dir_name("  ok ").unwrap(), "ok");
    assert_eq!(validate_dir_name(" ").unwrap_err(), "目录名不能为空");
    assert_eq!(validate_dir_name("a\\b").unwrap_err(), "目录名不能包含 / 或 \\");
    assert_eq!(validate_dir_name(".").unwrap_err(), "无效的目录名");
    assert_eq!(validate_dir_name("..").unwrap_err(), "无效的目录名");
}

#[test]
fn remote_entries_are_resolved() {
    assert!(matches!(
        resolve_remote_path("  ", "/tmp/a"),
        Err(UploadError::InvalidRemotePath(m)) if m == "远端路径不能为空"
    ));
    assert!(matches!(
        resolve_remote_path("/d/", "/"),
        Err(UploadError::InvalidRemotePath(m)) if m == "无法读取本地文件名"
    ));
    assert_eq!(resolve_remote_path(" /d/x ", "/tmp/a").unwrap(), "/d/x");
    assert_eq!(resolve_upload_target("/d", "/tmp/a", true).unwrap(), "/d/a");
    assert_eq!(resolve_upload_target("/d", "/tmp/a", false).unwrap(), "/d");
    assert_eq!(resolve_upload_target("/d/", "/tmp/a", false).unwrap(), "/d/a");
    assert!(resolve_upload_target("", "/tmp/a", false).is_err());
    assert!(resolve_upload_target("/d", "/..", true).is_err());
    assert!(is_remote_directory(&Some(stat(true, false)), false));
    assert!(!is_remote_directory(&Some(stat(false, true)), true));
    assert!(is_remote_directory(&Some(stat(false, false)), true));
    assert!(!is_remote_directory(&None, false));
}

#[test]
fn resolved_paths_stand_for_themselves() {
    for remote in ["/d/", " /d/x ", "d//", "/"] {
        let once = resolve_remote_path(remote, "/tmp/a b").unwrap();
        assert_eq!(resolve_remote_path(&once, "/tmp/a b").unwrap(), once);
    }
    let once = resolve_remote_path("/d/", "/tmp/a ").unwrap();
    assert_eq!(once, "/d/a ");
    assert_eq!(resolve_remote_path(&once, "/tmp/a ").unwrap(), "/d/a");
}

#[test]
fn local_entries_are_resolved() {
    assert_eq!(resolve_local_path("C:\\d\\", "x").unwrap(), "C:\\d/x");
    assert_eq!(resolve_local_path(" /d/y ", "x").unwrap(), "/d/y");
    assert!(matches!(
        resolve_local_path("", "x"),
        Err(DownloadError::InvalidLocalPath(m)) if m == "本地路径不能为空"
    ));
    assert_eq!(remote_file_name(" /a/b.txt// ").unwrap(), "b.txt");
    assert!(matches!(
        remote_file_name("/"),
        Err(DownloadError::InvalidRemotePath(m)) if m == "无法读取远端文件名"
    ));
}

#[test]
fn parent_directories_are_listed_from_the_outside_in() {
    assert_eq!(list_parent_directories("/a/b//c/x"), vec!["/a", "/a/b", "/a/b/c"]);
    assert_eq!(list_parent_directories("a/x"), vec!["a"]);
    assert_eq!(list_parent_directories("a/b/f.bin"), vec!["a", "a/b"]);
    assert!(list_parent_directories("/x").is_empty());
    assert!(list_parent_directories("x").is_empty());
    assert_eq!(remote_parent_path("/a/b").as_deref(), Some("/a"));
    assert_eq!(remote_parent_path("/a"), None);
    assert_eq!(remote_parent_status("/a/b", true), None);
    assert_eq!(
        remote_parent_status("/a/b", false).as_deref(),
        Some("远端路径可能有问题：上级目录「/a」在服务器上不存在")
    );
    assert_eq!(remote_parent_status("/b", false), None);
}

#[test]
fn sftp_errors_are_put_into_words() {
    assert_eq!(
        format_remote_sftp_error("No Such File", "/a/b"),
        "远端路径错误：/a/b\n上级目录「/a」在服务器上不存在，请核对用户名与目录名（本地文件不受影响）"
    );
    assert_eq!(
        format_remote_sftp_error("SFTP(2)", "/b"),
        "远端路径错误：/b\n该路径在服务器上不存在（本地文件不受影响）"
    );
    assert_eq!(
        format_remote_sftp_error("Permission denied", "/b"),
        "远端路径错误：/b\n没有写入权限，请检查该目录权限"
    );
    assert_eq!(
        format_remote_sftp_error("[SFTP(4)] oops", "/b"),
        "远端路径错误：/b\n写入失败：[SFTP(4)] oops"
    );
    assert_eq!(format_remote_sftp_error("timeout", "/b"), "远端路径「/b」操作失败：timeout");
    assert_eq!(strip_sftp_wrapper("远端路径「/b」操作失败：timeout"), "timeout");
    assert_eq!(strip_sftp_wrapper("远端路径「/b」 other"), "other");
    assert_eq!(strip_sftp_wrapper("plain」"), "plain」");
}

#[test]
fn hopeless_errors_are_permanent() {
    for text in [
        "Permission denied", "no such file", "Not a directory", "Is a directory", "cannot create x",
        "ACCESS DENIED", "Authentication", "续传边界校验失败（offset=1）", "SHA-256", "远端路径错误：/x",
    ] {
        assert!(is_permanent_sftp_error(text, 0), "{}", text);
        assert!(download::is_permanent_sftp_error(text, 0), "{}", text);
    }
    assert!(!is_permanent_sftp_error("远端不是文件: x", 0));
    assert!(download::is_permanent_sftp_error("远端不是文件: x", 0));
    assert!(!is_permanent_sftp_error("块校验失败（offset=0，len=5），将重传该块", 0));
    assert!(!is_permanent_sftp_error("远端路径「/author」操作失败：timeout", 0));
}

#[test]
fn error_texts_of_uploads() {
    let texts: Vec<String> = vec![
        UploadError::Cancelled.message(),
        UploadError::InvalidRemotePath("m".into()).message(),
        UploadError::RemoteLargerThanLocal { remote: 2, local: 1 }.message(),
        UploadError::ResumeBoundaryMismatch { offset: 9 }.message(),
        UploadError::SizeMismatch { local: 1, remote: 2 }.message(),
        UploadError::HashMismatch.message(),
        UploadError::ChunkVerifyMismatch { offset: 3, len: 4 }.message(),
        UploadError::LocalIo("io".into()).message(),
        UploadError::Connect(ConnectError::Tcp("t".into())).message(),
        UploadError::Sftp("s".into()).message(),
    ];
    assert_eq!(
        texts,
        vec![
            "用户取消了上传",
            "远端路径无效: m",
            "远端文件大于本地文件，无法续传",
            "续传边界校验失败（offset=9），请清除断点后重新上传",
            "上传完成后远端大小不一致（本地=1，远端=2）",
            "上传完成后校验不一致（SHA-256 不匹配）",
            "块校验失败（offset=3，len=4），将重传该块",
            "本地文件读取失败: io",
            "连接失败: TCP 连接失败: t",
            "SFTP 错误: s",
        ]
    );
}

#[test]
fn error_texts_of_downloads() {
    let texts: Vec<String> = vec![
        DownloadError::Cancelled.message(),
        DownloadError::InvalidRemotePath("m".into()).message(),
        DownloadError::InvalidLocalPath("m".into()).message(),
        DownloadError::RemoteNotAFile("m".into()).message(),
        DownloadError::LocalLargerThanRemote { local: 2, remote: 1 }.message(),
        DownloadError::ResumeBoundaryMismatch { offset: 9 }.message(),
        DownloadError::SizeMismatch { remote: 1, local: 2 }.message(),
        DownloadError::HashMismatch.message(),
        DownloadError::ChunkVerifyMismatch { offset: 3, len: 4 }.message(),
        DownloadError::LocalIo("io".into()).message(),
        DownloadError::Connect(ConnectError::Auth("t".into())).message(),
        DownloadError::Sftp("s".into()).message(),
    ];
    assert_eq!(
        texts,
        vec![
            "用户取消了下载",
            "远端路径无效: m",
            "本地路径无效: m",
            "远端不是文件: m",
            "本地文件大于远端文件，无法续传",
            "续传边界校验失败（offset=9），请清除断点后重新下载",
            "下载完成后大小不一致（远端=1，本地=2）",
            "下载完成后校验不一致（SHA-256 不匹配）",
            "块校验失败（offset=3，len=4），将重下该块",
            "本地文件写入失败: io",
            "连接失败: 认证失败: t",
            "SFTP 错误: s",
        ]
    );
}

#[test]
fn files_are_opened_as_the_chunk_needs() {
    assert_eq!(write_mode(0, true, true), WriteMode::CreateTruncated);
    assert_eq!(write_mode(0, true, false), WriteMode::Create);
    assert_eq!(write_mode(0, false, true), WriteMode::Create);
    assert_eq!(write_mode(5, true, true), WriteMode::Update);
    assert!(creates_local_file(0, false));
    assert!(!creates_local_file(0, true));
    assert!(!creates_local_file(1, false));
    assert_eq!(RemoteRead::Chunk.unexpected_end(), "读取远端数据时意外结束");
    assert_eq!(RemoteRead::ChunkDigest.unexpected_end(), "读取远端块用于校验时意外结束");
    assert_eq!(RemoteRead::FileDigest.unexpected_end(), "读取远端文件用于校验时意外结束");
}

fn raw(path: &str, is_dir: bool) -> RawEntry {
    RawEntry { path: path.into(), is_dir, size: Some(1) }
}

#[test]
fn listings_show_directories_first_without_regard_to_case() {
    let entries = vec![
        raw("/d/b.txt", false), raw("/d/Zoo", true), raw("/d/A.txt", false), raw("/d/apps", true),
        raw("/d/Äb", false), raw("/d/äa", false),
    ];
    let listing = read_directory_listing("/d", &entries);
    let names: Vec<&str> = listing.entries.iter().map(|e| e.name.as_str()).collect();
    assert_eq!(names, vec!["apps", "Zoo", "A.txt", "b.txt", "äa", "Äb"]);
    assert_eq!(listing.entries[0].path, "/d/apps");
    assert_eq!(listing.parent.as_deref(), Some("/"));
    assert_eq!(entry_name("/d/x"), "x");
    assert_eq!(entry_name("/"), "");
}

fn path_of(action: &BrowseAction) -> String {
    match action {
        BrowseAction::Stat { path } => format!("stat {}", path),
        BrowseAction::RealPath { path } => format!("realpath {}", path),
        BrowseAction::MakeDir { path, mode } => {
            assert_eq!(*mode, 0o755);
            format!("mkdir {}", path)
        }
        BrowseAction::ReadDir { path } => format!("readdir {}", path),
        BrowseAction::Finish => "finish".into(),
    }
}

fn tell(browse: &mut Browse, event: BrowseEvent) -> String {
    assert!(browse.accepts(&event));
    path_of(&browse.step(event))
}

#[test]
fn browsing_starts_at_home_and_lists() {
    let (mut b, action) = list_remote_directory(None);
    assert_eq!(path_of(&action), "realpath .");
    assert!(b.outcome().is_none());
    assert!(!b.accepts(&BrowseEvent::Done));
    assert_eq!(tell(&mut b, BrowseEvent::Path("/home/u".into())), "stat /home/u");
    assert_eq!(tell(&mut b, BrowseEvent::Stat(stat(true, false))), "readdir /home/u");
    assert_eq!(tell(&mut b, BrowseEvent::Entries(vec![raw("/home/u/x", false)])), "finish");
    let listing = b.outcome().unwrap().unwrap();
    assert_eq!(listing.path, "/home/u");
    assert_eq!(listing.entries.len(), 1);
}

#[test]
fn browsing_a_file_shows_its_directory() {
    let (mut b, action) = list_remote_directory(Some(" /home/u/x.txt "));
    assert_eq!(path_of(&action), "stat /home/u/x.txt");
    assert_eq!(tell(&mut b, BrowseEvent::Stat(stat(false, true))), "stat /home/u");
    assert_eq!(tell(&mut b, BrowseEvent::Stat(stat(false, true))), "finish");
    assert_eq!(b.outcome().unwrap().unwrap_err(), "「/home/u」不是目录");
    let (mut b, _) = list_remote_directory(Some("x.txt"));
    assert_eq!(tell(&mut b, BrowseEvent::Stat(stat(false, true))), "realpath .");
}

#[test]
fn browsing_reports_what_fails() {
    let (mut b, _) = list_remote_directory(Some("/d"));
    assert_eq!(tell(&mut b, BrowseEvent::Failed("no".into())), "realpath /d");
    assert_eq!(tell(&mut b, BrowseEvent::Failed("gone".into())), "finish");
    assert_eq!(b.outcome().unwrap().unwrap_err(), "无法访问远端路径「/d」: gone");
    let (mut b, _) = list_remote_directory(None);
    tell(&mut b, BrowseEvent::Path("/h".into()));
    tell(&mut b, BrowseEvent::Failed("e".into()));
    assert_eq!(b.outcome().unwrap().unwrap_err(), "无法读取远端目录「/h」: e");
    let (mut b, _) = list_remote_directory(None);
    tell(&mut b, BrowseEvent::Path("/h".into()));
    tell(&mut b, BrowseEvent::Stat(stat(true, false)));
    tell(&mut b, BrowseEvent::Failed("e".into()));
    assert_eq!(b.outcome().unwrap().unwrap_err(), "无法列出目录「/h」: e");
}

#[test]
fn directories_are_created_where_nothing_stands() {
    assert_eq!(create_remote_directory("/d", "a/b").unwrap_err(), "目录名不能包含 / 或 \\");
    let (mut b, action) = create_remote_directory("/d", " new ").unwrap();
    assert_eq!(path_of(&action), "stat /d");
    assert_eq!(tell(&mut b, BrowseEvent::Stat(stat(true, false))), "realpath /d");
    assert_eq!(tell(&mut b, BrowseEvent::Path("/d".into())), "stat /d/new");
    assert_eq!(tell(&mut b, BrowseEvent::Failed("none".into())), "mkdir /d/new");
    assert_eq!(tell(&mut b, BrowseEvent::Done), "stat /d");
    let (mut b, _) = create_remote_directory("/d", "new").unwrap();
    tell(&mut b, BrowseEvent::Failed("x".into()));
    tell(&mut b, BrowseEvent::Path("/d".into()));
    tell(&mut b, BrowseEvent::Stat(stat(true, false)));
    assert_eq!(b.outcome().unwrap().unwrap_err(), "「new」已存在");
    let (mut b, _) = create_remote_directory("/d", "new").unwrap();
    tell(&mut b, BrowseEvent::Failed("x".into()));
    tell(&mut b, BrowseEvent::Path("/d".into()));
    tell(&mut b, BrowseEvent::Failed("none".into()));
    tell(&mut b, BrowseEvent::Failed("full".into()));
    assert_eq!(b.outcome().unwrap().unwrap_err(), "创建目录失败: full");
}
