use resilissh::checkpoint::{AuthKind, CheckpointStatus, UploadCheckpoint};
use resilissh::chunk::CHUNK_SIZE;
use resilissh::download_checkpoint::DownloadCheckpoint;
use resilissh::hashing::digest_of;
use resilissh::sftp::client::ConnectError;
use resilissh::sftp::download::DownloadError;
use resilissh::sftp::fault::Direction;
use resilissh::sftp::upload::UploadError;
use resilissh::transfer::machine::{
    download_with_resume, resolve_resume_offset, upload_with_resume, Action, Event, Notice,
    ResumePlan, Transfer,
};
use resilissh::transfer::model::FileStat;
use resilissh::transfer::record::TransferRecord;

/// A server and a machine with one file each, and a log of what was done.
struct World {
    upload: bool,
    source: Vec<u8>,
    target: Option<Vec<u8>>,
    remote_is_dir: bool,
    /// The numbers of the chunk copies that fail.
    broken_copies: Vec<u32>,
    /// The numbers of the chunk copies that write a wrong byte.
    dirty_copies: Vec<u32>,
    copies: u32,
    refused_connections: u32,
    /// The remote file cannot be read as a whole.
    unreadable: bool,
    /// The user cancels at this step.
    cancel_at: u32,
    steps: u32,
    slept: Vec<u64>,
    delays: Vec<u64>,
    copied: Vec<(u64, u64)>,
    saved: Vec<(u64, u64)>,
    removed: u32,
    truncated: Vec<u64>,
    statuses: Vec<String>,
    /// How many whole files were hashed.
    whole_hashes: u32,
}

fn world(upload: bool, source: Vec<u8>) -> World {
    World {
        upload,
        source,
        target: None,
        remote_is_dir: false,
        broken_copies: Vec::new(),
        dirty_copies: Vec::new(),
        copies: 0,
        refused_connections: 0,
        unreadable: false,
        cancel_at: u32::MAX,
        steps: 0,
        slept: Vec::new(),
        delays: Vec::new(),
        copied: Vec::new(),
        saved: Vec::new(),
        removed: 0,
        truncated: Vec::new(),
        statuses: Vec::new(),
        whole_hashes: 0,
    }
}

fn file(size: u64) -> FileStat {
    FileStat { is_dir: false, is_file: true, size: Some(size), mtime: Some(5) }
}

fn slice(data: &[u8], offset: u64, len: u64) -> Vec<u8> {
    data[offset as usize..(offset + len) as usize].to_vec()
}

impl World {
    fn target_size(&self) -> u64 {
        self.target.as_ref().map(|t| t.len() as u64).unwrap_or(0)
    }

    fn target_bytes(&self) -> Vec<u8> {
        self.target.clone().unwrap_or_default()
    }

    fn cut(&mut self, size: u64) -> Event {
        self.truncated.push(size);
        match self.target.as_mut() {
            Some(t) => {
                t.resize(size as usize, 0);
                Event::Done
            }
            None => Event::Failed("nothing to cut".into()),
        }
    }

    fn remove(&mut self) -> Event {
        self.removed += 1;
        self.target = None;
        Event::Done
    }

    fn copy(&mut self, offset: u64, len: u64, first: bool) -> Event {
        self.copies += 1;
        if self.broken_copies.contains(&self.copies) {
            return Event::RemoteFailed("Timed out waiting on socket".into());
        }
        let mut bytes = slice(&self.source, offset, len);
        if self.dirty_copies.contains(&self.copies) {
            bytes[0] ^= 1;
        }
        self.copied.push((offset, len));
        assert_eq!(first, offset == 0);
        let target = self.target.get_or_insert_with(Vec::new);
        target.resize(offset as usize, 0);
        target.extend(bytes);
        Event::Done
    }

    fn perform(&mut self, action: &Action, t: &Transfer) -> Event {
        match action {
            Action::Connect => {
                if self.refused_connections > 0 {
                    self.refused_connections -= 1;
                    Event::ConnectFailed(ConnectError::Tcp("refused".into()))
                } else {
                    Event::Done
                }
            }
            Action::Sleep { ms } => {
                self.slept.push(*ms);
                Event::Done
            }
            Action::OpenSftp => Event::Done,
            Action::StatRemote { path } => {
                if self.upload {
                    if path == "/d" && self.remote_is_dir {
                        return Event::Stat(FileStat { is_dir: true, is_file: false, size: None, mtime: None });
                    }
                    match &self.target {
                        Some(bytes) if path == "/d/a" => Event::Stat(file(bytes.len() as u64)),
                        _ => Event::Failed("no such file".into()),
                    }
                } else {
                    Event::Stat(file(self.source.len() as u64))
                }
            }
            Action::OpenRemoteDir { .. } => Event::Failed("no directory".into()),
            Action::MakeRemoteDir { path, mode } => {
                assert_eq!(path, "/d");
                assert_eq!(*mode, 0o755);
                Event::Done
            }
            Action::MakeLocalDir { path } => {
                assert_eq!(path, "/tmp");
                Event::Done
            }
            Action::SizeLocal { path } => {
                assert_eq!(path, "/tmp/a");
                Event::Size(self.target_size())
            }
            Action::SaveCheckpoint => {
                self.saved.push((t.record().moved_bytes, t.record().verified_bytes));
                Event::Done
            }
            Action::TruncateRemote { path, size } => {
                assert_eq!(path, "/d/a");
                self.cut(*size)
            }
            Action::TruncateLocal { path, size } => {
                assert_eq!(path, "/tmp/a");
                self.cut(*size)
            }
            Action::RemoveRemote { path } => {
                assert_eq!(path, "/d/a");
                self.remove()
            }
            Action::RemoveLocal { path } => {
                assert_eq!(path, "/tmp/a");
                self.remove()
            }
            Action::ReadBoundary { local, remote, start, len } => {
                assert_eq!((local.as_str(), remote.as_str()), ("/tmp/a", "/d/a"));
                let source = slice(&self.source, *start, *len);
                let target = self.target_bytes();
                if target.len() < (*start + *len) as usize {
                    return Event::RemoteFailed("failed to fill whole buffer".into());
                }
                Event::Boundary { local: source, remote: slice(&target, *start, *len) }
            }
            Action::OpenLocal { path, .. } => {
                assert_eq!(path, "/tmp/a");
                Event::Done
            }
            Action::CopyChunk { local, remote, offset, len, first, mode } => {
                assert_eq!((local.as_str(), remote.as_str()), ("/tmp/a", "/d/a"));
                assert_eq!(*mode, 0o644);
                self.copy(*offset, *len, *first)
            }
            Action::HashChunk { local, remote, offset, len } => {
                assert_eq!((local.as_str(), remote.as_str()), ("/tmp/a", "/d/a"));
                Event::Digests {
                    local: digest_of(&slice(&self.source, *offset, *len)),
                    remote: digest_of(&slice(&self.target_bytes(), *offset, *len)),
                }
            }
            Action::HashLocal { path } => {
                assert_eq!(path, "/tmp/a");
                self.whole_hashes += 1;
                Event::Digest(if self.upload {
                    digest_of(&self.source)
                } else {
                    digest_of(&self.target_bytes())
                })
            }
            Action::HashRemote { path, len } => {
                assert_eq!(path, "/d/a");
                self.whole_hashes += 1;
                assert_eq!(*len as usize, self.source.len());
                if self.unreadable {
                    Event::RemoteFailed("lost".into())
                } else if self.upload {
                    Event::Digest(digest_of(&self.target_bytes()))
                } else {
                    Event::Digest(digest_of(&self.source))
                }
            }
            Action::Finish => panic!("nothing is left to do"),
        }
    }

    fn run(&mut self, t: &mut Transfer) {
        let mut event = Event::Begin;
        loop {
            assert!(t.accepts(&event));
            self.steps += 1;
            let cancelled = self.steps >= self.cancel_at;
            let step = t.step(event, cancelled);
            if cancelled {
                assert!(!matches!(
                    step.action,
                    Action::CopyChunk { .. } | Action::Connect | Action::Sleep { .. }
                ));
            }
            match step.notice {
                Some(Notice::Progress { status, done, total, .. }) => {
                    assert!(done <= total);
                    if self.statuses.last() != Some(&status) {
                        self.statuses.push(status);
                    }
                }
                Some(Notice::Retry { delay_ms, .. }) => self.delays.push(delay_ms),
                None => {}
            }
            if matches!(step.action, Action::Finish) {
                return;
            }
            event = self.perform(&step.action, t);
        }
    }
}

fn bytes(len: u64) -> Vec<u8> {
    (0..len).map(|n| (n * 7 + n / 251) as u8).collect()
}

fn upload(w: &World, force: bool, strict: bool, moved: u64, verified: u64) -> Transfer {
    let mut cp = UploadCheckpoint::default();
    cp.uploaded_bytes = moved;
    cp.verified_bytes = verified;
    upload_with_resume("/tmp/a", "/d/", Ok(w.source.len() as u64), force, strict, cp).unwrap()
}

fn download(w: &World, force: bool, strict: bool, moved: u64, verified: u64) -> Transfer {
    let cp = DownloadCheckpoint {
        local_path: "/tmp/a".into(),
        remote_path: "/d/a".into(),
        host: "h".into(),
        port: 22,
        username: "u".into(),
        auth_kind: AuthKind::Password,
        key_path: None,
        file_size: w.source.len() as u64,
        remote_mtime: None,
        downloaded_bytes: moved,
        verified_bytes: verified,
        retry_count: 0,
        failure_reason: None,
        status: CheckpointStatus::InProgress,
    };
    download_with_resume("/d/a", "/tmp/", force, strict, cp)
}

const SIZE: u64 = 2 * CHUNK_SIZE + 17;

#[test]
fn a_strict_upload_compares_every_chunk() {
    let mut w = world(true, bytes(SIZE));
    let mut t = upload(&w, true, true, 0, 0);
    w.run(&mut t);
    assert!(matches!(t.upload_outcome(), Some(Ok(()))));
    assert_eq!(w.target, Some(w.source.clone()));
    assert_eq!(w.copied, vec![(0, CHUNK_SIZE), (CHUNK_SIZE, CHUNK_SIZE), (2 * CHUNK_SIZE, 17)]);
    assert_eq!(w.saved, vec![(CHUNK_SIZE, CHUNK_SIZE), (2 * CHUNK_SIZE, 2 * CHUNK_SIZE), (SIZE, SIZE)]);
    assert_eq!(w.statuses, vec!["uploading", "verifying", "completed"]);
    assert_eq!(w.whole_hashes, 2);
    assert!(matches!(t.record().status, CheckpointStatus::Completed));
    assert_eq!(t.record().remote_path, "/d/a");
}

#[test]
fn a_fast_upload_is_compared_as_a_whole() {
    let mut w = world(true, bytes(SIZE));
    let mut t = upload(&w, true, false, 0, 0);
    w.run(&mut t);
    assert!(matches!(t.upload_outcome(), Some(Ok(()))));
    assert_eq!(w.saved, vec![(CHUNK_SIZE, 0), (2 * CHUNK_SIZE, 0), (SIZE, 0)]);
    assert_eq!(w.statuses, vec!["uploading", "verifying", "completed"]);
}

#[test]
fn a_broken_upload_goes_on_where_it_was() {
    let mut w = world(true, bytes(SIZE));
    w.broken_copies = vec![2];
    let mut t = upload(&w, true, true, 0, 0);
    w.run(&mut t);
    assert!(matches!(t.upload_outcome(), Some(Ok(()))));
    assert_eq!(w.target, Some(w.source.clone()));
    assert_eq!(w.copied, vec![(0, CHUNK_SIZE), (CHUNK_SIZE, CHUNK_SIZE), (2 * CHUNK_SIZE, 17)]);
    assert_eq!(w.delays, vec![1_000]);
    assert_eq!(w.slept, vec![200; 5]);
    assert_eq!(t.current_retry_count(), 1);
}

#[test]
fn a_fast_transfer_goes_on_behind_its_own_chunks() {
    let rest = vec![(CHUNK_SIZE, CHUNK_SIZE), (2 * CHUNK_SIZE, CHUNK_SIZE), (3 * CHUNK_SIZE, 17)];
    for up in [true, false] {
        let source = bytes(3 * CHUNK_SIZE + 17);
        let mut w = world(up, source.clone());
        w.target = Some(source[..CHUNK_SIZE as usize].to_vec());
        w.broken_copies = vec![2, 4];
        let mut t = if up {
            upload(&w, false, false, CHUNK_SIZE, CHUNK_SIZE)
        } else {
            download(&w, false, false, CHUNK_SIZE, CHUNK_SIZE)
        };
        w.run(&mut t);
        assert_eq!(w.target, Some(source));
        assert_eq!(w.copied, rest);
        assert!(w.truncated.is_empty());
        assert_eq!(w.saved.last(), Some(&(3 * CHUNK_SIZE + 17, 0)));
        assert_eq!(t.record().verified_bytes, 0);
        assert!(matches!(t.record().status, CheckpointStatus::Completed));
    }
}

#[test]
fn a_fast_transfer_of_a_verified_file_only_compares_it() {
    let source = bytes(SIZE);
    let mut w = world(true, source.clone());
    w.target = Some(source);
    let mut t = upload(&w, false, false, SIZE, SIZE);
    w.run(&mut t);
    assert!(matches!(t.upload_outcome(), Some(Ok(()))));
    assert!(w.copied.is_empty());
    assert_eq!(w.whole_hashes, 2);
    assert_eq!(t.record().verified_bytes, SIZE);
}

#[test]
fn a_strict_transfer_moves_no_chunk_twice() {
    let all = vec![(0, CHUNK_SIZE), (CHUNK_SIZE, CHUNK_SIZE), (2 * CHUNK_SIZE, 17)];
    for up in [true, false] {
        let mut w = world(up, bytes(SIZE));
        w.broken_copies = vec![1, 3, 5, 6];
        let mut t = if up { upload(&w, true, true, 0, 0) } else { download(&w, true, true, 0, 0) };
        w.run(&mut t);
        assert_eq!(w.target, Some(w.source.clone()));
        assert_eq!(w.copied, all);
        assert_eq!(t.record().moved_bytes, SIZE);
        assert_eq!(t.record().verified_bytes, SIZE);
        assert_eq!(t.current_retry_count(), 4);
        assert!(w.saved.iter().all(|(moved, verified)| moved == verified));
    }
}

#[test]
fn a_dirty_chunk_is_cut_off_and_copied_again() {
    let mut w = world(true, bytes(SIZE));
    w.dirty_copies = vec![2];
    let mut t = upload(&w, true, true, 0, 0);
    w.run(&mut t);
    assert!(matches!(t.upload_outcome(), Some(Ok(()))));
    assert_eq!(w.target, Some(w.source.clone()));
    assert_eq!(w.truncated, vec![CHUNK_SIZE]);
    assert_eq!(w.copies, 4);
}

#[test]
fn connections_are_tried_again_with_growing_waits() {
    let mut w = world(true, bytes(10));
    w.refused_connections = 6;
    let mut t = upload(&w, true, true, 0, 0);
    w.run(&mut t);
    assert!(matches!(t.upload_outcome(), Some(Ok(()))));
    assert_eq!(w.delays, vec![1_000, 2_000, 4_000, 8_000, 15_000, 15_000]);
    assert_eq!(w.slept.iter().sum::<u64>(), 45_000);
    assert_eq!(t.current_retry_count(), 6);
}

#[test]
fn an_upload_resumes_behind_what_is_verified() {
    let source = bytes(SIZE);
    let mut w = world(true, source.clone());
    w.target = Some(source[..CHUNK_SIZE as usize + 5].to_vec());
    let mut t = upload(&w, false, true, CHUNK_SIZE + 5, CHUNK_SIZE);
    w.run(&mut t);
    assert!(matches!(t.upload_outcome(), Some(Ok(()))));
    assert_eq!(w.truncated, vec![CHUNK_SIZE]);
    assert_eq!(w.copied[0], (CHUNK_SIZE, CHUNK_SIZE));
    assert_eq!(w.target, Some(source));
}

#[test]
fn an_upload_resumes_at_a_chunk_edge() {
    let source = bytes(SIZE);
    let mut w = world(true, source.clone());
    w.target = Some(source[..CHUNK_SIZE as usize + 5].to_vec());
    let mut t = upload(&w, false, false, CHUNK_SIZE + 5, 0);
    w.run(&mut t);
    assert!(matches!(t.upload_outcome(), Some(Ok(()))));
    assert_eq!(w.copied[0], (CHUNK_SIZE, CHUNK_SIZE));
}

#[test]
fn a_wrong_boundary_ends_an_upload() {
    let source = bytes(SIZE);
    let mut w = world(true, source.clone());
    let mut wrong = source[..CHUNK_SIZE as usize].to_vec();
    wrong[3] ^= 1;
    w.target = Some(wrong);
    let mut t = upload(&w, false, true, CHUNK_SIZE, CHUNK_SIZE);
    w.run(&mut t);
    assert!(matches!(
        t.upload_outcome(),
        Some(Err(UploadError::ResumeBoundaryMismatch { offset })) if offset == CHUNK_SIZE
    ));
    assert!(matches!(t.record().status, CheckpointStatus::Failed));
}

#[test]
fn a_larger_target_ends_an_upload_that_is_not_forced() {
    let mut w = world(true, bytes(10));
    w.target = Some(bytes(11));
    let mut t = upload(&w, false, true, 0, 0);
    w.run(&mut t);
    assert!(matches!(
        t.upload_outcome(),
        Some(Err(UploadError::RemoteLargerThanLocal { remote: 11, local: 10 }))
    ));
    let mut t = upload(&w, true, true, 0, 0);
    w.run(&mut t);
    assert!(matches!(t.upload_outcome(), Some(Ok(()))));
    assert_eq!(w.removed, 1);
}

#[test]
fn different_files_are_removed_and_the_checkpoint_set_back() {
    let mut w = world(true, bytes(SIZE));
    w.dirty_copies = vec![3];
    let mut t = upload(&w, true, false, 0, 0);
    w.run(&mut t);
    assert!(matches!(t.upload_outcome(), Some(Err(UploadError::HashMismatch))));
    assert_eq!(w.target, None);
    assert_eq!(w.saved.last(), Some(&(0, 0)));
    assert_eq!(t.record().failure_reason.as_deref(), Some("hash_mismatch"));
}

#[test]
fn a_result_that_cannot_be_read_is_remembered() {
    let mut w = world(true, bytes(SIZE));
    w.unreadable = true;
    let mut t = upload(&w, true, false, 0, 0);
    w.run(&mut t);
    let text = match t.upload_outcome() {
        Some(Err(e)) => e.message(),
        _ => String::new(),
    };
    assert_eq!(
        text,
        "SFTP 错误: 传完后校验时读取远端失败（弱网常见），数据块已全部校验通过，可点「开始上传」仅重试校验: lost"
    );
    assert_eq!(t.record().failure_reason.as_deref(), Some("verify_read_failed"));
    assert_eq!(t.record().moved_bytes, SIZE);
}

#[test]
fn cancelling_keeps_what_was_done() {
    let mut steps = 0;
    for cancel_at in 1..40 {
        let mut w = world(true, bytes(SIZE));
        w.cancel_at = cancel_at;
        let mut t = upload(&w, true, true, 0, 0);
        w.run(&mut t);
        if let Some(Err(e)) = t.upload_outcome() {
            assert!(matches!(e, UploadError::Cancelled));
            assert_eq!(t.record().moved_bytes, t.record().verified_bytes);
            assert_eq!(w.saved.last().copied().unwrap_or((0, 0)).0, t.record().moved_bytes);
            steps += 1;
        } else {
            assert!(matches!(t.upload_outcome(), Some(Ok(()))));
        }
    }
    assert!(steps > 5);
}

#[test]
fn cancelling_a_wait_ends_it() {
    let mut w = world(true, bytes(10));
    w.refused_connections = 100;
    w.cancel_at = 5;
    let mut t = upload(&w, true, true, 0, 0);
    w.run(&mut t);
    assert!(matches!(t.upload_outcome(), Some(Err(UploadError::Cancelled))));
    assert_eq!(w.slept.len(), 3);
}

#[test]
fn an_upload_into_a_directory_takes_the_local_name() {
    let mut w = world(true, bytes(10));
    w.remote_is_dir = true;
    let cp = UploadCheckpoint::default();
    let mut t = upload_with_resume("/tmp/a", "/d", Ok(10), true, true, cp).unwrap();
    w.run(&mut t);
    assert!(matches!(t.upload_outcome(), Some(Ok(()))));
    assert_eq!(t.remote_path(), "/d/a");
    assert_eq!(w.saved[0], (0, 0));
    assert_eq!(t.record().remote_path, "/d/a");
}

#[test]
fn an_upload_that_cannot_be_set_up() {
    let cp = || UploadCheckpoint::default();
    assert!(matches!(
        upload_with_resume("/tmp/a", " ", Ok(1), true, true, cp()),
        Err(UploadError::InvalidRemotePath(_))
    ));
    assert!(matches!(
        upload_with_resume("/tmp/a", "/x", Err("gone".into()), true, true, cp()),
        Err(UploadError::LocalIo(m)) if m == "gone"
    ));
}

#[test]
fn an_empty_file_is_uploaded_without_chunks() {
    let mut w = world(true, Vec::new());
    w.target = Some(Vec::new());
    let mut t = upload(&w, true, true, 0, 0);
    w.run(&mut t);
    assert!(matches!(t.upload_outcome(), Some(Ok(()))));
    assert!(w.copied.is_empty());
}

#[test]
fn a_download_arrives_chunk_by_chunk() {
    for strict in [true, false] {
        let mut w = world(false, bytes(SIZE));
        w.broken_copies = vec![3];
        let mut t = download(&w, true, strict, 0, 0);
        w.run(&mut t);
        assert!(matches!(t.download_outcome(), Some(Ok(()))));
        assert_eq!(w.target, Some(w.source.clone()));
        assert_eq!(t.local_path(), "/tmp/a");
        assert_eq!(t.direction(), Direction::Download);
        assert_eq!(t.is_strict(), strict);
        assert_eq!(t.record().mtime, Some(5));
        assert_eq!(w.whole_hashes, 2);
    }
}

#[test]
fn a_download_resumes_and_meets_its_errors() {
    let source = bytes(SIZE);
    let mut w = world(false, source.clone());
    w.target = Some(source[..CHUNK_SIZE as usize + 9].to_vec());
    let mut t = download(&w, false, true, CHUNK_SIZE + 9, CHUNK_SIZE);
    w.run(&mut t);
    assert!(matches!(t.download_outcome(), Some(Ok(()))));
    assert_eq!(w.copied[0], (CHUNK_SIZE, CHUNK_SIZE));
    let mut w = world(false, bytes(10));
    w.target = Some(bytes(11));
    let mut t = download(&w, false, true, 0, 0);
    w.run(&mut t);
    assert!(matches!(
        t.download_outcome(),
        Some(Err(DownloadError::LocalLargerThanRemote { local: 11, remote: 10 }))
    ));
    let mut w = world(false, Vec::new());
    let mut t = download(&w, true, true, 0, 0);
    w.run(&mut t);
    assert!(matches!(
        t.download_outcome(),
        Some(Err(DownloadError::InvalidRemotePath(m))) if m == "远端文件为空"
    ));
}

fn step_to(t: &mut Transfer, events: Vec<Event>) -> Action {
    let mut last = Action::Finish;
    for event in events {
        assert!(t.accepts(&event));
        last = t.step(event, false).action;
    }
    last
}

#[test]
fn a_download_wants_an_existing_file() {
    let w = world(false, bytes(10));
    let mut t = download(&w, true, true, 0, 0);
    let action = step_to(&mut t, vec![
        Event::Begin,
        Event::Done,
        Event::Done,
        Event::Failed("[SFTP(2)] no such file".into()),
    ]);
    assert!(matches!(action, Action::Finish));
    assert!(matches!(
        t.download_outcome(),
        Some(Err(DownloadError::InvalidRemotePath(m))) if m == "远端文件不存在: /d/a"
    ));
    assert!(!t.accepts(&Event::Begin));
    let mut t = download(&w, true, true, 0, 0);
    let dir = FileStat { is_dir: true, is_file: false, size: None, mtime: None };
    step_to(&mut t, vec![Event::Begin, Event::Done, Event::Done, Event::Stat(dir)]);
    assert!(matches!(
        t.download_outcome(),
        Some(Err(DownloadError::RemoteNotAFile(m))) if m == "请填写远端文件路径，不支持下载整个目录"
    ));
}

#[test]
fn a_file_that_is_not_seen_in_time_is_looked_for_again() {
    let w = world(false, bytes(10));
    let mut t = download(&w, true, true, 0, 0);
    step_to(&mut t, vec![Event::Begin, Event::Done, Event::Done]);
    let step = t.step(Event::Failed("Timed out waiting on socket".into()), false);
    assert!(matches!(step.action, Action::Sleep { ms: 200 }));
    assert!(t.download_outcome().is_none());
    assert!(matches!(
        step.notice,
        Some(Notice::Retry { retry_count: 1, message, .. })
            if message == "传输中断（SFTP 错误: Timed out waiting on socket），1000ms 后重连续传"
    ));
}

#[test]
fn the_name_of_a_directory_does_not_end_an_upload() {
    let cp = UploadCheckpoint::default();
    let mut t = upload_with_resume("/tmp/a", "/author/", Ok(10), true, true, cp).unwrap();
    let none = || Event::Failed("none".into());
    let action = step_to(
        &mut t,
        vec![Event::Begin, Event::Done, Event::Done, none(), none(), none()],
    );
    assert!(matches!(action, Action::MakeRemoteDir { path, mode: 0o755 } if path == "/author"));
    let step = t.step(Event::Failed("Timed out waiting on socket".into()), false);
    assert!(matches!(step.action, Action::Sleep { .. }));
    assert!(t.upload_outcome().is_none());
    let cp = UploadCheckpoint::default();
    let mut t = upload_with_resume("/tmp/a", "/author/", Ok(10), true, true, cp).unwrap();
    let events = vec![Event::Begin, Event::Done, Event::Done, none(), none(), none()];
    step_to(&mut t, events);
    step_to(&mut t, vec![Event::Failed("[SFTP(4)] failure".into())]);
    assert!(matches!(t.upload_outcome(), Some(Err(UploadError::Sftp(_)))));
}

#[test]
fn a_relative_target_gets_relative_directories() {
    let cp = UploadCheckpoint::default();
    let mut t = upload_with_resume("/tmp/a", "a/b/f.bin", Ok(10), true, true, cp).unwrap();
    let none = || Event::Failed("none".into());
    let mut made: Vec<String> = Vec::new();
    let mut step = t.step(Event::Begin, false);
    for _ in 0..12 {
        let event = match &step.action {
            Action::Connect | Action::OpenSftp => Event::Done,
            Action::MakeRemoteDir { path, .. } => {
                made.push(path.clone());
                Event::Done
            }
            Action::StatRemote { .. } | Action::OpenRemoteDir { .. } => none(),
            _ => break,
        };
        step = t.step(event, false);
    }
    assert_eq!(made, vec!["a", "a/b"]);
}

#[test]
fn a_directory_that_cannot_be_made_ends_an_upload() {
    let w = world(true, bytes(10));
    let mut t = upload(&w, true, true, 0, 0);
    let action = step_to(
        &mut t,
        vec![
            Event::Begin,
            Event::Done,
            Event::Done,
            Event::Failed("none".into()),
            Event::Failed("none".into()),
            Event::Failed("none".into()),
        ],
    );
    assert!(matches!(action, Action::MakeRemoteDir { path, .. } if path == "/d"));
    step_to(&mut t, vec![Event::Failed("Permission denied".into())]);
    assert!(matches!(
        t.upload_outcome(),
        Some(Err(UploadError::Sftp(m))) if m == "远端路径错误：/d/a\n没有写入权限，请检查该目录权限"
    ));
}

#[test]
fn resume_points() {
    let mut r = TransferRecord::from_upload(UploadCheckpoint::default());
    let plan = |size: u64, force: bool, r: &TransferRecord| {
        resolve_resume_offset(Direction::Upload, size, force, r)
    };
    assert!(matches!(plan(0, false, &r), ResumePlan::At { offset: 0 }));
    assert!(matches!(plan(5, false, &r), ResumePlan::Discard));
    assert!(matches!(plan(5, true, &r), ResumePlan::Discard));
    assert!(matches!(plan(0, true, &r), ResumePlan::At { offset: 0 }));
    assert!(matches!(
        resolve_resume_offset(Direction::Download, 0, true, &r),
        ResumePlan::Discard
    ));
    r.verified_bytes = 7;
    assert!(matches!(plan(9, false, &r), ResumePlan::CutTo { offset: 7 }));
    assert!(matches!(plan(7, false, &r), ResumePlan::At { offset: 7 }));
}

/// The events that lead an upload to the copy of its first chunk.
fn up_to_first_copy() -> Vec<Event> {
    vec![
        Event::Begin,
        Event::Done,
        Event::Done,
        Event::Failed("none".into()),
        Event::Failed("none".into()),
        Event::Stat(FileStat { is_dir: true, is_file: false, size: None, mtime: None }),
        Event::Failed("none".into()),
        Event::Done,
    ]
}

#[test]
fn an_upload_ends_on_lasting_faults() {
    let w = world(true, bytes(10));
    let mut t = upload(&w, true, false, 0, 0);
    let action = step_to(&mut t, up_to_first_copy());
    assert!(matches!(action, Action::CopyChunk { offset: 0, len: 10, first: true, .. }));
    let action = step_to(&mut t, vec![Event::Done, Event::Done, Event::Stat(file(9))]);
    assert!(matches!(action, Action::Finish));
    assert!(matches!(
        t.upload_outcome(),
        Some(Err(UploadError::SizeMismatch { local: 10, remote: 9 }))
    ));
    let mut t = upload(&w, true, false, 0, 0);
    step_to(&mut t, up_to_first_copy());
    step_to(&mut t, vec![Event::LocalFailed("eof".into())]);
    assert!(matches!(t.upload_outcome(), Some(Err(UploadError::LocalIo(m))) if m == "eof"));
    let mut t = upload(&w, true, false, 0, 0);
    step_to(&mut t, up_to_first_copy());
    step_to(&mut t, vec![Event::RemoteFailed("Permission denied".into())]);
    assert!(matches!(t.upload_outcome(), Some(Err(UploadError::Sftp(_)))));
}

#[test]
fn repeated_attempts_are_announced() {
    let w = world(true, bytes(10));
    let mut t = upload(&w, true, true, 0, 0);
    step_to(&mut t, up_to_first_copy());
    let step = t.step(Event::RemoteFailed("timeout".into()), false);
    assert!(matches!(
        step.notice,
        Some(Notice::Retry { retry_count: 1, delay_ms: 1000, message })
            if message == "传输中断（SFTP 错误: timeout），1000ms 后重连续传"
    ));
    let mut t = upload(&w, true, true, 0, 0);
    step_to(&mut t, up_to_first_copy());
    step_to(&mut t, vec![Event::Done]);
    let digests = Event::Digests { local: [0; 32], remote: [1; 32] };
    assert!(matches!(t.step(digests, false).action, Action::TruncateRemote { size: 0, .. }));
    let step = t.step(Event::Done, false);
    assert!(matches!(
        step.notice,
        Some(Notice::Retry { message, .. })
            if message == "传输中断（块校验失败（offset=0，len=10），将重传该块），1000ms 后重连续传"
    ));
    let mut t = upload(&w, false, true, 7, 0);
    step_to(&mut t, vec![Event::Begin]);
    let refused = Event::ConnectFailed(ConnectError::Tcp("x".into()));
    assert!(matches!(
        t.step(refused, false).notice,
        Some(Notice::Retry { message, .. })
            if message == "连接失败（已传 7 字节），1000ms 后重连续传: TCP 连接失败: x"
    ));
    let mut t = download(&w, false, true, 7, 0);
    step_to(&mut t, vec![Event::Begin]);
    let refused = Event::ConnectFailed(ConnectError::Tcp("x".into()));
    assert!(matches!(
        t.step(refused, false).notice,
        Some(Notice::Retry { message, .. }) if message == "连接失败，1000ms 后重试: TCP 连接失败: x"
    ));
}

/// The events that lead a forced download to the copy of its first chunk.
fn down_to_first_copy(size: u64) -> Vec<Event> {
    vec![
        Event::Begin,
        Event::Done,
        Event::Done,
        Event::Stat(file(size)),
        Event::Stat(file(size)),
        Event::Done,
        Event::Done,
        Event::Size(0),
        Event::Done,
    ]
}

#[test]
fn a_download_ends_on_lasting_faults() {
    let w = world(false, bytes(10));
    let fresh = || download(&w, true, false, 0, 0);
    let mut t = fresh();
    let action = step_to(&mut t, down_to_first_copy(10));
    assert!(matches!(action, Action::CopyChunk { offset: 0, len: 10, first: true, .. }));
    step_to(&mut t, vec![Event::Done, Event::Done, Event::Size(11)]);
    assert!(matches!(
        t.download_outcome(),
        Some(Err(DownloadError::SizeMismatch { remote: 10, local: 11 }))
    ));
    let mut t = fresh();
    step_to(&mut t, down_to_first_copy(10));
    step_to(&mut t, vec![Event::LocalFailed("disk full".into())]);
    assert!(matches!(t.download_outcome(), Some(Err(DownloadError::LocalIo(m))) if m == "disk full"));
    let mut t = fresh();
    step_to(&mut t, down_to_first_copy(10));
    step_to(
        &mut t,
        vec![
            Event::Done,
            Event::Done,
            Event::Size(10),
            Event::Digest([1; 32]),
            Event::Done,
            Event::Digest([2; 32]),
            Event::Failed("gone".into()),
            Event::Done,
        ],
    );
    assert!(matches!(t.download_outcome(), Some(Err(DownloadError::HashMismatch))));
    let mut t = fresh();
    step_to(&mut t, down_to_first_copy(10));
    step_to(&mut t, vec![Event::Done, Event::Done, Event::Size(10), Event::Interrupted]);
    assert!(matches!(t.download_outcome(), Some(Err(DownloadError::Cancelled))));
    let mut t = fresh();
    step_to(&mut t, down_to_first_copy(10));
    step_to(
        &mut t,
        vec![
            Event::Done,
            Event::Done,
            Event::Size(10),
            Event::Digest([1; 32]),
            Event::Done,
            Event::RemoteFailed("lost".into()),
            Event::Done,
        ],
    );
    assert!(matches!(
        t.download_outcome(),
        Some(Err(DownloadError::Sftp(m)))
            if m == "传完后校验时读取远端失败，可点「开始下载」重试校验: lost"
    ));
}

#[test]
fn a_download_checks_its_boundary_and_its_place() {
    let w = world(false, bytes(SIZE));
    let mut t = download(&w, false, true, CHUNK_SIZE, CHUNK_SIZE);
    let action = step_to(
        &mut t,
        vec![
            Event::Begin,
            Event::Done,
            Event::Done,
            Event::Stat(file(SIZE)),
            Event::Stat(file(SIZE)),
            Event::Done,
            Event::Done,
            Event::Size(CHUNK_SIZE),
        ],
    );
    assert!(matches!(action, Action::ReadBoundary { start: 0, len: CHUNK_SIZE, .. }));
    step_to(&mut t, vec![Event::Boundary { local: vec![1], remote: vec![2] }]);
    assert!(matches!(
        t.download_outcome(),
        Some(Err(DownloadError::ResumeBoundaryMismatch { offset: CHUNK_SIZE }))
    ));
    let cp = TransferRecord::from_upload(UploadCheckpoint::default()).into_download();
    let mut t = download_with_resume("/d/a", " ", true, true, cp);
    step_to(
        &mut t,
        vec![
            Event::Begin,
            Event::Done,
            Event::Done,
            Event::Stat(file(5)),
            Event::Stat(file(5)),
        ],
    );
    assert!(matches!(t.download_outcome(), Some(Err(DownloadError::InvalidLocalPath(_)))));
}
