use resilissh::history::{
    append_history, default_direction, list_history, record_download_result, record_upload_result,
    FinishedTransfer, HistoryStore, UploadHistoryEntry,
};
use resilissh::stall::{
    sync_transfer_heartbeat, Finding, ProgressHeartbeat, StallWatchdog, UPLOAD_STALL_TIMEOUT_SECS,
};

fn entry(id: &str, finished_at: i64) -> UploadHistoryEntry {
    UploadHistoryEntry {
        id: id.into(),
        local_path: "/l".into(),
        remote_path: "/r".into(),
        host: "h".into(),
        port: 22,
        username: "u".into(),
        file_size: 1,
        status: "completed".into(),
        retry_count: 0,
        finished_at,
        message: None,
        direction: default_direction(),
    }
}

#[test]
fn history_is_listed_latest_first() {
    let store = HistoryStore { entries: vec![entry("a", 1), entry("b", 3), entry("c", 3)] };
    let ids: Vec<String> = list_history(Ok(store)).unwrap().into_iter().map(|e| e.id).collect();
    assert_eq!(ids, vec!["b", "c", "a"]);
    assert!(list_history(Err("file not found".into())).unwrap().is_empty());
    assert_eq!(list_history(Err("bad json".into())).unwrap_err(), "bad json");
}

#[test]
fn history_keeps_thirty_entries() {
    let mut store = HistoryStore::default();
    for n in 0..35 {
        store = append_history(Ok(store), entry(&n.to_string(), n)).unwrap();
    }
    assert_eq!(store.entries.len(), 30);
    assert_eq!(store.entries[0].id, "34");
    assert_eq!(store.entries[29].id, "5");
    assert_eq!(append_history(Err("io".into()), entry("x", 0)).unwrap_err(), "io");
}

#[test]
fn results_are_recorded_with_their_direction() {
    let done = FinishedTransfer {
        local_path: "/l".into(),
        remote_path: "/r".into(),
        host: "h".into(),
        port: 2200,
        username: "u".into(),
        file_size: 77,
        status: "failed".into(),
        retry_count: 3,
        message: Some("m".into()),
    };
    let up = record_upload_result(Err("file not found".into()), &done, 1234, 1).unwrap();
    assert_eq!(up.entries[0].id, "1234");
    assert_eq!(up.entries[0].direction, "upload");
    assert_eq!(up.entries[0].file_size, 77);
    assert_eq!(up.entries[0].message.as_deref(), Some("m"));
    let both = record_download_result(Ok(up), &done, 5678, 2).unwrap();
    assert_eq!(both.entries.len(), 2);
    assert_eq!(both.entries[0].direction, "download");
    assert_eq!(both.entries[0].finished_at, 2);
}

const SECOND: u128 = 1_000_000_000;

#[test]
fn a_silent_transfer_is_found_to_stand_still() {
    let limit = UPLOAD_STALL_TIMEOUT_SECS as u128 * SECOND;
    let mut beat = ProgressHeartbeat::new(5, 100);
    assert_eq!(beat.stalled_for(limit, 100 + limit - 1), None);
    assert_eq!(beat.stalled_for(limit, 100 + limit), Some(5));
    assert_eq!(beat.stalled_for(limit, 0), None);
    beat.touch(9, 200);
    assert_eq!(beat.stalled_for(limit, 200 + limit), Some(9));
    beat.defer_next_check(300);
    assert_eq!(beat.stalled_for(limit, 200 + limit), None);
    beat.set_active(false, 400);
    assert_eq!(beat.stalled_for(limit, 400 + 10 * limit), None);
    beat.set_active(true, 500);
    assert_eq!(beat.stalled_for(limit, 500 + limit), Some(9));
}

#[test]
fn reports_show_in_the_heartbeat() {
    let mut beat = ProgressHeartbeat::new(0, 0);
    sync_transfer_heartbeat(&mut beat, 7, "uploading", 10);
    assert_eq!(beat.stalled_for(5, 15), Some(7));
    sync_transfer_heartbeat(&mut beat, 8, "chunk_verifying", 20);
    assert_eq!(beat.stalled_for(5, 24), None);
    assert_eq!(beat.stalled_for(5, 25), Some(7));
    sync_transfer_heartbeat(&mut beat, 9, "verifying", 30);
    assert_eq!(beat.stalled_for(5, 1_000), None);
    sync_transfer_heartbeat(&mut beat, 9, "retrying", 40);
    assert_eq!(beat.stalled_for(5, 45), Some(9));
}

#[test]
fn the_watchdog_looks_until_it_is_stopped() {
    let mut beat = ProgressHeartbeat::new(3, 0);
    let mut dog = StallWatchdog::new();
    assert_eq!(dog.poll(&mut beat, false, 10, 9), Finding::Quiet);
    assert_eq!(dog.poll(&mut beat, false, 10, 10), Finding::Stalled { bytes: 3 });
    assert_eq!(dog.poll(&mut beat, false, 10, 19), Finding::Quiet);
    assert_eq!(dog.poll(&mut beat, false, 10, 20), Finding::Stalled { bytes: 3 });
    assert_eq!(dog.poll(&mut beat, true, 10, 99), Finding::Quit);
    dog.stop();
    assert_eq!(dog.poll(&mut beat, false, 10, 99), Finding::Quit);
}
