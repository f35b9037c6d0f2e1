use youwee::jobs::{TikTokLiveJob, TikTokLiveJobStatus};
use youwee::rows::{job_from_row, job_to_row, watch_entry_from_row, watch_entry_to_row};
use youwee::watchlist::{TikTokLiveRecordMode, TikTokLiveWatchEntry, TikTokLiveWatchStatus};

fn entry() -> TikTokLiveWatchEntry {
    TikTokLiveWatchEntry {
        id: "watch-1".to_string(),
        target_input: "https://www.tiktok.com/@creator/live?x=1".to_string(),
        target_url: "https://www.tiktok.com/@creator/live".to_string(),
        username: Some("creator".to_string()),
        enabled: true,
        auto_record: false,
        output_dir: "/videos".to_string(),
        preferred_quality: Some("hd".to_string()),
        preferred_transport: None,
        duration_seconds: Some(600),
        cookie_mode: None,
        cookie_browser: None,
        cookie_browser_profile: None,
        cookie_file_path: None,
        poll_interval_seconds: 60,
        record_mode: TikTokLiveRecordMode::AlwaysAfterCooldown,
        cooldown_seconds: 3600,
        filename_template: Some("{title}".to_string()),
        schedule_enabled: true,
        schedule_days: Some("1,2".to_string()),
        schedule_start_minute: Some(60),
        schedule_end_minute: Some(120),
        backoff_attempt: 2,
        next_check_at: 99,
        status: TikTokLiveWatchStatus::Backoff,
        active_job_id: None,
        last_error: Some("blocked".to_string()),
        last_checked_at: Some(1),
        last_online_at: None,
        last_recording_at: None,
        last_session_id: Some("room".to_string()),
        last_outcome: None,
        last_completed_at: None,
        last_started_job_id: None,
        last_segment_count: 3,
        last_refresh_count: 1,
        last_reconnect_count: 4,
        last_file_size: Some(u64::MAX),
        last_title: None,
        last_uploader: None,
        thumbnail: None,
        avatar: None,
        last_viewer_count: Some(12),
        created_at: 5,
        updated_at: 6,
    }
}

#[test]
fn watch_entries_read_back_from_their_rows() {
    let e = entry();
    let row = watch_entry_to_row(&e);
    assert_eq!(row.target_input, "https://www.tiktok.com/@creator/live");
    assert_eq!(row.status, "backoff");
    assert_eq!(row.record_mode, "always_after_cooldown");
    assert_eq!((row.enabled, row.auto_record, row.schedule_enabled), (1, 0, 1));
    assert_eq!(row.last_file_size, None);
    let back = watch_entry_from_row(row).unwrap();
    assert_eq!(back.target_input, "https://www.tiktok.com/@creator/live");
    assert_eq!(back.last_file_size, None);
    assert_eq!(back.last_viewer_count, Some(12));
    assert_eq!(back.status, TikTokLiveWatchStatus::Backoff);
    assert_eq!(back.record_mode, TikTokLiveRecordMode::AlwaysAfterCooldown);
    assert_eq!(back.duration_seconds, Some(600));
    assert_eq!(back.schedule_days.as_deref(), Some("1,2"));
    assert!(back.enabled && !back.auto_record);
}

#[test]
fn unknown_names_in_rows_are_column_errors() {
    let mut row = watch_entry_to_row(&entry());
    row.record_mode = "sometimes".to_string();
    let err = watch_entry_from_row(row).err().unwrap();
    assert_eq!((err.column, err.message.as_str()), (25, "Unknown TikTok Live record mode: sometimes"));
    let mut row = watch_entry_to_row(&entry());
    row.status = "asleep".to_string();
    row.record_mode = "sometimes".to_string();
    let err = watch_entry_from_row(row).err().unwrap();
    assert_eq!((err.column, err.message.as_str()), (17, "Unknown TikTok Live watch status: asleep"));
    let mut row = watch_entry_to_row(&entry());
    row.last_file_size = Some(-5);
    row.enabled = 7;
    let back = watch_entry_from_row(row).unwrap();
    assert_eq!(back.last_file_size, Some(0));
    assert!(back.enabled);
}

fn job() -> TikTokLiveJob {
    TikTokLiveJob {
        id: "job-1".to_string(),
        target_input: "@creator".to_string(),
        target_url: "https://www.tiktok.com/@creator/live".to_string(),
        username: Some("creator".to_string()),
        title: "Live".to_string(),
        thumbnail: None,
        output_dir: "/videos".to_string(),
        output_path: Some("/videos/a.mp4".to_string()),
        final_path: None,
        preferred_quality: None,
        preferred_transport: None,
        duration_seconds: None,
        cookie_mode: None,
        cookie_browser: None,
        cookie_browser_profile: None,
        cookie_file_path: None,
        auto_reconnect: true,
        status: TikTokLiveJobStatus::Recoverable,
        segment_paths: vec!["/videos/a.part-001.mkv".to_string()],
        refresh_count: 2,
        reconnect_count: 3,
        format_id: None,
        history_id: Some("tiktok-live:job-1".to_string()),
        error_message: Some("stopped".to_string()),
        started_at: 1,
        updated_at: 2,
        completed_at: None,
    }
}

#[test]
fn jobs_read_back_from_their_rows() {
    let row = job_to_row(&job());
    assert_eq!(row.status, "recoverable");
    assert_eq!(row.auto_reconnect, 1);
    let back = job_from_row(row).unwrap();
    assert_eq!(back.segment_paths, vec!["/videos/a.part-001.mkv".to_string()]);
    assert_eq!(back.status, TikTokLiveJobStatus::Recoverable);
    assert_eq!((back.refresh_count, back.reconnect_count), (2, 3));
    assert_eq!(back.history_id.as_deref(), Some("tiktok-live:job-1"));
    let mut row = job_to_row(&job());
    row.segment_paths = Err("expected value".to_string());
    let err = job_from_row(row).err().unwrap();
    assert_eq!((err.column, err.message.as_str()), (18, "expected value"));
}
