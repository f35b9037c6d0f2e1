use youwee::jobs::{
    normalize_cache_username, prepare_tiktok_live_room_cache_entry, validate_room_id,
    TikTokLiveJob, TikTokLiveJobStatus,
};

fn sample_job() -> TikTokLiveJob {
    TikTokLiveJob {
        id: "job-1".to_string(),
        target_input: "@creator".to_string(),
        target_url: "https://www.tiktok.com/@creator/live".to_string(),
        username: Some("creator".to_string()),
        title: "TikTok LIVE @creator".to_string(),
        thumbnail: None,
        output_dir: "C:/Downloads".to_string(),
        output_path: Some("C:/Downloads/creator.mp4".to_string()),
        final_path: None,
        preferred_quality: Some("auto".to_string()),
        preferred_transport: Some("auto".to_string()),
        duration_seconds: Some(60),
        cookie_mode: Some("browser".to_string()),
        cookie_browser: Some("firefox".to_string()),
        cookie_browser_profile: Some("i879pxds.default-release".to_string()),
        cookie_file_path: None,
        auto_reconnect: true,
        status: TikTokLiveJobStatus::Recording,
        segment_paths: vec!["C:/Downloads/creator.part-001.mkv".to_string()],
        refresh_count: 1,
        reconnect_count: 1,
        format_id: Some("hls-hd".to_string()),
        history_id: None,
        error_message: None,
        started_at: 1,
        updated_at: 2,
        completed_at: None,
    }
}

#[test]
fn job_statuses_cover_resume_and_restart_transitions() {
    assert!(TikTokLiveJobStatus::Recording.is_restart_candidate());
    assert!(TikTokLiveJobStatus::Finalizing.is_restart_candidate());
    assert!(TikTokLiveJobStatus::Recoverable.can_resume());
    assert!(TikTokLiveJobStatus::Interrupted.can_resume());
    assert!(!TikTokLiveJobStatus::Completed.can_resume());
}

#[test]
fn job_status_names_read_back() {
    let all = [
        TikTokLiveJobStatus::Preparing,
        TikTokLiveJobStatus::Recording,
        TikTokLiveJobStatus::Reconnecting,
        TikTokLiveJobStatus::Interrupted,
        TikTokLiveJobStatus::Recoverable,
        TikTokLiveJobStatus::Finalizing,
        TikTokLiveJobStatus::Completed,
        TikTokLiveJobStatus::Partial,
        TikTokLiveJobStatus::Cancelled,
        TikTokLiveJobStatus::Failed,
    ];
    for status in all {
        assert_eq!(TikTokLiveJobStatus::from_name(status.as_str()), Ok(status));
    }
    assert_eq!(TikTokLiveJobStatus::Cancelled.as_str(), "cancelled");
    assert_eq!(
        TikTokLiveJobStatus::from_name("Recording"),
        Err("Unknown TikTok Live job status: Recording".to_string())
    );
}

#[test]
fn touching_a_job_changes_only_its_update_time() {
    let mut job = sample_job();
    job.touch();
    assert!(job.updated_at > 2);
    assert_eq!(job.started_at, 1);
    assert_eq!(job.status, TikTokLiveJobStatus::Recording);
    assert_eq!(job.segment_paths, vec!["C:/Downloads/creator.part-001.mkv".to_string()]);
}

#[test]
fn room_cache_rejects_non_numeric_room_ids() {
    assert!(validate_room_id("not-a-room").is_err());
    assert!(validate_room_id("  ").is_err());
    assert_eq!(validate_room_id(" 123456 ").as_deref(), Ok("123456"));
    assert_eq!(normalize_cache_username(" @CREATOR ").as_deref(), Ok("creator"));
    assert_eq!(
        normalize_cache_username("@@"),
        Err("TikTok Live cache username cannot be empty".to_string())
    );
}

#[test]
fn room_cache_entries_normalize_username_and_keep_session() {
    let entry = prepare_tiktok_live_room_cache_entry("@Creator", "7000000001", Some(" session-1 "), 1234)
        .expect("entry");
    assert_eq!(entry.username, "creator");
    assert_eq!(entry.room_id, "7000000001");
    assert_eq!(entry.session_id.as_deref(), Some("session-1"));
    assert_eq!(entry.observed_at, 1234);
    let blank = prepare_tiktok_live_room_cache_entry("creator", "1", Some("   "), 1).unwrap();
    assert_eq!(blank.session_id, None);
    assert_eq!(
        prepare_tiktok_live_room_cache_entry("creator", "x1", None, 1),
        Err("TikTok Live cache room ID must be numeric".to_string())
    );
}
