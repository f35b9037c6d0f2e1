use youwee::jobs::{TikTokLiveJob, TikTokLiveJobStatus};
use youwee::recorder::{
    load_tiktok_live_recorder_config_after_restart, reconcile_job_after_restart,
    reconcile_tiktok_live_jobs_after_restart, tiktok_live_recorder_config, tiktok_live_telemetry,
    JobMediaProbe, job_has_recoverable_media, list_tiktok_live_recovery_jobs,
    recoverable_media_paths, recoverable_segment_paths,
};
use youwee::watchlist::{
    TikTokLiveRecordMode, TikTokLiveWatchEntry, TikTokLiveWatchStatus,
    TIKTOK_LIVE_MAX_RECORDINGS_HARD_LIMIT,
};

fn job(id: &str, status: TikTokLiveJobStatus, segments: &[&str]) -> TikTokLiveJob {
    TikTokLiveJob {
        id: id.to_string(),
        target_input: "@creator".to_string(),
        target_url: "https://www.tiktok.com/@creator/live".to_string(),
        username: Some("creator".to_string()),
        title: "TikTok LIVE @creator".to_string(),
        thumbnail: None,
        output_dir: "/videos".to_string(),
        output_path: Some("/videos/creator_20250101_120000.mp4".to_string()),
        final_path: None,
        preferred_quality: None,
        preferred_transport: None,
        duration_seconds: None,
        cookie_mode: None,
        cookie_browser: None,
        cookie_browser_profile: None,
        cookie_file_path: None,
        auto_reconnect: true,
        status,
        segment_paths: segments.iter().map(|s| s.to_string()).collect(),
        refresh_count: 2,
        reconnect_count: 3,
        format_id: None,
        history_id: None,
        error_message: None,
        started_at: 1,
        updated_at: 2,
        completed_at: None,
    }
}

fn entry(enabled: bool, segments: u32, size: Option<u64>) -> TikTokLiveWatchEntry {
    TikTokLiveWatchEntry {
        id: "watch".to_string(),
        target_input: "@creator".to_string(),
        target_url: "https://www.tiktok.com/@creator/live".to_string(),
        username: Some("creator".to_string()),
        enabled,
        auto_record: true,
        output_dir: "/videos".to_string(),
        preferred_quality: None,
        preferred_transport: None,
        duration_seconds: None,
        cookie_mode: None,
        cookie_browser: None,
        cookie_browser_profile: None,
        cookie_file_path: None,
        poll_interval_seconds: 60,
        record_mode: TikTokLiveRecordMode::OncePerLive,
        cooldown_seconds: 3600,
        filename_template: None,
        schedule_enabled: false,
        schedule_days: None,
        schedule_start_minute: None,
        schedule_end_minute: None,
        backoff_attempt: 0,
        next_check_at: 0,
        status: TikTokLiveWatchStatus::Offline,
        active_job_id: None,
        last_error: None,
        last_checked_at: None,
        last_online_at: None,
        last_recording_at: None,
        last_session_id: None,
        last_outcome: None,
        last_completed_at: None,
        last_started_job_id: None,
        last_segment_count: segments,
        last_refresh_count: 1,
        last_reconnect_count: 10,
        last_file_size: size,
        last_title: None,
        last_uploader: None,
        thumbnail: None,
        avatar: None,
        last_viewer_count: None,
        created_at: 0,
        updated_at: 0,
    }
}

#[test]
fn persisted_recorder_limit_is_capped_after_restart() {
    assert_eq!(load_tiktok_live_recorder_config_after_restart(Ok(Some(99)), 1), Ok(TIKTOK_LIVE_MAX_RECORDINGS_HARD_LIMIT));
    assert_eq!(load_tiktok_live_recorder_config_after_restart(Ok(Some(0)), 3), Ok(1));
    assert_eq!(load_tiktok_live_recorder_config_after_restart(Ok(None), 3), Ok(3));
    assert_eq!(
        load_tiktok_live_recorder_config_after_restart(Err("db".to_string()), 3),
        Err("db".to_string())
    );
    let config = tiktok_live_recorder_config(2, 1);
    assert_eq!(config.hard_limit, TIKTOK_LIVE_MAX_RECORDINGS_HARD_LIMIT);
}

#[test]
fn restart_reconciliation_settles_jobs_by_probed_media() {
    let jobs = vec![
        job("with-media", TikTokLiveJobStatus::Recording, &["/videos/a.part-001.mkv", "/videos/a.part-002.mkv"]),
        job("done", TikTokLiveJobStatus::Completed, &[]),
        job("without-media", TikTokLiveJobStatus::Preparing, &["/videos/b.part-001.mkv"]),
    ];
    let probes = vec![
        JobMediaProbe { segments_with_media: vec![false, true], final_has_media: false, output_has_media: false },
        JobMediaProbe { segments_with_media: vec![], final_has_media: false, output_has_media: false },
        JobMediaProbe { segments_with_media: vec![false], final_has_media: false, output_has_media: false },
    ];
    let settled = reconcile_tiktok_live_jobs_after_restart(jobs, &probes);
    assert_eq!(settled.len(), 2);
    assert_eq!(settled[0].id, "with-media");
    assert_eq!(settled[0].status, TikTokLiveJobStatus::Recoverable);
    assert_eq!(settled[0].segment_paths, vec!["/videos/a.part-002.mkv".to_string()]);
    assert!(settled[0].error_message.as_deref().unwrap().contains("can be continued"));
    assert_eq!(settled[1].id, "without-media");
    assert_eq!(settled[1].status, TikTokLiveJobStatus::Interrupted);
    assert!(settled[1].segment_paths.is_empty());
}

#[test]
fn output_file_alone_makes_a_job_recoverable() {
    let mut j = job("only-output", TikTokLiveJobStatus::Finalizing, &[]);
    reconcile_job_after_restart(
        &mut j,
        &JobMediaProbe { segments_with_media: vec![], final_has_media: false, output_has_media: true },
    );
    assert_eq!(j.status, TikTokLiveJobStatus::Recoverable);
}

#[test]
fn telemetry_takes_the_larger_of_jobs_and_watchlist() {
    let jobs = vec![
        job("a", TikTokLiveJobStatus::Recoverable, &["x", "y"]),
        job("b", TikTokLiveJobStatus::Completed, &["z"]),
    ];
    let entries = vec![entry(true, 1, Some(500)), entry(false, 1, None)];
    let snapshot = tiktok_live_telemetry(2, 2, &entries, &jobs, &[100, 50]);
    assert_eq!(snapshot.watched_streamers, 2);
    assert_eq!(snapshot.enabled_watchers, 1);
    assert_eq!(snapshot.recoverable_jobs, 1);
    assert_eq!(snapshot.total_segments, 3);
    assert_eq!(snapshot.total_refreshes, 4);
    assert_eq!(snapshot.total_reconnects, 20);
    assert_eq!(snapshot.total_recorded_bytes, 500);
    assert_eq!(snapshot.resource_warning, Some("multiRoomActive"));
}

fn probe(segments: &[bool], final_has_media: bool, output_has_media: bool) -> JobMediaProbe {
    JobMediaProbe {
        segments_with_media: segments.to_vec(),
        final_has_media,
        output_has_media,
    }
}

#[test]
fn recoverable_media_starts_with_a_non_mp4_final_file_and_lists_each_once() {
    let mut j = job("a", TikTokLiveJobStatus::Recoverable, &["/videos/p1.mkv", "/videos/p2.mkv", "/videos/p3.mkv"]);
    j.final_path = Some("/videos/p1.mkv".to_string());
    let p = probe(&[true, false, true], true, false);
    assert_eq!(
        recoverable_media_paths(&j, &p, false),
        vec!["/videos/p1.mkv".to_string(), "/videos/p3.mkv".to_string()]
    );
    assert_eq!(recoverable_segment_paths(&j, &p), recoverable_media_paths(&j, &p, false));

    j.final_path = Some("/videos/out.mp4".to_string());
    assert_eq!(
        recoverable_segment_paths(&j, &p),
        vec!["/videos/p1.mkv".to_string(), "/videos/p3.mkv".to_string()]
    );
    assert_eq!(
        recoverable_media_paths(&j, &probe(&[false, false, false], true, false), true),
        Vec::<String>::new()
    );
}

#[test]
fn recovery_list_shows_only_resumable_jobs() {
    let jobs = vec![
        job("a", TikTokLiveJobStatus::Recoverable, &["/videos/a1.mkv"]),
        job("b", TikTokLiveJobStatus::Completed, &[]),
        job("c", TikTokLiveJobStatus::Interrupted, &["/videos/c1.mkv", "/videos/c2.mkv"]),
    ];
    let probes = vec![probe(&[true], false, false), probe(&[], false, false), probe(&[false, false], false, false)];
    let listed = list_tiktok_live_recovery_jobs(&jobs, &probes);
    assert_eq!(listed.len(), 2);
    assert_eq!(listed[0].id, "a");
    assert_eq!(listed[0].segment_count, 1);
    assert!(listed[0].has_media);
    assert_eq!(listed[1].id, "c");
    assert_eq!(listed[1].segment_count, 0);
    assert!(!listed[1].has_media);
    assert_eq!(listed[1].refresh_count, 2);
    assert!(job_has_recoverable_media(&jobs[1], &probe(&[], false, true)));
}
