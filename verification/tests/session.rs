use youwee::jobs::{TikTokLiveJob, TikTokLiveJobStatus};
use youwee::live::parse_tiktok_live_target;
use youwee::metadata::{tiktok_live_metadata_is_offline, JsonScalar, TikTokLiveMetadata};
use youwee::session::{
    build_finalize_args, ffmpeg_header_block, finalization_outcome, header_value,
    metadata_retry_delay_ms, owner_live_url, should_retry_metadata_fetch, tiktok_ffmpeg_headers,
    FinalizeOutcome,
    begin_job_completion, build_ffmpeg_record_args, check_recovery_continuable,
    check_recovery_deletable, check_recovery_finalizable, finish_job_completion,
    mark_recording_failed, mark_recovery_failed, plan_recovery, prepare_recording_job,
    record_stream_refresh, recording_success_message, recovery_success_message, RecordingRequest,
    RecordingSession, RefreshResult, SegmentEnd, SessionAction, TIKTOK_BROWSER_USER_AGENT,
};

fn job(status: TikTokLiveJobStatus) -> TikTokLiveJob {
    TikTokLiveJob {
        id: "job-1".to_string(),
        target_input: "@old".to_string(),
        target_url: "https://www.tiktok.com/@old/live".to_string(),
        username: Some("old".to_string()),
        title: "Old title".to_string(),
        thumbnail: Some("thumb".to_string()),
        output_dir: "/old".to_string(),
        output_path: Some("/old/a_20250101_120000.mp4".to_string()),
        final_path: Some("/old/a.mkv".to_string()),
        preferred_quality: None,
        preferred_transport: None,
        duration_seconds: None,
        cookie_mode: None,
        cookie_browser: None,
        cookie_browser_profile: None,
        cookie_file_path: None,
        auto_reconnect: false,
        status,
        segment_paths: vec![],
        refresh_count: 2,
        reconnect_count: 3,
        format_id: Some("hd".to_string()),
        history_id: None,
        error_message: Some("old error".to_string()),
        started_at: 5,
        updated_at: 6,
        completed_at: Some(7),
    }
}

fn request() -> RecordingRequest {
    RecordingRequest {
        job_id: "job-1".to_string(),
        output_dir: "/videos".to_string(),
        duration_seconds: Some(30),
        preferred_quality: Some("hd".to_string()),
        preferred_transport: None,
        cookie_mode: None,
        cookie_browser: None,
        cookie_browser_profile: None,
        cookie_file_path: None,
        auto_reconnect: None,
    }
}

fn s(v: &[&str]) -> Vec<String> {
    v.iter().map(|x| x.to_string()).collect()
}

#[test]
fn ffmpeg_record_args_add_browser_headers() {
    let headers = vec![("referer".to_string(), "https://ref/".to_string())];
    let args = build_ffmpeg_record_args("https://stream/x.flv", &headers, Some("sid=1"), Some(45), false, "/v/a.part-001.mkv");
    assert_eq!(
        args,
        s(&[
            "-hide_banner", "-nostdin", "-y", "-t", "45", "-user_agent", TIKTOK_BROWSER_USER_AGENT,
            "-referer", "https://ref/", "-headers",
            "Origin: https://www.tiktok.com\r\nReferer: https://ref/\r\nCookie: sid=1\r\n",
            "-i", "https://stream/x.flv", "-c", "copy", "-f", "matroska", "-cluster_time_limit",
            "2000", "/v/a.part-001.mkv",
        ])
    );
    let args = build_ffmpeg_record_args("u", &[], Some("  "), Some(0), true, "o.mkv");
    assert_eq!(args[3], "-user_agent");
    assert_eq!(args[7], "-headers");
    assert_eq!(args[8], "Origin: https://www.tiktok.com\r\nReferer: https://www.tiktok.com/\r\n");
    assert_eq!(args[9], "-reconnect");
    assert_eq!(args.len(), 3 + 6 + 14 + 9);
}

fn end(succeeded: bool, time_is_up: bool, has_media: bool) -> SegmentEnd {
    SegmentEnd { succeeded, exit_code: Some(1), time_is_up, has_media }
}

#[test]
fn session_refreshes_at_most_three_times() {
    let mut session = RecordingSession::new(true, false);
    for attempt in 1..=3 {
        assert!(matches!(session.after_segment(end(false, false, true)), SessionAction::RefreshStream));
        assert_eq!(session.refresh_attempts, attempt);
        assert!(matches!(session.after_refresh(RefreshResult::Refreshed, true), SessionAction::RecordSegment));
    }
    assert!(matches!(session.after_segment(end(false, false, true)), SessionAction::Finish));
    assert!(session.partial);
    assert_eq!(session.refresh_attempts, 3);
}

#[test]
fn session_fails_without_media() {
    let mut session = RecordingSession::new(false, false);
    match session.after_segment(end(false, false, false)) {
        SessionAction::Fail(m) => assert_eq!(m, "FFmpeg exited with code: Some(1)"),
        _ => panic!("expected a failure"),
    }
    let mut session = RecordingSession::new(false, false);
    match session.after_segment(SegmentEnd { succeeded: false, exit_code: None, time_is_up: false, has_media: false }) {
        SessionAction::Fail(m) => assert_eq!(m, "FFmpeg exited with code: None"),
        _ => panic!("expected a failure"),
    }
    match session.after_segment(end(true, false, false)) {
        SessionAction::Fail(m) => assert_eq!(m, "FFmpeg completed without recording TikTok Live media."),
        _ => panic!("expected a failure"),
    }
    match session.after_segment(end(false, true, false)) {
        SessionAction::Fail(m) => assert_eq!(m, "TikTok Live recording ended without media."),
        _ => panic!("expected a failure"),
    }
    let mut exhausted = RecordingSession { auto_reconnect: true, refresh_attempts: 3, partial: false };
    match exhausted.after_segment(end(false, false, false)) {
        SessionAction::Fail(m) => assert_eq!(m, "TikTok Live stream URL refresh attempts were exhausted without media."),
        _ => panic!("expected a failure"),
    }
    match exhausted.after_refresh(RefreshResult::NoStreamFound { offline: true }, false) {
        SessionAction::Fail(m) => assert_eq!(m, "No TikTok Live stream variants found after URL refresh."),
        _ => panic!("expected a failure"),
    }
    match exhausted.after_refresh(RefreshResult::FetchFailed { offline: false, error: "boom".to_string() }, false) {
        SessionAction::Fail(m) => assert_eq!(m, "boom"),
        _ => panic!("expected a failure"),
    }
}

#[test]
fn session_refresh_ends_partial_unless_offline() {
    let mut session = RecordingSession::new(true, true);
    assert!(session.partial);
    assert!(matches!(session.after_refresh(RefreshResult::FetchFailed { offline: true, error: String::new() }, true), SessionAction::Finish));
    assert!(!session.partial);
    assert!(matches!(session.after_refresh(RefreshResult::NoStreamFound { offline: false }, true), SessionAction::Finish));
    assert!(session.partial);
    let mut done = RecordingSession::new(true, false);
    assert!(matches!(done.after_segment(end(true, false, true)), SessionAction::Finish));
    assert!(!done.partial);
}

#[test]
fn recording_jobs_are_prepared_from_requests() {
    let target = parse_tiktok_live_target("@creator").unwrap();
    let fresh = prepare_recording_job(None, &request(), &target, "https://www.tiktok.com/@creator/live", s(&["/videos/x.mkv"]), 100).unwrap();
    assert_eq!(fresh.id, "job-1");
    assert_eq!(fresh.title, "TikTok LIVE @creator");
    assert_eq!(fresh.history_id, Some("tiktok-live:job-1".to_string()));
    assert_eq!(fresh.status, TikTokLiveJobStatus::Preparing);
    assert_eq!(fresh.output_dir, "/videos");
    assert!(fresh.auto_reconnect);
    assert_eq!(fresh.segment_paths, s(&["/videos/x.mkv"]));
    assert_eq!((fresh.started_at, fresh.updated_at), (100, 100));

    let resumed = prepare_recording_job(Some(job(TikTokLiveJobStatus::Recoverable)), &request(), &target, "https://www.tiktok.com/@creator/live", vec![], 100).unwrap();
    assert_eq!(resumed.title, "Old title");
    assert_eq!(resumed.target_input, "@creator");
    assert_eq!(resumed.final_path, None);
    assert_eq!(resumed.error_message, None);
    assert_eq!(resumed.completed_at, None);
    assert_eq!(resumed.refresh_count, 2);
    assert_eq!(resumed.duration_seconds, Some(30));

    let refused = prepare_recording_job(Some(job(TikTokLiveJobStatus::Completed)), &request(), &target, "u", vec![], 1);
    assert_eq!(refused.err(), Some("This TikTok Live recording job cannot be resumed.".to_string()));
}

#[test]
fn job_state_after_refresh_failure_and_completion() {
    let mut j = job(TikTokLiveJobStatus::Recording);
    record_stream_refresh(&mut j);
    assert_eq!((j.refresh_count, j.reconnect_count, j.status), (3, 4, TikTokLiveJobStatus::Reconnecting));

    let mut cancelled = job(TikTokLiveJobStatus::Recording);
    mark_recording_failed(&mut cancelled, true, vec![], true, 50);
    assert_eq!(cancelled.status, TikTokLiveJobStatus::Cancelled);
    assert_eq!(cancelled.completed_at, Some(50));
    assert_eq!(cancelled.error_message, None);

    let mut recoverable = job(TikTokLiveJobStatus::Recording);
    mark_recording_failed(&mut recoverable, false, s(&["/old/a.part-001.mkv"]), false, 50);
    assert_eq!(recoverable.status, TikTokLiveJobStatus::Recoverable);
    assert_eq!(recoverable.completed_at, None);
    assert_eq!(recoverable.error_message.as_deref(), Some("TikTok Live recording stopped unexpectedly. Review Logs for details."));

    let mut failed = job(TikTokLiveJobStatus::Recording);
    mark_recording_failed(&mut failed, false, vec![], false, 50);
    assert_eq!(failed.status, TikTokLiveJobStatus::Failed);

    let mut j = job(TikTokLiveJobStatus::Finalizing);
    assert_eq!(begin_job_completion(&mut j, "/old/a.mp4", Some(0)).err(), Some("TikTok Live final media file is missing or empty.".to_string()));
    assert_eq!(j.final_path.as_deref(), Some("/old/a.mkv"));
    let history = begin_job_completion(&mut j, "/old/a.mp4", Some(10)).unwrap();
    assert_eq!(history, "tiktok-live:job-1");
    assert_eq!(j.final_path.as_deref(), Some("/old/a.mp4"));
    let result = finish_job_completion(&mut j, &history, "/old/a.mp4", Some(10), true, 77);
    assert_eq!(j.status, TikTokLiveJobStatus::Partial);
    assert_eq!(j.completed_at, Some(77));
    assert_eq!(result.history_id, "tiktok-live:job-1");
    assert_eq!(result.title, "Old title");
    assert!(result.partial);

    let mut j = job(TikTokLiveJobStatus::Finalizing);
    mark_recovery_failed(&mut j);
    assert_eq!(j.status, TikTokLiveJobStatus::Recoverable);
}

#[test]
fn recovery_checks_and_messages() {
    let recoverable = job(TikTokLiveJobStatus::Recoverable);
    let done = job(TikTokLiveJobStatus::Completed);
    assert_eq!(check_recovery_finalizable(true, Some(&recoverable)).err().unwrap(), "Stop the active TikTok Live recording before finalizing it.");
    assert_eq!(check_recovery_finalizable(false, None).err().unwrap(), "TikTok Live job not found.");
    assert_eq!(check_recovery_finalizable(false, Some(&done)).err().unwrap(), "This TikTok Live recording no longer needs recovery.");
    assert!(check_recovery_finalizable(false, Some(&recoverable)).is_ok());
    assert!(check_recovery_continuable(Some(&recoverable)).is_ok());
    assert_eq!(check_recovery_deletable(false, Some(&done), false).err().unwrap(), "Completed TikTok Live recordings must be managed from Library.");
    assert_eq!(check_recovery_deletable(false, Some(&recoverable), false), Ok(true));
    let mut no_output = job(TikTokLiveJobStatus::Failed);
    no_output.output_path = None;
    assert_eq!(check_recovery_deletable(false, Some(&no_output), true).err().unwrap(), "Refusing to delete recovery media without its generated output identity.");
    assert_eq!(check_recovery_deletable(false, Some(&no_output), false), Ok(false));

    let mut j = job(TikTokLiveJobStatus::Recoverable);
    assert_eq!(plan_recovery(&mut j, None, 0).err().unwrap(), "No recoverable TikTok Live media was found on disk.");
    assert_eq!(j.status, TikTokLiveJobStatus::Interrupted);
    assert_eq!(plan_recovery(&mut j, Some("/old/a.mp4".to_string()), 0), Ok(Some("/old/a.mp4".to_string())));

    assert_eq!(recording_success_message("T", false, false, 1, 0), "Recorded TikTok Live: T");
    assert_eq!(recording_success_message("T", true, true, 2, 1), "Recorded TikTok Live: T (2 segments preserved because automatic MP4 finalization failed)");
    assert_eq!(recording_success_message("T", false, true, 2, 3), "Recorded TikTok Live: T (partial recording merged after 3 signed URL refresh attempts)");
    assert_eq!(recording_success_message("T", false, false, 3, 2), "Recorded TikTok Live: T (3 segments merged after 2 signed URL refreshes)");
    assert_eq!(recovery_success_message("T", true), "Recovered TikTok Live recording: T (MKV preserved because MP4 finalization failed)");
}

#[test]
fn adds_default_tiktok_headers_for_ffmpeg_without_overwriting_cookies() {
    let headers = vec![("Cookie".to_string(), "sessionid=secret".to_string())];

    let headers = tiktok_ffmpeg_headers(&headers);
    let block = ffmpeg_header_block(&headers).expect("headers");

    assert_eq!(header_value(&headers, "User-Agent").as_deref(), Some(TIKTOK_BROWSER_USER_AGENT));
    assert!(block.contains("Origin: https://www.tiktok.com"));
    assert!(block.contains("Referer: https://www.tiktok.com/"));
    assert!(block.contains("Cookie: sessionid=secret"));
}

#[test]
fn records_crash_safe_matroska_segments_before_mp4_finalization() {
    let output = r"C:\Videos\live.part-001.mkv";
    let args = build_ffmpeg_record_args("https://signed.example/live.m3u8", &[], None, None, true, output);

    assert!(args.windows(2).any(|args| args == ["-c", "copy"]));
    assert!(args.windows(2).any(|args| args == ["-f", "matroska"]));
    assert!(args.windows(2).any(|args| args == ["-cluster_time_limit", "2000"]));
    assert!(!args.iter().any(|arg| arg == "+faststart"));
    assert_eq!(args.last().map(String::as_str), Some(output));
}

fn metadata(is_live: Option<JsonScalar>, live_status: Option<JsonScalar>) -> TikTokLiveMetadata {
    TikTokLiveMetadata {
        title: None,
        data_title: None,
        uploader: None,
        owner_display_id: None,
        owner_unique_id: None,
        owner_nickname: None,
        thumbnail: None,
        cover_url: None,
        avatar_url: None,
        session_ids: vec![],
        is_live,
        live_status,
    }
}

#[test]
fn retries_transient_metadata_errors_but_not_offline_streams() {
    assert!(should_retry_metadata_fetch(1, true));
    assert!(!should_retry_metadata_fetch(1, false));
    assert!(!should_retry_metadata_fetch(3, true));
    assert_eq!(metadata_retry_delay_ms(1), 750);
    assert_eq!(metadata_retry_delay_ms(2), 1500);
    assert!(tiktok_live_metadata_is_offline(&metadata(Some(JsonScalar::Bool(false)), None)));
    assert!(tiktok_live_metadata_is_offline(&metadata(None, Some(JsonScalar::Text("ended".to_string())))));
    assert!(!tiktok_live_metadata_is_offline(&metadata(
        Some(JsonScalar::Bool(true)),
        Some(JsonScalar::Text("is_live".to_string()))
    )));
}

#[test]
fn finalization_merges_or_keeps_segments() {
    assert_eq!(
        build_finalize_args(None, "/v/a.part-001.mkv", "/v/a.mp4"),
        s(&["-hide_banner", "-nostdin", "-y", "-fflags", "+genpts", "-i", "/v/a.part-001.mkv", "-c", "copy", "-avoid_negative_ts", "make_zero", "-movflags", "+faststart", "/v/a.mp4"])
    );
    let args = build_finalize_args(Some("/v/a.ffconcat"), "/v/a.part-001.mkv", "/v/a.mp4");
    assert_eq!(&args[5..11], &s(&["-f", "concat", "-safe", "0", "-i", "/v/a.ffconcat"])[..]);
    assert_eq!(finalization_outcome(2, true), Ok(FinalizeOutcome::Merged));
    assert_eq!(finalization_outcome(1, false), Ok(FinalizeOutcome::KeepSingleSegment));
    assert_eq!(finalization_outcome(0, true).err().unwrap(), "TikTok Live recording produced no media segments.");
    assert_eq!(
        finalization_outcome(3, false).err().unwrap(),
        "TikTok Live segments could not be merged. All recorded segments were preserved for recovery."
    );
    assert_eq!(owner_live_url("some.user"), "https://www.tiktok.com/@some.user/live");
}
