use youwee::jobs::TikTokLiveJobStatus;
use youwee::live::parse_tiktok_live_target;
use youwee::recorder::SaveTikTokLiveWatchEntryInput;
use youwee::watchflow::{
    apply_watch_inspection, begin_watch_recording, detach_watch_job, ensure_watch_entry_free,
    finish_watch_recording, mark_watch_entry_busy_after_check, new_watch_entry,
    reconcile_watch_entry_after_restart, recording_started_notification, save_watch_entry,
    settle_watch_entry_with_job, watch_entry_schedule_allows, watch_entry_target,
    FinishedJobFacts, InspectionOutcome, InspectionStep, RecordingOutcome,
    WATCHLIST_PAUSED_CHECK_AT, check_watch_entry_removable, set_watch_entry_enabled,
};
use youwee::watchlist::{
    TikTokLiveRecordMode, TikTokLiveWatchEntry, TikTokLiveWatchStatus,
    WATCHLIST_DEFAULT_COOLDOWN_SECONDS,
};

fn sample_watch_entry(status: TikTokLiveWatchStatus) -> TikTokLiveWatchEntry {
    TikTokLiveWatchEntry {
        id: "watch-creator".to_string(),
        target_input: "@creator".to_string(),
        target_url: "https://www.tiktok.com/@creator/live".to_string(),
        username: Some("creator".to_string()),
        enabled: true,
        auto_record: true,
        output_dir: "C:/Downloads".to_string(),
        preferred_quality: Some("auto".to_string()),
        preferred_transport: Some("auto".to_string()),
        duration_seconds: None,
        cookie_mode: Some("browser".to_string()),
        cookie_browser: Some("firefox".to_string()),
        cookie_browser_profile: Some("i879pxds.default-release".to_string()),
        cookie_file_path: None,
        poll_interval_seconds: 60,
        record_mode: TikTokLiveRecordMode::OncePerLive,
        cooldown_seconds: WATCHLIST_DEFAULT_COOLDOWN_SECONDS,
        filename_template: None,
        schedule_enabled: false,
        schedule_days: None,
        schedule_start_minute: None,
        schedule_end_minute: None,
        backoff_attempt: 0,
        next_check_at: 100,
        status,
        active_job_id: None,
        last_error: None,
        last_checked_at: None,
        last_online_at: None,
        last_recording_at: None,
        last_session_id: None,
        last_outcome: None,
        last_completed_at: None,
        last_started_job_id: None,
        last_segment_count: 0,
        last_refresh_count: 0,
        last_reconnect_count: 0,
        last_file_size: None,
        last_title: None,
        last_uploader: None,
        thumbnail: None,
        avatar: None,
        last_viewer_count: None,
        created_at: 100,
        updated_at: 100,
    }
}

fn input(text: &str) -> SaveTikTokLiveWatchEntryInput {
    SaveTikTokLiveWatchEntryInput {
        id: None,
        input: text.to_string(),
        enabled: None,
        auto_record: None,
        output_dir: String::new(),
        preferred_quality: Some("auto".to_string()),
        preferred_transport: Some("auto".to_string()),
        duration_seconds: Some(0),
        cookie_mode: None,
        cookie_browser: None,
        cookie_browser_profile: None,
        cookie_file_path: None,
        poll_interval_seconds: Some(5),
        record_mode: None,
        cooldown_seconds: None,
        filename_template: Some("  ".to_string()),
        schedule_enabled: None,
        schedule_days: Some("3,1".to_string()),
        schedule_start_minute: Some(2000),
        schedule_end_minute: Some(60),
    }
}

#[test]
fn watchlist_restart_links_recoverable_job_without_starting_a_duplicate() {
    let mut entry = sample_watch_entry(TikTokLiveWatchStatus::Recording);
    entry.active_job_id = Some("watch-recovery-job".to_string());
    assert!(reconcile_watch_entry_after_restart(&mut entry, Some(TikTokLiveJobStatus::Recoverable), 500));
    assert_eq!(entry.status, TikTokLiveWatchStatus::Recoverable);
    assert_eq!(entry.active_job_id.as_deref(), Some("watch-recovery-job"));
    assert_eq!(entry.next_check_at, WATCHLIST_PAUSED_CHECK_AT);
    assert_eq!(entry.last_error.as_deref(), Some("restartRecoverable"));
    assert!(ensure_watch_entry_free(&entry).is_err());
}

#[test]
fn restart_settles_each_kind_of_entry() {
    let mut finished = sample_watch_entry(TikTokLiveWatchStatus::Recording);
    finished.active_job_id = Some("job".to_string());
    assert!(reconcile_watch_entry_after_restart(&mut finished, Some(TikTokLiveJobStatus::Completed), 500));
    assert_eq!(finished.status, TikTokLiveWatchStatus::Online);
    assert_eq!(finished.active_job_id, None);
    assert_eq!(finished.next_check_at, 560);

    let mut missing = sample_watch_entry(TikTokLiveWatchStatus::Recording);
    missing.active_job_id = Some("job".to_string());
    assert!(reconcile_watch_entry_after_restart(&mut missing, None, 500));
    assert_eq!(missing.status, TikTokLiveWatchStatus::Error);
    assert_eq!(missing.last_error.as_deref(), Some("missingJob"));
    assert_eq!(missing.backoff_attempt, 1);

    let mut stale = sample_watch_entry(TikTokLiveWatchStatus::Checking);
    assert!(reconcile_watch_entry_after_restart(&mut stale, None, 500));
    assert_eq!(stale.status, TikTokLiveWatchStatus::Offline);
    assert_eq!(stale.next_check_at, 500);

    let mut idle = sample_watch_entry(TikTokLiveWatchStatus::Offline);
    assert!(!reconcile_watch_entry_after_restart(&mut idle, None, 500));
    assert_eq!(idle.updated_at, 100);
}

#[test]
fn checks_with_a_job_follow_the_job() {
    let mut entry = sample_watch_entry(TikTokLiveWatchStatus::Online);
    entry.active_job_id = Some("job".to_string());
    settle_watch_entry_with_job(&mut entry, TikTokLiveJobStatus::Reconnecting, 1_000);
    assert_eq!(entry.status, TikTokLiveWatchStatus::Recording);
    assert_eq!(entry.next_check_at, 1_060);
    settle_watch_entry_with_job(&mut entry, TikTokLiveJobStatus::Failed, 1_000);
    assert_eq!(entry.status, TikTokLiveWatchStatus::Recoverable);
    assert_eq!(entry.next_check_at, WATCHLIST_PAUSED_CHECK_AT);
    settle_watch_entry_with_job(&mut entry, TikTokLiveJobStatus::Cancelled, 1_000);
    assert_eq!(entry.status, TikTokLiveWatchStatus::Online);
    assert_eq!(entry.active_job_id, None);
}

#[test]
fn checks_start_recordings_only_on_new_live_sessions() {
    let mut entry = sample_watch_entry(TikTokLiveWatchStatus::Checking);
    entry.backoff_attempt = 3;
    let live = InspectionOutcome::Live { session_id: Some("s1".to_string()) };
    let step = apply_watch_inspection(&mut entry, TikTokLiveWatchStatus::Offline, &live, true, true, 1_000);
    assert_eq!(step, InspectionStep::StartRecording);
    assert_eq!(entry.backoff_attempt, 0);
    assert_eq!(entry.last_checked_at, Some(1_000));
    assert_eq!(entry.last_online_at, Some(1_000));

    let step = apply_watch_inspection(&mut entry, TikTokLiveWatchStatus::Offline, &live, true, false, 1_000);
    assert_eq!(step, InspectionStep::Done);
    assert_eq!(entry.status, TikTokLiveWatchStatus::Online);
    assert_eq!(entry.next_check_at, 1_060);

    let mut busy = sample_watch_entry(TikTokLiveWatchStatus::Checking);
    mark_watch_entry_busy_after_check(&mut busy, 2_000);
    assert_eq!(busy.status, TikTokLiveWatchStatus::Online);
    assert_eq!(busy.last_error.as_deref(), Some("recordingBusy"));
    assert_eq!(busy.next_check_at, 2_060);
}

#[test]
fn failed_checks_back_off() {
    let mut entry = sample_watch_entry(TikTokLiveWatchStatus::Checking);
    let step = apply_watch_inspection(&mut entry, TikTokLiveWatchStatus::Offline, &InspectionOutcome::NotLive, true, true, 1_000);
    assert_eq!(step, InspectionStep::Done);
    assert_eq!(entry.status, TikTokLiveWatchStatus::Offline);
    assert_eq!(entry.backoff_attempt, 1);
    apply_watch_inspection(&mut entry, TikTokLiveWatchStatus::Offline, &InspectionOutcome::Failed { retryable: true }, true, true, 1_000);
    assert_eq!(entry.status, TikTokLiveWatchStatus::Backoff);
    assert_eq!(entry.last_error.as_deref(), Some("metadataFailed"));
    assert_eq!(entry.backoff_attempt, 2);
    apply_watch_inspection(&mut entry, TikTokLiveWatchStatus::Offline, &InspectionOutcome::Failed { retryable: false }, true, true, 1_000);
    assert_eq!(entry.status, TikTokLiveWatchStatus::Error);
    apply_watch_inspection(&mut entry, TikTokLiveWatchStatus::Offline, &InspectionOutcome::Offline, true, true, 1_000);
    assert_eq!(entry.status, TikTokLiveWatchStatus::Offline);
    assert_eq!(entry.last_error, None);
    assert_eq!(entry.backoff_attempt, 4);
    assert!(entry.next_check_at > 1_000);
}

#[test]
fn recordings_start_and_finish_on_the_entry() {
    let mut entry = sample_watch_entry(TikTokLiveWatchStatus::Online);
    begin_watch_recording(&mut entry, "job-1", Some(" ".to_string()), 1_000);
    assert_eq!(entry.status, TikTokLiveWatchStatus::Recording);
    assert_eq!(entry.active_job_id.as_deref(), Some("job-1"));
    assert_eq!(entry.last_session_id, None);
    assert_eq!(entry.last_outcome.as_deref(), Some("recording"));
    assert_eq!(recording_started_notification(&entry), "🔴 TikTok Live recording started: @creator");

    assert_eq!(finish_watch_recording(&mut entry, "other-job", None, &RecordingOutcome::Failed, 2_000), None);
    assert_eq!(entry.status, TikTokLiveWatchStatus::Recording);

    let facts = FinishedJobFacts {
        segment_count: 3,
        refresh_count: 1,
        reconnect_count: 2,
        completed_at: Some(1_900),
        resumable: false,
        final_file_size: None,
    };
    let note = finish_watch_recording(
        &mut entry,
        "job-1",
        Some(facts),
        &RecordingOutcome::Completed { partial: true, filesize: Some(4096) },
        2_000,
    );
    assert_eq!(note.as_deref(), Some("🟡 TikTok Live recording partial: @creator"));
    assert_eq!(entry.active_job_id, None);
    assert_eq!(entry.status, TikTokLiveWatchStatus::Online);
    assert_eq!(entry.last_segment_count, 3);
    assert_eq!(entry.last_file_size, Some(4096));
    assert_eq!(entry.last_completed_at, Some(2_000));
    assert_eq!(entry.next_check_at, 2_060);
}

#[test]
fn resumable_recordings_pause_the_entry() {
    let mut entry = sample_watch_entry(TikTokLiveWatchStatus::Recording);
    entry.active_job_id = Some("job-1".to_string());
    let facts = FinishedJobFacts {
        segment_count: 1,
        refresh_count: 0,
        reconnect_count: 0,
        completed_at: None,
        resumable: true,
        final_file_size: Some(10),
    };
    let note = finish_watch_recording(&mut entry, "job-1", Some(facts), &RecordingOutcome::Failed, 2_000);
    assert_eq!(note.as_deref(), Some("🛟 TikTok Live recording recoverable: @creator"));
    assert_eq!(entry.status, TikTokLiveWatchStatus::Recoverable);
    assert_eq!(entry.active_job_id.as_deref(), Some("job-1"));
    assert_eq!(entry.next_check_at, WATCHLIST_PAUSED_CHECK_AT);
    detach_watch_job(&mut entry, 3_000);
    assert_eq!(entry.active_job_id, None);
    assert_eq!(entry.status, TikTokLiveWatchStatus::Online);
    assert_eq!(entry.next_check_at, 3_060);

    let mut failed = sample_watch_entry(TikTokLiveWatchStatus::Recording);
    failed.active_job_id = Some("job-2".to_string());
    let note = finish_watch_recording(&mut failed, "job-2", None, &RecordingOutcome::Failed, 2_000);
    assert_eq!(note.as_deref(), Some("❌ TikTok Live recording failed: @creator"));
    assert_eq!(failed.status, TikTokLiveWatchStatus::Backoff);
    assert_eq!(failed.last_error.as_deref(), Some("recordingFailed"));
    assert_eq!(failed.backoff_attempt, 1);
}

#[test]
fn schedules_gate_auto_recording() {
    let mut entry = sample_watch_entry(TikTokLiveWatchStatus::Offline);
    assert!(watch_entry_schedule_allows(&entry, 6, 1_439));
    entry.schedule_enabled = true;
    entry.schedule_days = Some("0,2".to_string());
    entry.schedule_start_minute = Some(60);
    entry.schedule_end_minute = Some(120);
    assert!(watch_entry_schedule_allows(&entry, 2, 90));
    assert!(!watch_entry_schedule_allows(&entry, 1, 90));
    assert!(!watch_entry_schedule_allows(&entry, 2, 130));
}

#[test]
fn saving_applies_the_interface_input() {
    let (target, url) = watch_entry_target("@creator").expect("target");
    let saved = save_watch_entry(
        None,
        None,
        input("@creator"),
        &target,
        &url,
        Ok("/videos".to_string()),
        "new-id".to_string(),
        700,
    )
    .expect("saved");
    assert_eq!(saved.id, "new-id");
    assert_eq!(saved.target_url, "https://www.tiktok.com/@creator/live");
    assert_eq!(saved.poll_interval_seconds, 30);
    assert_eq!(saved.duration_seconds, None);
    assert_eq!(saved.filename_template, None);
    assert_eq!(saved.schedule_days.as_deref(), Some("1,3"));
    assert_eq!(saved.schedule_start_minute, None);
    assert_eq!(saved.schedule_end_minute, Some(60));
    assert_eq!(saved.next_check_at, 700);
    assert_eq!(saved.created_at, 700);
    assert!(saved.enabled && saved.auto_record);

    let duplicate = save_watch_entry(
        None,
        Some("someone-else".to_string()),
        input("@creator"),
        &target,
        &url,
        Ok("/videos".to_string()),
        "new-id".to_string(),
        700,
    );
    assert_eq!(duplicate.unwrap_err(), "This TikTok Live account is already in the watchlist.");

    let no_dir = save_watch_entry(None, None, input("@creator"), &target, &url, Err("no folder".to_string()), "id".to_string(), 700);
    assert_eq!(no_dir.unwrap_err(), "no folder");
}

#[test]
fn saving_a_new_target_over_a_busy_entry_is_refused() {
    let mut existing = sample_watch_entry(TikTokLiveWatchStatus::Recording);
    existing.active_job_id = Some("job".to_string());
    let (target, url) = watch_entry_target("@another").expect("target");
    let refused = save_watch_entry(
        Some(existing.clone()),
        None,
        input("@another"),
        &target,
        &url,
        Ok("/videos".to_string()),
        "unused".to_string(),
        900,
    );
    assert_eq!(
        refused.unwrap_err(),
        "Finish or remove the current recording recovery before changing this watch target."
    );

    existing.active_job_id = None;
    existing.last_session_id = Some("old".to_string());
    let saved = save_watch_entry(
        Some(existing),
        Some("watch-creator".to_string()),
        input("@another"),
        &target,
        &url,
        Ok("/videos".to_string()),
        "unused".to_string(),
        900,
    )
    .expect("saved");
    assert_eq!(saved.id, "watch-creator");
    assert_eq!(saved.created_at, 100);
    assert_eq!(saved.status, TikTokLiveWatchStatus::Offline);
    assert_eq!(saved.last_session_id, None);
    assert_eq!(saved.username.as_deref(), Some("another"));
    assert_eq!(saved.next_check_at, 900);
}

#[test]
fn unknown_targets_are_refused_before_saving() {
    assert_eq!(watch_entry_target("").unwrap_err(), "TikTok Live input is empty");
    let room = parse_tiktok_live_target("123456").unwrap();
    let fresh = new_watch_entry("id".to_string(), &room, "u", "/d", 5);
    assert_eq!(fresh.record_mode, TikTokLiveRecordMode::OncePerLive);
    assert_eq!(fresh.preferred_quality.as_deref(), Some("auto"));
}

#[test]
fn enabling_an_entry_makes_it_due_now() {
    let mut entry = sample_watch_entry(TikTokLiveWatchStatus::Offline);
    entry.enabled = false;
    entry.next_check_at = 5_000;
    set_watch_entry_enabled(&mut entry, true, 1_000);
    assert!(entry.enabled);
    assert_eq!(entry.next_check_at, 1_000);
    assert_eq!(entry.updated_at, 1_000);
    set_watch_entry_enabled(&mut entry, false, 2_000);
    assert!(!entry.enabled);
    assert_eq!(entry.next_check_at, 1_000);
    assert_eq!(entry.updated_at, 2_000);
}

#[test]
fn recording_entries_cannot_be_removed() {
    assert_eq!(
        check_watch_entry_removable(None, false),
        Err("Watchlist entry not found.".to_string())
    );
    let mut entry = sample_watch_entry(TikTokLiveWatchStatus::Recording);
    entry.active_job_id = Some("job-1".to_string());
    assert_eq!(
        check_watch_entry_removable(Some(&entry), false),
        Err("Stop the active TikTok Live recording before removing this watchlist entry.".to_string())
    );
    entry.status = TikTokLiveWatchStatus::Offline;
    assert!(check_watch_entry_removable(Some(&entry), true).is_err());
    assert_eq!(check_watch_entry_removable(Some(&entry), false), Ok(()));
    entry.active_job_id = None;
    entry.status = TikTokLiveWatchStatus::Recording;
    assert_eq!(check_watch_entry_removable(Some(&entry), true), Ok(()));
}
