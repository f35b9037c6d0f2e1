use youwee::effective_network_approval;
use youwee::watchlist::{
    clamp_tiktok_live_recording_limit, clamp_watchlist_cooldown, clamp_watchlist_poll_interval,
    mark_watch_entry_live_but_busy, normalize_schedule_days, normalize_schedule_minute,
    persisted_target_input, same_watch_target, schedule_days_contains, schedule_watch_entry,
    schedule_window_contains, should_auto_record_watch_entry, tiktok_live_resource_warning,
    watch_entry_label, watch_status_represents_live_session, watchlist_backoff_seconds,
    TikTokLiveRecordMode, TikTokLiveWatchEntry, TikTokLiveWatchStatus,
    TIKTOK_LIVE_MAX_RECORDINGS_HARD_LIMIT, WATCHLIST_DEFAULT_COOLDOWN_SECONDS,
    WATCHLIST_MAX_COOLDOWN_SECONDS,
};

fn sample_watch_entry(status: TikTokLiveWatchStatus) -> TikTokLiveWatchEntry {
    TikTokLiveWatchEntry {
        id: "watch-creator".to_string(),
        target_input: "@creator".to_string(),
        target_url: "https://www.tiktok.com/@creator/live".to_string(),
        username: Some("creator".to_string()),
        enabled: true,
        auto_record: true,
        output_dir: "C:/Downloads".to_string(),
        preferred_quality: Some("auto".to_string()),
        preferred_transport: Some("auto".to_string()),
        duration_seconds: None,
        cookie_mode: Some("browser".to_string()),
        cookie_browser: Some("firefox".to_string()),
        cookie_browser_profile: Some("i879pxds.default-release".to_string()),
        cookie_file_path: None,
        poll_interval_seconds: 60,
        record_mode: TikTokLiveRecordMode::OncePerLive,
        cooldown_seconds: WATCHLIST_DEFAULT_COOLDOWN_SECONDS,
        filename_template: None,
        schedule_enabled: false,
        schedule_days: None,
        schedule_start_minute: None,
        schedule_end_minute: None,
        backoff_attempt: 0,
        next_check_at: 100,
        status,
        active_job_id: None,
        last_error: None,
        last_checked_at: None,
        last_online_at: None,
        last_recording_at: None,
        last_session_id: None,
        last_outcome: None,
        last_completed_at: None,
        last_started_job_id: None,
        last_segment_count: 0,
        last_refresh_count: 0,
        last_reconnect_count: 0,
        last_file_size: None,
        last_title: None,
        last_uploader: None,
        thumbnail: None,
        avatar: None,
        last_viewer_count: None,
        created_at: 100,
        updated_at: 100,
    }
}

#[test]
fn watchlist_backoff_is_bounded_deterministic_and_respects_poll_floor() {
    assert_eq!(clamp_watchlist_poll_interval(Some(1)), 30);
    assert_eq!(clamp_watchlist_poll_interval(Some(120)), 120);
    assert_eq!(clamp_watchlist_poll_interval(Some(10_000)), 3600);
    let first = watchlist_backoff_seconds("watch-creator", 60, 1);
    assert_eq!(first, watchlist_backoff_seconds("watch-creator", 60, 1));
    assert!((60..72).contains(&first));
    assert_eq!(watchlist_backoff_seconds("watch-creator", 60, 20), 1800);
    assert_eq!(watchlist_backoff_seconds("watch-creator", 3600, 1), 3600);
}

#[test]
fn watchlist_auto_record_only_starts_on_a_free_offline_to_live_transition() {
    let mut entry = sample_watch_entry(TikTokLiveWatchStatus::Offline);
    assert!(should_auto_record_watch_entry(
        TikTokLiveWatchStatus::Offline,
        &entry,
        true,
        Some("session-1"),
        1_000
    ));
    assert!(!should_auto_record_watch_entry(
        TikTokLiveWatchStatus::Online,
        &entry,
        true,
        Some("session-1"),
        1_000
    ));
    entry.last_session_id = Some("session-1".to_string());
    entry.enabled = false;
    assert!(!should_auto_record_watch_entry(
        TikTokLiveWatchStatus::Offline,
        &entry,
        true,
        Some("session-1"),
        1_000
    ));
    entry.enabled = true;
    entry.active_job_id = Some("existing-job".to_string());
    assert!(!should_auto_record_watch_entry(
        TikTokLiveWatchStatus::Offline,
        &entry,
        true,
        Some("session-2"),
        1_000
    ));
}

#[test]
fn watchlist_record_modes_dedupe_by_session_and_cooldown() {
    let mut entry = sample_watch_entry(TikTokLiveWatchStatus::Offline);
    entry.last_session_id = Some("session-1".to_string());
    assert!(!should_auto_record_watch_entry(
        TikTokLiveWatchStatus::Offline,
        &entry,
        true,
        Some("session-1"),
        2_000
    ));
    assert!(should_auto_record_watch_entry(
        TikTokLiveWatchStatus::Offline,
        &entry,
        true,
        Some("session-2"),
        2_000
    ));

    entry.record_mode = TikTokLiveRecordMode::AlwaysAfterCooldown;
    entry.last_recording_at = Some(1_000);
    entry.cooldown_seconds = 600;
    assert!(!should_auto_record_watch_entry(
        TikTokLiveWatchStatus::Online,
        &entry,
        true,
        Some("session-1"),
        1_500
    ));
    assert!(should_auto_record_watch_entry(
        TikTokLiveWatchStatus::Online,
        &entry,
        true,
        Some("session-1"),
        1_600
    ));

    entry.record_mode = TikTokLiveRecordMode::ManualOnly;
    assert!(!should_auto_record_watch_entry(
        TikTokLiveWatchStatus::Offline,
        &entry,
        true,
        Some("session-3"),
        3_000
    ));
}

#[test]
fn watchlist_busy_live_state_requires_a_new_offline_transition() {
    let mut entry = sample_watch_entry(TikTokLiveWatchStatus::Offline);
    mark_watch_entry_live_but_busy(&mut entry, 1_000);

    assert_eq!(entry.status, TikTokLiveWatchStatus::Online);
    assert_eq!(entry.last_error.as_deref(), Some("recordingBusy"));
    assert!(!should_auto_record_watch_entry(
        entry.status,
        &entry,
        true,
        Some("session-1"),
        1_000
    ));
}

#[test]
fn watchlist_schedule_rules_normalize_and_match_windows() {
    assert_eq!(
        normalize_schedule_days(Some(" 2,1,2,9,x,0 ".to_string())).as_deref(),
        Some("0,1,2")
    );
    assert_eq!(normalize_schedule_minute(Some(1439)), Some(1439));
    assert_eq!(normalize_schedule_minute(Some(1440)), None);
    assert!(schedule_days_contains(Some("0,2,4"), 2));
    assert!(!schedule_days_contains(Some("0,2,4"), 3));
    assert!(schedule_window_contains(Some(60), Some(120), 90));
    assert!(!schedule_window_contains(Some(60), Some(120), 120));
    assert!(schedule_window_contains(Some(1320), Some(120), 30));
    assert!(schedule_window_contains(Some(1320), Some(120), 1380));
    assert!(!schedule_window_contains(Some(1320), Some(120), 600));
    assert_eq!(tiktok_live_resource_warning(0, 1), None);
    assert_eq!(tiktok_live_resource_warning(1, 2), Some("limitHigh"));
    assert_eq!(tiktok_live_resource_warning(2, 2), Some("multiRoomActive"));
}

#[test]
fn watchlist_target_identity_ignores_username_case() {
    assert!(same_watch_target(
        "https://www.tiktok.com/@Creator/live",
        "https://www.tiktok.com/@creator/live"
    ));
    assert!(!same_watch_target(
        "https://www.tiktok.com/@creator/live",
        "https://www.tiktok.com/@another/live"
    ));
}

#[test]
fn network_approval_needs_both_the_manifest_and_the_user() {
    assert!(effective_network_approval(true, true));
    assert!(!effective_network_approval(true, false));
    assert!(!effective_network_approval(false, true));
    assert!(!effective_network_approval(false, false));
}

#[test]
fn recording_limit_and_cooldown_are_clamped() {
    assert_eq!(clamp_tiktok_live_recording_limit(None), 1);
    assert_eq!(clamp_tiktok_live_recording_limit(Some(0)), 1);
    assert_eq!(clamp_tiktok_live_recording_limit(Some(99)), TIKTOK_LIVE_MAX_RECORDINGS_HARD_LIMIT);
    assert_eq!(clamp_watchlist_cooldown(None), WATCHLIST_DEFAULT_COOLDOWN_SECONDS);
    assert_eq!(clamp_watchlist_cooldown(Some(u32::MAX)), WATCHLIST_MAX_COOLDOWN_SECONDS);
    assert_eq!(clamp_watchlist_cooldown(Some(0)), 0);
}

#[test]
fn scheduling_moves_only_the_next_check() {
    let mut entry = sample_watch_entry(TikTokLiveWatchStatus::Offline);
    schedule_watch_entry(&mut entry, 1_000, false);
    assert_eq!(entry.next_check_at, 1_060);
    entry.backoff_attempt = 20;
    schedule_watch_entry(&mut entry, 1_000, true);
    assert_eq!(entry.next_check_at, 2_800);
}

#[test]
fn live_session_statuses_and_labels() {
    assert!(watch_status_represents_live_session(TikTokLiveWatchStatus::Online));
    assert!(watch_status_represents_live_session(TikTokLiveWatchStatus::Recording));
    assert!(!watch_status_represents_live_session(TikTokLiveWatchStatus::Offline));
    let mut entry = sample_watch_entry(TikTokLiveWatchStatus::Offline);
    assert_eq!(watch_entry_label(&entry), "@creator");
    entry.username = None;
    assert_eq!(watch_entry_label(&entry), "@creator");
    assert_eq!(persisted_target_input(&entry), "@creator");
}
