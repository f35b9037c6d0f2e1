use youwee::recorder::TikTokLiveRecorderConfig;
use youwee::telegram::{
    build_tiktok_live_telegram_status_reply, build_tiktok_live_telegram_watchlist_reply,
    find_tiktok_live_telegram_entry, format_tiktok_live_telegram_entry,
    format_tiktok_live_telegram_target, format_tiktok_live_telegram_timestamp,
    plan_tiktok_live_telegram_command, telegram_command_done_reply, telegram_entry_status,
    telegram_no_active_recording_reply, telegram_target_not_found_reply, telegram_watch_input,
    tiktok_live_status_icon, tiktok_live_telegram_target_matches, TelegramLiveCommand,
};
use youwee::watchlist::{
    TikTokLiveRecordMode, TikTokLiveWatchEntry, TikTokLiveWatchStatus,
    TIKTOK_LIVE_MAX_RECORDINGS_HARD_LIMIT, WATCHLIST_DEFAULT_COOLDOWN_SECONDS,
};

fn sample_watch_entry(status: TikTokLiveWatchStatus) -> TikTokLiveWatchEntry {
    TikTokLiveWatchEntry {
        id: "watch-creator".to_string(),
        target_input: "@creator".to_string(),
        target_url: "https://www.tiktok.com/@creator/live".to_string(),
        username: Some("creator".to_string()),
        enabled: true,
        auto_record: true,
        output_dir: "C:/Downloads".to_string(),
        preferred_quality: Some("auto".to_string()),
        preferred_transport: Some("auto".to_string()),
        duration_seconds: None,
        cookie_mode: Some("browser".to_string()),
        cookie_browser: Some("firefox".to_string()),
        cookie_browser_profile: Some("i879pxds.default-release".to_string()),
        cookie_file_path: None,
        poll_interval_seconds: 60,
        record_mode: TikTokLiveRecordMode::OncePerLive,
        cooldown_seconds: WATCHLIST_DEFAULT_COOLDOWN_SECONDS,
        filename_template: None,
        schedule_enabled: false,
        schedule_days: None,
        schedule_start_minute: None,
        schedule_end_minute: None,
        backoff_attempt: 0,
        next_check_at: 100,
        status,
        active_job_id: None,
        last_error: None,
        last_checked_at: None,
        last_online_at: None,
        last_recording_at: None,
        last_session_id: None,
        last_outcome: None,
        last_completed_at: None,
        last_started_job_id: None,
        last_segment_count: 0,
        last_refresh_count: 0,
        last_reconnect_count: 0,
        last_file_size: None,
        last_title: None,
        last_uploader: None,
        thumbnail: None,
        avatar: None,
        last_viewer_count: None,
        created_at: 100,
        updated_at: 100,
    }
}

#[test]
fn telegram_watchlist_reply_formats_backend_entries() {
    let mut entry = sample_watch_entry(TikTokLiveWatchStatus::Recording);
    entry.last_outcome = Some("recording".to_string());
    entry.last_segment_count = 2;
    entry.last_reconnect_count = 1;

    let reply = build_tiktok_live_telegram_watchlist_reply(&[entry]);

    assert!(reply.contains("📺 TikTok Live watchlist (1)"));
    assert!(reply.contains("🔴 @creator"));
    assert!(reply.contains("Status: recording"));
    assert!(reply.contains("Segments: 2"));
    assert!(reply.contains("Reconnects: 1"));
}

#[test]
fn telegram_status_reply_matches_targets_like_frontend_hook() {
    let mut entry = sample_watch_entry(TikTokLiveWatchStatus::Online);
    entry.last_checked_at = Some(1_783_750_000);
    let config = TikTokLiveRecorderConfig {
        max_concurrent_recordings: 2,
        active_recordings: 1,
        hard_limit: TIKTOK_LIVE_MAX_RECORDINGS_HARD_LIMIT,
    };

    assert!(tiktok_live_telegram_target_matches(&entry, "@creator"));
    assert!(tiktok_live_telegram_target_matches(&entry, "https://www.tiktok.com/@creator/live"));
    assert!(tiktok_live_telegram_target_matches(&entry, "watch-creator"));

    let target_reply =
        build_tiktok_live_telegram_status_reply(&[entry.clone()], &config, Some("@creator"));
    assert!(target_reply.contains("🟢 @creator"));
    assert!(target_reply.contains("Status: online"));
    assert!(target_reply.contains("Enabled: yes"));

    let summary_reply = build_tiktok_live_telegram_status_reply(&[entry], &config, None);
    assert!(summary_reply.contains("Active rooms: 1/2"));
    assert!(summary_reply.contains("Watchlist: 1 total · 1 enabled"));
    assert!(summary_reply.contains("Online: 1"));
}

#[test]
fn telegram_texts_are_exact() {
    let mut entry = sample_watch_entry(TikTokLiveWatchStatus::Offline);
    entry.enabled = false;
    assert_eq!(
        format_tiktok_live_telegram_entry(&entry, 0),
        "1. ⚫ @creator\nStatus: offline · disabled"
    );
    assert_eq!(build_tiktok_live_telegram_watchlist_reply(&[]), "📭 TikTok Live watchlist is empty.\nUse /tl_add @username to add one.");
    assert_eq!(
        build_tiktok_live_telegram_watchlist_reply(&[entry.clone()]),
        "📺 TikTok Live watchlist (1)\n\n1. ⚫ @creator\nStatus: offline · disabled"
    );
    let many: Vec<TikTokLiveWatchEntry> = (0..10).map(|_| entry.clone()).collect();
    assert!(build_tiktok_live_telegram_watchlist_reply(&many).contains("8. ⚫"));
    assert!(!build_tiktok_live_telegram_watchlist_reply(&many).contains("9. ⚫"));
    assert_eq!(tiktok_live_status_icon(TikTokLiveWatchStatus::Recoverable), "🟡");
    assert_eq!(format_tiktok_live_telegram_target(&entry), "@creator");
    assert_eq!(format_tiktok_live_telegram_timestamp(None), "never");
    entry.last_error = Some("metadataFailed".to_string());
    assert_eq!(
        telegram_entry_status(&entry, "a", "never", "never"),
        "⚫ @creator\nStatus: offline\nEnabled: no\nAuto-record: yes\nLast checked: a\nLast online: never\nLast recording: never\nLast error: metadataFailed"
    );
}

#[test]
fn telegram_targets_are_found_in_order() {
    let mut other = sample_watch_entry(TikTokLiveWatchStatus::Offline);
    other.id = "watch-other".to_string();
    other.username = Some("other".to_string());
    other.target_input = "@other".to_string();
    other.target_url = "https://www.tiktok.com/@other/live".to_string();
    let entries = vec![other, sample_watch_entry(TikTokLiveWatchStatus::Online)];
    assert_eq!(find_tiktok_live_telegram_entry(&entries, " @CREATOR "), Some(1));
    assert_eq!(find_tiktok_live_telegram_entry(&entries, "@nobody"), None);
    let config = TikTokLiveRecorderConfig { max_concurrent_recordings: 1, active_recordings: 0, hard_limit: 4 };
    assert_eq!(
        build_tiktok_live_telegram_status_reply(&entries, &config, Some("@nobody")),
        "TikTok Live target not found: @nobody"
    );
}

#[test]
fn telegram_commands_are_planned_and_answered() {
    assert_eq!(
        plan_tiktok_live_telegram_command("watchlist", Some("@x")),
        Ok((TelegramLiveCommand::Watchlist, None))
    );
    assert_eq!(
        plan_tiktok_live_telegram_command("status", Some(" @x ")),
        Ok((TelegramLiveCommand::Status, Some(" @x ".to_string())))
    );
    assert_eq!(
        plan_tiktok_live_telegram_command("add", Some("  @creator ")),
        Ok((TelegramLiveCommand::Add, Some("@creator".to_string())))
    );
    assert_eq!(
        plan_tiktok_live_telegram_command("stop", Some("   ")),
        Err("Missing TikTok Live target. Example: /tl_stop @username".to_string())
    );
    assert_eq!(
        plan_tiktok_live_telegram_command("record", None),
        Err("Missing TikTok Live target. Example: /tl_record @username".to_string())
    );
    assert_eq!(
        plan_tiktok_live_telegram_command("dance", Some("@x")),
        Err("Unsupported command. Use /help to see available commands.".to_string())
    );

    let mut entry = sample_watch_entry(TikTokLiveWatchStatus::Offline);
    assert_eq!(
        telegram_command_done_reply(TelegramLiveCommand::Add, &entry),
        "Added TikTok Live target: @creator"
    );
    assert_eq!(
        telegram_command_done_reply(TelegramLiveCommand::Disable, &entry),
        "Disabled TikTok Live target: @creator"
    );
    assert_eq!(
        telegram_command_done_reply(TelegramLiveCommand::Inspect, &entry),
        "Checked @creator: offline"
    );
    entry.last_error = Some("blocked".to_string());
    assert_eq!(
        telegram_command_done_reply(TelegramLiveCommand::Inspect, &entry),
        "Checked @creator: offline (blocked)"
    );
    assert_eq!(telegram_target_not_found_reply("@x"), "TikTok Live target not found: @x");
    assert_eq!(
        telegram_no_active_recording_reply(&entry),
        "No active TikTok Live recording for @creator."
    );
    let input = telegram_watch_input("@creator");
    assert_eq!(input.input, "@creator");
    assert_eq!(input.output_dir, "");
    assert_eq!(input.poll_interval_seconds, Some(60));
    assert_eq!(input.cooldown_seconds, Some(WATCHLIST_DEFAULT_COOLDOWN_SECONDS));
    assert_eq!(input.record_mode, Some(TikTokLiveRecordMode::OncePerLive));
}

#[test]
fn timestamps_are_written_as_date_and_time() {
    let text = format_tiktok_live_telegram_timestamp(Some(1_700_000_000));
    let bytes = text.as_bytes();
    assert_eq!(text.len(), 19);
    assert_eq!(bytes[4], b'-');
    assert_eq!(bytes[7], b'-');
    assert_eq!(bytes[10], b' ');
    assert_eq!(bytes[13], b':');
    assert_eq!(bytes[16], b':');
    assert!(text.starts_with("2023-11-1"));
}
