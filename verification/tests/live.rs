use youwee::live::{
    append_reconnect_args, decode_basic_html_entities, ffconcat_content, initial_live_title,
    matches_quality_filter, matches_transport, media_extension, media_extension_from,
    normalize_tiktok_username, parse_tiktok_live_target, persisted_history_id,
    portable_stem_of_file_name, quality_rank, recording_file_name, recording_file_name_now,
    recoverable_output_path_for_recording,
    recovery_error_message,
    sanitize_filename_part, segment_file_name, segment_file_name_for_recording,
    tiktok_room_info_url, tiktok_target_url, transport_rank, TikTokLiveTargetKind,
};

#[test]
fn parses_username_and_live_url_targets() {
    let username = parse_tiktok_live_target("@some.user").expect("username");
    assert_eq!(username.kind, TikTokLiveTargetKind::Username);
    assert_eq!(username.url.as_deref(), Some("https://www.tiktok.com/@some.user/live"));

    let url = parse_tiktok_live_target("https://www.tiktok.com/@some.user/live?token=secret#frag")
        .expect("url");
    assert_eq!(url.kind, TikTokLiveTargetKind::Url);
    assert_eq!(url.username.as_deref(), Some("some.user"));
    assert_eq!(url.input, "https://www.tiktok.com/@some.user/live");
    assert!(!url.input.contains("token=secret"));
    assert_eq!(url.url.as_deref(), Some("https://www.tiktok.com/@some.user/live"));
}

#[test]
fn treats_profile_urls_as_live_targets() {
    let url = parse_tiktok_live_target("https://www.tiktok.com/@some.user?lang=en#profile")
        .expect("profile url");
    assert_eq!(url.kind, TikTokLiveTargetKind::Url);
    assert_eq!(url.username.as_deref(), Some("some.user"));
    assert_eq!(url.url.as_deref(), Some("https://www.tiktok.com/@some.user/live"));
}

#[test]
fn parses_room_id_without_guessing_a_url() {
    let target = parse_tiktok_live_target("1234567890").expect("room id");
    assert_eq!(target.kind, TikTokLiveTargetKind::RoomId);
    assert_eq!(target.room_id.as_deref(), Some("1234567890"));
    assert!(target.url.is_none());
    assert_eq!(
        tiktok_target_url(&target).as_deref(),
        Some("https://webcast.tiktok.com/webcast/room/info/?aid=1988&room_id=1234567890")
    );
}

#[test]
fn rejects_non_tiktok_urls() {
    let err = parse_tiktok_live_target("https://example.com/@abc/live").unwrap_err();
    assert!(err.contains("TikTok"));
}

#[test]
fn target_errors_name_what_was_wrong() {
    assert_eq!(parse_tiktok_live_target("   ").unwrap_err(), "TikTok Live input is empty");
    assert_eq!(
        parse_tiktok_live_target("not a user!").unwrap_err(),
        "Invalid TikTok username or Live URL"
    );
    assert_eq!(parse_tiktok_live_target("http://").unwrap_err(), "Invalid TikTok Live URL");
    let short_digits = parse_tiktok_live_target("1234").expect("short digits are a username");
    assert_eq!(short_digits.kind, TikTokLiveTargetKind::Username);
    let no_user = parse_tiktok_live_target("https://m.tiktok.com/live/room?x=1#y").expect("url");
    assert_eq!(no_user.username, None);
    assert_eq!(no_user.input, "https://m.tiktok.com/live/room");
}

#[test]
fn usernames_are_trimmed_and_checked() {
    assert_eq!(normalize_tiktok_username("  @@creator_1 ").as_deref(), Some("creator_1"));
    assert_eq!(normalize_tiktok_username("@a"), None);
    assert_eq!(normalize_tiktok_username(&"a".repeat(33)), None);
    assert_eq!(normalize_tiktok_username("bad name"), None);
    assert_eq!(tiktok_room_info_url("42"), "https://webcast.tiktok.com/webcast/room/info/?aid=1988&room_id=42");
}

#[test]
fn auto_reconnect_adds_bounded_ffmpeg_http_retries() {
    let mut enabled: Vec<String> = Vec::new();
    append_reconnect_args(&mut enabled, true);

    assert!(enabled.windows(2).any(|args| args == ["-reconnect", "1"]));
    assert!(enabled.windows(2).any(|args| args == ["-reconnect_max_retries", "20"]));
    assert!(enabled.windows(2).any(|args| args == ["-reconnect_delay_total_max", "120"]));
    assert!(enabled.windows(2).any(|args| args == ["-reconnect_on_http_error", "408,429,5xx"]));

    let mut disabled: Vec<String> = Vec::new();
    append_reconnect_args(&mut disabled, false);
    assert!(disabled.is_empty());
}

#[test]
fn sanitizes_recording_filename_parts() {
    assert_eq!(
        sanitize_filename_part("  TikTok <LIVE>: test?  ", "fallback"),
        "TikTok _LIVE__ test_"
    );
    assert_eq!(sanitize_filename_part("...", "fallback"), "fallback");
    assert_eq!(sanitize_filename_part(&"x".repeat(200), "fallback").chars().count(), 120);
}

#[test]
fn creates_ordered_segment_paths_and_escaped_concat_manifest() {
    let output = r"C:\Videos\creator's live.mp4";
    let first = segment_file_name_for_recording(output, 1);
    let second = segment_file_name_for_recording(output, 2);

    assert_eq!(first, "creator's live.part-001.mkv");
    assert_eq!(second, "creator's live.part-002.mkv");

    let manifest = ffconcat_content(&[first, second]);
    assert!(manifest.contains("creator'\\''s live.part-001.mkv"));
    assert!(manifest.contains("creator'\\''s live.part-002.mkv"));
    assert_eq!(manifest.lines().count(), 2);
}

#[test]
fn concat_manifest_uses_forward_slashes() {
    assert_eq!(
        ffconcat_content(&[r"C:\Videos\a.mkv".to_string(), "b.mkv".to_string()]),
        "file 'C:/Videos/a.mkv'\nfile 'b.mkv'\n"
    );
    assert_eq!(ffconcat_content(&[]), "\n");
}

#[test]
fn segment_names_and_stems() {
    assert_eq!(portable_stem_of_file_name(Some("dir/sub\\clip.final.mp4")), "clip.final");
    assert_eq!(portable_stem_of_file_name(Some(".hidden")), ".hidden");
    assert_eq!(portable_stem_of_file_name(None), "TikTok LIVE");
    assert_eq!(segment_file_name("clip", 1234), "clip.part-1234.mkv");
}

#[test]
fn media_extension_defaults_to_matroska() {
    assert_eq!(media_extension(r"C:\Videos\creator live.mkv"), "mkv");
    assert_eq!(media_extension(r"C:\Videos\creator live.mp4"), "mp4");
    assert_eq!(media_extension_from(Some("MP4")), "mp4");
    assert_eq!(media_extension_from(None), "mkv");
    assert_eq!(media_extension("noextension"), "mkv");
}

#[test]
fn recording_file_names_follow_the_template() {
    assert_eq!(
        recording_file_name("My Live", None, None, "20250101", "123456"),
        "My Live_20250101_123456.mp4"
    );
    assert_eq!(
        recording_file_name(
            "Title",
            Some("creator"),
            Some(" {username}-{date}-{time}.mp4 "),
            "20250101",
            "010203"
        ),
        "creator-20250101-010203.mp4"
    );
    assert_eq!(
        recording_file_name("Title", None, Some("{username}: {title}"), "d", "t"),
        "tiktok-live_ Title.mp4"
    );
}

#[test]
fn history_ids_titles_and_messages() {
    assert_eq!(persisted_history_id("job-1"), "tiktok-live:job-1");
    let target = parse_tiktok_live_target("@creator").unwrap();
    assert_eq!(initial_live_title(&target), "TikTok LIVE @creator");
    let room = parse_tiktok_live_target("123456").unwrap();
    assert_eq!(initial_live_title(&room), "TikTok LIVE");
    assert_eq!(
        recovery_error_message(),
        "TikTok Live recording stopped unexpectedly. Review Logs for details."
    );
}

#[test]
fn variants_are_ranked_by_quality_and_transport() {
    assert_eq!(quality_rank(Some("UHD_60")), 105);
    assert_eq!(quality_rank(Some("origin")), 100);
    assert_eq!(quality_rank(None), 0);
    assert_eq!(transport_rank(Some("http_flv"), None), 30);
    assert_eq!(transport_rank(Some("m3u8_native"), Some("mp4")), 20);
    assert_eq!(transport_rank(Some("lls"), None), 10);
    assert_eq!(transport_rank(Some("https"), None), 5);
    assert_eq!(transport_rank(None, Some("flv")), 30);
    assert_eq!(transport_rank(None, None), 0);
}

#[test]
fn treats_hls_filter_as_m3u8_protocol() {
    assert!(matches_transport(Some("m3u8_native"), Some("mp4"), Some("hls")));
    assert!(!matches_transport(Some("http_flv"), Some("flv"), Some("hls")));
    assert!(matches_transport(Some("http_flv"), Some("flv"), Some(" auto ")));
}

#[test]
fn quality_filters_accept_origin_for_uhd60() {
    assert!(matches_quality_filter(Some("uhd_60"), None, "x", Some("Origin")));
    assert!(matches_quality_filter(Some("hd"), None, "x", None));
    assert!(matches_quality_filter(None, Some("HD 720p"), "x", Some("hd")));
    assert!(!matches_quality_filter(Some("sd"), None, "low", Some("hd")));
}

#[test]
fn html_entities_for_quotes_and_ampersands_are_decoded() {
    assert_eq!(
        decode_basic_html_entities("&quot;a&#34;b&#x22;c&#X22;d&amp;quot;"),
        "\"a\"b\"c\"d&quot;"
    );
}

#[test]
fn keeps_recoverable_container_extension_when_mp4_finalization_fails() {
    let output = r"C:\Videos\creator live.mp4";
    let recoverable = recoverable_output_path_for_recording(output);

    assert_eq!(recoverable, r"C:\Videos\creator live.mkv");
    assert_eq!(media_extension(&recoverable), "mkv");
    assert_eq!(media_extension(output), "mp4");
}

#[test]
fn recordings_started_now_are_named_by_date_then_time() {
    let name = recording_file_name_now("My Live", None, None);
    let rest = name.strip_prefix("My Live_").expect("title first");
    let rest = rest.strip_suffix(".mp4").expect("mp4 name");
    let (date, time) = rest.split_once('_').expect("date and time");
    assert_eq!(date.len(), 8);
    assert_eq!(time.len(), 6);
    assert!(date.bytes().chain(time.bytes()).all(|b| b.is_ascii_digit()));
    let month: u32 = date[4..6].parse().unwrap();
    let day: u32 = date[6..8].parse().unwrap();
    let hour: u32 = time[0..2].parse().unwrap();
    assert!((1..=12).contains(&month) && (1..=31).contains(&day) && hour < 24);
}
