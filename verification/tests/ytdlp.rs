use youwee::download::{facebook_reel_core_fallback_args, push_facebook_title_replacement_args};
use youwee::json::{JsonMember, JsonValue};
use youwee::ytdlp::{completed_thumbnail, plan_history_writes, wants_generated_thumbnail,core_metadata_probe_args, metadata_from_info_json, recovered_metadata,
    build_live_status_args, live_status_from_output, build_ytdlp_args, metadata_title, playlist_position_from_captures, quality_display,
    DownloadOutputState, YtdlpArgOptions, download_arg_options, DownloadEnvironment, DownloadRequest,
};

fn options(url: &str) -> YtdlpArgOptions {
    YtdlpArgOptions {
        format_string: "bv*+ba/b".to_string(),
        output_directory: "/tmp/out/".to_string(),
        output_template: "%(title)s.%(ext)s".to_string(),
        filepath_file: "/tmp/youwee-fp-1.txt".to_string(),
        chapter_template: None,
        url: url.to_string(),
        deno_path: None,
        use_actual_player_js: false,
        youtube_player_client: None,
        ffmpeg_dir: None,
        subtitle_mode: "off".to_string(),
        subtitle_langs: "en".to_string(),
        subtitle_format: "srt".to_string(),
        subtitle_embed: false,
        site_header_args: vec![],
        cookie_args: vec![],
        proxy_url: None,
        live_from_start: false,
        speed_limit: None,
        use_aria2: false,
        aria2_args: None,
        skip_existing: None,
        filename_safety_args: vec![],
        download_playlist: false,
        playlist_limit: None,
        format: "mp4".to_string(),
        quality: "1080".to_string(),
        audio_bitrate: "auto".to_string(),
        embed_metadata: false,
        embed_thumbnail: false,
        sponsorblock_remove: None,
        sponsorblock_mark: None,
        download_sections: None,
        title: None,
    }
}

fn s(v: &[&str]) -> Vec<String> {
    v.iter().map(|x| x.to_string()).collect()
}

const BASE: [&str; 22] = [
    "--newline",
    "--progress",
    "--no-warnings",
    "-f",
    "bv*+ba/b",
    "--paths",
    "home:/tmp/out",
    "-o",
    "%(title)s.%(ext)s",
    "--print-to-file",
    "after_move:filepath",
    "/tmp/youwee-fp-1.txt",
    "--no-keep-video",
    "--no-keep-fragments",
    "--retries",
    "3",
    "--fragment-retries",
    "3",
    "--extractor-retries",
    "2",
    "--file-access-retries",
    "2",
];

#[test]
fn plain_video_download_args() {
    let mut expected = s(&BASE);
    expected.extend(s(&["--force-overwrites", "--no-playlist", "--merge-output-format", "mp4", "--", "https://example.com/v"]));
    assert_eq!(build_ytdlp_args(&options("https://example.com/v")), expected);
}

#[test]
fn full_audio_download_args() {
    let mut o = options("https://www.youtube.com/watch?v=abc");
    o.chapter_template = Some("%(section_title)s.%(ext)s".to_string());
    o.deno_path = Some("/usr/bin/deno".to_string());
    o.use_actual_player_js = true;
    o.youtube_player_client = Some("web".to_string());
    o.ffmpeg_dir = Some("/opt/ff".to_string());
    o.subtitle_mode = "auto".to_string();
    o.subtitle_embed = true;
    o.site_header_args = s(&["--add-header", "Referer:x"]);
    o.cookie_args = s(&["--cookies", "c.txt"]);
    o.proxy_url = Some(String::new());
    o.live_from_start = true;
    o.speed_limit = Some("1M".to_string());
    o.use_aria2 = true;
    o.aria2_args = Some("  ".to_string());
    o.skip_existing = Some(true);
    o.filename_safety_args = s(&["--restrict-filenames"]);
    o.download_playlist = true;
    o.playlist_limit = Some(12);
    o.format = "opus".to_string();
    o.audio_bitrate = "128".to_string();
    o.embed_metadata = true;
    o.embed_thumbnail = true;
    o.sponsorblock_remove = Some("sponsor".to_string());
    o.sponsorblock_mark = Some(String::new());
    o.download_sections = Some("*0:10-0:20".to_string());
    let mut expected = s(&BASE);
    expected.extend(s(&[
        "--split-chapters",
        "-o",
        "chapter:%(section_title)s.%(ext)s",
        "--js-runtimes",
        "deno:/usr/bin/deno",
        "--extractor-args",
        "youtube:player_client=web,player_js_version=actual",
        "--ffmpeg-location",
        "/opt/ff",
        "--write-subs",
        "--write-auto-subs",
        "--sub-langs",
        "all",
        "--sub-format",
        "srt",
        "--embed-subs",
        "--add-header",
        "Referer:x",
        "--cookies",
        "c.txt",
        "--live-from-start",
        "--no-part",
        "--limit-rate",
        "1M",
        "--downloader",
        "aria2c",
        "--no-overwrites",
        "--restrict-filenames",
        "--playlist-end",
        "12",
        "-x",
        "--audio-format",
        "opus",
        "--audio-quality",
        "128K",
        "--embed-metadata",
        "--embed-thumbnail",
        "--convert-thumbnails",
        "jpg",
        "--sponsorblock-remove",
        "sponsor",
        "--download-sections",
        "*0:10-0:20",
        "--",
        "https://www.youtube.com/watch?v=abc",
    ]));
    assert_eq!(build_ytdlp_args(&o), expected);
}

#[test]
fn audio_quality_falls_back_to_mp3() {
    let mut o = options("https://example.com/a");
    o.quality = "audio".to_string();
    o.subtitle_mode = "manual".to_string();
    let args = build_ytdlp_args(&o);
    let tail: Vec<&str> = args[22..].iter().map(|x| x.as_str()).collect();
    assert_eq!(
        tail,
        vec![
            "--write-subs", "--sub-langs", "en", "--sub-format", "srt", "--force-overwrites",
            "--no-playlist", "-x", "--audio-format", "mp3", "--audio-quality", "0", "--",
            "https://example.com/a"
        ]
    );
}

#[test]
fn quality_labels_and_interface_titles() {
    assert_eq!(quality_display("1080"), Some("1080p".to_string()));
    assert_eq!(quality_display("audio"), Some("Audio".to_string()));
    assert_eq!(quality_display("144"), None);
    assert_eq!(metadata_title(Some("https://x".to_string())), None);
    assert_eq!(metadata_title(Some("Song".to_string())), Some("Song".to_string()));
}

#[test]
fn output_lines_set_title_and_final_path() {
    let mut state = DownloadOutputState::new(Some("http://placeholder".to_string()));
    assert_eq!(state.current_title, None);
    state.observe_stdout_line("[download] Destination: /tmp/out/My Song.webm");
    assert_eq!(state.current_title, Some("My Song".to_string()));
    assert_eq!(state.final_filepath, Some("/tmp/out/My Song.webm".to_string()));
    state.observe_stdout_line("[ExtractAudio] Destination: /tmp/out/My Song.mp3");
    assert_eq!(state.final_filepath, Some("/tmp/out/My Song.mp3".to_string()));
    state.observe_stdout_line("  /tmp/out/Final.mp4  ");
    assert_eq!(state.final_filepath, Some("/tmp/out/Final.mp4".to_string()));
    state.observe_stdout_line("[info] nothing");
    assert_eq!(state.final_filepath, Some("/tmp/out/Final.mp4".to_string()));

    state.observe_stderr_line("C:\\out\\clip.mkv");
    assert_eq!(state.stderr_filepath, Some("C:\\out\\clip.mkv".to_string()));
    assert_eq!(state.final_filepath, Some("/tmp/out/Final.mp4".to_string()));
}

#[test]
fn sidecar_lines_track_playlist_items() {
    let mut state = DownloadOutputState::new(None);
    state.observe_sidecar_stdout_line("[download] Downloading item 3 of 12");
    assert_eq!((state.current_index, state.total_count), (Some(3), Some(12)));
    state.observe_sidecar_stdout_line("WARNING: /tmp/out/a.mp4");
    assert_eq!(state.final_filepath, None);
    state.observe_sidecar_stdout_line("[download] Destination: C:\\out\\Clip.mp4");
    assert_eq!(state.current_title, Some("Clip".to_string()));
    assert_eq!(state.final_filepath, Some("C:\\out\\Clip.mp4".to_string()));
    state.observe_sidecar_stderr_line("[Merger] Merging formats into \"/tmp/out/m.mkv\"");
    assert_eq!(state.final_filepath, Some("/tmp/out/m.mkv".to_string()));
    assert_eq!(
        playlist_position_from_captures(Some(("7".to_string(), "99999999999".to_string())), None, Some(2)),
        (Some(7), None)
    );
    assert_eq!(playlist_position_from_captures(None, Some(1), Some(2)), (Some(1), Some(2)));
    state.record_progress_position(None, Some(20));
    assert_eq!((state.current_index, state.total_count), (Some(3), Some(20)));
}

#[test]
fn stream_sizes_count_each_stream_once() {
    let mut state = DownloadOutputState::new(None);
    assert_eq!(state.reported_filesize(None), None);
    for size in [100u64, 100, 100, 50, 50, 100] {
        state.record_stream_size(size);
    }
    assert_eq!(state.total_filesize, 150);
    assert_eq!(state.current_stream_size, Some(100));
    assert_eq!(state.reported_filesize(None), Some(250));
    assert_eq!(state.reported_filesize(Some(7)), Some(7));
}

#[test]
fn final_path_settles_on_printed_then_stderr() {
    let mut state = DownloadOutputState::new(None);
    state.observe_stderr_line("/tmp/x.mp3");
    state.settle_final_filepath(&[]);
    assert_eq!(state.final_filepath, Some("/tmp/x.mp3".to_string()));
    state.settle_final_filepath(&["/tmp/p.mp4".to_string()]);
    assert_eq!(state.final_filepath, Some("/tmp/p.mp4".to_string()));
}

#[test]
fn live_status_check_args_and_results() {
    let args = build_live_status_args("https://youtu.be/x", Some("/d/deno"), vec!["--proxy".to_string(), "p".to_string()]);
    assert_eq!(
        args,
        s(&[
            "--print", "live_status", "--output-na-placeholder", "not_live", "--no-warnings",
            "--no-playlist", "--socket-timeout", "15", "--js-runtimes", "deno:/d/deno", "--proxy", "p",
            "--", "https://youtu.be/x"
        ])
    );
    assert_eq!(build_live_status_args("https://vimeo.com/1", Some("/d/deno"), vec![]).len(), 10);
    assert_eq!(live_status_from_output(true, "x\n is_live \n", "", false), Ok(Some("is_live".to_string())));
    assert_eq!(live_status_from_output(true, "not_live\n", "", false), Ok(None));
    assert_eq!(live_status_from_output(true, "", "", false), Ok(None));
    assert_eq!(live_status_from_output(false, "", " boom ", false), Err("Failed to check live status before download: boom".to_string()));
    assert_eq!(live_status_from_output(false, "", "  ", false), Err("Failed to check live status before download.".to_string()));
    assert_eq!(live_status_from_output(false, "", "later", true), Ok(Some("is_upcoming".to_string())));
}

fn obj(members: Vec<(&str, JsonValue)>) -> JsonValue {
    JsonValue::Object(members.into_iter().map(|(key, value)| JsonMember { key: key.to_string(), value }).collect())
}

fn text(v: &str) -> JsonValue {
    JsonValue::Text(v.to_string())
}

#[test]
fn facebook_reel_recovered_title_is_reused_for_metadata_and_core_output() {
    let mut args = vec![
        "-o".to_string(),
        "%(title)s.%(ext)s".to_string(),
        "--".to_string(),
        "https://www.facebook.com/reel/123".to_string(),
    ];
    push_facebook_title_replacement_args(&mut args, "https://www.facebook.com/reel/123", Some("Tiêu đề thật $5"));
    let replacement = args
        .windows(4)
        .find(|window| window[0] == "--replace-in-metadata")
        .expect("metadata replacement args");
    assert_eq!(replacement[1], "title");
    let title_pattern = regex::Regex::new(&replacement[2]).expect("valid title pattern");
    assert!(title_pattern.is_match("Video"));
    assert!(title_pattern.is_match("4 comments | Tool Text-to-Speech ElevenLabs cho ae làm content"));
    assert!(!title_pattern.is_match("Một tiêu đề thật"));
    assert_eq!(replacement[3], "Tiêu đề thật \\$5");

    let fallback_args = facebook_reel_core_fallback_args(
        &args,
        "https://www.facebook.com/reel/123",
        "C:/Downloads",
        "",
        Some("Tiêu đề thật $5"),
        Some("copy-12345678"),
    );
    let output = fallback_args.windows(2).find(|pair| pair[0] == "-o").map(|pair| pair[1].as_str()).unwrap();
    assert_eq!(output, "%(title)s.%(ext)s");
}

#[test]
fn core_fallback_metadata_prefers_title_and_best_thumbnail() {
    let json = obj(vec![
        ("thumbnails", JsonValue::Array(vec![
            obj(vec![("url", text("http://example.com/small.jpg"))]),
            obj(vec![("url", text("https://example.com/large.jpg"))]),
        ])),
        ("title", text("Public Reel Title")),
    ]);

    let metadata = metadata_from_info_json(&json);

    assert_eq!(metadata.title.as_deref(), Some("Public Reel Title"));
    assert_eq!(metadata.thumbnail.as_deref(), Some("https://example.com/large.jpg"));
}

#[test]
fn core_fallback_metadata_normalizes_top_level_thumbnail() {
    let json = obj(vec![("thumbnail", text("http://example.com/thumb.jpg")), ("title", text("Public Reel Title"))]);

    let metadata = metadata_from_info_json(&json);

    assert_eq!(metadata.thumbnail.as_deref(), Some("https://example.com/thumb.jpg"));
}

#[test]
fn core_fallback_metadata_does_not_replace_recovered_title_with_placeholder() {
    let json = obj(vec![("thumbnail", text("https://example.com/thumb.jpg")), ("title", text("Video"))]);

    let metadata = metadata_from_info_json(&json);

    assert_eq!(metadata.title, None);
    assert_eq!(metadata.thumbnail.as_deref(), Some("https://example.com/thumb.jpg"));
}

#[test]
fn metadata_probe_args_and_empty_results() {
    assert_eq!(core_metadata_probe_args("u")[9], "u");
    assert_eq!(core_metadata_probe_args("u")[7], "chrome");
    assert!(recovered_metadata(&obj(vec![("title", text("  "))])).is_none());
    let thumbs = obj(vec![("thumbnails", JsonValue::Array(vec![obj(vec![("url", text("a"))]), obj(vec![("width", JsonValue::Number("1".to_string()))])]))]);
    assert_eq!(recovered_metadata(&thumbs).unwrap().thumbnail.as_deref(), Some("a"));
}

#[test]
fn history_writes_update_the_queued_entry_then_add_the_others() {
    let paths = vec!["/o/Song.mp3".to_string(), "/o/02 - Chapter.mp3".to_string()];
    let writes = plan_history_writes(
        &paths,
        &[None, Some(50)],
        &[Some("Song".to_string()), Some("02 - Chapter".to_string())],
        Some("hist-1"),
        "https://www.youtube.com/watch?v=abc",
        &Some("Display".to_string()),
        &None,
        &None,
        &Some("Audio".to_string()),
        "mp3",
        Some(1000),
        &Some("*1:00-2:00".to_string()),
    );
    assert_eq!(writes.len(), 2);
    assert_eq!(writes[0].update_id.as_deref(), Some("hist-1"));
    assert_eq!(writes[0].filesize, Some(1000));
    assert_eq!(writes[0].thumbnail, None);
    assert_eq!(writes[0].time_range.as_deref(), Some("1:00-2:00"));
    assert_eq!(writes[1].update_id, None);
    assert_eq!(writes[1].title, "02 - Chapter");
    assert_eq!(writes[1].filesize, Some(50));
    assert_eq!(writes[1].thumbnail.as_deref(), Some("https://i.ytimg.com/vi/abc/mqdefault.jpg"));
    assert_eq!(writes[1].source.as_deref(), Some("youtube"));

    let fresh = plan_history_writes(&paths[..1], &[None], &[None], None, "https://example.com/v", &None, &None, &None, &None, "mp4", None, &None);
    assert_eq!(fresh[0].update_id, None);
    assert_eq!(fresh[0].title, "Unknown");
    assert_eq!(fresh[0].filesize, None);
}

#[test]
fn completed_thumbnails_fall_back_to_the_url() {
    assert_eq!(completed_thumbnail(Some("t".to_string()), "https://youtu.be/abc"), Some("t".to_string()));
    assert_eq!(completed_thumbnail(Some(" ".to_string()), "https://example.com"), None);
    assert!(wants_generated_thumbnail(&None, "https://www.facebook.com/reel/123", true));
    assert!(!wants_generated_thumbnail(&None, "https://www.facebook.com/reel/123", false));
    assert!(!wants_generated_thumbnail(&Some("x".to_string()), "https://www.facebook.com/reel/123", true));
}

fn sample_request(policy: Option<&str>) -> DownloadRequest {
    DownloadRequest {
        id: "12345678-90ab".to_string(),
        url: "https://www.youtube.com/watch?v=abc".to_string(),
        output_path: "/downloads/".to_string(),
        filename_template: None,
        organize_by_source: Some(true),
        quality: "1080".to_string(),
        format: "mp4".to_string(),
        video_codec: "auto".to_string(),
        preferred_fps: Some("60".to_string()),
        download_playlist: true,
        playlist_index: Some(3),
        playlist_total: Some(12),
        number_playlist_items: Some(true),
        queue_index: None,
        queue_total: None,
        number_queue_items: None,
        split_embedded_chapters: Some(true),
        number_chapter_files: None,
        output_collision_policy: policy.map(str::to_string),
        audio_bitrate: "auto".to_string(),
        playlist_limit: None,
        subtitle_mode: "off".to_string(),
        subtitle_langs: String::new(),
        subtitle_embed: false,
        subtitle_format: "srt".to_string(),
        use_actual_player_js: None,
        youtube_player_client: None,
        embed_metadata: Some(true),
        embed_thumbnail: None,
        proxy_url: None,
        live_from_start: None,
        speed_limit: None,
        use_aria2: None,
        aria2_args: None,
        skip_existing: None,
        sponsorblock_remove: None,
        sponsorblock_mark: None,
        download_sections: None,
        title: None,
    }
}

fn sample_environment() -> DownloadEnvironment {
    DownloadEnvironment {
        os: youwee::platform::TargetOs::Linux,
        title_limit: 200,
        filepath_file: "/tmp/youwee-fp-12345678-90ab.txt".to_string(),
        deno_path: None,
        ffmpeg_dir: Some("/usr/bin".to_string()),
        site_header_args: Vec::new(),
        cookie_args: Vec::new(),
        filename_safety_args: Vec::new(),
    }
}

#[test]
fn download_requests_compose_their_command_line_options() {
    let o = download_arg_options(sample_request(Some("unique")), sample_environment())
        .expect("a known policy");
    assert_eq!(
        o.format_string,
        "bestvideo[height<=1080][ext=mp4]+bestaudio[ext=m4a]/bestvideo[height<=1080]+bestaudio/best[height<=1080]/best"
    );
    assert_eq!(o.output_directory, "/downloads/youtube");
    assert_eq!(o.output_template, "03 - %(title)s [copy-12345678].%(ext)s");
    assert_eq!(
        o.chapter_template.as_deref(),
        Some("03 - %(section_number)02d - %(section_title)s [copy-12345678].%(ext)s")
    );
    assert!(o.embed_metadata && !o.embed_thumbnail && !o.use_aria2);
    assert_eq!(o.ffmpeg_dir.as_deref(), Some("/usr/bin"));
    assert!(download_arg_options(sample_request(Some("sideways")), sample_environment()).is_err());
}
