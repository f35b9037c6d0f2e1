use youwee::download::{
    check_thumbnail_length, check_thumbnail_url, referenced_thumbnail_cache_files,
    stale_thumbnail_cache_files, thumbnail_chunk_fits, REMOTE_THUMBNAIL_MAX_BYTES,
    apply_output_collision_suffix, build_auto_collection_names, build_chapter_output_template,
    build_download_error_message, build_item_prefix, build_output_collection_names,
    build_output_directory, build_output_template, build_youtube_extractor_args,
    display_title_for_download, download_cancelled_error, effective_source,
    escape_metadata_replacement, extract_time_range, facebook_reel_core_fallback_args,
    filepath_from_download_output, is_aria2_not_found_line, is_facebook_reel_fallback_stem,
    normalize_aria2_args, output_collision_suffix, output_filepaths, output_path_arg,
    parse_printed_filepaths, parse_split_chapter_filepaths, push_overwrite_args,
    push_recent_output, should_core_fallback_facebook_reel, should_delete_thumbnail_cache_file,
    thumbnail_file_extension, title_from_download_filename, CODE_ARIA2_NOT_FOUND,
    CODE_DOWNLOAD_CANCELLED, CODE_DOWNLOAD_FAILED, CODE_PROCESS_EXIT_NON_ZERO,
    REMOTE_THUMBNAIL_CACHE_MAX_AGE_NANOS, RECENT_OUTPUT_LIMIT,
};

#[test]
fn output_template_uses_safe_custom_filename_template() {
    assert_eq!(
        build_output_template(Some("%(uploader)s - %(title)s".to_string()), ""),
        "%(uploader)s - %(title)s.%(ext)s"
    );
    assert_eq!(
        build_output_template(Some("../escape/%(title)s.%(ext)s".to_string()), ""),
        "%(title)s.%(ext)s"
    );
    assert_eq!(
        build_output_template(Some("  ".to_string()), ""),
        "%(title)s.%(ext)s"
    );
    assert_eq!(output_path_arg("C:/Downloads/"), "home:C:/Downloads");
    assert_eq!(output_path_arg(r"C:\Downloads\"), r"home:C:\Downloads");
}

#[test]
fn explicit_duplicate_downloads_get_a_unique_output_suffix() {
    let suffix = output_collision_suffix(Some("unique"), "12345678-90ab").unwrap();
    assert_eq!(suffix.as_deref(), Some("copy-12345678"));
    assert_eq!(
        apply_output_collision_suffix("%(title)s.%(ext)s".to_string(), suffix.as_deref()),
        "%(title)s [copy-12345678].%(ext)s"
    );
    assert_eq!(output_collision_suffix(Some("overwrite"), "job").unwrap(), None);
    assert!(output_collision_suffix(Some("invalid"), "job").is_err());
}

#[test]
fn output_template_numbers_playlist_and_regular_queue_items() {
    let expanded_playlist_prefix =
        build_item_prefix(true, false, Some(3), Some(120), true, Some(7), Some(42));
    assert_eq!(expanded_playlist_prefix, "003 - ");

    let direct_playlist_prefix =
        build_item_prefix(true, true, None, Some(120), true, Some(7), Some(42));
    assert_eq!(direct_playlist_prefix, "%(playlist_index)03d - ");

    let regular_queue_prefix = build_item_prefix(true, false, None, None, true, Some(7), Some(42));
    assert_eq!(regular_queue_prefix, "07 - ");
    assert_eq!(
        build_output_template(Some("%(title)s.%(ext)s".to_string()), &regular_queue_prefix),
        "07 - %(title)s.%(ext)s"
    );
}

#[test]
fn auto_collection_names_are_default_off() {
    assert!(build_auto_collection_names(false, Some("Playlist")).is_empty());
}

#[test]
fn auto_collection_names_trim_empty_playlist_names() {
    assert!(build_auto_collection_names(true, Some("   ")).is_empty());
    assert_eq!(
        build_auto_collection_names(true, Some("  Playlist  ")),
        vec!["Playlist".to_string()]
    );
}

#[test]
fn chapter_template_uses_item_and_chapter_numbers() {
    assert_eq!(
        build_chapter_output_template("03 - ", true),
        "03 - %(section_number)02d - %(section_title)s.%(ext)s"
    );
    assert_eq!(build_chapter_output_template("", false), "%(section_title)s.%(ext)s");
}

#[test]
fn printed_filepaths_preserve_multiple_outputs() {
    let filepaths = parse_printed_filepaths(
        "C:/Downloads/Video.mp4\nC:/Downloads/01 - Intro.mp4\nC:/Downloads/01 - Intro.mp4\n",
    );

    assert_eq!(
        filepaths,
        vec![
            "C:/Downloads/Video.mp4".to_string(),
            "C:/Downloads/01 - Intro.mp4".to_string()
        ]
    );
}

#[test]
fn download_output_parser_finds_media_filepaths() {
    assert_eq!(
        filepath_from_download_output(
            r#"[Merger] Merging formats into "\\?\C:\Downloads\Long Folder\Video.mp4""#
        )
        .as_deref(),
        Some(r"\\?\C:\Downloads\Long Folder\Video.mp4")
    );
    assert_eq!(
        filepath_from_download_output(
            r"[download] Destination: \\?\C:\Downloads\Long Folder\Video.mp4"
        )
        .as_deref(),
        Some(r"\\?\C:\Downloads\Long Folder\Video.mp4")
    );
    assert_eq!(
        filepath_from_download_output(
            r"[download] Destination: \\?\C:\Downloads\Long Folder\Video.jpg"
        ),
        None
    );
}

#[test]
fn split_chapter_filepaths_are_parsed_from_ytdlp_output() {
    let lines = vec![
        "[SplitChapters] Chapter 001; Destination: C:/Downloads/01 - Intro.mp4".to_string(),
        "[SplitChapters] Chapter 002; Destination: C:/Downloads/02 - Setup.mp4".to_string(),
        "[info] Writing '%(filepath)s' to: C:/Downloads/paths.txt".to_string(),
    ];

    assert_eq!(
        parse_split_chapter_filepaths(&lines),
        vec![
            "C:/Downloads/01 - Intro.mp4".to_string(),
            "C:/Downloads/02 - Setup.mp4".to_string()
        ]
    );
}

#[test]
fn output_filepaths_merge_main_and_split_chapters() {
    assert_eq!(
        output_filepaths(
            &["C:/Downloads/Video.mp4".to_string()],
            &[
                "C:/Downloads/01 - Intro.mp4".to_string(),
                "C:/Downloads/02 - Setup.mp4".to_string()
            ],
            &None,
        ),
        vec![
            "C:/Downloads/Video.mp4".to_string(),
            "C:/Downloads/01 - Intro.mp4".to_string(),
            "C:/Downloads/02 - Setup.mp4".to_string()
        ]
    );
}

#[test]
fn split_collection_names_add_parent_when_enabled() {
    assert_eq!(
        build_output_collection_names(&[], true, true, Some("Video")),
        vec!["Video".to_string()]
    );
    assert_eq!(
        build_output_collection_names(&["Playlist".to_string()], true, true, Some("playlist")),
        vec!["Playlist".to_string()]
    );
    assert!(build_output_collection_names(&[], false, true, Some("Video")).is_empty());
}

#[test]
fn output_directory_can_be_grouped_by_source() {
    assert_eq!(
        build_output_directory("C:/Downloads", "https://www.youtube.com/watch?v=abc", Some(true)),
        "C:/Downloads/youtube"
    );
    assert_eq!(
        build_output_directory("C:/Downloads/", "https://fb.watch/demo", Some(true)),
        "C:/Downloads/facebook"
    );
    assert_eq!(
        build_output_directory("C:/Downloads", "https://example.com/video", Some(true)),
        "C:/Downloads/other"
    );
    assert_eq!(
        build_output_directory("C:/Downloads", "https://www.youtube.com/watch?v=abc", None),
        "C:/Downloads"
    );
}

#[test]
fn overwrite_args_preserve_default_and_allow_skip_existing() {
    let mut default_args: Vec<String> = Vec::new();
    push_overwrite_args(&mut default_args, None);
    assert_eq!(default_args, vec!["--force-overwrites"]);

    let mut skip_args: Vec<String> = Vec::new();
    push_overwrite_args(&mut skip_args, Some(true));
    assert_eq!(skip_args, vec!["--no-overwrites"]);
}

#[test]
fn cancelled_download_error_is_non_retryable() {
    let error = download_cancelled_error();

    assert_eq!(error.code, CODE_DOWNLOAD_CANCELLED);
    assert_eq!(error.message, "Download cancelled");
    assert_eq!(error.retryable, Some(false));
}

#[test]
fn youtube_extractor_args_merge_player_client_and_actual_js() {
    assert_eq!(
        build_youtube_extractor_args(true, Some("web_safari")).as_deref(),
        Some("youtube:player_client=web_safari,player_js_version=actual")
    );
    assert_eq!(
        build_youtube_extractor_args(false, Some("web_safari")).as_deref(),
        Some("youtube:player_client=web_safari")
    );
    assert_eq!(
        build_youtube_extractor_args(true, Some("auto")).as_deref(),
        Some("youtube:player_js_version=actual")
    );
    assert_eq!(build_youtube_extractor_args(false, Some("bad")), None);
}

#[test]
fn facebook_reel_core_fallback_is_scoped_to_parse_failures() {
    let lines = vec!["ERROR: [facebook] 1889836315019111: Cannot parse data".to_string()];

    assert!(should_core_fallback_facebook_reel(
        "https://www.facebook.com/reel/1889836315019111",
        &lines
    ));
    assert!(!should_core_fallback_facebook_reel(
        "https://www.facebook.com/watch?v=1889836315019111",
        &lines
    ));
    assert!(!should_core_fallback_facebook_reel(
        "https://www.facebook.com/reelsomething/1889836315019111",
        &lines
    ));
    assert!(!should_core_fallback_facebook_reel("https://www.youtube.com/watch?v=abc", &lines));
    assert!(!should_core_fallback_facebook_reel(
        "https://www.tiktok.com/@sample/video/123",
        &lines
    ));
    assert!(!should_core_fallback_facebook_reel(
        "https://www.instagram.com/reel/ABC123/",
        &lines
    ));
}

#[test]
fn facebook_reel_core_fallback_args_remove_cookies_and_aria2() {
    let args = vec![
        "--newline",
        "--cookies-from-browser",
        "firefox",
        "--downloader",
        "aria2c",
        "--downloader-args",
        "aria2c:-x 16",
        "--paths",
        "home:C:/Old",
        "-o",
        "%(title)s.%(ext)s",
        "--",
        "https://www.facebook.com/reel/1889836315019111",
    ]
    .into_iter()
    .map(String::from)
    .collect::<Vec<_>>();

    let fallback_args = facebook_reel_core_fallback_args(
        &args,
        "https://www.facebook.com/reel/1889836315019111",
        "C:/Downloads",
        "02 - ",
        None,
        None,
    );

    assert!(!fallback_args.iter().any(|arg| arg == "--cookies-from-browser"));
    assert!(!fallback_args.iter().any(|arg| arg == "firefox"));
    assert!(!fallback_args.iter().any(|arg| arg == "aria2c:-x 16"));
    assert_eq!(
        fallback_args
            .windows(2)
            .filter(|pair| pair[0] == "--downloader" && pair[1] == "native")
            .count(),
        1
    );
    assert_eq!(
        fallback_args
            .windows(2)
            .filter(|pair| pair[0] == "--impersonate" && pair[1] == "chrome")
            .count(),
        1
    );
    let separator = fallback_args.iter().position(|arg| arg == "--").unwrap();
    let impersonate = fallback_args.iter().position(|arg| arg == "--impersonate").unwrap();
    assert!(impersonate < separator);
    let output = fallback_args
        .windows(2)
        .find(|pair| pair[0] == "-o")
        .map(|pair| pair[1].as_str())
        .unwrap();
    assert_eq!(output, "02 - facebook-com-reel-1889836315019111.%(ext)s");
    let output_path = fallback_args
        .windows(2)
        .find(|pair| pair[0] == "--paths")
        .map(|pair| pair[1].as_str())
        .unwrap();
    assert_eq!(output_path, "home:C:/Downloads");
}

#[test]
fn effective_source_normalizes_placeholder_sources_for_known_platforms() {
    for (url, source) in [
        ("https://www.facebook.com/reel/1889836315019111", "facebook"),
        ("https://www.tiktok.com/@sample/video/123", "tiktok"),
        ("https://www.instagram.com/reel/ABC123/", "instagram"),
    ] {
        for placeholder in ["direct", "other"] {
            assert_eq!(
                effective_source(&Some(placeholder.to_string()), url).as_deref(),
                Some(source),
                "{placeholder} should normalize {url}",
            );
        }
    }
}

#[test]
fn recognizes_supported_thumbnail_content_types() {
    assert_eq!(thumbnail_file_extension("image/jpeg"), Some("jpg"));
    assert_eq!(thumbnail_file_extension("image/webp; charset=binary"), Some("webp"));
    assert_eq!(thumbnail_file_extension("text/html"), None);
}

#[test]
fn stale_thumbnail_cleanup_only_targets_old_unreferenced_cache_files() {
    let second: u128 = 1_000_000_000;
    let now = REMOTE_THUMBNAIL_CACHE_MAX_AGE_NANOS + second;
    let old: u128 = 0;
    let recent = now - 60 * second;
    let referenced_files = vec!["1111111111111111.jpg".to_string()];

    assert!(!should_delete_thumbnail_cache_file(
        "1111111111111111.jpg",
        old,
        now,
        &referenced_files
    ));
    assert!(!should_delete_thumbnail_cache_file(
        "2222222222222222.jpg",
        recent,
        now,
        &referenced_files
    ));
    assert!(should_delete_thumbnail_cache_file(
        "2222222222222222.jpg",
        old,
        now,
        &referenced_files
    ));
    assert!(!should_delete_thumbnail_cache_file("notes.txt", old, now, &referenced_files));
}

#[test]
fn detects_facebook_reel_fallback_stem() {
    assert!(is_facebook_reel_fallback_stem(
        "facebook-com-reel-1889836315019111.f1428297389333728a"
    ));
    assert!(!is_facebook_reel_fallback_stem("Video"));
}

#[test]
fn download_filename_does_not_overwrite_recovered_facebook_reel_title() {
    let title = title_from_download_filename(
        Some("Recovered Facebook title".to_string()),
        "facebook-com-reel-1889836315019111.f1428297389333728a.mp4",
    );

    assert_eq!(title.as_deref(), Some("Recovered Facebook title"));
}

#[test]
fn download_filename_still_sets_normal_titles() {
    let title = title_from_download_filename(None, "Video.mp4");

    assert_eq!(title.as_deref(), Some("Video"));
}

#[test]
fn single_download_display_title_keeps_unicode_metadata_title() {
    let title = display_title_for_download(
        Some("Machiot - Đổi Nhạc Nền Vol. 2".to_string()),
        Some("Machiot - i Nhc Nn Vol. 2".to_string()),
        &None,
        None,
    );

    assert_eq!(title.as_deref(), Some("Machiot - Đổi Nhạc Nền Vol. 2"));
}

#[test]
fn single_download_display_title_prefers_utf8_filepath_over_stdout_title() {
    let filepath = Some("Machiot - Đổi Nhạc Nền Vol. 2.mp4".to_string());
    let title = display_title_for_download(
        None,
        Some("Machiot - i Nhc Nn Vol. 2".to_string()),
        &filepath,
        None,
    );

    assert_eq!(title.as_deref(), Some("Machiot - Đổi Nhạc Nền Vol. 2"));
}

#[test]
fn playlist_display_title_keeps_current_item_title() {
    let filepath = Some("Playlist name.mp4".to_string());
    let title = display_title_for_download(
        Some("Playlist name".to_string()),
        Some("Video item title".to_string()),
        &filepath,
        Some(3),
    );

    assert_eq!(title.as_deref(), Some("Video item title"));
}

#[test]
fn recent_output_keeps_only_the_newest_lines() {
    let mut buffer = std::collections::VecDeque::new();
    for index in 0..(RECENT_OUTPUT_LIMIT + 5) {
        push_recent_output(&mut buffer, &format!("line {index}"));
    }
    push_recent_output(&mut buffer, "   ");
    assert_eq!(buffer.len(), RECENT_OUTPUT_LIMIT);
    assert_eq!(buffer.front().map(String::as_str), Some("line 5"));
    assert_eq!(
        buffer.back().map(String::as_str),
        Some(format!("line {}", RECENT_OUTPUT_LIMIT + 4).as_str())
    );
}

#[test]
fn time_range_is_taken_from_download_sections() {
    assert_eq!(extract_time_range(&Some("*00:01:00-00:02:30".to_string())).as_deref(), Some("00:01:00-00:02:30"));
    assert_eq!(extract_time_range(&None), None);
}

#[test]
fn metadata_replacement_escapes_backslashes_and_dollars() {
    assert_eq!(escape_metadata_replacement(r"a\b$c"), r"a\\b\$c");
}

#[test]
fn aria2_errors_are_recognized_and_args_trimmed() {
    assert!(is_aria2_not_found_line("ERROR: aria2c not found. Please install"));
    assert!(!is_aria2_not_found_line("[download] 10%"));
    assert_eq!(normalize_aria2_args("   "), None);
    assert_eq!(normalize_aria2_args("  -x 16 ").as_deref(), Some("aria2c:-x 16"));
    assert_eq!(normalize_aria2_args("aria2:  -s 4").as_deref(), Some("aria2c:-s 4"));
    assert_eq!(normalize_aria2_args("aria2c:   "), None);
}

#[test]
fn download_errors_carry_a_code_for_each_failure() {
    let aria = build_download_error_message(Some(1), &["ERROR: aria2c not found".to_string()]);
    assert_eq!(aria.code, CODE_ARIA2_NOT_FOUND);
    let exit = build_download_error_message(Some(15), &["ERROR: interrupted".to_string()]);
    assert_eq!(exit.code, CODE_PROCESS_EXIT_NON_ZERO);
    assert_eq!(exit.exit_code, Some(15));
    assert_eq!(exit.message, "Download failed (exit code 15): ERROR: interrupted");
    let failed = build_download_error_message(None, &[]);
    assert_eq!(failed.code, CODE_DOWNLOAD_FAILED);
    assert_eq!(failed.message, "Download failed: Unknown error");
}

#[test]
fn process_exit_errors_include_exit_code_param() {
    let error = build_download_error_message(Some(15), &["ERROR: interrupted".to_string()]);

    assert_eq!(error.code, CODE_PROCESS_EXIT_NON_ZERO);
    assert_eq!(error.exit_code, Some(15));
}

#[test]
fn thumbnail_cache_checks_and_cleanup() {
    assert_eq!(check_thumbnail_url("https://i.ytimg.com/a.jpg"), Ok(()));
    assert_eq!(check_thumbnail_url("ftp://host/a.jpg").unwrap_err(), "Thumbnail URL must use HTTP or HTTPS");
    assert_eq!(check_thumbnail_url("not a url").unwrap_err(), "Invalid thumbnail URL");
    assert_eq!(check_thumbnail_length(Some(REMOTE_THUMBNAIL_MAX_BYTES as u64 + 1)).unwrap_err(), "Thumbnail is too large");
    assert_eq!(check_thumbnail_length(None), Ok(()));
    assert!(thumbnail_chunk_fits(REMOTE_THUMBNAIL_MAX_BYTES - 1, 1));
    assert!(!thumbnail_chunk_fits(REMOTE_THUMBNAIL_MAX_BYTES, 1));

    let names = vec!["0123456789abcdef.jpg".to_string(), "fedcba9876543210.png".to_string()];
    let values = vec!["C:/cache/0123456789abcdef.jpg".to_string(), "[]".to_string()];
    assert_eq!(referenced_thumbnail_cache_files(&names, &values), vec!["0123456789abcdef.jpg".to_string()]);

    let day: u128 = 86_400_000_000_000;
    let now = 100 * day;
    let files = vec![
        ("0123456789abcdef.jpg".to_string(), now - 40 * day),
        ("fedcba9876543210.png".to_string(), now - 40 * day),
        ("aaaaaaaaaaaaaaaa.gif".to_string(), now - day),
        ("notes.txt".to_string(), 0),
    ];
    assert_eq!(stale_thumbnail_cache_files(&files, &["0123456789abcdef.jpg".to_string()], now), vec!["fedcba9876543210.png".to_string()]);
}

#[test]
fn windows_output_template_limits_plain_titles_for_intermediate_files() {
    let title_limit = 180;
    let template = youwee::download::constrain_title_template_for_output(
        youwee::download::build_output_template(Some(youwee::download::DEFAULT_FILENAME_TEMPLATE.to_string()), ""),
        youwee::platform::TargetOs::Windows,
        title_limit,
    );
    let explicit_precision = youwee::download::constrain_title_template_for_output(
        "%(title).120B.%(ext)s".to_string(),
        youwee::platform::TargetOs::Windows,
        title_limit,
    );
    assert_eq!(template, "%(title).180B.%(ext)s");
    assert_eq!(explicit_precision, "%(title).120B.%(ext)s");

    let elsewhere = youwee::download::constrain_title_template_for_output(
        youwee::download::build_output_template(Some(youwee::download::DEFAULT_FILENAME_TEMPLATE.to_string()), ""),
        youwee::platform::TargetOs::Linux,
        title_limit,
    );
    assert_eq!(elsewhere, youwee::download::DEFAULT_FILENAME_TEMPLATE);
}

#[test]
fn refused_collision_policy_refuses_the_download_before_templates() {
    let refused = youwee::download::download_output_templates(
        None,
        "",
        Some("bogus"),
        "job-1",
        youwee::platform::TargetOs::Linux,
        180,
        true,
        true,
    );
    assert!(refused.expect_err("refused").contains("Unsupported output collision policy: bogus"));
    let (template, chapters) = youwee::download::download_output_templates(
        None,
        "",
        None,
        "job-1",
        youwee::platform::TargetOs::Linux,
        180,
        false,
        true,
    )
    .expect("templates");
    assert_eq!(template, youwee::download::DEFAULT_FILENAME_TEMPLATE);
    assert_eq!(chapters, None);
    let (windows, chapters) = youwee::download::download_output_templates(
        None,
        "",
        None,
        "job-1",
        youwee::platform::TargetOs::Windows,
        180,
        true,
        true,
    )
    .expect("templates");
    assert_eq!(windows, "%(title).180B.%(ext)s");
    assert!(chapters.is_some());
}
