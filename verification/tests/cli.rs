use youwee::cli::{
    build_cli_download_request, build_cli_download_request_from_argv,
    enqueue_cli_download_requests, is_private_or_local_host, parse_cli_args_from_argv,
    take_pending_cli_download_requests, CliDownloadArgs, CliDownloadRequest,
};

#[test]
fn cli_request_preserves_url_without_deep_link_encoding() {
    let args = CliDownloadArgs {
        url: Some("https://www.youtube.com/watch?v=abc123&list=PL1#t=30".to_string()),
        quality: Some("720".to_string()),
        ..Default::default()
    };

    let request = build_cli_download_request(&args).expect("expected CLI request");

    assert_eq!(
        request.url,
        "https://www.youtube.com/watch?v=abc123&list=PL1#t=30"
    );
    assert_eq!(request.quality, "720");
    assert_eq!(request.action, "download_now");
    assert_eq!(request.media, "video");
    assert_eq!(request.target, "auto");
    assert!(request.trusted_local);
}

#[test]
fn cli_request_rejects_non_http_urls() {
    let args = CliDownloadArgs {
        url: Some("file:///tmp/video.mp4".to_string()),
        ..Default::default()
    };

    assert!(build_cli_download_request(&args).is_none());
}

#[test]
fn cli_request_rejects_private_urls() {
    let args = CliDownloadArgs {
        url: Some("http://localhost:8080/video".to_string()),
        ..Default::default()
    };

    assert!(build_cli_download_request(&args).is_none());
}

#[test]
fn raw_argv_supports_positional_url_and_flags() {
    let argv = vec![
        "youwee".to_string(),
        "https://example.com/video".to_string(),
        "--quality=480".to_string(),
        "--queue-only".to_string(),
        "--target".to_string(),
        "universal".to_string(),
    ];

    let request = build_cli_download_request_from_argv(&argv).expect("expected CLI request");

    assert_eq!(request.url, "https://example.com/video");
    assert_eq!(request.quality, "480");
    assert_eq!(request.action, "queue_only");
    assert_eq!(request.target, "universal");
}

#[test]
fn cli_request_falls_back_for_unsupported_values() {
    let args = CliDownloadArgs {
        url: Some("https://example.com/video".to_string()),
        quality: Some("999".to_string()),
        target: Some("desktop".to_string()),
        ..Default::default()
    };

    let request = build_cli_download_request(&args).expect("expected CLI request");

    assert_eq!(request.quality, "best");
    assert_eq!(request.target, "auto");
}

#[test]
fn private_hosts_cover_loopback_ranges_and_local_names() {
    assert!(is_private_or_local_host("localhost"));
    assert!(is_private_or_local_host("  [::1] "));
    assert!(is_private_or_local_host("172.16.0.1"));
    assert!(is_private_or_local_host("172.31.255.255"));
    assert!(!is_private_or_local_host("172.32.0.1"));
    assert!(!is_private_or_local_host("172.15.0.1"));
    assert!(is_private_or_local_host("printer.LOCAL"));
    assert!(is_private_or_local_host("fe80::1"));
    assert!(is_private_or_local_host(""));
    assert!(!is_private_or_local_host("example.com"));
    assert!(!is_private_or_local_host("2606:4700::1111"));
}

#[test]
fn quoted_cli_urls_are_unquoted_and_audio_quality_is_normalised() {
    let args = CliDownloadArgs {
        url: Some("  \"https://example.com/a\"  ".to_string()),
        quality: Some(" AUTO ".to_string()),
        audio: true,
        ..Default::default()
    };
    let request = build_cli_download_request(&args).expect("expected CLI request");
    assert_eq!(request.url, "https://example.com/a");
    assert_eq!(request.media, "audio");
    assert_eq!(request.quality, "auto");
}

#[test]
fn argv_flag_forms_and_positional_urls() {
    let argv: Vec<String> = ["youwee", "-u", "https://a.example/x", "https://b.example/y", "-a", "-t", "YouTube"]
        .iter()
        .map(|s| s.to_string())
        .collect();
    let args = parse_cli_args_from_argv(&argv);
    assert_eq!(args.url.as_deref(), Some("https://a.example/x"));
    assert!(args.audio);
    assert_eq!(args.target.as_deref(), Some("YouTube"));
    let dangling: Vec<String> = ["youwee", "--url"].iter().map(|s| s.to_string()).collect();
    assert!(parse_cli_args_from_argv(&dangling).url.is_none());
}

fn request(url: &str, trusted: bool) -> CliDownloadRequest {
    CliDownloadRequest {
        url: url.to_string(),
        target: "auto".to_string(),
        action: "download_now".to_string(),
        media: "video".to_string(),
        quality: "best".to_string(),
        trusted_local: trusted,
    }
}

#[test]
fn pending_queue_merges_repeats_drops_refused_and_keeps_the_newest_hundred() {
    let mut pending = Vec::new();
    enqueue_cli_download_requests(
        &mut pending,
        vec![
            request("https://example.com/1", false),
            request("https://example.com/1", true),
            request("http://127.0.0.1/x", true),
        ],
    );
    assert_eq!(pending.len(), 1);
    assert!(pending[0].trusted_local);

    let many = (0..150)
        .map(|i| request(&format!("https://example.com/v{i}"), false))
        .collect::<Vec<_>>();
    enqueue_cli_download_requests(&mut pending, many);
    assert_eq!(pending.len(), 100);
    assert_eq!(pending[0].url, "https://example.com/v50");
    assert_eq!(pending[99].url, "https://example.com/v149");

    let taken = take_pending_cli_download_requests(&mut pending);
    assert_eq!(taken.len(), 100);
    assert!(pending.is_empty());
}

#[test]
fn bare_arguments_fill_the_url_once_and_url_flags_replace_it() {
    let argv = |items: &[&str]| items.iter().map(|s| s.to_string()).collect::<Vec<String>>();
    let first = parse_cli_args_from_argv(&argv(&["youwee", "https://a.example/1", "https://b.example/2"]));
    assert_eq!(first.url.as_deref(), Some("https://a.example/1"));
    let replaced = parse_cli_args_from_argv(&argv(&[
        "youwee",
        "https://a.example/1",
        "--url",
        "https://b.example/2",
    ]));
    assert_eq!(replaced.url.as_deref(), Some("https://b.example/2"));
    let skipped = parse_cli_args_from_argv(&argv(&["youwee", "--verbose", "https://a.example/1"]));
    assert_eq!(skipped.url.as_deref(), Some("https://a.example/1"));
}
