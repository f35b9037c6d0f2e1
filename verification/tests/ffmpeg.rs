use youwee::ffmpeg::{
    date_from_captures, ffmpeg_release_info, ffmpeg_update_info_from_release,
    ffmpeg_update_info_without_release, ffmpeg_version_has_update, get_ffmpeg_download_info,
    get_ffmpeg_release_api_url, normalize_ffmpeg_release_version, parse_ffmpeg_version,
    select_ffmpeg_release_version, system_ffmpeg_upgrade_message, FfmpegReleaseInfo,
};
use youwee::platform::{TargetArch, TargetOs};

#[test]
fn normalizes_ffmpeg_macos_release_tags() {
    assert_eq!(normalize_ffmpeg_release_version("ffmpeg-2026.06.11"), "2026.06.11");
    assert_eq!(normalize_ffmpeg_release_version("v2026.06.11"), "2026.06.11");
}

#[test]
fn compares_binary_git_versions_with_release_versions() {
    assert!(ffmpeg_version_has_update("git-2026-06-10-5f998e3", "2026.06.11"));
    assert!(!ffmpeg_version_has_update("2026.06.11", "2026.06.11"));
}

#[test]
fn compares_compact_btb_n_build_dates() {
    assert!(ffmpeg_version_has_update("n8.1.2-22-g94138f6973-20260717", "2026-07-18"));
    assert!(!ffmpeg_version_has_update(
        "n8.1.2-22-g94138f6973-20260717",
        "Latest Auto-Build (2026-07-17 13:22)"
    ));
}

#[test]
fn derives_btb_n_version_from_release_name_when_tag_is_latest() {
    assert_eq!(
        select_ffmpeg_release_version(
            "latest",
            Some("Latest Auto-Build (2026-07-17 13:22)"),
            Some("2026-07-17T14:32:32Z")
        ),
        "2026-07-17"
    );
}

#[test]
fn parses_ffmpeg_and_ffprobe_versions() {
    let version = "n8.1.2-22-g94138f6973-20260717";
    assert_eq!(parse_ffmpeg_version(&format!("ffmpeg version {version} Copyright")), version);
    assert_eq!(parse_ffmpeg_version(&format!("ffprobe version {version} Copyright")), version);
}

#[test]
fn unknown_versions_and_dates() {
    assert_eq!(parse_ffmpeg_version(""), "unknown");
    assert_eq!(parse_ffmpeg_version("something else"), "unknown");
    assert_eq!(parse_ffmpeg_version("ffmpeg version    \nnext"), "unknown");
    assert_eq!(select_ffmpeg_release_version(" ffmpeg-vv7.1 ", None, None), "7.1");
    assert!(!ffmpeg_version_has_update("unknown", "2026-01-01"));
    assert_eq!(
        date_from_captures(Some(("2026".to_string(), "13".to_string(), "01".to_string()))),
        None
    );
    assert_eq!(
        date_from_captures(Some(("0999".to_string(), "1".to_string(), "9".to_string()))).as_deref(),
        Some("0999-01-09")
    );
}

#[test]
fn download_locations_follow_the_platform() {
    let mac = get_ffmpeg_download_info(TargetOs::MacOs, TargetArch::X86_64);
    assert!(mac.url.ends_with("ffmpeg-macos-x64.tar.gz"));
    assert_eq!(mac.archive_type, "tar.gz");
    let linux = get_ffmpeg_download_info(TargetOs::Linux, TargetArch::Aarch64);
    assert_eq!(linux.checksum_filename, "ffmpeg-master-latest-linuxarm64-gpl.tar.xz");
    let windows = get_ffmpeg_download_info(TargetOs::Windows, TargetArch::X86_64);
    assert_eq!(windows.archive_type, "zip");
    assert_eq!(get_ffmpeg_download_info(TargetOs::Other, TargetArch::Other).url, "");
    assert_eq!(get_ffmpeg_release_api_url(TargetOs::Other), "");
    assert!(system_ffmpeg_upgrade_message(TargetOs::MacOs).contains("brew upgrade ffmpeg"));
}

#[test]
fn update_answers() {
    let none = ffmpeg_update_info_without_release(false, false, None).unwrap();
    assert!(!none.has_update && none.release_url.is_none());
    let system = ffmpeg_update_info_without_release(true, true, Some("6.0".to_string())).unwrap();
    assert_eq!(system.release_url.as_deref(), Some("System FFmpeg - update via package manager"));
    assert!(ffmpeg_update_info_without_release(true, false, None).is_none());
    let release = ffmpeg_release_info("latest", Some("Auto-Build 2026-07-18"), None, Some("https://x"));
    assert_eq!(release.version, "2026-07-18");
    let info = ffmpeg_update_info_from_release(
        Some("git-2026-06-10-5f998e3".to_string()),
        FfmpegReleaseInfo { version: "2026.06.11".to_string(), html_url: None },
    );
    assert!(info.has_update);
    assert_eq!(info.latest_version.as_deref(), Some("2026.06.11"));
}
