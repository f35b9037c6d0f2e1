use youwee::gallerydl::{
    command_output_text, gallerydl_binary_name, gallerydl_release_url,
    parse_gallerydl_update_check, system_gallerydl_not_found_message,
};
use youwee::platform::TargetOs;

#[test]
fn parses_available_nightly_update() {
    let info = parse_gallerydl_update_check(
        "[update][info] A new release is available: 1.32.7-dev:2026.07.16 -> 2026.07.18",
        Some("1.32.7-dev:2026.07.16".to_string()),
    )
    .expect("update output should parse");

    assert!(info.has_update);
    assert_eq!(info.current_version.as_deref(), Some("1.32.7-dev:2026.07.16"));
    assert_eq!(info.latest_version.as_deref(), Some("2026.07.18"));
    assert_eq!(
        info.release_url.as_deref(),
        Some("https://github.com/gdl-org/builds/releases/latest")
    );
}

#[test]
fn parses_up_to_date_status() {
    let info = parse_gallerydl_update_check(
        "[update][info] gallery-dl is up to date (1.32.6)",
        Some("1.32.6".to_string()),
    )
    .expect("up-to-date output should parse");

    assert!(!info.has_update);
    assert_eq!(info.current_version.as_deref(), Some("1.32.6"));
    assert_eq!(info.latest_version.as_deref(), Some("1.32.6"));
}

#[test]
fn rejects_unknown_update_output() {
    assert!(parse_gallerydl_update_check("unexpected", Some("1.32.6".to_string())).is_err());
}

#[test]
fn release_announcement_without_arrow_is_unrecognized() {
    assert_eq!(
        parse_gallerydl_update_check(
            "A new release is available: soon\nup to date",
            None
        ),
        Err("gallery-dl returned an unrecognized update status: A new release is available: soon\nup to date".to_string())
    );
    let stable = parse_gallerydl_update_check("noise\nAlready UP-TO-DATE", None).unwrap();
    assert_eq!(stable.release_url.as_deref(), Some("https://codeberg.org/mikf/gallery-dl/releases"));
}

#[test]
fn binary_names_urls_and_output_text() {
    assert_eq!(gallerydl_binary_name(TargetOs::Windows), "gallery-dl.exe");
    assert_eq!(gallerydl_binary_name(TargetOs::Linux), "gallery-dl");
    assert_eq!(gallerydl_release_url(None), "https://codeberg.org/mikf/gallery-dl/releases");
    assert!(system_gallerydl_not_found_message(TargetOs::Linux).contains("distro package manager"));
    assert_eq!(command_output_text(b"  out \n", b"  "), "out");
    assert_eq!(command_output_text(b"a", b" b "), "a\nb");
    assert_eq!(command_output_text(b"", b"err"), "err");
}
