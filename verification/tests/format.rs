use youwee::format::{apply_fps_filter, build_format_string, preferred_fps_filter};

#[test]
fn webm_4k_ignores_h264_and_uses_webm_streams() {
    let format = build_format_string("4k", "webm", "h264", None);

    assert!(format.contains("[ext=webm]"));
    assert!(format.contains("bestaudio[ext=webm]"));
    assert!(format.contains("[vcodec^=vp9]"));
    assert!(!format.contains("[vcodec^=avc]"));
    assert!(!format.contains("+bestaudio/"));
}

#[test]
fn webm_respects_compatible_explicit_codec() {
    let format = build_format_string("4k", "webm", "av1", None);

    assert!(format.contains("bestvideo[height<=2160][ext=webm][vcodec^=av01]"));
    assert!(format.contains("bestaudio[ext=webm]"));
}

#[test]
fn preferred_30fps_filters_video_candidates() {
    let format = build_format_string("1080", "mp4", "auto", Some("30"));

    assert!(format.contains("[fps<=30]"));
    assert!(format.contains("bestvideo[fps<=30][height<=1080][ext=mp4]"));
    assert!(format.contains("best[fps<=30][height<=1080]"));
}

#[test]
fn unsupported_preferred_fps_does_not_filter_video_candidates() {
    let format = build_format_string("1080", "mp4", "auto", Some("60"));

    assert!(!format.contains("[fps<="));
    assert!(format.contains("bestvideo[height<=1080][ext=mp4]"));
}

#[test]
fn audio_requests_pick_audio_streams() {
    assert_eq!(build_format_string("audio", "mp3", "auto", None), "bestaudio/best");
    assert_eq!(
        build_format_string("best", "opus", "auto", Some("30")),
        "bestaudio[ext=webm]/bestaudio/best"
    );
    assert_eq!(
        build_format_string("audio", "mkv", "auto", None),
        "bestaudio[ext=m4a]/bestaudio/best"
    );
}

#[test]
fn exact_video_format_strings() {
    assert_eq!(
        build_format_string("8k", "mp4", "auto", None),
        "bestvideo[height<=4320][vcodec^=av01]+bestaudio/bestvideo[height<=4320][vcodec^=vp9]+bestaudio/bestvideo[height<=4320]+bestaudio/best[height<=4320]/best"
    );
    assert_eq!(
        build_format_string("720", "mkv", "h264", None),
        "bestvideo[height<=720][vcodec^=avc]+bestaudio/bestvideo[height<=720]+bestaudio/best[height<=720]/best"
    );
    assert_eq!(
        build_format_string("best", "mp4", "vp9", None),
        "bestvideo[vcodec^=vp9]+bestaudio/bestvideo+bestaudio/best"
    );
    assert_eq!(
        build_format_string("best", "webm", "auto", None),
        "bestvideo[ext=webm][vcodec^=vp9]+bestaudio[ext=webm]/bestvideo[ext=webm][vcodec^=av01]+bestaudio[ext=webm]/bestvideo[ext=webm]+bestaudio[ext=webm]/best[ext=webm]"
    );
}

#[test]
fn fps_filter_keeps_leading_space_and_other_candidates() {
    assert_eq!(preferred_fps_filter(Some("30")), Some("[fps<=30]"));
    assert_eq!(preferred_fps_filter(None), None);
    assert_eq!(
        apply_fps_filter(" best/worst/bestvideo+bestaudio".to_string(), Some("30")),
        " best[fps<=30]/worst/bestvideo[fps<=30]+bestaudio"
    );
}
