use youwee::variants::{has_audio_variant, has_video_variant, select_variant, variant_score, variant_scores_fit, VariantFacts};

fn s(v: &str) -> Option<String> {
    Some(v.to_string())
}

fn low() -> VariantFacts {
    VariantFacts {
        format_id: "low".to_string(),
        ext: s("mp4"),
        protocol: s("https"),
        quality: s("sd"),
        resolution: s("640x360"),
        width: Some(640),
        height: Some(360),
        bitrate: 800,
        vcodec: None,
        acodec: None,
        note: None,
    }
}

#[test]
fn selects_highest_variant_by_default() {
    let high = VariantFacts {
        format_id: "high".to_string(),
        width: Some(1920),
        height: Some(1080),
        bitrate: 4500,
        protocol: s("m3u8_native"),
        ..low()
    };
    let variants = [low(), high];
    let selected = select_variant(&variants, None, None).expect("selected");
    assert_eq!(variants[selected].format_id, "high");
}

#[test]
fn auto_prefers_muxed_video_audio_over_audio_only_tiktok_live_format() {
    let audio_only = VariantFacts {
        format_id: "audio".to_string(),
        ext: s("m4a"),
        protocol: s("https"),
        quality: s("ao"),
        resolution: s("audio only"),
        width: None,
        height: None,
        bitrate: 12_000,
        vcodec: s("none"),
        acodec: s("aac"),
        note: None,
    };
    let muxed = VariantFacts {
        format_id: "hd-hls".to_string(),
        ext: s("m3u8"),
        protocol: s("hls"),
        quality: s("hd"),
        resolution: s("1280x720"),
        width: Some(1280),
        height: Some(720),
        bitrate: 2500,
        vcodec: s("h264"),
        acodec: s("aac"),
        note: None,
    };
    let variants = [audio_only, muxed];
    let selected = select_variant(&variants, Some("auto"), Some("auto")).expect("selected");
    assert_eq!(variants[selected].format_id, "hd-hls");
}

#[test]
fn auto_prefers_muxed_video_audio_over_video_only_tiktok_live_format() {
    let video_only = VariantFacts {
        format_id: "uhd-video-only".to_string(),
        ext: s("m3u8"),
        protocol: s("hls"),
        quality: s("uhd"),
        resolution: s("1920x1080"),
        width: Some(1920),
        height: Some(1080),
        bitrate: 8000,
        vcodec: s("h264"),
        acodec: s("none"),
        note: None,
    };
    let muxed = VariantFacts {
        format_id: "hd-muxed".to_string(),
        ext: s("m3u8"),
        protocol: s("hls"),
        quality: s("hd"),
        resolution: s("1280x720"),
        width: Some(1280),
        height: Some(720),
        bitrate: 2500,
        vcodec: s("h264"),
        acodec: s("aac"),
        note: None,
    };
    let variants = [video_only, muxed];
    let selected = select_variant(&variants, Some("auto"), Some("auto")).expect("selected");
    assert_eq!(variants[selected].format_id, "hd-muxed");
}

#[test]
fn scores_filters_and_ties() {
    assert_eq!(variant_score(&low()), 640 * 360 * 1000 + 60 * 10_000 + 800 + 5);
    let mut a = low();
    a.resolution = None;
    a.width = None;
    assert!(!has_video_variant(&a));
    a.resolution = s("x");
    assert!(has_video_variant(&a));
    a.acodec = s("NONE");
    assert!(!has_audio_variant(&a));
    let twin = VariantFacts { format_id: "twin".to_string(), ..low() };
    let variants = [low(), twin];
    assert_eq!(select_variant(&variants, None, None), Some(1));
    let flv = VariantFacts { format_id: "flv".to_string(), protocol: s("flv"), ..low() };
    let variants = [flv, low()];
    assert_eq!(select_variant(&variants, None, Some("https")), Some(1));
    assert_eq!(select_variant(&variants, Some("nothing-matches"), None), Some(0));
    assert_eq!(select_variant(&[], None, None), None);
}

#[test]
fn huge_dimensions_do_not_fit_the_score() {
    let mut v = VariantFacts {
        format_id: "x".to_string(),
        ext: None,
        protocol: None,
        quality: None,
        resolution: None,
        width: Some(1920),
        height: Some(1080),
        bitrate: 0,
        vcodec: None,
        acodec: None,
        note: None,
    };
    assert!(variant_scores_fit(&[v.clone()]));
    v.width = Some(u32::MAX);
    v.height = Some(u32::MAX);
    assert!(!variant_scores_fit(&[v]));
}
