use youwee::json::{JsonMember, JsonValue};
use youwee::streams::{formats_from_legacy_room_stream_urls, parse_resolution};

fn object(members: Vec<(&str, JsonValue)>) -> JsonValue {
    JsonValue::Object(
        members
            .into_iter()
            .map(|(key, value)| JsonMember {
                key: key.to_string(),
                value,
            })
            .collect(),
    )
}

fn text(value: &str) -> JsonValue {
    JsonValue::Text(value.to_string())
}

fn room(stream_url: JsonValue) -> JsonValue {
    object(vec![("data", object(vec![("stream_url", stream_url)]))])
}

#[test]
fn legacy_room_stream_urls_become_flv_formats() {
    let json = room(object(vec![(
        "flv_pull_url",
        object(vec![("HD1", text("https://signed.example/live.flv?token=secret"))]),
    )]));
    let formats = formats_from_legacy_room_stream_urls(&json);
    assert_eq!(formats.len(), 1);
    assert_eq!(formats[0].format_id, "legacy-HD1");
    assert_eq!(formats[0].protocol, "flv");
    assert_eq!(formats[0].ext.as_deref(), Some("flv"));
    assert_eq!(formats[0].quality.as_deref(), Some("hd1"));
    assert_eq!(formats[0].url, "https://signed.example/live.flv?token=secret");
}

#[test]
fn legacy_flv_formats_follow_quality_order_and_skip_blank_urls() {
    let json = room(object(vec![(
        "flv_pull_url",
        object(vec![
            ("SD1", text("https://a.example/sd1.flv")),
            ("HD1", text("   ")),
            ("FULL_HD1", text("https://a.example/full.flv")),
        ]),
    )]));
    let ids: Vec<String> = formats_from_legacy_room_stream_urls(&json)
        .into_iter()
        .map(|format| format.format_id)
        .collect();
    assert_eq!(ids, vec!["legacy-FULL_HD1".to_string(), "legacy-SD1".to_string()]);
}

#[test]
fn rtmp_address_is_used_only_without_flv_addresses() {
    let json = room(object(vec![("rtmp_pull_url", text("rtmp://a.example/live"))]));
    let formats = formats_from_legacy_room_stream_urls(&json);
    assert_eq!(formats.len(), 1);
    assert_eq!(formats[0].format_id, "legacy-rtmp");
    assert_eq!(formats[0].protocol, "rtmp");
    assert_eq!(formats[0].ext, None);

    let both = room(object(vec![
        ("rtmp_pull_url", text("rtmp://a.example/live")),
        ("flv_pull_url", object(vec![("SD2", text("https://a.example/sd2.flv"))])),
    ]));
    let formats = formats_from_legacy_room_stream_urls(&both);
    assert_eq!(formats.len(), 1);
    assert_eq!(formats[0].format_id, "legacy-SD2");

    assert!(formats_from_legacy_room_stream_urls(&JsonValue::Null).is_empty());
}

#[test]
fn script_body_is_read_from_the_named_script_element() {
    let html = r#"<html><body><script id="SIGI_STATE" type="application/json"> {"LiveRoom":{}} </script></body></html>"#;
    assert_eq!(
        youwee::streams::script_body_from_html(html, "SIGI_STATE").as_deref(),
        Some(r#"{"LiveRoom":{}}"#)
    );
    let single = "<script id='__UNIVERSAL_DATA_FOR_REHYDRATION__'>[1]</script>";
    assert_eq!(
        youwee::streams::script_body_from_html(single, "__UNIVERSAL_DATA_FOR_REHYDRATION__").as_deref(),
        Some("[1]")
    );
}

#[test]
fn script_body_needs_a_script_element() {
    assert_eq!(youwee::streams::script_body_from_html(r#"<div id="SIGI_STATE">{}</div>"#, "SIGI_STATE"), None);
    assert_eq!(youwee::streams::script_body_from_html(r#"<script id="SIGI_STATE">{}"#, "SIGI_STATE"), None);
    assert_eq!(youwee::streams::script_body_from_html("<script>{}</script>", "SIGI_STATE"), None);
}

#[test]
fn resolutions_give_width_and_height() {
    assert_eq!(parse_resolution("1080x1920"), (Some(1080), Some(1920)));
    assert_eq!(parse_resolution(" 720 x 1280 "), (Some(720), Some(1280)));
    assert_eq!(parse_resolution("1080"), (Some(1080), None));
    assert_eq!(parse_resolution("1080xabc"), (Some(1080), None));
    assert_eq!(parse_resolution("1x2x3"), (None, None));
}
