use youwee::json::{JsonMember, JsonValue};
use youwee::search::{parse_youtube_search_response, 
    add_search_page, clamp_search_limit, normalize_search_request, search_needs_more,
    YoutubeSearchVideo,
};

fn video(id: &str) -> YoutubeSearchVideo {
    YoutubeSearchVideo {
        id: id.to_string(),
        url: format!("https://www.youtube.com/watch?v={id}"),
        title: format!("Video {id}"),
        thumbnail: None,
        duration: None,
        channel: None,
        view_count_text: None,
        published_time_text: None,
    }
}

#[test]
fn search_limits_are_clamped() {
    assert_eq!(clamp_search_limit(None), 20);
    assert_eq!(clamp_search_limit(Some(0)), 1);
    assert_eq!(clamp_search_limit(Some(500)), 100);
    assert_eq!(clamp_search_limit(Some(42)), 42);
}

#[test]
fn search_requests_need_a_query_or_token() {
    assert_eq!(
        normalize_search_request("  cats ", Some("  ")),
        Ok(("cats".to_string(), None))
    );
    assert_eq!(
        normalize_search_request("", Some(" token ")),
        Ok((String::new(), Some("token".to_string())))
    );
    assert_eq!(
        normalize_search_request("  ", None),
        Err("Search query is required.".to_string())
    );
}

#[test]
fn pages_are_merged_without_duplicates_up_to_the_limit() {
    let mut videos = vec![video("a")];
    add_search_page(&mut videos, vec![video("a"), video("b"), video("b"), video("c"), video("d")], 3);
    let ids: Vec<&str> = videos.iter().map(|v| v.id.as_str()).collect();
    assert_eq!(ids, vec!["a", "b", "c"]);
    assert!(!search_needs_more(videos.len(), 3, &Some("next".to_string())));
    assert!(search_needs_more(2, 3, &Some("next".to_string())));
    assert!(!search_needs_more(2, 3, &None));
}

fn obj(members: Vec<(&str, JsonValue)>) -> JsonValue {
    JsonValue::Object(
        members
            .into_iter()
            .map(|(key, value)| JsonMember { key: key.to_string(), value })
            .collect(),
    )
}

fn text(s: &str) -> JsonValue {
    JsonValue::Text(s.to_string())
}

#[test]
fn parses_video_renderer_and_continuation() {
    let json = obj(vec![(
        "contents",
        obj(vec![(
            "itemSectionRenderer",
            obj(vec![(
                "contents",
                JsonValue::Array(vec![
                    obj(vec![(
                        "videoRenderer",
                        obj(vec![
                            ("lengthText", obj(vec![("simpleText", text("3:21"))])),
                            ("ownerText", obj(vec![("runs", JsonValue::Array(vec![obj(vec![("text", text("Channel"))])]))])),
                            ("publishedTimeText", obj(vec![("simpleText", text("1 day ago"))])),
                            (
                                "thumbnail",
                                obj(vec![(
                                    "thumbnails",
                                    JsonValue::Array(vec![
                                        obj(vec![("url", text("http://example.com/s.jpg")), ("width", JsonValue::Number("120".to_string()))]),
                                        obj(vec![("url", text("https://example.com/l.jpg")), ("width", JsonValue::Number("720".to_string()))]),
                                    ]),
                                )]),
                            ),
                            (
                                "title",
                                obj(vec![(
                                    "runs",
                                    JsonValue::Array(vec![obj(vec![("text", text("Test "))]), obj(vec![("text", text("Video"))])]),
                                )]),
                            ),
                            ("videoId", text("abc123")),
                            ("viewCountText", obj(vec![("simpleText", text("1,234 views"))])),
                        ]),
                    )]),
                    obj(vec![(
                        "continuationItemRenderer",
                        obj(vec![(
                            "continuationEndpoint",
                            obj(vec![("continuationCommand", obj(vec![("token", text("next-token"))]))]),
                        )]),
                    )]),
                ]),
            )]),
        )]),
    )]);

    let response = parse_youtube_search_response(&json);

    assert_eq!(response.continuation.as_deref(), Some("next-token"));
    assert_eq!(response.videos.len(), 1);
    assert_eq!(response.videos[0].id, "abc123");
    assert_eq!(response.videos[0].title, "Test Video");
    assert_eq!(response.videos[0].url, "https://www.youtube.com/watch?v=abc123");
    assert_eq!(response.videos[0].thumbnail.as_deref(), Some("https://example.com/l.jpg"));
    assert_eq!(response.videos[0].duration.as_deref(), Some("3:21"));
    assert_eq!(response.videos[0].channel.as_deref(), Some("Channel"));
}

#[test]
fn skips_renderers_without_video_id_or_title() {
    let json = obj(vec![(
        "items",
        JsonValue::Array(vec![
            obj(vec![("videoRenderer", obj(vec![("title", obj(vec![("simpleText", text("Missing id"))]))]))]),
            obj(vec![("videoRenderer", obj(vec![("videoId", text("missing-title"))]))]),
        ]),
    )]);

    let response = parse_youtube_search_response(&json);

    assert!(response.videos.is_empty());
    assert!(response.continuation.is_none());
}

#[test]
fn handles_response_without_videos() {
    let json = obj(vec![("contents", JsonValue::Array(vec![]))]);

    let response = parse_youtube_search_response(&json);

    assert!(response.videos.is_empty());
    assert!(response.continuation.is_none());
}

#[test]
fn repeated_videos_in_a_row_are_kept_once() {
    let renderer = |id: &str| obj(vec![("videoRenderer", obj(vec![("title", obj(vec![("simpleText", text(" T "))])), ("videoId", text(id))]))]);
    let json = JsonValue::Array(vec![renderer("a"), renderer("a"), renderer("b"), renderer("a")]);
    let response = parse_youtube_search_response(&json);
    let ids: Vec<&str> = response.videos.iter().map(|v| v.id.as_str()).collect();
    assert_eq!(ids, vec!["a", "b", "a"]);
    assert_eq!(response.videos[0].title, "T");
    assert_eq!(response.videos[0].thumbnail, None);
}
