use youwee::facebook::{StoryUrlCache, FACEBOOK_STORY_CACHE_LIMIT, FACEBOOK_STORY_CACHE_TTL_MS, canonical_facebook_video_url, facebook_story_media_link, json_string_after, FacebookMediaKind};
use youwee::facebook::facebook_story_token;

const STORY_URL: &str = "https://www.facebook.com/stories/103239061171689/UzpfSVNDOjI3MzU2ODU2NjgwNjUxODk2?view_single=false";

#[test]
fn recognizes_only_facebook_story_urls() {
    assert_eq!(facebook_story_token(STORY_URL).as_deref(), Some("UzpfSVNDOjI3MzU2ODU2NjgwNjUxODk2"));
    assert_eq!(facebook_story_token("https://www.facebook.com/reel/920653751079018"), None);
    assert_eq!(
        facebook_story_token("https://notfacebook.com/stories/103239061171689/UzpfSVNDOjI3MzU2ODU2NjgwNjUxODk2"),
        None
    );
}

#[test]
fn story_tokens_need_a_third_segment() {
    assert_eq!(facebook_story_token("https://FACEBOOK.com/stories/1/tok"), Some("tok".to_string()));
    assert_eq!(facebook_story_token("https://m.facebook.com/stories/1/"), None);
    assert_eq!(facebook_story_token("https://www.facebook.com/stories/1"), None);
    assert_eq!(facebook_story_token("not a url"), None);
}

#[test]
fn story_urls_are_read_back_until_they_expire() {
    let mut cache = StoryUrlCache::new();
    cache.insert("https://facebook.com/stories/1/a".to_string(), "https://www.facebook.com/reel/1".to_string(), 1_000);
    assert_eq!(
        cache.get("https://facebook.com/stories/1/a", 1_000).as_deref(),
        Some("https://www.facebook.com/reel/1")
    );
    assert_eq!(
        cache.get("https://facebook.com/stories/1/a", 1_000 + FACEBOOK_STORY_CACHE_TTL_MS - 1).as_deref(),
        Some("https://www.facebook.com/reel/1")
    );
    assert_eq!(cache.get("https://facebook.com/stories/1/a", 1_000 + FACEBOOK_STORY_CACHE_TTL_MS), None);
    assert_eq!(cache.len(), 0);
}

#[test]
fn story_url_cache_replaces_an_address_and_evicts_the_oldest_when_full() {
    let mut cache = StoryUrlCache::new();
    for i in 0..FACEBOOK_STORY_CACHE_LIMIT as u64 {
        cache.insert(format!("story-{i}"), format!("media-{i}"), 10 + i);
    }
    assert_eq!(cache.len(), FACEBOOK_STORY_CACHE_LIMIT);
    cache.insert("story-5".to_string(), "media-5b".to_string(), 100);
    assert_eq!(cache.len(), FACEBOOK_STORY_CACHE_LIMIT - 1);
    assert_eq!(cache.get("story-0", 100), None);
    assert_eq!(cache.get("story-5", 100).as_deref(), Some("media-5b"));
    cache.insert("story-new".to_string(), "media-new".to_string(), 101);
    assert_eq!(cache.len(), FACEBOOK_STORY_CACHE_LIMIT);
    assert_eq!(cache.get("story-1", 101).as_deref(), Some("media-1"));
    cache.insert("story-newer".to_string(), "media-newer".to_string(), 102);
    assert_eq!(cache.len(), FACEBOOK_STORY_CACHE_LIMIT);
    assert_eq!(cache.get("story-1", 102), None);
    assert_eq!(cache.get("story-new", 102).as_deref(), Some("media-new"));
}

#[test]
fn resolves_reshared_reel_from_target_facebook_story() {
    let html = r#"
        {"id":"other","story_card_info":{"story_overlays":[{"fb_shorts_story":{"url":"https:\/\/www.facebook.com\/reel\/111\/"}}]}}
        {"id":"UzpfSVNDOjI3MzU2ODU2NjgwNjUxODk2","story_card_info":{"story_overlays":[{"fb_shorts_story":{"url":"https:\/\/www.facebook.com\/reel\/920653751079018\/"}}]}}
    "#;
    let (link, kind) = facebook_story_media_link(STORY_URL, html).expect("reel link");
    assert_eq!(link, "https://www.facebook.com/reel/920653751079018/");
    assert_eq!(kind, FacebookMediaKind::Reel);
}

#[test]
fn resolves_direct_story_video_when_no_reel_overlay_exists() {
    let html = r#"
        {"id":"UzpfSVNDOjI3MzU2ODU2NjgwNjUxODk2","story_card_info":{"story_video_thumbnail":{"url":"https:\/\/www.facebook.com\/kimthoatour\/videos\/1418406220139762\/"}}}
    "#;
    let (link, kind) = facebook_story_media_link(STORY_URL, html).expect("video link");
    assert_eq!(kind, FacebookMediaKind::Video);
    assert_eq!(
        canonical_facebook_video_url(&link).as_deref(),
        Some("https://www.facebook.com/kimthoatour/videos/1418406220139762")
    );
}

#[test]
fn json_strings_after_a_marker_are_decoded() {
    assert_eq!(json_string_after(r#"x "url": "a\/b" y"#, r#""url":"#).as_deref(), Some("a/b"));
    assert_eq!(json_string_after(r#""url": 5"#, r#""url":"#), None);
    assert_eq!(json_string_after("nothing", r#""url":"#), None);
}

#[test]
fn story_pages_without_a_media_link_give_nothing() {
    assert!(facebook_story_media_link(STORY_URL, "{}").is_none());
    assert!(facebook_story_media_link("https://www.facebook.com/reel/1", "{}").is_none());
    assert_eq!(canonical_facebook_video_url("https://www.facebook.com/reel/1"), None);
}
