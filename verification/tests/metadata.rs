use youwee::metadata::{
    inspect_summary, room_owner_username, scalar_string_at, string_at, tiktok_live_metadata_is_offline,
    tiktok_live_session_id, tiktok_live_thumbnail, tiktok_live_title, JsonScalar, TikTokLiveMetadata,
};

fn text(s: &str) -> Option<JsonScalar> {
    Some(JsonScalar::Text(s.to_string()))
}

fn empty() -> TikTokLiveMetadata {
    TikTokLiveMetadata {
        title: None,
        data_title: None,
        uploader: None,
        owner_display_id: None,
        owner_unique_id: None,
        owner_nickname: None,
        thumbnail: None,
        cover_url: None,
        avatar_url: None,
        session_ids: vec![None, None, None, None, None, None, None],
        is_live: None,
        live_status: None,
    }
}

#[test]
fn json_values_are_read_as_text() {
    assert_eq!(string_at(&[text("  "), Some(JsonScalar::Signed(3)), text("x")]), Some("x".to_string()));
    assert_eq!(string_at(&[None, Some(JsonScalar::Other)]), None);
    assert_eq!(scalar_string_at(&[text(" "), Some(JsonScalar::Signed(-42))]), Some("-42".to_string()));
    assert_eq!(scalar_string_at(&[Some(JsonScalar::Unsigned(18446744073709551615))]), Some("18446744073709551615".to_string()));
    assert_eq!(scalar_string_at(&[Some(JsonScalar::Bool(true))]), None);
}

#[test]
fn live_titles_fall_back_to_the_streamer() {
    let mut m = empty();
    assert_eq!(tiktok_live_title(&m, None), "TikTok LIVE");
    m.owner_display_id = text("owner");
    assert_eq!(tiktok_live_title(&m, None), "TikTok LIVE @owner");
    assert_eq!(tiktok_live_title(&m, Some("creator")), "TikTok LIVE @creator");
    m.data_title = text("Data title");
    assert_eq!(tiktok_live_title(&m, Some("creator")), "Data title");
    m.title = text("Own title");
    assert_eq!(tiktok_live_title(&m, Some("creator")), "Own title");
}

#[test]
fn live_sessions_owners_and_offline_state() {
    let mut m = empty();
    assert_eq!(tiktok_live_session_id(&m, "https://www.tiktok.com/@c/live", " Title "), Some("https://www.tiktok.com/@c/live#Title".to_string()));
    assert_eq!(tiktok_live_session_id(&m, "u", "  "), None);
    m.session_ids[1] = Some(JsonScalar::Unsigned(7_000_000_000));
    assert_eq!(tiktok_live_session_id(&m, "u", "t"), Some("7000000000".to_string()));

    m.owner_unique_id = text("@unique.one");
    assert_eq!(room_owner_username(&m), Some("unique.one".to_string()));
    m.owner_display_id = text("bad name!");
    assert_eq!(room_owner_username(&m), None);

    assert!(!tiktok_live_metadata_is_offline(&m));
    m.live_status = text("Not_Live");
    assert!(tiktok_live_metadata_is_offline(&m));
    m.live_status = text("is_live");
    assert!(!tiktok_live_metadata_is_offline(&m));
    m.is_live = Some(JsonScalar::Bool(false));
    assert!(tiktok_live_metadata_is_offline(&m));

    m.cover_url = text("https://cover");
    assert_eq!(tiktok_live_thumbnail(&m), Some("https://cover".to_string()));
}

#[test]
fn inspection_summary_without_variants() {
    let mut m = empty();
    m.owner_nickname = text("Nick");
    m.live_status = text("was_live");
    let summary = inspect_summary(&m, "@creator", Some("creator"), "https://www.tiktok.com/@creator/live", 0);
    assert_eq!(summary.title, "TikTok LIVE @creator");
    assert_eq!(summary.session_id, None);
    assert_eq!(summary.uploader, Some("Nick".to_string()));
    assert_eq!(summary.is_live, Some(false));
    assert_eq!(summary.live_status, Some("was_live".to_string()));
    let live = inspect_summary(&m, "@creator", None, "https://x", 2);
    assert_eq!(live.session_id, Some("https://x#TikTok LIVE".to_string()));
    assert_eq!(live.is_live, Some(true));
}

#[test]
fn extracts_room_owner_username_for_cookie_backed_live_url() {
    let mut json = empty();
    json.owner_display_id = text("some.user");

    assert_eq!(room_owner_username(&json).as_deref(), Some("some.user"));
}
