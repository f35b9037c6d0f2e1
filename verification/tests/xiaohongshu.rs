use youwee::xiaohongshu::{
    gallery_asset_key, is_original_image, is_xiaohongshu_cdn_url, is_xiaohongshu_extractor,
    is_xiaohongshu_short_url, is_xiaohongshu_url, parse_xiaohongshu_gallery_metadata,
    XiaohongshuPost, XiaohongshuThumbnail,
};

fn thumb(url: &str, width: Option<u64>, height: Option<u64>) -> XiaohongshuThumbnail {
    XiaohongshuThumbnail { url: Some(url.to_string()), width, height }
}

fn post(has_formats: bool, thumbnails: Vec<XiaohongshuThumbnail>) -> XiaohongshuPost {
    XiaohongshuPost {
        id: Some("post-1".to_string()),
        title: Some("Seven images".to_string()),
        extractor: Some("XiaoHongShu".to_string()),
        extractor_key: None,
        has_formats,
        thumbnails: Some(thumbnails),
    }
}

#[test]
fn detects_supported_xiaohongshu_hosts() {
    assert!(is_xiaohongshu_url("http://xhslink.com/o/example"));
    assert!(is_xiaohongshu_url("https://www.xiaohongshu.com/explore/example"));
    assert!(!is_xiaohongshu_url("https://example.com/xhslink.com/o/example"));
    assert!(is_xiaohongshu_short_url("http://xhslink.com/o/example"));
    assert!(!is_xiaohongshu_short_url("https://www.xiaohongshu.com/explore/example"));
}

#[test]
fn image_posts_prefer_original_assets_and_dedupe_previews() {
    let gallery = parse_xiaohongshu_gallery_metadata(&post(
        false,
        vec![
            thumb("https://sns-webpic-qc.xhscdn.com/asset-a!nd_prv_wlteh_jpg_3", Some(720), Some(960)),
            thumb("https://sns-webpic-qc.xhscdn.com/asset-b!nd_dft_wlteh_jpg_3", Some(1440), Some(1920)),
            thumb("https://sns-webpic-qc.xhscdn.com/asset-a!nd_dft_wlteh_jpg_3", Some(1440), Some(1920)),
            thumb("https://sns-webpic-qc.xhscdn.com/asset-b!nd_prv_wlteh_jpg_3", Some(720), Some(960)),
        ],
    ))
    .expect("image gallery");
    assert_eq!(gallery.images.len(), 2);
    assert!(gallery.images.iter().all(|image| image.url.contains("!nd_dft_")));
    assert_eq!(gallery.images[0].width, Some(1440));
    assert_eq!(gallery.id, "post-1");
    assert_eq!(gallery.title, "Seven images");
}

#[test]
fn video_posts_stay_on_the_normal_download_path() {
    let mut video = post(true, vec![thumb("https://sns-webpic-qc.xhscdn.com/cover!nd_dft_wlteh_jpg_3", None, None)]);
    video.id = Some("video-1".to_string());
    video.title = None;
    assert!(parse_xiaohongshu_gallery_metadata(&video).is_none());
}

#[test]
fn rejects_non_xiaohongshu_thumbnail_hosts() {
    let mut other = post(false, vec![thumb("https://example.com/asset!nd_dft_wlteh_jpg_3", None, None)]);
    other.title = None;
    assert!(parse_xiaohongshu_gallery_metadata(&other).is_none());
}

#[test]
fn galleries_fill_in_id_and_title() {
    let mut untitled = post(false, vec![thumb(" https://a.xhscdn.com/x!nd_prv_1 ", Some(u64::MAX), None)]);
    untitled.id = Some("  ".to_string());
    untitled.title = None;
    let gallery = parse_xiaohongshu_gallery_metadata(&untitled).expect("gallery");
    assert_eq!(gallery.id, "post");
    assert_eq!(gallery.title, "Xiaohongshu post post");
    assert_eq!(gallery.images[0].url, "https://a.xhscdn.com/x!nd_prv_1");
    assert_eq!(gallery.images[0].width, None);
    let mut keyed = post(false, vec![thumb("https://a.xhscdn.com/x", None, None)]);
    keyed.extractor = None;
    keyed.extractor_key = Some("XiaoHongShu".to_string());
    assert!(parse_xiaohongshu_gallery_metadata(&keyed).is_some());
}

#[test]
fn asset_keys_and_renditions() {
    assert_eq!(gallery_asset_key("https://a.xhscdn.com/dir/asset-a!nd_prv_x"), "asset-a");
    assert_eq!(gallery_asset_key("not a url!nd_x"), "not a url");
    assert!(is_original_image("x!nd_dft_y"));
    assert!(!is_original_image("x!nd_prv_y"));
    assert!(is_xiaohongshu_cdn_url("https://xhscdn.com/a"));
    assert!(!is_xiaohongshu_cdn_url("ftp://xhscdn.com/a"));
    assert!(is_xiaohongshu_extractor(None, Some("xiaohongshu:post")));
    assert!(!is_xiaohongshu_extractor(Some("youtube"), Some("XiaoHongShu")));
}
