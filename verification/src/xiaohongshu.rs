//! Xiaohongshu (RED) posts: recognizing their addresses, and turning an
//! image post's thumbnails into a gallery of original images.
use vstd::prelude::*;

use crate::text::{
    before_first, before_first_exec, chars_of, contains, contains_seq, ends_with, has_suffix,
    is_lit, lower, lower_vec, ostr, push_str, seq_eq, string_of, trim, trim_ws, vviews,
};
use crate::urls::{parse_url, url_parts};

verus! {

/// One image of a gallery.
#[derive(Clone, Debug, PartialEq, Eq)]
pub struct XiaohongshuGalleryImage {
    pub url: String,
    pub width: Option<u32>,
    pub height: Option<u32>,
}

/// An image post: its id, title and images.
#[derive(Clone, Debug, PartialEq, Eq)]
pub struct XiaohongshuGalleryMetadata {
    pub id: String,
    pub title: String,
    pub images: Vec<XiaohongshuGalleryImage>,
}

/// A thumbnail entry of yt-dlp's metadata, as plain values: its `url` when
/// that is a string, and its `width` and `height` when they are unsigned
/// integers.
#[derive(Clone, Debug)]
pub struct XiaohongshuThumbnail {
    pub url: Option<String>,
    pub width: Option<u64>,
    pub height: Option<u64>,
}

/// What the gallery reader takes from yt-dlp's metadata of a post: `id`,
/// `title`, `extractor` and `extractor_key` when they are strings, whether
/// `formats` is a non-empty array, and the `thumbnails` when they form an
/// array.
#[derive(Clone, Debug)]
pub struct XiaohongshuPost {
    pub id: Option<String>,
    pub title: Option<String>,
    pub extractor: Option<String>,
    pub extractor_key: Option<String>,
    pub has_formats: bool,
    pub thumbnails: Option<Vec<XiaohongshuThumbnail>>,
}

pub open spec fn host_of(url: Seq<char>) -> Option<Seq<char>> {
    match url_parts(url) {
        Some(p) => match p.1 {
            Some(h) => Some(lower(h)),
            None => None,
        },
        None => None,
    }
}

pub open spec fn in_domain(host: Seq<char>, domain: Seq<char>) -> bool {
    host == domain || has_suffix(host, "."@ + domain)
}

/// An address on Xiaohongshu or its short-link domain.
pub open spec fn xiaohongshu_url(url: Seq<char>) -> bool {
    match host_of(url) {
        Some(h) => in_domain(h, "xhslink.com"@) || in_domain(h, "xiaohongshu.com"@),
        None => false,
    }
}

/// A short link that redirects to a post.
pub open spec fn xiaohongshu_short_url(url: Seq<char>) -> bool {
    match host_of(url) {
        Some(h) => in_domain(h, "xhslink.com"@),
        None => false,
    }
}

/// An `http(s)` address on Xiaohongshu's image servers.
pub open spec fn xiaohongshu_cdn_url(url: Seq<char>) -> bool {
    match url_parts(url) {
        Some(p) => (p.0 == "http"@ || p.0 == "https"@) && match p.1 {
            Some(h) => in_domain(lower(h), "xhscdn.com"@),
            None => false,
        },
        None => false,
    }
}

fn lower_host(url: &str) -> (r: Option<Vec<char>>)
    ensures
        match r {
            Some(h) => host_of(url@) == Some(h@),
            None => host_of(url@) is None,
        },
{
    match parse_url(url) {
        Some(p) => match &p.host {
            Some(h) => Some(lower_vec(&chars_of(h.as_str()))),
            None => None,
        },
        None => None,
    }
}

fn in_domain_exec(host: &[char], domain: &str) -> (r: bool)
    ensures
        r == in_domain(host@, domain@),
{
    let d = chars_of(domain);
    let mut dotted = chars_of(".");
    push_str(&mut dotted, domain);
    seq_eq(host, &d) || ends_with(host, &dotted)
}

pub fn is_xiaohongshu_url(url: &str) -> (r: bool)
    ensures
        r == xiaohongshu_url(url@),
{
    match lower_host(url) {
        Some(h) => in_domain_exec(&h, "xhslink.com") || in_domain_exec(&h, "xiaohongshu.com"),
        None => false,
    }
}

pub fn is_xiaohongshu_short_url(url: &str) -> (r: bool)
    ensures
        r == xiaohongshu_short_url(url@),
{
    match lower_host(url) {
        Some(h) => in_domain_exec(&h, "xhslink.com"),
        None => false,
    }
}

pub fn is_xiaohongshu_cdn_url(url: &str) -> (r: bool)
    ensures
        r == xiaohongshu_cdn_url(url@),
{
    match parse_url(url) {
        Some(p) => {
            let scheme = chars_of(p.scheme.as_str());
            if !(is_lit(&scheme, "http") || is_lit(&scheme, "https")) {
                return false;
            }
            match &p.host {
                Some(h) => in_domain_exec(&lower_vec(&chars_of(h.as_str())), "xhscdn.com"),
                None => false,
            }
        },
        None => false,
    }
}

/// Whether yt-dlp's extractor (or, when it has none, its extractor key)
/// names Xiaohongshu, in any ASCII case.
pub open spec fn xiaohongshu_extractor(extractor: Option<Seq<char>>, key: Option<Seq<char>>) -> bool {
    match extractor {
        Some(e) => contains(lower(e), "xiaohongshu"@),
        None => match key {
            Some(k) => contains(lower(k), "xiaohongshu"@),
            None => false,
        },
    }
}

pub fn is_xiaohongshu_extractor(extractor: Option<&str>, extractor_key: Option<&str>) -> (r: bool)
    ensures
        r == xiaohongshu_extractor(crate::text::opt_view(extractor), crate::text::opt_view(extractor_key)),
{
    let name = match extractor {
        Some(e) => e,
        None => match extractor_key {
            Some(k) => k,
            None => return false,
        },
    };
    contains_seq(&lower_vec(&chars_of(name)), &chars_of("xiaohongshu"))
}

/// The asset an image address shows: the last path segment (the whole
/// address when it does not parse), without its `!nd_` rendition suffix.
pub open spec fn asset_key(url: Seq<char>) -> Seq<char> {
    let leaf = match url_parts(url) {
        Some(p) => match p.3 {
            Some(segments) => if segments.len() > 0 {
                segments.last()
            } else {
                url
            },
            None => url,
        },
        None => url,
    };
    before_first(leaf, "!nd_"@)
}

pub fn gallery_asset_key(url: &str) -> (r: String)
    ensures
        r@ == asset_key(url@),
{
    let leaf = match parse_url(url) {
        Some(p) => match &p.segments {
            Some(segments) => if segments.len() > 0 {
                let last = &segments[segments.len() - 1];
                assert(crate::text::strs(segments@).last() == last@);
                chars_of(last.as_str())
            } else {
                chars_of(url)
            },
            None => chars_of(url),
        },
        None => chars_of(url),
    };
    string_of(&before_first_exec(&leaf, &chars_of("!nd_")))
}

/// An original-quality rendition rather than a preview.
pub open spec fn original_image(url: Seq<char>) -> bool {
    contains(url, "!nd_dft_"@)
}

pub fn is_original_image(url: &str) -> (r: bool)
    ensures
        r == original_image(url@),
{
    contains_seq(&chars_of(url), &chars_of("!nd_dft_"))
}

/// An image as plain values: address, width and height.
pub type ImageView = (Seq<char>, Option<u32>, Option<u32>);

pub open spec fn image_view(i: XiaohongshuGalleryImage) -> ImageView {
    (i.url@, i.width, i.height)
}

pub open spec fn images_view(v: Seq<XiaohongshuGalleryImage>) -> Seq<ImageView> {
    v.map_values(|i: XiaohongshuGalleryImage| image_view(i))
}

pub open spec fn fit_u32(v: Option<u64>) -> Option<u32> {
    match v {
        Some(x) => if x <= u32::MAX {
            Some(x as u32)
        } else {
            None
        },
        None => None,
    }
}

/// The position of the first key equal to `key`.
pub open spec fn key_index(keys: Seq<Seq<char>>, key: Seq<char>) -> Option<int>
    decreases keys.len(),
{
    if keys.len() == 0 {
        None
    } else {
        match key_index(keys.drop_last(), key) {
            Some(i) => Some(i),
            None => if keys.last() == key {
                Some(keys.len() - 1)
            } else {
                None
            },
        }
    }
}

/// The gallery after one more thumbnail: a thumbnail on the image servers
/// adds its asset, or replaces the asset's earlier preview when it is the
/// original and the earlier one was not; other thumbnails change nothing.
/// The gallery is its images with the asset key of each.
pub open spec fn gallery_step(
    state: (Seq<ImageView>, Seq<Seq<char>>),
    thumb: XiaohongshuThumbnail,
) -> (Seq<ImageView>, Seq<Seq<char>>) {
    match thumb.url {
        None => state,
        Some(raw) => {
            let url = trim(raw@);
            if !xiaohongshu_cdn_url(url) {
                state
            } else {
                let candidate = (url, fit_u32(thumb.width), fit_u32(thumb.height));
                let key = asset_key(url);
                match key_index(state.1, key) {
                    Some(i) => if original_image(url) && !original_image(state.0[i].0) {
                        (state.0.update(i, candidate), state.1)
                    } else {
                        state
                    },
                    None => (state.0.push(candidate), state.1.push(key)),
                }
            }
        },
    }
}

pub open spec fn gallery_of(thumbs: Seq<XiaohongshuThumbnail>) -> (Seq<ImageView>, Seq<Seq<char>>)
    decreases thumbs.len(),
{
    if thumbs.len() == 0 {
        (seq![], seq![])
    } else {
        gallery_step(gallery_of(thumbs.drop_last()), thumbs.last())
    }
}

pub open spec fn post_id(id: Option<Seq<char>>) -> Seq<char> {
    match id {
        Some(s) => if trim(s).len() > 0 {
            trim(s)
        } else {
            "post"@
        },
        None => "post"@,
    }
}

pub open spec fn post_title(title: Option<Seq<char>>, id: Seq<char>) -> Seq<char> {
    match title {
        Some(s) => if trim(s).len() > 0 {
            trim(s)
        } else {
            "Xiaohongshu post "@ + id
        },
        None => "Xiaohongshu post "@ + id,
    }
}

/// The gallery of an image post: only for Xiaohongshu metadata without
/// downloadable formats, with thumbnails, of which at least one is on the
/// image servers.
pub open spec fn gallery_metadata(post: XiaohongshuPost) -> Option<
    (Seq<char>, Seq<char>, Seq<ImageView>),
> {
    if !xiaohongshu_extractor(ostr(post.extractor), ostr(post.extractor_key)) || post.has_formats {
        None
    } else {
        match post.thumbnails {
            None => None,
            Some(thumbs) => {
                let images = gallery_of(thumbs@).0;
                if images.len() == 0 {
                    None
                } else {
                    let id = post_id(ostr(post.id));
                    Some((id, post_title(ostr(post.title), id), images))
                }
            },
        }
    }
}

fn fit_u32_exec(v: Option<u64>) -> (r: Option<u32>)
    ensures
        r == fit_u32(v),
{
    match v {
        Some(x) => if x <= u32::MAX as u64 {
            Some(x as u32)
        } else {
            None
        },
        None => None,
    }
}

fn key_index_exec(keys: &Vec<Vec<char>>, key: &[char]) -> (r: Option<usize>)
    ensures
        match r {
            Some(i) => key_index(vviews(keys@), key@) == Some(i as int),
            None => key_index(vviews(keys@), key@) is None,
        },
        r matches Some(i) ==> i < keys.len(),
{
    let ghost kv = vviews(keys@);
    let mut k: usize = 0;
    while k < keys.len()
        invariant
            k <= keys.len(),
            kv == vviews(keys@),
            key_index(kv.take(k as int), key@) is None,
        decreases keys.len() - k,
    {
        assert(kv.take(k + 1).drop_last() =~= kv.take(k as int));
        if seq_eq(&keys[k], key) {
            proof {
                lemma_key_index_prefix(kv, key@, k + 1);
            }
            return Some(k);
        }
        k += 1;
    }
    assert(kv.take(keys.len() as int) =~= kv);
    None
}

proof fn lemma_key_index_prefix(keys: Seq<Seq<char>>, key: Seq<char>, n: int)
    requires
        0 < n <= keys.len(),
        key_index(keys.take(n), key) is Some,
    ensures
        key_index(keys, key) == key_index(keys.take(n), key),
    decreases keys.len() - n,
{
    if n < keys.len() {
        assert(keys.take(n + 1).drop_last() =~= keys.take(n));
        lemma_key_index_prefix(keys, key, n + 1);
    } else {
        assert(keys.take(n) =~= keys);
    }
}

pub fn parse_xiaohongshu_gallery_metadata(post: &XiaohongshuPost) -> (r: Option<
    XiaohongshuGalleryMetadata,
>)
    ensures
        match r {
            Some(m) => gallery_metadata(*post) == Some((m.id@, m.title@, images_view(m.images@))),
            None => gallery_metadata(*post) is None,
        },
{
    let extractor = match &post.extractor {
        Some(e) => Some(e.as_str()),
        None => None,
    };
    let extractor_key = match &post.extractor_key {
        Some(k) => Some(k.as_str()),
        None => None,
    };
    if !is_xiaohongshu_extractor(extractor, extractor_key) || post.has_formats {
        return None;
    }
    let thumbs = match &post.thumbnails {
        Some(t) => t,
        None => return None,
    };
    let mut images: Vec<XiaohongshuGalleryImage> = Vec::new();
    let mut keys: Vec<Vec<char>> = Vec::new();
    let mut k: usize = 0;
    while k < thumbs.len()
        invariant
            k <= thumbs.len(),
            images.len() == keys.len(),
            gallery_of(thumbs@.take(k as int)) == (images_view(images@), vviews(keys@)),
        decreases thumbs.len() - k,
    {
        let t = &thumbs[k];
        assert(thumbs@.take(k + 1).drop_last() =~= thumbs@.take(k as int));
        assert(thumbs@.take(k + 1).last() == *t);
        if let Some(raw) = &t.url {
            let url = string_of(&trim_ws(&chars_of(raw.as_str())));
            if is_xiaohongshu_cdn_url(url.as_str()) {
                let key = chars_of(gallery_asset_key(url.as_str()).as_str());
                let original = is_original_image(url.as_str());
                let candidate = XiaohongshuGalleryImage {
                    url: string_of(&chars_of(url.as_str())),
                    width: fit_u32_exec(t.width),
                    height: fit_u32_exec(t.height),
                };
                match key_index_exec(&keys, &key) {
                    Some(i) => {
                        if original && !is_original_image(images[i].url.as_str()) {
                            let ghost before = images@;
                            images.set(i, candidate);
                            assert(images_view(images@) =~= images_view(before).update(
                                i as int,
                                image_view(candidate),
                            ));
                        }
                    },
                    None => {
                        let ghost bi = images@;
                        let ghost bk = keys@;
                        images.push(candidate);
                        keys.push(key);
                        assert(images_view(images@) =~= images_view(bi).push(image_view(candidate)));
                        assert(vviews(keys@) =~= vviews(bk).push(key@));
                    },
                }
            }
        }
        k += 1;
    }
    assert(thumbs@.take(thumbs.len() as int) =~= thumbs@);
    if images.len() == 0 {
        return None;
    }
    let id = match &post.id {
        Some(s) => {
            let t = trim_ws(&chars_of(s.as_str()));
            if t.len() > 0 {
                string_of(&t)
            } else {
                string_of(&chars_of("post"))
            }
        },
        None => string_of(&chars_of("post")),
    };
    let title = match &post.title {
        Some(s) => {
            let t = trim_ws(&chars_of(s.as_str()));
            if t.len() > 0 {
                string_of(&t)
            } else {
                let mut v = chars_of("Xiaohongshu post ");
                push_str(&mut v, id.as_str());
                string_of(&v)
            }
        },
        None => {
            let mut v = chars_of("Xiaohongshu post ");
            push_str(&mut v, id.as_str());
            string_of(&v)
        },
    };
    Some(XiaohongshuGalleryMetadata { id, title, images })
}

} // verus!
