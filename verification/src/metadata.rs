//! What the TikTok Live metadata of a stream tells: its title, uploader,
//! thumbnail, live session and whether the live has ended. The metadata is
//! read at fixed JSON pointers; each value read is held as a plain scalar.
use vstd::prelude::*;

use crate::live::{normalize_tiktok_username, tiktok_username};
use crate::text::{chars_of, decimal, decimal_of, is_lit, lower, lower_vec, ostr, push_str,
    signed_decimal, signed_decimal_of, string_of, trim, trim_ws};

verus! {

/// A JSON value found at a pointer: text, an integer (signed when it fits
/// an `i64`, else unsigned), a boolean, or anything else.
#[derive(Clone, Debug)]
pub enum JsonScalar {
    Text(String),
    Signed(i64),
    Unsigned(u64),
    Bool(bool),
    Other,
}

/// The values of a stream's metadata that are read, each at its JSON
/// pointer; `None` where the pointer leads nowhere.
#[derive(Clone, Debug)]
pub struct TikTokLiveMetadata {
    /// `/title`
    pub title: Option<JsonScalar>,
    /// `/data/title`
    pub data_title: Option<JsonScalar>,
    /// `/uploader`
    pub uploader: Option<JsonScalar>,
    /// `/data/owner/display_id`
    pub owner_display_id: Option<JsonScalar>,
    /// `/data/owner/unique_id`
    pub owner_unique_id: Option<JsonScalar>,
    /// `/data/owner/nickname`
    pub owner_nickname: Option<JsonScalar>,
    /// `/thumbnail`
    pub thumbnail: Option<JsonScalar>,
    /// `/data/cover/url_list/0`
    pub cover_url: Option<JsonScalar>,
    /// `/data/owner/avatar_thumb/url_list/0`
    pub avatar_url: Option<JsonScalar>,
    /// `/id`, `/room_id`, `/display_id`, `/webpage_url_basename`,
    /// `/data/id`, `/data/room_id`, `/data/live_room_id`, in this order.
    pub session_ids: Vec<Option<JsonScalar>>,
    /// `/is_live`
    pub is_live: Option<JsonScalar>,
    /// `/live_status`
    pub live_status: Option<JsonScalar>,
}

/// A value that is non-blank text.
pub open spec fn text_value(v: Option<JsonScalar>) -> Option<Seq<char>> {
    match v {
        Some(JsonScalar::Text(t)) => if trim(t@).len() > 0 {
            Some(t@)
        } else {
            None
        },
        _ => None,
    }
}

/// A value as text: non-blank text, or an integer in decimal.
pub open spec fn scalar_text(v: Option<JsonScalar>) -> Option<Seq<char>> {
    match v {
        Some(JsonScalar::Text(t)) => if trim(t@).len() > 0 {
            Some(t@)
        } else {
            None
        },
        Some(JsonScalar::Signed(n)) => Some(signed_decimal(n as int)),
        Some(JsonScalar::Unsigned(n)) => Some(decimal(n as nat)),
        _ => None,
    }
}

/// The first of the values that is non-blank text.
pub open spec fn first_text(vs: Seq<Option<JsonScalar>>) -> Option<Seq<char>>
    decreases vs.len(),
{
    if vs.len() == 0 {
        None
    } else {
        match text_value(vs[0]) {
            Some(t) => Some(t),
            None => first_text(vs.drop_first()),
        }
    }
}

/// The first of the values that reads as text.
pub open spec fn first_scalar_text(vs: Seq<Option<JsonScalar>>) -> Option<Seq<char>>
    decreases vs.len(),
{
    if vs.len() == 0 {
        None
    } else {
        match scalar_text(vs[0]) {
            Some(t) => Some(t),
            None => first_scalar_text(vs.drop_first()),
        }
    }
}

fn copy_str(s: &str) -> (r: String)
    ensures
        r@ == s@,
{
    string_of(&chars_of(s))
}

fn text_of(v: &Option<JsonScalar>) -> (r: Option<String>)
    ensures
        ostr(r) == text_value(*v),
{
    match v {
        Some(JsonScalar::Text(t)) => if trim_ws(&chars_of(t.as_str())).len() > 0 {
            Some(copy_str(t.as_str()))
        } else {
            None
        },
        _ => None,
    }
}

fn scalar_text_of(v: &Option<JsonScalar>) -> (r: Option<String>)
    ensures
        ostr(r) == scalar_text(*v),
{
    match v {
        Some(JsonScalar::Signed(n)) => Some(string_of(&signed_decimal_of(*n))),
        Some(JsonScalar::Unsigned(n)) => Some(string_of(&decimal_of(*n))),
        _ => text_of(v),
    }
}

/// The first non-blank text among the values (`string_at`).
pub fn string_at(values: &[Option<JsonScalar>]) -> (r: Option<String>)
    ensures
        ostr(r) == first_text(values@),
{
    let mut i: usize = 0;
    assert(values@.subrange(0, values@.len() as int) =~= values@);
    while i < values.len()
        invariant
            i <= values.len(),
            first_text(values@) == first_text(values@.subrange(i as int, values@.len() as int)),
        decreases values.len() - i,
    {
        let ghost rest = values@.subrange(i as int, values@.len() as int);
        assert(rest.drop_first() =~= values@.subrange(i + 1, values@.len() as int));
        assert(rest[0] == values@[i as int]);
        let t = text_of(&values[i]);
        if t.is_some() {
            return t;
        }
        i += 1;
    }
    None
}

/// The first value among them that reads as text (`scalar_string_at`).
pub fn scalar_string_at(values: &[Option<JsonScalar>]) -> (r: Option<String>)
    ensures
        ostr(r) == first_scalar_text(values@),
{
    let mut i: usize = 0;
    assert(values@.subrange(0, values@.len() as int) =~= values@);
    while i < values.len()
        invariant
            i <= values.len(),
            first_scalar_text(values@) == first_scalar_text(
                values@.subrange(i as int, values@.len() as int),
            ),
        decreases values.len() - i,
    {
        let ghost rest = values@.subrange(i as int, values@.len() as int);
        assert(rest.drop_first() =~= values@.subrange(i + 1, values@.len() as int));
        assert(rest[0] == values@[i as int]);
        let t = scalar_text_of(&values[i]);
        if t.is_some() {
            return t;
        }
        i += 1;
    }
    None
}

fn pick(v: &Option<JsonScalar>) -> (r: Option<JsonScalar>)
    ensures
        r == *v,
{
    match v {
        Some(JsonScalar::Text(t)) => Some(JsonScalar::Text(copy_str_eq(t))),
        Some(JsonScalar::Signed(n)) => Some(JsonScalar::Signed(*n)),
        Some(JsonScalar::Unsigned(n)) => Some(JsonScalar::Unsigned(*n)),
        Some(JsonScalar::Bool(b)) => Some(JsonScalar::Bool(*b)),
        Some(JsonScalar::Other) => Some(JsonScalar::Other),
        None => None,
    }
}

fn copy_str_eq(s: &String) -> (r: String)
    ensures
        r == *s,
{
    s.clone()
}

// ---------------------------------------------------------------------------
// What the metadata tells
// ---------------------------------------------------------------------------

/// The stream's title: its own title, else the streamer's name (the known
/// username, else the owner's display id) after `TikTok LIVE @`, else
/// `TikTok LIVE`.
pub open spec fn live_title(m: TikTokLiveMetadata, username: Option<Seq<char>>) -> Seq<char> {
    match first_text(seq![m.title, m.data_title]) {
        Some(t) => t,
        None => match username {
            Some(u) => "TikTok LIVE @"@ + u,
            None => match text_value(m.owner_display_id) {
                Some(d) => "TikTok LIVE @"@ + d,
                None => "TikTok LIVE"@,
            },
        },
    }
}

pub fn tiktok_live_title(metadata: &TikTokLiveMetadata, username: Option<&str>) -> (r: String)
    ensures
        r@ == live_title(*metadata, crate::text::opt_view(username)),
{
    let titles = vec![pick(&metadata.title), pick(&metadata.data_title)];
    assert(titles@ =~= seq![metadata.title, metadata.data_title]);
    if let Some(t) = string_at(&titles) {
        return t;
    }
    let name = match username {
        Some(u) => Some(copy_str(u)),
        None => text_of(&metadata.owner_display_id),
    };
    match name {
        Some(n) => {
            let mut v = chars_of("TikTok LIVE @");
            push_str(&mut v, n.as_str());
            string_of(&v)
        },
        None => copy_str("TikTok LIVE"),
    }
}

/// The live session: the first identifier that reads as text, else the
/// target URL and the trimmed title joined by `#` when the title is not
/// blank.
pub open spec fn live_session_id(m: TikTokLiveMetadata, target_url: Seq<char>, title: Seq<char>) -> Option<
    Seq<char>,
> {
    match first_scalar_text(m.session_ids@) {
        Some(id) => Some(id),
        None => if trim(title).len() > 0 {
            Some(target_url + "#"@ + trim(title))
        } else {
            None
        },
    }
}

pub fn tiktok_live_session_id(metadata: &TikTokLiveMetadata, target_url: &str, title: &str) -> (r:
    Option<String>)
    ensures
        ostr(r) == live_session_id(*metadata, target_url@, title@),
{
    match scalar_string_at(metadata.session_ids.as_slice()) {
        Some(id) => Some(id),
        None => {
            let t = trim_ws(&chars_of(title));
            if t.len() > 0 {
                let mut v = chars_of(target_url);
                push_str(&mut v, "#");
                crate::text::extend(&mut v, &t);
                Some(string_of(&v))
            } else {
                None
            }
        },
    }
}

/// The room owner's username: the display id, else the unique id, when it
/// is a valid username.
pub open spec fn owner_username(m: TikTokLiveMetadata) -> Option<Seq<char>> {
    match text_value(m.owner_display_id) {
        Some(d) => tiktok_username(d),
        None => match text_value(m.owner_unique_id) {
            Some(u) => tiktok_username(u),
            None => None,
        },
    }
}

pub fn room_owner_username(metadata: &TikTokLiveMetadata) -> (r: Option<String>)
    ensures
        ostr(r) == owner_username(*metadata),
{
    let name = match text_of(&metadata.owner_display_id) {
        Some(d) => Some(d),
        None => text_of(&metadata.owner_unique_id),
    };
    match name {
        Some(n) => normalize_tiktok_username(n.as_str()),
        None => None,
    }
}

/// The metadata says the live has ended: `is_live` is false, or the live
/// status is `offline`, `not_live` or `ended` in any ASCII case.
pub open spec fn metadata_offline(m: TikTokLiveMetadata) -> bool {
    (m.is_live matches Some(JsonScalar::Bool(b)) && !b) || (m.live_status matches Some(
        JsonScalar::Text(s),
    ) && {
        let l = lower(s@);
        l == "offline"@ || l == "not_live"@ || l == "ended"@
    })
}

pub fn tiktok_live_metadata_is_offline(metadata: &TikTokLiveMetadata) -> (r: bool)
    ensures
        r == metadata_offline(*metadata),
{
    if let Some(JsonScalar::Bool(b)) = &metadata.is_live {
        if !*b {
            return true;
        }
    }
    match &metadata.live_status {
        Some(JsonScalar::Text(s)) => {
            let l = lower_vec(&chars_of(s.as_str()));
            is_lit(&l, "offline") || is_lit(&l, "not_live") || is_lit(&l, "ended")
        },
        _ => false,
    }
}

/// The stream's thumbnail: its own, else the room cover, else the owner's
/// avatar.
pub open spec fn live_thumbnail(m: TikTokLiveMetadata) -> Option<Seq<char>> {
    first_text(seq![m.thumbnail, m.cover_url, m.avatar_url])
}

pub fn tiktok_live_thumbnail(metadata: &TikTokLiveMetadata) -> (r: Option<String>)
    ensures
        ostr(r) == live_thumbnail(*metadata),
{
    let v = vec![pick(&metadata.thumbnail), pick(&metadata.cover_url), pick(&metadata.avatar_url)];
    assert(v@ =~= seq![metadata.thumbnail, metadata.cover_url, metadata.avatar_url]);
    string_at(&v)
}

/// What an inspection of a stream reports, apart from its variants.
#[derive(Clone, Debug)]
pub struct TikTokLiveInspectSummary {
    pub input: String,
    pub target_url: String,
    pub session_id: Option<String>,
    pub title: String,
    pub uploader: Option<String>,
    pub thumbnail: Option<String>,
    pub is_live: Option<bool>,
    pub live_status: Option<String>,
}

/// The summary of an inspection that found `variant_count` stream variants:
/// a session only when there are variants; the uploader, else the known
/// username; live as the metadata says, else when there are variants; the
/// live status when it is text.
pub fn inspect_summary(
    metadata: &TikTokLiveMetadata,
    input: &str,
    username: Option<&str>,
    target_url: &str,
    variant_count: usize,
) -> (r: TikTokLiveInspectSummary)
    ensures
        r.input@ == input@,
        r.target_url@ == target_url@,
        r.title@ == live_title(*metadata, crate::text::opt_view(username)),
        ostr(r.session_id) == (if variant_count > 0 {
            live_session_id(*metadata, target_url@, r.title@)
        } else {
            None
        }),
        ostr(r.uploader) == match first_text(
            seq![metadata.uploader, metadata.owner_display_id, metadata.owner_nickname],
        ) {
            Some(u) => Some(u),
            None => crate::text::opt_view(username),
        },
        ostr(r.thumbnail) == live_thumbnail(*metadata),
        r.is_live == match metadata.is_live {
            Some(JsonScalar::Bool(b)) => Some(b),
            _ => Some(variant_count > 0),
        },
        ostr(r.live_status) == match metadata.live_status {
            Some(JsonScalar::Text(s)) => Some(s@),
            _ => None,
        },
{
    let title = tiktok_live_title(metadata, username);
    let session_id = if variant_count > 0 {
        tiktok_live_session_id(metadata, target_url, title.as_str())
    } else {
        None
    };
    let uploaders = vec![
        pick(&metadata.uploader),
        pick(&metadata.owner_display_id),
        pick(&metadata.owner_nickname),
    ];
    assert(uploaders@ =~= seq![metadata.uploader, metadata.owner_display_id, metadata.owner_nickname]);
    let uploader = match string_at(&uploaders) {
        Some(u) => Some(u),
        None => match username {
            Some(u) => Some(copy_str(u)),
            None => None,
        },
    };
    let is_live = match &metadata.is_live {
        Some(JsonScalar::Bool(b)) => Some(*b),
        _ => Some(variant_count > 0),
    };
    let live_status = match &metadata.live_status {
        Some(JsonScalar::Text(s)) => Some(copy_str(s.as_str())),
        _ => None,
    };
    TikTokLiveInspectSummary {
        input: copy_str(input),
        target_url: copy_str(target_url),
        session_id,
        title,
        uploader,
        thumbnail: tiktok_live_thumbnail(metadata),
        is_live,
        live_status,
    }
}

} // verus!
