//! YouTube search results, and how pages of results are gathered up to a
//! limit.
use vstd::prelude::*;

use crate::json::{as_text, get, get_opt, json_get, json_get_opt, json_text, JsonMember, JsonValue};
use crate::text::{chars_of, ostr, push_str, replace, replace_all, seq_eq, string_of, trim, trim_ws};

verus! {

/// One video of a search result.
#[derive(Clone, Debug, PartialEq)]
pub struct YoutubeSearchVideo {
    pub id: String,
    pub url: String,
    pub title: String,
    pub thumbnail: Option<String>,
    pub duration: Option<String>,
    pub channel: Option<String>,
    pub view_count_text: Option<String>,
    pub published_time_text: Option<String>,
}

/// A page of results and the token of the next page.
#[derive(Clone, Debug, PartialEq)]
pub struct YoutubeSearchResponse {
    pub videos: Vec<YoutubeSearchVideo>,
    pub continuation: Option<String>,
}

pub const DEFAULT_SEARCH_LIMIT: u32 = 20;

pub const MAX_SEARCH_LIMIT: u32 = 100;

/// The number of results wanted: 20 when unset, kept within 1 to 100.
pub fn clamp_search_limit(limit: Option<u32>) -> (r: usize)
    ensures
        r == crate::watchlist::clamp(
            match limit {
                Some(v) => v as int,
                None => DEFAULT_SEARCH_LIMIT as int,
            },
            1,
            MAX_SEARCH_LIMIT as int,
        ),
{
    let v = match limit {
        Some(v) => v,
        None => DEFAULT_SEARCH_LIMIT,
    };
    if v < 1 {
        1
    } else if v > MAX_SEARCH_LIMIT {
        MAX_SEARCH_LIMIT as usize
    } else {
        v as usize
    }
}

/// A search needs a query or a page token: both trimmed, an empty token
/// dropped.
pub fn normalize_search_request(query: &str, continuation: Option<&str>) -> (r: Result<
    (String, Option<String>),
    String,
>)
    ensures
        match r {
            Ok(p) => p.0@ == trim(query@) && ostr(p.1) == match continuation {
                Some(c) => if trim(c@).len() > 0 {
                    Some(trim(c@))
                } else {
                    None
                },
                None => None,
            } && (p.0@.len() > 0 || p.1 is Some),
            Err(e) => e@ == "Search query is required."@ && trim(query@).len() == 0 && match continuation {
                Some(c) => trim(c@).len() == 0,
                None => true,
            },
        },
{
    let q = trim_ws(&chars_of(query));
    let token = match continuation {
        Some(c) => {
            let t = trim_ws(&chars_of(c));
            if t.len() > 0 {
                Some(string_of(&t))
            } else {
                None
            }
        },
        None => None,
    };
    if q.len() == 0 && token.is_none() {
        return Err(string_of(&chars_of("Search query is required.")));
    }
    Ok((string_of(&q), token))
}

pub open spec fn ids(v: Seq<YoutubeSearchVideo>) -> Seq<Seq<char>> {
    v.map_values(|x: YoutubeSearchVideo| x.id@)
}

/// The gathered ids after one more page: each new id is added in order,
/// stopping once `limit` videos are gathered.
pub open spec fn merged_ids(gathered: Seq<Seq<char>>, page: Seq<Seq<char>>, limit: nat) -> Seq<
    Seq<char>,
>
    decreases page.len(),
{
    if page.len() == 0 || gathered.len() >= limit {
        gathered
    } else {
        let next = if gathered.contains(page[0]) {
            gathered
        } else {
            gathered.push(page[0])
        };
        if next.len() >= limit {
            next
        } else {
            merged_ids(next, page.drop_first(), limit)
        }
    }
}

/// Gathering another page keeps what was gathered, in front and in order,
/// adds only ids of the page, never repeats an id and never goes past the
/// limit; so over any number of pages the results stay distinct and
/// within the limit.
pub proof fn law_gathered_ids_stay_distinct_within_limit(
    gathered: Seq<Seq<char>>,
    page: Seq<Seq<char>>,
    limit: nat,
)
    requires
        gathered.no_duplicates(),
        gathered.len() <= limit,
    ensures
        merged_ids(gathered, page, limit).no_duplicates(),
        gathered.len() <= merged_ids(gathered, page, limit).len() <= limit,
        merged_ids(gathered, page, limit).take(gathered.len() as int) == gathered,
        forall|x: Seq<char>|
            #[trigger] merged_ids(gathered, page, limit).contains(x) ==> gathered.contains(x) || page.contains(x),
    decreases page.len(),
{
    if page.len() == 0 || gathered.len() >= limit {
        assert(gathered.take(gathered.len() as int) =~= gathered);
    } else {
        let next = if gathered.contains(page[0]) {
            gathered
        } else {
            gathered.push(page[0])
        };
        if !gathered.contains(page[0]) {
            assert forall|i: int, j: int| 0 <= i < next.len() && 0 <= j < next.len() && i != j implies next[i]
                != next[j] by {
                if i == gathered.len() as int {
                    assert(gathered.contains(next[j]));
                } else if j == gathered.len() as int {
                    assert(gathered.contains(next[i]));
                }
            }
        }
        assert(next.take(gathered.len() as int) =~= gathered);
        assert forall|x: Seq<char>| #[trigger] next.contains(x) implies gathered.contains(x) || x == page[0] by {
            if next.contains(x) && !gathered.contains(x) {
                let k = choose|k: int| 0 <= k < next.len() && next[k] == x;
                if k < gathered.len() {
                    assert(gathered[k] == x);
                }
            }
        }
        assert(page.contains(page[0]));
        if next.len() < limit {
            let rest = page.drop_first();
            law_gathered_ids_stay_distinct_within_limit(next, rest, limit);
            let m = merged_ids(next, rest, limit);
            assert(m.take(gathered.len() as int) =~= m.take(next.len() as int).take(gathered.len() as int));
            assert forall|x: Seq<char>| #[trigger] m.contains(x) implies gathered.contains(x) || page.contains(x) by {
                if rest.contains(x) {
                    let k = choose|k: int| 0 <= k < rest.len() && rest[k] == x;
                    assert(page[k + 1] == x);
                }
            }
        }
    }
}

fn has_id(videos: &Vec<YoutubeSearchVideo>, id: &str) -> (r: bool)
    ensures
        r == ids(videos@).contains(id@),
{
    let idv = chars_of(id);
    let mut k: usize = 0;
    while k < videos.len()
        invariant
            k <= videos.len(),
            idv@ == id@,
            forall|j: int| 0 <= j < k ==> ids(videos@)[j] != id@,
        decreases videos.len() - k,
    {
        if seq_eq(&chars_of(videos[k].id.as_str()), &idv) {
            assert(ids(videos@)[k as int] == id@);
            return true;
        }
        k += 1;
    }
    false
}

/// Adds a page of videos to those gathered: videos whose id is already
/// there are skipped, and nothing more is added once `limit` videos are
/// gathered.
pub fn add_search_page(videos: &mut Vec<YoutubeSearchVideo>, page: Vec<YoutubeSearchVideo>, limit: usize)
    requires
        limit >= 1,
    ensures
        ids(final(videos)@) == merged_ids(ids(old(videos)@), ids(page@), limit as nat),
{
    if videos.len() >= limit {
        return;
    }
    let ghost all = ids(page@);
    let ghost start = ids(videos@);
    assert(all.len() == page.len());
    let mut rest = page;
    let mut k: usize = 0;
    assert(all.skip(0) =~= all);
    while rest.len() > 0
        invariant
            k <= all.len(),
            all.len() <= usize::MAX,
            start == ids(old(videos)@),
            all == ids(page@),
            limit >= 1,
            ids(rest@) == all.skip(k as int),
            rest.len() == all.len() - k,
            videos.len() < limit,
            merged_ids(start, all, limit as nat) == merged_ids(ids(videos@), all.skip(k as int), limit as nat),
        decreases rest.len(),
    {
        let v = rest.remove(0);
        let ghost cur = ids(videos@);
        let ghost sk = all.skip(k as int);
        assert(all.skip(k as int)[0] == v.id@);
        assert(all.skip(k as int).drop_first() =~= all.skip(k + 1));
        assert(ids(rest@) =~= all.skip(k + 1));
        if !has_id(videos, v.id.as_str()) {
            videos.push(v);
            assert(ids(videos@) =~= cur.push(all.skip(k as int)[0]));
        }
        assert(ids(videos@) == (if cur.contains(sk[0]) {
            cur
        } else {
            cur.push(sk[0])
        }));
        k += 1;
        if videos.len() >= limit {
            assert(merged_ids(cur, sk, limit as nat) == ids(videos@));
            return;
        }
        assert(merged_ids(cur, sk, limit as nat) == merged_ids(ids(videos@), sk.drop_first(), limit as nat));
    }
}

/// Whether another page should be fetched: fewer than `limit` videos and a
/// token for the next page.
pub fn search_needs_more(gathered: usize, limit: usize, continuation: &Option<String>) -> (r: bool)
    ensures
        r == (gathered < limit && continuation is Some),
{
    gathered < limit && continuation.is_some()
}

// ---------------------------------------------------------------------------
// Reading a response
// ---------------------------------------------------------------------------

/// A video as plain values: id, URL, title, thumbnail, duration, channel,
/// view count and publication time.
pub type VideoView = (
    Seq<char>,
    Seq<char>,
    Seq<char>,
    Option<Seq<char>>,
    Option<Seq<char>>,
    Option<Seq<char>>,
    Option<Seq<char>>,
    Option<Seq<char>>,
);

pub open spec fn video_view(v: YoutubeSearchVideo) -> VideoView {
    (
        v.id@,
        v.url@,
        v.title@,
        ostr(v.thumbnail),
        ostr(v.duration),
        ostr(v.channel),
        ostr(v.view_count_text),
        ostr(v.published_time_text),
    )
}

pub open spec fn videos_view(s: Seq<YoutubeSearchVideo>) -> Seq<VideoView> {
    s.map_values(|v: YoutubeSearchVideo| video_view(v))
}

/// The texts of the runs, one after another.
pub open spec fn runs_text(runs: Seq<JsonValue>) -> Seq<char>
    decreases runs.len(),
{
    if runs.len() == 0 {
        Seq::empty()
    } else {
        (match as_text(get(runs[0], "text"@)) {
            Some(t) => t,
            None => Seq::empty(),
        }) + runs_text(runs.drop_first())
    }
}

/// The trimmed text of a text object: its `simpleText` when not blank,
/// else its runs put together, when not blank.
pub open spec fn run_text(v: Option<JsonValue>) -> Option<Seq<char>> {
    match v {
        None => None,
        Some(x) => {
            let simple = as_text(get(x, "simpleText"@));
            if simple is Some && trim(simple.unwrap()).len() > 0 {
                Some(trim(simple.unwrap()))
            } else {
                let text = match get(x, "runs"@) {
                    Some(JsonValue::Array(runs)) => runs_text(runs@),
                    _ => Seq::empty(),
                };
                if trim(text).len() == 0 {
                    None
                } else {
                    Some(trim(text))
                }
            }
        },
    }
}

pub open spec fn or_else(a: Option<Seq<char>>, b: Option<Seq<char>>) -> Option<Seq<char>> {
    match a {
        Some(x) => Some(x),
        None => b,
    }
}

/// The URL of the renderer's last (largest) thumbnail, served over HTTPS.
pub open spec fn best_thumbnail(renderer: JsonValue) -> Option<Seq<char>> {
    match get_opt(get(renderer, "thumbnail"@), "thumbnails"@) {
        Some(JsonValue::Array(ts)) => if ts@.len() > 0 {
            match as_text(get(ts@.last(), "url"@)) {
                Some(u) => Some(replace(u, "http://"@, "https://"@)),
                None => None,
            }
        } else {
            None
        },
        _ => None,
    }
}

/// The video of a renderer that has a non-blank id and a title.
pub open spec fn renderer_video(r: JsonValue) -> Option<VideoView> {
    match as_text(get(r, "videoId"@)) {
        None => None,
        Some(raw) => {
            let id = trim(raw);
            if id.len() == 0 {
                None
            } else {
                match run_text(get(r, "title"@)) {
                    None => None,
                    Some(title) => Some(
                        (
                            id,
                            "https://www.youtube.com/watch?v="@ + id,
                            title,
                            best_thumbnail(r),
                            run_text(get(r, "lengthText"@)),
                            or_else(
                                run_text(get(r, "ownerText"@)),
                                or_else(
                                    run_text(get(r, "longBylineText"@)),
                                    run_text(get(r, "shortBylineText"@)),
                                ),
                            ),
                            or_else(
                                run_text(get(r, "viewCountText"@)),
                                run_text(get(r, "shortViewCountText"@)),
                            ),
                            run_text(get(r, "publishedTimeText"@)),
                        ),
                    ),
                }
            }
        },
    }
}

/// The token of a continuation item in an object, when not blank.
pub open spec fn continuation_token(v: JsonValue) -> Option<Seq<char>> {
    match as_text(
        get_opt(
            get_opt(get_opt(get(v, "continuationItemRenderer"@), "continuationEndpoint"@), "continuationCommand"@),
            "token"@,
        ),
    ) {
        Some(t) => if trim(t).len() > 0 {
            Some(t)
        } else {
            None
        },
        None => None,
    }
}

/// Videos found so far and the first continuation token.
pub type Collected = (Seq<VideoView>, Option<Seq<char>>);

/// What a walk over a value adds: in an object, its video renderer's
/// video, then its continuation token unless one was found, then what its
/// members hold, in order; in an array, what its items hold, in order.
pub open spec fn collect_value(v: JsonValue, acc: Collected) -> Collected
    decreases v,
{
    match v {
        JsonValue::Object(members) => {
            let with_video = match get(v, "videoRenderer"@) {
                Some(r) => match renderer_video(r) {
                    Some(video) => (acc.0.push(video), acc.1),
                    None => acc,
                },
                None => acc,
            };
            let with_token = if with_video.1 is None {
                match continuation_token(v) {
                    Some(t) => (with_video.0, Some(t)),
                    None => with_video,
                }
            } else {
                with_video
            };
            collect_members(members@, with_token)
        },
        JsonValue::Array(items) => collect_values(items@, acc),
        _ => acc,
    }
}

pub open spec fn collect_values(items: Seq<JsonValue>, acc: Collected) -> Collected
    decreases items,
{
    if items.len() == 0 {
        acc
    } else {
        collect_values(items.drop_first(), collect_value(items[0], acc))
    }
}

pub open spec fn collect_members(members: Seq<JsonMember>, acc: Collected) -> Collected
    decreases members,
{
    if members.len() == 0 {
        acc
    } else {
        collect_members(members.drop_first(), collect_value(members[0].value, acc))
    }
}

/// The videos without those whose id repeats the one just kept before.
pub open spec fn dedup_ids(s: Seq<VideoView>) -> Seq<VideoView>
    decreases s.len(),
{
    if s.len() == 0 {
        s
    } else {
        let d = dedup_ids(s.drop_last());
        if d.len() > 0 && d.last().0 == s.last().0 {
            d
        } else {
            d.push(s.last())
        }
    }
}

fn copy_str(s: &str) -> (r: String)
    ensures
        r@ == s@,
{
    string_of(&chars_of(s))
}

fn runs_text_exec(runs: &Vec<JsonValue>) -> (r: Vec<char>)
    ensures
        r@ == runs_text(runs@),
{
    let mut out: Vec<char> = Vec::new();
    let mut i: usize = 0;
    assert(runs@.subrange(0, runs@.len() as int) =~= runs@);
    while i < runs.len()
        invariant
            i <= runs.len(),
            out@ + runs_text(runs@.subrange(i as int, runs@.len() as int)) == runs_text(runs@),
        decreases runs.len() - i,
    {
        let ghost rest = runs@.subrange(i as int, runs@.len() as int);
        assert(rest.drop_first() =~= runs@.subrange(i + 1, runs@.len() as int));
        assert(rest[0] == runs@[i as int]);
        let ghost before = out@;
        if let Some(t) = json_text(json_get(&runs[i], "text")) {
            push_str(&mut out, t);
        }
        assert(out@ + runs_text(runs@.subrange(i + 1, runs@.len() as int)) =~= before + runs_text(
            rest,
        ));
        i += 1;
    }
    out
}

/// The trimmed text of a text object (`run_text`).
pub fn run_text_of(value: Option<&JsonValue>) -> (r: Option<String>)
    ensures
        ostr(r) == run_text(
            match value {
                Some(y) => Some(*y),
                None => None,
            },
        ),
{
    let v = value?;
    if let Some(simple) = json_text(json_get(v, "simpleText")) {
        let t = trim_ws(&chars_of(simple));
        if t.len() > 0 {
            return Some(string_of(&t));
        }
    }
    let text = match json_get(v, "runs") {
        Some(JsonValue::Array(runs)) => runs_text_exec(runs),
        _ => Vec::new(),
    };
    let t = trim_ws(&text);
    if t.len() == 0 {
        None
    } else {
        Some(string_of(&t))
    }
}

/// The URL of a renderer's largest thumbnail, over HTTPS.
pub fn best_thumbnail_of(renderer: &JsonValue) -> (r: Option<String>)
    ensures
        ostr(r) == best_thumbnail(*renderer),
{
    match json_get_opt(json_get(renderer, "thumbnail"), "thumbnails") {
        Some(JsonValue::Array(ts)) => {
            if ts.len() == 0 {
                return None;
            }
            let last = &ts[ts.len() - 1];
            match json_text(json_get(last, "url")) {
                Some(u) => {
                    let from = chars_of("http://");
                    proof {
                        reveal_strlit("http://");
                    }
                    Some(string_of(&replace_all(&chars_of(u), &from, &chars_of("https://"))))
                },
                None => None,
            }
        },
        _ => None,
    }
}

fn or_else_exec(a: Option<String>, b: Option<String>) -> (r: Option<String>)
    ensures
        ostr(r) == or_else(ostr(a), ostr(b)),
{
    match a {
        Some(x) => Some(x),
        None => b,
    }
}

/// The video of a search result renderer (`parse_video_renderer`).
/// A video's view count is the renderer's full view count text whenever it
/// has a non-blank one; only otherwise is the short view count taken. Its
/// channel likewise comes from the owner text first, then the long byline,
/// then the short one.
pub proof fn law_video_texts_prefer_full_fields(r: JsonValue)
    ensures
        renderer_video(r) matches Some(v) ==> {
            &&& run_text(get(r, "viewCountText"@)) matches Some(t) ==> v.6 == Some(t)
            &&& run_text(get(r, "viewCountText"@)) is None ==> v.6 == run_text(get(r, "shortViewCountText"@))
            &&& run_text(get(r, "ownerText"@)) matches Some(t) ==> v.5 == Some(t)
            &&& run_text(get(r, "ownerText"@)) is None && run_text(get(r, "longBylineText"@)) is Some
                ==> v.5 == run_text(get(r, "longBylineText"@))
        },
{
}

/// A video found in a renderer is the one its id names: the id is the
/// renderer's `videoId` trimmed, never blank, its address the watch page
/// of that id, and its title the renderer's title text.
pub proof fn law_video_is_the_one_its_id_names(r: JsonValue)
    ensures
        renderer_video(r) matches Some(v) ==> {
            &&& as_text(get(r, "videoId"@)) matches Some(raw) && v.0 == trim(raw)
            &&& v.0.len() > 0
            &&& v.1 == "https://www.youtube.com/watch?v="@ + v.0
            &&& run_text(get(r, "title"@)) == Some(v.2)
        },
{
}

pub fn parse_video_renderer(renderer: &JsonValue) -> (r: Option<YoutubeSearchVideo>)
    ensures
        match r {
            Some(v) => renderer_video(*renderer) == Some(video_view(v)),
            None => renderer_video(*renderer) is None,
        },
{
    let raw = json_text(json_get(renderer, "videoId"))?;
    let id = trim_ws(&chars_of(raw));
    if id.len() == 0 {
        return None;
    }
    let title = run_text_of(json_get(renderer, "title"))?;
    let mut url = chars_of("https://www.youtube.com/watch?v=");
    crate::text::extend(&mut url, &id);
    let channel = or_else_exec(
        run_text_of(json_get(renderer, "ownerText")),
        or_else_exec(
            run_text_of(json_get(renderer, "longBylineText")),
            run_text_of(json_get(renderer, "shortBylineText")),
        ),
    );
    let views = or_else_exec(
        run_text_of(json_get(renderer, "viewCountText")),
        run_text_of(json_get(renderer, "shortViewCountText")),
    );
    Some(
        YoutubeSearchVideo {
            id: string_of(&id),
            url: string_of(&url),
            title,
            thumbnail: best_thumbnail_of(renderer),
            duration: run_text_of(json_get(renderer, "lengthText")),
            channel,
            view_count_text: views,
            published_time_text: run_text_of(json_get(renderer, "publishedTimeText")),
        },
    )
}

fn continuation_token_of(v: &JsonValue) -> (r: Option<String>)
    ensures
        ostr(r) == continuation_token(*v),
{
    let t = json_text(
        json_get_opt(
            json_get_opt(json_get_opt(json_get(v, "continuationItemRenderer"), "continuationEndpoint"), "continuationCommand"),
            "token",
        ),
    )?;
    if trim_ws(&chars_of(t)).len() > 0 {
        Some(copy_str(t))
    } else {
        None
    }
}

/// Walks a value, adding the videos of its renderers and the first
/// continuation token (`collect_search_parts`).
pub fn collect_search_parts(
    value: &JsonValue,
    videos: &mut Vec<YoutubeSearchVideo>,
    continuation: &mut Option<String>,
)
    ensures
        (videos_view(final(videos)@), ostr(*final(continuation))) == collect_value(
            *value,
            (videos_view(old(videos)@), ostr(*old(continuation))),
        ),
    decreases value,
{
    match value {
        JsonValue::Object(members) => {
            let ghost before = (videos_view(videos@), ostr(*continuation));
            if let Some(renderer) = json_get(value, "videoRenderer") {
                if let Some(video) = parse_video_renderer(renderer) {
                    let ghost vs = videos@;
                    videos.push(video);
                    assert(videos_view(videos@) =~= videos_view(vs).push(video_view(video)));
                }
            }
            if continuation.is_none() {
                if let Some(t) = continuation_token_of(value) {
                    *continuation = Some(t);
                }
            }
            let mut i: usize = 0;
            assert(members@.subrange(0, members@.len() as int) =~= members@);
            while i < members.len()
                invariant
                    i <= members.len(),
                    *value == JsonValue::Object(*members),
                    collect_value(*value, before) == collect_members(
                        members@.subrange(i as int, members@.len() as int),
                        (videos_view(videos@), ostr(*continuation)),
                    ),
                decreases members.len() - i,
            {
                let ghost rest = members@.subrange(i as int, members@.len() as int);
                assert(rest.drop_first() =~= members@.subrange(i + 1, members@.len() as int));
                assert(rest[0] == members@[i as int]);
                proof {
                    vstd::std_specs::vec::axiom_vec_index_decreases(*members, i as int);
                    assert(*members == value->Object_0);
                    assert(decreases_to!(*value => value->Object_0));
                    assert(decreases_to!(members[i as int] => members[i as int].value));
                    assert(decreases_to!(*value => members[i as int].value));
                }
                collect_search_parts(&members[i].value, videos, continuation);
                i += 1;
            }
        },
        JsonValue::Array(items) => {
            let mut i: usize = 0;
            assert(items@.subrange(0, items@.len() as int) =~= items@);
            let ghost before = (videos_view(videos@), ostr(*continuation));
            while i < items.len()
                invariant
                    i <= items.len(),
                    *value == JsonValue::Array(*items),
                    collect_value(*value, before) == collect_values(
                        items@.subrange(i as int, items@.len() as int),
                        (videos_view(videos@), ostr(*continuation)),
                    ),
                decreases items.len() - i,
            {
                let ghost rest = items@.subrange(i as int, items@.len() as int);
                assert(rest.drop_first() =~= items@.subrange(i + 1, items@.len() as int));
                assert(rest[0] == items@[i as int]);
                proof {
                    vstd::std_specs::vec::axiom_vec_index_decreases(*items, i as int);
                    assert(*items == value->Array_0);
                    assert(decreases_to!(*value => value->Array_0));
                    assert(decreases_to!(*value => items[i as int]));
                }
                collect_search_parts(&items[i], videos, continuation);
                i += 1;
            }
        },
        _ => {},
    }
}

/// The videos and continuation token of a search response, without
/// repeats of the same video in a row.
pub fn parse_youtube_search_response(json: &JsonValue) -> (r: YoutubeSearchResponse)
    ensures
        videos_view(r.videos@) == dedup_ids(collect_value(*json, (Seq::empty(), None)).0),
        ostr(r.continuation) == collect_value(*json, (Seq::empty(), None)).1,
{
    let mut found: Vec<YoutubeSearchVideo> = Vec::new();
    let mut continuation: Option<String> = None;
    assert(videos_view(found@) =~= Seq::<VideoView>::empty());
    collect_search_parts(json, &mut found, &mut continuation);
    let ghost all = videos_view(found@);
    let mut rest = found;
    let mut i: usize = 0;
    let mut kept: Vec<YoutubeSearchVideo> = Vec::new();
    assert(videos_view(kept@) =~= dedup_ids(all.take(0)));
    let n = rest.len();
    while rest.len() > 0
        invariant
            rest.len() + i == n,
            n == all.len(),
            videos_view(kept@) == dedup_ids(all.take(i as int)),
            videos_view(rest@) == all.subrange(i as int, n as int),
        decreases rest.len(),
    {
        let ghost rs = rest@;
        let v = rest.remove(0);
        assert(video_view(v) == videos_view(rs)[0]);
        assert(video_view(v) == all[i as int]);
        assert(rest@ =~= rs.subrange(1, rs.len() as int));
        assert(videos_view(rest@) =~= videos_view(rs).subrange(1, rs.len() as int));
        assert(videos_view(rest@) =~= all.subrange(i + 1, n as int));
        assert(all.take(i + 1).drop_last() =~= all.take(i as int));
        assert(all.take(i + 1).last() == all[i as int]);
        let keep = if kept.len() > 0 {
            !seq_eq(&chars_of(kept[kept.len() - 1].id.as_str()), &chars_of(v.id.as_str()))
        } else {
            true
        };
        let ghost ks = kept@;
        if keep {
            kept.push(v);
            assert(videos_view(kept@) =~= videos_view(ks).push(all[i as int]));
        }
        i += 1;
    }
    assert(all.take(n as int) =~= all);
    YoutubeSearchResponse { videos: kept, continuation }
}

} // verus!
