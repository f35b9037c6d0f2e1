//! TikTok Live targets, recording file names and the ffmpeg arguments of a
//! recording.
use vstd::prelude::*;

use crate::clock::{local_now, push_two_digits, two_digits, year_digits, year_text, LocalDateTime};
use crate::text::{
    all_digits, chars_of, drop_while, extend, has_prefix, has_suffix, is_alnum, is_ascii_alphanumeric,
    is_ascii_digit, is_lit, lower, lower_vec, opt_view, ostr, strs, push_str, starts_with, string_of,
    trim, trim_start_class, trim_ws, CharClass,
};
use crate::urls::{parse_url, url_parts};

verus! {

// ---------------------------------------------------------------------------
// Targets
// ---------------------------------------------------------------------------

/// How a recording target was given.
#[derive(Clone, Copy, PartialEq, Eq, Structural, Debug)]
pub enum TikTokLiveTargetKind {
    Url,
    Username,
    RoomId,
}

/// A recording target: a Live URL, a username, or a numeric room id.
#[derive(Clone, Debug)]
pub struct TikTokLiveTarget {
    pub kind: TikTokLiveTargetKind,
    pub input: String,
    pub username: Option<String>,
    pub room_id: Option<String>,
    pub url: Option<String>,
}

/// A target as plain values: kind, input, username, room id, URL.
pub type TargetView = (
    TikTokLiveTargetKind,
    Seq<char>,
    Option<Seq<char>>,
    Option<Seq<char>>,
    Option<Seq<char>>,
);

impl View for TikTokLiveTarget {
    type V = TargetView;

    open spec fn view(&self) -> TargetView {
        (self.kind, self.input@, ostr(self.username), ostr(self.room_id), ostr(self.url))
    }
}

pub open spec fn username_char(c: char) -> bool {
    is_alnum(c) || c == '_' || c == '.' || c == '-'
}

/// A TikTok username: trimmed, without leading `@`, two to thirty-two
/// characters among ASCII letters, digits, `_`, `.` and `-`.
pub open spec fn tiktok_username(value: Seq<char>) -> Option<Seq<char>> {
    let u = drop_while(trim(value), CharClass::One('@'));
    if 2 <= u.len() <= 32 && forall|i: int| 0 <= i < u.len() ==> username_char(#[trigger] u[i]) {
        Some(u)
    } else {
        None
    }
}

pub fn normalize_tiktok_username(value: &str) -> (r: Option<String>)
    ensures
        ostr(r) == tiktok_username(value@),
{
    let t = trim_ws(&chars_of(value));
    let u = trim_start_class(&t, &CharClass::One('@'));
    let mut k: usize = 0;
    while k < u.len()
        invariant
            k <= u.len(),
            u@ == drop_while(trim(value@), CharClass::One('@')),
            forall|j: int| 0 <= j < k ==> username_char(#[trigger] u@[j]),
        decreases u.len() - k,
    {
        let c = u[k];
        if !(is_ascii_alphanumeric(c) || c == '_' || c == '.' || c == '-') {
            assert(!username_char(u@[k as int]));
            return None;
        }
        k += 1;
    }
    if u.len() < 2 || u.len() > 32 {
        return None;
    }
    assert(forall|i: int| 0 <= i < u@.len() ==> username_char(#[trigger] u@[i]));
    Some(string_of(&u))
}

/// The Live page of a username.
pub open spec fn live_url_for(username: Seq<char>) -> Seq<char> {
    "https://www.tiktok.com/@"@ + username + "/live"@
}

/// The first path segment that starts with `@`.
pub open spec fn first_at_segment(segments: Seq<Seq<char>>) -> Option<Seq<char>>
    decreases segments.len(),
{
    if segments.len() == 0 {
        None
    } else if segments[0].len() > 0 && segments[0][0] == '@' {
        Some(segments[0])
    } else {
        first_at_segment(segments.drop_first())
    }
}

pub open spec fn is_tiktok_host(host: Seq<char>) -> bool {
    host == "tiktok.com"@ || has_suffix(host, ".tiktok.com"@)
}

/// What an `http(s)` input names, from the URL parser's verdict on it: it
/// must parse and be on TikTok, and becomes the Live page of the username
/// in its path, or else the address without query and fragment.
pub open spec fn live_url_target(parts: Option<crate::urls::UrlView>) -> Result<TargetView, Seq<char>> {
    match parts {
        None => Err("Invalid TikTok Live URL"@),
        Some(p) => {
            let host = lower(
                match p.1 {
                    Some(h) => h,
                    None => Seq::empty(),
                },
            );
            if !is_tiktok_host(host) {
                Err("Only TikTok Live URLs are supported"@)
            } else {
                let username = match p.3 {
                    Some(segments) => match first_at_segment(segments) {
                        Some(s) => tiktok_username(s),
                        None => None,
                    },
                    None => None,
                };
                let url = match username {
                    Some(u) => live_url_for(u),
                    None => p.4,
                };
                Ok((TikTokLiveTargetKind::Url, url, username, None, Some(url)))
            }
        },
    }
}

/// What a watch or record input names. A run of at least five digits is a
/// room id; an `http(s)` address must be on TikTok and becomes the Live page
/// of the username in its path, or else the address without query and
/// fragment; anything else must be a username.
pub open spec fn live_target(input: Seq<char>) -> Result<TargetView, Seq<char>> {
    let t = trim(input);
    if t.len() == 0 {
        Err("TikTok Live input is empty"@)
    } else if all_digits(t) && t.len() >= 5 {
        Ok((TikTokLiveTargetKind::RoomId, t, None, Some(t), None))
    } else if has_prefix(t, "http://"@) || has_prefix(t, "https://"@) {
        live_url_target(url_parts(t))
    } else {
        match tiktok_username(t) {
            Some(u) => Ok((TikTokLiveTargetKind::Username, t, Some(u), None, Some(live_url_for(u)))),
            None => Err("Invalid TikTok username or Live URL"@),
        }
    }
}

pub(crate) fn all_ascii_digits(s: &[char]) -> (r: bool)
    ensures
        r == all_digits(s@),
{
    let mut k: usize = 0;
    while k < s.len()
        invariant
            k <= s.len(),
            forall|j: int| 0 <= j < k ==> crate::text::is_digit(#[trigger] s@[j]),
        decreases s.len() - k,
    {
        if !is_ascii_digit(s[k]) {
            return false;
        }
        k += 1;
    }
    true
}

fn first_at_segment_exec(segments: &Vec<String>) -> (r: Option<String>)
    ensures
        ostr(r) == first_at_segment(strs(segments@)),
{
    let ghost all = strs(segments@);
    assert(all.subrange(0, all.len() as int) =~= all);
    let mut k: usize = 0;
    while k < segments.len()
        invariant
            k <= segments.len(),
            all == strs(segments@),
            first_at_segment(all) == first_at_segment(all.subrange(k as int, all.len() as int)),
        decreases segments.len() - k,
    {
        let seg = chars_of(segments[k].as_str());
        assert(all.subrange(k as int, all.len() as int)[0] == seg@);
        assert(all.subrange(k as int, all.len() as int).drop_first() =~= all.subrange(
            k + 1,
            all.len() as int,
        ));
        if seg.len() > 0 && seg[0] == '@' {
            return Some(string_of(&seg));
        }
        k += 1;
    }
    assert(all.subrange(k as int, all.len() as int) =~= Seq::<Seq<char>>::empty());
    None
}

fn live_url_exec(username: &[char]) -> (r: String)
    ensures
        r@ == live_url_for(username@),
{
    let mut v = chars_of("https://www.tiktok.com/@");
    extend(&mut v, username);
    push_str(&mut v, "/live");
    string_of(&v)
}

/// What an `http(s)` input names, decided from the URL parser's verdict on
/// it.
pub fn live_target_from_parsed(parsed: &Option<crate::urls::ParsedUrl>) -> (r: Result<TikTokLiveTarget, String>)
    ensures
        match r {
            Ok(t) => live_url_target(crate::cli::parsed_view(*parsed)) == Ok::<TargetView, Seq<char>>(t@),
            Err(e) => live_url_target(crate::cli::parsed_view(*parsed)) == Err::<TargetView, Seq<char>>(e@),
        },
{
    let parsed = match parsed {
        Some(p) => p,
        None => return Err(string_of(&chars_of("Invalid TikTok Live URL"))),
    };
    let host = match &parsed.host {
        Some(h) => lower_vec(&chars_of(h.as_str())),
        None => {
            let e: Vec<char> = Vec::new();
            assert(lower(e@) =~= Seq::<char>::empty());
            e
        },
    };
    if !(is_lit(&host, "tiktok.com") || crate::text::ends_with(&host, &chars_of(".tiktok.com"))) {
        return Err(string_of(&chars_of("Only TikTok Live URLs are supported")));
    }
    let username = match &parsed.segments {
        Some(segments) => match first_at_segment_exec(segments) {
            Some(s) => normalize_tiktok_username(s.as_str()),
            None => None,
        },
        None => None,
    };
    let url = match &username {
        Some(u) => live_url_exec(&chars_of(u.as_str())),
        None => string_of(&chars_of(parsed.without_query.as_str())),
    };
    let url2 = string_of(&chars_of(url.as_str()));
    Ok(
        TikTokLiveTarget {
            kind: TikTokLiveTargetKind::Url,
            input: url,
            username,
            room_id: None,
            url: Some(url2),
        },
    )
}

pub fn parse_tiktok_live_target(input: &str) -> (r: Result<TikTokLiveTarget, String>)
    ensures
        match r {
            Ok(t) => live_target(input@) == Ok::<TargetView, Seq<char>>(t@),
            Err(e) => live_target(input@) == Err::<TargetView, Seq<char>>(e@),
        },
{
    let t = trim_ws(&chars_of(input));
    if t.len() == 0 {
        return Err(string_of(&chars_of("TikTok Live input is empty")));
    }
    if all_ascii_digits(&t) && t.len() >= 5 {
        return Ok(
            TikTokLiveTarget {
                kind: TikTokLiveTargetKind::RoomId,
                input: string_of(&t),
                username: None,
                room_id: Some(string_of(&t)),
                url: None,
            },
        );
    }
    if starts_with(&t, &chars_of("http://")) || starts_with(&t, &chars_of("https://")) {
        let ts = string_of(&t);
        return live_target_from_parsed(&parse_url(ts.as_str()));
    }
    match normalize_tiktok_username(string_of(&t).as_str()) {
        Some(u) => {
            let url = live_url_exec(&chars_of(u.as_str()));
            Ok(
                TikTokLiveTarget {
                    kind: TikTokLiveTargetKind::Username,
                    input: string_of(&t),
                    username: Some(u),
                    room_id: None,
                    url: Some(url),
                },
            )
        },
        None => Err(string_of(&chars_of("Invalid TikTok username or Live URL"))),
    }
}

pub open spec fn room_info_url(room_id: Seq<char>) -> Seq<char> {
    "https://webcast.tiktok.com/webcast/room/info/?aid=1988&room_id="@ + room_id
}

/// The room-information endpoint of a room.
pub fn tiktok_room_info_url(room_id: &str) -> (r: String)
    ensures
        r@ == room_info_url(room_id@),
{
    let mut v = chars_of("https://webcast.tiktok.com/webcast/room/info/?aid=1988&room_id=");
    push_str(&mut v, room_id);
    string_of(&v)
}

/// The address to inspect for a target: its URL, else its room's endpoint.
pub fn tiktok_target_url(target: &TikTokLiveTarget) -> (r: Option<String>)
    ensures
        ostr(r) == match target@.4 {
            Some(u) => Some(u),
            None => match target@.3 {
                Some(id) => Some(room_info_url(id)),
                None => None,
            },
        },
{
    match &target.url {
        Some(u) => Some(string_of(&chars_of(u.as_str()))),
        None => match &target.room_id {
            Some(id) => Some(tiktok_room_info_url(id.as_str())),
            None => None,
        },
    }
}

// ---------------------------------------------------------------------------
// Recording files
// ---------------------------------------------------------------------------

/// Characters that cannot stand in a file name on some platform.
pub open spec fn unsafe_file_char(c: char) -> bool {
    c == '/' || c == '\\' || c == ':' || c == '*' || c == '?' || c == '"' || c == '<' || c == '>'
        || c == '|' || crate::text::is_cc(c)
}

pub open spec fn safe_file_char(c: char) -> char {
    if unsafe_file_char(c) {
        '_'
    } else {
        c
    }
}

/// A title made usable as part of a file name: trimmed, unsafe characters
/// replaced by `_`, leading and trailing spaces and dots removed, at most
/// 120 characters; the fallback when nothing is left.
pub open spec fn sanitized_part(value: Seq<char>, fallback: Seq<char>) -> Seq<char> {
    let cleaned = crate::text::trim_cls(
        trim(value).map_values(|c: char| safe_file_char(c)),
        CharClass::Two(' ', '.'),
    );
    if cleaned.len() == 0 {
        fallback
    } else if cleaned.len() <= 120 {
        cleaned
    } else {
        cleaned.take(120)
    }
}

pub fn sanitize_filename_part(value: &str, fallback: &str) -> (r: String)
    ensures
        r@ == sanitized_part(value@, fallback@),
{
    let t = trim_ws(&chars_of(value));
    let mut m: Vec<char> = Vec::new();
    let mut k: usize = 0;
    while k < t.len()
        invariant
            k <= t.len(),
            m@ == t@.take(k as int).map_values(|c: char| safe_file_char(c)),
        decreases t.len() - k,
    {
        let c = t[k];
        let d = if c == '/' || c == '\\' || c == ':' || c == '*' || c == '?' || c == '"' || c
            == '<' || c == '>' || c == '|' || crate::text::is_control(c) {
            '_'
        } else {
            c
        };
        m.push(d);
        assert(t@.take(k + 1).map_values(|c: char| safe_file_char(c)) =~= t@.take(
            k as int,
        ).map_values(|c: char| safe_file_char(c)).push(safe_file_char(c)));
        k += 1;
    }
    assert(t@.take(t.len() as int) =~= t@);
    let cleaned = crate::text::trim_class(&m, &CharClass::Two(' ', '.'));
    if cleaned.len() == 0 {
        return string_of(&chars_of(fallback));
    }
    if cleaned.len() <= 120 {
        return string_of(&cleaned);
    }
    string_of(&crate::text::slice(&cleaned, 0, 120))
}

/// The file name of a recording: the template with `{title}`, `{username}`
/// (or `tiktok-live`), `{date}` and `{time}` filled in, else the title, date
/// and time joined by `_`; sanitized, with one `.mp4` suffix.
pub open spec fn recording_name(
    title: Seq<char>,
    username: Option<Seq<char>>,
    template: Option<Seq<char>>,
    date: Seq<char>,
    time: Seq<char>,
) -> Seq<char> {
    let user = match username {
        Some(u) => u,
        None => "tiktok-live"@,
    };
    let raw = match template {
        Some(t) => if trim(t).len() > 0 {
            crate::text::replace(
                crate::text::replace(
                    crate::text::replace(
                        crate::text::replace(trim(t), "{title}"@, title),
                        "{username}"@,
                        user,
                    ),
                    "{date}"@,
                    date,
                ),
                "{time}"@,
                time,
            )
        } else {
            title + "_"@ + date + "_"@ + time
        },
        None => title + "_"@ + date + "_"@ + time,
    };
    let name = sanitized_part(raw, "TikTok LIVE"@);
    let stem = if has_suffix(name, ".mp4"@) {
        name.subrange(0, name.len() - 4)
    } else {
        name
    };
    stem + ".mp4"@
}

fn replace_lit(s: &[char], from: &str, to: &[char]) -> (r: Vec<char>)
    requires
        from@.len() > 0,
    ensures
        r@ == crate::text::replace(s@, from@, to@),
{
    let f = chars_of(from);
    crate::text::replace_all(s, &f, to)
}

/// The file name of a recording, given the local date (`%Y%m%d`) and time
/// (`%H%M%S`) at which it starts.
pub fn recording_file_name(
    title: &str,
    username: Option<&str>,
    template: Option<&str>,
    date: &str,
    time: &str,
) -> (r: String)
    ensures
        r@ == recording_name(title@, opt_view(username), opt_view(template), date@, time@),
{
    let title_v = chars_of(title);
    let date_v = chars_of(date);
    let time_v = chars_of(time);
    let user = match username {
        Some(u) => chars_of(u),
        None => chars_of("tiktok-live"),
    };
    let t = match template {
        Some(t) => trim_ws(&chars_of(t)),
        None => {
            let e: Vec<char> = Vec::new();
            e
        },
    };
    let raw = if template.is_some() && t.len() > 0 {
        proof {
            reveal_strlit("{title}");
            reveal_strlit("{username}");
            reveal_strlit("{date}");
            reveal_strlit("{time}");
        }
        let a = replace_lit(&t, "{title}", &title_v);
        let b = replace_lit(&a, "{username}", &user);
        let c = replace_lit(&b, "{date}", &date_v);
        replace_lit(&c, "{time}", &time_v)
    } else {
        let mut v = title_v;
        push_str(&mut v, "_");
        extend(&mut v, &date_v);
        push_str(&mut v, "_");
        extend(&mut v, &time_v);
        v
    };
    let name = chars_of(sanitize_filename_part(string_of(&raw).as_str(), "TikTok LIVE").as_str());
    let suffix = chars_of(".mp4");
    proof {
        reveal_strlit(".mp4");
    }
    let mut stem = if crate::text::ends_with(&name, &suffix) {
        crate::text::slice(&name, 0, name.len() - 4)
    } else {
        name
    };
    push_str(&mut stem, ".mp4");
    string_of(&stem)
}

/// The date of a recording's name, as chrono writes `%Y%m%d`.
pub open spec fn compact_date(t: LocalDateTime) -> Seq<char> {
    year_text(t.year as int) + two_digits(t.month as nat) + two_digits(t.day as nat)
}

/// The time of a recording's name, as chrono writes `%H%M%S`.
pub open spec fn compact_time(t: LocalDateTime) -> Seq<char> {
    two_digits(t.hour as nat) + two_digits(t.minute as nat) + two_digits(t.second as nat)
}

fn compact_date_of(t: &LocalDateTime) -> (r: String)
    ensures
        r@ == compact_date(*t),
{
    let mut v = year_digits(t.year);
    push_two_digits(&mut v, t.month);
    push_two_digits(&mut v, t.day);
    string_of(&v)
}

fn compact_time_of(t: &LocalDateTime) -> (r: String)
    ensures
        r@ == compact_time(*t),
{
    let mut v: Vec<char> = Vec::new();
    push_two_digits(&mut v, t.hour);
    push_two_digits(&mut v, t.minute);
    push_two_digits(&mut v, t.second);
    assert(v@ =~= compact_time(*t));
    string_of(&v)
}

/// The file name of a recording that starts now: its date and time are
/// those of some local time, whose parts lie in their ranges.
pub fn recording_file_name_now(title: &str, username: Option<&str>, template: Option<&str>) -> (r:
    String)
    ensures
        exists|t: LocalDateTime|
            t.is_valid() && r@ == recording_name(
                title@,
                opt_view(username),
                opt_view(template),
                compact_date(t),
                compact_time(t),
            ),
{
    let now = local_now();
    let date = compact_date_of(&now);
    let time = compact_time_of(&now);
    recording_file_name(title, username, template, date.as_str(), time.as_str())
}

/// A text with no separator of any platform (`/`, `\\`) and no `:` (which
/// starts a Windows drive prefix): as a path, one relative component.
pub open spec fn single_component(p: Seq<char>) -> bool {
    p.len() > 0 && forall|i: int| 0 <= i < p.len() ==> p[i] != '/' && p[i] != '\\' && p[i] != ':'
}

/// A path that is a bare file name on every platform: one relative
/// component, neither `.` nor `..`. Its file name is the path itself.
pub open spec fn plain_file_name(p: Seq<char>) -> bool {
    single_component(p) && p != "."@ && p != ".."@
}

/// The extension of a file name as `Path::extension` documents it: the
/// part after the final `.`, unless there is none or the only one starts
/// the name.
pub open spec fn extension_of(name: Seq<char>) -> Option<Seq<char>> {
    match crate::text::rfind(name, "."@) {
        Some(i) => if i > 0 {
            Some(name.subrange(i + 1, name.len() as int))
        } else {
            None
        },
        None => None,
    }
}

/// The stem of a file name as `Path::file_stem` documents it: the part
/// before the final `.`, or the whole name when there is no `.` or the only
/// one starts it.
pub open spec fn stem_of(name: Seq<char>) -> Seq<char> {
    match crate::text::rfind(name, "."@) {
        Some(i) => if i > 0 {
            name.take(i)
        } else {
            name
        },
        None => name,
    }
}

/// The stem of a name is a prefix of it, and the extension, when there is
/// one, follows it after a `.`.
pub proof fn lemma_stem_of(name: Seq<char>)
    ensures
        stem_of(name).len() <= name.len(),
        forall|i: int| 0 <= i < stem_of(name).len() ==> #[trigger] stem_of(name)[i] == name[i],
        extension_of(name) matches Some(e) ==> name == stem_of(name) + "."@ + e,
        name.len() > 0 ==> stem_of(name).len() > 0,
{
    reveal_strlit(".");
    crate::text::lemma_rfind_upto(name, "."@, name.len() - 1);
    if let Some(i) = crate::text::rfind(name, "."@) {
        if i > 0 {
            assert(name[i] == '.') by {
                assert(name.subrange(i, i + 1) == "."@);
                assert(name.subrange(i, i + 1)[0] == name[i]);
            }
            assert(name =~= name.take(i) + "."@ + name.subrange(i + 1, name.len() as int));
        }
    }
}

/// No `/` in a text.
pub open spec fn no_slash(s: Seq<char>) -> bool {
    forall|i: int| 0 <= i < s.len() ==> s[i] != '/'
}

/// `std::path::Path::file_name`, read back as text when it is valid UTF-8.
/// Trusted, as documented: the result is the path's final component, so it
/// holds no `/` (a separator on every platform), and a bare file name is
/// its own file name. Which component is last in other paths depends on
/// the platform's separators and is not stated.
#[verifier::external_body]
pub(crate) fn path_file_name(path: &str) -> (r: Option<String>)
    ensures
        plain_file_name(path@) ==> ostr(r) == Some(path@),
        r matches Some(n) ==> no_slash(n@),
{
    std::path::Path::new(path).file_name().and_then(|value| value.to_str()).map(str::to_string)
}

/// `std::path::Path::extension`, read back as text when it is valid UTF-8.
/// Trusted, as documented: for a bare file name it is `extension_of` the
/// name. For other paths it depends on the platform and is not stated.
#[verifier::external_body]
pub(crate) fn path_extension(path: &str) -> (r: Option<String>)
    ensures
        plain_file_name(path@) ==> ostr(r) == extension_of(path@),
{
    std::path::Path::new(path).extension().and_then(|value| value.to_str()).map(str::to_string)
}

/// `std::path::Path::with_extension`, read back as text (lossily where it
/// is not UTF-8). It panics when the extension holds a separator, which
/// `requires` leaves out. Trusted, as documented (`PathBuf::set_extension`):
/// a bare file name becomes its stem followed by `.` and the extension
/// (nothing after the stem for an empty extension). What becomes of other
/// paths depends on the platform and is not stated.
#[verifier::external_body]
fn path_with_extension(path: &str, extension: &str) -> (r: String)
    requires
        forall|i: int| 0 <= i < extension@.len() ==> extension@[i] != '/' && extension@[i] != '\\',
    ensures
        plain_file_name(path@) ==> r@ == stem_of(path@) + (if extension@.len() > 0 {
            "."@ + extension@
        } else {
            Seq::empty()
        }),
{
    std::path::Path::new(path).with_extension(extension).to_string_lossy().to_string()
}

/// The container of recorded segments.
pub const RECORDING_SEGMENT_EXTENSION: &'static str = "mkv";

/// Where a recording's media is kept when it cannot become the final MP4:
/// the output path with the segment container's extension; for a bare file
/// name, its stem followed by `.mkv`.
pub fn recoverable_output_path_for_recording(output_path: &str) -> (r: String)
    ensures
        plain_file_name(output_path@) ==> r@ == stem_of(output_path@) + ".mkv"@,
{
    proof {
        reveal_strlit("mkv");
        reveal_strlit(".mkv");
        reveal_strlit(".");
        assert("."@ + "mkv"@ =~= ".mkv"@);
    }
    path_with_extension(output_path, RECORDING_SEGMENT_EXTENSION)
}

/// The position just after the last `/` or `\\` of a text, or 0.
pub open spec fn after_last_separator(s: Seq<char>) -> int
    decreases s.len(),
{
    if s.len() == 0 {
        0
    } else if s.last() == '/' || s.last() == '\\' {
        s.len() as int
    } else {
        after_last_separator(s.drop_last())
    }
}

/// The stem of a recording file, whatever separators its name holds: the
/// last piece after `/` or `\\`, without its last extension (a name that
/// only starts with `.` keeps it); `TikTok LIVE` when there is no name.
pub open spec fn portable_stem(file_name: Option<Seq<char>>) -> Seq<char> {
    let f = match file_name {
        Some(f) => f,
        None => "TikTok LIVE"@,
    };
    let g = f.subrange(after_last_separator(f), f.len() as int);
    match crate::text::rfind(g, "."@) {
        Some(i) => if i > 0 {
            g.take(i)
        } else {
            g
        },
        None => g,
    }
}

proof fn lemma_after_last_separator(s: Seq<char>)
    ensures
        0 <= after_last_separator(s) <= s.len(),
    decreases s.len(),
{
    if s.len() > 0 {
        lemma_after_last_separator(s.drop_last());
    }
}

proof fn lemma_after_last_separator_clean(s: Seq<char>)
    ensures
        forall|k: int| after_last_separator(s) <= k < s.len() ==> s[k] != '/' && s[k] != '\\',
    decreases s.len(),
{
    lemma_after_last_separator(s);
    if s.len() > 0 && !(s.last() == '/' || s.last() == '\\') {
        let p = s.drop_last();
        lemma_after_last_separator_clean(p);
        lemma_after_last_separator(p);
        assert forall|k: int| after_last_separator(s) <= k < s.len() implies s[k] != '/' && s[k]
            != '\\' by {
            if k < s.len() - 1 {
                assert(s[k] == p[k]);
            }
        }
    }
}

proof fn lemma_no_separator_start(s: Seq<char>)
    requires
        forall|i: int| 0 <= i < s.len() ==> s[i] != '/' && s[i] != '\\',
    ensures
        after_last_separator(s) == 0,
    decreases s.len(),
{
    if s.len() > 0 {
        lemma_no_separator_start(s.drop_last());
    }
}

/// The portable stem of a bare file name is its documented stem.
pub proof fn lemma_portable_stem_of_plain(name: Seq<char>)
    requires
        single_component(name),
    ensures
        portable_stem(Some(name)) == stem_of(name),
{
    lemma_no_separator_start(name);
    assert(name.subrange(0, name.len() as int) =~= name);
}

/// A portable stem holds no `/` or `\\`.
pub proof fn lemma_portable_stem_has_no_separator(file_name: Option<Seq<char>>)
    ensures
        forall|i: int|
            0 <= i < portable_stem(file_name).len() ==> portable_stem(file_name)[i] != '/'
                && portable_stem(file_name)[i] != '\\',
{
    let f = match file_name {
        Some(f) => f,
        None => "TikTok LIVE"@,
    };
    lemma_after_last_separator(f);
    lemma_after_last_separator_clean(f);
    let a = after_last_separator(f);
    let g = f.subrange(a, f.len() as int);
    reveal_strlit(".");
    crate::text::lemma_rfind_upto(g, "."@, g.len() - 1);
    assert forall|i: int| 0 <= i < portable_stem(file_name).len() implies portable_stem(file_name)[i]
        != '/' && portable_stem(file_name)[i] != '\\' by {
        assert(portable_stem(file_name)[i] == g[i]);
        assert(g[i] == f[a + i]);
    }
}

pub fn portable_stem_of_file_name(file_name: Option<&str>) -> (r: String)
    ensures
        r@ == portable_stem(opt_view(file_name)),
{
    let f = match file_name {
        Some(f) => chars_of(f),
        None => chars_of("TikTok LIVE"),
    };
    let mut j: usize = f.len();
    proof {
        lemma_after_last_separator(f@);
        assert(f@.take(f@.len() as int) =~= f@);
    }
    while j > 0 && f[j - 1] != '/' && f[j - 1] != '\\'
        invariant
            j <= f.len(),
            after_last_separator(f@) == after_last_separator(f@.take(j as int)),
        decreases j,
    {
        assert(f@.take(j as int).drop_last() =~= f@.take(j - 1));
        j -= 1;
    }
    proof {
        if j > 0 {
            assert(f@.take(j as int).last() == f@[j - 1]);
        } else {
            assert(f@.take(0) =~= Seq::<char>::empty());
        }
    }
    let g = crate::text::slice(&f, j, f.len());
    proof {
        reveal_strlit(".");
    }
    match crate::text::find_last(&g, &chars_of(".")) {
        Some(i) => {
            proof {
                crate::text::lemma_rfind_upto(g@, "."@, g@.len() - 1);
            }
            if i > 0 {
                string_of(&crate::text::slice(&g, 0, i))
            } else {
                string_of(&g)
            }
        },
        None => string_of(&g),
    }
}

pub open spec fn segment_name(stem: Seq<char>, index: nat) -> Seq<char> {
    stem + ".part-"@ + crate::text::zero_pad(crate::text::decimal(index), 3) + ".mkv"@
}

/// The file name of the `index`th segment of a recording.
pub fn segment_file_name(stem: &str, index: usize) -> (r: String)
    ensures
        r@ == segment_name(stem@, index as nat),
{
    let mut v = chars_of(stem);
    push_str(&mut v, ".part-");
    extend(&mut v, &crate::text::zero_padded(&crate::text::decimal_of(index as u64), 3));
    push_str(&mut v, ".mkv");
    string_of(&v)
}

/// The file name of the `index`th segment of the recording at
/// `output_path`; the segment lies next to the recording.
pub fn segment_file_name_for_recording(output_path: &str, index: usize) -> (r: String)
    ensures
        exists|file_name: Option<Seq<char>>| r@ == segment_name(portable_stem(file_name), index as nat),
        plain_file_name(output_path@) ==> r@ == segment_name(stem_of(output_path@), index as nat),
{
    proof {
        if plain_file_name(output_path@) {
            lemma_portable_stem_of_plain(output_path@);
        }
    }
    let name = path_file_name(output_path);
    let stem = match &name {
        Some(n) => portable_stem_of_file_name(Some(n.as_str())),
        None => portable_stem_of_file_name(None),
    };
    segment_file_name(stem.as_str(), index)
}

/// The container of a media file: its extension in ASCII lower case, or
/// `mkv` when it has none.
pub open spec fn media_extension_of(extension: Option<Seq<char>>) -> Seq<char> {
    match extension {
        Some(e) => if e.len() > 0 {
            lower(e)
        } else {
            "mkv"@
        },
        None => "mkv"@,
    }
}

pub fn media_extension_from(extension: Option<&str>) -> (r: String)
    ensures
        r@ == media_extension_of(opt_view(extension)),
{
    match extension {
        Some(e) => if chars_of(e).len() > 0 {
            string_of(&lower_vec(&chars_of(e)))
        } else {
            string_of(&chars_of("mkv"))
        },
        None => string_of(&chars_of("mkv")),
    }
}

/// The container of the media file at `path`.
pub fn media_extension(path: &str) -> (r: String)
    ensures
        exists|extension: Option<Seq<char>>| r@ == media_extension_of(extension),
        plain_file_name(path@) ==> r@ == media_extension_of(extension_of(path@)),
{
    let ext = path_extension(path);
    match &ext {
        Some(e) => media_extension_from(Some(e.as_str())),
        None => media_extension_from(None),
    }
}

/// The history identifier under which a recording job is listed.
pub fn persisted_history_id(job_id: &str) -> (r: String)
    ensures
        r@ == "tiktok-live:"@ + job_id@,
{
    let mut v = chars_of("tiktok-live:");
    push_str(&mut v, job_id);
    string_of(&v)
}

/// The title shown before the stream's own title is known.
pub fn initial_live_title(target: &TikTokLiveTarget) -> (r: String)
    ensures
        r@ == match target@.2 {
            Some(u) => "TikTok LIVE @"@ + u,
            None => "TikTok LIVE"@,
        },
{
    match &target.username {
        Some(u) => {
            let mut v = chars_of("TikTok LIVE @");
            push_str(&mut v, u.as_str());
            string_of(&v)
        },
        None => string_of(&chars_of("TikTok LIVE")),
    }
}

/// The message stored on a job whose recording stopped unexpectedly.
pub fn recovery_error_message() -> (r: String)
    ensures
        r@ == "TikTok Live recording stopped unexpectedly. Review Logs for details."@,
{
    string_of(&chars_of("TikTok Live recording stopped unexpectedly. Review Logs for details."))
}

/// One line of an ffmpeg concat list: the path with `\\` turned into `/`
/// and each `'` escaped for the quoted form.
pub open spec fn concat_line(path: Seq<char>) -> Seq<char> {
    "file '"@ + crate::text::replace(crate::text::replace(path, "\\"@, "/"@), "'"@, "'\\''"@)
        + "'"@
}

/// An ffmpeg concat list naming the paths in order, one per line, ending in
/// a newline.
pub open spec fn concat_list(paths: Seq<Seq<char>>) -> Seq<char> {
    crate::text::join(paths.map_values(|p: Seq<char>| concat_line(p)), "\n"@) + "\n"@
}

pub fn ffconcat_content(paths: &[String]) -> (r: String)
    ensures
        r@ == concat_list(strs(paths@)),
{
    let mut lines: Vec<Vec<char>> = Vec::new();
    let mut k: usize = 0;
    while k < paths.len()
        invariant
            k <= paths.len(),
            crate::text::vviews(lines@) == strs(paths@).take(k as int).map_values(
                |p: Seq<char>| concat_line(p),
            ),
        decreases paths.len() - k,
    {
        proof {
            reveal_strlit("\\");
            reveal_strlit("'");
        }
        let p = chars_of(paths[k].as_str());
        let a = replace_lit(&p, "\\", &chars_of("/"));
        let b = replace_lit(&a, "'", &chars_of("'\\''"));
        let mut line = chars_of("file '");
        extend(&mut line, &b);
        push_str(&mut line, "'");
        assert(strs(paths@)[k as int] == p@);
        assert(line@ =~= concat_line(p@));
        let ghost before = lines@;
        lines.push(line);
        assert(crate::text::vviews(lines@) =~= crate::text::vviews(before).push(concat_line(p@)));
        assert(crate::text::vviews(lines@) =~= strs(paths@).take(k + 1).map_values(
            |p: Seq<char>| concat_line(p),
        ));
        k += 1;
    }
    assert(strs(paths@).take(paths.len() as int) =~= strs(paths@));
    let mut out = crate::text::join_all(&lines, &chars_of("\n"));
    push_str(&mut out, "\n");
    string_of(&out)
}

pub const RECONNECT_MAX_RETRIES: u32 = 20;

pub const RECONNECT_DELAY_MAX_SECONDS: u32 = 5;

pub const RECONNECT_DELAY_TOTAL_MAX_SECONDS: u32 = 120;

/// The ffmpeg options that make a recording reconnect after network and
/// HTTP errors, with bounded retries and delays.
pub open spec fn reconnect_args() -> Seq<Seq<char>> {
    seq![
        "-reconnect"@,
        "1"@,
        "-reconnect_streamed"@,
        "1"@,
        "-reconnect_on_network_error"@,
        "1"@,
        "-reconnect_on_http_error"@,
        "408,429,5xx"@,
        "-reconnect_max_retries"@,
        "20"@,
        "-reconnect_delay_max"@,
        "5"@,
        "-reconnect_delay_total_max"@,
        "120"@,
    ]
}

fn push_arg(args: &mut Vec<String>, a: &str)
    ensures
        strs(final(args)@) == strs(old(args)@).push(a@),
{
    let ghost before = args@;
    args.push(string_of(&chars_of(a)));
    assert(strs(args@) =~= strs(before).push(a@));
}

pub fn append_reconnect_args(args: &mut Vec<String>, enabled: bool)
    ensures
        strs(final(args)@) == if enabled {
            strs(old(args)@) + reconnect_args()
        } else {
            strs(old(args)@)
        },
{
    if !enabled {
        return;
    }
    let ghost start = strs(args@);
    push_arg(args, "-reconnect");
    push_arg(args, "1");
    push_arg(args, "-reconnect_streamed");
    push_arg(args, "1");
    push_arg(args, "-reconnect_on_network_error");
    push_arg(args, "1");
    push_arg(args, "-reconnect_on_http_error");
    push_arg(args, "408,429,5xx");
    push_arg(args, "-reconnect_max_retries");
    push_arg(args, "20");
    push_arg(args, "-reconnect_delay_max");
    push_arg(args, "5");
    push_arg(args, "-reconnect_delay_total_max");
    push_arg(args, "120");
    assert(strs(args@) =~= start + reconnect_args());
}

// ---------------------------------------------------------------------------
// Ranking stream variants
// ---------------------------------------------------------------------------

/// The rank of a TikTok quality label, compared in ASCII lower case.
pub open spec fn quality_rank_of(quality: Seq<char>) -> i64 {
    let q = lower(quality);
    if q == "origin"@ {
        100
    } else if q == "uhd_60"@ {
        105
    } else if q == "uhd"@ {
        90
    } else if q == "hd_60"@ {
        80
    } else if q == "hd"@ {
        70
    } else if q == "sd"@ {
        60
    } else if q == "ld"@ {
        50
    } else if q == "ao"@ {
        10
    } else {
        0
    }
}

pub fn quality_rank(quality: Option<&str>) -> (r: i64)
    ensures
        r == quality_rank_of(
            match quality {
                Some(q) => q@,
                None => Seq::empty(),
            },
        ),
{
    let q = match quality {
        Some(q) => lower_vec(&chars_of(q)),
        None => {
            let e: Vec<char> = Vec::new();
            assert(lower(e@) =~= e@);
            e
        },
    };
    proof {
        if quality is None {
            assert(lower(Seq::<char>::empty()) =~= Seq::<char>::empty());
        }
    }
    if is_lit(&q, "origin") {
        100
    } else if is_lit(&q, "uhd_60") {
        105
    } else if is_lit(&q, "uhd") {
        90
    } else if is_lit(&q, "hd_60") {
        80
    } else if is_lit(&q, "hd") {
        70
    } else if is_lit(&q, "sd") {
        60
    } else if is_lit(&q, "ld") {
        50
    } else if is_lit(&q, "ao") {
        10
    } else {
        0
    }
}

/// The rank of a stream transport: FLV above HLS above LLS above plain HTTP.
pub open spec fn transport_rank_of(protocol: Seq<char>, ext: Seq<char>) -> i64 {
    let p = lower(protocol);
    let e = lower(ext);
    if crate::text::contains(p, "flv"@) || e == "flv"@ {
        30
    } else if crate::text::contains(p, "hls"@) || crate::text::contains(p, "m3u8"@) || e
        == "m3u8"@ {
        20
    } else if crate::text::contains(p, "lls"@) {
        10
    } else if crate::text::contains(p, "http"@) || crate::text::contains(p, "https"@) {
        5
    } else {
        0
    }
}

fn lower_or_empty(value: Option<&str>) -> (r: Vec<char>)
    ensures
        r@ == lower(
            match value {
                Some(v) => v@,
                None => Seq::empty(),
            },
        ),
{
    match value {
        Some(v) => lower_vec(&chars_of(v)),
        None => {
            let e: Vec<char> = Vec::new();
            assert(lower(Seq::<char>::empty()) =~= Seq::<char>::empty());
            e
        },
    }
}

fn has_text(s: &[char], p: &str) -> (r: bool)
    ensures
        r == crate::text::contains(s@, p@),
{
    let pv = chars_of(p);
    crate::text::contains_seq(s, &pv)
}

pub fn transport_rank(protocol: Option<&str>, ext: Option<&str>) -> (r: i64)
    ensures
        r == transport_rank_of(
            match protocol {
                Some(p) => p@,
                None => Seq::empty(),
            },
            match ext {
                Some(e) => e@,
                None => Seq::empty(),
            },
        ),
{
    let p = lower_or_empty(protocol);
    let e = lower_or_empty(ext);
    if has_text(&p, "flv") || is_lit(&e, "flv") {
        30
    } else if has_text(&p, "hls") || has_text(&p, "m3u8") || is_lit(&e, "m3u8") {
        20
    } else if has_text(&p, "lls") {
        10
    } else if has_text(&p, "http") || has_text(&p, "https") {
        5
    } else {
        0
    }
}

/// The text with the HTML entities for `"` and `&` decoded, in this order:
/// `&quot;`, `&#34;`, `&#x22;`, `&#X22;`, then `&amp;`.
pub open spec fn basic_entities_decoded(value: Seq<char>) -> Seq<char> {
    crate::text::replace(
        crate::text::replace(
            crate::text::replace(
                crate::text::replace(crate::text::replace(value, "&quot;"@, "\""@), "&#34;"@, "\""@),
                "&#x22;"@,
                "\""@,
            ),
            "&#X22;"@,
            "\""@,
        ),
        "&amp;"@,
        "&"@,
    )
}

pub fn decode_basic_html_entities(value: &str) -> (r: String)
    ensures
        r@ == basic_entities_decoded(value@),
{
    proof {
        reveal_strlit("&quot;");
        reveal_strlit("&#34;");
        reveal_strlit("&#x22;");
        reveal_strlit("&#X22;");
        reveal_strlit("&amp;");
    }
    let quote = chars_of("\"");
    let a = replace_lit(&chars_of(value), "&quot;", &quote);
    let b = replace_lit(&a, "&#34;", &quote);
    let c = replace_lit(&b, "&#x22;", &quote);
    let d = replace_lit(&c, "&#X22;", &quote);
    let e = replace_lit(&d, "&amp;", &chars_of("&"));
    string_of(&e)
}

// ---------------------------------------------------------------------------
// Quality and transport filters
// ---------------------------------------------------------------------------

/// A filter that selects nothing in particular: unset, blank, or `auto`.
pub open spec fn open_filter(filter: Option<Seq<char>>) -> bool {
    match filter {
        Some(f) => trim(f).len() == 0 || lower(trim(f)) == "auto"@,
        None => true,
    }
}

pub open spec fn text_matches(value: Option<Seq<char>>, filter: Seq<char>) -> bool {
    match value {
        Some(v) => crate::text::contains(lower(v), lower(filter)),
        None => false,
    }
}

/// Whether a variant (its quality label, note and format id) passes a
/// quality filter: an open filter passes everything, `origin` also takes
/// `uhd_60`, and otherwise the filter must occur in one of the three, in
/// any ASCII case.
pub open spec fn quality_filter_passes(
    quality: Option<Seq<char>>,
    note: Option<Seq<char>>,
    format_id: Seq<char>,
    filter: Option<Seq<char>>,
) -> bool {
    if open_filter(filter) {
        true
    } else {
        let f = trim(filter->0);
        (lower(f) == "origin"@ && match quality {
            Some(q) => lower(q) == "uhd_60"@,
            None => false,
        }) || text_matches(quality, f) || text_matches(note, f) || text_matches(Some(format_id), f)
    }
}

/// Whether a variant (its protocol and extension) passes a transport
/// filter: an open filter passes everything; otherwise the filter must
/// occur in the protocol or extension, and `hls` also takes `m3u8`.
pub open spec fn transport_filter_passes(
    protocol: Option<Seq<char>>,
    ext: Option<Seq<char>>,
    filter: Option<Seq<char>>,
) -> bool {
    if open_filter(filter) {
        true
    } else {
        let f = lower(trim(filter->0));
        let p = lower(
            match protocol {
                Some(p) => p,
                None => Seq::empty(),
            },
        );
        let e = lower(
            match ext {
                Some(e) => e,
                None => Seq::empty(),
            },
        );
        crate::text::contains(p, f) || crate::text::contains(e, f) || (f == "hls"@ && (
        crate::text::contains(p, "m3u8"@) || e == "m3u8"@))
    }
}

fn open_filter_exec(filter: Option<&str>) -> (r: Option<Vec<char>>)
    ensures
        r is None <==> open_filter(opt_view(filter)),
        r matches Some(f) ==> filter is Some && f@ == trim(opt_view(filter)->0),
{
    match filter {
        Some(f) => {
            let t = trim_ws(&chars_of(f));
            if t.len() == 0 || is_lit(&lower_vec(&t), "auto") {
                None
            } else {
                Some(t)
            }
        },
        None => None,
    }
}

fn text_matches_exec(value: Option<&str>, filter: &[char]) -> (r: bool)
    ensures
        r == text_matches(opt_view(value), filter@),
{
    match value {
        Some(v) => crate::text::contains_seq(&lower_vec(&chars_of(v)), &lower_vec(filter)),
        None => false,
    }
}

pub fn matches_quality_filter(
    quality: Option<&str>,
    note: Option<&str>,
    format_id: &str,
    filter: Option<&str>,
) -> (r: bool)
    ensures
        r == quality_filter_passes(opt_view(quality), opt_view(note), format_id@, opt_view(filter)),
{
    let f = match open_filter_exec(filter) {
        Some(f) => f,
        None => return true,
    };
    let origin = is_lit(&lower_vec(&f), "origin");
    let uhd = match quality {
        Some(q) => is_lit(&lower_vec(&chars_of(q)), "uhd_60"),
        None => false,
    };
    (origin && uhd) || text_matches_exec(quality, &f) || text_matches_exec(note, &f)
        || text_matches_exec(Some(format_id), &f)
}

pub fn matches_transport(protocol: Option<&str>, ext: Option<&str>, filter: Option<&str>) -> (r:
    bool)
    ensures
        r == transport_filter_passes(opt_view(protocol), opt_view(ext), opt_view(filter)),
{
    let f = match open_filter_exec(filter) {
        Some(f) => lower_vec(&f),
        None => return true,
    };
    let p = lower_or_empty(protocol);
    let e = lower_or_empty(ext);
    crate::text::contains_seq(&p, &f) || crate::text::contains_seq(&e, &f) || (is_lit(&f, "hls") && (
    has_text(&p, "m3u8") || is_lit(&e, "m3u8")))
}

} // verus!
