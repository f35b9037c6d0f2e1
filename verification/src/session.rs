//! A TikTok Live recording session: the ffmpeg command line of a segment,
//! what to do after a segment or a refresh of the signed stream URL, and
//! the job's state when the session starts, fails or completes.
use vstd::prelude::*;

use crate::jobs::{TikTokLiveJob, TikTokLiveJobStatus};
use crate::live::{append_reconnect_args, reconnect_args};
use crate::text::{
    chars_of, decimal, decimal_of, eq_ignore_case, is_lit, join, lower, ostr, push_str,
    signed_decimal, signed_decimal_of, string_of, strs, trim, trim_ws,
};

verus! {

// ---------------------------------------------------------------------------
// The ffmpeg command line of a segment
// ---------------------------------------------------------------------------

pub const TIKTOK_BROWSER_USER_AGENT: &'static str = "Mozilla/5.0 (Windows NT 10.0; Win64; x64) AppleWebKit/537.36 (KHTML, like Gecko) Chrome/126.0.0.0 Safari/537.36";

/// Request headers as name and value, in the order the stream's header map
/// is walked; only text values are headers.
pub open spec fn header_views(headers: Seq<(String, String)>) -> Seq<(Seq<char>, Seq<char>)> {
    headers.map_values(|h: (String, String)| (h.0@, h.1@))
}

/// The value of the first header whose name equals `name` up to ASCII case.
pub open spec fn header_lookup(headers: Seq<(Seq<char>, Seq<char>)>, name: Seq<char>) -> Option<
    Seq<char>,
>
    decreases headers.len(),
{
    if headers.len() == 0 {
        None
    } else if lower(headers[0].0) == lower(name) {
        Some(headers[0].1)
    } else {
        header_lookup(headers.drop_first(), name)
    }
}

/// The headers with `name: value` added when no header of that name is
/// there yet.
pub open spec fn with_header(headers: Seq<(Seq<char>, Seq<char>)>, name: Seq<char>, value: Seq<char>) -> Seq<
    (Seq<char>, Seq<char>),
> {
    if header_lookup(headers, name) is None {
        headers.push((name, value))
    } else {
        headers
    }
}

/// The headers ffmpeg is given: the stream's own, the cookie header when
/// one is given and not blank, and a browser user agent, referer and
/// origin for TikTok where the stream has none.
pub open spec fn ffmpeg_headers(headers: Seq<(Seq<char>, Seq<char>)>, cookie: Option<Seq<char>>) -> Seq<
    (Seq<char>, Seq<char>),
> {
    let with_cookie = match cookie {
        Some(c) => if trim(c).len() > 0 {
            with_header(headers, "Cookie"@, c)
        } else {
            headers
        },
        None => headers,
    };
    with_header(
        with_header(
            with_header(with_cookie, "User-Agent"@, TIKTOK_BROWSER_USER_AGENT@),
            "Referer"@,
            "https://www.tiktok.com/"@,
        ),
        "Origin"@,
        "https://www.tiktok.com"@,
    )
}

/// A header's value when it is not blank.
pub open spec fn present_header(headers: Seq<(Seq<char>, Seq<char>)>, name: Seq<char>) -> Option<
    Seq<char>,
> {
    match header_lookup(headers, name) {
        Some(v) => if trim(v).len() > 0 {
            Some(v)
        } else {
            None
        },
        None => None,
    }
}

pub open spec fn header_line(headers: Seq<(Seq<char>, Seq<char>)>, name: Seq<char>) -> Seq<Seq<char>> {
    match present_header(headers, name) {
        Some(v) => seq![name + ": "@ + v],
        None => Seq::empty(),
    }
}

/// The `-headers` block: the origin, referer and cookie lines that are
/// present, each ended by CRLF.
pub open spec fn header_block(headers: Seq<(Seq<char>, Seq<char>)>) -> Option<Seq<char>> {
    let lines = header_line(headers, "Origin"@) + header_line(headers, "Referer"@) + header_line(
        headers,
        "Cookie"@,
    );
    if lines.len() == 0 {
        None
    } else {
        Some(join(lines, "\r\n"@) + "\r\n"@)
    }
}

pub open spec fn option_pair(flag: Seq<char>, value: Option<Seq<char>>) -> Seq<Seq<char>> {
    match value {
        Some(v) => seq![flag, v],
        None => Seq::empty(),
    }
}

/// The ffmpeg command line that records one segment of the stream at `url`
/// into `output_path` as Matroska: the time left when there is a positive
/// one, the headers, reconnection when asked, and stream copy.
pub open spec fn ffmpeg_record_args(
    url: Seq<char>,
    headers: Seq<(Seq<char>, Seq<char>)>,
    cookie: Option<Seq<char>>,
    duration_seconds: Option<u32>,
    auto_reconnect: bool,
    output_path: Seq<char>,
) -> Seq<Seq<char>> {
    let h = ffmpeg_headers(headers, cookie);
    seq!["-hide_banner"@, "-nostdin"@, "-y"@] + (match duration_seconds {
        Some(s) => if s > 0 {
            seq!["-t"@, decimal(s as nat)]
        } else {
            Seq::empty()
        },
        None => Seq::empty(),
    }) + option_pair("-user_agent"@, present_header(h, "User-Agent"@)) + option_pair(
        "-referer"@,
        present_header(h, "Referer"@),
    ) + option_pair("-headers"@, header_block(h)) + (if auto_reconnect {
        reconnect_args()
    } else {
        Seq::empty()
    }) + seq![
        "-i"@,
        url,
        "-c"@,
        "copy"@,
        "-f"@,
        "matroska"@,
        "-cluster_time_limit"@,
        "2000"@,
        output_path,
    ]
}

fn lit(s: &str) -> (r: String)
    ensures
        r@ == s@,
{
    string_of(&chars_of(s))
}

fn copy_str(s: &str) -> (r: String)
    ensures
        r@ == s@,
{
    string_of(&chars_of(s))
}

/// The value of the first header named `name` up to ASCII case.
pub fn header_value(headers: &[(String, String)], name: &str) -> (r: Option<String>)
    ensures
        ostr(r) == header_lookup(header_views(headers@), name@),
{
    let n = chars_of(name);
    let ghost hv = header_views(headers@);
    let mut i: usize = 0;
    assert(hv.subrange(0, hv.len() as int) =~= hv);
    while i < headers.len()
        invariant
            i <= headers.len(),
            n@ == name@,
            hv == header_views(headers@),
            header_lookup(hv, name@) == header_lookup(hv.subrange(i as int, hv.len() as int), name@),
        decreases headers.len() - i,
    {
        let ghost rest = hv.subrange(i as int, hv.len() as int);
        assert(rest.drop_first() =~= hv.subrange(i + 1, hv.len() as int));
        assert(rest[0] == hv[i as int]);
        if eq_ignore_case(&chars_of(headers[i].0.as_str()), &n) {
            return Some(copy_str(headers[i].1.as_str()));
        }
        i += 1;
    }
    None
}

/// Adds `name: value` unless a header of that name is there.
pub fn insert_header_if_missing(headers: &mut Vec<(String, String)>, name: &str, value: &str)
    ensures
        header_views(final(headers)@) == with_header(header_views(old(headers)@), name@, value@),
{
    if header_value(headers, name).is_none() {
        let ghost before = headers@;
        headers.push((lit(name), copy_str(value)));
        assert(header_views(headers@) =~= header_views(before).push((name@, value@)));
    }
}

fn copy_headers(headers: &[(String, String)]) -> (r: Vec<(String, String)>)
    ensures
        header_views(r@) == header_views(headers@),
{
    let mut r: Vec<(String, String)> = Vec::new();
    let mut i: usize = 0;
    while i < headers.len()
        invariant
            i <= headers.len(),
            header_views(r@) == header_views(headers@).subrange(0, i as int),
        decreases headers.len() - i,
    {
        let ghost before = r@;
        let ghost hv = header_views(headers@);
        r.push((copy_str(headers[i].0.as_str()), copy_str(headers[i].1.as_str())));
        assert(header_views(r@) =~= header_views(before).push(hv[i as int]));
        assert(hv.subrange(0, i + 1) =~= hv.subrange(0, i as int).push(hv[i as int]));
        i += 1;
    }
    r
}

/// The headers ffmpeg is given for a stream with `headers`: a browser user
/// agent, referer and origin for TikTok are added where missing.
pub fn tiktok_ffmpeg_headers(headers: &[(String, String)]) -> (r: Vec<(String, String)>)
    ensures
        header_views(r@) == ffmpeg_headers(header_views(headers@), None),
{
    let mut h = copy_headers(headers);
    insert_header_if_missing(&mut h, "User-Agent", TIKTOK_BROWSER_USER_AGENT);
    insert_header_if_missing(&mut h, "Referer", "https://www.tiktok.com/");
    insert_header_if_missing(&mut h, "Origin", "https://www.tiktok.com");
    h
}

fn present_header_exec(headers: &[(String, String)], name: &str) -> (r: Option<String>)
    ensures
        ostr(r) == present_header(header_views(headers@), name@),
{
    match header_value(headers, name) {
        Some(v) => if trim_ws(&chars_of(v.as_str())).len() > 0 {
            Some(v)
        } else {
            None
        },
        None => None,
    }
}

/// The `-headers` block of the origin, referer and cookie headers.
pub fn ffmpeg_header_block(headers: &[(String, String)]) -> (r: Option<String>)
    ensures
        ostr(r) == header_block(header_views(headers@)),
{
    let ghost hv = header_views(headers@);
    let mut lines: Vec<Vec<char>> = Vec::new();
    if let Some(v) = present_header_exec(headers, "Origin") {
        let mut l = chars_of("Origin");
        push_str(&mut l, ": ");
        push_str(&mut l, v.as_str());
        lines.push(l);
    }
    if let Some(v) = present_header_exec(headers, "Referer") {
        let mut l = chars_of("Referer");
        push_str(&mut l, ": ");
        push_str(&mut l, v.as_str());
        lines.push(l);
    }
    if let Some(v) = present_header_exec(headers, "Cookie") {
        let mut l = chars_of("Cookie");
        push_str(&mut l, ": ");
        push_str(&mut l, v.as_str());
        lines.push(l);
    }
    assert(crate::text::vviews(lines@) =~= header_line(hv, "Origin"@) + header_line(hv, "Referer"@)
        + header_line(hv, "Cookie"@));
    if lines.len() == 0 {
        None
    } else {
        let mut out = crate::text::join_all(&lines, &chars_of("\r\n"));
        push_str(&mut out, "\r\n");
        Some(string_of(&out))
    }
}

fn push_pair(args: &mut Vec<String>, flag: &str, value: Option<String>)
    ensures
        strs(final(args)@) == strs(old(args)@) + option_pair(flag@, ostr(value)),
{
    let ghost before = strs(args@);
    match value {
        Some(v) => {
            args.push(lit(flag));
            args.push(v);
            assert(strs(args@) =~= before + seq![flag@, ostr(Some(v)).unwrap()]);
        },
        None => {
            assert(strs(args@) =~= before + Seq::<Seq<char>>::empty());
        },
    }
}

/// The ffmpeg command line that records one segment.
pub fn build_ffmpeg_record_args(
    url: &str,
    http_headers: &[(String, String)],
    cookie_header: Option<&str>,
    duration_seconds: Option<u32>,
    auto_reconnect: bool,
    output_path: &str,
) -> (r: Vec<String>)
    ensures
        strs(r@) == ffmpeg_record_args(
            url@,
            header_views(http_headers@),
            crate::text::opt_view(cookie_header),
            duration_seconds,
            auto_reconnect,
            output_path@,
        ),
{
    let mut args: Vec<String> = Vec::new();
    args.push(lit("-hide_banner"));
    args.push(lit("-nostdin"));
    args.push(lit("-y"));
    if let Some(seconds) = duration_seconds {
        if seconds > 0 {
            args.push(lit("-t"));
            args.push(string_of(&decimal_of(seconds as u64)));
        }
    }
    let ghost after_time = strs(args@);
    let mut headers = copy_headers(http_headers);
    if let Some(cookie) = cookie_header {
        if trim_ws(&chars_of(cookie)).len() > 0 {
            insert_header_if_missing(&mut headers, "Cookie", cookie);
        }
    }
    insert_header_if_missing(&mut headers, "User-Agent", TIKTOK_BROWSER_USER_AGENT);
    insert_header_if_missing(&mut headers, "Referer", "https://www.tiktok.com/");
    insert_header_if_missing(&mut headers, "Origin", "https://www.tiktok.com");
    let ghost h = header_views(headers@);
    assert(h == ffmpeg_headers(header_views(http_headers@), crate::text::opt_view(cookie_header)));
    push_pair(&mut args, "-user_agent", present_header_exec(&headers, "User-Agent"));
    push_pair(&mut args, "-referer", present_header_exec(&headers, "Referer"));
    push_pair(&mut args, "-headers", ffmpeg_header_block(&headers));
    let ghost before_reconnect = strs(args@);
    append_reconnect_args(&mut args, auto_reconnect);
    let ghost before_tail = strs(args@);
    args.push(lit("-i"));
    args.push(copy_str(url));
    args.push(lit("-c"));
    args.push(lit("copy"));
    args.push(lit("-f"));
    args.push(lit("matroska"));
    args.push(lit("-cluster_time_limit"));
    args.push(lit("2000"));
    args.push(copy_str(output_path));
    assert(strs(args@) =~= before_tail + seq![
        "-i"@,
        url@,
        "-c"@,
        "copy"@,
        "-f"@,
        "matroska"@,
        "-cluster_time_limit"@,
        "2000"@,
        output_path@,
    ]);
    assert(after_time =~= seq!["-hide_banner"@, "-nostdin"@, "-y"@] + (match duration_seconds {
        Some(s) => if s > 0 {
            seq!["-t"@, decimal(s as nat)]
        } else {
            Seq::empty()
        },
        None => Seq::empty(),
    }));
    args
}

// ---------------------------------------------------------------------------
// After a segment and after a refresh
// ---------------------------------------------------------------------------

/// How many times a session refreshes the signed stream URL at most.
pub const STREAM_URL_REFRESH_ATTEMPTS: u32 = 3;

/// What a recording session does next.
#[derive(Clone, Copy, PartialEq, Eq, Structural, Debug)]
pub enum SessionStep {
    /// Record the next segment.
    RecordSegment,
    /// Fetch a fresh signed stream URL.
    RefreshStream,
    /// Stop and finalize what was recorded.
    Finish,
    /// Stop with an error.
    Fail,
}

/// The decision, with the error message when the session fails.
#[derive(Clone, Debug)]
pub enum SessionAction {
    RecordSegment,
    RefreshStream,
    Finish,
    Fail(String),
}

pub open spec fn action_view(a: SessionAction) -> (SessionStep, Seq<char>) {
    match a {
        SessionAction::RecordSegment => (SessionStep::RecordSegment, Seq::empty()),
        SessionAction::RefreshStream => (SessionStep::RefreshStream, Seq::empty()),
        SessionAction::Finish => (SessionStep::Finish, Seq::empty()),
        SessionAction::Fail(m) => (SessionStep::Fail, m@),
    }
}

/// The state of a recording session: whether it reconnects, how many URL
/// refreshes it made, and whether what it recorded is partial.
#[derive(Clone, Copy, Debug)]
pub struct RecordingSession {
    pub auto_reconnect: bool,
    pub refresh_attempts: u32,
    pub partial: bool,
}

/// How a segment's ffmpeg process ended.
#[derive(Clone, Copy, Debug)]
pub struct SegmentEnd {
    /// The process exited successfully.
    pub succeeded: bool,
    /// Its exit code, when it has one.
    pub exit_code: Option<i32>,
    /// A duration was set and no time is left.
    pub time_is_up: bool,
    /// The session holds media: some segment recorded so far is not empty.
    pub has_media: bool,
}

/// What a refresh of the signed stream URL brought.
#[derive(Clone, Debug)]
pub enum RefreshResult {
    /// A stream matching the preferences was found again.
    Refreshed,
    /// The metadata came back without a matching stream; `offline` when it
    /// shows the live has ended.
    NoStreamFound { offline: bool },
    /// Fetching failed with `error`; `offline` when it says the live has
    /// ended.
    FetchFailed { offline: bool, error: String },
}

/// `Option<i32>` as its debug text.
pub open spec fn exit_code_text(code: Option<i32>) -> Seq<char> {
    match code {
        Some(c) => "Some("@ + signed_decimal(c as int) + ")"@,
        None => "None"@,
    }
}

/// The session and its next step after a segment ended. A successful exit
/// or the end of the time finishes; without reconnection, or once the
/// refreshes are used up, what was recorded is kept as partial; otherwise
/// the stream URL is refreshed. Whatever would finish fails when the
/// session has no media.
pub open spec fn segment_step(s: RecordingSession, end: SegmentEnd) -> (RecordingSession, SessionStep, Seq<
    char,
>) {
    if end.succeeded {
        if end.has_media {
            (s, SessionStep::Finish, Seq::empty())
        } else {
            (s, SessionStep::Fail, "FFmpeg completed without recording TikTok Live media."@)
        }
    } else if end.time_is_up {
        if end.has_media {
            (s, SessionStep::Finish, Seq::empty())
        } else {
            (s, SessionStep::Fail, "TikTok Live recording ended without media."@)
        }
    } else if !s.auto_reconnect {
        if end.has_media {
            (RecordingSession { partial: true, ..s }, SessionStep::Finish, Seq::empty())
        } else {
            (s, SessionStep::Fail, "FFmpeg exited with code: "@ + exit_code_text(end.exit_code))
        }
    } else if s.refresh_attempts >= STREAM_URL_REFRESH_ATTEMPTS {
        if end.has_media {
            (RecordingSession { partial: true, ..s }, SessionStep::Finish, Seq::empty())
        } else {
            (
                s,
                SessionStep::Fail,
                "TikTok Live stream URL refresh attempts were exhausted without media."@,
            )
        }
    } else {
        (
            RecordingSession { refresh_attempts: (s.refresh_attempts + 1) as u32, ..s },
            SessionStep::RefreshStream,
            Seq::empty(),
        )
    }
}

/// The session and its next step after a refresh. A found stream is
/// recorded; otherwise what was recorded is finished, partial unless the
/// live has ended, and a session without media fails.
pub open spec fn refresh_step(s: RecordingSession, result: RefreshResult, has_media: bool) -> (
    RecordingSession,
    SessionStep,
    Seq<char>,
) {
    match result {
        RefreshResult::Refreshed => (s, SessionStep::RecordSegment, Seq::empty()),
        RefreshResult::NoStreamFound { offline } => if has_media {
            (RecordingSession { partial: !offline, ..s }, SessionStep::Finish, Seq::empty())
        } else {
            (s, SessionStep::Fail, "No TikTok Live stream variants found after URL refresh."@)
        },
        RefreshResult::FetchFailed { offline, error } => if has_media {
            (RecordingSession { partial: !offline, ..s }, SessionStep::Finish, Seq::empty())
        } else {
            (s, SessionStep::Fail, error@)
        },
    }
}

impl RecordingSession {
    /// A session; what a resumed job already recorded makes it partial.
    pub fn new(auto_reconnect: bool, resumed_with_media: bool) -> (r: RecordingSession)
        ensures
            r.auto_reconnect == auto_reconnect,
            r.refresh_attempts == 0,
            r.partial == resumed_with_media,
    {
        RecordingSession { auto_reconnect, refresh_attempts: 0, partial: resumed_with_media }
    }

    pub fn after_segment(&mut self, end: SegmentEnd) -> (r: SessionAction)
        ensures
            (*final(self), action_view(r).0, action_view(r).1) == segment_step(*old(self), end),
    {
        if end.succeeded {
            if end.has_media {
                return SessionAction::Finish;
            }
            return SessionAction::Fail(lit("FFmpeg completed without recording TikTok Live media."));
        }
        if end.time_is_up {
            if end.has_media {
                return SessionAction::Finish;
            }
            return SessionAction::Fail(lit("TikTok Live recording ended without media."));
        }
        if !self.auto_reconnect {
            if end.has_media {
                self.partial = true;
                return SessionAction::Finish;
            }
            let mut m = chars_of("FFmpeg exited with code: ");
            match end.exit_code {
                Some(c) => {
                    push_str(&mut m, "Some(");
                    crate::text::extend(&mut m, &signed_decimal_of(c as i64));
                    push_str(&mut m, ")");
                },
                None => push_str(&mut m, "None"),
            }
            return SessionAction::Fail(string_of(&m));
        }
        if self.refresh_attempts >= STREAM_URL_REFRESH_ATTEMPTS {
            if end.has_media {
                self.partial = true;
                return SessionAction::Finish;
            }
            return SessionAction::Fail(
                lit("TikTok Live stream URL refresh attempts were exhausted without media."),
            );
        }
        self.refresh_attempts = self.refresh_attempts + 1;
        SessionAction::RefreshStream
    }

    pub fn after_refresh(&mut self, result: RefreshResult, has_media: bool) -> (r: SessionAction)
        ensures
            (*final(self), action_view(r).0, action_view(r).1) == refresh_step(
                *old(self),
                result,
                has_media,
            ),
    {
        match result {
            RefreshResult::Refreshed => SessionAction::RecordSegment,
            RefreshResult::NoStreamFound { offline } => if has_media {
                self.partial = !offline;
                SessionAction::Finish
            } else {
                SessionAction::Fail(lit("No TikTok Live stream variants found after URL refresh."))
            },
            RefreshResult::FetchFailed { offline, error } => if has_media {
                self.partial = !offline;
                SessionAction::Finish
            } else {
                SessionAction::Fail(error)
            },
        }
    }
}

/// A session refreshes the stream URL only while it has made fewer than
/// `STREAM_URL_REFRESH_ATTEMPTS` refreshes, and each refresh counts once,
/// so a session never refreshes more than that many times; a refresh's
/// own result never changes the count.
pub proof fn law_session_refreshes_are_bounded(
    s: RecordingSession,
    end: SegmentEnd,
    result: RefreshResult,
    has_media: bool,
)
    requires
        s.refresh_attempts <= STREAM_URL_REFRESH_ATTEMPTS,
    ensures
        segment_step(s, end).0.refresh_attempts <= STREAM_URL_REFRESH_ATTEMPTS,
        segment_step(s, end).1 == SessionStep::RefreshStream ==> s.refresh_attempts
            < STREAM_URL_REFRESH_ATTEMPTS && segment_step(s, end).0.refresh_attempts
            == s.refresh_attempts + 1,
        segment_step(s, end).1 != SessionStep::RefreshStream ==> segment_step(s, end).0.refresh_attempts
            == s.refresh_attempts,
        refresh_step(s, result, has_media).0.refresh_attempts == s.refresh_attempts,
{
}

/// A session finishes only when it holds media: without media, every way
/// of stopping is a failure. Without reconnection it never refreshes.
pub proof fn law_session_finishes_only_with_media(
    s: RecordingSession,
    end: SegmentEnd,
    result: RefreshResult,
    has_media: bool,
)
    ensures
        segment_step(s, end).1 == SessionStep::Finish ==> end.has_media,
        !end.has_media ==> segment_step(s, end).1 == SessionStep::Fail || segment_step(s, end).1
            == SessionStep::RefreshStream,
        refresh_step(s, result, has_media).1 == SessionStep::Finish ==> has_media,
        !s.auto_reconnect ==> segment_step(s, end).1 != SessionStep::RefreshStream,
{
}

// ---------------------------------------------------------------------------
// The job of a session
// ---------------------------------------------------------------------------

/// What a recording is asked to do, as plain values.
#[derive(Clone, Debug)]
pub struct RecordingRequest {
    pub job_id: String,
    /// The folder recordings go to, already resolved.
    pub output_dir: String,
    pub duration_seconds: Option<u32>,
    pub preferred_quality: Option<String>,
    pub preferred_transport: Option<String>,
    pub cookie_mode: Option<String>,
    pub cookie_browser: Option<String>,
    pub cookie_browser_profile: Option<String>,
    pub cookie_file_path: Option<String>,
    /// Reconnection is on unless turned off.
    pub auto_reconnect: Option<bool>,
}

fn copy_opt(o: &Option<String>) -> (r: Option<String>)
    ensures
        ostr(r) == ostr(*o),
{
    match o {
        Some(v) => Some(copy_str(v.as_str())),
        None => None,
    }
}

/// The job a recording runs under: the stored job when there is one (which
/// must be resumable), else a new one that is preparing, titled from the
/// target and listed under its history identifier; either way with the
/// target, folder and options of this request, the recoverable media it
/// already has as its segments, and no final path, completion or error.
pub fn prepare_recording_job(
    existing: Option<TikTokLiveJob>,
    request: &RecordingRequest,
    target: &crate::live::TikTokLiveTarget,
    target_url: &str,
    recoverable_segments: Vec<String>,
    now: i64,
) -> (r: Result<TikTokLiveJob, String>)
    ensures
        match r {
            Err(m) => existing matches Some(e) && !e.status.resumable()
                && m@ == "This TikTok Live recording job cannot be resumed."@,
            Ok(j) => {
                &&& existing matches Some(e) ==> e.status.resumable() && j == (TikTokLiveJob {
                    target_input: j.target_input,
                    target_url: j.target_url,
                    username: j.username,
                    output_dir: j.output_dir,
                    preferred_quality: j.preferred_quality,
                    preferred_transport: j.preferred_transport,
                    duration_seconds: j.duration_seconds,
                    cookie_mode: j.cookie_mode,
                    cookie_browser: j.cookie_browser,
                    cookie_browser_profile: j.cookie_browser_profile,
                    cookie_file_path: j.cookie_file_path,
                    auto_reconnect: j.auto_reconnect,
                    segment_paths: j.segment_paths,
                    final_path: j.final_path,
                    completed_at: j.completed_at,
                    error_message: j.error_message,
                    ..e
                })
                &&& existing is None ==> {
                    &&& j.id@ == request.job_id@
                    &&& j.title@ == match target@.2 {
                        Some(u) => "TikTok LIVE @"@ + u,
                        None => "TikTok LIVE"@,
                    }
                    &&& j.thumbnail is None && j.output_path is None && j.format_id is None
                    &&& j.status == TikTokLiveJobStatus::Preparing
                    &&& j.refresh_count == 0 && j.reconnect_count == 0
                    &&& ostr(j.history_id) == Some("tiktok-live:"@ + request.job_id@)
                    &&& j.started_at == now && j.updated_at == now
                }
                &&& j.target_input@ == target.input@
                &&& j.target_url@ == target_url@
                &&& ostr(j.username) == ostr(target.username)
                &&& j.output_dir@ == request.output_dir@
                &&& ostr(j.preferred_quality) == ostr(request.preferred_quality)
                &&& ostr(j.preferred_transport) == ostr(request.preferred_transport)
                &&& j.duration_seconds == request.duration_seconds
                &&& ostr(j.cookie_mode) == ostr(request.cookie_mode)
                &&& ostr(j.cookie_browser) == ostr(request.cookie_browser)
                &&& ostr(j.cookie_browser_profile) == ostr(request.cookie_browser_profile)
                &&& ostr(j.cookie_file_path) == ostr(request.cookie_file_path)
                &&& j.auto_reconnect == (request.auto_reconnect != Some(false))
                &&& strs(j.segment_paths@) == strs(recoverable_segments@)
                &&& j.final_path is None && j.completed_at is None && j.error_message is None
            },
        },
{
    if let Some(e) = &existing {
        if !e.status.can_resume() {
            return Err(lit("This TikTok Live recording job cannot be resumed."));
        }
    }
    let auto_reconnect = match request.auto_reconnect {
        Some(b) => b,
        None => true,
    };
    let mut job = match existing {
        Some(e) => e,
        None => TikTokLiveJob {
            id: copy_str(request.job_id.as_str()),
            target_input: copy_str(target.input.as_str()),
            target_url: copy_str(target_url),
            username: copy_opt(&target.username),
            title: crate::live::initial_live_title(target),
            thumbnail: None,
            output_dir: copy_str(request.output_dir.as_str()),
            output_path: None,
            final_path: None,
            preferred_quality: copy_opt(&request.preferred_quality),
            preferred_transport: copy_opt(&request.preferred_transport),
            duration_seconds: request.duration_seconds,
            cookie_mode: copy_opt(&request.cookie_mode),
            cookie_browser: copy_opt(&request.cookie_browser),
            cookie_browser_profile: copy_opt(&request.cookie_browser_profile),
            cookie_file_path: copy_opt(&request.cookie_file_path),
            auto_reconnect,
            status: TikTokLiveJobStatus::Preparing,
            segment_paths: Vec::new(),
            refresh_count: 0,
            reconnect_count: 0,
            format_id: None,
            history_id: Some(crate::live::persisted_history_id(request.job_id.as_str())),
            error_message: None,
            started_at: now,
            updated_at: now,
            completed_at: None,
        },
    };
    job.target_input = copy_str(target.input.as_str());
    job.target_url = copy_str(target_url);
    job.username = copy_opt(&target.username);
    job.output_dir = copy_str(request.output_dir.as_str());
    job.preferred_quality = copy_opt(&request.preferred_quality);
    job.preferred_transport = copy_opt(&request.preferred_transport);
    job.duration_seconds = request.duration_seconds;
    job.cookie_mode = copy_opt(&request.cookie_mode);
    job.cookie_browser = copy_opt(&request.cookie_browser);
    job.cookie_browser_profile = copy_opt(&request.cookie_browser_profile);
    job.cookie_file_path = copy_opt(&request.cookie_file_path);
    job.auto_reconnect = auto_reconnect;
    job.segment_paths = recoverable_segments;
    job.final_path = None;
    job.completed_at = None;
    job.error_message = None;
    Ok(job)
}

/// Counts a refresh of the stream URL on the job, which reconnects.
pub fn record_stream_refresh(job: &mut TikTokLiveJob)
    requires
        old(job).refresh_count < u32::MAX,
        old(job).reconnect_count < u32::MAX,
    ensures
        *final(job) == (TikTokLiveJob {
            refresh_count: (old(job).refresh_count + 1) as u32,
            reconnect_count: (old(job).reconnect_count + 1) as u32,
            status: TikTokLiveJobStatus::Reconnecting,
            ..*old(job)
        }),
{
    job.refresh_count = job.refresh_count + 1;
    job.reconnect_count = job.reconnect_count + 1;
    job.status = TikTokLiveJobStatus::Reconnecting;
}

/// The status a job is left in when its recording fails.
pub open spec fn failed_status(cancelled: bool, has_recoverable_media: bool) -> TikTokLiveJobStatus {
    if cancelled {
        TikTokLiveJobStatus::Cancelled
    } else if has_recoverable_media {
        TikTokLiveJobStatus::Recoverable
    } else {
        TikTokLiveJobStatus::Failed
    }
}

/// Records on the job that its recording failed: its segments are the ones
/// still holding media; a cancelled job is completed now, any other keeps
/// the recovery message and is recoverable when media is left (a segment,
/// or `other_media`: its final or output file), failed otherwise; the job
/// is marked as updated.
pub fn mark_recording_failed(
    job: &mut TikTokLiveJob,
    cancelled: bool,
    segments_with_media: Vec<String>,
    other_media: bool,
    now: i64,
)
    ensures
        final(job).status == failed_status(cancelled, segments_with_media@.len() > 0 || other_media),
        strs(final(job).segment_paths@) == strs(segments_with_media@),
        ostr(final(job).error_message) == (if cancelled {
            None
        } else {
            Some("TikTok Live recording stopped unexpectedly. Review Logs for details."@)
        }),
        final(job).completed_at == (if cancelled {
            Some(now)
        } else {
            None
        }),
        *final(job) == (TikTokLiveJob {
            status: final(job).status,
            segment_paths: final(job).segment_paths,
            error_message: final(job).error_message,
            completed_at: final(job).completed_at,
            updated_at: final(job).updated_at,
            ..*old(job)
        }),
{
    let has_media = segments_with_media.len() > 0 || other_media;
    job.segment_paths = segments_with_media;
    job.status = if cancelled {
        TikTokLiveJobStatus::Cancelled
    } else if has_media {
        TikTokLiveJobStatus::Recoverable
    } else {
        TikTokLiveJobStatus::Failed
    };
    job.error_message = if cancelled {
        None
    } else {
        Some(crate::live::recovery_error_message())
    };
    job.completed_at = if cancelled {
        Some(now)
    } else {
        None
    };
    job.touch();
}

/// Records on the job that finalizing its recovered media failed: it stays
/// recoverable, with the recovery message, marked as updated.
pub fn mark_recovery_failed(job: &mut TikTokLiveJob)
    ensures
        final(job).status == TikTokLiveJobStatus::Recoverable,
        ostr(final(job).error_message) == Some(
            "TikTok Live recording stopped unexpectedly. Review Logs for details."@,
        ),
        *final(job) == (TikTokLiveJob {
            status: final(job).status,
            error_message: final(job).error_message,
            updated_at: final(job).updated_at,
            ..*old(job)
        }),
{
    job.status = TikTokLiveJobStatus::Recoverable;
    job.error_message = Some(crate::live::recovery_error_message());
    job.touch();
}

/// The first step of completing a job with its final file: a missing or
/// empty file is an error that leaves the job as it was; otherwise the
/// file becomes the final path while the job is finalizing, and the
/// history identifier to list it under is returned (the job's own, else
/// the one made from its id).
pub fn begin_job_completion(job: &mut TikTokLiveJob, filepath: &str, filesize: Option<u64>) -> (r:
    Result<String, String>)
    ensures
        match r {
            Err(m) => (filesize is None || filesize == Some(0u64)) && *final(job) == *old(job)
                && m@ == "TikTok Live final media file is missing or empty."@,
            Ok(h) => {
                &&& filesize matches Some(n) && n > 0
                &&& ostr(final(job).final_path) == Some(filepath@)
                &&& final(job).status == TikTokLiveJobStatus::Finalizing
                &&& h@ == match ostr(old(job).history_id) {
                    Some(id) => id,
                    None => "tiktok-live:"@ + old(job).id@,
                }
                &&& *final(job) == (TikTokLiveJob {
                    final_path: final(job).final_path,
                    status: final(job).status,
                    updated_at: final(job).updated_at,
                    ..*old(job)
                })
            },
        },
{
    match filesize {
        Some(n) => if n == 0 {
            return Err(lit("TikTok Live final media file is missing or empty."));
        },
        None => {
            return Err(lit("TikTok Live final media file is missing or empty."));
        },
    }
    job.final_path = Some(copy_str(filepath));
    job.status = TikTokLiveJobStatus::Finalizing;
    job.touch();
    match &job.history_id {
        Some(h) => Ok(copy_str(h.as_str())),
        None => Ok(crate::live::persisted_history_id(job.id.as_str())),
    }
}

/// The last step of completing a job once its history entry is saved: the
/// job is listed under `history_id`, partial or completed now, without
/// error; the result describes the file.
pub fn finish_job_completion(
    job: &mut TikTokLiveJob,
    history_id: &str,
    filepath: &str,
    filesize: Option<u64>,
    partial: bool,
    now: i64,
) -> (r: crate::recorder::TikTokLiveRecordResult)
    ensures
        ostr(final(job).history_id) == Some(history_id@),
        final(job).status == (if partial {
            TikTokLiveJobStatus::Partial
        } else {
            TikTokLiveJobStatus::Completed
        }),
        final(job).completed_at == Some(now),
        final(job).error_message is None,
        *final(job) == (TikTokLiveJob {
            history_id: final(job).history_id,
            status: final(job).status,
            completed_at: final(job).completed_at,
            error_message: final(job).error_message,
            updated_at: final(job).updated_at,
            ..*old(job)
        }),
        r.job_id@ == old(job).id@,
        r.history_id@ == history_id@,
        r.filepath@ == filepath@,
        r.title@ == old(job).title@,
        r.filesize == filesize,
        r.partial == partial,
{
    job.history_id = Some(copy_str(history_id));
    job.status = if partial {
        TikTokLiveJobStatus::Partial
    } else {
        TikTokLiveJobStatus::Completed
    };
    job.completed_at = Some(now);
    job.error_message = None;
    job.touch();
    crate::recorder::TikTokLiveRecordResult {
        job_id: copy_str(job.id.as_str()),
        history_id: copy_str(history_id),
        filepath: copy_str(filepath),
        title: copy_str(job.title.as_str()),
        filesize,
        partial,
    }
}

// ---------------------------------------------------------------------------
// Recovery
// ---------------------------------------------------------------------------

/// Whether a job left for recovery can be finalized now: not while it
/// records, and only a stored job that is still resumable.
pub fn check_recovery_finalizable(active: bool, job: Option<&TikTokLiveJob>) -> (r: Result<(), String>)
    ensures
        match r {
            Ok(()) => !active && (job matches Some(j) && j.status.resumable()),
            Err(m) => m@ == (if active {
                "Stop the active TikTok Live recording before finalizing it."@
            } else if job is None {
                "TikTok Live job not found."@
            } else {
                "This TikTok Live recording no longer needs recovery."@
            }),
        },
{
    if active {
        return Err(lit("Stop the active TikTok Live recording before finalizing it."));
    }
    match job {
        None => Err(lit("TikTok Live job not found.")),
        Some(j) => if j.status.can_resume() {
            Ok(())
        } else {
            Err(lit("This TikTok Live recording no longer needs recovery."))
        },
    }
}

/// Whether a job left for recovery can be recorded further.
pub fn check_recovery_continuable(job: Option<&TikTokLiveJob>) -> (r: Result<(), String>)
    ensures
        match r {
            Ok(()) => job matches Some(j) && j.status.resumable(),
            Err(m) => m@ == (if job is None {
                "TikTok Live job not found."@
            } else {
                "This TikTok Live recording no longer needs recovery."@
            }),
        },
{
    match job {
        None => Err(lit("TikTok Live job not found.")),
        Some(j) => if j.status.can_resume() {
            Ok(())
        } else {
            Err(lit("This TikTok Live recording no longer needs recovery."))
        },
    }
}

/// Whether the recovery data of a job can be deleted, and whether its own
/// files are to be removed with it (they are when the job knows the output
/// it generated). Media without that identity is never deleted.
pub fn check_recovery_deletable(active: bool, job: Option<&TikTokLiveJob>, has_recoverable_media: bool) -> (r:
    Result<bool, String>)
    ensures
        match r {
            Ok(remove_files) => !active && (job matches Some(j) && j.status.resumable() && remove_files
                == (j.output_path is Some) && (j.output_path is None ==> !has_recoverable_media)),
            Err(m) => m@ == (if active {
                "Stop the active TikTok Live recording before deleting recovery data."@
            } else if job is None {
                "TikTok Live job not found."@
            } else if !job.unwrap().status.resumable() {
                "Completed TikTok Live recordings must be managed from Library."@
            } else {
                "Refusing to delete recovery media without its generated output identity."@
            }),
        },
{
    if active {
        return Err(lit("Stop the active TikTok Live recording before deleting recovery data."));
    }
    match job {
        None => Err(lit("TikTok Live job not found.")),
        Some(j) => if !j.status.can_resume() {
            Err(lit("Completed TikTok Live recordings must be managed from Library."))
        } else if j.output_path.is_some() {
            Ok(true)
        } else if has_recoverable_media {
            Err(lit("Refusing to delete recovery media without its generated output identity."))
        } else {
            Ok(false)
        },
    }
}

/// Where recovered media comes from: a finished file already on disk, or
/// the segments to merge. With neither, the job is marked interrupted and
/// the recovery fails.
pub fn plan_recovery(job: &mut TikTokLiveJob, existing_final: Option<String>, segment_count: usize) -> (r:
    Result<Option<String>, String>)
    ensures
        match r {
            Ok(source) => (existing_final is Some || segment_count > 0) && ostr(source) == ostr(
                existing_final,
            ) && *final(job) == *old(job),
            Err(m) => existing_final is None && segment_count == 0
                && m@ == "No recoverable TikTok Live media was found on disk."@
                && *final(job) == (TikTokLiveJob {
                status: TikTokLiveJobStatus::Interrupted,
                updated_at: final(job).updated_at,
                ..*old(job)
            }),
        },
{
    if existing_final.is_none() && segment_count == 0 {
        job.status = TikTokLiveJobStatus::Interrupted;
        job.touch();
        return Err(lit("No recoverable TikTok Live media was found on disk."));
    }
    Ok(existing_final)
}

// ---------------------------------------------------------------------------
// Log messages
// ---------------------------------------------------------------------------

/// What the log says of a finished recording.
pub open spec fn recording_success_text(
    title: Seq<char>,
    finalization_failed: bool,
    partial: bool,
    segment_count: nat,
    refresh_attempts: nat,
) -> Seq<char> {
    "Recorded TikTok Live: "@ + title + if finalization_failed {
        " ("@ + decimal(segment_count)
            + " segments preserved because automatic MP4 finalization failed)"@
    } else if partial {
        " (partial recording merged after "@ + decimal(refresh_attempts)
            + " signed URL refresh attempts)"@
    } else if segment_count > 1 {
        " ("@ + decimal(segment_count) + " segments merged after "@ + decimal(refresh_attempts)
            + " signed URL refreshes)"@
    } else {
        Seq::empty()
    }
}

pub fn recording_success_message(
    title: &str,
    finalization_failed: bool,
    partial: bool,
    segment_count: usize,
    refresh_attempts: u32,
) -> (r: String)
    ensures
        r@ == recording_success_text(
            title@,
            finalization_failed,
            partial,
            segment_count as nat,
            refresh_attempts as nat,
        ),
{
    let mut v = chars_of("Recorded TikTok Live: ");
    push_str(&mut v, title);
    let ghost head = v@;
    if finalization_failed {
        push_str(&mut v, " (");
        crate::text::extend(&mut v, &decimal_of(segment_count as u64));
        push_str(&mut v, " segments preserved because automatic MP4 finalization failed)");
    } else if partial {
        push_str(&mut v, " (partial recording merged after ");
        crate::text::extend(&mut v, &decimal_of(refresh_attempts as u64));
        push_str(&mut v, " signed URL refresh attempts)");
    } else if segment_count > 1 {
        push_str(&mut v, " (");
        crate::text::extend(&mut v, &decimal_of(segment_count as u64));
        push_str(&mut v, " segments merged after ");
        crate::text::extend(&mut v, &decimal_of(refresh_attempts as u64));
        push_str(&mut v, " signed URL refreshes)");
    } else {
        assert(v@ == head + Seq::<char>::empty());
    }
    string_of(&v)
}

/// What the log says of a recovered recording.
pub fn recovery_success_message(title: &str, finalization_failed: bool) -> (r: String)
    ensures
        r@ == "Recovered TikTok Live recording: "@ + title@ + if finalization_failed {
            " (MKV preserved because MP4 finalization failed)"@
        } else {
            Seq::empty()
        },
{
    let mut v = chars_of("Recovered TikTok Live recording: ");
    push_str(&mut v, title);
    let ghost head = v@;
    if finalization_failed {
        push_str(&mut v, " (MKV preserved because MP4 finalization failed)");
    } else {
        assert(v@ == head + Seq::<char>::empty());
    }
    string_of(&v)
}

// ---------------------------------------------------------------------------
// Fetching metadata and finalizing
// ---------------------------------------------------------------------------

/// How many times the metadata of a stream is fetched at most.
pub const METADATA_FETCH_ATTEMPTS: u32 = 3;

pub const METADATA_RETRY_BASE_DELAY_MS: u64 = 750;

/// The pause before the next metadata fetch after failed attempt `attempt`.
pub fn metadata_retry_delay_ms(attempt: u32) -> (r: u64)
    ensures
        r == METADATA_RETRY_BASE_DELAY_MS * attempt,
{
    METADATA_RETRY_BASE_DELAY_MS * (attempt as u64)
}

/// Whether failed attempt `attempt` is followed by another: only for an
/// error worth retrying, and never past the last attempt.
pub fn should_retry_metadata_fetch(attempt: u32, retryable: bool) -> (r: bool)
    ensures
        r == (attempt < METADATA_FETCH_ATTEMPTS && retryable),
{
    attempt < METADATA_FETCH_ATTEMPTS && retryable
}

/// The live page of a room's owner.
pub fn owner_live_url(username: &str) -> (r: String)
    ensures
        r@ == "https://www.tiktok.com/@"@ + username@ + "/live"@,
{
    let mut v = chars_of("https://www.tiktok.com/@");
    push_str(&mut v, username);
    push_str(&mut v, "/live");
    string_of(&v)
}

/// The ffmpeg command line that turns the recorded segments into the final
/// MP4: from the concat list when there are several segments, else from
/// the one segment; streams are copied with zero-based timestamps and the
/// index at the front.
pub open spec fn finalize_args(concat_list: Option<Seq<char>>, first_segment: Seq<char>, output_path: Seq<
    char,
>) -> Seq<Seq<char>> {
    seq!["-hide_banner"@, "-nostdin"@, "-y"@, "-fflags"@, "+genpts"@] + match concat_list {
        Some(list) => seq!["-f"@, "concat"@, "-safe"@, "0"@, "-i"@, list],
        None => seq!["-i"@, first_segment],
    } + seq![
        "-c"@,
        "copy"@,
        "-avoid_negative_ts"@,
        "make_zero"@,
        "-movflags"@,
        "+faststart"@,
        output_path,
    ]
}

pub fn build_finalize_args(concat_list: Option<&str>, first_segment: &str, output_path: &str) -> (r: Vec<
    String,
>)
    ensures
        strs(r@) == finalize_args(crate::text::opt_view(concat_list), first_segment@, output_path@),
{
    let mut args: Vec<String> = Vec::new();
    args.push(lit("-hide_banner"));
    args.push(lit("-nostdin"));
    args.push(lit("-y"));
    args.push(lit("-fflags"));
    args.push(lit("+genpts"));
    match concat_list {
        Some(list) => {
            args.push(lit("-f"));
            args.push(lit("concat"));
            args.push(lit("-safe"));
            args.push(lit("0"));
            args.push(lit("-i"));
            args.push(copy_str(list));
        },
        None => {
            args.push(lit("-i"));
            args.push(copy_str(first_segment));
        },
    }
    args.push(lit("-c"));
    args.push(lit("copy"));
    args.push(lit("-avoid_negative_ts"));
    args.push(lit("make_zero"));
    args.push(lit("-movflags"));
    args.push(lit("+faststart"));
    args.push(copy_str(output_path));
    assert(strs(args@) =~= finalize_args(
        crate::text::opt_view(concat_list),
        first_segment@,
        output_path@,
    ));
    args
}

/// What finalizing does once merging was tried.
#[derive(Clone, Copy, PartialEq, Eq, Structural, Debug)]
pub enum FinalizeOutcome {
    /// The merged file is the recording.
    Merged,
    /// The single segment is kept, as recoverable media, as the recording.
    KeepSingleSegment,
}

/// The outcome of finalizing `segment_count` segments: no segments is an
/// error; a non-empty merged file is the recording; otherwise a single
/// segment is kept, and several segments are an error that leaves them
/// all for recovery.
pub fn finalization_outcome(segment_count: usize, merged: bool) -> (r: Result<FinalizeOutcome, String>)
    ensures
        match r {
            Ok(FinalizeOutcome::Merged) => segment_count > 0 && merged,
            Ok(FinalizeOutcome::KeepSingleSegment) => segment_count == 1 && !merged,
            Err(m) => if segment_count == 0 {
                m@ == "TikTok Live recording produced no media segments."@
            } else {
                !merged && segment_count > 1 && m@
                    == "TikTok Live segments could not be merged. All recorded segments were preserved for recovery."@
            },
        },
{
    if segment_count == 0 {
        return Err(lit("TikTok Live recording produced no media segments."));
    }
    if merged {
        return Ok(FinalizeOutcome::Merged);
    }
    if segment_count == 1 {
        return Ok(FinalizeOutcome::KeepSingleSegment);
    }
    Err(
        lit(
            "TikTok Live segments could not be merged. All recorded segments were preserved for recovery.",
        ),
    )
}

} // verus!
