//! Download requests that arrive on the command line.
use vstd::prelude::*;

use crate::text::{
    ostr, opt_view, chars_of, contains, contains_seq, drop_while, drop_while_end, ends_with, eq_ignore_case,
    has_prefix, has_suffix, is_lit, is_whitespace, is_ws, lower, lower_vec, parse_bounded,
    parse_uint, slice, split, split_all, starts_with, string_of, strip_prefix, trim, trim_cls,
    trim_class, trim_end_class, trim_start_class, trim_ws, vviews, CharClass,
};
use crate::urls::{parse_url, url_parts, ParsedUrl, UrlView};

verus! {

pub const MAX_PENDING_CLI_DOWNLOAD_REQUESTS: usize = 100;

pub const MAX_CLI_URL_LENGTH: usize = 2048;

/// A download request built from command-line arguments.
pub struct CliDownloadRequest {
    pub url: String,
    pub target: String,
    pub action: String,
    pub media: String,
    pub quality: String,
    pub trusted_local: bool,
}

impl View for CliDownloadRequest {
    type V = (Seq<char>, Seq<char>, Seq<char>, Seq<char>, Seq<char>, bool);

    open spec fn view(&self) -> Self::V {
        (self.url@, self.target@, self.action@, self.media@, self.quality@, self.trusted_local)
    }
}

/// The payload of the event that hands command-line requests to the window.
pub struct ExternalCliDownloadEventPayload {
    pub requests: Vec<CliDownloadRequest>,
}

/// Command-line arguments as the parser found them.
pub struct CliDownloadArgs {
    pub url: Option<String>,
    pub quality: Option<String>,
    pub audio: bool,
    pub queue_only: bool,
    pub target: Option<String>,
}


/// The arguments as plain values: url, quality, audio, queue-only, target.
pub struct CliArgsModel {
    pub url: Option<Seq<char>>,
    pub quality: Option<Seq<char>>,
    pub audio: bool,
    pub queue_only: bool,
    pub target: Option<Seq<char>>,
}

impl View for CliDownloadArgs {
    type V = CliArgsModel;

    open spec fn view(&self) -> CliArgsModel {
        CliArgsModel {
            url: ostr(self.url),
            quality: ostr(self.quality),
            audio: self.audio,
            queue_only: self.queue_only,
            target: ostr(self.target),
        }
    }
}

impl Default for CliDownloadArgs {
    fn default() -> (r: Self)
        ensures
            r@ == (CliArgsModel {
                url: None,
                quality: None,
                audio: false,
                queue_only: false,
                target: None,
            }),
    {
        CliDownloadArgs { url: None, quality: None, audio: false, queue_only: false, target: None }
    }
}

// ---------------------------------------------------------------------------
// Accepted URLs
// ---------------------------------------------------------------------------

/// The host as it is compared: trimmed, without IPv6 brackets, lower case.
pub open spec fn normalized_host(hostname: Seq<char>) -> Seq<char> {
    lower(drop_while_end(drop_while(trim(hostname), CharClass::One('[')), CharClass::One(']')))
}

/// A host in 172.16.0.0/12.
pub open spec fn in_private_172(host: Seq<char>) -> bool {
    has_prefix(host, "172."@) && match parse_uint(
        split(host.subrange("172."@.len() as int, host.len() as int), "."@)[0],
        255,
    ) {
        Some(v) => 16 <= v <= 31,
        None => false,
    }
}

/// Hosts that a command-line request may not point at: empty, loopback,
/// link-local, private ranges and local names.
pub open spec fn is_private_host(hostname: Seq<char>) -> bool {
    let host = normalized_host(hostname);
    ||| host.len() == 0
    ||| host == "localhost"@
    ||| host == "0.0.0.0"@
    ||| host == "::"@
    ||| host == "::1"@
    ||| has_suffix(host, ".localhost"@)
    ||| has_suffix(host, ".local"@)
    ||| has_suffix(host, ".internal"@)
    ||| has_prefix(host, "127."@)
    ||| has_prefix(host, "10."@)
    ||| has_prefix(host, "192.168."@)
    ||| has_prefix(host, "169.254."@)
    ||| in_private_172(host)
    ||| (contains(host, ":"@) && (has_prefix(host, "fe80:"@) || has_prefix(host, "fc"@)
        || has_prefix(host, "fd"@)))
}

pub fn is_private_or_local_host(hostname: &str) -> (r: bool)
    ensures
        r == is_private_host(hostname@),
{
    let h = chars_of(hostname);
    let t = trim_ws(&h);
    let t = trim_start_class(&t, &CharClass::One('['));
    let t = trim_end_class(&t, &CharClass::One(']'));
    let host = lower_vec(&t);
    if host.len() == 0 {
        return true;
    }
    if is_lit(&host, "localhost") || is_lit(&host, "0.0.0.0") || is_lit(&host, "::") || is_lit(
        &host,
        "::1",
    ) || ends_with(&host, &chars_of(".localhost")) || ends_with(&host, &chars_of(".local"))
        || ends_with(&host, &chars_of(".internal")) {
        return true;
    }
    if starts_with(&host, &chars_of("127.")) || starts_with(&host, &chars_of("10."))
        || starts_with(&host, &chars_of("192.168.")) || starts_with(
        &host,
        &chars_of("169.254."),
    ) {
        return true;
    }
    let p172 = chars_of("172.");
    if starts_with(&host, &p172) {
        let rest = slice(&host, p172.len(), host.len());
        proof {
            reveal_strlit(".");
        }
        let dot = chars_of(".");
        let parts = split_all(&rest, &dot);
        proof {
            assert(vviews(parts@) == split(rest@, "."@));
            crate::text::lemma_split_nonempty(rest@, "."@);
        }
        let first = &parts[0];
        if let Some(v) = parse_bounded(first, 255) {
            if 16 <= v && v <= 31 {
                return true;
            }
        }
    }
    if contains_seq(&host, &chars_of(":")) {
        return starts_with(&host, &chars_of("fe80:")) || starts_with(&host, &chars_of("fc"))
            || starts_with(&host, &chars_of("fd"));
    }
    false
}

pub open spec fn has_ws(s: Seq<char>) -> bool {
    exists|i: int| 0 <= i < s.len() && is_ws(#[trigger] s[i])
}

pub fn contains_whitespace(s: &[char]) -> (r: bool)
    ensures
        r == has_ws(s@),
{
    let mut k: usize = 0;
    while k < s.len()
        invariant
            k <= s.len(),
            forall|j: int| 0 <= j < k ==> !is_ws(#[trigger] s@[j]),
        decreases s.len() - k,
    {
        if is_whitespace(s[k]) {
            assert(is_ws(s@[k as int]));
            return true;
        }
        k += 1;
    }
    false
}

/// Whether a command-line URL is accepted, given what the URL parser made of
/// it: at most 2048 bytes, no whitespace, `http` or `https`, and a host that
/// is not private or local.
pub open spec fn url_accepted(
    url: Seq<char>,
    parts: Option<UrlView>,
) -> bool {
    &&& url.len() > 0
    &&& (vstd::utf8::encode_utf8(url).len() as usize) <= MAX_CLI_URL_LENGTH
    &&& !has_ws(url)
    &&& match parts {
        Some(p) => (p.0 == "http"@ || p.0 == "https"@) && match p.1 {
            Some(h) => !is_private_host(h),
            None => false,
        },
        None => false,
    }
}

pub open spec fn cli_url_accepted(url: Seq<char>) -> bool {
    url_accepted(url, url_parts(url))
}

pub open spec fn parsed_view(p: Option<ParsedUrl>) -> Option<UrlView> {
    match p {
        Some(u) => Some(u@),
        None => None,
    }
}

/// Decides a command-line URL from the URL parser's verdict on it.
pub fn accepts_parsed_cli_url(url: &str, parsed: &Option<ParsedUrl>) -> (r: bool)
    ensures
        r == url_accepted(url@, parsed_view(*parsed)),
{
    let chars = chars_of(url);
    if chars.len() == 0 || url.len() > MAX_CLI_URL_LENGTH {
        return false;
    }
    if contains_whitespace(&chars) {
        return false;
    }
    match parsed {
        Some(p) => {
            let scheme = chars_of(p.scheme.as_str());
            if !is_lit(&scheme, "http") && !is_lit(&scheme, "https") {
                return false;
            }
            match &p.host {
                Some(h) => !is_private_or_local_host(h.as_str()),
                None => false,
            }
        },
        None => false,
    }
}

pub fn is_accepted_cli_url(url: &str) -> (r: bool)
    ensures
        r == cli_url_accepted(url@),
{
    let parsed = parse_url(url);
    accepts_parsed_cli_url(url, &parsed)
}

// ---------------------------------------------------------------------------
// Requests
// ---------------------------------------------------------------------------

/// The URL as given, without surrounding whitespace and quotes.
pub open spec fn cleaned_cli_url(u: Seq<char>) -> Seq<char> {
    trim_cls(trim_cls(trim(u), CharClass::One('"')), CharClass::One('\''))
}

pub open spec fn allowed_quality(q: Seq<char>, audio: bool) -> bool {
    if audio {
        q == "128"@ || q == "auto"@
    } else {
        ||| q == "best"@
        ||| q == "8k"@
        ||| q == "4k"@
        ||| q == "2k"@
        ||| q == "1080"@
        ||| q == "720"@
        ||| q == "480"@
        ||| q == "360"@
    }
}

pub open spec fn cli_quality(value: Option<Seq<char>>, audio: bool) -> Seq<char> {
    let fallback = if audio {
        "auto"@
    } else {
        "best"@
    };
    match value {
        None => fallback,
        Some(v) => {
            let q = lower(trim(v));
            if allowed_quality(q, audio) {
                q
            } else {
                fallback
            }
        },
    }
}

pub open spec fn cli_target(value: Option<Seq<char>>) -> Seq<char> {
    match value {
        None => "auto"@,
        Some(v) => {
            let t = lower(trim(v));
            if t == "youtube"@ || t == "universal"@ {
                t
            } else {
                "auto"@
            }
        },
    }
}

/// The request that command-line arguments describe, when their URL is
/// accepted.
pub open spec fn cli_request(a: CliArgsModel) -> Option<
    (Seq<char>, Seq<char>, Seq<char>, Seq<char>, Seq<char>, bool),
> {
    match a.url {
        None => None,
        Some(u) => {
            let url = cleaned_cli_url(u);
            if cli_url_accepted(url) {
                Some(
                    (
                        url,
                        cli_target(a.target),
                        if a.queue_only {
                            "queue_only"@
                        } else {
                            "download_now"@
                        },
                        if a.audio {
                            "audio"@
                        } else {
                            "video"@
                        },
                        cli_quality(a.quality, a.audio),
                        true,
                    ),
                )
            } else {
                None
            }
        },
    }
}

pub open spec fn req_view(r: Option<CliDownloadRequest>) -> Option<
    (Seq<char>, Seq<char>, Seq<char>, Seq<char>, Seq<char>, bool),
> {
    match r {
        Some(q) => Some(q@),
        None => None,
    }
}

pub fn normalize_cli_quality(value: Option<&str>, audio: bool) -> (r: String)
    ensures
        r@ == cli_quality(opt_view(value), audio),
{
    let fallback = if audio {
        "auto"
    } else {
        "best"
    };
    let Some(v) = value else {
        return string_of(&chars_of(fallback));
    };
    let vv = chars_of(v);
    let q = lower_vec(&trim_ws(&vv));
    let allowed = if audio {
        is_lit(&q, "128") || is_lit(&q, "auto")
    } else {
        is_lit(&q, "best") || is_lit(&q, "8k") || is_lit(&q, "4k") || is_lit(&q, "2k") || is_lit(
            &q,
            "1080",
        ) || is_lit(&q, "720") || is_lit(&q, "480") || is_lit(&q, "360")
    };
    if allowed {
        string_of(&q)
    } else {
        string_of(&chars_of(fallback))
    }
}

pub fn normalize_cli_target(value: Option<&str>) -> (r: String)
    ensures
        r@ == cli_target(opt_view(value)),
{
    let Some(v) = value else {
        return string_of(&chars_of("auto"));
    };
    let vv = chars_of(v);
    let t = lower_vec(&trim_ws(&vv));
    if is_lit(&t, "youtube") || is_lit(&t, "universal") {
        string_of(&t)
    } else {
        string_of(&chars_of("auto"))
    }
}

/// Builds the request for the given arguments; `None` when there is no URL
/// or the URL is not accepted.
pub fn build_cli_download_request(args: &CliDownloadArgs) -> (r: Option<CliDownloadRequest>)
    ensures
        req_view(r) == cli_request(args@),
{
    let Some(raw) = &args.url else {
        return None;
    };
    let rv = chars_of(raw.as_str());
    let u = trim_ws(&rv);
    let u = trim_class(&u, &CharClass::One('"'));
    let u = trim_class(&u, &CharClass::One('\''));
    let url = string_of(&u);
    if !is_accepted_cli_url(url.as_str()) {
        return None;
    }
    let media = string_of(
        &chars_of(
            if args.audio {
                "audio"
            } else {
                "video"
            },
        ),
    );
    let quality = normalize_cli_quality(
        match &args.quality {
            Some(q) => Some(q.as_str()),
            None => None,
        },
        args.audio,
    );
    let action = string_of(
        &chars_of(
            if args.queue_only {
                "queue_only"
            } else {
                "download_now"
            },
        ),
    );
    let target = normalize_cli_target(
        match &args.target {
            Some(t) => Some(t.as_str()),
            None => None,
        },
    );
    Some(CliDownloadRequest { url, target, action, media, quality, trusted_local: true })
}


// ---------------------------------------------------------------------------
// Raw argv
// ---------------------------------------------------------------------------

/// The arguments after a `--flag=value` or positional argument `arg`.
pub open spec fn apply_other_arg(arg: Seq<char>, a: CliArgsModel) -> CliArgsModel {
    if has_prefix(arg, "--url="@) {
        CliArgsModel { url: Some(arg.subrange("--url="@.len() as int, arg.len() as int)), ..a }
    } else if has_prefix(arg, "--quality="@) {
        CliArgsModel {
            quality: Some(arg.subrange("--quality="@.len() as int, arg.len() as int)),
            ..a
        }
    } else if has_prefix(arg, "--target="@) {
        CliArgsModel {
            target: Some(arg.subrange("--target="@.len() as int, arg.len() as int)),
            ..a
        }
    } else if !has_prefix(arg, "-"@) && a.url is None {
        CliArgsModel { url: Some(arg), ..a }
    } else {
        a
    }
}

/// The arguments that `argv[i..]` leave when parsed on top of `a`.
pub open spec fn parse_argv_from(argv: Seq<Seq<char>>, i: int, a: CliArgsModel) -> CliArgsModel
    decreases argv.len() - i,
{
    if i < 0 || i >= argv.len() {
        a
    } else {
        let arg = argv[i];
        if arg == "--url"@ || arg == "-u"@ {
            if i + 1 < argv.len() {
                parse_argv_from(argv, i + 2, CliArgsModel { url: Some(argv[i + 1]), ..a })
            } else {
                a
            }
        } else if arg == "--quality"@ || arg == "-q"@ {
            if i + 1 < argv.len() {
                parse_argv_from(argv, i + 2, CliArgsModel { quality: Some(argv[i + 1]), ..a })
            } else {
                a
            }
        } else if arg == "--target"@ || arg == "-t"@ {
            if i + 1 < argv.len() {
                parse_argv_from(argv, i + 2, CliArgsModel { target: Some(argv[i + 1]), ..a })
            } else {
                a
            }
        } else if arg == "--audio"@ || arg == "-a"@ {
            parse_argv_from(argv, i + 1, CliArgsModel { audio: true, ..a })
        } else if arg == "--queue-only"@ {
            parse_argv_from(argv, i + 1, CliArgsModel { queue_only: true, ..a })
        } else {
            parse_argv_from(argv, i + 1, apply_other_arg(arg, a))
        }
    }
}

/// The arguments that a raw argv describes; the program name is skipped.
pub open spec fn parse_argv(argv: Seq<Seq<char>>) -> CliArgsModel {
    parse_argv_from(
        argv,
        1,
        CliArgsModel { url: None, quality: None, audio: false, queue_only: false, target: None },
    )
}

fn value_after(rest: Vec<char>) -> (r: Option<String>)
    ensures
        r matches Some(s) && s@ == rest@,
{
    Some(string_of(&rest))
}

/// Best-effort parser for a raw argv, with the flags of the declared CLI.
/// Unknown flags are ignored.
pub fn parse_cli_args_from_argv(argv: &[String]) -> (r: CliDownloadArgs)
    ensures
        r@ == parse_argv(argv@.map_values(|s: String| s@)),
{
    let ghost av = argv@.map_values(|s: String| s@);
    let mut args = CliDownloadArgs::default();
    let mut i: usize = 1;
    while i < argv.len()
        invariant
            av == argv@.map_values(|s: String| s@),
            1 <= i,
            parse_argv_from(av, i as int, args@) == parse_argv(av),
        decreases argv.len() - i,
    {
        let arg = chars_of(argv[i].as_str());
        assert(arg@ == av[i as int]);
        if is_lit(&arg, "--url") || is_lit(&arg, "-u") {
            if i + 1 < argv.len() {
                args.url = Some(argv[i + 1].clone());
                assert(args.url matches Some(u) && u@ == av[i + 1]);
                i += 2;
            } else {
                return args;
            }
        } else if is_lit(&arg, "--quality") || is_lit(&arg, "-q") {
            if i + 1 < argv.len() {
                args.quality = Some(argv[i + 1].clone());
                i += 2;
            } else {
                return args;
            }
        } else if is_lit(&arg, "--target") || is_lit(&arg, "-t") {
            if i + 1 < argv.len() {
                args.target = Some(argv[i + 1].clone());
                i += 2;
            } else {
                return args;
            }
        } else if is_lit(&arg, "--audio") || is_lit(&arg, "-a") {
            args.audio = true;
            i += 1;
        } else if is_lit(&arg, "--queue-only") {
            args.queue_only = true;
            i += 1;
        } else {
            if let Some(rest) = strip_prefix(&arg, &chars_of("--url=")) {
                args.url = value_after(rest);
            } else if let Some(rest) = strip_prefix(&arg, &chars_of("--quality=")) {
                args.quality = value_after(rest);
            } else if let Some(rest) = strip_prefix(&arg, &chars_of("--target=")) {
                args.target = value_after(rest);
            } else if !starts_with(&arg, &chars_of("-")) && args.url.is_none() {
                args.url = Some(string_of(&arg));
            }
            i += 1;
        }
    }
    args
}

/// Builds the request that a raw argv describes.
pub fn build_cli_download_request_from_argv(argv: &[String]) -> (r: Option<CliDownloadRequest>)
    ensures
        req_view(r) == cli_request(parse_argv(argv@.map_values(|s: String| s@))),
{
    let args = parse_cli_args_from_argv(argv);
    build_cli_download_request(&args)
}

// ---------------------------------------------------------------------------
// The pending queue
// ---------------------------------------------------------------------------

pub open spec fn reqs_view(v: Seq<CliDownloadRequest>) -> Seq<
    (Seq<char>, Seq<char>, Seq<char>, Seq<char>, Seq<char>, bool),
> {
    v.map_values(|r: CliDownloadRequest| r@)
}

/// Two requests for the same download: equal in all but `trusted_local`.
pub open spec fn same_request(
    a: (Seq<char>, Seq<char>, Seq<char>, Seq<char>, Seq<char>, bool),
    b: (Seq<char>, Seq<char>, Seq<char>, Seq<char>, Seq<char>, bool),
) -> bool {
    a.0 == b.0 && a.1 == b.1 && a.2 == b.2 && a.3 == b.3 && a.4 == b.4
}

/// The first entry of `p` at or after `i` for the same download as `r`.
pub open spec fn first_same_from(
    p: Seq<(Seq<char>, Seq<char>, Seq<char>, Seq<char>, Seq<char>, bool)>,
    r: (Seq<char>, Seq<char>, Seq<char>, Seq<char>, Seq<char>, bool),
    i: int,
) -> Option<int>
    decreases p.len() - i,
{
    if i < 0 || i >= p.len() {
        None
    } else if same_request(p[i], r) {
        Some(i)
    } else {
        first_same_from(p, r, i + 1)
    }
}

/// The queue after one request arrives: requests with a refused URL are
/// dropped, a repeated request only widens `trusted_local` of the queued one,
/// and a new request is appended, dropping the oldest beyond the limit.
pub open spec fn enqueue_one(
    p: Seq<(Seq<char>, Seq<char>, Seq<char>, Seq<char>, Seq<char>, bool)>,
    r: (Seq<char>, Seq<char>, Seq<char>, Seq<char>, Seq<char>, bool),
) -> Seq<(Seq<char>, Seq<char>, Seq<char>, Seq<char>, Seq<char>, bool)> {
    if !cli_url_accepted(r.0) {
        p
    } else {
        match first_same_from(p, r, 0) {
            Some(i) => p.update(i, (p[i].0, p[i].1, p[i].2, p[i].3, p[i].4, p[i].5 || r.5)),
            None => {
                let q = p.push(r);
                if q.len() > MAX_PENDING_CLI_DOWNLOAD_REQUESTS {
                    q.subrange(q.len() - MAX_PENDING_CLI_DOWNLOAD_REQUESTS, q.len() as int)
                } else {
                    q
                }
            },
        }
    }
}

/// The queue after the requests `rs` arrive in order.
pub open spec fn enqueue_all(
    p: Seq<(Seq<char>, Seq<char>, Seq<char>, Seq<char>, Seq<char>, bool)>,
    rs: Seq<(Seq<char>, Seq<char>, Seq<char>, Seq<char>, Seq<char>, bool)>,
) -> Seq<(Seq<char>, Seq<char>, Seq<char>, Seq<char>, Seq<char>, bool)>
    decreases rs.len(),
{
    if rs.len() == 0 {
        p
    } else {
        enqueue_one(enqueue_all(p, rs.drop_last()), rs.last())
    }
}

proof fn lemma_first_same_from(
    p: Seq<(Seq<char>, Seq<char>, Seq<char>, Seq<char>, Seq<char>, bool)>,
    r: (Seq<char>, Seq<char>, Seq<char>, Seq<char>, Seq<char>, bool),
    i: int,
)
    requires
        0 <= i,
    ensures
        first_same_from(p, r, i) matches Some(k) ==> i <= k < p.len() && same_request(p[k], r),
        first_same_from(p, r, i) is None ==> forall|j: int|
            i <= j < p.len() ==> !same_request(#[trigger] p[j], r),
    decreases p.len() - i,
{
    if i < p.len() && !same_request(p[i], r) {
        lemma_first_same_from(p, r, i + 1);
    }
}

fn same_request_exec(a: &CliDownloadRequest, b: &CliDownloadRequest) -> (r: bool)
    ensures
        r == same_request(a@, b@),
{
    a.url == b.url && a.target == b.target && a.action == b.action && a.media == b.media
        && a.quality == b.quality
}

fn enqueue_request(pending: &mut Vec<CliDownloadRequest>, request: CliDownloadRequest)
    ensures
        reqs_view(final(pending)@) == enqueue_one(reqs_view(old(pending)@), request@),
{
    if !is_accepted_cli_url(request.url.as_str()) {
        return;
    }
    let ghost p = reqs_view(pending@);
    let mut i: usize = 0;
    while i < pending.len()
        invariant
            p == reqs_view(pending@),
            p == reqs_view(old(pending)@),
            cli_url_accepted(request@.0),
            i <= pending.len(),
            first_same_from(p, request@, 0) == first_same_from(p, request@, i as int),
        decreases pending.len() - i,
    {
        if same_request_exec(&pending[i], &request) {
            assert(p[i as int] == pending@[i as int]@);
            assert(first_same_from(p, request@, i as int) == Some(i as int));
            let mut item = pending.remove(i);
            item.trusted_local = item.trusted_local || request.trusted_local;
            pending.insert(i, item);
            assert(reqs_view(pending@) =~= p.update(
                i as int,
                (p[i as int].0, p[i as int].1, p[i as int].2, p[i as int].3, p[i as int].4, p[i as int].5
                    || request@.5),
            ));
            assert(reqs_view(pending@) == enqueue_one(p, request@));
            return;
        }
        i += 1;
    }
    pending.push(request);
    assert(reqs_view(pending@) =~= p.push(request@));
    if pending.len() > MAX_PENDING_CLI_DOWNLOAD_REQUESTS {
        let overflow = pending.len() - MAX_PENDING_CLI_DOWNLOAD_REQUESTS;
        let ghost q = reqs_view(pending@);
        let mut removed: usize = 0;
        while removed < overflow
            invariant
                q.len() == MAX_PENDING_CLI_DOWNLOAD_REQUESTS + overflow,
                removed <= overflow,
                pending@.len() + removed == q.len(),
                reqs_view(pending@) == q.subrange(removed as int, q.len() as int),
            decreases overflow - removed,
        {
            let ghost before = pending@;
            pending.remove(0);
            assert(pending@ =~= before.subrange(1, before.len() as int));
            assert(reqs_view(pending@) =~= reqs_view(before).subrange(1, before.len() as int));
            assert(reqs_view(pending@) =~= q.subrange(removed + 1, q.len() as int));
            removed += 1;
        }
    }
}

/// Adds command-line requests to the pending queue, as `enqueue_one` says
/// for each in order.
pub fn enqueue_cli_download_requests(
    pending: &mut Vec<CliDownloadRequest>,
    requests: Vec<CliDownloadRequest>,
)
    ensures
        reqs_view(final(pending)@) == enqueue_all(reqs_view(old(pending)@), reqs_view(requests@)),
{
    let ghost p0 = reqs_view(pending@);
    let ghost rs = reqs_view(requests@);
    let mut requests = requests;
    let ghost all = requests@;
    let ghost mut k: int = 0;
    while requests.len() > 0
        invariant
            0 <= k,
            rs == reqs_view(all),
            k + requests@.len() == all.len(),
            requests@ == all.subrange(k as int, all.len() as int),
            reqs_view(pending@) == enqueue_all(p0, rs.take(k as int)),
        decreases requests@.len(),
    {
        let request = requests.remove(0);
        enqueue_request(pending, request);
        assert(rs.take(k + 1).drop_last() =~= rs.take(k as int));
        assert(requests@ =~= all.subrange(k + 1, all.len() as int));
        proof {
            k = k + 1;
        }
    }
    assert(rs.take(k as int) =~= rs);
}

/// Hands out and clears the pending queue.
pub fn take_pending_cli_download_requests(pending: &mut Vec<CliDownloadRequest>) -> (r: Vec<
    CliDownloadRequest,
>)
    ensures
        r@ == old(pending)@,
        final(pending)@.len() == 0,
{
    let mut taken: Vec<CliDownloadRequest> = Vec::new();
    std::mem::swap(pending, &mut taken);
    taken
}

// ---------------------------------------------------------------------------
// Laws of the pending queue
// ---------------------------------------------------------------------------

pub open spec fn unique_requests(
    p: Seq<(Seq<char>, Seq<char>, Seq<char>, Seq<char>, Seq<char>, bool)>,
) -> bool {
    forall|i: int, j: int|
        0 <= i < p.len() && 0 <= j < p.len() && i != j ==> !same_request(#[trigger] p[i], #[trigger] p[j])
}

pub open spec fn all_accepted(
    p: Seq<(Seq<char>, Seq<char>, Seq<char>, Seq<char>, Seq<char>, bool)>,
) -> bool {
    forall|i: int| 0 <= i < p.len() ==> cli_url_accepted(#[trigger] p[i].0)
}

proof fn lemma_enqueue_one_keeps(
    p: Seq<(Seq<char>, Seq<char>, Seq<char>, Seq<char>, Seq<char>, bool)>,
    r: (Seq<char>, Seq<char>, Seq<char>, Seq<char>, Seq<char>, bool),
)
    ensures
        p.len() <= MAX_PENDING_CLI_DOWNLOAD_REQUESTS ==> enqueue_one(p, r).len()
            <= MAX_PENDING_CLI_DOWNLOAD_REQUESTS,
        unique_requests(p) ==> unique_requests(enqueue_one(p, r)),
        all_accepted(p) ==> all_accepted(enqueue_one(p, r)),
{
    lemma_first_same_from(p, r, 0);
    let e = enqueue_one(p, r);
    if cli_url_accepted(r.0) {
        match first_same_from(p, r, 0) {
            Some(i) => {
                assert forall|a: int, b: int|
                    unique_requests(p) && 0 <= a < e.len() && 0 <= b < e.len() && a != b implies !same_request(
                    #[trigger] e[a],
                    #[trigger] e[b],
                ) by {
                    assert(same_request(e[a], p[a]));
                    assert(same_request(e[b], p[b]));
                }
                assert forall|a: int| all_accepted(p) && 0 <= a < e.len() implies cli_url_accepted(
                    #[trigger] e[a].0,
                ) by {
                    assert(e[a].0 == p[a].0);
                }
            },
            None => {
                let q = p.push(r);
                assert forall|a: int, b: int|
                    unique_requests(p) && 0 <= a < q.len() && 0 <= b < q.len() && a != b implies !same_request(
                    #[trigger] q[a],
                    #[trigger] q[b],
                ) by {
                    if a == p.len() {
                        assert(!same_request(p[b], r));
                    } else if b == p.len() {
                        assert(!same_request(p[a], r));
                    }
                }
                assert(all_accepted(p) ==> all_accepted(q));
                if q.len() > MAX_PENDING_CLI_DOWNLOAD_REQUESTS {
                    let off = q.len() - MAX_PENDING_CLI_DOWNLOAD_REQUESTS;
                    assert forall|a: int, b: int|
                        unique_requests(q) && 0 <= a < e.len() && 0 <= b < e.len() && a != b implies !same_request(
                        #[trigger] e[a],
                        #[trigger] e[b],
                    ) by {
                        assert(e[a] == q[a + off]);
                        assert(e[b] == q[b + off]);
                    }
                    assert forall|a: int| all_accepted(q) && 0 <= a < e.len() implies cli_url_accepted(
                        #[trigger] e[a].0,
                    ) by {
                        assert(e[a] == q[a + off]);
                    }
                }
            },
        }
    }
}

/// The pending queue never holds more than its limit of requests, never
/// holds two requests for the same download, and holds only accepted URLs,
/// whatever requests arrive.
pub proof fn law_pending_queue_invariant(
    p: Seq<(Seq<char>, Seq<char>, Seq<char>, Seq<char>, Seq<char>, bool)>,
    rs: Seq<(Seq<char>, Seq<char>, Seq<char>, Seq<char>, Seq<char>, bool)>,
)
    requires
        p.len() <= MAX_PENDING_CLI_DOWNLOAD_REQUESTS,
        unique_requests(p),
        all_accepted(p),
    ensures
        enqueue_all(p, rs).len() <= MAX_PENDING_CLI_DOWNLOAD_REQUESTS,
        unique_requests(enqueue_all(p, rs)),
        all_accepted(enqueue_all(p, rs)),
    decreases rs.len(),
{
    if rs.len() > 0 {
        law_pending_queue_invariant(p, rs.drop_last());
        lemma_enqueue_one_keeps(enqueue_all(p, rs.drop_last()), rs.last());
    }
}

/// Enqueueing a request that is already queued changes nothing but its
/// `trusted_local` flag, which can only become true.
pub proof fn law_repeated_request_is_merged(
    p: Seq<(Seq<char>, Seq<char>, Seq<char>, Seq<char>, Seq<char>, bool)>,
    i: int,
    r: (Seq<char>, Seq<char>, Seq<char>, Seq<char>, Seq<char>, bool),
)
    requires
        unique_requests(p),
        0 <= i < p.len(),
        same_request(p[i], r),
        cli_url_accepted(r.0),
    ensures
        enqueue_one(p, r).len() == p.len(),
        same_request(enqueue_one(p, r)[i], p[i]),
        enqueue_one(p, r)[i].5 == (p[i].5 || r.5),
        forall|j: int| 0 <= j < p.len() && j != i ==> enqueue_one(p, r)[j] == p[j],
{
    lemma_first_same_from(p, r, 0);
    let k = first_same_from(p, r, 0)->0;
    if k != i {
        assert(same_request(p[k], p[i]));
    }
}

} // verus!

verus! {

/// Requests that arrive at an empty queue come out of it as they arrived:
/// when each is accepted, none repeats another download and they fit the
/// queue, the queue holds them exactly, in order, for the next take.
pub proof fn law_queued_requests_come_back_in_order(
    rs: Seq<(Seq<char>, Seq<char>, Seq<char>, Seq<char>, Seq<char>, bool)>,
)
    requires
        all_accepted(rs),
        unique_requests(rs),
        rs.len() <= MAX_PENDING_CLI_DOWNLOAD_REQUESTS,
    ensures
        enqueue_all(Seq::empty(), rs) == rs,
    decreases rs.len(),
{
    if rs.len() > 0 {
        let p = rs.drop_last();
        let r = rs.last();
        assert(all_accepted(p));
        assert forall|i: int, j: int|
            0 <= i < p.len() && 0 <= j < p.len() && i != j implies !same_request(#[trigger] p[i], #[trigger] p[j]) by {
            assert(p[i] == rs[i] && p[j] == rs[j]);
        }
        law_queued_requests_come_back_in_order(p);
        assert(cli_url_accepted(rs[rs.len() - 1].0));
        lemma_first_same_from(p, r, 0);
        if first_same_from(p, r, 0) is Some {
            let k = first_same_from(p, r, 0).unwrap();
            assert(p[k] == rs[k]);
            assert(same_request(rs[k], rs[rs.len() - 1]));
        }
        assert(p.push(r) =~= rs);
    } else {
        assert(rs =~= Seq::empty());
    }
}

} // verus!

verus! {

proof fn lemma_parse_from_ignores_earlier(a1: Seq<Seq<char>>, a2: Seq<Seq<char>>, i: int, m: CliArgsModel)
    requires
        1 <= i,
        a1.len() == a2.len(),
        forall|k: int| 1 <= k < a1.len() ==> a1[k] == a2[k],
    ensures
        parse_argv_from(a1, i, m) == parse_argv_from(a2, i, m),
    decreases a1.len() - i,
{
    if i < a1.len() {
        let arg = a1[i];
        assert(a2[i] == arg);
        if i + 1 < a1.len() {
            assert(a2[i + 1] == a1[i + 1]);
        }
        lemma_parse_from_ignores_earlier(a1, a2, i + 1, apply_other_arg(arg, m));
        lemma_parse_from_ignores_earlier(a1, a2, i + 1, CliArgsModel { audio: true, ..m });
        lemma_parse_from_ignores_earlier(a1, a2, i + 1, CliArgsModel { queue_only: true, ..m });
        if i + 1 < a1.len() {
            let v = a1[i + 1];
            lemma_parse_from_ignores_earlier(a1, a2, i + 2, CliArgsModel { url: Some(v), ..m });
            lemma_parse_from_ignores_earlier(a1, a2, i + 2, CliArgsModel { quality: Some(v), ..m });
            lemma_parse_from_ignores_earlier(a1, a2, i + 2, CliArgsModel { target: Some(v), ..m });
        }
    }
}

/// The program's own name (the first argument) is never read: argument
/// lists that differ only there parse alike, and one that holds nothing
/// else parses as no arguments at all.
pub proof fn law_program_name_is_not_read(x: Seq<char>, y: Seq<char>, rest: Seq<Seq<char>>)
    ensures
        parse_argv(seq![x] + rest) == parse_argv(seq![y] + rest),
        parse_argv(seq![x]) == (CliArgsModel { url: None, quality: None, audio: false, queue_only: false, target: None }),
{
    let a1 = seq![x] + rest;
    let a2 = seq![y] + rest;
    assert forall|k: int| 1 <= k < a1.len() implies a1[k] == a2[k] by {
        assert(a1[k] == rest[k - 1]);
        assert(a2[k] == rest[k - 1]);
    }
    lemma_parse_from_ignores_earlier(
        a1,
        a2,
        1,
        CliArgsModel { url: None, quality: None, audio: false, queue_only: false, target: None },
    );
}

/// A flag that the command line does not know: it starts with `-` and is
/// none of the flags read, with or without `=value`.
pub open spec fn unknown_flag(arg: Seq<char>) -> bool {
    &&& has_prefix(arg, "-"@)
    &&& arg != "--url"@ && arg != "-u"@ && arg != "--quality"@ && arg != "-q"@
    &&& arg != "--target"@ && arg != "-t"@ && arg != "--audio"@ && arg != "-a"@
    &&& arg != "--queue-only"@
    &&& !has_prefix(arg, "--url="@) && !has_prefix(arg, "--quality="@) && !has_prefix(arg, "--target="@)
}

/// How the URL is read: `--url` or `-u` with a value always sets it; a
/// bare argument (without a leading `-`) sets it only while none is set;
/// an unknown flag is passed over alone, so the argument after it is read
/// in its own right.
pub proof fn law_url_arguments(argv: Seq<Seq<char>>, i: int, a: CliArgsModel)
    requires
        0 <= i < argv.len(),
    ensures
        (argv[i] == "--url"@ || argv[i] == "-u"@) && i + 1 < argv.len() ==> parse_argv_from(argv, i, a)
            == parse_argv_from(argv, i + 2, CliArgsModel { url: Some(argv[i + 1]), ..a }),
        !has_prefix(argv[i], "-"@) ==> parse_argv_from(argv, i, a) == parse_argv_from(
            argv,
            i + 1,
            if a.url is None {
                CliArgsModel { url: Some(argv[i]), ..a }
            } else {
                a
            },
        ),
        unknown_flag(argv[i]) ==> parse_argv_from(argv, i, a) == parse_argv_from(argv, i + 1, a),
{
    reveal_strlit("-");
    reveal_strlit("--url");
    reveal_strlit("-u");
    reveal_strlit("--quality");
    reveal_strlit("-q");
    reveal_strlit("--target");
    reveal_strlit("-t");
    reveal_strlit("--audio");
    reveal_strlit("-a");
    reveal_strlit("--queue-only");
    reveal_strlit("--url=");
    reveal_strlit("--quality=");
    reveal_strlit("--target=");
    let arg = argv[i];
    if !has_prefix(arg, "-"@) {
        if arg.len() > 0 && arg[0] == '-' {
            assert(arg.subrange(0, 1) =~= "-"@);
        }
        assert(arg != "--url"@ && arg != "-u"@ && arg != "--quality"@ && arg != "-q"@);
        assert(arg != "--target"@ && arg != "-t"@ && arg != "--audio"@ && arg != "-a"@);
        assert(arg != "--queue-only"@);
        assert(!has_prefix(arg, "--url="@)) by {
            if has_prefix(arg, "--url="@) {
                assert(arg.subrange(0, 6)[0] == arg[0]);
            }
        }
        assert(!has_prefix(arg, "--quality="@)) by {
            if has_prefix(arg, "--quality="@) {
                assert(arg.subrange(0, 10)[0] == arg[0]);
            }
        }
        assert(!has_prefix(arg, "--target="@)) by {
            if has_prefix(arg, "--target="@) {
                assert(arg.subrange(0, 9)[0] == arg[0]);
            }
        }
    }
}

} // verus!
