//! Cookie headers for a host, read from Netscape cookie files, and the
//! names of SQLite side files.
use vstd::prelude::*;

use crate::clock::utc_now_timestamp;
use crate::urls::{parse_url, url_host};
use crate::text::{
    all_digits, chars_of, is_lit, opt_view, digits_value, drop_while, extend, has_prefix, has_suffix, join,
    join_all, lines, lines_of, lower, lower_vec, parse_bounded, parse_uint, push_str, seq_eq,
    split, split_all, starts_with, string_of, trim, trim_start_class, trim_ws, vviews, CharClass,
};

verus! {

/// Whether a cookie set for `cookie_domain` goes to `host`: both without
/// leading dots and in ASCII lower case, equal, or one a subdomain of the
/// other.
pub open spec fn domain_matches(host: Seq<char>, cookie_domain: Seq<char>) -> bool {
    let h = lower(drop_while(host, CharClass::One('.')));
    let d = lower(drop_while(cookie_domain, CharClass::One('.')));
    h == d || has_suffix(h, "."@ + d) || has_suffix(d, "."@ + h)
}

pub fn cookie_domain_matches(host: &str, cookie_domain: &str) -> (r: bool)
    ensures
        r == domain_matches(host@, cookie_domain@),
{
    let h = lower_vec(&trim_start_class(&chars_of(host), &CharClass::One('.')));
    let d = lower_vec(&trim_start_class(&chars_of(cookie_domain), &CharClass::One('.')));
    let mut dot_d = chars_of(".");
    extend(&mut dot_d, &d);
    let mut dot_h = chars_of(".");
    extend(&mut dot_h, &h);
    seq_eq(&h, &d) || crate::text::ends_with(&h, &dot_d) || crate::text::ends_with(&d, &dot_h)
}

/// What `str::parse::<i64>` gives: an optional sign, then one or more
/// decimal digits, within the range of `i64`.
pub open spec fn parse_i64(s: Seq<char>) -> Option<int> {
    if s.len() > 0 && s[0] == '-' {
        let t = s.drop_first();
        if t.len() > 0 && all_digits(t) && digits_value(t) <= 9223372036854775808 {
            Some(-digits_value(t))
        } else {
            None
        }
    } else {
        match parse_uint(s, 9223372036854775807) {
            Some(v) => Some(v as int),
            None => None,
        }
    }
}

fn parse_i64_exec(s: &[char]) -> (r: Option<i64>)
    ensures
        r is Some <==> parse_i64(s@) is Some,
        r matches Some(v) ==> parse_i64(s@) == Some(v as int),
{
    if s.len() > 0 && s[0] == '-' {
        let t = crate::text::slice(s, 1, s.len());
        assert(t@ =~= s@.drop_first());
        if t.len() > 0 && t[0] == '+' {
            return None;
        }
        match parse_bounded(&t, 9223372036854775808) {
            Some(v) => {
                assert(t@.len() > 0 && t@[0] != '+');
                if v == 9223372036854775808 {
                    Some(i64::MIN)
                } else {
                    Some(-(v as i64))
                }
            },
            None => {
                proof {
                    if t@.len() > 0 && all_digits(t@) && digits_value(t@) <= 9223372036854775808 {
                        assert(t@[0] != '+');
                    }
                }
                None
            },
        }
    } else {
        match parse_bounded(s, 9223372036854775807) {
            Some(v) => Some(v as i64),
            None => None,
        }
    }
}

/// The `name=value` pair of a tab-separated cookie line, when it has the
/// seven Netscape fields, its domain matches the host, and it has not
/// expired by `now` (an expiry of 0, or one that does not parse, never
/// expires).
pub open spec fn cookie_pair(parts: Seq<Seq<char>>, host: Seq<char>, now: i64) -> Option<
    Seq<char>,
> {
    if parts.len() < 7 || !domain_matches(host, parts[0]) {
        None
    } else {
        let expires = match parse_i64(parts[4]) {
            Some(v) => v,
            None => 0,
        };
        if expires != 0 && expires <= now {
            None
        } else {
            Some(parts[5] + "="@ + parts[6])
        }
    }
}

/// A line of a cookie file as the browser-cookie reader takes it: trimmed,
/// with an `#HttpOnly_` marker removed, and skipped when it then starts
/// with `#`.
pub open spec fn browser_cookie_line(line: Seq<char>, host: Seq<char>, now: i64) -> Option<
    Seq<char>,
> {
    let l = trim(line);
    let l2 = if has_prefix(l, "#HttpOnly_"@) {
        l.subrange(10, l.len() as int)
    } else {
        l
    };
    if has_prefix(l2, "#"@) {
        None
    } else {
        cookie_pair(split(l2, "\t"@), host, now)
    }
}

/// A line of a cookie file as the TikTok recorder takes it: skipped when it
/// starts with `#` after leading whitespace, else split as it stands.
pub open spec fn recorder_cookie_line(line: Seq<char>, host: Seq<char>, now: i64) -> Option<
    Seq<char>,
> {
    if has_prefix(drop_while(line, CharClass::Whitespace), "#"@) {
        None
    } else {
        cookie_pair(split(line, "\t"@), host, now)
    }
}

/// The pairs that the lines give, in order, under either reader.
pub open spec fn cookie_pairs(lines: Seq<Seq<char>>, host: Seq<char>, now: i64, recorder: bool) -> Seq<
    Seq<char>,
>
    decreases lines.len(),
{
    if lines.len() == 0 {
        seq![]
    } else {
        let rest = cookie_pairs(lines.drop_last(), host, now, recorder);
        let this = if recorder {
            recorder_cookie_line(lines.last(), host, now)
        } else {
            browser_cookie_line(lines.last(), host, now)
        };
        match this {
            Some(p) => rest.push(p),
            None => rest,
        }
    }
}

/// The `Cookie` header for a host from a cookie file's contents: the pairs
/// joined by `; `, or nothing when no cookie applies.
pub open spec fn cookie_header(content: Seq<char>, host: Seq<char>, now: i64, recorder: bool) -> Option<
    Seq<char>,
> {
    let pairs = cookie_pairs(lines(content), host, now, recorder);
    if pairs.len() == 0 {
        None
    } else {
        Some(join(pairs, "; "@))
    }
}

fn cookie_pair_exec(line: &[char], host: &str, now: i64) -> (r: Option<Vec<char>>)
    ensures
        match r {
            Some(v) => cookie_pair(split(line@, "\t"@), host@, now) == Some(v@),
            None => cookie_pair(split(line@, "\t"@), host@, now) is None,
        },
{
    let tab = chars_of("\t");
    proof {
        reveal_strlit("\t");
    }
    let parts = split_all(line, &tab);
    if parts.len() < 7 {
        return None;
    }
    if !cookie_domain_matches(host, string_of(&parts[0]).as_str()) {
        return None;
    }
    let expires: i64 = match parse_i64_exec(&parts[4]) {
        Some(v) => v,
        None => 0,
    };
    if expires != 0 && expires <= now {
        return None;
    }
    let mut pair: Vec<char> = Vec::new();
    extend(&mut pair, &parts[5]);
    push_str(&mut pair, "=");
    extend(&mut pair, &parts[6]);
    Some(pair)
}

fn cookie_line_exec(line: &[char], host: &str, now: i64, recorder: bool) -> (r: Option<Vec<char>>)
    ensures
        match r {
            Some(v) => (if recorder {
                recorder_cookie_line(line@, host@, now)
            } else {
                browser_cookie_line(line@, host@, now)
            }) == Some(v@),
            None => (if recorder {
                recorder_cookie_line(line@, host@, now)
            } else {
                browser_cookie_line(line@, host@, now)
            }) is None,
        },
{
    let hash = chars_of("#");
    if recorder {
        let lead = trim_start_class(line, &CharClass::Whitespace);
        if starts_with(&lead, &hash) {
            return None;
        }
        cookie_pair_exec(line, host, now)
    } else {
        let l = trim_ws(line);
        let marker = chars_of("#HttpOnly_");
        proof {
            reveal_strlit("#HttpOnly_");
        }
        let l2 = if starts_with(&l, &marker) {
            crate::text::slice(&l, 10, l.len())
        } else {
            l
        };
        if starts_with(&l2, &hash) {
            return None;
        }
        cookie_pair_exec(&l2, host, now)
    }
}

/// The `Cookie` header for `target_host` from a cookie file's contents at
/// time `now`; `recorder` picks the TikTok recorder's reading of the lines.
pub fn cookie_header_at(content: &str, target_host: &str, now: i64, recorder: bool) -> (r: Option<
    String,
>)
    ensures
        crate::text::ostr(r) == cookie_header(content@, target_host@, now, recorder),
{
    let all = lines_of(&chars_of(content));
    let ghost lv = vviews(all@);
    let mut pairs: Vec<Vec<char>> = Vec::new();
    let mut k: usize = 0;
    while k < all.len()
        invariant
            k <= all.len(),
            lv == vviews(all@),
            lv == lines(content@),
            vviews(pairs@) == cookie_pairs(lv.take(k as int), target_host@, now, recorder),
        decreases all.len() - k,
    {
        assert(lv.take(k + 1).drop_last() =~= lv.take(k as int));
        assert(lv.take(k + 1).last() == all@[k as int]@);
        match cookie_line_exec(&all[k], target_host, now, recorder) {
            Some(p) => {
                let ghost before = pairs@;
                pairs.push(p);
                assert(vviews(pairs@) =~= vviews(before).push(p@));
            },
            None => {},
        }
        k += 1;
    }
    assert(lv.take(all.len() as int) =~= lv);
    if pairs.len() == 0 {
        return None;
    }
    Some(string_of(&join_all(&pairs, &chars_of("; "))))
}

/// The `Cookie` header for `target_host` from a cookie file's contents, as
/// the browser-cookie reader builds it, with expiry judged at the current
/// time.
pub fn cookie_header_from_netscape(content: &str, target_host: &str) -> (r: Option<String>)
    ensures
        exists|now: i64| crate::text::ostr(r) == cookie_header(content@, target_host@, now, false),
{
    let now = utc_now_timestamp();
    cookie_header_at(content, target_host, now, false)
}

/// The `Cookie` header for `target_host` from a cookie file's contents, as
/// the TikTok recorder builds it, with expiry judged at the current time.
pub fn tiktok_cookie_header_from_netscape(content: &str, target_host: &str) -> (r: Option<String>)
    ensures
        exists|now: i64| crate::text::ostr(r) == cookie_header(content@, target_host@, now, true),
{
    let now = utc_now_timestamp();
    cookie_header_at(content, target_host, now, true)
}

/// The `name=value` pairs of the stored cookies (`(domain, name, value)`)
/// that go to `host`, in order.
pub open spec fn matching_pairs(rows: Seq<(Seq<char>, Seq<char>, Seq<char>)>, host: Seq<char>) -> Seq<
    Seq<char>,
>
    decreases rows.len(),
{
    if rows.len() == 0 {
        seq![]
    } else if domain_matches(host, rows.last().0) {
        matching_pairs(rows.drop_last(), host).push(rows.last().1 + "="@ + rows.last().2)
    } else {
        matching_pairs(rows.drop_last(), host)
    }
}

/// The `Cookie` header that stored cookies give for `host`: their pairs
/// joined by `; `, or none when no cookie goes to the host.
pub open spec fn rows_cookie_header(rows: Seq<(Seq<char>, Seq<char>, Seq<char>)>, host: Seq<char>) -> Option<
    Seq<char>,
> {
    let pairs = matching_pairs(rows, host);
    if pairs.len() > 0 {
        Some(join(pairs, "; "@))
    } else {
        None
    }
}

pub open spec fn row_views(rows: Seq<(String, String, String)>) -> Seq<(Seq<char>, Seq<char>, Seq<char>)> {
    rows.map_values(|r: (String, String, String)| (r.0@, r.1@, r.2@))
}

/// The `Cookie` header for `target_host` from a browser's stored cookies
/// that have not expired, each as `(domain, name, value)`.
pub fn cookie_header_from_rows(rows: &[(String, String, String)], target_host: &str) -> (r: Option<String>)
    ensures
        crate::text::ostr(r) == rows_cookie_header(row_views(rows@), target_host@),
{
    let ghost rv = row_views(rows@);
    let mut pairs: Vec<Vec<char>> = Vec::new();
    let mut k: usize = 0;
    while k < rows.len()
        invariant
            k <= rows.len(),
            rv == row_views(rows@),
            vviews(pairs@) == matching_pairs(rv.take(k as int), target_host@),
        decreases rows.len() - k,
    {
        assert(rv.take(k + 1).drop_last() =~= rv.take(k as int));
        assert(rv.take(k + 1).last() == rv[k as int]);
        let row = &rows[k];
        if cookie_domain_matches(target_host, row.0.as_str()) {
            let mut pair = chars_of(row.1.as_str());
            push_str(&mut pair, "=");
            push_str(&mut pair, row.2.as_str());
            let ghost before = pairs@;
            pairs.push(pair);
            assert(vviews(pairs@) =~= vviews(before).push(rv[k as int].1 + "="@ + rv[k as int].2));
        }
        k += 1;
    }
    assert(rv.take(rows.len() as int) =~= rv);
    if pairs.len() == 0 {
        return None;
    }
    Some(string_of(&join_all(&pairs, &chars_of("; "))))
}

/// The path of a SQLite side file (`-wal`, `-shm`) of a database.
pub fn sqlite_sidecar_path(path: &str, suffix: &str) -> (r: String)
    ensures
        r@ == path@ + "-"@ + suffix@,
{
    let mut v = chars_of(path);
    push_str(&mut v, "-");
    push_str(&mut v, suffix);
    string_of(&v)
}

/// The kind of cookie store a request's cookies are read from.
#[derive(Clone, Copy, Debug, PartialEq, Eq, Structural)]
pub enum CookieStore {
    /// A Netscape cookie file.
    NetscapeFile,
    /// The cookie database of a Firefox profile.
    FirefoxProfile,
}

/// Where the cookies for a request to `url` are read from, and for which
/// host: nothing when the URL is one whose cookies are skipped, when it
/// has no host, or when the settings name no store that can be read; a
/// Netscape file in mode `file` when its path is not blank; the named
/// profile in mode `browser` when the browser is Firefox (in any ASCII
/// case). No mode means `off`.
pub open spec fn browser_cookie_source(
    url: Seq<char>,
    mode: Option<Seq<char>>,
    browser: Option<Seq<char>>,
    profile: Option<Seq<char>>,
    file_path: Option<Seq<char>>,
    skipped: bool,
) -> Option<(CookieStore, Seq<char>, Seq<char>)> {
    if skipped {
        None
    } else {
        match url_host(url) {
            None => None,
            Some(host) => {
                let m = match mode {
                    Some(m) => m,
                    None => "off"@,
                };
                if m == "file"@ {
                    match file_path {
                        Some(p) => if trim(p).len() > 0 {
                            Some((CookieStore::NetscapeFile, p, host))
                        } else {
                            None
                        },
                        None => None,
                    }
                } else if m == "browser"@ {
                    match (browser, profile) {
                        (Some(b), Some(pr)) => if lower(b) == "firefox"@ {
                            Some((CookieStore::FirefoxProfile, pr, host))
                        } else {
                            None
                        },
                        _ => None,
                    }
                } else {
                    None
                }
            },
        }
    }
}

/// Where the cookies for a request are read from; see
/// `browser_cookie_source`. `skipped` tells whether the URL matches one of
/// the patterns whose sites get no cookies.
pub fn browser_cookie_source_for(
    url: &str,
    mode: Option<&str>,
    browser: Option<&str>,
    profile: Option<&str>,
    file_path: Option<&str>,
    skipped: bool,
) -> (r: Option<(CookieStore, String, String)>)
    ensures
        match r {
            Some(x) => browser_cookie_source(
                url@,
                opt_view(mode),
                opt_view(browser),
                opt_view(profile),
                opt_view(file_path),
                skipped,
            ) == Some((x.0, x.1@, x.2@)),
            None => browser_cookie_source(
                url@,
                opt_view(mode),
                opt_view(browser),
                opt_view(profile),
                opt_view(file_path),
                skipped,
            ) is None,
        },
{
    proof {
        reveal_strlit("off");
        reveal_strlit("file");
        reveal_strlit("browser");
        reveal_strlit("firefox");
    }
    if skipped {
        return None;
    }
    let host = match parse_url(url) {
        Some(p) => match p.host {
            Some(h) => h,
            None => return None,
        },
        None => return None,
    };
    let m = match mode {
        Some(m) => chars_of(m),
        None => chars_of("off"),
    };
    if is_lit(&m, "file") {
        match file_path {
            Some(p) => if trim_ws(&chars_of(p)).len() > 0 {
                Some((CookieStore::NetscapeFile, string_of(&chars_of(p)), host))
            } else {
                None
            },
            None => None,
        }
    } else if is_lit(&m, "browser") {
        match (browser, profile) {
            (Some(b), Some(pr)) => if is_lit(&lower_vec(&chars_of(b)), "firefox") {
                Some((CookieStore::FirefoxProfile, string_of(&chars_of(pr)), host))
            } else {
                None
            },
            _ => None,
        }
    } else {
        None
    }
}

} // verus!
