//! FFmpeg: where builds are downloaded from, reading versions, and deciding
//! whether a newer build is available.
use vstd::prelude::*;

use crate::pattern::{group_at, group_text, regex_captures, regex_captures_of};
use crate::platform::{TargetArch, TargetOs};
use crate::text::{
    text_less,
    chars_of, decimal, decimal_of, drop_while, extend, has_prefix, is_whitespace, lines, lines_of,
    opt_view, ostr, parse_bounded, parse_uint, push_str, starts_with, string_of, strip_prefix,
    trim, trim_start_class, trim_ws, vviews, zero_pad, zero_padded, CharClass,
};

verus! {

/// The advice given when the system's FFmpeg is in use and cannot be
/// updated by the application.
pub open spec fn upgrade_message(os: TargetOs) -> Seq<char> {
    match os {
        TargetOs::MacOs => "System FFmpeg is managed externally. Update it with Homebrew (`brew upgrade ffmpeg`) or switch source to App managed."@,
        TargetOs::Windows => "System FFmpeg is managed externally. Update it with your package manager (e.g. `winget`, `choco`, or `scoop`) or switch source to App managed."@,
        TargetOs::Linux => "System FFmpeg is managed externally. Update it with your distro package manager or switch source to App managed."@,
        TargetOs::Other => "System FFmpeg is managed externally. Update it with your package manager or switch source to App managed."@,
    }
}

pub fn system_ffmpeg_upgrade_message(os: TargetOs) -> (r: String)
    ensures
        r@ == upgrade_message(os),
{
    match os {
        TargetOs::MacOs => string_of(
            &chars_of(
                "System FFmpeg is managed externally. Update it with Homebrew (`brew upgrade ffmpeg`) or switch source to App managed.",
            ),
        ),
        TargetOs::Windows => string_of(
            &chars_of(
                "System FFmpeg is managed externally. Update it with your package manager (e.g. `winget`, `choco`, or `scoop`) or switch source to App managed.",
            ),
        ),
        TargetOs::Linux => string_of(
            &chars_of(
                "System FFmpeg is managed externally. Update it with your distro package manager or switch source to App managed.",
            ),
        ),
        TargetOs::Other => string_of(
            &chars_of(
                "System FFmpeg is managed externally. Update it with your package manager or switch source to App managed.",
            ),
        ),
    }
}

/// Where an FFmpeg build for a platform is downloaded from, and how its
/// checksum is checked.
#[derive(Clone, Copy, Debug)]
pub struct FfmpegDownloadInfo {
    pub url: &'static str,
    pub archive_type: &'static str,
    pub checksum_url: &'static str,
    pub checksum_filename: &'static str,
}

/// The download of a platform as plain values: archive URL, archive type,
/// checksum URL, and the file name the checksum list names.
pub open spec fn download_info(os: TargetOs, arch: TargetArch) -> (
    Seq<char>,
    Seq<char>,
    Seq<char>,
    Seq<char>,
) {
    match os {
        TargetOs::MacOs => if arch is X86_64 {
            (
                "https://github.com/vanloctech/ffmpeg-macos/releases/latest/download/ffmpeg-macos-x64.tar.gz"@,
                "tar.gz"@,
                "https://github.com/vanloctech/ffmpeg-macos/releases/latest/download/ffmpeg-macos-x64.tar.gz.sha256"@,
                "ffmpeg-macos-x64.tar.gz"@,
            )
        } else {
            (
                "https://github.com/vanloctech/ffmpeg-macos/releases/latest/download/ffmpeg-macos-arm64.tar.gz"@,
                "tar.gz"@,
                "https://github.com/vanloctech/ffmpeg-macos/releases/latest/download/ffmpeg-macos-arm64.tar.gz.sha256"@,
                "ffmpeg-macos-arm64.tar.gz"@,
            )
        },
        TargetOs::Windows => (
            "https://github.com/BtbN/FFmpeg-Builds/releases/latest/download/ffmpeg-master-latest-win64-gpl.zip"@,
            "zip"@,
            "https://github.com/BtbN/FFmpeg-Builds/releases/latest/download/checksums.sha256"@,
            "ffmpeg-master-latest-win64-gpl.zip"@,
        ),
        TargetOs::Linux => if arch is Aarch64 {
            (
                "https://github.com/BtbN/FFmpeg-Builds/releases/latest/download/ffmpeg-master-latest-linuxarm64-gpl.tar.xz"@,
                "tar.xz"@,
                "https://github.com/BtbN/FFmpeg-Builds/releases/latest/download/checksums.sha256"@,
                "ffmpeg-master-latest-linuxarm64-gpl.tar.xz"@,
            )
        } else {
            (
                "https://github.com/BtbN/FFmpeg-Builds/releases/latest/download/ffmpeg-master-latest-linux64-gpl.tar.xz"@,
                "tar.xz"@,
                "https://github.com/BtbN/FFmpeg-Builds/releases/latest/download/checksums.sha256"@,
                "ffmpeg-master-latest-linux64-gpl.tar.xz"@,
            )
        },
        TargetOs::Other => (""@, ""@, ""@, ""@),
    }
}

pub fn get_ffmpeg_download_info(os: TargetOs, arch: TargetArch) -> (r: FfmpegDownloadInfo)
    ensures
        (r.url@, r.archive_type@, r.checksum_url@, r.checksum_filename@) == download_info(os, arch),
{
    match os {
        TargetOs::MacOs => match arch {
            TargetArch::X86_64 => FfmpegDownloadInfo {
                url: "https://github.com/vanloctech/ffmpeg-macos/releases/latest/download/ffmpeg-macos-x64.tar.gz",
                archive_type: "tar.gz",
                checksum_url: "https://github.com/vanloctech/ffmpeg-macos/releases/latest/download/ffmpeg-macos-x64.tar.gz.sha256",
                checksum_filename: "ffmpeg-macos-x64.tar.gz",
            },
            _ => FfmpegDownloadInfo {
                url: "https://github.com/vanloctech/ffmpeg-macos/releases/latest/download/ffmpeg-macos-arm64.tar.gz",
                archive_type: "tar.gz",
                checksum_url: "https://github.com/vanloctech/ffmpeg-macos/releases/latest/download/ffmpeg-macos-arm64.tar.gz.sha256",
                checksum_filename: "ffmpeg-macos-arm64.tar.gz",
            },
        },
        TargetOs::Windows => FfmpegDownloadInfo {
            url: "https://github.com/BtbN/FFmpeg-Builds/releases/latest/download/ffmpeg-master-latest-win64-gpl.zip",
            archive_type: "zip",
            checksum_url: "https://github.com/BtbN/FFmpeg-Builds/releases/latest/download/checksums.sha256",
            checksum_filename: "ffmpeg-master-latest-win64-gpl.zip",
        },
        TargetOs::Linux => match arch {
            TargetArch::Aarch64 => FfmpegDownloadInfo {
                url: "https://github.com/BtbN/FFmpeg-Builds/releases/latest/download/ffmpeg-master-latest-linuxarm64-gpl.tar.xz",
                archive_type: "tar.xz",
                checksum_url: "https://github.com/BtbN/FFmpeg-Builds/releases/latest/download/checksums.sha256",
                checksum_filename: "ffmpeg-master-latest-linuxarm64-gpl.tar.xz",
            },
            _ => FfmpegDownloadInfo {
                url: "https://github.com/BtbN/FFmpeg-Builds/releases/latest/download/ffmpeg-master-latest-linux64-gpl.tar.xz",
                archive_type: "tar.xz",
                checksum_url: "https://github.com/BtbN/FFmpeg-Builds/releases/latest/download/checksums.sha256",
                checksum_filename: "ffmpeg-master-latest-linux64-gpl.tar.xz",
            },
        },
        TargetOs::Other => FfmpegDownloadInfo {
            url: "",
            archive_type: "",
            checksum_url: "",
            checksum_filename: "",
        },
    }
}

/// The GitHub endpoint that names the latest FFmpeg build of a platform.
pub fn get_ffmpeg_release_api_url(os: TargetOs) -> (r: &'static str)
    ensures
        r@ == match os {
            TargetOs::MacOs => "https://api.github.com/repos/vanloctech/ffmpeg-macos/releases/latest"@,
            TargetOs::Windows => "https://api.github.com/repos/BtbN/FFmpeg-Builds/releases/latest"@,
            TargetOs::Linux => "https://api.github.com/repos/BtbN/FFmpeg-Builds/releases/latest"@,
            TargetOs::Other => ""@,
        },
{
    match os {
        TargetOs::MacOs => "https://api.github.com/repos/vanloctech/ffmpeg-macos/releases/latest",
        TargetOs::Windows => "https://api.github.com/repos/BtbN/FFmpeg-Builds/releases/latest",
        TargetOs::Linux => "https://api.github.com/repos/BtbN/FFmpeg-Builds/releases/latest",
        TargetOs::Other => "",
    }
}

// ---------------------------------------------------------------------------
// Versions
// ---------------------------------------------------------------------------

/// The first whitespace-separated word of a text, if it has one
/// (`split_whitespace().next()`).
pub open spec fn first_word(s: Seq<char>) -> Option<Seq<char>> {
    let t = drop_while(s, CharClass::Whitespace);
    if t.len() == 0 {
        None
    } else {
        Some(t.take(word_end(t, 0)))
    }
}

/// The index of the first whitespace character of `t` at or after `i`, or
/// its length.
pub open spec fn word_end(t: Seq<char>, i: int) -> int
    decreases t.len() - i,
{
    if i < 0 || i >= t.len() {
        t.len() as int
    } else if crate::text::is_ws(t[i]) {
        i
    } else {
        word_end(t, i + 1)
    }
}

/// The version that `ffmpeg -version` or `ffprobe -version` prints: the
/// first word after the tool's name on the first line, else `unknown`.
pub open spec fn ffmpeg_version_of(output: Seq<char>) -> Seq<char> {
    let ls = lines(output);
    if ls.len() == 0 {
        "unknown"@
    } else {
        let line = ls[0];
        let rest = if has_prefix(line, "ffmpeg version "@) {
            Some(line.subrange(15, line.len() as int))
        } else if has_prefix(line, "ffprobe version "@) {
            Some(line.subrange(16, line.len() as int))
        } else {
            None
        };
        match rest {
            Some(r) => match first_word(r) {
                Some(w) => w,
                None => "unknown"@,
            },
            None => "unknown"@,
        }
    }
}

fn first_word_exec(s: &[char]) -> (r: Option<Vec<char>>)
    ensures
        match r {
            Some(w) => first_word(s@) == Some(w@),
            None => first_word(s@) is None,
        },
{
    let t = trim_start_class(s, &CharClass::Whitespace);
    if t.len() == 0 {
        return None;
    }
    let mut i: usize = 0;
    while i < t.len() && !is_whitespace(t[i])
        invariant
            i <= t.len(),
            word_end(t@, 0) == word_end(t@, i as int),
        decreases t.len() - i,
    {
        i += 1;
    }
    Some(crate::text::slice(&t, 0, i))
}

pub fn parse_ffmpeg_version(output: &str) -> (r: String)
    ensures
        r@ == ffmpeg_version_of(output@),
{
    let ls = lines_of(&chars_of(output));
    assert(vviews(ls@) == lines(output@));
    if ls.len() == 0 {
        return string_of(&chars_of("unknown"));
    }
    assert(vviews(ls@)[0] == ls@[0]@);
    let line = &ls[0];
    proof {
        reveal_strlit("ffmpeg version ");
        reveal_strlit("ffprobe version ");
    }
    let rest = match strip_prefix(line, &chars_of("ffmpeg version ")) {
        Some(r) => Some(r),
        None => strip_prefix(line, &chars_of("ffprobe version ")),
    };
    match rest {
        Some(r) => match first_word_exec(&r) {
            Some(w) => string_of(&w),
            None => string_of(&chars_of("unknown")),
        },
        None => string_of(&chars_of("unknown")),
    }
}

/// A build date inside a version text: four digits of year, two of month
/// and two of day, each pair optionally joined by `-` or `.`, with no digit
/// right before or after.
pub const VERSION_DATE_PATTERN: &'static str = r"(?:^|\D)(\d{4})[-.]?(\d{2})[-.]?(\d{2})(?:\D|$)";

/// The year, month and day groups that the build-date pattern captures in
/// a version text; nothing when it does not match.
pub open spec fn version_date_captures(version: Seq<char>) -> Option<
    (Seq<char>, Seq<char>, Seq<char>),
> {
    match regex_captures_of(VERSION_DATE_PATTERN@, version) {
        Some(g) => match (group_at(g, 1), group_at(g, 2), group_at(g, 3)) {
            (Some(y), Some(m), Some(d)) => Some((y, m, d)),
            _ => None,
        },
        None => None,
    }
}

fn capture_version_date(version: &str) -> (r: Option<(String, String, String)>)
    ensures
        match r {
            Some(c) => version_date_captures(version@) == Some((c.0@, c.1@, c.2@)),
            None => version_date_captures(version@) is None,
        },
{
    let groups = match regex_captures(VERSION_DATE_PATTERN, version) {
        Some(g) => g,
        None => return None,
    };
    match (group_text(&groups, 1), group_text(&groups, 2), group_text(&groups, 3)) {
        (Some(y), Some(m), Some(d)) => Some((y, m, d)),
        _ => None,
    }
}

/// The date `YYYY-MM-DD` that captured year, month and day groups spell,
/// when they are numbers with a month of 1 to 12 and a day of 1 to 31.
pub open spec fn date_of_captures(caps: Option<(Seq<char>, Seq<char>, Seq<char>)>) -> Option<
    Seq<char>,
> {
    match caps {
        None => None,
        Some(c) => match (parse_uint(c.0, 65535), parse_uint(c.1, 255), parse_uint(c.2, 255)) {
            (Some(y), Some(m), Some(d)) => if 1 <= m <= 12 && 1 <= d <= 31 {
                Some(
                    zero_pad(decimal(y), 4) + "-"@ + zero_pad(decimal(m), 2) + "-"@ + zero_pad(
                        decimal(d),
                        2,
                    ),
                )
            } else {
                None
            },
            _ => None,
        },
    }
}

/// The sortable date that a version names, if any.
pub open spec fn version_date(version: Seq<char>) -> Option<Seq<char>> {
    date_of_captures(version_date_captures(version))
}

/// The date that captured groups spell; see `date_of_captures`.
pub fn date_from_captures(caps: Option<(String, String, String)>) -> (r: Option<String>)
    ensures
        ostr(r) == date_of_captures(
            match caps {
                Some(c) => Some((c.0@, c.1@, c.2@)),
                None => None,
            },
        ),
{
    let (y, m, d) = match caps {
        Some(c) => c,
        None => return None,
    };
    let year = match parse_bounded(&chars_of(y.as_str()), 65535) {
        Some(v) => v,
        None => return None,
    };
    let month = match parse_bounded(&chars_of(m.as_str()), 255) {
        Some(v) => v,
        None => return None,
    };
    let day = match parse_bounded(&chars_of(d.as_str()), 255) {
        Some(v) => v,
        None => return None,
    };
    if !(1 <= month && month <= 12 && 1 <= day && day <= 31) {
        return None;
    }
    let mut v = zero_padded(&decimal_of(year), 4);
    push_str(&mut v, "-");
    extend(&mut v, &zero_padded(&decimal_of(month), 2));
    push_str(&mut v, "-");
    extend(&mut v, &zero_padded(&decimal_of(day), 2));
    Some(string_of(&v))
}

fn extract_date_from_version(version: &str) -> (r: Option<String>)
    ensures
        ostr(r) == version_date(version@),
{
    date_from_captures(capture_version_date(version))
}

fn text_less_exec(a: &[char], b: &[char]) -> (r: bool)
    ensures
        r == text_less(a@, b@),
{
    let mut i: usize = 0;
    assert(a@.skip(0) =~= a@);
    assert(b@.skip(0) =~= b@);
    while i < a.len() && i < b.len() && a[i] == b[i]
        invariant
            i <= a.len(),
            i <= b.len(),
            text_less(a@, b@) == text_less(a@.skip(i as int), b@.skip(i as int)),
        decreases a.len() - i,
    {
        assert(a@.skip(i as int).drop_first() =~= a@.skip(i + 1));
        assert(b@.skip(i as int).drop_first() =~= b@.skip(i + 1));
        i += 1;
    }
    if i == a.len() {
        i < b.len()
    } else if i == b.len() {
        false
    } else {
        (a[i] as u32) < (b[i] as u32)
    }
}

/// A newer build is available when both versions name a date and the
/// latest one's date is later.
pub open spec fn has_update(current: Seq<char>, latest: Seq<char>) -> bool {
    match (version_date(current), version_date(latest)) {
        (Some(c), Some(l)) => text_less(c, l),
        _ => false,
    }
}

pub fn ffmpeg_version_has_update(current_version: &str, latest_version: &str) -> (r: bool)
    ensures
        r == has_update(current_version@, latest_version@),
{
    match (extract_date_from_version(current_version), extract_date_from_version(latest_version)) {
        (Some(c), Some(l)) => text_less_exec(&chars_of(c.as_str()), &chars_of(l.as_str())),
        _ => false,
    }
}

/// A release tag without surrounding spaces, an `ffmpeg-` prefix, and
/// leading `v`s.
pub open spec fn normalized_release(tag: Seq<char>) -> Seq<char> {
    let t = trim(tag);
    let s = if has_prefix(t, "ffmpeg-"@) {
        t.subrange(7, t.len() as int)
    } else {
        t
    };
    drop_while(s, CharClass::One('v'))
}

pub fn normalize_ffmpeg_release_version(tag_name: &str) -> (r: String)
    ensures
        r@ == normalized_release(tag_name@),
{
    let t = trim_ws(&chars_of(tag_name));
    proof {
        reveal_strlit("ffmpeg-");
    }
    let s = match strip_prefix(&t, &chars_of("ffmpeg-")) {
        Some(s) => s,
        None => t,
    };
    string_of(&trim_start_class(&s, &CharClass::One('v')))
}

/// The version of a release: the first date named by its tag, its name or
/// its publication time, else its normalized tag.
pub open spec fn release_version(
    tag: Seq<char>,
    name: Option<Seq<char>>,
    published: Option<Seq<char>>,
) -> Seq<char> {
    match version_date(tag) {
        Some(d) => d,
        None => match (match name {
            Some(n) => version_date(n),
            None => None,
        }) {
            Some(d) => d,
            None => match (match published {
                Some(p) => version_date(p),
                None => None,
            }) {
                Some(d) => d,
                None => normalized_release(tag),
            },
        },
    }
}

pub fn select_ffmpeg_release_version(
    tag_name: &str,
    release_name: Option<&str>,
    published_at: Option<&str>,
) -> (r: String)
    ensures
        r@ == release_version(tag_name@, opt_view(release_name), opt_view(published_at)),
{
    if let Some(d) = extract_date_from_version(tag_name) {
        return d;
    }
    if let Some(n) = release_name {
        if let Some(d) = extract_date_from_version(n) {
            return d;
        }
    }
    if let Some(p) = published_at {
        if let Some(d) = extract_date_from_version(p) {
            return d;
        }
    }
    normalize_ffmpeg_release_version(tag_name)
}

// ---------------------------------------------------------------------------
// Update checks
// ---------------------------------------------------------------------------

/// Whether a newer FFmpeg build is available, as reported to the interface.
#[derive(Clone, Debug)]
pub struct FfmpegUpdateInfo {
    pub has_update: bool,
    pub current_version: Option<String>,
    pub latest_version: Option<String>,
    pub release_url: Option<String>,
}

/// The latest FFmpeg release: its version and page.
#[derive(Clone, Debug)]
pub struct FfmpegReleaseInfo {
    pub version: String,
    pub html_url: Option<String>,
}

/// The release described by the fields of GitHub's latest-release answer.
pub fn ffmpeg_release_info(
    tag_name: &str,
    release_name: Option<&str>,
    published_at: Option<&str>,
    html_url: Option<&str>,
) -> (r: FfmpegReleaseInfo)
    ensures
        r.version@ == release_version(tag_name@, opt_view(release_name), opt_view(published_at)),
        ostr(r.html_url) == opt_view(html_url),
{
    FfmpegReleaseInfo {
        version: select_ffmpeg_release_version(tag_name, release_name, published_at),
        html_url: match html_url {
            Some(u) => Some(string_of(&chars_of(u))),
            None => None,
        },
    }
}

/// The answer that needs no release lookup: nothing installed, or the
/// system's FFmpeg, which the application does not update. `None` when the
/// latest release must be looked up.
pub fn ffmpeg_update_info_without_release(
    installed: bool,
    is_system: bool,
    current_version: Option<String>,
) -> (r: Option<FfmpegUpdateInfo>)
    ensures
        r is None <==> installed && !is_system,
        r matches Some(i) ==> !i.has_update && i.latest_version is None && (if installed {
            ostr(i.current_version) == ostr(current_version) && ostr(i.release_url) == Some(
                "System FFmpeg - update via package manager"@,
            )
        } else {
            i.current_version is None && i.release_url is None
        }),
{
    if !installed {
        return Some(
            FfmpegUpdateInfo {
                has_update: false,
                current_version: None,
                latest_version: None,
                release_url: None,
            },
        );
    }
    if is_system {
        return Some(
            FfmpegUpdateInfo {
                has_update: false,
                current_version,
                latest_version: None,
                release_url: Some(string_of(&chars_of("System FFmpeg - update via package manager"))),
            },
        );
    }
    None
}

/// The answer once the latest release is known: an update when the
/// installed version names an earlier date than the release.
pub fn ffmpeg_update_info_from_release(
    current_version: Option<String>,
    latest: FfmpegReleaseInfo,
) -> (r: FfmpegUpdateInfo)
    ensures
        r.has_update == match ostr(current_version) {
            Some(c) => has_update(c, latest.version@),
            None => false,
        },
        ostr(r.current_version) == ostr(current_version),
        ostr(r.latest_version) == Some(latest.version@),
        ostr(r.release_url) == ostr(latest.html_url),
{
    let has_update = match &current_version {
        Some(c) => ffmpeg_version_has_update(c.as_str(), latest.version.as_str()),
        None => false,
    };
    FfmpegUpdateInfo {
        has_update,
        current_version,
        latest_version: Some(latest.version),
        release_url: latest.html_url,
    }
}

} // verus!
