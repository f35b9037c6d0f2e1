//! gallery-dl: its binary, and reading what its update check prints.
use vstd::prelude::*;

use crate::platform::TargetOs;
use crate::text::{
    after_first, after_first_exec, before_first, before_first_exec, chars_of, contains,
    contains_seq, extend, is_lit, join_all, lines, lines_of, lower, lower_vec, opt_view, ostr,
    push_str, string_of, trim, trim_ws, vviews,
};

verus! {

pub const GALLERYDL_STABLE_RELEASES_URL: &'static str = "https://codeberg.org/mikf/gallery-dl/releases";

pub const GALLERYDL_NIGHTLY_RELEASES_URL: &'static str = "https://github.com/gdl-org/builds/releases/latest";

/// Whether a newer gallery-dl is available, as reported to the interface.
#[derive(Clone, Debug, PartialEq, Eq)]
pub struct GalleryDlUpdateInfo {
    pub has_update: bool,
    pub current_version: Option<String>,
    pub latest_version: Option<String>,
    pub release_url: Option<String>,
}

/// The update answer as plain values: whether there is an update, the
/// current and latest versions, and the release page.
pub type UpdateView = (bool, Option<Seq<char>>, Option<Seq<char>>, Option<Seq<char>>);

impl View for GalleryDlUpdateInfo {
    type V = UpdateView;

    open spec fn view(&self) -> UpdateView {
        (self.has_update, ostr(self.current_version), ostr(self.latest_version), ostr(self.release_url))
    }
}

pub open spec fn not_found_message(os: TargetOs) -> Seq<char> {
    match os {
        TargetOs::MacOs => "System gallery-dl not found. Install it with Homebrew (`brew install gallery-dl`) and ensure `gallery-dl` is available in PATH."@,
        TargetOs::Windows => "System gallery-dl not found. Install it with a package manager (e.g. `choco install gallery-dl` or `scoop install gallery-dl`) and ensure `gallery-dl` is available in PATH."@,
        TargetOs::Linux => "System gallery-dl not found. Install it with your distro package manager and ensure `gallery-dl` is available in PATH."@,
        TargetOs::Other => "System gallery-dl not found. Install it and ensure `gallery-dl` is available in PATH."@,
    }
}

/// The advice given when the system's gallery-dl is selected but missing.
pub fn system_gallerydl_not_found_message(os: TargetOs) -> (r: String)
    ensures
        r@ == not_found_message(os),
{
    match os {
        TargetOs::MacOs => string_of(
            &chars_of(
                "System gallery-dl not found. Install it with Homebrew (`brew install gallery-dl`) and ensure `gallery-dl` is available in PATH.",
            ),
        ),
        TargetOs::Windows => string_of(
            &chars_of(
                "System gallery-dl not found. Install it with a package manager (e.g. `choco install gallery-dl` or `scoop install gallery-dl`) and ensure `gallery-dl` is available in PATH.",
            ),
        ),
        TargetOs::Linux => string_of(
            &chars_of(
                "System gallery-dl not found. Install it with your distro package manager and ensure `gallery-dl` is available in PATH.",
            ),
        ),
        TargetOs::Other => string_of(
            &chars_of(
                "System gallery-dl not found. Install it and ensure `gallery-dl` is available in PATH.",
            ),
        ),
    }
}

/// The file name of the gallery-dl binary on a platform.
pub fn gallerydl_binary_name(os: TargetOs) -> (r: &'static str)
    ensures
        r@ == if os is Windows {
            "gallery-dl.exe"@
        } else {
            "gallery-dl"@
        },
{
    match os {
        TargetOs::Windows => "gallery-dl.exe",
        _ => "gallery-dl",
    }
}

/// The release page for a version: nightly builds (`-dev:`) have their own.
pub open spec fn release_url_for(version: Option<Seq<char>>) -> Seq<char> {
    match version {
        Some(v) => if contains(v, "-dev:"@) {
            GALLERYDL_NIGHTLY_RELEASES_URL@
        } else {
            GALLERYDL_STABLE_RELEASES_URL@
        },
        None => GALLERYDL_STABLE_RELEASES_URL@,
    }
}

pub fn gallerydl_release_url(version: Option<&str>) -> (r: String)
    ensures
        r@ == release_url_for(opt_view(version)),
{
    let nightly = match version {
        Some(v) => contains_seq(&chars_of(v), &chars_of("-dev:")),
        None => false,
    };
    if nightly {
        string_of(&chars_of(GALLERYDL_NIGHTLY_RELEASES_URL))
    } else {
        string_of(&chars_of(GALLERYDL_STABLE_RELEASES_URL))
    }
}

/// What `String::from_utf8_lossy` makes of bytes.
pub uninterp spec fn utf8_lossy(bytes: Seq<u8>) -> Seq<char>;

/// `String::from_utf8_lossy`, as an owned string.
/// Trusted: the result is `utf8_lossy` of the bytes, and for valid UTF-8 it
/// is the decoded text (as the documentation states); how invalid sequences
/// are replaced is not stated.
#[verifier::external_body]
fn from_utf8_lossy(bytes: &[u8]) -> (r: String)
    ensures
        r@ == utf8_lossy(bytes@),
        vstd::utf8::valid_utf8(bytes@) ==> r@ == vstd::utf8::decode_utf8(bytes@),
{
    String::from_utf8_lossy(bytes).into_owned()
}

/// The text of a finished command: its trimmed standard output and error,
/// the empty ones left out, joined by a newline.
pub open spec fn output_text(out: Seq<char>, err: Seq<char>) -> Seq<char> {
    let o = trim(out);
    let e = trim(err);
    if o.len() == 0 {
        e
    } else if e.len() == 0 {
        o
    } else {
        o + "\n"@ + e
    }
}

pub fn command_output_text(stdout: &[u8], stderr: &[u8]) -> (r: String)
    ensures
        r@ == output_text(utf8_lossy(stdout@), utf8_lossy(stderr@)),
{
    let o = trim_ws(&chars_of(from_utf8_lossy(stdout).as_str()));
    let e = trim_ws(&chars_of(from_utf8_lossy(stderr).as_str()));
    if o.len() == 0 {
        return string_of(&e);
    }
    if e.len() == 0 {
        return string_of(&o);
    }
    let mut v = o;
    push_str(&mut v, "\n");
    extend(&mut v, &e);
    string_of(&v)
}

pub open spec fn new_release_marker() -> Seq<char> {
    "A new release is available:"@
}

/// What the update check's lines say, from the first line on: the first
/// line announcing a new release gives the versions around `->` (a line
/// without `->` ends the reading), the first line saying it is up to date
/// gives the known version; `None` when no line says either.
pub open spec fn update_from_lines(ls: Seq<Seq<char>>, fallback: Option<Seq<char>>) -> Option<
    UpdateView,
>
    decreases ls.len(),
{
    if ls.len() == 0 {
        None
    } else {
        let line = ls[0];
        match after_first(line, new_release_marker()) {
            Some(versions) => {
                let v = trim(versions);
                match after_first(v, "->"@) {
                    Some(latest) => {
                        let current = trim(before_first(v, "->"@));
                        Some(
                            (
                                true,
                                Some(current),
                                Some(trim(latest)),
                                Some(release_url_for(Some(current))),
                            ),
                        )
                    },
                    None => None,
                }
            },
            None => if contains(lower(line), "up to date"@) || contains(
                lower(line),
                "up-to-date"@,
            ) {
                Some((false, fallback, fallback, Some(release_url_for(fallback))))
            } else {
                update_from_lines(ls.drop_first(), fallback)
            },
        }
    }
}

pub open spec fn unrecognized_update_message(output: Seq<char>) -> Seq<char> {
    "gallery-dl returned an unrecognized update status: "@ + trim(output)
}

fn clone_opt(o: &Option<String>) -> (r: Option<String>)
    ensures
        ostr(r) == ostr(*o),
{
    match o {
        Some(s) => Some(string_of(&chars_of(s.as_str()))),
        None => None,
    }
}

/// Reads the output of `gallery-dl --update-check`; an output that says
/// neither that an update exists nor that it is up to date is an error
/// that quotes it.
pub fn parse_gallerydl_update_check(output: &str, fallback_current_version: Option<String>) -> (r:
    Result<GalleryDlUpdateInfo, String>)
    ensures
        match r {
            Ok(info) => update_from_lines(lines(output@), ostr(fallback_current_version)) == Some(
                info@,
            ),
            Err(e) => update_from_lines(lines(output@), ostr(fallback_current_version)) is None
                && e@ == unrecognized_update_message(output@),
        },
{
    let ls = lines_of(&chars_of(output));
    let ghost lv = vviews(ls@);
    let ghost fb = ostr(fallback_current_version);
    let marker = chars_of("A new release is available:");
    let arrow = chars_of("->");
    let mut k: usize = 0;
    let mut stop = false;
    assert(lv.skip(0) =~= lv);
    while k < ls.len() && !stop
        invariant
            k <= ls.len(),
            lv == vviews(ls@),
            lv == lines(output@),
            marker@ == new_release_marker(),
            arrow@ == "->"@,
            fb == ostr(fallback_current_version),
            !stop ==> update_from_lines(lv, fb) == update_from_lines(lv.skip(k as int), fb),
            stop ==> update_from_lines(lv, fb) is None,
        decreases ls.len() - k,
    {
        let line = &ls[k];
        assert(lv.skip(k as int)[0] == line@);
        assert(lv.skip(k as int).drop_first() =~= lv.skip(k + 1));
        match after_first_exec(line, &marker) {
            Some(versions) => {
                let v = trim_ws(&versions);
                match after_first_exec(&v, &arrow) {
                    Some(latest) => {
                        let current = trim_ws(&before_first_exec(&v, &arrow));
                        let cs = string_of(&current);
                        let url = gallerydl_release_url(Some(cs.as_str()));
                        return Ok(
                            GalleryDlUpdateInfo {
                                has_update: true,
                                current_version: Some(cs),
                                latest_version: Some(string_of(&trim_ws(&latest))),
                                release_url: Some(url),
                            },
                        );
                    },
                    None => {
                        stop = true;
                    },
                }
            },
            None => {
                let l = lower_vec(line);
                if contains_seq(&l, &chars_of("up to date")) || contains_seq(
                    &l,
                    &chars_of("up-to-date"),
                ) {
                    let url = match &fallback_current_version {
                        Some(f) => gallerydl_release_url(Some(f.as_str())),
                        None => gallerydl_release_url(None),
                    };
                    return Ok(
                        GalleryDlUpdateInfo {
                            has_update: false,
                            current_version: clone_opt(&fallback_current_version),
                            latest_version: clone_opt(&fallback_current_version),
                            release_url: Some(url),
                        },
                    );
                }
            },
        }
        k += 1;
    }
    assert(lv.skip(lv.len() as int) =~= Seq::<Seq<char>>::empty());
    let mut m = chars_of("gallery-dl returned an unrecognized update status: ");
    extend(&mut m, &trim_ws(&chars_of(output)));
    Err(string_of(&m))
}

} // verus!
