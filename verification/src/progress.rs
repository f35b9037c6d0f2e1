//! Reading the progress lines that yt-dlp prints while it downloads.
use vstd::prelude::*;

use crate::pattern::{group_at, group_text, regex_captures, regex_captures_of};
use crate::text::{chars_of, contains, contains_seq, ostr, string_of, trim, trim_ws};
use crate::ytdlp::{
    capture_playlist_item, playlist_item_captures, playlist_position, playlist_position_from_captures,
};

verus! {

/// What a progress line tells. The percentage is the decimal text that was
/// printed (`0` for a live stream, which has none).
pub struct ProgressUpdate {
    pub percent: String,
    pub speed: String,
    pub eta: String,
    pub playlist_index: Option<u32>,
    pub playlist_count: Option<u32>,
    pub downloaded_size: Option<String>,
    pub elapsed_time: Option<String>,
}

impl View for ProgressUpdate {
    type V = (
        Seq<char>,
        Seq<char>,
        Seq<char>,
        Option<u32>,
        Option<u32>,
        Option<Seq<char>>,
        Option<Seq<char>>,
    );

    open spec fn view(&self) -> Self::V {
        (
            self.percent@,
            self.speed@,
            self.eta@,
            self.playlist_index,
            self.playlist_count,
            ostr(self.downloaded_size),
            ostr(self.elapsed_time),
        )
    }
}

/// A percentage, then after ` at ` the speed, then optionally after `ETA`
/// the time left.
pub const PERCENT_SPEED_ETA_PATTERN: &'static str = r"(\d+\.?\d*)%.*at\s+(\S+)(?:.*ETA\s+(\S+))?";

/// A bare percentage.
pub const PERCENT_PATTERN: &'static str = r"(\d+\.?\d*)%";

/// A `[download]` line of a live stream: the size so far, the speed and,
/// in brackets, the time elapsed.
pub const LIVE_FRAGMENT_PATTERN: &'static str =
    r"\[download\]\s+([\d.]+\s*\w+)\s+at\s+([\d.]+\s*\w+/s)\s*(?:\((\d{2}:\d{2}:\d{2})\))?";

/// Groups 1 to 3 of what a pattern captures in a line, each absent where
/// it took part in no match; nothing when the line does not match.
pub open spec fn three_groups(pattern: Seq<char>, line: Seq<char>) -> Option<
    (Option<Seq<char>>, Option<Seq<char>>, Option<Seq<char>>),
> {
    match regex_captures_of(pattern, line) {
        Some(g) => Some((group_at(g, 1), group_at(g, 2), group_at(g, 3))),
        None => None,
    }
}

/// The percentage, speed and ETA groups of a line.
pub open spec fn percent_speed_eta_captures(line: Seq<char>) -> Option<
    (Option<Seq<char>>, Option<Seq<char>>, Option<Seq<char>>),
> {
    three_groups(PERCENT_SPEED_ETA_PATTERN@, line)
}

/// The percentage group of a line.
pub open spec fn percent_captures(line: Seq<char>) -> Option<Option<Seq<char>>> {
    match regex_captures_of(PERCENT_PATTERN@, line) {
        Some(g) => Some(group_at(g, 1)),
        None => None,
    }
}

/// The size, speed and elapsed-time groups of a live stream's line.
pub open spec fn live_fragment_captures(line: Seq<char>) -> Option<
    (Option<Seq<char>>, Option<Seq<char>>, Option<Seq<char>>),
> {
    three_groups(LIVE_FRAGMENT_PATTERN@, line)
}

fn capture_three(pattern: &str, line: &str) -> (r: Option<(Option<String>, Option<String>, Option<String>)>)
    ensures
        match r {
            Some(c) => three_groups(pattern@, line@) == Some((ostr(c.0), ostr(c.1), ostr(c.2))),
            None => three_groups(pattern@, line@) is None,
        },
{
    match regex_captures(pattern, line) {
        Some(g) => Some((group_text(&g, 1), group_text(&g, 2), group_text(&g, 3))),
        None => None,
    }
}

fn capture_percent_speed_eta(line: &str) -> (r: Option<(Option<String>, Option<String>, Option<String>)>)
    ensures
        match r {
            Some(c) => percent_speed_eta_captures(line@) == Some((ostr(c.0), ostr(c.1), ostr(c.2))),
            None => percent_speed_eta_captures(line@) is None,
        },
{
    capture_three(PERCENT_SPEED_ETA_PATTERN, line)
}

fn capture_percent(line: &str) -> (r: Option<Option<String>>)
    ensures
        match r {
            Some(c) => percent_captures(line@) == Some(ostr(c)),
            None => percent_captures(line@) is None,
        },
{
    match regex_captures(PERCENT_PATTERN, line) {
        Some(g) => Some(group_text(&g, 1)),
        None => None,
    }
}

fn capture_live_fragment(line: &str) -> (r: Option<(Option<String>, Option<String>, Option<String>)>)
    ensures
        match r {
            Some(c) => live_fragment_captures(line@) == Some((ostr(c.0), ostr(c.1), ostr(c.2))),
            None => live_fragment_captures(line@) is None,
        },
{
    capture_three(LIVE_FRAGMENT_PATTERN, line)
}

/// A percentage as a decimal number in ASCII digits: a digit first, then
/// digits and at most one `.`. Of what the patterns capture, these are the
/// texts that parse as a floating-point number (`\d` also matches other
/// scripts' digits, which do not parse).
pub open spec fn ascii_decimal(p: Seq<char>) -> bool {
    &&& p.len() > 0 && crate::text::is_digit(p[0])
    &&& forall|i: int| 0 <= i < p.len() ==> crate::text::is_digit(#[trigger] p[i]) || p[i] == '.'
    &&& forall|i: int, j: int| 0 <= i < j < p.len() && #[trigger] p[i] == '.' ==> #[trigger] p[j] != '.'
}

fn is_ascii_decimal(p: &String) -> (r: bool)
    ensures
        r == ascii_decimal(p@),
{
    let c = chars_of(p.as_str());
    if c.len() == 0 || !crate::text::is_ascii_digit(c[0]) {
        return false;
    }
    let mut dot: Option<usize> = None;
    let mut i: usize = 0;
    while i < c.len()
        invariant
            i <= c.len(),
            c@ == p@,
            c@.len() > 0 && crate::text::is_digit(c@[0]),
            forall|k: int| 0 <= k < i ==> crate::text::is_digit(#[trigger] c@[k]) || c@[k] == '.',
            match dot {
                None => forall|k: int| 0 <= k < i ==> c@[k] != '.',
                Some(d) => d < i && c@[d as int] == '.' && forall|k: int| 0 <= k < i && k != d ==> c@[k] != '.',
            },
        decreases c.len() - i,
    {
        if c[i] == '.' {
            if dot.is_some() {
                return false;
            }
            dot = Some(i);
        } else if !crate::text::is_ascii_digit(c[i]) {
            return false;
        }
        i += 1;
    }
    true
}

pub open spec fn or_empty(s: Option<Seq<char>>) -> Seq<char> {
    match s {
        Some(t) => t,
        None => Seq::empty(),
    }
}

/// The playlist position a line announces, when it announces one.
pub open spec fn line_position(line: Seq<char>) -> (Option<u32>, Option<u32>) {
    if contains(line, "Downloading item"@) {
        playlist_position(playlist_item_captures(line), None, None)
    } else {
        (None, None)
    }
}

/// What a progress line tells: for a `[download]` line with a percentage,
/// the percentage with the speed and ETA when the line has them; for a
/// `[download]` line of a live stream (no percentage), the size, speed and
/// time so far. Any other line tells nothing, nor does a match whose
/// percentage group is missing.
pub open spec fn progress_of(line: Seq<char>) -> Option<
    (Seq<char>, Seq<char>, Seq<char>, Option<u32>, Option<u32>, Option<Seq<char>>, Option<Seq<char>>),
> {
    let pos = line_position(line);
    let download = contains(line, "[download]"@);
    let percent = contains(line, "%"@);
    let at = contains(line, " at "@);
    if download && percent {
        if at && percent_speed_eta_captures(line) is Some {
            let c = percent_speed_eta_captures(line).unwrap();
            match c.0 {
                Some(p) => if ascii_decimal(p) {
                    Some((p, or_empty(c.1), or_empty(c.2), pos.0, pos.1, None, None))
                } else {
                    None
                },
                None => None,
            }
        } else {
            match percent_captures(line) {
                Some(Some(p)) => if ascii_decimal(p) {
                    Some((p, Seq::empty(), Seq::empty(), pos.0, pos.1, None, None))
                } else {
                    None
                },
                _ => None,
            }
        }
    } else if download && at && live_fragment_captures(line) is Some {
        let c = live_fragment_captures(line).unwrap();
        Some(
            (
                "0"@,
                or_empty(c.1),
                Seq::empty(),
                pos.0,
                pos.1,
                match c.0 {
                    Some(d) => Some(trim(d)),
                    None => None,
                },
                c.2,
            ),
        )
    } else {
        None
    }
}

/// In a `[download]` line with a percentage and ` at `, the speed is the
/// speed group and the ETA the ETA group, each on its own: the speed is
/// kept whether or not an ETA follows, and a missing group reads as empty.
pub proof fn law_progress_speed_and_eta_are_read_apart(
    line: Seq<char>,
    percent: Seq<char>,
    speed: Option<Seq<char>>,
    eta: Option<Seq<char>>,
)
    requires
        contains(line, "[download]"@),
        contains(line, "%"@),
        contains(line, " at "@),
        percent_speed_eta_captures(line) == Some((Some(percent), speed, eta)),
        ascii_decimal(percent),
    ensures
        progress_of(line) matches Some(u) && u.0 == percent && (speed matches Some(s) ==> u.1 == s) && (
        speed is None ==> u.1.len() == 0) && (eta matches Some(e) ==> u.2 == e) && (eta is None
            ==> u.2.len() == 0),
{
}

/// A `[download]` line of a live stream (` at ` but no percentage) reports
/// no percentage (`0`) and no ETA, its speed from the speed group, its size
/// so far trimmed from the size group, and its elapsed time as captured.
pub proof fn law_live_progress_reports_size_speed_and_time(
    line: Seq<char>,
    size: Option<Seq<char>>,
    speed: Option<Seq<char>>,
    elapsed: Option<Seq<char>>,
)
    requires
        contains(line, "[download]"@),
        !contains(line, "%"@),
        contains(line, " at "@),
        live_fragment_captures(line) == Some((size, speed, elapsed)),
    ensures
        progress_of(line) matches Some(u) && u.0 == "0"@ && u.2.len() == 0 && (speed matches Some(s)
            ==> u.1 == s) && (speed is None ==> u.1.len() == 0) && (size matches Some(d) ==> u.5
            == Some(trim(d))) && (size is None ==> u.5 is None) && u.6 == elapsed,
{
}

/// A progress line that also announces `Downloading item <i> of <n>`
/// reports item `i` of `n` (each as a number that fits, else unknown); a
/// line without such an announcement reports no playlist position.
pub proof fn law_progress_reports_the_announced_item(line: Seq<char>)
    ensures
        progress_of(line) matches Some(u) ==> {
            &&& contains(line, "Downloading item"@) && playlist_item_captures(line) is Some ==> {
                let (item, count) = playlist_item_captures(line).unwrap();
                u.3 == crate::ytdlp::parsed_u32(item) && u.4 == crate::ytdlp::parsed_u32(count)
            }
            &&& !contains(line, "Downloading item"@) ==> u.3 is None && u.4 is None
        },
{
}

fn text_or_empty(s: Option<String>) -> (r: String)
    ensures
        r@ == or_empty(ostr(s)),
{
    match s {
        Some(t) => t,
        None => String::new(),
    }
}

/// Reads a progress line of yt-dlp.
pub fn parse_progress(line: &str) -> (r: Option<ProgressUpdate>)
    ensures
        match r {
            Some(u) => progress_of(line@) == Some(u@),
            None => progress_of(line@) is None,
        },
{
    let l = chars_of(line);
    proof {
        reveal_strlit("Downloading item");
        reveal_strlit("[download]");
        reveal_strlit("%");
        reveal_strlit(" at ");
        reveal_strlit("0");
    }
    let (playlist_index, playlist_count) = if contains_seq(&l, &chars_of("Downloading item")) {
        playlist_position_from_captures(capture_playlist_item(line), None, None)
    } else {
        (None, None)
    };
    let download = contains_seq(&l, &chars_of("[download]"));
    let percent = contains_seq(&l, &chars_of("%"));
    let at = contains_seq(&l, &chars_of(" at "));
    if download && percent {
        if at {
            if let Some(c) = capture_percent_speed_eta(line) {
                let (p, s, e) = c;
                return match p {
                    Some(p) => if !is_ascii_decimal(&p) {
                        None
                    } else {
                        Some(
                        ProgressUpdate {
                            percent: p,
                            speed: text_or_empty(s),
                            eta: text_or_empty(e),
                            playlist_index,
                            playlist_count,
                            downloaded_size: None,
                            elapsed_time: None,
                        },
                    )
                    },
                    None => None,
                };
            }
        }
        return match capture_percent(line) {
            Some(Some(p)) => if !is_ascii_decimal(&p) {
                None
            } else {
                Some(
                ProgressUpdate {
                    percent: p,
                    speed: String::new(),
                    eta: String::new(),
                    playlist_index,
                    playlist_count,
                    downloaded_size: None,
                    elapsed_time: None,
                },
            )
            },
            _ => None,
        };
    }
    if download && at {
        if let Some(c) = capture_live_fragment(line) {
            let (d, s, t) = c;
            let downloaded_size = match d {
                Some(d) => Some(string_of(&trim_ws(&chars_of(d.as_str())))),
                None => None,
            };
            return Some(
                ProgressUpdate {
                    percent: string_of(&chars_of("0")),
                    speed: text_or_empty(s),
                    eta: String::new(),
                    playlist_index,
                    playlist_count,
                    downloaded_size,
                    elapsed_time: t,
                },
            );
        }
    }
    None
}

} // verus!
