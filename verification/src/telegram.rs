//! The TikTok Live replies of the Telegram bot: the watchlist, the status
//! of one target or of the recorder, and how a target given in a command
//! is matched to an entry.
use vstd::prelude::*;

use crate::clock::{
    local_time_of_timestamp, push_two_digits, showable_time, two_digits, year_digits, year_text,
    LocalDateTime,
};
use crate::recorder::TikTokLiveRecorderConfig;
use crate::text::{
    chars_of, contains, decimal, decimal_of, drop_while, eq_ignore_case, extend, is_lit, join,
    join_all, lower, lower_vec, ostr, push_str, seq_eq, string_of, trim, trim_start_class, trim_ws,
    vviews, CharClass,
};
use crate::watchlist::{entry_label, watch_entry_label, TikTokLiveWatchEntry, TikTokLiveWatchStatus};

verus! {

pub open spec fn status_icon(status: TikTokLiveWatchStatus) -> Seq<char> {
    match status {
        TikTokLiveWatchStatus::Recording => "🔴"@,
        TikTokLiveWatchStatus::Online => "🟢"@,
        TikTokLiveWatchStatus::Backoff => "🟡"@,
        TikTokLiveWatchStatus::Recoverable => "🟡"@,
        TikTokLiveWatchStatus::Error => "❌"@,
        TikTokLiveWatchStatus::Checking => "🔎"@,
        TikTokLiveWatchStatus::Offline => "⚫"@,
    }
}

pub fn tiktok_live_status_icon(status: TikTokLiveWatchStatus) -> (r: &'static str)
    ensures
        r@ == status_icon(status),
{
    match status {
        TikTokLiveWatchStatus::Recording => "🔴",
        TikTokLiveWatchStatus::Online => "🟢",
        TikTokLiveWatchStatus::Backoff => "🟡",
        TikTokLiveWatchStatus::Recoverable => "🟡",
        TikTokLiveWatchStatus::Error => "❌",
        TikTokLiveWatchStatus::Checking => "🔎",
        TikTokLiveWatchStatus::Offline => "⚫",
    }
}

/// How a target is shown: `@username`, else the input it was added with.
pub fn format_tiktok_live_telegram_target(entry: &TikTokLiveWatchEntry) -> (r: String)
    ensures
        r@ == entry_label(*entry),
{
    watch_entry_label(entry)
}

/// A local time as chrono writes `%Y-%m-%d %H:%M:%S`.
pub open spec fn date_time_text(t: LocalDateTime) -> Seq<char> {
    year_text(t.year as int) + "-"@ + two_digits(t.month as nat) + "-"@ + two_digits(t.day as nat)
        + " "@ + two_digits(t.hour as nat) + ":"@ + two_digits(t.minute as nat) + ":"@ + two_digits(
        t.second as nat,
    )
}

fn date_time_text_of(t: &LocalDateTime) -> (r: String)
    ensures
        r@ == date_time_text(*t),
{
    let mut v = year_digits(t.year);
    push_str(&mut v, "-");
    push_two_digits(&mut v, t.month);
    push_str(&mut v, "-");
    push_two_digits(&mut v, t.day);
    push_str(&mut v, " ");
    push_two_digits(&mut v, t.hour);
    push_str(&mut v, ":");
    push_two_digits(&mut v, t.minute);
    push_str(&mut v, ":");
    push_two_digits(&mut v, t.second);
    string_of(&v)
}

/// A time shown in local time as `YYYY-MM-DD hh:mm:ss`, or `never` when
/// there is none (or chrono cannot show it). Which local time a Unix time
/// is depends on the machine's time zone: what is stated is that the text
/// is that of some local time whose parts lie in their ranges.
pub fn format_tiktok_live_telegram_timestamp(seconds: Option<i64>) -> (r: String)
    ensures
        seconds is None ==> r@ == "never"@,
        seconds matches Some(s) && showable_time(s) ==> exists|t: LocalDateTime|
            t.is_valid() && r@ == date_time_text(t),
        r@ == "never"@ || exists|t: LocalDateTime| t.is_valid() && r@ == date_time_text(t),
{
    proof {
        reveal_strlit("never");
    }
    let local = match seconds {
        Some(s) => local_time_of_timestamp(s),
        None => None,
    };
    match local {
        Some(t) => date_time_text_of(&t),
        None => string_of(&chars_of("never")),
    }
}

/// The lines that describe an entry at position `index` of a list.
pub open spec fn entry_lines(entry: TikTokLiveWatchEntry, index: nat) -> Seq<Seq<char>> {
    let first = decimal(index + 1) + ". "@ + status_icon(entry.status) + " "@ + entry_label(entry);
    let status = "Status: "@ + entry.status.name() + if entry.enabled {
        ""@
    } else {
        " · disabled"@
    };
    let outcome = match ostr(entry.last_outcome) {
        Some(o) => seq!["Last outcome: "@ + o],
        None => seq![],
    };
    let segments = if entry.last_segment_count > 0 {
        seq!["Segments: "@ + decimal(entry.last_segment_count as nat)]
    } else {
        seq![]
    };
    let reconnects = if entry.last_reconnect_count > 0 {
        seq!["Reconnects: "@ + decimal(entry.last_reconnect_count as nat)]
    } else {
        seq![]
    };
    seq![first, status] + outcome + segments + reconnects
}

pub open spec fn entry_text(entry: TikTokLiveWatchEntry, index: nat) -> Seq<char> {
    join(entry_lines(entry, index), "\n"@)
}

fn push_line(lines: &mut Vec<Vec<char>>, line: Vec<char>)
    ensures
        vviews(final(lines)@) == vviews(old(lines)@).push(line@),
{
    let ghost before = lines@;
    lines.push(line);
    assert(vviews(lines@) =~= vviews(before).push(line@));
}

pub fn format_tiktok_live_telegram_entry(entry: &TikTokLiveWatchEntry, index: usize) -> (r: String)
    requires
        index < usize::MAX,
    ensures
        r@ == entry_text(*entry, index as nat),
{
    let mut lines: Vec<Vec<char>> = Vec::new();
    let mut first = decimal_of((index + 1) as u64);
    push_str(&mut first, ". ");
    push_str(&mut first, tiktok_live_status_icon(entry.status));
    push_str(&mut first, " ");
    push_str(&mut first, watch_entry_label(entry).as_str());
    push_line(&mut lines, first);
    let mut status = chars_of("Status: ");
    push_str(&mut status, entry.status.as_str());
    if entry.enabled {
        push_str(&mut status, "");
    } else {
        push_str(&mut status, " · disabled");
    }
    push_line(&mut lines, status);
    let ghost two = vviews(lines@);
    if let Some(o) = &entry.last_outcome {
        let mut l = chars_of("Last outcome: ");
        push_str(&mut l, o.as_str());
        push_line(&mut lines, l);
    }
    let ghost three = vviews(lines@);
    if entry.last_segment_count > 0 {
        let mut l = chars_of("Segments: ");
        extend(&mut l, &decimal_of(entry.last_segment_count as u64));
        push_line(&mut lines, l);
    }
    let ghost four = vviews(lines@);
    if entry.last_reconnect_count > 0 {
        let mut l = chars_of("Reconnects: ");
        extend(&mut l, &decimal_of(entry.last_reconnect_count as u64));
        push_line(&mut lines, l);
    }
    assert(vviews(lines@) =~= entry_lines(*entry, index as nat));
    string_of(&join_all(&lines, &chars_of("\n")))
}

pub open spec fn empty_watchlist_reply() -> Seq<char> {
    "📭 TikTok Live watchlist is empty.\nUse /tl_add @username to add one."@
}

/// The descriptions of the first `n` entries.
pub open spec fn entry_texts(entries: Seq<TikTokLiveWatchEntry>, n: nat) -> Seq<Seq<char>> {
    Seq::new(n, |i: int| entry_text(entries[i], i as nat))
}

/// The watchlist as the bot lists it: a header with the number of entries,
/// then the first eight entries, separated by blank lines.
pub open spec fn watchlist_reply(entries: Seq<TikTokLiveWatchEntry>) -> Seq<char> {
    if entries.len() == 0 {
        empty_watchlist_reply()
    } else {
        let shown = if entries.len() < 8 {
            entries.len()
        } else {
            8
        };
        "📺 TikTok Live watchlist ("@ + decimal(entries.len()) + ")"@ + "\n"@ + "\n"@ + join(
            entry_texts(entries, shown),
            "\n\n"@,
        )
    }
}

pub fn build_tiktok_live_telegram_watchlist_reply(entries: &[TikTokLiveWatchEntry]) -> (r: String)
    ensures
        r@ == watchlist_reply(entries@),
{
    if entries.len() == 0 {
        return string_of(
            &chars_of("📭 TikTok Live watchlist is empty.\nUse /tl_add @username to add one."),
        );
    }
    let shown: usize = if entries.len() < 8 {
        entries.len()
    } else {
        8
    };
    let mut texts: Vec<Vec<char>> = Vec::new();
    let mut k: usize = 0;
    while k < shown
        invariant
            k <= shown,
            shown <= entries.len(),
            shown <= 8,
            vviews(texts@) == entry_texts(entries@, k as nat),
        decreases shown - k,
    {
        let t = chars_of(format_tiktok_live_telegram_entry(&entries[k], k).as_str());
        push_line(&mut texts, t);
        assert(vviews(texts@) =~= entry_texts(entries@, (k + 1) as nat));
        k += 1;
    }
    let mut v = chars_of("📺 TikTok Live watchlist (");
    extend(&mut v, &decimal_of(entries.len() as u64));
    push_str(&mut v, ")");
    push_str(&mut v, "\n");
    push_str(&mut v, "\n");
    extend(&mut v, &join_all(&texts, &chars_of("\n\n")));
    string_of(&v)
}

/// Whether a command's target names an entry: its id, its input or
/// address (in any ASCII case), its username (with or without `@`), or an
/// address whose Live page is that username's.
pub open spec fn target_matches(entry: TikTokLiveWatchEntry, target: Seq<char>) -> bool {
    let raw = trim(target);
    let normalized = lower(raw);
    let username = lower(drop_while(raw, CharClass::One('@')));
    ||| entry.id@ == raw
    ||| lower(entry.target_input@) == lower(raw)
    ||| lower(entry.target_url@) == lower(raw)
    ||| match ostr(entry.username) {
        Some(u) => lower(u) == lower(username),
        None => false,
    }
    ||| contains(lower(entry.target_url@), "/@"@ + username + "/live"@)
    ||| lower(entry.target_url@) == normalized
}

pub fn tiktok_live_telegram_target_matches(entry: &TikTokLiveWatchEntry, target: &str) -> (r: bool)
    ensures
        r == target_matches(*entry, target@),
{
    let raw = trim_ws(&chars_of(target));
    let normalized = lower_vec(&raw);
    let username = lower_vec(&trim_start_class(&raw, &CharClass::One('@')));
    let url = chars_of(entry.target_url.as_str());
    if seq_eq(&chars_of(entry.id.as_str()), &raw) {
        return true;
    }
    if eq_ignore_case(&chars_of(entry.target_input.as_str()), &raw) {
        return true;
    }
    if eq_ignore_case(&url, &raw) {
        return true;
    }
    if let Some(u) = &entry.username {
        if eq_ignore_case(&chars_of(u.as_str()), &username) {
            return true;
        }
    }
    let lower_url = lower_vec(&url);
    let mut live = chars_of("/@");
    extend(&mut live, &username);
    push_str(&mut live, "/live");
    crate::text::contains_seq(&lower_url, &live) || seq_eq(&lower_url, &normalized)
}

/// The position of the first entry that a target names.
pub open spec fn first_match(entries: Seq<TikTokLiveWatchEntry>, target: Seq<char>) -> Option<int>
    decreases entries.len(),
{
    if entries.len() == 0 {
        None
    } else {
        match first_match(entries.drop_last(), target) {
            Some(i) => Some(i),
            None => if target_matches(entries.last(), target) {
                Some(entries.len() - 1)
            } else {
                None
            },
        }
    }
}

proof fn lemma_first_match_prefix(entries: Seq<TikTokLiveWatchEntry>, target: Seq<char>, n: int)
    requires
        0 < n <= entries.len(),
        first_match(entries.take(n), target) is Some,
    ensures
        first_match(entries, target) == first_match(entries.take(n), target),
    decreases entries.len() - n,
{
    if n < entries.len() {
        assert(entries.take(n + 1).drop_last() =~= entries.take(n));
        lemma_first_match_prefix(entries, target, n + 1);
    } else {
        assert(entries.take(n) =~= entries);
    }
}

/// The position of the first entry that a command's target names.
pub fn find_tiktok_live_telegram_entry(entries: &[TikTokLiveWatchEntry], target: &str) -> (r:
    Option<usize>)
    ensures
        match r {
            Some(i) => i < entries.len() && first_match(entries@, target@) == Some(i as int),
            None => first_match(entries@, target@) is None,
        },
{
    let mut k: usize = 0;
    while k < entries.len()
        invariant
            k <= entries.len(),
            first_match(entries@.take(k as int), target@) is None,
        decreases entries.len() - k,
    {
        assert(entries@.take(k + 1).drop_last() =~= entries@.take(k as int));
        if tiktok_live_telegram_target_matches(&entries[k], target) {
            proof {
                lemma_first_match_prefix(entries@, target@, k + 1);
            }
            return Some(k);
        }
        k += 1;
    }
    assert(entries@.take(entries.len() as int) =~= entries@);
    None
}

/// The status of one entry, given how its last check, last time online and
/// last recording are shown.
pub open spec fn entry_status_lines(
    entry: TikTokLiveWatchEntry,
    checked: Seq<char>,
    online: Seq<char>,
    recording: Seq<char>,
) -> Seq<Seq<char>> {
    let yes_no = |b: bool|
        if b {
            "yes"@
        } else {
            "no"@
        };
    seq![
        status_icon(entry.status) + " "@ + entry_label(entry),
        "Status: "@ + entry.status.name(),
        "Enabled: "@ + yes_no(entry.enabled),
        "Auto-record: "@ + yes_no(entry.auto_record),
        "Last checked: "@ + checked,
        "Last online: "@ + online,
        "Last recording: "@ + recording,
    ] + match ostr(entry.last_outcome) {
        Some(o) => seq!["Last outcome: "@ + o],
        None => seq![],
    } + match ostr(entry.last_error) {
        Some(e) => seq!["Last error: "@ + e],
        None => seq![],
    }
}

pub open spec fn entry_status_text(
    entry: TikTokLiveWatchEntry,
    checked: Seq<char>,
    online: Seq<char>,
    recording: Seq<char>,
) -> Seq<char> {
    join(entry_status_lines(entry, checked, online, recording), "\n"@)
}

fn line_with(prefix: &str, value: &str) -> (r: Vec<char>)
    ensures
        r@ == prefix@ + value@,
{
    let mut v = chars_of(prefix);
    push_str(&mut v, value);
    v
}

/// The status of one entry, with its times already shown as text.
pub fn telegram_entry_status(
    entry: &TikTokLiveWatchEntry,
    checked: &str,
    online: &str,
    recording: &str,
) -> (r: String)
    ensures
        r@ == entry_status_text(*entry, checked@, online@, recording@),
{
    let mut lines: Vec<Vec<char>> = Vec::new();
    let mut first = chars_of(tiktok_live_status_icon(entry.status));
    push_str(&mut first, " ");
    push_str(&mut first, watch_entry_label(entry).as_str());
    push_line(&mut lines, first);
    push_line(&mut lines, line_with("Status: ", entry.status.as_str()));
    push_line(
        &mut lines,
        line_with(
            "Enabled: ",
            if entry.enabled {
                "yes"
            } else {
                "no"
            },
        ),
    );
    push_line(
        &mut lines,
        line_with(
            "Auto-record: ",
            if entry.auto_record {
                "yes"
            } else {
                "no"
            },
        ),
    );
    push_line(&mut lines, line_with("Last checked: ", checked));
    push_line(&mut lines, line_with("Last online: ", online));
    push_line(&mut lines, line_with("Last recording: ", recording));
    if let Some(o) = &entry.last_outcome {
        push_line(&mut lines, line_with("Last outcome: ", o.as_str()));
    }
    if let Some(e) = &entry.last_error {
        push_line(&mut lines, line_with("Last error: ", e.as_str()));
    }
    assert(vviews(lines@) =~= entry_status_lines(*entry, checked@, online@, recording@));
    string_of(&join_all(&lines, &chars_of("\n")))
}

pub open spec fn count_status(entries: Seq<TikTokLiveWatchEntry>, status: TikTokLiveWatchStatus) -> nat
    decreases entries.len(),
{
    if entries.len() == 0 {
        0
    } else {
        count_status(entries.drop_last(), status) + if entries.last().status == status {
            1nat
        } else {
            0nat
        }
    }
}

pub open spec fn count_enabled(entries: Seq<TikTokLiveWatchEntry>) -> nat
    decreases entries.len(),
{
    if entries.len() == 0 {
        0
    } else {
        count_enabled(entries.drop_last()) + if entries.last().enabled {
            1nat
        } else {
            0nat
        }
    }
}

/// The recorder's summary: active rooms against the limit, the hard
/// limit, and how many entries there are, enabled, online and recording.
pub open spec fn summary_reply(
    entries: Seq<TikTokLiveWatchEntry>,
    config: TikTokLiveRecorderConfig,
) -> Seq<char> {
    join(
        seq![
            "📡 TikTok Live Recorder"@,
            "Active rooms: "@ + decimal(config.active_recordings as nat) + "/"@ + decimal(
                config.max_concurrent_recordings as nat,
            ),
            "Configured hard limit: "@ + decimal(config.hard_limit as nat),
            "Watchlist: "@ + decimal(entries.len()) + " total · "@ + decimal(
                count_enabled(entries),
            ) + " enabled"@,
            "Online: "@ + decimal(count_status(entries, TikTokLiveWatchStatus::Online)),
            "Recording: "@ + decimal(count_status(entries, TikTokLiveWatchStatus::Recording)),
        ],
        "\n"@,
    )
}

fn counts(entries: &[TikTokLiveWatchEntry]) -> (r: (usize, usize, usize))
    ensures
        r.0 == count_enabled(entries@),
        r.1 == count_status(entries@, TikTokLiveWatchStatus::Online),
        r.2 == count_status(entries@, TikTokLiveWatchStatus::Recording),
{
    let mut enabled: usize = 0;
    let mut online: usize = 0;
    let mut recording: usize = 0;
    let mut k: usize = 0;
    while k < entries.len()
        invariant
            k <= entries.len(),
            enabled == count_enabled(entries@.take(k as int)),
            online == count_status(entries@.take(k as int), TikTokLiveWatchStatus::Online),
            recording == count_status(entries@.take(k as int), TikTokLiveWatchStatus::Recording),
            enabled <= k,
            online <= k,
            recording <= k,
        decreases entries.len() - k,
    {
        assert(entries@.take(k + 1).drop_last() =~= entries@.take(k as int));
        let e = &entries[k];
        if e.enabled {
            enabled += 1;
        }
        if e.status == TikTokLiveWatchStatus::Online {
            online += 1;
        }
        if e.status == TikTokLiveWatchStatus::Recording {
            recording += 1;
        }
        k += 1;
    }
    assert(entries@.take(entries.len() as int) =~= entries@);
    (enabled, online, recording)
}

fn summary_reply_exec(entries: &[TikTokLiveWatchEntry], config: &TikTokLiveRecorderConfig) -> (r:
    String)
    ensures
        r@ == summary_reply(entries@, *config),
{
    let (enabled, online, recording) = counts(entries);
    let mut lines: Vec<Vec<char>> = Vec::new();
    push_line(&mut lines, chars_of("📡 TikTok Live Recorder"));
    let mut active = chars_of("Active rooms: ");
    extend(&mut active, &decimal_of(config.active_recordings as u64));
    push_str(&mut active, "/");
    extend(&mut active, &decimal_of(config.max_concurrent_recordings as u64));
    push_line(&mut lines, active);
    let mut hard = chars_of("Configured hard limit: ");
    extend(&mut hard, &decimal_of(config.hard_limit as u64));
    push_line(&mut lines, hard);
    let mut watch = chars_of("Watchlist: ");
    extend(&mut watch, &decimal_of(entries.len() as u64));
    push_str(&mut watch, " total · ");
    extend(&mut watch, &decimal_of(enabled as u64));
    push_str(&mut watch, " enabled");
    push_line(&mut lines, watch);
    let mut on = chars_of("Online: ");
    extend(&mut on, &decimal_of(online as u64));
    push_line(&mut lines, on);
    let mut rec = chars_of("Recording: ");
    extend(&mut rec, &decimal_of(recording as u64));
    push_line(&mut lines, rec);
    assert(vviews(lines@) =~= seq![
        "📡 TikTok Live Recorder"@,
        "Active rooms: "@ + decimal(config.active_recordings as nat) + "/"@ + decimal(
            config.max_concurrent_recordings as nat,
        ),
        "Configured hard limit: "@ + decimal(config.hard_limit as nat),
        "Watchlist: "@ + decimal(entries@.len()) + " total · "@ + decimal(count_enabled(entries@))
            + " enabled"@,
        "Online: "@ + decimal(count_status(entries@, TikTokLiveWatchStatus::Online)),
        "Recording: "@ + decimal(count_status(entries@, TikTokLiveWatchStatus::Recording)),
    ]);
    string_of(&join_all(&lines, &chars_of("\n")))
}

/// The status reply for `target`: for a target, the status of the first
/// entry it names (its times shown in local time, `never` when unset) or a
/// not-found message quoting it; without a target, the recorder's summary.
pub open spec fn status_reply_ok(
    entries: Seq<TikTokLiveWatchEntry>,
    config: TikTokLiveRecorderConfig,
    target: Option<Seq<char>>,
    reply: Seq<char>,
) -> bool {
    match target {
        None => reply == summary_reply(entries, config),
        Some(t) => match first_match(entries, t) {
            None => reply == "TikTok Live target not found: "@ + t,
            Some(i) => exists|checked: Seq<char>, online: Seq<char>, recording: Seq<char>|
                (entries[i].last_checked_at is None ==> checked == "never"@) && (
                entries[i].last_online_at is None ==> online == "never"@) && (
                entries[i].last_recording_at is None ==> recording == "never"@) && reply
                    == #[trigger] entry_status_text(entries[i], checked, online, recording),
        },
    }
}

/// The bot's status reply; see `status_reply_ok`.
pub fn build_tiktok_live_telegram_status_reply(
    entries: &[TikTokLiveWatchEntry],
    config: &TikTokLiveRecorderConfig,
    target: Option<&str>,
) -> (r: String)
    ensures
        status_reply_ok(entries@, *config, crate::text::opt_view(target), r@),
{
    match target {
        None => summary_reply_exec(entries, config),
        Some(t) => match find_tiktok_live_telegram_entry(entries, t) {
            None => {
                let mut v = chars_of("TikTok Live target not found: ");
                push_str(&mut v, t);
                string_of(&v)
            },
            Some(i) => {
                let e = &entries[i];
                let checked = format_tiktok_live_telegram_timestamp(e.last_checked_at);
                let online = format_tiktok_live_telegram_timestamp(e.last_online_at);
                let recording = format_tiktok_live_telegram_timestamp(e.last_recording_at);
                let r = telegram_entry_status(
                    e,
                    checked.as_str(),
                    online.as_str(),
                    recording.as_str(),
                );
                assert(r@ == entry_status_text(entries@[i as int], checked@, online@, recording@));
                r
            },
        },
    }
}

// ---------------------------------------------------------------------------
// Commands
// ---------------------------------------------------------------------------

/// A TikTok Live command of the bot.
#[derive(Clone, Copy, PartialEq, Eq, Structural, Debug)]
pub enum TelegramLiveCommand {
    Watchlist,
    Status,
    Add,
    Remove,
    Enable,
    Disable,
    Inspect,
    Record,
    Stop,
}

/// The command that takes a target, by name.
pub open spec fn targeted_command(name: Seq<char>) -> Option<TelegramLiveCommand> {
    if name == "add"@ {
        Some(TelegramLiveCommand::Add)
    } else if name == "remove"@ {
        Some(TelegramLiveCommand::Remove)
    } else if name == "enable"@ {
        Some(TelegramLiveCommand::Enable)
    } else if name == "disable"@ {
        Some(TelegramLiveCommand::Disable)
    } else if name == "inspect"@ {
        Some(TelegramLiveCommand::Inspect)
    } else if name == "record"@ {
        Some(TelegramLiveCommand::Record)
    } else if name == "stop"@ {
        Some(TelegramLiveCommand::Stop)
    } else {
        None
    }
}

/// What a command asks for: `watchlist` and `status` (with the target as
/// given) at once; any other command needs a non-blank target, which is
/// trimmed, and must be one of the known ones. A command that cannot run
/// is answered directly with the returned message.
pub open spec fn planned_command(name: Seq<char>, target: Option<Seq<char>>) -> Result<
    (TelegramLiveCommand, Option<Seq<char>>),
    Seq<char>,
> {
    if name == "watchlist"@ {
        Ok((TelegramLiveCommand::Watchlist, None))
    } else if name == "status"@ {
        Ok((TelegramLiveCommand::Status, target))
    } else {
        match target {
            Some(t) if trim(t).len() > 0 => match targeted_command(name) {
                Some(c) => Ok((c, Some(trim(t)))),
                None => Err("Unsupported command. Use /help to see available commands."@),
            },
            _ => Err("Missing TikTok Live target. Example: /tl_"@ + name + " @username"@),
        }
    }
}

/// The name a command goes by in Telegram (`/tl_<name>`).
pub open spec fn command_name(command: TelegramLiveCommand) -> Seq<char> {
    match command {
        TelegramLiveCommand::Watchlist => "watchlist"@,
        TelegramLiveCommand::Status => "status"@,
        TelegramLiveCommand::Add => "add"@,
        TelegramLiveCommand::Remove => "remove"@,
        TelegramLiveCommand::Enable => "enable"@,
        TelegramLiveCommand::Disable => "disable"@,
        TelegramLiveCommand::Inspect => "inspect"@,
        TelegramLiveCommand::Record => "record"@,
        TelegramLiveCommand::Stop => "stop"@,
    }
}

/// A command that is planned is the command named: `enable` enables,
/// `disable` disables, and so on; so two different names never plan the
/// same command.
pub proof fn law_planned_command_is_the_one_named(
    name: Seq<char>,
    target: Option<Seq<char>>,
    other_name: Seq<char>,
    other_target: Option<Seq<char>>,
)
    ensures
        planned_command(name, target) matches Ok(p) ==> command_name(p.0) == name,
        planned_command(name, target) is Ok && planned_command(other_name, other_target) is Ok && name
            != other_name ==> planned_command(name, target)->Ok_0.0 != planned_command(
            other_name,
            other_target,
        )->Ok_0.0,
{
}

pub fn plan_tiktok_live_telegram_command(command: &str, target: Option<&str>) -> (r: Result<
    (TelegramLiveCommand, Option<String>),
    String,
>)
    ensures
        match r {
            Ok(p) => planned_command(command@, crate::text::opt_view(target)) == Ok::<
                (TelegramLiveCommand, Option<Seq<char>>),
                Seq<char>,
            >((p.0, ostr(p.1))),
            Err(m) => planned_command(command@, crate::text::opt_view(target)) == Err::<
                (TelegramLiveCommand, Option<Seq<char>>),
                Seq<char>,
            >(m@),
        },
{
    let c = chars_of(command);
    if is_lit(&c, "watchlist") {
        return Ok((TelegramLiveCommand::Watchlist, None));
    }
    if is_lit(&c, "status") {
        return Ok(
            (
                TelegramLiveCommand::Status,
                match target {
                    Some(t) => Some(string_of(&chars_of(t))),
                    None => None,
                },
            ),
        );
    }
    let t = match target {
        Some(t) => trim_ws(&chars_of(t)),
        None => {
            let e: Vec<char> = Vec::new();
            e
        },
    };
    if target.is_none() || t.len() == 0 {
        let mut m = chars_of("Missing TikTok Live target. Example: /tl_");
        push_str(&mut m, command);
        push_str(&mut m, " @username");
        return Err(string_of(&m));
    }
    let kind = if is_lit(&c, "add") {
        TelegramLiveCommand::Add
    } else if is_lit(&c, "remove") {
        TelegramLiveCommand::Remove
    } else if is_lit(&c, "enable") {
        TelegramLiveCommand::Enable
    } else if is_lit(&c, "disable") {
        TelegramLiveCommand::Disable
    } else if is_lit(&c, "inspect") {
        TelegramLiveCommand::Inspect
    } else if is_lit(&c, "record") {
        TelegramLiveCommand::Record
    } else if is_lit(&c, "stop") {
        TelegramLiveCommand::Stop
    } else {
        return Err(string_of(&chars_of("Unsupported command. Use /help to see available commands.")));
    };
    Ok((kind, Some(string_of(&t))))
}

/// The words that open the answer to a command that has run.
pub open spec fn command_done_prefix(command: TelegramLiveCommand) -> Seq<char> {
    match command {
        TelegramLiveCommand::Add => "Added TikTok Live target: "@,
        TelegramLiveCommand::Remove => "Removed TikTok Live target: "@,
        TelegramLiveCommand::Enable => "Enabled TikTok Live target: "@,
        TelegramLiveCommand::Disable => "Disabled TikTok Live target: "@,
        TelegramLiveCommand::Inspect => "Checked "@,
        TelegramLiveCommand::Record => "Started TikTok Live recording: "@,
        TelegramLiveCommand::Stop => "Stopping TikTok Live recording: "@,
        _ => Seq::empty(),
    }
}

/// The answer once a targeted command has run on `entry`: what was done
/// to it, or (for a check) the status it was found in, with the error of
/// the check when there is one.
pub open spec fn command_done_reply(command: TelegramLiveCommand, entry: TikTokLiveWatchEntry) -> Seq<char> {
    command_done_prefix(command) + entry_label(entry) + if command == TelegramLiveCommand::Inspect {
        ": "@ + entry.status.name() + match ostr(entry.last_error) {
            Some(e) => " ("@ + e + ")"@,
            None => Seq::empty(),
        }
    } else {
        Seq::empty()
    }
}

pub fn telegram_command_done_reply(command: TelegramLiveCommand, entry: &TikTokLiveWatchEntry) -> (r:
    String)
    ensures
        r@ == command_done_reply(command, *entry),
{
    let label = watch_entry_label(entry);
    let mut v: Vec<char> = match command {
        TelegramLiveCommand::Add => chars_of("Added TikTok Live target: "),
        TelegramLiveCommand::Remove => chars_of("Removed TikTok Live target: "),
        TelegramLiveCommand::Enable => chars_of("Enabled TikTok Live target: "),
        TelegramLiveCommand::Disable => chars_of("Disabled TikTok Live target: "),
        TelegramLiveCommand::Inspect => chars_of("Checked "),
        TelegramLiveCommand::Record => chars_of("Started TikTok Live recording: "),
        TelegramLiveCommand::Stop => chars_of("Stopping TikTok Live recording: "),
        _ => Vec::new(),
    };
    assert(v@ == command_done_prefix(command));
    push_str(&mut v, label.as_str());
    let ghost head = v@;
    if command == TelegramLiveCommand::Inspect {
        push_str(&mut v, ": ");
        push_str(&mut v, entry.status.as_str());
        let ghost mid = v@;
        if let Some(e) = &entry.last_error {
            push_str(&mut v, " (");
            push_str(&mut v, e.as_str());
            push_str(&mut v, ")");
        } else {
            assert(v@ == mid + Seq::<char>::empty());
        }
    } else {
        assert(v@ == head + Seq::<char>::empty());
    }
    string_of(&v)
}

/// The answer when a command's target names no entry.
pub fn telegram_target_not_found_reply(target: &str) -> (r: String)
    ensures
        r@ == "TikTok Live target not found: "@ + target@,
{
    let mut v = chars_of("TikTok Live target not found: ");
    push_str(&mut v, target);
    string_of(&v)
}

/// The answer to `stop` for an entry that records nothing.
pub fn telegram_no_active_recording_reply(entry: &TikTokLiveWatchEntry) -> (r: String)
    ensures
        r@ == "No active TikTok Live recording for "@ + entry_label(*entry) + "."@,
{
    let mut v = chars_of("No active TikTok Live recording for ");
    push_str(&mut v, watch_entry_label(entry).as_str());
    push_str(&mut v, ".");
    string_of(&v)
}

/// The watch input with which the bot adds a target: the interface's
/// defaults (`auto` quality and transport, a one-minute poll, once per
/// live, the default cooldown) and everything else unset.
pub fn telegram_watch_input(target: &str) -> (r: crate::recorder::SaveTikTokLiveWatchEntryInput)
    ensures
        r.input@ == target@,
        r.id is None && r.enabled is None && r.auto_record is None,
        r.output_dir@.len() == 0,
        ostr(r.preferred_quality) == Some("auto"@) && ostr(r.preferred_transport) == Some("auto"@),
        r.duration_seconds is None,
        r.cookie_mode is None && r.cookie_browser is None && r.cookie_browser_profile is None
            && r.cookie_file_path is None,
        r.poll_interval_seconds == Some(60u32),
        r.record_mode == Some(crate::watchlist::TikTokLiveRecordMode::OncePerLive),
        r.cooldown_seconds == Some(crate::watchlist::WATCHLIST_DEFAULT_COOLDOWN_SECONDS),
        r.filename_template is None && r.schedule_enabled is None && r.schedule_days is None,
        r.schedule_start_minute is None && r.schedule_end_minute is None,
{
    crate::recorder::SaveTikTokLiveWatchEntryInput {
        id: None,
        input: string_of(&chars_of(target)),
        enabled: None,
        auto_record: None,
        output_dir: String::new(),
        preferred_quality: Some(string_of(&chars_of("auto"))),
        preferred_transport: Some(string_of(&chars_of("auto"))),
        duration_seconds: None,
        cookie_mode: None,
        cookie_browser: None,
        cookie_browser_profile: None,
        cookie_file_path: None,
        poll_interval_seconds: Some(60),
        record_mode: Some(crate::watchlist::TikTokLiveRecordMode::OncePerLive),
        cooldown_seconds: Some(crate::watchlist::WATCHLIST_DEFAULT_COOLDOWN_SECONDS),
        filename_template: None,
        schedule_enabled: None,
        schedule_days: None,
        schedule_start_minute: None,
        schedule_end_minute: None,
    }
}

} // verus!
