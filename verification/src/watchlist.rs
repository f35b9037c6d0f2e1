//! The TikTok Live watchlist: entries, their statuses and the rules that
//! decide when an entry is polled and when it starts a recording.
use vstd::prelude::*;

use crate::text::{
    ostr, opt_view, all_digits, chars_of, digits_value, eq_ignore_case, has_prefix, is_lit, join, join_all, lower,
    parse_bounded, parse_uint, push_str, split, split_all, starts_with, string_of, trim, trim_ws,
    vviews,
};

verus! {

pub const WATCHLIST_MIN_POLL_SECONDS: u32 = 30;

pub const WATCHLIST_MAX_POLL_SECONDS: u32 = 3600;

pub const WATCHLIST_DEFAULT_COOLDOWN_SECONDS: u32 = 3600;

pub const WATCHLIST_MAX_COOLDOWN_SECONDS: u32 = 604_800;

pub const WATCHLIST_MAX_BACKOFF_SECONDS: u32 = 1800;

pub const TIKTOK_LIVE_MAX_RECORDINGS_HARD_LIMIT: usize = 4;

/// What the watcher last saw of a watched streamer.
#[derive(Clone, Copy, PartialEq, Eq, Structural, Debug)]
pub enum TikTokLiveWatchStatus {
    Offline,
    Checking,
    Online,
    Recording,
    Backoff,
    Recoverable,
    Error,
}

impl TikTokLiveWatchStatus {
    pub open spec fn name(self) -> Seq<char> {
        match self {
            TikTokLiveWatchStatus::Offline => "offline"@,
            TikTokLiveWatchStatus::Checking => "checking"@,
            TikTokLiveWatchStatus::Online => "online"@,
            TikTokLiveWatchStatus::Recording => "recording"@,
            TikTokLiveWatchStatus::Backoff => "backoff"@,
            TikTokLiveWatchStatus::Recoverable => "recoverable"@,
            TikTokLiveWatchStatus::Error => "error"@,
        }
    }

    /// The status stored under `name`, if any.
    pub open spec fn named(name: Seq<char>) -> Option<TikTokLiveWatchStatus> {
        if name == "offline"@ {
            Some(TikTokLiveWatchStatus::Offline)
        } else if name == "checking"@ {
            Some(TikTokLiveWatchStatus::Checking)
        } else if name == "online"@ {
            Some(TikTokLiveWatchStatus::Online)
        } else if name == "recording"@ {
            Some(TikTokLiveWatchStatus::Recording)
        } else if name == "backoff"@ {
            Some(TikTokLiveWatchStatus::Backoff)
        } else if name == "recoverable"@ {
            Some(TikTokLiveWatchStatus::Recoverable)
        } else if name == "error"@ {
            Some(TikTokLiveWatchStatus::Error)
        } else {
            None
        }
    }

    /// The status stored under `value`; an unknown name is an error that
    /// quotes it.
    pub fn from_name(value: &str) -> (r: Result<TikTokLiveWatchStatus, String>)
        ensures
            r matches Ok(s) ==> TikTokLiveWatchStatus::named(value@) == Some(s),
            r matches Err(e) ==> TikTokLiveWatchStatus::named(value@) is None && e@
                == "Unknown TikTok Live watch status: "@ + value@,
            r is Ok <==> TikTokLiveWatchStatus::named(value@) is Some,
    {
        let v = chars_of(value);
        if is_lit(&v, "offline") {
            Ok(TikTokLiveWatchStatus::Offline)
        } else if is_lit(&v, "checking") {
            Ok(TikTokLiveWatchStatus::Checking)
        } else if is_lit(&v, "online") {
            Ok(TikTokLiveWatchStatus::Online)
        } else if is_lit(&v, "recording") {
            Ok(TikTokLiveWatchStatus::Recording)
        } else if is_lit(&v, "backoff") {
            Ok(TikTokLiveWatchStatus::Backoff)
        } else if is_lit(&v, "recoverable") {
            Ok(TikTokLiveWatchStatus::Recoverable)
        } else if is_lit(&v, "error") {
            Ok(TikTokLiveWatchStatus::Error)
        } else {
            let mut m = chars_of("Unknown TikTok Live watch status: ");
            push_str(&mut m, value);
            Err(string_of(&m))
        }
    }

    pub fn as_str(self) -> (r: &'static str)
        ensures
            r@ == self.name(),
    {
        match self {
            TikTokLiveWatchStatus::Offline => "offline",
            TikTokLiveWatchStatus::Checking => "checking",
            TikTokLiveWatchStatus::Online => "online",
            TikTokLiveWatchStatus::Recording => "recording",
            TikTokLiveWatchStatus::Backoff => "backoff",
            TikTokLiveWatchStatus::Recoverable => "recoverable",
            TikTokLiveWatchStatus::Error => "error",
        }
    }
}

/// When a watched streamer going live starts a recording.
#[derive(Clone, Copy, PartialEq, Eq, Structural, Debug)]
pub enum TikTokLiveRecordMode {
    OncePerLive,
    AlwaysAfterCooldown,
    ManualOnly,
}

impl TikTokLiveRecordMode {
    pub open spec fn name(self) -> Seq<char> {
        match self {
            TikTokLiveRecordMode::OncePerLive => "once_per_live"@,
            TikTokLiveRecordMode::AlwaysAfterCooldown => "always_after_cooldown"@,
            TikTokLiveRecordMode::ManualOnly => "manual_only"@,
        }
    }

    /// The mode stored under `name`, if any.
    pub open spec fn named(name: Seq<char>) -> Option<TikTokLiveRecordMode> {
        if name == "once_per_live"@ {
            Some(TikTokLiveRecordMode::OncePerLive)
        } else if name == "always_after_cooldown"@ {
            Some(TikTokLiveRecordMode::AlwaysAfterCooldown)
        } else if name == "manual_only"@ {
            Some(TikTokLiveRecordMode::ManualOnly)
        } else {
            None
        }
    }

    /// The mode stored under `value`; an unknown name is an error that
    /// quotes it.
    pub fn from_name(value: &str) -> (r: Result<TikTokLiveRecordMode, String>)
        ensures
            r matches Ok(m) ==> TikTokLiveRecordMode::named(value@) == Some(m),
            r matches Err(e) ==> TikTokLiveRecordMode::named(value@) is None && e@
                == "Unknown TikTok Live record mode: "@ + value@,
            r is Ok <==> TikTokLiveRecordMode::named(value@) is Some,
    {
        let v = chars_of(value);
        if is_lit(&v, "once_per_live") {
            Ok(TikTokLiveRecordMode::OncePerLive)
        } else if is_lit(&v, "always_after_cooldown") {
            Ok(TikTokLiveRecordMode::AlwaysAfterCooldown)
        } else if is_lit(&v, "manual_only") {
            Ok(TikTokLiveRecordMode::ManualOnly)
        } else {
            let mut m = chars_of("Unknown TikTok Live record mode: ");
            push_str(&mut m, value);
            Err(string_of(&m))
        }
    }

    pub fn as_str(self) -> (r: &'static str)
        ensures
            r@ == self.name(),
    {
        match self {
            TikTokLiveRecordMode::OncePerLive => "once_per_live",
            TikTokLiveRecordMode::AlwaysAfterCooldown => "always_after_cooldown",
            TikTokLiveRecordMode::ManualOnly => "manual_only",
        }
    }
}

impl Default for TikTokLiveRecordMode {
    fn default() -> (r: Self)
        ensures
            r == TikTokLiveRecordMode::OncePerLive,
    {
        TikTokLiveRecordMode::OncePerLive
    }
}

/// A watched TikTok streamer and what the watcher knows about it.
#[derive(Clone, Debug)]
pub struct TikTokLiveWatchEntry {
    pub id: String,
    pub target_input: String,
    pub target_url: String,
    pub username: Option<String>,
    pub enabled: bool,
    pub auto_record: bool,
    pub output_dir: String,
    pub preferred_quality: Option<String>,
    pub preferred_transport: Option<String>,
    pub duration_seconds: Option<u32>,
    pub cookie_mode: Option<String>,
    pub cookie_browser: Option<String>,
    pub cookie_browser_profile: Option<String>,
    pub cookie_file_path: Option<String>,
    pub poll_interval_seconds: u32,
    pub record_mode: TikTokLiveRecordMode,
    pub cooldown_seconds: u32,
    pub filename_template: Option<String>,
    pub schedule_enabled: bool,
    pub schedule_days: Option<String>,
    pub schedule_start_minute: Option<u32>,
    pub schedule_end_minute: Option<u32>,
    pub backoff_attempt: u32,
    pub next_check_at: i64,
    pub status: TikTokLiveWatchStatus,
    pub active_job_id: Option<String>,
    pub last_error: Option<String>,
    pub last_checked_at: Option<i64>,
    pub last_online_at: Option<i64>,
    pub last_recording_at: Option<i64>,
    pub last_session_id: Option<String>,
    pub last_outcome: Option<String>,
    pub last_completed_at: Option<i64>,
    pub last_started_job_id: Option<String>,
    pub last_segment_count: u32,
    pub last_refresh_count: u32,
    pub last_reconnect_count: u32,
    pub last_file_size: Option<u64>,
    pub last_title: Option<String>,
    pub last_uploader: Option<String>,
    pub thumbnail: Option<String>,
    pub avatar: Option<String>,
    pub last_viewer_count: Option<u64>,
    pub created_at: i64,
    pub updated_at: i64,
}


// ---------------------------------------------------------------------------
// Limits
// ---------------------------------------------------------------------------

pub open spec fn clamp(v: int, lo: int, hi: int) -> int {
    if v < lo {
        lo
    } else if v > hi {
        hi
    } else {
        v
    }
}

/// The number of rooms recorded at once, 1 to 4; 1 when unset.
pub fn clamp_tiktok_live_recording_limit(value: Option<usize>) -> (r: usize)
    ensures
        r == clamp(
            match value {
                Some(v) => v as int,
                None => 1,
            },
            1,
            TIKTOK_LIVE_MAX_RECORDINGS_HARD_LIMIT as int,
        ),
{
    let v = match value {
        Some(v) => v,
        None => 1,
    };
    if v < 1 {
        1
    } else if v > TIKTOK_LIVE_MAX_RECORDINGS_HARD_LIMIT {
        TIKTOK_LIVE_MAX_RECORDINGS_HARD_LIMIT
    } else {
        v
    }
}

/// The cooldown between recordings; one hour when unset, at most a week.
pub fn clamp_watchlist_cooldown(seconds: Option<u32>) -> (r: u32)
    ensures
        r == (match seconds {
            Some(v) => if v > WATCHLIST_MAX_COOLDOWN_SECONDS {
                WATCHLIST_MAX_COOLDOWN_SECONDS
            } else {
                v
            },
            None => WATCHLIST_DEFAULT_COOLDOWN_SECONDS,
        }),
{
    let v = match seconds {
        Some(v) => v,
        None => WATCHLIST_DEFAULT_COOLDOWN_SECONDS,
    };
    if v > WATCHLIST_MAX_COOLDOWN_SECONDS {
        WATCHLIST_MAX_COOLDOWN_SECONDS
    } else {
        v
    }
}

/// The poll interval, 30 to 3600 seconds; 60 when unset.
pub fn clamp_watchlist_poll_interval(seconds: Option<u32>) -> (r: u32)
    ensures
        r == clamp(
            match seconds {
                Some(v) => v as int,
                None => 60,
            },
            WATCHLIST_MIN_POLL_SECONDS as int,
            WATCHLIST_MAX_POLL_SECONDS as int,
        ),
{
    let v = match seconds {
        Some(v) => v,
        None => 60,
    };
    if v < WATCHLIST_MIN_POLL_SECONDS {
        WATCHLIST_MIN_POLL_SECONDS
    } else if v > WATCHLIST_MAX_POLL_SECONDS {
        WATCHLIST_MAX_POLL_SECONDS
    } else {
        v
    }
}

pub open spec fn resource_warning(active_recordings: int, recording_limit: int) -> Option<
    Seq<char>,
> {
    if active_recordings > 1 {
        Some("multiRoomActive"@)
    } else if recording_limit > 1 {
        Some("limitHigh"@)
    } else {
        None
    }
}

/// A warning for the interface when several rooms are, or may be, recorded.
pub fn tiktok_live_resource_warning(active_recordings: usize, recording_limit: usize) -> (r: Option<
    &'static str,
>)
    ensures
        opt_view(r) == resource_warning(
            active_recordings as int,
            recording_limit as int,
        ),
{
    if active_recordings > 1 {
        Some("multiRoomActive")
    } else if recording_limit > 1 {
        Some("limitHigh")
    } else {
        None
    }
}

// ---------------------------------------------------------------------------
// Backoff
// ---------------------------------------------------------------------------

pub open spec fn min(a: int, b: int) -> int {
    if a <= b {
        a
    } else {
        b
    }
}

pub open spec fn max(a: int, b: int) -> int {
    if a >= b {
        a
    } else {
        b
    }
}

pub open spec fn pow2_upto5(e: int) -> int {
    if e <= 0 {
        1
    } else if e == 1 {
        2
    } else if e == 2 {
        4
    } else if e == 3 {
        8
    } else if e == 4 {
        16
    } else {
        32
    }
}

/// The 32-bit wrapping hash `h * 31 + byte` over the bytes of an entry id.
pub open spec fn id_hash(bytes: Seq<u8>) -> int
    decreases bytes.len(),
{
    if bytes.len() == 0 {
        0
    } else {
        (id_hash(bytes.drop_last()) * 31 + bytes.last()) % 0x1_0000_0000
    }
}

/// The delay before the next check of a failing entry: the base interval
/// doubled per attempt (at most 32 times), capped at 30 minutes or at the
/// base interval when that is longer, plus a jitter below a fifth of the base
/// interval that the entry id and attempt fix.
pub open spec fn backoff_seconds(id_bytes: Seq<u8>, base: u32, attempt: u32) -> int {
    let e = if attempt == 0 {
        0
    } else {
        min(attempt - 1, 5)
    };
    let cap = max(WATCHLIST_MAX_BACKOFF_SECONDS as int, base as int);
    let delay = min(min(base * pow2_upto5(e), u32::MAX as int), cap);
    let jitter_window = max((base / 5) as int, 1);
    let jitter = ((id_hash(id_bytes) + attempt) % 0x1_0000_0000) % jitter_window;
    min(min(delay + jitter, u32::MAX as int), cap)
}

fn id_hash_exec(bytes: &[u8]) -> (r: u64)
    ensures
        r == id_hash(bytes@),
        r < 0x1_0000_0000,
{
    let mut h: u64 = 0;
    let mut k: usize = 0;
    while k < bytes.len()
        invariant
            k <= bytes.len(),
            h == id_hash(bytes@.take(k as int)),
            h < 0x1_0000_0000,
        decreases bytes.len() - k,
    {
        proof {
            assert(bytes@.take(k + 1).drop_last() =~= bytes@.take(k as int));
        }
        h = (h * 31 + bytes[k] as u64) % 0x1_0000_0000;
        k += 1;
    }
    assert(bytes@.take(bytes.len() as int) =~= bytes@);
    h
}

/// The backoff delay for an entry's `attempt`-th failed check.
pub fn watchlist_backoff_seconds(entry_id: &str, base_seconds: u32, attempt: u32) -> (r: u32)
    ensures
        r == backoff_seconds(vstd::utf8::encode_utf8(entry_id@), base_seconds, attempt),
{
    let e: u32 = if attempt == 0 {
        0
    } else if attempt - 1 < 5 {
        attempt - 1
    } else {
        5
    };
    let cap: u32 = if WATCHLIST_MAX_BACKOFF_SECONDS >= base_seconds {
        WATCHLIST_MAX_BACKOFF_SECONDS
    } else {
        base_seconds
    };
    let factor: u64 = if e == 0 {
        1
    } else if e == 1 {
        2
    } else if e == 2 {
        4
    } else if e == 3 {
        8
    } else if e == 4 {
        16
    } else {
        32
    };
    let scaled: u64 = base_seconds as u64 * factor;
    let saturated: u64 = if scaled > u32::MAX as u64 {
        u32::MAX as u64
    } else {
        scaled
    };
    let delay: u64 = if saturated < cap as u64 {
        saturated
    } else {
        cap as u64
    };
    let jitter_window: u64 = if base_seconds / 5 >= 1 {
        (base_seconds / 5) as u64
    } else {
        1
    };
    let hash = id_hash_exec(entry_id.as_bytes());
    let jitter = ((hash + attempt as u64) % 0x1_0000_0000) % jitter_window;
    let total = delay + jitter;
    let total = if total > u32::MAX as u64 {
        u32::MAX as u64
    } else {
        total
    };
    if total < cap as u64 {
        total as u32
    } else {
        cap
    }
}

/// The backoff delay lies between the base interval and the cap of
/// `max(1800, base)` seconds, so it never undercuts the poll floor.
pub proof fn law_backoff_is_bounded(id_bytes: Seq<u8>, base: u32, attempt: u32)
    ensures
        base <= backoff_seconds(id_bytes, base, attempt) <= max(
            WATCHLIST_MAX_BACKOFF_SECONDS as int,
            base as int,
        ),
        base >= WATCHLIST_MIN_POLL_SECONDS ==> backoff_seconds(id_bytes, base, attempt)
            >= WATCHLIST_MIN_POLL_SECONDS,
{
    let e = if attempt == 0 {
        0
    } else {
        min(attempt - 1, 5)
    };
    assert(pow2_upto5(e) >= 1);
    assert(base * pow2_upto5(e) >= base) by (nonlinear_arith)
        requires
            pow2_upto5(e) >= 1,
            base >= 0,
    ;
    let jitter_window = max((base / 5) as int, 1);
    let jitter = ((id_hash(id_bytes) + attempt) % 0x1_0000_0000) % jitter_window;
    assert(jitter >= 0) by (nonlinear_arith)
        requires
            jitter_window >= 1,
            jitter == ((id_hash(id_bytes) + attempt) % 0x1_0000_0000) % jitter_window,
    ;
}

/// From the sixth attempt on, an entry whose interval lies between 57
/// seconds and the 30-minute cap waits exactly the cap: the doubled delay
/// has reached it, and the jitter is never negative.
pub proof fn law_backoff_saturates(id_bytes: Seq<u8>, base: u32, attempt: u32)
    requires
        attempt >= 6,
        57 <= base <= WATCHLIST_MAX_BACKOFF_SECONDS,
    ensures
        backoff_seconds(id_bytes, base, attempt) == WATCHLIST_MAX_BACKOFF_SECONDS,
{
    let jitter_window = max((base / 5) as int, 1);
    let jitter = ((id_hash(id_bytes) + attempt) % 0x1_0000_0000) % jitter_window;
    assert(jitter >= 0) by (nonlinear_arith)
        requires
            jitter_window >= 1,
            jitter == ((id_hash(id_bytes) + attempt) % 0x1_0000_0000) % jitter_window,
    ;
}

// ---------------------------------------------------------------------------
// Auto-recording
// ---------------------------------------------------------------------------

pub open spec fn is_live_session(status: TikTokLiveWatchStatus) -> bool {
    status == TikTokLiveWatchStatus::Online || status == TikTokLiveWatchStatus::Recording
        || status == TikTokLiveWatchStatus::Recoverable
}

/// Whether a status means the streamer was last seen live.
pub fn watch_status_represents_live_session(status: TikTokLiveWatchStatus) -> (r: bool)
    ensures
        r == is_live_session(status),
{
    match status {
        TikTokLiveWatchStatus::Online => true,
        TikTokLiveWatchStatus::Recording => true,
        TikTokLiveWatchStatus::Recoverable => true,
        _ => false,
    }
}

/// Two watch targets are the same when equal up to ASCII case.
pub fn same_watch_target(left: &str, right: &str) -> (r: bool)
    ensures
        r == (lower(left@) == lower(right@)),
{
    eq_ignore_case(&chars_of(left), &chars_of(right))
}

/// Whether a check that found the streamer live starts a recording: the
/// entry must be enabled, auto-recording and idle; then once-per-live
/// entries need a transition from not-live and a session they have not
/// recorded, cooldown entries need the cooldown to have passed, and
/// manual entries never start.
pub open spec fn auto_record(
    previous_status: TikTokLiveWatchStatus,
    entry: TikTokLiveWatchEntry,
    is_live: bool,
    session_id: Option<Seq<char>>,
    now: i64,
) -> bool {
    if !entry.enabled || !entry.auto_record || !is_live || entry.active_job_id is Some {
        false
    } else {
        match entry.record_mode {
            TikTokLiveRecordMode::ManualOnly => false,
            TikTokLiveRecordMode::OncePerLive => !is_live_session(previous_status) && match session_id {
                None => true,
                Some(id) => ostr(entry.last_session_id) != Some(id),
            },
            TikTokLiveRecordMode::AlwaysAfterCooldown => match entry.last_recording_at {
                None => true,
                Some(last) => clamp(now - last, i64::MIN as int, i64::MAX as int)
                    >= entry.cooldown_seconds,
            },
        }
    }
}

pub fn should_auto_record_watch_entry(
    previous_status: TikTokLiveWatchStatus,
    entry: &TikTokLiveWatchEntry,
    is_live: bool,
    session_id: Option<&str>,
    now: i64,
) -> (r: bool)
    ensures
        r == auto_record(
            previous_status,
            *entry,
            is_live,
            opt_view(session_id),
            now,
        ),
{
    if !entry.enabled || !entry.auto_record || !is_live || entry.active_job_id.is_some() {
        return false;
    }
    match entry.record_mode {
        TikTokLiveRecordMode::ManualOnly => false,
        TikTokLiveRecordMode::OncePerLive => {
            if watch_status_represents_live_session(previous_status) {
                return false;
            }
            match session_id {
                None => true,
                Some(id) => match &entry.last_session_id {
                    None => true,
                    Some(last) => !crate::text::seq_eq(
                        &chars_of(last.as_str()),
                        &chars_of(id),
                    ),
                },
            }
        },
        TikTokLiveRecordMode::AlwaysAfterCooldown => match entry.last_recording_at {
            None => true,
            Some(last) => {
                let elapsed: i64 = match now.checked_sub(last) {
                    Some(d) => d,
                    None => if now < last {
                        i64::MIN
                    } else {
                        i64::MAX
                    },
                };
                elapsed >= entry.cooldown_seconds as i64
            },
        },
    }
}

// ---------------------------------------------------------------------------
// Scheduling the next check
// ---------------------------------------------------------------------------

/// The entry with only `next_check_at` moved to `now` plus the delay.
pub open spec fn scheduled(entry: TikTokLiveWatchEntry, now: i64, delay: int) -> TikTokLiveWatchEntry {
    TikTokLiveWatchEntry { next_check_at: min(now + delay, i64::MAX as int) as i64, ..entry }
}

pub open spec fn schedule_delay(entry: TikTokLiveWatchEntry, use_backoff: bool) -> int {
    if use_backoff {
        backoff_seconds(
            vstd::utf8::encode_utf8(entry.id@),
            entry.poll_interval_seconds,
            entry.backoff_attempt,
        )
    } else {
        entry.poll_interval_seconds as int
    }
}

/// Sets when the entry is next checked: after its poll interval, or after
/// its backoff delay when `use_backoff`; nothing else changes.
pub fn schedule_watch_entry(entry: &mut TikTokLiveWatchEntry, now: i64, use_backoff: bool)
    ensures
        *final(entry) == scheduled(*old(entry), now, schedule_delay(*old(entry), use_backoff)),
{
    let delay = if use_backoff {
        watchlist_backoff_seconds(
            entry.id.as_str(),
            entry.poll_interval_seconds,
            entry.backoff_attempt,
        )
    } else {
        entry.poll_interval_seconds
    };
    entry.next_check_at = match now.checked_add(delay as i64) {
        Some(t) => t,
        None => i64::MAX,
    };
}

/// Marks an entry whose streamer is live but cannot be recorded now: online,
/// no backoff, the `recordingBusy` error, and the next check after the poll
/// interval.
pub fn mark_watch_entry_live_but_busy(entry: &mut TikTokLiveWatchEntry, now: i64)
    ensures
        *final(entry) == (TikTokLiveWatchEntry {
            status: TikTokLiveWatchStatus::Online,
            backoff_attempt: 0,
            last_error: final(entry).last_error,
            next_check_at: min(now + old(entry).poll_interval_seconds, i64::MAX as int) as i64,
            ..*old(entry)
        }),
        ostr(final(entry).last_error) == Some("recordingBusy"@),
{
    entry.status = TikTokLiveWatchStatus::Online;
    entry.backoff_attempt = 0;
    entry.last_error = Some(string_of(&chars_of("recordingBusy")));
    schedule_watch_entry(entry, now, false);
}

/// A busy live entry cannot start a once-per-live recording until a check
/// sees it offline again: its status already marks a live session.
pub proof fn law_busy_entry_waits_for_offline(
    entry: TikTokLiveWatchEntry,
    session_id: Option<Seq<char>>,
    now: i64,
)
    requires
        entry.status == TikTokLiveWatchStatus::Online,
        entry.record_mode == TikTokLiveRecordMode::OncePerLive,
    ensures
        !auto_record(entry.status, entry, true, session_id, now),
{
}

/// Only an enabled, auto-recording, idle entry whose streamer is live can
/// start a recording, and a manual-only entry never does.
pub proof fn law_auto_record_needs_idle_live_entry(
    previous_status: TikTokLiveWatchStatus,
    entry: TikTokLiveWatchEntry,
    is_live: bool,
    session_id: Option<Seq<char>>,
    now: i64,
)
    ensures
        auto_record(previous_status, entry, is_live, session_id, now) ==> entry.enabled
            && entry.auto_record && is_live && entry.active_job_id is None
            && entry.record_mode != TikTokLiveRecordMode::ManualOnly,
{
}

/// A once-per-live entry never records the session it already recorded.
pub proof fn law_once_per_live_skips_recorded_session(
    previous_status: TikTokLiveWatchStatus,
    entry: TikTokLiveWatchEntry,
    id: Seq<char>,
    now: i64,
)
    requires
        entry.record_mode == TikTokLiveRecordMode::OncePerLive,
        ostr(entry.last_session_id) == Some(id),
    ensures
        !auto_record(previous_status, entry, true, Some(id), now),
{
}

// ---------------------------------------------------------------------------
// Schedules
// ---------------------------------------------------------------------------

/// The days (0 = Monday) that a comma-separated day list names.
pub open spec fn day_listed(raw: Seq<char>, day: nat) -> bool {
    exists|k: int|
        0 <= k < split(raw, ","@).len() && parse_uint(trim(#[trigger] split(raw, ","@)[k]), u32::MAX as nat)
            == Some(day)
}

/// The listed weekdays below 7, ascending, without repeats.
pub open spec fn listed_days(raw: Seq<char>) -> Seq<nat> {
    Seq::new(7, |d: int| d as nat).filter(|d: nat| day_listed(raw, d))
}

/// The day list normalised: the listed weekdays joined with commas, or
/// `None` when no weekday is listed.
pub open spec fn normalized_days(raw: Option<Seq<char>>) -> Option<Seq<char>> {
    let r = match raw {
        Some(s) => s,
        None => Seq::empty(),
    };
    let days = listed_days(r);
    if days.len() == 0 {
        None
    } else {
        Some(join(days.map_values(|d: nat| crate::text::decimal(d)), ","@))
    }
}

proof fn lemma_filter_ascending(s: Seq<nat>, pred: spec_fn(nat) -> bool)
    requires
        forall|i: int, j: int| 0 <= i < j < s.len() ==> s[i] < s[j],
    ensures
        forall|i: int, j: int|
            0 <= i < j < s.filter(pred).len() ==> s.filter(pred)[i] < s.filter(pred)[j],
        forall|x: nat| s.filter(pred).contains(x) <==> (s.contains(x) && pred(x)),
    decreases s.len(),
{
    reveal_with_fuel(Seq::filter, 1);
    if s.len() > 0 {
        let p = s.drop_last();
        let last = s.last();
        lemma_filter_ascending(p, pred);
        let fp = p.filter(pred);
        assert forall|x: nat| fp.contains(x) implies x < last by {
            assert(p.contains(x) && pred(x));
            let k = choose|k: int| 0 <= k < p.len() && p[k] == x;
            assert(s[k] == x);
        }
        assert forall|x: nat| s.contains(x) <==> (p.contains(x) || x == last) by {
            if s.contains(x) {
                let k = choose|k: int| 0 <= k < s.len() && s[k] == x;
                if k < p.len() {
                    assert(p[k] == x);
                }
            }
            if p.contains(x) {
                let k = choose|k: int| 0 <= k < p.len() && p[k] == x;
                assert(s[k] == x);
            }
            if x == last {
                assert(s[s.len() - 1] == x);
            }
        }
        if pred(last) {
            let f = fp.push(last);
            assert(s.filter(pred) == f);
            assert forall|i: int, j: int| 0 <= i < j < f.len() implies f[i] < f[j] by {
                if j == f.len() - 1 {
                    assert(fp.contains(f[i]));
                }
            }
            assert forall|x: nat| f.contains(x) <==> (fp.contains(x) || x == last) by {
                if f.contains(x) {
                    let k = choose|k: int| 0 <= k < f.len() && f[k] == x;
                    if k < fp.len() {
                        assert(fp[k] == x);
                    }
                }
                if fp.contains(x) {
                    let k = choose|k: int| 0 <= k < fp.len() && fp[k] == x;
                    assert(f[k] == x);
                }
                if x == last {
                    assert(f[f.len() - 1] == x);
                }
            }
        } else {
            assert(s.filter(pred) == fp);
        }
    }
}

/// Normalising a day list keeps each weekday it names (0 to 6) exactly
/// once, in ascending order, and no other day; the list is dropped exactly
/// when it names no weekday.
pub proof fn law_normalized_days_ascending_once(raw: Seq<char>)
    ensures
        forall|i: int, j: int|
            0 <= i < j < listed_days(raw).len() ==> listed_days(raw)[i] < listed_days(raw)[j],
        forall|d: nat| listed_days(raw).contains(d) <==> (d < 7 && day_listed(raw, d)),
        normalized_days(Some(raw)) is None <==> forall|d: nat| d < 7 ==> !day_listed(raw, d),
{
    let all = Seq::new(7, |d: int| d as nat);
    let pred = |d: nat| day_listed(raw, d);
    assert forall|x: nat| all.contains(x) <==> x < 7 by {
        if x < 7 {
            assert(all[x as int] == x);
        }
    }
    lemma_filter_ascending(all, pred);
    let days = listed_days(raw);
    assert(days == all.filter(pred));
    assert forall|d: nat| days.contains(d) <==> (d < 7 && day_listed(raw, d)) by {
        assert(all.filter(pred).contains(d) <==> (all.contains(d) && pred(d)));
        assert(all.contains(d) <==> d < 7);
    }
    if days.len() > 0 {
        assert(days.contains(days[0]));
    }
    assert forall|d: nat| d < 7 && day_listed(raw, d) implies days.len() > 0 by {
        assert(days.contains(d));
    }
}

fn listed_flags(raw: &[char]) -> (flags: Vec<bool>)
    ensures
        flags@.len() == 7,
        forall|d: int| 0 <= d < 7 ==> flags@[d] == day_listed(raw@, d as nat),
{
    proof {
        reveal_strlit(",");
    }
    let comma = chars_of(",");
    let pieces = split_all(raw, &comma);
    let mut flags: Vec<bool> = vec![false, false, false, false, false, false, false];
    let mut k: usize = 0;
    while k < pieces.len()
        invariant
            vviews(pieces@) == split(raw@, ","@),
            k <= pieces.len(),
            flags@.len() == 7,
            forall|d: int|
                0 <= d < 7 ==> (flags@[d] <==> exists|j: int|
                    0 <= j < k && parse_uint(trim(#[trigger] split(raw@, ","@)[j]), u32::MAX as nat)
                        == Some(d as nat)),
        decreases pieces.len() - k,
    {
        let t = trim_ws(&pieces[k]);
        assert(t@ == trim(split(raw@, ","@)[k as int]));
        if let Some(v) = parse_bounded(&t, u32::MAX as u64) {
            if v < 7 {
                flags.set(v as usize, true);
            }
        }
        k += 1;
    }
    flags
}

/// Normalises a comma-separated list of weekdays (0 = Monday): unparsable
/// and out-of-range values are dropped, the rest sorted without repeats.
pub fn normalize_schedule_days(raw: Option<String>) -> (r: Option<String>)
    ensures
        ostr(r) == normalized_days(ostr(raw)),
{
    let rv = match &raw {
        Some(s) => chars_of(s.as_str()),
        None => Vec::new(),
    };
    let ghost rs = match raw {
        Some(s) => s@,
        None => Seq::<char>::empty(),
    };
    assert(rv@ == rs);
    let flags = listed_flags(&rv);
    let ghost all = Seq::new(7, |d: int| d as nat);
    let ghost pred = |d: nat| day_listed(rs, d);
    let mut parts: Vec<Vec<char>> = Vec::new();
    let mut d: u64 = 0;
    while d < 7
        invariant
            d <= 7,
            all == Seq::new(7, |d: int| d as nat),
            pred == (|d: nat| day_listed(rs, d)),
            flags@.len() == 7,
            forall|x: int| 0 <= x < 7 ==> flags@[x] == day_listed(rs, x as nat),
            vviews(parts@) == all.take(d as int).filter(pred).map_values(
                |x: nat| crate::text::decimal(x),
            ),
        decreases 7 - d,
    {
        proof {
            assert(all.take(d + 1).drop_last() =~= all.take(d as int));
            reveal_with_fuel(Seq::filter, 1);
        }
        let ghost prev = all.take(d as int).filter(pred);
        assert(all.take(d + 1).last() == d as nat);
        assert(all.take(d + 1).filter(pred) == if pred(d as nat) {
            prev.push(d as nat)
        } else {
            prev
        });
        assert(pred(d as nat) == flags@[d as int]);
        let ghost old_parts = parts@;
        if flags[d as usize] {
            let dv = crate::text::decimal_of(d);
            parts.push(dv);
            assert(vviews(parts@) =~= vviews(old_parts).push(crate::text::decimal(d as nat)));
            assert(prev.push(d as nat).map_values(|x: nat| crate::text::decimal(x))
                =~= prev.map_values(|x: nat| crate::text::decimal(x)).push(
                crate::text::decimal(d as nat),
            ));
        }
        assert(vviews(parts@) =~= all.take(d + 1).filter(pred).map_values(
            |x: nat| crate::text::decimal(x),
        ));
        d += 1;
    }
    assert(all.take(7) =~= all);
    if parts.len() == 0 {
        None
    } else {
        Some(string_of(&join_all(&parts, &chars_of(","))))
    }
}

/// A minute of the day, kept only when it is below 24 * 60.
pub fn normalize_schedule_minute(value: Option<u32>) -> (r: Option<u32>)
    ensures
        r == (match value {
            Some(m) => if m < 24 * 60 {
                Some(m)
            } else {
                None
            },
            None => None,
        }),
{
    match value {
        Some(m) => if m < 24 * 60 {
            Some(m)
        } else {
            None
        },
        None => None,
    }
}

/// Whether a day list includes `weekday`; no list includes every day.
pub open spec fn days_contain(days: Option<Seq<char>>, weekday: u32) -> bool {
    match days {
        None => true,
        Some(d) => day_listed(d, weekday as nat),
    }
}

pub fn schedule_days_contains(schedule_days: Option<&str>, weekday: u32) -> (r: bool)
    ensures
        r == days_contain(opt_view(schedule_days), weekday),
{
    match schedule_days {
        None => true,
        Some(days) => {
            let dv = chars_of(days);
            proof {
                reveal_strlit(",");
            }
            let pieces = split_all(&dv, &chars_of(","));
            let mut k: usize = 0;
            while k < pieces.len()
                invariant
                    opt_view(schedule_days) == Some(dv@),
                    vviews(pieces@) == split(dv@, ","@),
                    k <= pieces.len(),
                    forall|j: int|
                        0 <= j < k ==> parse_uint(trim(#[trigger] split(dv@, ","@)[j]), u32::MAX as nat)
                            != Some(weekday as nat),
                decreases pieces.len() - k,
            {
                let t = trim_ws(&pieces[k]);
                assert(t@ == trim(split(dv@, ","@)[k as int]));
                if let Some(v) = parse_bounded(&t, u32::MAX as u64) {
                    if v == weekday as u64 {
                        assert(parse_uint(trim(split(dv@, ","@)[k as int]), u32::MAX as nat) == Some(
                            weekday as nat,
                        ));
                        assert(day_listed(dv@, weekday as nat));
                        return true;
                    }
                }
                k += 1;
            }
            false
        },
    }
}

/// Whether `minute` lies in the window from `start` (inclusive) to `end`
/// (exclusive); a window whose start is after its end wraps past midnight,
/// a missing bound is open, and equal bounds or no bounds allow every minute.
pub open spec fn window_contains(start: Option<u32>, end: Option<u32>, minute: u32) -> bool {
    match (start, end) {
        (Some(s), Some(e)) => if s < e {
            s <= minute < e
        } else if s > e {
            minute >= s || minute < e
        } else {
            true
        },
        (Some(s), None) => minute >= s,
        (None, Some(e)) => minute < e,
        (None, None) => true,
    }
}

pub fn schedule_window_contains(start: Option<u32>, end: Option<u32>, minute: u32) -> (r: bool)
    ensures
        r == window_contains(start, end, minute),
{
    match (start, end) {
        (Some(s), Some(e)) => if s < e {
            s <= minute && minute < e
        } else if s > e {
            minute >= s || minute < e
        } else {
            true
        },
        (Some(s), None) => minute >= s,
        (None, Some(e)) => minute < e,
        (None, None) => true,
    }
}

// ---------------------------------------------------------------------------
// Labels
// ---------------------------------------------------------------------------

/// `@username` when the entry has a username, else its target input.
pub open spec fn entry_label(entry: TikTokLiveWatchEntry) -> Seq<char> {
    match entry.username {
        Some(u) => "@"@ + u@,
        None => entry.target_input@,
    }
}

pub fn watch_entry_label(entry: &TikTokLiveWatchEntry) -> (r: String)
    ensures
        r@ == entry_label(*entry),
{
    match &entry.username {
        Some(u) => {
            let mut v = chars_of("@");
            push_str(&mut v, u.as_str());
            string_of(&v)
        },
        None => string_of(&chars_of(entry.target_input.as_str())),
    }
}

/// The target that is stored: the canonical URL when the input was a URL.
pub open spec fn persisted_target(entry: TikTokLiveWatchEntry) -> Seq<char> {
    if has_prefix(entry.target_input@, "http://"@) || has_prefix(entry.target_input@, "https://"@) {
        entry.target_url@
    } else {
        entry.target_input@
    }
}

pub fn persisted_target_input(entry: &TikTokLiveWatchEntry) -> (r: &str)
    ensures
        r@ == persisted_target(*entry),
{
    let t = chars_of(entry.target_input.as_str());
    if starts_with(&t, &chars_of("http://")) || starts_with(&t, &chars_of("https://")) {
        entry.target_url.as_str()
    } else {
        entry.target_input.as_str()
    }
}

/// A stored watch status name reads back as the status it was stored for.
pub proof fn law_watch_status_name_round_trip(status: TikTokLiveWatchStatus)
    ensures
        TikTokLiveWatchStatus::named(status.name()) == Some(status),
{
    reveal_strlit("offline");
    reveal_strlit("checking");
    reveal_strlit("online");
    reveal_strlit("recording");
    reveal_strlit("backoff");
    reveal_strlit("recoverable");
    reveal_strlit("error");
    assert("offline"@.len() == 7 && "offline"@[0] == 'o');
    assert("checking"@.len() == 8 && "checking"@[0] == 'c');
    assert("online"@.len() == 6 && "online"@[0] == 'o');
    assert("recording"@.len() == 9 && "recording"@[0] == 'r');
    assert("backoff"@.len() == 7 && "backoff"@[0] == 'b');
    assert("recoverable"@.len() == 11 && "recoverable"@[0] == 'r');
    assert("error"@.len() == 5 && "error"@[0] == 'e');
}

/// A stored record mode name reads back as the mode it was stored for.
pub proof fn law_record_mode_name_round_trip(mode: TikTokLiveRecordMode)
    ensures
        TikTokLiveRecordMode::named(mode.name()) == Some(mode),
{
    reveal_strlit("once_per_live");
    reveal_strlit("always_after_cooldown");
    reveal_strlit("manual_only");
    assert("once_per_live"@.len() == 13 && "once_per_live"@[0] == 'o');
    assert("always_after_cooldown"@.len() == 21 && "always_after_cooldown"@[0] == 'a');
    assert("manual_only"@.len() == 11 && "manual_only"@[0] == 'm');
}

} // verus!
