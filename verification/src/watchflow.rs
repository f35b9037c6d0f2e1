//! How a watchlist entry moves between checks and recordings: settling it
//! against its job, reading a check's outcome, starting and finishing a
//! recording, and settling it after a restart. The poller that performs
//! the checks and recordings asks these functions what to do next.
use vstd::prelude::*;

use crate::clock::local_now;
use crate::jobs::TikTokLiveJobStatus;
use crate::text::{chars_of, join, opt_view, ostr, string_of, trim, trim_ws};
use crate::watchlist::{
    auto_record, days_contain, min, schedule_days_contains, schedule_delay,
    schedule_watch_entry, schedule_window_contains, should_auto_record_watch_entry,
    window_contains, TikTokLiveWatchEntry, TikTokLiveWatchStatus,
};

verus! {

/// The check time of an entry that waits for its recovery to be handled:
/// the last second of year 9999.
pub const WATCHLIST_PAUSED_CHECK_AT: i64 = 253_402_300_799;

/// The next check time after `now` plus the entry's delay (its poll
/// interval, or its backoff delay), saturating.
pub open spec fn next_check(entry: TikTokLiveWatchEntry, now: i64, use_backoff: bool) -> i64 {
    min(now + schedule_delay(entry, use_backoff), i64::MAX as int) as i64
}

// ---------------------------------------------------------------------------
// Schedules
// ---------------------------------------------------------------------------

/// Whether the entry's schedule lets it record at a local weekday (0 =
/// Monday) and minute of the day; an entry without a schedule always may.
pub open spec fn schedule_allows(entry: TikTokLiveWatchEntry, weekday: u32, minute: u32) -> bool {
    !entry.schedule_enabled || (days_contain(ostr(entry.schedule_days), weekday)
        && window_contains(entry.schedule_start_minute, entry.schedule_end_minute, minute))
}

pub fn watch_entry_schedule_allows(entry: &TikTokLiveWatchEntry, weekday: u32, minute: u32) -> (r:
    bool)
    ensures
        r == schedule_allows(*entry, weekday, minute),
{
    if !entry.schedule_enabled {
        return true;
    }
    let days = match &entry.schedule_days {
        Some(d) => Some(d.as_str()),
        None => None,
    };
    proof {
        assert(opt_view(days) == ostr(entry.schedule_days));
    }
    schedule_days_contains(days, weekday) && schedule_window_contains(
        entry.schedule_start_minute,
        entry.schedule_end_minute,
        minute,
    )
}

/// Whether the entry's schedule lets it record now, in local time.
pub fn watch_entry_allows_auto_record_now(entry: &TikTokLiveWatchEntry) -> (r: bool)
    ensures
        exists|weekday: u32, minute: u32|
            weekday < 7 && minute < 1440 && r == schedule_allows(*entry, weekday, minute),
{
    if !entry.schedule_enabled {
        assert(schedule_allows(*entry, 0, 0));
        return true;
    }
    let now = local_now();
    watch_entry_schedule_allows(entry, now.weekday, now.hour * 60 + now.minute)
}

// ---------------------------------------------------------------------------
// An entry with a job
// ---------------------------------------------------------------------------

/// The statuses of a job that is still running.
pub open spec fn job_running(status: TikTokLiveJobStatus) -> bool {
    ||| status is Preparing
    ||| status is Recording
    ||| status is Reconnecting
    ||| status is Finalizing
}

/// An entry checked while it has a job: paused and recoverable when the
/// job can be resumed, recording while the job runs, and otherwise freed
/// and online; the last two are checked again after the poll interval.
pub open spec fn settled_with_job(
    old_entry: TikTokLiveWatchEntry,
    new_entry: TikTokLiveWatchEntry,
    job: TikTokLiveJobStatus,
    now: i64,
) -> bool {
    if job.resumable() {
        new_entry == TikTokLiveWatchEntry {
            status: TikTokLiveWatchStatus::Recoverable,
            next_check_at: WATCHLIST_PAUSED_CHECK_AT,
            ..old_entry
        }
    } else if job_running(job) {
        new_entry == TikTokLiveWatchEntry {
            status: TikTokLiveWatchStatus::Recording,
            next_check_at: next_check(old_entry, now, false),
            ..old_entry
        }
    } else {
        new_entry == TikTokLiveWatchEntry {
            status: TikTokLiveWatchStatus::Online,
            active_job_id: None,
            next_check_at: next_check(old_entry, now, false),
            ..old_entry
        }
    }
}

fn job_is_running(status: TikTokLiveJobStatus) -> (r: bool)
    ensures
        r == job_running(status),
{
    match status {
        TikTokLiveJobStatus::Preparing => true,
        TikTokLiveJobStatus::Recording => true,
        TikTokLiveJobStatus::Reconnecting => true,
        TikTokLiveJobStatus::Finalizing => true,
        _ => false,
    }
}

/// Settles an entry whose active job was found, as a check does before
/// anything else.
pub fn settle_watch_entry_with_job(entry: &mut TikTokLiveWatchEntry, job: TikTokLiveJobStatus, now: i64)
    ensures
        settled_with_job(*old(entry), *final(entry), job, now),
{
    if job.can_resume() {
        entry.status = TikTokLiveWatchStatus::Recoverable;
        entry.next_check_at = WATCHLIST_PAUSED_CHECK_AT;
    } else if job_is_running(job) {
        entry.status = TikTokLiveWatchStatus::Recording;
        schedule_watch_entry(entry, now, false);
    } else {
        entry.active_job_id = None;
        entry.status = TikTokLiveWatchStatus::Online;
        schedule_watch_entry(entry, now, false);
    }
}

// ---------------------------------------------------------------------------
// Reading a check
// ---------------------------------------------------------------------------

/// What a check of a streamer found.
#[derive(Clone, Debug)]
pub enum InspectionOutcome {
    /// The streamer is live with at least one stream, in the session with
    /// this id when it is known.
    Live { session_id: Option<String> },
    /// The metadata says the streamer is not live, or lists no stream.
    NotLive,
    /// The check failed because the streamer is offline.
    Offline,
    /// The check failed otherwise; `retryable` when trying again later
    /// may help.
    Failed { retryable: bool },
}

/// What the poller does after a check.
#[derive(Clone, Copy, PartialEq, Eq, Structural, Debug)]
pub enum InspectionStep {
    /// Start a recording of the live session.
    StartRecording,
    /// Nothing more; store the entry.
    Done,
}

pub open spec fn sat_inc(v: u32) -> u32 {
    if v < u32::MAX {
        (v + 1) as u32
    } else {
        v
    }
}

/// The entry seen live and online, checked again after its poll interval
/// unless it already was online.
pub open spec fn settled_live(e: TikTokLiveWatchEntry, now: i64) -> TikTokLiveWatchEntry {
    if e.status == TikTokLiveWatchStatus::Online {
        e
    } else {
        TikTokLiveWatchEntry {
            status: TikTokLiveWatchStatus::Online,
            next_check_at: next_check(e, now, false),
            ..e
        }
    }
}

/// An entry after a check at `now` that found `outcome`, its status before
/// the check being `previous`. A live streamer resets the backoff and, when
/// auto-recording is allowed, the schedule permits it and the entry's rules
/// call for it, asks for a recording; otherwise the entry is online. A
/// streamer that is not live, or offline, or a failed check raises the
/// backoff and checks again after the backoff delay; a failed check that
/// is not an offline streamer records `metadataFailed`, in backoff when
/// retrying may help and in error otherwise.
pub open spec fn inspected(
    old_entry: TikTokLiveWatchEntry,
    new_entry: TikTokLiveWatchEntry,
    step: InspectionStep,
    previous: TikTokLiveWatchStatus,
    outcome: InspectionOutcome,
    allow_auto_record: bool,
    schedule_ok: bool,
    now: i64,
) -> bool {
    let e = TikTokLiveWatchEntry { last_checked_at: Some(now), ..old_entry };
    match outcome {
        InspectionOutcome::Live { session_id } => {
            let live = TikTokLiveWatchEntry {
                last_online_at: Some(now),
                backoff_attempt: 0,
                last_error: None,
                ..e
            };
            let start = allow_auto_record && schedule_ok && auto_record(
                previous,
                live,
                true,
                ostr(session_id),
                now,
            );
            if start {
                step == InspectionStep::StartRecording && new_entry == live
            } else {
                step == InspectionStep::Done && new_entry == settled_live(live, now)
            }
        },
        InspectionOutcome::NotLive => {
            let off = TikTokLiveWatchEntry {
                status: TikTokLiveWatchStatus::Offline,
                backoff_attempt: sat_inc(e.backoff_attempt),
                last_error: None,
                ..e
            };
            step == InspectionStep::Done && new_entry == TikTokLiveWatchEntry {
                next_check_at: next_check(off, now, true),
                ..off
            }
        },
        InspectionOutcome::Offline => {
            let off = TikTokLiveWatchEntry {
                status: TikTokLiveWatchStatus::Offline,
                backoff_attempt: sat_inc(e.backoff_attempt),
                last_error: None,
                ..e
            };
            step == InspectionStep::Done && new_entry == TikTokLiveWatchEntry {
                next_check_at: next_check(off, now, true),
                ..off
            }
        },
        InspectionOutcome::Failed { retryable } => {
            let failed = TikTokLiveWatchEntry {
                status: if retryable {
                    TikTokLiveWatchStatus::Backoff
                } else {
                    TikTokLiveWatchStatus::Error
                },
                backoff_attempt: sat_inc(e.backoff_attempt),
                last_error: new_entry.last_error,
                ..e
            };
            &&& step == InspectionStep::Done
            &&& ostr(new_entry.last_error) == Some("metadataFailed"@)
            &&& new_entry == TikTokLiveWatchEntry {
                next_check_at: next_check(failed, now, true),
                ..failed
            }
        },
    }
}

fn settle_live(entry: &mut TikTokLiveWatchEntry, now: i64)
    ensures
        *final(entry) == settled_live(*old(entry), now),
{
    if entry.status != TikTokLiveWatchStatus::Online {
        entry.status = TikTokLiveWatchStatus::Online;
        schedule_watch_entry(entry, now, false);
    }
}

/// Applies a check's outcome to the entry; see `inspected`. `previous` is
/// the entry's status before the check began.
pub fn apply_watch_inspection(
    entry: &mut TikTokLiveWatchEntry,
    previous: TikTokLiveWatchStatus,
    outcome: &InspectionOutcome,
    allow_auto_record: bool,
    schedule_ok: bool,
    now: i64,
) -> (step: InspectionStep)
    ensures
        inspected(
            *old(entry),
            *final(entry),
            step,
            previous,
            *outcome,
            allow_auto_record,
            schedule_ok,
            now,
        ),
{
    entry.last_checked_at = Some(now);
    match outcome {
        InspectionOutcome::Live { session_id } => {
            entry.last_online_at = Some(now);
            entry.backoff_attempt = 0;
            entry.last_error = None;
            let session = match session_id {
                Some(s) => Some(s.as_str()),
                None => None,
            };
            let start = allow_auto_record && schedule_ok && should_auto_record_watch_entry(
                previous,
                entry,
                true,
                session,
                now,
            );
            if start {
                InspectionStep::StartRecording
            } else {
                settle_live(entry, now);
                InspectionStep::Done
            }
        },
        InspectionOutcome::NotLive => {
            entry.status = TikTokLiveWatchStatus::Offline;
            entry.backoff_attempt = entry.backoff_attempt.saturating_add(1);
            entry.last_error = None;
            schedule_watch_entry(entry, now, true);
            InspectionStep::Done
        },
        InspectionOutcome::Offline => {
            entry.status = TikTokLiveWatchStatus::Offline;
            entry.backoff_attempt = entry.backoff_attempt.saturating_add(1);
            entry.last_error = None;
            schedule_watch_entry(entry, now, true);
            InspectionStep::Done
        },
        InspectionOutcome::Failed { retryable } => {
            entry.backoff_attempt = entry.backoff_attempt.saturating_add(1);
            entry.status = if *retryable {
                TikTokLiveWatchStatus::Backoff
            } else {
                TikTokLiveWatchStatus::Error
            };
            entry.last_error = Some(string_of(&chars_of("metadataFailed")));
            schedule_watch_entry(entry, now, true);
            InspectionStep::Done
        },
    }
}

/// After a recording was asked for but the recorder had no free room: the
/// entry is marked live but busy and, being online, keeps that schedule.
pub fn mark_watch_entry_busy_after_check(entry: &mut TikTokLiveWatchEntry, now: i64)
    ensures
        *final(entry) == (TikTokLiveWatchEntry {
            status: TikTokLiveWatchStatus::Online,
            backoff_attempt: 0,
            last_error: final(entry).last_error,
            next_check_at: next_check(*old(entry), now, false),
            ..*old(entry)
        }),
        ostr(final(entry).last_error) == Some("recordingBusy"@),
{
    crate::watchlist::mark_watch_entry_live_but_busy(entry, now);
    settle_live(entry, now);
}

// ---------------------------------------------------------------------------
// Starting and finishing a recording
// ---------------------------------------------------------------------------

pub open spec fn already_active_message() -> Seq<char> {
    "This TikTok Live watchlist entry already has an active or recoverable job."@
}

/// A recording can start for an entry only when it has no job.
pub fn ensure_watch_entry_free(entry: &TikTokLiveWatchEntry) -> (r: Result<(), String>)
    ensures
        r is Ok <==> entry.active_job_id is None,
        r matches Err(e) ==> e@ == already_active_message(),
{
    if entry.active_job_id.is_some() {
        return Err(
            string_of(
                &chars_of("This TikTok Live watchlist entry already has an active or recoverable job."),
            ),
        );
    }
    Ok(())
}

/// The entry once its recording `job_id` started at `now`: recording with
/// that job, the session remembered when one is named, and checked again
/// after the poll interval.
pub open spec fn began_recording(
    old_entry: TikTokLiveWatchEntry,
    new_entry: TikTokLiveWatchEntry,
    job_id: Seq<char>,
    session_id: Option<Seq<char>>,
    now: i64,
) -> bool {
    &&& ostr(new_entry.active_job_id) == Some(job_id)
    &&& ostr(new_entry.last_started_job_id) == Some(job_id)
    &&& ostr(new_entry.last_outcome) == Some("recording"@)
    &&& ostr(new_entry.last_session_id) == match session_id {
        Some(s) => if trim(s).len() > 0 {
            Some(s)
        } else {
            ostr(old_entry.last_session_id)
        },
        None => ostr(old_entry.last_session_id),
    }
    &&& new_entry == TikTokLiveWatchEntry {
        status: TikTokLiveWatchStatus::Recording,
        active_job_id: new_entry.active_job_id,
        last_recording_at: Some(now),
        last_started_job_id: new_entry.last_started_job_id,
        last_session_id: new_entry.last_session_id,
        last_outcome: new_entry.last_outcome,
        last_completed_at: None,
        last_error: None,
        next_check_at: next_check(old_entry, now, false),
        ..old_entry
    }
}

pub fn begin_watch_recording(
    entry: &mut TikTokLiveWatchEntry,
    job_id: &str,
    session_id: Option<String>,
    now: i64,
)
    ensures
        began_recording(*old(entry), *final(entry), job_id@, ostr(session_id), now),
{
    entry.status = TikTokLiveWatchStatus::Recording;
    entry.active_job_id = Some(string_of(&chars_of(job_id)));
    entry.last_recording_at = Some(now);
    entry.last_started_job_id = Some(string_of(&chars_of(job_id)));
    if let Some(s) = session_id {
        if trim_ws(&chars_of(s.as_str())).len() > 0 {
            entry.last_session_id = Some(s);
        }
    }
    entry.last_outcome = Some(string_of(&chars_of("recording")));
    entry.last_completed_at = None;
    entry.last_error = None;
    schedule_watch_entry(entry, now, false);
}

/// The message sent when a watched recording starts.
pub fn recording_started_notification(entry: &TikTokLiveWatchEntry) -> (r: String)
    ensures
        r@ == "🔴 TikTok Live recording started: "@ + crate::watchlist::entry_label(*entry),
{
    let mut v = chars_of("🔴 TikTok Live recording started: ");
    crate::text::push_str(&mut v, crate::watchlist::watch_entry_label(entry).as_str());
    string_of(&v)
}

/// How a watched recording ended.
#[derive(Clone, Debug)]
pub enum RecordingOutcome {
    /// It produced a file, perhaps only part of the stream.
    Completed { partial: bool, filesize: Option<u64> },
    /// It failed because the streamer went offline.
    Offline,
    /// The user cancelled it.
    Cancelled,
    /// It failed otherwise.
    Failed,
}

/// What the stored job of a finished recording says.
#[derive(Clone, Debug)]
pub struct FinishedJobFacts {
    pub segment_count: usize,
    pub refresh_count: u32,
    pub reconnect_count: u32,
    pub completed_at: Option<i64>,
    pub resumable: bool,
    /// The size of the job's final file, when it exists.
    pub final_file_size: Option<u64>,
}

pub open spec fn outcome_name(outcome: RecordingOutcome) -> Seq<char> {
    match outcome {
        RecordingOutcome::Completed { partial, .. } => if partial {
            "partial"@
        } else {
            "completed"@
        },
        RecordingOutcome::Offline => "offline"@,
        RecordingOutcome::Cancelled => "cancelled"@,
        RecordingOutcome::Failed => "failed"@,
    }
}

/// The entry with the figures of its finished job copied in.
pub open spec fn with_job_facts(
    e: TikTokLiveWatchEntry,
    job: Option<FinishedJobFacts>,
    outcome: RecordingOutcome,
) -> TikTokLiveWatchEntry {
    match job {
        Some(j) => TikTokLiveWatchEntry {
            last_segment_count: j.segment_count as u32,
            last_refresh_count: j.refresh_count,
            last_reconnect_count: j.reconnect_count,
            last_completed_at: j.completed_at,
            last_file_size: match j.final_file_size {
                Some(v) => Some(v),
                None => match outcome {
                    RecordingOutcome::Completed { filesize, .. } => filesize,
                    _ => None,
                },
            },
            ..e
        },
        None => e,
    }
}

/// The entry once its recording `job_id` ended, when it still names that
/// job (otherwise nothing changes). A job that can be resumed pauses the
/// entry as recoverable with its job kept; otherwise the entry is freed: a
/// finished file makes it online with the backoff reset and checked after
/// the poll interval; an offline streamer, a cancellation or a failure
/// raises the backoff and checks after the backoff delay.
pub open spec fn finished_recording(
    old_entry: TikTokLiveWatchEntry,
    new_entry: TikTokLiveWatchEntry,
    job_id: Seq<char>,
    job: Option<FinishedJobFacts>,
    outcome: RecordingOutcome,
    now: i64,
) -> bool {
    if ostr(old_entry.active_job_id) != Some(job_id) {
        new_entry == old_entry
    } else {
        let base = with_job_facts(
            TikTokLiveWatchEntry { last_started_job_id: new_entry.last_started_job_id, ..old_entry },
            job,
            outcome,
        );
        &&& ostr(new_entry.last_started_job_id) == Some(job_id)
        &&& if job matches Some(j) && j.resumable {
            &&& ostr(new_entry.last_error) == Some("recordingRecoverable"@)
            &&& ostr(new_entry.last_outcome) == Some("recoverable"@)
            &&& new_entry == TikTokLiveWatchEntry {
                status: TikTokLiveWatchStatus::Recoverable,
                last_error: new_entry.last_error,
                last_outcome: new_entry.last_outcome,
                next_check_at: WATCHLIST_PAUSED_CHECK_AT,
                ..base
            }
        } else {
            &&& ostr(new_entry.last_outcome) == Some(outcome_name(outcome))
            &&& match outcome {
                RecordingOutcome::Completed { filesize, .. } => {
                    let done = TikTokLiveWatchEntry {
                        active_job_id: None,
                        status: TikTokLiveWatchStatus::Online,
                        backoff_attempt: 0,
                        last_error: None,
                        last_outcome: new_entry.last_outcome,
                        last_completed_at: Some(now),
                        last_file_size: match filesize {
                            Some(v) => Some(v),
                            None => base.last_file_size,
                        },
                        ..base
                    };
                    new_entry == TikTokLiveWatchEntry {
                        next_check_at: next_check(done, now, false),
                        ..done
                    }
                },
                _ => {
                    let failed = TikTokLiveWatchEntry {
                        active_job_id: None,
                        status: match outcome {
                            RecordingOutcome::Offline => TikTokLiveWatchStatus::Offline,
                            RecordingOutcome::Cancelled => TikTokLiveWatchStatus::Online,
                            _ => TikTokLiveWatchStatus::Backoff,
                        },
                        last_error: new_entry.last_error,
                        last_outcome: new_entry.last_outcome,
                        backoff_attempt: sat_inc(base.backoff_attempt),
                        ..base
                    };
                    &&& ostr(new_entry.last_error) == (if outcome is Failed {
                        Some("recordingFailed"@)
                    } else {
                        None
                    })
                    &&& new_entry == TikTokLiveWatchEntry {
                        next_check_at: next_check(failed, now, true),
                        ..failed
                    }
                },
            }
        }
    }
}

pub open spec fn outcome_icon(outcome: Seq<char>) -> Seq<char> {
    if outcome == "completed"@ {
        "✅"@
    } else if outcome == "partial"@ {
        "🟡"@
    } else if outcome == "recoverable"@ {
        "🛟"@
    } else if outcome == "cancelled"@ {
        "⏹"@
    } else if outcome == "offline"@ {
        "⚫"@
    } else {
        "❌"@
    }
}

/// The message sent when a watched recording ends with `outcome`.
pub open spec fn finished_notification(entry: TikTokLiveWatchEntry, outcome: Seq<char>) -> Seq<char> {
    outcome_icon(outcome) + " TikTok Live recording "@ + outcome + ": "@
        + crate::watchlist::entry_label(entry)
}

fn str_of(s: &str) -> (r: Option<String>)
    ensures
        ostr(r) == Some(s@),
{
    Some(string_of(&chars_of(s)))
}

fn finished_notification_exec(entry: &TikTokLiveWatchEntry, outcome: &str) -> (r: String)
    ensures
        r@ == finished_notification(*entry, outcome@),
{
    let o = chars_of(outcome);
    let icon = if crate::text::is_lit(&o, "completed") {
        "✅"
    } else if crate::text::is_lit(&o, "partial") {
        "🟡"
    } else if crate::text::is_lit(&o, "recoverable") {
        "🛟"
    } else if crate::text::is_lit(&o, "cancelled") {
        "⏹"
    } else if crate::text::is_lit(&o, "offline") {
        "⚫"
    } else {
        "❌"
    };
    let mut v = chars_of(icon);
    crate::text::push_str(&mut v, " TikTok Live recording ");
    crate::text::push_str(&mut v, outcome);
    crate::text::push_str(&mut v, ": ");
    crate::text::push_str(&mut v, crate::watchlist::watch_entry_label(entry).as_str());
    string_of(&v)
}

/// Records on the entry how its recording `job_id` ended; see
/// `finished_recording`. Returns the message to send once the entry is
/// stored, or `None` when the entry no longer names that job.
pub fn finish_watch_recording(
    entry: &mut TikTokLiveWatchEntry,
    job_id: &str,
    job: Option<FinishedJobFacts>,
    outcome: &RecordingOutcome,
    now: i64,
) -> (r: Option<String>)
    ensures
        finished_recording(*old(entry), *final(entry), job_id@, job, *outcome, now),
        r matches Some(m) ==> m@ == finished_notification(*final(entry), ostr(final(entry).last_outcome)->0),
        r is None <==> ostr(old(entry).active_job_id) != Some(job_id@),
{
    let same = match &entry.active_job_id {
        Some(a) => crate::text::seq_eq(&chars_of(a.as_str()), &chars_of(job_id)),
        None => false,
    };
    if !same {
        return None;
    }
    entry.last_started_job_id = str_of(job_id);
    let resumable = match &job {
        Some(j) => {
            entry.last_segment_count = j.segment_count as u32;
            entry.last_refresh_count = j.refresh_count;
            entry.last_reconnect_count = j.reconnect_count;
            entry.last_completed_at = j.completed_at;
            entry.last_file_size = match j.final_file_size {
                Some(v) => Some(v),
                None => match outcome {
                    RecordingOutcome::Completed { filesize, .. } => *filesize,
                    _ => None,
                },
            };
            j.resumable
        },
        None => false,
    };
    let name: &str;
    if resumable {
        entry.status = TikTokLiveWatchStatus::Recoverable;
        entry.last_error = str_of("recordingRecoverable");
        entry.last_outcome = str_of("recoverable");
        entry.next_check_at = WATCHLIST_PAUSED_CHECK_AT;
        name = "recoverable";
    } else {
        entry.active_job_id = None;
        match outcome {
            RecordingOutcome::Completed { partial, filesize } => {
                entry.status = TikTokLiveWatchStatus::Online;
                entry.backoff_attempt = 0;
                entry.last_error = None;
                name = if *partial {
                    "partial"
                } else {
                    "completed"
                };
                entry.last_outcome = str_of(name);
                entry.last_completed_at = Some(now);
                entry.last_file_size = match filesize {
                    Some(v) => Some(*v),
                    None => entry.last_file_size,
                };
                schedule_watch_entry(entry, now, false);
            },
            _ => {
                match outcome {
                    RecordingOutcome::Offline => {
                        entry.status = TikTokLiveWatchStatus::Offline;
                        entry.last_error = None;
                        name = "offline";
                    },
                    RecordingOutcome::Cancelled => {
                        entry.status = TikTokLiveWatchStatus::Online;
                        entry.last_error = None;
                        name = "cancelled";
                    },
                    _ => {
                        entry.status = TikTokLiveWatchStatus::Backoff;
                        entry.last_error = str_of("recordingFailed");
                        name = "failed";
                    },
                }
                entry.last_outcome = str_of(name);
                entry.backoff_attempt = entry.backoff_attempt.saturating_add(1);
                schedule_watch_entry(entry, now, true);
            },
        }
    }
    Some(finished_notification_exec(entry, name))
}

/// The entry once its job was removed by a recovery action: freed, online,
/// without backoff or error, and checked after the poll interval.
pub fn detach_watch_job(entry: &mut TikTokLiveWatchEntry, now: i64)
    ensures
        *final(entry) == (TikTokLiveWatchEntry {
            active_job_id: None,
            status: TikTokLiveWatchStatus::Online,
            backoff_attempt: 0,
            last_error: None,
            next_check_at: next_check(
                TikTokLiveWatchEntry {
                    active_job_id: None,
                    status: TikTokLiveWatchStatus::Online,
                    backoff_attempt: 0,
                    last_error: None,
                    ..*old(entry)
                },
                now,
                false,
            ),
            ..*old(entry)
        }),
{
    entry.active_job_id = None;
    entry.status = TikTokLiveWatchStatus::Online;
    entry.backoff_attempt = 0;
    entry.last_error = None;
    schedule_watch_entry(entry, now, false);
}

// ---------------------------------------------------------------------------
// After a restart
// ---------------------------------------------------------------------------

/// An entry settled after a restart, given the status of its active job
/// when that job still exists. An entry with a job is recoverable and
/// paused when the job can be resumed; freed and online when the job
/// finished; recording when it still runs; and in error with a raised
/// backoff when the job is gone. An entry without a job that was being
/// checked or recording becomes offline and due now. Whether anything
/// changed is returned; a changed entry is marked as updated now.
pub open spec fn restarted(
    old_entry: TikTokLiveWatchEntry,
    new_entry: TikTokLiveWatchEntry,
    job: Option<TikTokLiveJobStatus>,
    now: i64,
    changed: bool,
) -> bool {
    if old_entry.active_job_id is Some {
        &&& changed
        &&& match job {
            Some(s) => if s.resumable() {
                &&& ostr(new_entry.last_error) == Some("restartRecoverable"@)
                &&& new_entry == TikTokLiveWatchEntry {
                    status: TikTokLiveWatchStatus::Recoverable,
                    next_check_at: WATCHLIST_PAUSED_CHECK_AT,
                    last_error: new_entry.last_error,
                    updated_at: now,
                    ..old_entry
                }
            } else if s is Completed || s is Partial || s is Cancelled {
                let freed = TikTokLiveWatchEntry {
                    active_job_id: None,
                    status: TikTokLiveWatchStatus::Online,
                    last_error: None,
                    ..old_entry
                };
                new_entry == TikTokLiveWatchEntry {
                    next_check_at: next_check(freed, now, false),
                    updated_at: now,
                    ..freed
                }
            } else {
                new_entry == TikTokLiveWatchEntry {
                    status: TikTokLiveWatchStatus::Recording,
                    updated_at: now,
                    ..old_entry
                }
            },
            None => {
                let missing = TikTokLiveWatchEntry {
                    active_job_id: None,
                    status: TikTokLiveWatchStatus::Error,
                    last_error: new_entry.last_error,
                    backoff_attempt: sat_inc(old_entry.backoff_attempt),
                    ..old_entry
                };
                &&& ostr(new_entry.last_error) == Some("missingJob"@)
                &&& new_entry == TikTokLiveWatchEntry {
                    next_check_at: next_check(missing, now, true),
                    updated_at: now,
                    ..missing
                }
            },
        }
    } else if old_entry.status is Checking || old_entry.status is Recording {
        &&& changed
        &&& new_entry == TikTokLiveWatchEntry {
            status: TikTokLiveWatchStatus::Offline,
            next_check_at: now,
            updated_at: now,
            ..old_entry
        }
    } else {
        !changed && new_entry == old_entry
    }
}

pub fn reconcile_watch_entry_after_restart(
    entry: &mut TikTokLiveWatchEntry,
    job: Option<TikTokLiveJobStatus>,
    now: i64,
) -> (changed: bool)
    ensures
        restarted(*old(entry), *final(entry), job, now, changed),
{
    if entry.active_job_id.is_some() {
        match job {
            Some(s) => {
                if s.can_resume() {
                    entry.status = TikTokLiveWatchStatus::Recoverable;
                    entry.next_check_at = WATCHLIST_PAUSED_CHECK_AT;
                    entry.last_error = str_of("restartRecoverable");
                } else if matches!(
                    s,
                    TikTokLiveJobStatus::Completed | TikTokLiveJobStatus::Partial
                        | TikTokLiveJobStatus::Cancelled
                ) {
                    entry.active_job_id = None;
                    entry.status = TikTokLiveWatchStatus::Online;
                    entry.last_error = None;
                    schedule_watch_entry(entry, now, false);
                } else {
                    entry.status = TikTokLiveWatchStatus::Recording;
                }
            },
            None => {
                entry.active_job_id = None;
                entry.status = TikTokLiveWatchStatus::Error;
                entry.last_error = str_of("missingJob");
                entry.backoff_attempt = entry.backoff_attempt.saturating_add(1);
                schedule_watch_entry(entry, now, true);
            },
        }
        entry.updated_at = now;
        true
    } else if entry.status == TikTokLiveWatchStatus::Checking || entry.status
        == TikTokLiveWatchStatus::Recording {
        entry.status = TikTokLiveWatchStatus::Offline;
        entry.next_check_at = now;
        entry.updated_at = now;
        true
    } else {
        false
    }
}

// ---------------------------------------------------------------------------
// Saving an entry from the interface
// ---------------------------------------------------------------------------

/// The address to inspect for a target, as `tiktok_target_url` gives it.
pub open spec fn target_url_of(t: crate::live::TargetView) -> Option<Seq<char>> {
    match t.4 {
        Some(u) => Some(u),
        None => match t.3 {
            Some(id) => Some(crate::live::room_info_url(id)),
            None => None,
        },
    }
}

/// The target that a watch input names, with the address to inspect; an
/// input that names none is refused with the reason.
pub fn watch_entry_target(input: &str) -> (r: Result<(crate::live::TikTokLiveTarget, String), String>)
    ensures
        match r {
            Ok(p) => crate::live::live_target(input@) == Ok::<crate::live::TargetView, Seq<char>>(
                p.0@,
            ) && target_url_of(p.0@) == Some(p.1@),
            Err(e) => crate::live::live_target(input@) == Err::<crate::live::TargetView, Seq<char>>(
                e@,
            ) || (crate::live::live_target(input@) matches Ok(t) && target_url_of(t) is None && e@
                == "Missing TikTok Live target"@),
        },
{
    let target = match crate::live::parse_tiktok_live_target(input) {
        Ok(t) => t,
        Err(e) => return Err(e),
    };
    match crate::live::tiktok_target_url(&target) {
        Some(url) => Ok((target, url)),
        None => Err(string_of(&chars_of("Missing TikTok Live target"))),
    }
}

/// A new entry for a target: enabled and auto-recording once per live,
/// with `auto` quality and transport, polled every minute with the default
/// cooldown, due now, offline, and created now.
pub open spec fn fresh_entry(
    e: TikTokLiveWatchEntry,
    id: Seq<char>,
    target: crate::live::TargetView,
    target_url: Seq<char>,
    output_dir: Seq<char>,
    now: i64,
) -> bool {
    &&& e.id@ == id
    &&& e.target_input@ == target.1
    &&& e.target_url@ == target_url
    &&& ostr(e.username) == target.2
    &&& e.enabled
    &&& e.auto_record
    &&& e.output_dir@ == output_dir
    &&& ostr(e.preferred_quality) == Some("auto"@)
    &&& ostr(e.preferred_transport) == Some("auto"@)
    &&& e.duration_seconds is None
    &&& e.cookie_mode is None
    &&& e.cookie_browser is None
    &&& e.cookie_browser_profile is None
    &&& e.cookie_file_path is None
    &&& e.poll_interval_seconds == 60
    &&& e.record_mode == crate::watchlist::TikTokLiveRecordMode::OncePerLive
    &&& e.cooldown_seconds == crate::watchlist::WATCHLIST_DEFAULT_COOLDOWN_SECONDS
    &&& e.filename_template is None
    &&& !e.schedule_enabled
    &&& e.schedule_days is None
    &&& e.schedule_start_minute is None
    &&& e.schedule_end_minute is None
    &&& e.backoff_attempt == 0
    &&& e.next_check_at == now
    &&& e.status == TikTokLiveWatchStatus::Offline
    &&& e.active_job_id is None
    &&& e.last_error is None
    &&& e.last_checked_at is None
    &&& e.last_online_at is None
    &&& e.last_recording_at is None
    &&& e.last_session_id is None
    &&& e.last_outcome is None
    &&& e.last_completed_at is None
    &&& e.last_started_job_id is None
    &&& e.last_segment_count == 0
    &&& e.last_refresh_count == 0
    &&& e.last_reconnect_count == 0
    &&& e.last_file_size is None
    &&& e.last_title is None
    &&& e.last_uploader is None
    &&& e.thumbnail is None
    &&& e.avatar is None
    &&& e.last_viewer_count is None
    &&& e.created_at == now
    &&& e.updated_at == now
}

pub fn new_watch_entry(
    id: String,
    target: &crate::live::TikTokLiveTarget,
    target_url: &str,
    output_dir: &str,
    now: i64,
) -> (e: TikTokLiveWatchEntry)
    ensures
        fresh_entry(e, id@, target@, target_url@, output_dir@, now),
{
    TikTokLiveWatchEntry {
        id,
        target_input: string_of(&chars_of(target.input.as_str())),
        target_url: string_of(&chars_of(target_url)),
        username: match &target.username {
            Some(u) => Some(string_of(&chars_of(u.as_str()))),
            None => None,
        },
        enabled: true,
        auto_record: true,
        output_dir: string_of(&chars_of(output_dir)),
        preferred_quality: str_of("auto"),
        preferred_transport: str_of("auto"),
        duration_seconds: None,
        cookie_mode: None,
        cookie_browser: None,
        cookie_browser_profile: None,
        cookie_file_path: None,
        poll_interval_seconds: 60,
        record_mode: crate::watchlist::TikTokLiveRecordMode::OncePerLive,
        cooldown_seconds: crate::watchlist::WATCHLIST_DEFAULT_COOLDOWN_SECONDS,
        filename_template: None,
        schedule_enabled: false,
        schedule_days: None,
        schedule_start_minute: None,
        schedule_end_minute: None,
        backoff_attempt: 0,
        next_check_at: now,
        status: TikTokLiveWatchStatus::Offline,
        active_job_id: None,
        last_error: None,
        last_checked_at: None,
        last_online_at: None,
        last_recording_at: None,
        last_session_id: None,
        last_outcome: None,
        last_completed_at: None,
        last_started_job_id: None,
        last_segment_count: 0,
        last_refresh_count: 0,
        last_reconnect_count: 0,
        last_file_size: None,
        last_title: None,
        last_uploader: None,
        thumbnail: None,
        avatar: None,
        last_viewer_count: None,
        created_at: now,
        updated_at: now,
    }
}

/// A template worth keeping: trimmed and not empty.
pub open spec fn kept_template(t: Option<Seq<char>>) -> Option<Seq<char>> {
    match t {
        Some(s) => if trim(s).len() > 0 {
            Some(trim(s))
        } else {
            None
        },
        None => None,
    }
}

/// An entry after the interface's input is applied to it: the target and
/// output folder replaced, the settings taken from the input (flags the
/// input leaves unset keep their value; intervals are clamped, the
/// schedule normalized, a zero duration and a blank template dropped).
/// When the target changed, the watch state starts over as offline. An
/// enabled entry without a job is due now.
pub open spec fn applied_input(
    old_entry: TikTokLiveWatchEntry,
    new_entry: TikTokLiveWatchEntry,
    input: crate::recorder::SaveTikTokLiveWatchEntryInput,
    target: crate::live::TargetView,
    target_url: Seq<char>,
    output_dir: Seq<char>,
    target_changed: bool,
    now: i64,
) -> bool {
    let enabled = match input.enabled {
        Some(b) => b,
        None => old_entry.enabled,
    };
    &&& new_entry.target_input@ == target.1
    &&& new_entry.target_url@ == target_url
    &&& ostr(new_entry.username) == target.2
    &&& new_entry.output_dir@ == output_dir
    &&& ostr(new_entry.filename_template) == kept_template(ostr(input.filename_template))
    &&& ostr(new_entry.schedule_days) == crate::watchlist::normalized_days(ostr(input.schedule_days))
    &&& new_entry == TikTokLiveWatchEntry {
        target_input: new_entry.target_input,
        target_url: new_entry.target_url,
        username: new_entry.username,
        enabled,
        auto_record: match input.auto_record {
            Some(b) => b,
            None => old_entry.auto_record,
        },
        output_dir: new_entry.output_dir,
        preferred_quality: input.preferred_quality,
        preferred_transport: input.preferred_transport,
        duration_seconds: match input.duration_seconds {
            Some(d) => if d > 0 {
                Some(d)
            } else {
                None
            },
            None => None,
        },
        cookie_mode: input.cookie_mode,
        cookie_browser: input.cookie_browser,
        cookie_browser_profile: input.cookie_browser_profile,
        cookie_file_path: input.cookie_file_path,
        poll_interval_seconds: crate::watchlist::clamp(
            match input.poll_interval_seconds {
                Some(v) => v as int,
                None => 60,
            },
            crate::watchlist::WATCHLIST_MIN_POLL_SECONDS as int,
            crate::watchlist::WATCHLIST_MAX_POLL_SECONDS as int,
        ) as u32,
        record_mode: match input.record_mode {
            Some(m) => m,
            None => old_entry.record_mode,
        },
        cooldown_seconds: match input.cooldown_seconds {
            Some(v) => if v > crate::watchlist::WATCHLIST_MAX_COOLDOWN_SECONDS {
                crate::watchlist::WATCHLIST_MAX_COOLDOWN_SECONDS
            } else {
                v
            },
            None => crate::watchlist::WATCHLIST_DEFAULT_COOLDOWN_SECONDS,
        },
        filename_template: new_entry.filename_template,
        schedule_enabled: match input.schedule_enabled {
            Some(b) => b,
            None => old_entry.schedule_enabled,
        },
        schedule_days: new_entry.schedule_days,
        schedule_start_minute: match input.schedule_start_minute {
            Some(m) => if m < 1440 {
                Some(m)
            } else {
                None
            },
            None => None,
        },
        schedule_end_minute: match input.schedule_end_minute {
            Some(m) => if m < 1440 {
                Some(m)
            } else {
                None
            },
            None => None,
        },
        status: if target_changed {
            TikTokLiveWatchStatus::Offline
        } else {
            old_entry.status
        },
        backoff_attempt: if target_changed {
            0
        } else {
            old_entry.backoff_attempt
        },
        last_error: if target_changed {
            None
        } else {
            old_entry.last_error
        },
        last_checked_at: if target_changed {
            None
        } else {
            old_entry.last_checked_at
        },
        last_online_at: if target_changed {
            None
        } else {
            old_entry.last_online_at
        },
        last_session_id: if target_changed {
            None
        } else {
            old_entry.last_session_id
        },
        next_check_at: if enabled && old_entry.active_job_id is None {
            now
        } else {
            old_entry.next_check_at
        },
        ..old_entry
    }
}

/// A day list as it is stored: weekdays below 7, strictly ascending,
/// joined by commas.
pub open spec fn ascending_day_list(d: Seq<char>) -> bool {
    exists|days: Seq<nat>|
        days.len() > 0 && (forall|k: int| 0 <= k < days.len() ==> #[trigger] days[k] < 7) && (forall|
            a: int,
            b: int,
        | 0 <= a < b < days.len() ==> #[trigger] days[a] < #[trigger] days[b]) && d == join(
            days.map_values(|x: nat| crate::text::decimal(x)),
            ","@,
        )
}

/// The settings of a watched entry within the bounds the watch list keeps.
pub open spec fn settings_in_range(e: TikTokLiveWatchEntry) -> bool {
    &&& crate::watchlist::WATCHLIST_MIN_POLL_SECONDS <= e.poll_interval_seconds
        <= crate::watchlist::WATCHLIST_MAX_POLL_SECONDS
    &&& e.cooldown_seconds <= crate::watchlist::WATCHLIST_MAX_COOLDOWN_SECONDS
    &&& e.duration_seconds matches Some(d) ==> d > 0
    &&& e.schedule_start_minute matches Some(m) ==> m < 1440
    &&& e.schedule_end_minute matches Some(m) ==> m < 1440
    &&& ostr(e.filename_template) matches Some(t) ==> t.len() > 0 && trim(t) == t
    &&& ostr(e.schedule_days) matches Some(d) ==> ascending_day_list(d)
}

/// Whatever the interface sends, a saved entry keeps its settings in
/// bounds: the poll interval 30 s to an hour, the cooldown at most a week,
/// a duration only when positive, schedule minutes within the day, a
/// template trimmed and not blank, and the schedule days a strictly
/// ascending list of weekdays.
pub proof fn law_saved_entry_settings_in_range(
    old_entry: TikTokLiveWatchEntry,
    new_entry: TikTokLiveWatchEntry,
    input: crate::recorder::SaveTikTokLiveWatchEntryInput,
    target: crate::live::TargetView,
    target_url: Seq<char>,
    output_dir: Seq<char>,
    target_changed: bool,
    now: i64,
)
    requires
        applied_input(old_entry, new_entry, input, target, target_url, output_dir, target_changed, now),
    ensures
        settings_in_range(new_entry),
{
    if let Some(t) = ostr(input.filename_template) {
        crate::text::lemma_trim_idempotent(t);
    }
    let raw = match ostr(input.schedule_days) {
        Some(r) => r,
        None => Seq::empty(),
    };
    crate::watchlist::law_normalized_days_ascending_once(raw);
    if let Some(d) = ostr(new_entry.schedule_days) {
        let days = crate::watchlist::listed_days(raw);
        assert forall|k: int| 0 <= k < days.len() implies #[trigger] days[k] < 7 by {
            assert(days.contains(days[k]));
        }
        assert(d == join(days.map_values(|x: nat| crate::text::decimal(x)), ","@));
    }
}

pub fn apply_watch_entry_input(
    entry: &mut TikTokLiveWatchEntry,
    input: crate::recorder::SaveTikTokLiveWatchEntryInput,
    target: &crate::live::TikTokLiveTarget,
    target_url: &str,
    output_dir: &str,
    target_changed: bool,
    now: i64,
)
    ensures
        applied_input(
            *old(entry),
            *final(entry),
            input,
            target@,
            target_url@,
            output_dir@,
            target_changed,
            now,
        ),
{
    entry.target_input = string_of(&chars_of(target.input.as_str()));
    entry.target_url = string_of(&chars_of(target_url));
    entry.username = match &target.username {
        Some(u) => Some(string_of(&chars_of(u.as_str()))),
        None => None,
    };
    entry.enabled = match input.enabled {
        Some(b) => b,
        None => entry.enabled,
    };
    entry.auto_record = match input.auto_record {
        Some(b) => b,
        None => entry.auto_record,
    };
    entry.output_dir = string_of(&chars_of(output_dir));
    entry.preferred_quality = input.preferred_quality;
    entry.preferred_transport = input.preferred_transport;
    entry.duration_seconds = match input.duration_seconds {
        Some(d) => if d > 0 {
            Some(d)
        } else {
            None
        },
        None => None,
    };
    entry.cookie_mode = input.cookie_mode;
    entry.cookie_browser = input.cookie_browser;
    entry.cookie_browser_profile = input.cookie_browser_profile;
    entry.cookie_file_path = input.cookie_file_path;
    entry.poll_interval_seconds = crate::watchlist::clamp_watchlist_poll_interval(
        input.poll_interval_seconds,
    );
    entry.record_mode = match input.record_mode {
        Some(m) => m,
        None => entry.record_mode,
    };
    entry.cooldown_seconds = crate::watchlist::clamp_watchlist_cooldown(input.cooldown_seconds);
    entry.filename_template = match input.filename_template {
        Some(t) => {
            let trimmed = trim_ws(&chars_of(t.as_str()));
            if trimmed.len() > 0 {
                Some(string_of(&trimmed))
            } else {
                None
            }
        },
        None => None,
    };
    entry.schedule_enabled = match input.schedule_enabled {
        Some(b) => b,
        None => entry.schedule_enabled,
    };
    entry.schedule_days = crate::watchlist::normalize_schedule_days(input.schedule_days);
    entry.schedule_start_minute = crate::watchlist::normalize_schedule_minute(
        input.schedule_start_minute,
    );
    entry.schedule_end_minute = crate::watchlist::normalize_schedule_minute(
        input.schedule_end_minute,
    );
    if target_changed {
        entry.status = TikTokLiveWatchStatus::Offline;
        entry.backoff_attempt = 0;
        entry.last_error = None;
        entry.last_checked_at = None;
        entry.last_online_at = None;
        entry.last_session_id = None;
    }
    if entry.enabled && entry.active_job_id.is_none() {
        entry.next_check_at = now;
    }
}

pub open spec fn duplicate_message() -> Seq<char> {
    "This TikTok Live account is already in the watchlist."@
}

pub open spec fn target_change_message() -> Seq<char> {
    "Finish or remove the current recording recovery before changing this watch target."@
}

/// Whether an existing entry's target is changed by a save: its address
/// differs from the new one in more than ASCII case.
pub open spec fn target_changed(existing: Option<TikTokLiveWatchEntry>, target_url: Seq<char>) -> bool {
    match existing {
        Some(x) => crate::text::lower(x.target_url@) != crate::text::lower(target_url),
        None => false,
    }
}

/// Saves the interface's input over the existing entry (or a new one with
/// `new_id`). Refused, in this order: when another entry (`duplicate_id`)
/// already watches the target; when the output folder could not be
/// resolved (its error is passed on); when the target would change under
/// an entry that still has a job.
pub fn save_watch_entry(
    existing: Option<TikTokLiveWatchEntry>,
    duplicate_id: Option<String>,
    input: crate::recorder::SaveTikTokLiveWatchEntryInput,
    target: &crate::live::TikTokLiveTarget,
    target_url: &str,
    output_dir: Result<String, String>,
    new_id: String,
    now: i64,
) -> (r: Result<TikTokLiveWatchEntry, String>)
    ensures
        match r {
            Ok(saved) => (match duplicate_id {
                Some(d) => existing matches Some(x) && x.id@ == d@,
                None => true,
            }) && output_dir is Ok && !(target_changed(existing, target_url@)
                && existing->0.active_job_id is Some) && match existing {
                Some(x) => applied_input(
                    x,
                    saved,
                    input,
                    target@,
                    target_url@,
                    output_dir->Ok_0@,
                    target_changed(existing, target_url@),
                    now,
                ),
                None => exists|base: TikTokLiveWatchEntry|
                    fresh_entry(base, new_id@, target@, target_url@, output_dir->Ok_0@, now)
                        && applied_input(
                        base,
                        saved,
                        input,
                        target@,
                        target_url@,
                        output_dir->Ok_0@,
                        false,
                        now,
                    ),
            },
            Err(e) => if (match duplicate_id {
                Some(d) => !(existing matches Some(x) && x.id@ == d@),
                None => false,
            }) {
                e@ == duplicate_message()
            } else if output_dir is Err {
                e@ == output_dir->Err_0@
            } else {
                target_changed(existing, target_url@) && existing->0.active_job_id is Some && e@
                    == target_change_message()
            },
        },
{
    if let Some(d) = &duplicate_id {
        let same = match &existing {
            Some(x) => crate::text::seq_eq(&chars_of(x.id.as_str()), &chars_of(d.as_str())),
            None => false,
        };
        if !same {
            return Err(string_of(&chars_of("This TikTok Live account is already in the watchlist.")));
        }
    }
    let dir = match output_dir {
        Ok(d) => d,
        Err(e) => return Err(e),
    };
    let changed = match &existing {
        Some(x) => !crate::watchlist::same_watch_target(x.target_url.as_str(), target_url),
        None => false,
    };
    if changed && existing.is_some() {
        let busy = match &existing {
            Some(x) => x.active_job_id.is_some(),
            None => false,
        };
        if busy {
            return Err(
                string_of(
                    &chars_of(
                        "Finish or remove the current recording recovery before changing this watch target.",
                    ),
                ),
            );
        }
    }
    let mut saved = match existing {
        Some(x) => x,
        None => new_watch_entry(new_id, target, target_url, dir.as_str(), now),
    };
    apply_watch_entry_input(&mut saved, input, target, target_url, dir.as_str(), changed, now);
    Ok(saved)
}

// ---------------------------------------------------------------------------
// Laws
// ---------------------------------------------------------------------------

/// The entry kept its job, is recoverable, and waits paused.
pub open spec fn paused_with_job(old_entry: TikTokLiveWatchEntry, new_entry: TikTokLiveWatchEntry) -> bool {
    &&& new_entry.status == TikTokLiveWatchStatus::Recoverable
    &&& new_entry.next_check_at == WATCHLIST_PAUSED_CHECK_AT
    &&& new_entry.active_job_id == old_entry.active_job_id
}

/// A job that can be resumed is never dropped: whichever step meets it (a
/// check, the end of the recording, a restart), the entry keeps the job,
/// becomes recoverable and is not checked again until the recovery is
/// handled.
pub proof fn law_resumable_job_pauses_entry(
    old_entry: TikTokLiveWatchEntry,
    new_entry: TikTokLiveWatchEntry,
    status: TikTokLiveJobStatus,
    job_id: Seq<char>,
    facts: FinishedJobFacts,
    outcome: RecordingOutcome,
    now: i64,
    changed: bool,
)
    ensures
        settled_with_job(old_entry, new_entry, status, now) && status.resumable() ==> paused_with_job(
            old_entry,
            new_entry,
        ),
        finished_recording(old_entry, new_entry, job_id, Some(facts), outcome, now) && facts.resumable
            && ostr(old_entry.active_job_id) == Some(job_id) ==> paused_with_job(
            old_entry,
            new_entry,
        ),
        restarted(old_entry, new_entry, Some(status), now, changed) && status.resumable()
            && old_entry.active_job_id is Some ==> paused_with_job(old_entry, new_entry),
{
}

/// When a recording ends without a resumable job, the entry is freed: it
/// no longer names a job, so the next check may record again.
pub proof fn law_finished_recording_frees_entry(
    old_entry: TikTokLiveWatchEntry,
    new_entry: TikTokLiveWatchEntry,
    job_id: Seq<char>,
    job: Option<FinishedJobFacts>,
    outcome: RecordingOutcome,
    now: i64,
)
    requires
        finished_recording(old_entry, new_entry, job_id, job, outcome, now),
        ostr(old_entry.active_job_id) == Some(job_id),
        !(job matches Some(j) && j.resumable),
    ensures
        new_entry.active_job_id is None,
        new_entry.status != TikTokLiveWatchStatus::Recording,
        new_entry.status != TikTokLiveWatchStatus::Recoverable,
{
}

/// The backoff counts failures in a row: a check that finds the streamer
/// live, and a recording that produced a file, reset it; any other check,
/// and any other end of a recording that frees the entry, raise it by one
/// (saturating).
pub proof fn law_backoff_counts_failures(
    old_entry: TikTokLiveWatchEntry,
    new_entry: TikTokLiveWatchEntry,
    step: InspectionStep,
    previous: TikTokLiveWatchStatus,
    check: InspectionOutcome,
    allow_auto_record: bool,
    schedule_ok: bool,
    job_id: Seq<char>,
    job: Option<FinishedJobFacts>,
    end: RecordingOutcome,
    now: i64,
)
    ensures
        inspected(old_entry, new_entry, step, previous, check, allow_auto_record, schedule_ok, now)
            ==> new_entry.backoff_attempt == if check is Live {
            0
        } else {
            sat_inc(old_entry.backoff_attempt)
        },
        finished_recording(old_entry, new_entry, job_id, job, end, now) && ostr(
            old_entry.active_job_id,
        ) == Some(job_id) && !(job matches Some(j) && j.resumable) ==> new_entry.backoff_attempt
            == if end is Completed {
            0
        } else {
            sat_inc(old_entry.backoff_attempt)
        },
{
}

/// A check asks for a recording only for an enabled, auto-recording entry
/// without a job, whose streamer it found live, when auto-recording is
/// allowed and the schedule permits it; and never for a manual-only entry.
pub proof fn law_check_records_only_idle_entries(
    old_entry: TikTokLiveWatchEntry,
    new_entry: TikTokLiveWatchEntry,
    previous: TikTokLiveWatchStatus,
    check: InspectionOutcome,
    allow_auto_record: bool,
    schedule_ok: bool,
    now: i64,
)
    requires
        inspected(
            old_entry,
            new_entry,
            InspectionStep::StartRecording,
            previous,
            check,
            allow_auto_record,
            schedule_ok,
            now,
        ),
    ensures
        check is Live,
        allow_auto_record && schedule_ok,
        old_entry.enabled && old_entry.auto_record && old_entry.active_job_id is None,
        old_entry.record_mode != crate::watchlist::TikTokLiveRecordMode::ManualOnly,
{
}

/// After a restart no entry claims to be checking or recording without a
/// job to show for it.
pub proof fn law_restart_leaves_no_stale_activity(
    old_entry: TikTokLiveWatchEntry,
    new_entry: TikTokLiveWatchEntry,
    job: Option<TikTokLiveJobStatus>,
    now: i64,
    changed: bool,
)
    requires
        restarted(old_entry, new_entry, job, now, changed),
    ensures
        new_entry.status != TikTokLiveWatchStatus::Checking,
        new_entry.status == TikTokLiveWatchStatus::Recording ==> new_entry.active_job_id is Some,
{
}

/// Saving keeps what identifies an entry and its running work (its id,
/// creation time and job), and an enabled entry without a job is due at
/// once.
pub proof fn law_save_keeps_identity(
    old_entry: TikTokLiveWatchEntry,
    new_entry: TikTokLiveWatchEntry,
    input: crate::recorder::SaveTikTokLiveWatchEntryInput,
    target: crate::live::TargetView,
    target_url: Seq<char>,
    output_dir: Seq<char>,
    changed: bool,
    now: i64,
)
    requires
        applied_input(old_entry, new_entry, input, target, target_url, output_dir, changed, now),
    ensures
        new_entry.id == old_entry.id,
        new_entry.created_at == old_entry.created_at,
        new_entry.active_job_id == old_entry.active_job_id,
        new_entry.enabled && new_entry.active_job_id is None ==> new_entry.next_check_at == now,
        changed ==> new_entry.status == TikTokLiveWatchStatus::Offline && new_entry.last_session_id
            is None,
{
}

// ---------------------------------------------------------------------------
// Turning an entry on or off, and removing it
// ---------------------------------------------------------------------------

/// Turns watching an entry on or off at `now`: turned on, it is due at once.
/// The entry is marked as updated then; nothing else changes.
pub fn set_watch_entry_enabled(entry: &mut TikTokLiveWatchEntry, enabled: bool, now: i64)
    ensures
        *final(entry) == (TikTokLiveWatchEntry {
            enabled,
            next_check_at: if enabled {
                now
            } else {
                old(entry).next_check_at
            },
            updated_at: now,
            ..*old(entry)
        }),
{
    entry.enabled = enabled;
    if enabled {
        entry.next_check_at = now;
    }
    entry.updated_at = now;
}

/// Whether an entry may be removed: it must exist, and its job must not be
/// recording, whether the entry says so or the job is among the running
/// recordings (`job_running`).
pub fn check_watch_entry_removable(entry: Option<&TikTokLiveWatchEntry>, job_running: bool) -> (r: Result<
    (),
    String,
>)
    ensures
        match r {
            Ok(()) => entry matches Some(e) && !(e.active_job_id is Some && (e.status
                == TikTokLiveWatchStatus::Recording || job_running)),
            Err(m) => m@ == (if entry is None {
                "Watchlist entry not found."@
            } else {
                "Stop the active TikTok Live recording before removing this watchlist entry."@
            }),
        },
{
    match entry {
        None => Err(string_of(&chars_of("Watchlist entry not found."))),
        Some(e) => if e.active_job_id.is_some() && (matches!(e.status, TikTokLiveWatchStatus::Recording)
            || job_running) {
            Err(string_of(&chars_of("Stop the active TikTok Live recording before removing this watchlist entry.")))
        } else {
            Ok(())
        },
    }
}

} // verus!
