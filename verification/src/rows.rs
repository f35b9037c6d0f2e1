//! Stored watchlist entries and recording jobs as the rows of their
//! tables: how a value is written to its columns and read back from them.
use vstd::prelude::*;

use crate::jobs::{TikTokLiveJob, TikTokLiveJobStatus};
use crate::text::{chars_of, has_prefix, ostr, string_of, strs};
use crate::watchlist::{persisted_target, persisted_target_input, TikTokLiveRecordMode, TikTokLiveWatchEntry, TikTokLiveWatchStatus};

verus! {

/// A column that could not be read: its index and why.
#[derive(Clone, Debug)]
pub struct RowDecodeError {
    pub column: usize,
    pub message: String,
}

pub open spec fn err_view(e: RowDecodeError) -> (int, Seq<char>) {
    (e.column as int, e.message@)
}

// ---------------------------------------------------------------------------
// Watchlist entries
// ---------------------------------------------------------------------------

/// A watchlist row, each column as SQLite holds it: text, integers (flags
/// as 0 or 1), and the status (column 17) and record mode (column 25) by
/// name.
#[derive(Clone, Debug)]
pub struct WatchEntryRow {
    pub id: String,
    pub target_input: String,
    pub target_url: String,
    pub username: Option<String>,
    pub enabled: i64,
    pub auto_record: i64,
    pub output_dir: String,
    pub preferred_quality: Option<String>,
    pub preferred_transport: Option<String>,
    pub duration_seconds: Option<i64>,
    pub cookie_mode: Option<String>,
    pub cookie_browser: Option<String>,
    pub cookie_browser_profile: Option<String>,
    pub cookie_file_path: Option<String>,
    pub poll_interval_seconds: i64,
    pub record_mode: String,
    pub cooldown_seconds: i64,
    pub filename_template: Option<String>,
    pub schedule_enabled: i64,
    pub schedule_days: Option<String>,
    pub schedule_start_minute: Option<i64>,
    pub schedule_end_minute: Option<i64>,
    pub backoff_attempt: i64,
    pub next_check_at: i64,
    pub status: String,
    pub active_job_id: Option<String>,
    pub last_error: Option<String>,
    pub last_checked_at: Option<i64>,
    pub last_online_at: Option<i64>,
    pub last_recording_at: Option<i64>,
    pub last_session_id: Option<String>,
    pub last_outcome: Option<String>,
    pub last_completed_at: Option<i64>,
    pub last_started_job_id: Option<String>,
    pub last_segment_count: i64,
    pub last_refresh_count: i64,
    pub last_reconnect_count: i64,
    pub last_file_size: Option<i64>,
    pub last_title: Option<String>,
    pub last_uploader: Option<String>,
    pub thumbnail: Option<String>,
    pub avatar: Option<String>,
    pub last_viewer_count: Option<i64>,
    pub created_at: i64,
    pub updated_at: i64,
}

/// A watchlist entry as plain values.
pub struct WatchEntryModel {
    pub id: Seq<char>,
    pub target_input: Seq<char>,
    pub target_url: Seq<char>,
    pub username: Option<Seq<char>>,
    pub enabled: bool,
    pub auto_record: bool,
    pub output_dir: Seq<char>,
    pub preferred_quality: Option<Seq<char>>,
    pub preferred_transport: Option<Seq<char>>,
    pub duration_seconds: Option<u32>,
    pub cookie_mode: Option<Seq<char>>,
    pub cookie_browser: Option<Seq<char>>,
    pub cookie_browser_profile: Option<Seq<char>>,
    pub cookie_file_path: Option<Seq<char>>,
    pub poll_interval_seconds: u32,
    pub record_mode: TikTokLiveRecordMode,
    pub cooldown_seconds: u32,
    pub filename_template: Option<Seq<char>>,
    pub schedule_enabled: bool,
    pub schedule_days: Option<Seq<char>>,
    pub schedule_start_minute: Option<u32>,
    pub schedule_end_minute: Option<u32>,
    pub backoff_attempt: u32,
    pub next_check_at: i64,
    pub status: TikTokLiveWatchStatus,
    pub active_job_id: Option<Seq<char>>,
    pub last_error: Option<Seq<char>>,
    pub last_checked_at: Option<i64>,
    pub last_online_at: Option<i64>,
    pub last_recording_at: Option<i64>,
    pub last_session_id: Option<Seq<char>>,
    pub last_outcome: Option<Seq<char>>,
    pub last_completed_at: Option<i64>,
    pub last_started_job_id: Option<Seq<char>>,
    pub last_segment_count: u32,
    pub last_refresh_count: u32,
    pub last_reconnect_count: u32,
    pub last_file_size: Option<u64>,
    pub last_title: Option<Seq<char>>,
    pub last_uploader: Option<Seq<char>>,
    pub thumbnail: Option<Seq<char>>,
    pub avatar: Option<Seq<char>>,
    pub last_viewer_count: Option<u64>,
    pub created_at: i64,
    pub updated_at: i64,
}

pub open spec fn watch_entry_model(e: TikTokLiveWatchEntry) -> WatchEntryModel {
    WatchEntryModel {
        id: e.id@,
        target_input: e.target_input@,
        target_url: e.target_url@,
        username: ostr(e.username),
        enabled: e.enabled,
        auto_record: e.auto_record,
        output_dir: e.output_dir@,
        preferred_quality: ostr(e.preferred_quality),
        preferred_transport: ostr(e.preferred_transport),
        duration_seconds: e.duration_seconds,
        cookie_mode: ostr(e.cookie_mode),
        cookie_browser: ostr(e.cookie_browser),
        cookie_browser_profile: ostr(e.cookie_browser_profile),
        cookie_file_path: ostr(e.cookie_file_path),
        poll_interval_seconds: e.poll_interval_seconds,
        record_mode: e.record_mode,
        cooldown_seconds: e.cooldown_seconds,
        filename_template: ostr(e.filename_template),
        schedule_enabled: e.schedule_enabled,
        schedule_days: ostr(e.schedule_days),
        schedule_start_minute: e.schedule_start_minute,
        schedule_end_minute: e.schedule_end_minute,
        backoff_attempt: e.backoff_attempt,
        next_check_at: e.next_check_at,
        status: e.status,
        active_job_id: ostr(e.active_job_id),
        last_error: ostr(e.last_error),
        last_checked_at: e.last_checked_at,
        last_online_at: e.last_online_at,
        last_recording_at: e.last_recording_at,
        last_session_id: ostr(e.last_session_id),
        last_outcome: ostr(e.last_outcome),
        last_completed_at: e.last_completed_at,
        last_started_job_id: ostr(e.last_started_job_id),
        last_segment_count: e.last_segment_count,
        last_refresh_count: e.last_refresh_count,
        last_reconnect_count: e.last_reconnect_count,
        last_file_size: e.last_file_size,
        last_title: ostr(e.last_title),
        last_uploader: ostr(e.last_uploader),
        thumbnail: ostr(e.thumbnail),
        avatar: ostr(e.avatar),
        last_viewer_count: e.last_viewer_count,
        created_at: e.created_at,
        updated_at: e.updated_at,
    }
}

/// What a row reads as: an error for an unknown status, then for an
/// unknown record mode; otherwise flags are set when not 0, counts and
/// minutes take the low 32 bits, sizes below 0 read as 0.
pub open spec fn decoded_watch_entry(row: WatchEntryRow) -> Result<WatchEntryModel, (int, Seq<char>)> {
    match TikTokLiveWatchStatus::named(row.status@) {
        None => Err((17, "Unknown TikTok Live watch status: "@ + row.status@)),
        Some(status) => match TikTokLiveRecordMode::named(row.record_mode@) {
            None => Err((25, "Unknown TikTok Live record mode: "@ + row.record_mode@)),
            Some(mode) => Ok(WatchEntryModel {
                id: row.id@,
                target_input: row.target_input@,
                target_url: row.target_url@,
                username: ostr(row.username),
                enabled: row.enabled != 0,
                auto_record: row.auto_record != 0,
                output_dir: row.output_dir@,
                preferred_quality: ostr(row.preferred_quality),
                preferred_transport: ostr(row.preferred_transport),
                duration_seconds: match row.duration_seconds { Some(v) => Some(v as u32), None => None },
                cookie_mode: ostr(row.cookie_mode),
                cookie_browser: ostr(row.cookie_browser),
                cookie_browser_profile: ostr(row.cookie_browser_profile),
                cookie_file_path: ostr(row.cookie_file_path),
                poll_interval_seconds: row.poll_interval_seconds as u32,
                record_mode: mode,
                cooldown_seconds: row.cooldown_seconds as u32,
                filename_template: ostr(row.filename_template),
                schedule_enabled: row.schedule_enabled != 0,
                schedule_days: ostr(row.schedule_days),
                schedule_start_minute: match row.schedule_start_minute { Some(v) => Some(v as u32), None => None },
                schedule_end_minute: match row.schedule_end_minute { Some(v) => Some(v as u32), None => None },
                backoff_attempt: row.backoff_attempt as u32,
                next_check_at: row.next_check_at,
                status: status,
                active_job_id: ostr(row.active_job_id),
                last_error: ostr(row.last_error),
                last_checked_at: row.last_checked_at,
                last_online_at: row.last_online_at,
                last_recording_at: row.last_recording_at,
                last_session_id: ostr(row.last_session_id),
                last_outcome: ostr(row.last_outcome),
                last_completed_at: row.last_completed_at,
                last_started_job_id: ostr(row.last_started_job_id),
                last_segment_count: row.last_segment_count as u32,
                last_refresh_count: row.last_refresh_count as u32,
                last_reconnect_count: row.last_reconnect_count as u32,
                last_file_size: match row.last_file_size { Some(v) => Some(if v < 0 { 0u64 } else { v as u64 }), None => None },
                last_title: ostr(row.last_title),
                last_uploader: ostr(row.last_uploader),
                thumbnail: ostr(row.thumbnail),
                avatar: ostr(row.avatar),
                last_viewer_count: match row.last_viewer_count { Some(v) => Some(if v < 0 { 0u64 } else { v as u64 }), None => None },
                created_at: row.created_at,
                updated_at: row.updated_at,
            }),
        },
    }
}

/// The row an entry is stored as: its stored target input, flags as 0 or
/// 1, numbers as integers (a size beyond the integer range as nothing),
/// statuses by name.
pub open spec fn encodes_watch_entry(e: TikTokLiveWatchEntry, row: WatchEntryRow) -> bool {
    &&& row.target_input@ == persisted_target(e)
    &&& row.id@ == e.id@
    &&& row.target_url@ == e.target_url@
    &&& ostr(row.username) == ostr(e.username)
    &&& row.enabled == (if e.enabled { 1i64 } else { 0i64 })
    &&& row.auto_record == (if e.auto_record { 1i64 } else { 0i64 })
    &&& row.output_dir@ == e.output_dir@
    &&& ostr(row.preferred_quality) == ostr(e.preferred_quality)
    &&& ostr(row.preferred_transport) == ostr(e.preferred_transport)
    &&& row.duration_seconds == match e.duration_seconds { Some(v) => Some(v as i64), None => None::<i64> }
    &&& ostr(row.cookie_mode) == ostr(e.cookie_mode)
    &&& ostr(row.cookie_browser) == ostr(e.cookie_browser)
    &&& ostr(row.cookie_browser_profile) == ostr(e.cookie_browser_profile)
    &&& ostr(row.cookie_file_path) == ostr(e.cookie_file_path)
    &&& row.poll_interval_seconds == e.poll_interval_seconds as i64
    &&& row.record_mode@ == e.record_mode.name()
    &&& row.cooldown_seconds == e.cooldown_seconds as i64
    &&& ostr(row.filename_template) == ostr(e.filename_template)
    &&& row.schedule_enabled == (if e.schedule_enabled { 1i64 } else { 0i64 })
    &&& ostr(row.schedule_days) == ostr(e.schedule_days)
    &&& row.schedule_start_minute == match e.schedule_start_minute { Some(v) => Some(v as i64), None => None::<i64> }
    &&& row.schedule_end_minute == match e.schedule_end_minute { Some(v) => Some(v as i64), None => None::<i64> }
    &&& row.backoff_attempt == e.backoff_attempt as i64
    &&& row.next_check_at == e.next_check_at
    &&& row.status@ == e.status.name()
    &&& ostr(row.active_job_id) == ostr(e.active_job_id)
    &&& ostr(row.last_error) == ostr(e.last_error)
    &&& row.last_checked_at == e.last_checked_at
    &&& row.last_online_at == e.last_online_at
    &&& row.last_recording_at == e.last_recording_at
    &&& ostr(row.last_session_id) == ostr(e.last_session_id)
    &&& ostr(row.last_outcome) == ostr(e.last_outcome)
    &&& row.last_completed_at == e.last_completed_at
    &&& ostr(row.last_started_job_id) == ostr(e.last_started_job_id)
    &&& row.last_segment_count == e.last_segment_count as i64
    &&& row.last_refresh_count == e.last_refresh_count as i64
    &&& row.last_reconnect_count == e.last_reconnect_count as i64
    &&& row.last_file_size == match e.last_file_size { Some(v) => if v <= i64::MAX { Some(v as i64) } else { None::<i64> }, None => None::<i64> }
    &&& ostr(row.last_title) == ostr(e.last_title)
    &&& ostr(row.last_uploader) == ostr(e.last_uploader)
    &&& ostr(row.thumbnail) == ostr(e.thumbnail)
    &&& ostr(row.avatar) == ostr(e.avatar)
    &&& row.last_viewer_count == match e.last_viewer_count { Some(v) => if v <= i64::MAX { Some(v as i64) } else { None::<i64> }, None => None::<i64> }
    &&& row.created_at == e.created_at
    &&& row.updated_at == e.updated_at
}

pub fn watch_entry_to_row(entry: &TikTokLiveWatchEntry) -> (r: WatchEntryRow)
    ensures
        encodes_watch_entry(*entry, r),
{
    WatchEntryRow {
        id: entry.id.clone(),
        target_input: string_of(&chars_of(persisted_target_input(entry))),
        target_url: entry.target_url.clone(),
        username: entry.username.clone(),
        enabled: if entry.enabled { 1 } else { 0 },
        auto_record: if entry.auto_record { 1 } else { 0 },
        output_dir: entry.output_dir.clone(),
        preferred_quality: entry.preferred_quality.clone(),
        preferred_transport: entry.preferred_transport.clone(),
        duration_seconds: match entry.duration_seconds { Some(v) => Some(v as i64), None => None },
        cookie_mode: entry.cookie_mode.clone(),
        cookie_browser: entry.cookie_browser.clone(),
        cookie_browser_profile: entry.cookie_browser_profile.clone(),
        cookie_file_path: entry.cookie_file_path.clone(),
        poll_interval_seconds: entry.poll_interval_seconds as i64,
        record_mode: string_of(&chars_of(entry.record_mode.as_str())),
        cooldown_seconds: entry.cooldown_seconds as i64,
        filename_template: entry.filename_template.clone(),
        schedule_enabled: if entry.schedule_enabled { 1 } else { 0 },
        schedule_days: entry.schedule_days.clone(),
        schedule_start_minute: match entry.schedule_start_minute { Some(v) => Some(v as i64), None => None },
        schedule_end_minute: match entry.schedule_end_minute { Some(v) => Some(v as i64), None => None },
        backoff_attempt: entry.backoff_attempt as i64,
        next_check_at: entry.next_check_at,
        status: string_of(&chars_of(entry.status.as_str())),
        active_job_id: entry.active_job_id.clone(),
        last_error: entry.last_error.clone(),
        last_checked_at: entry.last_checked_at,
        last_online_at: entry.last_online_at,
        last_recording_at: entry.last_recording_at,
        last_session_id: entry.last_session_id.clone(),
        last_outcome: entry.last_outcome.clone(),
        last_completed_at: entry.last_completed_at,
        last_started_job_id: entry.last_started_job_id.clone(),
        last_segment_count: entry.last_segment_count as i64,
        last_refresh_count: entry.last_refresh_count as i64,
        last_reconnect_count: entry.last_reconnect_count as i64,
        last_file_size: match entry.last_file_size { Some(v) => if v <= i64::MAX as u64 { Some(v as i64) } else { None }, None => None },
        last_title: entry.last_title.clone(),
        last_uploader: entry.last_uploader.clone(),
        thumbnail: entry.thumbnail.clone(),
        avatar: entry.avatar.clone(),
        last_viewer_count: match entry.last_viewer_count { Some(v) => if v <= i64::MAX as u64 { Some(v as i64) } else { None }, None => None },
        created_at: entry.created_at,
        updated_at: entry.updated_at,
    }
}

pub fn watch_entry_from_row(row: WatchEntryRow) -> (r: Result<TikTokLiveWatchEntry, RowDecodeError>)
    ensures
        match r {
            Ok(e) => decoded_watch_entry(row) == Ok::<WatchEntryModel, (int, Seq<char>)>(watch_entry_model(e)),
            Err(err) => decoded_watch_entry(row) == Err::<WatchEntryModel, (int, Seq<char>)>(err_view(err)),
        },
{
    let status = match TikTokLiveWatchStatus::from_name(row.status.as_str()) {
        Ok(s) => s,
        Err(message) => {
            return Err(RowDecodeError { column: 17, message });
        },
    };
    let record_mode = match TikTokLiveRecordMode::from_name(row.record_mode.as_str()) {
        Ok(m) => m,
        Err(message) => {
            return Err(RowDecodeError { column: 25, message });
        },
    };
    let ghost model = decoded_watch_entry(row);
    let e = TikTokLiveWatchEntry {
        id: row.id,
        target_input: row.target_input,
        target_url: row.target_url,
        username: row.username,
        enabled: row.enabled != 0,
        auto_record: row.auto_record != 0,
        output_dir: row.output_dir,
        preferred_quality: row.preferred_quality,
        preferred_transport: row.preferred_transport,
        duration_seconds: match row.duration_seconds { Some(v) => Some(v as u32), None => None },
        cookie_mode: row.cookie_mode,
        cookie_browser: row.cookie_browser,
        cookie_browser_profile: row.cookie_browser_profile,
        cookie_file_path: row.cookie_file_path,
        poll_interval_seconds: row.poll_interval_seconds as u32,
        record_mode,
        cooldown_seconds: row.cooldown_seconds as u32,
        filename_template: row.filename_template,
        schedule_enabled: row.schedule_enabled != 0,
        schedule_days: row.schedule_days,
        schedule_start_minute: match row.schedule_start_minute { Some(v) => Some(v as u32), None => None },
        schedule_end_minute: match row.schedule_end_minute { Some(v) => Some(v as u32), None => None },
        backoff_attempt: row.backoff_attempt as u32,
        next_check_at: row.next_check_at,
        status,
        active_job_id: row.active_job_id,
        last_error: row.last_error,
        last_checked_at: row.last_checked_at,
        last_online_at: row.last_online_at,
        last_recording_at: row.last_recording_at,
        last_session_id: row.last_session_id,
        last_outcome: row.last_outcome,
        last_completed_at: row.last_completed_at,
        last_started_job_id: row.last_started_job_id,
        last_segment_count: row.last_segment_count as u32,
        last_refresh_count: row.last_refresh_count as u32,
        last_reconnect_count: row.last_reconnect_count as u32,
        last_file_size: match row.last_file_size { Some(v) => Some(if v < 0 { 0u64 } else { v as u64 }), None => None },
        last_title: row.last_title,
        last_uploader: row.last_uploader,
        thumbnail: row.thumbnail,
        avatar: row.avatar,
        last_viewer_count: match row.last_viewer_count { Some(v) => Some(if v < 0 { 0u64 } else { v as u64 }), None => None },
        created_at: row.created_at,
        updated_at: row.updated_at,
    };
    assert(model == Ok::<WatchEntryModel, (int, Seq<char>)>(watch_entry_model(e)));
    Ok(e)
}

/// An entry written to its row reads back as itself, except that a URL
/// input reads back as the canonical target URL and a size beyond the
/// integer range of the table reads back as unknown.
pub proof fn law_watch_entry_row_round_trip(entry: TikTokLiveWatchEntry, row: WatchEntryRow)
    requires
        encodes_watch_entry(entry, row),
    ensures
        decoded_watch_entry(row) == Ok::<WatchEntryModel, (int, Seq<char>)>(WatchEntryModel {
            target_input: persisted_target(entry),
            last_file_size: match entry.last_file_size {
                Some(v) => if v <= i64::MAX { Some(v) } else { None },
                None => None,
            },
            last_viewer_count: match entry.last_viewer_count {
                Some(v) => if v <= i64::MAX { Some(v) } else { None },
                None => None,
            },
            ..watch_entry_model(entry)
        }),
{
    crate::watchlist::law_watch_status_name_round_trip(entry.status);
    crate::watchlist::law_record_mode_name_round_trip(entry.record_mode);
}

// ---------------------------------------------------------------------------
// Recording jobs
// ---------------------------------------------------------------------------

/// A job row, each column as SQLite holds it; the status (column 17) by
/// name, and the segment paths (column 18) as the list their JSON text
/// reads as, or the error that reading it gave.
#[derive(Debug)]
pub struct JobRow {
    pub id: String,
    pub target_input: String,
    pub target_url: String,
    pub username: Option<String>,
    pub title: String,
    pub thumbnail: Option<String>,
    pub output_dir: String,
    pub output_path: Option<String>,
    pub final_path: Option<String>,
    pub preferred_quality: Option<String>,
    pub preferred_transport: Option<String>,
    pub duration_seconds: Option<i64>,
    pub cookie_mode: Option<String>,
    pub cookie_browser: Option<String>,
    pub cookie_browser_profile: Option<String>,
    pub cookie_file_path: Option<String>,
    pub auto_reconnect: i64,
    pub status: String,
    pub segment_paths: Result<Vec<String>, String>,
    pub refresh_count: i64,
    pub reconnect_count: i64,
    pub format_id: Option<String>,
    pub history_id: Option<String>,
    pub error_message: Option<String>,
    pub started_at: i64,
    pub updated_at: i64,
    pub completed_at: Option<i64>,
}

/// A recording job as plain values.
pub struct JobModel {
    pub id: Seq<char>,
    pub target_input: Seq<char>,
    pub target_url: Seq<char>,
    pub username: Option<Seq<char>>,
    pub title: Seq<char>,
    pub thumbnail: Option<Seq<char>>,
    pub output_dir: Seq<char>,
    pub output_path: Option<Seq<char>>,
    pub final_path: Option<Seq<char>>,
    pub preferred_quality: Option<Seq<char>>,
    pub preferred_transport: Option<Seq<char>>,
    pub duration_seconds: Option<u32>,
    pub cookie_mode: Option<Seq<char>>,
    pub cookie_browser: Option<Seq<char>>,
    pub cookie_browser_profile: Option<Seq<char>>,
    pub cookie_file_path: Option<Seq<char>>,
    pub auto_reconnect: bool,
    pub status: TikTokLiveJobStatus,
    pub segment_paths: Seq<Seq<char>>,
    pub refresh_count: u32,
    pub reconnect_count: u32,
    pub format_id: Option<Seq<char>>,
    pub history_id: Option<Seq<char>>,
    pub error_message: Option<Seq<char>>,
    pub started_at: i64,
    pub updated_at: i64,
    pub completed_at: Option<i64>,
}

pub open spec fn job_model(j: TikTokLiveJob) -> JobModel {
    JobModel {
        id: j.id@,
        target_input: j.target_input@,
        target_url: j.target_url@,
        username: ostr(j.username),
        title: j.title@,
        thumbnail: ostr(j.thumbnail),
        output_dir: j.output_dir@,
        output_path: ostr(j.output_path),
        final_path: ostr(j.final_path),
        preferred_quality: ostr(j.preferred_quality),
        preferred_transport: ostr(j.preferred_transport),
        duration_seconds: j.duration_seconds,
        cookie_mode: ostr(j.cookie_mode),
        cookie_browser: ostr(j.cookie_browser),
        cookie_browser_profile: ostr(j.cookie_browser_profile),
        cookie_file_path: ostr(j.cookie_file_path),
        auto_reconnect: j.auto_reconnect,
        status: j.status,
        segment_paths: strs(j.segment_paths@),
        refresh_count: j.refresh_count,
        reconnect_count: j.reconnect_count,
        format_id: ostr(j.format_id),
        history_id: ostr(j.history_id),
        error_message: ostr(j.error_message),
        started_at: j.started_at,
        updated_at: j.updated_at,
        completed_at: j.completed_at,
    }
}

/// What a job row reads as: an error for an unknown status, then for
/// segment paths that did not read; otherwise flags are set when not 0 and
/// counts take the low 32 bits.
pub open spec fn decoded_job(row: JobRow) -> Result<JobModel, (int, Seq<char>)> {
    match TikTokLiveJobStatus::named(row.status@) {
        None => Err((17, "Unknown TikTok Live job status: "@ + row.status@)),
        Some(status) => match row.segment_paths {
            Err(m) => Err((18, m@)),
            Ok(paths) => {
                let segments = strs(paths@);
                Ok(JobModel {
                    id: row.id@,
                    target_input: row.target_input@,
                    target_url: row.target_url@,
                    username: ostr(row.username),
                    title: row.title@,
                    thumbnail: ostr(row.thumbnail),
                    output_dir: row.output_dir@,
                    output_path: ostr(row.output_path),
                    final_path: ostr(row.final_path),
                    preferred_quality: ostr(row.preferred_quality),
                    preferred_transport: ostr(row.preferred_transport),
                    duration_seconds: match row.duration_seconds { Some(v) => Some(v as u32), None => None },
                    cookie_mode: ostr(row.cookie_mode),
                    cookie_browser: ostr(row.cookie_browser),
                    cookie_browser_profile: ostr(row.cookie_browser_profile),
                    cookie_file_path: ostr(row.cookie_file_path),
                    auto_reconnect: row.auto_reconnect != 0,
                    status: status,
                    segment_paths: segments,
                    refresh_count: row.refresh_count as u32,
                    reconnect_count: row.reconnect_count as u32,
                    format_id: ostr(row.format_id),
                    history_id: ostr(row.history_id),
                    error_message: ostr(row.error_message),
                    started_at: row.started_at,
                    updated_at: row.updated_at,
                    completed_at: row.completed_at,
                })
            },
        },
    }
}

/// The row a job is stored as.
pub open spec fn encodes_job(j: TikTokLiveJob, row: JobRow) -> bool {
    &&& row.id@ == j.id@
    &&& row.target_input@ == j.target_input@
    &&& row.target_url@ == j.target_url@
    &&& ostr(row.username) == ostr(j.username)
    &&& row.title@ == j.title@
    &&& ostr(row.thumbnail) == ostr(j.thumbnail)
    &&& row.output_dir@ == j.output_dir@
    &&& ostr(row.output_path) == ostr(j.output_path)
    &&& ostr(row.final_path) == ostr(j.final_path)
    &&& ostr(row.preferred_quality) == ostr(j.preferred_quality)
    &&& ostr(row.preferred_transport) == ostr(j.preferred_transport)
    &&& row.duration_seconds == match j.duration_seconds { Some(v) => Some(v as i64), None => None::<i64> }
    &&& ostr(row.cookie_mode) == ostr(j.cookie_mode)
    &&& ostr(row.cookie_browser) == ostr(j.cookie_browser)
    &&& ostr(row.cookie_browser_profile) == ostr(j.cookie_browser_profile)
    &&& ostr(row.cookie_file_path) == ostr(j.cookie_file_path)
    &&& row.auto_reconnect == (if j.auto_reconnect { 1i64 } else { 0i64 })
    &&& row.status@ == j.status.name()
    &&& (row.segment_paths matches Ok(v) && strs(v@) == strs(j.segment_paths@))
    &&& row.refresh_count == j.refresh_count as i64
    &&& row.reconnect_count == j.reconnect_count as i64
    &&& ostr(row.format_id) == ostr(j.format_id)
    &&& ostr(row.history_id) == ostr(j.history_id)
    &&& ostr(row.error_message) == ostr(j.error_message)
    &&& row.started_at == j.started_at
    &&& row.updated_at == j.updated_at
    &&& row.completed_at == j.completed_at
}

pub fn job_to_row(job: &TikTokLiveJob) -> (r: JobRow)
    ensures
        encodes_job(*job, r),
{
    JobRow {
        id: job.id.clone(),
        target_input: job.target_input.clone(),
        target_url: job.target_url.clone(),
        username: job.username.clone(),
        title: job.title.clone(),
        thumbnail: job.thumbnail.clone(),
        output_dir: job.output_dir.clone(),
        output_path: job.output_path.clone(),
        final_path: job.final_path.clone(),
        preferred_quality: job.preferred_quality.clone(),
        preferred_transport: job.preferred_transport.clone(),
        duration_seconds: match job.duration_seconds { Some(v) => Some(v as i64), None => None },
        cookie_mode: job.cookie_mode.clone(),
        cookie_browser: job.cookie_browser.clone(),
        cookie_browser_profile: job.cookie_browser_profile.clone(),
        cookie_file_path: job.cookie_file_path.clone(),
        auto_reconnect: if job.auto_reconnect { 1 } else { 0 },
        status: string_of(&chars_of(job.status.as_str())),
        segment_paths: Ok(job.segment_paths.clone()),
        refresh_count: job.refresh_count as i64,
        reconnect_count: job.reconnect_count as i64,
        format_id: job.format_id.clone(),
        history_id: job.history_id.clone(),
        error_message: job.error_message.clone(),
        started_at: job.started_at,
        updated_at: job.updated_at,
        completed_at: job.completed_at,
    }
}

pub fn job_from_row(row: JobRow) -> (r: Result<TikTokLiveJob, RowDecodeError>)
    ensures
        match r {
            Ok(j) => decoded_job(row) == Ok::<JobModel, (int, Seq<char>)>(job_model(j)),
            Err(err) => decoded_job(row) == Err::<JobModel, (int, Seq<char>)>(err_view(err)),
        },
{
    let ghost model = decoded_job(row);
    let status = match TikTokLiveJobStatus::from_name(row.status.as_str()) {
        Ok(s) => s,
        Err(message) => {
            return Err(RowDecodeError { column: 17, message });
        },
    };
    let segment_paths = match row.segment_paths {
        Ok(paths) => paths,
        Err(message) => {
            return Err(RowDecodeError { column: 18, message });
        },
    };
    let j = TikTokLiveJob {
        id: row.id,
        target_input: row.target_input,
        target_url: row.target_url,
        username: row.username,
        title: row.title,
        thumbnail: row.thumbnail,
        output_dir: row.output_dir,
        output_path: row.output_path,
        final_path: row.final_path,
        preferred_quality: row.preferred_quality,
        preferred_transport: row.preferred_transport,
        duration_seconds: match row.duration_seconds { Some(v) => Some(v as u32), None => None },
        cookie_mode: row.cookie_mode,
        cookie_browser: row.cookie_browser,
        cookie_browser_profile: row.cookie_browser_profile,
        cookie_file_path: row.cookie_file_path,
        auto_reconnect: row.auto_reconnect != 0,
        status,
        segment_paths,
        refresh_count: row.refresh_count as u32,
        reconnect_count: row.reconnect_count as u32,
        format_id: row.format_id,
        history_id: row.history_id,
        error_message: row.error_message,
        started_at: row.started_at,
        updated_at: row.updated_at,
        completed_at: row.completed_at,
    };
    assert(model == Ok::<JobModel, (int, Seq<char>)>(job_model(j)));
    Ok(j)
}

/// A job written to its row reads back as itself.
pub proof fn law_job_row_round_trip(job: TikTokLiveJob, row: JobRow)
    requires
        encodes_job(job, row),
    ensures
        decoded_job(row) == Ok::<JobModel, (int, Seq<char>)>(job_model(job)),
{
    crate::jobs::law_job_status_name_round_trip(job.status);
}

} // verus!
