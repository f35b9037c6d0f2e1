//! The TikTok Live recorder as a whole: its configuration, what it reports,
//! and how jobs left running are settled after a restart.
use vstd::prelude::*;

use crate::jobs::{TikTokLiveJob, TikTokLiveJobStatus};
use crate::text::{chars_of, ostr, string_of, strs};
use crate::watchlist::{
    clamp_tiktok_live_recording_limit, resource_warning, tiktok_live_resource_warning,
    TikTokLiveRecordMode, TikTokLiveWatchEntry, TIKTOK_LIVE_MAX_RECORDINGS_HARD_LIMIT,
};

verus! {

/// What a finished recording produced.
#[derive(Clone, Debug)]
pub struct TikTokLiveRecordResult {
    pub job_id: String,
    pub history_id: String,
    pub filepath: String,
    pub title: String,
    pub filesize: Option<u64>,
    pub partial: bool,
}

/// A job that can be resumed or finalized, as the interface lists it.
#[derive(Clone, Debug)]
pub struct TikTokLiveRecoveryJob {
    pub id: String,
    pub target: String,
    pub title: String,
    pub output_dir: String,
    pub status: TikTokLiveJobStatus,
    pub segment_count: usize,
    pub has_media: bool,
    pub refresh_count: u32,
    pub reconnect_count: u32,
    pub started_at: i64,
    pub updated_at: i64,
    pub error_message: Option<String>,
}

/// How many rooms may be recorded at once, and how many are.
#[derive(Clone, Copy, Debug)]
pub struct TikTokLiveRecorderConfig {
    pub max_concurrent_recordings: usize,
    pub active_recordings: usize,
    pub hard_limit: usize,
}

/// Totals over the watchlist and the recording jobs.
#[derive(Clone, Debug)]
pub struct TikTokLiveTelemetrySnapshot {
    pub active_recordings: usize,
    pub max_concurrent_recordings: usize,
    pub watched_streamers: usize,
    pub enabled_watchers: usize,
    pub recoverable_jobs: usize,
    pub total_segments: u64,
    pub total_refreshes: u64,
    pub total_reconnects: u64,
    pub total_recorded_bytes: u64,
    pub resource_warning: Option<&'static str>,
}

/// A watchlist entry as the interface submits it for saving.
#[derive(Clone, Debug)]
pub struct SaveTikTokLiveWatchEntryInput {
    pub id: Option<String>,
    pub input: String,
    pub enabled: Option<bool>,
    pub auto_record: Option<bool>,
    pub output_dir: String,
    pub preferred_quality: Option<String>,
    pub preferred_transport: Option<String>,
    pub duration_seconds: Option<u32>,
    pub cookie_mode: Option<String>,
    pub cookie_browser: Option<String>,
    pub cookie_browser_profile: Option<String>,
    pub cookie_file_path: Option<String>,
    pub poll_interval_seconds: Option<u32>,
    pub record_mode: Option<TikTokLiveRecordMode>,
    pub cooldown_seconds: Option<u32>,
    pub filename_template: Option<String>,
    pub schedule_enabled: Option<bool>,
    pub schedule_days: Option<String>,
    pub schedule_start_minute: Option<u32>,
    pub schedule_end_minute: Option<u32>,
}

// ---------------------------------------------------------------------------
// Configuration
// ---------------------------------------------------------------------------

/// The room limit in force after a restart: the stored limit when there is
/// one, else the current one, clamped to one through the hard limit. A
/// failure to read the stored limit is passed on.
pub fn load_tiktok_live_recorder_config_after_restart(
    stored: Result<Option<usize>, String>,
    current: usize,
) -> (r: Result<usize, String>)
    ensures
        match stored {
            Ok(Some(v)) => r == Ok::<usize, String>(crate::watchlist::clamp(
                v as int,
                1,
                TIKTOK_LIVE_MAX_RECORDINGS_HARD_LIMIT as int,
            ) as usize),
            Ok(None) => r == Ok::<usize, String>(crate::watchlist::clamp(
                current as int,
                1,
                TIKTOK_LIVE_MAX_RECORDINGS_HARD_LIMIT as int,
            ) as usize),
            Err(e) => r matches Err(f) && f@ == e@,
        },
{
    match stored {
        Ok(Some(v)) => Ok(clamp_tiktok_live_recording_limit(Some(v))),
        Ok(None) => Ok(clamp_tiktok_live_recording_limit(Some(current))),
        Err(e) => Err(e),
    }
}

/// The recorder's configuration as reported to the interface.
pub fn tiktok_live_recorder_config(limit: usize, active_recordings: usize) -> (r:
    TikTokLiveRecorderConfig)
    ensures
        r.max_concurrent_recordings == limit,
        r.active_recordings == active_recordings,
        r.hard_limit == TIKTOK_LIVE_MAX_RECORDINGS_HARD_LIMIT,
{
    TikTokLiveRecorderConfig {
        max_concurrent_recordings: limit,
        active_recordings,
        hard_limit: TIKTOK_LIVE_MAX_RECORDINGS_HARD_LIMIT,
    }
}

// ---------------------------------------------------------------------------
// Telemetry
// ---------------------------------------------------------------------------

pub open spec fn sum(s: Seq<int>) -> int
    decreases s.len(),
{
    if s.len() == 0 {
        0
    } else {
        sum(s.drop_last()) + s.last()
    }
}

pub open spec fn max(a: int, b: int) -> int {
    if a >= b {
        a
    } else {
        b
    }
}

pub open spec fn job_segments(jobs: Seq<TikTokLiveJob>) -> Seq<int> {
    jobs.map_values(|j: TikTokLiveJob| j.segment_paths@.len() as int)
}

pub open spec fn job_refreshes(jobs: Seq<TikTokLiveJob>) -> Seq<int> {
    jobs.map_values(|j: TikTokLiveJob| j.refresh_count as int)
}

pub open spec fn job_reconnects(jobs: Seq<TikTokLiveJob>) -> Seq<int> {
    jobs.map_values(|j: TikTokLiveJob| j.reconnect_count as int)
}

pub open spec fn entry_segments(entries: Seq<TikTokLiveWatchEntry>) -> Seq<int> {
    entries.map_values(|e: TikTokLiveWatchEntry| e.last_segment_count as int)
}

pub open spec fn entry_refreshes(entries: Seq<TikTokLiveWatchEntry>) -> Seq<int> {
    entries.map_values(|e: TikTokLiveWatchEntry| e.last_refresh_count as int)
}

pub open spec fn entry_reconnects(entries: Seq<TikTokLiveWatchEntry>) -> Seq<int> {
    entries.map_values(|e: TikTokLiveWatchEntry| e.last_reconnect_count as int)
}

/// The last file sizes that the entries know; entries without one count 0.
pub open spec fn entry_sizes(entries: Seq<TikTokLiveWatchEntry>) -> Seq<int> {
    entries.map_values(
        |e: TikTokLiveWatchEntry|
            match e.last_file_size {
                Some(v) => v as int,
                None => 0,
            },
    )
}

pub open spec fn as_ints(s: Seq<u64>) -> Seq<int> {
    s.map_values(|v: u64| v as int)
}

pub open spec fn enabled_count(entries: Seq<TikTokLiveWatchEntry>) -> int
    decreases entries.len(),
{
    if entries.len() == 0 {
        0
    } else {
        enabled_count(entries.drop_last()) + if entries.last().enabled {
            1int
        } else {
            0int
        }
    }
}

pub open spec fn resumable_count(jobs: Seq<TikTokLiveJob>) -> int
    decreases jobs.len(),
{
    if jobs.len() == 0 {
        0
    } else {
        resumable_count(jobs.drop_last()) + if jobs.last().status.resumable() {
            1int
        } else {
            0int
        }
    }
}

proof fn lemma_sum_step(s: Seq<int>, k: int)
    requires
        0 <= k < s.len(),
    ensures
        sum(s.take(k + 1)) == sum(s.take(k)) + s[k],
{
    assert(s.take(k + 1).drop_last() =~= s.take(k));
}

proof fn lemma_sum_nonneg_prefix(s: Seq<int>, k: int)
    requires
        0 <= k <= s.len(),
        forall|i: int| 0 <= i < s.len() ==> s[i] >= 0,
    ensures
        0 <= sum(s.take(k)) <= sum(s),
    decreases s.len() - k,
{
    if k < s.len() {
        lemma_sum_step(s, k);
        lemma_sum_nonneg_prefix(s, k + 1);
    } else {
        assert(s.take(k) =~= s);
    }
    lemma_sum_nonneg(s.take(k));
}

proof fn lemma_sum_nonneg(s: Seq<int>)
    requires
        forall|i: int| 0 <= i < s.len() ==> s[i] >= 0,
    ensures
        sum(s) >= 0,
    decreases s.len(),
{
    if s.len() > 0 {
        lemma_sum_nonneg(s.drop_last());
    }
}

/// The recorder's totals. Each total is the larger of what the jobs hold
/// and what the watchlist remembers of past recordings; `job_bytes` gives
/// the bytes on disk of each job in turn.
pub open spec fn telemetry_ok(
    r: TikTokLiveTelemetrySnapshot,
    active_recordings: usize,
    max_concurrent_recordings: usize,
    entries: Seq<TikTokLiveWatchEntry>,
    jobs: Seq<TikTokLiveJob>,
    job_bytes: Seq<u64>,
) -> bool {
    &&& r.active_recordings == active_recordings
    &&& r.max_concurrent_recordings == max_concurrent_recordings
    &&& r.watched_streamers == entries.len()
    &&& r.enabled_watchers == enabled_count(entries)
    &&& r.recoverable_jobs == resumable_count(jobs)
    &&& r.total_segments == max(sum(job_segments(jobs)), sum(entry_segments(entries)))
    &&& r.total_refreshes == max(sum(job_refreshes(jobs)), sum(entry_refreshes(entries)))
    &&& r.total_reconnects == max(sum(job_reconnects(jobs)), sum(entry_reconnects(entries)))
    &&& r.total_recorded_bytes == max(sum(as_ints(job_bytes)), sum(entry_sizes(entries)))
    &&& crate::text::opt_view(r.resource_warning) == resource_warning(
        active_recordings as int,
        max_concurrent_recordings as int,
    )
}

pub fn tiktok_live_telemetry(
    active_recordings: usize,
    max_concurrent_recordings: usize,
    entries: &[TikTokLiveWatchEntry],
    jobs: &[TikTokLiveJob],
    job_bytes: &[u64],
) -> (r: TikTokLiveTelemetrySnapshot)
    requires
        job_bytes.len() == jobs.len(),
        sum(job_segments(jobs@)) <= u64::MAX,
        sum(job_refreshes(jobs@)) <= u64::MAX,
        sum(job_reconnects(jobs@)) <= u64::MAX,
        sum(as_ints(job_bytes@)) <= u64::MAX,
        sum(entry_segments(entries@)) <= u64::MAX,
        sum(entry_refreshes(entries@)) <= u64::MAX,
        sum(entry_reconnects(entries@)) <= u64::MAX,
        sum(entry_sizes(entries@)) <= u64::MAX,
    ensures
        telemetry_ok(r, active_recordings, max_concurrent_recordings, entries@, jobs@, job_bytes@),
{
    let mut enabled: usize = 0;
    let mut seg_e: u64 = 0;
    let mut ref_e: u64 = 0;
    let mut rec_e: u64 = 0;
    let mut size_e: u64 = 0;
    let mut k: usize = 0;
    while k < entries.len()
        invariant
            k <= entries.len(),
            enabled == enabled_count(entries@.take(k as int)),
            enabled <= k,
            seg_e == sum(entry_segments(entries@).take(k as int)),
            ref_e == sum(entry_refreshes(entries@).take(k as int)),
            rec_e == sum(entry_reconnects(entries@).take(k as int)),
            size_e == sum(entry_sizes(entries@).take(k as int)),
            sum(entry_segments(entries@)) <= u64::MAX,
            sum(entry_refreshes(entries@)) <= u64::MAX,
            sum(entry_reconnects(entries@)) <= u64::MAX,
            sum(entry_sizes(entries@)) <= u64::MAX,
        decreases entries.len() - k,
    {
        let e = &entries[k];
        proof {
            let ev = entries@;
            assert(ev.take(k + 1).drop_last() =~= ev.take(k as int));
            lemma_sum_step(entry_segments(ev), k as int);
            lemma_sum_step(entry_refreshes(ev), k as int);
            lemma_sum_step(entry_reconnects(ev), k as int);
            lemma_sum_step(entry_sizes(ev), k as int);
            lemma_sum_nonneg_prefix(entry_segments(ev), k + 1);
            lemma_sum_nonneg_prefix(entry_refreshes(ev), k + 1);
            lemma_sum_nonneg_prefix(entry_reconnects(ev), k + 1);
            lemma_sum_nonneg_prefix(entry_sizes(ev), k + 1);
            assert(entry_segments(ev).take(k + 1) =~= entry_segments(ev.take(k + 1)));
        }
        if e.enabled {
            enabled = enabled + 1;
        }
        seg_e = seg_e + e.last_segment_count as u64;
        ref_e = ref_e + e.last_refresh_count as u64;
        rec_e = rec_e + e.last_reconnect_count as u64;
        size_e = size_e + match e.last_file_size {
            Some(v) => v,
            None => 0,
        };
        k += 1;
    }
    assert(entries@.take(entries.len() as int) =~= entries@);
    assert(entry_segments(entries@).take(entries.len() as int) =~= entry_segments(entries@));
    assert(entry_refreshes(entries@).take(entries.len() as int) =~= entry_refreshes(entries@));
    assert(entry_reconnects(entries@).take(entries.len() as int) =~= entry_reconnects(entries@));
    assert(entry_sizes(entries@).take(entries.len() as int) =~= entry_sizes(entries@));
    let mut resumable: usize = 0;
    let mut seg_j: u64 = 0;
    let mut ref_j: u64 = 0;
    let mut rec_j: u64 = 0;
    let mut size_j: u64 = 0;
    let mut k: usize = 0;
    while k < jobs.len()
        invariant
            k <= jobs.len(),
            job_bytes.len() == jobs.len(),
            resumable == resumable_count(jobs@.take(k as int)),
            resumable <= k,
            seg_j == sum(job_segments(jobs@).take(k as int)),
            ref_j == sum(job_refreshes(jobs@).take(k as int)),
            rec_j == sum(job_reconnects(jobs@).take(k as int)),
            size_j == sum(as_ints(job_bytes@).take(k as int)),
            sum(job_segments(jobs@)) <= u64::MAX,
            sum(job_refreshes(jobs@)) <= u64::MAX,
            sum(job_reconnects(jobs@)) <= u64::MAX,
            sum(as_ints(job_bytes@)) <= u64::MAX,
        decreases jobs.len() - k,
    {
        let j = &jobs[k];
        proof {
            let jv = jobs@;
            assert(jv.take(k + 1).drop_last() =~= jv.take(k as int));
            lemma_sum_step(job_segments(jv), k as int);
            lemma_sum_step(job_refreshes(jv), k as int);
            lemma_sum_step(job_reconnects(jv), k as int);
            lemma_sum_step(as_ints(job_bytes@), k as int);
            lemma_sum_nonneg_prefix(job_segments(jv), k + 1);
            lemma_sum_nonneg_prefix(job_refreshes(jv), k + 1);
            lemma_sum_nonneg_prefix(job_reconnects(jv), k + 1);
            lemma_sum_nonneg_prefix(as_ints(job_bytes@), k + 1);
        }
        if j.status.can_resume() {
            resumable = resumable + 1;
        }
        seg_j = seg_j + j.segment_paths.len() as u64;
        ref_j = ref_j + j.refresh_count as u64;
        rec_j = rec_j + j.reconnect_count as u64;
        size_j = size_j + job_bytes[k];
        k += 1;
    }
    assert(jobs@.take(jobs.len() as int) =~= jobs@);
    assert(job_segments(jobs@).take(jobs.len() as int) =~= job_segments(jobs@));
    assert(job_refreshes(jobs@).take(jobs.len() as int) =~= job_refreshes(jobs@));
    assert(job_reconnects(jobs@).take(jobs.len() as int) =~= job_reconnects(jobs@));
    assert(as_ints(job_bytes@).take(jobs.len() as int) =~= as_ints(job_bytes@));
    TikTokLiveTelemetrySnapshot {
        active_recordings,
        max_concurrent_recordings,
        watched_streamers: entries.len(),
        enabled_watchers: enabled,
        recoverable_jobs: resumable,
        total_segments: if seg_j >= seg_e {
            seg_j
        } else {
            seg_e
        },
        total_refreshes: if ref_j >= ref_e {
            ref_j
        } else {
            ref_e
        },
        total_reconnects: if rec_j >= rec_e {
            rec_j
        } else {
            rec_e
        },
        total_recorded_bytes: if size_j >= size_e {
            size_j
        } else {
            size_e
        },
        resource_warning: tiktok_live_resource_warning(active_recordings, max_concurrent_recordings),
    }
}

// ---------------------------------------------------------------------------
// Jobs after a restart
// ---------------------------------------------------------------------------

/// What the disk holds of a job's files: for each of its segment paths
/// whether it names a non-empty file, and the same for its final and output
/// paths.
#[derive(Clone, Debug)]
pub struct JobMediaProbe {
    pub segments_with_media: Vec<bool>,
    pub final_has_media: bool,
    pub output_has_media: bool,
}

/// The segment paths that name a non-empty file, in order.
pub open spec fn existing_segments(paths: Seq<Seq<char>>, present: Seq<bool>) -> Seq<Seq<char>>
    decreases paths.len(),
{
    if paths.len() == 0 || present.len() != paths.len() {
        seq![]
    } else if present.last() {
        existing_segments(paths.drop_last(), present.drop_last()).push(paths.last())
    } else {
        existing_segments(paths.drop_last(), present.drop_last())
    }
}

/// Whether a job left anything to recover: a segment, its final file or its
/// output file holds data.
pub open spec fn has_recoverable_media(job: TikTokLiveJob, probe: JobMediaProbe) -> bool {
    existing_segments(strs(job.segment_paths@), probe.segments_with_media@).len() > 0
        || (job.final_path is Some && probe.final_has_media) || (job.output_path is Some
        && probe.output_has_media)
}

/// `items` added to `acc` in order, each unless it is already there.
pub open spec fn append_distinct(acc: Seq<Seq<char>>, items: Seq<Seq<char>>) -> Seq<Seq<char>>
    decreases items.len(),
{
    if items.len() == 0 {
        acc
    } else {
        let a = append_distinct(acc, items.drop_last());
        if a.contains(items.last()) {
            a
        } else {
            a.push(items.last())
        }
    }
}

/// The media a job can be recovered from: its final file first, when it
/// holds data and is not an MP4, then its segments that hold data, each
/// once.
pub open spec fn recoverable_media(job: TikTokLiveJob, probe: JobMediaProbe, final_is_mp4: bool) -> Seq<
    Seq<char>,
> {
    let first = if job.final_path is Some && probe.final_has_media && !final_is_mp4 {
        seq![job.final_path.unwrap()@]
    } else {
        seq![]
    };
    append_distinct(first, existing_segments(strs(job.segment_paths@), probe.segments_with_media@))
}

fn contains_text(v: &Vec<String>, s: &String) -> (r: bool)
    ensures
        r == strs(v@).contains(s@),
{
    let c = chars_of(s.as_str());
    let mut i: usize = 0;
    while i < v.len()
        invariant
            i <= v.len(),
            c@ == s@,
            forall|k: int| 0 <= k < i ==> v@[k]@ != s@,
        decreases v.len() - i,
    {
        if crate::text::seq_eq(&chars_of(v[i].as_str()), &c) {
            assert(strs(v@)[i as int] == s@);
            return true;
        }
        i += 1;
    }
    proof {
        if strs(v@).contains(s@) {
            let k = choose|k: int| 0 <= k < strs(v@).len() && strs(v@)[k] == s@;
            assert(v@[k]@ == s@);
        }
    }
    false
}

/// The media a job can be recovered from, given whether its final file is
/// an MP4.
pub fn recoverable_media_paths(job: &TikTokLiveJob, probe: &JobMediaProbe, final_is_mp4: bool) -> (r: Vec<
    String,
>)
    requires
        probe.segments_with_media.len() == job.segment_paths.len(),
    ensures
        strs(r@) == recoverable_media(*job, *probe, final_is_mp4),
{
    let mut out: Vec<String> = Vec::new();
    match &job.final_path {
        Some(f) => if probe.final_has_media && !final_is_mp4 {
            out.push(string_of(&chars_of(f.as_str())));
        },
        None => {},
    }
    let ghost first = strs(out@);
    assert(first == (if job.final_path is Some && probe.final_has_media && !final_is_mp4 {
        seq![job.final_path.unwrap()@]
    } else {
        seq![]
    }));
    let ghost paths = strs(job.segment_paths@);
    let ghost present = probe.segments_with_media@;
    let mut k: usize = 0;
    while k < job.segment_paths.len()
        invariant
            k <= job.segment_paths.len(),
            job.segment_paths.len() == probe.segments_with_media.len(),
            paths == strs(job.segment_paths@),
            present == probe.segments_with_media@,
            strs(out@) == append_distinct(first, existing_segments(paths.take(k as int), present.take(k as int))),
        decreases job.segment_paths.len() - k,
    {
        assert(paths.take(k + 1).drop_last() =~= paths.take(k as int));
        assert(present.take(k + 1).drop_last() =~= present.take(k as int));
        let ghost e0 = existing_segments(paths.take(k as int), present.take(k as int));
        if probe.segments_with_media[k] {
            let ghost e1 = existing_segments(paths.take(k + 1), present.take(k + 1));
            assert(e1 == e0.push(paths[k as int]));
            assert(e1.drop_last() =~= e0);
            if !contains_text(&out, &job.segment_paths[k]) {
                let ghost before = strs(out@);
                out.push(string_of(&chars_of(job.segment_paths[k].as_str())));
                assert(strs(out@) =~= before.push(paths[k as int]));
            }
        }
        k += 1;
    }
    assert(paths.take(paths.len() as int) =~= paths);
    assert(present.take(present.len() as int) =~= present);
    out
}

/// The media a job can be recovered from. Whether its final file is an
/// MP4 is read from the path's extension, which is the platform's to say.
pub fn recoverable_segment_paths(job: &TikTokLiveJob, probe: &JobMediaProbe) -> (r: Vec<String>)
    requires
        probe.segments_with_media.len() == job.segment_paths.len(),
    ensures
        exists|final_is_mp4: bool| strs(r@) == recoverable_media(*job, *probe, final_is_mp4),
{
    let final_is_mp4 = match &job.final_path {
        Some(f) => match crate::live::path_extension(f.as_str()) {
            Some(e) => crate::text::is_lit(&chars_of(e.as_str()), "mp4"),
            None => false,
        },
        None => false,
    };
    recoverable_media_paths(job, probe, final_is_mp4)
}

/// Whether a job left anything to recover.
pub fn job_has_recoverable_media(job: &TikTokLiveJob, probe: &JobMediaProbe) -> (r: bool)
    requires
        probe.segments_with_media.len() == job.segment_paths.len(),
    ensures
        r == has_recoverable_media(*job, *probe),
{
    let ghost paths = strs(job.segment_paths@);
    let ghost present = probe.segments_with_media@;
    let mut k: usize = 0;
    let mut any = false;
    while k < job.segment_paths.len()
        invariant
            k <= job.segment_paths.len(),
            job.segment_paths.len() == probe.segments_with_media.len(),
            paths == strs(job.segment_paths@),
            present == probe.segments_with_media@,
            any == (existing_segments(paths.take(k as int), present.take(k as int)).len() > 0),
        decreases job.segment_paths.len() - k,
    {
        assert(paths.take(k + 1).drop_last() =~= paths.take(k as int));
        assert(present.take(k + 1).drop_last() =~= present.take(k as int));
        if probe.segments_with_media[k] {
            any = true;
        }
        k += 1;
    }
    assert(paths.take(paths.len() as int) =~= paths);
    assert(present.take(present.len() as int) =~= present);
    any || (job.final_path.is_some() && probe.final_has_media) || (job.output_path.is_some()
        && probe.output_has_media)
}

/// `r` shows `job`: its identity, target, title, folder, status and
/// counters, how many media files it can be recovered from (whether its
/// final file is an MP4 being the platform's to say), and whether it left
/// anything to recover.
pub open spec fn describes(r: TikTokLiveRecoveryJob, job: TikTokLiveJob, probe: JobMediaProbe) -> bool {
    &&& r.id@ == job.id@ && r.target@ == job.target_input@ && r.title@ == job.title@
    &&& r.output_dir@ == job.output_dir@
    &&& r.status == job.status
    &&& exists|final_is_mp4: bool| r.segment_count == recoverable_media(job, probe, final_is_mp4).len()
    &&& r.has_media == has_recoverable_media(job, probe)
    &&& r.refresh_count == job.refresh_count && r.reconnect_count == job.reconnect_count
    &&& r.started_at == job.started_at && r.updated_at == job.updated_at
    &&& ostr(r.error_message) == ostr(job.error_message)
}

/// A job as the list of recoverable jobs shows it.
pub fn recovery_job(job: &TikTokLiveJob, probe: &JobMediaProbe) -> (r: TikTokLiveRecoveryJob)
    requires
        probe.segments_with_media.len() == job.segment_paths.len(),
    ensures
        describes(r, *job, *probe),
{
    let segments = recoverable_segment_paths(job, probe);
    assert(strs(segments@).len() == segments@.len());
    TikTokLiveRecoveryJob {
        id: string_of(&chars_of(job.id.as_str())),
        target: string_of(&chars_of(job.target_input.as_str())),
        title: string_of(&chars_of(job.title.as_str())),
        output_dir: string_of(&chars_of(job.output_dir.as_str())),
        status: job.status,
        segment_count: segments.len(),
        has_media: job_has_recoverable_media(job, probe),
        refresh_count: job.refresh_count,
        reconnect_count: job.reconnect_count,
        started_at: job.started_at,
        updated_at: job.updated_at,
        error_message: match &job.error_message {
            Some(m) => Some(string_of(&chars_of(m.as_str()))),
            None => None,
        },
    }
}

/// The positions of the jobs that can be resumed, in order.
pub open spec fn resumable_positions(jobs: Seq<TikTokLiveJob>) -> Seq<int>
    decreases jobs.len(),
{
    if jobs.len() == 0 {
        seq![]
    } else if jobs.last().status.resumable() {
        resumable_positions(jobs.drop_last()).push(jobs.len() - 1)
    } else {
        resumable_positions(jobs.drop_last())
    }
}

proof fn lemma_resumable_positions(jobs: Seq<TikTokLiveJob>)
    ensures
        forall|i: int|
            0 <= i < resumable_positions(jobs).len() ==> 0 <= #[trigger] resumable_positions(jobs)[i] < jobs.len(),
    decreases jobs.len(),
{
    if jobs.len() > 0 {
        let p = jobs.drop_last();
        lemma_resumable_positions(p);
        let rp = resumable_positions(p);
        if jobs.last().status.resumable() {
            assert forall|i: int| 0 <= i < rp.push(jobs.len() - 1).len() implies 0 <= #[trigger] rp.push(
                jobs.len() - 1,
            )[i] < jobs.len() by {
                if i < rp.len() {
                    assert(rp.push(jobs.len() - 1)[i] == rp[i]);
                }
            }
        }
    }
}

/// The jobs that can be resumed, as the list of recoverable jobs shows
/// them, in order; `probes` tells, for each job at the same position, what
/// the disk holds of its files.
pub fn list_tiktok_live_recovery_jobs(jobs: &[TikTokLiveJob], probes: &[JobMediaProbe]) -> (r: Vec<
    TikTokLiveRecoveryJob,
>)
    requires
        probes.len() == jobs.len(),
        forall|i: int|
            0 <= i < jobs.len() ==> (#[trigger] probes@[i]).segments_with_media.len()
                == jobs@[i].segment_paths.len(),
    ensures
        r.len() == resumable_positions(jobs@).len(),
        forall|i: int| #![auto]
            0 <= i < r.len() ==> describes(
                r@[i],
                jobs@[resumable_positions(jobs@)[i]],
                probes@[resumable_positions(jobs@)[i]],
            ),
{
    let mut out: Vec<TikTokLiveRecoveryJob> = Vec::new();
    let mut k: usize = 0;
    while k < jobs.len()
        invariant
            k <= jobs.len(),
            probes.len() == jobs.len(),
            forall|i: int|
                0 <= i < jobs.len() ==> (#[trigger] probes@[i]).segments_with_media.len()
                    == jobs@[i].segment_paths.len(),
            out.len() == resumable_positions(jobs@.take(k as int)).len(),
            forall|i: int| #![auto]
                0 <= i < out.len() ==> describes(
                    out@[i],
                    jobs@[resumable_positions(jobs@.take(k as int))[i]],
                    probes@[resumable_positions(jobs@.take(k as int))[i]],
                ),
        decreases jobs.len() - k,
    {
        let ghost before = resumable_positions(jobs@.take(k as int));
        assert(jobs@.take(k + 1).drop_last() =~= jobs@.take(k as int));
        assert(jobs@.take(k + 1).last() == jobs@[k as int]);
        proof {
            lemma_resumable_positions(jobs@.take(k as int));
        }
        if jobs[k].status.can_resume() {
            let item = recovery_job(&jobs[k], &probes[k]);
            out.push(item);
            let ghost after = resumable_positions(jobs@.take(k + 1));
            assert(after == before.push(k as int));
            assert forall|i: int| #![auto] 0 <= i < out.len() implies describes(
                out@[i],
                jobs@[after[i]],
                probes@[after[i]],
            ) by {
                if i < out.len() - 1 {
                    assert(after[i] == before[i]);
                }
            }
        } else {
            let ghost after = resumable_positions(jobs@.take(k + 1));
            assert(after == before);
        }
        k += 1;
    }
    assert(jobs@.take(jobs.len() as int) =~= jobs@);
    out
}

pub open spec fn interrupted_with_media_message() -> Seq<char> {
    "Recording was interrupted when Youwee closed. The saved media can be continued or finalized."@
}

pub open spec fn interrupted_without_media_message() -> Seq<char> {
    "Recording was interrupted before any recoverable media was written."@
}

/// A job that was running when the application stopped, settled: only its
/// segments with data are kept, it becomes recoverable when anything holds
/// data and interrupted otherwise, with a message saying which; it is
/// marked as updated. Nothing else changes.
pub open spec fn reconciled_job(
    old_job: TikTokLiveJob,
    new_job: TikTokLiveJob,
    probe: JobMediaProbe,
) -> bool {
    let media = has_recoverable_media(old_job, probe);
    &&& strs(new_job.segment_paths@) == existing_segments(
        strs(old_job.segment_paths@),
        probe.segments_with_media@,
    )
    &&& new_job.status == if media {
        TikTokLiveJobStatus::Recoverable
    } else {
        TikTokLiveJobStatus::Interrupted
    }
    &&& ostr(new_job.error_message) == Some(
        if media {
            interrupted_with_media_message()
        } else {
            interrupted_without_media_message()
        },
    )
    &&& new_job == (TikTokLiveJob {
        segment_paths: new_job.segment_paths,
        status: new_job.status,
        error_message: new_job.error_message,
        updated_at: new_job.updated_at,
        ..old_job
    })
}

pub fn reconcile_job_after_restart(job: &mut TikTokLiveJob, probe: &JobMediaProbe)
    requires
        probe.segments_with_media.len() == old(job).segment_paths.len(),
    ensures
        reconciled_job(*old(job), *final(job), *probe),
{
    let ghost start = *job;
    let ghost paths = strs(job.segment_paths@);
    let ghost present = probe.segments_with_media@;
    let mut kept: Vec<String> = Vec::new();
    let mut k: usize = 0;
    while k < job.segment_paths.len()
        invariant
            k <= job.segment_paths.len(),
            job.segment_paths.len() == probe.segments_with_media.len(),
            paths == strs(job.segment_paths@),
            present == probe.segments_with_media@,
            strs(kept@) == existing_segments(paths.take(k as int), present.take(k as int)),
        decreases job.segment_paths.len() - k,
    {
        assert(paths.take(k + 1).drop_last() =~= paths.take(k as int));
        assert(present.take(k + 1).drop_last() =~= present.take(k as int));
        if probe.segments_with_media[k] {
            let p = string_of(&chars_of(job.segment_paths[k].as_str()));
            let ghost before = kept@;
            kept.push(p);
            assert(strs(kept@) =~= strs(before).push(paths[k as int]));
        }
        k += 1;
    }
    assert(paths.take(paths.len() as int) =~= paths);
    assert(present.take(present.len() as int) =~= present);
    let media = kept.len() > 0 || (job.final_path.is_some() && probe.final_has_media) || (
    job.output_path.is_some() && probe.output_has_media);
    job.segment_paths = kept;
    if media {
        job.status = TikTokLiveJobStatus::Recoverable;
        job.error_message = Some(
            string_of(
                &chars_of(
                    "Recording was interrupted when Youwee closed. The saved media can be continued or finalized.",
                ),
            ),
        );
    } else {
        job.status = TikTokLiveJobStatus::Interrupted;
        job.error_message = Some(
            string_of(
                &chars_of("Recording was interrupted before any recoverable media was written."),
            ),
        );
    }
    job.touch();
}

/// Each job that was a restart candidate is matched, in order, by one
/// settled job of `settled`, given the disk probe of the same position;
/// other jobs are left out.
pub open spec fn settled_jobs(
    jobs: Seq<TikTokLiveJob>,
    probes: Seq<JobMediaProbe>,
    settled: Seq<TikTokLiveJob>,
) -> bool
    decreases jobs.len(),
{
    if jobs.len() == 0 {
        settled.len() == 0
    } else if jobs.last().status.restart_candidate() {
        &&& settled.len() > 0
        &&& probes.len() > 0
        &&& reconciled_job(jobs.last(), settled.last(), probes.last())
        &&& settled_jobs(jobs.drop_last(), probes.drop_last(), settled.drop_last())
    } else {
        probes.len() > 0 && settled_jobs(jobs.drop_last(), probes.drop_last(), settled)
    }
}

/// Settles the jobs that were running when the application stopped. Only
/// restart candidates are touched; they are returned, settled, in their
/// order, for the caller to store.
pub fn reconcile_tiktok_live_jobs_after_restart(
    jobs: Vec<TikTokLiveJob>,
    probes: &[JobMediaProbe],
) -> (r: Vec<TikTokLiveJob>)
    requires
        probes.len() == jobs.len(),
        forall|i: int|
            0 <= i < jobs.len() ==> (#[trigger] probes@[i]).segments_with_media.len()
                == jobs@[i].segment_paths.len(),
    ensures
        settled_jobs(jobs@, probes@, r@),
{
    let ghost all = jobs@;
    let mut rest = jobs;
    let mut out: Vec<TikTokLiveJob> = Vec::new();
    let mut k: usize = 0;
    assert(all.skip(0) =~= all);
    while rest.len() > 0
        invariant
            k <= all.len(),
            rest@ == all.skip(k as int),
            probes.len() == all.len(),
            forall|i: int|
                0 <= i < all.len() ==> (#[trigger] probes@[i]).segments_with_media.len()
                    == all[i].segment_paths.len(),
            settled_jobs(all.take(k as int), probes@.take(k as int), out@),
        decreases rest.len(),
    {
        let mut job = rest.remove(0);
        assert(job == all[k as int]);
        assert(all.take(k + 1).drop_last() =~= all.take(k as int));
        assert(probes@.take(k + 1).drop_last() =~= probes@.take(k as int));
        assert(all.skip(k as int).drop_first() =~= all.skip(k + 1));
        if job.status.is_restart_candidate() {
            reconcile_job_after_restart(&mut job, &probes[k]);
            let ghost before = out@;
            out.push(job);
            assert(out@.drop_last() =~= before);
        }
        k += 1;
    }
    assert(all.take(all.len() as int) =~= all);
    assert(probes@.take(all.len() as int) =~= probes@);
    out
}

} // verus!

verus! {

/// After a restart no job is left in an active state: every job that was
/// preparing, recording, reconnecting or finalizing is settled as
/// recoverable or interrupted.
pub proof fn law_restart_leaves_no_active_job(
    jobs: Seq<TikTokLiveJob>,
    probes: Seq<JobMediaProbe>,
    settled: Seq<TikTokLiveJob>,
)
    requires
        settled_jobs(jobs, probes, settled),
    ensures
        forall|i: int|
            0 <= i < settled.len() ==> ((#[trigger] settled[i]).status == TikTokLiveJobStatus::Recoverable
                || settled[i].status == TikTokLiveJobStatus::Interrupted),
    decreases jobs.len(),
{
    if jobs.len() > 0 {
        if jobs.last().status.restart_candidate() {
            law_restart_leaves_no_active_job(jobs.drop_last(), probes.drop_last(), settled.drop_last());
            assert forall|i: int| 0 <= i < settled.len() implies ((#[trigger] settled[i]).status
                == TikTokLiveJobStatus::Recoverable || settled[i].status
                == TikTokLiveJobStatus::Interrupted) by {
                if i < settled.len() - 1 {
                    assert(settled[i] == settled.drop_last()[i]);
                } else {
                    assert(settled[i] == settled.last());
                    assert(reconciled_job(jobs.last(), settled.last(), probes.last()));
                }
            }
        } else {
            law_restart_leaves_no_active_job(jobs.drop_last(), probes.drop_last(), settled);
        }
    }
}

/// The jobs that a restart settles: those that were still running.
pub open spec fn restart_candidates(jobs: Seq<TikTokLiveJob>) -> Seq<TikTokLiveJob> {
    jobs.filter(|j: TikTokLiveJob| j.status.restart_candidate())
}

/// Reconciling after a restart settles exactly the jobs that were still
/// running, each once and in their order: as many settled jobs as
/// candidates, each with its candidate's id.
pub proof fn law_restart_settles_each_candidate_once(
    jobs: Seq<TikTokLiveJob>,
    probes: Seq<JobMediaProbe>,
    settled: Seq<TikTokLiveJob>,
)
    requires
        settled_jobs(jobs, probes, settled),
    ensures
        settled.len() == restart_candidates(jobs).len(),
        forall|i: int| 0 <= i < settled.len() ==> (#[trigger] settled[i]).id == restart_candidates(jobs)[i].id,
    decreases jobs.len(),
{
    reveal_with_fuel(Seq::filter, 1);
    if jobs.len() > 0 {
        let rest = jobs.drop_last();
        let f = restart_candidates(jobs);
        let fp = restart_candidates(rest);
        if jobs.last().status.restart_candidate() {
            law_restart_settles_each_candidate_once(rest, probes.drop_last(), settled.drop_last());
            assert(f == fp.push(jobs.last()));
            assert forall|i: int| 0 <= i < settled.len() implies (#[trigger] settled[i]).id == f[i].id by {
                if i < settled.len() - 1 {
                    assert(settled[i] == settled.drop_last()[i]);
                    assert(f[i] == fp[i]);
                } else {
                    assert(reconciled_job(jobs.last(), settled.last(), probes.last()));
                }
            }
        } else {
            law_restart_settles_each_candidate_once(rest, probes.drop_last(), settled);
            assert(f == fp);
        }
    }
}

} // verus!
