//! Persisted TikTok Live recording jobs, their statuses, and the cache of
//! live-room identifiers per streamer.
use vstd::prelude::*;

use crate::clock::utc_now_timestamp;
use crate::text::{
    ostr, opt_view, all_digits, chars_of, drop_while, is_ascii_digit, is_lit, lower, lower_vec, push_str,
    string_of, trim, trim_start_class, trim_ws, CharClass,
};

verus! {

/// Where a recording job stands.
#[derive(Clone, Copy, PartialEq, Eq, Structural, Debug)]
pub enum TikTokLiveJobStatus {
    Preparing,
    Recording,
    Reconnecting,
    Interrupted,
    Recoverable,
    Finalizing,
    Completed,
    Partial,
    Cancelled,
    Failed,
}

impl TikTokLiveJobStatus {
    /// The name under which the status is stored.
    pub open spec fn name(self) -> Seq<char> {
        match self {
            TikTokLiveJobStatus::Preparing => "preparing"@,
            TikTokLiveJobStatus::Recording => "recording"@,
            TikTokLiveJobStatus::Reconnecting => "reconnecting"@,
            TikTokLiveJobStatus::Interrupted => "interrupted"@,
            TikTokLiveJobStatus::Recoverable => "recoverable"@,
            TikTokLiveJobStatus::Finalizing => "finalizing"@,
            TikTokLiveJobStatus::Completed => "completed"@,
            TikTokLiveJobStatus::Partial => "partial"@,
            TikTokLiveJobStatus::Cancelled => "cancelled"@,
            TikTokLiveJobStatus::Failed => "failed"@,
        }
    }

    /// The status stored under `name`, if any.
    pub open spec fn named(name: Seq<char>) -> Option<TikTokLiveJobStatus> {
        if name == "preparing"@ {
            Some(TikTokLiveJobStatus::Preparing)
        } else if name == "recording"@ {
            Some(TikTokLiveJobStatus::Recording)
        } else if name == "reconnecting"@ {
            Some(TikTokLiveJobStatus::Reconnecting)
        } else if name == "interrupted"@ {
            Some(TikTokLiveJobStatus::Interrupted)
        } else if name == "recoverable"@ {
            Some(TikTokLiveJobStatus::Recoverable)
        } else if name == "finalizing"@ {
            Some(TikTokLiveJobStatus::Finalizing)
        } else if name == "completed"@ {
            Some(TikTokLiveJobStatus::Completed)
        } else if name == "partial"@ {
            Some(TikTokLiveJobStatus::Partial)
        } else if name == "cancelled"@ {
            Some(TikTokLiveJobStatus::Cancelled)
        } else if name == "failed"@ {
            Some(TikTokLiveJobStatus::Failed)
        } else {
            None
        }
    }

    /// A job that stopped without finishing and can be picked up again.
    pub open spec fn resumable(self) -> bool {
        ||| self is Interrupted
        ||| self is Recoverable
        ||| self is Failed
    }

    /// A job that was still running, or waiting to be resumed, when the
    /// application stopped.
    pub open spec fn restart_candidate(self) -> bool {
        ||| self is Preparing
        ||| self is Recording
        ||| self is Reconnecting
        ||| self is Interrupted
        ||| self is Recoverable
        ||| self is Finalizing
    }

    pub fn as_str(self) -> (r: &'static str)
        ensures
            r@ == self.name(),
    {
        match self {
            TikTokLiveJobStatus::Preparing => "preparing",
            TikTokLiveJobStatus::Recording => "recording",
            TikTokLiveJobStatus::Reconnecting => "reconnecting",
            TikTokLiveJobStatus::Interrupted => "interrupted",
            TikTokLiveJobStatus::Recoverable => "recoverable",
            TikTokLiveJobStatus::Finalizing => "finalizing",
            TikTokLiveJobStatus::Completed => "completed",
            TikTokLiveJobStatus::Partial => "partial",
            TikTokLiveJobStatus::Cancelled => "cancelled",
            TikTokLiveJobStatus::Failed => "failed",
        }
    }

    pub fn can_resume(self) -> (r: bool)
        ensures
            r == self.resumable(),
    {
        match self {
            TikTokLiveJobStatus::Interrupted => true,
            TikTokLiveJobStatus::Recoverable => true,
            TikTokLiveJobStatus::Failed => true,
            _ => false,
        }
    }

    pub fn is_restart_candidate(self) -> (r: bool)
        ensures
            r == self.restart_candidate(),
    {
        match self {
            TikTokLiveJobStatus::Preparing => true,
            TikTokLiveJobStatus::Recording => true,
            TikTokLiveJobStatus::Reconnecting => true,
            TikTokLiveJobStatus::Interrupted => true,
            TikTokLiveJobStatus::Recoverable => true,
            TikTokLiveJobStatus::Finalizing => true,
            _ => false,
        }
    }

    /// The status stored under `value`; an unknown name is an error that
    /// quotes it.
    pub fn from_name(value: &str) -> (r: Result<TikTokLiveJobStatus, String>)
        ensures
            r matches Ok(s) ==> TikTokLiveJobStatus::named(value@) == Some(s),
            r matches Err(e) ==> TikTokLiveJobStatus::named(value@) is None && e@
                == "Unknown TikTok Live job status: "@ + value@,
            r is Ok <==> TikTokLiveJobStatus::named(value@) is Some,
    {
        let v = chars_of(value);
        if is_lit(&v, "preparing") {
            Ok(TikTokLiveJobStatus::Preparing)
        } else if is_lit(&v, "recording") {
            Ok(TikTokLiveJobStatus::Recording)
        } else if is_lit(&v, "reconnecting") {
            Ok(TikTokLiveJobStatus::Reconnecting)
        } else if is_lit(&v, "interrupted") {
            Ok(TikTokLiveJobStatus::Interrupted)
        } else if is_lit(&v, "recoverable") {
            Ok(TikTokLiveJobStatus::Recoverable)
        } else if is_lit(&v, "finalizing") {
            Ok(TikTokLiveJobStatus::Finalizing)
        } else if is_lit(&v, "completed") {
            Ok(TikTokLiveJobStatus::Completed)
        } else if is_lit(&v, "partial") {
            Ok(TikTokLiveJobStatus::Partial)
        } else if is_lit(&v, "cancelled") {
            Ok(TikTokLiveJobStatus::Cancelled)
        } else if is_lit(&v, "failed") {
            Ok(TikTokLiveJobStatus::Failed)
        } else {
            let mut m = chars_of("Unknown TikTok Live job status: ");
            push_str(&mut m, value);
            Err(string_of(&m))
        }
    }
}

/// A stored name reads back as the status it was stored for.
pub proof fn law_job_status_name_round_trip(status: TikTokLiveJobStatus)
    ensures
        TikTokLiveJobStatus::named(status.name()) == Some(status),
{
    reveal_strlit("preparing");
    assert("preparing"@.len() == 9 && "preparing"@[0] == 'p' && "preparing"@[1] == 'r');
    reveal_strlit("recording");
    assert("recording"@.len() == 9 && "recording"@[0] == 'r' && "recording"@[1] == 'e');
    reveal_strlit("reconnecting");
    assert("reconnecting"@.len() == 12 && "reconnecting"@[0] == 'r' && "reconnecting"@[1] == 'e');
    reveal_strlit("interrupted");
    assert("interrupted"@.len() == 11 && "interrupted"@[0] == 'i' && "interrupted"@[1] == 'n');
    reveal_strlit("recoverable");
    assert("recoverable"@.len() == 11 && "recoverable"@[0] == 'r' && "recoverable"@[1] == 'e');
    reveal_strlit("finalizing");
    assert("finalizing"@.len() == 10 && "finalizing"@[0] == 'f' && "finalizing"@[1] == 'i');
    reveal_strlit("completed");
    assert("completed"@.len() == 9 && "completed"@[0] == 'c' && "completed"@[1] == 'o');
    reveal_strlit("partial");
    assert("partial"@.len() == 7 && "partial"@[0] == 'p' && "partial"@[1] == 'a');
    reveal_strlit("cancelled");
    assert("cancelled"@.len() == 9 && "cancelled"@[0] == 'c' && "cancelled"@[1] == 'a');
    reveal_strlit("failed");
    assert("failed"@.len() == 6 && "failed"@[0] == 'f' && "failed"@[1] == 'a');
}

/// Every status that can be resumed is also picked up after a restart,
/// except a failed one; finished jobs are neither.
pub proof fn law_resumable_jobs_survive_restart(status: TikTokLiveJobStatus)
    ensures
        status.resumable() && !(status is Failed) ==> status.restart_candidate(),
        (status is Completed || status is Partial || status is Cancelled) ==> !status.resumable()
            && !status.restart_candidate(),
{
}

/// A recording job as it is persisted: what it records, where it writes and
/// how far it got. Signed stream addresses and request headers are never
/// part of it.
#[derive(Clone, Debug)]
pub struct TikTokLiveJob {
    pub id: String,
    pub target_input: String,
    pub target_url: String,
    pub username: Option<String>,
    pub title: String,
    pub thumbnail: Option<String>,
    pub output_dir: String,
    pub output_path: Option<String>,
    pub final_path: Option<String>,
    pub preferred_quality: Option<String>,
    pub preferred_transport: Option<String>,
    pub duration_seconds: Option<u32>,
    pub cookie_mode: Option<String>,
    pub cookie_browser: Option<String>,
    pub cookie_browser_profile: Option<String>,
    pub cookie_file_path: Option<String>,
    pub auto_reconnect: bool,
    pub status: TikTokLiveJobStatus,
    pub segment_paths: Vec<String>,
    pub refresh_count: u32,
    pub reconnect_count: u32,
    pub format_id: Option<String>,
    pub history_id: Option<String>,
    pub error_message: Option<String>,
    pub started_at: i64,
    pub updated_at: i64,
    pub completed_at: Option<i64>,
}

impl TikTokLiveJob {
    /// Marks the job as updated now; nothing else changes.
    pub fn touch(&mut self)
        ensures
            *final(self) == (TikTokLiveJob { updated_at: final(self).updated_at, ..*old(self) }),
    {
        self.updated_at = utc_now_timestamp();
    }
}

// ---------------------------------------------------------------------------
// Live-room cache
// ---------------------------------------------------------------------------

/// The live room last seen for a streamer.
#[derive(Clone, Debug, PartialEq, Eq)]
pub struct TikTokLiveRoomCacheEntry {
    pub username: String,
    pub room_id: String,
    pub session_id: Option<String>,
    pub observed_at: i64,
}

/// The cache key of a username: trimmed, without leading `@`, in ASCII lower
/// case.
pub open spec fn cache_username(username: Seq<char>) -> Seq<char> {
    lower(drop_while(trim(username), CharClass::One('@')))
}

pub fn normalize_cache_username(username: &str) -> (r: Result<String, String>)
    ensures
        r matches Ok(u) ==> u@ == cache_username(username@) && u@.len() > 0,
        r matches Err(e) ==> cache_username(username@).len() == 0 && e@
            == "TikTok Live cache username cannot be empty"@,
{
    let t = trim_ws(&chars_of(username));
    let s = trim_start_class(&t, &CharClass::One('@'));
    let n = lower_vec(&s);
    if n.len() == 0 {
        return Err(string_of(&chars_of("TikTok Live cache username cannot be empty")));
    }
    Ok(string_of(&n))
}

/// A room identifier is a non-empty run of ASCII digits, once trimmed.
pub open spec fn valid_room_id(room_id: Seq<char>) -> bool {
    trim(room_id).len() > 0 && all_digits(trim(room_id))
}

pub fn validate_room_id(room_id: &str) -> (r: Result<String, String>)
    ensures
        r is Ok <==> valid_room_id(room_id@),
        r matches Ok(v) ==> v@ == trim(room_id@),
        r matches Err(e) ==> e@ == "TikTok Live cache room ID must be numeric"@,
{
    let t = trim_ws(&chars_of(room_id));
    let mut all: bool = t.len() > 0;
    let mut k: usize = 0;
    while k < t.len()
        invariant
            k <= t.len(),
            all == (t@.len() > 0 && forall|j: int| 0 <= j < k ==> crate::text::is_digit(#[trigger] t@[j])),
        decreases t.len() - k,
    {
        if !is_ascii_digit(t[k]) {
            all = false;
        }
        k += 1;
    }
    if !all {
        return Err(string_of(&chars_of("TikTok Live cache room ID must be numeric")));
    }
    Ok(string_of(&t))
}

/// A session identifier worth keeping: trimmed and not empty.
pub open spec fn kept_session(session_id: Option<Seq<char>>) -> Option<Seq<char>> {
    match session_id {
        Some(s) => if trim(s).len() > 0 {
            Some(trim(s))
        } else {
            None
        },
        None => None,
    }
}

/// The entry to store for a streamer's room: the username normalized, the
/// room identifier validated, a blank session dropped. The username is
/// checked first.
pub fn prepare_tiktok_live_room_cache_entry(
    username: &str,
    room_id: &str,
    session_id: Option<&str>,
    observed_at: i64,
) -> (r: Result<TikTokLiveRoomCacheEntry, String>)
    ensures
        r is Ok <==> cache_username(username@).len() > 0 && valid_room_id(room_id@),
        r matches Ok(e) ==> e.username@ == cache_username(username@) && e.room_id@ == trim(
            room_id@,
        ) && ostr(e.session_id) == kept_session(
            opt_view(session_id),
        ) && e.observed_at == observed_at,
        r matches Err(e) ==> (cache_username(username@).len() == 0 && e@
            == "TikTok Live cache username cannot be empty"@) || (cache_username(username@).len()
            > 0 && !valid_room_id(room_id@) && e@ == "TikTok Live cache room ID must be numeric"@),
{
    let username = match normalize_cache_username(username) {
        Ok(u) => u,
        Err(e) => return Err(e),
    };
    let room_id = match validate_room_id(room_id) {
        Ok(v) => v,
        Err(e) => return Err(e),
    };
    let session = match session_id {
        Some(s) => {
            let t = trim_ws(&chars_of(s));
            if t.len() > 0 {
                Some(string_of(&t))
            } else {
                None
            }
        },
        None => None,
    };
    Ok(TikTokLiveRoomCacheEntry { username, room_id, session_id: session, observed_at })
}

} // verus!
