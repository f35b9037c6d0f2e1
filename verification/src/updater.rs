//! Leftover directories of the application's updater in the temporary
//! directory: which ones to remove, and the tally of a cleanup.
use vstd::prelude::*;

use crate::text::{
    chars_of, has_prefix, is_alnum, is_ascii_alphanumeric, push_str, rfind, starts_with, strip_prefix,
};

verus! {

/// How a cleanup went: directories removed, removals that failed, and
/// whether a directory of the running version was among them.
#[derive(Debug, PartialEq, Eq)]
pub struct UpdaterCleanupReport {
    pub removed: usize,
    pub failed: usize,
    pub current_version_detected: bool,
}

impl Default for UpdaterCleanupReport {
    fn default() -> (r: Self)
        ensures
            r.removed == 0,
            r.failed == 0,
            !r.current_version_detected,
    {
        UpdaterCleanupReport { removed: 0, failed: 0, current_version_detected: false }
    }
}

/// An updater directory: `Youwee-`, a non-empty version, `-updater-`, and a
/// six-character ASCII alphanumeric suffix (the last `-updater-` counts).
pub open spec fn updater_dir_name(name: Seq<char>) -> bool {
    has_prefix(name, "Youwee-"@) && {
        let rest = name.subrange(7, name.len() as int);
        match rfind(rest, "-updater-"@) {
            Some(i) => {
                let suffix = rest.subrange(i + 9, rest.len() as int);
                i > 0 && suffix.len() == 6 && forall|j: int|
                    0 <= j < suffix.len() ==> is_alnum(#[trigger] suffix[j])
            },
            None => false,
        }
    }
}

pub fn is_youwee_updater_temp_dir(name: &str) -> (r: bool)
    ensures
        r == updater_dir_name(name@),
{
    proof {
        reveal_strlit("Youwee-");
        reveal_strlit("-updater-");
    }
    let rest = match strip_prefix(&chars_of(name), &chars_of("Youwee-")) {
        Some(r) => r,
        None => return false,
    };
    let marker = chars_of("-updater-");
    let i = match crate::text::find_last(&rest, &marker) {
        Some(i) => i,
        None => return false,
    };
    proof {
        crate::text::lemma_rfind_upto(rest@, marker@, rest@.len() - marker@.len());
        assert(marker@.len() == 9);
        assert(i + 9 <= rest@.len());
    }
    if i == 0 {
        return false;
    }
    let rest_len = rest.len();
    assert(i + 9 <= rest_len);
    let start = i + 9;
    if rest.len() - start != 6 {
        return false;
    }
    let mut k: usize = start;
    while k < rest.len()
        invariant
            start <= k <= rest.len(),
            rest.len() - start == 6,
            rest@ == name@.subrange(7, name@.len() as int),
            has_prefix(name@, "Youwee-"@),
            rfind(rest@, "-updater-"@) == Some(i as int),
            start == i + 9,
            i > 0,
            forall|j: int| start <= j < k ==> is_alnum(#[trigger] rest@[j]),
        decreases rest.len() - k,
    {
        if !is_ascii_alphanumeric(rest[k]) {
            assert(rest@.subrange(start as int, rest@.len() as int)[k - start] == rest@[k as int]);
            return false;
        }
        k += 1;
    }
    assert forall|j: int|
        0 <= j < 6 implies is_alnum(#[trigger] rest@.subrange(start as int, rest@.len() as int)[j]) by {
        assert(rest@.subrange(start as int, rest@.len() as int)[j] == rest@[start + j]);
    }
    true
}

/// What a cleanup does with one entry of the temporary directory: whether
/// to remove it (an updater directory), and whether it belongs to the
/// running version. Entries whose name is not valid text are kept.
pub fn updater_entry_action(name: Option<&str>, is_directory: bool, current_version: &str) -> (r: (
    bool,
    bool,
))
    ensures
        r.0 == (is_directory && match name {
            Some(n) => updater_dir_name(n@),
            None => false,
        }),
        r.1 == (r.0 && match name {
            Some(n) => has_prefix(n@, "Youwee-"@ + current_version@ + "-updater-"@),
            None => false,
        }),
{
    let n = match name {
        Some(n) => n,
        None => return (false, false),
    };
    if !is_directory || !is_youwee_updater_temp_dir(n) {
        return (false, false);
    }
    let mut prefix = chars_of("Youwee-");
    push_str(&mut prefix, current_version);
    push_str(&mut prefix, "-updater-");
    (true, starts_with(&chars_of(n), &prefix))
}

/// Counts one removal attempt, and notes a directory of the running
/// version.
pub fn record_updater_removal(report: &mut UpdaterCleanupReport, current: bool, removed: bool)
    requires
        old(report).removed < usize::MAX,
        old(report).failed < usize::MAX,
    ensures
        final(report).removed == old(report).removed + if removed {
            1int
        } else {
            0int
        },
        final(report).failed == old(report).failed + if removed {
            0int
        } else {
            1int
        },
        final(report).current_version_detected == (old(report).current_version_detected
            || current),
{
    if current {
        report.current_version_detected = true;
    }
    if removed {
        report.removed = report.removed + 1;
    } else {
        report.failed = report.failed + 1;
    }
}

/// The report when the temporary directory cannot be read.
pub fn unreadable_temp_dir_report() -> (r: UpdaterCleanupReport)
    ensures
        r.removed == 0,
        r.failed == 1,
        !r.current_version_detected,
{
    UpdaterCleanupReport { removed: 0, failed: 1, current_version_detected: false }
}

} // verus!
