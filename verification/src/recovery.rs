//! Which files of an unfinished recording may be removed with its
//! recovery data: only the ones the recorder itself generated, inside the
//! job's output directory.
use vstd::prelude::*;

use crate::download::title_from_filepath;
use crate::jobs::TikTokLiveJob;
use crate::live::{
    all_ascii_digits, extension_of, path_extension, path_file_name, plain_file_name, portable_stem,
    portable_stem_of_file_name, single_component, stem_of,
    recoverable_output_path_for_recording,
};
use crate::text::{
    all_digits, chars_of, ends_with, find_last, has_prefix, has_suffix, opt_view, ostr, push_str,
    rfind, seq_eq, slice, starts_with, string_of, strs, text_less, lemma_text_less_total,
    lemma_text_less_transitive,
};

verus! {

// ---------------------------------------------------------------------------
// The name of a generated recording
// ---------------------------------------------------------------------------

/// A generated recording's name: an `mp4` whose stem ends in
/// `_YYYYMMDD_HHMMSS`.
pub open spec fn output_name_safe(extension: Option<Seq<char>>, stem: Option<Seq<char>>) -> bool {
    &&& extension == Some("mp4"@)
    &&& match stem {
        Some(s) => match rfind(s, "_"@) {
            Some(i) => {
                let time = s.subrange(i + 1, s.len() as int);
                let prefix = s.take(i);
                &&& time.len() == 6
                &&& all_digits(time)
                &&& match rfind(prefix, "_"@) {
                    Some(j) => {
                        let date = prefix.subrange(j + 1, i);
                        date.len() == 8 && all_digits(date)
                    },
                    None => false,
                }
            },
            None => false,
        },
        None => false,
    }
}

/// Whether an extension and a stem make the name of a generated recording.
pub fn output_name_is_safe(extension: Option<&str>, stem: Option<&str>) -> (r: bool)
    ensures
        r == output_name_safe(opt_view(extension), opt_view(stem)),
{
    proof {
        reveal_strlit("mp4");
        reveal_strlit("_");
    }
    let is_mp4 = match extension {
        Some(e) => seq_eq(&chars_of(e), &chars_of("mp4")),
        None => false,
    };
    if !is_mp4 {
        return false;
    }
    let s = match stem {
        Some(s) => chars_of(s),
        None => return false,
    };
    let underscore = chars_of("_");
    let i = match find_last(&s, &underscore) {
        Some(i) => i,
        None => return false,
    };
    proof {
        crate::text::lemma_rfind_upto(s@, "_"@, s@.len() - 1);
    }
    let n = s.len();
    let time = slice(&s, i + 1, n);
    if time.len() != 6 || !all_ascii_digits(&time) {
        return false;
    }
    let prefix = slice(&s, 0, i);
    match find_last(&prefix, &underscore) {
        Some(j) => {
            proof {
                crate::text::lemma_rfind_upto(prefix@, "_"@, prefix@.len() - 1);
            }
            let date = slice(&prefix, j + 1, i);
            date.len() == 8 && all_ascii_digits(&date)
        },
        None => false,
    }
}

/// Whether the file at `path` is named as the recorder names its output.
/// What the path's extension and stem are is the platform's to say.
pub fn recording_output_name_is_safe(path: &str) -> (r: bool)
    ensures
        exists|extension: Option<Seq<char>>, stem: Option<Seq<char>>|
            r == output_name_safe(extension, stem),
        plain_file_name(path@) ==> r == output_name_safe(extension_of(path@), Some(stem_of(path@))),
{
    let extension = path_extension(path);
    let stem = title_from_filepath(path);
    let e = match &extension {
        Some(e) => Some(e.as_str()),
        None => None,
    };
    let s = match &stem {
        Some(s) => Some(s.as_str()),
        None => None,
    };
    output_name_is_safe(e, s)
}


// ---------------------------------------------------------------------------
// The files a job owns
// ---------------------------------------------------------------------------

/// What the platform's path grammar says of one of a job's segment paths.
#[derive(Clone, Debug)]
pub struct SegmentPathFacts {
    /// Its parent is the job's output directory.
    pub in_output_dir: bool,
    /// The last component of the path, when it is text.
    pub file_name: Option<String>,
    /// It is the path where the recording's media is kept when it cannot
    /// become the final MP4.
    pub is_recoverable_output: bool,
}

/// What the platform's path grammar says of a job's final path.
#[derive(Clone, Debug)]
pub struct FinalPathFacts {
    pub in_output_dir: bool,
    /// It is the job's output path.
    pub is_output: bool,
    pub is_recoverable_output: bool,
    /// It is one of the job's segment paths.
    pub is_segment: bool,
}

/// What the platform's path grammar says of a job's paths.
#[derive(Clone, Debug)]
pub struct OwnedPathFacts {
    /// The output path's parent is the job's output directory.
    pub output_in_dir: bool,
    /// The output file is named as the recorder names it.
    pub output_name_safe: bool,
    /// The output path's stem, when it is text.
    pub output_stem: Option<String>,
    /// The playlist of segments kept next to the output.
    pub concat_list_path: String,
    /// One for each segment path, in order.
    pub segments: Vec<SegmentPathFacts>,
    /// For the final path, when the job has one.
    pub final_path: Option<FinalPathFacts>,
}

pub open spec fn or_empty(s: Option<Seq<char>>) -> Seq<char> {
    match s {
        Some(t) => t,
        None => Seq::empty(),
    }
}

/// A segment the recorder generated: in the output directory, and either
/// named `<stem>.part-….mkv` or the recording's recoverable media.
pub open spec fn segment_owned(stem: Seq<char>, f: SegmentPathFacts) -> bool {
    let name = or_empty(ostr(f.file_name));
    f.in_output_dir && ((has_prefix(name, stem + ".part-"@) && has_suffix(name, ".mkv"@))
        || f.is_recoverable_output)
}

/// A final file the recorder generated: in the output directory, and the
/// output, the recoverable media or one of the segments.
pub open spec fn final_owned(f: FinalPathFacts) -> bool {
    f.in_output_dir && (f.is_output || f.is_recoverable_output || f.is_segment)
}

/// The paths of `s` without repetitions, each where it first occurs.
pub open spec fn distinct_in_order(s: Seq<Seq<char>>) -> Seq<Seq<char>>
    decreases s.len(),
{
    if s.len() == 0 {
        s
    } else if s.drop_last().contains(s.last()) {
        distinct_in_order(s.drop_last())
    } else {
        distinct_in_order(s.drop_last()).push(s.last())
    }
}

/// The files of a job that its recovery data may take with it: its output,
/// the playlist of its segments, its segments and its final file, each
/// once, when every one of them is a file the recorder generated in the
/// job's output directory; otherwise the reason for refusing.
pub open spec fn owned_paths_outcome(job: TikTokLiveJob, facts: OwnedPathFacts) -> Result<
    Seq<Seq<char>>,
    Seq<char>,
> {
    match job.output_path {
        None => Err("TikTok Live job has no generated output path."@),
        Some(output) => if !facts.output_in_dir || !facts.output_name_safe {
            Err("Refusing to remove an unrecognized TikTok Live output path."@)
        } else {
            match ostr(facts.output_stem) {
                None => Err("TikTok Live output filename is invalid."@),
                Some(stem) => if exists|i: int|
                    0 <= i < facts.segments.len() && !segment_owned(stem, #[trigger] facts.segments@[i]) {
                    Err("Refusing to remove an unrecognized TikTok Live segment path."@)
                } else {
                    match (job.final_path, facts.final_path) {
                        (Some(f), Some(ff)) => if !final_owned(ff) {
                            Err("Refusing to remove an unrecognized TikTok Live final path."@)
                        } else {
                            Ok(distinct_in_order(seq![output@, facts.concat_list_path@] + strs(job.segment_paths@).push(f@)))
                        },
                        _ => Ok(distinct_in_order(seq![output@, facts.concat_list_path@] + strs(job.segment_paths@))),
                    }
                },
            }
        },
    }
}

/// Facts that describe a job's paths: one for each segment, and one for the
/// final path exactly when there is one.
pub open spec fn facts_fit(job: TikTokLiveJob, facts: OwnedPathFacts) -> bool {
    &&& facts.segments.len() == job.segment_paths.len()
    &&& (facts.final_path is Some <==> job.final_path is Some)
}

/// The path where a bare output file's media is kept when it cannot become
/// the final MP4; unknown for other paths.
pub open spec fn documented_recoverable(output: Seq<char>) -> Option<Seq<char>> {
    if plain_file_name(output) {
        Some(stem_of(output) + ".mkv"@)
    } else {
        None
    }
}

/// What is known, on every platform, of the facts about a segment path.
pub open spec fn segment_documented(p: Seq<char>, f: SegmentPathFacts, dir: Seq<char>, rec: Option<Seq<char>>) -> bool {
    &&& in_dir_documented(p, dir, f.in_output_dir)
    &&& plain_file_name(p) ==> ostr(f.file_name) == Some(p)
    &&& f.file_name is Some ==> crate::live::no_slash(f.file_name.unwrap()@)
    &&& (rec is Some && p == rec.unwrap()) ==> f.is_recoverable_output
    &&& (rec is Some && single_component(p)) ==> f.is_recoverable_output == (p == rec.unwrap())
}

/// What is known, on every platform, of the facts about the final path.
pub open spec fn final_documented(
    p: Seq<char>,
    f: FinalPathFacts,
    output: Seq<char>,
    dir: Seq<char>,
    rec: Option<Seq<char>>,
    segments: Seq<Seq<char>>,
) -> bool {
    &&& in_dir_documented(p, dir, f.in_output_dir)
    &&& p == output ==> f.is_output
    &&& bare(p) && bare(output) ==> f.is_output == (p == output)
    &&& (rec is Some && p == rec.unwrap()) ==> f.is_recoverable_output
    &&& (rec is Some && single_component(p)) ==> f.is_recoverable_output == (p == rec.unwrap())
    &&& segments.contains(p) ==> f.is_segment
    &&& bare(p) && (forall|k: int| 0 <= k < segments.len() ==> bare(#[trigger] segments[k]))
        ==> f.is_segment == segments.contains(p)
}

/// What is known, on every platform, of the facts about a job's paths:
/// where the documented path grammar decides (empty paths and paths of one
/// component), the facts are what it says.
pub open spec fn facts_documented(job: TikTokLiveJob, facts: OwnedPathFacts) -> bool {
    let o = match job.output_path {
        Some(o) => o@,
        None => Seq::empty(),
    };
    let d = job.output_dir@;
    let rec = documented_recoverable(o);
    &&& in_dir_documented(o, d, facts.output_in_dir)
    &&& plain_file_name(o) ==> ostr(facts.output_stem) == Some(stem_of(o))
    &&& plain_file_name(o) ==> facts.output_name_safe == output_name_safe(extension_of(o), Some(stem_of(o)))
    &&& plain_file_name(o) ==> facts.concat_list_path@ == stem_of(o) + ".ffconcat"@
    &&& forall|k: int|
        0 <= k < facts.segments.len() ==> segment_documented(
            job.segment_paths@[k]@,
            #[trigger] facts.segments@[k],
            d,
            rec,
        )
    &&& (job.final_path is Some && facts.final_path is Some) ==> final_documented(
        job.final_path.unwrap()@,
        facts.final_path.unwrap(),
        o,
        d,
        rec,
        strs(job.segment_paths@),
    )
}

proof fn lemma_recoverable_single(output: Seq<char>)
    requires
        plain_file_name(output),
    ensures
        single_component(stem_of(output) + ".mkv"@),
{
    crate::live::lemma_stem_of(output);
    reveal_strlit(".mkv");
    let t = stem_of(output) + ".mkv"@;
    assert forall|i: int| 0 <= i < t.len() implies t[i] != '/' && t[i] != '\\' && t[i] != ':' by {
        if i < stem_of(output).len() {
            assert(t[i] == output[i]);
        }
    }
}

proof fn lemma_distinct_contains(s: Seq<Seq<char>>)
    ensures
        forall|x: Seq<char>| #![auto] distinct_in_order(s).contains(x) <==> s.contains(x),
    decreases s.len(),
{
    if s.len() > 0 {
        let p = s.drop_last();
        let l = s.last();
        lemma_distinct_contains(p);
        let d = distinct_in_order(p);
        assert forall|x: Seq<char>| #![auto] distinct_in_order(s).contains(x) <==> s.contains(x) by {
            if s.contains(x) {
                let k = choose|k: int| 0 <= k < s.len() && s[k] == x;
                if k < s.len() - 1 {
                    assert(p[k] == x);
                    assert(p.contains(x));
                } else {
                    assert(x == l);
                }
            }
            if p.contains(x) {
                let k = choose|k: int| 0 <= k < p.len() && p[k] == x;
                assert(s[k] == x);
            }
            assert(s[s.len() - 1] == l);
            if p.contains(l) {
                assert(distinct_in_order(s) == d);
            } else {
                assert(distinct_in_order(s) == d.push(l));
                if d.push(l).contains(x) {
                    let k = choose|k: int| 0 <= k < d.push(l).len() && d.push(l)[k] == x;
                    if k < d.len() {
                        assert(d[k] == x);
                    }
                }
                if d.contains(x) {
                    let k = choose|k: int| 0 <= k < d.len() && d[k] == x;
                    assert(d.push(l)[k] == x);
                }
                assert(d.push(l)[d.len() as int] == l);
            }
        }
    }
}

/// A name the recorder gives its own files for an output with stem `stem`:
/// the output itself, its playlist, its recoverable media, or a segment.
pub open spec fn generated_name(p: Seq<char>, output: Seq<char>) -> bool {
    let stem = stem_of(output);
    ||| p == output
    ||| p == stem + ".ffconcat"@
    ||| p == stem + ".mkv"@
    ||| (has_prefix(p, stem + ".part-"@) && has_suffix(p, ".mkv"@))
}

/// Deletion only takes what the recorder generated: for a job whose output
/// and files are bare file names (so that every platform reads them alike),
/// each file its recovery data takes with it is the output, its playlist,
/// its recoverable media or one of its `<stem>.part-….mkv` segments.
pub proof fn law_recovery_deletes_only_generated_files(job: TikTokLiveJob, facts: OwnedPathFacts)
    requires
        facts_fit(job, facts),
        facts_documented(job, facts),
        job.output_path is Some && plain_file_name(job.output_path.unwrap()@),
        forall|k: int| 0 <= k < job.segment_paths.len() ==> plain_file_name(#[trigger] job.segment_paths@[k]@),
        job.final_path is Some ==> plain_file_name(job.final_path.unwrap()@),
    ensures
        owned_paths_outcome(job, facts) matches Ok(paths) ==> forall|p: Seq<char>|
            #![auto]
            paths.contains(p) ==> generated_name(p, job.output_path.unwrap()@),
{
    let o = job.output_path.unwrap()@;
    let stem = stem_of(o);
    let rec = documented_recoverable(o);
    law_owned_paths_are_the_jobs_files(job, facts);
    reveal_strlit(".mkv");
    if owned_paths_outcome(job, facts) is Ok {
        let paths = owned_paths_outcome(job, facts)->Ok_0;
        assert(ostr(facts.output_stem) == Some(stem));
        assert forall|p: Seq<char>| #![auto] paths.contains(p) implies generated_name(p, o) by {
            assert(job_file(job, facts, p));
            if strs(job.segment_paths@).contains(p) {
                let k = choose|k: int| 0 <= k < strs(job.segment_paths@).len() && strs(job.segment_paths@)[k] == p;
                assert(job.segment_paths@[k]@ == p);
                assert(segment_owned(stem, facts.segments@[k]));
                assert(segment_documented(p, facts.segments@[k], job.output_dir@, rec));
            } else if job.final_path is Some && p == job.final_path.unwrap()@ && p != o && p
                != facts.concat_list_path@ {
                let ff = facts.final_path.unwrap();
                assert(final_documented(p, ff, o, job.output_dir@, rec, strs(job.segment_paths@)));
                assert(final_owned(ff));
                lemma_recoverable_single(o);
                assert forall|m: int| 0 <= m < strs(job.segment_paths@).len() implies bare(
                    #[trigger] strs(job.segment_paths@)[m],
                ) by {
                    assert(strs(job.segment_paths@)[m] == job.segment_paths@[m]@);
                }
            }
        }
    }
}

proof fn lemma_distinct_no_duplicates(s: Seq<Seq<char>>)
    ensures
        distinct_in_order(s).no_duplicates(),
    decreases s.len(),
{
    if s.len() > 0 {
        let p = s.drop_last();
        lemma_distinct_no_duplicates(p);
        lemma_distinct_contains(p);
        let d = distinct_in_order(p);
        if !p.contains(s.last()) {
            assert(!d.contains(s.last()));
            assert forall|i: int, j: int|
                0 <= i < d.push(s.last()).len() && 0 <= j < d.push(s.last()).len() && i != j implies d.push(
                s.last(),
            )[i] != d.push(s.last())[j] by {
                if i == d.len() as int {
                    assert(d.contains(d[j]));
                } else if j == d.len() as int {
                    assert(d.contains(d[i]));
                }
            }
        }
    }
}

/// One of a job's own files: its output, the playlist of its segments, one
/// of its segments or its final file.
pub open spec fn job_file(job: TikTokLiveJob, facts: OwnedPathFacts, p: Seq<char>) -> bool {
    ||| (job.output_path is Some && p == job.output_path.unwrap()@)
    ||| p == facts.concat_list_path@
    ||| strs(job.segment_paths@).contains(p)
    ||| (job.final_path is Some && p == job.final_path.unwrap()@)
}

/// The files that a job's recovery data takes with it are the job's own:
/// each is its output, the playlist of its segments, one of its segments
/// or its final file, each is listed once, and all of them are listed.
pub proof fn law_owned_paths_are_the_jobs_files(job: TikTokLiveJob, facts: OwnedPathFacts)
    requires
        facts_fit(job, facts),
    ensures
        owned_paths_outcome(job, facts) matches Ok(paths) ==> {
            &&& paths.no_duplicates()
            &&& forall|p: Seq<char>| #![auto] paths.contains(p) <==> job_file(job, facts, p)
        },
{
    if let Some(o) = job.output_path {
        let base = seq![o@, facts.concat_list_path@] + strs(job.segment_paths@);
        let all = match job.final_path {
            Some(f) => base.push(f@),
            None => base,
        };
        lemma_distinct_no_duplicates(all);
        lemma_distinct_contains(all);
        if owned_paths_outcome(job, facts) is Ok {
            assert(owned_paths_outcome(job, facts)->Ok_0 == distinct_in_order(all));
        }
        assert forall|p: Seq<char>| #![auto] all.contains(p) <==> job_file(job, facts, p) by {
            if all.contains(p) {
                let k = choose|k: int| 0 <= k < all.len() && all[k] == p;
                if 2 <= k < base.len() {
                    assert(strs(job.segment_paths@)[k - 2] == p);
                }
            }
            if strs(job.segment_paths@).contains(p) {
                let k = choose|k: int| 0 <= k < strs(job.segment_paths@).len() && strs(job.segment_paths@)[k] == p;
                assert(all[k + 2] == p);
            }
            assert(all[0] == o@);
            assert(all[1] == facts.concat_list_path@);
            if job.final_path is Some {
                assert(all[base.len() as int] == job.final_path.unwrap()@);
            }
        }
        assert forall|p: Seq<char>| #![auto] distinct_in_order(all).contains(p) <==> job_file(job, facts, p) by {
            assert(distinct_in_order(all).contains(p) <==> all.contains(p));
        }
    }
}

fn contains_path(paths: &Vec<String>, path: &str) -> (r: bool)
    ensures
        r == strs(paths@).contains(path@),
{
    let p = chars_of(path);
    let mut i: usize = 0;
    while i < paths.len()
        invariant
            i <= paths.len(),
            p@ == path@,
            forall|k: int| 0 <= k < i ==> paths@[k]@ != path@,
        decreases paths.len() - i,
    {
        if seq_eq(&chars_of(paths[i].as_str()), &p) {
            assert(strs(paths@)[i as int] == path@);
            return true;
        }
        i += 1;
    }
    proof {
        if strs(paths@).contains(path@) {
            let k = choose|k: int| 0 <= k < strs(paths@).len() && strs(paths@)[k] == path@;
            assert(paths@[k]@ == path@);
        }
    }
    false
}

/// Adds a path to a list of distinct paths unless it is already there.
fn push_distinct(out: &mut Vec<String>, seen: Ghost<Seq<Seq<char>>>, path: &str)
    requires
        strs(old(out)@) == distinct_in_order(seen@),
    ensures
        strs(final(out)@) == distinct_in_order(seen@.push(path@)),
{
    proof {
        lemma_distinct_contains(seen@);
        assert(seen@.push(path@).drop_last() =~= seen@);
    }
    if !contains_path(out, path) {
        let ghost before = strs(out@);
        out.push(string_of(&chars_of(path)));
        assert(strs(out@) =~= before.push(path@));
    }
}

/// `paths` lists the members of `candidates`, each once, in some order.
pub open spec fn lists_same(paths: Seq<Seq<char>>, candidates: Seq<Seq<char>>) -> bool {
    &&& paths.no_duplicates()
    &&& paths.len() == candidates.len()
    &&& forall|p: Seq<char>| #![auto] paths.contains(p) <==> candidates.contains(p)
}

/// Texts in increasing order, each before the next as `text_less` orders
/// them, whenever all of them are bare file names (the order `Path` gives
/// files of one folder by their names).
pub open spec fn sorted_when_plain(s: Seq<Seq<char>>) -> bool {
    (forall|k: int| 0 <= k < s.len() ==> plain_file_name(#[trigger] s[k])) ==> forall|a: int, b: int|
        0 <= a < b < s.len() ==> text_less(#[trigger] s[a], #[trigger] s[b])
}

/// The outcome of `owned_paths_outcome`, with the paths in the order that
/// `Path` gives them: by name, where all of them are bare file names.
pub open spec fn owned_paths_listed(outcome: Result<Seq<Seq<char>>, Seq<char>>, r: Result<Seq<Seq<char>>, Seq<char>>) -> bool {
    match r {
        Ok(paths) => outcome matches Ok(c) && lists_same(paths, c) && sorted_when_plain(paths),
        Err(m) => outcome == Err::<Seq<Seq<char>>, Seq<char>>(m),
    }
}

pub open spec fn result_view(r: Result<Vec<String>, String>) -> Result<Seq<Seq<char>>, Seq<char>> {
    match r {
        Ok(paths) => Ok(strs(paths@)),
        Err(m) => Err(m@),
    }
}

/// `<` on `std::path::Path`, which orders paths by their components, and
/// components by their bytes. Trusted: two bare file names (one component
/// each on every platform) are ordered as their texts, since UTF-8 keeps
/// the order of code points. How other texts split into components depends
/// on the platform's separators and is not stated.
#[verifier::external_body]
fn path_precedes(a: &str, b: &str) -> (r: bool)
    ensures
        plain_file_name(a@) && plain_file_name(b@) ==> r == text_less(a@, b@),
{
    std::path::Path::new(a) < std::path::Path::new(b)
}

proof fn lemma_insert_members(s: Seq<Seq<char>>, j: int, x: Seq<char>)
    requires
        0 <= j <= s.len(),
        s.no_duplicates(),
        !s.contains(x),
    ensures
        s.insert(j, x).no_duplicates(),
        forall|p: Seq<char>| #![auto] s.insert(j, x).contains(p) <==> (s.contains(p) || p == x),
{
    let t = s.insert(j, x);
    assert forall|p: Seq<char>| #![auto] t.contains(p) <==> (s.contains(p) || p == x) by {
        if t.contains(p) {
            let k = choose|k: int| 0 <= k < t.len() && t[k] == p;
            if k < j {
                assert(s[k] == p);
            } else if k > j {
                assert(s[k - 1] == p);
            }
        }
        if s.contains(p) {
            let k = choose|k: int| 0 <= k < s.len() && s[k] == p;
            if k < j {
                assert(t[k] == p);
            } else {
                assert(t[k + 1] == p);
            }
        }
        if p == x {
            assert(t[j] == x);
        }
    }
    assert forall|a: int, b: int| 0 <= a < t.len() && 0 <= b < t.len() && a != b implies t[a] != t[b] by {
        let sa = if a < j { a } else { a - 1 };
        let sb = if b < j { b } else { b - 1 };
        if a == j {
            assert(s.contains(t[b]));
        } else if b == j {
            assert(s.contains(t[a]));
        } else {
            assert(t[a] == s[sa]);
            assert(t[b] == s[sb]);
        }
    }
}

/// Inserting `x` at `j` keeps texts sorted when everything before `j`
/// precedes `x` and `x` precedes everything from `j` on.
proof fn lemma_insert_sorted(s: Seq<Seq<char>>, j: int, x: Seq<char>)
    requires
        0 <= j <= s.len(),
        forall|a: int, b: int| 0 <= a < b < s.len() ==> text_less(#[trigger] s[a], #[trigger] s[b]),
        forall|k: int| 0 <= k < j ==> text_less(#[trigger] s[k], x),
        forall|k: int| j <= k < s.len() ==> text_less(x, #[trigger] s[k]),
    ensures
        forall|a: int, b: int|
            0 <= a < b < s.len() + 1 ==> text_less(#[trigger] s.insert(j, x)[a], #[trigger] s.insert(j, x)[b]),
{
    let t = s.insert(j, x);
    assert forall|a: int, b: int| 0 <= a < b < s.len() + 1 implies text_less(#[trigger] t[a], #[trigger] t[b]) by {
        if a == j {
            assert(t[b] == s[b - 1]);
        } else if b == j {
            assert(t[a] == s[a]);
        } else {
            let sa = if a < j { a } else { a - 1 };
            let sb = if b < j { b } else { b - 1 };
            assert(t[a] == s[sa]);
            assert(t[b] == s[sb]);
        }
    }
}

/// Puts distinct paths in the order `Path` gives them (an insertion sort);
/// the members stay the same.
fn sort_paths(paths: Vec<String>) -> (r: Vec<String>)
    requires
        strs(paths@).no_duplicates(),
    ensures
        lists_same(strs(r@), strs(paths@)),
        sorted_when_plain(strs(r@)),
{
    let ghost all = strs(paths@);
    let ghost plain = forall|k: int| 0 <= k < all.len() ==> plain_file_name(#[trigger] all[k]);
    let mut out: Vec<String> = Vec::new();
    let mut i: usize = 0;
    while i < paths.len()
        invariant
            i <= paths.len(),
            all == strs(paths@),
            all.no_duplicates(),
            plain == forall|k: int| 0 <= k < all.len() ==> plain_file_name(#[trigger] all[k]),
            out.len() == i,
            strs(out@).no_duplicates(),
            forall|p: Seq<char>| #![auto] strs(out@).contains(p) <==> all.take(i as int).contains(p),
            plain ==> forall|k: int| 0 <= k < out.len() ==> plain_file_name(#[trigger] strs(out@)[k]),
            plain ==> forall|a: int, b: int|
                0 <= a < b < out.len() ==> text_less(#[trigger] strs(out@)[a], #[trigger] strs(out@)[b]),
        decreases paths.len() - i,
    {
        let ghost kept = out@;
        let ghost x = all[i as int];
        let mut j: usize = 0;
        while j < out.len() && !path_precedes(paths[i].as_str(), out[j].as_str())
            invariant
                j <= out.len(),
                i < paths.len(),
                out@ == kept,
                all == strs(paths@),
                x == all[i as int],
                plain == forall|k: int| 0 <= k < all.len() ==> plain_file_name(#[trigger] all[k]),
                plain ==> forall|k: int| 0 <= k < out.len() ==> plain_file_name(#[trigger] strs(out@)[k]),
                plain ==> forall|k: int| 0 <= k < j ==> !text_less(x, #[trigger] strs(out@)[k]),
            decreases out.len() - j,
        {
            assert(strs(out@)[j as int] == out@[j as int]@);
            j += 1;
        }
        let ghost before = strs(out@);
        proof {
            let t0 = all.take(i as int);
            let t1 = all.take(i + 1);
            assert(t1 =~= t0.push(x));
            assert forall|p: Seq<char>| #![auto] t1.contains(p) <==> (t0.contains(p) || p == x) by {
                if t1.contains(p) {
                    let k = choose|k: int| 0 <= k < t1.len() && t1[k] == p;
                    if k < t0.len() {
                        assert(t0[k] == p);
                    }
                }
                if t0.contains(p) {
                    let k = choose|k: int| 0 <= k < t0.len() && t0[k] == p;
                    assert(t1[k] == p);
                }
                if p == x {
                    assert(t1[t0.len() as int] == x);
                }
            }
            if t0.contains(x) {
                let k = choose|k: int| 0 <= k < t0.len() && t0[k] == x;
                assert(all[k] == all[i as int]);
            }
            lemma_insert_members(before, j as int, x);
            if plain {
                assert(plain_file_name(all[i as int]));
                if j < out.len() {
                    assert(before[j as int] == out@[j as int]@);
                }
                assert forall|k: int| 0 <= k < j implies text_less(#[trigger] before[k], x) by {
                    assert(before.contains(before[k]));
                    lemma_text_less_total(x, before[k]);
                }
                assert forall|k: int| j <= k < before.len() implies text_less(x, #[trigger] before[k]) by {
                    if k > j {
                        lemma_text_less_transitive(x, before[j as int], before[k]);
                    }
                }
                lemma_insert_sorted(before, j as int, x);
            }
        }
        out.insert(j, string_of(&chars_of(paths[i].as_str())));
        assert(strs(out@) =~= before.insert(j as int, x));
        assert forall|p: Seq<char>| #![auto] strs(out@).contains(p) <==> all.take(i + 1).contains(p) by {
            assert(before.insert(j as int, x).contains(p) <==> (before.contains(p) || p == x));
            assert(before.contains(p) <==> all.take(i as int).contains(p));
            assert(all.take(i + 1).contains(p) <==> (all.take(i as int).contains(p) || p == x));
        }
        proof {
            if plain {
                assert forall|k: int| 0 <= k < out.len() implies plain_file_name(#[trigger] strs(out@)[k]) by {
                    if k != j {
                        let sk = if k < j { k } else { k - 1 };
                        assert(strs(out@)[k] == before[sk]);
                    }
                }
            }
        }
        i += 1;
    }
    assert(all.take(i as int) =~= all);
    proof {
        let r = strs(out@);
        if forall|k: int| 0 <= k < r.len() ==> plain_file_name(#[trigger] r[k]) {
            assert forall|k: int| 0 <= k < all.len() implies plain_file_name(#[trigger] all[k]) by {
                assert(all.contains(all[k]));
                assert(r.contains(all[k]));
                let m = choose|m: int| 0 <= m < r.len() && r[m] == all[k];
                assert(plain_file_name(r[m]));
            }
        }
    }
    out
}

/// The files of a job that its recovery data may take with it, decided
/// from what the platform says of its paths (see `owned_paths_outcome`).
pub fn owned_paths_from_facts(job: &TikTokLiveJob, facts: &OwnedPathFacts) -> (r: Result<
    Vec<String>,
    String,
>)
    requires
        facts_fit(*job, *facts),
    ensures
        owned_paths_listed(owned_paths_outcome(*job, *facts), result_view(r)),
{
    proof {
        reveal_strlit(".part-");
        reveal_strlit(".mkv");
    }
    let output = match &job.output_path {
        Some(o) => o,
        None => return Err(string_of(&chars_of("TikTok Live job has no generated output path."))),
    };
    if !facts.output_in_dir || !facts.output_name_safe {
        return Err(string_of(&chars_of("Refusing to remove an unrecognized TikTok Live output path.")));
    }
    let stem = match &facts.output_stem {
        Some(s) => s,
        None => return Err(string_of(&chars_of("TikTok Live output filename is invalid."))),
    };
    let mut prefix = chars_of(stem.as_str());
    push_str(&mut prefix, ".part-");
    let suffix = chars_of(".mkv");
    let mut i: usize = 0;
    while i < facts.segments.len()
        invariant
            i <= facts.segments.len(),
            prefix@ == stem@ + ".part-"@,
            suffix@ == ".mkv"@,
            job.output_path is Some,
            facts.output_in_dir && facts.output_name_safe,
            ostr(facts.output_stem) == Some(stem@),
            forall|k: int| 0 <= k < i ==> segment_owned(stem@, #[trigger] facts.segments@[k]),
        decreases facts.segments.len() - i,
    {
        let f = &facts.segments[i];
        let name = match &f.file_name {
            Some(n) => chars_of(n.as_str()),
            None => Vec::new(),
        };
        assert(name@ == or_empty(ostr(f.file_name)));
        let generated = starts_with(&name, &prefix) && ends_with(&name, &suffix);
        if !f.in_output_dir || !(generated || f.is_recoverable_output) {
            assert(!segment_owned(stem@, facts.segments@[i as int]));
            return Err(string_of(&chars_of("Refusing to remove an unrecognized TikTok Live segment path.")));
        }
        i += 1;
    }
    if let (Some(_), Some(ff)) = (&job.final_path, &facts.final_path) {
        if !(ff.in_output_dir && (ff.is_output || ff.is_recoverable_output || ff.is_segment)) {
            return Err(string_of(&chars_of("Refusing to remove an unrecognized TikTok Live final path.")));
        }
    }
    let mut out: Vec<String> = Vec::new();
    let ghost mut seen: Seq<Seq<char>> = Seq::empty();
    assert(strs(out@) =~= distinct_in_order(seen));
    push_distinct(&mut out, Ghost(seen), output.as_str());
    proof { seen = seen.push(output@); }
    push_distinct(&mut out, Ghost(seen), facts.concat_list_path.as_str());
    proof { seen = seen.push(facts.concat_list_path@); }
    let mut j: usize = 0;
    while j < job.segment_paths.len()
        invariant
            j <= job.segment_paths.len(),
            seen == seq![output@, facts.concat_list_path@] + strs(job.segment_paths@).take(j as int),
            strs(out@) == distinct_in_order(seen),
        decreases job.segment_paths.len() - j,
    {
        push_distinct(&mut out, Ghost(seen), job.segment_paths[j].as_str());
        proof {
            seen = seen.push(job.segment_paths@[j as int]@);
            assert(seen =~= seq![output@, facts.concat_list_path@] + strs(job.segment_paths@).take(j + 1));
        }
        j += 1;
    }
    assert(strs(job.segment_paths@).take(j as int) =~= strs(job.segment_paths@));
    let ghost mut cands = seen;
    if let Some(f) = &job.final_path {
        push_distinct(&mut out, Ghost(seen), f.as_str());
        proof {
            cands = seen.push(f@);
            assert(seen.push(f@) =~= seq![output@, facts.concat_list_path@] + strs(job.segment_paths@).push(f@));
        }
    }
    proof {
        lemma_distinct_no_duplicates(cands);
    }
    Ok(sort_paths(out))
}


/// `std::path::Path::parent`, read back as text. Trusted, as its
/// documentation says: the empty path has no parent, and a relative path of
/// one component has the empty path as parent. Which part of any other path
/// is its parent depends on the platform's separators and is not stated.
#[verifier::external_body]
fn path_parent(path: &str) -> (r: Option<String>)
    ensures
        path@.len() == 0 ==> r is None,
        single_component(path@) ==> ostr(r) == Some(Seq::<char>::empty()),
{
    std::path::Path::new(path).parent().and_then(|value| value.to_str()).map(str::to_string)
}

/// A path of at most one component on every platform: empty, or one
/// relative component.
pub open spec fn bare(p: Seq<char>) -> bool {
    p.len() == 0 || single_component(p)
}

/// `==` on `std::path::Path`, which compares paths by their components.
/// Trusted, as documented: a path equals itself, and paths of at most one
/// component are equal exactly when their components are, that is, when
/// their texts are. Which other texts name the same path depends on the
/// platform's separators and is not stated.
#[verifier::external_body]
fn same_path(a: &str, b: &str) -> (r: bool)
    ensures
        a@ == b@ ==> r,
        bare(a@) && bare(b@) ==> r == (a@ == b@),
{
    std::path::Path::new(a) == std::path::Path::new(b)
}

/// `std::path::Path::with_file_name`, read back as text (lossily where it
/// is not UTF-8). Trusted, as its documentation says: the path's last
/// component is dropped, if it has one, and the path is extended with
/// `file_name` (`PathBuf::pop`, then `PathBuf::push`), so a name without
/// separators, other than `.` and `..`, ends the result. What stands before
/// it depends on the platform's separators and is not stated.
#[verifier::external_body]
fn path_with_file_name(path: &str, file_name: &str) -> (r: String)
    ensures
        (file_name@.len() > 0 && file_name@ != "."@ && file_name@ != ".."@ && forall|i: int|
            0 <= i < file_name@.len() ==> file_name@[i] != '/' && file_name@[i] != '\\')
            ==> has_suffix(r@, file_name@),
        (plain_file_name(path@) && file_name@.len() > 0 && file_name@ != "."@ && file_name@ != ".."@
            && forall|i: int| 0 <= i < file_name@.len() ==> file_name@[i] != '/' && file_name@[i] != '\\')
            ==> r@ == file_name@,
{
    std::path::Path::new(path).with_file_name(file_name).to_string_lossy().to_string()
}

/// What is known, on every platform, of whether `path` lies in `directory`.
pub open spec fn in_dir_documented(path: Seq<char>, directory: Seq<char>, r: bool) -> bool {
    &&& path.len() == 0 ==> !r
    &&& single_component(path) && bare(directory) ==> r == (directory.len() == 0)
}

/// What `Path::parent` is documented to give: nothing for the empty path,
/// the empty path for one relative component.
pub open spec fn parent_as_documented(path: Seq<char>, parent: Option<Seq<char>>) -> bool {
    &&& path.len() == 0 ==> parent is None
    &&& single_component(path) ==> parent == Some(Seq::<char>::empty())
}

/// Whether the parent of `path` is `directory`: never for a path without a
/// parent (such as the empty one), always when the parent is `directory`
/// itself; a path of one component lies in the empty directory and in no
/// other directory of at most one component.
fn in_directory(path: &str, directory: &str) -> (r: bool)
    ensures
        exists|parent: Option<Seq<char>>|
            #[trigger] parent_as_documented(path@, parent) && (parent is None ==> !r) && (parent
                == Some(directory@) ==> r),
        in_dir_documented(path@, directory@, r),
{
    let parent = path_parent(path);
    let ghost pv = ostr(parent);
    assert(parent_as_documented(path@, pv));
    match parent {
        Some(p) => {
            assert(single_component(path@) ==> p@ =~= Seq::<char>::empty());
            proof {
                if directory@.len() == 0 {
                    assert(directory@ =~= Seq::<char>::empty());
                }
            }
            same_path(p.as_str(), directory)
        },
        None => false,
    }
}

/// The playlist of a recording's segments, kept next to it and named after
/// its stem: the recording's path with its file name replaced by
/// `<stem>.ffconcat`, where the stem is the portable stem of the file name
/// (which the platform reads from the path).
pub fn concat_list_path_for_recording(output_path: &str) -> (r: String)
    ensures
        exists|file_name: Option<Seq<char>>| has_suffix(r@, portable_stem(file_name) + ".ffconcat"@),
        plain_file_name(output_path@) ==> r@ == stem_of(output_path@) + ".ffconcat"@,
{
    let name = path_file_name(output_path);
    let stem = match &name {
        Some(n) => portable_stem_of_file_name(Some(n.as_str())),
        None => portable_stem_of_file_name(None),
    };
    let ghost fv: Option<Seq<char>> = match name {
        Some(n) => Some(n@),
        None => None,
    };
    assert(stem@ == portable_stem(fv));
    proof {
        if plain_file_name(output_path@) {
            crate::live::lemma_portable_stem_of_plain(output_path@);
            assert(fv == Some(output_path@));
        }
    }
    let mut file_name = chars_of(stem.as_str());
    push_str(&mut file_name, ".ffconcat");
    proof {
        reveal_strlit(".ffconcat");
        reveal_strlit(".");
        reveal_strlit("..");
        crate::live::lemma_portable_stem_has_no_separator(fv);
        assert(file_name@.len() > 2);
        assert(file_name@ != "."@);
        assert(file_name@ != ".."@);
        assert forall|i: int| 0 <= i < file_name@.len() implies file_name@[i] != '/'
            && file_name@[i] != '\\' by {
            if i >= stem@.len() {
                assert(file_name@[i] == ".ffconcat"@[i - stem@.len()]);
            }
        }
    }
    path_with_file_name(output_path, string_of(&file_name).as_str())
}

/// The files of a job that its recovery data may take with it. What its
/// paths' parents, names and stems are is the platform's to say; the rule
/// applied to them is `owned_paths_outcome`.
pub fn job_owned_paths(job: &TikTokLiveJob) -> (r: Result<Vec<String>, String>)
    ensures
        exists|facts: OwnedPathFacts|
            facts_fit(*job, facts) && facts_documented(*job, facts) && owned_paths_listed(
                owned_paths_outcome(*job, facts),
                result_view(r),
            ),
        job.output_path is None ==> (r matches Err(m) && m@
            == "TikTok Live job has no generated output path."@),
{
    let output = match &job.output_path {
        Some(o) => o.as_str(),
        None => "",
    };
    proof {
        reveal_strlit("");
        assert(output@ =~= match job.output_path {
            Some(o) => o@,
            None => Seq::<char>::empty(),
        });
    }
    let recoverable = recoverable_output_path_for_recording(output);
    let ghost rec = documented_recoverable(output@);
    proof {
        if plain_file_name(output@) {
            lemma_recoverable_single(output@);
        }
    }
    let mut segments: Vec<SegmentPathFacts> = Vec::new();
    let mut i: usize = 0;
    while i < job.segment_paths.len()
        invariant
            i <= job.segment_paths.len(),
            segments.len() == i,
            rec == documented_recoverable(output@),
            rec is Some ==> recoverable@ == rec.unwrap() && single_component(rec.unwrap()),
            forall|k: int|
                0 <= k < i ==> segment_documented(
                    job.segment_paths@[k]@,
                    #[trigger] segments@[k],
                    job.output_dir@,
                    rec,
                ),
        decreases job.segment_paths.len() - i,
    {
        let path = job.segment_paths[i].as_str();
        let f = SegmentPathFacts {
            in_output_dir: in_directory(path, job.output_dir.as_str()),
            file_name: path_file_name(path),
            is_recoverable_output: same_path(path, recoverable.as_str()),
        };
        assert(segment_documented(path@, f, job.output_dir@, rec));
        segments.push(f);
        i += 1;
    }
    let final_path = match &job.final_path {
        Some(f) => {
            let mut is_segment = false;
            let mut k: usize = 0;
            let ghost segs = strs(job.segment_paths@);
            while k < job.segment_paths.len()
                invariant
                    k <= job.segment_paths.len(),
                    segs == strs(job.segment_paths@),
                    segs.take(k as int).contains(f@) ==> is_segment,
                    (bare(f@) && forall|m: int| 0 <= m < segs.len() ==> bare(#[trigger] segs[m]))
                        ==> is_segment == segs.take(k as int).contains(f@),
                decreases job.segment_paths.len() - k,
            {
                let ghost before = is_segment;
                let same = same_path(job.segment_paths[k].as_str(), f.as_str());
                if same {
                    is_segment = true;
                }
                proof {
                    let t0 = segs.take(k as int);
                    let t1 = segs.take(k + 1);
                    assert(t1 =~= t0.push(segs[k as int]));
                    assert(t1.contains(f@) <==> (t0.contains(f@) || segs[k as int] == f@)) by {
                        if t1.contains(f@) {
                            let m = choose|m: int| 0 <= m < t1.len() && t1[m] == f@;
                            if m < t0.len() {
                                assert(t0[m] == f@);
                            }
                        }
                        if t0.contains(f@) {
                            let m = choose|m: int| 0 <= m < t0.len() && t0[m] == f@;
                            assert(t1[m] == f@);
                        }
                        if segs[k as int] == f@ {
                            assert(t1[t0.len() as int] == f@);
                        }
                    }
                }
                k += 1;
            }
            assert(segs.take(k as int) =~= segs);
            Some(FinalPathFacts {
                in_output_dir: in_directory(f.as_str(), job.output_dir.as_str()),
                is_output: same_path(f.as_str(), output),
                is_recoverable_output: same_path(f.as_str(), recoverable.as_str()),
                is_segment,
            })
        },
        None => None,
    };
    let facts = OwnedPathFacts {
        output_in_dir: in_directory(output, job.output_dir.as_str()),
        output_name_safe: recording_output_name_is_safe(output),
        output_stem: title_from_filepath(output),
        concat_list_path: concat_list_path_for_recording(output),
        segments,
        final_path,
    };
    let r = owned_paths_from_facts(job, &facts);
    assert(facts_fit(*job, facts));
    assert(output@ == match job.output_path {
        Some(o) => o@,
        None => Seq::<char>::empty(),
    });
    assert(facts_documented(*job, facts));
    r
}

} // verus!
