//! yt-dlp download arguments, output templates and output parsing.
use vstd::prelude::*;

use crate::platform::TargetOs;
use crate::urls::{parse_url, url_host, url_parts};
use crate::text::{
    ostr, opt_view, strs, after_first, after_first_exec, before_first, before_first_exec, signed_decimal,
    signed_decimal_of, to_lowercase, unicode_lowercase,
    chars_of, concat, contains, contains_seq, decimal, decimal_of, drop_while_end, ends_with,
    eq_ignore_case, extend, find, find_first, find_last, has_prefix, has_suffix, is_alnum,
    is_ascii_alphanumeric, is_cc, is_control, is_lit, join, lines, lines_of, lower, lower_vec,
    push_str, replace, replace_all, rfind, seq_eq, slice, split, split_all, starts_with,
    string_of, strip_prefix, strip_suffix, strip_suffix_all, trim, trim_class, trim_cls,
    trim_end_class, trim_end_matches, trim_ws, vviews, zero_pad, zero_padded, CharClass,
};

verus! {

pub const DEFAULT_FILENAME_TEMPLATE: &'static str = "%(title)s.%(ext)s";

pub const RECENT_OUTPUT_LIMIT: usize = 30;


// ---------------------------------------------------------------------------
// Time ranges and recent output
// ---------------------------------------------------------------------------

/// The section given to `--download-sections` without its leading `*`,
/// when anything is left.
pub open spec fn time_range(sections: Option<Seq<char>>) -> Option<Seq<char>> {
    match sections {
        None => None,
        Some(s) => {
            let stripped = if s.len() > 0 && s[0] == '*' {
                s.drop_first()
            } else {
                s
            };
            if stripped.len() == 0 {
                None
            } else {
                Some(stripped)
            }
        },
    }
}

pub fn extract_time_range(download_sections: &Option<String>) -> (r: Option<String>)
    ensures
        ostr(r) == time_range(ostr(*download_sections)),
{
    match download_sections {
        None => None,
        Some(s) => {
            let v = chars_of(s.as_str());
            let stripped = if v.len() > 0 && v[0] == '*' {
                slice(&v, 1, v.len())
            } else {
                v
            };
            if stripped.len() == 0 {
                None
            } else {
                Some(string_of(&stripped))
            }
        },
    }
}

/// The recent-output buffer after a line: blank lines are ignored, others
/// are kept trimmed, dropping the oldest beyond the limit.
pub open spec fn recent_after(buffer: Seq<Seq<char>>, line: Seq<char>) -> Seq<Seq<char>> {
    let t = trim(line);
    if t.len() == 0 {
        buffer
    } else if buffer.len() >= RECENT_OUTPUT_LIMIT {
        buffer.drop_first().push(t)
    } else {
        buffer.push(t)
    }
}

pub fn push_recent_output(buffer: &mut std::collections::VecDeque<String>, line: &str)
    ensures
        strs(final(buffer)@) == recent_after(strs(old(buffer)@), line@),
{
    let lv = chars_of(line);
    let trimmed = trim_ws(&lv);
    if trimmed.len() == 0 {
        return;
    }
    let ghost before = buffer@;
    if buffer.len() >= RECENT_OUTPUT_LIMIT {
        buffer.pop_front();
        assert(strs(buffer@) =~= strs(before).drop_first());
    }
    let ghost mid = buffer@;
    buffer.push_back(string_of(&trimmed));
    assert(strs(buffer@) =~= strs(mid).push(trimmed@));
}

/// The recent-output buffer stays within its limit.
pub proof fn law_recent_output_is_bounded(buffer: Seq<Seq<char>>, line: Seq<char>)
    requires
        buffer.len() <= RECENT_OUTPUT_LIMIT,
    ensures
        recent_after(buffer, line).len() <= RECENT_OUTPUT_LIMIT,
{
}

// ---------------------------------------------------------------------------
// Facebook reels
// ---------------------------------------------------------------------------

/// `\` and `$` escaped for a yt-dlp metadata replacement.
pub open spec fn escaped_replacement(v: Seq<char>) -> Seq<char> {
    replace(replace(v, "\\"@, "\\\\"@), "$"@, "\\$"@)
}

pub fn escape_metadata_replacement(value: &str) -> (r: String)
    ensures
        r@ == escaped_replacement(value@),
{
    proof {
        reveal_strlit("\\");
        reveal_strlit("$");
    }
    let v = chars_of(value);
    let a = replace_all(&v, &chars_of("\\"), &chars_of("\\\\"));
    let b = replace_all(&a, &chars_of("$"), &chars_of("\\$"));
    string_of(&b)
}

/// A recent output line that reports the Facebook extractor failing to parse.
pub open spec fn is_facebook_parse_failure_line(line: Seq<char>) -> bool {
    contains(lower(line), "[facebook]"@) && contains(lower(line), "cannot parse data"@)
}

pub open spec fn any_facebook_parse_failure(lines: Seq<Seq<char>>) -> bool {
    exists|i: int| 0 <= i < lines.len() && is_facebook_parse_failure_line(#[trigger] lines[i])
}

pub fn is_facebook_parse_failure(recent_lines: &[String]) -> (r: bool)
    ensures
        r == any_facebook_parse_failure(strs(recent_lines@)),
{
    let ghost ls = strs(recent_lines@);
    let mut k: usize = 0;
    while k < recent_lines.len()
        invariant
            ls == strs(recent_lines@),
            k <= recent_lines.len(),
            forall|j: int| 0 <= j < k ==> !is_facebook_parse_failure_line(#[trigger] ls[j]),
        decreases recent_lines.len() - k,
    {
        let lower_line = lower_vec(&chars_of(recent_lines[k].as_str()));
        if contains_seq(&lower_line, &chars_of("[facebook]")) && contains_seq(
            &lower_line,
            &chars_of("cannot parse data"),
        ) {
            assert(is_facebook_parse_failure_line(ls[k as int]));
            return true;
        }
        k += 1;
    }
    false
}

/// Inserts `name value` before the `--` that precedes the URL (or at the
/// end), unless `name` is already present.
pub open spec fn with_arg_before_url(args: Seq<Seq<char>>, name: Seq<char>, value: Seq<char>) -> Seq<
    Seq<char>,
> {
    if args.contains(name) {
        args
    } else {
        let at = match first_index(args, "--"@) {
            Some(i) => i,
            None => args.len() as int,
        };
        args.subrange(0, at) + seq![name, value] + args.subrange(at, args.len() as int)
    }
}

/// The first index where `x` occurs in `v`.
pub open spec fn first_index(v: Seq<Seq<char>>, x: Seq<char>) -> Option<int> {
    if v.contains(x) {
        Some(choose|i: int| 0 <= i < v.len() && v[i] == x && forall|j: int| 0 <= j < i ==> v[j] != x)
    } else {
        None
    }
}

fn position(args: &Vec<String>, x: &str) -> (r: Option<usize>)
    ensures
        r matches Some(i) ==> first_index(strs(args@), x@) == Some(i as int) && i < args@.len(),
        r is None ==> first_index(strs(args@), x@) is None && !strs(args@).contains(x@),
{
    let xv = chars_of(x);
    let ghost sv = strs(args@);
    let mut k: usize = 0;
    while k < args.len()
        invariant
            sv == strs(args@),
            xv@ == x@,
            k <= args.len(),
            forall|j: int| 0 <= j < k ==> sv[j] != x@,
        decreases args.len() - k,
    {
        if seq_eq(&chars_of(args[k].as_str()), &xv) {
            assert(sv[k as int] == x@);
            assert(sv.contains(x@));
            let ghost c = choose|i: int|
                0 <= i < sv.len() && sv[i] == x@ && forall|j: int| 0 <= j < i ==> sv[j] != x@;
            assert(c == k) by {
                if c < k {
                    assert(sv[c] != x@);
                } else if c > k {
                    assert(sv[k as int] != x@);
                }
            }
            return Some(k);
        }
        k += 1;
    }
    assert(!sv.contains(x@)) by {
        if sv.contains(x@) {
            let w = choose|i: int| 0 <= i < sv.len() && sv[i] == x@;
            assert(sv[w] != x@);
        }
    }
    None
}

fn insert_strings(args: &mut Vec<String>, at: usize, a: String, b: String)
    requires
        at <= old(args)@.len(),
    ensures
        strs(final(args)@) == strs(old(args)@).subrange(0, at as int) + seq![a@, b@] + strs(
            old(args)@,
        ).subrange(at as int, old(args)@.len() as int),
{
    let ghost before = strs(args@);
    args.insert(at, a);
    let n = args.len();
    assert(at < n);
    args.insert(at + 1, b);
    assert(strs(args@) =~= before.subrange(0, at as int) + seq![a@, b@] + before.subrange(
        at as int,
        before.len() as int,
    ));
}

pub fn push_arg_before_url(args: &mut Vec<String>, name: &str, value: &str)
    ensures
        strs(final(args)@) == with_arg_before_url(strs(old(args)@), name@, value@),
{
    if position(args, name).is_some() {
        return;
    }
    let at = match position(args, "--") {
        Some(i) => i,
        None => args.len(),
    };
    insert_strings(args, at, string_of(&chars_of(name)), string_of(&chars_of(value)));
}

pub open spec fn is_fallback_stem(v: Seq<char>) -> bool {
    has_prefix(v, "facebook-com-reel-"@)
}

/// Whether a file stem is the generic name of a core-fallback reel download.
pub fn is_facebook_reel_fallback_stem(value: &str) -> (r: bool)
    ensures
        r == is_fallback_stem(value@),
{
    starts_with(&chars_of(value), &chars_of("facebook-com-reel-"))
}

/// The title taken from a downloaded file name: the name without the
/// "already downloaded" note and without its extension; a recovered title is
/// kept over the generic fallback name. `None` when the name has no dot.
pub open spec fn title_from_filename(current: Option<Seq<char>>, filename: Seq<char>) -> Option<
    Seq<char>,
> {
    let name = strip_suffix_all(filename, " has already been downloaded"@);
    match rfind(name, "."@) {
        None => None,
        Some(end) => {
            let stem = name.subrange(0, end);
            if current is Some && is_fallback_stem(stem) {
                current
            } else {
                Some(stem)
            }
        },
    }
}

pub fn title_from_download_filename(current_title: Option<String>, filename: &str) -> (r: Option<
    String,
>)
    ensures
        ostr(r) == title_from_filename(ostr(current_title), filename@),
{
    let name = trim_end_matches(&chars_of(filename), &chars_of(" has already been downloaded"));
    match find_last(&name, &chars_of(".")) {
        None => None,
        Some(end) => {
            proof {
                crate::text::lemma_rfind_upto(name@, "."@, name@.len() - "."@.len());
            }
            let stem = slice(&name, 0, end);
            let stem_text = string_of(&stem);
            if current_title.is_some() && is_facebook_reel_fallback_stem(stem_text.as_str()) {
                current_title
            } else {
                Some(stem_text)
            }
        },
    }
}

// ---------------------------------------------------------------------------
// Output paths and templates
// ---------------------------------------------------------------------------

/// `args` with the value after the first `-o` replaced by `template`.
pub open spec fn with_output_template(args: Seq<Seq<char>>, template: Seq<char>) -> Seq<Seq<char>> {
    match first_index(args, "-o"@) {
        Some(i) => if i + 1 < args.len() {
            args.update(i + 1, template)
        } else {
            args
        },
        None => args,
    }
}

pub fn replace_output_template(args: &mut Vec<String>, output_template: String)
    ensures
        strs(final(args)@) == with_output_template(strs(old(args)@), output_template@),
{
    if let Some(index) = position(args, "-o") {
        if index < args.len() - 1 {
            let ghost before = strs(args@);
            args.set(index + 1, output_template);
            assert(strs(args@) =~= before.update(index + 1, output_template@));
        }
    }
}

/// The directory without trailing `/` or `\` separators.
pub open spec fn without_trailing_separators(dir: Seq<char>) -> Seq<char> {
    drop_while_end(dir, CharClass::Two('/', '\\'))
}

/// The `--paths` value for an output directory.
pub open spec fn path_arg(dir: Seq<char>) -> Seq<char> {
    "home:"@ + without_trailing_separators(dir)
}

pub fn output_path_arg(output_directory: &str) -> (r: String)
    ensures
        r@ == path_arg(output_directory@),
{
    let mut v = chars_of("home:");
    let d = trim_end_class(&chars_of(output_directory), &CharClass::Two('/', '\\'));
    extend(&mut v, &d);
    string_of(&v)
}

/// `args` with the output directory set: the value after `--paths` is
/// replaced (or appended when missing), else `--paths dir` goes before `-o`
/// or at the end.
pub open spec fn with_output_path(args: Seq<Seq<char>>, dir: Seq<char>) -> Seq<Seq<char>> {
    let p = path_arg(dir);
    match first_index(args, "--paths"@) {
        Some(i) => if i + 1 < args.len() {
            args.update(i + 1, p)
        } else {
            args.push(p)
        },
        None => match first_index(args, "-o"@) {
            Some(i) => args.subrange(0, i) + seq!["--paths"@, p] + args.subrange(
                i,
                args.len() as int,
            ),
            None => args + seq!["--paths"@, p],
        },
    }
}

pub fn replace_output_path(args: &mut Vec<String>, output_directory: &str)
    ensures
        strs(final(args)@) == with_output_path(strs(old(args)@), output_directory@),
{
    let path_arg = output_path_arg(output_directory);
    let ghost before = strs(args@);
    if let Some(index) = position(args, "--paths") {
        if index < args.len() - 1 {
            args.set(index + 1, path_arg);
            assert(strs(args@) =~= before.update(index + 1, path_arg@));
        } else {
            args.push(path_arg);
            assert(strs(args@) =~= before.push(path_arg@));
        }
        return;
    }
    if let Some(index) = position(args, "-o") {
        insert_strings(args, index, string_of(&chars_of("--paths")), path_arg);
    } else {
        args.push(string_of(&chars_of("--paths")));
        args.push(path_arg);
        assert(strs(args@) =~= before + seq!["--paths"@, path_arg@]);
    }
}

pub open spec fn has_control(s: Seq<char>) -> bool {
    exists|i: int| 0 <= i < s.len() && is_cc(#[trigger] s[i])
}

/// A user filename template reduced to a safe leaf name: blank or control
/// characters give the default template, directories are dropped, and
/// `.%(ext)s` is added when the template names no extension.
pub open spec fn filename_template(t: Option<Seq<char>>) -> Seq<char> {
    let trimmed = trim(
        match t {
            Some(s) => s,
            None => Seq::empty(),
        },
    );
    if trimmed.len() == 0 || has_control(trimmed) {
        DEFAULT_FILENAME_TEMPLATE@
    } else {
        let parts = split(replace(trimmed, "\\"@, "/"@), "/"@);
        let leaf = trim(parts.last());
        if leaf.len() == 0 || leaf == "."@ || leaf == ".."@ {
            DEFAULT_FILENAME_TEMPLATE@
        } else if contains(leaf, "%(ext"@) {
            leaf
        } else {
            leaf + ".%(ext)s"@
        }
    }
}

fn any_control(s: &[char]) -> (r: bool)
    ensures
        r == has_control(s@),
{
    let mut k: usize = 0;
    while k < s.len()
        invariant
            k <= s.len(),
            forall|j: int| 0 <= j < k ==> !is_cc(#[trigger] s@[j]),
        decreases s.len() - k,
    {
        if is_control(s[k]) {
            assert(is_cc(s@[k as int]));
            return true;
        }
        k += 1;
    }
    false
}

pub fn normalize_filename_template(filename_template: Option<String>) -> (r: String)
    ensures
        r@ == self::filename_template(ostr(filename_template)),
{
    let candidate = match &filename_template {
        Some(s) => chars_of(s.as_str()),
        None => Vec::new(),
    };
    let trimmed = trim_ws(&candidate);
    if trimmed.len() == 0 || any_control(&trimmed) {
        return string_of(&chars_of(DEFAULT_FILENAME_TEMPLATE));
    }
    proof {
        reveal_strlit("\\");
        reveal_strlit("/");
    }
    let replaced = replace_all(&trimmed, &chars_of("\\"), &chars_of("/"));
    let parts = split_all(&replaced, &chars_of("/"));
    proof {
        crate::text::lemma_split_nonempty(replaced@, "/"@);
    }
    let leaf = trim_ws(&parts[parts.len() - 1]);
    if leaf.len() == 0 || is_lit(&leaf, ".") || is_lit(&leaf, "..") {
        return string_of(&chars_of(DEFAULT_FILENAME_TEMPLATE));
    }
    if contains_seq(&leaf, &chars_of("%(ext")) {
        string_of(&leaf)
    } else {
        let mut out = leaf;
        push_str(&mut out, ".%(ext)s");
        string_of(&out)
    }
}

pub fn build_output_template(filename_template: Option<String>, item_prefix: &str) -> (r: String)
    ensures
        r@ == item_prefix@ + self::filename_template(ostr(filename_template)),
{
    let t = normalize_filename_template(filename_template);
    let mut v = chars_of(item_prefix);
    push_str(&mut v, t.as_str());
    string_of(&v)
}

/// The width of item numbers: the digits of a total of 100 or more, else 2.
pub open spec fn width_for(total: Option<u32>) -> nat {
    match total {
        Some(v) => if v >= 100 {
            decimal(v as nat).len()
        } else {
            2
        },
        None => 2,
    }
}

pub fn number_width(total: Option<u32>) -> (r: usize)
    ensures
        r == width_for(total),
{
    match total {
        Some(v) => if v >= 100 {
            decimal_of(v as u64).len()
        } else {
            2
        },
        None => 2,
    }
}

/// The number prefix of an output file name: the playlist index padded to
/// the playlist's width, yt-dlp's own playlist index field for a whole
/// playlist, the queue index padded to the queue's width, or nothing.
pub open spec fn item_prefix(
    number_playlist_items: bool,
    download_playlist: bool,
    playlist_index: Option<u32>,
    playlist_total: Option<u32>,
    number_queue_items: bool,
    queue_index: Option<u32>,
    queue_total: Option<u32>,
) -> Seq<char> {
    if number_playlist_items && playlist_index is Some {
        zero_pad(decimal(playlist_index->0 as nat), width_for(playlist_total)) + " - "@
    } else if number_playlist_items && download_playlist {
        "%(playlist_index)0"@ + decimal(width_for(playlist_total)) + "d - "@
    } else if number_queue_items && !download_playlist && queue_index is Some {
        zero_pad(decimal(queue_index->0 as nat), width_for(queue_total)) + " - "@
    } else {
        ""@
    }
}

/// The output templates of a download, in the order the command sets them
/// up: the collision policy is checked first, and a refused one refuses the
/// download before any command line exists; then the file template (item
/// prefix, collision suffix, the title limited on Windows) and, when
/// chapters are split, the chapter template with the same suffix.
pub open spec fn download_templates(
    filename_template: Option<Seq<char>>,
    item_prefix: Seq<char>,
    policy: Option<Seq<char>>,
    job_id: Seq<char>,
    os: TargetOs,
    title_limit: nat,
    split_chapters: bool,
    number_chapter_files: bool,
) -> Result<(Seq<char>, Option<Seq<char>>), Seq<char>> {
    match collision_suffix(policy, job_id) {
        Err(e) => Err(e),
        Ok(suffix) => Ok(
            (
                constrained_title_template(
                    with_collision_suffix(item_prefix + self::filename_template(filename_template), suffix),
                    os,
                    title_limit,
                ),
                if split_chapters {
                    Some(with_collision_suffix(chapter_template(item_prefix, number_chapter_files), suffix))
                } else {
                    None
                },
            ),
        ),
    }
}

/// The output template and chapter template of a download, or the refusal
/// of its collision policy.
pub fn download_output_templates(
    filename_template: Option<String>,
    item_prefix: &str,
    policy: Option<&str>,
    job_id: &str,
    os: TargetOs,
    title_limit: u64,
    split_chapters: bool,
    number_chapter_files: bool,
) -> (r: Result<(String, Option<String>), String>)
    ensures
        match r {
            Ok((t, c)) => download_templates(
                ostr(filename_template),
                item_prefix@,
                opt_view(policy),
                job_id@,
                os,
                title_limit as nat,
                split_chapters,
                number_chapter_files,
            ) == Ok::<(Seq<char>, Option<Seq<char>>), Seq<char>>((t@, ostr(c))),
            Err(e) => download_templates(
                ostr(filename_template),
                item_prefix@,
                opt_view(policy),
                job_id@,
                os,
                title_limit as nat,
                split_chapters,
                number_chapter_files,
            ) == Err::<(Seq<char>, Option<Seq<char>>), Seq<char>>(e@),
        },
{
    let ghost ft = ostr(filename_template);
    let suffix = match output_collision_suffix(policy, job_id) {
        Ok(s) => s,
        Err(e) => return Err(e),
    };
    let suffix_ref = match &suffix {
        Some(s) => Some(s.as_str()),
        None => None,
    };
    let template = constrain_title_template_for_output(
        apply_output_collision_suffix(build_output_template(filename_template, item_prefix), suffix_ref),
        os,
        title_limit,
    );
    let chapters = if split_chapters {
        Some(apply_output_collision_suffix(build_chapter_output_template(item_prefix, number_chapter_files), suffix_ref))
    } else {
        None
    };
    Ok((template, chapters))
}

/// An output template with the title limited to `title_limit` bytes, on
/// Windows where long paths fail; elsewhere the template as it is.
pub open spec fn constrained_title_template(template: Seq<char>, os: TargetOs, title_limit: nat) -> Seq<char> {
    if os != TargetOs::Windows {
        template
    } else {
        replace(template, "%(title)s"@, "%(title)."@ + decimal(title_limit) + "B"@)
    }
}

/// Limits the title in an output template to `title_limit` bytes on
/// Windows (the limit left by the output directory's length).
pub fn constrain_title_template_for_output(template: String, os: TargetOs, title_limit: u64) -> (r: String)
    ensures
        r@ == constrained_title_template(template@, os, title_limit as nat),
{
    if os != TargetOs::Windows {
        return template;
    }
    proof {
        reveal_strlit("%(title)s");
    }
    let mut to = chars_of("%(title).");
    extend(&mut to, &decimal_of(title_limit));
    push_str(&mut to, "B");
    string_of(&replace_all(&chars_of(template.as_str()), &chars_of("%(title)s"), &to))
}

pub fn build_item_prefix(
    number_playlist_items: bool,
    download_playlist: bool,
    playlist_index: Option<u32>,
    playlist_total: Option<u32>,
    number_queue_items: bool,
    queue_index: Option<u32>,
    queue_total: Option<u32>,
) -> (r: String)
    ensures
        r@ == item_prefix(
            number_playlist_items,
            download_playlist,
            playlist_index,
            playlist_total,
            number_queue_items,
            queue_index,
            queue_total,
        ),
{
    if number_playlist_items {
        let width = number_width(playlist_total);
        if let Some(index) = playlist_index {
            let mut v = zero_padded(&decimal_of(index as u64), width);
            push_str(&mut v, " - ");
            return string_of(&v);
        }
        if download_playlist {
            let mut v = chars_of("%(playlist_index)0");
            extend(&mut v, &decimal_of(width as u64));
            push_str(&mut v, "d - ");
            return string_of(&v);
        }
    }
    if number_queue_items && !download_playlist {
        if let Some(index) = queue_index {
            let width = number_width(queue_total);
            let mut v = zero_padded(&decimal_of(index as u64), width);
            push_str(&mut v, " - ");
            return string_of(&v);
        }
    }
    string_of(&chars_of(""))
}

pub open spec fn chapter_template(item_prefix: Seq<char>, number_chapter_files: bool) -> Seq<char> {
    item_prefix + (if number_chapter_files {
        "%(section_number)02d - "@
    } else {
        ""@
    }) + "%(section_title)s.%(ext)s"@
}

pub fn build_chapter_output_template(item_prefix: &str, number_chapter_files: bool) -> (r: String)
    ensures
        r@ == chapter_template(item_prefix@, number_chapter_files),
{
    let mut v = chars_of(item_prefix);
    push_str(
        &mut v,
        if number_chapter_files {
            "%(section_number)02d - "
        } else {
            ""
        },
    );
    push_str(&mut v, "%(section_title)s.%(ext)s");
    string_of(&v)
}

/// The ASCII letters and digits of `s`, at most `n` of them.
pub open spec fn alnum_prefix(s: Seq<char>, n: nat) -> Seq<char> {
    s.filter(|c: char| is_alnum(c)).take(
        if s.filter(|c: char| is_alnum(c)).len() < n {
            s.filter(|c: char| is_alnum(c)).len() as int
        } else {
            n as int
        },
    )
}

/// The collision policy: `overwrite` (the default) adds nothing, `unique`
/// adds `copy-` and up to eight letters and digits of the job id (or just
/// `copy`), anything else is refused.
pub open spec fn collision_suffix(policy: Option<Seq<char>>, job_id: Seq<char>) -> Result<
    Option<Seq<char>>,
    Seq<char>,
> {
    let p = match policy {
        Some(v) => v,
        None => "overwrite"@,
    };
    if p == "overwrite"@ {
        Ok(None)
    } else if p == "unique"@ {
        let suffix = alnum_prefix(job_id, 8);
        Ok(
            Some(
                if suffix.len() == 0 {
                    "copy"@
                } else {
                    "copy-"@ + suffix
                },
            ),
        )
    } else {
        Err("Unsupported output collision policy: "@ + p)
    }
}

pub open spec fn suffix_result_view(r: Result<Option<String>, String>) -> Result<
    Option<Seq<char>>,
    Seq<char>,
> {
    match r {
        Ok(o) => Ok(ostr(o)),
        Err(e) => Err(e@),
    }
}

fn alnum_prefix_exec(s: &[char], n: usize) -> (r: Vec<char>)
    ensures
        r@ == alnum_prefix(s@, n as nat),
{
    let mut out: Vec<char> = Vec::new();
    let mut k: usize = 0;
    proof {
        reveal_with_fuel(Seq::filter, 1);
        assert(s@.take(0).filter(|c: char| is_alnum(c)) =~= Seq::<char>::empty());
    }
    while k < s.len()
        invariant
            k <= s.len(),
            out@ == alnum_prefix(s@.take(k as int), n as nat),
        decreases s.len() - k,
    {
        let ghost h = s@.take(k as int).filter(|c: char| is_alnum(c));
        let ghost g = s@.take(k + 1).filter(|c: char| is_alnum(c));
        proof {
            reveal_with_fuel(Seq::filter, 1);
            assert(s@.take(k + 1).drop_last() =~= s@.take(k as int));
            if is_alnum(s@[k as int]) {
                assert(g =~= h.push(s@[k as int]));
            } else {
                assert(g =~= h);
            }
        }
        if out.len() < n && is_ascii_alphanumeric(s[k]) {
            out.push(s[k]);
        }
        proof {
            if h.len() >= n {
                assert(out@ =~= g.take(n as int));
            } else {
                assert(out@ =~= g.take(if g.len() < n {
                    g.len() as int
                } else {
                    n as int
                }));
            }
        }
        k += 1;
    }
    proof {
        assert(s@.take(s@.len() as int) =~= s@);
    }
    out
}

pub fn output_collision_suffix(policy: Option<&str>, job_id: &str) -> (r: Result<
    Option<String>,
    String,
>)
    ensures
        suffix_result_view(r) == collision_suffix(opt_view(policy), job_id@),
{
    let p = match policy {
        Some(v) => chars_of(v),
        None => chars_of("overwrite"),
    };
    if is_lit(&p, "overwrite") {
        Ok(None)
    } else if is_lit(&p, "unique") {
        let suffix = alnum_prefix_exec(&chars_of(job_id), 8);
        if suffix.len() == 0 {
            Ok(Some(string_of(&chars_of("copy"))))
        } else {
            let mut v = chars_of("copy-");
            extend(&mut v, &suffix);
            Ok(Some(string_of(&v)))
        }
    } else {
        let mut v = chars_of("Unsupported output collision policy: ");
        extend(&mut v, &p);
        Err(string_of(&v))
    }
}

/// The template with ` [suffix]` inserted before its last `.%(ext` (or
/// appended when there is none).
pub open spec fn with_collision_suffix(template: Seq<char>, suffix: Option<Seq<char>>) -> Seq<char> {
    match suffix {
        None => template,
        Some(s) => {
            let label = " ["@ + s + "]"@;
            match rfind(template, ".%(ext"@) {
                Some(i) => template.subrange(0, i) + label + template.subrange(
                    i,
                    template.len() as int,
                ),
                None => template + label,
            }
        },
    }
}

pub fn apply_output_collision_suffix(template: String, suffix: Option<&str>) -> (r: String)
    ensures
        r@ == with_collision_suffix(template@, opt_view(suffix)),
{
    let Some(s) = suffix else {
        return template;
    };
    let mut label = chars_of(" [");
    push_str(&mut label, s);
    push_str(&mut label, "]");
    let t = chars_of(template.as_str());
    match find_last(&t, &chars_of(".%(ext")) {
        Some(i) => {
            proof {
                crate::text::lemma_rfind_upto(t@, ".%(ext"@, t@.len() - ".%(ext"@.len());
            }
            let mut v = slice(&t, 0, i);
            extend(&mut v, &label);
            extend(&mut v, &slice(&t, i, t.len()));
            string_of(&v)
        },
        None => {
            let mut v = t;
            extend(&mut v, &label);
            string_of(&v)
        },
    }
}


// ---------------------------------------------------------------------------
// Source sites
// ---------------------------------------------------------------------------

pub open spec fn host_is(host: Seq<char>, domain: Seq<char>) -> bool {
    host == domain || has_suffix(host, "."@ + domain)
}

/// Whether `host` is `domain` or one of its subdomains.
pub fn host_matches(host: &str, domain: &str) -> (r: bool)
    ensures
        r == host_is(host@, domain@),
{
    let h = chars_of(host);
    let d = chars_of(domain);
    let mut dotted = chars_of(".");
    extend(&mut dotted, &d);
    seq_eq(&h, &d) || ends_with(&h, &dotted)
}

/// The folder name for the site a lower-case host belongs to.
pub open spec fn site_folder(host: Seq<char>) -> Seq<char> {
    if host_is(host, "youtube.com"@) || host == "youtu.be"@ || host_is(host, "youtube-nocookie.com"@) {
        "youtube"@
    } else if host_is(host, "tiktok.com"@) {
        "tiktok"@
    } else if host_is(host, "instagram.com"@) {
        "instagram"@
    } else if host_is(host, "facebook.com"@) || host == "fb.watch"@ {
        "facebook"@
    } else if host_is(host, "twitter.com"@) || host == "x.com"@ {
        "twitter"@
    } else if host_is(host, "bilibili.com"@) || host == "b23.tv"@ {
        "bilibili"@
    } else if host_is(host, "vimeo.com"@) {
        "vimeo"@
    } else if host_is(host, "twitch.tv"@) {
        "twitch"@
    } else if host_is(host, "soundcloud.com"@) {
        "soundcloud"@
    } else if host_is(host, "dailymotion.com"@) {
        "dailymotion"@
    } else {
        "other"@
    }
}

/// The folder for a URL's site; `other` when it has no parsable host.
pub open spec fn source_folder(url: Seq<char>) -> Seq<char> {
    match url_host(url) {
        Some(h) => site_folder(lower(h)),
        None => "other"@,
    }
}

fn host_is_exec(host: &str, domain: &str) -> (r: bool)
    ensures
        r == host_is(host@, domain@),
{
    host_matches(host, domain)
}

fn site_folder_exec(host: &str) -> (r: &'static str)
    ensures
        r@ == site_folder(host@),
{
    let h = chars_of(host);
    if host_is_exec(host, "youtube.com") || is_lit(&h, "youtu.be") || host_is_exec(
        host,
        "youtube-nocookie.com",
    ) {
        "youtube"
    } else if host_is_exec(host, "tiktok.com") {
        "tiktok"
    } else if host_is_exec(host, "instagram.com") {
        "instagram"
    } else if host_is_exec(host, "facebook.com") || is_lit(&h, "fb.watch") {
        "facebook"
    } else if host_is_exec(host, "twitter.com") || is_lit(&h, "x.com") {
        "twitter"
    } else if host_is_exec(host, "bilibili.com") || is_lit(&h, "b23.tv") {
        "bilibili"
    } else if host_is_exec(host, "vimeo.com") {
        "vimeo"
    } else if host_is_exec(host, "twitch.tv") {
        "twitch"
    } else if host_is_exec(host, "soundcloud.com") {
        "soundcloud"
    } else if host_is_exec(host, "dailymotion.com") {
        "dailymotion"
    } else {
        "other"
    }
}

pub fn source_directory_name(url: &str) -> (r: &'static str)
    ensures
        r@ == source_folder(url@),
{
    let Some(parsed) = parse_url(url) else {
        return "other";
    };
    let Some(host) = &parsed.host else {
        return "other";
    };
    let lowered = string_of(&lower_vec(&chars_of(host.as_str())));
    site_folder_exec(lowered.as_str())
}

/// The output directory, in a per-site folder when organising by source.
pub open spec fn output_directory(dir: Seq<char>, url: Seq<char>, organize: Option<bool>) -> Seq<
    char,
> {
    let base = without_trailing_separators(dir);
    if organize == Some(true) {
        base + "/"@ + source_folder(url)
    } else {
        base
    }
}

pub fn build_output_directory(output_directory: &str, url: &str, organize_by_source: Option<bool>) -> (r:
    String)
    ensures
        r@ == self::output_directory(output_directory@, url@, organize_by_source),
{
    let mut base = trim_end_class(&chars_of(output_directory), &CharClass::Two('/', '\\'));
    if organize_by_source == Some(true) {
        push_str(&mut base, "/");
        push_str(&mut base, source_directory_name(url));
    }
    string_of(&base)
}

/// The site a URL names, by substring; `other` for anything else.
pub open spec fn detected_source(url: Seq<char>) -> Seq<char> {
    if contains(url, "youtube.com"@) || contains(url, "youtu.be"@) {
        "youtube"@
    } else if contains(url, "tiktok.com"@) {
        "tiktok"@
    } else if contains(url, "facebook.com"@) || contains(url, "fb.watch"@) {
        "facebook"@
    } else if contains(url, "instagram.com"@) {
        "instagram"@
    } else if contains(url, "twitter.com"@) || contains(url, "x.com"@) {
        "twitter"@
    } else if contains(url, "bilibili.com"@) || contains(url, "b23.tv"@) {
        "bilibili"@
    } else if contains(url, "youku.com"@) {
        "youku"@
    } else {
        "other"@
    }
}

fn has(s: &[char], lit: &str) -> (r: bool)
    ensures
        r == contains(s@, lit@),
{
    contains_seq(s, &chars_of(lit))
}

pub fn detect_source(url: &str) -> (r: Option<String>)
    ensures
        ostr(r) == Some(detected_source(url@)),
{
    let u = chars_of(url);
    let name = if has(&u, "youtube.com") || has(&u, "youtu.be") {
        "youtube"
    } else if has(&u, "tiktok.com") {
        "tiktok"
    } else if has(&u, "facebook.com") || has(&u, "fb.watch") {
        "facebook"
    } else if has(&u, "instagram.com") {
        "instagram"
    } else if has(&u, "twitter.com") || has(&u, "x.com") {
        "twitter"
    } else if has(&u, "bilibili.com") || has(&u, "b23.tv") {
        "bilibili"
    } else if has(&u, "youku.com") {
        "youku"
    } else {
        "other"
    };
    Some(string_of(&chars_of(name)))
}

/// The given source when it names one, else the source detected from the
/// URL; `direct` and `other` do not name one.
pub open spec fn effective(source: Option<Seq<char>>, url: Seq<char>) -> Seq<char> {
    match source {
        Some(s) => {
            let t = trim(s);
            if t.len() > 0 && lower(t) != "direct"@ && lower(t) != "other"@ {
                t
            } else {
                detected_source(url)
            }
        },
        None => detected_source(url),
    }
}

pub fn effective_source(source: &Option<String>, url: &str) -> (r: Option<String>)
    ensures
        ostr(r) == Some(effective(ostr(*source), url@)),
{
    if let Some(s) = source {
        let t = trim_ws(&chars_of(s.as_str()));
        proof {
            reveal_strlit("direct");
            reveal_strlit("other");
            assert(lower("direct"@) =~= "direct"@);
            assert(lower("other"@) =~= "other"@);
        }
        if t.len() > 0 && !eq_ignore_case(&t, &chars_of("direct")) && !eq_ignore_case(
            &t,
            &chars_of("other"),
        ) {
            return Some(string_of(&t));
        }
    }
    detect_source(url)
}

/// The YouTube thumbnail for a watch or short link.
pub open spec fn thumbnail_url(url: Seq<char>) -> Option<Seq<char>> {
    if contains(url, "youtube.com"@) || contains(url, "youtu.be"@) {
        let id = if contains(url, "v="@) {
            Some(before_first(before_first(after_first(url, "v="@)->0, "v="@), "&"@))
        } else if contains(url, "youtu.be/"@) {
            Some(before_first(before_first(after_first(url, "youtu.be/"@)->0, "youtu.be/"@), "?"@))
        } else {
            None
        };
        match id {
            Some(i) => Some("https://i.ytimg.com/vi/"@ + i + "/mqdefault.jpg"@),
            None => None,
        }
    } else {
        None
    }
}

fn second_piece(s: &[char], sep: &str, stop: &str) -> (r: Vec<char>)
    requires
        contains(s@, sep@),
    ensures
        r@ == before_first(before_first(after_first(s@, sep@)->0, sep@), stop@),
{
    let sv = chars_of(sep);
    let rest = after_first_exec(s, &sv);
    let rest = match rest {
        Some(v) => v,
        None => {
            assert(false);
            Vec::new()
        },
    };
    let piece = before_first_exec(&rest, &sv);
    before_first_exec(&piece, &chars_of(stop))
}

pub fn generate_thumbnail_url(url: &str) -> (r: Option<String>)
    ensures
        ostr(r) == thumbnail_url(url@),
{
    let u = chars_of(url);
    if has(&u, "youtube.com") || has(&u, "youtu.be") {
        let id = if has(&u, "v=") {
            Some(second_piece(&u, "v=", "&"))
        } else if has(&u, "youtu.be/") {
            Some(second_piece(&u, "youtu.be/", "?"))
        } else {
            None
        };
        match id {
            Some(i) => {
                let mut v = chars_of("https://i.ytimg.com/vi/");
                extend(&mut v, &i);
                push_str(&mut v, "/mqdefault.jpg");
                Some(string_of(&v))
            },
            None => None,
        }
    } else {
        None
    }
}

pub fn is_youtube_url(url: &str) -> (r: bool)
    ensures
        r == (contains(url@, "youtube.com"@) || contains(url@, "youtu.be"@)),
{
    let u = chars_of(url);
    has(&u, "youtube.com") || has(&u, "youtu.be")
}

pub open spec fn player_client(value: Option<Seq<char>>) -> Option<Seq<char>> {
    let v = match value {
        Some(x) => x,
        None => "auto"@,
    };
    if v == "web"@ || v == "mweb"@ || v == "tv"@ || v == "ios"@ || v == "android"@ || v
        == "web_safari"@ {
        Some(v)
    } else {
        None
    }
}

pub fn normalize_youtube_player_client(value: Option<&str>) -> (r: Option<&'static str>)
    ensures
        opt_view(r) == player_client(opt_view(value)),
{
    let v = match value {
        Some(x) => chars_of(x),
        None => chars_of("auto"),
    };
    if is_lit(&v, "web") {
        Some("web")
    } else if is_lit(&v, "mweb") {
        Some("mweb")
    } else if is_lit(&v, "tv") {
        Some("tv")
    } else if is_lit(&v, "ios") {
        Some("ios")
    } else if is_lit(&v, "android") {
        Some("android")
    } else if is_lit(&v, "web_safari") {
        Some("web_safari")
    } else {
        None
    }
}

/// The `--extractor-args` value for YouTube, if any option applies.
pub open spec fn youtube_extractor_args(use_actual_player_js: bool, client: Option<Seq<char>>) -> Option<
    Seq<char>,
> {
    let values = match player_client(client) {
        Some(c) => seq!["player_client="@ + c],
        None => Seq::empty(),
    } + if use_actual_player_js {
        seq!["player_js_version=actual"@]
    } else {
        Seq::empty()
    };
    if values.len() == 0 {
        None
    } else {
        Some("youtube:"@ + join(values, ","@))
    }
}

pub fn build_youtube_extractor_args(use_actual_player_js: bool, youtube_player_client: Option<&str>) -> (r:
    Option<String>)
    ensures
        ostr(r) == youtube_extractor_args(use_actual_player_js, opt_view(youtube_player_client)),
{
    let mut values: Vec<Vec<char>> = Vec::new();
    if let Some(client) = normalize_youtube_player_client(youtube_player_client) {
        let mut v = chars_of("player_client=");
        push_str(&mut v, client);
        values.push(v);
    }
    if use_actual_player_js {
        values.push(chars_of("player_js_version=actual"));
    }
    let ghost expected = match player_client(opt_view(youtube_player_client)) {
        Some(c) => seq!["player_client="@ + c],
        None => Seq::<Seq<char>>::empty(),
    } + if use_actual_player_js {
        seq!["player_js_version=actual"@]
    } else {
        Seq::<Seq<char>>::empty()
    };
    assert(vviews(values@) =~= expected);
    if values.len() == 0 {
        None
    } else {
        let mut out = chars_of("youtube:");
        extend(&mut out, &crate::text::join_all(&values, &chars_of(",")));
        Some(string_of(&out))
    }
}

// ---------------------------------------------------------------------------
// Thumbnails in the cache
// ---------------------------------------------------------------------------

/// The file extension for an image content type.
pub open spec fn thumbnail_extension(content_type: Seq<char>) -> Option<Seq<char>> {
    let t = lower(trim(before_first(content_type, ";"@)));
    if t == "image/jpeg"@ || t == "image/jpg"@ {
        Some("jpg"@)
    } else if t == "image/png"@ {
        Some("png"@)
    } else if t == "image/webp"@ {
        Some("webp"@)
    } else if t == "image/gif"@ {
        Some("gif"@)
    } else if t == "image/avif"@ {
        Some("avif"@)
    } else {
        None
    }
}

pub fn thumbnail_file_extension(content_type: &str) -> (r: Option<&'static str>)
    ensures
        opt_view(r) == thumbnail_extension(content_type@),
{
    let t = lower_vec(&trim_ws(&before_first_exec(&chars_of(content_type), &chars_of(";"))));
    if is_lit(&t, "image/jpeg") || is_lit(&t, "image/jpg") {
        Some("jpg")
    } else if is_lit(&t, "image/png") {
        Some("png")
    } else if is_lit(&t, "image/webp") {
        Some("webp")
    } else if is_lit(&t, "image/gif") {
        Some("gif")
    } else if is_lit(&t, "image/avif") {
        Some("avif")
    } else {
        None
    }
}

pub open spec fn all_hex(s: Seq<char>) -> bool {
    forall|i: int| 0 <= i < s.len() ==> crate::text::is_hex(#[trigger] s[i])
}

/// The names the thumbnail cache gives its files: sixteen hex digits and an
/// image extension.
pub open spec fn is_cache_file_name(name: Seq<char>) -> bool {
    match rfind(name, "."@) {
        None => false,
        Some(i) => {
            let stem = name.subrange(0, i);
            let ext = lower(name.subrange(i + 1, name.len() as int));
            stem.len() == 16 && all_hex(stem) && (ext == "jpg"@ || ext == "png"@ || ext == "webp"@
                || ext == "gif"@ || ext == "avif"@)
        },
    }
}

fn all_hex_exec(s: &[char]) -> (r: bool)
    ensures
        r == all_hex(s@),
{
    let mut k: usize = 0;
    while k < s.len()
        invariant
            k <= s.len(),
            forall|j: int| 0 <= j < k ==> crate::text::is_hex(#[trigger] s@[j]),
        decreases s.len() - k,
    {
        if !crate::text::is_ascii_hexdigit(s[k]) {
            assert(!crate::text::is_hex(s@[k as int]));
            return false;
        }
        k += 1;
    }
    true
}

pub fn is_thumbnail_cache_file_name(file_name: &str) -> (r: bool)
    ensures
        r == is_cache_file_name(file_name@),
{
    let n = chars_of(file_name);
    proof {
        reveal_strlit(".");
    }
    let Some(i) = find_last(&n, &chars_of(".")) else {
        return false;
    };
    proof {
        crate::text::lemma_rfind_upto(n@, "."@, n@.len() - 1);
    }
    assert(crate::text::occurs_at(n@, "."@, i as int));
    assert(i + 1 <= n.len());
    let stem = slice(&n, 0, i);
    let ext = lower_vec(&slice(&n, i + 1, n.len()));
    if stem.len() != 16 {
        return false;
    }
    if !all_hex_exec(&stem) {
        return false;
    }
    is_lit(&ext, "jpg") || is_lit(&ext, "png") || is_lit(&ext, "webp") || is_lit(&ext, "gif")
        || is_lit(&ext, "avif")
}

/// Thirty days, in nanoseconds.
pub const REMOTE_THUMBNAIL_CACHE_MAX_AGE_NANOS: u128 = 2_592_000_000_000_000;

/// The largest thumbnail that is cached.
pub const REMOTE_THUMBNAIL_MAX_BYTES: usize = 5242880;

/// A thumbnail URL is cached only when it parses and uses HTTP or HTTPS.
pub fn check_thumbnail_url(url: &str) -> (r: Result<(), String>)
    ensures
        match r {
            Ok(()) => url_parts(url@) matches Some(p) && (p.0 == "http"@ || p.0 == "https"@),
            Err(m) => match url_parts(url@) {
                None => m@ == "Invalid thumbnail URL"@,
                Some(p) => !(p.0 == "http"@ || p.0 == "https"@) && m@
                    == "Thumbnail URL must use HTTP or HTTPS"@,
            },
        },
{
    let parsed = match parse_url(url) {
        Some(p) => p,
        None => {
            return Err(string_of(&chars_of("Invalid thumbnail URL")));
        },
    };
    let scheme = chars_of(parsed.scheme.as_str());
    if is_lit(&scheme, "http") || is_lit(&scheme, "https") {
        Ok(())
    } else {
        Err(string_of(&chars_of("Thumbnail URL must use HTTP or HTTPS")))
    }
}

/// A response announcing more bytes than a thumbnail may have is refused.
pub fn check_thumbnail_length(content_length: Option<u64>) -> (r: Result<(), String>)
    ensures
        match r {
            Ok(()) => !(content_length matches Some(n) && n > REMOTE_THUMBNAIL_MAX_BYTES),
            Err(m) => content_length matches Some(n) && n > REMOTE_THUMBNAIL_MAX_BYTES && m@
                == "Thumbnail is too large"@,
        },
{
    match content_length {
        Some(n) => if n > REMOTE_THUMBNAIL_MAX_BYTES as u64 {
            Err(string_of(&chars_of("Thumbnail is too large")))
        } else {
            Ok(())
        },
        None => Ok(()),
    }
}

/// Whether a chunk still fits after the bytes already read.
pub fn thumbnail_chunk_fits(read: usize, chunk: usize) -> (r: bool)
    ensures
        r == (read + chunk <= REMOTE_THUMBNAIL_MAX_BYTES),
{
    read <= REMOTE_THUMBNAIL_MAX_BYTES && chunk <= REMOTE_THUMBNAIL_MAX_BYTES - read
}

/// The cache files to delete, in order: those that
/// `should_delete_cache_file` allows, given the files kept (referenced or
/// protected) and the time now; each file as its name and modification
/// time.
pub open spec fn stale_files(files: Seq<(String, u128)>, kept: Seq<Seq<char>>, now: u128) -> Seq<Seq<char>>
    decreases files.len(),
{
    if files.len() == 0 {
        Seq::empty()
    } else {
        let rest = stale_files(files.drop_last(), kept, now);
        if should_delete_cache_file(files.last().0@, files.last().1, now, kept) {
            rest.push(files.last().0@)
        } else {
            rest
        }
    }
}

pub fn stale_thumbnail_cache_files(files: &[(String, u128)], kept: &[String], now: u128) -> (r: Vec<
    String,
>)
    ensures
        strs(r@) == stale_files(files@, strs(kept@), now),
{
    let mut r: Vec<String> = Vec::new();
    let mut i: usize = 0;
    while i < files.len()
        invariant
            i <= files.len(),
            strs(r@) == stale_files(files@.take(i as int), strs(kept@), now),
        decreases files.len() - i,
    {
        assert(files@.take(i + 1).drop_last() =~= files@.take(i as int));
        assert(files@.take(i + 1).last() == files@[i as int]);
        let ghost before = strs(r@);
        if should_delete_thumbnail_cache_file(files[i].0.as_str(), files[i].1, now, kept) {
            r.push(string_of(&chars_of(files[i].0.as_str())));
            assert(strs(r@) =~= before.push(files@[i as int].0@));
        }
        i += 1;
    }
    assert(files@.take(files.len() as int) =~= files@);
    r
}

/// The cache files referenced by some stored value, that is, whose name
/// occurs in it.
fn any_value_contains(values: &[String], name: &[char]) -> (r: bool)
    ensures
        r == exists|k: int| 0 <= k < values.len() && contains(values@[k]@, name@),
{
    let mut j: usize = 0;
    while j < values.len()
        invariant
            j <= values.len(),
            forall|k: int| 0 <= k < j ==> !contains(values@[k]@, name@),
        decreases values.len() - j,
    {
        if contains_seq(&chars_of(values[j].as_str()), name) {
            return true;
        }
        j += 1;
    }
    false
}

pub fn referenced_thumbnail_cache_files(file_names: &[String], reference_values: &[String]) -> (r: Vec<
    String,
>)
    ensures
        forall|n: Seq<char>| #![auto] strs(r@).contains(n) <==> (strs(file_names@).contains(n) && exists|
            j: int,
        | 0 <= j < reference_values.len() && contains(reference_values@[j]@, n)),
{
    let mut r: Vec<String> = Vec::new();
    let mut i: usize = 0;
    while i < file_names.len()
        invariant
            i <= file_names.len(),
            forall|n: Seq<char>| #![auto] strs(r@).contains(n) <==> (strs(file_names@).take(
                i as int,
            ).contains(n) && exists|j: int|
                0 <= j < reference_values.len() && contains(reference_values@[j]@, n)),
        decreases file_names.len() - i,
    {
        let name = chars_of(file_names[i].as_str());
        let found = any_value_contains(reference_values, &name);
        let ghost before = strs(r@);
        let ghost fs = strs(file_names@);
        assert(fs.take(i + 1) =~= fs.take(i as int).push(fs[i as int]));
        if found {
            r.push(string_of(&name));
            assert(strs(r@) =~= before.push(name@));
        }
        let ghost t0 = fs.take(i as int);
        let ghost t1 = fs.take(i + 1);
        let ghost after = strs(r@);
        assert(t1 =~= t0.push(name@));
        assert forall|n: Seq<char>| #![auto] after.contains(n) <==> (t1.contains(n) && exists|j: int|
            0 <= j < reference_values.len() && contains(reference_values@[j]@, n)) by {
            let e = exists|j: int| 0 <= j < reference_values.len() && contains(reference_values@[j]@, n);
            assert(before.contains(n) <==> (t0.contains(n) && e));
            if before.contains(n) {
                let k = choose|k: int| 0 <= k < before.len() && before[k] == n;
                assert(after[k] == n);
                let m = choose|m: int| 0 <= m < t0.len() && t0[m] == n;
                assert(t1[m] == n);
            }
            if t0.contains(n) {
                let m = choose|m: int| 0 <= m < t0.len() && t0[m] == n;
                assert(t1[m] == n);
            }
            if n == name@ {
                assert(t1[i as int] == n);
                if found {
                    assert(after[before.len() as int] == n);
                }
            }
            if after.contains(n) && !before.contains(n) {
                let k = choose|k: int| 0 <= k < after.len() && after[k] == n;
                if k < before.len() {
                    assert(before[k] == n);
                }
                assert(n == name@);
            }
            if t1.contains(n) && !t0.contains(n) {
                let k = choose|k: int| 0 <= k < t1.len() && t1[k] == n;
                if k < i {
                    assert(t0[k] == n);
                }
                assert(n == name@);
            }
        }
        i += 1;
    }
    assert(strs(file_names@).take(file_names.len() as int) =~= strs(file_names@));
    r
}


/// Whether a cache file may be deleted: a cache file name, referenced by
/// nothing, and last modified at least thirty days before `now` (times in
/// nanoseconds since the Unix epoch).
pub open spec fn should_delete_cache_file(
    name: Seq<char>,
    modified_at: u128,
    now: u128,
    referenced: Seq<Seq<char>>,
) -> bool {
    is_cache_file_name(name) && !referenced.contains(name) && now >= modified_at && now
        - modified_at >= REMOTE_THUMBNAIL_CACHE_MAX_AGE_NANOS
}

pub fn should_delete_thumbnail_cache_file(
    file_name: &str,
    modified_at: u128,
    now: u128,
    referenced_files: &[String],
) -> (r: bool)
    ensures
        r == should_delete_cache_file(file_name@, modified_at, now, strs(referenced_files@)),
{
    if !is_thumbnail_cache_file_name(file_name) {
        return false;
    }
    let n = chars_of(file_name);
    let ghost rv = strs(referenced_files@);
    let mut k: usize = 0;
    while k < referenced_files.len()
        invariant
            rv == strs(referenced_files@),
            n@ == file_name@,
            k <= referenced_files.len(),
            forall|j: int| 0 <= j < k ==> rv[j] != file_name@,
        decreases referenced_files.len() - k,
    {
        if seq_eq(&chars_of(referenced_files[k].as_str()), &n) {
            assert(rv[k as int] == file_name@);
            return false;
        }
        k += 1;
    }
    assert(!rv.contains(file_name@));
    now >= modified_at && now - modified_at >= REMOTE_THUMBNAIL_CACHE_MAX_AGE_NANOS
}


// ---------------------------------------------------------------------------
// Facebook reels, continued
// ---------------------------------------------------------------------------

/// A parsed URL on a Facebook host whose path is `/reel` or below it.
pub open spec fn reel_parts(parts: Option<crate::urls::UrlView>) -> bool {
    match parts {
        Some(p) => match p.1 {
            Some(h) => {
                let host = lower(h);
                (host == "facebook.com"@ || has_suffix(host, ".facebook.com"@)) && (p.2 == "/reel"@
                    || has_prefix(p.2, "/reel/"@))
            },
            None => false,
        },
        None => false,
    }
}

/// A Facebook URL whose path is `/reel` or below it.
pub open spec fn is_reel_url(url: Seq<char>) -> bool {
    reel_parts(url_parts(url))
}

pub fn is_facebook_reel_url(url: &str) -> (r: bool)
    ensures
        r == is_reel_url(url@),
{
    is_facebook_reel_parsed(&parse_url(url))
}

/// Decides whether a URL is a Facebook reel from the URL parser's verdict
/// on it.
pub fn is_facebook_reel_parsed(parsed: &Option<crate::urls::ParsedUrl>) -> (r: bool)
    ensures
        r == reel_parts(crate::cli::parsed_view(*parsed)),
{
    let Some(parsed) = parsed else {
        return false;
    };
    let Some(host) = &parsed.host else {
        return false;
    };
    let h = lower_vec(&chars_of(host.as_str()));
    let is_facebook = is_lit(&h, "facebook.com") || ends_with(&h, &chars_of(".facebook.com"));
    let path = chars_of(parsed.path.as_str());
    is_facebook && (is_lit(&path, "/reel") || starts_with(&path, &chars_of("/reel/")))
}

/// Titles that say nothing: blank, "video", "facebook video" or a URL.
pub open spec fn is_placeholder_title(title: Seq<char>) -> bool {
    let t = trim(title);
    t.len() == 0 || lower(t) == "video"@ || lower(t) == "facebook video"@ || url_parts(t) is Some
}

pub fn is_placeholder_facebook_title(title: &str) -> (r: bool)
    ensures
        r == is_placeholder_title(title@),
{
    let t = trim_ws(&chars_of(title));
    proof {
        reveal_strlit("video");
        reveal_strlit("facebook video");
        assert(lower("video"@) =~= "video"@);
        assert(lower("facebook video"@) =~= "facebook video"@);
    }
    if t.len() == 0 || eq_ignore_case(&t, &chars_of("video")) || eq_ignore_case(
        &t,
        &chars_of("facebook video"),
    ) {
        return true;
    }
    let ts = string_of(&t);
    parse_url(ts.as_str()).is_some()
}

pub const FACEBOOK_TITLE_PLACEHOLDER_PATTERN: &'static str = r"(?is)^\s*(?:video|facebook video|https?://\S+|(?:(?:\d+(?:[.,]\d+)?[kmb]?\s*(?:comments?|reactions?|views?|likes?|shares?))\s*(?:[|·•—–-]\s*)?)+.*)$";

/// The arguments after asking yt-dlp to replace a placeholder title of a
/// reel with the recovered title; unchanged for other URLs or titles.
pub open spec fn with_title_replacement(args: Seq<Seq<char>>, url: Seq<char>, title: Option<
    Seq<char>,
>) -> Seq<Seq<char>> {
    match title {
        Some(t) => if !is_placeholder_title(trim(t)) && is_reel_url(url) {
            args + seq![
                "--replace-in-metadata"@,
                "title"@,
                FACEBOOK_TITLE_PLACEHOLDER_PATTERN@,
                escaped_replacement(trim(t)),
            ]
        } else {
            args
        },
        None => args,
    }
}

pub fn push_facebook_title_replacement_args(args: &mut Vec<String>, url: &str, title: Option<&str>)
    ensures
        strs(final(args)@) == with_title_replacement(strs(old(args)@), url@, opt_view(title)),
{
    let Some(raw) = title else {
        return;
    };
    let t = string_of(&trim_ws(&chars_of(raw)));
    if is_placeholder_facebook_title(t.as_str()) {
        return;
    }
    if !is_facebook_reel_url(url) {
        return;
    }
    let ghost before = strs(args@);
    args.push(string_of(&chars_of("--replace-in-metadata")));
    args.push(string_of(&chars_of("title")));
    args.push(string_of(&chars_of(FACEBOOK_TITLE_PLACEHOLDER_PATTERN)));
    args.push(escape_metadata_replacement(t.as_str()));
    assert(strs(args@) =~= before + seq![
        "--replace-in-metadata"@,
        "title"@,
        FACEBOOK_TITLE_PLACEHOLDER_PATTERN@,
        escaped_replacement(t@),
    ]);
}

/// The core fallback applies to a reel whose extractor could not parse it.
pub fn should_core_fallback_facebook_reel(url: &str, recent_lines: &[String]) -> (r: bool)
    ensures
        r == (is_reel_url(url@) && any_facebook_parse_failure(strs(recent_lines@))),
{
    is_facebook_reel_url(url) && is_facebook_parse_failure(recent_lines)
}

pub open spec fn is_reel_id(id: Seq<char>) -> bool {
    forall|i: int| 0 <= i < id.len() ==> is_alnum(#[trigger] id[i]) || id[i] == '-' || id[i] == '_'
}

/// The generic name of a reel fetched by the core fallback.
pub open spec fn reel_basename(url: Seq<char>) -> Seq<char> {
    match url_parts(url) {
        Some(p) => match p.3 {
            Some(segs) => if segs.len() > 0 && is_reel_id(segs.last()) {
                "facebook-com-reel-"@ + segs.last()
            } else {
                "facebook-com-reel"@
            },
            None => "facebook-com-reel"@,
        },
        None => "facebook-com-reel"@,
    }
}

fn is_reel_id_exec(id: &[char]) -> (r: bool)
    ensures
        r == is_reel_id(id@),
{
    let mut k: usize = 0;
    while k < id.len()
        invariant
            k <= id.len(),
            forall|j: int| 0 <= j < k ==> is_alnum(#[trigger] id@[j]) || id@[j] == '-' || id@[j] == '_',
        decreases id.len() - k,
    {
        let c = id[k];
        if !(is_ascii_alphanumeric(c) || c == '-' || c == '_') {
            return false;
        }
        k += 1;
    }
    true
}

pub fn facebook_reel_fallback_basename(url: &str) -> (r: String)
    ensures
        r@ == reel_basename(url@),
{
    if let Some(parsed) = parse_url(url) {
        if let Some(segs) = &parsed.segments {
            if segs.len() > 0 {
                let last = chars_of(segs[segs.len() - 1].as_str());
                if is_reel_id_exec(&last) {
                    let mut v = chars_of("facebook-com-reel-");
                    extend(&mut v, &last);
                    return string_of(&v);
                }
            }
        }
    }
    string_of(&chars_of("facebook-com-reel"))
}

pub open spec fn is_credential_flag(a: Seq<char>) -> bool {
    a == "--cookies"@ || a == "--cookies-from-browser"@ || a == "--downloader"@ || a
        == "--downloader-args"@
}

/// `args[i..]` without the cookie and downloader flags and their values.
pub open spec fn without_credential_flags(args: Seq<Seq<char>>, i: int) -> Seq<Seq<char>>
    decreases args.len() + 1 - i,
{
    if i < 0 || i >= args.len() {
        seq![]
    } else if is_credential_flag(args[i]) {
        without_credential_flags(args, i + 2)
    } else {
        seq![args[i]] + without_credential_flags(args, i + 1)
    }
}

/// The arguments of the core fallback download of a reel: no cookies or
/// external downloader, the native downloader with browser impersonation,
/// the chosen output directory, and the generic reel name when there is no
/// real title.
pub open spec fn reel_fallback_args(
    args: Seq<Seq<char>>,
    url: Seq<char>,
    dir: Seq<char>,
    prefix: Seq<char>,
    title: Option<Seq<char>>,
    suffix: Option<Seq<char>>,
) -> Seq<Seq<char>> {
    let a = without_credential_flags(args, 0);
    let a = with_arg_before_url(a, "--downloader"@, "native"@);
    let a = with_arg_before_url(a, "--impersonate"@, "chrome"@);
    let a = with_output_path(a, dir);
    if title is None || is_placeholder_title(title->0) {
        with_output_template(
            a,
            with_collision_suffix(prefix + reel_basename(url) + ".%(ext)s"@, suffix),
        )
    } else {
        a
    }
}

fn is_credential_flag_exec(a: &str) -> (r: bool)
    ensures
        r == is_credential_flag(a@),
{
    let v = chars_of(a);
    is_lit(&v, "--cookies") || is_lit(&v, "--cookies-from-browser") || is_lit(&v, "--downloader")
        || is_lit(&v, "--downloader-args")
}

pub fn facebook_reel_core_fallback_args(
    args: &[String],
    url: &str,
    output_directory: &str,
    item_prefix: &str,
    title: Option<&str>,
    collision_suffix: Option<&str>,
) -> (r: Vec<String>)
    ensures
        strs(r@) == reel_fallback_args(
            strs(args@),
            url@,
            output_directory@,
            item_prefix@,
            opt_view(title),
            opt_view(collision_suffix),
        ),
{
    let ghost av = strs(args@);
    let mut fallback_args: Vec<String> = Vec::new();
    let mut index: usize = 0;
    while index < args.len()
        invariant
            av == strs(args@),
            strs(fallback_args@) + without_credential_flags(av, index as int)
                == without_credential_flags(av, 0),
        decreases args.len() - index,
    {
        let ghost before = strs(fallback_args@);
        let ghost old_index = index as int;
        if is_credential_flag_exec(args[index].as_str()) {
            index = if args.len() - index >= 2 {
                index + 2
            } else {
                args.len()
            };
            assert(without_credential_flags(av, old_index) == without_credential_flags(
                av,
                old_index + 2,
            ));
            assert(without_credential_flags(av, old_index) == without_credential_flags(
                av,
                index as int,
            ));
        } else {
            fallback_args.push(args[index].clone());
            assert(before + without_credential_flags(av, index as int) =~= strs(fallback_args@)
                + without_credential_flags(av, index + 1));
            index += 1;
        }
    }
    assert(strs(fallback_args@) =~= without_credential_flags(av, 0));
    push_arg_before_url(&mut fallback_args, "--downloader", "native");
    push_arg_before_url(&mut fallback_args, "--impersonate", "chrome");
    replace_output_path(&mut fallback_args, output_directory);
    let placeholder = match title {
        None => true,
        Some(t) => is_placeholder_facebook_title(t),
    };
    if placeholder {
        let mut name = chars_of(item_prefix);
        push_str(&mut name, facebook_reel_fallback_basename(url).as_str());
        push_str(&mut name, ".%(ext)s");
        let template = apply_output_collision_suffix(string_of(&name), collision_suffix);
        replace_output_template(&mut fallback_args, template);
    }
    fallback_args
}

// ---------------------------------------------------------------------------
// Downloaded files
// ---------------------------------------------------------------------------

pub open spec fn is_media_path(path: Seq<char>) -> bool {
    let l = lower(path);
    ||| has_suffix(l, ".mp3"@)
    ||| has_suffix(l, ".m4a"@)
    ||| has_suffix(l, ".opus"@)
    ||| has_suffix(l, ".mp4"@)
    ||| has_suffix(l, ".mkv"@)
    ||| has_suffix(l, ".webm"@)
    ||| has_suffix(l, ".flac"@)
    ||| has_suffix(l, ".wav"@)
}

/// Whether a path names an audio or video file.
pub fn is_media_filepath(path: &str) -> (r: bool)
    ensures
        r == is_media_path(path@),
{
    let l = lower_vec(&chars_of(path));
    ends_with(&l, &chars_of(".mp3")) || ends_with(&l, &chars_of(".m4a")) || ends_with(
        &l,
        &chars_of(".opus"),
    ) || ends_with(&l, &chars_of(".mp4")) || ends_with(&l, &chars_of(".mkv")) || ends_with(
        &l,
        &chars_of(".webm"),
    ) || ends_with(&l, &chars_of(".flac")) || ends_with(&l, &chars_of(".wav"))
}

/// A path from yt-dlp output without surrounding whitespace and quotes.
pub open spec fn cleaned_path(v: Seq<char>) -> Seq<char> {
    trim(trim_cls(trim(v), CharClass::Two('"', '\'')))
}

pub fn clean_ytdlp_filepath(value: &str) -> (r: String)
    ensures
        r@ == cleaned_path(value@),
{
    let t = trim_ws(&chars_of(value));
    let t = trim_class(&t, &CharClass::Two('"', '\''));
    string_of(&trim_ws(&t))
}

/// The media file a yt-dlp output line names: a destination, a merge
/// target, or a file already downloaded.
pub open spec fn output_line_filepath(line: Seq<char>) -> Option<Seq<char>> {
    let t = trim(line);
    let candidate = match after_first(t, "Destination:"@) {
        Some(rest) => Some(cleaned_path(rest)),
        None => if has_prefix(t, "[Merger] Merging formats into "@) {
            Some(
                cleaned_path(
                    t.subrange("[Merger] Merging formats into "@.len() as int, t.len() as int),
                ),
            )
        } else if has_prefix(t, "[download] "@) && has_suffix(
            t.subrange("[download] "@.len() as int, t.len() as int),
            " has already been downloaded"@,
        ) {
            let rest = t.subrange("[download] "@.len() as int, t.len() as int);
            Some(cleaned_path(rest.subrange(0, rest.len() - " has already been downloaded"@.len())))
        } else {
            None
        },
    };
    match candidate {
        Some(c) => if is_media_path(c) {
            Some(c)
        } else {
            None
        },
        None => None,
    }
}

pub fn filepath_from_download_output(line: &str) -> (r: Option<String>)
    ensures
        ostr(r) == output_line_filepath(line@),
{
    let t = trim_ws(&chars_of(line));
    let candidate = match after_first_exec(&t, &chars_of("Destination:")) {
        Some(rest) => Some(clean_ytdlp_filepath(string_of(&rest).as_str())),
        None => {
            if let Some(rest) = strip_prefix(&t, &chars_of("[Merger] Merging formats into ")) {
                Some(clean_ytdlp_filepath(string_of(&rest).as_str()))
            } else if let Some(rest) = strip_prefix(&t, &chars_of("[download] ")) {
                match strip_suffix(&rest, &chars_of(" has already been downloaded")) {
                    Some(p) => Some(clean_ytdlp_filepath(string_of(&p).as_str())),
                    None => None,
                }
            } else {
                None
            }
        },
    };
    match candidate {
        Some(c) => if is_media_filepath(c.as_str()) {
            Some(c)
        } else {
            None
        },
        None => None,
    }
}

/// `paths` with `p` appended unless it is empty or already there.
pub open spec fn pushed_unique(paths: Seq<Seq<char>>, p: Seq<char>) -> Seq<Seq<char>> {
    if p.len() == 0 || paths.contains(p) {
        paths
    } else {
        paths.push(p)
    }
}

pub open spec fn pushed_all_unique(paths: Seq<Seq<char>>, items: Seq<Seq<char>>) -> Seq<Seq<char>>
    decreases items.len(),
{
    if items.len() == 0 {
        paths
    } else {
        pushed_unique(pushed_all_unique(paths, items.drop_last()), items.last())
    }
}

pub fn push_unique_filepath(paths: &mut Vec<String>, path: &str)
    ensures
        strs(final(paths)@) == pushed_unique(strs(old(paths)@), path@),
{
    let p = chars_of(path);
    if p.len() == 0 {
        return;
    }
    let ghost pv = strs(paths@);
    let mut k: usize = 0;
    while k < paths.len()
        invariant
            pv == strs(paths@),
            p@ == path@,
            p@.len() > 0,
            k <= paths.len(),
            forall|j: int| 0 <= j < k ==> pv[j] != path@,
        decreases paths.len() - k,
    {
        if seq_eq(&chars_of(paths[k].as_str()), &p) {
            assert(pv[k as int] == path@);
            return;
        }
        k += 1;
    }
    assert(!pv.contains(path@));
    paths.push(string_of(&p));
    assert(strs(paths@) =~= pv.push(path@));
}

fn push_all_unique(paths: &mut Vec<String>, items: &Vec<Vec<char>>)
    ensures
        strs(final(paths)@) == pushed_all_unique(strs(old(paths)@), vviews(items@)),
{
    let ghost start = strs(paths@);
    let mut k: usize = 0;
    while k < items.len()
        invariant
            k <= items.len(),
            strs(paths@) == pushed_all_unique(start, vviews(items@).take(k as int)),
        decreases items.len() - k,
    {
        let it = string_of(&items[k]);
        push_unique_filepath(paths, it.as_str());
        assert(vviews(items@).take(k + 1).drop_last() =~= vviews(items@).take(k as int));
        k += 1;
    }
    assert(vviews(items@).take(items.len() as int) =~= vviews(items@));
}

/// Paths printed one per line, trimmed, without blanks or repeats.
pub open spec fn printed_filepaths(contents: Seq<char>) -> Seq<Seq<char>> {
    pushed_all_unique(seq![], lines(contents).map_values(|l: Seq<char>| trim(l)))
}

pub fn parse_printed_filepaths(contents: &str) -> (r: Vec<String>)
    ensures
        strs(r@) == printed_filepaths(contents@),
{
    let ls = lines_of(&chars_of(contents));
    let mut trimmed: Vec<Vec<char>> = Vec::new();
    let mut k: usize = 0;
    while k < ls.len()
        invariant
            k <= ls.len(),
            vviews(trimmed@) == vviews(ls@).take(k as int).map_values(|l: Seq<char>| trim(l)),
        decreases ls.len() - k,
    {
        let ghost before = trimmed@;
        let t = trim_ws(&ls[k]);
        trimmed.push(t);
        assert(vviews(trimmed@) =~= vviews(before).push(trim(ls[k as int]@)));
        assert(vviews(ls@).take(k + 1) =~= vviews(ls@).take(k as int).push(ls[k as int]@));
        assert(vviews(trimmed@) =~= vviews(ls@).take(k + 1).map_values(|l: Seq<char>| trim(l)));
        k += 1;
    }
    assert(vviews(ls@).take(ls.len() as int) =~= vviews(ls@));
    let mut paths: Vec<String> = Vec::new();
    assert(strs(paths@) =~= Seq::<Seq<char>>::empty());
    push_all_unique(&mut paths, &trimmed);
    paths
}

pub open spec fn is_chapter_line(line: Seq<char>) -> bool {
    contains(line, "[SplitChapters]"@) && contains(line, "Destination:"@)
}

/// The destinations of the chapter files that yt-dlp split out.
pub open spec fn chapter_destinations(lines: Seq<Seq<char>>) -> Seq<Seq<char>>
    decreases lines.len(),
{
    if lines.len() == 0 {
        seq![]
    } else {
        let rest = chapter_destinations(lines.drop_last());
        let l = lines.last();
        if is_chapter_line(l) {
            rest.push(trim(after_first(l, "Destination:"@)->0))
        } else {
            rest
        }
    }
}

pub fn parse_split_chapter_filepaths(lines: &[String]) -> (r: Vec<String>)
    ensures
        strs(r@) == pushed_all_unique(seq![], chapter_destinations(strs(lines@))),
{
    let ghost lv = strs(lines@);
    let mut items: Vec<Vec<char>> = Vec::new();
    let mut k: usize = 0;
    while k < lines.len()
        invariant
            lv == strs(lines@),
            k <= lines.len(),
            vviews(items@) == chapter_destinations(lv.take(k as int)),
        decreases lines.len() - k,
    {
        let l = chars_of(lines[k].as_str());
        assert(lv.take(k + 1).drop_last() =~= lv.take(k as int));
        assert(lv.take(k + 1).last() == l@);
        if contains_seq(&l, &chars_of("[SplitChapters]")) && contains_seq(
            &l,
            &chars_of("Destination:"),
        ) {
            let rest = after_first_exec(&l, &chars_of("Destination:"));
            match rest {
                Some(p) => {
                    let ghost before = items@;
                    items.push(trim_ws(&p));
                    assert(vviews(items@) =~= vviews(before).push(trim(p@)));
                },
                None => {},
            }
        }
        k += 1;
    }
    assert(lv.take(lines.len() as int) =~= lv);
    let mut paths: Vec<String> = Vec::new();
    assert(strs(paths@) =~= Seq::<Seq<char>>::empty());
    push_all_unique(&mut paths, &items);
    paths
}

/// All output files: the printed paths (or the final path when none were
/// printed) followed by the chapter files, without blanks or repeats.
pub open spec fn all_output_filepaths(
    printed: Seq<Seq<char>>,
    chapters: Seq<Seq<char>>,
    final_path: Option<Seq<char>>,
) -> Seq<Seq<char>> {
    let first = if printed.len() == 0 {
        match final_path {
            Some(f) => seq![f],
            None => seq![],
        }
    } else {
        printed
    };
    pushed_all_unique(pushed_all_unique(seq![], first), chapters)
}

fn to_char_vecs(v: &[String]) -> (r: Vec<Vec<char>>)
    ensures
        vviews(r@) == strs(v@),
{
    let mut out: Vec<Vec<char>> = Vec::new();
    let mut k: usize = 0;
    while k < v.len()
        invariant
            k <= v.len(),
            vviews(out@) == strs(v@).take(k as int),
        decreases v.len() - k,
    {
        let ghost before = out@;
        let c = chars_of(v[k].as_str());
        out.push(c);
        assert(vviews(out@) =~= vviews(before).push(v[k as int]@));
        assert(vviews(out@) =~= strs(v@).take(k + 1));
        k += 1;
    }
    assert(strs(v@).take(v.len() as int) =~= strs(v@));
    out
}

pub fn output_filepaths(
    printed_filepaths: &[String],
    chapter_filepaths: &[String],
    final_filepath: &Option<String>,
) -> (r: Vec<String>)
    ensures
        strs(r@) == all_output_filepaths(
            strs(printed_filepaths@),
            strs(chapter_filepaths@),
            ostr(*final_filepath),
        ),
{
    let mut paths: Vec<String> = Vec::new();
    assert(strs(paths@) =~= Seq::<Seq<char>>::empty());
    let first: Vec<Vec<char>> = if printed_filepaths.len() == 0 {
        let mut f: Vec<Vec<char>> = Vec::new();
        if let Some(p) = final_filepath {
            f.push(chars_of(p.as_str()));
        }
        f
    } else {
        to_char_vecs(printed_filepaths)
    };
    assert(vviews(first@) =~= (if printed_filepaths@.len() == 0 {
        match ostr(*final_filepath) {
            Some(f) => seq![f],
            None => seq![],
        }
    } else {
        strs(printed_filepaths@)
    }));
    push_all_unique(&mut paths, &first);
    push_all_unique(&mut paths, &to_char_vecs(chapter_filepaths));
    paths
}

proof fn lemma_pushed_all_unique(paths: Seq<Seq<char>>, items: Seq<Seq<char>>)
    requires
        paths.no_duplicates(),
        forall|i: int| 0 <= i < paths.len() ==> (#[trigger] paths[i]).len() > 0,
    ensures
        pushed_all_unique(paths, items).no_duplicates(),
        forall|i: int|
            0 <= i < pushed_all_unique(paths, items).len() ==> (#[trigger] pushed_all_unique(
                paths,
                items,
            )[i]).len() > 0,
    decreases items.len(),
{
    if items.len() > 0 {
        lemma_pushed_all_unique(paths, items.drop_last());
        let q = pushed_all_unique(paths, items.drop_last());
        let p = items.last();
        if !(p.len() == 0 || q.contains(p)) {
            let r = q.push(p);
            assert forall|i: int, j: int| 0 <= i < r.len() && 0 <= j < r.len() && i != j implies r[i]
                != r[j] by {
                if i == q.len() && r[i] == r[j] {
                    assert(q.contains(p));
                }
                if j == q.len() && r[i] == r[j] {
                    assert(q.contains(p));
                }
            }
        }
    }
}

/// The output file list never names a file twice and never holds an empty
/// path.
pub proof fn law_output_filepaths_are_distinct(
    printed: Seq<Seq<char>>,
    chapters: Seq<Seq<char>>,
    final_path: Option<Seq<char>>,
)
    ensures
        all_output_filepaths(printed, chapters, final_path).no_duplicates(),
        forall|i: int|
            0 <= i < all_output_filepaths(printed, chapters, final_path).len() ==> (
            #[trigger] all_output_filepaths(printed, chapters, final_path)[i]).len() > 0,
{
    let first = if printed.len() == 0 {
        match final_path {
            Some(f) => seq![f],
            None => seq![],
        }
    } else {
        printed
    };
    let e: Seq<Seq<char>> = seq![];
    lemma_pushed_all_unique(e, first);
    lemma_pushed_all_unique(pushed_all_unique(e, first), chapters);
}

// ---------------------------------------------------------------------------
// Titles and collections
// ---------------------------------------------------------------------------

/// `std::path::Path::file_stem`, read back as text when it is valid UTF-8.
/// Trusted, as documented: the stem is a part of the path's final
/// component, so it holds no `/` (a separator on every platform), and the
/// stem of a bare file name is `stem_of` the name. Which component is last
/// in other paths depends on the platform's separators and is not stated.
#[verifier::external_body]
pub(crate) fn title_from_filepath(filepath: &str) -> (r: Option<String>)
    ensures
        crate::live::plain_file_name(filepath@) ==> ostr(r) == Some(crate::live::stem_of(filepath@)),
        r matches Some(t) ==> crate::live::no_slash(t@),
{
    std::path::Path::new(filepath).file_stem().and_then(|s| s.to_str()).map(str::to_string)
}

pub open spec fn or_else(a: Option<Seq<char>>, b: Option<Seq<char>>) -> Option<Seq<char>> {
    match a {
        Some(x) => Some(x),
        None => b,
    }
}

/// The title shown for a finished download, given the stem of the final
/// file's name (when there is a final file and its name has a stem): for
/// playlist items the current item's title first, for single downloads the
/// metadata title first; then the file's stem, then the other title.
pub open spec fn display_title(
    metadata_title: Option<Seq<char>>,
    current_title: Option<Seq<char>>,
    file_title: Option<Seq<char>>,
    total_count: Option<u32>,
) -> Option<Seq<char>> {
    let many = match total_count {
        Some(n) => n > 1,
        None => false,
    };
    if many {
        or_else(or_else(current_title, file_title), metadata_title)
    } else {
        or_else(or_else(metadata_title, file_title), current_title)
    }
}

/// The title shown for a finished download, given the stem of its file's
/// name; see `display_title`.
pub fn display_title_with_file_title(
    metadata_title: Option<String>,
    current_title: Option<String>,
    file_title: Option<String>,
    total_count: Option<u32>,
) -> (r: Option<String>)
    ensures
        ostr(r) == display_title(
            ostr(metadata_title),
            ostr(current_title),
            ostr(file_title),
            total_count,
        ),
{
    let many = match total_count {
        Some(n) => n > 1,
        None => false,
    };
    let (first, last) = if many {
        (current_title, metadata_title)
    } else {
        (metadata_title, current_title)
    };
    match first {
        Some(t) => Some(t),
        None => match file_title {
            Some(t) => Some(t),
            None => last,
        },
    }
}

/// What the platform may read as the stem of the final file: none without a
/// file, no `/` in it, and `stem_of` a bare file name.
pub open spec fn file_title_fits(final_filepath: Option<Seq<char>>, file_title: Option<Seq<char>>) -> bool {
    &&& final_filepath is None ==> file_title is None
    &&& (final_filepath matches Some(p) && crate::live::plain_file_name(p)) ==> file_title == Some(
        crate::live::stem_of(final_filepath.unwrap()),
    )
    &&& file_title matches Some(t) ==> crate::live::no_slash(t)
}

/// The title shown for a finished download; the final file's stem is read
/// only when the preferred title is missing.
pub fn display_title_for_download(
    metadata_title: Option<String>,
    current_title: Option<String>,
    final_filepath: &Option<String>,
    total_count: Option<u32>,
) -> (r: Option<String>)
    ensures
        exists|file_title: Option<Seq<char>>|
            #[trigger] file_title_fits(ostr(*final_filepath), file_title) && ostr(r) == display_title(
                ostr(metadata_title),
                ostr(current_title),
                file_title,
                total_count,
            ),
{
    let many = match total_count {
        Some(n) => n > 1,
        None => false,
    };
    let preferred = if many {
        current_title.is_some()
    } else {
        metadata_title.is_some()
    };
    let ghost candidate: Option<Seq<char>> = match final_filepath {
        Some(p) => if crate::live::plain_file_name(p@) {
            Some(crate::live::stem_of(p@))
        } else {
            None
        },
        None => None,
    };
    let file_title = if preferred {
        None
    } else {
        match final_filepath {
            Some(p) => title_from_filepath(p.as_str()),
            None => None,
        }
    };
    let ghost witness = if preferred {
        candidate
    } else {
        ostr(file_title)
    };
    let ghost mt = ostr(metadata_title);
    let ghost ct = ostr(current_title);
    let r = display_title_with_file_title(metadata_title, current_title, file_title, total_count);
    proof {
        if preferred {
            assert(display_title(mt, ct, ostr(file_title), total_count) == display_title(
                mt,
                ct,
                witness,
                total_count,
            ));
        }
        if let Some(t) = candidate {
            let p = final_filepath.unwrap()@;
            crate::live::lemma_stem_of(p);
            assert forall|i: int| 0 <= i < t.len() implies t[i] != '/' by {
                assert(t[i] == p[i]);
            }
        }
        assert(file_title_fits(ostr(*final_filepath), witness));
    }
    r
}

/// The automatic collection for a playlist download, when enabled and named.
pub open spec fn auto_collection_names(enabled: bool, playlist_name: Option<Seq<char>>) -> Seq<
    Seq<char>,
> {
    if !enabled {
        seq![]
    } else {
        match playlist_name {
            Some(n) => if trim(n).len() > 0 {
                seq![trim(n)]
            } else {
                seq![]
            },
            None => seq![],
        }
    }
}

pub fn build_auto_collection_names(enabled: bool, playlist_collection_name: Option<&str>) -> (r: Vec<
    String,
>)
    ensures
        strs(r@) == auto_collection_names(enabled, opt_view(playlist_collection_name)),
{
    let mut names: Vec<String> = Vec::new();
    if !enabled {
        assert(strs(names@) =~= Seq::<Seq<char>>::empty());
        return names;
    }
    if let Some(raw) = playlist_collection_name {
        let name = trim_ws(&chars_of(raw));
        if name.len() > 0 {
            names.push(string_of(&name));
            assert(strs(names@) =~= seq![name@]);
            return names;
        }
    }
    assert(strs(names@) =~= Seq::<Seq<char>>::empty());
    names
}

/// The collections of a split download: the base names, plus the parent
/// title when enabled and not already present up to Unicode case.
pub open spec fn output_collection_names(
    base: Seq<Seq<char>>,
    enabled: bool,
    include_split_parent: bool,
    parent_title: Option<Seq<char>>,
) -> Seq<Seq<char>> {
    if !enabled || !include_split_parent {
        base
    } else {
        match parent_title {
            Some(raw) => {
                let name = trim(raw);
                let normalized = unicode_lowercase(name);
                if name.len() > 0 && !(exists|i: int|
                    0 <= i < base.len() && unicode_lowercase(trim(#[trigger] base[i]))
                        == normalized) {
                    base.push(name)
                } else {
                    base
                }
            },
            None => base,
        }
    }
}

pub fn build_output_collection_names(
    base_names: &[String],
    enabled: bool,
    include_split_parent: bool,
    parent_title: Option<&str>,
) -> (r: Vec<String>)
    ensures
        strs(r@) == output_collection_names(
            strs(base_names@),
            enabled,
            include_split_parent,
            opt_view(parent_title),
        ),
{
    let ghost bv = strs(base_names@);
    let mut names: Vec<String> = Vec::new();
    let mut k: usize = 0;
    while k < base_names.len()
        invariant
            bv == strs(base_names@),
            k <= base_names.len(),
            strs(names@) == bv.take(k as int),
        decreases base_names.len() - k,
    {
        let ghost before = names@;
        let c = base_names[k].clone();
        names.push(c);
        assert(strs(names@) =~= strs(before).push(base_names[k as int]@));
        assert(strs(names@) =~= bv.take(k + 1));
        k += 1;
    }
    assert(bv.take(base_names.len() as int) =~= bv);
    if !enabled || !include_split_parent {
        return names;
    }
    let Some(raw) = parent_title else {
        return names;
    };
    let name_chars = trim_ws(&chars_of(raw));
    if name_chars.len() == 0 {
        return names;
    }
    let name = string_of(&name_chars);
    let normalized = chars_of(to_lowercase(name.as_str()).as_str());
    let mut found = false;
    let mut j: usize = 0;
    while j < base_names.len()
        invariant
            bv == strs(base_names@),
            j <= base_names.len(),
            normalized@ == unicode_lowercase(name@),
            !found ==> forall|i: int|
                0 <= i < j ==> unicode_lowercase(trim(#[trigger] bv[i])) != normalized@,
            found ==> exists|i: int|
                0 <= i < bv.len() && unicode_lowercase(trim(#[trigger] bv[i])) == normalized@,
        decreases base_names.len() - j,
    {
        let existing = string_of(&trim_ws(&chars_of(base_names[j].as_str())));
        let lowered = chars_of(to_lowercase(existing.as_str()).as_str());
        if seq_eq(&lowered, &normalized) {
            assert(unicode_lowercase(trim(bv[j as int])) == normalized@);
            found = true;
        }
        j += 1;
    }
    if found {
        return names;
    }
    let ghost before = names@;
    names.push(name);
    assert(strs(names@) =~= strs(before).push(name_chars@));
    names
}

// ---------------------------------------------------------------------------
// Arguments and errors
// ---------------------------------------------------------------------------

pub open spec fn overwrite_arg(skip_existing: Option<bool>) -> Seq<char> {
    if skip_existing == Some(true) {
        "--no-overwrites"@
    } else {
        "--force-overwrites"@
    }
}

/// Adds the overwrite flag: overwriting by default, which avoids HTTP 416
/// errors from stale partial files, or keeping files when asked to skip.
pub fn push_overwrite_args(args: &mut Vec<String>, skip_existing: Option<bool>)
    ensures
        strs(final(args)@) == strs(old(args)@).push(overwrite_arg(skip_existing)),
{
    let ghost before = strs(args@);
    let a = if skip_existing == Some(true) {
        "--no-overwrites"
    } else {
        "--force-overwrites"
    };
    args.push(string_of(&chars_of(a)));
    assert(strs(args@) =~= before.push(overwrite_arg(skip_existing)));
}

/// An output line that says aria2 is missing.
pub open spec fn is_aria2_missing_line(line: Seq<char>) -> bool {
    let l = unicode_lowercase(line);
    (contains(l, "aria2c"@) || contains(l, "aria2"@)) && (contains(l, "not found"@) || contains(
        l,
        "no such file"@,
    ) || contains(l, "is not recognized"@))
}

pub fn is_aria2_not_found_line(line: &str) -> (r: bool)
    ensures
        r == is_aria2_missing_line(line@),
{
    let l = chars_of(to_lowercase(line).as_str());
    (has(&l, "aria2c") || has(&l, "aria2")) && (has(&l, "not found") || has(&l, "no such file")
        || has(&l, "is not recognized"))
}

/// The downloader arguments for aria2, always in the `aria2c:` form; `None`
/// when nothing is left to pass.
pub open spec fn aria2_args(raw: Seq<char>) -> Option<Seq<char>> {
    let t = trim(raw);
    if t.len() == 0 {
        None
    } else if has_prefix(t, "aria2c:"@) {
        let n = crate::text::drop_while(
            t.subrange("aria2c:"@.len() as int, t.len() as int),
            CharClass::Whitespace,
        );
        if n.len() == 0 {
            None
        } else {
            Some("aria2c:"@ + n)
        }
    } else if has_prefix(t, "aria2:"@) {
        let n = crate::text::drop_while(
            t.subrange("aria2:"@.len() as int, t.len() as int),
            CharClass::Whitespace,
        );
        if n.len() == 0 {
            None
        } else {
            Some("aria2c:"@ + n)
        }
    } else {
        Some("aria2c:"@ + t)
    }
}

pub fn normalize_aria2_args(raw_args: &str) -> (r: Option<String>)
    ensures
        ostr(r) == aria2_args(raw_args@),
{
    let t = trim_ws(&chars_of(raw_args));
    if t.len() == 0 {
        return None;
    }
    let rest = if let Some(rest) = strip_prefix(&t, &chars_of("aria2c:")) {
        Some(rest)
    } else if let Some(rest) = strip_prefix(&t, &chars_of("aria2:")) {
        Some(rest)
    } else {
        None
    };
    match rest {
        Some(r) => {
            let n = crate::text::trim_start_class(&r, &CharClass::Whitespace);
            if n.len() == 0 {
                None
            } else {
                let mut v = chars_of("aria2c:");
                extend(&mut v, &n);
                Some(string_of(&v))
            }
        },
        None => {
            let mut v = chars_of("aria2c:");
            extend(&mut v, &t);
            Some(string_of(&v))
        },
    }
}

pub const CODE_ARIA2_NOT_FOUND: &'static str = "ARIA2_NOT_FOUND";

pub const CODE_DOWNLOAD_CANCELLED: &'static str = "DOWNLOAD_CANCELLED";

pub const CODE_PROCESS_EXIT_NON_ZERO: &'static str = "PROCESS_EXIT_NON_ZERO";

pub const CODE_DOWNLOAD_FAILED: &'static str = "DOWNLOAD_FAILED";

/// A download failure as the interface receives it.
pub struct DownloadError {
    pub code: String,
    pub message: String,
    pub retryable: Option<bool>,
    pub exit_code: Option<i32>,
}

impl View for DownloadError {
    type V = (Seq<char>, Seq<char>, Option<bool>, Option<i32>);

    open spec fn view(&self) -> Self::V {
        (self.code@, self.message@, self.retryable, self.exit_code)
    }
}

/// An output line that explains a failure.
pub open spec fn is_reason_line(line: Seq<char>) -> bool {
    let l = unicode_lowercase(line);
    ||| contains(l, "error"@)
    ||| contains(l, "unable"@)
    ||| contains(l, "failed"@)
    ||| contains(l, "http error"@)
    ||| contains(l, "forbidden"@)
    ||| contains(l, "too many requests"@)
    ||| contains(l, "timed out"@)
}

/// The latest reason line, else the last line, else "Unknown error".
pub open spec fn failure_reason(lines: Seq<Seq<char>>) -> Seq<char>
    decreases lines.len(),
{
    if lines.len() == 0 {
        "Unknown error"@
    } else if is_reason_line(lines.last()) {
        lines.last()
    } else {
        match last_reason(lines.drop_last()) {
            Some(r) => r,
            None => lines.last(),
        }
    }
}

pub open spec fn last_reason(lines: Seq<Seq<char>>) -> Option<Seq<char>>
    decreases lines.len(),
{
    if lines.len() == 0 {
        None
    } else if is_reason_line(lines.last()) {
        Some(lines.last())
    } else {
        last_reason(lines.drop_last())
    }
}

pub open spec fn any_aria2_missing(lines: Seq<Seq<char>>) -> bool {
    exists|i: int| 0 <= i < lines.len() && is_aria2_missing_line(#[trigger] lines[i])
}

/// The error for a failed download: a missing aria2 is reported as such and
/// not retried; otherwise the reason with the exit code, when there is one.
pub open spec fn download_error(exit_code: Option<i32>, lines: Seq<Seq<char>>) -> (
    Seq<char>,
    Seq<char>,
    Option<bool>,
    Option<i32>,
) {
    if any_aria2_missing(lines) {
        (
            CODE_ARIA2_NOT_FOUND@,
            "aria2c not found. Install aria2 and ensure aria2c is available in PATH."@,
            Some(false),
            None,
        )
    } else {
        let reason = match last_reason(lines) {
            Some(r) => r,
            None => if lines.len() > 0 {
                lines.last()
            } else {
                "Unknown error"@
            },
        };
        match exit_code {
            Some(c) => (
                CODE_PROCESS_EXIT_NON_ZERO@,
                "Download failed (exit code "@ + signed_decimal(c as int) + "): "@ + reason,
                None,
                Some(c),
            ),
            None => (CODE_DOWNLOAD_FAILED@, "Download failed: "@ + reason, None, None),
        }
    }
}

fn is_reason_line_exec(line: &str) -> (r: bool)
    ensures
        r == is_reason_line(line@),
{
    let l = chars_of(to_lowercase(line).as_str());
    has(&l, "error") || has(&l, "unable") || has(&l, "failed") || has(&l, "http error") || has(
        &l,
        "forbidden",
    ) || has(&l, "too many requests") || has(&l, "timed out")
}

pub fn build_download_error_message(exit_code: Option<i32>, recent_lines: &[String]) -> (r:
    DownloadError)
    ensures
        r@ == download_error(exit_code, strs(recent_lines@)),
{
    let ghost lv = strs(recent_lines@);
    let mut k: usize = 0;
    while k < recent_lines.len()
        invariant
            lv == strs(recent_lines@),
            k <= recent_lines.len(),
            forall|j: int| 0 <= j < k ==> !is_aria2_missing_line(#[trigger] lv[j]),
        decreases recent_lines.len() - k,
    {
        if is_aria2_not_found_line(recent_lines[k].as_str()) {
            assert(is_aria2_missing_line(lv[k as int]));
            return DownloadError {
                code: string_of(&chars_of(CODE_ARIA2_NOT_FOUND)),
                message: string_of(
                    &chars_of(
                        "aria2c not found. Install aria2 and ensure aria2c is available in PATH.",
                    ),
                ),
                retryable: Some(false),
                exit_code: None,
            };
        }
        k += 1;
    }
    let mut j: usize = recent_lines.len();
    let mut reason: Option<Vec<char>> = None;
    assert(lv.take(lv.len() as int) =~= lv);
    while j > 0
        invariant_except_break
            lv == strs(recent_lines@),
            j <= recent_lines.len(),
            reason is None,
            last_reason(lv) == last_reason(lv.take(j as int)),
        ensures
            reason matches Some(r) ==> last_reason(lv) == Some(r@),
            reason is None ==> last_reason(lv) is None,
        decreases j,
    {
        assert(lv.take(j as int).drop_last() =~= lv.take(j - 1));
        assert(lv.take(j as int).last() == lv[j - 1]);
        if is_reason_line_exec(recent_lines[j - 1].as_str()) {
            let line = chars_of(recent_lines[j - 1].as_str());
            assert(last_reason(lv.take(j as int)) == Some(lv[j - 1]));
            reason = Some(line);
            break;
        }
        j -= 1;
        if j == 0 {
            assert(lv.take(0) =~= Seq::<Seq<char>>::empty());
        }
    }
    let reason = match reason {
        Some(r) => {
            assert(last_reason(lv) == Some(r@));
            r
        },
        None => {
            assert(last_reason(lv) is None);
            if recent_lines.len() > 0 {
                chars_of(recent_lines[recent_lines.len() - 1].as_str())
            } else {
                chars_of("Unknown error")
            }
        },
    };
    match exit_code {
        Some(c) => {
            let mut m = chars_of("Download failed (exit code ");
            extend(&mut m, &signed_decimal_of(c as i64));
            push_str(&mut m, "): ");
            extend(&mut m, &reason);
            DownloadError {
                code: string_of(&chars_of(CODE_PROCESS_EXIT_NON_ZERO)),
                message: string_of(&m),
                retryable: None,
                exit_code: Some(c),
            }
        },
        None => {
            let mut m = chars_of("Download failed: ");
            extend(&mut m, &reason);
            DownloadError {
                code: string_of(&chars_of(CODE_DOWNLOAD_FAILED)),
                message: string_of(&m),
                retryable: None,
                exit_code: None,
            }
        },
    }
}

/// The error for a download the user cancelled; it is never retried.
pub fn download_cancelled_error() -> (r: DownloadError)
    ensures
        r@ == (CODE_DOWNLOAD_CANCELLED@, "Download cancelled"@, Some(false), None::<i32>),
{
    DownloadError {
        code: string_of(&chars_of(CODE_DOWNLOAD_CANCELLED)),
        message: string_of(&chars_of("Download cancelled")),
        retryable: Some(false),
        exit_code: None,
    }
}

} // verus!
