//! yt-dlp format selection strings.
use vstd::prelude::*;

use crate::text::{
    opt_view, chars_of, drop_while, extend, has_prefix, has_suffix, is_lit, join, join_all, push_str, seq_eq, slice,
    split, split_all, starts_with, string_of, trim_start_class, vviews, CharClass,
};

verus! {

/// The `height<=` bound that a quality setting asks for.
pub open spec fn height_for(quality: Seq<char>) -> Option<Seq<char>> {
    if quality == "8k"@ {
        Some("4320"@)
    } else if quality == "4k"@ {
        Some("2160"@)
    } else if quality == "2k"@ {
        Some("1440"@)
    } else if quality == "1080"@ {
        Some("1080"@)
    } else if quality == "720"@ {
        Some("720"@)
    } else if quality == "480"@ {
        Some("480"@)
    } else if quality == "360"@ {
        Some("360"@)
    } else {
        None
    }
}

/// The codec filter for an explicit codec choice; empty for automatic choice.
pub open spec fn codec_filter(codec: Seq<char>) -> Seq<char> {
    if codec == "h264"@ {
        "[vcodec^=avc]"@
    } else if codec == "vp9"@ {
        "[vcodec^=vp9]"@
    } else if codec == "av1"@ {
        "[vcodec^=av01]"@
    } else {
        ""@
    }
}

/// The codec filter inside WebM, where H.264 is not available.
pub open spec fn webm_codec_filter(codec: Seq<char>) -> Seq<char> {
    if codec == "vp9"@ {
        "[vcodec^=vp9]"@
    } else if codec == "av1"@ {
        "[vcodec^=av01]"@
    } else {
        ""@
    }
}

pub open spec fn is_high_res(quality: Seq<char>) -> bool {
    quality == "8k"@ || quality == "4k"@ || quality == "2k"@
}

pub open spec fn is_auto_codec(codec: Seq<char>) -> bool {
    codec == "auto"@ || codec.len() == 0
}

pub open spec fn is_audio_request(quality: Seq<char>, format: Seq<char>) -> bool {
    quality == "audio"@ || format == "mp3"@ || format == "m4a"@ || format == "opus"@
}

pub open spec fn audio_format_string(format: Seq<char>) -> Seq<char> {
    if format == "mp3"@ {
        "bestaudio/best"@
    } else if format == "opus"@ {
        "bestaudio[ext=webm]/bestaudio/best"@
    } else {
        "bestaudio[ext=m4a]/bestaudio/best"@
    }
}

/// High resolution with automatic codec: AV1 first for 8K, VP9 first below.
pub open spec fn high_res_auto(quality: Seq<char>, h: Seq<char>) -> Seq<char> {
    let (first, second) = if quality == "8k"@ {
        ("[vcodec^=av01]"@, "[vcodec^=vp9]"@)
    } else {
        ("[vcodec^=vp9]"@, "[vcodec^=av01]"@)
    };
    "bestvideo[height<="@ + h + "]"@ + first + "+bestaudio/bestvideo[height<="@ + h + "]"@
        + second + "+bestaudio/bestvideo[height<="@ + h + "]+bestaudio/best[height<="@ + h
        + "]/best"@
}

pub open spec fn webm_format_string(quality: Seq<char>, codec: Seq<char>) -> Seq<char> {
    let wf = webm_codec_filter(codec);
    match height_for(quality) {
        Some(h) => if wf.len() > 0 {
            "bestvideo[height<="@ + h + "][ext=webm]"@ + wf
                + "+bestaudio[ext=webm]/bestvideo[height<="@ + h
                + "][ext=webm]+bestaudio[ext=webm]/best[height<="@ + h + "][ext=webm]"@
        } else {
            let (first, second) = if quality == "8k"@ {
                ("[vcodec^=av01]"@, "[vcodec^=vp9]"@)
            } else {
                ("[vcodec^=vp9]"@, "[vcodec^=av01]"@)
            };
            "bestvideo[height<="@ + h + "][ext=webm]"@ + first
                + "+bestaudio[ext=webm]/bestvideo[height<="@ + h + "][ext=webm]"@ + second
                + "+bestaudio[ext=webm]/bestvideo[height<="@ + h
                + "][ext=webm]+bestaudio[ext=webm]/best[height<="@ + h + "][ext=webm]"@
        },
        None => if wf.len() > 0 {
            "bestvideo[ext=webm]"@ + wf
                + "+bestaudio[ext=webm]/bestvideo[ext=webm]+bestaudio[ext=webm]/best[ext=webm]"@
        } else {
            "bestvideo[ext=webm][vcodec^=vp9]+bestaudio[ext=webm]/bestvideo[ext=webm][vcodec^=av01]+bestaudio[ext=webm]/bestvideo[ext=webm]+bestaudio[ext=webm]/best[ext=webm]"@
        },
    }
}

pub open spec fn best_quality_string(codec: Seq<char>) -> Seq<char> {
    if is_auto_codec(codec) {
        "bestvideo+bestaudio/best"@
    } else {
        "bestvideo"@ + codec_filter(codec) + "+bestaudio/bestvideo+bestaudio/best"@
    }
}

pub open spec fn mp4_format_string(quality: Seq<char>, codec: Seq<char>) -> Seq<char> {
    let cf = codec_filter(codec);
    match height_for(quality) {
        Some(h) => if is_high_res(quality) && is_auto_codec(codec) {
            high_res_auto(quality, h)
        } else if cf.len() > 0 {
            "bestvideo[height<="@ + h + "]"@ + cf + "[ext=mp4]+bestaudio[ext=m4a]/bestvideo[height<="@
                + h + "]"@ + cf + "+bestaudio/bestvideo[height<="@ + h
                + "][ext=mp4]+bestaudio[ext=m4a]/bestvideo[height<="@ + h
                + "]+bestaudio/best[height<="@ + h + "]/best"@
        } else {
            "bestvideo[height<="@ + h + "][ext=mp4]+bestaudio[ext=m4a]/bestvideo[height<="@ + h
                + "]+bestaudio/best[height<="@ + h + "]/best"@
        },
        None => best_quality_string(codec),
    }
}

pub open spec fn other_format_string(quality: Seq<char>, codec: Seq<char>) -> Seq<char> {
    let cf = codec_filter(codec);
    match height_for(quality) {
        Some(h) => if is_high_res(quality) && is_auto_codec(codec) {
            high_res_auto(quality, h)
        } else if cf.len() > 0 {
            "bestvideo[height<="@ + h + "]"@ + cf + "+bestaudio/bestvideo[height<="@ + h
                + "]+bestaudio/best[height<="@ + h + "]/best"@
        } else {
            "bestvideo[height<="@ + h + "]+bestaudio/best[height<="@ + h + "]/best"@
        },
        None => best_quality_string(codec),
    }
}

/// The format string before any frame-rate preference is applied.
pub open spec fn base_format_string(quality: Seq<char>, format: Seq<char>, codec: Seq<char>) -> Seq<
    char,
> {
    if format == "webm"@ {
        webm_format_string(quality, codec)
    } else if format == "mp4"@ {
        mp4_format_string(quality, codec)
    } else {
        other_format_string(quality, codec)
    }
}

/// One `/`-separated candidate with the frame-rate filter `f` inserted
/// right after its leading `bestvideo` or `best` selector.
pub open spec fn fps_candidate(c: Seq<char>, f: Seq<char>) -> Seq<char> {
    let trimmed = drop_while(c, CharClass::Whitespace);
    let leading = c.subrange(0, c.len() - trimmed.len());
    if has_prefix(trimmed, "bestvideo"@) {
        leading + "bestvideo"@ + f + trimmed.subrange(9, trimmed.len() as int)
    } else if has_prefix(trimmed, "best["@) {
        leading + "best"@ + f + "["@ + trimmed.subrange(5, trimmed.len() as int)
    } else if trimmed == "best"@ {
        leading + "best"@ + f
    } else {
        c
    }
}

pub open spec fn fps_filter_for(preferred_fps: Option<Seq<char>>) -> Option<Seq<char>> {
    if preferred_fps == Some("30"@) {
        Some("[fps<=30]"@)
    } else {
        None
    }
}

pub open spec fn with_fps_filter(fs: Seq<char>, preferred_fps: Option<Seq<char>>) -> Seq<char> {
    match fps_filter_for(preferred_fps) {
        None => fs,
        Some(f) => join(split(fs, "/"@).map_values(|c: Seq<char>| fps_candidate(c, f)), "/"@),
    }
}

/// The complete format selection for a quality, container, codec and frame
/// rate preference.
pub open spec fn format_string(
    quality: Seq<char>,
    format: Seq<char>,
    codec: Seq<char>,
    preferred_fps: Option<Seq<char>>,
) -> Seq<char> {
    if is_audio_request(quality, format) {
        audio_format_string(format)
    } else {
        with_fps_filter(base_format_string(quality, format, codec), preferred_fps)
    }
}


pub fn preferred_fps_filter(preferred_fps: Option<&str>) -> (r: Option<&'static str>)
    ensures
        opt_view(r) == fps_filter_for(opt_view(preferred_fps)),
{
    match preferred_fps {
        Some(v) => {
            let cv = chars_of(v);
            if is_lit(&cv, "30") {
                Some("[fps<=30]")
            } else {
                None
            }
        },
        None => None,
    }
}

fn fps_candidate_exec(c: &[char], f: &[char]) -> (r: Vec<char>)
    ensures
        r@ == fps_candidate(c@, f@),
{
    let trimmed = trim_start_class(c, &CharClass::Whitespace);
    let lead_len = c.len() - trimmed.len();
    let mut out = slice(c, 0, lead_len);
    proof {
        reveal_strlit("bestvideo");
        reveal_strlit("best[");
    }
    let bv = chars_of("bestvideo");
    let bb = chars_of("best[");
    let b = chars_of("best");
    if starts_with(&trimmed, &bv) {
        push_str(&mut out, "bestvideo");
        extend(&mut out, f);
        let rest = slice(&trimmed, 9, trimmed.len());
        extend(&mut out, &rest);
        out
    } else if starts_with(&trimmed, &bb) {
        push_str(&mut out, "best");
        extend(&mut out, f);
        push_str(&mut out, "[");
        let rest = slice(&trimmed, 5, trimmed.len());
        extend(&mut out, &rest);
        out
    } else if seq_eq(&trimmed, &b) {
        push_str(&mut out, "best");
        extend(&mut out, f);
        out
    } else {
        slice(c, 0, c.len())
    }
}

/// Inserts the preferred frame-rate filter into every video candidate.
pub fn apply_fps_filter(format_string: String, preferred_fps: Option<&str>) -> (r: String)
    ensures
        r@ == with_fps_filter(format_string@, opt_view(preferred_fps)),
{
    let Some(fps_filter) = preferred_fps_filter(preferred_fps) else {
        return format_string;
    };
    let f = chars_of(fps_filter);
    let fs = chars_of(format_string.as_str());
    proof {
        reveal_strlit("/");
    }
    let slash = chars_of("/");
    let pieces = split_all(&fs, &slash);
    let mut mapped: Vec<Vec<char>> = Vec::new();
    let mut k: usize = 0;
    while k < pieces.len()
        invariant
            k <= pieces.len(),
            vviews(mapped@) == vviews(pieces@).take(k as int).map_values(
                |c: Seq<char>| fps_candidate(c, f@),
            ),
        decreases pieces.len() - k,
    {
        let m = fps_candidate_exec(&pieces[k], &f);
        let ghost before = mapped@;
        mapped.push(m);
        assert(vviews(mapped@) =~= vviews(before).push(m@));
        assert(vviews(pieces@).take(k + 1) =~= vviews(pieces@).take(k as int).push(pieces[k as int]@));
        assert(vviews(mapped@) =~= vviews(pieces@).take(k + 1).map_values(
            |c: Seq<char>| fps_candidate(c, f@),
        ));
        k += 1;
    }
    assert(vviews(pieces@).take(pieces.len() as int) =~= vviews(pieces@));
    let joined = join_all(&mapped, &slash);
    string_of(&joined)
}

fn height_for_exec(quality: &[char]) -> (r: Option<&'static str>)
    ensures
        opt_view(r) == height_for(quality@),
{
    if is_lit(quality, "8k") {
        Some("4320")
    } else if is_lit(quality, "4k") {
        Some("2160")
    } else if is_lit(quality, "2k") {
        Some("1440")
    } else if is_lit(quality, "1080") {
        Some("1080")
    } else if is_lit(quality, "720") {
        Some("720")
    } else if is_lit(quality, "480") {
        Some("480")
    } else if is_lit(quality, "360") {
        Some("360")
    } else {
        None
    }
}

fn codec_filter_exec(codec: &[char]) -> (r: &'static str)
    ensures
        r@ == codec_filter(codec@),
{
    if is_lit(codec, "h264") {
        "[vcodec^=avc]"
    } else if is_lit(codec, "vp9") {
        "[vcodec^=vp9]"
    } else if is_lit(codec, "av1") {
        "[vcodec^=av01]"
    } else {
        ""
    }
}

fn webm_codec_filter_exec(codec: &[char]) -> (r: &'static str)
    ensures
        r@ == webm_codec_filter(codec@),
{
    if is_lit(codec, "vp9") {
        "[vcodec^=vp9]"
    } else if is_lit(codec, "av1") {
        "[vcodec^=av01]"
    } else {
        ""
    }
}

fn high_res_auto_exec(quality: &[char], h: &str) -> (r: Vec<char>)
    ensures
        r@ == high_res_auto(quality@, h@),
{
    let (first, second) = if is_lit(quality, "8k") {
        ("[vcodec^=av01]", "[vcodec^=vp9]")
    } else {
        ("[vcodec^=vp9]", "[vcodec^=av01]")
    };
    let mut out: Vec<char> = Vec::new();
    push_str(&mut out, "bestvideo[height<=");
    push_str(&mut out, h);
    push_str(&mut out, "]");
    push_str(&mut out, first);
    push_str(&mut out, "+bestaudio/bestvideo[height<=");
    push_str(&mut out, h);
    push_str(&mut out, "]");
    push_str(&mut out, second);
    push_str(&mut out, "+bestaudio/bestvideo[height<=");
    push_str(&mut out, h);
    push_str(&mut out, "]+bestaudio/best[height<=");
    push_str(&mut out, h);
    push_str(&mut out, "]/best");
    out
}

fn webm_format_exec(quality: &[char], codec: &[char]) -> (r: Vec<char>)
    ensures
        r@ == webm_format_string(quality@, codec@),
{
    let wf = webm_codec_filter_exec(codec);
    let wfv = chars_of(wf);
    let mut out: Vec<char> = Vec::new();
    match height_for_exec(quality) {
        Some(h) => {
            if wfv.len() > 0 {
                push_str(&mut out, "bestvideo[height<=");
                push_str(&mut out, h);
                push_str(&mut out, "][ext=webm]");
                push_str(&mut out, wf);
                push_str(&mut out, "+bestaudio[ext=webm]/bestvideo[height<=");
                push_str(&mut out, h);
                push_str(&mut out, "][ext=webm]+bestaudio[ext=webm]/best[height<=");
                push_str(&mut out, h);
                push_str(&mut out, "][ext=webm]");
            } else {
                let (first, second) = if is_lit(quality, "8k") {
                    ("[vcodec^=av01]", "[vcodec^=vp9]")
                } else {
                    ("[vcodec^=vp9]", "[vcodec^=av01]")
                };
                push_str(&mut out, "bestvideo[height<=");
                push_str(&mut out, h);
                push_str(&mut out, "][ext=webm]");
                push_str(&mut out, first);
                push_str(&mut out, "+bestaudio[ext=webm]/bestvideo[height<=");
                push_str(&mut out, h);
                push_str(&mut out, "][ext=webm]");
                push_str(&mut out, second);
                push_str(&mut out, "+bestaudio[ext=webm]/bestvideo[height<=");
                push_str(&mut out, h);
                push_str(&mut out, "][ext=webm]+bestaudio[ext=webm]/best[height<=");
                push_str(&mut out, h);
                push_str(&mut out, "][ext=webm]");
            }
        },
        None => {
            if wfv.len() > 0 {
                push_str(&mut out, "bestvideo[ext=webm]");
                push_str(&mut out, wf);
                push_str(
                    &mut out,
                    "+bestaudio[ext=webm]/bestvideo[ext=webm]+bestaudio[ext=webm]/best[ext=webm]",
                );
            } else {
                push_str(
                    &mut out,
                    "bestvideo[ext=webm][vcodec^=vp9]+bestaudio[ext=webm]/bestvideo[ext=webm][vcodec^=av01]+bestaudio[ext=webm]/bestvideo[ext=webm]+bestaudio[ext=webm]/best[ext=webm]",
                );
            }
        },
    }
    out
}

fn best_quality_exec(codec: &[char], auto_codec: bool) -> (r: Vec<char>)
    requires
        auto_codec == is_auto_codec(codec@),
    ensures
        r@ == best_quality_string(codec@),
{
    let mut out: Vec<char> = Vec::new();
    if auto_codec {
        push_str(&mut out, "bestvideo+bestaudio/best");
    } else {
        push_str(&mut out, "bestvideo");
        push_str(&mut out, codec_filter_exec(codec));
        push_str(&mut out, "+bestaudio/bestvideo+bestaudio/best");
    }
    out
}

fn mp4_or_other_exec(quality: &[char], codec: &[char], mp4: bool) -> (r: Vec<char>)
    ensures
        mp4 ==> r@ == mp4_format_string(quality@, codec@),
        !mp4 ==> r@ == other_format_string(quality@, codec@),
{
    let cf = codec_filter_exec(codec);
    let cfv = chars_of(cf);
    let high_res = is_lit(quality, "8k") || is_lit(quality, "4k") || is_lit(quality, "2k");
    let auto_codec = is_lit(codec, "auto") || codec.len() == 0;
    match height_for_exec(quality) {
        Some(h) => {
            if high_res && auto_codec {
                high_res_auto_exec(quality, h)
            } else if cfv.len() > 0 {
                let mut out: Vec<char> = Vec::new();
                push_str(&mut out, "bestvideo[height<=");
                push_str(&mut out, h);
                push_str(&mut out, "]");
                push_str(&mut out, cf);
                if mp4 {
                    push_str(&mut out, "[ext=mp4]+bestaudio[ext=m4a]/bestvideo[height<=");
                    push_str(&mut out, h);
                    push_str(&mut out, "]");
                    push_str(&mut out, cf);
                    push_str(&mut out, "+bestaudio/bestvideo[height<=");
                    push_str(&mut out, h);
                    push_str(&mut out, "][ext=mp4]+bestaudio[ext=m4a]/bestvideo[height<=");
                    push_str(&mut out, h);
                    push_str(&mut out, "]+bestaudio/best[height<=");
                } else {
                    push_str(&mut out, "+bestaudio/bestvideo[height<=");
                    push_str(&mut out, h);
                    push_str(&mut out, "]+bestaudio/best[height<=");
                }
                push_str(&mut out, h);
                push_str(&mut out, "]/best");
                out
            } else {
                let mut out: Vec<char> = Vec::new();
                push_str(&mut out, "bestvideo[height<=");
                push_str(&mut out, h);
                if mp4 {
                    push_str(&mut out, "][ext=mp4]+bestaudio[ext=m4a]/bestvideo[height<=");
                    push_str(&mut out, h);
                }
                push_str(&mut out, "]+bestaudio/best[height<=");
                push_str(&mut out, h);
                push_str(&mut out, "]/best");
                out
            }
        },
        None => best_quality_exec(codec, auto_codec),
    }
}

/// Builds the yt-dlp format selection for quality, container, codec and
/// frame-rate preferences.
pub fn build_format_string(
    quality: &str,
    format: &str,
    video_codec: &str,
    preferred_fps: Option<&str>,
) -> (r: String)
    ensures
        r@ == format_string(quality@, format@, video_codec@, opt_view(preferred_fps)),
{
    let q = chars_of(quality);
    let f = chars_of(format);
    let c = chars_of(video_codec);
    if is_lit(&q, "audio") || is_lit(&f, "mp3") || is_lit(&f, "m4a") || is_lit(&f, "opus") {
        let s = if is_lit(&f, "mp3") {
            "bestaudio/best"
        } else if is_lit(&f, "opus") {
            "bestaudio[ext=webm]/bestaudio/best"
        } else {
            "bestaudio[ext=m4a]/bestaudio/best"
        };
        let sv = chars_of(s);
        return string_of(&sv);
    }
    let base = if is_lit(&f, "webm") {
        webm_format_exec(&q, &c)
    } else if is_lit(&f, "mp4") {
        mp4_or_other_exec(&q, &c, true)
    } else {
        mp4_or_other_exec(&q, &c, false)
    };
    apply_fps_filter(string_of(&base), preferred_fps)
}

} // verus!

verus! {

/// Only a preferred frame rate of 30 changes the format selection: any
/// other preference selects as if none were given.
pub proof fn law_only_supported_frame_rates_filter(
    quality: Seq<char>,
    format: Seq<char>,
    codec: Seq<char>,
    preferred_fps: Option<Seq<char>>,
)
    requires
        preferred_fps != Some("30"@),
    ensures
        format_string(quality, format, codec, preferred_fps) == format_string(quality, format, codec, None),
{
}

/// The `height<=` bound a quality asks for, as written in the format
/// selection: 8k, 4k and 2k stand for 4320, 2160 and 1440 lines, and a
/// number of lines stands for itself.
pub open spec fn lines_for_quality(quality: Seq<char>) -> Seq<char> {
    if quality == "8k"@ {
        "4320"@
    } else if quality == "4k"@ {
        "2160"@
    } else if quality == "2k"@ {
        "1440"@
    } else {
        quality
    }
}

proof fn lemma_bound_prefix(h: Seq<char>, l: Seq<char>)
    requires
        l.len() > 0,
        l[0] == ']',
    ensures
        has_prefix("bestvideo[height<="@ + h + l, "bestvideo[height<="@ + h + "]"@),
{
    reveal_strlit("]");
    let t = "bestvideo[height<="@ + h + "]"@;
    assert(("bestvideo[height<="@ + h + l).subrange(0, t.len() as int) =~= t);
}

/// A video download of a known quality selects, first of all, the best
/// video no taller than that quality: whatever the container, codec and
/// frame-rate preference (but 30, which adds its own filter first), the
/// format selection starts with `bestvideo[height<=N]`, N being the
/// quality's number of lines.
pub proof fn law_quality_sets_the_height_bound(
    quality: Seq<char>,
    format: Seq<char>,
    codec: Seq<char>,
    preferred_fps: Option<Seq<char>>,
)
    requires
        quality == "8k"@ || quality == "4k"@ || quality == "2k"@ || quality == "1080"@ || quality
            == "720"@ || quality == "480"@ || quality == "360"@,
        format != "mp3"@ && format != "m4a"@ && format != "opus"@,
        preferred_fps != Some("30"@),
    ensures
        crate::text::has_prefix(
            format_string(quality, format, codec, preferred_fps),
            "bestvideo[height<="@ + lines_for_quality(quality) + "]"@,
        ),
{
    law_only_supported_frame_rates_filter(quality, format, codec, preferred_fps);
    reveal_strlit("audio");
    reveal_strlit("8k");
    reveal_strlit("4k");
    reveal_strlit("2k");
    reveal_strlit("1080");
    reveal_strlit("720");
    reveal_strlit("480");
    reveal_strlit("360");
    reveal_strlit("]");
    reveal_strlit("][ext=webm]");
    let h = lines_for_quality(quality);
    assert(height_for(quality) == Some(h));
    assert(quality.len() <= 4 && "audio"@.len() == 5);
    assert(!is_audio_request(quality, format));
    let t = "bestvideo[height<="@ + h + "]"@;
    let fs = base_format_string(quality, format, codec);
    assert(format_string(quality, format, codec, None) == fs);
    crate::text::lemma_prefix_survives_append();
    assert(has_prefix(t, t)) by {
        assert(t.subrange(0, t.len() as int) =~= t);
    }
    let w = "bestvideo[height<="@ + h + "][ext=webm]"@;
    assert(has_prefix(w, t)) by {
        assert(w.subrange(0, t.len() as int) =~= t);
    }
    reveal_strlit("][ext=mp4]+bestaudio[ext=m4a]/bestvideo[height<=");
    reveal_strlit("]+bestaudio/best[height<=");
    lemma_bound_prefix(h, "][ext=mp4]+bestaudio[ext=m4a]/bestvideo[height<="@);
    lemma_bound_prefix(h, "]+bestaudio/best[height<="@);
    assert(has_prefix(high_res_auto(quality, h), t));
    if format == "webm"@ {
        assert(has_prefix(webm_format_string(quality, codec), t));
    } else if format == "mp4"@ {
        assert(has_prefix(mp4_format_string(quality, codec), t));
    } else {
        assert(has_prefix(other_format_string(quality, codec), t));
    }
}

/// The filter a named video codec asks for in the format selection: H.264
/// as `avc`, VP9 as `vp9`, AV1 as `av01`.
pub open spec fn filter_for_codec(codec: Seq<char>) -> Seq<char> {
    if codec == "h264"@ {
        "[vcodec^=avc]"@
    } else if codec == "vp9"@ {
        "[vcodec^=vp9]"@
    } else {
        "[vcodec^=av01]"@
    }
}

/// A video download with a named codec asks first for that codec, within
/// the height bound of its quality (and, in WebM, within WebM, where
/// H.264 does not exist).
pub proof fn law_named_codec_comes_first(
    quality: Seq<char>,
    format: Seq<char>,
    codec: Seq<char>,
    preferred_fps: Option<Seq<char>>,
)
    requires
        quality == "8k"@ || quality == "4k"@ || quality == "2k"@ || quality == "1080"@ || quality
            == "720"@ || quality == "480"@ || quality == "360"@,
        format != "mp3"@ && format != "m4a"@ && format != "opus"@,
        codec == "h264"@ || codec == "vp9"@ || codec == "av1"@,
        format == "webm"@ ==> codec != "h264"@,
        preferred_fps != Some("30"@),
    ensures
        format != "webm"@ ==> has_prefix(
            format_string(quality, format, codec, preferred_fps),
            "bestvideo[height<="@ + lines_for_quality(quality) + "]"@ + filter_for_codec(codec),
        ),
        format == "webm"@ ==> has_prefix(
            format_string(quality, format, codec, preferred_fps),
            "bestvideo[height<="@ + lines_for_quality(quality) + "][ext=webm]"@ + filter_for_codec(
                codec,
            ),
        ),
{
    law_only_supported_frame_rates_filter(quality, format, codec, preferred_fps);
    reveal_strlit("audio");
    reveal_strlit("8k");
    reveal_strlit("4k");
    reveal_strlit("2k");
    reveal_strlit("1080");
    reveal_strlit("720");
    reveal_strlit("480");
    reveal_strlit("360");
    reveal_strlit("h264");
    reveal_strlit("vp9");
    reveal_strlit("av1");
    reveal_strlit("auto");
    reveal_strlit("[vcodec^=avc]");
    reveal_strlit("[vcodec^=vp9]");
    reveal_strlit("[vcodec^=av01]");
    let h = lines_for_quality(quality);
    assert(height_for(quality) == Some(h));
    assert(quality.len() <= 4 && "audio"@.len() == 5);
    assert(!is_audio_request(quality, format));
    if codec == "h264"@ {
        assert(codec[0] != "auto"@[0]);
        assert(codec != "auto"@);
    } else {
        assert(codec.len() == 3);
        assert(codec != "auto"@);
    }
    assert(!is_auto_codec(codec));
    assert(codec_filter(codec) == filter_for_codec(codec));
    assert(codec_filter(codec).len() > 0);
    let fs = base_format_string(quality, format, codec);
    assert(format_string(quality, format, codec, None) == fs);
    crate::text::lemma_prefix_survives_append();
    let t = "bestvideo[height<="@ + h + "]"@ + filter_for_codec(codec);
    let w = "bestvideo[height<="@ + h + "][ext=webm]"@ + filter_for_codec(codec);
    assert(has_prefix(t, t)) by {
        assert(t.subrange(0, t.len() as int) =~= t);
    }
    assert(has_prefix(w, w)) by {
        assert(w.subrange(0, w.len() as int) =~= w);
    }
    if format == "webm"@ {
        assert(webm_codec_filter(codec) == filter_for_codec(codec));
        assert(has_prefix(webm_format_string(quality, codec), w));
    } else if format == "mp4"@ {
        assert(has_prefix(mp4_format_string(quality, codec), t));
    } else {
        assert(has_prefix(other_format_string(quality, codec), t));
    }
}

/// An audio download selects the best audio: as m4a for m4a, as WebM for
/// opus, and the best audio of any kind otherwise, whatever the quality,
/// codec and frame rate.
pub proof fn law_audio_downloads_select_audio(
    quality: Seq<char>,
    format: Seq<char>,
    codec: Seq<char>,
    preferred_fps: Option<Seq<char>>,
)
    requires
        quality == "audio"@ || format == "mp3"@ || format == "m4a"@ || format == "opus"@,
    ensures
        has_prefix(
            format_string(quality, format, codec, preferred_fps),
            "bestaudio"@ + if format == "m4a"@ {
                "[ext=m4a]"@
            } else if format == "opus"@ {
                "[ext=webm]"@
            } else if format == "mp3"@ {
                "/best"@
            } else {
                "[ext=m4a]"@
            },
        ),
        has_suffix(format_string(quality, format, codec, preferred_fps), "bestaudio/best"@),
{
    reveal_strlit("bestaudio");
    reveal_strlit("[ext=m4a]");
    reveal_strlit("[ext=webm]");
    reveal_strlit("/best");
    reveal_strlit("bestaudio/best");
    reveal_strlit("bestaudio[ext=webm]/bestaudio/best");
    reveal_strlit("bestaudio[ext=m4a]/bestaudio/best");
    reveal_strlit("mp3");
    reveal_strlit("m4a");
    reveal_strlit("opus");
    let fs = format_string(quality, format, codec, preferred_fps);
    let p = "bestaudio"@ + if format == "m4a"@ {
        "[ext=m4a]"@
    } else if format == "opus"@ {
        "[ext=webm]"@
    } else if format == "mp3"@ {
        "/best"@
    } else {
        "[ext=m4a]"@
    };
    assert(is_audio_request(quality, format));
    assert(fs == audio_format_string(format));
    if format == "mp3"@ {
        assert(fs == "bestaudio/best"@);
        assert(format[1] != "m4a"@[1]);
        assert(format.len() != "opus"@.len());
        assert(p == "bestaudio"@ + "/best"@);
        assert(fs.subrange(0, p.len() as int) =~= p);
    } else if format == "opus"@ {
        assert(fs == "bestaudio[ext=webm]/bestaudio/best"@);
        assert(format.len() != "m4a"@.len());
        assert(p == "bestaudio"@ + "[ext=webm]"@);
        assert(fs.subrange(0, p.len() as int) =~= p);
    } else {
        assert(fs == "bestaudio[ext=m4a]/bestaudio/best"@);
        assert(p == "bestaudio"@ + "[ext=m4a]"@);
        assert(fs.subrange(0, p.len() as int) =~= p);
    }
    assert(fs.subrange(fs.len() - "bestaudio/best"@.len(), fs.len() as int) =~= "bestaudio/best"@);
}

} // verus!
