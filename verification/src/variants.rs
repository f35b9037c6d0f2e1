//! Choosing the stream variant to record among those a live offers.
use vstd::prelude::*;

use crate::live::{
    matches_quality_filter, matches_transport, quality_filter_passes, quality_rank, quality_rank_of,
    transport_filter_passes, transport_rank, transport_rank_of,
};
use crate::text::{chars_of, contains, contains_seq, is_lit, lower, lower_vec, opt_view, ostr};

verus! {

/// What the choice of a variant reads of it. `bitrate` is its total bitrate
/// rounded to a whole number (0 when unknown).
#[derive(Clone, Debug)]
pub struct VariantFacts {
    pub format_id: String,
    pub ext: Option<String>,
    pub protocol: Option<String>,
    pub quality: Option<String>,
    pub resolution: Option<String>,
    pub width: Option<u32>,
    pub height: Option<u32>,
    pub bitrate: i64,
    pub vcodec: Option<String>,
    pub acodec: Option<String>,
    pub note: Option<String>,
}

pub open spec fn or_empty(s: Option<Seq<char>>) -> Seq<char> {
    match s {
        Some(v) => v,
        None => Seq::empty(),
    }
}

pub open spec fn or_zero(v: Option<u32>) -> int {
    match v {
        Some(x) => x as int,
        None => 0,
    }
}

/// A variant with video: not audio-only by quality, and with dimensions, a
/// `WxH` resolution, or a video codec other than `none`.
pub open spec fn has_video(v: VariantFacts) -> bool {
    let audio_only = match ostr(v.quality) {
        Some(q) => lower(q) == "ao"@,
        None => false,
    };
    let dimensions = or_zero(v.width) > 0 && or_zero(v.height) > 0;
    let resolution = match ostr(v.resolution) {
        Some(r) => contains(r, seq!['x']),
        None => false,
    };
    let vcodec = match ostr(v.vcodec) {
        Some(c) => lower(c) != "none"@,
        None => false,
    };
    !audio_only && (dimensions || resolution || vcodec)
}

/// A variant with audio: its audio codec is unknown or other than `none`.
pub open spec fn has_audio(v: VariantFacts) -> bool {
    match ostr(v.acodec) {
        Some(c) => lower(c) != "none"@,
        None => true,
    }
}

/// How good a variant is: its pixels first, then its quality label, its
/// bitrate and its transport.
pub open spec fn score(v: VariantFacts) -> int {
    or_zero(v.width) * or_zero(v.height) * 1000 + quality_rank_of(or_empty(ostr(v.quality))) * 10000
        + v.bitrate + transport_rank_of(or_empty(ostr(v.protocol)), or_empty(ostr(v.ext)))
}

/// The score of a variant, and each sum on the way to it, fits the
/// integers it is computed in.
pub open spec fn score_fits(v: VariantFacts) -> bool {
    let pixels = or_zero(v.width) * or_zero(v.height) * 1000;
    let with_quality = pixels + quality_rank_of(or_empty(ostr(v.quality))) * 10000;
    let with_bitrate = with_quality + v.bitrate;
    &&& with_quality <= i64::MAX
    &&& i64::MIN <= with_bitrate <= i64::MAX
    &&& score(v) <= i64::MAX
}

/// Every score fits the integers the scores are computed in.
pub open spec fn scores_fit(vs: Seq<VariantFacts>) -> bool {
    forall|i: int| 0 <= i < vs.len() ==> #[trigger] score_fits(vs[i])
}

/// The best of the candidates (indices into `vs`), the last one among equal
/// scores, or none when there is no candidate.
pub open spec fn best_of(vs: Seq<VariantFacts>, candidates: Seq<int>) -> Option<int>
    decreases candidates.len(),
{
    if candidates.len() == 0 {
        None
    } else {
        let last = candidates.last();
        match best_of(vs, candidates.drop_last()) {
            None => Some(last),
            Some(b) => if score(vs[last]) >= score(vs[b]) {
                Some(last)
            } else {
                Some(b)
            },
        }
    }
}

/// The indices of the candidates that satisfy `p`, in order.
pub open spec fn keep(candidates: Seq<int>, p: spec_fn(int) -> bool) -> Seq<int>
    decreases candidates.len(),
{
    if candidates.len() == 0 {
        Seq::empty()
    } else if p(candidates.last()) {
        keep(candidates.drop_last(), p).push(candidates.last())
    } else {
        keep(candidates.drop_last(), p)
    }
}

/// The best variant with both video and audio among the candidates, else
/// the best of them all.
pub open spec fn best_variant(vs: Seq<VariantFacts>, candidates: Seq<int>) -> Option<int> {
    match best_of(vs, keep(candidates, |i: int| has_video(vs[i]) && has_audio(vs[i]))) {
        Some(b) => Some(b),
        None => best_of(vs, candidates),
    }
}

pub open spec fn all_indices(n: nat) -> Seq<int> {
    Seq::new(n, |i: int| i)
}

/// The variant to record: the best of those that match the preferred
/// quality and transport, else the best of all.
pub open spec fn chosen_variant(
    vs: Seq<VariantFacts>,
    quality: Option<Seq<char>>,
    transport: Option<Seq<char>>,
) -> Option<int> {
    let matching = keep(
        all_indices(vs.len()),
        |i: int|
            quality_filter_passes(ostr(vs[i].quality), ostr(vs[i].note), vs[i].format_id@, quality)
                && transport_filter_passes(ostr(vs[i].protocol), ostr(vs[i].ext), transport),
    );
    match best_variant(vs, matching) {
        Some(b) => Some(b),
        None => best_variant(vs, all_indices(vs.len())),
    }
}

fn opt_str(o: &Option<String>) -> (r: Option<&str>)
    ensures
        opt_view(r) == ostr(*o),
{
    match o {
        Some(s) => Some(s.as_str()),
        None => None,
    }
}

fn is_none_codec(c: &String) -> (r: bool)
    ensures
        r == (lower(c@) == "none"@),
{
    is_lit(&lower_vec(&chars_of(c.as_str())), "none")
}

pub fn has_video_variant(v: &VariantFacts) -> (r: bool)
    ensures
        r == has_video(*v),
{
    let audio_only = match &v.quality {
        Some(q) => is_lit(&lower_vec(&chars_of(q.as_str())), "ao"),
        None => false,
    };
    let w = match v.width {
        Some(x) => x,
        None => 0,
    };
    let h = match v.height {
        Some(x) => x,
        None => 0,
    };
    let resolution = match &v.resolution {
        Some(r) => {
            let mut x: Vec<char> = Vec::new();
            x.push('x');
            let c = chars_of(r.as_str());
            assert(x@ =~= seq!['x']);
            contains_seq(&c, &x)
        },
        None => false,
    };
    let vcodec = match &v.vcodec {
        Some(c) => !is_none_codec(c),
        None => false,
    };
    !audio_only && ((w > 0 && h > 0) || resolution || vcodec)
}

pub fn has_audio_variant(v: &VariantFacts) -> (r: bool)
    ensures
        r == has_audio(*v),
{
    match &v.acodec {
        Some(c) => !is_none_codec(c),
        None => true,
    }
}

/// Whether a variant's score, and each sum on the way to it, fits an
/// `i64`.
pub fn variant_score_fits(v: &VariantFacts) -> (r: bool)
    ensures
        r == score_fits(*v),
{
    let w: i128 = match v.width {
        Some(x) => x as i128,
        None => 0,
    };
    let h: i128 = match v.height {
        Some(x) => x as i128,
        None => 0,
    };
    let q = quality_rank(opt_str(&v.quality)) as i128;
    let t = transport_rank(opt_str(&v.protocol), opt_str(&v.ext)) as i128;
    proof {
        assert(0 <= q <= 105) by {
            assert(quality_rank_of(or_empty(ostr(v.quality))) <= 105);
        }
        assert(0 <= t <= 30) by {
            assert(transport_rank_of(or_empty(ostr(v.protocol)), or_empty(ostr(v.ext))) <= 30);
        }
        assert(0 <= w * h <= 0xffff_ffff * 0xffff_ffff) by (nonlinear_arith)
            requires
                0 <= w <= 0xffff_ffff,
                0 <= h <= 0xffff_ffff,
        ;
        assert(w * h * 1000 == or_zero(v.width) * or_zero(v.height) * 1000);
    }
    let pixels: i128 = w * h * 1000;
    let with_quality: i128 = pixels + q * 10000;
    let with_bitrate: i128 = with_quality + v.bitrate as i128;
    let total: i128 = with_bitrate + t;
    with_quality <= i64::MAX as i128 && i64::MIN as i128 <= with_bitrate && with_bitrate
        <= i64::MAX as i128 && total <= i64::MAX as i128
}

/// Whether every variant's score fits an `i64`, so that a variant can be
/// chosen among them.
pub fn variant_scores_fit(variants: &[VariantFacts]) -> (r: bool)
    ensures
        r == scores_fit(variants@),
{
    let mut i: usize = 0;
    while i < variants.len()
        invariant
            i <= variants.len(),
            forall|k: int| 0 <= k < i ==> #[trigger] score_fits(variants@[k]),
        decreases variants.len() - i,
    {
        if !variant_score_fits(&variants[i]) {
            return false;
        }
        i += 1;
    }
    true
}

pub fn variant_score(v: &VariantFacts) -> (r: i64)
    requires
        score_fits(*v),
    ensures
        r == score(*v),
{
    let w: i64 = match v.width {
        Some(x) => x as i64,
        None => 0,
    };
    let h: i64 = match v.height {
        Some(x) => x as i64,
        None => 0,
    };
    let q = quality_rank(opt_str(&v.quality));
    let t = transport_rank(opt_str(&v.protocol), opt_str(&v.ext));
    proof {
        assert(0 <= q <= 105) by {
            assert(quality_rank_of(or_empty(ostr(v.quality))) <= 105);
        }
        assert(0 <= t <= 30) by {
            assert(transport_rank_of(or_empty(ostr(v.protocol)), or_empty(ostr(v.ext))) <= 30);
        }
        assert(0 <= w * h) by (nonlinear_arith)
            requires
                0 <= w,
                0 <= h,
        ;
        assert(w * h <= 0xffff_ffff * 0xffff_ffff) by (nonlinear_arith)
            requires
                0 <= w <= 0xffff_ffff,
                0 <= h <= 0xffff_ffff,
        ;
        assert(w * h * 1000 == or_zero(v.width) * or_zero(v.height) * 1000);
        assert(0 <= w * h * 1000) by (nonlinear_arith)
            requires
                0 <= w * h,
        ;
    }
    let pixels: i64 = w * h;
    let with_quality: i64 = pixels * 1000 + q * 10000;
    let with_bitrate: i64 = with_quality + v.bitrate;
    with_bitrate + t
}

/// The best candidate, the last among equal scores (`max_by_key`).
fn best_among(vs: &[VariantFacts], candidates: &Vec<usize>) -> (r: Option<usize>)
    requires
        scores_fit(vs@),
        forall|j: int| 0 <= j < candidates.len() ==> #[trigger] candidates@[j] < vs.len(),
    ensures
        match r {
            Some(b) => best_of(vs@, candidates@.map_values(|c: usize| c as int)) == Some(b as int),
            None => best_of(vs@, candidates@.map_values(|c: usize| c as int)) is None,
        },
{
    let ghost cs = candidates@.map_values(|c: usize| c as int);
    let mut best: Option<usize> = None;
    let mut best_score: i64 = 0;
    let mut k: usize = 0;
    while k < candidates.len()
        invariant
            k <= candidates.len(),
            scores_fit(vs@),
            cs == candidates@.map_values(|c: usize| c as int),
            forall|j: int| 0 <= j < candidates.len() ==> #[trigger] candidates@[j] < vs.len(),
            match best {
                Some(b) => best_of(vs@, cs.take(k as int)) == Some(b as int) && b < vs.len()
                    && best_score == score(vs@[b as int]),
                None => best_of(vs@, cs.take(k as int)) is None,
            },
        decreases candidates.len() - k,
    {
        let c = candidates[k];
        assert(cs.take(k + 1).drop_last() =~= cs.take(k as int));
        assert(cs.take(k + 1).last() == c as int);
        assert(score_fits(vs@[c as int]));
        let s = variant_score(&vs[c]);
        match best {
            None => {
                best = Some(c);
                best_score = s;
            },
            Some(_) => if s >= best_score {
                best = Some(c);
                best_score = s;
            },
        }
        k += 1;
    }
    assert(cs.take(candidates.len() as int) =~= cs);
    best
}

fn keep_video_audio(vs: &[VariantFacts], candidates: &Vec<usize>) -> (r: Vec<usize>)
    requires
        forall|j: int| 0 <= j < candidates.len() ==> #[trigger] candidates@[j] < vs.len(),
    ensures
        r@.map_values(|c: usize| c as int) == keep(
            candidates@.map_values(|c: usize| c as int),
            |i: int| has_video(vs@[i]) && has_audio(vs@[i]),
        ),
        forall|j: int| 0 <= j < r.len() ==> #[trigger] r@[j] < vs.len(),
{
    let ghost p = |i: int| has_video(vs@[i]) && has_audio(vs@[i]);
    let ghost cs = candidates@.map_values(|c: usize| c as int);
    let mut r: Vec<usize> = Vec::new();
    let mut k: usize = 0;
    while k < candidates.len()
        invariant
            k <= candidates.len(),
            cs == candidates@.map_values(|c: usize| c as int),
            p == (|i: int| has_video(vs@[i]) && has_audio(vs@[i])),
            forall|j: int| 0 <= j < candidates.len() ==> #[trigger] candidates@[j] < vs.len(),
            r@.map_values(|c: usize| c as int) == keep(cs.take(k as int), p),
            forall|j: int| 0 <= j < r.len() ==> #[trigger] r@[j] < vs.len(),
        decreases candidates.len() - k,
    {
        let c = candidates[k];
        assert(cs.take(k + 1).drop_last() =~= cs.take(k as int));
        assert(cs.take(k + 1).last() == c as int);
        let ghost before = r@;
        if has_video_variant(&vs[c]) && has_audio_variant(&vs[c]) {
            r.push(c);
            assert(r@.map_values(|c: usize| c as int) =~= before.map_values(|c: usize| c as int).push(
                c as int,
            ));
        }
        k += 1;
    }
    assert(cs.take(candidates.len() as int) =~= cs);
    r
}

fn best_variant_among(vs: &[VariantFacts], candidates: &Vec<usize>) -> (r: Option<usize>)
    requires
        scores_fit(vs@),
        forall|j: int| 0 <= j < candidates.len() ==> #[trigger] candidates@[j] < vs.len(),
    ensures
        match r {
            Some(b) => best_variant(vs@, candidates@.map_values(|c: usize| c as int)) == Some(
                b as int,
            ),
            None => best_variant(vs@, candidates@.map_values(|c: usize| c as int)) is None,
        },
{
    let both = keep_video_audio(vs, candidates);
    match best_among(vs, &both) {
        Some(b) => Some(b),
        None => best_among(vs, candidates),
    }
}

/// The index of the variant to record (`select_variant`): the best of the
/// variants matching the preferred quality and transport, else the best of
/// all; none when there are no variants.
pub fn select_variant(variants: &[VariantFacts], preferred_quality: Option<&str>, preferred_transport: Option<&str>) -> (r: Option<usize>)
    requires
        scores_fit(variants@),
    ensures
        match r {
            Some(b) => chosen_variant(variants@, opt_view(preferred_quality), opt_view(preferred_transport))
                == Some(b as int),
            None => chosen_variant(variants@, opt_view(preferred_quality), opt_view(preferred_transport))
                is None,
        },
{
    let ghost vs = variants@;
    let ghost pred = |i: int|
        quality_filter_passes(ostr(vs[i].quality), ostr(vs[i].note), vs[i].format_id@, opt_view(preferred_quality))
            && transport_filter_passes(ostr(vs[i].protocol), ostr(vs[i].ext), opt_view(preferred_transport));
    let mut all: Vec<usize> = Vec::new();
    let mut matching: Vec<usize> = Vec::new();
    let mut k: usize = 0;
    while k < variants.len()
        invariant
            k <= variants.len(),
            vs == variants@,
            pred == (|i: int|
                quality_filter_passes(ostr(vs[i].quality), ostr(vs[i].note), vs[i].format_id@, opt_view(preferred_quality))
                    && transport_filter_passes(ostr(vs[i].protocol), ostr(vs[i].ext), opt_view(preferred_transport))),
            all@.map_values(|c: usize| c as int) == all_indices(k as nat),
            matching@.map_values(|c: usize| c as int) == keep(all_indices(k as nat), pred),
            forall|j: int| 0 <= j < all.len() ==> #[trigger] all@[j] < k,
            forall|j: int| 0 <= j < matching.len() ==> #[trigger] matching@[j] < k,
        decreases variants.len() - k,
    {
        let v = &variants[k];
        assert(all_indices((k + 1) as nat).drop_last() =~= all_indices(k as nat));
        assert(all_indices((k + 1) as nat).last() == k as int);
        let ghost before_all = all@;
        let ghost before_matching = matching@;
        all.push(k);
        assert(all@.map_values(|c: usize| c as int) =~= before_all.map_values(|c: usize| c as int).push(
            k as int,
        ));
        if matches_quality_filter(opt_str(&v.quality), opt_str(&v.note), v.format_id.as_str(), preferred_quality)
            && matches_transport(opt_str(&v.protocol), opt_str(&v.ext), preferred_transport) {
            matching.push(k);
            assert(matching@.map_values(|c: usize| c as int) =~= before_matching.map_values(
                |c: usize| c as int,
            ).push(k as int));
        }
        k += 1;
    }
    match best_variant_among(variants, &matching) {
        Some(b) => Some(b),
        None => best_variant_among(variants, &all),
    }
}

} // verus!
