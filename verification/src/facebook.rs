//! Facebook Story links.
use vstd::prelude::*;

use crate::text::{
    chars_of, ends_with, has_suffix, is_lit, lower, lower_vec, ostr, push_str, seq_eq, string_of, strs,
};
use crate::urls::{parse_url, url_parts};

verus! {

/// A Facebook host: `facebook.com` or one of its subdomains.
pub open spec fn is_facebook_host(host: Seq<char>) -> bool {
    lower(host) == "facebook.com"@ || has_suffix(lower(host), ".facebook.com"@)
}

/// The token of a Facebook Story link: the third path segment, when the
/// URL parses, its host is Facebook's and its path starts with `stories`.
pub open spec fn story_token(url: Seq<char>) -> Option<Seq<char>> {
    match url_parts(url) {
        Some(p) => match (p.1, p.3) {
            (Some(host), Some(segments)) => if is_facebook_host(host) && segments.len() > 0
                && segments[0] == "stories"@ && segments.len() > 2 && segments[2].len() > 0 {
                Some(segments[2])
            } else {
                None
            },
            _ => None,
        },
        None => None,
    }
}

pub fn facebook_story_token(url: &str) -> (r: Option<String>)
    ensures
        ostr(r) == story_token(url@),
{
    let parsed = parse_url(url)?;
    let host = match &parsed.host {
        Some(h) => lower_vec(&chars_of(h.as_str())),
        None => {
            return None;
        },
    };
    if !(is_lit(&host, "facebook.com") || ends_with(&host, &chars_of(".facebook.com"))) {
        return None;
    }
    let segments = match parsed.segments {
        Some(s) => s,
        None => {
            return None;
        },
    };
    assert(strs(segments@).len() == segments@.len());
    if segments.len() > 2 && is_lit(&chars_of(segments[0].as_str()), "stories") && chars_of(
        segments[2].as_str(),
    ).len() > 0 {
        let mut segments = segments;
        let token = segments.swap_remove(2);
        Some(token)
    } else {
        None
    }
}

} // verus!

verus! {

// ---------------------------------------------------------------------------
// Resolved Story addresses
// ---------------------------------------------------------------------------

/// How long a resolved Story address is kept, in milliseconds.
pub const FACEBOOK_STORY_CACHE_TTL_MS: u64 = 600000;

/// How many resolved Story addresses are kept at most.
pub const FACEBOOK_STORY_CACHE_LIMIT: usize = 64;

/// A Story link, when its media address was resolved (on a monotonic clock
/// in milliseconds), and that address.
pub struct CachedStoryUrl {
    pub story_url: String,
    pub created_at: u64,
    pub media_url: String,
}

pub open spec fn entry_view(e: CachedStoryUrl) -> (Seq<char>, u64, Seq<char>) {
    (e.story_url@, e.created_at, e.media_url@)
}

/// An entry that has not expired at `now`: less time than the limit has
/// passed since it was made (none when `now` is earlier).
pub open spec fn fresh(e: (Seq<char>, u64, Seq<char>), now: u64) -> bool {
    now < e.1 || now - e.1 < FACEBOOK_STORY_CACHE_TTL_MS
}

/// The entries that have not expired at `now`, in order.
pub open spec fn pruned(s: Seq<(Seq<char>, u64, Seq<char>)>, now: u64) -> Seq<(Seq<char>, u64, Seq<char>)>
    decreases s.len(),
{
    if s.len() == 0 {
        s
    } else if fresh(s.last(), now) {
        pruned(s.drop_last(), now).push(s.last())
    } else {
        pruned(s.drop_last(), now)
    }
}

/// No Story link has two entries.
pub open spec fn keys_unique(s: Seq<(Seq<char>, u64, Seq<char>)>) -> bool {
    forall|i: int, j: int| 0 <= i < s.len() && 0 <= j < s.len() && i != j ==> s[i].0 != s[j].0
}

pub open spec fn has_key(s: Seq<(Seq<char>, u64, Seq<char>)>, key: Seq<char>) -> bool {
    exists|i: int| 0 <= i < s.len() && s[i].0 == key
}

pub open spec fn key_index(s: Seq<(Seq<char>, u64, Seq<char>)>, key: Seq<char>) -> int {
    choose|i: int| 0 <= i < s.len() && s[i].0 == key
}

/// The media address kept for a Story link.
pub open spec fn lookup(s: Seq<(Seq<char>, u64, Seq<char>)>, key: Seq<char>) -> Option<Seq<char>> {
    if has_key(s, key) {
        Some(s[key_index(s, key)].2)
    } else {
        None
    }
}

/// `k` is the first of the entries made earliest.
pub open spec fn is_oldest(s: Seq<(Seq<char>, u64, Seq<char>)>, k: int) -> bool {
    &&& 0 <= k < s.len()
    &&& forall|j: int| 0 <= j < s.len() ==> s[k].1 <= #[trigger] s[j].1
    &&& forall|j: int| 0 <= j < k ==> s[k].1 < #[trigger] s[j].1
}

/// The entries after a Story link's media address is kept at `now`: the
/// expired ones go, the earliest goes when the cache is full, and the link
/// gets the address (in place of the one it had).
pub open spec fn after_insert(
    s: Seq<(Seq<char>, u64, Seq<char>)>,
    key: Seq<char>,
    media: Seq<char>,
    now: u64,
) -> Seq<(Seq<char>, u64, Seq<char>)> {
    let p = pruned(s, now);
    let q = if p.len() >= FACEBOOK_STORY_CACHE_LIMIT {
        p.remove(choose|k: int| is_oldest(p, k))
    } else {
        p
    };
    if has_key(q, key) {
        q.update(key_index(q, key), (key, now, media))
    } else {
        q.push((key, now, media))
    }
}

/// The resolved media addresses of Story links, kept for a while and
/// bounded in number.
pub struct StoryUrlCache {
    entries: Vec<CachedStoryUrl>,
}

impl View for StoryUrlCache {
    type V = Seq<(Seq<char>, u64, Seq<char>)>;

    closed spec fn view(&self) -> Self::V {
        self.entries@.map_values(|e: CachedStoryUrl| entry_view(e))
    }
}

proof fn lemma_pruned(s: Seq<(Seq<char>, u64, Seq<char>)>, now: u64)
    ensures
        pruned(s, now).len() <= s.len(),
        forall|e: (Seq<char>, u64, Seq<char>)| #![auto]
            pruned(s, now).contains(e) <==> (s.contains(e) && fresh(e, now)),
        keys_unique(s) ==> keys_unique(pruned(s, now)),
    decreases s.len(),
{
    if s.len() > 0 {
        let p = s.drop_last();
        let l = s.last();
        lemma_pruned(p, now);
        let q = pruned(p, now);
        assert forall|e: (Seq<char>, u64, Seq<char>)| #![auto] pruned(s, now).contains(e) <==> (
        s.contains(e) && fresh(e, now)) by {
            if s.contains(e) {
                let k = choose|k: int| 0 <= k < s.len() && s[k] == e;
                if k < s.len() - 1 {
                    assert(p[k] == e);
                }
            }
            if p.contains(e) {
                let k = choose|k: int| 0 <= k < p.len() && p[k] == e;
                assert(s[k] == e);
            }
            assert(s[s.len() - 1] == l);
            if fresh(l, now) {
                if q.push(l).contains(e) {
                    let k = choose|k: int| 0 <= k < q.push(l).len() && q.push(l)[k] == e;
                    if k < q.len() {
                        assert(q[k] == e);
                    }
                }
                if q.contains(e) {
                    let k = choose|k: int| 0 <= k < q.len() && q[k] == e;
                    assert(q.push(l)[k] == e);
                }
                assert(q.push(l)[q.len() as int] == l);
            }
        }
        if keys_unique(s) {
            assert(keys_unique(p));
            if fresh(l, now) {
                assert forall|i: int, j: int|
                    0 <= i < q.push(l).len() && 0 <= j < q.push(l).len() && i != j implies q.push(l)[i].0
                    != q.push(l)[j].0 by {
                    if i == q.len() as int || j == q.len() as int {
                        let k = if i == q.len() as int { j } else { i };
                        assert(q.contains(q[k]));
                        assert(p.contains(q[k]));
                        let m = choose|m: int| 0 <= m < p.len() && p[m] == q[k];
                        assert(s[m] == p[m]);
                        assert(s[s.len() - 1] == l);
                    }
                }
            }
        }
    }
}

proof fn lemma_lookup_finds(s: Seq<(Seq<char>, u64, Seq<char>)>, k: int)
    requires
        keys_unique(s),
        0 <= k < s.len(),
    ensures
        lookup(s, s[k].0) == Some(s[k].2),
{
    assert(has_key(s, s[k].0));
    let i = key_index(s, s[k].0);
    assert(i == k);
}

proof fn lemma_after_insert(
    s: Seq<(Seq<char>, u64, Seq<char>)>,
    key: Seq<char>,
    media: Seq<char>,
    now: u64,
)
    requires
        keys_unique(s),
        s.len() <= FACEBOOK_STORY_CACHE_LIMIT,
    ensures
        keys_unique(after_insert(s, key, media, now)),
        after_insert(s, key, media, now).len() <= FACEBOOK_STORY_CACHE_LIMIT,
        after_insert(s, key, media, now).contains((key, now, media)),
{
    lemma_pruned(s, now);
    let p = pruned(s, now);
    let q = if p.len() >= FACEBOOK_STORY_CACHE_LIMIT {
        let k = choose|k: int| is_oldest(p, k);
        lemma_oldest_exists(p);
        assert(keys_unique(p.remove(k)));
        p.remove(k)
    } else {
        p
    };
    assert(keys_unique(q));
    assert(q.len() < FACEBOOK_STORY_CACHE_LIMIT || p.len() < FACEBOOK_STORY_CACHE_LIMIT);
    let r = after_insert(s, key, media, now);
    if has_key(q, key) {
        let i = key_index(q, key);
        assert(r == q.update(i, (key, now, media)));
        assert(r[i] == (key, now, media));
    } else {
        assert(r == q.push((key, now, media)));
        assert(r[q.len() as int] == (key, now, media));
    }
}

proof fn lemma_oldest_exists(s: Seq<(Seq<char>, u64, Seq<char>)>)
    requires
        s.len() > 0,
    ensures
        exists|k: int| is_oldest(s, k),
    decreases s.len(),
{
    if s.len() == 1 {
        assert(is_oldest(s, 0));
    } else {
        let p = s.drop_last();
        lemma_oldest_exists(p);
        let k = choose|k: int| is_oldest(p, k);
        if s.last().1 < p[k].1 {
            assert forall|j: int| 0 <= j < s.len() implies s[s.len() - 1].1 <= #[trigger] s[j].1 by {
                if j < s.len() - 1 {
                    assert(p[j] == s[j]);
                }
            }
            assert forall|j: int| 0 <= j < s.len() - 1 implies s[s.len() - 1].1 < #[trigger] s[j].1 by {
                assert(p[j] == s[j]);
            }
            assert(is_oldest(s, s.len() - 1));
        } else {
            assert forall|j: int| 0 <= j < s.len() implies s[k].1 <= #[trigger] s[j].1 by {
                if j < s.len() - 1 {
                    assert(p[j] == s[j]);
                }
            }
            assert forall|j: int| 0 <= j < k implies s[k].1 < #[trigger] s[j].1 by {
                assert(p[j] == s[j]);
            }
            assert(is_oldest(s, k));
        }
    }
}

/// What was kept of a Story link is read back: right after its media
/// address is kept, looking the link up at the same time gives that
/// address.
pub proof fn law_story_url_is_read_back(
    s: Seq<(Seq<char>, u64, Seq<char>)>,
    key: Seq<char>,
    media: Seq<char>,
    now: u64,
)
    requires
        keys_unique(s),
        s.len() <= FACEBOOK_STORY_CACHE_LIMIT,
    ensures
        lookup(pruned(after_insert(s, key, media, now), now), key) == Some(media),
{
    let r = after_insert(s, key, media, now);
    lemma_after_insert(s, key, media, now);
    lemma_pruned(r, now);
    let p = pruned(r, now);
    assert(fresh((key, now, media), now));
    assert(p.contains((key, now, media)));
    let k = choose|k: int| 0 <= k < p.len() && p[k] == (key, now, media);
    lemma_lookup_finds(p, k);
}

/// The cache never holds more than its limit, nor two entries for a link.
pub proof fn law_story_cache_stays_bounded(
    s: Seq<(Seq<char>, u64, Seq<char>)>,
    key: Seq<char>,
    media: Seq<char>,
    now: u64,
)
    requires
        keys_unique(s),
        s.len() <= FACEBOOK_STORY_CACHE_LIMIT,
    ensures
        keys_unique(after_insert(s, key, media, now)),
        after_insert(s, key, media, now).len() <= FACEBOOK_STORY_CACHE_LIMIT,
{
    lemma_after_insert(s, key, media, now);
}

/// An expired entry is never read: whatever a lookup gives at `now` was
/// kept less than the time limit before.
pub proof fn law_expired_story_urls_are_dropped(
    s: Seq<(Seq<char>, u64, Seq<char>)>,
    key: Seq<char>,
    now: u64,
)
    ensures
        lookup(pruned(s, now), key) is Some ==> exists|e: (Seq<char>, u64, Seq<char>)|
            #![auto]
            s.contains(e) && e.0 == key && fresh(e, now) && lookup(pruned(s, now), key) == Some(e.2),
{
    lemma_pruned(s, now);
    let p = pruned(s, now);
    if has_key(p, key) {
        let i = key_index(p, key);
        let e = p[i];
        assert(p.contains(e));
        assert(s.contains(e) && fresh(e, now));
        assert(lookup(p, key) == Some(e.2));
    }
}

proof fn lemma_oldest_unique(s: Seq<(Seq<char>, u64, Seq<char>)>, a: int, b: int)
    requires
        is_oldest(s, a),
        is_oldest(s, b),
    ensures
        a == b,
{
    if a < b {
        assert(s[b].1 < s[a].1);
        assert(s[a].1 <= s[b].1);
    } else if b < a {
        assert(s[a].1 < s[b].1);
        assert(s[b].1 <= s[a].1);
    }
}

fn is_fresh(created_at: u64, now: u64) -> (r: bool)
    ensures
        r == (now < created_at || now - created_at < FACEBOOK_STORY_CACHE_TTL_MS),
{
    now < created_at || now - created_at < FACEBOOK_STORY_CACHE_TTL_MS
}

fn copy_string(s: &String) -> (r: String)
    ensures
        r@ == s@,
{
    string_of(&chars_of(s.as_str()))
}

impl StoryUrlCache {
    #[verifier::type_invariant]
    spec fn wf(self) -> bool {
        &&& keys_unique(self@)
        &&& self.entries.len() <= FACEBOOK_STORY_CACHE_LIMIT
    }

    /// An empty cache.
    pub fn new() -> (r: StoryUrlCache)
        ensures
            r@ == Seq::<(Seq<char>, u64, Seq<char>)>::empty(),
    {
        let r = StoryUrlCache { entries: Vec::new() };
        assert(r@ =~= Seq::<(Seq<char>, u64, Seq<char>)>::empty());
        r
    }

    /// How many links are kept.
    pub fn len(&self) -> (r: usize)
        ensures
            r == self@.len(),
            r <= FACEBOOK_STORY_CACHE_LIMIT,
    {
        proof {
            use_type_invariant(self);
        }
        self.entries.len()
    }

    /// Drops the entries that expired at `now`.
    fn prune(&mut self, now: u64)
        ensures
            final(self)@ == pruned(old(self)@, now),
    {
        proof {
            use_type_invariant(&*self);
        }
        let ghost all = self@;
        let mut kept: Vec<CachedStoryUrl> = Vec::new();
        let mut i: usize = 0;
        assert(kept@.map_values(|e: CachedStoryUrl| entry_view(e)) =~= pruned(all.take(0), now));
        while i < self.entries.len()
            invariant
                i <= self.entries.len(),
                all == self@,
                all.len() == self.entries.len(),
                kept@.map_values(|e: CachedStoryUrl| entry_view(e)) == pruned(all.take(i as int), now),
            decreases self.entries.len() - i,
        {
            let ghost before = kept@.map_values(|e: CachedStoryUrl| entry_view(e));
            let e = &self.entries[i];
            assert(entry_view(*e) == all[i as int]);
            assert(all.take(i + 1).drop_last() =~= all.take(i as int));
            assert(all.take(i + 1).last() == all[i as int]);
            if is_fresh(e.created_at, now) {
                kept.push(CachedStoryUrl {
                    story_url: copy_string(&e.story_url),
                    created_at: e.created_at,
                    media_url: copy_string(&e.media_url),
                });
                assert(kept@.map_values(|e: CachedStoryUrl| entry_view(e)) =~= before.push(all[i as int]));
            }
            i += 1;
        }
        assert(all.take(i as int) =~= all);
        proof {
            lemma_pruned(all, now);
        }
        self.entries = kept;
    }

    /// The media address kept for a Story link at `now`; the expired
    /// entries are dropped first.
    pub fn get(&mut self, story_url: &str, now: u64) -> (r: Option<String>)
        ensures
            final(self)@ == pruned(old(self)@, now),
            ostr(r) == lookup(pruned(old(self)@, now), story_url@),
    {
        self.prune(now);
        proof {
            use_type_invariant(&*self);
        }
        let key = chars_of(story_url);
        let mut i: usize = 0;
        while i < self.entries.len()
            invariant
                i <= self.entries.len(),
                key@ == story_url@,
                keys_unique(self@),
                self@ == pruned(old(self)@, now),
                forall|j: int| 0 <= j < i ==> self@[j].0 != story_url@,
            decreases self.entries.len() - i,
        {
            assert(self@[i as int] == entry_view(self.entries@[i as int]));
            if seq_eq(&chars_of(self.entries[i].story_url.as_str()), &key) {
                proof {
                    lemma_lookup_finds(self@, i as int);
                }
                return Some(copy_string(&self.entries[i].media_url));
            }
            i += 1;
        }
        None
    }

    /// Keeps a Story link's media address as resolved at `now`: the expired
    /// entries are dropped, and the earliest one when the cache is full.
    pub fn insert(&mut self, story_url: String, media_url: String, now: u64)
        ensures
            final(self)@ == after_insert(old(self)@, story_url@, media_url@, now),
    {
        proof {
            use_type_invariant(&*self);
        }
        let ghost start = self@;
        self.prune(now);
        proof {
            use_type_invariant(&*self);
            lemma_after_insert(start, story_url@, media_url@, now);
            lemma_pruned(start, now);
        }
        let ghost p = self@;
        let mut entries: Vec<CachedStoryUrl> = Vec::new();
        std::mem::swap(&mut self.entries, &mut entries);
        assert(entries@.map_values(|e: CachedStoryUrl| entry_view(e)) == p);
        if entries.len() >= FACEBOOK_STORY_CACHE_LIMIT {
            let mut oldest: usize = 0;
            let mut j: usize = 1;
            while j < entries.len()
                invariant
                    0 <= oldest < j <= entries.len(),
                    entries@.map_values(|e: CachedStoryUrl| entry_view(e)) == p,
                    forall|m: int| 0 <= m < j ==> p[oldest as int].1 <= #[trigger] p[m].1,
                    forall|m: int| 0 <= m < oldest ==> p[oldest as int].1 < #[trigger] p[m].1,
                decreases entries.len() - j,
            {
                assert(p[j as int].1 == entries@[j as int].created_at);
                assert(p[oldest as int].1 == entries@[oldest as int].created_at);
                if entries[j].created_at < entries[oldest].created_at {
                    oldest = j;
                }
                j += 1;
            }
            proof {
                assert(is_oldest(p, oldest as int));
                let c = choose|k: int| is_oldest(p, k);
                lemma_oldest_unique(p, c, oldest as int);
            }
            entries.remove(oldest);
            assert(entries@.map_values(|e: CachedStoryUrl| entry_view(e)) =~= p.remove(oldest as int));
        }
        let ghost q = entries@.map_values(|e: CachedStoryUrl| entry_view(e));
        proof {
            if p.len() >= FACEBOOK_STORY_CACHE_LIMIT {
                let k = choose|k: int| is_oldest(p, k);
                assert(keys_unique(p.remove(k)));
            }
        }
        let key = chars_of(story_url.as_str());
        let mut found: Option<usize> = None;
        let mut i: usize = 0;
        while i < entries.len()
            invariant
                i <= entries.len(),
                key@ == story_url@,
                entries@.map_values(|e: CachedStoryUrl| entry_view(e)) == q,
                keys_unique(q),
                found is None ==> forall|m: int| 0 <= m < i ==> q[m].0 != story_url@,
                found matches Some(f) ==> f < entries.len() && q[f as int].0 == story_url@,
            decreases entries.len() - i,
        {
            assert(q[i as int] == entry_view(entries@[i as int]));
            if found.is_none() && seq_eq(&chars_of(entries[i].story_url.as_str()), &key) {
                found = Some(i);
            }
            i += 1;
        }
        let entry = CachedStoryUrl { story_url, created_at: now, media_url };
        let ghost e = entry_view(entry);
        match found {
            Some(f) => {
                proof {
                    assert(has_key(q, e.0));
                    let c = key_index(q, e.0);
                    assert(c == f);
                }
                entries.set(f, entry);
                assert(entries@.map_values(|e: CachedStoryUrl| entry_view(e)) =~= q.update(f as int, e));
            },
            None => {
                entries.push(entry);
                assert(entries@.map_values(|e: CachedStoryUrl| entry_view(e)) =~= q.push(e));
            },
        }
        self.entries = entries;
    }
}

} // verus!

verus! {

// ---------------------------------------------------------------------------
// The media behind a Story
// ---------------------------------------------------------------------------

/// How far into a Story's card, counted from its id, the page is searched
/// for the media link.
pub const FACEBOOK_STORY_CARD_SCAN_LENGTH: usize = 262144;

/// What `serde_json` reads as a JSON string at the start of a text
/// (through `Deserializer::from_str(..).into_iter::<String>()`): the decoded
/// string, or nothing when the text does not start with one.
pub uninterp spec fn json_string_value(text: Seq<char>) -> Option<Seq<char>>;

/// The first value of `serde_json::Deserializer::from_str(text)
/// .into_iter::<String>()`. Trusted: the result is `json_string_value` of
/// the text, so equal texts give equal results; how JSON strings are
/// decoded is not stated.
#[verifier::external_body]
fn json_string_prefix(text: &str) -> (r: Option<String>)
    ensures
        ostr(r) == json_string_value(text@),
{
    serde_json::Deserializer::from_str(text).into_iter::<String>().next()?.ok()
}

/// The JSON string right after the first `marker` in `input` (leading
/// whitespace skipped).
pub open spec fn json_string_after_spec(input: Seq<char>, marker: Seq<char>) -> Option<Seq<char>> {
    match crate::text::find(input, marker) {
        Some(i) => json_string_value(
            crate::text::drop_while(input.subrange(i + marker.len(), input.len() as int), crate::text::CharClass::Whitespace),
        ),
        None => None,
    }
}

/// The JSON string that follows the first `marker` in `input`.
pub fn json_string_after(input: &str, marker: &str) -> (r: Option<String>)
    ensures
        ostr(r) == json_string_after_spec(input@, marker@),
{
    let s = chars_of(input);
    let m = chars_of(marker);
    let i = match crate::text::find_first(&s, &m) {
        Some(i) => i,
        None => return None,
    };
    proof {
        crate::text::lemma_find_from(s@, m@, 0);
    }
    let n = s.len();
    assert(i + m@.len() <= n);
    let rest = crate::text::slice(&s, i + m.len(), n);
    let value = crate::text::trim_start_class(&rest, &crate::text::CharClass::Whitespace);
    json_string_prefix(string_of(&value).as_str())
}

/// The kinds of Facebook media link a Story can point to.
#[derive(Clone, Copy, Debug, PartialEq, Eq, Structural)]
pub enum FacebookMediaKind {
    /// `/reel/<digits>`
    Reel,
    /// `/<page>/videos/<digits>`
    Video,
}

pub open spec fn ascii_number(s: Seq<char>) -> bool {
    crate::text::all_digits(s)
}

/// The path segments that are not empty, in order.
pub open spec fn non_empty_segments(s: Seq<Seq<char>>) -> Seq<Seq<char>>
    decreases s.len(),
{
    if s.len() == 0 {
        s
    } else if s.last().len() > 0 {
        non_empty_segments(s.drop_last()).push(s.last())
    } else {
        non_empty_segments(s.drop_last())
    }
}

/// What kind of Facebook media a link is: a reel or a page's video, on a
/// Facebook host, with a number for id; nothing for any other link.
pub open spec fn media_kind(value: Seq<char>) -> Option<FacebookMediaKind> {
    match url_parts(value) {
        Some(p) => match (p.1, p.3) {
            (Some(host), Some(segments)) => if !is_facebook_host(host) {
                None
            } else {
                let s = non_empty_segments(segments);
                if s.len() == 2 && s[0] == "reel"@ && ascii_number(s[1]) {
                    Some(FacebookMediaKind::Reel)
                } else if s.len() == 3 && s[1] == "videos"@ && ascii_number(s[2]) {
                    Some(FacebookMediaKind::Video)
                } else {
                    None
                }
            },
            _ => None,
        },
        None => None,
    }
}

fn non_empty_segment_list(segments: &Vec<String>) -> (r: Vec<Vec<char>>)
    ensures
        crate::text::vviews(r@) == non_empty_segments(strs(segments@)),
{
    let ghost all = strs(segments@);
    let mut out: Vec<Vec<char>> = Vec::new();
    let mut i: usize = 0;
    while i < segments.len()
        invariant
            i <= segments.len(),
            all == strs(segments@),
            crate::text::vviews(out@) == non_empty_segments(all.take(i as int)),
        decreases segments.len() - i,
    {
        assert(all.take(i + 1).drop_last() =~= all.take(i as int));
        assert(all.take(i + 1).last() == all[i as int]);
        let c = chars_of(segments[i].as_str());
        if c.len() > 0 {
            let ghost before = crate::text::vviews(out@);
            out.push(c);
            assert(crate::text::vviews(out@) =~= before.push(all[i as int]));
        }
        i += 1;
    }
    assert(all.take(i as int) =~= all);
    out
}

/// What kind of Facebook media a link is.
pub fn facebook_media_kind(value: &str) -> (r: Option<FacebookMediaKind>)
    ensures
        r == media_kind(value@),
{
    proof {
        reveal_strlit("reel");
        reveal_strlit("videos");
    }
    let parsed = match parse_url(value) {
        Some(p) => p,
        None => return None,
    };
    let host = match &parsed.host {
        Some(h) => lower_vec(&chars_of(h.as_str())),
        None => return None,
    };
    let segments = match &parsed.segments {
        Some(s) => s,
        None => return None,
    };
    if !(is_lit(&host, "facebook.com") || ends_with(&host, &chars_of(".facebook.com"))) {
        return None;
    }
    let s = non_empty_segment_list(segments);
    assert(crate::text::vviews(s@).len() == s@.len());
    if s.len() == 2 && is_lit(&s[0], "reel") && crate::live::all_ascii_digits(&s[1]) {
        assert(crate::text::vviews(s@)[0] == s@[0]@ && crate::text::vviews(s@)[1] == s@[1]@);
        return Some(FacebookMediaKind::Reel);
    }
    if s.len() == 3 && is_lit(&s[1], "videos") && crate::live::all_ascii_digits(&s[2]) {
        assert(crate::text::vviews(s@)[1] == s@[1]@ && crate::text::vviews(s@)[2] == s@[2]@);
        return Some(FacebookMediaKind::Video);
    }
    proof {
        if s.len() == 2 {
            assert(crate::text::vviews(s@)[0] == s@[0]@ && crate::text::vviews(s@)[1] == s@[1]@);
        }
        if s.len() == 3 {
            assert(crate::text::vviews(s@)[1] == s@[1]@ && crate::text::vviews(s@)[2] == s@[2]@);
        }
    }
    None
}

/// What `url::Url` serializes for a link after `set_scheme(scheme)`,
/// `set_host(Some(host))`, `set_query(None)` and `set_fragment(None)`;
/// nothing when the link does not parse or a setter refuses.
pub uninterp spec fn url_serialization_with(value: Seq<char>, scheme: Seq<char>, host: Seq<char>) -> Option<
    Seq<char>,
>;

/// `url::Url::parse`, then the setters above and `to_string`. Trusted: the
/// result is `url_serialization_with` of the link, scheme and host.
#[verifier::external_body]
fn url_with_scheme_and_host(value: &str, scheme: &str, host: &str) -> (r: Option<String>)
    ensures
        ostr(r) == url_serialization_with(value@, scheme@, host@),
{
    let mut parsed = url::Url::parse(value).ok()?;
    parsed.set_scheme(scheme).ok()?;
    parsed.set_host(Some(host)).ok()?;
    parsed.set_query(None);
    parsed.set_fragment(None);
    Some(parsed.to_string())
}

/// The scheme canonical video links are served over.
pub const CANONICAL_VIDEO_SCHEME: &'static str = "https";

/// The host canonical video links are served from.
pub const CANONICAL_VIDEO_HOST: &'static str = "www.facebook.com";

/// The canonical address of a page's video link: served over HTTPS from
/// `www.facebook.com`, without query, fragment or trailing `/`.
pub open spec fn canonical_video_url(value: Seq<char>) -> Option<Seq<char>> {
    match url_serialization_with(value, CANONICAL_VIDEO_SCHEME@, CANONICAL_VIDEO_HOST@) {
        Some(u) => Some(crate::text::strip_suffix_all(u, "/"@)),
        None => None,
    }
}

/// The canonical address of a page's video link, when it is one.
pub fn canonical_facebook_video_url(value: &str) -> (r: Option<String>)
    ensures
        media_kind(value@) == Some(FacebookMediaKind::Video) ==> ostr(r) == canonical_video_url(value@),
        media_kind(value@) != Some(FacebookMediaKind::Video) ==> r is None,
{
    match facebook_media_kind(value) {
        Some(FacebookMediaKind::Video) => match url_with_scheme_and_host(
            value,
            CANONICAL_VIDEO_SCHEME,
            CANONICAL_VIDEO_HOST,
        ) {
            Some(u) => Some(string_of(&crate::text::trim_end_matches(&chars_of(u.as_str()), &chars_of("/")))),
            None => None,
        },
        _ => None,
    }
}

/// The markers in a Story's card after which the media link stands, in the
/// order they are tried.
pub open spec fn story_markers() -> Seq<Seq<char>> {
    seq!["\"fb_shorts_story\":{\"url\":"@, "\"story_video_thumbnail\":{\"url\":"@]
}

/// The part of a page that holds a Story's card: from the Story's id on,
/// at most `FACEBOOK_STORY_CARD_SCAN_LENGTH` characters.
pub open spec fn story_card(html: Seq<char>, token: Seq<char>) -> Option<Seq<char>> {
    match crate::text::find(html, "\"id\":\""@ + token + "\""@) {
        Some(start) => Some(html.subrange(
            start,
            if html.len() < start + FACEBOOK_STORY_CARD_SCAN_LENGTH {
                html.len() as int
            } else {
                start + FACEBOOK_STORY_CARD_SCAN_LENGTH
            },
        )),
        None => None,
    }
}

/// The link a Story's card points to: the JSON string after the first
/// marker whose string is a Facebook reel or video link, with its kind.
pub open spec fn story_media_link(story_url: Seq<char>, html: Seq<char>) -> Option<(Seq<char>, FacebookMediaKind)> {
    match story_token(story_url) {
        None => None,
        Some(token) => match story_card(html, token) {
            None => None,
            Some(card) => {
                let first = json_string_after_spec(card, story_markers()[0]);
                let second = json_string_after_spec(card, story_markers()[1]);
                if first is Some && media_kind(first.unwrap()) is Some {
                    Some((first.unwrap(), media_kind(first.unwrap()).unwrap()))
                } else if second is Some && media_kind(second.unwrap()) is Some {
                    Some((second.unwrap(), media_kind(second.unwrap()).unwrap()))
                } else {
                    None
                }
            },
        },
    }
}

fn media_link_after(card: &str, marker: &str) -> (r: Option<(String, FacebookMediaKind)>)
    ensures
        match json_string_after_spec(card@, marker@) {
            Some(v) => match media_kind(v) {
                Some(k) => r matches Some(x) && x.0@ == v && x.1 == k,
                None => r is None,
            },
            None => r is None,
        },
{
    match json_string_after(card, marker) {
        Some(v) => match facebook_media_kind(v.as_str()) {
            Some(k) => Some((v, k)),
            None => None,
        },
        None => None,
    }
}

/// The Facebook reel or video link that a Story's page points to, with its
/// kind; nothing when the URL is not a Story link or the page has none.
pub fn facebook_story_media_link(story_url: &str, html: &str) -> (r: Option<(String, FacebookMediaKind)>)
    ensures
        match story_media_link(story_url@, html@) {
            Some(x) => r matches Some(y) && y.0@ == x.0 && y.1 == x.1,
            None => r is None,
        },
{
    proof {
        reveal_strlit("\"id\":\"");
        reveal_strlit("\"");
        reveal_strlit("\"fb_shorts_story\":{\"url\":");
        reveal_strlit("\"story_video_thumbnail\":{\"url\":");
    }
    let token = match facebook_story_token(story_url) {
        Some(t) => t,
        None => return None,
    };
    let h = chars_of(html);
    let mut marker = chars_of("\"id\":\"");
    push_str(&mut marker, token.as_str());
    push_str(&mut marker, "\"");
    let start = match crate::text::find_first(&h, &marker) {
        Some(s) => s,
        None => return None,
    };
    proof {
        crate::text::lemma_find_from(h@, marker@, 0);
    }
    let end = if h.len() - start < FACEBOOK_STORY_CARD_SCAN_LENGTH {
        h.len()
    } else {
        start + FACEBOOK_STORY_CARD_SCAN_LENGTH
    };
    let card = string_of(&crate::text::slice(&h, start, end));
    match media_link_after(card.as_str(), "\"fb_shorts_story\":{\"url\":") {
        Some(x) => Some(x),
        None => media_link_after(card.as_str(), "\"story_video_thumbnail\":{\"url\":"),
    }
}

} // verus!
