//! The recordings that are running: a slot per job, bounded by the
//! configured number of rooms.
use vstd::prelude::*;

use crate::text::{chars_of, seq_eq, string_of, strs};

verus! {

pub const TIKTOK_LIVE_ALREADY_ACTIVE_MESSAGE: &'static str = "This TikTok Live recording job is already active.";

pub const TIKTOK_LIVE_ONE_ROOM_MESSAGE: &'static str = "The TikTok Live recorder is at its configured room limit.";

/// The jobs that hold a recording slot, each once. A slot stays taken
/// until the job releases it, also while its cancellation is under way.
pub struct ActiveRecordings {
    job_ids: Vec<String>,
}

impl View for ActiveRecordings {
    type V = Seq<Seq<char>>;

    closed spec fn view(&self) -> Seq<Seq<char>> {
        strs(self.job_ids@)
    }
}

impl ActiveRecordings {
    #[verifier::type_invariant]
    spec fn each_job_once(self) -> bool {
        strs(self.job_ids@).no_duplicates()
    }

    /// No recording is running.
    pub fn new() -> (r: ActiveRecordings)
        ensures
            r@ == Seq::<Seq<char>>::empty(),
    {
        let r = ActiveRecordings { job_ids: Vec::new() };
        assert(r@ =~= Seq::<Seq<char>>::empty());
        r
    }

    /// The number of slots taken.
    pub fn len(&self) -> (r: usize)
        ensures
            r == self@.len(),
    {
        self.job_ids.len()
    }

    fn position(&self, job_id: &str) -> (r: Option<usize>)
        ensures
            match r {
                Some(i) => i < self@.len() && self@[i as int] == job_id@,
                None => !self@.contains(job_id@),
            },
    {
        let id = chars_of(job_id);
        let mut i: usize = 0;
        while i < self.job_ids.len()
            invariant
                i <= self.job_ids.len(),
                id@ == job_id@,
                forall|j: int| 0 <= j < i ==> self@[j] != job_id@,
            decreases self.job_ids.len() - i,
        {
            if seq_eq(&chars_of(self.job_ids[i].as_str()), &id) {
                return Some(i);
            }
            i += 1;
        }
        None
    }

    /// Whether the job holds a slot.
    pub fn contains(&self, job_id: &str) -> (r: bool)
        ensures
            r == self@.contains(job_id@),
    {
        self.position(job_id).is_some()
    }

    /// Whether no slot is free under `limit` rooms.
    pub fn at_limit(&self, limit: usize) -> (r: bool)
        ensures
            r == (self@.len() >= limit),
    {
        self.job_ids.len() >= limit
    }

    /// Takes a slot for the job: refused for a job that holds one, and when
    /// `limit` slots are taken.
    pub fn reserve(&mut self, job_id: &str, limit: usize) -> (r: Result<(), String>)
        ensures
            match r {
                Ok(()) => !old(self)@.contains(job_id@) && old(self)@.len() < limit && final(self)@
                    == old(self)@.push(job_id@),
                Err(m) => final(self)@ == old(self)@ && if old(self)@.contains(job_id@) {
                    m@ == TIKTOK_LIVE_ALREADY_ACTIVE_MESSAGE@
                } else {
                    old(self)@.len() >= limit && m@ == TIKTOK_LIVE_ONE_ROOM_MESSAGE@
                },
            },
            final(self)@.len() <= old(self)@.len() || final(self)@.len() <= limit,
            final(self)@.no_duplicates(),
    {
        proof {
            use_type_invariant(&*self);
        }
        if self.contains(job_id) {
            return Err(string_of(&chars_of(TIKTOK_LIVE_ALREADY_ACTIVE_MESSAGE)));
        }
        if self.job_ids.len() >= limit {
            return Err(string_of(&chars_of(TIKTOK_LIVE_ONE_ROOM_MESSAGE)));
        }
        let ghost before = self@;
        let id = string_of(&chars_of(job_id));
        let mut ids: Vec<String> = Vec::new();
        std::mem::swap(&mut ids, &mut self.job_ids);
        ids.push(id);
        assert(strs(ids@) =~= before.push(job_id@));
        assert(strs(ids@).no_duplicates()) by {
            assert forall|a: int, b: int| 0 <= a < b < strs(ids@).len() implies strs(ids@)[a]
                != strs(ids@)[b] by {
                if b == before.len() {
                    assert(strs(ids@)[a] == before[a]);
                }
            }
        }
        self.job_ids = ids;
        Ok(())
    }

    /// Frees the job's slot, if it holds one; the other jobs keep theirs,
    /// in order.
    pub fn release(&mut self, job_id: &str)
        ensures
            !final(self)@.contains(job_id@),
            old(self)@.contains(job_id@) ==> exists|i: int|
                0 <= i < old(self)@.len() && old(self)@[i] == job_id@ && final(self)@ == old(
                    self,
                )@.remove(i),
            !old(self)@.contains(job_id@) ==> final(self)@ == old(self)@,
            final(self)@.no_duplicates(),
    {
        proof {
            use_type_invariant(&*self);
        }
        let ghost before = self@;
        match self.position(job_id) {
            None => {},
            Some(i) => {
                let mut ids: Vec<String> = Vec::new();
        std::mem::swap(&mut ids, &mut self.job_ids);
                ids.remove(i);
                let ghost after = strs(ids@);
                assert(after =~= before.remove(i as int));
                assert forall|a: int| 0 <= a < after.len() implies after[a] != job_id@ by {
                    let pa = if a < i { a } else { a + 1 };
                    assert(after[a] == before[pa]);
                    assert(pa != i);
                }
                assert(after.no_duplicates()) by {
                    assert forall|a: int, b: int| 0 <= a < b < after.len() implies after[a]
                        != after[b] by {
                        let pa = if a < i { a } else { a + 1 };
                        let pb = if b < i { b } else { b + 1 };
                        assert(after[a] == before[pa]);
                        assert(after[b] == before[pb]);
                    }
                }
                self.job_ids = ids;
            },
        }
    }
}

} // verus!
