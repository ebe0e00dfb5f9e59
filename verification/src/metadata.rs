//! The video metadata cache: what is cached per video, and the bookkeeping that the
//! cache's operations do on it.

use vstd::prelude::*;
use vstd::string::StringExecFns;

use crate::seqs::lemma_filter_membership;

verus! {

/// Title and channel handle of a video.
#[derive(Debug)]
pub struct VideoMetadata {
    pub title: String,
    pub channel: String,
}

/// Counts of cache entries by state.
#[derive(Clone, Copy, PartialEq, Eq, Debug, Structural)]
pub struct MetadataCacheStats {
    pub total: usize,
    pub pending: usize,
    pub cached: usize,
    pub failed: usize,
}

/// The state of one cached video. (The future of a pending fetch is kept by the caller.)
#[derive(Debug)]
pub enum FetchState<E> {
    Pending,
    Ready(VideoMetadata),
    Failed(E),
}

/// A cached video.
#[derive(Debug)]
pub struct CacheEntry<E> {
    pub video_id: String,
    pub state: FetchState<E>,
}

/// Video metadata cache, keyed by video id. Each video id occurs at most once: the entries are a
/// list rather than a hash map, as the keys are text, of which Verus proves nothing through a
/// hash map's lookups.
pub struct LocalMetadataCache<E> {
    entries: Vec<CacheEntry<E>>,
}

/// The video ids of the entries.
pub open spec fn entry_keys<E>(entries: Seq<CacheEntry<E>>) -> Seq<Seq<char>> {
    entries.map_values(|e: CacheEntry<E>| e.video_id@)
}

/// The state cached for `key`, if any (the last entry with that key).
pub open spec fn cached_state<E>(entries: Seq<CacheEntry<E>>, key: Seq<char>) -> Option<FetchState<E>>
    decreases entries.len(),
{
    if entries.len() == 0 {
        None
    } else if entries.last().video_id@ == key {
        Some(entries.last().state)
    } else {
        cached_state(entries.drop_last(), key)
    }
}

/// Without an entry for `key`, nothing is cached for it; with distinct keys, the entry
/// for `key` gives what is cached.
pub proof fn lemma_cached_state<E>(entries: Seq<CacheEntry<E>>, key: Seq<char>)
    requires
        entry_keys(entries).no_duplicates(),
    ensures
        (forall|j: int| 0 <= j < entries.len() ==> entries[j].video_id@ != key) ==> cached_state(entries, key) is None,
        forall|j: int| 0 <= j < entries.len() && #[trigger] entries[j].video_id@ == key ==> cached_state(entries, key) == Some(entries[j].state),
    decreases entries.len(),
{
    if entries.len() > 0 {
        let init = entries.drop_last();
        assert(entry_keys(init) =~= entry_keys(entries).drop_last());
        lemma_cached_state(init, key);
        assert forall|j: int| 0 <= j < entries.len() && #[trigger] entries[j].video_id@ == key implies cached_state(entries, key) == Some(entries[j].state) by {
            if j < entries.len() - 1 {
                assert(init[j] == entries[j]);
                if entries.last().video_id@ == key {
                    assert(entry_keys(entries)[j] == entry_keys(entries)[entries.len() - 1]);
                }
            }
        }
        if forall|j: int| 0 <= j < entries.len() ==> entries[j].video_id@ != key {
            assert forall|j: int| 0 <= j < init.len() implies init[j].video_id@ != key by {
                assert(init[j] == entries[j]);
            }
            assert(entries[entries.len() - 1].video_id@ != key);
        }
    }
}

/// Whether an entry is a failed fetch.
pub open spec fn is_failed<E>(e: CacheEntry<E>) -> bool {
    e.state is Failed
}

/// Whether an entry is a fetch still in progress.
pub open spec fn is_pending<E>(e: CacheEntry<E>) -> bool {
    e.state is Pending
}

/// Counts of `entries` by state.
pub open spec fn stats_of<E>(entries: Seq<CacheEntry<E>>) -> MetadataCacheStats
    decreases entries.len(),
{
    if entries.len() == 0 {
        MetadataCacheStats { total: 0, pending: 0, cached: 0, failed: 0 }
    } else {
        let s = stats_of(entries.drop_last());
        let total = (s.total + 1) as usize;
        match entries.last().state {
            FetchState::Pending => MetadataCacheStats { total, pending: (s.pending + 1) as usize, ..s },
            FetchState::Ready(_) => MetadataCacheStats { total, cached: (s.cached + 1) as usize, ..s },
            FetchState::Failed(_) => MetadataCacheStats { total, failed: (s.failed + 1) as usize, ..s },
        }
    }
}

/// Entries without failures count no failure; pending entries alone count nothing cached.
proof fn lemma_stats_of_unfailed<E>(s: Seq<CacheEntry<E>>)
    ensures
        (forall|i: int| 0 <= i < s.len() ==> !is_failed(#[trigger] s[i])) ==> stats_of(s).failed == 0,
        (forall|i: int| 0 <= i < s.len() ==> is_pending(#[trigger] s[i])) ==> stats_of(s).failed == 0 && stats_of(s).cached == 0,
    decreases s.len(),
{
    if s.len() > 0 {
        let init = s.drop_last();
        lemma_stats_of_unfailed(init);
        if forall|i: int| 0 <= i < s.len() ==> !is_failed(#[trigger] s[i]) {
            assert forall|i: int| 0 <= i < init.len() implies !is_failed(#[trigger] init[i]) by {
                assert(init[i] == s[i]);
            }
            assert(!is_failed(s[s.len() - 1]));
        }
        if forall|i: int| 0 <= i < s.len() ==> is_pending(#[trigger] s[i]) {
            assert forall|i: int| 0 <= i < init.len() implies is_pending(#[trigger] init[i]) by {
                assert(init[i] == s[i]);
            }
            assert(is_pending(s[s.len() - 1]));
        }
    }
}

/// The stats count every entry once, by its state.
pub proof fn lemma_stats_partition<E>(entries: Seq<CacheEntry<E>>)
    requires
        entries.len() <= usize::MAX,
    ensures
        stats_of(entries).total == entries.len(),
        stats_of(entries).pending + stats_of(entries).cached + stats_of(entries).failed == entries.len(),
    decreases entries.len(),
{
    if entries.len() > 0 {
        lemma_stats_partition(entries.drop_last());
    }
}

impl<E> LocalMetadataCache<E> {
    /// The entries, in insertion order.
    pub closed spec fn entries(&self) -> Seq<CacheEntry<E>> {
        self.entries@
    }

    /// No video id occurs twice.
    pub closed spec fn wf(&self) -> bool {
        entry_keys(self.entries@).no_duplicates()
    }

    /// An empty cache.
    pub fn new() -> (c: Self)
        ensures
            c.wf(),
            c.entries().len() == 0,
    {
        let c = LocalMetadataCache { entries: Vec::new() };
        proof { assert(entry_keys(c.entries@) =~= Seq::<Seq<char>>::empty()); }
        c
    }

    fn position(&self, key: &String) -> (r: Option<usize>)
        ensures
            r matches Some(i) ==> i < self.entries@.len() && self.entries@[i as int].video_id@ == key@,
            r is None ==> forall|j: int| 0 <= j < self.entries@.len() ==> self.entries@[j].video_id@ != key@,
    {
        let n = self.entries.len();
        let mut i: usize = 0;
        while i < n
            invariant
                n == self.entries@.len(),
                i <= n,
                forall|j: int| 0 <= j < i ==> self.entries@[j].video_id@ != key@,
            decreases n - i,
        {
            if self.entries[i].video_id == *key {
                return Some(i);
            }
            i += 1;
        }
        None
    }

    /// The state cached for `video_id`, if any.
    pub fn lookup(&self, video_id: &str) -> (r: Option<&FetchState<E>>)
        requires
            self.wf(),
        ensures
            match cached_state(self.entries(), video_id@) {
                None => r is None,
                Some(s) => r matches Some(x) && *x == s,
            },
    {
        let key = String::from_str(video_id);
        proof { lemma_cached_state(self.entries@, video_id@); }
        match self.position(&key) {
            None => None,
            Some(i) => {
                proof { self.lemma_unique_position(i as int); }
                Some(&self.entries[i].state)
            },
        }
    }

    proof fn lemma_unique_position(&self, i: int)
        requires
            self.wf(),
            0 <= i < self.entries@.len(),
        ensures
            cached_state(self.entries@, self.entries@[i].video_id@) == Some(self.entries@[i].state),
    {
        lemma_cached_state(self.entries@, self.entries@[i].video_id@);
    }

    /// Starts a fetch for `video_id` unless the cache already has an entry for it:
    /// returns whether a pending entry was added (and the caller must fetch).
    pub fn start_fetch(&mut self, video_id: &str) -> (started: bool)
        requires
            old(self).wf(),
        ensures
            final(self).wf(),
            started == (cached_state(old(self).entries(), video_id@) is None),
            started ==> final(self).entries() == old(self).entries().push(CacheEntry { video_id: final(self).entries().last().video_id, state: FetchState::Pending })
                && final(self).entries().last().video_id@ == video_id@,
            !started ==> final(self).entries() == old(self).entries(),
    {
        let key = String::from_str(video_id);
        proof { lemma_cached_state(self.entries@, video_id@); }
        match self.position(&key) {
            Some(i) => {
                proof { self.lemma_unique_position(i as int); }
                false
            },
            None => {
                let ghost before = self.entries@;
                self.entries.push(CacheEntry { video_id: key, state: FetchState::Pending });
                proof {
                    assert(entry_keys(self.entries@) =~= entry_keys(before).push(video_id@));
                    assert(!entry_keys(before).contains(video_id@)) by {
                        if entry_keys(before).contains(video_id@) {
                            let j = choose|j: int| 0 <= j < entry_keys(before).len() && entry_keys(before)[j] == video_id@;
                            assert(before[j].video_id@ == video_id@);
                        }
                    }
                }
                true
            },
        }
    }

    /// Records the outcome of a fetch for `video_id`: its entry becomes `Ready` or `Failed`.
    pub fn finish_fetch(&mut self, video_id: &str, result: Result<VideoMetadata, E>)
        requires
            old(self).wf(),
        ensures
            final(self).wf(),
            cached_state(final(self).entries(), video_id@) == Some(match result {
                Ok(m) => FetchState::<E>::Ready(m),
                Err(e) => FetchState::<E>::Failed(e),
            }),
            forall|k: Seq<char>| k != video_id@ ==> cached_state(final(self).entries(), k) == cached_state(old(self).entries(), k),
    {
        let key = String::from_str(video_id);
        let state = match result {
            Ok(m) => FetchState::Ready(m),
            Err(e) => FetchState::Failed(e),
        };
        let ghost before = self.entries@;
        proof { lemma_cached_state(before, video_id@); }
        match self.position(&key) {
            Some(i) => {
                self.entries.set(i, CacheEntry { video_id: key, state });
                proof {
                    assert(entry_keys(self.entries@) =~= entry_keys(before));
                    self.lemma_unique_position(i as int);
                    assert forall|k: Seq<char>| k != video_id@ implies cached_state(self.entries@, k) == cached_state(before, k) by {
                        lemma_cached_state(before, k);
                        lemma_cached_state(self.entries@, k);
                        if exists|j: int| 0 <= j < before.len() && before[j].video_id@ == k {
                            let j = choose|j: int| 0 <= j < before.len() && before[j].video_id@ == k;
                            assert(self.entries@[j] == before[j]);
                        } else {
                            assert forall|j: int| 0 <= j < self.entries@.len() implies self.entries@[j].video_id@ != k by {
                                if j != i {
                                    assert(self.entries@[j] == before[j]);
                                }
                            }
                        }
                    }
                }
            },
            None => {
                self.entries.push(CacheEntry { video_id: key, state });
                proof {
                    assert(entry_keys(self.entries@) =~= entry_keys(before).push(video_id@));
                    assert(!entry_keys(before).contains(video_id@)) by {
                        if entry_keys(before).contains(video_id@) {
                            let j = choose|j: int| 0 <= j < entry_keys(before).len() && entry_keys(before)[j] == video_id@;
                            assert(before[j].video_id@ == video_id@);
                        }
                    }
                    let last = self.entries@.len() - 1;
                    self.lemma_unique_position(last);
                    assert forall|k: Seq<char>| k != video_id@ implies cached_state(self.entries@, k) == cached_state(before, k) by {
                        assert(self.entries@.drop_last() =~= before);
                    }
                }
            },
        }
    }

    /// Keeps the entries that `keep_pending_only` (or, when false, `!is_failed`) selects.
    fn retain_entries(&mut self, keep_pending_only: bool) -> (removed: usize)
        requires
            old(self).wf(),
        ensures
            final(self).wf(),
            final(self).entries() == Self::retained(keep_pending_only, old(self).entries()),
            removed == old(self).entries().len() - final(self).entries().len(),
    {
        let ghost before = self.entries@;
        let mut rest: Vec<CacheEntry<E>> = Vec::new();
        std::mem::swap(&mut rest, &mut self.entries);
        let n = rest.len();
        let mut kept: Vec<CacheEntry<E>> = Vec::new();
        let mut i: usize = 0;
        while rest.len() > 0
            invariant
                n == before.len(),
                i + rest@.len() == n,
                rest@ == before.skip(i as int),
                kept@ == Self::retained(keep_pending_only, before.take(i as int)),
            decreases rest.len(),
        {
            let e = rest.remove(0);
            proof {
                assert(before[i as int] == e);
                Self::lemma_retained_step(keep_pending_only, before, i as int);
                assert(before.skip(i + 1) =~= before.skip(i as int).drop_first());
            }
            let keep = match &e.state {
                FetchState::Pending => true,
                FetchState::Ready(_) => !keep_pending_only,
                FetchState::Failed(_) => false,
            };
            assert(keep == Self::keeps(keep_pending_only, e));
            if keep {
                kept.push(e);
            }
            i += 1;
        }
        proof {
            assert(before.take(n as int) =~= before);
            Self::lemma_keys_filter(before, |e: CacheEntry<E>| Self::keeps(keep_pending_only, e));
        }
        self.entries = kept;
        n - self.entries.len()
    }

    proof fn lemma_keys_filter(s: Seq<CacheEntry<E>>, p: spec_fn(CacheEntry<E>) -> bool)
        requires
            entry_keys(s).no_duplicates(),
        ensures
            entry_keys(s.filter(p)).no_duplicates(),
        decreases s.len(),
    {
        reveal(Seq::filter);
        if s.len() > 0 {
            let init = s.drop_last();
            assert(entry_keys(init) =~= entry_keys(s).drop_last());
            Self::lemma_keys_filter(init, p);
            if p(s.last()) {
                lemma_filter_membership(init, p);
                assert(entry_keys(s.filter(p)) =~= entry_keys(init.filter(p)).push(s.last().video_id@));
                assert(!entry_keys(init.filter(p)).contains(s.last().video_id@)) by {
                    if entry_keys(init.filter(p)).contains(s.last().video_id@) {
                        let j = choose|j: int| 0 <= j < init.filter(p).len() && entry_keys(init.filter(p))[j] == s.last().video_id@;
                        assert(init.filter(p).contains(init.filter(p)[j]));
                        let t = choose|t: int| 0 <= t < init.len() && init[t] == init.filter(p)[j];
                        assert(entry_keys(s)[t] == entry_keys(s)[s.len() - 1]);
                    }
                }
            }
        }
    }

    /// The entries that stay, in order.
    pub open spec fn retained(keep_pending_only: bool, s: Seq<CacheEntry<E>>) -> Seq<CacheEntry<E>> {
        s.filter(|e: CacheEntry<E>| Self::keeps(keep_pending_only, e))
    }

    proof fn lemma_retained_step(keep_pending_only: bool, s: Seq<CacheEntry<E>>, i: int)
        requires
            0 <= i < s.len(),
        ensures
            Self::retained(keep_pending_only, s.take(i + 1)) == (if Self::keeps(keep_pending_only, s[i]) {
                Self::retained(keep_pending_only, s.take(i)).push(s[i])
            } else {
                Self::retained(keep_pending_only, s.take(i))
            }),
    {
        reveal(Seq::filter);
        assert(s.take(i + 1).drop_last() =~= s.take(i));
        assert(s.take(i + 1).last() == s[i]);
    }

    /// Whether an entry stays: pending ones always, ready ones unless only pending ones stay.
    pub open spec fn keeps(keep_pending_only: bool, e: CacheEntry<E>) -> bool {
        match e.state {
            FetchState::Pending => true,
            FetchState::Ready(_) => !keep_pending_only,
            FetchState::Failed(_) => false,
        }
    }

    /// After clearing errors, no failed fetch remains and the stats count no failure, while
    /// every other entry stays.
    pub proof fn lemma_clear_errors_leaves_no_failure(s: Seq<CacheEntry<E>>)
        ensures
            forall|i: int| 0 <= i < Self::retained(false, s).len() ==> !is_failed(#[trigger] Self::retained(false, s)[i]),
            forall|e: CacheEntry<E>| s.contains(e) && !is_failed(e) ==> #[trigger] Self::retained(false, s).contains(e),
            stats_of(Self::retained(false, s)).failed == 0,
    {
        let r = Self::retained(false, s);
        lemma_filter_membership(s, |e: CacheEntry<E>| Self::keeps(false, e));
        assert forall|i: int| 0 <= i < r.len() implies !is_failed(#[trigger] r[i]) by {
            assert(r.contains(r[i]));
        }
        lemma_stats_of_unfailed(r);
    }

    /// After clearing the cache, only pending fetches remain, all of them, and the stats count
    /// nothing cached and no failure.
    pub proof fn lemma_clear_cache_keeps_only_pending(s: Seq<CacheEntry<E>>)
        ensures
            forall|i: int| 0 <= i < Self::retained(true, s).len() ==> is_pending(#[trigger] Self::retained(true, s)[i]),
            forall|e: CacheEntry<E>| s.contains(e) && is_pending(e) ==> #[trigger] Self::retained(true, s).contains(e),
            stats_of(Self::retained(true, s)).cached == 0,
            stats_of(Self::retained(true, s)).failed == 0,
    {
        let r = Self::retained(true, s);
        lemma_filter_membership(s, |e: CacheEntry<E>| Self::keeps(true, e));
        assert forall|i: int| 0 <= i < r.len() implies is_pending(#[trigger] r[i]) by {
            assert(r.contains(r[i]));
        }
        lemma_stats_of_unfailed(r);
    }

    /// Clears all cached errors; returns the number of cleared entries.
    pub fn clear_errors(&mut self) -> (removed: usize)
        requires
            old(self).wf(),
        ensures
            final(self).wf(),
            final(self).entries() == Self::retained(false, old(self).entries()),
            removed == old(self).entries().len() - final(self).entries().len(),
    {
        self.retain_entries(false)
    }

    /// Clears all cached entries except pending fetches; returns the number of cleared entries.
    pub fn clear_cache(&mut self) -> (removed: usize)
        requires
            old(self).wf(),
        ensures
            final(self).wf(),
            final(self).entries() == Self::retained(true, old(self).entries()),
            removed == old(self).entries().len() - final(self).entries().len(),
    {
        self.retain_entries(true)
    }

    /// Counts the entries by state.
    pub fn get_stats(&self) -> (s: MetadataCacheStats)
        ensures
            s == stats_of(self.entries()),
    {
        let mut stats = MetadataCacheStats { total: 0, pending: 0, cached: 0, failed: 0 };
        let n = self.entries.len();
        let mut i: usize = 0;
        while i < n
            invariant
                n == self.entries@.len(),
                i <= n,
                stats == stats_of(self.entries@.take(i as int)),
            decreases n - i,
        {
            proof {
                assert(self.entries@.take(i + 1).drop_last() =~= self.entries@.take(i as int));
                lemma_stats_partition(self.entries@.take(i as int));
            }
            stats.total += 1;
            match &self.entries[i].state {
                FetchState::Pending => stats.pending += 1,
                FetchState::Ready(_) => stats.cached += 1,
                FetchState::Failed(_) => stats.failed += 1,
            }
            i += 1;
        }
        proof { assert(self.entries@.take(n as int) =~= self.entries@); }
        stats
    }
}

} // verus!
