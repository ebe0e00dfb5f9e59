//! The local thumbnail cache: thumbnails by key, with eviction of thumbnails that
//! nothing has used for a number of sweeps.

use std::rc::Rc;
use vstd::prelude::*;
use vstd::string::StringExecFns;

use crate::seqs::lemma_filter_membership;

verus! {

/// Identifies a thumbnail: a video and a timestamp in it.
#[derive(Debug)]
pub struct ThumbnailKey {
    pub video_id: String,
    pub timestamp: String,
}

/// A key, as plain sequences.
pub open spec fn key_view(k: ThumbnailKey) -> (Seq<char>, Seq<char>) {
    (k.video_id@, k.timestamp@)
}

/// Owns a generated thumbnail's object URL.
#[derive(Debug, PartialEq, Eq)]
pub struct LocalBlobLink {
    url: String,
}

impl LocalBlobLink {
    /// The object URL.
    pub closed spec fn url(&self) -> Seq<char> {
        self.url@
    }

    /// Takes ownership of an object URL.
    pub fn new(url: String) -> (l: LocalBlobLink)
        ensures
            l.url() == url@,
    {
        LocalBlobLink { url }
    }

    /// Borrows the inner URL string. The link must outlive any copy of it: the URL may be
    /// revoked when the link is dropped.
    pub fn inner_url(&self) -> (u: &str)
        ensures
            u@ == self.url(),
    {
        self.url.as_str()
    }
}

/// Statistics about the thumbnail cache.
#[derive(Clone, Copy, PartialEq, Eq, Debug, Structural)]
pub struct CacheStats {
    pub total: usize,
    pub thumbs: usize,
    pub in_use: usize,
    pub errors: usize,
    pub pending: usize,
}

/// The state of one cached thumbnail. (The future of a pending generation is kept by the caller.)
#[derive(Debug)]
pub enum LocalThumbnailState<E> {
    Pending,
    Ready { thumbnail: Rc<LocalBlobLink>, eviction_timer: usize },
    Failed(E),
}

/// A cached thumbnail.
#[derive(Debug)]
pub struct ThumbEntry<E> {
    pub key: ThumbnailKey,
    pub state: LocalThumbnailState<E>,
}

/// `Rc::strong_count`: how many `Rc`s point to the thumbnail now. The value depends on
/// what the rest of the program holds; all that is stated is that it counts this one.
#[verifier::external_body]
fn strong_count(rc: &Rc<LocalBlobLink>) -> (n: usize)
    ensures
        n >= 1,
{
    Rc::strong_count(rc)
}

/// A ready entry's eviction timer is below its maximum.
pub open spec fn timer_ok<E>(e: ThumbEntry<E>) -> bool {
    match e.state {
        LocalThumbnailState::Ready { eviction_timer, .. } => eviction_timer < usize::MAX,
        _ => true,
    }
}

/// The keys of the entries.
pub open spec fn thumb_keys<E>(entries: Seq<ThumbEntry<E>>) -> Seq<(Seq<char>, Seq<char>)> {
    entries.map_values(|e: ThumbEntry<E>| key_view(e.key))
}

/// The state cached for `key`, if any (the last entry with that key).
pub open spec fn thumb_state<E>(entries: Seq<ThumbEntry<E>>, key: (Seq<char>, Seq<char>)) -> Option<LocalThumbnailState<E>>
    decreases entries.len(),
{
    if entries.len() == 0 {
        None
    } else if key_view(entries.last().key) == key {
        Some(entries.last().state)
    } else {
        thumb_state(entries.drop_last(), key)
    }
}

/// With distinct keys, the entry for a key gives what is cached for it.
pub proof fn lemma_thumb_state<E>(entries: Seq<ThumbEntry<E>>, key: (Seq<char>, Seq<char>))
    requires
        thumb_keys(entries).no_duplicates(),
    ensures
        (forall|j: int| 0 <= j < entries.len() ==> key_view(entries[j].key) != key) ==> thumb_state(entries, key) is None,
        forall|j: int| 0 <= j < entries.len() && #[trigger] key_view(entries[j].key) == key ==> thumb_state(entries, key) == Some(entries[j].state),
    decreases entries.len(),
{
    if entries.len() > 0 {
        let init = entries.drop_last();
        assert(thumb_keys(init) =~= thumb_keys(entries).drop_last());
        lemma_thumb_state(init, key);
        assert forall|j: int| 0 <= j < entries.len() && #[trigger] key_view(entries[j].key) == key implies thumb_state(entries, key) == Some(entries[j].state) by {
            if j < entries.len() - 1 {
                assert(init[j] == entries[j]);
                if key_view(entries.last().key) == key {
                    assert(thumb_keys(entries)[j] == thumb_keys(entries)[entries.len() - 1]);
                }
            }
        }
        if forall|j: int| 0 <= j < entries.len() ==> key_view(entries[j].key) != key {
            assert forall|j: int| 0 <= j < init.len() implies key_view(init[j].key) != key by {
                assert(init[j] == entries[j]);
            }
            assert(key_view(entries[entries.len() - 1].key) != key);
        }
    }
}

/// What a sweep does to one entry, given whether its thumbnail is still in use elsewhere:
/// `None` when the entry is dropped.
pub open spec fn sweep_entry<E>(e: ThumbEntry<E>, in_use: bool, threshold: usize) -> Option<ThumbEntry<E>> {
    match e.state {
        LocalThumbnailState::Ready { thumbnail, eviction_timer } =>
            if in_use {
                Some(ThumbEntry { key: e.key, state: LocalThumbnailState::Ready { thumbnail, eviction_timer: 0 } })
            } else if eviction_timer + 1 < threshold {
                Some(ThumbEntry { key: e.key, state: LocalThumbnailState::Ready { thumbnail, eviction_timer: (eviction_timer + 1) as usize } })
            } else {
                None
            },
        _ => Some(e),
    }
}

/// The entries after a sweep, given which thumbnails are in use (`in_use` is aligned with `entries`).
pub open spec fn swept<E>(entries: Seq<ThumbEntry<E>>, in_use: Seq<bool>, threshold: usize) -> Seq<ThumbEntry<E>>
    decreases entries.len(),
{
    if entries.len() == 0 || in_use.len() != entries.len() {
        entries
    } else {
        let rest = swept(entries.drop_last(), in_use.drop_last(), threshold);
        match sweep_entry(entries.last(), in_use.last(), threshold) {
            Some(e) => rest.push(e),
            None => rest,
        }
    }
}

/// The number of eviction timers that a sweep increments: ready thumbnails not in use.
pub open spec fn incremented<E>(entries: Seq<ThumbEntry<E>>, in_use: Seq<bool>) -> nat
    decreases entries.len(),
{
    if entries.len() == 0 || in_use.len() != entries.len() {
        0
    } else {
        incremented(entries.drop_last(), in_use.drop_last())
            + if entries.last().state is Ready && !in_use.last() { 1nat } else { 0nat }
    }
}

/// Counts of `entries` by state, given which thumbnails are in use.
pub open spec fn thumb_stats_of<E>(entries: Seq<ThumbEntry<E>>, in_use: Seq<bool>) -> CacheStats
    decreases entries.len(),
{
    if entries.len() == 0 || in_use.len() != entries.len() {
        CacheStats { total: entries.len() as usize, thumbs: 0, in_use: 0, errors: 0, pending: 0 }
    } else {
        let s = thumb_stats_of(entries.drop_last(), in_use.drop_last());
        match entries.last().state {
            LocalThumbnailState::Pending => CacheStats { total: entries.len() as usize, pending: (s.pending + 1) as usize, ..s },
            LocalThumbnailState::Failed(_) => CacheStats { total: entries.len() as usize, errors: (s.errors + 1) as usize, ..s },
            LocalThumbnailState::Ready { .. } => CacheStats {
                total: entries.len() as usize,
                thumbs: (s.thumbs + 1) as usize,
                in_use: if in_use.last() { (s.in_use + 1) as usize } else { s.in_use },
                ..s
            },
        }
    }
}

/// For each entry, whether it is a ready thumbnail that is in use elsewhere.
pub open spec fn ready_and_used<E>(entries: Seq<ThumbEntry<E>>, in_use: Seq<bool>) -> Seq<bool> {
    Seq::new(entries.len(), |j: int| entries[j].state is Ready && in_use[j])
}

/// The cache statistics count the entries by state: `total` is the number of entries,
/// `pending` the number of pending generations, `errors` the number of failed ones, `thumbs`
/// the number of ready thumbnails, and `in_use` the number of ready thumbnails in use elsewhere.
pub proof fn lemma_stats_count_states<E>(entries: Seq<ThumbEntry<E>>, in_use: Seq<bool>)
    requires
        in_use.len() == entries.len(),
        entries.len() <= usize::MAX,
    ensures
        thumb_stats_of(entries, in_use).total == entries.len(),
        thumb_stats_of(entries, in_use).pending == entries.filter(|e: ThumbEntry<E>| e.state is Pending).len(),
        thumb_stats_of(entries, in_use).errors == entries.filter(|e: ThumbEntry<E>| e.state is Failed).len(),
        thumb_stats_of(entries, in_use).thumbs == entries.filter(|e: ThumbEntry<E>| e.state is Ready).len(),
        thumb_stats_of(entries, in_use).in_use == ready_and_used(entries, in_use).filter(|b: bool| b).len(),
    decreases entries.len(),
{
    reveal(Seq::filter);
    if entries.len() > 0 {
        let init = entries.drop_last();
        let uinit = in_use.drop_last();
        lemma_stats_count_states(init, uinit);
        assert(ready_and_used(init, uinit) =~= ready_and_used(entries, in_use).drop_last());
    }
}

/// The endpoint that generates thumbnails, before the user picks another.
pub open spec fn default_api_url() -> Seq<char> {
    "https://dearrow-thumb.minibomba.pro/api/v1/getThumbnail"@
}

/// Thumbnail cache owned by the current thread, worker or window. Its entries are kept as a list
/// in which each key occurs once, as the keys are text, of which Verus proves nothing through a
/// hash map's lookups; lookups search the list.
pub struct LocalThumbGenerator<E> {
    thumbs: Vec<ThumbEntry<E>>,
    api_base_url: String,
    eviction_threshold: usize,
}

impl<E> LocalThumbGenerator<E> {
    /// The entries, in insertion order.
    pub closed spec fn entries(&self) -> Seq<ThumbEntry<E>> {
        self.thumbs@
    }

    /// The endpoint that thumbnails are requested from.
    pub closed spec fn api_url(&self) -> Seq<char> {
        self.api_base_url@
    }

    /// How many sweeps an unused thumbnail survives.
    pub closed spec fn threshold(&self) -> usize {
        self.eviction_threshold
    }

    /// Keys are distinct, and no eviction timer is at its maximum.
    pub closed spec fn wf(&self) -> bool {
        &&& thumb_keys(self.thumbs@).no_duplicates()
        &&& forall|i: int| 0 <= i < self.thumbs@.len() ==> timer_ok(#[trigger] self.thumbs@[i])
    }

    /// An empty cache with the default endpoint and an eviction threshold of 5 sweeps.
    pub fn new() -> (g: Self)
        ensures
            g.wf(),
            g.entries().len() == 0,
            g.api_url() == default_api_url(),
            g.threshold() == 5,
    {
        let g = LocalThumbGenerator {
            thumbs: Vec::new(),
            api_base_url: String::from_str("https://dearrow-thumb.minibomba.pro/api/v1/getThumbnail"),
            eviction_threshold: 5,
        };
        proof { assert(thumb_keys(g.thumbs@) =~= Seq::<(Seq<char>, Seq<char>)>::empty()); }
        g
    }

    fn position(&self, key: &ThumbnailKey) -> (r: Option<usize>)
        ensures
            r matches Some(i) ==> i < self.thumbs@.len() && key_view(self.thumbs@[i as int].key) == key_view(*key),
            r is None ==> forall|j: int| 0 <= j < self.thumbs@.len() ==> key_view(self.thumbs@[j].key) != key_view(*key),
    {
        let n = self.thumbs.len();
        let mut i: usize = 0;
        while i < n
            invariant
                n == self.thumbs@.len(),
                i <= n,
                forall|j: int| 0 <= j < i ==> key_view(self.thumbs@[j].key) != key_view(*key),
            decreases n - i,
        {
            let k = &self.thumbs[i].key;
            if k.video_id == key.video_id && k.timestamp == key.timestamp {
                return Some(i);
            }
            i += 1;
        }
        None
    }

    fn copy_key(key: &ThumbnailKey) -> (k: ThumbnailKey)
        ensures
            key_view(k) == key_view(*key),
    {
        ThumbnailKey { video_id: key.video_id.clone(), timestamp: key.timestamp.clone() }
    }

    /// The state cached for `key`, if any.
    pub fn lookup(&self, key: &ThumbnailKey) -> (r: Option<&LocalThumbnailState<E>>)
        requires
            self.wf(),
        ensures
            match thumb_state(self.entries(), key_view(*key)) {
                None => r is None,
                Some(s) => r matches Some(x) && *x == s,
            },
    {
        proof { lemma_thumb_state(self.thumbs@, key_view(*key)); }
        match self.position(key) {
            None => None,
            Some(i) => Some(&self.thumbs[i].state),
        }
    }

    /// Asks for the thumbnail of `key`: adds a pending entry when there is none (and returns
    /// `true`: the caller must generate it), and restarts the eviction timer of a ready one.
    pub fn get_thumb(&mut self, key: &ThumbnailKey) -> (started: bool)
        requires
            old(self).wf(),
        ensures
            final(self).wf(),
            started == (thumb_state(old(self).entries(), key_view(*key)) is None),
            thumb_state(final(self).entries(), key_view(*key)) == match thumb_state(old(self).entries(), key_view(*key)) {
                None => Some(LocalThumbnailState::<E>::Pending),
                Some(LocalThumbnailState::Ready { thumbnail, .. }) => Some(LocalThumbnailState::<E>::Ready { thumbnail, eviction_timer: 0 }),
                Some(s) => Some(s),
            },
            forall|k: (Seq<char>, Seq<char>)| k != key_view(*key) ==> thumb_state(final(self).entries(), k) == thumb_state(old(self).entries(), k),
            final(self).api_url() == old(self).api_url(),
            final(self).threshold() == old(self).threshold(),
    {
        let ghost before = self.thumbs@;
        proof { lemma_thumb_state(before, key_view(*key)); }
        match self.position(key) {
            Some(i) => {
                let is_ready = match &self.thumbs[i].state {
                    LocalThumbnailState::Ready { .. } => true,
                    _ => false,
                };
                if is_ready {
                    let entry = self.thumbs.remove(i);
                    let fresh = match entry.state {
                        LocalThumbnailState::Ready { thumbnail, .. } => LocalThumbnailState::Ready { thumbnail, eviction_timer: 0 },
                        other => other,
                    };
                    self.thumbs.insert(i, ThumbEntry { key: entry.key, state: fresh });
                    proof {
                        assert(self.thumbs@ =~= before.update(i as int, self.thumbs@[i as int]));
                        self.lemma_update_keeps(before, i as int);
                    }
                }
                false
            },
            None => {
                let k = Self::copy_key(key);
                self.thumbs.push(ThumbEntry { key: k, state: LocalThumbnailState::Pending });
                proof { self.lemma_push_new(before, key_view(*key)); }
                true
            },
        }
    }

    proof fn lemma_update_keeps(&self, before: Seq<ThumbEntry<E>>, i: int)
        requires
            0 <= i < before.len(),
            self.thumbs@ == before.update(i, self.thumbs@[i]),
            key_view(self.thumbs@[i].key) == key_view(before[i].key),
            thumb_keys(before).no_duplicates(),
            forall|j: int| 0 <= j < before.len() ==> timer_ok(#[trigger] before[j]),
            timer_ok(self.thumbs@[i]),
        ensures
            self.wf(),
            thumb_state(self.thumbs@, key_view(before[i].key)) == Some(self.thumbs@[i].state),
            forall|k: (Seq<char>, Seq<char>)| k != key_view(before[i].key) ==> thumb_state(self.thumbs@, k) == thumb_state(before, k),
    {
        assert(thumb_keys(self.thumbs@) =~= thumb_keys(before));
        assert forall|j: int| 0 <= j < self.thumbs@.len() implies timer_ok(#[trigger] self.thumbs@[j]) by {
            if j != i {
                assert(self.thumbs@[j] == before[j]);
            }
        }
        lemma_thumb_state(self.thumbs@, key_view(before[i].key));
        assert forall|k: (Seq<char>, Seq<char>)| k != key_view(before[i].key) implies thumb_state(self.thumbs@, k) == thumb_state(before, k) by {
            lemma_thumb_state(before, k);
            lemma_thumb_state(self.thumbs@, k);
            if exists|j: int| 0 <= j < before.len() && key_view(before[j].key) == k {
                let j = choose|j: int| 0 <= j < before.len() && key_view(before[j].key) == k;
                assert(self.thumbs@[j] == before[j]);
            } else {
                assert forall|j: int| 0 <= j < self.thumbs@.len() implies key_view(self.thumbs@[j].key) != k by {
                    if j != i {
                        assert(self.thumbs@[j] == before[j]);
                    }
                }
            }
        }
    }

    proof fn lemma_push_new(&self, before: Seq<ThumbEntry<E>>, key: (Seq<char>, Seq<char>))
        requires
            self.thumbs@.len() == before.len() + 1,
            forall|j: int| 0 <= j < before.len() ==> self.thumbs@[j] == before[j],
            key_view(self.thumbs@.last().key) == key,
            forall|j: int| 0 <= j < before.len() ==> key_view(before[j].key) != key,
            thumb_keys(before).no_duplicates(),
            forall|j: int| 0 <= j < before.len() ==> timer_ok(#[trigger] before[j]),
            timer_ok(self.thumbs@.last()),
        ensures
            self.wf(),
            thumb_state(self.thumbs@, key) == Some(self.thumbs@.last().state),
            forall|k: (Seq<char>, Seq<char>)| k != key ==> thumb_state(self.thumbs@, k) == thumb_state(before, k),
    {
        assert(self.thumbs@.drop_last() =~= before);
        assert(thumb_keys(self.thumbs@) =~= thumb_keys(before).push(key));
        assert(!thumb_keys(before).contains(key)) by {
            if thumb_keys(before).contains(key) {
                let j = choose|j: int| 0 <= j < thumb_keys(before).len() && thumb_keys(before)[j] == key;
                assert(key_view(before[j].key) == key);
            }
        }
        assert forall|j: int| 0 <= j < self.thumbs@.len() implies timer_ok(#[trigger] self.thumbs@[j]) by {
            if j < before.len() {
                assert(self.thumbs@[j] == before[j]);
            }
        }
    }

    /// Records the outcome of generating the thumbnail of `key`: a fresh ready thumbnail
    /// (eviction timer 0) or the error.
    pub fn finish_generation(&mut self, key: &ThumbnailKey, result: Result<LocalBlobLink, E>)
        requires
            old(self).wf(),
        ensures
            final(self).wf(),
            thumb_state(final(self).entries(), key_view(*key)) matches Some(s) && match result {
                Ok(link) => s matches LocalThumbnailState::Ready { thumbnail, eviction_timer } && *thumbnail == link && eviction_timer == 0,
                Err(e) => s == LocalThumbnailState::<E>::Failed(e),
            },
            forall|k: (Seq<char>, Seq<char>)| k != key_view(*key) ==> thumb_state(final(self).entries(), k) == thumb_state(old(self).entries(), k),
            final(self).api_url() == old(self).api_url(),
            final(self).threshold() == old(self).threshold(),
    {
        let state = match result {
            Ok(link) => LocalThumbnailState::Ready { thumbnail: Rc::new(link), eviction_timer: 0 },
            Err(e) => LocalThumbnailState::Failed(e),
        };
        let ghost before = self.thumbs@;
        let k = Self::copy_key(key);
        match self.position(key) {
            Some(i) => {
                self.thumbs.set(i, ThumbEntry { key: k, state });
                proof { self.lemma_update_keeps(before, i as int); }
            },
            None => {
                self.thumbs.push(ThumbEntry { key: k, state });
                proof { self.lemma_push_new(before, key_view(*key)); }
            },
        }
    }

    /// Replaces the endpoint; does not clear the cache.
    pub fn set_api_url(&mut self, new_url: String)
        ensures
            final(self).api_url() == new_url@,
            final(self).entries() == old(self).entries(),
            final(self).threshold() == old(self).threshold(),
            old(self).wf() ==> final(self).wf(),
    {
        self.api_base_url = new_url;
    }

    /// The endpoint that thumbnails are requested from.
    pub fn api_base_url(&self) -> (u: &str)
        ensures
            u@ == self.api_url(),
    {
        self.api_base_url.as_str()
    }

    /// Sets a new eviction threshold; does not sweep.
    pub fn set_eviction_threshold(&mut self, new_threshold: usize)
        ensures
            final(self).threshold() == new_threshold,
            final(self).entries() == old(self).entries(),
            final(self).api_url() == old(self).api_url(),
            old(self).wf() ==> final(self).wf(),
    {
        self.eviction_threshold = new_threshold;
    }

    /// Sweeps the cache, given which thumbnails are in use elsewhere (`in_use` is aligned
    /// with the entries): a thumbnail in use gets its eviction timer reset; one not in use has
    /// it incremented and is dropped once it reaches the eviction threshold. Returns
    /// (number of timers incremented, number of entries dropped).
    pub fn sweep_with(&mut self, in_use: &Vec<bool>) -> (r: (usize, usize))
        requires
            old(self).wf(),
            in_use@.len() == old(self).entries().len(),
        ensures
            final(self).wf(),
            final(self).entries() == swept(old(self).entries(), in_use@, old(self).threshold()),
            r.0 == incremented(old(self).entries(), in_use@),
            r.1 == old(self).entries().len() - final(self).entries().len(),
            final(self).api_url() == old(self).api_url(),
            final(self).threshold() == old(self).threshold(),
            forall|key: (Seq<char>, Seq<char>)| #[trigger] thumb_state(final(self).entries(), key)
                == after_sweep_state(thumb_state(old(self).entries(), key), unused_at(old(self).entries(), in_use@, key), old(self).threshold()),
    {
        let ghost before = self.thumbs@;
        let threshold = self.eviction_threshold;
        let mut rest: Vec<ThumbEntry<E>> = Vec::new();
        std::mem::swap(&mut rest, &mut self.thumbs);
        let n = rest.len();
        let mut kept: Vec<ThumbEntry<E>> = Vec::new();
        let mut num_incremented: usize = 0;
        let mut i: usize = 0;
        while rest.len() > 0
            invariant
                n == before.len(),
                in_use@.len() == n,
                i + rest@.len() == n,
                rest@ == before.skip(i as int),
                kept@ == swept(before.take(i as int), in_use@.take(i as int), threshold),
                num_incremented == incremented(before.take(i as int), in_use@.take(i as int)),
                forall|j: int| 0 <= j < before.len() ==> timer_ok(#[trigger] before[j]),
                threshold == self.eviction_threshold,
            decreases rest.len(),
        {
            let e = rest.remove(0);
            proof {
                assert(before[i as int] == e);
                assert(before.skip(i + 1) =~= before.skip(i as int).drop_first());
                lemma_sweep_step(before, in_use@, threshold, i as int);
                lemma_incremented_bound(before.take(i as int), in_use@.take(i as int));
                assert(timer_ok(before[i as int]));
            }
            let used = in_use[i];
            let ThumbEntry { key, state } = e;
            match state {
                LocalThumbnailState::Ready { thumbnail, eviction_timer } => {
                    if used {
                        kept.push(ThumbEntry { key, state: LocalThumbnailState::Ready { thumbnail, eviction_timer: 0 } });
                    } else {
                        num_incremented += 1;
                        let timer = eviction_timer + 1;
                        if timer < threshold {
                            kept.push(ThumbEntry { key, state: LocalThumbnailState::Ready { thumbnail, eviction_timer: timer } });
                        }
                    }
                },
                other => {
                    kept.push(ThumbEntry { key, state: other });
                },
            }
            i += 1;
        }
        proof {
            assert(before.take(n as int) =~= before);
            assert(in_use@.take(n as int) =~= in_use@);
            lemma_swept_keeps_invariants(before, in_use@, threshold);
            assert forall|key: (Seq<char>, Seq<char>)| #[trigger] thumb_state(swept(before, in_use@, threshold), key)
                == after_sweep_state(thumb_state(before, key), unused_at(before, in_use@, key), threshold) by {
                lemma_sweep_state_of(before, in_use@, threshold, key);
            }
        }
        self.thumbs = kept;
        (num_incremented, n - self.thumbs.len())
    }

    /// Sweeps the cache: which thumbnails are in use is read from their reference counts
    /// (more than the cache's own). See `sweep_with`.
    pub fn sweep(&mut self) -> (r: (usize, usize))
        requires
            old(self).wf(),
        ensures
            final(self).wf(),
            exists|in_use: Seq<bool>| #![trigger swept(old(self).entries(), in_use, old(self).threshold())]
                in_use.len() == old(self).entries().len()
                && final(self).entries() == swept(old(self).entries(), in_use, old(self).threshold())
                && r.0 == incremented(old(self).entries(), in_use)
                && r.1 == old(self).entries().len() - final(self).entries().len(),
            final(self).api_url() == old(self).api_url(),
            final(self).threshold() == old(self).threshold(),
    {
        let usage = self.usage();
        self.sweep_with(&usage)
    }

    /// For each entry, whether it is a ready thumbnail that something besides the cache holds.
    fn usage(&self) -> (u: Vec<bool>)
        ensures
            u@.len() == self.thumbs@.len(),
            forall|j: int| 0 <= j < u@.len() && u@[j] ==> self.thumbs@[j].state is Ready,
    {
        let mut u: Vec<bool> = Vec::new();
        let n = self.thumbs.len();
        let mut i: usize = 0;
        while i < n
            invariant
                n == self.thumbs@.len(),
                i <= n,
                u@.len() == i,
                forall|j: int| 0 <= j < u@.len() && u@[j] ==> self.thumbs@[j].state is Ready,
            decreases n - i,
        {
            let used = match &self.thumbs[i].state {
                LocalThumbnailState::Ready { thumbnail, .. } => strong_count(thumbnail) > 1,
                _ => false,
            };
            u.push(used);
            i += 1;
        }
        u
    }

    /// Clears all failed entries; returns the number of cleared entries.
    pub fn clear_errors(&mut self) -> (removed: usize)
        requires
            old(self).wf(),
        ensures
            final(self).wf(),
            final(self).entries() == without_errors(old(self).entries()),
            removed == old(self).entries().len() - final(self).entries().len(),
            final(self).api_url() == old(self).api_url(),
            final(self).threshold() == old(self).threshold(),
    {
        let ghost before = self.thumbs@;
        let mut rest: Vec<ThumbEntry<E>> = Vec::new();
        std::mem::swap(&mut rest, &mut self.thumbs);
        let n = rest.len();
        let mut kept: Vec<ThumbEntry<E>> = Vec::new();
        let mut i: usize = 0;
        while rest.len() > 0
            invariant
                n == before.len(),
                i + rest@.len() == n,
                rest@ == before.skip(i as int),
                kept@ == without_errors(before.take(i as int)),
            decreases rest.len(),
        {
            let e = rest.remove(0);
            proof {
                assert(before[i as int] == e);
                assert(before.skip(i + 1) =~= before.skip(i as int).drop_first());
                lemma_without_errors_step(before, i as int);
            }
            let failed = match &e.state {
                LocalThumbnailState::Failed(_) => true,
                _ => false,
            };
            if !failed {
                kept.push(e);
            }
            i += 1;
        }
        proof {
            assert(before.take(n as int) =~= before);
            lemma_without_errors_invariants(before);
        }
        self.thumbs = kept;
        n - self.thumbs.len()
    }

    /// Statistics about the cache, given which thumbnails are in use elsewhere.
    pub fn stats_with(&self, in_use: &Vec<bool>) -> (s: CacheStats)
        requires
            in_use@.len() == self.entries().len(),
        ensures
            s == thumb_stats_of(self.entries(), in_use@),
    {
        let mut res = CacheStats { total: self.thumbs.len(), thumbs: 0, in_use: 0, errors: 0, pending: 0 };
        let n = self.thumbs.len();
        let mut i: usize = 0;
        while i < n
            invariant
                n == self.thumbs@.len(),
                in_use@.len() == n,
                i <= n,
                res == (CacheStats { total: n as usize, ..thumb_stats_of(self.thumbs@.take(i as int), in_use@.take(i as int)) }),
                thumb_stats_of(self.thumbs@.take(i as int), in_use@.take(i as int)).thumbs
                    + thumb_stats_of(self.thumbs@.take(i as int), in_use@.take(i as int)).errors
                    + thumb_stats_of(self.thumbs@.take(i as int), in_use@.take(i as int)).pending <= i,
                thumb_stats_of(self.thumbs@.take(i as int), in_use@.take(i as int)).in_use
                    <= thumb_stats_of(self.thumbs@.take(i as int), in_use@.take(i as int)).thumbs,
            decreases n - i,
        {
            proof {
                assert(self.thumbs@.take(i + 1).drop_last() =~= self.thumbs@.take(i as int));
                assert(in_use@.take(i + 1).drop_last() =~= in_use@.take(i as int));
            }
            match &self.thumbs[i].state {
                LocalThumbnailState::Pending => res.pending += 1,
                LocalThumbnailState::Failed(_) => res.errors += 1,
                LocalThumbnailState::Ready { .. } => {
                    res.thumbs += 1;
                    if in_use[i] {
                        res.in_use += 1;
                    }
                },
            }
            i += 1;
        }
        proof {
            assert(self.thumbs@.take(n as int) =~= self.thumbs@);
            assert(in_use@.take(n as int) =~= in_use@);
        }
        res
    }

    /// Statistics about the cache; a thumbnail is in use when something besides the cache
    /// holds it. See `stats_with`.
    pub fn get_stats(&self) -> (s: CacheStats)
        ensures
            exists|in_use: Seq<bool>| #![trigger thumb_stats_of(self.entries(), in_use)]
                in_use.len() == self.entries().len() && s == thumb_stats_of(self.entries(), in_use),
    {
        let usage = self.usage();
        self.stats_with(&usage)
    }
}

/// A sweep never evicts a thumbnail in use, nor a pending or failed entry: each such entry
/// stays, a ready one in use with its eviction timer reset to zero.
pub proof fn lemma_sweep_keeps_used<E>(entries: Seq<ThumbEntry<E>>, in_use: Seq<bool>, threshold: usize)
    requires
        in_use.len() == entries.len(),
    ensures
        forall|i: int| 0 <= i < entries.len() && (in_use[i] || !(entries[i].state is Ready)) ==>
            (#[trigger] sweep_entry(entries[i], in_use[i], threshold)) is Some
            && swept(entries, in_use, threshold).contains(sweep_entry(entries[i], in_use[i], threshold)->0),
        forall|i: int| 0 <= i < entries.len() && in_use[i] && entries[i].state is Ready ==>
            ((#[trigger] sweep_entry(entries[i], in_use[i], threshold))->0.state matches LocalThumbnailState::Ready { eviction_timer, .. } && eviction_timer == 0),
    decreases entries.len(),
{
    if entries.len() > 0 {
        let init = entries.drop_last();
        let used = in_use.drop_last();
        lemma_sweep_keeps_used(init, used, threshold);
        let rest = swept(init, used, threshold);
        assert forall|i: int| 0 <= i < entries.len() && (in_use[i] || !(entries[i].state is Ready)) implies
            (#[trigger] sweep_entry(entries[i], in_use[i], threshold)) is Some
            && swept(entries, in_use, threshold).contains(sweep_entry(entries[i], in_use[i], threshold)->0) by {
            if i < entries.len() - 1 {
                assert(init[i] == entries[i]);
                assert(used[i] == in_use[i]);
                assert(rest.contains(sweep_entry(init[i], used[i], threshold)->0));
                let x = sweep_entry(init[i], used[i], threshold)->0;
                let k = choose|k: int| 0 <= k < rest.len() && rest[k] == x;
                match sweep_entry(entries.last(), in_use.last(), threshold) {
                    Some(e) => { assert(rest.push(e)[k] == x); },
                    None => {},
                }
            } else {
                let e = sweep_entry(entries.last(), in_use.last(), threshold)->0;
                assert(rest.push(e)[rest.len() as int] == e);
            }
        }
    }
}

/// After clearing errors, no failed entry remains, and every other entry stays.
pub proof fn lemma_clear_errors_leaves_no_failure<E>(s: Seq<ThumbEntry<E>>)
    ensures
        forall|i: int| 0 <= i < without_errors(s).len() ==> !((#[trigger] without_errors(s)[i]).state is Failed),
        forall|e: ThumbEntry<E>| s.contains(e) && !(e.state is Failed) ==> #[trigger] without_errors(s).contains(e),
{
    lemma_filter_membership(s, |e: ThumbEntry<E>| !(e.state is Failed));
    assert forall|i: int| 0 <= i < without_errors(s).len() implies !((#[trigger] without_errors(s)[i]).state is Failed) by {
        assert(without_errors(s).contains(without_errors(s)[i]));
    }
}

/// The entries that are not failed, in order.
pub open spec fn without_errors<E>(s: Seq<ThumbEntry<E>>) -> Seq<ThumbEntry<E>> {
    s.filter(|e: ThumbEntry<E>| !(e.state is Failed))
}

proof fn lemma_without_errors_step<E>(s: Seq<ThumbEntry<E>>, i: int)
    requires
        0 <= i < s.len(),
    ensures
        without_errors(s.take(i + 1)) == (if !(s[i].state is Failed) {
            without_errors(s.take(i)).push(s[i])
        } else {
            without_errors(s.take(i))
        }),
{
    reveal(Seq::filter);
    assert(s.take(i + 1).drop_last() =~= s.take(i));
    assert(s.take(i + 1).last() == s[i]);
}

proof fn lemma_without_errors_invariants<E>(s: Seq<ThumbEntry<E>>)
    ensures
        thumb_keys(s).no_duplicates() ==> thumb_keys(without_errors(s)).no_duplicates(),
        (forall|j: int| 0 <= j < s.len() ==> timer_ok(#[trigger] s[j]))
            ==> (forall|j: int| 0 <= j < without_errors(s).len() ==> timer_ok(#[trigger] without_errors(s)[j])),
        forall|j: int| 0 <= j < without_errors(s).len() ==> exists|t: int| 0 <= t < s.len() && #[trigger] without_errors(s)[j] == s[t],
    decreases s.len(),
{
    reveal(Seq::filter);
    if s.len() > 0 {
        let init = s.drop_last();
        assert(thumb_keys(init) =~= thumb_keys(s).drop_last());
        lemma_without_errors_invariants(init);
        let w = without_errors(s);
        let wi = without_errors(init);
        assert forall|j: int| 0 <= j < w.len() implies exists|t: int| 0 <= t < s.len() && #[trigger] w[j] == s[t] by {
            if j < wi.len() {
                let t = choose|t: int| 0 <= t < init.len() && wi[j] == init[t];
                assert(w[j] == s[t]);
            } else {
                assert(w[j] == s[s.len() - 1]);
            }
        }
        if thumb_keys(s).no_duplicates() && !(s.last().state is Failed) {
            assert(thumb_keys(w) =~= thumb_keys(wi).push(key_view(s.last().key)));
            assert(!thumb_keys(wi).contains(key_view(s.last().key))) by {
                if thumb_keys(wi).contains(key_view(s.last().key)) {
                    let j = choose|j: int| 0 <= j < thumb_keys(wi).len() && thumb_keys(wi)[j] == key_view(s.last().key);
                    let t = choose|t: int| 0 <= t < init.len() && wi[j] == init[t];
                    assert(thumb_keys(s)[t] == thumb_keys(s)[s.len() - 1]);
                }
            }
        }
        if forall|j: int| 0 <= j < s.len() ==> timer_ok(#[trigger] s[j]) {
            assert forall|j: int| 0 <= j < w.len() implies timer_ok(#[trigger] w[j]) by {
                let t = choose|t: int| 0 <= t < s.len() && w[j] == s[t];
            }
        }
    }
}

proof fn lemma_sweep_step<E>(s: Seq<ThumbEntry<E>>, u: Seq<bool>, threshold: usize, i: int)
    requires
        0 <= i < s.len(),
        u.len() == s.len(),
    ensures
        swept(s.take(i + 1), u.take(i + 1), threshold) == match sweep_entry(s[i], u[i], threshold) {
            Some(e) => swept(s.take(i), u.take(i), threshold).push(e),
            None => swept(s.take(i), u.take(i), threshold),
        },
        incremented(s.take(i + 1), u.take(i + 1)) == incremented(s.take(i), u.take(i))
            + if s[i].state is Ready && !u[i] { 1nat } else { 0nat },
{
    assert(s.take(i + 1).drop_last() =~= s.take(i));
    assert(u.take(i + 1).drop_last() =~= u.take(i));
    assert(s.take(i + 1).last() == s[i]);
    assert(u.take(i + 1).last() == u[i]);
}

proof fn lemma_incremented_bound<E>(s: Seq<ThumbEntry<E>>, u: Seq<bool>)
    ensures
        incremented(s, u) <= s.len(),
    decreases s.len(),
{
    if s.len() > 0 && u.len() == s.len() {
        lemma_incremented_bound(s.drop_last(), u.drop_last());
    }
}

/// A sweep keeps keys distinct and timers below their maximum, and only keeps entries
/// whose key was there before.
/// What a sweep makes of the entry for `key`: the state that `sweep_entry` gives the entry
/// with that key, none when it is dropped or when there is no such entry.
pub proof fn lemma_swept_state<E>(entries: Seq<ThumbEntry<E>>, in_use: Seq<bool>, threshold: usize, key: (Seq<char>, Seq<char>))
    requires
        in_use.len() == entries.len(),
        thumb_keys(entries).no_duplicates(),
    ensures
        (forall|j: int| 0 <= j < entries.len() ==> key_view(entries[j].key) != key)
            ==> thumb_state(swept(entries, in_use, threshold), key) is None,
        forall|j: int| 0 <= j < entries.len() && #[trigger] key_view(entries[j].key) == key
            ==> thumb_state(swept(entries, in_use, threshold), key) == match sweep_entry(entries[j], in_use[j], threshold) {
                Some(e) => Some(e.state),
                None => None,
            },
    decreases entries.len(),
{
    if entries.len() > 0 {
        let init = entries.drop_last();
        let uinit = in_use.drop_last();
        let n = entries.len() - 1;
        assert(thumb_keys(init) =~= thumb_keys(entries).drop_last());
        lemma_swept_state(init, uinit, threshold, key);
        let rest = swept(init, uinit, threshold);
        assert(entries.last() == entries[n]);
        match sweep_entry(entries.last(), in_use.last(), threshold) {
            Some(e) => {
                assert(swept(entries, in_use, threshold) == rest.push(e));
                assert(rest.push(e).drop_last() =~= rest);
                assert(key_view(e.key) == key_view(entries[n].key));
            },
            None => {
                assert(swept(entries, in_use, threshold) == rest);
            },
        }
        assert forall|j: int| 0 <= j < entries.len() && #[trigger] key_view(entries[j].key) == key
            implies thumb_state(swept(entries, in_use, threshold), key) == match sweep_entry(entries[j], in_use[j], threshold) {
                Some(e) => Some(e.state),
                None => None,
            } by {
            if j < n {
                assert(init[j] == entries[j]);
                assert(uinit[j] == in_use[j]);
                if key_view(entries[n].key) == key {
                    assert(thumb_keys(entries)[j] == thumb_keys(entries)[n]);
                }
            } else {
                assert forall|i: int| 0 <= i < init.len() implies key_view(init[i].key) != key by {
                    assert(init[i] == entries[i]);
                    assert(thumb_keys(entries)[i] != thumb_keys(entries)[n]);
                }
            }
        }
        if forall|j: int| 0 <= j < entries.len() ==> key_view(entries[j].key) != key {
            assert forall|i: int| 0 <= i < init.len() implies key_view(init[i].key) != key by {
                assert(init[i] == entries[i]);
            }
            assert(key_view(entries[n].key) != key);
        }
    }
}

/// Whether nothing besides the cache holds the thumbnail cached for `key` during a sweep.
pub open spec fn unused_at<E>(entries: Seq<ThumbEntry<E>>, in_use: Seq<bool>, key: (Seq<char>, Seq<char>)) -> bool {
    forall|j: int| 0 <= j < entries.len() && #[trigger] key_view(entries[j].key) == key ==> !in_use[j]
}

/// What one sweep makes of the state cached for a key, given whether nothing besides the cache
/// holds its thumbnail: a ready thumbnail held elsewhere has its timer reset; one held nowhere
/// else has its timer counted up, and is dropped when the timer would reach the threshold;
/// pending and failed entries stay as they are.
pub open spec fn after_sweep_state<E>(state: Option<LocalThumbnailState<E>>, unused: bool, threshold: usize) -> Option<LocalThumbnailState<E>> {
    match state {
        Some(LocalThumbnailState::Ready { thumbnail, eviction_timer }) => if !unused {
            Some(LocalThumbnailState::Ready { thumbnail, eviction_timer: 0 })
        } else if eviction_timer + 1 < threshold {
            Some(LocalThumbnailState::Ready { thumbnail, eviction_timer: (eviction_timer + 1) as usize })
        } else {
            None
        },
        other => other,
    }
}

/// A sweep acts on each key's state as `after_sweep_state` says.
pub proof fn lemma_sweep_state_of<E>(entries: Seq<ThumbEntry<E>>, in_use: Seq<bool>, threshold: usize, key: (Seq<char>, Seq<char>))
    requires
        in_use.len() == entries.len(),
        thumb_keys(entries).no_duplicates(),
    ensures
        thumb_state(swept(entries, in_use, threshold), key)
            == after_sweep_state(thumb_state(entries, key), unused_at(entries, in_use, key), threshold),
{
    lemma_thumb_state(entries, key);
    lemma_swept_state(entries, in_use, threshold, key);
    if exists|j: int| 0 <= j < entries.len() && key_view(entries[j].key) == key {
        let j = choose|j: int| 0 <= j < entries.len() && key_view(entries[j].key) == key;
        assert(thumb_state(entries, key) == Some(entries[j].state));
        if !unused_at(entries, in_use, key) {
            let i = choose|i: int| 0 <= i < entries.len() && #[trigger] key_view(entries[i].key) == key && in_use[i];
            assert(thumb_keys(entries)[i] == thumb_keys(entries)[j]);
            assert(i == j);
        } else {
            assert(!in_use[j]);
        }
    }
}

/// One sweep ages a ready thumbnail that nothing else holds: its eviction timer goes up by
/// one, and it is dropped when the timer would reach the threshold. One held elsewhere has its
/// timer reset.
pub proof fn lemma_sweep_ages<E>(
    entries: Seq<ThumbEntry<E>>,
    in_use: Seq<bool>,
    threshold: usize,
    key: (Seq<char>, Seq<char>),
    thumbnail: Rc<LocalBlobLink>,
    timer: usize,
)
    requires
        in_use.len() == entries.len(),
        thumb_keys(entries).no_duplicates(),
        thumb_state(entries, key) == Some(LocalThumbnailState::<E>::Ready { thumbnail, eviction_timer: timer }),
    ensures
        thumb_keys(swept(entries, in_use, threshold)).no_duplicates(),
        swept(entries, in_use, threshold).len() <= entries.len(),
        unused_at(entries, in_use, key) ==> thumb_state(swept(entries, in_use, threshold), key) == if timer + 1 < threshold {
            Some(LocalThumbnailState::<E>::Ready { thumbnail, eviction_timer: (timer + 1) as usize })
        } else {
            None
        },
        !unused_at(entries, in_use, key) ==> thumb_state(swept(entries, in_use, threshold), key)
            == Some(LocalThumbnailState::<E>::Ready { thumbnail, eviction_timer: 0 }),
{
    lemma_swept_keeps_invariants(entries, in_use, threshold);
    lemma_thumb_state(entries, key);
    lemma_swept_state(entries, in_use, threshold, key);
    let j = choose|j: int| 0 <= j < entries.len() && key_view(entries[j].key) == key;
    assert(thumb_state(entries, key) == Some(entries[j].state));
    if !unused_at(entries, in_use, key) {
        let i = choose|i: int| 0 <= i < entries.len() && #[trigger] key_view(entries[i].key) == key && in_use[i];
        assert(thumb_keys(entries)[i] == thumb_keys(entries)[j]);
        assert(i == j);
    }
}

/// A ready thumbnail that nothing else holds, with its eviction timer at 0, in a cache whose
/// threshold is 5 (as `new` makes it), stays cached through four sweeps, its timer counting
/// up, and the fifth sweep drops it, whatever else the sweeps do.
pub proof fn lemma_fifth_sweep_evicts<E>(
    caches: Seq<Seq<ThumbEntry<E>>>,
    uses: Seq<Seq<bool>>,
    key: (Seq<char>, Seq<char>),
    thumbnail: Rc<LocalBlobLink>,
)
    requires
        caches.len() == 6,
        uses.len() == 5,
        thumb_keys(caches[0]).no_duplicates(),
        thumb_state(caches[0], key) == Some(LocalThumbnailState::<E>::Ready { thumbnail, eviction_timer: 0 }),
        forall|i: int| 0 <= i < 5 ==> (#[trigger] uses[i]).len() == caches[i].len()
            && caches[i + 1] == swept(caches[i], uses[i], 5)
            && unused_at(caches[i], uses[i], key),
    ensures
        forall|i: int| 1 <= i < 5 ==> thumb_state(#[trigger] caches[i], key)
            == Some(LocalThumbnailState::<E>::Ready { thumbnail, eviction_timer: i as usize }),
        thumb_state(caches[5], key) is None,
{
    assert(uses[0].len() == caches[0].len() && caches[1] == swept(caches[0], uses[0], 5) && unused_at(caches[0], uses[0], key));
    lemma_sweep_ages(caches[0], uses[0], 5, key, thumbnail, 0);
    assert(uses[1].len() == caches[1].len() && caches[2] == swept(caches[1], uses[1], 5) && unused_at(caches[1], uses[1], key));
    lemma_sweep_ages(caches[1], uses[1], 5, key, thumbnail, 1);
    assert(uses[2].len() == caches[2].len() && caches[3] == swept(caches[2], uses[2], 5) && unused_at(caches[2], uses[2], key));
    lemma_sweep_ages(caches[2], uses[2], 5, key, thumbnail, 2);
    assert(uses[3].len() == caches[3].len() && caches[4] == swept(caches[3], uses[3], 5) && unused_at(caches[3], uses[3], key));
    lemma_sweep_ages(caches[3], uses[3], 5, key, thumbnail, 3);
    assert(uses[4].len() == caches[4].len() && caches[5] == swept(caches[4], uses[4], 5) && unused_at(caches[4], uses[4], key));
    lemma_sweep_ages(caches[4], uses[4], 5, key, thumbnail, 4);
    assert forall|i: int| 1 <= i < 5 implies thumb_state(#[trigger] caches[i], key)
        == Some(LocalThumbnailState::<E>::Ready { thumbnail, eviction_timer: i as usize }) by {
        if i == 1 {} else if i == 2 {} else if i == 3 {} else {}
    }
}

/// The fifth-sweep law on the cache itself: five successive `sweep_with` calls on a cache made
/// by `new` (threshold 5), in none of which the thumbnail cached for `key` is in use elsewhere,
/// keep it through the first four, its timer counting 1 to 4, and the fifth drops it. Each
/// `caches[i + 1]` is what `sweep_with(uses[i])` leaves of `caches[i]`, as its contract states.
pub proof fn lemma_fifth_sweep_evicts_cached<E>(
    caches: Seq<LocalThumbGenerator<E>>,
    uses: Seq<Seq<bool>>,
    key: (Seq<char>, Seq<char>),
    thumbnail: Rc<LocalBlobLink>,
)
    requires
        caches.len() == 6,
        uses.len() == 5,
        caches[0].wf(),
        caches[0].threshold() == 5,
        thumb_state(caches[0].entries(), key) == Some(LocalThumbnailState::<E>::Ready { thumbnail, eviction_timer: 0 }),
        forall|i: int| 0 <= i < 5 ==> (#[trigger] uses[i]).len() == caches[i].entries().len()
            && caches[i + 1].entries() == swept(caches[i].entries(), uses[i], caches[i].threshold())
            && caches[i + 1].threshold() == caches[i].threshold()
            && unused_at(caches[i].entries(), uses[i], key),
    ensures
        forall|i: int| 1 <= i < 5 ==> thumb_state(#[trigger] caches[i].entries(), key)
            == Some(LocalThumbnailState::<E>::Ready { thumbnail, eviction_timer: i as usize }),
        thumb_state(caches[5].entries(), key) is None,
{
    let es = Seq::new(6, |i: int| caches[i].entries());
    assert(uses[0].len() == caches[0].entries().len());
    assert(caches[1].entries() == swept(caches[0].entries(), uses[0], caches[0].threshold()));
    assert(caches[1].threshold() == caches[0].threshold());
    assert(uses[1].len() == caches[1].entries().len());
    assert(caches[2].threshold() == caches[1].threshold());
    assert(uses[2].len() == caches[2].entries().len());
    assert(caches[3].threshold() == caches[2].threshold());
    assert(uses[3].len() == caches[3].entries().len());
    assert(caches[4].threshold() == caches[3].threshold());
    assert(uses[4].len() == caches[4].entries().len());
    assert(caches[5].threshold() == caches[4].threshold());
    assert forall|i: int| 0 <= i < 5 implies (#[trigger] uses[i]).len() == es[i].len()
        && es[i + 1] == swept(es[i], uses[i], 5) && unused_at(es[i], uses[i], key) by {
        assert(caches[i].threshold() == 5) by {
            if i == 0 {} else if i == 1 {} else if i == 2 {} else if i == 3 {} else {}
        }
    }
    lemma_fifth_sweep_evicts(es, uses, key, thumbnail);
    assert forall|i: int| 1 <= i < 5 implies thumb_state(#[trigger] caches[i].entries(), key)
        == Some(LocalThumbnailState::<E>::Ready { thumbnail, eviction_timer: i as usize }) by {
        assert(es[i] == caches[i].entries());
    }
    assert(es[5] == caches[5].entries());
}

proof fn lemma_swept_keeps_invariants<E>(s: Seq<ThumbEntry<E>>, u: Seq<bool>, threshold: usize)
    requires
        u.len() == s.len(),
    ensures
        thumb_keys(s).no_duplicates() ==> thumb_keys(swept(s, u, threshold)).no_duplicates(),
        (forall|j: int| 0 <= j < s.len() ==> timer_ok(#[trigger] s[j]))
            ==> (forall|j: int| 0 <= j < swept(s, u, threshold).len() ==> timer_ok(#[trigger] swept(s, u, threshold)[j])),
        forall|j: int| 0 <= j < swept(s, u, threshold).len() ==> exists|t: int| 0 <= t < s.len()
            && key_view(#[trigger] swept(s, u, threshold)[j].key) == key_view(s[t].key),
        swept(s, u, threshold).len() <= s.len(),
    decreases s.len(),
{
    if s.len() > 0 {
        let init = s.drop_last();
        let ui = u.drop_last();
        assert(thumb_keys(init) =~= thumb_keys(s).drop_last());
        lemma_swept_keeps_invariants(init, ui, threshold);
        let w = swept(s, u, threshold);
        let wi = swept(init, ui, threshold);
        assert forall|j: int| 0 <= j < w.len() implies exists|t: int| 0 <= t < s.len()
            && key_view(#[trigger] w[j].key) == key_view(s[t].key) by {
            if j < wi.len() {
                let t = choose|t: int| 0 <= t < init.len() && key_view(wi[j].key) == key_view(init[t].key);
                assert(w[j] == wi[j]);
                assert(s[t] == init[t]);
            } else {
                assert(key_view(w[j].key) == key_view(s[s.len() - 1].key));
            }
        }
        if thumb_keys(s).no_duplicates() {
            if let Some(e) = sweep_entry(s.last(), u.last(), threshold) {
                assert(thumb_keys(w) =~= thumb_keys(wi).push(key_view(s.last().key)));
                assert(!thumb_keys(wi).contains(key_view(s.last().key))) by {
                    if thumb_keys(wi).contains(key_view(s.last().key)) {
                        let j = choose|j: int| 0 <= j < thumb_keys(wi).len() && thumb_keys(wi)[j] == key_view(s.last().key);
                        let t = choose|t: int| 0 <= t < init.len() && key_view(wi[j].key) == key_view(init[t].key);
                        assert(thumb_keys(s)[t] == thumb_keys(s)[s.len() - 1]);
                    }
                }
            }
        }
        if forall|j: int| 0 <= j < s.len() ==> timer_ok(#[trigger] s[j]) {
            assert(forall|j: int| 0 <= j < init.len() ==> timer_ok(#[trigger] init[j])) by {
                assert forall|j: int| 0 <= j < init.len() implies timer_ok(#[trigger] init[j]) by {
                    assert(init[j] == s[j]);
                }
            }
            assert forall|j: int| 0 <= j < w.len() implies timer_ok(#[trigger] w[j]) by {
                if j < wi.len() {
                    assert(w[j] == wi[j]);
                } else {
                    assert(timer_ok(s[s.len() - 1]));
                }
            }
        }
    }
}

} // verus!
