//! The worker's side: the pages connected to the shared thumbnail worker, the thumbnail
//! references each holds, and the periodic check that drops pages that stopped pinging.

use vstd::prelude::*;

use std::rc::Rc;

use slab::Slab;

use crate::ids::{id_after, IdMap};
use crate::thumbs::LocalBlobLink;
use crate::worker_api::WorkerStats;

verus! {

/// A page that missed this many checks in a row is dropped.
pub const MAX_PING_FAILS: u8 = 3;

/// A connected page.
pub struct RemoteClient {
    /// Identifies the page's message port.
    pub port: u64,
    /// Whether the page sent anything since the last check.
    pub ping_received: bool,
    /// The checks in a row that found no message from the page.
    pub checks_since_last_ping: u8,
    /// The thumbnails the page holds, by reference id.
    pub held_refs: IdMap<Rc<LocalBlobLink>>,
}

impl RemoteClient {
    /// A page that just connected: counted as alive, holding nothing.
    pub fn new(port: u64) -> (c: Self)
        ensures
            c.port == port,
            c.ping_received,
            c.checks_since_last_ping == 0,
            c.held_refs.view().dom() == Set::<u16>::empty(),
    {
        RemoteClient { port, ping_received: true, checks_since_last_ping: 0, held_refs: IdMap::new() }
    }

    /// Records that the page sent a message.
    pub fn mark_alive(&mut self)
        ensures
            final(self).ping_received,
            final(self).checks_since_last_ping == 0,
            final(self).port == old(self).port,
            final(self).held_refs == old(self).held_refs,
    {
        self.ping_received = true;
        self.checks_since_last_ping = 0;
    }

    /// Holds a thumbnail for the page under a fresh reference id, and returns the id.
    pub fn store_ref(&mut self, r: Rc<LocalBlobLink>) -> (id: u16)
        requires
            old(self).held_refs.view().len() < 65535,
        ensures
            !old(self).held_refs.view().contains_key(id),
            final(self).held_refs.view() == old(self).held_refs.view().insert(id, r),
            final(self).held_refs.counter() == id_after(id, 1),
            final(self).port == old(self).port,
            final(self).ping_received == old(self).ping_received,
            final(self).checks_since_last_ping == old(self).checks_since_last_ping,
    {
        self.held_refs.store(r)
    }

    /// Lets go of the thumbnail held under `id`; returns whether there was one.
    pub fn drop_ref(&mut self, id: u16) -> (found: bool)
        ensures
            found == old(self).held_refs.view().contains_key(id),
            final(self).held_refs.view() == old(self).held_refs.view().remove(id),
            final(self).port == old(self).port,
            final(self).ping_received == old(self).ping_received,
            final(self).checks_since_last_ping == old(self).checks_since_last_ping,
    {
        self.held_refs.take(id).is_some()
    }
}

/// A page after a check: its missed checks reset when it sent something, else one more; it
/// then waits for a new message.
pub open spec fn checked(c: RemoteClient) -> RemoteClient {
    RemoteClient {
        port: c.port,
        ping_received: false,
        checks_since_last_ping: if c.ping_received { 0 } else { (c.checks_since_last_ping + 1) as u8 },
        held_refs: c.held_refs,
    }
}

/// Whether a page stays connected after a check.
pub open spec fn survives_check(c: RemoteClient) -> bool {
    checked(c).checks_since_last_ping < MAX_PING_FAILS
}

/// The pages after a check, in order.
pub open spec fn after_sweep(s: Seq<RemoteClient>) -> Seq<RemoteClient>
    decreases s.len(),
{
    if s.len() == 0 {
        Seq::empty()
    } else if survives_check(s.last()) {
        after_sweep(s.drop_last()).push(checked(s.last()))
    } else {
        after_sweep(s.drop_last())
    }
}

/// The number of pages that sent nothing since the last check.
pub open spec fn silent_count(s: Seq<RemoteClient>) -> nat
    decreases s.len(),
{
    if s.len() == 0 {
        0
    } else {
        silent_count(s.drop_last()) + if s.last().ping_received { 0nat } else { 1nat }
    }
}

proof fn lemma_sweep_step(s: Seq<RemoteClient>, i: int)
    requires
        0 <= i < s.len(),
    ensures
        after_sweep(s.take(i + 1)) == (if survives_check(s[i]) {
            after_sweep(s.take(i)).push(checked(s[i]))
        } else {
            after_sweep(s.take(i))
        }),
        silent_count(s.take(i + 1)) == silent_count(s.take(i)) + if s[i].ping_received { 0nat } else { 1nat },
{
    assert(s.take(i + 1).drop_last() =~= s.take(i));
    assert(s.take(i + 1).last() == s[i]);
}

proof fn lemma_sweep_bounds(s: Seq<RemoteClient>)
    ensures
        after_sweep(s).len() <= s.len(),
        silent_count(s) <= s.len(),
        forall|j: int| 0 <= j < after_sweep(s).len() ==> (#[trigger] after_sweep(s)[j]).checks_since_last_ping < MAX_PING_FAILS,
    decreases s.len(),
{
    if s.len() > 0 {
        lemma_sweep_bounds(s.drop_last());
    }
}

proof fn lemma_sweep_origin_at(s: Seq<RemoteClient>, j: int)
    requires
        0 <= j < after_sweep(s).len(),
    ensures
        exists|i: int| #![trigger s[i]] 0 <= i < s.len() && survives_check(s[i]) && after_sweep(s)[j] == checked(s[i]),
    decreases s.len(),
{
    let init = s.drop_last();
    let rest = after_sweep(init);
    if j < rest.len() {
        lemma_sweep_origin_at(init, j);
        let i = choose|i: int| #![trigger init[i]] 0 <= i < init.len() && survives_check(init[i]) && rest[j] == checked(init[i]);
        assert(init[i] == s[i]);
        if survives_check(s.last()) {
            assert(rest.push(checked(s.last()))[j] == rest[j]);
        }
        assert(survives_check(s[i]) && after_sweep(s)[j] == checked(s[i]));
    } else {
        let i = s.len() - 1;
        assert(survives_check(s[i]) && after_sweep(s)[j] == checked(s[i]));
    }
}

/// A page that sent anything since the last check stays after it, with its missed checks reset.
pub proof fn lemma_sweep_keeps_live_pages(s: Seq<RemoteClient>)
    ensures
        forall|i: int| 0 <= i < s.len() && (#[trigger] s[i]).ping_received ==> after_sweep(s).contains(checked(s[i])),
    decreases s.len(),
{
    if s.len() > 0 {
        let init = s.drop_last();
        lemma_sweep_keeps_live_pages(init);
        let rest = after_sweep(init);
        assert forall|i: int| 0 <= i < s.len() && (#[trigger] s[i]).ping_received implies after_sweep(s).contains(checked(s[i])) by {
            if i < s.len() - 1 {
                assert(init[i] == s[i]);
                assert(rest.contains(checked(init[i])));
                let k = choose|k: int| 0 <= k < rest.len() && rest[k] == checked(init[i]);
                if survives_check(s.last()) {
                    assert(rest.push(checked(s.last()))[k] == checked(s[i]));
                }
            } else {
                assert(survives_check(s.last()));
                assert(rest.push(checked(s.last()))[rest.len() as int] == checked(s[i]));
            }
        }
    }
}

/// `page` is what one of `s` that survived the check became.
pub open spec fn survivor_of(s: Seq<RemoteClient>, page: RemoteClient) -> bool {
    exists|i: int| #![trigger s[i]] 0 <= i < s.len() && survives_check(s[i]) && page == checked(s[i])
}

/// Every page left after a check is one that survived it.
pub proof fn lemma_sweep_keeps_only_survivors(s: Seq<RemoteClient>)
    ensures
        forall|j: int| 0 <= j < after_sweep(s).len() ==> survivor_of(s, #[trigger] after_sweep(s)[j]),
{
    assert forall|j: int| 0 <= j < after_sweep(s).len() implies survivor_of(s, #[trigger] after_sweep(s)[j]) by {
        lemma_sweep_origin_at(s, j);
    }
}

/// The pages connected to the worker, as a map from slab key to page.
pub uninterp spec fn client_slots(slab: Slab<RemoteClient>) -> Map<usize, RemoteClient>;

/// `Slab::with_capacity`: a slab that holds nothing.
#[verifier::external_body]
fn clients_with_capacity(capacity: usize) -> (created: Slab<RemoteClient>)
    ensures
        client_slots(created).dom() == Set::<usize>::empty(),
{
    Slab::with_capacity(capacity)
}

/// `Slab::insert`: stores the page under a key that held nothing before, and returns that key.
#[verifier::external_body]
fn client_insert(s: &mut Slab<RemoteClient>, client: RemoteClient) -> (key: usize)
    ensures
        !client_slots(*old(s)).contains_key(key),
        client_slots(*final(s)) == client_slots(*old(s)).insert(key, client),
{
    s.insert(client)
}

/// `Slab::get`: the page under `key`, if there is one.
#[verifier::external_body]
fn client_get(s: &Slab<RemoteClient>, key: usize) -> (r: Option<&RemoteClient>)
    ensures
        r is Some <==> client_slots(*s).contains_key(key),
        r matches Some(c) ==> *c == client_slots(*s)[key],
{
    s.get(key)
}

/// `Slab::index_mut` under a key that holds a page, with `std::mem::replace`: puts `client`
/// there and hands back the page it held.
#[verifier::external_body]
fn client_replace(s: &mut Slab<RemoteClient>, key: usize, client: RemoteClient) -> (previous: RemoteClient)
    requires
        client_slots(*old(s)).contains_key(key),
    ensures
        previous == client_slots(*old(s))[key],
        client_slots(*final(s)) == client_slots(*old(s)).insert(key, client),
{
    std::mem::replace(&mut s[key], client)
}

/// `Slab::remove`: takes out the page under a key that holds one.
#[verifier::external_body]
fn client_remove(s: &mut Slab<RemoteClient>, key: usize) -> (removed: RemoteClient)
    requires
        client_slots(*old(s)).contains_key(key),
    ensures
        removed == client_slots(*old(s))[key],
        client_slots(*final(s)) == client_slots(*old(s)).remove(key),
{
    s.remove(key)
}

/// The pages held under `keys`, in that order.
pub open spec fn pages_at(slots: Map<usize, RemoteClient>, keys: Seq<usize>) -> Seq<RemoteClient> {
    keys.map_values(|k: usize| slots[k])
}

/// The pages connected to the worker: held in a slab, and listed by key in the order they
/// are checked.
pub struct WorkerClients {
    clients: Slab<RemoteClient>,
    keys: Vec<usize>,
}

impl WorkerClients {
    /// The pages, in the order they are checked.
    pub closed spec fn pages(&self) -> Seq<RemoteClient> {
        pages_at(client_slots(self.clients), self.keys@)
    }

    /// Each key is listed once, the listed keys are exactly those the slab holds, and every page
    /// has missed fewer checks than it takes to be dropped.
    pub closed spec fn wf(&self) -> bool {
        &&& self.keys@.no_duplicates()
        &&& forall|i: int| 0 <= i < self.keys@.len() ==> client_slots(self.clients).contains_key(#[trigger] self.keys@[i])
        &&& forall|k: usize| #[trigger] client_slots(self.clients).contains_key(k) ==> self.keys@.contains(k)
        &&& forall|i: int| 0 <= i < self.keys@.len() ==>
            (#[trigger] client_slots(self.clients)[self.keys@[i]]).checks_since_last_ping < MAX_PING_FAILS
    }

    /// Whether a page with port `port` is connected.
    pub open spec fn has_port(&self, port: u64) -> bool {
        exists|i: int| 0 <= i < self.pages().len() && (#[trigger] self.pages()[i]).port == port
    }

    /// No page connected.
    pub fn new() -> (w: Self)
        ensures
            w.wf(),
            w.pages().len() == 0,
    {
        let w = WorkerClients { clients: clients_with_capacity(8), keys: Vec::new() };
        proof { assert(w.keys@.no_duplicates()); }
        w
    }

    /// The number of connected pages.
    pub fn len(&self) -> (n: usize)
        ensures
            n == self.pages().len(),
    {
        self.keys.len()
    }

    /// The index of the page with port `port`, if it is connected.
    pub fn find(&self, port: u64) -> (r: Option<usize>)
        requires
            self.wf(),
        ensures
            match r {
                Some(i) => i < self.pages().len() && self.pages()[i as int].port == port
                    && forall|j: int| 0 <= j < i ==> (#[trigger] self.pages()[j]).port != port,
                None => !self.has_port(port),
            },
    {
        let mut i: usize = 0;
        while i < self.keys.len()
            invariant
                self.wf(),
                i <= self.keys@.len(),
                forall|j: int| 0 <= j < i ==> (#[trigger] self.pages()[j]).port != port,
            decreases self.keys@.len() - i,
        {
            let c = client_get(&self.clients, self.keys[i]).unwrap();
            if c.port == port {
                return Some(i);
            }
            i += 1;
        }
        None
    }

    fn add_client(&mut self, port: u64)
        requires
            old(self).wf(),
        ensures
            final(self).wf(),
            final(self).pages().drop_last() == old(self).pages(),
            final(self).pages().len() == old(self).pages().len() + 1,
            final(self).pages().last().port == port,
            final(self).pages().last().ping_received,
            final(self).pages().last().checks_since_last_ping == 0,
            final(self).pages().last().held_refs.view().dom() == Set::<u16>::empty(),
    {
        let ghost old_slots = client_slots(self.clients);
        let ghost old_keys = self.keys@;
        let key = client_insert(&mut self.clients, RemoteClient::new(port));
        proof {
            if old_keys.contains(key) {
                let i = choose|i: int| 0 <= i < old_keys.len() && old_keys[i] == key;
                assert(old_slots.contains_key(old_keys[i]));
            }
        }
        self.keys.push(key);
        proof {
            let slots = client_slots(self.clients);
            assert(self.keys@ == old_keys.push(key));
            assert forall|i: int| 0 <= i < old_keys.len() implies slots[old_keys[i]] == old_slots[old_keys[i]] by {
                assert(old_keys[i] != key);
            }
            assert(pages_at(slots, self.keys@).drop_last() =~= pages_at(old_slots, old_keys));
            assert forall|k: usize| #[trigger] slots.contains_key(k) implies self.keys@.contains(k) by {
                if k != key {
                    assert(old_slots.contains_key(k));
                    assert(old_keys.contains(k));
                    let j = choose|j: int| 0 <= j < old_keys.len() && old_keys[j] == k;
                    assert(self.keys@[j] == k);
                } else {
                    assert(self.keys@[old_keys.len() as int] == key);
                }
            }
            assert forall|i: int| 0 <= i < self.keys@.len() implies
                (#[trigger] slots[self.keys@[i]]).checks_since_last_ping < MAX_PING_FAILS by {
                if i < old_keys.len() {
                    assert(self.keys@[i] == old_keys[i]);
                    assert(old_slots[old_keys[i]].checks_since_last_ping < MAX_PING_FAILS);
                }
            }
            assert forall|i: int, j: int| 0 <= i < j < self.keys@.len() implies self.keys@[i] != self.keys@[j] by {
                if j == old_keys.len() {
                    assert(old_keys.contains(old_keys[i]));
                }
            }
        }
    }

    /// Registers a page that connected; a page already connected is not registered again.
    /// Returns whether it was registered.
    pub fn register_client(&mut self, port: u64) -> (added: bool)
        requires
            old(self).wf(),
        ensures
            final(self).wf(),
            added == !old(self).has_port(port),
            added ==> final(self).pages().drop_last() == old(self).pages()
                && final(self).pages().len() == old(self).pages().len() + 1
                && final(self).pages().last().port == port
                && final(self).pages().last().ping_received
                && final(self).pages().last().checks_since_last_ping == 0
                && final(self).pages().last().held_refs.view().dom() == Set::<u16>::empty(),
            !added ==> final(self).pages() == old(self).pages(),
    {
        match self.find(port) {
            Some(_) => false,
            None => {
                self.add_client(port);
                true
            },
        }
    }

    /// Takes out the page at index `i`, leaving `placeholder` in its place until it is put back.
    fn take_at(&mut self, i: usize, placeholder: RemoteClient) -> (taken: RemoteClient)
        requires
            old(self).wf(),
            i < old(self).pages().len(),
        ensures
            taken == old(self).pages()[i as int],
            final(self).keys == old(self).keys,
            client_slots(final(self).clients) == client_slots(old(self).clients).insert(old(self).keys@[i as int], placeholder),
    {
        let key = self.keys[i];
        client_replace(&mut self.clients, key, placeholder)
    }

    proof fn lemma_put_back(&self, old_self: WorkerClients, i: int, c: RemoteClient)
        requires
            old_self.wf(),
            0 <= i < old_self.keys@.len(),
            self.keys == old_self.keys,
            client_slots(self.clients) == client_slots(old_self.clients).insert(old_self.keys@[i], c),
            c.checks_since_last_ping < MAX_PING_FAILS,
        ensures
            self.wf(),
            self.pages() == old_self.pages().update(i, c),
    {
        let keys = self.keys@;
        let s0 = client_slots(old_self.clients);
        let s1 = client_slots(self.clients);
        assert forall|j: int| 0 <= j < keys.len() && j != i implies s1[keys[j]] == s0[keys[j]] by {
            assert(keys[j] != keys[i]);
        }
        assert(self.pages() =~= old_self.pages().update(i, c));
        assert forall|k: usize| #[trigger] s1.contains_key(k) implies keys.contains(k) by {
            if k != keys[i] {
                assert(s0.contains_key(k));
            } else {
                assert(keys[i] == k);
            }
        }
        assert forall|j: int| 0 <= j < keys.len() implies (#[trigger] s1[keys[j]]).checks_since_last_ping < MAX_PING_FAILS by {
            if j != i {
                assert(s0[keys[j]].checks_since_last_ping < MAX_PING_FAILS);
            }
        }
    }

    /// The index of the page with port `port`, registering it first if it is missing. The
    /// page is then marked alive, as it just sent a message.
    pub fn get_client(&mut self, port: u64) -> (i: usize)
        requires
            old(self).wf(),
        ensures
            final(self).wf(),
            i < final(self).pages().len(),
            final(self).pages()[i as int].port == port,
            forall|k: int| 0 <= k < i ==> (#[trigger] final(self).pages()[k]).port != port,
            final(self).pages()[i as int].ping_received,
            final(self).pages()[i as int].checks_since_last_ping == 0,
            final(self).pages().len() == old(self).pages().len() + (if old(self).has_port(port) { 0int } else { 1int }),
            forall|j: int| 0 <= j < old(self).pages().len() && j != i ==> final(self).pages()[j] == old(self).pages()[j],
            old(self).has_port(port) ==> final(self).pages()[i as int].held_refs == old(self).pages()[i as int].held_refs
                && i < old(self).pages().len() && old(self).pages()[i as int].port == port,
            !old(self).has_port(port) ==> i == old(self).pages().len()
                && final(self).pages()[i as int].held_refs.view().dom() == Set::<u16>::empty(),
    {
        let i = match self.find(port) {
            Some(i) => i,
            None => {
                self.add_client(port);
                self.keys.len() - 1
            },
        };
        let ghost mid = *self;
        proof {
            assert forall|k: int| 0 <= k < i implies (#[trigger] mid.pages()[k]).port != port by {
                if !old(self).has_port(port) {
                    assert(mid.pages()[k] == old(self).pages()[k]);
                    if old(self).pages()[k].port == port {
                        assert(old(self).has_port(port));
                    }
                }
            }
        }
        let mut c = self.take_at(i, RemoteClient::new(0));
        c.mark_alive();
        let key = self.keys[i];
        let _ = client_replace(&mut self.clients, key, c);
        proof {
            assert(client_slots(self.clients) =~= client_slots(mid.clients).insert(mid.keys@[i as int], c));
            self.lemma_put_back(mid, i as int, c);
        }
        i
    }

    /// The page at index `i`.
    pub fn client(&self, i: usize) -> (c: &RemoteClient)
        requires
            self.wf(),
            i < self.pages().len(),
        ensures
            *c == self.pages()[i as int],
    {
        client_get(&self.clients, self.keys[i]).unwrap()
    }

    /// Holds a thumbnail for the page at index `i` under a fresh reference id, and returns the id.
    pub fn store_ref_for(&mut self, i: usize, r: Rc<LocalBlobLink>) -> (id: u16)
        requires
            old(self).wf(),
            i < old(self).pages().len(),
            old(self).pages()[i as int].held_refs.view().len() < 65535,
        ensures
            final(self).wf(),
            final(self).pages().len() == old(self).pages().len(),
            !old(self).pages()[i as int].held_refs.view().contains_key(id),
            final(self).pages()[i as int].held_refs.view() == old(self).pages()[i as int].held_refs.view().insert(id, r),
            final(self).pages()[i as int].held_refs.counter() == id_after(id, 1),
            final(self).pages()[i as int].port == old(self).pages()[i as int].port,
            forall|j: int| 0 <= j < old(self).pages().len() && j != i ==> final(self).pages()[j] == old(self).pages()[j],
    {
        let ghost before = *self;
        let mut c = self.take_at(i, RemoteClient::new(0));
        let id = c.store_ref(r);
        let key = self.keys[i];
        let _ = client_replace(&mut self.clients, key, c);
        proof {
            assert(before.pages()[i as int] == client_slots(before.clients)[before.keys@[i as int]]);
            assert(client_slots(self.clients) =~= client_slots(before.clients).insert(before.keys@[i as int], c));
            self.lemma_put_back(before, i as int, c);
        }
        id
    }

    /// Lets go of the thumbnail that the page at index `i` holds under `id`; returns whether
    /// there was one.
    pub fn drop_ref_for(&mut self, i: usize, id: u16) -> (found: bool)
        requires
            old(self).wf(),
            i < old(self).pages().len(),
        ensures
            final(self).wf(),
            final(self).pages().len() == old(self).pages().len(),
            found == old(self).pages()[i as int].held_refs.view().contains_key(id),
            final(self).pages()[i as int].held_refs.view() == old(self).pages()[i as int].held_refs.view().remove(id),
            final(self).pages()[i as int].port == old(self).pages()[i as int].port,
            final(self).pages()[i as int].ping_received == old(self).pages()[i as int].ping_received,
            final(self).pages()[i as int].checks_since_last_ping == old(self).pages()[i as int].checks_since_last_ping,
            forall|j: int| 0 <= j < old(self).pages().len() && j != i ==> final(self).pages()[j] == old(self).pages()[j],
    {
        let ghost before = *self;
        let mut c = self.take_at(i, RemoteClient::new(0));
        let found = c.drop_ref(id);
        let key = self.keys[i];
        let _ = client_replace(&mut self.clients, key, c);
        proof {
            assert(before.pages()[i as int] == client_slots(before.clients)[before.keys@[i as int]]);
            assert(client_slots(self.clients) =~= client_slots(before.clients).insert(before.keys@[i as int], c));
            self.lemma_put_back(before, i as int, c);
        }
        found
    }

    /// Disconnects the page with port `port`; returns whether it was connected.
    pub fn disconnect(&mut self, port: u64) -> (found: bool)
        requires
            old(self).wf(),
        ensures
            final(self).wf(),
            found == old(self).has_port(port),
            !found ==> final(self).pages() == old(self).pages(),
            found ==> exists|i: int| 0 <= i < old(self).pages().len() && (#[trigger] old(self).pages()[i]).port == port
                && (forall|j: int| 0 <= j < i ==> (#[trigger] old(self).pages()[j]).port != port)
                && final(self).pages() == old(self).pages().remove(i),
    {
        match self.find(port) {
            None => false,
            Some(i) => {
                let ghost old_pages = self.pages();
                let ghost old_keys = self.keys@;
                let ghost old_slots = client_slots(self.clients);
                let key = self.keys.remove(i);
                let _ = client_remove(&mut self.clients, key);
                proof {
                    let keys = self.keys@;
                    let slots = client_slots(self.clients);
                    assert(keys =~= old_keys.remove(i as int));
                    assert forall|j: int| 0 <= j < keys.len() implies slots.contains_key(#[trigger] keys[j])
                        && slots[keys[j]] == old_slots[keys[j]] by {
                        if j < i {
                            assert(keys[j] == old_keys[j]);
                            assert(old_keys[j] != key);
                        } else {
                            assert(keys[j] == old_keys[j + 1]);
                            assert(old_keys[j + 1] != key);
                        }
                    }
                    assert forall|k: usize| #[trigger] slots.contains_key(k) implies keys.contains(k) by {
                        assert(old_keys.contains(k));
                        let j = choose|j: int| 0 <= j < old_keys.len() && old_keys[j] == k;
                        if j < i {
                            assert(keys[j] == k);
                        } else {
                            assert(j != i);
                            assert(keys[j - 1] == k);
                        }
                    }
                    assert forall|j: int| 0 <= j < keys.len() implies
                        (#[trigger] slots[keys[j]]).checks_since_last_ping < MAX_PING_FAILS by {
                        if j < i {
                            assert(old_slots[old_keys[j]].checks_since_last_ping < MAX_PING_FAILS);
                        } else {
                            assert(old_slots[old_keys[j + 1]].checks_since_last_ping < MAX_PING_FAILS);
                        }
                    }
                    assert forall|a: int, b: int| 0 <= a < b < keys.len() implies keys[a] != keys[b] by {
                        let a2 = if a < i { a } else { a + 1 };
                        let b2 = if b < i { b } else { b + 1 };
                        assert(keys[a] == old_keys[a2] && keys[b] == old_keys[b2]);
                    }
                    assert(self.pages() =~= old_pages.remove(i as int));
                    assert(old_pages[i as int].port == port);
                }
                true
            },
        }
    }

    /// The worker's statistics, as seen by the page at index `i`.
    pub fn stats_for(&self, i: usize) -> (s: WorkerStats)
        requires
            self.wf(),
            i < self.pages().len(),
        ensures
            s.clients == self.pages().len(),
            s.this_client_refs == self.pages()[i as int].held_refs.view().len(),
    {
        let c = client_get(&self.clients, self.keys[i]).unwrap();
        WorkerStats { clients: self.keys.len(), this_client_refs: c.held_refs.len() }
    }

    /// The periodic check: each page that sent nothing since the last check has missed one
    /// more, each that did starts over; pages that missed `MAX_PING_FAILS` checks in a row are
    /// dropped. Returns (the pages that sent nothing, the pages dropped).
    pub fn client_sweep(&mut self) -> (r: (usize, usize))
        requires
            old(self).wf(),
        ensures
            final(self).wf(),
            final(self).pages() == after_sweep(old(self).pages()),
            r.0 == silent_count(old(self).pages()),
            r.1 == old(self).pages().len() - final(self).pages().len(),
    {
        let ghost before = self.pages();
        let ghost slots0 = client_slots(self.clients);
        let mut keys: Vec<usize> = Vec::new();
        std::mem::swap(&mut keys, &mut self.keys);
        let ghost keys0 = keys@;
        let n = keys.len();
        let mut kept: Vec<usize> = Vec::new();
        let mut timing_out: usize = 0;
        let mut i: usize = 0;
        while i < n
            invariant
                n == keys0.len(),
                keys@ == keys0,
                i <= n,
                before == pages_at(slots0, keys0),
                keys0.no_duplicates(),
                forall|j: int| 0 <= j < keys0.len() ==> slots0.contains_key(#[trigger] keys0[j]),
                forall|k: usize| #[trigger] slots0.contains_key(k) ==> keys0.contains(k),
                forall|j: int| 0 <= j < keys0.len() ==> (#[trigger] slots0[keys0[j]]).checks_since_last_ping < MAX_PING_FAILS,
                kept@.no_duplicates(),
                forall|a: int| 0 <= a < kept@.len() ==> exists|j: int| 0 <= j < i && keys0[j] == #[trigger] kept@[a],
                pages_at(client_slots(self.clients), kept@) == after_sweep(before.take(i as int)),
                forall|j: int| i <= j < n ==> client_slots(self.clients).contains_key(#[trigger] keys0[j])
                    && client_slots(self.clients)[keys0[j]] == slots0[keys0[j]],
                forall|a: int| 0 <= a < kept@.len() ==> client_slots(self.clients).contains_key(#[trigger] kept@[a]),
                forall|k: usize| #[trigger] client_slots(self.clients).contains_key(k) ==>
                    (kept@.contains(k) || exists|j: int| i <= j < n && keys0[j] == k),
                timing_out == silent_count(before.take(i as int)),
            decreases n - i,
        {
            let key = keys[i];
            let ghost slots = client_slots(self.clients);
            let ghost kept_before = kept@;
            proof {
                lemma_sweep_step(before, i as int);
                lemma_sweep_bounds(before.take(i as int));
                assert(before[i as int] == slots0[key]);
                assert(!kept@.contains(key)) by {
                    if kept@.contains(key) {
                        let a = choose|a: int| 0 <= a < kept@.len() && kept@[a] == key;
                        let j = choose|j: int| 0 <= j < i && keys0[j] == kept@[a];
                        assert(keys0[j] == keys0[i as int]);
                    }
                }
            }
            let c = client_replace(&mut self.clients, key, RemoteClient::new(0));
            let RemoteClient { port, ping_received, checks_since_last_ping, held_refs } = c;
            let checks = if ping_received {
                0
            } else {
                timing_out += 1;
                checks_since_last_ping + 1
            };
            let survives = checks < MAX_PING_FAILS;
            if survives {
                let _ = client_replace(&mut self.clients, key, RemoteClient { port, ping_received: false, checks_since_last_ping: checks, held_refs });
                kept.push(key);
            } else {
                let _ = client_remove(&mut self.clients, key);
            }
            proof {
                let s2 = client_slots(self.clients);
                assert(survives == survives_check(before[i as int]));
                if survives {
                    assert(kept@ == kept_before.push(key));
                    assert(s2 == slots.insert(key, checked(before[i as int])));
                } else {
                    assert(kept@ == kept_before);
                    assert(s2 == slots.remove(key));
                }
                assert forall|a: int| 0 <= a < kept_before.len() implies
                    s2[kept_before[a]] == slots[kept_before[a]] && s2.contains_key(kept_before[a]) by {
                    assert(kept_before[a] != key);
                }
                assert forall|j: int| i + 1 <= j < n implies s2.contains_key(#[trigger] keys0[j]) && s2[keys0[j]] == slots0[keys0[j]] by {
                    assert(keys0[j] != keys0[i as int]);
                }
                if survives {
                    assert(pages_at(s2, kept@) =~= pages_at(slots, kept_before).push(checked(before[i as int])));
                } else {
                    assert(pages_at(s2, kept@) =~= pages_at(slots, kept_before));
                }
                assert forall|a: int| 0 <= a < kept@.len() implies exists|j: int| 0 <= j < i + 1 && keys0[j] == #[trigger] kept@[a] by {
                    if a < kept_before.len() {
                        let j = choose|j: int| 0 <= j < i && keys0[j] == kept_before[a];
                        assert(0 <= j < i + 1 && keys0[j] == kept@[a]);
                    } else {
                        assert(keys0[i as int] == kept@[a]);
                    }
                }
                assert forall|a: int| 0 <= a < kept@.len() implies s2.contains_key(#[trigger] kept@[a]) by {
                    if a < kept_before.len() {
                        assert(kept@[a] == kept_before[a]);
                    }
                }
                assert forall|k: usize| #[trigger] s2.contains_key(k) implies
                    (kept@.contains(k) || exists|j: int| i + 1 <= j < n && keys0[j] == k) by {
                    if k == key {
                        assert(survives);
                        assert(kept@[kept@.len() - 1] == key);
                    } else {
                        assert(slots.contains_key(k));
                        if kept_before.contains(k) {
                            let a = choose|a: int| 0 <= a < kept_before.len() && kept_before[a] == k;
                            assert(kept@[a] == k);
                        } else {
                            let j = choose|j: int| i <= j < n && keys0[j] == k;
                            assert(j != i);
                            assert(i + 1 <= j < n && keys0[j] == k);
                        }
                    }
                }
                assert forall|a: int, b: int| 0 <= a < b < kept@.len() implies kept@[a] != kept@[b] by {
                    if b >= kept_before.len() {
                        assert(kept@[b] == key);
                        assert(kept@[a] == kept_before[a]);
                        assert(kept_before.contains(kept_before[a]));
                    } else {
                        assert(kept@[a] == kept_before[a] && kept@[b] == kept_before[b]);
                    }
                }
            }
            i += 1;
        }
        proof {
            assert(before.take(n as int) =~= before);
            lemma_sweep_bounds(before);
        }
        let ghost final_slots = client_slots(self.clients);
        self.keys = kept;
        proof {
            assert forall|k: usize| #[trigger] final_slots.contains_key(k) implies self.keys@.contains(k) by {
                if !self.keys@.contains(k) {
                    let j = choose|j: int| n <= j < n && keys0[j] == k;
                }
            }
            assert forall|a: int| 0 <= a < self.keys@.len() implies
                (#[trigger] final_slots[self.keys@[a]]).checks_since_last_ping < MAX_PING_FAILS by {
                assert(pages_at(final_slots, self.keys@)[a] == final_slots[self.keys@[a]]);
                assert(after_sweep(before)[a].checks_since_last_ping < MAX_PING_FAILS);
            }
        }
        (timing_out, n - self.keys.len())
    }
}

} // verus!
