//! Allocation of 16-bit message and reference identifiers: a wrapping counter that skips
//! the identifiers still in use.

use std::collections::HashMap;
use vstd::prelude::*;

verus! {

broadcast use vstd::std_specs::hash::group_hash_axioms;

/// The identifier `steps` places after `start`, wrapping around at 2^16.
pub open spec fn id_after(start: u16, steps: int) -> u16 {
    ((start as int + steps) % 65536) as u16
}

/// Values in use, keyed by identifiers drawn from a wrapping counter.
pub struct IdMap<V> {
    entries: HashMap<u16, V>,
    next_id: u16,
}

impl<V> IdMap<V> {
    /// The values in use, by identifier.
    pub closed spec fn view(&self) -> Map<u16, V> {
        self.entries@
    }

    /// The counter: where the search for the next free identifier starts.
    pub closed spec fn counter(&self) -> u16 {
        self.next_id
    }

    /// Nothing in use; the counter starts at 0.
    pub fn new() -> (m: Self)
        ensures
            m.view().dom() == Set::<u16>::empty(),
            m.counter() == 0,
    {
        IdMap { entries: HashMap::new(), next_id: 0 }
    }

    /// The number of identifiers in use.
    pub fn len(&self) -> (n: usize)
        ensures
            n == self.view().len(),
    {
        self.entries.len()
    }

    /// Draws the next identifier that is not in use: the first of `counter`, `counter + 1`, ...
    /// (wrapping around) that is free. The counter moves past it.
    pub fn next_id(&mut self) -> (id: u16)
        requires
            old(self).view().len() < 65535,
        ensures
            final(self).view() == old(self).view(),
            !old(self).view().contains_key(id),
            exists|k: int| #![trigger id_after(old(self).counter(), k)] 0 <= k < 65536 && id == id_after(old(self).counter(), k)
                && (forall|j: int| 0 <= j < k ==> old(self).view().contains_key(#[trigger] id_after(old(self).counter(), j)))
                && final(self).counter() == id_after(old(self).counter(), k + 1),
            final(self).counter() == id_after(id, 1),
    {
        let ghost start = self.next_id;
        let ghost mut steps: int = 0;
        let ghost mut visited: Set<u16> = Set::empty();
        loop
            invariant
                self.entries@ == old(self).entries@,
                self.entries@.len() < 65535,
                self.entries@.dom().finite(),
                0 <= steps < 65536,
                self.next_id == id_after(start, steps),
                start == old(self).next_id,
                visited.finite(),
                visited.len() == steps,
                visited.subset_of(self.entries@.dom()),
                forall|x: u16| #[trigger] visited.contains(x) <==> exists|j: int| 0 <= j < steps && x == id_after(start, j),
                forall|j: int| 0 <= j < steps ==> self.entries@.contains_key(#[trigger] id_after(start, j)),
            decreases 65535 - steps,
        {
            let new_id = self.next_id;
            self.next_id = self.next_id.wrapping_add(1);
            proof {
                assert(self.next_id == id_after(start, steps + 1));
            }
            if !self.entries.contains_key(&new_id) {
                proof {
                    assert(new_id == id_after(start, steps));
                    assert(0 <= steps < 65536 && new_id == id_after(old(self).counter(), steps)
                        && (forall|j: int| 0 <= j < steps ==> old(self).view().contains_key(#[trigger] id_after(old(self).counter(), j)))
                        && self.counter() == id_after(old(self).counter(), steps + 1));
                    lemma_id_after_step(start, steps);
                }
                return new_id;
            }
            proof {
                assert(!visited.contains(new_id)) by {
                    if visited.contains(new_id) {
                        let j = choose|j: int| 0 <= j < steps && new_id == id_after(start, j);
                        assert(id_after(start, j) == id_after(start, steps));
                    }
                }
                let v2 = visited.insert(new_id);
                assert forall|x: u16| #[trigger] v2.contains(x) <==> exists|j: int| 0 <= j < steps + 1 && x == id_after(start, j) by {
                    if v2.contains(x) && x != new_id {
                        let j = choose|j: int| 0 <= j < steps && x == id_after(start, j);
                        assert(0 <= j < steps + 1 && x == id_after(start, j));
                    }
                    if exists|j: int| 0 <= j < steps + 1 && x == id_after(start, j) {
                        let j = choose|j: int| 0 <= j < steps + 1 && x == id_after(start, j);
                        if j < steps {
                            assert(visited.contains(x));
                        }
                    }
                }
                visited = v2;
                steps = steps + 1;
                vstd::set_lib::lemma_len_subset(visited, self.entries@.dom());
            }
        }
    }

    /// Stores `value` under a fresh identifier (see `next_id`) and returns it.
    pub fn store(&mut self, value: V) -> (id: u16)
        requires
            old(self).view().len() < 65535,
        ensures
            !old(self).view().contains_key(id),
            final(self).view() == old(self).view().insert(id, value),
            exists|k: int| #![trigger id_after(old(self).counter(), k)] 0 <= k < 65536 && id == id_after(old(self).counter(), k)
                && (forall|j: int| 0 <= j < k ==> old(self).view().contains_key(#[trigger] id_after(old(self).counter(), j)))
                && final(self).counter() == id_after(old(self).counter(), k + 1),
            final(self).counter() == id_after(id, 1),
    {
        let id = self.next_id();
        let replaced = self.entries.insert(id, value);
        proof { assert(replaced is None); }
        id
    }

    /// Takes out the value stored under `id`, if any.
    pub fn take(&mut self, id: u16) -> (r: Option<V>)
        ensures
            final(self).view() == old(self).view().remove(id),
            final(self).counter() == old(self).counter(),
            match r {
                Some(v) => old(self).view().contains_key(id) && v == old(self).view()[id],
                None => !old(self).view().contains_key(id),
            },
    {
        self.entries.remove(&id)
    }
}

/// One step after the identifier `steps` places after `start` is `steps + 1` places after it.
proof fn lemma_id_after_step(start: u16, steps: int)
    requires
        0 <= steps,
    ensures
        id_after(start, steps + 1) == id_after(id_after(start, steps), 1),
{
    let a = start as int + steps;
    assert((a + 1) % 65536 == ((a % 65536) + 1) % 65536) by (nonlinear_arith)
        requires a >= 0;
}

/// What is stored comes back: taking the identifier that `store` returned (one not in use
/// before) gives back the stored value and leaves the identifiers in use as they were.
pub proof fn lemma_store_then_take<V>(before: Map<u16, V>, id: u16, value: V)
    requires
        !before.contains_key(id),
    ensures
        before.insert(id, value).contains_key(id),
        before.insert(id, value)[id] == value,
        before.insert(id, value).remove(id) == before,
{
    assert(before.insert(id, value).remove(id) =~= before);
}

} // verus!
