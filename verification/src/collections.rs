//! A fixed-capacity slot map: items are stored under small integer indices,
//! freed slots are reused first-in first-out, and the capacity is part of
//! the type, so a full map refuses further items rather than growing.

use std::collections::VecDeque;

use vstd::prelude::*;

verus! {

/// How many of the first `k` slots hold an item.
pub open spec fn occupied_below<T>(storage: Seq<Option<T>>, k: int) -> int
    decreases k,
{
    if k <= 0 {
        0
    } else {
        occupied_below(storage, k - 1) + if storage[k - 1] is Some {
            1int
        } else {
            0int
        }
    }
}

proof fn lemma_occupied_below_pos<T>(storage: Seq<Option<T>>, k: int, i: int)
    requires
        0 <= i < k <= storage.len(),
        storage[i] is Some,
    ensures
        occupied_below(storage, k) >= 1,
    decreases k,
{
    if i == k - 1 {
        assert(occupied_below(storage, k - 1) >= 0) by {
            lemma_occupied_below_bounds(storage, k - 1);
        }
    } else {
        lemma_occupied_below_pos(storage, k - 1, i);
    }
}

proof fn lemma_occupied_below_bounds<T>(storage: Seq<Option<T>>, k: int)
    requires
        k <= storage.len(),
    ensures
        0 <= occupied_below(storage, k),
        k >= 0 ==> occupied_below(storage, k) <= k,
    decreases k,
{
    if k > 0 {
        lemma_occupied_below_bounds(storage, k - 1);
    }
}

proof fn lemma_occupied_below_update<T>(storage: Seq<Option<T>>, k: int, i: int, v: Option<T>)
    requires
        0 <= i < storage.len(),
        k <= storage.len(),
    ensures
        occupied_below(storage.update(i, v), k) == if i < k {
            occupied_below(storage, k) + (if v is Some {
                1int
            } else {
                0int
            }) - (if storage[i] is Some {
                1int
            } else {
                0int
            })
        } else {
            occupied_below(storage, k)
        },
    decreases k,
{
    if k > 0 {
        lemma_occupied_below_update(storage, k - 1, i, v);
    }
}

/// The slot map. `C` is the capacity; `T` the item type.
pub struct IndexMap<const C: usize, T> {
    empty: VecDeque<usize>,
    index: usize,
    count: usize,
    storage: Vec<Option<T>>,
}

impl<const C: usize, T> IndexMap<C, T> {
    /// The slots, each holding an item or standing free.
    pub closed spec fn view(&self) -> Seq<Option<T>> {
        self.storage@
    }

    /// The map's internal shape: a high-water mark below which all slots
    /// have been handed out at least once, a free list enumerating exactly
    /// the empty slots below the mark, and a live count tying the two.
    pub closed spec fn wf(&self) -> bool {
        &&& self.storage@.len() == C
        &&& self.index <= C
        &&& (forall|i: int| self.index <= i < C ==> (#[trigger] self.storage@[i]) is None)
        &&& (forall|a: int|
            0 <= a < self.empty@.len() ==> (#[trigger] self.empty@[a]) < self.index)
        &&& (forall|a: int|
            0 <= a < self.empty@.len() ==> self.storage@[#[trigger] self.empty@[a]
                as int] is None)
        &&& self.empty@.no_duplicates()
        &&& (forall|i: int|
            0 <= i < self.index && (#[trigger] self.storage@[i]) is None ==> self.empty@.contains(
                i as usize,
            ))
        &&& self.count as int == self.index as int - self.empty@.len()
        &&& self.count as int == occupied_below(self.storage@, C as int)
    }

    /// How many items the map holds.
    pub closed spec fn len_spec(&self) -> nat {
        self.count as nat
    }

    /// The freed slots awaiting reuse, oldest first.
    pub closed spec fn free_spec(&self) -> Seq<usize> {
        self.empty@
    }

    /// The lowest slot index never yet handed out: every slot from here up
    /// to the capacity is untouched.
    pub closed spec fn next_fresh_spec(&self) -> nat {
        self.index as nat
    }

    /// The view always covers every slot: its length is the capacity.
    pub proof fn lemma_capacity(&self)
        requires
            self.wf(),
        ensures
            self@.len() == C,
            self.free_spec().len() <= self.next_fresh_spec() <= C,
    {
    }

    /// How many items the map holds.
    pub fn len(&self) -> (r: usize)
        requires
            self.wf(),
        ensures
            r == self.len_spec(),
    {
        self.count
    }

    /// Whether the map holds no item.
    pub fn is_empty(&self) -> (r: bool)
        requires
            self.wf(),
        ensures
            r <==> self.len_spec() == 0,
    {
        self.count == 0
    }

    /// Stores an item, in the first freed slot where one stands free, else
    /// in the first slot never yet used. Returns the slot index, under
    /// which the item stays until it is removed. The map must not be full.
    pub fn add(&mut self, item: T) -> (r: usize)
        requires
            old(self).wf(),
            old(self).len_spec() < C,
        ensures
            final(self).wf(),
            r < C,
            old(self)@[r as int] is None,
            final(self)@ == old(self)@.update(r as int, Some(item)),
            final(self).len_spec() == old(self).len_spec() + 1,
            r == if old(self).free_spec().len() > 0 {
                old(self).free_spec()[0]
            } else {
                old(self).next_fresh_spec() as usize
            },
            final(self).free_spec() == if old(self).free_spec().len() > 0 {
                old(self).free_spec().drop_first()
            } else {
                old(self).free_spec()
            },
            final(self).next_fresh_spec() == if old(self).free_spec().len() > 0 {
                old(self).next_fresh_spec()
            } else {
                old(self).next_fresh_spec() + 1
            },
    {
        proof {
            lemma_occupied_below_bounds(self.storage@, C as int);
        }
        let ghost pre_empty = self.empty@;
        let ghost pre_storage = self.storage@;
        match self.empty.pop_front() {
            Some(i) => {
                proof {
                    lemma_occupied_below_update(pre_storage, C as int, i as int, Some(item));
                }
                self.storage.set(i, Some(item));
                self.count = self.count + 1;
                proof {
                    assert(self.empty@ == pre_empty.drop_first());
                    assert(forall|a: int|
                        0 <= a < self.empty@.len() ==> self.empty@[a] == pre_empty[a + 1]);
                    assert forall|x: int|
                        0 <= x < self.index && (#[trigger] self.storage@[x]) is None implies self
                        .empty@.contains(x as usize) by {
                        assert(pre_storage[x] is None);
                        assert(pre_empty.contains(x as usize));
                        let a = choose|a: int|
                            0 <= a < pre_empty.len() && pre_empty[a] == x as usize;
                        assert(a != 0);
                        assert(self.empty@[a - 1] == x as usize);
                    }
                }
                i
            },
            None => {
                let i = self.index;
                proof {
                    lemma_occupied_below_update(pre_storage, C as int, i as int, Some(item));
                }
                self.storage.set(i, Some(item));
                self.index = self.index + 1;
                self.count = self.count + 1;
                i
            },
        }
    }

    /// The item standing in the given slot, if one does.
    pub fn get(&self, index: usize) -> (r: Option<&T>)
        requires
            self.wf(),
        ensures
            match r {
                Some(t) => index < C && self@[index as int] == Some(*t),
                None => index >= C || self@[index as int] is None,
            },
    {
        if index >= C {
            return None;
        }
        match self.storage.get(index) {
            Some(slot) => match slot {
                Some(t) => Some(t),
                None => None,
            },
            None => None,
        }
    }

    /// Removes whatever stands in the given slot; the slot is free for
    /// reuse afterwards. Removing from a free slot changes nothing.
    pub fn remove(&mut self, index: usize) -> (r: Option<T>)
        requires
            old(self).wf(),
            index < C,
        ensures
            final(self).wf(),
            r == old(self)@[index as int],
            old(self)@[index as int] is Some ==> old(self).len_spec() >= 1,
            final(self)@ == if old(self)@[index as int] is Some {
                old(self)@.update(index as int, None::<T>)
            } else {
                old(self)@
            },
            final(self).len_spec() == if old(self)@[index as int] is Some {
                (old(self).len_spec() - 1) as nat
            } else {
                old(self).len_spec()
            },
            final(self).free_spec() == if old(self)@[index as int] is Some {
                old(self).free_spec().push(index)
            } else {
                old(self).free_spec()
            },
            final(self).next_fresh_spec() == old(self).next_fresh_spec(),
    {
        let slot_occupied = match self.storage.get(index) {
            Some(slot) => slot.is_some(),
            None => false,
        };
        if !slot_occupied {
            return None;
        }
        proof {
            lemma_occupied_below_pos(self.storage@, C as int, index as int);
            lemma_occupied_below_update(self.storage@, C as int, index as int, None::<T>);
            if self.empty@.contains(index) {
                let a = choose|a: int|
                    0 <= a < self.empty@.len() && self.empty@[a] == index;
                assert(self.storage@[self.empty@[a] as int] is None);
                assert(false);
            }
        }
        let mut item: Option<T> = None;
        self.storage.set_and_swap(index, &mut item);
        self.empty.push_back(index);
        self.count = self.count - 1;
        proof {
            assert forall|x: int|
                0 <= x < self.index && (#[trigger] self.storage@[x]) is None implies self
                .empty@.contains(x as usize) by {
                if x == index as int {
                    assert(self.empty@.last() == index);
                } else {
                    assert(old(self).storage@[x] is None);
                    let a = choose|a: int|
                        0 <= a < old(self).empty@.len() && old(self).empty@[a] == x as usize;
                    assert(self.empty@[a] == x as usize);
                }
            }
        }
        item
    }
}

impl<const C: usize, T> IndexMap<C, T> {
    /// The indices of the occupied slots, in slot order, paired with read
    /// access to the items standing there.
    pub fn entries(&self) -> (r: Vec<(usize, &T)>)
        requires
            self.wf(),
        ensures
            r@.len() == self.len_spec(),
            forall|a: int|
                0 <= a < r@.len() ==> (#[trigger] r@[a]).0 < C && self@[r@[a].0 as int] == Some(
                    *r@[a].1,
                ),
            forall|a: int, b: int| 0 <= a < b < r@.len() ==> r@[a].0 < r@[b].0,
            forall|i: int|
                0 <= i < C && (#[trigger] self@[i]) is Some ==> exists|a: int|
                    0 <= a < r@.len() && (#[trigger] r@[a]).0 == i,
    {
        let ghost gself = *self;
        let mut r: Vec<(usize, &T)> = Vec::new();
        let mut i: usize = 0;
        while i < C
            invariant
                *self == gself,
                self.wf(),
                i <= C,
                r@.len() == occupied_below(self@, i as int),
                forall|a: int|
                    0 <= a < r@.len() ==> (#[trigger] r@[a]).0 < i && self@[r@[a].0 as int]
                        == Some(*r@[a].1),
                forall|a: int, b: int| 0 <= a < b < r@.len() ==> r@[a].0 < r@[b].0,
                forall|j: int|
                    0 <= j < i && (#[trigger] self@[j]) is Some ==> exists|a: int|
                        0 <= a < r@.len() && (#[trigger] r@[a]).0 == j,
            decreases C - i,
        {
            let ghost r_pre = r@;
            match self.storage.get(i) {
                Some(slot) => match slot {
                    Some(t) => {
                        r.push((i, t));
                    },
                    None => {},
                },
                None => {},
            }
            proof {
                assert forall|j: int|
                    0 <= j < i + 1 && (#[trigger] self@[j]) is Some implies exists|a: int|
                    0 <= a < r@.len() && (#[trigger] r@[a]).0 == j by {
                    if j == i as int {
                        assert(r@[r@.len() - 1].0 == i);
                    } else {
                        let a = choose|a: int| 0 <= a < r_pre.len() && (#[trigger] r_pre[a]).0 == j;
                        assert(r@[a].0 == j);
                    }
                }
            }
            i = i + 1;
        }
        proof {
            assert(occupied_below(self@, C as int) == self.len_spec());
        }
        r
    }

    /// Read access to every item the map holds, in slot order.
    pub fn values(&self) -> (r: Vec<&T>)
        requires
            self.wf(),
        ensures
            r@.len() == self.len_spec(),
            forall|a: int|
                0 <= a < r@.len() ==> exists|i: int|
                    0 <= i < C && self@[i] == Some(*#[trigger] r@[a]),
    {
        let entries = self.entries();
        let mut r: Vec<&T> = Vec::new();
        let mut a: usize = 0;
        while a < entries.len()
            invariant
                self.wf(),
                a <= entries@.len(),
                r@.len() == a,
                forall|b: int|
                    0 <= b < entries@.len() ==> (#[trigger] entries@[b]).0 < C && self@[
                        entries@[b].0 as int
                    ] == Some(*entries@[b].1),
                forall|b: int|
                    0 <= b < r@.len() ==> exists|i: int|
                        0 <= i < C && self@[i] == Some(*#[trigger] r@[b]),
            decreases entries@.len() - a,
        {
            let t = entries[a].1;
            proof {
                assert(self@[entries@[a as int].0 as int] == Some(*entries@[a as int].1));
            }
            r.push(t);
            a = a + 1;
        }
        r
    }

    /// Keeps the items the predicate accepts and frees the slots of those
    /// it rejects; kept items stay under their indices.
    pub fn retain<F: Fn(&T) -> bool>(&mut self, predicate: F)
        requires
            old(self).wf(),
            forall|t: &T| #[trigger] call_requires(predicate, (t,)),
        ensures
            final(self).wf(),
            final(self).len_spec() <= old(self).len_spec(),
            forall|j: int|
                0 <= j < C && old(self)@[j] is None ==> (#[trigger] final(self)@[j]) is None,
            forall|j: int|
                0 <= j < C && (#[trigger] final(self)@[j]) is Some ==> final(self)@[j] == old(
                    self,
                )@[j],
            forall|j: int|
                0 <= j < C && old(self)@[j] is Some && (#[trigger] final(self)@[j]) is Some
                    ==> call_ensures(predicate, (&old(self)@[j]->0,), true),
            forall|j: int|
                0 <= j < C && old(self)@[j] is Some && (#[trigger] final(self)@[j]) is None
                    ==> call_ensures(predicate, (&old(self)@[j]->0,), false),
    {
        let ghost pre = *old(self);
        let mut i: usize = 0;
        while i < C
            invariant
                self.wf(),
                i <= C,
                self.len_spec() <= pre.len_spec(),
                forall|t: &T| #[trigger] call_requires(predicate, (t,)),
                forall|j: int| i <= j < C ==> self@[j] == pre@[j],
                forall|j: int| 0 <= j < C && pre@[j] is None ==> (#[trigger] self@[j]) is None,
                forall|j: int|
                    0 <= j < C && (#[trigger] self@[j]) is Some ==> self@[j] == pre@[j],
                forall|j: int|
                    0 <= j < i && pre@[j] is Some && (#[trigger] self@[j]) is Some
                        ==> call_ensures(predicate, (&pre@[j]->0,), true),
                forall|j: int|
                    0 <= j < i && pre@[j] is Some && (#[trigger] self@[j]) is None
                        ==> call_ensures(predicate, (&pre@[j]->0,), false),
            decreases C - i,
        {
            let keep = match self.storage.get(i) {
                Some(slot) => match slot {
                    Some(t) => predicate(t),
                    None => true,
                },
                None => true,
            };
            if !keep {
                let _ = self.remove(i);
            }
            i = i + 1;
        }
    }
}

impl<const C: usize, T> Default for IndexMap<C, T> {
    /// An empty map: no slot used yet.
    fn default() -> (r: Self)
        ensures
            r.wf(),
            r@.len() == C,
            r.len_spec() == 0,
            r.free_spec().len() == 0,
            r.next_fresh_spec() == 0,
            forall|i: int| 0 <= i < C ==> (#[trigger] r@[i]) is None,
    {
        let mut storage: Vec<Option<T>> = Vec::new();
        while storage.len() < C
            invariant
                storage@.len() <= C,
                forall|i: int| 0 <= i < storage@.len() ==> (#[trigger] storage@[i]) is None,
            decreases C - storage@.len(),
        {
            storage.push(None);
        }
        let r = IndexMap { empty: VecDeque::new(), index: 0, count: 0, storage };
        proof {
            lemma_occupied_all_none(r.storage@, C as int);
        }
        r
    }
}

proof fn lemma_occupied_all_none<T>(storage: Seq<Option<T>>, k: int)
    requires
        k <= storage.len(),
        forall|i: int| 0 <= i < storage.len() ==> (#[trigger] storage[i]) is None,
    ensures
        occupied_below(storage, k) == 0,
    decreases k,
{
    if k > 0 {
        lemma_occupied_all_none(storage, k - 1);
    }
}

} // verus!
