//! The entity store: one independently lockable map per entity collection,
//! keyed by identifier, with atomic read-modify-write.
//!
//! The whole collection is exclusively locked for the duration of one
//! `update` call, so concurrent updates on the same collection serialize and
//! each mutator observes the latest stored value. Across collections there is
//! no atomicity. Handlers receive copies, never references; the canonical
//! value always resides in the store.

use vstd::prelude::*;
use vstd::rwlock::RwLock;

use crate::ids::Id;
use crate::models::group::{Group, GroupView};
use crate::models::hangout::{Hangout, MatchResults};
use crate::models::ping::{Ping, PingState, PingView};
use crate::models::user::User;

verus! {

/// An entity value the store can hold: it has a mathematical view and can be
/// duplicated preserving it.
pub trait Entity: View + Sized {
    /// A copy with the same mathematical value.
    fn dup(&self) -> (r: Self)
        ensures
            r@ == self@,
    ;
}

impl Entity for Ping {
    fn dup(&self) -> (r: Self)
        ensures
            r@ == self@,
    {
        self.clone()
    }
}

impl Entity for Group {
    fn dup(&self) -> (r: Self)
        ensures
            r@ == self@,
    {
        self.clone()
    }
}

impl Entity for User {
    fn dup(&self) -> (r: Self)
        ensures
            r@ == self@,
    {
        self.clone()
    }
}

impl Entity for Hangout {
    fn dup(&self) -> (r: Self)
        ensures
            r@ == self@,
    {
        self.clone()
    }
}

impl View for MatchResults {
    type V = MatchResults;

    open spec fn view(&self) -> MatchResults {
        *self
    }
}

impl Entity for MatchResults {
    fn dup(&self) -> (r: Self)
        ensures
            r@ == self@,
    {
        *self
    }
}

/// Whether an association table holds each key at most once.
pub open spec fn keys_unique<V>(s: Seq<(Id, V)>) -> bool {
    forall|i: int, j: int| 0 <= i < j < s.len() ==> s[i].0 != s[j].0
}

/// The value stored under `id`, if any. Meaningful when keys are unique.
pub open spec fn lookup<V>(s: Seq<(Id, V)>, id: Id) -> Option<V> {
    if exists|i: int| 0 <= i < s.len() && s[i].0 == id {
        Some(s[choose|i: int| 0 <= i < s.len() && s[i].0 == id].1)
    } else {
        None
    }
}

/// With unique keys, a row pins the lookup result.
pub proof fn lemma_lookup_at<V>(s: Seq<(Id, V)>, id: Id, i: int)
    requires
        keys_unique(s),
        0 <= i < s.len(),
        s[i].0 == id,
    ensures
        lookup(s, id) == Some(s[i].1),
{
    let j = choose|j: int| 0 <= j < s.len() && s[j].0 == id;
    assert(j == i);
}

/// The mathematical values of the entities in `s`, in order.
pub open spec fn views_of<T: Entity>(s: Seq<T>) -> Seq<<T as View>::V> {
    Seq::new(s.len(), |i: int| s[i]@)
}

/// The values of the rows whose scan verdict was `true`, in table order.
pub open spec fn selected<V>(rows: Seq<(Id, V)>, hits: Seq<bool>) -> Seq<V>
    recommends
        rows.len() == hits.len(),
    decreases rows.len(),
{
    if rows.len() == 0 {
        Seq::<V>::empty()
    } else {
        let rest = selected(rows.drop_last(), hits.drop_last());
        if hits.last() {
            rest.push(rows.last().1)
        } else {
            rest
        }
    }
}

/// Whether some entity with mathematical value `v` makes `pred` return
/// `expected`. This is how scan results are described: the scanned values are
/// known only by their views.
pub open spec fn pred_holds<T: Entity, F: Fn(&T) -> bool>(
    pred: F,
    v: <T as View>::V,
    expected: bool,
) -> bool {
    exists|orig: T| orig@ == v && #[trigger] pred.ensures((&orig,), expected)
}

/// The sequential heart of one collection: an association list from id to
/// entity, with unique keys. All operations take the map exclusively; the
/// store wraps it in a lock.
pub struct EntityMap<T: Entity> {
    entries: Vec<(Id, T)>,
}

impl<T: Entity> View for EntityMap<T> {
    type V = Seq<(Id, <T as View>::V)>;

    closed spec fn view(&self) -> Seq<(Id, <T as View>::V)> {
        Seq::new(self.entries@.len(), |i: int| (self.entries@[i].0, self.entries@[i].1@))
    }
}

impl<T: Entity> EntityMap<T> {
    /// The invariant every stored table satisfies.
    pub open spec fn wf(&self) -> bool {
        keys_unique(self@)
    }

    pub fn new() -> (r: Self)
        ensures
            r.wf(),
            r@ == Seq::<(Id, <T as View>::V)>::empty(),
    {
        let r = EntityMap { entries: Vec::new() };
        proof {
            assert(r@ =~= Seq::<(Id, <T as View>::V)>::empty());
        }
        r
    }

    /// The index of the row holding `id`, if any.
    fn position(&self, id: Id) -> (r: Option<usize>)
        ensures
            r matches Some(k) ==> k < self@.len() && self@[k as int].0 == id,
            r is None ==> forall|i: int| 0 <= i < self@.len() ==> self@[i].0 != id,
    {
        let mut k: usize = 0;
        while k < self.entries.len()
            invariant
                k <= self.entries@.len(),
                forall|i: int| 0 <= i < k ==> self@[i].0 != id,
            decreases self.entries@.len() - k,
        {
            if self.entries[k].0 == id {
                return Some(k);
            }
            k = k + 1;
        }
        None
    }

    /// Stores `item` under `id`, replacing any previous value.
    pub fn insert(&mut self, id: Id, item: T)
        requires
            old(self).wf(),
        ensures
            final(self).wf(),
            lookup(final(self)@, id) == Some(item@),
            forall|u: Id| u != id ==> lookup(final(self)@, u) == lookup(old(self)@, u),
    {
        let ghost orig = self@;
        match self.position(id) {
            Some(k) => {
                self.entries.set(k, (id, item));
                proof {
                    assert forall|i: int, j: int|
                        0 <= i < j < self@.len() implies self@[i].0 != self@[j].0 by {
                        assert(orig[i].0 != orig[j].0);
                    }
                    lemma_lookup_at(self@, id, k as int);
                    assert forall|u: Id| u != id implies lookup(self@, u) == lookup(orig, u) by {
                        lemma_lookup_frame(orig, self@, u);
                    }
                }
            },
            None => {
                self.entries.push((id, item));
                proof {
                    assert(forall|i: int| 0 <= i < orig.len() ==> self@[i] == orig[i]);
                    assert forall|i: int, j: int|
                        0 <= i < j < self@.len() implies self@[i].0 != self@[j].0 by {
                        if j < orig.len() {
                            assert(orig[i].0 != orig[j].0);
                        } else {
                            assert(self@[j].0 == id);
                            assert(orig[i].0 != id);
                        }
                    }
                    lemma_lookup_at(self@, id, orig.len() as int);
                    assert forall|u: Id| u != id implies lookup(self@, u) == lookup(orig, u) by {
                        lemma_lookup_frame(orig, self@, u);
                    }
                }
            },
        }
    }

    /// A copy of the value stored under `id`, if any.
    pub fn get(&self, id: Id) -> (r: Option<T>)
        requires
            self.wf(),
        ensures
            r matches Some(t) ==> lookup(self@, id) == Some(t@),
            r is None <==> lookup(self@, id) is None,
    {
        match self.position(id) {
            Some(k) => {
                proof {
                    lemma_lookup_at(self@, id, k as int);
                }
                Some(self.entries[k].1.dup())
            },
            None => None,
        }
    }

    /// Whether a value is stored under `id`.
    pub fn contains(&self, id: Id) -> (r: bool)
        requires
            self.wf(),
        ensures
            r == (lookup(self@, id) is Some),
    {
        match self.position(id) {
            Some(k) => {
                proof {
                    lemma_lookup_at(self@, id, k as int);
                }
                true
            },
            None => false,
        }
    }

    /// Removes and returns the value stored under `id`.
    pub fn remove(&mut self, id: Id) -> (r: Option<T>)
        requires
            old(self).wf(),
        ensures
            final(self).wf(),
            r matches Some(t) ==> lookup(old(self)@, id) == Some(t@),
            r is None <==> lookup(old(self)@, id) is None,
            lookup(final(self)@, id) is None,
            forall|u: Id| u != id ==> lookup(final(self)@, u) == lookup(old(self)@, u),
    {
        let ghost orig = self@;
        match self.position(id) {
            Some(k) => {
                proof {
                    lemma_lookup_at(orig, id, k as int);
                }
                let pair = self.entries.remove(k);
                proof {
                    assert(self@ =~= orig.remove(k as int));
                    lemma_remove_frame(orig, self@, id, k as int);
                }
                Some(pair.1)
            },
            None => {
                proof {
                    assert(lookup(orig, id) is None);
                }
                None
            },
        }
    }

    /// Applies `f` to the value stored under `id`, stores the result, and
    /// returns a copy of it; `None` when `id` is absent.
    pub fn update<F: FnOnce(T) -> T>(&mut self, id: Id, f: F) -> (r: Option<T>)
        requires
            old(self).wf(),
            forall|t: T| #[trigger] f.requires((t,)),
        ensures
            final(self).wf(),
            r is None <==> lookup(old(self)@, id) is None,
            r is None ==> final(self)@ == old(self)@,
            r matches Some(out) ==> exists|t1: T, t2: T|
                {
                    &&& lookup(old(self)@, id) == Some(t1@)
                    &&& #[trigger] f.ensures((t1,), t2)
                    &&& out@ == t2@
                    &&& lookup(final(self)@, id) == Some(t2@)
                    &&& forall|u: Id|
                        u != id ==> lookup(final(self)@, u) == lookup(old(self)@, u)
                },
    {
        let ghost orig = self@;
        match self.position(id) {
            Some(k) => {
                proof {
                    lemma_lookup_at(orig, id, k as int);
                }
                let pair = self.entries.remove(k);
                proof {
                    assert(self@ =~= orig.remove(k as int));
                    lemma_remove_frame(orig, self@, id, k as int);
                }
                let ghost t1 = pair.1;
                let t2 = f(pair.1);
                let out = t2.dup();
                let ghost shrunk = self@;
                self.entries.push((id, t2));
                proof {
                    assert(forall|i: int| 0 <= i < shrunk.len() ==> self@[i] == shrunk[i]);
                    assert forall|i: int, j: int|
                        0 <= i < j < self@.len() implies self@[i].0 != self@[j].0 by {
                        if j < shrunk.len() {
                            assert(shrunk[i].0 != shrunk[j].0);
                        } else {
                            assert(lookup(shrunk, id) is None);
                            assert(self@[j].0 == id);
                            if self@[i].0 == id {
                                lemma_lookup_at(shrunk, id, i);
                            }
                        }
                    }
                    lemma_lookup_at(self@, id, shrunk.len() as int);
                    assert forall|u: Id| u != id implies lookup(self@, u) == lookup(
                        shrunk,
                        u,
                    ) by {
                        lemma_lookup_frame(shrunk, self@, u);
                    }
                }
                Some(out)
            },
            None => {
                proof {
                    assert(lookup(orig, id) is None);
                }
                None
            },
        }
    }

    /// Copies of all stored values, in table order.
    pub fn values(&self) -> (r: Vec<T>)
        ensures
            r@.len() == self@.len(),
            forall|i: int| 0 <= i < r@.len() ==> #[trigger] r@[i]@ == self@[i].1,
    {
        let mut r: Vec<T> = Vec::new();
        let mut k: usize = 0;
        while k < self.entries.len()
            invariant
                k <= self.entries@.len(),
                r@.len() == k,
                forall|i: int| 0 <= i < k ==> #[trigger] r@[i]@ == self@[i].1,
            decreases self.entries@.len() - k,
        {
            r.push(self.entries[k].1.dup());
            k = k + 1;
        }
        r
    }

    /// A copy of the first value satisfying `pred`, scanning in table order.
    pub fn find_first<F: Fn(&T) -> bool>(&self, pred: F) -> (r: Option<T>)
        requires
            forall|t: &T| #[trigger] pred.requires((t,)),
        ensures
            r matches Some(t) ==> pred_holds(pred, t@, true),
            r is None ==> forall|i: int|
                0 <= i < self@.len() ==> pred_holds(pred, #[trigger] self@[i].1, false),
    {
        let mut k: usize = 0;
        while k < self.entries.len()
            invariant
                k <= self.entries@.len(),
                forall|t: &T| #[trigger] pred.requires((t,)),
                forall|i: int| 0 <= i < k ==> pred_holds(pred, #[trigger] self@[i].1, false),
            decreases self.entries@.len() - k,
        {
            let hit = pred(&self.entries[k].1);
            proof {
                let orig = self.entries@[k as int].1;
                assert(pred.ensures((&orig,), hit));
                assert(orig@ == self@[k as int].1);
                assert(pred_holds(pred, self@[k as int].1, hit));
            }
            if hit {
                let out = self.entries[k].1.dup();
                return Some(out);
            }
            k = k + 1;
        }
        None
    }

    /// Copies of every value satisfying `pred`, in table order: the result
    /// is both sound (each returned value satisfies `pred`) and complete
    /// (there is one scan verdict per row, consistent with `pred`'s
    /// postcondition, and the result holds exactly the rows whose verdict was
    /// `true`).
    pub fn filter_all<F: Fn(&T) -> bool>(&self, pred: F) -> (r: Vec<T>)
        requires
            forall|t: &T| #[trigger] pred.requires((t,)),
        ensures
            forall|j: int| 0 <= j < r@.len() ==> pred_holds(pred, #[trigger] r@[j]@, true),
            exists|hits: Seq<bool>|
                {
                    &&& hits.len() == self@.len()
                    &&& (forall|i: int|
                        0 <= i < hits.len() ==> pred_holds(pred, self@[i].1, #[trigger] hits[i]))
                    &&& views_of(r@) == selected(self@, hits)
                },
    {
        let mut r: Vec<T> = Vec::new();
        let ghost mut hits: Seq<bool> = Seq::empty();
        let mut k: usize = 0;
        while k < self.entries.len()
            invariant
                k <= self.entries@.len(),
                forall|t: &T| #[trigger] pred.requires((t,)),
                forall|j: int| 0 <= j < r@.len() ==> pred_holds(pred, #[trigger] r@[j]@, true),
                hits.len() == k,
                forall|i: int|
                    0 <= i < k ==> pred_holds(pred, self@[i].1, #[trigger] hits[i]),
                views_of(r@) == selected(self@.take(k as int), hits),
            decreases self.entries@.len() - k,
        {
            let hit = pred(&self.entries[k].1);
            proof {
                let orig = self.entries@[k as int].1;
                assert(pred.ensures((&orig,), hit));
                assert(orig@ == self@[k as int].1);
                assert(pred_holds(pred, self@[k as int].1, hit));
            }
            let ghost hits_before = hits;
            let ghost r_before = r@;
            proof {
                hits = hits.push(hit);
            }
            if hit {
                let copy = self.entries[k].1.dup();
                proof {
                    assert(copy@ == self@[k as int].1);
                }
                r.push(copy);
            }
            proof {
                let prefix = self@.take(k as int);
                assert(self@.take(k as int + 1).drop_last() =~= prefix);
                assert(hits.drop_last() =~= hits_before);
                assert(self@.take(k as int + 1).last() == self@[k as int]);
                if hit {
                    assert forall|j: int|
                        0 <= j < views_of(r@).len() implies views_of(r@)[j] == selected(
                        prefix,
                        hits_before,
                    ).push(self@[k as int].1)[j] by {
                        if j < r_before.len() {
                            assert(r@[j] == r_before[j]);
                            assert(views_of(r_before)[j] == r_before[j]@);
                        }
                    }
                    assert(views_of(r@) =~= selected(prefix, hits_before).push(
                        self@[k as int].1,
                    ));
                } else {
                    assert(views_of(r@) =~= selected(prefix, hits_before));
                }
                assert(views_of(r@) =~= selected(self@.take(k as int + 1), hits));
            }
            k = k + 1;
        }
        proof {
            assert(self@.take(self@.len() as int) =~= self@);
        }
        r
    }
}

/// Rows untouched by an update keep their lookup result.
proof fn lemma_lookup_frame<V>(s1: Seq<(Id, V)>, s2: Seq<(Id, V)>, u: Id)
    requires
        keys_unique(s1),
        keys_unique(s2),
        s2.len() >= s1.len(),
        forall|i: int| 0 <= i < s1.len() ==> (#[trigger] s2[i].0 == s1[i].0 && (s1[i].0 == u ==> s2[i]
            == s1[i])),
        forall|i: int| s1.len() <= i < s2.len() ==> #[trigger] s2[i].0 != u,
    ensures
        lookup(s2, u) == lookup(s1, u),
{
    if exists|j: int| 0 <= j < s1.len() && s1[j].0 == u {
        let j = choose|j: int| 0 <= j < s1.len() && s1[j].0 == u;
        lemma_lookup_at(s1, u, j);
        assert(s2[j].0 == u);
        lemma_lookup_at(s2, u, j);
    } else {
        assert(forall|j: int| 0 <= j < s2.len() ==> s2[j].0 != u);
    }
}

/// Removing the row at `k` (the row of `id`) keeps every other lookup and
/// leaves `id` absent.
proof fn lemma_remove_frame<V>(orig: Seq<(Id, V)>, shrunk: Seq<(Id, V)>, id: Id, k: int)
    requires
        keys_unique(orig),
        0 <= k < orig.len(),
        orig[k].0 == id,
        shrunk == orig.remove(k),
    ensures
        keys_unique(shrunk),
        lookup(shrunk, id) is None,
        forall|u: Id| u != id ==> lookup(shrunk, u) == lookup(orig, u),
{
    assert(shrunk.len() == orig.len() - 1);
    assert(forall|i: int| 0 <= i < k ==> shrunk[i] == orig[i]);
    assert(forall|i: int| k <= i < shrunk.len() ==> shrunk[i] == orig[i + 1]);
    assert forall|i: int, j: int| 0 <= i < j < shrunk.len() implies shrunk[i].0 != shrunk[j].0 by {
        let oi = if i < k {
            i
        } else {
            i + 1
        };
        let oj = if j < k {
            j
        } else {
            j + 1
        };
        assert(orig[oi].0 != orig[oj].0);
    }
    assert forall|i: int| 0 <= i < shrunk.len() implies shrunk[i].0 != id by {
        let oi = if i < k {
            i
        } else {
            i + 1
        };
        if orig[oi].0 == id {
            assert(oi == k);
        }
    }
    assert forall|u: Id| u != id implies lookup(shrunk, u) == lookup(orig, u) by {
        if exists|j: int| 0 <= j < orig.len() && orig[j].0 == u {
            let j = choose|j: int| 0 <= j < orig.len() && orig[j].0 == u;
            lemma_lookup_at(orig, u, j);
            let sj = if j < k {
                j
            } else {
                j - 1
            };
            assert(shrunk[sj] == orig[j]);
            lemma_lookup_at(shrunk, u, sj);
        } else {
            assert forall|i: int| 0 <= i < shrunk.len() implies shrunk[i].0 != u by {
                let oi = if i < k {
                    i
                } else {
                    i + 1
                };
                assert(shrunk[i] == orig[oi]);
            }
        }
    }
}

/// The lock invariant of a collection: every stored table is well-formed.
pub open spec fn store_inv<T: Entity>() -> spec_fn(EntityMap<T>) -> bool {
    |m: EntityMap<T>| m.wf()
}

/// One lockable entity collection. `update` is atomic with respect to other
/// operations on the same collection: the whole collection is exclusively
/// locked for the duration of the call, so writes even to unrelated rows
/// serialize against each other. A result handed out is a copy; between two
/// calls other writers may run, so each operation speaks only of the table it
/// observed while holding the lock.
#[verifier::reject_recursive_types(T)]
pub struct InMemoryStore<T: Entity> {
    data: RwLock<EntityMap<T>, spec_fn(EntityMap<T>) -> bool>,
}

impl<T: Entity> InMemoryStore<T> {
    /// Whether the lock carries the store invariant.
    pub closed spec fn wf(&self) -> bool {
        self.data.pred() == store_inv::<T>()
    }

    pub fn new() -> (r: Self)
        ensures
            r.wf(),
    {
        InMemoryStore { data: RwLock::new(EntityMap::new(), Ghost(store_inv::<T>())) }
    }

    /// Stores `item` under `id`, replacing any previous value. A concurrent
    /// writer may overwrite it at any later point, so nothing observable is
    /// promised.
    pub fn insert(&self, id: Id, item: T)
        requires
            self.wf(),
    {
        let (mut map, handle) = self.data.acquire_write();
        map.insert(id, item);
        handle.release_write(map);
    }

    /// A copy of the value stored under `id` in the table observed while the
    /// read lock was held. The observed table cannot be named across the
    /// lock, so no contract is stated here; the lookup guarantee is
    /// `EntityMap::get`'s contract, applied to that table.
    pub fn get(&self, id: Id) -> (r: Option<T>)
        requires
            self.wf(),
    {
        let handle = self.data.acquire_read();
        let r = handle.borrow().get(id);
        handle.release_read();
        r
    }

    /// Whether a value was stored under `id` in the observed table.
    pub fn contains(&self, id: Id) -> (r: bool)
        requires
            self.wf(),
    {
        let handle = self.data.acquire_read();
        let r = handle.borrow().contains(id);
        handle.release_read();
        r
    }

    /// Atomically applies `f` to the latest value stored under `id` and
    /// stores the result back; no other operation on this collection
    /// interleaves. Returns a copy of the stored result, or `None` when `id`
    /// was absent from the observed table.
    pub fn update<F: FnOnce(T) -> T>(&self, id: Id, f: F) -> (r: Option<T>)
        requires
            self.wf(),
            forall|t: T| #[trigger] f.requires((t,)),
        ensures
            r matches Some(out) ==> exists|t1: T, t2: T|
                {
                    &&& #[trigger] f.ensures((t1,), t2)
                    &&& out@ == t2@
                },
    {
        let (mut map, handle) = self.data.acquire_write();
        let r = map.update(id, f);
        handle.release_write(map);
        r
    }

    /// Removes the value stored under `id` from the observed table, returning
    /// it. As with `get`, the observed table cannot be named across the lock;
    /// the removal guarantee is `EntityMap::remove`'s contract, applied to
    /// that table.
    pub fn remove(&self, id: Id) -> (r: Option<T>)
        requires
            self.wf(),
    {
        let (mut map, handle) = self.data.acquire_write();
        let r = map.remove(id);
        handle.release_write(map);
        r
    }

    /// Copies of all values of the observed table, in table order.
    pub fn values(&self) -> (r: Vec<T>)
        requires
            self.wf(),
    {
        let handle = self.data.acquire_read();
        let r = handle.borrow().values();
        handle.release_read();
        r
    }

    /// The first value of the observed table that satisfies `pred`, as a
    /// copy.
    pub fn find<F: Fn(&T) -> bool>(&self, pred: F) -> (r: Option<T>)
        requires
            self.wf(),
            forall|t: &T| #[trigger] pred.requires((t,)),
        ensures
            r matches Some(t) ==> pred_holds(pred, t@, true),
    {
        let handle = self.data.acquire_read();
        let r = handle.borrow().find_first(pred);
        handle.release_read();
        r
    }

    /// Copies of every value of the observed table that satisfies `pred`.
    /// The observed table cannot be named across the lock, so only the
    /// per-element guarantee is stated here; the exact sound-and-complete
    /// relation between that table and the result is `EntityMap::filter_all`'s
    /// contract, applied to it.
    pub fn filter<F: Fn(&T) -> bool>(&self, pred: F) -> (r: Vec<T>)
        requires
            self.wf(),
            forall|t: &T| #[trigger] pred.requires((t,)),
        ensures
            forall|j: int| 0 <= j < r@.len() ==> pred_holds(pred, #[trigger] r@[j]@, true),
    {
        let handle = self.data.acquire_read();
        let r = handle.borrow().filter_all(pred);
        handle.release_read();
        r
    }
}


/// Membership in `group_id`'s sense: the filter the group listings use.
pub open spec fn member_filter(user_id: Id) -> spec_fn(GroupView) -> bool {
    |g: GroupView| g.members.contains(user_id)
}

/// Belonging to one group: the filter the ping listings use.
pub open spec fn group_filter(group_id: Id) -> spec_fn(PingView) -> bool {
    |p: PingView| p.group == group_id
}

/// Being in one lifecycle phase: the filter the narrowed ping listings use.
pub open spec fn state_filter(wanted: PingState) -> spec_fn(PingView) -> bool {
    |p: PingView| p.lifecycle.state() == wanted
}

/// Exactly the groups of `snapshot` that `user_id` belongs to, in order:
/// sound and complete with respect to its input.
pub fn groups_with_member(snapshot: &Vec<Group>, user_id: Id) -> (r: Vec<Group>)
    ensures
        r.deep_view() == snapshot.deep_view().filter(member_filter(user_id)),
{
    broadcast use vstd::seq_lib::group_filter_ensures;

    let ghost pred = member_filter(user_id);
    let mut r: Vec<Group> = Vec::new();
    let mut k: usize = 0;
    while k < snapshot.len()
        invariant
            k <= snapshot@.len(),
            pred == member_filter(user_id),
            r.deep_view() == snapshot.deep_view().take(k as int).filter(pred),
        decreases snapshot@.len() - k,
    {
        let ghost prefix = snapshot.deep_view().take(k as int);
        proof {
            assert(snapshot.deep_view().take(k as int + 1) =~= prefix.push(
                snapshot.deep_view()[k as int],
            ));
            reveal(Seq::filter);
            assert(prefix.push(snapshot.deep_view()[k as int]).drop_last() =~= prefix);
        }
        let hit = snapshot[k].is_member(user_id);
        proof {
            assert(snapshot.deep_view()[k as int] == snapshot@[k as int]@);
            assert(hit == pred(snapshot.deep_view()[k as int]));
        }
        if hit {
            let ghost rv = r.deep_view();
            r.push(snapshot[k].clone());
            proof {
                assert forall|j: int|
                    0 <= j < r.deep_view().len() implies r.deep_view()[j] == prefix.filter(
                    pred,
                ).push(snapshot.deep_view()[k as int])[j] by {
                    if j < rv.len() {
                        assert(r.deep_view()[j] == rv[j]);
                    } else {
                        assert(r.deep_view()[j] == r@[j].deep_view());
                    }
                }
                assert(r.deep_view() =~= prefix.filter(pred).push(
                    snapshot.deep_view()[k as int],
                ));
            }
        }
        k = k + 1;
    }
    proof {
        assert(snapshot.deep_view().take(snapshot@.len() as int) =~= snapshot.deep_view());
    }
    r
}

/// Exactly the pings of `snapshot` that belong to `group_id`, in order:
/// sound and complete with respect to its input.
pub fn pings_of_group(snapshot: &Vec<Ping>, group_id: Id) -> (r: Vec<Ping>)
    ensures
        r.deep_view() == snapshot.deep_view().filter(group_filter(group_id)),
{
    broadcast use vstd::seq_lib::group_filter_ensures;

    let ghost pred = group_filter(group_id);
    let mut r: Vec<Ping> = Vec::new();
    let mut k: usize = 0;
    while k < snapshot.len()
        invariant
            k <= snapshot@.len(),
            pred == group_filter(group_id),
            r.deep_view() == snapshot.deep_view().take(k as int).filter(pred),
        decreases snapshot@.len() - k,
    {
        let ghost prefix = snapshot.deep_view().take(k as int);
        proof {
            assert(snapshot.deep_view().take(k as int + 1) =~= prefix.push(
                snapshot.deep_view()[k as int],
            ));
            reveal(Seq::filter);
            assert(prefix.push(snapshot.deep_view()[k as int]).drop_last() =~= prefix);
        }
        let hit = snapshot[k].group == group_id;
        proof {
            assert(snapshot.deep_view()[k as int] == snapshot@[k as int]@);
            assert(hit == pred(snapshot.deep_view()[k as int]));
        }
        if hit {
            let ghost rv = r.deep_view();
            r.push(snapshot[k].clone());
            proof {
                assert forall|j: int|
                    0 <= j < r.deep_view().len() implies r.deep_view()[j] == prefix.filter(
                    pred,
                ).push(snapshot.deep_view()[k as int])[j] by {
                    if j < rv.len() {
                        assert(r.deep_view()[j] == rv[j]);
                    } else {
                        assert(r.deep_view()[j] == r@[j].deep_view());
                    }
                }
                assert(r.deep_view() =~= prefix.filter(pred).push(
                    snapshot.deep_view()[k as int],
                ));
            }
        }
        k = k + 1;
    }
    proof {
        assert(snapshot.deep_view().take(snapshot@.len() as int) =~= snapshot.deep_view());
    }
    r
}

/// Exactly the pings of `snapshot` whose lifecycle is in phase `wanted`, in
/// order: sound and complete with respect to its input.
pub fn pings_in_state(snapshot: &Vec<Ping>, wanted: PingState) -> (r: Vec<Ping>)
    ensures
        r.deep_view() == snapshot.deep_view().filter(state_filter(wanted)),
{
    broadcast use vstd::seq_lib::group_filter_ensures;

    let ghost pred = state_filter(wanted);
    let mut r: Vec<Ping> = Vec::new();
    let mut k: usize = 0;
    while k < snapshot.len()
        invariant
            k <= snapshot@.len(),
            pred == state_filter(wanted),
            r.deep_view() == snapshot.deep_view().take(k as int).filter(pred),
        decreases snapshot@.len() - k,
    {
        let ghost prefix = snapshot.deep_view().take(k as int);
        proof {
            assert(snapshot.deep_view().take(k as int + 1) =~= prefix.push(
                snapshot.deep_view()[k as int],
            ));
            reveal(Seq::filter);
            assert(prefix.push(snapshot.deep_view()[k as int]).drop_last() =~= prefix);
        }
        let hit = snapshot[k].lifecycle.state() == wanted;
        proof {
            assert(snapshot.deep_view()[k as int] == snapshot@[k as int]@);
            assert(hit == pred(snapshot.deep_view()[k as int]));
        }
        if hit {
            let ghost rv = r.deep_view();
            r.push(snapshot[k].clone());
            proof {
                assert forall|j: int|
                    0 <= j < r.deep_view().len() implies r.deep_view()[j] == prefix.filter(
                    pred,
                ).push(snapshot.deep_view()[k as int])[j] by {
                    if j < rv.len() {
                        assert(r.deep_view()[j] == rv[j]);
                    } else {
                        assert(r.deep_view()[j] == r@[j].deep_view());
                    }
                }
                assert(r.deep_view() =~= prefix.filter(pred).push(
                    snapshot.deep_view()[k as int],
                ));
            }
        }
        k = k + 1;
    }
    proof {
        assert(snapshot.deep_view().take(snapshot@.len() as int) =~= snapshot.deep_view());
    }
    r
}

/// The first group of `snapshot` carrying `code`, if any: sound, complete
/// and first-match with respect to its input.
pub fn first_group_with_code(snapshot: &Vec<Group>, code: &str) -> (r: Option<Group>)
    ensures
        r matches Some(g) ==> exists|i: int|
            {
                &&& 0 <= i < snapshot.deep_view().len()
                &&& #[trigger] snapshot.deep_view()[i] == g@
                &&& g@.invite_code == code@
                &&& forall|j: int| 0 <= j < i ==> snapshot.deep_view()[j].invite_code != code@
            },
        r is None ==> forall|i: int|
            0 <= i < snapshot.deep_view().len() ==> snapshot.deep_view()[i].invite_code != code@,
{
    let mut k: usize = 0;
    while k < snapshot.len()
        invariant
            k <= snapshot@.len(),
            forall|i: int| 0 <= i < k ==> snapshot.deep_view()[i].invite_code != code@,
        decreases snapshot@.len() - k,
    {
        let hit = string_eq(&snapshot[k].invite_code, code);
        proof {
            assert(snapshot.deep_view()[k as int] == snapshot@[k as int]@);
        }
        if hit {
            let found = snapshot[k].clone();
            proof {
                assert(snapshot.deep_view()[k as int] == found@);
            }
            return Some(found);
        }
        k = k + 1;
    }
    None
}

/// The application state: each entity collection as an independently lockable
/// map. There is no cross-collection atomicity: an operation that touches two
/// collections performs two independent lock acquisitions.
pub struct AppState {
    pub users: InMemoryStore<User>,
    pub groups: InMemoryStore<Group>,
    pub pings: InMemoryStore<Ping>,
    pub hangouts: InMemoryStore<Hangout>,
    pub match_results: InMemoryStore<MatchResults>,
}

impl AppState {
    /// Whether every collection carries its store invariant.
    pub open spec fn wf(&self) -> bool {
        &&& self.users.wf()
        &&& self.groups.wf()
        &&& self.pings.wf()
        &&& self.hangouts.wf()
        &&& self.match_results.wf()
    }

    pub fn new() -> (r: Self)
        ensures
            r.wf(),
    {
        AppState {
            users: InMemoryStore::new(),
            groups: InMemoryStore::new(),
            pings: InMemoryStore::new(),
            hangouts: InMemoryStore::new(),
            match_results: InMemoryStore::new(),
        }
    }

    /// Every group of the observed table that `user_id` belongs to. The
    /// snapshot-to-result relation is exact (`groups_with_member`); only the
    /// snapshot itself, taken under the read lock, cannot be named here.
    pub fn get_user_groups(&self, user_id: Id) -> (r: Vec<Group>)
        requires
            self.wf(),
        ensures
            forall|j: int| 0 <= j < r@.len() ==> #[trigger] r@[j]@.members.contains(user_id),
    {
        broadcast use vstd::seq_lib::group_filter_ensures;

        let all = self.groups.values();
        let r = groups_with_member(&all, user_id);
        proof {
            assert forall|j: int| 0 <= j < r@.len() implies #[trigger] r@[j]@.members.contains(
                user_id,
            ) by {
                assert(r.deep_view()[j] == r@[j]@);
                assert(member_filter(user_id)(r.deep_view()[j]));
            }
        }
        r
    }

    /// The group of the observed table carrying `code`, if any. The
    /// snapshot-to-result relation is exact, first match included
    /// (`first_group_with_code`); only the snapshot itself, taken under the
    /// read lock, cannot be named here.
    pub fn find_group_by_invite_code(&self, code: &str) -> (r: Option<Group>)
        requires
            self.wf(),
        ensures
            r matches Some(g) ==> g@.invite_code == code@,
    {
        let all = self.groups.values();
        first_group_with_code(&all, code)
    }

    /// Every ping of the observed table that belongs to `group_id`. The
    /// snapshot-to-result relation is exact (`pings_of_group`); only the
    /// snapshot itself, taken under the read lock, cannot be named here.
    pub fn get_group_pings(&self, group_id: Id) -> (r: Vec<Ping>)
        requires
            self.wf(),
        ensures
            forall|j: int| 0 <= j < r@.len() ==> #[trigger] r@[j]@.group == group_id,
    {
        broadcast use vstd::seq_lib::group_filter_ensures;

        let all = self.pings.values();
        let r = pings_of_group(&all, group_id);
        proof {
            assert forall|j: int| 0 <= j < r@.len() implies #[trigger] r@[j]@.group == group_id by {
                assert(r.deep_view()[j] == r@[j]@);
                assert(group_filter(group_id)(r.deep_view()[j]));
            }
        }
        r
    }
}

/// Whether a string equals a string slice, character for character.
fn string_eq(s: &String, other: &str) -> (r: bool)
    ensures
        r == (s@ == other@),
{
    s.eq(&other.to_owned())
}


} // verus!
