use vstd::prelude::*;

verus! {

/// A key of a [`Coalescer`]: two keys name the same entry exactly when their views agree.
pub trait CacheKey: View + Sized {
    fn same_key(&self, other: &Self) -> (r: bool)
        ensures
            r == (self@ == other@),
    ;

    fn copy_key(&self) -> (r: Self)
        ensures
            r@ == self@,
    ;
}

/// A value that can be handed out again while the coalescer keeps its own copy.
pub trait Duplicate: View + Sized {
    fn duplicate(&self) -> (r: Self)
        ensures
            r@ == self@,
    ;
}

/// What a caller of [`Coalescer::acquire`] gets.
pub enum Step<V> {
    /// The fresh value stored for the key.
    Ready(V),
    /// Another caller is computing the value: wait for the outcome it reports.
    Wait,
    /// Compute the value and report it with [`Coalescer::finish`].
    Fetch,
}

/// What the coalescer holds for one key.
pub enum Slot<V> {
    /// A value computed successfully, served while the clock reads less than `expires_at`.
    Ready { value: V, expires_at: u64 },
    /// One computation is running; `waiters` further callers wait for its outcome.
    Pending { waiters: u64 },
}

/// What a caller of [`Coalescer::begin`] must do next.
#[derive(PartialEq, Eq, Structural, Clone, Copy, Debug)]
pub enum Admission {
    /// A fresh value is stored: read it with [`Coalescer::lookup`], call nothing upstream.
    Cached,
    /// Another caller is computing the value: wait for its outcome.
    Join,
    /// This caller runs the computation and reports it with [`Coalescer::complete`].
    Lead,
}

/// The instant at which a value computed at `now` stops being served.
pub open spec fn expiry(now: u64, ttl: u64) -> u64 {
    if now + ttl > u64::MAX {
        u64::MAX
    } else {
        (now + ttl) as u64
    }
}

pub open spec fn is_fresh<KV, V>(m: Map<KV, Slot<V>>, k: KV, now: u64) -> bool {
    m.contains_key(k) && match m[k] {
        Slot::Ready { expires_at, .. } => now < expires_at,
        Slot::Pending { .. } => false,
    }
}

pub open spec fn is_pending<KV, V>(m: Map<KV, Slot<V>>, k: KV) -> bool {
    m.contains_key(k) && m[k] is Pending
}

/// The number of callers waiting on the computation for `k`, if one runs.
pub open spec fn waiters_of<KV, V>(m: Map<KV, Slot<V>>, k: KV) -> u64 {
    if m.contains_key(k) {
        match m[k] {
            Slot::Pending { waiters } => waiters,
            Slot::Ready { .. } => 0,
        }
    } else {
        0
    }
}

/// The value stored for `k`, whatever its age.
pub open spec fn stored_value<KV, V>(m: Map<KV, Slot<V>>, k: KV) -> Option<V> {
    if m.contains_key(k) {
        match m[k] {
            Slot::Ready { value, .. } => Some(value),
            Slot::Pending { .. } => None,
        }
    } else {
        None
    }
}

/// Whether the value stored for `k`, whatever its age, has the view `x`.
pub open spec fn holds<KV, V: View>(m: Map<KV, Slot<V>>, k: KV, x: V::V) -> bool {
    stored_value(m, k) is Some && stored_value(m, k)->0@ == x
}

/// The value of a successful outcome.
pub open spec fn ok_value<V, E>(r: Result<V, E>) -> Option<V> {
    match r {
        Ok(v) => Some(v),
        Err(_) => None,
    }
}

/// What a caller is handed for `outcome`: a copy of its value, or its error.
pub open spec fn same_outcome<V: View, E>(handed: Result<V, E>, outcome: Result<V, E>) -> bool {
    match outcome {
        Ok(v) => handed is Ok && handed->Ok_0@ == v@,
        Err(e) => handed == Err::<V, E>(e),
    }
}

/// What a caller asking for `k` at `now` is handed: a copy of the stored value when it
/// is fresh, otherwise the order to wait or to compute.
pub open spec fn step_agrees<KV, V: View>(m: Map<KV, Slot<V>>, k: KV, now: u64, r: Step<V>) -> bool {
    match r {
        Step::Ready(v) => admission_step(m, k, now).1 == Admission::Cached && holds(m, k, v@),
        Step::Wait => admission_step(m, k, now).1 == Admission::Join,
        Step::Fetch => admission_step(m, k, now).1 == Admission::Lead,
    }
}

/// The entries after a caller asks for `k` at `now`, and what it is told to do.
pub open spec fn admission_step<KV, V>(m: Map<KV, Slot<V>>, k: KV, now: u64) -> (Map<KV, Slot<V>>, Admission) {
    if is_fresh(m, k, now) {
        (m, Admission::Cached)
    } else if is_pending(m, k) {
        let w = waiters_of(m, k);
        let w2: u64 = if w < u64::MAX {
            (w + 1) as u64
        } else {
            w
        };
        (m.insert(k, Slot::Pending { waiters: w2 }), Admission::Join)
    } else {
        (m.insert(k, Slot::Pending { waiters: 0 }), Admission::Lead)
    }
}

/// The entries after the computation for `k` ended at `now`: a value is stored with its
/// expiry, a failure leaves no entry at all.
pub open spec fn settle<KV, V>(m: Map<KV, Slot<V>>, k: KV, outcome: Option<V>, now: u64, ttl: u64) -> Map<
    KV,
    Slot<V>,
> {
    match outcome {
        Some(v) => m.insert(k, Slot::Ready { value: v, expires_at: expiry(now, ttl) }),
        None => m.remove(k),
    }
}

/// A get-or-compute cache with a time to live per entry and at most one computation in
/// flight per key. The clock is handed in by the caller; the computation itself runs
/// outside, between [`Coalescer::begin`] and [`Coalescer::complete`].
pub struct Coalescer<K: CacheKey, V> {
    ttl: u64,
    keys: Vec<K>,
    slots: Vec<Slot<V>>,
    model: Ghost<Map<K::V, Slot<V>>>,
}

impl<K: CacheKey, V> Coalescer<K, V> {
    pub closed spec fn wf(&self) -> bool {
        &&& self.keys.len() == self.slots.len()
        &&& forall|i: int, j: int|
            0 <= i < self.keys.len() && 0 <= j < self.keys.len() && i != j ==> #[trigger] self.keys@[i]@
                != #[trigger] self.keys@[j]@
        &&& forall|i: int|
            0 <= i < self.keys.len() ==> {
                &&& self.model@.contains_key(#[trigger] self.keys@[i]@)
                &&& self.model@[self.keys@[i]@] == self.slots@[i]
            }
        &&& forall|k: K::V|
            #[trigger] self.model@.contains_key(k) ==> exists|i: int|
                0 <= i < self.keys.len() && #[trigger] self.keys@[i]@ == k
    }

    /// The entries, by key.
    pub closed spec fn slots(&self) -> Map<K::V, Slot<V>> {
        self.model@
    }

    pub closed spec fn ttl(&self) -> u64 {
        self.ttl
    }

    pub fn new(ttl: u64) -> (r: Self)
        ensures
            r.wf(),
            r.ttl() == ttl,
            r.slots() == Map::<K::V, Slot<V>>::empty(),
    {
        Coalescer { ttl, keys: Vec::new(), slots: Vec::new(), model: Ghost(Map::empty()) }
    }

    pub fn time_to_live(&self) -> (r: u64)
        ensures
            r == self.ttl(),
    {
        self.ttl
    }

    fn find(&self, key: &K) -> (r: Option<usize>)
        requires
            self.wf(),
        ensures
            match r {
                Some(i) => i < self.keys.len() && self.keys@[i as int]@ == key@,
                None => !self.slots().contains_key(key@),
            },
    {
        let mut i: usize = 0;
        while i < self.keys.len()
            invariant
                self.wf(),
                i <= self.keys.len(),
                forall|j: int| 0 <= j < i ==> #[trigger] self.keys@[j]@ != key@,
            decreases self.keys.len() - i,
        {
            if self.keys[i].same_key(key) {
                return Some(i);
            }
            i = i + 1;
        }
        None
    }

    /// The fresh value stored for `key` at `now`, if there is one.
    pub fn lookup(&self, key: &K, now: u64) -> (r: Option<&V>)
        requires
            self.wf(),
        ensures
            match r {
                Some(v) => is_fresh(self.slots(), key@, now) && stored_value(self.slots(), key@)
                    == Some(*v),
                None => !is_fresh(self.slots(), key@, now),
            },
    {
        match self.find(key) {
            Some(i) => match &self.slots[i] {
                Slot::Ready { value, expires_at } => {
                    if now < *expires_at {
                        Some(value)
                    } else {
                        None
                    }
                },
                Slot::Pending { .. } => None,
            },
            None => None,
        }
    }

    /// Registers a caller that needs the value for `key` at `now`.
    pub fn begin(&mut self, key: &K, now: u64) -> (r: Admission)
        requires
            old(self).wf(),
        ensures
            final(self).wf(),
            final(self).ttl() == old(self).ttl(),
            (final(self).slots(), r) == admission_step(old(self).slots(), key@, now),
    {
        let ghost old_model = self.model@;
        match self.find(key) {
            Some(i) => {
                let pending: Option<u64> = match &self.slots[i] {
                    Slot::Ready { expires_at, .. } => {
                        if now < *expires_at {
                            return Admission::Cached;
                        }
                        None
                    },
                    Slot::Pending { waiters } => Some(*waiters),
                };
                let (w2, r) = match pending {
                    Some(w) => {
                        let w2: u64 = if w < u64::MAX {
                            w + 1
                        } else {
                            w
                        };
                        (w2, Admission::Join)
                    },
                    None => (0, Admission::Lead),
                };
                self.slots.set(i, Slot::Pending { waiters: w2 });
                self.model = Ghost(self.model@.insert(key@, Slot::Pending { waiters: w2 }));
                assert forall|k: K::V| #[trigger] self.model@.contains_key(k) implies exists|j: int|
                    0 <= j < self.keys.len() && #[trigger] self.keys@[j]@ == k by {
                    if k == key@ {
                        assert(self.keys@[i as int]@ == k);
                    } else {
                        assert(old_model.contains_key(k));
                    }
                }
                r
            },
            None => {
                let ghost old_keys = self.keys@;
                self.keys.push(key.copy_key());
                self.slots.push(Slot::Pending { waiters: 0 });
                self.model = Ghost(self.model@.insert(key@, Slot::Pending { waiters: 0 }));
                assert forall|k: K::V| #[trigger] self.model@.contains_key(k) implies exists|j: int|
                    0 <= j < self.keys.len() && #[trigger] self.keys@[j]@ == k by {
                    if k == key@ {
                        assert(self.keys@[old_keys.len() as int]@ == k);
                    } else {
                        let j = choose|j: int| 0 <= j < old_keys.len() && #[trigger] old_keys[j]@ == k;
                        assert(self.keys@[j]@ == k);
                    }
                }
                Admission::Lead
            },
        }
    }

    /// Reports how the computation for `key` ended at `now` (`None` for a failure) and
    /// returns how many joined callers wait for that outcome.
    pub fn complete(&mut self, key: &K, outcome: Option<V>, now: u64) -> (released: u64)
        requires
            old(self).wf(),
        ensures
            final(self).wf(),
            final(self).ttl() == old(self).ttl(),
            final(self).slots() == settle(old(self).slots(), key@, outcome, now, old(self).ttl()),
            released == waiters_of(old(self).slots(), key@),
    {
        let expires_at: u64 = if now > u64::MAX - self.ttl {
            u64::MAX
        } else {
            now + self.ttl
        };
        let ghost old_keys = self.keys@;
        let ghost old_model = self.model@;
        match self.find(key) {
            Some(i) => {
                let released: u64 = match &self.slots[i] {
                    Slot::Pending { waiters } => *waiters,
                    Slot::Ready { .. } => 0,
                };
                match outcome {
                    Some(v) => {
                        let ghost gv = v;
                        self.slots.set(i, Slot::Ready { value: v, expires_at });
                        self.model = Ghost(
                            self.model@.insert(key@, Slot::Ready { value: gv, expires_at }),
                        );
                        assert forall|k: K::V| #[trigger] self.model@.contains_key(k) implies exists|
                            j: int,
                        | 0 <= j < self.keys.len() && #[trigger] self.keys@[j]@ == k by {
                            if k == key@ {
                                assert(self.keys@[i as int]@ == k);
                            } else {
                                assert(old_model.contains_key(k));
                                let j = choose|j: int|
                                    0 <= j < old_keys.len() && #[trigger] old_keys[j]@ == k;
                                assert(self.keys@[j]@ == k);
                            }
                        }
                    },
                    None => {
                        self.keys.remove(i);
                        self.slots.remove(i);
                        self.model = Ghost(self.model@.remove(key@));
                        assert forall|j: int| 0 <= j < self.keys.len() implies {
                            &&& self.model@.contains_key(#[trigger] self.keys@[j]@)
                            &&& self.model@[self.keys@[j]@] == self.slots@[j]
                        } by {
                            if j < i {
                                assert(self.keys@[j] == old_keys[j]);
                            } else {
                                assert(self.keys@[j] == old_keys[j + 1]);
                            }
                        }
                        assert forall|k: K::V| #[trigger] self.model@.contains_key(k) implies exists|
                            j: int,
                        | 0 <= j < self.keys.len() && #[trigger] self.keys@[j]@ == k by {
                            let j = choose|j: int| 0 <= j < old_keys.len() && #[trigger] old_keys[j]@ == k;
                            if j < i {
                                assert(self.keys@[j]@ == k);
                            } else {
                                assert(self.keys@[j - 1]@ == k);
                            }
                        }
                    },
                }
                released
            },
            None => {
                match outcome {
                    Some(v) => {
                        let ghost gv = v;
                        self.keys.push(key.copy_key());
                        self.slots.push(Slot::Ready { value: v, expires_at });
                        self.model = Ghost(
                            self.model@.insert(key@, Slot::Ready { value: gv, expires_at }),
                        );
                        assert forall|k: K::V| #[trigger] self.model@.contains_key(k) implies exists|
                            j: int,
                        | 0 <= j < self.keys.len() && #[trigger] self.keys@[j]@ == k by {
                            if k == key@ {
                                assert(self.keys@[old_keys.len() as int]@ == k);
                            } else {
                                let j = choose|j: int|
                                    0 <= j < old_keys.len() && #[trigger] old_keys[j]@ == k;
                                assert(self.keys@[j]@ == k);
                            }
                        }
                    },
                    None => {
                        assert(self.model@.remove(key@) =~= self.model@);
                    },
                }
                0
            },
        }
    }

    /// Registers a caller that needs the value for `key` at `now`, and hands it a copy
    /// of the value when a fresh one is stored.
    pub fn acquire(&mut self, key: &K, now: u64) -> (r: Step<V>) where V: Duplicate
        requires
            old(self).wf(),
        ensures
            final(self).wf(),
            final(self).ttl() == old(self).ttl(),
            final(self).slots() == admission_step(old(self).slots(), key@, now).0,
            step_agrees(old(self).slots(), key@, now, r),
    {
        match self.begin(key, now) {
            Admission::Cached => match self.lookup(key, now) {
                Some(v) => Step::Ready(v.duplicate()),
                None => Step::Fetch,
            },
            Admission::Join => Step::Wait,
            Admission::Lead => Step::Fetch,
        }
    }

    /// Reports the outcome of the computation for `key` at `now`: a value is stored and
    /// a copy handed back, an error is handed back and nothing is stored. Also returns
    /// how many joined callers wait for that outcome.
    pub fn finish<E>(&mut self, key: &K, outcome: Result<V, E>, now: u64) -> (r: (Result<V, E>, u64)) where
        V: Duplicate,
        requires
            old(self).wf(),
        ensures
            final(self).wf(),
            final(self).ttl() == old(self).ttl(),
            final(self).slots() == settle(old(self).slots(), key@, ok_value(outcome), now, old(self).ttl()),
            r.1 == waiters_of(old(self).slots(), key@),
            same_outcome(r.0, outcome),
    {
        match outcome {
            Ok(v) => {
                let copy = v.duplicate();
                let released = self.complete(key, Some(v), now);
                (Ok(copy), released)
            },
            Err(e) => {
                let released = self.complete(key, None, now);
                (Err(e), released)
            },
        }
    }
}
} // verus!
