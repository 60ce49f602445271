use vstd::prelude::*;
use vstd::string::StringSliceAdditionalSpecFns;

verus! {

/// The exact, deterministic key of a cached computation: a sequence of words.
pub struct Fingerprint {
    words: Vec<u64>,
}

impl View for Fingerprint {
    type V = Seq<u64>;

    closed spec fn view(&self) -> Seq<u64> {
        self.words@
    }
}

/// The fingerprint of a query string: its UTF-8 bytes, one word each.
pub open spec fn query_words(q: &str) -> Seq<u64> {
    q.spec_bytes().map_values(|b: u8| b as u64)
}

impl Fingerprint {
    /// The fingerprint made of exactly these words (bit patterns of numbers, say).
    pub fn from_words(words: Vec<u64>) -> (r: Fingerprint)
        ensures
            r@ == words@,
    {
        Fingerprint { words }
    }

    /// The fingerprint of a query string.
    pub fn of_query(q: &str) -> (r: Fingerprint)
        ensures
            r@ == query_words(q),
    {
        let bytes = q.as_bytes();
        let mut words: Vec<u64> = Vec::new();
        let mut i: usize = 0;
        while i < bytes.len()
            invariant
                bytes@ == q.spec_bytes(),
                i <= bytes@.len(),
                words@ == bytes@.subrange(0, i as int).map_values(|b: u8| b as u64),
            decreases bytes@.len() - i,
        {
            words.push(bytes[i] as u64);
            i = i + 1;
            assert(words@ =~= bytes@.subrange(0, i as int).map_values(|b: u8| b as u64));
        }
        assert(bytes@.subrange(0, i as int) =~= bytes@);
        Fingerprint { words }
    }

    /// Whether the two fingerprints are equal, word by word.
    pub fn same(&self, other: &Fingerprint) -> (r: bool)
        ensures
            r == (self@ == other@),
    {
        if self.words.len() != other.words.len() {
            return false;
        }
        let mut i: usize = 0;
        while i < self.words.len()
            invariant
                self.words@.len() == other.words@.len(),
                i <= self.words@.len(),
                forall|j: int| 0 <= j < i ==> self.words@[j] == other.words@[j],
            decreases self.words@.len() - i,
        {
            if self.words[i] != other.words[i] {
                return false;
            }
            i = i + 1;
        }
        assert(self@ =~= other@);
        true
    }

    /// A fingerprint equal to this one.
    pub fn duplicate(&self) -> (r: Fingerprint)
        ensures
            r@ == self@,
    {
        let mut words: Vec<u64> = Vec::new();
        let mut i: usize = 0;
        while i < self.words.len()
            invariant
                i <= self.words@.len(),
                words@ == self.words@.subrange(0, i as int),
            decreases self.words@.len() - i,
        {
            words.push(self.words[i]);
            i = i + 1;
            assert(words@ =~= self.words@.subrange(0, i as int));
        }
        assert(words@ =~= self.words@);
        Fingerprint { words }
    }
}

/// The state of one key of a cache: its computation is running, or its value is stored.
pub enum Slot<V> {
    Pending,
    Ready(V),
}

/// What a caller asking for a key is to do next.
#[derive(PartialEq, Eq, Structural)]
pub enum Step {
    /// Nobody computes the value yet: this caller computes it and stores it.
    Compute,
    /// Another caller computes the value: wait, then ask again.
    Wait,
    /// The value is stored: read it.
    Ready,
}

/// The model of a cache: a map from fingerprint to slot.
pub type CacheModel<V> = Map<Seq<u64>, Slot<V>>;

/// The step that asking for `k` yields in a cache whose model is `m`.
pub open spec fn step_of<V>(m: CacheModel<V>, k: Seq<u64>) -> Step {
    if !m.contains_key(k) {
        Step::Compute
    } else if m[k] is Pending {
        Step::Wait
    } else {
        Step::Ready
    }
}

/// The model after asking for `k`: a key nobody computes is claimed by the asker.
pub open spec fn after_begin<V>(m: CacheModel<V>, k: Seq<u64>) -> CacheModel<V> {
    if m.contains_key(k) {
        m
    } else {
        m.insert(k, Slot::Pending)
    }
}

/// The model after the value `v` of `k` is stored.
pub open spec fn after_complete<V>(m: CacheModel<V>, k: Seq<u64>, v: V) -> CacheModel<V> {
    m.insert(k, Slot::Ready(v))
}

/// The model after a computation of `k` is given up: a claim is released, a value stays.
pub open spec fn after_abandon<V>(m: CacheModel<V>, k: Seq<u64>) -> CacheModel<V> {
    if m.contains_key(k) && m[k] is Pending {
        m.remove(k)
    } else {
        m
    }
}

/// A compute-or-reuse cache keyed by fingerprint. A key is computed by one caller at a
/// time, and a stored value is never replaced by a recomputation.
pub struct MemoCache<V> {
    keys: Vec<Fingerprint>,
    slots: Vec<Slot<V>>,
    model: Ghost<CacheModel<V>>,
}

impl<V> MemoCache<V> {
    /// The map from fingerprint to slot that the cache holds.
    pub closed spec fn view(&self) -> CacheModel<V> {
        self.model@
    }

    /// The keys are unique, and each key's slot is the one the model gives it.
    pub closed spec fn wf(&self) -> bool {
        &&& self.keys@.len() == self.slots@.len()
        &&& forall|i: int, j: int|
            0 <= i < j < self.keys@.len() ==> #[trigger] self.keys@[i]@ != #[trigger] self.keys@[j]@
        &&& forall|i: int|
            0 <= i < self.keys@.len() ==> self.model@.contains_key(#[trigger] self.keys@[i]@)
                && self.model@[self.keys@[i]@] == self.slots@[i]
        &&& forall|k: Seq<u64>|
            #[trigger] self.model@.contains_key(k) ==> exists|i: int|
                0 <= i < self.keys@.len() && self.keys@[i]@ == k
    }

    /// An empty cache.
    pub fn new() -> (r: MemoCache<V>)
        ensures
            r.wf(),
            r.view() == Map::<Seq<u64>, Slot<V>>::empty(),
    {
        MemoCache { keys: Vec::new(), slots: Vec::new(), model: Ghost(Map::empty()) }
    }

    /// The position of `fp` among the keys, if it is there.
    fn find(&self, fp: &Fingerprint) -> (r: Option<usize>)
        requires
            self.wf(),
        ensures
            r matches Some(i) ==> i < self.keys@.len() && self.keys@[i as int]@ == fp@,
            r is None ==> !self.view().contains_key(fp@),
    {
        let mut i: usize = 0;
        while i < self.keys.len()
            invariant
                self.wf(),
                i <= self.keys@.len(),
                forall|j: int| 0 <= j < i ==> self.keys@[j]@ != fp@,
            decreases self.keys@.len() - i,
        {
            if self.keys[i].same(fp) {
                return Some(i);
            }
            i = i + 1;
        }
        None
    }

    /// Whether the value of `fp` is stored.
    pub fn is_ready(&self, fp: &Fingerprint) -> (r: bool)
        requires
            self.wf(),
        ensures
            r == (step_of(self.view(), fp@) == Step::Ready),
    {
        match self.find(fp) {
            Some(i) => matches!(self.slots[i], Slot::Ready(_)),
            None => false,
        }
    }

    /// The stored value of `fp`, if there is one.
    pub fn get(&self, fp: &Fingerprint) -> (r: Option<&V>)
        requires
            self.wf(),
        ensures
            r matches Some(v) ==> self.view().contains_key(fp@)
                && self.view()[fp@] == Slot::Ready(*v),
            r is None ==> step_of(self.view(), fp@) != Step::Ready,
    {
        match self.find(fp) {
            Some(i) => match &self.slots[i] {
                Slot::Ready(v) => Some(v),
                Slot::Pending => None,
            },
            None => None,
        }
    }

    /// Asks for `fp`: says whether to compute, wait or read, and claims an unclaimed key
    /// for the asker.
    pub fn begin(&mut self, fp: &Fingerprint) -> (r: Step)
        requires
            old(self).wf(),
        ensures
            final(self).wf(),
            r == step_of(old(self).view(), fp@),
            final(self).view() == after_begin(old(self).view(), fp@),
    {
        match self.find(fp) {
            Some(i) => {
                if matches!(self.slots[i], Slot::Ready(_)) {
                    Step::Ready
                } else {
                    Step::Wait
                }
            },
            None => {
                let ghost k = fp@;
                self.keys.push(fp.duplicate());
                self.slots.push(Slot::Pending);
                self.model = Ghost(self.model@.insert(k, Slot::Pending));
                proof {
                    let n = self.keys@.len() - 1;
                    assert(self.keys@[n]@ == k);
                    assert forall|kk: Seq<u64>| #[trigger] self.model@.contains_key(kk)
                        implies exists|i: int| 0 <= i < self.keys@.len() && self.keys@[i]@ == kk by {
                        if kk == k {
                            assert(self.keys@[n]@ == kk);
                        } else {
                            let i = choose|i: int| 0 <= i < old(self).keys@.len()
                                && old(self).keys@[i]@ == kk;
                            assert(self.keys@[i]@ == kk);
                        }
                    }
                }
                Step::Compute
            },
        }
    }

    /// Stores `v` as the value of `fp`.
    pub fn complete(&mut self, fp: &Fingerprint, v: V)
        requires
            old(self).wf(),
        ensures
            final(self).wf(),
            final(self).view() == after_complete(old(self).view(), fp@, v),
    {
        let ghost k = fp@;
        let ghost gv = v;
        match self.find(fp) {
            Some(i) => {
                self.slots[i] = Slot::Ready(v);
                self.model = Ghost(self.model@.insert(k, Slot::Ready(gv)));
                proof {
                    assert forall|j: int| 0 <= j < self.keys@.len() implies
                        self.model@.contains_key(#[trigger] self.keys@[j]@)
                        && self.model@[self.keys@[j]@] == self.slots@[j] by {
                        if j != i {
                            assert(self.keys@[j]@ != k);
                        }
                    }
                    assert forall|kk: Seq<u64>| #[trigger] self.model@.contains_key(kk)
                        implies exists|j: int| 0 <= j < self.keys@.len() && self.keys@[j]@ == kk by {
                        if kk == k {
                            assert(self.keys@[i as int]@ == kk);
                        } else {
                            assert(old(self).model@.contains_key(kk));
                        }
                    }
                }
            },
            None => {
                self.keys.push(fp.duplicate());
                self.slots.push(Slot::Ready(v));
                self.model = Ghost(self.model@.insert(k, Slot::Ready(gv)));
                proof {
                    let n = self.keys@.len() - 1;
                    assert(self.keys@[n]@ == k);
                    assert forall|kk: Seq<u64>| #[trigger] self.model@.contains_key(kk)
                        implies exists|i: int| 0 <= i < self.keys@.len() && self.keys@[i]@ == kk by {
                        if kk == k {
                            assert(self.keys@[n]@ == kk);
                        } else {
                            let i = choose|i: int| 0 <= i < old(self).keys@.len()
                                && old(self).keys@[i]@ == kk;
                            assert(self.keys@[i]@ == kk);
                        }
                    }
                }
            },
        }
    }

    /// Gives up the computation of `fp`: a claim on it is released, so that the next
    /// asker computes it; a stored value stays.
    pub fn abandon(&mut self, fp: &Fingerprint)
        requires
            old(self).wf(),
        ensures
            final(self).wf(),
            final(self).view() == after_abandon(old(self).view(), fp@),
    {
        let ghost k = fp@;
        match self.find(fp) {
            Some(i) => {
                if matches!(self.slots[i], Slot::Pending) {
                    let ghost ok = self.keys@;
                    let ghost os = self.slots@;
                    self.keys.remove(i);
                    self.slots.remove(i);
                    self.model = Ghost(self.model@.remove(k));
                    proof {
                        assert forall|a: int, b: int| 0 <= a < b < self.keys@.len() implies
                            #[trigger] self.keys@[a]@ != #[trigger] self.keys@[b]@ by {
                            let oa = if a < i { a } else { a + 1 };
                            let ob = if b < i { b } else { b + 1 };
                            assert(self.keys@[a] == ok[oa]);
                            assert(self.keys@[b] == ok[ob]);
                        }
                        assert forall|j: int| 0 <= j < self.keys@.len() implies
                            self.model@.contains_key(#[trigger] self.keys@[j]@)
                            && self.model@[self.keys@[j]@] == self.slots@[j] by {
                            let oj = if j < i { j } else { j + 1 };
                            assert(self.keys@[j] == ok[oj]);
                            assert(self.slots@[j] == os[oj]);
                            assert(ok[oj]@ != k);
                        }
                        assert forall|kk: Seq<u64>| #[trigger] self.model@.contains_key(kk)
                            implies exists|j: int| 0 <= j < self.keys@.len() && self.keys@[j]@ == kk by {
                            let oj = choose|oj: int| 0 <= oj < ok.len() && ok[oj]@ == kk;
                            assert(oj != i);
                            let j = if oj < i { oj } else { oj - 1 };
                            assert(self.keys@[j] == ok[oj]);
                        }
                    }
                }
            },
            None => {},
        }
    }

    /// Reuses the stored value of `fp`, or, where nobody has claimed `fp`, calls `compute`
    /// once and stores its result. A key that another caller computes is left alone.
    pub fn get_or_compute<F: FnOnce() -> V>(&mut self, fp: &Fingerprint, compute: F) -> (r: Step)
        requires
            old(self).wf(),
            compute.requires(()),
        ensures
            final(self).wf(),
            r == step_of(old(self).view(), fp@),
            r != Step::Compute ==> final(self).view() == old(self).view(),
            r == Step::Compute ==> exists|v: V| compute.ensures((), v)
                && final(self).view() == after_complete(old(self).view(), fp@, v),
    {
        let step = self.begin(fp);
        if step == Step::Compute {
            let v = compute();
            self.complete(fp, v);
            assert(self.view() =~= after_complete(old(self).view(), fp@, v));
        }
        step
    }
}

/// At most one caller computes a key. Once a key is claimed, a second caller asking for it
/// waits instead of computing; once its value is stored, every caller reads that value and
/// asking changes nothing.
pub proof fn lemma_single_flight<V>(m: CacheModel<V>, k: Seq<u64>, v: V)
    requires
        step_of(m, k) == Step::Compute,
    ensures
        step_of(after_begin(m, k), k) == Step::Wait,
        step_of(after_complete(after_begin(m, k), k, v), k) == Step::Ready,
        after_complete(after_begin(m, k), k, v)[k] == Slot::Ready(v),
        after_begin(after_complete(after_begin(m, k), k, v), k)
            == after_complete(after_begin(m, k), k, v),
{
}

/// A stored value is reused, never recomputed: asking for its key yields it unchanged.
pub proof fn lemma_stored_value_is_reused<V>(m: CacheModel<V>, k: Seq<u64>, v: V)
    requires
        m.contains_key(k),
        m[k] == Slot::Ready(v),
    ensures
        step_of(m, k) == Step::Ready,
        after_begin(m, k) == m,
        after_begin(m, k)[k] == Slot::Ready(v),
{
}

/// Keys do not block each other: claiming, storing or giving up one key leaves what a
/// caller asking for another key is told unchanged.
pub proof fn lemma_keys_are_independent<V>(m: CacheModel<V>, k1: Seq<u64>, k2: Seq<u64>, v: V)
    requires
        k1 != k2,
    ensures
        step_of(after_begin(m, k1), k2) == step_of(m, k2),
        step_of(after_complete(m, k1, v), k2) == step_of(m, k2),
        step_of(after_abandon(m, k1), k2) == step_of(m, k2),
{
}

} // verus!
