use vstd::prelude::*;

verus! {

/// A keyed cache of texture bindings: one entry per texture key.
///
/// Entries are only added, replaced and removed by the caller; nothing
/// expires on its own. The binding type is whatever the rendering backend
/// uses for a bound texture (a bind group on a GPU), and is opaque here.
pub struct BindingCache<B> {
    keys: Vec<String>,
    bindings: Vec<B>,
    contents: Ghost<Map<Seq<char>, B>>,
}

impl<B> View for BindingCache<B> {
    type V = Map<Seq<char>, B>;

    closed spec fn view(&self) -> Map<Seq<char>, B> {
        self.contents@
    }
}

impl<B> BindingCache<B> {
    /// The keys are pairwise distinct, the two vectors run in parallel, and
    /// the map holds exactly the pairs that they list.
    pub closed spec fn wf(&self) -> bool {
        &&& self.keys@.len() == self.bindings@.len()
        &&& forall|i: int, j: int|
            0 <= i < j < self.keys@.len() ==> #[trigger] self.keys@[i]@ != #[trigger] self.keys@[j]@
        &&& forall|i: int|
            0 <= i < self.keys@.len() ==> #[trigger] self.contents@.contains_key(self.keys@[i]@)
                && self.contents@[self.keys@[i]@] == self.bindings@[i]
        &&& forall|k: Seq<char>|
            #[trigger] self.contents@.contains_key(k) ==> exists|i: int|
                0 <= i < self.keys@.len() && #[trigger] self.keys@[i]@ == k
        &&& self.contents@.dom().finite()
        &&& self.contents@.dom().len() == self.keys@.len()
    }

    /// A well-formed cache holds finitely many entries.
    pub proof fn lemma_finite(&self)
        requires
            self.wf(),
        ensures
            self@.dom().finite(),
    {
    }

    /// An empty cache.
    pub fn new() -> (r: Self)
        ensures
            r.wf(),
            r@ == Map::<Seq<char>, B>::empty(),
            r@.dom().finite(),
    {
        BindingCache { keys: Vec::new(), bindings: Vec::new(), contents: Ghost(Map::empty()) }
    }

    /// The number of cached entries.
    pub fn len(&self) -> (r: usize)
        requires
            self.wf(),
        ensures
            r == self@.len(),
    {
        self.keys.len()
    }

    /// The position of `key` in the entry list, if it is cached.
    fn find(&self, key: &String) -> (r: Option<usize>)
        requires
            self.wf(),
        ensures
            match r {
                Some(i) => i < self.keys@.len() && self.keys@[i as int]@ == key@,
                None => !self@.contains_key(key@),
            },
    {
        let mut i: usize = 0;
        while i < self.keys.len()
            invariant
                self.wf(),
                i <= self.keys@.len(),
                forall|j: int| 0 <= j < i ==> self.keys@[j]@ != key@,
            decreases self.keys@.len() - i,
        {
            if self.keys[i] == *key {
                return Some(i);
            }
            i = i + 1;
        }
        None
    }

    /// Whether `key` has an entry.
    pub fn contains_key(&self, key: &String) -> (r: bool)
        requires
            self.wf(),
        ensures
            r == self@.contains_key(key@),
    {
        match self.find(key) {
            Some(_) => true,
            None => false,
        }
    }

    /// The binding cached under `key`, if any.
    pub fn get(&self, key: &String) -> (r: Option<&B>)
        requires
            self.wf(),
        ensures
            match r {
                Some(b) => self@.contains_key(key@) && *b == self@[key@],
                None => !self@.contains_key(key@),
            },
    {
        match self.find(key) {
            Some(i) => {
                proof {
                    assert(self.contents@.contains_key(self.keys@[i as int]@));
                }
                Some(&self.bindings[i])
            },
            None => None,
        }
    }

    /// Caches `binding` under `key`. An entry already under `key` is
    /// replaced, not duplicated, and handed back.
    pub fn upsert(&mut self, key: String, binding: B) -> (r: Option<B>)
        requires
            old(self).wf(),
        ensures
            final(self).wf(),
            final(self)@ == old(self)@.insert(key@, binding),
            final(self)@.dom().finite(),
            match r {
                Some(prev) => old(self)@.contains_key(key@) && prev == old(self)@[key@],
                None => !old(self)@.contains_key(key@),
            },
    {
        let ghost k = key@;
        let ghost b = binding;
        match self.find(&key) {
            Some(i) => {
                self.bindings.push(binding);
                let prev = self.bindings.swap_remove(i);
                proof {
                    self.contents@ = self.contents@.insert(k, b);
                    assert(self.contents@.dom() =~= old(self).contents@.dom());
                    assert forall|j: int| 0 <= j < self.keys@.len() implies
                        #[trigger] self.contents@.contains_key(self.keys@[j]@)
                        && self.contents@[self.keys@[j]@] == self.bindings@[j] by {
                        if j != i {
                            assert(self.bindings@[j] == old(self).bindings@[j]);
                            assert(old(self).keys@[j]@ != k);
                            assert(old(self).contents@.contains_key(old(self).keys@[j]@));
                        }
                    }
                    assert forall|k2: Seq<char>| #[trigger] self.contents@.contains_key(k2)
                        implies exists|j: int| 0 <= j < self.keys@.len() && #[trigger] self.keys@[j]@ == k2 by {
                        if k2 != k {
                            assert(old(self).contents@.contains_key(k2));
                            let j = choose|j: int| 0 <= j < old(self).keys@.len() && #[trigger] old(self).keys@[j]@ == k2;
                            assert(self.keys@[j]@ == k2);
                        } else {
                            assert(self.keys@[i as int]@ == k2);
                        }
                    }
                }
                Some(prev)
            },
            None => {
                self.keys.push(key);
                self.bindings.push(binding);
                proof {
                    self.contents@ = self.contents@.insert(k, b);
                    let n = self.keys@.len() - 1;
                    assert(self.keys@[n]@ == k);
                    assert forall|k2: Seq<char>| #[trigger] self.contents@.contains_key(k2)
                        implies exists|j: int| 0 <= j < self.keys@.len() && #[trigger] self.keys@[j]@ == k2 by {
                        if k2 != k {
                            assert(old(self).contents@.contains_key(k2));
                            let j = choose|j: int| 0 <= j < old(self).keys@.len() && #[trigger] old(self).keys@[j]@ == k2;
                            assert(self.keys@[j]@ == k2);
                        }
                    }
                }
                None
            },
        }
    }

    /// Removes the entry under `key`, handing its binding back. A key with
    /// no entry leaves the cache as it was.
    pub fn evict(&mut self, key: &String) -> (r: Option<B>)
        requires
            old(self).wf(),
        ensures
            final(self).wf(),
            final(self)@ == old(self)@.remove(key@),
            final(self)@.dom().finite(),
            match r {
                Some(prev) => old(self)@.contains_key(key@) && prev == old(self)@[key@],
                None => !old(self)@.contains_key(key@),
            },
    {
        match self.find(key) {
            Some(i) => {
                let ghost k = key@;
                let _ = self.keys.remove(i);
                let prev = self.bindings.remove(i);
                proof {
                    self.contents@ = self.contents@.remove(k);
                    assert forall|j: int| 0 <= j < self.keys@.len() implies
                        #[trigger] self.contents@.contains_key(self.keys@[j]@)
                        && self.contents@[self.keys@[j]@] == self.bindings@[j] by {
                        if j < i {
                            assert(self.keys@[j] == old(self).keys@[j]);
                            assert(self.bindings@[j] == old(self).bindings@[j]);
                            assert(old(self).keys@[j]@ != k);
                            assert(old(self).contents@.contains_key(old(self).keys@[j]@));
                        } else {
                            assert(self.keys@[j] == old(self).keys@[j + 1]);
                            assert(self.bindings@[j] == old(self).bindings@[j + 1]);
                            assert(old(self).keys@[j + 1]@ != k);
                            assert(old(self).contents@.contains_key(old(self).keys@[j + 1]@));
                        }
                    }
                    assert forall|k2: Seq<char>| #[trigger] self.contents@.contains_key(k2)
                        implies exists|j: int| 0 <= j < self.keys@.len() && #[trigger] self.keys@[j]@ == k2 by {
                        let j = choose|j: int| 0 <= j < old(self).keys@.len() && #[trigger] old(self).keys@[j]@ == k2;
                        if j < i {
                            assert(self.keys@[j]@ == k2);
                        } else {
                            assert(self.keys@[j - 1]@ == k2);
                        }
                    }
                }
                Some(prev)
            },
            None => {
                proof {
                    assert(self.contents@.remove(key@) =~= self.contents@);
                }
                None
            },
        }
    }
}

} // verus!
