//! An association list from resource identifiers to instance numbers.
//!
//! The cache keys three of these by identifier. An identifier is compared
//! by its characters, and occurs at most once in a table.

use vstd::prelude::*;

verus! {

/// A finite map from identifiers to instance numbers, kept as two vectors
/// of equal length.
pub struct Table {
    keys: Vec<String>,
    values: Vec<u64>,
}

impl View for Table {
    type V = Map<Seq<char>, u64>;

    closed spec fn view(&self) -> Map<Seq<char>, u64> {
        Map::new(
            |k: Seq<char>| position(self.keys@, k).is_some(),
            |k: Seq<char>| self.values@[position(self.keys@, k).unwrap()],
        )
    }
}

/// Some position at which `k` stands among `keys`, if there is one.
spec fn position(keys: Seq<String>, k: Seq<char>) -> Option<int> {
    if exists|i: int| 0 <= i < keys.len() && (#[trigger] keys[i])@ == k {
        Some(choose|i: int| 0 <= i < keys.len() && (#[trigger] keys[i])@ == k)
    } else {
        None
    }
}

impl Table {
    /// Keys and values stand at matching positions, and no key occurs twice.
    pub closed spec fn wf(&self) -> bool {
        &&& self.keys@.len() == self.values@.len()
        &&& forall|i: int, j: int|
            0 <= i < j < self.keys@.len() ==> (#[trigger] self.keys@[i])@ != (
            #[trigger] self.keys@[j])@
    }

    /// In a well-formed table the entry at position `i` is what the view
    /// holds for the key stored there.
    proof fn lemma_entry(&self, i: int)
        requires
            self.wf(),
            0 <= i < self.keys@.len(),
        ensures
            self@.contains_key(self.keys@[i]@),
            self@[self.keys@[i]@] == self.values@[i],
            position(self.keys@, self.keys@[i]@) == Some(i),
    {
        let k = self.keys@[i]@;
        assert(0 <= i < self.keys@.len() && self.keys@[i]@ == k);
        let j = position(self.keys@, k).unwrap();
        assert(j == i);
    }

    /// A key of the view is stored at some position.
    proof fn lemma_key(&self, k: Seq<char>)
        requires
            self.wf(),
            self@.contains_key(k),
        ensures
            position(self.keys@, k) matches Some(i) && 0 <= i < self.keys@.len() && self.keys@[i]@ == k
                && self@[k] == self.values@[i],
    {
    }

    /// A key stored nowhere is not a key of the view.
    proof fn lemma_absent(&self, k: Seq<char>)
        requires
            forall|i: int| 0 <= i < self.keys@.len() ==> (#[trigger] self.keys@[i])@ != k,
        ensures
            !self@.contains_key(k),
    {
    }

    /// The empty table.
    pub fn new() -> (t: Table)
        ensures
            t.wf(),
            t@ == Map::<Seq<char>, u64>::empty(),
    {
        let t = Table { keys: Vec::new(), values: Vec::new() };
        assert(t@ =~= Map::<Seq<char>, u64>::empty());
        t
    }

    /// Makes room for `additional` more entries; the contents stay.
    pub fn reserve(&mut self, additional: usize)
        requires
            old(self).wf(),
        ensures
            final(self).wf(),
            final(self)@ == old(self)@,
    {
        self.keys.reserve(additional);
        self.values.reserve(additional);
        assert(self@ =~= old(self)@);
    }

    fn find(&self, key: &String) -> (r: Option<usize>)
        requires
            self.wf(),
        ensures
            match r {
                Some(i) => i < self.keys@.len() && self.keys@[i as int]@ == key@,
                None => forall|i: int| 0 <= i < self.keys@.len() ==> (#[trigger] self.keys@[i])@ != key@,
            },
    {
        let mut i: usize = 0;
        while i < self.keys.len()
            invariant
                i <= self.keys@.len(),
                forall|j: int| 0 <= j < i ==> (#[trigger] self.keys@[j])@ != key@,
            decreases self.keys@.len() - i,
        {
            if self.keys[i] == *key {
                return Some(i);
            }
            i += 1;
        }
        None
    }

    /// The instance number stored for `key`, if any.
    pub fn get(&self, key: &String) -> (r: Option<u64>)
        requires
            self.wf(),
        ensures
            r == (if self@.contains_key(key@) {
                Some(self@[key@])
            } else {
                None
            }),
    {
        match self.find(key) {
            Some(i) => {
                proof {
                    self.lemma_entry(i as int);
                }
                Some(self.values[i])
            },
            None => {
                proof {
                    self.lemma_absent(key@);
                }
                None
            },
        }
    }
    /// Whether `key` has an entry.
    pub fn contains_key(&self, key: &String) -> (r: bool)
        requires
            self.wf(),
        ensures
            r == self@.contains_key(key@),
    {
        self.get(key).is_some()
    }

    /// Stores `value` for `key`, in place of what was stored for it before.
    pub fn insert(&mut self, key: String, value: u64)
        requires
            old(self).wf(),
        ensures
            final(self).wf(),
            final(self)@ == old(self)@.insert(key@, value),
    {
        let ghost pre = *self;
        match self.find(&key) {
            Some(i) => {
                self.values.set(i, value);
                proof {
                    let post = *self;
                    assert(post.wf());
                    assert forall|k: Seq<char>| #[trigger]
                        post@.contains_key(k) == pre@.insert(key@, value).contains_key(k) by {
                        pre.lemma_entry(i as int);
                    }
                    assert forall|k: Seq<char>| #[trigger]
                        post@.contains_key(k) implies post@[k] == pre@.insert(key@, value)[k] by {
                        post.lemma_key(k);
                        let j = position(post.keys@, k).unwrap();
                        pre.lemma_entry(j);
                    }
                    assert(post@ =~= pre@.insert(key@, value));
                }
            },
            None => {
                self.keys.push(key);
                self.values.push(value);
                proof {
                    let post = *self;
                    let n = pre.keys@.len() as int;
                    assert(post.wf());
                    post.lemma_entry(n);
                    assert forall|k: Seq<char>| #[trigger]
                        post@.contains_key(k) == pre@.insert(key@, value).contains_key(k) by {
                        if post@.contains_key(k) && k != key@ {
                            post.lemma_key(k);
                            let j = position(post.keys@, k).unwrap();
                            pre.lemma_entry(j);
                        }
                        if pre@.contains_key(k) {
                            pre.lemma_key(k);
                            let j = position(pre.keys@, k).unwrap();
                            assert(post.keys@[j] == pre.keys@[j]);
                            post.lemma_entry(j);
                        }
                    }
                    assert forall|k: Seq<char>| #[trigger]
                        post@.contains_key(k) implies post@[k] == pre@.insert(key@, value)[k] by {
                        post.lemma_key(k);
                        let j = position(post.keys@, k).unwrap();
                        if j < n {
                            pre.lemma_entry(j);
                        }
                    }
                    assert(post@ =~= pre@.insert(key@, value));
                }
            },
        }
    }

    /// Takes the entry of `key` out and returns what was stored for it.
    pub fn remove(&mut self, key: &String) -> (r: Option<u64>)
        requires
            old(self).wf(),
        ensures
            final(self).wf(),
            final(self)@ == old(self)@.remove(key@),
            r == (if old(self)@.contains_key(key@) {
                Some(old(self)@[key@])
            } else {
                None
            }),
    {
        let ghost pre = *self;
        match self.find(key) {
            Some(i) => {
                self.keys.remove(i);
                let v = self.values.remove(i);
                proof {
                    let post = *self;
                    pre.lemma_entry(i as int);
                    assert(post.wf());
                    assert forall|k: Seq<char>| #[trigger]
                        post@.contains_key(k) == pre@.remove(key@).contains_key(k) by {
                        if post@.contains_key(k) {
                            post.lemma_key(k);
                            let j = position(post.keys@, k).unwrap();
                            if j < i {
                                pre.lemma_entry(j);
                            } else {
                                pre.lemma_entry(j + 1);
                            }
                        }
                        if pre@.contains_key(k) && k != key@ {
                            pre.lemma_key(k);
                            let j = position(pre.keys@, k).unwrap();
                            if j < i {
                                post.lemma_entry(j);
                            } else {
                                post.lemma_entry(j - 1);
                            }
                        }
                    }
                    assert forall|k: Seq<char>| #[trigger]
                        post@.contains_key(k) implies post@[k] == pre@.remove(key@)[k] by {
                        post.lemma_key(k);
                        let j = position(post.keys@, k).unwrap();
                        if j < i {
                            pre.lemma_entry(j);
                        } else {
                            pre.lemma_entry(j + 1);
                        }
                    }
                    assert(post@ =~= pre@.remove(key@));
                }
                Some(v)
            },
            None => {
                proof {
                    self.lemma_absent(key@);
                    assert(self@ =~= pre@.remove(key@));
                }
                None
            },
        }
    }

    /// Whether some identifier is mapped to `value`.
    pub fn has_value(&self, value: u64) -> (r: bool)
        requires
            self.wf(),
        ensures
            r == exists|k: Seq<char>| self@.contains_key(k) && #[trigger] self@[k] == value,
    {
        let mut i: usize = 0;
        while i < self.values.len()
            invariant
                self.wf(),
                i <= self.values@.len(),
                forall|j: int| 0 <= j < i ==> #[trigger] self.values@[j] != value,
            decreases self.values@.len() - i,
        {
            if self.values[i] == value {
                proof {
                    self.lemma_entry(i as int);
                }
                return true;
            }
            i += 1;
        }
        proof {
            assert forall|k: Seq<char>| self@.contains_key(k) implies #[trigger] self@[k]
                != value by {
                self.lemma_key(k);
            }
        }
        false
    }
}

} // verus!
