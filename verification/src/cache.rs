//! A bounded cache with least-recently-used eviction.
//!
//! The cache memoizes derived artifacts by their exact source text. Entries
//! are held in recency order, most recent first; inserting past the fixed
//! capacity drops the least recently used entry. An entry is immutable once
//! inserted: a lookup hands back exactly the value that was stored, so every
//! caller that asks for the same key converges on the same artifact.

use vstd::prelude::*;

verus! {

/// Whether `s` holds an entry with key `k`.
pub open spec fn has_key<T>(s: Seq<(Seq<char>, T)>, k: Seq<char>) -> bool {
    exists|i: int| 0 <= i < s.len() && s[i].0 == k
}

/// The position of the entry with key `k` (meaningful when the keys are
/// unique and `k` is present).
pub open spec fn key_idx<T>(s: Seq<(Seq<char>, T)>, k: Seq<char>) -> int {
    choose|i: int| 0 <= i < s.len() && s[i].0 == k
}

/// The value stored under key `k`.
pub open spec fn value_at<T>(s: Seq<(Seq<char>, T)>, k: Seq<char>) -> T {
    s[key_idx(s, k)].1
}

/// Whether every key occurs at most once.
pub open spec fn unique_keys<T>(s: Seq<(Seq<char>, T)>) -> bool {
    forall|i: int, j: int| 0 <= i < j < s.len() ==> s[i].0 != s[j].0
}

/// The entries after moving the entry with key `k` to the front.
pub open spec fn promoted<T>(s: Seq<(Seq<char>, T)>, k: Seq<char>) -> Seq<(Seq<char>, T)> {
    seq![s[key_idx(s, k)]] + s.remove(key_idx(s, k))
}

/// The entries after inserting `(k, v)` at the front of `s` under capacity
/// `cap`: the least recently used entry is dropped when `s` is full.
pub open spec fn inserted<T>(
    s: Seq<(Seq<char>, T)>,
    k: Seq<char>,
    v: T,
    cap: nat,
) -> Seq<(Seq<char>, T)> {
    if s.len() < cap {
        seq![(k, v)] + s
    } else {
        seq![(k, v)] + s.drop_last()
    }
}

/// A bounded most-recently-used-first cache from source text to an
/// artifact.
pub struct LruCache<T> {
    entries: Vec<(String, T)>,
    cap: usize,
}

impl<T> View for LruCache<T> {
    type V = Seq<(Seq<char>, T)>;

    closed spec fn view(&self) -> Seq<(Seq<char>, T)> {
        self.entries@.map_values(|p: (String, T)| (p.0@, p.1))
    }
}

impl<T> LruCache<T> {
    /// The fixed capacity the cache was created with.
    pub closed spec fn cap_spec(self) -> nat {
        self.cap as nat
    }

    /// The cache's invariant: a positive capacity bounds the entry count,
    /// and no key occurs twice.
    pub open spec fn wf(self) -> bool {
        &&& self.cap_spec() >= 1
        &&& self@.len() <= self.cap_spec()
        &&& unique_keys(self@)
    }

    /// Creates an empty cache of capacity `cap`.
    pub fn new(cap: usize) -> (r: LruCache<T>)
        requires
            cap >= 1,
        ensures
            r.wf(),
            r.cap_spec() == cap,
            r@ == Seq::<(Seq<char>, T)>::empty(),
    {
        let r = LruCache { entries: Vec::new(), cap };
        proof {
            assert(r@ =~= Seq::<(Seq<char>, T)>::empty());
        }
        r
    }

    /// The number of entries.
    pub fn len(&self) -> (r: usize)
        ensures
            r == self@.len(),
    {
        self.entries.len()
    }

    /// The position of the entry whose key reads `k`, if one is held.
    fn find(&self, k: &String) -> (r: Option<usize>)
        requires
            self.wf(),
        ensures
            match r {
                Some(i) => {
                    &&& has_key(self@, k@)
                    &&& 0 <= i < self@.len()
                    &&& self@[i as int].0 == k@
                    &&& key_idx(self@, k@) == i
                },
                None => !has_key(self@, k@),
            },
    {
        let n = self.entries.len();
        let mut i: usize = 0;
        while i < n
            invariant
                self.wf(),
                0 <= i <= n,
                n == self@.len(),
                forall|j: int| 0 <= j < i ==> (#[trigger] self@[j].0) != k@,
            decreases n - i,
        {
            proof {
                assert(self@[i as int] == (self.entries@[i as int].0@, self.entries@[i as int].1));
            }
            if self.entries[i].0.eq(k) {
                proof {
                    assert(self@[i as int].0 == k@);
                    let w = key_idx(self@, k@);
                    assert(0 <= w < self@.len() && self@[w].0 == k@);
                    assert(w == i) by {
                        if w < i as int {
                            assert(self@[w].0 != self@[i as int].0);
                        }
                    }
                }
                return Some(i);
            }
            i = i + 1;
        }
        None
    }

    /// Whether the cache holds an entry under `k`; a held entry moves to
    /// the front, and nothing else changes.
    pub fn promote(&mut self, k: &String) -> (found: bool)
        requires
            old(self).wf(),
        ensures
            final(self).wf(),
            final(self).cap_spec() == old(self).cap_spec(),
            found == has_key(old(self)@, k@),
            !found ==> final(self)@ == old(self)@,
            found ==> final(self)@ == promoted(old(self)@, k@),
            found ==> has_key(final(self)@, k@) && value_at(final(self)@, k@) == value_at(old(self)@, k@),
    {
        let ghost pre = self@;
        match self.find(k) {
            None => false,
            Some(i) => {
                let e = self.entries.remove(i);
                self.entries.insert(0, e);
                proof {
                    let gi = i as int;
                    assert(self@ =~= seq![pre[gi]] + pre.remove(gi));
                    assert(self@ == promoted(pre, k@));
                    assert(unique_keys(self@)) by {
                        assert forall|x: int, y: int| 0 <= x < y < self@.len() implies
                            self@[x].0 != self@[y].0 by {
                            let map_back = |z: int| if z == 0 { gi } else if z <= gi { z - 1 } else { z };
                            assert(self@[x] == pre[map_back(x)]);
                            assert(self@[y] == pre[map_back(y)]);
                        }
                    }
                    assert(self@[0].0 == k@);
                    assert(key_idx(self@, k@) == 0) by {
                        let w = key_idx(self@, k@);
                        assert(0 <= w < self@.len() && self@[w].0 == k@);
                        if w != 0 {
                            assert(self@[0].0 != self@[w].0);
                        }
                    }
                    assert(value_at(self@, k@) == value_at(pre, k@));
                }
                true
            }
        }
    }

    /// The value held under `k`, if any, exactly as it was inserted.
    pub fn peek(&self, k: &String) -> (r: Option<&T>)
        requires
            self.wf(),
        ensures
            match r {
                Some(v) => has_key(self@, k@) && *v == value_at(self@, k@),
                None => !has_key(self@, k@),
            },
    {
        match self.find(k) {
            None => None,
            Some(i) => Some(&self.entries[i].1),
        }
    }

    /// Stores `v` under the absent key `k` at the front; the least
    /// recently used entry is dropped when the cache is full.
    pub fn insert(&mut self, k: String, v: T)
        requires
            old(self).wf(),
            !has_key(old(self)@, k@),
        ensures
            final(self).wf(),
            final(self).cap_spec() == old(self).cap_spec(),
            final(self)@ == inserted(old(self)@, k@, v, old(self).cap_spec()),
            has_key(final(self)@, k@) && value_at(final(self)@, k@) == v,
    {
        let ghost pre = self@;
        if self.entries.len() >= self.cap {
            let _ = self.entries.pop();
            proof {
                assert(self@ =~= pre.drop_last());
            }
        }
        let ghost mid = self@;
        self.entries.insert(0, (k, v));
        proof {
            assert(self@ =~= seq![(k@, v)] + mid);
            assert(self@ == inserted(pre, k@, v, old(self).cap_spec()));
            assert(unique_keys(self@)) by {
                assert forall|x: int, y: int| 0 <= x < y < self@.len() implies
                    self@[x].0 != self@[y].0 by {
                    assert(self@[y] == mid[y - 1]);
                    if x > 0 {
                        assert(self@[x] == mid[x - 1]);
                        assert(pre[x - 1] == mid[x - 1] && pre[y - 1] == mid[y - 1]);
                    } else {
                        assert(self@[0].0 == k@);
                        if mid[y - 1].0 == k@ {
                            assert(pre[y - 1].0 == k@);
                            assert(has_key(pre, k@));
                        }
                    }
                }
            }
            assert(self@[0].0 == k@);
            assert(key_idx(self@, k@) == 0) by {
                let w = key_idx(self@, k@);
                assert(0 <= w < self@.len() && self@[w].0 == k@);
                if w != 0 {
                    assert(self@[0].0 != self@[w].0);
                }
            }
        }
    }
}

} // verus!
