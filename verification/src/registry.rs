//! The pending-deletion registry: the set of paths whose deletion is
//! provisionally believed true but not yet confirmed. The classifier's main
//! loop and every debounce confirmation task go through this one structure,
//! and `try_take` is the single source of truth that decides whether a
//! confirmation may emit a `Deleted` event.

use vstd::prelude::*;

verus! {

/// A registry of tentatively deleted paths. Abstractly a set of path
/// strings: at most one live entry per path.
pub struct PendingRegistry {
    paths: Vec<String>,
}

impl PendingRegistry {
    /// The entries, as a set of path strings.
    pub closed spec fn view(&self) -> Set<Seq<char>> {
        Set::new(|p: Seq<char>| exists|i: int| 0 <= i < self.paths@.len() && self.paths@[i]@ == p)
    }

    /// The backing vector holds each path at most once.
    pub closed spec fn wf(&self) -> bool {
        forall|i: int, j: int|
            0 <= i < j < self.paths@.len() ==> self.paths@[i]@ != self.paths@[j]@
    }

    pub fn new() -> (r: Self)
        ensures
            r.wf(),
            r@ == Set::<Seq<char>>::empty(),
    {
        let r = PendingRegistry { paths: Vec::new() };
        proof {
            assert(r@ =~= Set::<Seq<char>>::empty());
        }
        r
    }

    /// The index of `path` among the entries, if it is present.
    fn find(&self, path: &str) -> (r: Option<usize>)
        ensures
            match r {
                Some(i) => i < self.paths@.len() && self.paths@[i as int]@ == path@,
                None => !self@.contains(path@),
            },
    {
        let mut i: usize = 0;
        while i < self.paths.len()
            invariant
                i <= self.paths@.len(),
                forall|k: int| 0 <= k < i ==> self.paths@[k]@ != path@,
            decreases self.paths@.len() - i,
        {
            if crate::strutil::str_eq(self.paths[i].as_str(), path) {
                return Some(i);
            }
            i = i + 1;
        }
        None
    }

    /// Whether `path` has a live entry.
    pub fn contains(&self, path: &str) -> (r: bool)
        ensures
            r == self@.contains(path@),
    {
        self.find(path).is_some()
    }

    /// Register `path` as tentatively deleted. A path that already has a
    /// live entry keeps a single entry: re-registration never duplicates.
    pub fn insert_or_replace(&mut self, path: String)
        requires
            old(self).wf(),
        ensures
            final(self).wf(),
            final(self)@ == old(self)@.insert(path@),
    {
        match self.find(path.as_str()) {
            Some(_) => {
                proof {
                    assert(final(self)@ =~= old(self)@.insert(path@));
                }
            }
            None => {
                self.paths.push(path);
                proof {
                    assert forall|p: Seq<char>| final(self)@.contains(p)
                        implies old(self)@.insert(path@).contains(p) by {
                        let i = choose|i: int|
                            0 <= i < self.paths@.len() && self.paths@[i]@ == p;
                        if i < old(self).paths@.len() {
                            assert(old(self)@.contains(p));
                        }
                    }
                    assert forall|p: Seq<char>| old(self)@.insert(path@).contains(p)
                        implies final(self)@.contains(p) by {
                        if p == path@ {
                            assert(self.paths@[self.paths@.len() - 1]@ == p);
                        } else {
                            let i = choose|i: int|
                                0 <= i < old(self).paths@.len() && old(self).paths@[i]@ == p;
                            assert(self.paths@[i]@ == p);
                        }
                    }
                    assert(final(self)@ =~= old(self)@.insert(path@));
                }
            }
        }
    }

    /// Atomically remove `path`'s entry if it is still live, and report
    /// whether it was. A true result is the exclusive licence to emit a
    /// `Deleted` event: once taken, no later taker can succeed.
    pub fn try_take(&mut self, path: &str) -> (r: bool)
        requires
            old(self).wf(),
        ensures
            final(self).wf(),
            r == old(self)@.contains(path@),
            final(self)@ == old(self)@.remove(path@),
    {
        match self.find(path) {
            Some(i) => {
                self.paths.remove(i);
                proof {
                    let removed = old(self).paths@.remove(i as int);
                    assert(self.paths@ == removed);
                    assert forall|p: Seq<char>| final(self)@.contains(p)
                        implies old(self)@.remove(path@).contains(p) by {
                        let k = choose|k: int|
                            0 <= k < self.paths@.len() && self.paths@[k]@ == p;
                        if k < i {
                            assert(old(self).paths@[k]@ == p);
                        } else {
                            assert(old(self).paths@[k + 1]@ == p);
                        }
                        assert(p != path@);
                    }
                    assert forall|p: Seq<char>| old(self)@.remove(path@).contains(p)
                        implies final(self)@.contains(p) by {
                        let k = choose|k: int|
                            0 <= k < old(self).paths@.len() && old(self).paths@[k]@ == p;
                        if k < i {
                            assert(self.paths@[k]@ == p);
                        } else {
                            assert(k != i);
                            assert(self.paths@[k - 1]@ == p);
                        }
                    }
                    assert(final(self)@ =~= old(self)@.remove(path@));
                    assert(old(self)@.contains(path@));
                }
                true
            }
            None => {
                proof {
                    assert(final(self)@ =~= old(self)@.remove(path@));
                }
                false
            }
        }
    }
}

} // verus!
