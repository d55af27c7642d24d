//! The set of paths that the watcher has just overwritten itself, whose
//! creation events it must not answer.
use vstd::prelude::*;
use crate::text::str_eq;

verus! {

/// Some string of `v` is `p`.
spec fn has_path(v: Seq<String>, p: Seq<char>) -> bool {
    exists|i: int| 0 <= i < v.len() && #[trigger] v[i]@ == p
}

/// Paths recently overwritten by the watcher. The same path is held at most once.
#[derive(Debug)]
pub struct SuppressionSet {
    paths: Vec<String>,
}

impl View for SuppressionSet {
    type V = Set<Seq<char>>;

    open spec fn view(&self) -> Set<Seq<char>> {
        Set::new(|p: Seq<char>| self.holds(p))
    }
}

impl SuppressionSet {
    /// Some entry of the set is `p`.
    pub closed spec fn holds(&self, p: Seq<char>) -> bool {
        has_path(self.paths@, p)
    }

    /// An empty set.
    pub fn new() -> (r: SuppressionSet)
        ensures
            r@ == Set::<Seq<char>>::empty(),
    {
        let r = SuppressionSet { paths: Vec::new() };
        assert(r@ =~= Set::<Seq<char>>::empty());
        r
    }

    /// Tells whether `path` is in the set.
    pub fn contains(&self, path: &str) -> (r: bool)
        ensures
            r == self@.contains(path@),
    {
        let n = self.paths.len();
        let mut i: usize = 0;
        while i < n
            invariant
                n == self.paths@.len(),
                i <= n,
                forall|j: int| 0 <= j < i ==> #[trigger] self.paths@[j]@ != path@,
            decreases n - i,
        {
            if str_eq(self.paths[i].as_str(), path) {
                return true;
            }
            i = i + 1;
        }
        false
    }

    /// Adds `path`; adding a path that is already there changes nothing.
    pub fn insert(&mut self, path: &str)
        ensures
            final(self)@ == old(self)@.insert(path@),
    {
        if !self.contains(path) {
            self.paths.push(path.to_owned());
            assert forall|p: Seq<char>| final(self).holds(p) == old(self)@.insert(path@).contains(p) by {
                if p == path@ {
                    assert(final(self).paths@[final(self).paths@.len() - 1]@ == p);
                } else if old(self).holds(p) {
                    let i = choose|i: int| 0 <= i < old(self).paths@.len() && #[trigger] old(self).paths@[i]@ == p;
                    assert(final(self).paths@[i]@ == p);
                } else if final(self).holds(p) {
                    let i = choose|i: int| 0 <= i < final(self).paths@.len() && #[trigger] final(self).paths@[i]@ == p;
                    assert(old(self).paths@[i]@ == p);
                }
            }
        }
        assert(final(self)@ =~= old(self)@.insert(path@));
    }

    /// Takes `path` out; taking out an absent path changes nothing.
    pub fn remove(&mut self, path: &str)
        ensures
            final(self)@ == old(self)@.remove(path@),
    {
        let mut kept: Vec<String> = Vec::new();
        let n = self.paths.len();
        let mut i: usize = 0;
        while i < n
            invariant
                n == self.paths@.len(),
                i <= n,
                forall|j: int| 0 <= j < kept@.len() ==> #[trigger] kept@[j]@ != path@,
                forall|j: int| 0 <= j < kept@.len() ==> has_path(self.paths@, #[trigger] kept@[j]@),
                forall|k: int| 0 <= k < i && #[trigger] self.paths@[k]@ != path@ ==> has_path(kept@, self.paths@[k]@),
            decreases n - i,
        {
            if !str_eq(self.paths[i].as_str(), path) {
                let ghost kept_before = kept@;
                kept.push(self.paths[i].clone());
                assert(kept@[kept@.len() - 1]@ == self.paths@[i as int]@);
                assert forall|k: int| 0 <= k <= i && #[trigger] self.paths@[k]@ != path@ implies has_path(kept@, self.paths@[k]@) by {
                    if k < i {
                        let j = choose|j: int| 0 <= j < kept_before.len() && #[trigger] kept_before[j]@ == self.paths@[k]@;
                        assert(kept@[j]@ == self.paths@[k]@);
                    }
                }
            }
            i = i + 1;
        }
        let ghost before = *self;
        self.paths = kept;
        assert forall|p: Seq<char>| self.holds(p) == before@.remove(path@).contains(p) by {
            if self.holds(p) {
                let j = choose|j: int| 0 <= j < self.paths@.len() && #[trigger] self.paths@[j]@ == p;
                assert(has_path(before.paths@, kept@[j]@));
            }
            if before.holds(p) && p != path@ {
                let k = choose|k: int| 0 <= k < before.paths@.len() && #[trigger] before.paths@[k]@ == p;
                assert(before.paths@[k]@ != path@);
            }
        }
        assert(self@ =~= before@.remove(path@));
    }
}

/// A path put into the set is found there until it is taken out: taking out
/// other paths leaves it, and once it is taken out it is no longer found.
pub proof fn lemma_inserted_path_suppressed_until_removed(
    set: Set<Seq<char>>,
    path: Seq<char>,
    other: Seq<char>,
)
    ensures
        set.insert(path).contains(path),
        other != path ==> set.insert(path).remove(other).contains(path),
        !set.insert(path).remove(path).contains(path),
        !set.remove(path).contains(path),
{
}

} // verus!
