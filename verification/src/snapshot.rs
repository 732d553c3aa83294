//! The entries that exist in a filesystem at one moment.

use crate::path::DirPath;
use vstd::prelude::*;

verus! {

/// A set of entries, files or directories alike, each named by its absolute
/// path. An entry is there if it was put in: a snapshot knows nothing of
/// the directories that lead to it.
#[derive(Debug)]
pub struct Snapshot {
    entries: Vec<DirPath>,
}

impl View for Snapshot {
    type V = Set<Seq<Seq<char>>>;

    closed spec fn view(&self) -> Set<Seq<Seq<char>>> {
        Set::new(
            |entry: Seq<Seq<char>>|
                exists|i: int| 0 <= i < self.entries@.len() && #[trigger] self.entries@[i]@ == entry,
        )
    }
}

impl Snapshot {
    /// The snapshot of a filesystem in which nothing exists.
    pub fn new() -> (tree: Snapshot)
        ensures
            tree@ == Set::<Seq<Seq<char>>>::empty(),
    {
        Snapshot { entries: Vec::new() }
    }

    /// Records that `entry` exists.
    pub fn insert(&mut self, entry: DirPath)
        ensures
            final(self)@ == old(self)@.insert(entry@),
    {
        let ghost before = self.entries@;
        self.entries.push(entry);
        proof {
            let after = self.entries@;
            assert forall|e: Seq<Seq<char>>| final(self)@.contains(e) <==> old(self)@.insert(
                entry@,
            ).contains(e) by {
                if old(self)@.contains(e) {
                    let i = choose|i: int| 0 <= i < before.len() && #[trigger] before[i]@ == e;
                    assert(after[i]@ == e);
                }
                if e == entry@ {
                    assert(after[before.len() as int]@ == e);
                }
            }
        }
    }

    /// Whether `entry` exists.
    pub fn contains(&self, entry: &DirPath) -> (present: bool)
        ensures
            present == self@.contains(entry@),
    {
        let mut i: usize = 0;
        while i < self.entries.len()
            invariant
                i <= self.entries@.len(),
                forall|j: int| 0 <= j < i ==> #[trigger] self.entries@[j]@ != entry@,
            decreases self.entries@.len() - i,
        {
            if self.entries[i] == *entry {
                return true;
            }
            i += 1;
        }
        false
    }
}

} // verus!
