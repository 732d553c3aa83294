//! Absolute directory paths, held as the names that lead down from the
//! filesystem root.

use vstd::prelude::*;
use vstd::string::*;

verus! {

/// The directory one level up, if there is one: the filesystem root, the
/// path of no names, has none.
pub open spec fn parent_of(path: Seq<Seq<char>>) -> Option<Seq<Seq<char>>> {
    if path.len() == 0 {
        None
    } else {
        Some(path.drop_last())
    }
}

/// The directory reached from `path` by going up `hops` times.
pub open spec fn ancestor(path: Seq<Seq<char>>, hops: nat) -> Seq<Seq<char>>
    recommends
        hops <= path.len(),
{
    path.take(path.len() - hops)
}

/// Whether `dir` is `path` itself or lies above it.
pub open spec fn is_ancestor_or_self(dir: Seq<Seq<char>>, path: Seq<Seq<char>>) -> bool {
    dir.is_prefix_of(path)
}

/// Going up once more from the directory `hops` levels up leads to the
/// directory `hops + 1` levels up, as long as there is one.
pub proof fn lemma_ancestor_step(path: Seq<Seq<char>>, hops: nat)
    requires
        hops <= path.len(),
    ensures
        hops < path.len() ==> parent_of(ancestor(path, hops)) == Some(ancestor(path, hops + 1)),
        hops == path.len() ==> parent_of(ancestor(path, hops)) is None,
        ancestor(path, 0) == path,
{
}

/// A directory is a path itself or lies above it exactly if going up from
/// the path, some number of times, leads to it.
pub proof fn lemma_ancestor_or_self(dir: Seq<Seq<char>>, path: Seq<Seq<char>>)
    ensures
        is_ancestor_or_self(dir, path) <==> exists|hops: nat|
            hops <= path.len() && #[trigger] ancestor(path, hops) == dir,
{
    if is_ancestor_or_self(dir, path) {
        let hops = (path.len() - dir.len()) as nat;
        assert(ancestor(path, hops) =~= dir);
    }
}

/// The names of `path`, each behind a `/`.
pub open spec fn slashed(path: Seq<Seq<char>>) -> Seq<char>
    decreases path.len(),
{
    if path.len() == 0 {
        Seq::empty()
    } else {
        slashed(path.drop_last()) + seq!['/'] + path.last()
    }
}

/// The text of `path`: `/` for the filesystem root, else every name behind
/// a `/`.
pub open spec fn rendered(path: Seq<Seq<char>>) -> Seq<char> {
    if path.len() == 0 {
        seq!['/']
    } else {
        slashed(path)
    }
}

/// The names held by a vector of strings.
pub open spec fn names_of(segments: Seq<String>) -> Seq<Seq<char>> {
    Seq::new(segments.len(), |i: int| segments[i]@)
}

/// An absolute directory path: the names that lead from the filesystem root
/// down to the directory. The root itself has no names.
///
/// Names are taken as they are: the path is a sequence of names and stands
/// for nothing else.
#[derive(Debug)]
pub struct DirPath {
    segments: Vec<String>,
}

impl View for DirPath {
    type V = Seq<Seq<char>>;

    closed spec fn view(&self) -> Seq<Seq<char>> {
        names_of(self.segments@)
    }
}

impl DirPath {
    /// The filesystem root.
    pub fn root() -> (path: DirPath)
        ensures
            path@ == Seq::<Seq<char>>::empty(),
    {
        DirPath { segments: Vec::new() }
    }

    /// The path that leads from the root through `segments`, in order.
    pub fn from_segments(segments: Vec<String>) -> (path: DirPath)
        ensures
            path@ == names_of(segments@),
    {
        DirPath { segments }
    }

    /// The names of this path, from the root down.
    pub fn segments(&self) -> (segments: &Vec<String>)
        ensures
            names_of(segments@) == self@,
    {
        &self.segments
    }

    /// The number of names between the root and this directory.
    pub fn depth(&self) -> (depth: usize)
        ensures
            depth == self@.len(),
    {
        self.segments.len()
    }

    /// Whether this is the filesystem root.
    pub fn is_root(&self) -> (root: bool)
        ensures
            root == (self@.len() == 0),
            root == (parent_of(self@) is None),
    {
        self.segments.len() == 0
    }

    /// The first `count` names of this path.
    fn prefix(&self, count: usize) -> (path: DirPath)
        requires
            count <= self@.len(),
        ensures
            path@ == self@.take(count as int),
    {
        let mut kept: Vec<String> = Vec::new();
        let mut i: usize = 0;
        while i < count
            invariant
                i <= count <= self.segments@.len(),
                kept@.len() == i,
                forall|j: int| 0 <= j < i ==> kept@[j]@ == self.segments@[j]@,
            decreases count - i,
        {
            kept.push(self.segments[i].clone());
            i += 1;
        }
        DirPath { segments: kept }
    }

    /// The directory one level up; `None` at the filesystem root.
    pub fn parent(&self) -> (up: Option<DirPath>)
        ensures
            up is Some <==> self@.len() > 0,
            match up {
                Some(dir) => parent_of(self@) == Some(dir@),
                None => parent_of(self@) is None,
            },
    {
        let depth: usize = self.segments.len();
        if depth == 0 {
            None
        } else {
            Some(self.prefix(depth - 1))
        }
    }

    /// The directory `hops` levels up; `None` where that would lead above
    /// the filesystem root.
    pub fn ancestor(&self, hops: usize) -> (up: Option<DirPath>)
        ensures
            up is Some <==> hops <= self@.len(),
            up is Some ==> up->Some_0@ == ancestor(self@, hops as nat),
    {
        let depth: usize = self.segments.len();
        if hops <= depth {
            Some(self.prefix(depth - hops))
        } else {
            None
        }
    }

    /// The entry called `name` inside this directory.
    pub fn join(&self, name: &str) -> (entry: DirPath)
        ensures
            entry@ == self@.push(name@),
    {
        let mut segments = self.prefix(self.segments.len()).segments;
        assert(names_of(segments@) =~= self@);
        segments.push(String::from_str(name));
        DirPath { segments }
    }

    /// Whether this directory is `other` or lies above it.
    pub fn is_ancestor_or_self_of(&self, other: &DirPath) -> (above: bool)
        ensures
            above == is_ancestor_or_self(self@, other@),
    {
        let count: usize = self.segments.len();
        if count > other.segments.len() {
            return false;
        }
        let mut i: usize = 0;
        while i < count
            invariant
                i <= count == self.segments@.len() <= other.segments@.len(),
                forall|j: int| 0 <= j < i ==> self.segments@[j]@ == other.segments@[j]@,
            decreases count - i,
        {
            if self.segments[i] != other.segments[i] {
                assert(self@[i as int] != other@[i as int]);
                return false;
            }
            i += 1;
        }
        true
    }

    /// This path as text: `/` for the filesystem root, else each name
    /// behind a `/`.
    pub fn render(&self) -> (text: String)
        ensures
            text@ == rendered(self@),
    {
        proof {
            reveal_strlit("/");
        }
        if self.segments.len() == 0 {
            return String::from_str("/");
        }
        let mut text = String::new();
        let mut i: usize = 0;
        while i < self.segments.len()
            invariant
                i <= self.segments@.len(),
                "/"@ == seq!['/'],
                text@ == slashed(self@.take(i as int)),
            decreases self.segments@.len() - i,
        {
            assert(self@.take(i + 1).drop_last() =~= self@.take(i as int));
            text.append("/");
            text.append(self.segments[i].as_str());
            i += 1;
        }
        assert(self@.take(i as int) =~= self@);
        text
    }
}

impl Clone for DirPath {
    fn clone(&self) -> (copy: DirPath)
        ensures
            copy@ == self@,
    {
        self.prefix(self.segments.len())
    }
}

impl PartialEq for DirPath {
    fn eq(&self, other: &DirPath) -> (same: bool) {
        let same = self.segments.len() == other.segments.len() && self.is_ancestor_or_self_of(
            other,
        );
        proof {
            if same {
                assert(self@ =~= other@);
            } else if self@ == other@ {
                assert(self@ =~= other@.subrange(0, self@.len() as int));
            }
        }
        same
    }
}

impl Eq for DirPath {

}

impl vstd::std_specs::cmp::PartialEqSpecImpl for DirPath {
    open spec fn obeys_eq_spec() -> bool {
        true
    }

    open spec fn eq_spec(&self, other: &DirPath) -> bool {
        self@ == other@
    }
}

} // verus!
