//! The search for a build root, one probe at a time.
//!
//! A [`Search`] decides; it does not look. Its caller finds out whether the
//! entry named by [`Search::probe`] exists and hands the answer to
//! [`Search::advance`], which says how the search goes on.

use crate::path::{ancestor, is_ancestor_or_self, parent_of, DirPath};
use crate::root::{BuildRoot, LookupError, MARKER};
use vstd::prelude::*;

verus! {

/// What a search is made of: where it began and the directory it is about
/// to try.
pub struct SearchView {
    pub start: Seq<Seq<char>>,
    pub candidate: Seq<Seq<char>>,
}

impl SearchView {
    /// The candidate is the starting directory or lies above it.
    pub open spec fn wf(self) -> bool {
        is_ancestor_or_self(self.candidate, self.start)
    }

    /// How many times the search has gone up a level.
    pub open spec fn hops(self) -> nat {
        (self.start.len() - self.candidate.len()) as nat
    }

    /// The entry whose presence makes the candidate the build root.
    pub open spec fn probe(self) -> Seq<Seq<char>> {
        self.candidate.push(MARKER@)
    }
}

/// A search goes up at most as many times as its starting directory is
/// deep, and by then its candidate is the filesystem root.
pub proof fn lemma_hops_bounded(search: SearchView)
    requires
        search.wf(),
    ensures
        search.hops() <= search.start.len(),
        search.candidate == ancestor(search.start, search.hops()),
        search.hops() == search.start.len() ==> parent_of(search.candidate) is None,
{
}

/// A search under way.
#[derive(Debug)]
pub struct Search {
    start: DirPath,
    candidate: DirPath,
}

/// How a search goes on once a probe is answered.
#[derive(Debug)]
pub enum Step {
    /// The candidate holds the marker: it is the build root.
    Found(BuildRoot),
    /// The candidate does not hold the marker; its parent is tried next.
    Ascend(Search),
    /// The filesystem root does not hold the marker either. The path is
    /// the directory in which the search began.
    NotFound(DirPath),
}

impl View for Search {
    type V = SearchView;

    closed spec fn view(&self) -> SearchView {
        SearchView { start: self.start@, candidate: self.candidate@ }
    }
}

impl Search {
    #[verifier::type_invariant]
    spec fn inv(&self) -> bool {
        is_ancestor_or_self(self.candidate@, self.start@)
    }

    /// Begins a search in the working directory, given the outcome of
    /// asking for it. Where the working directory could not be had, the
    /// search fails at once, with the cause.
    pub fn begin<E>(cwd: Result<DirPath, E>) -> (search: Result<Search, LookupError<E>>)
        ensures
            match cwd {
                Ok(start) => search is Ok && search->Ok_0@ == (SearchView {
                    start: start@,
                    candidate: start@,
                }),
                Err(cause) => search == Err::<Search, LookupError<E>>(
                    LookupError::CwdUnavailable(cause),
                ),
            },
    {
        match cwd {
            Ok(start) => {
                let candidate = start.clone();
                Ok(Search { start, candidate })
            },
            Err(cause) => Err(LookupError::CwdUnavailable(cause)),
        }
    }

    /// The directory in which the search began.
    pub fn start(&self) -> (start: &DirPath)
        ensures
            start@ == self@.start,
    {
        &self.start
    }

    /// The directory that is tried next. It is the starting directory or
    /// lies above it.
    pub fn candidate(&self) -> (candidate: &DirPath)
        ensures
            candidate@ == self@.candidate,
            self@.wf(),
    {
        proof {
            use_type_invariant(self);
        }
        &self.candidate
    }

    /// How many times the search has gone up a level: never more than the
    /// depth of the starting directory.
    pub fn hops(&self) -> (hops: usize)
        ensures
            hops == self@.hops(),
            hops <= self@.start.len(),
    {
        proof {
            use_type_invariant(self);
        }
        self.start.depth() - self.candidate.depth()
    }

    /// The entry to look for: the marker inside the candidate.
    pub fn probe(&self) -> (entry: DirPath)
        ensures
            entry@ == self@.probe(),
    {
        self.candidate.join(MARKER)
    }

    /// Goes on, given whether the probed entry exists. An entry that could
    /// not be looked at counts as absent.
    ///
    /// The candidate is the build root exactly if the entry is present.
    /// Otherwise the search moves to the candidate's parent, one level up,
    /// and ends without a root where there is no parent.
    pub fn advance(self, present: bool) -> (step: Step)
        ensures
            match step {
                Step::Found(root) => present && root@ == self@.candidate,
                Step::Ascend(next) => {
                    &&& !present
                    &&& next@.start == self@.start
                    &&& parent_of(self@.candidate) == Some(next@.candidate)
                    &&& next@.wf()
                    &&& next@.hops() == self@.hops() + 1
                },
                Step::NotFound(start) => {
                    &&& !present
                    &&& parent_of(self@.candidate) is None
                    &&& start@ == self@.start
                },
            },
    {
        proof {
            use_type_invariant(&self);
        }
        if present {
            Step::Found(BuildRoot::at(self.candidate))
        } else {
            match self.candidate.parent() {
                Some(candidate) => Step::Ascend(Search { start: self.start, candidate }),
                None => Step::NotFound(self.start),
            }
        }
    }
}

} // verus!
