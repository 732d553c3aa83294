//! The build root and the search for it in a snapshot.

use crate::path::{is_ancestor_or_self, rendered, DirPath};
use crate::search::{Search, Step};
use crate::snapshot::Snapshot;
use vstd::prelude::*;
use vstd::string::*;

verus! {

/// The name of the entry that marks a build root.
pub const MARKER: &'static str = "pants";

/// Whether `dir` holds the marker in `tree`.
pub open spec fn holds_marker(dir: Seq<Seq<char>>, tree: Set<Seq<Seq<char>>>) -> bool {
    tree.contains(dir.push(MARKER@))
}

/// Whether `start` or a directory above it holds the marker in `tree`.
pub open spec fn has_root(start: Seq<Seq<char>>, tree: Set<Seq<Seq<char>>>) -> bool {
    exists|depth: int| 0 <= depth <= start.len() && holds_marker(#[trigger] start.take(depth), tree)
}

/// Whether `root` is the build root as seen from `start`: the nearest
/// directory, `start` itself or one above it, that holds the marker in
/// `tree`.
pub open spec fn is_nearest_root(
    start: Seq<Seq<char>>,
    tree: Set<Seq<Seq<char>>>,
    root: Seq<Seq<char>>,
) -> bool {
    &&& is_ancestor_or_self(root, start)
    &&& holds_marker(root, tree)
    &&& forall|depth: int|
        root.len() < depth <= start.len() ==> !holds_marker(#[trigger] start.take(depth), tree)
}

/// Whether `found` is what a search from the working directory comes to in
/// `tree`, where `cwd` is the outcome of asking for that directory.
pub open spec fn is_outcome<E>(
    cwd: Result<DirPath, E>,
    tree: Set<Seq<Seq<char>>>,
    found: Result<BuildRoot, LookupError<E>>,
) -> bool {
    match cwd {
        Ok(start) => match found {
            Ok(root) => is_nearest_root(start@, tree, root@),
            Err(LookupError::NotFound(origin)) => origin@ == start@ && !has_root(start@, tree),
            Err(LookupError::CwdUnavailable(_)) => false,
        },
        Err(cause) => found == Err::<BuildRoot, LookupError<E>>(LookupError::CwdUnavailable(cause)),
    }
}

/// Whether two searches ended alike: in the same directory, or with the
/// same error about the same directory or cause.
pub open spec fn same_outcome<E>(
    first: Result<BuildRoot, LookupError<E>>,
    second: Result<BuildRoot, LookupError<E>>,
) -> bool {
    match (first, second) {
        (Ok(a), Ok(b)) => a@ == b@,
        (Err(LookupError::NotFound(a)), Err(LookupError::NotFound(b))) => a@ == b@,
        (Err(LookupError::CwdUnavailable(a)), Err(LookupError::CwdUnavailable(b))) => a == b,
        _ => false,
    }
}

/// From one starting directory, one set of entries has at most one build
/// root.
pub proof fn lemma_nearest_root_unique(
    start: Seq<Seq<char>>,
    tree: Set<Seq<Seq<char>>>,
    first: Seq<Seq<char>>,
    second: Seq<Seq<char>>,
)
    requires
        is_nearest_root(start, tree, first),
        is_nearest_root(start, tree, second),
    ensures
        first == second,
{
}

/// A search succeeds exactly where some directory on the way up holds the
/// marker.
pub proof fn lemma_success_iff_root<E>(
    cwd: Result<DirPath, E>,
    tree: Set<Seq<Seq<char>>>,
    found: Result<BuildRoot, LookupError<E>>,
)
    requires
        is_outcome(cwd, tree, found),
    ensures
        found is Ok <==> cwd is Ok && has_root(cwd->Ok_0@, tree),
{
}

/// Two searches from the same working directory, over the same entries,
/// end alike.
pub proof fn lemma_find_deterministic<E>(
    cwd: Result<DirPath, E>,
    tree: Set<Seq<Seq<char>>>,
    first: Result<BuildRoot, LookupError<E>>,
    second: Result<BuildRoot, LookupError<E>>,
)
    requires
        is_outcome(cwd, tree, first),
        is_outcome(cwd, tree, second),
    ensures
        same_outcome(first, second),
{
    lemma_success_iff_root(cwd, tree, first);
    lemma_success_iff_root(cwd, tree, second);
    if let (Ok(start), Ok(a), Ok(b)) = (cwd, first, second) {
        lemma_nearest_root_unique(start@, tree, a@, b@);
    }
}

/// What a failed search says: where it began.
pub open spec fn not_found_text(start: Seq<Seq<char>>) -> Seq<char> {
    "Failed to find build root starting from \""@ + rendered(start) + "\""@
}

/// The text of a failed search holds the text of the directory in which the
/// search began.
pub proof fn lemma_text_names_start(start: Seq<Seq<char>>)
    ensures
        exists|at: int|
            0 <= at && at + rendered(start).len() <= not_found_text(start).len()
                && #[trigger] not_found_text(start).subrange(at, at + rendered(start).len())
                == rendered(start),
{
    let lead = "Failed to find build root starting from \""@;
    let at = lead.len() as int;
    assert(not_found_text(start).subrange(at, at + rendered(start).len()) =~= rendered(start));
}

/// Why no build root was found.
#[derive(Debug)]
pub enum LookupError<E> {
    /// The working directory could not be had; the cause is passed on.
    CwdUnavailable(E),
    /// Neither the starting directory, which is carried here, nor any
    /// directory above it holds the marker.
    NotFound(DirPath),
}

impl<E> LookupError<E> {
    /// The text that reports a search that found nothing; it names the
    /// directory in which the search began. A working directory that could
    /// not be had is reported by its cause and has no text of its own.
    pub fn message(&self) -> (text: Option<String>)
        ensures
            match *self {
                LookupError::NotFound(start) => text is Some && text->Some_0@ == not_found_text(
                    start@,
                ),
                LookupError::CwdUnavailable(_) => text is None,
            },
    {
        match self {
            LookupError::NotFound(start) => {
                let mut text = String::from_str("Failed to find build root starting from \"");
                let path = start.render();
                text.append(path.as_str());
                text.append("\"");
                Some(text)
            },
            LookupError::CwdUnavailable(_) => None,
        }
    }
}

/// A directory that held the marker when it was looked for. It is made by
/// a search that succeeds and by nothing else, and is never changed: it
/// tells what was seen then, not what is there now.
#[derive(Debug)]
pub struct BuildRoot {
    path: DirPath,
}

impl View for BuildRoot {
    type V = Seq<Seq<char>>;

    closed spec fn view(&self) -> Seq<Seq<char>> {
        self.path@
    }
}

impl BuildRoot {
    pub(crate) fn at(path: DirPath) -> (root: BuildRoot)
        ensures
            root@ == path@,
    {
        BuildRoot { path }
    }

    /// Finds the build root that contains the working directory, in a
    /// filesystem that holds the entries of `tree`. `cwd` is the outcome of
    /// asking for the working directory.
    ///
    /// The root is the nearest directory that holds the marker, the working
    /// directory first and then each directory above it, up to the
    /// filesystem root.
    ///
    /// # Errors
    ///
    /// `CwdUnavailable`, with the cause, where `cwd` is an error;
    /// `NotFound`, with the working directory, where no directory on the
    /// way up holds the marker.
    pub fn find<E>(cwd: Result<DirPath, E>, tree: &Snapshot) -> (found: Result<
        BuildRoot,
        LookupError<E>,
    >)
        ensures
            is_outcome(cwd, tree@, found),
            found is Ok <==> cwd is Ok && has_root(cwd->Ok_0@, tree@),
    {
        let ghost origin = cwd->Ok_0@;
        let mut search = match Search::begin(cwd) {
            Ok(search) => search,
            Err(error) => {
                return Err(error);
            },
        };
        loop
            invariant
                cwd is Ok,
                origin == cwd->Ok_0@,
                search@.start == origin,
                search@.wf(),
                forall|depth: int|
                    search@.candidate.len() < depth <= origin.len() ==> !holds_marker(
                        #[trigger] origin.take(depth),
                        tree@,
                    ),
            decreases search@.candidate.len(),
        {
            let present = tree.contains(&search.probe());
            match search.advance(present) {
                Step::Found(root) => {
                    return Ok(root);
                },
                Step::Ascend(next) => {
                    search = next;
                },
                Step::NotFound(start) => {
                    return Err(LookupError::NotFound(start));
                },
            }
        }
    }

    /// The directory, as a path of its own.
    pub fn into_path(self) -> (path: DirPath)
        ensures
            path@ == self@,
    {
        self.path
    }
}

impl core::ops::Deref for BuildRoot {
    type Target = DirPath;

    /// A build root reads as the path of its directory.
    fn deref(&self) -> (path: &DirPath)
        ensures
            path@ == self@,
    {
        &self.path
    }
}

} // verus!
