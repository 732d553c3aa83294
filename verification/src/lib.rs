//! Finding a build root: the nearest directory, at or above a starting
//! directory, that holds an entry named `pants`.
//!
//! Nothing in this crate touches a filesystem. A search is either run in one
//! call against a [`Snapshot`] of the entries that exist, or driven step by
//! step through a [`Search`], whose caller looks each probed entry up and
//! reports what it saw.

pub mod path;
pub mod root;
pub mod search;
pub mod snapshot;

pub use path::DirPath;
pub use root::{BuildRoot, LookupError, MARKER};
pub use search::{Search, Step};
pub use snapshot::Snapshot;
