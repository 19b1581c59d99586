//! What to do before a file is read, written or removed.

use crate::paths::chars_of;
use crate::platform::Platform;
use crate::snapshot::{PathStatus, Snapshot, SnapshotView};
use vstd::prelude::*;

verus! {

/// Why a path cannot be read as a file.
#[derive(Clone, Copy, Debug, PartialEq, Eq, Structural)]
pub enum ReadError {
    /// The path is a directory.
    IsDirectory,
}

impl ReadError {
    /// The message that goes with the error.
    pub fn message(self) -> (text: &'static str)
        ensures
            text@ == "path is a directory"@,
    {
        match self {
            ReadError::IsDirectory => "path is a directory",
        }
    }
}

/// Decides whether `path` may be read as a file: it may unless a directory
/// was found there.
pub fn check_readable(path: &str, snapshot: &Snapshot) -> (checked: Result<(), ReadError>)
    ensures
        checked is Err <==> snapshot@.is_directory(path@),
        checked is Err ==> checked == Err::<(), ReadError>(ReadError::IsDirectory),
{
    if snapshot.is_directory(path) {
        Err(ReadError::IsDirectory)
    } else {
        Ok(())
    }
}

/// How a path is removed.
#[derive(Clone, Copy, Debug, PartialEq, Eq, Structural)]
pub enum Removal {
    /// Nothing is there to remove.
    Nothing,
    /// A single file is removed.
    File,
    /// A directory is removed with everything below it.
    Tree,
}

/// How `path` is removed, by what was found there.
pub open spec fn spec_removal(snapshot: SnapshotView, path: Seq<char>) -> Removal {
    match snapshot.status(path) {
        PathStatus::Missing => Removal::Nothing,
        PathStatus::File => Removal::File,
        PathStatus::Directory => Removal::Tree,
    }
}

/// Decides how `path` is removed: a directory with everything below it, a
/// file alone.
pub fn removal(path: &str, snapshot: &Snapshot) -> (how: Removal)
    ensures
        how == spec_removal(snapshot@, path@),
{
    match snapshot.status(path) {
        PathStatus::Missing => Removal::Nothing,
        PathStatus::File => Removal::File,
        PathStatus::Directory => Removal::Tree,
    }
}

/// Whether the character at `at` is the last separator of `path`.
pub open spec fn spec_is_last_separator(path: Seq<char>, platform: Platform, at: int) -> bool {
    &&& 0 <= at < path.len()
    &&& platform.spec_is_separator(path[at])
    &&& forall|later: int| at < later < path.len() ==> !platform.spec_is_separator(path[later])
}

/// The directory that holds `path`, whose last separator stands at `at`:
/// what stands before that separator, or the separator itself where `path`
/// begins with it.
pub open spec fn spec_parent_before(path: Seq<char>, at: int) -> Seq<char> {
    if at == 0 {
        path.take(1)
    } else {
        path.take(at)
    }
}

/// Finds the directory that has to be there before `path` can be written:
/// what stands before the last separator of `path`. A path without a
/// separator names a file of the current directory and needs none.
pub fn parent_directory(path: &str, platform: Platform) -> (parent: Option<String>)
    ensures
        match parent {
            Some(directory) => exists|at: int|
                #[trigger] spec_is_last_separator(path@, platform, at) && directory@
                    == spec_parent_before(path@, at),
            None => forall|at: int|
                0 <= at < path@.len() ==> !platform.spec_is_separator(#[trigger] path@[at]),
        },
{
    let chars = chars_of(path);
    let mut at: usize = chars.len();
    while at > 0
        invariant
            at <= chars.len(),
            chars@ == path@,
            forall|later: int|
                at <= later < chars.len() ==> !platform.spec_is_separator(#[trigger] chars@[later]),
        decreases at,
    {
        at -= 1;
        if platform.is_separator(chars[at]) {
            assert(spec_is_last_separator(path@, platform, at as int));
            let end: usize = if at == 0 {
                1
            } else {
                at
            };
            let directory = path.substring_char(0, end);
            assert(directory@ =~= spec_parent_before(path@, at as int));
            return Some(String::from_str(directory));
        }
    }
    None
}

} // verus!
