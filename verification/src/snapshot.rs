//! A record of what has been observed of the file system.
//!
//! A [`Snapshot`] holds, for each path that was looked at, what was found
//! there, and for each directory that was read, its entries in the order in
//! which they were read. A path that was never looked at is unknown: the
//! discovery functions treat it as absent, and report it as a [`Query`] so that
//! the caller can look and record the answer.

use crate::paths::{join, spec_join};
use crate::platform::Platform;
use vstd::hash_map::StringHashMap;
use vstd::prelude::*;

verus! {

/// What was found at a path.
#[derive(Clone, Copy, Debug, PartialEq, Eq, Structural)]
pub enum PathStatus {
    Missing,
    File,
    Directory,
}

/// One immediate child of a directory.
#[derive(Debug)]
pub struct DirectoryEntry {
    pub name: String,
    pub path: String,
    pub is_directory: bool,
}

/// A [`DirectoryEntry`] as contracts see it.
pub struct EntryView {
    pub name: Seq<char>,
    pub path: Seq<char>,
    pub is_directory: bool,
}

impl View for DirectoryEntry {
    type V = EntryView;

    open spec fn view(&self) -> EntryView {
        EntryView { name: self.name@, path: self.path@, is_directory: self.is_directory }
    }
}

impl Clone for DirectoryEntry {
    fn clone(&self) -> (copy: Self)
        ensures
            copy@ == self@,
    {
        DirectoryEntry {
            name: self.name.clone(),
            path: self.path.clone(),
            is_directory: self.is_directory,
        }
    }
}

impl DirectoryEntry {
    /// The entry for the child `name` of the directory `dir`: its path is
    /// that of `dir` with `name` joined to it.
    pub fn child_of(dir: &str, name: &str, is_directory: bool, platform: Platform) -> (entry:
        DirectoryEntry)
        ensures
            entry@ == (EntryView {
                name: name@,
                path: spec_join(dir@, name@, platform),
                is_directory,
            }),
    {
        DirectoryEntry {
            name: String::from_str(name),
            path: join(dir, name, platform),
            is_directory,
        }
    }
}

/// Whether every one of `entries` carries the path of `dir` with its own
/// name joined to it.
pub open spec fn spec_are_children_of(
    entries: Seq<EntryView>,
    dir: Seq<char>,
    platform: Platform,
) -> bool {
    forall|i: int|
        0 <= i < entries.len() ==> (#[trigger] entries[i]).path == spec_join(
            dir,
            entries[i].name,
            platform,
        )
}

/// The views of a sequence of entries, in the same order.
pub open spec fn entry_views(entries: Seq<DirectoryEntry>) -> Seq<EntryView> {
    entries.map_values(|e: DirectoryEntry| e@)
}

/// What came of reading a directory.
#[derive(Debug)]
pub enum Listing {
    /// The path could not be opened for listing.
    Unreadable,
    /// The entries, in the order in which they were read.
    Entries(Vec<DirectoryEntry>),
}

impl View for Listing {
    type V = Option<Seq<EntryView>>;

    open spec fn view(&self) -> Option<Seq<EntryView>> {
        match self {
            Listing::Unreadable => None,
            Listing::Entries(entries) => Some(entry_views(entries@)),
        }
    }
}

/// Something a snapshot does not hold yet.
#[derive(Debug)]
pub enum Query {
    /// What is at this path?
    Status(String),
    /// What are the entries of this directory?
    Listing(String),
}

/// A [`Query`] as contracts see it.
pub enum QueryView {
    Status(Seq<char>),
    Listing(Seq<char>),
}

impl View for Query {
    type V = QueryView;

    open spec fn view(&self) -> QueryView {
        match self {
            Query::Status(path) => QueryView::Status(path@),
            Query::Listing(path) => QueryView::Listing(path@),
        }
    }
}

/// The views of a sequence of queries, in the same order.
pub open spec fn query_views(queries: Seq<Query>) -> Seq<QueryView> {
    queries.map_values(|q: Query| q@)
}

/// A [`Snapshot`] as contracts see it: two partial maps keyed by path.
pub struct SnapshotView {
    pub statuses: Map<Seq<char>, PathStatus>,
    pub listings: Map<Seq<char>, Option<Seq<EntryView>>>,
}

impl SnapshotView {
    /// Whether `path` has been looked at.
    pub open spec fn knows_status(self, path: Seq<char>) -> bool {
        self.statuses.contains_key(path)
    }

    /// Whether the directory `path` has been read, with or without success.
    pub open spec fn knows_listing(self, path: Seq<char>) -> bool {
        self.listings.contains_key(path)
    }

    /// What is recorded for `path`; a path never looked at counts as missing.
    pub open spec fn status(self, path: Seq<char>) -> PathStatus {
        if self.statuses.contains_key(path) {
            self.statuses[path]
        } else {
            PathStatus::Missing
        }
    }

    /// Whether something was found at `path`.
    pub open spec fn is_present(self, path: Seq<char>) -> bool {
        self.status(path) != PathStatus::Missing
    }

    /// Whether a directory was found at `path`.
    pub open spec fn is_directory(self, path: Seq<char>) -> bool {
        self.status(path) == PathStatus::Directory
    }

    /// The entries recorded for the directory `path`; none where it was never
    /// read or could not be read.
    pub open spec fn entries(self, path: Seq<char>) -> Seq<EntryView> {
        if self.listings.contains_key(path) {
            match self.listings[path] {
                Some(entries) => entries,
                None => Seq::empty(),
            }
        } else {
            Seq::empty()
        }
    }

    /// Whether the entries recorded for `dir` are its children by their
    /// paths too: each carries the path of `dir` with its name joined to it.
    pub open spec fn lists_children_of(self, dir: Seq<char>, platform: Platform) -> bool {
        spec_are_children_of(self.entries(dir), dir, platform)
    }

    /// Whether `query` is answered here.
    pub open spec fn answers(self, query: QueryView) -> bool {
        match query {
            QueryView::Status(path) => self.knows_status(path),
            QueryView::Listing(path) => self.knows_listing(path),
        }
    }

    /// Whether `other` holds everything this snapshot holds, unchanged.
    pub open spec fn is_part_of(self, other: SnapshotView) -> bool {
        &&& self.statuses.submap_of(other.statuses)
        &&& self.listings.submap_of(other.listings)
    }
}

/// A record of observed paths and directory listings.
pub struct Snapshot {
    statuses: StringHashMap<PathStatus>,
    listings: StringHashMap<Listing>,
}

impl View for Snapshot {
    type V = SnapshotView;

    closed spec fn view(&self) -> SnapshotView {
        SnapshotView {
            statuses: self.statuses@,
            listings: self.listings@.map_values(|l: Listing| l@),
        }
    }
}

impl Snapshot {
    /// A snapshot that holds nothing.
    pub fn new() -> (snapshot: Snapshot)
        ensures
            snapshot@.statuses == Map::<Seq<char>, PathStatus>::empty(),
            snapshot@.listings == Map::<Seq<char>, Option<Seq<EntryView>>>::empty(),
    {
        let snapshot = Snapshot { statuses: StringHashMap::new(), listings: StringHashMap::new() };
        assert(snapshot@.listings =~= Map::<Seq<char>, Option<Seq<EntryView>>>::empty());
        snapshot
    }

    /// Records what was found at `path`, in place of anything recorded for it before.
    pub fn record_status(&mut self, path: &str, status: PathStatus)
        ensures
            final(self)@.statuses == old(self)@.statuses.insert(path@, status),
            final(self)@.listings == old(self)@.listings,
    {
        self.statuses.insert(String::from_str(path), status);
    }

    /// Records what came of reading the directory `path`, in place of anything
    /// recorded for it before.
    pub fn record_listing(&mut self, path: &str, listing: Listing)
        ensures
            final(self)@.statuses == old(self)@.statuses,
            final(self)@.listings == old(self)@.listings.insert(path@, listing@),
    {
        self.listings.insert(String::from_str(path), listing);
        assert(self@.listings =~= old(self)@.listings.insert(path@, listing@));
    }

    /// Whether `path` has been looked at.
    pub fn knows_status(&self, path: &str) -> (known: bool)
        ensures
            known == self@.knows_status(path@),
    {
        self.statuses.contains_key(path)
    }

    /// Whether the directory `path` has been read, with or without success.
    pub fn knows_listing(&self, path: &str) -> (known: bool)
        ensures
            known == self@.knows_listing(path@),
    {
        self.listings.contains_key(path)
    }

    /// What is recorded for `path`; a path never looked at counts as missing.
    pub fn status(&self, path: &str) -> (status: PathStatus)
        ensures
            status == self@.status(path@),
    {
        match self.statuses.get(path) {
            Some(status) => *status,
            None => PathStatus::Missing,
        }
    }

    /// Whether something was found at `path`.
    pub fn is_present(&self, path: &str) -> (found: bool)
        ensures
            found == self@.is_present(path@),
    {
        self.status(path) != PathStatus::Missing
    }

    /// Whether a directory was found at `path`.
    pub fn is_directory(&self, path: &str) -> (found: bool)
        ensures
            found == self@.is_directory(path@),
    {
        self.status(path) == PathStatus::Directory
    }

    /// What is recorded of reading the directory `path`, if it was read.
    pub fn listing(&self, path: &str) -> (listing: Option<&Listing>)
        ensures
            match listing {
                Some(l) => self@.listings.contains_key(path@) && self@.listings[path@] == l@,
                None => !self@.listings.contains_key(path@),
            },
    {
        self.listings.get(path)
    }

    /// The entries recorded for the directory `path`, where it was read with success.
    pub fn entries(&self, path: &str) -> (entries: Option<&Vec<DirectoryEntry>>)
        ensures
            match entries {
                Some(e) => self@.listings.contains_key(path@) && self@.listings[path@] == Some(
                    entry_views(e@),
                ),
                None => !self@.listings.contains_key(path@) || self@.listings[path@] is None,
            },
    {
        match self.listings.get(path) {
            Some(Listing::Entries(entries)) => Some(entries),
            _ => None,
        }
    }

    /// Whether the entries recorded for `dir` are its children by their
    /// paths too.
    pub fn lists_children_of(&self, dir: &str, platform: Platform) -> (faithful: bool)
        ensures
            faithful == self@.lists_children_of(dir@, platform),
    {
        match self.entries(dir) {
            None => true,
            Some(entries) => {
                let ghost views = entry_views(entries@);
                assert(views == self@.entries(dir@));
                let mut i: usize = 0;
                while i < entries.len()
                    invariant
                        i <= entries.len(),
                        views == entry_views(entries@),
                        views == self@.entries(dir@),
                        spec_are_children_of(views.take(i as int), dir@, platform),
                    decreases entries.len() - i,
                {
                    let expected = join(dir, entries[i].name.as_str(), platform);
                    let same = expected == entries[i].path;
                    if !same {
                        assert(views[i as int] == entries[i as int]@);
                        assert(views[i as int].path != spec_join(
                            dir@,
                            views[i as int].name,
                            platform,
                        ));
                        return false;
                    }
                    assert forall|k: int| 0 <= k < i + 1 implies (#[trigger] views.take(
                        i + 1,
                    )[k]).path == spec_join(dir@, views.take(i + 1)[k].name, platform) by {
                        if k < i {
                            assert(views.take(i + 1)[k] == views.take(i as int)[k]);
                        } else {
                            assert(views.take(i + 1)[k] == entries[i as int]@);
                        }
                    }
                    i += 1;
                }
                assert(views.take(entries.len() as int) =~= views);
                true
            },
        }
    }

    /// Whether `query` is answered here.
    pub fn answers(&self, query: &Query) -> (answered: bool)
        ensures
            answered == self@.answers(query@),
    {
        match query {
            Query::Status(path) => self.knows_status(path.as_str()),
            Query::Listing(path) => self.knows_listing(path.as_str()),
        }
    }
}

} // verus!
