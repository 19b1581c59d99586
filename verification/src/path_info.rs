//! What a snapshot says of a single path.

use crate::snapshot::{PathStatus, Query, QueryView, Snapshot, SnapshotView, query_views};
use vstd::prelude::*;

verus! {

/// A path together with what was found there.
#[derive(Debug)]
pub struct ConfigPathInfo {
    pub path: String,
    pub exists: bool,
    pub is_directory: bool,
}

/// A [`ConfigPathInfo`] as contracts see it.
pub struct PathInfoView {
    pub path: Seq<char>,
    pub exists: bool,
    pub is_directory: bool,
}

impl PathInfoView {
    /// Only what exists can be a directory.
    pub open spec fn is_well_formed(self) -> bool {
        self.is_directory ==> self.exists
    }
}

impl View for ConfigPathInfo {
    type V = PathInfoView;

    open spec fn view(&self) -> PathInfoView {
        PathInfoView { path: self.path@, exists: self.exists, is_directory: self.is_directory }
    }
}

impl Clone for ConfigPathInfo {
    fn clone(&self) -> (copy: Self)
        ensures
            copy@ == self@,
    {
        ConfigPathInfo {
            path: self.path.clone(),
            exists: self.exists,
            is_directory: self.is_directory,
        }
    }
}

/// What `snapshot` says of `path`: the path as given, whether anything was
/// found there, and whether that was a directory.
pub open spec fn spec_path_info(snapshot: SnapshotView, path: Seq<char>) -> PathInfoView {
    PathInfoView {
        path,
        exists: snapshot.is_present(path),
        is_directory: snapshot.is_directory(path),
    }
}

/// The query for `path`, where `snapshot` has not looked at it yet.
pub open spec fn spec_status_query(snapshot: SnapshotView, path: Seq<char>) -> Seq<QueryView> {
    if snapshot.knows_status(path) {
        Seq::empty()
    } else {
        seq![QueryView::Status(path)]
    }
}

/// The queries for those of `paths` that `snapshot` has not looked at, in the
/// order of `paths`.
pub open spec fn spec_status_queries(snapshot: SnapshotView, paths: Seq<Seq<char>>) -> Seq<
    QueryView,
>
    decreases paths.len(),
{
    if paths.len() == 0 {
        Seq::empty()
    } else {
        spec_status_queries(snapshot, paths.drop_last()) + spec_status_query(
            snapshot,
            paths.last(),
        )
    }
}

/// Reports the path as given, whether anything was found there, and whether
/// that was a directory. A path never looked at is reported as not existing.
pub fn get_path_info(path: &str, snapshot: &Snapshot) -> (info: ConfigPathInfo)
    ensures
        info@ == spec_path_info(snapshot@, path@),
        info@.is_well_formed(),
{
    let status = snapshot.status(path);
    ConfigPathInfo {
        path: String::from_str(path),
        exists: status != PathStatus::Missing,
        is_directory: status == PathStatus::Directory,
    }
}

/// Whether anything was found at `path`.
pub fn file_exists(path: &str, snapshot: &Snapshot) -> (found: bool)
    ensures
        found == snapshot@.is_present(path@),
{
    snapshot.is_present(path)
}

/// Appends the query for `path` to `queries` where `snapshot` has not looked
/// at it yet.
pub fn push_status_query(path: &str, snapshot: &Snapshot, queries: &mut Vec<Query>)
    ensures
        query_views(final(queries)@) == query_views(old(queries)@) + spec_status_query(
            snapshot@,
            path@,
        ),
{
    if !snapshot.knows_status(path) {
        queries.push(Query::Status(String::from_str(path)));
        assert(query_views(queries@) =~= query_views(old(queries)@) + seq![
            QueryView::Status(path@),
        ]);
    } else {
        assert(query_views(queries@) =~= query_views(old(queries)@) + Seq::<QueryView>::empty());
    }
}

/// Appends to `queries` the queries for those of `paths` that `snapshot` has
/// not looked at.
pub fn push_status_queries(paths: &Vec<String>, snapshot: &Snapshot, queries: &mut Vec<Query>)
    ensures
        query_views(final(queries)@) == query_views(old(queries)@) + spec_status_queries(
            snapshot@,
            paths@.map_values(|p: String| p@),
        ),
{
    let ghost views = paths@.map_values(|p: String| p@);
    let mut i: usize = 0;
    while i < paths.len()
        invariant
            i <= paths.len(),
            views == paths@.map_values(|p: String| p@),
            query_views(queries@) == query_views(old(queries)@) + spec_status_queries(
                snapshot@,
                views.take(i as int),
            ),
        decreases paths.len() - i,
    {
        proof {
            assert(views.take(i + 1).drop_last() == views.take(i as int));
            assert(views.take(i + 1).last() == paths[i as int]@);
        }
        push_status_query(paths[i].as_str(), snapshot, queries);
        i += 1;
    }
    assert(views.take(paths.len() as int) == views);
}

/// What has to be looked at before [`get_path_info`] and [`file_exists`] can
/// speak for the file system: `path` itself, unless the snapshot holds it.
pub fn path_info_queries(path: &str, snapshot: &Snapshot) -> (queries: Vec<Query>)
    ensures
        query_views(queries@) == spec_status_query(snapshot@, path@),
{
    let mut queries: Vec<Query> = Vec::new();
    assert(query_views(queries@) =~= Seq::<QueryView>::empty());
    push_status_query(path, snapshot, &mut queries);
    queries
}

/// `get_path_info` and `file_exists` agree on whether a path exists, for
/// every path and every snapshot.
pub proof fn lemma_path_info_matches_file_exists(snapshot: SnapshotView, path: Seq<char>)
    ensures
        spec_path_info(snapshot, path).exists == snapshot.is_present(path),
        spec_path_info(snapshot, path).is_well_formed(),
{
}

} // verus!
