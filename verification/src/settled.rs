//! Why a caller may stop looking once nothing more is asked for.
//!
//! A snapshot is part of another where the other holds all that the first
//! holds, unchanged. The laws here say that an answer for which no query is
//! left is the answer of every snapshot that the first is part of: whatever
//! more is learned of the file system, the answer stands.

use crate::names::VocabularyView;
use crate::path_info::{spec_path_info, spec_status_queries, spec_status_query};
use crate::platform::Platform;
use crate::snapshot::{QueryView, SnapshotView};
use crate::well_known::{spec_config_paths, spec_enterprise_path_list, spec_user_path_list};
use vstd::prelude::*;

verus! {

/// What a snapshot holds of a path, every snapshot that it is part of holds
/// too.
pub proof fn lemma_known_status_is_final(small: SnapshotView, large: SnapshotView, path: Seq<char>)
    requires
        small.is_part_of(large),
        small.knows_status(path),
    ensures
        large.knows_status(path),
        large.status(path) == small.status(path),
        large.is_present(path) == small.is_present(path),
        large.is_directory(path) == small.is_directory(path),
        spec_path_info(large, path) == spec_path_info(small, path),
{
    assert(small.statuses.dom().contains(path));
}

/// What a snapshot holds of a directory's entries, every snapshot that it is
/// part of holds too.
pub proof fn lemma_known_listing_is_final(
    small: SnapshotView,
    large: SnapshotView,
    path: Seq<char>,
)
    requires
        small.is_part_of(large),
        small.knows_listing(path),
    ensures
        large.knows_listing(path),
        large.listings[path] == small.listings[path],
        large.entries(path) == small.entries(path),
{
    assert(small.listings.dom().contains(path));
}

/// Where no query is left for a list of paths, the snapshot holds every one
/// of them.
pub proof fn lemma_no_status_query_means_known(snapshot: SnapshotView, paths: Seq<Seq<char>>)
    requires
        spec_status_queries(snapshot, paths).len() == 0,
    ensures
        forall|i: int| 0 <= i < paths.len() ==> snapshot.knows_status(#[trigger] paths[i]),
    decreases paths.len(),
{
    if paths.len() > 0 {
        let shorter = paths.drop_last();
        assert(spec_status_queries(snapshot, shorter).len() == 0);
        assert(spec_status_query(snapshot, paths.last()).len() == 0);
        lemma_no_status_query_means_known(snapshot, shorter);
        assert forall|i: int| 0 <= i < paths.len() implies snapshot.knows_status(
            #[trigger] paths[i],
        ) by {
            if i < shorter.len() {
                assert(paths[i] == shorter[i]);
            }
        }
    }
}

/// Where no query is left for a list of paths, none is left in any snapshot
/// that this one is part of.
pub proof fn lemma_no_status_query_is_final(
    small: SnapshotView,
    large: SnapshotView,
    paths: Seq<Seq<char>>,
)
    requires
        small.is_part_of(large),
        spec_status_queries(small, paths).len() == 0,
    ensures
        spec_status_queries(large, paths) == Seq::<QueryView>::empty(),
    decreases paths.len(),
{
    if paths.len() > 0 {
        let shorter = paths.drop_last();
        assert(spec_status_queries(small, shorter).len() == 0);
        assert(spec_status_query(small, paths.last()).len() == 0);
        lemma_no_status_query_is_final(small, large, shorter);
        lemma_known_status_is_final(small, large, paths.last());
        assert(Seq::<QueryView>::empty() + Seq::<QueryView>::empty() =~= Seq::<
            QueryView,
        >::empty());
    }
}

/// Once nothing is asked for the configuration paths, they are reported the
/// same whatever more the snapshot comes to hold.
pub proof fn lemma_settled_config_paths_are_final(
    small: SnapshotView,
    large: SnapshotView,
    home: Seq<char>,
    platform: Platform,
    vocabulary: VocabularyView,
)
    requires
        small.is_part_of(large),
        (spec_status_queries(small, spec_enterprise_path_list(platform, vocabulary))
            + spec_status_queries(small, spec_user_path_list(home, platform, vocabulary))).len()
            == 0,
    ensures
        spec_config_paths(large, home, platform, vocabulary) == spec_config_paths(
            small,
            home,
            platform,
            vocabulary,
        ),
{
    let enterprise = spec_enterprise_path_list(platform, vocabulary);
    let user = spec_user_path_list(home, platform, vocabulary);
    lemma_no_status_query_means_known(small, enterprise);
    lemma_no_status_query_means_known(small, user);
    assert forall|i: int| 0 <= i < enterprise.len() implies spec_path_info(
        large,
        #[trigger] enterprise[i],
    ) == spec_path_info(small, enterprise[i]) by {
        lemma_known_status_is_final(small, large, enterprise[i]);
    }
    assert forall|i: int| 0 <= i < user.len() implies spec_path_info(large, #[trigger] user[i])
        == spec_path_info(small, user[i]) by {
        lemma_known_status_is_final(small, large, user[i]);
    }
    assert(spec_path_info(large, enterprise[0]) == spec_path_info(small, enterprise[0]));
    assert(spec_path_info(large, enterprise[1]) == spec_path_info(small, enterprise[1]));
    assert(spec_path_info(large, enterprise[2]) == spec_path_info(small, enterprise[2]));
    assert(spec_path_info(large, user[0]) == spec_path_info(small, user[0]));
    assert(spec_path_info(large, user[1]) == spec_path_info(small, user[1]));
    assert(spec_path_info(large, user[2]) == spec_path_info(small, user[2]));
    assert(spec_path_info(large, user[3]) == spec_path_info(small, user[3]));
    assert(spec_path_info(large, user[4]) == spec_path_info(small, user[4]));
    assert(spec_path_info(large, user[5]) == spec_path_info(small, user[5]));
    assert(spec_path_info(large, user[6]) == spec_path_info(small, user[6]));
    assert(spec_path_info(large, user[7]) == spec_path_info(small, user[7]));
}

} // verus!
