//! What holds of every listing of projects.

use crate::names::VocabularyView;
use crate::platform::Platform;
use crate::path_info::{spec_path_info, spec_status_queries};
use crate::paths::spec_join;
use crate::project::{
    ProjectInfoView, spec_entries_queries, spec_entry_is_project, spec_entry_queries,
    spec_has_instructions, spec_is_project, spec_list_projects, spec_list_projects_queries,
    spec_marker_path_list, spec_project_config_files, spec_project_info, spec_project_path_list,
    spec_projects_among,
};
use crate::settled::{
    lemma_known_listing_is_final, lemma_known_status_is_final, lemma_no_status_query_means_known,
};
use crate::snapshot::{EntryView, SnapshotView};
use vstd::prelude::*;

verus! {

/// Whether `project` is what the listing reports for `entry`, and `entry` is a
/// directory that is a project.
pub open spec fn spec_stands_for(
    snapshot: SnapshotView,
    entry: EntryView,
    project: ProjectInfoView,
    platform: Platform,
    vocabulary: VocabularyView,
) -> bool {
    &&& spec_entry_is_project(snapshot, entry, platform, vocabulary)
    &&& project == spec_project_info(snapshot, entry, platform, vocabulary)
}

/// Every project found among `entries` stands for one of them, and that one
/// is a directory with a marker path present.
pub proof fn lemma_projects_come_from_entries(
    snapshot: SnapshotView,
    entries: Seq<EntryView>,
    platform: Platform,
    vocabulary: VocabularyView,
)
    ensures
        forall|k: int|
            #![trigger spec_projects_among(snapshot, entries, platform, vocabulary)[k]]
            0 <= k < spec_projects_among(snapshot, entries, platform, vocabulary).len()
                ==> exists|i: int|
                0 <= i < entries.len() && spec_stands_for(
                    snapshot,
                    #[trigger] entries[i],
                    spec_projects_among(snapshot, entries, platform, vocabulary)[k],
                    platform,
                    vocabulary,
                ),
    decreases entries.len(),
{
    if entries.len() > 0 {
        let shorter = entries.drop_last();
        let found = spec_projects_among(snapshot, entries, platform, vocabulary);
        let before = spec_projects_among(snapshot, shorter, platform, vocabulary);
        lemma_projects_come_from_entries(snapshot, shorter, platform, vocabulary);
        assert forall|k: int| #![trigger found[k]] 0 <= k < found.len() implies exists|i: int|
            0 <= i < entries.len() && spec_stands_for(
                snapshot,
                #[trigger] entries[i],
                found[k],
                platform,
                vocabulary,
            ) by {
            if k < before.len() {
                let i = choose|i: int|
                    0 <= i < shorter.len() && spec_stands_for(
                        snapshot,
                        #[trigger] shorter[i],
                        before[k],
                        platform,
                        vocabulary,
                    );
                assert(entries[i] == shorter[i]);
            } else {
                let last = entries.len() - 1;
                assert(spec_stands_for(snapshot, entries[last], found[k], platform, vocabulary));
            }
        }
    }
}

/// Every one of `entries` that is a directory with a marker path present is
/// found as a project.
pub proof fn lemma_project_entries_are_found(
    snapshot: SnapshotView,
    entries: Seq<EntryView>,
    platform: Platform,
    vocabulary: VocabularyView,
)
    ensures
        forall|i: int|
            0 <= i < entries.len() && spec_entry_is_project(
                snapshot,
                #[trigger] entries[i],
                platform,
                vocabulary,
            ) ==> spec_projects_among(snapshot, entries, platform, vocabulary).contains(
                spec_project_info(snapshot, entries[i], platform, vocabulary),
            ),
    decreases entries.len(),
{
    if entries.len() > 0 {
        let shorter = entries.drop_last();
        let found = spec_projects_among(snapshot, entries, platform, vocabulary);
        let before = spec_projects_among(snapshot, shorter, platform, vocabulary);
        lemma_project_entries_are_found(snapshot, shorter, platform, vocabulary);
        assert forall|i: int|
            0 <= i < entries.len() && spec_entry_is_project(
                snapshot,
                #[trigger] entries[i],
                platform,
                vocabulary,
            ) implies found.contains(
            spec_project_info(snapshot, entries[i], platform, vocabulary),
        ) by {
            let info = spec_project_info(snapshot, entries[i], platform, vocabulary);
            if i < shorter.len() {
                assert(entries[i] == shorter[i]);
                let k = choose|k: int| 0 <= k < before.len() && before[k] == info;
                assert(found[k] == info);
            } else {
                assert(found[found.len() - 1] == info);
            }
        }
    }
}

/// Whether `project` carries the path and the name of `entry`, and `entry`
/// is a directory.
pub open spec fn spec_reports_directory(entry: EntryView, project: ProjectInfoView) -> bool {
    &&& entry.is_directory
    &&& project.path == entry.path
    &&& project.name == entry.name
    &&& project.id == entry.name
}

/// A listing of projects holds only immediate children of the base directory
/// that are directories: each project carries the path and the name of an
/// entry of the base directory's own listing, and that entry is a directory.
pub proof fn lemma_listed_projects_are_child_directories(
    snapshot: SnapshotView,
    base_dir: Seq<char>,
    platform: Platform,
    vocabulary: VocabularyView,
)
    ensures
        forall|k: int|
            #![trigger spec_list_projects(snapshot, base_dir, platform, vocabulary)[k]]
            0 <= k < spec_list_projects(snapshot, base_dir, platform, vocabulary).len()
                ==> exists|i: int|
                0 <= i < snapshot.entries(base_dir).len() && spec_reports_directory(
                    #[trigger] snapshot.entries(base_dir)[i],
                    spec_list_projects(snapshot, base_dir, platform, vocabulary)[k],
                ),
{
    let entries = snapshot.entries(base_dir);
    let found = spec_list_projects(snapshot, base_dir, platform, vocabulary);
    lemma_projects_come_from_entries(snapshot, entries, platform, vocabulary);
    assert forall|k: int| #![trigger found[k]] 0 <= k < found.len() implies exists|i: int|
        0 <= i < entries.len() && spec_reports_directory(#[trigger] entries[i], found[k]) by {
        let i = choose|i: int|
            0 <= i < entries.len() && spec_stands_for(
                snapshot,
                #[trigger] entries[i],
                found[k],
                platform,
                vocabulary,
            );
        assert(spec_reports_directory(entries[i], found[k]));
    }
}

/// Where the entries recorded for the base directory carry the paths of its
/// children, every listed project lies directly in the base directory: its
/// path is that of the base directory with the project's name joined to it.
pub proof fn lemma_listed_projects_lie_in_base(
    snapshot: SnapshotView,
    base_dir: Seq<char>,
    platform: Platform,
    vocabulary: VocabularyView,
)
    requires
        snapshot.lists_children_of(base_dir, platform),
    ensures
        forall|k: int|
            #![trigger spec_list_projects(snapshot, base_dir, platform, vocabulary)[k]]
            0 <= k < spec_list_projects(snapshot, base_dir, platform, vocabulary).len() ==> {
                let project = spec_list_projects(snapshot, base_dir, platform, vocabulary)[k];
                &&& project.path == spec_join(base_dir, project.name, platform)
                &&& project.id == project.name
            },
{
    let entries = snapshot.entries(base_dir);
    let found = spec_list_projects(snapshot, base_dir, platform, vocabulary);
    lemma_listed_projects_are_child_directories(snapshot, base_dir, platform, vocabulary);
    assert forall|k: int| #![trigger found[k]] 0 <= k < found.len() implies {
        &&& found[k].path == spec_join(base_dir, found[k].name, platform)
        &&& found[k].id == found[k].name
    } by {
        let i = choose|i: int|
            0 <= i < entries.len() && spec_reports_directory(#[trigger] entries[i], found[k]);
        assert(entries[i].path == spec_join(base_dir, entries[i].name, platform));
    }
}

/// Every listed project has a marker path present, so that a directory with
/// none of them is left out; and a listed project is reported to hold an
/// instructions file exactly where one is present at its root or in its
/// configuration directory.
pub proof fn lemma_listed_projects_are_marked(
    snapshot: SnapshotView,
    base_dir: Seq<char>,
    platform: Platform,
    vocabulary: VocabularyView,
)
    ensures
        forall|k: int|
            #![trigger spec_list_projects(snapshot, base_dir, platform, vocabulary)[k]]
            0 <= k < spec_list_projects(snapshot, base_dir, platform, vocabulary).len() ==> {
                let project = spec_list_projects(snapshot, base_dir, platform, vocabulary)[k];
                &&& spec_is_project(snapshot, project.path, platform, vocabulary)
                &&& project.has_claude_md == spec_has_instructions(
                    snapshot,
                    project.path,
                    platform,
                    vocabulary,
                )
            },
{
    let entries = snapshot.entries(base_dir);
    let found = spec_list_projects(snapshot, base_dir, platform, vocabulary);
    lemma_projects_come_from_entries(snapshot, entries, platform, vocabulary);
    assert forall|k: int| #![trigger found[k]] 0 <= k < found.len() implies {
        &&& spec_is_project(snapshot, found[k].path, platform, vocabulary)
        &&& found[k].has_claude_md == spec_has_instructions(
            snapshot,
            found[k].path,
            platform,
            vocabulary,
        )
    } by {
        let i = choose|i: int|
            0 <= i < entries.len() && spec_stands_for(
                snapshot,
                #[trigger] entries[i],
                found[k],
                platform,
                vocabulary,
            );
        assert(found[k].path == entries[i].path);
    }
}

/// Once nothing is asked for a directory entry, whether it is a project and
/// what is reported for it stay the same whatever more the snapshot comes to
/// hold.
pub proof fn lemma_settled_entry_is_final(
    small: SnapshotView,
    large: SnapshotView,
    entry: EntryView,
    platform: Platform,
    vocabulary: VocabularyView,
)
    requires
        small.is_part_of(large),
        spec_entry_queries(small, entry, platform, vocabulary).len() == 0,
    ensures
        spec_entry_is_project(large, entry, platform, vocabulary) == spec_entry_is_project(
            small,
            entry,
            platform,
            vocabulary,
        ),
        spec_entry_is_project(small, entry, platform, vocabulary) ==> spec_project_info(
            large,
            entry,
            platform,
            vocabulary,
        ) == spec_project_info(small, entry, platform, vocabulary),
{
    if entry.is_directory {
        let markers = spec_marker_path_list(entry.path, platform, vocabulary);
        lemma_no_status_query_means_known(small, markers);
        assert forall|i: int| 0 <= i < markers.len() implies large.is_present(
            #[trigger] markers[i],
        ) == small.is_present(markers[i]) by {
            lemma_known_status_is_final(small, large, markers[i]);
        }
        assert(large.is_present(markers[0]) == small.is_present(markers[0]));
        assert(large.is_present(markers[1]) == small.is_present(markers[1]));
        assert(spec_has_instructions(large, entry.path, platform, vocabulary)
            == spec_has_instructions(small, entry.path, platform, vocabulary));
        if spec_is_project(small, entry.path, platform, vocabulary) {
            let i = choose|i: int| 0 <= i < markers.len() && small.is_present(
                #[trigger] markers[i],
            );
            assert(large.is_present(markers[i]));
            let slots = spec_project_path_list(entry.path, platform, vocabulary);
            lemma_no_status_query_means_known(small, slots);
            assert forall|k: int| 0 <= k < slots.len() implies spec_path_info(
                large,
                #[trigger] slots[k],
            ) == spec_path_info(small, slots[k]) by {
                lemma_known_status_is_final(small, large, slots[k]);
            }
            assert(spec_path_info(large, slots[0]) == spec_path_info(small, slots[0]));
            assert(spec_path_info(large, slots[1]) == spec_path_info(small, slots[1]));
            assert(spec_path_info(large, slots[2]) == spec_path_info(small, slots[2]));
            assert(spec_path_info(large, slots[3]) == spec_path_info(small, slots[3]));
            assert(spec_path_info(large, slots[4]) == spec_path_info(small, slots[4]));
            assert(spec_path_info(large, slots[5]) == spec_path_info(small, slots[5]));
            assert(spec_path_info(large, slots[6]) == spec_path_info(small, slots[6]));
            assert(spec_path_info(large, slots[7]) == spec_path_info(small, slots[7]));
            assert(spec_path_info(large, slots[8]) == spec_path_info(small, slots[8]));
            assert(spec_path_info(large, slots[9]) == spec_path_info(small, slots[9]));
            assert(spec_project_config_files(large, entry.path, platform, vocabulary)
                == spec_project_config_files(small, entry.path, platform, vocabulary));
        } else if spec_is_project(large, entry.path, platform, vocabulary) {
            let i = choose|i: int| 0 <= i < markers.len() && large.is_present(
                #[trigger] markers[i],
            );
            assert(small.is_present(markers[i]));
        }
    }
}

/// Once nothing is asked for the entries of a directory, the projects among
/// them stay the same whatever more the snapshot comes to hold.
pub proof fn lemma_settled_entries_are_final(
    small: SnapshotView,
    large: SnapshotView,
    entries: Seq<EntryView>,
    platform: Platform,
    vocabulary: VocabularyView,
)
    requires
        small.is_part_of(large),
        spec_entries_queries(small, entries, platform, vocabulary).len() == 0,
    ensures
        spec_projects_among(large, entries, platform, vocabulary) == spec_projects_among(
            small,
            entries,
            platform,
            vocabulary,
        ),
    decreases entries.len(),
{
    if entries.len() > 0 {
        assert(spec_entries_queries(small, entries.drop_last(), platform, vocabulary).len() == 0);
        assert(spec_entry_queries(small, entries.last(), platform, vocabulary).len() == 0);
        lemma_settled_entries_are_final(small, large, entries.drop_last(), platform, vocabulary);
        lemma_settled_entry_is_final(small, large, entries.last(), platform, vocabulary);
    }
}

/// Once nothing is asked for a listing of projects, the listing stays the
/// same whatever more the snapshot comes to hold: a caller that looked at
/// everything that was asked for has the projects of the file system it
/// looked at.
pub proof fn lemma_settled_projects_are_final(
    small: SnapshotView,
    large: SnapshotView,
    base_dir: Seq<char>,
    platform: Platform,
    vocabulary: VocabularyView,
)
    requires
        small.is_part_of(large),
        spec_list_projects_queries(small, base_dir, platform, vocabulary).len() == 0,
    ensures
        spec_list_projects(large, base_dir, platform, vocabulary) == spec_list_projects(
            small,
            base_dir,
            platform,
            vocabulary,
        ),
{
    lemma_known_listing_is_final(small, large, base_dir);
    lemma_settled_entries_are_final(
        small,
        large,
        small.entries(base_dir),
        platform,
        vocabulary,
    );
}

} // verus!
