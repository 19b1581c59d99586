//! What holds of every scan for nested instructions files.

use crate::names::{VocabularyView, spec_is_excluded_name, spec_is_hidden_name};
use crate::overrides::{
    OverrideView, spec_discover, spec_is_scanned_entry, spec_local_override, spec_main_override,
    spec_own_overrides, spec_scan_directory, spec_scan_directory_queries, spec_scan_entries,
    spec_scan_entries_queries, spec_scan_entry, spec_scan_entry_queries,
};
use crate::path_info::spec_status_query;
use crate::paths::spec_join;
use crate::platform::Platform;
use crate::settled::{lemma_known_listing_is_final, lemma_known_status_is_final};
use crate::snapshot::{EntryView, SnapshotView};
use vstd::prelude::*;

verus! {

/// An entry that is hidden, excluded by name or no directory adds nothing to
/// a scan, at whatever depth it is met: neither a file of its own nor
/// anything below it.
pub proof fn lemma_unscanned_entry_adds_nothing(
    snapshot: SnapshotView,
    root: Seq<char>,
    entry: EntryView,
    depth: nat,
    max_depth: nat,
    platform: Platform,
    vocabulary: VocabularyView,
)
    requires
        spec_is_hidden_name(entry.name) || spec_is_excluded_name(entry.name)
            || !entry.is_directory,
    ensures
        spec_scan_entry(snapshot, root, entry, depth, max_depth, platform, vocabulary)
            == Seq::<OverrideView>::empty(),
{
}

/// Whether the walk from `root` reads the directory `dir` at `depth`: `dir`
/// is the root itself at depth 0, or it is the path of an entry that the walk
/// looks into, recorded for a directory that the walk reads one level up.
pub open spec fn spec_is_walked(
    snapshot: SnapshotView,
    root: Seq<char>,
    dir: Seq<char>,
    depth: nat,
    max_depth: nat,
) -> bool
    decreases depth,
{
    &&& depth <= max_depth
    &&& if depth == 0 {
        dir == root
    } else {
        exists|parent: Seq<char>, i: int|
            {
                &&& spec_is_walked(snapshot, root, parent, (depth - 1) as nat, max_depth)
                &&& 0 <= i < snapshot.entries(parent).len()
                &&& spec_is_scanned_entry(#[trigger] snapshot.entries(parent)[i])
                &&& snapshot.entries(parent)[i].path == dir
            }
    }
}

/// Whether `found` is the override for one of the two instructions files of
/// the directory entry `entry`, that file is present, and the scan looks into
/// `entry`.
pub open spec fn spec_is_override_of(
    snapshot: SnapshotView,
    root: Seq<char>,
    entry: EntryView,
    found: OverrideView,
    platform: Platform,
    vocabulary: VocabularyView,
) -> bool {
    &&& spec_is_scanned_entry(entry)
    &&& snapshot.is_present(found.full_path)
    &&& found.exists
    &&& {
        ||| found == spec_main_override(root, entry.path, platform, vocabulary)
        ||| found == spec_local_override(root, entry.path, platform, vocabulary)
    }
}

/// Whether `found` is the override of the entry at `at` in the listing of
/// `dir`, and the walk reads `dir` at `depth`.
pub open spec fn spec_is_found_at(
    snapshot: SnapshotView,
    root: Seq<char>,
    found: OverrideView,
    dir: Seq<char>,
    depth: nat,
    at: int,
    max_depth: nat,
    platform: Platform,
    vocabulary: VocabularyView,
) -> bool {
    &&& spec_is_walked(snapshot, root, dir, depth, max_depth)
    &&& 0 <= at < snapshot.entries(dir).len()
    &&& spec_is_override_of(snapshot, root, snapshot.entries(dir)[at], found, platform, vocabulary)
}

/// Whether `found` is the override of an entry that the walk came to: an
/// entry recorded for a directory that the walk reads, itself neither hidden
/// nor excluded by name, as is every entry on the way down to it.
pub open spec fn spec_has_source(
    snapshot: SnapshotView,
    root: Seq<char>,
    found: OverrideView,
    max_depth: nat,
    platform: Platform,
    vocabulary: VocabularyView,
) -> bool {
    exists|dir: Seq<char>, depth: nat, at: int| #[trigger]
        spec_is_found_at(snapshot, root, found, dir, depth, at, max_depth, platform, vocabulary)
}

/// Whether every override in `found` has a source.
pub open spec fn spec_all_have_sources(
    snapshot: SnapshotView,
    root: Seq<char>,
    found: Seq<OverrideView>,
    max_depth: nat,
    platform: Platform,
    vocabulary: VocabularyView,
) -> bool {
    forall|k: int|
        0 <= k < found.len() ==> spec_has_source(
            snapshot,
            root,
            #[trigger] found[k],
            max_depth,
            platform,
            vocabulary,
        )
}

/// Every override found below a directory that the walk reads is that of an
/// entry that the walk came to.
pub proof fn lemma_directory_overrides_have_sources(
    snapshot: SnapshotView,
    root: Seq<char>,
    dir: Seq<char>,
    depth: nat,
    max_depth: nat,
    platform: Platform,
    vocabulary: VocabularyView,
)
    requires
        depth <= max_depth ==> spec_is_walked(snapshot, root, dir, depth, max_depth),
    ensures
        spec_all_have_sources(
            snapshot,
            root,
            spec_scan_directory(snapshot, root, dir, depth, max_depth, platform, vocabulary),
            max_depth,
            platform,
            vocabulary,
        ),
    decreases 2 * (max_depth + 1 - depth), 0nat,
{
    if depth <= max_depth {
        let entries = snapshot.entries(dir);
        assert(entries.take(entries.len() as int) =~= entries);
        lemma_entries_overrides_have_sources(
            snapshot,
            root,
            dir,
            entries.len(),
            depth,
            max_depth,
            platform,
            vocabulary,
        );
    }
}

/// Every override found through the first `count` entries of a directory
/// that the walk reads is that of an entry that the walk came to.
pub proof fn lemma_entries_overrides_have_sources(
    snapshot: SnapshotView,
    root: Seq<char>,
    dir: Seq<char>,
    count: nat,
    depth: nat,
    max_depth: nat,
    platform: Platform,
    vocabulary: VocabularyView,
)
    requires
        spec_is_walked(snapshot, root, dir, depth, max_depth),
        count <= snapshot.entries(dir).len(),
    ensures
        spec_all_have_sources(
            snapshot,
            root,
            spec_scan_entries(
                snapshot,
                root,
                snapshot.entries(dir).take(count as int),
                depth,
                max_depth,
                platform,
                vocabulary,
            ),
            max_depth,
            platform,
            vocabulary,
        ),
    decreases 2 * (max_depth - depth) + 1, count,
{
    if count > 0 {
        let entries = snapshot.entries(dir).take(count as int);
        assert(entries.drop_last() =~= snapshot.entries(dir).take(count - 1));
        assert(entries.last() == snapshot.entries(dir)[count - 1]);
        lemma_entries_overrides_have_sources(
            snapshot,
            root,
            dir,
            (count - 1) as nat,
            depth,
            max_depth,
            platform,
            vocabulary,
        );
        lemma_entry_overrides_have_sources(
            snapshot,
            root,
            dir,
            count - 1,
            depth,
            max_depth,
            platform,
            vocabulary,
        );
    }
}

/// Every override found through the entry at `at` of a directory that the
/// walk reads is that of an entry that the walk came to.
pub proof fn lemma_entry_overrides_have_sources(
    snapshot: SnapshotView,
    root: Seq<char>,
    dir: Seq<char>,
    at: int,
    depth: nat,
    max_depth: nat,
    platform: Platform,
    vocabulary: VocabularyView,
)
    requires
        spec_is_walked(snapshot, root, dir, depth, max_depth),
        0 <= at < snapshot.entries(dir).len(),
    ensures
        spec_all_have_sources(
            snapshot,
            root,
            spec_scan_entry(
                snapshot,
                root,
                snapshot.entries(dir)[at],
                depth,
                max_depth,
                platform,
                vocabulary,
            ),
            max_depth,
            platform,
            vocabulary,
        ),
    decreases 2 * (max_depth - depth) + 1, 0nat,
{
    let entry = snapshot.entries(dir)[at];
    if spec_is_scanned_entry(entry) {
        let own = spec_own_overrides(snapshot, root, entry.path, platform, vocabulary);
        assert forall|k: int| 0 <= k < own.len() implies spec_has_source(
            snapshot,
            root,
            #[trigger] own[k],
            max_depth,
            platform,
            vocabulary,
        ) by {
            assert(spec_is_found_at(
                snapshot,
                root,
                own[k],
                dir,
                depth,
                at,
                max_depth,
                platform,
                vocabulary,
            ));
        }
        if depth + 1 <= max_depth {
            assert(spec_is_walked(snapshot, root, entry.path, depth + 1, max_depth)) by {
                assert(spec_is_scanned_entry(snapshot.entries(dir)[at]));
            }
        }
        lemma_directory_overrides_have_sources(
            snapshot,
            root,
            entry.path,
            depth + 1,
            max_depth,
            platform,
            vocabulary,
        );
    }
}

/// Every override that a scan reports is that of an entry that the walk came
/// to: recorded for a directory that the walk reads, neither hidden nor
/// excluded by name, as is every entry on the way down to it from the root;
/// and its file is present.
pub proof fn lemma_discovered_overrides_have_sources(
    snapshot: SnapshotView,
    project_path: Seq<char>,
    max_depth: nat,
    platform: Platform,
    vocabulary: VocabularyView,
)
    ensures
        spec_all_have_sources(
            snapshot,
            project_path,
            spec_discover(snapshot, project_path, max_depth, platform, vocabulary),
            max_depth,
            platform,
            vocabulary,
        ),
{
    lemma_directory_overrides_have_sources(
        snapshot,
        project_path,
        project_path,
        0,
        max_depth,
        platform,
        vocabulary,
    );
}

/// What the entries of one directory hold themselves, leaving out what lies
/// below them: for each entry that is scanned, in order, its own overrides.
pub open spec fn spec_children_overrides(
    snapshot: SnapshotView,
    root: Seq<char>,
    entries: Seq<EntryView>,
    platform: Platform,
    vocabulary: VocabularyView,
) -> Seq<OverrideView>
    decreases entries.len(),
{
    if entries.len() == 0 {
        Seq::empty()
    } else {
        let before = spec_children_overrides(
            snapshot,
            root,
            entries.drop_last(),
            platform,
            vocabulary,
        );
        if spec_is_scanned_entry(entries.last()) {
            before + spec_own_overrides(snapshot, root, entries.last().path, platform, vocabulary)
        } else {
            before
        }
    }
}

/// At the depth limit a scan takes what the entries hold themselves and does
/// not go below them.
pub proof fn lemma_scan_stops_at_the_limit(
    snapshot: SnapshotView,
    root: Seq<char>,
    entries: Seq<EntryView>,
    max_depth: nat,
    platform: Platform,
    vocabulary: VocabularyView,
)
    ensures
        spec_scan_entries(snapshot, root, entries, max_depth, max_depth, platform, vocabulary)
            == spec_children_overrides(snapshot, root, entries, platform, vocabulary),
    decreases entries.len(),
{
    if entries.len() > 0 {
        lemma_scan_stops_at_the_limit(
            snapshot,
            root,
            entries.drop_last(),
            max_depth,
            platform,
            vocabulary,
        );
        let entry = entries.last();
        let below = spec_scan_directory(
            snapshot,
            root,
            entry.path,
            max_depth + 1,
            max_depth,
            platform,
            vocabulary,
        );
        assert(below == Seq::<OverrideView>::empty());
        let own = spec_own_overrides(snapshot, root, entry.path, platform, vocabulary);
        assert(own + below =~= own);
        let before = spec_children_overrides(
            snapshot,
            root,
            entries.drop_last(),
            platform,
            vocabulary,
        );
        assert(before + Seq::<OverrideView>::empty() =~= before);
        let through = spec_scan_entry(
            snapshot,
            root,
            entry,
            max_depth,
            max_depth,
            platform,
            vocabulary,
        );
        assert(through == if spec_is_scanned_entry(entry) {
            own
        } else {
            Seq::<OverrideView>::empty()
        });
        assert(spec_scan_entries(
            snapshot,
            root,
            entries,
            max_depth,
            max_depth,
            platform,
            vocabulary,
        ) == spec_scan_entries(
            snapshot,
            root,
            entries.drop_last(),
            max_depth,
            max_depth,
            platform,
            vocabulary,
        ) + through);
    }
}

/// With a depth limit of 0 a scan reports what the immediate children of the
/// root hold themselves, and goes no deeper.
pub proof fn lemma_depth_zero_scans_children_only(
    snapshot: SnapshotView,
    project_path: Seq<char>,
    platform: Platform,
    vocabulary: VocabularyView,
)
    ensures
        spec_discover(snapshot, project_path, 0, platform, vocabulary) == spec_children_overrides(
            snapshot,
            project_path,
            snapshot.entries(project_path),
            platform,
            vocabulary,
        ),
{
    lemma_scan_stops_at_the_limit(
        snapshot,
        project_path,
        snapshot.entries(project_path),
        0,
        platform,
        vocabulary,
    );
}

/// Once nothing is asked below a directory, what a scan finds below it stays
/// the same whatever more the snapshot comes to hold.
pub proof fn lemma_settled_directory_is_final(
    small: SnapshotView,
    large: SnapshotView,
    root: Seq<char>,
    dir: Seq<char>,
    depth: nat,
    max_depth: nat,
    platform: Platform,
    vocabulary: VocabularyView,
)
    requires
        small.is_part_of(large),
        spec_scan_directory_queries(small, dir, depth, max_depth, platform, vocabulary).len() == 0,
    ensures
        spec_scan_directory(large, root, dir, depth, max_depth, platform, vocabulary)
            == spec_scan_directory(small, root, dir, depth, max_depth, platform, vocabulary),
    decreases 2 * (max_depth + 1 - depth), 0nat,
{
    if depth <= max_depth {
        lemma_known_listing_is_final(small, large, dir);
        lemma_settled_entries_are_final(
            small,
            large,
            root,
            small.entries(dir),
            depth,
            max_depth,
            platform,
            vocabulary,
        );
    }
}

/// Once nothing is asked for the entries of a directory, what a scan finds
/// through them stays the same whatever more the snapshot comes to hold.
pub proof fn lemma_settled_entries_are_final(
    small: SnapshotView,
    large: SnapshotView,
    root: Seq<char>,
    entries: Seq<EntryView>,
    depth: nat,
    max_depth: nat,
    platform: Platform,
    vocabulary: VocabularyView,
)
    requires
        small.is_part_of(large),
        spec_scan_entries_queries(small, entries, depth, max_depth, platform, vocabulary).len()
            == 0,
    ensures
        spec_scan_entries(large, root, entries, depth, max_depth, platform, vocabulary)
            == spec_scan_entries(small, root, entries, depth, max_depth, platform, vocabulary),
    decreases 2 * (max_depth - depth) + 1, entries.len(),
{
    if depth <= max_depth && entries.len() > 0 {
        assert(spec_scan_entries_queries(
            small,
            entries.drop_last(),
            depth,
            max_depth,
            platform,
            vocabulary,
        ).len() == 0);
        assert(spec_scan_entry_queries(
            small,
            entries.last(),
            depth,
            max_depth,
            platform,
            vocabulary,
        ).len() == 0);
        lemma_settled_entries_are_final(
            small,
            large,
            root,
            entries.drop_last(),
            depth,
            max_depth,
            platform,
            vocabulary,
        );
        lemma_settled_entry_is_final(
            small,
            large,
            root,
            entries.last(),
            depth,
            max_depth,
            platform,
            vocabulary,
        );
    }
}

/// Once nothing is asked for one entry of a directory, what a scan finds
/// through it stays the same whatever more the snapshot comes to hold.
pub proof fn lemma_settled_entry_is_final(
    small: SnapshotView,
    large: SnapshotView,
    root: Seq<char>,
    entry: EntryView,
    depth: nat,
    max_depth: nat,
    platform: Platform,
    vocabulary: VocabularyView,
)
    requires
        small.is_part_of(large),
        spec_scan_entry_queries(small, entry, depth, max_depth, platform, vocabulary).len() == 0,
    ensures
        spec_scan_entry(large, root, entry, depth, max_depth, platform, vocabulary)
            == spec_scan_entry(small, root, entry, depth, max_depth, platform, vocabulary),
    decreases 2 * (max_depth - depth) + 1, 0nat,
{
    if depth <= max_depth && spec_is_scanned_entry(entry) {
        let main = spec_join(entry.path, vocabulary.instructions_file, platform);
        let local = spec_join(entry.path, vocabulary.local_instructions_file, platform);
        assert(spec_status_query(small, main).len() == 0);
        assert(spec_status_query(small, local).len() == 0);
        assert(spec_scan_directory_queries(
            small,
            entry.path,
            depth + 1,
            max_depth,
            platform,
            vocabulary,
        ).len() == 0);
        lemma_known_status_is_final(small, large, main);
        lemma_known_status_is_final(small, large, local);
        lemma_settled_directory_is_final(
            small,
            large,
            root,
            entry.path,
            depth + 1,
            max_depth,
            platform,
            vocabulary,
        );
    }
}

/// Once nothing is asked for a scan, its result stays the same whatever more
/// the snapshot comes to hold: a caller that looked at everything that was
/// asked for has the overrides of the file system it looked at.
pub proof fn lemma_settled_scan_is_final(
    small: SnapshotView,
    large: SnapshotView,
    project_path: Seq<char>,
    max_depth: nat,
    platform: Platform,
    vocabulary: VocabularyView,
)
    requires
        small.is_part_of(large),
        spec_scan_directory_queries(small, project_path, 0, max_depth, platform, vocabulary).len()
            == 0,
    ensures
        spec_discover(large, project_path, max_depth, platform, vocabulary) == spec_discover(
            small,
            project_path,
            max_depth,
            platform,
            vocabulary,
        ),
{
    lemma_settled_directory_is_final(
        small,
        large,
        project_path,
        project_path,
        0,
        max_depth,
        platform,
        vocabulary,
    );
}

} // verus!
