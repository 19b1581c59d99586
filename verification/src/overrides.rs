//! Instructions files nested below a project's root.
//!
//! The scan walks the tree depth first. The root is at depth 0 and each
//! level below adds one; a directory deeper than the limit is not read.
//! Hidden entries and the directories of dependencies, build output, version
//! control and caches are passed over with everything below them.

use crate::names::{
    LOCAL_SUFFIX, Vocabulary, VocabularyView, is_excluded_name, is_hidden_name,
    spec_is_excluded_name, spec_is_hidden_name,
};
use crate::path_info::{push_status_query, spec_status_query};
use crate::paths::{join, relative_path, spec_join, spec_relative_path};
use crate::platform::Platform;
use crate::snapshot::{
    DirectoryEntry, EntryView, Listing, Query, QueryView, Snapshot, SnapshotView, entry_views,
    query_views,
};
use vstd::prelude::*;

verus! {

/// The depth limit of a scan that names none.
pub const DEFAULT_MAX_DEPTH: usize = 5;

/// An instructions file found below a project's root.
#[derive(Debug)]
pub struct SubdirectoryOverride {
    /// The directory that holds the file, relative to the scanned root; for
    /// the local instructions file, followed by the local mark.
    pub relative_path: String,
    /// The path of the file itself.
    pub full_path: String,
    pub exists: bool,
}

/// A [`SubdirectoryOverride`] as contracts see it.
pub struct OverrideView {
    pub relative_path: Seq<char>,
    pub full_path: Seq<char>,
    pub exists: bool,
}

impl View for SubdirectoryOverride {
    type V = OverrideView;

    open spec fn view(&self) -> OverrideView {
        OverrideView {
            relative_path: self.relative_path@,
            full_path: self.full_path@,
            exists: self.exists,
        }
    }
}

/// The views of a sequence of overrides, in the same order.
pub open spec fn override_views(overrides: Seq<SubdirectoryOverride>) -> Seq<OverrideView> {
    overrides.map_values(|o: SubdirectoryOverride| o@)
}

/// The depth limit that `max_depth` asks for.
pub open spec fn spec_depth_limit(max_depth: Option<usize>) -> nat {
    match max_depth {
        Some(limit) => limit as nat,
        None => DEFAULT_MAX_DEPTH as nat,
    }
}

/// Whether the scan looks into `entry`: a directory that is neither hidden
/// nor excluded by name.
pub open spec fn spec_is_scanned_entry(entry: EntryView) -> bool {
    &&& !spec_is_hidden_name(entry.name)
    &&& !spec_is_excluded_name(entry.name)
    &&& entry.is_directory
}

/// How `path` is reported: relative to `root` where it lies at or under it,
/// else as it is.
pub open spec fn spec_reported_path(root: Seq<char>, path: Seq<char>, platform: Platform) -> Seq<
    char,
> {
    match spec_relative_path(root, path, platform) {
        Some(relative) => relative,
        None => path,
    }
}

/// The override for the instructions file of the directory `dir`.
pub open spec fn spec_main_override(
    root: Seq<char>,
    dir: Seq<char>,
    platform: Platform,
    vocabulary: VocabularyView,
) -> OverrideView {
    OverrideView {
        relative_path: spec_reported_path(root, dir, platform),
        full_path: spec_join(dir, vocabulary.instructions_file, platform),
        exists: true,
    }
}

/// The override for the local instructions file of the directory `dir`.
pub open spec fn spec_local_override(
    root: Seq<char>,
    dir: Seq<char>,
    platform: Platform,
    vocabulary: VocabularyView,
) -> OverrideView {
    OverrideView {
        relative_path: spec_reported_path(root, dir, platform) + LOCAL_SUFFIX@,
        full_path: spec_join(dir, vocabulary.local_instructions_file, platform),
        exists: true,
    }
}

/// The overrides that the directory `dir` itself holds: its instructions
/// file where that is present, then its local instructions file where that is
/// present.
pub open spec fn spec_own_overrides(
    snapshot: SnapshotView,
    root: Seq<char>,
    dir: Seq<char>,
    platform: Platform,
    vocabulary: VocabularyView,
) -> Seq<OverrideView> {
    let main = if snapshot.is_present(spec_join(dir, vocabulary.instructions_file, platform)) {
        seq![spec_main_override(root, dir, platform, vocabulary)]
    } else {
        Seq::empty()
    };
    let local = if snapshot.is_present(
        spec_join(dir, vocabulary.local_instructions_file, platform),
    ) {
        seq![spec_local_override(root, dir, platform, vocabulary)]
    } else {
        Seq::empty()
    };
    main + local
}

/// The overrides found below the directory `dir`, which lies at `depth`:
/// none where `depth` is over the limit, else those of its entries.
pub open spec fn spec_scan_directory(
    snapshot: SnapshotView,
    root: Seq<char>,
    dir: Seq<char>,
    depth: nat,
    max_depth: nat,
    platform: Platform,
    vocabulary: VocabularyView,
) -> Seq<OverrideView>
    decreases 2 * (max_depth + 1 - depth), 0nat,
{
    if depth > max_depth {
        Seq::empty()
    } else {
        spec_scan_entries(
            snapshot,
            root,
            snapshot.entries(dir),
            depth,
            max_depth,
            platform,
            vocabulary,
        )
    }
}

/// The overrides found through `entries`, the entries of a directory at
/// `depth`: for each entry that is scanned, in order, what the entry itself
/// holds and then what lies below it.
pub open spec fn spec_scan_entries(
    snapshot: SnapshotView,
    root: Seq<char>,
    entries: Seq<EntryView>,
    depth: nat,
    max_depth: nat,
    platform: Platform,
    vocabulary: VocabularyView,
) -> Seq<OverrideView>
    decreases 2 * (max_depth - depth) + 1, entries.len(),
{
    if depth > max_depth || entries.len() == 0 {
        Seq::empty()
    } else {
        let before = spec_scan_entries(
            snapshot,
            root,
            entries.drop_last(),
            depth,
            max_depth,
            platform,
            vocabulary,
        );
        before + spec_scan_entry(
            snapshot,
            root,
            entries.last(),
            depth,
            max_depth,
            platform,
            vocabulary,
        )
    }
}

/// The overrides found through one entry of a directory at `depth`: none
/// where the entry is not scanned, else what it holds itself and then what
/// lies below it.
pub open spec fn spec_scan_entry(
    snapshot: SnapshotView,
    root: Seq<char>,
    entry: EntryView,
    depth: nat,
    max_depth: nat,
    platform: Platform,
    vocabulary: VocabularyView,
) -> Seq<OverrideView>
    decreases 2 * (max_depth - depth) + 1, 0nat,
{
    if depth > max_depth || !spec_is_scanned_entry(entry) {
        Seq::empty()
    } else {
        spec_own_overrides(snapshot, root, entry.path, platform, vocabulary) + spec_scan_directory(
            snapshot,
            root,
            entry.path,
            depth + 1,
            max_depth,
            platform,
            vocabulary,
        )
    }
}

/// The overrides below the project at `project_path`, down to `max_depth`.
pub open spec fn spec_discover(
    snapshot: SnapshotView,
    project_path: Seq<char>,
    max_depth: nat,
    platform: Platform,
    vocabulary: VocabularyView,
) -> Seq<OverrideView> {
    spec_scan_directory(snapshot, project_path, project_path, 0, max_depth, platform, vocabulary)
}

/// What has to be looked at below the directory `dir`, which lies at
/// `depth`: nothing where `depth` is over the limit; the listing of `dir`
/// where the snapshot does not hold it; else what its entries need.
pub open spec fn spec_scan_directory_queries(
    snapshot: SnapshotView,
    dir: Seq<char>,
    depth: nat,
    max_depth: nat,
    platform: Platform,
    vocabulary: VocabularyView,
) -> Seq<QueryView>
    decreases 2 * (max_depth + 1 - depth), 0nat,
{
    if depth > max_depth {
        Seq::empty()
    } else if !snapshot.knows_listing(dir) {
        seq![QueryView::Listing(dir)]
    } else {
        spec_scan_entries_queries(
            snapshot,
            snapshot.entries(dir),
            depth,
            max_depth,
            platform,
            vocabulary,
        )
    }
}

/// What has to be looked at for `entries`, the entries of a directory at
/// `depth`, in the order of `entries`.
pub open spec fn spec_scan_entries_queries(
    snapshot: SnapshotView,
    entries: Seq<EntryView>,
    depth: nat,
    max_depth: nat,
    platform: Platform,
    vocabulary: VocabularyView,
) -> Seq<QueryView>
    decreases 2 * (max_depth - depth) + 1, entries.len(),
{
    if depth > max_depth || entries.len() == 0 {
        Seq::empty()
    } else {
        let before = spec_scan_entries_queries(
            snapshot,
            entries.drop_last(),
            depth,
            max_depth,
            platform,
            vocabulary,
        );
        before + spec_scan_entry_queries(
            snapshot,
            entries.last(),
            depth,
            max_depth,
            platform,
            vocabulary,
        )
    }
}

/// What has to be looked at for one entry of a directory at `depth`: nothing
/// where the entry is not scanned; else its two instructions files, as far
/// as the snapshot does not hold them, and what lies below it.
pub open spec fn spec_scan_entry_queries(
    snapshot: SnapshotView,
    entry: EntryView,
    depth: nat,
    max_depth: nat,
    platform: Platform,
    vocabulary: VocabularyView,
) -> Seq<QueryView>
    decreases 2 * (max_depth - depth) + 1, 0nat,
{
    if depth > max_depth || !spec_is_scanned_entry(entry) {
        Seq::empty()
    } else {
        spec_status_query(snapshot, spec_join(entry.path, vocabulary.instructions_file, platform))
            + spec_status_query(
            snapshot,
            spec_join(entry.path, vocabulary.local_instructions_file, platform),
        ) + spec_scan_directory_queries(
            snapshot,
            entry.path,
            depth + 1,
            max_depth,
            platform,
            vocabulary,
        )
    }
}

/// The depth limit that `max_depth` asks for.
pub fn depth_limit(max_depth: Option<usize>) -> (limit: usize)
    ensures
        limit == spec_depth_limit(max_depth),
{
    match max_depth {
        Some(limit) => limit,
        None => DEFAULT_MAX_DEPTH,
    }
}

/// Whether the scan looks into `entry`.
pub fn is_scanned_entry(entry: &DirectoryEntry) -> (scanned: bool)
    ensures
        scanned == spec_is_scanned_entry(entry@),
{
    !is_hidden_name(entry.name.as_str()) && !is_excluded_name(entry.name.as_str())
        && entry.is_directory
}

/// How `path` is reported: relative to `root` where it lies at or under it,
/// else as it is.
pub fn reported_path(root: &str, path: &str, platform: Platform) -> (reported: String)
    ensures
        reported@ == spec_reported_path(root@, path@, platform),
{
    match relative_path(root, path, platform) {
        Some(relative) => relative,
        None => String::from_str(path),
    }
}

/// Appends to `found` the overrides that the directory `dir` itself holds.
fn push_own_overrides(
    root: &str,
    dir: &str,
    platform: Platform,
    vocabulary: &Vocabulary,
    snapshot: &Snapshot,
    found: &mut Vec<SubdirectoryOverride>,
)
    ensures
        override_views(final(found)@) == override_views(old(found)@) + spec_own_overrides(
            snapshot@,
            root@,
            dir@,
            platform,
            vocabulary@,
        ),
{
    let ghost before = override_views(found@);
    let main = join(dir, vocabulary.instructions_file.as_str(), platform);
    if snapshot.is_present(main.as_str()) {
        found.push(
            SubdirectoryOverride {
                relative_path: reported_path(root, dir, platform),
                full_path: main,
                exists: true,
            },
        );
    }
    let ghost middle = override_views(found@);
    assert(middle =~= before + if snapshot@.is_present(
        spec_join(dir@, vocabulary@.instructions_file, platform),
    ) {
        seq![spec_main_override(root@, dir@, platform, vocabulary@)]
    } else {
        Seq::empty()
    });
    let local = join(dir, vocabulary.local_instructions_file.as_str(), platform);
    if snapshot.is_present(local.as_str()) {
        let mut relative = reported_path(root, dir, platform);
        relative.append(LOCAL_SUFFIX);
        found.push(
            SubdirectoryOverride { relative_path: relative, full_path: local, exists: true },
        );
    }
    assert(override_views(found@) =~= middle + if snapshot@.is_present(
        spec_join(dir@, vocabulary@.local_instructions_file, platform),
    ) {
        seq![spec_local_override(root@, dir@, platform, vocabulary@)]
    } else {
        Seq::empty()
    });
    assert(override_views(found@) =~= before + spec_own_overrides(
        snapshot@,
        root@,
        dir@,
        platform,
        vocabulary@,
    ));
}

/// Appends to `found` the overrides found below the directory `dir`, which
/// lies at `depth`.
fn scan_directory(
    root: &str,
    dir: &str,
    depth: usize,
    max_depth: usize,
    platform: Platform,
    vocabulary: &Vocabulary,
    snapshot: &Snapshot,
    found: &mut Vec<SubdirectoryOverride>,
)
    requires
        depth <= max_depth,
    ensures
        override_views(final(found)@) == override_views(old(found)@) + spec_scan_directory(
            snapshot@,
            root@,
            dir@,
            depth as nat,
            max_depth as nat,
            platform,
            vocabulary@,
        ),
    decreases max_depth - depth,
{
    let ghost start = override_views(found@);
    match snapshot.entries(dir) {
        None => {
            assert(start + Seq::<OverrideView>::empty() =~= start);
        },
        Some(entries) => {
            let ghost views = entry_views(entries@);
            assert(views == snapshot@.entries(dir@));
            assert(start + Seq::<OverrideView>::empty() =~= start);
            let mut i: usize = 0;
            while i < entries.len()
                invariant
                    i <= entries.len(),
                    depth <= max_depth,
                    views == entry_views(entries@),
                    override_views(found@) == start + spec_scan_entries(
                        snapshot@,
                        root@,
                        views.take(i as int),
                        depth as nat,
                        max_depth as nat,
                        platform,
                        vocabulary@,
                    ),
                decreases entries.len() - i,
            {
                let entry = &entries[i];
                let ghost before = spec_scan_entries(
                    snapshot@,
                    root@,
                    views.take(i as int),
                    depth as nat,
                    max_depth as nat,
                    platform,
                    vocabulary@,
                );
                proof {
                    assert(views.take(i + 1).drop_last() == views.take(i as int));
                    assert(views.take(i + 1).last() == entry@);
                }
                if is_scanned_entry(entry) {
                    push_own_overrides(
                        root,
                        entry.path.as_str(),
                        platform,
                        vocabulary,
                        snapshot,
                        found,
                    );
                    let ghost own = spec_own_overrides(
                        snapshot@,
                        root@,
                        entry@.path,
                        platform,
                        vocabulary@,
                    );
                    if depth < max_depth {
                        scan_directory(
                            root,
                            entry.path.as_str(),
                            depth + 1,
                            max_depth,
                            platform,
                            vocabulary,
                            snapshot,
                            found,
                        );
                    }
                    let ghost below = spec_scan_directory(
                        snapshot@,
                        root@,
                        entry@.path,
                        depth as nat + 1,
                        max_depth as nat,
                        platform,
                        vocabulary@,
                    );
                    assert(override_views(found@) =~= start + before + own + below);
                    assert(start + before + own + below =~= start + (before + (own + below)));
                } else {
                    assert(before + Seq::<OverrideView>::empty() =~= before);
                }
                assert(spec_scan_entries(
                    snapshot@,
                    root@,
                    views.take(i + 1),
                    depth as nat,
                    max_depth as nat,
                    platform,
                    vocabulary@,
                ) == before + spec_scan_entry(
                    snapshot@,
                    root@,
                    entry@,
                    depth as nat,
                    max_depth as nat,
                    platform,
                    vocabulary@,
                ));
                i += 1;
            }
            assert(views.take(entries.len() as int) == views);
        },
    }
}

/// Finds the instructions files nested below the project at `project_path`,
/// in the order of a depth-first walk. `max_depth` limits how deep the walk
/// reads directories, the root being at depth 0; without it the limit is
/// [`DEFAULT_MAX_DEPTH`]. Directories that the snapshot holds no readable
/// listing for add nothing.
pub fn discover_subdirectory_overrides(
    project_path: &str,
    max_depth: Option<usize>,
    platform: Platform,
    vocabulary: &Vocabulary,
    snapshot: &Snapshot,
) -> (found: Vec<SubdirectoryOverride>)
    ensures
        override_views(found@) == spec_discover(
            snapshot@,
            project_path@,
            spec_depth_limit(max_depth),
            platform,
            vocabulary@,
        ),
{
    let mut found: Vec<SubdirectoryOverride> = Vec::new();
    assert(override_views(found@) =~= Seq::<OverrideView>::empty());
    scan_directory(
        project_path,
        project_path,
        0,
        depth_limit(max_depth),
        platform,
        vocabulary,
        snapshot,
        &mut found,
    );
    found
}

/// Appends to `queries` what has to be looked at below the directory `dir`,
/// which lies at `depth`.
fn push_scan_queries(
    dir: &str,
    depth: usize,
    max_depth: usize,
    platform: Platform,
    vocabulary: &Vocabulary,
    snapshot: &Snapshot,
    queries: &mut Vec<Query>,
)
    requires
        depth <= max_depth,
    ensures
        query_views(final(queries)@) == query_views(old(queries)@) + spec_scan_directory_queries(
            snapshot@,
            dir@,
            depth as nat,
            max_depth as nat,
            platform,
            vocabulary@,
        ),
    decreases max_depth - depth,
{
    let ghost start = query_views(queries@);
    match snapshot.listing(dir) {
        None => {
            queries.push(Query::Listing(String::from_str(dir)));
            assert(query_views(queries@) =~= start + seq![QueryView::Listing(dir@)]);
        },
        Some(Listing::Unreadable) => {
            assert(start + Seq::<QueryView>::empty() =~= start);
        },
        Some(Listing::Entries(entries)) => {
            let ghost views = entry_views(entries@);
            assert(start + Seq::<QueryView>::empty() =~= start);
            let mut i: usize = 0;
            while i < entries.len()
                invariant
                    i <= entries.len(),
                    depth <= max_depth,
                    views == entry_views(entries@),
                    query_views(queries@) == start + spec_scan_entries_queries(
                        snapshot@,
                        views.take(i as int),
                        depth as nat,
                        max_depth as nat,
                        platform,
                        vocabulary@,
                    ),
                decreases entries.len() - i,
            {
                let entry = &entries[i];
                let ghost before = spec_scan_entries_queries(
                    snapshot@,
                    views.take(i as int),
                    depth as nat,
                    max_depth as nat,
                    platform,
                    vocabulary@,
                );
                proof {
                    assert(views.take(i + 1).drop_last() == views.take(i as int));
                    assert(views.take(i + 1).last() == entry@);
                }
                if is_scanned_entry(entry) {
                    let main = join(
                        entry.path.as_str(),
                        vocabulary.instructions_file.as_str(),
                        platform,
                    );
                    let local = join(
                        entry.path.as_str(),
                        vocabulary.local_instructions_file.as_str(),
                        platform,
                    );
                    push_status_query(main.as_str(), snapshot, queries);
                    push_status_query(local.as_str(), snapshot, queries);
                    if depth < max_depth {
                        push_scan_queries(
                            entry.path.as_str(),
                            depth + 1,
                            max_depth,
                            platform,
                            vocabulary,
                            snapshot,
                            queries,
                        );
                    }
                    let ghost first = spec_status_query(snapshot@, main@);
                    let ghost second = spec_status_query(snapshot@, local@);
                    let ghost below = spec_scan_directory_queries(
                        snapshot@,
                        entry@.path,
                        depth as nat + 1,
                        max_depth as nat,
                        platform,
                        vocabulary@,
                    );
                    assert(query_views(queries@) =~= start + before + first + second + below);
                    assert(start + before + first + second + below =~= start + (before + (first
                        + second + below)));
                } else {
                    assert(before + Seq::<QueryView>::empty() =~= before);
                }
                assert(spec_scan_entries_queries(
                    snapshot@,
                    views.take(i + 1),
                    depth as nat,
                    max_depth as nat,
                    platform,
                    vocabulary@,
                ) == before + spec_scan_entry_queries(
                    snapshot@,
                    entry@,
                    depth as nat,
                    max_depth as nat,
                    platform,
                    vocabulary@,
                ));
                i += 1;
            }
            assert(views.take(entries.len() as int) == views);
        },
    }
}

/// What has to be looked at before [`discover_subdirectory_overrides`] can
/// speak for the file system. Where nothing is returned, the snapshot holds
/// the listing of every directory that the walk reads and both instructions
/// files of every directory that it looks into.
pub fn override_queries(
    project_path: &str,
    max_depth: Option<usize>,
    platform: Platform,
    vocabulary: &Vocabulary,
    snapshot: &Snapshot,
) -> (queries: Vec<Query>)
    ensures
        query_views(queries@) == spec_scan_directory_queries(
            snapshot@,
            project_path@,
            0,
            spec_depth_limit(max_depth),
            platform,
            vocabulary@,
        ),
{
    let mut queries: Vec<Query> = Vec::new();
    assert(query_views(queries@) =~= Seq::<QueryView>::empty());
    push_scan_queries(
        project_path,
        0,
        depth_limit(max_depth),
        platform,
        vocabulary,
        snapshot,
        &mut queries,
    );
    queries
}

} // verus!
