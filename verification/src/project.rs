//! Projects among the immediate children of a directory, and the
//! configuration files of each.

use crate::names::{
    AGENTS_DIRECTORY, COMMANDS_DIRECTORY, LOCAL_SETTINGS_FILE, PROJECT_REGISTRY_FILE,
    RULES_DIRECTORY, SETTINGS_FILE, SKILLS_DIRECTORY, VERSION_CONTROL_DIRECTORY, Vocabulary,
    VocabularyView,
};
use crate::path_info::{
    ConfigPathInfo, PathInfoView, get_path_info, push_status_queries, spec_path_info,
    spec_status_queries,
};
use crate::paths::{join, spec_join};
use crate::platform::Platform;
use crate::snapshot::{
    DirectoryEntry, EntryView, Listing, Query, QueryView, Snapshot, SnapshotView, entry_views,
    query_views,
};
use vstd::prelude::*;

verus! {

/// The configuration files and directories of one project.
#[derive(Debug)]
pub struct ProjectConfigFiles {
    pub claude_md: ConfigPathInfo,
    pub claude_md_alt: ConfigPathInfo,
    pub claude_local_md: ConfigPathInfo,
    pub settings: ConfigPathInfo,
    pub settings_local: ConfigPathInfo,
    pub rules: ConfigPathInfo,
    pub commands: ConfigPathInfo,
    pub agents: ConfigPathInfo,
    pub skills: ConfigPathInfo,
    pub mcp: ConfigPathInfo,
}

/// A [`ProjectConfigFiles`] as contracts see it.
pub struct ProjectConfigFilesView {
    pub claude_md: PathInfoView,
    pub claude_md_alt: PathInfoView,
    pub claude_local_md: PathInfoView,
    pub settings: PathInfoView,
    pub settings_local: PathInfoView,
    pub rules: PathInfoView,
    pub commands: PathInfoView,
    pub agents: PathInfoView,
    pub skills: PathInfoView,
    pub mcp: PathInfoView,
}

impl View for ProjectConfigFiles {
    type V = ProjectConfigFilesView;

    open spec fn view(&self) -> ProjectConfigFilesView {
        ProjectConfigFilesView {
            claude_md: self.claude_md@,
            claude_md_alt: self.claude_md_alt@,
            claude_local_md: self.claude_local_md@,
            settings: self.settings@,
            settings_local: self.settings_local@,
            rules: self.rules@,
            commands: self.commands@,
            agents: self.agents@,
            skills: self.skills@,
            mcp: self.mcp@,
        }
    }
}

/// A directory that was recognised as a project.
#[derive(Debug)]
pub struct ProjectInfo {
    pub id: String,
    pub path: String,
    pub name: String,
    pub has_claude_md: bool,
    pub config_files: ProjectConfigFiles,
}

/// A [`ProjectInfo`] as contracts see it.
pub struct ProjectInfoView {
    pub id: Seq<char>,
    pub path: Seq<char>,
    pub name: Seq<char>,
    pub has_claude_md: bool,
    pub config_files: ProjectConfigFilesView,
}

impl View for ProjectInfo {
    type V = ProjectInfoView;

    open spec fn view(&self) -> ProjectInfoView {
        ProjectInfoView {
            id: self.id@,
            path: self.path@,
            name: self.name@,
            has_claude_md: self.has_claude_md,
            config_files: self.config_files@,
        }
    }
}

/// The views of a sequence of projects, in the same order.
pub open spec fn project_views(projects: Seq<ProjectInfo>) -> Seq<ProjectInfoView> {
    projects.map_values(|p: ProjectInfo| p@)
}

/// The configuration paths of the project at `root`, in the order of the
/// slots of [`ProjectConfigFiles`].
pub open spec fn spec_project_path_list(
    root: Seq<char>,
    platform: Platform,
    vocabulary: VocabularyView,
) -> Seq<Seq<char>> {
    let config = spec_join(root, vocabulary.config_directory, platform);
    seq![
        spec_join(root, vocabulary.instructions_file, platform),
        spec_join(config, vocabulary.instructions_file, platform),
        spec_join(root, vocabulary.local_instructions_file, platform),
        spec_join(config, SETTINGS_FILE@, platform),
        spec_join(config, LOCAL_SETTINGS_FILE@, platform),
        spec_join(config, RULES_DIRECTORY@, platform),
        spec_join(config, COMMANDS_DIRECTORY@, platform),
        spec_join(config, AGENTS_DIRECTORY@, platform),
        spec_join(config, SKILLS_DIRECTORY@, platform),
        spec_join(root, PROJECT_REGISTRY_FILE@, platform),
    ]
}

/// What `snapshot` says of the configuration of the project at `root`.
pub open spec fn spec_project_config_files(
    snapshot: SnapshotView,
    root: Seq<char>,
    platform: Platform,
    vocabulary: VocabularyView,
) -> ProjectConfigFilesView {
    let paths = spec_project_path_list(root, platform, vocabulary);
    ProjectConfigFilesView {
        claude_md: spec_path_info(snapshot, paths[0]),
        claude_md_alt: spec_path_info(snapshot, paths[1]),
        claude_local_md: spec_path_info(snapshot, paths[2]),
        settings: spec_path_info(snapshot, paths[3]),
        settings_local: spec_path_info(snapshot, paths[4]),
        rules: spec_path_info(snapshot, paths[5]),
        commands: spec_path_info(snapshot, paths[6]),
        agents: spec_path_info(snapshot, paths[7]),
        skills: spec_path_info(snapshot, paths[8]),
        mcp: spec_path_info(snapshot, paths[9]),
    }
}

/// The paths whose presence decides whether the directory `root` is a
/// project: the two places of the instructions file, the version control
/// directory, and one manifest file of each ecosystem.
pub open spec fn spec_marker_path_list(
    root: Seq<char>,
    platform: Platform,
    vocabulary: VocabularyView,
) -> Seq<Seq<char>> {
    seq![
        spec_join(root, vocabulary.instructions_file, platform),
        spec_join(
            spec_join(root, vocabulary.config_directory, platform),
            vocabulary.instructions_file,
            platform,
        ),
        spec_join(root, VERSION_CONTROL_DIRECTORY@, platform),
        spec_join(root, "package.json"@, platform),
        spec_join(root, "tsconfig.json"@, platform),
        spec_join(root, "pyproject.toml"@, platform),
        spec_join(root, "go.mod"@, platform),
        spec_join(root, "Cargo.toml"@, platform),
    ]
}

/// Whether the directory `root` holds an instructions file, at its root or in
/// its configuration directory.
pub open spec fn spec_has_instructions(
    snapshot: SnapshotView,
    root: Seq<char>,
    platform: Platform,
    vocabulary: VocabularyView,
) -> bool {
    ||| snapshot.is_present(spec_join(root, vocabulary.instructions_file, platform))
    ||| snapshot.is_present(
        spec_join(
            spec_join(root, vocabulary.config_directory, platform),
            vocabulary.instructions_file,
            platform,
        ),
    )
}

/// Whether the directory `root` is a project: whether any one of its marker
/// paths is present.
pub open spec fn spec_is_project(
    snapshot: SnapshotView,
    root: Seq<char>,
    platform: Platform,
    vocabulary: VocabularyView,
) -> bool {
    let markers = spec_marker_path_list(root, platform, vocabulary);
    exists|i: int| 0 <= i < markers.len() && snapshot.is_present(#[trigger] markers[i])
}

/// The project that the directory entry `entry` stands for.
pub open spec fn spec_project_info(
    snapshot: SnapshotView,
    entry: EntryView,
    platform: Platform,
    vocabulary: VocabularyView,
) -> ProjectInfoView {
    ProjectInfoView {
        id: entry.name,
        path: entry.path,
        name: entry.name,
        has_claude_md: spec_has_instructions(snapshot, entry.path, platform, vocabulary),
        config_files: spec_project_config_files(snapshot, entry.path, platform, vocabulary),
    }
}

/// Whether `entry` is a directory that is a project.
pub open spec fn spec_entry_is_project(
    snapshot: SnapshotView,
    entry: EntryView,
    platform: Platform,
    vocabulary: VocabularyView,
) -> bool {
    entry.is_directory && spec_is_project(snapshot, entry.path, platform, vocabulary)
}

/// The projects among `entries`, in the order of `entries`.
pub open spec fn spec_projects_among(
    snapshot: SnapshotView,
    entries: Seq<EntryView>,
    platform: Platform,
    vocabulary: VocabularyView,
) -> Seq<ProjectInfoView>
    decreases entries.len(),
{
    if entries.len() == 0 {
        Seq::empty()
    } else {
        let before = spec_projects_among(snapshot, entries.drop_last(), platform, vocabulary);
        if spec_entry_is_project(snapshot, entries.last(), platform, vocabulary) {
            before.push(spec_project_info(snapshot, entries.last(), platform, vocabulary))
        } else {
            before
        }
    }
}

/// The projects among the immediate children of `base_dir`, in the order in
/// which the directory was read; none where it was not read or could not be.
pub open spec fn spec_list_projects(
    snapshot: SnapshotView,
    base_dir: Seq<char>,
    platform: Platform,
    vocabulary: VocabularyView,
) -> Seq<ProjectInfoView> {
    spec_projects_among(snapshot, snapshot.entries(base_dir), platform, vocabulary)
}

/// What has to be looked at for the directory entry `entry`: nothing where it
/// is no directory; else its marker paths that the snapshot does not hold;
/// and once it holds them all, the configuration paths it does not hold,
/// where the entry is a project.
pub open spec fn spec_entry_queries(
    snapshot: SnapshotView,
    entry: EntryView,
    platform: Platform,
    vocabulary: VocabularyView,
) -> Seq<QueryView> {
    let markers = spec_status_queries(
        snapshot,
        spec_marker_path_list(entry.path, platform, vocabulary),
    );
    if !entry.is_directory {
        Seq::empty()
    } else if markers.len() > 0 {
        markers
    } else if spec_is_project(snapshot, entry.path, platform, vocabulary) {
        spec_status_queries(snapshot, spec_project_path_list(entry.path, platform, vocabulary))
    } else {
        Seq::empty()
    }
}

/// What has to be looked at for each of `entries`, in the order of `entries`.
pub open spec fn spec_entries_queries(
    snapshot: SnapshotView,
    entries: Seq<EntryView>,
    platform: Platform,
    vocabulary: VocabularyView,
) -> Seq<QueryView>
    decreases entries.len(),
{
    if entries.len() == 0 {
        Seq::empty()
    } else {
        spec_entries_queries(
            snapshot,
            entries.drop_last(),
            platform,
            vocabulary,
        ) + spec_entry_queries(
            snapshot,
            entries.last(),
            platform,
            vocabulary,
        )
    }
}

/// What has to be looked at before [`list_projects`] can speak for the file
/// system: the listing of `base_dir` where the snapshot does not hold it, else
/// what its entries need.
pub open spec fn spec_list_projects_queries(
    snapshot: SnapshotView,
    base_dir: Seq<char>,
    platform: Platform,
    vocabulary: VocabularyView,
) -> Seq<QueryView> {
    if !snapshot.knows_listing(base_dir) {
        seq![QueryView::Listing(base_dir)]
    } else {
        spec_entries_queries(snapshot, snapshot.entries(base_dir), platform, vocabulary)
    }
}

/// The configuration paths of the project at `root`, in the order of the
/// slots of [`ProjectConfigFiles`].
pub fn project_path_list(
    root: &str,
    platform: Platform,
    vocabulary: &Vocabulary,
) -> (paths: Vec<String>)
    ensures
        paths@.map_values(|p: String| p@) == spec_project_path_list(root@, platform, vocabulary@),
{
    let config = join(root, vocabulary.config_directory.as_str(), platform);
    let paths = vec![
        join(root, vocabulary.instructions_file.as_str(), platform),
        join(config.as_str(), vocabulary.instructions_file.as_str(), platform),
        join(root, vocabulary.local_instructions_file.as_str(), platform),
        join(config.as_str(), SETTINGS_FILE, platform),
        join(config.as_str(), LOCAL_SETTINGS_FILE, platform),
        join(config.as_str(), RULES_DIRECTORY, platform),
        join(config.as_str(), COMMANDS_DIRECTORY, platform),
        join(config.as_str(), AGENTS_DIRECTORY, platform),
        join(config.as_str(), SKILLS_DIRECTORY, platform),
        join(root, PROJECT_REGISTRY_FILE, platform),
    ];
    assert(paths@.map_values(|p: String| p@) =~= spec_project_path_list(
        root@,
        platform,
        vocabulary@,
    ));
    paths
}

/// The paths whose presence decides whether the directory `root` is a project.
pub fn marker_path_list(
    root: &str,
    platform: Platform,
    vocabulary: &Vocabulary,
) -> (paths: Vec<String>)
    ensures
        paths@.map_values(|p: String| p@) == spec_marker_path_list(root@, platform, vocabulary@),
{
    let config = join(root, vocabulary.config_directory.as_str(), platform);
    let paths = vec![
        join(root, vocabulary.instructions_file.as_str(), platform),
        join(config.as_str(), vocabulary.instructions_file.as_str(), platform),
        join(root, VERSION_CONTROL_DIRECTORY, platform),
        join(root, "package.json", platform),
        join(root, "tsconfig.json", platform),
        join(root, "pyproject.toml", platform),
        join(root, "go.mod", platform),
        join(root, "Cargo.toml", platform),
    ];
    assert(paths@.map_values(|p: String| p@) =~= spec_marker_path_list(
        root@,
        platform,
        vocabulary@,
    ));
    paths
}

/// Reports every configuration path of the project at `root` with what the
/// snapshot says of it. Every slot is filled, whatever the snapshot holds.
pub fn project_config_files(
    root: &str,
    platform: Platform,
    vocabulary: &Vocabulary,
    snapshot: &Snapshot,
) -> (files:
    ProjectConfigFiles)
    ensures
        files@ == spec_project_config_files(snapshot@, root@, platform, vocabulary@),
{
    let paths = project_path_list(root, platform, vocabulary);
    proof {
        let views = paths@.map_values(|p: String| p@);
        assert(paths@.len() == views.len());
        assert(forall|i: int| 0 <= i < 10 ==> paths@[i]@ == views[i]);
    }
    ProjectConfigFiles {
        claude_md: get_path_info(paths[0].as_str(), snapshot),
        claude_md_alt: get_path_info(paths[1].as_str(), snapshot),
        claude_local_md: get_path_info(paths[2].as_str(), snapshot),
        settings: get_path_info(paths[3].as_str(), snapshot),
        settings_local: get_path_info(paths[4].as_str(), snapshot),
        rules: get_path_info(paths[5].as_str(), snapshot),
        commands: get_path_info(paths[6].as_str(), snapshot),
        agents: get_path_info(paths[7].as_str(), snapshot),
        skills: get_path_info(paths[8].as_str(), snapshot),
        mcp: get_path_info(paths[9].as_str(), snapshot),
    }
}

/// Decides whether the directory `root` is a project, and whether it holds an
/// instructions file.
pub fn detect_project(
    root: &str,
    platform: Platform,
    vocabulary: &Vocabulary,
    snapshot: &Snapshot,
) -> (found: (bool, bool))
    ensures
        found.0 == spec_is_project(snapshot@, root@, platform, vocabulary@),
        found.1 == spec_has_instructions(snapshot@, root@, platform, vocabulary@),
{
    let markers = marker_path_list(root, platform, vocabulary);
    let ghost views = markers@.map_values(|p: String| p@);
    assert(markers@.len() == views.len());
    let mut any = false;
    let mut instructions = false;
    let mut i: usize = 0;
    while i < markers.len()
        invariant
            i <= markers.len(),
            markers@.len() == 8,
            views == markers@.map_values(|p: String| p@),
            views == spec_marker_path_list(root@, platform, vocabulary@),
            any == exists|k: int| 0 <= k < i && snapshot@.is_present(#[trigger] views[k]),
            instructions == exists|k: int|
                0 <= k < i && k < 2 && snapshot@.is_present(#[trigger] views[k]),
        decreases markers.len() - i,
    {
        assert(views[i as int] == markers@[i as int]@);
        if snapshot.is_present(markers[i].as_str()) {
            any = true;
            if i < 2 {
                instructions = true;
            }
        }
        i += 1;
    }
    (any, instructions)
}

/// Lists the projects among the immediate children of `base_dir`, in the
/// order in which the directory was read. A child is a project where it is a
/// directory and one of its marker paths is present. Where the directory was
/// not read or could not be read, there are none.
pub fn list_projects(
    base_dir: &str,
    platform: Platform,
    vocabulary: &Vocabulary,
    snapshot: &Snapshot,
) -> (projects: Vec<
    ProjectInfo,
>)
    ensures
        project_views(projects@) == spec_list_projects(snapshot@, base_dir@, platform, vocabulary@),
{
    let mut projects: Vec<ProjectInfo> = Vec::new();
    match snapshot.entries(base_dir) {
        None => {
            assert(project_views(projects@) =~= Seq::<ProjectInfoView>::empty());
        },
        Some(entries) => {
            let ghost views = entry_views(entries@);
            assert(views == snapshot@.entries(base_dir@));
            assert(project_views(projects@) =~= Seq::<ProjectInfoView>::empty());
            let mut i: usize = 0;
            while i < entries.len()
                invariant
                    i <= entries.len(),
                    views == entry_views(entries@),
                    project_views(projects@) == spec_projects_among(
                        snapshot@,
                        views.take(i as int),
                        platform,
                        vocabulary@,
                    ),
                decreases entries.len() - i,
            {
                let entry = &entries[i];
                proof {
                    assert(views.take(i + 1).drop_last() == views.take(i as int));
                    assert(views.take(i + 1).last() == entry@);
                }
                if entry.is_directory {
                    let (is_project, has_claude_md) = detect_project(
                        entry.path.as_str(),
                        platform,
                        vocabulary,
                        snapshot,
                    );
                    if is_project {
                        let ghost before = project_views(projects@);
                        let info = ProjectInfo {
                            id: entry.name.clone(),
                            path: entry.path.clone(),
                            name: entry.name.clone(),
                            has_claude_md,
                            config_files: project_config_files(
                                entry.path.as_str(),
                                platform,
                                vocabulary,
                                snapshot,
                            ),
                        };
                        projects.push(info);
                        assert(project_views(projects@) =~= before.push(
                            spec_project_info(snapshot@, entry@, platform, vocabulary@),
                        ));
                    }
                }
                i += 1;
            }
            assert(views.take(entries.len() as int) == views);
        },
    }
    projects
}

/// What has to be looked at before [`project_config_files`] can speak for
/// the file system: each of its paths that the snapshot does not hold.
pub fn project_config_queries(
    root: &str,
    platform: Platform,
    vocabulary: &Vocabulary,
    snapshot: &Snapshot,
) -> (queries:
    Vec<Query>)
    ensures
        query_views(queries@) == spec_status_queries(
            snapshot@,
            spec_project_path_list(root@, platform, vocabulary@),
        ),
{
    let paths = project_path_list(root, platform, vocabulary);
    let mut queries: Vec<Query> = Vec::new();
    assert(query_views(queries@) =~= Seq::<QueryView>::empty());
    push_status_queries(&paths, snapshot, &mut queries);
    queries
}

/// Appends to `queries` what has to be looked at for the directory entry `entry`.
fn push_entry_queries(
    entry: &DirectoryEntry,
    platform: Platform,
    vocabulary: &Vocabulary,
    snapshot: &Snapshot,
    queries: &mut Vec<Query>,
)
    ensures
        query_views(final(queries)@) == query_views(old(queries)@) + spec_entry_queries(
            snapshot@,
            entry@,
            platform,
            vocabulary@,
        ),
{
    let ghost before = query_views(queries@);
    if !entry.is_directory {
        assert(before + Seq::<QueryView>::empty() =~= before);
        return ;
    }
    let markers = marker_path_list(entry.path.as_str(), platform, vocabulary);
    let mut wanted: Vec<Query> = Vec::new();
    assert(query_views(wanted@) =~= Seq::<QueryView>::empty());
    push_status_queries(&markers, snapshot, &mut wanted);
    let ghost asked = query_views(wanted@);
    assert(asked =~= spec_status_queries(
        snapshot@,
        spec_marker_path_list(entry@.path, platform, vocabulary@),
    ));
    assert(asked.len() == wanted@.len());
    if wanted.len() > 0 {
        queries.append(&mut wanted);
        assert(query_views(queries@) =~= before + asked);
        return ;
    }
    let (is_project, _) = detect_project(entry.path.as_str(), platform, vocabulary, snapshot);
    if is_project {
        let paths = project_path_list(entry.path.as_str(), platform, vocabulary);
        push_status_queries(&paths, snapshot, queries);
    } else {
        assert(before + Seq::<QueryView>::empty() =~= before);
    }
}

/// What has to be looked at before [`list_projects`] can speak for the file
/// system. Where nothing is returned, the snapshot holds the listing of
/// `base_dir`, every marker path of every directory in it, and every
/// configuration path of every project among them.
pub fn list_projects_queries(
    base_dir: &str,
    platform: Platform,
    vocabulary: &Vocabulary,
    snapshot: &Snapshot,
) -> (queries:
    Vec<Query>)
    ensures
        query_views(queries@) == spec_list_projects_queries(
            snapshot@,
            base_dir@,
            platform,
            vocabulary@,
        ),
{
    let mut queries: Vec<Query> = Vec::new();
    assert(query_views(queries@) =~= Seq::<QueryView>::empty());
    match snapshot.listing(base_dir) {
        None => {
            queries.push(Query::Listing(String::from_str(base_dir)));
            assert(query_views(queries@) =~= seq![QueryView::Listing(base_dir@)]);
        },
        Some(Listing::Unreadable) => {},
        Some(Listing::Entries(entries)) => {
            let ghost views = entry_views(entries@);
            let mut i: usize = 0;
            while i < entries.len()
                invariant
                    i <= entries.len(),
                    views == entry_views(entries@),
                    query_views(queries@) == spec_entries_queries(
                        snapshot@,
                        views.take(i as int),
                        platform,
                        vocabulary@,
                    ),
                decreases entries.len() - i,
            {
                proof {
                    assert(views.take(i + 1).drop_last() == views.take(i as int));
                    assert(views.take(i + 1).last() == entries[i as int]@);
                }
                push_entry_queries(&entries[i], platform, vocabulary, snapshot, &mut queries);
                i += 1;
            }
            assert(views.take(entries.len() as int) == views);
        },
    }
    queries
}

} // verus!
