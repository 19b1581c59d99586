//! The fixed set of machine-wide and per-user configuration paths.

use crate::names::{
    AGENTS_DIRECTORY, COMMANDS_DIRECTORY, CURRENT_DIRECTORY, LOCAL_SETTINGS_FILE,
    MANAGED_REGISTRY_FILE, SETTINGS_FILE, SKILLS_DIRECTORY, Vocabulary, VocabularyView,
};
use crate::path_info::{
    ConfigPathInfo, PathInfoView, get_path_info, push_status_queries, spec_path_info,
    spec_status_queries,
};
use crate::paths::{join, spec_join};
use crate::platform::Platform;
use crate::snapshot::{Query, QueryView, Snapshot, SnapshotView, query_views};
use vstd::prelude::*;

verus! {

/// The machine-wide configuration files.
#[derive(Debug)]
pub struct EnterprisePaths {
    pub claude_md: ConfigPathInfo,
    pub managed_mcp: ConfigPathInfo,
    pub managed_settings: ConfigPathInfo,
}

/// An [`EnterprisePaths`] as contracts see it.
pub struct EnterprisePathsView {
    pub claude_md: PathInfoView,
    pub managed_mcp: PathInfoView,
    pub managed_settings: PathInfoView,
}

impl View for EnterprisePaths {
    type V = EnterprisePathsView;

    open spec fn view(&self) -> EnterprisePathsView {
        EnterprisePathsView {
            claude_md: self.claude_md@,
            managed_mcp: self.managed_mcp@,
            managed_settings: self.managed_settings@,
        }
    }
}

/// The configuration files and directories of one user.
#[derive(Debug)]
pub struct UserPaths {
    pub claude_md: ConfigPathInfo,
    pub claude_local_md: ConfigPathInfo,
    pub settings: ConfigPathInfo,
    pub settings_local: ConfigPathInfo,
    pub agents: ConfigPathInfo,
    pub commands: ConfigPathInfo,
    pub skills: ConfigPathInfo,
    pub mcp: ConfigPathInfo,
}

/// A [`UserPaths`] as contracts see it.
pub struct UserPathsView {
    pub claude_md: PathInfoView,
    pub claude_local_md: PathInfoView,
    pub settings: PathInfoView,
    pub settings_local: PathInfoView,
    pub agents: PathInfoView,
    pub commands: PathInfoView,
    pub skills: PathInfoView,
    pub mcp: PathInfoView,
}

impl View for UserPaths {
    type V = UserPathsView;

    open spec fn view(&self) -> UserPathsView {
        UserPathsView {
            claude_md: self.claude_md@,
            claude_local_md: self.claude_local_md@,
            settings: self.settings@,
            settings_local: self.settings_local@,
            agents: self.agents@,
            commands: self.commands@,
            skills: self.skills@,
            mcp: self.mcp@,
        }
    }
}

/// The configuration paths outside any project.
#[derive(Debug)]
pub struct ConfigPaths {
    pub enterprise: EnterprisePaths,
    pub user: UserPaths,
}

/// A [`ConfigPaths`] as contracts see it.
pub struct ConfigPathsView {
    pub enterprise: EnterprisePathsView,
    pub user: UserPathsView,
}

impl View for ConfigPaths {
    type V = ConfigPathsView;

    open spec fn view(&self) -> ConfigPathsView {
        ConfigPathsView { enterprise: self.enterprise@, user: self.user@ }
    }
}

/// What the process knows of the machine it runs on.
#[derive(Debug)]
pub struct HostEnvironment {
    pub platform: Platform,
    /// The value of `HOME`, where it is set.
    pub home: Option<String>,
    /// The value of `USERPROFILE`, where it is set.
    pub user_profile: Option<String>,
}

impl HostEnvironment {
    /// The home directory: `home` where it is set, else `user_profile` where
    /// that is set, else the current directory.
    pub open spec fn spec_home_directory(self) -> Seq<char> {
        match (self.home, self.user_profile) {
            (Some(home), _) => home@,
            (None, Some(profile)) => profile@,
            (None, None) => CURRENT_DIRECTORY@,
        }
    }

    /// The home directory: `home` where it is set, else `user_profile` where
    /// that is set, else the current directory.
    pub fn home_directory(&self) -> (home: String)
        ensures
            home@ == self.spec_home_directory(),
    {
        match &self.home {
            Some(home) => home.clone(),
            None => match &self.user_profile {
                Some(profile) => profile.clone(),
                None => String::from_str(CURRENT_DIRECTORY),
            },
        }
    }
}

/// The machine-wide paths, in the order of the slots of [`EnterprisePaths`].
pub open spec fn spec_enterprise_path_list(
    platform: Platform,
    vocabulary: VocabularyView,
) -> Seq<Seq<char>> {
    let base = platform.spec_enterprise_base(vocabulary);
    seq![
        spec_join(base, vocabulary.instructions_file, platform),
        spec_join(base, MANAGED_REGISTRY_FILE@, platform),
        spec_join(base, SETTINGS_FILE@, platform),
    ]
}

/// The paths of the user whose home directory is `home`, in the order of the
/// slots of [`UserPaths`].
pub open spec fn spec_user_path_list(
    home: Seq<char>,
    platform: Platform,
    vocabulary: VocabularyView,
) -> Seq<Seq<char>> {
    let config = spec_join(home, vocabulary.config_directory, platform);
    seq![
        spec_join(config, vocabulary.instructions_file, platform),
        spec_join(config, vocabulary.local_instructions_file, platform),
        spec_join(config, SETTINGS_FILE@, platform),
        spec_join(config, LOCAL_SETTINGS_FILE@, platform),
        spec_join(config, AGENTS_DIRECTORY@, platform),
        spec_join(config, COMMANDS_DIRECTORY@, platform),
        spec_join(config, SKILLS_DIRECTORY@, platform),
        spec_join(home, vocabulary.user_registry_file, platform),
    ]
}

/// What `snapshot` says of the machine-wide configuration files.
pub open spec fn spec_enterprise_paths(
    snapshot: SnapshotView,
    platform: Platform,
    vocabulary: VocabularyView,
) -> EnterprisePathsView {
    let paths = spec_enterprise_path_list(platform, vocabulary);
    EnterprisePathsView {
        claude_md: spec_path_info(snapshot, paths[0]),
        managed_mcp: spec_path_info(snapshot, paths[1]),
        managed_settings: spec_path_info(snapshot, paths[2]),
    }
}

/// What `snapshot` says of the configuration of the user whose home directory
/// is `home`.
pub open spec fn spec_user_paths(
    snapshot: SnapshotView,
    home: Seq<char>,
    platform: Platform,
    vocabulary: VocabularyView,
) -> UserPathsView {
    let paths = spec_user_path_list(home, platform, vocabulary);
    UserPathsView {
        claude_md: spec_path_info(snapshot, paths[0]),
        claude_local_md: spec_path_info(snapshot, paths[1]),
        settings: spec_path_info(snapshot, paths[2]),
        settings_local: spec_path_info(snapshot, paths[3]),
        agents: spec_path_info(snapshot, paths[4]),
        commands: spec_path_info(snapshot, paths[5]),
        skills: spec_path_info(snapshot, paths[6]),
        mcp: spec_path_info(snapshot, paths[7]),
    }
}

/// What `snapshot` says of every configuration path outside any project.
pub open spec fn spec_config_paths(
    snapshot: SnapshotView,
    home: Seq<char>,
    platform: Platform,
    vocabulary: VocabularyView,
) -> ConfigPathsView {
    ConfigPathsView {
        enterprise: spec_enterprise_paths(snapshot, platform, vocabulary),
        user: spec_user_paths(snapshot, home, platform, vocabulary),
    }
}

/// The machine-wide paths, in the order of the slots of [`EnterprisePaths`].
pub fn enterprise_path_list(platform: Platform, vocabulary: &Vocabulary) -> (paths: Vec<String>)
    ensures
        paths@.map_values(|p: String| p@) == spec_enterprise_path_list(platform, vocabulary@),
{
    let owned = platform.enterprise_base(vocabulary);
    let base = owned.as_str();
    let paths = vec![
        join(base, vocabulary.instructions_file.as_str(), platform),
        join(base, MANAGED_REGISTRY_FILE, platform),
        join(base, SETTINGS_FILE, platform),
    ];
    assert(paths@.map_values(|p: String| p@) =~= spec_enterprise_path_list(
        platform,
        vocabulary@,
    ));
    paths
}

/// The paths of the user whose home directory is `home`, in the order of the
/// slots of [`UserPaths`].
pub fn user_path_list(home: &str, platform: Platform, vocabulary: &Vocabulary) -> (paths: Vec<
    String,
>)
    ensures
        paths@.map_values(|p: String| p@) == spec_user_path_list(home@, platform, vocabulary@),
{
    let config = join(home, vocabulary.config_directory.as_str(), platform);
    let paths = vec![
        join(config.as_str(), vocabulary.instructions_file.as_str(), platform),
        join(config.as_str(), vocabulary.local_instructions_file.as_str(), platform),
        join(config.as_str(), SETTINGS_FILE, platform),
        join(config.as_str(), LOCAL_SETTINGS_FILE, platform),
        join(config.as_str(), AGENTS_DIRECTORY, platform),
        join(config.as_str(), COMMANDS_DIRECTORY, platform),
        join(config.as_str(), SKILLS_DIRECTORY, platform),
        join(home, vocabulary.user_registry_file.as_str(), platform),
    ];
    assert(paths@.map_values(|p: String| p@) =~= spec_user_path_list(
        home@,
        platform,
        vocabulary@,
    ));
    paths
}

/// Reports every machine-wide and per-user configuration path with what the
/// snapshot says of it. Every slot is filled, whatever the snapshot holds.
pub fn get_config_paths(
    environment: &HostEnvironment,
    vocabulary: &Vocabulary,
    snapshot: &Snapshot,
) -> (found: ConfigPaths)
    ensures
        found@ == spec_config_paths(
            snapshot@,
            environment.spec_home_directory(),
            environment.platform,
            vocabulary@,
        ),
{
    let platform = environment.platform;
    let home = environment.home_directory();
    let enterprise = enterprise_path_list(platform, vocabulary);
    let user = user_path_list(home.as_str(), platform, vocabulary);
    proof {
        let enterprise_views = enterprise@.map_values(|p: String| p@);
        let user_views = user@.map_values(|p: String| p@);
        assert(enterprise@.len() == enterprise_views.len());
        assert(user@.len() == user_views.len());
        assert(forall|i: int| 0 <= i < 3 ==> enterprise@[i]@ == enterprise_views[i]);
        assert(forall|i: int| 0 <= i < 8 ==> user@[i]@ == user_views[i]);
    }
    ConfigPaths {
        enterprise: EnterprisePaths {
            claude_md: get_path_info(enterprise[0].as_str(), snapshot),
            managed_mcp: get_path_info(enterprise[1].as_str(), snapshot),
            managed_settings: get_path_info(enterprise[2].as_str(), snapshot),
        },
        user: UserPaths {
            claude_md: get_path_info(user[0].as_str(), snapshot),
            claude_local_md: get_path_info(user[1].as_str(), snapshot),
            settings: get_path_info(user[2].as_str(), snapshot),
            settings_local: get_path_info(user[3].as_str(), snapshot),
            agents: get_path_info(user[4].as_str(), snapshot),
            commands: get_path_info(user[5].as_str(), snapshot),
            skills: get_path_info(user[6].as_str(), snapshot),
            mcp: get_path_info(user[7].as_str(), snapshot),
        },
    }
}

/// What has to be looked at before [`get_config_paths`] can speak for the
/// file system: each of its paths that the snapshot does not hold.
pub fn config_path_queries(
    environment: &HostEnvironment,
    vocabulary: &Vocabulary,
    snapshot: &Snapshot,
) -> (queries: Vec<Query>)
    ensures
        query_views(queries@) == spec_status_queries(
            snapshot@,
            spec_enterprise_path_list(environment.platform, vocabulary@),
        ) + spec_status_queries(
            snapshot@,
            spec_user_path_list(
                environment.spec_home_directory(),
                environment.platform,
                vocabulary@,
            ),
        ),
{
    let platform = environment.platform;
    let home = environment.home_directory();
    let enterprise = enterprise_path_list(platform, vocabulary);
    let user = user_path_list(home.as_str(), platform, vocabulary);
    let mut queries: Vec<Query> = Vec::new();
    assert(query_views(queries@) =~= Seq::<QueryView>::empty());
    push_status_queries(&enterprise, snapshot, &mut queries);
    push_status_queries(&user, snapshot, &mut queries);
    queries
}

} // verus!
