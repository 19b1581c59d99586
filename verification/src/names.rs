//! The file and directory names that the discovery rules are made of.

use vstd::prelude::*;

verus! {

/// The names that a deployment gives to its instructions files and to the
/// places that hold its configuration. The discovery rules are stated over
/// these fields; the caller supplies the value.
#[derive(Debug)]
pub struct Vocabulary {
    /// The instructions file of a scope.
    pub instructions_file: String,
    /// The instructions file that overrides `instructions_file` locally.
    pub local_instructions_file: String,
    /// The hidden directory that holds the configuration of a user or a project.
    pub config_directory: String,
    /// The registry of tool servers in a user's home directory.
    pub user_registry_file: String,
    /// The directory that holds the machine-wide configuration on a platform
    /// that is neither Windows nor macOS.
    pub other_enterprise_base: String,
}

/// A [`Vocabulary`] as contracts see it.
pub struct VocabularyView {
    pub instructions_file: Seq<char>,
    pub local_instructions_file: Seq<char>,
    pub config_directory: Seq<char>,
    pub user_registry_file: Seq<char>,
    pub other_enterprise_base: Seq<char>,
}

impl View for Vocabulary {
    type V = VocabularyView;

    open spec fn view(&self) -> VocabularyView {
        VocabularyView {
            instructions_file: self.instructions_file@,
            local_instructions_file: self.local_instructions_file@,
            config_directory: self.config_directory@,
            user_registry_file: self.user_registry_file@,
            other_enterprise_base: self.other_enterprise_base@,
        }
    }
}

/// The settings file inside the configuration directory.
pub const SETTINGS_FILE: &'static str = "settings.json";

/// The settings file that overrides [`SETTINGS_FILE`] locally.
pub const LOCAL_SETTINGS_FILE: &'static str = "settings.local.json";

/// The directory of agents inside the configuration directory.
pub const AGENTS_DIRECTORY: &'static str = "agents";

/// The directory of commands inside the configuration directory.
pub const COMMANDS_DIRECTORY: &'static str = "commands";

/// The directory of skills inside the configuration directory.
pub const SKILLS_DIRECTORY: &'static str = "skills";

/// The directory of rules inside a project's configuration directory.
pub const RULES_DIRECTORY: &'static str = "rules";

/// The registry of tool servers at a project's root.
pub const PROJECT_REGISTRY_FILE: &'static str = ".mcp.json";

/// The machine-wide registry of tool servers.
pub const MANAGED_REGISTRY_FILE: &'static str = "managed-mcp.json";

/// The directory that marks a working copy under version control.
pub const VERSION_CONTROL_DIRECTORY: &'static str = ".git";

/// The current-directory reference, used where no home directory is known.
pub const CURRENT_DIRECTORY: &'static str = ".";

/// The mark that a relative path carries where it stands for the local
/// instructions file of a directory.
pub const LOCAL_SUFFIX: &'static str = " (local)";

/// Whether `a` and `b` hold the same characters.
pub fn same_text(a: &str, b: &str) -> (same: bool)
    ensures
        same == (a@ == b@),
{
    String::from_str(a) == String::from_str(b)
}

/// Whether a directory of this name is left out of a recursive scan:
/// dependencies, build output, version control data and caches.
pub open spec fn spec_is_excluded_name(name: Seq<char>) -> bool {
    ||| name == "node_modules"@
    ||| name == "target"@
    ||| name == "dist"@
    ||| name == "build"@
    ||| name == "__pycache__"@
    ||| name == "vendor"@
    ||| name == ".git"@
}

/// Whether a directory of this name is left out of a recursive scan.
pub fn is_excluded_name(name: &str) -> (excluded: bool)
    ensures
        excluded == spec_is_excluded_name(name@),
{
    same_text(name, "node_modules") || same_text(name, "target") || same_text(name, "dist")
        || same_text(name, "build") || same_text(name, "__pycache__") || same_text(name, "vendor")
        || same_text(name, ".git")
}

/// Whether `name` begins with the dot that marks a hidden entry.
pub open spec fn spec_is_hidden_name(name: Seq<char>) -> bool {
    name.len() > 0 && name[0] == '.'
}

/// Whether `name` begins with the dot that marks a hidden entry.
pub fn is_hidden_name(name: &str) -> (hidden: bool)
    ensures
        hidden == spec_is_hidden_name(name@),
{
    !name.is_empty() && name.get_char(0) == '.'
}

} // verus!
