//! The platform families that decide separators and machine-wide locations.

use crate::names::{Vocabulary, VocabularyView, same_text};
use vstd::prelude::*;

verus! {

/// The platform family a path belongs to.
#[derive(Clone, Copy, Debug, PartialEq, Eq, Structural)]
pub enum Platform {
    Windows,
    MacOs,
    Other,
}

impl Platform {
    /// The character this platform writes between two path components.
    pub open spec fn spec_separator(self) -> char {
        if self is Windows {
            '\\'
        } else {
            '/'
        }
    }

    /// Whether this platform reads `c` as the end of a path component.
    pub open spec fn spec_is_separator(self, c: char) -> bool {
        c == '/' || (self is Windows && c == '\\')
    }

    /// The character this platform writes between two path components.
    pub fn separator(self) -> (c: char)
        ensures
            c == self.spec_separator(),
    {
        match self {
            Platform::Windows => '\\',
            _ => '/',
        }
    }

    /// Whether this platform reads `c` as the end of a path component.
    pub fn is_separator(self, c: char) -> (b: bool)
        ensures
            b == self.spec_is_separator(c),
    {
        match self {
            Platform::Windows => c == '/' || c == '\\',
            _ => c == '/',
        }
    }

    /// The directory that holds the machine-wide configuration: fixed on
    /// Windows and on macOS, named by the vocabulary elsewhere.
    pub open spec fn spec_enterprise_base(self, vocabulary: VocabularyView) -> Seq<char> {
        match self {
            Platform::Windows => "C:\\Program Files\\ClaudeCode"@,
            Platform::MacOs => "/Library/Application Support/ClaudeCode"@,
            Platform::Other => vocabulary.other_enterprise_base,
        }
    }

    /// The directory that holds the machine-wide configuration: fixed on
    /// Windows and on macOS, named by the vocabulary elsewhere.
    pub fn enterprise_base(self, vocabulary: &Vocabulary) -> (base: String)
        ensures
            base@ == self.spec_enterprise_base(vocabulary@),
    {
        match self {
            Platform::Windows => String::from_str("C:\\Program Files\\ClaudeCode"),
            Platform::MacOs => String::from_str("/Library/Application Support/ClaudeCode"),
            Platform::Other => vocabulary.other_enterprise_base.clone(),
        }
    }

    /// The platform family that an operating system's name stands for.
    pub open spec fn spec_from_os_name(name: Seq<char>) -> Platform {
        if name == "windows"@ {
            Platform::Windows
        } else if name == "macos"@ {
            Platform::MacOs
        } else {
            Platform::Other
        }
    }

    /// The platform family that an operating system's name stands for:
    /// `windows`, `macos`, and every other name for the rest.
    pub fn from_os_name(name: &str) -> (platform: Platform)
        ensures
            platform == Self::spec_from_os_name(name@),
    {
        if same_text(name, "windows") {
            Platform::Windows
        } else if same_text(name, "macos") {
            Platform::MacOs
        } else {
            Platform::Other
        }
    }
}

} // verus!
