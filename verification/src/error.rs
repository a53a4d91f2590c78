//! Errors of configuration resolution.
//!
//! Rendering itself never fails; every error a caller can see comes from
//! turning names into a shell, a theme or a list of segments.

use vstd::prelude::*;
use vstd::string::*;

verus! {

#[derive(Clone, PartialEq, Eq, Debug)]
pub enum ConfigError {
    /// The shell name is none of the supported dialects.
    UnknownShell,
    /// The theme name is none of the known palettes.
    UnknownTheme,
    /// A name in the active segment list names no segment.
    UnknownSegment(String),
    /// A name occurs a second time in the active segment list.
    DuplicateSegment(String),
    /// A context alias is not of the form `context:alias`.
    MalformedAlias(String),
}

impl ConfigError {
    /// The text of [`ConfigError::message`].
    pub open spec fn message_spec(self) -> Seq<char> {
        match self {
            ConfigError::UnknownShell => "unknown shell"@,
            ConfigError::UnknownTheme => "unknown theme"@,
            ConfigError::UnknownSegment(name) => "unknown segment name: "@ + name@,
            ConfigError::DuplicateSegment(name) => "duplicate segment name: "@ + name@,
            ConfigError::MalformedAlias(pair) => "malformed context alias: "@ + pair@,
        }
    }

    /// A one-line description for the user.
    pub fn message(&self) -> (s: String)
        ensures
            s@ == self.message_spec(),
    {
        match self {
            ConfigError::UnknownShell => String::from_str("unknown shell"),
            ConfigError::UnknownTheme => String::from_str("unknown theme"),
            ConfigError::UnknownSegment(name) => {
                let mut s = String::from_str("unknown segment name: ");
                s.append(name.as_str());
                s
            },
            ConfigError::DuplicateSegment(name) => {
                let mut s = String::from_str("duplicate segment name: ");
                s.append(name.as_str());
                s
            },
            ConfigError::MalformedAlias(pair) => {
                let mut s = String::from_str("malformed context alias: ");
                s.append(pair.as_str());
                s
            },
        }
    }
}

} // verus!
