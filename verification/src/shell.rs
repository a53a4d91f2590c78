//! The shells a prompt can be rendered for.
//!
//! A prompt is coloured with ANSI control sequences. Line-editing shells must
//! be told that those sequences take no room on the line, and each shell has
//! its own way of saying so; [`Shell::control`] is the one place that knows.

use vstd::prelude::*;
use vstd::string::*;
use crate::error::ConfigError;
use crate::text::str_eq;
use vstd::std_specs::convert::TryFromSpecImpl;

verus! {

#[derive(Clone, Copy, PartialEq, Eq, Structural, Debug)]
pub enum Shell {
    /// Bash: control sequences stand between `\[` and `\]`, the escape
    /// character is written `\e`.
    Bash,
    /// Zsh: control sequences stand between `%{` and `%}`.
    Zsh,
    /// No shell: control sequences are emitted as they are.
    Bare,
}

impl Shell {
    /// The shell that `name` selects.
    pub open spec fn from_name(name: Seq<char>) -> Option<Shell> {
        if name == "bash"@ {
            Some(Shell::Bash)
        } else if name == "zsh"@ {
            Some(Shell::Zsh)
        } else if name == "bare"@ {
            Some(Shell::Bare)
        } else {
            None
        }
    }

    /// The control sequence with parameters `body` (such as `0m`), as this
    /// shell wants it written in a prompt.
    pub open spec fn control_spec(self, body: Seq<char>) -> Seq<char> {
        match self {
            Shell::Bash => "\\[\\e["@ + body + "\\]"@,
            Shell::Zsh => "%{\x1b["@ + body + "%}"@,
            Shell::Bare => "\x1b["@ + body,
        }
    }

    /// Writes the control sequence with parameters `body` for this shell.
    pub fn control(self, body: &str) -> (s: String)
        ensures
            s@ == self.control_spec(body@),
    {
        match self {
            Shell::Bash => {
                let mut s = String::from_str("\\[\\e[");
                s.append(body);
                s.append("\\]");
                s
            },
            Shell::Zsh => {
                let mut s = String::from_str("%{\x1b[");
                s.append(body);
                s.append("%}");
                s
            },
            Shell::Bare => {
                let mut s = String::from_str("\x1b[");
                s.append(body);
                s
            },
        }
    }
}

/// Resolves a shell by name: `bash`, `zsh` or `bare`. Any other name is
/// [`ConfigError::UnknownShell`].
impl<'a> TryFrom<&'a str> for Shell {
    type Error = ConfigError;

    fn try_from(value: &'a str) -> (r: Result<Shell, ConfigError>) {
        if str_eq(value, "bash") {
            Ok(Shell::Bash)
        } else if str_eq(value, "zsh") {
            Ok(Shell::Zsh)
        } else if str_eq(value, "bare") {
            Ok(Shell::Bare)
        } else {
            Err(ConfigError::UnknownShell)
        }
    }
}

impl<'a> TryFromSpecImpl<&'a str> for Shell {
    open spec fn obeys_try_from_spec() -> bool {
        true
    }

    open spec fn try_from_spec(value: &'a str) -> Result<Shell, ConfigError> {
        match Shell::from_name(value@) {
            Some(shell) => Ok(shell),
            None => Err(ConfigError::UnknownShell),
        }
    }
}

} // verus!
