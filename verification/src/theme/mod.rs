//! Colours and the control codes that set them.
//!
//! Colours are numbers of the 256-colour palette. Foreground and background
//! colours are different types, although both hold one number: the only way
//! from one to the other is [`ForegroundColor::from`], which a divider uses to
//! draw itself in the colour of the segment it closes.

use vstd::prelude::*;
use vstd::string::*;
use vstd::std_specs::convert::FromSpecImpl;
use vstd::std_specs::convert::TryFromSpecImpl;
use crate::error::ConfigError;
use crate::shell::Shell;
use crate::text::decimal;
use crate::text::decimal_string;
use crate::text::str_eq;

pub mod default;
pub mod gruvbox;

verus! {

/// The palette number that warnings are written in, whatever the theme.
pub const WARNING_COLOR_CODE: u8 = 196;

#[derive(Clone, Copy, PartialEq, Eq, Structural, Debug)]
pub struct BackgroundColor(pub u8);

impl BackgroundColor {
    /// The control code that sets this background colour.
    pub open spec fn fmt_spec(self, shell: Shell) -> Seq<char> {
        shell.control_spec("48;5;"@ + decimal(self.0 as nat) + "m"@)
    }

    /// Writes the control code that sets this background colour.
    pub fn fmt(&self, shell: Shell) -> (s: String)
        ensures
            s@ == self.fmt_spec(shell),
    {
        let mut body = String::from_str("48;5;");
        body.append(decimal_string(self.0 as u64).as_str());
        body.append("m");
        shell.control(body.as_str())
    }
}

#[derive(Clone, Copy, PartialEq, Eq, Structural, Debug)]
pub struct ForegroundColor(pub u8);

impl ForegroundColor {
    /// The control code that sets this foreground colour.
    pub open spec fn fmt_spec(self, shell: Shell) -> Seq<char> {
        shell.control_spec("38;5;"@ + decimal(self.0 as nat) + "m"@)
    }

    /// The foreground colour that has the palette number of a background
    /// colour. A divider is drawn in it, so that it continues the segment it
    /// closes.
    pub open spec fn of_background(bg: BackgroundColor) -> ForegroundColor {
        ForegroundColor(bg.0)
    }

    /// The foreground colour with the given number of the 256-colour palette.
    pub fn from_color_code(code: u8) -> (fg: ForegroundColor)
        ensures
            fg == ForegroundColor(code),
    {
        ForegroundColor(code)
    }

    /// Writes the control code that sets this foreground colour.
    pub fn fmt(&self, shell: Shell) -> (s: String)
        ensures
            s@ == self.fmt_spec(shell),
    {
        let mut body = String::from_str("38;5;");
        body.append(decimal_string(self.0 as u64).as_str());
        body.append("m");
        shell.control(body.as_str())
    }
}

/// The foreground colour of the same palette number as a background colour.
impl From<BackgroundColor> for ForegroundColor {
    fn from(bg: BackgroundColor) -> (fg: ForegroundColor) {
        ForegroundColor(bg.0)
    }
}

impl FromSpecImpl<BackgroundColor> for ForegroundColor {
    open spec fn obeys_from_spec() -> bool {
        true
    }

    open spec fn from_spec(bg: BackgroundColor) -> ForegroundColor {
        ForegroundColor::of_background(bg)
    }
}

/// Makes the text that follows blink.
#[derive(Clone, Copy, Debug)]
pub struct Blink;

impl Blink {
    /// The control code that switches blinking on.
    pub open spec fn fmt_spec(self, shell: Shell) -> Seq<char> {
        shell.control_spec("5m"@)
    }

    /// Writes the control code that switches blinking on.
    pub fn fmt(&self, shell: Shell) -> (s: String)
        ensures
            s@ == self.fmt_spec(shell),
    {
        shell.control("5m")
    }
}

/// Ends every colour and attribute set before.
#[derive(Clone, Copy, Debug)]
pub struct Reset;

impl Reset {
    /// The control code that resets colours and attributes.
    pub open spec fn fmt_spec(self, shell: Shell) -> Seq<char> {
        shell.control_spec("0m"@)
    }

    /// Writes the control code that resets colours and attributes.
    pub fn fmt(&self, shell: Shell) -> (s: String)
        ensures
            s@ == self.fmt_spec(shell),
    {
        shell.control("0m")
    }
}

/// The colour pair of every role a segment can play.
#[derive(Clone, Copy, PartialEq, Eq, Structural, Debug)]
pub struct Theme {
    pub container_bg: BackgroundColor,
    pub container_fg: ForegroundColor,
    pub cwd_bg: BackgroundColor,
    pub cwd_fg: ForegroundColor,
    pub git_branch_bg: BackgroundColor,
    pub git_branch_fg: ForegroundColor,
    pub git_ahead_bg: BackgroundColor,
    pub git_ahead_fg: ForegroundColor,
    pub git_behind_bg: BackgroundColor,
    pub git_behind_fg: ForegroundColor,
    pub git_modified_bg: BackgroundColor,
    pub git_modified_fg: ForegroundColor,
    pub git_staged_bg: BackgroundColor,
    pub git_staged_fg: ForegroundColor,
    pub git_untracked_bg: BackgroundColor,
    pub git_untracked_fg: ForegroundColor,
    pub git_conflicted_bg: BackgroundColor,
    pub git_conflicted_fg: ForegroundColor,
    pub kube_context_bg: BackgroundColor,
    pub kube_context_fg: ForegroundColor,
    pub kube_namespace_bg: BackgroundColor,
    pub kube_namespace_fg: ForegroundColor,
    pub readonly_bg: BackgroundColor,
    pub readonly_fg: ForegroundColor,
    pub root_bg: BackgroundColor,
    pub root_fg: ForegroundColor,
    pub ssh_bg: BackgroundColor,
    pub ssh_fg: ForegroundColor,
    pub terraform_bg: BackgroundColor,
    pub terraform_fg: ForegroundColor,
}

impl Theme {
    /// The theme that `name` selects.
    pub open spec fn from_name(name: Seq<char>) -> Option<Theme> {
        if name == "default"@ {
            Some(default::palette())
        } else if name == "gruvbox"@ {
            Some(gruvbox::palette())
        } else {
            None
        }
    }
}

/// Resolves a theme by name: `default` or `gruvbox`. Any other name is
/// [`ConfigError::UnknownTheme`].
impl<'a> TryFrom<&'a str> for Theme {
    type Error = ConfigError;

    fn try_from(value: &'a str) -> (r: Result<Theme, ConfigError>) {
        if str_eq(value, "default") {
            Ok(default::theme())
        } else if str_eq(value, "gruvbox") {
            Ok(gruvbox::theme())
        } else {
            Err(ConfigError::UnknownTheme)
        }
    }
}

impl<'a> TryFromSpecImpl<&'a str> for Theme {
    open spec fn obeys_try_from_spec() -> bool {
        true
    }

    open spec fn try_from_spec(value: &'a str) -> Result<Theme, ConfigError> {
        match Theme::from_name(value@) {
            Some(theme) => Ok(theme),
            None => Err(ConfigError::UnknownTheme),
        }
    }
}

} // verus!
