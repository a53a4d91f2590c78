//! The working-directory segment.

use vstd::prelude::*;
use vstd::string::*;
use crate::configuration::CwdConfiguration;
use crate::segments::single;
use crate::segments::Segment;
use crate::segments::SegmentGenerator;
use crate::segments::SegmentName;
use crate::segments::SegmentView;
use crate::shell::Shell;
use crate::theme::Theme;

verus! {

/// The prompt escape that `shell` expands to the working directory, whole or
/// (`dironly`) its last component. Without a shell nothing expands it.
pub open spec fn directory_escape(shell: Shell, dironly: bool) -> Option<Seq<char>> {
    match shell {
        Shell::Bash => Some(
            if dironly {
                " \\W "@
            } else {
                " \\w "@
            },
        ),
        Shell::Zsh => Some(
            if dironly {
                " %1d "@
            } else {
                " %d "@
            },
        ),
        Shell::Bare => None,
    }
}

pub struct CwdSegment<'a> {
    config: &'a CwdConfiguration,
}

impl<'a> CwdSegment<'a> {
    /// The options this segment was made with.
    pub closed spec fn config(&self) -> CwdConfiguration {
        *self.config
    }

    pub fn new(config: &'a CwdConfiguration) -> (r: Self)
        ensures
            r.config() == *config,
    {
        Self { config }
    }
}

impl SegmentGenerator for CwdSegment<'_> {
    /// One chunk with the directory escape of the shell; nothing without a
    /// shell.
    open spec fn output_spec(&self, shell: Shell, theme: Theme) -> Option<Seq<SegmentView>> {
        match directory_escape(shell, self.config().dironly) {
            Some(text) => Some(
                seq![
                    SegmentView {
                        name: SegmentName::Cwd,
                        text,
                        bg: theme.cwd_bg,
                        fg: theme.cwd_fg,
                        blinking: false,
                    },
                ],
            ),
            None => None,
        }
    }

    fn output(&self, shell: Shell, theme: &Theme) -> (r: Option<Vec<Segment>>) {
        let text = if self.config.dironly {
            match shell {
                Shell::Bash => " \\W ",
                Shell::Zsh => " %1d ",
                Shell::Bare => {
                    return None;
                },
            }
        } else {
            match shell {
                Shell::Bash => " \\w ",
                Shell::Zsh => " %d ",
                Shell::Bare => {
                    return None;
                },
            }
        };
        Some(
            single(
                Segment {
                    name: SegmentName::Cwd,
                    text: String::from_str(text),
                    bg: theme.cwd_bg,
                    fg: theme.cwd_fg,
                    blinking: false,
                },
            ),
        )
    }
}

} // verus!
