//! The privilege marker: `#` for the superuser, `$` or `%` for everyone else.

use vstd::prelude::*;
use vstd::string::*;
use crate::segments::single;
use crate::segments::Segment;
use crate::segments::SegmentGenerator;
use crate::segments::SegmentName;
use crate::segments::SegmentView;
use crate::shell::Shell;
use crate::theme::Theme;

verus! {

/// The prompt escape that `shell` expands to the privilege marker. Without a
/// shell nothing expands it.
pub open spec fn privilege_escape(shell: Shell) -> Option<Seq<char>> {
    match shell {
        Shell::Bash => Some(" \\$ "@),
        Shell::Zsh => Some(" %# "@),
        Shell::Bare => None,
    }
}

pub struct RootSegment;

impl RootSegment {
    pub fn new() -> (r: Self) {
        Self {  }
    }
}

impl SegmentGenerator for RootSegment {
    /// One chunk with the privilege escape of the shell; nothing without a
    /// shell.
    open spec fn output_spec(&self, shell: Shell, theme: Theme) -> Option<Seq<SegmentView>> {
        match privilege_escape(shell) {
            Some(text) => Some(
                seq![
                    SegmentView {
                        name: SegmentName::Root,
                        text,
                        bg: theme.root_bg,
                        fg: theme.root_fg,
                        blinking: false,
                    },
                ],
            ),
            None => None,
        }
    }

    fn output(&self, shell: Shell, theme: &Theme) -> (r: Option<Vec<Segment>>) {
        let text = match shell {
            Shell::Bash => " \\$ ",
            Shell::Zsh => " %# ",
            Shell::Bare => {
                return None;
            },
        };
        Some(
            single(
                Segment {
                    name: SegmentName::Root,
                    text: String::from_str(text),
                    bg: theme.root_bg,
                    fg: theme.root_fg,
                    blinking: false,
                },
            ),
        )
    }
}

} // verus!
