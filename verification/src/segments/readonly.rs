//! The read-only marker.

use vstd::prelude::*;
use vstd::string::*;
use crate::segments::single;
use crate::segments::Segment;
use crate::segments::SegmentGenerator;
use crate::segments::SegmentName;
use crate::segments::SegmentView;
use crate::shell::Shell;
use crate::theme::Theme;

verus! {

pub struct ReadonlySegment {
    readonly: bool,
}

impl ReadonlySegment {
    /// Whether the working directory cannot be written to.
    pub closed spec fn readonly(&self) -> bool {
        self.readonly
    }

    /// A segment for a working directory that the user cannot write to
    /// (`readonly`) or can.
    pub fn new(readonly: bool) -> (r: Self)
        ensures
            r.readonly() == readonly,
    {
        Self { readonly }
    }
}

impl SegmentGenerator for ReadonlySegment {
    /// One chunk with a lock in a read-only directory; nothing elsewhere.
    open spec fn output_spec(&self, shell: Shell, theme: Theme) -> Option<Seq<SegmentView>> {
        if self.readonly() {
            Some(
                seq![
                    SegmentView {
                        name: SegmentName::Readonly,
                        text: " \u{f023} "@,
                        bg: theme.readonly_bg,
                        fg: theme.readonly_fg,
                        blinking: false,
                    },
                ],
            )
        } else {
            None
        }
    }

    fn output(&self, _shell: Shell, theme: &Theme) -> (r: Option<Vec<Segment>>) {
        if self.readonly {
            Some(
                single(
                    Segment {
                        name: SegmentName::Readonly,
                        text: String::from_str(" \u{f023} "),
                        bg: theme.readonly_bg,
                        fg: theme.readonly_fg,
                        blinking: false,
                    },
                ),
            )
        } else {
            None
        }
    }
}

} // verus!
