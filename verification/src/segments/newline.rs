//! The line break.

use vstd::prelude::*;
use vstd::string::*;
use crate::segments::single;
use crate::segments::Segment;
use crate::segments::SegmentGenerator;
use crate::segments::SegmentName;
use crate::segments::SegmentView;
use crate::shell::Shell;
use crate::theme::BackgroundColor;
use crate::theme::ForegroundColor;
use crate::theme::Theme;

verus! {

pub struct NewLineSegment;

impl NewLineSegment {
    pub fn new() -> (r: Self) {
        Self {  }
    }
}

impl SegmentGenerator for NewLineSegment {
    /// One line break. Its colours are never drawn.
    open spec fn output_spec(&self, shell: Shell, theme: Theme) -> Option<Seq<SegmentView>> {
        Some(
            seq![
                SegmentView {
                    name: SegmentName::Newline,
                    text: "\n"@,
                    bg: BackgroundColor(0),
                    fg: ForegroundColor(0),
                    blinking: false,
                },
            ],
        )
    }

    fn output(&self, _shell: Shell, _theme: &Theme) -> (r: Option<Vec<Segment>>) {
        Some(
            single(
                Segment {
                    name: SegmentName::Newline,
                    text: String::from_str("\n"),
                    bg: BackgroundColor(0),
                    fg: ForegroundColor(0),
                    blinking: false,
                },
            ),
        )
    }
}

} // verus!
