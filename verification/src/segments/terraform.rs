//! The Terraform segment: the active workspace, with a warning on critical ones.

use vstd::prelude::*;
use vstd::string::*;
use crate::configuration::TerraformConfiguration;
use crate::segments::push_segment;
use crate::segments::Segment;
use crate::segments::SegmentGenerator;
use crate::segments::SegmentName;
use crate::segments::SegmentView;
use crate::shell::Shell;
use crate::text::listed;
use crate::text::listed_spec;
use crate::theme::ForegroundColor;
use crate::theme::Theme;
use crate::theme::WARNING_COLOR_CODE;

verus! {

/// Whether a workspace is critical: its name is one of the configured ones.
pub open spec fn is_critical(config: Option<TerraformConfiguration>, workspace: Seq<char>) -> bool {
    match config {
        Some(config) => listed_spec(config.critical_workspaces@, workspace),
        None => false,
    }
}

/// All chunks of a workspace: the mark, the warning if the workspace is
/// critical, the name.
pub open spec fn workspace_chunks(
    config: Option<TerraformConfiguration>,
    workspace: Seq<char>,
    theme: Theme,
) -> Seq<SegmentView> {
    seq![
        SegmentView {
            name: SegmentName::Terraform,
            text: " \u{f1062} "@,
            bg: theme.terraform_bg,
            fg: theme.terraform_fg,
            blinking: false,
        },
    ] + (if is_critical(config, workspace) {
        seq![
            SegmentView {
                name: SegmentName::Terraform,
                text: "\u{f071}"@,
                bg: theme.terraform_bg,
                fg: ForegroundColor(WARNING_COLOR_CODE),
                blinking: true,
            },
        ]
    } else {
        Seq::empty()
    }) + seq![
        SegmentView {
            name: SegmentName::Terraform,
            text: workspace + " "@,
            bg: theme.terraform_bg,
            fg: theme.terraform_fg,
            blinking: false,
        },
    ]
}

pub struct TerraformSegment<'a> {
    config: Option<&'a TerraformConfiguration>,
    workspace: Option<String>,
}

impl<'a> TerraformSegment<'a> {
    /// The options this segment was made with.
    pub closed spec fn config(&self) -> Option<TerraformConfiguration> {
        match self.config {
            Some(config) => Some(*config),
            None => None,
        }
    }

    /// The workspace this segment describes.
    pub closed spec fn workspace(&self) -> Option<String> {
        self.workspace
    }

    /// A segment for the workspace named by the marker file of the working
    /// directory; `None` where the file cannot be read.
    pub fn new(config: Option<&'a TerraformConfiguration>, workspace: Option<String>) -> (r: Self)
        ensures
            r.config() == (match config {
                Some(config) => Some(*config),
                None => None,
            }),
            r.workspace() == workspace,
    {
        Self { config, workspace }
    }
}

impl SegmentGenerator for TerraformSegment<'_> {
    /// Nothing without a workspace; else its chunks.
    open spec fn output_spec(&self, shell: Shell, theme: Theme) -> Option<Seq<SegmentView>> {
        match self.workspace() {
            Some(workspace) => Some(workspace_chunks(self.config(), workspace@, theme)),
            None => None,
        }
    }

    fn output(&self, _shell: Shell, theme: &Theme) -> (r: Option<Vec<Segment>>) {
        let workspace = match &self.workspace {
            Some(workspace) => workspace,
            None => {
                return None;
            },
        };
        let mut segments: Vec<Segment> = Vec::new();
        push_segment(
            &mut segments,
            Segment {
                name: SegmentName::Terraform,
                text: String::from_str(" \u{f1062} "),
                bg: theme.terraform_bg,
                fg: theme.terraform_fg,
                blinking: false,
            },
        );

        let critical = match self.config {
            Some(config) => listed(&config.critical_workspaces, workspace.as_str()),
            None => false,
        };
        if critical {
            push_segment(
                &mut segments,
                Segment {
                    name: SegmentName::Terraform,
                    text: String::from_str("\u{f071}"),
                    bg: theme.terraform_bg,
                    fg: ForegroundColor::from_color_code(WARNING_COLOR_CODE),
                    blinking: true,
                },
            );
        }

        let mut text = workspace.clone();
        text.append(" ");
        push_segment(
            &mut segments,
            Segment {
                name: SegmentName::Terraform,
                text,
                bg: theme.terraform_bg,
                fg: theme.terraform_fg,
                blinking: false,
            },
        );
        assert(segments.deep_view() =~= workspace_chunks(self.config(), workspace@, *theme));
        Some(segments)
    }
}

} // verus!
