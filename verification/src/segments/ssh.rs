//! The SSH indicator.

use vstd::prelude::*;
use vstd::string::*;
use crate::segments::single;
use crate::segments::Segment;
use crate::segments::SegmentGenerator;
use crate::segments::SegmentName;
use crate::segments::SegmentView;
use crate::shell::Shell;
use crate::theme::Theme;

verus! {

pub struct SshSegment {
    ssh_client: bool,
}

impl SshSegment {
    /// Whether the session is an SSH session.
    pub closed spec fn ssh_client(&self) -> bool {
        self.ssh_client
    }

    /// A segment for a session in which the variable `SSH_CLIENT` is set
    /// (`ssh_client`) or not.
    pub fn new(ssh_client: bool) -> (r: Self)
        ensures
            r.ssh_client() == ssh_client,
    {
        Self { ssh_client }
    }
}

impl SegmentGenerator for SshSegment {
    /// One chunk with the SSH mark in an SSH session; nothing elsewhere.
    open spec fn output_spec(&self, shell: Shell, theme: Theme) -> Option<Seq<SegmentView>> {
        if self.ssh_client() {
            Some(
                seq![
                    SegmentView {
                        name: SegmentName::Ssh,
                        text: " \u{f08c0} "@,
                        bg: theme.ssh_bg,
                        fg: theme.ssh_fg,
                        blinking: false,
                    },
                ],
            )
        } else {
            None
        }
    }

    fn output(&self, _shell: Shell, theme: &Theme) -> (r: Option<Vec<Segment>>) {
        if self.ssh_client {
            Some(
                single(
                    Segment {
                        name: SegmentName::Ssh,
                        text: String::from_str(" \u{f08c0} "),
                        bg: theme.ssh_bg,
                        fg: theme.ssh_fg,
                        blinking: false,
                    },
                ),
            )
        } else {
            None
        }
    }
}

} // verus!
