//! The default palette.

use vstd::prelude::*;
use crate::theme::BackgroundColor;
use crate::theme::ForegroundColor;
use crate::theme::Theme;

verus! {

/// The colours of the default theme.
pub open spec fn palette() -> Theme {
    Theme {
        container_bg: BackgroundColor(25),
        container_fg: ForegroundColor(254),
        cwd_bg: BackgroundColor(31),
        cwd_fg: ForegroundColor(15),
        git_branch_bg: BackgroundColor(148),
        git_branch_fg: ForegroundColor(0),
        git_ahead_bg: BackgroundColor(240),
        git_ahead_fg: ForegroundColor(250),
        git_behind_bg: BackgroundColor(240),
        git_behind_fg: ForegroundColor(250),
        git_modified_bg: BackgroundColor(130),
        git_modified_fg: ForegroundColor(15),
        git_staged_bg: BackgroundColor(22),
        git_staged_fg: ForegroundColor(15),
        git_untracked_bg: BackgroundColor(52),
        git_untracked_fg: ForegroundColor(15),
        git_conflicted_bg: BackgroundColor(9),
        git_conflicted_fg: ForegroundColor(15),
        kube_context_bg: BackgroundColor(55),
        kube_context_fg: ForegroundColor(254),
        kube_namespace_bg: BackgroundColor(96),
        kube_namespace_fg: ForegroundColor(254),
        readonly_bg: BackgroundColor(124),
        readonly_fg: ForegroundColor(254),
        root_bg: BackgroundColor(236),
        root_fg: ForegroundColor(15),
        ssh_bg: BackgroundColor(166),
        ssh_fg: ForegroundColor(254),
        terraform_bg: BackgroundColor(93),
        terraform_fg: ForegroundColor(254),
    }
}

/// The default theme.
pub fn theme() -> (t: Theme)
    ensures
        t == palette(),
{
    Theme {
        container_bg: BackgroundColor(25),
        container_fg: ForegroundColor(254),
        cwd_bg: BackgroundColor(31),
        cwd_fg: ForegroundColor(15),
        git_branch_bg: BackgroundColor(148),
        git_branch_fg: ForegroundColor(0),
        git_ahead_bg: BackgroundColor(240),
        git_ahead_fg: ForegroundColor(250),
        git_behind_bg: BackgroundColor(240),
        git_behind_fg: ForegroundColor(250),
        git_modified_bg: BackgroundColor(130),
        git_modified_fg: ForegroundColor(15),
        git_staged_bg: BackgroundColor(22),
        git_staged_fg: ForegroundColor(15),
        git_untracked_bg: BackgroundColor(52),
        git_untracked_fg: ForegroundColor(15),
        git_conflicted_bg: BackgroundColor(9),
        git_conflicted_fg: ForegroundColor(15),
        kube_context_bg: BackgroundColor(55),
        kube_context_fg: ForegroundColor(254),
        kube_namespace_bg: BackgroundColor(96),
        kube_namespace_fg: ForegroundColor(254),
        readonly_bg: BackgroundColor(124),
        readonly_fg: ForegroundColor(254),
        root_bg: BackgroundColor(236),
        root_fg: ForegroundColor(15),
        ssh_bg: BackgroundColor(166),
        ssh_fg: ForegroundColor(254),
        terraform_bg: BackgroundColor(93),
        terraform_fg: ForegroundColor(254),
    }
}

} // verus!
