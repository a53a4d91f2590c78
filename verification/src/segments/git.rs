//! The version-control segment: branch, distance to upstream, working tree.

use vstd::prelude::*;
use vstd::string::*;
use crate::segments::push_segment;
use crate::segments::Segment;
use crate::segments::SegmentGenerator;
use crate::segments::SegmentName;
use crate::segments::SegmentView;
use crate::shell::Shell;
use crate::text::decimal;
use crate::text::decimal_string;
use crate::text::truncate;
use crate::text::truncate_spec;
use crate::theme::BackgroundColor;
use crate::theme::ForegroundColor;
use crate::theme::Theme;

verus! {

/// How many characters of a commit id are shown when HEAD is detached.
pub const SHORT_ID_LEN: usize = 7;

/// The state of one path, as the repository reports it.
#[derive(Clone, Copy, PartialEq, Eq, Structural, Debug, Default)]
pub struct FileStatus {
    pub index_new: bool,
    pub index_modified: bool,
    pub index_deleted: bool,
    pub index_renamed: bool,
    pub index_typechange: bool,
    pub wt_new: bool,
    pub wt_modified: bool,
    pub wt_deleted: bool,
    pub wt_typechange: bool,
    pub conflicted: bool,
}

/// The one kind of change a path is counted under.
#[derive(Clone, Copy, PartialEq, Eq, Structural, Debug)]
pub enum Change {
    Modified,
    Staged,
    Untracked,
    Conflicted,
}

impl FileStatus {
    /// The kind of change this path counts as. A change in the working tree
    /// hides a staged one, which hides an untracked file, which hides a
    /// conflict; a path with none of them is not counted.
    pub open spec fn change_spec(self) -> Option<Change> {
        if self.wt_modified || self.wt_deleted || self.wt_typechange {
            Some(Change::Modified)
        } else if self.index_new || self.index_modified || self.index_deleted
            || self.index_renamed || self.index_typechange {
            Some(Change::Staged)
        } else if self.wt_new {
            Some(Change::Untracked)
        } else if self.conflicted {
            Some(Change::Conflicted)
        } else {
            None
        }
    }

    /// The kind of change this path counts as.
    pub fn change(&self) -> (r: Option<Change>)
        ensures
            r == self.change_spec(),
    {
        if self.wt_modified || self.wt_deleted || self.wt_typechange {
            Some(Change::Modified)
        } else if self.index_new || self.index_modified || self.index_deleted
            || self.index_renamed || self.index_typechange {
            Some(Change::Staged)
        } else if self.wt_new {
            Some(Change::Untracked)
        } else if self.conflicted {
            Some(Change::Conflicted)
        } else {
            None
        }
    }
}

/// How many of `statuses` count as `change`.
pub open spec fn count_changes(statuses: Seq<FileStatus>, change: Change) -> nat
    decreases statuses.len(),
{
    if statuses.len() == 0 {
        0
    } else {
        count_changes(statuses.drop_last(), change) + if statuses.last().change_spec() == Some(
            change,
        ) {
            1nat
        } else {
            0nat
        }
    }
}

/// The number of paths under each kind of change.
#[derive(Clone, Copy, PartialEq, Eq, Structural, Debug)]
pub struct Tally {
    pub modified: usize,
    pub staged: usize,
    pub untracked: usize,
    pub conflicted: usize,
}

/// Counts the paths under each kind of change.
pub fn tally(statuses: &Vec<FileStatus>) -> (t: Tally)
    ensures
        t.modified == count_changes(statuses@, Change::Modified),
        t.staged == count_changes(statuses@, Change::Staged),
        t.untracked == count_changes(statuses@, Change::Untracked),
        t.conflicted == count_changes(statuses@, Change::Conflicted),
{
    let mut t = Tally { modified: 0, staged: 0, untracked: 0, conflicted: 0 };
    let mut i: usize = 0;
    while i < statuses.len()
        invariant
            i <= statuses.len(),
            t.modified == count_changes(statuses@.take(i as int), Change::Modified),
            t.staged == count_changes(statuses@.take(i as int), Change::Staged),
            t.untracked == count_changes(statuses@.take(i as int), Change::Untracked),
            t.conflicted == count_changes(statuses@.take(i as int), Change::Conflicted),
            t.modified + t.staged + t.untracked + t.conflicted <= i,
        decreases statuses.len() - i,
    {
        assert(statuses@.take(i + 1).drop_last() =~= statuses@.take(i as int));
        match statuses[i].change() {
            Some(Change::Modified) => {
                t.modified += 1;
            },
            Some(Change::Staged) => {
                t.staged += 1;
            },
            Some(Change::Untracked) => {
                t.untracked += 1;
            },
            Some(Change::Conflicted) => {
                t.conflicted += 1;
            },
            None => {},
        }
        i += 1;
    }
    assert(statuses@.take(i as int) =~= statuses@);
    t
}

/// How far a branch and its upstream have moved apart.
#[derive(Clone, Copy, PartialEq, Eq, Structural, Debug)]
pub struct Divergence {
    /// Commits on the branch that upstream lacks.
    pub ahead: usize,
    /// Commits on upstream that the branch lacks.
    pub behind: usize,
}

/// What HEAD points at.
#[derive(Clone, PartialEq, Eq, Debug)]
pub enum GitHead {
    /// A local branch; `upstream` is absent if the branch tracks none.
    Branch { name: String, upstream: Option<Divergence> },
    /// A commit, by its full hexadecimal id.
    Detached { id: String },
}

impl GitHead {
    /// The text that names HEAD: the branch, or the start of the commit id.
    pub open spec fn label_spec(self) -> Seq<char> {
        match self {
            GitHead::Branch { name, .. } => name@,
            GitHead::Detached { id } => truncate_spec(id@, SHORT_ID_LEN as nat),
        }
    }

    /// The distance to upstream, where there is one.
    pub open spec fn divergence(self) -> Option<Divergence> {
        match self {
            GitHead::Branch { upstream, .. } => upstream,
            GitHead::Detached { .. } => None,
        }
    }
}

/// What was found out about the repository around the working directory.
#[derive(Clone, PartialEq, Eq, Debug)]
pub struct GitRepository {
    /// `None` if HEAD cannot be named: an unborn branch, a name that is not text.
    pub head: Option<GitHead>,
    /// The state of every path that differs from HEAD.
    pub statuses: Vec<FileStatus>,
}

/// The chunk that names HEAD.
pub open spec fn branch_chunk(label: Seq<char>, theme: Theme) -> SegmentView {
    SegmentView {
        name: SegmentName::Git,
        text: " \u{e0a0} "@ + label + " "@,
        bg: theme.git_branch_bg,
        fg: theme.git_branch_fg,
        blinking: false,
    }
}

/// The chunk that shows a count followed by its mark; nothing for a count of zero.
pub open spec fn count_chunk(
    n: nat,
    mark: Seq<char>,
    bg: BackgroundColor,
    fg: ForegroundColor,
) -> Seq<SegmentView> {
    if n == 0 {
        Seq::empty()
    } else {
        seq![
            SegmentView {
                name: SegmentName::Git,
                text: " "@ + decimal(n) + mark,
                bg,
                fg,
                blinking: false,
            },
        ]
    }
}

/// The chunks for the distance to upstream: ahead, then behind.
pub open spec fn divergence_chunks(divergence: Option<Divergence>, theme: Theme) -> Seq<
    SegmentView,
> {
    match divergence {
        Some(d) => count_chunk(
            d.ahead as nat,
            "\u{2b06} "@,
            theme.git_ahead_bg,
            theme.git_ahead_fg,
        ) + count_chunk(d.behind as nat, "\u{2b07} "@, theme.git_behind_bg, theme.git_behind_fg),
        None => Seq::empty(),
    }
}

/// The chunks for the working tree: staged, modified, untracked, conflicted.
pub open spec fn status_chunks(statuses: Seq<FileStatus>, theme: Theme) -> Seq<SegmentView> {
    count_chunk(
        count_changes(statuses, Change::Staged),
        "\u{2714} "@,
        theme.git_staged_bg,
        theme.git_staged_fg,
    ) + count_chunk(
        count_changes(statuses, Change::Modified),
        "\u{270e} "@,
        theme.git_modified_bg,
        theme.git_modified_fg,
    ) + count_chunk(
        count_changes(statuses, Change::Untracked),
        "+ "@,
        theme.git_untracked_bg,
        theme.git_untracked_fg,
    ) + count_chunk(
        count_changes(statuses, Change::Conflicted),
        "\u{273c} "@,
        theme.git_conflicted_bg,
        theme.git_conflicted_fg,
    )
}

/// All chunks of a repository whose HEAD can be named.
pub open spec fn repository_chunks(head: GitHead, statuses: Seq<FileStatus>, theme: Theme) -> Seq<
    SegmentView,
> {
    seq![branch_chunk(head.label_spec(), theme)] + divergence_chunks(head.divergence(), theme)
        + status_chunks(statuses, theme)
}

fn push_count(
    segments: &mut Vec<Segment>,
    n: usize,
    mark: &str,
    bg: BackgroundColor,
    fg: ForegroundColor,
)
    ensures
        final(segments).deep_view() == old(segments).deep_view() + count_chunk(
            n as nat,
            mark@,
            bg,
            fg,
        ),
{
    if n > 0 {
        let mut text = String::from_str(" ");
        text.append(decimal_string(n as u64).as_str());
        text.append(mark);
        push_segment(segments, Segment { name: SegmentName::Git, text, bg, fg, blinking: false });
    }
    assert(segments.deep_view() =~= old(segments).deep_view() + count_chunk(
        n as nat,
        mark@,
        bg,
        fg,
    ));
}

pub struct GitSegment {
    repository: Option<GitRepository>,
}

impl GitSegment {
    /// The repository this segment describes.
    pub closed spec fn repository(&self) -> Option<GitRepository> {
        self.repository
    }

    /// A segment for the repository found around the working directory;
    /// `None` outside of any repository.
    pub fn new(repository: Option<GitRepository>) -> (r: Self)
        ensures
            r.repository() == repository,
    {
        Self { repository }
    }
}

impl SegmentGenerator for GitSegment {
    /// Nothing outside a repository or where HEAD cannot be named. Else the
    /// branch chunk, then one chunk for each count that is not zero: ahead,
    /// behind, staged, modified, untracked, conflicted.
    open spec fn output_spec(&self, shell: Shell, theme: Theme) -> Option<Seq<SegmentView>> {
        match self.repository() {
            Some(GitRepository { head: Some(head), statuses }) => Some(
                repository_chunks(head, statuses@, theme),
            ),
            _ => None,
        }
    }

    fn output(&self, _shell: Shell, theme: &Theme) -> (r: Option<Vec<Segment>>) {
        let repository = match &self.repository {
            Some(repository) => repository,
            None => {
                return None;
            },
        };
        let head = match &repository.head {
            Some(head) => head,
            None => {
                return None;
            },
        };
        let mut text = String::from_str(" \u{e0a0} ");
        match head {
            GitHead::Branch { name, .. } => {
                text.append(name.as_str());
            },
            GitHead::Detached { id } => {
                text.append(truncate(id.as_str(), SHORT_ID_LEN));
            },
        }
        text.append(" ");
        let mut segments: Vec<Segment> = Vec::new();
        push_segment(
            &mut segments,
            Segment {
                name: SegmentName::Git,
                text,
                bg: theme.git_branch_bg,
                fg: theme.git_branch_fg,
                blinking: false,
            },
        );
        assert(segments.deep_view() =~= seq![branch_chunk(head.label_spec(), *theme)]);
        if let GitHead::Branch { upstream: Some(d), .. } = head {
            push_count(&mut segments, d.ahead, "\u{2b06} ", theme.git_ahead_bg, theme.git_ahead_fg);
            push_count(
                &mut segments,
                d.behind,
                "\u{2b07} ",
                theme.git_behind_bg,
                theme.git_behind_fg,
            );
        }
        assert(segments.deep_view() =~= seq![branch_chunk(head.label_spec(), *theme)]
            + divergence_chunks(head.divergence(), *theme));
        let t = tally(&repository.statuses);
        push_count(&mut segments, t.staged, "\u{2714} ", theme.git_staged_bg, theme.git_staged_fg);
        push_count(
            &mut segments,
            t.modified,
            "\u{270e} ",
            theme.git_modified_bg,
            theme.git_modified_fg,
        );
        push_count(
            &mut segments,
            t.untracked,
            "+ ",
            theme.git_untracked_bg,
            theme.git_untracked_fg,
        );
        push_count(
            &mut segments,
            t.conflicted,
            "\u{273c} ",
            theme.git_conflicted_bg,
            theme.git_conflicted_fg,
        );
        assert(segments.deep_view() =~= repository_chunks(
            *head,
            repository.statuses@,
            *theme,
        ));
        Some(segments)
    }
}

} // verus!
