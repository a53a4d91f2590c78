//! Segments and the generators that produce them.
//!
//! A generator stands for one integration. It holds the facts that were probed
//! for it and turns them into zero, one or several [`Segment`]s: `None` means
//! that the integration does not apply here, and leaves no trace in the prompt.

use vstd::prelude::*;
use vstd::string::*;
use crate::shell::Shell;
use crate::text::str_eq;
use crate::theme::BackgroundColor;
use crate::theme::ForegroundColor;
use crate::theme::Theme;

pub mod containers;
pub mod cwd;
pub mod git;
pub mod kube;
pub mod newline;
pub mod readonly;
pub mod root;
pub mod ssh;
pub mod terraform;

pub use containers::ContainersSegment;
pub use cwd::CwdSegment;
pub use git::GitSegment;
pub use kube::KubeSegment;
pub use newline::NewLineSegment;
pub use readonly::ReadonlySegment;
pub use root::RootSegment;
pub use ssh::SshSegment;
pub use terraform::TerraformSegment;

verus! {

/// The integration a segment comes from.
#[derive(Clone, Copy, PartialEq, Eq, Structural, Debug)]
pub enum SegmentName {
    Cwd,
    Root,
    Kube,
    Git,
    Ssh,
    Readonly,
    Containers,
    Terraform,
    /// A line break. Segments of this name split the prompt into lines: they
    /// are never coloured and no divider touches them.
    Newline,
}

impl SegmentName {
    /// The name as it is written in a configuration.
    pub open spec fn name_spec(self) -> Seq<char> {
        match self {
            SegmentName::Cwd => "cwd"@,
            SegmentName::Root => "root"@,
            SegmentName::Kube => "kube"@,
            SegmentName::Git => "git"@,
            SegmentName::Ssh => "ssh"@,
            SegmentName::Readonly => "readonly"@,
            SegmentName::Containers => "containers"@,
            SegmentName::Terraform => "terraform"@,
            SegmentName::Newline => "newline"@,
        }
    }

    /// The segment that `name` selects.
    pub open spec fn from_name(name: Seq<char>) -> Option<SegmentName> {
        if name == "cwd"@ {
            Some(SegmentName::Cwd)
        } else if name == "root"@ {
            Some(SegmentName::Root)
        } else if name == "kube"@ {
            Some(SegmentName::Kube)
        } else if name == "git"@ {
            Some(SegmentName::Git)
        } else if name == "ssh"@ {
            Some(SegmentName::Ssh)
        } else if name == "readonly"@ {
            Some(SegmentName::Readonly)
        } else if name == "containers"@ {
            Some(SegmentName::Containers)
        } else if name == "terraform"@ {
            Some(SegmentName::Terraform)
        } else if name == "newline"@ {
            Some(SegmentName::Newline)
        } else {
            None
        }
    }

    /// The name as it is written in a configuration.
    pub fn as_str(self) -> (s: &'static str)
        ensures
            s@ == self.name_spec(),
    {
        match self {
            SegmentName::Cwd => "cwd",
            SegmentName::Root => "root",
            SegmentName::Kube => "kube",
            SegmentName::Git => "git",
            SegmentName::Ssh => "ssh",
            SegmentName::Readonly => "readonly",
            SegmentName::Containers => "containers",
            SegmentName::Terraform => "terraform",
            SegmentName::Newline => "newline",
        }
    }

    /// Resolves a segment by the name written in a configuration.
    pub fn parse(name: &str) -> (r: Option<SegmentName>)
        ensures
            r == SegmentName::from_name(name@),
    {
        if str_eq(name, "cwd") {
            Some(SegmentName::Cwd)
        } else if str_eq(name, "root") {
            Some(SegmentName::Root)
        } else if str_eq(name, "kube") {
            Some(SegmentName::Kube)
        } else if str_eq(name, "git") {
            Some(SegmentName::Git)
        } else if str_eq(name, "ssh") {
            Some(SegmentName::Ssh)
        } else if str_eq(name, "readonly") {
            Some(SegmentName::Readonly)
        } else if str_eq(name, "containers") {
            Some(SegmentName::Containers)
        } else if str_eq(name, "terraform") {
            Some(SegmentName::Terraform)
        } else if str_eq(name, "newline") {
            Some(SegmentName::Newline)
        } else {
            None
        }
    }
}

/// Every segment is found again by its name, and by no other text.
pub proof fn lemma_name_round_trip(name: SegmentName, text: Seq<char>)
    ensures
        SegmentName::from_name(name.name_spec()) == Some(name),
        SegmentName::from_name(text) == Some(name) ==> text == name.name_spec(),
{
    reveal_strlit("cwd");
    reveal_strlit("root");
    reveal_strlit("kube");
    reveal_strlit("git");
    reveal_strlit("ssh");
    reveal_strlit("readonly");
    reveal_strlit("containers");
    reveal_strlit("terraform");
    reveal_strlit("newline");
    assert("cwd"@.len() == 3 && "cwd"@[0] == 'c');
    assert("git"@.len() == 3 && "git"@[0] == 'g');
    assert("ssh"@.len() == 3 && "ssh"@[0] == 's');
    assert("root"@.len() == 4 && "root"@[0] == 'r');
    assert("kube"@.len() == 4 && "kube"@[0] == 'k');
    assert("readonly"@.len() == 8);
    assert("containers"@.len() == 10);
    assert("terraform"@.len() == 9);
    assert("newline"@.len() == 7);
}

/// One coloured chunk of prompt text.
#[derive(Clone, PartialEq, Eq, Debug)]
pub struct Segment {
    pub name: SegmentName,
    pub text: String,
    pub bg: BackgroundColor,
    pub fg: ForegroundColor,
    pub blinking: bool,
}

/// A [`Segment`] as contracts see it: the text is a sequence of characters.
pub struct SegmentView {
    pub name: SegmentName,
    pub text: Seq<char>,
    pub bg: BackgroundColor,
    pub fg: ForegroundColor,
    pub blinking: bool,
}

impl SegmentView {
    /// Whether this segment is a line break.
    pub open spec fn is_break(self) -> bool {
        self.name == SegmentName::Newline
    }
}

impl View for Segment {
    type V = SegmentView;

    open spec fn view(&self) -> SegmentView {
        SegmentView {
            name: self.name,
            text: self.text@,
            bg: self.bg,
            fg: self.fg,
            blinking: self.blinking,
        }
    }
}

impl DeepView for Segment {
    type V = SegmentView;

    open spec fn deep_view(&self) -> SegmentView {
        self@
    }
}

/// What a generator returned, as contracts see it.
pub open spec fn views(output: Option<Vec<Segment>>) -> Option<Seq<SegmentView>> {
    match output {
        Some(segments) => Some(segments.deep_view()),
        None => None,
    }
}

/// An integration that contributes segments to the prompt.
pub trait SegmentGenerator {
    /// The segments this generator contributes; `None` if the integration does
    /// not apply.
    spec fn output_spec(&self, shell: Shell, theme: Theme) -> Option<Seq<SegmentView>>;

    fn output(&self, shell: Shell, theme: &Theme) -> (r: Option<Vec<Segment>>)
        ensures
            views(r) == self.output_spec(shell, *theme),
    ;
}

/// Any of the generators. The set is closed: a prompt is made of these
/// integrations and no others.
pub enum Generator<'a> {
    Cwd(CwdSegment<'a>),
    Root(RootSegment),
    Kube(KubeSegment<'a>),
    Git(GitSegment),
    Ssh(SshSegment),
    Readonly(ReadonlySegment),
    Containers(ContainersSegment<'a>),
    Terraform(TerraformSegment<'a>),
    NewLine(NewLineSegment),
}

impl<'a> Generator<'a> {
    /// The name this generator goes by in a configuration.
    pub open spec fn name_spec(&self) -> SegmentName {
        match self {
            Generator::Cwd(_) => SegmentName::Cwd,
            Generator::Root(_) => SegmentName::Root,
            Generator::Kube(_) => SegmentName::Kube,
            Generator::Git(_) => SegmentName::Git,
            Generator::Ssh(_) => SegmentName::Ssh,
            Generator::Readonly(_) => SegmentName::Readonly,
            Generator::Containers(_) => SegmentName::Containers,
            Generator::Terraform(_) => SegmentName::Terraform,
            Generator::NewLine(_) => SegmentName::Newline,
        }
    }

    /// The name this generator goes by in a configuration.
    pub fn name(&self) -> (r: SegmentName)
        ensures
            r == self.name_spec(),
    {
        match self {
            Generator::Cwd(_) => SegmentName::Cwd,
            Generator::Root(_) => SegmentName::Root,
            Generator::Kube(_) => SegmentName::Kube,
            Generator::Git(_) => SegmentName::Git,
            Generator::Ssh(_) => SegmentName::Ssh,
            Generator::Readonly(_) => SegmentName::Readonly,
            Generator::Containers(_) => SegmentName::Containers,
            Generator::Terraform(_) => SegmentName::Terraform,
            Generator::NewLine(_) => SegmentName::Newline,
        }
    }
}

impl SegmentGenerator for Generator<'_> {
    /// What the generator inside contributes.
    open spec fn output_spec(&self, shell: Shell, theme: Theme) -> Option<Seq<SegmentView>> {
        match self {
            Generator::Cwd(g) => g.output_spec(shell, theme),
            Generator::Root(g) => g.output_spec(shell, theme),
            Generator::Kube(g) => g.output_spec(shell, theme),
            Generator::Git(g) => g.output_spec(shell, theme),
            Generator::Ssh(g) => g.output_spec(shell, theme),
            Generator::Readonly(g) => g.output_spec(shell, theme),
            Generator::Containers(g) => g.output_spec(shell, theme),
            Generator::Terraform(g) => g.output_spec(shell, theme),
            Generator::NewLine(g) => g.output_spec(shell, theme),
        }
    }

    fn output(&self, shell: Shell, theme: &Theme) -> (r: Option<Vec<Segment>>) {
        match self {
            Generator::Cwd(g) => g.output(shell, theme),
            Generator::Root(g) => g.output(shell, theme),
            Generator::Kube(g) => g.output(shell, theme),
            Generator::Git(g) => g.output(shell, theme),
            Generator::Ssh(g) => g.output(shell, theme),
            Generator::Readonly(g) => g.output(shell, theme),
            Generator::Containers(g) => g.output(shell, theme),
            Generator::Terraform(g) => g.output(shell, theme),
            Generator::NewLine(g) => g.output(shell, theme),
        }
    }
}

/// Appends one segment.
pub(crate) fn push_segment(segments: &mut Vec<Segment>, segment: Segment)
    ensures
        final(segments)@ == old(segments)@.push(segment),
        final(segments).deep_view() == old(segments).deep_view().push(segment@),
{
    segments.push(segment);
    assert(segments.deep_view() =~= old(segments).deep_view().push(segment@));
}

/// The one-segment output.
pub(crate) fn single(segment: Segment) -> (r: Vec<Segment>)
    ensures
        r.deep_view() == seq![segment@],
{
    let mut segments: Vec<Segment> = Vec::new();
    push_segment(&mut segments, segment);
    assert(segments.deep_view() =~= seq![segment@]);
    segments
}

} // verus!
