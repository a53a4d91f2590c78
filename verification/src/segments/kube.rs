//! The cluster-context segment: context, warning, namespace.

use vstd::prelude::*;
use vstd::string::*;
use crate::configuration::KubeConfiguration;
use crate::configuration::KubeContextAlias;
use crate::segments::push_segment;
use crate::segments::Segment;
use crate::segments::SegmentGenerator;
use crate::segments::SegmentName;
use crate::segments::SegmentView;
use crate::shell::Shell;
use crate::text::contains_any;
use crate::text::contains_any_spec;
use crate::text::str_eq;
use crate::theme::ForegroundColor;
use crate::theme::Theme;
use crate::theme::WARNING_COLOR_CODE;

verus! {

/// The context that the cluster configuration names as current.
#[derive(Clone, PartialEq, Eq, Debug)]
pub struct KubeContext {
    pub name: String,
    pub namespace: Option<String>,
}

/// The alias of the first entry from position `from` on that is for `context`.
pub open spec fn alias_from(aliases: Seq<KubeContextAlias>, context: Seq<char>, from: int) -> Option<
    Seq<char>,
>
    decreases aliases.len() - from,
{
    if from < 0 || from >= aliases.len() {
        None
    } else if aliases[from].context@ == context {
        Some(aliases[from].alias@)
    } else {
        alias_from(aliases, context, from + 1)
    }
}

/// The name a context is shown under: its first alias, or its own name.
pub open spec fn display_name(config: Option<KubeConfiguration>, context: Seq<char>) -> Seq<char> {
    match config {
        Some(KubeConfiguration { context_aliases: Some(aliases), .. }) => match alias_from(
            aliases@,
            context,
            0,
        ) {
            Some(alias) => alias,
            None => context,
        },
        _ => context,
    }
}

/// Whether a context is critical: its name contains one of the configured
/// critical names.
pub open spec fn is_critical(config: Option<KubeConfiguration>, context: Seq<char>) -> bool {
    match config {
        Some(KubeConfiguration { critical_contexts: Some(patterns), .. }) => contains_any_spec(
            patterns@,
            context,
        ),
        _ => false,
    }
}

/// The blinking warning sign, on the background of the context chunks.
pub open spec fn warning_chunk(theme: Theme) -> SegmentView {
    SegmentView {
        name: SegmentName::Kube,
        text: "\u{f071}"@,
        bg: theme.kube_context_bg,
        fg: ForegroundColor(WARNING_COLOR_CODE),
        blinking: true,
    }
}

/// All chunks of a context: the wheel, the displayed name, the warning if the
/// context is critical, the namespace if it has one.
pub open spec fn context_chunks(
    config: Option<KubeConfiguration>,
    context: KubeContext,
    theme: Theme,
) -> Seq<SegmentView> {
    seq![
        SegmentView {
            name: SegmentName::Kube,
            text: " \u{2388} "@,
            bg: theme.kube_context_bg,
            fg: theme.kube_context_fg,
            blinking: false,
        },
        SegmentView {
            name: SegmentName::Kube,
            text: display_name(config, context.name@) + " "@,
            bg: theme.kube_context_bg,
            fg: theme.kube_context_fg,
            blinking: false,
        },
    ] + (if is_critical(config, context.name@) {
        seq![warning_chunk(theme)]
    } else {
        Seq::empty()
    }) + (match context.namespace {
        Some(namespace) => seq![
            SegmentView {
                name: SegmentName::Kube,
                text: " "@ + namespace@ + " "@,
                bg: theme.kube_namespace_bg,
                fg: theme.kube_namespace_fg,
                blinking: false,
            },
        ],
        None => Seq::empty(),
    })
}

fn find_alias<'a>(aliases: &'a Vec<KubeContextAlias>, context: &str) -> (r: Option<&'a String>)
    ensures
        match r {
            Some(alias) => alias_from(aliases@, context@, 0) == Some(alias@),
            None => alias_from(aliases@, context@, 0) is None,
        },
{
    let mut i: usize = 0;
    while i < aliases.len()
        invariant
            i <= aliases.len(),
            alias_from(aliases@, context@, 0) == alias_from(aliases@, context@, i as int),
        decreases aliases.len() - i,
    {
        if str_eq(aliases[i].context.as_str(), context) {
            return Some(&aliases[i].alias);
        }
        i += 1;
    }
    None
}

pub struct KubeSegment<'a> {
    config: Option<&'a KubeConfiguration>,
    context: Option<KubeContext>,
}

impl<'a> KubeSegment<'a> {
    /// The options this segment was made with.
    pub closed spec fn config(&self) -> Option<KubeConfiguration> {
        match self.config {
            Some(config) => Some(*config),
            None => None,
        }
    }

    /// The current context this segment describes.
    pub closed spec fn context(&self) -> Option<KubeContext> {
        self.context
    }

    /// A segment for the current context of the cluster configuration; `None`
    /// where there is no configuration, or none that names a known context.
    pub fn new(config: Option<&'a KubeConfiguration>, context: Option<KubeContext>) -> (r: Self)
        ensures
            r.config() == (match config {
                Some(config) => Some(*config),
                None => None,
            }),
            r.context() == context,
    {
        Self { config, context }
    }
}

impl SegmentGenerator for KubeSegment<'_> {
    /// Nothing without a current context; else its chunks.
    open spec fn output_spec(&self, shell: Shell, theme: Theme) -> Option<Seq<SegmentView>> {
        match self.context() {
            Some(context) => Some(context_chunks(self.config(), context, theme)),
            None => None,
        }
    }

    fn output(&self, _shell: Shell, theme: &Theme) -> (r: Option<Vec<Segment>>) {
        let context = match &self.context {
            Some(context) => context,
            None => {
                return None;
            },
        };
        let mut segments: Vec<Segment> = Vec::new();
        push_segment(
            &mut segments,
            Segment {
                name: SegmentName::Kube,
                text: String::from_str(" \u{2388} "),
                bg: theme.kube_context_bg,
                fg: theme.kube_context_fg,
                blinking: false,
            },
        );

        let mut alias: Option<&String> = None;
        let mut critical = false;
        if let Some(config) = self.config {
            if let Some(aliases) = &config.context_aliases {
                alias = find_alias(aliases, context.name.as_str());
            }
            if let Some(patterns) = &config.critical_contexts {
                critical = contains_any(patterns, context.name.as_str());
            }
        }
        assert(critical == is_critical(self.config(), context.name@));
        let mut text = match alias {
            Some(alias) => alias.clone(),
            None => context.name.clone(),
        };
        assert(text@ == display_name(self.config(), context.name@));
        text.append(" ");
        push_segment(
            &mut segments,
            Segment {
                name: SegmentName::Kube,
                text,
                bg: theme.kube_context_bg,
                fg: theme.kube_context_fg,
                blinking: false,
            },
        );

        if critical {
            push_segment(
                &mut segments,
                Segment {
                    name: SegmentName::Kube,
                    text: String::from_str("\u{f071}"),
                    bg: theme.kube_context_bg,
                    fg: ForegroundColor::from_color_code(WARNING_COLOR_CODE),
                    blinking: true,
                },
            );
        }

        if let Some(namespace) = &context.namespace {
            let mut text = String::from_str(" ");
            text.append(namespace.as_str());
            text.append(" ");
            push_segment(
                &mut segments,
                Segment {
                    name: SegmentName::Kube,
                    text,
                    bg: theme.kube_namespace_bg,
                    fg: theme.kube_namespace_fg,
                    blinking: false,
                },
            );
        }
        assert(segments.deep_view() =~= context_chunks(self.config(), *context, *theme));
        Some(segments)
    }
}

} // verus!
