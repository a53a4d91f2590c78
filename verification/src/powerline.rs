//! The composition engine: from segments to one prompt string.
//!
//! A prompt is laid out as a sequence of [`Piece`]s. Every segment gives a
//! coloured block and the divider that closes it; a line break gives itself.
//! A divider is drawn in the background colour of the block before it, on the
//! background colour of the block after it, or on no background where the line
//! ends. The prompt string is the text of the pieces, one after the other.

use vstd::prelude::*;
use vstd::string::*;
use crate::fonts::NerdFonts;
use crate::segments::Generator;
use crate::segments::Segment;
use crate::segments::SegmentGenerator;
use crate::segments::SegmentName;
use crate::segments::SegmentView;
use crate::shell::Shell;
use crate::theme::BackgroundColor;
use crate::theme::Blink;
use crate::theme::ForegroundColor;
use crate::theme::Reset;
use crate::theme::Theme;

verus! {

/// One piece of a laid-out prompt.
pub enum Piece {
    /// The text of a segment in its colours.
    Block { fg: ForegroundColor, bg: BackgroundColor, blinking: bool, text: Seq<char> },
    /// The triangle that closes a block. `bg` is the background of the block
    /// that follows on the line; `None` for the last triangle of a line.
    Divider { fg: ForegroundColor, bg: Option<BackgroundColor> },
    /// A line break, written as it is.
    Break { text: Seq<char> },
}

impl Piece {
    /// The text of this piece for `shell`.
    pub open spec fn text(self, shell: Shell) -> Seq<char> {
        match self {
            Piece::Block { fg, bg, blinking, text } => {
                let blink = if blinking {
                    Blink.fmt_spec(shell)
                } else {
                    Seq::empty()
                };
                fg.fmt_spec(shell) + bg.fmt_spec(shell) + blink + text + Reset.fmt_spec(shell)
            },
            Piece::Divider { fg, bg: Some(bg) } => {
                fg.fmt_spec(shell) + bg.fmt_spec(shell) + seq![NerdFonts::LEFT_HARD_DIVIDER]
                    + Reset.fmt_spec(shell)
            },
            Piece::Divider { fg, bg: None } => {
                fg.fmt_spec(shell) + seq![NerdFonts::LEFT_HARD_DIVIDER] + Reset.fmt_spec(shell)
                    + seq![' ']
            },
            Piece::Break { text } => text + Reset.fmt_spec(shell),
        }
    }
}

/// The background that the divider of segment `i` is drawn on: that of the
/// next segment, unless the line ends after segment `i`.
pub open spec fn next_background(segments: Seq<SegmentView>, i: int) -> Option<BackgroundColor> {
    if i + 1 < segments.len() && !segments[i + 1].is_break() {
        Some(segments[i + 1].bg)
    } else {
        None
    }
}

/// The block of a segment.
pub open spec fn block_of(segment: SegmentView) -> Piece {
    Piece::Block {
        fg: segment.fg,
        bg: segment.bg,
        blinking: segment.blinking,
        text: segment.text,
    }
}

/// The line break of a segment.
pub open spec fn break_of(segment: SegmentView) -> Piece {
    Piece::Break { text: segment.text }
}

/// The divider that closes a block of background `closed` before a block of
/// background `next`, or at the end of a line.
pub open spec fn divider_between(closed: BackgroundColor, next: Option<BackgroundColor>) -> Piece {
    Piece::Divider { fg: ForegroundColor::of_background(closed), bg: next }
}

/// The divider that closes segment `i`.
pub open spec fn divider_of(segments: Seq<SegmentView>, i: int) -> Piece {
    divider_between(segments[i].bg, next_background(segments, i))
}

/// The pieces that segment `i` gives.
pub open spec fn pieces_of(segments: Seq<SegmentView>, i: int) -> Seq<Piece> {
    if segments[i].is_break() {
        seq![break_of(segments[i])]
    } else {
        seq![block_of(segments[i]), divider_of(segments, i)]
    }
}

/// The pieces of the first `n` segments.
pub open spec fn layout_prefix(segments: Seq<SegmentView>, n: int) -> Seq<Piece>
    decreases n,
{
    if n <= 0 {
        Seq::empty()
    } else {
        layout_prefix(segments, n - 1) + pieces_of(segments, n - 1)
    }
}

/// The pieces of a prompt.
pub open spec fn layout(segments: Seq<SegmentView>) -> Seq<Piece> {
    layout_prefix(segments, segments.len() as int)
}

/// The text of a sequence of pieces for `shell`.
pub open spec fn text_of(pieces: Seq<Piece>, shell: Shell) -> Seq<char>
    decreases pieces.len(),
{
    if pieces.len() == 0 {
        Seq::empty()
    } else {
        text_of(pieces.drop_last(), shell) + pieces.last().text(shell)
    }
}

/// The prompt string of a sequence of segments for `shell`.
pub open spec fn render_spec(segments: Seq<SegmentView>, shell: Shell) -> Seq<char> {
    text_of(layout(segments), shell)
}

/// The text of pieces laid end to end is the texts laid end to end.
pub proof fn lemma_text_of_concat(a: Seq<Piece>, b: Seq<Piece>, shell: Shell)
    ensures
        text_of(a + b, shell) == text_of(a, shell) + text_of(b, shell),
    decreases b.len(),
{
    if b.len() == 0 {
        assert(a + b =~= a);
    } else {
        lemma_text_of_concat(a, b.drop_last(), shell);
        assert((a + b).drop_last() =~= a + b.drop_last());
        assert((a + b).last() == b.last());
    }
}

/// The text of the pieces that one segment gives.
pub proof fn lemma_text_of_pieces(segments: Seq<SegmentView>, i: int, shell: Shell)
    requires
        0 <= i < segments.len(),
    ensures
        text_of(pieces_of(segments, i), shell) == if segments[i].is_break() {
            break_of(segments[i]).text(shell)
        } else {
            block_of(segments[i]).text(shell) + divider_of(segments, i).text(shell)
        },
{
    let pieces = pieces_of(segments, i);
    if segments[i].is_break() {
        assert(pieces.drop_last() =~= Seq::<Piece>::empty());
        assert(text_of(pieces.drop_last(), shell) =~= Seq::<char>::empty());
    } else {
        let first = pieces.drop_last();
        assert(first =~= seq![block_of(segments[i])]);
        assert(first.drop_last() =~= Seq::<Piece>::empty());
        assert(text_of(first.drop_last(), shell) =~= Seq::<char>::empty());
        assert(text_of(first, shell) =~= block_of(segments[i]).text(shell));
    }
}

fn append_block(out: &mut String, segment: &Segment, shell: Shell)
    ensures
        final(out)@ == old(out)@ + block_of(segment@).text(shell),
{
    let mut block = segment.fg.fmt(shell);
    block.append(segment.bg.fmt(shell).as_str());
    if segment.blinking {
        block.append(Blink.fmt(shell).as_str());
    }
    block.append(segment.text.as_str());
    block.append(Reset.fmt(shell).as_str());
    assert(block@ =~= block_of(segment@).text(shell));
    out.append(block.as_str());
}

fn append_divider(
    out: &mut String,
    closed: BackgroundColor,
    next: Option<BackgroundColor>,
    shell: Shell,
)
    ensures
        final(out)@ == old(out)@ + divider_between(closed, next).text(shell),
{
    proof {
        reveal_strlit("\u{e0b0}");
        reveal_strlit(" ");
        assert("\u{e0b0}"@ =~= seq![NerdFonts::LEFT_HARD_DIVIDER]);
        assert(" "@ =~= seq![' ']);
    }
    let mut divider = ForegroundColor::from(closed).fmt(shell);
    match next {
        Some(bg) => {
            divider.append(bg.fmt(shell).as_str());
            divider.append("\u{e0b0}");
            divider.append(Reset.fmt(shell).as_str());
        },
        None => {
            divider.append("\u{e0b0}");
            divider.append(Reset.fmt(shell).as_str());
            divider.append(" ");
        },
    }
    assert(divider@ =~= divider_between(closed, next).text(shell));
    out.append(divider.as_str());
}

fn append_break(out: &mut String, segment: &Segment, shell: Shell)
    ensures
        final(out)@ == old(out)@ + break_of(segment@).text(shell),
{
    let mut line_break = segment.text.clone();
    line_break.append(Reset.fmt(shell).as_str());
    out.append(line_break.as_str());
}

/// The background of the segment after segment `i`, if the line goes on.
fn background_after(segments: &Vec<Segment>, i: usize) -> (r: Option<BackgroundColor>)
    requires
        i < segments.len(),
    ensures
        r == next_background(segments.deep_view(), i as int),
{
    if i + 1 < segments.len() {
        assert(segments.deep_view()[i + 1] == segments[i + 1]@);
        match segments[i + 1].name {
            SegmentName::Newline => None,
            _ => Some(segments[i + 1].bg),
        }
    } else {
        None
    }
}

/// Writes the prompt for `segments`.
pub fn render(segments: &Vec<Segment>, shell: Shell) -> (out: String)
    ensures
        out@ == render_spec(segments.deep_view(), shell),
{
    let ghost views = segments.deep_view();
    let mut out = String::new();
    let mut i: usize = 0;
    while i < segments.len()
        invariant
            i <= segments.len(),
            views == segments.deep_view(),
            out@ == text_of(layout_prefix(views, i as int), shell),
        decreases segments.len() - i,
    {
        let ghost before = out@;
        let segment = &segments[i];
        assert(views[i as int] == segment@);
        match segment.name {
            SegmentName::Newline => {
                append_break(&mut out, segment, shell);
            },
            _ => {
                append_block(&mut out, segment, shell);
                append_divider(&mut out, segment.bg, background_after(segments, i), shell);
                assert(out@ =~= before + (block_of(views[i as int]).text(shell) + divider_of(
                    views,
                    i as int,
                ).text(shell)));
            },
        }
        proof {
            lemma_text_of_pieces(views, i as int, shell);
            lemma_text_of_concat(
                layout_prefix(views, i as int),
                pieces_of(views, i as int),
                shell,
            );
        }
        i += 1;
    }
    out
}

/// What one generator contributes: its segments, or nothing if it does not
/// apply.
pub open spec fn contribution(generator: Generator<'_>, shell: Shell, theme: Theme) -> Seq<
    SegmentView,
> {
    match generator.output_spec(shell, theme) {
        Some(segments) => segments,
        None => Seq::empty(),
    }
}

/// What the first `n` of `generators` contribute, one after the other.
pub open spec fn collect_prefix(
    generators: Seq<Generator<'_>>,
    shell: Shell,
    theme: Theme,
    n: int,
) -> Seq<SegmentView>
    decreases n,
{
    if n <= 0 {
        Seq::empty()
    } else {
        collect_prefix(generators, shell, theme, n - 1) + contribution(
            generators[n - 1],
            shell,
            theme,
        )
    }
}

/// What `generators` contribute, one after the other. A generator that does
/// not apply contributes nothing.
pub open spec fn collect(generators: Seq<Generator<'_>>, shell: Shell, theme: Theme) -> Seq<
    SegmentView,
> {
    collect_prefix(generators, shell, theme, generators.len() as int)
}

pub struct Powerline<'a> {
    shell: Shell,
    theme: Theme,
    segments: Vec<Generator<'a>>,
}

impl<'a> Powerline<'a> {
    /// The shell the prompt is written for.
    pub closed spec fn shell(&self) -> Shell {
        self.shell
    }

    /// The theme the prompt is coloured with.
    pub closed spec fn theme(&self) -> Theme {
        self.theme
    }

    /// The generators added so far, in order.
    pub closed spec fn generators(&self) -> Seq<Generator<'a>> {
        self.segments@
    }

    /// The segments of the prompt: what the generators contribute, in order.
    pub open spec fn records(&self) -> Seq<SegmentView> {
        collect(self.generators(), self.shell(), self.theme())
    }

    /// A prompt without segments.
    pub fn new(shell: Shell, theme: Theme) -> (r: Self)
        ensures
            r.shell() == shell,
            r.theme() == theme,
            r.generators() == Seq::<Generator<'a>>::empty(),
            r.records() == Seq::<SegmentView>::empty(),
    {
        Self { shell, theme, segments: Vec::new() }
    }

    /// Adds a generator after those added before.
    pub fn add_segment(&mut self, segment: Generator<'a>)
        ensures
            final(self).shell() == old(self).shell(),
            final(self).theme() == old(self).theme(),
            final(self).generators() == old(self).generators().push(segment),
    {
        self.segments.push(segment);
    }

    /// Asks every generator in order and lines up what they return.
    pub fn segments(&self) -> (r: Vec<Segment>)
        ensures
            r.deep_view() == self.records(),
    {
        let mut all: Vec<Segment> = Vec::new();
        let mut i: usize = 0;
        assert(all.deep_view() =~= Seq::<SegmentView>::empty());
        while i < self.segments.len()
            invariant
                i <= self.segments.len(),
                all.deep_view() == collect_prefix(self.segments@, self.shell, self.theme, i as int),
            decreases self.segments.len() - i,
        {
            let ghost before = all.deep_view();
            match self.segments[i].output(self.shell, &self.theme) {
                Some(mut segments) => {
                    let ghost added = segments.deep_view();
                    all.append(&mut segments);
                    assert(all.deep_view() =~= before + added);
                },
                None => {
                    assert(all.deep_view() =~= before + Seq::<SegmentView>::empty());
                },
            }
            i += 1;
        }
        all
    }

    /// Writes the prompt.
    pub fn prompt(&self) -> (s: String)
        ensures
            s@ == render_spec(self.records(), self.shell()),
    {
        let segments = self.segments();
        render(&segments, self.shell)
    }
}

/// Whether no segment is a line break.
pub open spec fn one_line(segments: Seq<SegmentView>) -> bool {
    forall|i: int| 0 <= i < segments.len() ==> !(#[trigger] segments[i]).is_break()
}

/// How many of `segments` are line breaks.
pub open spec fn count_breaks(segments: Seq<SegmentView>) -> nat
    decreases segments.len(),
{
    if segments.len() == 0 {
        0
    } else {
        count_breaks(segments.drop_last()) + if segments.last().is_break() {
            1nat
        } else {
            0nat
        }
    }
}

/// How many of `pieces` are blocks.
pub open spec fn count_blocks(pieces: Seq<Piece>) -> nat
    decreases pieces.len(),
{
    if pieces.len() == 0 {
        0
    } else {
        count_blocks(pieces.drop_last()) + if pieces.last() is Block {
            1nat
        } else {
            0nat
        }
    }
}

/// How many of `pieces` are dividers.
pub open spec fn count_dividers(pieces: Seq<Piece>) -> nat
    decreases pieces.len(),
{
    if pieces.len() == 0 {
        0
    } else {
        count_dividers(pieces.drop_last()) + if pieces.last() is Divider {
            1nat
        } else {
            0nat
        }
    }
}

proof fn lemma_counts_prefix(segments: Seq<SegmentView>, n: int)
    requires
        0 <= n <= segments.len(),
    ensures
        count_blocks(layout_prefix(segments, n)) + count_breaks(segments.take(n)) == n,
        count_dividers(layout_prefix(segments, n)) == count_blocks(layout_prefix(segments, n)),
        layout_prefix(segments, n).len() == 2 * n - count_breaks(segments.take(n)),
    decreases n,
{
    if n > 0 {
        lemma_counts_prefix(segments, n - 1);
        let before = layout_prefix(segments, n - 1);
        let all = layout_prefix(segments, n);
        assert(segments.take(n).drop_last() =~= segments.take(n - 1));
        assert(segments.take(n).last() == segments[n - 1]);
        if segments[n - 1].is_break() {
            assert(all =~= before.push(break_of(segments[n - 1])));
            assert(all.drop_last() =~= before);
            assert(all.last() is Break);
        } else {
            let with_block = before.push(block_of(segments[n - 1]));
            assert(all =~= with_block.push(divider_of(segments, n - 1)));
            assert(all.drop_last() =~= with_block);
            assert(all.last() is Divider);
            assert(with_block.drop_last() =~= before);
            assert(with_block.last() is Block);
            assert(count_blocks(with_block) == count_blocks(before) + 1);
            assert(count_dividers(with_block) == count_dividers(before));
        }
    } else {
        assert(segments.take(n) =~= Seq::<SegmentView>::empty());
    }
}

/// Every segment that is no line break gives exactly one block and exactly
/// one divider; a line break gives neither. So a prompt of `N` segments on
/// one line is made of `N` blocks and `N` dividers.
pub proof fn lemma_layout_counts(segments: Seq<SegmentView>)
    ensures
        count_blocks(layout(segments)) + count_breaks(segments) == segments.len(),
        count_dividers(layout(segments)) == count_blocks(layout(segments)),
        layout(segments).len() == 2 * segments.len() - count_breaks(segments),
        one_line(segments) ==> count_blocks(layout(segments)) == segments.len()
            && count_dividers(layout(segments)) == segments.len(),
{
    lemma_counts_prefix(segments, segments.len() as int);
    assert(segments.take(segments.len() as int) =~= segments);
    if one_line(segments) {
        lemma_one_line_has_no_break(segments);
    }
}

proof fn lemma_one_line_has_no_break(segments: Seq<SegmentView>)
    requires
        one_line(segments),
    ensures
        count_breaks(segments) == 0,
    decreases segments.len(),
{
    if segments.len() > 0 {
        assert(!segments[segments.len() - 1].is_break());
        lemma_one_line_has_no_break(segments.drop_last());
    }
}

proof fn lemma_one_line_prefix(segments: Seq<SegmentView>, n: int, i: int)
    requires
        one_line(segments),
        0 <= i < n <= segments.len(),
    ensures
        layout_prefix(segments, n).len() == 2 * n,
        layout_prefix(segments, n)[2 * i] == block_of(segments[i]),
        layout_prefix(segments, n)[2 * i + 1] == divider_of(segments, i),
    decreases n,
{
    assert(!segments[n - 1].is_break());
    if n - 1 > 0 {
        lemma_one_line_prefix(segments, n - 1, 0);
    }
    if i < n - 1 {
        lemma_one_line_prefix(segments, n - 1, i);
    }
}

/// On one line, blocks and dividers alternate: segment `i` gives the block at
/// position `2i` and the divider at position `2i + 1`. The divider is drawn in
/// the background colour of its own segment, on the background of the next
/// segment; the last divider has no background.
pub proof fn lemma_one_line_layout(segments: Seq<SegmentView>, i: int)
    requires
        one_line(segments),
        0 <= i < segments.len(),
    ensures
        layout(segments).len() == 2 * segments.len(),
        layout(segments)[2 * i] == block_of(segments[i]),
        layout(segments)[2 * i + 1] == divider_between(
            segments[i].bg,
            if i + 1 < segments.len() {
                Some(segments[i + 1].bg)
            } else {
                None
            },
        ),
{
    lemma_one_line_prefix(segments, segments.len() as int, i);
    if i + 1 < segments.len() {
        assert(!segments[i + 1].is_break());
    }
}

/// The text of the first `n` segments of one line: for each segment its block
/// and then its divider, on the background of the segment after it or, for
/// the last segment of all, on none.
pub open spec fn line_text(segments: Seq<SegmentView>, shell: Shell, n: int) -> Seq<char>
    decreases n,
{
    if n <= 0 {
        Seq::empty()
    } else {
        let next = if n < segments.len() {
            Some(segments[n].bg)
        } else {
            None
        };
        line_text(segments, shell, n - 1) + block_of(segments[n - 1]).text(shell)
            + divider_between(segments[n - 1].bg, next).text(shell)
    }
}

proof fn lemma_one_line_text_prefix(segments: Seq<SegmentView>, shell: Shell, n: int)
    requires
        one_line(segments),
        0 <= n <= segments.len(),
    ensures
        text_of(layout_prefix(segments, n), shell) == line_text(segments, shell, n),
    decreases n,
{
    if n > 0 {
        lemma_one_line_text_prefix(segments, shell, n - 1);
        assert(!segments[n - 1].is_break());
        if n < segments.len() {
            assert(!segments[n].is_break());
        }
        lemma_text_of_pieces(segments, n - 1, shell);
        lemma_text_of_concat(layout_prefix(segments, n - 1), pieces_of(segments, n - 1), shell);
        assert(text_of(layout_prefix(segments, n), shell) =~= line_text(segments, shell, n));
    }
}

/// The prompt of `N` segments on one line is `N` times a block followed by a
/// divider, and nothing else.
pub proof fn lemma_one_line_text(segments: Seq<SegmentView>, shell: Shell)
    requires
        one_line(segments),
    ensures
        render_spec(segments, shell) == line_text(segments, shell, segments.len() as int),
{
    lemma_one_line_text_prefix(segments, shell, segments.len() as int);
}

proof fn lemma_layout_before_break(
    before: Seq<SegmentView>,
    line_break: SegmentView,
    after: Seq<SegmentView>,
    n: int,
)
    requires
        line_break.is_break(),
        0 <= n <= before.len(),
    ensures
        layout_prefix(before + seq![line_break] + after, n) == layout_prefix(before, n),
    decreases n,
{
    if n > 0 {
        lemma_layout_before_break(before, line_break, after, n - 1);
        let all = before + seq![line_break] + after;
        assert(all[n - 1] == before[n - 1]);
        if n < before.len() {
            assert(all[n] == before[n]);
        } else {
            assert(all[n] == line_break);
        }
        assert(pieces_of(all, n - 1) == pieces_of(before, n - 1));
    }
}

proof fn lemma_layout_after_break(
    before: Seq<SegmentView>,
    line_break: SegmentView,
    after: Seq<SegmentView>,
    n: int,
)
    requires
        line_break.is_break(),
        0 <= n <= after.len(),
    ensures
        layout_prefix(before + seq![line_break] + after, before.len() + 1 + n) == layout(before)
            + seq![break_of(line_break)] + layout_prefix(after, n),
    decreases n,
{
    let all = before + seq![line_break] + after;
    let start = before.len() as int + 1;
    if n == 0 {
        lemma_layout_before_break(before, line_break, after, before.len() as int);
        assert(all[before.len() as int] == line_break);
        assert(layout_prefix(after, 0) =~= Seq::<Piece>::empty());
        assert(layout_prefix(all, start) =~= layout(before) + seq![break_of(line_break)]
            + layout_prefix(after, 0));
    } else {
        lemma_layout_after_break(before, line_break, after, n - 1);
        assert(all[start + n - 1] == after[n - 1]);
        if n < after.len() {
            assert(all[start + n] == after[n]);
        }
        assert(pieces_of(all, start + n - 1) == pieces_of(after, n - 1));
        assert(layout_prefix(all, start + n) =~= layout(before) + seq![break_of(line_break)]
            + layout_prefix(after, n));
    }
}

/// A line break cuts the chain of dividers. The prompt of segments with a
/// line break among them is the prompt of the segments before it, the line
/// break, and the prompt of the segments after it, each laid out on its own:
/// the last divider before the break has no background, and nothing after the
/// break depends on what came before.
pub proof fn lemma_break_splits_prompt(
    before: Seq<SegmentView>,
    line_break: SegmentView,
    after: Seq<SegmentView>,
    shell: Shell,
)
    requires
        line_break.is_break(),
    ensures
        layout(before + seq![line_break] + after) == layout(before) + seq![break_of(line_break)]
            + layout(after),
        render_spec(before + seq![line_break] + after, shell) == render_spec(before, shell)
            + line_break.text + Reset.fmt_spec(shell) + render_spec(after, shell),
        before.len() > 0 && !before.last().is_break() ==> layout(before).last() == divider_between(
            before.last().bg,
            None,
        ),
        after.len() > 0 && !after[0].is_break() ==> layout(after)[0] == block_of(after[0]),
{
    lemma_layout_after_break(before, line_break, after, after.len() as int);
    let head = layout(before) + seq![break_of(line_break)];
    lemma_text_of_concat(head, layout(after), shell);
    lemma_text_of_concat(layout(before), seq![break_of(line_break)], shell);
    assert(seq![break_of(line_break)].drop_last() =~= Seq::<Piece>::empty());
    assert(text_of(seq![break_of(line_break)].drop_last(), shell) =~= Seq::<char>::empty());
    assert(text_of(seq![break_of(line_break)], shell) =~= line_break.text + Reset.fmt_spec(
        shell,
    ));
    assert(render_spec(before + seq![line_break] + after, shell) =~= render_spec(before, shell)
        + line_break.text + Reset.fmt_spec(shell) + render_spec(after, shell));
    if after.len() > 0 && !after[0].is_break() {
        lemma_first_piece(after, after.len() as int);
    }
}

proof fn lemma_first_piece(segments: Seq<SegmentView>, n: int)
    requires
        0 < n <= segments.len(),
        !segments[0].is_break(),
    ensures
        layout_prefix(segments, n).len() >= 2,
        layout_prefix(segments, n)[0] == block_of(segments[0]),
    decreases n,
{
    if n > 1 {
        lemma_first_piece(segments, n - 1);
    } else {
        assert(layout_prefix(segments, 0) =~= Seq::<Piece>::empty());
    }
}

/// Between two segments on one line, the divider is drawn in the colour whose
/// palette number is that of the background of the segment before it, on the
/// background of the segment after it. This holds for every shell: the shell
/// only decides how the two numbers are wrapped.
pub proof fn lemma_divider_colors(segments: Seq<SegmentView>, i: int, shell: Shell)
    requires
        0 <= i,
        i + 1 < segments.len(),
        !segments[i].is_break(),
        !segments[i + 1].is_break(),
    ensures
        pieces_of(segments, i) == seq![
            block_of(segments[i]),
            divider_between(segments[i].bg, Some(segments[i + 1].bg)),
        ],
        ForegroundColor::of_background(segments[i].bg).0 == segments[i].bg.0,
        divider_of(segments, i).text(shell) == ForegroundColor(segments[i].bg.0).fmt_spec(shell)
            + segments[i + 1].bg.fmt_spec(shell) + seq![NerdFonts::LEFT_HARD_DIVIDER]
            + Reset.fmt_spec(shell),
{
}

/// Without segments the prompt is empty.
pub proof fn lemma_empty_prompt(shell: Shell)
    ensures
        render_spec(Seq::<SegmentView>::empty(), shell) == Seq::<char>::empty(),
{
}

/// What a generator contributes comes after what the generators before it
/// contribute. A generator that does not apply changes nothing: it leaves no
/// block and no divider.
pub proof fn lemma_collect_push(
    generators: Seq<Generator<'_>>,
    generator: Generator<'_>,
    shell: Shell,
    theme: Theme,
)
    ensures
        collect(generators.push(generator), shell, theme) == collect(generators, shell, theme)
            + contribution(generator, shell, theme),
        generator.output_spec(shell, theme) is None ==> collect(
            generators.push(generator),
            shell,
            theme,
        ) == collect(generators, shell, theme),
{
    let all = generators.push(generator);
    lemma_collect_prefix_agrees(generators, all, shell, theme, generators.len() as int);
    assert(all[generators.len() as int] == generator);
    if generator.output_spec(shell, theme) is None {
        assert(collect(generators, shell, theme) + Seq::<SegmentView>::empty() =~= collect(
            generators,
            shell,
            theme,
        ));
    }
}

proof fn lemma_collect_prefix_agrees(
    a: Seq<Generator<'_>>,
    b: Seq<Generator<'_>>,
    shell: Shell,
    theme: Theme,
    n: int,
)
    requires
        0 <= n <= a.len(),
        n <= b.len(),
        forall|i: int| 0 <= i < n ==> a[i] == b[i],
    ensures
        collect_prefix(a, shell, theme, n) == collect_prefix(b, shell, theme, n),
    decreases n,
{
    if n > 0 {
        lemma_collect_prefix_agrees(a, b, shell, theme, n - 1);
    }
}

} // verus!
