use opsline::powerline::render;
use opsline::segments::Segment;
use opsline::segments::SegmentName;
use opsline::shell::Shell;
use opsline::theme::BackgroundColor;
use opsline::theme::ForegroundColor;

fn chunk(text: &str, fg: u8, bg: u8) -> Segment {
    Segment {
        name: SegmentName::Cwd,
        text: text.to_string(),
        bg: BackgroundColor(bg),
        fg: ForegroundColor(fg),
        blinking: false,
    }
}

fn line_break() -> Segment {
    Segment {
        name: SegmentName::Newline,
        text: "\n".to_string(),
        bg: BackgroundColor(0),
        fg: ForegroundColor(0),
        blinking: false,
    }
}

fn count(haystack: &str, needle: &str) -> usize {
    haystack.matches(needle).count()
}

#[test]
fn no_segment_renders_nothing() {
    assert_eq!(render(&Vec::new(), Shell::Bash), "");
    assert_eq!(render(&Vec::new(), Shell::Zsh), "");
    assert_eq!(render(&Vec::new(), Shell::Bare), "");
}

#[test]
fn one_segment_in_bash() {
    let expected = [
        r"\[\e[38;5;15m\]",
        r"\[\e[48;5;31m\]",
        r" \w ",
        r"\[\e[0m\]",
        r"\[\e[38;5;31m\]",
        "\u{e0b0}",
        r"\[\e[0m\]",
        " ",
    ]
    .concat();
    assert_eq!(render(&vec![chunk(r" \w ", 15, 31)], Shell::Bash), expected);
}

#[test]
fn one_segment_in_zsh() {
    let expected = [
        "%{\x1b[38;5;15m%}",
        "%{\x1b[48;5;31m%}",
        " %d ",
        "%{\x1b[0m%}",
        "%{\x1b[38;5;31m%}",
        "\u{e0b0}",
        "%{\x1b[0m%}",
        " ",
    ]
    .concat();
    assert_eq!(render(&vec![chunk(" %d ", 15, 31)], Shell::Zsh), expected);
}

#[test]
fn one_segment_without_shell() {
    let expected = "\x1b[38;5;15m\x1b[48;5;31m x \x1b[0m\x1b[38;5;31m\u{e0b0}\x1b[0m ";
    assert_eq!(render(&vec![chunk(" x ", 15, 31)], Shell::Bare), expected);
}

#[test]
fn divider_between_two_backgrounds() {
    let segments = vec![chunk("a", 254, 55), chunk("b", 15, 96)];
    let expected = [
        r"\[\e[38;5;254m\]",
        r"\[\e[48;5;55m\]",
        "a",
        r"\[\e[0m\]",
        r"\[\e[38;5;55m\]",
        r"\[\e[48;5;96m\]",
        "\u{e0b0}",
        r"\[\e[0m\]",
        r"\[\e[38;5;15m\]",
        r"\[\e[48;5;96m\]",
        "b",
        r"\[\e[0m\]",
        r"\[\e[38;5;96m\]",
        "\u{e0b0}",
        r"\[\e[0m\]",
        " ",
    ]
    .concat();
    assert_eq!(render(&segments, Shell::Bash), expected);
}

#[test]
fn divider_foreground_is_the_earlier_background_in_every_shell() {
    let segments = vec![chunk("a", 254, 55), chunk("b", 15, 96)];
    let bash = render(&segments, Shell::Bash);
    assert!(bash.contains(r"\[\e[38;5;55m\]\[\e[48;5;96m\]"));
    let zsh = render(&segments, Shell::Zsh);
    assert!(zsh.contains("%{\x1b[38;5;55m%}%{\x1b[48;5;96m%}\u{e0b0}"));
    let bare = render(&segments, Shell::Bare);
    assert!(bare.contains("\x1b[38;5;55m\x1b[48;5;96m\u{e0b0}"));
}

#[test]
fn as_many_blocks_and_dividers_as_segments() {
    let mut segments: Vec<Segment> = Vec::new();
    let mut n: usize = 0;
    while n <= 6 {
        let out = render(&segments, Shell::Bash);
        assert_eq!(count(&out, "\u{e0b0}"), n);
        assert_eq!(count(&out, r"\[\e[0m\]"), 2 * n);
        assert_eq!(count(&out, r"\[\e[48;5;"), if n == 0 { 0 } else { 2 * n - 1 });
        assert_eq!(count(&out, r"\[\e[38;5;"), 2 * n);
        assert_eq!(count(&out, "text"), n);
        if n > 0 {
            let last_bg = 10 + n - 1;
            let tail = format!("\\[\\e[38;5;{}m\\]{}\\[\\e[0m\\] ", last_bg, '\u{e0b0}');
            assert!(out.ends_with(&tail));
        }
        segments.push(chunk("text", 200, (10 + n) as u8));
        n += 1;
    }
}

#[test]
fn blink_comes_after_the_colours() {
    let mut warning = chunk("\u{f071}", 196, 55);
    warning.blinking = true;
    let expected = [
        r"\[\e[38;5;196m\]",
        r"\[\e[48;5;55m\]",
        r"\[\e[5m\]",
        "\u{f071}",
        r"\[\e[0m\]",
        r"\[\e[38;5;55m\]",
        "\u{e0b0}",
        r"\[\e[0m\]",
        " ",
    ]
    .concat();
    assert_eq!(render(&vec![warning], Shell::Bash), expected);
}

#[test]
fn line_break_alone() {
    assert_eq!(render(&vec![line_break()], Shell::Bash), "\n\\[\\e[0m\\]");
    assert_eq!(render(&vec![line_break()], Shell::Zsh), "\n%{\x1b[0m%}");
    assert_eq!(render(&vec![line_break()], Shell::Bare), "\n\x1b[0m");
}

#[test]
fn line_break_ends_the_chain_of_dividers() {
    let segments = vec![chunk("a", 254, 55), line_break(), chunk("b", 15, 96)];
    let expected = [
        r"\[\e[38;5;254m\]",
        r"\[\e[48;5;55m\]",
        "a",
        r"\[\e[0m\]",
        r"\[\e[38;5;55m\]",
        "\u{e0b0}",
        r"\[\e[0m\]",
        " ",
        "\n",
        r"\[\e[0m\]",
        r"\[\e[38;5;15m\]",
        r"\[\e[48;5;96m\]",
        "b",
        r"\[\e[0m\]",
        r"\[\e[38;5;96m\]",
        "\u{e0b0}",
        r"\[\e[0m\]",
        " ",
    ]
    .concat();
    let out = render(&segments, Shell::Bash);
    assert_eq!(out, expected);
    assert!(!out.contains(r"\[\e[38;5;55m\]\[\e[48;5;96m\]"));
}

#[test]
fn line_break_splits_the_prompt_in_two_prompts() {
    let before = vec![chunk("a", 1, 2), chunk("b", 3, 4)];
    let after = vec![chunk("c", 5, 6), chunk("d", 7, 8), chunk("e", 9, 10)];
    for shell in [Shell::Bash, Shell::Zsh, Shell::Bare] {
        let mut k: usize = 0;
        while k <= before.len() {
            let head: Vec<Segment> = before[..k].to_vec();
            let mut all = head.clone();
            all.push(line_break());
            all.extend(after.iter().cloned());
            let expected = [
                render(&head, shell),
                "\n".to_string(),
                opsline::theme::Reset.fmt(shell),
                render(&after, shell),
            ]
            .concat();
            assert_eq!(render(&all, shell), expected);
            k += 1;
        }
    }
}

#[test]
fn two_line_breaks_in_a_row() {
    let segments = vec![line_break(), line_break(), chunk("a", 1, 2)];
    let expected = "\n\x1b[0m\n\x1b[0m\x1b[38;5;1m\x1b[48;5;2ma\x1b[0m\x1b[38;5;2m\u{e0b0}\x1b[0m ";
    assert_eq!(render(&segments, Shell::Bare), expected);
}

#[test]
fn line_break_at_the_end() {
    let segments = vec![chunk("a", 1, 2), line_break()];
    let expected = "\x1b[38;5;1m\x1b[48;5;2ma\x1b[0m\x1b[38;5;2m\u{e0b0}\x1b[0m \n\x1b[0m";
    assert_eq!(render(&segments, Shell::Bare), expected);
}

#[test]
fn text_is_written_as_it_is() {
    let segments = vec![chunk("\\[ %{ \x1b[0m \u{e0b0}", 1, 2)];
    let out = render(&segments, Shell::Bare);
    assert_eq!(out, "\x1b[38;5;1m\x1b[48;5;2m\\[ %{ \x1b[0m \u{e0b0}\x1b[0m\x1b[38;5;2m\u{e0b0}\x1b[0m ");
}
