use opsline::error::ConfigError;
use opsline::shell::Shell;
use opsline::theme::BackgroundColor;
use opsline::theme::Blink;
use opsline::theme::ForegroundColor;
use opsline::theme::Reset;
use opsline::theme::Theme;
use opsline::theme::WARNING_COLOR_CODE;

#[test]
fn shell_by_name() {
    assert_eq!(Shell::try_from("bash"), Ok(Shell::Bash));
    assert_eq!(Shell::try_from("zsh"), Ok(Shell::Zsh));
    assert_eq!(Shell::try_from("bare"), Ok(Shell::Bare));
}

#[test]
fn shell_of_unknown_name() {
    assert_eq!(Shell::try_from("fish"), Err(ConfigError::UnknownShell));
    assert_eq!(Shell::try_from("Bash"), Err(ConfigError::UnknownShell));
    assert_eq!(Shell::try_from(""), Err(ConfigError::UnknownShell));
    assert_eq!(Shell::try_from("bash "), Err(ConfigError::UnknownShell));
}

#[test]
fn control_sequences_per_shell() {
    assert_eq!(Shell::Bash.control("0m"), "\\[\\e[0m\\]");
    assert_eq!(Shell::Zsh.control("0m"), "%{\x1b[0m%}");
    assert_eq!(Shell::Bare.control("0m"), "\x1b[0m");
    assert_eq!(Shell::Bash.control(""), "\\[\\e[\\]");
}

#[test]
fn background_codes() {
    assert_eq!(BackgroundColor(55).fmt(Shell::Bash), r"\[\e[48;5;55m\]");
    assert_eq!(BackgroundColor(55).fmt(Shell::Zsh), "%{\x1b[48;5;55m%}");
    assert_eq!(BackgroundColor(55).fmt(Shell::Bare), "\x1b[48;5;55m");
    assert_eq!(BackgroundColor(0).fmt(Shell::Bash), r"\[\e[48;5;0m\]");
    assert_eq!(BackgroundColor(255).fmt(Shell::Zsh), "%{\x1b[48;5;255m%}");
}

#[test]
fn foreground_codes() {
    assert_eq!(ForegroundColor(96).fmt(Shell::Bash), r"\[\e[38;5;96m\]");
    assert_eq!(ForegroundColor(96).fmt(Shell::Zsh), "%{\x1b[38;5;96m%}");
    assert_eq!(ForegroundColor(96).fmt(Shell::Bare), "\x1b[38;5;96m");
    assert_eq!(ForegroundColor(7).fmt(Shell::Bash), r"\[\e[38;5;7m\]");
}

#[test]
fn blink_and_reset_codes() {
    assert_eq!(Blink.fmt(Shell::Bash), r"\[\e[5m\]");
    assert_eq!(Blink.fmt(Shell::Zsh), "%{\x1b[5m%}");
    assert_eq!(Blink.fmt(Shell::Bare), "\x1b[5m");
    assert_eq!(Reset.fmt(Shell::Bash), r"\[\e[0m\]");
    assert_eq!(Reset.fmt(Shell::Zsh), "%{\x1b[0m%}");
    assert_eq!(Reset.fmt(Shell::Bare), "\x1b[0m");
}

#[test]
fn foreground_of_a_background_keeps_the_number() {
    assert_eq!(ForegroundColor::from(BackgroundColor(55)), ForegroundColor(55));
    assert_eq!(ForegroundColor::from(BackgroundColor(0)), ForegroundColor(0));
    assert_eq!(ForegroundColor::from(BackgroundColor(255)), ForegroundColor(255));
    let fg: ForegroundColor = BackgroundColor(96).into();
    assert_eq!(fg.0, 96);
}

#[test]
fn foreground_from_color_code() {
    assert_eq!(ForegroundColor::from_color_code(196), ForegroundColor(196));
    assert_eq!(WARNING_COLOR_CODE, 196);
}

#[test]
fn theme_by_name() {
    let default = Theme::try_from("default").unwrap();
    assert_eq!(default, opsline::theme::default::theme());
    assert_eq!(default.git_branch_bg, BackgroundColor(148));
    assert_eq!(default.git_branch_fg, ForegroundColor(0));
    assert_eq!(default.git_ahead_bg, BackgroundColor(240));
    assert_eq!(default.git_ahead_fg, ForegroundColor(250));
    assert_eq!(default.git_behind_bg, BackgroundColor(240));
    assert_eq!(default.git_staged_bg, BackgroundColor(22));
    assert_eq!(default.git_modified_bg, BackgroundColor(130));
    assert_eq!(default.git_untracked_bg, BackgroundColor(52));
    assert_eq!(default.git_conflicted_bg, BackgroundColor(9));
    assert_eq!(default.git_conflicted_fg, ForegroundColor(15));

    let gruvbox = Theme::try_from("gruvbox").unwrap();
    assert_eq!(gruvbox, opsline::theme::gruvbox::theme());
    assert_eq!(gruvbox.git_branch_bg, BackgroundColor(100));
    assert_eq!(gruvbox.git_branch_fg, ForegroundColor(237));
    assert_eq!(gruvbox.git_ahead_bg, BackgroundColor(239));
    assert_eq!(gruvbox.git_ahead_fg, ForegroundColor(248));
    assert_eq!(gruvbox.git_staged_bg, BackgroundColor(106));
    assert_eq!(gruvbox.git_modified_bg, BackgroundColor(166));
    assert_eq!(gruvbox.git_untracked_bg, BackgroundColor(88));
    assert_eq!(gruvbox.git_conflicted_bg, BackgroundColor(124));
    assert_eq!(gruvbox.git_conflicted_fg, ForegroundColor(229));
    assert_ne!(default, gruvbox);
}

#[test]
fn theme_of_unknown_name() {
    assert_eq!(Theme::try_from("solarized"), Err(ConfigError::UnknownTheme));
    assert_eq!(Theme::try_from(""), Err(ConfigError::UnknownTheme));
    assert_eq!(Theme::try_from("Default"), Err(ConfigError::UnknownTheme));
}
