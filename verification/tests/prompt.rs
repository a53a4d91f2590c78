use opsline::configuration::Configuration;
use opsline::configuration::ContainersConfiguration;
use opsline::configuration::CwdConfiguration;
use opsline::configuration::KubeConfiguration;
use opsline::powerline::Powerline;
use opsline::segments::containers::request_for;
use opsline::segments::containers::Endpoint;
use opsline::segments::git::Divergence;
use opsline::segments::git::FileStatus;
use opsline::segments::git::GitHead;
use opsline::segments::git::GitRepository;
use opsline::segments::kube::KubeContext;
use opsline::segments::ContainersSegment;
use opsline::segments::CwdSegment;
use opsline::segments::Generator;
use opsline::segments::GitSegment;
use opsline::segments::KubeSegment;
use opsline::segments::NewLineSegment;
use opsline::segments::ReadonlySegment;
use opsline::segments::RootSegment;
use opsline::segments::SegmentName;
use opsline::segments::SshSegment;
use opsline::shell::Shell;
use opsline::theme::Theme;

fn theme() -> Theme {
    opsline::theme::default::theme()
}

fn texts(powerline: &Powerline) -> Vec<String> {
    powerline.segments().into_iter().map(|s| s.text).collect()
}

#[test]
fn scenario_no_active_generator() {
    for shell in [Shell::Bash, Shell::Zsh, Shell::Bare] {
        let powerline = Powerline::new(shell, theme());
        assert!(powerline.segments().is_empty());
        assert_eq!(powerline.prompt(), "");
    }
}

#[test]
fn scenario_version_control() {
    let repository = GitRepository {
        head: Some(GitHead::Branch {
            name: "main".to_string(),
            upstream: Some(Divergence { ahead: 2, behind: 0 }),
        }),
        statuses: vec![FileStatus { wt_modified: true, ..FileStatus::default() }],
    };
    let mut powerline = Powerline::new(Shell::Bash, theme());
    powerline.add_segment(Generator::Git(GitSegment::new(Some(repository))));

    assert_eq!(texts(&powerline), vec![" \u{e0a0} main ", " 2\u{2b06} ", " 1\u{270e} "]);
    let expected = [
        r"\[\e[38;5;0m\]",
        r"\[\e[48;5;148m\]",
        " \u{e0a0} main ",
        r"\[\e[0m\]",
        r"\[\e[38;5;148m\]",
        r"\[\e[48;5;240m\]",
        "\u{e0b0}",
        r"\[\e[0m\]",
        r"\[\e[38;5;250m\]",
        r"\[\e[48;5;240m\]",
        " 2\u{2b06} ",
        r"\[\e[0m\]",
        r"\[\e[38;5;240m\]",
        r"\[\e[48;5;130m\]",
        "\u{e0b0}",
        r"\[\e[0m\]",
        r"\[\e[38;5;15m\]",
        r"\[\e[48;5;130m\]",
        " 1\u{270e} ",
        r"\[\e[0m\]",
        r"\[\e[38;5;130m\]",
        "\u{e0b0}",
        r"\[\e[0m\]",
        " ",
    ]
    .concat();
    let prompt = powerline.prompt();
    assert_eq!(prompt, expected);
    assert!(!prompt.contains('\u{2b07}'));
}

#[test]
fn scenario_containers_over_a_unix_socket() {
    let config = ContainersConfiguration { url: "unix:/path/to.sock".to_string() };
    let request = request_for(Some(&config)).unwrap();
    match request.endpoint {
        Endpoint::Unix { socket, url } => {
            assert_eq!(socket, "/path/to.sock");
            assert_eq!(url, "http://d/containers/json?all=true");
        }
        Endpoint::Http { .. } => panic!("a unix: URL asks for a socket"),
    }

    let answer = Some(vec!["running".to_string(), "exited".to_string()]);
    let mut powerline = Powerline::new(Shell::Zsh, theme());
    powerline.add_segment(Generator::Containers(ContainersSegment::new(Some(&config), answer)));
    assert_eq!(texts(&powerline), vec![" \u{f0868}  \u{25cf} 1 \u{2716} 1 "]);
    let expected = [
        "%{\x1b[38;5;254m%}",
        "%{\x1b[48;5;25m%}",
        " \u{f0868}  \u{25cf} 1 \u{2716} 1 ",
        "%{\x1b[0m%}",
        "%{\x1b[38;5;25m%}",
        "\u{e0b0}",
        "%{\x1b[0m%}",
        " ",
    ]
    .concat();
    assert_eq!(powerline.prompt(), expected);
}

#[test]
fn scenario_container_daemon_out_of_reach() {
    let config = ContainersConfiguration { url: "unix:/path/to.sock".to_string() };
    let cwd = CwdConfiguration { dironly: false };

    let mut alone = Powerline::new(Shell::Zsh, theme());
    alone.add_segment(Generator::Containers(ContainersSegment::new(Some(&config), None)));
    assert_eq!(alone.prompt(), "");

    let mut with = Powerline::new(Shell::Zsh, theme());
    with.add_segment(Generator::Cwd(CwdSegment::new(&cwd)));
    with.add_segment(Generator::Containers(ContainersSegment::new(Some(&config), None)));
    with.add_segment(Generator::Root(RootSegment::new()));
    let mut without = Powerline::new(Shell::Zsh, theme());
    without.add_segment(Generator::Cwd(CwdSegment::new(&cwd)));
    without.add_segment(Generator::Root(RootSegment::new()));
    assert_eq!(with.prompt(), without.prompt());
    assert_eq!(texts(&with), vec![" %d ", " %# "]);
}

#[test]
fn scenario_critical_cluster_context() {
    let config = KubeConfiguration {
        critical_contexts: Some(vec!["staging".to_string(), "prod".to_string()]),
        context_aliases: None,
    };
    let context = KubeContext { name: "eu-prod-1".to_string(), namespace: Some("payments".to_string()) };
    let mut powerline = Powerline::new(Shell::Bash, theme());
    powerline.add_segment(Generator::Kube(KubeSegment::new(Some(&config), Some(context))));

    let segments = powerline.segments();
    assert_eq!(
        segments.iter().map(|s| s.text.as_str()).collect::<Vec<_>>(),
        vec![" \u{2388} ", "eu-prod-1 ", "\u{f071}", " payments "]
    );
    assert_eq!(
        segments.iter().map(|s| s.blinking).collect::<Vec<_>>(),
        vec![false, false, true, false]
    );
    assert!(segments.iter().all(|s| s.name == SegmentName::Kube));
    let t = theme();
    assert_eq!(segments[2].bg, t.kube_context_bg);
    assert_eq!(segments[2].fg.0, 196);

    let prompt = powerline.prompt();
    let warning = r"\[\e[38;5;196m\]\[\e[48;5;55m\]\[\e[5m\]".to_string() + "\u{f071}" + r"\[\e[0m\]";
    let name_at = prompt.find("eu-prod-1 ").unwrap();
    let warning_at = prompt.find(&warning).unwrap();
    let namespace_at = prompt.find(" payments ").unwrap();
    assert!(name_at < warning_at);
    assert!(warning_at < namespace_at);
    assert!(prompt.contains(r"\[\e[38;5;55m\]\[\e[48;5;96m\]"));
}

#[test]
fn scenario_ordinary_cluster_context() {
    let config = KubeConfiguration {
        critical_contexts: Some(vec!["prod".to_string()]),
        context_aliases: None,
    };
    let context = KubeContext { name: "minikube".to_string(), namespace: Some("default".to_string()) };
    let mut powerline = Powerline::new(Shell::Bash, theme());
    powerline.add_segment(Generator::Kube(KubeSegment::new(Some(&config), Some(context))));
    assert_eq!(texts(&powerline), vec![" \u{2388} ", "minikube ", " default "]);
    assert!(!powerline.prompt().contains(r"\[\e[5m\]"));
}

#[test]
fn generators_contribute_in_the_order_added() {
    let cwd = CwdConfiguration { dironly: true };
    let mut powerline = Powerline::new(Shell::Bash, theme());
    powerline.add_segment(Generator::Ssh(SshSegment::new(true)));
    powerline.add_segment(Generator::Cwd(CwdSegment::new(&cwd)));
    powerline.add_segment(Generator::Readonly(ReadonlySegment::new(true)));
    powerline.add_segment(Generator::Git(GitSegment::new(Some(GitRepository {
        head: Some(GitHead::Branch { name: "dev".to_string(), upstream: None }),
        statuses: Vec::new(),
    }))));
    powerline.add_segment(Generator::NewLine(NewLineSegment::new()));
    powerline.add_segment(Generator::Root(RootSegment::new()));
    assert_eq!(
        texts(&powerline),
        vec![" \u{f08c0} ", r" \W ", " \u{f023} ", " \u{e0a0} dev ", "\n", r" \$ "]
    );
    let prompt = powerline.prompt();
    assert_eq!(prompt, opsline::powerline::render(&powerline.segments(), Shell::Bash));
    assert_eq!(prompt.matches('\u{e0b0}').count(), 5);
    assert_eq!(prompt.matches('\n').count(), 1);
}

#[test]
fn generators_that_do_not_apply_leave_no_trace() {
    let cwd = CwdConfiguration { dironly: false };
    let mut sparse = Powerline::new(Shell::Bash, theme());
    sparse.add_segment(Generator::Ssh(SshSegment::new(false)));
    sparse.add_segment(Generator::Cwd(CwdSegment::new(&cwd)));
    sparse.add_segment(Generator::Git(GitSegment::new(None)));
    sparse.add_segment(Generator::Kube(KubeSegment::new(None, None)));
    sparse.add_segment(Generator::Readonly(ReadonlySegment::new(false)));
    sparse.add_segment(Generator::Root(RootSegment::new()));
    let mut dense = Powerline::new(Shell::Bash, theme());
    dense.add_segment(Generator::Cwd(CwdSegment::new(&cwd)));
    dense.add_segment(Generator::Root(RootSegment::new()));
    assert_eq!(sparse.prompt(), dense.prompt());
    let expected = [
        r"\[\e[38;5;15m\]",
        r"\[\e[48;5;31m\]",
        r" \w ",
        r"\[\e[0m\]",
        r"\[\e[38;5;31m\]",
        r"\[\e[48;5;236m\]",
        "\u{e0b0}",
        r"\[\e[0m\]",
        r"\[\e[38;5;15m\]",
        r"\[\e[48;5;236m\]",
        r" \$ ",
        r"\[\e[0m\]",
        r"\[\e[38;5;236m\]",
        "\u{e0b0}",
        r"\[\e[0m\]",
        " ",
    ]
    .concat();
    assert_eq!(dense.prompt(), expected);
}

#[test]
fn default_configuration_gives_directory_and_marker() {
    let config = Configuration::default();
    let names = config.segment_names().unwrap();
    let shell = Shell::try_from("zsh").unwrap();
    let theme = Theme::try_from(config.theme.as_str()).unwrap();
    let mut powerline = Powerline::new(shell, theme);
    for name in names {
        match name {
            SegmentName::Cwd => powerline.add_segment(Generator::Cwd(CwdSegment::new(&config.cwd))),
            SegmentName::Root => powerline.add_segment(Generator::Root(RootSegment::new())),
            _ => unreachable!(),
        }
    }
    assert_eq!(texts(&powerline), vec![" %d ", " %# "]);
}

#[test]
fn prompt_without_shell_has_only_what_needs_no_shell() {
    let cwd = CwdConfiguration { dironly: false };
    let mut powerline = Powerline::new(Shell::Bare, theme());
    powerline.add_segment(Generator::Cwd(CwdSegment::new(&cwd)));
    powerline.add_segment(Generator::Ssh(SshSegment::new(true)));
    powerline.add_segment(Generator::Root(RootSegment::new()));
    assert_eq!(
        powerline.prompt(),
        "\x1b[38;5;254m\x1b[48;5;166m \u{f08c0} \x1b[0m\x1b[38;5;166m\u{e0b0}\x1b[0m "
    );
}
