use dockertui::compose::{
    base_args, capture_failure_message, compose_action_named, compose_args, up_failure_message,
    ComposeAction, ComposeOptions,
};
use dockertui::daemon::{
    service_command, service_failure, state_from_pidof, state_from_systemctl, DaemonState, ServiceOp,
};
use dockertui::docker_host::{default_host, parse_host, resolve_docker_host, DockerHost};
use dockertui::engine::{call_error_message, tail_logs_options, tail_or_default, CallError, LogsOptions};
use dockertui::sanitize::sanitize_log_line;
use dockertui::text::{
    i64_to_string, join_strings, parse_u64, replace_str, split_char, strip_leading_char,
    take_bytes, text_lines, trim_str, u64_to_string,
};
use dockertui::view_logs::_normalize_lines;

fn chars(s: &str) -> Vec<char> {
    s.chars().collect()
}

fn strings(v: &[&str]) -> Vec<String> {
    v.iter().map(|s| s.to_string()).collect()
}

#[test]
fn trim_removes_unicode_white_space() {
    assert_eq!(trim_str("  \t abc \n"), "abc");
    assert_eq!(trim_str("\u{3000}x\u{a0}"), "x");
    assert_eq!(trim_str("   "), "");
}

#[test]
fn parse_u64_matches_std() {
    for s in ["0", "42", "+7", "18446744073709551615", "18446744073709551616", "", "+", "-1", "1 2", "00012"] {
        assert_eq!(parse_u64(&chars(s)), s.parse::<u64>().ok(), "input {s:?}");
    }
}

#[test]
fn numbers_print_like_std() {
    for n in [0u64, 9, 10, 12345, u64::MAX] {
        assert_eq!(u64_to_string(n), n.to_string());
    }
    for n in [0i64, -1, 1700000000, i64::MIN, i64::MAX] {
        assert_eq!(i64_to_string(n), n.to_string());
    }
}

#[test]
fn split_join_and_lines_match_std() {
    for s in ["a\tb\tc", "", "\t", "x\t\ty\t"] {
        let expected: Vec<String> = s.split('\t').map(|p| p.to_string()).collect();
        assert_eq!(split_char(s, '\t'), expected);
    }
    assert_eq!(join_strings(&strings(&["a:1", "b:2"]), ", "), "a:1, b:2");
    assert_eq!(join_strings(&vec![], ", "), "");
    for s in ["one\ntwo\r\nthree", "a\n", "", "\n\n", "x\r", "a\r\n\r\nb"] {
        let expected: Vec<String> = s.lines().map(|l| l.to_string()).collect();
        assert_eq!(text_lines(s), expected, "input {s:?}");
    }
}

#[test]
fn replace_and_strip_match_std() {
    assert_eq!(replace_str("tcp://1.2.3.4:2375", "tcp://", "http://"), "http://1.2.3.4:2375");
    assert_eq!(replace_str("tcp://tcp://", "tcp://", "http://"), "http://http://");
    assert_eq!(replace_str("aaa", "aa", "b"), "aaa".replace("aa", "b"));
    assert_eq!(strip_leading_char("//web", '/'), "web");
    assert_eq!(strip_leading_char("web", '/'), "web");
}

#[test]
fn take_bytes_counts_utf8_bytes() {
    assert_eq!(take_bytes("0123456789abcdef", 12), "0123456789ab");
    assert_eq!(take_bytes("abc", 12), "abc");
    assert_eq!(take_bytes("ééééééé", 12), "éééééé");
}

#[test]
fn sanitize_keeps_tabs_and_drops_carriage_returns() {
    assert_eq!(sanitize_log_line("a\tb\r"), "a\tb");
    assert_eq!(sanitize_log_line("\x1b(Bx"), "Bx");
    assert_eq!(sanitize_log_line("\x1b]8;;link\x1b\\text"), "text");
    assert_eq!(sanitize_log_line("end\x1b"), "end");
    assert_eq!(sanitize_log_line("\x1b[unterminated"), "nterminated");
    assert_eq!(sanitize_log_line("\x1b[12;34"), "");
    assert_eq!(sanitize_log_line("a\u{85}b"), "ab");
    assert_eq!(sanitize_log_line("héllo"), "héllo");
}

#[test]
fn sanitize_twice_is_sanitize_once() {
    for s in ["hi\x1b[31mred\x1b[0m", "a\x1b\x1b[1mb", "\x1b]0;t\x07\x1b[Kz\r\n"] {
        let once = sanitize_log_line(s);
        assert_eq!(sanitize_log_line(&once), once);
    }
}

#[test]
fn normalize_lines_keeps_exactly_the_limit() {
    let lines = strings(&["1", "2", "3"]);
    assert_eq!(_normalize_lines(lines.clone(), 3), lines);
    assert_eq!(_normalize_lines(lines.clone(), 0), Vec::<String>::new());
    let out = _normalize_lines(_normalize_lines(lines.clone(), 2), 2);
    assert_eq!(out, strings(&["2", "3"]));
}

#[test]
fn hosts_parse_trimmed_and_by_scheme() {
    match parse_host("  npipe:foo  ") {
        Some(DockerHost::Npipe(s)) => assert_eq!(s, "npipe:foo"),
        other => panic!("unexpected {other:?}"),
    }
    assert!(matches!(parse_host("http://x:1"), Some(DockerHost::Tcp(_))));
    assert!(parse_host("ssh://host").is_none());
    assert!(parse_host("").is_none());
    assert_eq!(parse_host(" unix:///s ").unwrap().as_str(), "unix:///s");
}

#[test]
fn resolution_falls_back_to_the_default() {
    assert_eq!(resolve_docker_host(Some("bogus"), None, false).as_str(), "unix:///var/run/docker.sock");
    assert_eq!(resolve_docker_host(None, Some("   "), false).as_str(), "unix:///var/run/docker.sock");
    assert_eq!(resolve_docker_host(None, Some("bogus"), true).as_str(), "npipe:////./pipe/docker_engine");
    assert_eq!(resolve_docker_host(None, None, true).as_str(), "npipe:////./pipe/docker_engine");
    assert_eq!(resolve_docker_host(None, Some(" tcp://h:1 "), false).as_str(), "tcp://h:1");
    assert!(matches!(default_host(false), DockerHost::Unix(_)));
}

#[test]
fn daemon_states_from_systemctl() {
    assert_eq!(state_from_systemctl(0, "active\n"), DaemonState::Running);
    assert_eq!(state_from_systemctl(3, "active\n"), DaemonState::Unknown);
    assert_eq!(state_from_systemctl(3, "inactive\n"), DaemonState::Stopped);
    assert_eq!(state_from_systemctl(3, "failed"), DaemonState::Stopped);
    assert_eq!(state_from_systemctl(3, " activating "), DaemonState::Starting);
    assert_eq!(state_from_systemctl(3, "deactivating"), DaemonState::Stopping);
    assert_eq!(state_from_systemctl(4, "weird"), DaemonState::Unknown);
    assert_eq!(state_from_pidof(0), DaemonState::Running);
    assert_eq!(state_from_pidof(1), DaemonState::Stopped);
}

#[test]
fn compose_arguments() {
    let bare = ComposeOptions { project_dir: ".".into(), file: None, project_name: None };
    assert_eq!(base_args(&bare), strings(&["compose"]));
    let full = ComposeOptions {
        project_dir: "/p".into(),
        file: Some("c.yml".into()),
        project_name: Some("demo".into()),
    };
    assert_eq!(base_args(&full), strings(&["compose", "-f", "c.yml", "-p", "demo"]));
    assert_eq!(
        compose_args(&full, ComposeAction::Up { detached: true }),
        strings(&["compose", "-f", "c.yml", "-p", "demo", "up", "-d"])
    );
    assert_eq!(compose_args(&bare, ComposeAction::Up { detached: false }), strings(&["compose", "up"]));
    assert_eq!(compose_args(&bare, ComposeAction::Down), strings(&["compose", "down"]));
    assert_eq!(compose_args(&bare, ComposeAction::Ps), strings(&["compose", "ps"]));
    assert_eq!(
        compose_args(&bare, ComposeAction::Logs { follow: true }),
        strings(&["compose", "logs", "-f", "--tail", "200"])
    );
    assert_eq!(
        compose_args(&bare, ComposeAction::Logs { follow: false }),
        strings(&["compose", "logs", "--tail", "200"])
    );
}

#[test]
fn compose_action_names_and_errors() {
    assert_eq!(compose_action_named("up").unwrap(), ComposeAction::Up { detached: true });
    assert_eq!(compose_action_named("logs-follow").unwrap(), ComposeAction::Logs { follow: true });
    assert_eq!(compose_action_named("ps").unwrap(), ComposeAction::Ps);
    assert_eq!(
        compose_action_named("build").unwrap_err(),
        "Unknown --compose action: build. Use up|down|ps|logs|logs-follow"
    );
    assert_eq!(capture_failure_message(Some(1), "boom"), "docker compose failed (code=Some(1)): boom");
    assert_eq!(capture_failure_message(None, ""), "docker compose failed (code=None): ");
    assert_eq!(up_failure_message(Some(-2)), "docker compose up failed (code=Some(-2))");
}

#[test]
fn log_options_and_call_errors() {
    let opts = tail_logs_options(true);
    assert!(opts.follow && !opts.timestamps);
    assert_eq!(opts.tail.as_deref(), Some("200"));
    let none = LogsOptions { follow: false, tail: None, timestamps: false };
    assert_eq!(tail_or_default(&none), "200");
    assert_eq!(call_error_message(&CallError::Engine("x".into())), "Error: x");
    assert_eq!(call_error_message(&CallError::Task("y".into())), "Task error: y");
}

#[test]
fn service_commands_per_platform() {
    assert_eq!(service_command(ServiceOp::Start, true), Some(("sudo systemctl start docker", "start docker failed: ")));
    assert_eq!(service_command(ServiceOp::Stop, false), Some(("sudo pkill -f 'dockerd'", "stop dockerd failed: ")));
    assert_eq!(service_command(ServiceOp::Restart, false), None);
    assert_eq!(service_failure("stop docker failed: ", "denied"), "stop docker failed: denied");
}

#[test]
fn trimming_and_reparsing_are_stable() {
    for s in ["  a b  ", "\u{2003}x", "", "   "] {
        let once = trim_str(s);
        assert_eq!(trim_str(&once), once);
    }
    let first = parse_host("  tcp://h:1 \n").unwrap();
    let again = parse_host(first.as_str()).unwrap();
    assert_eq!(again.as_str(), first.as_str());
    assert!(matches!(again, DockerHost::Tcp(_)));
}

#[test]
fn split_then_join_gives_back_the_text() {
    for s in ["a\tb", "", "\t\t", "x"] {
        let pieces = split_char(s, '\t');
        assert_eq!(join_strings(&pieces, "\t"), s);
    }
}
