use dockertui::app::{max_logs_scroll, AppState};
use dockertui::docker_host::{parse_host, resolve_docker_host, DockerHost};
use dockertui::sanitize::sanitize_log_line;
use dockertui::view_logs::_normalize_lines;

#[test]
fn parse_host_accepts_known_schemes() {
    assert!(matches!(
        parse_host("unix:///var/run/docker.sock"),
        Some(DockerHost::Unix(_))
    ));
    assert!(matches!(
        parse_host("npipe:////./pipe/docker_engine"),
        Some(DockerHost::Npipe(_))
    ));
    assert!(matches!(
        parse_host("tcp://127.0.0.1:2375"),
        Some(DockerHost::Tcp(_))
    ));
    assert!(matches!(
        parse_host("https://example.test:2376"),
        Some(DockerHost::Tcp(_))
    ));
}

#[test]
fn resolve_docker_host_prefers_override_then_env() {
    let env_host = Some("unix:///tmp/docker.sock");

    let host = resolve_docker_host(Some("tcp://127.0.0.1:2375"), env_host, false);
    assert!(matches!(host, DockerHost::Tcp(_)));

    let host = resolve_docker_host(None, env_host, false);
    assert!(matches!(host, DockerHost::Unix(_)));
}

#[test]
fn sanitize_log_line_strips_ansi_and_controls() {
    let input = "hi\x1b[31mred\x1b[0m";
    assert_eq!(sanitize_log_line(input), "hired");

    let input = "a\u{0001}b\u{0002}c";
    assert_eq!(sanitize_log_line(input), "abc");

    let input = "\x1b]0;title\x07ok";
    assert_eq!(sanitize_log_line(input), "ok");
}

#[test]
fn max_logs_scroll_clamps_to_viewport() {
    let mut app = AppState::new();
    app.logs_lines = (0..10).map(|n| format!("line {n}")).collect();
    app.logs_viewport_height = 4;
    assert_eq!(max_logs_scroll(&app), 6);

    app.logs_viewport_height = 20;
    assert_eq!(max_logs_scroll(&app), 0);
}

#[test]
fn normalize_lines_keeps_tail() {
    let lines = vec![
        "a".to_string(),
        "b".to_string(),
        "c".to_string(),
        "d".to_string(),
    ];
    let out = _normalize_lines(lines, 2);
    assert_eq!(out, vec!["c".to_string(), "d".to_string()]);
}

#[test]
fn normalize_lines_noop_when_under_limit() {
    let lines = vec!["a".to_string(), "b".to_string()];
    let out = _normalize_lines(lines.clone(), 5);
    assert_eq!(out, lines);
}
