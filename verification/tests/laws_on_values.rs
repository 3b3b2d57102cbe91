use dockertui::app::{bulk_targets, push_shell_output, toggle_follow, AppState, BulkOp};
use dockertui::models::ContainerRow;
use dockertui::sanitize::sanitize_log_line;
use dockertui::ui::Tab;

fn row(id: &str, state: &str) -> ContainerRow {
    ContainerRow { id: id.into(), name: id.into(), image: "i".into(), state: state.into(), status: "".into() }
}

#[test]
fn tabs_go_round_the_bar() {
    for t in [Tab::Containers, Tab::Images, Tab::Volumes, Tab::Logs] {
        assert_eq!(t.next().prev(), t);
        assert_eq!(t.prev().next(), t);
        assert_eq!(t.next().next().next().next(), t);
    }
}

#[test]
fn sanitized_lines_hold_no_control_characters_but_tab() {
    let out = sanitize_log_line("a\u{7}\t\u{1b}[1mb\u{9f}\r\u{0}c");
    assert_eq!(out, "a\tbc");
    assert!(out.chars().all(|c| !c.is_control() || c == '\t'));
}

#[test]
fn plain_shell_text_extends_the_current_line() {
    let mut app = AppState::new();
    push_shell_output(&mut app, "$ ");
    push_shell_output(&mut app, "ls -la");
    assert_eq!(app.shell_current, "$ ls -la");
    assert!(app.shell_lines.is_empty());
}

#[test]
fn start_all_and_stop_all_split_the_containers() {
    let rows = vec![row("a", "running"), row("b", "exited"), row("c", "running"), row("d", "paused")];
    let start = bulk_targets(&rows, BulkOp::StartAll);
    let stop = bulk_targets(&rows, BulkOp::StopAll);
    assert_eq!(start.len() + stop.len(), rows.len());
    assert!(start.iter().all(|id| !stop.contains(id)));
}

#[test]
fn following_toggled_twice_is_restored() {
    let mut app = AppState::new();
    app.logs_lines = (0..10).map(|n| n.to_string()).collect();
    app.logs_viewport_height = 3;
    toggle_follow(&mut app);
    toggle_follow(&mut app);
    assert!(app.logs_follow);
    assert_eq!(app.logs_scroll, 7);
}
