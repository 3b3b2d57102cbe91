use dockertui::app::{
    begin_open_logs, begin_refresh, bulk_summary, bulk_targets, busy_frame, containers_activity_done,
    containers_activity_start, finish_refresh_containers, finish_remove, handle_logs_mouse_scroll,
    max_logs_scroll, move_down, move_up, on_action, push_log_line, push_shell_output,
    receive_container_stats, receive_container_stats_error, request_selected_container_stats,
    selected_container_is_running, set_containers, tick_spinners, toggle_follow, AppState, BulkOp,
    BulkRun, Command, ContainerOp, ListKind, RemoveTarget, Wheel,
};
use dockertui::daemon::DaemonState;
use dockertui::engine::CallError;
use dockertui::keymap::Action;
use dockertui::models::{ContainerRow, ContainerStats};
use dockertui::ui::Tab;

fn row(id: &str, name: &str, state: &str) -> ContainerRow {
    ContainerRow {
        id: id.into(),
        name: name.into(),
        image: "img".into(),
        state: state.into(),
        status: "Up".into(),
    }
}

fn stats(cpu: u64) -> ContainerStats {
    ContainerStats {
        cpu_percent: format!("{cpu}%"),
        mem_usage: "1MiB / 2MiB".into(),
        mem_percent: "50%".into(),
        net_io: "1kB / 2kB".into(),
        block_io: "0B / 0B".into(),
        pids: "3".into(),
        gpu: "n/a".into(),
        cpu_percent_whole: cpu,
        mem_usage_bytes: 1,
        mem_limit_bytes: 2,
        mem_percent_whole: 50,
        net_rx_bytes: u64::MAX,
        net_tx_bytes: 5,
        block_read_bytes: 1,
        block_write_bytes: 2,
        pids_value: 3,
    }
}

fn app_with(rows: Vec<ContainerRow>) -> AppState {
    let mut app = AppState::new();
    app.engine_daemon_state = DaemonState::Running;
    set_containers(&mut app, rows);
    app
}

#[test]
fn new_state_is_ready() {
    let app = AppState::new();
    assert_eq!(app.status, "Ready");
    assert_eq!(app.tab, Tab::Containers);
    assert!(app.logs_follow);
    assert_eq!(app.engine_daemon_state, DaemonState::Unknown);
}

#[test]
fn selection_moves_and_clamps() {
    let mut app = app_with(vec![row("a", "x", "running"), row("b", "y", "exited")]);
    move_down(&mut app);
    assert_eq!(app.selected_container, 1);
    move_down(&mut app);
    assert_eq!(app.selected_container, 1);
    move_up(&mut app);
    move_up(&mut app);
    assert_eq!(app.selected_container, 0);
    app.selected_container = 1;
    set_containers(&mut app, vec![row("c", "z", "running")]);
    assert_eq!(app.selected_container, 0);
    set_containers(&mut app, vec![]);
    assert_eq!(app.selected_container, 0);
}

#[test]
fn logs_scrolling_switches_following_off() {
    let mut app = AppState::new();
    app.tab = Tab::Logs;
    app.logs_viewport_height = 4;
    for n in 0..10 {
        push_log_line(&mut app, &format!("line {n}"));
    }
    move_up(&mut app);
    assert!(!app.logs_follow);
    assert_eq!(app.status, "Logs follow: false");
    assert_eq!(app.logs_scroll, 5);
    move_down(&mut app);
    move_down(&mut app);
    assert_eq!(app.logs_scroll, 6);
    handle_logs_mouse_scroll(&mut app, Wheel::Up);
    assert_eq!(app.logs_scroll, 3);
    handle_logs_mouse_scroll(&mut app, Wheel::Down);
    assert_eq!(app.logs_scroll, 6);
    handle_logs_mouse_scroll(&mut app, Wheel::Other);
    assert_eq!(app.logs_scroll, 6);
    assert_eq!(max_logs_scroll(&app), 6);
    toggle_follow(&mut app);
    assert!(app.logs_follow);
    assert_eq!(app.status, "Logs follow: true");
}

#[test]
fn log_lines_are_sanitized_and_capped() {
    let mut app = AppState::new();
    push_log_line(&mut app, "\x1b[32mok\x1b[0m");
    assert_eq!(app.logs_lines, vec!["ok".to_string()]);
    app.logs_follow = false;
    for n in 0..3000 {
        push_log_line(&mut app, &n.to_string());
    }
    assert_eq!(app.logs_lines.len(), 3000);
    assert_eq!(app.logs_lines[0], "0");
    app.logs_scroll = 10;
    push_log_line(&mut app, "last");
    assert_eq!(app.logs_lines.len(), 3000);
    assert_eq!(app.logs_lines.last().unwrap(), "last");
    assert_eq!(app.logs_scroll, 9);
}

#[test]
fn refresh_reports_counts_and_errors() {
    let mut app = AppState::new();
    assert_eq!(begin_refresh(&mut app), None);
    assert_eq!(app.status, "Engine is stopped; start it to refresh");
    app.engine_daemon_state = DaemonState::Running;
    assert_eq!(begin_refresh(&mut app), Some(ListKind::Containers));
    assert_eq!(app.status, "Refreshing containers...");
    finish_refresh_containers(&mut app, Ok(vec![row("a", "x", "running"), row("b", "y", "exited")]));
    assert_eq!(app.status, "Containers: 2");
    finish_refresh_containers(&mut app, Err(CallError::Task("join".into())));
    assert_eq!(app.status, "Task error: join");
    assert_eq!(app.containers.len(), 2);
}

#[test]
fn opening_logs_sets_title_and_view() {
    let mut app = app_with(vec![row("0123456789abcdef", "web", "running")]);
    assert!(selected_container_is_running(&app));
    let id = begin_open_logs(&mut app).unwrap();
    assert_eq!(id, "0123456789abcdef");
    assert_eq!(app.tab, Tab::Logs);
    assert_eq!(app.logs_title, "Logs: web (0123456789ab)");
    assert!(app.logs_running && app.logs_follow);
    assert_eq!(app.status, "Tailing logs... (press q to exit logs)");
}

#[test]
fn actions_dispatch_commands() {
    let mut app = app_with(vec![row("a1", "x", "exited"), row("b2", "y", "running")]);
    assert!(matches!(on_action(&mut app, Action::Logs), Command::Nothing));
    assert_eq!(app.status, "Logs unavailable: container is not running");
    assert!(matches!(on_action(&mut app, Action::Shell), Command::Nothing));
    assert_eq!(app.status, "Shell unavailable: container is not running");
    assert!(matches!(on_action(&mut app, Action::Down), Command::RequestStats));
    match on_action(&mut app, Action::Shell) {
        Command::OpenShell(r) => assert_eq!(r.id, "b2"),
        other => panic!("unexpected {other:?}"),
    }
    assert!(app.shell_active);
    assert_eq!(app.shell_title, "Shell: y (b2)");
    assert_eq!(app.status, "Shell into y... (type exit to return)");
    match on_action(&mut app, Action::Restart) {
        Command::ContainerOp(ContainerOp::Restart, id) => assert_eq!(id, "b2"),
        other => panic!("unexpected {other:?}"),
    }
    assert_eq!(app.status, "Restarting b2...");
    assert!(matches!(on_action(&mut app, Action::StopAll), Command::Bulk(BulkOp::StopAll)));
    assert!(matches!(on_action(&mut app, Action::StopEngine), Command::StopEngine));
    assert_eq!(app.engine_daemon_state, DaemonState::Stopping);
    assert!(matches!(on_action(&mut app, Action::NextTab), Command::Refresh));
    assert_eq!(app.tab, Tab::Images);
    assert!(matches!(on_action(&mut app, Action::Remove), Command::Nothing));
    app.tab = Tab::Logs;
    assert!(matches!(on_action(&mut app, Action::Quit), Command::StopLogs));
    assert_eq!(app.tab, Tab::Containers);
    assert_eq!(app.status, "Back to containers");
    assert!(matches!(on_action(&mut app, Action::Quit), Command::Exit));
}

#[test]
fn removal_targets_and_outcomes() {
    let mut app = AppState::new();
    app.tab = Tab::Images;
    app.images = vec![dockertui::models::ImageRow {
        id: "sha".into(),
        tags: "t".into(),
        size: "1 MB".into(),
        created: "0".into(),
    }];
    match on_action(&mut app, Action::Remove) {
        Command::Remove(RemoveTarget::Image { id, force }) => {
            assert_eq!(id, "sha");
            assert!(force);
        }
        other => panic!("unexpected {other:?}"),
    }
    assert_eq!(app.status, "Removing image sha...");
    assert!(finish_remove(&mut app, &RemoveTarget::Image { id: "sha".into(), force: true }, &Ok(())));
    assert_eq!(app.status, "Image removed");
    assert!(!finish_remove(&mut app, &RemoveTarget::Volume { name: "v".into(), force: true }, &Err(CallError::Engine("in use".into()))));
    assert_eq!(app.status, "Error: in use");
}

#[test]
fn stats_requests_follow_the_selection() {
    let mut app = app_with(vec![row("a", "x", "running"), row("b", "y", "exited")]);
    assert_eq!(request_selected_container_stats(&mut app, 1000).as_deref(), Some("a"));
    assert!(app.container_stats_loading);
    assert_eq!(request_selected_container_stats(&mut app, 1100), None);
    receive_container_stats(&mut app, "a".into(), stats(12), 1200);
    assert!(!app.container_stats_loading);
    assert_eq!(app.container_stats_updated_at, Some(1200));
    assert_eq!(app.container_stats_history.len(), 1);
    let point = app.container_stats_history[0].1[0];
    assert_eq!(point.net_total, u64::MAX);
    assert_eq!(point.block_total, 3);
    assert_eq!(request_selected_container_stats(&mut app, 1500), None);
    assert_eq!(request_selected_container_stats(&mut app, 2100).as_deref(), Some("a"));
    assert!(!app.container_stats_loading);
    move_down(&mut app);
    assert_eq!(request_selected_container_stats(&mut app, 2200), None);
    assert_eq!(app.container_stats_error.as_deref(), Some("Container is not running"));
    receive_container_stats(&mut app, "a".into(), stats(1), 2300);
    assert!(app.container_stats.is_none());
    receive_container_stats_error(&mut app, "b".into(), "boom".into());
    assert_eq!(app.container_stats_error.as_deref(), Some("boom"));
    app.engine_daemon_state = DaemonState::Stopped;
    move_up(&mut app);
    assert_eq!(request_selected_container_stats(&mut app, 9000), None);
    assert_eq!(app.container_stats_error.as_deref(), Some("Engine is not running"));
}

#[test]
fn stats_history_drops_old_and_extra_samples() {
    let mut app = app_with(vec![row("a", "x", "running")]);
    request_selected_container_stats(&mut app, 0);
    for t in 0..500u64 {
        receive_container_stats(&mut app, "a".into(), stats(t), t * 1000);
    }
    let h = &app.container_stats_history[0].1;
    assert!(h.len() <= 400);
    assert_eq!(h.last().unwrap().at, 499_000);
    assert!(h.iter().all(|p| 499_000 - p.at <= 300_000));
    assert_eq!(h.len(), 301);
    assert_eq!(app.container_stats_history.len(), 1);
}

#[test]
fn busy_markers_and_spinners() {
    let mut app = AppState::new();
    containers_activity_start(&mut app, vec!["a".into(), "b".into()]);
    tick_spinners(&mut app);
    containers_activity_start(&mut app, vec!["a".into()]);
    assert_eq!(busy_frame(&app, "a"), Some(0));
    assert_eq!(busy_frame(&app, "b"), Some(1));
    assert_eq!(busy_frame(&app, "c"), None);
    for _ in 0..9 {
        tick_spinners(&mut app);
    }
    assert_eq!(busy_frame(&app, "b"), Some(0));
    containers_activity_done(&mut app, "done".into());
    assert_eq!(busy_frame(&app, "a"), None);
    assert_eq!(app.status, "done");
}

#[test]
fn bulk_targets_and_summaries() {
    let rows = vec![row("a", "x", "running"), row("b", "y", "exited"), row("c", "z", "created")];
    assert_eq!(bulk_targets(&rows, BulkOp::StartAll), vec!["b".to_string(), "c".to_string()]);
    assert_eq!(bulk_targets(&rows, BulkOp::StopAll), vec!["a".to_string()]);
    assert_eq!(bulk_summary(BulkOp::StartAll, 1, 2), "Started 1/2 containers");
    assert_eq!(bulk_summary(BulkOp::StopAll, 0, 0), "Stopped 0/0 containers");
}

#[test]
fn bulk_run_counts_successes() {
    let rows = vec![
        row("a", "x", "exited"),
        row("b", "y", "running"),
        row("c", "z", "created"),
        row("d", "w", "exited"),
    ];
    let mut run = BulkRun::new(BulkOp::StartAll, &rows);
    assert_eq!(run.targets(), vec!["a".to_string(), "c".to_string(), "d".to_string()]);
    assert_eq!(run.next_target(), Some("a".to_string()));
    assert_eq!(run.record(&Ok(())), None);
    assert_eq!(run.next_target(), Some("c".to_string()));
    assert_eq!(run.record(&Err(CallError::Engine("no such image".into()))), Some("Error starting container: no such image".to_string()));
    assert_eq!(run.next_target(), Some("d".to_string()));
    assert_eq!(run.record(&Ok(())), None);
    assert_eq!(run.next_target(), None);
    assert_eq!(run.summary(), "Started 2/3 containers");

    let mut stop = BulkRun::new(BulkOp::StopAll, &rows);
    assert_eq!(stop.next_target(), Some("b".to_string()));
    assert_eq!(stop.record(&Err(CallError::Task("cancelled".into()))), Some("Stop container task error: cancelled".to_string()));
    assert_eq!(stop.next_target(), None);
    assert_eq!(stop.summary(), "Stopped 0/1 containers");

    let empty = BulkRun::new(BulkOp::StopAll, &vec![]);
    assert_eq!(empty.next_target(), None);
    assert_eq!(empty.summary(), "Stopped 0/0 containers");
}

#[test]
fn busy_list_holds_each_container_once() {
    let mut app = AppState::new();
    containers_activity_start(&mut app, vec!["a".into(), "b".into(), "a".into()]);
    tick_spinners(&mut app);
    containers_activity_start(&mut app, vec!["b".into(), "c".into(), "c".into()]);
    let keys: Vec<&str> = app.stopping_containers.iter().map(|(k, _)| k.as_str()).collect();
    assert_eq!(keys, vec!["a", "b", "c"]);
    assert_eq!(busy_frame(&app, "a"), Some(1));
    assert_eq!(busy_frame(&app, "b"), Some(0));
}

#[test]
fn shell_output_builds_lines() {
    let mut app = AppState::new();
    push_shell_output(&mut app, "hello\r\nworld\n$ ");
    assert_eq!(app.shell_lines, vec!["hello".to_string(), "world".to_string()]);
    assert_eq!(app.shell_current, "$ ");
    push_shell_output(&mut app, "ab\x08c\td\x1b[31m!\x1b]0;t\x07");
    assert_eq!(app.shell_current, "$ ac    d!");
    push_shell_output(&mut app, "\x1b[K");
    assert_eq!(app.shell_current, "");
    push_shell_output(&mut app, "x\x1b[2J");
    assert!(app.shell_lines.is_empty());
    assert_eq!(app.shell_current, "");
    push_shell_output(&mut app, "\r\n");
    assert!(app.shell_lines.is_empty());
    let many = "l\n".repeat(5003);
    push_shell_output(&mut app, &many);
    assert_eq!(app.shell_lines.len(), 5000);
}

#[test]
fn auto_refresh_only_on_running_containers_tab() {
    let mut app = AppState::new();
    assert!(!dockertui::app::auto_refresh_due(&app, 5000));
    app.engine_daemon_state = DaemonState::Running;
    assert!(dockertui::app::auto_refresh_due(&app, 1001));
    assert!(!dockertui::app::auto_refresh_due(&app, 1000));
    app.tab = Tab::Images;
    assert!(!dockertui::app::auto_refresh_due(&app, 5000));
}
