use dockertui::engine_bollard::{container_row_from_summary, image_row_from_summary, BollardEngine};
use dockertui::engine_wsl_cli::{
    amount_parts, parse_container_lines, parse_image_lines, parse_stats_lines, parse_volume_lines,
    request_command, usage_pair_texts, WslCliEngine, WslRequest,
};
use dockertui::engine::EngineKind;
use dockertui::keymap::{shell_input_bytes, Action, Key, KeyPress, Keymap};
use dockertui::layout::{
    handle_resource_tabs_click, logs_viewport_height, main_area_rect, resource_inner, resource_pane, resource_tabs_in,
    resource_tabs_rect,
    set_logs_viewport,
    Area, LeftClick,
};
use dockertui::app::AppState;
use dockertui::daemon::DaemonState;
use dockertui::ui::{
    container_marker, engine_label, logs_render_scroll, shell_visible_lines, ResourceTab, Shade, Tab,
};

fn strings(v: &[&str]) -> Vec<String> {
    v.iter().map(|s| s.to_string()).collect()
}

fn press(key: Key) -> KeyPress {
    KeyPress { key, ctrl: false, shift: false, alt: false, no_modifiers: true }
}

fn ctrl(c: char) -> KeyPress {
    KeyPress { key: Key::Char(c), ctrl: true, shift: false, alt: false, no_modifiers: false }
}

#[test]
fn key_bindings() {
    let k = Keymap::default();
    assert_eq!(k.map(press(Key::Char('q'))), Some(Action::Quit));
    assert_eq!(k.map(press(Key::Esc)), Some(Action::Quit));
    assert_eq!(k.map(press(Key::Tab)), Some(Action::NextTab));
    let shifted_tab = KeyPress { key: Key::Tab, ctrl: false, shift: true, alt: false, no_modifiers: false };
    assert_eq!(k.map(shifted_tab), None);
    let back = KeyPress { key: Key::BackTab, ctrl: false, shift: true, alt: false, no_modifiers: false };
    assert_eq!(k.map(back), Some(Action::PrevTab));
    assert_eq!(k.map(press(Key::BackTab)), None);
    assert_eq!(k.map(press(Key::Function(5))), Some(Action::Refresh));
    assert_eq!(k.map(press(Key::Function(6))), None);
    assert_eq!(k.map(press(Key::Char('j'))), Some(Action::Down));
    assert_eq!(k.map(press(Key::Up)), Some(Action::Up));
    assert_eq!(k.map(press(Key::Char('S'))), Some(Action::StartAll));
    assert_eq!(k.map(ctrl('x')), Some(Action::StopEngine));
    assert_eq!(k.map(press(Key::Char('x'))), Some(Action::Stop));
    assert_eq!(k.map(ctrl('r')), Some(Action::RestartEngine));
    assert_eq!(k.map(ctrl('e')), Some(Action::StartEngine));
    assert_eq!(k.map(press(Key::Char('e'))), Some(Action::Shell));
    assert_eq!(k.map(ctrl('w')), Some(Action::Quit));
    assert_eq!(k.map(press(Key::Char('w'))), None);
    assert_eq!(k.map(press(Key::Delete)), Some(Action::Remove));
    assert_eq!(k.map(press(Key::Char('f'))), Some(Action::ToggleFollow));
}

#[test]
fn shell_key_bytes() {
    assert_eq!(shell_input_bytes(ctrl('c')), vec![3]);
    assert_eq!(shell_input_bytes(press(Key::Char('é'))), "é".as_bytes().to_vec());
    let alt = KeyPress { key: Key::Char('x'), ctrl: false, shift: false, alt: true, no_modifiers: false };
    assert_eq!(shell_input_bytes(alt), vec![0x1b, b'x']);
    assert_eq!(shell_input_bytes(press(Key::Enter)), vec![b'\r']);
    assert_eq!(shell_input_bytes(press(Key::Up)), b"\x1b[A".to_vec());
    assert_eq!(shell_input_bytes(press(Key::PageDown)), b"\x1b[6~".to_vec());
    assert_eq!(shell_input_bytes(press(Key::Insert)), b"\x1b[2~".to_vec());
    assert_eq!(shell_input_bytes(press(Key::Function(1))), Vec::<u8>::new());
    assert_eq!(shell_input_bytes(press(Key::Char('😀'))), "😀".as_bytes().to_vec());
}

#[test]
fn wsl_engine_commands() {
    let eng = WslCliEngine::new("Ubuntu".into());
    assert_eq!(eng.kind(), EngineKind::WslCli);
    assert_eq!(eng.name(), "WSL CLI (Ubuntu)");
    assert_eq!(
        eng.wsl_args(&strings(&["docker", "ps"])),
        strings(&["-d", "Ubuntu", "--", "docker", "ps"])
    );
    assert_eq!(
        request_command(&WslRequest::RemoveImage { id: "x".into(), force: true }),
        strings(&["docker", "rmi", "-f", "x"])
    );
    assert_eq!(
        request_command(&WslRequest::Logs { tail: "50".into(), id: "c".into() }),
        strings(&["docker", "logs", "--tail", "50", "c"])
    );
    assert_eq!(
        request_command(&WslRequest::ListVolumes),
        strings(&["docker", "volume", "ls", "--format", "{{.Name}}\t{{.Driver}}"])
    );
    assert_eq!(request_command(&WslRequest::StartEngine), strings(&["sudo", "systemctl", "start", "docker"]));
}

#[test]
fn wsl_listings_parse() {
    let lines = strings(&["id1\tweb\tnginx\trunning\tUp 2 hours", "short\tline", "id2\tdb\tpg\texited\tExited (0)\textra"]);
    let rows = parse_container_lines(&lines);
    assert_eq!(rows.len(), 2);
    assert_eq!(rows[0].name, "web");
    assert_eq!(rows[1].status, "Exited (0)");
    let imgs = parse_image_lines(&strings(&["sha\tnginx:latest\t10MB\t2 days ago", "bad"]));
    assert_eq!(imgs.len(), 1);
    assert_eq!(imgs[0].tags, "nginx:latest");
    let vols = parse_volume_lines(&strings(&["data\tlocal", "alone"]));
    assert_eq!(vols.len(), 1);
    assert_eq!(vols[0].driver, "local");
    assert_eq!(vols[0].mountpoint, "");
}

#[test]
fn wsl_stats_parse() {
    let lines = strings(&["1.5%\t10MiB / 1GiB\t0.98%\t1kB / 2kB\t0B / 0B\t 7 "]);
    let c = parse_stats_lines(&lines, "abc").unwrap();
    assert_eq!(c.cpu_percent, "1.5%");
    assert_eq!(c.pids, " 7 ");
    assert_eq!(c.pids_value, 7);
    assert_eq!(parse_stats_lines(&vec![], "abc").unwrap_err(), "No stats returned for container abc");
    assert_eq!(
        parse_stats_lines(&strings(&["a\tb"]), "abc").unwrap_err(),
        "Unexpected stats output for container abc"
    );
    let odd = parse_stats_lines(&strings(&["a\tb\tc\td\te\t--"]), "x").unwrap();
    assert_eq!(odd.pids_value, 0);
}

#[test]
fn amounts_and_usage_pairs() {
    assert_eq!(usage_pair_texts(" 10MiB / 1GiB "), ("10MiB".to_string(), "1GiB".to_string()));
    assert_eq!(usage_pair_texts("5B"), ("5B".to_string(), "".to_string()));
    assert_eq!(amount_parts("1.5 GiB"), Some(("1.5".to_string(), 1073741824)));
    assert_eq!(amount_parts("12kB"), Some(("12".to_string(), 1000)));
    assert_eq!(amount_parts("3TiB"), Some(("3".to_string(), 1099511627776)));
    assert_eq!(amount_parts("42"), Some(("42".to_string(), 1)));
    assert_eq!(amount_parts("   "), None);
    assert_eq!(amount_parts("9XB"), None);
}

#[test]
fn bollard_connect_choices() {
    let tls = BollardEngine::connect("https://h:2376").err().unwrap();
    assert!(tls.starts_with("https:// DOCKER_HOST requires TLS config"));
    assert_eq!(
        BollardEngine::connect("npipe:////./pipe/docker_engine").err().unwrap(),
        "npipe Docker host is only supported on Windows builds: npipe:////./pipe/docker_engine"
    );
    assert_eq!(BollardEngine::connect("ssh://h").err().unwrap(), "Unsupported DOCKER_HOST: ssh://h");
}

#[test]
fn bollard_connect_builds_clients() {
    let rt = tokio::runtime::Runtime::new().unwrap();
    let _guard = rt.enter();
    let unix = BollardEngine::connect("unix:///var/run/docker.sock").ok().unwrap();
    assert_eq!(unix.name(), "Docker API (unix:///var/run/docker.sock)");
    assert_eq!(unix.kind(), EngineKind::DockerApi);
    let tcp = BollardEngine::connect("tcp://127.0.0.1:2375").ok().unwrap();
    assert_eq!(tcp.name(), "Docker API (tcp://127.0.0.1:2375)");
    assert_eq!(unix.endpoint(), "unix:///var/run/docker.sock");
    assert_eq!(tcp.endpoint(), "http://127.0.0.1:2375");
    let http = BollardEngine::connect("http://10.0.0.5:2375").ok().unwrap();
    assert_eq!(http.endpoint(), "http://10.0.0.5:2375");
}

#[test]
fn bollard_rows() {
    let r = container_row_from_summary(
        Some("abc".into()),
        Some(vec!["//web".into(), "/other".into()]),
        None,
        Some("running".into()),
        Some("Up".into()),
    );
    assert_eq!(r.id, "abc");
    assert_eq!(r.name, "web");
    assert_eq!(r.image, "");
    let empty = container_row_from_summary(None, Some(vec![]), None, None, None);
    assert_eq!(empty.name, "");
    let img = image_row_from_summary("sha".into(), &strings(&["a:1", "b:2"]), "1.00 MB".into(), -5);
    assert_eq!(img.tags, "a:1, b:2");
    assert_eq!(img.created, "-5");
}

#[test]
fn screen_layout() {
    let area = Area { x: 0, y: 0, width: 100, height: 40 };
    let rows = dockertui::layout::screen_layout(area);
    assert_eq!(rows.len(), 4);
    let main = rows[2];
    assert_eq!(main, Area { x: 0, y: 11, width: 100, height: 26 });
    assert_eq!(logs_viewport_height(main), 24);
    assert_eq!(logs_viewport_height(Area { x: 0, y: 0, width: 5, height: 1 }), 0);
    let mut app = AppState::new();
    set_logs_viewport(&mut app, main);
    assert_eq!(app.logs_viewport_height, 24);
    assert_eq!(main_area_rect(area), Area { x: 0, y: 3, width: 100, height: 34 });
    assert_eq!(resource_inner(Area { x: 0, y: 0, width: 10, height: 10 }), Some(Area { x: 1, y: 1, width: 8, height: 8 }));
    assert_eq!(resource_inner(Area { x: 0, y: 0, width: 10, height: 4 }), None);
    let pane = resource_pane(main);
    assert_eq!(pane, Area { x: 68, y: 11, width: 32, height: 26 });
    let tabs = resource_tabs_rect(area).unwrap();
    assert_eq!(tabs, Area { x: 69, y: 12, width: 30, height: 3 });
    assert_eq!(resource_tabs_in(pane), Some(tabs));
    assert_eq!(resource_tabs_in(Area { x: 0, y: 0, width: 10, height: 6 }), Some(Area { x: 1, y: 1, width: 8, height: 3 }));
    // An inside of exactly three rows leaves one for the contents below the switch.
    assert_eq!(resource_tabs_in(Area { x: 0, y: 0, width: 10, height: 5 }), Some(Area { x: 1, y: 1, width: 8, height: 2 }));
    assert_eq!(resource_tabs_in(Area { x: 0, y: 0, width: 2, height: 20 }), None);
    assert!(resource_tabs_rect(Area { x: 0, y: 0, width: 9, height: 40 }).is_none());
    assert!(resource_tabs_rect(Area { x: 0, y: 0, width: 40, height: 9 }).is_none());
    assert_eq!(
        rows,
        vec![
            Area { x: 0, y: 0, width: 100, height: 8 },
            Area { x: 0, y: 8, width: 100, height: 3 },
            Area { x: 0, y: 11, width: 100, height: 26 },
            Area { x: 0, y: 37, width: 100, height: 3 },
        ]
    );
    let short = dockertui::layout::screen_layout(Area { x: 2, y: 1, width: 30, height: 10 });
    assert!(short.iter().all(|r| r.x == 2 && r.width == 30));
    assert_eq!(short[0].y, 1);
    assert!(short.windows(2).all(|w| w[0].y + w[0].height == w[1].y));
    assert!(short[3].y + short[3].height <= 11);

    let right = LeftClick { column: tabs.x + tabs.width - 1, row: tabs.y };
    handle_resource_tabs_click(&mut app, Some(tabs), right);
    assert_eq!(app.resource_tab, ResourceTab::Graphs);
    handle_resource_tabs_click(&mut app, Some(tabs), LeftClick { column: tabs.x, row: tabs.y });
    assert_eq!(app.resource_tab, ResourceTab::Stats);
    handle_resource_tabs_click(&mut app, Some(tabs), LeftClick { column: 0, row: 0 });
    assert_eq!(app.resource_tab, ResourceTab::Stats);
    handle_resource_tabs_click(&mut app, None, right);
    assert_eq!(app.resource_tab, ResourceTab::Stats);
    app.tab = Tab::Images;
    handle_resource_tabs_click(&mut app, Some(tabs), right);
    assert_eq!(app.resource_tab, ResourceTab::Stats);
}

#[test]
fn view_markers_and_labels() {
    let busy = container_marker("running", Some(12));
    assert_eq!(busy.text, "⠹●");
    assert_eq!(busy.shade, Shade::Yellow);
    assert!(!busy.dimmed);
    let paused = container_marker("paused", None);
    assert_eq!(paused.text, " ⏸");
    assert_eq!(paused.shade, Shade::Cyan);
    assert!(paused.dimmed);
    assert_eq!(container_marker("dead", None).shade, Shade::Red);
    assert_eq!(container_marker("removing", None).shade, Shade::Gray);
    assert_eq!(engine_label(DaemonState::Stopping), ("Engine: Stopping", Shade::Yellow));
    assert_eq!(engine_label(DaemonState::Unknown), ("Engine: Unknown", Shade::Gray));
}

#[test]
fn logs_and_shell_views() {
    assert_eq!(logs_render_scroll(10, 4, true, 0), 6);
    assert_eq!(logs_render_scroll(10, 4, false, 2), 2);
    assert_eq!(logs_render_scroll(10, 4, false, 9), 6);
    assert_eq!(logs_render_scroll(3, 4, true, 0), 0);
    assert_eq!(logs_render_scroll(100_000, 0, true, 0), u16::MAX);
    let lines = strings(&["a", "b", "c"]);
    assert_eq!(shell_visible_lines(&lines, &"d".to_string(), 2), strings(&["c", "d"]));
    assert_eq!(shell_visible_lines(&lines, &String::new(), 5), lines);
    assert_eq!(dockertui::app::shell_cursor(0, 0, 10, 10, 2, 3), Some((4, 3)));
    assert_eq!(dockertui::app::shell_cursor(0, 0, 10, 3, 2, 3), None);
    assert_eq!(Tab::Logs.next(), Tab::Containers);
    assert_eq!(Tab::Containers.prev(), Tab::Logs);
    assert_eq!(Tab::Volumes.index(), 2);
}
