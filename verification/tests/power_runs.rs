use dockertui::bootstrap::{wait_next, RunOutput, WaitAction, READY_POLL_MS, READY_TIMEOUT_MS};
use dockertui::daemon::{daemon_state, status_query, systemd_probe_command, DaemonState};
use dockertui::engine::CallError;
use dockertui::models::ContainerRow;
use dockertui::power::{power_next, EnginePower, PowerAction, PowerEvent, PowerNote, PowerStep};

const SYSTEMD_PROBE: &str = "command -v systemctl >/dev/null 2>&1 && pidof systemd >/dev/null 2>&1";
const WSL_PROBE: &str = "grep -qi microsoft /proc/sys/kernel/osrelease /proc/version >/dev/null 2>&1";

fn row(id: &str, state: &str) -> ContainerRow {
    ContainerRow {
        id: id.into(),
        name: format!("n-{id}"),
        image: "img".into(),
        state: state.into(),
        status: "s".into(),
    }
}

fn code(c: i32) -> PowerEvent {
    PowerEvent::Ran(Ok(RunOutput { code: c, stderr: String::new() }))
}

fn run_of(step: &PowerStep) -> String {
    match &step.action {
        PowerAction::Run(c) => c.clone(),
        other => panic!("expected a command, got {other:?}"),
    }
}

fn statuses(step: &PowerStep) -> Vec<String> {
    step.notes
        .iter()
        .filter_map(|n| match n {
            PowerNote::Status(s) => Some(s.clone()),
            _ => None,
        })
        .collect()
}

fn is_done(step: &PowerStep) -> bool {
    matches!(step.action, PowerAction::Done)
}

/// Drains the containers and arrives at the hard stop's first command.
fn drained(m: &mut EnginePower) -> PowerStep {
    let rows = vec![row("a", "running"), row("b", "exited")];
    let s = power_next(m, PowerEvent::Listed(Ok(rows)));
    assert!(matches!(&s.action, PowerAction::StopContainer(id) if id == "a"));
    let s = power_next(m, PowerEvent::ContainerStopped(Ok(())));
    assert!(matches!(s.action, PowerAction::ListContainers));
    power_next(m, PowerEvent::Listed(Ok(vec![row("a", "exited")])))
}

#[test]
fn drain_stops_running_containers_then_systemd_service() {
    let (mut m, s) = EnginePower::drain();
    assert!(s.notes.is_empty());
    assert!(matches!(s.action, PowerAction::ListContainers));
    let rows = vec![row("a", "running"), row("b", "exited"), row("c", "running")];
    let s = power_next(&mut m, PowerEvent::Listed(Ok(rows)));
    assert!(matches!(&s.notes[..], [PowerNote::Stopping(ids)] if ids == &vec!["a".to_string(), "c".to_string()]));
    assert!(matches!(&s.action, PowerAction::StopContainer(id) if id == "a"));
    let s = power_next(&mut m, PowerEvent::ContainerStopped(Err(CallError::Engine("boom".into()))));
    assert_eq!(statuses(&s), vec!["Error stopping container: boom"]);
    assert!(matches!(&s.action, PowerAction::StopContainer(id) if id == "c"));
    let s = power_next(&mut m, PowerEvent::ContainerStopped(Err(CallError::Task("gone".into()))));
    assert_eq!(statuses(&s), vec!["Stop container task error: gone"]);
    assert!(matches!(s.notes.last(), Some(PowerNote::StoppedAll)));
    assert!(matches!(s.action, PowerAction::ListContainers));
    let s = power_next(&mut m, PowerEvent::Listed(Ok(vec![row("a", "exited")])));
    assert!(matches!(&s.notes[..], [PowerNote::Containers(list)] if list.len() == 1 && list[0].state == "exited"));
    assert_eq!(run_of(&s), SYSTEMD_PROBE);
    let s = power_next(&mut m, code(0));
    assert_eq!(run_of(&s), "systemctl --user stop docker.service docker.socket >/dev/null 2>&1");
    let s = power_next(&mut m, code(5));
    assert_eq!(run_of(&s), "systemctl --user mask docker.service docker.socket >/dev/null 2>&1");
    let s = power_next(&mut m, PowerEvent::Ran(Err("no shell".into())));
    assert_eq!(run_of(&s), "sudo systemctl stop docker.service docker.socket");
    let s = power_next(&mut m, code(1));
    assert_eq!(run_of(&s), "sudo systemctl mask docker.service docker.socket");
    let s = power_next(&mut m, code(0));
    assert_eq!(run_of(&s), WSL_PROBE);
    let s = power_next(&mut m, code(1));
    assert!(is_done(&s));
    assert_eq!(statuses(&s), vec!["Engine stopped"]);
}

#[test]
fn drain_without_running_containers_goes_straight_to_relisting() {
    let (mut m, _) = EnginePower::drain();
    let s = power_next(&mut m, PowerEvent::Listed(Ok(vec![row("x", "exited")])));
    assert!(matches!(&s.notes[..], [PowerNote::Stopping(ids), PowerNote::StoppedAll] if ids.is_empty()));
    assert!(matches!(s.action, PowerAction::ListContainers));
    let s = power_next(&mut m, PowerEvent::Listed(Err(CallError::Engine("down".into()))));
    assert_eq!(statuses(&s), vec!["Refresh after stop failed: down"]);
    assert_eq!(run_of(&s), SYSTEMD_PROBE);
}

#[test]
fn drain_list_failure_ends_the_run() {
    let (mut m, _) = EnginePower::drain();
    let s = power_next(&mut m, PowerEvent::Listed(Err(CallError::Engine("refused".into()))));
    assert!(is_done(&s));
    assert_eq!(statuses(&s), vec!["Failed to list containers: refused"]);
    let (mut m, _) = EnginePower::drain();
    let s = power_next(&mut m, PowerEvent::Listed(Err(CallError::Task("panicked".into()))));
    assert_eq!(statuses(&s), vec!["List containers task error: panicked"]);
}

#[test]
fn hard_stop_failures_are_reported() {
    let (mut m, _) = EnginePower::drain();
    let s = drained(&mut m);
    assert_eq!(run_of(&s), SYSTEMD_PROBE);
    power_next(&mut m, code(0));
    power_next(&mut m, code(0));
    let s = power_next(&mut m, code(0));
    assert_eq!(run_of(&s), "sudo systemctl stop docker.service docker.socket");
    let s = power_next(&mut m, PowerEvent::Ran(Err("cannot spawn".into())));
    assert!(is_done(&s));
    assert_eq!(statuses(&s), vec!["Failed to stop engine: cannot spawn"]);
}

#[test]
fn hard_stop_without_systemd_stops_dockerd() {
    let (mut m, _) = EnginePower::drain();
    drained(&mut m);
    let s = power_next(&mut m, code(1));
    assert_eq!(run_of(&s), SYSTEMD_PROBE);
    let s = power_next(&mut m, code(1));
    assert_eq!(run_of(&s), "sudo pkill -f 'dockerd'");
    let s = power_next(&mut m, PowerEvent::Ran(Ok(RunOutput { code: 1, stderr: "no process".into() })));
    assert!(is_done(&s));
    assert_eq!(statuses(&s), vec!["Failed to stop engine: stop dockerd failed: no process"]);

    let (mut m, _) = EnginePower::drain();
    drained(&mut m);
    power_next(&mut m, code(1));
    power_next(&mut m, code(1));
    let s = power_next(&mut m, code(0));
    assert_eq!(run_of(&s), WSL_PROBE);
}

#[test]
fn hard_stop_on_wsl_blocks_the_socket() {
    let (mut m, _) = EnginePower::drain();
    drained(&mut m);
    power_next(&mut m, code(1));
    power_next(&mut m, code(1));
    power_next(&mut m, code(0));
    let s = power_next(&mut m, code(0));
    assert_eq!(run_of(&s), "if mount | grep -q ' /var/run/docker.sock '; then sudo umount /var/run/docker.sock; fi");
    let s = power_next(&mut m, code(1));
    assert!(run_of(&s).contains("mv /var/run/docker.sock /var/run/docker.sock.disabled"));
    let s = power_next(&mut m, code(0));
    assert_eq!(run_of(&s), "sudo sh -lc 'if [ -e /var/run/docker.sock ]; then rm -rf /var/run/docker.sock; fi'");
    let s = power_next(&mut m, code(0));
    assert_eq!(run_of(&s), "sudo sh -lc 'mkdir -p /var/run/docker.sock'");
    let s = power_next(&mut m, code(1));
    assert!(is_done(&s));
    assert_eq!(statuses(&s), vec!["Engine stopped"]);

    // A block command that cannot run ends the blocking, not the stop.
    let (mut m, _) = EnginePower::drain();
    drained(&mut m);
    power_next(&mut m, code(1));
    power_next(&mut m, code(1));
    power_next(&mut m, code(0));
    power_next(&mut m, code(0));
    let s = power_next(&mut m, PowerEvent::Ran(Err("no sudo".into())));
    assert!(is_done(&s));
    assert_eq!(statuses(&s), vec!["Engine stopped"]);
}

#[test]
fn start_with_systemd_on_wsl_unblocks_first() {
    let (mut m, s) = EnginePower::start();
    assert_eq!(run_of(&s), SYSTEMD_PROBE);
    let s = power_next(&mut m, code(0));
    assert_eq!(run_of(&s), "systemctl --user unmask docker.service docker.socket >/dev/null 2>&1");
    let s = power_next(&mut m, code(1));
    assert_eq!(run_of(&s), "systemctl --user start docker.service docker.socket >/dev/null 2>&1");
    let s = power_next(&mut m, code(1));
    assert_eq!(run_of(&s), WSL_PROBE);
    let s = power_next(&mut m, code(0));
    assert!(run_of(&s).contains("rmdir /var/run/docker.sock"));
    let s = power_next(&mut m, code(0));
    assert!(run_of(&s).contains("mv /var/run/docker.sock.disabled /var/run/docker.sock"));
    let s = power_next(&mut m, code(0));
    assert_eq!(run_of(&s), "sudo systemctl unmask docker.service docker.socket");
    let s = power_next(&mut m, code(0));
    assert_eq!(run_of(&s), "sudo systemctl start docker.service");
    let s = power_next(&mut m, code(1));
    assert!(is_done(&s));
    assert!(s.notes.is_empty());
}

#[test]
fn start_without_systemd_launches_dockerd() {
    let (mut m, _) = EnginePower::start();
    let s = power_next(&mut m, code(1));
    assert_eq!(run_of(&s), WSL_PROBE);
    let s = power_next(&mut m, code(1));
    assert_eq!(run_of(&s), SYSTEMD_PROBE);
    let s = power_next(&mut m, code(1));
    assert_eq!(run_of(&s), "sudo nohup dockerd >/tmp/dockerd.log 2>&1 &");
    let s = power_next(&mut m, code(0));
    assert!(is_done(&s));

    let (mut m, _) = EnginePower::start();
    power_next(&mut m, code(0));
    power_next(&mut m, code(0));
    power_next(&mut m, code(0));
    power_next(&mut m, code(1));
    let s = power_next(&mut m, PowerEvent::Ran(Err("no sudo".into())));
    assert!(is_done(&s));
}

#[test]
fn restart_with_and_without_systemd() {
    let (mut m, s) = EnginePower::restart();
    assert_eq!(run_of(&s), SYSTEMD_PROBE);
    let s = power_next(&mut m, code(0));
    assert_eq!(run_of(&s), "sudo systemctl restart docker");
    let s = power_next(&mut m, code(1));
    assert!(is_done(&s));

    let (mut m, _) = EnginePower::restart();
    let s = power_next(&mut m, code(1));
    assert_eq!(run_of(&s), SYSTEMD_PROBE);
    let s = power_next(&mut m, code(1));
    assert_eq!(run_of(&s), "sudo pkill -f 'dockerd'");
    let s = power_next(&mut m, code(0));
    assert_eq!(run_of(&s), SYSTEMD_PROBE);
    let s = power_next(&mut m, code(1));
    assert_eq!(run_of(&s), "sudo nohup dockerd >/tmp/dockerd.log 2>&1 &");
    let s = power_next(&mut m, code(0));
    assert!(is_done(&s));

    let (mut m, _) = EnginePower::restart();
    power_next(&mut m, code(1));
    power_next(&mut m, code(1));
    let s = power_next(&mut m, code(2));
    assert!(is_done(&s));
    assert!(s.notes.is_empty());
}

#[test]
fn unexpected_event_ends_the_run() {
    let (mut m, _) = EnginePower::start();
    let s = power_next(&mut m, PowerEvent::Listed(Ok(vec![])));
    assert!(is_done(&s));
    let s = power_next(&mut m, code(0));
    assert!(is_done(&s));
}

#[test]
fn status_query_follows_systemd() {
    assert_eq!(systemd_probe_command(), SYSTEMD_PROBE);
    assert_eq!(status_query(&Ok(RunOutput { code: 0, stderr: String::new() })), (true, "systemctl is-active docker"));
    assert_eq!(status_query(&Ok(RunOutput { code: 1, stderr: String::new() })), (false, "pidof dockerd >/dev/null 2>&1"));
    assert_eq!(status_query(&Err("no shell".into())), (false, "pidof dockerd >/dev/null 2>&1"));
    assert_eq!(daemon_state(true, 0, "active\n"), DaemonState::Running);
    assert_eq!(daemon_state(true, 3, "inactive\n"), DaemonState::Stopped);
    assert_eq!(daemon_state(true, 3, "activating"), DaemonState::Starting);
    assert_eq!(daemon_state(false, 0, ""), DaemonState::Running);
    assert_eq!(daemon_state(false, 1, "active"), DaemonState::Stopped);
}

#[test]
fn ready_wait_asks_pauses_and_gives_up() {
    assert!(matches!(wait_next(0, None), WaitAction::Ask(c) if c == "docker info >/dev/null 2>&1"));
    assert!(matches!(wait_next(19_999, None), WaitAction::Ask(_)));
    assert!(matches!(wait_next(READY_TIMEOUT_MS, None), WaitAction::Over(false)));
    assert!(matches!(wait_next(5, Some(Ok(RunOutput { code: 0, stderr: String::new() }))), WaitAction::Over(true)));
    assert!(matches!(wait_next(5, Some(Ok(RunOutput { code: 1, stderr: String::new() }))), WaitAction::Pause(ms) if ms == READY_POLL_MS));
    assert!(matches!(wait_next(25_000, Some(Err("x".into()))), WaitAction::Pause(500)));
}
