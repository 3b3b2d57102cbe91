use dockertui::bootstrap::{BootEvent, BootStep, Bootstrap, RunOutput};

fn ran(code: i32) -> BootEvent {
    BootEvent::Ran(Ok(RunOutput { code, stderr: "err".into() }))
}

fn expect_run(step: BootStep, cmd: &str) {
    match step {
        BootStep::Run(c) => assert_eq!(c, cmd),
        other => panic!("expected {cmd}, got {other:?}"),
    }
}

#[test]
fn ready_engine_needs_no_install_or_start() {
    let (mut b, first) = Bootstrap::new();
    expect_run(first, "command -v docker >/dev/null 2>&1");
    expect_run(b.advance(ran(0)), "command -v dockerd >/dev/null 2>&1");
    expect_run(b.advance(ran(0)), "command -v docker >/dev/null 2>&1");
    expect_run(b.advance(ran(0)), "command -v dockerd >/dev/null 2>&1");
    expect_run(b.advance(ran(0)), "command -v systemctl >/dev/null 2>&1");
    expect_run(b.advance(ran(0)), "pidof systemd >/dev/null 2>&1");
    expect_run(b.advance(ran(0)), "docker info >/dev/null 2>&1");
    assert!(matches!(b.advance(ran(0)), BootStep::WaitForDocker));
    expect_run(b.advance(BootEvent::Waited(true)), "sudo -v");
    expect_run(b.advance(ran(0)), "sudo groupadd docker >/dev/null 2>&1 || true");
    expect_run(b.advance(ran(0)), "id -nG \"$USER\" | tr ' ' '\\n' | grep -qx docker");
    expect_run(b.advance(ran(0)), "docker compose version >/dev/null 2>&1");
    match b.advance(ran(0)) {
        BootStep::Done(r) => {
            assert!(r.docker_installed && r.dockerd_installed && r.started && r.used_systemd);
            assert!(r.notes.is_empty());
        }
        other => panic!("unexpected {other:?}"),
    }
}

#[test]
fn missing_docker_is_installed_then_started_without_systemd() {
    let (mut b, _) = Bootstrap::new();
    b.advance(ran(1));
    expect_run(b.advance(ran(0)), "sudo -v");
    expect_run(b.advance(ran(0)), "curl -fsSL https://get.docker.com | sudo sh");
    expect_run(b.advance(ran(0)), "command -v docker >/dev/null 2>&1");
    b.advance(ran(0));
    b.advance(ran(0));
    expect_run(b.advance(ran(1)), "docker info >/dev/null 2>&1");
    expect_run(b.advance(ran(1)), "sudo -v");
    b.advance(ran(0));
    b.advance(ran(0));
    expect_run(b.advance(ran(0)), "sudo pkill -f 'dockerd' >/dev/null 2>&1 || true");
    expect_run(b.advance(BootEvent::Ran(Err("spawn failed".into()))), "sudo nohup dockerd >/tmp/dockerd.log 2>&1 &");
    assert!(matches!(b.advance(ran(0)), BootStep::WaitForDocker));
    expect_run(b.advance(BootEvent::Waited(false)), "docker compose version >/dev/null 2>&1");
    b.advance(ran(1));
    b.advance(ran(1));
    b.advance(ran(0));
    expect_run(b.advance(ran(0)), "docker compose version >/dev/null 2>&1");
    match b.advance(ran(1)) {
        BootStep::Done(r) => {
            assert!(!r.started && !r.used_systemd);
            assert_eq!(r.notes.len(), 6);
            assert_eq!(r.notes[0], "Installing Docker using get.docker.com convenience script...");
            assert_eq!(r.notes[1], "systemd not detected; starting dockerd in background (nohup)...");
            assert_eq!(r.notes[5], "Compose v2 not detected; compose features may be unavailable.");
        }
        other => panic!("unexpected {other:?}"),
    }
}

#[test]
fn failures_are_reported() {
    let (mut b, _) = Bootstrap::new();
    b.advance(ran(1));
    b.advance(ran(1));
    match b.advance(ran(1)) {
        BootStep::Failed(m) => assert_eq!(m, "sudo authentication failed: err"),
        other => panic!("unexpected {other:?}"),
    }

    let (mut b, _) = Bootstrap::new();
    b.advance(ran(0));
    b.advance(ran(0));
    b.advance(ran(0));
    match b.advance(ran(1)) {
        BootStep::Failed(m) => assert_eq!(
            m,
            "Docker install did not complete successfully (docker_installed=true, dockerd_installed=false)"
        ),
        other => panic!("unexpected {other:?}"),
    }

    let (mut b, _) = Bootstrap::new();
    for _ in 0..5 {
        b.advance(ran(0));
    }
    b.advance(ran(0));
    b.advance(ran(1));
    for _ in 0..3 {
        b.advance(ran(0));
    }
    expect_run(b.advance(ran(0)), "sudo systemctl enable --now docker");
    match b.advance(ran(1)) {
        BootStep::Failed(m) => {
            assert_eq!(m, "Failed to start docker via systemd: err\nTry: sudo systemctl status docker --no-pager")
        }
        other => panic!("unexpected {other:?}"),
    }

    let (mut b, _) = Bootstrap::new();
    match b.advance(BootEvent::Ran(Err("no shell".into()))) {
        BootStep::Failed(m) => assert_eq!(m, "no shell"),
        other => panic!("unexpected {other:?}"),
    }
}

#[test]
fn group_membership_note() {
    let (mut b, _) = Bootstrap::new();
    for _ in 0..7 {
        b.advance(ran(0));
    }
    b.advance(BootEvent::Waited(true));
    b.advance(ran(0));
    b.advance(ran(0));
    expect_run(b.advance(ran(1)), "sudo usermod -aG docker \"$USER\"");
    expect_run(b.advance(ran(1)), "docker compose version >/dev/null 2>&1");
    match b.advance(ran(0)) {
        BootStep::Done(r) => assert_eq!(
            r.notes,
            vec!["Adding current user to docker group (may require new shell / re-login)...".to_string()]
        ),
        other => panic!("unexpected {other:?}"),
    }
}
