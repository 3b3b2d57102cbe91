//! The Docker engine's service state, as the service manager or the process
//! table reports it.

use vstd::prelude::*;
use crate::bootstrap::{succeeded, RunOutput};
use crate::power::systemd_probe;
use crate::text::{chars_of, eq_chars_str, trim, trim_bounds, string_from_range};

verus! {

/// The engine's state as last reported.
#[derive(Debug, Clone, Copy, PartialEq, Eq, Structural)]
pub enum DaemonState {
    Running,
    Stopped,
    Starting,
    Stopping,
    Unknown,
}

/// The state that `systemctl is-active docker` reports by its exit code and output.
pub open spec fn systemctl_state(code: i32, out: Seq<char>) -> DaemonState {
    let t = trim(out);
    if code == 0 && t == "active"@ {
        DaemonState::Running
    } else if t == "inactive"@ || t == "failed"@ {
        DaemonState::Stopped
    } else if t == "activating"@ {
        DaemonState::Starting
    } else if t == "deactivating"@ {
        DaemonState::Stopping
    } else {
        DaemonState::Unknown
    }
}

/// Reads the answer of `systemctl is-active docker`.
pub fn state_from_systemctl(code: i32, out: &str) -> (r: DaemonState)
    ensures
        r == systemctl_state(code, out@),
{
    let v = chars_of(out);
    let (a, b) = trim_bounds(&v);
    let t = chars_of(string_from_range(&v, a, b).as_str());
    if code == 0 && eq_chars_str(&t, "active") {
        DaemonState::Running
    } else if eq_chars_str(&t, "inactive") || eq_chars_str(&t, "failed") {
        DaemonState::Stopped
    } else if eq_chars_str(&t, "activating") {
        DaemonState::Starting
    } else if eq_chars_str(&t, "deactivating") {
        DaemonState::Stopping
    } else {
        DaemonState::Unknown
    }
}

/// Without a service manager, the engine runs exactly when `pidof dockerd` succeeds.
pub fn state_from_pidof(code: i32) -> (r: DaemonState)
    ensures
        r == (if code == 0 { DaemonState::Running } else { DaemonState::Stopped }),
{
    if code == 0 {
        DaemonState::Running
    } else {
        DaemonState::Stopped
    }
}

} // verus!

verus! {

/// An operation on the Docker service.
#[derive(Debug, Clone, Copy, PartialEq, Eq, Structural)]
pub enum ServiceOp {
    Start,
    Stop,
    Restart,
}

/// The command that carries out an operation, and the prefix of the error when
/// it exits with a failure. With systemd the service manager does it; without,
/// `dockerd` is started in the background or killed, and a restart is a stop
/// followed by a start (no single command).
pub open spec fn service_command_of(op: ServiceOp, systemd: bool) -> Option<(Seq<char>, Seq<char>)> {
    if systemd {
        match op {
            ServiceOp::Start => Some(("sudo systemctl start docker"@, "start docker failed: "@)),
            ServiceOp::Stop => Some(("sudo systemctl stop docker"@, "stop docker failed: "@)),
            ServiceOp::Restart => Some(("sudo systemctl restart docker"@, "restart docker failed: "@)),
        }
    } else {
        match op {
            ServiceOp::Start => Some(("sudo nohup dockerd >/tmp/dockerd.log 2>&1 &"@, "start dockerd failed: "@)),
            ServiceOp::Stop => Some(("sudo pkill -f 'dockerd'"@, "stop dockerd failed: "@)),
            ServiceOp::Restart => None,
        }
    }
}

pub fn service_command(op: ServiceOp, systemd: bool) -> (r: Option<(&'static str, &'static str)>)
    ensures
        match r {
            Some((c, p)) => service_command_of(op, systemd) == Some((c@, p@)),
            None => service_command_of(op, systemd) is None,
        },
{
    if systemd {
        match op {
            ServiceOp::Start => Some(("sudo systemctl start docker", "start docker failed: ")),
            ServiceOp::Stop => Some(("sudo systemctl stop docker", "stop docker failed: ")),
            ServiceOp::Restart => Some(("sudo systemctl restart docker", "restart docker failed: ")),
        }
    } else {
        match op {
            ServiceOp::Start => Some(("sudo nohup dockerd >/tmp/dockerd.log 2>&1 &", "start dockerd failed: ")),
            ServiceOp::Stop => Some(("sudo pkill -f 'dockerd'", "stop dockerd failed: ")),
            ServiceOp::Restart => None,
        }
    }
}

/// The error of a service command that exited with a failure: the prefix and its error output.
pub fn service_failure(prefix: &str, stderr: &str) -> (r: String)
    ensures
        r@ == prefix@ + stderr@,
{
    crate::text::concat2(prefix, stderr)
}

} // verus!

verus! {

/// The command that tells whether systemd runs.
pub fn systemd_probe_command() -> (r: &'static str)
    ensures
        r@ == systemd_probe(),
{
    "command -v systemctl >/dev/null 2>&1 && pidof systemd >/dev/null 2>&1"
}

/// The command that asks for the engine's state: the service manager where
/// systemd runs, the process table otherwise.
pub open spec fn status_command_of(systemd: bool) -> Seq<char> {
    if systemd {
        "systemctl is-active docker"@
    } else {
        "pidof dockerd >/dev/null 2>&1"@
    }
}

/// After the systemd probe ran: whether systemd runs (a probe that could not
/// run counts as no), and the command that asks for the engine's state.
pub fn status_query(probe: &Result<RunOutput, String>) -> (r: (bool, &'static str))
    ensures
        r.0 == succeeded(*probe),
        r.1@ == status_command_of(r.0),
{
    let systemd = match probe {
        Ok(o) => o.code == 0,
        Err(_) => false,
    };
    if systemd {
        (true, "systemctl is-active docker")
    } else {
        (false, "pidof dockerd >/dev/null 2>&1")
    }
}

/// The engine's state from the answer to `status_query`'s command.
pub fn daemon_state(systemd: bool, code: i32, out: &str) -> (r: DaemonState)
    ensures
        r == (if systemd {
            systemctl_state(code, out@)
        } else if code == 0 {
            DaemonState::Running
        } else {
            DaemonState::Stopped
        }),
{
    if systemd {
        state_from_systemctl(code, out)
    } else {
        state_from_pidof(code)
    }
}

} // verus!
