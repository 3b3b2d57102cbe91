//! Making sure that Docker is installed and running before the interface
//! starts: a step machine that decides which shell command comes next from the
//! outcome of the last one. The program runs the commands and the wait.

use vstd::prelude::*;
use crate::text::{concat2, concat3, owned};

verus! {

/// What the start-up check found and did.
#[derive(Debug, Clone)]
pub struct BootstrapReport {
    pub docker_installed: bool,
    pub dockerd_installed: bool,
    pub started: bool,
    pub used_systemd: bool,
    pub notes: Vec<String>,
}

/// The command whose outcome the machine waits for, or the wait for the engine.
#[derive(Debug, Clone, Copy, PartialEq, Eq, Structural)]
pub enum BootPhase {
    CheckDocker,
    CheckDockerd,
    InstallSudo,
    InstallRun,
    RecheckDocker,
    RecheckDockerd,
    CheckSystemctl,
    CheckSystemdPid,
    CheckReady,
    StartSudo,
    StartUnblockDir,
    StartUnblockSocket,
    StartPrepare,
    StartLaunch,
    Waiting,
    GroupSudo,
    GroupAdd,
    GroupCheck,
    GroupAddUser,
    ComposeCheck,
    ComposeSudo,
    ComposeUpdate,
    ComposeInstall,
    ComposeRecheck,
    Finished,
}

/// How a shell command ended: its exit code and error output, or why it could not run.
#[derive(Debug, Clone)]
pub struct RunOutput {
    pub code: i32,
    pub stderr: String,
}

/// What the program reports back to the machine.
#[derive(Debug)]
pub enum BootEvent {
    /// The last command ran (`Ok`) or could not be run (`Err`, with the reason).
    Ran(Result<RunOutput, String>),
    /// The wait for the engine ended; `true` when it answered in time.
    Waited(bool),
}

/// What the program must do next.
#[derive(Debug, Clone)]
pub enum BootStep {
    /// Run this command with `sh -lc` and report how it ended.
    Run(String),
    /// Wait for `docker info` to succeed, as `wait_next` directs, and report whether it did.
    WaitForDocker,
    /// Docker is installed; here is what was found and done.
    Done(BootstrapReport),
    /// Docker could not be made ready, for this reason.
    Failed(String),
}

/// The start-up check in progress.
pub struct Bootstrap {
    phase: BootPhase,
    docker_installed: bool,
    dockerd_installed: bool,
    used_systemd: bool,
    started: bool,
    notes: Vec<String>,
}

/// The command run in each phase.
pub open spec fn phase_command(p: BootPhase, systemd: bool) -> Seq<char> {
    match p {
        BootPhase::CheckDocker => "command -v docker >/dev/null 2>&1"@,
        BootPhase::CheckDockerd => "command -v dockerd >/dev/null 2>&1"@,
        BootPhase::InstallSudo => "sudo -v"@,
        BootPhase::InstallRun => "curl -fsSL https://get.docker.com | sudo sh"@,
        BootPhase::RecheckDocker => "command -v docker >/dev/null 2>&1"@,
        BootPhase::RecheckDockerd => "command -v dockerd >/dev/null 2>&1"@,
        BootPhase::CheckSystemctl => "command -v systemctl >/dev/null 2>&1"@,
        BootPhase::CheckSystemdPid => "pidof systemd >/dev/null 2>&1"@,
        BootPhase::CheckReady => "docker info >/dev/null 2>&1"@,
        BootPhase::StartSudo => "sudo -v"@,
        BootPhase::StartUnblockDir => "sudo sh -lc 'if [ -d /var/run/docker.sock ]; then rmdir /var/run/docker.sock 2>/dev/null || true; fi'"@,
        BootPhase::StartUnblockSocket => "sudo sh -lc 'if [ -e /var/run/docker.sock.disabled ]; then mv /var/run/docker.sock.disabled /var/run/docker.sock 2>/dev/null || true; fi'"@,
        BootPhase::StartPrepare => if systemd {
            "sudo systemctl unmask docker.service docker.socket"@
        } else {
            "sudo pkill -f 'dockerd' >/dev/null 2>&1 || true"@
        },
        BootPhase::StartLaunch => if systemd {
            "sudo systemctl enable --now docker"@
        } else {
            "sudo nohup dockerd >/tmp/dockerd.log 2>&1 &"@
        },
        BootPhase::GroupSudo => "sudo -v"@,
        BootPhase::GroupAdd => "sudo groupadd docker >/dev/null 2>&1 || true"@,
        BootPhase::GroupCheck => "id -nG \"$USER\" | tr ' ' '\\n' | grep -qx docker"@,
        BootPhase::GroupAddUser => "sudo usermod -aG docker \"$USER\""@,
        BootPhase::ComposeCheck => "docker compose version >/dev/null 2>&1"@,
        BootPhase::ComposeSudo => "sudo -v"@,
        BootPhase::ComposeUpdate => "sudo apt-get update >/dev/null 2>&1 || true"@,
        BootPhase::ComposeInstall => "sudo apt-get install -y docker-compose-plugin >/dev/null 2>&1 || true"@,
        BootPhase::ComposeRecheck => "docker compose version >/dev/null 2>&1"@,
        _ => Seq::empty(),
    }
}

fn command_of(p: BootPhase, systemd: bool) -> (r: String)
    ensures
        r@ == phase_command(p, systemd),
{
    match p {
        BootPhase::CheckDocker => owned("command -v docker >/dev/null 2>&1"),
        BootPhase::CheckDockerd => owned("command -v dockerd >/dev/null 2>&1"),
        BootPhase::InstallSudo => owned("sudo -v"),
        BootPhase::InstallRun => owned("curl -fsSL https://get.docker.com | sudo sh"),
        BootPhase::RecheckDocker => owned("command -v docker >/dev/null 2>&1"),
        BootPhase::RecheckDockerd => owned("command -v dockerd >/dev/null 2>&1"),
        BootPhase::CheckSystemctl => owned("command -v systemctl >/dev/null 2>&1"),
        BootPhase::CheckSystemdPid => owned("pidof systemd >/dev/null 2>&1"),
        BootPhase::CheckReady => owned("docker info >/dev/null 2>&1"),
        BootPhase::StartSudo => owned("sudo -v"),
        BootPhase::StartUnblockDir => owned("sudo sh -lc 'if [ -d /var/run/docker.sock ]; then rmdir /var/run/docker.sock 2>/dev/null || true; fi'"),
        BootPhase::StartUnblockSocket => owned("sudo sh -lc 'if [ -e /var/run/docker.sock.disabled ]; then mv /var/run/docker.sock.disabled /var/run/docker.sock 2>/dev/null || true; fi'"),
        BootPhase::StartPrepare => if systemd {
            owned("sudo systemctl unmask docker.service docker.socket")
        } else {
            owned("sudo pkill -f 'dockerd' >/dev/null 2>&1 || true")
        },
        BootPhase::StartLaunch => if systemd {
            owned("sudo systemctl enable --now docker")
        } else {
            owned("sudo nohup dockerd >/tmp/dockerd.log 2>&1 &")
        },
        BootPhase::GroupSudo => owned("sudo -v"),
        BootPhase::GroupAdd => owned("sudo groupadd docker >/dev/null 2>&1 || true"),
        BootPhase::GroupCheck => owned("id -nG \"$USER\" | tr ' ' '\\n' | grep -qx docker"),
        BootPhase::GroupAddUser => owned("sudo usermod -aG docker \"$USER\""),
        BootPhase::ComposeCheck => owned("docker compose version >/dev/null 2>&1"),
        BootPhase::ComposeSudo => owned("sudo -v"),
        BootPhase::ComposeUpdate => owned("sudo apt-get update >/dev/null 2>&1 || true"),
        BootPhase::ComposeInstall => owned("sudo apt-get install -y docker-compose-plugin >/dev/null 2>&1 || true"),
        BootPhase::ComposeRecheck => owned("docker compose version >/dev/null 2>&1"),
        _ => String::new(),
    }
}

/// The machine as a value: phase, findings and notes.
pub struct BootView {
    pub phase: BootPhase,
    pub docker_installed: bool,
    pub dockerd_installed: bool,
    pub used_systemd: bool,
    pub started: bool,
    pub notes: Seq<Seq<char>>,
}

/// What the machine asks for, as a value.
pub enum BootAsk {
    Run(Seq<char>),
    Wait,
    Done,
    Failed(Seq<char>),
}

/// Whether a command ran and exited with code 0.
pub open spec fn succeeded(r: Result<RunOutput, String>) -> bool {
    r matches Ok(o) && o.code == 0
}

/// The machine moved to phase `p`, whose command it asks to run.
pub open spec fn go(v: BootView, p: BootPhase) -> (BootView, BootAsk) {
    (BootView { phase: p, ..v }, BootAsk::Run(phase_command(p, v.used_systemd)))
}

pub open spec fn bool_text(b: bool) -> Seq<char> {
    if b { "true"@ } else { "false"@ }
}

/// The step after the outcome of the command of the current phase.
pub open spec fn after_run(v: BootView, r: Result<RunOutput, String>) -> (BootView, BootAsk) {
    let ok = succeeded(r);
    match v.phase {
        BootPhase::CheckDocker => match r {
            Err(e) => (v, BootAsk::Failed(e@)),
            Ok(_) => go(BootView { docker_installed: ok, ..v }, BootPhase::CheckDockerd),
        },
        BootPhase::CheckDockerd => match r {
            Err(e) => (v, BootAsk::Failed(e@)),
            Ok(_) => if !v.docker_installed || !ok {
                go(BootView { dockerd_installed: ok, ..v }, BootPhase::InstallSudo)
            } else {
                go(BootView { dockerd_installed: ok, ..v }, BootPhase::RecheckDocker)
            },
        },
        BootPhase::InstallSudo => match r {
            Err(e) => (v, BootAsk::Failed(e@)),
            Ok(o) => if o.code != 0 {
                (v, BootAsk::Failed("sudo authentication failed: "@ + o.stderr@))
            } else {
                go(
                    BootView {
                        notes: v.notes.push("Installing Docker using get.docker.com convenience script..."@),
                        ..v
                    },
                    BootPhase::InstallRun,
                )
            },
        },
        BootPhase::InstallRun => match r {
            Err(e) => (v, BootAsk::Failed(e@)),
            Ok(o) => if o.code != 0 {
                (v, BootAsk::Failed("Docker install failed: "@ + o.stderr@))
            } else {
                go(v, BootPhase::RecheckDocker)
            },
        },
        BootPhase::RecheckDocker => match r {
            Err(e) => (v, BootAsk::Failed(e@)),
            Ok(_) => go(BootView { docker_installed: ok, ..v }, BootPhase::RecheckDockerd),
        },
        BootPhase::RecheckDockerd => match r {
            Err(e) => (v, BootAsk::Failed(e@)),
            Ok(_) => if !v.docker_installed || !ok {
                (
                    BootView { dockerd_installed: ok, ..v },
                    BootAsk::Failed(
                        "Docker install did not complete successfully (docker_installed="@
                            + bool_text(v.docker_installed) + ", dockerd_installed="@
                            + bool_text(ok) + ")"@,
                    ),
                )
            } else {
                go(BootView { dockerd_installed: ok, ..v }, BootPhase::CheckSystemctl)
            },
        },
        BootPhase::CheckSystemctl => match r {
            Err(e) => (v, BootAsk::Failed(e@)),
            Ok(_) => if !ok {
                go(BootView { used_systemd: false, ..v }, BootPhase::CheckReady)
            } else {
                go(v, BootPhase::CheckSystemdPid)
            },
        },
        BootPhase::CheckSystemdPid => match r {
            Err(e) => (v, BootAsk::Failed(e@)),
            Ok(_) => go(BootView { used_systemd: ok, ..v }, BootPhase::CheckReady),
        },
        BootPhase::CheckReady => if ok {
            (BootView { phase: BootPhase::Waiting, ..v }, BootAsk::Wait)
        } else {
            go(v, BootPhase::StartSudo)
        },
        BootPhase::StartSudo => match r {
            Err(e) => (v, BootAsk::Failed(e@)),
            Ok(o) => if o.code != 0 {
                (v, BootAsk::Failed("sudo authentication failed: "@ + o.stderr@))
            } else {
                go(
                    BootView {
                        notes: v.notes.push(
                            if v.used_systemd {
                                "Starting Docker via systemd..."@
                            } else {
                                "systemd not detected; starting dockerd in background (nohup)..."@
                            },
                        ),
                        ..v
                    },
                    BootPhase::StartUnblockDir,
                )
            },
        },
        BootPhase::StartUnblockDir => match r {
            Err(e) => (v, BootAsk::Failed(e@)),
            Ok(_) => go(v, BootPhase::StartUnblockSocket),
        },
        BootPhase::StartUnblockSocket => match r {
            Err(e) => (v, BootAsk::Failed(e@)),
            Ok(_) => go(v, BootPhase::StartPrepare),
        },
        BootPhase::StartPrepare => match r {
            Err(e) => if v.used_systemd {
                (v, BootAsk::Failed(e@))
            } else {
                go(v, BootPhase::StartLaunch)
            },
            Ok(_) => go(v, BootPhase::StartLaunch),
        },
        BootPhase::StartLaunch => match r {
            Err(e) => (v, BootAsk::Failed(e@)),
            Ok(o) => if o.code != 0 {
                (
                    v,
                    BootAsk::Failed(
                        if v.used_systemd {
                            "Failed to start docker via systemd: "@ + o.stderr@
                                + "\nTry: sudo systemctl status docker --no-pager"@
                        } else {
                            "Failed to start dockerd (nohup): "@ + o.stderr@
                        },
                    ),
                )
            } else {
                (BootView { phase: BootPhase::Waiting, ..v }, BootAsk::Wait)
            },
        },
        BootPhase::GroupSudo => if ok {
            go(v, BootPhase::GroupAdd)
        } else {
            go(v, BootPhase::ComposeCheck)
        },
        BootPhase::GroupAdd => go(v, BootPhase::GroupCheck),
        BootPhase::GroupCheck => match r {
            Err(_) => go(v, BootPhase::ComposeCheck),
            Ok(o) => if o.code == 0 {
                go(v, BootPhase::ComposeCheck)
            } else {
                go(
                    BootView {
                        notes: v.notes.push(
                            "Adding current user to docker group (may require new shell / re-login)..."@,
                        ),
                        ..v
                    },
                    BootPhase::GroupAddUser,
                )
            },
        },
        BootPhase::GroupAddUser => go(v, BootPhase::ComposeCheck),
        BootPhase::ComposeCheck => if ok {
            (BootView { phase: BootPhase::Finished, ..v }, BootAsk::Done)
        } else {
            go(v, BootPhase::ComposeSudo)
        },
        BootPhase::ComposeSudo => go(v, BootPhase::ComposeUpdate),
        BootPhase::ComposeUpdate => go(v, BootPhase::ComposeInstall),
        BootPhase::ComposeInstall => go(v, BootPhase::ComposeRecheck),
        BootPhase::ComposeRecheck => (
            BootView {
                phase: BootPhase::Finished,
                notes: v.notes.push(
                    if ok {
                        "Installed docker-compose-plugin (Compose v2)."@
                    } else {
                        "Compose v2 not detected; compose features may be unavailable."@
                    },
                ),
                ..v
            },
            BootAsk::Done,
        ),
        _ => (v, BootAsk::Failed("bootstrap already finished"@)),
    }
}

/// The step after the wait for the engine ended.
pub open spec fn after_wait(v: BootView, started: bool) -> (BootView, BootAsk) {
    if v.phase != BootPhase::Waiting {
        (v, BootAsk::Failed("bootstrap is not waiting"@))
    } else if started {
        go(BootView { started: true, ..v }, BootPhase::GroupSudo)
    } else {
        go(
            BootView {
                started: false,
                notes: v.notes.push("Docker did not become ready within timeout."@).push(
                    "If systemd is disabled in WSL, consider enabling it in /etc/wsl.conf and restarting WSL."@,
                ).push("If using nohup mode, check: /tmp/dockerd.log"@),
                ..v
            },
            BootPhase::ComposeCheck,
        )
    }
}

/// The step after an event.
pub open spec fn boot_next(v: BootView, ev: BootEvent) -> (BootView, BootAsk) {
    match ev {
        BootEvent::Ran(r) => if v.phase == BootPhase::Waiting {
            (v, BootAsk::Failed("bootstrap is waiting for the engine"@))
        } else {
            after_run(v, r)
        },
        BootEvent::Waited(s) => after_wait(v, s),
    }
}

} // verus!

verus! {

impl Bootstrap {
    pub closed spec fn view(&self) -> BootView {
        BootView {
            phase: self.phase,
            docker_installed: self.docker_installed,
            dockerd_installed: self.dockerd_installed,
            used_systemd: self.used_systemd,
            started: self.started,
            notes: crate::text::strings_view(self.notes@),
        }
    }

    /// A check about to run its first command.
    pub fn new() -> (r: (Bootstrap, BootStep))
        ensures
            r.0.view() == (BootView {
                phase: BootPhase::CheckDocker,
                docker_installed: false,
                dockerd_installed: false,
                used_systemd: false,
                started: false,
                notes: Seq::empty(),
            }),
            r.1 matches BootStep::Run(c) && c@ == phase_command(BootPhase::CheckDocker, false),
    {
        let b = Bootstrap {
            phase: BootPhase::CheckDocker,
            docker_installed: false,
            dockerd_installed: false,
            used_systemd: false,
            started: false,
            notes: Vec::new(),
        };
        assert(crate::text::strings_view(b.notes@) =~= Seq::<Seq<char>>::empty());
        (b, BootStep::Run(command_of(BootPhase::CheckDocker, false)))
    }

    fn go(&mut self, p: BootPhase) -> (r: BootStep)
        ensures
            final(self).view() == go(old(self).view(), p).0,
            r matches BootStep::Run(c) && c@ == phase_command(p, old(self).used_systemd),
    {
        self.phase = p;
        BootStep::Run(command_of(p, self.used_systemd))
    }

    fn note(&mut self, text: &str)
        ensures
            final(self).view() == (BootView { notes: old(self).view().notes.push(text@), ..old(self).view() }),
    {
        let ghost before = crate::text::strings_view(self.notes@);
        self.notes.push(owned(text));
        assert(crate::text::strings_view(self.notes@) =~= before.push(text@));
    }

    fn report(&self) -> (r: BootstrapReport)
        ensures
            r.docker_installed == self.view().docker_installed,
            r.dockerd_installed == self.view().dockerd_installed,
            r.started == self.view().started,
            r.used_systemd == self.view().used_systemd,
            crate::text::strings_view(r.notes@) == self.view().notes,
    {
        let mut notes: Vec<String> = Vec::new();
        let mut i: usize = 0;
        while i < self.notes.len()
            invariant
                i <= self.notes.len(),
                crate::text::strings_view(notes@) == crate::text::strings_view(self.notes@).take(i as int),
            decreases self.notes.len() - i,
        {
            let ghost before = crate::text::strings_view(notes@);
            notes.push(self.notes[i].clone());
            assert(crate::text::strings_view(notes@) =~= before.push(self.notes@[i as int]@));
            i = i + 1;
            assert(crate::text::strings_view(self.notes@).take(i as int) =~= before.push(
                self.notes@[i - 1]@,
            ));
        }
        assert(crate::text::strings_view(self.notes@).take(i as int) =~= crate::text::strings_view(
            self.notes@,
        ));
        BootstrapReport {
            docker_installed: self.docker_installed,
            dockerd_installed: self.dockerd_installed,
            started: self.started,
            used_systemd: self.used_systemd,
            notes,
        }
    }
}

/// Whether the step that the program gets is the one the machine asks for,
/// with a report that tells what the machine found.
pub open spec fn step_matches(step: BootStep, ask: BootAsk, v: BootView) -> bool {
    match ask {
        BootAsk::Run(c) => step matches BootStep::Run(x) && x@ == c,
        BootAsk::Wait => step is WaitForDocker,
        BootAsk::Failed(m) => step matches BootStep::Failed(x) && x@ == m,
        BootAsk::Done => step matches BootStep::Done(rep) && rep.docker_installed == v.docker_installed
            && rep.dockerd_installed == v.dockerd_installed && rep.started == v.started
            && rep.used_systemd == v.used_systemd && crate::text::strings_view(rep.notes@) == v.notes,
    }
}

fn code_ok(r: &Result<RunOutput, String>) -> (b: bool)
    ensures
        b == succeeded(*r),
{
    match r {
        Ok(o) => o.code == 0,
        Err(_) => false,
    }
}

fn failed_with(r: &Result<RunOutput, String>) -> (m: Option<String>)
    ensures
        match *r {
            Err(e) => m matches Some(x) && x == e,
            Ok(_) => m is None,
        },
{
    match r {
        Err(e) => Some(e.clone()),
        Ok(_) => None,
    }
}

fn bool_string(b: bool) -> (r: &'static str)
    ensures
        r@ == bool_text(b),
{
    if b { "true" } else { "false" }
}

impl Bootstrap {
    /// Takes the outcome of the last step and gives the next one.
    pub fn advance(&mut self, ev: BootEvent) -> (r: BootStep)
        ensures
            final(self).view() == boot_next(old(self).view(), ev).0,
            step_matches(r, boot_next(old(self).view(), ev).1, final(self).view()),
    {
        match ev {
            BootEvent::Waited(started) => {
                if self.phase != BootPhase::Waiting {
                    return BootStep::Failed(owned("bootstrap is not waiting"));
                }
                if started {
                    self.started = true;
                    self.go(BootPhase::GroupSudo)
                } else {
                    self.started = false;
                    self.note("Docker did not become ready within timeout.");
                    self.note(
                        "If systemd is disabled in WSL, consider enabling it in /etc/wsl.conf and restarting WSL.",
                    );
                    self.note("If using nohup mode, check: /tmp/dockerd.log");
                    self.go(BootPhase::ComposeCheck)
                }
            },
            BootEvent::Ran(r) => {
                if self.phase == BootPhase::Waiting {
                    return BootStep::Failed(owned("bootstrap is waiting for the engine"));
                }
                self.after_run(r)
            },
        }
    }

    fn after_run(&mut self, r: Result<RunOutput, String>) -> (step: BootStep)
        requires
            old(self).view().phase != BootPhase::Waiting,
        ensures
            final(self).view() == after_run(old(self).view(), r).0,
            step_matches(step, after_run(old(self).view(), r).1, final(self).view()),
    {
        let ok = code_ok(&r);
        let err = failed_with(&r);
        let stderr = match &r {
            Ok(o) => o.stderr.clone(),
            Err(_) => String::new(),
        };
        let code_nonzero = match &r {
            Ok(o) => o.code != 0,
            Err(_) => false,
        };
        match self.phase {
            BootPhase::CheckDocker => {
                if let Some(e) = err {
                    return BootStep::Failed(e);
                }
                self.docker_installed = ok;
                self.go(BootPhase::CheckDockerd)
            },
            BootPhase::CheckDockerd => {
                if let Some(e) = err {
                    return BootStep::Failed(e);
                }
                self.dockerd_installed = ok;
                if !self.docker_installed || !ok {
                    self.go(BootPhase::InstallSudo)
                } else {
                    self.go(BootPhase::RecheckDocker)
                }
            },
            BootPhase::InstallSudo => {
                if let Some(e) = err {
                    return BootStep::Failed(e);
                }
                if code_nonzero {
                    return BootStep::Failed(concat2("sudo authentication failed: ", stderr.as_str()));
                }
                self.note("Installing Docker using get.docker.com convenience script...");
                self.go(BootPhase::InstallRun)
            },
            BootPhase::InstallRun => {
                if let Some(e) = err {
                    return BootStep::Failed(e);
                }
                if code_nonzero {
                    return BootStep::Failed(concat2("Docker install failed: ", stderr.as_str()));
                }
                self.go(BootPhase::RecheckDocker)
            },
            BootPhase::RecheckDocker => {
                if let Some(e) = err {
                    return BootStep::Failed(e);
                }
                self.docker_installed = ok;
                self.go(BootPhase::RecheckDockerd)
            },
            BootPhase::RecheckDockerd => {
                if let Some(e) = err {
                    return BootStep::Failed(e);
                }
                self.dockerd_installed = ok;
                if !self.docker_installed || !ok {
                    let head = concat3(
                        "Docker install did not complete successfully (docker_installed=",
                        bool_string(self.docker_installed),
                        ", dockerd_installed=",
                    );
                    return BootStep::Failed(concat3(head.as_str(), bool_string(ok), ")"));
                }
                self.go(BootPhase::CheckSystemctl)
            },
            BootPhase::CheckSystemctl => {
                if let Some(e) = err {
                    return BootStep::Failed(e);
                }
                if !ok {
                    self.used_systemd = false;
                    self.go(BootPhase::CheckReady)
                } else {
                    self.go(BootPhase::CheckSystemdPid)
                }
            },
            BootPhase::CheckSystemdPid => {
                if let Some(e) = err {
                    return BootStep::Failed(e);
                }
                self.used_systemd = ok;
                self.go(BootPhase::CheckReady)
            },
            BootPhase::CheckReady => {
                if ok {
                    self.phase = BootPhase::Waiting;
                    BootStep::WaitForDocker
                } else {
                    self.go(BootPhase::StartSudo)
                }
            },
            BootPhase::StartSudo => {
                if let Some(e) = err {
                    return BootStep::Failed(e);
                }
                if code_nonzero {
                    return BootStep::Failed(concat2("sudo authentication failed: ", stderr.as_str()));
                }
                if self.used_systemd {
                    self.note("Starting Docker via systemd...");
                } else {
                    self.note("systemd not detected; starting dockerd in background (nohup)...");
                }
                self.go(BootPhase::StartUnblockDir)
            },
            BootPhase::StartUnblockDir => {
                if let Some(e) = err {
                    return BootStep::Failed(e);
                }
                self.go(BootPhase::StartUnblockSocket)
            },
            BootPhase::StartUnblockSocket => {
                if let Some(e) = err {
                    return BootStep::Failed(e);
                }
                self.go(BootPhase::StartPrepare)
            },
            BootPhase::StartPrepare => {
                if let Some(e) = err {
                    if self.used_systemd {
                        return BootStep::Failed(e);
                    }
                }
                self.go(BootPhase::StartLaunch)
            },
            BootPhase::StartLaunch => {
                if let Some(e) = err {
                    return BootStep::Failed(e);
                }
                if code_nonzero {
                    if self.used_systemd {
                        return BootStep::Failed(
                            concat3(
                                "Failed to start docker via systemd: ",
                                stderr.as_str(),
                                "\nTry: sudo systemctl status docker --no-pager",
                            ),
                        );
                    } else {
                        return BootStep::Failed(concat2("Failed to start dockerd (nohup): ", stderr.as_str()));
                    }
                }
                self.phase = BootPhase::Waiting;
                BootStep::WaitForDocker
            },
            BootPhase::GroupSudo => {
                if ok {
                    self.go(BootPhase::GroupAdd)
                } else {
                    self.go(BootPhase::ComposeCheck)
                }
            },
            BootPhase::GroupAdd => self.go(BootPhase::GroupCheck),
            BootPhase::GroupCheck => {
                if err.is_some() || ok {
                    self.go(BootPhase::ComposeCheck)
                } else {
                    self.note("Adding current user to docker group (may require new shell / re-login)...");
                    self.go(BootPhase::GroupAddUser)
                }
            },
            BootPhase::GroupAddUser => self.go(BootPhase::ComposeCheck),
            BootPhase::ComposeCheck => {
                if ok {
                    self.phase = BootPhase::Finished;
                    BootStep::Done(self.report())
                } else {
                    self.go(BootPhase::ComposeSudo)
                }
            },
            BootPhase::ComposeSudo => self.go(BootPhase::ComposeUpdate),
            BootPhase::ComposeUpdate => self.go(BootPhase::ComposeInstall),
            BootPhase::ComposeInstall => self.go(BootPhase::ComposeRecheck),
            BootPhase::ComposeRecheck => {
                if ok {
                    self.note("Installed docker-compose-plugin (Compose v2).");
                } else {
                    self.note("Compose v2 not detected; compose features may be unavailable.");
                }
                self.phase = BootPhase::Finished;
                BootStep::Done(self.report())
            },
            _ => BootStep::Failed(owned("bootstrap already finished")),
        }
    }
}

} // verus!

verus! {

/// Past the install checks, both `docker` and `dockerd` were found.
pub open spec fn boot_inv(v: BootView) -> bool {
    match v.phase {
        BootPhase::CheckDocker | BootPhase::CheckDockerd | BootPhase::InstallSudo
        | BootPhase::InstallRun | BootPhase::RecheckDocker | BootPhase::RecheckDockerd => true,
        _ => v.docker_installed && v.dockerd_installed,
    }
}

/// A check that ends with a report has found both `docker` and `dockerd`:
/// bootstrap fails rather than report a missing engine. The invariant holds
/// from the start and across every step.
pub proof fn law_report_means_installed(v: BootView, ev: BootEvent)
    requires
        boot_inv(v),
    ensures
        boot_inv(boot_next(v, ev).0),
        boot_next(v, ev).1 is Done ==> boot_next(v, ev).0.docker_installed && boot_next(
            v,
            ev,
        ).0.dockerd_installed,
{
}

/// Systemd counts as used exactly when `systemctl` exists and `pidof systemd`
/// succeeds: a failed `systemctl` check means no systemd, and after the
/// `pidof systemd` check systemd is used exactly when it succeeded. Either way
/// the engine's readiness is asked next.
pub proof fn law_systemd_detection(v: BootView, o: RunOutput)
    ensures
        v.phase == BootPhase::CheckSystemctl && o.code != 0 ==> {
            let (w, a) = boot_next(v, BootEvent::Ran(Ok(o)));
            !w.used_systemd && a == BootAsk::Run("docker info >/dev/null 2>&1"@)
        },
        v.phase == BootPhase::CheckSystemctl && o.code == 0 ==> boot_next(v, BootEvent::Ran(Ok(o))).1
            == BootAsk::Run("pidof systemd >/dev/null 2>&1"@),
        v.phase == BootPhase::CheckSystemdPid ==> {
            let (w, a) = boot_next(v, BootEvent::Ran(Ok(o)));
            w.used_systemd == (o.code == 0) && a == BootAsk::Run("docker info >/dev/null 2>&1"@)
        },
{
}

/// Whether systemd is used is decided by the systemd checks alone: every
/// other step keeps it.
pub proof fn law_systemd_kept_after_detection(v: BootView, ev: BootEvent)
    requires
        v.phase != BootPhase::CheckSystemctl,
        v.phase != BootPhase::CheckSystemdPid,
    ensures
        boot_next(v, ev).0.used_systemd == v.used_systemd,
{
}

/// How the engine is started follows from whether systemd is used: with it,
/// the note says so, the service is unmasked and then enabled and started;
/// without it, the note says `dockerd` goes to the background, any running
/// `dockerd` is killed and a new one started with `nohup`.
pub proof fn law_start_follows_systemd(v: BootView, o: RunOutput)
    requires
        o.code == 0,
    ensures
        v.phase == BootPhase::StartSudo ==> {
            let w = boot_next(v, BootEvent::Ran(Ok(o))).0;
            w.notes == v.notes.push(
                if v.used_systemd {
                    "Starting Docker via systemd..."@
                } else {
                    "systemd not detected; starting dockerd in background (nohup)..."@
                },
            )
        },
        v.phase == BootPhase::StartUnblockSocket ==> boot_next(v, BootEvent::Ran(Ok(o))).1 == BootAsk::Run(
            if v.used_systemd {
                "sudo systemctl unmask docker.service docker.socket"@
            } else {
                "sudo pkill -f 'dockerd' >/dev/null 2>&1 || true"@
            },
        ),
        v.phase == BootPhase::StartPrepare ==> boot_next(v, BootEvent::Ran(Ok(o))).1 == BootAsk::Run(
            if v.used_systemd {
                "sudo systemctl enable --now docker"@
            } else {
                "sudo nohup dockerd >/tmp/dockerd.log 2>&1 &"@
            },
        ),
{
}

/// Notes are only ever added, never removed or changed.
pub proof fn law_notes_only_grow(v: BootView, ev: BootEvent)
    ensures
        v.notes.len() <= boot_next(v, ev).0.notes.len(),
        boot_next(v, ev).0.notes.take(v.notes.len() as int) == v.notes,
{
    assert(v.notes.take(v.notes.len() as int) =~= v.notes);
    let n = boot_next(v, ev).0.notes;
    if n.len() == v.notes.len() + 1 {
        assert(n.take(v.notes.len() as int) =~= v.notes);
    } else if n.len() == v.notes.len() + 3 {
        assert(n.take(v.notes.len() as int) =~= v.notes);
    }
}

} // verus!

verus! {

/// How long the check waits for the engine to answer, in milliseconds.
pub const READY_TIMEOUT_MS: u64 = 20000;

/// How long it pauses between two questions, in milliseconds.
pub const READY_POLL_MS: u64 = 500;

/// The next move of the wait for the engine.
#[derive(Debug, Clone)]
pub enum WaitAction {
    /// Run this command with `sh -lc`; the engine answers when it succeeds.
    Ask(String),
    /// Pause this many milliseconds, then decide again.
    Pause(u64),
    /// The wait is over; `true` when the engine answered in time.
    Over(bool),
}

/// The next move of the wait for the engine, `elapsed_ms` after it began.
/// `answer` is how the last question ended, `None` when none is pending:
/// before the deadline a question is asked; an answer that succeeded ends the
/// wait, any other pauses before the next question; at the deadline it ends
/// unanswered.
pub fn wait_next(elapsed_ms: u64, answer: Option<Result<RunOutput, String>>) -> (r: WaitAction)
    ensures
        match answer {
            None => if elapsed_ms < READY_TIMEOUT_MS {
                r matches WaitAction::Ask(c) && c@ == phase_command(BootPhase::CheckReady, false)
            } else {
                r matches WaitAction::Over(false)
            },
            Some(a) => if succeeded(a) {
                r matches WaitAction::Over(true)
            } else {
                r matches WaitAction::Pause(ms) && ms == READY_POLL_MS
            },
        },
{
    match answer {
        None => if elapsed_ms < READY_TIMEOUT_MS {
            WaitAction::Ask(command_of(BootPhase::CheckReady, false))
        } else {
            WaitAction::Over(false)
        },
        Some(a) => {
            let ok = match &a {
                Ok(o) => o.code == 0,
                Err(_) => false,
            };
            if ok {
                WaitAction::Over(true)
            } else {
                WaitAction::Pause(READY_POLL_MS)
            }
        },
    }
}

} // verus!
