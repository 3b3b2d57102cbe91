//! Stopping, starting and restarting the Docker engine: a step machine that
//! decides which container to stop or which shell command to run next from
//! the outcome of the last call. The program makes the calls and runs the
//! commands, and hands each outcome back.
//!
//! Stopping drains the engine first: it stops every running container, lists
//! the containers again, and then stops the service for good (stopped and
//! masked under systemd, so that socket activation cannot bring it back; on
//! WSL the proxy socket is also put out of the way). Starting undoes that in
//! the mirror order: the socket comes back first, then the service is
//! unmasked and started.

use vstd::prelude::*;
use crate::app::{
    bulk_target_ids, bulk_targets, engine_stop_error, engine_stop_error_text, engine_stop_failed,
    BulkOp, EngineStopStage,
};
use crate::bootstrap::{succeeded, RunOutput};
use crate::daemon::{service_command, service_command_of, service_failure, ServiceOp};
use crate::engine::CallError;
use crate::models::ContainerRow;
use crate::text::{owned, strings_view};

verus! {

/// Which of the three operations the machine carries out.
#[derive(Debug, Clone, Copy, PartialEq, Eq, Structural)]
pub enum PowerFlow {
    /// Stop the running containers, then stop the engine for good.
    Drain,
    /// Bring a stopped engine back.
    Start,
    /// Restart the engine's service.
    Restart,
}

/// The call or command whose outcome the machine waits for.
#[derive(Debug, Clone, Copy, PartialEq, Eq, Structural)]
pub enum PowerPhase {
    /// The list of containers to stop.
    Listing,
    /// The stop of one running container.
    StoppingContainers,
    /// The list of containers after they were stopped.
    Relisting,
    /// Whether systemd runs, before the engine is stopped.
    HardProbeSystemd,
    /// Stopping the rootless user service.
    HardUserStop,
    /// Masking the rootless user service.
    HardUserMask,
    /// Stopping the system service and its socket.
    HardSudoStop,
    /// Masking the system service and its socket.
    HardSudoMask,
    /// Whether this is WSL, after the engine stopped.
    HardProbeWsl,
    /// Unmounting a proxy socket mounted over the engine's socket.
    BlockUnmount,
    /// Moving the socket aside.
    BlockMove,
    /// Removing what is left at the socket's path.
    BlockRemove,
    /// Putting a directory at the socket's path.
    BlockDir,
    /// Whether systemd runs, before the engine is started.
    StartProbeSystemd,
    /// Unmasking the rootless user service.
    StartUserUnmask,
    /// Starting the rootless user service.
    StartUserStart,
    /// Whether this is WSL, before the engine is started.
    StartProbeWsl,
    /// Removing the directory at the socket's path.
    UnblockDir,
    /// Moving the socket back.
    UnblockSocket,
    /// Unmasking the system service and its socket.
    StartSudoUnmask,
    /// Starting the system service.
    StartSudoStart,
    /// Whether systemd runs, before the engine is restarted.
    RestartProbeSystemd,
    /// Whether systemd runs, before a plain service operation.
    ServiceProbe(ServiceOp),
    /// A plain service operation.
    ServiceRun(ServiceOp),
    /// Nothing more to do.
    Finished,
}

/// What the program reports back to the machine.
#[derive(Debug)]
pub enum PowerEvent {
    /// The containers were listed, or the call failed.
    Listed(Result<Vec<ContainerRow>, CallError>),
    /// A container was stopped, or the call failed.
    ContainerStopped(Result<(), CallError>),
    /// The last command ran (`Ok`) or could not be run (`Err`, with the reason).
    Ran(Result<RunOutput, String>),
}

/// Something for the interface to show on the way.
#[derive(Debug, Clone)]
pub enum PowerNote {
    /// These containers are being stopped.
    Stopping(Vec<String>),
    /// The containers were all stopped.
    StoppedAll,
    /// The containers as listed now.
    Containers(Vec<ContainerRow>),
    /// A line for the status bar.
    Status(String),
}

/// What the program must do next.
#[derive(Debug, Clone)]
pub enum PowerAction {
    /// List the containers and report the list.
    ListContainers,
    /// Stop this container and report how it went.
    StopContainer(String),
    /// Run this command with `sh -lc` and report how it ended.
    Run(String),
    /// Nothing more.
    Done,
}

/// The notes to show, then what to do.
#[derive(Debug, Clone)]
pub struct PowerStep {
    pub notes: Vec<PowerNote>,
    pub action: PowerAction,
}

/// The machine as a value: the operation, the phase, whether systemd was
/// found, and the containers to stop with how many of them were asked for.
pub struct PowerView {
    pub flow: PowerFlow,
    pub phase: PowerPhase,
    pub systemd: bool,
    pub ids: Seq<Seq<char>>,
    pub next: nat,
}

/// A note as a value.
pub enum NoteView {
    Stopping(Seq<Seq<char>>),
    StoppedAll,
    Containers(Seq<ContainerRow>),
    Status(Seq<char>),
}

/// An action as a value.
pub enum AskView {
    ListContainers,
    StopContainer(Seq<char>),
    Run(Seq<char>),
    Done,
}

/// A step as a value.
pub struct StepView {
    pub notes: Seq<NoteView>,
    pub ask: AskView,
}

pub open spec fn note_view(n: PowerNote) -> NoteView {
    match n {
        PowerNote::Stopping(ids) => NoteView::Stopping(strings_view(ids@)),
        PowerNote::StoppedAll => NoteView::StoppedAll,
        PowerNote::Containers(rows) => NoteView::Containers(rows@),
        PowerNote::Status(s) => NoteView::Status(s@),
    }
}

pub open spec fn action_view(a: PowerAction) -> AskView {
    match a {
        PowerAction::ListContainers => AskView::ListContainers,
        PowerAction::StopContainer(id) => AskView::StopContainer(id@),
        PowerAction::Run(c) => AskView::Run(c@),
        PowerAction::Done => AskView::Done,
    }
}

impl PowerStep {
    pub open spec fn view(&self) -> StepView {
        StepView { notes: self.notes@.map_values(|n: PowerNote| note_view(n)), ask: action_view(self.action) }
    }
}

/// The command that tells whether systemd runs.
pub open spec fn systemd_probe() -> Seq<char> {
    "command -v systemctl >/dev/null 2>&1 && pidof systemd >/dev/null 2>&1"@
}

/// The command that tells whether this is WSL.
pub open spec fn wsl_probe() -> Seq<char> {
    "grep -qi microsoft /proc/sys/kernel/osrelease /proc/version >/dev/null 2>&1"@
}

/// The command whose outcome the machine waits for in each phase.
pub open spec fn power_command(p: PowerPhase, systemd: bool) -> Seq<char> {
    match p {
        PowerPhase::HardProbeSystemd => systemd_probe(),
        PowerPhase::StartProbeSystemd => systemd_probe(),
        PowerPhase::RestartProbeSystemd => systemd_probe(),
        PowerPhase::ServiceProbe(_) => systemd_probe(),
        PowerPhase::HardUserStop => "systemctl --user stop docker.service docker.socket >/dev/null 2>&1"@,
        PowerPhase::HardUserMask => "systemctl --user mask docker.service docker.socket >/dev/null 2>&1"@,
        PowerPhase::HardSudoStop => "sudo systemctl stop docker.service docker.socket"@,
        PowerPhase::HardSudoMask => "sudo systemctl mask docker.service docker.socket"@,
        PowerPhase::HardProbeWsl => wsl_probe(),
        PowerPhase::StartProbeWsl => wsl_probe(),
        PowerPhase::BlockUnmount => "if mount | grep -q ' /var/run/docker.sock '; then sudo umount /var/run/docker.sock; fi"@,
        PowerPhase::BlockMove => "sudo sh -lc 'if [ -L /var/run/docker.sock ] || [ -S /var/run/docker.sock ]; then mv /var/run/docker.sock /var/run/docker.sock.disabled 2>/dev/null || true; fi'"@,
        PowerPhase::BlockRemove => "sudo sh -lc 'if [ -e /var/run/docker.sock ]; then rm -rf /var/run/docker.sock; fi'"@,
        PowerPhase::BlockDir => "sudo sh -lc 'mkdir -p /var/run/docker.sock'"@,
        PowerPhase::StartUserUnmask => "systemctl --user unmask docker.service docker.socket >/dev/null 2>&1"@,
        PowerPhase::StartUserStart => "systemctl --user start docker.service docker.socket >/dev/null 2>&1"@,
        PowerPhase::UnblockDir => "sudo sh -lc 'if [ -d /var/run/docker.sock ]; then rmdir /var/run/docker.sock 2>/dev/null || true; fi'"@,
        PowerPhase::UnblockSocket => "sudo sh -lc 'if [ -e /var/run/docker.sock.disabled ]; then mv /var/run/docker.sock.disabled /var/run/docker.sock 2>/dev/null || true; fi'"@,
        PowerPhase::StartSudoUnmask => "sudo systemctl unmask docker.service docker.socket"@,
        PowerPhase::StartSudoStart => "sudo systemctl start docker.service"@,
        PowerPhase::ServiceRun(op) => match service_command_of(op, systemd) {
            Some((c, _)) => c,
            None => Seq::empty(),
        },
        _ => Seq::empty(),
    }
}

/// The machine moved to phase `p`, showing `notes`, and asks to run its command.
pub open spec fn go_noting(v: PowerView, p: PowerPhase, notes: Seq<NoteView>) -> (PowerView, StepView) {
    (PowerView { phase: p, ..v }, StepView { notes, ask: AskView::Run(power_command(p, v.systemd)) })
}

pub open spec fn go(v: PowerView, p: PowerPhase) -> (PowerView, StepView) {
    go_noting(v, p, Seq::empty())
}

/// The machine finished, showing `notes`.
pub open spec fn finish(v: PowerView, notes: Seq<NoteView>) -> (PowerView, StepView) {
    (PowerView { phase: PowerPhase::Finished, ..v }, StepView { notes, ask: AskView::Done })
}

/// After `notes`, the next container to stop; when none is left, the
/// containers are listed again.
pub open spec fn stop_next(v: PowerView, notes: Seq<NoteView>) -> (PowerView, StepView) {
    if v.next < v.ids.len() {
        (
            PowerView { phase: PowerPhase::StoppingContainers, next: v.next + 1, ..v },
            StepView { notes, ask: AskView::StopContainer(v.ids[v.next as int]) },
        )
    } else {
        (
            PowerView { phase: PowerPhase::Relisting, ..v },
            StepView { notes: notes.push(NoteView::StoppedAll), ask: AskView::ListContainers },
        )
    }
}

/// The engine stopped.
pub open spec fn stopped(v: PowerView) -> (PowerView, StepView) {
    finish(v, seq![NoteView::Status("Engine stopped"@)])
}

/// The engine could not be stopped, for this reason.
pub open spec fn stop_failed(v: PowerView, m: Seq<char>) -> (PowerView, StepView) {
    finish(v, seq![NoteView::Status("Failed to stop engine: "@ + m)])
}

/// Once the socket is back (or needs nothing), the service is unmasked under
/// systemd, or started plainly without it.
pub open spec fn after_unblock(v: PowerView) -> (PowerView, StepView) {
    if v.systemd {
        go(v, PowerPhase::StartSudoUnmask)
    } else {
        go(v, PowerPhase::ServiceProbe(ServiceOp::Start))
    }
}

/// The prefix of the error of a plain service operation.
pub open spec fn service_prefix(op: ServiceOp, systemd: bool) -> Seq<char> {
    match service_command_of(op, systemd) {
        Some((_, p)) => p,
        None => Seq::empty(),
    }
}

/// Why a plain service operation failed, if it did: the command could not be
/// run, or it exited with a failure.
pub open spec fn service_failed(op: ServiceOp, systemd: bool, r: Result<RunOutput, String>) -> Option<Seq<char>> {
    match r {
        Err(e) => Some(e@),
        Ok(o) => if o.code != 0 {
            Some(service_prefix(op, systemd) + o.stderr@)
        } else {
            None
        },
    }
}

/// The step after the command of the current phase ran.
pub open spec fn after_ran(v: PowerView, r: Result<RunOutput, String>) -> (PowerView, StepView) {
    let ok = succeeded(r);
    match v.phase {
        PowerPhase::HardProbeSystemd => if ok {
            go(PowerView { systemd: true, ..v }, PowerPhase::HardUserStop)
        } else {
            go(PowerView { systemd: false, ..v }, PowerPhase::ServiceProbe(ServiceOp::Stop))
        },
        PowerPhase::HardUserStop => go(v, PowerPhase::HardUserMask),
        PowerPhase::HardUserMask => go(v, PowerPhase::HardSudoStop),
        PowerPhase::HardSudoStop => match r {
            Err(e) => stop_failed(v, e@),
            Ok(_) => go(v, PowerPhase::HardSudoMask),
        },
        PowerPhase::HardSudoMask => match r {
            Err(e) => stop_failed(v, e@),
            Ok(_) => go(v, PowerPhase::HardProbeWsl),
        },
        PowerPhase::HardProbeWsl => if ok {
            go(v, PowerPhase::BlockUnmount)
        } else {
            stopped(v)
        },
        PowerPhase::BlockUnmount => if r is Err {
            stopped(v)
        } else {
            go(v, PowerPhase::BlockMove)
        },
        PowerPhase::BlockMove => if r is Err {
            stopped(v)
        } else {
            go(v, PowerPhase::BlockRemove)
        },
        PowerPhase::BlockRemove => if r is Err {
            stopped(v)
        } else {
            go(v, PowerPhase::BlockDir)
        },
        PowerPhase::BlockDir => stopped(v),
        PowerPhase::StartProbeSystemd => if ok {
            go(PowerView { systemd: true, ..v }, PowerPhase::StartUserUnmask)
        } else {
            go(PowerView { systemd: false, ..v }, PowerPhase::StartProbeWsl)
        },
        PowerPhase::StartUserUnmask => go(v, PowerPhase::StartUserStart),
        PowerPhase::StartUserStart => go(v, PowerPhase::StartProbeWsl),
        PowerPhase::StartProbeWsl => if ok {
            go(v, PowerPhase::UnblockDir)
        } else {
            after_unblock(v)
        },
        PowerPhase::UnblockDir => if r is Err {
            after_unblock(v)
        } else {
            go(v, PowerPhase::UnblockSocket)
        },
        PowerPhase::UnblockSocket => after_unblock(v),
        PowerPhase::StartSudoUnmask => if r is Err {
            finish(v, Seq::empty())
        } else {
            go(v, PowerPhase::StartSudoStart)
        },
        PowerPhase::StartSudoStart => finish(v, Seq::empty()),
        PowerPhase::RestartProbeSystemd => if ok {
            go(PowerView { systemd: true, ..v }, PowerPhase::ServiceRun(ServiceOp::Restart))
        } else {
            go(PowerView { systemd: false, ..v }, PowerPhase::ServiceProbe(ServiceOp::Stop))
        },
        PowerPhase::ServiceProbe(op) => go(PowerView { systemd: ok, ..v }, PowerPhase::ServiceRun(op)),
        PowerPhase::ServiceRun(op) => match op {
            ServiceOp::Stop => match service_failed(op, v.systemd, r) {
                Some(m) => if v.flow == PowerFlow::Drain {
                    stop_failed(v, m)
                } else {
                    finish(v, Seq::empty())
                },
                None => if v.flow == PowerFlow::Drain {
                    go(v, PowerPhase::HardProbeWsl)
                } else {
                    go(v, PowerPhase::ServiceProbe(ServiceOp::Start))
                },
            },
            _ => finish(v, Seq::empty()),
        },
        _ => finish(v, Seq::empty()),
    }
}

/// Whether a run of `flow` can be in phase `p`.
pub open spec fn phase_in_flow(flow: PowerFlow, p: PowerPhase) -> bool {
    match flow {
        PowerFlow::Drain => match p {
            PowerPhase::Listing | PowerPhase::StoppingContainers | PowerPhase::Relisting
            | PowerPhase::HardProbeSystemd | PowerPhase::HardUserStop | PowerPhase::HardUserMask
            | PowerPhase::HardSudoStop | PowerPhase::HardSudoMask | PowerPhase::HardProbeWsl
            | PowerPhase::BlockUnmount | PowerPhase::BlockMove | PowerPhase::BlockRemove
            | PowerPhase::BlockDir | PowerPhase::Finished => true,
            PowerPhase::ServiceProbe(op) => op == ServiceOp::Stop,
            PowerPhase::ServiceRun(op) => op == ServiceOp::Stop,
            _ => false,
        },
        PowerFlow::Start => match p {
            PowerPhase::StartProbeSystemd | PowerPhase::StartUserUnmask | PowerPhase::StartUserStart
            | PowerPhase::StartProbeWsl | PowerPhase::UnblockDir | PowerPhase::UnblockSocket
            | PowerPhase::StartSudoUnmask | PowerPhase::StartSudoStart | PowerPhase::Finished => true,
            PowerPhase::ServiceProbe(op) => op == ServiceOp::Start,
            PowerPhase::ServiceRun(op) => op == ServiceOp::Start,
            _ => false,
        },
        PowerFlow::Restart => match p {
            PowerPhase::RestartProbeSystemd | PowerPhase::Finished => true,
            PowerPhase::ServiceProbe(op) => op != ServiceOp::Restart,
            PowerPhase::ServiceRun(_) => true,
            _ => false,
        },
    }
}

/// The step after an event. An event that the phase does not wait for ends
/// the machine.
pub open spec fn power_step(v: PowerView, ev: PowerEvent) -> (PowerView, StepView) {
    match ev {
        PowerEvent::Listed(res) => if v.phase == PowerPhase::Listing {
            match res {
                Ok(rows) => {
                    let ids = bulk_target_ids(rows@, BulkOp::StopAll);
                    stop_next(PowerView { ids, next: 0, ..v }, seq![NoteView::Stopping(ids)])
                },
                Err(e) => finish(v, seq![NoteView::Status(engine_stop_error_text(EngineStopStage::List, e))]),
            }
        } else if v.phase == PowerPhase::Relisting {
            go_noting(
                v,
                PowerPhase::HardProbeSystemd,
                match res {
                    Ok(rows) => seq![NoteView::Containers(rows@)],
                    Err(e) => seq![NoteView::Status(engine_stop_error_text(EngineStopStage::Refresh, e))],
                },
            )
        } else {
            finish(v, Seq::empty())
        },
        PowerEvent::ContainerStopped(res) => if v.phase == PowerPhase::StoppingContainers {
            stop_next(
                v,
                match res {
                    Ok(_) => Seq::empty(),
                    Err(e) => seq![NoteView::Status(engine_stop_error_text(EngineStopStage::StopContainer, e))],
                },
            )
        } else {
            finish(v, Seq::empty())
        },
        PowerEvent::Ran(r) => after_ran(v, r),
    }
}

} // verus!

verus! {

/// Stopping, starting or restarting the engine, in progress.
pub struct EnginePower {
    flow: PowerFlow,
    phase: PowerPhase,
    systemd: bool,
    ids: Vec<String>,
    next: usize,
}

fn command_of(p: PowerPhase, systemd: bool) -> (r: String)
    ensures
        r@ == power_command(p, systemd),
{
    match p {
        PowerPhase::HardProbeSystemd => owned("command -v systemctl >/dev/null 2>&1 && pidof systemd >/dev/null 2>&1"),
        PowerPhase::StartProbeSystemd => owned("command -v systemctl >/dev/null 2>&1 && pidof systemd >/dev/null 2>&1"),
        PowerPhase::RestartProbeSystemd => owned("command -v systemctl >/dev/null 2>&1 && pidof systemd >/dev/null 2>&1"),
        PowerPhase::ServiceProbe(_) => owned("command -v systemctl >/dev/null 2>&1 && pidof systemd >/dev/null 2>&1"),
        PowerPhase::HardUserStop => owned("systemctl --user stop docker.service docker.socket >/dev/null 2>&1"),
        PowerPhase::HardUserMask => owned("systemctl --user mask docker.service docker.socket >/dev/null 2>&1"),
        PowerPhase::HardSudoStop => owned("sudo systemctl stop docker.service docker.socket"),
        PowerPhase::HardSudoMask => owned("sudo systemctl mask docker.service docker.socket"),
        PowerPhase::HardProbeWsl => owned("grep -qi microsoft /proc/sys/kernel/osrelease /proc/version >/dev/null 2>&1"),
        PowerPhase::StartProbeWsl => owned("grep -qi microsoft /proc/sys/kernel/osrelease /proc/version >/dev/null 2>&1"),
        PowerPhase::BlockUnmount => owned("if mount | grep -q ' /var/run/docker.sock '; then sudo umount /var/run/docker.sock; fi"),
        PowerPhase::BlockMove => owned("sudo sh -lc 'if [ -L /var/run/docker.sock ] || [ -S /var/run/docker.sock ]; then mv /var/run/docker.sock /var/run/docker.sock.disabled 2>/dev/null || true; fi'"),
        PowerPhase::BlockRemove => owned("sudo sh -lc 'if [ -e /var/run/docker.sock ]; then rm -rf /var/run/docker.sock; fi'"),
        PowerPhase::BlockDir => owned("sudo sh -lc 'mkdir -p /var/run/docker.sock'"),
        PowerPhase::StartUserUnmask => owned("systemctl --user unmask docker.service docker.socket >/dev/null 2>&1"),
        PowerPhase::StartUserStart => owned("systemctl --user start docker.service docker.socket >/dev/null 2>&1"),
        PowerPhase::UnblockDir => owned("sudo sh -lc 'if [ -d /var/run/docker.sock ]; then rmdir /var/run/docker.sock 2>/dev/null || true; fi'"),
        PowerPhase::UnblockSocket => owned("sudo sh -lc 'if [ -e /var/run/docker.sock.disabled ]; then mv /var/run/docker.sock.disabled /var/run/docker.sock 2>/dev/null || true; fi'"),
        PowerPhase::StartSudoUnmask => owned("sudo systemctl unmask docker.service docker.socket"),
        PowerPhase::StartSudoStart => owned("sudo systemctl start docker.service"),
        PowerPhase::ServiceRun(op) => match service_command(op, systemd) {
            Some((c, _)) => owned(c),
            None => String::new(),
        },
        _ => String::new(),
    }
}

pub open spec fn notes_view(notes: Seq<PowerNote>) -> Seq<NoteView> {
    notes.map_values(|n: PowerNote| note_view(n))
}

fn one_note(n: PowerNote) -> (r: Vec<PowerNote>)
    ensures
        notes_view(r@) == seq![note_view(n)],
{
    let ghost g = n;
    let mut r: Vec<PowerNote> = Vec::new();
    r.push(n);
    assert(notes_view(r@) =~= seq![note_view(g)]);
    r
}

fn no_notes() -> (r: Vec<PowerNote>)
    ensures
        notes_view(r@) == Seq::<NoteView>::empty(),
{
    let r: Vec<PowerNote> = Vec::new();
    assert(notes_view(r@) =~= Seq::<NoteView>::empty());
    r
}

/// Why a plain service operation failed, if it did.
fn service_failure_text(op: ServiceOp, systemd: bool, r: Result<RunOutput, String>) -> (f: Option<String>)
    ensures
        match f {
            Some(s) => service_failed(op, systemd, r) == Some(s@),
            None => service_failed(op, systemd, r) is None,
        },
{
    match r {
        Err(e) => Some(e),
        Ok(o) => if o.code != 0 {
            match service_command(op, systemd) {
                Some((_, p)) => Some(service_failure(p, o.stderr.as_str())),
                None => {
                    assert(Seq::<char>::empty() + o.stderr@ =~= o.stderr@);
                    Some(o.stderr)
                },
            }
        } else {
            None
        },
    }
}

impl EnginePower {
    pub closed spec fn view(&self) -> PowerView {
        PowerView {
            flow: self.flow,
            phase: self.phase,
            systemd: self.systemd,
            ids: strings_view(self.ids@),
            next: self.next as nat,
        }
    }

    /// Never more containers asked for than there are to stop, and the phase
    /// is one that the run's operation goes through.
    pub open spec fn wf(&self) -> bool {
        &&& self.view().next <= self.view().ids.len()
        &&& phase_in_flow(self.view().flow, self.view().phase)
    }

    spec fn counted(&self) -> bool {
        self.next <= self.ids.len()
    }

    fn start_with(flow: PowerFlow, phase: PowerPhase) -> (r: EnginePower)
        requires
            phase_in_flow(flow, phase),
        ensures
            r.wf(),
            r.view() == (PowerView { flow, phase, systemd: false, ids: Seq::empty(), next: 0 }),
    {
        let r = EnginePower { flow, phase, systemd: false, ids: Vec::new(), next: 0 };
        assert(strings_view(r.ids@) =~= Seq::<Seq<char>>::empty());
        r
    }

    /// Stopping the engine: the containers are listed first.
    pub fn drain() -> (r: (EnginePower, PowerStep))
        ensures
            r.0.wf(),
            r.0.view() == (PowerView {
                flow: PowerFlow::Drain,
                phase: PowerPhase::Listing,
                systemd: false,
                ids: Seq::empty(),
                next: 0,
            }),
            r.1.view() == (StepView { notes: Seq::empty(), ask: AskView::ListContainers }),
    {
        let m = EnginePower::start_with(PowerFlow::Drain, PowerPhase::Listing);
        let notes = no_notes();
        (m, PowerStep { notes, action: PowerAction::ListContainers })
    }

    /// Starting the engine: the first command asks whether systemd runs.
    pub fn start() -> (r: (EnginePower, PowerStep))
        ensures
            r.0.wf(),
            r.0.view() == (PowerView {
                flow: PowerFlow::Start,
                phase: PowerPhase::StartProbeSystemd,
                systemd: false,
                ids: Seq::empty(),
                next: 0,
            }),
            r.1.view() == (StepView { notes: Seq::empty(), ask: AskView::Run(systemd_probe()) }),
    {
        let m = EnginePower::start_with(PowerFlow::Start, PowerPhase::StartProbeSystemd);
        let notes = no_notes();
        (m, PowerStep { notes, action: PowerAction::Run(command_of(PowerPhase::StartProbeSystemd, false)) })
    }

    /// Restarting the engine: the first command asks whether systemd runs.
    pub fn restart() -> (r: (EnginePower, PowerStep))
        ensures
            r.0.wf(),
            r.0.view() == (PowerView {
                flow: PowerFlow::Restart,
                phase: PowerPhase::RestartProbeSystemd,
                systemd: false,
                ids: Seq::empty(),
                next: 0,
            }),
            r.1.view() == (StepView { notes: Seq::empty(), ask: AskView::Run(systemd_probe()) }),
    {
        let m = EnginePower::start_with(PowerFlow::Restart, PowerPhase::RestartProbeSystemd);
        let notes = no_notes();
        (m, PowerStep { notes, action: PowerAction::Run(command_of(PowerPhase::RestartProbeSystemd, false)) })
    }

    fn go_noting(&mut self, p: PowerPhase, notes: Vec<PowerNote>) -> (r: PowerStep)
        requires
            old(self).counted(),
        ensures
            final(self).counted(),
            (final(self).view(), r.view()) == go_noting(old(self).view(), p, notes_view(notes@)),
    {
        self.phase = p;
        PowerStep { notes, action: PowerAction::Run(command_of(p, self.systemd)) }
    }

    fn go(&mut self, p: PowerPhase) -> (r: PowerStep)
        requires
            old(self).counted(),
        ensures
            final(self).counted(),
            (final(self).view(), r.view()) == go(old(self).view(), p),
    {
        let notes = no_notes();
        self.go_noting(p, notes)
    }

    fn finish(&mut self, notes: Vec<PowerNote>) -> (r: PowerStep)
        requires
            old(self).counted(),
        ensures
            final(self).counted(),
            (final(self).view(), r.view()) == finish(old(self).view(), notes_view(notes@)),
    {
        self.phase = PowerPhase::Finished;
        PowerStep { notes, action: PowerAction::Done }
    }

    fn stopped(&mut self) -> (r: PowerStep)
        requires
            old(self).counted(),
        ensures
            final(self).counted(),
            (final(self).view(), r.view()) == stopped(old(self).view()),
    {
        let notes = one_note(PowerNote::Status(owned("Engine stopped")));
        self.finish(notes)
    }

    fn stop_failed(&mut self, m: &str) -> (r: PowerStep)
        requires
            old(self).counted(),
        ensures
            final(self).counted(),
            (final(self).view(), r.view()) == stop_failed(old(self).view(), m@),
    {
        let notes = one_note(PowerNote::Status(engine_stop_failed(m)));
        self.finish(notes)
    }

    fn after_unblock(&mut self) -> (r: PowerStep)
        requires
            old(self).counted(),
        ensures
            final(self).counted(),
            (final(self).view(), r.view()) == after_unblock(old(self).view()),
    {
        if self.systemd {
            self.go(PowerPhase::StartSudoUnmask)
        } else {
            self.go(PowerPhase::ServiceProbe(ServiceOp::Start))
        }
    }

    fn stop_next(&mut self, notes: Vec<PowerNote>) -> (r: PowerStep)
        requires
            old(self).counted(),
        ensures
            final(self).counted(),
            (final(self).view(), r.view()) == stop_next(old(self).view(), notes_view(notes@)),
    {
        if self.next < self.ids.len() {
            let id = self.ids[self.next].clone();
            self.next = self.next + 1;
            self.phase = PowerPhase::StoppingContainers;
            PowerStep { notes, action: PowerAction::StopContainer(id) }
        } else {
            self.phase = PowerPhase::Relisting;
            let ghost before = notes_view(notes@);
            let mut notes = notes;
            notes.push(PowerNote::StoppedAll);
            assert(notes_view(notes@) =~= before.push(NoteView::StoppedAll));
            PowerStep { notes, action: PowerAction::ListContainers }
        }
    }

    fn after_ran(&mut self, r: Result<RunOutput, String>) -> (s: PowerStep)
        requires
            old(self).counted(),
        ensures
            final(self).counted(),
            (final(self).view(), s.view()) == after_ran(old(self).view(), r),
    {
        let ok = match &r {
            Ok(o) => o.code == 0,
            Err(_) => false,
        };
        let ran = match &r {
            Ok(_) => true,
            Err(_) => false,
        };
        match self.phase {
            PowerPhase::HardProbeSystemd => if ok {
                self.systemd = true;
                self.go(PowerPhase::HardUserStop)
            } else {
                self.systemd = false;
                self.go(PowerPhase::ServiceProbe(ServiceOp::Stop))
            },
            PowerPhase::HardUserStop => self.go(PowerPhase::HardUserMask),
            PowerPhase::HardUserMask => self.go(PowerPhase::HardSudoStop),
            PowerPhase::HardSudoStop => match r {
                Err(e) => self.stop_failed(e.as_str()),
                Ok(_) => self.go(PowerPhase::HardSudoMask),
            },
            PowerPhase::HardSudoMask => match r {
                Err(e) => self.stop_failed(e.as_str()),
                Ok(_) => self.go(PowerPhase::HardProbeWsl),
            },
            PowerPhase::HardProbeWsl => if ok {
                self.go(PowerPhase::BlockUnmount)
            } else {
                self.stopped()
            },
            PowerPhase::BlockUnmount => if !ran {
                self.stopped()
            } else {
                self.go(PowerPhase::BlockMove)
            },
            PowerPhase::BlockMove => if !ran {
                self.stopped()
            } else {
                self.go(PowerPhase::BlockRemove)
            },
            PowerPhase::BlockRemove => if !ran {
                self.stopped()
            } else {
                self.go(PowerPhase::BlockDir)
            },
            PowerPhase::BlockDir => self.stopped(),
            PowerPhase::StartProbeSystemd => if ok {
                self.systemd = true;
                self.go(PowerPhase::StartUserUnmask)
            } else {
                self.systemd = false;
                self.go(PowerPhase::StartProbeWsl)
            },
            PowerPhase::StartUserUnmask => self.go(PowerPhase::StartUserStart),
            PowerPhase::StartUserStart => self.go(PowerPhase::StartProbeWsl),
            PowerPhase::StartProbeWsl => if ok {
                self.go(PowerPhase::UnblockDir)
            } else {
                self.after_unblock()
            },
            PowerPhase::UnblockDir => if !ran {
                self.after_unblock()
            } else {
                self.go(PowerPhase::UnblockSocket)
            },
            PowerPhase::UnblockSocket => self.after_unblock(),
            PowerPhase::StartSudoUnmask => if !ran {
                let notes = no_notes();
                self.finish(notes)
            } else {
                self.go(PowerPhase::StartSudoStart)
            },
            PowerPhase::RestartProbeSystemd => if ok {
                self.systemd = true;
                self.go(PowerPhase::ServiceRun(ServiceOp::Restart))
            } else {
                self.systemd = false;
                self.go(PowerPhase::ServiceProbe(ServiceOp::Stop))
            },
            PowerPhase::ServiceProbe(op) => {
                self.systemd = ok;
                self.go(PowerPhase::ServiceRun(op))
            },
            PowerPhase::ServiceRun(ServiceOp::Stop) => {
                let draining = self.flow == PowerFlow::Drain;
                match service_failure_text(ServiceOp::Stop, self.systemd, r) {
                    Some(m) => if draining {
                        self.stop_failed(m.as_str())
                    } else {
                        let notes = no_notes();
                        self.finish(notes)
                    },
                    None => if draining {
                        self.go(PowerPhase::HardProbeWsl)
                    } else {
                        self.go(PowerPhase::ServiceProbe(ServiceOp::Start))
                    },
                }
            },
            _ => {
                let notes = no_notes();
                self.finish(notes)
            },
        }
    }
}

/// Takes the outcome of the last call or command and says what to show and
/// what to do next.
pub fn power_next(m: &mut EnginePower, ev: PowerEvent) -> (r: PowerStep)
    requires
        old(m).wf(),
    ensures
        final(m).wf(),
        (final(m).view(), r.view()) == power_step(old(m).view(), ev),
{
    proof {
        law_power_runs_end(m.view(), ev);
    }
    match ev {
        PowerEvent::Listed(res) => if m.phase == PowerPhase::Listing {
            match res {
                Ok(rows) => {
                    let shown = bulk_targets(&rows, BulkOp::StopAll);
                    let ids = bulk_targets(&rows, BulkOp::StopAll);
                    m.ids = ids;
                    m.next = 0;
                    let notes = one_note(PowerNote::Stopping(shown));
                    m.stop_next(notes)
                },
                Err(e) => {
                    let notes = one_note(PowerNote::Status(engine_stop_error(EngineStopStage::List, &e)));
                    m.finish(notes)
                },
            }
        } else if m.phase == PowerPhase::Relisting {
            let notes = match res {
                Ok(rows) => one_note(PowerNote::Containers(rows)),
                Err(e) => one_note(PowerNote::Status(engine_stop_error(EngineStopStage::Refresh, &e))),
            };
            m.go_noting(PowerPhase::HardProbeSystemd, notes)
        } else {
            let notes = no_notes();
            m.finish(notes)
        },
        PowerEvent::ContainerStopped(res) => if m.phase == PowerPhase::StoppingContainers {
            let notes = match res {
                Ok(_) => no_notes(),
                Err(e) => one_note(
                    PowerNote::Status(engine_stop_error(EngineStopStage::StopContainer, &e)),
                ),
            };
            m.stop_next(notes)
        } else {
            let notes = no_notes();
            m.finish(notes)
        },
        PowerEvent::Ran(r) => m.after_ran(r),
    }
}

} // verus!

verus! {

/// The machine after each of `results` was reported as the outcome of a
/// container stop, in order.
pub open spec fn stops_reported(p: (PowerView, StepView), results: Seq<Result<(), CallError>>) -> (PowerView, StepView)
    decreases results.len(),
{
    if results.len() == 0 {
        p
    } else {
        power_step(stops_reported(p, results.drop_last()).0, PowerEvent::ContainerStopped(results.last()))
    }
}

/// Stopping the engine stops each running container once, in list order,
/// whatever each stop returns, and lists the containers again only after the
/// last one: no command touches the engine before that.
pub proof fn law_drain_stops_each_running_container(
    v: PowerView,
    rows: Vec<ContainerRow>,
    results: Seq<Result<(), CallError>>,
)
    requires
        v.phase == PowerPhase::Listing,
        results.len() <= bulk_target_ids(rows@, BulkOp::StopAll).len(),
    ensures
        ({
            let ids = bulk_target_ids(rows@, BulkOp::StopAll);
            let after = stops_reported(power_step(v, PowerEvent::Listed(Ok(rows))), results);
            &&& results.len() < ids.len() ==> after.1.ask == AskView::StopContainer(ids[results.len() as int])
                && after.0.phase == PowerPhase::StoppingContainers
            &&& results.len() == ids.len() ==> after.1.ask == AskView::ListContainers && after.0.phase
                == PowerPhase::Relisting
        }),
{
    lemma_stops_state(v, rows, results);
}

proof fn lemma_stops_state(v: PowerView, rows: Vec<ContainerRow>, results: Seq<Result<(), CallError>>)
    requires
        v.phase == PowerPhase::Listing,
        results.len() <= bulk_target_ids(rows@, BulkOp::StopAll).len(),
    ensures
        ({
            let ids = bulk_target_ids(rows@, BulkOp::StopAll);
            let after = stops_reported(power_step(v, PowerEvent::Listed(Ok(rows))), results);
            &&& after.0.ids == ids
            &&& results.len() < ids.len() ==> after.1.ask == AskView::StopContainer(ids[results.len() as int])
                && after.0.phase == PowerPhase::StoppingContainers && after.0.next == results.len() + 1
            &&& results.len() == ids.len() ==> after.1.ask == AskView::ListContainers && after.0.phase
                == PowerPhase::Relisting
        }),
    decreases results.len(),
{
    if results.len() > 0 {
        lemma_stops_state(v, rows, results.drop_last());
    }
}

/// How many steps a run has left at most, past the first listing.
pub open spec fn power_rank(v: PowerView) -> nat {
    match v.phase {
        PowerPhase::Listing => 0,
        PowerPhase::StoppingContainers => 41 + (if v.next <= v.ids.len() { (v.ids.len() - v.next) as nat } else { 0 }),
        PowerPhase::Relisting => 40,
        PowerPhase::HardProbeSystemd => 39,
        PowerPhase::HardUserStop => 38,
        PowerPhase::HardUserMask => 37,
        PowerPhase::HardSudoStop => 36,
        PowerPhase::HardSudoMask => 35,
        PowerPhase::RestartProbeSystemd => 30,
        PowerPhase::ServiceProbe(ServiceOp::Stop) => 25,
        PowerPhase::ServiceRun(ServiceOp::Stop) => 24,
        PowerPhase::HardProbeWsl => 20,
        PowerPhase::BlockUnmount => 19,
        PowerPhase::BlockMove => 18,
        PowerPhase::BlockRemove => 17,
        PowerPhase::BlockDir => 16,
        PowerPhase::StartProbeSystemd => 15,
        PowerPhase::StartUserUnmask => 14,
        PowerPhase::StartUserStart => 13,
        PowerPhase::StartProbeWsl => 12,
        PowerPhase::UnblockDir => 11,
        PowerPhase::UnblockSocket => 10,
        PowerPhase::StartSudoUnmask => 9,
        PowerPhase::StartSudoStart => 8,
        PowerPhase::ServiceProbe(_) => 5,
        PowerPhase::ServiceRun(_) => 4,
        PowerPhase::Finished => 0,
    }
}

/// Every run ends, whatever the calls and commands return: no step goes back
/// to the first listing, and after it every step either finishes the run or
/// lowers a count of the steps left, which only a finished run has at zero.
pub proof fn law_power_runs_end(v: PowerView, ev: PowerEvent)
    requires
        v.next <= v.ids.len(),
        phase_in_flow(v.flow, v.phase),
    ensures
        ({
            let w = power_step(v, ev).0;
            &&& w.phase != PowerPhase::Listing
            &&& w.next <= w.ids.len()
            &&& w.flow == v.flow
            &&& phase_in_flow(w.flow, w.phase)
            &&& v.phase != PowerPhase::Listing && v.phase != PowerPhase::Finished ==> power_rank(w)
                < power_rank(v)
            &&& w.phase == PowerPhase::Finished <==> power_step(v, ev).1.ask == AskView::Done
        }),
        v.phase != PowerPhase::Listing ==> (power_rank(v) == 0 <==> v.phase == PowerPhase::Finished),
{
}

/// Stopping puts the WSL socket out of the way only once the service has
/// been stopped: after the system service was stopped and masked, or after a
/// plain stop that succeeded.
pub proof fn law_socket_blocked_after_service_stopped(v: PowerView, ev: PowerEvent)
    requires
        v.flow == PowerFlow::Drain,
        phase_in_flow(v.flow, v.phase),
    ensures
        ({
            let w = power_step(v, ev).0;
            w.phase == PowerPhase::HardProbeWsl && v.phase != PowerPhase::HardProbeWsl ==> {
                ||| v.phase == PowerPhase::HardSudoMask && (ev matches PowerEvent::Ran(Ok(_)))
                ||| v.phase == PowerPhase::ServiceRun(ServiceOp::Stop) && (ev matches PowerEvent::Ran(Ok(o))
                    && o.code == 0)
            }
        }),
{
}

/// Starting unmasks or starts the service only once the WSL check found no
/// WSL, or after the commands that restore the socket.
pub proof fn law_socket_restored_before_start(v: PowerView, ev: PowerEvent)
    requires
        v.flow == PowerFlow::Start,
        phase_in_flow(v.flow, v.phase),
    ensures
        ({
            let w = power_step(v, ev).0;
            (w.phase == PowerPhase::StartSudoUnmask || w.phase == PowerPhase::ServiceProbe(ServiceOp::Start))
                && w.phase != v.phase ==> {
                ||| v.phase == PowerPhase::StartProbeWsl && !(ev matches PowerEvent::Ran(r) && succeeded(r))
                ||| v.phase == PowerPhase::UnblockDir
                ||| v.phase == PowerPhase::UnblockSocket
            }
        }),
{
}

/// On the way to stopping the engine, a WSL check that succeeds always goes
/// on to put the socket out of the way, whether or not systemd was found:
/// first the command that unmounts a proxy socket mounted over it. A check
/// that fails or cannot run ends the stop with "Engine stopped".
pub proof fn law_wsl_stop_blocks_socket(v: PowerView, r: Result<RunOutput, String>)
    requires
        v.flow == PowerFlow::Drain,
        v.phase == PowerPhase::HardProbeWsl,
    ensures
        ({
            let (w, s) = power_step(v, PowerEvent::Ran(r));
            &&& (r matches Ok(o) && o.code == 0) ==> w.phase == PowerPhase::BlockUnmount && s.ask
                == AskView::Run(
                "if mount | grep -q ' /var/run/docker.sock '; then sudo umount /var/run/docker.sock; fi"@,
            ) && s.notes.len() == 0
            &&& !(r matches Ok(o) && o.code == 0) ==> w.phase == PowerPhase::Finished && s.ask == AskView::Done
                && s.notes == seq![NoteView::Status("Engine stopped"@)]
            &&& w.systemd == v.systemd
        }),
{
}

/// Blocking the socket runs its four commands in order: unmount, move the
/// socket aside, remove what is left, put a directory in its place; then the
/// stop ends with "Engine stopped". A command that cannot run ends the
/// blocking early, and the stop still ends with "Engine stopped".
pub proof fn law_socket_block_sequence(v: PowerView, r: Result<RunOutput, String>)
    requires
        v.flow == PowerFlow::Drain,
    ensures
        ({
            let (w, s) = power_step(v, PowerEvent::Ran(r));
            let stopped_note = seq![NoteView::Status("Engine stopped"@)];
            &&& v.phase == PowerPhase::BlockUnmount && r is Ok ==> w.phase == PowerPhase::BlockMove && s.ask
                == AskView::Run(
                "sudo sh -lc 'if [ -L /var/run/docker.sock ] || [ -S /var/run/docker.sock ]; then mv /var/run/docker.sock /var/run/docker.sock.disabled 2>/dev/null || true; fi'"@,
            )
            &&& v.phase == PowerPhase::BlockMove && r is Ok ==> w.phase == PowerPhase::BlockRemove && s.ask
                == AskView::Run("sudo sh -lc 'if [ -e /var/run/docker.sock ]; then rm -rf /var/run/docker.sock; fi'"@)
            &&& v.phase == PowerPhase::BlockRemove && r is Ok ==> w.phase == PowerPhase::BlockDir && s.ask
                == AskView::Run("sudo sh -lc 'mkdir -p /var/run/docker.sock'"@)
            &&& v.phase == PowerPhase::BlockDir ==> s.ask == AskView::Done && s.notes == stopped_note
            &&& (v.phase == PowerPhase::BlockUnmount || v.phase == PowerPhase::BlockMove || v.phase
                == PowerPhase::BlockRemove) && r is Err ==> s.ask == AskView::Done && s.notes == stopped_note
        }),
{
}

/// Once the system service is stopped and masked, the stop always asks
/// whether this is WSL next, with or without systemd's user service.
pub proof fn law_stop_checks_wsl_after_mask(v: PowerView, o: RunOutput)
    requires
        v.flow == PowerFlow::Drain,
        v.phase == PowerPhase::HardSudoMask,
    ensures
        ({
            let (w, s) = power_step(v, PowerEvent::Ran(Ok(o)));
            w.phase == PowerPhase::HardProbeWsl && s.ask == AskView::Run(
                "grep -qi microsoft /proc/sys/kernel/osrelease /proc/version >/dev/null 2>&1"@,
            )
        }),
{
}

/// Starting on WSL restores the socket first: a WSL check that succeeds asks
/// to remove the directory put in the socket's place, whether or not systemd
/// was found.
pub proof fn law_wsl_start_unblocks_socket(v: PowerView, o: RunOutput)
    requires
        v.flow == PowerFlow::Start,
        v.phase == PowerPhase::StartProbeWsl,
        o.code == 0,
    ensures
        ({
            let (w, s) = power_step(v, PowerEvent::Ran(Ok(o)));
            w.phase == PowerPhase::UnblockDir && s.ask == AskView::Run(
                "sudo sh -lc 'if [ -d /var/run/docker.sock ]; then rmdir /var/run/docker.sock 2>/dev/null || true; fi'"@,
            )
        }),
{
}

/// Whether systemd runs is only ever decided by a systemd check: every other
/// step keeps what was found.
pub proof fn law_systemd_kept_between_checks(v: PowerView, ev: PowerEvent)
    requires
        v.phase != PowerPhase::HardProbeSystemd,
        v.phase != PowerPhase::StartProbeSystemd,
        v.phase != PowerPhase::RestartProbeSystemd,
        !(v.phase is ServiceProbe),
    ensures
        power_step(v, ev).0.systemd == v.systemd,
{
}

/// Under systemd the engine is stopped for good: the rootless user service is
/// stopped and masked (whatever those commands return), then the system
/// service and its socket are stopped and masked with sudo; either sudo
/// command that cannot run ends the stop with its reason.
pub proof fn law_systemd_stop_sequence(v: PowerView, r: Result<RunOutput, String>)
    requires
        v.flow == PowerFlow::Drain,
    ensures
        ({
            let (w, s) = power_step(v, PowerEvent::Ran(r));
            &&& v.phase == PowerPhase::HardProbeSystemd && (r matches Ok(o) && o.code == 0) ==> w.systemd
                && s.ask == AskView::Run("systemctl --user stop docker.service docker.socket >/dev/null 2>&1"@)
            &&& v.phase == PowerPhase::HardProbeSystemd && !(r matches Ok(o) && o.code == 0) ==> !w.systemd
                && s.ask == AskView::Run(
                "command -v systemctl >/dev/null 2>&1 && pidof systemd >/dev/null 2>&1"@,
            )
            &&& v.phase == PowerPhase::HardUserStop ==> s.ask == AskView::Run(
                "systemctl --user mask docker.service docker.socket >/dev/null 2>&1"@,
            )
            &&& v.phase == PowerPhase::HardUserMask ==> s.ask == AskView::Run(
                "sudo systemctl stop docker.service docker.socket"@,
            )
            &&& v.phase == PowerPhase::HardSudoStop && r is Ok ==> s.ask == AskView::Run(
                "sudo systemctl mask docker.service docker.socket"@,
            )
            &&& (v.phase == PowerPhase::HardSudoStop || v.phase == PowerPhase::HardSudoMask) ==> (r matches Err(
                e,
            ) ==> s.ask == AskView::Done && s.notes == seq![NoteView::Status("Failed to stop engine: "@ + e@)])
        }),
{
}

/// Without systemd, stopping kills `dockerd`; when that command fails the
/// stop ends with its error output after `stop dockerd failed: `.
pub proof fn law_plain_stop(v: PowerView, o: RunOutput)
    requires
        v.flow == PowerFlow::Drain,
        v.phase == PowerPhase::ServiceProbe(ServiceOp::Stop),
        o.code != 0,
    ensures
        ({
            let (w, s) = power_step(v, PowerEvent::Ran(Ok(o)));
            &&& s.ask == AskView::Run("sudo pkill -f 'dockerd'"@)
            &&& forall|f: RunOutput| f.code != 0 ==> {
                let (_, t) = #[trigger] power_step(w, PowerEvent::Ran(Ok(f)));
                t.ask == AskView::Done && t.notes == seq![
                    NoteView::Status("Failed to stop engine: "@ + ("stop dockerd failed: "@ + f.stderr@)),
                ]
            }
        }),
{
}

/// Starting under systemd unmasks and starts the user service, then (after
/// the socket on WSL) unmasks the system service and starts it.
pub proof fn law_systemd_start_sequence(v: PowerView, o: RunOutput)
    requires
        v.flow == PowerFlow::Start,
        o.code == 0,
    ensures
        ({
            let (w, s) = power_step(v, PowerEvent::Ran(Ok(o)));
            &&& v.phase == PowerPhase::StartProbeSystemd ==> w.systemd && s.ask == AskView::Run(
                "systemctl --user unmask docker.service docker.socket >/dev/null 2>&1"@,
            )
            &&& v.phase == PowerPhase::StartUserUnmask ==> s.ask == AskView::Run(
                "systemctl --user start docker.service docker.socket >/dev/null 2>&1"@,
            )
            &&& v.phase == PowerPhase::UnblockSocket && v.systemd ==> s.ask == AskView::Run(
                "sudo systemctl unmask docker.service docker.socket"@,
            )
            &&& v.phase == PowerPhase::StartSudoUnmask ==> s.ask == AskView::Run(
                "sudo systemctl start docker.service"@,
            )
        }),
{
}

/// Restarting under systemd is one `systemctl restart`.
pub proof fn law_systemd_restart(v: PowerView, o: RunOutput)
    requires
        v.flow == PowerFlow::Restart,
        v.phase == PowerPhase::RestartProbeSystemd,
        o.code == 0,
    ensures
        power_step(v, PowerEvent::Ran(Ok(o))).1.ask == AskView::Run("sudo systemctl restart docker"@),
{
}

} // verus!
