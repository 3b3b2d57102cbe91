//! What the engines have in common: their kind, the options of a log request,
//! and how a failed call is reported.

use vstd::prelude::*;
use crate::text::{concat2, owned};

verus! {

/// The two ways of reaching the engine.
#[derive(Debug, Clone, Copy, PartialEq, Eq, Structural)]
pub enum EngineKind {
    /// The Docker API, over a socket, pipe or TCP.
    DockerApi,
    /// The `docker` command inside a WSL distribution.
    WslCli,
}

/// What a log request asks for.
#[derive(Debug, Clone)]
pub struct LogsOptions {
    pub follow: bool,
    /// How many of the last lines to send, such as `"100"`; all when `None`.
    pub tail: Option<String>,
    pub timestamps: bool,
}

/// The number of last log lines that a request asks for when it names none.
pub open spec fn default_tail() -> Seq<char> {
    "200"@
}

/// The tail of a log request: the one it names, or the last 200 lines.
pub fn tail_or_default(opts: &LogsOptions) -> (r: String)
    ensures
        r@ == (match opts.tail {
            Some(t) => t@,
            None => default_tail(),
        }),
{
    match &opts.tail {
        Some(t) => t.clone(),
        None => owned("200"),
    }
}

/// The request that the logs view makes: the last 200 lines, then new ones
/// as they come when `follow` is set, without time stamps.
pub fn tail_logs_options(follow: bool) -> (r: LogsOptions)
    ensures
        r.follow == follow,
        r.tail matches Some(t) && t@ == default_tail(),
        !r.timestamps,
{
    LogsOptions { follow, tail: Some(owned("200")), timestamps: false }
}

/// How an engine call failed: the engine reported an error, or the task that
/// ran the call failed.
#[derive(Debug, Clone)]
pub enum CallError {
    Engine(String),
    Task(String),
}

/// The status line for a failed call: `"Error: "` or `"Task error: "` and the message.
pub open spec fn call_error_text(e: CallError) -> Seq<char> {
    match e {
        CallError::Engine(m) => "Error: "@ + m@,
        CallError::Task(m) => "Task error: "@ + m@,
    }
}

pub fn call_error_message(e: &CallError) -> (r: String)
    ensures
        r@ == call_error_text(*e),
{
    match e {
        CallError::Engine(m) => concat2("Error: ", m.as_str()),
        CallError::Task(m) => concat2("Task error: ", m.as_str()),
    }
}

/// A message naming what failed: `engine_prefix` and the message for an engine
/// error, `task_prefix` and the message for a failed task.
pub open spec fn prefixed_error_text(e: CallError, engine_prefix: Seq<char>, task_prefix: Seq<char>) -> Seq<char> {
    match e {
        CallError::Engine(m) => engine_prefix + m@,
        CallError::Task(m) => task_prefix + m@,
    }
}

pub fn prefixed_error(e: &CallError, engine_prefix: &str, task_prefix: &str) -> (r: String)
    ensures
        r@ == prefixed_error_text(*e, engine_prefix@, task_prefix@),
{
    match e {
        CallError::Engine(m) => concat2(engine_prefix, m.as_str()),
        CallError::Task(m) => concat2(task_prefix, m.as_str()),
    }
}

} // verus!

verus! {

/// The shell started inside a container: bash where it exists, sh otherwise.
pub open spec fn shell_bootstrap() -> Seq<char> {
    "if command -v bash >/dev/null 2>&1; then exec bash; else exec sh; fi"@
}

/// The program and arguments that open an interactive shell in container
/// `id`: `docker exec -it`, through `wsl.exe --` for the WSL engine.
pub open spec fn shell_command_of(kind: EngineKind, id: Seq<char>) -> (Seq<char>, Seq<Seq<char>>) {
    let exec = seq!["docker"@, "exec"@, "-it"@, id, "sh"@, "-lc"@, shell_bootstrap()];
    match kind {
        EngineKind::DockerApi => ("docker"@, exec.drop_first()),
        EngineKind::WslCli => ("wsl.exe"@, seq!["--"@] + exec),
    }
}

pub fn shell_command(kind: EngineKind, id: &str) -> (r: (String, Vec<String>))
    ensures
        (r.0@, crate::text::strings_view(r.1@)) == shell_command_of(kind, id@),
{
    let mut args: Vec<String> = Vec::new();
    let program = match kind {
        EngineKind::DockerApi => owned("docker"),
        EngineKind::WslCli => {
            args.push(owned("--"));
            args.push(owned("docker"));
            owned("wsl.exe")
        },
    };
    args.push(owned("exec"));
    args.push(owned("-it"));
    args.push(owned(id));
    args.push(owned("sh"));
    args.push(owned("-lc"));
    args.push(owned("if command -v bash >/dev/null 2>&1; then exec bash; else exec sh; fi"));
    assert(crate::text::strings_view(args@) =~= shell_command_of(kind, id@).1);
    (program, args)
}

/// The shell of either engine is `docker exec -it <id>` running `sh -lc` with
/// a script that prefers bash: straight for the Docker API engine, through
/// `wsl.exe --` for the WSL engine, whose arguments are the same ones after
/// `-- docker`.
pub proof fn law_shell_is_docker_exec_it(id: Seq<char>)
    ensures
        shell_command_of(EngineKind::DockerApi, id) == ("docker"@, seq![
            "exec"@,
            "-it"@,
            id,
            "sh"@,
            "-lc"@,
            "if command -v bash >/dev/null 2>&1; then exec bash; else exec sh; fi"@,
        ]),
        shell_command_of(EngineKind::WslCli, id).0 == "wsl.exe"@,
        shell_command_of(EngineKind::WslCli, id).1 == seq!["--"@, "docker"@] + shell_command_of(
            EngineKind::DockerApi,
            id,
        ).1,
{
    let direct = shell_command_of(EngineKind::DockerApi, id).1;
    let through_wsl = shell_command_of(EngineKind::WslCli, id).1;
    assert(direct =~= seq![
        "exec"@,
        "-it"@,
        id,
        "sh"@,
        "-lc"@,
        "if command -v bash >/dev/null 2>&1; then exec bash; else exec sh; fi"@,
    ]);
    assert(through_wsl =~= seq!["--"@, "docker"@] + direct);
}

} // verus!
