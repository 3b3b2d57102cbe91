//! `docker compose` runs: the command lines for each action and the messages
//! when a run fails.

use vstd::prelude::*;
use crate::text::{concat2, concat3, eq_str, i64_to_string, owned, signed_decimal, strings_view};

verus! {

/// Where a compose project is and how it is named.
#[derive(Debug, Clone)]
pub struct ComposeOptions {
    /// The directory that holds the compose file.
    pub project_dir: String,
    /// A compose file given with `-f`.
    pub file: Option<String>,
    /// A project name given with `-p`.
    pub project_name: Option<String>,
}

/// The arguments common to every run: `compose`, then `-f <file>` and
/// `-p <name>` where they are set.
pub open spec fn base_args_of(opts: ComposeOptions) -> Seq<Seq<char>> {
    let a = seq!["compose"@];
    let b = match opts.file {
        Some(f) => a + seq!["-f"@, f@],
        None => a,
    };
    match opts.project_name {
        Some(p) => b + seq!["-p"@, p@],
        None => b,
    }
}

pub fn base_args(opts: &ComposeOptions) -> (r: Vec<String>)
    ensures
        strings_view(r@) == base_args_of(*opts),
{
    let mut args: Vec<String> = Vec::new();
    args.push(owned("compose"));
    match &opts.file {
        Some(f) => {
            args.push(owned("-f"));
            args.push(f.clone());
        },
        None => {},
    }
    match &opts.project_name {
        Some(p) => {
            args.push(owned("-p"));
            args.push(p.clone());
        },
        None => {},
    }
    assert(strings_view(args@) =~= base_args_of(*opts));
    args
}

/// A compose action.
#[derive(Debug, Clone, Copy, PartialEq, Eq, Structural)]
pub enum ComposeAction {
    /// `up`, in the background when `detached`.
    Up { detached: bool },
    Down,
    Ps,
    /// The last 200 lines of the logs, then new ones when `follow`.
    Logs { follow: bool },
}

/// The arguments that follow the common ones for an action.
pub open spec fn action_args(a: ComposeAction) -> Seq<Seq<char>> {
    match a {
        ComposeAction::Up { detached } => if detached { seq!["up"@, "-d"@] } else { seq!["up"@] },
        ComposeAction::Down => seq!["down"@],
        ComposeAction::Ps => seq!["ps"@],
        ComposeAction::Logs { follow } => if follow {
            seq!["logs"@, "-f"@, "--tail"@, "200"@]
        } else {
            seq!["logs"@, "--tail"@, "200"@]
        },
    }
}

/// The arguments of `docker` for an action on a project.
pub fn compose_args(opts: &ComposeOptions, action: ComposeAction) -> (r: Vec<String>)
    ensures
        strings_view(r@) == base_args_of(*opts) + action_args(action),
{
    let mut args = base_args(opts);
    let ghost base = strings_view(args@);
    match action {
        ComposeAction::Up { detached } => {
            args.push(owned("up"));
            if detached {
                args.push(owned("-d"));
            }
        },
        ComposeAction::Down => {
            args.push(owned("down"));
        },
        ComposeAction::Ps => {
            args.push(owned("ps"));
        },
        ComposeAction::Logs { follow } => {
            args.push(owned("logs"));
            if follow {
                args.push(owned("-f"));
            }
            args.push(owned("--tail"));
            args.push(owned("200"));
        },
    }
    assert(strings_view(args@) =~= base + action_args(action));
    args
}

/// The action that a `--compose` name asks for: `up` (in the background),
/// `down`, `ps`, `logs` and `logs-follow`; any other name is refused.
pub open spec fn action_named(name: Seq<char>) -> Result<ComposeAction, Seq<char>> {
    if name == "up"@ {
        Ok(ComposeAction::Up { detached: true })
    } else if name == "down"@ {
        Ok(ComposeAction::Down)
    } else if name == "ps"@ {
        Ok(ComposeAction::Ps)
    } else if name == "logs"@ {
        Ok(ComposeAction::Logs { follow: false })
    } else if name == "logs-follow"@ {
        Ok(ComposeAction::Logs { follow: true })
    } else {
        Err("Unknown --compose action: "@ + name + ". Use up|down|ps|logs|logs-follow"@)
    }
}

pub fn compose_action_named(name: &str) -> (r: Result<ComposeAction, String>)
    ensures
        match r {
            Ok(a) => action_named(name@) == Ok::<ComposeAction, Seq<char>>(a),
            Err(e) => action_named(name@) == Err::<ComposeAction, Seq<char>>(e@),
        },
{
    if eq_str(name, "up") {
        Ok(ComposeAction::Up { detached: true })
    } else if eq_str(name, "down") {
        Ok(ComposeAction::Down)
    } else if eq_str(name, "ps") {
        Ok(ComposeAction::Ps)
    } else if eq_str(name, "logs") {
        Ok(ComposeAction::Logs { follow: false })
    } else if eq_str(name, "logs-follow") {
        Ok(ComposeAction::Logs { follow: true })
    } else {
        Err(concat3("Unknown --compose action: ", name, ". Use up|down|ps|logs|logs-follow"))
    }
}

/// An exit code as `{:?}` shows an `Option<i32>`: `Some(<code>)` or `None`.
pub open spec fn code_text(code: Option<i32>) -> Seq<char> {
    match code {
        Some(c) => "Some("@ + signed_decimal(c as int) + ")"@,
        None => "None"@,
    }
}

fn code_string(code: Option<i32>) -> (r: String)
    ensures
        r@ == code_text(code),
{
    match code {
        Some(c) => {
            let n = i64_to_string(c as i64);
            concat3("Some(", n.as_str(), ")")
        },
        None => owned("None"),
    }
}

/// The error of a captured run that failed, with its exit code and error output.
pub fn capture_failure_message(code: Option<i32>, stderr: &str) -> (r: String)
    ensures
        r@ == "docker compose failed (code="@ + code_text(code) + "): "@ + stderr@,
{
    let c = code_string(code);
    let head = concat3("docker compose failed (code=", c.as_str(), "): ");
    concat2(head.as_str(), stderr)
}

/// The error of an interactive `up` that failed, with its exit code.
pub fn up_failure_message(code: Option<i32>) -> (r: String)
    ensures
        r@ == "docker compose up failed (code="@ + code_text(code) + ")"@,
{
    let c = code_string(code);
    concat3("docker compose up failed (code=", c.as_str(), ")")
}

} // verus!
