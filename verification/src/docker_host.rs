//! Where the Docker engine listens: parsing a `DOCKER_HOST` value and choosing
//! among an explicit setting, the environment and the platform's default.

use vstd::prelude::*;
use crate::text::{chars_of, has_prefix, owned, starts_with_chars, trim, trim_bounds, string_from_range};

verus! {

/// An engine address, by transport. Each holds the address as written.
#[derive(Debug, Clone)]
pub enum DockerHost {
    /// A unix socket, such as `unix:///var/run/docker.sock`.
    Unix(String),
    /// A Windows named pipe, such as `npipe:////./pipe/docker_engine`.
    Npipe(String),
    /// A TCP or HTTP address, such as `tcp://127.0.0.1:2375`.
    Tcp(String),
}

impl DockerHost {
    /// The address that the host holds, whatever its transport.
    pub open spec fn address(&self) -> Seq<char> {
        match self {
            DockerHost::Unix(s) => s@,
            DockerHost::Npipe(s) => s@,
            DockerHost::Tcp(s) => s@,
        }
    }

    pub fn as_str(&self) -> (r: &str)
        ensures
            r@ == self.address(),
    {
        match self {
            DockerHost::Unix(s) => s.as_str(),
            DockerHost::Npipe(s) => s.as_str(),
            DockerHost::Tcp(s) => s.as_str(),
        }
    }
}

/// The transport that an address names by its scheme.
#[derive(Debug, Clone, Copy, PartialEq, Eq, Structural)]
pub enum HostKind {
    Unix,
    Npipe,
    Tcp,
}

/// The transport of a trimmed address, if its scheme is one that is known.
pub open spec fn host_kind(s: Seq<char>) -> Option<HostKind> {
    if has_prefix(s, "unix://"@) {
        Some(HostKind::Unix)
    } else if has_prefix(s, "npipe://"@) || has_prefix(s, "npipe:"@) {
        Some(HostKind::Npipe)
    } else if has_prefix(s, "tcp://"@) || has_prefix(s, "http://"@) || has_prefix(s, "https://"@) {
        Some(HostKind::Tcp)
    } else {
        None
    }
}

/// The host that `parse_host` makes of `h`.
pub open spec fn parsed_host(h: Seq<char>) -> Option<(HostKind, Seq<char>)> {
    match host_kind(trim(h)) {
        Some(k) => Some((k, trim(h))),
        None => None,
    }
}

/// The kind and address of a host.
pub open spec fn host_view(d: DockerHost) -> (HostKind, Seq<char>) {
    match d {
        DockerHost::Unix(s) => (HostKind::Unix, s@),
        DockerHost::Npipe(s) => (HostKind::Npipe, s@),
        DockerHost::Tcp(s) => (HostKind::Tcp, s@),
    }
}

/// Reads an address: surrounding white space is dropped, and the scheme
/// (`unix://`, `npipe://` or `npipe:`, `tcp://`, `http://`, `https://`) picks the
/// transport. Any other text gives `None`.
pub fn parse_host(h: &str) -> (r: Option<DockerHost>)
    ensures
        match r {
            Some(d) => parsed_host(h@) == Some(host_view(d)),
            None => parsed_host(h@) is None,
        },
{
    let v = chars_of(h);
    let (a, b) = trim_bounds(&v);
    let s = string_from_range(&v, a, b);
    let t = chars_of(s.as_str());
    proof {
        reveal_strlit("unix://");
        reveal_strlit("npipe://");
        reveal_strlit("npipe:");
        reveal_strlit("tcp://");
        reveal_strlit("http://");
        reveal_strlit("https://");
    }
    if starts_with_chars(&t, "unix://") {
        Some(DockerHost::Unix(s))
    } else if starts_with_chars(&t, "npipe://") || starts_with_chars(&t, "npipe:") {
        Some(DockerHost::Npipe(s))
    } else if starts_with_chars(&t, "tcp://") || starts_with_chars(&t, "http://")
        || starts_with_chars(&t, "https://") {
        Some(DockerHost::Tcp(s))
    } else {
        None
    }
}

/// The platform's default address: the named pipe on Windows, the unix socket elsewhere.
pub open spec fn default_host_view(windows: bool) -> (HostKind, Seq<char>) {
    if windows {
        (HostKind::Npipe, "npipe:////./pipe/docker_engine"@)
    } else {
        (HostKind::Unix, "unix:///var/run/docker.sock"@)
    }
}

pub fn default_host(windows: bool) -> (r: DockerHost)
    ensures
        host_view(r) == default_host_view(windows),
{
    if windows {
        DockerHost::Npipe(owned("npipe:////./pipe/docker_engine"))
    } else {
        DockerHost::Unix(owned("unix:///var/run/docker.sock"))
    }
}

/// The address that `resolve_docker_host` chooses: an explicit setting first,
/// then a non-blank `DOCKER_HOST`, then the platform's default; a setting whose
/// scheme is unknown gives the default too.
pub open spec fn resolved_host(
    override_host: Option<Seq<char>>,
    env_host: Option<Seq<char>>,
    windows: bool,
) -> (HostKind, Seq<char>) {
    match override_host {
        Some(h) => match parsed_host(h) {
            Some(p) => p,
            None => default_host_view(windows),
        },
        None => match env_host {
            Some(h) => if trim(h).len() == 0 {
                default_host_view(windows)
            } else {
                match parsed_host(h) {
                    Some(p) => p,
                    None => default_host_view(windows),
                }
            },
            None => default_host_view(windows),
        },
    }
}

pub open spec fn opt_str_view(o: Option<&str>) -> Option<Seq<char>> {
    match o {
        Some(s) => Some(s@),
        None => None,
    }
}

/// Chooses the engine address. `env_host` is the value of `DOCKER_HOST`, where
/// it is set and readable; `windows` says whether the program runs on Windows.
pub fn resolve_docker_host(override_host: Option<&str>, env_host: Option<&str>, windows: bool) -> (r:
    DockerHost)
    ensures
        host_view(r) == resolved_host(opt_str_view(override_host), opt_str_view(env_host), windows),
{
    match override_host {
        Some(h) => match parse_host(h) {
            Some(d) => d,
            None => default_host(windows),
        },
        None => match env_host {
            Some(h) => {
                let v = chars_of(h);
                let (a, b) = trim_bounds(&v);
                if a == b {
                    default_host(windows)
                } else {
                    match parse_host(h) {
                        Some(d) => d,
                        None => default_host(windows),
                    }
                }
            },
            None => default_host(windows),
        },
    }
}

/// An explicit setting with a known scheme always wins over the environment.
pub proof fn law_override_wins(h: Seq<char>, env_host: Option<Seq<char>>, windows: bool)
    requires
        parsed_host(h) is Some,
    ensures
        resolved_host(Some(h), env_host, windows) == parsed_host(h).unwrap(),
{
}

/// The address a parsed host holds is the input with surrounding white space removed.
pub proof fn law_parse_keeps_trimmed_text(h: Seq<char>)
    requires
        parsed_host(h) is Some,
    ensures
        parsed_host(h).unwrap().1 == trim(h),
{
}

} // verus!

verus! {

/// Reading back the address of a parsed host gives the same host.
pub proof fn law_parse_round_trip(h: Seq<char>)
    requires
        parsed_host(h) is Some,
    ensures
        parsed_host(parsed_host(h).unwrap().1) == parsed_host(h),
{
    crate::text::law_trim_idempotent(h);
}

} // verus!
