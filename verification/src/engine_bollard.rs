//! The engine reached through the Docker API with the `bollard` client:
//! choosing the transport from the address, and turning the API's summaries
//! into rows.

use vstd::prelude::*;
use bollard::Docker;
use crate::models::{ContainerRow, ImageRow};
use crate::text::{
    chars_of, concat2, concat3, has_prefix, i64_to_string, join_strings, join_with, owned,
    replace_all, replace_str, signed_decimal, starts_with_chars, strings_view, strip_leading,
    strip_leading_char,
};
use crate::engine::EngineKind;

verus! {

#[verifier::external_type_specification]
#[verifier::external_body]
pub struct ExDocker(bollard::Docker);

#[verifier::external_type_specification]
#[verifier::external_body]
pub struct ExBollardError(bollard::errors::Error);

/// The seconds that each request to the engine may take.
pub const REQUEST_TIMEOUT_SECS: u64 = 120;

/// `bollard::Docker::connect_with_unix` with the client version that bollard
/// defaults to, handed back together with the socket address it was given.
/// Its source builds the client without any I/O and always returns `Ok`; that
/// is what is claimed, with the address. The timeout that the opaque client
/// carries is not stated.
#[verifier::external_body]
fn connect_unix(path: &str, timeout: u64) -> (r: (Result<Docker, bollard::errors::Error>, String))
    ensures
        r.0 is Ok,
        r.1@ == path@,
{
    (Docker::connect_with_unix(path, timeout, bollard::API_DEFAULT_VERSION), path.to_string())
}

/// `bollard::Docker::connect_with_http` with the client version that bollard
/// defaults to, handed back together with the address it was given. Its
/// source builds the client without any I/O and always returns `Ok`; that is
/// what is claimed, with the address. The timeout that the opaque client
/// carries is not stated.
#[verifier::external_body]
fn connect_http(addr: &str, timeout: u64) -> (r: (Result<Docker, bollard::errors::Error>, String))
    ensures
        r.0 is Ok,
        r.1@ == addr@,
{
    (Docker::connect_with_http(addr, timeout, bollard::API_DEFAULT_VERSION), addr.to_string())
}

/// The text of a bollard error (its `Display`). Nothing is claimed of it.
#[verifier::external_body]
fn bollard_error_text(e: &bollard::errors::Error) -> String {
    e.to_string()
}

/// A connection to the Docker API.
pub struct BollardEngine {
    docker: Docker,
    display_name: String,
    endpoint: String,
}

/// How `connect` treats an address.
pub enum ConnectPlan {
    /// A unix socket at this address.
    Unix,
    /// An HTTP endpoint at this address.
    Http(Seq<char>),
    /// Refused with this message.
    Refused(Seq<char>),
}

/// What `connect` does with an address: unix sockets and `tcp://` or
/// `http://` endpoints are used (`tcp://` read as `http://`); named pipes need
/// a Windows build, `https://` needs TLS settings that are not supported, and
/// any other scheme is refused.
pub open spec fn connect_plan(host: Seq<char>) -> ConnectPlan {
    if has_prefix(host, "unix://"@) {
        ConnectPlan::Unix
    } else if has_prefix(host, "npipe://"@) || has_prefix(host, "npipe:"@) {
        ConnectPlan::Refused("npipe Docker host is only supported on Windows builds: "@ + host)
    } else if has_prefix(host, "https://"@) {
        ConnectPlan::Refused(
            "https:// DOCKER_HOST requires TLS config (not wired in this MVP). Use unix://, npipe://, or tcp://"@,
        )
    } else if has_prefix(host, "tcp://"@) || has_prefix(host, "http://"@) {
        ConnectPlan::Http(replace_all(host, "tcp://"@, "http://"@))
    } else {
        ConnectPlan::Refused("Unsupported DOCKER_HOST: "@ + host)
    }
}

impl BollardEngine {
    pub closed spec fn name_view(&self) -> Seq<char> {
        self.display_name@
    }

    /// The address that the client was made for.
    pub closed spec fn endpoint_view(&self) -> Seq<char> {
        self.endpoint@
    }

    /// The client that the engine calls the API through.
    pub closed spec fn client(&self) -> Docker {
        self.docker
    }

    /// Makes a client for the engine at `host` (a `DOCKER_HOST` value). Named
    /// pipes are refused here: a Windows build connects to them itself and
    /// makes the engine with `from_parts`.
    pub fn connect(host: &str) -> (r: Result<BollardEngine, String>)
        ensures
            match connect_plan(host@) {
                ConnectPlan::Refused(m) => r matches Err(e) && e@ == m,
                ConnectPlan::Unix => r matches Ok(eng) && eng.name_view() == "Docker API ("@ + host@
                    + ")"@ && eng.endpoint_view() == host@,
                ConnectPlan::Http(a) => r matches Ok(eng) && eng.name_view() == "Docker API ("@ + host@
                    + ")"@ && eng.endpoint_view() == a,
            },
    {
        let v = chars_of(host);
        proof {
            reveal_strlit("unix://");
            reveal_strlit("npipe://");
            reveal_strlit("npipe:");
            reveal_strlit("https://");
            reveal_strlit("tcp://");
            reveal_strlit("http://");
        }
        let connected = if starts_with_chars(&v, "unix://") {
            connect_unix(host, REQUEST_TIMEOUT_SECS)
        } else if starts_with_chars(&v, "npipe://") || starts_with_chars(&v, "npipe:") {
            return Err(concat2("npipe Docker host is only supported on Windows builds: ", host));
        } else if starts_with_chars(&v, "https://") {
            return Err(
                owned(
                    "https:// DOCKER_HOST requires TLS config (not wired in this MVP). Use unix://, npipe://, or tcp://",
                ),
            );
        } else if starts_with_chars(&v, "tcp://") || starts_with_chars(&v, "http://") {
            let http_addr = replace_str(host, "tcp://", "http://");
            connect_http(http_addr.as_str(), REQUEST_TIMEOUT_SECS)
        } else {
            return Err(concat2("Unsupported DOCKER_HOST: ", host));
        };
        let (client, endpoint) = connected;
        match client {
            Ok(docker) => Ok(
                BollardEngine { docker, display_name: concat3("Docker API (", host, ")"), endpoint },
            ),
            Err(e) => {
                let text = bollard_error_text(&e);
                let head = concat3("Failed to connect to Docker daemon at ", host, ": ");
                Err(concat2(head.as_str(), text.as_str()))
            },
        }
    }

    /// An engine from a client made elsewhere for `host`, shown under
    /// `Docker API (<host>)`.
    pub fn from_parts(docker: Docker, host: &str) -> (r: BollardEngine)
        ensures
            r.name_view() == "Docker API ("@ + host@ + ")"@,
            r.endpoint_view() == host@,
            r.client() == docker,
    {
        BollardEngine { docker, display_name: concat3("Docker API (", host, ")"), endpoint: owned(host) }
    }

    pub fn kind(&self) -> (r: EngineKind)
        ensures
            r == EngineKind::DockerApi,
    {
        EngineKind::DockerApi
    }

    /// The name shown in the status line.
    pub fn name(&self) -> (r: String)
        ensures
            r@ == self.name_view(),
    {
        self.display_name.clone()
    }

    /// The address that the client was made for.
    pub fn endpoint(&self) -> (r: String)
        ensures
            r@ == self.endpoint_view(),
    {
        self.endpoint.clone()
    }

    /// The client, for the calls that the event loop makes.
    pub fn docker(&self) -> (r: &Docker)
        ensures
            *r == self.client(),
    {
        &self.docker
    }
}

pub open spec fn opt_view(o: Option<String>) -> Seq<char> {
    match o {
        Some(s) => s@,
        None => Seq::empty(),
    }
}

/// The name under which a container is listed: its first name without the
/// leading slashes, or nothing.
pub open spec fn listed_name(names: Option<Seq<Seq<char>>>) -> Seq<char> {
    match names {
        Some(n) => if n.len() > 0 { strip_leading(n[0], '/') } else { Seq::empty() },
        None => Seq::empty(),
    }
}

fn text_or_empty(o: Option<String>) -> (r: String)
    ensures
        r@ == opt_view(o),
{
    match o {
        Some(s) => s,
        None => String::new(),
    }
}

/// The row for one container summary of the API; missing fields are empty.
pub fn container_row_from_summary(
    id: Option<String>,
    names: Option<Vec<String>>,
    image: Option<String>,
    state: Option<String>,
    status: Option<String>,
) -> (r: ContainerRow)
    ensures
        r.id@ == opt_view(id),
        r.name@ == listed_name(
            match names {
                Some(n) => Some(strings_view(n@)),
                None => None,
            },
        ),
        r.image@ == opt_view(image),
        r.state@ == opt_view(state),
        r.status@ == opt_view(status),
{
    let name = match &names {
        Some(n) => if n.len() > 0 {
            strip_leading_char(n[0].as_str(), '/')
        } else {
            String::new()
        },
        None => String::new(),
    };
    ContainerRow {
        id: text_or_empty(id),
        name,
        image: text_or_empty(image),
        state: text_or_empty(state),
        status: text_or_empty(status),
    }
}

/// The row for one image summary of the API: its tags joined with `, ` and
/// its creation time in seconds as a number. `size` is the size as shown.
pub fn image_row_from_summary(id: String, repo_tags: &Vec<String>, size: String, created: i64) -> (r:
    ImageRow)
    ensures
        r.id == id,
        r.tags@ == join_with(strings_view(repo_tags@), ", "@),
        r.size == size,
        r.created@ == signed_decimal(created as int),
{
    ImageRow { id, tags: join_strings(repo_tags, ", "), size, created: i64_to_string(created) }
}

} // verus!
