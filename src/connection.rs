use vstd::prelude::*;

use bollard::Docker;

use crate::errors::CollectError;

verus! {

#[verifier::external_type_specification]
#[verifier::external_body]
pub struct ExDocker(Docker);

#[verifier::external_type_specification]
#[verifier::external_body]
pub struct ExDockerError(bollard::errors::Error);

/// The read/write timeout, in seconds, of a client for an explicit target.
pub const CONNECT_TIMEOUT_SECS: u64 = 3;

/// Where the runtime is reached: a unix socket path, an HTTP URL, or, where
/// neither is given, the platform's default.
pub struct DockerConnection {
    pub unix_socket: Option<String>,
    pub http_url: Option<String>,
}

/// The target that a connection setting selects.
#[derive(Clone, Debug)]
pub enum ConnectionTarget {
    UnixSocket(String),
    Http(String),
    LocalDefaults,
}

/// The socket path wins over the URL, and the URL over the platform default.
pub open spec fn selected_target(unix_socket: Option<String>, http_url: Option<String>) -> ConnectionTarget {
    match unix_socket {
        Some(path) => ConnectionTarget::UnixSocket(path),
        None => match http_url {
            Some(url) => ConnectionTarget::Http(url),
            None => ConnectionTarget::LocalDefaults,
        },
    }
}

/// Relies on bollard's `Docker::connect_with_unix`: a client for the unix
/// socket at `path`, speaking the API version that bollard defaults to; it
/// fails where no file stands at that path.
#[verifier::external_body]
fn connect_unix(path: &str, timeout_secs: u64) -> (r: Result<Docker, bollard::errors::Error>) {
    Docker::connect_with_unix(path, timeout_secs, bollard::API_DEFAULT_VERSION)
}

/// Relies on bollard's `Docker::connect_with_http`: a client for the server
/// at `url`, speaking the API version that bollard defaults to. It only
/// builds the client, without reaching the server, and always succeeds.
#[verifier::external_body]
fn connect_http(url: &str, timeout_secs: u64) -> (r: Result<Docker, bollard::errors::Error>)
    ensures
        r is Ok,
{
    Docker::connect_with_http(url, timeout_secs, bollard::API_DEFAULT_VERSION)
}

/// Relies on bollard's `Docker::connect_with_local_defaults`: a client for
/// the platform's default socket (or the one that `DOCKER_HOST` names).
#[verifier::external_body]
fn connect_local_defaults() -> (r: Result<Docker, bollard::errors::Error>) {
    Docker::connect_with_local_defaults()
}

impl DockerConnection {
    pub fn new(unix_socket: Option<String>, http_url: Option<String>) -> (r: DockerConnection)
        ensures
            r.unix_socket == unix_socket,
            r.http_url == http_url,
    {
        DockerConnection { unix_socket, http_url }
    }

    /// The target that this setting selects.
    pub fn target(&self) -> (r: ConnectionTarget)
        ensures
            r == selected_target(self.unix_socket, self.http_url),
    {
        match &self.unix_socket {
            Some(path) => ConnectionTarget::UnixSocket(path.clone()),
            None => match &self.http_url {
                Some(url) => ConnectionTarget::Http(url.clone()),
                None => ConnectionTarget::LocalDefaults,
            },
        }
    }

    /// A client for the selected target; a client that could not be made is
    /// a connection failure. A client for an HTTP URL is always made.
    pub fn connect(&self) -> (r: Result<Docker, CollectError>)
        ensures
            r is Err ==> r == Err::<Docker, CollectError>(CollectError::ConnectionFailure),
            selected_target(self.unix_socket, self.http_url) is Http ==> r is Ok,
    {
        let made = match self.target() {
            ConnectionTarget::UnixSocket(path) => connect_unix(path.as_str(), CONNECT_TIMEOUT_SECS),
            ConnectionTarget::Http(url) => connect_http(url.as_str(), CONNECT_TIMEOUT_SECS),
            ConnectionTarget::LocalDefaults => connect_local_defaults(),
        };
        match made {
            Ok(docker) => Ok(docker),
            Err(_) => Err(CollectError::ConnectionFailure),
        }
    }
}

} // verus!
