use docker_health_monitor::connection::{ConnectionTarget, DockerConnection};
use docker_health_monitor::errors::CollectError;

#[test]
fn unix_socket_wins_over_url() {
    let c = DockerConnection::new(Some("/run/docker.sock".to_string()), Some("http://h:2375".to_string()));
    assert!(matches!(c.target(), ConnectionTarget::UnixSocket(p) if p == "/run/docker.sock"));
}

#[test]
fn url_is_used_without_socket() {
    let c = DockerConnection::new(None, Some("http://h:2375".to_string()));
    assert!(matches!(c.target(), ConnectionTarget::Http(u) if u == "http://h:2375"));
}

#[test]
fn platform_default_without_either() {
    let c = DockerConnection::new(None, None);
    assert!(matches!(c.target(), ConnectionTarget::LocalDefaults));
}

#[test]
fn missing_socket_is_a_connection_failure() {
    let unix = DockerConnection::new(Some("/nonexistent/dir/docker.sock".to_string()), None);
    assert!(matches!(unix.connect(), Err(CollectError::ConnectionFailure)));
}

#[test]
fn client_for_http_target_is_made() {
    let http = DockerConnection::new(None, Some("http://127.0.0.1:2375".to_string()));
    assert!(http.connect().is_ok());
}
