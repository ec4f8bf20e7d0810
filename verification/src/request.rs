//! Building the HTTP requests that the Docker Engine API expects.
//!
//! Each of the five container operations maps to one endpoint of the daemon's
//! API. Creating a container posts a JSON configuration to a fixed endpoint;
//! the four lifecycle actions (start, stop, pause, unpause) post an empty
//! body to an endpoint that names the container. Everything else about a
//! request is fixed: the method is POST, the one header declares a JSON
//! content type, and the transport is the daemon's local Unix socket.

use vstd::prelude::*;

verus! {

/// The URI prefix under which the daemon exposes container operations.
pub open spec fn containers_base() -> Seq<char> {
    "http://localhost/containers/"@
}

/// The endpoint that creates a container.
pub open spec fn create_endpoint() -> Seq<char> {
    "http://localhost/containers/create"@
}

/// The endpoint for a lifecycle action on the container with the given id:
/// the container id and the action name, each as one path segment under the
/// containers prefix.
pub open spec fn action_endpoint(container_id: Seq<char>, action: Seq<char>) -> Seq<char> {
    containers_base() + container_id + "/"@ + action
}

/// One request to the Docker daemon, ready to send: where to POST and what
/// body to carry. Only these two vary between operations; the method, the
/// content-type header and the socket path are the same for every request
/// (`http_method`, `content_type_name`, `content_type_value`,
/// `docker_socket_path`).
pub struct DockerRequest {
    /// Full URI of the endpoint the request is addressed to.
    pub uri: String,
    /// The request body: the caller's JSON configuration for a create,
    /// empty for the four lifecycle actions.
    pub body: String,
}

/// Path of the Unix socket on which the local Docker daemon listens.
pub fn docker_socket_path() -> (r: &'static str)
    ensures
        r@ == "/var/run/docker.sock"@,
{
    "/var/run/docker.sock"
}

/// Every request to the daemon is sent with this HTTP method.
pub fn http_method() -> (r: &'static str)
    ensures
        r@ == "POST"@,
{
    "POST"
}

/// Name of the one header set on every request.
pub fn content_type_name() -> (r: &'static str)
    ensures
        r@ == "content-type"@,
{
    "content-type"
}

/// Value of that header: the daemon is always handed JSON.
pub fn content_type_value() -> (r: &'static str)
    ensures
        r@ == "application/json"@,
{
    "application/json"
}

/// Assemble the endpoint URI for a lifecycle action on one container.
fn endpoint_for_action(container_id: &str, action: &str) -> (r: String)
    ensures
        r@ == action_endpoint(container_id@, action@),
{
    let mut uri = String::from_str("http://localhost/containers/");
    uri.append(container_id);
    uri.append("/");
    uri.append(action);
    proof {
        assert(uri@ =~= action_endpoint(container_id@, action@));
    }
    uri
}

/// Build the request that creates a container from a JSON configuration.
///
/// The caller supplies the full JSON body the Docker Engine API expects for
/// container creation; it is carried to the create endpoint unchanged.
pub fn create_container_request(config: String) -> (r: DockerRequest)
    ensures
        r.uri@ == create_endpoint(),
        r.body@ == config@,
{
    DockerRequest { uri: String::from_str("http://localhost/containers/create"), body: config }
}

/// Build the request that starts the container with the given id.
pub fn start_container_request(container_id: String) -> (r: DockerRequest)
    ensures
        r.uri@ == action_endpoint(container_id@, "start"@),
        r.body@ == Seq::<char>::empty(),
{
    DockerRequest {
        uri: endpoint_for_action(container_id.as_str(), "start"),
        body: String::new(),
    }
}

/// Build the request that stops the container with the given id.
pub fn stop_container_request(container_id: String) -> (r: DockerRequest)
    ensures
        r.uri@ == action_endpoint(container_id@, "stop"@),
        r.body@ == Seq::<char>::empty(),
{
    DockerRequest {
        uri: endpoint_for_action(container_id.as_str(), "stop"),
        body: String::new(),
    }
}

/// Build the request that pauses the container with the given id.
pub fn pause_container_request(container_id: String) -> (r: DockerRequest)
    ensures
        r.uri@ == action_endpoint(container_id@, "pause"@),
        r.body@ == Seq::<char>::empty(),
{
    DockerRequest {
        uri: endpoint_for_action(container_id.as_str(), "pause"),
        body: String::new(),
    }
}

/// Build the request that unpauses the container with the given id.
pub fn unpause_container_request(container_id: String) -> (r: DockerRequest)
    ensures
        r.uri@ == action_endpoint(container_id@, "unpause"@),
        r.body@ == Seq::<char>::empty(),
{
    DockerRequest {
        uri: endpoint_for_action(container_id.as_str(), "unpause"),
        body: String::new(),
    }
}

} // verus!
