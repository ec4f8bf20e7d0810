//! A minimal client library for the Docker Engine API.
//!
//! Five operations — create, start, stop, pause and unpause a container —
//! each amount to one HTTP POST aimed at the local Docker daemon's Unix
//! socket. This crate holds the part of that work that can be stated and
//! proved: assembling each request (endpoint URI and body, with the fixed
//! method, header and socket path) and deciding what text a call hands back
//! for each transport outcome. Opening the socket and sending the request is
//! plain I/O and stays with the caller.

pub mod request;
pub mod response;

pub use request::DockerRequest;
pub use request::create_container_request;
pub use request::start_container_request;
pub use request::stop_container_request;
pub use request::pause_container_request;
pub use request::unpause_container_request;
pub use request::docker_socket_path;
pub use request::http_method;
pub use request::content_type_name;
pub use request::content_type_value;
pub use response::response_or_empty;
