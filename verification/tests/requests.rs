use shipshape::create_container_request;
use shipshape::start_container_request;
use shipshape::stop_container_request;
use shipshape::pause_container_request;
use shipshape::unpause_container_request;
use shipshape::docker_socket_path;
use shipshape::http_method;
use shipshape::content_type_name;
use shipshape::content_type_value;

#[test]
fn create_request_targets_create_endpoint() {
    let config = "{\"Image\": \"alpine\", \"Cmd\": [\"echo\", \"hello world\"]}";
    let r = create_container_request(config.to_string());
    assert_eq!(r.uri, "http://localhost/containers/create");
    assert_eq!(r.body, config);
}

#[test]
fn create_request_keeps_config_verbatim() {
    let config = "{\"Image\": \"alpine\", \"Cmd\": [\"sh\"], \"AutoRemove\": true}";
    let r = create_container_request(config.to_string());
    assert_eq!(r.body, config);
}

#[test]
fn start_request_names_the_container() {
    let id = "4e1a304b2eca8e12fd4ca76607edbbfe340a3a3b78b0f3db3b11b62291556d9a";
    let r = start_container_request(id.to_string());
    assert_eq!(
        r.uri,
        format!("http://localhost/containers/{}/start", id)
    );
    assert_eq!(r.body, "");
}

#[test]
fn stop_request_names_the_container() {
    let r = stop_container_request("abc123".to_string());
    assert_eq!(r.uri, "http://localhost/containers/abc123/stop");
    assert_eq!(r.body, "");
}

#[test]
fn pause_request_names_the_container() {
    let r = pause_container_request("abc123".to_string());
    assert_eq!(r.uri, "http://localhost/containers/abc123/pause");
    assert_eq!(r.body, "");
}

#[test]
fn unpause_request_names_the_container() {
    let r = unpause_container_request("abc123".to_string());
    assert_eq!(r.uri, "http://localhost/containers/abc123/unpause");
    assert_eq!(r.body, "");
}

#[test]
fn action_request_with_empty_id() {
    let r = start_container_request(String::new());
    assert_eq!(r.uri, "http://localhost/containers//start");
    assert_eq!(r.body, "");
}

#[test]
fn fixed_request_parameters() {
    assert_eq!(docker_socket_path(), "/var/run/docker.sock");
    assert_eq!(http_method(), "POST");
    assert_eq!(content_type_name(), "content-type");
    assert_eq!(content_type_value(), "application/json");
}
