use lapdev_ws::engine::{
    delete_image_outcome, delete_network_outcome, image_delete_path, image_inspect_path,
    inspect_image_outcome, network_delete_path,
};
use lapdev_ws::error::ApiError;

#[test]
fn engine_api_paths() {
    assert_eq!(image_inspect_path("foo"), "/images/foo/json");
    assert_eq!(image_delete_path("foo"), "/images/foo");
    assert_eq!(network_delete_path("net0"), "/networks/net0");
}

#[test]
fn delete_missing_image_is_success() {
    // The engine answers 404 for an image that is already gone; deletion
    // still counts as done.
    assert!(delete_image_outcome(404, "no such image".to_string()).is_ok());
    assert!(delete_image_outcome(200, String::new()).is_ok());
}

#[test]
fn delete_image_other_status_is_engine_error() {
    match delete_image_outcome(500, "boom".to_string()) {
        Err(ApiError::EngineError(body)) => assert_eq!(body, "boom"),
        other => panic!("unexpected result: {other:?}"),
    }
}

#[test]
fn delete_network_statuses() {
    assert!(delete_network_outcome(204, String::new()).is_ok());
    assert!(delete_network_outcome(404, String::new()).is_ok());
    match delete_network_outcome(200, "odd".to_string()) {
        Err(ApiError::EngineError(body)) => assert_eq!(body, "odd"),
        other => panic!("unexpected result: {other:?}"),
    }
}

#[test]
fn inspect_hands_body_on_only_for_200() {
    assert_eq!(inspect_image_outcome(200, "{}".to_string()).unwrap(), "{}");
    match inspect_image_outcome(404, "no such image".to_string()) {
        Err(ApiError::EngineError(body)) => assert_eq!(body, "no such image"),
        other => panic!("unexpected result: {other:?}"),
    }
}
