use isekai::bridge::{
    attach_policy_once, load_request, observe_metadata, policy_header, route_path, save_request,
    BridgeError, BridgePath,
};

#[test]
fn paths_route_to_their_endpoints() {
    assert_eq!(route_path("/load_data"), BridgePath::LoadData);
    assert_eq!(route_path("/save_data"), BridgePath::SaveData);
    assert_eq!(route_path("load_data"), BridgePath::LoadData);
    assert_eq!(route_path("/other"), BridgePath::NotFound);
    assert_eq!(route_path("/"), BridgePath::NotFound);
    assert_eq!(route_path(""), BridgePath::NotFound);
    assert_eq!(route_path("//load_data"), BridgePath::NotFound);
}

#[test]
fn load_requires_both_headers() {
    let target = "system".to_string();
    let column = "age".to_string();
    let empty = "".to_string();

    let ticket = load_request(Some(&target), Some(&column)).unwrap();
    assert_eq!(ticket.target, "system");
    assert_eq!(ticket.column_name, "age");
    assert_eq!(ticket.to_json(), r#"{"target":"system","column_name":"age"}"#);

    assert!(matches!(load_request(None, Some(&column)), Err(BridgeError::MissingTarget)));
    assert!(matches!(load_request(Some(&empty), Some(&column)), Err(BridgeError::MissingTarget)));
    assert!(matches!(load_request(Some(&target), None), Err(BridgeError::MissingColumn)));
    assert!(matches!(load_request(Some(&target), Some(&empty)), Err(BridgeError::MissingColumn)));
}

#[test]
fn save_requires_the_policy_header() {
    let policy = "{\"rules\":{}}".to_string();
    let empty = "".to_string();
    assert_eq!(save_request(Some(&policy)).unwrap(), policy);
    assert_eq!(save_request(None), Err(BridgeError::MissingPolicy));
    assert_eq!(save_request(Some(&empty)), Err(BridgeError::MissingPolicy));
}

#[test]
fn policy_header_keeps_the_first_metadata() {
    let mut held: Option<String> = None;
    observe_metadata(&mut held, None);
    assert_eq!(held, None);
    observe_metadata(&mut held, Some("{\"rules\":{}}".to_string()));
    observe_metadata(&mut held, Some("{\"later\":{}}".to_string()));
    assert_eq!(policy_header(held), "{\"rules\":{}}");
    // A stream that never carried metadata reports the empty document.
    assert_eq!(policy_header(None), "{}");
}

#[test]
fn save_policy_rides_on_the_first_frame_only() {
    let mut policy = Some("{\"rules\":{}}".to_string());
    assert_eq!(attach_policy_once(&mut policy).as_deref(), Some("{\"rules\":{}}"));
    assert_eq!(attach_policy_once(&mut policy), None);
    assert_eq!(attach_policy_once(&mut policy), None);
}
