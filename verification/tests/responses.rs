use beelay::response::get_error_message;
use beelay::response::handle_bad_status;
use beelay::response::render_switch_list;
use beelay::response::render_switch_state_response;
use beelay::response::render_switches_response;
use beelay::response::switch_list_outcome;
use beelay::response::switch_state_outcome;

#[test]
fn get_prints_state_and_transitioning() {
    let body = r#"{"state":"on","transitioning":"false"}"#;
    let out = switch_state_outcome(true, "200 OK", Ok(body.to_string()));
    assert_eq!(out, Ok("state         : on\ntransitioning : false\n".to_string()));
}

#[test]
fn state_fields_may_come_in_any_order() {
    let body = r#"{"transitioning":"true","state":"off"}"#;
    let out = render_switch_state_response(body);
    assert_eq!(out, Ok("state         : off\ntransitioning : true\n".to_string()));
}

#[test]
fn list_prints_header_then_names_in_order() {
    let body = r#"{"switches":["a","b","c"]}"#;
    let out = switch_list_outcome(true, "200 OK", Ok(body.to_string()));
    assert_eq!(out, Ok("Switch list:\n    a\n    b\n    c\n".to_string()));
}

#[test]
fn empty_list_prints_header_alone() {
    let out = render_switches_response(r#"{"switches":[]}"#);
    assert_eq!(out, Ok("Switch list:\n".to_string()));
}

#[test]
fn rendered_list_keeps_order() {
    let names = vec!["b".to_string(), "a".to_string()];
    assert_eq!(render_switch_list(&names), "Switch list:\n    b\n    a\n");
}

#[test]
fn bad_status_reports_code_and_message() {
    let body = r#"{"error_message":"not found"}"#;
    let out = switch_state_outcome(false, "404 Not Found", Ok(body.to_string()));
    let err = out.unwrap_err();
    assert_eq!(err, "404 Not Found response: not found");
    assert!(err.contains("404"));
    assert!(err.contains("not found"));
}

#[test]
fn bad_status_on_list_uses_same_error_path() {
    let body = r#"{"error_message":"boom"}"#;
    let out = switch_list_outcome(false, "500 Internal Server Error", Ok(body.to_string()));
    assert_eq!(out, Err("500 Internal Server Error response: boom".to_string()));
}

#[test]
fn bad_status_with_unparseable_body() {
    let out = handle_bad_status("404 Not Found", Ok("<html>".to_string()));
    assert!(out.starts_with("Could not retrieve error message for 404 Not Found response: "));
}

#[test]
fn bad_status_with_unreadable_body() {
    let out = handle_bad_status("404 Not Found", Err("read failure".to_string()));
    assert_eq!(out, "Failed to get text body from response");
}

#[test]
fn invalid_json_success_body_is_a_parse_failure() {
    let out = render_switch_state_response("not json at all");
    let err = out.unwrap_err();
    assert!(err.starts_with("Failed to parse response: "));
}

#[test]
fn wrong_shape_success_body_is_a_parse_failure() {
    let out = render_switch_state_response(r#"{"state":5,"transitioning":"false"}"#);
    let err = out.unwrap_err();
    assert!(err.starts_with("Failed to parse response: "));
    assert!(err.contains("state"));
}

#[test]
fn missing_transitioning_field_is_a_parse_failure() {
    let out = render_switch_state_response(r#"{"state":"on"}"#);
    let err = out.unwrap_err();
    assert!(err.starts_with("Failed to parse response: "));
    assert!(err.contains("transitioning"));
}

#[test]
fn list_body_must_hold_strings_only() {
    let out = render_switches_response(r#"{"switches":["a",1]}"#);
    assert!(out.unwrap_err().starts_with("Failed to parse response: "));
}

#[test]
fn read_failure_on_success_status_is_propagated() {
    let out = switch_state_outcome(true, "200 OK", Err("connection closed".to_string()));
    assert_eq!(out, Err("connection closed".to_string()));
}

#[test]
fn error_message_is_extracted() {
    assert_eq!(
        get_error_message(r#"{"error_message":"switch is busy"}"#),
        Ok("switch is busy".to_string())
    );
}

#[test]
fn error_message_extraction_fails_on_wrong_shape() {
    assert!(get_error_message(r#"{"status":"bad"}"#).is_err());
    assert!(get_error_message("{{{").is_err());
}
