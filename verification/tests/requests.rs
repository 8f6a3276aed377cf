use beelay::request::plan_get_switch;
use beelay::request::plan_list_switches;
use beelay::request::plan_set_switch;
use beelay::request::HttpMethod;

#[test]
fn get_plans_a_get_with_no_query() {
    let p = plan_get_switch("http://localhost:9999/".to_string(), "foo".to_string());
    assert!(matches!(p.method, HttpMethod::Get));
    assert_eq!(p.url, "http://localhost:9999/api/switch/foo");
    assert!(p.query.is_none());
}

#[test]
fn set_plans_a_post_with_state_query() {
    let p = plan_set_switch(
        "http://localhost:9999/".to_string(),
        "foo".to_string(),
        "on".to_string(),
        None,
    );
    assert!(matches!(p.method, HttpMethod::Post));
    assert_eq!(p.url, "http://localhost:9999/api/switch/foo");
    assert_eq!(p.query, Some(("state".to_string(), "on".to_string())));
}

#[test]
fn set_does_not_transmit_the_delay_option() {
    let p = plan_set_switch(
        "http://h/".to_string(),
        "foo".to_string(),
        "off".to_string(),
        Some("5".to_string()),
    );
    assert_eq!(p.query, Some(("state".to_string(), "off".to_string())));
    assert!(!p.url.contains("delay"));
}

#[test]
fn list_plans_a_get_of_the_switches_url() {
    let p = plan_list_switches("http://h/".to_string());
    assert!(matches!(p.method, HttpMethod::Get));
    assert_eq!(p.url, "http://h/api/switches/");
    assert!(p.query.is_none());
}
