use beelay::addr::fix_server_addr;
use beelay::addr::resolve_server_addr;

#[test]
fn bare_host_gets_scheme_and_slash() {
    assert_eq!(fix_server_addr("localhost".to_string()), "http://localhost/");
}

#[test]
fn bare_host_with_port_gets_scheme_and_slash() {
    assert_eq!(
        fix_server_addr("localhost:9999".to_string()),
        "http://localhost:9999/"
    );
}

#[test]
fn scheme_only_missing_slash() {
    assert_eq!(fix_server_addr("http://host".to_string()), "http://host/");
}

#[test]
fn slash_only_missing_scheme() {
    assert_eq!(fix_server_addr("host/".to_string()), "http://host/");
}

#[test]
fn already_normalized_is_unchanged() {
    assert_eq!(fix_server_addr("http://host/".to_string()), "http://host/");
}

#[test]
fn normalizing_twice_is_idempotent() {
    let once = fix_server_addr("example.com:80".to_string());
    let twice = fix_server_addr(once.clone());
    assert_eq!(once, twice);
}

#[test]
fn other_schemes_are_not_recognized() {
    assert_eq!(
        fix_server_addr("https://host/".to_string()),
        "http://https://host/"
    );
}

#[test]
fn empty_address_becomes_scheme_only() {
    assert_eq!(fix_server_addr(String::new()), "http://");
}

#[test]
fn explicit_flag_wins_over_environment() {
    let addr = resolve_server_addr(
        Some("flaghost".to_string()),
        Some("envhost".to_string()),
    );
    assert_eq!(addr, "http://flaghost/");
}

#[test]
fn environment_wins_over_default() {
    let addr = resolve_server_addr(None, Some("envhost".to_string()));
    assert_eq!(addr, "http://envhost/");
}

#[test]
fn default_address_when_nothing_is_given() {
    let addr = resolve_server_addr(None, None);
    assert_eq!(addr, "http://localhost:9999/");
}
