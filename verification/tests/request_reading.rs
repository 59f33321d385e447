use auth_api::request::{extract_ip, extract_token, log_access};
use auth_api::server::{param, Request};

fn headers(pairs: &[(&str, &str)]) -> Vec<(String, String)> {
    pairs.iter().map(|(k, v)| (k.to_string(), v.to_string())).collect()
}

#[test]
fn token_header_is_matched_without_regard_to_case() {
    let list = headers(&[("Content-Type", "application/json"), ("User-Token", "abc")]);
    assert_eq!(extract_token(&list, "user-token"), Some("abc".to_string()));
    assert_eq!(extract_token(&list, "USER-TOKEN"), Some("abc".to_string()));
    assert_eq!(extract_token(&list, "service-token"), None);
}

#[test]
fn token_header_is_trimmed_and_may_not_be_empty() {
    assert_eq!(extract_token(&headers(&[("user-token", "  abc \t")]), "user-token"), Some("abc".to_string()));
    assert_eq!(extract_token(&headers(&[("user-token", "")]), "user-token"), None);
    assert_eq!(extract_token(&headers(&[("user-token", "   ")]), "user-token"), None);
    assert_eq!(extract_token(&headers(&[]), "user-token"), None);
}

#[test]
fn the_first_token_header_decides() {
    let list = headers(&[("user-token", " "), ("user-token", "second")]);
    assert_eq!(extract_token(&list, "user-token"), None);
    let list = headers(&[("user-token", "first"), ("user-token", "second")]);
    assert_eq!(extract_token(&list, "user-token"), Some("first".to_string()));
}

#[test]
fn client_address_from_forwarding_headers() {
    assert_eq!(extract_ip(&headers(&[("X-Forwarded-For", "10.0.0.1, 10.0.0.2")])), "10.0.0.1");
    assert_eq!(extract_ip(&headers(&[("x-real-ip", " 192.168.1.9 ")])), "192.168.1.9");
    assert_eq!(extract_ip(&headers(&[("remote-addr", "127.0.0.1")])), "127.0.0.1");
    assert_eq!(extract_ip(&headers(&[])), "unknown");
}

#[test]
fn client_address_prefers_forwarded_then_real_then_remote() {
    let list = headers(&[("remote-addr", "3.3.3.3"), ("x-real-ip", "2.2.2.2"), ("x-forwarded-for", "1.1.1.1")]);
    assert_eq!(extract_ip(&list), "1.1.1.1");
    let list = headers(&[("remote-addr", "3.3.3.3"), ("x-real-ip", "2.2.2.2")]);
    assert_eq!(extract_ip(&list), "2.2.2.2");
}

#[test]
fn an_empty_first_entry_falls_through_to_the_next_header() {
    let list = headers(&[("x-forwarded-for", " , 10.0.0.2"), ("x-real-ip", "2.2.2.2")]);
    assert_eq!(extract_ip(&list), "2.2.2.2");
    let list = headers(&[("x-forwarded-for", ""), ("x-real-ip", "  ")]);
    assert_eq!(extract_ip(&list), "unknown");
}

#[test]
fn audit_line_has_prefix_endpoint_time_and_address() {
    let token = "0123456789abcdef0123456789abcdef0123456789abcdef0123456789abcdef";
    assert_eq!(
        log_access(token, "/auth/profile", 1_700_000_000, "10.0.0.1", None, true),
        "[access] token=01234567 endpoint=/auth/profile ts=1700000000 ip=10.0.0.1"
    );
    assert_eq!(
        log_access(token, "/check-permission", 5, "unknown", Some(true), true),
        "[access] token=01234567 endpoint=/check-permission ts=5 ip=unknown used_cache=true"
    );
    assert_eq!(
        log_access(token, "/check-permission", 5, "unknown", Some(false), true),
        "[access] token=01234567 endpoint=/check-permission ts=5 ip=unknown used_cache=false"
    );
    assert_eq!(
        log_access("short", "/x", -1, "ip", None, false),
        "[access] token=short endpoint=/x ts=-1 ip=ip valid=false"
    );
    assert_eq!(log_access("", "/x", 0, "ip", None, false), "[access] token= endpoint=/x ts=0 ip=ip valid=false");
}

#[test]
fn path_parameters_are_found_by_exact_name() {
    let req = Request {
        path: "/users/7".to_string(),
        headers: vec![],
        params: vec![("id".to_string(), "7".to_string()), ("ID".to_string(), "8".to_string())],
    };
    assert_eq!(param(&req, "id"), Some("7"));
    assert_eq!(param(&req, "ID"), Some("8"));
    assert_eq!(param(&req, "Id"), None);
}
