use auth_api::settings::{max_connections, secret, server_address};

#[test]
fn pool_size_defaults_to_five() {
    assert_eq!(max_connections(None), 5);
    assert_eq!(max_connections(Some("")), 5);
    assert_eq!(max_connections(Some("many")), 5);
    assert_eq!(max_connections(Some("-3")), 5);
    assert_eq!(max_connections(Some("-0")), 5);
    assert_eq!(max_connections(Some("4294967296")), 5);
    assert_eq!(max_connections(Some(" 7")), 5);
}

#[test]
fn pool_size_reads_unsigned_integers() {
    assert_eq!(max_connections(Some("0")), 0);
    assert_eq!(max_connections(Some("12")), 12);
    assert_eq!(max_connections(Some("+12")), 12);
    assert_eq!(max_connections(Some("4294967295")), u32::MAX);
}

#[test]
fn pool_size_agrees_with_the_standard_library() {
    for text in ["", "0", "+0", "-0", "1", "-1", "007", "4294967295", "4294967296", "1e3", "+", "-", "٣"] {
        assert_eq!(max_connections(Some(text)), text.parse::<u32>().ok().unwrap_or(5), "of {:?}", text);
    }
}

#[test]
fn the_address_is_the_url_without_its_scheme() {
    assert_eq!(server_address(Some("http://0.0.0.0:8080"), Some("9999")), "0.0.0.0:8080");
    assert_eq!(server_address(Some("https://auth.example:443"), None), "auth.example:443");
    assert_eq!(server_address(Some("127.0.0.1:7000"), None), "127.0.0.1:7000");
    assert_eq!(server_address(Some("HTTP://x:1"), None), "HTTP://x:1");
    assert_eq!(server_address(Some("http://"), None), "");
}

#[test]
fn the_address_falls_back_to_the_port_then_to_7878() {
    assert_eq!(server_address(None, Some("9000")), "127.0.0.1:9000");
    assert_eq!(server_address(None, None), "127.0.0.1:7878");
}

#[test]
fn the_secret_defaults_to_local_secret() {
    assert_eq!(secret(None), "local_secret");
    assert_eq!(secret(Some("s3cr3t")), "s3cr3t");
    assert_eq!(secret(Some("")), "");
}
