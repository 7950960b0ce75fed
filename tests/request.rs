use ipmog::ip::{endpoint, request_url, DEFAULT_URL};

#[test]
fn configured_endpoint_wins() {
    assert_eq!(endpoint(Some("http://localhost:8080".to_string())), "http://localhost:8080");
}

#[test]
fn default_endpoint_when_unset() {
    assert_eq!(endpoint(None), DEFAULT_URL);
    assert_eq!(endpoint(None), "https://ip.shnitzel.org");
}

#[test]
fn request_url_appends_the_time() {
    assert_eq!(request_url("https://ip.shnitzel.org", 1700000000), "https://ip.shnitzel.org?t=1700000000");
    assert_eq!(request_url("http://a", 0), "http://a?t=0");
    assert_eq!(request_url("http://a", 9), "http://a?t=9");
    assert_eq!(request_url("http://a", 10), "http://a?t=10");
    assert_eq!(request_url("", u64::MAX), "?t=18446744073709551615");
}
