use axum::http::{HeaderMap, HeaderValue};
use kosync::{credential, get_remote_addr, header_str, remote_addr};

#[test]
fn header_str_reads_a_stored_value() {
    let mut h = HeaderMap::new();
    h.insert("x-auth-user", HeaderValue::from_static("bob"));
    assert_eq!(header_str(&h, "x-auth-user"), Some("bob"));
}

#[test]
fn header_str_of_a_missing_name_is_none() {
    let mut h = HeaderMap::new();
    h.insert("x-auth-user", HeaderValue::from_static("bob"));
    assert_eq!(header_str(&h, "x-auth-key"), None);
    assert_eq!(header_str(&HeaderMap::new(), "x-auth-user"), None);
}

#[test]
fn header_str_takes_the_first_of_several_values() {
    let mut h = HeaderMap::new();
    h.append("x-real-ip", HeaderValue::from_static("10.0.0.1"));
    h.append("x-real-ip", HeaderValue::from_static("10.0.0.2"));
    assert_eq!(header_str(&h, "x-real-ip"), Some("10.0.0.1"));
}

#[test]
fn header_str_of_an_invalid_name_is_none() {
    let mut h = HeaderMap::new();
    h.insert("x-auth-user", HeaderValue::from_static("bob"));
    assert_eq!(header_str(&h, "not a name"), None);
    assert_eq!(header_str(&h, ""), None);
}

#[test]
fn header_str_refuses_invisible_bytes() {
    let mut h = HeaderMap::new();
    h.insert("x-auth-user", HeaderValue::from_bytes(&[b'b', 0xff, b'b']).unwrap());
    assert_eq!(header_str(&h, "x-auth-user"), None);
}

#[test]
fn header_str_passes_a_tab() {
    let mut h = HeaderMap::new();
    h.insert("x-auth-user", HeaderValue::from_bytes(b"a\tb").unwrap());
    assert_eq!(header_str(&h, "x-auth-user"), Some("a\tb"));
}

#[test]
fn header_str_passes_an_empty_value() {
    let mut h = HeaderMap::new();
    h.insert("x-auth-user", HeaderValue::from_static(""));
    assert_eq!(header_str(&h, "x-auth-user"), Some(""));
}

#[test]
fn credential_keeps_an_acceptable_value() {
    let mut h = HeaderMap::new();
    h.insert("x-auth-key", HeaderValue::from_static("p@ss"));
    assert_eq!(credential(&h, "x-auth-key"), Some("p@ss"));
}

#[test]
fn credential_drops_unacceptable_values() {
    let mut h = HeaderMap::new();
    h.insert("x-auth-user", HeaderValue::from_bytes(b"a\tb").unwrap());
    h.insert("x-auth-key", HeaderValue::from_static(""));
    assert_eq!(credential(&h, "x-auth-user"), None);
    assert_eq!(credential(&h, "x-auth-key"), None);
    assert_eq!(credential(&h, "x-other"), None);
}

#[test]
fn credential_drops_a_value_over_the_limit() {
    let mut h = HeaderMap::new();
    let at_limit = "k".repeat(4096);
    let over_limit = "k".repeat(4097);
    h.insert("x-auth-user", HeaderValue::from_str(&at_limit).unwrap());
    h.insert("x-auth-key", HeaderValue::from_str(&over_limit).unwrap());
    assert_eq!(credential(&h, "x-auth-user"), Some(at_limit.as_str()));
    assert_eq!(credential(&h, "x-auth-key"), None);
}

#[test]
fn remote_addr_prefers_the_forwarded_address() {
    assert_eq!(remote_addr(Some("203.0.113.7"), "127.0.0.1:4000"), "203.0.113.7");
    assert_eq!(remote_addr(None, "127.0.0.1:4000"), "127.0.0.1:4000");
}

#[test]
fn get_remote_addr_reads_x_real_ip() {
    let mut h = HeaderMap::new();
    h.insert("x-real-ip", HeaderValue::from_static("203.0.113.7"));
    assert_eq!(get_remote_addr(&h, "127.0.0.1:4000"), "203.0.113.7");
}

#[test]
fn get_remote_addr_falls_back_to_the_peer() {
    let mut h = HeaderMap::new();
    h.insert("x-forwarded-for", HeaderValue::from_static("203.0.113.7"));
    assert_eq!(get_remote_addr(&h, "127.0.0.1:4000"), "127.0.0.1:4000");
    assert_eq!(get_remote_addr(&HeaderMap::new(), "[::1]:80"), "[::1]:80");
}

#[test]
fn get_remote_addr_ignores_an_unreadable_header() {
    let mut h = HeaderMap::new();
    h.insert("x-real-ip", HeaderValue::from_bytes(&[0xc3, 0x28]).unwrap());
    assert_eq!(get_remote_addr(&h, "127.0.0.1:4000"), "127.0.0.1:4000");
}
