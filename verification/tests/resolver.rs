use sm64js_admission::resolve_ip;
use sm64js_admission::WsError;

#[test]
fn trusted_header_wins() {
    let r = resolve_ip(
        Some("203.0.113.5".to_string()),
        Some("10.0.0.1".to_string()),
        Some("192.0.2.44".to_string()),
    );
    assert_eq!(r.unwrap(), "203.0.113.5");
}

#[test]
fn forwarded_for_is_second() {
    let r = resolve_ip(None, Some("10.0.0.1".to_string()), Some("192.0.2.44".to_string()));
    assert_eq!(r.unwrap(), "10.0.0.1");
}

#[test]
fn forwarded_for_value_is_used_as_given() {
    let r = resolve_ip(None, Some("10.0.0.1, 10.0.0.2".to_string()), None);
    assert_eq!(r.unwrap(), "10.0.0.1, 10.0.0.2");
}

#[test]
fn peer_is_last() {
    let r = resolve_ip(None, None, Some("192.0.2.44".to_string()));
    assert_eq!(r.unwrap(), "192.0.2.44");
}

#[test]
fn empty_trusted_header_is_treated_as_absent() {
    let r = resolve_ip(Some(String::new()), Some("10.0.0.1".to_string()), None);
    assert_eq!(r.unwrap(), "10.0.0.1");
}

#[test]
fn empty_forwarded_for_is_treated_as_absent() {
    let r = resolve_ip(None, Some(String::new()), Some("192.0.2.44".to_string()));
    assert_eq!(r.unwrap(), "192.0.2.44");
}

#[test]
fn nothing_available_is_ip_required() {
    let r = resolve_ip(None, None, None);
    assert!(matches!(r, Err(WsError::IpRequired)));
}

#[test]
fn empty_headers_without_peer_is_ip_required() {
    let r = resolve_ip(Some(String::new()), Some(String::new()), None);
    assert!(matches!(r, Err(WsError::IpRequired)));
}
