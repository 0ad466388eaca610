use sm64js_admission::ban_gate;
use sm64js_admission::Ban;
use sm64js_admission::DbError;
use sm64js_admission::WsError;

#[test]
fn ip_required_maps_to_bad_request() {
    let e = WsError::IpRequired;
    assert_eq!(e.status_code(), 400);
    assert_eq!(e.message(), "IP address could not be read");
}

#[test]
fn banned_maps_to_forbidden() {
    let e = WsError::Banned(Ban { reason: "cheating".to_string() });
    assert_eq!(e.status_code(), 403);
    assert_eq!(e.message(), "[Banned]: cheating");
}

#[test]
fn transport_failure_maps_to_internal_server_error() {
    let e = WsError::Actix("handshake rejected".to_string());
    assert_eq!(e.status_code(), 500);
    assert_eq!(e.message(), "[Actix]: handshake rejected");
}

#[test]
fn storage_failure_is_delegated() {
    let e = WsError::DbError(DbError { status: 502, message: "query timed out".to_string() });
    assert_eq!(e.status_code(), 502);
    assert_eq!(e.message(), "query timed out");
}

#[test]
fn status_is_stable_across_repeated_calls() {
    let e = WsError::Banned(Ban { reason: "cheating".to_string() });
    let first = e.status_code();
    let second = e.status_code();
    assert_eq!(first, second);
    let again = e.error_response();
    assert_eq!(again.0, first);
}

#[test]
fn ban_gate_passes_a_clean_lookup() {
    assert!(ban_gate(Ok(None)).is_ok());
}

#[test]
fn ban_gate_rejects_a_ban_record() {
    let verdict = ban_gate(Ok(Some(Ban { reason: "cheating".to_string() })));
    match verdict {
        Ok(_) => panic!("a banned account is not admissible"),
        Err(e) => assert!(matches!(e, WsError::Banned(_))),
    }
}

#[test]
fn ban_gate_forwards_a_storage_failure() {
    let verdict = ban_gate(Err(DbError { status: 500, message: "no connection".to_string() }));
    match verdict {
        Ok(_) => panic!("a failed lookup aborts admission"),
        Err(e) => match e {
            WsError::DbError(d) => {
                assert_eq!(d.status, 500);
                assert_eq!(d.message, "no connection");
            }
            _ => panic!("a failed lookup must surface as a storage failure"),
        },
    }
}
