use session_store::cookie_store::{plain, private, signed, CookieBackend};
use session_store::{CookieDirective, ReadError, RequestCookies, SameSitePolicy};

fn master() -> Vec<u8> {
    (0u8..64).collect()
}

fn other_master() -> Vec<u8> {
    (64u8..128).collect()
}

fn issued(directive: Option<CookieDirective>) -> session_store::SetCookie {
    match directive {
        Some(CookieDirective::Issue(sc)) => sc,
        other => panic!("expected a set-cookie directive, got {:?}", other),
    }
}

fn round_trip(backend: &CookieBackend) {
    let session = backend.read(&RequestCookies::new()).expect("empty request reads");
    let mut session = session;
    session.set("user".to_string(), "alice".to_string());
    session.set("count".to_string(), "3".to_string());
    let sc = issued(session.write());
    assert_eq!(sc.name, "finchers-session");

    let mut req = RequestCookies::new();
    req.add(sc.name.clone(), sc.value.clone());
    let reread = backend.read(&req).expect("own cookie reads back");
    assert_eq!(reread.get("user").unwrap(), "alice");
    assert_eq!(reread.get("count").unwrap(), "3");
    assert!(reread.get("missing").is_none());
}

#[test]
fn no_cookie_and_no_mutation_issues_no_cookie() {
    let backend = plain();
    let session = backend.read(&RequestCookies::new()).unwrap();
    assert!(session.get("user").is_none());
    assert!(session.write().is_none());
}

#[test]
fn plain_round_trip() {
    round_trip(&plain());
}

#[test]
fn signed_round_trip() {
    round_trip(&signed(master()));
}

#[test]
fn private_round_trip() {
    round_trip(&private(master()));
}

#[test]
fn plain_record_is_canonical_json() {
    let backend = plain();
    let mut session = backend.read(&RequestCookies::new()).unwrap();
    session.set("b".to_string(), "2".to_string());
    session.set("a".to_string(), "1".to_string());
    let sc = issued(session.write());
    assert_eq!(sc.value, "{\"a\":\"1\",\"b\":\"2\"}");
}

#[test]
fn default_attributes_are_secure() {
    let backend = plain();
    let mut session = backend.read(&RequestCookies::new()).unwrap();
    session.set("k".to_string(), "v".to_string());
    let sc = issued(session.write());
    assert_eq!(sc.path.as_deref(), Some("/"));
    assert!(sc.secure);
    assert!(sc.http_only);
    assert!(sc.domain.is_none());
    assert!(sc.same_site.is_none());
    assert!(sc.max_age_seconds.is_none());
}

#[test]
fn builder_overrides_attributes() {
    let backend = plain()
        .path("/app".to_string())
        .secure(false)
        .http_only(false)
        .domain("example.com".to_string())
        .same_site(SameSitePolicy::Lax)
        .max_age(3600);
    let mut session = backend.read(&RequestCookies::new()).unwrap();
    session.set("k".to_string(), "v".to_string());
    let sc = issued(session.write());
    assert_eq!(sc.path.as_deref(), Some("/app"));
    assert!(!sc.secure);
    assert!(!sc.http_only);
    assert_eq!(sc.domain.as_deref(), Some("example.com"));
    assert_eq!(sc.same_site, Some(SameSitePolicy::Lax));
    assert_eq!(sc.max_age_seconds, Some(3600));
}

#[test]
fn signed_token_is_not_the_record_itself() {
    let backend = signed(master());
    let mut session = backend.read(&RequestCookies::new()).unwrap();
    session.set("k".to_string(), "v".to_string());
    let sc = issued(session.write());
    assert_ne!(sc.value, "{\"k\":\"v\"}");
}

fn tamper_rejected(backend: &CookieBackend) {
    let mut session = backend.read(&RequestCookies::new()).unwrap();
    session.set("user".to_string(), "alice".to_string());
    let sc = issued(session.write());

    let mut bytes = sc.value.clone().into_bytes();
    let i = bytes.len() / 2;
    bytes[i] = if bytes[i] == b'A' { b'B' } else { b'A' };
    let tampered = String::from_utf8(bytes).unwrap();
    assert_ne!(tampered, sc.value);

    let mut req = RequestCookies::new();
    req.add(sc.name.clone(), tampered);
    let err = backend.read(&req).expect_err("tampered cookie must not read");
    assert!(matches!(err, ReadError::TamperedCookie));
    assert_eq!(err.class(), session_store::ErrorClass::Client);
}

#[test]
fn signed_tampering_is_detected() {
    tamper_rejected(&signed(master()));
}

#[test]
fn private_tampering_is_detected() {
    tamper_rejected(&private(master()));
}

#[test]
fn wrong_key_is_rejected() {
    let writer = signed(master());
    let mut session = writer.read(&RequestCookies::new()).unwrap();
    session.set("k".to_string(), "v".to_string());
    let sc = issued(session.write());

    let reader = signed(other_master());
    let mut req = RequestCookies::new();
    req.add(sc.name, sc.value);
    let err = reader.read(&req).expect_err("foreign key must not verify");
    assert!(matches!(err, ReadError::TamperedCookie));
}

#[test]
fn plain_malformed_record_is_a_client_error() {
    let backend = plain();
    let mut req = RequestCookies::new();
    req.add("finchers-session".to_string(), "not a record".to_string());
    let err = backend.read(&req).expect_err("garbage must not read");
    assert!(matches!(err, ReadError::MalformedRecord));
    assert_eq!(err.class(), session_store::ErrorClass::Client);
}

#[test]
fn clear_expires_the_cookie() {
    let backend = signed(master());
    let mut session = backend.read(&RequestCookies::new()).unwrap();
    session.set("user".to_string(), "alice".to_string());
    let sc = issued(session.write());

    let mut req = RequestCookies::new();
    req.add(sc.name.clone(), sc.value.clone());
    let mut session = backend.read(&req).unwrap();
    session.clear();
    match session.write() {
        Some(CookieDirective::Expire(name)) => assert_eq!(name, "finchers-session"),
        other => panic!("expected an expire directive, got {:?}", other),
    }
}

#[test]
fn untouched_reread_issues_nothing() {
    let backend = signed(master());
    let mut session = backend.read(&RequestCookies::new()).unwrap();
    session.set("user".to_string(), "alice".to_string());
    let sc = issued(session.write());

    let mut req = RequestCookies::new();
    req.add(sc.name.clone(), sc.value.clone());
    let session = backend.read(&req).unwrap();
    assert!(session.write().is_none());
}
