use session_store::cookie_store::plain;
use session_store::{in_memory, CookieDirective, RequestCookies, Session};

#[test]
fn handle_over_the_cookie_store() {
    let backend = plain();
    let raw = backend.read(&RequestCookies::new()).unwrap();
    let mut session = Session::new(raw);
    assert!(session.get("greeting").is_none());
    session.set("greeting".to_string(), "hello".to_string());
    session.set("scratch".to_string(), "x".to_string());
    session.remove("scratch");
    assert_eq!(session.get("greeting").unwrap(), "hello");
    match session.into_raw().write() {
        Some(CookieDirective::Issue(sc)) => assert_eq!(sc.value, "{\"greeting\":\"hello\"}"),
        other => panic!("expected a set-cookie directive, got {:?}", other),
    }
}

#[test]
fn handle_over_the_in_memory_store() {
    let backend = in_memory();
    let mut session = Session::new(backend.read(&RequestCookies::new()).unwrap());
    session.set("user".to_string(), "alice".to_string());
    let directive = backend.write(session.into_raw());
    let sc = match directive {
        Some(CookieDirective::Issue(sc)) => sc,
        other => panic!("expected a set-cookie directive, got {:?}", other),
    };

    let mut req = RequestCookies::new();
    req.add(sc.name.clone(), sc.value.clone());
    let session = Session::new(backend.read(&req).unwrap());
    assert_eq!(session.get("user").unwrap(), "alice");
}

#[test]
fn untouched_handle_writes_nothing() {
    let backend = plain();
    let session = Session::new(backend.read(&RequestCookies::new()).unwrap());
    assert!(session.into_raw().write().is_none());
}

#[test]
fn cleared_handle_expires_the_cookie() {
    let backend = plain();
    let mut session = Session::new(backend.read(&RequestCookies::new()).unwrap());
    session.set("user".to_string(), "alice".to_string());
    session.clear();
    match session.into_raw().write() {
        Some(CookieDirective::Expire(name)) => assert_eq!(name, "finchers-session"),
        other => panic!("expected an expire directive, got {:?}", other),
    }
}
