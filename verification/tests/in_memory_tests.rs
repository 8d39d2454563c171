use session_store::{in_memory, CookieDirective, ReadError, RequestCookies, SetCookie};

fn issued(directive: Option<CookieDirective>) -> SetCookie {
    match directive {
        Some(CookieDirective::Issue(sc)) => sc,
        other => panic!("expected a set-cookie directive, got {:?}", other),
    }
}

#[test]
fn no_cookie_and_no_mutation_touches_no_table() {
    let backend = in_memory();
    let session = backend.read(&RequestCookies::new()).unwrap();
    assert!(session.session_id().is_none());
    assert!(session.get("user").is_none());
    assert!(backend.write(session).is_none());
}

#[test]
fn round_trip_through_the_table() {
    let backend = in_memory();
    let mut session = backend.read(&RequestCookies::new()).unwrap();
    session.set("user".to_string(), "alice".to_string());
    let sc = issued(backend.write(session));
    assert_eq!(sc.name, "session-id");

    let mut req = RequestCookies::new();
    req.add(sc.name.clone(), sc.value.clone());
    let reread = backend.read(&req).unwrap();
    assert_eq!(reread.session_id().unwrap().text(), sc.value);
    assert_eq!(reread.get("user").unwrap(), "alice");
}

#[test]
fn existing_id_is_kept_on_rewrite() {
    let backend = in_memory();
    let mut session = backend.read(&RequestCookies::new()).unwrap();
    session.set("n".to_string(), "1".to_string());
    let sc = issued(backend.write(session));

    let mut req = RequestCookies::new();
    req.add(sc.name.clone(), sc.value.clone());
    let mut session = backend.read(&req).unwrap();
    session.set("n".to_string(), "2".to_string());
    let sc2 = issued(backend.write(session));
    assert_eq!(sc2.value, sc.value);

    let reread = backend.read(&req).unwrap();
    assert_eq!(reread.get("n").unwrap(), "2");
}

#[test]
fn distinct_writers_are_independent() {
    let backend = in_memory();

    let mut one = backend.read(&RequestCookies::new()).unwrap();
    one.set("who".to_string(), "first".to_string());
    let sc1 = issued(backend.write(one));

    let mut two = backend.read(&RequestCookies::new()).unwrap();
    two.set("who".to_string(), "second".to_string());
    let sc2 = issued(backend.write(two));

    assert_ne!(sc1.value, sc2.value);

    let mut req1 = RequestCookies::new();
    req1.add("session-id".to_string(), sc1.value.clone());
    assert_eq!(backend.read(&req1).unwrap().get("who").unwrap(), "first");

    let mut req2 = RequestCookies::new();
    req2.add("session-id".to_string(), sc2.value.clone());
    assert_eq!(backend.read(&req2).unwrap().get("who").unwrap(), "second");
}

#[test]
fn same_id_last_write_wins() {
    let backend = in_memory();
    let mut session = backend.read(&RequestCookies::new()).unwrap();
    session.set("v".to_string(), "seed".to_string());
    let sc = issued(backend.write(session));

    let mut req = RequestCookies::new();
    req.add(sc.name.clone(), sc.value.clone());

    let mut first = backend.read(&req).unwrap();
    let mut second = backend.read(&req).unwrap();
    first.set("v".to_string(), "from-first".to_string());
    second.set("v".to_string(), "from-second".to_string());
    backend.write(first);
    backend.write(second);

    assert_eq!(backend.read(&req).unwrap().get("v").unwrap(), "from-second");
}

#[test]
fn clear_removes_record_and_expires_cookie() {
    let backend = in_memory();
    let mut session = backend.read(&RequestCookies::new()).unwrap();
    session.set("user".to_string(), "alice".to_string());
    let sc = issued(backend.write(session));

    let mut req = RequestCookies::new();
    req.add(sc.name.clone(), sc.value.clone());
    let mut session = backend.read(&req).unwrap();
    session.clear();
    match backend.write(session) {
        Some(CookieDirective::Expire(name)) => assert_eq!(name, "session-id"),
        other => panic!("expected an expire directive, got {:?}", other),
    }

    let after = backend.read(&req).unwrap();
    assert!(after.get("user").is_none());
}

#[test]
fn clear_without_identifier_is_a_no_op() {
    let backend = in_memory();
    let mut session = backend.read(&RequestCookies::new()).unwrap();
    session.clear();
    assert!(backend.write(session).is_none());
}

#[test]
fn malformed_identifier_cookie_is_a_client_error() {
    let backend = in_memory();
    let mut req = RequestCookies::new();
    req.add("session-id".to_string(), "not-a-uuid".to_string());
    let err = match backend.read(&req) {
        Err(e) => e,
        Ok(_) => panic!("malformed identifier must not read"),
    };
    assert!(matches!(err, ReadError::BadSessionId));
    assert_eq!(err.class(), session_store::ErrorClass::Client);
}

#[test]
fn remove_marks_the_session_modified() {
    let backend = in_memory();
    let mut session = backend.read(&RequestCookies::new()).unwrap();
    session.set("a".to_string(), "1".to_string());
    session.remove("a");
    let sc = issued(backend.write(session));

    let mut req = RequestCookies::new();
    req.add(sc.name.clone(), sc.value.clone());
    let reread = backend.read(&req).unwrap();
    assert!(reread.get("a").is_none());
}
