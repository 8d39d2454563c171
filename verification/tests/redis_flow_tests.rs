use session_store::redis_store::{redis_backend, ConnectStep, RedisCommand, RedisSessionBackend};
use session_store::{CookieDirective, ReadError, RequestCookies, RedisSession, SetCookie};

fn client() -> redis::Client {
    redis::Client::open("redis://127.0.0.1/").expect("connection info parses")
}

fn ready(step: ConnectStep) -> RedisSession {
    match step {
        ConnectStep::Ready(s) => s,
        ConnectStep::Fetch(k, _) => panic!("expected a ready session, got a fetch of {}", k),
    }
}

fn fetch(step: ConnectStep) -> (String, session_store::ReadSessionFuture) {
    match step {
        ConnectStep::Fetch(k, f) => (k, f),
        ConnectStep::Ready(_) => panic!("expected a fetch, got a ready session"),
    }
}

fn issued(directive: Option<CookieDirective>) -> SetCookie {
    match directive {
        Some(CookieDirective::Issue(sc)) => sc,
        other => panic!("expected a set-cookie directive, got {:?}", other),
    }
}

fn empty_session(backend: &RedisSessionBackend) -> RedisSession {
    ready(backend.read(&RequestCookies::new()).connected())
}

#[test]
fn no_cookie_and_no_mutation_performs_nothing() {
    let backend = redis_backend(client());
    let session = empty_session(&backend);
    assert!(session.get("user").is_none());
    let (directive, command) = session.write().into_parts();
    assert!(directive.is_none());
    assert!(command.is_none());
}

#[test]
fn round_trip_through_the_flow() {
    let backend = redis_backend(client());

    let mut session = empty_session(&backend);
    session.set("user".to_string(), "alice".to_string());
    let (directive, command) = session.write().into_parts();
    let sc = issued(directive);
    assert_eq!(sc.name, "session-id");
    let (key, blob) = match command {
        Some(RedisCommand::Store(k, v)) => (k, v),
        other => panic!("expected a store command, got {:?}", other),
    };
    assert_eq!(key, format!("finchers-session:{}", sc.value));
    assert_eq!(blob, "{\"user\":\"alice\"}");

    let mut req = RequestCookies::new();
    req.add(sc.name.clone(), sc.value.clone());
    let (key2, flow) = fetch(backend.read(&req).connected());
    assert_eq!(key2, key);
    let reread = flow.fetched(Some(blob)).expect("stored blob decodes");
    assert_eq!(reread.get("user").unwrap(), "alice");
}

#[test]
fn missing_record_is_an_empty_session() {
    let backend = redis_backend(client());
    let mut req = RequestCookies::new();
    req.add(
        "session-id".to_string(),
        "550e8400-e29b-41d4-a716-446655440000".to_string(),
    );
    let (_, flow) = fetch(backend.read(&req).connected());
    let session = flow.fetched(None).expect("a missing record is no failure");
    assert!(session.get("anything").is_none());
}

#[test]
fn malformed_stored_record_is_a_backend_error() {
    let backend = redis_backend(client());
    let mut req = RequestCookies::new();
    req.add(
        "session-id".to_string(),
        "550e8400-e29b-41d4-a716-446655440000".to_string(),
    );
    let (_, flow) = fetch(backend.read(&req).connected());
    let err = match flow.fetched(Some("garbage".to_string())) {
        Err(e) => e,
        Ok(_) => panic!("garbage must not decode"),
    };
    assert!(matches!(err, ReadError::Backend(_)));
    assert_eq!(err.class(), session_store::ErrorClass::Backend);
}

#[test]
fn malformed_identifier_fails_before_any_network_step() {
    let backend = redis_backend(client());
    let mut req = RequestCookies::new();
    req.add("session-id".to_string(), "nope".to_string());
    let flow = backend.read(&req);
    let err = flow.failure();
    assert!(matches!(err, ReadError::BadSessionId));
}

#[test]
fn connection_failure_is_a_backend_error() {
    let backend = redis_backend(client());
    let flow = backend.read(&RequestCookies::new());
    let err = flow.connection_failed("connection refused".to_string());
    match err {
        ReadError::Backend(m) => assert_eq!(m, "connection refused"),
        other => panic!("expected a backend error, got {:?}", other),
    }
}

#[test]
fn timeout_turns_store_into_setex() {
    let backend = redis_backend(client()).timeout(60);
    let mut session = empty_session(&backend);
    session.set("k".to_string(), "v".to_string());
    let (_, command) = session.write().into_parts();
    match command {
        Some(RedisCommand::StoreExpiring(key, secs, blob)) => {
            assert!(key.starts_with("finchers-session:"));
            assert_eq!(secs, 60);
            assert_eq!(blob, "{\"k\":\"v\"}");
        },
        other => panic!("expected an expiring store, got {:?}", other),
    }
}

#[test]
fn clear_deletes_record_and_expires_cookie() {
    let backend = redis_backend(client());
    let mut req = RequestCookies::new();
    req.add(
        "session-id".to_string(),
        "550e8400-e29b-41d4-a716-446655440000".to_string(),
    );
    let (key, flow) = fetch(backend.read(&req).connected());
    let mut session = flow
        .fetched(Some("{\"user\":\"alice\"}".to_string()))
        .expect("record decodes");
    session.clear();
    let (directive, command) = session.write().into_parts();
    match directive {
        Some(CookieDirective::Expire(name)) => assert_eq!(name, "session-id"),
        other => panic!("expected an expire directive, got {:?}", other),
    }
    match command {
        Some(RedisCommand::Delete(k)) => assert_eq!(k, key),
        other => panic!("expected a delete command, got {:?}", other),
    }
}

#[test]
fn configured_names_are_used_everywhere() {
    let backend = redis_backend(client())
        .key_prefix("app".to_string())
        .cookie_name("sid".to_string());

    let mut session = empty_session(&backend);
    session.set("k".to_string(), "v".to_string());
    let (directive, command) = session.write().into_parts();
    let sc = issued(directive);
    assert_eq!(sc.name, "sid");
    match command {
        Some(RedisCommand::Store(key, _)) => {
            assert_eq!(key, format!("app:{}", sc.value));
        },
        other => panic!("expected a store command, got {:?}", other),
    }

    let mut req = RequestCookies::new();
    req.add("sid".to_string(), sc.value.clone());
    let (key2, _) = fetch(backend.read(&req).connected());
    assert_eq!(key2, format!("app:{}", sc.value));
}

#[test]
fn finish_maps_command_failure_to_write_error() {
    let backend = redis_backend(client());
    let session = empty_session(&backend);
    let flow = session.write();
    match flow.finish(Err("SETEX refused".to_string())) {
        Err(session_store::WriteError::Backend(m)) => assert_eq!(m, "SETEX refused"),
        Ok(()) => panic!("a failed command must surface"),
    }

    let backend = redis_backend(client());
    let session = empty_session(&backend);
    assert!(session.write().finish(Ok(())).is_ok());
}

#[test]
fn get_session_id_parses_the_cookie() {
    let backend = redis_backend(client());
    let mut req = RequestCookies::new();
    req.add(
        "session-id".to_string(),
        "550e8400-e29b-41d4-a716-446655440000".to_string(),
    );
    let id = backend.get_session_id(&req).unwrap().unwrap();
    assert_eq!(id.text(), "550e8400-e29b-41d4-a716-446655440000");
    assert!(backend.get_session_id(&RequestCookies::new()).unwrap().is_none());
}
