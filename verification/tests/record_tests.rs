use session_store::{ErrorClass, ReadError, RequestCookies, SessionId, SessionMap, WriteError};

#[test]
fn empty_record_has_no_fields() {
    let m = SessionMap::new();
    assert!(m.is_empty());
    assert_eq!(m.len(), 0);
    assert!(m.get("anything").is_none());
}

#[test]
fn set_get_remove_clear() {
    let mut m = SessionMap::new();
    m.set("user".to_string(), "alice".to_string());
    m.set("theme".to_string(), "dark".to_string());
    assert_eq!(m.get("user").unwrap(), "alice");
    assert_eq!(m.get("theme").unwrap(), "dark");
    assert_eq!(m.len(), 2);

    m.set("user".to_string(), "bob".to_string());
    assert_eq!(m.get("user").unwrap(), "bob");
    assert_eq!(m.len(), 2);

    m.remove("theme");
    assert!(m.get("theme").is_none());
    assert_eq!(m.len(), 1);

    m.clear();
    assert!(m.is_empty());
    assert!(m.get("user").is_none());
}

#[test]
fn duplicate_is_equal_and_independent() {
    let mut m = SessionMap::new();
    m.set("a".to_string(), "1".to_string());
    let copy = m.duplicate();
    m.set("a".to_string(), "2".to_string());
    assert_eq!(copy.get("a").unwrap(), "1");
    assert_eq!(m.get("a").unwrap(), "2");
}

#[test]
fn request_cookies_first_match() {
    let mut req = RequestCookies::new();
    req.add("one".to_string(), "1".to_string());
    req.add("two".to_string(), "2".to_string());
    req.add("one".to_string(), "shadowed".to_string());
    assert_eq!(req.get("one").unwrap(), "1");
    assert_eq!(req.get("two").unwrap(), "2");
    assert!(req.get("three").is_none());
}

#[test]
fn session_id_text_round_trip() {
    let text = "550e8400-e29b-41d4-a716-446655440000";
    let id = SessionId::parse(text).expect("canonical uuid text parses");
    assert_eq!(id.text(), text);
}

#[test]
fn session_id_rejects_garbage() {
    assert!(SessionId::parse("not-an-identifier").is_none());
    assert!(SessionId::parse("").is_none());
}

#[test]
fn generated_ids_have_canonical_text() {
    let id = SessionId::generate();
    let text = id.text();
    assert_eq!(text.len(), 36);
    let again = SessionId::parse(&text).expect("own text parses");
    assert_eq!(again.text(), text);
}

#[test]
fn error_classes() {
    assert_eq!(ReadError::BadSessionId.class(), ErrorClass::Client);
    assert_eq!(ReadError::TamperedCookie.class(), ErrorClass::Client);
    assert_eq!(ReadError::MalformedRecord.class(), ErrorClass::Client);
    assert_eq!(ReadError::Backend("down".to_string()).class(), ErrorClass::Backend);
    assert_eq!(WriteError::Backend("down".to_string()).class(), ErrorClass::Backend);
}
