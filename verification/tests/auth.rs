use axum::http::{HeaderMap, HeaderValue};
use kosync::{
    accept_credential, auth, auth_user, auth_verdict, authenticate, create_user, healthcheck,
    robots, Authed, CreateUser, Error, Fault, MemStore, Reply, Store,
};

fn store_with(users: &[(&str, &str)]) -> MemStore {
    let mut store = MemStore::new();
    for (name, secret) in users {
        store.put_user(name, secret).unwrap();
    }
    store
}

fn headers(user: &'static str, key: &'static str) -> HeaderMap {
    let mut h = HeaderMap::new();
    h.insert("x-auth-user", HeaderValue::from_static(user));
    h.insert("x-auth-key", HeaderValue::from_static(key));
    h
}

#[test]
fn accept_credential_filters() {
    assert_eq!(accept_credential(Some("bob")), Some("bob"));
    assert_eq!(accept_credential(Some("")), None);
    assert_eq!(accept_credential(Some("a\nb")), None);
    assert_eq!(accept_credential(None), None);
    let long = "x".repeat(4097);
    assert_eq!(accept_credential(Some(&long)), None);
}

#[test]
fn verdict_admits_a_matching_secret() {
    let r = auth_verdict("bob", "p@ss", Ok(Some("p@ss".to_string())));
    assert_eq!(r, Ok(Authed("bob".to_string())));
}

#[test]
fn verdict_rejects_a_differing_secret() {
    let r = auth_verdict("bob", "p@ss", Ok(Some("p@sS".to_string())));
    assert_eq!(r, Err(Error::Unauthorized));
    let r = auth_verdict("bob", "p@ss", Ok(Some("p@ss ".to_string())));
    assert_eq!(r, Err(Error::Unauthorized));
}

#[test]
fn verdict_rejects_an_unknown_user() {
    assert_eq!(auth_verdict("bob", "p@ss", Ok(None)), Err(Error::Unauthorized));
}

#[test]
fn verdict_reports_a_failed_lookup() {
    assert_eq!(auth_verdict("bob", "p@ss", Err(Fault)), Err(Error::Internal));
}

#[test]
fn auth_admits_good_credentials() {
    let store = store_with(&[("bob", "p@ss"), ("alice", "secret1")]);
    assert_eq!(auth(&store, &headers("bob", "p@ss")), Ok(Authed("bob".to_string())));
    assert_eq!(auth(&store, &headers("alice", "secret1")), Ok(Authed("alice".to_string())));
}

#[test]
fn auth_rejects_a_wrong_key() {
    let store = store_with(&[("bob", "p@ss"), ("alice", "secret1")]);
    assert_eq!(auth(&store, &headers("bob", "wrong")), Err(Error::Unauthorized));
    assert_eq!(auth(&store, &headers("bob", "secret1")), Err(Error::Unauthorized));
}

#[test]
fn auth_rejects_an_unknown_user() {
    let store = store_with(&[("bob", "p@ss")]);
    assert_eq!(auth(&store, &headers("carol", "p@ss")), Err(Error::Unauthorized));
}

#[test]
fn auth_rejects_missing_headers() {
    let store = store_with(&[("bob", "p@ss")]);
    assert_eq!(auth(&store, &HeaderMap::new()), Err(Error::Unauthorized));
    let mut only_user = HeaderMap::new();
    only_user.insert("x-auth-user", HeaderValue::from_static("bob"));
    assert_eq!(auth(&store, &only_user), Err(Error::Unauthorized));
    let mut only_key = HeaderMap::new();
    only_key.insert("x-auth-key", HeaderValue::from_static("p@ss"));
    assert_eq!(auth(&store, &only_key), Err(Error::Unauthorized));
}

#[test]
fn auth_rejects_unacceptable_fields() {
    let store = store_with(&[("bob", "p@ss")]);
    assert_eq!(auth(&store, &headers("bob", "")), Err(Error::Unauthorized));
    assert_eq!(auth(&store, &headers("", "p@ss")), Err(Error::Unauthorized));
    let mut tab = HeaderMap::new();
    tab.insert("x-auth-user", HeaderValue::from_static("bob"));
    tab.insert("x-auth-key", HeaderValue::from_bytes(b"p@ss\t").unwrap());
    assert_eq!(auth(&store, &tab), Err(Error::Unauthorized));
    let mut opaque = HeaderMap::new();
    opaque.insert("x-auth-user", HeaderValue::from_bytes(&[b'b', 0xf0, b'b']).unwrap());
    opaque.insert("x-auth-key", HeaderValue::from_static("p@ss"));
    assert_eq!(auth(&store, &opaque), Err(Error::Unauthorized));
}

#[test]
fn auth_reports_a_failing_store() {
    let mut store = store_with(&[("bob", "p@ss")]);
    store.set_online(false);
    assert_eq!(auth(&store, &headers("bob", "p@ss")), Err(Error::Internal));
    assert_eq!(auth(&store, &headers("bob", "wrong")), Err(Error::Internal));
    store.set_online(true);
    assert_eq!(auth(&store, &headers("bob", "p@ss")), Ok(Authed("bob".to_string())));
}

#[test]
fn auth_rejects_bad_fields_without_the_store() {
    // Unacceptable fields never reach the store, so its state cannot matter.
    let mut store = store_with(&[("bob", "p@ss")]);
    store.set_online(false);
    assert_eq!(auth(&store, &HeaderMap::new()), Err(Error::Unauthorized));
    assert_eq!(auth(&store, &headers("bob", "")), Err(Error::Unauthorized));
    assert_eq!(authenticate(&store, Some("a\nb"), Some("p@ss")), Err(Error::Unauthorized));
}

#[test]
fn auth_is_repeatable() {
    let store = store_with(&[("bob", "p@ss")]);
    let h = headers("bob", "p@ss");
    assert_eq!(auth(&store, &h), auth(&store, &h));
    let w = headers("bob", "nope");
    assert_eq!(auth(&store, &w), auth(&store, &w));
}

#[test]
fn authenticate_on_plain_values() {
    let store = store_with(&[("bob", "p@ss")]);
    assert_eq!(authenticate(&store, Some("bob"), Some("p@ss")), Ok(Authed("bob".to_string())));
    assert_eq!(authenticate(&store, Some("bob"), None), Err(Error::Unauthorized));
    assert_eq!(authenticate(&store, None, Some("p@ss")), Err(Error::Unauthorized));
    assert_eq!(authenticate(&store, Some("bob"), Some("x")), Err(Error::Unauthorized));
}

#[test]
fn a_secret_may_hold_what_a_key_may_not() {
    let mut store = MemStore::new();
    let data = CreateUser { username: "bob".to_string(), password: "pä ss/:word".to_string() };
    assert!(create_user(&mut store, &data).is_ok());
    assert_eq!(
        authenticate(&store, Some("bob"), Some("pä ss/:word")),
        Ok(Authed("bob".to_string()))
    );
}

#[test]
fn identity_check_acknowledges() {
    let reply = auth_user(&Authed("bob".to_string()));
    assert_eq!(reply, Reply::Authorized);
    assert_eq!(reply.status(), 200);
}

#[test]
fn healthcheck_reports_ok() {
    let reply = healthcheck(&Authed("bob".to_string()));
    assert_eq!(reply, Reply::Healthy);
    assert_eq!(reply.status(), 200);
}

#[test]
fn robots_disallows_everything() {
    assert_eq!(robots(), "User-agent: *\nDisallow: /\n");
}

#[test]
fn statuses_of_failures() {
    assert_eq!(Error::Unauthorized.status(), 401);
    assert_eq!(Error::UserExists.status(), 402);
    assert_eq!(Error::InvalidRequest.status(), 403);
    assert_eq!(Error::DocumentFieldMissing.status(), 403);
    assert_eq!(Error::Internal.status(), 500);
}

#[test]
fn codes_of_failures() {
    assert_eq!(Error::Internal.code(), 2000);
    assert_eq!(Error::Unauthorized.code(), 2001);
    assert_eq!(Error::UserExists.code(), 2002);
    assert_eq!(Error::InvalidRequest.code(), 2003);
    assert_eq!(Error::DocumentFieldMissing.code(), 2004);
}
