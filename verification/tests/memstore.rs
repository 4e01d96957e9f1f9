use kosync::{Fault, MemStore, ProgressState, Store};

fn record(document: &str, cursor: &str) -> ProgressState {
    ProgressState {
        document: document.to_string(),
        percentage: 0,
        progress_cursor: cursor.to_string(),
        device: "d".to_string(),
        device_id: "i".to_string(),
        timestamp: Some(1),
    }
}

#[test]
fn a_new_store_is_empty() {
    let store = MemStore::new();
    assert_eq!(store.get_user("bob"), Ok(None));
    assert_eq!(store.get_doc("bob", "doc1"), Ok(None));
}

#[test]
fn put_user_then_get_user() {
    let mut store = MemStore::new();
    assert_eq!(store.put_user("bob", "one"), Ok(()));
    assert_eq!(store.get_user("bob"), Ok(Some("one".to_string())));
    assert_eq!(store.put_user("bob", "two"), Ok(()));
    assert_eq!(store.get_user("bob"), Ok(Some("two".to_string())));
    assert_eq!(store.get_user("bo"), Ok(None));
    assert_eq!(store.get_user("bobb"), Ok(None));
}

#[test]
fn put_doc_then_get_doc() {
    let mut store = MemStore::new();
    assert_eq!(store.put_doc("bob", "doc1", &record("doc1", "a")), Ok(()));
    assert_eq!(store.put_doc("bob", "doc2", &record("doc2", "b")), Ok(()));
    assert_eq!(store.get_doc("bob", "doc1"), Ok(Some(record("doc1", "a"))));
    assert_eq!(store.put_doc("bob", "doc1", &record("doc1", "c")), Ok(()));
    assert_eq!(store.get_doc("bob", "doc1"), Ok(Some(record("doc1", "c"))));
    assert_eq!(store.get_doc("bob", "doc2"), Ok(Some(record("doc2", "b"))));
    assert_eq!(store.get_doc("alice", "doc1"), Ok(None));
}

#[test]
fn users_and_documents_are_apart() {
    let mut store = MemStore::new();
    store.put_user("bob", "one").unwrap();
    store.put_doc("alice", "bob", &record("bob", "a")).unwrap();
    assert_eq!(store.get_user("alice"), Ok(None));
    assert_eq!(store.get_doc("bob", "bob"), Ok(None));
    assert_eq!(store.get_user("bob"), Ok(Some("one".to_string())));
}

#[test]
fn an_offline_store_fails_and_keeps_its_contents() {
    let mut store = MemStore::new();
    store.put_user("bob", "one").unwrap();
    store.put_doc("bob", "doc1", &record("doc1", "a")).unwrap();
    store.set_online(false);
    assert_eq!(store.get_user("bob"), Err(Fault));
    assert_eq!(store.get_doc("bob", "doc1"), Err(Fault));
    assert_eq!(store.put_user("bob", "two"), Err(Fault));
    assert_eq!(store.put_user("carol", "x"), Err(Fault));
    assert_eq!(store.put_doc("bob", "doc1", &record("doc1", "z")), Err(Fault));
    store.set_online(true);
    assert_eq!(store.get_user("bob"), Ok(Some("one".to_string())));
    assert_eq!(store.get_user("carol"), Ok(None));
    assert_eq!(store.get_doc("bob", "doc1"), Ok(Some(record("doc1", "a"))));
}
