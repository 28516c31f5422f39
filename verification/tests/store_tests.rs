use ghostink::errors::ApiError;
use ghostink::store::PasteStore;

#[test]
fn put_then_get_returns_the_blob() {
    let mut store = PasteStore::new();
    store
        .put("a".to_string(), "blob-a".to_string(), 100)
        .unwrap();
    assert_eq!(store.get(&"a".to_string(), 50), Ok("blob-a".to_string()));
}

#[test]
fn get_unknown_id_is_not_found() {
    let store = PasteStore::new();
    assert_eq!(store.get(&"nope".to_string(), 0), Err(ApiError::NotFound));
}

#[test]
fn expiry_boundary_at_now_is_absent() {
    let mut store = PasteStore::new();
    let now = 1000;
    store.put("a".to_string(), "x".to_string(), now).unwrap();
    // expires_at == now: treated as absent
    assert_eq!(store.get(&"a".to_string(), now), Err(ApiError::NotFound));
}

#[test]
fn expiry_one_second_ahead_is_present() {
    let mut store = PasteStore::new();
    let now = 1000;
    store
        .put("a".to_string(), "x".to_string(), now + 1)
        .unwrap();
    assert_eq!(store.get(&"a".to_string(), now), Ok("x".to_string()));
}

#[test]
fn expired_paste_is_absent_before_any_sweep() {
    let mut store = PasteStore::new();
    store.put("a".to_string(), "x".to_string(), 10).unwrap();
    assert_eq!(store.get(&"a".to_string(), 11), Err(ApiError::NotFound));
}

#[test]
fn duplicate_id_is_a_storage_error_and_changes_nothing() {
    let mut store = PasteStore::new();
    store.put("a".to_string(), "one".to_string(), 100).unwrap();
    assert_eq!(
        store.put("a".to_string(), "two".to_string(), 200),
        Err(ApiError::Storage)
    );
    assert_eq!(store.rows().len(), 1);
    assert_eq!(store.get(&"a".to_string(), 50), Ok("one".to_string()));
}

#[test]
fn sweep_keeps_a_live_paste_retrievable() {
    let mut store = PasteStore::new();
    let now = 1000;
    let day = 86400;
    store
        .put("a".to_string(), "keep".to_string(), now + day)
        .unwrap();
    let removed = store.sweep_expired(now);
    assert_eq!(removed, 0);
    assert_eq!(store.get(&"a".to_string(), now), Ok("keep".to_string()));
}

#[test]
fn sweep_removes_an_already_expired_paste() {
    let mut store = PasteStore::new();
    let now = 1000;
    store.put("a".to_string(), "gone".to_string(), now).unwrap();
    let removed = store.sweep_expired(now);
    assert_eq!(removed, 1);
    assert_eq!(store.rows().len(), 0);
    assert_eq!(store.get(&"a".to_string(), now), Err(ApiError::NotFound));
}

#[test]
fn sweep_is_idempotent_and_keeps_order() {
    let mut store = PasteStore::new();
    store.put("a".to_string(), "1".to_string(), 10).unwrap();
    store.put("b".to_string(), "2".to_string(), 200).unwrap();
    store.put("c".to_string(), "3".to_string(), 20).unwrap();
    store.put("d".to_string(), "4".to_string(), 300).unwrap();
    assert_eq!(store.sweep_expired(100), 2);
    let ids: Vec<&str> = store.rows().iter().map(|p| p.id.as_str()).collect();
    assert_eq!(ids, vec!["b", "d"]);
    assert_eq!(store.sweep_expired(100), 0);
}
