//! The session store on its own, with plain numbers for document handles.

use std::cell::Cell;
use std::time::{Duration, Instant};

use mupdf_rs_mcp_server::error::MupdfServerError;
use mupdf_rs_mcp_server::state::{DocumentStore, StoredDocument};

fn ids_of(store: &DocumentStore<u32>) -> Vec<String> {
    let mut ids: Vec<String> = store.list().into_iter().map(|info| info.id).collect();
    ids.sort();
    ids
}

#[test]
fn insert_issues_a_new_identifier_each_time() {
    let mut store: DocumentStore<u32> = DocumentStore::new();
    let first = store.insert(10, 3);
    let second = store.insert(20, 7);
    assert_eq!(first.len(), 36);
    assert_eq!(second.len(), 36);
    assert_ne!(first, second);
    assert_eq!(store.len(), 2);
    assert!(!store.is_empty());
}

#[test]
fn info_after_insert_reports_the_page_count() {
    let mut store: DocumentStore<u32> = DocumentStore::new();
    let id = store.insert(10, 42);
    let info = store.get_info(&id).unwrap();
    assert_eq!(info.id, id);
    assert_eq!(info.page_count, 42);
    assert_eq!(info.created_at, info.last_accessed);
}

#[test]
fn info_of_an_unknown_identifier_fails() {
    let store: DocumentStore<u32> = DocumentStore::new();
    match store.get_info("never-issued") {
        Err(MupdfServerError::DocumentNotFound(id)) => assert_eq!(id, "never-issued"),
        other => panic!("expected DocumentNotFound, got {:?}", other.map(|info| info.id)),
    }
}

#[test]
fn info_does_not_count_as_an_access() {
    let mut store: DocumentStore<u32> = DocumentStore::new();
    let id = store.insert(10, 1);
    let before = store.get_info(&id).unwrap();
    let again = store.get_info(&id).unwrap();
    assert_eq!(before.last_accessed, again.last_accessed);
    assert_eq!(before.created_at, again.created_at);
}

#[test]
fn access_records_the_time_and_nothing_else() {
    let mut store: DocumentStore<u32> = DocumentStore::new();
    let id = store.insert(10, 5);
    let other = store.insert(11, 6);
    let before = store.get_info(&id).unwrap();
    let other_before = store.get_info(&other).unwrap();
    let later = Instant::now() + Duration::from_secs(5);

    let record = store.access_at(&id, later).unwrap();
    assert_eq!(record.document, 10);
    assert_eq!(record.info.last_accessed, later);

    let after = store.get_info(&id).unwrap();
    assert_eq!(after.last_accessed, later);
    assert_eq!(after.created_at, before.created_at);
    assert_eq!(after.page_count, 5);
    assert_eq!(after.id, id);

    let other_after = store.get_info(&other).unwrap();
    assert_eq!(other_after.last_accessed, other_before.last_accessed);
    assert_eq!(store.len(), 2);
}

#[test]
fn access_by_the_clock_does_not_go_back_in_time() {
    let mut store: DocumentStore<u32> = DocumentStore::new();
    let id = store.insert(10, 5);
    let created = store.get_info(&id).unwrap().created_at;
    let record = store.access(&id).unwrap();
    assert!(record.info.last_accessed >= created);
    assert_eq!(record.info.created_at, created);
}

#[test]
fn access_to_an_unknown_identifier_fails_and_changes_nothing() {
    let mut store: DocumentStore<u32> = DocumentStore::new();
    let id = store.insert(10, 5);
    let before = store.get_info(&id).unwrap();
    match store.access("nobody") {
        Err(MupdfServerError::DocumentNotFound(missing)) => assert_eq!(missing, "nobody"),
        _ => panic!("expected DocumentNotFound"),
    }
    assert_eq!(store.get_info(&id).unwrap().last_accessed, before.last_accessed);
    assert_eq!(store.len(), 1);
}

#[test]
fn with_document_hands_the_handle_to_the_operation() {
    let mut store: DocumentStore<u32> = DocumentStore::new();
    let id = store.insert(10, 5);
    let doubled = store.with_document(&id, |handle: &u32| Ok(*handle * 2)).unwrap();
    assert_eq!(doubled, 20);
}

#[test]
fn with_document_passes_a_failure_on_unchanged() {
    let mut store: DocumentStore<u32> = DocumentStore::new();
    let id = store.insert(10, 5);
    let outcome: Result<u32, MupdfServerError> =
        store.with_document(&id, |_handle: &u32| Err(MupdfServerError::NotAPdf));
    assert!(matches!(outcome, Err(MupdfServerError::NotAPdf)));
    assert_eq!(store.len(), 1);
}

#[test]
fn with_document_does_not_run_the_operation_without_a_session() {
    let mut store: DocumentStore<u32> = DocumentStore::new();
    let ran = Cell::new(false);
    let outcome: Result<u32, MupdfServerError> = store.with_document("gone", |handle: &u32| {
        ran.set(true);
        Ok(*handle)
    });
    match outcome {
        Err(MupdfServerError::DocumentNotFound(id)) => assert_eq!(id, "gone"),
        _ => panic!("expected DocumentNotFound"),
    }
    assert!(!ran.get());
}

#[test]
fn with_document_mut_keeps_what_the_operation_did() {
    let mut store: DocumentStore<u32> = DocumentStore::new();
    let id = store.insert(10, 5);
    let seen = store
        .with_document_mut(&id, |handle: &mut u32| {
            *handle += 1;
            Ok(*handle)
        })
        .unwrap();
    assert_eq!(seen, 11);
    let kept = store.with_document(&id, |handle: &u32| Ok(*handle)).unwrap();
    assert_eq!(kept, 11);
    assert_eq!(store.get_info(&id).unwrap().page_count, 5);
}

#[test]
fn with_document_mut_fails_without_a_session() {
    let mut store: DocumentStore<u32> = DocumentStore::new();
    let outcome: Result<(), MupdfServerError> =
        store.with_document_mut("gone", |_handle: &mut u32| Ok(()));
    assert!(matches!(outcome, Err(MupdfServerError::DocumentNotFound(id)) if id == "gone"));
}

#[test]
fn closing_twice_succeeds_once() {
    let mut store: DocumentStore<u32> = DocumentStore::new();
    let id = store.insert(10, 5);
    assert!(store.remove(&id).is_ok());
    match store.remove(&id) {
        Err(MupdfServerError::DocumentNotFound(missing)) => assert_eq!(missing, id),
        _ => panic!("expected DocumentNotFound"),
    }
    assert!(store.is_empty());
}

#[test]
fn a_closed_session_is_unknown_to_every_operation() {
    let mut store: DocumentStore<u32> = DocumentStore::new();
    let id = store.insert(10, 5);
    store.remove(&id).unwrap();
    assert!(matches!(store.get_info(&id), Err(MupdfServerError::DocumentNotFound(_))));
    assert!(matches!(store.access(&id), Err(MupdfServerError::DocumentNotFound(_))));
    let outcome: Result<u32, MupdfServerError> = store.with_document(&id, |h: &u32| Ok(*h));
    assert!(matches!(outcome, Err(MupdfServerError::DocumentNotFound(_))));
}

#[test]
fn the_listing_is_exactly_the_open_sessions() {
    let mut store: DocumentStore<u32> = DocumentStore::new();
    let a = store.insert(1, 1);
    let b = store.insert(2, 2);
    let c = store.insert(3, 3);
    store.remove(&b).unwrap();
    let d = store.insert(4, 4);
    store.remove(&a).unwrap();

    let mut expected = vec![c.clone(), d.clone()];
    expected.sort();
    assert_eq!(ids_of(&store), expected);
    assert_eq!(store.len(), 2);

    store.remove(&d).unwrap();
    store.remove(&c).unwrap();
    assert!(ids_of(&store).is_empty());
    assert!(store.is_empty());
}

#[test]
fn removal_leaves_the_other_sessions_as_they_were() {
    let mut store: DocumentStore<u32> = DocumentStore::new();
    let a = store.insert(1, 11);
    let b = store.insert(2, 22);
    let c = store.insert(3, 33);
    store.remove(&b).unwrap();
    assert_eq!(store.get_info(&a).unwrap().page_count, 11);
    assert_eq!(store.get_info(&c).unwrap().page_count, 33);
    assert_eq!(store.with_document(&a, |h: &u32| Ok(*h)).unwrap(), 1);
    assert_eq!(store.with_document(&c, |h: &u32| Ok(*h)).unwrap(), 3);
}

#[test]
fn storing_under_an_identifier_in_use_replaces_the_session() {
    let mut store: DocumentStore<u32> = DocumentStore::new();
    let now = Instant::now();
    store.insert_record(StoredDocument::with_id(1, 10, "same".to_string(), now));
    store.insert_record(StoredDocument::with_id(2, 20, "other".to_string(), now));
    store.insert_record(StoredDocument::with_id(3, 30, "same".to_string(), now));
    assert_eq!(store.len(), 2);
    assert_eq!(store.get_info("same").unwrap().page_count, 30);
    assert_eq!(store.with_document("same", |h: &u32| Ok(*h)).unwrap(), 3);
    assert_eq!(store.get_info("other").unwrap().page_count, 20);
}

#[test]
fn a_new_record_starts_with_equal_times() {
    let stored = StoredDocument::new(7u32, 9);
    assert_eq!(stored.document, 7);
    assert_eq!(stored.info.page_count, 9);
    assert_eq!(stored.info.created_at, stored.info.last_accessed);
    assert_eq!(stored.info.id.len(), 36);
}

#[test]
fn touching_a_record_changes_the_last_access_only() {
    let start = Instant::now();
    let mut stored = StoredDocument::with_id(7u32, 9, "id".to_string(), start);
    let later = start + Duration::from_secs(60);
    stored.touch_at(later);
    assert_eq!(stored.info.last_accessed, later);
    assert_eq!(stored.info.created_at, start);
    assert_eq!(stored.info.id, "id");
    assert_eq!(stored.info.page_count, 9);
    assert_eq!(stored.document, 7);

    stored.touch();
    assert_eq!(stored.info.created_at, start);
    assert_eq!(stored.info.page_count, 9);
}

#[test]
fn an_info_record_can_be_copied() {
    let mut store: DocumentStore<u32> = DocumentStore::new();
    let id = store.insert(10, 5);
    let info = store.get_info(&id).unwrap();
    let copy = info.clone();
    assert_eq!(copy.id, info.id);
    assert_eq!(copy.page_count, info.page_count);
    assert_eq!(copy.created_at, info.created_at);
    assert_eq!(copy.last_accessed, info.last_accessed);
}

#[test]
fn the_default_store_is_empty() {
    let store: DocumentStore<u32> = DocumentStore::default();
    assert!(store.is_empty());
    assert_eq!(store.len(), 0);
}
