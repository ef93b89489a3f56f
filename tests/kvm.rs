use std::collections::HashMap;

use hacker_news_worker::kvm::{KVManager, KVMeta, ListPage, ListStep, PutRequest, METADATA_LIMIT};

fn manager() -> KVManager {
    KVManager::init("HN-".to_string(), "TTL_TEST".to_string(), 3600).0
}

fn apply(store: &mut HashMap<String, PutRequest>, req: PutRequest) {
    store.insert(req.key.clone(), req);
}

#[test]
fn init_writes_retention_marker() {
    let (kvm, marker) = KVManager::init("HN-".to_string(), "TTL_TEST".to_string(), 3600);
    assert_eq!(marker.key, "TTL_TEST");
    assert_eq!(marker.value, "3600");
    assert_eq!(marker.expiration_ttl, None);
    assert_eq!(marker.metadata, None);
    assert_eq!(kvm.prefix(), "HN-");
    assert_eq!(kvm.ttl_key(), "TTL_TEST");
    assert_eq!(kvm.ttl_val(), 3600);
}

#[test]
fn create_defaults_ttl() {
    let kvm = manager();
    let r = kvm.create("HN-1", "v", None, None);
    assert_eq!(r.key, "HN-1");
    assert_eq!(r.value, "v");
    assert_eq!(r.expiration_ttl, Some(3600));
    assert_eq!(r.metadata, None);
    let r = kvm.create("HN-1", "v", Some("{\"uuid\":\"x\"}"), Some(60));
    assert_eq!(r.expiration_ttl, Some(60));
    assert_eq!(r.metadata.as_deref(), Some("{\"uuid\":\"x\"}"));
}

#[test]
fn oversized_metadata_is_replaced() {
    let kvm = manager();
    let big = format!("{{\"pad\":\"{}\"}}", "x".repeat(METADATA_LIMIT));
    let r = kvm.create("HN-7", "value", Some(&big), None);
    assert_eq!(r.value, "value");
    assert_eq!(r.key, "HN-7");
    assert_eq!(r.metadata.as_deref(), Some("{}"));
    let exact = "y".repeat(METADATA_LIMIT);
    let r = kvm.create("HN-7", "value", Some(&exact), None);
    assert_eq!(r.metadata.as_deref(), Some(exact.as_str()));
}

#[test]
fn writing_twice_keeps_one_record() {
    let kvm = manager();
    let mut store = HashMap::new();
    let key = kvm.cache_key(46103532);
    assert_eq!(key, "HN-46103532");
    apply(&mut store, kvm.create(&key, "first", None, None));
    apply(&mut store, kvm.create(&kvm.cache_key(46103532), "second", None, None));
    assert_eq!(store.len(), 1);
    assert_eq!(store["HN-46103532"].value, "second");
}

#[test]
fn fresh_metadata_has_uuid() {
    let m = KVMeta::fresh();
    assert_eq!(m.uuid.len(), 36);
    assert_eq!(m.uuid.matches('-').count(), 4);
    assert!(m.llm_summary.is_none());
    assert!(m.llm_score.is_none());
    assert_ne!(KVMeta::fresh().uuid, m.uuid);
    let m = KVMeta::new("id".to_string())
        .with_llm_summary(Some("s".to_string()))
        .with_llm_score(Some("t".to_string()));
    assert_eq!(m.uuid, "id");
    assert_eq!(m.llm_summary.as_deref(), Some("s"));
    assert_eq!(m.llm_score.as_deref(), Some("t"));
}

fn page(keys: &[&str], complete: bool, cursor: Option<&str>) -> ListPage {
    ListPage {
        keys: keys.iter().map(|k| k.to_string()).collect(),
        list_complete: complete,
        cursor: cursor.map(|c| c.to_string()),
    }
}

#[test]
fn bounded_listing_stops_after_one_page() {
    let kvm = manager();
    let mut l = kvm.list_keys(None, true);
    let req = l.first_request();
    assert_eq!(req.prefix, "HN-");
    assert_eq!(req.cursor, None);
    match l.on_page(page(&["HN-1", "HN-2"], false, Some("c1"))) {
        ListStep::Done { keys, truncated } => {
            assert_eq!(keys, vec!["HN-1".to_string(), "HN-2".to_string()]);
            assert!(truncated);
        }
        other => panic!("unexpected {:?}", other),
    }
}

#[test]
fn exhaustive_listing_follows_cursor() {
    let kvm = manager();
    let mut l = kvm.list_keys(Some("XX-"), false);
    assert_eq!(l.first_request().prefix, "XX-");
    match l.on_page(page(&["XX-1"], false, Some("c1"))) {
        ListStep::Fetch(req) => {
            assert_eq!(req.prefix, "XX-");
            assert_eq!(req.cursor.as_deref(), Some("c1"));
        }
        other => panic!("unexpected {:?}", other),
    }
    match l.on_page(page(&["XX-2", "XX-3"], false, Some("c2"))) {
        ListStep::Fetch(req) => assert_eq!(req.cursor.as_deref(), Some("c2")),
        other => panic!("unexpected {:?}", other),
    }
    match l.on_page(page(&["XX-4"], true, None)) {
        ListStep::Done { keys, truncated } => {
            assert_eq!(keys, vec!["XX-1", "XX-2", "XX-3", "XX-4"]);
            assert!(!truncated);
        }
        other => panic!("unexpected {:?}", other),
    }
}

#[test]
fn exhaustive_listing_from_cursor() {
    let kvm = manager();
    let l = kvm.list_all(None, Some("c9"));
    let req = l.first_request();
    assert_eq!(req.prefix, "HN-");
    assert_eq!(req.cursor.as_deref(), Some("c9"));
    let l = kvm.list_once(Some("AB"));
    assert_eq!(l.first_request().prefix, "AB");
}
