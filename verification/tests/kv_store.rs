use rabia::kv_store::{KVStore, KVStoreConfig, StoreSnapshot};
use rabia::kv_operations::{KVOperation, KVResult, StoreError};
use rabia::kv_notifications::ChangeType;

fn store() -> KVStore {
    KVStore::new(KVStoreConfig::default()).unwrap()
}

#[test]
fn test_basic_operations() {
    let mut store = store();

    let result = store.set("key1", "value1").unwrap();
    assert!(matches!(result, KVResult::Success));

    let value = store.get("key1").unwrap();
    assert_eq!(value.unwrap(), "value1");

    let exists = store.key_exists("key1").unwrap();
    assert!(exists);

    let result = store.delete("key1").unwrap();
    assert!(matches!(result, KVResult::Success));

    let value = store.get("key1").unwrap();
    assert!(value.is_none());
}

#[test]
fn test_batch_operations() {
    let mut store = store();

    let operations = vec![
        KVOperation::Put { key: "key1".to_string(), value: "value1".to_string() },
        KVOperation::Put { key: "key2".to_string(), value: "value2".to_string() },
        KVOperation::Get { key: "key1".to_string() },
    ];

    let results = store.apply_batch(operations).unwrap();
    assert_eq!(results.len(), 3);
    assert!(matches!(results[0], KVResult::Success));
    assert!(matches!(results[1], KVResult::Success));
    assert!(matches!(results[2], KVResult::Success));
}

#[test]
fn test_snapshot_and_restore() {
    let mut store = store();

    store.set("key1", "value1").unwrap();
    store.set("key2", "value2").unwrap();

    let snapshot = store.create_snapshot().unwrap();
    assert_eq!(snapshot.data.len(), 2);

    store.clear().unwrap();
    assert_eq!(store.size(), 0);

    store.restore_snapshot(snapshot).unwrap();
    assert_eq!(store.size(), 2);

    let value = store.get("key1").unwrap();
    assert_eq!(value.unwrap(), "value1");
}

#[test]
fn keys_are_checked() {
    let mut store = store();
    match store.set("", "v") {
        Err(StoreError::InvalidKey(m)) => assert_eq!(m, "Key cannot be empty"),
        other => panic!("unexpected {:?}", other),
    }
    let long = "k".repeat(257);
    match store.get(&long) {
        Err(StoreError::InvalidKey(m)) => assert_eq!(m, "Key too long"),
        other => panic!("unexpected {:?}", other),
    }
    let just_right = "k".repeat(256);
    assert!(store.set(&just_right, "v").is_ok());
}

#[test]
fn limits_refuse_without_change() {
    let config = KVStoreConfig { max_keys: 1, max_value_size: 4, ..KVStoreConfig::default() };
    let mut store = KVStore::new(config).unwrap();
    assert_eq!(store.set("a", "12345"), Err(StoreError::ValueTooLarge));
    assert!(store.set("a", "1234").is_ok());
    assert_eq!(store.set("b", "1"), Err(StoreError::StoreFull));
    assert!(store.set("a", "x").is_ok());
    assert_eq!(store.size(), 1);
    assert_eq!(store.get("a").unwrap(), Some("x".to_string()));
}

#[test]
fn changes_are_announced_in_order() {
    let mut store = store();
    store.set("k", "1").unwrap();
    store.set("k", "2").unwrap();
    store.delete("k").unwrap();
    store.delete("missing").unwrap();
    store.set("a", "x").unwrap();
    store.clear().unwrap();
    let notes = store.take_notifications();
    assert_eq!(notes.len(), 5);
    assert_eq!(notes[0].change_type, ChangeType::Created);
    assert_eq!(notes[0].new_value, Some("1".to_string()));
    assert_eq!(notes[1].change_type, ChangeType::Updated);
    assert_eq!(notes[1].old_value, Some("1".to_string()));
    assert_eq!(notes[2].change_type, ChangeType::Deleted);
    assert_eq!(notes[2].old_value, Some("2".to_string()));
    assert_eq!(notes[4].change_type, ChangeType::Cleared);
    assert_eq!(notes[4].key, "*");
    assert_eq!(notes[4].old_value, Some("1 keys".to_string()));
    let versions: Vec<u64> = notes.iter().map(|n| n.version).collect();
    assert_eq!(versions, vec![0, 1, 2, 3, 4]);
    assert!(store.take_notifications().is_empty());
}

#[test]
fn notifications_can_be_switched_off() {
    let config = KVStoreConfig { enable_notifications: false, ..KVStoreConfig::default() };
    let mut store = KVStore::new(config).unwrap();
    store.set("k", "v").unwrap();
    store.delete("k").unwrap();
    assert!(store.take_notifications().is_empty());
}

#[test]
fn entries_keep_versions_and_metadata() {
    let mut store = store();
    store.set("k", "v1").unwrap();
    let first = store.get_with_metadata("k").unwrap().unwrap();
    assert_eq!(first.version, 1);
    assert_eq!(first.size, 2);
    store.set("k", "longer").unwrap();
    let second = store.get_with_metadata("k").unwrap().unwrap();
    assert_eq!(second.version, 2);
    assert_eq!(second.size, 6);
    assert_eq!(second.created_at, first.created_at);
}

#[test]
fn keys_by_prefix() {
    let mut store = store();
    store.set("user:1", "a").unwrap();
    store.set("order:1", "b").unwrap();
    store.set("user:2", "c").unwrap();
    let mut users = store.keys(Some("user:")).unwrap();
    users.sort();
    assert_eq!(users, vec!["user:1".to_string(), "user:2".to_string()]);
    assert_eq!(store.keys(None).unwrap().len(), 3);
}

#[test]
fn a_refused_batch_changes_nothing() {
    let mut store = store();
    store.set("z", "0").unwrap();
    let before = store.get_stats();
    let ops = vec![
        KVOperation::Put { key: "a".to_string(), value: "1".to_string() },
        KVOperation::Delete { key: "z".to_string() },
        KVOperation::Delete { key: "".to_string() },
        KVOperation::Put { key: "b".to_string(), value: "2".to_string() },
    ];
    assert!(matches!(store.apply_batch(ops), Err(StoreError::InvalidKey(_))));
    let after = store.get_stats();
    assert_eq!(after.total_operations, before.total_operations);
    assert_eq!(store.size(), 1);
    assert_eq!(store.keys(None).unwrap(), vec!["z".to_string()]);
    assert_eq!(store.get("a").unwrap(), None);
    assert_eq!(store.get("z").unwrap(), Some("0".to_string()));
    assert_eq!(store.get("b").unwrap(), None);
    let ops = vec![
        KVOperation::Exists { key: "z".to_string() },
        KVOperation::Exists { key: "zz".to_string() },
        KVOperation::Delete { key: "z".to_string() },
        KVOperation::Get { key: "z".to_string() },
    ];
    let results = store.apply_batch(ops).unwrap();
    assert_eq!(results, vec![KVResult::Success, KVResult::NotFound, KVResult::Success, KVResult::NotFound]);
}

#[test]
fn a_batch_with_a_bad_key_leaves_an_empty_store_empty() {
    let mut store = store();
    let ops = vec![
        KVOperation::Put { key: "a".to_string(), value: "1".to_string() },
        KVOperation::Put { key: "".to_string(), value: "x".to_string() },
    ];
    assert!(matches!(store.apply_batch(ops), Err(StoreError::InvalidKey(_))));
    assert_eq!(store.get("a").unwrap(), None);
    assert_eq!(store.size(), 0);
    assert!(store.take_notifications().is_empty());
}

#[test]
fn a_tampered_snapshot_is_refused() {
    let mut store = store();
    store.set("a", "1").unwrap();
    let snapshot = store.create_snapshot().unwrap();
    let tampered = StoreSnapshot { checksum: snapshot.checksum.wrapping_add(1), ..snapshot.clone() };
    assert_eq!(store.restore_snapshot(tampered), Err(StoreError::InvalidSnapshot));
    store.set("b", "2").unwrap();
    assert!(store.restore_snapshot(snapshot).is_ok());
    assert_eq!(store.size(), 1);
}

#[test]
fn statistics_count_operations() {
    let mut store = store();
    store.set("a", "1").unwrap();
    store.get("a").unwrap();
    let _ = store.set("", "1");
    let stats = store.get_stats();
    assert_eq!(stats.total_operations, 2);
    assert_eq!(stats.total_keys, 1);
    assert!(stats.memory_usage_bytes >= 2);
    store.create_snapshot().unwrap();
    assert_eq!(store.get_stats().operations_since_snapshot, 0);
}

#[test]
fn test_kvstore_basic_operations() {
    let mut store = KVStore::new(KVStoreConfig::default()).unwrap();

    let result = store.set("key1", "value1").unwrap();
    assert!(result.is_success());

    let value = store.get("key1").unwrap();
    assert_eq!(value.unwrap(), "value1");

    let result = store.delete("key1").unwrap();
    assert!(result.is_success());

    let value = store.get("key1").unwrap();
    assert!(value.is_none());
}

#[test]
fn read_after_write_leaves_other_keys() {
    let mut store = store();
    store.set("a", "1").unwrap();
    store.set("b", "2").unwrap();
    store.set("a", "3").unwrap();
    assert_eq!(store.get("a").unwrap(), Some("3".to_string()));
    assert_eq!(store.get("b").unwrap(), Some("2".to_string()));
    store.delete("a").unwrap();
    assert_eq!(store.get("a").unwrap(), None);
    assert_eq!(store.get("b").unwrap(), Some("2".to_string()));
}

#[test]
fn snapshot_restores_what_it_was_made_from() {
    let mut store = store();
    store.set("x", "10").unwrap();
    store.set("y", "20").unwrap();
    let snapshot = store.create_snapshot().unwrap();
    store.set("x", "11").unwrap();
    store.delete("y").unwrap();
    store.set("z", "30").unwrap();
    store.restore_snapshot(snapshot).unwrap();
    assert_eq!(store.get("x").unwrap(), Some("10".to_string()));
    assert_eq!(store.get("y").unwrap(), Some("20".to_string()));
    assert_eq!(store.get("z").unwrap(), None);
    assert_eq!(store.size(), 2);
}

#[test]
fn a_successful_batch_counts_each_operation_and_notifies_each_change() {
    let mut store = store();
    store.set("z", "0").unwrap();
    let first = store.take_notifications();
    assert_eq!(first.len(), 1);
    let before = store.get_stats();
    let ops = vec![
        KVOperation::Put { key: "a".to_string(), value: "1".to_string() },
        KVOperation::Delete { key: "missing".to_string() },
        KVOperation::Delete { key: "z".to_string() },
        KVOperation::Get { key: "a".to_string() },
    ];
    let results = store.apply_batch(ops).unwrap();
    assert_eq!(results, vec![KVResult::Success, KVResult::NotFound, KVResult::Success, KVResult::Success]);
    let after = store.get_stats();
    assert_eq!(after.total_operations, before.total_operations + 4);
    let notes = store.take_notifications();
    assert_eq!(notes.len(), 2);
    assert!(matches!(notes[0].change_type, ChangeType::Created));
    assert!(matches!(notes[1].change_type, ChangeType::Deleted));
    assert_eq!(notes[0].key, "a");
    assert_eq!(notes[0].new_value, Some("1".to_string()));
    assert_eq!(notes[1].key, "z");
    assert_eq!(notes[1].old_value, Some("0".to_string()));
    assert_eq!(notes[1].new_value, None);
    assert_eq!(notes[1].version, notes[0].version + 1);
    assert_eq!(notes[0].version, first[0].version + 1);
}
