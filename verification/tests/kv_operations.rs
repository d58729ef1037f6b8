use rabia::kv_operations::{BatchResult, KVOperation, KVResult, OperationBatch, StoreError};
use rabia::kv_notifications::{ChangeNotification, ChangeType, NotificationFilter};

#[test]
fn test_kv_operation_properties() {
    let set_op = KVOperation::Put {
        key: "test_key".to_string(),
        value: "test_value".to_string(),
    };
    let get_op = KVOperation::Get {
        key: "test_key".to_string(),
    };
    let delete_op = KVOperation::Delete {
        key: "test_key".to_string(),
    };
    let exists_op = KVOperation::Exists {
        key: "test_key".to_string(),
    };

    assert_eq!(set_op.key(), "test_key");
    assert_eq!(get_op.key(), "test_key");
    assert_eq!(delete_op.key(), "test_key");
    assert_eq!(exists_op.key(), "test_key");

    assert_eq!(set_op.operation_type(), "SET");
    assert_eq!(get_op.operation_type(), "GET");
    assert_eq!(delete_op.operation_type(), "DELETE");
    assert_eq!(exists_op.operation_type(), "EXISTS");

    assert!(set_op.is_write_operation());
    assert!(!get_op.is_write_operation());
    assert!(delete_op.is_write_operation());
    assert!(!exists_op.is_write_operation());

    assert!(!set_op.is_read_operation());
    assert!(get_op.is_read_operation());
    assert!(!delete_op.is_read_operation());
    assert!(exists_op.is_read_operation());
}

#[test]
fn test_kv_result_properties() {
    let success = KVResult::Success;
    let not_found = KVResult::NotFound;
    let error = KVResult::Error("Test error".to_string());

    assert!(success.is_success());
    assert!(!success.is_not_found());
    assert!(!success.is_error());

    assert!(!not_found.is_success());
    assert!(not_found.is_not_found());
    assert!(!not_found.is_error());

    assert!(!error.is_success());
    assert!(!error.is_not_found());
    assert!(error.is_error());
    assert_eq!(error.error_message().unwrap(), "Test error");
}

#[test]
fn test_store_error_classification() {
    let client_error = StoreError::InvalidKey("test".to_string());
    let server_error = StoreError::Internal("test".to_string());
    let recoverable_error = StoreError::NetworkError("test".to_string());

    assert!(client_error.is_client_error());
    assert!(!client_error.is_server_error());
    assert!(!client_error.is_recoverable());

    assert!(!server_error.is_client_error());
    assert!(server_error.is_server_error());
    assert!(!server_error.is_recoverable());

    assert!(!recoverable_error.is_client_error());
    assert!(!recoverable_error.is_server_error());
    assert!(recoverable_error.is_recoverable());
}

#[test]
fn test_operation_batch() {
    let operations = vec![
        KVOperation::Put {
            key: "key1".to_string(),
            value: "value1".to_string(),
        },
        KVOperation::Get {
            key: "key2".to_string(),
        },
        KVOperation::Delete {
            key: "key3".to_string(),
        },
    ];

    let batch = OperationBatch::new(operations);

    assert_eq!(batch.size(), 3);
    assert!(batch.has_write_operations());
    assert!(!batch.is_read_only());

    let affected_keys = batch.affected_keys();
    assert_eq!(affected_keys, vec!["key1", "key2", "key3"]);
}

#[test]
fn test_batch_result() {
    let results = vec![
        KVResult::Success,
        KVResult::NotFound,
        KVResult::Error("test".to_string()),
    ];

    let batch_result = BatchResult::new("test_batch".to_string(), results, 100);

    assert_eq!(batch_result.success_count, 1);
    assert_eq!(batch_result.failure_count, 2);
    assert!(!batch_result.all_succeeded());
    assert!(batch_result.has_failures());
    assert_eq!(batch_result.execution_time_ms, 100);
    let rate = (batch_result.success_count as f64 / batch_result.results.len() as f64) * 100.0;
    assert!((rate - 33.333333333333336).abs() < 0.0001);
}

#[test]
fn read_only_batches_and_batch_ids() {
    let batch = OperationBatch::new(vec![KVOperation::Get { key: "a".to_string() }]);
    assert!(batch.is_read_only());
    assert!(!batch.has_write_operations());
    assert_eq!(batch.batch_id.len(), 36);
    assert_eq!(batch.batch_id.matches('-').count(), 4);
    let empty = BatchResult::new("b".to_string(), vec![], 0);
    assert!(empty.all_succeeded());
}

#[test]
fn store_error_texts() {
    assert_eq!(StoreError::InvalidKey("k".to_string()).message(), "Invalid key: k");
    assert_eq!(StoreError::ValueTooLarge.message(), "Value too large");
    assert_eq!(StoreError::StoreFull.message(), "Store is full");
    assert_eq!(StoreError::SerializationError("s".to_string()).message(), "Serialization error: s");
    assert_eq!(StoreError::InvalidSnapshot.message(), "Invalid snapshot");
    assert_eq!(StoreError::IoError("i".to_string()).message(), "IO error: i");
    assert_eq!(StoreError::NetworkError("n".to_string()).message(), "Network error: n");
    assert_eq!(StoreError::ConsensusError("c".to_string()).message(), "Consensus error: c");
    assert_eq!(StoreError::Timeout.message(), "Operation timed out");
    assert_eq!(StoreError::ShuttingDown.message(), "Store is shutting down");
    assert_eq!(StoreError::Internal("x".to_string()).message(), "Internal error: x");
    assert_eq!(KVResult::from_store_error(StoreError::StoreFull), KVResult::Error("Store is full".to_string()));
}

fn sample_notification() -> ChangeNotification {
    ChangeNotification {
        key: "test_key".to_string(),
        change_type: ChangeType::Updated,
        old_value: Some("old".to_string()),
        new_value: Some("new".to_string()),
        version: 1,
        timestamp: 123456789,
    }
}

#[test]
fn test_notification_filter_logic() {
    let notification = sample_notification();

    assert!(NotificationFilter::All.matches(&notification));
    assert!(NotificationFilter::Key("test_key".to_string()).matches(&notification));
    assert!(!NotificationFilter::Key("other_key".to_string()).matches(&notification));
    assert!(NotificationFilter::KeyPrefix("test_".to_string()).matches(&notification));
    assert!(!NotificationFilter::KeyPrefix("other_".to_string()).matches(&notification));
    assert!(NotificationFilter::ChangeType(ChangeType::Updated).matches(&notification));
    assert!(!NotificationFilter::ChangeType(ChangeType::Created).matches(&notification));

    let and_filter = NotificationFilter::And(vec![
        NotificationFilter::KeyPrefix("test_".to_string()),
        NotificationFilter::ChangeType(ChangeType::Updated),
    ]);
    assert!(and_filter.matches(&notification));

    let or_filter = NotificationFilter::Or(vec![
        NotificationFilter::Key("wrong_key".to_string()),
        NotificationFilter::ChangeType(ChangeType::Updated),
    ]);
    assert!(or_filter.matches(&notification));
}

#[test]
fn combined_filters_and_copies() {
    let n = sample_notification();
    assert!(NotificationFilter::And(vec![]).matches(&n));
    assert!(!NotificationFilter::Or(vec![]).matches(&n));
    let f = NotificationFilter::And(vec![
        NotificationFilter::KeyPrefix("test_".to_string()),
        NotificationFilter::ChangeType(ChangeType::Deleted),
    ]);
    assert!(!f.matches(&n));
    assert!(!f.duplicate().matches(&n));
    let nested = NotificationFilter::Or(vec![f, NotificationFilter::Key("test_key".to_string())]);
    assert!(nested.duplicate().matches(&n));
    assert_eq!(ChangeType::Cleared.as_text(), "CLEARED");
}
