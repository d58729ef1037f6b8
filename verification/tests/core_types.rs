use rabia::types::{BatchId, Command, CommandBatch, ConsensusState, NodeId, PhaseId, StateValue};
use rabia::messages::{ProposeMessage, ProtocolMessage};
use rabia::validation::Validator;
use rabia::error::RabiaError;

#[test]
fn test_phase_id_operations() {
    let phase1 = PhaseId::new(1);
    let phase2 = phase1.next();

    assert_eq!(phase1.value(), 1);
    assert_eq!(phase2.value(), 2);
    assert!(phase2 > phase1);
}

#[test]
fn test_command_batch_creation() {
    let commands = vec![
        Command::new("SET key1 value1"),
        Command::new("SET key2 value2"),
    ];

    let batch = CommandBatch::new(commands.clone());
    assert_eq!(batch.commands.len(), 2);
    assert_eq!(batch.commands, commands);
}

#[test]
fn test_message_validation() {
    let node_id = NodeId::new();
    let batch_id = BatchId::new();
    let phase_id = PhaseId::new(1);

    let propose = ProposeMessage {
        phase_id,
        batch_id,
        value: StateValue::V1,
        batch: None,
    };

    let message = ProtocolMessage::propose(node_id, propose);

    assert!(message.validate().is_ok());
}

#[test]
fn test_error_types() {
    let error = RabiaError::network("test error");
    assert!(error.is_retryable());

    let error = RabiaError::ChecksumMismatch {
        expected: 123,
        actual: 456,
    };
    assert!(!error.is_retryable());
}

#[test]
fn node_id_from_small_numbers_orders_like_the_numbers() {
    let a = NodeId::from(1u32);
    let b = NodeId::from(2u32);
    let c = NodeId::from(3u32);
    assert!(a < b && b < c);
    assert_eq!(a.0, 0x0000_0001_0000_0001_0000_0001_0000_0001u128);
}

#[test]
fn node_id_text_is_the_hyphenated_uuid() {
    let id = NodeId(0x0123_4567_89ab_cdef_0011_2233_4455_6677u128);
    assert_eq!(id.to_text(), "01234567-89ab-cdef-0011-223344556677");
    let batch = BatchId(0xffu128);
    assert_eq!(batch.to_text(), "00000000-0000-0000-0000-0000000000ff");
}

#[test]
fn phase_and_state_texts() {
    assert_eq!(PhaseId::new(42).to_text(), "42");
    assert_eq!(ConsensusState::Active.to_text(), "Active");
    assert_eq!(ConsensusState::Idle.to_text(), "Idle");
    assert_eq!(StateValue::V0.to_text(), "V0");
    assert_eq!(StateValue::V1.to_text(), "V1");
    assert_eq!(StateValue::VQuestion.to_text(), "V?");
}

#[test]
fn fresh_identifiers_differ() {
    assert_ne!(NodeId::new(), NodeId::new());
    assert_ne!(BatchId::new(), BatchId::new());
}

#[test]
fn serialization_error_has_its_prefix() {
    match RabiaError::serialization("bad input") {
        RabiaError::Internal { message } => assert_eq!(message, "Serialization error: bad input"),
        other => panic!("unexpected error {:?}", other),
    }
}

#[test]
fn retryable_errors_are_network_timeout_and_quorum() {
    assert!(RabiaError::Timeout { operation: "op".to_string() }.is_retryable());
    assert!(RabiaError::QuorumNotAvailable { current: 1, required: 2 }.is_retryable());
    assert!(!RabiaError::internal("x").is_retryable());
    assert!(!RabiaError::consensus("x").is_retryable());
}

#[test]
fn fresh_identifiers_are_random_uuids() {
    for text in [NodeId::new().to_text(), BatchId::new().to_text()] {
        let chars: Vec<char> = text.chars().collect();
        assert_eq!(chars[14], '4');
        assert!(matches!(chars[19], '8' | '9' | 'a' | 'b'));
    }
    let id = NodeId::new();
    assert_eq!((id.0 >> 76) & 0xf, 4);
    assert_eq!((id.0 >> 62) & 0x3, 2);
}

#[test]
fn a_dialer_waits_after_each_failure_but_the_last_connect_failure() {
    assert_eq!(rabia::reconnect::after_failed_attempt(0, 3, false), (1, true));
    assert_eq!(rabia::reconnect::after_failed_attempt(1, 3, false), (2, true));
    assert_eq!(rabia::reconnect::after_failed_attempt(2, 3, false), (3, false));
    assert_eq!(rabia::reconnect::after_failed_attempt(2, 3, true), (3, true));
}

#[test]
fn a_dialer_gives_up_with_the_address_and_the_attempt_count() {
    let e = rabia::reconnect::connect_failure("127.0.0.1:7000", 5);
    match e {
        rabia::error::RabiaError::Network { message } => {
            assert_eq!(message, "Failed to connect to 127.0.0.1:7000 after 5 attempts");
        }
        _ => panic!("expected a network error"),
    }
}
