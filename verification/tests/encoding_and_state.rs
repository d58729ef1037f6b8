use rabia::types::{BatchId, Command, CommandBatch, NodeId, PhaseId, StateValue};
use rabia::messages::{MessageType, ProposeMessage, ProtocolMessage, HeartBeatMessage, QuorumNotificationMessage};
use rabia::serialization::{estimate_fits, estimate_message_size, SerializationConfig, Serializer, SerializerFactory};
use rabia::memory_pool::{MemoryPool, SizeClass};
use rabia::frame::{check_peer_identity, BufferConfig, MessageFrame};
use rabia::state_machine::{InMemoryStateMachine, Snapshot};
use rabia::persistence::{EngineState, InMemoryPersistence, PersistenceLayer};
use rabia::error::RabiaError;

fn create_test_message() -> ProtocolMessage {
    ProtocolMessage::new(
        NodeId::new(),
        Some(NodeId::new()),
        MessageType::Propose(ProposeMessage {
            phase_id: PhaseId::new(1),
            batch_id: BatchId::new(),
            value: StateValue::V1,
            batch: Some(CommandBatch::new(vec![
                Command::new("SET key1 value1"),
                Command::new("SET key2 value2"),
                Command::new("GET key1"),
            ])),
        }),
    )
}

#[test]
fn size_estimates_by_kind() {
    assert_eq!(estimate_message_size(&create_test_message()), 128 + 64 + 3 * 64);
    let heartbeat = ProtocolMessage::new(NodeId(1), None, MessageType::HeartBeat(HeartBeatMessage {
        current_phase: PhaseId::new(1),
        last_committed_phase: PhaseId::new(0),
        active: true,
    }));
    assert_eq!(estimate_message_size(&heartbeat), 152);
    let quorum = ProtocolMessage::new(NodeId(1), None, MessageType::QuorumNotification(QuorumNotificationMessage {
        has_quorum: true,
        active_nodes: vec![NodeId(1), NodeId(2)],
    }));
    assert_eq!(estimate_message_size(&quorum), 128 + 16 + 32);
}

#[test]
fn factory_follows_the_configuration() {
    assert!(SerializerFactory::create(&SerializationConfig::default()).is_binary());
    let json = SerializationConfig { use_binary: false, ..SerializationConfig::default() };
    assert_eq!(SerializerFactory::create(&json), Serializer::json());
    assert_eq!(Serializer::default(), Serializer::binary());
}

#[test]
fn failures_name_the_encoding() {
    match Serializer::json().failure(false, "eof") {
        RabiaError::Internal { message } => assert_eq!(message, "Serialization error: JSON deserialization failed: eof"),
        other => panic!("unexpected {:?}", other),
    }
    match Serializer::binary().failure(true, "x") {
        RabiaError::Internal { message } => assert_eq!(message, "Serialization error: Binary serialization failed: x"),
        other => panic!("unexpected {:?}", other),
    }
}

#[test]
fn encoded_messages_go_into_a_buffer_of_their_class() {
    let mut pool = MemoryPool::default();
    let message = create_test_message();
    let bytes = vec![1u8, 2, 3];
    let buffer = Serializer::binary().pooled_message_buffer(&mut pool, &message, &bytes);
    assert_eq!(buffer.as_slice(), &[1, 2, 3]);
    assert_eq!(buffer.size_class(), SizeClass::Small);
}

#[test]
fn test_message_frame() {
    let payload = b"test message".to_vec();
    let frame = MessageFrame::new(payload.clone()).unwrap();

    assert_eq!(frame.length, payload.len() as u32);
    assert_eq!(frame.payload, payload);

    let serialized = frame.to_bytes();
    assert!(serialized.len() == 4 + payload.len());
}

#[test]
fn frames_decode_to_what_was_encoded() {
    let payload = vec![0u8, 255, 7, 42];
    let bytes = MessageFrame::new(payload.clone()).unwrap().to_bytes();
    assert_eq!(&bytes[..4], &[0, 0, 0, 4]);
    let decoded = MessageFrame::from_bytes(&bytes).unwrap();
    assert_eq!(decoded.payload, payload);
    assert!(MessageFrame::from_bytes(&bytes[..5]).is_none());
    assert!(MessageFrame::from_bytes(&[0, 0]).is_none());
}

#[test]
fn oversized_frames_are_refused() {
    let too_big = vec![0u8; 16 * 1024 * 1024 + 1];
    match MessageFrame::new(too_big) {
        Err(RabiaError::Network { message }) => assert_eq!(message, "Message too large: 16777217 bytes"),
        other => panic!("unexpected {:?}", other.map(|f| f.length)),
    }
    match MessageFrame::read_length(&[0x01, 0x00, 0x00, 0x01]) {
        Err(RabiaError::Network { message }) => assert_eq!(message, "Frame too large: 16777217 bytes"),
        other => panic!("unexpected {:?}", other),
    }
    assert_eq!(MessageFrame::read_length(&[0x01, 0x00, 0x00, 0x00]).unwrap(), 16 * 1024 * 1024);
}

#[test]
fn handshake_identity_check() {
    assert!(check_peer_identity(NodeId(1), NodeId(1)).is_ok());
    match check_peer_identity(NodeId(1), NodeId(2)) {
        Err(RabiaError::Network { message }) => assert_eq!(
            message,
            "Node ID mismatch: expected 00000000-0000-0000-0000-000000000001, got 00000000-0000-0000-0000-000000000002"
        ),
        other => panic!("unexpected {:?}", other),
    }
    let b = BufferConfig::default();
    assert_eq!(b.read_buffer_size, 65536);
    assert_eq!(b.message_queue_size, 1000);
}

#[test]
fn test_state_machine_basic_operations() {
    let mut sm = InMemoryStateMachine::new();

    let set_cmd = Command::new("SET key1 value1");
    let result = sm.apply_command(&set_cmd).unwrap();
    assert_eq!(result, b"OK".to_vec());

    let get_cmd = Command::new("GET key1");
    let result = sm.apply_command(&get_cmd).unwrap();
    assert_eq!(result, b"value1".to_vec());

    let get_cmd = Command::new("GET nonexistent");
    let result = sm.apply_command(&get_cmd).unwrap();
    assert_eq!(result, b"NOT_FOUND".to_vec());
}

#[test]
fn state_machine_answers_and_versions() {
    let mut sm = InMemoryStateMachine::default();
    let answers = sm.apply_commands(&[
        Command::new(""),
        Command::new("SET a 1"),
        Command::new("  SET   b   2  "),
        Command::new("DEL a"),
        Command::new("DEL a"),
        Command::new("SET a"),
        Command::new("PUT a 1"),
    ]).unwrap();
    let texts: Vec<String> = answers.iter().map(|a| String::from_utf8(a.clone()).unwrap()).collect();
    assert_eq!(texts, vec!["ERROR: Empty command", "OK", "OK", "OK", "NOT_FOUND", "ERROR: Invalid command", "ERROR: Invalid command"]);
    assert_eq!(sm.version(), 3);
    assert_eq!(sm.entries(), vec![("b".to_string(), b"2".to_vec())]);
}

#[test]
fn snapshots_are_checked_before_restoring() {
    let good = Snapshot::new(3, b"data".to_vec());
    assert!(good.verify_checksum());
    assert!(InMemoryStateMachine::check_snapshot(&good).is_ok());
    let bad = Snapshot { checksum: good.checksum ^ 1, ..good.clone() };
    match InMemoryStateMachine::check_snapshot(&bad) {
        Err(RabiaError::ChecksumMismatch { expected, actual }) => {
            assert_eq!(expected, good.checksum ^ 1);
            assert_eq!(actual, good.checksum);
        }
        other => panic!("unexpected {:?}", other),
    }
    let mut sm = InMemoryStateMachine::new();
    sm.restore_entries(vec![("k".to_string(), b"v".to_vec())], 9);
    assert_eq!(sm.version(), 9);
    assert_eq!(sm.apply_command(&Command::new("GET k")).unwrap(), b"v".to_vec());
}

#[test]
fn crc32_of_known_data() {
    let s = Snapshot::new(1, b"123456789".to_vec());
    assert_eq!(s.checksum, 0xCBF4_3926);
}

#[test]
fn test_in_memory_persistence() {
    let mut persistence = InMemoryPersistence::new();

    assert!(persistence.load_state().unwrap().is_none());

    let test_data = b"hello world";
    persistence.save_state(test_data).unwrap();

    let loaded = persistence.load_state().unwrap();
    assert_eq!(loaded, Some(test_data.to_vec()));

    let new_data = b"goodbye world";
    persistence.save_state(new_data).unwrap();

    let loaded = persistence.load_state().unwrap();
    assert_eq!(loaded, Some(new_data.to_vec()));
}

#[test]
fn test_empty_data() {
    let mut persistence = InMemoryPersistence::new();

    let empty_data = b"";
    persistence.save_state(empty_data).unwrap();

    let loaded = persistence.load_state().unwrap();
    assert_eq!(loaded, Some(empty_data.to_vec()));
}

#[test]
fn test_large_data() {
    let mut persistence = InMemoryPersistence::new();

    let large_data = vec![0xAB; 1024 * 1024];
    persistence.save_state(&large_data).unwrap();

    let loaded = persistence.load_state().unwrap();
    assert_eq!(loaded, Some(large_data));
}

#[test]
fn engine_state_and_its_errors() {
    let s = EngineState::new(PhaseId::new(5), PhaseId::new(4), None);
    assert_eq!(s.current_phase, PhaseId::new(5));
    match EngineState::decode_failure("bad") {
        RabiaError::Internal { message } => assert_eq!(message, "Serialization error: Failed to deserialize engine state: bad"),
        other => panic!("unexpected {:?}", other),
    }
}

#[test]
fn batches_split_anywhere_give_the_same_state() {
    let commands = vec![
        Command::new("SET a 1"),
        Command::new("GET a"),
        Command::new("SET b 2"),
        Command::new("DEL a"),
        Command::new("GET a"),
        Command::new("GET b"),
    ];
    let mut whole = InMemoryStateMachine::new();
    let all_answers = whole.apply_commands(&commands).unwrap();
    for split in 0..=commands.len() {
        let mut parts = InMemoryStateMachine::new();
        let mut answers = parts.apply_commands(&commands[..split]).unwrap();
        answers.extend(parts.apply_commands(&commands[split..]).unwrap());
        assert_eq!(answers, all_answers);
        assert_eq!(parts.version(), whole.version());
        assert_eq!(parts.entries(), whole.entries());
    }
    assert_eq!(all_answers[1], b"1".to_vec());
    assert_eq!(all_answers[4], b"NOT_FOUND".to_vec());
    assert_eq!(all_answers[5], b"2".to_vec());
}

#[test]
fn ordinary_messages_fit_the_pool_bound() {
    let message = create_test_message();
    assert!(estimate_fits(&message));
    assert!(estimate_message_size(&message) <= isize::MAX as usize);
}

#[test]
fn a_command_given_as_words_runs_like_its_text() {
    let mut sm = InMemoryStateMachine::new();
    let set = vec!["SET".to_string(), "k".to_string(), "v".to_string()];
    assert_eq!(sm.apply_words(&set), b"OK".to_vec());
    assert_eq!(sm.apply_words(&vec!["GET".to_string(), "k".to_string()]), b"v".to_vec());
    assert_eq!(sm.apply_words(&Vec::new()), b"ERROR: Empty command".to_vec());
    let by_text = sm.apply_command(&Command::new("DEL\tk")).unwrap();
    assert_eq!(by_text, b"OK".to_vec());
    assert_eq!(sm.version(), 2);
}
