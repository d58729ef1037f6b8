use std::time::Duration;
use rabia::types::{BatchId, Command, CommandBatch, NodeId, PhaseId, StateValue};
use rabia::messages::{ProtocolMessage, VoteRound2Message};
use rabia::votes::VoteMap;
use rabia::validation::{validate_batch_at, validate_message_at, validate_message_sequence, Validator};
use rabia::batching::{BatchConfig, CommandBatcher};
use rabia::error::RabiaError;

#[test]
fn test_batch_validation() {
    let commands = vec![Command::new("SET key1 value1"), Command::new("GET key1")];
    let batch = CommandBatch::new(commands);

    assert!(batch.validate().is_ok());
}

#[test]
fn test_empty_batch_validation() {
    let batch = CommandBatch::new(vec![]);
    assert!(batch.validate().is_err());
}

#[test]
fn test_phase_sequence_validation() {
    let phase1 = PhaseId::new(1);
    let phase2 = PhaseId::new(2);
    let phase3 = PhaseId::new(1);

    assert!(validate_message_sequence(phase1, phase2).is_ok());
    assert!(validate_message_sequence(phase2, phase3).is_err());
}

#[test]
fn test_command_batcher_basic() {
    let config = BatchConfig {
        max_batch_size: 3,
        max_batch_delay: Duration::from_millis(100),
        buffer_capacity: 10,
        adaptive: false,
    };

    let mut batcher = CommandBatcher::new(config);

    assert!(batcher.add_command(Command::new("SET key1 value1")).unwrap().is_none());
    assert!(batcher.add_command(Command::new("SET key2 value2")).unwrap().is_none());

    let batch = batcher.add_command(Command::new("SET key3 value3")).unwrap();
    assert!(batch.is_some());

    let batch = batch.unwrap();
    assert_eq!(batch.commands.len(), 3);
}

#[test]
fn test_batcher_flush() {
    let config = BatchConfig::default();
    let mut batcher = CommandBatcher::new(config);

    batcher.add_command(Command::new("SET key1 value1")).unwrap();
    batcher.add_command(Command::new("SET key2 value2")).unwrap();

    let batch = batcher.flush().unwrap();
    assert_eq!(batch.commands.len(), 2);
    assert!(batcher.is_empty());
}

#[test]
fn a_full_buffer_drops_the_command() {
    let config = BatchConfig {
        max_batch_size: 10,
        max_batch_delay: Duration::from_millis(100),
        buffer_capacity: 1,
        adaptive: false,
    };
    let mut batcher = CommandBatcher::new(config);
    assert!(batcher.add_command(Command::new("A")).unwrap().is_none());
    match batcher.add_command(Command::new("B")) {
        Err(RabiaError::Internal { message }) => assert_eq!(message, "Command buffer overflow"),
        other => panic!("unexpected {:?}", other),
    }
    assert_eq!(batcher.stats().commands_dropped, 1);
    assert_eq!(batcher.buffer_len(), 1);
}

#[test]
fn batching_keeps_every_command_in_order() {
    let config = BatchConfig {
        max_batch_size: 2,
        max_batch_delay: Duration::from_millis(100),
        buffer_capacity: 10,
        adaptive: false,
    };
    let mut batcher = CommandBatcher::new(config);
    let mut seen: Vec<Vec<u8>> = Vec::new();
    for word in ["a", "b", "c", "d", "e"] {
        if let Some(batch) = batcher.add_command(Command::new(word)).unwrap() {
            seen.extend(batch.commands.iter().map(|c| c.data.clone()));
        }
    }
    if let Some(batch) = batcher.flush() {
        seen.extend(batch.commands.iter().map(|c| c.data.clone()));
    }
    let expected: Vec<Vec<u8>> = ["a", "b", "c", "d", "e"].iter().map(|w| w.as_bytes().to_vec()).collect();
    assert_eq!(seen, expected);
    assert!(batcher.flush().is_none());
}

#[test]
fn an_oversized_command_fails_validation() {
    let big = "x".repeat(1024 * 1024 + 1);
    let batch = CommandBatch::new(vec![Command::new(&big)]);
    assert!(batch.validate().is_err());
}

fn internal_text(r: Result<(), RabiaError>) -> String {
    match r {
        Err(RabiaError::Internal { message }) => message,
        other => panic!("expected an internal error, got {:?}", other),
    }
}

#[test]
fn batch_faults_carry_their_texts() {
    let empty_command = CommandBatch::new(vec![Command::new("SET a 1"), Command::new("")]);
    let now = empty_command.timestamp;
    assert_eq!(internal_text(validate_batch_at(&empty_command, now)), "Command data cannot be empty");
    let empty = CommandBatch::new(Vec::new());
    assert_eq!(internal_text(validate_batch_at(&empty, now)), "Batch cannot be empty");
    let ahead = CommandBatch::new(vec![Command::new("SET a 1")]);
    let ts = ahead.timestamp;
    assert_eq!(
        internal_text(validate_batch_at(&ahead, ts - 60_001)),
        format!("Batch timestamp {} is too far in the future", ts)
    );
    assert!(validate_batch_at(&ahead, ts - 60_000).is_ok());
}

#[test]
fn message_faults_carry_their_texts() {
    let vote = VoteRound2Message {
        phase_id: PhaseId::new(1),
        batch_id: BatchId::new(),
        vote: StateValue::V1,
        voter_id: NodeId::from(1u32),
        round1_votes: VoteMap::new(),
    };
    let m = ProtocolMessage::vote_round2(NodeId::from(1u32), NodeId::from(2u32), vote);
    let t = m.timestamp;
    assert_eq!(internal_text(validate_message_at(&m, t)), "Round 2 vote must include round 1 votes");
    assert_eq!(
        internal_text(validate_message_at(&m, t + 600_001)),
        format!("Message timestamp {} is too old (current: {})", t, t + 600_001)
    );
}
