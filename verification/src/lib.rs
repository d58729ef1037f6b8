//! Verified core of the Rabia state machine replication protocol: identifiers,
//! commands and batches, protocol messages and vote counting, validation,
//! quorum bookkeeping, command batching, engine state, leader selection,
//! message framing, a key-value store and cluster health bookkeeping.

pub mod ids;
pub mod types;
pub mod clock;
pub mod checksum;
pub mod text;
pub mod error;
pub mod votes;
pub mod state_machine;
pub mod messages;
pub mod node_set;
pub mod table;
pub mod str_table;
pub mod network;
pub mod validation;
pub mod batching;
pub mod config;
pub mod engine_state;
pub mod protocol;
pub mod leader_selector;
pub mod memory_pool;
pub mod reconnect;
pub mod kv_operations;
pub mod kv_notifications;
pub mod kv_store;
pub mod leader_error;
pub mod topology;
pub mod health;
pub mod leader_notifications;
pub mod leadership;
pub mod serialization;
pub mod frame;
pub mod persistence;
