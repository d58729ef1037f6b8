//! Operations on the key-value store, their results and errors.

use vstd::prelude::*;
use crate::ids::{random_uuid_value, uuid_string, uuid_text};
use crate::clock::unix_time_millis;
use crate::text::concat;

verus! {

/// An operation on the key-value store.
#[derive(Debug, Clone, PartialEq)]
pub enum KVOperation {
    /// Set a key-value pair (the operation `SET`)
    Put { key: String, value: String },
    /// Get a value by key
    Get { key: String },
    /// Delete a key
    Delete { key: String },
    /// Check if a key exists
    Exists { key: String },
}

impl KVOperation {
    /// The key the operation is about.
    pub open spec fn key_of(&self) -> Seq<char> {
        match self {
            KVOperation::Put { key, .. } => key@,
            KVOperation::Get { key } => key@,
            KVOperation::Delete { key } => key@,
            KVOperation::Exists { key } => key@,
        }
    }

    /// Whether the operation changes the store: a set or a delete.
    pub open spec fn writes(&self) -> bool {
        self is Put || self is Delete
    }

    /// The name of the operation's kind.
    pub open spec fn op_name(&self) -> Seq<char> {
        match self {
            KVOperation::Put { .. } => "SET"@,
            KVOperation::Get { .. } => "GET"@,
            KVOperation::Delete { .. } => "DELETE"@,
            KVOperation::Exists { .. } => "EXISTS"@,
        }
    }

    /// The key the operation is about.
    pub fn key(&self) -> (r: &str)
        ensures
            r@ == self.key_of(),
    {
        match self {
            KVOperation::Put { key, .. } => key.as_str(),
            KVOperation::Get { key } => key.as_str(),
            KVOperation::Delete { key } => key.as_str(),
            KVOperation::Exists { key } => key.as_str(),
        }
    }

    /// "SET", "GET", "DELETE" or "EXISTS".
    pub fn operation_type(&self) -> (r: &'static str)
        ensures
            r@ == self.op_name(),
    {
        match self {
            KVOperation::Put { .. } => "SET",
            KVOperation::Get { .. } => "GET",
            KVOperation::Delete { .. } => "DELETE",
            KVOperation::Exists { .. } => "EXISTS",
        }
    }

    /// Whether the operation changes the store.
    pub fn is_write_operation(&self) -> (r: bool)
        ensures
            r == self.writes(),
    {
        match self {
            KVOperation::Put { .. } => true,
            KVOperation::Delete { .. } => true,
            _ => false,
        }
    }

    /// Whether the operation only reads the store.
    pub fn is_read_operation(&self) -> (r: bool)
        ensures
            r == !self.writes(),
    {
        !self.is_write_operation()
    }
}

/// The outcome of one operation.
#[derive(Debug, Clone, PartialEq)]
pub enum KVResult {
    /// Operation completed successfully
    Success,
    /// Key was not found
    NotFound,
    /// Operation failed with an error
    Error(String),
}

impl KVResult {
    /// Whether the operation succeeded.
    pub fn is_success(&self) -> (r: bool)
        ensures
            r == (self is Success),
    {
        match self {
            KVResult::Success => true,
            _ => false,
        }
    }

    /// Whether the key was not found.
    pub fn is_not_found(&self) -> (r: bool)
        ensures
            r == (self is NotFound),
    {
        match self {
            KVResult::NotFound => true,
            _ => false,
        }
    }

    /// Whether the operation failed with an error.
    pub fn is_error(&self) -> (r: bool)
        ensures
            r == (self is Error),
    {
        match self {
            KVResult::Error(_) => true,
            _ => false,
        }
    }

    /// The error result that carries the text of `error`.
    pub fn from_store_error(error: StoreError) -> (r: KVResult)
        ensures
            r matches KVResult::Error(m) && m@ == store_error_text(error),
    {
        KVResult::Error(error.message())
    }

    /// The error's message, for an error.
    pub fn error_message(&self) -> (r: Option<&str>)
        ensures
            match self {
                KVResult::Error(m) => r matches Some(t) && t@ == m@,
                _ => r is None,
            },
    {
        match self {
            KVResult::Error(msg) => Some(msg.as_str()),
            _ => None,
        }
    }
}

/// Errors of the key-value store.
#[derive(Debug, Clone, PartialEq)]
pub enum StoreError {
    /// Invalid key provided
    InvalidKey(String),
    /// Value is too large to store
    ValueTooLarge,
    /// Store has reached maximum capacity
    StoreFull,
    /// Serialization error
    SerializationError(String),
    /// Invalid snapshot
    InvalidSnapshot,
    /// IO error
    IoError(String),
    /// Network error
    NetworkError(String),
    /// Consensus error
    ConsensusError(String),
    /// Timeout error
    Timeout,
    /// Store is shutting down
    ShuttingDown,
    /// Internal error
    Internal(String),
}

/// The text that describes `e`.
pub open spec fn store_error_text(e: StoreError) -> Seq<char> {
    match e {
        StoreError::InvalidKey(s) => "Invalid key: "@ + s@,
        StoreError::ValueTooLarge => "Value too large"@,
        StoreError::StoreFull => "Store is full"@,
        StoreError::SerializationError(s) => "Serialization error: "@ + s@,
        StoreError::InvalidSnapshot => "Invalid snapshot"@,
        StoreError::IoError(s) => "IO error: "@ + s@,
        StoreError::NetworkError(s) => "Network error: "@ + s@,
        StoreError::ConsensusError(s) => "Consensus error: "@ + s@,
        StoreError::Timeout => "Operation timed out"@,
        StoreError::ShuttingDown => "Store is shutting down"@,
        StoreError::Internal(s) => "Internal error: "@ + s@,
    }
}

impl StoreError {
    /// The text that describes the error.
    pub fn message(&self) -> (r: String)
        ensures
            r@ == store_error_text(*self),
    {
        match self {
            StoreError::InvalidKey(s) => concat("Invalid key: ", s.as_str()),
            StoreError::ValueTooLarge => "Value too large".to_owned(),
            StoreError::StoreFull => "Store is full".to_owned(),
            StoreError::SerializationError(s) => concat("Serialization error: ", s.as_str()),
            StoreError::InvalidSnapshot => "Invalid snapshot".to_owned(),
            StoreError::IoError(s) => concat("IO error: ", s.as_str()),
            StoreError::NetworkError(s) => concat("Network error: ", s.as_str()),
            StoreError::ConsensusError(s) => concat("Consensus error: ", s.as_str()),
            StoreError::Timeout => "Operation timed out".to_owned(),
            StoreError::ShuttingDown => "Store is shutting down".to_owned(),
            StoreError::Internal(s) => concat("Internal error: ", s.as_str()),
        }
    }

    /// Whether retrying may succeed: network, timeout and consensus errors.
    pub fn is_recoverable(&self) -> (r: bool)
        ensures
            r == (self is NetworkError || self is Timeout || self is ConsensusError),
    {
        match self {
            StoreError::NetworkError(_) => true,
            StoreError::Timeout => true,
            StoreError::ConsensusError(_) => true,
            _ => false,
        }
    }

    /// Whether the caller is at fault: a bad key, a value too large or a
    /// full store.
    pub fn is_client_error(&self) -> (r: bool)
        ensures
            r == (self is InvalidKey || self is ValueTooLarge || self is StoreFull),
    {
        match self {
            StoreError::InvalidKey(_) => true,
            StoreError::ValueTooLarge => true,
            StoreError::StoreFull => true,
            _ => false,
        }
    }

    /// Whether the store is at fault: I/O, internal errors and shutdown.
    pub fn is_server_error(&self) -> (r: bool)
        ensures
            r == (self is IoError || self is Internal || self is ShuttingDown),
    {
        match self {
            StoreError::IoError(_) => true,
            StoreError::Internal(_) => true,
            StoreError::ShuttingDown => true,
            _ => false,
        }
    }
}

/// A batch of operations executed together.
#[derive(Debug, Clone)]
pub struct OperationBatch {
    /// The operations in this batch
    pub operations: Vec<KVOperation>,
    /// Unique identifier for this batch
    pub batch_id: String,
    /// Timestamp when the batch was created
    pub created_at: u64,
}

impl OperationBatch {
    /// A batch of `operations` with a fresh random identifier, stamped with
    /// the present time.
    pub fn new(operations: Vec<KVOperation>) -> (r: OperationBatch)
        ensures
            r.operations@ == operations@,
            exists|v: u128| r.batch_id@ == uuid_text(v),
    {
        let v = random_uuid_value();
        OperationBatch { operations, batch_id: uuid_string(v), created_at: unix_time_millis() }
    }

    /// Number of operations.
    pub fn size(&self) -> (r: usize)
        ensures
            r == self.operations@.len(),
    {
        self.operations.len()
    }

    /// Whether some operation changes the store.
    pub fn has_write_operations(&self) -> (r: bool)
        ensures
            r == exists|i: int| 0 <= i < self.operations@.len() && (#[trigger] self.operations@[i]).writes(),
    {
        let mut i: usize = 0;
        while i < self.operations.len()
            invariant
                i <= self.operations@.len(),
                forall|j: int| 0 <= j < i ==> !(#[trigger] self.operations@[j]).writes(),
            decreases self.operations@.len() - i,
        {
            if self.operations[i].is_write_operation() {
                return true;
            }
            i = i + 1;
        }
        false
    }

    /// Whether every operation only reads the store.
    pub fn is_read_only(&self) -> (r: bool)
        ensures
            r == forall|i: int| 0 <= i < self.operations@.len() ==> !(#[trigger] self.operations@[i]).writes(),
    {
        !self.has_write_operations()
    }

    /// The keys of the operations, in order.
    pub fn affected_keys(&self) -> (r: Vec<&str>)
        ensures
            r@.len() == self.operations@.len(),
            forall|i: int| 0 <= i < r@.len() ==> (#[trigger] r@[i])@ == self.operations@[i].key_of(),
    {
        let mut keys: Vec<&str> = Vec::new();
        let mut i: usize = 0;
        while i < self.operations.len()
            invariant
                i <= self.operations@.len(),
                keys@.len() == i,
                forall|j: int| 0 <= j < i ==> (#[trigger] keys@[j])@ == self.operations@[j].key_of(),
            decreases self.operations@.len() - i,
        {
            keys.push(self.operations[i].key());
            i = i + 1;
        }
        keys
    }
}

/// Number of successes in `results`.
pub open spec fn success_count_of(results: Seq<KVResult>) -> nat
    decreases results.len(),
{
    if results.len() == 0 {
        0
    } else {
        success_count_of(results.drop_last()) + if results.last() is Success { 1nat } else { 0nat }
    }
}

/// What executing a batch gave.
#[derive(Debug, Clone)]
pub struct BatchResult {
    /// The batch that was executed
    pub batch_id: String,
    /// Results for each operation in the batch
    pub results: Vec<KVResult>,
    /// Number of successful operations
    pub success_count: usize,
    /// Number of failed operations
    pub failure_count: usize,
    /// Time taken to execute the batch (in milliseconds)
    pub execution_time_ms: u64,
}

impl BatchResult {
    /// The result of batch `batch_id`, counting successes and failures:
    /// every result but `Success` counts as a failure.
    pub fn new(batch_id: String, results: Vec<KVResult>, execution_time_ms: u64) -> (r: BatchResult)
        ensures
            r.batch_id@ == batch_id@,
            r.results@ == results@,
            r.success_count == success_count_of(results@),
            r.failure_count == results@.len() - success_count_of(results@),
            r.execution_time_ms == execution_time_ms,
    {
        let mut success_count: usize = 0;
        let mut i: usize = 0;
        while i < results.len()
            invariant
                i <= results@.len(),
                success_count == success_count_of(results@.take(i as int)),
                success_count <= i,
            decreases results@.len() - i,
        {
            proof {
                assert(results@.take(i + 1).drop_last() =~= results@.take(i as int));
            }
            if results[i].is_success() {
                success_count = success_count + 1;
            }
            i = i + 1;
        }
        assert(results@.take(results@.len() as int) =~= results@);
        let failure_count = results.len() - success_count;
        BatchResult { batch_id, results, success_count, failure_count, execution_time_ms }
    }

    /// Whether no operation failed.
    pub fn all_succeeded(&self) -> (r: bool)
        ensures
            r == (self.failure_count == 0),
    {
        self.failure_count == 0
    }

    /// Whether some operation failed.
    pub fn has_failures(&self) -> (r: bool)
        ensures
            r == (self.failure_count > 0),
    {
        self.failure_count > 0
    }
}

} // verus!
