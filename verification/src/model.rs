//! Data model: raw input records, projection records, store deltas, and the
//! error taxonomy of the emitting step.

use vstd::prelude::*;

verus! {

/// The status value a transaction trace carries when it succeeded; only
/// succeeded traces are projected.
pub const TRANSACTION_STATUS_SUCCEEDED: i32 = 1;

/// Raw block header fields read by the transformers. `timestamp` is seconds
/// since the Unix epoch; the schema guarantees its presence, so `None` is an
/// input-contract violation.
pub struct BlockHeader {
    pub parent_hash: Vec<u8>,
    pub uncle_hash: Vec<u8>,
    pub receipt_root: Vec<u8>,
    pub gas_limit: u64,
    pub gas_used: u64,
    pub nonce: u64,
    pub timestamp: Option<i64>,
}

/// One raw transaction trace of a block.
pub struct TransactionTrace {
    pub hash: Vec<u8>,
    pub to: Vec<u8>,
    pub from: Vec<u8>,
    pub gas_used: u64,
    pub gas_limit: u64,
    pub nonce: u64,
    pub index: u32,
    pub status: i32,
}

/// One raw block record as handed in by the host for one processing step.
pub struct Block {
    pub hash: Vec<u8>,
    pub number: u64,
    pub size: u64,
    pub header: Option<BlockHeader>,
    pub transaction_traces: Vec<TransactionTrace>,
}

/// Projection record of one block: normalized facts keyed by a stable
/// string key. Binary fields are already rendered as "0x"-prefixed hex,
/// except `receipt_root`, which stays raw until it is surfaced in a column.
#[derive(Debug)]
pub struct BlockMeta {
    pub id: String,
    pub timestamp: Option<i64>,
    pub parent_hash: String,
    pub uncle_hash: String,
    pub receipt_root: Vec<u8>,
    pub gas_limit: u64,
    pub hash: String,
    pub gas_used: u64,
    pub number: u64,
    pub nonce: u64,
    pub size: u64,
}

/// Mathematical value of a `BlockMeta`.
pub ghost struct BlockMetaView {
    pub id: Seq<char>,
    pub timestamp: Option<i64>,
    pub parent_hash: Seq<char>,
    pub uncle_hash: Seq<char>,
    pub receipt_root: Seq<u8>,
    pub gas_limit: u64,
    pub hash: Seq<char>,
    pub gas_used: u64,
    pub number: u64,
    pub nonce: u64,
    pub size: u64,
}

impl View for BlockMeta {
    type V = BlockMetaView;

    open spec fn view(&self) -> BlockMetaView {
        BlockMetaView {
            id: self.id@,
            timestamp: self.timestamp,
            parent_hash: self.parent_hash@,
            uncle_hash: self.uncle_hash@,
            receipt_root: self.receipt_root@,
            gas_limit: self.gas_limit,
            hash: self.hash@,
            gas_used: self.gas_used,
            number: self.number,
            nonce: self.nonce,
            size: self.size,
        }
    }
}

/// Projection record of one transaction. `status` and the addresses are
/// already rendered as strings; `timestamp` is the block's, in seconds.
#[derive(Debug)]
pub struct Transaction {
    pub id: String,
    pub gas_used: u64,
    pub status: String,
    pub index: u32,
    pub nonce: u64,
    pub gas_limit: u64,
    pub to: String,
    pub from: String,
    pub block_number: u64,
    pub timestamp: i64,
}

/// Mathematical value of a `Transaction`.
pub ghost struct TransactionView {
    pub id: Seq<char>,
    pub gas_used: u64,
    pub status: Seq<char>,
    pub index: u32,
    pub nonce: u64,
    pub gas_limit: u64,
    pub to: Seq<char>,
    pub from: Seq<char>,
    pub block_number: u64,
    pub timestamp: i64,
}

impl View for Transaction {
    type V = TransactionView;

    open spec fn view(&self) -> TransactionView {
        TransactionView {
            id: self.id@,
            gas_used: self.gas_used,
            status: self.status@,
            index: self.index,
            nonce: self.nonce,
            gas_limit: self.gas_limit,
            to: self.to@,
            from: self.from@,
            block_number: self.block_number,
            timestamp: self.timestamp,
        }
    }
}

/// How a projection record's value under one key changed during a step.
#[derive(Clone, Copy, Debug, PartialEq, Eq, Structural)]
pub enum Operation {
    Unset,
    Create,
    Update,
    Delete,
}

/// One recorded transition of a projection record, ordered by a step-local
/// ordinal. `old_value` is meaningful only when the operation is not Create,
/// `new_value` only when it is not Delete.
#[derive(Debug)]
pub struct Delta<V> {
    pub operation: Operation,
    pub ordinal: u64,
    pub key: String,
    pub old_value: Option<V>,
    pub new_value: Option<V>,
}

/// Why an emitting step aborted. Every error is fatal for the step: no
/// partial change log is handed out.
#[derive(Clone, Copy, Debug, PartialEq, Eq, Structural)]
pub enum EmitError {
    /// The delta's operation is Delete or an unrecognized value.
    UnsupportedOperation,
    /// A delta misses the old or new value its operation requires.
    MissingValue,
    /// A required record field the schema guarantees is absent.
    MissingField,
    /// A delta's key does not carry the expected "day:" or "month:" prefix.
    BadKey,
    /// A block timestamp lies outside the representable calendar range.
    TimestampOutOfRange,
}

/// One planned store write: set `value` under `key` unless the key was
/// already written in this step, ordered by `ordinal`.
#[derive(Debug)]
pub struct StoreWrite<V> {
    pub ordinal: u64,
    pub key: String,
    pub value: V,
}

} // verus!
