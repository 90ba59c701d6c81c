//! Verified core of a blockchain data-indexing pipeline stage.
//!
//! The library turns decoded block and transaction records into normalized
//! projection records, plans the key/value writes that snapshot them, and
//! emits an ordered, column-level change log from the store's deltas.

pub mod bigint;
pub mod changes;
pub mod hexfmt;
pub mod laws;
pub mod model;
pub mod numfmt;
pub mod timestamp;
pub mod transform;
