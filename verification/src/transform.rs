//! Transformers and snapshot planning: pure mappings from one raw record to
//! one projection record, and the set-if-absent store writes of one step.

use crate::hexfmt::base_64_to_hex;
use crate::hexfmt::hex0x_chars;
use crate::model::Block;
use crate::model::BlockMeta;
use crate::model::BlockMetaView;
use crate::model::EmitError;
use crate::model::StoreWrite;
use crate::model::Transaction;
use crate::model::TransactionTrace;
use crate::model::TransactionView;
use crate::model::TRANSACTION_STATUS_SUCCEEDED;
use crate::numfmt::dec_chars_signed;
use crate::numfmt::i64_to_dec;
use crate::timestamp::day_index;
use crate::timestamp::day_key_chars;
use crate::timestamp::month_key_chars;
use crate::timestamp::valid_date;
use crate::timestamp::BlockTimestamp;
use crate::timestamp::MAX_SUPPORTED_SECONDS;
use vstd::prelude::*;
use vstd::slice::slice_to_vec;
use vstd::string::StringExecFns;

verus! {

/// The raw block carries every field the projection needs: a header with a
/// timestamp. Anything less is an input-contract violation.
pub open spec fn block_input_ok(b: Block) -> bool {
    b.header is Some && (b.header->0).timestamp is Some
}

/// The block's timestamp lies in the supported calendar range.
pub open spec fn block_seconds_in_range(b: Block) -> bool {
    0 <= (b.header->0).timestamp->0 && ((b.header->0).timestamp->0 as int) < (
    MAX_SUPPORTED_SECONDS as int)
}

/// The projection a well-formed raw block maps to.
pub open spec fn block_meta_view_of(b: Block) -> BlockMetaView {
    BlockMetaView {
        id: hex0x_chars(b.hash@),
        timestamp: Option::Some((b.header->0).timestamp->0),
        parent_hash: hex0x_chars((b.header->0).parent_hash@),
        uncle_hash: hex0x_chars((b.header->0).uncle_hash@),
        receipt_root: (b.header->0).receipt_root@,
        gas_limit: (b.header->0).gas_limit,
        hash: hex0x_chars(b.hash@),
        gas_used: (b.header->0).gas_used,
        number: b.number,
        nonce: (b.header->0).nonce,
        size: b.size,
    }
}

/// The projection a trace of a well-formed raw block maps to.
pub open spec fn transaction_view_of(t: TransactionTrace, b: Block) -> TransactionView {
    TransactionView {
        id: hex0x_chars(t.hash@),
        gas_used: t.gas_used,
        status: dec_chars_signed(t.status as int),
        index: t.index,
        nonce: t.nonce,
        gas_limit: t.gas_limit,
        to: hex0x_chars(t.to@),
        from: hex0x_chars(t.from@),
        block_number: b.number,
        timestamp: (b.header->0).timestamp->0,
    }
}

/// Maps one raw block to its calendar date and its block-meta projection.
/// Fails only on an absent header or timestamp, or a timestamp outside the
/// supported calendar range.
pub fn transform_block_to_block_meta(blk: &Block) -> (r: Result<
    (BlockTimestamp, BlockMeta),
    EmitError,
>)
    ensures
        !block_input_ok(*blk) ==> r is Err && r->Err_0 == EmitError::MissingField,
        block_input_ok(*blk) && !block_seconds_in_range(*blk) ==> r is Err && r->Err_0
            == EmitError::TimestampOutOfRange,
        block_input_ok(*blk) && block_seconds_in_range(*blk) ==> r is Ok && {
            let (t, meta) = r->Ok_0;
            &&& meta@ == block_meta_view_of(*blk)
            &&& valid_date(t.year as nat, t.month as nat, t.day as nat)
            &&& day_index(t.year as nat, t.month as nat, t.day as nat)
                == header_timestamp_secs(*blk) / 86400
        },
{
    let header = match &blk.header {
        Option::Some(h) => h,
        Option::None => {
            return Result::Err(EmitError::MissingField);
        },
    };
    let secs: i64 = match header.timestamp {
        Option::Some(t) => t,
        Option::None => {
            return Result::Err(EmitError::MissingField);
        },
    };
    if secs < 0 || secs >= MAX_SUPPORTED_SECONDS as i64 {
        return Result::Err(EmitError::TimestampOutOfRange);
    }
    let timestamp = BlockTimestamp::from_seconds(secs as u64);
    let meta = BlockMeta {
        id: base_64_to_hex(blk.hash.as_slice()),
        timestamp: Option::Some(secs),
        parent_hash: base_64_to_hex(header.parent_hash.as_slice()),
        uncle_hash: base_64_to_hex(header.uncle_hash.as_slice()),
        receipt_root: slice_to_vec(header.receipt_root.as_slice()),
        gas_limit: header.gas_limit,
        hash: base_64_to_hex(blk.hash.as_slice()),
        gas_used: header.gas_used,
        number: blk.number,
        nonce: header.nonce,
        size: blk.size,
    };
    Result::Ok((timestamp, meta))
}

/// The block timestamp in seconds, for contracts over well-formed blocks.
pub open spec fn header_timestamp_secs(b: Block) -> int {
    (b.header->0).timestamp->0 as int
}

/// Maps one raw transaction trace to its projection; the block supplies the
/// block-level fields. Fails only when the block misses its header or
/// timestamp.
pub fn transform_transaction_to_transaction_meta(trx: &TransactionTrace, block: &Block) -> (r:
    Result<Transaction, EmitError>)
    ensures
        !block_input_ok(*block) ==> r is Err && r->Err_0 == EmitError::MissingField,
        block_input_ok(*block) ==> r is Ok && (r->Ok_0)@ == transaction_view_of(*trx, *block),
{
    let header = match &block.header {
        Option::Some(h) => h,
        Option::None => {
            return Result::Err(EmitError::MissingField);
        },
    };
    let time_stamp: i64 = match header.timestamp {
        Option::Some(t) => t,
        Option::None => {
            return Result::Err(EmitError::MissingField);
        },
    };
    Result::Ok(
        Transaction {
            id: base_64_to_hex(trx.hash.as_slice()),
            gas_used: trx.gas_used,
            status: i64_to_dec(trx.status as i64),
            index: trx.index,
            nonce: trx.nonce,
            gas_limit: trx.gas_limit,
            to: base_64_to_hex(trx.to.as_slice()),
            from: base_64_to_hex(trx.from.as_slice()),
            block_number: block.number,
            timestamp: time_stamp,
        },
    )
}

fn clone_block_meta(m: &BlockMeta) -> (r: BlockMeta)
    ensures
        r@ == m@,
{
    BlockMeta {
        id: m.id.clone(),
        timestamp: m.timestamp,
        parent_hash: m.parent_hash.clone(),
        uncle_hash: m.uncle_hash.clone(),
        receipt_root: slice_to_vec(m.receipt_root.as_slice()),
        gas_limit: m.gas_limit,
        hash: m.hash.clone(),
        gas_used: m.gas_used,
        number: m.number,
        nonce: m.nonce,
        size: m.size,
    }
}

/// Plans the snapshot writes of one block: the same block-meta projection
/// set-if-absent under its day key and under its month key, both ordered by
/// the block number. Also hands back the block's calendar date.
pub fn store_block_meta_start(blk: &Block) -> (r: Result<
    (BlockTimestamp, Vec<StoreWrite<BlockMeta>>),
    EmitError,
>)
    ensures
        !block_input_ok(*blk) ==> r is Err && r->Err_0 == EmitError::MissingField,
        block_input_ok(*blk) && !block_seconds_in_range(*blk) ==> r is Err && r->Err_0
            == EmitError::TimestampOutOfRange,
        block_input_ok(*blk) && block_seconds_in_range(*blk) ==> r is Ok && {
            let (t, w) = r->Ok_0;
            &&& valid_date(t.year as nat, t.month as nat, t.day as nat)
            &&& day_index(t.year as nat, t.month as nat, t.day as nat) == header_timestamp_secs(
                *blk,
            ) / 86400
            &&& w@.len() == 2
            &&& w@[0].ordinal == blk.number
            &&& w@[0].key@ == day_key_chars(t)
            &&& w@[0].value@ == block_meta_view_of(*blk)
            &&& w@[1].ordinal == blk.number
            &&& w@[1].key@ == month_key_chars(t)
            &&& w@[1].value@ == block_meta_view_of(*blk)
        },
{
    let (timestamp, meta) = match transform_block_to_block_meta(blk) {
        Result::Ok(p) => p,
        Result::Err(e) => {
            return Result::Err(e);
        },
    };
    let meta_again = clone_block_meta(&meta);
    let mut writes: Vec<StoreWrite<BlockMeta>> = Vec::new();
    writes.push(
        StoreWrite { ordinal: meta.number, key: timestamp.start_of_day_key(), value: meta },
    );
    writes.push(
        StoreWrite {
            ordinal: meta_again.number,
            key: timestamp.start_of_month_key(),
            value: meta_again,
        },
    );
    Result::Ok((timestamp, writes))
}

/// Whether a trace succeeded; only those are projected.
pub open spec fn succeeded(t: TransactionTrace) -> bool {
    t.status == TRANSACTION_STATUS_SUCCEEDED
}

/// Some trace of the sequence succeeded.
pub open spec fn any_succeeded(traces: Seq<TransactionTrace>) -> bool {
    exists|i: int| 0 <= i < traces.len() && succeeded(#[trigger] traces[i])
}

/// The projections of the succeeded traces, in trace order.
pub open spec fn transaction_write_views(traces: Seq<TransactionTrace>, b: Block) -> Seq<
    TransactionView,
>
    decreases traces.len(),
{
    if traces.len() == 0 {
        Seq::empty()
    } else {
        let rest = transaction_write_views(traces.drop_last(), b);
        if succeeded(traces.last()) {
            rest.push(transaction_view_of(traces.last(), b))
        } else {
            rest
        }
    }
}

/// Plans the snapshot writes of one block's transactions: one write per
/// succeeded trace, in trace order, ordered by the block number. Every
/// write lands on the one literal key "transaction.id", so set-if-absent
/// retains only the first succeeded transaction of a step. Whether each
/// transaction should instead be keyed by its own identifier is an open
/// question; the literal key is kept until that is settled.
pub fn store_transaction_data(blk: &Block) -> (r: Result<Vec<StoreWrite<Transaction>>, EmitError>)
    ensures
        !block_input_ok(*blk) && any_succeeded(blk.transaction_traces@) ==> r is Err && r->Err_0
            == EmitError::MissingField,
        block_input_ok(*blk) || !any_succeeded(blk.transaction_traces@) ==> r is Ok && {
            let w = r->Ok_0;
            &&& w@.len() == transaction_write_views(blk.transaction_traces@, *blk).len()
            &&& forall|i: int|
                0 <= i < w@.len() ==> (#[trigger] w@[i]).ordinal == blk.number && w@[i].key@
                    == "transaction.id"@ && w@[i].value@ == transaction_write_views(
                    blk.transaction_traces@,
                    *blk,
                )[i]
        },
{
    let mut writes: Vec<StoreWrite<Transaction>> = Vec::new();
    let mut i: usize = 0;
    while i < blk.transaction_traces.len()
        invariant
            i <= blk.transaction_traces.len(),
            !any_succeeded(blk.transaction_traces@.take(i as int)) || block_input_ok(*blk),
            writes@.len() == transaction_write_views(
                blk.transaction_traces@.take(i as int),
                *blk,
            ).len(),
            forall|j: int|
                0 <= j < writes@.len() ==> (#[trigger] writes@[j]).ordinal == blk.number
                    && writes@[j].key@ == "transaction.id"@ && writes@[j].value@
                    == transaction_write_views(blk.transaction_traces@.take(i as int), *blk)[j],
        decreases blk.transaction_traces.len() - i,
    {
        let trx = &blk.transaction_traces[i];
        proof {
            assert(blk.transaction_traces@.take(i + 1).drop_last() =~= blk.transaction_traces@.take(
                i as int,
            ));
            assert(blk.transaction_traces@.take(i + 1).last() == blk.transaction_traces@[i as int]);
        }
        if trx.status == TRANSACTION_STATUS_SUCCEEDED {
            let transaction = match transform_transaction_to_transaction_meta(trx, blk) {
                Result::Ok(t) => t,
                Result::Err(e) => {
                    proof {
                        assert(succeeded(blk.transaction_traces@[i as int]));
                        assert(any_succeeded(blk.transaction_traces@));
                    }
                    return Result::Err(e);
                },
            };
            writes.push(
                StoreWrite {
                    ordinal: transaction.block_number,
                    key: String::from_str("transaction.id"),
                    value: transaction,
                },
            );
        }
        proof {
            if !block_input_ok(*blk) {
                assert(!succeeded(blk.transaction_traces@[i as int]));
                assert(forall|j: int|
                    0 <= j < i + 1 ==> !succeeded(
                        #[trigger] blk.transaction_traces@.take(i + 1)[j],
                    ));
            }
        }
        i = i + 1;
    }
    proof {
        assert(blk.transaction_traces@.take(blk.transaction_traces@.len() as int)
            =~= blk.transaction_traces@);
    }
    Result::Ok(writes)
}

} // verus!
