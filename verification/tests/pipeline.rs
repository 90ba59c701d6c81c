use eth_block_meta::changes::db_out;
use eth_block_meta::model::Block;
use eth_block_meta::model::BlockHeader;
use eth_block_meta::model::BlockMeta;
use eth_block_meta::model::Delta;
use eth_block_meta::model::EmitError;
use eth_block_meta::model::Operation;
use eth_block_meta::model::StoreWrite;
use eth_block_meta::model::TransactionTrace;
use eth_block_meta::transform::store_block_meta_start;
use eth_block_meta::transform::store_transaction_data;
use eth_block_meta::transform::transform_block_to_block_meta;
use eth_block_meta::transform::transform_transaction_to_transaction_meta;

fn sample_header() -> BlockHeader {
    BlockHeader {
        parent_hash: vec![0x03, 0x04],
        uncle_hash: vec![0x05, 0x06],
        receipt_root: vec![0xAB, 0xCD],
        gas_limit: 30_000_000,
        gas_used: 12_000_000,
        nonce: 7,
        timestamp: Some(1704067200),
    }
}

fn sample_block() -> Block {
    Block {
        hash: vec![0x01, 0x02],
        number: 100,
        size: 512,
        header: Some(sample_header()),
        transaction_traces: Vec::new(),
    }
}

fn sample_trace(status: i32) -> TransactionTrace {
    TransactionTrace {
        hash: vec![0x0A, 0x0B],
        to: vec![0x11, 0x11],
        from: vec![0x22, 0x22],
        gas_used: 21000,
        gas_limit: 25000,
        nonce: 3,
        index: 0,
        status,
    }
}

#[test]
fn block_transform_renders_every_field() {
    let (timestamp, meta) = transform_block_to_block_meta(&sample_block()).unwrap();
    assert_eq!((timestamp.year, timestamp.month, timestamp.day), (2024, 1, 1));
    assert_eq!(meta.id, "0x0102");
    assert_eq!(meta.hash, "0x0102");
    assert_eq!(meta.parent_hash, "0x0304");
    assert_eq!(meta.uncle_hash, "0x0506");
    assert_eq!(meta.receipt_root, vec![0xAB, 0xCD]);
    assert_eq!(meta.timestamp, Some(1704067200));
    assert_eq!(meta.number, 100);
    assert_eq!(meta.size, 512);
}

#[test]
fn block_transform_rejects_bad_input() {
    let mut no_header = sample_block();
    no_header.header = None;
    assert_eq!(transform_block_to_block_meta(&no_header).unwrap_err(), EmitError::MissingField);

    let mut no_timestamp = sample_block();
    no_timestamp.header.as_mut().unwrap().timestamp = None;
    assert_eq!(transform_block_to_block_meta(&no_timestamp).unwrap_err(), EmitError::MissingField);

    let mut ancient = sample_block();
    ancient.header.as_mut().unwrap().timestamp = Some(-1);
    assert_eq!(
        transform_block_to_block_meta(&ancient).unwrap_err(),
        EmitError::TimestampOutOfRange
    );
}

#[test]
fn transaction_transform_renders_every_field() {
    let trx = transform_transaction_to_transaction_meta(&sample_trace(1), &sample_block()).unwrap();
    assert_eq!(trx.id, "0x0a0b");
    assert_eq!(trx.status, "1");
    assert_eq!(trx.to, "0x1111");
    assert_eq!(trx.from, "0x2222");
    assert_eq!(trx.block_number, 100);
    assert_eq!(trx.timestamp, 1704067200);
}

#[test]
fn block_meta_is_stored_under_day_and_month_keys() {
    let (timestamp, writes) = store_block_meta_start(&sample_block()).unwrap();
    assert_eq!((timestamp.year, timestamp.month, timestamp.day), (2024, 1, 1));
    assert_eq!(writes.len(), 2);
    assert_eq!(writes[0].key, "day:2024-01-01");
    assert_eq!(writes[0].ordinal, 100);
    assert_eq!(writes[1].key, "month:2024-01");
    assert_eq!(writes[1].ordinal, 100);
    assert_eq!(writes[0].value.id, writes[1].value.id);
    assert_eq!(writes[0].value.size, writes[1].value.size);
}

#[test]
fn only_succeeded_transactions_are_stored() {
    let mut block = sample_block();
    block.transaction_traces = vec![sample_trace(1), sample_trace(2), sample_trace(1)];
    let writes = store_transaction_data(&block).unwrap();
    assert_eq!(writes.len(), 2);
    // Every write lands on the one literal key, so only the first
    // succeeded transaction of a step survives set-if-absent.
    assert_eq!(writes[0].key, "transaction.id");
    assert_eq!(writes[1].key, "transaction.id");
    assert_eq!(writes[0].ordinal, 100);
}

#[test]
fn transaction_store_needs_the_header_only_when_something_succeeded() {
    let mut block = sample_block();
    block.header = None;
    block.transaction_traces = vec![sample_trace(2)];
    assert_eq!(store_transaction_data(&block).unwrap().len(), 0);
    block.transaction_traces = vec![sample_trace(1)];
    assert_eq!(store_transaction_data(&block).unwrap_err(), EmitError::MissingField);
}

fn create_delta_from_write(w: &StoreWrite<BlockMeta>) -> Delta<BlockMeta> {
    Delta {
        operation: Operation::Create,
        ordinal: w.ordinal,
        key: w.key.clone(),
        old_value: None,
        new_value: Some(BlockMeta {
            id: w.value.id.clone(),
            timestamp: w.value.timestamp,
            parent_hash: w.value.parent_hash.clone(),
            uncle_hash: w.value.uncle_hash.clone(),
            receipt_root: w.value.receipt_root.clone(),
            gas_limit: w.value.gas_limit,
            hash: w.value.hash.clone(),
            gas_used: w.value.gas_used,
            number: w.value.number,
            nonce: w.value.nonce,
            size: w.value.size,
        }),
    }
}

#[test]
fn one_block_becomes_two_identical_create_entries_under_different_keys() {
    // One decoded block at height 100 is snapshotted under its day key and
    // its month key; the store then reports one create delta per key.
    let (_, writes) = store_block_meta_start(&sample_block()).unwrap();
    let deltas: Vec<Delta<BlockMeta>> = writes.iter().map(create_delta_from_write).collect();
    assert_eq!(deltas[0].key, "day:2024-01-01");
    assert_eq!(deltas[1].key, "month:2024-01");

    let log = db_out(&deltas, &Vec::new()).unwrap();
    assert_eq!(log.entries.len(), 2);
    let first = &log.entries[0];
    let second = &log.entries[1];
    assert_eq!(first.table, "block_meta");
    assert_eq!(second.table, "block_meta");
    assert_eq!(first.operation, Operation::Create);
    assert_eq!(second.operation, Operation::Create);
    assert_ne!(first.key, second.key);
    assert_eq!(first.columns.len(), second.columns.len());
    for (a, b) in first.columns.iter().zip(second.columns.iter()) {
        assert_eq!(a.column, b.column);
        assert_eq!(a.old_value, b.old_value);
        assert_eq!(a.new_value, b.new_value);
    }
    assert_eq!(first.columns[0].column, "at");
    assert_eq!(first.columns[0].new_value, "2024-01-01");
}
