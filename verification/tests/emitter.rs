use eth_block_meta::changes::db_out;
use eth_block_meta::changes::push_create;
use eth_block_meta::changes::push_create_transaction;
use eth_block_meta::changes::push_update;
use eth_block_meta::changes::push_update_transaction;
use eth_block_meta::changes::transform_block_meta_to_database_changes;
use eth_block_meta::changes::transform_transaction_data_to_database_changes;
use eth_block_meta::changes::ChangeLog;
use eth_block_meta::model::BlockMeta;
use eth_block_meta::model::Delta;
use eth_block_meta::model::EmitError;
use eth_block_meta::model::Operation;
use eth_block_meta::model::Transaction;

fn sample_meta() -> BlockMeta {
    BlockMeta {
        id: "0x0102".to_string(),
        timestamp: Some(1704067200),
        parent_hash: "0x0304".to_string(),
        uncle_hash: "0x0506".to_string(),
        receipt_root: vec![0xAB, 0xCD],
        gas_limit: 30_000_000,
        hash: "0x0102".to_string(),
        gas_used: 12_000_000,
        number: 100,
        nonce: 7,
        size: 512,
    }
}

fn sample_transaction() -> Transaction {
    Transaction {
        id: "0x0a0b".to_string(),
        gas_used: 21000,
        status: "1".to_string(),
        index: 0,
        nonce: 3,
        gas_limit: 25000,
        to: "0x1111".to_string(),
        from: "0x2222".to_string(),
        block_number: 100,
        timestamp: 1704067200,
    }
}

#[test]
fn create_entry_tracks_all_columns_with_absent_old_values() {
    let mut log = ChangeLog { entries: Vec::new() };
    push_create(&mut log, "day:2024-01-01", "2024-01-01", 100, &sample_meta()).unwrap();
    assert_eq!(log.len(), 1);
    let entry = &log.entries[0];
    assert_eq!(entry.table, "block_meta");
    assert_eq!(entry.key, "day:2024-01-01");
    assert_eq!(entry.ordinal, 100);
    assert_eq!(entry.operation, Operation::Create);
    let names: Vec<&str> = entry.columns.iter().map(|c| c.column.as_str()).collect();
    assert_eq!(
        names,
        vec![
            "at",
            "size",
            "number",
            "gas_limit",
            "gas_used",
            "id",
            "hash",
            "uncle_hash",
            "receipt_root",
            "parent_hash",
            "timestamp",
        ]
    );
    for c in &entry.columns {
        assert!(c.old_value.is_none());
    }
    assert_eq!(entry.columns[0].new_value, "2024-01-01");
    assert_eq!(entry.columns[1].new_value, "512");
    assert_eq!(entry.columns[2].new_value, "100");
    assert_eq!(entry.columns[3].new_value, "30000000");
    assert_eq!(entry.columns[4].new_value, "12000000");
    assert_eq!(entry.columns[5].new_value, "0x0102");
    assert_eq!(entry.columns[8].new_value, "0xabcd");
    assert_eq!(entry.columns[10].new_value, "1704067200");
}

#[test]
fn create_without_timestamp_appends_nothing() {
    let mut log = ChangeLog { entries: Vec::new() };
    let mut meta = sample_meta();
    meta.timestamp = None;
    let r = push_create(&mut log, "day:2024-01-01", "2024-01-01", 100, &meta);
    assert_eq!(r.unwrap_err(), EmitError::MissingField);
    assert_eq!(log.entries.len(), 0);
}

#[test]
fn update_entry_tracks_both_values() {
    let mut log = ChangeLog { entries: Vec::new() };
    let before = sample_meta();
    let mut after = sample_meta();
    after.gas_used = 13_000_000;
    push_update(&mut log, "day:2024-01-01", 101, &before, &after);
    let entry = &log.entries[0];
    assert_eq!(entry.operation, Operation::Update);
    let names: Vec<&str> = entry.columns.iter().map(|c| c.column.as_str()).collect();
    assert_eq!(names, vec!["number", "size", "gas_limit", "gas_used", "id"]);
    for c in &entry.columns {
        assert!(c.old_value.is_some());
    }
    assert_eq!(entry.columns[3].old_value.as_deref(), Some("12000000"));
    assert_eq!(entry.columns[3].new_value, "13000000");
}

#[test]
fn transaction_entries() {
    let mut log = ChangeLog { entries: Vec::new() };
    push_create_transaction(&mut log, "transaction.id", 100, &sample_transaction());
    let mut later = sample_transaction();
    later.gas_used = 22000;
    later.timestamp = 1704067212;
    push_update_transaction(&mut log, "transaction.id", 101, &sample_transaction(), &later);
    assert_eq!(log.entries.len(), 2);
    let created = &log.entries[0];
    assert_eq!(created.table, "transactions");
    let names: Vec<&str> = created.columns.iter().map(|c| c.column.as_str()).collect();
    assert_eq!(names, vec!["status", "gas_limit", "gas_used", "id", "hash"]);
    assert!(created.columns.iter().all(|c| c.old_value.is_none()));
    // The hash column repeats the id.
    assert_eq!(created.columns[4].new_value, "0x0a0b");
    let updated = &log.entries[1];
    let names: Vec<&str> = updated.columns.iter().map(|c| c.column.as_str()).collect();
    assert_eq!(names, vec!["at", "status", "gas_limit", "gas_used", "id", "hash"]);
    assert_eq!(updated.columns[0].old_value.as_deref(), Some("1704067200"));
    assert_eq!(updated.columns[0].new_value, "1704067212");
}

fn create_delta(key: &str, ordinal: u64, value: BlockMeta) -> Delta<BlockMeta> {
    Delta {
        operation: Operation::Create,
        ordinal,
        key: key.to_string(),
        old_value: None,
        new_value: Some(value),
    }
}

#[test]
fn create_then_update_stay_in_order() {
    let mut after = sample_meta();
    after.size = 513;
    let deltas = vec![
        create_delta("day:2024-01-01", 100, sample_meta()),
        Delta {
            operation: Operation::Update,
            ordinal: 101,
            key: "day:2024-01-01".to_string(),
            old_value: Some(sample_meta()),
            new_value: Some(after),
        },
    ];
    let mut log = ChangeLog { entries: Vec::new() };
    transform_block_meta_to_database_changes(&mut log, &deltas).unwrap();
    assert_eq!(log.entries.len(), 2);
    assert_eq!(log.entries[0].operation, Operation::Create);
    assert_eq!(log.entries[0].ordinal, 100);
    assert_eq!(log.entries[1].operation, Operation::Update);
    assert_eq!(log.entries[1].ordinal, 101);
    assert_eq!(log.entries[0].key, log.entries[1].key);
}

#[test]
fn distinct_keys_are_not_deduplicated() {
    let deltas = vec![
        create_delta("day:2024-01-01", 100, sample_meta()),
        create_delta("month:2024-01", 100, sample_meta()),
    ];
    let mut log = ChangeLog { entries: Vec::new() };
    transform_block_meta_to_database_changes(&mut log, &deltas).unwrap();
    assert_eq!(log.entries.len(), 2);
    let first = &log.entries[0];
    let second = &log.entries[1];
    assert_ne!(first.key, second.key);
    assert_eq!(first.columns.len(), second.columns.len());
    for (a, b) in first.columns.iter().zip(second.columns.iter()) {
        assert_eq!(a.column, b.column);
        assert_eq!(a.old_value, b.old_value);
        assert_eq!(a.new_value, b.new_value);
    }
}

#[test]
fn delete_aborts_the_step_with_no_entries() {
    let deltas = vec![
        create_delta("day:2024-01-01", 100, sample_meta()),
        Delta {
            operation: Operation::Delete,
            ordinal: 101,
            key: "day:2024-01-01".to_string(),
            old_value: Some(sample_meta()),
            new_value: None,
        },
    ];
    let mut log = ChangeLog { entries: Vec::new() };
    let r = transform_block_meta_to_database_changes(&mut log, &deltas);
    assert_eq!(r.unwrap_err(), EmitError::UnsupportedOperation);
    assert_eq!(log.entries.len(), 0);
    let r = db_out(&deltas, &Vec::new());
    assert_eq!(r.unwrap_err(), EmitError::UnsupportedOperation);
}

#[test]
fn unset_operation_aborts_the_step() {
    let deltas = vec![Delta::<Transaction> {
        operation: Operation::Unset,
        ordinal: 1,
        key: "transaction.id".to_string(),
        old_value: None,
        new_value: Some(sample_transaction()),
    }];
    let mut log = ChangeLog { entries: Vec::new() };
    let r = transform_transaction_data_to_database_changes(&mut log, &deltas);
    assert_eq!(r.unwrap_err(), EmitError::UnsupportedOperation);
    assert_eq!(log.entries.len(), 0);
}

#[test]
fn malformed_deltas_abort_the_step() {
    let missing_new = vec![Delta::<BlockMeta> {
        operation: Operation::Create,
        ordinal: 1,
        key: "day:2024-01-01".to_string(),
        old_value: None,
        new_value: None,
    }];
    let mut log = ChangeLog { entries: Vec::new() };
    let r = transform_block_meta_to_database_changes(&mut log, &missing_new);
    assert_eq!(r.unwrap_err(), EmitError::MissingValue);

    let missing_old = vec![Delta::<BlockMeta> {
        operation: Operation::Update,
        ordinal: 1,
        key: "day:2024-01-01".to_string(),
        old_value: None,
        new_value: Some(sample_meta()),
    }];
    let r = transform_block_meta_to_database_changes(&mut log, &missing_old);
    assert_eq!(r.unwrap_err(), EmitError::MissingValue);

    let bad_key = vec![create_delta("week:2024-01-01", 1, sample_meta())];
    let r = transform_block_meta_to_database_changes(&mut log, &bad_key);
    assert_eq!(r.unwrap_err(), EmitError::BadKey);
    assert_eq!(log.entries.len(), 0);
}

#[test]
fn db_out_appends_transactions_after_block_meta() {
    let block_deltas = vec![create_delta("day:2024-01-01", 100, sample_meta())];
    let tx_deltas = vec![Delta::<Transaction> {
        operation: Operation::Create,
        ordinal: 100,
        key: "transaction.id".to_string(),
        old_value: None,
        new_value: Some(sample_transaction()),
    }];
    let log = db_out(&block_deltas, &tx_deltas).unwrap();
    assert_eq!(log.entries.len(), 2);
    assert_eq!(log.entries[0].table, "block_meta");
    assert_eq!(log.entries[1].table, "transactions");
}
