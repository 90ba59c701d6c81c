//! The change emitter: turns the store's ordered deltas into an ordered,
//! column-level change log, one entry per delta, one change per tracked
//! column. Any unsupported or malformed delta aborts the whole step with
//! no partial output.

use crate::hexfmt::base_64_to_hex;
use crate::hexfmt::hex0x_chars;
use crate::model::BlockMeta;
use crate::model::BlockMetaView;
use crate::model::Delta;
use crate::model::EmitError;
use crate::model::Operation;
use crate::model::Transaction;
use crate::model::TransactionView;
use crate::numfmt::dec_chars;
use crate::numfmt::dec_chars_signed;
use crate::numfmt::i64_to_dec;
use crate::numfmt::u64_to_dec;
use crate::timestamp::at_of_key;
use crate::timestamp::at_value_of_key;
use vstd::prelude::*;
use vstd::string::StringExecFns;

verus! {

/// One column-level change. An absent old value means the column had no
/// prior value at all (a create), not a zero or an empty string.
#[derive(Debug)]
pub struct ColumnChange {
    pub column: String,
    pub old_value: Option<String>,
    pub new_value: String,
}

/// Mathematical value of a `ColumnChange`.
pub ghost struct ColumnChangeView {
    pub column: Seq<char>,
    pub old_value: Option<Seq<char>>,
    pub new_value: Seq<char>,
}

impl View for ColumnChange {
    type V = ColumnChangeView;

    open spec fn view(&self) -> ColumnChangeView {
        ColumnChangeView {
            column: self.column@,
            old_value: match self.old_value {
                Option::Some(s) => Option::Some(s@),
                Option::None => Option::None,
            },
            new_value: self.new_value@,
        }
    }
}

/// One change-log entry, derived from one delta; terminal once emitted.
#[derive(Debug)]
pub struct ChangeEntry {
    pub table: String,
    pub key: String,
    pub ordinal: u64,
    pub operation: Operation,
    pub columns: Vec<ColumnChange>,
}

/// Mathematical value of a `ChangeEntry`.
pub ghost struct ChangeEntryView {
    pub table: Seq<char>,
    pub key: Seq<char>,
    pub ordinal: u64,
    pub operation: Operation,
    pub columns: Seq<ColumnChangeView>,
}

impl View for ChangeEntry {
    type V = ChangeEntryView;

    open spec fn view(&self) -> ChangeEntryView {
        ChangeEntryView {
            table: self.table@,
            key: self.key@,
            ordinal: self.ordinal,
            operation: self.operation,
            columns: self.columns@.map_values(|c: ColumnChange| c@),
        }
    }
}

/// Mathematical value of a sequence of entries.
pub open spec fn entries_view(entries: Seq<ChangeEntry>) -> Seq<ChangeEntryView> {
    entries.map_values(|e: ChangeEntry| e@)
}

/// The ordered, append-only change log of one processing step.
#[derive(Debug)]
pub struct ChangeLog {
    pub entries: Vec<ChangeEntry>,
}

impl View for ChangeLog {
    type V = Seq<ChangeEntryView>;

    open spec fn view(&self) -> Seq<ChangeEntryView> {
        entries_view(self.entries@)
    }
}

impl ChangeLog {
    /// An empty change log.
    pub fn new() -> (r: ChangeLog)
        ensures
            r@ == Seq::<ChangeEntryView>::empty(),
    {
        let r = ChangeLog { entries: Vec::new() };
        proof {
            assert(r@ =~= Seq::<ChangeEntryView>::empty());
        }
        r
    }

    /// How many entries the log holds.
    pub fn len(&self) -> (n: usize)
        ensures
            n == self@.len(),
    {
        self.entries.len()
    }
}

/// Shorthand for one column-level change value.
pub open spec fn column_view(
    column: Seq<char>,
    old_value: Option<Seq<char>>,
    new_value: Seq<char>,
) -> ColumnChangeView {
    ColumnChangeView { column, old_value, new_value }
}

/// The tracked columns of a block-meta create, in declared order.
pub open spec fn block_meta_create_columns() -> Seq<Seq<char>> {
    seq![
        "at"@,
        "size"@,
        "number"@,
        "gas_limit"@,
        "gas_used"@,
        "id"@,
        "hash"@,
        "uncle_hash"@,
        "receipt_root"@,
        "parent_hash"@,
        "timestamp"@,
    ]
}

/// The tracked columns of a block-meta update. The list is deliberately
/// narrower than the create list: it is a per-operation configuration
/// surface, not an inconsistency.
pub open spec fn block_meta_update_columns() -> Seq<Seq<char>> {
    seq!["number"@, "size"@, "gas_limit"@, "gas_used"@, "id"@]
}

/// The tracked columns of a transaction create.
pub open spec fn transaction_create_columns() -> Seq<Seq<char>> {
    seq!["status"@, "gas_limit"@, "gas_used"@, "id"@, "hash"@]
}

/// The tracked columns of a transaction update.
pub open spec fn transaction_update_columns() -> Seq<Seq<char>> {
    seq!["at"@, "status"@, "gas_limit"@, "gas_used"@, "id"@, "hash"@]
}

/// The column changes of a block-meta create: every tracked column with an
/// absent old value. `at` is the date recovered from the delta's key.
pub open spec fn block_meta_create_cols(at: Seq<char>, v: BlockMetaView) -> Seq<ColumnChangeView> {
    seq![
        column_view("at"@, Option::None, at),
        column_view("size"@, Option::None, dec_chars(v.size as nat)),
        column_view("number"@, Option::None, dec_chars(v.number as nat)),
        column_view("gas_limit"@, Option::None, dec_chars(v.gas_limit as nat)),
        column_view("gas_used"@, Option::None, dec_chars(v.gas_used as nat)),
        column_view("id"@, Option::None, v.id),
        column_view("hash"@, Option::None, v.hash),
        column_view("uncle_hash"@, Option::None, v.uncle_hash),
        column_view("receipt_root"@, Option::None, hex0x_chars(v.receipt_root)),
        column_view("parent_hash"@, Option::None, v.parent_hash),
        column_view("timestamp"@, Option::None, dec_chars_signed(v.timestamp->0 as int)),
    ]
}

/// The column changes of a block-meta update: every tracked column with
/// both its old and its new value present.
pub open spec fn block_meta_update_cols(o: BlockMetaView, n: BlockMetaView) -> Seq<
    ColumnChangeView,
> {
    seq![
        column_view("number"@, Option::Some(dec_chars(o.number as nat)), dec_chars(n.number as nat)),
        column_view("size"@, Option::Some(dec_chars(o.size as nat)), dec_chars(n.size as nat)),
        column_view(
            "gas_limit"@,
            Option::Some(dec_chars(o.gas_limit as nat)),
            dec_chars(n.gas_limit as nat),
        ),
        column_view(
            "gas_used"@,
            Option::Some(dec_chars(o.gas_used as nat)),
            dec_chars(n.gas_used as nat),
        ),
        column_view("id"@, Option::Some(o.id), n.id),
    ]
}

/// The column changes of a transaction create. The `hash` column repeats
/// the id: a transaction's identifier is its hash.
pub open spec fn transaction_create_cols(v: TransactionView) -> Seq<ColumnChangeView> {
    seq![
        column_view("status"@, Option::None, v.status),
        column_view("gas_limit"@, Option::None, dec_chars(v.gas_limit as nat)),
        column_view("gas_used"@, Option::None, dec_chars(v.gas_used as nat)),
        column_view("id"@, Option::None, v.id),
        column_view("hash"@, Option::None, v.id),
    ]
}

/// The column changes of a transaction update.
pub open spec fn transaction_update_cols(o: TransactionView, n: TransactionView) -> Seq<
    ColumnChangeView,
> {
    seq![
        column_view(
            "at"@,
            Option::Some(dec_chars_signed(o.timestamp as int)),
            dec_chars_signed(n.timestamp as int),
        ),
        column_view("status"@, Option::Some(o.status), n.status),
        column_view(
            "gas_limit"@,
            Option::Some(dec_chars(o.gas_limit as nat)),
            dec_chars(n.gas_limit as nat),
        ),
        column_view(
            "gas_used"@,
            Option::Some(dec_chars(o.gas_used as nat)),
            dec_chars(n.gas_used as nat),
        ),
        column_view("id"@, Option::Some(o.id), n.id),
        column_view("hash"@, Option::Some(o.id), n.id),
    ]
}

/// The entry a block-meta create delta emits.
pub open spec fn block_meta_create_entry(
    key: Seq<char>,
    at: Seq<char>,
    ordinal: u64,
    v: BlockMetaView,
) -> ChangeEntryView {
    ChangeEntryView {
        table: "block_meta"@,
        key,
        ordinal,
        operation: Operation::Create,
        columns: block_meta_create_cols(at, v),
    }
}

/// The entry a block-meta update delta emits.
pub open spec fn block_meta_update_entry(
    key: Seq<char>,
    ordinal: u64,
    o: BlockMetaView,
    n: BlockMetaView,
) -> ChangeEntryView {
    ChangeEntryView {
        table: "block_meta"@,
        key,
        ordinal,
        operation: Operation::Update,
        columns: block_meta_update_cols(o, n),
    }
}

/// The entry a transaction create delta emits.
pub open spec fn transaction_create_entry(
    key: Seq<char>,
    ordinal: u64,
    v: TransactionView,
) -> ChangeEntryView {
    ChangeEntryView {
        table: "transactions"@,
        key,
        ordinal,
        operation: Operation::Create,
        columns: transaction_create_cols(v),
    }
}

/// The entry a transaction update delta emits.
pub open spec fn transaction_update_entry(
    key: Seq<char>,
    ordinal: u64,
    o: TransactionView,
    n: TransactionView,
) -> ChangeEntryView {
    ChangeEntryView {
        table: "transactions"@,
        key,
        ordinal,
        operation: Operation::Update,
        columns: transaction_update_cols(o, n),
    }
}

fn col_new(column: &str, new_value: String) -> (c: ColumnChange)
    ensures
        c@ == column_view(column@, Option::None, new_value@),
{
    ColumnChange { column: column.to_owned(), old_value: Option::None, new_value }
}

fn col_upd(column: &str, old_value: String, new_value: String) -> (c: ColumnChange)
    ensures
        c@ == column_view(column@, Option::Some(old_value@), new_value@),
{
    ColumnChange { column: column.to_owned(), old_value: Option::Some(old_value), new_value }
}

/// Appends the entry of one block-meta create delta: every tracked column
/// with an absent old value. Fails, appending nothing, when the record
/// misses its timestamp.
pub fn push_create(
    changes: &mut ChangeLog,
    key: &str,
    at_value: &str,
    ordinal: u64,
    value: &BlockMeta,
) -> (r: Result<(), EmitError>)
    ensures
        value.timestamp is Some ==> r is Ok && final(changes)@ == old(changes)@.push(
            block_meta_create_entry(key@, at_value@, ordinal, value@),
        ),
        value.timestamp is None ==> r == Result::<(), EmitError>::Err(EmitError::MissingField)
            && final(changes)@ == old(changes)@,
{
    let ts: i64 = match value.timestamp {
        Option::Some(t) => t,
        Option::None => {
            return Result::Err(EmitError::MissingField);
        },
    };
    let mut columns: Vec<ColumnChange> = Vec::new();
    columns.push(col_new("at", at_value.to_owned()));
    columns.push(col_new("size", u64_to_dec(value.size)));
    columns.push(col_new("number", u64_to_dec(value.number)));
    columns.push(col_new("gas_limit", u64_to_dec(value.gas_limit)));
    columns.push(col_new("gas_used", u64_to_dec(value.gas_used)));
    columns.push(col_new("id", value.id.clone()));
    columns.push(col_new("hash", value.hash.clone()));
    columns.push(col_new("uncle_hash", value.uncle_hash.clone()));
    columns.push(col_new("receipt_root", base_64_to_hex(value.receipt_root.as_slice())));
    columns.push(col_new("parent_hash", value.parent_hash.clone()));
    columns.push(col_new("timestamp", i64_to_dec(ts)));
    let entry = ChangeEntry {
        table: String::from_str("block_meta"),
        key: key.to_owned(),
        ordinal,
        operation: Operation::Create,
        columns,
    };
    proof {
        assert(entry@.columns =~= block_meta_create_cols(at_value@, value@));
    }
    changes.entries.push(entry);
    proof {
        assert(changes@ =~= old(changes)@.push(
            block_meta_create_entry(key@, at_value@, ordinal, value@),
        ));
    }
    Result::Ok(())
}

/// Appends the entry of one block-meta update delta: every tracked column
/// with both its old and its new value.
pub fn push_update(
    changes: &mut ChangeLog,
    key: &str,
    ordinal: u64,
    old_value: &BlockMeta,
    new_value: &BlockMeta,
)
    ensures
        final(changes)@ == old(changes)@.push(
            block_meta_update_entry(key@, ordinal, old_value@, new_value@),
        ),
{
    let mut columns: Vec<ColumnChange> = Vec::new();
    columns.push(col_upd("number", u64_to_dec(old_value.number), u64_to_dec(new_value.number)));
    columns.push(col_upd("size", u64_to_dec(old_value.size), u64_to_dec(new_value.size)));
    columns.push(
        col_upd("gas_limit", u64_to_dec(old_value.gas_limit), u64_to_dec(new_value.gas_limit)),
    );
    columns.push(
        col_upd("gas_used", u64_to_dec(old_value.gas_used), u64_to_dec(new_value.gas_used)),
    );
    columns.push(col_upd("id", old_value.id.clone(), new_value.id.clone()));
    let entry = ChangeEntry {
        table: String::from_str("block_meta"),
        key: key.to_owned(),
        ordinal,
        operation: Operation::Update,
        columns,
    };
    proof {
        assert(entry@.columns =~= block_meta_update_cols(old_value@, new_value@));
    }
    changes.entries.push(entry);
    proof {
        assert(changes@ =~= old(changes)@.push(
            block_meta_update_entry(key@, ordinal, old_value@, new_value@),
        ));
    }
}

/// Appends the entry of one transaction create delta.
pub fn push_create_transaction(
    changes: &mut ChangeLog,
    key: &str,
    ordinal: u64,
    value: &Transaction,
)
    ensures
        final(changes)@ == old(changes)@.push(transaction_create_entry(key@, ordinal, value@)),
{
    let mut columns: Vec<ColumnChange> = Vec::new();
    columns.push(col_new("status", value.status.clone()));
    columns.push(col_new("gas_limit", u64_to_dec(value.gas_limit)));
    columns.push(col_new("gas_used", u64_to_dec(value.gas_used)));
    columns.push(col_new("id", value.id.clone()));
    columns.push(col_new("hash", value.id.clone()));
    let entry = ChangeEntry {
        table: String::from_str("transactions"),
        key: key.to_owned(),
        ordinal,
        operation: Operation::Create,
        columns,
    };
    proof {
        assert(entry@.columns =~= transaction_create_cols(value@));
    }
    changes.entries.push(entry);
    proof {
        assert(changes@ =~= old(changes)@.push(transaction_create_entry(key@, ordinal, value@)));
    }
}

/// Appends the entry of one transaction update delta.
pub fn push_update_transaction(
    changes: &mut ChangeLog,
    key: &str,
    ordinal: u64,
    old_value: &Transaction,
    new_value: &Transaction,
)
    ensures
        final(changes)@ == old(changes)@.push(
            transaction_update_entry(key@, ordinal, old_value@, new_value@),
        ),
{
    let mut columns: Vec<ColumnChange> = Vec::new();
    columns.push(col_upd("at", i64_to_dec(old_value.timestamp), i64_to_dec(new_value.timestamp)));
    columns.push(col_upd("status", old_value.status.clone(), new_value.status.clone()));
    columns.push(
        col_upd("gas_limit", u64_to_dec(old_value.gas_limit), u64_to_dec(new_value.gas_limit)),
    );
    columns.push(
        col_upd("gas_used", u64_to_dec(old_value.gas_used), u64_to_dec(new_value.gas_used)),
    );
    columns.push(col_upd("id", old_value.id.clone(), new_value.id.clone()));
    columns.push(col_upd("hash", old_value.id.clone(), new_value.id.clone()));
    let entry = ChangeEntry {
        table: String::from_str("transactions"),
        key: key.to_owned(),
        ordinal,
        operation: Operation::Update,
        columns,
    };
    proof {
        assert(entry@.columns =~= transaction_update_cols(old_value@, new_value@));
    }
    changes.entries.push(entry);
    proof {
        assert(changes@ =~= old(changes)@.push(
            transaction_update_entry(key@, ordinal, old_value@, new_value@),
        ));
    }
}

/// What one block-meta delta emits, or why the step aborts on it.
pub open spec fn block_delta_result(d: Delta<BlockMeta>) -> Result<ChangeEntryView, EmitError> {
    match d.operation {
        Operation::Create => if d.new_value is None {
            Result::Err(EmitError::MissingValue)
        } else if at_of_key(d.key@) is None {
            Result::Err(EmitError::BadKey)
        } else if (d.new_value->0).timestamp is None {
            Result::Err(EmitError::MissingField)
        } else {
            Result::Ok(
                block_meta_create_entry(d.key@, at_of_key(d.key@)->0, d.ordinal, (d.new_value->0)@),
            )
        },
        Operation::Update => if d.old_value is None || d.new_value is None {
            Result::Err(EmitError::MissingValue)
        } else {
            Result::Ok(
                block_meta_update_entry(d.key@, d.ordinal, (d.old_value->0)@, (d.new_value->0)@),
            )
        },
        _ => Result::Err(EmitError::UnsupportedOperation),
    }
}

/// Every block-meta delta of the step can be emitted.
pub open spec fn block_deltas_ok(s: Seq<Delta<BlockMeta>>) -> bool {
    forall|i: int| 0 <= i < s.len() ==> (#[trigger] block_delta_result(s[i])) is Ok
}

/// The entries the step's block-meta deltas emit, in delta order.
pub open spec fn block_entries_of(s: Seq<Delta<BlockMeta>>) -> Seq<ChangeEntryView> {
    s.map_values(|d: Delta<BlockMeta>| block_delta_result(d)->Ok_0)
}

/// The position of the first block-meta delta the step aborts on.
pub open spec fn first_block_error(s: Seq<Delta<BlockMeta>>) -> int
    decreases s.len(),
{
    if s.len() == 0 {
        0
    } else if block_delta_result(s[0]) is Err {
        0
    } else {
        1 + first_block_error(s.drop_first())
    }
}

proof fn lemma_first_block_error(s: Seq<Delta<BlockMeta>>, i: int)
    requires
        0 <= i < s.len(),
        forall|j: int| 0 <= j < i ==> (#[trigger] block_delta_result(s[j])) is Ok,
        block_delta_result(s[i]) is Err,
    ensures
        first_block_error(s) == i,
    decreases i,
{
    if i > 0 {
        assert(forall|j: int|
            0 <= j < i - 1 ==> (#[trigger] block_delta_result(s.drop_first()[j])) is Ok) by {
            assert(forall|j: int| 0 <= j < i - 1 ==> s.drop_first()[j] == s[j + 1]);
        }
        assert(s.drop_first()[i - 1] == s[i]);
        lemma_first_block_error(s.drop_first(), i - 1);
    }
}

/// What one transaction delta emits, or why the step aborts on it.
pub open spec fn transaction_delta_result(d: Delta<Transaction>) -> Result<
    ChangeEntryView,
    EmitError,
> {
    match d.operation {
        Operation::Create => if d.new_value is None {
            Result::Err(EmitError::MissingValue)
        } else {
            Result::Ok(transaction_create_entry(d.key@, d.ordinal, (d.new_value->0)@))
        },
        Operation::Update => if d.old_value is None || d.new_value is None {
            Result::Err(EmitError::MissingValue)
        } else {
            Result::Ok(
                transaction_update_entry(d.key@, d.ordinal, (d.old_value->0)@, (d.new_value->0)@),
            )
        },
        _ => Result::Err(EmitError::UnsupportedOperation),
    }
}

/// Every transaction delta of the step can be emitted.
pub open spec fn transaction_deltas_ok(s: Seq<Delta<Transaction>>) -> bool {
    forall|i: int| 0 <= i < s.len() ==> (#[trigger] transaction_delta_result(s[i])) is Ok
}

/// The entries the step's transaction deltas emit, in delta order.
pub open spec fn transaction_entries_of(s: Seq<Delta<Transaction>>) -> Seq<ChangeEntryView> {
    s.map_values(|d: Delta<Transaction>| transaction_delta_result(d)->Ok_0)
}

/// The position of the first transaction delta the step aborts on.
pub open spec fn first_transaction_error(s: Seq<Delta<Transaction>>) -> int
    decreases s.len(),
{
    if s.len() == 0 {
        0
    } else if transaction_delta_result(s[0]) is Err {
        0
    } else {
        1 + first_transaction_error(s.drop_first())
    }
}

proof fn lemma_first_transaction_error(s: Seq<Delta<Transaction>>, i: int)
    requires
        0 <= i < s.len(),
        forall|j: int| 0 <= j < i ==> (#[trigger] transaction_delta_result(s[j])) is Ok,
        transaction_delta_result(s[i]) is Err,
    ensures
        first_transaction_error(s) == i,
    decreases i,
{
    if i > 0 {
        assert(forall|j: int|
            0 <= j < i - 1 ==> (#[trigger] transaction_delta_result(s.drop_first()[j])) is Ok) by {
            assert(forall|j: int| 0 <= j < i - 1 ==> s.drop_first()[j] == s[j + 1]);
        }
        assert(s.drop_first()[i - 1] == s[i]);
        lemma_first_transaction_error(s.drop_first(), i - 1);
    }
}

/// Emits the entries of the step's block-meta deltas, in delta order,
/// appended to `changes`. On the first delta that cannot be emitted the
/// step aborts: the error of that delta comes back and `changes` keeps
/// exactly its old entries.
pub fn transform_block_meta_to_database_changes(
    changes: &mut ChangeLog,
    deltas: &Vec<Delta<BlockMeta>>,
) -> (r: Result<(), EmitError>)
    ensures
        r is Ok <==> block_deltas_ok(deltas@),
        r is Ok ==> final(changes)@ == old(changes)@ + block_entries_of(deltas@),
        r is Err ==> final(changes)@ == old(changes)@ && block_delta_result(
            deltas@[first_block_error(deltas@)],
        ) is Err && r->Err_0 == block_delta_result(deltas@[first_block_error(deltas@)])->Err_0,
{
    let mut staged = ChangeLog { entries: Vec::new() };
    proof {
        assert(staged@ =~= block_entries_of(deltas@.take(0)));
    }
    let mut i: usize = 0;
    while i < deltas.len()
        invariant
            i <= deltas.len(),
            forall|j: int| 0 <= j < i ==> (#[trigger] block_delta_result(deltas@[j])) is Ok,
            staged@ == block_entries_of(deltas@.take(i as int)),
        decreases deltas.len() - i,
    {
        let d = &deltas[i];
        match d.operation {
            Operation::Create => {
                match &d.new_value {
                    Option::None => {
                        proof {
                            lemma_first_block_error(deltas@, i as int);
                        }
                        return Result::Err(EmitError::MissingValue);
                    },
                    Option::Some(v) => {
                        let at = match at_value_of_key(d.key.as_str()) {
                            Result::Ok(a) => a,
                            Result::Err(e) => {
                                proof {
                                    lemma_first_block_error(deltas@, i as int);
                                }
                                return Result::Err(e);
                            },
                        };
                        match push_create(&mut staged, d.key.as_str(), at.as_str(), d.ordinal, v) {
                            Result::Ok(()) => {},
                            Result::Err(e) => {
                                proof {
                                    lemma_first_block_error(deltas@, i as int);
                                }
                                return Result::Err(e);
                            },
                        }
                    },
                }
            },
            Operation::Update => {
                match (&d.old_value, &d.new_value) {
                    (Option::Some(o), Option::Some(n)) => {
                        push_update(&mut staged, d.key.as_str(), d.ordinal, o, n);
                    },
                    _ => {
                        proof {
                            lemma_first_block_error(deltas@, i as int);
                        }
                        return Result::Err(EmitError::MissingValue);
                    },
                }
            },
            _ => {
                proof {
                    lemma_first_block_error(deltas@, i as int);
                }
                return Result::Err(EmitError::UnsupportedOperation);
            },
        }
        proof {
            assert(deltas@.take(i + 1).drop_last() =~= deltas@.take(i as int));
            assert(deltas@.take(i + 1).last() == deltas@[i as int]);
            assert(staged@ =~= block_entries_of(deltas@.take(i + 1)));
        }
        i = i + 1;
    }
    proof {
        assert(deltas@.take(deltas@.len() as int) =~= deltas@);
    }
    changes.entries.append(&mut staged.entries);
    proof {
        assert(changes@ =~= old(changes)@ + block_entries_of(deltas@));
    }
    Result::Ok(())
}

/// Emits the entries of the step's transaction deltas, in delta order,
/// appended to `changes`; aborts on the first delta that cannot be emitted,
/// leaving `changes` unchanged.
pub fn transform_transaction_data_to_database_changes(
    changes: &mut ChangeLog,
    deltas: &Vec<Delta<Transaction>>,
) -> (r: Result<(), EmitError>)
    ensures
        r is Ok <==> transaction_deltas_ok(deltas@),
        r is Ok ==> final(changes)@ == old(changes)@ + transaction_entries_of(deltas@),
        r is Err ==> final(changes)@ == old(changes)@ && transaction_delta_result(
            deltas@[first_transaction_error(deltas@)],
        ) is Err && r->Err_0 == transaction_delta_result(
            deltas@[first_transaction_error(deltas@)],
        )->Err_0,
{
    let mut staged = ChangeLog { entries: Vec::new() };
    proof {
        assert(staged@ =~= transaction_entries_of(deltas@.take(0)));
    }
    let mut i: usize = 0;
    while i < deltas.len()
        invariant
            i <= deltas.len(),
            forall|j: int| 0 <= j < i ==> (#[trigger] transaction_delta_result(deltas@[j])) is Ok,
            staged@ == transaction_entries_of(deltas@.take(i as int)),
        decreases deltas.len() - i,
    {
        let d = &deltas[i];
        match d.operation {
            Operation::Create => {
                match &d.new_value {
                    Option::None => {
                        proof {
                            lemma_first_transaction_error(deltas@, i as int);
                        }
                        return Result::Err(EmitError::MissingValue);
                    },
                    Option::Some(v) => {
                        push_create_transaction(&mut staged, d.key.as_str(), d.ordinal, v);
                    },
                }
            },
            Operation::Update => {
                match (&d.old_value, &d.new_value) {
                    (Option::Some(o), Option::Some(n)) => {
                        push_update_transaction(&mut staged, d.key.as_str(), d.ordinal, o, n);
                    },
                    _ => {
                        proof {
                            lemma_first_transaction_error(deltas@, i as int);
                        }
                        return Result::Err(EmitError::MissingValue);
                    },
                }
            },
            _ => {
                proof {
                    lemma_first_transaction_error(deltas@, i as int);
                }
                return Result::Err(EmitError::UnsupportedOperation);
            },
        }
        proof {
            assert(deltas@.take(i + 1).drop_last() =~= deltas@.take(i as int));
            assert(deltas@.take(i + 1).last() == deltas@[i as int]);
            assert(staged@ =~= transaction_entries_of(deltas@.take(i + 1)));
        }
        i = i + 1;
    }
    proof {
        assert(deltas@.take(deltas@.len() as int) =~= deltas@);
    }
    changes.entries.append(&mut staged.entries);
    proof {
        assert(changes@ =~= old(changes)@ + transaction_entries_of(deltas@));
    }
    Result::Ok(())
}

/// The whole emitting step: the block-meta entries followed by the
/// transaction entries, in delta order within each kind, or the error of
/// the first delta that cannot be emitted — with no change log at all.
pub fn db_out(
    block_meta_start: &Vec<Delta<BlockMeta>>,
    store_transaction_data: &Vec<Delta<Transaction>>,
) -> (r: Result<ChangeLog, EmitError>)
    ensures
        r is Ok <==> block_deltas_ok(block_meta_start@) && transaction_deltas_ok(
            store_transaction_data@,
        ),
        r is Ok ==> (r->Ok_0)@ == block_entries_of(block_meta_start@) + transaction_entries_of(
            store_transaction_data@,
        ),
        !block_deltas_ok(block_meta_start@) ==> r is Err && r->Err_0 == block_delta_result(
            block_meta_start@[first_block_error(block_meta_start@)],
        )->Err_0,
        block_deltas_ok(block_meta_start@) && !transaction_deltas_ok(store_transaction_data@)
            ==> r is Err && r->Err_0 == transaction_delta_result(
            store_transaction_data@[first_transaction_error(store_transaction_data@)],
        )->Err_0,
{
    let mut database_changes = ChangeLog::new();
    match transform_block_meta_to_database_changes(&mut database_changes, block_meta_start) {
        Result::Ok(()) => {},
        Result::Err(e) => {
            return Result::Err(e);
        },
    }
    match transform_transaction_data_to_database_changes(
        &mut database_changes,
        store_transaction_data,
    ) {
        Result::Ok(()) => {},
        Result::Err(e) => {
            return Result::Err(e);
        },
    }
    proof {
        assert(database_changes@ =~= block_entries_of(block_meta_start@)
            + transaction_entries_of(store_transaction_data@));
    }
    Result::Ok(database_changes)
}

} // verus!
