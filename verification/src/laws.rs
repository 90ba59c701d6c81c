//! The laws of the change emitter, stated and proved over the same spec
//! functions its contracts use.

use crate::changes::block_delta_result;
use crate::changes::block_deltas_ok;
use crate::changes::block_entries_of;
use crate::changes::block_meta_create_cols;
use crate::changes::block_meta_create_columns;
use crate::changes::block_meta_update_cols;
use crate::changes::block_meta_update_columns;
use crate::changes::transaction_create_cols;
use crate::changes::transaction_create_columns;
use crate::changes::transaction_delta_result;
use crate::changes::transaction_deltas_ok;
use crate::changes::transaction_update_cols;
use crate::changes::transaction_update_columns;
use crate::changes::ChangeEntryView;
use crate::model::BlockMeta;
use crate::model::BlockMetaView;
use crate::model::Delta;
use crate::model::EmitError;
use crate::model::Transaction;
use crate::model::TransactionView;
use crate::timestamp::at_of_key;
use crate::timestamp::date_chars;
use crate::timestamp::day_key_chars;
use crate::timestamp::month_key_chars;
use crate::timestamp::BlockTimestamp;
use vstd::prelude::*;

verus! {

/// A create entry names every tracked column, in declared order, and the
/// old value of every one of them is truly absent.
pub proof fn lemma_block_meta_create_old_values_absent(at: Seq<char>, v: BlockMetaView)
    ensures
        block_meta_create_cols(at, v).len() == block_meta_create_columns().len(),
        forall|i: int|
            0 <= i < block_meta_create_cols(at, v).len() ==> (#[trigger] block_meta_create_cols(
                at,
                v,
            )[i]).old_value is None && block_meta_create_cols(at, v)[i].column
                == block_meta_create_columns()[i],
{
}

/// A transaction create entry names every tracked column, in declared
/// order, and every old value is truly absent.
pub proof fn lemma_transaction_create_old_values_absent(v: TransactionView)
    ensures
        transaction_create_cols(v).len() == transaction_create_columns().len(),
        forall|i: int|
            0 <= i < transaction_create_cols(v).len() ==> (#[trigger] transaction_create_cols(
                v,
            )[i]).old_value is None && transaction_create_cols(v)[i].column
                == transaction_create_columns()[i],
{
}

/// An update entry carries exactly the tracked-column list, in declared
/// order, each column with both its old and its new value present.
pub proof fn lemma_block_meta_update_columns_tracked(o: BlockMetaView, n: BlockMetaView)
    ensures
        block_meta_update_cols(o, n).len() == block_meta_update_columns().len(),
        forall|i: int|
            0 <= i < block_meta_update_cols(o, n).len() ==> (#[trigger] block_meta_update_cols(
                o,
                n,
            )[i]).old_value is Some && block_meta_update_cols(o, n)[i].column
                == block_meta_update_columns()[i],
{
}

/// A transaction update entry carries exactly the tracked-column list, in
/// declared order, each column with both values present.
pub proof fn lemma_transaction_update_columns_tracked(o: TransactionView, n: TransactionView)
    ensures
        transaction_update_cols(o, n).len() == transaction_update_columns().len(),
        forall|i: int|
            0 <= i < transaction_update_cols(o, n).len() ==> (#[trigger] transaction_update_cols(
                o,
                n,
            )[i]).old_value is Some && transaction_update_cols(o, n)[i].column
                == transaction_update_columns()[i],
{
}

/// A create followed by an update of the same key emits two entries, in
/// that same order, each carrying the key and the operation of its delta.
pub proof fn lemma_create_then_update_in_order(d1: Delta<BlockMeta>, d2: Delta<BlockMeta>)
    requires
        d1.key@ == d2.key@,
        d1.operation is Create,
        d2.operation is Update,
        block_delta_result(d1) is Ok,
        block_delta_result(d2) is Ok,
    ensures
        block_deltas_ok(seq![d1, d2]),
        block_entries_of(seq![d1, d2]).len() == 2,
        block_entries_of(seq![d1, d2])[0] == block_delta_result(d1)->Ok_0,
        block_entries_of(seq![d1, d2])[1] == block_delta_result(d2)->Ok_0,
        block_entries_of(seq![d1, d2])[0].operation is Create,
        block_entries_of(seq![d1, d2])[1].operation is Update,
        block_entries_of(seq![d1, d2])[0].key == d1.key@,
        block_entries_of(seq![d1, d2])[1].key == d1.key@,
        block_entries_of(seq![d1, d2])[0].ordinal == d1.ordinal,
        block_entries_of(seq![d1, d2])[1].ordinal == d2.ordinal,
{
    let s = seq![d1, d2];
    assert(s[0] == d1);
    assert(s[1] == d2);
    assert(block_deltas_ok(s)) by {
        assert(forall|i: int| 0 <= i < 2 ==> (#[trigger] block_delta_result(s[i])) is Ok) by {
            assert(block_delta_result(s[0]) is Ok);
            assert(block_delta_result(s[1]) is Ok);
        }
    }
}

/// Two create deltas with distinct keys but the same record content and the
/// same recovered date emit two independent entries: identical column
/// values, different keys — no deduplication.
pub proof fn lemma_distinct_keys_not_deduplicated(d1: Delta<BlockMeta>, d2: Delta<BlockMeta>)
    requires
        d1.key@ != d2.key@,
        d1.operation is Create,
        d2.operation is Create,
        block_delta_result(d1) is Ok,
        block_delta_result(d2) is Ok,
        (d1.new_value->0)@ == (d2.new_value->0)@,
        at_of_key(d1.key@) == at_of_key(d2.key@),
    ensures
        block_entries_of(seq![d1, d2]).len() == 2,
        block_entries_of(seq![d1, d2])[0].columns == block_entries_of(seq![d1, d2])[1].columns,
        block_entries_of(seq![d1, d2])[0].key != block_entries_of(seq![d1, d2])[1].key,
{
    let s = seq![d1, d2];
    assert(s[0] == d1);
    assert(s[1] == d2);
}

/// The day key and the month key of a date on the first of its month
/// recover the same "at" value: the rendered date itself.
pub proof fn lemma_day_and_month_keys_share_at(t: BlockTimestamp)
    requires
        t.day == 1,
    ensures
        at_of_key(day_key_chars(t)) == Option::Some(date_chars(t)),
        at_of_key(month_key_chars(t)) == Option::Some(date_chars(t)),
{
    let dk = day_key_chars(t);
    assert(dk.subrange(4, dk.len() as int) =~= date_chars(t));
    let mk = month_key_chars(t);
    assert(crate::numfmt::dec_chars(1) == seq![crate::numfmt::dec_digit(1)]);
    assert(mk.subrange(6, mk.len() as int) + seq!['-', '0', '1'] =~= date_chars(t));
}

/// A Delete, or any unrecognized operation, anywhere in the step's deltas
/// makes the whole step abort: with the emitter's contract, no entry of
/// that step is handed out.
pub proof fn lemma_unsupported_operation_aborts_block_meta(s: Seq<Delta<BlockMeta>>, i: int)
    requires
        0 <= i < s.len(),
        !(s[i].operation is Create),
        !(s[i].operation is Update),
    ensures
        !block_deltas_ok(s),
        block_delta_result(s[i]) == Result::<ChangeEntryView, EmitError>::Err(
            EmitError::UnsupportedOperation,
        ),
{
}

/// A Delete, or any unrecognized operation, among the transaction deltas
/// aborts the step the same way.
pub proof fn lemma_unsupported_operation_aborts_transactions(s: Seq<Delta<Transaction>>, i: int)
    requires
        0 <= i < s.len(),
        !(s[i].operation is Create),
        !(s[i].operation is Update),
    ensures
        !transaction_deltas_ok(s),
        transaction_delta_result(s[i]) == Result::<ChangeEntryView, EmitError>::Err(
            EmitError::UnsupportedOperation,
        ),
{
}

} // verus!
