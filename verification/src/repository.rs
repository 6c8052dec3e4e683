//! The reconciliation contract: an in-memory model of the keyed store the
//! canonical batches are persisted into. An incoming record whose natural
//! key — (operation source, external id) — already has a row overwrites
//! every mutable field of that row (the owning portfolio stays); a record
//! without an external id (a manual entry) always becomes a fresh row.
//!
//! The upsert laws are proved here: re-ingesting an unchanged batch leaves
//! the store unchanged (so no duplicate rows ever appear), and re-ingesting
//! a batch with one changed field refreshes that field in place.

use vstd::prelude::*;
use crate::fiscal_transaction::{InsertFiscalTransaction, InsertFiscalTransactionV};
use crate::model::{BrokerType, OperationSource};
use crate::trade_operation::{InsertTradeOperation, InsertTradeOperationV};

verus! {

/// The deduplication identity of a broker-sourced record.
pub type NaturalKey = (OperationSource, Seq<char>);

// ---- the upsert calculus, over any row type with a key and a merge

/// The first row with the key, if any.
pub open spec fn spec_find_by<T>(rows: Seq<T>, keyf: spec_fn(T) -> Option<NaturalKey>, k: NaturalKey) -> Option<int>
    decreases rows.len(),
{
    if rows.len() == 0 {
        None
    } else if keyf(rows[0]) == Some(k) {
        Some(0int)
    } else {
        match spec_find_by(rows.drop_first(), keyf, k) {
            Some(i) => Some(i + 1),
            None => None,
        }
    }
}

/// One record reconciled into the rows: keyless records append; a keyed
/// record overwrites the row with its key, or appends when the key is new.
pub open spec fn spec_upsert_by<T>(
    rows: Seq<T>,
    keyf: spec_fn(T) -> Option<NaturalKey>,
    mergef: spec_fn(T, T) -> T,
    rec: T,
) -> Seq<T> {
    match keyf(rec) {
        None => rows.push(rec),
        Some(k) => match spec_find_by(rows, keyf, k) {
            None => rows.push(rec),
            Some(i) => rows.update(i, mergef(rows[i], rec)),
        },
    }
}

/// A whole batch reconciled in order; within one batch a later record with
/// the same key overwrites the earlier one's fields (last write wins).
pub open spec fn spec_upsert_batch_by<T>(
    rows: Seq<T>,
    keyf: spec_fn(T) -> Option<NaturalKey>,
    mergef: spec_fn(T, T) -> T,
    batch: Seq<T>,
) -> Seq<T>
    decreases batch.len(),
{
    if batch.len() == 0 {
        rows
    } else {
        spec_upsert_by(
            spec_upsert_batch_by(rows, keyf, mergef, batch.drop_last()),
            keyf,
            mergef,
            batch.last(),
        )
    }
}

/// What `spec_find_by` returns: the first index with the key.
pub proof fn lemma_find_by_props<T>(rows: Seq<T>, keyf: spec_fn(T) -> Option<NaturalKey>, k: NaturalKey)
    ensures
        match spec_find_by(rows, keyf, k) {
            Some(i) => 0 <= i < rows.len() && keyf(rows[i]) == Some(k) && forall|j: int|
                0 <= j < i ==> keyf(#[trigger] rows[j]) != Some(k),
            None => forall|j: int| 0 <= j < rows.len() ==> keyf(#[trigger] rows[j]) != Some(k),
        },
    decreases rows.len(),
{
    if rows.len() > 0 {
        lemma_find_by_props(rows.drop_first(), keyf, k);
        if keyf(rows[0]) == Some(k) {
        } else {
            assert(forall|j: int|
                1 <= j < rows.len() ==> #[trigger] rows[j] == rows.drop_first()[j - 1]);
        }
    }
}

/// The first index with the key, from a witness.
pub proof fn lemma_find_by_at<T>(
    rows: Seq<T>,
    keyf: spec_fn(T) -> Option<NaturalKey>,
    k: NaturalKey,
    p: int,
)
    requires
        0 <= p <= rows.len(),
        forall|j: int| 0 <= j < p ==> keyf(#[trigger] rows[j]) != Some(k),
        p < rows.len() ==> keyf(rows[p]) == Some(k),
    ensures
        spec_find_by(rows, keyf, k) == if p < rows.len() {
            Some(p)
        } else {
            None::<int>
        },
    decreases p,
{
    if rows.len() == 0 {
    } else if p == 0 {
    } else {
        assert(forall|j: int|
            0 <= j < rows.drop_first().len() ==> #[trigger] rows.drop_first()[j] == rows[j + 1]);
        lemma_find_by_at(rows.drop_first(), keyf, k, p - 1);
    }
}

/// One reconciliation is a no-op on a store whose first matching row
/// already carries the record's fields.
proof fn lemma_upsert_by_stable<T>(
    rows: Seq<T>,
    keyf: spec_fn(T) -> Option<NaturalKey>,
    mergef: spec_fn(T, T) -> T,
    rec: T,
)
    requires
        keyf(rec) is Some,
        spec_find_by(rows, keyf, keyf(rec)->Some_0) is Some,
        ({
            let i = spec_find_by(rows, keyf, keyf(rec)->Some_0)->Some_0;
            mergef(rows[i], rec) == rows[i]
        }),
    ensures
        spec_upsert_by(rows, keyf, mergef, rec) == rows,
{
    let k = keyf(rec)->Some_0;
    lemma_find_by_props(rows, keyf, k);
    let i = spec_find_by(rows, keyf, k)->Some_0;
    assert(spec_upsert_by(rows, keyf, mergef, rec) =~= rows.update(i, mergef(rows[i], rec)));
    assert(rows.update(i, rows[i]) =~= rows);
}

/// Whether the store already carries the record: its key's first row merges
/// to itself.
pub open spec fn spec_reflects<T>(
    rows: Seq<T>,
    keyf: spec_fn(T) -> Option<NaturalKey>,
    mergef: spec_fn(T, T) -> T,
    rec: T,
) -> bool {
    &&& keyf(rec) is Some
    &&& spec_find_by(rows, keyf, keyf(rec)->Some_0) is Some
    &&& ({
        let i = spec_find_by(rows, keyf, keyf(rec)->Some_0)->Some_0;
        mergef(rows[i], rec) == rows[i]
    })
}

/// Reconciling a whole batch that the store already carries changes
/// nothing.
proof fn lemma_upsert_batch_stable<T>(
    rows: Seq<T>,
    keyf: spec_fn(T) -> Option<NaturalKey>,
    mergef: spec_fn(T, T) -> T,
    batch: Seq<T>,
)
    requires
        forall|m: int| 0 <= m < batch.len() ==> spec_reflects(rows, keyf, mergef, #[trigger] batch[m]),
    ensures
        spec_upsert_batch_by(rows, keyf, mergef, batch) == rows,
    decreases batch.len(),
{
    if batch.len() > 0 {
        assert(forall|m: int|
            0 <= m < batch.drop_last().len() ==> #[trigger] batch.drop_last()[m] == batch[m]);
        lemma_upsert_batch_stable(rows, keyf, mergef, batch.drop_last());
        assert(batch.last() == batch[batch.len() - 1]);
        lemma_upsert_by_stable(rows, keyf, mergef, batch.last());
    }
}

/// After one record is reconciled, the store carries it; rows under other
/// keys are untouched.
proof fn lemma_upsert_by_establishes<T>(
    rows: Seq<T>,
    keyf: spec_fn(T) -> Option<NaturalKey>,
    mergef: spec_fn(T, T) -> T,
    rec: T,
)
    requires
        keyf(rec) is Some,
        forall|x: T, y: T| keyf(#[trigger] mergef(x, y)) == keyf(y),
        forall|x: T, y: T| #[trigger] mergef(mergef(x, y), y) == mergef(x, y),
        forall|x: T| #[trigger] mergef(x, x) == x,
    ensures
        spec_reflects(spec_upsert_by(rows, keyf, mergef, rec), keyf, mergef, rec),
        forall|other: T|
            spec_reflects(rows, keyf, mergef, other) && keyf(other) != keyf(rec)
                ==> spec_reflects(
                #[trigger] spec_upsert_by(rows, keyf, mergef, rec),
                keyf,
                mergef,
                other,
            ),
{
    let k = keyf(rec)->Some_0;
    lemma_find_by_props(rows, keyf, k);
    let u = spec_upsert_by(rows, keyf, mergef, rec);
    match spec_find_by(rows, keyf, k) {
        Some(i) => {
            assert(u == rows.update(i, mergef(rows[i], rec)));
            assert(keyf(u[i]) == Some(k));
            assert(forall|j: int| 0 <= j < i ==> keyf(#[trigger] u[j]) != Some(k));
            lemma_find_by_at(u, keyf, k, i);
            assert(mergef(u[i], rec) == u[i]);
        },
        None => {
            assert(u == rows.push(rec));
            assert(forall|j: int|
                0 <= j < rows.len() ==> keyf(#[trigger] u[j]) != Some(k));
            assert(keyf(u[rows.len() as int]) == Some(k));
            lemma_find_by_at(u, keyf, k, rows.len() as int);
            assert(mergef(rec, rec) == rec);
        },
    }
    assert forall|other: T|
        spec_reflects(rows, keyf, mergef, other) && keyf(other) != keyf(rec) implies spec_reflects(
        u,
        keyf,
        mergef,
        other,
    ) by {
        let ko = keyf(other)->Some_0;
        lemma_find_by_props(rows, keyf, ko);
        let p = spec_find_by(rows, keyf, ko)->Some_0;
        match spec_find_by(rows, keyf, k) {
            Some(i) => {
                assert(keyf(u[p]) == Some(ko));
                assert(forall|j: int| 0 <= j < p ==> keyf(#[trigger] u[j]) != Some(ko));
                lemma_find_by_at(u, keyf, k, i);
                assert(i != p);
                assert(u[p] == rows[p]);
                lemma_find_by_at(u, keyf, ko, p);
            },
            None => {
                assert(u[p] == rows[p]);
                assert(forall|j: int| 0 <= j < p ==> keyf(#[trigger] u[j]) != Some(ko));
                lemma_find_by_at(u, keyf, ko, p);
            },
        }
    }
}

/// After a batch with pairwise distinct keys is reconciled, the store
/// carries every record of it.
proof fn lemma_upsert_batch_establishes<T>(
    rows: Seq<T>,
    keyf: spec_fn(T) -> Option<NaturalKey>,
    mergef: spec_fn(T, T) -> T,
    batch: Seq<T>,
)
    requires
        forall|m: int| 0 <= m < batch.len() ==> keyf(#[trigger] batch[m]) is Some,
        forall|m: int, n: int|
            0 <= m < n < batch.len() ==> keyf(batch[m]) != keyf(batch[n]),
        forall|x: T, y: T| keyf(#[trigger] mergef(x, y)) == keyf(y),
        forall|x: T, y: T| #[trigger] mergef(mergef(x, y), y) == mergef(x, y),
        forall|x: T| #[trigger] mergef(x, x) == x,
    ensures
        forall|m: int|
            0 <= m < batch.len() ==> spec_reflects(
                spec_upsert_batch_by(rows, keyf, mergef, batch),
                keyf,
                mergef,
                #[trigger] batch[m],
            ),
    decreases batch.len(),
{
    if batch.len() > 0 {
        let dl = batch.drop_last();
        assert(forall|m: int| 0 <= m < dl.len() ==> #[trigger] dl[m] == batch[m]);
        lemma_upsert_batch_establishes(rows, keyf, mergef, dl);
        let u1 = spec_upsert_batch_by(rows, keyf, mergef, dl);
        let last = batch.last();
        assert(last == batch[batch.len() - 1]);
        lemma_upsert_by_establishes(u1, keyf, mergef, last);
        let u = spec_upsert_batch_by(rows, keyf, mergef, batch);
        assert(u == spec_upsert_by(u1, keyf, mergef, last));
        assert forall|m: int| 0 <= m < batch.len() implies spec_reflects(
            u,
            keyf,
            mergef,
            #[trigger] batch[m],
        ) by {
            if m < batch.len() - 1 {
                assert(dl[m] == batch[m]);
                assert(spec_reflects(u1, keyf, mergef, dl[m]));
                assert(keyf(batch[m]) != keyf(last));
                assert(spec_reflects(
                    spec_upsert_by(u1, keyf, mergef, last),
                    keyf,
                    mergef,
                    batch[m],
                ));
            } else {
                assert(batch[m] == last);
            }
        }
    }
}

/// Reconciling the same batch twice is the same as reconciling it once:
/// the second pass leaves the store unchanged.
pub proof fn lemma_upsert_batch_idempotent<T>(
    rows: Seq<T>,
    keyf: spec_fn(T) -> Option<NaturalKey>,
    mergef: spec_fn(T, T) -> T,
    batch: Seq<T>,
)
    requires
        forall|m: int| 0 <= m < batch.len() ==> keyf(#[trigger] batch[m]) is Some,
        forall|m: int, n: int|
            0 <= m < n < batch.len() ==> keyf(batch[m]) != keyf(batch[n]),
        forall|x: T, y: T| keyf(#[trigger] mergef(x, y)) == keyf(y),
        forall|x: T, y: T| #[trigger] mergef(mergef(x, y), y) == mergef(x, y),
        forall|x: T| #[trigger] mergef(x, x) == x,
    ensures
        spec_upsert_batch_by(
            spec_upsert_batch_by(rows, keyf, mergef, batch),
            keyf,
            mergef,
            batch,
        ) == spec_upsert_batch_by(rows, keyf, mergef, batch),
{
    lemma_upsert_batch_establishes(rows, keyf, mergef, batch);
    lemma_upsert_batch_stable(spec_upsert_batch_by(rows, keyf, mergef, batch), keyf, mergef, batch);
}

proof fn lemma_find_by_pointwise<T>(
    rows1: Seq<T>,
    rows2: Seq<T>,
    keyf: spec_fn(T) -> Option<NaturalKey>,
    k: NaturalKey,
)
    requires
        rows1.len() == rows2.len(),
        forall|j: int| 0 <= j < rows1.len() ==> keyf(#[trigger] rows1[j]) == keyf(rows2[j]),
    ensures
        spec_find_by(rows1, keyf, k) == spec_find_by(rows2, keyf, k),
    decreases rows1.len(),
{
    if rows1.len() > 0 {
        assert(forall|j: int|
            0 <= j < rows1.drop_first().len() ==> keyf(#[trigger] rows1.drop_first()[j]) == keyf(
                rows2.drop_first()[j],
            )) by {
            assert(forall|j: int|
                0 <= j < rows1.drop_first().len() ==> #[trigger] rows1.drop_first()[j] == rows1[
                    j + 1
                ] && rows2.drop_first()[j] == rows2[j + 1]);
        }
        lemma_find_by_pointwise(rows1.drop_first(), rows2.drop_first(), keyf, k);
    }
}

/// Reconciling one record whose key is already present changes no row
/// count and no key: the row is overwritten in place.
proof fn lemma_upsert_by_in_place<T>(
    rows: Seq<T>,
    keyf: spec_fn(T) -> Option<NaturalKey>,
    mergef: spec_fn(T, T) -> T,
    rec: T,
)
    requires
        keyf(rec) is Some,
        spec_find_by(rows, keyf, keyf(rec)->Some_0) is Some,
        forall|x: T, y: T| keyf(#[trigger] mergef(x, y)) == keyf(y),
    ensures
        spec_upsert_by(rows, keyf, mergef, rec).len() == rows.len(),
        forall|j: int|
            0 <= j < rows.len() ==> keyf(#[trigger] spec_upsert_by(rows, keyf, mergef, rec)[j])
                == keyf(rows[j]),
{
    let k = keyf(rec)->Some_0;
    lemma_find_by_props(rows, keyf, k);
    let i = spec_find_by(rows, keyf, k)->Some_0;
    let u = spec_upsert_by(rows, keyf, mergef, rec);
    assert(u == rows.update(i, mergef(rows[i], rec)));
    assert(keyf(u[i]) == keyf(rec));
    assert(keyf(rows[i]) == Some(k));
}

/// Reconciling a batch whose keys are all already present adds no row: the
/// whole batch is a field-level overwrite in place.
pub proof fn lemma_upsert_batch_in_place<T>(
    rows: Seq<T>,
    keyf: spec_fn(T) -> Option<NaturalKey>,
    mergef: spec_fn(T, T) -> T,
    batch: Seq<T>,
)
    requires
        forall|m: int| 0 <= m < batch.len() ==> keyf(#[trigger] batch[m]) is Some,
        forall|m: int|
            0 <= m < batch.len() ==> spec_find_by(rows, keyf, keyf(#[trigger] batch[m])->Some_0)
                is Some,
        forall|x: T, y: T| keyf(#[trigger] mergef(x, y)) == keyf(y),
    ensures
        spec_upsert_batch_by(rows, keyf, mergef, batch).len() == rows.len(),
        forall|j: int|
            0 <= j < rows.len() ==> keyf(
                #[trigger] spec_upsert_batch_by(rows, keyf, mergef, batch)[j],
            ) == keyf(rows[j]),
    decreases batch.len(),
{
    if batch.len() > 0 {
        let dl = batch.drop_last();
        assert(forall|m: int| 0 <= m < dl.len() ==> #[trigger] dl[m] == batch[m]);
        lemma_upsert_batch_in_place(rows, keyf, mergef, dl);
        let u1 = spec_upsert_batch_by(rows, keyf, mergef, dl);
        let last = batch.last();
        assert(last == batch[batch.len() - 1]);
        let k = keyf(last)->Some_0;
        lemma_find_by_pointwise(u1, rows, keyf, k);
        lemma_upsert_by_in_place(u1, keyf, mergef, last);
        assert(forall|j: int|
            0 <= j < rows.len() ==> keyf(
                #[trigger] spec_upsert_by(u1, keyf, mergef, last)[j],
            ) == keyf(u1[j]));
    }
}

// ---- the concrete store

/// The natural key of a trade row.
pub open spec fn trade_key(r: InsertTradeOperationV) -> Option<NaturalKey> {
    match r.trade_operation.external_id {
        Some(e) => Some((r.trade_operation.operation_source, e)),
        None => None,
    }
}

/// The natural key of a fiscal row.
pub open spec fn fiscal_key(r: InsertFiscalTransactionV) -> Option<NaturalKey> {
    match r.fiscal_transaction.external_id {
        Some(e) => Some((r.fiscal_transaction.operation_source, e)),
        None => None,
    }
}

/// A conflicting trade row after the overwrite: every mutable field takes
/// the incoming value; the owning portfolio stays.
pub open spec fn merge_trade(
    old: InsertTradeOperationV,
    new: InsertTradeOperationV,
) -> InsertTradeOperationV {
    InsertTradeOperationV {
        portfolio_id: old.portfolio_id,
        report_upload_id: new.report_upload_id,
        trade_operation: new.trade_operation,
    }
}

/// A conflicting fiscal row after the overwrite.
pub open spec fn merge_fiscal(
    old: InsertFiscalTransactionV,
    new: InsertFiscalTransactionV,
) -> InsertFiscalTransactionV {
    InsertFiscalTransactionV {
        portfolio_id: old.portfolio_id,
        report_upload_id: new.report_upload_id,
        fiscal_transaction: new.fiscal_transaction,
    }
}

pub open spec fn trade_keyf() -> spec_fn(InsertTradeOperationV) -> Option<NaturalKey> {
    |r: InsertTradeOperationV| trade_key(r)
}

pub open spec fn trade_mergef() -> spec_fn(
    InsertTradeOperationV,
    InsertTradeOperationV,
) -> InsertTradeOperationV {
    |o: InsertTradeOperationV, n: InsertTradeOperationV| merge_trade(o, n)
}

pub open spec fn fiscal_keyf() -> spec_fn(InsertFiscalTransactionV) -> Option<NaturalKey> {
    |r: InsertFiscalTransactionV| fiscal_key(r)
}

pub open spec fn fiscal_mergef() -> spec_fn(
    InsertFiscalTransactionV,
    InsertFiscalTransactionV,
) -> InsertFiscalTransactionV {
    |o: InsertFiscalTransactionV, n: InsertFiscalTransactionV| merge_fiscal(o, n)
}

/// The store after one trade batch.
pub open spec fn spec_upsert_trades(
    rows: Seq<InsertTradeOperationV>,
    batch: Seq<InsertTradeOperationV>,
) -> Seq<InsertTradeOperationV> {
    spec_upsert_batch_by(rows, trade_keyf(), trade_mergef(), batch)
}

/// The store after one fiscal batch.
pub open spec fn spec_upsert_fiscals(
    rows: Seq<InsertFiscalTransactionV>,
    batch: Seq<InsertFiscalTransactionV>,
) -> Seq<InsertFiscalTransactionV> {
    spec_upsert_batch_by(rows, fiscal_keyf(), fiscal_mergef(), batch)
}

/// Round-trip identity for trades: reconciling an unchanged trade batch a
/// second time changes nothing — in particular, no duplicate rows appear
/// and the row count stays the same. The batch's records carry external
/// ids, pairwise distinct, as every decoded export batch does.
pub proof fn lemma_trade_reingest_identity(
    rows: Seq<InsertTradeOperationV>,
    batch: Seq<InsertTradeOperationV>,
)
    requires
        forall|m: int| 0 <= m < batch.len() ==> trade_key(#[trigger] batch[m]) is Some,
        forall|m: int, n: int|
            0 <= m < n < batch.len() ==> trade_key(batch[m]) != trade_key(batch[n]),
    ensures
        spec_upsert_trades(spec_upsert_trades(rows, batch), batch) == spec_upsert_trades(
            rows,
            batch,
        ),
{
    let keyf = trade_keyf();
    let mergef = trade_mergef();
    assert(forall|m: int| 0 <= m < batch.len() ==> keyf(#[trigger] batch[m]) is Some);
    assert(forall|m: int, n: int|
        0 <= m < n < batch.len() ==> keyf(batch[m]) != keyf(batch[n]));
    assert(forall|x: InsertTradeOperationV, y: InsertTradeOperationV|
        keyf(#[trigger] mergef(x, y)) == keyf(y));
    assert(forall|x: InsertTradeOperationV, y: InsertTradeOperationV|
        #[trigger] mergef(mergef(x, y), y) == mergef(x, y));
    assert(forall|x: InsertTradeOperationV| #[trigger] mergef(x, x) == x);
    lemma_upsert_batch_idempotent(rows, keyf, mergef, batch);
}

/// Round-trip identity for fiscal events.
pub proof fn lemma_fiscal_reingest_identity(
    rows: Seq<InsertFiscalTransactionV>,
    batch: Seq<InsertFiscalTransactionV>,
)
    requires
        forall|m: int| 0 <= m < batch.len() ==> fiscal_key(#[trigger] batch[m]) is Some,
        forall|m: int, n: int|
            0 <= m < n < batch.len() ==> fiscal_key(batch[m]) != fiscal_key(batch[n]),
    ensures
        spec_upsert_fiscals(spec_upsert_fiscals(rows, batch), batch) == spec_upsert_fiscals(
            rows,
            batch,
        ),
{
    let keyf = fiscal_keyf();
    let mergef = fiscal_mergef();
    assert(forall|m: int| 0 <= m < batch.len() ==> keyf(#[trigger] batch[m]) is Some);
    assert(forall|m: int, n: int|
        0 <= m < n < batch.len() ==> keyf(batch[m]) != keyf(batch[n]));
    assert(forall|x: InsertFiscalTransactionV, y: InsertFiscalTransactionV|
        keyf(#[trigger] mergef(x, y)) == keyf(y));
    assert(forall|x: InsertFiscalTransactionV, y: InsertFiscalTransactionV|
        #[trigger] mergef(mergef(x, y), y) == mergef(x, y));
    assert(forall|x: InsertFiscalTransactionV| #[trigger] mergef(x, x) == x);
    lemma_upsert_batch_idempotent(rows, keyf, mergef, batch);
}

/// Field refresh for trades: a record whose natural key already has a row
/// overwrites that row's mutable fields in place — same row count, no new
/// row, every other row untouched.
pub proof fn lemma_trade_field_refresh(rows: Seq<InsertTradeOperationV>, rec: InsertTradeOperationV)
    requires
        trade_key(rec) is Some,
        spec_find_by(rows, trade_keyf(), trade_key(rec)->Some_0) is Some,
    ensures
        ({
            let i = spec_find_by(rows, trade_keyf(), trade_key(rec)->Some_0)->Some_0;
            let u = spec_upsert_trades(rows, seq![rec]);
            &&& u.len() == rows.len()
            &&& u[i] == merge_trade(rows[i], rec)
            &&& forall|j: int| 0 <= j < rows.len() && j != i ==> u[j] == rows[j]
        }),
{
    let keyf = trade_keyf();
    let mergef = trade_mergef();
    let k = trade_key(rec)->Some_0;
    lemma_find_by_props(rows, keyf, k);
    let b = seq![rec];
    assert(b.drop_last() =~= Seq::<InsertTradeOperationV>::empty());
    assert(spec_upsert_batch_by(rows, keyf, mergef, b.drop_last()) == rows);
    assert(spec_upsert_trades(rows, b) == spec_upsert_by(rows, keyf, mergef, rec));
}

/// Field refresh for fiscal events.
pub proof fn lemma_fiscal_field_refresh(
    rows: Seq<InsertFiscalTransactionV>,
    rec: InsertFiscalTransactionV,
)
    requires
        fiscal_key(rec) is Some,
        spec_find_by(rows, fiscal_keyf(), fiscal_key(rec)->Some_0) is Some,
    ensures
        ({
            let i = spec_find_by(rows, fiscal_keyf(), fiscal_key(rec)->Some_0)->Some_0;
            let u = spec_upsert_fiscals(rows, seq![rec]);
            &&& u.len() == rows.len()
            &&& u[i] == merge_fiscal(rows[i], rec)
            &&& forall|j: int| 0 <= j < rows.len() && j != i ==> u[j] == rows[j]
        }),
{
    let keyf = fiscal_keyf();
    let mergef = fiscal_mergef();
    let k = fiscal_key(rec)->Some_0;
    lemma_find_by_props(rows, keyf, k);
    let b = seq![rec];
    assert(b.drop_last() =~= Seq::<InsertFiscalTransactionV>::empty());
    assert(spec_upsert_batch_by(rows, keyf, mergef, b.drop_last()) == rows);
    assert(spec_upsert_fiscals(rows, b) == spec_upsert_by(rows, keyf, mergef, rec));
}

/// Field refresh for a whole trade batch: when every record's natural key
/// already has a row, reconciling the batch overwrites fields in place and
/// the row count does not change.
pub proof fn lemma_trade_batch_refreshes_in_place(
    rows: Seq<InsertTradeOperationV>,
    batch: Seq<InsertTradeOperationV>,
)
    requires
        forall|m: int| 0 <= m < batch.len() ==> trade_key(#[trigger] batch[m]) is Some,
        forall|m: int|
            0 <= m < batch.len() ==> spec_find_by(
                rows,
                trade_keyf(),
                trade_key(#[trigger] batch[m])->Some_0,
            ) is Some,
    ensures
        spec_upsert_trades(rows, batch).len() == rows.len(),
{
    let keyf = trade_keyf();
    let mergef = trade_mergef();
    assert(forall|m: int| 0 <= m < batch.len() ==> keyf(#[trigger] batch[m]) is Some);
    assert(forall|m: int|
        0 <= m < batch.len() ==> spec_find_by(rows, keyf, keyf(#[trigger] batch[m])->Some_0)
            is Some);
    assert(forall|x: InsertTradeOperationV, y: InsertTradeOperationV|
        keyf(#[trigger] mergef(x, y)) == keyf(y));
    lemma_upsert_batch_in_place(rows, keyf, mergef, batch);
}

/// Field refresh for a whole fiscal batch.
pub proof fn lemma_fiscal_batch_refreshes_in_place(
    rows: Seq<InsertFiscalTransactionV>,
    batch: Seq<InsertFiscalTransactionV>,
)
    requires
        forall|m: int| 0 <= m < batch.len() ==> fiscal_key(#[trigger] batch[m]) is Some,
        forall|m: int|
            0 <= m < batch.len() ==> spec_find_by(
                rows,
                fiscal_keyf(),
                fiscal_key(#[trigger] batch[m])->Some_0,
            ) is Some,
    ensures
        spec_upsert_fiscals(rows, batch).len() == rows.len(),
{
    let keyf = fiscal_keyf();
    let mergef = fiscal_mergef();
    assert(forall|m: int| 0 <= m < batch.len() ==> keyf(#[trigger] batch[m]) is Some);
    assert(forall|m: int|
        0 <= m < batch.len() ==> spec_find_by(rows, keyf, keyf(#[trigger] batch[m])->Some_0)
            is Some);
    assert(forall|x: InsertFiscalTransactionV, y: InsertFiscalTransactionV|
        keyf(#[trigger] mergef(x, y)) == keyf(y));
    lemma_upsert_batch_in_place(rows, keyf, mergef, batch);
}

/// A row of the upload registry.
#[derive(Clone, PartialEq, Debug)]
pub struct ReportUpload {
    /// The collaborator-assigned id the upload goes by.
    pub id: String,
    pub upload: crate::report::InsertReportUpload,
}

#[verifier::ext_equal]
pub struct ReportUploadV {
    pub id: Seq<char>,
    pub upload: crate::report::InsertReportUploadV,
}

impl View for ReportUpload {
    type V = ReportUploadV;

    open spec fn view(&self) -> ReportUploadV {
        ReportUploadV { id: self.id@, upload: self.upload@ }
    }
}

/// The in-memory model of the persistence collaborator: the upload
/// registry and the two keyed row sets.
pub struct CommonRepository {
    pub report_uploads: Vec<ReportUpload>,
    pub trade_operations: Vec<InsertTradeOperation>,
    pub fiscal_transactions: Vec<InsertFiscalTransaction>,
}

#[verifier::ext_equal]
pub struct CommonRepositoryV {
    pub report_uploads: Seq<ReportUploadV>,
    pub trade_operations: Seq<InsertTradeOperationV>,
    pub fiscal_transactions: Seq<InsertFiscalTransactionV>,
}

impl View for CommonRepository {
    type V = CommonRepositoryV;

    open spec fn view(&self) -> CommonRepositoryV {
        CommonRepositoryV {
            report_uploads: self.report_uploads@.map_values(|r: ReportUpload| r@),
            trade_operations: self.trade_operations@.map_values(|r: InsertTradeOperation| r@),
            fiscal_transactions: self.fiscal_transactions@.map_values(
                |r: InsertFiscalTransaction| r@,
            ),
        }
    }
}

/// Whether a trade row carries the given natural key.
fn trade_row_matches(row: &InsertTradeOperation, src: OperationSource, ext: &String) -> (r: bool)
    ensures
        r == (trade_key(row@) == Some((src, ext@))),
{
    match &row.trade_operation.external_id {
        Some(e) => row.trade_operation.operation_source == src && crate::text::str_eq(e.as_str(), ext.as_str()),
        None => false,
    }
}

/// Whether a fiscal row carries the given natural key.
fn fiscal_row_matches(row: &InsertFiscalTransaction, src: OperationSource, ext: &String) -> (r:
    bool)
    ensures
        r == (fiscal_key(row@) == Some((src, ext@))),
{
    match &row.fiscal_transaction.external_id {
        Some(e) => row.fiscal_transaction.operation_source == src && crate::text::str_eq(e.as_str(), ext.as_str()),
        None => false,
    }
}

impl CommonRepository {
    /// An empty store.
    pub fn new() -> (r: CommonRepository)
        ensures
            r@.report_uploads.len() == 0,
            r@.trade_operations.len() == 0,
            r@.fiscal_transactions.len() == 0,
    {
        let r = CommonRepository {
            report_uploads: Vec::new(),
            trade_operations: Vec::new(),
            fiscal_transactions: Vec::new(),
        };
        proof {
            assert(r@.report_uploads =~= Seq::<ReportUploadV>::empty());
            assert(r@.trade_operations =~= Seq::<InsertTradeOperationV>::empty());
            assert(r@.fiscal_transactions =~= Seq::<InsertFiscalTransactionV>::empty());
        }
        r
    }

    /// Registers one upload under its collaborator-assigned id and hands
    /// the id back.
    pub fn create_report_upload(
        &mut self,
        report_upload: crate::report::InsertReportUpload,
        id: String,
    ) -> (r: String)
        ensures
            r@ == id@,
            final(self)@.report_uploads == old(self)@.report_uploads.push(
                ReportUploadV { id: id@, upload: report_upload@ },
            ),
            final(self)@.trade_operations == old(self)@.trade_operations,
            final(self)@.fiscal_transactions == old(self)@.fiscal_transactions,
    {
        let row = ReportUpload { id: id.clone(), upload: report_upload };
        let ghost old_rows = self.report_uploads@;
        self.report_uploads.push(row);
        proof {
            assert(self.report_uploads@.map_values(|r: ReportUpload| r@) =~= old_rows.map_values(
                |r: ReportUpload| r@,
            ).push(self.report_uploads@.last()@));
        }
        id
    }

    /// Reconciles one trade record into the rows.
    fn upsert_trade_operation(&mut self, rec: InsertTradeOperation)
        ensures
            final(self)@.trade_operations == spec_upsert_by(
                old(self)@.trade_operations,
                trade_keyf(),
                trade_mergef(),
                rec@,
            ),
            final(self)@.fiscal_transactions == old(self)@.fiscal_transactions,
            final(self)@.report_uploads == old(self)@.report_uploads,
    {
        let ghost rows_g = self@.trade_operations;
        let ext = match &rec.trade_operation.external_id {
            Some(e) => Some(e.clone()),
            None => None,
        };
        match ext {
            None => {
                let ghost old_rows = self.trade_operations@;
                self.trade_operations.push(rec);
                proof {
                    assert(self.trade_operations@.map_values(|r: InsertTradeOperation| r@)
                        =~= old_rows.map_values(|r: InsertTradeOperation| r@).push(
                        self.trade_operations@.last()@,
                    ));
                    assert(trade_keyf()(self.trade_operations@.last()@) is None);
                }
            },
            Some(ext) => {
                let src = rec.trade_operation.operation_source;
                let ghost k = (src, ext@);
                proof {
                    assert(trade_key(rec@) == Some(k));
                }
                let n = self.trade_operations.len();
                let mut j: usize = 0;
                let mut found = false;
                while j < n && !found
                    invariant
                        0 <= j <= n,
                        n == self.trade_operations@.len(),
                        k == (src, ext@),
                        rows_g == self@.trade_operations,
                        rows_g == self.trade_operations@.map_values(
                            |r: InsertTradeOperation| r@,
                        ),
                        found ==> j < n && trade_key(rows_g[j as int]) == Some(k),
                        forall|m: int|
                            0 <= m < j ==> trade_key(#[trigger] rows_g[m]) != Some(k),
                    decreases n - j + (if found { 0int } else { 1int }),
                {
                    proof {
                        assert(rows_g[j as int] == self.trade_operations@[j as int]@);
                    }
                    if trade_row_matches(&self.trade_operations[j], src, &ext) {
                        found = true;
                    } else {
                        j = j + 1;
                    }
                }
                proof {
                    assert(forall|m: int|
                        0 <= m < rows_g.len() ==> trade_keyf()(#[trigger] rows_g[m])
                            == trade_key(rows_g[m]));
                    lemma_find_by_at(rows_g, trade_keyf(), k, j as int);
                }
                if found {
                    let merged = InsertTradeOperation {
                        portfolio_id: self.trade_operations[j].portfolio_id.clone(),
                        report_upload_id: rec.report_upload_id,
                        trade_operation: rec.trade_operation,
                    };
                    proof {
                        assert(merged@ =~= merge_trade(rows_g[j as int], rec@));
                    }
                    let ghost old_rows = self.trade_operations@;
                    self.trade_operations.set(j, merged);
                    proof {
                        assert(self.trade_operations@.map_values(|r: InsertTradeOperation| r@)
                            =~= rows_g.update(j as int, merge_trade(rows_g[j as int], rec@)));
                    }
                } else {
                    let ghost old_rows = self.trade_operations@;
                    self.trade_operations.push(rec);
                    proof {
                        assert(self.trade_operations@.map_values(|r: InsertTradeOperation| r@)
                            =~= rows_g.push(self.trade_operations@.last()@));
                    }
                }
            },
        }
    }

    /// Reconciles one fiscal record into the rows.
    fn upsert_fiscal_transaction(&mut self, rec: InsertFiscalTransaction)
        ensures
            final(self)@.fiscal_transactions == spec_upsert_by(
                old(self)@.fiscal_transactions,
                fiscal_keyf(),
                fiscal_mergef(),
                rec@,
            ),
            final(self)@.trade_operations == old(self)@.trade_operations,
            final(self)@.report_uploads == old(self)@.report_uploads,
    {
        let ghost rows_g = self@.fiscal_transactions;
        let ext = match &rec.fiscal_transaction.external_id {
            Some(e) => Some(e.clone()),
            None => None,
        };
        match ext {
            None => {
                let ghost old_rows = self.fiscal_transactions@;
                self.fiscal_transactions.push(rec);
                proof {
                    assert(self.fiscal_transactions@.map_values(|r: InsertFiscalTransaction| r@)
                        =~= old_rows.map_values(|r: InsertFiscalTransaction| r@).push(
                        self.fiscal_transactions@.last()@,
                    ));
                    assert(fiscal_keyf()(self.fiscal_transactions@.last()@) is None);
                }
            },
            Some(ext) => {
                let src = rec.fiscal_transaction.operation_source;
                let ghost k = (src, ext@);
                proof {
                    assert(fiscal_key(rec@) == Some(k));
                }
                let n = self.fiscal_transactions.len();
                let mut j: usize = 0;
                let mut found = false;
                while j < n && !found
                    invariant
                        0 <= j <= n,
                        n == self.fiscal_transactions@.len(),
                        k == (src, ext@),
                        rows_g == self@.fiscal_transactions,
                        rows_g == self.fiscal_transactions@.map_values(
                            |r: InsertFiscalTransaction| r@,
                        ),
                        found ==> j < n && fiscal_key(rows_g[j as int]) == Some(k),
                        forall|m: int|
                            0 <= m < j ==> fiscal_key(#[trigger] rows_g[m]) != Some(k),
                    decreases n - j + (if found { 0int } else { 1int }),
                {
                    proof {
                        assert(rows_g[j as int] == self.fiscal_transactions@[j as int]@);
                    }
                    if fiscal_row_matches(&self.fiscal_transactions[j], src, &ext) {
                        found = true;
                    } else {
                        j = j + 1;
                    }
                }
                proof {
                    assert(forall|m: int|
                        0 <= m < rows_g.len() ==> fiscal_keyf()(#[trigger] rows_g[m])
                            == fiscal_key(rows_g[m]));
                    lemma_find_by_at(rows_g, fiscal_keyf(), k, j as int);
                }
                if found {
                    let merged = InsertFiscalTransaction {
                        portfolio_id: self.fiscal_transactions[j].portfolio_id.clone(),
                        report_upload_id: rec.report_upload_id,
                        fiscal_transaction: rec.fiscal_transaction,
                    };
                    proof {
                        assert(merged@ =~= merge_fiscal(rows_g[j as int], rec@));
                    }
                    self.fiscal_transactions.set(j, merged);
                    proof {
                        assert(self.fiscal_transactions@.map_values(
                            |r: InsertFiscalTransaction| r@,
                        ) =~= rows_g.update(j as int, merge_fiscal(rows_g[j as int], rec@)));
                    }
                } else {
                    self.fiscal_transactions.push(rec);
                    proof {
                        assert(self.fiscal_transactions@.map_values(
                            |r: InsertFiscalTransaction| r@,
                        ) =~= rows_g.push(self.fiscal_transactions@.last()@));
                    }
                }
            },
        }
    }

    /// Bulk upsert of one trade batch, keyed by (operation source, external
    /// id): new keys insert, known keys overwrite every mutable field, and
    /// keyless manual entries always insert. Returns the number of affected
    /// rows — one per batch record.
    pub fn create_trade_operations(&mut self, trade_operations: Vec<InsertTradeOperation>) -> (count: usize)
        ensures
            final(self)@.trade_operations == spec_upsert_trades(
                old(self)@.trade_operations,
                trade_operations@.map_values(|r: InsertTradeOperation| r@),
            ),
            final(self)@.fiscal_transactions == old(self)@.fiscal_transactions,
            final(self)@.report_uploads == old(self)@.report_uploads,
            count == trade_operations@.len(),
    {
        let ghost batch_g = trade_operations@.map_values(|r: InsertTradeOperation| r@);
        let ghost batch_exec = trade_operations@;
        let ghost rows0 = self@.trade_operations;
        let count = trade_operations.len();
        let mut batch = trade_operations;
        proof {
            assert(batch_g.take(0) =~= Seq::<InsertTradeOperationV>::empty());
        }
        while batch.len() > 0
            invariant
                batch@.len() <= batch_exec.len(),
                batch_exec.len() == batch_g.len(),
                batch_g == batch_exec.map_values(|r: InsertTradeOperation| r@),
                batch@ == batch_exec.skip(batch_exec.len() - batch@.len()),
                self@.trade_operations == spec_upsert_batch_by(
                    rows0,
                    trade_keyf(),
                    trade_mergef(),
                    batch_g.take(batch_g.len() - batch@.len()),
                ),
                self@.fiscal_transactions == old(self)@.fiscal_transactions,
                self@.report_uploads == old(self)@.report_uploads,
            decreases batch@.len(),
        {
            let ghost done = batch_g.len() - batch@.len();
            let ghost before = batch@;
            let rec = batch.remove(0);
            proof {
                assert(rec == before[0]);
                let start = batch_exec.len() - before.len();
                assert(batch_exec.skip(start)[0] == batch_exec[start]);
                assert(rec == batch_exec[done]);
                assert(batch_exec.map_values(|r: InsertTradeOperation| r@)[done]
                    == batch_exec[done]@);
                assert(rec@ == batch_g[done]);
                assert(batch@ =~= batch_exec.skip(batch_exec.len() - batch@.len()));
            }
            self.upsert_trade_operation(rec);
            proof {
                assert(batch_g.take(done + 1).drop_last() =~= batch_g.take(done));
                assert(batch_g.take(done + 1).last() == batch_g[done]);
            }
        }
        proof {
            assert(batch_g.take(batch_g.len() as int) == batch_g);
        }
        count
    }

    /// Bulk upsert of one fiscal batch; same contract as the trade batch.
    pub fn create_fiscal_transactions(
        &mut self,
        fiscal_transactions: Vec<InsertFiscalTransaction>,
    ) -> (count: usize)
        ensures
            final(self)@.fiscal_transactions == spec_upsert_fiscals(
                old(self)@.fiscal_transactions,
                fiscal_transactions@.map_values(|r: InsertFiscalTransaction| r@),
            ),
            final(self)@.trade_operations == old(self)@.trade_operations,
            final(self)@.report_uploads == old(self)@.report_uploads,
            count == fiscal_transactions@.len(),
    {
        let ghost batch_g = fiscal_transactions@.map_values(|r: InsertFiscalTransaction| r@);
        let ghost batch_exec = fiscal_transactions@;
        let ghost rows0 = self@.fiscal_transactions;
        let count = fiscal_transactions.len();
        let mut batch = fiscal_transactions;
        proof {
            assert(batch_g.take(0) =~= Seq::<InsertFiscalTransactionV>::empty());
        }
        while batch.len() > 0
            invariant
                batch@.len() <= batch_exec.len(),
                batch_exec.len() == batch_g.len(),
                batch_g == batch_exec.map_values(|r: InsertFiscalTransaction| r@),
                batch@ == batch_exec.skip(batch_exec.len() - batch@.len()),
                self@.fiscal_transactions == spec_upsert_batch_by(
                    rows0,
                    fiscal_keyf(),
                    fiscal_mergef(),
                    batch_g.take(batch_g.len() - batch@.len()),
                ),
                self@.trade_operations == old(self)@.trade_operations,
                self@.report_uploads == old(self)@.report_uploads,
            decreases batch@.len(),
        {
            let ghost done = batch_g.len() - batch@.len();
            let ghost before = batch@;
            let rec = batch.remove(0);
            proof {
                assert(rec == before[0]);
                let start = batch_exec.len() - before.len();
                assert(batch_exec.skip(start)[0] == batch_exec[start]);
                assert(rec == batch_exec[done]);
                assert(batch_exec.map_values(|r: InsertFiscalTransaction| r@)[done]
                    == batch_exec[done]@);
                assert(rec@ == batch_g[done]);
                assert(batch@ =~= batch_exec.skip(batch_exec.len() - batch@.len()));
            }
            self.upsert_fiscal_transaction(rec);
            proof {
                assert(batch_g.take(done + 1).drop_last() =~= batch_g.take(done));
                assert(batch_g.take(done + 1).last() == batch_g[done]);
            }
        }
        proof {
            assert(batch_g.take(batch_g.len() as int) == batch_g);
        }
        count
    }
}

} // verus!
