use vstd::prelude::*;
use vstd::multiset::Multiset;
use crate::codec::{
    asset_lists_round_trip, decode_all, list_round_trips, opt_list_cell, opt_list_field,
    asset_decoder, asset_encoder, lemma_asset_row_round_trip, user_decoder, user_encoder, lemma_user_row_round_trip, active_loan_decoder, active_loan_encoder, lemma_active_loan_row_round_trip, loan_history_record_decoder, loan_history_record_encoder, lemma_loan_history_record_row_round_trip,
};
use crate::models::{ActiveLoanView, AssetView, LoanHistoryRecordView, UserView};
use crate::sql::{Cell, Table};
use crate::statements::{replace_plan, run, schema_plan, step, Sent, StoreState};

verus! {

broadcast use vstd::seq_lib::group_to_multiset_ensures;

/// Rows that hold, in any order, the encodings of records that each decode back to
/// themselves decode to those records, in some order.
pub proof fn lemma_decode_permuted<A>(
    saved: Seq<A>,
    rows: Seq<Seq<Cell>>,
    enc: spec_fn(A) -> Seq<Cell>,
    dec: spec_fn(Seq<Cell>) -> Option<A>,
)
    requires
        forall|i: int| 0 <= i < saved.len() ==> dec(enc(#[trigger] saved[i])) == Some(saved[i]),
        rows.to_multiset() == saved.map_values(enc).to_multiset(),
    ensures
        decode_all(rows, dec) is Some,
        decode_all(rows, dec)->0.to_multiset() == saved.to_multiset(),
    decreases rows.len(),
{
    let encoded = saved.map_values(enc);
    if rows.len() == 0 {
        vstd::seq_lib::to_multiset_len(rows);
        vstd::seq_lib::to_multiset_len(encoded);
        assert(encoded.len() == 0);
        assert(saved =~= Seq::<A>::empty());
        assert(decode_all(rows, dec)->0 =~= Seq::<A>::empty());
    } else {
        let last = rows.last();
        let rest = rows.drop_last();
        assert(rows =~= rest.push(last));
        assert(rows.contains(last)) by {
            assert(rows[rows.len() - 1] == last);
        }
        assert(rows.to_multiset().count(last) > 0);
        assert(encoded.contains(last));
        let k = choose|k: int| 0 <= k < encoded.len() && encoded[k] == last;
        let saved2 = saved.remove(k);
        assert(saved2.map_values(enc) =~= encoded.remove(k));
        vstd::seq_lib::to_multiset_remove(encoded, k);
        vstd::seq_lib::to_multiset_remove(saved, k);
        assert(rest.to_multiset() =~= rows.to_multiset().remove(last));
        assert forall|i: int| 0 <= i < saved2.len() implies dec(enc(#[trigger] saved2[i])) == Some(saved2[i]) by {
            if i < k {
                assert(saved2[i] == saved[i]);
            } else {
                assert(saved2[i] == saved[i + 1]);
            }
        }
        lemma_decode_permuted(saved2, rest, enc, dec);
        assert(dec(last) == Some(saved[k]));
        assert forall|i: int| 0 <= i < rows.len() implies (#[trigger] dec(rows[i])) is Some by {
            if i < rest.len() {
                assert(rows[i] == rest[i]);
                assert(dec(rest[i]) is Some);
            }
        }
        assert(decode_all(rows, dec)->0 =~= decode_all(rest, dec)->0.push(saved[k]));
        assert(saved.to_multiset() =~= saved2.to_multiset().insert(saved[k])) by {
            assert(saved.contains(saved[k]));
            assert(saved.to_multiset().count(saved[k]) > 0);
        }
    }
}

/// Rows that hold, in any order, what saving a collection of Asset records sends to the engine
/// decode to those records, up to order.
pub proof fn lemma_assets_round_trip(saved: Seq<AssetView>, rows: Seq<Seq<Cell>>)
    requires
        forall|i: int| 0 <= i < saved.len() ==> asset_lists_round_trip(#[trigger] saved[i]),
        rows.to_multiset() == saved.map_values(asset_encoder()).to_multiset(),
    ensures
        decode_all(rows, asset_decoder()) is Some,
        decode_all(rows, asset_decoder())->0.to_multiset() == saved.to_multiset(),
{
    assert forall|i: int| 0 <= i < saved.len() implies asset_decoder()(asset_encoder()(#[trigger] saved[i])) == Some(saved[i]) by {
        lemma_asset_row_round_trip(saved[i]);
    }
    lemma_decode_permuted(saved, rows, asset_encoder(), asset_decoder());
}

/// Rows that hold, in any order, what saving a collection of User records sends to the engine
/// decode to those records, up to order.
pub proof fn lemma_users_round_trip(saved: Seq<UserView>, rows: Seq<Seq<Cell>>)
    requires
        rows.to_multiset() == saved.map_values(user_encoder()).to_multiset(),
    ensures
        decode_all(rows, user_decoder()) is Some,
        decode_all(rows, user_decoder())->0.to_multiset() == saved.to_multiset(),
{
    assert forall|i: int| 0 <= i < saved.len() implies user_decoder()(user_encoder()(#[trigger] saved[i])) == Some(saved[i]) by {
        lemma_user_row_round_trip(saved[i]);
    }
    lemma_decode_permuted(saved, rows, user_encoder(), user_decoder());
}

/// Rows that hold, in any order, what saving a collection of ActiveLoan records sends to the engine
/// decode to those records, up to order.
pub proof fn lemma_active_loans_round_trip(saved: Seq<ActiveLoanView>, rows: Seq<Seq<Cell>>)
    requires
        rows.to_multiset() == saved.map_values(active_loan_encoder()).to_multiset(),
    ensures
        decode_all(rows, active_loan_decoder()) is Some,
        decode_all(rows, active_loan_decoder())->0.to_multiset() == saved.to_multiset(),
{
    assert forall|i: int| 0 <= i < saved.len() implies active_loan_decoder()(active_loan_encoder()(#[trigger] saved[i])) == Some(saved[i]) by {
        lemma_active_loan_row_round_trip(saved[i]);
    }
    lemma_decode_permuted(saved, rows, active_loan_encoder(), active_loan_decoder());
}

/// Rows that hold, in any order, what saving a collection of LoanHistoryRecord records sends to the engine
/// decode to those records, up to order.
pub proof fn lemma_loan_history_round_trip(saved: Seq<LoanHistoryRecordView>, rows: Seq<Seq<Cell>>)
    requires
        rows.to_multiset() == saved.map_values(loan_history_record_encoder()).to_multiset(),
    ensures
        decode_all(rows, loan_history_record_decoder()) is Some,
        decode_all(rows, loan_history_record_decoder())->0.to_multiset() == saved.to_multiset(),
{
    assert forall|i: int| 0 <= i < saved.len() implies loan_history_record_decoder()(loan_history_record_encoder()(#[trigger] saved[i])) == Some(saved[i]) by {
        lemma_loan_history_record_row_round_trip(saved[i]);
    }
    lemma_decode_permuted(saved, rows, loan_history_record_encoder(), loan_history_record_decoder());
}

/// An absent list is stored as NULL and reads back absent; an empty list reads back
/// as an empty list.
pub proof fn lemma_absent_and_empty_lists()
    requires
        list_round_trips(Some(Seq::<Seq<char>>::empty())),
    ensures
        opt_list_field(opt_list_cell(None)) == Some(None::<Seq<Seq<char>>>),
        opt_list_field(opt_list_cell(Some(Seq::<Seq<char>>::empty()))) == Some(Some(Seq::<Seq<char>>::empty())),
{
}


pub proof fn lemma_run_concat(st: StoreState, a: Seq<Sent>, b: Seq<Sent>)
    ensures
        run(st, a + b) == run(run(st, a), b),
    decreases b.len(),
{
    if b.len() == 0 {
        assert(a + b =~= a);
    } else {
        assert((a + b).drop_last() =~= a + b.drop_last());
        lemma_run_concat(st, a, b.drop_last());
    }
}

proof fn lemma_replace_prefix(st: StoreState, t: Table, rows: Seq<Seq<Cell>>, k: int)
    requires
        0 <= k <= rows.len(),
    ensures
        run(st, replace_plan(t, rows).take(k + 2)) == (StoreState {
            tables: st.tables.insert(t, rows.take(k).to_multiset()),
            at_begin: st.tables,
        }),
    decreases k,
{
    let plan = replace_plan(t, rows);
    if k == 0 {
        reveal_with_fuel(run, 3);
        assert(plan[0] == Sent::Begin && plan[1] == Sent::Delete(t));
        assert(plan.take(2).last() == Sent::Delete(t));
        assert(plan.take(2).drop_last() =~= seq![Sent::Begin]);
        assert(seq![Sent::Begin].drop_last() =~= Seq::<Sent>::empty());
        assert(rows.take(0) =~= Seq::<Seq<Cell>>::empty());
        assert(rows.take(0).to_multiset() =~= Multiset::empty());
        assert(st.tables.insert(t, Multiset::empty()) =~= st.tables.insert(t, rows.take(0).to_multiset()));
    } else {
        lemma_replace_prefix(st, t, rows, k - 1);
        assert(plan.take(k + 2).drop_last() =~= plan.take(k + 1));
        assert(plan.take(k + 2).last() == Sent::Insert(t, rows[k - 1]));
        assert(rows.take(k) =~= rows.take(k - 1).push(rows[k - 1]));
        vstd::seq_lib::to_multiset_build(rows.take(k - 1), rows[k - 1]);
        let prev = st.tables.insert(t, rows.take(k - 1).to_multiset());
        assert(prev.insert(t, prev[t].insert(rows[k - 1])) =~= st.tables.insert(t, rows.take(k).to_multiset()));
        assert(run(st, plan.take(k + 2)) == step(run(st, plan.take(k + 1)), Sent::Insert(t, rows[k - 1])));
    }
}

/// A save that the engine accepted whole leaves its table holding exactly the rows it
/// sent, and every other table as it was.
pub proof fn lemma_replace_plan(st: StoreState, t: Table, rows: Seq<Seq<Cell>>)
    ensures
        run(st, replace_plan(t, rows)).tables == st.tables.insert(t, rows.to_multiset()),
{
    let plan = replace_plan(t, rows);
    lemma_replace_prefix(st, t, rows, rows.len() as int);
    assert(plan.drop_last() =~= plan.take(rows.len() as int + 2));
    assert(rows.take(rows.len() as int) =~= rows);
}

/// Saving A and then B into one table leaves it holding B's rows and nothing of A.
pub proof fn lemma_save_replaces(st: StoreState, t: Table, a: Seq<Seq<Cell>>, b: Seq<Seq<Cell>>)
    ensures
        run(st, replace_plan(t, a) + replace_plan(t, b)).tables == st.tables.insert(t, b.to_multiset()),
        run(st, replace_plan(t, a) + replace_plan(t, b)).tables[t] == b.to_multiset(),
{
    lemma_run_concat(st, replace_plan(t, a), replace_plan(t, b));
    lemma_replace_plan(st, t, a);
    lemma_replace_plan(run(st, replace_plan(t, a)), t, b);
    assert(st.tables.insert(t, a.to_multiset()).insert(t, b.to_multiset()) =~= st.tables.insert(t, b.to_multiset()));
}

/// Saving one kind of record leaves the tables of the other kinds as they were.
pub proof fn lemma_save_leaves_other_tables(st: StoreState, t: Table, u: Table, rows: Seq<Seq<Cell>>)
    requires
        t != u,
    ensures
        run(st, replace_plan(t, rows)).tables.contains_key(u) == st.tables.contains_key(u),
        run(st, replace_plan(t, rows)).tables[u] == st.tables[u],
{
    lemma_replace_plan(st, t, rows);
}

/// A save that failed after its transaction began and was rolled back leaves every
/// table as it was.
pub proof fn lemma_failed_save_unchanged(st: StoreState, t: Table, rows: Seq<Seq<Cell>>, k: int)
    requires
        1 <= k < replace_plan(t, rows).len(),
    ensures
        run(st, replace_plan(t, rows).take(k).push(Sent::Rollback)).tables == st.tables,
{
    let plan = replace_plan(t, rows);
    assert(plan.take(k).push(Sent::Rollback).drop_last() =~= plan.take(k));
    assert(run(st, plan.take(k).push(Sent::Rollback)) == step(run(st, plan.take(k)), Sent::Rollback));
    if k == 1 {
        assert(plan.take(1).drop_last() =~= Seq::<Sent>::empty());
        assert(plan.take(1).last() == Sent::Begin);
        assert(run(st, plan.take(1)) == step(run(st, Seq::<Sent>::empty()), Sent::Begin));
    } else {
        lemma_replace_prefix(st, t, rows, k - 2);
        assert(run(st, plan.take(k)).at_begin == st.tables);
    }
}

/// Sending the schema again changes no table, and tables that were present keep
/// their rows.
pub proof fn lemma_schema_idempotent(st: StoreState)
    ensures
        run(st, schema_plan() + schema_plan()).tables == run(st, schema_plan()).tables,
        forall|t: Table| st.tables.contains_key(t) ==> #[trigger] run(st, schema_plan()).tables[t] == st.tables[t],
{
    reveal_with_fuel(run, 6);
    let p = schema_plan();
    assert(p.drop_last() =~= seq![Sent::ForeignKeysOff, Sent::Create(Table::Assets), Sent::Create(Table::Users), Sent::Create(Table::ActiveLoans)]);
    assert(p.drop_last().drop_last() =~= seq![Sent::ForeignKeysOff, Sent::Create(Table::Assets), Sent::Create(Table::Users)]);
    assert(p.drop_last().drop_last().drop_last() =~= seq![Sent::ForeignKeysOff, Sent::Create(Table::Assets)]);
    assert(p.drop_last().drop_last().drop_last().drop_last() =~= seq![Sent::ForeignKeysOff]);
    assert(seq![Sent::ForeignKeysOff].drop_last() =~= Seq::<Sent>::empty());
    lemma_run_concat(st, p, p);
    let once = run(st, p);
    assert(once.tables.contains_key(Table::Assets) && once.tables.contains_key(Table::Users)
        && once.tables.contains_key(Table::ActiveLoans) && once.tables.contains_key(Table::LoanHistory));
    assert(run(once, p).tables =~= once.tables);
}

} // verus!
