use vstd::prelude::*;
use vstd::multiset::Multiset;
use crate::sql::{
    create_sql, delete_sql, insert_sql, row_cells, Cell, SqlValue, Table, BEGIN, COMMIT,
    FOREIGN_KEYS_OFF, ROLLBACK,
};

verus! {

/// A statement that a store sent to the engine and that the engine accepted.
pub enum Sent {
    ForeignKeysOff,
    Create(Table),
    Begin,
    Delete(Table),
    Insert(Table, Seq<Cell>),
    Commit,
    Rollback,
}

/// The SQL text and parameters by which a store sends `s`.
pub open spec fn sends(sql: Seq<char>, params: Seq<SqlValue>, s: Sent) -> bool {
    match s {
        Sent::ForeignKeysOff => sql == FOREIGN_KEYS_OFF@ && params.len() == 0,
        Sent::Create(t) => sql == create_sql(t) && params.len() == 0,
        Sent::Begin => sql == BEGIN@ && params.len() == 0,
        Sent::Delete(t) => sql == delete_sql(t) && params.len() == 0,
        Sent::Insert(t, row) => sql == insert_sql(t) && row_cells(params) == row,
        Sent::Commit => sql == COMMIT@ && params.len() == 0,
        Sent::Rollback => sql == ROLLBACK@ && params.len() == 0,
    }
}

/// What a new store sends: foreign keys off, then each table created where absent.
pub open spec fn schema_plan() -> Seq<Sent> {
    seq![
        Sent::ForeignKeysOff,
        Sent::Create(Table::Assets),
        Sent::Create(Table::Users),
        Sent::Create(Table::ActiveLoans),
        Sent::Create(Table::LoanHistory),
    ]
}

/// The statements that create the four tables where absent.
pub open spec fn create_plan() -> Seq<Sent> {
    schema_plan().drop_first()
}

pub open spec fn inserts(t: Table, rows: Seq<Seq<Cell>>) -> Seq<Sent> {
    rows.map_values(|row: Seq<Cell>| Sent::Insert(t, row))
}

/// The statements inside the transaction of a save.
pub open spec fn replace_body(t: Table, rows: Seq<Seq<Cell>>) -> Seq<Sent> {
    seq![Sent::Delete(t)] + inserts(t, rows)
}

/// What a successful save of `rows` into table `t` sends, in order.
pub open spec fn replace_plan(t: Table, rows: Seq<Seq<Cell>>) -> Seq<Sent> {
    seq![Sent::Begin] + replace_body(t, rows) + seq![Sent::Commit]
}

/// The rows of each table.
pub type Tables = Map<Table, Multiset<Seq<Cell>>>;

/// The tables, and what they were when the open transaction began.
pub struct StoreState {
    pub tables: Tables,
    pub at_begin: Tables,
}

/// What SQLite does on an accepted statement: `CREATE TABLE IF NOT EXISTS` adds a
/// missing table empty, `DELETE FROM t` empties t, `INSERT` adds one row, `BEGIN`
/// marks the state that `ROLLBACK` returns to, and `COMMIT` keeps what was done.
pub open spec fn step(st: StoreState, s: Sent) -> StoreState {
    match s {
        Sent::ForeignKeysOff => st,
        Sent::Create(t) => StoreState {
            tables: if st.tables.contains_key(t) {
                st.tables
            } else {
                st.tables.insert(t, Multiset::empty())
            },
            at_begin: st.at_begin,
        },
        Sent::Begin => StoreState { tables: st.tables, at_begin: st.tables },
        Sent::Delete(t) => StoreState { tables: st.tables.insert(t, Multiset::empty()), at_begin: st.at_begin },
        Sent::Insert(t, row) => StoreState {
            tables: st.tables.insert(t, st.tables[t].insert(row)),
            at_begin: st.at_begin,
        },
        Sent::Commit => StoreState { tables: st.tables, at_begin: st.tables },
        Sent::Rollback => StoreState { tables: st.at_begin, at_begin: st.at_begin },
    }
}

/// The state after the engine accepted each statement of `log` in turn, where no
/// one else writes to the file.
pub open spec fn run(st: StoreState, log: Seq<Sent>) -> StoreState
    decreases log.len(),
{
    if log.len() == 0 {
        st
    } else {
        step(run(st, log.drop_last()), log.last())
    }
}

} // verus!
