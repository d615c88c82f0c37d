use vstd::prelude::*;
use crate::codec::{
    active_loan_decoder, active_loan_encoder, active_loan_keys_repeat, active_loan_views,
    active_loans_from_rows, active_loans_keys_repeat, active_loans_to_rows, asset_decoder,
    asset_encoder, asset_keys_repeat, asset_lists_round_trip, asset_views, assets_from_rows,
    assets_keys_repeat, assets_to_rows, decode_all, loan_history_from_rows,
    loan_history_keys_repeat, loan_history_record_decoder, loan_history_record_encoder,
    loan_history_record_keys_repeat, loan_history_record_views, loan_history_to_rows,
    user_decoder, user_encoder, user_keys_repeat, user_views, users_from_rows,
    users_keys_repeat, users_to_rows,
};
use crate::models::{ActiveLoan, Asset, LoanHistoryRecord, User};
use crate::sql::{
    column_kinds_of, create_statement, delete_statement, execute, insert_statement,
    open_connection, query_rows, rows_cells, select_statement, Cell, SqlValue, Table, BEGIN,
    COMMIT, FOREIGN_KEYS_OFF, ROLLBACK,
};
use crate::statements::{
    create_plan, replace_body, replace_plan, schema_plan, sends, Sent,
};

verus! {

/// Why an operation on the store failed.
#[derive(Debug)]
pub enum DbError {
    /// The store was used before it was opened.
    NotInitialized,
    /// The storage engine refused a statement or could not open the file.
    Storage(rusqlite::Error),
    /// A save would store two rows with the same key; nothing was sent.
    ConstraintViolation,
    /// A save failed, and so did the rollback of its transaction.
    RollbackFailed(rusqlite::Error),
    /// A stored row holds a value that its record's field cannot take.
    InvalidRow,
}

/// What a save of `rows` into table `t` sent, given its outcome `r`: on success the
/// whole plan; on failure a part of the plan that began the transaction, followed by
/// its rollback, or nothing where `BEGIN` itself failed.
pub open spec fn replaced(before: Seq<Sent>, after: Seq<Sent>, t: Table, rows: Seq<Seq<Cell>>, r: Result<(), DbError>) -> bool {
    let plan = replace_plan(t, rows);
    match r {
        Ok(_) => after == before + plan,
        Err(DbError::Storage(_)) => after == before || exists|k: int|
            1 <= k < plan.len() && after == before + plan.take(k).push(Sent::Rollback),
        Err(DbError::RollbackFailed(_)) => exists|k: int| 1 <= k < plan.len() && after == before + plan.take(k),
        _ => false,
    }
}

/// A store: one connection to one database file, held for the store's lifetime.
pub struct Database {
    connection: rusqlite::Connection,
    sent: Ghost<Seq<Sent>>,
}

impl Database {
    /// The statements that this store sent and the engine accepted, in order.
    pub closed spec fn sent(&self) -> Seq<Sent> {
        self.sent@
    }

    fn send(&mut self, sql: &str, params: &Vec<SqlValue>, Ghost(s): Ghost<Sent>) -> (r: Result<(), rusqlite::Error>)
        requires
            sends(sql@, params@, s),
        ensures
            r is Ok ==> final(self).sent() == old(self).sent().push(s),
            r is Err ==> final(self).sent() == old(self).sent(),
    {
        match execute(&self.connection, sql, params) {
            Ok(_) => {
                self.sent = Ghost(self.sent@.push(s));
                Ok(())
            },
            Err(e) => Err(e),
        }
    }

    /// Opens the database file at `path`, creating it where it is missing, turns off the
    /// enforcement of foreign keys, and makes sure that the four tables exist.
    pub fn new(path: &str) -> (r: Result<Database, DbError>)
        ensures
            r is Ok ==> r->Ok_0.sent() == schema_plan(),
            r is Err ==> r->Err_0 is Storage,
    {
        let connection = match open_connection(path) {
            Ok(c) => c,
            Err(e) => return Err(DbError::Storage(e)),
        };
        let mut db = Database { connection, sent: Ghost(Seq::empty()) };
        let none: Vec<SqlValue> = Vec::new();
        match db.send(FOREIGN_KEYS_OFF, &none, Ghost(Sent::ForeignKeysOff)) {
            Ok(()) => {},
            Err(e) => return Err(DbError::Storage(e)),
        }
        match db.init_tables() {
            Ok(()) => {
                assert(db.sent() =~= schema_plan());
                Ok(db)
            },
            Err(e) => Err(e),
        }
    }

    /// Creates each of the four tables that is absent; tables that exist keep their rows.
    pub fn init_tables(&mut self) -> (r: Result<(), DbError>)
        ensures
            r is Ok ==> final(self).sent() == old(self).sent() + create_plan(),
            r is Err ==> r->Err_0 is Storage && exists|k: int|
                0 <= k < create_plan().len() && final(self).sent() == old(self).sent() + create_plan().take(k),
    {
        let none: Vec<SqlValue> = Vec::new();
        let ghost s0 = self.sent();
        let ghost plan = create_plan();
        assert(plan =~= seq![
            Sent::Create(Table::Assets),
            Sent::Create(Table::Users),
            Sent::Create(Table::ActiveLoans),
            Sent::Create(Table::LoanHistory),
        ]);
        let tables = [Table::Assets, Table::Users, Table::ActiveLoans, Table::LoanHistory];
        let mut i: usize = 0;
        while i < 4
            invariant
                i <= 4,
                plan == create_plan(),
                plan.len() == 4,
                none@.len() == 0,
                s0 == old(self).sent(),
                forall|j: int| 0 <= j < 4 ==> plan[j] == Sent::Create(#[trigger] tables@[j]),
                self.sent() == s0 + plan.take(i as int),
            decreases 4 - i,
        {
            let t = tables[i];
            match self.send(create_statement(t), &none, Ghost(Sent::Create(t))) {
                Ok(()) => {},
                Err(e) => {
                    assert(0 <= i < create_plan().len() && self.sent() == s0 + create_plan().take(i as int));
                    return Err(DbError::Storage(e));
                },
            }
            assert(plan.take(i + 1) =~= plan.take(i as int).push(plan[i as int]));
            i = i + 1;
        }
        assert(plan.take(4) =~= plan);
        Ok(())
    }

    fn read_rows(&self, t: Table) -> (r: Result<Vec<Vec<SqlValue>>, DbError>)
        ensures
            r is Err ==> r->Err_0 is Storage,
    {
        let kinds = column_kinds_of(t);
        match query_rows(&self.connection, select_statement(t), &kinds) {
            Ok(rows) => Ok(rows),
            Err(e) => Err(DbError::Storage(e)),
        }
    }

    fn delete_and_insert(&mut self, t: Table, rows: &Vec<Vec<SqlValue>>) -> (r: Result<(), rusqlite::Error>)
        ensures
            r is Ok ==> final(self).sent() == old(self).sent() + replace_body(t, rows_cells(rows@)),
            r is Err ==> exists|k: int| 0 <= k < replace_body(t, rows_cells(rows@)).len()
                && final(self).sent() == old(self).sent() + replace_body(t, rows_cells(rows@)).take(k),
    {
        let none: Vec<SqlValue> = Vec::new();
        let ghost s0 = self.sent();
        let ghost cells = rows_cells(rows@);
        let ghost body = replace_body(t, cells);
        match self.send(delete_statement(t), &none, Ghost(Sent::Delete(t))) {
            Ok(()) => {},
            Err(e) => {
                assert(self.sent() =~= s0 + body.take(0));
                return Err(e);
            },
        }
        let sql = insert_statement(t);
        let mut i: usize = 0;
        assert(self.sent() =~= s0 + body.take(1));
        while i < rows.len()
            invariant
                i <= rows@.len(),
                sql@ == crate::sql::insert_sql(t),
                cells == rows_cells(rows@),
                body == replace_body(t, cells),
                body.len() == rows@.len() + 1,
                s0 == old(self).sent(),
                self.sent() == s0 + body.take(i + 1),
            decreases rows.len() - i,
        {
            assert(body[i as int + 1] == Sent::Insert(t, cells[i as int]));
            match self.send(sql, &rows[i], Ghost(Sent::Insert(t, cells[i as int]))) {
                Ok(()) => {},
                Err(e) => {
                    assert(0 <= i + 1 < body.len() && self.sent() == s0 + body.take(i as int + 1));
                    return Err(e);
                },
            }
            assert(body.take(i + 2) =~= body.take(i + 1).push(body[i + 1]));
            i = i + 1;
        }
        assert(body.take(rows@.len() as int + 1) =~= body);
        Ok(())
    }

    /// Replaces the rows of table `t` by `rows` inside a transaction, which is rolled
    /// back where a statement fails.
    fn replace_rows(&mut self, t: Table, rows: &Vec<Vec<SqlValue>>) -> (r: Result<(), DbError>)
        ensures
            replaced(old(self).sent(), final(self).sent(), t, rows_cells(rows@), r),
    {
        let none: Vec<SqlValue> = Vec::new();
        let ghost s0 = self.sent();
        let ghost body = replace_body(t, rows_cells(rows@));
        let ghost plan = replace_plan(t, rows_cells(rows@));
        match self.send(BEGIN, &none, Ghost(Sent::Begin)) {
            Ok(()) => {},
            Err(e) => return Err(DbError::Storage(e)),
        }
        let ghost s1 = self.sent();
        let failure = match self.delete_and_insert(t, rows) {
            Ok(()) => match self.send(COMMIT, &none, Ghost(Sent::Commit)) {
                Ok(()) => {
                    assert(self.sent() =~= s0 + plan);
                    return Ok(());
                },
                Err(e) => {
                    assert(plan.take(body.len() as int + 1) =~= seq![Sent::Begin] + body);
                    assert(self.sent() =~= s0 + plan.take(body.len() as int + 1));
                    e
                },
            },
            Err(e) => {
                let ghost k = choose|k: int| 0 <= k < body.len() && s1 + body.take(k) == self.sent();
                assert(plan.take(k + 1) =~= seq![Sent::Begin] + body.take(k));
                assert(self.sent() =~= s0 + plan.take(k + 1));
                e
            },
        };
        let ghost s2 = self.sent();
        assert(exists|k: int| 1 <= k < plan.len() && s2 == s0 + plan.take(k));
        match self.send(ROLLBACK, &none, Ghost(Sent::Rollback)) {
            Ok(()) => {
                let ghost k = choose|k: int| 1 <= k < plan.len() && s2 == s0 + plan.take(k);
                assert(self.sent() =~= s0 + plan.take(k).push(Sent::Rollback));
                Err(DbError::Storage(failure))
            },
            Err(_) => Err(DbError::RollbackFailed(failure)),
        }
    }

    /// Every stored Asset record, in the order the engine hands them out; a row whose
    /// columns its fields cannot take fails the read.
    pub fn get_assets(&self) -> (r: Result<Vec<Asset>, DbError>)
        ensures
            r is Ok ==> exists|rows: Seq<Seq<Cell>>| #[trigger] decode_all(rows, asset_decoder()) == Some(asset_views(r->Ok_0@)),
            r is Err ==> r->Err_0 is Storage || r->Err_0 is InvalidRow,
    {
        let rows = match self.read_rows(Table::Assets) {
            Ok(rows) => rows,
            Err(e) => return Err(e),
        };
        assets_from_rows(&rows)
    }

    /// Replaces every stored Asset record by `records`, in one transaction. Where keys
    /// repeat nothing is sent and `ConstraintViolation` is returned.
    pub fn save_assets(&mut self, records: &[Asset]) -> (r: Result<(), DbError>)
        ensures
            (r matches Err(DbError::ConstraintViolation)) == asset_keys_repeat(asset_views(records@)),
            asset_keys_repeat(asset_views(records@)) ==> final(self).sent() == old(self).sent(),
            !asset_keys_repeat(asset_views(records@)) ==> replaced(
                old(self).sent(),
                final(self).sent(),
                Table::Assets,
                asset_views(records@).map_values(asset_encoder()),
                r,
            ),
            forall|i: int| 0 <= i < records@.len() ==> asset_lists_round_trip(#[trigger] records@[i]@),
    {
        let rows = assets_to_rows(records);
        if assets_keys_repeat(records) {
            return Err(DbError::ConstraintViolation);
        }
        self.replace_rows(Table::Assets, &rows)
    }

    /// Every stored User record, in the order the engine hands them out; a row whose
    /// columns its fields cannot take fails the read.
    pub fn get_users(&self) -> (r: Result<Vec<User>, DbError>)
        ensures
            r is Ok ==> exists|rows: Seq<Seq<Cell>>| #[trigger] decode_all(rows, user_decoder()) == Some(user_views(r->Ok_0@)),
            r is Err ==> r->Err_0 is Storage || r->Err_0 is InvalidRow,
    {
        let rows = match self.read_rows(Table::Users) {
            Ok(rows) => rows,
            Err(e) => return Err(e),
        };
        users_from_rows(&rows)
    }

    /// Replaces every stored User record by `records`, in one transaction. Where keys
    /// repeat nothing is sent and `ConstraintViolation` is returned.
    pub fn save_users(&mut self, records: &[User]) -> (r: Result<(), DbError>)
        ensures
            (r matches Err(DbError::ConstraintViolation)) == user_keys_repeat(user_views(records@)),
            user_keys_repeat(user_views(records@)) ==> final(self).sent() == old(self).sent(),
            !user_keys_repeat(user_views(records@)) ==> replaced(
                old(self).sent(),
                final(self).sent(),
                Table::Users,
                user_views(records@).map_values(user_encoder()),
                r,
            ),
    {
        let rows = users_to_rows(records);
        if users_keys_repeat(records) {
            return Err(DbError::ConstraintViolation);
        }
        self.replace_rows(Table::Users, &rows)
    }

    /// Every stored ActiveLoan record, in the order the engine hands them out; a row whose
    /// columns its fields cannot take fails the read.
    pub fn get_active_loans(&self) -> (r: Result<Vec<ActiveLoan>, DbError>)
        ensures
            r is Ok ==> exists|rows: Seq<Seq<Cell>>| #[trigger] decode_all(rows, active_loan_decoder()) == Some(active_loan_views(r->Ok_0@)),
            r is Err ==> r->Err_0 is Storage || r->Err_0 is InvalidRow,
    {
        let rows = match self.read_rows(Table::ActiveLoans) {
            Ok(rows) => rows,
            Err(e) => return Err(e),
        };
        active_loans_from_rows(&rows)
    }

    /// Replaces every stored ActiveLoan record by `records`, in one transaction. Where keys
    /// repeat nothing is sent and `ConstraintViolation` is returned.
    pub fn save_active_loans(&mut self, records: &[ActiveLoan]) -> (r: Result<(), DbError>)
        ensures
            (r matches Err(DbError::ConstraintViolation)) == active_loan_keys_repeat(active_loan_views(records@)),
            active_loan_keys_repeat(active_loan_views(records@)) ==> final(self).sent() == old(self).sent(),
            !active_loan_keys_repeat(active_loan_views(records@)) ==> replaced(
                old(self).sent(),
                final(self).sent(),
                Table::ActiveLoans,
                active_loan_views(records@).map_values(active_loan_encoder()),
                r,
            ),
    {
        let rows = active_loans_to_rows(records);
        if active_loans_keys_repeat(records) {
            return Err(DbError::ConstraintViolation);
        }
        self.replace_rows(Table::ActiveLoans, &rows)
    }

    /// Every stored LoanHistoryRecord record, in the order the engine hands them out; a row whose
    /// columns its fields cannot take fails the read.
    pub fn get_loan_history(&self) -> (r: Result<Vec<LoanHistoryRecord>, DbError>)
        ensures
            r is Ok ==> exists|rows: Seq<Seq<Cell>>| #[trigger] decode_all(rows, loan_history_record_decoder()) == Some(loan_history_record_views(r->Ok_0@)),
            r is Err ==> r->Err_0 is Storage || r->Err_0 is InvalidRow,
    {
        let rows = match self.read_rows(Table::LoanHistory) {
            Ok(rows) => rows,
            Err(e) => return Err(e),
        };
        loan_history_from_rows(&rows)
    }

    /// Replaces every stored LoanHistoryRecord record by `records`, in one transaction. Where keys
    /// repeat nothing is sent and `ConstraintViolation` is returned.
    pub fn save_loan_history(&mut self, records: &[LoanHistoryRecord]) -> (r: Result<(), DbError>)
        ensures
            (r matches Err(DbError::ConstraintViolation)) == loan_history_record_keys_repeat(loan_history_record_views(records@)),
            loan_history_record_keys_repeat(loan_history_record_views(records@)) ==> final(self).sent() == old(self).sent(),
            !loan_history_record_keys_repeat(loan_history_record_views(records@)) ==> replaced(
                old(self).sent(),
                final(self).sent(),
                Table::LoanHistory,
                loan_history_record_views(records@).map_values(loan_history_record_encoder()),
                r,
            ),
    {
        let rows = loan_history_to_rows(records);
        if loan_history_keys_repeat(records) {
            return Err(DbError::ConstraintViolation);
        }
        self.replace_rows(Table::LoanHistory, &rows)
    }
}

} // verus!
