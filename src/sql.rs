use vstd::prelude::*;

verus! {

/// A value held in one column of a stored row, as this library reads and writes it.
pub enum SqlValue {
    Null,
    Integer(i64),
    Text(String),
}

/// The mathematical form of a stored value.
pub enum Cell {
    Null,
    Integer(i64),
    Text(Seq<char>),
}

impl SqlValue {
    pub open spec fn cell(&self) -> Cell {
        match self {
            SqlValue::Null => Cell::Null,
            SqlValue::Integer(n) => Cell::Integer(*n),
            SqlValue::Text(s) => Cell::Text(s@),
        }
    }
}

/// The storage type that a column is declared with.
#[derive(Clone, Copy)]
pub enum ColumnKind {
    Text,
    Integer,
}

/// The four tables of the store, one per record kind.
#[derive(Clone, Copy)]
pub enum Table {
    Assets,
    Users,
    ActiveLoans,
    LoanHistory,
}

pub open spec fn row_cells(row: Seq<SqlValue>) -> Seq<Cell> {
    row.map_values(|v: SqlValue| v.cell())
}

pub open spec fn rows_cells(rows: Seq<Vec<SqlValue>>) -> Seq<Seq<Cell>> {
    rows.map_values(|r: Vec<SqlValue>| row_cells(r@))
}

/// A cell may stand in a column of the given kind: it is NULL or of that kind.
pub open spec fn cell_fits(c: Cell, k: ColumnKind) -> bool {
    match c {
        Cell::Null => true,
        Cell::Integer(_) => k is Integer,
        Cell::Text(_) => k is Text,
    }
}

pub open spec fn row_fits(row: Seq<Cell>, kinds: Seq<ColumnKind>) -> bool {
    &&& row.len() == kinds.len()
    &&& forall|i: int| 0 <= i < row.len() ==> cell_fits(#[trigger] row[i], kinds[i])
}

pub open spec fn text_columns(n: nat) -> Seq<ColumnKind> {
    Seq::new(n, |i: int| ColumnKind::Text)
}

/// The declared kinds of a table's columns, in the order of its schema.
pub open spec fn column_kinds(t: Table) -> Seq<ColumnKind> {
    match t {
        Table::Assets => text_columns(14) + seq![
            ColumnKind::Integer,
            ColumnKind::Integer,
            ColumnKind::Integer,
            ColumnKind::Text,
            ColumnKind::Text,
        ],
        Table::Users => text_columns(6),
        Table::ActiveLoans => text_columns(6),
        Table::LoanHistory => text_columns(7),
    }
}

pub fn column_kinds_of(t: Table) -> (r: Vec<ColumnKind>)
    ensures
        r@ == column_kinds(t),
{
    let n: usize = match t {
        Table::Assets => 14,
        Table::Users => 6,
        Table::ActiveLoans => 6,
        Table::LoanHistory => 7,
    };
    let mut r: Vec<ColumnKind> = Vec::new();
    let mut i: usize = 0;
    while i < n
        invariant
            i <= n,
            r@ == text_columns(i as nat),
        decreases n - i,
    {
        r.push(ColumnKind::Text);
        i = i + 1;
        assert(r@ =~= text_columns(i as nat));
    }
    if let Table::Assets = t {
        r.push(ColumnKind::Integer);
        r.push(ColumnKind::Integer);
        r.push(ColumnKind::Integer);
        r.push(ColumnKind::Text);
        r.push(ColumnKind::Text);
    }
    assert(r@ =~= column_kinds(t));
    r
}

pub const ASSETS_CREATE: &'static str = "CREATE TABLE IF NOT EXISTS assets (
    id TEXT PRIMARY KEY,
    title TEXT NOT NULL,
    type TEXT NOT NULL,
    description TEXT NOT NULL,
    registration_number TEXT,
    signature TEXT,
    isbn TEXT,
    author TEXT,
    publisher TEXT,
    publication_place TEXT,
    edition TEXT,
    publication_year TEXT,
    collection_title TEXT,
    collection_number TEXT,
    volumes INTEGER,
    copies INTEGER,
    is_loanable BOOLEAN,
    subjects TEXT,
    ibic_subjects TEXT
)";

pub const USERS_CREATE: &'static str = "CREATE TABLE IF NOT EXISTS users (
    id TEXT PRIMARY KEY,
    user_code TEXT NOT NULL UNIQUE,
    name TEXT NOT NULL,
    last_name TEXT NOT NULL,
    type TEXT NOT NULL,
    grade TEXT
)";

pub const ACTIVE_LOANS_CREATE: &'static str = "CREATE TABLE IF NOT EXISTS active_loans (
    id TEXT PRIMARY KEY,
    asset_id TEXT NOT NULL,
    asset_title TEXT NOT NULL,
    user_id TEXT NOT NULL,
    user_name TEXT NOT NULL,
    borrow_date TEXT NOT NULL,
    FOREIGN KEY (asset_id) REFERENCES assets (id),
    FOREIGN KEY (user_id) REFERENCES users (id)
)";

pub const LOAN_HISTORY_CREATE: &'static str = "CREATE TABLE IF NOT EXISTS loan_history (
    id TEXT PRIMARY KEY,
    asset_id TEXT NOT NULL,
    asset_title TEXT NOT NULL,
    user_id TEXT NOT NULL,
    user_name TEXT NOT NULL,
    borrow_date TEXT NOT NULL,
    return_date TEXT NOT NULL
)";

pub const ASSETS_SELECT: &'static str = "SELECT id, title, type, description, registration_number, signature, isbn, author, publisher, publication_place, edition, publication_year, collection_title, collection_number, volumes, copies, is_loanable, subjects, ibic_subjects FROM assets";

pub const USERS_SELECT: &'static str = "SELECT id, user_code, name, last_name, type, grade FROM users";

pub const ACTIVE_LOANS_SELECT: &'static str = "SELECT id, asset_id, asset_title, user_id, user_name, borrow_date FROM active_loans";

pub const LOAN_HISTORY_SELECT: &'static str = "SELECT id, asset_id, asset_title, user_id, user_name, borrow_date, return_date FROM loan_history";

pub const ASSETS_INSERT: &'static str = "INSERT INTO assets (id, title, type, description, registration_number, signature, isbn, author, publisher, publication_place, edition, publication_year, collection_title, collection_number, volumes, copies, is_loanable, subjects, ibic_subjects) VALUES (?1, ?2, ?3, ?4, ?5, ?6, ?7, ?8, ?9, ?10, ?11, ?12, ?13, ?14, ?15, ?16, ?17, ?18, ?19)";

pub const USERS_INSERT: &'static str = "INSERT INTO users (id, user_code, name, last_name, type, grade) VALUES (?1, ?2, ?3, ?4, ?5, ?6)";

pub const ACTIVE_LOANS_INSERT: &'static str = "INSERT INTO active_loans (id, asset_id, asset_title, user_id, user_name, borrow_date) VALUES (?1, ?2, ?3, ?4, ?5, ?6)";

pub const LOAN_HISTORY_INSERT: &'static str = "INSERT INTO loan_history (id, asset_id, asset_title, user_id, user_name, borrow_date, return_date) VALUES (?1, ?2, ?3, ?4, ?5, ?6, ?7)";

pub const ASSETS_DELETE: &'static str = "DELETE FROM assets";

pub const USERS_DELETE: &'static str = "DELETE FROM users";

pub const ACTIVE_LOANS_DELETE: &'static str = "DELETE FROM active_loans";

pub const LOAN_HISTORY_DELETE: &'static str = "DELETE FROM loan_history";

pub const BEGIN: &'static str = "BEGIN";

pub const COMMIT: &'static str = "COMMIT";

pub const ROLLBACK: &'static str = "ROLLBACK";

/// The foreign keys of the schema are declared, not enforced.
pub const FOREIGN_KEYS_OFF: &'static str = "PRAGMA foreign_keys = OFF";

pub open spec fn create_sql(t: Table) -> Seq<char> {
    match t {
        Table::Assets => ASSETS_CREATE@,
        Table::Users => USERS_CREATE@,
        Table::ActiveLoans => ACTIVE_LOANS_CREATE@,
        Table::LoanHistory => LOAN_HISTORY_CREATE@,
    }
}

pub open spec fn select_sql(t: Table) -> Seq<char> {
    match t {
        Table::Assets => ASSETS_SELECT@,
        Table::Users => USERS_SELECT@,
        Table::ActiveLoans => ACTIVE_LOANS_SELECT@,
        Table::LoanHistory => LOAN_HISTORY_SELECT@,
    }
}

pub open spec fn insert_sql(t: Table) -> Seq<char> {
    match t {
        Table::Assets => ASSETS_INSERT@,
        Table::Users => USERS_INSERT@,
        Table::ActiveLoans => ACTIVE_LOANS_INSERT@,
        Table::LoanHistory => LOAN_HISTORY_INSERT@,
    }
}

pub open spec fn delete_sql(t: Table) -> Seq<char> {
    match t {
        Table::Assets => ASSETS_DELETE@,
        Table::Users => USERS_DELETE@,
        Table::ActiveLoans => ACTIVE_LOANS_DELETE@,
        Table::LoanHistory => LOAN_HISTORY_DELETE@,
    }
}

pub fn create_statement(t: Table) -> (r: &'static str)
    ensures
        r@ == create_sql(t),
{
    match t {
        Table::Assets => ASSETS_CREATE,
        Table::Users => USERS_CREATE,
        Table::ActiveLoans => ACTIVE_LOANS_CREATE,
        Table::LoanHistory => LOAN_HISTORY_CREATE,
    }
}


pub fn select_statement(t: Table) -> (r: &'static str)
    ensures
        r@ == select_sql(t),
{
    match t {
        Table::Assets => ASSETS_SELECT,
        Table::Users => USERS_SELECT,
        Table::ActiveLoans => ACTIVE_LOANS_SELECT,
        Table::LoanHistory => LOAN_HISTORY_SELECT,
    }
}

pub fn insert_statement(t: Table) -> (r: &'static str)
    ensures
        r@ == insert_sql(t),
{
    match t {
        Table::Assets => ASSETS_INSERT,
        Table::Users => USERS_INSERT,
        Table::ActiveLoans => ACTIVE_LOANS_INSERT,
        Table::LoanHistory => LOAN_HISTORY_INSERT,
    }
}

pub fn delete_statement(t: Table) -> (r: &'static str)
    ensures
        r@ == delete_sql(t),
{
    match t {
        Table::Assets => ASSETS_DELETE,
        Table::Users => USERS_DELETE,
        Table::ActiveLoans => ACTIVE_LOANS_DELETE,
        Table::LoanHistory => LOAN_HISTORY_DELETE,
    }
}

#[verifier::external_type_specification]
#[verifier::external_body]
pub struct ExConnection(rusqlite::Connection);

#[verifier::external_type_specification]
#[verifier::external_body]
pub struct ExSqlError(rusqlite::Error);

/// Relies on rusqlite's Connection::open: it opens the database file at `path`,
/// creating it if it does not exist. Nothing is known of the tables it holds.
#[verifier::external_body]
pub(crate) fn open_connection(path: &str) -> (r: Result<rusqlite::Connection, rusqlite::Error>) {
    rusqlite::Connection::open(path)
}

/// Relies on rusqlite's Connection::execute, which runs one statement with the given
/// positional parameters and reports whether the engine accepted it.
#[verifier::external_body]
pub(crate) fn execute(conn: &rusqlite::Connection, sql: &str, params: &Vec<SqlValue>) -> (r: Result<usize, rusqlite::Error>)
{
    let values: Vec<rusqlite::types::Value> = params.iter().map(|p| match p {
        SqlValue::Null => rusqlite::types::Value::Null,
        SqlValue::Integer(n) => rusqlite::types::Value::Integer(*n),
        SqlValue::Text(s) => rusqlite::types::Value::Text(s.clone()),
    }).collect();
    conn.execute(sql, rusqlite::params_from_iter(values))
}

/// Relies on rusqlite's Connection::prepare, Statement::query and Rows::next, which
/// hand out the rows that a query finds, and on Row::get, which reads a column as
/// `Option<String>` or `Option<i64>` and fails where the stored value has another type.
#[verifier::external_body]
pub(crate) fn query_rows(conn: &rusqlite::Connection, sql: &str, kinds: &Vec<ColumnKind>) -> (r: Result<Vec<Vec<SqlValue>>, rusqlite::Error>)
    ensures
        r is Ok ==> forall|i: int| 0 <= i < r->Ok_0@.len() ==> row_fits(row_cells(#[trigger] r->Ok_0@[i]@), kinds@),
{
    let mut stmt = conn.prepare(sql)?;
    let mut rows = stmt.query([])?;
    let mut out = Vec::new();
    while let Some(row) = rows.next()? {
        let mut cells = Vec::new();
        for (i, kind) in kinds.iter().enumerate() {
            cells.push(match kind {
                ColumnKind::Text => row.get::<usize, Option<String>>(i)?.map_or(SqlValue::Null, SqlValue::Text),
                ColumnKind::Integer => row.get::<usize, Option<i64>>(i)?.map_or(SqlValue::Null, SqlValue::Integer),
            });
        }
        out.push(cells);
    }
    Ok(out)
}

} // verus!
