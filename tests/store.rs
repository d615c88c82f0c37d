use library_store::commands;
use library_store::db::{Database, DbError};
use library_store::codec::{assets_from_rows, assets_to_rows, users_keys_repeat};
use library_store::models::{ActiveLoan, Asset, LoanHistoryRecord, User};
use library_store::sql::SqlValue;

fn asset(id: &str, title: &str) -> Asset {
    Asset {
        id: id.to_string(),
        title: title.to_string(),
        asset_type: "book".to_string(),
        description: "classic".to_string(),
        registration_number: None,
        signature: None,
        isbn: None,
        author: None,
        publisher: None,
        publication_place: None,
        edition: None,
        publication_year: None,
        collection_title: None,
        collection_number: None,
        volumes: None,
        copies: None,
        is_loanable: None,
        subjects: None,
        ibic_subjects: None,
    }
}

fn full_asset() -> Asset {
    Asset {
        id: "a2".to_string(),
        title: "Cien años de soledad".to_string(),
        asset_type: "book".to_string(),
        description: "novel, \"magic\" realism".to_string(),
        registration_number: Some("R-001".to_string()),
        signature: Some("N GAR cie".to_string()),
        isbn: Some("978-0307474728".to_string()),
        author: Some("Gabriel García Márquez".to_string()),
        publisher: Some("Sudamericana".to_string()),
        publication_place: Some("Buenos Aires".to_string()),
        edition: Some("1".to_string()),
        publication_year: Some("1967".to_string()),
        collection_title: Some("Clásicos".to_string()),
        collection_number: Some("7".to_string()),
        volumes: Some(2),
        copies: Some(-3),
        is_loanable: Some(false),
        subjects: Some(vec!["literature".to_string(), "quote \" and , comma".to_string()]),
        ibic_subjects: Some(vec!["FA".to_string()]),
    }
}

fn user(id: &str, code: &str) -> User {
    User {
        id: id.to_string(),
        user_code: code.to_string(),
        name: "Ana".to_string(),
        last_name: "Pérez".to_string(),
        user_type: "Estudiante".to_string(),
        grade: Some("5B".to_string()),
    }
}

fn loan() -> ActiveLoan {
    ActiveLoan {
        id: "l1".to_string(),
        asset_id: "a1".to_string(),
        asset_title: "Don Quijote".to_string(),
        user_id: "u1".to_string(),
        user_name: "Ana Pérez".to_string(),
        borrow_date: "2024-01-10".to_string(),
    }
}

fn history() -> LoanHistoryRecord {
    LoanHistoryRecord {
        id: "l1".to_string(),
        asset_id: "a1".to_string(),
        asset_title: "Don Quijote".to_string(),
        user_id: "u1".to_string(),
        user_name: "Ana Pérez".to_string(),
        borrow_date: "2024-01-10".to_string(),
        return_date: "2024-02-01".to_string(),
    }
}

fn open_memory() -> Database {
    Database::new(":memory:").unwrap()
}

#[test]
fn saved_asset_reads_back_with_subjects() {
    let mut db = open_memory();
    let mut a = asset("a1", "Don Quijote");
    a.subjects = Some(vec!["literature".to_string(), "spanish".to_string()]);
    db.save_assets(&[a.clone()]).unwrap();
    let got = db.get_assets().unwrap();
    assert_eq!(got.len(), 1);
    assert_eq!(got[0], a);
    assert_eq!(got[0].subjects, Some(vec!["literature".to_string(), "spanish".to_string()]));
}

#[test]
fn every_asset_field_round_trips() {
    let mut db = open_memory();
    let mut on_loan = full_asset();
    on_loan.id = "a3".to_string();
    on_loan.is_loanable = Some(true);
    on_loan.volumes = Some(i32::MAX);
    on_loan.copies = Some(i32::MIN);
    let saved = vec![asset("a1", "Don Quijote"), full_asset(), on_loan];
    db.save_assets(&saved).unwrap();
    let mut got = db.get_assets().unwrap();
    got.sort_by(|x, y| x.id.cmp(&y.id));
    assert_eq!(got, saved);
}

#[test]
fn users_and_loans_round_trip() {
    let mut db = open_memory();
    let mut u2 = user("u2", "C2");
    u2.grade = None;
    db.save_users(&[user("u1", "C1"), u2.clone()]).unwrap();
    db.save_active_loans(&[loan()]).unwrap();
    db.save_loan_history(&[history()]).unwrap();
    let mut users = db.get_users().unwrap();
    users.sort_by(|x, y| x.id.cmp(&y.id));
    assert_eq!(users, vec![user("u1", "C1"), u2]);
    assert_eq!(db.get_active_loans().unwrap(), vec![loan()]);
    assert_eq!(db.get_loan_history().unwrap(), vec![history()]);
}

#[test]
fn second_save_replaces_first() {
    let mut db = open_memory();
    db.save_assets(&[asset("a1", "One"), asset("a2", "Two")]).unwrap();
    db.save_assets(&[asset("b1", "Other")]).unwrap();
    assert_eq!(db.get_assets().unwrap(), vec![asset("b1", "Other")]);
    db.save_assets(&[]).unwrap();
    assert!(db.get_assets().unwrap().is_empty());
}

#[test]
fn saving_user_subset_keeps_only_subset() {
    let mut db = open_memory();
    db.save_users(&[user("u1", "C1"), user("u2", "C2"), user("u3", "C3")]).unwrap();
    db.save_users(&[user("u2", "C2")]).unwrap();
    assert_eq!(db.get_users().unwrap(), vec![user("u2", "C2")]);
}

#[test]
fn absent_and_empty_subjects_stay_distinct() {
    let mut db = open_memory();
    let absent = asset("a1", "Absent");
    let mut empty = asset("a2", "Empty");
    empty.subjects = Some(vec![]);
    empty.ibic_subjects = Some(vec![]);
    db.save_assets(&[absent, empty]).unwrap();
    let mut got = db.get_assets().unwrap();
    got.sort_by(|x, y| x.id.cmp(&y.id));
    assert_eq!(got[0].subjects, None);
    assert_eq!(got[0].ibic_subjects, None);
    assert_eq!(got[1].subjects, Some(vec![]));
    assert_eq!(got[1].ibic_subjects, Some(vec![]));
}

#[test]
fn schema_again_keeps_saved_rows() {
    let mut db = open_memory();
    db.save_users(&[user("u1", "C1")]).unwrap();
    db.init_tables().unwrap();
    db.init_tables().unwrap();
    assert_eq!(db.get_users().unwrap(), vec![user("u1", "C1")]);
    assert!(db.get_assets().unwrap().is_empty());
}

#[test]
fn active_loans_and_history_are_independent() {
    let mut db = open_memory();
    db.save_active_loans(&[loan()]).unwrap();
    db.save_loan_history(&[history()]).unwrap();
    db.save_active_loans(&[]).unwrap();
    assert!(db.get_active_loans().unwrap().is_empty());
    assert_eq!(db.get_loan_history().unwrap(), vec![history()]);
}

#[test]
fn every_operation_before_init_is_not_initialized() {
    let mut state: Option<Database> = None;
    assert!(matches!(commands::get_assets(&state), Err(DbError::NotInitialized)));
    assert!(matches!(commands::get_users(&state), Err(DbError::NotInitialized)));
    assert!(matches!(commands::get_active_loans(&state), Err(DbError::NotInitialized)));
    assert!(matches!(commands::get_loan_history(&state), Err(DbError::NotInitialized)));
    assert!(matches!(commands::save_assets(&mut state, &[asset("a1", "x")]), Err(DbError::NotInitialized)));
    assert!(matches!(commands::save_users(&mut state, &[]), Err(DbError::NotInitialized)));
    assert!(matches!(commands::save_active_loans(&mut state, &[loan()]), Err(DbError::NotInitialized)));
    assert!(matches!(commands::save_loan_history(&mut state, &[history()]), Err(DbError::NotInitialized)));
    assert!(state.is_none());
}

#[test]
fn commands_work_after_init() {
    let mut state: Option<Database> = None;
    commands::init_database(&mut state, ":memory:").unwrap();
    assert!(state.is_some());
    commands::save_users(&mut state, &[user("u1", "C1")]).unwrap();
    assert_eq!(commands::get_users(&state).unwrap(), vec![user("u1", "C1")]);
}

#[test]
fn init_on_unreachable_path_is_storage_error() {
    let mut state: Option<Database> = None;
    let r = commands::init_database(&mut state, "/nonexistent-dir/inner/library.db");
    assert!(matches!(r, Err(DbError::Storage(_))));
    assert!(state.is_none());
}

#[test]
fn duplicate_id_fails_and_keeps_previous_rows() {
    let mut db = open_memory();
    db.save_assets(&[asset("a1", "Kept")]).unwrap();
    let r = db.save_assets(&[asset("d", "One"), asset("d", "Two")]);
    assert!(matches!(r, Err(DbError::ConstraintViolation)));
    assert_eq!(db.get_assets().unwrap(), vec![asset("a1", "Kept")]);
}

#[test]
fn duplicate_user_code_is_constraint_violation() {
    let mut db = open_memory();
    let r = db.save_users(&[user("u1", "SAME"), user("u2", "SAME")]);
    assert!(matches!(r, Err(DbError::ConstraintViolation)));
    assert!(db.get_users().unwrap().is_empty());
}

#[test]
fn out_of_range_volume_is_invalid_row() {
    let uri = "file:out_of_range_volume?mode=memory&cache=shared";
    let db = Database::new(uri).unwrap();
    let raw = rusqlite::Connection::open(uri).unwrap();
    raw.execute(
        "INSERT INTO assets (id, title, type, description, volumes) VALUES ('a1', 't', 'book', 'd', 5000000000)",
        [],
    )
    .unwrap();
    assert!(matches!(db.get_assets(), Err(DbError::InvalidRow)));
}

#[test]
fn text_in_integer_column_is_storage_error() {
    let uri = "file:text_in_integer?mode=memory&cache=shared";
    let db = Database::new(uri).unwrap();
    let raw = rusqlite::Connection::open(uri).unwrap();
    raw.execute(
        "INSERT INTO assets (id, title, type, description, copies) VALUES ('a1', 't', 'book', 'd', 'many')",
        [],
    )
    .unwrap();
    assert!(matches!(db.get_assets(), Err(DbError::Storage(_))));
}

#[test]
fn malformed_subjects_read_back_absent() {
    let uri = "file:malformed_subjects?mode=memory&cache=shared";
    let db = Database::new(uri).unwrap();
    let raw = rusqlite::Connection::open(uri).unwrap();
    raw.execute(
        "INSERT INTO assets (id, title, type, description, subjects, ibic_subjects) VALUES ('a1', 't', 'book', 'd', 'not json', '[\"FA\"]')",
        [],
    )
    .unwrap();
    let got = db.get_assets().unwrap();
    assert_eq!(got.len(), 1);
    assert_eq!(got[0].subjects, None);
    assert_eq!(got[0].ibic_subjects, Some(vec!["FA".to_string()]));
}

#[test]
fn subjects_are_stored_as_json_text() {
    let uri = "file:subjects_as_json?mode=memory&cache=shared";
    let mut db = Database::new(uri).unwrap();
    let mut a = asset("a1", "Don Quijote");
    a.subjects = Some(vec!["literature".to_string(), "spanish".to_string()]);
    a.is_loanable = Some(true);
    db.save_assets(&[a]).unwrap();
    let raw = rusqlite::Connection::open(uri).unwrap();
    let (subjects, ibic, loanable): (Option<String>, Option<String>, Option<i64>) = raw
        .query_row("SELECT subjects, ibic_subjects, is_loanable FROM assets", [], |row| {
            Ok((row.get(0)?, row.get(1)?, row.get(2)?))
        })
        .unwrap();
    assert_eq!(subjects, Some("[\"literature\",\"spanish\"]".to_string()));
    assert_eq!(ibic, None);
    assert_eq!(loanable, Some(1));
}

#[test]
fn reopening_same_path_keeps_data() {
    let uri = "file:reopen_same_path?mode=memory&cache=shared";
    let mut first = Database::new(uri).unwrap();
    first.save_users(&[user("u1", "C1")]).unwrap();
    let second = Database::new(uri).unwrap();
    let third = Database::new(uri).unwrap();
    assert_eq!(second.get_users().unwrap(), vec![user("u1", "C1")]);
    assert_eq!(third.get_users().unwrap(), vec![user("u1", "C1")]);
}

#[test]
fn loans_may_name_missing_assets() {
    let mut db = open_memory();
    db.save_active_loans(&[loan()]).unwrap();
    db.save_assets(&[]).unwrap();
    assert_eq!(db.get_active_loans().unwrap(), vec![loan()]);
}

#[test]
fn save_into_dropped_table_is_storage_error_and_rolls_back() {
    let uri = "file:dropped_table?mode=memory&cache=shared";
    let mut db = Database::new(uri).unwrap();
    db.save_users(&[user("u1", "C1")]).unwrap();
    let raw = rusqlite::Connection::open(uri).unwrap();
    raw.execute("DROP TABLE assets", []).unwrap();
    let r = db.save_assets(&[asset("a1", "x")]);
    assert!(matches!(r, Err(DbError::Storage(_))));
    assert_eq!(db.get_users().unwrap(), vec![user("u1", "C1")]);
}

#[test]
fn repeated_history_id_is_constraint_violation() {
    let mut db = open_memory();
    db.save_loan_history(&[history()]).unwrap();
    let r = db.save_loan_history(&[history(), history()]);
    assert!(matches!(r, Err(DbError::ConstraintViolation)));
    assert_eq!(db.get_loan_history().unwrap(), vec![history()]);
}

#[test]
fn user_keys_repeat_on_id_or_code() {
    assert!(!users_keys_repeat(&[user("u1", "C1"), user("u2", "C2")]));
    assert!(users_keys_repeat(&[user("u1", "C1"), user("u1", "C2")]));
    assert!(users_keys_repeat(&[user("u1", "C1"), user("u2", "C1")]));
    assert!(!users_keys_repeat(&[]));
}

#[test]
fn asset_rows_decode_back() {
    let saved = vec![full_asset(), asset("a1", "Don Quijote")];
    let rows = assets_to_rows(&saved);
    assert_eq!(rows.len(), 2);
    assert_eq!(rows[0].len(), 19);
    assert!(matches!(&rows[0][14], SqlValue::Integer(2)));
    assert!(matches!(&rows[0][16], SqlValue::Integer(0)));
    assert!(matches!(&rows[1][17], SqlValue::Null));
    assert_eq!(assets_from_rows(&rows).unwrap(), saved);
}

#[test]
fn short_row_is_invalid_row() {
    let rows = vec![vec![SqlValue::Text("a1".to_string())]];
    assert!(matches!(assets_from_rows(&rows), Err(DbError::InvalidRow)));
    let mut row = assets_to_rows(&[asset("a1", "t")]).remove(0);
    row[1] = SqlValue::Null;
    assert!(matches!(assets_from_rows(&vec![row]), Err(DbError::InvalidRow)));
}
