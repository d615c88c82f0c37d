use vstd::prelude::*;
use crate::codec::{asset_lists_round_trip, decode_all, asset_decoder, asset_encoder, asset_keys_repeat, asset_views, user_decoder, user_encoder, user_keys_repeat, user_views, active_loan_decoder, active_loan_encoder, active_loan_keys_repeat, active_loan_views, loan_history_record_decoder, loan_history_record_encoder, loan_history_record_keys_repeat, loan_history_record_views};
use crate::db::{replaced, Database, DbError};
use crate::models::{ActiveLoan, Asset, LoanHistoryRecord, User};
use crate::sql::{Cell, Table};
use crate::statements::schema_plan;

verus! {

/// Opens the store at `path` and keeps it in `state`; on failure `state` is left as it was.
pub fn init_database(state: &mut Option<Database>, path: &str) -> (r: Result<(), DbError>)
    ensures
        r is Ok ==> *final(state) is Some && final(state)->0.sent() == schema_plan(),
        r is Err ==> *final(state) == *old(state) && r->Err_0 is Storage,
{
    match Database::new(path) {
        Ok(db) => {
            *state = Some(db);
            Ok(())
        },
        Err(e) => Err(e),
    }
}

/// Every stored Asset record; `NotInitialized` where no store is open.
pub fn get_assets(state: &Option<Database>) -> (r: Result<Vec<Asset>, DbError>)
    ensures
        state is None ==> r matches Err(DbError::NotInitialized),
        state is Some ==> (r is Ok ==> exists|rows: Seq<Seq<Cell>>|
            #[trigger] decode_all(rows, asset_decoder()) == Some(asset_views(r->Ok_0@))),
        state is Some ==> (r is Err ==> r->Err_0 is Storage || r->Err_0 is InvalidRow),
{
    match state {
        Some(db) => db.get_assets(),
        None => Err(DbError::NotInitialized),
    }
}

/// Replaces every stored Asset record by `records`; `NotInitialized` where no store is open.
pub fn save_assets(state: &mut Option<Database>, records: &[Asset]) -> (r: Result<(), DbError>)
    ensures
        *old(state) is None ==> (r matches Err(DbError::NotInitialized)) && *final(state) is None,
        *old(state) is Some ==> *final(state) is Some,
        *old(state) is Some ==> ((r matches Err(DbError::ConstraintViolation)) == asset_keys_repeat(asset_views(records@))),
        *old(state) is Some && asset_keys_repeat(asset_views(records@)) ==> final(state)->0.sent() == old(state)->0.sent(),
        *old(state) is Some && !asset_keys_repeat(asset_views(records@)) ==> replaced(
            old(state)->0.sent(),
            final(state)->0.sent(),
            Table::Assets,
            asset_views(records@).map_values(asset_encoder()),
            r,
        ),
        *old(state) is Some ==> forall|i: int| 0 <= i < records@.len() ==> asset_lists_round_trip(#[trigger] records@[i]@),
{
    match state {
        Some(db) => db.save_assets(records),
        None => Err(DbError::NotInitialized),
    }
}

/// Every stored User record; `NotInitialized` where no store is open.
pub fn get_users(state: &Option<Database>) -> (r: Result<Vec<User>, DbError>)
    ensures
        state is None ==> r matches Err(DbError::NotInitialized),
        state is Some ==> (r is Ok ==> exists|rows: Seq<Seq<Cell>>|
            #[trigger] decode_all(rows, user_decoder()) == Some(user_views(r->Ok_0@))),
        state is Some ==> (r is Err ==> r->Err_0 is Storage || r->Err_0 is InvalidRow),
{
    match state {
        Some(db) => db.get_users(),
        None => Err(DbError::NotInitialized),
    }
}

/// Replaces every stored User record by `records`; `NotInitialized` where no store is open.
pub fn save_users(state: &mut Option<Database>, records: &[User]) -> (r: Result<(), DbError>)
    ensures
        *old(state) is None ==> (r matches Err(DbError::NotInitialized)) && *final(state) is None,
        *old(state) is Some ==> *final(state) is Some,
        *old(state) is Some ==> ((r matches Err(DbError::ConstraintViolation)) == user_keys_repeat(user_views(records@))),
        *old(state) is Some && user_keys_repeat(user_views(records@)) ==> final(state)->0.sent() == old(state)->0.sent(),
        *old(state) is Some && !user_keys_repeat(user_views(records@)) ==> replaced(
            old(state)->0.sent(),
            final(state)->0.sent(),
            Table::Users,
            user_views(records@).map_values(user_encoder()),
            r,
        ),
{
    match state {
        Some(db) => db.save_users(records),
        None => Err(DbError::NotInitialized),
    }
}

/// Every stored ActiveLoan record; `NotInitialized` where no store is open.
pub fn get_active_loans(state: &Option<Database>) -> (r: Result<Vec<ActiveLoan>, DbError>)
    ensures
        state is None ==> r matches Err(DbError::NotInitialized),
        state is Some ==> (r is Ok ==> exists|rows: Seq<Seq<Cell>>|
            #[trigger] decode_all(rows, active_loan_decoder()) == Some(active_loan_views(r->Ok_0@))),
        state is Some ==> (r is Err ==> r->Err_0 is Storage || r->Err_0 is InvalidRow),
{
    match state {
        Some(db) => db.get_active_loans(),
        None => Err(DbError::NotInitialized),
    }
}

/// Replaces every stored ActiveLoan record by `records`; `NotInitialized` where no store is open.
pub fn save_active_loans(state: &mut Option<Database>, records: &[ActiveLoan]) -> (r: Result<(), DbError>)
    ensures
        *old(state) is None ==> (r matches Err(DbError::NotInitialized)) && *final(state) is None,
        *old(state) is Some ==> *final(state) is Some,
        *old(state) is Some ==> ((r matches Err(DbError::ConstraintViolation)) == active_loan_keys_repeat(active_loan_views(records@))),
        *old(state) is Some && active_loan_keys_repeat(active_loan_views(records@)) ==> final(state)->0.sent() == old(state)->0.sent(),
        *old(state) is Some && !active_loan_keys_repeat(active_loan_views(records@)) ==> replaced(
            old(state)->0.sent(),
            final(state)->0.sent(),
            Table::ActiveLoans,
            active_loan_views(records@).map_values(active_loan_encoder()),
            r,
        ),
{
    match state {
        Some(db) => db.save_active_loans(records),
        None => Err(DbError::NotInitialized),
    }
}

/// Every stored LoanHistoryRecord record; `NotInitialized` where no store is open.
pub fn get_loan_history(state: &Option<Database>) -> (r: Result<Vec<LoanHistoryRecord>, DbError>)
    ensures
        state is None ==> r matches Err(DbError::NotInitialized),
        state is Some ==> (r is Ok ==> exists|rows: Seq<Seq<Cell>>|
            #[trigger] decode_all(rows, loan_history_record_decoder()) == Some(loan_history_record_views(r->Ok_0@))),
        state is Some ==> (r is Err ==> r->Err_0 is Storage || r->Err_0 is InvalidRow),
{
    match state {
        Some(db) => db.get_loan_history(),
        None => Err(DbError::NotInitialized),
    }
}

/// Replaces every stored LoanHistoryRecord record by `records`; `NotInitialized` where no store is open.
pub fn save_loan_history(state: &mut Option<Database>, records: &[LoanHistoryRecord]) -> (r: Result<(), DbError>)
    ensures
        *old(state) is None ==> (r matches Err(DbError::NotInitialized)) && *final(state) is None,
        *old(state) is Some ==> *final(state) is Some,
        *old(state) is Some ==> ((r matches Err(DbError::ConstraintViolation)) == loan_history_record_keys_repeat(loan_history_record_views(records@))),
        *old(state) is Some && loan_history_record_keys_repeat(loan_history_record_views(records@)) ==> final(state)->0.sent() == old(state)->0.sent(),
        *old(state) is Some && !loan_history_record_keys_repeat(loan_history_record_views(records@)) ==> replaced(
            old(state)->0.sent(),
            final(state)->0.sent(),
            Table::LoanHistory,
            loan_history_record_views(records@).map_values(loan_history_record_encoder()),
            r,
        ),
{
    match state {
        Some(db) => db.save_loan_history(records),
        None => Err(DbError::NotInitialized),
    }
}

} // verus!
