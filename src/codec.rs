use vstd::prelude::*;
use crate::db::DbError;
use vstd::multiset::Multiset;
use crate::models::{
    opt_str, opt_strs, strs, ActiveLoan, ActiveLoanView, Asset, AssetView, LoanHistoryRecord,
    LoanHistoryRecordView, User, UserView,
};
use crate::sql::{row_cells, rows_cells, Cell, SqlValue};

verus! {

#[verifier::external_type_specification]
#[verifier::external_body]
pub struct ExJsonError(serde_json::Error);

/// The JSON text that serde_json writes for a list of strings.
pub uninterp spec fn json_of_strings(s: Seq<Seq<char>>) -> Seq<char>;

/// The list of strings that serde_json reads from a text, or `None` where the text is
/// not a JSON array of strings.
pub uninterp spec fn strings_from_json(t: Seq<char>) -> Option<Seq<Seq<char>>>;

/// Relies on serde_json::to_string on a `Vec<String>`: it writes a JSON array of
/// escaped strings into a `Vec<u8>`, where neither the strings nor the writer can fail,
/// and serde_json::from_str reads that text back as the same list.
#[verifier::external_body]
fn encode_strings(v: &Vec<String>) -> (r: Result<String, serde_json::Error>)
    ensures
        r is Ok,
        r is Ok ==> r->Ok_0@ == json_of_strings(strs(v@)),
        r is Ok ==> strings_from_json(r->Ok_0@) == Some(strs(v@)),
{
    serde_json::to_string(v)
}

/// Relies on serde_json::from_str::<Vec<String>>: it reads a JSON array of strings,
/// and fails on any other text.
#[verifier::external_body]
fn decode_strings(t: &str) -> (r: Option<Vec<String>>)
    ensures
        opt_strs(r) == strings_from_json(t@),
{
    serde_json::from_str::<Vec<String>>(t).ok()
}

/// A list that is present reads back from its encoding as itself.
pub open spec fn list_round_trips(o: Option<Seq<Seq<char>>>) -> bool {
    o is Some ==> strings_from_json(json_of_strings(o->0)) == Some(o->0)
}

pub open spec fn text_field(c: Cell) -> Option<Seq<char>> {
    match c {
        Cell::Text(t) => Some(t),
        _ => None,
    }
}

pub open spec fn opt_text_field(c: Cell) -> Option<Option<Seq<char>>> {
    match c {
        Cell::Null => Some(None),
        Cell::Text(t) => Some(Some(t)),
        _ => None,
    }
}

pub open spec fn opt_i32_field(c: Cell) -> Option<Option<i32>> {
    match c {
        Cell::Null => Some(None),
        Cell::Integer(n) => if i32::MIN <= n <= i32::MAX {
            Some(Some(n as i32))
        } else {
            None
        },
        _ => None,
    }
}

/// A stored integer reads as `true` where it is not zero.
pub open spec fn opt_bool_field(c: Cell) -> Option<Option<bool>> {
    match c {
        Cell::Null => Some(None),
        Cell::Integer(n) => Some(Some(n != 0)),
        _ => None,
    }
}

/// A stored list reads back as absent where its text is not a JSON list of strings:
/// that failure is not one of the row.
pub open spec fn opt_list_field(c: Cell) -> Option<Option<Seq<Seq<char>>>> {
    match c {
        Cell::Null => Some(None),
        Cell::Text(t) => Some(strings_from_json(t)),
        _ => None,
    }
}

pub open spec fn opt_text_cell(o: Option<Seq<char>>) -> Cell {
    match o {
        Some(s) => Cell::Text(s),
        None => Cell::Null,
    }
}

pub open spec fn opt_i32_cell(o: Option<i32>) -> Cell {
    match o {
        Some(n) => Cell::Integer(n as i64),
        None => Cell::Null,
    }
}

pub open spec fn opt_bool_cell(o: Option<bool>) -> Cell {
    match o {
        Some(b) => Cell::Integer(if b { 1 } else { 0 }),
        None => Cell::Null,
    }
}

/// An absent list is stored as NULL, a present one (empty too) as its JSON text.
pub open spec fn opt_list_cell(o: Option<Seq<Seq<char>>>) -> Cell {
    match o {
        Some(l) => Cell::Text(json_of_strings(l)),
        None => Cell::Null,
    }
}

fn opt_text_value(o: &Option<String>) -> (r: SqlValue)
    ensures
        r.cell() == opt_text_cell(opt_str(*o)),
{
    match o {
        Some(s) => SqlValue::Text(s.clone()),
        None => SqlValue::Null,
    }
}

fn opt_i32_value(o: Option<i32>) -> (r: SqlValue)
    ensures
        r.cell() == opt_i32_cell(o),
{
    match o {
        Some(n) => SqlValue::Integer(n as i64),
        None => SqlValue::Null,
    }
}

fn opt_bool_value(o: Option<bool>) -> (r: SqlValue)
    ensures
        r.cell() == opt_bool_cell(o),
{
    match o {
        Some(b) => SqlValue::Integer(if b { 1 } else { 0 }),
        None => SqlValue::Null,
    }
}

/// Where the encoding failed, an empty list is stored in its place.
fn opt_list_value(o: &Option<Vec<String>>) -> (r: SqlValue)
    ensures
        r.cell() == opt_list_cell(opt_strs(*o)),
        list_round_trips(opt_strs(*o)),
{
    match o {
        Some(v) => match encode_strings(v) {
            Ok(t) => SqlValue::Text(t),
            Err(_) => SqlValue::Text("[]".to_string()),
        },
        None => SqlValue::Null,
    }
}

fn read_text(c: &SqlValue) -> (r: Option<String>)
    ensures
        opt_str(r) == text_field(c.cell()),
{
    match c {
        SqlValue::Text(t) => Some(t.clone()),
        _ => None,
    }
}

fn read_opt_text(c: &SqlValue) -> (r: Option<Option<String>>)
    ensures
        r is Some == opt_text_field(c.cell()) is Some,
        r is Some ==> opt_str(r->0) == opt_text_field(c.cell())->0,
{
    match c {
        SqlValue::Null => Some(None),
        SqlValue::Text(t) => Some(Some(t.clone())),
        SqlValue::Integer(_) => None,
    }
}

fn read_opt_i32(c: &SqlValue) -> (r: Option<Option<i32>>)
    ensures
        r == opt_i32_field(c.cell()),
{
    match c {
        SqlValue::Null => Some(None),
        SqlValue::Integer(n) => if i32::MIN as i64 <= *n && *n <= i32::MAX as i64 {
            Some(Some(*n as i32))
        } else {
            None
        },
        SqlValue::Text(_) => None,
    }
}

fn read_opt_bool(c: &SqlValue) -> (r: Option<Option<bool>>)
    ensures
        r == opt_bool_field(c.cell()),
{
    match c {
        SqlValue::Null => Some(None),
        SqlValue::Integer(n) => Some(Some(*n != 0)),
        SqlValue::Text(_) => None,
    }
}

fn read_opt_list(c: &SqlValue) -> (r: Option<Option<Vec<String>>>)
    ensures
        r is Some == opt_list_field(c.cell()) is Some,
        r is Some ==> opt_strs(r->0) == opt_list_field(c.cell())->0,
{
    match c {
        SqlValue::Null => Some(None),
        SqlValue::Text(t) => Some(decode_strings(t.as_str())),
        SqlValue::Integer(_) => None,
    }
}


/// The row that stores an Asset, in the column order of its table.
pub open spec fn asset_cells(a: AssetView) -> Seq<Cell> {
    seq![
        Cell::Text(a.id),
        Cell::Text(a.title),
        Cell::Text(a.asset_type),
        Cell::Text(a.description),
        opt_text_cell(a.registration_number),
        opt_text_cell(a.signature),
        opt_text_cell(a.isbn),
        opt_text_cell(a.author),
        opt_text_cell(a.publisher),
        opt_text_cell(a.publication_place),
        opt_text_cell(a.edition),
        opt_text_cell(a.publication_year),
        opt_text_cell(a.collection_title),
        opt_text_cell(a.collection_number),
        opt_i32_cell(a.volumes),
        opt_i32_cell(a.copies),
        opt_bool_cell(a.is_loanable),
        opt_list_cell(a.subjects),
        opt_list_cell(a.ibic_subjects),
    ]
}

/// The record that a stored row reads back as, or `None` where a column holds a value
/// that its field cannot take.
pub open spec fn asset_of_cells(row: Seq<Cell>) -> Option<AssetView> {
    if row.len() == 19
        && text_field(row[0]) is Some
        && text_field(row[1]) is Some
        && text_field(row[2]) is Some
        && text_field(row[3]) is Some
        && opt_text_field(row[4]) is Some
        && opt_text_field(row[5]) is Some
        && opt_text_field(row[6]) is Some
        && opt_text_field(row[7]) is Some
        && opt_text_field(row[8]) is Some
        && opt_text_field(row[9]) is Some
        && opt_text_field(row[10]) is Some
        && opt_text_field(row[11]) is Some
        && opt_text_field(row[12]) is Some
        && opt_text_field(row[13]) is Some
        && opt_i32_field(row[14]) is Some
        && opt_i32_field(row[15]) is Some
        && opt_bool_field(row[16]) is Some
        && opt_list_field(row[17]) is Some
        && opt_list_field(row[18]) is Some
    {
        Some(AssetView {
            id: text_field(row[0])->0,
            title: text_field(row[1])->0,
            asset_type: text_field(row[2])->0,
            description: text_field(row[3])->0,
            registration_number: opt_text_field(row[4])->0,
            signature: opt_text_field(row[5])->0,
            isbn: opt_text_field(row[6])->0,
            author: opt_text_field(row[7])->0,
            publisher: opt_text_field(row[8])->0,
            publication_place: opt_text_field(row[9])->0,
            edition: opt_text_field(row[10])->0,
            publication_year: opt_text_field(row[11])->0,
            collection_title: opt_text_field(row[12])->0,
            collection_number: opt_text_field(row[13])->0,
            volumes: opt_i32_field(row[14])->0,
            copies: opt_i32_field(row[15])->0,
            is_loanable: opt_bool_field(row[16])->0,
            subjects: opt_list_field(row[17])->0,
            ibic_subjects: opt_list_field(row[18])->0,
        })
    } else {
        None
    }
}

/// The nested lists of the record read back from their encoding.
pub open spec fn asset_lists_round_trip(a: AssetView) -> bool {
    list_round_trips(a.subjects) && list_round_trips(a.ibic_subjects)
}

/// The row that stores `a`.
pub fn asset_to_row(a: &Asset) -> (r: Vec<SqlValue>)
    ensures
        row_cells(r@) == asset_cells(a@),
        asset_lists_round_trip(a@),
{
    let mut r: Vec<SqlValue> = Vec::new();
    r.push(SqlValue::Text(a.id.clone()));
    r.push(SqlValue::Text(a.title.clone()));
    r.push(SqlValue::Text(a.asset_type.clone()));
    r.push(SqlValue::Text(a.description.clone()));
    r.push(opt_text_value(&a.registration_number));
    r.push(opt_text_value(&a.signature));
    r.push(opt_text_value(&a.isbn));
    r.push(opt_text_value(&a.author));
    r.push(opt_text_value(&a.publisher));
    r.push(opt_text_value(&a.publication_place));
    r.push(opt_text_value(&a.edition));
    r.push(opt_text_value(&a.publication_year));
    r.push(opt_text_value(&a.collection_title));
    r.push(opt_text_value(&a.collection_number));
    r.push(opt_i32_value(a.volumes));
    r.push(opt_i32_value(a.copies));
    r.push(opt_bool_value(a.is_loanable));
    r.push(opt_list_value(&a.subjects));
    r.push(opt_list_value(&a.ibic_subjects));
    assert(row_cells(r@) =~= asset_cells(a@));
    r
}

/// The record that `row` holds, or `None` where a column holds a value that its field
/// cannot take.
pub fn asset_from_row(row: &Vec<SqlValue>) -> (r: Option<Asset>)
    ensures
        match r {
            Some(a) => asset_of_cells(row_cells(row@)) == Some(a@),
            None => asset_of_cells(row_cells(row@)) is None,
        },
{
    if row.len() != 19 {
        return None;
    }
    proof {
        assert(row_cells(row@).len() == 19);
    }
    let id = match read_text(&row[0]) {
        Some(v) => v,
        None => return None,
    };
    let title = match read_text(&row[1]) {
        Some(v) => v,
        None => return None,
    };
    let asset_type = match read_text(&row[2]) {
        Some(v) => v,
        None => return None,
    };
    let description = match read_text(&row[3]) {
        Some(v) => v,
        None => return None,
    };
    let registration_number = match read_opt_text(&row[4]) {
        Some(v) => v,
        None => return None,
    };
    let signature = match read_opt_text(&row[5]) {
        Some(v) => v,
        None => return None,
    };
    let isbn = match read_opt_text(&row[6]) {
        Some(v) => v,
        None => return None,
    };
    let author = match read_opt_text(&row[7]) {
        Some(v) => v,
        None => return None,
    };
    let publisher = match read_opt_text(&row[8]) {
        Some(v) => v,
        None => return None,
    };
    let publication_place = match read_opt_text(&row[9]) {
        Some(v) => v,
        None => return None,
    };
    let edition = match read_opt_text(&row[10]) {
        Some(v) => v,
        None => return None,
    };
    let publication_year = match read_opt_text(&row[11]) {
        Some(v) => v,
        None => return None,
    };
    let collection_title = match read_opt_text(&row[12]) {
        Some(v) => v,
        None => return None,
    };
    let collection_number = match read_opt_text(&row[13]) {
        Some(v) => v,
        None => return None,
    };
    let volumes = match read_opt_i32(&row[14]) {
        Some(v) => v,
        None => return None,
    };
    let copies = match read_opt_i32(&row[15]) {
        Some(v) => v,
        None => return None,
    };
    let is_loanable = match read_opt_bool(&row[16]) {
        Some(v) => v,
        None => return None,
    };
    let subjects = match read_opt_list(&row[17]) {
        Some(v) => v,
        None => return None,
    };
    let ibic_subjects = match read_opt_list(&row[18]) {
        Some(v) => v,
        None => return None,
    };
    let a = Asset { id, title, asset_type, description, registration_number, signature, isbn, author, publisher, publication_place, edition, publication_year, collection_title, collection_number, volumes, copies, is_loanable, subjects, ibic_subjects };
    Some(a)
}

/// A record written as a row reads back as itself.
pub proof fn lemma_asset_row_round_trip(a: AssetView)
    requires
        asset_lists_round_trip(a),
    ensures
        asset_of_cells(asset_cells(a)) == Some(a),
{
}

/// The row that stores a User, in the column order of its table.
pub open spec fn user_cells(a: UserView) -> Seq<Cell> {
    seq![
        Cell::Text(a.id),
        Cell::Text(a.user_code),
        Cell::Text(a.name),
        Cell::Text(a.last_name),
        Cell::Text(a.user_type),
        opt_text_cell(a.grade),
    ]
}

/// The record that a stored row reads back as, or `None` where a column holds a value
/// that its field cannot take.
pub open spec fn user_of_cells(row: Seq<Cell>) -> Option<UserView> {
    if row.len() == 6
        && text_field(row[0]) is Some
        && text_field(row[1]) is Some
        && text_field(row[2]) is Some
        && text_field(row[3]) is Some
        && text_field(row[4]) is Some
        && opt_text_field(row[5]) is Some
    {
        Some(UserView {
            id: text_field(row[0])->0,
            user_code: text_field(row[1])->0,
            name: text_field(row[2])->0,
            last_name: text_field(row[3])->0,
            user_type: text_field(row[4])->0,
            grade: opt_text_field(row[5])->0,
        })
    } else {
        None
    }
}

/// The row that stores `a`.
pub fn user_to_row(a: &User) -> (r: Vec<SqlValue>)
    ensures
        row_cells(r@) == user_cells(a@),
{
    let mut r: Vec<SqlValue> = Vec::new();
    r.push(SqlValue::Text(a.id.clone()));
    r.push(SqlValue::Text(a.user_code.clone()));
    r.push(SqlValue::Text(a.name.clone()));
    r.push(SqlValue::Text(a.last_name.clone()));
    r.push(SqlValue::Text(a.user_type.clone()));
    r.push(opt_text_value(&a.grade));
    assert(row_cells(r@) =~= user_cells(a@));
    r
}

/// The record that `row` holds, or `None` where a column holds a value that its field
/// cannot take.
pub fn user_from_row(row: &Vec<SqlValue>) -> (r: Option<User>)
    ensures
        match r {
            Some(a) => user_of_cells(row_cells(row@)) == Some(a@),
            None => user_of_cells(row_cells(row@)) is None,
        },
{
    if row.len() != 6 {
        return None;
    }
    proof {
        assert(row_cells(row@).len() == 6);
    }
    let id = match read_text(&row[0]) {
        Some(v) => v,
        None => return None,
    };
    let user_code = match read_text(&row[1]) {
        Some(v) => v,
        None => return None,
    };
    let name = match read_text(&row[2]) {
        Some(v) => v,
        None => return None,
    };
    let last_name = match read_text(&row[3]) {
        Some(v) => v,
        None => return None,
    };
    let user_type = match read_text(&row[4]) {
        Some(v) => v,
        None => return None,
    };
    let grade = match read_opt_text(&row[5]) {
        Some(v) => v,
        None => return None,
    };
    let a = User { id, user_code, name, last_name, user_type, grade };
    Some(a)
}

/// A record written as a row reads back as itself.
pub proof fn lemma_user_row_round_trip(a: UserView)
    ensures
        user_of_cells(user_cells(a)) == Some(a),
{
}

/// The row that stores an ActiveLoan, in the column order of its table.
pub open spec fn active_loan_cells(a: ActiveLoanView) -> Seq<Cell> {
    seq![
        Cell::Text(a.id),
        Cell::Text(a.asset_id),
        Cell::Text(a.asset_title),
        Cell::Text(a.user_id),
        Cell::Text(a.user_name),
        Cell::Text(a.borrow_date),
    ]
}

/// The record that a stored row reads back as, or `None` where a column holds a value
/// that its field cannot take.
pub open spec fn active_loan_of_cells(row: Seq<Cell>) -> Option<ActiveLoanView> {
    if row.len() == 6
        && text_field(row[0]) is Some
        && text_field(row[1]) is Some
        && text_field(row[2]) is Some
        && text_field(row[3]) is Some
        && text_field(row[4]) is Some
        && text_field(row[5]) is Some
    {
        Some(ActiveLoanView {
            id: text_field(row[0])->0,
            asset_id: text_field(row[1])->0,
            asset_title: text_field(row[2])->0,
            user_id: text_field(row[3])->0,
            user_name: text_field(row[4])->0,
            borrow_date: text_field(row[5])->0,
        })
    } else {
        None
    }
}

/// The row that stores `a`.
pub fn active_loan_to_row(a: &ActiveLoan) -> (r: Vec<SqlValue>)
    ensures
        row_cells(r@) == active_loan_cells(a@),
{
    let mut r: Vec<SqlValue> = Vec::new();
    r.push(SqlValue::Text(a.id.clone()));
    r.push(SqlValue::Text(a.asset_id.clone()));
    r.push(SqlValue::Text(a.asset_title.clone()));
    r.push(SqlValue::Text(a.user_id.clone()));
    r.push(SqlValue::Text(a.user_name.clone()));
    r.push(SqlValue::Text(a.borrow_date.clone()));
    assert(row_cells(r@) =~= active_loan_cells(a@));
    r
}

/// The record that `row` holds, or `None` where a column holds a value that its field
/// cannot take.
pub fn active_loan_from_row(row: &Vec<SqlValue>) -> (r: Option<ActiveLoan>)
    ensures
        match r {
            Some(a) => active_loan_of_cells(row_cells(row@)) == Some(a@),
            None => active_loan_of_cells(row_cells(row@)) is None,
        },
{
    if row.len() != 6 {
        return None;
    }
    proof {
        assert(row_cells(row@).len() == 6);
    }
    let id = match read_text(&row[0]) {
        Some(v) => v,
        None => return None,
    };
    let asset_id = match read_text(&row[1]) {
        Some(v) => v,
        None => return None,
    };
    let asset_title = match read_text(&row[2]) {
        Some(v) => v,
        None => return None,
    };
    let user_id = match read_text(&row[3]) {
        Some(v) => v,
        None => return None,
    };
    let user_name = match read_text(&row[4]) {
        Some(v) => v,
        None => return None,
    };
    let borrow_date = match read_text(&row[5]) {
        Some(v) => v,
        None => return None,
    };
    let a = ActiveLoan { id, asset_id, asset_title, user_id, user_name, borrow_date };
    Some(a)
}

/// A record written as a row reads back as itself.
pub proof fn lemma_active_loan_row_round_trip(a: ActiveLoanView)
    ensures
        active_loan_of_cells(active_loan_cells(a)) == Some(a),
{
}

/// The row that stores a LoanHistoryRecord, in the column order of its table.
pub open spec fn loan_history_record_cells(a: LoanHistoryRecordView) -> Seq<Cell> {
    seq![
        Cell::Text(a.id),
        Cell::Text(a.asset_id),
        Cell::Text(a.asset_title),
        Cell::Text(a.user_id),
        Cell::Text(a.user_name),
        Cell::Text(a.borrow_date),
        Cell::Text(a.return_date),
    ]
}

/// The record that a stored row reads back as, or `None` where a column holds a value
/// that its field cannot take.
pub open spec fn loan_history_record_of_cells(row: Seq<Cell>) -> Option<LoanHistoryRecordView> {
    if row.len() == 7
        && text_field(row[0]) is Some
        && text_field(row[1]) is Some
        && text_field(row[2]) is Some
        && text_field(row[3]) is Some
        && text_field(row[4]) is Some
        && text_field(row[5]) is Some
        && text_field(row[6]) is Some
    {
        Some(LoanHistoryRecordView {
            id: text_field(row[0])->0,
            asset_id: text_field(row[1])->0,
            asset_title: text_field(row[2])->0,
            user_id: text_field(row[3])->0,
            user_name: text_field(row[4])->0,
            borrow_date: text_field(row[5])->0,
            return_date: text_field(row[6])->0,
        })
    } else {
        None
    }
}

/// The row that stores `a`.
pub fn loan_history_record_to_row(a: &LoanHistoryRecord) -> (r: Vec<SqlValue>)
    ensures
        row_cells(r@) == loan_history_record_cells(a@),
{
    let mut r: Vec<SqlValue> = Vec::new();
    r.push(SqlValue::Text(a.id.clone()));
    r.push(SqlValue::Text(a.asset_id.clone()));
    r.push(SqlValue::Text(a.asset_title.clone()));
    r.push(SqlValue::Text(a.user_id.clone()));
    r.push(SqlValue::Text(a.user_name.clone()));
    r.push(SqlValue::Text(a.borrow_date.clone()));
    r.push(SqlValue::Text(a.return_date.clone()));
    assert(row_cells(r@) =~= loan_history_record_cells(a@));
    r
}

/// The record that `row` holds, or `None` where a column holds a value that its field
/// cannot take.
pub fn loan_history_record_from_row(row: &Vec<SqlValue>) -> (r: Option<LoanHistoryRecord>)
    ensures
        match r {
            Some(a) => loan_history_record_of_cells(row_cells(row@)) == Some(a@),
            None => loan_history_record_of_cells(row_cells(row@)) is None,
        },
{
    if row.len() != 7 {
        return None;
    }
    proof {
        assert(row_cells(row@).len() == 7);
    }
    let id = match read_text(&row[0]) {
        Some(v) => v,
        None => return None,
    };
    let asset_id = match read_text(&row[1]) {
        Some(v) => v,
        None => return None,
    };
    let asset_title = match read_text(&row[2]) {
        Some(v) => v,
        None => return None,
    };
    let user_id = match read_text(&row[3]) {
        Some(v) => v,
        None => return None,
    };
    let user_name = match read_text(&row[4]) {
        Some(v) => v,
        None => return None,
    };
    let borrow_date = match read_text(&row[5]) {
        Some(v) => v,
        None => return None,
    };
    let return_date = match read_text(&row[6]) {
        Some(v) => v,
        None => return None,
    };
    let a = LoanHistoryRecord { id, asset_id, asset_title, user_id, user_name, borrow_date, return_date };
    Some(a)
}

/// A record written as a row reads back as itself.
pub proof fn lemma_loan_history_record_row_round_trip(a: LoanHistoryRecordView)
    ensures
        loan_history_record_of_cells(loan_history_record_cells(a)) == Some(a),
{
}


pub open spec fn asset_decoder() -> spec_fn(Seq<Cell>) -> Option<AssetView> {
    |row: Seq<Cell>| asset_of_cells(row)
}

pub open spec fn asset_encoder() -> spec_fn(AssetView) -> Seq<Cell> {
    |a: AssetView| asset_cells(a)
}

pub open spec fn asset_views(s: Seq<Asset>) -> Seq<AssetView> {
    s.map_values(|a: Asset| a@)
}

pub open spec fn user_decoder() -> spec_fn(Seq<Cell>) -> Option<UserView> {
    |row: Seq<Cell>| user_of_cells(row)
}

pub open spec fn user_encoder() -> spec_fn(UserView) -> Seq<Cell> {
    |a: UserView| user_cells(a)
}

pub open spec fn user_views(s: Seq<User>) -> Seq<UserView> {
    s.map_values(|a: User| a@)
}

pub open spec fn active_loan_decoder() -> spec_fn(Seq<Cell>) -> Option<ActiveLoanView> {
    |row: Seq<Cell>| active_loan_of_cells(row)
}

pub open spec fn active_loan_encoder() -> spec_fn(ActiveLoanView) -> Seq<Cell> {
    |a: ActiveLoanView| active_loan_cells(a)
}

pub open spec fn active_loan_views(s: Seq<ActiveLoan>) -> Seq<ActiveLoanView> {
    s.map_values(|a: ActiveLoan| a@)
}

pub open spec fn loan_history_record_decoder() -> spec_fn(Seq<Cell>) -> Option<LoanHistoryRecordView> {
    |row: Seq<Cell>| loan_history_record_of_cells(row)
}

pub open spec fn loan_history_record_encoder() -> spec_fn(LoanHistoryRecordView) -> Seq<Cell> {
    |a: LoanHistoryRecordView| loan_history_record_cells(a)
}

pub open spec fn loan_history_record_views(s: Seq<LoanHistoryRecord>) -> Seq<LoanHistoryRecordView> {
    s.map_values(|a: LoanHistoryRecord| a@)
}

/// The records that a sequence of rows reads back as, or `None` where one of them fails.
pub open spec fn decode_all<A>(rows: Seq<Seq<Cell>>, dec: spec_fn(Seq<Cell>) -> Option<A>) -> Option<Seq<A>> {
    if forall|i: int| 0 <= i < rows.len() ==> (#[trigger] dec(rows[i])) is Some {
        Some(rows.map_values(|row: Seq<Cell>| dec(row)->0))
    } else {
        None
    }
}





/// Some key occurs twice.
pub open spec fn has_repeats(keys: Seq<Seq<char>>) -> bool {
    exists|i: int, j: int| 0 <= i < j < keys.len() && keys[i] == keys[j]
}

pub fn has_repeated(keys: &Vec<String>) -> (r: bool)
    ensures
        r == has_repeats(strs(keys@)),
{
    let ghost k = strs(keys@);
    let mut i: usize = 0;
    while i < keys.len()
        invariant
            i <= keys@.len(),
            k == strs(keys@),
            forall|a: int, b: int| 0 <= a < i && a < b < k.len() ==> k[a] != k[b],
        decreases keys.len() - i,
    {
        let mut j: usize = i + 1;
        while j < keys.len()
            invariant
                i < keys@.len(),
                i < j <= keys@.len(),
                k == strs(keys@),
                forall|a: int, b: int| 0 <= a < i && a < b < k.len() ==> k[a] != k[b],
                forall|b: int| i < b < j ==> k[i as int] != k[b],
            decreases keys.len() - j,
        {
            if keys[i] == keys[j] {
                assert(k[i as int] == k[j as int]);
                return true;
            }
            j = j + 1;
        }
        i = i + 1;
    }
    false
}

pub open spec fn asset_ids(s: Seq<AssetView>) -> Seq<Seq<char>> {
    s.map_values(|a: AssetView| a.id)
}

fn asset_ids_of(records: &[Asset]) -> (r: Vec<String>)
    ensures
        strs(r@) == asset_ids(asset_views(records@)),
{
    let mut r: Vec<String> = Vec::new();
    let mut i: usize = 0;
    while i < records.len()
        invariant
            i <= records@.len(),
            r@.len() == i,
            forall|j: int| 0 <= j < i ==> (#[trigger] r@[j])@ == records@[j].id@,
        decreases records.len() - i,
    {
        r.push(records[i].id.clone());
        i = i + 1;
    }
    assert(strs(r@) =~= asset_ids(asset_views(records@)));
    r
}

/// The table's keys would repeat: two records share an id.
pub open spec fn asset_keys_repeat(s: Seq<AssetView>) -> bool {
    has_repeats(asset_ids(s))
}

pub fn assets_keys_repeat(records: &[Asset]) -> (r: bool)
    ensures
        r == asset_keys_repeat(asset_views(records@)),
{
    let ids = asset_ids_of(records);
    has_repeated(&ids)
}

/// The rows that store `records`, in order.
pub fn assets_to_rows(records: &[Asset]) -> (r: Vec<Vec<SqlValue>>)
    ensures
        rows_cells(r@) == asset_views(records@).map_values(asset_encoder()),
        forall|i: int| 0 <= i < records@.len() ==> asset_lists_round_trip(#[trigger] records@[i]@),
{
    let mut rows: Vec<Vec<SqlValue>> = Vec::new();
    let mut i: usize = 0;
    while i < records.len()
        invariant
            i <= records@.len(),
            rows@.len() == i,
            forall|j: int| 0 <= j < i ==> row_cells(#[trigger] rows@[j]@) == asset_cells(records@[j]@),
            forall|j: int| 0 <= j < i ==> asset_lists_round_trip(#[trigger] records@[j]@),
        decreases records.len() - i,
    {
        let row = asset_to_row(&records[i]);
        rows.push(row);
        i = i + 1;
    }
    assert(rows_cells(rows@) =~= asset_views(records@).map_values(asset_encoder()));
    rows
}

/// The records that `rows` hold, in order; `InvalidRow` where one of them holds a value
/// that its field cannot take.
pub fn assets_from_rows(rows: &Vec<Vec<SqlValue>>) -> (r: Result<Vec<Asset>, DbError>)
    ensures
        r is Ok == (decode_all(rows_cells(rows@), asset_decoder()) is Some),
        r is Ok ==> asset_views(r->Ok_0@) == decode_all(rows_cells(rows@), asset_decoder())->0,
        r is Err ==> r->Err_0 is InvalidRow,
{
    let ghost cells = rows_cells(rows@);
    let mut out: Vec<Asset> = Vec::new();
    let mut i: usize = 0;
    while i < rows.len()
        invariant
            i <= rows@.len(),
            cells == rows_cells(rows@),
            out@.len() == i,
            forall|j: int| 0 <= j < i ==> asset_of_cells(cells[j]) == Some(#[trigger] out@[j]@),
        decreases rows.len() - i,
    {
        match asset_from_row(&rows[i]) {
            Some(a) => out.push(a),
            None => {
                assert(asset_decoder()(cells[i as int]) is None);
                return Err(DbError::InvalidRow);
            },
        }
        i = i + 1;
    }
    assert forall|j: int| 0 <= j < cells.len() implies (asset_decoder()(cells[j])) is Some by {
        assert(asset_of_cells(cells[j]) == Some(out@[j]@));
    }
    assert(decode_all(cells, asset_decoder())->0 =~= asset_views(out@));
    Ok(out)
}

pub open spec fn user_ids(s: Seq<UserView>) -> Seq<Seq<char>> {
    s.map_values(|a: UserView| a.id)
}

fn user_ids_of(records: &[User]) -> (r: Vec<String>)
    ensures
        strs(r@) == user_ids(user_views(records@)),
{
    let mut r: Vec<String> = Vec::new();
    let mut i: usize = 0;
    while i < records.len()
        invariant
            i <= records@.len(),
            r@.len() == i,
            forall|j: int| 0 <= j < i ==> (#[trigger] r@[j])@ == records@[j].id@,
        decreases records.len() - i,
    {
        r.push(records[i].id.clone());
        i = i + 1;
    }
    assert(strs(r@) =~= user_ids(user_views(records@)));
    r
}

pub open spec fn user_codes(s: Seq<UserView>) -> Seq<Seq<char>> {
    s.map_values(|a: UserView| a.user_code)
}

fn user_codes_of(records: &[User]) -> (r: Vec<String>)
    ensures
        strs(r@) == user_codes(user_views(records@)),
{
    let mut r: Vec<String> = Vec::new();
    let mut i: usize = 0;
    while i < records.len()
        invariant
            i <= records@.len(),
            r@.len() == i,
            forall|j: int| 0 <= j < i ==> (#[trigger] r@[j])@ == records@[j].user_code@,
        decreases records.len() - i,
    {
        r.push(records[i].user_code.clone());
        i = i + 1;
    }
    assert(strs(r@) =~= user_codes(user_views(records@)));
    r
}

/// The table's keys would repeat: two records share an id or a user code.
pub open spec fn user_keys_repeat(s: Seq<UserView>) -> bool {
    has_repeats(user_ids(s)) || has_repeats(user_codes(s))
}

pub fn users_keys_repeat(records: &[User]) -> (r: bool)
    ensures
        r == user_keys_repeat(user_views(records@)),
{
    let ids = user_ids_of(records);
    let codes = user_codes_of(records);
    has_repeated(&ids) || has_repeated(&codes)
}

/// The rows that store `records`, in order.
pub fn users_to_rows(records: &[User]) -> (r: Vec<Vec<SqlValue>>)
    ensures
        rows_cells(r@) == user_views(records@).map_values(user_encoder()),
{
    let mut rows: Vec<Vec<SqlValue>> = Vec::new();
    let mut i: usize = 0;
    while i < records.len()
        invariant
            i <= records@.len(),
            rows@.len() == i,
            forall|j: int| 0 <= j < i ==> row_cells(#[trigger] rows@[j]@) == user_cells(records@[j]@),
        decreases records.len() - i,
    {
        let row = user_to_row(&records[i]);
        rows.push(row);
        i = i + 1;
    }
    assert(rows_cells(rows@) =~= user_views(records@).map_values(user_encoder()));
    rows
}

/// The records that `rows` hold, in order; `InvalidRow` where one of them holds a value
/// that its field cannot take.
pub fn users_from_rows(rows: &Vec<Vec<SqlValue>>) -> (r: Result<Vec<User>, DbError>)
    ensures
        r is Ok == (decode_all(rows_cells(rows@), user_decoder()) is Some),
        r is Ok ==> user_views(r->Ok_0@) == decode_all(rows_cells(rows@), user_decoder())->0,
        r is Err ==> r->Err_0 is InvalidRow,
{
    let ghost cells = rows_cells(rows@);
    let mut out: Vec<User> = Vec::new();
    let mut i: usize = 0;
    while i < rows.len()
        invariant
            i <= rows@.len(),
            cells == rows_cells(rows@),
            out@.len() == i,
            forall|j: int| 0 <= j < i ==> user_of_cells(cells[j]) == Some(#[trigger] out@[j]@),
        decreases rows.len() - i,
    {
        match user_from_row(&rows[i]) {
            Some(a) => out.push(a),
            None => {
                assert(user_decoder()(cells[i as int]) is None);
                return Err(DbError::InvalidRow);
            },
        }
        i = i + 1;
    }
    assert forall|j: int| 0 <= j < cells.len() implies (user_decoder()(cells[j])) is Some by {
        assert(user_of_cells(cells[j]) == Some(out@[j]@));
    }
    assert(decode_all(cells, user_decoder())->0 =~= user_views(out@));
    Ok(out)
}

pub open spec fn active_loan_ids(s: Seq<ActiveLoanView>) -> Seq<Seq<char>> {
    s.map_values(|a: ActiveLoanView| a.id)
}

fn active_loan_ids_of(records: &[ActiveLoan]) -> (r: Vec<String>)
    ensures
        strs(r@) == active_loan_ids(active_loan_views(records@)),
{
    let mut r: Vec<String> = Vec::new();
    let mut i: usize = 0;
    while i < records.len()
        invariant
            i <= records@.len(),
            r@.len() == i,
            forall|j: int| 0 <= j < i ==> (#[trigger] r@[j])@ == records@[j].id@,
        decreases records.len() - i,
    {
        r.push(records[i].id.clone());
        i = i + 1;
    }
    assert(strs(r@) =~= active_loan_ids(active_loan_views(records@)));
    r
}

/// The table's keys would repeat: two records share an id.
pub open spec fn active_loan_keys_repeat(s: Seq<ActiveLoanView>) -> bool {
    has_repeats(active_loan_ids(s))
}

pub fn active_loans_keys_repeat(records: &[ActiveLoan]) -> (r: bool)
    ensures
        r == active_loan_keys_repeat(active_loan_views(records@)),
{
    let ids = active_loan_ids_of(records);
    has_repeated(&ids)
}

/// The rows that store `records`, in order.
pub fn active_loans_to_rows(records: &[ActiveLoan]) -> (r: Vec<Vec<SqlValue>>)
    ensures
        rows_cells(r@) == active_loan_views(records@).map_values(active_loan_encoder()),
{
    let mut rows: Vec<Vec<SqlValue>> = Vec::new();
    let mut i: usize = 0;
    while i < records.len()
        invariant
            i <= records@.len(),
            rows@.len() == i,
            forall|j: int| 0 <= j < i ==> row_cells(#[trigger] rows@[j]@) == active_loan_cells(records@[j]@),
        decreases records.len() - i,
    {
        let row = active_loan_to_row(&records[i]);
        rows.push(row);
        i = i + 1;
    }
    assert(rows_cells(rows@) =~= active_loan_views(records@).map_values(active_loan_encoder()));
    rows
}

/// The records that `rows` hold, in order; `InvalidRow` where one of them holds a value
/// that its field cannot take.
pub fn active_loans_from_rows(rows: &Vec<Vec<SqlValue>>) -> (r: Result<Vec<ActiveLoan>, DbError>)
    ensures
        r is Ok == (decode_all(rows_cells(rows@), active_loan_decoder()) is Some),
        r is Ok ==> active_loan_views(r->Ok_0@) == decode_all(rows_cells(rows@), active_loan_decoder())->0,
        r is Err ==> r->Err_0 is InvalidRow,
{
    let ghost cells = rows_cells(rows@);
    let mut out: Vec<ActiveLoan> = Vec::new();
    let mut i: usize = 0;
    while i < rows.len()
        invariant
            i <= rows@.len(),
            cells == rows_cells(rows@),
            out@.len() == i,
            forall|j: int| 0 <= j < i ==> active_loan_of_cells(cells[j]) == Some(#[trigger] out@[j]@),
        decreases rows.len() - i,
    {
        match active_loan_from_row(&rows[i]) {
            Some(a) => out.push(a),
            None => {
                assert(active_loan_decoder()(cells[i as int]) is None);
                return Err(DbError::InvalidRow);
            },
        }
        i = i + 1;
    }
    assert forall|j: int| 0 <= j < cells.len() implies (active_loan_decoder()(cells[j])) is Some by {
        assert(active_loan_of_cells(cells[j]) == Some(out@[j]@));
    }
    assert(decode_all(cells, active_loan_decoder())->0 =~= active_loan_views(out@));
    Ok(out)
}

pub open spec fn loan_history_record_ids(s: Seq<LoanHistoryRecordView>) -> Seq<Seq<char>> {
    s.map_values(|a: LoanHistoryRecordView| a.id)
}

fn loan_history_record_ids_of(records: &[LoanHistoryRecord]) -> (r: Vec<String>)
    ensures
        strs(r@) == loan_history_record_ids(loan_history_record_views(records@)),
{
    let mut r: Vec<String> = Vec::new();
    let mut i: usize = 0;
    while i < records.len()
        invariant
            i <= records@.len(),
            r@.len() == i,
            forall|j: int| 0 <= j < i ==> (#[trigger] r@[j])@ == records@[j].id@,
        decreases records.len() - i,
    {
        r.push(records[i].id.clone());
        i = i + 1;
    }
    assert(strs(r@) =~= loan_history_record_ids(loan_history_record_views(records@)));
    r
}

/// The table's keys would repeat: two records share an id.
pub open spec fn loan_history_record_keys_repeat(s: Seq<LoanHistoryRecordView>) -> bool {
    has_repeats(loan_history_record_ids(s))
}

pub fn loan_history_keys_repeat(records: &[LoanHistoryRecord]) -> (r: bool)
    ensures
        r == loan_history_record_keys_repeat(loan_history_record_views(records@)),
{
    let ids = loan_history_record_ids_of(records);
    has_repeated(&ids)
}

/// The rows that store `records`, in order.
pub fn loan_history_to_rows(records: &[LoanHistoryRecord]) -> (r: Vec<Vec<SqlValue>>)
    ensures
        rows_cells(r@) == loan_history_record_views(records@).map_values(loan_history_record_encoder()),
{
    let mut rows: Vec<Vec<SqlValue>> = Vec::new();
    let mut i: usize = 0;
    while i < records.len()
        invariant
            i <= records@.len(),
            rows@.len() == i,
            forall|j: int| 0 <= j < i ==> row_cells(#[trigger] rows@[j]@) == loan_history_record_cells(records@[j]@),
        decreases records.len() - i,
    {
        let row = loan_history_record_to_row(&records[i]);
        rows.push(row);
        i = i + 1;
    }
    assert(rows_cells(rows@) =~= loan_history_record_views(records@).map_values(loan_history_record_encoder()));
    rows
}

/// The records that `rows` hold, in order; `InvalidRow` where one of them holds a value
/// that its field cannot take.
pub fn loan_history_from_rows(rows: &Vec<Vec<SqlValue>>) -> (r: Result<Vec<LoanHistoryRecord>, DbError>)
    ensures
        r is Ok == (decode_all(rows_cells(rows@), loan_history_record_decoder()) is Some),
        r is Ok ==> loan_history_record_views(r->Ok_0@) == decode_all(rows_cells(rows@), loan_history_record_decoder())->0,
        r is Err ==> r->Err_0 is InvalidRow,
{
    let ghost cells = rows_cells(rows@);
    let mut out: Vec<LoanHistoryRecord> = Vec::new();
    let mut i: usize = 0;
    while i < rows.len()
        invariant
            i <= rows@.len(),
            cells == rows_cells(rows@),
            out@.len() == i,
            forall|j: int| 0 <= j < i ==> loan_history_record_of_cells(cells[j]) == Some(#[trigger] out@[j]@),
        decreases rows.len() - i,
    {
        match loan_history_record_from_row(&rows[i]) {
            Some(a) => out.push(a),
            None => {
                assert(loan_history_record_decoder()(cells[i as int]) is None);
                return Err(DbError::InvalidRow);
            },
        }
        i = i + 1;
    }
    assert forall|j: int| 0 <= j < cells.len() implies (loan_history_record_decoder()(cells[j])) is Some by {
        assert(loan_history_record_of_cells(cells[j]) == Some(out@[j]@));
    }
    assert(decode_all(cells, loan_history_record_decoder())->0 =~= loan_history_record_views(out@));
    Ok(out)
}

} // verus!
