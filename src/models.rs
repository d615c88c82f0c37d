use vstd::prelude::*;

verus! {

pub open spec fn opt_str(o: Option<String>) -> Option<Seq<char>> {
    match o {
        Some(s) => Some(s@),
        None => None,
    }
}

pub open spec fn strs(v: Seq<String>) -> Seq<Seq<char>> {
    v.map_values(|s: String| s@)
}

pub open spec fn opt_strs(o: Option<Vec<String>>) -> Option<Seq<Seq<char>>> {
    match o {
        Some(v) => Some(strs(v@)),
        None => None,
    }
}

/// A catalog item: a book or any other thing that can be lent.
#[derive(Clone, Debug, PartialEq, Eq)]
pub struct Asset {
    pub id: String,
    pub title: String,
    pub asset_type: String,
    pub description: String,
    pub registration_number: Option<String>,
    pub signature: Option<String>,
    pub isbn: Option<String>,
    pub author: Option<String>,
    pub publisher: Option<String>,
    pub publication_place: Option<String>,
    pub edition: Option<String>,
    pub publication_year: Option<String>,
    pub collection_title: Option<String>,
    pub collection_number: Option<String>,
    pub volumes: Option<i32>,
    pub copies: Option<i32>,
    pub is_loanable: Option<bool>,
    pub subjects: Option<Vec<String>>,
    pub ibic_subjects: Option<Vec<String>>,
}

pub struct AssetView {
    pub id: Seq<char>,
    pub title: Seq<char>,
    pub asset_type: Seq<char>,
    pub description: Seq<char>,
    pub registration_number: Option<Seq<char>>,
    pub signature: Option<Seq<char>>,
    pub isbn: Option<Seq<char>>,
    pub author: Option<Seq<char>>,
    pub publisher: Option<Seq<char>>,
    pub publication_place: Option<Seq<char>>,
    pub edition: Option<Seq<char>>,
    pub publication_year: Option<Seq<char>>,
    pub collection_title: Option<Seq<char>>,
    pub collection_number: Option<Seq<char>>,
    pub volumes: Option<i32>,
    pub copies: Option<i32>,
    pub is_loanable: Option<bool>,
    pub subjects: Option<Seq<Seq<char>>>,
    pub ibic_subjects: Option<Seq<Seq<char>>>,
}

impl View for Asset {
    type V = AssetView;

    open spec fn view(&self) -> AssetView {
        AssetView {
            id: self.id@,
            title: self.title@,
            asset_type: self.asset_type@,
            description: self.description@,
            registration_number: opt_str(self.registration_number),
            signature: opt_str(self.signature),
            isbn: opt_str(self.isbn),
            author: opt_str(self.author),
            publisher: opt_str(self.publisher),
            publication_place: opt_str(self.publication_place),
            edition: opt_str(self.edition),
            publication_year: opt_str(self.publication_year),
            collection_title: opt_str(self.collection_title),
            collection_number: opt_str(self.collection_number),
            volumes: self.volumes,
            copies: self.copies,
            is_loanable: self.is_loanable,
            subjects: opt_strs(self.subjects),
            ibic_subjects: opt_strs(self.ibic_subjects),
        }
    }
}

/// A registered borrower.
#[derive(Clone, Debug, PartialEq, Eq)]
pub struct User {
    pub id: String,
    pub user_code: String,
    pub name: String,
    pub last_name: String,
    pub user_type: String,
    pub grade: Option<String>,
}

pub struct UserView {
    pub id: Seq<char>,
    pub user_code: Seq<char>,
    pub name: Seq<char>,
    pub last_name: Seq<char>,
    pub user_type: Seq<char>,
    pub grade: Option<Seq<char>>,
}

impl View for User {
    type V = UserView;

    open spec fn view(&self) -> UserView {
        UserView {
            id: self.id@,
            user_code: self.user_code@,
            name: self.name@,
            last_name: self.last_name@,
            user_type: self.user_type@,
            grade: opt_str(self.grade),
        }
    }
}

/// A loan that is still open, with a snapshot of the asset's title and the user's name.
#[derive(Clone, Debug, PartialEq, Eq)]
pub struct ActiveLoan {
    pub id: String,
    pub asset_id: String,
    pub asset_title: String,
    pub user_id: String,
    pub user_name: String,
    pub borrow_date: String,
}

pub struct ActiveLoanView {
    pub id: Seq<char>,
    pub asset_id: Seq<char>,
    pub asset_title: Seq<char>,
    pub user_id: Seq<char>,
    pub user_name: Seq<char>,
    pub borrow_date: Seq<char>,
}

impl View for ActiveLoan {
    type V = ActiveLoanView;

    open spec fn view(&self) -> ActiveLoanView {
        ActiveLoanView {
            id: self.id@,
            asset_id: self.asset_id@,
            asset_title: self.asset_title@,
            user_id: self.user_id@,
            user_name: self.user_name@,
            borrow_date: self.borrow_date@,
        }
    }
}

/// A closed loan, with the date it was returned.
#[derive(Clone, Debug, PartialEq, Eq)]
pub struct LoanHistoryRecord {
    pub id: String,
    pub asset_id: String,
    pub asset_title: String,
    pub user_id: String,
    pub user_name: String,
    pub borrow_date: String,
    pub return_date: String,
}

pub struct LoanHistoryRecordView {
    pub id: Seq<char>,
    pub asset_id: Seq<char>,
    pub asset_title: Seq<char>,
    pub user_id: Seq<char>,
    pub user_name: Seq<char>,
    pub borrow_date: Seq<char>,
    pub return_date: Seq<char>,
}

impl View for LoanHistoryRecord {
    type V = LoanHistoryRecordView;

    open spec fn view(&self) -> LoanHistoryRecordView {
        LoanHistoryRecordView {
            id: self.id@,
            asset_id: self.asset_id@,
            asset_title: self.asset_title@,
            user_id: self.user_id@,
            user_name: self.user_name@,
            borrow_date: self.borrow_date@,
            return_date: self.return_date@,
        }
    }
}

} // verus!
