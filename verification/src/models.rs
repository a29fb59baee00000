//! The data records that travel over the wire.
//!
//! Each record is a plain value: opaque strings, an integer amount, and
//! server-assigned integer identifiers. Each executable record has a ghost
//! view (`ExpenseV`, `GenreV`, ...) over mathematical types, and every
//! contract in the crate speaks of records through these views.

use vstd::prelude::*;

verus! {

/// Mathematical view of an [`Expense`].
pub ghost struct ExpenseV {
    pub date: Seq<char>,
    pub genre: Seq<char>,
    pub amount: int,
}

/// Mathematical view of an [`ExpenseWithId`].
pub ghost struct ExpenseWithIdV {
    pub id: int,
    pub date: Seq<char>,
    pub genre: Seq<char>,
    pub amount: int,
}

/// Mathematical view of a [`Genre`].
pub ghost struct GenreV {
    pub name: Seq<char>,
}

/// Mathematical view of a [`GenreWithId`].
pub ghost struct GenreWithIdV {
    pub id: int,
    pub name: Seq<char>,
    pub created_at: Seq<char>,
}

/// Mathematical view of an [`ApiMessage`].
pub ghost struct ApiMessageV {
    pub message: Option<Seq<char>>,
    pub error: Option<Seq<char>>,
}

/// A spending record as the caller submits it: no identifier yet.
///
/// The date and genre are opaque text; the client validates neither.
#[derive(Debug, Clone, PartialEq)]
pub struct Expense {
    /// Date of the expense, passed through verbatim (e.g. "2025-01-15").
    pub date: String,
    /// Name of the genre the expense belongs to.
    pub genre: String,
    /// Amount spent; not validated client-side.
    pub amount: i32,
}

impl View for Expense {
    type V = ExpenseV;

    open spec fn view(&self) -> ExpenseV {
        ExpenseV { date: self.date@, genre: self.genre@, amount: self.amount as int }
    }
}

impl Expense {
    /// Builds an expense record from its parts, unchanged.
    pub fn new(date: String, genre: String, amount: i32) -> (r: Self)
        ensures
            r@ == (ExpenseV { date: date@, genre: genre@, amount: amount as int }),
    {
        Expense { date, genre, amount }
    }
}

/// A spending record as the server returns it, with its assigned identifier.
#[derive(Debug, Clone, PartialEq)]
pub struct ExpenseWithId {
    /// Server-assigned identifier.
    pub id: i32,
    /// Date of the expense.
    pub date: String,
    /// Name of the genre the expense belongs to.
    pub genre: String,
    /// Amount spent.
    pub amount: i32,
}

impl View for ExpenseWithId {
    type V = ExpenseWithIdV;

    open spec fn view(&self) -> ExpenseWithIdV {
        ExpenseWithIdV {
            id: self.id as int,
            date: self.date@,
            genre: self.genre@,
            amount: self.amount as int,
        }
    }
}

/// An expense category as the caller submits it: a bare name.
#[derive(Debug, Clone, PartialEq)]
pub struct Genre {
    /// Name of the genre.
    pub name: String,
}

impl View for Genre {
    type V = GenreV;

    open spec fn view(&self) -> GenreV {
        GenreV { name: self.name@ }
    }
}

impl Genre {
    /// Builds a genre record from its name, unchanged.
    pub fn new(name: String) -> (r: Self)
        ensures
            r@ == (GenreV { name: name@ }),
    {
        Genre { name }
    }
}

/// An expense category as the server returns it, with identifier and
/// creation timestamp.
#[derive(Debug, Clone, PartialEq)]
pub struct GenreWithId {
    /// Server-assigned identifier.
    pub id: i32,
    /// Name of the genre.
    pub name: String,
    /// Creation timestamp, passed through verbatim.
    pub created_at: String,
}

impl View for GenreWithId {
    type V = GenreWithIdV;

    open spec fn view(&self) -> GenreWithIdV {
        GenreWithIdV { id: self.id as int, name: self.name@, created_at: self.created_at@ }
    }
}

/// The response envelope of every write operation: an optional success
/// message and an optional error message, either of which the server may
/// omit.
#[derive(Debug, Clone, PartialEq)]
pub struct ApiMessage {
    /// Success message, if the server sent one.
    pub message: Option<String>,
    /// Error message, if the server sent one.
    pub error: Option<String>,
}

impl View for ApiMessage {
    type V = ApiMessageV;

    open spec fn view(&self) -> ApiMessageV {
        ApiMessageV {
            message: match self.message {
                Some(ref m) => Some(m@),
                None => None,
            },
            error: match self.error {
                Some(ref e) => Some(e@),
                None => None,
            },
        }
    }
}

} // verus!
