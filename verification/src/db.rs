//! The records that the store keeps, and the questions that are put to it.

use crate::date::Date;
use crate::decimal::Decimal;
use vstd::prelude::*;

verus! {

/// A thing to do.
#[derive(Debug)]
pub struct Todo {
    pub id: i64,
    pub description: String,
}

impl Todo {
    /// A thing to do.
    pub fn new(id: i64, description: String) -> (r: Todo)
        ensures
            r.id == id,
            r.description == description,
    {
        Todo { id, description }
    }
}

/// A sum of money that was spent, with the day on which it was.
#[derive(Debug)]
pub struct MoneyTransaction {
    pub id: i64,
    pub title: String,
    pub amount: Decimal,
    pub details: String,
    pub date: Date,
}

impl MoneyTransaction {
    /// A transaction that the store has not numbered yet: its number is -1.
    pub fn new(title: String, amount: Decimal, details: String, date: Date) -> (r:
        MoneyTransaction)
        ensures
            r.id == -1,
            r.title == title,
            r.amount == amount,
            r.details == details,
            r.date == date,
    {
        MoneyTransaction { id: -1, title, amount, details, date }
    }

    /// A copy of the transaction.
    pub fn duplicate(&self) -> (r: MoneyTransaction)
        ensures
            r == *self,
    {
        MoneyTransaction {
            id: self.id,
            title: self.title.clone(),
            amount: self.amount,
            details: self.details.clone(),
            date: self.date,
        }
    }
}

/// A film.
#[derive(Debug)]
pub struct Movie {
    pub id: i64,
    pub imdb_id: String,
    pub name: String,
    pub rating: Decimal,
    pub date_watched: Option<Date>,
}

/// A series of a film.
#[derive(Debug)]
pub struct Series {
    pub id: i64,
    pub movie_id: i64,
    pub title: String,
    pub rating: Decimal,
}

/// An episode of a series.
#[derive(Debug)]
pub struct Episode {
    pub id: i64,
    pub movie_id: i64,
    pub series_id: i64,
    pub title: String,
    pub rating: Decimal,
    pub date_watched: Option<Date>,
}

/// A question for transactions: those whose title holds `keyword` and whose
/// amount lies from `min` to `max`, newest first, `limit` of them at most,
/// from the one with index `offset` on.
#[derive(Debug)]
pub struct TransactionQuery {
    pub keyword: String,
    pub min: Decimal,
    pub max: Decimal,
    pub limit: u32,
    pub offset: u32,
}

} // verus!
