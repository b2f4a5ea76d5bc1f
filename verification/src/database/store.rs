//! What is said to the store that holds the `users` table, and what it
//! says back. The store itself is reached by the caller: a signup hands out
//! one request at a time and is handed the reply.

use super::models::{User, UserView};
use vstd::prelude::*;

verus! {

/// One statement for the store.
#[derive(Debug)]
pub enum StoreRequest {
    /// Select the rows whose username is the given text.
    FindUsername(String),
    /// Select the rows whose email is the given text.
    FindEmail(String),
    /// Insert the given row.
    InsertUser(User),
}

/// A request with each text as a sequence of characters.
pub enum StoreRequestView {
    FindUsername(Seq<char>),
    FindEmail(Seq<char>),
    InsertUser(UserView),
}

impl View for StoreRequest {
    type V = StoreRequestView;

    open spec fn view(&self) -> StoreRequestView {
        match self {
            StoreRequest::FindUsername(username) => StoreRequestView::FindUsername(username@),
            StoreRequest::FindEmail(email) => StoreRequestView::FindEmail(email@),
            StoreRequest::InsertUser(row) => StoreRequestView::InsertUser(row@),
        }
    }
}

/// How the store answered one request.
#[derive(PartialEq, Eq, Structural, Clone, Copy, Debug)]
pub enum StoreReply {
    /// The statement ran and affected this many rows: the rows that a
    /// selection found, or the rows that an insertion wrote.
    Done(u64),
    /// The statement did not run to its end, whatever the cause.
    Failed,
}

} // verus!
