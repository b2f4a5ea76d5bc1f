//! Account signup for a small web application: field validation, the
//! duplicate check, password hashing and the sequence of storage requests
//! that creates a user, with the messages shown for each outcome.

pub mod database;
pub mod handlers;
