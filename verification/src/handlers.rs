//! What the signup page shows.

pub mod validators;
