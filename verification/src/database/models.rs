//! The record of one account.

use vstd::prelude::*;

verus! {

/// A user as three pieces of text.
pub struct UserView {
    pub username: Seq<char>,
    pub password: Seq<char>,
    pub email: Seq<char>,
}

/// One account: a username, a password and an email address. A candidate for
/// signup carries the plaintext password; a row of the `users` table carries
/// the digest of it in the same field.
#[derive(Debug)]
pub struct User {
    username: String,
    password: String,
    email: String,
}

impl View for User {
    type V = UserView;

    closed spec fn view(&self) -> UserView {
        UserView { username: self.username@, password: self.password@, email: self.email@ }
    }
}

impl User {
    /// A user made of the three given texts, each kept as it is.
    pub fn new(username: String, password_hash: String, email: String) -> (user: Self)
        ensures
            user@ == (UserView { username: username@, password: password_hash@, email: email@ }),
    {
        User { username, password: password_hash, email }
    }

    pub fn username(&self) -> (username: &String)
        ensures
            username@ == self@.username,
    {
        &self.username
    }

    pub fn password(&self) -> (password: &String)
        ensures
            password@ == self@.password,
    {
        &self.password
    }

    pub fn email(&self) -> (email: &String)
        ensures
            email@ == self@.email,
    {
        &self.email
    }
}

} // verus!
