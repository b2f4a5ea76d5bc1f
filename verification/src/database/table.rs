//! The `users` table as a sequence of rows, and what a signup does to it
//! when the store is in working order.

use super::models::UserView;
use super::store::{StoreReply, StoreRequestView};
use super::validators::{validated, Lookup};
use super::{row_to_insert, signup_step, SignupState, SignupStepView, UserCreationResult};
use vstd::prelude::*;

verus! {

/// Whether some row of `table` has this username.
pub open spec fn holds_username(table: Seq<UserView>, username: Seq<char>) -> bool {
    exists|i: int| 0 <= i < table.len() && (#[trigger] table[i]).username == username
}

/// Whether some row of `table` has this email.
pub open spec fn holds_email(table: Seq<UserView>, email: Seq<char>) -> bool {
    exists|i: int| 0 <= i < table.len() && (#[trigger] table[i]).email == email
}

/// No two rows share a username, and no two rows share an email.
pub open spec fn unique(table: Seq<UserView>) -> bool {
    forall|i: int, j: int|
        0 <= i < j < table.len() ==> (#[trigger] table[i]).username != (#[trigger] table[j]).username
            && table[i].email != table[j].email
}

/// Whether a store that holds `table` takes `row`: it refuses a row whose
/// username or email it already has.
pub open spec fn accepts(table: Seq<UserView>, row: UserView) -> bool {
    !holds_username(table, row.username) && !holds_email(table, row.email)
}

/// The reply of a store in working order that holds `table`. A lookup finds
/// the one row with the value, or none. An insertion writes one row, and
/// fails where the row would break uniqueness.
pub open spec fn store_reply(table: Seq<UserView>, request: StoreRequestView) -> StoreReply {
    match request {
        StoreRequestView::FindUsername(username) => StoreReply::Done(
            if holds_username(table, username) {
                1
            } else {
                0
            },
        ),
        StoreRequestView::FindEmail(email) => StoreReply::Done(
            if holds_email(table, email) {
                1
            } else {
                0
            },
        ),
        StoreRequestView::InsertUser(row) => if accepts(table, row) {
            StoreReply::Done(1)
        } else {
            StoreReply::Failed
        },
    }
}

/// The table after that store ran `request`: an insertion that it took adds
/// its row at the end, and nothing else changes the table.
pub open spec fn table_after(table: Seq<UserView>, request: StoreRequestView) -> Seq<UserView> {
    match request {
        StoreRequestView::InsertUser(row) => if accepts(table, row) {
            table.push(row)
        } else {
            table
        },
        _ => table,
    }
}

/// How a signup ended, and the table that it left.
pub struct SignupOutcome {
    pub result: Result<UserCreationResult, UserCreationResult>,
    pub table: Seq<UserView>,
}

/// The most requests that can still follow `step`.
pub open spec fn requests_left(step: SignupStepView) -> nat {
    match step {
        SignupStepView::Done(_) => 0,
        SignupStepView::Ask(SignupState::Inserting, _) => 1,
        SignupStepView::Ask(SignupState::Checking(Lookup::Email), _) => 2,
        SignupStepView::Ask(SignupState::Checking(Lookup::Username), _) => 3,
    }
}

/// Carries a signup from `step` to its end against a store in working order
/// that holds `table`: each request is run, and the reply is handed back.
pub open spec fn finish(table: Seq<UserView>, user: UserView, step: SignupStepView) -> SignupOutcome
    decreases requests_left(step),
{
    match step {
        SignupStepView::Done(result) => SignupOutcome { result, table },
        SignupStepView::Ask(state, request) => finish(
            table_after(table, request),
            user,
            signup_step(user, Some((state, store_reply(table, request)))),
        ),
    }
}

/// A whole signup of `user` against a store in working order that holds
/// `table`.
pub open spec fn signup(table: Seq<UserView>, user: UserView) -> SignupOutcome {
    finish(table, user, signup_step(user, None))
}

/// What a whole signup returns. The lengths decide first; then a username
/// that the table holds, even where it holds the email too; then an email
/// that it holds; a candidate that passes all three is created.
pub proof fn lemma_signup_result(table: Seq<UserView>, user: UserView)
    ensures
        signup(table, user).result == match validated(user.username, user.email, user.password) {
            Err(error) => Err(error),
            Ok(_) => if holds_username(table, user.username) {
                Err(UserCreationResult::UserNameIsTaken)
            } else if holds_email(table, user.email) {
                Err(UserCreationResult::EmailIsTaken)
            } else {
                Ok(UserCreationResult::ValidData)
            },
        },
{
    reveal_with_fuel(finish, 4);
}

/// A candidate with fields of valid lengths whose username and email are
/// both new is created, and its row, with the password hashed, is added to
/// the table.
pub proof fn lemma_new_user_is_created(table: Seq<UserView>, user: UserView)
    requires
        8 <= user.password.len() <= 512,
        user.email.len() <= 255,
        user.username.len() <= 100,
        !holds_username(table, user.username),
        !holds_email(table, user.email),
    ensures
        signup(table, user) == (SignupOutcome {
            result: Ok(UserCreationResult::ValidData),
            table: table.push(row_to_insert(user)),
        }),
{
    reveal_with_fuel(finish, 4);
}

/// A password of fewer than 8 characters is turned away as too short,
/// whatever the other fields hold, and the table stays as it was.
pub proof fn lemma_short_password_is_rejected(table: Seq<UserView>, user: UserView)
    requires
        user.password.len() < 8,
    ensures
        signup(table, user) == (SignupOutcome {
            result: Err(UserCreationResult::TooShortPassword),
            table,
        }),
{
}

/// A password of more than 512 characters is turned away as too long, and
/// the table stays as it was.
pub proof fn lemma_long_password_is_rejected(table: Seq<UserView>, user: UserView)
    requires
        user.password.len() > 512,
    ensures
        signup(table, user) == (SignupOutcome {
            result: Err(UserCreationResult::TooLongPassword),
            table,
        }),
{
}

/// With a password of valid length, an email of more than 255 characters is
/// turned away as too long, and the table stays as it was.
pub proof fn lemma_long_email_is_rejected(table: Seq<UserView>, user: UserView)
    requires
        8 <= user.password.len() <= 512,
        user.email.len() > 255,
    ensures
        signup(table, user) == (SignupOutcome {
            result: Err(UserCreationResult::TooLongEmail),
            table,
        }),
{
}

/// With a password and an email of valid lengths, a username of more than
/// 100 characters is turned away as too long, and the table stays as it was.
pub proof fn lemma_long_username_is_rejected(table: Seq<UserView>, user: UserView)
    requires
        8 <= user.password.len() <= 512,
        user.email.len() <= 255,
        user.username.len() > 100,
    ensures
        signup(table, user) == (SignupOutcome {
            result: Err(UserCreationResult::TooLongUsername),
            table,
        }),
{
}

/// After a candidate was created, a second candidate with the same username
/// is told that the username is taken, whatever its email, and leaves no
/// row. The second candidate's password and email have valid lengths.
pub proof fn lemma_username_is_taken_the_second_time(
    table: Seq<UserView>,
    first: UserView,
    second: UserView,
)
    requires
        validated(first.username, first.email, first.password) is Ok,
        accepts(table, row_to_insert(first)),
        second.username == first.username,
        8 <= second.password.len() <= 512,
        second.email.len() <= 255,
    ensures
        signup(table, first).result == Ok::<_, UserCreationResult>(UserCreationResult::ValidData),
        signup(signup(table, first).table, second) == (SignupOutcome {
            result: Err(UserCreationResult::UserNameIsTaken),
            table: signup(table, first).table,
        }),
{
    lemma_new_user_is_created(table, first);
    let grown = table.push(row_to_insert(first));
    assert(grown[table.len() as int].username == second.username);
    reveal_with_fuel(finish, 2);
}

/// After a candidate was created, a second candidate with the same email
/// and another username, one that the table did not hold, is told that the
/// email is taken, and leaves no row. The second candidate's password and
/// username have valid lengths.
pub proof fn lemma_email_is_taken_the_second_time(
    table: Seq<UserView>,
    first: UserView,
    second: UserView,
)
    requires
        validated(first.username, first.email, first.password) is Ok,
        accepts(table, row_to_insert(first)),
        second.email == first.email,
        second.username != first.username,
        !holds_username(table, second.username),
        8 <= second.password.len() <= 512,
        second.username.len() <= 100,
    ensures
        signup(table, first).result == Ok::<_, UserCreationResult>(UserCreationResult::ValidData),
        signup(signup(table, first).table, second) == (SignupOutcome {
            result: Err(UserCreationResult::EmailIsTaken),
            table: signup(table, first).table,
        }),
{
    lemma_new_user_is_created(table, first);
    let grown = table.push(row_to_insert(first));
    assert(grown[table.len() as int].email == second.email);
    assert(!holds_username(grown, second.username)) by {
        if holds_username(grown, second.username) {
            let i = choose|i: int|
                0 <= i < grown.len() && (#[trigger] grown[i]).username == second.username;
            assert(i < table.len());
            assert(table[i].username == second.username);
        }
    }
    reveal_with_fuel(finish, 3);
}

/// A signup writes all or nothing. One that ends in `Ok` ends in
/// `ValidData` and has added exactly its row, whose username and email are
/// the candidate's own, character for character; one that ends in `Err`
/// leaves the table as it was.
pub proof fn lemma_signup_writes_its_row_or_nothing(table: Seq<UserView>, user: UserView)
    ensures
        match signup(table, user).result {
            Ok(created) => created == UserCreationResult::ValidData && signup(table, user).table
                == table.push(row_to_insert(user)),
            Err(error) => error != UserCreationResult::ValidData && signup(table, user).table
                == table,
        },
{
    reveal_with_fuel(finish, 4);
}

/// A table without duplicates has none after a signup either.
pub proof fn lemma_signup_keeps_unique(table: Seq<UserView>, user: UserView)
    requires
        unique(table),
    ensures
        unique(signup(table, user).table),
{
    reveal_with_fuel(finish, 4);
    let after = signup(table, user).table;
    if after != table {
        let row = row_to_insert(user);
        assert(after == table.push(row));
        assert(accepts(table, row));
        assert forall|i: int, j: int| 0 <= i < j < after.len() implies (#[trigger] after[i]).username
            != (#[trigger] after[j]).username && after[i].email != after[j].email by {
            if j < table.len() {
                assert(after[i] == table[i] && after[j] == table[j]);
            } else {
                assert(after[i] == table[i]);
            }
        }
    }
}

/// The insertion is the last request of a signup, whatever the store
/// replied before: it is asked for only after the email was looked up and
/// not found, it carries the candidate's row, and the step after it is the
/// result.
pub proof fn lemma_insertion_comes_last(
    user: UserView,
    progress: Option<(SignupState, StoreReply)>,
    reply: StoreReply,
)
    requires
        signup_step(user, progress) matches SignupStepView::Ask(_, request)
            && request is InsertUser,
    ensures
        progress == Some((SignupState::Checking(Lookup::Email), StoreReply::Done(0))),
        signup_step(user, progress) == SignupStepView::Ask(
            SignupState::Inserting,
            StoreRequestView::InsertUser(row_to_insert(user)),
        ),
        signup_step(user, Some((SignupState::Inserting, reply))) is Done,
{
}

} // verus!
