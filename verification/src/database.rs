//! Creating a user in the `users` table.
//!
//! The table lives in a store that this library does not reach. A signup
//! is therefore taken in steps: [`add_user`] says which statement the store
//! is to run next, the caller runs it and comes back with the reply, until
//! the step is the result.

use vstd::prelude::*;
use vstd::utf8::{encode_utf8, encode_utf8_decode_utf8};

pub mod digest;
pub mod models;
pub mod store;
pub mod table;
pub mod validators;

use digest::{
    is_upper_hex_digit, lemma_upper_hex_is_digits, lemma_upper_hex_is_injective, sha512,
    sha512_digest, to_upper_hex, upper_hex,
};
use models::{User, UserView};
use store::{StoreReply, StoreRequest, StoreRequestView};
use validators::{
    check_for_duplicates, validate_data, validated, DuplicateStep, DuplicateStepView, Lookup,
};

verus! {

/// How an attempt to create a user ended. Exactly one value is produced per
/// attempt.
#[derive(PartialEq, Eq, Structural, Clone, Copy, Debug)]
pub enum UserCreationResult {
    /// The password has fewer than 8 characters.
    TooShortPassword,
    /// The password has more than 512 characters.
    TooLongPassword,
    /// The email has more than 255 characters.
    TooLongEmail,
    /// The username has more than 100 characters.
    TooLongUsername,
    /// A row with this username exists.
    UserNameIsTaken,
    /// A row with this email exists.
    EmailIsTaken,
    /// The store failed; the cause is not passed on.
    UnknownError,
    /// The data was valid and the user was created.
    ValidData,
}

/// The digest under which a password is stored: the SHA-512 digest of its
/// UTF-8 bytes, unsalted, in upper-case hexadecimal.
pub open spec fn password_digest(password: Seq<char>) -> Seq<char> {
    upper_hex(sha512(encode_utf8(password)))
}

/// Hashes a password for storage. The result depends on the password
/// alone, so the same password always gives the same digest; it has 128
/// characters, each an upper-case hexadecimal digit.
pub fn sha512_password(password: &str) -> (digest: String)
    ensures
        digest@ == password_digest(password@),
        digest@.len() == 128,
        forall|i: int| 0 <= i < 128 ==> is_upper_hex_digit(#[trigger] digest@[i]),
{
    let digest = sha512_digest(password.as_bytes());
    proof {
        lemma_upper_hex_is_digits(digest@);
    }
    to_upper_hex(digest.as_slice())
}

/// Different passwords have different bytes, and two passwords are stored
/// under the same digest exactly where SHA-512 gives their bytes the same
/// digest: the spelling in hexadecimal adds no collision of its own.
pub proof fn lemma_equal_digests_are_sha512_collisions(first: Seq<char>, second: Seq<char>)
    ensures
        first != second ==> encode_utf8(first) != encode_utf8(second),
        password_digest(first) == password_digest(second) <==> sha512(encode_utf8(first))
            == sha512(encode_utf8(second)),
{
    encode_utf8_decode_utf8(first);
    encode_utf8_decode_utf8(second);
    if password_digest(first) == password_digest(second) {
        lemma_upper_hex_is_injective(sha512(encode_utf8(first)), sha512(encode_utf8(second)));
    }
}

/// What a signup waits for: the reply to a lookup, or to the insertion.
#[derive(PartialEq, Eq, Structural, Clone, Copy, Debug)]
pub enum SignupState {
    Checking(Lookup),
    Inserting,
}

/// Where a signup stands after one step.
#[derive(Debug)]
pub enum SignupStep {
    /// Run the request, and come back with this state and the reply.
    Ask(SignupState, StoreRequest),
    /// The signup is over, with this result.
    Done(Result<UserCreationResult, UserCreationResult>),
}

/// A step of a signup with its request as sequences of characters.
pub enum SignupStepView {
    Ask(SignupState, StoreRequestView),
    Done(Result<UserCreationResult, UserCreationResult>),
}

impl View for SignupStep {
    type V = SignupStepView;

    open spec fn view(&self) -> SignupStepView {
        match self {
            SignupStep::Ask(state, request) => SignupStepView::Ask(*state, request@),
            SignupStep::Done(result) => SignupStepView::Done(*result),
        }
    }
}

/// The row that a signup writes: the candidate's username and email as
/// they were given, and the digest of its password.
pub open spec fn row_to_insert(user: UserView) -> UserView {
    UserView {
        username: user.username,
        password: password_digest(user.password),
        email: user.email,
    }
}

/// One step of a signup.
///
/// To begin, the lengths are checked; a candidate that fails is turned away
/// before the store is asked anything. Then the username is looked up, then
/// the email, then the row is inserted. A lookup that finds a row ends the
/// signup with the matching error, a request that fails ends it with
/// `UnknownError`, and an insertion that ran ends it with `ValidData`.
pub open spec fn signup_step(
    user: UserView,
    progress: Option<(SignupState, StoreReply)>,
) -> SignupStepView {
    match progress {
        None => match validated(user.username, user.email, user.password) {
            Err(error) => SignupStepView::Done(Err(error)),
            Ok(_) => SignupStepView::Ask(
                SignupState::Checking(Lookup::Username),
                StoreRequestView::FindUsername(user.username),
            ),
        },
        Some((_, StoreReply::Failed)) => SignupStepView::Done(
            Err(UserCreationResult::UnknownError),
        ),
        Some((SignupState::Checking(Lookup::Username), StoreReply::Done(rows))) => if rows > 0 {
            SignupStepView::Done(Err(UserCreationResult::UserNameIsTaken))
        } else {
            SignupStepView::Ask(
                SignupState::Checking(Lookup::Email),
                StoreRequestView::FindEmail(user.email),
            )
        },
        Some((SignupState::Checking(Lookup::Email), StoreReply::Done(rows))) => if rows > 0 {
            SignupStepView::Done(Err(UserCreationResult::EmailIsTaken))
        } else {
            SignupStepView::Ask(
                SignupState::Inserting,
                StoreRequestView::InsertUser(row_to_insert(user)),
            )
        },
        Some((SignupState::Inserting, StoreReply::Done(_))) => SignupStepView::Done(
            Ok(UserCreationResult::ValidData),
        ),
    }
}

/// Carries a step of the duplicate check over into the signup: a request
/// is passed on, an error ends the signup, and a passed check is followed
/// by the insertion of the row with the hashed password.
fn after_duplicate_check(user: &User, step: DuplicateStep) -> (next: SignupStep)
    ensures
        next@ == match step@ {
            DuplicateStepView::Ask(lookup, request) => SignupStepView::Ask(
                SignupState::Checking(lookup),
                request,
            ),
            DuplicateStepView::Done(Err(error)) => SignupStepView::Done(Err(error)),
            DuplicateStepView::Done(Ok(_)) => SignupStepView::Ask(
                SignupState::Inserting,
                StoreRequestView::InsertUser(row_to_insert(user@)),
            ),
        },
{
    match step {
        DuplicateStep::Ask(lookup, request) => SignupStep::Ask(
            SignupState::Checking(lookup),
            request,
        ),
        DuplicateStep::Done(Err(error)) => SignupStep::Done(Err(error)),
        DuplicateStep::Done(Ok(_)) => {
            let hashed_password = sha512_password(user.password().as_str());
            let row = User::new(user.username().clone(), hashed_password, user.email().clone());
            SignupStep::Ask(SignupState::Inserting, StoreRequest::InsertUser(row))
        },
    }
}

/// Takes the signup of `user` one step further. `progress` is `None` to
/// begin; after that it is the state that the last step returned, with the
/// store's reply to the request that it returned.
///
/// Nothing is written unless every check has passed: the one insertion is
/// the last request of a signup.
pub fn add_user(user: &User, progress: Option<(SignupState, StoreReply)>) -> (step: SignupStep)
    ensures
        step@ == signup_step(user@, progress),
{
    match progress {
        None => {
            if let Err(error) = validate_data(
                user.username().as_str(),
                user.email().as_str(),
                user.password().as_str(),
            ) {
                return SignupStep::Done(Err(error));
            }
            let first = check_for_duplicates(user.username().as_str(), user.email().as_str(), None);
            after_duplicate_check(user, first)
        },
        Some((SignupState::Checking(lookup), reply)) => {
            let next = check_for_duplicates(
                user.username().as_str(),
                user.email().as_str(),
                Some((lookup, reply)),
            );
            after_duplicate_check(user, next)
        },
        Some((SignupState::Inserting, reply)) => match reply {
            StoreReply::Failed => SignupStep::Done(Err(UserCreationResult::UnknownError)),
            StoreReply::Done(_) => SignupStep::Done(Ok(UserCreationResult::ValidData)),
        },
    }
}

} // verus!
