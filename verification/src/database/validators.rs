//! The checks that a candidate passes before a row is written: the lengths
//! of its fields, and that neither its username nor its email is in use.

use super::store::{StoreReply, StoreRequest, StoreRequestView};
use super::UserCreationResult;
use vstd::prelude::*;

verus! {

/// The verdict on the lengths of the three fields, counted in characters.
/// The checks stand in the order in which they are made, and the first that
/// fails decides.
pub open spec fn validated(username: Seq<char>, email: Seq<char>, password: Seq<char>) -> Result<
    (),
    UserCreationResult,
> {
    if password.len() < 8 {
        Err(UserCreationResult::TooShortPassword)
    } else if password.len() > 512 {
        Err(UserCreationResult::TooLongPassword)
    } else if email.len() > 255 {
        Err(UserCreationResult::TooLongEmail)
    } else if username.len() > 100 {
        Err(UserCreationResult::TooLongUsername)
    } else {
        Ok(())
    }
}

/// Checks the lengths of the fields: the password has 8 to 512 characters,
/// the email at most 255, the username at most 100.
pub fn validate_data(username: &str, email: &str, password: &str) -> (result: Result<
    (),
    UserCreationResult,
>)
    ensures
        result == validated(username@, email@, password@),
        password@.len() < 8 ==> result == Err::<(), _>(UserCreationResult::TooShortPassword),
        password@.len() > 512 ==> result == Err::<(), _>(UserCreationResult::TooLongPassword),
        8 <= password@.len() <= 512 && email@.len() > 255 ==> result == Err::<(), _>(
            UserCreationResult::TooLongEmail,
        ),
        8 <= password@.len() <= 512 && email@.len() <= 255 && username@.len() > 100 ==> result
            == Err::<(), _>(UserCreationResult::TooLongUsername),
        8 <= password@.len() <= 512 && email@.len() <= 255 && username@.len() <= 100 ==> result
            == Ok::<_, UserCreationResult>(()),
{
    let password_len: usize = password.unicode_len();
    if password_len < 8 {
        return Err(UserCreationResult::TooShortPassword);
    }
    if password_len > 512 {
        return Err(UserCreationResult::TooLongPassword);
    }
    if email.unicode_len() > 255 {
        return Err(UserCreationResult::TooLongEmail);
    }
    if username.unicode_len() > 100 {
        Err(UserCreationResult::TooLongUsername)
    } else {
        Ok(())
    }
}

/// The column that a duplicate lookup searches.
#[derive(PartialEq, Eq, Structural, Clone, Copy, Debug)]
pub enum Lookup {
    Username,
    Email,
}

/// Where the duplicate check stands after one step: either it asks the
/// store something, or it has its verdict.
#[derive(Debug)]
pub enum DuplicateStep {
    /// Run the request, and come back with this lookup and the reply.
    Ask(Lookup, StoreRequest),
    /// The check is over: `Ok` when neither lookup found a row.
    Done(Result<(), UserCreationResult>),
}

/// A step of the duplicate check with its request as sequences of
/// characters.
pub enum DuplicateStepView {
    Ask(Lookup, StoreRequestView),
    Done(Result<(), UserCreationResult>),
}

impl View for DuplicateStep {
    type V = DuplicateStepView;

    open spec fn view(&self) -> DuplicateStepView {
        match self {
            DuplicateStep::Ask(lookup, request) => DuplicateStepView::Ask(*lookup, request@),
            DuplicateStep::Done(verdict) => DuplicateStepView::Done(*verdict),
        }
    }
}

/// The error that the reply to a lookup calls for, if any: a store that
/// failed is an unknown error, a row that was found means that the value is
/// taken.
pub open spec fn lookup_error(lookup: Lookup, reply: StoreReply) -> Option<UserCreationResult> {
    match reply {
        StoreReply::Failed => Some(UserCreationResult::UnknownError),
        StoreReply::Done(rows) => if rows > 0 {
            Some(
                match lookup {
                    Lookup::Username => UserCreationResult::UserNameIsTaken,
                    Lookup::Email => UserCreationResult::EmailIsTaken,
                },
            )
        } else {
            None
        },
    }
}

/// One step of the duplicate check. It begins with the lookup of the
/// username; the email is looked up only after the username was not found;
/// the check passes after the email was not found either.
pub open spec fn duplicate_step(
    username: Seq<char>,
    email: Seq<char>,
    progress: Option<(Lookup, StoreReply)>,
) -> DuplicateStepView {
    match progress {
        None => DuplicateStepView::Ask(Lookup::Username, StoreRequestView::FindUsername(username)),
        Some((lookup, reply)) => match lookup_error(lookup, reply) {
            Some(error) => DuplicateStepView::Done(Err(error)),
            None => match lookup {
                Lookup::Username => DuplicateStepView::Ask(
                    Lookup::Email,
                    StoreRequestView::FindEmail(email),
                ),
                Lookup::Email => DuplicateStepView::Done(Ok(())),
            },
        },
    }
}

/// Takes the check for an existing username or email one step further.
/// `progress` is `None` to begin; after that it is the lookup that the last
/// step asked for, with the store's reply to it.
pub fn check_for_duplicates(
    username: &str,
    email: &str,
    progress: Option<(Lookup, StoreReply)>,
) -> (step: DuplicateStep)
    ensures
        step@ == duplicate_step(username@, email@, progress),
{
    match progress {
        None => DuplicateStep::Ask(Lookup::Username, StoreRequest::FindUsername(username.to_owned())),
        Some((lookup, StoreReply::Failed)) => DuplicateStep::Done(
            Err(UserCreationResult::UnknownError),
        ),
        Some((Lookup::Username, StoreReply::Done(rows))) => {
            if rows > 0 {
                DuplicateStep::Done(Err(UserCreationResult::UserNameIsTaken))
            } else {
                DuplicateStep::Ask(Lookup::Email, StoreRequest::FindEmail(email.to_owned()))
            }
        },
        Some((Lookup::Email, StoreReply::Done(rows))) => {
            if rows > 0 {
                DuplicateStep::Done(Err(UserCreationResult::EmailIsTaken))
            } else {
                DuplicateStep::Done(Ok(()))
            }
        },
    }
}

} // verus!
