//! The message shown for each result of a signup.

use crate::database::UserCreationResult;
use vstd::prelude::*;

verus! {

/// The text shown to the person who signed up. Each result that a signup
/// can end with has its own message; any other pairing of `Ok` or `Err`
/// with a value is answered as an unknown error.
pub open spec fn creation_message(result: Result<UserCreationResult, UserCreationResult>) -> Seq<
    char,
> {
    match result {
        Ok(UserCreationResult::ValidData) => "you successfully signed up"@,
        Err(UserCreationResult::UserNameIsTaken) => "this username is already taken!"@,
        Err(UserCreationResult::TooLongPassword) | Err(UserCreationResult::TooShortPassword) => {
            "password length should be between 8 and 512 characters"@
        },
        Err(UserCreationResult::EmailIsTaken) => "this email is already taken!"@,
        Err(UserCreationResult::TooLongEmail) => "email length should be no more than 255"@,
        Err(UserCreationResult::TooLongUsername) => {
            "username length should be no more than 100 characters"@
        },
        _ => "unknown error occurred"@,
    }
}

/// Maps the result of a signup to its message.
pub fn validate_user_creation_result(
    result: Result<UserCreationResult, UserCreationResult>,
) -> (message: &'static str)
    ensures
        message@ == creation_message(result),
{
    match result {
        Ok(UserCreationResult::ValidData) => "you successfully signed up",
        Err(UserCreationResult::UserNameIsTaken) => "this username is already taken!",
        Err(UserCreationResult::TooLongPassword) | Err(UserCreationResult::TooShortPassword) => {
            "password length should be between 8 and 512 characters"
        },
        Err(UserCreationResult::EmailIsTaken) => "this email is already taken!",
        Err(UserCreationResult::TooLongEmail) => "email length should be no more than 255",
        Err(UserCreationResult::TooLongUsername) => {
            "username length should be no more than 100 characters"
        },
        _ => "unknown error occurred",
    }
}

} // verus!
