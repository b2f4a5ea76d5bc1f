use user_signup::database::UserCreationResult;
use user_signup::handlers::validators::validate_user_creation_result;

#[test]
fn message_for_a_created_user() {
    assert_eq!(
        validate_user_creation_result(Ok(UserCreationResult::ValidData)),
        "you successfully signed up"
    );
}

#[test]
fn messages_for_taken_values() {
    assert_eq!(
        validate_user_creation_result(Err(UserCreationResult::UserNameIsTaken)),
        "this username is already taken!"
    );
    assert_eq!(
        validate_user_creation_result(Err(UserCreationResult::EmailIsTaken)),
        "this email is already taken!"
    );
}

#[test]
fn messages_for_lengths() {
    assert_eq!(
        validate_user_creation_result(Err(UserCreationResult::TooShortPassword)),
        "password length should be between 8 and 512 characters"
    );
    assert_eq!(
        validate_user_creation_result(Err(UserCreationResult::TooLongPassword)),
        "password length should be between 8 and 512 characters"
    );
    assert_eq!(
        validate_user_creation_result(Err(UserCreationResult::TooLongEmail)),
        "email length should be no more than 255"
    );
    assert_eq!(
        validate_user_creation_result(Err(UserCreationResult::TooLongUsername)),
        "username length should be no more than 100 characters"
    );
}

#[test]
fn message_for_anything_else() {
    let unknown = "unknown error occurred";
    assert_eq!(validate_user_creation_result(Err(UserCreationResult::UnknownError)), unknown);
    assert_eq!(validate_user_creation_result(Err(UserCreationResult::ValidData)), unknown);
    assert_eq!(validate_user_creation_result(Ok(UserCreationResult::UnknownError)), unknown);
    assert_eq!(validate_user_creation_result(Ok(UserCreationResult::UserNameIsTaken)), unknown);
    assert_eq!(validate_user_creation_result(Ok(UserCreationResult::EmailIsTaken)), unknown);
    assert_eq!(validate_user_creation_result(Ok(UserCreationResult::TooShortPassword)), unknown);
    assert_eq!(validate_user_creation_result(Ok(UserCreationResult::TooLongPassword)), unknown);
    assert_eq!(validate_user_creation_result(Ok(UserCreationResult::TooLongEmail)), unknown);
    assert_eq!(validate_user_creation_result(Ok(UserCreationResult::TooLongUsername)), unknown);
}
