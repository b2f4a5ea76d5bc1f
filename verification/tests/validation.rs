use user_signup::database::store::{StoreReply, StoreRequest};
use user_signup::database::validators::{
    check_for_duplicates, validate_data, DuplicateStep, Lookup,
};
use user_signup::database::UserCreationResult;

fn repeated(unit: &str, times: usize) -> String {
    std::iter::repeat(unit).take(times).collect::<String>()
}

#[test]
fn lengths_at_the_limits_pass() {
    assert_eq!(validate_data("", "", "12345678"), Ok(()));
    assert_eq!(
        validate_data(&repeated("u", 100), &repeated("e", 255), &repeated("p", 512)),
        Ok(())
    );
}

#[test]
fn password_of_seven_is_too_short() {
    assert_eq!(validate_data("user", "e@x.com", "1234567"), Err(UserCreationResult::TooShortPassword));
    assert_eq!(validate_data("user", "e@x.com", ""), Err(UserCreationResult::TooShortPassword));
}

#[test]
fn password_of_513_is_too_long() {
    assert_eq!(
        validate_data("user", "e@x.com", &repeated("p", 513)),
        Err(UserCreationResult::TooLongPassword)
    );
}

#[test]
fn email_of_256_is_too_long() {
    assert_eq!(
        validate_data("user", &repeated("e", 256), "12345678"),
        Err(UserCreationResult::TooLongEmail)
    );
}

#[test]
fn username_of_101_is_too_long() {
    assert_eq!(
        validate_data(&repeated("u", 101), "e@x.com", "12345678"),
        Err(UserCreationResult::TooLongUsername)
    );
}

#[test]
fn the_first_failing_check_decides() {
    let long_name = repeated("u", 101);
    let long_email = repeated("e", 256);
    assert_eq!(
        validate_data(&long_name, &long_email, "short"),
        Err(UserCreationResult::TooShortPassword)
    );
    assert_eq!(
        validate_data(&long_name, &long_email, &repeated("p", 600)),
        Err(UserCreationResult::TooLongPassword)
    );
    assert_eq!(
        validate_data(&long_name, &long_email, "12345678"),
        Err(UserCreationResult::TooLongEmail)
    );
}

#[test]
fn lengths_are_counted_in_characters() {
    // eight characters, sixteen bytes
    assert_eq!(validate_data("user", "e@x.com", "пароль12"), Ok(()));
    // six characters, twelve bytes
    assert_eq!(
        validate_data("user", "e@x.com", "пароль"),
        Err(UserCreationResult::TooShortPassword)
    );
    // a hundred characters of two bytes each
    assert_eq!(validate_data(&repeated("ю", 100), "e@x.com", "12345678"), Ok(()));
    assert_eq!(
        validate_data(&repeated("ю", 101), "e@x.com", "12345678"),
        Err(UserCreationResult::TooLongUsername)
    );
    assert_eq!(validate_data("user", &repeated("é", 255), "12345678"), Ok(()));
    assert_eq!(validate_data("user", "e@x.com", &repeated("ß", 512)), Ok(()));
}

#[test]
fn duplicate_check_begins_with_the_username() {
    match check_for_duplicates("alice", "a@x.com", None) {
        DuplicateStep::Ask(lookup, StoreRequest::FindUsername(username)) => {
            assert_eq!(lookup, Lookup::Username);
            assert_eq!(username, "alice");
        }
        other => panic!("unexpected step: {:?}", other),
    }
}

#[test]
fn duplicate_check_goes_on_with_the_email() {
    let progress = Some((Lookup::Username, StoreReply::Done(0)));
    match check_for_duplicates("alice", "a@x.com", progress) {
        DuplicateStep::Ask(lookup, StoreRequest::FindEmail(email)) => {
            assert_eq!(lookup, Lookup::Email);
            assert_eq!(email, "a@x.com");
        }
        other => panic!("unexpected step: {:?}", other),
    }
}

#[test]
fn duplicate_check_passes_when_nothing_was_found() {
    let progress = Some((Lookup::Email, StoreReply::Done(0)));
    match check_for_duplicates("alice", "a@x.com", progress) {
        DuplicateStep::Done(verdict) => assert_eq!(verdict, Ok(())),
        other => panic!("unexpected step: {:?}", other),
    }
}

#[test]
fn duplicate_check_reports_what_was_found() {
    match check_for_duplicates("alice", "a@x.com", Some((Lookup::Username, StoreReply::Done(1)))) {
        DuplicateStep::Done(verdict) => {
            assert_eq!(verdict, Err(UserCreationResult::UserNameIsTaken))
        }
        other => panic!("unexpected step: {:?}", other),
    }
    match check_for_duplicates("alice", "a@x.com", Some((Lookup::Email, StoreReply::Done(3)))) {
        DuplicateStep::Done(verdict) => assert_eq!(verdict, Err(UserCreationResult::EmailIsTaken)),
        other => panic!("unexpected step: {:?}", other),
    }
}

#[test]
fn duplicate_check_hides_why_the_store_failed() {
    for lookup in vec![Lookup::Username, Lookup::Email] {
        match check_for_duplicates("alice", "a@x.com", Some((lookup, StoreReply::Failed))) {
            DuplicateStep::Done(verdict) => {
                assert_eq!(verdict, Err(UserCreationResult::UnknownError))
            }
            other => panic!("unexpected step: {:?}", other),
        }
    }
}
