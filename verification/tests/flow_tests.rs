use auth_core::flows::{create_user, get_user, login_user, LoginOutcome};
use auth_core::gate::{authenticate_request, GateOutcome};
use auth_core::model::{CreateUser, LoginUser, Pagination, User};
use auth_core::token::Keys;
use auth_core::validate::FieldFault;

fn jane() -> CreateUser {
    CreateUser::new(
        String::from("Jane Doe"),
        String::from("jane@x.com"),
        None,
        String::from("longenough"),
    )
}

#[test]
fn register_login_and_list_end_to_end() {
    let keys = Keys::generate();
    let now: i64 = 1_700_000_000;

    // Register: derived username, hashed password, no plaintext kept.
    let record = create_user(jane()).expect("valid registration must pass");
    assert!(record.username.starts_with("janedoe"));
    assert!(record.username["janedoe".len()..].chars().all(|c| c.is_ascii_digit()));
    assert!(record.username.chars().count() <= 25);
    assert_ne!(record.password, "longenough");
    assert!(!record.password.is_empty());

    // What storage would persist.
    let account = User {
        id: 1,
        username: record.username.clone(),
        email: record.email.clone(),
        name: record.name.clone(),
        password: record.password.clone(),
        image_profile: record.image_profile.clone(),
    };

    // Login with the right password: a token, and never the hash.
    let credentials = LoginUser {
        email: String::from("jane@x.com"),
        password: String::from("longenough"),
    };
    let token = match login_user(Some(account), credentials, &keys) {
        LoginOutcome::Success(resp) => {
            assert_eq!(resp.id, 1);
            assert_eq!(resp.email, "jane@x.com");
            assert_eq!(resp.name, "Jane Doe");
            assert!(resp.username.starts_with("janedoe"));
            assert!(!resp.token.is_empty());
            resp.token
        },
        _ => panic!("login with the right password must succeed"),
    };

    // Login with a wrong password: unauthorized, no token.
    let account_again = User {
        id: 1,
        username: record.username.clone(),
        email: record.email.clone(),
        name: record.name.clone(),
        password: record.password.clone(),
        image_profile: record.image_profile.clone(),
    };
    let wrong = LoginUser {
        email: String::from("jane@x.com"),
        password: String::from("wrongpassword"),
    };
    assert!(matches!(login_user(Some(account_again), wrong, &keys), LoginOutcome::Unauthorized));

    // The listing route is protected: the issued token passes, a tampered one fails.
    let header = format!("Bearer {}", token);
    match authenticate_request("/users", Some(&header), &keys, now) {
        GateOutcome::Authenticated(claims) => assert_eq!(claims.email, "jane@x.com"),
        _ => panic!("the issued token must be accepted"),
    }
    let mut chars: Vec<char> = header.chars().collect();
    let last = chars.len() - 1;
    chars[last] = if chars[last] == 'A' { 'B' } else { 'A' };
    let tampered: String = chars.into_iter().collect();
    assert!(matches!(
        authenticate_request("/users", Some(&tampered), &keys, now),
        GateOutcome::Rejected(_)
    ));
}

#[test]
fn login_with_unknown_email_is_not_found() {
    let keys = Keys::generate();
    let credentials = LoginUser {
        email: String::from("nobody@x.com"),
        password: String::from("longenough"),
    };
    assert!(matches!(login_user(None, credentials, &keys), LoginOutcome::NotFound));
}

#[test]
fn short_name_fails_validation() {
    let mut input = jane();
    input.name = String::from("Jane");
    let err = create_user(input).expect_err("a five-character name must fail");
    assert_eq!(err.fields, vec![FieldFault::NameTooShort]);
}

#[test]
fn malformed_email_fails_validation() {
    let mut input = jane();
    input.email = String::from("not-an-email");
    let err = create_user(input).expect_err("a malformed email must fail");
    assert_eq!(err.fields, vec![FieldFault::EmailMalformed]);
}

#[test]
fn malformed_image_url_fails_validation() {
    let mut input = jane();
    input.image_profile = Some(String::from("not a url"));
    let err = create_user(input).expect_err("a malformed image URL must fail");
    assert_eq!(err.fields, vec![FieldFault::ImageUrlMalformed]);
}

#[test]
fn short_password_fails_validation() {
    let mut input = jane();
    input.password = String::from("short");
    let err = create_user(input).expect_err("a seven-character password must fail");
    assert_eq!(err.fields, vec![FieldFault::PasswordTooShort]);
}

#[test]
fn every_failing_field_is_listed_in_order() {
    let input = CreateUser::new(
        String::from("Jane"),
        String::from("not-an-email"),
        Some(String::from("not a url")),
        String::from("short"),
    );
    let err = create_user(input).expect_err("four bad fields must fail");
    assert_eq!(
        err.fields,
        vec![
            FieldFault::NameTooShort,
            FieldFault::EmailMalformed,
            FieldFault::ImageUrlMalformed,
            FieldFault::PasswordTooShort,
        ]
    );
}

#[test]
fn well_formed_image_url_passes_validation() {
    let mut input = jane();
    input.image_profile = Some(String::from("https://example.com/jane.png"));
    let record = create_user(input).expect("a well-formed image URL must pass");
    assert_eq!(record.image_profile.as_deref(), Some("https://example.com/jane.png"));
}

#[test]
fn pagination_falls_back_to_defaults() {
    let both = Pagination { offset: Some(40), limit: Some(10) };
    assert_eq!(both.resolve(), (40, 10));
    let neither = Pagination { offset: None, limit: None };
    assert_eq!(neither.resolve(), (0, 20));
}

#[test]
fn lookup_by_id_miss_is_not_found() {
    assert!(get_user(None).is_none());
    let account = User {
        id: 7,
        username: String::from("janedoe1"),
        email: String::from("jane@x.com"),
        name: String::from("Jane Doe"),
        password: String::from("$argon2id$opaque"),
        image_profile: None,
    };
    let preview = get_user(Some(account)).expect("an existing account is projected");
    assert_eq!(preview.id, 7);
    assert_eq!(preview.username, "janedoe1");
}

#[test]
fn preview_carries_every_field_but_the_hash() {
    let account = User {
        id: 3,
        username: String::from("janedoe1"),
        email: String::from("jane@x.com"),
        name: String::from("Jane Doe"),
        password: String::from("$argon2id$opaque"),
        image_profile: Some(String::from("https://example.com/jane.png")),
    };
    let preview = account.preview();
    assert_eq!(preview.id, 3);
    assert_eq!(preview.username, "janedoe1");
    assert_eq!(preview.email, "jane@x.com");
    assert_eq!(preview.name, "Jane Doe");
    assert_eq!(preview.image_profile.as_deref(), Some("https://example.com/jane.png"));
}
