use auth_core::model::CreateUser;
use auth_core::username::derive_username;

#[test]
fn two_token_name_keeps_lowercased_prefix() {
    let name = derive_username("Jane Doe", 1234567890123);
    assert_eq!(name, "janedoe1234567890123");
    assert!(name.chars().count() <= 25);
}

#[test]
fn three_token_name_uses_only_two() {
    assert_eq!(derive_username("One Two Three", 7), "onetwo7");
}

#[test]
fn long_name_is_clamped_to_25() {
    let name = derive_username("Superlongfirstname Superlonglastname", 99);
    assert_eq!(name, "superlongfirstnamesuperlo");
    assert_eq!(name.chars().count(), 25);
}

#[test]
fn empty_name_is_timestamp_digits() {
    let name = derive_username("", 1700000000000);
    assert_eq!(name, "1700000000000");
    assert!(!name.is_empty());
    assert!(name.chars().count() <= 25);
}

#[test]
fn whitespace_only_name_is_timestamp_digits() {
    let name = derive_username(" \t  ", 5);
    assert_eq!(name, "5");
}

#[test]
fn single_token_name_keeps_that_token() {
    assert_eq!(derive_username("Madonna", 42), "madonna42");
}

#[test]
fn set_username_derives_from_display_name() {
    let mut input = CreateUser::new(
        String::from("Jane Doe"),
        String::from("jane@x.com"),
        None,
        String::from("longenough"),
    );
    input.set_username();
    assert!(input.username.starts_with("janedoe"));
    let suffix = &input.username["janedoe".len()..];
    assert!(!suffix.is_empty());
    assert!(suffix.chars().all(|c| c.is_ascii_digit()));
    let n = input.username.chars().count();
    assert!(1 <= n && n <= 25);
}
