use auth_core::model::{CreateUser, User};

fn hash_of(password: &str) -> String {
    let mut input = CreateUser::new(
        String::from("Jane Doe"),
        String::from("jane@x.com"),
        None,
        String::from(password),
    );
    input.hash_password();
    input.password
}

fn user_with_hash(hash: String) -> User {
    User {
        id: 1,
        username: String::from("janedoe1"),
        email: String::from("jane@x.com"),
        name: String::from("Jane Doe"),
        password: hash,
        image_profile: None,
    }
}

#[test]
fn hash_then_verify_accepts() {
    let hash = hash_of("longenough");
    let user = user_with_hash(hash);
    assert!(user.verify_password(String::from("longenough")));
    assert!(!user.verify_password(String::from("wrongpassword")));
}

#[test]
fn hash_twice_gives_fresh_salts() {
    let first = hash_of("longenough");
    let second = hash_of("longenough");
    assert_ne!(first, second);
    assert!(user_with_hash(first).verify_password(String::from("longenough")));
    assert!(user_with_hash(second).verify_password(String::from("longenough")));
}

#[test]
fn empty_stored_hash_rejects_every_password() {
    let user = user_with_hash(String::new());
    assert!(!user.verify_password(String::from("longenough")));
    assert!(!user.verify_password(String::new()));
}

#[test]
fn malformed_stored_hash_rejects_without_panicking() {
    let user = user_with_hash(String::from("not-a-valid-hash"));
    assert!(!user.verify_password(String::from("longenough")));
    assert!(!user.verify_password(String::from("not-a-valid-hash")));
}

#[test]
fn hash_is_never_the_plaintext() {
    let hash = hash_of("longenough");
    assert!(!hash.is_empty());
    assert!(hash.starts_with('$'));
    assert_ne!(hash, "longenough");
}
