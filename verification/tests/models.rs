use auth_service::db::{Conflict, StoreError, UNIQUE_VIOLATION_CODE};
use auth_service::models::{NewUser, NewUserErrors, ProfileErrors, UpdateProfile};

fn new_user(username: &str, email: &str, password: &str) -> NewUser {
    NewUser {
        username: username.to_string(),
        email: email.to_string(),
        password: password.to_string(),
    }
}

fn profile(image: Option<&str>) -> UpdateProfile {
    UpdateProfile { full_name: None, bio: Some("bio".to_string()), image: image.map(|s| s.to_string()) }
}

#[test]
fn a_sound_signup_body_passes() {
    assert_eq!(new_user("ada", "ada@x.com", "secretpw").validate(), Ok(()));
    assert_eq!(new_user("abc", "a@b.co", "123").validate(), Ok(()));
}

#[test]
fn short_username_is_flagged() {
    assert_eq!(
        new_user("ad", "ada@x.com", "secretpw").validate(),
        Err(NewUserErrors { username: true, email: false, password: false })
    );
    assert_eq!(
        new_user("", "ada@x.com", "secretpw").validate(),
        Err(NewUserErrors { username: true, email: false, password: false })
    );
}

#[test]
fn length_counts_characters_not_bytes() {
    assert_eq!(new_user("äöü", "ada@x.com", "ñññ").validate(), Ok(()));
    assert_eq!(
        new_user("äö", "ada@x.com", "secretpw").validate(),
        Err(NewUserErrors { username: true, email: false, password: false })
    );
}

#[test]
fn bad_email_is_flagged() {
    for email in ["", "ada", "ada@", "@x.com", "a da@x.com"] {
        assert_eq!(
            new_user("ada", email, "secretpw").validate(),
            Err(NewUserErrors { username: false, email: true, password: false })
        );
    }
}

#[test]
fn short_password_is_flagged() {
    assert_eq!(
        new_user("ada", "ada@x.com", "pw").validate(),
        Err(NewUserErrors { username: false, email: false, password: true })
    );
}

#[test]
fn every_broken_rule_is_flagged() {
    assert_eq!(
        new_user("a", "b", "c").validate(),
        Err(NewUserErrors { username: true, email: true, password: true })
    );
}

#[test]
fn profile_without_image_passes() {
    assert_eq!(profile(None).validate(), Ok(()));
}

#[test]
fn profile_image_must_be_a_url() {
    assert_eq!(profile(Some("https://x.com/ada.png")).validate(), Ok(()));
    assert_eq!(profile(Some("ada.png")).validate(), Err(ProfileErrors { image: true }));
    assert_eq!(profile(Some("")).validate(), Err(ProfileErrors { image: true }));
}

fn database(code: Option<&str>, column: Option<&str>) -> StoreError {
    StoreError::Database { code: code.map(|s| s.to_string()), column: column.map(|s| s.to_string()) }
}

#[test]
fn unique_violation_code() {
    assert_eq!(UNIQUE_VIOLATION_CODE, "23505");
}

#[test]
fn conflicts_are_read_from_code_and_column() {
    assert_eq!(database(Some("23505"), Some("email")).conflict(), Some(Conflict::Email));
    assert_eq!(database(Some("23505"), Some("username")).conflict(), Some(Conflict::Username));
    assert_eq!(database(Some("23505"), None).conflict(), Some(Conflict::Unnamed));
}

#[test]
fn other_failures_are_no_conflict() {
    assert_eq!(database(Some("23505"), Some("id")).conflict(), None);
    assert_eq!(database(Some("23505"), Some("Email")).conflict(), None);
    assert_eq!(database(Some("23502"), Some("email")).conflict(), None);
    assert_eq!(database(Some("2350"), None).conflict(), None);
    assert_eq!(database(None, Some("email")).conflict(), None);
    assert_eq!(database(None, None).conflict(), None);
    assert_eq!(StoreError::Other.conflict(), None);
}

#[test]
fn request_without_a_store_is_not_authorized() {
    assert_eq!(auth_service::db::from_request(Some(5u8)), Ok(5u8));
    assert_eq!(
        auth_service::db::from_request::<u8>(None),
        Err(auth_service::errors::AppError::not_authorized().default())
    );
}

#[test]
fn signup_verdict_from_the_three_checks() {
    assert_eq!(NewUserErrors::from_checks(true, true, true), Ok(()));
    assert_eq!(
        NewUserErrors::from_checks(false, true, true),
        Err(NewUserErrors { username: true, email: false, password: false })
    );
    assert_eq!(
        NewUserErrors::from_checks(true, false, true),
        Err(NewUserErrors { username: false, email: true, password: false })
    );
    assert_eq!(
        NewUserErrors::from_checks(true, true, false),
        Err(NewUserErrors { username: false, email: false, password: true })
    );
    assert_eq!(
        NewUserErrors::from_checks(false, false, false),
        Err(NewUserErrors { username: true, email: true, password: true })
    );
}

#[test]
fn profile_verdict_from_the_image_check() {
    assert_eq!(ProfileErrors::from_check(None), Ok(()));
    assert_eq!(ProfileErrors::from_check(Some(true)), Ok(()));
    assert_eq!(ProfileErrors::from_check(Some(false)), Err(ProfileErrors { image: true }));
}
