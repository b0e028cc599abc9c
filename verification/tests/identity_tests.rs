use venture_core::errors::ServiceError;
use venture_core::identity::{create_user, get_user, login, StoredUser};
use venture_core::token::VALIDITY_WINDOW_SECS;

fn stored(email: &str, password: &str) -> StoredUser {
    let reg = create_user(email, password, "Ada Lovelace", "first programmer", "").expect("register");
    reg.record
}

#[test]
fn registration_fills_the_record_and_hides_the_hash() {
    let reg = create_user("ada@example.com", "pw123", "Ada Lovelace", "bio text", "")
        .expect("register");
    assert_eq!(reg.record.email, "ada@example.com");
    assert_eq!(reg.record.full_name, "Ada Lovelace");
    assert_eq!(reg.record.bio, "bio text");
    assert_ne!(reg.record.password_hash, "pw123");
    assert_eq!(reg.response.username, "ada@example.com");
    assert_eq!(reg.response.id, reg.record.id);
    assert_eq!(reg.response.full_name, "Ada Lovelace");
    assert_eq!(reg.response.bio, "bio text");
}

#[test]
fn registration_defaults_the_role() {
    let reg = create_user("a@b.c", "pw", "n", "b", "").expect("register");
    assert_eq!(reg.record.role, "creator");
    let reg = create_user("a@b.c", "pw", "n", "b", "investor").expect("register");
    assert_eq!(reg.record.role, "investor");
}

#[test]
fn registration_mints_distinct_parseable_ids() {
    let r1 = stored("a@b.c", "pw");
    let r2 = stored("a@b.c", "pw");
    assert_ne!(r1.id, r2.id);
    assert_eq!(r1.id.len(), 36);
    assert!(uuid::Uuid::parse_str(&r1.id).is_ok());
}

#[test]
fn login_succeeds_with_the_right_password() {
    let user = stored("ada@example.com", "pw123");
    let ok = login(Some(&user), "ada@example.com", "pw123", 1_000, b"secret").expect("login");
    assert_eq!(ok.user.id, user.id);
    assert_eq!(ok.user.username, "ada@example.com");
    assert_eq!(ok.token.claims.sub, "ada@example.com");
    assert_eq!(ok.token.claims.user_id, user.id);
    assert_eq!(ok.token.claims.exp, 1_000 + VALIDITY_WINDOW_SECS);
}

#[test]
fn unknown_email_and_wrong_password_are_indistinguishable() {
    let user = stored("ada@example.com", "pw123");
    let missing = login(None, "ghost@example.com", "pw123", 0, b"secret").unwrap_err();
    let wrong = login(Some(&user), "ada@example.com", "wrong", 0, b"secret").unwrap_err();
    assert_eq!(missing, wrong);
    assert_eq!(missing, ServiceError::Unauthenticated);
    assert_eq!(missing.message(), wrong.message());
    assert_eq!(missing.message(), "invalid credentials");
}

#[test]
fn get_user_distinguishes_not_found() {
    let user = stored("ada@example.com", "pw123");
    let found = get_user(Some(user.clone())).expect("lookup");
    assert_eq!(found.id, user.id);
    assert_eq!(found.username, "ada@example.com");
    assert_eq!(get_user(None).unwrap_err(), ServiceError::NotFound);
    assert_ne!(ServiceError::NotFound.message(), ServiceError::Unauthenticated.message());
}
