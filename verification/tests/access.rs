use argon2::password_hash::{PasswordHasher, SaltString};
use argon2::Argon2;
use smart_erp::auth::{claims_for, login_claims, verify_password, User, TOKEN_LIFETIME};
use smart_erp::error::Error;

fn hash_of(password: &str) -> String {
    let salt = SaltString::from_b64("c29tZXNhbHRzb21lc2FsdA").unwrap();
    Argon2::default().hash_password(password.as_bytes(), &salt).unwrap().to_string()
}

fn user(password: &str) -> User {
    User {
        id: 9,
        tenant_id: 1,
        username: "ada".to_string(),
        password_hash: hash_of(password),
        role: "ADMIN".to_string(),
    }
}

#[test]
fn a_password_fits_its_own_hash_only() {
    let stored = hash_of("correct horse");
    assert!(verify_password("correct horse", &stored));
    assert!(!verify_password("correct horse ", &stored));
    assert!(!verify_password("", &stored));
    assert!(!verify_password("correct horse", "correct horse"));
    assert!(!verify_password("correct horse", ""));
}

#[test]
fn logging_in_gives_claims_for_a_day() {
    let ada = user("correct horse");
    let claims = login_claims(Some(&ada), 1, "correct horse", 1_700_000_000).unwrap();
    assert_eq!(claims.sub, 9);
    assert_eq!(claims.tenant_id, 1);
    assert_eq!(claims.role, "ADMIN");
    assert_eq!(claims.exp, 1_700_000_000 + 86_400);
    assert_eq!(TOKEN_LIFETIME, 86_400);
}

#[test]
fn a_wrong_password_or_an_unknown_user_is_turned_away() {
    let ada = user("correct horse");
    assert_eq!(login_claims(Some(&ada), 1, "battery staple", 0), Err(Error::Unauthorized));
    assert_eq!(login_claims(None, 1, "correct horse", 0), Err(Error::Unauthorized));
    let broken = User { password_hash: "not a hash".to_string(), ..user("x") };
    assert_eq!(login_claims(Some(&broken), 1, "x", 0), Err(Error::Unauthorized));
    assert_eq!(claims_for(&ada, 1, false, 0), Err(Error::Unauthorized));
}

#[test]
fn a_time_too_late_to_add_a_day_to_is_refused() {
    let ada = user("pw");
    assert_eq!(
        claims_for(&ada, 1, true, i64::MAX - 86_399),
        Err(Error::Validation("invalid timestamp".to_string()))
    );
    assert_eq!(claims_for(&ada, 1, true, i64::MAX - 86_400).unwrap().exp, i64::MAX);
    assert_eq!(claims_for(&ada, 1, true, -100_000).unwrap().exp, -13_600);
}
