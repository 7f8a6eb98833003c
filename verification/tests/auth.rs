use anki_classroom::auth::{
    authenticate, check_not_revoked, claims_for, hash_password, missing_token_message,
    new_claims, rejection_message, verify_password, AuthError, Claims, LoginError, UserRole,
    UserRow, TOKEN_LIFETIME_SECS,
};

fn row(hash: &str, role: &str) -> UserRow {
    UserRow {
        id: 3,
        school_id: 1,
        email: "a@b.c".to_string(),
        first_name: "Ada".to_string(),
        last_name: "Lovelace".to_string(),
        password_hash: hash.to_string(),
        role: role.to_string(),
    }
}

#[test]
fn role_names_roundtrip() {
    for r in [UserRole::Admin, UserRole::Teacher, UserRole::Student] {
        assert_eq!(UserRole::from_db(r.as_str()), Some(r));
    }
    assert_eq!(UserRole::Admin.as_str(), "admin");
    assert_eq!(UserRole::Teacher.as_str(), "teacher");
    assert_eq!(UserRole::Student.as_str(), "student");
    assert_eq!(UserRole::from_db("Admin"), None);
    assert_eq!(UserRole::from_db(""), None);
}

#[test]
fn token_error_messages() {
    assert_eq!(rejection_message(AuthError::TokenExpired), "Token has expired");
    assert_eq!(rejection_message(AuthError::TokenRevoked), "Token has been revoked (logged out)");
    assert_eq!(rejection_message(AuthError::TokenInvalid), "Invalid token");
    assert_eq!(rejection_message(AuthError::TokenCreation), "Invalid token");
    assert_eq!(missing_token_message(), "Missing or malformed Authorization header");
}

#[test]
fn claims_last_a_day() {
    let c = claims_for("id".to_string(), 4, 2, UserRole::Teacher, 1_000);
    assert_eq!(c.jti, "id");
    assert_eq!((c.sub, c.school_id, c.role), (4, 2, UserRole::Teacher));
    assert_eq!((c.iat, c.exp), (1_000, 87_400));
    assert_eq!(TOKEN_LIFETIME_SECS, 86_400);
}

#[test]
fn new_claims_have_fresh_ids() {
    let a = new_claims(1, 2, UserRole::Student);
    let b = new_claims(1, 2, UserRole::Student);
    assert_eq!((a.sub, a.school_id, a.role), (1, 2, UserRole::Student));
    assert_eq!(a.exp - a.iat, 86_400);
    assert_eq!(a.jti.len(), 36);
    assert_eq!(a.jti.chars().nth(8), Some('-'));
    assert_ne!(a.jti, b.jti);
}

#[test]
fn revoked_tokens_are_refused() {
    let c = Claims { jti: "x".to_string(), sub: 1, school_id: 1, role: UserRole::Admin, iat: 0, exp: 1 };
    assert_eq!(check_not_revoked(c, 1).err(), Some(AuthError::TokenRevoked));
    let c = Claims { jti: "x".to_string(), sub: 1, school_id: 1, role: UserRole::Admin, iat: 0, exp: 1 };
    assert_eq!(check_not_revoked(c, 0).unwrap().jti, "x");
}

#[test]
fn hashed_password_verifies() {
    let h = hash_password("hunter2").unwrap();
    assert!(h.starts_with("$argon2"));
    assert_ne!(h, "hunter2");
    assert_eq!(verify_password("hunter2", &h), Ok(true));
    assert_eq!(verify_password("hunter3", &h), Ok(false));
    assert!(verify_password("hunter2", "not a hash").is_err());
}

#[test]
fn sign_in_outcomes() {
    let h = hash_password("pw").unwrap();
    assert_eq!(authenticate(&Some(row(&h, "teacher")), "pw"), Ok(UserRole::Teacher));
    assert_eq!(authenticate(&Some(row(&h, "teacher")), "wrong"), Err(LoginError::InvalidCredentials));
    assert_eq!(authenticate(&None, "pw"), Err(LoginError::InvalidCredentials));
    assert_eq!(authenticate(&Some(row(&h, "janitor")), "pw"), Err(LoginError::InvalidRole));
    assert_eq!(authenticate(&Some(row("garbage", "teacher")), "pw"), Err(LoginError::AuthenticationError));
}

#[test]
fn sign_in_error_answers() {
    assert_eq!(LoginError::InvalidCredentials.status(), 401);
    assert_eq!(LoginError::InvalidCredentials.message(), "Invalid email or password");
    assert_eq!(LoginError::AuthenticationError.status(), 500);
    assert_eq!(LoginError::AuthenticationError.message(), "Authentication error");
    assert_eq!(LoginError::InvalidRole.status(), 500);
    assert_eq!(LoginError::InvalidRole.message(), "Invalid role in database");
}

#[test]
fn empty_password_hashes_and_verifies() {
    let h = hash_password("").unwrap();
    assert!(h.starts_with('$'));
    assert_eq!(verify_password("", &h), Ok(true));
    assert_eq!(verify_password("x", &h), Ok(false));
}
