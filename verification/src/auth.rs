//! Users, roles, token claims and sign-in.

use vstd::prelude::*;

use argon2::password_hash::{PasswordHasher, PasswordVerifier};

use crate::text::{chars_equal, chars_of};

verus! {

/// A user's role.
#[derive(PartialEq, Eq, Structural, Clone, Copy, Debug)]
pub enum UserRole {
    Admin,
    Teacher,
    Student,
}

/// The stored (and JSON) name of a role.
pub open spec fn role_name(r: UserRole) -> Seq<char> {
    match r {
        UserRole::Admin => "admin"@,
        UserRole::Teacher => "teacher"@,
        UserRole::Student => "student"@,
    }
}

/// The role that a stored role string names, if any.
pub open spec fn role_named(s: Seq<char>) -> Option<UserRole> {
    if s == "admin"@ {
        Some(UserRole::Admin)
    } else if s == "teacher"@ {
        Some(UserRole::Teacher)
    } else if s == "student"@ {
        Some(UserRole::Student)
    } else {
        None
    }
}

impl UserRole {
    /// The lowercase name of the role: `"admin"`, `"teacher"` or `"student"`.
    pub fn as_str(&self) -> (r: &'static str)
        ensures
            r@ == role_name(*self),
    {
        match self {
            UserRole::Admin => "admin",
            UserRole::Teacher => "teacher",
            UserRole::Student => "student",
        }
    }

    /// The role named by a stored role string.
    pub fn from_db(s: &str) -> (r: Option<UserRole>)
        ensures
            r == role_named(s@),
    {
        let v = chars_of(s);
        if chars_equal(&v, &chars_of("admin")) {
            Some(UserRole::Admin)
        } else if chars_equal(&v, &chars_of("teacher")) {
            Some(UserRole::Teacher)
        } else if chars_equal(&v, &chars_of("student")) {
            Some(UserRole::Student)
        } else {
            None
        }
    }
}

/// Reading back the stored name of a role gives the role.
pub proof fn law_role_name_roundtrip(r: UserRole)
    ensures
        role_named(role_name(r)) == Some(r),
{
    reveal_strlit("admin");
    reveal_strlit("teacher");
    reveal_strlit("student");
    assert("admin"@ != "teacher"@ && "admin"@ != "student"@) by {
        assert("admin"@.len() != "teacher"@.len());
        assert("admin"@.len() != "student"@.len());
    }
    assert("teacher"@ != "student"@) by {
        assert("teacher"@[0] != "student"@[0]);
    }
}

/// The data embedded inside every token.
pub struct Claims {
    /// Token id, used for revocation.
    pub jti: String,
    /// The user's id.
    pub sub: i64,
    /// The user's school.
    pub school_id: i64,
    /// The user's role.
    pub role: UserRole,
    /// Issued-at time (Unix seconds).
    pub iat: usize,
    /// Expiry time (Unix seconds).
    pub exp: usize,
}

/// How long a token stays valid, in seconds (24 hours).
pub const TOKEN_LIFETIME_SECS: i64 = 86400;

/// Errors of token creation and verification.
#[derive(PartialEq, Eq, Structural, Clone, Copy, Debug)]
pub enum AuthError {
    /// Failed to encode the token.
    TokenCreation,
    /// The token's expiry is in the past.
    TokenExpired,
    /// Bad signature or malformed token.
    TokenInvalid,
    /// The token was revoked (logged out).
    TokenRevoked,
}

/// The message sent back when a request's token is refused.
pub fn rejection_message(e: AuthError) -> (r: &'static str)
    ensures
        r@ == match e {
            AuthError::TokenExpired => "Token has expired"@,
            AuthError::TokenRevoked => "Token has been revoked (logged out)"@,
            _ => "Invalid token"@,
        },
{
    match e {
        AuthError::TokenExpired => "Token has expired",
        AuthError::TokenRevoked => "Token has been revoked (logged out)",
        _ => "Invalid token",
    }
}

/// The message sent back when a request carries no usable bearer token.
pub fn missing_token_message() -> (r: &'static str)
    ensures
        r@ == "Missing or malformed Authorization header"@,
{
    "Missing or malformed Authorization header"
}

/// The claims of a token issued at `now` with id `jti`: valid for 24 hours.
pub fn claims_for(jti: String, user_id: i64, school_id: i64, role: UserRole, now: i64) -> (c: Claims)
    requires
        now + TOKEN_LIFETIME_SECS <= i64::MAX,
    ensures
        c.jti == jti,
        c.sub == user_id,
        c.school_id == school_id,
        c.role == role,
        c.iat == now as usize,
        c.exp == (now + TOKEN_LIFETIME_SECS) as usize,
{
    let exp = now + TOKEN_LIFETIME_SECS;
    Claims {
        jti: jti,
        sub: user_id,
        school_id: school_id,
        role: role,
        iat: now as usize,
        exp: exp as usize,
    }
}

/// The claims were issued at time `t` and expire 24 hours later.
pub open spec fn issued_at(c: Claims, t: i64) -> bool {
    c.iat == t as usize && c.exp == (t + TOKEN_LIFETIME_SECS) as usize
}

/// A token issued at a time `t` with `0 <= t` expires 24 hours later.
pub proof fn law_token_lifetime(now: i64)
    requires
        0 <= now,
        now + TOKEN_LIFETIME_SECS <= usize::MAX,
    ensures
        (now + TOKEN_LIFETIME_SECS) as usize == now as usize + TOKEN_LIFETIME_SECS,
{
}

/// `chrono::Utc::now().timestamp()`: the current time in Unix seconds,
/// within the range of timestamps that chrono represents. The value depends
/// on the clock; nothing else is claimed of it.
#[verifier::external_body]
fn utc_now_timestamp() -> (r: i64)
    ensures
        -8_334_601_315_200 <= r <= 8_210_266_876_799,
{
    chrono::Utc::now().timestamp()
}

/// `uuid::Uuid::new_v4().to_string()`: a random version-4 UUID in its
/// hyphenated form, 36 characters with hyphens at positions 8, 13, 18 and
/// 23. The value is random; nothing else is claimed of it.
#[verifier::external_body]
fn new_token_id() -> (r: String)
    ensures
        r@.len() == 36,
        r@[8] == '-' && r@[13] == '-' && r@[18] == '-' && r@[23] == '-',
{
    uuid::Uuid::new_v4().to_string()
}

/// The claims of a new token for a user: a fresh random id, issued now,
/// valid for 24 hours.
pub fn new_claims(user_id: i64, school_id: i64, role: UserRole) -> (c: Claims)
    ensures
        c.sub == user_id,
        c.school_id == school_id,
        c.role == role,
        c.jti@.len() == 36,
        exists|t: i64| -8_334_601_315_200 <= t <= 8_210_266_876_799 && #[trigger] issued_at(c, t),
{
    let now = utc_now_timestamp();
    let jti = new_token_id();
    let c = claims_for(jti, user_id, school_id, role, now);
    assert(issued_at(c, now));
    c
}

/// Checks a decoded token against the revocation list: `revoked` is
/// non-zero when its id is listed there.
pub fn check_not_revoked(claims: Claims, revoked: i64) -> (r: Result<Claims, AuthError>)
    ensures
        revoked != 0 ==> r == Err::<Claims, AuthError>(AuthError::TokenRevoked),
        revoked == 0 ==> (r matches Ok(c) && c == claims),
{
    if revoked != 0 {
        Err(AuthError::TokenRevoked)
    } else {
        Ok(claims)
    }
}

} // verus!

verus! {

/// What checking `password` against the stored PHC hash string `hash`
/// with Argon2 (default parameters) yields: `Ok(true)` when they match,
/// `Ok(false)` when they do not, `Err(message)` when the hash is malformed
/// or the check fails otherwise.
pub uninterp spec fn argon2_verdict(password: Seq<char>, hash: Seq<char>) -> Result<bool, Seq<char>>;

/// The characters of a verification result.
pub open spec fn verdict_view(r: Result<bool, String>) -> Result<bool, Seq<char>> {
    match r {
        Ok(b) => Ok(b),
        Err(m) => Err(m@),
    }
}

/// `PasswordHash::new` then `Argon2::default().verify_password`: parses
/// the stored hash and checks the password against it, in constant time.
/// The outcome is named by [`argon2_verdict`]; a mismatch is `Ok(false)`.
/// A stored hash that is empty or does not start with `$` is not a PHC
/// string, and `PasswordHash::new` refuses it. Nothing is said of other
/// passwords: the Argon2 output has a fixed length, so distinct passwords
/// may share a hash.
#[verifier::external_body]
pub fn verify_password(password: &str, hash: &str) -> (r: Result<bool, String>)
    ensures
        verdict_view(r) == argon2_verdict(password@, hash@),
        hash@.len() == 0 || hash@[0] != '$' ==> r is Err,
{
    let parsed = match argon2::password_hash::PasswordHash::new(hash) {
        Ok(p) => p,
        Err(e) => return Err(format!("Invalid password hash: {e}")),
    };
    match argon2::Argon2::default().verify_password(password.as_bytes(), &parsed) {
        Ok(()) => Ok(true),
        Err(argon2::password_hash::Error::Password) => Ok(false),
        Err(other) => Err(format!("Password verification error: {other}")),
    }
}

/// `SaltString::generate(&mut OsRng)` then `Argon2::default().hash_password`:
/// hashes a password with a fresh random salt and default parameters and
/// returns the PHC string. The hash is random; what is claimed of it is
/// that checking the same password against it succeeds. With a generated
/// 16-byte salt and the default parameters, hashing fails only for a
/// password longer than `0xFFFF_FFFF` bytes, so it succeeds for any
/// password of at most `0x3FFF_FFFF` characters (at most four bytes each).
#[verifier::external_body]
pub fn hash_password(password: &str) -> (r: Result<String, String>)
    ensures
        r is Ok ==> (argon2_verdict(password@, r.unwrap()@) matches Ok(true)),
        password@.len() <= 0x3FFF_FFFF ==> r is Ok,
{
    let salt = argon2::password_hash::SaltString::generate(&mut password_hash::rand_core::OsRng);
    argon2::Argon2::default().hash_password(password.as_bytes(), &salt).map(|h| h.to_string()).map_err(
        |e| format!("Password hashing failed: {e}"),
    )
}

/// The stored fields of a user that sign-in reads.
pub struct UserRow {
    pub id: i64,
    pub school_id: i64,
    pub email: String,
    pub first_name: String,
    pub last_name: String,
    pub password_hash: String,
    pub role: String,
}

/// Why a sign-in failed.
#[derive(PartialEq, Eq, Structural, Clone, Copy, Debug)]
pub enum LoginError {
    /// No such email, or a wrong password (the same answer for both).
    InvalidCredentials,
    /// The stored hash could not be checked.
    AuthenticationError,
    /// The stored role is not one of the three roles.
    InvalidRole,
}

impl LoginError {
    /// The HTTP status of the failure.
    pub fn status(&self) -> (r: u16)
        ensures
            r == if *self == LoginError::InvalidCredentials {
                401u16
            } else {
                500u16
            },
    {
        match self {
            LoginError::InvalidCredentials => 401,
            _ => 500,
        }
    }

    /// The message of the failure.
    pub fn message(&self) -> (r: &'static str)
        ensures
            r@ == match *self {
                LoginError::InvalidCredentials => "Invalid email or password"@,
                LoginError::AuthenticationError => "Authentication error"@,
                LoginError::InvalidRole => "Invalid role in database"@,
            },
    {
        match self {
            LoginError::InvalidCredentials => "Invalid email or password",
            LoginError::AuthenticationError => "Authentication error",
            LoginError::InvalidRole => "Invalid role in database",
        }
    }
}

/// The outcome of a sign-in with `password`, given the stored hash and role
/// string of the user found by email (`None` when no user has the email).
pub open spec fn login_outcome(found: Option<(Seq<char>, Seq<char>)>, password: Seq<char>) -> Result<
    UserRole,
    LoginError,
> {
    match found {
        None => Err(LoginError::InvalidCredentials),
        Some((hash, role)) => match argon2_verdict(password, hash) {
            Err(_) => Err(LoginError::AuthenticationError),
            Ok(false) => Err(LoginError::InvalidCredentials),
            Ok(true) => match role_named(role) {
                Some(r) => Ok(r),
                None => Err(LoginError::InvalidRole),
            },
        },
    }
}

/// The stored hash and role of a found user.
pub open spec fn found_view(row: Option<UserRow>) -> Option<(Seq<char>, Seq<char>)> {
    match row {
        Some(u) => Some((u.password_hash@, u.role@)),
        None => None,
    }
}

/// Checks a sign-in attempt against the user found by email and returns
/// the user's role.
pub fn authenticate(row: &Option<UserRow>, password: &str) -> (r: Result<UserRole, LoginError>)
    ensures
        r == login_outcome(found_view(*row), password@),
{
    match row {
        None => Err(LoginError::InvalidCredentials),
        Some(u) => {
            match verify_password(password, u.password_hash.as_str()) {
                Err(_) => Err(LoginError::AuthenticationError),
                Ok(false) => Err(LoginError::InvalidCredentials),
                Ok(true) => match UserRole::from_db(u.role.as_str()) {
                    Some(role) => Ok(role),
                    None => Err(LoginError::InvalidRole),
                },
            }
        },
    }
}

/// A user whose stored hash was made from a password, and whose stored role
/// is valid, signs in with that password and gets that role.
pub proof fn law_registered_password_signs_in(password: Seq<char>, hash: Seq<char>, role: UserRole)
    requires
        argon2_verdict(password, hash) == Ok::<bool, Seq<char>>(true),
    ensures
        login_outcome(Some((hash, role_name(role))), password) == Ok::<UserRole, LoginError>(role),
{
    law_role_name_roundtrip(role);
}

/// Any sign-in for an unknown email, or with a password that does not
/// match, is refused with the same answer.
pub proof fn law_unknown_or_wrong_are_indistinguishable(
    password: Seq<char>,
    hash: Seq<char>,
    role: Seq<char>,
)
    requires
        argon2_verdict(password, hash) == Ok::<bool, Seq<char>>(false),
    ensures
        login_outcome(Some((hash, role)), password) == login_outcome(None, password),
{
}

} // verus!

verus! {

/// The claims of an authenticated request.
pub struct AuthUser(pub Claims);

} // verus!
