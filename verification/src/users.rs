//! Users: registration, profiles, sign-in responses and search results.

use vstd::prelude::*;

use crate::auth::{argon2_verdict, hash_password, role_name, UserRole, UserRow};

verus! {

/// A registration request.
pub struct CreateUser {
    pub school_id: i64,
    pub email: String,
    /// Plain-text password; only its hash is stored.
    pub password: String,
    pub role: UserRole,
    pub first_name: String,
    pub last_name: String,
}

/// A registered user, as returned after registration.
pub struct User {
    pub id: i64,
    pub email: String,
    pub first_name: String,
    pub last_name: String,
    pub role: String,
    pub school_id: i64,
}

/// The row to store for a new user.
pub struct NewUserRecord {
    pub school_id: i64,
    pub email: String,
    pub password_hash: String,
    pub role: String,
    pub first_name: String,
    pub last_name: String,
}

/// Prepares the stored row of a new user: the password is replaced by its
/// Argon2 hash and the role by its name. Fails only when hashing fails.
pub fn new_user_record(body: CreateUser) -> (r: Result<NewUserRecord, String>)
    ensures
        body.password@.len() <= 0x3FFF_FFFF ==> r is Ok,
        r matches Ok(rec) ==> {
            &&& rec.school_id == body.school_id
            &&& rec.email == body.email
            &&& rec.first_name == body.first_name
            &&& rec.last_name == body.last_name
            &&& rec.role@ == role_name(body.role)
            &&& argon2_verdict(body.password@, rec.password_hash@) matches Ok(true)
        },
{
    let hash = match hash_password(body.password.as_str()) {
        Ok(h) => h,
        Err(e) => return Err(e),
    };
    Ok(
        NewUserRecord {
            school_id: body.school_id,
            email: body.email,
            password_hash: hash,
            role: String::from_str(body.role.as_str()),
            first_name: body.first_name,
            last_name: body.last_name,
        },
    )
}

/// The registration response for a stored row with the id it was given.
pub fn created_user(rec: NewUserRecord, id: i64) -> (u: User)
    ensures
        u.id == id,
        u.email == rec.email,
        u.first_name == rec.first_name,
        u.last_name == rec.last_name,
        u.role == rec.role,
        u.school_id == rec.school_id,
{
    User {
        id: id,
        email: rec.email,
        first_name: rec.first_name,
        last_name: rec.last_name,
        role: rec.role,
        school_id: rec.school_id,
    }
}

/// The fields of a user that an admin may change; absent fields are kept.
pub struct UpdateUser {
    pub email: Option<String>,
    pub password: Option<String>,
    pub role: Option<UserRole>,
    pub first_name: Option<String>,
    pub last_name: Option<String>,
}

/// A user as admins see it.
pub struct UserDetail {
    pub id: i64,
    pub school_id: i64,
    pub email: String,
    pub first_name: String,
    pub last_name: String,
    pub role: String,
    pub created_at: String,
}

/// The answer to a deletion.
pub struct DeletedResponse {
    pub message: &'static str,
}

impl DeletedResponse {
    /// The answer to deleting a user.
    pub fn user_deleted() -> (r: DeletedResponse)
        ensures
            r.message@ == "User deleted"@,
    {
        DeletedResponse { message: "User deleted" }
    }
}

/// The signed-in user's own profile.
pub struct MeResponse {
    pub id: i64,
    pub email: String,
    pub first_name: String,
    pub last_name: String,
    pub role: String,
    pub school_id: i64,
}

/// The query of a user search.
pub struct SearchQuery {
    pub q: String,
}

/// One user found by a search.
pub struct SearchResult {
    pub id: i64,
    pub email: String,
    pub first_name: String,
    pub last_name: String,
    pub role: String,
}

/// A sign-in request.
pub struct LoginRequest {
    pub email: String,
    pub password: String,
}

/// The public information of a signed-in user.
pub struct UserInfo {
    pub id: i64,
    pub email: String,
    pub first_name: String,
    pub last_name: String,
    pub role: String,
    pub school_id: i64,
}

/// The answer to a successful sign-in: the token and the user.
pub struct LoginResponse {
    pub token: String,
    pub user: UserInfo,
}

/// The sign-in answer for the user `row` with the issued `token`.
pub fn login_response(token: String, row: UserRow) -> (r: LoginResponse)
    ensures
        r.token == token,
        r.user.id == row.id,
        r.user.email == row.email,
        r.user.first_name == row.first_name,
        r.user.last_name == row.last_name,
        r.user.role == row.role,
        r.user.school_id == row.school_id,
{
    LoginResponse {
        token: token,
        user: UserInfo {
            id: row.id,
            email: row.email,
            first_name: row.first_name,
            last_name: row.last_name,
            role: row.role,
            school_id: row.school_id,
        },
    }
}

/// The answer to signing out.
pub struct LogoutResponse {
    pub message: &'static str,
}

impl LogoutResponse {
    /// The answer to a successful sign-out.
    pub fn logged_out() -> (r: LogoutResponse)
        ensures
            r.message@ == "Logged out successfully"@,
    {
        LogoutResponse { message: "Logged out successfully" }
    }
}

/// The liveness answer.
pub struct Health {
    pub status: &'static str,
}

impl Health {
    /// The service is up.
    pub fn ok() -> (r: Health)
        ensures
            r.status@ == "ok"@,
    {
        Health { status: "ok" }
    }
}

} // verus!
