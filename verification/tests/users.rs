use anki_classroom::auth::{verify_password, UserRole, UserRow};
use anki_classroom::users::{
    created_user, login_response, new_user_record, CreateUser, DeletedResponse, Health,
    LogoutResponse,
};

#[test]
fn registration_stores_a_hash_and_the_role_name() {
    let body = CreateUser {
        school_id: 4,
        email: "t@school.org".to_string(),
        password: "s3cret".to_string(),
        role: UserRole::Teacher,
        first_name: "Tom".to_string(),
        last_name: "Ray".to_string(),
    };
    let rec = new_user_record(body).unwrap();
    assert_eq!(rec.school_id, 4);
    assert_eq!(rec.email, "t@school.org");
    assert_eq!(rec.role, "teacher");
    assert_ne!(rec.password_hash, "s3cret");
    assert_eq!(verify_password("s3cret", &rec.password_hash), Ok(true));
    let u = created_user(rec, 17);
    assert_eq!((u.id, u.school_id), (17, 4));
    assert_eq!((u.email.as_str(), u.role.as_str()), ("t@school.org", "teacher"));
    assert_eq!((u.first_name.as_str(), u.last_name.as_str()), ("Tom", "Ray"));
}

#[test]
fn sign_in_answer_carries_the_user() {
    let row = UserRow {
        id: 8,
        school_id: 2,
        email: "s@x.y".to_string(),
        first_name: "Sam".to_string(),
        last_name: "Lee".to_string(),
        password_hash: "h".to_string(),
        role: "student".to_string(),
    };
    let r = login_response("tok".to_string(), row);
    assert_eq!(r.token, "tok");
    assert_eq!((r.user.id, r.user.school_id), (8, 2));
    assert_eq!(r.user.role, "student");
    assert_eq!(r.user.email, "s@x.y");
}

#[test]
fn fixed_answers() {
    assert_eq!(DeletedResponse::user_deleted().message, "User deleted");
    assert_eq!(LogoutResponse::logged_out().message, "Logged out successfully");
    assert_eq!(Health::ok().status, "ok");
}
