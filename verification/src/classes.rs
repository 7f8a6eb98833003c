//! Classes and their rosters.

use vstd::prelude::*;

verus! {

/// A request to create a class.
pub struct CreateClass {
    pub name: String,
    pub description: Option<String>,
}

/// A request to rename a class.
pub struct RenameClass {
    pub name: String,
}

/// A request to add a user to a class.
pub struct AddMember {
    pub user_id: i64,
}

/// A class.
pub struct ClassResponse {
    pub id: i64,
    pub school_id: i64,
    pub name: String,
    pub description: Option<String>,
    pub archived: bool,
    pub created_by: i64,
    pub created_at: String,
}

/// A class as stored, with its archive flag as a number.
pub fn class_response(
    id: i64,
    school_id: i64,
    name: String,
    description: Option<String>,
    archived: i64,
    created_by: i64,
    created_at: String,
) -> (r: ClassResponse)
    ensures
        r.id == id,
        r.school_id == school_id,
        r.name == name,
        r.description == description,
        r.archived == (archived != 0),
        r.created_by == created_by,
        r.created_at == created_at,
{
    ClassResponse {
        id: id,
        school_id: school_id,
        name: name,
        description: description,
        archived: archived != 0,
        created_by: created_by,
        created_at: created_at,
    }
}

/// A member of a class.
pub struct MemberResponse {
    pub user_id: i64,
    pub email: String,
    pub first_name: String,
    pub last_name: String,
    pub role: String,
    pub joined_at: i64,
}

/// A class with its members.
pub struct RosterResponse {
    pub class: ClassResponse,
    pub members: Vec<MemberResponse>,
}

/// A plain answer.
pub struct MessageResponse {
    pub message: &'static str,
}

impl MessageResponse {
    /// The answer to deleting a class.
    pub fn class_deleted() -> (r: MessageResponse)
        ensures
            r.message@ == "Class deleted"@,
    {
        MessageResponse { message: "Class deleted" }
    }

    /// The answer to removing a member.
    pub fn member_removed() -> (r: MessageResponse)
        ensures
            r.message@ == "Member removed"@,
    {
        MessageResponse { message: "Member removed" }
    }
}

} // verus!
