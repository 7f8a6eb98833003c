//! Who may do what: role gates and the access rules for decks and classes.
//!
//! A rule that needs facts from the database is a step function: given the
//! facts known so far it grants, denies, or names the next fact to look up.

use vstd::prelude::*;

use crate::auth::{Claims, UserRole};

verus! {

/// A refused request: HTTP status and message.
#[derive(Clone, Copy, Debug)]
pub struct Rejection {
    pub status: u16,
    pub message: &'static str,
}

/// `r` is the refusal with this status and message.
pub open spec fn is_rejection(r: Rejection, status: u16, message: Seq<char>) -> bool {
    r.status == status && r.message@ == message
}

/// Where a step-wise access check stands.
#[derive(Clone, Copy, Debug)]
pub enum AccessStep {
    Granted,
    Denied(Rejection),
    /// Look up whether the caller collaborates on the deck.
    NeedCollaborator,
    /// Look up whether the caller is in a class that has the deck.
    NeedClassMembership,
    /// Look up whether the caller is a member of the class.
    NeedMembership,
    /// Look up whether the class is one of the caller's school.
    NeedClass,
}

/// Rejects callers who are not admins; gives the admin's school.
pub fn check_admin(claims: &Claims) -> (r: Result<i64, Rejection>)
    ensures
        claims.role == UserRole::Admin ==> r == Ok::<i64, Rejection>(claims.school_id),
        claims.role != UserRole::Admin ==> (r matches Err(e) && is_rejection(
            e,
            403,
            "Admin role required"@,
        )),
{
    if claims.role != UserRole::Admin {
        return Err(Rejection { status: 403, message: "Admin role required" });
    }
    Ok(claims.school_id)
}

/// The parts of the service closed to students.
#[derive(PartialEq, Eq, Structural, Clone, Copy, Debug)]
pub enum StaffArea {
    Classes,
    Decks,
    DeckOptions,
    NoteTypes,
    Notes,
    ClassAnalytics,
    Dashboard,
    UserSearch,
}

/// The message given to a student who tries to use `area`.
pub open spec fn staff_message(area: StaffArea) -> Seq<char> {
    match area {
        StaffArea::Classes => "Only teachers and admins can manage classes"@,
        StaffArea::Decks => "Only teachers and admins can manage decks"@,
        StaffArea::DeckOptions => "Only teachers and admins can manage deck options"@,
        StaffArea::NoteTypes => "Only teachers and admins can manage note types"@,
        StaffArea::Notes => "Only teachers and admins can manage notes"@,
        StaffArea::ClassAnalytics => "Only teachers and admins can view class analytics"@,
        StaffArea::Dashboard => "Only teachers and admins can view the dashboard"@,
        StaffArea::UserSearch => "Students cannot search for users"@,
    }
}

/// Rejects students from a staff-only area.
pub fn require_staff(claims: &Claims, area: StaffArea) -> (r: Result<(), Rejection>)
    ensures
        claims.role != UserRole::Student ==> r is Ok,
        claims.role == UserRole::Student ==> (r matches Err(e) && is_rejection(
            e,
            403,
            staff_message(area),
        )),
{
    if claims.role != UserRole::Student {
        return Ok(());
    }
    let message = match area {
        StaffArea::Classes => "Only teachers and admins can manage classes",
        StaffArea::Decks => "Only teachers and admins can manage decks",
        StaffArea::DeckOptions => "Only teachers and admins can manage deck options",
        StaffArea::NoteTypes => "Only teachers and admins can manage note types",
        StaffArea::Notes => "Only teachers and admins can manage notes",
        StaffArea::ClassAnalytics => "Only teachers and admins can view class analytics",
        StaffArea::Dashboard => "Only teachers and admins can view the dashboard",
        StaffArea::UserSearch => "Students cannot search for users",
    };
    Err(Rejection { status: 403, message: message })
}

/// Requires that the caller is a teacher or admin (deck management).
pub fn check_teacher_or_admin(claims: &Claims) -> (r: Result<(), Rejection>)
    ensures
        claims.role != UserRole::Student ==> r is Ok,
        claims.role == UserRole::Student ==> (r matches Err(e) && is_rejection(
            e,
            403,
            "Only teachers and admins can manage decks"@,
        )),
{
    require_staff(claims, StaffArea::Decks)
}

/// May the caller manage (rename, delete, share) a deck owned by `owner`?
pub open spec fn may_manage_deck(owner: i64, role: UserRole, sub: i64) -> bool {
    role == UserRole::Admin || owner == sub
}

/// May the caller edit the content of a deck?
pub open spec fn may_edit_deck(owner: i64, collaborator: bool, role: UserRole, sub: i64) -> bool {
    may_manage_deck(owner, role, sub) || collaborator
}

/// May the caller view (and study) a deck?
pub open spec fn may_view_deck(
    owner: i64,
    collaborator: bool,
    in_class: bool,
    role: UserRole,
    sub: i64,
) -> bool {
    may_edit_deck(owner, collaborator, role, sub) || in_class
}

/// May the caller manage a class created by `owner`?
pub open spec fn may_manage_class(owner: i64, role: UserRole, sub: i64) -> bool {
    role == UserRole::Admin || owner == sub
}

/// May the caller view a class?
pub open spec fn may_view_class(owner: i64, member: bool, role: UserRole, sub: i64) -> bool {
    may_manage_class(owner, role, sub) || member
}

/// The refusal of a request about a deck the caller's school does not have.
pub open spec fn deck_not_found() -> Rejection {
    Rejection { status: 404, message: "Deck not found" }
}

/// The refusal of a request about a class the caller's school does not have.
pub open spec fn class_not_found() -> Rejection {
    Rejection { status: 404, message: "Class not found" }
}

/// The outcome of the manage check of a deck created by `owner` (`None`:
/// no such deck in the school).
pub open spec fn deck_owner_outcome(owner: Option<i64>, role: UserRole, sub: i64) -> Result<(), Rejection> {
    match owner {
        None => Err(deck_not_found()),
        Some(o) => if may_manage_deck(o, role, sub) {
            Ok(())
        } else {
            Err(Rejection { status: 403, message: "You can only manage decks you created" })
        },
    }
}

/// Where the edit check of a deck stands, given what is known of whether
/// the caller collaborates on it.
pub open spec fn deck_edit_step(owner: Option<i64>, collaborator: Option<bool>, role: UserRole, sub: i64) -> AccessStep {
    match owner {
        None => AccessStep::Denied(deck_not_found()),
        Some(o) => if may_manage_deck(o, role, sub) {
            AccessStep::Granted
        } else {
            match collaborator {
                None => AccessStep::NeedCollaborator,
                Some(true) => AccessStep::Granted,
                Some(false) => AccessStep::Denied(
                    Rejection {
                        status: 403,
                        message: "You can only manage decks you own or collaborate on",
                    },
                ),
            }
        },
    }
}

/// Where the view check of a deck stands, given what is known of whether
/// the caller collaborates on it and whether one of the caller's classes
/// has it.
pub open spec fn deck_view_step(
    owner: Option<i64>,
    collaborator: Option<bool>,
    in_class: Option<bool>,
    role: UserRole,
    sub: i64,
) -> AccessStep {
    match owner {
        None => AccessStep::Denied(deck_not_found()),
        Some(o) => if may_manage_deck(o, role, sub) {
            AccessStep::Granted
        } else {
            match collaborator {
                None => AccessStep::NeedCollaborator,
                Some(true) => AccessStep::Granted,
                Some(false) => match in_class {
                    None => AccessStep::NeedClassMembership,
                    Some(true) => AccessStep::Granted,
                    Some(false) => AccessStep::Denied(
                        Rejection { status: 403, message: "You do not have access to this deck" },
                    ),
                },
            }
        },
    }
}

/// Where the copy check of a deck stands: admins, the owner and
/// collaborators may copy it.
pub open spec fn deck_copy_step(owner: Option<i64>, collaborator: Option<bool>, role: UserRole, sub: i64) -> AccessStep {
    match owner {
        None => AccessStep::Denied(deck_not_found()),
        Some(o) => if may_manage_deck(o, role, sub) {
            AccessStep::Granted
        } else {
            match collaborator {
                None => AccessStep::NeedCollaborator,
                Some(true) => AccessStep::Granted,
                Some(false) => AccessStep::Denied(
                    Rejection { status: 403, message: "You do not have access to this deck" },
                ),
            }
        },
    }
}

/// The outcome of the manage check of a class created by `owner`.
pub open spec fn class_owner_outcome(owner: Option<i64>, role: UserRole, sub: i64) -> Result<(), Rejection> {
    match owner {
        None => Err(class_not_found()),
        Some(o) => if may_manage_class(o, role, sub) {
            Ok(())
        } else {
            Err(Rejection { status: 403, message: "You can only manage classes you created" })
        },
    }
}

/// Where the view check of a class stands, given what is known of whether
/// the caller is a member.
pub open spec fn class_view_step(owner: Option<i64>, member: Option<bool>, role: UserRole, sub: i64) -> AccessStep {
    match owner {
        None => AccessStep::Denied(class_not_found()),
        Some(o) => if may_manage_class(o, role, sub) {
            AccessStep::Granted
        } else {
            match member {
                None => AccessStep::NeedMembership,
                Some(true) => AccessStep::Granted,
                Some(false) => AccessStep::Denied(
                    Rejection { status: 403, message: "You are not a member of this class" },
                ),
            }
        },
    }
}

/// Where the check that the caller may add a deck to a class stands: the
/// caller must pass the manage check of the deck (its owner or an admin),
/// and then the class must be one of the school's.
pub open spec fn add_to_class_step(owner: Option<i64>, class_found: Option<bool>, role: UserRole, sub: i64) -> AccessStep {
    match deck_owner_outcome(owner, role, sub) {
        Err(e) => AccessStep::Denied(e),
        Ok(_) => match class_found {
            None => AccessStep::NeedClass,
            Some(false) => AccessStep::Denied(class_not_found()),
            Some(true) => AccessStep::Granted,
        },
    }
}

/// Checks that a deck-options preset belongs to the caller's school;
/// `preset_school` is the preset's school, `None` when there is no such
/// preset. A preset of another school is answered as a missing one.
pub fn check_preset_school(preset_school: Option<i64>, claims: &Claims) -> (r: Result<(), Rejection>)
    ensures
        preset_school == Some(claims.school_id) ==> r is Ok,
        preset_school != Some(claims.school_id) ==> (r matches Err(e) && is_rejection(
            e,
            404,
            "Deck options not found"@,
        )),
{
    match preset_school {
        Some(s) => {
            if s == claims.school_id {
                Ok(())
            } else {
                Err(Rejection { status: 404, message: "Deck options not found" })
            }
        },
        None => Err(Rejection { status: 404, message: "Deck options not found" }),
    }
}

/// Checks that the caller may manage a deck; `owner` is the deck's creator,
/// `None` when the school has no such deck.
pub fn check_deck_owner(owner: Option<i64>, claims: &Claims) -> (r: Result<(), Rejection>)
    ensures
        r == deck_owner_outcome(owner, claims.role, claims.sub),
{
    match owner {
        None => Err(Rejection { status: 404, message: "Deck not found" }),
        Some(o) => {
            if claims.role == UserRole::Admin {
                return Ok(());
            }
            if o != claims.sub {
                return Err(
                    Rejection { status: 403, message: "You can only manage decks you created" },
                );
            }
            Ok(())
        },
    }
}

/// One step of the check that the caller may edit a deck's content.
pub fn check_deck_collaborator(owner: Option<i64>, collaborator: Option<bool>, claims: &Claims) -> (r:
    AccessStep)
    ensures
        r == deck_edit_step(owner, collaborator, claims.role, claims.sub),
{
    match owner {
        None => AccessStep::Denied(Rejection { status: 404, message: "Deck not found" }),
        Some(o) => {
            if claims.role == UserRole::Admin || o == claims.sub {
                return AccessStep::Granted;
            }
            match collaborator {
                None => AccessStep::NeedCollaborator,
                Some(true) => AccessStep::Granted,
                Some(false) => AccessStep::Denied(
                    Rejection {
                        status: 403,
                        message: "You can only manage decks you own or collaborate on",
                    },
                ),
            }
        },
    }
}

/// One step of the check that the caller may view a deck.
pub fn check_deck_visible(
    owner: Option<i64>,
    collaborator: Option<bool>,
    in_class: Option<bool>,
    claims: &Claims,
) -> (r: AccessStep)
    ensures
        r == deck_view_step(owner, collaborator, in_class, claims.role, claims.sub),
{
    match owner {
        None => AccessStep::Denied(Rejection { status: 404, message: "Deck not found" }),
        Some(o) => {
            if claims.role == UserRole::Admin || o == claims.sub {
                return AccessStep::Granted;
            }
            match collaborator {
                None => AccessStep::NeedCollaborator,
                Some(true) => AccessStep::Granted,
                Some(false) => match in_class {
                    None => AccessStep::NeedClassMembership,
                    Some(true) => AccessStep::Granted,
                    Some(false) => AccessStep::Denied(
                        Rejection { status: 403, message: "You do not have access to this deck" },
                    ),
                },
            }
        },
    }
}

/// One step of the check that the caller may copy a deck.
pub fn check_deck_copyable(owner: Option<i64>, collaborator: Option<bool>, claims: &Claims) -> (r:
    AccessStep)
    ensures
        r == deck_copy_step(owner, collaborator, claims.role, claims.sub),
{
    match owner {
        None => AccessStep::Denied(Rejection { status: 404, message: "Deck not found" }),
        Some(o) => {
            if claims.role == UserRole::Admin || o == claims.sub {
                return AccessStep::Granted;
            }
            match collaborator {
                None => AccessStep::NeedCollaborator,
                Some(true) => AccessStep::Granted,
                Some(false) => AccessStep::Denied(
                    Rejection { status: 403, message: "You do not have access to this deck" },
                ),
            }
        },
    }
}

/// One step of the check that the caller may add a deck (created by
/// `owner`, `None` when the school has no such deck) to a class
/// (`class_found`: whether the school has it, once looked up).
pub fn check_add_deck_to_class(owner: Option<i64>, class_found: Option<bool>, claims: &Claims) -> (r:
    AccessStep)
    ensures
        r == add_to_class_step(owner, class_found, claims.role, claims.sub),
{
    match check_deck_owner(owner, claims) {
        Err(e) => AccessStep::Denied(e),
        Ok(()) => match class_found {
            None => AccessStep::NeedClass,
            Some(false) => AccessStep::Denied(Rejection { status: 404, message: "Class not found" }),
            Some(true) => AccessStep::Granted,
        },
    }
}

/// Whether the caller sees a deck's collaborator list: `Some(answer)`, or
/// `None` when it depends on whether the caller collaborates on the deck.
pub fn sees_collaborators(owner: i64, collaborator: Option<bool>, claims: &Claims) -> (r: Option<bool>)
    ensures
        may_manage_deck(owner, claims.role, claims.sub) ==> r == Some(true),
        !may_manage_deck(owner, claims.role, claims.sub) ==> r == collaborator,
{
    if claims.role == UserRole::Admin || owner == claims.sub {
        Some(true)
    } else {
        collaborator
    }
}

/// Checks that the caller may manage a class; `owner` is the class's
/// creator, `None` when the school has no such class.
pub fn check_class_owner(owner: Option<i64>, claims: &Claims) -> (r: Result<(), Rejection>)
    ensures
        r == class_owner_outcome(owner, claims.role, claims.sub),
{
    match owner {
        None => Err(Rejection { status: 404, message: "Class not found" }),
        Some(o) => {
            if claims.role == UserRole::Admin {
                return Ok(());
            }
            if o != claims.sub {
                return Err(
                    Rejection { status: 403, message: "You can only manage classes you created" },
                );
            }
            Ok(())
        },
    }
}

/// One step of the check that the caller may view a class.
pub fn check_class_member(owner: Option<i64>, member: Option<bool>, claims: &Claims) -> (r: AccessStep)
    ensures
        r == class_view_step(owner, member, claims.role, claims.sub),
{
    match owner {
        None => AccessStep::Denied(Rejection { status: 404, message: "Class not found" }),
        Some(o) => {
            if claims.role == UserRole::Admin {
                return AccessStep::Granted;
            }
            if o == claims.sub {
                return AccessStep::Granted;
            }
            match member {
                None => AccessStep::NeedMembership,
                Some(true) => AccessStep::Granted,
                Some(false) => AccessStep::Denied(
                    Rejection { status: 403, message: "You are not a member of this class" },
                ),
            }
        },
    }
}

/// The deck visibility model: once it is known whether the caller
/// collaborates on a deck and whether one of the caller's classes has it,
/// the view check grants exactly when the caller is an admin, the deck's
/// creator, a collaborator or a member of such a class, and refuses
/// otherwise.
pub proof fn law_deck_view_decides(owner: i64, collaborator: bool, in_class: bool, role: UserRole, sub: i64)
    ensures
        (deck_view_step(Some(owner), Some(collaborator), Some(in_class), role, sub)
            == AccessStep::Granted) == may_view_deck(owner, collaborator, in_class, role, sub),
        deck_view_step(Some(owner), Some(collaborator), Some(in_class), role, sub) is Granted
            || deck_view_step(Some(owner), Some(collaborator), Some(in_class), role, sub) is Denied,
{
}

/// Once it is known whether the caller collaborates on a deck, the edit
/// check grants exactly admins, the creator and collaborators, and the copy
/// check decides the same way.
pub proof fn law_deck_edit_decides(owner: i64, collaborator: bool, role: UserRole, sub: i64)
    ensures
        (deck_edit_step(Some(owner), Some(collaborator), role, sub) == AccessStep::Granted)
            == may_edit_deck(owner, collaborator, role, sub),
        deck_edit_step(Some(owner), Some(collaborator), role, sub) is Granted || deck_edit_step(
            Some(owner),
            Some(collaborator),
            role,
            sub,
        ) is Denied,
        (deck_copy_step(Some(owner), Some(collaborator), role, sub) == AccessStep::Granted) == (
        deck_edit_step(Some(owner), Some(collaborator), role, sub) == AccessStep::Granted),
{
}

/// Once it is known whether the caller is a member of a class, the view
/// check grants exactly admins, the class's creator and its members.
pub proof fn law_class_view_decides(owner: i64, member: bool, role: UserRole, sub: i64)
    ensures
        (class_view_step(Some(owner), Some(member), role, sub) == AccessStep::Granted)
            == may_view_class(owner, member, role, sub),
        class_view_step(Some(owner), Some(member), role, sub) is Granted || class_view_step(
            Some(owner),
            Some(member),
            role,
            sub,
        ) is Denied,
{
}

/// Once it is known whether the school has the class, adding a deck to it
/// is granted exactly when the caller may manage the deck (its owner or an
/// admin) and the class is the school's; every other caller is refused as
/// the manage check refuses them, whatever the class.
pub proof fn law_add_to_class_decides(owner: i64, class_found: bool, role: UserRole, sub: i64)
    ensures
        (add_to_class_step(Some(owner), Some(class_found), role, sub) == AccessStep::Granted) == (
        may_manage_deck(owner, role, sub) && class_found),
        add_to_class_step(Some(owner), Some(class_found), role, sub) is Granted || add_to_class_step(
            Some(owner),
            Some(class_found),
            role,
            sub,
        ) is Denied,
        !may_manage_deck(owner, role, sub) ==> add_to_class_step(
            Some(owner),
            Some(class_found),
            role,
            sub,
        ) == AccessStep::Denied(
            Rejection { status: 403, message: "You can only manage decks you created" },
        ),
        may_manage_deck(owner, role, sub) && !class_found ==> add_to_class_step(
            Some(owner),
            Some(class_found),
            role,
            sub,
        ) == AccessStep::Denied(class_not_found()),
{
}

/// The checks are nested: whoever passes the manage check of a deck is
/// granted its edit, copy and view checks at once, whatever else is known;
/// whoever is granted the edit check given some facts is granted the view
/// check given the same facts. The same holds of classes.
pub proof fn law_access_nested(
    owner: i64,
    collaborator: Option<bool>,
    in_class: Option<bool>,
    member: Option<bool>,
    role: UserRole,
    sub: i64,
)
    ensures
        deck_owner_outcome(Some(owner), role, sub) is Ok ==> {
            &&& deck_edit_step(Some(owner), collaborator, role, sub) == AccessStep::Granted
            &&& deck_copy_step(Some(owner), collaborator, role, sub) == AccessStep::Granted
            &&& deck_view_step(Some(owner), collaborator, in_class, role, sub) == AccessStep::Granted
        },
        deck_edit_step(Some(owner), collaborator, role, sub) == AccessStep::Granted ==> deck_view_step(
            Some(owner),
            collaborator,
            in_class,
            role,
            sub,
        ) == AccessStep::Granted,
        class_owner_outcome(Some(owner), role, sub) is Ok ==> class_view_step(
            Some(owner),
            member,
            role,
            sub,
        ) == AccessStep::Granted,
{
}

/// Every check refuses a deck or class that the caller's school does not
/// have with 404, whoever asks.
pub proof fn law_unknown_is_not_found(
    collaborator: Option<bool>,
    in_class: Option<bool>,
    member: Option<bool>,
    class_found: Option<bool>,
    role: UserRole,
    sub: i64,
)
    ensures
        add_to_class_step(None, class_found, role, sub) == AccessStep::Denied(
            deck_not_found(),
        ),
        deck_owner_outcome(None, role, sub) == Err::<(), Rejection>(deck_not_found()),
        deck_edit_step(None, collaborator, role, sub) == AccessStep::Denied(deck_not_found()),
        deck_view_step(None, collaborator, in_class, role, sub) == AccessStep::Denied(deck_not_found()),
        deck_copy_step(None, collaborator, role, sub) == AccessStep::Denied(deck_not_found()),
        class_owner_outcome(None, role, sub) == Err::<(), Rejection>(class_not_found()),
        class_view_step(None, member, role, sub) == AccessStep::Denied(class_not_found()),
        deck_not_found().status == 404 && class_not_found().status == 404,
{
}

} // verus!

verus! {

/// Checks the user a deck is to be shared with, from the stored role of
/// the user found in the caller's school (`None` when there is none).
/// Students cannot collaborate, and admins already see every deck.
pub fn check_share_target(target_role: Option<&str>) -> (r: Result<(), Rejection>)
    ensures
        match target_role {
            None => r matches Err(e) && is_rejection(e, 404, "User not found in your school"@),
            Some(role) => if crate::auth::role_named(role@) == Some(UserRole::Student) {
                r matches Err(e) && is_rejection(e, 400, "Cannot share a deck with a student"@)
            } else if crate::auth::role_named(role@) == Some(UserRole::Admin) {
                r matches Err(e) && is_rejection(e, 400, "Admins already have access to all decks"@)
            } else {
                r is Ok
            },
        },
{
    match target_role {
        None => Err(Rejection { status: 404, message: "User not found in your school" }),
        Some(role) => match UserRole::from_db(role) {
            Some(UserRole::Student) => Err(
                Rejection { status: 400, message: "Cannot share a deck with a student" },
            ),
            Some(UserRole::Admin) => Err(
                Rejection { status: 400, message: "Admins already have access to all decks" },
            ),
            _ => Ok(()),
        },
    }
}

/// A deck cannot be shared with its owner.
pub fn check_not_deck_owner(target_id: i64, owner: i64) -> (r: Result<(), Rejection>)
    ensures
        target_id == owner ==> (r matches Err(e) && is_rejection(
            e,
            400,
            "Cannot share a deck with its owner"@,
        )),
        target_id != owner ==> r is Ok,
{
    if target_id == owner {
        Err(Rejection { status: 400, message: "Cannot share a deck with its owner" })
    } else {
        Ok(())
    }
}

/// Checks the new owner of a deck: a teacher of the caller's school.
pub fn check_transfer_target(target_role: Option<&str>) -> (r: Result<(), Rejection>)
    ensures
        match target_role {
            None => r matches Err(e) && is_rejection(e, 404, "User not found in your school"@),
            Some(role) => if crate::auth::role_named(role@) == Some(UserRole::Teacher) {
                r is Ok
            } else {
                r matches Err(e) && is_rejection(
                    e,
                    400,
                    "Ownership can only be transferred to a teacher"@,
                )
            },
        },
{
    match target_role {
        None => Err(Rejection { status: 404, message: "User not found in your school" }),
        Some(role) => match UserRole::from_db(role) {
            Some(UserRole::Teacher) => Ok(()),
            _ => Err(
                Rejection { status: 400, message: "Ownership can only be transferred to a teacher" },
            ),
        },
    }
}

/// Checks a user about to be added to a class: admins cannot be members.
pub fn check_new_member(target_role: Option<&str>) -> (r: Result<(), Rejection>)
    ensures
        match target_role {
            None => r matches Err(e) && is_rejection(e, 404, "User not found in your school"@),
            Some(role) => if crate::auth::role_named(role@) == Some(UserRole::Admin) {
                r matches Err(e) && is_rejection(e, 400, "Admins cannot be added to classes"@)
            } else {
                r is Ok
            },
        },
{
    match target_role {
        None => Err(Rejection { status: 404, message: "User not found in your school" }),
        Some(role) => match UserRole::from_db(role) {
            Some(UserRole::Admin) => Err(
                Rejection { status: 400, message: "Admins cannot be added to classes" },
            ),
            _ => Ok(()),
        },
    }
}

} // verus!

