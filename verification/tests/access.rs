use anki_classroom::access::{
    check_add_deck_to_class, check_admin, check_class_member, check_class_owner, check_deck_collaborator,
    check_deck_copyable, check_deck_owner, check_deck_visible, check_new_member,
    check_not_deck_owner, check_preset_school, check_share_target, check_teacher_or_admin, check_transfer_target,
    require_staff, sees_collaborators, AccessStep, Rejection, StaffArea,
};
use anki_classroom::auth::{Claims, UserRole};

fn claims(sub: i64, role: UserRole) -> Claims {
    Claims { jti: "j".to_string(), sub, school_id: 9, role, iat: 0, exp: 86400 }
}

fn assert_rejected(r: Result<(), Rejection>, status: u16, message: &str) {
    match r {
        Err(e) => {
            assert_eq!(e.status, status);
            assert_eq!(e.message, message);
        }
        Ok(()) => panic!("expected a rejection"),
    }
}

fn assert_denied(s: AccessStep, status: u16, message: &str) {
    match s {
        AccessStep::Denied(e) => {
            assert_eq!(e.status, status);
            assert_eq!(e.message, message);
        }
        other => panic!("expected a denial, got {:?}", other),
    }
}

#[test]
fn admin_gate() {
    assert_eq!(check_admin(&claims(1, UserRole::Admin)).unwrap(), 9);
    let e = check_admin(&claims(1, UserRole::Teacher)).unwrap_err();
    assert_eq!((e.status, e.message), (403, "Admin role required"));
}

#[test]
fn staff_gate() {
    assert!(require_staff(&claims(1, UserRole::Teacher), StaffArea::Classes).is_ok());
    assert!(require_staff(&claims(1, UserRole::Admin), StaffArea::Dashboard).is_ok());
    assert_rejected(
        require_staff(&claims(1, UserRole::Student), StaffArea::Classes),
        403,
        "Only teachers and admins can manage classes",
    );
    assert_rejected(
        require_staff(&claims(1, UserRole::Student), StaffArea::UserSearch),
        403,
        "Students cannot search for users",
    );
    assert_rejected(
        check_teacher_or_admin(&claims(1, UserRole::Student)),
        403,
        "Only teachers and admins can manage decks",
    );
    assert!(check_teacher_or_admin(&claims(1, UserRole::Teacher)).is_ok());
}

#[test]
fn deck_owner_check() {
    assert!(check_deck_owner(Some(5), &claims(5, UserRole::Teacher)).is_ok());
    assert!(check_deck_owner(Some(5), &claims(6, UserRole::Admin)).is_ok());
    assert_rejected(
        check_deck_owner(Some(5), &claims(6, UserRole::Teacher)),
        403,
        "You can only manage decks you created",
    );
    assert_rejected(check_deck_owner(None, &claims(5, UserRole::Admin)), 404, "Deck not found");
}

#[test]
fn deck_collaborator_steps() {
    let t = claims(6, UserRole::Teacher);
    assert!(matches!(check_deck_collaborator(Some(6), None, &t), AccessStep::Granted));
    assert!(matches!(check_deck_collaborator(Some(5), None, &t), AccessStep::NeedCollaborator));
    assert!(matches!(check_deck_collaborator(Some(5), Some(true), &t), AccessStep::Granted));
    assert_denied(
        check_deck_collaborator(Some(5), Some(false), &t),
        403,
        "You can only manage decks you own or collaborate on",
    );
    assert_denied(check_deck_collaborator(None, None, &t), 404, "Deck not found");
}

#[test]
fn deck_visibility_steps() {
    let s = claims(7, UserRole::Student);
    assert!(matches!(check_deck_visible(Some(5), None, None, &s), AccessStep::NeedCollaborator));
    assert!(matches!(
        check_deck_visible(Some(5), Some(false), None, &s),
        AccessStep::NeedClassMembership
    ));
    assert!(matches!(check_deck_visible(Some(5), Some(false), Some(true), &s), AccessStep::Granted));
    assert_denied(
        check_deck_visible(Some(5), Some(false), Some(false), &s),
        403,
        "You do not have access to this deck",
    );
    assert!(matches!(
        check_deck_visible(Some(5), None, None, &claims(1, UserRole::Admin)),
        AccessStep::Granted
    ));
    assert_denied(check_deck_visible(None, None, None, &s), 404, "Deck not found");
}

#[test]
fn deck_copy_steps() {
    let t = claims(6, UserRole::Teacher);
    assert!(matches!(check_deck_copyable(Some(6), None, &t), AccessStep::Granted));
    assert!(matches!(check_deck_copyable(Some(5), None, &t), AccessStep::NeedCollaborator));
    assert!(matches!(check_deck_copyable(Some(5), Some(true), &t), AccessStep::Granted));
    assert_denied(
        check_deck_copyable(Some(5), Some(false), &t),
        403,
        "You do not have access to this deck",
    );
}

#[test]
fn collaborator_list_visibility() {
    assert_eq!(sees_collaborators(5, None, &claims(5, UserRole::Teacher)), Some(true));
    assert_eq!(sees_collaborators(5, None, &claims(1, UserRole::Admin)), Some(true));
    assert_eq!(sees_collaborators(5, None, &claims(6, UserRole::Teacher)), None);
    assert_eq!(sees_collaborators(5, Some(false), &claims(6, UserRole::Teacher)), Some(false));
}

#[test]
fn class_checks() {
    assert!(check_class_owner(Some(3), &claims(3, UserRole::Teacher)).is_ok());
    assert_rejected(
        check_class_owner(Some(3), &claims(4, UserRole::Teacher)),
        403,
        "You can only manage classes you created",
    );
    assert_rejected(check_class_owner(None, &claims(3, UserRole::Teacher)), 404, "Class not found");
    let s = claims(8, UserRole::Student);
    assert!(matches!(check_class_member(Some(3), None, &s), AccessStep::NeedMembership));
    assert!(matches!(check_class_member(Some(3), Some(true), &s), AccessStep::Granted));
    assert_denied(
        check_class_member(Some(3), Some(false), &s),
        403,
        "You are not a member of this class",
    );
    assert_denied(check_class_member(None, None, &s), 404, "Class not found");
}

#[test]
fn share_and_transfer_targets() {
    assert!(check_share_target(Some("teacher")).is_ok());
    assert_rejected(check_share_target(Some("student")), 400, "Cannot share a deck with a student");
    assert_rejected(
        check_share_target(Some("admin")),
        400,
        "Admins already have access to all decks",
    );
    assert_rejected(check_share_target(None), 404, "User not found in your school");
    assert_rejected(check_not_deck_owner(4, 4), 400, "Cannot share a deck with its owner");
    assert!(check_not_deck_owner(4, 5).is_ok());
    assert!(check_transfer_target(Some("teacher")).is_ok());
    assert_rejected(
        check_transfer_target(Some("admin")),
        400,
        "Ownership can only be transferred to a teacher",
    );
    assert_rejected(check_transfer_target(None), 404, "User not found in your school");
}

#[test]
fn class_member_targets() {
    assert!(check_new_member(Some("student")).is_ok());
    assert!(check_new_member(Some("teacher")).is_ok());
    assert_rejected(check_new_member(Some("admin")), 400, "Admins cannot be added to classes");
    assert_rejected(check_new_member(None), 404, "User not found in your school");
}

#[test]
fn owners_and_admins_pass_every_deck_and_class_check() {
    for c in [claims(5, UserRole::Teacher), claims(1, UserRole::Admin)] {
        assert!(check_deck_owner(Some(5), &c).is_ok());
        for collab in [None, Some(false)] {
            assert!(matches!(check_deck_collaborator(Some(5), collab, &c), AccessStep::Granted));
            assert!(matches!(check_deck_copyable(Some(5), collab, &c), AccessStep::Granted));
            for in_class in [None, Some(false)] {
                assert!(matches!(
                    check_deck_visible(Some(5), collab, in_class, &c),
                    AccessStep::Granted
                ));
            }
        }
        assert!(check_class_owner(Some(5), &c).is_ok());
        assert!(matches!(check_class_member(Some(5), Some(false), &c), AccessStep::Granted));
    }
}

#[test]
fn with_all_facts_known_a_deck_check_decides() {
    let t = claims(6, UserRole::Teacher);
    for collab in [false, true] {
        for in_class in [false, true] {
            let step = check_deck_visible(Some(5), Some(collab), Some(in_class), &t);
            let granted = matches!(step, AccessStep::Granted);
            assert_eq!(granted, collab || in_class);
            assert!(granted || matches!(step, AccessStep::Denied(_)));
        }
    }
}

#[test]
fn adding_a_deck_to_a_class() {
    let owner = claims(5, UserRole::Teacher);
    let other = claims(6, UserRole::Teacher);
    let admin = claims(1, UserRole::Admin);
    assert!(matches!(check_add_deck_to_class(Some(5), None, &owner), AccessStep::NeedClass));
    assert!(matches!(check_add_deck_to_class(Some(5), Some(true), &owner), AccessStep::Granted));
    assert!(matches!(check_add_deck_to_class(Some(5), None, &admin), AccessStep::NeedClass));
    assert!(matches!(check_add_deck_to_class(Some(5), Some(true), &admin), AccessStep::Granted));
    // Another teacher is refused before the class is looked up, even a
    // teacher of the class, and even when the class does not exist.
    assert_denied(check_add_deck_to_class(Some(5), None, &other), 403, "You can only manage decks you created");
    assert_denied(
        check_add_deck_to_class(Some(5), Some(true), &other),
        403,
        "You can only manage decks you created",
    );
    assert_denied(
        check_add_deck_to_class(Some(5), Some(false), &other),
        403,
        "You can only manage decks you created",
    );
    assert_denied(check_add_deck_to_class(Some(5), Some(false), &owner), 404, "Class not found");
    assert_denied(check_add_deck_to_class(None, None, &owner), 404, "Deck not found");
    assert_denied(check_add_deck_to_class(None, Some(true), &admin), 404, "Deck not found");
}

#[test]
fn presets_of_other_schools_are_not_found() {
    let c = claims(1, UserRole::Teacher);
    assert_eq!(check_preset_school(Some(9), &c).is_ok(), true);
    assert_rejected(check_preset_school(Some(8), &c), 404, "Deck options not found");
    assert_rejected(check_preset_school(None, &c), 404, "Deck options not found");
}
