use anki_classroom::access::Rejection;
use anki_classroom::card_mod::NoteModResponse;
use anki_classroom::classes::{class_response, MessageResponse as ClassMessage};
use anki_classroom::decks::{copy_title, MessageResponse as DeckMessage};
use anki_classroom::note_types::{NoteFields, Template};
use anki_classroom::note_types_handler::MessageResponse as NoteTypeMessage;
use anki_classroom::notes::{card_summary, MessageResponse as NoteMessage};
use anki_classroom::requests::{
    already_listed, build_in_clause, check_new_name, check_new_note_type, check_nonempty_update,
    check_preset_name, reschedule_due, search_pattern, toggled_archive,
};

fn rejected<T: std::fmt::Debug>(r: Result<T, Rejection>) -> (u16, &'static str) {
    let e = r.unwrap_err();
    (e.status, e.message)
}

fn templates() -> Vec<Template> {
    vec![
        Template {
            index: 0,
            name: "Forward".to_string(),
            front_pattern: "{{Front}}".to_string(),
            back_pattern: "{{Back}}".to_string(),
        },
        Template {
            index: 1,
            name: "Reverse".to_string(),
            front_pattern: "{{Back}}".to_string(),
            back_pattern: "{{Front}}".to_string(),
        },
    ]
}

#[test]
fn new_note_type_checks() {
    assert_eq!(rejected(check_new_note_type("", 1, 1)), (400, "Name is required"));
    assert_eq!(rejected(check_new_note_type("Basic", 0, 1)), (400, "At least one field is required"));
    assert_eq!(
        rejected(check_new_note_type("Basic", 2, 0)),
        (400, "At least one template is required")
    );
    assert!(check_new_note_type("Basic", 2, 1).is_ok());
}

#[test]
fn update_checks() {
    assert_eq!(rejected(check_new_name("")), (400, "Name cannot be empty"));
    assert!(check_new_name("x").is_ok());
    assert_eq!(rejected(check_preset_name("")), (400, "Name is required"));
    assert!(check_preset_name("Fast").is_ok());
    assert_eq!(rejected(check_nonempty_update(0, true)), (400, "At least one field is required"));
    assert_eq!(rejected(check_nonempty_update(0, false)), (400, "At least one template is required"));
    assert!(check_nonempty_update(3, true).is_ok());
}

#[test]
fn reschedule_targets() {
    assert_eq!(reschedule_due(Some(5_000), Some(2), 1_000).unwrap(), 5_000);
    assert_eq!(reschedule_due(None, Some(2), 1_000).unwrap(), 1_000 + 2 * 86_400);
    assert_eq!(reschedule_due(None, Some(-1), 100_000).unwrap(), 100_000 - 86_400);
    assert_eq!(rejected(reschedule_due(None, None, 1_000)), (400, "Provide either due_at or days"));
}

#[test]
fn user_search_patterns() {
    assert_eq!(search_pattern("  ann "), Some("%ann%".to_string()));
    assert_eq!(search_pattern("   "), None);
    assert_eq!(search_pattern(""), None);
}

#[test]
fn placeholder_lists() {
    assert_eq!(build_in_clause(0), "");
    assert_eq!(build_in_clause(1), "?");
    assert_eq!(build_in_clause(3), "?,?,?");
}

#[test]
fn attention_list_membership() {
    assert!(already_listed(&[4, 9, 2], 9));
    assert!(!already_listed(&[4, 9, 2], 3));
    assert!(!already_listed(&[], 3));
}

#[test]
fn archive_toggle() {
    assert_eq!(toggled_archive(0), 1);
    assert_eq!(toggled_archive(1), 0);
    assert_eq!(toggled_archive(7), 0);
}

#[test]
fn card_summaries_render_templates() {
    let mut f = NoteFields::new();
    f.insert("Front".to_string(), Some("chat".to_string()));
    f.insert("Back".to_string(), Some("cat".to_string()));
    let s = card_summary(11, 2, 1, &templates(), &f).unwrap();
    assert_eq!((s.id, s.deck_id, s.template_index), (11, 2, 1));
    assert_eq!(s.template_name, "Reverse");
    assert_eq!(s.front, "cat");
    assert_eq!(s.back, "chat");
    assert!(card_summary(12, 2, 5, &templates(), &f).is_none());
}

#[test]
fn plain_answers() {
    assert_eq!(NoteMessage::note_deleted().message, "Note deleted");
    assert_eq!(DeckMessage::deck_deleted().message, "Deck deleted");
    assert_eq!(DeckMessage::collaborator_removed().message, "Collaborator removed");
    assert_eq!(DeckMessage::added_to_class().message, "Deck added to class");
    assert_eq!(DeckMessage::removed_from_class().message, "Deck removed from class");
    assert_eq!(ClassMessage::class_deleted().message, "Class deleted");
    assert_eq!(ClassMessage::member_removed().message, "Member removed");
    assert_eq!(NoteTypeMessage::note_type_deleted().message, "Note type deleted");
}

#[test]
fn deck_copies_are_titled() {
    assert_eq!(copy_title("Spanish"), "Spanish (copy)");
    assert_eq!(copy_title(""), " (copy)");
}

#[test]
fn class_rows_become_responses() {
    let c = class_response(1, 2, "Bio".to_string(), None, 1, 5, "2024-01-01".to_string());
    assert!(c.archived);
    assert_eq!((c.id, c.school_id, c.created_by), (1, 2, 5));
    let c = class_response(1, 2, "Bio".to_string(), Some("d".to_string()), 0, 5, "x".to_string());
    assert!(!c.archived);
    assert_eq!(c.description, Some("d".to_string()));
}

#[test]
fn note_modifications() {
    let s = NoteModResponse::suspended(3, 2);
    assert_eq!((s.note_id, s.cards_affected, s.suspended, s.buried_until), (3, 2, 1, None));
    let b = NoteModResponse::buried(3, 2, 99);
    assert_eq!((b.note_id, b.cards_affected, b.suspended, b.buried_until), (3, 2, 0, Some(99)));
}
