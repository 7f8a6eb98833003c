//! Decks, their collaborators and their classes.

use vstd::prelude::*;

use crate::text::{chars_of, push_all, string_from_chars};

verus! {

/// A request to create a deck.
pub struct CreateDeck {
    pub title: String,
    pub description: Option<String>,
}

/// A request to rename a deck.
pub struct RenameDeck {
    pub title: String,
}

/// A request to share a deck with a teacher.
pub struct ShareDeck {
    pub user_id: i64,
}

/// A request to hand a deck over to another teacher.
pub struct TransferOwner {
    pub user_id: i64,
}

/// A request to assign a deck to a class.
pub struct AddDeckToClass {
    pub class_id: i64,
}

/// A deck, with per-state card counts where the listing gives them.
pub struct DeckResponse {
    pub id: i64,
    pub school_id: i64,
    pub title: String,
    pub description: Option<String>,
    pub created_by: i64,
    pub owner_email: String,
    pub owner_first_name: String,
    pub owner_last_name: String,
    pub created_at: String,
    pub new_count: Option<i64>,
    pub learning_count: Option<i64>,
    pub due_count: Option<i64>,
    pub relearning_count: Option<i64>,
    pub total_count: Option<i64>,
}

/// A collaborator of a deck.
pub struct CollaboratorResponse {
    pub user_id: i64,
    pub email: String,
    pub first_name: String,
    pub last_name: String,
    pub shared_at: i64,
}

/// A deck with its collaborators and classes.
pub struct DeckDetailResponse {
    pub deck: DeckResponse,
    pub collaborators: Vec<CollaboratorResponse>,
    pub classes: Vec<ClassInfo>,
}

/// A class a deck is assigned to.
pub struct ClassInfo {
    pub id: i64,
    pub name: String,
}

/// A plain answer.
pub struct MessageResponse {
    pub message: &'static str,
}

impl MessageResponse {
    /// The answer to deleting a deck.
    pub fn deck_deleted() -> (r: MessageResponse)
        ensures
            r.message@ == "Deck deleted"@,
    {
        MessageResponse { message: "Deck deleted" }
    }

    /// The answer to removing a collaborator.
    pub fn collaborator_removed() -> (r: MessageResponse)
        ensures
            r.message@ == "Collaborator removed"@,
    {
        MessageResponse { message: "Collaborator removed" }
    }

    /// The answer to assigning a deck to a class.
    pub fn added_to_class() -> (r: MessageResponse)
        ensures
            r.message@ == "Deck added to class"@,
    {
        MessageResponse { message: "Deck added to class" }
    }

    /// The answer to removing a deck from a class.
    pub fn removed_from_class() -> (r: MessageResponse)
        ensures
            r.message@ == "Deck removed from class"@,
    {
        MessageResponse { message: "Deck removed from class" }
    }
}

/// The title of a copy of a deck.
pub fn copy_title(title: &str) -> (r: String)
    ensures
        r@ == title@ + " (copy)"@,
{
    let mut out = chars_of(title);
    push_all(&mut out, &chars_of(" (copy)"));
    string_from_chars(&out)
}

} // verus!
