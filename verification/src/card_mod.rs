//! Per-student card controls: suspend, bury, reschedule.

use vstd::prelude::*;

verus! {

/// A reschedule request: an absolute due time, or a number of days from
/// now.
pub struct RescheduleBody {
    pub due_at: Option<i64>,
    pub days: Option<i64>,
}

/// A card's scheduling controls after a change.
pub struct CardModResponse {
    pub card_id: i64,
    pub suspended: i64,
    pub buried_until: Option<i64>,
    pub due_at: Option<i64>,
    pub state: String,
}

/// The outcome of a change applied to all cards of a note.
pub struct NoteModResponse {
    pub note_id: i64,
    pub cards_affected: i64,
    /// 1 if suspended, 0 otherwise.
    pub suspended: i64,
    /// When the cards reappear, if buried.
    pub buried_until: Option<i64>,
}

impl NoteModResponse {
    /// The outcome of suspending a note's cards.
    pub fn suspended(note_id: i64, cards_affected: i64) -> (r: NoteModResponse)
        ensures
            r.note_id == note_id,
            r.cards_affected == cards_affected,
            r.suspended == 1,
            r.buried_until is None,
    {
        NoteModResponse { note_id: note_id, cards_affected: cards_affected, suspended: 1, buried_until: None }
    }

    /// The outcome of burying a note's cards until `until`.
    pub fn buried(note_id: i64, cards_affected: i64, until: i64) -> (r: NoteModResponse)
        ensures
            r.note_id == note_id,
            r.cards_affected == cards_affected,
            r.suspended == 0,
            r.buried_until == Some(until),
    {
        NoteModResponse {
            note_id: note_id,
            cards_affected: cards_affected,
            suspended: 0,
            buried_until: Some(until),
        }
    }
}

} // verus!
