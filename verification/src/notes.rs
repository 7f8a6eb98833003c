//! Notes and the cards generated from them.

use vstd::prelude::*;

verus! {

/// The optional deck filter of a note listing.
pub struct ListNotesQuery {
    pub deck_id: Option<i64>,
}

/// One rendered card of a note.
pub struct CardSummary {
    pub id: i64,
    pub template_index: i64,
    pub template_name: String,
    pub deck_id: i64,
    pub front: String,
    pub back: String,
}

/// A plain answer.
pub struct MessageResponse {
    pub message: &'static str,
}

impl MessageResponse {
    /// The answer to deleting a note.
    pub fn note_deleted() -> (r: MessageResponse)
        ensures
            r.message@ == "Note deleted"@,
    {
        MessageResponse { message: "Note deleted" }
    }
}

} // verus!

verus! {

/// The summary of card `id` of a note, rendered from the note type's
/// templates; `None` when the note type has no template with the card's
/// index (such cards are left out of a note's card list).
pub fn card_summary(
    id: i64,
    deck_id: i64,
    template_index: i64,
    templates: &[crate::note_types::Template],
    fields: &crate::note_types::NoteFields,
) -> (r: Option<CardSummary>)
    ensures
        match crate::note_types::find_template(templates@, template_index, 0) {
            Some(k) => r matches Some(s) && s.id == id && s.deck_id == deck_id && s.template_index
                == template_index && s.template_name@ == templates@[k].name@ && s.front@
                == crate::note_types::render_spec(templates@[k].front_pattern@, fields@) && s.back@
                == crate::note_types::render_spec(templates@[k].back_pattern@, fields@),
            None => r is None,
        },
{
    let mut i: usize = 0;
    while i < templates.len()
        invariant
            i <= templates.len(),
            crate::note_types::find_template(templates@, template_index, 0)
                == crate::note_types::find_template(templates@, template_index, i as int),
        decreases templates.len() - i,
    {
        let t = &templates[i];
        if t.index == template_index {
            return Some(
                CardSummary {
                    id: id,
                    template_index: template_index,
                    template_name: t.name.clone(),
                    deck_id: deck_id,
                    front: crate::note_types::render_template(t.front_pattern.as_str(), fields),
                    back: crate::note_types::render_template(t.back_pattern.as_str(), fields),
                },
            );
        }
        i = i + 1;
    }
    None
}

} // verus!
