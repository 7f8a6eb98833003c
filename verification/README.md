# anki_classroom

A classroom spaced-repetition backend. Teachers build decks of notes from
note types with card templates, share them with colleagues and assign them to
classes; students study the cards, and each rating moves a card along
Anki-style learning and relearning steps, with intervals from the FSRS
scheduler.

## Layout

- `src/` — the library, verified with Verus:
  - `note_types.rs` — note fields and `{{Field}}` template rendering;
  - `scheduling.rs` — the next state, step and due time of a rated card;
  - `deck_options.rs` — step lists (`"1m 10m"`) and their stored form;
  - `access.rs` — role gates and the step-wise access checks of decks and
    classes;
  - `auth.rs` — roles, token claims and sign-in (Argon2 through trusted
    wrappers);
  - `calendar.rs` — day and week boundaries, study streaks, dates;
  - `browse.rs`, `requests.rs` — query fragments, paging and request checks;
  - `text.rs` — character-level helpers (trimming, splitting, decimals);
  - the remaining modules hold the request and answer types.
- `tests/` — tests of the library.
- `app/` — the HTTP server (axum, sqlx, JWT, FSRS) around the library.
