//! Verified core of a classroom spaced-repetition backend: card template
//! rendering, review scheduling, step lists, access rules and the small
//! query builders used by the HTTP layer.

pub mod access;
pub mod auth;
pub mod browse;
pub mod calendar;
pub mod card_mod;
pub mod classes;
pub mod deck_options;
pub mod decks;
pub mod note_types;
pub mod note_types_handler;
pub mod notes;
pub mod requests;
pub mod scheduling;
pub mod text;
pub mod users;
