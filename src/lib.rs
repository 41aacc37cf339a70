//! Relays note and abuse-report webhook events into embed / plain-text
//! messages for a chat webhook, suppressing repeated deliveries of one note.
pub mod classify;
pub mod dedup;
pub mod delivery;
pub mod model;
pub mod note;
pub mod report;
pub mod text;
