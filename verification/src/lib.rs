//! Core of a save-game editor: a typed document model with a
//! current/original dual state, a path-addressed edit dispatcher,
//! a deferred numeric-edit session, and a backup-then-overwrite
//! persistence protocol over a JSON representation of the document.
//!
//! The shell around this crate (interface, file system, clock) hands in
//! plain values — a decoded document, an edit command, the wall-clock
//! milliseconds for a backup name — and takes plain values back.
pub mod codec;
pub mod decode;
pub mod editor;
pub mod laws;
pub mod models;
pub mod numbers;
pub mod numeric_field_editor;
pub mod roundtrip;
