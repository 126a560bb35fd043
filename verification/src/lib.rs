//! A small library for a network-diagram service: untrusted address labels
//! are sanitized, substituted into a fixed vector-markup document, and the
//! most recently produced document can be kept per user email in a history
//! store with upsert semantics.

pub mod render;
pub mod sanitize;
pub mod service;
pub mod store;
