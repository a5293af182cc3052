//! A library for classifying raw filesystem change notifications into
//! domain events (created, deleted, renamed, moved), with a debounced
//! deletion-confirmation protocol that resolves the ambiguity between a
//! genuine delete and the first half of a rename or cut/paste.

pub mod classifier;
pub mod event;
pub mod file_record;
pub mod format_size;
pub mod ignore;
pub mod laws;
pub mod nav;
pub mod pathing;
pub mod registry;
pub mod strutil;
