//! Expansion of the `ragout_custom_events!` macro: from a list of custom
//! keyboard events to the Rust items of a line editor's input loop.
//!
//! - `event`: the plain-value description of one custom event.
//! - `templates`: the fixed source text around the per-event parts.
//! - `codegen`: the expansion text, piece by piece, with exact contracts.
//! - `tokens`: the expansion as a `proc_macro2` token stream.
//! - `laws`: properties every expansion has.

pub mod codegen;
pub mod event;
pub mod laws;
pub mod templates;
pub mod tokens;

pub use codegen::expansion_source;
pub use event::{ActionVariant, CustomEvent, KeyCodeExpr};
pub use tokens::{ragout_custom_events, ExpansionError};
