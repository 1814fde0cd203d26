//! A personal note ledger: an ordered store of short text notes, the grammar
//! of the console commands that drive it, and the policy by which text read
//! from an image becomes a note.

pub mod command;
pub mod error;
pub mod extract;
pub mod history;
pub mod note;
pub mod numeral;
pub mod session;
pub mod text;
