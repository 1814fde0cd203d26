//! The failures that the ledger reports.

use vstd::prelude::*;

verus! {

/// Why a request to the ledger was not carried out as asked.
#[derive(Clone, Copy, Debug, PartialEq, Eq, Structural)]
pub enum LedgerError {
    /// The menu input names none of the offered choices.
    InvalidMenuChoice,
    /// The input names no note of the store.
    InvalidIndex,
    /// The image could not be decoded; no note is created.
    ImageDecodeError,
    /// No text could be read from the image; the note is created empty.
    OcrFailure,
}

} // verus!
