//! The grammar of what the user enters: a choice from the menu, and the
//! number of the note to remove.

use crate::error::LedgerError;
use crate::numeral::{
    decimal_digits, is_numeral, lemma_decimal_round_trip, numeral_value, parse_number,
};
use crate::text::{trim, trimmed};
use vstd::prelude::*;

verus! {

/// What the menu offers.
#[derive(Clone, Copy, Debug, PartialEq, Eq, Structural)]
pub enum MenuChoice {
    /// Enter a note by its title and content.
    AddNote,
    /// Make a note of the text on an image.
    AddImageNote,
    /// Show the notes.
    ListNotes,
    /// Remove a note by its number.
    RemoveNote,
    /// Leave.
    Exit,
}

/// The choice that the menu has under `number`.
pub open spec fn choice_numbered(number: nat) -> Option<MenuChoice> {
    if number == 1 {
        Some(MenuChoice::AddNote)
    } else if number == 2 {
        Some(MenuChoice::AddImageNote)
    } else if number == 3 {
        Some(MenuChoice::ListNotes)
    } else if number == 4 {
        Some(MenuChoice::RemoveNote)
    } else if number == 5 {
        Some(MenuChoice::Exit)
    } else {
        None
    }
}

/// The choice that an input line makes: the line, without the whitespace
/// around it, is a numeral, and the menu has a choice under its number.
pub open spec fn menu_choice(line: Seq<char>) -> Option<MenuChoice> {
    let entered = trimmed(line);
    if is_numeral(entered) {
        choice_numbered(numeral_value(entered))
    } else {
        None
    }
}

/// The index, counted from zero, of the note that an input line names: the
/// line, without the whitespace around it, is a numeral, its number is one
/// or more, and the index is that number less one.
pub open spec fn entered_index(line: Seq<char>) -> Option<nat> {
    let entered = trimmed(line);
    if is_numeral(entered) && numeral_value(entered) >= 1 {
        Some((numeral_value(entered) - 1) as nat)
    } else {
        None
    }
}

/// The number under which the listing shows a note, entered as it is
/// shown, names that note: the note at `index`, counted from zero, is
/// listed under `index + 1`.
pub proof fn lemma_listed_number_names_note(index: nat)
    ensures
        entered_index(decimal_digits(index + 1)) == Some(index),
{
    lemma_decimal_round_trip(index + 1);
}

/// Reads a choice from the menu.
pub fn parse_menu_choice(line: &str) -> (r: Result<MenuChoice, LedgerError>)
    ensures
        r == match menu_choice(line@) {
            Some(choice) => Ok::<MenuChoice, LedgerError>(choice),
            None => Err::<MenuChoice, LedgerError>(LedgerError::InvalidMenuChoice),
        },
{
    let entered = trim(line);
    match parse_number(entered.as_str()) {
        Some(1) => Ok(MenuChoice::AddNote),
        Some(2) => Ok(MenuChoice::AddImageNote),
        Some(3) => Ok(MenuChoice::ListNotes),
        Some(4) => Ok(MenuChoice::RemoveNote),
        Some(5) => Ok(MenuChoice::Exit),
        _ => Err(LedgerError::InvalidMenuChoice),
    }
}

/// Reads the number of a note, as the listing shows it, and gives the
/// note's index, counted from zero. Zero names no note, nor does a number
/// beyond `usize`.
pub fn parse_index(line: &str) -> (r: Result<usize, LedgerError>)
    ensures
        r == match entered_index(line@) {
            Some(index) if index < usize::MAX => Ok::<usize, LedgerError>(index as usize),
            _ => Err::<usize, LedgerError>(LedgerError::InvalidIndex),
        },
{
    let entered = trim(line);
    match parse_number(entered.as_str()) {
        Some(number) => {
            if number >= 1 {
                Ok(number - 1)
            } else {
                Err(LedgerError::InvalidIndex)
            }
        },
        None => Err(LedgerError::InvalidIndex),
    }
}

} // verus!
