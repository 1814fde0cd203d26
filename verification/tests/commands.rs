use note_ledger_backend::command::{parse_index, parse_menu_choice, MenuChoice};
use note_ledger_backend::error::LedgerError;
use note_ledger_backend::note::{Note, NoteManager};

#[test]
fn menu_offers_five_choices() {
    assert_eq!(parse_menu_choice("1"), Ok(MenuChoice::AddNote));
    assert_eq!(parse_menu_choice("2"), Ok(MenuChoice::AddImageNote));
    assert_eq!(parse_menu_choice("3"), Ok(MenuChoice::ListNotes));
    assert_eq!(parse_menu_choice("4"), Ok(MenuChoice::RemoveNote));
    assert_eq!(parse_menu_choice("5"), Ok(MenuChoice::Exit));
}

#[test]
fn menu_choice_is_read_as_a_number_without_the_whitespace_around() {
    assert_eq!(parse_menu_choice("3\n"), Ok(MenuChoice::ListNotes));
    assert_eq!(parse_menu_choice("  4 \r\n"), Ok(MenuChoice::RemoveNote));
    assert_eq!(parse_menu_choice("+1"), Ok(MenuChoice::AddNote));
    assert_eq!(parse_menu_choice("005\n"), Ok(MenuChoice::Exit));
}

#[test]
fn menu_rejects_anything_else() {
    let inputs = [
        "", "\n", "0", "6", "-1", "-0", "12", "one", "1 2", "1.", "2x", "+", "３",
        "99999999999999999999999999", "4294967297", "18446744073709551617",
    ];
    for input in inputs {
        assert_eq!(parse_menu_choice(input), Err(LedgerError::InvalidMenuChoice), "{:?}", input);
    }
}

#[test]
fn index_one_names_the_first_note() {
    assert_eq!(parse_index("1"), Ok(0));
    assert_eq!(parse_index("1\n"), Ok(0));
    assert_eq!(parse_index(" 2 "), Ok(1));
    assert_eq!(parse_index("+7"), Ok(6));
    assert_eq!(parse_index("010"), Ok(9));
}

#[test]
fn index_zero_is_rejected_and_does_not_wrap_around() {
    assert_eq!(parse_index("0"), Err(LedgerError::InvalidIndex));
    assert_eq!(parse_index("0\n"), Err(LedgerError::InvalidIndex));
    assert_eq!(parse_index("+0"), Err(LedgerError::InvalidIndex));
    assert_eq!(parse_index("000"), Err(LedgerError::InvalidIndex));
}

#[test]
fn index_that_is_no_number_is_rejected() {
    for input in ["", "\n", "abc", "-1", "1.5", "1 1", "first", "٣", "+"] {
        assert_eq!(parse_index(input), Err(LedgerError::InvalidIndex), "{:?}", input);
    }
}

#[test]
fn index_at_the_limit_of_usize() {
    let max = usize::MAX.to_string();
    assert_eq!(parse_index(&max), Ok(usize::MAX - 1));
    let beyond = (usize::MAX as u128 + 1).to_string();
    assert_eq!(parse_index(&beyond), Err(LedgerError::InvalidIndex));
}

#[test]
fn number_shown_in_the_listing_names_the_note_listed() {
    let mut store = NoteManager::new();
    for i in 0..15 {
        store.add_note(Note::new(format!("note {}", i), String::new()));
    }
    for (position, title) in store.list_notes() {
        let index = parse_index(&position.to_string()).expect("a listed number");
        assert_eq!(store.get(index).map(|n| n.title().to_string()), Some(title));
    }
    for line in store.list_lines() {
        let shown = line.split('.').next().expect("a number before the stop");
        let index = parse_index(shown).expect("a listed number");
        assert_eq!(format!("{}. {}", index + 1, store.get(index).expect("a note").title()), line);
    }
}
