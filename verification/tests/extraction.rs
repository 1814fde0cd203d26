use note_ledger_backend::error::LedgerError;
use note_ledger_backend::extract::{extract_text_from_image, Extraction, OcrRun};
use note_ledger_backend::note::{Note, NoteManager};

fn finished(success: bool, output: &[u8]) -> OcrRun {
    OcrRun::Finished { success, output: output.to_vec() }
}

#[test]
fn text_of_a_successful_run() {
    assert_eq!(extract_text_from_image(finished(true, b"Hello")), Ok("Hello".to_string()));
}

#[test]
fn text_is_trimmed() {
    assert_eq!(
        extract_text_from_image(finished(true, b"  Hello, world \n\x0c")),
        Ok("Hello, world".to_string())
    );
    assert_eq!(
        extract_text_from_image(finished(true, b"line one\nline two\n\n")),
        Ok("line one\nline two".to_string())
    );
}

#[test]
fn text_is_decoded_as_utf8() {
    let written = "\n Çıkış yapılıyor… \n";
    assert_eq!(
        extract_text_from_image(finished(true, written.as_bytes())),
        Ok("Çıkış yapılıyor…".to_string())
    );
}

#[test]
fn successful_run_without_output_gives_empty_text() {
    assert_eq!(extract_text_from_image(finished(true, b"")), Ok(String::new()));
    assert_eq!(extract_text_from_image(finished(true, b" \n\t")), Ok(String::new()));
}

#[test]
fn failed_run_gives_no_text() {
    assert_eq!(extract_text_from_image(finished(false, b"Hello")), Err(LedgerError::OcrFailure));
    assert_eq!(extract_text_from_image(finished(false, b"")), Err(LedgerError::OcrFailure));
}

#[test]
fn output_that_is_not_utf8_gives_no_text() {
    for bytes in [&[0xffu8][..], &[b'H', 0xc3][..], &[0xed, 0xa0, 0x80][..], &[0xc0, 0x80][..], &[0xf4, 0x90, 0x80, 0x80][..]] {
        assert_eq!(extract_text_from_image(finished(true, bytes)), Err(LedgerError::OcrFailure));
    }
}

#[test]
fn run_that_never_started_gives_no_text() {
    assert_eq!(extract_text_from_image(OcrRun::Unstaged), Err(LedgerError::OcrFailure));
    assert_eq!(extract_text_from_image(OcrRun::Unstarted), Err(LedgerError::OcrFailure));
}

#[test]
fn text_read_becomes_one_note() {
    let mut store = NoteManager::new();
    let r = store.add_image_note(Extraction::Decoded(finished(true, b"Hello")));
    assert_eq!(r, Ok(()));
    assert_eq!(store.len(), 1);
    assert_eq!(store.get(0), Some(&Note::new("Fotoğraf Notu".to_string(), "Hello".to_string())));
}

#[test]
fn failed_reading_still_adds_one_note_without_content() {
    let runs = [finished(false, b"Hello"), finished(true, &[0xff]), OcrRun::Unstaged, OcrRun::Unstarted];
    let mut store = NoteManager::new();
    let mut expected = 0;
    for run in runs {
        let r = store.add_image_note(Extraction::Decoded(run));
        expected += 1;
        assert_eq!(r, Err(LedgerError::OcrFailure));
        assert_eq!(store.len(), expected);
        let added = store.get(expected - 1).expect("the note added");
        assert_eq!(added.title(), "Fotoğraf Notu");
        assert_eq!(added.content(), "");
    }
}

#[test]
fn undecodable_image_adds_no_note() {
    let mut store = NoteManager::new();
    assert_eq!(store.add_image_note(Extraction::Undecodable), Err(LedgerError::ImageDecodeError));
    assert_eq!(store.len(), 0);
    store.add_note(Note::new("kept".to_string(), "as it was".to_string()));
    assert_eq!(store.add_image_note(Extraction::Undecodable), Err(LedgerError::ImageDecodeError));
    assert_eq!(store.list_lines(), vec!["1. kept".to_string()]);
}

#[test]
fn image_note_goes_behind_the_notes_held() {
    let mut store = NoteManager::new();
    store.add_note(Note::new("first".to_string(), String::new()));
    assert_eq!(store.add_image_note(Extraction::Decoded(finished(true, b" scanned "))), Ok(()));
    assert_eq!(store.list_lines(), vec!["1. first".to_string(), "2. Fotoğraf Notu".to_string()]);
    assert_eq!(store.get(1).map(|n| n.content().to_string()), Some("scanned".to_string()));
}
