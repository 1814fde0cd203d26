//! From an image to the content of a note: what the run of the text
//! reader on the image yields, and what becomes of the store.
//!
//! The image is opened, staged and read outside this library; what was
//! seen there comes in as an [`Extraction`].

use crate::error::LedgerError;
use crate::note::{Note, NoteManager, NoteView};
use crate::text::{trim, trimmed};
use vstd::prelude::*;
use vstd::string::*;
use vstd::utf8::{decode_utf8, valid_utf8};

verus! {

/// How the run of the text reader on a decoded image ended.
#[derive(Debug, PartialEq, Eq)]
pub enum OcrRun {
    /// The image could not be staged for the reader.
    Unstaged,
    /// The reader could not be started.
    Unstarted,
    /// The reader ran.
    Finished {
        /// Whether the reader reported success.
        success: bool,
        /// What the reader wrote as its result.
        output: Vec<u8>,
    },
}

/// An [`OcrRun`] with the reader's output as a sequence of bytes.
pub ghost enum OcrRunView {
    Unstaged,
    Unstarted,
    Finished { success: bool, output: Seq<u8> },
}

impl View for OcrRun {
    type V = OcrRunView;

    open spec fn view(&self) -> OcrRunView {
        match self {
            OcrRun::Unstaged => OcrRunView::Unstaged,
            OcrRun::Unstarted => OcrRunView::Unstarted,
            OcrRun::Finished { success, output } => OcrRunView::Finished {
                success: *success,
                output: output@,
            },
        }
    }
}

/// What came of the attempt to read text from the image at a path.
#[derive(Debug, PartialEq, Eq)]
pub enum Extraction {
    /// The file is missing or is no image that can be decoded.
    Undecodable,
    /// The image was decoded and handed to the text reader.
    Decoded(OcrRun),
}

/// An [`Extraction`] over the view of its run.
pub ghost enum ExtractionView {
    Undecodable,
    Decoded(OcrRunView),
}

impl View for Extraction {
    type V = ExtractionView;

    open spec fn view(&self) -> ExtractionView {
        match self {
            Extraction::Undecodable => ExtractionView::Undecodable,
            Extraction::Decoded(run) => ExtractionView::Decoded(run@),
        }
    }
}

/// The text that a run yields: where the reader ran, reported success and
/// wrote valid UTF-8, what it wrote, without the whitespace around it.
/// Any other run yields none.
pub open spec fn recognized_text(run: OcrRunView) -> Option<Seq<char>> {
    match run {
        OcrRunView::Finished { success, output } => if success && valid_utf8(output) {
            Some(trimmed(decode_utf8(output)))
        } else {
            None
        },
        _ => None,
    }
}

/// The content of the note made of a run: the text that the run yields,
/// and no text where it yields none.
pub open spec fn image_note_content(run: OcrRunView) -> Seq<char> {
    match recognized_text(run) {
        Some(text) => text,
        None => Seq::empty(),
    }
}

/// The title of a note made from an image.
pub open spec fn image_note_title() -> Seq<char> {
    "Fotoğraf Notu"@
}

/// The notes after an extraction: none is added for an image that could
/// not be decoded; for a decoded image one note is added, whether or not
/// text was read from it.
pub open spec fn after_extraction(notes: Seq<NoteView>, extraction: ExtractionView) -> Seq<
    NoteView,
> {
    match extraction {
        ExtractionView::Undecodable => notes,
        ExtractionView::Decoded(run) => notes.push(
            NoteView { title: image_note_title(), content: image_note_content(run) },
        ),
    }
}

/// What an extraction reports: nothing where text was read, and otherwise
/// whether the image or the reading of it failed.
pub open spec fn extraction_report(extraction: ExtractionView) -> Result<(), LedgerError> {
    match extraction {
        ExtractionView::Undecodable => Err(LedgerError::ImageDecodeError),
        ExtractionView::Decoded(run) => if recognized_text(run) is Some {
            Ok(())
        } else {
            Err(LedgerError::OcrFailure)
        },
    }
}

/// Calls `String::from_utf8` of the standard library. Taken on trust, not
/// proved: the call gives a text exactly where `bytes` are valid UTF-8, and
/// the text is the one that they encode.
#[verifier::external_body]
fn text_of_utf8(bytes: Vec<u8>) -> (r: Option<String>)
    ensures
        r is Some <==> valid_utf8(bytes@),
        r matches Some(text) ==> text@ == decode_utf8(bytes@),
{
    match String::from_utf8(bytes) {
        Ok(text) => Some(text),
        Err(_) => None,
    }
}

/// The text read from an image, given how the run of the text reader on
/// it ended.
pub fn extract_text_from_image(run: OcrRun) -> (r: Result<String, LedgerError>)
    ensures
        match r {
            Ok(text) => recognized_text(run@) == Some(text@),
            Err(e) => e == LedgerError::OcrFailure && recognized_text(run@) is None,
        },
{
    match run {
        OcrRun::Finished { success, output } => {
            if success {
                match text_of_utf8(output) {
                    Some(text) => Ok(trim(text.as_str())),
                    None => Err(LedgerError::OcrFailure),
                }
            } else {
                Err(LedgerError::OcrFailure)
            }
        },
        _ => Err(LedgerError::OcrFailure),
    }
}

impl NoteManager {
    /// Makes a note of what an extraction gave. An image that could not be
    /// decoded leaves the store as it is. A decoded image adds one note:
    /// its content is the text read, and is empty where none could be
    /// read, which is reported as well.
    pub fn add_image_note(&mut self, extraction: Extraction) -> (r: Result<(), LedgerError>)
        ensures
            final(self)@ == after_extraction(old(self)@, extraction@),
            r == extraction_report(extraction@),
    {
        match extraction {
            Extraction::Undecodable => Err(LedgerError::ImageDecodeError),
            Extraction::Decoded(run) => {
                let title = String::from_str("Fotoğraf Notu");
                match extract_text_from_image(run) {
                    Ok(text) => {
                        self.add_note(Note::new(title, text));
                        Ok(())
                    },
                    Err(e) => {
                        self.add_note(Note::new(title, String::new()));
                        Err(e)
                    },
                }
            },
        }
    }
}

} // verus!
