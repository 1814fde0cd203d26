//! The dialogue of one session: from where the dialogue stands and what
//! came in, to where it stands next, what is reported and what is asked.
//!
//! The driver of a session reads the console and the image; it asks
//! [`Session::request`] what to do, does it, and hands what came of it to
//! [`Session::step`].

use crate::command::{entered_index, menu_choice, parse_index, parse_menu_choice, MenuChoice};
use crate::error::LedgerError;
use crate::extract::{after_extraction, extraction_report, Extraction, ExtractionView};
use crate::note::{after_removal, listing, removed, Note, NoteManager, NoteView};
use crate::text::{trim, trimmed};
use vstd::prelude::*;
use vstd::string::*;

verus! {

/// Where the dialogue stands: what the session waits for.
#[derive(Clone, Copy, Debug, PartialEq, Eq, Structural)]
pub enum Stage {
    /// A choice from the menu.
    Menu,
    /// The title of a note to add.
    NoteTitle,
    /// The content of the note whose title was entered.
    NoteContent,
    /// The path of an image.
    ImagePath,
    /// What came of reading the image at the path entered.
    Extracting,
    /// The number of the note to remove.
    RemoveIndex,
    /// Nothing: the session is over.
    Closed,
}

/// What comes in from outside.
#[derive(Debug, PartialEq, Eq)]
pub enum Event {
    /// A line was entered.
    Line(String),
    /// The input has ended.
    EndOfInput,
    /// The image was dealt with.
    Extracted(Extraction),
}

/// An [`Event`] over the views of what it carries.
pub ghost enum EventView {
    Line(Seq<char>),
    EndOfInput,
    Extracted(ExtractionView),
}

impl View for Event {
    type V = EventView;

    open spec fn view(&self) -> EventView {
        match self {
            Event::Line(line) => EventView::Line(line@),
            Event::EndOfInput => EventView::EndOfInput,
            Event::Extracted(extraction) => EventView::Extracted(extraction@),
        }
    }
}

/// What the session asks of its driver next.
#[derive(Debug, PartialEq, Eq)]
pub enum Request {
    /// Show the menu and read a line.
    ChooseFromMenu,
    /// Ask for a title and read a line.
    EnterTitle,
    /// Ask for a content and read a line.
    EnterContent,
    /// Ask for the path of an image and read a line.
    EnterImagePath,
    /// Ask for the number of a note and read a line.
    EnterIndex,
    /// Read the text from the image at this path.
    Extract(String),
    /// Stop.
    Stop,
}

/// A [`Request`] over the view of the path it carries.
pub ghost enum RequestView {
    ChooseFromMenu,
    EnterTitle,
    EnterContent,
    EnterImagePath,
    EnterIndex,
    Extract(Seq<char>),
    Stop,
}

impl View for Request {
    type V = RequestView;

    open spec fn view(&self) -> RequestView {
        match self {
            Request::ChooseFromMenu => RequestView::ChooseFromMenu,
            Request::EnterTitle => RequestView::EnterTitle,
            Request::EnterContent => RequestView::EnterContent,
            Request::EnterImagePath => RequestView::EnterImagePath,
            Request::EnterIndex => RequestView::EnterIndex,
            Request::Extract(path) => RequestView::Extract(path@),
            Request::Stop => RequestView::Stop,
        }
    }
}

/// What a step did, for the driver to tell the user.
#[derive(Debug, PartialEq, Eq)]
pub enum Report {
    /// The dialogue moved on and the store is as it was.
    Nothing,
    /// The note entered was added.
    NoteAdded,
    /// A note with the text read from the image was added.
    ImageNoteAdded,
    /// The lines that list the notes.
    Listing(Vec<String>),
    /// The note with this title was removed.
    Removed(String),
    /// The step failed in this way. After `LedgerError::OcrFailure` a note
    /// without content was added; after any other failure the store is as
    /// it was.
    Failed(LedgerError),
    /// The session is over.
    Leaving,
    /// The event is none that the session waited for; nothing changed.
    Unexpected,
}

/// A [`Report`] over the views of the texts it carries.
pub ghost enum ReportView {
    Nothing,
    NoteAdded,
    ImageNoteAdded,
    Listing(Seq<Seq<char>>),
    Removed(Seq<char>),
    Failed(LedgerError),
    Leaving,
    Unexpected,
}

/// The texts that `lines` hold.
pub open spec fn texts_of(lines: Seq<String>) -> Seq<Seq<char>> {
    Seq::new(lines.len(), |i: int| lines[i]@)
}

impl View for Report {
    type V = ReportView;

    open spec fn view(&self) -> ReportView {
        match self {
            Report::Nothing => ReportView::Nothing,
            Report::NoteAdded => ReportView::NoteAdded,
            Report::ImageNoteAdded => ReportView::ImageNoteAdded,
            Report::Listing(lines) => ReportView::Listing(texts_of(lines@)),
            Report::Removed(title) => ReportView::Removed(title@),
            Report::Failed(e) => ReportView::Failed(*e),
            Report::Leaving => ReportView::Leaving,
            Report::Unexpected => ReportView::Unexpected,
        }
    }
}

/// What a step hands back.
#[derive(Debug, PartialEq, Eq)]
pub struct Reply {
    /// What the step did.
    pub report: Report,
    /// What the session asks for next.
    pub request: Request,
}

/// What a session is: its notes, where its dialogue stands, and the text
/// held over from the last line: the title while the content is awaited,
/// the path while the image is read, and no text otherwise.
pub ghost struct SessionView {
    pub notes: Seq<NoteView>,
    pub stage: Stage,
    pub held: Seq<char>,
}

/// The session at its start: no notes, and the menu up.
pub open spec fn opening() -> SessionView {
    SessionView { notes: Seq::empty(), stage: Stage::Menu, held: Seq::empty() }
}

/// The session at the menu, with these notes.
pub open spec fn at_menu(notes: Seq<NoteView>) -> SessionView {
    SessionView { notes, stage: Stage::Menu, held: Seq::empty() }
}

/// Whether the session, where it stands, takes this event.
pub open spec fn awaited(s: SessionView, e: EventView) -> bool {
    match s.stage {
        Stage::Extracting => e is Extracted,
        Stage::Closed => false,
        _ => !(e is Extracted),
    }
}

/// The session after an event.
pub open spec fn next(s: SessionView, e: EventView) -> SessionView {
    if !awaited(s, e) {
        s
    } else {
        match e {
            EventView::EndOfInput => SessionView {
                notes: s.notes,
                stage: Stage::Closed,
                held: Seq::empty(),
            },
            EventView::Extracted(extraction) => at_menu(after_extraction(s.notes, extraction)),
            EventView::Line(line) => match s.stage {
                Stage::Menu => match menu_choice(line) {
                    Some(MenuChoice::AddNote) => SessionView { stage: Stage::NoteTitle, ..s },
                    Some(MenuChoice::AddImageNote) => SessionView { stage: Stage::ImagePath, ..s },
                    Some(MenuChoice::RemoveNote) => SessionView { stage: Stage::RemoveIndex, ..s },
                    Some(MenuChoice::Exit) => SessionView { stage: Stage::Closed, ..s },
                    Some(MenuChoice::ListNotes) | None => s,
                },
                Stage::NoteTitle => SessionView {
                    notes: s.notes,
                    stage: Stage::NoteContent,
                    held: trimmed(line),
                },
                Stage::NoteContent => at_menu(
                    s.notes.push(NoteView { title: s.held, content: trimmed(line) }),
                ),
                Stage::ImagePath => SessionView {
                    notes: s.notes,
                    stage: Stage::Extracting,
                    held: trimmed(line),
                },
                Stage::RemoveIndex => match entered_index(line) {
                    Some(index) => at_menu(after_removal(s.notes, index as int)),
                    None => at_menu(s.notes),
                },
                _ => s,
            },
        }
    }
}

/// What the step on an event reports.
pub open spec fn report(s: SessionView, e: EventView) -> ReportView {
    if !awaited(s, e) {
        ReportView::Unexpected
    } else {
        match e {
            EventView::EndOfInput => ReportView::Leaving,
            EventView::Extracted(extraction) => match extraction_report(extraction) {
                Ok(_) => ReportView::ImageNoteAdded,
                Err(e) => ReportView::Failed(e),
            },
            EventView::Line(line) => match s.stage {
                Stage::Menu => match menu_choice(line) {
                    Some(MenuChoice::ListNotes) => ReportView::Listing(listing(s.notes)),
                    Some(MenuChoice::Exit) => ReportView::Leaving,
                    Some(_) => ReportView::Nothing,
                    None => ReportView::Failed(LedgerError::InvalidMenuChoice),
                },
                Stage::NoteContent => ReportView::NoteAdded,
                Stage::RemoveIndex => match entered_index(line) {
                    Some(index) => match removed(s.notes, index as int) {
                        Ok(note) => ReportView::Removed(note.title),
                        Err(e) => ReportView::Failed(e),
                    },
                    None => ReportView::Failed(LedgerError::InvalidIndex),
                },
                _ => ReportView::Nothing,
            },
        }
    }
}

/// What the session, where it stands, asks of its driver.
pub open spec fn request(s: SessionView) -> RequestView {
    match s.stage {
        Stage::Menu => RequestView::ChooseFromMenu,
        Stage::NoteTitle => RequestView::EnterTitle,
        Stage::NoteContent => RequestView::EnterContent,
        Stage::ImagePath => RequestView::EnterImagePath,
        Stage::Extracting => RequestView::Extract(s.held),
        Stage::RemoveIndex => RequestView::EnterIndex,
        Stage::Closed => RequestView::Stop,
    }
}

/// Whether the session holds a text only where one is due: the title while
/// the content is awaited, the path while the image is read.
pub open spec fn holds_only_due_text(s: SessionView) -> bool {
    s.stage == Stage::NoteContent || s.stage == Stage::Extracting || s.held.len() == 0
}

/// A session holds a text only where one is due: the opening session
/// holds none, and no step makes a session hold one that is not due.
pub proof fn lemma_held_text_is_due(s: SessionView, e: EventView)
    ensures
        holds_only_due_text(opening()),
        holds_only_due_text(s) ==> holds_only_due_text(next(s, e)),
{
}

/// A step that reports a failure leaves the notes as they were, but for
/// the note without content that is added where no text could be read
/// from an image. A step on an event that was not awaited leaves the
/// whole session as it was.
pub proof fn lemma_failed_step_keeps_notes(s: SessionView, e: EventView)
    ensures
        report(s, e) matches ReportView::Failed(failure) ==> (failure != LedgerError::OcrFailure
            ==> next(s, e).notes == s.notes),
        report(s, e) is Unexpected ==> next(s, e) == s,
        s.stage == Stage::Closed ==> next(s, e) == s,
{
}

/// One session of the ledger: its notes and its dialogue.
#[derive(Debug)]
pub struct Session {
    notes: NoteManager,
    stage: Stage,
    held: String,
}

impl View for Session {
    type V = SessionView;

    closed spec fn view(&self) -> SessionView {
        SessionView { notes: self.notes@, stage: self.stage, held: self.held@ }
    }
}

impl Session {
    /// A session at its start.
    pub fn new() -> (r: Session)
        ensures
            r@ == opening(),
    {
        Session { notes: NoteManager::new(), stage: Stage::Menu, held: String::new() }
    }

    /// Where the dialogue stands.
    pub fn stage(&self) -> (r: Stage)
        ensures
            r == self@.stage,
    {
        self.stage
    }

    /// The notes of the session.
    pub fn notes(&self) -> (r: &NoteManager)
        ensures
            r@ == self@.notes,
    {
        &self.notes
    }

    /// What the session asks of its driver.
    pub fn request(&self) -> (r: Request)
        ensures
            r@ == request(self@),
    {
        match self.stage {
            Stage::Menu => Request::ChooseFromMenu,
            Stage::NoteTitle => Request::EnterTitle,
            Stage::NoteContent => Request::EnterContent,
            Stage::ImagePath => Request::EnterImagePath,
            Stage::Extracting => Request::Extract(self.held.clone()),
            Stage::RemoveIndex => Request::EnterIndex,
            Stage::Closed => Request::Stop,
        }
    }

    /// Takes one event: moves the dialogue on, changes the store where the
    /// event completes an addition or a removal, and says what was done
    /// and what is asked next. An event that the session does not wait for
    /// changes nothing.
    pub fn step(&mut self, event: Event) -> (r: Reply)
        ensures
            final(self)@ == next(old(self)@, event@),
            r.report@ == report(old(self)@, event@),
            r.request@ == request(final(self)@),
    {
        let report = match event {
            Event::EndOfInput => match self.stage {
                Stage::Extracting | Stage::Closed => Report::Unexpected,
                _ => {
                    self.stage = Stage::Closed;
                    self.held = String::new();
                    Report::Leaving
                },
            },
            Event::Extracted(extraction) => match self.stage {
                Stage::Extracting => {
                    let outcome = self.notes.add_image_note(extraction);
                    self.stage = Stage::Menu;
                    self.held = String::new();
                    match outcome {
                        Ok(_) => Report::ImageNoteAdded,
                        Err(e) => Report::Failed(e),
                    }
                },
                _ => Report::Unexpected,
            },
            Event::Line(line) => match self.stage {
                Stage::Menu => self.on_menu_line(line.as_str()),
                Stage::NoteTitle => {
                    self.held = trim(line.as_str());
                    self.stage = Stage::NoteContent;
                    Report::Nothing
                },
                Stage::NoteContent => {
                    let title = self.held.clone();
                    self.notes.add_note(Note::new(title, trim(line.as_str())));
                    self.stage = Stage::Menu;
                    self.held = String::new();
                    Report::NoteAdded
                },
                Stage::ImagePath => {
                    self.held = trim(line.as_str());
                    self.stage = Stage::Extracting;
                    Report::Nothing
                },
                Stage::RemoveIndex => self.on_index_line(line.as_str()),
                Stage::Extracting | Stage::Closed => Report::Unexpected,
            },
        };
        Reply { report, request: self.request() }
    }

    /// The step on a line entered at the menu.
    fn on_menu_line(&mut self, line: &str) -> (r: Report)
        requires
            old(self)@.stage == Stage::Menu,
        ensures
            final(self)@ == next(old(self)@, EventView::Line(line@)),
            r@ == report(old(self)@, EventView::Line(line@)),
    {
        match parse_menu_choice(line) {
            Ok(MenuChoice::AddNote) => {
                self.stage = Stage::NoteTitle;
                Report::Nothing
            },
            Ok(MenuChoice::AddImageNote) => {
                self.stage = Stage::ImagePath;
                Report::Nothing
            },
            Ok(MenuChoice::ListNotes) => {
                let lines = self.notes.list_lines();
                assert(texts_of(lines@) =~= listing(self@.notes));
                Report::Listing(lines)
            },
            Ok(MenuChoice::RemoveNote) => {
                self.stage = Stage::RemoveIndex;
                Report::Nothing
            },
            Ok(MenuChoice::Exit) => {
                self.stage = Stage::Closed;
                Report::Leaving
            },
            Err(e) => Report::Failed(e),
        }
    }

    /// The step on a line entered as the number of the note to remove.
    fn on_index_line(&mut self, line: &str) -> (r: Report)
        requires
            old(self)@.stage == Stage::RemoveIndex,
        ensures
            final(self)@ == next(old(self)@, EventView::Line(line@)),
            r@ == report(old(self)@, EventView::Line(line@)),
    {
        proof {
            self.notes.lemma_len_fits();
        }
        self.stage = Stage::Menu;
        self.held = String::new();
        match parse_index(line) {
            Ok(index) => match self.notes.remove_note(index) {
                Ok(note) => Report::Removed(String::from_str(note.title())),
                Err(e) => Report::Failed(e),
            },
            Err(e) => Report::Failed(e),
        }
    }
}

} // verus!
