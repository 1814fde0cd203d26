//! Notes and the ordered store that holds them.

use crate::error::LedgerError;
use crate::numeral::{decimal_digits, decimal_string};
use vstd::prelude::*;
use vstd::string::*;

verus! {

/// What a note is: a title and a content, each a text.
pub ghost struct NoteView {
    pub title: Seq<char>,
    pub content: Seq<char>,
}

/// A title and a content. A note does not change once it is made.
#[derive(Debug, PartialEq, Eq)]
pub struct Note {
    title: String,
    content: String,
}

impl View for Note {
    type V = NoteView;

    closed spec fn view(&self) -> NoteView {
        NoteView { title: self.title@, content: self.content@ }
    }
}

/// The text that shows a note in full: its title between rules, then its
/// content on a line of its own.
pub open spec fn displayed(note: NoteView) -> Seq<char> {
    seq!['-', '-', '-', ' '] + note.title + seq![' ', '-', '-', '-', '\n'] + note.content
}

impl Note {
    /// The note with this title and this content.
    pub fn new(title: String, content: String) -> (r: Note)
        ensures
            r@ == (NoteView { title: title@, content: content@ }),
    {
        Note { title, content }
    }

    /// The note's title.
    pub fn title(&self) -> (r: &str)
        ensures
            r@ == self@.title,
    {
        self.title.as_str()
    }

    /// The note's content.
    pub fn content(&self) -> (r: &str)
        ensures
            r@ == self@.content,
    {
        self.content.as_str()
    }

    /// The text that shows the note in full.
    pub fn display(&self) -> (r: String)
        ensures
            r@ == displayed(self@),
    {
        proof {
            reveal_strlit("--- ");
            reveal_strlit(" ---\n");
        }
        let mut text = String::from_str("--- ");
        text.append(self.title.as_str());
        text.append(" ---\n");
        text.append(self.content.as_str());
        text
    }
}

/// The notes left when the one at `index` is asked to be removed: the
/// others in their order, or all of them where `index` names none.
pub open spec fn after_removal(notes: Seq<NoteView>, index: int) -> Seq<NoteView> {
    if 0 <= index < notes.len() {
        notes.remove(index)
    } else {
        notes
    }
}

/// What a removal at `index` reports: the note that stood there, or that
/// `index` names none.
pub open spec fn removed(notes: Seq<NoteView>, index: int) -> Result<NoteView, LedgerError> {
    if 0 <= index < notes.len() {
        Ok(notes[index])
    } else {
        Err(LedgerError::InvalidIndex)
    }
}

/// The line that lists a note: its position, a full stop, a space, its
/// title.
pub open spec fn entry_text(position: nat, title: Seq<char>) -> Seq<char> {
    decimal_digits(position) + seq!['.', ' '] + title
}

/// The pairs that list the notes: each note's position, counted from one,
/// with its title.
pub open spec fn entries(notes: Seq<NoteView>) -> Seq<(nat, Seq<char>)> {
    Seq::new(notes.len(), |i: int| ((i + 1) as nat, notes[i].title))
}

/// The lines that list the notes, one for each, in their order.
pub open spec fn listing(notes: Seq<NoteView>) -> Seq<Seq<char>> {
    Seq::new(notes.len(), |i: int| entry_text((i + 1) as nat, notes[i].title))
}

/// The line that lists the note with this title at this position.
pub fn entry_line(position: usize, title: &str) -> (r: String)
    ensures
        r@ == entry_text(position as nat, title@),
{
    proof {
        reveal_strlit(". ");
    }
    let mut line = decimal_string(position);
    line.append(". ");
    line.append(title);
    line
}

/// The notes of one session, in the order in which they were added.
#[derive(Debug)]
pub struct NoteManager {
    notes: Vec<Note>,
}

impl View for NoteManager {
    type V = Seq<NoteView>;

    closed spec fn view(&self) -> Seq<NoteView> {
        self.notes@.map_values(|note: Note| note@)
    }
}

impl NoteManager {
    /// A store without notes.
    pub fn new() -> (r: NoteManager)
        ensures
            r@ == Seq::<NoteView>::empty(),
    {
        let r = NoteManager { notes: Vec::new() };
        r
    }

    /// The store holds no more notes than `usize` can count.
    pub proof fn lemma_len_fits(&self)
        ensures
            self@.len() <= usize::MAX,
    {
        assert(self.notes@.len() == self.notes.len());
    }

    /// How many notes the store holds.
    pub fn len(&self) -> (r: usize)
        ensures
            r == self@.len(),
    {
        self.notes.len()
    }

    /// The note at `index`, counted from zero, where there is one.
    pub fn get(&self, index: usize) -> (r: Option<&Note>)
        ensures
            match r {
                Some(note) => index < self@.len() && note@ == self@[index as int],
                None => index >= self@.len(),
            },
    {
        if index < self.notes.len() {
            Some(&self.notes[index])
        } else {
            None
        }
    }

    /// Puts `note` behind the notes that the store holds.
    pub fn add_note(&mut self, note: Note)
        ensures
            final(self)@ == old(self)@.push(note@),
    {
        self.notes.push(note);
    }

    /// Takes the note at `index`, counted from zero, out of the store and
    /// hands it back; the notes behind it move up by one. Where `index`
    /// names no note, the store stays as it is.
    pub fn remove_note(&mut self, index: usize) -> (r: Result<Note, LedgerError>)
        ensures
            final(self)@ == after_removal(old(self)@, index as int),
            match r {
                Ok(note) => removed(old(self)@, index as int) == Ok::<NoteView, LedgerError>(note@),
                Err(e) => removed(old(self)@, index as int) == Err::<NoteView, LedgerError>(e),
            },
    {
        if index < self.notes.len() {
            let note = self.notes.remove(index);
            Ok(note)
        } else {
            Err(LedgerError::InvalidIndex)
        }
    }

    /// Each note's position, counted from one, with its title, in the
    /// store's order.
    pub fn list_notes(&self) -> (r: Vec<(usize, String)>)
        ensures
            r@.len() == self@.len(),
            forall|i: int|
                0 <= i < r@.len() ==> (r@[i].0 as nat, r@[i].1@) == #[trigger] entries(self@)[i],
    {
        let mut pairs: Vec<(usize, String)> = Vec::new();
        let mut i: usize = 0;
        while i < self.notes.len()
            invariant
                i <= self.notes.len(),
                pairs@.len() == i,
                forall|k: int|
                    0 <= k < i ==> (pairs@[k].0 as nat, pairs@[k].1@) == #[trigger] entries(
                        self@,
                    )[k],
            decreases self.notes.len() - i,
        {
            let title = self.notes[i].title.clone();
            pairs.push((i + 1, title));
            i += 1;
        }
        pairs
    }

    /// The lines that list the notes, one for each, in the store's order.
    pub fn list_lines(&self) -> (r: Vec<String>)
        ensures
            r@.len() == self@.len(),
            forall|i: int| 0 <= i < r@.len() ==> r@[i]@ == #[trigger] listing(self@)[i],
    {
        let mut lines: Vec<String> = Vec::new();
        let mut i: usize = 0;
        while i < self.notes.len()
            invariant
                i <= self.notes.len(),
                lines@.len() == i,
                forall|k: int| 0 <= k < i ==> lines@[k]@ == #[trigger] listing(self@)[k],
            decreases self.notes.len() - i,
        {
            let line = entry_line(i + 1, self.notes[i].title.as_str());
            lines.push(line);
            i += 1;
        }
        lines
    }
}

} // verus!
