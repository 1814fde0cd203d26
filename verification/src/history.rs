//! What a run of additions and removals leaves in the store.

use crate::error::LedgerError;
use crate::note::{after_removal, listing, removed, NoteView};
use vstd::prelude::*;

verus! {

/// One change asked of the store.
pub ghost enum Change {
    /// Put this note behind the others.
    Add(NoteView),
    /// Take out the note at this index, counted from zero.
    Remove(int),
}

/// The notes after one change.
pub open spec fn after_change(notes: Seq<NoteView>, change: Change) -> Seq<NoteView> {
    match change {
        Change::Add(note) => notes.push(note),
        Change::Remove(index) => after_removal(notes, index),
    }
}

/// The notes after a run of changes, made one after the other on a store
/// that held `start`.
pub open spec fn after_changes(start: Seq<NoteView>, changes: Seq<Change>) -> Seq<NoteView>
    decreases changes.len(),
{
    if changes.len() == 0 {
        start
    } else {
        after_change(after_changes(start, changes.drop_last()), changes.last())
    }
}

/// The notes that a run of changes adds, in the order in which it adds
/// them.
pub open spec fn additions(changes: Seq<Change>) -> Seq<NoteView>
    decreases changes.len(),
{
    if changes.len() == 0 {
        Seq::empty()
    } else {
        match changes.last() {
            Change::Add(note) => additions(changes.drop_last()).push(note),
            Change::Remove(_) => additions(changes.drop_last()),
        }
    }
}

/// How many removals of a run of changes find a note to remove.
pub open spec fn removals_done(start: Seq<NoteView>, changes: Seq<Change>) -> nat
    decreases changes.len(),
{
    if changes.len() == 0 {
        0
    } else {
        let before = after_changes(start, changes.drop_last());
        let done = removals_done(start, changes.drop_last());
        match changes.last() {
            Change::Add(_) => done,
            Change::Remove(index) => if removed(before, index) is Ok {
                done + 1
            } else {
                done
            },
        }
    }
}

/// Whether `kept` holds the notes of `all` at the positions `at`, and `at`
/// rises from each position to the next.
pub open spec fn picked_in_order(kept: Seq<NoteView>, all: Seq<NoteView>, at: Seq<int>) -> bool {
    &&& at.len() == kept.len()
    &&& forall|i: int| 0 <= i < at.len() ==> 0 <= #[trigger] at[i] < all.len() && kept[i] == all[at[i]]
    &&& forall|i: int, j: int| 0 <= i < j < at.len() ==> #[trigger] at[i] < #[trigger] at[j]
}

/// Whether `kept` is `all` with some of its notes left out and the order of
/// the others unchanged.
pub open spec fn keeps_order_of(kept: Seq<NoteView>, all: Seq<NoteView>) -> bool {
    exists|at: Seq<int>| picked_in_order(kept, all, at)
}

/// After any run of changes the store, and so its listing, holds as many
/// notes as there were at the start and were added, less one for each
/// removal that found a note.
pub proof fn lemma_history_count(start: Seq<NoteView>, changes: Seq<Change>)
    ensures
        after_changes(start, changes).len() == start.len() + additions(changes).len()
            - removals_done(start, changes),
        listing(after_changes(start, changes)).len() == after_changes(start, changes).len(),
    decreases changes.len(),
{
    if changes.len() > 0 {
        lemma_history_count(start, changes.drop_last());
    }
}

/// The positions at which the notes left by a run of changes stand among
/// the notes of the start followed by the notes added.
proof fn lemma_history_positions(start: Seq<NoteView>, changes: Seq<Change>) -> (at: Seq<int>)
    ensures
        picked_in_order(after_changes(start, changes), start + additions(changes), at),
    decreases changes.len(),
{
    if changes.len() == 0 {
        Seq::new(start.len(), |i: int| i)
    } else {
        let earlier = changes.drop_last();
        let before = after_changes(start, earlier);
        let at = lemma_history_positions(start, earlier);
        let offered = start + additions(earlier);
        match changes.last() {
            Change::Add(_) => at.push(offered.len() as int),
            Change::Remove(index) => if 0 <= index < before.len() {
                at.remove(index)
            } else {
                at
            },
        }
    }
}

/// After any run of changes the store holds, in the order of their
/// addition, the notes of the start and the notes added, without those
/// that were removed.
pub proof fn lemma_history_order(start: Seq<NoteView>, changes: Seq<Change>)
    ensures
        keeps_order_of(after_changes(start, changes), start + additions(changes)),
{
    let at = lemma_history_positions(start, changes);
}

/// A removal at an index that names no note changes nothing and reports
/// the index as invalid.
pub proof fn lemma_removal_out_of_range(notes: Seq<NoteView>, index: int)
    requires
        !(0 <= index < notes.len()),
    ensures
        after_removal(notes, index) == notes,
        removed(notes, index) == Err::<NoteView, LedgerError>(LedgerError::InvalidIndex),
{
}

/// Of a store with one note: the removal of that note empties the store,
/// and the same removal asked again finds the index invalid.
pub proof fn lemma_remove_twice_from_single(notes: Seq<NoteView>, index: int)
    requires
        notes.len() == 1,
        index == 0,
    ensures
        removed(notes, index) == Ok::<NoteView, LedgerError>(notes[0]),
        after_removal(notes, index).len() == 0,
        removed(after_removal(notes, index), index) == Err::<NoteView, LedgerError>(
            LedgerError::InvalidIndex,
        ),
        after_removal(after_removal(notes, index), index).len() == 0,
{
}

} // verus!
