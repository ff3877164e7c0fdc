//! The archive of notes that the user chose to keep after signing.

use vstd::prelude::*;
use crate::notes::{notes_view, SignedNote, SignedNoteView};
use crate::storage::{effects_view, DocumentView, EffectView, IdbDocument, IdbStores, StoreEffect};

verus! {

/// What can be done to the archive.
#[derive(Clone, Debug)]
pub enum UserNotesAction {
    /// Notes read from the durable store at startup; they are appended as
    /// they come, duplicates included.
    InitNotes(Vec<SignedNote>),
    /// A freshly signed note to keep.
    AddNote(SignedNote),
    /// Takes out every note with this identifier.
    RemoveNote(String),
}

/// Mathematical value of an action on the archive.
pub enum NotesActionView {
    InitNotes(Seq<SignedNoteView>),
    AddNote(SignedNoteView),
    RemoveNote(Seq<char>),
}

impl View for UserNotesAction {
    type V = NotesActionView;

    open spec fn view(&self) -> NotesActionView {
        match self {
            UserNotesAction::InitNotes(notes) => NotesActionView::InitNotes(notes_view(notes@)),
            UserNotesAction::AddNote(note) => NotesActionView::AddNote(note@),
            UserNotesAction::RemoveNote(id) => NotesActionView::RemoveNote(id@),
        }
    }
}

/// The archive with every note of the given identifier taken out.
pub open spec fn without_id(notes: Seq<SignedNoteView>, id: Seq<char>) -> Seq<SignedNoteView> {
    notes.filter(|n: SignedNoteView| n.id != id)
}

/// The archive after an action.
pub open spec fn notes_after(notes: Seq<SignedNoteView>, action: NotesActionView) -> Seq<SignedNoteView> {
    match action {
        NotesActionView::InitNotes(more) => notes + more,
        NotesActionView::AddNote(note) => notes.push(note),
        NotesActionView::RemoveNote(id) => without_id(notes, id),
    }
}

/// The writes to the durable store that an action asks for.
pub open spec fn note_effects(action: NotesActionView) -> Seq<EffectView> {
    match action {
        NotesActionView::InitNotes(_) => seq![],
        NotesActionView::AddNote(note) => seq![EffectView::Put(IdbStores::UserNotes, DocumentView::UserNote(note))],
        NotesActionView::RemoveNote(id) => seq![EffectView::Delete(IdbStores::UserNotes, id)],
    }
}

/// The archived notes, oldest first.
#[derive(Clone, Debug)]
pub struct UserNotes {
    user_notes: Vec<SignedNote>,
}

impl View for UserNotes {
    type V = Seq<SignedNoteView>;

    closed spec fn view(&self) -> Seq<SignedNoteView> {
        notes_view(self.user_notes@)
    }
}

/// A copy of a list of notes.
pub fn copy_notes(notes: &Vec<SignedNote>) -> (out: Vec<SignedNote>)
    ensures
        notes_view(out@) == notes_view(notes@),
{
    let mut out: Vec<SignedNote> = Vec::new();
    let mut i: usize = 0;
    while i < notes.len()
        invariant
            i <= notes.len(),
            out.len() == i,
            forall|k: int| 0 <= k < i ==> out[k]@ == #[trigger] notes[k]@,
        decreases notes.len() - i,
    {
        out.push(notes[i].duplicate());
        i += 1;
    }
    assert(notes_view(out@) =~= notes_view(notes@));
    out
}

/// The notes whose identifier differs from `id`, in order.
pub fn remove_by_id(notes: &Vec<SignedNote>, id: &String) -> (out: Vec<SignedNote>)
    ensures
        notes_view(out@) == without_id(notes_view(notes@), id@),
{
    let mut out: Vec<SignedNote> = Vec::new();
    let mut i: usize = 0;
    let ghost all = notes_view(notes@);
    assert(all.take(0) =~= Seq::<SignedNoteView>::empty());
    assert(notes_view(out@) =~= Seq::<SignedNoteView>::empty());
    proof {
        reveal(Seq::filter);
    }
    while i < notes.len()
        invariant
            i <= notes.len(),
            all == notes_view(notes@),
            notes_view(out@) == without_id(all.take(i as int), id@),
        decreases notes.len() - i,
    {
        let ghost kept = notes_view(out@);
        proof {
            reveal(Seq::filter);
            assert(all.take(i + 1).drop_last() =~= all.take(i as int));
            assert(all.take(i + 1).last() == notes[i as int]@);
        }
        if notes[i].id != *id {
            out.push(notes[i].duplicate());
            assert(notes_view(out@) =~= kept.push(notes[i as int]@));
        }
        i += 1;
    }
    assert(all.take(i as int) =~= all);
    out
}

/// The action that removes a note, if the user confirmed it.
pub fn remove_note(id: &String, confirmed: bool) -> (action: Option<UserNotesAction>)
    ensures
        match action {
            Some(a) => confirmed && a@ == NotesActionView::RemoveNote(id@),
            None => !confirmed,
        },
{
    if confirmed {
        Some(UserNotesAction::RemoveNote(id.clone()))
    } else {
        None
    }
}

impl UserNotes {
    /// The empty archive.
    pub fn new() -> (notes: UserNotes)
        ensures
            notes@ == Seq::<SignedNoteView>::empty(),
    {
        let notes = UserNotes { user_notes: Vec::new() };
        assert(notes@ =~= Seq::<SignedNoteView>::empty());
        notes
    }

    /// The archived notes, in order.
    pub fn get_notes(&self) -> (notes: Vec<SignedNote>)
        ensures
            notes_view(notes@) == self@,
    {
        copy_notes(&self.user_notes)
    }

    /// The number of archived notes.
    pub fn len(&self) -> (n: usize)
        ensures
            n == self@.len(),
    {
        self.user_notes.len()
    }

    /// Applies an action and says which writes the durable store is owed.
    pub fn reduce(self, action: UserNotesAction) -> (next: (UserNotes, Vec<StoreEffect>))
        ensures
            next.0@ == notes_after(self@, action@),
            effects_view(next.1@) == note_effects(action@),
    {
        match action {
            UserNotesAction::InitNotes(notes) => {
                let mut user_notes = self.user_notes;
                let mut notes = notes;
                let ghost before = user_notes@;
                let ghost added = notes@;
                user_notes.append(&mut notes);
                let effects: Vec<StoreEffect> = Vec::new();
                let archive = UserNotes { user_notes };
                assert(archive@ =~= notes_view(before) + notes_view(added));
                assert(effects_view(effects@) =~= seq![]);
                (archive, effects)
            },
            UserNotesAction::AddNote(note) => {
                let mut user_notes = self.user_notes;
                let ghost before = user_notes@;
                let record = note.duplicate();
                user_notes.push(note);
                let mut effects: Vec<StoreEffect> = Vec::new();
                effects.push(StoreEffect::Put(IdbStores::UserNotes, IdbDocument::UserNote(record)));
                let archive = UserNotes { user_notes };
                assert(archive@ =~= notes_view(before).push(note@));
                assert(effects_view(effects@) =~= note_effects(action@));
                (archive, effects)
            },
            UserNotesAction::RemoveNote(id) => {
                let user_notes = remove_by_id(&self.user_notes, &id);
                let mut effects: Vec<StoreEffect> = Vec::new();
                effects.push(StoreEffect::Delete(IdbStores::UserNotes, id));
                assert(effects_view(effects@) =~= note_effects(action@));
                (UserNotes { user_notes }, effects)
            },
        }
    }
}

} // verus!
