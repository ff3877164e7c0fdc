//! Nostr notes as plain values: the draft that a client asks to have signed
//! and the signed event that travels over a relay.

use vstd::prelude::*;

verus! {

/// The tags of a note, each a list of strings.
pub type TagsView = Seq<Seq<Seq<char>>>;

/// Mathematical value of an unsigned note.
pub struct NoteView {
    pub pubkey: Seq<char>,
    pub created_at: u64,
    pub kind: u32,
    pub tags: TagsView,
    pub content: Seq<char>,
}

/// Mathematical value of a signed note.
pub struct SignedNoteView {
    pub id: Seq<char>,
    pub pubkey: Seq<char>,
    pub created_at: u64,
    pub kind: u32,
    pub tags: TagsView,
    pub content: Seq<char>,
    pub sig: Seq<char>,
}

/// An unsigned note: what a client submits for signing.
#[derive(Clone, Debug)]
pub struct Note {
    pub pubkey: String,
    pub created_at: u64,
    pub kind: u32,
    pub tags: Vec<Vec<String>>,
    pub content: String,
}

/// A signed note.  It is immutable once made: it comes from the network or
/// from the signer, and the library only carries it.
#[derive(Clone, Debug)]
pub struct SignedNote {
    pub id: String,
    pub pubkey: String,
    pub created_at: u64,
    pub kind: u32,
    pub tags: Vec<Vec<String>>,
    pub content: String,
    pub sig: String,
}

impl View for Note {
    type V = NoteView;

    open spec fn view(&self) -> NoteView {
        NoteView {
            pubkey: self.pubkey@,
            created_at: self.created_at,
            kind: self.kind,
            tags: self.tags.deep_view(),
            content: self.content@,
        }
    }
}

impl View for SignedNote {
    type V = SignedNoteView;

    open spec fn view(&self) -> SignedNoteView {
        SignedNoteView {
            id: self.id@,
            pubkey: self.pubkey@,
            created_at: self.created_at,
            kind: self.kind,
            tags: self.tags.deep_view(),
            content: self.content@,
            sig: self.sig@,
        }
    }
}

/// The views of a list of signed notes, in order.
pub open spec fn notes_view(notes: Seq<SignedNote>) -> Seq<SignedNoteView> {
    notes.map_values(|n: SignedNote| n@)
}

/// A copy of a list of strings.
pub fn copy_strings(items: &Vec<String>) -> (out: Vec<String>)
    ensures
        out.deep_view() == items.deep_view(),
{
    let mut out: Vec<String> = Vec::new();
    let mut i: usize = 0;
    while i < items.len()
        invariant
            i <= items.len(),
            out.len() == i,
            forall|k: int| 0 <= k < i ==> out[k]@ == #[trigger] items[k]@,
        decreases items.len() - i,
    {
        out.push(items[i].clone());
        i += 1;
    }
    assert(out.deep_view() =~= items.deep_view());
    out
}

/// A copy of a tag list.
pub fn copy_tags(tags: &Vec<Vec<String>>) -> (out: Vec<Vec<String>>)
    ensures
        out.deep_view() == tags.deep_view(),
{
    let mut out: Vec<Vec<String>> = Vec::new();
    let mut i: usize = 0;
    while i < tags.len()
        invariant
            i <= tags.len(),
            out.len() == i,
            forall|k: int| 0 <= k < i ==> out[k].deep_view() == #[trigger] tags[k].deep_view(),
        decreases tags.len() - i,
    {
        out.push(copy_strings(&tags[i]));
        i += 1;
    }
    assert(out.deep_view() =~= tags.deep_view());
    out
}

impl Note {
    /// A copy with the same value.
    pub fn duplicate(&self) -> (copy: Note)
        ensures
            copy@ == self@,
    {
        Note {
            pubkey: self.pubkey.clone(),
            created_at: self.created_at,
            kind: self.kind,
            tags: copy_tags(&self.tags),
            content: self.content.clone(),
        }
    }
}

impl SignedNote {
    /// A copy with the same value.
    pub fn duplicate(&self) -> (copy: SignedNote)
        ensures
            copy@ == self@,
    {
        SignedNote {
            id: self.id.clone(),
            pubkey: self.pubkey.clone(),
            created_at: self.created_at,
            kind: self.kind,
            tags: copy_tags(&self.tags),
            content: self.content.clone(),
            sig: self.sig.clone(),
        }
    }

    /// The note's identifier.
    pub fn get_id(&self) -> (id: &String)
        ensures
            id@ == self@.id,
    {
        &self.id
    }
}

} // verus!
