//! Names of the durable object stores and the writes the reducers ask for.

use vstd::prelude::*;
use crate::notes::{SignedNote, SignedNoteView};
use crate::signer::SignerKey;
use crate::user_relays::{RelayView, UserRelay};

verus! {

/// The three object stores of the signer's database.  The flag of
/// `UserKeys` says whether the stored key may be exported again.
#[derive(Clone, Debug)]
pub enum IdbStores {
    UserKeys(bool),
    UserRelays,
    UserNotes,
}

/// The name of a store, as a sequence of characters.
pub open spec fn store_name(store: IdbStores) -> Seq<char> {
    match store {
        IdbStores::UserKeys(_) => "userKeys"@,
        IdbStores::UserRelays => "userRelays"@,
        IdbStores::UserNotes => "userNotes"@,
    }
}

/// The fixed key under which the single key record is kept.
pub open spec fn private_key_slot() -> Seq<char> {
    "privateKey"@
}

impl IdbStores {
    /// The name under which the store is opened.
    pub fn to_string(&self) -> (name: String)
        ensures
            name@ == store_name(*self),
    {
        match self {
            IdbStores::UserKeys(_) => String::from_str("userKeys"),
            IdbStores::UserRelays => String::from_str("userRelays"),
            IdbStores::UserNotes => String::from_str("userNotes"),
        }
    }
}

/// A record of one of the stores.
#[derive(Clone, Debug)]
pub enum IdbDocument {
    UserKey(SignerKey),
    UserRelay(UserRelay),
    UserNote(SignedNote),
}

/// Mathematical value of a record.
pub enum DocumentView {
    UserKey(Seq<char>),
    UserRelay(RelayView),
    UserNote(SignedNoteView),
}

impl View for IdbDocument {
    type V = DocumentView;

    open spec fn view(&self) -> DocumentView {
        match self {
            IdbDocument::UserKey(key) => DocumentView::UserKey(key@),
            IdbDocument::UserRelay(relay) => DocumentView::UserRelay(relay@),
            IdbDocument::UserNote(note) => DocumentView::UserNote(note@),
        }
    }
}

/// A write that a reducer asks the durable store to make.  The reducer has
/// already moved on when the write is carried out; a failed write is
/// reported and does not undo the state.
#[derive(Clone, Debug)]
pub enum StoreEffect {
    /// Insert or replace a record.
    Put(IdbStores, IdbDocument),
    /// Delete the record under a key.
    Delete(IdbStores, String),
}

/// Mathematical value of a write.
pub enum EffectView {
    Put(IdbStores, DocumentView),
    Delete(IdbStores, Seq<char>),
}

impl View for StoreEffect {
    type V = EffectView;

    open spec fn view(&self) -> EffectView {
        match self {
            StoreEffect::Put(store, document) => EffectView::Put(*store, document@),
            StoreEffect::Delete(store, key) => EffectView::Delete(*store, key@),
        }
    }
}

/// The key under which a record is kept in its store: the fixed slot for
/// the key record, the address for a relay, the identifier for a note.
pub open spec fn key_of(document: DocumentView) -> Seq<char> {
    match document {
        DocumentView::UserKey(_) => private_key_slot(),
        DocumentView::UserRelay(relay) => relay.url,
        DocumentView::UserNote(note) => note.id,
    }
}

/// The field of a record that keys its store, where the store has one.
pub open spec fn key_path_of(store: IdbStores) -> Option<Seq<char>> {
    match store {
        IdbStores::UserKeys(_) => None,
        IdbStores::UserRelays => Some("url"@),
        IdbStores::UserNotes => Some("id"@),
    }
}

impl IdbStores {
    /// The field of a record that keys the store.  The key store has none:
    /// its single record is kept under a fixed slot.
    pub fn key_path(&self) -> (path: Option<String>)
        ensures
            match path {
                Some(p) => key_path_of(*self) == Some(p@),
                None => key_path_of(*self) is None,
            },
    {
        match self {
            IdbStores::UserKeys(_) => None,
            IdbStores::UserRelays => Some(String::from_str("url")),
            IdbStores::UserNotes => Some(String::from_str("id")),
        }
    }
}

impl IdbDocument {
    /// The store that the record belongs to.  A key record goes to the
    /// store of exportable keys.
    pub fn store(&self) -> (store: IdbStores)
        ensures
            store == (match self@ {
                DocumentView::UserKey(_) => IdbStores::UserKeys(true),
                DocumentView::UserRelay(_) => IdbStores::UserRelays,
                DocumentView::UserNote(_) => IdbStores::UserNotes,
            }),
    {
        match self {
            IdbDocument::UserKey(_) => IdbStores::UserKeys(true),
            IdbDocument::UserRelay(_) => IdbStores::UserRelays,
            IdbDocument::UserNote(_) => IdbStores::UserNotes,
        }
    }

    /// The key under which the record is kept.
    pub fn key(&self) -> (key: String)
        ensures
            key@ == key_of(self@),
    {
        match self {
            IdbDocument::UserKey(_) => String::from_str("privateKey"),
            IdbDocument::UserRelay(relay) => relay.url.clone(),
            IdbDocument::UserNote(note) => note.id.clone(),
        }
    }
}

/// The views of a list of writes, in order.
pub open spec fn effects_view(effects: Seq<StoreEffect>) -> Seq<EffectView> {
    effects.map_values(|e: StoreEffect| e@)
}

} // verus!
