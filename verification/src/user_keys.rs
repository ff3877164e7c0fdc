//! The key store: at most one signing key, and what the signer does with it.

use vstd::prelude::*;
use crate::hex::hex_string;
use crate::nip46::{
    answers, decode_request, decoded_request, encode_response, outcome_view, Nip46Commands, Nip46Error,
    SignedResponse,
};
use crate::notes::{Note, SignedNote};
use crate::signer::{
    is_public_key, is_secret_key, mnemonic_secret, npub_of, public_key_of, signed_with, KeyError, SignerKey,
};
use crate::storage::{
    effects_view, private_key_slot, DocumentView, EffectView, IdbDocument, IdbStores, StoreEffect,
};
use crate::text::{leading, prefix_of};

verus! {

/// What can be done to the key store.
#[derive(Clone, Debug)]
pub enum NostrKeyAction {
    /// Draw a fresh key, keep it and persist it.
    GenerateNewKey,
    /// Install the key found in the durable store at startup.
    RetrieveKey(SignerKey),
    /// Import a secret typed by the user: hex, `nsec` or a mnemonic phrase.
    UserImport(String),
    /// Forget the key and delete it from the durable store.
    DeleteKey(String),
}

/// The secret that a text typed by the user stands for: the text itself
/// where it is a secret key, else the hex form of the secret behind it where
/// it is a mnemonic phrase.
pub open spec fn imported_secret(text: Seq<char>) -> Option<Seq<char>> {
    if is_secret_key(text) {
        Some(text)
    } else {
        match mnemonic_secret(text) {
            Some(bytes) => if is_secret_key(hex_string(bytes)) {
                Some(hex_string(bytes))
            } else {
                None
            },
            None => None,
        }
    }
}

/// The write that persists a key.
pub open spec fn put_key(secret: Seq<char>) -> EffectView {
    EffectView::Put(IdbStores::UserKeys(true), DocumentView::UserKey(secret))
}

/// The write that deletes the persisted key.
pub open spec fn delete_key() -> EffectView {
    EffectView::Delete(IdbStores::UserKeys(true), private_key_slot())
}

/// The line that says which key signs.
pub open spec fn signing_line(keys: Option<Seq<char>>) -> Seq<char> {
    match keys {
        Some(secret) => "Signing as "@ + leading(npub_of(secret), 16) + "..."@,
        None => "No Key Found"@,
    }
}

/// Reads a secret typed by the user.
pub fn import_key(text: &str) -> (out: Result<SignerKey, KeyError>)
    ensures
        match out {
            Ok(key) => imported_secret(text@) == Some(key@),
            Err(e) => imported_secret(text@) is None && e == KeyError::InvalidKeyFormat,
        },
{
    match SignerKey::parse(text) {
        Ok(key) => Ok(key),
        Err(_) => SignerKey::from_mnemonic(text),
    }
}

/// The key store.
#[derive(Clone, Debug)]
pub struct NostrKeys {
    user_keys: Option<SignerKey>,
}

impl View for NostrKeys {
    type V = Option<Seq<char>>;

    closed spec fn view(&self) -> Option<Seq<char>> {
        match self.user_keys {
            Some(key) => Some(key@),
            None => None,
        }
    }
}

impl NostrKeys {
    /// The store with no key.
    pub fn new() -> (keys: NostrKeys)
        ensures
            keys@ is None,
    {
        NostrKeys { user_keys: None }
    }

    /// The hex public key, or the empty string where no key is loaded.
    pub fn get_pubkey(&self) -> (public: String)
        ensures
            public@ == (match self@ {
                Some(secret) => public_key_of(secret),
                None => Seq::<char>::empty(),
            }),
    {
        match &self.user_keys {
            Some(key) => key.public_key(),
            None => String::new(),
        }
    }

    /// The bech32 public key, or the empty string where no key is loaded.
    pub fn get_npub(&self) -> (npub: String)
        ensures
            npub@ == (match self@ {
                Some(secret) => npub_of(secret),
                None => Seq::<char>::empty(),
            }),
    {
        match &self.user_keys {
            Some(key) => key.npub(),
            None => String::new(),
        }
    }

    /// The line that says which key signs: the first sixteen characters of
    /// the bech32 public key, or a notice that there is none.
    pub fn key_details(&self) -> (line: String)
        ensures
            line@ == signing_line(self@),
    {
        match &self.user_keys {
            Some(key) => {
                let npub = key.npub();
                let mut line = String::from_str("Signing as ");
                line.append(prefix_of(npub.as_str(), 16).as_str());
                line.append("...");
                line
            },
            None => String::from_str("No Key Found"),
        }
    }

    /// Whether a key is loaded.
    pub fn has_keys(&self) -> (loaded: bool)
        ensures
            loaded == self@ is Some,
    {
        self.user_keys.is_some()
    }

    /// The loaded key.
    pub fn key(&self) -> (key: Option<&SignerKey>)
        ensures
            match key {
                Some(k) => self@ == Some(k@),
                None => self@ is None,
            },
    {
        self.user_keys.as_ref()
    }

    /// Decodes a signed request with the loaded key.
    pub fn extract_nip46_command(&self, command: &SignedNote) -> (outcome: Result<Nip46Commands, Nip46Error>)
        ensures
            outcome_view(outcome) == (match self@ {
                Some(secret) => decoded_request(secret, command@),
                None => Err(Nip46Error::SigningUnavailable),
            }),
            outcome matches Ok(decoded) ==> decoded@.requester() == command@.pubkey && is_public_key(
                decoded@.requester(),
            ),
    {
        match &self.user_keys {
            Some(key) => decode_request(key, command),
            None => Err(Nip46Error::SigningUnavailable),
        }
    }

    /// Encodes the response to a command with the loaded key.
    pub fn respond_to_nip46_command(&self, command: &Nip46Commands) -> (outcome: Result<SignedResponse, Nip46Error>)
        ensures
            outcome is Ok <==> self@ is Some && is_public_key(command@.requester()),
            outcome matches Ok(response) ==> answers(response@, self@->0, command@),
            outcome matches Err(e) ==> e == Nip46Error::SigningUnavailable,
    {
        match &self.user_keys {
            Some(key) => encode_response(key, command),
            None => Err(Nip46Error::SigningUnavailable),
        }
    }

    /// Signs a note with the loaded key.
    pub fn sign_note(&self, note: &Note) -> (outcome: Result<SignedNote, Nip46Error>)
        ensures
            match outcome {
                Ok(signed) => self@ matches Some(secret) && signed@ == signed_with(secret, note@),
                Err(e) => self@ is None && e == Nip46Error::SigningUnavailable,
            },
    {
        match &self.user_keys {
            Some(key) => Ok(key.sign(note)),
            None => Err(Nip46Error::SigningUnavailable),
        }
    }

    /// Replaces the key and asks for it to be persisted.
    pub fn install(self, key: SignerKey) -> (next: (NostrKeys, Vec<StoreEffect>))
        ensures
            next.0@ == Some(key@),
            effects_view(next.1@) == seq![put_key(key@)],
    {
        let record = key.duplicate();
        let mut effects: Vec<StoreEffect> = Vec::new();
        effects.push(StoreEffect::Put(IdbStores::UserKeys(true), IdbDocument::UserKey(record)));
        assert(effects_view(effects@) =~= seq![put_key(key@)]);
        (NostrKeys { user_keys: Some(key) }, effects)
    }

    /// Applies an action.  On success the new state is returned together
    /// with the writes that the durable store is owed.  Only an import can
    /// fail: a text that is no key is refused with `InvalidKeyFormat`, the
    /// store is handed back as it was and no write is asked for.
    pub fn reduce(self, action: NostrKeyAction) -> (next: Result<(NostrKeys, Vec<StoreEffect>), (NostrKeys, KeyError)>)
        ensures
            next is Err <==> (action matches NostrKeyAction::UserImport(text) && imported_secret(text@) is None),
            next matches Err(refused) ==> refused.0@ == self@ && refused.1 == KeyError::InvalidKeyFormat,
            next matches Ok(changed) ==> match action {
                NostrKeyAction::GenerateNewKey => {
                    &&& changed.0@ matches Some(secret)
                    &&& is_secret_key(secret)
                    &&& secret.len() == 64
                    &&& effects_view(changed.1@) == seq![put_key(secret)]
                },
                NostrKeyAction::RetrieveKey(key) => {
                    &&& changed.0@ == Some(key@)
                    &&& effects_view(changed.1@) == Seq::<EffectView>::empty()
                },
                NostrKeyAction::UserImport(text) => {
                    &&& changed.0@ == imported_secret(text@)
                    &&& effects_view(changed.1@) == seq![put_key(imported_secret(text@)->0)]
                },
                NostrKeyAction::DeleteKey(_) => {
                    &&& changed.0@ is None
                    &&& effects_view(changed.1@) == seq![delete_key()]
                },
            },
    {
        match action {
            NostrKeyAction::GenerateNewKey => match SignerKey::generate() {
                Some(key) => Ok(self.install(key)),
                None => Err((self, KeyError::InvalidKeyFormat)),
            },
            NostrKeyAction::RetrieveKey(key) => {
                let effects: Vec<StoreEffect> = Vec::new();
                assert(effects_view(effects@) =~= Seq::<EffectView>::empty());
                Ok((NostrKeys { user_keys: Some(key) }, effects))
            },
            NostrKeyAction::UserImport(text) => match import_key(text.as_str()) {
                Ok(key) => Ok(self.install(key)),
                Err(e) => Err((self, e)),
            },
            NostrKeyAction::DeleteKey(_) => {
                let mut effects: Vec<StoreEffect> = Vec::new();
                effects.push(StoreEffect::Delete(IdbStores::UserKeys(true), String::from_str("privateKey")));
                assert(effects_view(effects@) =~= seq![delete_key()]);
                Ok((NostrKeys { user_keys: None }, effects))
            },
        }
    }
}

} // verus!
