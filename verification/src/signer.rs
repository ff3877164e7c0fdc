//! The signer capability: key material and the operations that only the
//! cryptographic library can perform.
//!
//! Everything in this module that is marked `external_body` is trusted: its
//! contract is taken from the source of `nostro2` (and `serde_json`) and is not
//! proved.  Results that are functions of their arguments are given names
//! (uninterpreted specification functions); the verified code of the other
//! modules is stated over those names.

use vstd::prelude::*;
use nostro2::nips::nip_46::{Nip46Commands as OutsideCommand, Nip46Request};
use nostro2::notes::Note as OutsideNote;
use nostro2::userkeys::UserKeys;
use crate::hex::{hex_encode, hex_string};
use crate::nip46::Nip46Commands;
use crate::notes::{copy_tags, Note, NoteView, SignedNote, SignedNoteView};

verus! {

/// Whether `nostro2` accepts a string as a secret key (hex or `nsec`).
pub uninterp spec fn is_secret_key(secret: Seq<char>) -> bool;

/// The hex public key that belongs to a secret key.
pub uninterp spec fn public_key_of(secret: Seq<char>) -> Seq<char>;

/// The bech32 (`npub`) form of the public key that belongs to a secret key.
pub uninterp spec fn npub_of(secret: Seq<char>) -> Seq<char>;

/// The 32 secret bytes behind a mnemonic phrase, if the phrase is one.
pub uninterp spec fn mnemonic_secret(phrase: Seq<char>) -> Option<Seq<u8>>;

/// Whether a string is a public key that a shared secret can be derived with.
pub uninterp spec fn is_public_key(key: Seq<char>) -> bool;

/// The 32 bytes of a secret key.
pub uninterp spec fn secret_bytes_of(secret: Seq<char>) -> Seq<u8>;

/// The bech32 (`nsec`) form of a secret key.
pub uninterp spec fn nsec_of(secret: Seq<char>) -> Seq<char>;

/// The English mnemonic phrase of a secret key.
pub uninterp spec fn mnemonic_of(secret: Seq<char>) -> Seq<char>;

/// The Spanish mnemonic phrase of a secret key.
pub uninterp spec fn spanish_mnemonic_of(secret: Seq<char>) -> Seq<char>;

/// The identifier and the signature that a key gives a note.
pub uninterp spec fn note_signature(secret: Seq<char>, note: NoteView) -> (Seq<char>, Seq<char>);

/// The plaintext of a NIP-04 payload sent by `peer`, if it decrypts.
pub uninterp spec fn nip04_plaintext(secret: Seq<char>, peer: Seq<char>, payload: Seq<char>) -> Option<Seq<char>>;

/// The plaintext of a NIP-44 payload sent by `peer`, if it decrypts.
pub uninterp spec fn nip44_plaintext(secret: Seq<char>, peer: Seq<char>, payload: Seq<char>) -> Option<Seq<char>>;

/// The request envelope that a plaintext holds, if it is one.
pub uninterp spec fn request_envelope(text: Seq<char>) -> Option<EnvelopeView>;

/// The unsigned note that a JSON text holds, if it is one.
pub uninterp spec fn draft_note_of(text: Seq<char>) -> Option<NoteView>;

/// The event kind reserved for remote-signing requests and responses.
pub const COMMAND_KIND: u32 = 24133;

/// Mathematical value of a request envelope.
pub struct EnvelopeView {
    pub id: Seq<char>,
    pub method: Seq<char>,
    pub params: Seq<Seq<char>>,
}

/// The JSON-RPC-like envelope of a request: `{id, method, params}`.
#[derive(Clone, Debug)]
pub struct RequestEnvelope {
    pub id: String,
    pub method: String,
    pub params: Vec<String>,
}

impl View for RequestEnvelope {
    type V = EnvelopeView;

    open spec fn view(&self) -> EnvelopeView {
        EnvelopeView { id: self.id@, method: self.method@, params: self.params.deep_view() }
    }
}

/// A secret key that the cryptographic library has accepted.
///
/// The only ways to obtain one are `parse`, `from_mnemonic` and
/// `from_secret_bytes`, so every value holds an accepted secret.
#[derive(Debug)]
pub struct SignerKey {
    secret: String,
}

impl View for SignerKey {
    type V = Seq<char>;

    closed spec fn view(&self) -> Seq<char> {
        self.secret@
    }
}

impl Clone for SignerKey {
    fn clone(&self) -> (copy: SignerKey)
        ensures
            copy@ == self@,
    {
        self.duplicate()
    }
}

/// The shape that a NIP-04 payload must have before it is handed to the
/// decryption: ASCII, exactly one `?`, which is followed by `iv=` and at
/// least 24 further characters (the base64 form of a 16-byte vector).
pub open spec fn nip04_shaped(payload: Seq<char>) -> bool {
    exists|q: int| nip04_split_at(payload, q)
}

/// `payload` is NIP-04 shaped with its `?` at index `q`.
pub open spec fn nip04_split_at(payload: Seq<char>, q: int) -> bool {
    &&& 0 <= q
    &&& q + 28 <= payload.len()
    &&& payload[q] == '?'
    &&& payload[q + 1] == 'i'
    &&& payload[q + 2] == 'v'
    &&& payload[q + 3] == '='
    &&& forall|k: int| 0 <= k < payload.len() && k != q ==> #[trigger] payload[k] != '?'
    &&& vstd::utf8::is_ascii_chars(payload)
}

/// The plaintext of a request: the NIP-04 reading where the payload has that
/// shape and decrypts, else the NIP-44 reading.
pub open spec fn request_plaintext(secret: Seq<char>, peer: Seq<char>, payload: Seq<char>) -> Option<Seq<char>> {
    if nip04_shaped(payload) && nip04_plaintext(secret, peer, payload) is Some {
        nip04_plaintext(secret, peer, payload)
    } else {
        nip44_plaintext(secret, peer, payload)
    }
}

/// The signed form of a draft: the draft's fields with the identifier and
/// the signature that the key gives it.
pub open spec fn signed_with(secret: Seq<char>, note: NoteView) -> SignedNoteView {
    SignedNoteView {
        id: note_signature(secret, note).0,
        pubkey: note.pubkey,
        created_at: note.created_at,
        kind: note.kind,
        tags: note.tags,
        content: note.content,
        sig: note_signature(secret, note).1,
    }
}

/// Whether a note is a response to `requester` made by the holder of
/// `secret`: a command-kind event by the signer that carries the requester
/// in its only tag.
pub open spec fn is_response_for(response: SignedNoteView, secret: Seq<char>, requester: Seq<char>) -> bool {
    &&& response.kind == COMMAND_KIND
    &&& response.pubkey == public_key_of(secret)
    &&& response.tags == seq![seq!["p"@, requester]]
}

/// Trusted: `UserKeys::new`.  The result says whether the call succeeds,
/// which depends on the string alone.
#[verifier::external_body]
fn secret_key_accepted(secret: &str) -> (ok: bool)
    ensures
        ok == is_secret_key(secret@),
{
    UserKeys::new(secret).is_ok()
}

/// Trusted: `UserKeys::generate_extractable` followed by `get_secret_key`.
/// The bytes are random.  What holds of every draw: there are 32 of them,
/// the length of the array that `get_secret_key` returns, and they are the
/// bytes of a secret that the outside function has built, so their hex form
/// is accepted by `UserKeys::new`.  The outside function draws once and
/// aborts if the draw is no valid secret, which happens with a chance of
/// about one in 2^128.
#[verifier::external_body]
fn fresh_secret_bytes() -> (bytes: Vec<u8>)
    ensures
        bytes@.len() == 32,
        is_secret_key(hex_string(bytes@)),
{
    UserKeys::generate_extractable().get_secret_key().to_vec()
}

/// Trusted: `UserKeys::get_public_key` on the keys made from the secret.
#[verifier::external_body]
fn derive_public_key(key: &SignerKey) -> (public: String)
    requires
        is_secret_key(key@),
    ensures
        public@ == public_key_of(key@),
{
    UserKeys::new(&key.secret).unwrap().get_public_key()
}

/// Trusted: `UserKeys::get_npub` on the keys made from the secret.
#[verifier::external_body]
fn derive_npub(key: &SignerKey) -> (npub: String)
    requires
        is_secret_key(key@),
    ensures
        npub@ == npub_of(key@),
{
    UserKeys::new(&key.secret).unwrap().get_npub()
}

/// Trusted: `UserKeys::get_secret_key` on the exportable keys made from the
/// secret.  It returns an array of 32 bytes.
#[verifier::external_body]
fn export_secret_bytes(key: &SignerKey) -> (bytes: Vec<u8>)
    requires
        is_secret_key(key@),
    ensures
        bytes@ == secret_bytes_of(key@),
        bytes@.len() == 32,
{
    UserKeys::new_extractable(&key.secret).unwrap().get_secret_key().to_vec()
}

/// Trusted: `UserKeys::get_nsec` on the exportable keys made from the secret.
#[verifier::external_body]
fn export_nsec(key: &SignerKey) -> (nsec: String)
    requires
        is_secret_key(key@),
    ensures
        nsec@ == nsec_of(key@),
{
    UserKeys::new_extractable(&key.secret).unwrap().get_nsec()
}

/// Trusted: `UserKeys::get_mnemonic_phrase` on the exportable keys made from
/// the secret.
#[verifier::external_body]
fn export_mnemonic(key: &SignerKey) -> (phrase: String)
    requires
        is_secret_key(key@),
    ensures
        phrase@ == mnemonic_of(key@),
{
    UserKeys::new_extractable(&key.secret).unwrap().get_mnemonic_phrase()
}

/// Trusted: `UserKeys::get_mnemonic_spanish` on the exportable keys made
/// from the secret.
#[verifier::external_body]
fn export_spanish_mnemonic(key: &SignerKey) -> (phrase: String)
    requires
        is_secret_key(key@),
    ensures
        phrase@ == spanish_mnemonic_of(key@),
{
    UserKeys::new_extractable(&key.secret).unwrap().get_mnemonic_spanish()
}

/// Trusted: `UserKeys::parse_mnemonic` (extractable) followed by
/// `get_secret_key`.  A phrase that parses yields the 32 bytes of the array
/// that `get_secret_key` returns.
#[verifier::external_body]
fn mnemonic_secret_bytes(phrase: &str) -> (bytes: Option<Vec<u8>>)
    ensures
        match bytes {
            Some(b) => mnemonic_secret(phrase@) == Some(b@) && b@.len() == 32,
            None => mnemonic_secret(phrase@) is None,
        },
{
    match UserKeys::parse_mnemonic(phrase, true) {
        Ok(keys) => Some(keys.get_secret_key().to_vec()),
        Err(_) => None,
    }
}

/// Trusted: `UserKeys::get_shared_point`.  It succeeds exactly when the peer's
/// string decodes to a point on the curve, whatever the secret is.
#[verifier::external_body]
fn shared_point_exists(key: &SignerKey, peer: &String) -> (ok: bool)
    requires
        is_secret_key(key@),
    ensures
        ok == is_public_key(peer@),
{
    UserKeys::new(&key.secret).unwrap().get_shared_point(peer).is_ok()
}

/// Trusted: `UserKeys::sign_nostr_event`, of whose result the identifier and
/// the signature are kept.  Both are functions of the secret and the draft:
/// the signature is made without auxiliary randomness.
#[verifier::external_body]
fn sign_draft(key: &SignerKey, note: &Note) -> (signed: (String, String))
    requires
        is_secret_key(key@),
    ensures
        signed.0@ == note_signature(key@, note@).0,
        signed.1@ == note_signature(key@, note@).1,
{
    let draft = OutsideNote {
        pubkey: note.pubkey.clone(),
        created_at: note.created_at,
        kind: note.kind,
        tags: note.tags.clone(),
        content: note.content.clone(),
    };
    let signed = UserKeys::new(&key.secret).unwrap().sign_nostr_event(draft);
    (signed.get_id(), signed.get_sig())
}

/// Trusted: `Nip46Request::respond_to_command`.  The response is encrypted
/// under a random vector and stamped with the current time, so only what the
/// source shows of every outcome is claimed: the kind, the author and the
/// single `p` tag that names the requester.  The call aborts when no shared
/// secret exists with the requester, which `requires` leaves out.
#[verifier::external_body]
fn respond_to_command(key: &SignerKey, command: &Nip46Commands) -> (response: SignedNote)
    requires
        is_secret_key(key@),
        is_public_key(command@.requester()),
    ensures
        is_response_for(response@, key@, command@.requester()),
{
    let request = match command.clone() {
        Nip46Commands::Connect(peer, id) => OutsideCommand::Connect(peer, id),
        Nip46Commands::Ping(peer, id) => OutsideCommand::Ping(peer, id),
        Nip46Commands::SignEvent(peer, id, n) => OutsideCommand::SignEvent(peer, id, OutsideNote { pubkey: n.pubkey, created_at: n.created_at, kind: n.kind, tags: n.tags, content: n.content }),
    };
    let r = Nip46Request::respond_to_command(&UserKeys::new(&key.secret).unwrap(), request);
    SignedNote { id: r.get_id(), pubkey: r.get_pubkey(), created_at: r.get_created_at(), kind: r.get_kind(), tags: r.get_tags(), content: r.get_content(), sig: r.get_sig() }
}

/// Trusted: `UserKeys::decrypt_nip_04_plaintext`.  The shape asked of the
/// payload keeps the call away from the inputs on which it aborts (a vector
/// part shorter than three bytes, or one that decodes to fewer than 16).
/// The call derives the shared point with the peer first and fails without
/// it, so a plaintext comes only from a peer that can be reached.
#[verifier::external_body]
fn nip04_decrypt(key: &SignerKey, peer: &String, payload: &String) -> (text: Option<String>)
    requires
        is_secret_key(key@),
        nip04_shaped(payload@),
    ensures
        match text {
            Some(t) => nip04_plaintext(key@, peer@, payload@) == Some(t@),
            None => nip04_plaintext(key@, peer@, payload@) is None,
        },
        text is Some ==> is_public_key(peer@),
{
    let keys = UserKeys::new(&key.secret).unwrap();
    keys.decrypt_nip_04_plaintext(payload.clone(), peer.clone()).ok()
}

/// Trusted: `UserKeys::decrypt_nip_44_plaintext`, which returns an error on
/// every payload that it cannot read.  It derives the shared point with the
/// peer first and fails without it.
#[verifier::external_body]
fn nip44_decrypt(key: &SignerKey, peer: &String, payload: &String) -> (text: Option<String>)
    requires
        is_secret_key(key@),
    ensures
        match text {
            Some(t) => nip44_plaintext(key@, peer@, payload@) == Some(t@),
            None => nip44_plaintext(key@, peer@, payload@) is None,
        },
        text is Some ==> is_public_key(peer@),
{
    let keys = UserKeys::new(&key.secret).unwrap();
    keys.decrypt_nip_44_plaintext(payload.clone(), peer.clone()).ok()
}

/// Trusted: `serde_json::from_str` at `Nip46Request`, whose three fields are
/// then read back through `serde_json::to_value`.
#[verifier::external_body]
pub(crate) fn parse_request_envelope(text: &String) -> (envelope: Option<RequestEnvelope>)
    ensures
        match envelope {
            Some(e) => request_envelope(text@) == Some(e@),
            None => request_envelope(text@) is None,
        },
{
    let request = serde_json::from_str::<nostro2::nips::nip_46::Nip46Request>(text).ok()?;
    let fields = serde_json::to_value(&request).ok()?;
    let id = fields.get("id")?.as_str()?.to_string();
    let method = fields.get("method")?.as_str()?.to_string();
    let listed = fields.get("params")?.as_array()?;
    let params = listed.iter().map(|p| p.as_str().map(|s| s.to_string())).collect::<Option<Vec<String>>>()?;
    Some(RequestEnvelope { id, method, params })
}

/// Trusted: `serde_json::from_str` at `nostro2::notes::Note`.
#[verifier::external_body]
pub(crate) fn parse_draft_note(text: &String) -> (note: Option<Note>)
    ensures
        match note {
            Some(n) => draft_note_of(text@) == Some(n@),
            None => draft_note_of(text@) is None,
        },
{
    let draft = serde_json::from_str::<nostro2::notes::Note>(text).ok()?;
    Some(Note {
        pubkey: draft.pubkey,
        created_at: draft.created_at,
        kind: draft.kind,
        tags: draft.tags,
        content: draft.content,
    })
}

/// Whether a payload has the NIP-04 shape.
pub fn has_nip04_shape(payload: &String) -> (shaped: bool)
    ensures
        shaped == nip04_shaped(payload@),
{
    let text = payload.as_str();
    if !text.is_ascii() {
        return false;
    }
    let bytes = text.as_bytes();
    proof {
        vstd::string::is_ascii_spec_bytes(text);
    }
    assert(bytes@.len() == payload@.len());
    assert(forall|k: int| 0 <= k < bytes@.len() ==> (bytes@[k] == 63u8 <==> payload@[k] == '?'));
    let n = bytes.len();
    let mut q: usize = 0;
    while q < n && bytes[q] != 63u8
        invariant
            q <= n,
            n == bytes@.len(),
            forall|k: int| 0 <= k < q ==> bytes@[k] != 63u8,
        decreases n - q,
    {
        q += 1;
    }
    if q == n {
        return false;
    }
    assert(payload@[q as int] == '?');
    assert forall|p: int| nip04_split_at(payload@, p) implies p == q by {
        if p != q {
            assert(payload@[q as int] != '?');
        }
    }
    if n - q < 28 {
        return false;
    }
    if bytes[q + 1] != 105u8 || bytes[q + 2] != 118u8 || bytes[q + 3] != 61u8 {
        return false;
    }
    let mut k: usize = q + 1;
    while k < n
        invariant
            q < k <= n,
            n == bytes@.len(),
            n == payload@.len(),
            forall|j: int| 0 <= j < n ==> (bytes@[j] == 63u8 <==> payload@[j] == '?'),
            forall|j: int| q < j < k ==> bytes@[j] != 63u8,
            forall|p: int| nip04_split_at(payload@, p) ==> p == q,
        decreases n - k,
    {
        if bytes[k] == 63u8 {
            assert(payload@[k as int] == '?');
            return false;
        }
        k += 1;
    }
    assert(nip04_split_at(payload@, q as int));
    true
}

/// What can go wrong with key material.
#[derive(Clone, Copy, Debug, PartialEq, Eq, Structural)]
pub enum KeyError {
    /// The text is neither a hex secret, an `nsec` string nor a mnemonic phrase.
    InvalidKeyFormat,
}

impl SignerKey {
    #[verifier::type_invariant]
    spec fn accepted(self) -> bool {
        is_secret_key(self.secret@)
    }

    /// Validates a secret given as hex or as an `nsec` string.
    pub fn parse(secret: &str) -> (out: Result<SignerKey, KeyError>)
        ensures
            out is Ok <==> is_secret_key(secret@),
            out matches Ok(key) ==> key@ == secret@,
            out matches Err(e) ==> e == KeyError::InvalidKeyFormat,
    {
        if secret_key_accepted(secret) {
            Ok(SignerKey { secret: String::from_str(secret) })
        } else {
            Err(KeyError::InvalidKeyFormat)
        }
    }

    /// Makes a key from raw secret bytes, which are written in hex.
    pub fn from_secret_bytes(bytes: &[u8]) -> (out: Result<SignerKey, KeyError>)
        ensures
            out is Ok <==> is_secret_key(hex_string(bytes@)),
            out matches Ok(key) ==> key@ == hex_string(bytes@),
            out matches Err(e) ==> e == KeyError::InvalidKeyFormat,
    {
        let hex = hex_encode(bytes);
        SignerKey::parse(hex.as_str())
    }

    /// Makes a key from a mnemonic phrase.
    pub fn from_mnemonic(phrase: &str) -> (out: Result<SignerKey, KeyError>)
        ensures
            out is Ok <==> (mnemonic_secret(phrase@) matches Some(bytes) && is_secret_key(hex_string(bytes))),
            out matches Ok(key) ==> mnemonic_secret(phrase@) matches Some(bytes) && key@ == hex_string(bytes),
            out matches Err(e) ==> e == KeyError::InvalidKeyFormat,
    {
        match mnemonic_secret_bytes(phrase) {
            Some(bytes) => SignerKey::from_secret_bytes(bytes.as_slice()),
            None => Err(KeyError::InvalidKeyFormat),
        }
    }

    /// Draws a fresh random key: the hex form of 32 drawn bytes, which the
    /// library accepts as a secret.
    pub fn generate() -> (out: Option<SignerKey>)
        ensures
            out is Some,
            exists|bytes: Seq<u8>| bytes.len() == 32 && key_value(out) == #[trigger] key_from_draw(bytes),
            out matches Some(key) ==> key@.len() == 64 && is_secret_key(key@),
    {
        let bytes = fresh_secret_bytes();
        match SignerKey::from_secret_bytes(bytes.as_slice()) {
            Ok(key) => {
                assert(key_value(Some(key)) == key_from_draw(bytes@));
                Some(key)
            },
            Err(_) => {
                assert(key_value(None) == key_from_draw(bytes@));
                None
            },
        }
    }

    /// Decrypts the payload of a request sent by `peer`.
    pub fn decrypt_request(&self, peer: &String, payload: &String) -> (text: Option<String>)
        ensures
            match text {
                Some(t) => request_plaintext(self@, peer@, payload@) == Some(t@),
                None => request_plaintext(self@, peer@, payload@) is None,
            },
            text is Some ==> is_public_key(peer@),
    {
        proof {
            use_type_invariant(self);
        }
        if has_nip04_shape(payload) {
            match nip04_decrypt(self, peer, payload) {
                Some(text) => {
                    return Some(text);
                },
                None => {},
            }
        }
        nip44_decrypt(self, peer, payload)
    }

    /// Signs a draft note.
    pub fn sign(&self, note: &Note) -> (signed: SignedNote)
        ensures
            signed@ == signed_with(self@, note@),
    {
        proof {
            use_type_invariant(self);
        }
        let (id, sig) = sign_draft(self, note);
        SignedNote {
            id,
            pubkey: note.pubkey.clone(),
            created_at: note.created_at,
            kind: note.kind,
            tags: copy_tags(&note.tags),
            content: note.content.clone(),
            sig,
        }
    }

    /// Encodes the response to a command, unless no shared secret exists
    /// with the requester.
    pub fn respond(&self, command: &Nip46Commands) -> (response: Option<SignedNote>)
        ensures
            response is Some <==> is_public_key(command@.requester()),
            response matches Some(note) ==> is_response_for(note@, self@, command@.requester()),
    {
        proof {
            use_type_invariant(self);
        }
        if shared_point_exists(self, command.requester()) {
            Some(respond_to_command(self, command))
        } else {
            None
        }
    }

    /// A copy of the key.
    pub fn duplicate(&self) -> (copy: SignerKey)
        ensures
            copy@ == self@,
    {
        proof {
            use_type_invariant(self);
        }
        SignerKey { secret: self.secret.clone() }
    }

    /// The secret as it was given, for the durable store.
    pub fn expose_secret(&self) -> (secret: &String)
        ensures
            secret@ == self@,
    {
        &self.secret
    }

    /// The 32 bytes of the secret.
    pub fn secret_bytes(&self) -> (bytes: Vec<u8>)
        ensures
            bytes@ == secret_bytes_of(self@),
            bytes@.len() == 32,
    {
        proof {
            use_type_invariant(self);
        }
        export_secret_bytes(self)
    }

    /// The secret in hex, for export.
    pub fn secret_hex(&self) -> (hex: String)
        ensures
            hex@ == hex_string(secret_bytes_of(self@)),
            hex@.len() == 64,
    {
        let bytes = self.secret_bytes();
        hex_encode(bytes.as_slice())
    }

    /// The secret in bech32 form, for export.
    pub fn nsec(&self) -> (nsec: String)
        ensures
            nsec@ == nsec_of(self@),
    {
        proof {
            use_type_invariant(self);
        }
        export_nsec(self)
    }

    /// The secret as an English mnemonic phrase, for export.
    pub fn mnemonic_phrase(&self) -> (phrase: String)
        ensures
            phrase@ == mnemonic_of(self@),
    {
        proof {
            use_type_invariant(self);
        }
        export_mnemonic(self)
    }

    /// The secret as a Spanish mnemonic phrase, for export.
    pub fn mnemonic_spanish(&self) -> (phrase: String)
        ensures
            phrase@ == spanish_mnemonic_of(self@),
    {
        proof {
            use_type_invariant(self);
        }
        export_spanish_mnemonic(self)
    }

    /// The hex public key.
    pub fn public_key(&self) -> (public: String)
        ensures
            public@ == public_key_of(self@),
    {
        proof {
            use_type_invariant(self);
        }
        derive_public_key(self)
    }

    /// The public key in bech32 form.
    pub fn npub(&self) -> (npub: String)
        ensures
            npub@ == npub_of(self@),
    {
        proof {
            use_type_invariant(self);
        }
        derive_npub(self)
    }
}

/// The key that a draw of secret bytes yields: the bytes in hex where the
/// library accepts them as a secret, and none where it does not.
pub open spec fn key_from_draw(bytes: Seq<u8>) -> Option<Seq<char>> {
    if is_secret_key(hex_string(bytes)) {
        Some(hex_string(bytes))
    } else {
        None
    }
}

/// The value of an optional key.
pub open spec fn key_value(key: Option<SignerKey>) -> Option<Seq<char>> {
    match key {
        Some(k) => Some(k@),
        None => None,
    }
}

} // verus!
