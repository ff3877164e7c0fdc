use nostr_bunker::hex::hex_encode;
use nostr_bunker::signer::{KeyError, SignerKey};
use nostr_bunker::storage::{IdbDocument, IdbStores, StoreEffect};
use nostr_bunker::user_keys::{import_key, NostrKeyAction, NostrKeys};
use nostro2::userkeys::UserKeys;

const SECRET_HEX: &str = "a992011980303ea8c43f66087634283026e7796e7fcea8b61710239e19ee28c8";
const SECRET_NSEC: &str = "nsec14xfqzxvqxql233plvcy8vdpgxqnww7tw0l823dshzq3eux0w9ryqulcv53";
const PUBLIC_HEX: &str = "689403d3808274889e371cfe53c2d78eb05743a964cc60d3b2e55824e8fe740a";
const NPUB: &str = "npub1dz2q85uqsf6g383hrnl98skh36c9wsafvnxxp5aju4vzf687ws9q7zr8df";

#[test]
fn hex_encode_writes_two_lower_case_digits_per_byte() {
    assert_eq!(hex_encode(&[]), "");
    assert_eq!(hex_encode(&[0x00, 0xff, 0x1a, 0xa1, 0x09]), "00ff1aa109");
    assert_eq!(hex_encode(&[0x10, 0x01]), "1001");
}

#[test]
fn empty_store_has_no_key_and_empty_public_keys() {
    let keys = NostrKeys::new();
    assert!(!keys.has_keys());
    assert_eq!(keys.get_pubkey(), "");
    assert_eq!(keys.get_npub(), "");
    assert!(keys.key().is_none());
}

#[test]
fn parse_accepts_hex_and_nsec_and_derives_the_known_public_key() {
    let from_hex = SignerKey::parse(SECRET_HEX).unwrap();
    assert_eq!(from_hex.public_key(), PUBLIC_HEX);
    assert_eq!(from_hex.npub(), NPUB);
    assert_eq!(from_hex.expose_secret(), SECRET_HEX);
    let from_nsec = SignerKey::parse(SECRET_NSEC).unwrap();
    assert_eq!(from_nsec.public_key(), PUBLIC_HEX);
    assert_eq!(from_nsec.npub(), NPUB);
}

#[test]
fn parse_refuses_what_is_no_key() {
    assert_eq!(SignerKey::parse("bad-string").err(), Some(KeyError::InvalidKeyFormat));
    assert_eq!(SignerKey::parse("").err(), Some(KeyError::InvalidKeyFormat));
    assert_eq!(SignerKey::parse("nsec1notakey").err(), Some(KeyError::InvalidKeyFormat));
    assert_eq!(SignerKey::parse(&SECRET_HEX[..62]).err(), Some(KeyError::InvalidKeyFormat));
}

#[test]
fn from_secret_bytes_goes_through_hex() {
    let bytes = UserKeys::new_extractable(SECRET_HEX).unwrap().get_secret_key();
    let key = SignerKey::from_secret_bytes(&bytes).unwrap();
    assert_eq!(key.expose_secret(), SECRET_HEX);
    assert_eq!(key.public_key(), PUBLIC_HEX);
    assert_eq!(SignerKey::from_secret_bytes(&[0u8; 32]).err(), Some(KeyError::InvalidKeyFormat));
    assert_eq!(SignerKey::from_secret_bytes(&[1u8; 5]).err(), Some(KeyError::InvalidKeyFormat));
}

#[test]
fn mnemonic_import_yields_the_key_behind_the_phrase() {
    let known = UserKeys::new_extractable(SECRET_HEX).unwrap();
    let english = known.get_mnemonic_phrase();
    let spanish = known.get_mnemonic_spanish();
    assert_eq!(SignerKey::from_mnemonic(&english).unwrap().expose_secret(), SECRET_HEX);
    assert_eq!(SignerKey::from_mnemonic(&spanish).unwrap().public_key(), PUBLIC_HEX);
    assert_eq!(SignerKey::from_mnemonic("not a phrase at all").err(), Some(KeyError::InvalidKeyFormat));
    assert_eq!(import_key(&english).unwrap().public_key(), PUBLIC_HEX);
    assert_eq!(import_key(SECRET_NSEC).unwrap().expose_secret(), SECRET_NSEC);
}

#[test]
fn import_of_a_bad_string_fails_and_changes_nothing() {
    let (keys, error) = NostrKeys::new().reduce(NostrKeyAction::UserImport("bad-string".to_string())).unwrap_err();
    assert_eq!(error, KeyError::InvalidKeyFormat);
    assert!(!keys.has_keys());
    assert_eq!(keys.get_pubkey(), "");

    let (loaded, _) = keys.reduce(NostrKeyAction::UserImport(SECRET_HEX.to_string())).unwrap();
    let (kept, error) = loaded.reduce(NostrKeyAction::UserImport("bad-string".to_string())).unwrap_err();
    assert_eq!(error, KeyError::InvalidKeyFormat);
    assert!(kept.has_keys());
    assert_eq!(kept.get_pubkey(), PUBLIC_HEX);
    assert_eq!(kept.key().unwrap().expose_secret(), SECRET_HEX);
}

#[test]
fn import_replaces_the_key_and_asks_for_one_write() {
    let (keys, effects) = NostrKeys::new().reduce(NostrKeyAction::UserImport(SECRET_HEX.to_string())).unwrap();
    assert!(keys.has_keys());
    assert_eq!(keys.get_pubkey(), PUBLIC_HEX);
    assert_eq!(keys.get_npub(), NPUB);
    assert_eq!(effects.len(), 1);
    match &effects[0] {
        StoreEffect::Put(IdbStores::UserKeys(true), IdbDocument::UserKey(key)) => {
            assert_eq!(key.expose_secret(), SECRET_HEX);
        }
        other => panic!("unexpected effect {:?}", other),
    }
}

#[test]
fn retrieve_installs_the_key_without_a_write() {
    let stored = SignerKey::parse(SECRET_HEX).unwrap();
    let (keys, effects) = NostrKeys::new().reduce(NostrKeyAction::RetrieveKey(stored)).unwrap();
    assert_eq!(keys.get_pubkey(), PUBLIC_HEX);
    assert!(effects.is_empty());
}

#[test]
fn generate_installs_a_fresh_key_and_persists_it() {
    let (first, effects) = NostrKeys::new().reduce(NostrKeyAction::GenerateNewKey).unwrap();
    assert!(first.has_keys());
    assert_eq!(first.get_pubkey().len(), 64);
    assert_eq!(effects.len(), 1);
    match &effects[0] {
        StoreEffect::Put(IdbStores::UserKeys(true), IdbDocument::UserKey(key)) => {
            assert_eq!(key.expose_secret().len(), 64);
            assert_eq!(key.public_key(), first.get_pubkey());
        }
        other => panic!("unexpected effect {:?}", other),
    }
    let (second, _) = first.clone().reduce(NostrKeyAction::GenerateNewKey).unwrap();
    assert!(second.has_keys());
    assert_ne!(first.get_pubkey(), second.get_pubkey());
    for _ in 0..16 {
        assert!(SignerKey::generate().is_some());
    }
}

#[test]
fn delete_clears_the_key_and_deletes_the_record() {
    let (keys, _) = NostrKeys::new().reduce(NostrKeyAction::UserImport(SECRET_HEX.to_string())).unwrap();
    let (keys, effects) = keys.reduce(NostrKeyAction::DeleteKey("privateKey".to_string())).unwrap();
    assert!(!keys.has_keys());
    assert_eq!(keys.get_pubkey(), "");
    assert_eq!(effects.len(), 1);
    match &effects[0] {
        StoreEffect::Delete(IdbStores::UserKeys(true), key) => assert_eq!(key, "privateKey"),
        other => panic!("unexpected effect {:?}", other),
    }
}

#[test]
fn store_names_and_record_keys_follow_the_schema() {
    assert_eq!(IdbStores::UserKeys(true).to_string(), "userKeys");
    assert_eq!(IdbStores::UserKeys(false).to_string(), "userKeys");
    assert_eq!(IdbStores::UserRelays.to_string(), "userRelays");
    assert_eq!(IdbStores::UserNotes.to_string(), "userNotes");
    assert_eq!(IdbStores::UserKeys(true).key_path(), None);
    assert_eq!(IdbStores::UserRelays.key_path(), Some("url".to_string()));
    assert_eq!(IdbStores::UserNotes.key_path(), Some("id".to_string()));
    let record = IdbDocument::UserKey(SignerKey::parse(SECRET_HEX).unwrap());
    assert_eq!(record.key(), "privateKey");
    assert!(matches!(record.store(), IdbStores::UserKeys(true)));
}

#[test]
fn the_key_line_shows_the_head_of_the_npub() {
    assert_eq!(NostrKeys::new().key_details(), "No Key Found");
    let (keys, _) = NostrKeys::new().reduce(NostrKeyAction::UserImport(SECRET_HEX.to_string())).unwrap();
    assert_eq!(keys.key_details(), "Signing as npub1dz2q85uqsf6...");
}

#[test]
fn a_key_is_exported_in_every_form() {
    let key = SignerKey::parse(SECRET_NSEC).unwrap();
    assert_eq!(key.secret_hex(), SECRET_HEX);
    assert_eq!(key.secret_bytes().len(), 32);
    assert_eq!(hex_encode(&key.secret_bytes()), SECRET_HEX);
    assert_eq!(key.nsec(), SECRET_NSEC);
    assert_eq!(SignerKey::parse(SECRET_HEX).unwrap().nsec(), SECRET_NSEC);
    let english = key.mnemonic_phrase();
    let spanish = key.mnemonic_spanish();
    assert_eq!(english.split(' ').count(), 24);
    assert_eq!(spanish.split(' ').count(), 24);
    assert_ne!(english, spanish);
    assert_eq!(SignerKey::from_mnemonic(&english).unwrap().expose_secret(), SECRET_HEX);
    assert_eq!(SignerKey::from_mnemonic(&spanish).unwrap().expose_secret(), SECRET_HEX);
}
