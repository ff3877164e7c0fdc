//! The session layer of a browser-resident NIP-46 remote signer.
//!
//! The crate holds the state machines and rules of the signer: the relay
//! configuration list, the archive of signed notes, the key store, the
//! per-relay actor with its single pending request, the pool of actors and the
//! router that turns a user's decision into a response.  Every function is
//! stated over a mathematical view of its data and proved against it.
//! Cryptography and JSON are done by `nostro2` and `serde_json`, reached
//! through the small trusted functions of the `signer` module; dates are
//! written by `chrono`.

pub mod bunker_connect;
pub mod dates;
pub mod hex;
pub mod nip46;
pub mod notes;
pub mod relay_component;
pub mod relay_notifier;
pub mod relay_pool;
pub mod signer;
pub mod storage;
pub mod text;
pub mod user_keys;
pub mod user_notes;
pub mod user_relays;
