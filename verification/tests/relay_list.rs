use nostr_bunker::storage::{IdbDocument, IdbStores, StoreEffect};
use nostr_bunker::user_relays::{
    ensure_scheme, new_relay, normalize_relay_url, relay_host, remove_relay, toggle_read, toggle_write,
    AddRelayError, NostrRelayList, RelayListAction, UserRelay,
};

fn relay(url: &str, read: bool, write: bool) -> UserRelay {
    UserRelay { url: url.to_string(), read, write }
}

fn listed(relays: Vec<UserRelay>) -> NostrRelayList {
    NostrRelayList::new().reduce(RelayListAction::InitRelays(relays)).0
}

#[test]
fn init_appends_in_order_and_writes_nothing() {
    let list = listed(vec![relay("wss://a", true, true)]);
    let (list, effects) = list.reduce(RelayListAction::InitRelays(vec![
        relay("wss://b", true, false),
        relay("wss://c", false, true),
    ]));
    assert!(effects.is_empty());
    assert_eq!(
        list.get_relays(),
        vec![relay("wss://a", true, true), relay("wss://b", true, false), relay("wss://c", false, true)]
    );
    assert_eq!(list.len(), 3);
}

#[test]
fn add_puts_the_relay_in_front_and_persists_it() {
    let list = listed(vec![relay("wss://a", true, true)]);
    let (list, effects) = list.reduce(RelayListAction::AddRelay(relay("wss://b", true, true)));
    assert_eq!(list.get_relays(), vec![relay("wss://b", true, true), relay("wss://a", true, true)]);
    assert_eq!(effects.len(), 1);
    match &effects[0] {
        StoreEffect::Put(IdbStores::UserRelays, IdbDocument::UserRelay(r)) => {
            assert_eq!(r, &relay("wss://b", true, true));
        }
        other => panic!("unexpected effect {:?}", other),
    }
}

#[test]
fn adding_a_listed_address_replaces_its_entry() {
    let list = listed(vec![relay("wss://a", true, true), relay("wss://b", true, false), relay("wss://c", true, true)]);
    let (list, effects) = list.reduce(RelayListAction::AddRelay(relay("wss://b", false, true)));
    assert_eq!(
        list.get_relays(),
        vec![relay("wss://b", false, true), relay("wss://a", true, true), relay("wss://c", true, true)]
    );
    assert_eq!(effects.len(), 1);
    match &effects[0] {
        StoreEffect::Put(IdbStores::UserRelays, IdbDocument::UserRelay(r)) => {
            assert_eq!(r, &relay("wss://b", false, true));
        }
        other => panic!("unexpected effect {:?}", other),
    }
    let (list, _) = list.reduce(RelayListAction::AddRelay(relay("wss://b", false, true)));
    assert_eq!(list.len(), 3);
}

#[test]
fn hydration_skips_addresses_that_are_listed() {
    let list = listed(vec![relay("wss://a", true, true), relay("wss://a", false, false), relay("wss://b", true, true)]);
    assert_eq!(list.get_relays(), vec![relay("wss://a", true, true), relay("wss://b", true, true)]);
    let (list, effects) = list.reduce(RelayListAction::InitRelays(vec![
        relay("wss://b", false, false),
        relay("wss://c", false, true),
        relay("wss://c", true, true),
    ]));
    assert!(effects.is_empty());
    assert_eq!(
        list.get_relays(),
        vec![relay("wss://a", true, true), relay("wss://b", true, true), relay("wss://c", false, true)]
    );
}

#[test]
fn remove_takes_out_the_entry_of_the_address() {
    let list = listed(vec![relay("wss://a", true, true), relay("wss://b", true, false), relay("wss://c", true, true)]);
    let (list, effects) = list.reduce(RelayListAction::RemoveRelay(relay("wss://a", false, false)));
    assert_eq!(list.get_relays(), vec![relay("wss://b", true, false), relay("wss://c", true, true)]);
    assert_eq!(effects.len(), 1);
    match &effects[0] {
        StoreEffect::Delete(IdbStores::UserRelays, key) => assert_eq!(key, "wss://a"),
        other => panic!("unexpected effect {:?}", other),
    }
    let (list, _) = list.reduce(RelayListAction::RemoveRelay(relay("wss://zzz", true, true)));
    assert_eq!(list.len(), 2);
}

#[test]
fn modify_sets_the_flags_of_the_entry_of_the_address() {
    let list = listed(vec![relay("wss://a", true, true), relay("wss://b", true, true), relay("wss://c", true, true)]);
    let (list, effects) = list.reduce(RelayListAction::ModifyRelay(relay("wss://b", false, true)));
    assert_eq!(
        list.get_relays(),
        vec![relay("wss://a", true, true), relay("wss://b", false, true), relay("wss://c", true, true)]
    );
    match &effects[0] {
        StoreEffect::Put(IdbStores::UserRelays, IdbDocument::UserRelay(r)) => {
            assert_eq!(r, &relay("wss://b", false, true));
        }
        other => panic!("unexpected effect {:?}", other),
    }
    let (list, effects) = list.reduce(RelayListAction::ModifyRelay(relay("wss://nowhere", false, false)));
    assert_eq!(list.len(), 3);
    assert_eq!(list.get_relays()[0], relay("wss://a", true, true));
    assert_eq!(effects.len(), 1);
}

#[test]
fn an_empty_address_is_refused() {
    assert_eq!(normalize_relay_url("").err(), Some(AddRelayError::EmptyUrl));
    assert_eq!(AddRelayError::EmptyUrl.to_string(), "URL cannot be empty!");
    assert_eq!(AddRelayError::InvalidAddress.to_string(), "Invalid relay address!");
}

#[test]
fn an_address_is_lower_cased_and_given_the_scheme_once() {
    assert_eq!(normalize_relay_url("Relay.Example.COM").unwrap(), "wss://relay.example.com");
    assert_eq!(normalize_relay_url("wss://relay.example.com").unwrap(), "wss://relay.example.com");
    assert_eq!(normalize_relay_url("WSS://Relay.Example.com").unwrap(), "wss://relay.example.com");
    assert_eq!(normalize_relay_url("ws://x").unwrap(), "wss://ws://x");
    assert_eq!(normalize_relay_url("wss:/").unwrap(), "wss://wss:/");
    assert_eq!(ensure_scheme("wss://".to_string()), "wss://");
    assert_eq!(ensure_scheme("é".to_string()), "wss://é");
}

#[test]
fn a_reachable_relay_is_added_with_both_flags() {
    match new_relay("wss://a".to_string(), true).unwrap() {
        RelayListAction::AddRelay(r) => assert_eq!(r, relay("wss://a", true, true)),
        other => panic!("unexpected action {:?}", other),
    }
    assert_eq!(new_relay("wss://a".to_string(), false).err(), Some(AddRelayError::InvalidAddress));
}

#[test]
fn toggles_flip_one_flag_and_removal_needs_confirmation() {
    let r = relay("wss://a", true, false);
    match toggle_read(&r) {
        RelayListAction::ModifyRelay(m) => assert_eq!(m, relay("wss://a", false, false)),
        other => panic!("unexpected action {:?}", other),
    }
    match toggle_write(&r) {
        RelayListAction::ModifyRelay(m) => assert_eq!(m, relay("wss://a", true, true)),
        other => panic!("unexpected action {:?}", other),
    }
    assert!(remove_relay(&r, false).is_none());
    match remove_relay(&r, true) {
        Some(RelayListAction::RemoveRelay(m)) => assert_eq!(m, r),
        other => panic!("unexpected action {:?}", other),
    }
}

#[test]
fn the_listed_address_has_no_scheme() {
    assert_eq!(relay_host(&"wss://relay.example.com".to_string()), "relay.example.com");
    assert_eq!(relay_host(&"wss://".to_string()), "");
    assert_eq!(relay_host(&"relay".to_string()), "relay");
}
