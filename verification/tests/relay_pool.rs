use nostr_bunker::bunker_connect::{bunker_connect, bunker_url};
use nostr_bunker::nip46::Nip46Commands;
use nostr_bunker::notes::SignedNote;
use nostr_bunker::relay_component::{ActorPhase, RelayAction, RelayEvents};
use nostr_bunker::relay_notifier::{decide, is_offered, prompt_for, resolve, Decision, Prompt, RouterError};
use nostr_bunker::relay_pool::{waiting_message, LinkOrder, RelayPool};
use nostr_bunker::storage::{IdbDocument, IdbStores, StoreEffect};
use nostr_bunker::user_keys::{NostrKeyAction, NostrKeys};
use nostr_bunker::user_notes::UserNotes;
use nostr_bunker::user_relays::{NostrRelayList, RelayListAction, UserRelay};
use nostro2::nips::nip_46::Nip46Request;
use nostro2::userkeys::UserKeys;

const SIGNER_SECRET: &str = "341fe1a3b23d0f1660a70e0395fcd7d09a73ff041a4a2cf4d0760b721eb14c55";
const CLIENT_SECRET: &str = "a992011980303ea8c43f66087634283026e7796e7fcea8b61710239e19ee28c8";
const CLIENT_PUBLIC: &str = "689403d3808274889e371cfe53c2d78eb05743a964cc60d3b2e55824e8fe740a";

fn relay(url: &str, read: bool, write: bool) -> UserRelay {
    UserRelay { url: url.to_string(), read, write }
}

fn listed(relays: Vec<UserRelay>) -> NostrRelayList {
    NostrRelayList::new().reduce(RelayListAction::InitRelays(relays)).0
}

fn loaded_keys() -> NostrKeys {
    NostrKeys::new().reduce(NostrKeyAction::UserImport(SIGNER_SECRET.to_string())).unwrap().0
}

fn request_id_of(request: &SignedNote) -> String {
    match loaded_keys().extract_nip46_command(request) {
        Ok(command) => command.request_id().clone(),
        Err(e) => panic!("the request does not decode: {:?}", e),
    }
}

fn plain(note: nostro2::notes::SignedNote) -> SignedNote {
    SignedNote {
        id: note.get_id(),
        pubkey: note.get_pubkey(),
        created_at: note.get_created_at(),
        kind: note.get_kind(),
        tags: note.get_tags(),
        content: note.get_content(),
        sig: note.get_sig(),
    }
}

fn sign_request(content: &str) -> SignedNote {
    let keys = loaded_keys();
    let draft = nostro2::notes::Note {
        pubkey: keys.get_pubkey(),
        created_at: 1_700_000_000,
        kind: 1,
        tags: vec![],
        content: content.to_string(),
    };
    plain(Nip46Request::sign_event_request(draft, &UserKeys::new(CLIENT_SECRET).unwrap()))
}

fn ping_request() -> SignedNote {
    plain(Nip46Request::ping_request(&UserKeys::new(CLIENT_SECRET).unwrap(), loaded_keys().get_pubkey()))
}

fn event(note: SignedNote) -> RelayAction {
    RelayAction::RelayMessage(RelayEvents::EVENT("sub".to_string(), note))
}

fn urls(orders: &[LinkOrder]) -> Vec<String> {
    orders
        .iter()
        .map(|o| match o {
            LinkOrder::Open(url) => format!("open {}", url),
            LinkOrder::Close(url) => format!("close {}", url),
        })
        .collect()
}

fn open_pool(relays: Vec<UserRelay>) -> RelayPool {
    let keys = NostrKeys::new();
    let mut pool = RelayPool::new();
    let list = listed(relays);
    pool.rebuild(&list);
    for r in list.get_relays() {
        pool.deliver(&keys, &r.url, RelayAction::LinkOpened);
    }
    pool
}

#[test]
fn the_pool_has_one_actor_for_each_served_relay() {
    let mut pool = RelayPool::new();
    assert_eq!(pool.len(), 0);
    let list = listed(vec![
        relay("wss://a", true, true),
        relay("wss://off", false, false),
        relay("wss://b", true, false),
        relay("wss://c", false, true),
    ]);
    let orders = pool.rebuild(&list);
    assert_eq!(urls(&orders), vec!["open wss://a", "open wss://b", "open wss://c"]);
    assert_eq!(pool.len(), 3);
    assert_eq!(pool.active_count(), 0);
    assert!(pool.find(&"wss://off".to_string()).is_none());
    assert_eq!(pool.find(&"wss://b".to_string()), Some(1));
}

#[test]
fn a_rebuild_closes_every_live_actor_before_it_opens_the_new_ones() {
    let keys = NostrKeys::new();
    let mut pool = RelayPool::new();
    pool.rebuild(&listed(vec![relay("wss://a", true, true), relay("wss://b", true, true), relay("wss://c", true, true)]));
    pool.deliver(&keys, &"wss://a".to_string(), RelayAction::LinkOpened);
    pool.deliver(&keys, &"wss://b".to_string(), RelayAction::LinkFailed);
    assert_eq!(pool.active_count(), 1);
    let orders = pool.rebuild(&listed(vec![relay("wss://c", true, true), relay("wss://d", false, true)]));
    assert_eq!(urls(&orders), vec!["close wss://a", "close wss://c", "open wss://c", "open wss://d"]);
    assert_eq!(pool.len(), 2);
    assert_eq!(pool.active_count(), 0);
}

#[test]
fn close_all_closes_each_actor_once() {
    let mut pool = open_pool(vec![relay("wss://a", true, true), relay("wss://b", true, true)]);
    assert_eq!(pool.active_count(), 2);
    assert_eq!(urls(&pool.close_all()), vec!["close wss://a", "close wss://b"]);
    assert_eq!(pool.active_count(), 0);
    assert_eq!(pool.len(), 2);
    assert!(pool.close_all().is_empty());
}

#[test]
fn requests_on_different_relays_wait_side_by_side() {
    let keys = loaded_keys();
    let mut pool = open_pool(vec![relay("wss://a", true, true), relay("wss://b", true, true)]);
    pool.deliver(&keys, &"wss://b".to_string(), event(sign_request("from b")));
    pool.deliver(&keys, &"wss://a".to_string(), event(ping_request()));
    let pending = pool.pending_requests();
    assert_eq!(pending.len(), 2);
    assert_eq!(pending[0].source_relay, "wss://a");
    assert!(matches!(pending[0].command, Nip46Commands::Ping(_, _)));
    assert_eq!(pending[1].source_relay, "wss://b");
    assert!(matches!(pending[1].command, Nip46Commands::SignEvent(_, _, _)));

    let asked = pending[0].command.request_id().clone();
    let out = pool.resolve(&keys, UserNotes::new(), &"wss://a".to_string(), Decision::Approve);
    assert!(out.error.is_none());
    assert_eq!(out.send.map(|r| r.request_id), Some(asked));
    assert_eq!(out.notes.len(), 0);
    assert!(out.effects.is_empty());
    let pending = pool.pending_requests();
    assert_eq!(pending.len(), 1);
    assert_eq!(pending[0].source_relay, "wss://b");
}

#[test]
fn a_read_only_relay_drops_the_signed_response_and_clears_the_request() {
    let keys = loaded_keys();
    let mut pool = open_pool(vec![relay("wss://a", true, true), relay("wss://b", true, false)]);
    pool.deliver(&keys, &"wss://b".to_string(), event(sign_request("sign on b")));
    assert_eq!(pool.pending_requests().len(), 1);
    assert_eq!(pool.pending_requests()[0].source_relay, "wss://b");

    let out = pool.resolve(&keys, UserNotes::new(), &"wss://b".to_string(), Decision::Sign);
    assert!(out.error.is_none());
    assert!(out.send.is_none());
    assert!(out.effects.is_empty());
    assert_eq!(out.notes.len(), 0);
    assert!(pool.pending_requests().is_empty());
}

#[test]
fn sign_and_save_answers_and_archives_exactly_one_note() {
    let keys = loaded_keys();
    let mut pool = open_pool(vec![relay("wss://a", true, true)]);
    pool.deliver(&keys, &"wss://a".to_string(), event(sign_request("archive me")));
    let out = pool.resolve(&keys, UserNotes::new(), &"wss://a".to_string(), Decision::SignAndSave);
    assert!(out.error.is_none());
    let sent = out.send.unwrap();
    assert!(sent.request_id.starts_with("nostro2-"));
    assert_eq!(sent.note.kind, 24133);
    assert_eq!(sent.note.pubkey, keys.get_pubkey());
    assert_eq!(sent.note.tags, vec![vec!["p".to_string(), CLIENT_PUBLIC.to_string()]]);
    assert_eq!(out.notes.len(), 1);
    let archived = &out.notes.get_notes()[0];
    assert_eq!(archived.content, "archive me");
    assert_eq!(archived.pubkey, keys.get_pubkey());
    assert_eq!(out.effects.len(), 1);
    match &out.effects[0] {
        StoreEffect::Put(IdbStores::UserNotes, IdbDocument::UserNote(n)) => assert_eq!(n.id, archived.id),
        other => panic!("unexpected effect {:?}", other),
    }
    assert!(pool.pending_requests().is_empty());

    let request = sign_request("only sign");
    let asked = request_id_of(&request);
    let shown = pool.deliver(&keys, &"wss://a".to_string(), event(request));
    assert!(shown.render);
    assert!(!pool.deliver(&keys, &"wss://nowhere".to_string(), RelayAction::ClearNote).render);
    let out = pool.resolve(&keys, out.notes, &"wss://a".to_string(), Decision::Sign);
    assert_eq!(out.send.map(|r| r.request_id), Some(asked));
    assert_eq!(out.notes.len(), 1);
    assert!(out.effects.is_empty());
}

#[test]
fn a_rejection_sends_nothing_and_clears() {
    let keys = loaded_keys();
    let mut pool = open_pool(vec![relay("wss://a", true, true)]);
    pool.deliver(&keys, &"wss://a".to_string(), event(ping_request()));
    let out = pool.resolve(&keys, UserNotes::new(), &"wss://a".to_string(), Decision::Reject);
    assert!(out.error.is_none());
    assert!(out.send.is_none());
    assert!(pool.pending_requests().is_empty());
}

#[test]
fn a_decision_that_is_not_offered_changes_nothing() {
    let keys = loaded_keys();
    let mut pool = open_pool(vec![relay("wss://a", true, true)]);
    pool.deliver(&keys, &"wss://a".to_string(), event(ping_request()));
    for decision in [Decision::Sign, Decision::SignAndSave] {
        let out = pool.resolve(&keys, UserNotes::new(), &"wss://a".to_string(), decision);
        assert_eq!(out.error, Some(RouterError::DecisionNotOffered));
        assert!(out.send.is_none());
        assert_eq!(pool.pending_requests().len(), 1);
    }
    pool.deliver(&keys, &"wss://a".to_string(), event(sign_request("x")));
    let out = pool.resolve(&keys, UserNotes::new(), &"wss://a".to_string(), Decision::Approve);
    assert_eq!(out.error, Some(RouterError::DecisionNotOffered));
    assert_eq!(pool.pending_requests().len(), 1);
}

#[test]
fn without_a_request_or_an_actor_nothing_is_pending() {
    let keys = loaded_keys();
    let mut pool = open_pool(vec![relay("wss://a", true, true)]);
    let out = pool.resolve(&keys, UserNotes::new(), &"wss://a".to_string(), Decision::Approve);
    assert_eq!(out.error, Some(RouterError::NothingPending));
    let out = pool.resolve(&keys, UserNotes::new(), &"wss://nowhere".to_string(), Decision::Reject);
    assert_eq!(out.error, Some(RouterError::NothingPending));
    assert!(out.send.is_none() && out.effects.is_empty());
}

#[test]
fn a_missing_key_drops_the_request() {
    let keys = loaded_keys();
    let mut pool = open_pool(vec![relay("wss://a", true, true)]);
    pool.deliver(&keys, &"wss://a".to_string(), event(ping_request()));
    let (no_keys, _) = keys.reduce(NostrKeyAction::DeleteKey("privateKey".to_string())).unwrap();
    let out = pool.resolve(&no_keys, UserNotes::new(), &"wss://a".to_string(), Decision::Approve);
    assert_eq!(out.error, Some(RouterError::SigningUnavailable));
    assert!(out.send.is_none());
    assert!(pool.pending_requests().is_empty());
}

#[test]
fn a_removed_relay_takes_no_more_events() {
    let keys = loaded_keys();
    let list = listed(vec![relay("wss://a", true, true), relay("wss://b", true, true)]);
    let mut pool = RelayPool::new();
    pool.rebuild(&list);
    pool.deliver(&keys, &"wss://a".to_string(), RelayAction::LinkOpened);
    pool.deliver(&keys, &"wss://b".to_string(), RelayAction::LinkOpened);
    let (list, _) = list.reduce(RelayListAction::RemoveRelay(relay("wss://b", true, true)));
    let orders = pool.rebuild(&list);
    assert_eq!(urls(&orders), vec!["close wss://a", "close wss://b", "open wss://a"]);
    pool.deliver(&keys, &"wss://a".to_string(), RelayAction::LinkOpened);
    let out = pool.deliver(&keys, &"wss://b".to_string(), event(ping_request()));
    assert!(out.send.is_none());
    assert!(pool.pending_requests().is_empty());
    assert!(pool.find(&"wss://b".to_string()).is_none());
    assert_eq!(pool.len(), 1);
}

#[test]
fn an_event_reaches_only_the_actor_of_its_relay() {
    let keys = loaded_keys();
    let mut pool = open_pool(vec![relay("wss://a", true, true), relay("wss://b", false, true)]);
    pool.deliver(&keys, &"wss://b".to_string(), event(ping_request()));
    assert!(pool.pending_requests().is_empty());
    pool.deliver(&keys, &"wss://a".to_string(), event(ping_request()));
    let pending = pool.pending_requests();
    assert_eq!(pending.len(), 1);
    assert_eq!(pending[0].source_relay, "wss://a");
    pool.deliver(&keys, &"wss://a".to_string(), event(SignedNote {
        id: String::new(),
        pubkey: CLIENT_PUBLIC.to_string(),
        created_at: 0,
        kind: 24133,
        tags: vec![],
        content: "undecodable".to_string(),
        sig: String::new(),
    }));
    assert_eq!(pool.pending_requests().len(), 1);
}

#[test]
fn the_router_decides_by_command_and_decision() {
    let keys = loaded_keys();
    let ping = Nip46Commands::Ping(CLIENT_PUBLIC.to_string(), "p1".to_string());
    assert!(is_offered(&ping, Decision::Approve));
    assert!(is_offered(&ping, Decision::Reject));
    assert!(!is_offered(&ping, Decision::Sign));
    assert!(!is_offered(&ping, Decision::SignAndSave));
    let verdict = decide(&keys, &ping, Decision::Approve).unwrap();
    assert_eq!(verdict.response.unwrap().request_id, "p1");
    assert!(verdict.archive.is_none());
    let verdict = decide(&keys, &ping, Decision::Reject).unwrap();
    assert!(verdict.response.is_none() && verdict.archive.is_none());
    assert_eq!(decide(&keys, &ping, Decision::Sign).err(), Some(RouterError::DecisionNotOffered));
    assert_eq!(decide(&NostrKeys::new(), &ping, Decision::Approve).err(), Some(RouterError::SigningUnavailable));
    assert!(decide(&NostrKeys::new(), &ping, Decision::Reject).is_ok());
    let unreachable = Nip46Commands::Connect("nobody".to_string(), "c1".to_string());
    assert_eq!(decide(&keys, &unreachable, Decision::Approve).err(), Some(RouterError::SigningUnavailable));
}

#[test]
fn the_prompt_follows_the_pending_command() {
    assert!(matches!(prompt_for(None), Prompt::Waiting));
    let connect = Nip46Commands::Connect("peer".to_string(), "c1".to_string());
    match prompt_for(Some(&connect)) {
        Prompt::ConnectionRequest(id) => assert_eq!(id, "c1"),
        other => panic!("unexpected prompt {:?}", other),
    }
    let ping = Nip46Commands::Ping("peer".to_string(), "p1".to_string());
    match prompt_for(Some(&ping)) {
        Prompt::ConnectionRequest(id) => assert_eq!(id, "p1"),
        other => panic!("unexpected prompt {:?}", other),
    }
    let draft = nostr_bunker::notes::Note {
        pubkey: "pk".to_string(),
        created_at: 3,
        kind: 1,
        tags: vec![],
        content: "draft".to_string(),
    };
    let sign = Nip46Commands::SignEvent("peer".to_string(), "s1".to_string(), draft);
    match prompt_for(Some(&sign)) {
        Prompt::SignatureRequest(id, note) => {
            assert_eq!(id, "s1");
            assert_eq!(note.content, "draft");
        }
        other => panic!("unexpected prompt {:?}", other),
    }
}

#[test]
fn a_decision_on_a_single_actor_resolves_it() {
    let keys = loaded_keys();
    let mut actor = nostr_bunker::relay_component::RelayComponent::create(relay("wss://a", true, true));
    actor.link_opened();
    actor.on_inbound_event(&keys, &ping_request());
    assert!(actor.pending().is_some());
    let out = resolve(&mut actor, &keys, UserNotes::new(), Decision::Approve);
    assert!(out.error.is_none());
    assert!(out.send.is_some());
    assert!(actor.pending().is_none());
    assert_eq!(actor.phase(), ActorPhase::Active);
}

#[test]
fn the_waiting_line_counts_the_relays() {
    assert_eq!(waiting_message(0), "No relays found");
    assert_eq!(waiting_message(1), "Waiting for requests from 1 relay...");
    assert_eq!(waiting_message(2), "Waiting for requests from 2 relays...");
    assert_eq!(waiting_message(12), "Waiting for requests from 12 relays...");
}

#[test]
fn the_connection_string_lists_every_relay() {
    let relays = vec![relay("wss://a", true, true), relay("wss://b.example", false, false)];
    assert_eq!(bunker_url(&"abcd".to_string(), &relays), "bunker://abcd?relay=wss://a&relay=wss://b.example&");
    assert_eq!(bunker_url(&"abcd".to_string(), &vec![]), "bunker://abcd?");
    let keys = loaded_keys();
    assert!(bunker_connect(&NostrKeys::new(), &listed(relays.clone())).is_none());
    assert!(bunker_connect(&keys, &NostrRelayList::new()).is_none());
    assert_eq!(
        bunker_connect(&keys, &listed(relays)).unwrap(),
        format!("bunker://{}?relay=wss://a&relay=wss://b.example&", keys.get_pubkey())
    );
}
