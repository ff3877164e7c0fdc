//! The relay pool: one actor for each configured relay that is read from or
//! written to.

use vstd::prelude::*;
use crate::nip46::{answers, CommandView, Nip46Commands, ResponseView};
use crate::notes::SignedNoteView;
use crate::relay_component::{
    actor_sends, actor_step, answerable, fresh_actor, input_of, renders, response_view, ActorInput, ActorOutput,
    ActorPhase, ActorView, RelayAction, RelayComponent,
};
use crate::relay_notifier::{
    archive_effects, archive_with, offered, resolve, resolve_error, resolve_sends, resolved_actor,
    resolved_archive, signer_ready, Decision, Resolution, RouterError,
};
use crate::storage::{effects_view, StoreEffect};
use crate::text::{decimal, decimal_text};
use crate::user_keys::NostrKeys;
use crate::user_notes::UserNotes;
use crate::user_relays::{relays_after, relays_view, NostrRelayList, RelayActionView, RelayView};

verus! {

/// The actors of a pool, as values.
pub open spec fn actors_view(actors: Seq<RelayComponent>) -> Seq<ActorView> {
    actors.map_values(|a: RelayComponent| a@)
}

/// Whether a relay gets an actor: it is read from or written to.
pub open spec fn served(relay: RelayView) -> bool {
    relay.read || relay.write
}

/// The relays of a list that get an actor, in order.
pub open spec fn served_relays(relays: Seq<RelayView>) -> Seq<RelayView> {
    relays.filter(|r: RelayView| served(r))
}

/// The pool that is built for a relay list: a fresh actor for each served
/// relay.
pub open spec fn pool_for(relays: Seq<RelayView>) -> Seq<ActorView> {
    served_relays(relays).map_values(|r: RelayView| fresh_actor(r))
}

/// Whether slot `i` holds the first actor for the given address.
pub open spec fn is_first_actor(pool: Seq<ActorView>, url: Seq<char>, i: int) -> bool {
    &&& 0 <= i < pool.len()
    &&& pool[i].relay.url == url
    &&& forall|j: int| 0 <= j < i ==> (#[trigger] pool[j]).relay.url != url
}

/// Whether the pool has an actor for the given address.
pub open spec fn has_actor(pool: Seq<ActorView>, url: Seq<char>) -> bool {
    exists|i: int| is_first_actor(pool, url, i)
}

/// The slot of the first actor for the given address.
pub open spec fn actor_slot(pool: Seq<ActorView>, url: Seq<char>) -> int {
    choose|i: int| is_first_actor(pool, url, i)
}

/// The pool after an input has gone to the actor for the given address.  No
/// other actor changes, and nothing changes where the address has no actor.
pub open spec fn pool_step(pool: Seq<ActorView>, url: Seq<char>, input: ActorInput) -> Seq<ActorView> {
    Seq::new(
        pool.len(),
        |i: int| if is_first_actor(pool, url, i) { actor_step(pool[i], input) } else { pool[i] },
    )
}

/// The response that an input for the given address makes the pool publish:
/// the one that the addressed actor sends.
pub open spec fn pool_sends(pool: Seq<ActorView>, url: Seq<char>, input: ActorInput) -> Option<ResponseView> {
    if has_actor(pool, url) {
        actor_sends(pool[actor_slot(pool, url)], input)
    } else {
        None
    }
}

/// What the pool asks of the links.
#[derive(Clone, Debug)]
pub enum LinkOrder {
    /// Connect to the relay at this address and subscribe.
    Open(String),
    /// Close the link to the relay at this address.
    Close(String),
}

/// Mathematical value of an order.
pub enum OrderView {
    Open(Seq<char>),
    Close(Seq<char>),
}

impl View for LinkOrder {
    type V = OrderView;

    open spec fn view(&self) -> OrderView {
        match self {
            LinkOrder::Open(url) => OrderView::Open(url@),
            LinkOrder::Close(url) => OrderView::Close(url@),
        }
    }
}

/// The views of a list of orders, in order.
pub open spec fn orders_view(orders: Seq<LinkOrder>) -> Seq<OrderView> {
    orders.map_values(|o: LinkOrder| o@)
}

/// The actors of a pool that still hold a link.
pub open spec fn live_actors(pool: Seq<ActorView>) -> Seq<ActorView> {
    pool.filter(|a: ActorView| a.phase != ActorPhase::Closed)
}

/// One order to close for each actor that still holds a link.
pub open spec fn close_orders(pool: Seq<ActorView>) -> Seq<OrderView> {
    live_actors(pool).map_values(|a: ActorView| OrderView::Close(a.relay.url))
}

/// One order to open for each actor.
pub open spec fn open_orders(pool: Seq<ActorView>) -> Seq<OrderView> {
    pool.map_values(|a: ActorView| OrderView::Open(a.relay.url))
}

/// A request that waits for the user, with the relay it came from.
#[derive(Clone, Debug)]
pub struct PendingRequest {
    pub command: Nip46Commands,
    pub source_relay: String,
}

/// Mathematical value of a pending request.
pub struct PendingView {
    pub command: CommandView,
    pub source_relay: Seq<char>,
}

impl View for PendingRequest {
    type V = PendingView;

    open spec fn view(&self) -> PendingView {
        PendingView { command: self.command@, source_relay: self.source_relay@ }
    }
}

/// The views of a list of pending requests, in order.
pub open spec fn requests_view(requests: Seq<PendingRequest>) -> Seq<PendingView> {
    requests.map_values(|r: PendingRequest| r@)
}

/// The pending requests of a pool, one for each actor that has one.
pub open spec fn pending_of(pool: Seq<ActorView>) -> Seq<PendingView> {
    pool.filter(|a: ActorView| a.pending is Some).map_values(
        |a: ActorView| PendingView { command: a.pending->0, source_relay: a.relay.url },
    )
}

/// Whether every request that waits in the pool can be answered.
pub open spec fn all_answerable(pool: Seq<ActorView>) -> bool {
    forall|i: int| 0 <= i < pool.len() ==> answerable(#[trigger] pool[i])
}

/// The actors of a pool whose link is up.
pub open spec fn active_actors(pool: Seq<ActorView>) -> Seq<ActorView> {
    pool.filter(|a: ActorView| a.phase == ActorPhase::Active)
}

/// The pool with every actor closed.
pub open spec fn all_closed(pool: Seq<ActorView>) -> Seq<ActorView> {
    pool.map_values(|a: ActorView| actor_step(a, ActorInput::Close))
}

/// The actor that a decision for the given address goes to.
pub open spec fn addressed(pool: Seq<ActorView>, url: Seq<char>) -> Option<ActorView> {
    if has_actor(pool, url) {
        Some(pool[actor_slot(pool, url)])
    } else {
        None
    }
}

/// The pool after a decision about the request of the given address.
pub open spec fn pool_resolved(pool: Seq<ActorView>, url: Seq<char>, keys: Option<Seq<char>>, decision: Decision) -> Seq<ActorView> {
    Seq::new(
        pool.len(),
        |i: int| if is_first_actor(pool, url, i) { resolved_actor(pool[i], keys, decision) } else { pool[i] },
    )
}

/// The error of a decision for the given address, if it has one.
pub open spec fn pool_resolve_error(pool: Seq<ActorView>, url: Seq<char>, keys: Option<Seq<char>>, decision: Decision) -> Option<RouterError> {
    match addressed(pool, url) {
        Some(actor) => resolve_error(actor, keys, decision),
        None => Some(RouterError::NothingPending),
    }
}

/// The note that a decision for the given address adds to the archive.
pub open spec fn pool_resolved_archive(pool: Seq<ActorView>, url: Seq<char>, keys: Option<Seq<char>>, decision: Decision) -> Option<SignedNoteView> {
    match addressed(pool, url) {
        Some(actor) => resolved_archive(actor, keys, decision),
        None => None,
    }
}

/// Whether a decision for the given address makes the pool publish.
pub open spec fn pool_resolve_sends(pool: Seq<ActorView>, url: Seq<char>, keys: Option<Seq<char>>, decision: Decision) -> bool {
    match addressed(pool, url) {
        Some(actor) => resolve_sends(actor, keys, decision),
        None => false,
    }
}

/// The live set of relay actors.
#[derive(Clone, Debug)]
pub struct RelayPool {
    actors: Vec<RelayComponent>,
}

impl View for RelayPool {
    type V = Seq<ActorView>;

    closed spec fn view(&self) -> Seq<ActorView> {
        actors_view(self.actors@)
    }
}

/// The line that says how many relays are listened to.
pub open spec fn waiting_line(count: nat) -> Seq<char> {
    if count == 0 {
        "No relays found"@
    } else if count == 1 {
        "Waiting for requests from 1 relay..."@
    } else {
        "Waiting for requests from "@ + decimal(count) + " relays..."@
    }
}

/// The line that says how many relays are listened to.
pub fn waiting_message(count: usize) -> (line: String)
    ensures
        line@ == waiting_line(count as nat),
{
    if count == 0 {
        String::from_str("No relays found")
    } else if count == 1 {
        String::from_str("Waiting for requests from 1 relay...")
    } else {
        let mut line = String::from_str("Waiting for requests from ");
        line.append(decimal_text(count).as_str());
        line.append(" relays...");
        line
    }
}

/// Every actor of the pool built for a list serves a relay of the list.
pub proof fn pool_serves_listed(relays: Seq<RelayView>, i: int)
    requires
        0 <= i < pool_for(relays).len(),
    ensures
        relays.contains(pool_for(relays)[i].relay),
        served(pool_for(relays)[i].relay),
        pool_for(relays)[i] == fresh_actor(pool_for(relays)[i].relay),
{
    let kept = served_relays(relays);
    relays.lemma_filter_pred(|r: RelayView| served(r), i);
    assert(kept.contains(kept[i]));
    relays.lemma_filter_contains_rev(|r: RelayView| served(r), kept[i]);
}

/// Removing a relay leaves no actor for it: in the pool that is built for
/// the list after the removal, no actor has the address, so whatever arrives
/// for that address changes nothing and sends nothing.
pub proof fn removed_relay_has_no_actor(relays: Seq<RelayView>, removed: RelayView, input: ActorInput)
    ensures
        !has_actor(pool_for(relays_after(relays, RelayActionView::RemoveRelay(removed))), removed.url),
        pool_step(pool_for(relays_after(relays, RelayActionView::RemoveRelay(removed))), removed.url, input)
            == pool_for(relays_after(relays, RelayActionView::RemoveRelay(removed))),
        pool_sends(pool_for(relays_after(relays, RelayActionView::RemoveRelay(removed))), removed.url, input)
            is None,
{
    let left = relays_after(relays, RelayActionView::RemoveRelay(removed));
    let pool = pool_for(left);
    assert forall|i: int| 0 <= i < pool.len() implies (#[trigger] pool[i]).relay.url != removed.url by {
        pool_serves_listed(left, i);
        let j = choose|j: int| 0 <= j < left.len() && left[j] == pool[i].relay;
        relays.lemma_filter_pred(|r: RelayView| r.url != removed.url, j);
    }
    assert forall|i: int| !is_first_actor(pool, removed.url, i) by {
        if 0 <= i < pool.len() {
            assert(pool[i].relay.url != removed.url);
        }
    }
    assert(pool_step(pool, removed.url, input) =~= pool);
}

/// Tearing the pool down closes every actor: each one that held a link gets
/// exactly one order to close it, and none has a request pending afterwards.
pub proof fn teardown_closes_every_actor(pool: Seq<ActorView>, i: int)
    requires
        0 <= i < pool.len(),
    ensures
        all_closed(pool)[i].phase == ActorPhase::Closed,
        pool[i].phase != ActorPhase::Closed ==> all_closed(pool)[i].pending is None,
        pool[i].phase != ActorPhase::Closed ==> close_orders(pool).contains(OrderView::Close(pool[i].relay.url)),
{
    if pool[i].phase != ActorPhase::Closed {
        let live = live_actors(pool);
        pool.lemma_filter_contains(|a: ActorView| a.phase != ActorPhase::Closed, i);
        let j = choose|j: int| 0 <= j < live.len() && live[j] == pool[i];
        assert(close_orders(pool)[j] == OrderView::Close(pool[i].relay.url));
    }
}

/// Signing on a read-only relay resolves the request there and publishes
/// nothing: with the signer ready no error is reported, the request of that
/// relay's actor is cleared, and no other actor changes.
pub proof fn read_only_relay_resolves_quietly(
    pool: Seq<ActorView>,
    url: Seq<char>,
    keys: Option<Seq<char>>,
    decision: Decision,
    i: int,
)
    requires
        is_first_actor(pool, url, i),
        pool[i].phase != ActorPhase::Closed,
        !pool[i].relay.write,
        pool[i].pending matches Some(command) && offered(command, decision) && signer_ready(keys, command),
    ensures
        pool_resolve_error(pool, url, keys, decision) is None,
        !pool_resolve_sends(pool, url, keys, decision),
        pool_resolved(pool, url, keys, decision)[i].pending is None,
        forall|j: int| 0 <= j < pool.len() && j != i ==> pool_resolved(pool, url, keys, decision)[j] == pool[j],
{
    first_actor_is_unique(pool, url, i, actor_slot(pool, url));
    assert forall|j: int| 0 <= j < pool.len() && j != i implies pool_resolved(pool, url, keys, decision)[j]
        == pool[j] by {
        if is_first_actor(pool, url, j) {
            first_actor_is_unique(pool, url, i, j);
        }
    }
}

/// An input for one address leaves every other actor as it was.
pub proof fn other_actors_untouched(pool: Seq<ActorView>, url: Seq<char>, input: ActorInput, i: int)
    requires
        0 <= i < pool.len(),
        pool[i].relay.url != url,
    ensures
        pool_step(pool, url, input)[i] == pool[i],
{
}

/// The first index is unique.
pub proof fn first_actor_is_unique(pool: Seq<ActorView>, url: Seq<char>, i: int, j: int)
    requires
        is_first_actor(pool, url, i),
        is_first_actor(pool, url, j),
    ensures
        i == j,
{
    if i < j {
        assert(pool[i].relay.url != url);
    }
    if j < i {
        assert(pool[j].relay.url != url);
    }
}

impl RelayPool {
    /// The pool with no actor.
    pub fn new() -> (pool: RelayPool)
        ensures
            pool@ == Seq::<ActorView>::empty(),
    {
        let pool = RelayPool { actors: Vec::new() };
        assert(pool@ =~= Seq::<ActorView>::empty());
        pool
    }

    /// The number of actors.
    pub fn len(&self) -> (n: usize)
        ensures
            n == self@.len(),
    {
        self.actors.len()
    }

    /// The actor in a slot.
    pub fn get(&self, slot: usize) -> (actor: Option<&RelayComponent>)
        ensures
            match actor {
                Some(a) => slot < self@.len() && a@ == self@[slot as int],
                None => slot >= self@.len(),
            },
    {
        if slot < self.actors.len() {
            Some(&self.actors[slot])
        } else {
            None
        }
    }

    /// The slot of the first actor for an address.
    pub fn find(&self, url: &String) -> (found: Option<usize>)
        ensures
            match found {
                Some(i) => is_first_actor(self@, url@, i as int) && actor_slot(self@, url@) == i,
                None => !has_actor(self@, url@),
            },
    {
        let mut i: usize = 0;
        while i < self.actors.len()
            invariant
                i <= self.actors.len(),
                forall|j: int| 0 <= j < i ==> (#[trigger] self@[j]).relay.url != url@,
            decreases self.actors.len() - i,
        {
            if self.actors[i].relay().url == *url {
                proof {
                    assert(is_first_actor(self@, url@, i as int));
                    first_actor_is_unique(self@, url@, i as int, actor_slot(self@, url@));
                }
                return Some(i);
            }
            i += 1;
        }
        assert forall|k: int| !is_first_actor(self@, url@, k) by {
            if 0 <= k < self@.len() {
                assert(self@[k].relay.url != url@);
            }
        }
        None
    }

    /// Hands an action to the actor for an address.
    pub fn deliver(&mut self, keys: &NostrKeys, url: &String, msg: RelayAction) -> (output: ActorOutput)
        ensures
            final(self)@ == pool_step(old(self)@, url@, input_of(keys@, msg)),
            response_view(output.send) == pool_sends(old(self)@, url@, input_of(keys@, msg)),
            !output.close_link,
            output.render == (has_actor(old(self)@, url@) && renders(msg)),
            all_answerable(old(self)@) ==> all_answerable(final(self)@),
    {
        match self.find(url) {
            Some(i) => {
                let ghost before = self@;
                let output = self.actors[i].update(keys, msg);
                assert(self@ =~= pool_step(before, url@, input_of(keys@, msg)));
                output
            },
            None => {
                assert(self@ =~= pool_step(self@, url@, input_of(keys@, msg)));
                ActorOutput { send: None, close_link: false, render: false }
            },
        }
    }

    /// The number of actors whose link is up.
    pub fn active_count(&self) -> (n: usize)
        ensures
            n == active_actors(self@).len(),
    {
        let mut n: usize = 0;
        let mut i: usize = 0;
        assert(self@.take(0) =~= Seq::<ActorView>::empty());
        proof {
            reveal(Seq::filter);
        }
        while i < self.actors.len()
            invariant
                i <= self.actors.len(),
                n <= i,
                n == active_actors(self@.take(i as int)).len(),
            decreases self.actors.len() - i,
        {
            proof {
                reveal(Seq::filter);
                assert(self@.take(i + 1).drop_last() =~= self@.take(i as int));
                assert(self@.take(i + 1).last() == self@[i as int]);
            }
            if self.actors[i].phase() == ActorPhase::Active {
                n += 1;
            }
            i += 1;
        }
        assert(self@.take(i as int) =~= self@);
        n
    }

    /// The pending requests, one for each actor that has one, in the order
    /// of the actors.
    pub fn pending_requests(&self) -> (requests: Vec<PendingRequest>)
        ensures
            requests_view(requests@) == pending_of(self@),
    {
        let mut requests: Vec<PendingRequest> = Vec::new();
        let mut i: usize = 0;
        assert(self@.take(0) =~= Seq::<ActorView>::empty());
        proof {
            reveal(Seq::filter);
        }
        assert(requests_view(requests@) =~= pending_of(self@.take(0)));
        while i < self.actors.len()
            invariant
                i <= self.actors.len(),
                requests_view(requests@) == pending_of(self@.take(i as int)),
            decreases self.actors.len() - i,
        {
            let ghost before = requests_view(requests@);
            proof {
                reveal(Seq::filter);
                assert(self@.take(i + 1).drop_last() =~= self@.take(i as int));
                assert(self@.take(i + 1).last() == self@[i as int]);
            }
            match self.actors[i].pending() {
                Some(command) => {
                    let request = PendingRequest {
                        command: command.duplicate(),
                        source_relay: self.actors[i].relay().url.clone(),
                    };
                    requests.push(request);
                    assert(requests_view(requests@) =~= before.push(request@));
                    assert(requests_view(requests@) =~= pending_of(self@.take(i + 1)));
                },
                None => {
                    assert(requests_view(requests@) =~= pending_of(self@.take(i + 1)));
                },
            }
            i += 1;
        }
        assert(self@.take(i as int) =~= self@);
        requests
    }

    /// Closes every actor and says which links are to be torn down.
    pub fn close_all(&mut self) -> (orders: Vec<LinkOrder>)
        ensures
            final(self)@ == all_closed(old(self)@),
            orders_view(orders@) == close_orders(old(self)@),
    {
        let mut orders: Vec<LinkOrder> = Vec::new();
        let mut i: usize = 0;
        let ghost start = self@;
        assert(start.take(0) =~= Seq::<ActorView>::empty());
        proof {
            reveal(Seq::filter);
        }
        assert(orders_view(orders@) =~= close_orders(start.take(0)));
        while i < self.actors.len()
            invariant
                i <= self.actors.len(),
                self@.len() == start.len(),
                forall|k: int| 0 <= k < i ==> self@[k] == actor_step(#[trigger] start[k], ActorInput::Close),
                forall|k: int| i <= k < start.len() ==> self@[k] == #[trigger] start[k],
                orders_view(orders@) == close_orders(start.take(i as int)),
            decreases self.actors.len() - i,
        {
            let ghost before = orders_view(orders@);
            let ghost pool = self@;
            proof {
                reveal(Seq::filter);
                assert(start.take(i + 1).drop_last() =~= start.take(i as int));
                assert(start.take(i + 1).last() == start[i as int]);
            }
            let url = self.actors[i].relay().url.clone();
            let closing = self.actors[i].close();
            assert(self@ =~= pool.update(i as int, actor_step(pool[i as int], ActorInput::Close)));
            if closing {
                let order = LinkOrder::Close(url);
                orders.push(order);
                assert(orders_view(orders@) =~= before.push(order@));
                assert(orders_view(orders@) =~= close_orders(start.take(i + 1)));
            } else {
                assert(orders_view(orders@) =~= close_orders(start.take(i + 1)));
            }
            i += 1;
        }
        assert(start.take(i as int) =~= start);
        assert(self@ =~= all_closed(start));
        orders
    }

    /// Brings the pool in line with the relay list: every actor is closed,
    /// then a fresh one is made for each relay that is read from or written
    /// to.  The orders say which links to tear down and which to establish.
    pub fn rebuild(&mut self, relays: &NostrRelayList) -> (orders: Vec<LinkOrder>)
        ensures
            final(self)@ == pool_for(relays@),
            orders_view(orders@) == close_orders(old(self)@) + open_orders(pool_for(relays@)),
            all_answerable(final(self)@),
    {
        proof {
            assert forall|i: int| 0 <= i < pool_for(relays@).len() implies answerable(
                #[trigger] pool_for(relays@)[i],
            ) by {
                pool_serves_listed(relays@, i);
            }
        }
        let mut orders = self.close_all();
        let list = relays.get_relays();
        let ghost all = relays_view(list@);
        let ghost closes = orders_view(orders@);
        let mut actors: Vec<RelayComponent> = Vec::new();
        let mut k: usize = 0;
        assert(all.take(0) =~= Seq::<RelayView>::empty());
        proof {
            reveal(Seq::filter);
        }
        assert(actors_view(actors@) =~= pool_for(all.take(0)));
        assert(orders_view(orders@) =~= closes + open_orders(pool_for(all.take(0))));
        while k < list.len()
            invariant
                k <= list.len(),
                all == relays_view(list@),
                actors_view(actors@) == pool_for(all.take(k as int)),
                orders_view(orders@) == closes + open_orders(pool_for(all.take(k as int))),
            decreases list.len() - k,
        {
            let ghost built = actors_view(actors@);
            let ghost ordered = orders_view(orders@);
            proof {
                reveal(Seq::filter);
                assert(all.take(k + 1).drop_last() =~= all.take(k as int));
                assert(all.take(k + 1).last() == list[k as int]@);
            }
            if list[k].read || list[k].write {
                let actor = RelayComponent::create(list[k].duplicate());
                let order = LinkOrder::Open(list[k].url.clone());
                actors.push(actor);
                orders.push(order);
                assert(actors_view(actors@) =~= built.push(fresh_actor(list[k as int]@)));
                assert(actors_view(actors@) =~= pool_for(all.take(k + 1)));
                assert(orders_view(orders@) =~= ordered.push(order@));
                assert(orders_view(orders@) =~= closes + open_orders(pool_for(all.take(k + 1))));
            } else {
                assert(actors_view(actors@) =~= pool_for(all.take(k + 1)));
            }
            k += 1;
        }
        assert(all.take(k as int) =~= all);
        self.actors = actors;
        orders
    }

    /// Carries out the user's decision about the request that is pending on
    /// the relay of the given address.  The response, if one is sent, goes to
    /// the link of that relay and of no other.
    pub fn resolve(&mut self, keys: &NostrKeys, notes: UserNotes, url: &String, decision: Decision) -> (out: Resolution)
        ensures
            final(self)@ == pool_resolved(old(self)@, url@, keys@, decision),
            out.error == pool_resolve_error(old(self)@, url@, keys@, decision),
            out.notes@ == archive_with(notes@, pool_resolved_archive(old(self)@, url@, keys@, decision)),
            effects_view(out.effects@) == archive_effects(pool_resolved_archive(old(self)@, url@, keys@, decision)),
            out.send is Some <==> pool_resolve_sends(old(self)@, url@, keys@, decision),
            out.send matches Some(response) ==> answers(
                response@,
                keys@->0,
                addressed(old(self)@, url@)->0.pending->0,
            ),
            all_answerable(old(self)@) ==> all_answerable(final(self)@),
    {
        match self.find(url) {
            Some(i) => {
                let ghost before = self@;
                let out = resolve(&mut self.actors[i], keys, notes, decision);
                assert(self@ =~= pool_resolved(before, url@, keys@, decision));
                out
            },
            None => {
                assert(self@ =~= pool_resolved(self@, url@, keys@, decision));
                let effects: Vec<StoreEffect> = Vec::new();
                assert(effects_view(effects@) =~= seq![]);
                Resolution { notes, send: None, effects, error: Some(RouterError::NothingPending) }
            },
        }
    }
}

} // verus!
