//! The relay actor: one relay connection bound to the session protocol.
//!
//! An actor gates what comes in by the relay's `read` flag and what goes out
//! by its `write` flag, and holds at most one pending request: a newer
//! request replaces the one that was waiting.

use vstd::prelude::*;
use crate::nip46::{decoded_request, outcome_view, CommandView, Nip46Commands, Nip46Error, ResponseView, SignedResponse};
use crate::notes::{SignedNote, SignedNoteView};
use crate::signer::{is_public_key, COMMAND_KIND};
use crate::user_keys::NostrKeys;
use crate::user_relays::{RelayView, UserRelay};

verus! {

/// Where an actor is in its life.  `Closed` is final.
#[derive(Clone, Copy, Debug, PartialEq, Eq, Structural)]
pub enum ActorPhase {
    Connecting,
    Active,
    Closed,
}

/// A message from a relay.
#[derive(Clone, Debug)]
pub enum RelayEvents {
    /// An event that matches the subscription of the given identifier.
    EVENT(String, SignedNote),
    /// The relay's verdict on a published event.
    OK(String, bool, String),
    /// The stored events of a subscription have all been sent.
    EOSE(String),
    /// The relay closed a subscription.
    CLOSED(String),
    /// A human-readable notice.
    NOTICE(String),
}

/// The subscription that an actor makes on its link: events of the given
/// kinds that are tagged for the given public keys.
#[derive(Clone, Debug)]
pub struct SubscriptionFilter {
    pub kinds: Vec<u32>,
    pub p_tags: Vec<String>,
}

/// The subscription of a signer: remote-signing events tagged for its owner
/// and nothing else.
pub fn command_filter(user_pk: String) -> (filter: SubscriptionFilter)
    ensures
        filter.kinds@ == seq![COMMAND_KIND],
        filter.p_tags.deep_view() == seq![user_pk@],
{
    let mut kinds: Vec<u32> = Vec::new();
    kinds.push(COMMAND_KIND);
    let mut p_tags: Vec<String> = Vec::new();
    p_tags.push(user_pk);
    assert(p_tags.deep_view() =~= seq![user_pk@]);
    SubscriptionFilter { kinds, p_tags }
}

/// What can happen to an actor.
#[derive(Clone, Debug)]
pub enum RelayAction {
    /// The link is established and the subscription is made.
    LinkOpened,
    /// The relay cannot be reached, or the link broke.
    LinkFailed,
    /// A message arrived on the link.
    RelayMessage(RelayEvents),
    /// A response is ready to be sent on the link.
    NewNote(SignedResponse),
    /// The user rejected the pending request.
    ClearNote,
}

/// Mathematical value of what can happen to an actor.  An arriving event
/// stands here as the outcome of decoding it.
pub enum ActorInput {
    LinkOpened,
    LinkFailed,
    Inbound(Result<CommandView, Nip46Error>),
    OtherMessage,
    Submit(ResponseView),
    Clear,
    Close,
}

/// Mathematical value of an actor.
pub struct ActorView {
    pub relay: RelayView,
    pub phase: ActorPhase,
    pub pending: Option<CommandView>,
}

/// The actor that is made for a relay: connecting, with nothing pending.
pub open spec fn fresh_actor(relay: RelayView) -> ActorView {
    ActorView { relay, phase: ActorPhase::Connecting, pending: None }
}

/// The actor after one input.
pub open spec fn actor_step(state: ActorView, input: ActorInput) -> ActorView {
    if state.phase == ActorPhase::Closed {
        state
    } else {
        match input {
            ActorInput::LinkOpened => ActorView { phase: ActorPhase::Active, ..state },
            ActorInput::LinkFailed => ActorView { phase: ActorPhase::Closed, pending: None, ..state },
            ActorInput::Inbound(decoded) => match decoded {
                Ok(command) => if state.phase == ActorPhase::Active && state.relay.read {
                    ActorView { pending: Some(command), ..state }
                } else {
                    state
                },
                Err(_) => state,
            },
            ActorInput::OtherMessage => state,
            ActorInput::Submit(_) => ActorView { pending: None, ..state },
            ActorInput::Clear => ActorView { pending: None, ..state },
            ActorInput::Close => ActorView { phase: ActorPhase::Closed, pending: None, ..state },
        }
    }
}

/// Whether an actor is in a state that actors reach: a closed actor holds no
/// request.  A fresh actor is, and every step keeps it so.
pub open spec fn settled(actor: ActorView) -> bool {
    actor.phase == ActorPhase::Closed ==> actor.pending is None
}

/// Whether the request that an actor holds can be answered: the signer can
/// derive a shared secret with the requester.  It is so of every request
/// that was decoded from an event.
pub open spec fn answerable(actor: ActorView) -> bool {
    actor.pending matches Some(command) ==> is_public_key(command.requester())
}

/// Whether an action may change what the user sees: every action but a
/// relay message that is no event.
pub open spec fn renders(action: RelayAction) -> bool {
    !(action matches RelayAction::RelayMessage(message) && !(message is EVENT))
}

/// The response that an input makes the actor hand to its link, if any.
/// Only a submitted response is ever sent, and only on an active, writable
/// relay.
pub open spec fn actor_sends(state: ActorView, input: ActorInput) -> Option<ResponseView> {
    match input {
        ActorInput::Submit(response) => if state.phase == ActorPhase::Active && state.relay.write {
            Some(response)
        } else {
            None
        },
        _ => None,
    }
}

/// Whether an input makes the actor give up its link.
pub open spec fn actor_closes_link(state: ActorView, input: ActorInput) -> bool {
    state.phase != ActorPhase::Closed && input is Close
}

/// The actor after a sequence of inputs.
pub open spec fn actor_run(state: ActorView, inputs: Seq<ActorInput>) -> ActorView
    decreases inputs.len(),
{
    if inputs.len() == 0 {
        state
    } else {
        actor_step(actor_run(state, inputs.drop_last()), inputs.last())
    }
}

/// The responses handed to the link during a sequence of inputs, in order.
pub open spec fn actor_sent(state: ActorView, inputs: Seq<ActorInput>) -> Seq<ResponseView>
    decreases inputs.len(),
{
    if inputs.len() == 0 {
        seq![]
    } else {
        let before = actor_sent(state, inputs.drop_last());
        match actor_sends(actor_run(state, inputs.drop_last()), inputs.last()) {
            Some(response) => before.push(response),
            None => before,
        }
    }
}

/// The input that an action stands for when the key store is `keys`.
pub open spec fn input_of(keys: Option<Seq<char>>, action: RelayAction) -> ActorInput {
    match action {
        RelayAction::LinkOpened => ActorInput::LinkOpened,
        RelayAction::LinkFailed => ActorInput::LinkFailed,
        RelayAction::RelayMessage(message) => match message {
            RelayEvents::EVENT(_, note) => ActorInput::Inbound(
                match keys {
                    Some(secret) => decoded_request(secret, note@),
                    None => Err(Nip46Error::SigningUnavailable),
                },
            ),
            _ => ActorInput::OtherMessage,
        },
        RelayAction::NewNote(response) => ActorInput::Submit(response@),
        RelayAction::ClearNote => ActorInput::Clear,
    }
}

/// What the caller has to do after an update.
#[derive(Clone, Debug)]
pub struct ActorOutput {
    /// A response to publish on the actor's own link.
    pub send: Option<SignedResponse>,
    /// Whether the link is to be closed.
    pub close_link: bool,
    /// Whether what the user sees may have changed.
    pub render: bool,
}

/// The value of an optional note.
pub open spec fn sent_view(send: Option<SignedNote>) -> Option<SignedNoteView> {
    match send {
        Some(note) => Some(note@),
        None => None,
    }
}

/// The value of an optional response.
pub open spec fn response_view(send: Option<SignedResponse>) -> Option<ResponseView> {
    match send {
        Some(response) => Some(response@),
        None => None,
    }
}

/// The value of an optional command.
pub open spec fn pending_view(pending: Option<Nip46Commands>) -> Option<CommandView> {
    match pending {
        Some(command) => Some(command@),
        None => None,
    }
}

/// One relay actor.  A closed actor holds no request.
#[derive(Debug)]
pub struct RelayComponent {
    user_relay: UserRelay,
    phase: ActorPhase,
    latest_note: Option<Nip46Commands>,
}

impl Clone for RelayComponent {
    fn clone(&self) -> (copy: RelayComponent)
        ensures
            copy@ == self@,
    {
        proof {
            use_type_invariant(self);
        }
        let latest_note = match &self.latest_note {
            Some(command) => Some(command.duplicate()),
            None => None,
        };
        RelayComponent { user_relay: self.user_relay.duplicate(), phase: self.phase, latest_note }
    }
}

impl View for RelayComponent {
    type V = ActorView;

    closed spec fn view(&self) -> ActorView {
        ActorView { relay: self.user_relay@, phase: self.phase, pending: pending_view(self.latest_note) }
    }
}

impl RelayComponent {
    #[verifier::type_invariant]
    spec fn closed_holds_nothing(self) -> bool {
        self.phase == ActorPhase::Closed ==> self.latest_note is None
    }

    /// A fresh actor for a relay.  Its link is still to be established.
    pub fn create(user_relay: UserRelay) -> (actor: RelayComponent)
        ensures
            actor@ == fresh_actor(user_relay@),
            settled(actor@),
    {
        RelayComponent { user_relay, phase: ActorPhase::Connecting, latest_note: None }
    }

    /// The relay that the actor serves.
    pub fn relay(&self) -> (relay: &UserRelay)
        ensures
            relay@ == self@.relay,
    {
        &self.user_relay
    }

    /// Where the actor is in its life.
    pub fn phase(&self) -> (phase: ActorPhase)
        ensures
            phase == self@.phase,
            settled(self@),
    {
        proof {
            use_type_invariant(self);
        }
        self.phase
    }

    /// The request that waits for the user's decision.
    pub fn pending(&self) -> (pending: Option<&Nip46Commands>)
        ensures
            match pending {
                Some(command) => self@.pending == Some(command@),
                None => self@.pending is None,
            },
            settled(self@),
    {
        proof {
            use_type_invariant(self);
        }
        self.latest_note.as_ref()
    }

    /// The link is up: a connecting actor becomes active.
    pub fn link_opened(&mut self)
        ensures
            final(self)@ == actor_step(old(self)@, ActorInput::LinkOpened),
    {
        if self.phase != ActorPhase::Closed {
            self.phase = ActorPhase::Active;
        }
    }

    /// The relay cannot be reached or the link broke: the actor is closed
    /// and contributes nothing from now on.
    pub fn link_failed(&mut self)
        ensures
            final(self)@ == actor_step(old(self)@, ActorInput::LinkFailed),
    {
        if self.phase != ActorPhase::Closed {
            self.latest_note = None;
            self.phase = ActorPhase::Closed;
        }
    }

    /// Takes in the outcome of decoding an inbound event.  A request that
    /// decodes replaces the pending one on an active relay with `read`;
    /// everything else is discarded.
    pub fn receive(&mut self, decoded: Result<Nip46Commands, Nip46Error>)
        ensures
            final(self)@ == actor_step(old(self)@, ActorInput::Inbound(outcome_view(decoded))),
    {
        if self.phase == ActorPhase::Active && self.user_relay.read {
            match decoded {
                Ok(command) => {
                    self.latest_note = Some(command);
                },
                Err(_) => {},
            }
        }
    }

    /// Takes in an event from the link, decoding it with the loaded key.
    /// Nothing is decoded on a relay without `read`.
    pub fn on_inbound_event(&mut self, keys: &NostrKeys, event: &SignedNote)
        ensures
            final(self)@ == actor_step(
                old(self)@,
                ActorInput::Inbound(
                    match keys@ {
                        Some(secret) => decoded_request(secret, event@),
                        None => Err(Nip46Error::SigningUnavailable),
                    },
                ),
            ),
            answerable(old(self)@) ==> answerable(final(self)@),
    {
        if self.phase == ActorPhase::Active && self.user_relay.read {
            let decoded = keys.extract_nip46_command(event);
            self.receive(decoded);
        }
    }

    /// Hands a response to the link if the relay has `write`, and drops it
    /// otherwise.  Either way the pending request is resolved.
    pub fn submit_response(&mut self, response: SignedResponse) -> (send: Option<SignedResponse>)
        ensures
            final(self)@ == actor_step(old(self)@, ActorInput::Submit(response@)),
            response_view(send) == actor_sends(old(self)@, ActorInput::Submit(response@)),
    {
        if self.phase == ActorPhase::Closed {
            return None;
        }
        self.latest_note = None;
        if self.phase == ActorPhase::Active && self.user_relay.write {
            Some(response)
        } else {
            None
        }
    }

    /// Forgets the pending request without answering it.
    pub fn clear_pending(&mut self)
        ensures
            final(self)@ == actor_step(old(self)@, ActorInput::Clear),
    {
        if self.phase != ActorPhase::Closed {
            self.latest_note = None;
        }
    }

    /// Closes the actor.  The result says whether its link is still to be
    /// torn down, which is so the first time only.
    pub fn close(&mut self) -> (close_link: bool)
        ensures
            final(self)@ == actor_step(old(self)@, ActorInput::Close),
            close_link == actor_closes_link(old(self)@, ActorInput::Close),
    {
        if self.phase == ActorPhase::Closed {
            false
        } else {
            self.latest_note = None;
            self.phase = ActorPhase::Closed;
            true
        }
    }

    /// Closes the actor when it is removed.
    pub fn destroy(&mut self) -> (close_link: bool)
        ensures
            final(self)@ == actor_step(old(self)@, ActorInput::Close),
            close_link == actor_closes_link(old(self)@, ActorInput::Close),
    {
        self.close()
    }

    /// Applies an action and says what the caller has to do.
    pub fn update(&mut self, keys: &NostrKeys, msg: RelayAction) -> (output: ActorOutput)
        ensures
            final(self)@ == actor_step(old(self)@, input_of(keys@, msg)),
            response_view(output.send) == actor_sends(old(self)@, input_of(keys@, msg)),
            !output.close_link,
            output.render == renders(msg),
            settled(old(self)@) && settled(final(self)@),
            answerable(old(self)@) ==> answerable(final(self)@),
    {
        proof {
            use_type_invariant(&*self);
        }
        match msg {
            RelayAction::LinkOpened => {
                self.link_opened();
                ActorOutput { send: None, close_link: false, render: true }
            },
            RelayAction::LinkFailed => {
                self.link_failed();
                ActorOutput { send: None, close_link: false, render: true }
            },
            RelayAction::RelayMessage(message) => match message {
                RelayEvents::EVENT(_, note) => {
                    self.on_inbound_event(keys, &note);
                    ActorOutput { send: None, close_link: false, render: true }
                },
                _ => ActorOutput { send: None, close_link: false, render: false },
            },
            RelayAction::NewNote(response) => {
                let send = self.submit_response(response);
                ActorOutput { send, close_link: false, render: true }
            },
            RelayAction::ClearNote => {
                self.clear_pending();
                ActorOutput { send: None, close_link: false, render: true }
            },
        }
    }
}

/// An unreadable relay never holds a pending request: whatever arrives, in
/// whatever order, an actor without `read` that starts with nothing pending
/// ends with nothing pending.
pub proof fn unread_relay_never_pends(state: ActorView, inputs: Seq<ActorInput>)
    requires
        !state.relay.read,
        state.pending is None,
    ensures
        actor_run(state, inputs).pending is None,
        actor_run(state, inputs).relay == state.relay,
    decreases inputs.len(),
{
    if inputs.len() > 0 {
        unread_relay_never_pends(state, inputs.drop_last());
    }
}

/// An unwritable relay never sends: whatever is submitted, an actor without
/// `write` hands nothing to its link.
pub proof fn unwritable_relay_never_sends(state: ActorView, inputs: Seq<ActorInput>)
    requires
        !state.relay.write,
    ensures
        actor_sent(state, inputs) == Seq::<ResponseView>::empty(),
        actor_run(state, inputs).relay == state.relay,
    decreases inputs.len(),
{
    if inputs.len() > 0 {
        unwritable_relay_never_sends(state, inputs.drop_last());
    }
}

/// The last writer wins: of two requests that arrive on an active, readable
/// relay with no decision in between, only the second is retained.
pub proof fn last_request_wins(state: ActorView, first: CommandView, second: CommandView)
    requires
        state.phase == ActorPhase::Active,
        state.relay.read,
    ensures
        actor_step(actor_step(state, ActorInput::Inbound(Ok(first))), ActorInput::Inbound(Ok(second))).pending
            == Some(second),
{
}

/// A closed actor stays as it is and stays silent: no input changes it, gives
/// it a pending request or makes it send.
pub proof fn closed_actor_is_inert(state: ActorView, inputs: Seq<ActorInput>)
    requires
        state.phase == ActorPhase::Closed,
    ensures
        actor_run(state, inputs) == state,
        actor_sent(state, inputs) == Seq::<ResponseView>::empty(),
    decreases inputs.len(),
{
    if inputs.len() > 0 {
        closed_actor_is_inert(state, inputs.drop_last());
    }
}

/// A fresh actor is settled and its (absent) request answerable.
pub proof fn fresh_actor_is_settled(relay: RelayView)
    ensures
        settled(fresh_actor(relay)),
        answerable(fresh_actor(relay)),
{
}

/// Every step keeps an actor settled.
pub proof fn step_keeps_settled(state: ActorView, input: ActorInput)
    requires
        settled(state),
    ensures
        settled(actor_step(state, input)),
{
}

/// Every sequence of steps keeps an actor settled, so a closed actor that
/// was once made holds no request, whatever arrived before or after.
pub proof fn run_keeps_settled(state: ActorView, inputs: Seq<ActorInput>)
    requires
        settled(state),
    ensures
        settled(actor_run(state, inputs)),
        actor_run(state, inputs).phase == ActorPhase::Closed ==> actor_run(state, inputs).pending is None,
    decreases inputs.len(),
{
    if inputs.len() > 0 {
        run_keeps_settled(state, inputs.drop_last());
        step_keeps_settled(actor_run(state, inputs.drop_last()), inputs.last());
    }
}

/// Closing twice is closing once.
pub proof fn close_is_idempotent(state: ActorView)
    ensures
        actor_step(actor_step(state, ActorInput::Close), ActorInput::Close) == actor_step(state, ActorInput::Close),
        !actor_closes_link(actor_step(state, ActorInput::Close), ActorInput::Close),
{
}

/// Closing leaves nothing pending, whatever was.
pub proof fn close_clears_pending(state: ActorView)
    ensures
        actor_step(state, ActorInput::Close).phase == ActorPhase::Closed,
        state.phase != ActorPhase::Closed ==> actor_step(state, ActorInput::Close).pending is None,
{
}

} // verus!
