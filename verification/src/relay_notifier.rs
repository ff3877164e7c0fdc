//! The session router: from a pending request and the user's decision to a
//! response on the relay that asked and, where the user wants it, a note in
//! the archive.

use vstd::prelude::*;
use crate::nip46::{answers, CommandView, Nip46Commands, ResponseView, SignedResponse};
use crate::notes::{Note, NoteView, SignedNote, SignedNoteView};
use crate::relay_component::{
    actor_step, answerable, sent_view, ActorInput, ActorPhase, ActorView, RelayComponent,
};
use crate::signer::{is_public_key, signed_with};
use crate::storage::{effects_view, DocumentView, EffectView, IdbStores, StoreEffect};
use crate::user_keys::NostrKeys;
use crate::user_notes::{UserNotes, UserNotesAction};

verus! {

/// What the user can decide about a pending request.
#[derive(Clone, Copy, Debug, PartialEq, Eq, Structural)]
pub enum Decision {
    /// Acknowledge a `connect` or a `ping`.
    Approve,
    /// Sign the note of a `sign_event` and answer with it.
    Sign,
    /// As `Sign`, and keep the signed note in the archive.
    SignAndSave,
    /// Answer nothing and forget the request.
    Reject,
}

/// Why a decision had no effect, or only dropped the request.
#[derive(Clone, Copy, Debug, PartialEq, Eq, Structural)]
pub enum RouterError {
    /// No request is pending on the relay.
    NothingPending,
    /// The decision is not among those offered for the pending request.
    DecisionNotOffered,
    /// No key is loaded, or the signer cannot reach the requester; the
    /// request is dropped.
    SigningUnavailable,
}

/// What is shown for a relay.
#[derive(Clone, Debug)]
pub enum Prompt {
    /// Nothing is pending.
    Waiting,
    /// A connection request (a `connect` or a `ping`) with its identifier.
    ConnectionRequest(String),
    /// A signature request with its identifier and the note to sign.
    SignatureRequest(String, Note),
}

/// Mathematical value of a prompt.
pub enum PromptView {
    Waiting,
    ConnectionRequest(Seq<char>),
    SignatureRequest(Seq<char>, NoteView),
}

impl View for Prompt {
    type V = PromptView;

    open spec fn view(&self) -> PromptView {
        match self {
            Prompt::Waiting => PromptView::Waiting,
            Prompt::ConnectionRequest(id) => PromptView::ConnectionRequest(id@),
            Prompt::SignatureRequest(id, note) => PromptView::SignatureRequest(id@, note@),
        }
    }
}

/// The prompt for a pending request.
pub open spec fn prompt_of(pending: Option<CommandView>) -> PromptView {
    match pending {
        None => PromptView::Waiting,
        Some(CommandView::Connect(_, id)) => PromptView::ConnectionRequest(id),
        Some(CommandView::Ping(_, id)) => PromptView::ConnectionRequest(id),
        Some(CommandView::SignEvent(_, id, note)) => PromptView::SignatureRequest(id, note),
    }
}

/// Whether a decision is offered for a command: `Approve` for `connect` and
/// `ping`, `Sign` and `SignAndSave` for `sign_event`, `Reject` for all.
pub open spec fn offered(command: CommandView, decision: Decision) -> bool {
    match decision {
        Decision::Reject => true,
        Decision::Approve => !(command is SignEvent),
        Decision::Sign => command is SignEvent,
        Decision::SignAndSave => command is SignEvent,
    }
}

/// Whether the signer can answer a command: a key is loaded and a shared
/// secret exists with the requester.
pub open spec fn signer_ready(keys: Option<Seq<char>>, command: CommandView) -> bool {
    keys is Some && is_public_key(command.requester())
}

/// The note that a decision puts into the archive.
pub open spec fn archived_by(keys: Option<Seq<char>>, command: CommandView, decision: Decision) -> Option<SignedNoteView> {
    match (keys, command, decision) {
        (Some(secret), CommandView::SignEvent(_, _, note), Decision::SignAndSave) => Some(signed_with(secret, note)),
        _ => None,
    }
}

/// What a decision amounts to: a response to send and a note to archive.
#[derive(Clone, Debug)]
pub struct Verdict {
    pub response: Option<SignedResponse>,
    pub archive: Option<SignedNote>,
}

/// The prompt to show for a pending request.
pub fn prompt_for(pending: Option<&Nip46Commands>) -> (prompt: Prompt)
    ensures
        prompt@ == prompt_of(match pending {
            Some(command) => Some(command@),
            None => None,
        }),
{
    match pending {
        None => Prompt::Waiting,
        Some(command) => match command {
            Nip46Commands::Connect(_, id) => Prompt::ConnectionRequest(id.clone()),
            Nip46Commands::Ping(_, id) => Prompt::ConnectionRequest(id.clone()),
            Nip46Commands::SignEvent(_, id, note) => Prompt::SignatureRequest(id.clone(), note.duplicate()),
        },
    }
}

/// Whether a decision is offered for a command.
pub fn is_offered(command: &Nip46Commands, decision: Decision) -> (yes: bool)
    ensures
        yes == offered(command@, decision),
{
    let signing = match command {
        Nip46Commands::SignEvent(_, _, _) => true,
        _ => false,
    };
    match decision {
        Decision::Reject => true,
        Decision::Approve => !signing,
        Decision::Sign => signing,
        Decision::SignAndSave => signing,
    }
}

/// Turns a decision about a command into a verdict.
///
/// A decision that is not offered for the command is refused.  `Reject`
/// yields nothing to send and nothing to archive.  Every other decision
/// yields a response that echoes the request identifier and is addressed to
/// the requester; `SignAndSave` also yields the signed note.  The signer
/// fails where no key is loaded or the requester cannot be reached.
pub fn decide(keys: &NostrKeys, command: &Nip46Commands, decision: Decision) -> (outcome: Result<Verdict, RouterError>)
    ensures
        outcome is Ok <==> offered(command@, decision) && (decision == Decision::Reject || signer_ready(
            keys@,
            command@,
        )),
        outcome matches Err(e) ==> e == (if offered(command@, decision) {
            RouterError::SigningUnavailable
        } else {
            RouterError::DecisionNotOffered
        }),
        outcome matches Ok(verdict) ==> {
            &&& verdict.response is Some <==> decision != Decision::Reject
            &&& verdict.response matches Some(response) ==> answers(response@, keys@->0, command@)
                && response@.request_id == command@.request_id()
            &&& sent_view(verdict.archive) == archived_by(keys@, command@, decision)
        },
{
    if !is_offered(command, decision) {
        return Err(RouterError::DecisionNotOffered);
    }
    match decision {
        Decision::Reject => Ok(Verdict { response: None, archive: None }),
        _ => {
            let response = match keys.respond_to_nip46_command(command) {
                Ok(response) => response,
                Err(_) => {
                    return Err(RouterError::SigningUnavailable);
                },
            };
            let archive = match (decision, command) {
                (Decision::SignAndSave, Nip46Commands::SignEvent(_, _, note)) => match keys.sign_note(note) {
                    Ok(signed) => Some(signed),
                    Err(_) => {
                        return Err(RouterError::SigningUnavailable);
                    },
                },
                _ => None,
            };
            Ok(Verdict { response: Some(response), archive })
        },
    }
}

/// What came of a decision.
#[derive(Clone, Debug)]
pub struct Resolution {
    /// The archive after the decision.
    pub notes: UserNotes,
    /// The response to publish on the link of the relay that asked.
    pub send: Option<SignedResponse>,
    /// The writes that the durable store is owed.
    pub effects: Vec<StoreEffect>,
    /// Why nothing was answered, if so.
    pub error: Option<RouterError>,
}

/// The error of a decision on an actor, if it has one.
pub open spec fn resolve_error(actor: ActorView, keys: Option<Seq<char>>, decision: Decision) -> Option<RouterError> {
    match actor.pending {
        None => Some(RouterError::NothingPending),
        Some(command) => if !offered(command, decision) {
            Some(RouterError::DecisionNotOffered)
        } else if decision != Decision::Reject && !signer_ready(keys, command) {
            Some(RouterError::SigningUnavailable)
        } else {
            None
        },
    }
}

/// The actor after a decision: the request is gone unless nothing was
/// decided about it.
pub open spec fn resolved_actor(actor: ActorView, keys: Option<Seq<char>>, decision: Decision) -> ActorView {
    match resolve_error(actor, keys, decision) {
        Some(RouterError::NothingPending) => actor,
        Some(RouterError::DecisionNotOffered) => actor,
        _ => actor_step(actor, ActorInput::Clear),
    }
}

/// The note that a decision adds to the archive, if any.
pub open spec fn resolved_archive(actor: ActorView, keys: Option<Seq<char>>, decision: Decision) -> Option<SignedNoteView> {
    if resolve_error(actor, keys, decision) is None {
        archived_by(keys, actor.pending->0, decision)
    } else {
        None
    }
}

/// Whether a decision makes the actor publish a response.
pub open spec fn resolve_sends(actor: ActorView, keys: Option<Seq<char>>, decision: Decision) -> bool {
    &&& resolve_error(actor, keys, decision) is None
    &&& decision != Decision::Reject
    &&& actor.phase == ActorPhase::Active
    &&& actor.relay.write
}

/// The archive after a note has or has not been added.
pub open spec fn archive_with(notes: Seq<SignedNoteView>, added: Option<SignedNoteView>) -> Seq<SignedNoteView> {
    match added {
        Some(note) => notes.push(note),
        None => notes,
    }
}

/// The writes that an addition to the archive asks for.
pub open spec fn archive_effects(added: Option<SignedNoteView>) -> Seq<EffectView> {
    match added {
        Some(note) => seq![EffectView::Put(IdbStores::UserNotes, DocumentView::UserNote(note))],
        None => seq![],
    }
}

/// Carries out the user's decision about the request that is pending on an
/// actor.
///
/// The response goes to the actor itself and so to the link of the relay
/// that asked; the actor drops it where the relay has no `write`.  Any
/// decision that is offered resolves the request.
pub fn resolve(actor: &mut RelayComponent, keys: &NostrKeys, notes: UserNotes, decision: Decision) -> (out: Resolution)
    ensures
        final(actor)@ == resolved_actor(old(actor)@, keys@, decision),
        out.error == resolve_error(old(actor)@, keys@, decision),
        out.notes@ == archive_with(notes@, resolved_archive(old(actor)@, keys@, decision)),
        effects_view(out.effects@) == archive_effects(resolved_archive(old(actor)@, keys@, decision)),
        out.send is Some <==> resolve_sends(old(actor)@, keys@, decision),
        out.send matches Some(response) ==> answers(response@, keys@->0, old(actor)@.pending->0),
        answerable(old(actor)@) ==> answerable(final(actor)@),
{
    let outcome = match actor.pending() {
        None => {
            let effects: Vec<StoreEffect> = Vec::new();
            assert(effects_view(effects@) =~= seq![]);
            return Resolution { notes, send: None, effects, error: Some(RouterError::NothingPending) };
        },
        Some(command) => decide(keys, command, decision),
    };
    match outcome {
        Err(RouterError::SigningUnavailable) => {
            actor.clear_pending();
            let effects: Vec<StoreEffect> = Vec::new();
            assert(effects_view(effects@) =~= seq![]);
            Resolution { notes, send: None, effects, error: Some(RouterError::SigningUnavailable) }
        },
        Err(e) => {
            let effects: Vec<StoreEffect> = Vec::new();
            assert(effects_view(effects@) =~= seq![]);
            Resolution { notes, send: None, effects, error: Some(e) }
        },
        Ok(verdict) => {
            let send = match verdict.response {
                Some(response) => actor.submit_response(response),
                None => {
                    actor.clear_pending();
                    None
                },
            };
            match verdict.archive {
                Some(signed) => {
                    let (notes, effects) = notes.reduce(UserNotesAction::AddNote(signed));
                    Resolution { notes, send, effects, error: None }
                },
                None => {
                    let effects: Vec<StoreEffect> = Vec::new();
                    assert(effects_view(effects@) =~= seq![]);
                    Resolution { notes, send, effects, error: None }
                },
            }
        },
    }
}

/// Approving a `connect` or a `ping` answers it and archives nothing: with
/// the signer ready there is no error, the request is resolved, the archive
/// and the durable store are left alone, and the response is published
/// exactly where the relay is active and has `write`.
pub proof fn approval_answers_and_archives_nothing(
    actor: ActorView,
    keys: Option<Seq<char>>,
    notes: Seq<SignedNoteView>,
)
    requires
        actor.pending matches Some(command) && !(command is SignEvent) && signer_ready(keys, command),
        actor.phase != ActorPhase::Closed,
    ensures
        resolve_error(actor, keys, Decision::Approve) is None,
        resolved_actor(actor, keys, Decision::Approve).pending is None,
        resolved_actor(actor, keys, Decision::Approve).phase == actor.phase,
        archive_with(notes, resolved_archive(actor, keys, Decision::Approve)) == notes,
        archive_effects(resolved_archive(actor, keys, Decision::Approve)) == Seq::<EffectView>::empty(),
        resolve_sends(actor, keys, Decision::Approve) == (actor.phase == ActorPhase::Active && actor.relay.write),
{
}

/// Signing and saving answers the request and archives exactly the signed
/// draft: the archive grows by that one note at its end and one write, the
/// put of that note, is asked for.  Signing alone answers the request and
/// leaves the archive, its order and the durable store alone.  Both hold of
/// a signing request while the signer is ready.
pub proof fn save_archives_exactly_one(actor: ActorView, keys: Option<Seq<char>>, notes: Seq<SignedNoteView>)
    requires
        actor.pending matches Some(command) && command is SignEvent && signer_ready(keys, command),
        actor.phase != ActorPhase::Closed,
    ensures
        resolve_error(actor, keys, Decision::SignAndSave) is None,
        resolve_error(actor, keys, Decision::Sign) is None,
        resolved_actor(actor, keys, Decision::SignAndSave).pending is None,
        resolved_actor(actor, keys, Decision::Sign).pending is None,
        resolve_sends(actor, keys, Decision::SignAndSave) == (actor.phase == ActorPhase::Active && actor.relay.write),
        resolve_sends(actor, keys, Decision::Sign) == (actor.phase == ActorPhase::Active && actor.relay.write),
        actor.pending matches Some(CommandView::SignEvent(_, _, draft)) && archive_with(
            notes,
            resolved_archive(actor, keys, Decision::SignAndSave),
        ) == notes.push(signed_with(keys->0, draft)) && archive_effects(
            resolved_archive(actor, keys, Decision::SignAndSave),
        ) == seq![EffectView::Put(IdbStores::UserNotes, DocumentView::UserNote(signed_with(keys->0, draft)))],
        archive_with(notes, resolved_archive(actor, keys, Decision::Sign)) == notes,
        archive_effects(resolved_archive(actor, keys, Decision::Sign)) == Seq::<EffectView>::empty(),
{
}

/// A request that was decoded from an event can always be answered once a
/// key is loaded: every decision that is offered for it goes through without
/// an error.
pub proof fn answerable_request_is_answered(actor: ActorView, keys: Option<Seq<char>>, decision: Decision)
    requires
        answerable(actor),
        keys is Some,
        actor.pending matches Some(command) && offered(command, decision),
    ensures
        resolve_error(actor, keys, decision) is None,
{
}

/// A decision on a relay without `write` publishes nothing, and still
/// resolves the request when it is offered.
pub proof fn unwritable_relay_drops_response(actor: ActorView, keys: Option<Seq<char>>, decision: Decision)
    requires
        !actor.relay.write,
    ensures
        !resolve_sends(actor, keys, decision),
        actor.pending matches Some(command) && offered(command, decision) && actor.phase != ActorPhase::Closed
            ==> resolved_actor(actor, keys, decision).pending is None,
{
}

/// The response that a decision yields echoes the identifier of the request
/// it answers.
pub proof fn response_echoes_request_id(response: ResponseView, secret: Seq<char>, command: CommandView)
    requires
        answers(response, secret, command),
    ensures
        response.request_id == command.request_id(),
        response.note.tags == seq![seq!["p"@, command.requester()]],
{
}

} // verus!
