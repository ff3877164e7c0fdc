//! The remote-signing commands and how a request is read.

use vstd::prelude::*;
use crate::notes::{Note, NoteView, SignedNote, SignedNoteView};
use crate::signer::{
    draft_note_of, is_public_key, is_response_for, parse_draft_note, parse_request_envelope,
    request_envelope, request_plaintext, EnvelopeView, RequestEnvelope, SignerKey,
};

verus! {

/// Mathematical value of a command.
pub enum CommandView {
    Connect(Seq<char>, Seq<char>),
    Ping(Seq<char>, Seq<char>),
    SignEvent(Seq<char>, Seq<char>, NoteView),
}

impl CommandView {
    /// The public key of the client that sent the command.
    pub open spec fn requester(self) -> Seq<char> {
        match self {
            CommandView::Connect(peer, _) => peer,
            CommandView::Ping(peer, _) => peer,
            CommandView::SignEvent(peer, _, _) => peer,
        }
    }

    /// The identifier that the response must echo.
    pub open spec fn request_id(self) -> Seq<char> {
        match self {
            CommandView::Connect(_, id) => id,
            CommandView::Ping(_, id) => id,
            CommandView::SignEvent(_, id, _) => id,
        }
    }
}

/// A decoded request.  Each variant holds the requester's public key and the
/// request identifier; a signing request also holds the note to sign.
#[derive(Clone, Debug)]
pub enum Nip46Commands {
    Connect(String, String),
    Ping(String, String),
    SignEvent(String, String, Note),
}

impl View for Nip46Commands {
    type V = CommandView;

    open spec fn view(&self) -> CommandView {
        match self {
            Nip46Commands::Connect(peer, id) => CommandView::Connect(peer@, id@),
            Nip46Commands::Ping(peer, id) => CommandView::Ping(peer@, id@),
            Nip46Commands::SignEvent(peer, id, note) => CommandView::SignEvent(peer@, id@, note@),
        }
    }
}

impl Nip46Commands {
    /// The public key of the client that sent the command.
    pub fn requester(&self) -> (peer: &String)
        ensures
            peer@ == self@.requester(),
    {
        match self {
            Nip46Commands::Connect(peer, _) => peer,
            Nip46Commands::Ping(peer, _) => peer,
            Nip46Commands::SignEvent(peer, _, _) => peer,
        }
    }

    /// The identifier that the response must echo.
    pub fn request_id(&self) -> (id: &String)
        ensures
            id@ == self@.request_id(),
    {
        match self {
            Nip46Commands::Connect(_, id) => id,
            Nip46Commands::Ping(_, id) => id,
            Nip46Commands::SignEvent(_, id, _) => id,
        }
    }

    /// A copy with the same value.
    pub fn duplicate(&self) -> (copy: Nip46Commands)
        ensures
            copy@ == self@,
    {
        match self {
            Nip46Commands::Connect(peer, id) => Nip46Commands::Connect(peer.clone(), id.clone()),
            Nip46Commands::Ping(peer, id) => Nip46Commands::Ping(peer.clone(), id.clone()),
            Nip46Commands::SignEvent(peer, id, note) => Nip46Commands::SignEvent(
                peer.clone(),
                id.clone(),
                note.duplicate(),
            ),
        }
    }
}

/// Why a request could not be read or answered.
#[derive(Clone, Copy, Debug, PartialEq, Eq, Structural)]
pub enum Nip46Error {
    /// The content cannot be decrypted or does not hold a request.
    MalformedCommand,
    /// The request names a method other than `connect`, `ping` and `sign_event`.
    UnsupportedCommand,
    /// No key is loaded, or the signer cannot reach the requester.
    SigningUnavailable,
}

impl Nip46Error {
    /// A short description for the user.
    pub fn to_string(&self) -> (text: String)
        ensures
            text@ == (match *self {
                Nip46Error::MalformedCommand => "malformed command"@,
                Nip46Error::UnsupportedCommand => "unsupported command"@,
                Nip46Error::SigningUnavailable => "signing unavailable"@,
            }),
    {
        match self {
            Nip46Error::MalformedCommand => String::from_str("malformed command"),
            Nip46Error::UnsupportedCommand => String::from_str("unsupported command"),
            Nip46Error::SigningUnavailable => String::from_str("signing unavailable"),
        }
    }
}

/// The methods of the protocol that the signer serves.
#[derive(Clone, Copy, Debug, PartialEq, Eq, Structural)]
pub enum Method {
    Connect,
    Ping,
    SignEvent,
    Other,
}

/// The method that a name stands for.
pub open spec fn method_of(name: Seq<char>) -> Method {
    if name == "connect"@ {
        Method::Connect
    } else if name == "ping"@ {
        Method::Ping
    } else if name == "sign_event"@ {
        Method::SignEvent
    } else {
        Method::Other
    }
}

/// Tells the three served methods from all other names.
pub fn classify_method(name: &String) -> (method: Method)
    ensures
        method == method_of(name@),
{
    if *name == String::from_str("connect") {
        Method::Connect
    } else if *name == String::from_str("ping") {
        Method::Ping
    } else if *name == String::from_str("sign_event") {
        Method::SignEvent
    } else {
        Method::Other
    }
}

/// The value of a decoding result.
pub open spec fn outcome_view(outcome: Result<Nip46Commands, Nip46Error>) -> Result<CommandView, Nip46Error> {
    match outcome {
        Ok(command) => Ok(command@),
        Err(e) => Err(e),
    }
}

/// The signing command for a draft, or the error for a draft that could not
/// be read.
pub open spec fn sign_event_of(requester: Seq<char>, id: Seq<char>, draft: Option<NoteView>) -> Result<CommandView, Nip46Error> {
    match draft {
        Some(note) => Ok(CommandView::SignEvent(requester, id, note)),
        None => Err(Nip46Error::MalformedCommand),
    }
}

/// The command that an envelope from `requester` stands for.
pub open spec fn command_of(requester: Seq<char>, envelope: EnvelopeView) -> Result<CommandView, Nip46Error> {
    match method_of(envelope.method) {
        Method::Connect => Ok(CommandView::Connect(requester, envelope.id)),
        Method::Ping => Ok(CommandView::Ping(requester, envelope.id)),
        Method::SignEvent => if envelope.params.len() == 0 {
            Err(Nip46Error::MalformedCommand)
        } else {
            sign_event_of(requester, envelope.id, draft_note_of(envelope.params[0]))
        },
        Method::Other => Err(Nip46Error::UnsupportedCommand),
    }
}

/// The command that a signed request decodes to under a secret key.
pub open spec fn decoded_request(secret: Seq<char>, event: SignedNoteView) -> Result<CommandView, Nip46Error> {
    match request_plaintext(secret, event.pubkey, event.content) {
        None => Err(Nip46Error::MalformedCommand),
        Some(text) => match request_envelope(text) {
            None => Err(Nip46Error::MalformedCommand),
            Some(envelope) => command_of(event.pubkey, envelope),
        },
    }
}

/// A command keeps what the envelope said: it names the sender of the event
/// as its requester and carries the identifier of the envelope.
pub proof fn command_keeps_sender_and_id(requester: Seq<char>, envelope: EnvelopeView)
    ensures
        command_of(requester, envelope) matches Ok(command) ==> command.requester() == requester
            && command.request_id() == envelope.id,
{
}

/// A decoded command names the author of the event as its requester, so a
/// response to it is addressed to whoever sent the request.
pub proof fn decoded_command_names_its_sender(secret: Seq<char>, event: SignedNoteView)
    ensures
        decoded_request(secret, event) matches Ok(command) ==> command.requester() == event.pubkey,
{
    match request_plaintext(secret, event.pubkey, event.content) {
        Some(text) => match request_envelope(text) {
            Some(envelope) => command_keeps_sender_and_id(event.pubkey, envelope),
            None => {},
        },
        None => {},
    }
}

/// Builds the signing command once the draft has been parsed.
pub fn sign_event_command(requester: String, id: String, draft: Option<Note>) -> (outcome: Result<Nip46Commands, Nip46Error>)
    ensures
        outcome_view(outcome) == sign_event_of(requester@, id@, match draft {
            Some(note) => Some(note@),
            None => None,
        }),
{
    match draft {
        Some(note) => Ok(Nip46Commands::SignEvent(requester, id, note)),
        None => Err(Nip46Error::MalformedCommand),
    }
}

/// Turns a request envelope into a command.  `connect` and `ping` carry
/// nothing but the identifier; `sign_event` carries the draft as its first
/// parameter; every other method is refused.
pub fn interpret_envelope(requester: &String, envelope: &RequestEnvelope) -> (outcome: Result<Nip46Commands, Nip46Error>)
    ensures
        outcome_view(outcome) == command_of(requester@, envelope@),
{
    match classify_method(&envelope.method) {
        Method::Connect => Ok(Nip46Commands::Connect(requester.clone(), envelope.id.clone())),
        Method::Ping => Ok(Nip46Commands::Ping(requester.clone(), envelope.id.clone())),
        Method::SignEvent => {
            if envelope.params.len() == 0 {
                Err(Nip46Error::MalformedCommand)
            } else {
                assert(envelope@.params[0] == envelope.params[0]@);
                let draft = parse_draft_note(&envelope.params[0]);
                sign_event_command(requester.clone(), envelope.id.clone(), draft)
            }
        },
        Method::Other => Err(Nip46Error::UnsupportedCommand),
    }
}

/// Decodes a signed request: decrypts its content with the key, reads the
/// envelope and interprets it.
pub fn decode_request(key: &SignerKey, event: &SignedNote) -> (outcome: Result<Nip46Commands, Nip46Error>)
    ensures
        outcome_view(outcome) == decoded_request(key@, event@),
        outcome matches Ok(command) ==> command@.requester() == event@.pubkey && is_public_key(
            command@.requester(),
        ),
{
    proof {
        decoded_command_names_its_sender(key@, event@);
    }
    match key.decrypt_request(&event.pubkey, &event.content) {
        None => Err(Nip46Error::MalformedCommand),
        Some(text) => match parse_request_envelope(&text) {
            None => Err(Nip46Error::MalformedCommand),
            Some(envelope) => interpret_envelope(&event.pubkey, &envelope),
        },
    }
}

/// A response together with the identifier of the request that it answers.
#[derive(Clone, Debug)]
pub struct SignedResponse {
    pub request_id: String,
    pub note: SignedNote,
}

/// Mathematical value of a response.
pub struct ResponseView {
    pub request_id: Seq<char>,
    pub note: SignedNoteView,
}

impl View for SignedResponse {
    type V = ResponseView;

    open spec fn view(&self) -> ResponseView {
        ResponseView { request_id: self.request_id@, note: self.note@ }
    }
}

/// Whether a response answers `command` on behalf of the holder of `secret`:
/// it echoes the request identifier and is addressed to the requester.
pub open spec fn answers(response: ResponseView, secret: Seq<char>, command: CommandView) -> bool {
    &&& response.request_id == command.request_id()
    &&& is_response_for(response.note, secret, command.requester())
}

/// Encodes the response to a command.  It fails only where the signer
/// cannot reach the requester.
pub fn encode_response(key: &SignerKey, command: &Nip46Commands) -> (outcome: Result<SignedResponse, Nip46Error>)
    ensures
        outcome is Ok <==> is_public_key(command@.requester()),
        outcome matches Ok(response) ==> answers(response@, key@, command@),
        outcome matches Err(e) ==> e == Nip46Error::SigningUnavailable,
{
    match key.respond(command) {
        Some(note) => Ok(SignedResponse { request_id: command.request_id().clone(), note }),
        None => Err(Nip46Error::SigningUnavailable),
    }
}

} // verus!
