//! The path of a delivery: verify, decode, append. Nothing is stored unless
//! the signature was accepted and the payload decoded.

use vstd::prelude::*;
use vstd::string::StringExecFns;
use vstd::utf8::encode_utf8;
use crate::decode::{DecodeError, decode, decode_at, decoded, decoded_view};
use crate::event::{GitHubWebhookEvent, WebhookEventView};
use crate::history::{EventHistory, MAX_EVENTS, appended, event_views};
use crate::json::json_document;
use crate::normalize::{Arrival, ArrivalView};
use crate::signature::{SIGNATURE_LENGTH, VerificationError, accepts, verify};

verus! {

/// Why a delivery was turned away.
#[derive(Debug, Clone, Copy, PartialEq, Eq, Structural)]
pub enum IngestError {
    /// The secret could not initialise the keyed digest.
    InvalidKey,
    /// The supplied signature is not the one the payload calls for.
    SignatureMismatch,
    /// The payload does not have the shape its event kind calls for.
    UnparsablePayload,
}

/// What became of a delivery that was let in.
#[derive(Debug, Clone, Copy, PartialEq, Eq, Structural)]
pub enum IngestOutcome {
    /// The event is now the newest entry of the history.
    Stored,
    /// The event kind is not one that is kept; the history is as it was.
    Ignored,
}

/// Startup configuration that cannot be used.
#[derive(Debug, Clone, Copy, PartialEq, Eq, Structural)]
pub enum ConfigError {
    /// No webhook secret was configured.
    MissingSecret,
}

impl IngestError {
    /// The message shown to the caller. It never carries the digest that was
    /// computed.
    pub fn message(&self) -> (text: String)
        ensures
            text@ == match *self {
                IngestError::InvalidKey => "Invalid key length"@,
                IngestError::SignatureMismatch => "Invalid webhook signature"@,
                IngestError::UnparsablePayload => "Failed to parse push event"@,
            },
    {
        match self {
            IngestError::InvalidKey => String::from_str("Invalid key length"),
            IngestError::SignatureMismatch => String::from_str("Invalid webhook signature"),
            IngestError::UnparsablePayload => String::from_str("Failed to parse push event"),
        }
    }
}

/// The value of what examining a delivery hands on.
pub open spec fn examined_view(examined: Result<Option<GitHubWebhookEvent>, IngestError>) -> Result<
    Option<WebhookEventView>,
    IngestError,
> {
    match examined {
        Ok(Some(event)) => Ok(Some(event@)),
        Ok(None) => Ok(None),
        Err(error) => Err(error),
    }
}

/// What a verdict on the signature means for the delivery.
pub open spec fn authorized(verdict: Result<bool, VerificationError>) -> Result<(), IngestError> {
    match verdict {
        Ok(true) => Ok(()),
        Ok(false) => Err(IngestError::SignatureMismatch),
        Err(VerificationError::InvalidKey) => Err(IngestError::InvalidKey),
    }
}

/// What the decoder's result means for an authorized delivery.
pub open spec fn accepted(decoded: Result<Option<WebhookEventView>, DecodeError>) -> Result<
    Option<WebhookEventView>,
    IngestError,
> {
    match decoded {
        Ok(event) => Ok(event),
        Err(_) => Err(IngestError::UnparsablePayload),
    }
}

/// What examining a delivery yields, before anything is stored: the event
/// to store, or nothing for a kind that is not kept, or why it is turned
/// away. The signature is judged first; a payload whose signature is not
/// accepted is never decoded.
pub open spec fn examined(
    secret: Seq<char>,
    payload: Seq<char>,
    signature: Seq<char>,
    event_kind: Seq<char>,
    arrival: ArrivalView,
) -> Result<Option<WebhookEventView>, IngestError> {
    if accepts(encode_utf8(secret), encode_utf8(payload), signature) {
        accepted(decoded(event_kind, json_document(payload), arrival))
    } else {
        Err(IngestError::SignatureMismatch)
    }
}

/// History and answer once a delivery has been examined: only an event
/// changes the history.
pub open spec fn recorded(
    history: Seq<WebhookEventView>,
    examined: Result<Option<WebhookEventView>, IngestError>,
) -> (Seq<WebhookEventView>, Result<IngestOutcome, IngestError>) {
    match examined {
        Ok(Some(event)) => (appended(history, event), Ok(IngestOutcome::Stored)),
        Ok(None) => (history, Ok(IngestOutcome::Ignored)),
        Err(error) => (history, Err(error)),
    }
}

/// History and answer after one delivery.
pub open spec fn ingested(
    history: Seq<WebhookEventView>,
    secret: Seq<char>,
    payload: Seq<char>,
    signature: Seq<char>,
    event_kind: Seq<char>,
    arrival: ArrivalView,
) -> (Seq<WebhookEventView>, Result<IngestOutcome, IngestError>) {
    recorded(history, examined(secret, payload, signature, event_kind, arrival))
}

/// A delivery whose signature is not accepted leaves the history exactly as
/// it was and is answered with a signature mismatch, whatever its payload,
/// its kind and the moment it came.
pub proof fn lemma_rejected_signature_changes_nothing(
    history: Seq<WebhookEventView>,
    secret: Seq<char>,
    payload: Seq<char>,
    signature: Seq<char>,
    event_kind: Seq<char>,
    arrival: ArrivalView,
)
    ensures
        !accepts(encode_utf8(secret), encode_utf8(payload), signature) ==> ingested(
            history,
            secret,
            payload,
            signature,
            event_kind,
            arrival,
        ) == (history, Err::<IngestOutcome, IngestError>(IngestError::SignatureMismatch)),
{
}

/// Either a delivery is stored whole, as the newest entry, or the history is
/// exactly as it was; and it is stored only if its signature was accepted.
pub proof fn lemma_ingest_is_all_or_nothing(
    history: Seq<WebhookEventView>,
    secret: Seq<char>,
    payload: Seq<char>,
    signature: Seq<char>,
    event_kind: Seq<char>,
    arrival: ArrivalView,
)
    ensures
        ({
            let (after, answer) = ingested(history, secret, payload, signature, event_kind, arrival);
            &&& answer == Ok::<IngestOutcome, IngestError>(IngestOutcome::Stored) || after
                == history
            &&& answer == Ok::<IngestOutcome, IngestError>(IngestOutcome::Stored) ==> accepts(
                encode_utf8(secret),
                encode_utf8(payload),
                signature,
            ) && event_kind == "push"@ && exists|event: WebhookEventView|
                after == #[trigger] appended(history, event)
        }),
{
}

/// Turns the verifier's verdict into leave to go on, or the error to report.
pub fn authorize(verdict: Result<bool, VerificationError>) -> (leave: Result<(), IngestError>)
    ensures
        leave == authorized(verdict),
{
    match verdict {
        Ok(true) => Ok(()),
        Ok(false) => Err(IngestError::SignatureMismatch),
        Err(VerificationError::InvalidKey) => Err(IngestError::InvalidKey),
    }
}

/// Hands on what the decoder produced, or reports the payload as
/// unparsable.
pub fn accept_decoded(decoded: Result<Option<GitHubWebhookEvent>, DecodeError>) -> (examined: Result<
    Option<GitHubWebhookEvent>,
    IngestError,
>)
    ensures
        examined_view(examined) == accepted(decoded_view(decoded)),
{
    match decoded {
        Ok(event) => Ok(event),
        Err(_) => Err(IngestError::UnparsablePayload),
    }
}

/// Examines a delivery taken in at `arrival` without storing anything:
/// verifies the signature over the payload, then decodes the payload.
pub fn examine_at(
    secret: &str,
    payload: &str,
    signature: &str,
    event_type: &str,
    arrival: &Arrival,
) -> (outcome: Result<Option<GitHubWebhookEvent>, IngestError>)
    ensures
        examined_view(outcome) == examined(secret@, payload@, signature@, event_type@, arrival@),
        signature@.len() != SIGNATURE_LENGTH ==> outcome == Err::<
            Option<GitHubWebhookEvent>,
            IngestError,
        >(IngestError::SignatureMismatch),
{
    match authorize(verify(secret.as_bytes(), payload.as_bytes(), signature)) {
        Ok(()) => accept_decoded(decode_at(event_type, payload, arrival)),
        Err(error) => Err(error),
    }
}

/// Examines a delivery taken in now. The clock is read only for a push
/// whose signature was accepted and whose payload decoded.
pub fn examine(secret: &str, payload: &str, signature: &str, event_type: &str) -> (outcome: Result<
    Option<GitHubWebhookEvent>,
    IngestError,
>)
    ensures
        exists|arrival: ArrivalView|
            examined_view(outcome) == #[trigger] examined(
                secret@,
                payload@,
                signature@,
                event_type@,
                arrival,
            ) && (outcome is Ok && outcome->Ok_0 is Some ==> arrival.well_formed()),
        !accepts(encode_utf8(secret@), encode_utf8(payload@), signature@) ==> outcome == Err::<
            Option<GitHubWebhookEvent>,
            IngestError,
        >(IngestError::SignatureMismatch),
        signature@.len() != SIGNATURE_LENGTH ==> outcome == Err::<
            Option<GitHubWebhookEvent>,
            IngestError,
        >(IngestError::SignatureMismatch),
{
    match authorize(verify(secret.as_bytes(), payload.as_bytes(), signature)) {
        Ok(()) => {
            let handed = decode(event_type, payload);
            let ghost arrival = choose|arrival: ArrivalView|
                decoded_view(handed) == #[trigger] decoded(
                    event_type@,
                    json_document(payload@),
                    arrival,
                ) && (handed is Ok && handed->Ok_0 is Some ==> arrival.well_formed());
            let outcome = accept_decoded(handed);
            assert(examined_view(outcome) == examined(
                secret@,
                payload@,
                signature@,
                event_type@,
                arrival,
            ));
            outcome
        },
        Err(error) => {
            assert(examined_view(Err(error)) == examined(
                secret@,
                payload@,
                signature@,
                event_type@,
                ArrivalView { unix_seconds: 0, subsec_nanos: 0, rfc3339: Seq::empty() },
            ));
            Err(error)
        },
    }
}

/// Stores what an examination handed on, if it handed on an event.
pub fn record(
    history: &mut EventHistory,
    examined: Result<Option<GitHubWebhookEvent>, IngestError>,
) -> (answer: Result<IngestOutcome, IngestError>)
    ensures
        (final(history)@, answer) == recorded(old(history)@, examined_view(examined)),
{
    match examined {
        Ok(Some(event)) => {
            history.append(event);
            Ok(IngestOutcome::Stored)
        },
        Ok(None) => Ok(IngestOutcome::Ignored),
        Err(error) => Err(error),
    }
}

/// The shared secret and the history of what it let in.
pub struct WebhookState {
    github_events: EventHistory,
    github_webhook_secret: String,
}

impl WebhookState {
    /// The retained events, oldest first.
    pub closed spec fn events(&self) -> Seq<WebhookEventView> {
        self.github_events@
    }

    /// The shared secret.
    pub closed spec fn secret(&self) -> Seq<char> {
        self.github_webhook_secret@
    }

    /// A state never retains more than [`MAX_EVENTS`] events.
    pub proof fn lemma_within_bound(self)
        ensures
            self.events().len() <= MAX_EVENTS,
    {
        self.github_events.lemma_within_bound();
    }

    /// A state with the given secret and an empty history.
    pub fn new(github_webhook_secret: &str) -> (state: Self)
        ensures
            state.secret() == github_webhook_secret@,
            state.events() == Seq::<WebhookEventView>::empty(),
    {
        WebhookState {
            github_events: EventHistory::new(),
            github_webhook_secret: String::from_str(github_webhook_secret),
        }
    }

    /// The state to start with, given the configured secret: there is no
    /// fallback for a secret that was not configured.
    pub fn from_configured(secret: Option<&str>) -> (outcome: Result<Self, ConfigError>)
        ensures
            match secret {
                Some(secret) => outcome is Ok && outcome->Ok_0.secret() == secret@
                    && outcome->Ok_0.events() == Seq::<WebhookEventView>::empty(),
                None => outcome is Err && outcome->Err_0 == ConfigError::MissingSecret,
            },
    {
        match secret {
            Some(secret) => Ok(WebhookState::new(secret)),
            None => Err(ConfigError::MissingSecret),
        }
    }

    /// Examines a delivery taken in at `arrival` against this state's
    /// secret. Nothing is stored; the history is not even read.
    pub fn examine_at(
        &self,
        payload: &str,
        signature: &str,
        event_type: &str,
        arrival: &Arrival,
    ) -> (outcome: Result<Option<GitHubWebhookEvent>, IngestError>)
        ensures
            examined_view(outcome) == examined(
                self.secret(),
                payload@,
                signature@,
                event_type@,
                arrival@,
            ),
            signature@.len() != SIGNATURE_LENGTH ==> outcome == Err::<
                Option<GitHubWebhookEvent>,
                IngestError,
            >(IngestError::SignatureMismatch),
    {
        examine_at(self.github_webhook_secret.as_str(), payload, signature, event_type, arrival)
    }

    /// Examines a delivery taken in now.
    pub fn examine(&self, payload: &str, signature: &str, event_type: &str) -> (outcome: Result<
        Option<GitHubWebhookEvent>,
        IngestError,
    >)
        ensures
            exists|arrival: ArrivalView|
                examined_view(outcome) == #[trigger] examined(
                    self.secret(),
                    payload@,
                    signature@,
                    event_type@,
                    arrival,
                ) && (outcome is Ok && outcome->Ok_0 is Some ==> arrival.well_formed()),
            !accepts(encode_utf8(self.secret()), encode_utf8(payload@), signature@) ==> outcome
                == Err::<Option<GitHubWebhookEvent>, IngestError>(IngestError::SignatureMismatch),
            signature@.len() != SIGNATURE_LENGTH ==> outcome == Err::<
                Option<GitHubWebhookEvent>,
                IngestError,
            >(IngestError::SignatureMismatch),
    {
        let outcome = examine(self.github_webhook_secret.as_str(), payload, signature, event_type);
        proof {
            let arrival = choose|arrival: ArrivalView|
                examined_view(outcome) == #[trigger] examined(
                    self.secret(),
                    payload@,
                    signature@,
                    event_type@,
                    arrival,
                ) && (outcome is Ok && outcome->Ok_0 is Some ==> arrival.well_formed());
            assert(examined_view(outcome) == examined(
                self.secret(),
                payload@,
                signature@,
                event_type@,
                arrival,
            ));
        }
        outcome
    }

    /// Stores what an examination handed on, if it handed on an event.
    pub fn record(&mut self, examined: Result<Option<GitHubWebhookEvent>, IngestError>) -> (answer:
        Result<IngestOutcome, IngestError>)
        ensures
            final(self).secret() == old(self).secret(),
            (final(self).events(), answer) == recorded(old(self).events(), examined_view(examined)),
    {
        record(&mut self.github_events, examined)
    }
}

/// A copy of the whole history, oldest first.
pub fn get_github_webhooks(state: &WebhookState) -> (events: Vec<GitHubWebhookEvent>)
    ensures
        event_views(events@) == state.events(),
        events.len() <= MAX_EVENTS,
{
    state.github_events.snapshot()
}

/// Takes in one delivery at `arrival`: verifies the signature over the
/// payload, decodes the payload, and appends the event.
pub fn handle_github_webhook_at(
    state: &mut WebhookState,
    payload: &str,
    signature: &str,
    event_type: &str,
    arrival: &Arrival,
) -> (answer: Result<IngestOutcome, IngestError>)
    ensures
        final(state).secret() == old(state).secret(),
        (final(state).events(), answer) == ingested(
            old(state).events(),
            old(state).secret(),
            payload@,
            signature@,
            event_type@,
            arrival@,
        ),
        answer is Err ==> final(state).events() == old(state).events(),
        signature@.len() != SIGNATURE_LENGTH ==> answer == Err::<IngestOutcome, IngestError>(
            IngestError::SignatureMismatch,
        ),
{
    let examined = state.examine_at(payload, signature, event_type, arrival);
    state.record(examined)
}

/// Takes in one delivery now.
pub fn handle_github_webhook(
    state: &mut WebhookState,
    payload: String,
    signature: String,
    event_type: String,
) -> (answer: Result<IngestOutcome, IngestError>)
    ensures
        final(state).secret() == old(state).secret(),
        exists|arrival: ArrivalView|
            (final(state).events(), answer) == #[trigger] ingested(
                old(state).events(),
                old(state).secret(),
                payload@,
                signature@,
                event_type@,
                arrival,
            ) && (answer == Ok::<IngestOutcome, IngestError>(IngestOutcome::Stored)
                ==> arrival.well_formed()),
        answer is Err ==> final(state).events() == old(state).events(),
        !accepts(encode_utf8(old(state).secret()), encode_utf8(payload@), signature@) ==> answer
            == Err::<IngestOutcome, IngestError>(IngestError::SignatureMismatch),
        signature@.len() != SIGNATURE_LENGTH ==> answer == Err::<IngestOutcome, IngestError>(
            IngestError::SignatureMismatch,
        ),
{
    let handed = state.examine(payload.as_str(), signature.as_str(), event_type.as_str());
    let ghost arrival = choose|arrival: ArrivalView|
        examined_view(handed) == #[trigger] examined(
            state.secret(),
            payload@,
            signature@,
            event_type@,
            arrival,
        ) && (handed is Ok && handed->Ok_0 is Some ==> arrival.well_formed());
    let ghost before = state.events();
    let ghost secret = state.secret();
    let answer = state.record(handed);
    assert((state.events(), answer) == ingested(
        before,
        secret,
        payload@,
        signature@,
        event_type@,
        arrival,
    ));
    answer
}

} // verus!
