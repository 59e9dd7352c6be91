//! Decoding a delivery into the event to store. Only the `push` kind is
//! decoded; every other kind is let through without an event. The clock is
//! read only once a push has been decoded.

use vstd::prelude::*;
use crate::event::{GitHubWebhookEvent, WebhookEventView};
use crate::json::{Json, json_document, parse};
use crate::normalize::{Arrival, ArrivalView, normalize, normalized};
use crate::push::{decode_push_event, push_event_of};
use crate::signature::same_text;
use crate::source::{PushEvent, PushEventView};

verus! {

/// Why a payload could not be decoded.
#[derive(Debug, Clone, Copy, PartialEq, Eq, Structural)]
pub enum DecodeError {
    /// The payload is not JSON, or lacks a required member, or holds one of
    /// the wrong kind.
    MalformedPayload,
}

/// The value of what reading a delivery hands on.
pub open spec fn carried_view(carried: Result<Option<PushEvent>, DecodeError>) -> Result<
    Option<PushEventView>,
    DecodeError,
> {
    match carried {
        Ok(Some(push)) => Ok(Some(push@)),
        Ok(None) => Ok(None),
        Err(error) => Err(error),
    }
}

/// The value of what the decoder hands on.
pub open spec fn decoded_view(decoded: Result<Option<GitHubWebhookEvent>, DecodeError>) -> Result<
    Option<WebhookEventView>,
    DecodeError,
> {
    match decoded {
        Ok(Some(event)) => Ok(Some(event@)),
        Ok(None) => Ok(None),
        Err(error) => Err(error),
    }
}

/// The push that a delivery of kind `event_kind` carries, its payload
/// having parsed to `doc` (or not parsed): a `push` must hold a well-formed
/// push event, every other kind carries nothing and is not even looked at.
pub open spec fn carried(event_kind: Seq<char>, doc: Option<Json>) -> Result<
    Option<PushEventView>,
    DecodeError,
> {
    if event_kind != "push"@ {
        Ok(None)
    } else {
        match doc {
            Some(doc) => match push_event_of(doc) {
                Some(push) => Ok(Some(push)),
                None => Err(DecodeError::MalformedPayload),
            },
            None => Err(DecodeError::MalformedPayload),
        }
    }
}

/// What is handed on once a carried push has been given its moment of
/// arrival.
pub open spec fn stamped(
    carried: Result<Option<PushEventView>, DecodeError>,
    arrival: ArrivalView,
) -> Result<Option<WebhookEventView>, DecodeError> {
    match carried {
        Ok(Some(push)) => Ok(Some(normalized(push, arrival))),
        Ok(None) => Ok(None),
        Err(error) => Err(error),
    }
}

/// What decoding yields for a delivery of kind `event_kind` whose payload
/// parsed to `doc` (or did not parse) and which was taken in at `arrival`.
pub open spec fn decoded(event_kind: Seq<char>, doc: Option<Json>, arrival: ArrivalView) -> Result<
    Option<WebhookEventView>,
    DecodeError,
> {
    stamped(carried(event_kind, doc), arrival)
}

/// Reads the push out of a delivery whose payload has already been parsed;
/// `None` stands for a payload that is not JSON.
pub fn read_document(event_kind: &str, doc: Option<&Json>) -> (outcome: Result<
    Option<PushEvent>,
    DecodeError,
>)
    ensures
        carried_view(outcome) == carried(
            event_kind@,
            match doc {
                Some(doc) => Some(*doc),
                None => None,
            },
        ),
{
    if !same_text(event_kind, "push") {
        return Ok(None);
    }
    match doc {
        Some(doc) => match decode_push_event(doc) {
            Ok(push) => Ok(Some(push)),
            Err(error) => Err(error),
        },
        None => Err(DecodeError::MalformedPayload),
    }
}

/// Reads the push out of a delivery. The payload of a kind other than
/// `push` is not parsed.
pub fn read_payload(event_kind: &str, payload: &str) -> (outcome: Result<
    Option<PushEvent>,
    DecodeError,
>)
    ensures
        carried_view(outcome) == carried(event_kind@, json_document(payload@)),
{
    if !same_text(event_kind, "push") {
        return Ok(None);
    }
    let doc = parse(payload);
    read_document(event_kind, doc.as_ref())
}

/// Gives a carried push its moment of arrival.
pub fn stamp(carried: Result<Option<PushEvent>, DecodeError>, arrival: &Arrival) -> (outcome: Result<
    Option<GitHubWebhookEvent>,
    DecodeError,
>)
    ensures
        decoded_view(outcome) == stamped(carried_view(carried), arrival@),
{
    match carried {
        Ok(Some(push)) => Ok(Some(normalize(&push, arrival))),
        Ok(None) => Ok(None),
        Err(error) => Err(error),
    }
}

/// Decodes a delivery whose payload has already been parsed, taken in at
/// `arrival`.
pub fn decode_document(event_kind: &str, doc: Option<&Json>, arrival: &Arrival) -> (outcome: Result<
    Option<GitHubWebhookEvent>,
    DecodeError,
>)
    ensures
        decoded_view(outcome) == decoded(
            event_kind@,
            match doc {
                Some(doc) => Some(*doc),
                None => None,
            },
            arrival@,
        ),
{
    stamp(read_document(event_kind, doc), arrival)
}

/// Decodes a delivery taken in at `arrival`.
pub fn decode_at(event_kind: &str, payload: &str, arrival: &Arrival) -> (outcome: Result<
    Option<GitHubWebhookEvent>,
    DecodeError,
>)
    ensures
        decoded_view(outcome) == decoded(event_kind@, json_document(payload@), arrival@),
{
    stamp(read_payload(event_kind, payload), arrival)
}

/// Decodes a delivery taken in now. The result is what [`decode_at`] gives
/// for some moment, which is for the clock to say; an event that comes out
/// carries a timestamp that belongs to the instant in its id.
pub fn decode(event_kind: &str, payload: &str) -> (outcome: Result<
    Option<GitHubWebhookEvent>,
    DecodeError,
>)
    ensures
        exists|arrival: ArrivalView|
            decoded_view(outcome) == #[trigger] decoded(
                event_kind@,
                json_document(payload@),
                arrival,
            ) && (outcome is Ok && outcome->Ok_0 is Some ==> arrival.well_formed()),
        carried(event_kind@, json_document(payload@)) is Err ==> outcome is Err,
        carried(event_kind@, json_document(payload@)) == Ok::<Option<PushEventView>, DecodeError>(
            None,
        ) ==> outcome == Ok::<Option<GitHubWebhookEvent>, DecodeError>(None),
{
    match read_payload(event_kind, payload) {
        Ok(Some(push)) => {
            let arrival = Arrival::now();
            let outcome = stamp(Ok(Some(push)), &arrival);
            assert(decoded_view(outcome) == decoded(
                event_kind@,
                json_document(payload@),
                arrival@,
            ));
            outcome
        },
        Ok(None) => {
            assert(decoded_view(Ok(None)) == decoded(
                event_kind@,
                json_document(payload@),
                ArrivalView { unix_seconds: 0, subsec_nanos: 0, rfc3339: Seq::empty() },
            ));
            Ok(None)
        },
        Err(error) => {
            assert(decoded_view(Err(error)) == decoded(
                event_kind@,
                json_document(payload@),
                ArrivalView { unix_seconds: 0, subsec_nanos: 0, rfc3339: Seq::empty() },
            ));
            Err(error)
        },
    }
}

} // verus!
