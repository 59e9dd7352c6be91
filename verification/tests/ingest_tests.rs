use hmac::Mac;
use webhook_ingest::decode::{
    decode, decode_at, decode_document, read_document, read_payload, stamp, DecodeError,
};
use webhook_ingest::event::GitHubWebhookEvent;
use webhook_ingest::history::EventHistory;
use webhook_ingest::ingest::{
    accept_decoded, authorize, examine, examine_at, get_github_webhooks, handle_github_webhook,
    handle_github_webhook_at, record, ConfigError, IngestError, IngestOutcome, WebhookState,
};
use webhook_ingest::json::parse;
use webhook_ingest::normalize::Arrival;
use webhook_ingest::signature::VerificationError;

const PAYLOAD: &str = r#"{"ref":"refs/heads/main","before":"a","after":"b","repository":{"id":1,"name":"repo","full_name":"acme/repo","owner":{"login":"acme","id":7,"avatar_url":"http://x/o.png","html_url":"http://x/acme"},"html_url":"http://x/acme/repo","description":null,"fork":false,"default_branch":"main"},"pusher":{"name":"ada"},"sender":{"login":"ada","id":9,"avatar_url":"http://x/a.png","html_url":"http://x/ada"},"commits":[{"id":"c1","message":"fix bug","author":{"name":"ada","email":"a@x","username":"ada"},"timestamp":"2024-01-01T00:00:00Z"}]}"#;

fn sign(secret: &str, payload: &str) -> String {
    let mut mac = hmac::Hmac::<sha1::Sha1>::new_from_slice(secret.as_bytes()).unwrap();
    mac.update(payload.as_bytes());
    format!("sha1={}", hex::encode(mac.finalize().into_bytes()))
}

fn arrival() -> Arrival {
    Arrival::at(1704067200, 0).unwrap()
}

fn ids(events: &[GitHubWebhookEvent]) -> Vec<String> {
    events.iter().map(|e| e.id.clone()).collect()
}

#[test]
fn end_to_end_push_is_stored() {
    let mut state = WebhookState::new("s3cr3t");
    let signature = sign("s3cr3t", PAYLOAD);
    let answer = handle_github_webhook(
        &mut state,
        PAYLOAD.to_string(),
        signature,
        "push".to_string(),
    );
    assert_eq!(answer, Ok(IngestOutcome::Stored));
    let events = get_github_webhooks(&state);
    assert_eq!(events.len(), 1);
    assert_eq!(events[0].repo, "acme/repo");
    assert_eq!(events[0].branch, "main");
    assert_eq!(events[0].author, "ada");
    assert_eq!(events[0].author_avatar, "http://x/a.png");
    assert_eq!(events[0].event_type, "push");
    assert_eq!(events[0].commits.len(), 1);
    assert_eq!(events[0].commits[0].message, "fix bug");
    assert_eq!(events[0].commits[0].id, "c1");
    assert_eq!(events[0].commits[0].author, "ada");
    let moment = chrono::DateTime::parse_from_rfc3339(&events[0].timestamp).unwrap();
    assert_eq!(events[0].id, format!("github_{}", moment.timestamp()));
}

#[test]
fn end_to_end_at_a_given_moment() {
    let mut state = WebhookState::new("s3cr3t");
    let signature = sign("s3cr3t", PAYLOAD);
    let answer = handle_github_webhook_at(&mut state, PAYLOAD, &signature, "push", &arrival());
    assert_eq!(answer, Ok(IngestOutcome::Stored));
    let events = get_github_webhooks(&state);
    assert_eq!(events.len(), 1);
    assert_eq!(events[0].id, "github_1704067200");
    assert_eq!(events[0].timestamp, "2024-01-01T00:00:00+00:00");
    assert_eq!(events[0].repo, "acme/repo");
    assert_eq!(events[0].branch, "main");
    assert_eq!(events[0].author, "ada");
}

#[test]
fn bad_signature_leaves_history_untouched() {
    let mut state = WebhookState::new("s3cr3t");
    let good = sign("s3cr3t", PAYLOAD);
    assert_eq!(
        handle_github_webhook_at(&mut state, PAYLOAD, &good, "push", &arrival()),
        Ok(IngestOutcome::Stored)
    );
    let before = ids(&get_github_webhooks(&state));
    let forged = sign("guess", PAYLOAD);
    let answer =
        handle_github_webhook(&mut state, PAYLOAD.to_string(), forged, "push".to_string());
    assert_eq!(answer, Err(IngestError::SignatureMismatch));
    assert_eq!(ids(&get_github_webhooks(&state)), before);
    let answer = handle_github_webhook_at(&mut state, PAYLOAD, "", "push", &arrival());
    assert_eq!(answer, Err(IngestError::SignatureMismatch));
    assert_eq!(ids(&get_github_webhooks(&state)), before);
}

#[test]
fn signature_of_the_wrong_length_is_rejected() {
    let mut state = WebhookState::new("s3cr3t");
    let good = sign("s3cr3t", PAYLOAD);
    assert_eq!(good.len(), 45);
    let cut = &good[..43];
    assert_eq!(
        handle_github_webhook_at(&mut state, PAYLOAD, cut, "push", &arrival()),
        Err(IngestError::SignatureMismatch)
    );
    assert_eq!(
        handle_github_webhook(&mut state, PAYLOAD.to_string(), cut.to_string(), "push".to_string()),
        Err(IngestError::SignatureMismatch)
    );
    let longer = format!("{}00", good);
    assert_eq!(
        handle_github_webhook_at(&mut state, PAYLOAD, &longer, "push", &arrival()),
        Err(IngestError::SignatureMismatch)
    );
    assert!(get_github_webhooks(&state).is_empty());
}

#[test]
fn repeated_member_counts_with_its_last_value() {
    let twice = PAYLOAD.replacen("{\"ref\":\"refs/heads/main\",", "{\"ref\":\"refs/heads/old\",\"ref\":\"refs/heads/new\",", 1);
    assert!(twice.contains("refs/heads/old"));
    let mut state = WebhookState::new("s3cr3t");
    let signature = sign("s3cr3t", &twice);
    assert_eq!(
        handle_github_webhook_at(&mut state, &twice, &signature, "push", &arrival()),
        Ok(IngestOutcome::Stored)
    );
    assert_eq!(get_github_webhooks(&state)[0].branch, "new");
}

#[test]
fn signature_is_checked_before_the_payload_is_read() {
    let mut state = WebhookState::new("s3cr3t");
    let answer = handle_github_webhook_at(&mut state, "not json", "sha1=00", "push", &arrival());
    assert_eq!(answer, Err(IngestError::SignatureMismatch));
    let answer = handle_github_webhook_at(&mut state, PAYLOAD, "sha1=00", "ping", &arrival());
    assert_eq!(answer, Err(IngestError::SignatureMismatch));
    assert!(get_github_webhooks(&state).is_empty());
}

#[test]
fn altered_payload_is_rejected() {
    let mut state = WebhookState::new("s3cr3t");
    let signature = sign("s3cr3t", PAYLOAD);
    let altered = PAYLOAD.replace("acme/repo", "evil/repo");
    let answer = handle_github_webhook_at(&mut state, &altered, &signature, "push", &arrival());
    assert_eq!(answer, Err(IngestError::SignatureMismatch));
    assert!(get_github_webhooks(&state).is_empty());
}

#[test]
fn unparsable_push_is_rejected_and_nothing_stored() {
    let mut state = WebhookState::new("s3cr3t");
    for payload in ["not json", "{}", r#"{"ref":"refs/heads/main"}"#] {
        let signature = sign("s3cr3t", payload);
        let answer = handle_github_webhook_at(&mut state, payload, &signature, "push", &arrival());
        assert_eq!(answer, Err(IngestError::UnparsablePayload));
    }
    assert!(get_github_webhooks(&state).is_empty());
}

#[test]
fn other_event_kinds_are_accepted_but_not_stored() {
    let mut state = WebhookState::new("s3cr3t");
    for (kind, payload) in [("ping", "{\"zen\":\"x\"}"), ("issues", "not json"), ("Push", PAYLOAD), ("", "")] {
        let signature = sign("s3cr3t", payload);
        let answer = handle_github_webhook_at(&mut state, payload, &signature, kind, &arrival());
        assert_eq!(answer, Ok(IngestOutcome::Ignored));
    }
    assert!(get_github_webhooks(&state).is_empty());
}

#[test]
fn history_through_the_coordinator_keeps_the_last_hundred() {
    let mut state = WebhookState::new("s3cr3t");
    let signature = sign("s3cr3t", PAYLOAD);
    for n in 0..130 {
        let at = Arrival::at(n, 0).unwrap();
        let answer = handle_github_webhook_at(&mut state, PAYLOAD, &signature, "push", &at);
        assert_eq!(answer, Ok(IngestOutcome::Stored));
    }
    let events = get_github_webhooks(&state);
    assert_eq!(events.len(), 100);
    let expected: Vec<String> = (30..130).map(|n| format!("github_{}", n)).collect();
    assert_eq!(ids(&events), expected);
}

#[test]
fn empty_secret_still_signs() {
    let mut state = WebhookState::new("");
    let signature = sign("", PAYLOAD);
    let answer = handle_github_webhook_at(&mut state, PAYLOAD, &signature, "push", &arrival());
    assert_eq!(answer, Ok(IngestOutcome::Stored));
}

#[test]
fn configured_secret_is_required() {
    assert!(matches!(WebhookState::from_configured(None), Err(ConfigError::MissingSecret)));
    let mut state = match WebhookState::from_configured(Some("s3cr3t")) {
        Ok(state) => state,
        Err(_) => panic!("a configured secret was refused"),
    };
    assert!(get_github_webhooks(&state).is_empty());
    let signature = sign("s3cr3t", PAYLOAD);
    let answer = handle_github_webhook_at(&mut state, PAYLOAD, &signature, "push", &arrival());
    assert_eq!(answer, Ok(IngestOutcome::Stored));
}

#[test]
fn authorize_maps_each_verdict() {
    assert_eq!(authorize(Ok(true)), Ok(()));
    assert_eq!(authorize(Ok(false)), Err(IngestError::SignatureMismatch));
    assert_eq!(authorize(Err(VerificationError::InvalidKey)), Err(IngestError::InvalidKey));
}

#[test]
fn accept_decoded_maps_a_decode_failure() {
    assert!(matches!(accept_decoded(Ok(None)), Ok(None)));
    assert!(matches!(
        accept_decoded(Err(DecodeError::MalformedPayload)),
        Err(IngestError::UnparsablePayload)
    ));
    let decoded = decode_at("push", PAYLOAD, &arrival());
    match accept_decoded(decoded) {
        Ok(Some(event)) => assert_eq!(event.id, "github_1704067200"),
        _ => panic!("the event was not handed on"),
    }
}

#[test]
fn record_stores_only_events() {
    let mut history = EventHistory::new();
    assert_eq!(record(&mut history, Ok(None)), Ok(IngestOutcome::Ignored));
    assert_eq!(history.len(), 0);
    for error in [
        IngestError::InvalidKey,
        IngestError::SignatureMismatch,
        IngestError::UnparsablePayload,
    ] {
        assert_eq!(record(&mut history, Err(error)), Err(error));
        assert_eq!(history.len(), 0);
    }
    let examined = accept_decoded(decode_at("push", PAYLOAD, &arrival()));
    assert_eq!(record(&mut history, examined), Ok(IngestOutcome::Stored));
    assert_eq!(history.len(), 1);
    assert_eq!(history.snapshot()[0].id, "github_1704067200");
}

#[test]
fn examine_at_judges_signature_before_payload() {
    let signature = sign("s3cr3t", PAYLOAD);
    match examine_at("s3cr3t", PAYLOAD, &signature, "push", &arrival()) {
        Ok(Some(event)) => {
            assert_eq!(event.repo, "acme/repo");
            assert_eq!(event.id, "github_1704067200");
        }
        _ => panic!("a signed push was not handed on"),
    }
    assert!(matches!(examine_at("s3cr3t", PAYLOAD, &signature, "ping", &arrival()), Ok(None)));
    assert!(matches!(
        examine_at("other", PAYLOAD, &signature, "push", &arrival()),
        Err(IngestError::SignatureMismatch)
    ));
    assert!(matches!(
        examine_at("s3cr3t", "not json", "sha1=00", "push", &arrival()),
        Err(IngestError::SignatureMismatch)
    ));
    let signed_garbage = sign("s3cr3t", "not json");
    assert!(matches!(
        examine_at("s3cr3t", "not json", &signed_garbage, "push", &arrival()),
        Err(IngestError::UnparsablePayload)
    ));
}

#[test]
fn state_examines_without_storing_and_records_afterwards() {
    let mut state = WebhookState::new("s3cr3t");
    let signature = sign("s3cr3t", PAYLOAD);
    let examined = state.examine(PAYLOAD, &signature, "push");
    assert!(get_github_webhooks(&state).is_empty());
    assert_eq!(state.record(examined), Ok(IngestOutcome::Stored));
    assert_eq!(get_github_webhooks(&state).len(), 1);
    let examined = state.examine_at(PAYLOAD, "sha1=nope", "push", &arrival());
    assert_eq!(state.record(examined), Err(IngestError::SignatureMismatch));
    let examined = state.examine(PAYLOAD, &signature, "ping");
    assert_eq!(state.record(examined), Ok(IngestOutcome::Ignored));
    assert_eq!(get_github_webhooks(&state).len(), 1);
}

#[test]
fn decode_at_handles_push_only() {
    let event = decode_at("push", PAYLOAD, &arrival()).unwrap().unwrap();
    assert_eq!(event.repo, "acme/repo");
    assert_eq!(event.id, "github_1704067200");
    assert!(matches!(decode_at("ping", PAYLOAD, &arrival()), Ok(None)));
    assert!(matches!(decode_at("ping", "not json", &arrival()), Ok(None)));
    assert!(matches!(decode_at("push", "not json", &arrival()), Err(DecodeError::MalformedPayload)));
    assert!(matches!(decode_at("push", "{}", &arrival()), Err(DecodeError::MalformedPayload)));
}

#[test]
fn decode_document_takes_the_parsed_payload() {
    let doc = parse(PAYLOAD).unwrap();
    let event = decode_document("push", Some(&doc), &arrival()).unwrap().unwrap();
    assert_eq!(event.branch, "main");
    assert_eq!(event.commits.len(), 1);
    assert!(matches!(decode_document("push", None, &arrival()), Err(DecodeError::MalformedPayload)));
    assert!(matches!(decode_document("release", None, &arrival()), Ok(None)));
    assert!(matches!(decode_document("release", Some(&doc), &arrival()), Ok(None)));
}

#[test]
fn read_payload_parses_push_only() {
    let push = read_payload("push", PAYLOAD).unwrap().unwrap();
    assert_eq!(push.ref_name, "refs/heads/main");
    assert_eq!(push.repository.full_name, "acme/repo");
    assert!(matches!(read_payload("ping", PAYLOAD), Ok(None)));
    assert!(matches!(read_payload("ping", "not json"), Ok(None)));
    assert!(matches!(read_payload("push", "not json"), Err(DecodeError::MalformedPayload)));
    assert!(matches!(read_payload("push", "{}"), Err(DecodeError::MalformedPayload)));
}

#[test]
fn read_document_takes_the_parsed_payload() {
    let doc = parse(PAYLOAD).unwrap();
    let push = read_document("push", Some(&doc)).unwrap().unwrap();
    assert_eq!(push.after, "b");
    assert!(matches!(read_document("push", None), Err(DecodeError::MalformedPayload)));
    assert!(matches!(read_document("star", Some(&doc)), Ok(None)));
    assert!(matches!(read_document("star", None), Ok(None)));
    let other = parse("[]").unwrap();
    assert!(matches!(read_document("push", Some(&other)), Err(DecodeError::MalformedPayload)));
}

#[test]
fn stamp_normalises_a_carried_push() {
    let event = stamp(read_payload("push", PAYLOAD), &arrival()).unwrap().unwrap();
    assert_eq!(event.id, "github_1704067200");
    assert_eq!(event.timestamp, "2024-01-01T00:00:00+00:00");
    assert_eq!(event.branch, "main");
    assert!(matches!(stamp(Ok(None), &arrival()), Ok(None)));
    assert!(matches!(
        stamp(Err(DecodeError::MalformedPayload), &arrival()),
        Err(DecodeError::MalformedPayload)
    ));
}

#[test]
fn examine_stamps_the_present() {
    let signature = sign("s3cr3t", PAYLOAD);
    match examine("s3cr3t", PAYLOAD, &signature, "push") {
        Ok(Some(event)) => {
            let moment = chrono::DateTime::parse_from_rfc3339(&event.timestamp).unwrap();
            assert_eq!(event.id, format!("github_{}", moment.timestamp()));
            assert_eq!(moment.offset().local_minus_utc(), 0);
            assert!(moment.timestamp() > 1_600_000_000);
        }
        _ => panic!("a signed push was not handed on"),
    }
    assert!(matches!(examine("s3cr3t", PAYLOAD, &signature, "ping"), Ok(None)));
    assert!(matches!(
        examine("s3cr3t", PAYLOAD, "sha1=", "push"),
        Err(IngestError::SignatureMismatch)
    ));
    let signed_garbage = sign("s3cr3t", "{");
    assert!(matches!(
        examine("s3cr3t", "{", &signed_garbage, "push"),
        Err(IngestError::UnparsablePayload)
    ));
}

#[test]
fn decode_stamps_the_present() {
    let event = decode("push", PAYLOAD).unwrap().unwrap();
    let moment = chrono::DateTime::parse_from_rfc3339(&event.timestamp).unwrap();
    assert_eq!(event.id, format!("github_{}", moment.timestamp()));
    assert_eq!(event.repo, "acme/repo");
    assert!(matches!(decode("ping", PAYLOAD), Ok(None)));
    assert!(matches!(decode("push", "[]"), Err(DecodeError::MalformedPayload)));
}

#[test]
fn messages_name_the_failure_and_nothing_more() {
    assert_eq!(IngestError::InvalidKey.message(), "Invalid key length");
    assert_eq!(IngestError::SignatureMismatch.message(), "Invalid webhook signature");
    assert_eq!(IngestError::UnparsablePayload.message(), "Failed to parse push event");
}
