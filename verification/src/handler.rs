use vstd::prelude::*;
use vstd::string::StringExecFns;

use crate::errors::WebhookError;
use crate::event::{
    GithubEvent, GithubEventView, is_ping, is_ping_event, opt_bytes_view, parse_event,
    parsed_event, ping_event_bytes,
};
use crate::notify::{
    NotificationMessage, NotificationMessageView, build_notification, message_of,
};
use crate::signature::{
    hmac_sha256_of, lemma_signature_verification, signature_matches, signature_of,
    verify_signature,
};

verus! {

/// What a request ends in, at the level of views: a terminal failure, or
/// success carrying at most one outbound notification.
pub enum HandlerOutcome {
    Failure(WebhookError),
    Success(Option<NotificationMessageView>),
}

/// The action value that triggers a notification.
pub open spec fn action_created() -> Seq<char> {
    "created"@
}

/// The outcome the handler owes for given inputs. The signature header and
/// the secret are demanded first; the signature is checked before anything
/// of the body is trusted; a ping short-circuits to success; otherwise the
/// body is parsed and only the action `created` yields a notification.
pub open spec fn expected_outcome(
    body: Seq<u8>,
    signature: Option<Seq<u8>>,
    event_name: Option<Seq<u8>>,
    secret: Option<Seq<u8>>,
) -> HandlerOutcome {
    match (signature, secret) {
        (None, _) => HandlerOutcome::Failure(WebhookError::MissingHeader),
        (Some(_), None) => HandlerOutcome::Failure(WebhookError::MissingSecret),
        (Some(sig), Some(sec)) => if !signature_matches(sec, body, sig) {
            HandlerOutcome::Failure(WebhookError::InvalidSignature)
        } else if is_ping(event_name) {
            HandlerOutcome::Success(None)
        } else {
            match parsed_event(body) {
                None => HandlerOutcome::Failure(WebhookError::InvalidPayload),
                Some(e) => if e.action == action_created() {
                    HandlerOutcome::Success(
                        Some(
                            message_of(
                                e.sponsorship.sponsor.login,
                                e.sponsorship.sponsor.html_url,
                                e.sponsorship.tier.monthly_price_in_dollars,
                            ),
                        ),
                    )
                } else {
                    HandlerOutcome::Success(None)
                },
            }
        },
    }
}

/// Whether an executable handler result carries exactly the outcome owed.
pub open spec fn outcome_matches(
    r: Result<Option<NotificationMessage>, WebhookError>,
    o: HandlerOutcome,
) -> bool {
    match (r, o) {
        (Ok(Some(m)), HandlerOutcome::Success(Some(v))) => m@ == v,
        (Ok(None), HandlerOutcome::Success(None)) => true,
        (Err(e), HandlerOutcome::Failure(f)) => e == f,
        _ => false,
    }
}

/// Handle one inbound request, given the raw body, the two header values,
/// and the configured secret. Returns the notification owed for the request,
/// if any, or the failure it ends in; delivery itself is the caller's.
/// Verification runs unconditionally before any parsing, and a ping is never
/// parsed.
pub fn handle_event(
    body: &[u8],
    signature: Option<&[u8]>,
    event_name: Option<&[u8]>,
    secret: Option<&[u8]>,
) -> (r: Result<Option<NotificationMessage>, WebhookError>)
    ensures
        outcome_matches(
            r,
            expected_outcome(
                body@,
                opt_bytes_view(signature),
                opt_bytes_view(event_name),
                opt_bytes_view(secret),
            ),
        ),
{
    let sig = match signature {
        Some(s) => s,
        None => {
            return Err(WebhookError::MissingHeader);
        },
    };
    let sec = match secret {
        Some(s) => s,
        None => {
            return Err(WebhookError::MissingSecret);
        },
    };
    if !verify_signature(body, sec, sig) {
        return Err(WebhookError::InvalidSignature);
    }
    if is_ping_event(event_name) {
        return Ok(None);
    }
    let event = match parse_event(body) {
        Ok(e) => e,
        Err(er) => {
            return Err(er);
        },
    };
    let created = String::from_str("created");
    if event.action == created {
        proof {
            assert(event@.action == action_created());
        }
        let m = build_notification(
            event.sponsorship.sponsor.login.as_str(),
            event.sponsorship.sponsor.html_url.as_str(),
            event.sponsorship.tier.monthly_price_in_dollars,
        );
        Ok(Some(m))
    } else {
        Ok(None)
    }
}

// ---------------------------------------------------------------------------
// Laws
// ---------------------------------------------------------------------------

/// A missing signature header fails with `MissingHeader`, whatever the body,
/// the event type, or the configuration.
pub proof fn lemma_missing_header(
    body: Seq<u8>,
    event_name: Option<Seq<u8>>,
    secret: Option<Seq<u8>>,
)
    ensures
        expected_outcome(body, None, event_name, secret) == HandlerOutcome::Failure(
            WebhookError::MissingHeader,
        ),
{
}

/// A valid ping is a liveness check: the request succeeds and no
/// notification is owed, whatever the body holds.
pub proof fn lemma_ping_short_circuit(body: Seq<u8>, sig: Seq<u8>, secret: Seq<u8>)
    requires
        signature_matches(secret, body, sig),
    ensures
        expected_outcome(body, Some(sig), Some(ping_event_bytes()), Some(secret))
            == HandlerOutcome::Success(None::<NotificationMessageView>),
{
}

/// Under a valid signature and a substantive event, the action `created`
/// owes exactly one notification, carrying the parsed handle, profile URL
/// and amount; any other action owes none, and the request still succeeds.
pub proof fn lemma_action_filter(
    body: Seq<u8>,
    sig: Seq<u8>,
    event_name: Option<Seq<u8>>,
    secret: Seq<u8>,
    e: GithubEventView,
)
    requires
        signature_matches(secret, body, sig),
        !is_ping(event_name),
        parsed_event(body) == Some(e),
    ensures
        e.action == action_created() ==> expected_outcome(body, Some(sig), event_name, Some(secret))
            == HandlerOutcome::Success(
            Some(
                message_of(
                    e.sponsorship.sponsor.login,
                    e.sponsorship.sponsor.html_url,
                    e.sponsorship.tier.monthly_price_in_dollars,
                ),
            ),
        ),
        e.action != action_created() ==> expected_outcome(body, Some(sig), event_name, Some(secret))
            == HandlerOutcome::Success(None::<NotificationMessageView>),
{
}

/// A body that does not parse, under a valid signature and a substantive
/// event, fails with `InvalidPayload`; no notification is owed.
pub proof fn lemma_invalid_payload(
    body: Seq<u8>,
    sig: Seq<u8>,
    event_name: Option<Seq<u8>>,
    secret: Seq<u8>,
)
    requires
        signature_matches(secret, body, sig),
        !is_ping(event_name),
        parsed_event(body) is None,
    ensures
        expected_outcome(body, Some(sig), event_name, Some(secret)) == HandlerOutcome::Failure(
            WebhookError::InvalidPayload,
        ),
{
}

/// A tampered body presented with the signature of the original fails with
/// `InvalidSignature` — whenever its digest under the secret differs from
/// the original's — so nothing of it is parsed and nothing is sent.
pub proof fn lemma_tampered_body(
    original: Seq<u8>,
    tampered: Seq<u8>,
    event_name: Option<Seq<u8>>,
    secret: Seq<u8>,
)
    requires
        hmac_sha256_of(secret, tampered) != hmac_sha256_of(secret, original),
    ensures
        expected_outcome(tampered, Some(signature_of(secret, original)), event_name, Some(secret))
            == HandlerOutcome::Failure(WebhookError::InvalidSignature),
{
    lemma_signature_verification(secret, original, tampered);
}

} // verus!
