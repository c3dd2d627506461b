use sponsor_relay::errors::WebhookError;
use sponsor_relay::event::{is_ping_event, parse_event};
use sponsor_relay::handler::handle_event;
use sponsor_relay::notify::{build_notification, i64_to_dec, u64_to_dec, COLOR_SUCCESS};
use sponsor_relay::signature::{compute_signature, verify_signature};

const BODY: &[u8] = br#"{"action":"created","sponsorship":{"sponsor":{"login":"alice","html_url":"https://github.com/alice"},"tier":{"monthly_price_in_dollars":10}}}"#;
const SECRET: &[u8] = b"test-secret";

fn sign(body: &[u8], secret: &[u8]) -> Vec<u8> {
    compute_signature(body, secret)
}

#[test]
fn signature_round_trip() {
    let sig = sign(BODY, SECRET);
    assert!(verify_signature(BODY, SECRET, &sig));
    let other = br#"{"action":"created"}"#;
    assert!(!verify_signature(other, SECRET, &sig));
    assert!(!verify_signature(BODY, b"other-secret", &sig));
}

#[test]
fn signature_known_vector() {
    // RFC 4231 test case 2 for HMAC-SHA256.
    let sig = sign(b"what do ya want for nothing?", b"Jefe");
    assert_eq!(
        sig,
        b"sha256=5bdcc146bf60754e6a042426089575c75a003f089d2739839dec58b964ec3843".to_vec()
    );
}

#[test]
fn end_to_end_created() {
    let sig = sign(BODY, SECRET);
    let r = handle_event(BODY, Some(&sig), Some(b"sponsorship"), Some(SECRET));
    let m = r.expect("handler should succeed").expect("a notification is owed");
    assert_eq!(m.title, "New Sponsor!");
    assert_eq!(
        m.description,
        "[alice](https://github.com/alice) just donated $10!"
    );
    assert!(m.description.contains("alice"));
    assert!(m.description.contains("https://github.com/alice"));
    assert!(m.description.contains("10"));
    assert_eq!(m.color, COLOR_SUCCESS);
    assert_eq!(m.color, 0x00FF00);
    assert_eq!(m.footer, "Sponsorship Notifications");
    assert!(m.suppress_mentions);
}

#[test]
fn end_to_end_ping_same_body() {
    let sig = sign(BODY, SECRET);
    let r = handle_event(BODY, Some(&sig), Some(b"ping"), Some(SECRET));
    assert!(matches!(r, Ok(None)));
}

#[test]
fn ping_ignores_body_shape() {
    let body = b"this is not json at all";
    let sig = sign(body, SECRET);
    let r = handle_event(body, Some(&sig), Some(b"ping"), Some(SECRET));
    assert!(matches!(r, Ok(None)));
}

#[test]
fn missing_signature_header() {
    assert_eq!(
        handle_event(BODY, None, Some(b"sponsorship"), Some(SECRET)),
        Err(WebhookError::MissingHeader)
    );
    assert_eq!(
        handle_event(BODY, None, Some(b"ping"), Some(SECRET)),
        Err(WebhookError::MissingHeader)
    );
    assert_eq!(
        handle_event(b"", None, None, Some(SECRET)),
        Err(WebhookError::MissingHeader)
    );
}

#[test]
fn missing_secret() {
    let sig = sign(BODY, SECRET);
    assert_eq!(
        handle_event(BODY, Some(&sig), Some(b"sponsorship"), None),
        Err(WebhookError::MissingSecret)
    );
}

#[test]
fn wrong_signature() {
    let sig = sign(BODY, b"another-secret");
    assert_eq!(
        handle_event(BODY, Some(&sig), Some(b"sponsorship"), Some(SECRET)),
        Err(WebhookError::InvalidSignature)
    );
    assert_eq!(
        handle_event(BODY, Some(b"sha256=deadbeef"), Some(b"sponsorship"), Some(SECRET)),
        Err(WebhookError::InvalidSignature)
    );
}

#[test]
fn tampered_body_single_byte() {
    let sig = sign(BODY, SECRET);
    let mut tampered = BODY.to_vec();
    tampered[2] ^= 1;
    assert_eq!(
        handle_event(&tampered, Some(&sig), Some(b"sponsorship"), Some(SECRET)),
        Err(WebhookError::InvalidSignature)
    );
}

#[test]
fn malformed_json_valid_signature() {
    let body = b"{not json";
    let sig = sign(body, SECRET);
    assert_eq!(
        handle_event(body, Some(&sig), Some(b"sponsorship"), Some(SECRET)),
        Err(WebhookError::InvalidPayload)
    );
}

#[test]
fn wrong_shape_valid_signature() {
    let body = br#"{"action":"created","sponsorship":{"sponsor":{"login":"alice"}}}"#;
    let sig = sign(body, SECRET);
    assert_eq!(
        handle_event(body, Some(&sig), Some(b"sponsorship"), Some(SECRET)),
        Err(WebhookError::InvalidPayload)
    );
}

#[test]
fn other_action_succeeds_without_notification() {
    let body = br#"{"action":"cancelled","sponsorship":{"sponsor":{"login":"alice","html_url":"https://github.com/alice"},"tier":{"monthly_price_in_dollars":10}}}"#;
    let sig = sign(body, SECRET);
    let r = handle_event(body, Some(&sig), Some(b"sponsorship"), Some(SECRET));
    assert!(matches!(r, Ok(None)));
}

#[test]
fn parse_event_fields() {
    let e = parse_event(BODY).expect("the example body parses");
    assert_eq!(e.action, "created");
    assert_eq!(e.sponsorship.sponsor.login, "alice");
    assert_eq!(e.sponsorship.sponsor.html_url, "https://github.com/alice");
    assert_eq!(e.sponsorship.tier.monthly_price_in_dollars, 10);
}

#[test]
fn parse_event_ignores_extra_fields() {
    let body = br#"{"action":"created","extra":[1,2],"sponsorship":{"sponsor":{"login":"bob","html_url":"u","other":null},"tier":{"monthly_price_in_dollars":0}}}"#;
    let e = parse_event(body).expect("extra fields are ignored");
    assert_eq!(e.sponsorship.sponsor.login, "bob");
    assert_eq!(e.sponsorship.tier.monthly_price_in_dollars, 0);
}

#[test]
fn parse_event_rejects_wrong_types() {
    let body = br#"{"action":"created","sponsorship":{"sponsor":{"login":"a","html_url":"u"},"tier":{"monthly_price_in_dollars":"10"}}}"#;
    assert_eq!(parse_event(body).unwrap_err(), WebhookError::InvalidPayload);
    let body = br#"{"action":7,"sponsorship":{"sponsor":{"login":"a","html_url":"u"},"tier":{"monthly_price_in_dollars":1}}}"#;
    assert_eq!(parse_event(body).unwrap_err(), WebhookError::InvalidPayload);
}

#[test]
fn ping_header_comparison() {
    assert!(is_ping_event(Some(b"ping")));
    assert!(!is_ping_event(Some(b"pingx")));
    assert!(!is_ping_event(Some(b"pin")));
    assert!(!is_ping_event(Some(b"sponsorship")));
    assert!(!is_ping_event(None));
}

#[test]
fn decimal_rendering() {
    assert_eq!(u64_to_dec(0), "0");
    assert_eq!(u64_to_dec(7), "7");
    assert_eq!(u64_to_dec(10), "10");
    assert_eq!(u64_to_dec(90210), "90210");
    assert_eq!(u64_to_dec(u64::MAX), "18446744073709551615");
    assert_eq!(i64_to_dec(10), "10");
    assert_eq!(i64_to_dec(-5), "-5");
    assert_eq!(i64_to_dec(i64::MIN), "-9223372036854775808");
    assert_eq!(i64_to_dec(i64::MAX), "9223372036854775807");
}

#[test]
fn notification_payload() {
    let m = build_notification("alice", "https://github.com/alice", 10);
    assert_eq!(m.title, "New Sponsor!");
    assert_eq!(
        m.description,
        "[alice](https://github.com/alice) just donated $10!"
    );
    assert_eq!(m.color, 0x00FF00);
    assert_eq!(m.footer, "Sponsorship Notifications");
    assert!(m.suppress_mentions);
    let m = build_notification("bob", "https://example.com/bob", -3);
    assert_eq!(m.description, "[bob](https://example.com/bob) just donated $-3!");
}

#[test]
fn error_labels() {
    assert_eq!(WebhookError::BodyRead.label(), "body-read-error");
    assert_eq!(WebhookError::MissingHeader.label(), "missing-header");
    assert_eq!(WebhookError::MissingSecret.label(), "missing-env-var");
    assert_eq!(WebhookError::InvalidSignature.label(), "invalid-signature");
    assert_eq!(WebhookError::InvalidPayload.label(), "invalid-json");
    assert_eq!(WebhookError::Delivery.label(), "delivery-error");
}
