use vstd::prelude::*;

use crate::errors::WebhookError;

verus! {

// ---------------------------------------------------------------------------
// The parsed payload shape
// ---------------------------------------------------------------------------

/// A sponsorship webhook payload: the action taken and the sponsorship it
/// concerns. Only the action `created` leads to a notification; all other
/// actions are ignored.
#[derive(Debug)]
pub struct GithubEvent {
    pub action: String,
    pub sponsorship: Sponsorship,
}

#[derive(Debug)]
pub struct Sponsorship {
    pub sponsor: Sponsor,
    pub tier: Tier,
}

#[derive(Debug)]
pub struct Sponsor {
    /// The account handle.
    pub login: String,
    /// The profile URL.
    pub html_url: String,
}

#[derive(Debug)]
pub struct Tier {
    /// Non-negative by convention, though not validated.
    pub monthly_price_in_dollars: i64,
}

pub struct GithubEventView {
    pub action: Seq<char>,
    pub sponsorship: SponsorshipView,
}

pub struct SponsorshipView {
    pub sponsor: SponsorView,
    pub tier: TierView,
}

pub struct SponsorView {
    pub login: Seq<char>,
    pub html_url: Seq<char>,
}

pub struct TierView {
    pub monthly_price_in_dollars: int,
}

impl View for GithubEvent {
    type V = GithubEventView;

    open spec fn view(&self) -> GithubEventView {
        GithubEventView { action: self.action@, sponsorship: self.sponsorship@ }
    }
}

impl View for Sponsorship {
    type V = SponsorshipView;

    open spec fn view(&self) -> SponsorshipView {
        SponsorshipView { sponsor: self.sponsor@, tier: self.tier@ }
    }
}

impl View for Sponsor {
    type V = SponsorView;

    open spec fn view(&self) -> SponsorView {
        SponsorView { login: self.login@, html_url: self.html_url@ }
    }
}

impl View for Tier {
    type V = TierView;

    open spec fn view(&self) -> TierView {
        TierView { monthly_price_in_dollars: self.monthly_price_in_dollars as int }
    }
}

// ---------------------------------------------------------------------------
// Parsing, behind a name
// ---------------------------------------------------------------------------

/// The outcome of deserializing a raw body as a sponsorship event: `None`
/// where the bytes are not well-formed JSON of the expected shape, otherwise
/// the parsed fields. A function of the bytes alone; not written out here.
pub uninterp spec fn parsed_event(body: Seq<u8>) -> Option<GithubEventView>;

/// Relies on `serde_json::from_slice` and the accessors of
/// `serde_json::Value` (`get`, `as_str`, `as_i64`): the outcome of parsing a
/// byte sequence depends on those bytes alone.
#[verifier::external_body]
fn parse_event_bytes(body: &[u8]) -> (r: Option<GithubEvent>)
    ensures
        match r {
            Some(e) => parsed_event(body@) == Some(e@),
            None => parsed_event(body@) is None,
        },
{
    let v: serde_json::Value = serde_json::from_slice(body).ok()?;
    let s = v.get("sponsorship")?;
    let sponsor = s.get("sponsor")?;
    Some(GithubEvent {
        action: v.get("action")?.as_str()?.to_string(),
        sponsorship: Sponsorship {
            sponsor: Sponsor {
                login: sponsor.get("login")?.as_str()?.to_string(),
                html_url: sponsor.get("html_url")?.as_str()?.to_string(),
            },
            tier: Tier {
                monthly_price_in_dollars: s.get("tier")?.get("monthly_price_in_dollars")?.as_i64()?,
            },
        },
    })
}

/// Deserialize the raw body as a sponsorship event. Fails with
/// `InvalidPayload` exactly when the body is not well-formed or does not
/// match the expected shape.
pub fn parse_event(body: &[u8]) -> (r: Result<GithubEvent, WebhookError>)
    ensures
        match r {
            Ok(e) => parsed_event(body@) == Some(e@),
            Err(er) => er == WebhookError::InvalidPayload && parsed_event(body@) is None,
        },
{
    match parse_event_bytes(body) {
        Some(e) => Ok(e),
        None => Err(WebhookError::InvalidPayload),
    }
}

// ---------------------------------------------------------------------------
// Event classification
// ---------------------------------------------------------------------------

/// The ASCII bytes of the event name `ping`.
pub open spec fn ping_event_bytes() -> Seq<u8> {
    seq![112u8, 105u8, 110u8, 103u8]
}

/// Whether the event-name header marks the request as a liveness check.
pub open spec fn is_ping(event_name: Option<Seq<u8>>) -> bool {
    event_name == Some(ping_event_bytes())
}

/// The view of an optional header value.
pub open spec fn opt_bytes_view(o: Option<&[u8]>) -> Option<Seq<u8>> {
    match o {
        Some(b) => Some(b@),
        None => None,
    }
}

/// Whether the `X-GitHub-Event` header value equals the literal `ping`. The
/// check is header-based and independent of the body.
pub fn is_ping_event(event_name: Option<&[u8]>) -> (r: bool)
    ensures
        r == is_ping(opt_bytes_view(event_name)),
{
    match event_name {
        Some(e) => {
            if e.len() == 4 {
                let r = e[0] == 112 && e[1] == 105 && e[2] == 110 && e[3] == 103;
                proof {
                    if r {
                        assert(e@ =~= ping_event_bytes());
                    }
                }
                r
            } else {
                false
            }
        },
        None => false,
    }
}

} // verus!
