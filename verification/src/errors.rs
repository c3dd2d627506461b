use vstd::prelude::*;

verus! {

/// The closed set of failures a request can end in. Every failure is terminal
/// for the current request: nothing is retried.
#[derive(Clone, Copy, Debug, PartialEq, Eq, Structural)]
pub enum WebhookError {
    /// The transport could not deliver the request body.
    BodyRead,
    /// The signature header is absent.
    MissingHeader,
    /// A required configuration value (secret or destination URL) is absent.
    MissingSecret,
    /// The computed signature does not match the header value.
    InvalidSignature,
    /// The body is not well-formed or does not match the expected shape.
    InvalidPayload,
    /// The outbound notification endpoint failed or was unreachable.
    Delivery,
}

impl WebhookError {
    /// A short stable label for logs; the wire response carries no detail.
    pub fn label(&self) -> (r: &'static str)
        ensures
            r@ == self.spec_label(),
    {
        match self {
            WebhookError::BodyRead => "body-read-error",
            WebhookError::MissingHeader => "missing-header",
            WebhookError::MissingSecret => "missing-env-var",
            WebhookError::InvalidSignature => "invalid-signature",
            WebhookError::InvalidPayload => "invalid-json",
            WebhookError::Delivery => "delivery-error",
        }
    }

    pub open spec fn spec_label(&self) -> Seq<char> {
        match self {
            WebhookError::BodyRead => "body-read-error"@,
            WebhookError::MissingHeader => "missing-header"@,
            WebhookError::MissingSecret => "missing-env-var"@,
            WebhookError::InvalidSignature => "invalid-signature"@,
            WebhookError::InvalidPayload => "invalid-json"@,
            WebhookError::Delivery => "delivery-error"@,
        }
    }
}

} // verus!
