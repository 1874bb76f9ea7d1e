//! The build webhook's admission rule: a request is accepted only with the
//! shared secret in its token header.

use vstd::prelude::*;

use crate::status::text_eq;

verus! {

/// Why a webhook request is turned away.
#[derive(Clone, Copy, Debug, PartialEq, Eq, Structural)]
pub enum WebhookRejection {
    /// The server has no secret configured.
    MissingSecret,
    /// The request carries no token.
    MissingToken,
    /// The token is not the secret.
    InvalidToken,
}

/// Admits a request whose token equals the configured secret.
pub fn check_webhook_token(expected: Option<String>, got: Option<String>) -> (r: Result<(), WebhookRejection>)
    ensures
        match (expected, got) {
            (None, _) => r == Err::<(), WebhookRejection>(WebhookRejection::MissingSecret),
            (Some(_), None) => r == Err::<(), WebhookRejection>(WebhookRejection::MissingToken),
            (Some(e), Some(g)) => if e@ == g@ {
                r is Ok
            } else {
                r == Err::<(), WebhookRejection>(WebhookRejection::InvalidToken)
            },
        },
{
    match (expected, got) {
        (None, _) => Err(WebhookRejection::MissingSecret),
        (Some(_), None) => Err(WebhookRejection::MissingToken),
        (Some(e), Some(g)) => if text_eq(&e, &g) {
            Ok(())
        } else {
            Err(WebhookRejection::InvalidToken)
        },
    }
}

} // verus!
