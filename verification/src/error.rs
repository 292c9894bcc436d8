//! Errors produced while building subscriptions and checking exchange responses.

use crate::model::SubscriptionId;
use vstd::prelude::*;

verus! {

/// Errors related to subscribing to, and identifying, exchange data streams.
#[derive(Debug)]
pub enum SocketError {
    /// The exchange answered a subscription request with a failure.
    Subscribe(String),
    /// The exchange `entity` does not support the subscription `item`.
    Unsupported { entity: &'static str, item: String },
    /// A message carried a [`SubscriptionId`] that no subscription was made with.
    Unidentifiable(SubscriptionId),
    /// The server address of an exchange could not be parsed.
    UrlParse(url::ParseError),
}

/// The text of the error an exchange's failed subscription response is reported with.
pub open spec fn failure_text(detail: Seq<char>) -> Seq<char> {
    "received failure subscription response: "@ + detail
}

/// The text of a failed subscription response carrying an error code and message.
pub open spec fn code_failure_text(code: Seq<char>, message: Seq<char>) -> Seq<char> {
    "received failure subscription response code: "@ + code + " with message: "@ + message
}

/// A [`SocketError::Subscribe`] reporting a failed subscription response with an error
/// `code` and `message`.
pub fn subscribe_code_failure(code: &str, message: &str) -> (r: SocketError)
    ensures
        r matches SocketError::Subscribe(m) && m@ == code_failure_text(code@, message@),
{
    let mut s = String::from_str("received failure subscription response code: ");
    s.append(code);
    s.append(" with message: ");
    s.append(message);
    SocketError::Subscribe(s)
}

/// A [`SocketError::Subscribe`] reporting a failed subscription response with `detail`.
pub fn subscribe_failure(detail: &str) -> (r: SocketError)
    ensures
        r matches SocketError::Subscribe(m) && m@ == failure_text(detail@),
{
    let s = String::from_str("received failure subscription response: ");
    SocketError::Subscribe(s.concat(detail))
}

/// Errors while maintaining a local order book.
#[derive(Debug, Clone, Copy, PartialEq, Eq, Structural)]
pub enum DataError {
    /// An update did not follow on from the last update applied.
    InvalidSequence { prev_last_update_id: u64, first_update_id: u64 },
}

} // verus!
