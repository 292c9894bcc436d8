//! Parsing the WebSocket server address of an exchange.

use vstd::prelude::*;

verus! {

/// A parsed URL (`url::Url`); carried through opaquely.
#[verifier::external_type_specification]
#[verifier::external_body]
pub struct ExUrl(url::Url);

/// The error `url::Url::parse` reports (`url::ParseError`); carried through opaquely.
#[verifier::external_type_specification]
#[verifier::external_body]
pub struct ExUrlParseError(url::ParseError);

/// Whether `url::Url::parse` accepts `text` as an absolute URL.
pub uninterp spec fn spec_url_parses(text: Seq<char>) -> bool;

/// `url::Url::parse`. The contract claims that whether the parse succeeds is a function
/// of the text alone (named `spec_url_parses`); what the parsed URL holds is left unsaid.
#[verifier::external_body]
pub(crate) fn parse_url(text: &str) -> (r: Result<url::Url, url::ParseError>)
    ensures
        r is Ok <==> spec_url_parses(text@),
{
    url::Url::parse(text)
}

} // verus!
