//! The bulk endpoint: where batches are posted.

use vstd::prelude::*;
use vstd::string::*;

verus! {

/// What every endpoint address starts with, up to the customer token.
pub const ENDPOINT_PREFIX: &'static str = "http://logs-01.loggly.com/bulk/";

/// What separates the customer token from the tag in an endpoint address.
pub const TAG_SEGMENT: &'static str = "/tag/";

/// The address text for a customer token and a tag, before it is parsed.
pub open spec fn endpoint_text(token: Seq<char>, tag: Seq<char>) -> Seq<char> {
    ENDPOINT_PREFIX@ + token + TAG_SEGMENT@ + tag
}

/// The serialization of the URL that `text` parses to; `None` where `text`
/// is not an absolute URL.
pub uninterp spec fn parsed_url(text: Seq<char>) -> Option<Seq<char>>;

/// The URL of the endpoint for a customer token and a tag, where there is
/// one.
pub open spec fn endpoint_url(token: Seq<char>, tag: Seq<char>) -> Option<Seq<char>> {
    parsed_url(endpoint_text(token, tag))
}

/// Calls `reqwest::Url::parse` and hands back the URL's serialization.
///
/// Taken on trust: parsing depends on `text` alone. Its outcome is known to
/// the proofs only as [`parsed_url`]; nothing is assumed about which texts
/// parse, nor about how a URL is normalized.
#[verifier::external_body]
fn parse_url(text: &str) -> (url: Option<String>)
    ensures
        match url {
            Some(address) => parsed_url(text@) == Some(address@),
            None => parsed_url(text@) is None,
        },
{
    match reqwest::Url::parse(text) {
        Ok(url) => Some(String::from(url)),
        Err(_) => None,
    }
}

/// Builds the address text for a customer token and a tag.
pub fn format_endpoint(token: &str, tag: &str) -> (text: String)
    ensures
        text@ == endpoint_text(token@, tag@),
{
    let mut text = String::from_str(ENDPOINT_PREFIX);
    text.append(token);
    text.append(TAG_SEGMENT);
    text.append(tag);
    text
}

/// Resolves the endpoint for a customer token and a tag: the parsed and
/// serialized URL, or `None` where the address does not parse.
pub fn resolve_endpoint(token: &str, tag: &str) -> (url: Option<String>)
    ensures
        match url {
            Some(address) => endpoint_url(token@, tag@) == Some(address@),
            None => endpoint_url(token@, tag@) is None,
        },
{
    let text = format_endpoint(token, tag);
    parse_url(text.as_str())
}

} // verus!
