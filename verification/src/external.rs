//! The items of the `url` crate that the library relies on, with the
//! contracts that are believed of them.

use vstd::prelude::*;

verus! {

/// `url::Url`, a parsed absolute URL. Verus sees nothing inside it.
#[verifier::external_type_specification]
#[verifier::external_body]
pub struct ExUrl(url::Url);

/// `url::ParseError`, why a string is not an absolute URL.
#[verifier::external_type_specification]
#[verifier::external_body]
pub struct ExUrlParseError(url::ParseError);

/// What `url::Url::parse` returns for the text `s`: the parsed absolute URL,
/// or why the text is not one. The WHATWG parsing rules behind it are the
/// `url` crate's; with no base URL, encoding override or callback involved,
/// the result depends on the text alone.
pub uninterp spec fn url_parse_result(s: Seq<char>) -> Result<url::Url, url::ParseError>;

/// Calls `url::Url::parse`. Claimed: the result is the one that the name
/// `url_parse_result` gives for the text, so equal texts parse to equal
/// results. What a parsed URL holds (its normalised serialisation) is not
/// stated.
#[verifier::external_body]
pub(crate) fn parse_url(text: &str) -> (r: Result<url::Url, url::ParseError>)
    ensures
        r == url_parse_result(text@),
{
    url::Url::parse(text)
}

} // verus!
