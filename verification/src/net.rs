//! What requests to remote locations are made with.

use vstd::prelude::*;

verus! {

/// The version of the library.
pub const VERSION: &'static str = "0.1.0";

/// The User-Agent header for requests.
pub fn user_agent() -> (r: String)
    ensures
        r@ == "mcvm_core_"@ + VERSION@,
{
    let mut out = "mcvm_core_".to_owned();
    out.append(VERSION);
    out
}

/// Whether a text can be parsed as an absolute URL.
pub uninterp spec fn parses_as_url(url: Seq<char>) -> bool;

/// `reqwest::Url::parse` parses an absolute URL from a text; it fails
/// exactly on the texts that are none, which [`parses_as_url`] names.
#[verifier::external_body]
fn url_parses(url: &str) -> (r: bool)
    ensures
        r == parses_as_url(url@),
{
    reqwest::Url::parse(url).is_ok()
}

/// The error for a text that is no URL.
#[derive(Debug, Clone, Copy, PartialEq, Eq, Structural)]
pub struct InvalidUrl;

impl InvalidUrl {
    /// The advice that the error comes with.
    pub fn to_string(&self) -> (r: String)
        ensures
            r@
                == "It may help to make sure that either http:// or https:// is before the domain name"@,
    {
        "It may help to make sure that either http:// or https:// is before the domain name".to_owned()
    }
}

/// What validating a URL gives, given whether it could be parsed.
pub fn url_validity(parses: bool) -> (r: Result<(), InvalidUrl>)
    ensures
        r == if parses {
            Ok::<(), InvalidUrl>(())
        } else {
            Err::<(), InvalidUrl>(InvalidUrl)
        },
{
    if parses {
        Ok(())
    } else {
        Err(InvalidUrl)
    }
}

/// Validates a URL with a helpful error message.
pub fn validate_url(url: &str) -> (r: Result<(), InvalidUrl>)
    ensures
        r is Ok <==> parses_as_url(url@),
{
    url_validity(url_parses(url))
}

} // verus!
