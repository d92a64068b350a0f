use vstd::prelude::*;
use vstd::string::*;

use crate::error::CliError;

verus! {

/// Whether `url::Url::parse` accepts the text as an absolute URL.
pub uninterp spec fn is_absolute_url(s: Seq<char>) -> bool;

/// Relies on `reqwest::Url` (`url::Url`) and its `FromStr`, which parses an
/// absolute URL with no base; the outcome depends on the text alone.
#[verifier::external_body]
fn url_parses(s: &str) -> (r: bool)
    ensures
        r == is_absolute_url(s@),
{
    s.parse::<reqwest::Url>().is_ok()
}

/// Checks that `s` is an absolute URL and hands the text back unchanged.
pub fn parse_url(s: &str) -> (r: Result<String, CliError>)
    ensures
        match r {
            Ok(u) => is_absolute_url(s@) && u@ == s@,
            Err(e) => !is_absolute_url(s@) && (e matches CliError::InvalidUrl(t) && t@ == s@),
        },
{
    if url_parses(s) {
        Ok(String::from_str(s))
    } else {
        Err(CliError::InvalidUrl(String::from_str(s)))
    }
}

} // verus!
