//! URLs, parsed by the `url` crate.

use vstd::prelude::*;

verus! {

#[verifier::external_type_specification]
#[verifier::external_body]
pub struct ExUrl(url::Url);

#[verifier::external_type_specification]
#[verifier::external_body]
pub struct ExParseError(url::ParseError);

/// The scheme of `s` as `url::Url::parse` reads it, or `None` where it
/// refuses `s`.
pub uninterp spec fn url_scheme(s: Seq<char>) -> Option<Seq<char>>;

/// Relies on `url::Url::parse`, which accepts or refuses `s` by its text
/// alone, and on `Url::scheme` for the scheme of what it accepted.
#[verifier::external_body]
pub(crate) fn parse_url(s: &str) -> (r: Result<(url::Url, String), url::ParseError>)
    ensures
        match r {
            Ok(parsed) => url_scheme(s@) == Some(parsed.1@),
            Err(_) => url_scheme(s@) is None,
        },
{
    match url::Url::parse(s) {
        Ok(u) => {
            let scheme = u.scheme().to_string();
            Ok((u, scheme))
        },
        Err(e) => Err(e),
    }
}

} // verus!
