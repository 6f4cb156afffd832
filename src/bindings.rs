use vstd::prelude::*;

use crate::params::{pairs_view, Pair};

verus! {

/// The error of `url`'s parser, carried only until it is mapped to a
/// `UrlConstruction` error.
#[verifier::external_type_specification]
#[verifier::external_body]
pub struct ExUrlParseError(url::ParseError);

/// The whole seconds of a duration.
pub uninterp spec fn whole_seconds(d: core::time::Duration) -> u64;

/// Relies on `Duration::as_secs`: the number of whole seconds, a function of
/// the duration alone.
pub assume_specification[ core::time::Duration::as_secs ](d: &core::time::Duration) -> (r: u64)
    ensures
        r == whole_seconds(*d),
;

/// Relies on `Duration`'s `Clone`: `Duration` is `Copy`, and the clone is
/// the same duration.
pub assume_specification[ <core::time::Duration as core::clone::Clone>::clone ](
    d: &core::time::Duration,
) -> (r: core::time::Duration)
    ensures
        r == *d,
;

/// The text of the URL parsed from `input` with the name/value pairs
/// appended to its query, or `None` where `input` is no absolute URL.
pub uninterp spec fn url_with_params(input: Seq<char>, pairs: Seq<Pair>) -> Option<Seq<char>>;

/// Relies on `url::Url::parse_with_params`: it parses `input` as an absolute
/// URL and appends the pairs, URL-encoded, to its query; it fails exactly
/// where the parse fails. The result depends on its arguments alone.
#[verifier::external_body]
pub(crate) fn parse_url_with_params(input: &str, pairs: &Vec<(String, String)>) -> (r: Result<
    String,
    url::ParseError,
>)
    ensures
        match r {
            Ok(u) => url_with_params(input@, pairs_view(pairs@)) == Some(u@),
            Err(_) => url_with_params(input@, pairs_view(pairs@)) is None,
        },
{
    url::Url::parse_with_params(input, pairs.iter()).map(|u| String::from(u.as_str()))
}

} // verus!
