//! URLs. What is a URL and how one is resolved against another is the
//! business of the crate `url`; this module gives its answers names.

use vstd::prelude::*;

verus! {

/// What `url::Url::parse` makes of `input`, written out again; `None`
/// where `input` is no absolute URL.
pub uninterp spec fn parsed_url(input: Seq<char>) -> Option<Seq<char>>;

/// What `url::Url::join` makes of `reference` against the URL `base`,
/// written out; `None` where `base` is no absolute URL or `reference`
/// cannot be resolved against it.
pub uninterp spec fn joined_url(base: Seq<char>, reference: Seq<char>) -> Option<Seq<char>>;

/// Calls `url::Url::parse` and writes the URL it returns with its
/// `Display`. The contract claims only that the answer depends on `input`
/// alone.
#[verifier::external_body]
pub(crate) fn parse_url(input: &str) -> (r: Option<String>)
    ensures
        r is Some <==> parsed_url(input@) is Some,
        r matches Some(target) ==> target@ == parsed_url(input@)->0,
{
    match url::Url::parse(input) {
        Ok(parsed) => Some(parsed.to_string()),
        Err(_) => None,
    }
}

/// Reads `base` with `url::Url::parse`, calls `url::Url::join` on it with
/// `reference`, and writes the URL that comes out with its `Display`. The
/// contract claims only that the answer depends on the two texts alone.
#[verifier::external_body]
pub(crate) fn join_url(base: &str, reference: &str) -> (r: Option<String>)
    ensures
        r is Some <==> joined_url(base@, reference@) is Some,
        r matches Some(target) ==> target@ == joined_url(base@, reference@)->0,
{
    match url::Url::parse(base) {
        Ok(parsed) => match parsed.join(reference) {
            Ok(joined) => Some(joined.to_string()),
            Err(_) => None,
        },
        Err(_) => None,
    }
}

} // verus!
