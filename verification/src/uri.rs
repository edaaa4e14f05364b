//! Target resolution: combining the configured upstream target with the
//! inbound path and query, and parsing the result as a URI.

use vstd::prelude::*;

verus! {

/// What the URI parser makes of a string: `None` when the string does not
/// parse as a URI, and the canonical text of the parsed URI when it does.
/// Both depend on the string alone.
pub uninterp spec fn uri_parse(s: Seq<char>) -> Option<Seq<char>>;

/// The string handed to the URI parser for one request: the fixed scheme,
/// the configured upstream target as the authority, and the inbound path
/// and query, in that order.
pub open spec fn raw_uri(target: Seq<char>, path_and_query: Seq<char>) -> Seq<char> {
    "http://"@ + target + path_and_query
}

/// Relies on `hyper::Uri`'s `FromStr` and `Display` impls: whether a string
/// parses, and the text of the parsed URI (scheme, authority, path and
/// query re-assembled), are functions of the input string alone.
#[verifier::external_body]
pub(crate) fn parse_uri(s: &String) -> (r: Option<String>)
    ensures
        r is Some <==> uri_parse(s@) is Some,
        r matches Some(p) ==> uri_parse(s@) == Some(p@),
{
    match s.parse::<hyper::Uri>() {
        Ok(u) => Some(u.to_string()),
        Err(_) => None,
    }
}

} // verus!
