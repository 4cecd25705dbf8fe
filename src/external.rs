//! What this library takes on trust from outside crates.
use base64::Engine;
use vstd::prelude::*;

verus! {

/// `url::ParseError`, a public enum of unit variants, declared with them so
/// that the library can name `Overflow`.
#[verifier::external_type_specification]
pub struct ExParseError(url::ParseError);

#[verifier::external_type_specification]
#[verifier::external_body]
pub struct ExReqwestError(reqwest::Error);

#[verifier::external_type_specification]
#[verifier::external_body]
pub struct ExJsonError(serde_json::Error);

/// The most characters, over the target and every key and value, that the
/// library hands to `parse_with_params`. A character takes at most four bytes
/// and a byte at most three once escaped, so the URL stays well below the
/// 4 GiB at which url fails (`ParseError::Overflow`) or panics.
pub const URL_TEXT_LIMIT: usize = 300_000_000;

/// The characters of a list of query parameters, counting a separator and an
/// `=` for each pair.
pub open spec fn params_len(pairs: Seq<(Seq<char>, Seq<char>)>) -> nat
    decreases pairs.len(),
{
    if pairs.len() == 0 {
        0
    } else {
        params_len(pairs.drop_last()) + pairs.last().0.len() + pairs.last().1.len() + 2
    }
}

/// The URL text that `url::Url::parse_with_params(target, pairs)` serialises
/// to, or `None` where `target` does not parse.
pub uninterp spec fn url_with_params(
    target: Seq<char>,
    pairs: Seq<(Seq<char>, Seq<char>)>,
) -> Option<Seq<char>>;

/// Relies on `url::Url::parse_with_params`: it parses `target` and then
/// appends each pair, form-urlencoded, to the query. Only the parse can fail,
/// so whether it succeeds does not depend on the pairs.
#[verifier::external_body]
pub(crate) fn parse_with_params(target: &str, pairs: &Vec<(String, String)>) -> (r: Result<
    String,
    url::ParseError,
>)
    requires
        target@.len() + params_len(pairs.deep_view()) <= URL_TEXT_LIMIT,
    ensures
        r is Ok <==> url_with_params(target@, Seq::empty()) is Some,
        r is Ok ==> url_with_params(target@, pairs.deep_view()) == Some(r->Ok_0@),
{
    url::Url::parse_with_params(target, pairs).map(String::from)
}

/// The standard base64 encoding (RFC 4648 alphabet, with padding) of `bytes`.
pub uninterp spec fn base64_standard(bytes: Seq<u8>) -> Seq<char>;

/// Relies on `base64::Engine::encode` of `base64::prelude::BASE64_STANDARD`:
/// the text depends on the bytes alone.
#[verifier::external_body]
pub(crate) fn encode_base64(bytes: &[u8]) -> (r: String)
    ensures
        r@ == base64_standard(bytes@),
{
    base64::prelude::BASE64_STANDARD.encode(bytes)
}

} // verus!
