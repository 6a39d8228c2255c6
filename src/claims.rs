//! The identity that a granted token claims. The token's signature, issuer,
//! audience and expiry are not checked: the token is taken as the provider
//! sent it over the authenticated channel, and only its payload segment is
//! read. Adding a signature check here is the natural hardening point.
use vstd::prelude::*;
use vstd::string::*;

use crate::reply::{json_text_member, text_member, FlowError};
use crate::text::{find_char, index_of_char, lemma_find_char_bounds};

verus! {

/// The bytes that standard-alphabet base64 text `s` decodes to, or `None`
/// when `s` is not valid base64.
pub uninterp spec fn base64_decoded(s: Seq<char>) -> Option<Seq<u8>>;

/// Relies on base64's `Engine::decode` with the standard alphabet and
/// padding (`general_purpose::STANDARD`).
#[verifier::external_body]
fn decode_base64(s: &str) -> (r: Option<Vec<u8>>)
    ensures
        r matches Some(b) ==> base64_decoded(s@) == Some(b@),
        r is None ==> base64_decoded(s@) is None,
{
    base64::Engine::decode(&base64::engine::general_purpose::STANDARD, s).ok()
}

/// The second of the `.`-separated segments of a token, if there is one.
pub open spec fn payload_segment(token: Seq<char>) -> Option<Seq<char>> {
    let first = find_char(token, '.', 0);
    if first >= token.len() {
        None
    } else {
        Some(token.subrange(first + 1, find_char(token, '.', first + 1)))
    }
}

/// The `preferred_username` claim of a token, if its payload segment decodes
/// to a JSON object with that claim as a string.
pub open spec fn preferred_username_of(token: Seq<char>) -> Option<Seq<char>> {
    match payload_segment(token) {
        None => None,
        Some(segment) => match base64_decoded(segment) {
            None => None,
            Some(doc) => json_text_member(doc, "preferred_username"@),
        },
    }
}

/// The payload segment of `token`: what stands between its first and second
/// `.`, or after the first when there is no second.
pub fn payload_of(token: &str) -> (r: Option<&str>)
    ensures
        r.deep_view() == payload_segment(token@),
{
    let n = token.unicode_len();
    let first = index_of_char(token, '.', 0);
    proof {
        lemma_find_char_bounds(token@, '.', 0);
    }
    if first >= n {
        return None;
    }
    let second = index_of_char(token, '.', first + 1);
    proof {
        lemma_find_char_bounds(token@, '.', first + 1);
    }
    Some(token.substring_char(first + 1, second))
}

/// Reads the `preferred_username` claim of an identity token. A token with
/// no payload segment, a payload that is not base64, or claims without that
/// string member are all malformed.
pub fn preferred_username(token: &str) -> (r: Result<String, FlowError>)
    ensures
        r matches Ok(name) ==> preferred_username_of(token@) == Some(name@),
        r is Err <==> preferred_username_of(token@) is None,
        r is Err ==> r == Err::<String, FlowError>(FlowError::MalformedToken),
{
    let segment = match payload_of(token) {
        Some(segment) => segment,
        None => return Err(FlowError::MalformedToken),
    };
    let doc = match decode_base64(segment) {
        Some(doc) => doc,
        None => return Err(FlowError::MalformedToken),
    };
    match text_member(doc.as_slice(), "preferred_username") {
        Some(name) => Ok(name),
        None => Err(FlowError::MalformedToken),
    }
}

} // verus!
