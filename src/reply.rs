//! Reading what the provider sends back. A reply is a JSON document whose
//! shape, not any tag, tells a grant from an error: members are looked up by
//! name and the variant follows from which of them are there.
use vstd::prelude::*;

use crate::text::same_text;

verus! {

/// The string held under `key` when `doc` is a JSON object whose member `key`
/// is a string; `None` otherwise, also when `doc` is no JSON at all.
pub uninterp spec fn json_text_member(doc: Seq<u8>, key: Seq<char>) -> Option<Seq<char>>;

/// The number held under `key` when `doc` is a JSON object whose member `key`
/// is an integer in `u64`; `None` otherwise.
pub uninterp spec fn json_count_member(doc: Seq<u8>, key: Seq<char>) -> Option<u64>;

/// Relies on serde_json::from_slice into a `serde_json::Value`, then
/// `Value::get` and `Value::as_str`: the string member `key` of the document.
#[verifier::external_body]
pub(crate) fn text_member(doc: &[u8], key: &str) -> (r: Option<String>)
    ensures
        r.deep_view() == json_text_member(doc@, key@),
{
    let value: serde_json::Value = serde_json::from_slice(doc).ok()?;
    value.get(key)?.as_str().map(String::from)
}

/// Relies on serde_json::from_slice into a `serde_json::Value`, then
/// `Value::get` and `Value::as_u64`: the unsigned integer member `key`.
#[verifier::external_body]
pub(crate) fn count_member(doc: &[u8], key: &str) -> (r: Option<u64>)
    ensures
        r == json_count_member(doc@, key@),
{
    let value: serde_json::Value = serde_json::from_slice(doc).ok()?;
    value.get(key)?.as_u64()
}

/// Why one login attempt failed. The host only ever sees a single failure
/// verdict; the variants keep the causes apart for diagnostics.
#[derive(Debug, Clone, Copy, PartialEq, Eq, Structural)]
pub enum FlowError {
    /// A required setting was not supplied.
    MissingSetting,
    /// The device authorization reply could not be read.
    MalformedReply,
    /// The provider asked for a polling interval of zero.
    ZeroInterval,
    /// The verification address could not be shown to the user.
    Presentation,
    /// The provider ended the flow with a terminal error.
    ProviderRefused,
    /// A token was granted, but no username could be read from it.
    MalformedToken,
    /// The token names another account than the one being authenticated.
    IdentityMismatch,
    /// The username cannot stand as a local account name.
    InvalidUsername,
    /// The polling budget ran out before the user approved.
    TimedOut,
}

/// What the provider returns for a device authorization request.
pub struct DeviceAuthorization {
    pub device_code: String,
    pub user_code: String,
    pub verification_uri: String,
    pub verification_uri_complete: String,
    pub expires_in: u64,
    pub interval: u64,
}

/// All six members of a device authorization reply are there with the
/// expected types.
pub open spec fn device_reply_complete(doc: Seq<u8>) -> bool {
    &&& json_text_member(doc, "device_code"@) is Some
    &&& json_text_member(doc, "user_code"@) is Some
    &&& json_text_member(doc, "verification_uri"@) is Some
    &&& json_text_member(doc, "verification_uri_complete"@) is Some
    &&& json_count_member(doc, "expires_in"@) is Some
    &&& json_count_member(doc, "interval"@) is Some
}

/// `a` holds exactly the members of `doc`.
pub open spec fn device_authorization_read_from(a: DeviceAuthorization, doc: Seq<u8>) -> bool {
    &&& json_text_member(doc, "device_code"@) == Some(a.device_code@)
    &&& json_text_member(doc, "user_code"@) == Some(a.user_code@)
    &&& json_text_member(doc, "verification_uri"@) == Some(a.verification_uri@)
    &&& json_text_member(doc, "verification_uri_complete"@) == Some(a.verification_uri_complete@)
    &&& json_count_member(doc, "expires_in"@) == Some(a.expires_in)
    &&& json_count_member(doc, "interval"@) == Some(a.interval)
}

/// Reads a device authorization reply. A reply with a member missing is
/// malformed; one with a zero interval breaks the protocol, since the
/// interval divides the polling budget.
pub fn parse_device_authorization(doc: &[u8]) -> (r: Result<DeviceAuthorization, FlowError>)
    ensures
        !device_reply_complete(doc@) <==> r == Err::<DeviceAuthorization, FlowError>(FlowError::MalformedReply),
        device_reply_complete(doc@) && json_count_member(doc@, "interval"@) == Some(0u64)
            <==> r == Err::<DeviceAuthorization, FlowError>(FlowError::ZeroInterval),
        r matches Ok(a) ==> device_authorization_read_from(a, doc@) && a.interval > 0,
        r is Err ==> r == Err::<DeviceAuthorization, FlowError>(FlowError::MalformedReply)
            || r == Err::<DeviceAuthorization, FlowError>(FlowError::ZeroInterval),
{
    let device_code = text_member(doc, "device_code");
    let user_code = text_member(doc, "user_code");
    let verification_uri = text_member(doc, "verification_uri");
    let verification_uri_complete = text_member(doc, "verification_uri_complete");
    let expires_in = count_member(doc, "expires_in");
    let interval = count_member(doc, "interval");
    match (device_code, user_code, verification_uri, verification_uri_complete, expires_in, interval) {
        (Some(device_code), Some(user_code), Some(verification_uri), Some(verification_uri_complete), Some(expires_in), Some(interval)) => {
            if interval == 0 {
                Err(FlowError::ZeroInterval)
            } else {
                Ok(DeviceAuthorization {
                    device_code,
                    user_code,
                    verification_uri,
                    verification_uri_complete,
                    expires_in,
                    interval,
                })
            }
        },
        _ => Err(FlowError::MalformedReply),
    }
}

/// A granted token. Only `id_token` is read further; the rest is handed on.
pub struct TokenResponse {
    pub access_token: String,
    pub id_token: String,
    pub refresh_token: Option<String>,
    pub token_type: Option<String>,
    pub scope: Option<String>,
    pub session_state: Option<String>,
}

/// An error that the provider reports in place of a token.
pub struct ProviderError {
    pub error: String,
    pub error_description: Option<String>,
}

/// The reading of one token poll.
pub enum PollOutcome {
    /// The user approved: a token came back.
    Granted(TokenResponse),
    /// An error that leaves room for another poll (`authorization_pending`,
    /// `slow_down`, or any code outside the terminal set).
    Pending(ProviderError),
    /// An error after which no poll can succeed.
    Refused(ProviderError),
    /// Nothing readable came back: the request failed, or the body is neither
    /// a grant nor an error. Polling goes on.
    Unreadable,
}

/// The three kinds of reply, as far as the polling decisions go.
pub enum ReplyClass {
    Granted,
    Retryable,
    Refused,
}

/// The error codes after which polling stops.
pub open spec fn terminal_error(code: Seq<char>) -> bool {
    ||| code == "authorization_declined"@
    ||| code == "bad_verification_code"@
    ||| code == "expired_token"@
}

/// Whether `code` belongs to the terminal set.
pub fn is_terminal_error(code: &str) -> (r: bool)
    ensures
        r == terminal_error(code@),
{
    same_text(code, "authorization_declined") || same_text(code, "bad_verification_code")
        || same_text(code, "expired_token")
}

/// A body is a grant when it holds both an access token and an identity token.
pub open spec fn is_grant(doc: Seq<u8>) -> bool {
    json_text_member(doc, "access_token"@) is Some && json_text_member(doc, "id_token"@) is Some
}

/// The kind of a poll reply body.
pub open spec fn reply_class(doc: Seq<u8>) -> ReplyClass {
    if is_grant(doc) {
        ReplyClass::Granted
    } else if json_text_member(doc, "error"@) is Some && terminal_error(json_text_member(doc, "error"@)->0) {
        ReplyClass::Refused
    } else {
        ReplyClass::Retryable
    }
}

/// How an outcome counts for the polling decisions.
pub open spec fn outcome_class(o: PollOutcome) -> ReplyClass {
    match o {
        PollOutcome::Granted(_) => ReplyClass::Granted,
        PollOutcome::Refused(_) => ReplyClass::Refused,
        PollOutcome::Pending(_) => ReplyClass::Retryable,
        PollOutcome::Unreadable => ReplyClass::Retryable,
    }
}

/// `e` holds the error members of `doc`.
pub open spec fn provider_error_read_from(e: ProviderError, doc: Seq<u8>) -> bool {
    &&& json_text_member(doc, "error"@) == Some(e.error@)
    &&& json_text_member(doc, "error_description"@) == e.error_description.deep_view()
}

/// `t` holds the token members of `doc`.
pub open spec fn token_read_from(t: TokenResponse, doc: Seq<u8>) -> bool {
    &&& json_text_member(doc, "access_token"@) == Some(t.access_token@)
    &&& json_text_member(doc, "id_token"@) == Some(t.id_token@)
    &&& json_text_member(doc, "refresh_token"@) == t.refresh_token.deep_view()
    &&& json_text_member(doc, "token_type"@) == t.token_type.deep_view()
    &&& json_text_member(doc, "scope"@) == t.scope.deep_view()
    &&& json_text_member(doc, "session_state"@) == t.session_state.deep_view()
}

/// Reads the body of a token poll: a grant when the tokens are there, else
/// the provider's error, terminal or not, else nothing readable.
pub fn classify_token_reply(doc: &[u8]) -> (r: PollOutcome)
    ensures
        is_grant(doc@) <==> r is Granted,
        r matches PollOutcome::Granted(t) ==> token_read_from(t, doc@),
        r matches PollOutcome::Pending(e) ==> provider_error_read_from(e, doc@) && !terminal_error(e.error@),
        r matches PollOutcome::Refused(e) ==> provider_error_read_from(e, doc@) && terminal_error(e.error@),
        r is Unreadable <==> !is_grant(doc@) && json_text_member(doc@, "error"@) is None,
        outcome_class(r) == reply_class(doc@),
{
    let access_token = text_member(doc, "access_token");
    let id_token = text_member(doc, "id_token");
    if let (Some(access_token), Some(id_token)) = (access_token, id_token) {
        return PollOutcome::Granted(TokenResponse {
            access_token,
            id_token,
            refresh_token: text_member(doc, "refresh_token"),
            token_type: text_member(doc, "token_type"),
            scope: text_member(doc, "scope"),
            session_state: text_member(doc, "session_state"),
        });
    }
    match text_member(doc, "error") {
        Some(error) => {
            let error_description = text_member(doc, "error_description");
            if is_terminal_error(error.as_str()) {
                PollOutcome::Refused(ProviderError { error, error_description })
            } else {
                PollOutcome::Pending(ProviderError { error, error_description })
            }
        },
        None => PollOutcome::Unreadable,
    }
}

} // verus!
