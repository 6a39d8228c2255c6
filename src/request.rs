//! The form bodies of the two requests that the device flow sends.
use vstd::prelude::*;
use vstd::string::*;

use crate::text::occurs_in;

verus! {

/// The scope asked for at device authorization, already form-encoded.
pub open spec fn scope_field() -> Seq<char> {
    "&scope=openid%20profile%20offline_access"@
}

/// The grant type sent with every token poll.
pub open spec fn grant_field() -> Seq<char> {
    "&grant_type=urn:ietf:params:oauth:grant-type:device_code&client_id="@
}

/// The device authorization body for `client_id`.
pub open spec fn device_authorization_body_of(client_id: Seq<char>) -> Seq<char> {
    "client_id="@ + client_id + scope_field()
}

/// The token poll body for `device_code` and `client_id`.
pub open spec fn token_poll_body_of(device_code: Seq<char>, client_id: Seq<char>) -> Seq<char> {
    "device_code="@ + device_code + grant_field() + client_id
}

/// Body of the device authorization request: the client id, verbatim, and the
/// fixed scope.
pub fn device_authorization_body(client_id: &str) -> (r: String)
    ensures
        r@ == device_authorization_body_of(client_id@),
{
    let mut body = String::from_str("client_id=");
    body.append(client_id);
    body.append("&scope=openid%20profile%20offline_access");
    body
}

/// Body of one token poll: the device code and the client id, both verbatim.
pub fn token_poll_body(device_code: &str, client_id: &str) -> (r: String)
    ensures
        r@ == token_poll_body_of(device_code@, client_id@),
{
    let mut body = String::from_str("device_code=");
    body.append(device_code);
    body.append("&grant_type=urn:ietf:params:oauth:grant-type:device_code&client_id=");
    body.append(client_id);
    body
}

/// Whatever the client id, the device authorization body carries
/// `client_id=` followed by that id verbatim, and the fixed scope.
pub proof fn lemma_device_body_carries_client_and_scope(client_id: Seq<char>)
    ensures
        occurs_in("client_id="@ + client_id, device_authorization_body_of(client_id)),
        occurs_in(scope_field(), device_authorization_body_of(client_id)),
{
    let body = device_authorization_body_of(client_id);
    let head = "client_id="@ + client_id;
    assert(body.subrange(0, head.len() as int) == head);
    assert(body.subrange(head.len() as int, (head.len() + scope_field().len()) as int) == scope_field());
}

/// Whatever the device code and client id, the token poll body carries both
/// verbatim, the device code after `device_code=` and the client id after
/// `client_id=`.
pub proof fn lemma_poll_body_carries_code_and_client(device_code: Seq<char>, client_id: Seq<char>)
    ensures
        occurs_in("device_code="@ + device_code, token_poll_body_of(device_code, client_id)),
        occurs_in("client_id="@ + client_id, token_poll_body_of(device_code, client_id)),
{
    reveal_strlit("&grant_type=urn:ietf:params:oauth:grant-type:device_code&client_id=");
    reveal_strlit("&grant_type=urn:ietf:params:oauth:grant-type:device_code&");
    reveal_strlit("client_id=");
    let body = token_poll_body_of(device_code, client_id);
    let head = "device_code="@ + device_code;
    let rest = grant_field() + client_id;
    assert(body =~= head + rest);
    assert(body.subrange(0, head.len() as int) =~= head);
    let middle = "&grant_type=urn:ietf:params:oauth:grant-type:device_code&"@;
    assert(grant_field() =~= middle + "client_id="@);
    let front = head + middle;
    let tail = "client_id="@ + client_id;
    assert(body =~= front + tail);
    assert(body.subrange(front.len() as int, (front.len() + tail.len()) as int) =~= tail);
}

} // verus!
