//! What the user is shown: the verification address, as text and as a QR
//! code drawn in Unicode blocks.
use vstd::prelude::*;
use vstd::string::*;

use crate::reply::{DeviceAuthorization, FlowError};

verus! {

/// The QR code for `data` drawn as text, two module rows per line, light
/// modules on a dark background; `None` when `data` does not fit in a QR
/// code.
pub uninterp spec fn qr_rendering(data: Seq<char>) -> Option<Seq<char>>;

/// Relies on qrcode's `QrCode::new` and its `unicode::Dense1x2` renderer,
/// with the dark and light colours swapped.
#[verifier::external_body]
fn render_qr(data: &str) -> (r: Option<String>)
    ensures
        r.deep_view() == qr_rendering(data@),
{
    let code = qrcode::QrCode::new(data).ok()?;
    Some(
        code.render::<qrcode::render::unicode::Dense1x2>().dark_color(
            qrcode::render::unicode::Dense1x2::Light,
        ).light_color(qrcode::render::unicode::Dense1x2::Dark).build(),
    )
}

/// The login text for address `uri` and QR drawing `qr`.
pub open spec fn login_message_of(uri: Seq<char>, qr: Seq<char>) -> Seq<char> {
    "\n\nPlease login at "@ + uri + " or scan the QRCode below:\n\n"@ + qr
}

/// The text that asks the user to open `uri`, with its QR drawing `qr`
/// underneath.
pub fn login_message(uri: &str, qr: &str) -> (r: String)
    ensures
        r@ == login_message_of(uri@, qr@),
{
    let mut message = String::from_str("\n\nPlease login at ");
    message.append(uri);
    message.append(" or scan the QRCode below:\n\n");
    message.append(qr);
    message
}

/// The message for a device authorization, built on its complete
/// verification address. Without a QR drawing the user could not go on, so
/// a failure to draw one fails the attempt.
pub fn presentation(auth: &DeviceAuthorization) -> (r: Result<String, FlowError>)
    ensures
        match qr_rendering(auth.verification_uri_complete@) {
            None => r == Err::<String, FlowError>(FlowError::Presentation),
            Some(qr) => r matches Ok(m) && m@ == login_message_of(auth.verification_uri_complete@, qr),
        },
{
    match render_qr(auth.verification_uri_complete.as_str()) {
        Some(qr) => Ok(login_message(auth.verification_uri_complete.as_str(), qr.as_str())),
        None => Err(FlowError::Presentation),
    }
}

} // verus!
