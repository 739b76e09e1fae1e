//! The scannable code that bootstraps a session: the connection URI drawn as
//! a QR code, encoded as a PNG and handed out as a base64 data URI.

use vstd::prelude::*;
use crate::text::{chars_of, push_str, string_of};
use crate::wire::{build_websocket_uri, port_ok, random_port, websocket_uri};

verus! {

/// Smallest side, in pixels, of a session's code image.
pub const QR_MIN_SIDE: u32 = 256;

/// The PNG bytes of the QR code of `data`, drawn at least `min_side` pixels
/// a side; `None` when the data does not fit in a code or the image cannot
/// be written.
pub uninterp spec fn qr_png_of(data: Seq<char>, min_side: nat) -> Option<Seq<u8>>;

/// The character of a 6-bit value in the standard base64 alphabet
/// (`A`-`Z`, `a`-`z`, `0`-`9`, `+`, `/`).
pub open spec fn base64_char(v: nat) -> char {
    if v < 26 {
        ((65 + v) as u8) as char
    } else if v < 52 {
        ((97 + (v - 26)) as u8) as char
    } else if v < 62 {
        ((48 + (v - 52)) as u8) as char
    } else if v == 62 {
        '+'
    } else {
        '/'
    }
}

/// The padded standard base64 text of `bytes`: each group of three bytes
/// gives four characters of six bits each; a last group of one or two bytes
/// is completed with zero bits and padded with `=`.
pub open spec fn base64_of(bytes: Seq<u8>) -> Seq<char>
    decreases bytes.len(),
{
    if bytes.len() == 0 {
        Seq::empty()
    } else if bytes.len() == 1 {
        let a = bytes[0] as nat;
        seq![base64_char(a / 4), base64_char((a % 4) * 16), '=', '=']
    } else if bytes.len() == 2 {
        let a = bytes[0] as nat;
        let b = bytes[1] as nat;
        seq![base64_char(a / 4), base64_char((a % 4) * 16 + b / 16), base64_char((b % 16) * 4), '=']
    } else {
        let a = bytes[0] as nat;
        let b = bytes[1] as nat;
        let c = bytes[2] as nat;
        seq![
            base64_char(a / 4),
            base64_char((a % 4) * 16 + b / 16),
            base64_char((b % 16) * 4 + c / 64),
            base64_char(c % 64),
        ] + base64_of(bytes.subrange(3, bytes.len() as int))
    }
}

/// Relies on `qrcode::QrCode::new`, its renderer's `min_dimensions` and
/// `build` for `image::Luma<u8>`, and `image::DynamicImage::write_to` in PNG:
/// the PNG of the code of `data`. It fails when the data does not fit in a
/// code or the image cannot be written; both depend on the arguments alone.
#[verifier::external_body]
fn qr_png(data: &str, min_side: u32) -> (r: Result<Vec<u8>, String>)
    requires
        min_side <= QR_MIN_SIDE,
    ensures
        match r {
            Ok(b) => qr_png_of(data@, min_side as nat) == Some(b@),
            Err(_) => qr_png_of(data@, min_side as nat) is None,
        },
{
    let code = qrcode::QrCode::new(data.as_bytes()).map_err(|e| e.to_string())?;
    let img = code.render::<image::Luma<u8>>().min_dimensions(min_side, min_side).build();
    let mut buf: Vec<u8> = Vec::new();
    image::DynamicImage::ImageLuma8(img)
        .write_to(&mut std::io::Cursor::new(&mut buf), image::ImageFormat::Png)
        .map_err(|e| e.to_string())?;
    Ok(buf)
}

/// Relies on `base64::Engine::encode` of `general_purpose::STANDARD`: the
/// padded standard base64 text; it panics only when the encoded length
/// overflows `usize`, which the bound rules out.
#[verifier::external_body]
fn base64_standard(bytes: &Vec<u8>) -> (r: String)
    requires
        bytes@.len() <= usize::MAX / 2,
    ensures
        r@ == base64_of(bytes@),
{
    base64::Engine::encode(&base64::engine::general_purpose::STANDARD, bytes)
}

/// `data:image/png;base64,<text>`.
pub open spec fn png_data_uri_text(b64: Seq<char>) -> Seq<char> {
    "data:image/png;base64,"@ + b64
}

/// The data URI of a PNG given as base64 text.
pub fn png_data_uri(b64: &str) -> (r: String)
    ensures
        r@ == png_data_uri_text(b64@),
{
    let mut out = chars_of("data:image/png;base64,");
    push_str(&mut out, b64);
    string_of(&out)
}

/// What the code image of `data` becomes: the data URI of its PNG, or an
/// error when no code can be drawn or its PNG is too large to encode.
pub open spec fn qr_outcome(data: Seq<char>, r: Result<String, String>) -> bool {
    match qr_png_of(data, QR_MIN_SIDE as nat) {
        Some(png) => if png.len() <= usize::MAX / 2 {
            r matches Ok(s) && s@ == png_data_uri_text(base64_of(png))
        } else {
            r is Err
        },
        None => r is Err,
    }
}

/// The QR code of `data` as a PNG data URI, at least 256 pixels a side.
pub fn generate_qr_code_base64(data: &str) -> (r: Result<String, String>)
    ensures
        qr_outcome(data@, r),
{
    match qr_png(data, QR_MIN_SIDE) {
        Ok(png) => {
            if png.len() > usize::MAX / 2 {
                return Err(String::from_str("Failed to encode QR code image: too large"));
            }
            let b64 = base64_standard(&png);
            Ok(png_data_uri(b64.as_str()))
        },
        Err(e) => {
            let mut msg = chars_of("Failed to create QR code: ");
            push_str(&mut msg, e.as_str());
            Err(string_of(&msg))
        },
    }
}

/// The code a mobile device scans to reach `ws://<host>:<port>`.
pub fn session_qr(host: &str, port: u16) -> (r: Result<String, String>)
    ensures
        qr_outcome(websocket_uri(host@, port as nat, ""@), r),
{
    let uri = build_websocket_uri(host, port, "");
    generate_qr_code_base64(uri.as_str())
}

/// A fresh session address on `host`: a random port obeying the port rule,
/// and the code of `ws://<host>:<port>` to scan.
pub fn bootstrap_code(host: &str) -> (r: (u16, Result<String, String>))
    ensures
        port_ok(r.0 as int),
        qr_outcome(websocket_uri(host@, r.0 as nat, ""@), r.1),
{
    let port = random_port();
    (port, session_qr(host, port))
}

} // verus!
