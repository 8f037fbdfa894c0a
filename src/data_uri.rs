//! PNG data URIs, as handed over by an editor front end.

use vstd::prelude::*;
use base64::Engine as _;
use crate::text::{has_prefix, strip_text_prefix};
use crate::utils::AppResult;

verus! {

#[verifier::external_type_specification]
#[verifier::external_body]
pub struct ExDecodeError(base64::DecodeError);

/// The character of the standard base64 alphabet for a six-bit value `v`.
pub open spec fn base64_digit(v: int) -> char {
    if v < 26 {
        ('A' as int + v) as char
    } else if v < 52 {
        ('a' as int + (v - 26)) as char
    } else if v < 62 {
        ('0' as int + (v - 52)) as char
    } else if v == 62 {
        '+'
    } else {
        '/'
    }
}

/// `bytes` in standard base64: each three bytes become four characters of
/// six bits each, and a last group of one or two bytes is padded with `=`.
pub open spec fn base64_padded(bytes: Seq<u8>) -> Seq<char>
    decreases bytes.len(),
{
    if bytes.len() == 0 {
        seq![]
    } else {
        let b0 = bytes[0] as int;
        let b1 = if bytes.len() > 1 {
            bytes[1] as int
        } else {
            0
        };
        let b2 = if bytes.len() > 2 {
            bytes[2] as int
        } else {
            0
        };
        let c0 = base64_digit(b0 / 4);
        let c1 = base64_digit((b0 % 4) * 16 + b1 / 16);
        let c2 = base64_digit((b1 % 16) * 4 + b2 / 64);
        let c3 = base64_digit(b2 % 64);
        if bytes.len() == 1 {
            seq![c0, c1, '=', '=']
        } else if bytes.len() == 2 {
            seq![c0, c1, c2, '=']
        } else {
            seq![c0, c1, c2, c3] + base64_padded(bytes.subrange(3, bytes.len() as int))
        }
    }
}

/// Relies on `base64::engine::general_purpose::STANDARD.decode`: padding is
/// required and trailing bits must be zero, so it accepts exactly the
/// padded encodings and returns the bytes encoded.
#[verifier::external_body]
fn decode_standard_base64(text: &str) -> (r: Result<Vec<u8>, base64::DecodeError>)
    ensures
        match r {
            Ok(bytes) => text@ == base64_padded(bytes@),
            Err(_) => forall|b: Seq<u8>| #[trigger] base64_padded(b) != text@,
        },
{
    base64::engine::general_purpose::STANDARD.decode(text)
}

/// The only accepted data-URI header.
pub open spec fn png_data_uri_prefix() -> Seq<char> {
    "data:image/png;base64,"@
}

pub open spec fn bad_prefix_error() -> Seq<char> {
    "Invalid image data format: expected data:image/png;base64, prefix"@
}

pub open spec fn base64_error_prefix() -> Seq<char> {
    "Failed to decode base64: "@
}

/// The base64 payload of `image_data`, where it begins with the PNG data-URI
/// header.
pub fn png_data_uri_payload(image_data: &str) -> (r: Option<&str>)
    ensures
        r is Some <==> has_prefix(image_data@, png_data_uri_prefix()),
        r matches Some(payload) ==> image_data@ == png_data_uri_prefix() + payload@,
{
    strip_text_prefix(image_data, "data:image/png;base64,")
}

/// The PNG bytes that a `data:image/png;base64,` URI carries: those whose
/// padded standard base64 encoding is the payload. Any other header is
/// refused, without looking at the payload.
pub fn decode_png_data_uri(image_data: &str) -> (r: AppResult<Vec<u8>>)
    ensures
        !has_prefix(image_data@, png_data_uri_prefix()) ==> (r matches Err(e) && e@
            == bad_prefix_error()),
        has_prefix(image_data@, png_data_uri_prefix()) ==> ({
            let payload = image_data@.subrange(
                png_data_uri_prefix().len() as int,
                image_data@.len() as int,
            );
            &&& r is Ok <==> exists|b: Seq<u8>| #[trigger] base64_padded(b) == payload
            &&& r matches Ok(v) ==> base64_padded(v@) == payload
            &&& r matches Err(e) ==> has_prefix(e@, base64_error_prefix())
        }),
{
    match png_data_uri_payload(image_data) {
        None => Err(
            String::from_str("Invalid image data format: expected data:image/png;base64, prefix"),
        ),
        Some(payload) => {
            proof {
                assert(image_data@.subrange(
                    png_data_uri_prefix().len() as int,
                    image_data@.len() as int,
                ) =~= payload@);
            }
            match decode_standard_base64(payload) {
                Ok(bytes) => Ok(bytes),
                Err(e) => {
                    let mut msg = String::from_str("Failed to decode base64: ");
                    let detail = e.to_string();
                    msg.append(detail.as_str());
                    proof {
                        assert(msg@.subrange(0, base64_error_prefix().len() as int)
                            =~= base64_error_prefix());
                    }
                    Err(msg)
                },
            }
        },
    }
}

} // verus!
