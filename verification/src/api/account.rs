use vstd::prelude::*;

use crate::protocol::{base64_no_pad_decode, base64_no_pad_decoded, utf8_text};

verus! {



/// Why a requested name is refused.
#[derive(Debug, Clone, Copy, PartialEq, Eq)]
pub enum SetNameError {
    /// The name is not standard base64 without padding.
    NotBase64,
    /// The decoded bytes are not UTF-8 text.
    NotUtf8,
}

/// The name a player asks for: the request carries it as unpadded base64 of its UTF-8 bytes.
pub fn requested_username(name: &str) -> (r: Result<String, SetNameError>)
    ensures
        r matches Err(SetNameError::NotBase64) <==> base64_no_pad_decoded(vstd::utf8::encode_utf8(name@)) is None,
        r matches Err(SetNameError::NotUtf8) <==> (base64_no_pad_decoded(vstd::utf8::encode_utf8(name@)) matches Some(b)
            && !vstd::utf8::valid_utf8(b)),
        r matches Ok(s) ==> (base64_no_pad_decoded(vstd::utf8::encode_utf8(name@)) matches Some(b)
            && vstd::utf8::valid_utf8(b) && s@ == vstd::utf8::decode_utf8(b)),
{
    match base64_no_pad_decode(name.as_bytes()) {
        None => Err(SetNameError::NotBase64),
        Some(bytes) => match utf8_text(bytes.as_slice()) {
            None => Err(SetNameError::NotUtf8),
            Some(s) => Ok(s),
        },
    }
}

} // verus!
