use vstd::prelude::*;

use crate::api::master_all::{base64_standard_decode, base64_standard_decoded, gunzipped_opt, gzip_decode};
use crate::protocol::{base64_no_pad_decode, base64_no_pad_decoded};

verus! {

#[derive(Debug)]
pub struct CaptureRequest {
  pub version: String,
  pub serialized_data: String,
}

#[derive(Debug)]
pub struct CaptureDeserialized {
  pub tutoria_data_json: String,
  pub user_local_settings_json: String,
}

#[derive(Debug)]
pub struct CaptureSendRequest {
  pub capture: String,
}

/// The bytes of the capture a client uploads: its text is unpadded base64 of the JSON of a
/// `CaptureRequest`. `None` where the text is not such base64.
pub fn capture_request_bytes(capture: &[u8]) -> (r: Option<Vec<u8>>)
    ensures
        r matches Some(v) ==> base64_no_pad_decoded(capture@) == Some(v@),
        r is None ==> base64_no_pad_decoded(capture@) is None,
{
    base64_no_pad_decode(capture)
}

/// What a capture's serialized data holds: it is standard base64 of a gzip stream, whose
/// bytes are the JSON of a `CaptureDeserialized`. `None` where the data is not base64, or
/// what it decodes to is not a gzip stream.
pub fn capture_payload(capture: &[u8]) -> (r: Option<Vec<u8>>)
    ensures
        r matches Some(v) ==> gunzipped_opt(base64_standard_decoded(capture@)) == Some(v@),
        r is None ==> gunzipped_opt(base64_standard_decoded(capture@)) is None,
{
    match base64_standard_decode(capture) {
        Some(zipped) => gzip_decode(zipped.as_slice()),
        None => None,
    }
}

} // verus!
