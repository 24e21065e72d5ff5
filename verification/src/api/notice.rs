use vstd::prelude::*;

use crate::call::CallResponse;

verus! {

#[derive(Debug)]
pub struct Notice {
  pub text_japanese: Option<String>,
  pub text_english: Option<String>,
  pub text_korean: Option<String>,
  pub answer_alarm: String,
}

/// The notice screen: no text in any language, and the alarm answered "fail", sent with
/// status 1.
pub fn notice() -> (r: CallResponse<Notice>)
    ensures
        r.status == 1,
        r.remote@.len() == 0 && r.notifications@.len() == 0,
        r.custom.text_japanese is None && r.custom.text_english is None && r.custom.text_korean is None,
        r.custom.answer_alarm@ == "fail"@,
{
    CallResponse::new_custom(
        1,
        Notice { text_japanese: None, text_english: None, text_korean: None, answer_alarm: String::from_str("fail") },
    )
}

} // verus!
