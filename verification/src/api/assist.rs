use vstd::prelude::*;

verus! {

#[derive(Debug)]
pub struct AssistMakeList {
  pub assist_detail_id_list: Vec<i64>,
}

/// The assists that can be made: none.
pub fn assist_make_list() -> (r: AssistMakeList)
    ensures
        r.assist_detail_id_list@.len() == 0,
{
    AssistMakeList { assist_detail_id_list: Vec::new() }
}

} // verus!
