use vstd::prelude::*;

verus! {

#[derive(Debug)]
pub struct TutorialRequest {
  pub kind: String,
  pub progress: i32,
}

} // verus!
