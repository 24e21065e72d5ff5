use vstd::prelude::*;

verus! {

#[derive(Debug)]
pub struct StoryReward {
  pub reward: Vec<()>,
}

/// A story's rewards: none.
pub fn route() -> (r: StoryReward)
    ensures
        r.reward@.len() == 0,
{
    StoryReward { reward: Vec::new() }
}

} // verus!
