use vstd::prelude::*;

verus! {

#[derive(Debug)]
pub struct IdLinkConfirmGoogle {
  pub islink: bool,
}

/// No Google account is linked.
pub fn idlink_confirm_google() -> (r: IdLinkConfirmGoogle)
    ensures
        !r.islink,
{
    IdLinkConfirmGoogle { islink: false }
}

} // verus!
