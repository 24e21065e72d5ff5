//! Which build of the server is running.

use vstd::prelude::*;

verus! {

pub struct BuildInfo {
    pub git_hash: String,
    pub git_dirty: bool,
    pub profile: String,
}

} // verus!
