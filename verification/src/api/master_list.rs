use vstd::prelude::*;

verus! {

#[derive(Debug)]
pub struct MasterList {
  pub masterversion: String,
  pub masterarray: Vec<MasterListItem>,
}

#[derive(Clone, Debug)]
pub struct MasterListItem {
  pub master_key: String,
  pub size: u32,
  pub checkkey: String,
}

impl MasterListItem {
    pub fn new(master_key: String, size: u32, checkkey: String) -> (r: Self)
        ensures
            r.master_key@ == master_key@,
            r.size == size,
            r.checkkey@ == checkkey@,
    {
        Self { master_key, size, checkkey }
    }
}

} // verus!
