use vstd::prelude::*;
use crate::master::{field_u32, rows_view, MasterRow};

verus! {

#[derive(Debug)]
pub struct HonorList {
  pub honor_list: Vec<HonorItem>,
}

#[derive(Debug)]
pub struct HonorItem {
  pub honor_id: u32,
  pub is_selected: bool,
  pub is_new: bool,
}

#[derive(Debug)]
pub struct HonorSetRequest {
  pub honor_id: u32,
}

#[derive(Debug)]
pub struct SetIconRequest {
  pub illustration_id: u32,
}

impl HonorItem {
    pub fn new(honor_id: u32, is_selected: bool, is_new: bool) -> (r: Self)
        ensures
            r == (HonorItem { honor_id, is_selected, is_new }),
    {
        Self { honor_id, is_selected, is_new }
    }
}

/// The titles: every one of the master, in order, title 62010250 chosen, none new.
pub fn honor_list(honors: &Vec<MasterRow>) -> (r: HonorList)
    requires
        forall|i: int| 0 <= i < honors@.len() ==> (#[trigger] field_u32(rows_view(honors@)[i], "id"@)) is Some,
    ensures
        r.honor_list@.len() == honors@.len(),
        forall|k: int| 0 <= k < honors@.len() ==> {
            let id = field_u32(rows_view(honors@)[k], "id"@).unwrap();
            #[trigger] r.honor_list@[k] == (HonorItem { honor_id: id, is_selected: id == 62010250, is_new: false })
        },
{
    let ghost hv = rows_view(honors@);
    let mut list: Vec<HonorItem> = Vec::new();
    let mut k: usize = 0;
    while k < honors.len()
        invariant
            k <= honors@.len(),
            hv == rows_view(honors@),
            forall|i: int| 0 <= i < honors@.len() ==> (#[trigger] field_u32(hv[i], "id"@)) is Some,
            list@.len() == k,
            forall|j: int| 0 <= j < k ==> {
                let id = field_u32(hv[j], "id"@).unwrap();
                #[trigger] list@[j] == (HonorItem { honor_id: id, is_selected: id == 62010250, is_new: false })
            },
        decreases honors@.len() - k,
    {
        assert(hv[k as int] == honors@[k as int]@);
        assert(field_u32(hv[k as int], "id"@) is Some);
        let id = match honors[k].get_u32("id") {
            Some(v) => v,
            None => 0,
        };
        list.push(HonorItem::new(id, id == 62010250, false));
        k = k + 1;
    }
    HonorList { honor_list: list }
}

} // verus!
