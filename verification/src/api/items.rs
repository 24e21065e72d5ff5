use vstd::prelude::*;

use crate::master::{column_i64, column_i64_spec, rows_view, MasterRow};

verus! {

#[derive(Debug)]
pub struct WeaponList {
  pub items: Vec<WeaponListItem>,
}

#[derive(Debug)]
pub struct WeaponListItem {
  /// Opaque
  pub id: i64,
  /// `equip_weapon_details.item_id_details`
  pub weapon_id: i64,
  pub islock: bool,
  pub trial: bool,
}

#[derive(Debug)]
pub struct AccessoryList {
  pub items: Vec<AccessoryListItem>,
}

#[derive(Debug)]
pub struct AccessoryListItem {
  /// Opaque
  pub id: i64,
  /// `equip_accessory_details.item_id_details`
  pub accessory_id: i64,
  pub islock: bool,
}

/// Every weapon detail of the master, unlocked and not a trial, with the detail's id as both
/// its id and its weapon id.
pub fn weapon_list(weapons: &Vec<MasterRow>) -> (r: WeaponList)
    requires
        column_i64_spec(rows_view(weapons@), "item_id_details"@) is Some,
    ensures
        r.items@.len() == weapons@.len(),
        forall|k: int| 0 <= k < r.items@.len() ==> {
            let it = #[trigger] r.items@[k];
            &&& it.id == column_i64_spec(rows_view(weapons@), "item_id_details"@).unwrap()[k]
            &&& it.weapon_id == it.id
            &&& !it.islock && !it.trial
        },
{
    let ids = match column_i64(weapons, "item_id_details") {
        Some(v) => v,
        None => Vec::new(),
    };
    let mut items: Vec<WeaponListItem> = Vec::new();
    let mut i: usize = 0;
    while i < ids.len()
        invariant
            i <= ids@.len(),
            items@.len() == i,
            forall|k: int| 0 <= k < i ==> {
                let it = #[trigger] items@[k];
                &&& it.id == ids@[k] && it.weapon_id == ids@[k]
                &&& !it.islock && !it.trial
            },
        decreases ids@.len() - i,
    {
        items.push(WeaponListItem { id: ids[i], weapon_id: ids[i], islock: false, trial: false });
        i = i + 1;
    }
    WeaponList { items }
}

/// Every accessory detail of the master, unlocked, with the detail's id as both its id and
/// its accessory id.
pub fn accessory_list(accessories: &Vec<MasterRow>) -> (r: AccessoryList)
    requires
        column_i64_spec(rows_view(accessories@), "item_id_details"@) is Some,
    ensures
        r.items@.len() == accessories@.len(),
        forall|k: int| 0 <= k < r.items@.len() ==> {
            let it = #[trigger] r.items@[k];
            &&& it.id == column_i64_spec(rows_view(accessories@), "item_id_details"@).unwrap()[k]
            &&& it.accessory_id == it.id
            &&& !it.islock
        },
{
    let ids = match column_i64(accessories, "item_id_details") {
        Some(v) => v,
        None => Vec::new(),
    };
    let mut items: Vec<AccessoryListItem> = Vec::new();
    let mut i: usize = 0;
    while i < ids.len()
        invariant
            i <= ids@.len(),
            items@.len() == i,
            forall|k: int| 0 <= k < i ==> {
                let it = #[trigger] items@[k];
                &&& it.id == ids@[k] && it.accessory_id == ids@[k]
                &&& !it.islock
            },
        decreases ids@.len() - i,
    {
        items.push(AccessoryListItem { id: ids[i], accessory_id: ids[i], islock: false });
        i = i + 1;
    }
    AccessoryList { items }
}

} // verus!
