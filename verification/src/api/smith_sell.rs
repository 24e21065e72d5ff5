use vstd::prelude::*;
use crate::blob::{weapon_details, find_weapon_details, EquipmentRow, ItemRow, WeaponDetail};

verus! {

#[derive(Debug)]
pub struct SaleList {
  pub items: Vec<SaleItem>,
}

#[derive(Debug)]
pub struct SaleItem {
  pub item_type: i32,
  pub item_id: i64,
  pub target_item_id: i64,
  pub item_num: i32,
  pub islock: bool,
  pub isuse: bool,
  pub trial: bool,
}

#[derive(Debug)]
pub enum SaleListKind {
  /// "Equipment"
  Equipment,

  /// "Crafting Materials"
  Material,
}

#[derive(Debug)]
pub struct SaleListRequest {
  pub kind: SaleListKind,
}

/// Every piece of equipment has details for its level.
pub open spec fn details_known(rows: Seq<EquipmentRow>, details: Seq<WeaponDetail>) -> bool {
    forall|k: int| 0 <= k < rows.len() ==> weapon_details(details, (#[trigger] rows[k]).item_id, rows[k].level) is Some
}

/// A piece of equipment as the sale list shows it: its details for its level, one of it.
pub open spec fn equipment_for_sale(s: SaleItem, row: EquipmentRow, details: Seq<WeaponDetail>) -> bool {
    &&& s.item_type == row.item_type as i32
    &&& s.item_id == weapon_details(details, row.item_id, row.level).unwrap()
    &&& s.target_item_id == row.id
    &&& s.item_num == 1
    &&& s.islock == row.is_locked
    &&& !s.isuse && !s.trial
}

/// A material as the sale list shows it: itself, as many as the user has.
pub open spec fn material_for_sale(s: SaleItem, row: ItemRow) -> bool {
    &&& s.item_type == row.item_type as i32
    &&& s.item_id == row.item_id
    &&& s.target_item_id == row.item_id
    &&& s.item_num == row.quantity
    &&& !s.islock && !s.isuse && !s.trial
}

/// What the user can sell: each piece of equipment, or each material, in order.
pub fn sale_list(request: &SaleListRequest, equipment: &Vec<EquipmentRow>, materials: &Vec<ItemRow>, details: &Vec<WeaponDetail>) -> (r: SaleList)
    requires
        request.kind is Equipment ==> details_known(equipment@, details@),
    ensures
        request.kind is Equipment ==> r.items@.len() == equipment@.len()
            && forall|k: int| 0 <= k < equipment@.len() ==> equipment_for_sale(#[trigger] r.items@[k], equipment@[k], details@),
        request.kind is Material ==> r.items@.len() == materials@.len()
            && forall|k: int| 0 <= k < materials@.len() ==> material_for_sale(#[trigger] r.items@[k], materials@[k]),
{
    let mut items: Vec<SaleItem> = Vec::new();
    match request.kind {
        SaleListKind::Equipment => {
            let mut k: usize = 0;
            while k < equipment.len()
                invariant
                    k <= equipment@.len(),
                    details_known(equipment@, details@),
                    items@.len() == k,
                    forall|j: int| 0 <= j < k ==> equipment_for_sale(#[trigger] items@[j], equipment@[j], details@),
                decreases equipment@.len() - k,
            {
                let row = equipment[k];
                let found = find_weapon_details(details, row.item_id, row.level);
                let item_id = match found {
                    Some(v) => v,
                    None => 0,
                };
                #[verifier::truncate]
                let item_type = row.item_type as i32;
                items.push(SaleItem {
                    item_type,
                    item_id,
                    target_item_id: row.id,
                    item_num: 1,
                    islock: row.is_locked,
                    isuse: false,
                    trial: false,
                });
                k = k + 1;
            }
        },
        SaleListKind::Material => {
            let mut k: usize = 0;
            while k < materials.len()
                invariant
                    k <= materials@.len(),
                    items@.len() == k,
                    forall|j: int| 0 <= j < k ==> material_for_sale(#[trigger] items@[j], materials@[j]),
                decreases materials@.len() - k,
            {
                let row = materials[k];
                #[verifier::truncate]
                let item_type = row.item_type as i32;
                items.push(SaleItem {
                    item_type,
                    item_id: row.item_id,
                    target_item_id: row.item_id,
                    item_num: row.quantity,
                    islock: false,
                    isuse: false,
                    trial: false,
                });
                k = k + 1;
            }
        },
    }
    SaleList { items }
}

} // verus!
