use vstd::prelude::*;
use crate::api::{item_type_code, item_type_of_code, RemoteDataItemType};
use crate::blob::{is_equipment_type, plain_entry, weapon_details, find_weapon_details, AddEquipment, EquipmentRow, IntoRemoteData, WeaponDetail};
use crate::call::CallResponse;
use crate::master::{field_i32, field_i64, lookup, rows_view, FieldsView, MasterRow};

verus! {

#[derive(Debug)]
pub struct BlacksmithList {
  pub items: Vec<BlacksmithlistItemsResponseDto>,
  pub equipped_weapon_list: Vec<BlacksmithEquippedItemResponseDto>,
  pub equipped_accessory_list: Vec<BlacksmithEquippedItemResponseDto>,
}

#[derive(Debug)]
pub struct BlacksmithlistItemsResponseDto {
  pub item_id: i64,
  pub item_type: i32,
  pub unlock: i32,
  pub newflag: i32,
}

#[derive(Debug)]
pub struct BlacksmithEquippedItemResponseDto {
  pub unique_id: i64,
  pub item_id: i64,
  pub use_party_num: i32,
  pub is_challenging_dungeon: bool,
}

#[derive(Debug)]
pub struct BlacksmithResponse {
  pub items: Vec<BlacksmithItem>,
  pub returned_items: Vec<BlacksmithReturnedItem>,
}

#[derive(Debug)]
pub struct BlacksmithItem {
  pub unique_id: i64,
  pub item_type: i32,
  pub item_id: i64,
  pub item_num: i32,
}

#[derive(Debug)]
pub struct BlacksmithReturnedItem {
  pub item_type: i32,
  pub item_id: i64,
  pub item_num: i32,
}

#[derive(Debug)]
pub struct BlacksmithRequest {
  pub num: i32,
  pub item_type: i32,
  pub item_id: i64,
  pub material_equipments: Vec<i64>,
}

/// What the forge list reads: every weapon's id reads as an `i64` and as an `i32`, and every
/// row of the item master has an id.
pub open spec fn forge_list_readable(weapons: Seq<FieldsView>, items: Seq<FieldsView>) -> bool {
    &&& forall|i: int| 0 <= i < weapons.len() ==>
        (#[trigger] field_i64(weapons[i], "item_id"@)) is Some && field_i32(weapons[i], "item_id"@) is Some
    &&& forall|i: int| 0 <= i < items.len() ==> (#[trigger] lookup(items[i], "id"@)) is Some
}

/// The weapons whose id is the one weapon shown as equipped.
pub open spec fn equipped_weapons(weapons: Seq<FieldsView>) -> Seq<i64>
    decreases weapons.len(),
{
    if weapons.len() == 0 {
        Seq::empty()
    } else {
        let rest = equipped_weapons(weapons.drop_last());
        if field_i32(weapons.last(), "item_id"@) == Some(11110i32) {
            rest.push(field_i64(weapons.last(), "item_id"@).unwrap())
        } else {
            rest
        }
    }
}

/// What the forge offers: every weapon of the master, unlocked and not new; one weapon shown
/// as equipped, once for each row that names it; no accessories.
pub fn blacksmith_list(weapons: &Vec<MasterRow>, items: &Vec<MasterRow>) -> (r: BlacksmithList)
    requires
        forge_list_readable(rows_view(weapons@), rows_view(items@)),
    ensures
        r.items@.len() == weapons@.len(),
        forall|k: int| 0 <= k < weapons@.len() ==> {
            &&& Some((#[trigger] r.items@[k]).item_id) == field_i64(rows_view(weapons@)[k], "item_id"@)
            &&& r.items@[k].item_type == item_type_code(RemoteDataItemType::Weapon)
            &&& r.items@[k].unlock == 1
            &&& r.items@[k].newflag == 0
        },
        r.equipped_weapon_list@.len() == equipped_weapons(rows_view(weapons@)).len(),
        forall|k: int| 0 <= k < r.equipped_weapon_list@.len() ==> {
            &&& (#[trigger] r.equipped_weapon_list@[k]).unique_id == 1000011110
            &&& r.equipped_weapon_list@[k].item_id == equipped_weapons(rows_view(weapons@))[k]
            &&& r.equipped_weapon_list@[k].use_party_num == 0
            &&& r.equipped_weapon_list@[k].is_challenging_dungeon
        },
        r.equipped_accessory_list@.len() == 0,
{
    let ghost wv = rows_view(weapons@);
    let weapon_code = RemoteDataItemType::Weapon.code();
    let mut list: Vec<BlacksmithlistItemsResponseDto> = Vec::new();
    let mut equipped: Vec<BlacksmithEquippedItemResponseDto> = Vec::new();
    let mut i: usize = 0;
    while i < weapons.len()
        invariant
            i <= weapons@.len(),
            wv == rows_view(weapons@),
            forge_list_readable(wv, rows_view(items@)),
            weapon_code == item_type_code(RemoteDataItemType::Weapon),
            list@.len() == i,
            forall|k: int| 0 <= k < i ==> {
                &&& Some((#[trigger] list@[k]).item_id) == field_i64(wv[k], "item_id"@)
                &&& list@[k].item_type == item_type_code(RemoteDataItemType::Weapon)
                &&& list@[k].unlock == 1
                &&& list@[k].newflag == 0
            },
            equipped@.len() == equipped_weapons(wv.take(i as int)).len(),
            forall|k: int| 0 <= k < equipped@.len() ==> {
                &&& (#[trigger] equipped@[k]).unique_id == 1000011110
                &&& equipped@[k].item_id == equipped_weapons(wv.take(i as int))[k]
                &&& equipped@[k].use_party_num == 0
                &&& equipped@[k].is_challenging_dungeon
            },
        decreases weapons@.len() - i,
    {
        assert(wv[i as int] == weapons@[i as int]@);
        assert(wv.take(i + 1).drop_last() =~= wv.take(i as int));
        assert(wv.take(i + 1).last() == wv[i as int]);
        assert(field_i64(wv[i as int], "item_id"@) is Some);
        let item_id = match weapons[i].get_i64("item_id") {
            Some(v) => v,
            None => 0,
        };
        list.push(BlacksmithlistItemsResponseDto { item_id, item_type: weapon_code, unlock: 1, newflag: 0 });
        if weapons[i].get_i32("item_id") == Some(11110) {
            equipped.push(BlacksmithEquippedItemResponseDto {
                unique_id: 1000011110,
                item_id,
                use_party_num: 0,
                is_challenging_dungeon: true,
            });
        }
        i = i + 1;
    }
    assert(wv.take(weapons@.len() as int) =~= wv);
    BlacksmithList { items: list, equipped_weapon_list: equipped, equipped_accessory_list: Vec::new() }
}

/// What forging answers once the new equipment is stored: the piece, as its details for its
/// level, one of it, nothing returned; and the piece as remote data under its own item type,
/// tagged `lock:1` where it is locked.
pub fn blacksmith_response(row: EquipmentRow, details: &Vec<WeaponDetail>, time: u32) -> (r: CallResponse<BlacksmithResponse>)
    requires
        weapon_details(details@, row.item_id, row.level) is Some,
        is_equipment_type(item_type_of_code(row.item_type as i32)),
    ensures
        r.status == 0,
        r.time == Some(time),
        r.notifications@.len() == 0,
        r.custom.items@.len() == 1,
        r.custom.items@[0] == (BlacksmithItem {
            unique_id: row.id,
            item_type: row.item_type as i32,
            item_id: weapon_details(details@, row.item_id, row.level).unwrap(),
            item_num: 1,
        }),
        r.custom.returned_items@.len() == 0,
        r.remote@.len() == 1,
        plain_entry(
            1,
            item_type_code(item_type_of_code(row.item_type as i32)),
            weapon_details(details@, row.item_id, row.level).unwrap(),
            1,
            row.id as i32,
            0,
            if row.is_locked { "lock:1"@ } else { ""@ },
            r.remote@[0],
        ),
{
    #[verifier::truncate]
    let item_type = row.item_type as i32;
    let item_details_id = match find_weapon_details(details, row.item_id, row.level) {
        Some(v) => v,
        None => 0,
    };
    let mut response = CallResponse::at_time(0, time, BlacksmithResponse {
        items: vec![BlacksmithItem { unique_id: row.id, item_type, item_id: item_details_id, item_num: 1 }],
        returned_items: Vec::new(),
    });
    #[verifier::truncate]
    let unique_id = row.id as i32;
    let kind = RemoteDataItemType::of_code(item_type);
    response.add_remote_data(AddEquipment::new(kind, item_details_id, unique_id, row.is_locked).into_remote_data());
    response
}

} // verus!
