use vstd::prelude::*;
use crate::api::smith_craft::BlacksmithEquippedItemResponseDto;
use crate::api::smith_craft::BlacksmithReturnedItem;
use crate::api::quest::quest_fame::FameQuestReleaseConditionInfo;
use crate::api::quest::quest_hunting::{listed_hunting_quest, listed_hunting_quests, no_dungeon_materials, HuntingQuest};
use crate::api::quest::{offering_stages, stages_offering, stages_readable};
use crate::master::{rows_view, MasterRow};
use crate::api::{item_type_code, item_type_of_code, RemoteDataItemType};
use crate::blob::{is_equipment_type, plain_entry, weapon_details, find_weapon_details, AddEquipment, EquipmentRow, IntoRemoteData, WeaponDetail};
use crate::call::CallResponse;

verus! {

#[derive(Debug)]
pub struct PowerUpList {
  pub items: Vec<ItempoweruplistItemsResponseDto>,
  pub equipped_weapon_list: Vec<BlacksmithEquippedItemResponseDto>,
  pub equipped_accessory_list: Vec<BlacksmithEquippedItemResponseDto>,
}

#[derive(Debug)]
pub struct ItempoweruplistItemsResponseDto {
  pub item_type: i32,
  pub item_id: i64,
  pub target_item_id: i32,
  pub lv: i32,
  pub islock: bool,
  pub trial: bool,
}

#[derive(Debug)]
pub struct ItemPowerUpMaterial {
  pub unique_id: i32,
  pub item_type: i32,
}

#[derive(Debug)]
pub struct ItemPowerUpRequest {
  pub target_item_id: i64,
  pub item_type: i32,
  pub material_equipments: Vec<ItemPowerUpMaterial>,
  pub powerup_count: i32,
}

#[derive(Debug)]
pub struct ItemPowerUpItem {
  pub itemtype: i32,
  pub itemid: i32,
  pub itemnum: i32,
}

#[derive(Debug)]
pub struct ItemPowerUpResponse {
  pub items: Vec<ItemPowerUpItem>,
  pub returned_items: Vec<BlacksmithReturnedItem>,
}

#[derive(Debug)]
pub struct BlacksmithQuestList {
  pub quests: Vec<BlacksmithQuest>,
  pub huntingquests: Vec<HuntingQuest>,
  pub eventquests: Vec<EventQuest>,
  pub eventboxgachas: Vec<i32>,
  pub exchanges: Vec<i32>,
  pub expedition: i32,
  pub scorechallenge: i32,
  pub scorechallenge_ex: i32,
  pub character_enhance: i32,
  pub dungeon: DungeonAreaMaterialInfoResponseDto,
  pub fame_quest: Vec<FameQuestMaterialInfoResponseDto>,
}

#[derive(Debug)]
pub struct BlacksmithQuest {
  pub quest_id: i32,
  pub task1: i32,
  pub task2: i32,
  pub task3: i32,
  pub limit: i32,
}

#[derive(Debug)]
pub struct EventQuest {
  pub quest_id: i32,
  pub task1: i32,
  pub task2: i32,
  pub task3: i32,
  pub limit: i32,
  pub status: i32,
}

#[derive(Debug)]
pub struct DungeonAreaMaterialInfoResponseDto {
  pub area_ids: Vec<i32>,
  pub unlocked_area_ids: Vec<i32>,
  pub challenging_area_id: i32,
}

#[derive(Debug)]
pub struct FameQuestMaterialInfoResponseDto {
  pub stage_id: i32,
  pub is_challengeable: bool,
  pub release_condition: FameQuestReleaseConditionInfo,
  pub remaining_count: i32,
}

#[derive(Debug)]
pub struct BlacksmithQuestListRequest {
  pub item_id: i64,
}

/// A main quest as the item lists show it: tasks one and two done, forty-two tries left.
pub open spec fn listed_main_quest(q: BlacksmithQuest, id: i32) -> bool {
    q.quest_id == id && q.task1 == 1 && q.task2 == 1 && q.task3 == 0 && q.limit == 42
}

fn listed_main_quests(ids: &Vec<i32>) -> (r: Vec<BlacksmithQuest>)
    ensures
        r@.len() == ids@.len(),
        forall|k: int| 0 <= k < ids@.len() ==> listed_main_quest(#[trigger] r@[k], ids@[k]),
{
    let mut r: Vec<BlacksmithQuest> = Vec::new();
    let mut k: usize = 0;
    while k < ids.len()
        invariant
            k <= ids@.len(),
            r@.len() == k,
            forall|j: int| 0 <= j < k ==> listed_main_quest(#[trigger] r@[j], ids@[j]),
        decreases ids@.len() - k,
    {
        r.push(BlacksmithQuest { quest_id: ids[k], task1: 1, task2: 1, task3: 0, limit: 42 });
        k = k + 1;
    }
    r
}

/// Where a material can be had: the main quests and the hunting quests whose reward row lists
/// an item with its id (a missing count counting as one); nothing else.
pub fn blacksmith_quest_list(
    main_stages: &Vec<MasterRow>,
    main_rewards: &Vec<MasterRow>,
    hunting_stages: &Vec<MasterRow>,
    hunting_rewards: &Vec<MasterRow>,
    request: &BlacksmithQuestListRequest,
) -> (r: BlacksmithQuestList)
    requires
        stages_readable(rows_view(main_stages@), rows_view(main_rewards@), Some(1i32)),
        stages_readable(rows_view(hunting_stages@), rows_view(hunting_rewards@), Some(1i32)),
    ensures
        ({
            let ids = offering_stages(rows_view(main_stages@), rows_view(main_rewards@), None, request.item_id, Some(1i32));
            &&& r.quests@.len() == ids.len()
            &&& forall|k: int| 0 <= k < ids.len() ==> listed_main_quest(#[trigger] r.quests@[k], ids[k])
        }),
        ({
            let ids = offering_stages(rows_view(hunting_stages@), rows_view(hunting_rewards@), None, request.item_id, Some(1i32));
            &&& r.huntingquests@.len() == ids.len()
            &&& forall|k: int| 0 <= k < ids.len() ==> listed_hunting_quest(#[trigger] r.huntingquests@[k], ids[k])
        }),
        r.eventquests@.len() == 0,
        r.eventboxgachas@.len() == 0,
        r.exchanges@.len() == 0,
        r.expedition == 0,
        r.scorechallenge == 0,
        r.scorechallenge_ex == 0,
        r.character_enhance == 0,
        r.dungeon.area_ids@.len() == 0,
        r.dungeon.unlocked_area_ids@.len() == 0,
        r.dungeon.challenging_area_id == 0,
        r.fame_quest@.len() == 0,
{
    let main_ids = stages_offering(main_stages, main_rewards, None, request.item_id, Some(1));
    let hunting_ids = stages_offering(hunting_stages, hunting_rewards, None, request.item_id, Some(1));
    BlacksmithQuestList {
        quests: listed_main_quests(&main_ids),
        huntingquests: listed_hunting_quests(&hunting_ids),
        eventquests: Vec::new(),
        eventboxgachas: Vec::new(),
        exchanges: Vec::new(),
        expedition: 0,
        scorechallenge: 0,
        scorechallenge_ex: 0,
        character_enhance: 0,
        dungeon: no_dungeon_materials(),
        fame_quest: Vec::new(),
    }
}

/// A piece of equipment as the upgrade list shows it.
pub open spec fn listed_for_power_up(d: ItempoweruplistItemsResponseDto, row: EquipmentRow) -> bool {
    &&& d.item_type == row.item_type as i32
    &&& d.item_id == row.item_id
    &&& d.target_item_id == row.id as i32
    &&& d.lv == row.level
    &&& d.islock == row.is_locked
    &&& !d.trial
}

/// What can be upgraded: each piece of the user's equipment, in order; nothing equipped.
pub fn item_power_up_list(equipment: &Vec<EquipmentRow>) -> (r: PowerUpList)
    ensures
        r.items@.len() == equipment@.len(),
        forall|k: int| 0 <= k < equipment@.len() ==> listed_for_power_up(#[trigger] r.items@[k], equipment@[k]),
        r.equipped_weapon_list@.len() == 0,
        r.equipped_accessory_list@.len() == 0,
{
    let mut items: Vec<ItempoweruplistItemsResponseDto> = Vec::new();
    let mut k: usize = 0;
    while k < equipment.len()
        invariant
            k <= equipment@.len(),
            items@.len() == k,
            forall|j: int| 0 <= j < k ==> listed_for_power_up(#[trigger] items@[j], equipment@[j]),
        decreases equipment@.len() - k,
    {
        let row = equipment[k];
        #[verifier::truncate]
        let item_type = row.item_type as i32;
        #[verifier::truncate]
        let target = row.id as i32;
        items.push(ItempoweruplistItemsResponseDto {
            item_type,
            item_id: row.item_id,
            target_item_id: target,
            lv: row.level,
            islock: row.is_locked,
            trial: false,
        });
        k = k + 1;
    }
    PowerUpList { items, equipped_weapon_list: Vec::new(), equipped_accessory_list: Vec::new() }
}

/// What an upgrade answers once the equipment's new level is stored: the piece, as its details
/// for that level, one of it, nothing returned; and the piece as remote data under its own
/// item type, tagged `lock:1` where it is locked.
pub fn item_power_up_response(row: EquipmentRow, details: &Vec<WeaponDetail>, time: u32) -> (r: CallResponse<ItemPowerUpResponse>)
    requires
        weapon_details(details@, row.item_id, row.level) is Some,
        is_equipment_type(item_type_of_code(row.item_type as i32)),
    ensures
        r.status == 0,
        r.time == Some(time),
        r.notifications@.len() == 0,
        r.custom.items@.len() == 1,
        r.custom.items@[0] == (ItemPowerUpItem {
            itemtype: row.item_type as i32,
            itemid: weapon_details(details@, row.item_id, row.level).unwrap() as i32,
            itemnum: 1,
        }),
        r.custom.returned_items@.len() == 0,
        r.remote@.len() == 1,
        plain_entry(
            1,
            item_type_code(item_type_of_code(row.item_type as i32)),
            weapon_details(details@, row.item_id, row.level).unwrap(),
            1,
            row.id as i32,
            0,
            if row.is_locked { "lock:1"@ } else { ""@ },
            r.remote@[0],
        ),
{
    #[verifier::truncate]
    let item_type = row.item_type as i32;
    let item_details_id = match find_weapon_details(details, row.item_id, row.level) {
        Some(v) => v,
        None => 0,
    };
    #[verifier::truncate]
    let itemid = item_details_id as i32;
    let mut response = CallResponse::at_time(0, time, ItemPowerUpResponse {
        items: vec![ItemPowerUpItem { itemtype: item_type, itemid, itemnum: 1 }],
        returned_items: Vec::new(),
    });
    #[verifier::truncate]
    let unique_id = row.id as i32;
    let kind = RemoteDataItemType::of_code(item_type);
    response.add_remote_data(AddEquipment::new(kind, item_details_id, unique_id, row.is_locked).into_remote_data());
    response
}

} // verus!
