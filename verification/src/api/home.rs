use vstd::prelude::*;

verus! {

#[derive(Debug)]
pub struct Home {
  pub multi_battle_invitation: Option<MultiBattleInvitation>,
  pub member_info: MemberInfo,
  pub advertisement_data: AdvertisementData,
  pub display_plan_map: bool,
}

#[derive(Debug)]
pub struct MultiBattleInvitation {
  pub event_id: i32,
  pub rooms: Vec<MultiBattleRoom>,
}

#[derive(Debug)]
pub struct MultiBattleRoom {
  pub room_no: i32,
  pub quest_id: i32,
  pub user_icon: i64,
  pub user_name: String,
}

#[derive(Debug)]
pub struct MemberInfo {
  /// Should be present in [member_ids], otherwise first element is used.
  pub current_member_id: i64,
  pub member_ids: [i64; 5],
}

#[derive(Debug)]
pub struct AdvertisementData {
  pub id: i32,
  pub reward_type: i32,
  pub status: i32,
}

#[derive(Debug)]
pub struct HomeMembersSetRequest {
  pub illustration_ids: [i64; 5],
}

#[derive(Debug)]
pub struct HomeCurrentMemberSetRequest {
  pub illustration_id: i64,
}

#[derive(Debug)]
pub struct MissionHomeRequest {
  pub user_character_id: i32,
}

/// The illustration in a home slot: what the slot holds, 0 where it is empty or missing.
pub open spec fn slot_member(slots: Seq<Option<i64>>, k: int) -> i64 {
    if 0 <= k < slots.len() {
        match slots[k] { Some(id) => id, None => 0 }
    } else {
        0
    }
}

fn slot_member_exec(slots: &Vec<Option<i64>>, k: usize) -> (r: i64)
    ensures
        r == slot_member(slots@, k as int),
{
    if k < slots.len() {
        match slots[k] {
            Some(id) => id,
            None => 0,
        }
    } else {
        0
    }
}

/// The home screen: the illustrations of the five slots in order (0 for an empty one), the
/// one shown, the daily advertisement, no invitation and no map.
pub fn home(current_illustration_id: i64, slots: &Vec<Option<i64>>) -> (r: Home)
    requires
        slots@.len() <= 5,
    ensures
        r.member_info.current_member_id == current_illustration_id,
        forall|k: int| 0 <= k < 5 ==> #[trigger] r.member_info.member_ids@[k] == slot_member(slots@, k),
        r.multi_battle_invitation is None,
        r.advertisement_data == (AdvertisementData { id: 10006, reward_type: 1, status: 0 }),
        !r.display_plan_map,
{
    let members: [i64; 5] = [
        slot_member_exec(slots, 0),
        slot_member_exec(slots, 1),
        slot_member_exec(slots, 2),
        slot_member_exec(slots, 3),
        slot_member_exec(slots, 4),
    ];
    Home {
        multi_battle_invitation: None,
        member_info: MemberInfo { current_member_id: current_illustration_id, member_ids: members },
        advertisement_data: AdvertisementData { id: 10006, reward_type: 1, status: 0 },
        display_plan_map: false,
    }
}

fn slot_of(id: i64) -> (r: Option<i64>)
    ensures
        r == (if id == 0 { None } else { Some(id) }),
{
    if id == 0 { None } else { Some(id) }
}

/// What the five home slots store: each illustration, an empty slot for 0.
pub fn home_slots(request: &HomeMembersSetRequest) -> (r: [Option<i64>; 5])
    ensures
        forall|k: int| 0 <= k < 5 ==> #[trigger] r@[k] == (if request.illustration_ids@[k] == 0 { None } else { Some(request.illustration_ids@[k]) }),
{
    let ids = &request.illustration_ids;
    [slot_of(ids[0]), slot_of(ids[1]), slot_of(ids[2]), slot_of(ids[3]), slot_of(ids[4])]
}

} // verus!
