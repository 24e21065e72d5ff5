use vstd::prelude::*;
use crate::api::dungeon::BattleSkipReward;
use crate::api::{item_type_code, NotificationData, RemoteDataItemType};
use crate::api::login::notifications_match;
use crate::call::CallResponse;
use crate::master::{column_i32, field_i32, read_column_i32, rows_view, FieldsView, MasterRow};

verus! {

#[derive(Debug)]
pub struct QuestMainPartListResponse {
  pub quests: Vec<QuestMainPartListItem>,
}

#[derive(Debug)]
pub struct QuestMainPartListItem {
  pub quest_part_id: i32,
  /// 0 - unlocked (new), 1 - unlocked, 2 - completed, 3 - 100% completed
  pub status: i32,
}

#[derive(Debug)]
pub struct QuestMainAreaListResponse {
  pub normal_area_list: Vec<QuestMainAreaListItem>,
  pub hard_area_list: Vec<QuestMainAreaListItem>,
  pub expert_area_list: Vec<QuestMainAreaListItem>,
}

#[derive(Clone, Debug)]
pub struct QuestMainAreaListItem {
  pub quest_area_master_id: i32,
  /// 0 - unlocked (new), 1 - unlocked, 2 - completed, 3 - 100% completed
  pub status: i32,
}

#[derive(Debug)]
pub struct QuestMainStageListRequest {
  pub area_id: i32,
}

#[derive(Debug)]
pub struct QuestMainStageListResponse {
  pub quests: Vec<QuestMainStageListItem>,
}

#[derive(Debug)]
pub struct QuestMainStageListItem {
  pub quest_stage_id: i32,
  pub status: i32,
  pub task1: i32,
  pub task2: i32,
  pub task3: i32,
  /// Number of attempts done. Unlimited for Normal stages, 3 for Hard stages, 1 for Expert stages.
  pub challenge_count: i32,
  pub difficulty: i32,
}

#[derive(Debug)]
pub struct BattleSkipRequest {
  pub skip: Vec<SkipInfoRequestDto>,
  pub splitcount: i32,
  pub max_splitcount: i32,
}

#[derive(Debug)]
pub struct SkipInfoRequestDto {
  pub quest_id: i32,
  pub skip_count: i32,
}

#[derive(Debug)]
pub struct BattleSkipResponse {
  pub lvup: i32,
  pub reward: Vec<BattleSkipReward>,
}

/// The main quest parts: every part of the master, completed to the full.
pub fn quest_main_part_list(parts: &Vec<MasterRow>) -> (r: QuestMainPartListResponse)
    requires
        forall|i: int| 0 <= i < parts@.len() ==> (#[trigger] field_i32(rows_view(parts@)[i], "part"@)) is Some,
    ensures
        r.quests@.len() == parts@.len(),
        forall|k: int| 0 <= k < parts@.len() ==> #[trigger] r.quests@[k]
            == (QuestMainPartListItem { quest_part_id: column_i32(rows_view(parts@), "part"@)[k], status: 3 }),
{
    let ids = read_column_i32(parts, "part");
    let mut quests: Vec<QuestMainPartListItem> = Vec::new();
    let mut k: usize = 0;
    while k < ids.len()
        invariant
            k <= ids@.len(),
            quests@.len() == k,
            forall|j: int| 0 <= j < k ==> #[trigger] quests@[j] == (QuestMainPartListItem { quest_part_id: ids@[j], status: 3 }),
        decreases ids@.len() - k,
    {
        quests.push(QuestMainPartListItem { quest_part_id: ids[k], status: 3 });
        k = k + 1;
    }
    QuestMainPartListResponse { quests }
}

/// The areas, each with the given status, in order.
pub fn area_items(ids: &Vec<i32>, status: i32) -> (r: Vec<QuestMainAreaListItem>)
    ensures
        r@.len() == ids@.len(),
        forall|k: int| 0 <= k < ids@.len() ==> #[trigger] r@[k] == (QuestMainAreaListItem { quest_area_master_id: ids@[k], status }),
{
    let mut out: Vec<QuestMainAreaListItem> = Vec::new();
    let mut k: usize = 0;
    while k < ids.len()
        invariant
            k <= ids@.len(),
            out@.len() == k,
            forall|j: int| 0 <= j < k ==> #[trigger] out@[j] == (QuestMainAreaListItem { quest_area_master_id: ids@[j], status }),
        decreases ids@.len() - k,
    {
        out.push(QuestMainAreaListItem { quest_area_master_id: ids[k], status });
        k = k + 1;
    }
    out
}

/// Every area of a difficulty as the area list shows it.
pub open spec fn areas_listed(v: Seq<QuestMainAreaListItem>, ids: Seq<i32>, status: i32) -> bool {
    &&& v.len() == ids.len()
    &&& forall|k: int| 0 <= k < ids.len() ==> #[trigger] v[k] == (QuestMainAreaListItem { quest_area_master_id: ids[k], status })
}

/// The main quest areas: every area of the master, completed to the full, in each difficulty;
/// with a notification that unlocks the area list.
pub fn quest_main_area_list(areas: &Vec<MasterRow>, time: u32) -> (r: CallResponse<QuestMainAreaListResponse>)
    requires
        forall|i: int| 0 <= i < areas@.len() ==> (#[trigger] field_i32(rows_view(areas@)[i], "id"@)) is Some,
    ensures
        r.status == 0,
        r.time == Some(time),
        r.remote@.len() == 0,
        notifications_match(r.notifications@, seq![(1i32, 7i32, 20i32, 1i32, ""@, ""@)]),
        areas_listed(r.custom.normal_area_list@, column_i32(rows_view(areas@), "id"@), 3),
        areas_listed(r.custom.hard_area_list@, column_i32(rows_view(areas@), "id"@), 3),
        areas_listed(r.custom.expert_area_list@, column_i32(rows_view(areas@), "id"@), 3),
{
    let ids = read_column_i32(areas, "id");
    let custom = QuestMainAreaListResponse {
        normal_area_list: area_items(&ids, 3),
        hard_area_list: area_items(&ids, 3),
        expert_area_list: area_items(&ids, 3),
    };
    let mut response = CallResponse::at_time(0, time, custom);
    response.add_notifications(vec![NotificationData::new(1, 7, 20, 1, String::from_str(""), String::from_str(""))]);
    response
}

/// (stage, difficulty) of the stages of an area, in order.
pub open spec fn area_stages(rows: Seq<FieldsView>, area_id: i32) -> Seq<(i32, i32)>
    decreases rows.len(),
{
    if rows.len() == 0 {
        Seq::empty()
    } else {
        let rest = area_stages(rows.drop_last(), area_id);
        if field_i32(rows.last(), "area_id"@) == Some(area_id) {
            rest.push((field_i32(rows.last(), "stage_id"@).unwrap(), field_i32(rows.last(), "mode"@).unwrap()))
        } else {
            rest
        }
    }
}

/// Every stage names its area; the stages of the area have a stage id and a mode that read.
pub open spec fn area_stages_readable(rows: Seq<FieldsView>, area_id: i32) -> bool {
    forall|i: int| 0 <= i < rows.len() ==> (#[trigger] field_i32(rows[i], "area_id"@)) is Some
        && (field_i32(rows[i], "area_id"@) == Some(area_id) ==> field_i32(rows[i], "stage_id"@) is Some && field_i32(rows[i], "mode"@) is Some)
}

/// The stages of a main quest area, each completed with all tasks, at its difficulty.
pub fn quest_main_stage_list(stages: &Vec<MasterRow>, request: &QuestMainStageListRequest) -> (r: QuestMainStageListResponse)
    requires
        area_stages_readable(rows_view(stages@), request.area_id),
    ensures
        ({
            let s = area_stages(rows_view(stages@), request.area_id);
            &&& r.quests@.len() == s.len()
            &&& forall|k: int| 0 <= k < s.len() ==> #[trigger] r.quests@[k] == (QuestMainStageListItem {
                quest_stage_id: s[k].0,
                status: 3,
                task1: 1,
                task2: 1,
                task3: 1,
                challenge_count: 0,
                difficulty: s[k].1,
            })
        }),
{
    let ghost sv = rows_view(stages@);
    let mut quests: Vec<QuestMainStageListItem> = Vec::new();
    let mut i: usize = 0;
    while i < stages.len()
        invariant
            i <= stages@.len(),
            sv == rows_view(stages@),
            area_stages_readable(sv, request.area_id),
            quests@.len() == area_stages(sv.take(i as int), request.area_id).len(),
            forall|k: int| 0 <= k < quests@.len() ==> #[trigger] quests@[k] == (QuestMainStageListItem {
                quest_stage_id: area_stages(sv.take(i as int), request.area_id)[k].0,
                status: 3,
                task1: 1,
                task2: 1,
                task3: 1,
                challenge_count: 0,
                difficulty: area_stages(sv.take(i as int), request.area_id)[k].1,
            }),
        decreases stages@.len() - i,
    {
        assert(sv[i as int] == stages@[i as int]@);
        assert(sv.take(i + 1).drop_last() =~= sv.take(i as int));
        assert(sv.take(i + 1).last() == sv[i as int]);
        assert(field_i32(sv[i as int], "area_id"@) is Some);
        if stages[i].get_i32("area_id") == Some(request.area_id) {
            let stage_id = match stages[i].get_i32("stage_id") { Some(v) => v, None => 0 };
            let mode = match stages[i].get_i32("mode") { Some(v) => v, None => 0 };
            quests.push(QuestMainStageListItem {
                quest_stage_id: stage_id,
                status: 3,
                task1: 1,
                task2: 1,
                task3: 1,
                challenge_count: 0,
                difficulty: mode,
            });
        }
        i = i + 1;
    }
    assert(sv.take(stages@.len() as int) =~= sv);
    QuestMainStageListResponse { quests }
}

/// Skipping quests gives one reward: stage one, 500 experience, 1000 money and five thousand
/// paid gems; no level up.
pub fn battle_skip(request: &BattleSkipRequest) -> (r: BattleSkipResponse)
    ensures
        r.lvup == 0,
        r.reward@ == seq![BattleSkipReward {
            dropnum: 1,
            exp: 500,
            money: 1000,
            itemtype: item_type_code(RemoteDataItemType::RealMoney),
            itemid: 1,
            itemnum: 5000,
        }],
{
    let r = BattleSkipResponse {
        lvup: 0,
        reward: vec![BattleSkipReward {
            dropnum: 1,
            exp: 500,
            money: 1000,
            itemtype: RemoteDataItemType::RealMoney.code(),
            itemid: 1,
            itemnum: 5000,
        }],
    };
    assert(r.reward@ =~= seq![BattleSkipReward {
        dropnum: 1,
        exp: 500,
        money: 1000,
        itemtype: item_type_code(RemoteDataItemType::RealMoney),
        itemid: 1,
        itemnum: 5000,
    }]);
    r
}

} // verus!
