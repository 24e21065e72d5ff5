use vstd::prelude::*;
use crate::api::battle_multi::BattleCharacterLove;
use crate::api::battle_multi::BattleClearReward;
use crate::api::battle_multi::BattleMemberExp;
use crate::api::smith_upgrade::DungeonAreaMaterialInfoResponseDto;
use crate::api::smith_upgrade::FameQuestMaterialInfoResponseDto;
use crate::api::quest::{offering_stages, stages_offering, stages_readable};
use crate::master::{column_i32, field_i32, read_column_i32, read_values_where, read_values_where_text, rows_view, text_values_readable, values_readable, values_where, values_where_text, MasterRow};

verus! {

#[derive(Debug)]
pub struct QuestHuntingListResponse {
  pub limitquests: Vec<HuntingLimitQuest>,
  pub freequests: Vec<HuntingFreeQuest>,
  /// Whether "purchase more attempts" button is enabled
  pub enablepackage: bool,
}

#[derive(Debug)]
pub struct HuntingLimitQuest {
  pub area_id: i32,
  pub status: i32,
  /// Attempts left. "Challenges {master.limit_count - limit} / {master.limit_count}"
  pub limit: i32,
}

#[derive(Debug)]
pub struct HuntingFreeQuest {
  pub area_id: i32,
  pub status: i32,
}

#[derive(Debug)]
pub struct QuestHuntingStageListResponse {
  pub quests: Vec<HuntingStageQuest>,
}

#[derive(Debug)]
pub struct HuntingStageQuest {
  pub stage_id: i32,
  /// 0 - unlocked (new), 1 - unlocked, 2 - completed, 3 - 100% completed
  pub status: i32,
  /// Unknown
  pub newstage: i32,
  pub task1: i32,
  pub task2: i32,
  pub task3: i32,
}

#[derive(Debug)]
pub struct QuestHuntingStageListRequest {
  pub area_id: i32,
}

#[derive(Debug)]
pub struct QuestHuntingLimitStageListResponse {
  pub quests: Vec<HuntingLimitStageQuest>,
  pub bonuspack: i32,
}

#[derive(Debug)]
pub struct HuntingLimitStageQuest {
  pub stage_id: i32,
  pub challenge_count: i32,
}

#[derive(Debug)]
pub struct BattleHuntingStartRequest {
  pub quest_id: i32,
  pub party_id: i32,
}

#[derive(Debug)]
pub struct BattleHuntingResultResponse {
  pub limit: i32,
  pub exp: i32,
  pub lvup: i32,
  pub money: i32,
  pub storyunlock: Vec<i32>,
  /// Must contain all characters used in the battle
  pub love: Vec<BattleCharacterLove>,
  /// Must contain all members used in the battle
  pub member_exp: Vec<BattleMemberExp>,
  pub mission: Vec<i32>,
  pub reward: Vec<BattleReward>,
  pub clearreward: Vec<BattleClearReward>,
}

#[derive(Debug)]
pub struct BattleReward {
  pub itemtype: i32,
  pub itemid: i64,
  pub itemnum: i32,
  pub is_rare: bool,
}

#[derive(Debug)]
pub struct BattleHuntingResultRequest {
  pub party_id: i32,
  pub win: i32,
  pub quest_id: i32,
  pub memcheckcount: i32,
  pub clearquestmission: Vec<i32>,
  pub wave: i32,
}

#[derive(Debug)]
pub struct HuntingQuestListByItemResponse {
  pub huntingquests: Vec<HuntingQuest>,
  pub eventboxgachas: Vec<i32>,
  pub exchanges: Vec<i32>,
  pub expedition: i32,
  pub scorechallenge: i32,
  pub scorechallenge_ex: i32,
  pub dungeon: DungeonAreaMaterialInfoResponseDto,
  pub fame_quest: Vec<FameQuestMaterialInfoResponseDto>,
}

#[derive(Debug)]
pub struct HuntingQuest {
  pub quest_id: i32,
  pub task1: i32,
  pub task2: i32,
  pub task3: i32,
  pub limit: i32,
  pub status: i32,
}

#[derive(Debug)]
pub struct HuntingQuestListByItemRequest {
  pub item_type: i32,
  pub item_id: i64,
}

/// A hunting quest as the item lists show it: tasks one and two done, forty-two tries left,
/// cleared.
pub open spec fn listed_hunting_quest(q: HuntingQuest, id: i32) -> bool {
    q.quest_id == id && q.task1 == 1 && q.task2 == 1 && q.task3 == 0 && q.limit == 42 && q.status == 2
}

/// The hunting quests with the given ids, in order.
pub fn listed_hunting_quests(ids: &Vec<i32>) -> (r: Vec<HuntingQuest>)
    ensures
        r@.len() == ids@.len(),
        forall|k: int| 0 <= k < ids@.len() ==> listed_hunting_quest(#[trigger] r@[k], ids@[k]),
{
    let mut r: Vec<HuntingQuest> = Vec::new();
    let mut k: usize = 0;
    while k < ids.len()
        invariant
            k <= ids@.len(),
            r@.len() == k,
            forall|j: int| 0 <= j < k ==> listed_hunting_quest(#[trigger] r@[j], ids@[j]),
        decreases ids@.len() - k,
    {
        r.push(HuntingQuest { quest_id: ids[k], task1: 1, task2: 1, task3: 0, limit: 42, status: 2 });
        k = k + 1;
    }
    r
}

/// No dungeon area yields the material.
pub fn no_dungeon_materials() -> (r: DungeonAreaMaterialInfoResponseDto)
    ensures
        r.area_ids@.len() == 0,
        r.unlocked_area_ids@.len() == 0,
        r.challenging_area_id == 0,
{
    DungeonAreaMaterialInfoResponseDto { area_ids: Vec::new(), unlocked_area_ids: Vec::new(), challenging_area_id: 0 }
}

/// Where an item can be had: the hunting quests whose reward row lists an item of the type
/// and id (a missing count counting as one), one box gacha and one exchange.
pub fn hunting_quest_list_by_item(stages: &Vec<MasterRow>, rewards: &Vec<MasterRow>, request: &HuntingQuestListByItemRequest) -> (r: HuntingQuestListByItemResponse)
    requires
        stages_readable(rows_view(stages@), rows_view(rewards@), Some(1i32)),
    ensures
        ({
            let ids = offering_stages(rows_view(stages@), rows_view(rewards@), Some(request.item_type), request.item_id, Some(1i32));
            &&& r.huntingquests@.len() == ids.len()
            &&& forall|k: int| 0 <= k < ids.len() ==> listed_hunting_quest(#[trigger] r.huntingquests@[k], ids[k])
        }),
        r.eventboxgachas@ == seq![20043i32],
        r.exchanges@ == seq![100i32],
        r.expedition == 0,
        r.scorechallenge == 0,
        r.scorechallenge_ex == 0,
        r.dungeon.area_ids@.len() == 0,
        r.dungeon.unlocked_area_ids@.len() == 0,
        r.dungeon.challenging_area_id == 0,
        r.fame_quest@.len() == 0,
{
    let ids = stages_offering(stages, rewards, Some(request.item_type), request.item_id, Some(1));
    let r = HuntingQuestListByItemResponse {
        huntingquests: listed_hunting_quests(&ids),
        eventboxgachas: vec![20043],
        exchanges: vec![100],
        expedition: 0,
        scorechallenge: 0,
        scorechallenge_ex: 0,
        dungeon: no_dungeon_materials(),
        fame_quest: Vec::new(),
    };
    assert(r.eventboxgachas@ =~= seq![20043i32]);
    assert(r.exchanges@ =~= seq![100i32]);
    r
}

/// The hunting areas: the limited ones with one try left, the free ones, both not yet
/// entered; more tries can be bought.
pub fn quest_hunting_list(areas: &Vec<MasterRow>) -> (r: QuestHuntingListResponse)
    requires
        text_values_readable(rows_view(areas@), "type"@, "LIMITED"@, "area_id"@),
        text_values_readable(rows_view(areas@), "type"@, "FREE"@, "area_id"@),
    ensures
        ({
            let ids = values_where_text(rows_view(areas@), "type"@, "LIMITED"@, "area_id"@);
            &&& r.limitquests@.len() == ids.len()
            &&& forall|k: int| 0 <= k < ids.len() ==> #[trigger] r.limitquests@[k] == (HuntingLimitQuest { area_id: ids[k], status: 0, limit: 1 })
        }),
        ({
            let ids = values_where_text(rows_view(areas@), "type"@, "FREE"@, "area_id"@);
            &&& r.freequests@.len() == ids.len()
            &&& forall|k: int| 0 <= k < ids.len() ==> #[trigger] r.freequests@[k] == (HuntingFreeQuest { area_id: ids[k], status: 0 })
        }),
        r.enablepackage,
{
    let limited = read_values_where_text(areas, "type", "LIMITED", "area_id");
    let free = read_values_where_text(areas, "type", "FREE", "area_id");
    let mut limitquests: Vec<HuntingLimitQuest> = Vec::new();
    let mut k: usize = 0;
    while k < limited.len()
        invariant
            k <= limited@.len(),
            limitquests@.len() == k,
            forall|j: int| 0 <= j < k ==> #[trigger] limitquests@[j] == (HuntingLimitQuest { area_id: limited@[j], status: 0, limit: 1 }),
        decreases limited@.len() - k,
    {
        limitquests.push(HuntingLimitQuest { area_id: limited[k], status: 0, limit: 1 });
        k = k + 1;
    }
    let mut freequests: Vec<HuntingFreeQuest> = Vec::new();
    let mut k: usize = 0;
    while k < free.len()
        invariant
            k <= free@.len(),
            freequests@.len() == k,
            forall|j: int| 0 <= j < k ==> #[trigger] freequests@[j] == (HuntingFreeQuest { area_id: free@[j], status: 0 }),
        decreases free@.len() - k,
    {
        freequests.push(HuntingFreeQuest { area_id: free[k], status: 0 });
        k = k + 1;
    }
    QuestHuntingListResponse { limitquests, freequests, enablepackage: true }
}

/// The stages of a hunting area, each cleared with tasks one and two done.
pub fn quest_hunting_stage_list(stages: &Vec<MasterRow>, request: &QuestHuntingStageListRequest) -> (r: QuestHuntingStageListResponse)
    requires
        values_readable(rows_view(stages@), "area_id"@, request.area_id, "id"@),
    ensures
        ({
            let ids = values_where(rows_view(stages@), "area_id"@, request.area_id, "id"@);
            &&& r.quests@.len() == ids.len()
            &&& forall|k: int| 0 <= k < ids.len() ==> #[trigger] r.quests@[k]
                == (HuntingStageQuest { stage_id: ids[k], status: 2, newstage: 0, task1: 1, task2: 1, task3: 0 })
        }),
{
    let ids = read_values_where(stages, "area_id", request.area_id, "id");
    let mut quests: Vec<HuntingStageQuest> = Vec::new();
    let mut k: usize = 0;
    while k < ids.len()
        invariant
            k <= ids@.len(),
            quests@.len() == k,
            forall|j: int| 0 <= j < k ==> #[trigger] quests@[j]
                == (HuntingStageQuest { stage_id: ids@[j], status: 2, newstage: 0, task1: 1, task2: 1, task3: 0 }),
        decreases ids@.len() - k,
    {
        quests.push(HuntingStageQuest { stage_id: ids[k], status: 2, newstage: 0, task1: 1, task2: 1, task3: 0 });
        k = k + 1;
    }
    QuestHuntingStageListResponse { quests }
}

/// The limited hunting stages: every stage of the master, forty-two tries each; no bonus pack.
pub fn quest_hunting_limit_stage_list(stages: &Vec<MasterRow>) -> (r: QuestHuntingLimitStageListResponse)
    requires
        forall|i: int| 0 <= i < stages@.len() ==> (#[trigger] field_i32(rows_view(stages@)[i], "stage_id"@)) is Some,
    ensures
        r.quests@.len() == stages@.len(),
        forall|k: int| 0 <= k < stages@.len() ==> #[trigger] r.quests@[k]
            == (HuntingLimitStageQuest { stage_id: column_i32(rows_view(stages@), "stage_id"@)[k], challenge_count: 42 }),
        r.bonuspack == 0,
{
    let ids = read_column_i32(stages, "stage_id");
    let mut quests: Vec<HuntingLimitStageQuest> = Vec::new();
    let mut k: usize = 0;
    while k < ids.len()
        invariant
            k <= ids@.len(),
            quests@.len() == k,
            forall|j: int| 0 <= j < k ==> #[trigger] quests@[j] == (HuntingLimitStageQuest { stage_id: ids@[j], challenge_count: 42 }),
        decreases ids@.len() - k,
    {
        quests.push(HuntingLimitStageQuest { stage_id: ids[k], challenge_count: 42 });
        k = k + 1;
    }
    QuestHuntingLimitStageListResponse { quests, bonuspack: 0 }
}

} // verus!
