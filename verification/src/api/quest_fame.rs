use vstd::prelude::*;
use crate::api::battle_multi::{BattleCharacterLove, BattleClearReward, BattleMemberExp};
use crate::api::quest::quest_fame::{BattleClearReward as FameMissionReward, FameQuestLotteryPotion};
use crate::api::quest::keys_readable;
use crate::api::quest::quest_fame::{area_rank, first_with_id, ids_of, ids_where, ids_where_exec, stage_list_readable, stages_in, stages_readable_in, where_readable};
use crate::master::{field_i32, rows_view, MasterRow};

verus! {

#[derive(Debug)]
pub struct QuestFameRankListResponse {
  pub quest_rank_id_list: Vec<i32>,
  pub has_emergency_quest: bool,
}

#[derive(Debug)]
pub struct QuestFameAreaListResponse {
  pub area_info_list: Vec<FameQuestAreaInfo>,
  pub has_emergency_quest: bool,
}

#[derive(Debug)]
pub struct FameQuestAreaInfo {
  pub area_id: i32,
}

#[derive(Debug)]
pub struct FameQuestAreaListRequest {
  pub quest_rank_id: i32,
}

#[derive(Debug)]
pub struct QuestFameStageListResponse {
  pub quest_list: Vec<FameQuestStageInfo>,
  pub unlock_area_id_list: Vec<i32>,
  pub has_emergency_quest: bool,
  pub remaining_count: i32,
  pub transition_fame_quest_id: i32,
  pub can_skip: bool,
}

#[derive(Debug)]
pub struct FameQuestStageInfo {
  pub stage_id: i32,
  pub task1: i32,
  pub task2: i32,
  pub task3: i32,
  pub expired_at: i64,
  /// See [Wonder.Api.FameQuestStageInfoResponseDto$$get_IsAllClearReleaseCondition]
  pub release_condition: FameQuestReleaseConditionInfo,
  pub bonus_skill_pa_fame_rate: i32,
}

#[derive(Debug)]
pub struct FameQuestReleaseConditionInfo {
  pub key_quest: i32,
  pub story: i32,
  pub event_story: i32,
}

#[derive(Debug)]
pub struct FameQuestStageListRequest {
  pub area_id: i32,
  pub mode: i32,
}

#[derive(Debug)]
pub struct FameQuestStart {
}

/// A stage as a stage list shows it: no tasks done, no end, its conditions met.
pub open spec fn listed_stage(s: FameQuestStageInfo, id: i32) -> bool {
    &&& s.stage_id == id
    &&& s.task1 == 0 && s.task2 == 0 && s.task3 == 0
    &&& s.expired_at == 0
    &&& s.release_condition == (FameQuestReleaseConditionInfo { key_quest: 2, story: 2, event_story: 2 })
    &&& s.bonus_skill_pa_fame_rate == 0
}

/// The fame quest ranks: every rank's id, in order.
pub fn fame_quest_rank_list(ranks: &Vec<MasterRow>) -> (r: QuestFameRankListResponse)
    requires
        keys_readable(rows_view(ranks@), "id"@),
    ensures
        r.quest_rank_id_list@ == ids_of(rows_view(ranks@)),
        !r.has_emergency_quest,
{
    let ghost rv = rows_view(ranks@);
    let mut ids: Vec<i32> = Vec::new();
    let mut i: usize = 0;
    while i < ranks.len()
        invariant
            i <= ranks@.len(),
            rv == rows_view(ranks@),
            keys_readable(rv, "id"@),
            ids@ == ids_of(rv.take(i as int)),
        decreases ranks@.len() - i,
    {
        assert(rv[i as int] == ranks@[i as int]@);
        assert(field_i32(rv[i as int], "id"@) is Some);
        let id = match ranks[i].get_i32("id") {
            Some(v) => v,
            None => 0,
        };
        ids.push(id);
        assert(ids@ =~= ids_of(rv.take(i + 1)));
        i = i + 1;
    }
    assert(rv.take(ranks@.len() as int) =~= rv);
    QuestFameRankListResponse { quest_rank_id_list: ids, has_emergency_quest: false }
}

/// The areas of a fame quest rank, in order.
pub fn fame_quest_area_list(areas: &Vec<MasterRow>, request: &FameQuestAreaListRequest) -> (r: QuestFameAreaListResponse)
    requires
        where_readable(rows_view(areas@), "quest_rank_id"@, request.quest_rank_id),
    ensures
        r.area_info_list@.len() == ids_where(rows_view(areas@), "quest_rank_id"@, request.quest_rank_id).len(),
        forall|k: int| 0 <= k < r.area_info_list@.len() ==>
            (#[trigger] r.area_info_list@[k]).area_id == ids_where(rows_view(areas@), "quest_rank_id"@, request.quest_rank_id)[k],
        !r.has_emergency_quest,
{
    let ids = ids_where_exec(areas, "quest_rank_id", request.quest_rank_id);
    let mut infos: Vec<FameQuestAreaInfo> = Vec::new();
    let mut k: usize = 0;
    while k < ids.len()
        invariant
            k <= ids@.len(),
            infos@.len() == k,
            forall|j: int| 0 <= j < k ==> (#[trigger] infos@[j]).area_id == ids@[j],
        decreases ids@.len() - k,
    {
        infos.push(FameQuestAreaInfo { area_id: ids[k] });
        k = k + 1;
    }
    QuestFameAreaListResponse { area_info_list: infos, has_emergency_quest: false }
}

/// The stages of an area in a mode, and every area of the area's rank as unlocked.
pub fn fame_quest_stage_list(areas: &Vec<MasterRow>, stages: &Vec<MasterRow>, request: &FameQuestStageListRequest) -> (r: QuestFameStageListResponse)
    requires
        stage_list_readable(rows_view(areas@), rows_view(stages@), request.area_id, request.mode),
    ensures
        ({
            let ids = stages_in(rows_view(stages@), request.area_id, request.mode);
            &&& r.quest_list@.len() == ids.len()
            &&& forall|k: int| 0 <= k < ids.len() ==> listed_stage(#[trigger] r.quest_list@[k], ids[k])
        }),
        r.unlock_area_id_list@ == ids_where(rows_view(areas@), "quest_rank_id"@, area_rank(rows_view(areas@), request.area_id)),
        !r.has_emergency_quest,
        r.remaining_count == 1,
        r.transition_fame_quest_id == 0,
        !r.can_skip,
{
    let ghost av = rows_view(areas@);
    let ghost sv = rows_view(stages@);
    let at = first_with_id(areas, request.area_id);
    assert(av[at as int] == areas@[at as int]@);
    let rank = match areas[at].get_i32("quest_rank_id") {
        Some(v) => v,
        None => 0,
    };
    let mut list: Vec<FameQuestStageInfo> = Vec::new();
    let mut i: usize = 0;
    while i < stages.len()
        invariant
            i <= stages@.len(),
            sv == rows_view(stages@),
            stages_readable_in(sv, request.area_id, request.mode),
            list@.len() == stages_in(sv.take(i as int), request.area_id, request.mode).len(),
            forall|k: int| 0 <= k < list@.len() ==>
                listed_stage(#[trigger] list@[k], stages_in(sv.take(i as int), request.area_id, request.mode)[k]),
        decreases stages@.len() - i,
    {
        assert(sv[i as int] == stages@[i as int]@);
        assert(sv.take(i + 1).drop_last() =~= sv.take(i as int));
        assert(sv.take(i + 1).last() == sv[i as int]);
        assert(field_i32(sv[i as int], "area_id"@) is Some);
        if stages[i].get_i32("area_id") == Some(request.area_id) && stages[i].get_i32("mode") == Some(request.mode) {
            let id = match stages[i].get_i32("id") {
                Some(v) => v,
                None => 0,
            };
            list.push(FameQuestStageInfo {
                stage_id: id,
                task1: 0,
                task2: 0,
                task3: 0,
                expired_at: 0,
                release_condition: FameQuestReleaseConditionInfo { key_quest: 2, story: 2, event_story: 2 },
                bonus_skill_pa_fame_rate: 0,
            });
        }
        i = i + 1;
    }
    assert(sv.take(stages@.len() as int) =~= sv);
    let unlocked = ids_where_exec(areas, "quest_rank_id", rank);
    QuestFameStageListResponse {
        quest_list: list,
        unlock_area_id_list: unlocked,
        has_emergency_quest: false,
        remaining_count: 1,
        transition_fame_quest_id: 0,
        can_skip: false,
    }
}

/// The result of a fame quest as this server answers every one of them.
#[derive(Debug)]
pub struct FameQuestResult {
  pub fame_rank_up: i32,
  pub money: i32,
  pub exp: i32,
  pub lvlup: i32,
  pub love: Vec<BattleCharacterLove>,
  pub member_exp: Vec<BattleMemberExp>,
  pub mission_reward: Vec<FameMissionReward>,
  pub clear_reward: Vec<BattleClearReward>,
  pub lottery_potion_list: Vec<FameQuestLotteryPotion>,
}

/// What a fame quest result reads from the request.
#[derive(Debug)]
pub struct FameQuestResultRequest {
  pub party_no: i32,
  pub win: i32,
  pub clear_mission_list: Vec<i32>,
  pub stage_id: i32,
}

pub open spec fn fixed_love() -> Seq<BattleCharacterLove> {
    seq![
        BattleCharacterLove { character_id: 100, love: 4 },
        BattleCharacterLove { character_id: 101, love: 4 },
        BattleCharacterLove { character_id: 106, love: 4 },
    ]
}

pub open spec fn fixed_member_exp() -> Seq<BattleMemberExp> {
    seq![
        BattleMemberExp { member_id: 1001100, exp: 150 },
        BattleMemberExp { member_id: 1011100, exp: 150 },
        BattleMemberExp { member_id: 1064217, exp: 150 },
    ]
}

pub open spec fn fixed_mission_reward() -> Seq<FameMissionReward> {
    seq![
        FameMissionReward { itemtype: 15, itemid: 5001, itemnum: 4, mission: 0, is_rare: false },
        FameMissionReward { itemtype: 18, itemid: 1, itemnum: 1, mission: 0, is_rare: false },
        FameMissionReward { itemtype: 16, itemid: 151, itemnum: 1, mission: 0, is_rare: false },
        FameMissionReward { itemtype: 18, itemid: 2, itemnum: 2, mission: 0, is_rare: false },
        FameMissionReward { itemtype: 27, itemid: 230831, itemnum: 3, mission: 0, is_rare: false },
    ]
}

pub open spec fn fixed_clear_reward() -> Seq<BattleClearReward> {
    seq![
        BattleClearReward { itemtype: 15, itemid: 1100, itemnum: 3, mission: 1 },
        BattleClearReward { itemtype: 4, itemid: 1061100, itemnum: 1, mission: 1 },
        BattleClearReward { itemtype: 3, itemid: 1, itemnum: 50, mission: 3 },
    ]
}

/// The result of a fame quest: no rank up, money, experience or level; affection for three
/// characters, experience for three members, five mission rewards and three clear rewards.
pub fn fame_quest_result(request: &FameQuestResultRequest) -> (r: FameQuestResult)
    ensures
        r.fame_rank_up == 0 && r.money == 0 && r.exp == 0 && r.lvlup == 0,
        r.love@ == fixed_love(),
        r.member_exp@ == fixed_member_exp(),
        r.mission_reward@ == fixed_mission_reward(),
        r.clear_reward@ == fixed_clear_reward(),
        r.lottery_potion_list@.len() == 0,
{
    let r = FameQuestResult {
        fame_rank_up: 0,
        money: 0,
        exp: 0,
        lvlup: 0,
        love: vec![
            BattleCharacterLove { character_id: 100, love: 4 },
            BattleCharacterLove { character_id: 101, love: 4 },
            BattleCharacterLove { character_id: 106, love: 4 },
        ],
        member_exp: vec![
            BattleMemberExp { member_id: 1001100, exp: 150 },
            BattleMemberExp { member_id: 1011100, exp: 150 },
            BattleMemberExp { member_id: 1064217, exp: 150 },
        ],
        mission_reward: vec![
            FameMissionReward { itemtype: 15, itemid: 5001, itemnum: 4, mission: 0, is_rare: false },
            FameMissionReward { itemtype: 18, itemid: 1, itemnum: 1, mission: 0, is_rare: false },
            FameMissionReward { itemtype: 16, itemid: 151, itemnum: 1, mission: 0, is_rare: false },
            FameMissionReward { itemtype: 18, itemid: 2, itemnum: 2, mission: 0, is_rare: false },
            FameMissionReward { itemtype: 27, itemid: 230831, itemnum: 3, mission: 0, is_rare: false },
        ],
        clear_reward: vec![
            BattleClearReward { itemtype: 15, itemid: 1100, itemnum: 3, mission: 1 },
            BattleClearReward { itemtype: 4, itemid: 1061100, itemnum: 1, mission: 1 },
            BattleClearReward { itemtype: 3, itemid: 1, itemnum: 50, mission: 3 },
        ],
        lottery_potion_list: Vec::new(),
    };
    assert(r.love@ =~= fixed_love());
    assert(r.member_exp@ =~= fixed_member_exp());
    assert(r.mission_reward@ =~= fixed_mission_reward());
    assert(r.clear_reward@ =~= fixed_clear_reward());
    r
}

} // verus!
