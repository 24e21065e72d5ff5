use vstd::prelude::*;
use crate::api::battle_multi::BattleCharacterLove;
use crate::api::battle_multi::BattleMemberExp;
use crate::api::quest::quest_hunting::BattleReward;
use crate::api::SkillPaFameAddStatus;
use crate::api::quest::{keys_readable, last_with, has_row_with, find_last_with, parse_reward_items, quest_items_view, QuestRewardItem};
use crate::master::{field_i32, reward_counts_readable, row_items, rows_view, FieldsView, MasterRow};

verus! {

#[derive(Debug)]
pub struct QuestFameRankListResponse {
  pub quest_rank_id_list: Vec<i32>,
  pub has_emergency_quest: bool,
}

#[derive(Debug)]
pub struct QuestFameAreaListResponse {
  pub area_info_list: Vec<FameQuestAreaInfo>,
  pub has_emergency_quest: bool,
}

#[derive(Debug)]
pub struct FameQuestAreaInfo {
  pub area_id: i32,
}

#[derive(Debug)]
pub struct FameQuestAreaListRequest {
  pub quest_rank_id: i32,
}

#[derive(Debug)]
pub struct QuestFameStageListResponse {
  pub quest_list: Vec<FameQuestStageInfo>,
  pub unlock_area_id_list: Vec<i32>,
  pub has_emergency_quest: bool,
  pub remaining_count: i32,
  pub transition_fame_quest_id: i32,
  pub can_skip: bool,
}

#[derive(Debug)]
pub struct FameQuestStageInfo {
  pub stage_id: i32,
  pub task1: i32,
  pub task2: i32,
  pub task3: i32,
  pub expired_at: i64,
  /// See [Wonder.Api.FameQuestStageInfoResponseDto$$get_IsAllClearReleaseCondition]
  pub release_condition: FameQuestReleaseConditionInfo,
  pub bonus_skill_pa_fame_rate: i32,
}

#[derive(Debug)]
pub struct FameQuestReleaseConditionInfo {
  pub key_quest: i32,
  pub story: i32,
  pub event_story: i32,
}

#[derive(Debug)]
pub struct FameQuestStageListRequest {
  pub area_id: i32,
  pub mode: i32,
}

#[derive(Debug)]
pub struct FameQuestStart {
}

#[derive(Debug)]
pub struct FameQuestResultResponse {
  pub fame_rank_up: i32,
  pub money: i32,
  pub exp: i32,
  pub lvup: i32,
  pub love: Vec<BattleCharacterLove>,
  pub member_exp: Vec<BattleMemberExp>,
  pub mission_reward: Vec<BattleClearReward>,
  pub clear_reward: Vec<BattleReward>,
  pub lottery_potion_list: Vec<FameQuestLotteryPotion>,
}

#[derive(Debug)]
pub struct BattleClearReward {
  pub itemtype: i32,
  pub itemid: i64,
  pub itemnum: i32,
  pub mission: i32,
  pub is_rare: bool,
}

#[derive(Debug)]
pub struct FameQuestLotteryPotion {
  pub potion_id: i32,
  pub user_member_id: i64,
  pub potion_choice_list: Vec<FameQuestLotteryPotionChoice>,
}

#[derive(Debug)]
pub struct FameQuestLotteryPotionChoice {
  pub potion_choice_id: i32,
  pub potion_type: i32,
  pub skill_pa_fame_id: i64,
  pub skill_pa_fame_status: Vec<SkillPaFameAddStatus>,
}

#[derive(Debug)]
pub struct FameQuestResultRequest {
  pub party_id: i32,
  pub stage_id: i32,
  pub win: i32,
  pub clear_mission_list: Vec<i32>,
}

// ------------------------------------------------------------------------------------------
// Ranks, areas and stages of fame quests, as the master lists them
// ------------------------------------------------------------------------------------------

/// The ids of the rows, in order.
pub open spec fn ids_of(rows: Seq<FieldsView>) -> Seq<i32> {
    Seq::new(rows.len(), |i: int| field_i32(rows[i], "id"@).unwrap())
}

/// The ids, in order, of the rows whose field `key` reads as `value`.
pub open spec fn ids_where(rows: Seq<FieldsView>, key: Seq<char>, value: i32) -> Seq<i32>
    decreases rows.len(),
{
    if rows.len() == 0 {
        Seq::empty()
    } else {
        let rest = ids_where(rows.drop_last(), key, value);
        if field_i32(rows.last(), key) == Some(value) {
            rest.push(field_i32(rows.last(), "id"@).unwrap())
        } else {
            rest
        }
    }
}

/// Every row's field `key` reads, and the rows where it reads as `value` have an id.
pub open spec fn where_readable(rows: Seq<FieldsView>, key: Seq<char>, value: i32) -> bool {
    forall|i: int| 0 <= i < rows.len() ==> (#[trigger] field_i32(rows[i], key)) is Some
        && (field_i32(rows[i], key) == Some(value) ==> field_i32(rows[i], "id"@) is Some)
}

/// The ids, in order, of the rows whose field `key` reads as `value`.
pub fn ids_where_exec(rows: &Vec<MasterRow>, key: &str, value: i32) -> (r: Vec<i32>)
    requires
        where_readable(rows_view(rows@), key@, value),
    ensures
        r@ == ids_where(rows_view(rows@), key@, value),
{
    let ghost rv = rows_view(rows@);
    let mut out: Vec<i32> = Vec::new();
    let mut i: usize = 0;
    while i < rows.len()
        invariant
            i <= rows@.len(),
            rv == rows_view(rows@),
            where_readable(rv, key@, value),
            out@ == ids_where(rv.take(i as int), key@, value),
        decreases rows@.len() - i,
    {
        assert(rv[i as int] == rows@[i as int]@);
        assert(rv.take(i + 1).drop_last() =~= rv.take(i as int));
        assert(rv.take(i + 1).last() == rv[i as int]);
        assert(field_i32(rv[i as int], key@) is Some);
        if rows[i].get_i32(key) == Some(value) {
            let id = match rows[i].get_i32("id") {
                Some(v) => v,
                None => 0,
            };
            out.push(id);
        }
        i = i + 1;
    }
    assert(rv.take(rows@.len() as int) =~= rv);
    out
}

/// The fame quest ranks: every rank's id, in order.
pub fn fame_quest_rank_list(ranks: &Vec<MasterRow>) -> (r: QuestFameRankListResponse)
    requires
        keys_readable(rows_view(ranks@), "id"@),
    ensures
        r.quest_rank_id_list@ == ids_of(rows_view(ranks@)),
        !r.has_emergency_quest,
{
    let ghost rv = rows_view(ranks@);
    let mut ids: Vec<i32> = Vec::new();
    let mut i: usize = 0;
    while i < ranks.len()
        invariant
            i <= ranks@.len(),
            rv == rows_view(ranks@),
            keys_readable(rv, "id"@),
            ids@ == ids_of(rv.take(i as int)),
        decreases ranks@.len() - i,
    {
        assert(rv[i as int] == ranks@[i as int]@);
        assert(field_i32(rv[i as int], "id"@) is Some);
        let id = match ranks[i].get_i32("id") {
            Some(v) => v,
            None => 0,
        };
        ids.push(id);
        assert(ids@ =~= ids_of(rv.take(i + 1)));
        i = i + 1;
    }
    assert(rv.take(ranks@.len() as int) =~= rv);
    QuestFameRankListResponse { quest_rank_id_list: ids, has_emergency_quest: false }
}

/// The areas of a fame quest rank, in order.
pub fn fame_quest_area_list(areas: &Vec<MasterRow>, request: &FameQuestAreaListRequest) -> (r: QuestFameAreaListResponse)
    requires
        where_readable(rows_view(areas@), "quest_rank_id"@, request.quest_rank_id),
    ensures
        r.area_info_list@.len() == ids_where(rows_view(areas@), "quest_rank_id"@, request.quest_rank_id).len(),
        forall|k: int| 0 <= k < r.area_info_list@.len() ==>
            (#[trigger] r.area_info_list@[k]).area_id == ids_where(rows_view(areas@), "quest_rank_id"@, request.quest_rank_id)[k],
        !r.has_emergency_quest,
{
    let ids = ids_where_exec(areas, "quest_rank_id", request.quest_rank_id);
    let mut infos: Vec<FameQuestAreaInfo> = Vec::new();
    let mut k: usize = 0;
    while k < ids.len()
        invariant
            k <= ids@.len(),
            infos@.len() == k,
            forall|j: int| 0 <= j < k ==> (#[trigger] infos@[j]).area_id == ids@[j],
        decreases ids@.len() - k,
    {
        infos.push(FameQuestAreaInfo { area_id: ids[k] });
        k = k + 1;
    }
    QuestFameAreaListResponse { area_info_list: infos, has_emergency_quest: false }
}

/// Row `i` is the first whose id reads as `id`, and every row before it has an id that reads.
pub open spec fn is_first_with_id(rows: Seq<FieldsView>, id: i32, i: int) -> bool {
    &&& 0 <= i < rows.len()
    &&& field_i32(rows[i], "id"@) == Some(id)
    &&& forall|j: int| 0 <= j < i ==> (#[trigger] field_i32(rows[j], "id"@)) is Some && field_i32(rows[j], "id"@) != Some(id)
}

/// The ids, in order, of the stages of an area in a mode.
pub open spec fn stages_in(stages: Seq<FieldsView>, area_id: i32, mode: i32) -> Seq<i32>
    decreases stages.len(),
{
    if stages.len() == 0 {
        Seq::empty()
    } else {
        let rest = stages_in(stages.drop_last(), area_id, mode);
        let st = stages.last();
        if field_i32(st, "area_id"@) == Some(area_id) && field_i32(st, "mode"@) == Some(mode) {
            rest.push(field_i32(st, "id"@).unwrap())
        } else {
            rest
        }
    }
}

/// Every stage's area reads; the stages of the area have a mode that reads; those of the
/// mode too have an id.
pub open spec fn stages_readable_in(stages: Seq<FieldsView>, area_id: i32, mode: i32) -> bool {
    forall|i: int| 0 <= i < stages.len() ==> {
        &&& (#[trigger] field_i32(stages[i], "area_id"@)) is Some
        &&& field_i32(stages[i], "area_id"@) == Some(area_id) ==> field_i32(stages[i], "mode"@) is Some
        &&& field_i32(stages[i], "area_id"@) == Some(area_id) && field_i32(stages[i], "mode"@) == Some(mode)
            ==> field_i32(stages[i], "id"@) is Some
    }
}

/// The rank of the area with the id: that of the first area with it.
pub open spec fn area_rank(areas: Seq<FieldsView>, area_id: i32) -> i32 {
    field_i32(areas[choose|i: int| is_first_with_id(areas, area_id, i)], "quest_rank_id"@).unwrap()
}

/// What a stage list can read: the area is there, its rank reads, the areas of that rank
/// have ids, and the stages read as `stages_readable_in` says.
pub open spec fn stage_list_readable(areas: Seq<FieldsView>, stages: Seq<FieldsView>, area_id: i32, mode: i32) -> bool {
    &&& exists|i: int| is_first_with_id(areas, area_id, i)
    &&& field_i32(areas[choose|i: int| is_first_with_id(areas, area_id, i)], "quest_rank_id"@) is Some
    &&& stages_readable_in(stages, area_id, mode)
    &&& where_readable(areas, "quest_rank_id"@, area_rank(areas, area_id))
}

/// A stage as a stage list shows it: no tasks done, no end, its conditions met.
pub open spec fn listed_stage(s: FameQuestStageInfo, id: i32) -> bool {
    &&& s.stage_id == id
    &&& s.task1 == 0 && s.task2 == 0 && s.task3 == 0
    &&& s.expired_at == 0
    &&& s.release_condition == (FameQuestReleaseConditionInfo { key_quest: 2, story: 2, event_story: 2 })
    &&& s.bonus_skill_pa_fame_rate == 0
}

/// The first row with the id.
pub fn first_with_id(rows: &Vec<MasterRow>, id: i32) -> (r: usize)
    requires
        exists|i: int| is_first_with_id(rows_view(rows@), id, i),
    ensures
        is_first_with_id(rows_view(rows@), id, r as int),
        r as int == (choose|i: int| is_first_with_id(rows_view(rows@), id, i)),
{
    let ghost rv = rows_view(rows@);
    let ghost w = choose|i: int| is_first_with_id(rv, id, i);
    let mut i: usize = 0;
    while i < rows.len()
        invariant
            i <= rows@.len(),
            rv == rows_view(rows@),
            is_first_with_id(rv, id, w),
            i <= w,
            forall|j: int| 0 <= j < i ==> (#[trigger] field_i32(rv[j], "id"@)) is Some && field_i32(rv[j], "id"@) != Some(id),
        decreases rows@.len() - i,
    {
        assert(rv[i as int] == rows@[i as int]@);
        if rows[i].get_i32("id") == Some(id) {
            assert(i == w);
            return i;
        }
        assert(i as int != w);
        i = i + 1;
    }
    assert(false);
    0
}

/// The stages of an area in a mode, and every area of the area's rank as unlocked.
pub fn fame_quest_stage_list(areas: &Vec<MasterRow>, stages: &Vec<MasterRow>, request: &FameQuestStageListRequest) -> (r: QuestFameStageListResponse)
    requires
        stage_list_readable(rows_view(areas@), rows_view(stages@), request.area_id, request.mode),
    ensures
        ({
            let ids = stages_in(rows_view(stages@), request.area_id, request.mode);
            &&& r.quest_list@.len() == ids.len()
            &&& forall|k: int| 0 <= k < ids.len() ==> listed_stage(#[trigger] r.quest_list@[k], ids[k])
        }),
        r.unlock_area_id_list@ == ids_where(rows_view(areas@), "quest_rank_id"@, area_rank(rows_view(areas@), request.area_id)),
        !r.has_emergency_quest,
        r.remaining_count == 1,
        r.transition_fame_quest_id == 0,
        !r.can_skip,
{
    let ghost av = rows_view(areas@);
    let ghost sv = rows_view(stages@);
    let at = first_with_id(areas, request.area_id);
    assert(av[at as int] == areas@[at as int]@);
    let rank = match areas[at].get_i32("quest_rank_id") {
        Some(v) => v,
        None => 0,
    };
    let mut list: Vec<FameQuestStageInfo> = Vec::new();
    let mut i: usize = 0;
    while i < stages.len()
        invariant
            i <= stages@.len(),
            sv == rows_view(stages@),
            stages_readable_in(sv, request.area_id, request.mode),
            list@.len() == stages_in(sv.take(i as int), request.area_id, request.mode).len(),
            forall|k: int| 0 <= k < list@.len() ==>
                listed_stage(#[trigger] list@[k], stages_in(sv.take(i as int), request.area_id, request.mode)[k]),
        decreases stages@.len() - i,
    {
        assert(sv[i as int] == stages@[i as int]@);
        assert(sv.take(i + 1).drop_last() =~= sv.take(i as int));
        assert(sv.take(i + 1).last() == sv[i as int]);
        assert(field_i32(sv[i as int], "area_id"@) is Some);
        if stages[i].get_i32("area_id") == Some(request.area_id) && stages[i].get_i32("mode") == Some(request.mode) {
            let id = match stages[i].get_i32("id") {
                Some(v) => v,
                None => 0,
            };
            list.push(FameQuestStageInfo {
                stage_id: id,
                task1: 0,
                task2: 0,
                task3: 0,
                expired_at: 0,
                release_condition: FameQuestReleaseConditionInfo { key_quest: 2, story: 2, event_story: 2 },
                bonus_skill_pa_fame_rate: 0,
            });
        }
        i = i + 1;
    }
    assert(sv.take(stages@.len() as int) =~= sv);
    let unlocked = ids_where_exec(areas, "quest_rank_id", rank);
    QuestFameStageListResponse {
        quest_list: list,
        unlock_area_id_list: unlocked,
        has_emergency_quest: false,
        remaining_count: 1,
        transition_fame_quest_id: 0,
        can_skip: false,
    }
}

/// The items a fame quest stage gives: those of the last reward row for the stage.
pub fn fame_quest_rewards(rewards: &Vec<MasterRow>, stage_id: i32) -> (r: Vec<QuestRewardItem>)
    requires
        keys_readable(rows_view(rewards@), "fame_quest_id"@),
        has_row_with(rows_view(rewards@), "fame_quest_id"@, stage_id),
        reward_counts_readable(rows_view(rewards@)[last_with(rows_view(rewards@), "fame_quest_id"@, stage_id)]),
    ensures
        quest_items_view(r@) == row_items(rows_view(rewards@)[last_with(rows_view(rewards@), "fame_quest_id"@, stage_id)], Some(1i32)),
{
    let at = find_last_with(rewards, "fame_quest_id", stage_id);
    match at {
        Some(j) => {
            assert(rows_view(rewards@)[j as int] == rewards@[j as int]@);
            parse_reward_items(&rewards[j])
        },
        None => Vec::new(),
    }
}

/// A reward as a battle result lists it.
pub open spec fn reward_listed(b: BattleReward, it: QuestRewardItem) -> bool {
    b.itemtype == it.item_type && b.itemid == it.item_id && b.itemnum == it.item_num && b.is_rare == it.item_rare
}

/// The result of a fame quest: a rank up, fixed experience and money, the members' experience
/// and the characters' affection as given, and the stage's items as the clear reward.
pub fn fame_quest_result_response(rewards: &Vec<QuestRewardItem>, member_exp: Vec<BattleMemberExp>, love: Vec<BattleCharacterLove>) -> (r: FameQuestResultResponse)
    ensures
        r.fame_rank_up == 1,
        r.exp == 230,
        r.lvup == 0,
        r.money == 42000,
        r.love@ == love@,
        r.member_exp@ == member_exp@,
        r.clear_reward@.len() == rewards@.len(),
        forall|k: int| 0 <= k < rewards@.len() ==> reward_listed(#[trigger] r.clear_reward@[k], rewards@[k]),
        r.mission_reward@.len() == 0,
        r.lottery_potion_list@.len() == 0,
{
    let mut clear: Vec<BattleReward> = Vec::new();
    let mut k: usize = 0;
    while k < rewards.len()
        invariant
            k <= rewards@.len(),
            clear@.len() == k,
            forall|j: int| 0 <= j < k ==> reward_listed(#[trigger] clear@[j], rewards@[j]),
        decreases rewards@.len() - k,
    {
        let it = &rewards[k];
        clear.push(BattleReward { itemtype: it.item_type, itemid: it.item_id, itemnum: it.item_num, is_rare: it.item_rare });
        k = k + 1;
    }
    FameQuestResultResponse {
        fame_rank_up: 1,
        exp: 230,
        lvup: 0,
        money: 42000,
        love,
        member_exp,
        clear_reward: clear,
        mission_reward: Vec::new(),
        lottery_potion_list: Vec::new(),
    }
}

} // verus!
