use vstd::prelude::*;
use crate::api::battle_multi::BattleCharacterLove;
use crate::api::battle_multi::BattleClearReward;
use crate::api::battle_multi::BattleMemberExp;
use crate::api::smith_upgrade::DungeonAreaMaterialInfoResponseDto;
use crate::api::smith_upgrade::FameQuestMaterialInfoResponseDto;
use crate::api::party_info::PartyForm;
use crate::call::{CallCustom, CallResponse};
use crate::api::RemoteData;
use crate::api::quest::quest_hunting::no_dungeon_materials;
use crate::api::quest::{offering_stages, stages_offering, stages_readable};
use crate::master::{column_i32, read_column_i32, read_values_where, read_values_where_text, text_values_readable, values_readable, values_where, values_where_text, field_i32, lemma_row_rewards_unique, row_items, row_reward_items, row_rewards, rows_view, FieldsView, MasterRow, RewardItem};

verus! {

#[derive(Debug)]
pub struct QuestHuntingListResponse {
  pub limitquests: Vec<HuntingLimitQuest>,
  pub freequests: Vec<HuntingFreeQuest>,
  /// Whether "purchase more attempts" button is enabled
  pub enablepackage: bool,
}

#[derive(Debug)]
pub struct HuntingLimitQuest {
  pub area_id: i32,
  pub status: i32,
  /// Attempts left. "Challenges {master.limit_count - limit} / {master.limit_count}"
  pub limit: i32,
}

#[derive(Debug)]
pub struct HuntingFreeQuest {
  pub area_id: i32,
  pub status: i32,
}

#[derive(Debug)]
pub struct QuestHuntingStageListResponse {
  pub quests: Vec<HuntingStageQuest>,
}

#[derive(Debug)]
pub struct HuntingStageQuest {
  pub stage_id: i32,
  /// 0 - unlocked (new), 1 - unlocked, 2 - completed, 3 - 100% completed
  pub status: i32,
  /// Unknown
  pub newstage: i32,
  pub task1: i32,
  pub task2: i32,
  pub task3: i32,
}

#[derive(Debug)]
pub struct QuestHuntingStageListRequest {
  pub area_id: i32,
}

#[derive(Debug)]
pub struct QuestHuntingLimitStageListResponse {
  pub quests: Vec<HuntingLimitStageQuest>,
  pub bonuspack: i32,
}

#[derive(Debug)]
pub struct HuntingLimitStageQuest {
  pub stage_id: i32,
  pub challenge_count: i32,
}

#[derive(Debug)]
pub struct BattleHuntingStartRequest {
  pub quest_id: i32,
  pub party_id: i32,
}

#[derive(Debug)]
pub struct BattleHuntingResultResponse {
  pub limit: i32,
  pub exp: i32,
  pub lvup: i32,
  pub money: i32,
  pub storyunlock: Vec<i32>,
  /// Must contain all characters used in the battle
  pub love: Vec<BattleCharacterLove>,
  /// Must contain all members used in the battle
  pub member_exp: Vec<BattleMemberExp>,
  pub mission: Vec<i32>,
  pub reward: Vec<BattleReward>,
  pub clearreward: Vec<BattleClearReward>,
}

#[derive(Debug)]
pub struct BattleReward {
  pub itemtype: i32,
  pub itemid: i64,
  pub itemnum: i32,
  pub is_rare: bool,
}

#[derive(Debug)]
pub struct BattleHuntingResultRequest {
  pub party_id: i32,
  pub win: i32,
  pub quest_id: i32,
  pub memcheckcount: i32,
  pub clearquestmission: Vec<i32>,
  pub wave: i32,
}

#[derive(Debug)]
pub struct HuntingQuestListByItemResponse {
  pub huntingquests: Vec<HuntingQuest>,
  pub eventboxgachas: Vec<i32>,
  pub exchanges: Vec<i32>,
  pub expedition: i32,
  pub scorechallenge: i32,
  pub scorechallenge_ex: i32,
  pub dungeon: DungeonAreaMaterialInfoResponseDto,
  pub fame_quest: Vec<FameQuestMaterialInfoResponseDto>,
}

#[derive(Debug)]
pub struct HuntingQuest {
  pub quest_id: i32,
  pub task1: i32,
  pub task2: i32,
  pub task3: i32,
  pub limit: i32,
  pub status: i32,
}

#[derive(Debug)]
pub struct HuntingQuestListByItemRequest {
  pub item_type: i32,
  pub item_id: i64,
}

#[derive(Debug, Clone, Copy, PartialEq, Eq)]
pub struct HuntingRewardItem {
  pub item_type: i32,
  pub item_id: i64,
  pub item_num: i32,
  pub item_rare: bool,
}

impl CallCustom for BattleHuntingResultResponse {}

// ------------------------------------------------------------------------------------------
// Rewards of a quest stage
// ------------------------------------------------------------------------------------------

/// Every row of a reward master has an `id` that reads as an `i32`.
pub open spec fn reward_ids_readable(rows: Seq<FieldsView>) -> bool {
    forall|i: int| 0 <= i < rows.len() ==> (#[trigger] field_i32(rows[i], "id"@)) is Some
}

/// The row that a map from id to row, built from the rows in order, holds for the quest:
/// the last row with that id.
pub open spec fn is_reward_row(rows: Seq<FieldsView>, quest_id: i32, i: int) -> bool {
    &&& 0 <= i < rows.len()
    &&& field_i32(rows[i], "id"@) == Some(quest_id)
    &&& forall|j: int| i < j < rows.len() ==> field_i32(#[trigger] rows[j], "id"@) != Some(quest_id)
}

/// The index of the reward row of a quest; `None` where no row has its id.
pub fn find_reward_row(rows: &Vec<MasterRow>, quest_id: i32) -> (r: Option<usize>)
    ensures
        r matches Some(i) ==> is_reward_row(rows_view(rows@), quest_id, i as int),
        r is None ==> forall|j: int| 0 <= j < rows@.len() ==> field_i32(#[trigger] rows_view(rows@)[j], "id"@) != Some(quest_id),
{
    let mut i: usize = rows.len();
    while i > 0
        invariant
            i <= rows@.len(),
            forall|j: int| i <= j < rows@.len() ==> field_i32(#[trigger] rows_view(rows@)[j], "id"@) != Some(quest_id),
        decreases i,
    {
        assert(rows_view(rows@)[i - 1] == rows@[i - 1]@);
        if rows[i - 1].get_i32("id") == Some(quest_id) {
            return Some(i - 1);
        }
        i = i - 1;
    }
    None
}

/// Reward items as the master lists them.
pub open spec fn hunting_items_view(v: Seq<HuntingRewardItem>) -> Seq<RewardItem> {
    v.map_values(|x: HuntingRewardItem| RewardItem { item_type: x.item_type, item_id: x.item_id, item_num: x.item_num, item_rare: x.item_rare })
}

/// The items a reward row lists, in ascending order of their numbers; an item needs all
/// four of its fields, and empty slots are skipped.
pub fn extract_items(row: &MasterRow) -> (r: Vec<HuntingRewardItem>)
    ensures
        row_rewards(row@, None, hunting_items_view(r@)),
{
    let items = row_reward_items(row, None);
    let mut r: Vec<HuntingRewardItem> = Vec::new();
    let mut k: usize = 0;
    while k < items.len()
        invariant
            k <= items@.len(),
            r@.len() == k,
            hunting_items_view(r@) == items@.subrange(0, k as int),
        decreases items@.len() - k,
    {
        let it = items[k];
        r.push(HuntingRewardItem { item_type: it.item_type, item_id: it.item_id, item_num: it.item_num, item_rare: it.item_rare });
        assert(hunting_items_view(r@) =~= items@.subrange(0, k + 1));
        k = k + 1;
    }
    assert(items@.subrange(0, items@.len() as int) =~= items@);
    r
}

/// Each item's count multiplied by the factor.
pub open spec fn scaled_items(v: Seq<HuntingRewardItem>, factor: i32) -> Seq<HuntingRewardItem> {
    v.map_values(|x: HuntingRewardItem| HuntingRewardItem { item_num: (x.item_num * factor) as i32, ..x })
}

pub open spec fn scaling_fits(v: Seq<HuntingRewardItem>, factor: i32) -> bool {
    forall|k: int| 0 <= k < v.len() ==> i32::MIN <= (#[trigger] v[k]).item_num * factor <= i32::MAX
}

pub fn scale_items(items: Vec<HuntingRewardItem>, factor: i32) -> (r: Vec<HuntingRewardItem>)
    requires
        scaling_fits(items@, factor),
    ensures
        r@ == scaled_items(items@, factor),
{
    let mut r: Vec<HuntingRewardItem> = Vec::new();
    let mut k: usize = 0;
    while k < items.len()
        invariant
            k <= items@.len(),
            scaling_fits(items@, factor),
            r@.len() == k,
            r@ == scaled_items(items@.subrange(0, k as int), factor),
        decreases items@.len() - k,
    {
        let it = items[k];
        let num = it.item_num * factor;
        r.push(HuntingRewardItem { item_type: it.item_type, item_id: it.item_id, item_num: num, item_rare: it.item_rare });
        assert(r@ =~= scaled_items(items@.subrange(0, k + 1), factor));
        k = k + 1;
    }
    assert(items@.subrange(0, items@.len() as int) =~= items@);
    r
}

/// Reward items as a battle grants them.
pub open spec fn as_hunting_items(v: Seq<RewardItem>) -> Seq<HuntingRewardItem> {
    v.map_values(|x: RewardItem| HuntingRewardItem { item_type: x.item_type, item_id: x.item_id, item_num: x.item_num, item_rare: x.item_rare })
}

proof fn lemma_reward_row_unique(rows: Seq<FieldsView>, quest_id: i32, i: int, j: int)
    requires
        is_reward_row(rows, quest_id, i),
        is_reward_row(rows, quest_id, j),
    ensures
        i == j,
{
}

/// The items of a quest's reward row, where a row has the quest's id.
pub open spec fn stage_items(rows: Seq<FieldsView>, quest_id: i32) -> Option<Seq<HuntingRewardItem>> {
    if exists|i: int| is_reward_row(rows, quest_id, i) {
        let i = choose|i: int| is_reward_row(rows, quest_id, i);
        Some(as_hunting_items(row_items(rows[i], None)))
    } else {
        None
    }
}

/// What a cleared quest grants: the items of its reward row, twenty of each where the row
/// lists one. `None` where no row has the quest's id, or where twenty times a count does not
/// fit an `i32`.
pub open spec fn quest_rewards_spec(rows: Seq<FieldsView>, quest_id: i32) -> Option<Seq<HuntingRewardItem>> {
    match stage_items(rows, quest_id) {
        Some(v) => if scaling_fits(v, 20) { Some(scaled_items(v, 20)) } else { None },
        None => None,
    }
}

/// The rewards of a cleared quest: the items of its reward row, each count twenty times over.
pub fn quest_rewards(rows: &Vec<MasterRow>, quest_id: i32) -> (r: Option<Vec<HuntingRewardItem>>)
    ensures
        r matches Some(v) ==> quest_rewards_spec(rows_view(rows@), quest_id) == Some(v@),
        r is None ==> quest_rewards_spec(rows_view(rows@), quest_id) is None,
{
    let ghost rv = rows_view(rows@);
    let i = match find_reward_row(rows, quest_id) {
        Some(i) => i,
        None => {
            assert(!exists|i: int| is_reward_row(rv, quest_id, i));
            return None;
        },
    };
    let items = extract_items(&rows[i]);
    proof {
        let c = choose|j: int| is_reward_row(rv, quest_id, j);
        lemma_reward_row_unique(rv, quest_id, i as int, c);
        assert(rv[i as int] == rows@[i as int]@);
        let w = choose|r: Seq<RewardItem>| row_rewards(rv[i as int], None, r);
        lemma_row_rewards_unique(rv[i as int], None, w, hunting_items_view(items@));
        assert(as_hunting_items(hunting_items_view(items@)) =~= items@);
        assert(stage_items(rv, quest_id) == Some(items@));
    }
    let mut k: usize = 0;
    while k < items.len()
        invariant
            k <= items@.len(),
            stage_items(rows_view(rows@), quest_id) == Some(items@),
            forall|q: int| 0 <= q < k ==> i32::MIN <= (#[trigger] items@[q]).item_num * 20 <= i32::MAX,
        decreases items@.len() - k,
    {
        let n = items[k].item_num;
        if n < -107374182 || n > 107374182 {
            assert(!scaling_fits(items@, 20)) by {
                assert(!(i32::MIN <= items@[k as int].item_num * 20 <= i32::MAX));
            }
            return None;
        }
        k = k + 1;
    }
    Some(scale_items(items, 20))
}

/// The items as battle rewards.
pub open spec fn rewards_match(r: Seq<BattleReward>, items: Seq<HuntingRewardItem>) -> bool {
    &&& r.len() == items.len()
    &&& forall|k: int| 0 <= k < r.len() ==> {
        &&& (#[trigger] r[k]).itemtype == items[k].item_type
        &&& r[k].itemid == items[k].item_id
        &&& r[k].itemnum == items[k].item_num
        &&& r[k].is_rare == items[k].item_rare
    }
}

pub fn battle_rewards(items: &Vec<HuntingRewardItem>) -> (r: Vec<BattleReward>)
    ensures
        rewards_match(r@, items@),
{
    let mut r: Vec<BattleReward> = Vec::new();
    let mut k: usize = 0;
    while k < items.len()
        invariant
            k <= items@.len(),
            rewards_match(r@, items@.subrange(0, k as int)),
        decreases items@.len() - k,
    {
        let it = &items[k];
        r.push(BattleReward { itemtype: it.item_type, itemid: it.item_id, itemnum: it.item_num, is_rare: it.item_rare });
        k = k + 1;
    }
    assert(items@.subrange(0, items@.len() as int) =~= items@);
    r
}

// ------------------------------------------------------------------------------------------
// Characters and members of a battle
// ------------------------------------------------------------------------------------------

/// The character of the first member with the id, in (member id, character id) pairs.
pub open spec fn member_character(members: Seq<(i64, i64)>, member_id: i64) -> Option<i64>
    decreases members.len(),
{
    if members.len() == 0 {
        None
    } else if members[0].0 == member_id {
        Some(members[0].1)
    } else {
        member_character(members.drop_first(), member_id)
    }
}

pub open spec fn option_seq(o: Option<i64>) -> Seq<i64> {
    match o {
        Some(v) => seq![v],
        None => seq![],
    }
}

/// The characters of the forms' main, first and second sub members, form by form, for the
/// members that are found.
pub open spec fn party_characters(forms: Seq<PartyForm>, members: Seq<(i64, i64)>) -> Seq<i64>
    decreases forms.len(),
{
    if forms.len() == 0 {
        seq![]
    } else {
        let f = forms.last();
        party_characters(forms.drop_last(), members)
            + option_seq(member_character(members, f.main as i64))
            + option_seq(member_character(members, f.sub1 as i64))
            + option_seq(member_character(members, f.sub2 as i64))
    }
}

/// The member in a slot, where the slot holds one (0 marks an empty slot).
pub open spec fn slot_member(id: i32) -> Seq<i64> {
    if id == 0 { seq![] } else { seq![id as i64] }
}

/// The members who fight a battle: the main, first and second sub member of each form, form
/// by form, empty slots left out.
pub open spec fn battle_members_spec(forms: Seq<PartyForm>) -> Seq<i64>
    decreases forms.len(),
{
    if forms.len() == 0 {
        seq![]
    } else {
        let f = forms.last();
        battle_members_spec(forms.drop_last()) + slot_member(f.main) + slot_member(f.sub1) + slot_member(f.sub2)
    }
}

/// The members who fight are exactly the ones in a slot: every member that is the main, the
/// first or the second sub of some form is among them, and nothing else is; an empty slot (0)
/// adds no one.
pub proof fn law_battle_members_are_the_filled_slots(forms: Seq<PartyForm>, id: i64)
    ensures
        battle_members_spec(forms).contains(id) <==> (id != 0 && exists|f: int| 0 <= f < forms.len()
            && ((#[trigger] forms[f]).main as i64 == id || forms[f].sub1 as i64 == id || forms[f].sub2 as i64 == id)),
    decreases forms.len(),
{
    if forms.len() > 0 {
        let rest = forms.drop_last();
        let f = forms.last();
        law_battle_members_are_the_filled_slots(rest, id);
        let a = battle_members_spec(rest);
        let s1 = slot_member(f.main);
        let s2 = slot_member(f.sub1);
        let s3 = slot_member(f.sub2);
        let all = a + s1 + s2 + s3;
        assert(battle_members_spec(forms) == all);
        let in_slots = (f.main != 0 && f.main as i64 == id) || (f.sub1 != 0 && f.sub1 as i64 == id) || (f.sub2 != 0 && f.sub2 as i64 == id);
        if all.contains(id) {
            let k = choose|k: int| 0 <= k < all.len() && all[k] == id;
            if k < a.len() {
                assert(a[k] == id);
                assert(a.contains(id));
                let g = choose|g: int| 0 <= g < rest.len()
                    && ((#[trigger] rest[g]).main as i64 == id || rest[g].sub1 as i64 == id || rest[g].sub2 as i64 == id);
                assert(forms[g] == rest[g]);
            } else {
                assert(in_slots);
                assert(forms[forms.len() - 1] == f);
            }
        }
        if id != 0 && exists|g: int| 0 <= g < forms.len()
            && ((#[trigger] forms[g]).main as i64 == id || forms[g].sub1 as i64 == id || forms[g].sub2 as i64 == id) {
            let g = choose|g: int| 0 <= g < forms.len()
                && ((#[trigger] forms[g]).main as i64 == id || forms[g].sub1 as i64 == id || forms[g].sub2 as i64 == id);
            if g < rest.len() {
                assert(rest[g] == forms[g]);
                assert(a.contains(id));
                let k = choose|k: int| 0 <= k < a.len() && a[k] == id;
                assert(all[k] == id);
            } else {
                assert(forms[g] == f);
                if f.main as i64 == id {
                    assert(all[a.len() as int] == id);
                } else if f.sub1 as i64 == id {
                    assert(all[(a.len() + s1.len()) as int] == id);
                } else {
                    assert(all[(a.len() + s1.len() + s2.len()) as int] == id);
                }
            }
        }
    }
}

fn push_slot(r: &mut Vec<i64>, id: i32)
    ensures
        final(r)@ == old(r)@ + slot_member(id),
{
    if id != 0 {
        r.push(id as i64);
    }
    assert(final(r)@ =~= old(r)@ + slot_member(id));
}

/// The members who fight a battle of the party.
pub fn battle_members(forms: &[PartyForm; 5]) -> (r: Vec<i64>)
    ensures
        r@ == battle_members_spec(forms@),
{
    let mut r: Vec<i64> = Vec::new();
    let mut k: usize = 0;
    while k < 5
        invariant
            k <= 5,
            forms@.len() == 5,
            r@ == battle_members_spec(forms@.subrange(0, k as int)),
        decreases 5 - k,
    {
        assert(forms@.subrange(0, k + 1).drop_last() =~= forms@.subrange(0, k as int));
        let f = &forms[k];
        push_slot(&mut r, f.main);
        push_slot(&mut r, f.sub1);
        push_slot(&mut r, f.sub2);
        k = k + 1;
    }
    assert(forms@.subrange(0, 5) =~= forms@);
    r
}

pub fn find_member_character(members: &Vec<(i64, i64)>, member_id: i64) -> (r: Option<i64>)
    ensures
        r == member_character(members@, member_id),
{
    let mut i: usize = 0;
    assert(members@.skip(0) =~= members@);
    while i < members.len()
        invariant
            i <= members@.len(),
            member_character(members@, member_id) == member_character(members@.skip(i as int), member_id),
        decreases members@.len() - i,
    {
        assert(members@.skip(i as int)[0] == members@[i as int]);
        assert(members@.skip(i as int).drop_first() =~= members@.skip(i + 1));
        if members[i].0 == member_id {
            return Some(members[i].1);
        }
        i = i + 1;
    }
    None
}

fn push_opt(v: &mut Vec<i64>, o: Option<i64>)
    ensures
        final(v)@ == old(v)@ + option_seq(o),
{
    match o {
        Some(x) => {
            v.push(x);
            assert(final(v)@ =~= old(v)@ + option_seq(o));
        },
        None => {
            assert(final(v)@ =~= old(v)@ + option_seq(o));
        },
    }
}

pub fn party_characters_of(forms: &[PartyForm; 5], members: &Vec<(i64, i64)>) -> (r: Vec<i64>)
    ensures
        r@ == party_characters(forms@, members@),
{
    let mut r: Vec<i64> = Vec::new();
    let mut k: usize = 0;
    while k < 5
        invariant
            k <= 5,
            forms@.len() == 5,
            r@ == party_characters(forms@.subrange(0, k as int), members@),
        decreases 5 - k,
    {
        assert(forms@.subrange(0, k + 1).drop_last() =~= forms@.subrange(0, k as int));
        let f = &forms[k];
        push_opt(&mut r, find_member_character(members, f.main as i64));
        push_opt(&mut r, find_member_character(members, f.sub1 as i64));
        push_opt(&mut r, find_member_character(members, f.sub2 as i64));
        k = k + 1;
    }
    assert(forms@.subrange(0, 5) =~= forms@);
    r
}

/// The intimacy of the last row of a character, among the rows.
pub open spec fn last_intimacy(rows: Seq<(i64, i32)>, id: i64) -> Option<i32>
    decreases rows.len(),
{
    if rows.len() == 0 {
        None
    } else if rows.last().0 == id {
        Some(rows.last().1)
    } else {
        last_intimacy(rows.drop_last(), id)
    }
}

/// Raising intimacy by ten does not overflow for the characters of the battle.
pub open spec fn love_fits(rows: Seq<(i64, i32)>, characters: Seq<i64>) -> bool {
    forall|k: int| 0 <= k < rows.len() && characters.contains((#[trigger] rows[k]).0) ==> rows[k].1 <= i32::MAX - 10
}

/// The affinity a battle leaves each of its characters with: one entry per character of the
/// battle that the user has, ten more than its intimacy, as a map from character to
/// intimacy built from the rows holds it (the last row of a character counts). The
/// characters come in no order that is promised.
pub open spec fn love_spec(r: Seq<BattleCharacterLove>, rows: Seq<(i64, i32)>, characters: Seq<i64>) -> bool {
    &&& forall|k: int| 0 <= k < r.len() ==> {
        &&& characters.contains((#[trigger] r[k]).character_id)
        &&& last_intimacy(rows, r[k].character_id) matches Some(i) && r[k].love == i + 10
    }
    &&& forall|a: int, b: int| 0 <= a < b < r.len() ==> (#[trigger] r[a]).character_id != (#[trigger] r[b]).character_id
    &&& forall|j: int| 0 <= j < rows.len() && characters.contains((#[trigger] rows[j]).0) ==>
        exists|k: int| 0 <= k < r.len() && (#[trigger] r[k]).character_id == rows[j].0
}

fn contains_i64(v: &Vec<i64>, x: i64) -> (r: bool)
    ensures
        r == v@.contains(x),
{
    let mut i: usize = 0;
    while i < v.len()
        invariant
            i <= v@.len(),
            forall|j: int| 0 <= j < i ==> v@[j] != x,
        decreases v@.len() - i,
    {
        if v[i] == x {
            return true;
        }
        i = i + 1;
    }
    false
}

proof fn lemma_last_intimacy_push(rows: Seq<(i64, i32)>, row: (i64, i32), id: i64)
    ensures
        last_intimacy(rows.push(row), id) == (if row.0 == id { Some(row.1) } else { last_intimacy(rows, id) }),
{
    assert(rows.push(row).drop_last() =~= rows);
}

pub fn battle_love(rows: &Vec<(i64, i32)>, characters: &Vec<i64>) -> (r: Vec<BattleCharacterLove>)
    requires
        love_fits(rows@, characters@),
    ensures
        love_spec(r@, rows@, characters@),
{
    let mut r: Vec<BattleCharacterLove> = Vec::new();
    let mut j: usize = 0;
    while j < rows.len()
        invariant
            j <= rows@.len(),
            love_fits(rows@, characters@),
            love_spec(r@, rows@.subrange(0, j as int), characters@),
        decreases rows@.len() - j,
    {
        let ghost pre = rows@.subrange(0, j as int);
        let (id, intimacy) = rows[j];
        assert(rows@.subrange(0, j + 1) =~= pre.push((id, intimacy)));
        proof {
            assert forall|x: i64| #![trigger last_intimacy(rows@.subrange(0, j + 1), x)] true implies
                last_intimacy(rows@.subrange(0, j + 1), x) == (if id == x { Some(intimacy) } else { last_intimacy(pre, x) }) by {
                lemma_last_intimacy_push(pre, (id, intimacy), x);
            }
        }
        if contains_i64(characters, id) {
            assert(intimacy <= i32::MAX - 10);
            let love = intimacy + 10;
            let mut p: usize = 0;
            while p < r.len() && r[p].character_id != id
                invariant
                    p <= r@.len(),
                    forall|q: int| 0 <= q < p ==> r@[q].character_id != id,
                decreases r@.len() - p,
            {
                p = p + 1;
            }
            let ghost old_r = r@;
            if p < r.len() {
                r.set(p, BattleCharacterLove { character_id: id, love });
            } else {
                r.push(BattleCharacterLove { character_id: id, love });
            }
            proof {
                let post = rows@.subrange(0, j + 1);
                assert forall|k: int| 0 <= k < r@.len() implies {
                    &&& characters@.contains((#[trigger] r@[k]).character_id)
                    &&& last_intimacy(post, r@[k].character_id) matches Some(i) && r@[k].love == i + 10
                } by {
                    lemma_last_intimacy_push(pre, (id, intimacy), r@[k].character_id);
                    if k != p {
                        assert(r@[k] == old_r[k]);
                    }
                }
                assert forall|i: int| 0 <= i < post.len() && characters@.contains((#[trigger] post[i]).0) implies
                    exists|k: int| 0 <= k < r@.len() && (#[trigger] r@[k]).character_id == post[i].0 by {
                    if i < j {
                        assert(post[i] == pre[i]);
                        let k = choose|k: int| 0 <= k < old_r.len() && (#[trigger] old_r[k]).character_id == pre[i].0;
                        assert(r@[k].character_id == old_r[k].character_id);
                    } else {
                        assert(r@[p as int].character_id == id);
                    }
                }
            }
        } else {
            proof {
                let post = rows@.subrange(0, j + 1);
                assert forall|k: int| 0 <= k < r@.len() implies {
                    &&& characters@.contains((#[trigger] r@[k]).character_id)
                    &&& last_intimacy(post, r@[k].character_id) matches Some(i) && r@[k].love == i + 10
                } by {
                    lemma_last_intimacy_push(pre, (id, intimacy), r@[k].character_id);
                }
                assert forall|i: int| 0 <= i < post.len() && characters@.contains((#[trigger] post[i]).0) implies
                    exists|k: int| 0 <= k < r@.len() && (#[trigger] r@[k]).character_id == post[i].0 by {
                    assert(post[i] == pre[i]);
                }
            }
        }
        j = j + 1;
    }
    assert(rows@.subrange(0, rows@.len() as int) =~= rows@);
    r
}

/// Every member gets the same experience.
pub open spec fn member_exp_spec(r: Seq<BattleMemberExp>, members: Seq<i64>, exp: i32) -> bool {
    &&& r.len() == members.len()
    &&& forall|k: int| 0 <= k < r.len() ==> (#[trigger] r[k]).member_id == members[k] && r[k].exp == exp
}

pub fn member_exp(members: &Vec<i64>, exp: i32) -> (r: Vec<BattleMemberExp>)
    ensures
        member_exp_spec(r@, members@, exp),
{
    let mut r: Vec<BattleMemberExp> = Vec::new();
    let mut k: usize = 0;
    while k < members.len()
        invariant
            k <= members@.len(),
            member_exp_spec(r@, members@.subrange(0, k as int), exp),
        decreases members@.len() - k,
    {
        r.push(BattleMemberExp { member_id: members[k], exp });
        k = k + 1;
    }
    assert(members@.subrange(0, members@.len() as int) =~= members@);
    r
}

/// Every member of the user leads one of the party's forms: the hunting result looks up the
/// form each member leads.
pub open spec fn members_lead_forms(members: Seq<(i64, i64)>, forms: Seq<PartyForm>) -> bool {
    forall|k: int| 0 <= k < members.len() ==> exists|f: int| 0 <= f < forms.len() && (#[trigger] forms[f]).main as i64 == (#[trigger] members[k]).0
}

/// The hunting quest result: a limit of one, 230 experience, 42000 money, the affinity of
/// the party's characters, 230 experience for each member who fought, the missions cleared,
/// the rewards of the quest (twenty of each item of its reward row), and the remote data of
/// the granted items. `members` are the user's members with their characters.
pub fn battle_hunting_result_response(
    forms: &[PartyForm; 5],
    members: &Vec<(i64, i64)>,
    character_rows: &Vec<(i64, i32)>,
    reward_rows: &Vec<MasterRow>,
    quest_id: i32,
    clearquestmission: Vec<i32>,
    granted: Vec<RemoteData>,
    time: u32,
) -> (r: CallResponse<BattleHuntingResultResponse>)
    requires
        love_fits(character_rows@, party_characters(forms@, members@)),
        quest_rewards_spec(rows_view(reward_rows@), quest_id) is Some,
    ensures
        r.status == 0,
        r.time == Some(time),
        r.remote@ == granted@,
        r.notifications@.len() == 0,
        r.custom.limit == 1,
        r.custom.exp == 230,
        r.custom.lvup == 0,
        r.custom.money == 42000,
        r.custom.storyunlock@.len() == 0,
        love_spec(r.custom.love@, character_rows@, party_characters(forms@, members@)),
        member_exp_spec(r.custom.member_exp@, battle_members_spec(forms@), 230),
        r.custom.mission == clearquestmission,
        rewards_match(r.custom.reward@, quest_rewards_spec(rows_view(reward_rows@), quest_id).unwrap()),
        r.custom.clearreward@.len() == 0,
{
    let characters = party_characters_of(forms, members);
    let fought = battle_members(forms);
    let rewards = match quest_rewards(reward_rows, quest_id) {
        Some(v) => v,
        None => Vec::new(),
    };
    let custom = BattleHuntingResultResponse {
        limit: 1,
        exp: 230,
        lvup: 0,
        money: 42000,
        storyunlock: Vec::new(),
        love: battle_love(character_rows, &characters),
        member_exp: member_exp(&fought, 230),
        mission: clearquestmission,
        reward: battle_rewards(&rewards),
        clearreward: Vec::new(),
    };
    let mut response = CallResponse::at_time(0, time, custom);
    response.add_remote_data(granted);
    response
}

/// A hunting quest as the item lists show it: tasks one and two done, forty-two tries left,
/// cleared.
pub open spec fn listed_quest(q: HuntingQuest, id: i32) -> bool {
    q.quest_id == id && q.task1 == 1 && q.task2 == 1 && q.task3 == 0 && q.limit == 42 && q.status == 2
}

/// Where an item can be had: the hunting quests whose reward row lists an item of the type and
/// id (an item needing all four of its fields), one box gacha and one exchange.
pub fn hunting_quest_list_by_item(stages: &Vec<MasterRow>, rewards: &Vec<MasterRow>, request: &HuntingQuestListByItemRequest) -> (r: HuntingQuestListByItemResponse)
    requires
        stages_readable(rows_view(stages@), rows_view(rewards@), None),
    ensures
        ({
            let ids = offering_stages(rows_view(stages@), rows_view(rewards@), Some(request.item_type), request.item_id, None);
            &&& r.huntingquests@.len() == ids.len()
            &&& forall|k: int| 0 <= k < ids.len() ==> listed_quest(#[trigger] r.huntingquests@[k], ids[k])
        }),
        r.eventboxgachas@ == seq![20043i32],
        r.exchanges@ == seq![100i32],
        r.expedition == 0,
        r.scorechallenge == 0,
        r.scorechallenge_ex == 0,
        r.dungeon.area_ids@.len() == 0,
        r.dungeon.unlocked_area_ids@.len() == 0,
        r.dungeon.challenging_area_id == 0,
        r.fame_quest@.len() == 0,
{
    let ids = stages_offering(stages, rewards, Some(request.item_type), request.item_id, None);
    let mut quests: Vec<HuntingQuest> = Vec::new();
    let mut k: usize = 0;
    while k < ids.len()
        invariant
            k <= ids@.len(),
            quests@.len() == k,
            forall|j: int| 0 <= j < k ==> listed_quest(#[trigger] quests@[j], ids@[j]),
        decreases ids@.len() - k,
    {
        quests.push(HuntingQuest { quest_id: ids[k], task1: 1, task2: 1, task3: 0, limit: 42, status: 2 });
        k = k + 1;
    }
    let r = HuntingQuestListByItemResponse {
        huntingquests: quests,
        eventboxgachas: vec![20043],
        exchanges: vec![100],
        expedition: 0,
        scorechallenge: 0,
        scorechallenge_ex: 0,
        dungeon: no_dungeon_materials(),
        fame_quest: Vec::new(),
    };
    assert(r.eventboxgachas@ =~= seq![20043i32]);
    assert(r.exchanges@ =~= seq![100i32]);
    r
}

/// The hunting areas: the limited ones with one try left, the free ones, both not yet
/// entered; more tries can be bought.
pub fn quest_hunting_list(areas: &Vec<MasterRow>) -> (r: QuestHuntingListResponse)
    requires
        text_values_readable(rows_view(areas@), "type"@, "LIMITED"@, "area_id"@),
        text_values_readable(rows_view(areas@), "type"@, "FREE"@, "area_id"@),
    ensures
        ({
            let ids = values_where_text(rows_view(areas@), "type"@, "LIMITED"@, "area_id"@);
            &&& r.limitquests@.len() == ids.len()
            &&& forall|k: int| 0 <= k < ids.len() ==> #[trigger] r.limitquests@[k] == (HuntingLimitQuest { area_id: ids[k], status: 0, limit: 1 })
        }),
        ({
            let ids = values_where_text(rows_view(areas@), "type"@, "FREE"@, "area_id"@);
            &&& r.freequests@.len() == ids.len()
            &&& forall|k: int| 0 <= k < ids.len() ==> #[trigger] r.freequests@[k] == (HuntingFreeQuest { area_id: ids[k], status: 0 })
        }),
        r.enablepackage,
{
    let limited = read_values_where_text(areas, "type", "LIMITED", "area_id");
    let free = read_values_where_text(areas, "type", "FREE", "area_id");
    let mut limitquests: Vec<HuntingLimitQuest> = Vec::new();
    let mut k: usize = 0;
    while k < limited.len()
        invariant
            k <= limited@.len(),
            limitquests@.len() == k,
            forall|j: int| 0 <= j < k ==> #[trigger] limitquests@[j] == (HuntingLimitQuest { area_id: limited@[j], status: 0, limit: 1 }),
        decreases limited@.len() - k,
    {
        limitquests.push(HuntingLimitQuest { area_id: limited[k], status: 0, limit: 1 });
        k = k + 1;
    }
    let mut freequests: Vec<HuntingFreeQuest> = Vec::new();
    let mut k: usize = 0;
    while k < free.len()
        invariant
            k <= free@.len(),
            freequests@.len() == k,
            forall|j: int| 0 <= j < k ==> #[trigger] freequests@[j] == (HuntingFreeQuest { area_id: free@[j], status: 0 }),
        decreases free@.len() - k,
    {
        freequests.push(HuntingFreeQuest { area_id: free[k], status: 0 });
        k = k + 1;
    }
    QuestHuntingListResponse { limitquests, freequests, enablepackage: true }
}

/// The stages of a hunting area, each cleared with tasks one and two done.
pub fn quest_hunting_stage_list(stages: &Vec<MasterRow>, request: &QuestHuntingStageListRequest) -> (r: QuestHuntingStageListResponse)
    requires
        values_readable(rows_view(stages@), "area_id"@, request.area_id, "id"@),
    ensures
        ({
            let ids = values_where(rows_view(stages@), "area_id"@, request.area_id, "id"@);
            &&& r.quests@.len() == ids.len()
            &&& forall|k: int| 0 <= k < ids.len() ==> #[trigger] r.quests@[k]
                == (HuntingStageQuest { stage_id: ids[k], status: 2, newstage: 0, task1: 1, task2: 1, task3: 0 })
        }),
{
    let ids = read_values_where(stages, "area_id", request.area_id, "id");
    let mut quests: Vec<HuntingStageQuest> = Vec::new();
    let mut k: usize = 0;
    while k < ids.len()
        invariant
            k <= ids@.len(),
            quests@.len() == k,
            forall|j: int| 0 <= j < k ==> #[trigger] quests@[j]
                == (HuntingStageQuest { stage_id: ids@[j], status: 2, newstage: 0, task1: 1, task2: 1, task3: 0 }),
        decreases ids@.len() - k,
    {
        quests.push(HuntingStageQuest { stage_id: ids[k], status: 2, newstage: 0, task1: 1, task2: 1, task3: 0 });
        k = k + 1;
    }
    QuestHuntingStageListResponse { quests }
}

/// The limited hunting stages: every stage of the master, forty-two tries each; no bonus pack.
pub fn quest_hunting_limit_stage_list(stages: &Vec<MasterRow>) -> (r: QuestHuntingLimitStageListResponse)
    requires
        forall|i: int| 0 <= i < stages@.len() ==> (#[trigger] field_i32(rows_view(stages@)[i], "stage_id"@)) is Some,
    ensures
        r.quests@.len() == stages@.len(),
        forall|k: int| 0 <= k < stages@.len() ==> #[trigger] r.quests@[k]
            == (HuntingLimitStageQuest { stage_id: column_i32(rows_view(stages@), "stage_id"@)[k], challenge_count: 42 }),
        r.bonuspack == 0,
{
    let ids = read_column_i32(stages, "stage_id");
    let mut quests: Vec<HuntingLimitStageQuest> = Vec::new();
    let mut k: usize = 0;
    while k < ids.len()
        invariant
            k <= ids@.len(),
            quests@.len() == k,
            forall|j: int| 0 <= j < k ==> #[trigger] quests@[j] == (HuntingLimitStageQuest { stage_id: ids@[j], challenge_count: 42 }),
        decreases ids@.len() - k,
    {
        quests.push(HuntingLimitStageQuest { stage_id: ids[k], challenge_count: 42 });
        k = k + 1;
    }
    QuestHuntingLimitStageListResponse { quests, bonuspack: 0 }
}

} // verus!
