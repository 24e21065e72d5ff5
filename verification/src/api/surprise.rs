use vstd::prelude::*;
use crate::api::dungeon::{find_first_where, first_where, has_first_where};
use crate::api::{item_type_code, RemoteDataItemType};
use crate::master::{column_i32, field_i32, read_column_i32, rows_view, MasterRow};
use crate::api::battle::BattleMember;
use crate::api::party_info::PartyPassiveSkillInfo;
use crate::api::login::notifications_match;
use crate::api::NotificationData;
use crate::call::{CallCustom, CallResponse};

verus! {

#[derive(Debug)]
pub struct SurpriseMiniEventSelectResponse {
  pub select_list: Vec<SurpriseEvent>,
}

#[derive(Debug)]
pub struct SurpriseEvent {
  pub user_stock_id: i32,
  pub surprise_event_id: i32,
  pub expired_date: i64,
}

#[derive(Debug)]
pub struct SurpriseMiniEventTop {
  pub best_score: i32,
  pub expired_date: i64,
}

#[derive(Debug)]
pub struct SurpriseMiniEventTopRequest {
  pub surprise_event_id: i32,
  pub user_stock_id: i32,
}

#[derive(Debug)]
pub struct SurpriseQuestStart {
  pub party: SurpriseQuestStartParty,
  pub members: Vec<BattleMember>,
}

#[derive(Debug)]
pub struct SurpriseQuestStartParty {
  pub party_forms: Vec<BasicBattlePartyForm>,
  pub assist: i32,
  pub sub_assists: Vec<i32>,
  pub party_passive_skill: PartyPassiveSkillInfo,
}

#[derive(Debug)]
pub struct BasicBattlePartyForm {
  pub id: i32,
  pub party_no: i32,
  pub form_no: i32,
  pub main: i32,
  pub sub1: i32,
  pub sub2: i32,
  pub weapon: i32,
  pub acc: i32,
  pub skill_pa_fame: i64,
}

#[derive(Debug)]
pub struct SurpriseQuestStartRequest {
  pub surprise_quest_id: i32,
  pub party_no: i32,
  pub user_stock_id: i32,
  pub surprise_event_id: i32,
}

#[derive(Debug)]
pub struct SurpriseQuestResult {
  pub reward: Vec<SurpriseQuestResultReward>,
  pub previous_best_score: i32,
  pub best_score: i32,
}

#[derive(Debug)]
pub struct SurpriseQuestResultReward {
  pub item_type: i32,
  pub item_id: i64,
  pub item_num: i32,
  pub is_rare: i32,
}

#[derive(Debug)]
pub struct SurpriseShortEvent {
  pub surprise_short_id: i32,
  pub result: SurpriseShortEventResult,
}

#[derive(Debug)]
pub struct SurpriseShortEventRequest {
  pub surprise_event_id: i32,
  pub user_stock_id: i32,
}

#[derive(Debug)]
pub struct SurpriseShortEventResult {
  pub result_pattern_id: i32,
}

#[derive(Debug)]
pub struct SurpriseStoryStart {
  pub result_id_list: Vec<i32>,
}

#[derive(Debug)]
pub struct SurpriseStoryStartRequest {
  pub surprise_event_id: i32,
  pub user_stock_id: i32,
  pub surprise_story_id: i32,
}

#[derive(Debug)]
pub struct SurpriseStorySelectRequest {
  pub surprise_story_id: i32,
  pub surprise_event_id: i32,
  pub user_stock_id: i32,
  pub result_id: i32,
}

#[derive(Debug)]
pub struct SurpriseStoryResult {
  pub reward: Vec<SurpriseStoryReward>,
}

#[derive(Debug)]
pub struct SurpriseStoryReward {
  pub item_type: i32,
  pub item_id: i64,
  pub num: i32,
}

#[derive(Debug)]
pub struct SurpriseStoryResultRequest {
  pub surprise_story_id: i32,
  pub surprise_event_id: i32,
  pub user_stock_id: i32,
}


impl CallCustom for SurpriseQuestStart {}

/// The forms of the party a surprise quest starts with.
pub open spec fn surprise_forms() -> Seq<BasicBattlePartyForm> {
    seq![
        BasicBattlePartyForm { id: 666431194, party_no: 1, form_no: 1, main: 11, sub1: 0, sub2: 0, weapon: 0, acc: 0, skill_pa_fame: 0 },
        BasicBattlePartyForm { id: 666431194, party_no: 1, form_no: 2, main: 12, sub1: 0, sub2: 0, weapon: 0, acc: 0, skill_pa_fame: 0 },
        BasicBattlePartyForm { id: 666431194, party_no: 1, form_no: 3, main: 10, sub1: 0, sub2: 0, weapon: 0, acc: 0, skill_pa_fame: 0 },
        BasicBattlePartyForm { id: 666431194, party_no: 1, form_no: 4, main: 0, sub1: 0, sub2: 0, weapon: 0, acc: 0, skill_pa_fame: 0 },
        BasicBattlePartyForm { id: 666431194, party_no: 1, form_no: 5, main: 0, sub1: 0, sub2: 0, weapon: 0, acc: 0, skill_pa_fame: 0 }
    ]
}

/// The members a surprise quest starts with.
pub open spec fn surprise_members() -> Seq<BattleMember> {
    seq![
        BattleMember { id: 11, lv: 1, exp: 0, member_id: 1001100, ac_skill_id_a: 10000100, ac_skill_lv_a: 1, ac_skill_val_a: 110, ac_skill_id_b: 54000130, ac_skill_lv_b: 1, ac_skill_val_b: 0, ac_skill_id_c: 22000140, ac_skill_lv_c: 1, ac_skill_val_c: 130, hp: 245, magicattack: 26, defense: 20, magicdefence: 19, agility: 72, dexterity: 78, luck: 88, limit_break: 0, character_id: 100, passiveskill: 210201, specialattack: 100001, resist_state: 210201, resist_attr: 150000000, attack: 27, ex_flg: 0, is_undead: 0, special_skill_lv: 1 },
        BattleMember { id: 12, lv: 1, exp: 0, member_id: 1011100, ac_skill_id_a: 10000100, ac_skill_lv_a: 1, ac_skill_val_a: 110, ac_skill_id_b: 31002024, ac_skill_lv_b: 1, ac_skill_val_b: 170, ac_skill_id_c: 12000146, ac_skill_lv_c: 1, ac_skill_val_c: 152, hp: 252, magicattack: 31, defense: 21, magicdefence: 23, agility: 66, dexterity: 76, luck: 10, limit_break: 0, character_id: 101, passiveskill: 220001, specialattack: 101001, resist_state: 220001, resist_attr: 155000000, attack: 28, ex_flg: 0, is_undead: 0, special_skill_lv: 1 },
        BattleMember { id: 10, lv: 1, exp: 0, member_id: 1064217, ac_skill_id_a: 210000000000010000, ac_skill_lv_a: 1, ac_skill_val_a: 100, ac_skill_id_b: 210042000000312082, ac_skill_lv_b: 1, ac_skill_val_b: 128, ac_skill_id_c: 212200000000030074, ac_skill_lv_c: 1, ac_skill_val_c: 173, hp: 247, magicattack: 36, defense: 22, magicdefence: 26, agility: 69, dexterity: 67, luck: 68, limit_break: 0, character_id: 106, passiveskill: 212004, specialattack: 106001, resist_state: 212004, resist_attr: 100005000, attack: 29, ex_flg: 0, is_undead: 0, special_skill_lv: 1 }
    ]
}

/// The start of a surprise quest: a fixed party of three members and the notification that
/// the expedition badge is off.
pub fn surprise_quest_start(time: u32) -> (r: CallResponse<SurpriseQuestStart>)
    ensures
        r.status == 0,
        r.time == Some(time),
        r.remote@.len() == 0,
        notifications_match(r.notifications@, seq![(1i32, 7i32, 6i32, 0i32, ""@, ""@)]),
        r.custom.party.party_forms@ == surprise_forms(),
        r.custom.party.assist == 0,
        r.custom.party.sub_assists@.len() == 0,
        r.custom.party.party_passive_skill == (PartyPassiveSkillInfo { skill_id: 0, user_member_id: 0 }),
        r.custom.members@ == surprise_members(),
{
    let forms = vec![
        BasicBattlePartyForm { id: 666431194, party_no: 1, form_no: 1, main: 11, sub1: 0, sub2: 0, weapon: 0, acc: 0, skill_pa_fame: 0 },
        BasicBattlePartyForm { id: 666431194, party_no: 1, form_no: 2, main: 12, sub1: 0, sub2: 0, weapon: 0, acc: 0, skill_pa_fame: 0 },
        BasicBattlePartyForm { id: 666431194, party_no: 1, form_no: 3, main: 10, sub1: 0, sub2: 0, weapon: 0, acc: 0, skill_pa_fame: 0 },
        BasicBattlePartyForm { id: 666431194, party_no: 1, form_no: 4, main: 0, sub1: 0, sub2: 0, weapon: 0, acc: 0, skill_pa_fame: 0 },
        BasicBattlePartyForm { id: 666431194, party_no: 1, form_no: 5, main: 0, sub1: 0, sub2: 0, weapon: 0, acc: 0, skill_pa_fame: 0 }
    ];
    let members = vec![
        BattleMember { id: 11, lv: 1, exp: 0, member_id: 1001100, ac_skill_id_a: 10000100, ac_skill_lv_a: 1, ac_skill_val_a: 110, ac_skill_id_b: 54000130, ac_skill_lv_b: 1, ac_skill_val_b: 0, ac_skill_id_c: 22000140, ac_skill_lv_c: 1, ac_skill_val_c: 130, hp: 245, magicattack: 26, defense: 20, magicdefence: 19, agility: 72, dexterity: 78, luck: 88, limit_break: 0, character_id: 100, passiveskill: 210201, specialattack: 100001, resist_state: 210201, resist_attr: 150000000, attack: 27, ex_flg: 0, is_undead: 0, special_skill_lv: 1 },
        BattleMember { id: 12, lv: 1, exp: 0, member_id: 1011100, ac_skill_id_a: 10000100, ac_skill_lv_a: 1, ac_skill_val_a: 110, ac_skill_id_b: 31002024, ac_skill_lv_b: 1, ac_skill_val_b: 170, ac_skill_id_c: 12000146, ac_skill_lv_c: 1, ac_skill_val_c: 152, hp: 252, magicattack: 31, defense: 21, magicdefence: 23, agility: 66, dexterity: 76, luck: 10, limit_break: 0, character_id: 101, passiveskill: 220001, specialattack: 101001, resist_state: 220001, resist_attr: 155000000, attack: 28, ex_flg: 0, is_undead: 0, special_skill_lv: 1 },
        BattleMember { id: 10, lv: 1, exp: 0, member_id: 1064217, ac_skill_id_a: 210000000000010000, ac_skill_lv_a: 1, ac_skill_val_a: 100, ac_skill_id_b: 210042000000312082, ac_skill_lv_b: 1, ac_skill_val_b: 128, ac_skill_id_c: 212200000000030074, ac_skill_lv_c: 1, ac_skill_val_c: 173, hp: 247, magicattack: 36, defense: 22, magicdefence: 26, agility: 69, dexterity: 67, luck: 68, limit_break: 0, character_id: 106, passiveskill: 212004, specialattack: 106001, resist_state: 212004, resist_attr: 100005000, attack: 29, ex_flg: 0, is_undead: 0, special_skill_lv: 1 }
    ];
    assert(forms@ =~= surprise_forms());
    assert(members@ =~= surprise_members());
    let custom = SurpriseQuestStart {
        party: SurpriseQuestStartParty {
            party_forms: forms,
            assist: 0,
            sub_assists: Vec::new(),
            party_passive_skill: PartyPassiveSkillInfo { skill_id: 0, user_member_id: 0 },
        },
        members,
    };
    let mut response = CallResponse::at_time(0, time, custom);
    response.add_notifications(vec![NotificationData::new(1, 7, 6, 0, String::from_str(""), String::from_str(""))]);
    response
}

/// The surprise events on offer: every event of the master, in order, each in stock 42 and
/// never expiring.
pub fn surprise_mini_event_select(events: &Vec<MasterRow>) -> (r: SurpriseMiniEventSelectResponse)
    requires
        forall|i: int| 0 <= i < events@.len() ==> (#[trigger] field_i32(rows_view(events@)[i], "id"@)) is Some,
    ensures
        r.select_list@.len() == events@.len(),
        forall|k: int| 0 <= k < events@.len() ==> {
            let e = #[trigger] r.select_list@[k];
            &&& e.user_stock_id == 42
            &&& e.surprise_event_id == column_i32(rows_view(events@), "id"@)[k]
            &&& e.expired_date == 0
        },
{
    let ids = read_column_i32(events, "id");
    let mut list: Vec<SurpriseEvent> = Vec::new();
    let mut i: usize = 0;
    while i < ids.len()
        invariant
            i <= ids@.len(),
            list@.len() == i,
            forall|k: int| 0 <= k < i ==> {
                let e = #[trigger] list@[k];
                &&& e.user_stock_id == 42 && e.surprise_event_id == ids@[k] && e.expired_date == 0
            },
        decreases ids@.len() - i,
    {
        list.push(SurpriseEvent { user_stock_id: 42, surprise_event_id: ids[i], expired_date: 0 });
        i = i + 1;
    }
    SurpriseMiniEventSelectResponse { select_list: list }
}

/// A surprise event's top screen: best score 2112, never expiring.
pub fn surprise_mini_event_top(request: &SurpriseMiniEventTopRequest) -> (r: SurpriseMiniEventTop)
    ensures
        r.best_score == 2112,
        r.expired_date == 0,
{
    SurpriseMiniEventTop { best_score: 2112, expired_date: 0 }
}

/// A surprise quest's result: a rare reward of 1,042,000 paid gems, and the best score raised
/// from 2112 to 4242.
pub fn surprise_quest_result() -> (r: SurpriseQuestResult)
    ensures
        r.reward@.len() == 1,
        r.reward@[0].item_type == item_type_code(RemoteDataItemType::RealMoney),
        r.reward@[0].item_id == 1,
        r.reward@[0].item_num == 1_042_000,
        r.reward@[0].is_rare == 1,
        r.previous_best_score == 2112,
        r.best_score == 4242,
{
    SurpriseQuestResult {
        reward: vec![SurpriseQuestResultReward {
            item_type: RemoteDataItemType::RealMoney.code(),
            item_id: 1,
            item_num: 1_042_000,
            is_rare: 1,
        }],
        previous_best_score: 2112,
        best_score: 4242,
    }
}

/// A short surprise event: the short of the first event row with the asked event id, and
/// result pattern 8.
pub fn surprise_short_event(shorts: &Vec<MasterRow>, request: &SurpriseShortEventRequest) -> (r: SurpriseShortEvent)
    requires
        has_first_where(rows_view(shorts@), "surprise_event_id"@, request.surprise_event_id),
        field_i32(
            rows_view(shorts@)[first_where(rows_view(shorts@), "surprise_event_id"@, request.surprise_event_id)],
            "surprise_short_id"@,
        ) is Some,
    ensures
        Some(r.surprise_short_id) == field_i32(
            rows_view(shorts@)[first_where(rows_view(shorts@), "surprise_event_id"@, request.surprise_event_id)],
            "surprise_short_id"@,
        ),
        r.result.result_pattern_id == 8,
{
    let ghost rv = rows_view(shorts@);
    let i = match find_first_where(shorts, "surprise_event_id", request.surprise_event_id) {
        Some(i) => i,
        None => 0,
    };
    assert(rv[i as int] == shorts@[i as int]@);
    let id = match shorts[i].get_i32("surprise_short_id") {
        Some(v) => v,
        None => 0,
    };
    SurpriseShortEvent { surprise_short_id: id, result: SurpriseShortEventResult { result_pattern_id: 8 } }
}

/// A surprise story's result: 520,000 paid gems.
pub fn surprise_story_result(request: &SurpriseStoryResultRequest) -> (r: SurpriseStoryResult)
    ensures
        r.reward@.len() == 1,
        r.reward@[0].item_type == item_type_code(RemoteDataItemType::RealMoney),
        r.reward@[0].item_id == 1,
        r.reward@[0].num == 520_000,
{
    SurpriseStoryResult {
        reward: vec![SurpriseStoryReward { item_type: RemoteDataItemType::RealMoney.code(), item_id: 1, num: 520_000 }],
    }
}

/// The results a surprise story can have: every story result of the master, by id, in order.
pub fn surprise_story_start(results: &Vec<MasterRow>) -> (r: SurpriseStoryStart)
    requires
        forall|i: int| 0 <= i < results@.len() ==> (#[trigger] field_i32(rows_view(results@)[i], "id"@)) is Some,
    ensures
        r.result_id_list@ == column_i32(rows_view(results@), "id"@),
{
    SurpriseStoryStart { result_id_list: read_column_i32(results, "id") }
}

} // verus!
