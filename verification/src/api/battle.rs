use vstd::prelude::*;
use crate::api::surprise::BasicBattlePartyForm;
use crate::api::battle_multi::BattleCharacterLove;
use crate::api::battle_multi::BattleClearReward;
use crate::api::battle_multi::BattleMemberExp;
use crate::api::quest_hunting::BattleReward;
use crate::api::party_info::PartyPassiveSkillInfo;
use crate::api::party_info::{battle_party_of, Party, PartyForm};
use crate::api::quest_hunting::{
    battle_love, battle_members, battle_members_spec, battle_rewards, love_fits, love_spec, member_exp, member_exp_spec,
    party_characters, party_characters_of, quest_rewards, quest_rewards_spec, rewards_match,
};
use crate::master::{rows_view, MasterRow};
use crate::api::login::notifications_match;
use crate::api::{NotificationData, RemoteData};
use crate::call::{CallCustom, CallResponse};

verus! {

#[derive(Debug)]
pub struct BattleMember {
  pub id: i32,
  pub lv: i32,
  pub exp: i32,
  pub member_id: i64,
  pub ac_skill_id_a: i64,
  pub ac_skill_lv_a: i32,
  pub ac_skill_val_a: i32,
  pub ac_skill_id_b: i64,
  pub ac_skill_lv_b: i32,
  pub ac_skill_val_b: i32,
  pub ac_skill_id_c: i64,
  pub ac_skill_lv_c: i32,
  pub ac_skill_val_c: i32,
  pub hp: i32,
  pub magicattack: i32,
  pub defense: i32,
  pub magicdefence: i32,
  pub agility: i32,
  pub dexterity: i32,
  pub luck: i32,
  pub limit_break: i32,
  pub character_id: i64,
  pub passiveskill: i64,
  pub specialattack: i64,
  pub resist_state: i32,
  pub resist_attr: i64,
  pub attack: i32,
  pub ex_flg: i32,
  pub is_undead: i32,
  pub special_skill_lv: i32,
}

#[derive(Debug)]
pub struct BattleStartResponse {
  pub chest: String,
  pub party: BattleParty,
  pub members: Vec<BattleMember>,
}

#[derive(Debug)]
pub struct BattleParty {
  pub party_forms: [BasicBattlePartyForm; 5],
  pub assist: i32,
  pub sub_assists: Vec<i32>,
  pub party_passive_skill: PartyPassiveSkillInfo,
}

#[derive(Debug)]
pub struct BattleStartRequest {
  pub quest_id: i32,
  pub party_id: i32,
  pub auto_progression_info: AutoProgressionInfo,
}

#[derive(Debug)]
pub struct AutoProgressionInfo {
  pub is_start: bool,
  pub stop_setting: i32,
  pub incomplete_setting: i32,
}

#[derive(Debug)]
pub struct LiveMember {
  pub id: i64,
  pub hp: i32,
  pub form_no: i32,
}

#[derive(Debug)]
pub struct ReportInfo {
  pub PendingBonusIds: Vec<i32>,
  pub SuccessBonusIds: Vec<i32>,
}

#[derive(Debug)]
pub struct ResumePassiveInfo {
  pub SkillId: i64,
  pub ExecuteCount: i32,
  pub NeedCount: i32,
  pub RemainCount: i32,
  pub PassiveCount: i32,
  pub MaxStackCount: i32,
  pub StackCount: i32,
}

#[derive(Debug)]
pub struct BattleResultResponse {
  pub limit: i32,
  pub exp: i32,
  pub lvup: i32,
  pub money: i32,
  pub storyunlock: Vec<i32>,
  /// Must contain all characters used in the battle
  pub love: Vec<BattleCharacterLove>,
  /// Must contain all members used in the battle
  pub member_exp: Vec<BattleMemberExp>,
  pub mission: Vec<i32>,
  pub reward: Vec<BattleReward>,
  pub clearreward: Vec<BattleClearReward>,
  pub auto_progression_result: AutoProgressionResultResponse,
  pub firstclear: bool,
}

#[derive(Debug)]
pub struct AutoProgressionResultResponse {
  pub auto_count: i32,
  pub is_continue: bool,
  pub stop_reason: i32,
  pub stamina_all: i32,
  pub reward_all: Vec<BattleReward>,
  pub clearreward_all: Vec<BattleClearReward>,
}

#[derive(Debug)]
pub struct BattleResultRequest {
  pub quest_id: i32,
  pub party_id: i32,
  pub win: i32,
  pub wave: i32,
  pub clearquestmission: Vec<i32>,
  pub auto_progression_stop: i32,
  pub memcheckcount: i32,
}

impl CallCustom for BattleStartResponse {}

impl CallCustom for BattleResultResponse {}

/// The chests a battle offers.
pub open spec fn battle_chest() -> Seq<char> {
    "10101111,10101120,10101131"@
}

/// The start of a battle: its chests, the party as a battle sees it, the members of the
/// party, and a notification that the expedition badge is off.
pub fn make_battle_start(party: &Party, members: Vec<BattleMember>, time: u32) -> (r: CallResponse<BattleStartResponse>)
    ensures
        r.status == 0,
        r.time == Some(time),
        r.remote@.len() == 0,
        notifications_match(r.notifications@, seq![(1i32, 7i32, 6i32, 0i32, ""@, ""@)]),
        r.custom.chest@ == battle_chest(),
        battle_party_of(*party, r.custom.party),
        r.custom.members@ == members@,
{
    let custom = BattleStartResponse {
        chest: String::from_str("10101111,10101120,10101131"),
        party: party.to_battle_party(),
        members,
    };
    let mut response = CallResponse::at_time(0, time, custom);
    response.add_notifications(vec![NotificationData::new(1, 7, 6, 0, String::from_str(""), String::from_str(""))]);
    response
}

/// The notifications a main quest result carries.
pub open spec fn battle_result_notifications() -> Seq<(i32, i32, i32, i32, Seq<char>, Seq<char>)> {
    seq![
        (1i32, 16i32, 1i32, 0i32, ""@, ""@),
        (1, 7, 22, 0, ""@, ""@),
        (1, 7, 14, 1, ""@, ""@),
        (1, 7, 14, 1, ""@, ""@),
        (1, 7, 14, 1, ""@, ""@),
        (1, 7, 20, 1, ""@, ""@),
        (1, 7, 3, 2, ""@, ""@),
        (1, 7, 13, 7, ""@, ""@),
        (1, 7, 34, 1, "show_button"@, ""@),
        (1, 6, 1, 30030001, ""@, ""@),
        (1, 10, 230731, 52307325, ""@, ""@),
        (1, 10, 230831, 52308305, ""@, ""@),
    ]
}

fn note(cmd: i32, kind: i32, key: i32, value: i32, msgkey: &str) -> (r: NotificationData)
    ensures
        r.cmd == cmd && r.kind == kind && r.key == key && r.value == value && r.msgkey@ == msgkey@ && r.tag@ == ""@,
{
    NotificationData::new(cmd, kind, key, value, msgkey.to_owned(), String::from_str(""))
}

/// The main quest result: 5 experience, 85000 money, the affinity of the party's
/// characters, 230 experience for each member who fought, the missions cleared, the rewards
/// of the quest (twenty of each item of its reward row), a first clear, the remote data of
/// the granted items and the result notifications. `members` are the user's members with
/// their characters.
pub fn battle_result_response(
    forms: &[PartyForm; 5],
    members: &Vec<(i64, i64)>,
    character_rows: &Vec<(i64, i32)>,
    reward_rows: &Vec<MasterRow>,
    quest_id: i32,
    clearquestmission: Vec<i32>,
    granted: Vec<RemoteData>,
    time: u32,
) -> (r: CallResponse<BattleResultResponse>)
    requires
        love_fits(character_rows@, party_characters(forms@, members@)),
        quest_rewards_spec(rows_view(reward_rows@), quest_id) is Some,
    ensures
        r.status == 0,
        r.time == Some(time),
        r.remote@ == granted@,
        notifications_match(r.notifications@, battle_result_notifications()),
        r.custom.limit == 0,
        r.custom.exp == 5,
        r.custom.lvup == 0,
        r.custom.money == 85000,
        r.custom.storyunlock@.len() == 0,
        love_spec(r.custom.love@, character_rows@, party_characters(forms@, members@)),
        member_exp_spec(r.custom.member_exp@, battle_members_spec(forms@), 230),
        r.custom.mission == clearquestmission,
        rewards_match(r.custom.reward@, quest_rewards_spec(rows_view(reward_rows@), quest_id).unwrap()),
        r.custom.clearreward@.len() == 0,
        r.custom.auto_progression_result.auto_count == 0,
        !r.custom.auto_progression_result.is_continue,
        r.custom.auto_progression_result.stop_reason == 0,
        r.custom.auto_progression_result.stamina_all == 0,
        r.custom.auto_progression_result.reward_all@.len() == 0,
        r.custom.auto_progression_result.clearreward_all@.len() == 0,
        r.custom.firstclear,
{
    let characters = party_characters_of(forms, members);
    let fought = battle_members(forms);
    let rewards = match quest_rewards(reward_rows, quest_id) {
        Some(v) => v,
        None => Vec::new(),
    };
    let custom = BattleResultResponse {
        limit: 0,
        exp: 5,
        lvup: 0,
        money: 85000,
        storyunlock: Vec::new(),
        love: battle_love(character_rows, &characters),
        member_exp: member_exp(&fought, 230),
        mission: clearquestmission,
        reward: battle_rewards(&rewards),
        clearreward: Vec::new(),
        auto_progression_result: AutoProgressionResultResponse {
            auto_count: 0,
            is_continue: false,
            stop_reason: 0,
            stamina_all: 0,
            reward_all: Vec::new(),
            clearreward_all: Vec::new(),
        },
        firstclear: true,
    };
    let mut response = CallResponse::at_time(0, time, custom);
    response.add_remote_data(granted);
    let notes = vec![
        note(1, 16, 1, 0, ""),
        note(1, 7, 22, 0, ""),
        note(1, 7, 14, 1, ""),
        note(1, 7, 14, 1, ""),
        note(1, 7, 14, 1, ""),
        note(1, 7, 20, 1, ""),
        note(1, 7, 3, 2, ""),
        note(1, 7, 13, 7, ""),
        note(1, 7, 34, 1, "show_button"),
        note(1, 6, 1, 30030001, ""),
        note(1, 10, 230731, 52307325, ""),
        note(1, 10, 230831, 52308305, ""),
    ];
    response.add_notifications(notes);
    response
}

/// What the client is told after a wave.
#[derive(Debug)]
pub struct BattleWaveResultResponse {
    pub chest: i32,
}

/// The chest a wave always drops.
pub const WAVE_CHEST: i32 = 10101120;

/// The end of a wave: the same chest every time.
pub fn battle_wave_result() -> (r: CallResponse<BattleWaveResultResponse>)
    ensures
        r.status == 0,
        r.remote@.len() == 0 && r.notifications@.len() == 0,
        r.custom.chest == WAVE_CHEST,
{
    CallResponse::new_success(BattleWaveResultResponse { chest: WAVE_CHEST })
}

/// What the client is told when it leaves a battle: nothing.
#[derive(Debug)]
pub struct BattleRetireResponse {}

/// Leaving a battle: a success with an empty body.
pub fn battle_retire() -> (r: CallResponse<BattleRetireResponse>)
    ensures
        r.status == 0,
        r.remote@.len() == 0 && r.notifications@.len() == 0,
{
    CallResponse::new_success(BattleRetireResponse {})
}

} // verus!
