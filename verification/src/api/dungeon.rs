use vstd::prelude::*;
use crate::call::CallResponse;
use crate::api::battle::BattleParty;
use crate::api::party_info::PartyPassiveSkillInfo;
use crate::api::party_info::SpecialSkillInfo;
use crate::api::surprise::BasicBattlePartyForm;
use crate::api::{item_type_code, RemoteDataItemType};
use crate::api::quest::quest_fame::{ids_of, ids_where, ids_where_exec, is_first_with_id, where_readable};
use crate::api::quest::keys_readable;
use crate::master::{field_i32, field_usize, rows_view, FieldsView, MasterRow};

verus! {

#[derive(Debug)]
pub struct DungeonStatusResponse {
  pub area_id: i32,
}

#[derive(Debug)]
pub struct DungeonAreaTopResponse {
  pub is_practice: bool,
  pub stage_state: DungeonStageState,
  pub party_set: DungeonPartySet,
  pub clear_info: DungeonAreaClearInfo,
  pub unchoosed_benefit_id_list: Vec<i32>,
  pub benefit_re_lottery_count: i32,
  pub is_allow_trial: bool,
}

#[derive(Debug)]
pub struct DungeonAreaClearInfo {
  pub clear_rank: i32,
  pub reward_items: Vec<DungeonAreaClearRewardInfo>,
}

#[derive(Debug)]
pub struct DungeonAreaClearRewardInfo {
  pub item_type: i32,
  pub item_id: i64,
  pub item_num: i32,
}

#[derive(Debug)]
pub struct DungeonStageState {
  pub stage_id: i32,
  pub is_challenge: bool,
  pub enemies: Vec<DungeonStageEnemyState>,
}

#[derive(Debug)]
pub struct DungeonStageEnemyState {
  pub enemy_id: i32,
  pub current_hp: i32,
}

#[derive(Debug)]
pub struct DungeonEnemyInfo {
  pub enemy_id: i64,
  pub current_hp: i32,
}

#[derive(Debug)]
pub struct DungeonPartySet {
  pub stage_party_set: DungeonStagePartySet,
  pub team_members: Vec<PartyMember>,
  pub team_weapons: Vec<PartyWeapon>,
  pub team_accessories: Vec<PartyAccessory>,
}

#[derive(Debug)]
pub struct PartyMember {
  pub id: i32,
  pub lv: i32,
  pub exp: i32,
  pub member_id: i64,
  pub ac_skill_lv_a: i32,
  pub ac_skill_val_a: i64,
  pub ac_skill_lv_b: i32,
  pub ac_skill_val_b: i64,
  pub ac_skill_lv_c: i32,
  pub ac_skill_val_c: i64,
  pub hp: i32,
  pub attack: i32,
  pub magicattack: i32,
  pub defense: i32,
  pub magicdefence: i32,
  pub agility: i32,
  pub dexterity: i32,
  pub luck: i32,
  pub limit_break: i32,
  pub character_id: i64,
  pub waiting_room: i32,
  pub ex_flg: i32,
  pub is_undead: i32,
}

#[derive(Debug)]
pub struct PartyWeapon {
  pub id: i64,
  pub weapon_id: i64,
  pub trial: bool,
}

#[derive(Debug)]
pub struct PartyAccessory {
  pub id: i64,
  pub accessory_id: i64,
}

#[derive(Debug)]
pub struct DungeonStagePartySet {
  pub party: Vec<DungeonStagePartyForm>,
  pub reserved_party: Vec<DungeonStagePartyForm>,
  pub assist: i64,
  pub sub_assists: Vec<i64>,
  pub assist_remain_count: i32,
  pub party_passive_skill: PartyPassiveSkillInfo,
}

#[derive(Debug)]
pub struct DungeonStagePartyForm {
  /* Wonder_Api_BasicPartyFormResponseDto_Fields */
  pub id: i32,
  pub form_no: i32,
  pub main: i32,
  pub sub1: i32,
  pub sub2: i32,
  pub weapon: i64,
  pub acc: i64,
  pub strength: i32,
  pub specialskill: SpecialSkillInfo,
  pub skill_pa_fame: i64,

  /* Wonder_Api_DungeonStagePartyFormResponseDto_Fields */
  pub current_hp: i32,
  pub max_hp: i32,
  pub current_sp: i32,
}

#[derive(Debug)]
pub struct DungeonAreaTopRequest {
  pub area_id: i32,
}

#[derive(Debug)]
pub struct DungeonTopRequest {
  pub dungeon_id: i32,
}

#[derive(Debug)]
pub struct DungeonTopResponse {
  pub challenging_area_id: i32,
  pub area_info_list: Vec<DungeonAreaInfo>,
  pub challenge_count_info: DungeonChallengeCountInfo,
  pub has_new_dungeon: bool,
}

#[derive(Debug)]
pub struct DungeonAreaInfo {
  pub area_id: i32,
  pub clear_rank: i32,
  pub is_challengeable: bool,
}

#[derive(Debug)]
pub struct DungeonChallengeCountInfo {
  pub bought_count: i32,
  pub available_buy_count: i32,
}

#[derive(Debug)]
pub struct DungeonListResponse {
  pub dungeon: DungeonInfo,
  pub regular_dungeons: RegularDungeonsInfo,
}

#[derive(Debug)]
pub struct DungeonInfo {
  pub dungeon_id: i32,
  pub is_completed: bool,
  pub is_new: bool,
}

#[derive(Debug)]
pub struct RegularDungeonsInfo {
  pub dungeon_list: Vec<DungeonInfo>,
  pub challenge_count_info: DungeonChallengeCountInfo,
}

#[derive(Debug)]
pub struct DungeonTeamInfoResponse {
  pub team_set: DungeonTeamSet,
}

#[derive(Debug)]
pub struct DungeonTeamSet {
  /// Must be of size [master<dungeon_area>.member_num]
  pub party: Vec<DungeonStagePartyForm>,
  pub members: Vec<PartyMember>,
  pub weapons: Vec<PartyWeapon>,
  pub accessories: Vec<PartyAccessory>,
  pub assist: i64,
  pub sub_assists: Vec<i64>,
}

#[derive(Debug)]
pub struct DungeonTeamInfoRequest {
  pub area_id: i32,
}

#[derive(Debug)]
pub struct DungeonAreaChallengeResponse {
  pub stage_state: DungeonStageState,
  pub party_set: DungeonPartySet,
}

#[derive(Debug)]
pub struct DungeonAreaChallengeRequest {
  pub area_id: i32,
  pub is_practice: bool,
}

#[derive(Debug)]
pub struct DungeonStagePartyInfoResponse {
  pub party_set: DungeonPartySet,
  pub is_allow_trial: bool,
}

#[derive(Debug)]
pub struct DungeonStagePartyInfoRequest {
  pub area_id: i32,
}

#[derive(Debug)]
pub struct DungeonBattleStartResponse {
  pub chest: String,
  pub party: BattleParty,
  pub members: Vec<DungeonBattleMember>,
  pub resume_info: String,
  pub livemembers: Vec<DungeonBattleLiveMember>,
  pub benefit_id_list: Vec<i32>,
  pub enemy_info: Vec<DungeonEnemyInfo>,
  pub hp_increase: i32,
}

#[derive(Debug, Clone)]
pub struct DungeonBattleMember {
  /* Wonder_Api_BattlestartMembersResponseDto_Fields */
  pub id: i32,
  pub lv: i32,
  pub exp: i32,
  pub member_id: i64,
  pub ac_skill_id_a: i64,
  pub ac_skill_lv_a: i32,
  pub ac_skill_val_a: i32,
  pub ac_skill_id_b: i64,
  pub ac_skill_lv_b: i32,
  pub ac_skill_val_b: i32,
  pub ac_skill_id_c: i64,
  pub ac_skill_lv_c: i32,
  pub ac_skill_val_c: i32,
  pub hp: i32,
  pub magicattack: i32,
  pub defense: i32,
  pub magicdefence: i32,
  pub agility: i32,
  pub dexterity: i32,
  pub luck: i32,
  pub limit_break: i32,
  pub character_id: i64,
  pub passiveskill: i64,
  pub specialattack: i64,
  pub resist_state: i32,
  pub resist_attr: i64,
  pub attack: i32,
  pub ex_flg: i32,
  pub is_undead: i32,
  pub special_skill_lv: i32,

  /* Wonder_Api_DungeonBattleStartMembersResponseDto_Fields */
  pub character_piece_board_stage_id_list: Vec<i32>,
}

#[derive(Debug)]
pub struct DungeonBattleLiveMember {
  pub id: i32,
  pub hp: i32,
  pub form_no: i32,
}

#[derive(Debug)]
pub struct DungeonBattleStartRequest {
  pub stage_id: i32,
}

#[derive(Debug)]
pub struct DungeonBattleDefeatRequest {
  pub is_retire: bool,
  pub assist_remain_count: i32,
  pub enemy_info: Vec<DungeonEnemyInfoRequest>,
}

#[derive(Debug)]
pub struct DungeonEnemyInfoRequest {
  pub enemy_id: i64,
  pub hp: i32,
}

#[derive(Debug)]
pub struct DungeonTeamOfferResponse {
  pub team_set: DungeonTeamSet,
}

#[derive(Debug)]
pub struct DungeonTeamOfferRequest {
  pub area_id: i32,
  pub assist: i64,
  pub sub: i64,
  pub accessory_priority_resistances: Vec<String>,
  pub elemental: Vec<String>,
  pub priority_status: String,
  pub equip: i64,
  pub main: i64,
  pub skill_pa_fame: i64,
  pub weapon_priority_status: String,
}

#[derive(Debug)]
pub struct DungeonTeamResetResponse {
  pub team_set: DungeonTeamSet,
}

#[derive(Debug)]
pub struct DungeonTeamResetRequest {
  pub area_id: i32,
}

#[derive(Debug)]
pub struct DungeonAreaSkipResponse {
  pub reward: Vec<BattleSkipReward>,
}

#[derive(Debug)]
pub struct BattleSkipReward {
  /// Stage number
  pub dropnum: i32,
  pub exp: i32,
  pub money: i32,
  pub itemtype: i32,
  pub itemid: i32,
  /// Negative values are not displayed :(
  pub itemnum: i32,
}

#[derive(Debug)]
pub struct DungeonAreaSkipRequest {
  pub area_id: i32,
  pub skip_count: i32,
}

// ------------------------------------------------------------------------------------------
// Dungeons as the master lists them
// ------------------------------------------------------------------------------------------

/// Why a dungeon request failed.
#[derive(Debug, Clone, Copy, PartialEq, Eq)]
pub enum DungeonError {
    /// No area has the id.
    InvalidAreaId,
    /// No stage has the id.
    InvalidStageId,
    /// The area has no stages.
    NoStages,
}

/// A search for the first row with an id can read what it needs: the rows up to the first
/// with the id, and there the field `then` as a `usize`; or, where no row has it, every id.
pub open spec fn first_findable(rows: Seq<FieldsView>, id: i32) -> bool {
    ||| exists|i: int| is_first_with_id(rows, id, i)
    ||| forall|j: int| 0 <= j < rows.len() ==> (#[trigger] field_i32(rows[j], "id"@)) is Some && field_i32(rows[j], "id"@) != Some(id)
}

/// The first row with the id.
pub open spec fn first_with(rows: Seq<FieldsView>, id: i32) -> int {
    choose|i: int| is_first_with_id(rows, id, i)
}

pub open spec fn has_first(rows: Seq<FieldsView>, id: i32) -> bool {
    exists|i: int| is_first_with_id(rows, id, i)
}

/// The first row with the id, where one has it.
pub fn find_first_with_id(rows: &Vec<MasterRow>, id: i32) -> (r: Option<usize>)
    requires
        first_findable(rows_view(rows@), id),
    ensures
        r matches Some(i) ==> has_first(rows_view(rows@), id) && i as int == first_with(rows_view(rows@), id)
            && is_first_with_id(rows_view(rows@), id, i as int),
        r is None <==> !has_first(rows_view(rows@), id),
{
    let ghost rv = rows_view(rows@);
    let mut i: usize = 0;
    while i < rows.len()
        invariant
            i <= rows@.len(),
            rv == rows_view(rows@),
            first_findable(rv, id),
            forall|j: int| 0 <= j < i ==> (#[trigger] field_i32(rv[j], "id"@)) is Some && field_i32(rv[j], "id"@) != Some(id),
        decreases rows@.len() - i,
    {
        assert(rv[i as int] == rows@[i as int]@);
        proof {
            if exists|w: int| is_first_with_id(rv, id, w) {
                let w = choose|w: int| is_first_with_id(rv, id, w);
                if w < i {
                    assert(field_i32(rv[w], "id"@) != Some(id));
                }
                if w > i {
                    assert(field_i32(rv[i as int], "id"@) is Some);
                }
            }
        }
        assert(field_i32(rv[i as int], "id"@) is Some);
        let here = rows[i].get_i32("id");
        if here == Some(id) {
            assert(is_first_with_id(rv, id, i as int));
            proof {
                let w = first_with(rv, id);
                assert(is_first_with_id(rv, id, w));
                if w < i {
                    assert(field_i32(rv[w], "id"@) != Some(id));
                } else if w > i {
                    assert(field_i32(rv[i as int], "id"@) != Some(id));
                }
            }
            return Some(i);
        }
        i = i + 1;
    }
    assert forall|w: int| !is_first_with_id(rv, id, w) by {
        if is_first_with_id(rv, id, w) {
            assert(field_i32(rv[w], "id"@) != Some(id));
        }
    }
    None
}

/// An area can be looked up: the search reads, and where the area is there its member count
/// reads as a `usize`.
pub open spec fn area_readable(areas: Seq<FieldsView>, area_id: i32) -> bool {
    &&& first_findable(areas, area_id)
    &&& has_first(areas, area_id) ==> field_usize(areas[first_with(areas, area_id)], "member_num"@) is Some
}

/// How many members the area takes.
pub open spec fn area_member_count(areas: Seq<FieldsView>, area_id: i32) -> usize {
    field_usize(areas[first_with(areas, area_id)], "member_num"@).unwrap()
}

/// How many members an area takes: the count of the first area with the id.
pub fn area_member_num(areas: &Vec<MasterRow>, area_id: i32) -> (r: Result<usize, DungeonError>)
    requires
        area_readable(rows_view(areas@), area_id),
    ensures
        r is Ok <==> has_first(rows_view(areas@), area_id),
        r matches Ok(n) ==> n == area_member_count(rows_view(areas@), area_id),
        r matches Err(e) ==> e == DungeonError::InvalidAreaId,
{
    match find_first_with_id(areas, area_id) {
        None => Err(DungeonError::InvalidAreaId),
        Some(i) => {
            assert(rows_view(areas@)[i as int] == areas@[i as int]@);
            match areas[i].get_usize("member_num") {
                Some(n) => Ok(n),
                None => Err(DungeonError::InvalidAreaId),
            }
        },
    }
}

/// Form `k` (from 0) of a dungeon party: the member at that place of the user's members, or
/// none, with the stand-in skill and full health.
pub open spec fn dungeon_form(f: DungeonStagePartyForm, k: int, members: Seq<i32>) -> bool {
    &&& f.id == 1
    &&& f.form_no == (k + 1) as i32
    &&& f.main == (if k < members.len() { members[k] } else { 0 })
    &&& f.sub1 == 0 && f.sub2 == 0
    &&& f.weapon == 0 && f.acc == 0
    &&& f.strength == 123
    &&& f.specialskill == (SpecialSkillInfo { special_skill_id: 100001, trial: false })
    &&& f.skill_pa_fame == 0
    &&& f.current_hp == 100 && f.max_hp == 100 && f.current_sp == 0
}

/// A party of `member_num` forms, filled with the user's members in order.
pub fn dungeon_party(members: &Vec<i32>, member_num: usize) -> (r: Vec<DungeonStagePartyForm>)
    ensures
        r@.len() == member_num,
        forall|k: int| 0 <= k < member_num ==> dungeon_form(#[trigger] r@[k], k, members@),
{
    let mut party: Vec<DungeonStagePartyForm> = Vec::new();
    let mut k: usize = 0;
    while k < member_num
        invariant
            k <= member_num,
            party@.len() == k,
            forall|j: int| 0 <= j < k ==> dungeon_form(#[trigger] party@[j], j, members@),
        decreases member_num - k,
    {
        let main = if k < members.len() { members[k] } else { 0 };
        #[verifier::truncate]
        let form_no = (k + 1) as i32;
        party.push(DungeonStagePartyForm {
            id: 1,
            form_no,
            main,
            sub1: 0,
            sub2: 0,
            weapon: 0,
            acc: 0,
            strength: 123,
            specialskill: SpecialSkillInfo { special_skill_id: 100001, trial: false },
            skill_pa_fame: 0,
            current_hp: 100,
            max_hp: 100,
            current_sp: 0,
        });
        k = k + 1;
    }
    party
}

/// The first `n` of a list, or all of it where it is shorter.
pub open spec fn first_n<T>(s: Seq<T>, n: int) -> Seq<T> {
    if n < s.len() { s.take(n) } else { s }
}

fn take_members(members: Vec<PartyMember>, n: usize) -> (r: Vec<PartyMember>)
    ensures
        r@ == first_n(members@, n as int),
{
    let mut members = members;
    members.truncate(n);
    members
}

/// The team of an area: a party of its member count, the user's first members, nothing
/// equipped, no assists.
pub fn dungeon_team_set(members: &Vec<i32>, party_members: Vec<PartyMember>, member_num: usize) -> (r: DungeonTeamSet)
    ensures
        r.party@.len() == member_num,
        forall|k: int| 0 <= k < member_num ==> dungeon_form(#[trigger] r.party@[k], k, members@),
        r.members@ == first_n(party_members@, member_num as int),
        r.weapons@.len() == 0,
        r.accessories@.len() == 0,
        r.assist == 0,
        r.sub_assists@.len() == 0,
{
    DungeonTeamSet {
        party: dungeon_party(members, member_num),
        members: take_members(party_members, member_num),
        weapons: Vec::new(),
        accessories: Vec::new(),
        assist: 0,
        sub_assists: Vec::new(),
    }
}

/// The team of an area as the team screens show it.
pub open spec fn team_set_of(t: DungeonTeamSet, members: Seq<i32>, party_members: Seq<PartyMember>, member_num: usize) -> bool {
    &&& t.party@.len() == member_num
    &&& forall|k: int| 0 <= k < member_num ==> dungeon_form(#[trigger] t.party@[k], k, members)
    &&& t.members@ == first_n(party_members, member_num as int)
    &&& t.weapons@.len() == 0 && t.accessories@.len() == 0
    &&& t.assist == 0 && t.sub_assists@.len() == 0
}

/// The team of an area, for the team screen.
pub fn dungeon_team_info(areas: &Vec<MasterRow>, request: &DungeonTeamInfoRequest, members: &Vec<i32>, party_members: Vec<PartyMember>) -> (r: Result<DungeonTeamInfoResponse, DungeonError>)
    requires
        area_readable(rows_view(areas@), request.area_id),
    ensures
        r is Ok <==> has_first(rows_view(areas@), request.area_id),
        r matches Ok(t) ==> team_set_of(t.team_set, members@, party_members@, area_member_count(rows_view(areas@), request.area_id)),
        r matches Err(e) ==> e == DungeonError::InvalidAreaId,
{
    let n = area_member_num(areas, request.area_id)?;
    Ok(DungeonTeamInfoResponse { team_set: dungeon_team_set(members, party_members, n) })
}

/// The team an area offers.
pub fn dungeon_team_offer(areas: &Vec<MasterRow>, request: &DungeonTeamOfferRequest, members: &Vec<i32>, party_members: Vec<PartyMember>) -> (r: Result<DungeonTeamOfferResponse, DungeonError>)
    requires
        area_readable(rows_view(areas@), request.area_id),
    ensures
        r is Ok <==> has_first(rows_view(areas@), request.area_id),
        r matches Ok(t) ==> team_set_of(t.team_set, members@, party_members@, area_member_count(rows_view(areas@), request.area_id)),
        r matches Err(e) ==> e == DungeonError::InvalidAreaId,
{
    let n = area_member_num(areas, request.area_id)?;
    Ok(DungeonTeamOfferResponse { team_set: dungeon_team_set(members, party_members, n) })
}

/// The team of an area, after a reset.
pub fn dungeon_team_reset(areas: &Vec<MasterRow>, request: &DungeonTeamResetRequest, members: &Vec<i32>, party_members: Vec<PartyMember>) -> (r: Result<DungeonTeamResetResponse, DungeonError>)
    requires
        area_readable(rows_view(areas@), request.area_id),
    ensures
        r is Ok <==> has_first(rows_view(areas@), request.area_id),
        r matches Ok(t) ==> team_set_of(t.team_set, members@, party_members@, area_member_count(rows_view(areas@), request.area_id)),
        r matches Err(e) ==> e == DungeonError::InvalidAreaId,
{
    let n = area_member_num(areas, request.area_id)?;
    Ok(DungeonTeamResetResponse { team_set: dungeon_team_set(members, party_members, n) })
}

/// The party of an area as a stage shows it: its forms and the user's first members, nothing
/// reserved, equipped or assisting.
pub open spec fn party_set_of(p: DungeonPartySet, members: Seq<i32>, party_members: Seq<PartyMember>, member_num: usize) -> bool {
    &&& p.stage_party_set.party@.len() == member_num
    &&& forall|k: int| 0 <= k < member_num ==> dungeon_form(#[trigger] p.stage_party_set.party@[k], k, members)
    &&& p.stage_party_set.reserved_party@.len() == 0
    &&& p.stage_party_set.assist == 0
    &&& p.stage_party_set.sub_assists@.len() == 0
    &&& p.stage_party_set.assist_remain_count == 0
    &&& p.stage_party_set.party_passive_skill == (PartyPassiveSkillInfo { skill_id: 0, user_member_id: 0 })
    &&& p.team_members@ == first_n(party_members, member_num as int)
    &&& p.team_weapons@.len() == 0
    &&& p.team_accessories@.len() == 0
}

fn dungeon_party_set(members: &Vec<i32>, party_members: Vec<PartyMember>, member_num: usize) -> (r: DungeonPartySet)
    ensures
        party_set_of(r, members@, party_members@, member_num),
{
    DungeonPartySet {
        stage_party_set: DungeonStagePartySet {
            party: dungeon_party(members, member_num),
            reserved_party: Vec::new(),
            assist: 0,
            sub_assists: Vec::new(),
            assist_remain_count: 0,
            party_passive_skill: PartyPassiveSkillInfo::new(0, 0),
        },
        team_members: take_members(party_members, member_num),
        team_weapons: Vec::new(),
        team_accessories: Vec::new(),
    }
}

/// The party of an area's stage; trials allowed.
pub fn dungeon_stage_party_info(areas: &Vec<MasterRow>, request: &DungeonStagePartyInfoRequest, members: &Vec<i32>, party_members: Vec<PartyMember>) -> (r: Result<DungeonStagePartyInfoResponse, DungeonError>)
    requires
        area_readable(rows_view(areas@), request.area_id),
    ensures
        r is Ok <==> has_first(rows_view(areas@), request.area_id),
        r matches Ok(t) ==> party_set_of(t.party_set, members@, party_members@, area_member_count(rows_view(areas@), request.area_id))
            && t.is_allow_trial,
        r matches Err(e) ==> e == DungeonError::InvalidAreaId,
{
    let n = area_member_num(areas, request.area_id)?;
    Ok(DungeonStagePartyInfoResponse { party_set: dungeon_party_set(members, party_members, n), is_allow_trial: true })
}

/// Row `i` is the first whose field `key` reads as `value`, every row before it reading.
pub open spec fn is_first_where(rows: Seq<FieldsView>, key: Seq<char>, value: i32, i: int) -> bool {
    &&& 0 <= i < rows.len()
    &&& field_i32(rows[i], key) == Some(value)
    &&& forall|j: int| 0 <= j < i ==> (#[trigger] field_i32(rows[j], key)) is Some && field_i32(rows[j], key) != Some(value)
}

pub open spec fn has_first_where(rows: Seq<FieldsView>, key: Seq<char>, value: i32) -> bool {
    exists|i: int| is_first_where(rows, key, value, i)
}

pub open spec fn first_where(rows: Seq<FieldsView>, key: Seq<char>, value: i32) -> int {
    choose|i: int| is_first_where(rows, key, value, i)
}

/// A search for the first row whose field reads as the value can read what it needs.
pub open spec fn first_where_findable(rows: Seq<FieldsView>, key: Seq<char>, value: i32) -> bool {
    ||| has_first_where(rows, key, value)
    ||| forall|j: int| 0 <= j < rows.len() ==> (#[trigger] field_i32(rows[j], key)) is Some && field_i32(rows[j], key) != Some(value)
}

/// The first row whose field `key` reads as `value`, where one does.
pub fn find_first_where(rows: &Vec<MasterRow>, key: &str, value: i32) -> (r: Option<usize>)
    requires
        first_where_findable(rows_view(rows@), key@, value),
    ensures
        r matches Some(i) ==> has_first_where(rows_view(rows@), key@, value) && i as int == first_where(rows_view(rows@), key@, value)
            && is_first_where(rows_view(rows@), key@, value, i as int),
        r is None <==> !has_first_where(rows_view(rows@), key@, value),
{
    let ghost rv = rows_view(rows@);
    let mut i: usize = 0;
    while i < rows.len()
        invariant
            i <= rows@.len(),
            rv == rows_view(rows@),
            first_where_findable(rv, key@, value),
            forall|j: int| 0 <= j < i ==> (#[trigger] field_i32(rv[j], key@)) is Some && field_i32(rv[j], key@) != Some(value),
        decreases rows@.len() - i,
    {
        assert(rv[i as int] == rows@[i as int]@);
        proof {
            if exists|w: int| is_first_where(rv, key@, value, w) {
                let w = choose|w: int| is_first_where(rv, key@, value, w);
                if w < i {
                    assert(field_i32(rv[w], key@) != Some(value));
                }
                if w > i {
                    assert(field_i32(rv[i as int], key@) is Some);
                }
            }
        }
        assert(field_i32(rv[i as int], key@) is Some);
        if rows[i].get_i32(key) == Some(value) {
            assert(is_first_where(rv, key@, value, i as int));
            proof {
                let w = first_where(rv, key@, value);
                assert(is_first_where(rv, key@, value, w));
                if w < i {
                    assert(field_i32(rv[w], key@) != Some(value));
                } else if w > i {
                    assert(field_i32(rv[i as int], key@) != Some(value));
                }
            }
            return Some(i);
        }
        i = i + 1;
    }
    assert forall|w: int| !is_first_where(rv, key@, value, w) by {
        if is_first_where(rv, key@, value, w) {
            assert(field_i32(rv[w], key@) != Some(value));
        }
    }
    None
}

/// The first enemies of the master, at most three, have ids that read.
pub open spec fn enemies_readable(enemies: Seq<FieldsView>) -> bool {
    forall|j: int| 0 <= j < enemies.len() && j < 3 ==> (#[trigger] field_i32(enemies[j], "enemy_id"@)) is Some
}

/// The ids of the first enemies of the master, at most three.
pub open spec fn first_enemies(enemies: Seq<FieldsView>) -> Seq<i32> {
    ids_of_key(first_n(enemies, 3), "enemy_id"@)
}

pub open spec fn ids_of_key(rows: Seq<FieldsView>, key: Seq<char>) -> Seq<i32> {
    Seq::new(rows.len(), |i: int| field_i32(rows[i], key).unwrap())
}

fn first_enemy_ids(enemies: &Vec<MasterRow>) -> (r: Vec<i32>)
    requires
        enemies_readable(rows_view(enemies@)),
    ensures
        r@ == first_enemies(rows_view(enemies@)),
{
    let ghost ev = rows_view(enemies@);
    let mut out: Vec<i32> = Vec::new();
    let mut j: usize = 0;
    while j < enemies.len() && j < 3
        invariant
            j <= enemies@.len(),
            j <= 3,
            ev == rows_view(enemies@),
            enemies_readable(ev),
            out@ == ids_of_key(ev.take(j as int), "enemy_id"@),
        decreases 3 - j,
    {
        assert(ev[j as int] == enemies@[j as int]@);
        assert(field_i32(ev[j as int], "enemy_id"@) is Some);
        let id = match enemies[j].get_i32("enemy_id") {
            Some(v) => v,
            None => 0,
        };
        out.push(id);
        assert(out@ =~= ids_of_key(ev.take(j + 1), "enemy_id"@));
        j = j + 1;
    }
    assert(ev.take(j as int) =~= first_n(ev, 3));
    out
}

/// What starting an area reads: the area; its stages where the area is there; the first
/// stage's id and the first enemies where a stage is there.
pub open spec fn challenge_readable(areas: Seq<FieldsView>, stages: Seq<FieldsView>, enemies: Seq<FieldsView>, area_id: i32) -> bool {
    &&& area_readable(areas, area_id)
    &&& has_first(areas, area_id) ==> first_where_findable(stages, "area_id"@, area_id)
    &&& has_first(areas, area_id) && has_first_where(stages, "area_id"@, area_id) ==> {
        &&& field_i32(stages[first_where(stages, "area_id"@, area_id)], "id"@) is Some
        &&& enemies_readable(enemies)
    }
}

/// Taking on an area: its first stage, not yet challenged, with the first enemies of the
/// master at full health, and the area's party.
pub fn dungeon_area_challenge(
    areas: &Vec<MasterRow>,
    stages: &Vec<MasterRow>,
    enemies: &Vec<MasterRow>,
    request: &DungeonAreaChallengeRequest,
    members: &Vec<i32>,
    party_members: Vec<PartyMember>,
) -> (r: Result<DungeonAreaChallengeResponse, DungeonError>)
    requires
        challenge_readable(rows_view(areas@), rows_view(stages@), rows_view(enemies@), request.area_id),
    ensures
        r is Ok <==> has_first(rows_view(areas@), request.area_id) && has_first_where(rows_view(stages@), "area_id"@, request.area_id),
        r matches Err(e) ==> (e == DungeonError::InvalidAreaId <==> !has_first(rows_view(areas@), request.area_id))
            && (e == DungeonError::InvalidAreaId || e == DungeonError::NoStages),
        r matches Ok(c) ==> {
            let sv = rows_view(stages@);
            &&& Some(c.stage_state.stage_id) == field_i32(sv[first_where(sv, "area_id"@, request.area_id)], "id"@)
            &&& !c.stage_state.is_challenge
            &&& c.stage_state.enemies@.len() == first_enemies(rows_view(enemies@)).len()
            &&& forall|k: int| 0 <= k < c.stage_state.enemies@.len() ==> #[trigger] c.stage_state.enemies@[k]
                == (DungeonStageEnemyState { enemy_id: first_enemies(rows_view(enemies@))[k], current_hp: 100 })
            &&& party_set_of(c.party_set, members@, party_members@, area_member_count(rows_view(areas@), request.area_id))
        },
{
    let n = area_member_num(areas, request.area_id)?;
    let at = match find_first_where(stages, "area_id", request.area_id) {
        Some(i) => i,
        None => {
            return Err(DungeonError::NoStages);
        },
    };
    assert(rows_view(stages@)[at as int] == stages@[at as int]@);
    let stage_id = match stages[at].get_i32("id") {
        Some(v) => v,
        None => 0,
    };
    let ids = first_enemy_ids(enemies);
    let mut states: Vec<DungeonStageEnemyState> = Vec::new();
    let mut k: usize = 0;
    while k < ids.len()
        invariant
            k <= ids@.len(),
            states@.len() == k,
            forall|j: int| 0 <= j < k ==> #[trigger] states@[j] == (DungeonStageEnemyState { enemy_id: ids@[j], current_hp: 100 }),
        decreases ids@.len() - k,
    {
        states.push(DungeonStageEnemyState { enemy_id: ids[k], current_hp: 100 });
        k = k + 1;
    }
    Ok(DungeonAreaChallengeResponse {
        stage_state: DungeonStageState { stage_id, is_challenge: false, enemies: states },
        party_set: dungeon_party_set(members, party_members, n),
    })
}

/// The areas of a dungeon, each cleared at rank 2 and open; four extra tries bought of four.
pub fn dungeon_top(areas: &Vec<MasterRow>, request: &DungeonTopRequest) -> (r: DungeonTopResponse)
    requires
        where_readable(rows_view(areas@), "dungeon_id"@, request.dungeon_id),
    ensures
        r.challenging_area_id == 0,
        r.area_info_list@.len() == ids_where(rows_view(areas@), "dungeon_id"@, request.dungeon_id).len(),
        forall|k: int| 0 <= k < r.area_info_list@.len() ==> #[trigger] r.area_info_list@[k] == (DungeonAreaInfo {
            area_id: ids_where(rows_view(areas@), "dungeon_id"@, request.dungeon_id)[k],
            clear_rank: 2,
            is_challengeable: true,
        }),
        r.challenge_count_info == (DungeonChallengeCountInfo { bought_count: 4, available_buy_count: 4 }),
        r.has_new_dungeon,
{
    let ids = ids_where_exec(areas, "dungeon_id", request.dungeon_id);
    let mut infos: Vec<DungeonAreaInfo> = Vec::new();
    let mut k: usize = 0;
    while k < ids.len()
        invariant
            k <= ids@.len(),
            infos@.len() == k,
            forall|j: int| 0 <= j < k ==> #[trigger] infos@[j] == (DungeonAreaInfo { area_id: ids@[j], clear_rank: 2, is_challengeable: true }),
        decreases ids@.len() - k,
    {
        infos.push(DungeonAreaInfo { area_id: ids[k], clear_rank: 2, is_challengeable: true });
        k = k + 1;
    }
    DungeonTopResponse {
        challenging_area_id: 0,
        area_info_list: infos,
        challenge_count_info: DungeonChallengeCountInfo { bought_count: 4, available_buy_count: 4 },
        has_new_dungeon: true,
    }
}

/// The dungeons: the first as the current one, every one as a regular dungeon, each new and
/// not completed; two extra tries bought of two.
pub fn dungeon_list(dungeons: &Vec<MasterRow>) -> (r: DungeonListResponse)
    requires
        dungeons@.len() > 0,
        keys_readable(rows_view(dungeons@), "id"@),
    ensures
        r.dungeon == (DungeonInfo { dungeon_id: ids_of(rows_view(dungeons@))[0], is_completed: false, is_new: true }),
        r.regular_dungeons.dungeon_list@.len() == dungeons@.len(),
        forall|k: int| 0 <= k < dungeons@.len() ==> #[trigger] r.regular_dungeons.dungeon_list@[k]
            == (DungeonInfo { dungeon_id: ids_of(rows_view(dungeons@))[k], is_completed: false, is_new: true }),
        r.regular_dungeons.challenge_count_info == (DungeonChallengeCountInfo { bought_count: 2, available_buy_count: 2 }),
{
    let ghost dv = rows_view(dungeons@);
    let mut list: Vec<DungeonInfo> = Vec::new();
    let mut k: usize = 0;
    while k < dungeons.len()
        invariant
            k <= dungeons@.len(),
            dv == rows_view(dungeons@),
            keys_readable(dv, "id"@),
            list@.len() == k,
            forall|j: int| 0 <= j < k ==> #[trigger] list@[j] == (DungeonInfo { dungeon_id: ids_of(dv)[j], is_completed: false, is_new: true }),
        decreases dungeons@.len() - k,
    {
        assert(dv[k as int] == dungeons@[k as int]@);
        assert(field_i32(dv[k as int], "id"@) is Some);
        let id = match dungeons[k].get_i32("id") {
            Some(v) => v,
            None => 0,
        };
        list.push(DungeonInfo { dungeon_id: id, is_completed: false, is_new: true });
        k = k + 1;
    }
    let first = list[0].dungeon_id;
    DungeonListResponse {
        dungeon: DungeonInfo { dungeon_id: first, is_completed: false, is_new: true },
        regular_dungeons: RegularDungeonsInfo {
            dungeon_list: list,
            challenge_count_info: DungeonChallengeCountInfo { bought_count: 2, available_buy_count: 2 },
        },
    }
}

/// An area's top screen: stage 1101 not challenged, an empty party, cleared at rank 3 with ten
/// thousand paid gems, every benefit of the master still to choose, ten redraws.
pub fn dungeon_area_top(benefits: &Vec<MasterRow>, request: &DungeonAreaTopRequest) -> (r: DungeonAreaTopResponse)
    requires
        keys_readable(rows_view(benefits@), "id"@),
    ensures
        !r.is_practice,
        r.stage_state.stage_id == 1101,
        !r.stage_state.is_challenge,
        r.stage_state.enemies@.len() == 0,
        party_set_of(r.party_set, Seq::empty(), Seq::empty(), 0),
        r.clear_info.clear_rank == 3,
        r.clear_info.reward_items@ == seq![DungeonAreaClearRewardInfo {
            item_type: item_type_code(RemoteDataItemType::RealMoney),
            item_id: 1,
            item_num: 10000,
        }],
        r.unchoosed_benefit_id_list@ == ids_of(rows_view(benefits@)),
        r.benefit_re_lottery_count == 10,
        r.is_allow_trial,
{
    let ghost bv = rows_view(benefits@);
    let mut ids: Vec<i32> = Vec::new();
    let mut k: usize = 0;
    while k < benefits.len()
        invariant
            k <= benefits@.len(),
            bv == rows_view(benefits@),
            keys_readable(bv, "id"@),
            ids@ == ids_of(bv.take(k as int)),
        decreases benefits@.len() - k,
    {
        assert(bv[k as int] == benefits@[k as int]@);
        assert(field_i32(bv[k as int], "id"@) is Some);
        let id = match benefits[k].get_i32("id") {
            Some(v) => v,
            None => 0,
        };
        ids.push(id);
        assert(ids@ =~= ids_of(bv.take(k + 1)));
        k = k + 1;
    }
    assert(bv.take(benefits@.len() as int) =~= bv);
    let no_members: Vec<i32> = Vec::new();
    let reward = vec![DungeonAreaClearRewardInfo { item_type: RemoteDataItemType::RealMoney.code(), item_id: 1, item_num: 10000 }];
    let r = DungeonAreaTopResponse {
        is_practice: false,
        stage_state: DungeonStageState { stage_id: 1101, is_challenge: false, enemies: Vec::new() },
        party_set: dungeon_party_set(&no_members, Vec::new(), 0),
        clear_info: DungeonAreaClearInfo { clear_rank: 3, reward_items: reward },
        unchoosed_benefit_id_list: ids,
        benefit_re_lottery_count: 10,
        is_allow_trial: true,
    };
    assert(r.clear_info.reward_items@ =~= seq![DungeonAreaClearRewardInfo {
        item_type: item_type_code(RemoteDataItemType::RealMoney),
        item_id: 1,
        item_num: 10000,
    }]);
    r
}

/// Skipping an area gives one reward: stage one, 500 experience, 1000 money and five thousand
/// paid gems.
pub fn dungeon_area_skip(request: &DungeonAreaSkipRequest) -> (r: DungeonAreaSkipResponse)
    ensures
        r.reward@ == seq![BattleSkipReward {
            dropnum: 1,
            exp: 500,
            money: 1000,
            itemtype: item_type_code(RemoteDataItemType::RealMoney),
            itemid: 1,
            itemnum: 5000,
        }],
{
    let r = DungeonAreaSkipResponse {
        reward: vec![BattleSkipReward {
            dropnum: 1,
            exp: 500,
            money: 1000,
            itemtype: RemoteDataItemType::RealMoney.code(),
            itemid: 1,
            itemnum: 5000,
        }],
    };
    assert(r.reward@ =~= seq![BattleSkipReward {
        dropnum: 1,
        exp: 500,
        money: 1000,
        itemtype: item_type_code(RemoteDataItemType::RealMoney),
        itemid: 1,
        itemnum: 5000,
    }]);
    r
}

/// Form `k` (from 0) of a dungeon battle party: the member at that place, or none.
pub open spec fn battle_form(f: BasicBattlePartyForm, k: int, members: Seq<i32>) -> bool {
    &&& f.party_no == 1
    &&& f.id == 1
    &&& f.form_no == k + 1
    &&& f.main == (if k < members.len() { members[k] } else { 0 })
    &&& f.sub1 == 0 && f.sub2 == 0 && f.weapon == 0 && f.acc == 0 && f.skill_pa_fame == 0
}

fn battle_form_at(members: &Vec<i32>, k: usize) -> (r: BasicBattlePartyForm)
    requires
        k < 5,
    ensures
        battle_form(r, k as int, members@),
{
    let main = if k < members.len() { members[k] } else { 0 };
    BasicBattlePartyForm {
        party_no: 1,
        id: 1,
        form_no: (k + 1) as i32,
        main,
        sub1: 0,
        sub2: 0,
        weapon: 0,
        acc: 0,
        skill_pa_fame: 0,
    }
}

/// What starting a dungeon battle reads: the stage; its area where the stage is there; the
/// first enemies where both are there.
pub open spec fn battle_start_readable(areas: Seq<FieldsView>, stages: Seq<FieldsView>, enemies: Seq<FieldsView>, stage_id: i32) -> bool {
    &&& first_findable(stages, stage_id)
    &&& has_first(stages, stage_id) ==> field_i32(stages[first_with(stages, stage_id)], "area_id"@) is Some
        && first_findable(areas, field_i32(stages[first_with(stages, stage_id)], "area_id"@).unwrap())
    &&& has_first(stages, stage_id) && has_first(areas, field_i32(stages[first_with(stages, stage_id)], "area_id"@).unwrap())
        ==> enemies_readable(enemies)
}

/// Starting a dungeon battle: three chests, a party of five forms filled with the user's
/// members, the first five of them fighting at full health in the first form, the first
/// enemies of the master at full health.
pub fn dungeon_battle_start(
    areas: &Vec<MasterRow>,
    stages: &Vec<MasterRow>,
    enemies: &Vec<MasterRow>,
    request: &DungeonBattleStartRequest,
    members: &Vec<i32>,
    battle_members: Vec<DungeonBattleMember>,
) -> (r: Result<DungeonBattleStartResponse, DungeonError>)
    requires
        battle_start_readable(rows_view(areas@), rows_view(stages@), rows_view(enemies@), request.stage_id),
    ensures
        ({
            let sv = rows_view(stages@);
            let area_id = field_i32(sv[first_with(sv, request.stage_id)], "area_id"@).unwrap();
            &&& r is Ok <==> has_first(sv, request.stage_id) && has_first(rows_view(areas@), area_id)
            &&& r matches Err(e) ==> (e == DungeonError::InvalidStageId <==> !has_first(sv, request.stage_id))
                && (e == DungeonError::InvalidStageId || e == DungeonError::InvalidAreaId)
        }),
        r matches Ok(b) ==> {
            &&& b.chest@ == "10101111,10101120,10101131"@
            &&& forall|k: int| 0 <= k < 5 ==> battle_form(#[trigger] b.party.party_forms@[k], k, members@)
            &&& b.party.assist == 0
            &&& b.party.sub_assists@.len() == 0
            &&& b.party.party_passive_skill == (PartyPassiveSkillInfo { skill_id: 0, user_member_id: 0 })
            &&& b.members@ == first_n(battle_members@, 5)
            &&& b.resume_info@ == Seq::<char>::empty()
            &&& b.livemembers@.len() == first_n(members@, 5).len()
            &&& forall|k: int| 0 <= k < b.livemembers@.len() ==> #[trigger] b.livemembers@[k]
                == (DungeonBattleLiveMember { id: members@[k], hp: 100, form_no: 1 })
            &&& b.benefit_id_list@.len() == 0
            &&& b.enemy_info@.len() == first_enemies(rows_view(enemies@)).len()
            &&& forall|k: int| 0 <= k < b.enemy_info@.len() ==> #[trigger] b.enemy_info@[k]
                == (DungeonEnemyInfo { enemy_id: first_enemies(rows_view(enemies@))[k] as i64, current_hp: 100 })
            &&& b.hp_increase == 0
        },
{
    let at = match find_first_with_id(stages, request.stage_id) {
        Some(i) => i,
        None => {
            return Err(DungeonError::InvalidStageId);
        },
    };
    assert(rows_view(stages@)[at as int] == stages@[at as int]@);
    let area_id = match stages[at].get_i32("area_id") {
        Some(v) => v,
        None => 0,
    };
    match find_first_with_id(areas, area_id) {
        Some(_) => {},
        None => {
            return Err(DungeonError::InvalidAreaId);
        },
    }
    let ids = first_enemy_ids(enemies);
    let mut enemy_info: Vec<DungeonEnemyInfo> = Vec::new();
    let mut k: usize = 0;
    while k < ids.len()
        invariant
            k <= ids@.len(),
            enemy_info@.len() == k,
            forall|j: int| 0 <= j < k ==> #[trigger] enemy_info@[j] == (DungeonEnemyInfo { enemy_id: ids@[j] as i64, current_hp: 100 }),
        decreases ids@.len() - k,
    {
        enemy_info.push(DungeonEnemyInfo { enemy_id: ids[k] as i64, current_hp: 100 });
        k = k + 1;
    }
    let mut live: Vec<DungeonBattleLiveMember> = Vec::new();
    let mut k: usize = 0;
    while k < members.len() && k < 5
        invariant
            k <= members@.len(),
            k <= 5,
            live@.len() == k,
            forall|j: int| 0 <= j < k ==> #[trigger] live@[j] == (DungeonBattleLiveMember { id: members@[j], hp: 100, form_no: 1 }),
        decreases 5 - k,
    {
        live.push(DungeonBattleLiveMember { id: members[k], hp: 100, form_no: 1 });
        k = k + 1;
    }
    let f0 = battle_form_at(members, 0);
    let f1 = battle_form_at(members, 1);
    let f2 = battle_form_at(members, 2);
    let f3 = battle_form_at(members, 3);
    let f4 = battle_form_at(members, 4);
    let forms = [f0, f1, f2, f3, f4];
    assert(forms@ =~= seq![f0, f1, f2, f3, f4]);
    assert(forall|k: int| 0 <= k < 5 ==> battle_form(#[trigger] forms@[k], k, members@));
    assert(live@.len() == first_n(members@, 5).len());
    let mut battle_members = battle_members;
    battle_members.truncate(5);
    let b = DungeonBattleStartResponse {
        chest: String::from_str("10101111,10101120,10101131"),
        party: BattleParty {
            party_forms: forms,
            assist: 0,
            sub_assists: Vec::new(),
            party_passive_skill: PartyPassiveSkillInfo::new(0, 0),
        },
        members: battle_members,
        resume_info: String::new(),
        livemembers: live,
        benefit_id_list: Vec::new(),
        enemy_info,
        hp_increase: 0,
    };
    Ok(b)
}

/// The dungeon state: the player is in no area.
pub fn dungeon_status() -> (r: CallResponse<DungeonStatusResponse>)
    ensures
        r.status == 0,
        r.remote@.len() == 0 && r.notifications@.len() == 0,
        r.custom.area_id == 0,
{
    CallResponse::new_success(DungeonStatusResponse { area_id: 0 })
}

} // verus!
