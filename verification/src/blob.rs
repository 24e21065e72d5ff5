//! Remote data: how user parameters (items, members, characters, ...) are written for the client,
//! and the full set of them that a login sends.

use vstd::prelude::*;

use crate::api::{
    item_type_code, CharacterParameter, MemberParameter, RemoteData, RemoteDataCommand,
    RemoteDataItemType, SpSkill,
};
use crate::level::LevelCalculator;
use crate::master::{field_i32, field_i64, rows_view, FieldsView, MasterRow};

verus! {

/// A remote-data entry with the fields every builder here shares:
/// no `uid`, no member or character parameter, no trial flag.
pub open spec fn plain_entry(
    cmd: i32,
    item_type: i32,
    item_id: i64,
    item_num: i32,
    uniqid: i32,
    lv: i32,
    tag: Seq<char>,
    r: RemoteData,
) -> bool {
    &&& r.cmd == cmd
    &&& r.uid is None
    &&& r.item_type == item_type
    &&& r.item_id == item_id
    &&& r.item_num == item_num
    &&& r.uniqid == uniqid
    &&& r.lv == lv
    &&& r.tag@ == tag
    &&& r.member_parameter is None
    &&& r.character_parameter is None
    &&& r.is_trial is None
}

/// Something that becomes remote data for the client.
pub trait IntoRemoteData: Sized {
    fn into_remote_data(self) -> Vec<RemoteData>;
}

fn entry(cmd: RemoteDataCommand, item_type: i32, item_id: i64, item_num: i32, uniqid: i32, lv: i32, tag: String) -> (r: RemoteData)
    ensures
        plain_entry(cmd.spec_code(), item_type, item_id, item_num, uniqid, lv, tag@, r),
{
    RemoteData::new(cmd.code(), item_type, item_id, item_num, uniqid, lv, tag)
}

/// A piece of equipment the user owns: a weapon or an accessory.
pub struct AddEquipment {
    pub item_type: RemoteDataItemType,
    pub item_id: i64,
    pub unique_id: i32,
    pub is_locked: bool,
}

impl AddEquipment {
    /// Only equipment, weapons and accessories, may be added this way.
    pub fn new(item_type: RemoteDataItemType, item_id: i64, unique_id: i32, is_locked: bool) -> (r: Self)
        requires
            is_equipment_type(item_type),
        ensures
            r == (AddEquipment { item_type, item_id, unique_id, is_locked }),
    {
        Self { item_type, item_id, unique_id, is_locked }
    }
}

impl IntoRemoteData for AddEquipment {
    fn into_remote_data(self) -> (r: Vec<RemoteData>)
        ensures
            r@.len() == 1,
            plain_entry(
                1,
                item_type_code(self.item_type),
                self.item_id,
                1,
                self.unique_id,
                0,
                if self.is_locked { "lock:1"@ } else { ""@ },
                r@[0],
            ),
    {
        let tag = if self.is_locked {
            String::from_str("lock:1")
        } else {
            String::from_str("")
        };
        vec![entry(RemoteDataCommand::UserParamNew, self.item_type.code(), self.item_id, 1, self.unique_id, 0, tag)]
    }
}

pub struct AddMemberBackground {
    pub unique_id: i32,
    pub background_id: i64,
}

impl AddMemberBackground {
    pub fn new(unique_id: i32, background_id: i64) -> (r: Self)
        ensures
            r == (AddMemberBackground { unique_id, background_id }),
    {
        Self { unique_id, background_id }
    }
}

impl IntoRemoteData for AddMemberBackground {
    fn into_remote_data(self) -> (r: Vec<RemoteData>)
        ensures
            r@.len() == 1,
            plain_entry(4, 24, self.background_id, 1, self.unique_id, 0, "-"@, r@[0]),
    {
        vec![entry(
            RemoteDataCommand::UserParamAdd,
            RemoteDataItemType::MemberBackground.code(),
            self.background_id,
            1,
            self.unique_id,
            0,
            String::from_str("-"),
        )]
    }
}

pub struct AddMemberCostume {
    pub unique_id: i32,
    pub costume_id: i64,
}

impl AddMemberCostume {
    pub fn new(unique_id: i32, costume_id: i64) -> (r: Self)
        ensures
            r == (AddMemberCostume { unique_id, costume_id }),
    {
        Self { unique_id, costume_id }
    }
}

impl IntoRemoteData for AddMemberCostume {
    fn into_remote_data(self) -> (r: Vec<RemoteData>)
        ensures
            r@.len() == 1,
            plain_entry(4, 14, self.costume_id, 1, self.unique_id, 0, "useflag:0"@, r@[0]),
    {
        vec![entry(
            RemoteDataCommand::UserParamAdd,
            RemoteDataItemType::MemberCostume.code(),
            self.costume_id,
            1,
            self.unique_id,
            0,
            String::from_str("useflag:0"),
        )]
    }
}

pub struct AddItem {
    pub item_type: RemoteDataItemType,
    pub unique_id: i32,
    pub item_id: i64,
    pub item_num: i32,
}

impl AddItem {
    pub fn new(item_type: RemoteDataItemType, unique_id: i32, item_id: i64, item_num: i32) -> (r: Self)
        ensures
            r == (AddItem { item_type, unique_id, item_id, item_num }),
    {
        Self { item_type, unique_id, item_id, item_num }
    }
}

impl IntoRemoteData for AddItem {
    fn into_remote_data(self) -> (r: Vec<RemoteData>)
        ensures
            r@.len() == 1,
            plain_entry(4, item_type_code(self.item_type), self.item_id, self.item_num, self.unique_id, 0, "-"@, r@[0]),
    {
        vec![entry(
            RemoteDataCommand::UserParamAdd,
            self.item_type.code(),
            self.item_id,
            self.item_num,
            self.unique_id,
            0,
            String::from_str("-"),
        )]
    }
}

pub struct UpdateItem {
    pub item_type: RemoteDataItemType,
    pub unique_id: i32,
    pub item_id: i64,
    pub item_num: i32,
}

impl UpdateItem {
    pub fn new(item_type: RemoteDataItemType, unique_id: i32, item_id: i64, item_num: i32) -> (r: Self)
        ensures
            r == (UpdateItem { item_type, unique_id, item_id, item_num }),
    {
        Self { item_type, unique_id, item_id, item_num }
    }
}

impl IntoRemoteData for UpdateItem {
    fn into_remote_data(self) -> (r: Vec<RemoteData>)
        ensures
            r@.len() == 1,
            plain_entry(5, item_type_code(self.item_type), self.item_id, self.item_num, self.unique_id, 0, "-"@, r@[0]),
    {
        vec![entry(
            RemoteDataCommand::UserParamUpdate,
            self.item_type.code(),
            self.item_id,
            self.item_num,
            self.unique_id,
            0,
            String::from_str("-"),
        )]
    }
}

/// Singleton items have no `item_id` and `uniqid` set.
pub struct AddSingletonItem {
    pub item_type: RemoteDataItemType,
    pub item_num: i32,
}

impl AddSingletonItem {
    pub fn new(item_type: RemoteDataItemType, item_num: i32) -> (r: Self)
        ensures
            r == (AddSingletonItem { item_type, item_num }),
    {
        Self { item_type, item_num }
    }
}

impl IntoRemoteData for AddSingletonItem {
    fn into_remote_data(self) -> (r: Vec<RemoteData>)
        ensures
            r@.len() == 1,
            plain_entry(4, item_type_code(self.item_type), 0, self.item_num, 0, 0, "-"@, r@[0]),
    {
        vec![entry(RemoteDataCommand::UserParamAdd, self.item_type.code(), 0, self.item_num, 0, 0, String::from_str("-"))]
    }
}

/// A member entry: the member's parameters travel with it.
pub open spec fn member_entry(cmd: i32, p: MemberParameter, tag: Seq<char>, r: RemoteData) -> bool {
    &&& r.cmd == cmd
    &&& r.uid is None
    &&& r.item_type == 4
    &&& r.item_id == p.member_id
    &&& r.item_num == 1
    &&& r.uniqid == p.id
    &&& r.lv == p.lv
    &&& r.tag@ == tag
    &&& r.member_parameter == Some(p)
    &&& r.character_parameter is None
    &&& r.is_trial is None
}

fn member_remote(cmd: RemoteDataCommand, p: MemberParameter, tag: String) -> (r: RemoteData)
    ensures
        member_entry(cmd.spec_code(), p, tag@, r),
{
    let member_id = p.member_id;
    let id = p.id;
    let lv = p.lv;
    RemoteData {
        cmd: cmd.code(),
        uid: None,
        item_type: RemoteDataItemType::Member.code(),
        item_id: member_id,
        item_num: 1,
        uniqid: id,
        lv,
        tag,
        member_parameter: Some(p),
        character_parameter: None,
        is_trial: None,
    }
}

pub struct AddMember {
    pub member_parameter: MemberParameter,
    pub tag: String,
}

impl AddMember {
    /// `tag` is "front" for a playable member, "back" for a reserve one.
    pub fn new(member_parameter: MemberParameter, tag: &str) -> (r: Self)
        ensures
            r.member_parameter == member_parameter,
            r.tag@ == tag@,
    {
        Self { member_parameter, tag: tag.to_owned() }
    }
}

impl IntoRemoteData for AddMember {
    fn into_remote_data(self) -> (r: Vec<RemoteData>)
        ensures
            r@.len() == 1,
            member_entry(4, self.member_parameter, self.tag@, r@[0]),
    {
        vec![member_remote(RemoteDataCommand::UserParamAdd, self.member_parameter, self.tag)]
    }
}

pub struct UpdateMember {
    pub member_parameter: MemberParameter,
}

impl UpdateMember {
    pub fn new(member_parameter: MemberParameter) -> (r: Self)
        ensures
            r.member_parameter == member_parameter,
    {
        Self { member_parameter }
    }
}

impl IntoRemoteData for UpdateMember {
    /// The tag is always "front": otherwise the client does not list the member.
    fn into_remote_data(self) -> (r: Vec<RemoteData>)
        ensures
            r@.len() == 1,
            member_entry(5, self.member_parameter, "front"@, r@[0]),
    {
        vec![member_remote(RemoteDataCommand::UserParamUpdate, self.member_parameter, String::from_str("front"))]
    }
}

pub struct DeleteMember {
    pub id: i64,
    pub member_id: i64,
}

impl DeleteMember {
    pub fn new(id: i64, member_id: i64) -> (r: Self)
        ensures
            r == (DeleteMember { id, member_id }),
    {
        Self { id, member_id }
    }
}

impl IntoRemoteData for DeleteMember {
    /// The unique id travels as an `i32`, wrapped as `as` wraps it.
    fn into_remote_data(self) -> (r: Vec<RemoteData>)
        ensures
            r@.len() == 1,
            plain_entry(2, 4, self.member_id, 1, self.id as i32, 0, "back"@, r@[0]),
    {
        #[verifier::truncate]
        let uniqid = self.id as i32;
        vec![entry(RemoteDataCommand::UserParamDelete, RemoteDataItemType::Member.code(), self.member_id, 1, uniqid, 0, String::from_str("back"))]
    }
}

/// Unlocks character stories, also needed for `AddMember`.
pub struct AddCharacter {
    pub unique_id: i32,
    pub character_parameter: CharacterParameter,
}

impl AddCharacter {
    pub fn new(unique_id: i32, character_parameter: CharacterParameter) -> (r: Self)
        ensures
            r.unique_id == unique_id,
            r.character_parameter == character_parameter,
    {
        Self { unique_id, character_parameter }
    }
}

impl IntoRemoteData for AddCharacter {
    fn into_remote_data(self) -> (r: Vec<RemoteData>)
        ensures
            r@.len() == 1,
            r@[0].cmd == 4,
            r@[0].uid is None,
            r@[0].item_type == 11,
            r@[0].item_id == self.character_parameter.character_id,
            r@[0].item_num == 1,
            r@[0].uniqid == self.unique_id,
            r@[0].lv == 1,
            r@[0].tag@ == ""@,
            r@[0].member_parameter is None,
            r@[0].character_parameter == Some(self.character_parameter),
            r@[0].is_trial is None,
    {
        let character_id = self.character_parameter.character_id;
        vec![RemoteData {
            cmd: RemoteDataCommand::UserParamAdd.code(),
            uid: None,
            item_type: RemoteDataItemType::Character.code(),
            item_id: character_id,
            item_num: 1,
            uniqid: self.unique_id,
            lv: 1,
            tag: String::from_str(""),
            member_parameter: None,
            character_parameter: Some(self.character_parameter),
            is_trial: None,
        }]
    }
}

/// Clears every user parameter the client holds.
pub struct ClearUserParams;

impl IntoRemoteData for ClearUserParams {
    fn into_remote_data(self) -> (r: Vec<RemoteData>)
        ensures
            r@.len() == 1,
            plain_entry(3, 0, 0, 0, 0, 0, "-"@, r@[0]),
    {
        vec![entry(RemoteDataCommand::UserParamClear, 0, 0, 0, 0, 0, String::from_str("-"))]
    }
}

// ------------------------------------------------------------------------------------------
// The user's characters, as a login sends them
// ------------------------------------------------------------------------------------------

/// A character of the user, joined with one of its special skills where it has any.
#[derive(Debug, Clone, Copy)]
pub struct CharacterSkillRow {
    pub character_id: i64,
    pub intimacy: i32,
    pub skill_id: Option<i64>,
    pub skill_level: Option<i32>,
}

/// The group of a special skill in the `skill_sp` master: the last pair that names it, as a
/// map built from the pairs in order holds it.
pub open spec fn skill_group(groups: Seq<(i64, i32)>, skill_id: i64) -> Option<i32>
    decreases groups.len(),
{
    if groups.len() == 0 {
        None
    } else if groups.last().0 == skill_id {
        Some(groups.last().1)
    } else {
        skill_group(groups.drop_last(), skill_id)
    }
}

pub fn find_skill_group(groups: &Vec<(i64, i32)>, skill_id: i64) -> (r: Option<i32>)
    ensures
        r == skill_group(groups@, skill_id),
{
    let mut i: usize = groups.len();
    assert(groups@.subrange(0, i as int) =~= groups@);
    while i > 0
        invariant
            i <= groups@.len(),
            skill_group(groups@, skill_id) == skill_group(groups@.subrange(0, i as int), skill_id),
        decreases i,
    {
        let ghost pre = groups@.subrange(0, i as int);
        assert(pre.drop_last() =~= groups@.subrange(0, i - 1));
        if groups[i - 1].0 == skill_id {
            return Some(groups[i - 1].1);
        }
        i = i - 1;
    }
    None
}

/// A row that carries a special skill: both the skill and its level.
pub open spec fn has_skill(r: CharacterSkillRow) -> bool {
    r.skill_id is Some && r.skill_level is Some
}

/// Every skill the rows carry has a group.
pub open spec fn skills_grouped(rows: Seq<CharacterSkillRow>, groups: Seq<(i64, i32)>) -> bool {
    forall|i: int| 0 <= i < rows.len() && has_skill(#[trigger] rows[i]) ==> skill_group(groups, rows[i].skill_id.unwrap()) is Some
}

/// The characters of the rows, each with the intimacy of the first row that names it, in
/// the order the rows first name them.
pub open spec fn character_firsts(rows: Seq<CharacterSkillRow>) -> Seq<(i64, i32)>
    decreases rows.len(),
{
    if rows.len() == 0 {
        seq![]
    } else {
        let prev = character_firsts(rows.drop_last());
        if prev.map_values(|p: (i64, i32)| p.0).contains(rows.last().character_id) {
            prev
        } else {
            prev.push((rows.last().character_id, rows.last().intimacy))
        }
    }
}

/// The special skills the rows give a character, in row order.
pub open spec fn character_skills(rows: Seq<CharacterSkillRow>, groups: Seq<(i64, i32)>, id: i64) -> Seq<SpSkill>
    decreases rows.len(),
{
    if rows.len() == 0 {
        seq![]
    } else {
        let prev = character_skills(rows.drop_last(), groups, id);
        let r = rows.last();
        if r.character_id == id && has_skill(r) {
            prev.push(SpSkill {
                group_id: skill_group(groups, r.skill_id.unwrap()).unwrap(),
                id: r.skill_id.unwrap(),
                lv: r.skill_level.unwrap(),
                is_trial: false,
            })
        } else {
            prev
        }
    }
}

/// The parameters a login gives the character `id`, first seen with `intimacy`: the
/// intimacy as its rank, the level of that intimacy as its progress, its special skills,
/// and the fixed enhancement and piece-board stages.
pub open spec fn login_character(
    p: CharacterParameter,
    rows: Seq<CharacterSkillRow>,
    groups: Seq<(i64, i32)>,
    levels: LevelCalculator,
    id: i64,
    intimacy: i32,
) -> bool {
    &&& p.id == id
    &&& p.character_id == id
    &&& p.rank == intimacy
    &&& p.rank_progress == levels.level_spec(intimacy as int)
    &&& p.sp_skill@ == character_skills(rows, groups, id)
    &&& p.character_enhance_stage_id_list@ == seq![0i32, 0, 0, 0]
    &&& p.character_piece_board_stage_id_list@ == seq![100001001i32, 100002002, 100003003, 100004004]
    &&& !p.is_trial
}

fn contains_character(firsts: &Vec<(i64, i32)>, id: i64) -> (r: bool)
    ensures
        r == firsts@.map_values(|p: (i64, i32)| p.0).contains(id),
{
    let mut i: usize = 0;
    while i < firsts.len()
        invariant
            i <= firsts@.len(),
            forall|k: int| 0 <= k < i ==> firsts@[k].0 != id,
        decreases firsts@.len() - i,
    {
        if firsts[i].0 == id {
            assert(firsts@.map_values(|p: (i64, i32)| p.0)[i as int] == id);
            return true;
        }
        i = i + 1;
    }
    proof {
        if firsts@.map_values(|p: (i64, i32)| p.0).contains(id) {
            let ids = firsts@.map_values(|p: (i64, i32)| p.0);
            let k = choose|k: int| 0 <= k < ids.len() && #[trigger] ids[k] == id;
            assert(firsts@[k].0 == id);
        }
    }
    false
}

/// The characters of the rows, each with the intimacy it is first seen with.
pub fn character_firsts_of(rows: &Vec<CharacterSkillRow>) -> (r: Vec<(i64, i32)>)
    ensures
        r@ == character_firsts(rows@),
{
    let mut firsts: Vec<(i64, i32)> = Vec::new();
    let mut i: usize = 0;
    while i < rows.len()
        invariant
            i <= rows@.len(),
            firsts@ == character_firsts(rows@.subrange(0, i as int)),
        decreases rows@.len() - i,
    {
        assert(rows@.subrange(0, i + 1).drop_last() =~= rows@.subrange(0, i as int));
        let row = rows[i];
        if !contains_character(&firsts, row.character_id) {
            firsts.push((row.character_id, row.intimacy));
        }
        i = i + 1;
    }
    assert(rows@.subrange(0, rows@.len() as int) =~= rows@);
    firsts
}

/// The special skills the rows give the character `id`.
pub fn character_skills_of(rows: &Vec<CharacterSkillRow>, groups: &Vec<(i64, i32)>, id: i64) -> (r: Vec<SpSkill>)
    requires
        skills_grouped(rows@, groups@),
    ensures
        r@ == character_skills(rows@, groups@, id),
{
    let mut skills: Vec<SpSkill> = Vec::new();
    let mut i: usize = 0;
    while i < rows.len()
        invariant
            i <= rows@.len(),
            skills_grouped(rows@, groups@),
            skills@ == character_skills(rows@.subrange(0, i as int), groups@, id),
        decreases rows@.len() - i,
    {
        assert(rows@.subrange(0, i + 1).drop_last() =~= rows@.subrange(0, i as int));
        let row = rows[i];
        if row.character_id == id {
            match (row.skill_id, row.skill_level) {
                (Some(skill_id), Some(lv)) => {
                    assert(has_skill(rows@[i as int]));
                    let group_id = find_skill_group(groups, skill_id).unwrap();
                    skills.push(SpSkill { group_id, id: skill_id, lv, is_trial: false });
                },
                _ => {},
            }
        }
        i = i + 1;
    }
    assert(rows@.subrange(0, rows@.len() as int) =~= rows@);
    skills
}

/// The remote data for the user's characters: one `AddCharacter` per character, in the
/// order the rows first name them, its unique id the character id.
pub open spec fn login_characters_part(
    r: Seq<RemoteData>,
    rows: Seq<CharacterSkillRow>,
    groups: Seq<(i64, i32)>,
    levels: LevelCalculator,
) -> bool {
    let firsts = character_firsts(rows);
    &&& r.len() == firsts.len()
    &&& forall|k: int| 0 <= k < r.len() ==> {
        &&& (#[trigger] r[k]).cmd == 4
        &&& r[k].uid is None
        &&& r[k].item_type == 11
        &&& r[k].item_id == firsts[k].0
        &&& r[k].item_num == 1
        &&& r[k].uniqid == firsts[k].0 as i32
        &&& r[k].lv == 1
        &&& r[k].tag@ == ""@
        &&& r[k].member_parameter is None
        &&& r[k].is_trial is None
        &&& r[k].character_parameter matches Some(p) && login_character(p, rows, groups, levels, firsts[k].0, firsts[k].1)
    }
}

pub fn login_characters(rows: &Vec<CharacterSkillRow>, groups: &Vec<(i64, i32)>, levels: &LevelCalculator) -> (r: Vec<RemoteData>)
    requires
        skills_grouped(rows@, groups@),
        levels.thresholds@.len() < i32::MAX,
    ensures
        login_characters_part(r@, rows@, groups@, *levels),
{
    let firsts = character_firsts_of(rows);
    let mut out: Vec<RemoteData> = Vec::new();
    let mut k: usize = 0;
    while k < firsts.len()
        invariant
            k <= firsts@.len(),
            firsts@ == character_firsts(rows@),
            skills_grouped(rows@, groups@),
            levels.thresholds@.len() < i32::MAX,
            out@.len() == k,
            forall|j: int| 0 <= j < k ==> {
                &&& (#[trigger] out@[j]).cmd == 4
                &&& out@[j].uid is None
                &&& out@[j].item_type == 11
                &&& out@[j].item_id == firsts@[j].0
                &&& out@[j].item_num == 1
                &&& out@[j].uniqid == firsts@[j].0 as i32
                &&& out@[j].lv == 1
                &&& out@[j].tag@ == ""@
                &&& out@[j].member_parameter is None
                &&& out@[j].is_trial is None
                &&& out@[j].character_parameter matches Some(p) && login_character(p, rows@, groups@, *levels, firsts@[j].0, firsts@[j].1)
            },
        decreases firsts@.len() - k,
    {
        let (id, intimacy) = firsts[k];
        let parameter = CharacterParameter {
            id,
            character_id: id,
            rank: intimacy,
            rank_progress: levels.get_level(intimacy),
            sp_skill: character_skills_of(rows, groups, id),
            character_enhance_stage_id_list: vec![0, 0, 0, 0],
            character_piece_board_stage_id_list: vec![100001001, 100002002, 100003003, 100004004],
            is_trial: false,
        };
        assert(parameter.character_enhance_stage_id_list@ =~= seq![0i32, 0, 0, 0]);
        assert(parameter.character_piece_board_stage_id_list@ =~= seq![100001001i32, 100002002, 100003003, 100004004]);
        #[verifier::truncate]
        let unique_id = id as i32;
        let mut entries = AddCharacter::new(unique_id, parameter).into_remote_data();
        out.append(&mut entries);
        k = k + 1;
    }
    out
}

// ------------------------------------------------------------------------------------------
// The rest of the login data
// ------------------------------------------------------------------------------------------

/// A row of the user's items.
#[derive(Debug, Clone, Copy)]
pub struct ItemRow {
    pub item_type: i64,
    pub item_id: i64,
    pub quantity: i32,
}

/// A row of the user's equipment.
#[derive(Debug, Clone, Copy)]
pub struct EquipmentRow {
    pub id: i64,
    pub item_type: i64,
    pub item_id: i64,
    pub level: i32,
    pub is_locked: bool,
}

/// A row of the `equip_weapon_details` master: which details a weapon has at a level.
#[derive(Debug, Clone, Copy)]
pub struct WeaponDetail {
    pub item_id: i64,
    pub lv: i32,
    pub item_id_details: i64,
}

/// The details of a weapon at a level: the last row that names both, as a map built from
/// the rows in order holds it.
pub open spec fn weapon_details(details: Seq<WeaponDetail>, item_id: i64, level: i32) -> Option<i64>
    decreases details.len(),
{
    if details.len() == 0 {
        None
    } else if details.last().item_id == item_id && details.last().lv == level {
        Some(details.last().item_id_details)
    } else {
        weapon_details(details.drop_last(), item_id, level)
    }
}

/// A row of `equip_weapon_details` reads: its weapon id, level and details id.
pub open spec fn detail_row_readable(fs: FieldsView) -> bool {
    field_i64(fs, "item_id"@) is Some && field_i32(fs, "lv"@) is Some && field_i64(fs, "item_id_details"@) is Some
}

/// What a readable row of `equip_weapon_details` says.
pub open spec fn detail_of_row(fs: FieldsView) -> WeaponDetail {
    WeaponDetail {
        item_id: field_i64(fs, "item_id"@).unwrap(),
        lv: field_i32(fs, "lv"@).unwrap(),
        item_id_details: field_i64(fs, "item_id_details"@).unwrap(),
    }
}

/// The rows of `equip_weapon_details`, in order; `None` where a row does not read.
pub fn read_weapon_details(rows: &Vec<MasterRow>) -> (r: Option<Vec<WeaponDetail>>)
    ensures
        r is Some <==> forall|i: int| 0 <= i < rows@.len() ==> #[trigger] detail_row_readable(rows_view(rows@)[i]),
        r matches Some(v) ==> v@ == rows_view(rows@).map_values(|fs: FieldsView| detail_of_row(fs)),
{
    let ghost rv = rows_view(rows@);
    let mut out: Vec<WeaponDetail> = Vec::new();
    let mut i: usize = 0;
    while i < rows.len()
        invariant
            i <= rows@.len(),
            rv == rows_view(rows@),
            out@ == rv.take(i as int).map_values(|fs: FieldsView| detail_of_row(fs)),
            forall|j: int| 0 <= j < i ==> #[trigger] detail_row_readable(rv[j]),
        decreases rows@.len() - i,
    {
        assert(rv[i as int] == rows@[i as int]@);
        let item_id = rows[i].get_i64("item_id");
        let lv = rows[i].get_i32("lv");
        let details = rows[i].get_i64("item_id_details");
        match (item_id, lv, details) {
            (Some(item_id), Some(lv), Some(details)) => {
                out.push(WeaponDetail { item_id, lv, item_id_details: details });
                assert(out@ =~= rv.take(i + 1).map_values(|fs: FieldsView| detail_of_row(fs)));
            },
            _ => {
                assert(!detail_row_readable(rv[i as int]));
                return None;
            },
        }
        i = i + 1;
    }
    assert(rv.take(rows@.len() as int) =~= rv);
    Some(out)
}

pub fn find_weapon_details(details: &Vec<WeaponDetail>, item_id: i64, level: i32) -> (r: Option<i64>)
    ensures
        r == weapon_details(details@, item_id, level),
{
    let mut i: usize = details.len();
    assert(details@.subrange(0, i as int) =~= details@);
    while i > 0
        invariant
            i <= details@.len(),
            weapon_details(details@, item_id, level) == weapon_details(details@.subrange(0, i as int), item_id, level),
        decreases i,
    {
        assert(details@.subrange(0, i as int).drop_last() =~= details@.subrange(0, i - 1));
        let d = details[i - 1];
        if d.item_id == item_id && d.lv == level {
            return Some(d.item_id_details);
        }
        i = i - 1;
    }
    None
}

/// The fixed balances, tickets and materials of a login, as (command, item type, item id,
/// count, unique id); each is written with level 0 and tag `-`.
pub open spec fn login_base_entries() -> Seq<(i32, i32, i64, i32, i32)> {
    seq![
        (3i32, 0i32, 0i64, 0i32, 0i32),
        (4, 1, 0, 85720, 0),
        (4, 2, 0, 100000, 0),
        (4, 3, 0, 1000000, 0),
        (4, 8, 1, 800, 0),
        (4, 9, 0, 419, 0),
        (4, 10, 0, 10, 0),
        (4, 15, 1100, 3, 2),
        (4, 15, 5001, 4, 1),
        (4, 16, 151, 1, 1),
        (4, 21, 17, 2, 0),
        (4, 23, 0, 45, 0),
        (4, 27, 230831, 3, 0),
        (4, 28, 230731, 0, 0),
        (4, 39, 100, 1, 0),
        (4, 39, 103, 20, 0),
        (4, 39, 106, 25, 0),
        (4, 39, 108, 5, 0),
        (4, 39, 109, 5, 0),
        (4, 39, 110, 1, 0),
        (4, 39, 112, 1, 0),
        (4, 39, 113, 1, 0),
        (4, 39, 114, 5, 0),
        (4, 39, 115, 1, 0),
        (4, 39, 116, 1, 0),
        (4, 39, 119, 2, 0),
        (4, 39, 128, 1, 0),
        (4, 40, 0, 5, 0),
        (4, 20, 1011, 101100, 0),
        (4, 20, 1012, 101200, 0),
        (4, 27, 240111, 600, 0),
    ]
}

/// The fixed part of the login data: the client's parameters are cleared, then the fixed
/// balances, tickets and materials are added.
pub fn login_base() -> (r: Vec<RemoteData>)
    ensures
        r@.len() == login_base_entries().len(),
        forall|k: int| 0 <= k < r@.len() ==> {
            let e = login_base_entries()[k];
            plain_entry(e.0, e.1, e.2, e.3, e.4, 0, "-"@, #[trigger] r@[k])
        },
{
    let table: Vec<(RemoteDataCommand, RemoteDataItemType, i64, i32, i32)> = vec![
        (RemoteDataCommand::UserParamClear, RemoteDataItemType::Another(0), 0, 0, 0),
        (RemoteDataCommand::UserParamAdd, RemoteDataItemType::Money, 0, 85720, 0),
        (RemoteDataCommand::UserParamAdd, RemoteDataItemType::RealMoney, 0, 100000, 0),
        (RemoteDataCommand::UserParamAdd, RemoteDataItemType::RealMoneyFree, 0, 1000000, 0),
        (RemoteDataCommand::UserParamAdd, RemoteDataItemType::SkipTicket, 1, 800, 0),
        (RemoteDataCommand::UserParamAdd, RemoteDataItemType::Stamina, 0, 419, 0),
        (RemoteDataCommand::UserParamAdd, RemoteDataItemType::Exp, 0, 10, 0),
        (RemoteDataCommand::UserParamAdd, RemoteDataItemType::MaterialWA, 1100, 3, 2),
        (RemoteDataCommand::UserParamAdd, RemoteDataItemType::MaterialWA, 5001, 4, 1),
        (RemoteDataCommand::UserParamAdd, RemoteDataItemType::MaterialLimit, 151, 1, 1),
        (RemoteDataCommand::UserParamAdd, RemoteDataItemType::Ticket, 17, 2, 0),
        (RemoteDataCommand::UserParamAdd, RemoteDataItemType::Level, 0, 45, 0),
        (RemoteDataCommand::UserParamAdd, RemoteDataItemType::BossTicket, 230831, 3, 0),
        (RemoteDataCommand::UserParamAdd, RemoteDataItemType::SlayerMedal, 230731, 0, 0),
        (RemoteDataCommand::UserParamAdd, RemoteDataItemType::CharacterPiece, 100, 1, 0),
        (RemoteDataCommand::UserParamAdd, RemoteDataItemType::CharacterPiece, 103, 20, 0),
        (RemoteDataCommand::UserParamAdd, RemoteDataItemType::CharacterPiece, 106, 25, 0),
        (RemoteDataCommand::UserParamAdd, RemoteDataItemType::CharacterPiece, 108, 5, 0),
        (RemoteDataCommand::UserParamAdd, RemoteDataItemType::CharacterPiece, 109, 5, 0),
        (RemoteDataCommand::UserParamAdd, RemoteDataItemType::CharacterPiece, 110, 1, 0),
        (RemoteDataCommand::UserParamAdd, RemoteDataItemType::CharacterPiece, 112, 1, 0),
        (RemoteDataCommand::UserParamAdd, RemoteDataItemType::CharacterPiece, 113, 1, 0),
        (RemoteDataCommand::UserParamAdd, RemoteDataItemType::CharacterPiece, 114, 5, 0),
        (RemoteDataCommand::UserParamAdd, RemoteDataItemType::CharacterPiece, 115, 1, 0),
        (RemoteDataCommand::UserParamAdd, RemoteDataItemType::CharacterPiece, 116, 1, 0),
        (RemoteDataCommand::UserParamAdd, RemoteDataItemType::CharacterPiece, 119, 2, 0),
        (RemoteDataCommand::UserParamAdd, RemoteDataItemType::CharacterPiece, 128, 1, 0),
        (RemoteDataCommand::UserParamAdd, RemoteDataItemType::FameRank, 0, 5, 0),
        (RemoteDataCommand::UserParamAdd, RemoteDataItemType::ExchangeMedal, 1011, 101100, 0),
        (RemoteDataCommand::UserParamAdd, RemoteDataItemType::ExchangeMedal, 1012, 101200, 0),
        (RemoteDataCommand::UserParamAdd, RemoteDataItemType::BossTicket, 240111, 600, 0),
    ];
    let ghost spec_table = login_base_entries();
    assert(table@.len() == spec_table.len());
    assert forall|k: int| 0 <= k < table@.len() implies ({
        let t = #[trigger] table@[k];
        let e = spec_table[k];
        t.0.spec_code() == e.0 && item_type_code(t.1) == e.1 && t.2 == e.2 && t.3 == e.3 && t.4 == e.4
    }) by {}
    let mut r: Vec<RemoteData> = Vec::new();
    let mut k: usize = 0;
    while k < table.len()
        invariant
            k <= table@.len(),
            table@.len() == spec_table.len(),
            spec_table == login_base_entries(),
            forall|j: int| 0 <= j < table@.len() ==> ({
                let t = #[trigger] table@[j];
                let e = spec_table[j];
                t.0.spec_code() == e.0 && item_type_code(t.1) == e.1 && t.2 == e.2 && t.3 == e.3 && t.4 == e.4
            }),
            r@.len() == k,
            forall|j: int| 0 <= j < k ==> {
                let e = spec_table[j];
                plain_entry(e.0, e.1, e.2, e.3, e.4, 0, "-"@, #[trigger] r@[j])
            },
        decreases table@.len() - k,
    {
        let (cmd, item_type, item_id, item_num, uniqid) = table[k];
        r.push(entry(cmd, item_type.code(), item_id, item_num, uniqid, 0, String::from_str("-")));
        k = k + 1;
    }
    r
}

/// Members, each added with the tag: "front" for playable members, "back" for reserve ones.
pub open spec fn login_members_part(r: Seq<RemoteData>, members: Seq<MemberParameter>, tag: Seq<char>) -> bool {
    &&& r.len() == members.len()
    &&& forall|k: int| 0 <= k < r.len() ==> member_entry(4, members[k], tag, #[trigger] r[k])
}

pub fn login_members(members: Vec<MemberParameter>, tag: &str) -> (r: Vec<RemoteData>)
    ensures
        login_members_part(r@, members@, tag@),
{
    let ghost all = members@;
    let mut rest = members;
    let mut r: Vec<RemoteData> = Vec::new();
    while rest.len() > 0
        invariant
            r@.len() + rest@.len() == all.len(),
            rest@ == all.skip(r@.len() as int),
            forall|k: int| 0 <= k < r@.len() ==> member_entry(4, all[k], tag@, #[trigger] r@[k]),
        decreases rest@.len(),
    {
        let ghost n: int = r@.len() as int;
        let m = rest.remove(0);
        assert(m == all[n]);
        assert(rest@ =~= all.skip(n + 1));
        let mut entries = AddMember::new(m, tag).into_remote_data();
        r.append(&mut entries);
    }
    r
}

/// The entries of a master table listed by id: each added with its position as unique id.
pub open spec fn login_listing_part(r: Seq<RemoteData>, ids: Seq<i64>, item_type: i32, tag: Seq<char>) -> bool {
    &&& r.len() == ids.len()
    &&& forall|k: int| 0 <= k < r.len() ==> plain_entry(4, item_type, ids[k], 1, k as i32, 0, tag, #[trigger] r[k])
}

/// Every costume of the `costume` master, by id.
pub fn login_costumes(ids: &Vec<i64>) -> (r: Vec<RemoteData>)
    ensures
        login_listing_part(r@, ids@, 14, "useflag:0"@),
{
    let mut r: Vec<RemoteData> = Vec::new();
    let mut k: usize = 0;
    while k < ids.len()
        invariant
            k <= ids@.len(),
            r@.len() == k,
            forall|j: int| 0 <= j < k ==> plain_entry(4, 14, ids@[j], 1, j as i32, 0, "useflag:0"@, #[trigger] r@[j]),
        decreases ids@.len() - k,
    {
        #[verifier::truncate]
        let index = k as i32;
        let mut entries = AddMemberCostume::new(index, ids[k]).into_remote_data();
        r.append(&mut entries);
        k = k + 1;
    }
    r
}

/// Every background of the `background` master, by id.
pub fn login_backgrounds(ids: &Vec<i64>) -> (r: Vec<RemoteData>)
    ensures
        login_listing_part(r@, ids@, 24, "-"@),
{
    let mut r: Vec<RemoteData> = Vec::new();
    let mut k: usize = 0;
    while k < ids.len()
        invariant
            k <= ids@.len(),
            r@.len() == k,
            forall|j: int| 0 <= j < k ==> plain_entry(4, 24, ids@[j], 1, j as i32, 0, "-"@, #[trigger] r@[j]),
        decreases ids@.len() - k,
    {
        #[verifier::truncate]
        let index = k as i32;
        let mut entries = AddMemberBackground::new(index, ids[k]).into_remote_data();
        r.append(&mut entries);
        k = k + 1;
    }
    r
}

/// The user's items, each added with its type read from the stored number.
pub open spec fn login_items_part(r: Seq<RemoteData>, rows: Seq<ItemRow>) -> bool {
    &&& r.len() == rows.len()
    &&& forall|k: int| 0 <= k < r.len() ==>
        plain_entry(4, rows[k].item_type as i32, rows[k].item_id, rows[k].quantity, 0, 0, "-"@, #[trigger] r[k])
}

pub fn login_items(rows: &Vec<ItemRow>) -> (r: Vec<RemoteData>)
    ensures
        login_items_part(r@, rows@),
{
    let mut r: Vec<RemoteData> = Vec::new();
    let mut k: usize = 0;
    while k < rows.len()
        invariant
            k <= rows@.len(),
            r@.len() == k,
            forall|j: int| 0 <= j < k ==>
                plain_entry(4, rows@[j].item_type as i32, rows@[j].item_id, rows@[j].quantity, 0, 0, "-"@, #[trigger] r@[j]),
        decreases rows@.len() - k,
    {
        let row = rows[k];
        #[verifier::truncate]
        let code = row.item_type as i32;
        proof {
            crate::api::law_item_type_code_roundtrip(code);
        }
        let mut entries = AddItem::new(RemoteDataItemType::from(code), 0, row.item_id, row.quantity).into_remote_data();
        r.append(&mut entries);
        k = k + 1;
    }
    r
}

/// The item types of equipment: weapons and accessories.
pub open spec fn is_equipment_type(t: RemoteDataItemType) -> bool {
    t == RemoteDataItemType::Weapon || t == RemoteDataItemType::Accessory
}

/// The wire numbers of equipment: 5 for weapons, 6 for accessories.
pub open spec fn is_equipment_code(code: i32) -> bool {
    code == 5 || code == 6
}

/// Equipment a login can send: weapons and accessories, each with details for its level.
pub open spec fn equipment_known(rows: Seq<EquipmentRow>, details: Seq<WeaponDetail>) -> bool {
    forall|k: int| 0 <= k < rows.len() ==> {
        &&& is_equipment_code((#[trigger] rows[k]).item_type as i32)
        &&& weapon_details(details, rows[k].item_id, rows[k].level) is Some
    }
}

/// The user's equipment, each piece under its own item type and as its details for its level,
/// locked ones tagged `lock:1`.
pub open spec fn login_weapons_part(r: Seq<RemoteData>, rows: Seq<EquipmentRow>, details: Seq<WeaponDetail>) -> bool {
    &&& r.len() == rows.len()
    &&& forall|k: int| 0 <= k < r.len() ==> plain_entry(
        1,
        rows[k].item_type as i32,
        weapon_details(details, rows[k].item_id, rows[k].level).unwrap(),
        1,
        rows[k].id as i32,
        0,
        if rows[k].is_locked { "lock:1"@ } else { ""@ },
        #[trigger] r[k],
    )
}

pub fn login_weapons(rows: &Vec<EquipmentRow>, details: &Vec<WeaponDetail>) -> (r: Vec<RemoteData>)
    requires
        equipment_known(rows@, details@),
    ensures
        login_weapons_part(r@, rows@, details@),
{
    let mut r: Vec<RemoteData> = Vec::new();
    let mut k: usize = 0;
    while k < rows.len()
        invariant
            k <= rows@.len(),
            equipment_known(rows@, details@),
            r@.len() == k,
            forall|j: int| 0 <= j < k ==> plain_entry(
                1,
                rows@[j].item_type as i32,
                weapon_details(details@, rows@[j].item_id, rows@[j].level).unwrap(),
                1,
                rows@[j].id as i32,
                0,
                if rows@[j].is_locked { "lock:1"@ } else { ""@ },
                #[trigger] r@[j],
            ),
        decreases rows@.len() - k,
    {
        let row = rows[k];
        assert(is_equipment_code(row.item_type as i32));
        let item_id_details = find_weapon_details(details, row.item_id, row.level).unwrap();
        #[verifier::truncate]
        let code = row.item_type as i32;
        #[verifier::truncate]
        let unique_id = row.id as i32;
        let item_type = RemoteDataItemType::from(code);
        proof {
            crate::api::law_item_type_code_roundtrip(code);
        }
        let mut entries = AddEquipment::new(item_type, item_id_details, unique_id, row.is_locked).into_remote_data();
        r.append(&mut entries);
        k = k + 1;
    }
    r
}

/// Everything a login reads of the user and of the master data.
pub struct LoginData {
    pub members: Vec<MemberParameter>,
    pub reserve_members: Vec<MemberParameter>,
    pub characters: Vec<CharacterSkillRow>,
    /// `(skill_id, skill_group_id)` of the `skill_sp` master.
    pub skill_groups: Vec<(i64, i32)>,
    /// The ids of the `costume` master.
    pub costume_ids: Vec<i64>,
    /// The ids of the `background` master.
    pub background_ids: Vec<i64>,
    pub items: Vec<ItemRow>,
    pub weapon_details: Vec<WeaponDetail>,
    pub equipment: Vec<EquipmentRow>,
}

/// The data a login can be answered from: every skill has a group and every piece of
/// equipment is a weapon or an accessory with details for its level.
pub open spec fn login_data_complete(d: LoginData, levels: LevelCalculator) -> bool {
    &&& skills_grouped(d.characters@, d.skill_groups@)
    &&& equipment_known(d.equipment@, d.weapon_details@)
    &&& levels.thresholds@.len() < i32::MAX
}

/// The remote data a login sends: the fixed part, then the members, the reserve members,
/// the characters, the costumes, the backgrounds, the items and the weapons, each part
/// right after the one before.
pub open spec fn login_remote_data_spec(r: Seq<RemoteData>, d: LoginData, levels: LevelCalculator) -> bool {
    let b = login_base_entries().len() as int;
    let m = b + d.members@.len();
    let rv = m + d.reserve_members@.len();
    let c = rv + character_firsts(d.characters@).len();
    let co = c + d.costume_ids@.len();
    let bg = co + d.background_ids@.len();
    let it = bg + d.items@.len();
    let w = it + d.equipment@.len();
    &&& r.len() == w
    &&& forall|k: int| 0 <= k < b ==> {
        let e = login_base_entries()[k];
        plain_entry(e.0, e.1, e.2, e.3, e.4, 0, "-"@, #[trigger] r[k])
    }
    &&& login_members_part(r.subrange(b, m), d.members@, "front"@)
    &&& login_members_part(r.subrange(m, rv), d.reserve_members@, "back"@)
    &&& login_characters_part(r.subrange(rv, c), d.characters@, d.skill_groups@, levels)
    &&& login_listing_part(r.subrange(c, co), d.costume_ids@, 14, "useflag:0"@)
    &&& login_listing_part(r.subrange(co, bg), d.background_ids@, 24, "-"@)
    &&& login_items_part(r.subrange(bg, it), d.items@)
    &&& login_weapons_part(r.subrange(it, w), d.equipment@, d.weapon_details@)
}

/// Everything the client is told of the user at login.
pub fn get_login_remote_data(d: LoginData, levels: &LevelCalculator) -> (r: Vec<RemoteData>)
    requires
        login_data_complete(d, *levels),
    ensures
        login_remote_data_spec(r@, d, *levels),
{
    let ghost d0 = d;
    let LoginData {
        members,
        reserve_members,
        characters,
        skill_groups,
        costume_ids,
        background_ids,
        items,
        weapon_details,
        equipment,
    } = d;
    let mut r = login_base();
    let mut part = login_members(members, "front");
    let ghost p1 = part@;
    r.append(&mut part);
    let mut part = login_members(reserve_members, "back");
    let ghost p2 = part@;
    r.append(&mut part);
    let mut part = login_characters(&characters, &skill_groups, levels);
    let ghost p3 = part@;
    r.append(&mut part);
    let mut part = login_costumes(&costume_ids);
    let ghost p4 = part@;
    r.append(&mut part);
    let mut part = login_backgrounds(&background_ids);
    let ghost p5 = part@;
    r.append(&mut part);
    let mut part = login_items(&items);
    let ghost p6 = part@;
    r.append(&mut part);
    let mut part = login_weapons(&equipment, &weapon_details);
    let ghost p7 = part@;
    r.append(&mut part);
    proof {
        let b = login_base_entries().len() as int;
        let m = b + d0.members@.len();
        let rv = m + d0.reserve_members@.len();
        let c = rv + character_firsts(d0.characters@).len();
        let co = c + d0.costume_ids@.len();
        let bg = co + d0.background_ids@.len();
        let it = bg + d0.items@.len();
        let w = it + d0.equipment@.len();
        assert(r@.subrange(b, m) =~= p1);
        assert(r@.subrange(m, rv) =~= p2);
        assert(r@.subrange(rv, c) =~= p3);
        assert(r@.subrange(c, co) =~= p4);
        assert(r@.subrange(co, bg) =~= p5);
        assert(r@.subrange(bg, it) =~= p6);
        assert(r@.subrange(it, w) =~= p7);
    }
    r
}

} // verus!
