//! Wire types shared by every API method, and the item-type codes the client knows.

use vstd::prelude::*;

use crate::call::ApiCallParams;

pub mod account;
pub mod ad_reward;
pub mod assist;
pub mod battle;
pub mod battle_arena;
pub mod battle_multi;
pub mod capture;
pub mod character;
pub mod dungeon;
pub mod exchange;
pub mod expedition;
pub mod friend;
pub mod gacha;
pub mod home;
pub mod honor;
pub mod honor_list;
pub mod idlink_confirm_google;
pub mod interaction;
pub mod items;
pub mod login;
pub mod login_bonus;
pub mod maintenance_check;
pub mod master_all;
pub mod master_list;
pub mod mission;
pub mod notice;
pub mod panel_mission;
pub mod party;
pub mod party_info;
pub mod present;
pub mod profile;
pub mod quest;
pub mod quest_fame;
pub mod quest_hunting;
pub mod quest_main;
pub mod shop;
pub mod smith_craft;
pub mod smith_sell;
pub mod smith_upgrade;
pub mod story;
pub mod story_reward;
pub mod surprise;
pub mod transfer;
pub mod tutorial;

verus! {

/// What a remote-data entry asks the client to do with a user parameter.
#[derive(Debug, Clone, Copy, PartialEq, Eq)]
pub enum RemoteDataCommand {
    UserParamNew,
    UserParamDelete,
    /// Delete all user parameters
    UserParamClear,
    UserParamAdd,
    UserParamUpdate,
}

impl RemoteDataCommand {
    /// The number the client reads for this command.
    pub open spec fn spec_code(self) -> i32 {
        match self {
            RemoteDataCommand::UserParamNew => 1,
            RemoteDataCommand::UserParamDelete => 2,
            RemoteDataCommand::UserParamClear => 3,
            RemoteDataCommand::UserParamAdd => 4,
            RemoteDataCommand::UserParamUpdate => 5,
        }
    }

    pub fn code(self) -> (r: i32)
        ensures
            r == self.spec_code(),
    {
        match self {
            RemoteDataCommand::UserParamNew => 1,
            RemoteDataCommand::UserParamDelete => 2,
            RemoteDataCommand::UserParamClear => 3,
            RemoteDataCommand::UserParamAdd => 4,
            RemoteDataCommand::UserParamUpdate => 5,
        }
    }
}

/// The kinds of user parameters (currencies, members, items, ...) the client keeps.
#[derive(Debug, Clone, Copy, PartialEq, Eq)]
pub enum RemoteDataItemType {
    Money,
    RealMoney,
    RealMoneyFree,
    /// "Food" icon
    Stamina,
    Exp,
    /// Called "rank" in game
    Level,
    Character,
    Member,
    MemberCostume,
    SpecialSkill,
    Weapon,
    /// Accessories, which the client equips beside weapons.
    Accessory,
    GachaTicket,
    FameRank,
    MemberBackground,
    MaterialWA,
    MaterialLimit,
    SkillPotion,
    PowerPotion,
    MaterialLove,
    ExchangeMedal,
    SkipTicket,
    Ticket,
    BossTicket,
    SlayerMedal,
    StaminaItem,
    DreamTicket,
    CampaignTicket,
    AssistTicket,
    AssistMaterial,
    DungeonRedraw,
    /// "Potential"
    CharacterPiece,
    EventTicket,
    FamePotion,
    FameScroll,
    CollaborationMedal,
    Another(i32),
}

/// The wire number of an item type.
pub open spec fn item_type_code(t: RemoteDataItemType) -> i32 {
    match t {
        RemoteDataItemType::Money => 1,
        RemoteDataItemType::RealMoney => 2,
        RemoteDataItemType::RealMoneyFree => 3,
        RemoteDataItemType::Member => 4,
        RemoteDataItemType::Weapon => 5,
        RemoteDataItemType::Accessory => 6,
        RemoteDataItemType::SkipTicket => 8,
        RemoteDataItemType::Stamina => 9,
        RemoteDataItemType::Exp => 10,
        RemoteDataItemType::Character => 11,
        RemoteDataItemType::SpecialSkill => 12,
        RemoteDataItemType::MemberCostume => 14,
        RemoteDataItemType::MaterialWA => 15,
        RemoteDataItemType::MaterialLimit => 16,
        RemoteDataItemType::SkillPotion => 17,
        RemoteDataItemType::PowerPotion => 18,
        RemoteDataItemType::MaterialLove => 19,
        RemoteDataItemType::ExchangeMedal => 20,
        RemoteDataItemType::Ticket => 21,
        RemoteDataItemType::Level => 23,
        RemoteDataItemType::MemberBackground => 24,
        RemoteDataItemType::BossTicket => 27,
        RemoteDataItemType::SlayerMedal => 28,
        RemoteDataItemType::StaminaItem => 29,
        RemoteDataItemType::DreamTicket => 30,
        RemoteDataItemType::CampaignTicket => 32,
        RemoteDataItemType::GachaTicket => 33,
        RemoteDataItemType::AssistTicket => 36,
        RemoteDataItemType::AssistMaterial => 37,
        RemoteDataItemType::DungeonRedraw => 38,
        RemoteDataItemType::CharacterPiece => 39,
        RemoteDataItemType::FameRank => 40,
        RemoteDataItemType::EventTicket => 42,
        RemoteDataItemType::FamePotion => 44,
        RemoteDataItemType::FameScroll => 45,
        RemoteDataItemType::CollaborationMedal => 46,
        RemoteDataItemType::Another(value) => value,
    }
}

/// The item type a wire number names; numbers the client gives no name get `Another`.
pub open spec fn item_type_of_code(value: i32) -> RemoteDataItemType {
    if value == 1 { RemoteDataItemType::Money }
    else if value == 2 { RemoteDataItemType::RealMoney }
    else if value == 3 { RemoteDataItemType::RealMoneyFree }
    else if value == 4 { RemoteDataItemType::Member }
    else if value == 5 { RemoteDataItemType::Weapon }
    else if value == 6 { RemoteDataItemType::Accessory }
    else if value == 8 { RemoteDataItemType::SkipTicket }
    else if value == 9 { RemoteDataItemType::Stamina }
    else if value == 10 { RemoteDataItemType::Exp }
    else if value == 11 { RemoteDataItemType::Character }
    else if value == 12 { RemoteDataItemType::SpecialSkill }
    else if value == 14 { RemoteDataItemType::MemberCostume }
    else if value == 15 { RemoteDataItemType::MaterialWA }
    else if value == 16 { RemoteDataItemType::MaterialLimit }
    else if value == 17 { RemoteDataItemType::SkillPotion }
    else if value == 18 { RemoteDataItemType::PowerPotion }
    else if value == 19 { RemoteDataItemType::MaterialLove }
    else if value == 20 { RemoteDataItemType::ExchangeMedal }
    else if value == 21 { RemoteDataItemType::Ticket }
    else if value == 23 { RemoteDataItemType::Level }
    else if value == 24 { RemoteDataItemType::MemberBackground }
    else if value == 27 { RemoteDataItemType::BossTicket }
    else if value == 28 { RemoteDataItemType::SlayerMedal }
    else if value == 29 { RemoteDataItemType::StaminaItem }
    else if value == 30 { RemoteDataItemType::DreamTicket }
    else if value == 32 { RemoteDataItemType::CampaignTicket }
    else if value == 33 { RemoteDataItemType::GachaTicket }
    else if value == 36 { RemoteDataItemType::AssistTicket }
    else if value == 37 { RemoteDataItemType::AssistMaterial }
    else if value == 38 { RemoteDataItemType::DungeonRedraw }
    else if value == 39 { RemoteDataItemType::CharacterPiece }
    else if value == 40 { RemoteDataItemType::FameRank }
    else if value == 42 { RemoteDataItemType::EventTicket }
    else if value == 44 { RemoteDataItemType::FamePotion }
    else if value == 45 { RemoteDataItemType::FameScroll }
    else if value == 46 { RemoteDataItemType::CollaborationMedal }
    else { RemoteDataItemType::Another(value) }
}

/// The wire numbers that name an item type of their own.
pub open spec fn is_named_code(value: i32) -> bool {
    item_type_of_code(value) !is Another
}

impl From<RemoteDataItemType> for i32 {
    fn from(item_type: RemoteDataItemType) -> (r: i32) {
        match item_type {
            RemoteDataItemType::Money => 1,
            RemoteDataItemType::RealMoney => 2,
            RemoteDataItemType::RealMoneyFree => 3,
            RemoteDataItemType::Member => 4,
            RemoteDataItemType::Weapon => 5,
            RemoteDataItemType::Accessory => 6,
            RemoteDataItemType::SkipTicket => 8,
            RemoteDataItemType::Stamina => 9,
            RemoteDataItemType::Exp => 10,
            RemoteDataItemType::Character => 11,
            RemoteDataItemType::SpecialSkill => 12,
            RemoteDataItemType::MemberCostume => 14,
            RemoteDataItemType::MaterialWA => 15,
            RemoteDataItemType::MaterialLimit => 16,
            RemoteDataItemType::SkillPotion => 17,
            RemoteDataItemType::PowerPotion => 18,
            RemoteDataItemType::MaterialLove => 19,
            RemoteDataItemType::ExchangeMedal => 20,
            RemoteDataItemType::Ticket => 21,
            RemoteDataItemType::Level => 23,
            RemoteDataItemType::MemberBackground => 24,
            RemoteDataItemType::BossTicket => 27,
            RemoteDataItemType::SlayerMedal => 28,
            RemoteDataItemType::StaminaItem => 29,
            RemoteDataItemType::DreamTicket => 30,
            RemoteDataItemType::CampaignTicket => 32,
            RemoteDataItemType::GachaTicket => 33,
            RemoteDataItemType::AssistTicket => 36,
            RemoteDataItemType::AssistMaterial => 37,
            RemoteDataItemType::DungeonRedraw => 38,
            RemoteDataItemType::CharacterPiece => 39,
            RemoteDataItemType::FameRank => 40,
            RemoteDataItemType::EventTicket => 42,
            RemoteDataItemType::FamePotion => 44,
            RemoteDataItemType::FameScroll => 45,
            RemoteDataItemType::CollaborationMedal => 46,
            RemoteDataItemType::Another(value) => value,
        }
    }
}

impl vstd::std_specs::convert::FromSpecImpl<RemoteDataItemType> for i32 {
    open spec fn obeys_from_spec() -> bool {
        true
    }

    open spec fn from_spec(item_type: RemoteDataItemType) -> i32 {
        item_type_code(item_type)
    }
}

impl From<i32> for RemoteDataItemType {
    fn from(value: i32) -> (r: RemoteDataItemType) {
        match value {
            1 => RemoteDataItemType::Money,
            2 => RemoteDataItemType::RealMoney,
            3 => RemoteDataItemType::RealMoneyFree,
            4 => RemoteDataItemType::Member,
            5 => RemoteDataItemType::Weapon,
            6 => RemoteDataItemType::Accessory,
            8 => RemoteDataItemType::SkipTicket,
            9 => RemoteDataItemType::Stamina,
            10 => RemoteDataItemType::Exp,
            11 => RemoteDataItemType::Character,
            12 => RemoteDataItemType::SpecialSkill,
            14 => RemoteDataItemType::MemberCostume,
            15 => RemoteDataItemType::MaterialWA,
            16 => RemoteDataItemType::MaterialLimit,
            17 => RemoteDataItemType::SkillPotion,
            18 => RemoteDataItemType::PowerPotion,
            19 => RemoteDataItemType::MaterialLove,
            20 => RemoteDataItemType::ExchangeMedal,
            21 => RemoteDataItemType::Ticket,
            23 => RemoteDataItemType::Level,
            24 => RemoteDataItemType::MemberBackground,
            27 => RemoteDataItemType::BossTicket,
            28 => RemoteDataItemType::SlayerMedal,
            29 => RemoteDataItemType::StaminaItem,
            30 => RemoteDataItemType::DreamTicket,
            32 => RemoteDataItemType::CampaignTicket,
            33 => RemoteDataItemType::GachaTicket,
            36 => RemoteDataItemType::AssistTicket,
            37 => RemoteDataItemType::AssistMaterial,
            38 => RemoteDataItemType::DungeonRedraw,
            39 => RemoteDataItemType::CharacterPiece,
            40 => RemoteDataItemType::FameRank,
            42 => RemoteDataItemType::EventTicket,
            44 => RemoteDataItemType::FamePotion,
            45 => RemoteDataItemType::FameScroll,
            46 => RemoteDataItemType::CollaborationMedal,
            _ => RemoteDataItemType::Another(value),
        }
    }
}

impl vstd::std_specs::convert::FromSpecImpl<i32> for RemoteDataItemType {
    open spec fn obeys_from_spec() -> bool {
        true
    }

    open spec fn from_spec(value: i32) -> RemoteDataItemType {
        item_type_of_code(value)
    }
}

impl RemoteDataItemType {
    /// The wire number of this item type (`i32::from`).
    pub fn code(self) -> (r: i32)
        ensures
            r == item_type_code(self),
    {
        i32::from(self)
    }

    /// The item type of a wire number (`RemoteDataItemType::from`).
    pub fn of_code(value: i32) -> (r: RemoteDataItemType)
        ensures
            r == item_type_of_code(value),
    {
        RemoteDataItemType::from(value)
    }
}

/// Every wire number comes back unchanged from reading it as an item type and writing it again.
pub proof fn law_item_type_code_roundtrip(value: i32)
    ensures
        item_type_code(item_type_of_code(value)) == value,
{
}

/// An item type comes back unchanged from writing it and reading it again, unless it is an
/// `Another` that holds a number some named item type owns.
pub proof fn law_item_type_roundtrip(t: RemoteDataItemType)
    requires
        !(t is Another && is_named_code(t->Another_0)),
    ensures
        item_type_of_code(item_type_code(t)) == t,
{
}

/// Distinct named item types never share a wire number.
pub proof fn law_item_type_code_injective(a: RemoteDataItemType, b: RemoteDataItemType)
    requires
        a !is Another,
        b !is Another,
        item_type_code(a) == item_type_code(b),
    ensures
        a == b,
{
    law_item_type_roundtrip(a);
    law_item_type_roundtrip(b);
}

#[derive(Debug, Clone, Default, PartialEq, Eq)]
pub struct MemberFameStats {
    pub fame_hp_rank: i32,
    pub fame_attack_rank: i32,
    pub fame_defense_rank: i32,
    pub fame_magicattack_rank: i32,
    pub fame_magicdefence_rank: i32,
}

/// The stats of one member as the client shows them.
#[derive(Debug, Clone)]
pub struct MemberParameter {
    pub id: i32,
    pub lv: i32,
    pub exp: i32,
    pub member_id: i64,
    pub ac_skill_id_a: i64,
    pub ac_skill_lv_a: i32,
    pub ac_skill_val_a: i32,
    pub ac_skill_id_b: i64,
    pub ac_skill_lv_b: i32,
    pub ac_skill_val_b: i32,
    pub ac_skill_id_c: i64,
    pub ac_skill_lv_c: i32,
    pub ac_skill_val_c: i32,
    pub hp: i32,
    pub magicattack: i32,
    pub defense: i32,
    pub magicdefence: i32,
    pub agility: i32,
    pub dexterity: i32,
    pub luck: i32,
    pub limit_break: i32,
    pub character_id: i64,
    pub passiveskill: i64,
    pub specialattack: i64,
    pub resist_state: i32,
    pub resist_attr: i64,
    pub attack: i32,
    pub waiting_room: i32,
    pub main_strength: i32,
    pub main_strength_for_fame_quest: i32,
    pub sub_strength: i32,
    pub sub_strength_for_fame_quest: i32,
    pub sub_strength_bonus: i32,
    pub sub_strength_bonus_for_fame_quest: i32,
    pub fame_hp_rank: i32,
    pub fame_attack_rank: i32,
    pub fame_defense_rank: i32,
    pub fame_magicattack_rank: i32,
    pub fame_magicdefence_rank: i32,
    pub skill_pa_fame_list: Vec<SkillPaFame>,
}

#[derive(Debug, Clone)]
pub struct SkillPaFame {
    pub skill_pa_fame_id: i64,
    pub user_skill_pa_fame_id: i32,
    pub add_status_list: Vec<SkillPaFameAddStatus>,
}

#[derive(Debug, Clone, Copy, PartialEq, Eq)]
pub struct SkillPaFameAddStatus {
    pub kind: i32,
    pub value: i32,
}

/// A character's affinity and special skills as the client shows them.
#[derive(Debug, Clone)]
pub struct CharacterParameter {
    pub id: i64,
    pub character_id: i64,
    pub rank: i32,
    pub rank_progress: i32,
    pub sp_skill: Vec<SpSkill>,
    pub character_enhance_stage_id_list: Vec<i32>,
    pub character_piece_board_stage_id_list: Vec<i32>,
    pub is_trial: bool,
}

#[derive(Debug, Clone, Copy, PartialEq, Eq)]
pub struct SpSkill {
    pub group_id: i32,
    pub id: i64,
    pub lv: i32,
    pub is_trial: bool,
}

/// One change to the user's parameters that a response carries to the client.
#[derive(Debug, Clone)]
pub struct RemoteData {
    pub cmd: i32,
    pub uid: Option<String>,
    pub item_type: i32,
    pub item_id: i64,
    pub item_num: i32,
    pub uniqid: i32,
    pub lv: i32,
    /// "lock:1" marks a locked item
    pub tag: String,
    pub member_parameter: Option<MemberParameter>,
    pub character_parameter: Option<CharacterParameter>,
    pub is_trial: Option<bool>,
}

impl RemoteData {
    pub fn new(cmd: i32, item_type: i32, item_id: i64, item_num: i32, uniqid: i32, lv: i32, tag: String) -> (r: Self)
        ensures
            r.cmd == cmd,
            r.item_type == item_type,
            r.item_id == item_id,
            r.item_num == item_num,
            r.uniqid == uniqid,
            r.lv == lv,
            r.tag == tag,
            r.uid is None,
            r.member_parameter is None,
            r.character_parameter is None,
            r.is_trial is None,
    {
        Self {
            cmd,
            item_type,
            item_id,
            item_num,
            uniqid,
            lv,
            tag,
            uid: None,
            member_parameter: None,
            character_parameter: None,
            is_trial: None,
        }
    }
}

/// A notification a response carries to the client.
#[derive(Debug, Clone, PartialEq, Eq)]
pub struct NotificationData {
    pub cmd: i32,
    pub kind: i32,
    pub key: i32,
    pub value: i32,
    pub msgkey: String,
    pub tag: String,
}

impl NotificationData {
    pub fn new(cmd: i32, kind: i32, key: i32, value: i32, msgkey: String, tag: String) -> (r: Self)
        ensures
            r == (NotificationData { cmd, kind, key, value, msgkey, tag }),
    {
        Self { cmd, kind, key, value, msgkey, tag }
    }
}

/// A decrypted API request: the query parameters and the form fields of the body.
#[derive(Debug, Clone)]
pub struct ApiRequest {
    pub params: ApiCallParams,
    pub body: Vec<(String, String)>,
}

} // verus!
