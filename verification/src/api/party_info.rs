//! Parties: five formations of a main member, two sub-members and equipment.

use vstd::prelude::*;
use crate::api::battle::BattleParty;
use crate::api::surprise::BasicBattlePartyForm;
use crate::call::CallCustom;
use crate::text::{i64_text, int_text, push_str};
use crate::api::dungeon::PartyMember;
use crate::api::party::PartyWire;

verus! {

#[derive(Debug)]
pub struct PartyInfo {
  pub party: Vec<Party>,
  pub members: Vec<PartyMember>,
  pub weapons: Vec<()>,
  pub accessories: Vec<()>,
}

#[derive(Debug)]
pub struct Party {
  /// ## Party formations
  /// Front 1, Front 2, Front 3, Rear 1, Rear 2.
  /// Rear members enter battle after front member is down.
  pub party_forms: [PartyForm; 5],
  pub party_no: i32,
  /// Assist stats affect the stats of main party members.
  pub assist: i64,
  pub sub_assists: Vec<i64>,
  /// "Party Trait"
  pub party_passive_skill: PartyPassiveSkillInfo,
}

#[derive(Debug)]
pub struct PartyForm {
  /* Wonder_Api_BasicPartyFormResponseDto_Fields */
  pub id: i32,
  pub form_no: i32,
  pub main: i32,
  /// ## Sub-members
  /// 30% of sub-member stats and passive skills are applied to the main member.
  /// If sub-member and main member are the same character, main member gets additional 10% stat boost.
  pub sub1: i32,
  pub sub2: i32,
  pub weapon: i64,
  pub acc: i64,
  pub strength: i32,
  pub specialskill: SpecialSkillInfo,
  /// "Fame Trait"
  pub skill_pa_fame: i64,
  /* Wonder_Api_PartyinfoPartyFormResponseDto_Fields */
  pub party_no: i32,
  /// Must not be empty
  pub name: String,
}

/// ## Special skills
///
/// Client loads special skills from `skill_sp` master, keyed by `character_id`.
/// Skills are upgraded based on member's promotion level.
/// See `skill_sp_details.unlock_intimacy_lv`.
/// `skill_sp.pattern_number` can be 1 or 2.
#[derive(Debug)]
pub struct SpecialSkillInfo {
  /// Must be non-zero if main member is set.
  ///
  /// CLIENT QUIRK: Client shows list of skills for the character *of the skill itself*,
  /// not the main character of the party form. For example, sending Kazuma's skill ID
  /// will show his skills in selection screen, even if the main character is Megumin.
  pub special_skill_id: i32,
  pub trial: bool,
}

#[derive(Default, Debug, Clone)]
pub struct PartyPassiveSkillInfo {
  pub skill_id: i64,
  pub user_member_id: i64,
}


impl CallCustom for PartyInfo {}

impl Party {
    pub fn new(party_forms: [PartyForm; 5], party_no: i32) -> (r: Self)
        ensures
            r.party_forms == party_forms,
            r.party_no == party_no,
            r.assist == 0,
            r.sub_assists@.len() == 0,
            r.party_passive_skill == (PartyPassiveSkillInfo { skill_id: 0, user_member_id: 0 }),
    {
        Self {
            party_forms,
            party_no,
            assist: 0,
            sub_assists: Vec::new(),
            party_passive_skill: PartyPassiveSkillInfo { skill_id: 0, user_member_id: 0 },
        }
    }

    /// The party as a battle sees it; ids travel as `i32`, wrapped as `as` wraps them.
    pub fn to_battle_party(&self) -> (r: BattleParty)
        ensures
            battle_party_of(*self, r),
    {
        let forms = [
            self.party_forms[0].to_basic_battle_party_form(),
            self.party_forms[1].to_basic_battle_party_form(),
            self.party_forms[2].to_basic_battle_party_form(),
            self.party_forms[3].to_basic_battle_party_form(),
            self.party_forms[4].to_basic_battle_party_form(),
        ];
        let mut subs: Vec<i32> = Vec::new();
        let n = self.sub_assists.len();
        let mut i: usize = 0;
        while i < n
            invariant
                n == self.sub_assists@.len(),
                i <= n,
                subs@.len() == i,
                forall|j: int| 0 <= j < i ==> subs@[j] == #[trigger] self.sub_assists@[j] as i32,
            decreases n - i,
        {
            #[verifier::truncate]
            let v = self.sub_assists[i] as i32;
            subs.push(v);
            i = i + 1;
        }
        #[verifier::truncate]
        let assist = self.assist as i32;
        let passive = PartyPassiveSkillInfo {
            skill_id: self.party_passive_skill.skill_id,
            user_member_id: self.party_passive_skill.user_member_id,
        };
        let r = BattleParty { party_forms: forms, assist, sub_assists: subs, party_passive_skill: passive };
        assert(forall|i: int| 0 <= i < 5 ==> r.party_forms[i] == #[trigger] basic_form(self.party_forms[i]));
        assert(r.sub_assists@ =~= self.sub_assists@.map_values(|a: i64| a as i32));
        r
    }
}

/// A form as a battle sees it.
pub open spec fn basic_form(f: PartyForm) -> BasicBattlePartyForm {
    BasicBattlePartyForm {
        id: f.id,
        party_no: f.party_no,
        form_no: f.form_no,
        main: f.main,
        sub1: f.sub1,
        sub2: f.sub2,
        weapon: f.weapon as i32,
        acc: f.acc as i32,
        skill_pa_fame: f.skill_pa_fame,
    }
}

impl PartyForm {
    /// A form with only a main member, named after its party.
    pub fn new(id: i32, form_no: i32, party_no: i32, main: i32) -> (r: Self)
        ensures
            r.id == id,
            r.form_no == form_no,
            r.main == main,
            r.sub1 == 0,
            r.sub2 == 0,
            r.weapon == 0,
            r.acc == 0,
            r.strength == 1,
            r.specialskill == (SpecialSkillInfo { special_skill_id: 100001, trial: false }),
            r.skill_pa_fame == 0,
            r.party_no == party_no,
            r.name@ == seq!['P', 'a', 'r', 't', 'y'] + int_text(party_no as int),
    {
        let mut name = String::from_str("Party");
        let number = i64_text(party_no as i64);
        push_str(&mut name, number.as_str());
        proof {
            reveal_strlit("Party");
        }
        Self {
            id,
            form_no,
            main,
            sub1: 0,
            sub2: 0,
            weapon: 0,
            acc: 0,
            strength: 1,
            specialskill: SpecialSkillInfo { special_skill_id: 100001, trial: false },
            skill_pa_fame: 0,
            party_no,
            name,
        }
    }

    pub fn to_basic_battle_party_form(&self) -> (r: BasicBattlePartyForm)
        ensures
            r == basic_form(*self),
    {
        #[verifier::truncate]
        let weapon = self.weapon as i32;
        #[verifier::truncate]
        let acc = self.acc as i32;
        BasicBattlePartyForm {
            id: self.id,
            party_no: self.party_no,
            form_no: self.form_no,
            main: self.main,
            sub1: self.sub1,
            sub2: self.sub2,
            weapon,
            acc,
            skill_pa_fame: self.skill_pa_fame,
        }
    }
}

impl PartyPassiveSkillInfo {
    pub fn new(skill_id: i64, user_member_id: i64) -> (r: Self)
        ensures
            r == (PartyPassiveSkillInfo { skill_id, user_member_id }),
    {
        Self { skill_id, user_member_id }
    }
}

/// The sum of the strengths of the forms, each read as a `u32` (`as` wraps negatives).
pub open spec fn forms_strength(forms: [PartyForm; 5]) -> int {
    (forms[0].strength as u32) + (forms[1].strength as u32) + (forms[2].strength as u32)
        + (forms[3].strength as u32) + (forms[4].strength as u32)
}

impl Party {
    /// The party's force: the strength of its forms plus four per assist level.
    pub fn power(&self, assist_level: u32) -> (r: u32)
        requires
            forms_strength(self.party_forms) + 4 * assist_level <= u32::MAX,
        ensures
            r == forms_strength(self.party_forms) + 4 * assist_level,
    {
        let mut total: u32 = 0;
        let mut i: usize = 0;
        while i < 5
            invariant
                i <= 5,
                forms_strength(self.party_forms) + 4 * assist_level <= u32::MAX,
                total == (if i >= 1 { self.party_forms[0].strength as u32 as int } else { 0 })
                    + (if i >= 2 { self.party_forms[1].strength as u32 as int } else { 0 })
                    + (if i >= 3 { self.party_forms[2].strength as u32 as int } else { 0 })
                    + (if i >= 4 { self.party_forms[3].strength as u32 as int } else { 0 })
                    + (if i >= 5 { self.party_forms[4].strength as u32 as int } else { 0 }),
            decreases 5 - i,
        {
            #[verifier::truncate]
            let s = self.party_forms[i].strength as u32;
            total = total + s;
            i = i + 1;
        }
        total + 4 * assist_level
    }
}

/// One row of the party query: a form of a party, with the party's name.
#[derive(Debug, Clone)]
pub struct PartyFormRow {
    pub party_id: i64,
    pub name: String,
    pub form_id: i64,
    pub main_member_id: i64,
    pub sub1_member_id: i64,
    pub sub2_member_id: i64,
    pub weapon_id: i64,
    pub accessory_id: i64,
    pub special_skill_id: i64,
}

/// The form a row describes, in party `party_no`, with the given strength and special skill.
pub open spec fn form_of_row(row: PartyFormRow, party_no: i32, strength: i32, special_skill_id: i32) -> PartyForm {
    PartyForm {
        id: row.form_id as i32,
        form_no: row.form_id as i32,
        main: row.main_member_id as i32,
        sub1: row.sub1_member_id as i32,
        sub2: row.sub2_member_id as i32,
        weapon: row.weapon_id,
        acc: row.accessory_id,
        strength,
        specialskill: SpecialSkillInfo { special_skill_id, trial: false },
        skill_pa_fame: 0,
        party_no,
        name: row.name,
    }
}

pub fn form_from_row(row: &PartyFormRow, party_no: i32, strength: i32, special_skill_id: i32) -> (r: PartyForm)
    ensures
        r == form_of_row(*row, party_no, strength, special_skill_id),
{
    #[verifier::truncate]
    let id = row.form_id as i32;
    #[verifier::truncate]
    let main = row.main_member_id as i32;
    #[verifier::truncate]
    let sub1 = row.sub1_member_id as i32;
    #[verifier::truncate]
    let sub2 = row.sub2_member_id as i32;
    PartyForm {
        id,
        form_no: id,
        main,
        sub1,
        sub2,
        weapon: row.weapon_id,
        acc: row.accessory_id,
        strength,
        specialskill: SpecialSkillInfo { special_skill_id, trial: false },
        skill_pa_fame: 0,
        party_no,
        name: row.name.clone(),
    }
}

/// The special skill a row names, as `as i32` reads it.
pub open spec fn row_special_skill(row: PartyFormRow) -> i32 {
    row.special_skill_id as i32
}

/// The special skill a form gets: the override, or else the one its row names.
pub open spec fn skill_for(special_skill: Option<i32>, row: PartyFormRow) -> i32 {
    match special_skill {
        Some(s) => s,
        None => row_special_skill(row),
    }
}

/// The party that five form rows describe. `special_skill` overrides the skill the rows
/// name, where it is given.
pub fn party_from_rows(rows: &Vec<PartyFormRow>, party_no: i32, strength: i32, special_skill: Option<i32>) -> (r: Party)
    requires
        rows@.len() == 5,
    ensures
        r.party_no == party_no,
        r.assist == 0,
        r.sub_assists@.len() == 0,
        r.party_passive_skill == (PartyPassiveSkillInfo { skill_id: 0, user_member_id: 0 }),
        forall|i: int| 0 <= i < 5 ==> r.party_forms[i] == #[trigger] form_of_row(rows@[i], party_no, strength,
            skill_for(special_skill, rows@[i])),
{
    let r = party_from_rows_at(rows, 0, party_no, strength, special_skill);
    assert forall|i: int| 0 <= i < 5 implies r.party_forms[i] == #[trigger] form_of_row(rows@[i], party_no, strength,
            skill_for(special_skill, rows@[i])) by {
        assert(rows@[0 + i] == rows@[i]);
    }
    r
}

fn skill_of(special_skill: Option<i32>, row: &PartyFormRow) -> (r: i32)
    ensures
        r == skill_for(special_skill, *row),
{
    match special_skill {
        Some(s) => s,
        None => {
            #[verifier::truncate]
            let v = row.special_skill_id as i32;
            v
        },
    }
}

/// The party that the five rows from `start` on describe.
pub fn party_from_rows_at(rows: &Vec<PartyFormRow>, start: usize, party_no: i32, strength: i32, special_skill: Option<i32>) -> (r: Party)
    requires
        start + 5 <= rows@.len(),
    ensures
        r.party_no == party_no,
        r.assist == 0,
        r.sub_assists@.len() == 0,
        r.party_passive_skill == (PartyPassiveSkillInfo { skill_id: 0, user_member_id: 0 }),
        forall|i: int| 0 <= i < 5 ==> r.party_forms[i] == #[trigger] form_of_row(rows@[start + i], party_no, strength,
            skill_for(special_skill, rows@[start + i])),
{
    let n = rows.len();
    assert(start + 5 <= n);
    let i1 = start + 1;
    let i2 = start + 2;
    let i3 = start + 3;
    let i4 = start + 4;
    let f0 = form_from_row(&rows[start], party_no, strength, skill_of(special_skill, &rows[start]));
    let f1 = form_from_row(&rows[i1], party_no, strength, skill_of(special_skill, &rows[i1]));
    let f2 = form_from_row(&rows[i2], party_no, strength, skill_of(special_skill, &rows[i2]));
    let f3 = form_from_row(&rows[i3], party_no, strength, skill_of(special_skill, &rows[i3]));
    let f4 = form_from_row(&rows[i4], party_no, strength, skill_of(special_skill, &rows[i4]));
    let forms = [f0, f1, f2, f3, f4];
    let r = Party::new(forms, party_no);
    assert(forall|i: int| 0 <= i < 5 ==> r.party_forms[i] == #[trigger] form_of_row(rows@[start + i], party_no, strength,
            skill_for(special_skill, rows@[start + i])));
    r
}

/// The rows split into consecutive runs of five, each run one party: the shape in which
/// grouping the rows by party gives parties of exactly five forms.
pub open spec fn rows_form_parties(rows: Seq<PartyFormRow>) -> bool {
    &&& rows.len() % 5 == 0
    &&& forall|i: int| 0 <= i < rows.len() ==> (#[trigger] rows[i]).party_id as i32 == rows[i - i % 5].party_id as i32
    &&& forall|k: int| 0 < k && 5 * k < rows.len() ==> #[trigger] rows[5 * k].party_id as i32 != rows[5 * k - 1].party_id as i32
}

/// The `party_info` answer: each party the rows describe, in order, with strength 12300,
/// and the user's members.
pub fn party_info(rows: &Vec<PartyFormRow>, members: Vec<PartyMember>) -> (r: PartyWire)
    requires
        rows_form_parties(rows@),
    ensures
        r.party@.len() == rows@.len() / 5,
        forall|k: int| 0 <= k < r.party@.len() ==> (#[trigger] r.party@[k]).party_no == rows@[5 * k].party_id as i32
            && r.party@[k].assist == 0
            && r.party@[k].sub_assists@.len() == 0
            && r.party@[k].party_passive_skill == (PartyPassiveSkillInfo { skill_id: 0, user_member_id: 0 })
            && forall|i: int| 0 <= i < 5 ==> r.party@[k].party_forms[i] == #[trigger] form_of_row(rows@[5 * k + i],
                rows@[5 * k].party_id as i32, 12300, skill_for(None, rows@[5 * k + i])),
        r.members == members,
        r.weapons@.len() == 0,
        r.accessories@.len() == 0,
{
    let mut parties: Vec<Party> = Vec::new();
    let n = rows.len();
    let mut base: usize = 0;
    while base < n
        invariant
            rows_form_parties(rows@),
            n == rows@.len(),
            base <= n,
            base % 5 == 0,
            parties@.len() == base / 5,
            forall|j: int| 0 <= j < parties@.len() ==> (#[trigger] parties@[j]).party_no == rows@[5 * j].party_id as i32
                && parties@[j].assist == 0
                && parties@[j].sub_assists@.len() == 0
                && parties@[j].party_passive_skill == (PartyPassiveSkillInfo { skill_id: 0, user_member_id: 0 })
                && forall|i: int| 0 <= i < 5 ==> parties@[j].party_forms[i] == #[trigger] form_of_row(rows@[5 * j + i],
                    rows@[5 * j].party_id as i32, 12300, skill_for(None, rows@[5 * j + i])),
        decreases n - base,
    {
        assert(base + 5 <= n);
        #[verifier::truncate]
        let party_no = rows[base].party_id as i32;
        let party = party_from_rows_at(rows, base, party_no, 12300, None);
        let ghost k = base / 5;
        assert(5 * k == base);
        parties.push(party);
        base = base + 5;
    }
    PartyWire { party: parties, members, weapons: Vec::new(), accessories: Vec::new() }
}

/// The party as a battle sees it: each form in its basic shape, the assist and each sub
/// assist as `as i32` reads it, and the party's passive skill.
pub open spec fn battle_party_of(p: Party, b: BattleParty) -> bool {
    &&& forall|i: int| 0 <= i < 5 ==> b.party_forms[i] == #[trigger] basic_form(p.party_forms[i])
    &&& b.assist == p.assist as i32
    &&& b.sub_assists@ == p.sub_assists@.map_values(|a: i64| a as i32)
    &&& b.party_passive_skill == p.party_passive_skill
}

} // verus!
