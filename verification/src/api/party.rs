use vstd::prelude::*;

use rand::Rng;

use crate::api::{MemberParameter, RemoteData};
use crate::blob::{member_entry, IntoRemoteData, UpdateMember};
use crate::call::{CallCustom, CallResponse};
use crate::api::party_info::Party;
use crate::api::dungeon::PartyAccessory;
use crate::api::dungeon::PartyMember;
use crate::api::dungeon::PartyWeapon;

verus! {

#[derive(Debug)]
pub struct PartymembersResponseDto {
  pub members: Vec<PartymembersMembersResponseDto>,
}

#[derive(Debug)]
pub struct PartymembersMembersResponseDto {
  pub user_member_id: i64,
  pub main: String,
  pub sub: String,
}

#[derive(Debug)]
pub struct GradeUpRequest {
  pub user_member_id: i64,
  pub num1: i32,
  pub num2: i32,
  pub num3: i32,
}

#[derive(Debug)]
pub struct PartyWire {
  pub party: Vec<Party>,
  pub members: Vec<PartyMember>,
  pub weapons: Vec<PartyWeapon>,
  pub accessories: Vec<PartyAccessory>,
}

#[derive(Debug)]
pub struct PartyFormInfoRequestDto {
  pub form_no: i32,
  pub main: i64,
  pub sub1: i64,
  pub sub2: i64,
  pub weapon: i64,
  pub acc: i64,
  pub special_skill: SpecialSkillInfoRequestDto,
  pub skill_pa_fame: i64,
}

#[derive(Debug)]
pub struct SpecialSkillInfoRequestDto {
  pub special_skill_id: i64,
  pub trial: bool,
}

#[derive(Debug)]
pub struct UpdatePartyFormRequest {
  pub party_id: i32,
  pub form_info: Vec<PartyFormInfoRequestDto>,
  pub is_fame_quest: bool,
  pub is_allow_trial: bool,
}

#[derive(Debug)]
pub struct PartychangelistResponseDto {
  pub members: Vec<ChangePartyMember>,
  pub weapons: Vec<ChangePartyWeapon>,
  pub accessories: Vec<PartyAccessory>,
  pub assists: Vec<ChangePartyAssist>,
}

#[derive(Debug)]
pub struct ChangePartyMember {
  pub id: i64,
  pub lv: i32,
  pub member_id: i64,
  pub character_id: i64,
}

#[derive(Debug)]
pub struct ChangePartyWeapon {
  pub id: i64,
  pub weapon_id: i64,
}

#[derive(Debug)]
pub struct ChangePartyAssist {
  pub id: i64,
}

#[derive(Debug)]
pub struct PartyNameSetRequest {
  pub name: String,
  pub party_id: i32,
}

#[derive(Debug)]
pub struct PartyStrengthResponseDto {
  pub strength: i32,
}

#[derive(Debug)]
pub struct LimitBreakResponse {
  pub newlv: i32,
}

#[derive(Debug)]
pub struct LimitBreakRequest {
  pub member_id: i64,
  pub levels: i32,
}

#[derive(Debug)]
pub struct MemberSkillUpResponse {
  pub skill_levels: Vec<MemberSkillLevelUp>,
}

#[derive(Debug)]
pub struct MemberSkillLevelUp {
  pub skill: i32,
  pub lvup: i32,
}

#[derive(Debug)]
pub struct MemberSkillUpRequest {
  pub user_member_id: i64,
  pub kind: i32,
  pub amount: i32,
}

impl CallCustom for PartyWire {}

impl CallCustom for LimitBreakResponse {}

impl CallCustom for MemberSkillUpResponse {}

impl CallCustom for PartyStrengthResponseDto {}

impl CallCustom for PartychangelistResponseDto {}

impl CallCustom for PartymembersResponseDto {}

// ------------------------------------------------------------------------------------------
// Levelling a member up with power potions
// ------------------------------------------------------------------------------------------

/// The experience the three sizes of power potion give, as the client has them.
pub open spec fn potion_xp_spec(num1: int, num2: int, num3: int) -> int {
    300 * num1 + 1500 * num2 + 7500 * num3
}

/// Power potions add up without overflow: each size's total, and the running sums in the
/// order the sizes are counted.
pub open spec fn potion_xp_fits(num1: int, num2: int, num3: int) -> bool {
    &&& i32::MIN <= 300 * num1 <= i32::MAX
    &&& i32::MIN <= 1500 * num2 <= i32::MAX
    &&& i32::MIN <= 7500 * num3 <= i32::MAX
    &&& i32::MIN <= 300 * num1 + 1500 * num2 <= i32::MAX
    &&& i32::MIN <= potion_xp_spec(num1, num2, num3) <= i32::MAX
}

/// The experience the potions give together.
pub fn potion_xp(num1: i32, num2: i32, num3: i32) -> (r: i32)
    requires
        potion_xp_fits(num1 as int, num2 as int, num3 as int),
    ensures
        r == potion_xp_spec(num1 as int, num2 as int, num3 as int),
{
    let a = 300 * num1;
    let b = 1500 * num2;
    let c = 7500 * num3;
    a + b + c
}

/// A member's experience after levelling: what it had plus what the potions give, capped at
/// the most its current limit allows. What the cap cuts off is lost.
pub fn grade_up_xp(xp: i32, total_xp: i32, max_xp: i32) -> (r: i32)
    requires
        i32::MIN <= xp + total_xp <= i32::MAX,
    ensures
        r == (if xp + total_xp < max_xp { xp + total_xp } else { max_xp as int }),
{
    let sum = xp + total_xp;
    if sum < max_xp {
        sum
    } else {
        max_xp
    }
}

/// The potions a level-up uses up: (potion size, count) for each size used, smallest first.
pub open spec fn potions_used_spec(num1: i32, num2: i32, num3: i32) -> Seq<(i64, i32)> {
    let a: Seq<(i64, i32)> = if num1 > 0 { seq![(1i64, num1)] } else { seq![] };
    let b: Seq<(i64, i32)> = if num2 > 0 { seq![(2i64, num2)] } else { seq![] };
    let c: Seq<(i64, i32)> = if num3 > 0 { seq![(3i64, num3)] } else { seq![] };
    a + b + c
}

pub fn potions_to_consume(num1: i32, num2: i32, num3: i32) -> (r: Vec<(i64, i32)>)
    ensures
        r@ == potions_used_spec(num1, num2, num3),
{
    let mut r: Vec<(i64, i32)> = Vec::new();
    if num1 > 0 {
        r.push((1, num1));
    }
    if num2 > 0 {
        r.push((2, num2));
    }
    if num3 > 0 {
        r.push((3, num3));
    }
    assert(r@ =~= potions_used_spec(num1, num2, num3));
    r
}

/// The answer to a level-up or a promotion: the member, updated, then the item changes.
pub open spec fn member_update_remote(r: Seq<RemoteData>, member: MemberParameter, items: Seq<RemoteData>) -> bool {
    &&& r.len() == 1 + items.len()
    &&& member_entry(5, member, "front"@, r[0])
    &&& r.subrange(1, r.len() as int) == items
}

pub fn grade_up_response(member: MemberParameter, item_updates: Vec<RemoteData>, time: u32) -> (r: CallResponse<()>)
    ensures
        r.status == 0,
        r.time == Some(time),
        r.notifications@.len() == 0,
        member_update_remote(r.remote@, member, item_updates@),
{
    let ghost items = item_updates@;
    let mut response = CallResponse::at_time(0, time, ());
    response.add_remote_data(UpdateMember::new(member).into_remote_data());
    response.add_remote_data(item_updates);
    assert(response.remote@.subrange(1, response.remote@.len() as int) =~= items);
    response
}

/// The answer to a promotion: the member's new promotion level, and the member, updated.
pub fn limit_break_response(member: MemberParameter, promotion_level: i32, time: u32) -> (r: CallResponse<LimitBreakResponse>)
    ensures
        r.status == 0,
        r.time == Some(time),
        r.notifications@.len() == 0,
        r.custom.newlv == promotion_level,
        r.remote@.len() == 1,
        member_entry(5, member, "front"@, r.remote@[0]),
{
    let mut response = CallResponse::at_time(0, time, LimitBreakResponse { newlv: promotion_level });
    response.add_remote_data(UpdateMember::new(member).into_remote_data());
    response
}

/// The strength the party screen shows.
pub fn party_strength() -> (r: PartyStrengthResponseDto)
    ensures
        r.strength == 1000,
{
    PartyStrengthResponseDto { strength: 1000 }
}

// ------------------------------------------------------------------------------------------
// Raising a member's skills
// ------------------------------------------------------------------------------------------

/// The number of skill rolls: three per reserve member (kind 0), one per skill potion (kind
/// 1). No other kind is known.
pub fn skill_up_rolls(kind: i32, amount: i32) -> (r: Option<i32>)
    requires
        kind == 0 ==> i32::MIN <= amount * 3 <= i32::MAX,
    ensures
        kind == 0 ==> r == Some((amount * 3) as i32),
        kind == 1 ==> r == Some(amount),
        kind != 0 && kind != 1 ==> r is None,
{
    if kind == 0 {
        Some(amount * 3)
    } else if kind == 1 {
        Some(amount)
    } else {
        None
    }
}

/// The highest level a skill reaches.
pub open spec fn max_skill_level() -> i32 {
    5
}

/// A number below `n`, at random: `rand::rng().random_range(0..n)`.
#[verifier::external_body]
pub(crate) fn random_below(n: usize) -> (r: usize)
    requires
        n > 0,
    ensures
        r < n,
{
    rand::rng().random_range(0..n)
}

/// A skill below the top level.
pub open spec fn upgradable(s: Option<(i64, i32)>) -> bool {
    s matches Some((_, lv)) && lv < 5
}

/// The number of skills still below the top level.
pub open spec fn upgradable_count(skills: Seq<Option<(i64, i32)>>) -> nat
    decreases skills.len(),
{
    if skills.len() == 0 {
        0
    } else {
        upgradable_count(skills.drop_last()) + (if upgradable(skills.last()) { 1nat } else { 0nat })
    }
}

/// One roll after another, each raising a skill below the top level by one, until the rolls
/// are used up or no skill is below the top level. Which skill a roll raises is chosen at
/// random; the result lists each raise as (skill, new level), in order, and the skills of an
/// id gain, in all, one level per raise that names it.
pub open spec fn skill_up_valid(
    before: Seq<Option<(i64, i32)>>,
    after: Seq<Option<(i64, i32)>>,
    raises: Seq<(i64, i32)>,
    rolls: int,
) -> bool {
    &&& after.len() == before.len()
    &&& raises.len() <= (if rolls < 0 { 0 } else { rolls })
    &&& raises.len() < rolls ==> upgradable_count(after) == 0
    &&& forall|k: int| 0 <= k < after.len() ==> match (before[k], #[trigger] after[k]) {
        (Some((id, lv)), Some((id2, lv2))) => id2 == id && lv <= lv2 && (lv2 == lv || lv2 <= 5),
        (None, None) => true,
        _ => false,
    }
    &&& forall|id: i64| #[trigger] id_levels(after, id) == id_levels(before, id) + raise_count(raises, id)
}

/// The levels of the skills with the id, summed.
pub open spec fn id_levels(skills: Seq<Option<(i64, i32)>>, id: i64) -> int
    decreases skills.len(),
{
    if skills.len() == 0 {
        0
    } else {
        id_levels(skills.drop_last(), id) + (match skills.last() {
            Some((i, lv)) => if i == id { lv as int } else { 0 },
            None => 0,
        })
    }
}

proof fn lemma_id_levels_raise(s: Seq<Option<(i64, i32)>>, p: int, id0: i64, lv: i32, x: i64)
    requires
        0 <= p < s.len(),
        s[p] == Some((id0, lv)),
        lv < i32::MAX,
    ensures
        id_levels(s.update(p, Some((id0, (lv + 1) as i32))), x) == id_levels(s, x) + (if x == id0 { 1int } else { 0int }),
    decreases s.len(),
{
    let t = s.update(p, Some((id0, (lv + 1) as i32)));
    if p == s.len() - 1 {
        assert(t.drop_last() =~= s.drop_last());
    } else {
        assert(t.drop_last() =~= s.drop_last().update(p, Some((id0, (lv + 1) as i32))));
        lemma_id_levels_raise(s.drop_last(), p, id0, lv, x);
    }
}

proof fn lemma_upgradable_pick(skills: Seq<Option<(i64, i32)>>)
    requires
        upgradable_count(skills) > 0,
    ensures
        exists|k: int| 0 <= k < skills.len() && upgradable(#[trigger] skills[k]),
    decreases skills.len(),
{
    if !upgradable(skills.last()) {
        lemma_upgradable_pick(skills.drop_last());
        let k = choose|k: int| 0 <= k < skills.drop_last().len() && upgradable(#[trigger] skills.drop_last()[k]);
        assert(skills[k] == skills.drop_last()[k]);
    }
}

fn upgradable_positions(skills: &Vec<Option<(i64, i32)>>) -> (r: Vec<usize>)
    ensures
        forall|k: int| 0 <= k < r@.len() ==> (#[trigger] r@[k]) < skills@.len() && upgradable(skills@[r@[k] as int]),
        r@.len() == upgradable_count(skills@),
{
    let mut r: Vec<usize> = Vec::new();
    let mut i: usize = 0;
    while i < skills.len()
        invariant
            i <= skills@.len(),
            forall|k: int| 0 <= k < r@.len() ==> (#[trigger] r@[k]) < i && upgradable(skills@[r@[k] as int]),
            r@.len() == upgradable_count(skills@.subrange(0, i as int)),
        decreases skills@.len() - i,
    {
        assert(skills@.subrange(0, i + 1).drop_last() =~= skills@.subrange(0, i as int));
        match skills[i] {
            Some((_, lv)) => {
                if lv < 5 {
                    r.push(i);
                }
            },
            None => {},
        }
        i = i + 1;
    }
    assert(skills@.subrange(0, skills@.len() as int) =~= skills@);
    r
}

pub fn upgrade_skills(skills: Vec<Option<(i64, i32)>>, rolls: i32) -> (r: (Vec<Option<(i64, i32)>>, Vec<(i64, i32)>))
    ensures
        skill_up_valid(skills@, r.0@, r.1@, rolls as int),
{
    let ghost before = skills@;
    let mut skills = skills;
    let mut raises: Vec<(i64, i32)> = Vec::new();
    let mut roll: i32 = 0;
    while roll < rolls
        invariant
            0 <= roll <= rolls || (roll == 0 && rolls <= 0),
            raises@.len() == roll,
            skill_up_valid(before, skills@, raises@, roll as int),
        ensures
            skill_up_valid(before, skills@, raises@, rolls as int),
        decreases rolls - roll,
    {
        let positions = upgradable_positions(&skills);
        if positions.len() == 0 {
            break;
        }
        let pick = positions[random_below(positions.len())];
        match skills[pick] {
            Some((id, lv)) => {
                let ghost old_skills = skills@;
                let ghost old_raises = raises@;
                skills.set(pick, Some((id, lv + 1)));
                raises.push((id, lv + 1));
                assert forall|x: i64| #[trigger] id_levels(skills@, x) == id_levels(before, x) + raise_count(raises@, x) by {
                    lemma_id_levels_raise(old_skills, pick as int, id, lv, x);
                    assert(raises@.drop_last() =~= old_raises);
                    assert(skills@ == old_skills.update(pick as int, Some((id, (lv + 1) as i32))));
                }
                assert forall|k: int| 0 <= k < skills@.len() implies match (before[k], #[trigger] skills@[k]) {
                    (Some((id, lv)), Some((id2, lv2))) => id2 == id && lv <= lv2 && (lv2 == lv || lv2 <= 5),
                    (None, None) => true,
                    _ => false,
                } by {
                    if k != pick {
                        assert(skills@[k] == old_skills[k]);
                    }
                }
            },
            None => {},
        }
        roll = roll + 1;
    }
    (skills, raises)
}

/// How many times the rolls raised a skill.
pub open spec fn raise_count(raises: Seq<(i64, i32)>, id: i64) -> nat
    decreases raises.len(),
{
    if raises.len() == 0 {
        0
    } else {
        raise_count(raises.drop_last(), id) + (if raises.last().0 == id { 1nat } else { 0nat })
    }
}

fn count_raises(raises: &Vec<(i64, i32)>, id: i64) -> (r: i32)
    requires
        raises@.len() <= i32::MAX,
    ensures
        r == raise_count(raises@, id),
{
    let mut n: i32 = 0;
    let mut i: usize = 0;
    while i < raises.len()
        invariant
            i <= raises@.len(),
            raises@.len() <= i32::MAX,
            n == raise_count(raises@.subrange(0, i as int), id),
            n <= i,
        decreases raises@.len() - i,
    {
        assert(raises@.subrange(0, i + 1).drop_last() =~= raises@.subrange(0, i as int));
        if raises[i].0 == id {
            n = n + 1;
        }
        i = i + 1;
    }
    assert(raises@.subrange(0, raises@.len() as int) =~= raises@);
    n
}

/// The skills a member's skill-up raised, as the client numbers them (the last skill is 1,
/// the first is the number of skills), with how many levels each gained; skills that gained
/// nothing are left out. Every skill slot must hold a skill.
pub open spec fn level_ups_spec(skills: Seq<Option<(i64, i32)>>, raises: Seq<(i64, i32)>, upto: int) -> Seq<MemberSkillLevelUp>
    decreases upto,
{
    if upto <= 0 {
        seq![]
    } else {
        let prev = level_ups_spec(skills, raises, upto - 1);
        let i = upto - 1;
        let n = raise_count(raises, skills[i].unwrap().0);
        if n > 0 {
            prev.push(MemberSkillLevelUp { skill: (skills.len() - i) as i32, lvup: n as i32 })
        } else {
            prev
        }
    }
}

pub fn skill_level_ups(skills: &Vec<Option<(i64, i32)>>, raises: &Vec<(i64, i32)>) -> (r: Option<Vec<MemberSkillLevelUp>>)
    requires
        raises@.len() <= i32::MAX,
        skills@.len() <= i32::MAX,
    ensures
        r is None <==> exists|i: int| 0 <= i < skills@.len() && (#[trigger] skills@[i]) is None,
        r matches Some(v) ==> v@ == level_ups_spec(skills@, raises@, skills@.len() as int),
{
    let mut out: Vec<MemberSkillLevelUp> = Vec::new();
    let mut i: usize = 0;
    while i < skills.len()
        invariant
            i <= skills@.len(),
            raises@.len() <= i32::MAX,
            skills@.len() <= i32::MAX,
            forall|j: int| 0 <= j < i ==> (#[trigger] skills@[j]) is Some,
            out@ == level_ups_spec(skills@, raises@, i as int),
        decreases skills@.len() - i,
    {
        match skills[i] {
            Some((id, _)) => {
                let n = count_raises(raises, id);
                if n > 0 {
                    #[verifier::truncate]
                    let slot = (skills.len() - i) as i32;
                    out.push(MemberSkillLevelUp { skill: slot, lvup: n });
                }
            },
            None => return None,
        }
        i = i + 1;
    }
    Some(out)
}

/// The answer to a skill-up: the skills raised, and the member, updated.
pub fn member_skill_up_response(levels: Vec<MemberSkillLevelUp>, member: MemberParameter, time: u32) -> (r: CallResponse<MemberSkillUpResponse>)
    ensures
        r.status == 0,
        r.time == Some(time),
        r.notifications@.len() == 0,
        r.custom.skill_levels@ == levels@,
        r.remote@.len() == 1,
        member_entry(5, member, "front"@, r.remote@[0]),
{
    let mut response = CallResponse::at_time(0, time, MemberSkillUpResponse { skill_levels: levels });
    response.add_remote_data(UpdateMember::new(member).into_remote_data());
    response
}

/// The party members screen: no members listed (the client shows its own list).
pub fn party_members() -> (r: PartymembersResponseDto)
    ensures
        r.members@.len() == 0,
{
    PartymembersResponseDto { members: Vec::new() }
}

/// What can be swapped into a party: nothing of any kind.
pub fn party_change_list() -> (r: PartychangelistResponseDto)
    ensures
        r.members@.len() == 0,
        r.weapons@.len() == 0,
        r.accessories@.len() == 0,
        r.assists@.len() == 0,
{
    PartychangelistResponseDto { members: Vec::new(), weapons: Vec::new(), accessories: Vec::new(), assists: Vec::new() }
}

/// The forms of a party update, column by column, as the store takes them.
#[derive(Debug)]
pub struct PartyFormColumns {
    pub form_ids: Vec<i64>,
    pub main_member_ids: Vec<i64>,
    pub sub1_member_ids: Vec<i64>,
    pub sub2_member_ids: Vec<i64>,
    pub weapon_ids: Vec<i64>,
    pub accessory_ids: Vec<i64>,
    pub special_skill_ids: Vec<i64>,
}

/// The columns of a party update: for each form in order, its number, its three members, its
/// weapon, its accessory and its special skill.
pub fn party_form_columns(forms: &Vec<PartyFormInfoRequestDto>) -> (r: PartyFormColumns)
    ensures
        r.form_ids@.len() == forms@.len(),
        r.main_member_ids@.len() == forms@.len(),
        r.sub1_member_ids@.len() == forms@.len(),
        r.sub2_member_ids@.len() == forms@.len(),
        r.weapon_ids@.len() == forms@.len(),
        r.accessory_ids@.len() == forms@.len(),
        r.special_skill_ids@.len() == forms@.len(),
        forall|k: int| 0 <= k < forms@.len() ==> {
            let f = #[trigger] forms@[k];
            &&& r.form_ids@[k] == f.form_no as i64
            &&& r.main_member_ids@[k] == f.main
            &&& r.sub1_member_ids@[k] == f.sub1
            &&& r.sub2_member_ids@[k] == f.sub2
            &&& r.weapon_ids@[k] == f.weapon
            &&& r.accessory_ids@[k] == f.acc
            &&& r.special_skill_ids@[k] == f.special_skill.special_skill_id
        },
{
    let mut c = PartyFormColumns {
        form_ids: Vec::new(),
        main_member_ids: Vec::new(),
        sub1_member_ids: Vec::new(),
        sub2_member_ids: Vec::new(),
        weapon_ids: Vec::new(),
        accessory_ids: Vec::new(),
        special_skill_ids: Vec::new(),
    };
    let mut i: usize = 0;
    while i < forms.len()
        invariant
            i <= forms@.len(),
            c.form_ids@.len() == i,
            c.main_member_ids@.len() == i,
            c.sub1_member_ids@.len() == i,
            c.sub2_member_ids@.len() == i,
            c.weapon_ids@.len() == i,
            c.accessory_ids@.len() == i,
            c.special_skill_ids@.len() == i,
            forall|k: int| 0 <= k < i ==> {
                let f = #[trigger] forms@[k];
                &&& c.form_ids@[k] == f.form_no as i64
                &&& c.main_member_ids@[k] == f.main
                &&& c.sub1_member_ids@[k] == f.sub1
                &&& c.sub2_member_ids@[k] == f.sub2
                &&& c.weapon_ids@[k] == f.weapon
                &&& c.accessory_ids@[k] == f.acc
                &&& c.special_skill_ids@[k] == f.special_skill.special_skill_id
            },
        decreases forms@.len() - i,
    {
        let f = &forms[i];
        c.form_ids.push(f.form_no as i64);
        c.main_member_ids.push(f.main);
        c.sub1_member_ids.push(f.sub1);
        c.sub2_member_ids.push(f.sub2);
        c.weapon_ids.push(f.weapon);
        c.accessory_ids.push(f.acc);
        c.special_skill_ids.push(f.special_skill.special_skill_id);
        i = i + 1;
    }
    c
}

} // verus!
