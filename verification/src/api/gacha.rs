use vstd::prelude::*;

use rand::seq::IteratorRandom;
use rust_decimal::prelude::ToPrimitive;
use rust_decimal::Decimal;

use crate::api::login::notifications_match;
use crate::api::{item_type_code, NotificationData, RemoteData, RemoteDataItemType};
use crate::blob::plain_entry;
use crate::call::{CallCustom, CallResponse};
use crate::master::{field_i32, field_i64, field_u32, rows_view, FieldsView, MasterRow};

verus! {

#[derive(Default, Debug)]
pub struct GachaInfo {
  pub gacha: Vec<GachaItem>,
}

#[derive(Debug, Clone)]
pub struct GachaItem {
  pub gachaid: u32,
  pub daily: bool,
  pub type1: String,
  pub val1: u32,
  pub type10: String,
  pub val10: u32,
  pub ticket: u32,
  pub ticket_num: u32,
  pub draw_count: u32,
  pub remain_draw_count: u32,
  pub upperlimitcount: u32,
  pub user_story_id: u32,
  pub stepup_bonus: Option<StepupBonus>,
  pub random_bonus: Option<RandomBonus>,
  pub stepup_info: Option<StepupInfo>,
  pub select_info: Option<SelectInfo>,
  pub continuation_info: Option<ContinuationInfo>,
  pub member_select_info: Option<MemberSelectInfo>,
  pub first_free_ids: Vec<u32>,
}

#[derive(Debug, Clone)]
pub struct StepupBonus;

#[derive(Debug, Clone)]
pub struct RandomBonus {
  pub gacha_item_id: u32,
  pub items: Vec<RandomBonusItem>,
}

#[derive(Debug, Clone)]
pub struct RandomBonusItem {
  pub pack_id: u32,
  pub rate: u32,
}

#[derive(Debug, Clone)]
pub struct StepupInfo {
  pub step: u32,
  pub loop_count: u32,
  pub is_drawable: bool,
}

#[derive(Debug, Clone)]
pub struct SelectInfo {
  pub select_character_id: u32,
  pub select_character_id_list: Vec<u32>,
}

#[derive(Debug, Clone)]
pub struct ContinuationInfo;

#[derive(Debug, Clone)]
pub struct MemberSelectInfo {
  pub select_member_id_list: Vec<u32>,
}

#[derive(Debug)]
pub struct GachaTutorial {
  pub gacha_id: u32,
  pub goods: Vec<GachaGoodItem>,
}

#[derive(Debug)]
pub struct GachaGoodItem {
  pub item_type: u8,
  pub item_id: u32,
  pub item_num: u32,
  pub is_new: bool,
}

#[derive(Default, Debug)]
pub struct GachaResult {
  pub gacha_id: i32,
  pub goods: Vec<GachaGood>,
  pub bonus_info: Option<BonusInfo>,
  pub bonus_step: Option<StepupBonusStep>,
}

#[derive(Default, Debug)]
pub struct StepupBonusStep {
  pub stepup_bonus_id: i32,
  pub old_step: i32,
  pub new_step: i32,
}

#[derive(Default, Debug)]
pub struct GachaGood {
  pub itemtype: i32,
  pub itemid: i64,
  pub itemnum: i32,
  pub isnew: bool,
}

#[derive(Default, Debug)]
pub struct BonusInfo {
  pub items: Vec<BonusItem>,
  pub rare: i32,
  pub bonus_type: i32,
  pub bonus_animation: String,
}

#[derive(Default, Debug)]
pub struct BonusItem {
  pub item_type: i32,
  pub item_id: i64,
  pub item_num: i32,
}

#[derive(Debug)]
pub struct GachaTutorialRequest {
  pub kind: i32,
}

#[derive(Debug)]
pub struct GachaChainRequest {
  pub gacha_id: i32,
  pub money_type: i32,
}

#[derive(Debug)]
pub struct GachaNormalRequest {
  pub gacha_id: i32,
  pub money_type: i32,
}

#[derive(Debug)]
pub struct GachaRateRequest {
  pub gacha_id: i32,
}

#[derive(Debug)]
pub struct GachaRateAssistRequest {
  pub gacha_id: i32,
}

#[derive(Default, Debug)]
pub struct GachaRate {
  pub gacha_id: i32,
  /// "10x recruit (1st-9th use) and 1x recruit appearance rates"
  pub rate: Vec<GachaRateRate>,
  /// "10x recruit (10th use) appearance rates".
  pub limitrate: Vec<GachaRateRate>,
  /// "10x recruit (1st-9th use) and 1x recruit". Derived from [rate].
  pub rarerate: Vec<GachaRateRare>,
  /// "10x recruit (10th use)". Derived from [limitrate].
  pub limitrarerate: Vec<GachaRateRare>,
  pub bonus_per_draw_count: i32,
  /// "10x recruit (draw [bonus_per_draw_count]) set item appearance rates"
  pub bonusrate: Vec<GachaRateBonusItem>,
}

#[derive(Default, Debug)]
pub struct GachaRateRate {
  pub rarity: i32,
  pub member_id: i64,
  /// Three decimal places, e.g. 10.500 = 10.500%
  pub rate: i32,
  /// Displays "appearance rates up" in UI
  pub is_rate_up: bool,
  /// Displays character in "character details" tab
  pub is_details_visible: bool,
  pub details_priority: i32,
}

pub struct Rate(pub i32);

#[derive(Default, Debug)]
pub struct GachaRateRare {
  pub rare: i32,
  /// Three decimal places, e.g. 12.234 = 123.450%
  pub rate: i32,
}

#[derive(Default, Debug)]
pub struct GachaRateBonusItem {
  pub pack_id: i64,
  /// Three decimal places, e.g. 12.345 = 12.345%
  pub rate: i32,
}

impl CallCustom for GachaInfo {}

impl CallCustom for GachaTutorial {}

impl CallCustom for GachaResult {}

/// A gacha with nothing but its id: drawn daily, once.
pub open spec fn is_simple_gacha(g: GachaItem, gachaid: u32) -> bool {
    &&& g.gachaid == gachaid
    &&& g.daily
    &&& g.type1@.len() == 0
    &&& g.val1 == 0
    &&& g.type10@.len() == 0
    &&& g.val10 == 0
    &&& g.ticket == 0
    &&& g.ticket_num == 0
    &&& g.draw_count == 1
    &&& g.remain_draw_count == 0
    &&& g.upperlimitcount == 0
    &&& g.user_story_id == 0
    &&& g.stepup_bonus is None
    &&& g.random_bonus is None
    &&& g.stepup_info is None
    &&& g.select_info is None
    &&& g.continuation_info is None
    &&& g.member_select_info is None
    &&& g.first_free_ids@.len() == 0
}

impl GachaItem {
    pub fn new_simple(gachaid: u32) -> (r: Self)
        ensures
            is_simple_gacha(r, gachaid),
    {
        Self {
            gachaid,
            daily: true,
            type1: String::new(),
            val1: 0,
            type10: String::new(),
            val10: 0,
            ticket: 0,
            ticket_num: 0,
            draw_count: 1,
            remain_draw_count: 0,
            upperlimitcount: 0,
            user_story_id: 0,
            stepup_bonus: None,
            random_bonus: None,
            stepup_info: None,
            select_info: None,
            continuation_info: None,
            member_select_info: None,
            first_free_ids: Vec::new(),
        }
    }
}

impl GachaGoodItem {
    pub fn new(item_type: u8, item_id: u32, item_num: u32, is_new: bool) -> (r: Self)
        ensures
            r == (GachaGoodItem { item_type, item_id, item_num, is_new }),
    {
        Self { item_type, item_id, item_num, is_new }
    }
}

impl GachaGood {
    pub fn new(itemtype: i32, itemid: i64, itemnum: i32, isnew: bool) -> (r: Self)
        ensures
            r == (GachaGood { itemtype, itemid, itemnum, isnew }),
    {
        Self { itemtype, itemid, itemnum, isnew }
    }
}

/// The notifications of the gacha list: two gachas to show, and the reference of the first.
pub open spec fn gacha_info_notifications() -> Seq<(i32, i32, i32, i32, Seq<char>, Seq<char>)> {
    seq![(1i32, 12i32, 19i32, 323041i32, ""@, ""@), (1, 12, 19, 410436, ""@, ""@), (1, 26, 323041, 1, ""@, ""@)]
}

/// Every row of the `gacha` master has a `gacha_id` that reads as a `u32`.
pub open spec fn gacha_ids_readable(rows: Seq<FieldsView>) -> bool {
    forall|i: int| 0 <= i < rows.len() ==> (#[trigger] field_u32(rows[i], "gacha_id"@)) is Some
}

/// The gacha list: each gacha of the `gacha` master, in order, as a simple gacha. `None`
/// where a row's id does not read.
pub fn gacha_info(rows: &Vec<MasterRow>, time: u32) -> (r: Option<CallResponse<GachaInfo>>)
    ensures
        r is None <==> !gacha_ids_readable(rows_view(rows@)),
        r matches Some(resp) ==> {
            &&& resp.status == 0
            &&& resp.time == Some(time)
            &&& resp.remote@.len() == 0
            &&& notifications_match(resp.notifications@, gacha_info_notifications())
            &&& resp.custom.gacha@.len() == rows@.len()
            &&& forall|k: int| 0 <= k < rows@.len() ==>
                is_simple_gacha(#[trigger] resp.custom.gacha@[k], field_u32(rows@[k]@, "gacha_id"@).unwrap())
        },
{
    let mut gacha: Vec<GachaItem> = Vec::new();
    let mut k: usize = 0;
    while k < rows.len()
        invariant
            k <= rows@.len(),
            gacha@.len() == k,
            forall|j: int| 0 <= j < k ==> (#[trigger] field_u32(rows_view(rows@)[j], "gacha_id"@)) is Some,
            forall|j: int| 0 <= j < k ==> is_simple_gacha(#[trigger] gacha@[j], field_u32(rows@[j]@, "gacha_id"@).unwrap()),
        decreases rows@.len() - k,
    {
        assert(rows_view(rows@)[k as int] == rows@[k as int]@);
        match rows[k].get_u32("gacha_id") {
            Some(id) => gacha.push(GachaItem::new_simple(id)),
            None => return None,
        }
        k = k + 1;
    }
    let mut response = CallResponse::at_time(0, time, GachaInfo { gacha });
    response.add_notifications(vec![
        NotificationData::new(1, 12, 19, 323041, String::from_str(""), String::from_str("")),
        NotificationData::new(1, 12, 19, 410436, String::from_str(""), String::from_str("")),
        NotificationData::new(1, 26, 323041, 1, String::from_str(""), String::from_str("")),
    ]);
    Some(response)
}

/// The tutorial draw: of kind 1, one member; of any other kind, nothing.
pub fn gacha_tutorial(kind: i32) -> (r: GachaTutorial)
    ensures
        r.gacha_id == 100002,
        kind == 1 ==> r.goods@ == seq![GachaGoodItem { item_type: 4, item_id: 1032102, item_num: 1, is_new: true }],
        kind != 1 ==> r.goods@.len() == 0,
{
    if kind == 1 {
        let goods = vec![GachaGoodItem::new(4, 1032102, 1, true)];
        assert(goods@ =~= seq![GachaGoodItem { item_type: 4, item_id: 1032102, item_num: 1, is_new: true }]);
        GachaTutorial { gacha_id: 100002, goods }
    } else {
        GachaTutorial { gacha_id: 100002, goods: Vec::new() }
    }
}

// ------------------------------------------------------------------------------------------
// A normal draw
// ------------------------------------------------------------------------------------------

/// `(0..n).choose_multiple(&mut rand::rng(), amount)` of rand: `amount` distinct numbers
/// below `n` picked at random, or all of them where there are fewer; in no promised order.
#[verifier::external_body]
pub(crate) fn choose_distinct(n: usize, amount: usize) -> (r: Vec<usize>)
    ensures
        r@.len() == (if n < amount { n } else { amount }),
        forall|k: int| 0 <= k < r@.len() ==> #[trigger] r@[k] < n,
        forall|a: int, b: int| 0 <= a < b < r@.len() ==> #[trigger] r@[a] != #[trigger] r@[b],
{
    (0..n).choose_multiple(&mut rand::rng(), amount)
}

/// Every member row's rarity reads as an `i32`.
pub open spec fn rarities_readable(rows: Seq<FieldsView>) -> bool {
    forall|i: int| 0 <= i < rows.len() ==> (#[trigger] field_i32(rows[i], "rare"@)) is Some
}

/// A member that a normal draw can give: rarity 2 or more.
pub open spec fn drawable(fs: FieldsView) -> bool {
    field_i32(fs, "rare"@) matches Some(r) && r >= 2
}

/// The positions of the drawable members, in order.
pub open spec fn drawable_positions(rows: Seq<FieldsView>, upto: int) -> Seq<int>
    decreases upto,
{
    if upto <= 0 {
        seq![]
    } else {
        let prev = drawable_positions(rows, upto - 1);
        if drawable(rows[upto - 1]) { prev.push(upto - 1) } else { prev }
    }
}

proof fn lemma_drawable_positions(rows: Seq<FieldsView>, upto: int)
    requires
        0 <= upto <= rows.len(),
    ensures
        forall|k: int| 0 <= k < drawable_positions(rows, upto).len() ==>
            0 <= #[trigger] drawable_positions(rows, upto)[k] < upto && drawable(rows[drawable_positions(rows, upto)[k]]),
    decreases upto,
{
    if upto > 0 {
        lemma_drawable_positions(rows, upto - 1);
        let prev = drawable_positions(rows, upto - 1);
        if drawable(rows[upto - 1]) {
            assert forall|k: int| 0 <= k < prev.push(upto - 1).len() implies
                0 <= #[trigger] prev.push(upto - 1)[k] < upto && drawable(rows[prev.push(upto - 1)[k]]) by {
                if k < prev.len() {
                    assert(prev.push(upto - 1)[k] == prev[k]);
                }
            }
        }
    }
}

/// The good for the `p`-th drawable member: the member (item type 4), one of it, new.
pub open spec fn good_at(rows: Seq<FieldsView>, p: int) -> GachaGood {
    let row = rows[drawable_positions(rows, rows.len() as int)[p]];
    GachaGood { itemtype: 4, itemid: field_i64(row, "id"@).unwrap(), itemnum: 1, isnew: true }
}

/// A good of some drawable member.
pub open spec fn is_drawn(rows: Seq<FieldsView>, g: GachaGood) -> bool {
    exists|p: int| 0 <= p < drawable_positions(rows, rows.len() as int).len() && #[trigger] good_at(rows, p) == g
}

/// The drawable positions are the positions of the members of rarity 2 or more.
pub proof fn law_drawn_members_are_drawable(rows: Seq<FieldsView>, p: int)
    requires
        0 <= p < drawable_positions(rows, rows.len() as int).len(),
    ensures
        drawable(rows[drawable_positions(rows, rows.len() as int)[p]]),
        0 <= drawable_positions(rows, rows.len() as int)[p] < rows.len(),
{
    lemma_drawable_positions(rows, rows.len() as int);
}

proof fn lemma_drawable_positions_hold(rows: Seq<FieldsView>, upto: int, i: int)
    requires
        0 <= i < upto <= rows.len(),
    ensures
        drawable_positions(rows, upto).contains(i) <==> (field_i32(rows[i], "rare"@) matches Some(r) && r >= 2),
    decreases upto,
{
    let prev = drawable_positions(rows, upto - 1);
    lemma_drawable_positions(rows, upto - 1);
    if i == upto - 1 {
        assert(!prev.contains(i)) by {
            if prev.contains(i) {
                let k = choose|k: int| 0 <= k < prev.len() && prev[k] == i;
                assert(prev[k] < upto - 1);
            }
        }
        if drawable(rows[upto - 1]) {
            assert(prev.push(upto - 1)[prev.len() as int] == i);
        }
    } else {
        lemma_drawable_positions_hold(rows, upto - 1, i);
        if drawable(rows[upto - 1]) {
            let q = prev.push(upto - 1);
            if prev.contains(i) {
                let k = choose|k: int| 0 <= k < prev.len() && prev[k] == i;
                assert(q[k] == i);
            }
            if q.contains(i) {
                let k = choose|k: int| 0 <= k < q.len() && q[k] == i;
                assert(k < prev.len());
                assert(prev[k] == i);
            }
        }
    }
}

/// A normal draw can give every member of rarity 2 or more, and no other: a row is among
/// the drawable ones exactly when its rarity reads as 2 or more.
pub proof fn law_members_of_rarity_two_or_more_are_drawable(rows: Seq<FieldsView>, i: int)
    requires
        0 <= i < rows.len(),
    ensures
        drawable_positions(rows, rows.len() as int).contains(i) <==> (field_i32(rows[i], "rare"@) matches Some(r) && r >= 2),
{
    lemma_drawable_positions_hold(rows, rows.len() as int, i);
}

/// The rows of the members a normal draw can give. `None` where a rarity does not read.
pub fn drawable_members(rows: &Vec<MasterRow>) -> (r: Option<Vec<usize>>)
    ensures
        r is None <==> !rarities_readable(rows_view(rows@)),
        r matches Some(v) ==> v@.map_values(|i: usize| i as int) == drawable_positions(rows_view(rows@), rows@.len() as int),
{
    let mut out: Vec<usize> = Vec::new();
    let mut i: usize = 0;
    while i < rows.len()
        invariant
            i <= rows@.len(),
            forall|j: int| 0 <= j < i ==> (#[trigger] field_i32(rows_view(rows@)[j], "rare"@)) is Some,
            out@.map_values(|i: usize| i as int) == drawable_positions(rows_view(rows@), i as int),
        decreases rows@.len() - i,
    {
        assert(rows_view(rows@)[i as int] == rows@[i as int]@);
        match rows[i].get_i32("rare") {
            Some(rare) => {
                if rare >= 2 {
                    out.push(i);
                }
                assert(out@.map_values(|i: usize| i as int) =~= drawable_positions(rows_view(rows@), i + 1));
            },
            None => return None,
        }
        i = i + 1;
    }
    Some(out)
}

/// The goods of a normal draw, for the drawn positions among the drawable members: each a
/// member (item type 4), one of it, new. `None` where a drawn member's id does not read.
pub open spec fn drawn_goods(rows: Seq<FieldsView>, drawable: Seq<usize>, picks: Seq<usize>, r: Option<Seq<GachaGood>>) -> bool {
    let ids_read = forall|k: int| 0 <= k < picks.len() ==> (#[trigger] field_i64(rows[drawable[picks[k] as int] as int], "id"@)) is Some;
    &&& r is None <==> !ids_read
    &&& r matches Some(g) ==> g.len() == picks.len() && forall|k: int| 0 <= k < picks.len() ==>
        #[trigger] g[k] == (GachaGood {
            itemtype: 4,
            itemid: field_i64(rows[drawable[picks[k] as int] as int], "id"@).unwrap(),
            itemnum: 1,
            isnew: true,
        })
}

pub fn gacha_goods(rows: &Vec<MasterRow>, drawable: &Vec<usize>, picks: &Vec<usize>) -> (r: Option<Vec<GachaGood>>)
    requires
        forall|k: int| 0 <= k < drawable@.len() ==> #[trigger] drawable@[k] < rows@.len(),
        forall|k: int| 0 <= k < picks@.len() ==> #[trigger] picks@[k] < drawable@.len(),
    ensures
        drawn_goods(rows_view(rows@), drawable@, picks@, match r { Some(v) => Some(v@), None => None }),
{
    let mut goods: Vec<GachaGood> = Vec::new();
    let mut k: usize = 0;
    while k < picks.len()
        invariant
            k <= picks@.len(),
            forall|q: int| 0 <= q < drawable@.len() ==> #[trigger] drawable@[q] < rows@.len(),
            forall|q: int| 0 <= q < picks@.len() ==> #[trigger] picks@[q] < drawable@.len(),
            goods@.len() == k,
            forall|q: int| 0 <= q < k ==> (#[trigger] field_i64(rows_view(rows@)[drawable@[picks@[q] as int] as int], "id"@)) is Some,
            forall|q: int| 0 <= q < k ==> #[trigger] goods@[q] == (GachaGood {
                itemtype: 4,
                itemid: field_i64(rows_view(rows@)[drawable@[picks@[q] as int] as int], "id"@).unwrap(),
                itemnum: 1,
                isnew: true,
            }),
        decreases picks@.len() - k,
    {
        let p = picks[k];
        let row_index = drawable[p];
        assert(rows_view(rows@)[row_index as int] == rows@[row_index as int]@);
        match rows[row_index].get_i64("id") {
            Some(id) => goods.push(GachaGood::new(crate::api::RemoteDataItemType::Member.code(), id, 1, true)),
            None => return None,
        }
        k = k + 1;
    }
    Some(goods)
}

/// The remote data of a normal draw, as (command, item type, item id, count, unique id,
/// level, tag).
pub open spec fn gacha_normal_remote() -> Seq<(i32, i32, i64, i32, i32, i32, Seq<char>)> {
    seq![
        (1i32, 7i32, 2i64, 11i32, 0i32, 0i32, ""@),
        (1, 7, 14, 1, 0, 0, ""@),
        (1, 7, 14, 1, 0, 0, ""@),
        (1, 7, 14, 1, 0, 0, ""@),
        (1, 7, 3, 3, 0, 0, ""@),
        (1, 7, 13, 7, 0, 0, ""@),
        (1, 7, 34, 2, 0, 0, "show_button"@),
        (1, 6, 1, 30030001, 0, 0, ""@),
        (1, 10, 230731, 52307325, 0, 0, ""@),
        (1, 10, 230831, 52308305, 0, 0, ""@),
    ]
}

fn remote(cmd: i32, item_type: i32, item_id: i64, item_num: i32, tag: &str) -> (r: RemoteData)
    ensures
        plain_entry(cmd, item_type, item_id, item_num, 0, 0, tag@, r),
{
    RemoteData::new(cmd, item_type, item_id, item_num, 0, 0, tag.to_owned())
}

/// Every member that a normal draw can give has an id that reads.
pub open spec fn drawable_ids_readable(rows: Seq<FieldsView>) -> bool {
    forall|p: int| 0 <= p < drawable_positions(rows, rows.len() as int).len() ==>
        (#[trigger] field_i64(rows[drawable_positions(rows, rows.len() as int)[p]], "id"@)) is Some
}

/// The goods are those of the drawable members at the places `ps`, no place twice.
pub open spec fn drawn_at(rows: Seq<FieldsView>, goods: Seq<GachaGood>, ps: Seq<int>) -> bool {
    &&& ps.len() == goods.len()
    &&& forall|k: int| 0 <= k < ps.len() ==> 0 <= #[trigger] ps[k] < drawable_positions(rows, rows.len() as int).len()
    &&& forall|k: int| 0 <= k < ps.len() ==> #[trigger] goods[k] == good_at(rows, ps[k])
    &&& forall|a: int, b: int| 0 <= a < b < ps.len() ==> #[trigger] ps[a] != #[trigger] ps[b]
}

/// The goods are those of distinct drawable members.
pub open spec fn distinct_draw(rows: Seq<FieldsView>, goods: Seq<GachaGood>) -> bool {
    exists|ps: Seq<int>| #[trigger] drawn_at(rows, goods, ps)
}

/// What a normal draw of a gacha gives: ten members of rarity 2 or more at random (all of
/// them where there are fewer), as goods, with the draw's remote data; `None` where a rarity,
/// or the id of a drawn member, does not read.
pub open spec fn normal_draw(rows: Seq<MasterRow>, gacha_id: i32, time: u32, r: Option<CallResponse<GachaResult>>) -> bool {
    &&& !rarities_readable(rows_view(rows)) ==> r is None
    &&& rarities_readable(rows_view(rows)) && drawable_ids_readable(rows_view(rows)) ==> r is Some
    &&& r matches Some(resp) ==> distinct_draw(rows_view(rows), resp.custom.goods@)
    &&& r matches Some(resp) ==> {
        let n = drawable_positions(rows_view(rows), rows.len() as int).len();
        &&& resp.status == 0
        &&& resp.time == Some(time)
        &&& resp.notifications@.len() == 0
        &&& resp.custom.gacha_id == gacha_id
        &&& resp.custom.bonus_info is None
        &&& resp.custom.bonus_step is None
        &&& resp.custom.goods@.len() == (if n < 10 { n } else { 10 })
        &&& forall|k: int| 0 <= k < resp.custom.goods@.len() ==> is_drawn(rows_view(rows), #[trigger] resp.custom.goods@[k])
        &&& resp.remote@.len() == gacha_normal_remote().len()
        &&& forall|k: int| 0 <= k < resp.remote@.len() ==> {
            let e = gacha_normal_remote()[k];
            plain_entry(e.0, e.1, e.2, e.3, e.4, e.5, e.6, #[trigger] resp.remote@[k])
        }
    }
}

/// A normal draw of a gacha.
pub fn gacha_normal(rows: &Vec<MasterRow>, gacha_id: i32, time: u32) -> (r: Option<CallResponse<GachaResult>>)
    ensures
        normal_draw(rows@, gacha_id, time, r),
{
    let eligible = match drawable_members(rows) {
        Some(d) => d,
        None => return None,
    };
    let picks = choose_distinct(eligible.len(), 10);
    proof {
        lemma_drawable_positions(rows_view(rows@), rows@.len() as int);
        assert forall|q: int| 0 <= q < eligible@.len() implies #[trigger] eligible@[q] < rows@.len() by {
            assert(eligible@.map_values(|i: usize| i as int)[q] == eligible@[q] as int);
        }
    }
    proof {
        let pos = drawable_positions(rows_view(rows@), rows@.len() as int);
        if drawable_ids_readable(rows_view(rows@)) {
            assert forall|k: int| 0 <= k < picks@.len() implies
                (#[trigger] field_i64(rows_view(rows@)[eligible@[picks@[k] as int] as int], "id"@)) is Some by {
                let p = picks@[k] as int;
                assert(eligible@.map_values(|i: usize| i as int)[p] == eligible@[p] as int);
                assert(field_i64(rows_view(rows@)[pos[p]], "id"@) is Some);
            }
        }
    }
    let goods = match gacha_goods(rows, &eligible, &picks) {
        Some(g) => g,
        None => return None,
    };
    proof {
        let pos = drawable_positions(rows_view(rows@), rows@.len() as int);
        let ps = picks@.map_values(|i: usize| i as int);
        assert forall|k: int| 0 <= k < goods@.len() implies #[trigger] goods@[k] == good_at(rows_view(rows@), ps[k]) by {
            let p = picks@[k] as int;
            assert(ps[k] == p);
            assert(eligible@.map_values(|i: usize| i as int)[p] == eligible@[p] as int);
            assert(pos[p] == eligible@[p] as int);
        }
        assert forall|a: int, b: int| 0 <= a < b < ps.len() implies #[trigger] ps[a] != #[trigger] ps[b] by {
            assert(picks@[a] != picks@[b]);
        }
        assert(drawn_at(rows_view(rows@), goods@, ps));
        assert forall|k: int| 0 <= k < goods@.len() implies is_drawn(rows_view(rows@), #[trigger] goods@[k]) by {
            assert(goods@[k] == good_at(rows_view(rows@), ps[k]));
        }
    }
    let custom = GachaResult { gacha_id, goods, bonus_info: None, bonus_step: None };
    let mut response = CallResponse::at_time(0, time, custom);
    let entries = vec![
        remote(1, 7, 2, 11, ""),
        remote(1, 7, 14, 1, ""),
        remote(1, 7, 14, 1, ""),
        remote(1, 7, 14, 1, ""),
        remote(1, 7, 3, 3, ""),
        remote(1, 7, 13, 7, ""),
        remote(1, 7, 34, 2, "show_button"),
        remote(1, 6, 1, 30030001, ""),
        remote(1, 10, 230731, 52307325, ""),
        remote(1, 10, 230831, 52308305, ""),
    ];
    response.add_remote_data(entries);
    Some(response)
}

// ------------------------------------------------------------------------------------------
// Appearance rates. Probabilities are decimal numbers, held as a mantissa and a scale: the
// value is `mantissa / 10^scale`.
// ------------------------------------------------------------------------------------------

/// A decimal number: `mantissa / 10^scale`.
#[derive(Debug, Clone, Copy, PartialEq, Eq)]
pub struct DecimalValue {
    pub mantissa: i128,
    pub scale: u32,
}

/// What a decimal can hold: at most 28 digits after the point and 96 bits of mantissa.
pub open spec fn valid_decimal(m: i128, s: u32) -> bool {
    s <= 28 && -79228162514264337593543950335 <= m <= 79228162514264337593543950335
}

pub open spec fn pow10(n: nat) -> int
    decreases n,
{
    if n == 0 { 1 } else { 10 * pow10((n - 1) as nat) }
}

/// `(value * factor).round().to_i32()`: the product rounded half to even, where the product
/// and then the rounded number fit.
pub uninterp spec fn scaled_rate(mantissa: i128, scale: u32, factor: i64) -> Option<i32>;

/// `a.checked_add(b)`, as a mantissa and a scale.
pub uninterp spec fn decimal_sum(a_mantissa: i128, a_scale: u32, b_mantissa: i128, b_scale: u32) -> Option<(i128, u32)>;

/// The value times the factor, rounded to a whole number half to even, as an `i32`:
/// `(Decimal::from_i128_with_scale(mantissa, scale) * Decimal::from(factor)).round().to_i32()`,
/// with the product taken by `checked_mul`. `None` is what the product or the conversion
/// reports as overflow. Nothing more is stated of the number than that it is the named result.
#[verifier::external_body]
fn decimal_scaled_rate(mantissa: i128, scale: u32, factor: i64) -> (r: Option<i32>)
    requires
        valid_decimal(mantissa, scale),
    ensures
        r == scaled_rate(mantissa, scale, factor),
{
    Decimal::from_i128_with_scale(mantissa, scale).checked_mul(Decimal::from(factor)).and_then(|p| p.round().to_i32())
}

/// `Decimal::checked_add` on two decimals, read back by `mantissa()` and `scale()`; `None`
/// where the sum overflows. A decimal's mantissa and scale are always within the bounds of
/// `valid_decimal`; nothing else is stated of the sum than that it is the named result.
#[verifier::external_body]
fn decimal_checked_sum(a: DecimalValue, b: DecimalValue) -> (r: Option<DecimalValue>)
    requires
        valid_decimal(a.mantissa, a.scale),
        valid_decimal(b.mantissa, b.scale),
    ensures
        r matches Some(d) ==> decimal_sum(a.mantissa, a.scale, b.mantissa, b.scale) == Some((d.mantissa, d.scale))
            && valid_decimal(d.mantissa, d.scale),
        r is None ==> decimal_sum(a.mantissa, a.scale, b.mantissa, b.scale) is None,
{
    Decimal::from_i128_with_scale(a.mantissa, a.scale)
        .checked_add(Decimal::from_i128_with_scale(b.mantissa, b.scale))
        .map(|d| DecimalValue { mantissa: d.mantissa(), scale: d.scale() })
}

pub open spec fn rated(d: DecimalValue, factor: i64) -> Option<i32> {
    scaled_rate(d.mantissa, d.scale, factor)
}

/// A rate a gacha lists for a member, with its rarity.
#[derive(Debug, Clone, Copy)]
pub struct GachaRateRow {
    pub member_id: i64,
    pub rarity: i32,
    pub probability: DecimalValue,
    pub probability_pity: Option<DecimalValue>,
    pub is_rate_up: bool,
    pub details_priority: Option<i32>,
}

/// A set item a gacha can add, with its probability.
#[derive(Debug, Clone, Copy)]
pub struct GachaBonusRow {
    pub pack_id: i64,
    pub rate: DecimalValue,
}

pub open spec fn row_valid(r: GachaRateRow) -> bool {
    &&& valid_decimal(r.probability.mantissa, r.probability.scale)
    &&& r.probability_pity matches Some(p) ==> valid_decimal(p.mantissa, p.scale)
}

/// A member's line in a rate list, at the given probability, in thousandths of a percent.
pub open spec fn rate_line(e: GachaRateRate, row: GachaRateRow, rate: i32) -> bool {
    &&& e.rarity == row.rarity
    &&& e.member_id == row.member_id
    &&& e.rate == rate
    &&& e.is_rate_up == row.is_rate_up
    &&& e.is_details_visible == row.details_priority is Some
    &&& e.details_priority == (match row.details_priority { Some(v) => v, None => 0 })
}

/// The rows that have a rate for the tenth draw, in order.
pub open spec fn pity_rows(rows: Seq<GachaRateRow>) -> Seq<GachaRateRow>
    decreases rows.len(),
{
    if rows.len() == 0 {
        Seq::empty()
    } else if rows.last().probability_pity is Some {
        pity_rows(rows.drop_last()).push(rows.last())
    } else {
        pity_rows(rows.drop_last())
    }
}

/// (rarity, probability) of every row.
pub open spec fn rarity_pairs(rows: Seq<GachaRateRow>) -> Seq<(i32, DecimalValue)> {
    rows.map_values(|r: GachaRateRow| (r.rarity, r.probability))
}

/// (rarity, rate for the tenth draw) of every row that has one: the rates of the tenth draw,
/// each under its own member's rarity.
pub open spec fn pity_pairs(rows: Seq<GachaRateRow>) -> Seq<(i32, DecimalValue)> {
    pity_rows(rows).map_values(|r: GachaRateRow| (r.rarity, r.probability_pity.unwrap()))
}

/// The sum, in order, of the probabilities paired with the rarity, from zero.
pub open spec fn sum_for(pairs: Seq<(i32, DecimalValue)>, key: i32) -> Option<DecimalValue>
    decreases pairs.len(),
{
    if pairs.len() == 0 {
        Some(DecimalValue { mantissa: 0, scale: 0 })
    } else {
        match sum_for(pairs.drop_last(), key) {
            None => None,
            Some(acc) => if pairs.last().0 == key {
                match decimal_sum(acc.mantissa, acc.scale, pairs.last().1.mantissa, pairs.last().1.scale) {
                    Some(t) => Some(DecimalValue { mantissa: t.0, scale: t.1 }),
                    None => None,
                }
            } else {
                Some(acc)
            },
        }
    }
}

pub open spec fn has_key(pairs: Seq<(i32, DecimalValue)>, key: i32) -> bool {
    exists|i: int| 0 <= i < pairs.len() && (#[trigger] pairs[i]).0 == key
}

/// Every rarity's sum is there, and reads as a percent with two decimals.
pub open spec fn rarity_table_ok(pairs: Seq<(i32, DecimalValue)>) -> bool {
    forall|key: i32| #[trigger] has_key(pairs, key) ==> sum_for(pairs, key) is Some && rated(sum_for(pairs, key).unwrap(), 100) is Some
}

/// The table per rarity: each rarity once, ascending, with its summed probability.
pub open spec fn rarity_table(v: Seq<GachaRateRare>, pairs: Seq<(i32, DecimalValue)>) -> bool {
    &&& forall|a: int, b: int| 0 <= a < b < v.len() ==> v[a].rare < v[b].rare
    &&& forall|key: i32| has_key(pairs, key) <==> exists|k: int| 0 <= k < v.len() && (#[trigger] v[k]).rare == key
    &&& forall|k: int| 0 <= k < v.len() ==> Some((#[trigger] v[k]).rate) == rated(sum_for(pairs, v[k].rare).unwrap(), 100)
}

/// The running sum of the probabilities paired with `key`.
fn sum_pairs(pairs: &Vec<(i32, DecimalValue)>, key: i32) -> (r: Option<DecimalValue>)
    requires
        forall|i: int| 0 <= i < pairs@.len() ==> valid_decimal((#[trigger] pairs@[i]).1.mantissa, pairs@[i].1.scale),
    ensures
        r == sum_for(pairs@, key),
        r matches Some(d) ==> valid_decimal(d.mantissa, d.scale),
{
    let mut acc = DecimalValue { mantissa: 0, scale: 0 };
    let mut i: usize = 0;
    while i < pairs.len()
        invariant
            i <= pairs@.len(),
            forall|j: int| 0 <= j < pairs@.len() ==> valid_decimal((#[trigger] pairs@[j]).1.mantissa, pairs@[j].1.scale),
            sum_for(pairs@.take(i as int), key) == Some(acc),
            valid_decimal(acc.mantissa, acc.scale),
        decreases pairs@.len() - i,
    {
        assert(pairs@.take(i + 1).drop_last() =~= pairs@.take(i as int));
        assert(pairs@.take(i + 1).last() == pairs@[i as int]);
        let (k, d) = pairs[i];
        if k == key {
            match decimal_checked_sum(acc, d) {
                Some(t) => {
                    acc = t;
                },
                None => {
                    proof {
                        lemma_sum_none_stays(pairs@, key, i as int + 1);
                    }
                    return None;
                },
            }
        }
        i = i + 1;
    }
    assert(pairs@.take(pairs@.len() as int) =~= pairs@);
    Some(acc)
}

proof fn lemma_sum_none_stays(pairs: Seq<(i32, DecimalValue)>, key: i32, n: int)
    requires
        0 <= n <= pairs.len(),
        sum_for(pairs.take(n), key) is None,
    ensures
        sum_for(pairs, key) is None,
    decreases pairs.len() - n,
{
    if n < pairs.len() {
        assert(pairs.take(n + 1).drop_last() =~= pairs.take(n));
        lemma_sum_none_stays(pairs, key, n + 1);
    } else {
        assert(pairs.take(n) =~= pairs);
    }
}

/// Inserts `x` into a strictly ascending list of rarities, keeping it so.
#[verifier::spinoff_prover]
fn insert_rarity(v: &mut Vec<i32>, x: i32)
    requires
        forall|a: int, b: int| 0 <= a < b < old(v)@.len() ==> old(v)@[a] < old(v)@[b],
    ensures
        forall|a: int, b: int| 0 <= a < b < final(v)@.len() ==> final(v)@[a] < final(v)@[b],
        forall|y: i32| #![trigger final(v)@.contains(y)] final(v)@.contains(y) <==> (old(v)@.contains(y) || y == x),
{
    let n = v.len();
    let mut i: usize = 0;
    while i < n && v[i] < x
        invariant
            i <= n,
            n == v@.len(),
            v@ == old(v)@,
            forall|j: int| 0 <= j < i ==> v@[j] < x,
        decreases n - i,
    {
        i = i + 1;
    }
    if i < n && v[i] == x {
        assert(v@.contains(v@[i as int]));
        return;
    }
    let ghost before = v@;
    v.insert(i, x);
    assert(v@ =~= before.take(i as int).push(x) + before.skip(i as int));
    assert forall|a: int, b: int| 0 <= a < b < v@.len() implies v@[a] < v@[b] by {
        if b < i {
        } else if b == i {
        } else if a < i {
            assert(v@[b] == before[b - 1]);
            if i < n {
                assert(before[i as int] > x);
                if b - 1 > i {
                    assert(before[i as int] < before[b - 1]);
                }
            }
        } else if a == i {
            assert(v@[b] == before[b - 1]);
            assert(before[i as int] > x);
            if b - 1 > i {
                assert(before[i as int] < before[b - 1]);
            }
        } else {
            assert(v@[a] == before[a - 1]);
            assert(v@[b] == before[b - 1]);
        }
    }
    assert(before == old(v)@);
    assert forall|y: i32| #![trigger v@.contains(y)] v@.contains(y) <==> (before.contains(y) || y == x) by {
        if v@.contains(y) {
            let k = choose|k: int| 0 <= k < v@.len() && v@[k] == y;
            if k < i {
                assert(before[k] == y);
            } else if k > i {
                assert(before[k - 1] == y);
            }
        }
        if before.contains(y) {
            let k = choose|k: int| 0 <= k < before.len() && before[k] == y;
            if k < i {
                assert(v@[k] == y);
            } else {
                assert(v@[k + 1] == y);
            }
        }
        if y == x {
            assert(v@[i as int] == x);
        }
    }
}

/// The table per rarity of the pairs: each rarity once, ascending, with its probabilities
/// summed in order and read as a percent with two decimals; `None` where a sum overflows or
/// does not read.
pub fn rarity_rates(pairs: &Vec<(i32, DecimalValue)>) -> (r: Option<Vec<GachaRateRare>>)
    requires
        forall|i: int| 0 <= i < pairs@.len() ==> valid_decimal((#[trigger] pairs@[i]).1.mantissa, pairs@[i].1.scale),
    ensures
        r is Some <==> rarity_table_ok(pairs@),
        r matches Some(v) ==> rarity_table(v@, pairs@),
{
    let mut keys: Vec<i32> = Vec::new();
    let mut i: usize = 0;
    while i < pairs.len()
        invariant
            i <= pairs@.len(),
            forall|a: int, b: int| 0 <= a < b < keys@.len() ==> keys@[a] < keys@[b],
            forall|y: i32| keys@.contains(y) <==> exists|j: int| 0 <= j < i && (#[trigger] pairs@[j]).0 == y,
        decreases pairs@.len() - i,
    {
        let ghost before = keys@;
        insert_rarity(&mut keys, pairs[i].0);
        assert forall|y: i32| keys@.contains(y) <==> exists|j: int| 0 <= j < i + 1 && (#[trigger] pairs@[j]).0 == y by {
            if keys@.contains(y) && y != pairs@[i as int].0 {
                assert(before.contains(y));
            }
            if y == pairs@[i as int].0 {
                assert(pairs@[i as int].0 == y);
            }
            if exists|j: int| 0 <= j < i + 1 && (#[trigger] pairs@[j]).0 == y {
                let j = choose|j: int| 0 <= j < i + 1 && (#[trigger] pairs@[j]).0 == y;
                if j < i {
                    assert(before.contains(y));
                }
            }
        }
        i = i + 1;
    }
    let mut out: Vec<GachaRateRare> = Vec::new();
    let mut k: usize = 0;
    while k < keys.len()
        invariant
            k <= keys@.len(),
            forall|a: int, b: int| 0 <= a < b < keys@.len() ==> keys@[a] < keys@[b],
            forall|y: i32| keys@.contains(y) <==> has_key(pairs@, y),
            forall|j: int| 0 <= j < pairs@.len() ==> valid_decimal((#[trigger] pairs@[j]).1.mantissa, pairs@[j].1.scale),
            out@.len() == k,
            forall|j: int| 0 <= j < k ==> (#[trigger] out@[j]).rare == keys@[j],
            forall|j: int| 0 <= j < k ==> Some((#[trigger] out@[j]).rate) == rated(sum_for(pairs@, out@[j].rare).unwrap(), 100),
            forall|j: int| 0 <= j < k ==> sum_for(pairs@, #[trigger] keys@[j]) is Some,
        decreases keys@.len() - k,
    {
        let key = keys[k];
        assert(keys@.contains(key));
        let sum = sum_pairs(pairs, key);
        match sum {
            None => {
                assert(!rarity_table_ok(pairs@));
                return None;
            },
            Some(d) => {
                match decimal_scaled_rate(d.mantissa, d.scale, 100) {
                    None => {
                        assert(!rarity_table_ok(pairs@));
                        return None;
                    },
                    Some(rate) => {
                        out.push(GachaRateRare { rare: key, rate });
                    },
                }
            },
        }
        k = k + 1;
    }
    assert(rarity_table_ok(pairs@)) by {
        assert forall|key: i32| #[trigger] has_key(pairs@, key) implies sum_for(pairs@, key) is Some && rated(sum_for(pairs@, key).unwrap(), 100) is Some by {
            assert(keys@.contains(key));
            let j = choose|j: int| 0 <= j < keys@.len() && keys@[j] == key;
            assert(out@[j].rare == key);
        }
    }
    assert forall|key: i32| has_key(pairs@, key) <==> exists|k: int| 0 <= k < out@.len() && (#[trigger] out@[k]).rare == key by {
        if has_key(pairs@, key) {
            assert(keys@.contains(key));
            let j = choose|j: int| 0 <= j < keys@.len() && keys@[j] == key;
            assert(out@[j].rare == key);
        }
        if exists|k: int| 0 <= k < out@.len() && (#[trigger] out@[k]).rare == key {
            let j = choose|j: int| 0 <= j < out@.len() && (#[trigger] out@[j]).rare == key;
            assert(keys@[j] == key);
            assert(keys@.contains(key));
        }
    }
    Some(out)
}

/// Everything a rate list reads turns into a number: each member's rate, each rate for the
/// tenth draw, each sum per rarity, each set item's rate.
pub open spec fn gacha_rate_ok(rows: Seq<GachaRateRow>, bonus: Seq<GachaBonusRow>) -> bool {
    &&& forall|i: int| 0 <= i < rows.len() ==> (#[trigger] rated(rows[i].probability, 1000)) is Some
    &&& forall|i: int| 0 <= i < rows.len() ==> ((#[trigger] rows[i]).probability_pity matches Some(p) ==> rated(p, 1000) is Some)
    &&& rarity_table_ok(rarity_pairs(rows))
    &&& rarity_table_ok(pity_pairs(rows))
    &&& forall|j: int| 0 <= j < bonus.len() ==> (#[trigger] rated(bonus[j].rate, 1000)) is Some
}

/// The rate list of a gacha.
pub open spec fn gacha_rate_spec(g: GachaRate, gacha_id: i32, rows: Seq<GachaRateRow>, bonus: Seq<GachaBonusRow>) -> bool {
    &&& g.gacha_id == gacha_id
    &&& g.rate@.len() == rows.len()
    &&& forall|k: int| 0 <= k < rows.len() ==> rate_line(#[trigger] g.rate@[k], rows[k], rated(rows[k].probability, 1000).unwrap())
    &&& g.limitrate@.len() == pity_rows(rows).len()
    &&& forall|k: int| 0 <= k < pity_rows(rows).len() ==>
        rate_line(#[trigger] g.limitrate@[k], pity_rows(rows)[k], rated(pity_rows(rows)[k].probability_pity.unwrap(), 1000).unwrap())
    &&& rarity_table(g.rarerate@, rarity_pairs(rows))
    &&& rarity_table(g.limitrarerate@, pity_pairs(rows))
    &&& g.bonus_per_draw_count == 42
    &&& g.bonusrate@.len() == bonus.len()
    &&& forall|j: int| 0 <= j < bonus.len() ==>
        (#[trigger] g.bonusrate@[j]).pack_id == bonus[j].pack_id && Some(g.bonusrate@[j].rate) == rated(bonus[j].rate, 1000)
}

proof fn lemma_pity_rows_step(rows: Seq<GachaRateRow>, i: int)
    requires
        0 <= i < rows.len(),
    ensures
        pity_rows(rows.take(i + 1)) == if rows[i].probability_pity is Some {
            pity_rows(rows.take(i)).push(rows[i])
        } else {
            pity_rows(rows.take(i))
        },
{
    assert(rows.take(i + 1).drop_last() =~= rows.take(i));
    assert(rows.take(i + 1).last() == rows[i]);
}

/// The appearance rates of a gacha: each member's rate, the rates of the tenth draw of ten,
/// the sums per rarity of each, and the rates of the set items; rates in thousandths of a
/// percent, sums in hundredths. `None` where a number does not turn into one (where a sum
/// overflows, or a rate does not fit an `i32`).
pub fn gacha_rate(request: &GachaRateRequest, rows: &Vec<GachaRateRow>, bonus: &Vec<GachaBonusRow>) -> (r: Option<GachaRate>)
    requires
        forall|i: int| 0 <= i < rows@.len() ==> row_valid(#[trigger] rows@[i]),
        forall|j: int| 0 <= j < bonus@.len() ==> valid_decimal((#[trigger] bonus@[j]).rate.mantissa, bonus@[j].rate.scale),
    ensures
        r is Some <==> gacha_rate_ok(rows@, bonus@),
        r matches Some(g) ==> gacha_rate_spec(g, request.gacha_id, rows@, bonus@),
{
    let n = rows.len();
    // Each member's rate.
    let mut rate: Vec<GachaRateRate> = Vec::new();
    let mut i: usize = 0;
    while i < n
        invariant
            n == rows@.len(),
            i <= n,
            forall|j: int| 0 <= j < rows@.len() ==> row_valid(#[trigger] rows@[j]),
            rate@.len() == i,
            forall|k: int| 0 <= k < i ==> (#[trigger] rated(rows@[k].probability, 1000)) is Some,
            forall|k: int| 0 <= k < i ==> rate_line(#[trigger] rate@[k], rows@[k], rated(rows@[k].probability, 1000).unwrap()),
        decreases n - i,
    {
        let row = rows[i];
        assert(row_valid(rows@[i as int]));
        match decimal_scaled_rate(row.probability.mantissa, row.probability.scale, 1000) {
            None => {
                assert(!gacha_rate_ok(rows@, bonus@)) by {
                    assert(rated(rows@[i as int].probability, 1000) is None);
                }
                return None;
            },
            Some(v) => {
                let priority = match row.details_priority {
                    Some(p) => p,
                    None => 0,
                };
                rate.push(GachaRateRate {
                    rarity: row.rarity,
                    member_id: row.member_id,
                    rate: v,
                    is_rate_up: row.is_rate_up,
                    is_details_visible: row.details_priority.is_some(),
                    details_priority: priority,
                });
            },
        }
        i = i + 1;
    }
    // The rates of the tenth draw.
    let mut limitrate: Vec<GachaRateRate> = Vec::new();
    let mut pity_pairs_v: Vec<(i32, DecimalValue)> = Vec::new();
    let mut i: usize = 0;
    while i < n
        invariant
            n == rows@.len(),
            i <= n,
            forall|j: int| 0 <= j < rows@.len() ==> row_valid(#[trigger] rows@[j]),
            limitrate@.len() == pity_rows(rows@.take(i as int)).len(),
            forall|k: int| 0 <= k < i ==> ((#[trigger] rows@[k]).probability_pity matches Some(p) ==> rated(p, 1000) is Some),
            forall|k: int| 0 <= k < limitrate@.len() ==> rate_line(#[trigger] limitrate@[k], pity_rows(rows@.take(i as int))[k],
                rated(pity_rows(rows@.take(i as int))[k].probability_pity.unwrap(), 1000).unwrap()),
            pity_pairs_v@ == pity_pairs(rows@.take(i as int)),
            forall|k: int| 0 <= k < pity_pairs_v@.len() ==> valid_decimal((#[trigger] pity_pairs_v@[k]).1.mantissa, pity_pairs_v@[k].1.scale),
        decreases n - i,
    {
        let row = rows[i];
        assert(row_valid(rows@[i as int]));
        proof {
            lemma_pity_rows_step(rows@, i as int);
        }
        match row.probability_pity {
            None => {
                assert(pity_pairs(rows@.take(i + 1)) =~= pity_pairs(rows@.take(i as int)));
            },
            Some(p) => {
                match decimal_scaled_rate(p.mantissa, p.scale, 1000) {
                    None => {
                        assert(!gacha_rate_ok(rows@, bonus@)) by {
                            assert(rows@[i as int].probability_pity matches Some(q) && rated(q, 1000) is None);
                        }
                        return None;
                    },
                    Some(v) => {
                        let priority = match row.details_priority {
                            Some(d) => d,
                            None => 0,
                        };
                        limitrate.push(GachaRateRate {
                            rarity: row.rarity,
                            member_id: row.member_id,
                            rate: v,
                            is_rate_up: row.is_rate_up,
                            is_details_visible: row.details_priority.is_some(),
                            details_priority: priority,
                        });
                        pity_pairs_v.push((row.rarity, p));
                        assert(pity_pairs_v@ =~= pity_pairs(rows@.take(i + 1)));
                    },
                }
            },
        }
        i = i + 1;
    }
    assert(rows@.take(n as int) =~= rows@);
    // The probabilities per rarity.
    let mut pairs: Vec<(i32, DecimalValue)> = Vec::new();
    let mut i: usize = 0;
    while i < n
        invariant
            n == rows@.len(),
            i <= n,
            forall|j: int| 0 <= j < rows@.len() ==> row_valid(#[trigger] rows@[j]),
            pairs@ == rarity_pairs(rows@.take(i as int)),
            forall|k: int| 0 <= k < pairs@.len() ==> valid_decimal((#[trigger] pairs@[k]).1.mantissa, pairs@[k].1.scale),
        decreases n - i,
    {
        assert(row_valid(rows@[i as int]));
        pairs.push((rows[i].rarity, rows[i].probability));
        assert(pairs@ =~= rarity_pairs(rows@.take(i + 1)));
        i = i + 1;
    }
    let rarerate = match rarity_rates(&pairs) {
        Some(v) => v,
        None => {
            return None;
        },
    };
    let limitrarerate = match rarity_rates(&pity_pairs_v) {
        Some(v) => v,
        None => {
            return None;
        },
    };
    // The set items.
    let mut bonusrate: Vec<GachaRateBonusItem> = Vec::new();
    let mut j: usize = 0;
    while j < bonus.len()
        invariant
            j <= bonus@.len(),
            forall|k: int| 0 <= k < bonus@.len() ==> valid_decimal((#[trigger] bonus@[k]).rate.mantissa, bonus@[k].rate.scale),
            bonusrate@.len() == j,
            forall|k: int| 0 <= k < j ==> (#[trigger] rated(bonus@[k].rate, 1000)) is Some,
            forall|k: int| 0 <= k < j ==>
                (#[trigger] bonusrate@[k]).pack_id == bonus@[k].pack_id && Some(bonusrate@[k].rate) == rated(bonus@[k].rate, 1000),
        decreases bonus@.len() - j,
    {
        let b = bonus[j];
        match decimal_scaled_rate(b.rate.mantissa, b.rate.scale, 1000) {
            None => {
                assert(!gacha_rate_ok(rows@, bonus@)) by {
                    assert(rated(bonus@[j as int].rate, 1000) is None);
                }
                return None;
            },
            Some(v) => {
                bonusrate.push(GachaRateBonusItem { pack_id: b.pack_id, rate: v });
            },
        }
        j = j + 1;
    }
    Some(GachaRate {
        gacha_id: request.gacha_id,
        rate,
        limitrate,
        rarerate,
        limitrarerate,
        bonus_per_draw_count: 42,
        bonusrate,
    })
}

/// Some line of the table per rarity is for the rarity.
pub open spec fn rarity_listed(table: Seq<GachaRateRare>, rarity: i32) -> bool {
    exists|j: int| 0 <= j < table.len() && (#[trigger] table[j]).rare == rarity
}

/// Some member line has the rarity.
pub open spec fn rarity_of_a_member(lines: Seq<GachaRateRate>, rarity: i32) -> bool {
    exists|k: int| 0 <= k < lines.len() && (#[trigger] lines[k]).rarity == rarity
}

/// The rates per rarity come from the member rates, and those of the tenth draw from the
/// member rates of the tenth draw: each member's rarity has its line in the table, and each
/// line of the table is the rarity of some member.
pub proof fn law_rarity_rates_follow_member_rates(g: GachaRate, gacha_id: i32, rows: Seq<GachaRateRow>, bonus: Seq<GachaBonusRow>)
    requires
        gacha_rate_spec(g, gacha_id, rows, bonus),
    ensures
        forall|k: int| 0 <= k < g.rate@.len() ==> rarity_listed(g.rarerate@, (#[trigger] g.rate@[k]).rarity),
        forall|j: int| 0 <= j < g.rarerate@.len() ==> rarity_of_a_member(g.rate@, (#[trigger] g.rarerate@[j]).rare),
        forall|k: int| 0 <= k < g.limitrate@.len() ==> rarity_listed(g.limitrarerate@, (#[trigger] g.limitrate@[k]).rarity),
        forall|j: int| 0 <= j < g.limitrarerate@.len() ==> rarity_of_a_member(g.limitrate@, (#[trigger] g.limitrarerate@[j]).rare),
{
    let pairs = rarity_pairs(rows);
    assert forall|k: int| 0 <= k < g.rate@.len() implies rarity_listed(g.rarerate@, (#[trigger] g.rate@[k]).rarity) by {
        assert(rate_line(g.rate@[k], rows[k], rated(rows[k].probability, 1000).unwrap()));
        assert(pairs[k].0 == g.rate@[k].rarity);
        assert(has_key(pairs, g.rate@[k].rarity));
    }
    assert forall|j: int| 0 <= j < g.rarerate@.len() implies rarity_of_a_member(g.rate@, (#[trigger] g.rarerate@[j]).rare) by {
        let key = g.rarerate@[j].rare;
        assert(g.rarerate@[j].rare == key);
        assert(has_key(pairs, key));
        let k = choose|k: int| 0 <= k < pairs.len() && (#[trigger] pairs[k]).0 == key;
        assert(rate_line(g.rate@[k], rows[k], rated(rows[k].probability, 1000).unwrap()));
        assert(g.rate@[k].rarity == key);
    }
    let lp = pity_pairs(rows);
    let pr = pity_rows(rows);
    assert forall|k: int| 0 <= k < g.limitrate@.len() implies rarity_listed(g.limitrarerate@, (#[trigger] g.limitrate@[k]).rarity) by {
        assert(rate_line(g.limitrate@[k], pr[k], rated(pr[k].probability_pity.unwrap(), 1000).unwrap()));
        assert(lp[k].0 == g.limitrate@[k].rarity);
        assert(has_key(lp, g.limitrate@[k].rarity));
    }
    assert forall|j: int| 0 <= j < g.limitrarerate@.len() implies rarity_of_a_member(g.limitrate@, (#[trigger] g.limitrarerate@[j]).rare) by {
        let key = g.limitrarerate@[j].rare;
        assert(has_key(lp, key));
        let k = choose|k: int| 0 <= k < lp.len() && (#[trigger] lp[k]).0 == key;
        assert(rate_line(g.limitrate@[k], pr[k], rated(pr[k].probability_pity.unwrap(), 1000).unwrap()));
        assert(g.limitrate@[k].rarity == key);
    }
}

/// A chain draw: drawn as a normal draw of the same gacha.
pub fn gacha_chain(rows: &Vec<MasterRow>, request: &GachaChainRequest, time: u32) -> (r: Option<CallResponse<GachaResult>>)
    ensures
        normal_draw(rows@, request.gacha_id, time, r),
{
    gacha_normal(rows, request.gacha_id, time)
}

/// One good of the draw history.
#[derive(Debug)]
pub struct GachaLogGood {
    pub itemtype: i32,
    pub itemid: i64,
    pub itemnum: i32,
    pub time: String,
    pub gachaid: i32,
}

/// The draw history.
#[derive(Debug)]
pub struct GachaLog {
    pub goods: Vec<GachaLogGood>,
}

/// The draws the history shows, as (member id, time drawn, gacha), in order.
pub open spec fn gacha_log_table() -> Seq<(i64, Seq<char>, i32)> {
    seq![
        (1063113i64, "2024-08-05 15:03:20"@, 100002i32),
        (1034100i64, "2024-08-05 15:03:20"@, 100002i32),
        (1152102i64, "2024-08-05 15:03:20"@, 100002i32),
        (1083110i64, "2024-08-05 15:03:20"@, 100002i32),
        (1122100i64, "2024-08-05 15:03:20"@, 100002i32),
        (1093100i64, "2024-08-05 15:03:20"@, 100002i32),
        (1132100i64, "2024-08-05 15:03:20"@, 100002i32),
        (1002102i64, "2024-08-05 15:03:20"@, 100002i32),
        (1282100i64, "2024-08-05 15:03:20"@, 100002i32),
        (1064217i64, "2024-08-05 15:03:20"@, 100002i32),
        (1192102i64, "2024-08-05 20:17:42"@, 200021i32),
        (1102102i64, "2024-08-05 20:17:42"@, 200021i32),
        (1143127i64, "2024-08-05 20:17:42"@, 200021i32),
        (1162100i64, "2024-08-05 20:17:42"@, 200021i32),
        (1192102i64, "2024-08-05 20:17:42"@, 200021i32),
        (1012100i64, "2024-08-07 19:31:30"@, 410535i32),
        (1013100i64, "2024-08-07 19:31:30"@, 410535i32),
        (1012100i64, "2024-08-07 19:31:30"@, 410535i32),
        (1013116i64, "2024-08-07 19:31:30"@, 410535i32),
        (1012102i64, "2024-08-07 19:31:30"@, 410535i32),
        (1012102i64, "2024-08-07 19:31:30"@, 410535i32),
        (1012102i64, "2024-08-07 19:31:30"@, 410535i32),
        (1012100i64, "2024-08-07 19:31:30"@, 410535i32),
        (1012102i64, "2024-08-07 19:31:30"@, 410535i32),
        (1013116i64, "2024-08-07 19:31:30"@, 410535i32)
    ]
}

/// The server time that the history is stamped with.
pub const GACHA_LOG_TIME: u32 = 1723059245;

/// The draw history: the same 25 members every time, each a single member good, at the
/// server time of the day they were drawn.
pub fn gacha_log() -> (r: CallResponse<GachaLog>)
    ensures
        r.status == 0,
        r.time == Some(GACHA_LOG_TIME),
        r.remote@.len() == 0 && r.notifications@.len() == 0,
        r.custom.goods@.len() == gacha_log_table().len(),
        forall|k: int| 0 <= k < r.custom.goods@.len() ==> {
            let g = #[trigger] r.custom.goods@[k];
            let e = gacha_log_table()[k];
            &&& g.itemtype == item_type_code(RemoteDataItemType::Member) && g.itemnum == 1
            &&& g.itemid == e.0 && g.time@ == e.1 && g.gachaid == e.2
        },
{
    let table: Vec<(i64, &str, i32)> = vec![
        (1063113, "2024-08-05 15:03:20", 100002),
        (1034100, "2024-08-05 15:03:20", 100002),
        (1152102, "2024-08-05 15:03:20", 100002),
        (1083110, "2024-08-05 15:03:20", 100002),
        (1122100, "2024-08-05 15:03:20", 100002),
        (1093100, "2024-08-05 15:03:20", 100002),
        (1132100, "2024-08-05 15:03:20", 100002),
        (1002102, "2024-08-05 15:03:20", 100002),
        (1282100, "2024-08-05 15:03:20", 100002),
        (1064217, "2024-08-05 15:03:20", 100002),
        (1192102, "2024-08-05 20:17:42", 200021),
        (1102102, "2024-08-05 20:17:42", 200021),
        (1143127, "2024-08-05 20:17:42", 200021),
        (1162100, "2024-08-05 20:17:42", 200021),
        (1192102, "2024-08-05 20:17:42", 200021),
        (1012100, "2024-08-07 19:31:30", 410535),
        (1013100, "2024-08-07 19:31:30", 410535),
        (1012100, "2024-08-07 19:31:30", 410535),
        (1013116, "2024-08-07 19:31:30", 410535),
        (1012102, "2024-08-07 19:31:30", 410535),
        (1012102, "2024-08-07 19:31:30", 410535),
        (1012102, "2024-08-07 19:31:30", 410535),
        (1012100, "2024-08-07 19:31:30", 410535),
        (1012102, "2024-08-07 19:31:30", 410535),
        (1013116, "2024-08-07 19:31:30", 410535)
    ];
    let ghost t = gacha_log_table();
    assert(table@.len() == t.len());
    assert forall|k: int| 0 <= k < table@.len() implies ({
        let x = #[trigger] table@[k];
        let e = t[k];
        x.0 == e.0 && x.1@ == e.1 && x.2 == e.2
    }) by {}
    let member = RemoteDataItemType::Member.code();
    let mut goods: Vec<GachaLogGood> = Vec::new();
    let mut k: usize = 0;
    while k < table.len()
        invariant
            k <= table@.len(),
            table@.len() == t.len(),
            t == gacha_log_table(),
            member == item_type_code(RemoteDataItemType::Member),
            forall|j: int| 0 <= j < table@.len() ==> ({
                let x = #[trigger] table@[j];
                let e = t[j];
                x.0 == e.0 && x.1@ == e.1 && x.2 == e.2
            }),
            goods@.len() == k,
            forall|j: int| 0 <= j < k ==> {
                let g = #[trigger] goods@[j];
                let e = t[j];
                &&& g.itemtype == member && g.itemnum == 1
                &&& g.itemid == e.0 && g.time@ == e.1 && g.gachaid == e.2
            },
        decreases table@.len() - k,
    {
        let (itemid, time, gachaid) = table[k];
        goods.push(GachaLogGood { itemtype: member, itemid, itemnum: 1, time: time.to_owned(), gachaid });
        k = k + 1;
    }
    CallResponse::at_time(0, GACHA_LOG_TIME, GachaLog { goods })
}

} // verus!
