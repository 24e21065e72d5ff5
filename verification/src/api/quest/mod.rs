//! Quest rewards as the master data lists them, and the stages whose rewards hold an item.

use vstd::prelude::*;

use crate::master::{field_i32, reward_counts_readable, row_items, row_reward_items, rows_view, FieldsView, MasterRow, RewardItem};

pub mod quest_fame;
pub mod quest_hunting;
pub mod quest_main;

verus! {

#[derive(Debug, Clone, PartialEq, Eq)]
pub struct QuestRewardItem {
  pub item_type: i32,
  pub item_id: i64,
  pub item_num: i32,
  pub item_rare: bool,
}

/// Reward items as the master lists them.
pub open spec fn quest_items_view(v: Seq<QuestRewardItem>) -> Seq<RewardItem> {
    v.map_values(|x: QuestRewardItem| RewardItem { item_type: x.item_type, item_id: x.item_id, item_num: x.item_num, item_rare: x.item_rare })
}

/// The items a reward row lists, in ascending order of their numbers: an item needs its
/// type, id and rarity; a missing count counts as one; empty slots are skipped.
pub fn parse_reward_items(row: &MasterRow) -> (r: Vec<QuestRewardItem>)
    requires
        reward_counts_readable(row@),
    ensures
        quest_items_view(r@) == row_items(row@, Some(1i32)),
{
    let items = row_reward_items(row, Some(1));
    let mut r: Vec<QuestRewardItem> = Vec::new();
    let mut k: usize = 0;
    while k < items.len()
        invariant
            k <= items@.len(),
            r@.len() == k,
            quest_items_view(r@) == items@.subrange(0, k as int),
        decreases items@.len() - k,
    {
        let it = items[k];
        r.push(QuestRewardItem { item_type: it.item_type, item_id: it.item_id, item_num: it.item_num, item_rare: it.item_rare });
        assert(quest_items_view(r@) =~= items@.subrange(0, k + 1));
        k = k + 1;
    }
    assert(items@.subrange(0, items@.len() as int) =~= items@);
    r
}

// ------------------------------------------------------------------------------------------
// A table keyed by one of its fields: a map built from the rows in order holds, for each key,
// the last row with it.
// ------------------------------------------------------------------------------------------

/// Every row's field `key` reads as an `i32`.
pub open spec fn keys_readable(rows: Seq<FieldsView>, key: Seq<char>) -> bool {
    forall|i: int| 0 <= i < rows.len() ==> (#[trigger] field_i32(rows[i], key)) is Some
}

/// Some row's field `key` reads as `id`.
pub open spec fn has_row_with(rows: Seq<FieldsView>, key: Seq<char>, id: i32) -> bool {
    exists|i: int| 0 <= i < rows.len() && field_i32(#[trigger] rows[i], key) == Some(id)
}

/// Row `i` is the last one whose field `key` reads as `id`.
pub open spec fn is_last_with(rows: Seq<FieldsView>, key: Seq<char>, id: i32, i: int) -> bool {
    &&& 0 <= i < rows.len()
    &&& field_i32(rows[i], key) == Some(id)
    &&& forall|j: int| i < j < rows.len() ==> field_i32(#[trigger] rows[j], key) != Some(id)
}

/// The row that the map holds for `id`.
pub open spec fn last_with(rows: Seq<FieldsView>, key: Seq<char>, id: i32) -> int {
    choose|i: int| is_last_with(rows, key, id, i)
}

proof fn lemma_last_with_unique(rows: Seq<FieldsView>, key: Seq<char>, id: i32, i: int)
    requires
        is_last_with(rows, key, id, i),
    ensures
        last_with(rows, key, id) == i,
{
    let j = last_with(rows, key, id);
    assert(is_last_with(rows, key, id, j));
    if j < i {
        assert(field_i32(rows[i], key) != Some(id));
    } else if i < j {
        assert(field_i32(rows[j], key) != Some(id));
    }
}

/// The row that a map from the field `key` to row holds for `id`; `None` where no row has it.
pub fn find_last_with(rows: &Vec<MasterRow>, key: &str, id: i32) -> (r: Option<usize>)
    ensures
        r matches Some(i) ==> is_last_with(rows_view(rows@), key@, id, i as int) && i == last_with(rows_view(rows@), key@, id),
        r is None <==> !has_row_with(rows_view(rows@), key@, id),
{
    let mut i: usize = rows.len();
    while i > 0
        invariant
            i <= rows@.len(),
            forall|j: int| i <= j < rows@.len() ==> field_i32(#[trigger] rows_view(rows@)[j], key@) != Some(id),
        decreases i,
    {
        assert(rows_view(rows@)[i - 1] == rows@[i - 1]@);
        if rows[i - 1].get_i32(key) == Some(id) {
            proof {
                lemma_last_with_unique(rows_view(rows@), key@, id, i - 1);
            }
            return Some(i - 1);
        }
        i = i - 1;
    }
    None
}

// ------------------------------------------------------------------------------------------
// The stages whose rewards hold an item
// ------------------------------------------------------------------------------------------

/// An item of the list has the id, and the type where one is asked for.
pub open spec fn offers(items: Seq<RewardItem>, item_type: Option<i32>, item_id: i64) -> bool {
    exists|k: int| 0 <= k < items.len() && #[trigger] item_fits(items[k], item_type, item_id)
}

pub open spec fn item_fits(it: RewardItem, item_type: Option<i32>, item_id: i64) -> bool {
    it.item_id == item_id && (match item_type { Some(t) => it.item_type == t, None => true })
}

/// The id of a stage.
pub open spec fn stage_id(stage: FieldsView) -> i32 {
    field_i32(stage, "id"@).unwrap()
}

/// The items of a stage's reward row.
pub open spec fn stage_items(stage: FieldsView, rewards: Seq<FieldsView>, num_default: Option<i32>) -> Seq<RewardItem> {
    row_items(rewards[last_with(rewards, "id"@, stage_id(stage))], num_default)
}

/// Each stage has an id, a reward row with that id, and where a missing count counts as
/// something, the counts of that row read; every reward row has an id.
pub open spec fn stages_readable(stages: Seq<FieldsView>, rewards: Seq<FieldsView>, num_default: Option<i32>) -> bool {
    &&& keys_readable(rewards, "id"@)
    &&& keys_readable(stages, "id"@)
    &&& forall|i: int| 0 <= i < stages.len() ==> has_row_with(rewards, "id"@, #[trigger] stage_id(stages[i]))
    &&& num_default is Some ==> forall|i: int| 0 <= i < stages.len()
        ==> reward_counts_readable(rewards[last_with(rewards, "id"@, #[trigger] stage_id(stages[i]))])
}

/// The ids of the stages, in order, whose rewards hold the item.
pub open spec fn offering_stages(stages: Seq<FieldsView>, rewards: Seq<FieldsView>, item_type: Option<i32>, item_id: i64, num_default: Option<i32>) -> Seq<i32>
    decreases stages.len(),
{
    if stages.len() == 0 {
        Seq::empty()
    } else {
        let rest = offering_stages(stages.drop_last(), rewards, item_type, item_id, num_default);
        if offers(stage_items(stages.last(), rewards, num_default), item_type, item_id) {
            rest.push(stage_id(stages.last()))
        } else {
            rest
        }
    }
}

/// A stage is listed for an item exactly when some item of its reward row, at any place, has
/// the item's id and, where a type is asked for, its type: the list of stages grows by the
/// stage's id then, and otherwise stays as it was.
pub proof fn law_stage_listed_when_any_reward_is_the_item(
    stages: Seq<FieldsView>,
    stage: FieldsView,
    rewards: Seq<FieldsView>,
    item_type: Option<i32>,
    item_id: i64,
    num_default: Option<i32>,
)
    ensures
        ({
            let items = stage_items(stage, rewards, num_default);
            let dropped = exists|k: int| 0 <= k < items.len() && (#[trigger] items[k]).item_id == item_id
                && (item_type is None || items[k].item_type == item_type.unwrap());
            offering_stages(stages.push(stage), rewards, item_type, item_id, num_default)
                == if dropped {
                    offering_stages(stages, rewards, item_type, item_id, num_default).push(stage_id(stage))
                } else {
                    offering_stages(stages, rewards, item_type, item_id, num_default)
                }
        }),
{
    let items = stage_items(stage, rewards, num_default);
    assert(stages.push(stage).drop_last() =~= stages);
    assert(stages.push(stage).last() == stage);
    if offers(items, item_type, item_id) {
        let k = choose|k: int| 0 <= k < items.len() && #[trigger] item_fits(items[k], item_type, item_id);
        assert(items[k].item_id == item_id && (item_type is None || items[k].item_type == item_type.unwrap()));
    }
    if exists|k: int| 0 <= k < items.len() && (#[trigger] items[k]).item_id == item_id
        && (item_type is None || items[k].item_type == item_type.unwrap()) {
        let k = choose|k: int| 0 <= k < items.len() && (#[trigger] items[k]).item_id == item_id
            && (item_type is None || items[k].item_type == item_type.unwrap());
        assert(item_fits(items[k], item_type, item_id));
    }
}

fn any_fits(items: &Vec<RewardItem>, item_type: Option<i32>, item_id: i64) -> (r: bool)
    ensures
        r == offers(items@, item_type, item_id),
{
    let mut k: usize = 0;
    while k < items.len()
        invariant
            k <= items@.len(),
            forall|j: int| 0 <= j < k ==> !item_fits(#[trigger] items@[j], item_type, item_id),
        decreases items@.len() - k,
    {
        let it = items[k];
        let type_fits = match item_type {
            Some(t) => it.item_type == t,
            None => true,
        };
        if it.item_id == item_id && type_fits {
            assert(item_fits(items@[k as int], item_type, item_id));
            return true;
        }
        k = k + 1;
    }
    false
}

/// The ids of the stages, in order, whose reward row lists the item (of the type, where one
/// is given). A stage's reward row is the last row with the stage's id; a missing count
/// counts as `num_default`, or drops the item where that is `None`.
pub fn stages_offering(stages: &Vec<MasterRow>, rewards: &Vec<MasterRow>, item_type: Option<i32>, item_id: i64, num_default: Option<i32>) -> (r: Vec<i32>)
    requires
        stages_readable(rows_view(stages@), rows_view(rewards@), num_default),
    ensures
        r@ == offering_stages(rows_view(stages@), rows_view(rewards@), item_type, item_id, num_default),
{
    let ghost sv = rows_view(stages@);
    let ghost rv = rows_view(rewards@);
    let mut out: Vec<i32> = Vec::new();
    let mut i: usize = 0;
    while i < stages.len()
        invariant
            i <= stages@.len(),
            sv == rows_view(stages@),
            rv == rows_view(rewards@),
            stages_readable(sv, rv, num_default),
            out@ == offering_stages(sv.take(i as int), rv, item_type, item_id, num_default),
        decreases stages@.len() - i,
    {
        assert(sv[i as int] == stages@[i as int]@);
        assert(field_i32(sv[i as int], "id"@) is Some);
        let id = match stages[i].get_i32("id") {
            Some(v) => v,
            None => 0,
        };
        assert(has_row_with(rv, "id"@, stage_id(sv[i as int])));
        let at = find_last_with(rewards, "id", id);
        match at {
            Some(j) => {
                assert(rv[j as int] == rewards@[j as int]@);
                let items = row_reward_items(&rewards[j], num_default);
                let hit = any_fits(&items, item_type, item_id);
                assert(sv.take(i + 1).drop_last() =~= sv.take(i as int));
                assert(sv.take(i + 1).last() == sv[i as int]);
                if hit {
                    out.push(id);
                }
            },
            None => {},
        }
        i = i + 1;
    }
    assert(sv.take(stages@.len() as int) =~= sv);
    out
}

} // verus!
