use vstd::prelude::*;
use crate::master::{field_i32, rows_view, FieldsView, MasterRow};

verus! {

#[derive(Debug)]
pub struct StoryList {
  pub story_list: Vec<StoryData>,
  pub gettable_sp_story_member_id_list: Vec<i64>,
}

#[derive(Debug)]
pub struct StoryData {
  pub user_story_id: i32,
  pub story_type: StoryType,
  pub story_id: i32,
  pub force_release: bool,
  pub selections: Vec<StorySelection>,
  pub status: StoryStatus,
}

#[derive(Debug, Clone, Copy)]
pub enum StoryStatus {
  Locked,
  Unlocked,
  Done,
}

#[derive(Debug, Clone, Copy)]
pub enum StoryType {
  /// "Main Story"
  Main,
  /// "Characters"
  Member,
  /// "KonoSuba"
  Reminiscence,
  /// "Events"
  Event,
  /// "Events" -> "Recruit"
  Gacha,
  /// "Events" -> "Other"
  Other,
}

#[derive(Debug)]
pub struct StorySelection {
  pub selection: Vec<bool>,
}

#[derive(Debug)]
pub struct StoryListRequest {
  /// Seems to be always 0
  pub kind: i32,
}

#[derive(Debug)]
pub struct StoryReward {
  pub reward: Vec<StoryRewardItem>,
}

#[derive(Debug)]
pub struct StoryRewardItem {
  pub item_type: i32,
  pub item_id: i64,
  pub num: i32,
}

impl StoryStatus {
    /// The number the client reads.
    pub fn code(self) -> (r: u8)
        ensures
            r == (match self { StoryStatus::Locked => 0u8, StoryStatus::Unlocked => 1u8, StoryStatus::Done => 2u8 }),
    {
        match self {
            StoryStatus::Locked => 0,
            StoryStatus::Unlocked => 1,
            StoryStatus::Done => 2,
        }
    }
}

impl StoryType {
    /// The number the client reads.
    pub fn code(self) -> (r: u8)
        ensures
            r == (match self {
                StoryType::Main => 1u8,
                StoryType::Member => 2u8,
                StoryType::Reminiscence => 3u8,
                StoryType::Event => 4u8,
                StoryType::Gacha => 5u8,
                StoryType::Other => 6u8,
            }),
    {
        match self {
            StoryType::Main => 1,
            StoryType::Member => 2,
            StoryType::Reminiscence => 3,
            StoryType::Event => 4,
            StoryType::Gacha => 5,
            StoryType::Other => 6,
        }
    }
}

/// The story masters, in the order the story list reads them, each with the kind of its
/// stories.
pub open spec fn story_masters_spec() -> Seq<(Seq<char>, StoryType)> {
    seq![
        ("story_main"@, StoryType::Main),
        ("story_reminiscence"@, StoryType::Reminiscence),
        ("story_etc"@, StoryType::Other),
        ("story_event"@, StoryType::Event),
        ("story_gacha"@, StoryType::Gacha),
        ("story_member"@, StoryType::Member),
        ("story_unique"@, StoryType::Reminiscence),
    ]
}

pub fn story_masters() -> (r: Vec<(String, StoryType)>)
    ensures
        r@.len() == 7,
        forall|k: int| 0 <= k < 7 ==> (#[trigger] r@[k]).0@ == story_masters_spec()[k].0 && r@[k].1 == story_masters_spec()[k].1,
{
    vec![
        (String::from_str("story_main"), StoryType::Main),
        (String::from_str("story_reminiscence"), StoryType::Reminiscence),
        (String::from_str("story_etc"), StoryType::Other),
        (String::from_str("story_event"), StoryType::Event),
        (String::from_str("story_gacha"), StoryType::Gacha),
        (String::from_str("story_member"), StoryType::Member),
        (String::from_str("story_unique"), StoryType::Reminiscence),
    ]
}

/// A table of stories with their kind, as rows.
pub open spec fn tables_view(tables: Seq<(StoryType, Vec<MasterRow>)>) -> Seq<(StoryType, Seq<FieldsView>)> {
    tables.map_values(|t: (StoryType, Vec<MasterRow>)| (t.0, rows_view(t.1@)))
}

/// Every story, table after table, as (kind, id).
pub open spec fn all_stories(tables: Seq<(StoryType, Seq<FieldsView>)>) -> Seq<(StoryType, i32)>
    decreases tables.len(),
{
    if tables.len() == 0 {
        Seq::empty()
    } else {
        let t = tables.last();
        all_stories(tables.drop_last()) + t.1.map_values(|fs: FieldsView| (t.0, field_i32(fs, "id"@).unwrap()))
    }
}

/// Every story has an id that reads.
pub open spec fn stories_readable(tables: Seq<(StoryType, Seq<FieldsView>)>) -> bool {
    forall|t: int, i: int| 0 <= t < tables.len() && 0 <= i < tables[t].1.len() ==> (#[trigger] field_i32(tables[t].1[i], "id"@)) is Some
}

/// A story as the list shows it: numbered by its place, read, with one empty selection.
pub open spec fn listed_story(d: StoryData, k: int, s: (StoryType, i32)) -> bool {
    &&& d.user_story_id == k as i32
    &&& d.story_type == s.0
    &&& d.story_id == s.1
    &&& !d.force_release
    &&& d.selections@.len() == 1 && d.selections@[0].selection@.len() == 0
    &&& d.status == StoryStatus::Done
}

/// Every story of the tables, in order, numbered from 0, each read.
pub fn story_list(tables: &Vec<(StoryType, Vec<MasterRow>)>) -> (r: StoryList)
    requires
        stories_readable(tables_view(tables@)),
    ensures
        r.story_list@.len() == all_stories(tables_view(tables@)).len(),
        forall|k: int| 0 <= k < r.story_list@.len() ==> listed_story(#[trigger] r.story_list@[k], k, all_stories(tables_view(tables@))[k]),
        r.gettable_sp_story_member_id_list@.len() == 0,
{
    let ghost tv = tables_view(tables@);
    let mut out: Vec<StoryData> = Vec::new();
    let mut t: usize = 0;
    while t < tables.len()
        invariant
            t <= tables@.len(),
            tv == tables_view(tables@),
            stories_readable(tv),
            out@.len() == all_stories(tv.take(t as int)).len(),
            forall|k: int| 0 <= k < out@.len() ==> listed_story(#[trigger] out@[k], k, all_stories(tv.take(t as int))[k]),
        decreases tables@.len() - t,
    {
        let kind = tables[t].0;
        let rows = &tables[t].1;
        let ghost before = all_stories(tv.take(t as int));
        let ghost rv = rows_view(rows@);
        assert(tv[t as int] == (kind, rv));
        assert forall|j: int| 0 <= j < rv.len() implies (#[trigger] field_i32(rv[j], "id"@)) is Some by {
            assert(tv[t as int].1[j] == rv[j]);
        }
        let mut i: usize = 0;
        while i < rows.len()
            invariant
                i <= rows@.len(),
                rv == rows_view(rows@),
                forall|j: int| 0 <= j < rv.len() ==> (#[trigger] field_i32(rv[j], "id"@)) is Some,
                out@.len() == before.len() + i,
                forall|k: int| 0 <= k < out@.len() ==> listed_story(#[trigger] out@[k], k,
                    (before + rv.take(i as int).map_values(|fs: FieldsView| (kind, field_i32(fs, "id"@).unwrap())))[k]),
            decreases rows@.len() - i,
        {
            assert(rv[i as int] == rows@[i as int]@);
            assert(field_i32(rv[i as int], "id"@) is Some);
            let id = match rows[i].get_i32("id") {
                Some(v) => v,
                None => 0,
            };
            let k = out.len();
            #[verifier::truncate]
            let number = k as i32;
            out.push(StoryData {
                user_story_id: number,
                story_type: kind,
                story_id: id,
                force_release: false,
                selections: vec![StorySelection { selection: Vec::new() }],
                status: StoryStatus::Done,
            });
            assert(before + rv.take(i + 1).map_values(|fs: FieldsView| (kind, field_i32(fs, "id"@).unwrap()))
                =~= (before + rv.take(i as int).map_values(|fs: FieldsView| (kind, field_i32(fs, "id"@).unwrap()))).push((kind, id)));
            i = i + 1;
        }
        assert(rv.take(rows@.len() as int) =~= rv);
        assert(tv.take(t + 1).drop_last() =~= tv.take(t as int));
        assert(tv.take(t + 1).last() == tv[t as int]);
        assert(all_stories(tv.take(t + 1)) == before + rv.map_values(|fs: FieldsView| (kind, field_i32(fs, "id"@).unwrap())));
        t = t + 1;
    }
    assert(tv.take(tables@.len() as int) =~= tv);
    StoryList { story_list: out, gettable_sp_story_member_id_list: Vec::new() }
}

/// The rewards of a story that was read: none.
pub fn story_reward() -> (r: StoryReward)
    ensures
        r.reward@.len() == 0,
{
    StoryReward { reward: Vec::new() }
}

} // verus!
