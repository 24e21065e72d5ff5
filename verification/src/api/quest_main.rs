use vstd::prelude::*;
use crate::api::quest::quest_main::{area_items, areas_listed, QuestMainAreaListResponse, QuestMainPartListItem, QuestMainPartListResponse, QuestMainStageListItem, QuestMainStageListResponse};
use crate::api::NotificationData;
use crate::api::login::notifications_match;
use crate::call::CallResponse;
use crate::master::{column_i32, field_i32, read_column_i32, rows_view, FieldsView, MasterRow};

verus! {

#[derive(Debug)]
pub struct QuestMainStageListRequest {
  pub area_id: i32,
}

/// The main quest parts: every part of the master, new.
pub fn quest_main_part_list(parts: &Vec<MasterRow>) -> (r: QuestMainPartListResponse)
    requires
        forall|i: int| 0 <= i < parts@.len() ==> (#[trigger] field_i32(rows_view(parts@)[i], "part"@)) is Some,
    ensures
        r.quests@.len() == parts@.len(),
        forall|k: int| 0 <= k < parts@.len() ==> #[trigger] r.quests@[k]
            == (QuestMainPartListItem { quest_part_id: column_i32(rows_view(parts@), "part"@)[k], status: 0 }),
{
    let ids = read_column_i32(parts, "part");
    let mut quests: Vec<QuestMainPartListItem> = Vec::new();
    let mut k: usize = 0;
    while k < ids.len()
        invariant
            k <= ids@.len(),
            quests@.len() == k,
            forall|j: int| 0 <= j < k ==> #[trigger] quests@[j] == (QuestMainPartListItem { quest_part_id: ids@[j], status: 0 }),
        decreases ids@.len() - k,
    {
        quests.push(QuestMainPartListItem { quest_part_id: ids[k], status: 0 });
        k = k + 1;
    }
    QuestMainPartListResponse { quests }
}

/// The main quest areas: every area of the master, new, in normal difficulty only; with a
/// notification that unlocks the area list.
pub fn quest_main_area_list(areas: &Vec<MasterRow>, time: u32) -> (r: CallResponse<QuestMainAreaListResponse>)
    requires
        forall|i: int| 0 <= i < areas@.len() ==> (#[trigger] field_i32(rows_view(areas@)[i], "id"@)) is Some,
    ensures
        r.status == 0,
        r.time == Some(time),
        r.remote@.len() == 0,
        notifications_match(r.notifications@, seq![(1i32, 7i32, 20i32, 1i32, ""@, ""@)]),
        areas_listed(r.custom.normal_area_list@, column_i32(rows_view(areas@), "id"@), 0),
        r.custom.hard_area_list@.len() == 0,
        r.custom.expert_area_list@.len() == 0,
{
    let ids = read_column_i32(areas, "id");
    let custom = QuestMainAreaListResponse {
        normal_area_list: area_items(&ids, 0),
        hard_area_list: Vec::new(),
        expert_area_list: Vec::new(),
    };
    let mut response = CallResponse::at_time(0, time, custom);
    response.add_notifications(vec![NotificationData::new(1, 7, 20, 1, String::from_str(""), String::from_str(""))]);
    response
}

/// The normal stages of an area, in order.
pub open spec fn normal_stages(rows: Seq<FieldsView>, area_id: i32) -> Seq<i32>
    decreases rows.len(),
{
    if rows.len() == 0 {
        Seq::empty()
    } else {
        let rest = normal_stages(rows.drop_last(), area_id);
        if field_i32(rows.last(), "area_id"@) == Some(area_id) && field_i32(rows.last(), "mode"@) == Some(1i32) {
            rest.push(field_i32(rows.last(), "stage_id"@).unwrap())
        } else {
            rest
        }
    }
}

/// Every stage names its area; the stages of the area have a mode; the normal ones a stage id.
pub open spec fn normal_stages_readable(rows: Seq<FieldsView>, area_id: i32) -> bool {
    forall|i: int| 0 <= i < rows.len() ==> {
        &&& (#[trigger] field_i32(rows[i], "area_id"@)) is Some
        &&& field_i32(rows[i], "area_id"@) == Some(area_id) ==> field_i32(rows[i], "mode"@) is Some
        &&& field_i32(rows[i], "area_id"@) == Some(area_id) && field_i32(rows[i], "mode"@) == Some(1i32)
            ==> field_i32(rows[i], "stage_id"@) is Some
    }
}

/// The normal stages of a main quest area, each new with no task done.
pub fn quest_main_stage_list(stages: &Vec<MasterRow>, request: &QuestMainStageListRequest) -> (r: QuestMainStageListResponse)
    requires
        normal_stages_readable(rows_view(stages@), request.area_id),
    ensures
        ({
            let s = normal_stages(rows_view(stages@), request.area_id);
            &&& r.quests@.len() == s.len()
            &&& forall|k: int| 0 <= k < s.len() ==> #[trigger] r.quests@[k] == (QuestMainStageListItem {
                quest_stage_id: s[k],
                status: 0,
                task1: 0,
                task2: 0,
                task3: 0,
                challenge_count: 0,
                difficulty: 1,
            })
        }),
{
    let ghost sv = rows_view(stages@);
    let mut quests: Vec<QuestMainStageListItem> = Vec::new();
    let mut i: usize = 0;
    while i < stages.len()
        invariant
            i <= stages@.len(),
            sv == rows_view(stages@),
            normal_stages_readable(sv, request.area_id),
            quests@.len() == normal_stages(sv.take(i as int), request.area_id).len(),
            forall|k: int| 0 <= k < quests@.len() ==> #[trigger] quests@[k] == (QuestMainStageListItem {
                quest_stage_id: normal_stages(sv.take(i as int), request.area_id)[k],
                status: 0,
                task1: 0,
                task2: 0,
                task3: 0,
                challenge_count: 0,
                difficulty: 1,
            }),
        decreases stages@.len() - i,
    {
        assert(sv[i as int] == stages@[i as int]@);
        assert(sv.take(i + 1).drop_last() =~= sv.take(i as int));
        assert(sv.take(i + 1).last() == sv[i as int]);
        assert(field_i32(sv[i as int], "area_id"@) is Some);
        if stages[i].get_i32("area_id") == Some(request.area_id) && stages[i].get_i32("mode") == Some(1) {
            let stage_id = match stages[i].get_i32("stage_id") { Some(v) => v, None => 0 };
            quests.push(QuestMainStageListItem {
                quest_stage_id: stage_id,
                status: 0,
                task1: 0,
                task2: 0,
                task3: 0,
                challenge_count: 0,
                difficulty: 1,
            });
        }
        i = i + 1;
    }
    assert(sv.take(stages@.len() as int) =~= sv);
    QuestMainStageListResponse { quests }
}

} // verus!
