use vstd::prelude::*;
use crate::api::{item_type_code, RemoteDataItemType};
use crate::master::{column_i32, read_column_i32, read_values_where, values_readable, values_where, field_i32, rows_view, MasterRow};

verus! {

#[derive(Debug)]
pub struct PanelMissionListResponse {
  pub panel_missions: Vec<PanelMissionSummary>,
}

#[derive(Debug)]
pub struct PanelMissionSummary {
  pub panel_group_id: i32,
  pub achieved_mission_count: i32,
  pub receivable_mission_count: i32,
  pub is_challengeable: bool,
  pub is_new: bool,
}

#[derive(Debug)]
pub struct PanelMissionRequest {
  pub panel_group_id: i32,
}

#[derive(Debug)]
pub struct PanelMissionResponse {
  pub missions: Vec<PanelMissionDetail>,
  pub rewards: Vec<PanelMissionReward>,
  pub complete_reward: PanelMissionCompleteReward,
}

#[derive(Debug)]
pub struct PanelMissionDetail {
  pub mission_id: i32,
  pub progress: i32,
  pub max_progress: i32,
  pub is_challengeable: bool,
}

#[derive(Debug)]
pub struct PanelMissionReward {
  pub mission_id: i32,
  pub goods_id: Vec<MissionGood>,
  /// "You were unable to receive the following items, so they have been sent to your Gift Box."
  pub unreceived_goods_id: Vec<MissionGood>,
}

#[derive(Debug)]
pub struct PanelMissionCompleteReward {
  pub goods_id: Vec<MissionGood>,
  pub unreceived_goods_id: Vec<MissionGood>,
}

#[derive(Debug)]
pub struct MissionGood {
  pub item_type: i32,
  pub item_id: i64,
  pub item_num: i32,
}

/// The panel missions: every group of the master, new, open, nothing achieved.
pub fn panel_mission_list(groups: &Vec<MasterRow>) -> (r: PanelMissionListResponse)
    requires
        forall|i: int| 0 <= i < groups@.len() ==> (#[trigger] field_i32(rows_view(groups@)[i], "panel_group_id"@)) is Some,
    ensures
        r.panel_missions@.len() == groups@.len(),
        forall|k: int| 0 <= k < groups@.len() ==> #[trigger] r.panel_missions@[k] == (PanelMissionSummary {
            panel_group_id: column_i32(rows_view(groups@), "panel_group_id"@)[k],
            achieved_mission_count: 0,
            receivable_mission_count: 0,
            is_challengeable: true,
            is_new: true,
        }),
{
    let ids = read_column_i32(groups, "panel_group_id");
    let mut out: Vec<PanelMissionSummary> = Vec::new();
    let mut k: usize = 0;
    while k < ids.len()
        invariant
            k <= ids@.len(),
            out@.len() == k,
            forall|j: int| 0 <= j < k ==> #[trigger] out@[j] == (PanelMissionSummary {
                panel_group_id: ids@[j],
                achieved_mission_count: 0,
                receivable_mission_count: 0,
                is_challengeable: true,
                is_new: true,
            }),
        decreases ids@.len() - k,
    {
        out.push(PanelMissionSummary {
            panel_group_id: ids[k],
            achieved_mission_count: 0,
            receivable_mission_count: 0,
            is_challengeable: true,
            is_new: true,
        });
        k = k + 1;
    }
    PanelMissionListResponse { panel_missions: out }
}

/// The missions of a panel, each open with nothing done out of a hundred; no rewards; a
/// hundred paid gems for completing the panel.
pub fn panel_mission(missions: &Vec<MasterRow>, request: &PanelMissionRequest) -> (r: PanelMissionResponse)
    requires
        values_readable(rows_view(missions@), "panel_group_id"@, request.panel_group_id, "mission_id"@),
    ensures
        ({
            let ids = values_where(rows_view(missions@), "panel_group_id"@, request.panel_group_id, "mission_id"@);
            &&& r.missions@.len() == ids.len()
            &&& forall|k: int| 0 <= k < ids.len() ==> #[trigger] r.missions@[k]
                == (PanelMissionDetail { mission_id: ids[k], progress: 0, max_progress: 100, is_challengeable: true })
        }),
        r.rewards@.len() == 0,
        r.complete_reward.goods_id@ == seq![MissionGood { item_type: item_type_code(RemoteDataItemType::RealMoney), item_id: 1, item_num: 100 }],
        r.complete_reward.unreceived_goods_id@.len() == 0,
{
    let ids = read_values_where(missions, "panel_group_id", request.panel_group_id, "mission_id");
    let mut out: Vec<PanelMissionDetail> = Vec::new();
    let mut k: usize = 0;
    while k < ids.len()
        invariant
            k <= ids@.len(),
            out@.len() == k,
            forall|j: int| 0 <= j < k ==> #[trigger] out@[j]
                == (PanelMissionDetail { mission_id: ids@[j], progress: 0, max_progress: 100, is_challengeable: true }),
        decreases ids@.len() - k,
    {
        out.push(PanelMissionDetail { mission_id: ids[k], progress: 0, max_progress: 100, is_challengeable: true });
        k = k + 1;
    }
    let goods = vec![MissionGood { item_type: RemoteDataItemType::RealMoney.code(), item_id: 1, item_num: 100 }];
    assert(goods@ =~= seq![MissionGood { item_type: item_type_code(RemoteDataItemType::RealMoney), item_id: 1, item_num: 100 }]);
    PanelMissionResponse {
        missions: out,
        rewards: Vec::new(),
        complete_reward: PanelMissionCompleteReward { goods_id: goods, unreceived_goods_id: Vec::new() },
    }
}

} // verus!
