use axel::api::quest::quest_fame::{
    fame_quest_area_list, fame_quest_rank_list, fame_quest_result_response, fame_quest_rewards, fame_quest_stage_list,
    FameQuestAreaListRequest, FameQuestStageListRequest,
};
use axel::api::quest::quest_hunting::{hunting_quest_list_by_item, HuntingQuestListByItemRequest};
use axel::api::quest::{find_last_with, parse_reward_items, stages_offering, QuestRewardItem};
use axel::api::quest_hunting as top_hunting;
use axel::api::smith_upgrade::{blacksmith_quest_list, BlacksmithQuestListRequest};
use axel::master::MasterRow;

fn row(fields: &[(&str, &str)]) -> MasterRow {
    MasterRow { fields: fields.iter().map(|(k, v)| (k.to_string(), v.to_string())).collect() }
}

fn item(item_type: i32, item_id: i64, item_num: i32, item_rare: bool) -> QuestRewardItem {
    QuestRewardItem { item_type, item_id, item_num, item_rare }
}

#[test]
fn reward_items_come_in_index_order() {
    let r = row(&[
        ("id", "7"),
        ("item_type2", "15"),
        ("item_id2", "5001"),
        ("item_num2", "4"),
        ("item_rare2", "1"),
        ("item_type1", "3"),
        ("item_id1", "1"),
        ("item_num1", "50"),
        ("item_rare1", "0"),
    ]);
    assert_eq!(parse_reward_items(&r), vec![item(3, 1, 50, false), item(15, 5001, 4, true)]);
}

#[test]
fn reward_item_count_defaults_to_one() {
    let r = row(&[("item_type1", "4"), ("item_id1", "1061100"), ("item_rare1", "0")]);
    assert_eq!(parse_reward_items(&r), vec![item(4, 1061100, 1, false)]);
}

#[test]
fn empty_reward_slots_are_skipped() {
    let r = row(&[
        ("item_type1", "0"),
        ("item_id1", "0"),
        ("item_num1", "0"),
        ("item_rare1", "0"),
        ("item_type2", "3"),
        ("item_id2", "1"),
        ("item_num2", "0"),
        ("item_rare2", "0"),
        ("item_type3", "3"),
        ("item_id3", "1"),
        ("item_rare3", "x"),
    ]);
    assert_eq!(parse_reward_items(&r), vec![]);
}

#[test]
fn last_row_with_a_key_wins() {
    let rows = vec![row(&[("id", "1")]), row(&[("id", "2")]), row(&[("id", "1")])];
    assert_eq!(find_last_with(&rows, "id", 1), Some(2));
    assert_eq!(find_last_with(&rows, "id", 2), Some(1));
    assert_eq!(find_last_with(&rows, "id", 3), None);
}

fn stages() -> Vec<MasterRow> {
    vec![row(&[("id", "10")]), row(&[("id", "20")]), row(&[("id", "30")])]
}

fn rewards() -> Vec<MasterRow> {
    vec![
        row(&[("id", "10"), ("item_type1", "15"), ("item_id1", "100"), ("item_rare1", "0")]),
        row(&[("id", "20"), ("item_type1", "16"), ("item_id1", "100"), ("item_num1", "2"), ("item_rare1", "0")]),
        row(&[("id", "30"), ("item_type1", "15"), ("item_id1", "200"), ("item_num1", "1"), ("item_rare1", "0")]),
    ]
}

#[test]
fn stages_offering_an_item_in_order() {
    assert_eq!(stages_offering(&stages(), &rewards(), None, 100, Some(1)), vec![10, 20]);
    assert_eq!(stages_offering(&stages(), &rewards(), Some(16), 100, Some(1)), vec![20]);
    // Without a default count, an item with no count is not listed.
    assert_eq!(stages_offering(&stages(), &rewards(), None, 100, None), vec![20]);
    assert_eq!(stages_offering(&stages(), &rewards(), None, 999, Some(1)), Vec::<i32>::new());
}

#[test]
fn blacksmith_quests_list_main_and_hunting_stages() {
    let list = blacksmith_quest_list(&stages(), &rewards(), &stages(), &rewards(), &BlacksmithQuestListRequest { item_id: 200 });
    assert_eq!(list.quests.len(), 1);
    assert_eq!(list.quests[0].quest_id, 30);
    assert_eq!((list.quests[0].task1, list.quests[0].task2, list.quests[0].task3, list.quests[0].limit), (1, 1, 0, 42));
    assert_eq!(list.huntingquests.len(), 1);
    assert_eq!(list.huntingquests[0].quest_id, 30);
    assert_eq!(list.huntingquests[0].status, 2);
    assert!(list.eventquests.is_empty() && list.exchanges.is_empty() && list.fame_quest.is_empty());
    assert_eq!(list.dungeon.challenging_area_id, 0);
}

#[test]
fn hunting_quests_by_item_match_type_and_id() {
    let r = hunting_quest_list_by_item(&stages(), &rewards(), &HuntingQuestListByItemRequest { item_type: 15, item_id: 100 });
    assert_eq!(r.huntingquests.iter().map(|q| q.quest_id).collect::<Vec<_>>(), vec![10]);
    assert_eq!(r.eventboxgachas, vec![20043]);
    assert_eq!(r.exchanges, vec![100]);
}

#[test]
fn hunting_quests_by_item_need_a_count() {
    let r = top_hunting::hunting_quest_list_by_item(
        &stages(),
        &rewards(),
        &top_hunting::HuntingQuestListByItemRequest { item_type: 15, item_id: 100 },
    );
    assert!(r.huntingquests.is_empty());
    let r = top_hunting::hunting_quest_list_by_item(
        &stages(),
        &rewards(),
        &top_hunting::HuntingQuestListByItemRequest { item_type: 16, item_id: 100 },
    );
    assert_eq!(r.huntingquests.iter().map(|q| q.quest_id).collect::<Vec<_>>(), vec![20]);
}

fn areas() -> Vec<MasterRow> {
    vec![
        row(&[("id", "1"), ("quest_rank_id", "1")]),
        row(&[("id", "2"), ("quest_rank_id", "1")]),
        row(&[("id", "3"), ("quest_rank_id", "2")]),
    ]
}

#[test]
fn fame_ranks_list_every_rank() {
    let ranks = vec![row(&[("id", "1")]), row(&[("id", "2")])];
    let r = fame_quest_rank_list(&ranks);
    assert_eq!(r.quest_rank_id_list, vec![1, 2]);
    assert!(!r.has_emergency_quest);
}

#[test]
fn fame_areas_of_a_rank() {
    let r = fame_quest_area_list(&areas(), &FameQuestAreaListRequest { quest_rank_id: 1 });
    assert_eq!(r.area_info_list.iter().map(|a| a.area_id).collect::<Vec<_>>(), vec![1, 2]);
}

#[test]
fn fame_stages_of_an_area_unlock_its_rank() {
    let stages = vec![
        row(&[("id", "710011"), ("area_id", "2"), ("mode", "1")]),
        row(&[("id", "710012"), ("area_id", "2"), ("mode", "2")]),
        row(&[("id", "710013"), ("area_id", "3"), ("mode", "1")]),
        row(&[("id", "710014"), ("area_id", "2"), ("mode", "1")]),
    ];
    let r = fame_quest_stage_list(&areas(), &stages, &FameQuestStageListRequest { area_id: 2, mode: 1 });
    assert_eq!(r.quest_list.iter().map(|s| s.stage_id).collect::<Vec<_>>(), vec![710011, 710014]);
    assert_eq!(r.quest_list[0].release_condition.key_quest, 2);
    assert_eq!(r.unlock_area_id_list, vec![1, 2]);
    assert_eq!(r.remaining_count, 1);
    assert!(!r.can_skip);
}

#[test]
fn fame_result_lists_the_stage_items() {
    let rewards = vec![
        row(&[("fame_quest_id", "5"), ("item_type1", "3"), ("item_id1", "1"), ("item_num1", "9"), ("item_rare1", "0")]),
        row(&[("fame_quest_id", "5"), ("item_type1", "3"), ("item_id1", "1"), ("item_num1", "50"), ("item_rare1", "1")]),
    ];
    let items = fame_quest_rewards(&rewards, 5);
    assert_eq!(items, vec![item(3, 1, 50, true)]);
    let r = fame_quest_result_response(&items, vec![], vec![]);
    assert_eq!((r.fame_rank_up, r.exp, r.lvup, r.money), (1, 230, 0, 42000));
    assert_eq!(r.clear_reward.len(), 1);
    assert_eq!((r.clear_reward[0].itemtype, r.clear_reward[0].itemid, r.clear_reward[0].itemnum), (3, 1, 50));
    assert!(r.clear_reward[0].is_rare);
    assert!(r.mission_reward.is_empty() && r.lottery_potion_list.is_empty());
}
