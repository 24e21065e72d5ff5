use axel::api::dungeon::{
    area_member_num, dungeon_area_challenge, dungeon_area_skip, dungeon_area_top, dungeon_battle_start, dungeon_list,
    dungeon_party, dungeon_stage_party_info, dungeon_team_info, dungeon_top, DungeonAreaChallengeRequest,
    DungeonAreaSkipRequest, DungeonAreaTopRequest, DungeonBattleStartRequest, DungeonError,
    DungeonStagePartyInfoRequest, DungeonTeamInfoRequest, DungeonTopRequest,
};
use axel::master::MasterRow;

fn row(fields: &[(&str, &str)]) -> MasterRow {
    MasterRow { fields: fields.iter().map(|(k, v)| (k.to_string(), v.to_string())).collect() }
}

fn areas() -> Vec<MasterRow> {
    vec![
        row(&[("id", "11"), ("dungeon_id", "1"), ("member_num", "3")]),
        row(&[("id", "12"), ("dungeon_id", "1"), ("member_num", "5")]),
        row(&[("id", "21"), ("dungeon_id", "2"), ("member_num", "4")]),
    ]
}

fn stages() -> Vec<MasterRow> {
    vec![
        row(&[("id", "1101"), ("area_id", "11")]),
        row(&[("id", "1102"), ("area_id", "11")]),
        row(&[("id", "1201"), ("area_id", "12")]),
        row(&[("id", "9901"), ("area_id", "99")]),
    ]
}

fn enemies() -> Vec<MasterRow> {
    (1..=5).map(|i| row(&[("enemy_id", &format!("{}", 100 + i))])).collect()
}

#[test]
fn area_member_count_is_read() {
    assert_eq!(area_member_num(&areas(), 12), Ok(5));
    assert_eq!(area_member_num(&areas(), 13), Err(DungeonError::InvalidAreaId));
}

#[test]
fn dungeon_party_fills_forms_with_members() {
    let p = dungeon_party(&vec![7, 8], 3);
    assert_eq!(p.iter().map(|f| (f.form_no, f.main)).collect::<Vec<_>>(), vec![(1, 7), (2, 8), (3, 0)]);
    assert!(p.iter().all(|f| f.id == 1 && f.strength == 123 && f.specialskill.special_skill_id == 100001 && f.max_hp == 100));
}

#[test]
fn team_info_takes_the_area_member_count() {
    let r = dungeon_team_info(&areas(), &DungeonTeamInfoRequest { area_id: 11 }, &vec![7, 8, 9, 10], vec![]).unwrap();
    assert_eq!(r.team_set.party.len(), 3);
    assert_eq!(r.team_set.party[2].main, 9);
    assert!(r.team_set.members.is_empty() && r.team_set.weapons.is_empty());
    assert!(dungeon_team_info(&areas(), &DungeonTeamInfoRequest { area_id: 5 }, &vec![], vec![]).is_err());
}

#[test]
fn stage_party_info_allows_trials() {
    let r = dungeon_stage_party_info(&areas(), &DungeonStagePartyInfoRequest { area_id: 21 }, &vec![1], vec![]).unwrap();
    assert_eq!(r.party_set.stage_party_set.party.len(), 4);
    assert!(r.is_allow_trial);
}

#[test]
fn challenge_starts_at_the_first_stage_of_the_area() {
    let r = dungeon_area_challenge(&areas(), &stages(), &enemies(), &DungeonAreaChallengeRequest { area_id: 11, is_practice: false }, &vec![3], vec![]).unwrap();
    assert_eq!(r.stage_state.stage_id, 1101);
    assert!(!r.stage_state.is_challenge);
    assert_eq!(r.stage_state.enemies.iter().map(|e| (e.enemy_id, e.current_hp)).collect::<Vec<_>>(), vec![(101, 100), (102, 100), (103, 100)]);
    assert_eq!(r.party_set.stage_party_set.party.len(), 3);
    assert_eq!(r.party_set.stage_party_set.party[0].main, 3);
}

#[test]
fn challenge_errors() {
    let no_area = dungeon_area_challenge(&areas(), &stages(), &enemies(), &DungeonAreaChallengeRequest { area_id: 99, is_practice: false }, &vec![], vec![]);
    assert_eq!(no_area.err(), Some(DungeonError::InvalidAreaId));
    let no_stage = dungeon_area_challenge(&areas(), &stages(), &enemies(), &DungeonAreaChallengeRequest { area_id: 21, is_practice: false }, &vec![], vec![]);
    assert_eq!(no_stage.err(), Some(DungeonError::NoStages));
}

#[test]
fn battle_start_uses_five_forms() {
    let r = dungeon_battle_start(&areas(), &stages(), &enemies(), &DungeonBattleStartRequest { stage_id: 1201 }, &vec![4, 5, 6, 7, 8, 9], vec![]).unwrap();
    assert_eq!(r.chest, "10101111,10101120,10101131");
    assert_eq!(r.party.party_forms.iter().map(|f| f.main).collect::<Vec<_>>(), vec![4, 5, 6, 7, 8]);
    assert_eq!(r.livemembers.len(), 5);
    assert_eq!((r.livemembers[4].id, r.livemembers[4].hp, r.livemembers[4].form_no), (8, 100, 1));
    assert_eq!(r.enemy_info.iter().map(|e| e.enemy_id).collect::<Vec<_>>(), vec![101, 102, 103]);
    assert_eq!(r.resume_info, "");
}

#[test]
fn battle_start_errors() {
    let r = dungeon_battle_start(&areas(), &stages(), &enemies(), &DungeonBattleStartRequest { stage_id: 1 }, &vec![], vec![]);
    assert_eq!(r.err(), Some(DungeonError::InvalidStageId));
    let r = dungeon_battle_start(&areas(), &stages(), &enemies(), &DungeonBattleStartRequest { stage_id: 9901 }, &vec![], vec![]);
    assert_eq!(r.err(), Some(DungeonError::InvalidAreaId));
}

#[test]
fn dungeon_top_lists_the_areas_of_a_dungeon() {
    let r = dungeon_top(&areas(), &DungeonTopRequest { dungeon_id: 1 });
    assert_eq!(r.area_info_list.iter().map(|a| (a.area_id, a.clear_rank, a.is_challengeable)).collect::<Vec<_>>(), vec![(11, 2, true), (12, 2, true)]);
    assert_eq!(r.challenge_count_info.bought_count, 4);
}

#[test]
fn dungeon_list_starts_with_the_first_dungeon() {
    let r = dungeon_list(&vec![row(&[("id", "3")]), row(&[("id", "4")])]);
    assert_eq!(r.dungeon.dungeon_id, 3);
    assert_eq!(r.regular_dungeons.dungeon_list.iter().map(|d| d.dungeon_id).collect::<Vec<_>>(), vec![3, 4]);
}

#[test]
fn area_top_offers_every_benefit() {
    let r = dungeon_area_top(&vec![row(&[("id", "31")]), row(&[("id", "32")])], &DungeonAreaTopRequest { area_id: 11 });
    assert_eq!(r.unchoosed_benefit_id_list, vec![31, 32]);
    assert_eq!(r.stage_state.stage_id, 1101);
    assert_eq!(r.clear_info.reward_items[0].item_num, 10000);
    assert_eq!(r.benefit_re_lottery_count, 10);
}

#[test]
fn area_skip_gives_one_reward() {
    let r = dungeon_area_skip(&DungeonAreaSkipRequest { area_id: 11, skip_count: 1 });
    assert_eq!(r.reward.len(), 1);
    assert_eq!((r.reward[0].exp, r.reward[0].money, r.reward[0].itemnum), (500, 1000, 5000));
}
