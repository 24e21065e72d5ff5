use axel::api::exchange::{exchange_list, leave_members, ExchangeListRequest, LeaveMembersError, LeftMember};
use axel::api::friend::{
    display_play_data, friend_info, friend_list, friend_recommendation_list, friend_search, greeting_list, greeting_send,
    FriendListKind, FriendStatus, FriendUserRow,
};
use axel::api::home::{home, home_slots, HomeMembersSetRequest};
use axel::api::interaction::{interaction, Character};
use axel::api::login_bonus::login_bonus;
use axel::api::party::{grade_up_xp, potion_xp, potions_to_consume, skill_level_ups, skill_up_rolls, upgrade_skills};
use axel::api::profile::{about_me_text, profile, SetProfileRequest};
use axel::level::LevelCalculator;
use axel::master::MasterRow;

use axel::api::character::{character_enhance_info, character_piece_board_info, CharacterEnhanceInfoRequest, CharacterPieceBoardInfoRequest};
use axel::api::story::{story_list, story_masters, StoryType};
use axel::api::expedition::{expedition_character, expedition_set, expedition_top, ExpeditionSetRequest};
use axel::api::mission::mission_list;
use axel::api::panel_mission::{panel_mission, panel_mission_list, PanelMissionRequest};
use axel::api::quest::quest_hunting::{quest_hunting_limit_stage_list, quest_hunting_list, quest_hunting_stage_list, QuestHuntingStageListRequest};
use axel::api::quest::quest_main::{battle_skip, quest_main_area_list, quest_main_part_list, quest_main_stage_list, BattleSkipRequest, QuestMainStageListRequest};
use axel::api::quest_fame::{fame_quest_result, FameQuestResultRequest};
use axel::api::battle_arena::{member_form, party_main_members, score_challenge_party, score_challenge_start, ScoreChallengeStartRequest};
use axel::api::party_info::PartyFormRow;

fn row(fields: &[(&str, &str)]) -> MasterRow {
    MasterRow { fields: fields.iter().map(|(k, v)| (k.to_string(), v.to_string())).collect() }
}

#[test]
fn profile_defaults_to_empty_texts() {
    let p = profile(None, Some("hi".to_string()), 1083110, 62010250, 1700000000);
    assert_eq!(p.name, "");
    assert_eq!(p.profile, "hi");
    assert_eq!((p.icon, p.honor_id), (1083110, 62010250));
    let data: Vec<(i32, i64, i32)> = p.display_play_data.iter().map(|d| (d.kind, d.value, d.display_status)).collect();
    assert_eq!(data, vec![(1, 2, 1), (4, 14, 1), (2, -1, 1), (3, 3, 1), (5, 1700000000, 1), (6, -2, 1), (7, 1, 1)]);
}

#[test]
fn no_break_spaces_become_spaces() {
    let r = about_me_text(&SetProfileRequest { profile: "Wahh!\u{a0}Kazuma,\u{a0}he!".to_string() });
    assert_eq!(r, "Wahh! Kazuma, he!");
}

#[test]
fn honor_lists_mark_the_chosen_title() {
    let honors = vec![row(&[("id", "60000000")]), row(&[("id", "62010250")])];
    let a = axel::api::profile::honor_list(&honors);
    let b = axel::api::honor::honor_list(&honors);
    let c = axel::api::honor_list::honor_list(&honors);
    assert_eq!(a.honor_list.iter().map(|h| (h.honor_id, h.is_selected, h.is_new)).collect::<Vec<_>>(), vec![(60000000, false, false), (62010250, true, false)]);
    assert_eq!(b.honor_list.iter().map(|h| h.is_selected).collect::<Vec<_>>(), vec![false, true]);
    assert_eq!(c.honor_list.iter().map(|h| h.honor_id).collect::<Vec<_>>(), vec![60000000, 62010250]);
}

#[test]
fn interaction_lists_characters_with_affinity() {
    let r = interaction(&vec![(100, 12), (101, 0)]);
    assert_eq!(r.characters.len(), 2);
    assert_eq!((r.characters[0].character_id, r.characters[0].rank_progress), (100, 12));
    assert_eq!(r.characters[1].voice, "");
    assert_eq!(r.characters[1].character_enhance_released_count, [0, 0, 0, 0]);
}

#[test]
fn character_rank_follows_the_affinity_table() {
    let levels = LevelCalculator::new(vec![10, 30, 60]);
    let c = Character::new(100, 35, String::new(), 0, 0, [0; 4], String::new());
    assert_eq!(c.rank(&levels), 3);
    let w = c.wire(&levels);
    assert_eq!((w.character_id, w.rank, w.rank_progress), (100, 3, 35));
}

#[test]
fn home_fills_five_slots() {
    let h = home(1011100, &vec![Some(1011100), None, Some(1064200)]);
    assert_eq!(h.member_info.member_ids, [1011100, 0, 1064200, 0, 0]);
    assert_eq!(h.member_info.current_member_id, 1011100);
    assert_eq!((h.advertisement_data.id, h.advertisement_data.reward_type), (10006, 1));
    assert!(h.multi_battle_invitation.is_none() && !h.display_plan_map);
}

#[test]
fn home_slots_store_zero_as_empty() {
    let slots = home_slots(&HomeMembersSetRequest { illustration_ids: [1011100, 10242131, 1064200, 0, 0] });
    assert_eq!(slots, [Some(1011100), Some(10242131), Some(1064200), None, None]);
}

#[test]
fn exchange_lists_its_rewards() {
    let items = vec![row(&[("id", "10001"), ("exchange_id", "100")]), row(&[("id", "20001"), ("exchange_id", "200")])];
    let r = exchange_list(&items, &ExchangeListRequest { exchange_master_id: 100 });
    assert_eq!(r.exchange_master_id, 100);
    assert_eq!(r.items.iter().map(|i| (i.exchange_reward_master_id, i.limit, i.exchange_num)).collect::<Vec<_>>(), vec![(10001, 1000, 500)]);
}

#[test]
fn leaving_members_pays_medals() {
    let rates = vec![row(&[("rare", "1"), ("medal_rate", "1")]), row(&[("rare", "3"), ("medal_rate", "5")]), row(&[("rare", "3"), ("medal_rate", "8")])];
    let left = vec![LeftMember { id: 11, member_id: 1001100, rarity: 1 }, LeftMember { id: 12, member_id: 1011100, rarity: 3 }];
    let (remote, total) = leave_members(&left, &rates).unwrap();
    assert_eq!(total, 9);
    assert_eq!(remote.len(), 2);
    assert_eq!((remote[1].cmd, remote[1].item_type, remote[1].item_id, remote[1].uniqid), (2, 4, 1011100, 12));
    assert_eq!(remote[1].tag, "back");
}

#[test]
fn leaving_a_member_without_medal_rate_fails() {
    let rates = vec![row(&[("rare", "1"), ("medal_rate", "1")])];
    let left = vec![LeftMember { id: 11, member_id: 1001100, rarity: 2 }];
    assert_eq!(leave_members(&left, &rates).err(), Some(LeaveMembersError::NoMedalRate(2)));
}

fn user(id: i64) -> FriendUserRow {
    FriendUserRow {
        id,
        username: "Aqua".to_string(),
        about_me: None,
        favorite_member: 1083110,
        honor: 62010250,
        last_access_time: 1700000000,
        tutorial_progress: 99,
    }
}

#[test]
fn only_the_friends_list_lists_users() {
    let users = vec![user(5), user(6)];
    let friends = friend_list(FriendListKind::Friends, 1, &users);
    assert_eq!(friends.friend_count, 2);
    assert_eq!(friends.friend_data[0].user_no, "5");
    assert_eq!(friends.friend_data[1].profile_comment, "");
    assert!(friends.friend_data[0].first && !friends.friend_data[0].mute);
    let sent = friend_list(FriendListKind::SentRequests, 1, &users);
    assert_eq!(sent.friend_count, 0);
    assert!(sent.friend_data.is_empty());
}

#[test]
fn friend_list_leaves_out_the_caller_and_stops_at_99() {
    let mut users: Vec<FriendUserRow> = (1..=120).map(user).collect();
    users[3].tutorial_progress = 5;
    let friends = friend_list(FriendListKind::Friends, 1, &users);
    assert_eq!(friends.friend_count, 99);
    assert_eq!(friends.friend_data.len(), 99);
    assert!(friends.friend_data.iter().all(|d| d.user_no != "1" && d.user_no != "4"));
    assert_eq!(friends.friend_data[0].user_no, "2");
    assert_eq!(friends.friend_data[2].user_no, "5");
    assert_eq!(friends.friend_data[98].user_no, "101");
}

#[test]
fn friend_info_shows_play_data() {
    let mut u = user(7);
    u.about_me = Some("hello".to_string());
    let r = friend_info(&u);
    assert_eq!(r.user_no, "7");
    assert_eq!(r.profile_comment, "hello");
    assert!(matches!(r.friend_status, FriendStatus::Friends));
    assert_eq!(r.friend_status.code(), 3);
    let data: Vec<(i32, i64)> = r.display_play_data.iter().map(|d| (d.kind, d.value)).collect();
    assert_eq!(data, vec![(1, 2), (4, 14), (2, 200), (3, 3), (5, 1700000000), (6, 42), (7, 1)]);
    assert_eq!(display_play_data(9).len(), 7);
}

#[test]
fn friend_stand_ins() {
    let s = friend_search(123);
    assert_eq!((s.user_no.as_str(), s.user_name.as_str()), ("-1", "Megumin"));
    assert_eq!(s.display_play_data[4].value, 123);
    let g = greeting_list();
    assert_eq!(g.greeting_count, 1);
    assert!(g.greeting_data[0].message.ends_with("EXPLOSION!!\n"));
    let rec = friend_recommendation_list();
    assert_eq!(rec.friend_data[0].user_name, "Yunyun");
    let sent = greeting_send();
    assert_eq!(sent.send_data[0].profile_comment, "Nah.");
}

#[test]
fn login_bonus_is_empty() {
    let b = login_bonus();
    assert!(b.goods.is_empty());
    assert_eq!(b.omikuji.omikuji_id, 0);
    assert!(b.roulette_login_bonus.days.is_empty());
}

#[test]
fn potions_add_experience_by_size() {
    assert_eq!(potion_xp(1, 2, 3), 300 + 3000 + 22500);
    assert_eq!(grade_up_xp(100, 50, 1000), 150);
    assert_eq!(grade_up_xp(900, 500, 1000), 1000);
    assert_eq!(potions_to_consume(2, 0, 1), vec![(1, 2), (3, 1)]);
}

#[test]
fn skill_up_rolls_by_kind() {
    assert_eq!(skill_up_rolls(0, 4), Some(12));
    assert_eq!(skill_up_rolls(1, 4), Some(4));
    assert_eq!(skill_up_rolls(2, 4), None);
}

#[test]
fn skill_ups_stop_at_the_top_level() {
    let (after, raises) = upgrade_skills(vec![Some((1, 5)), Some((2, 4)), Some((3, 5))], 10);
    assert_eq!(after, vec![Some((1, 5)), Some((2, 5)), Some((3, 5))]);
    assert_eq!(raises, vec![(2, 5)]);
    let ups = skill_level_ups(&vec![Some((1, 5)), Some((2, 5)), Some((3, 5))], &raises).unwrap();
    assert_eq!(ups.iter().map(|u| (u.skill, u.lvup)).collect::<Vec<_>>(), vec![(2, 1)]);
    assert!(skill_level_ups(&vec![None], &vec![]).is_none());
}

#[test]
fn enhancement_trials_of_a_character() {
    let trials = vec![
        row(&[("character_id", "100"), ("root_id", "1"), ("root_stage_id", "11"), ("stage_id", "111")]),
        row(&[("character_id", "101"), ("root_id", "2"), ("root_stage_id", "22"), ("stage_id", "222")]),
    ];
    let r = character_enhance_info(&trials, &CharacterEnhanceInfoRequest { character_id: 100 }, 77);
    assert_eq!(r.trial_timestamp, 77);
    assert_eq!(r.progress.len(), 1);
    assert_eq!((r.progress[0].root_id, r.progress[0].root_stage_id, r.progress[0].stage_id, r.progress[0].money), (1, 11, 111, 1000));
    assert_eq!(r.progress[0].parameter.hp, 100);
    let boards = vec![row(&[("chara_id", "100"), ("board_id", "5")]), row(&[("chara_id", "101"), ("board_id", "6")])];
    let stages = vec![row(&[("board_id", "6"), ("stage_id", "60")]), row(&[("board_id", "5"), ("stage_id", "50")])];
    let b = character_piece_board_info(&boards, &stages, &CharacterPieceBoardInfoRequest { character_id: 100 });
    assert_eq!(b.board_info.iter().map(|i| (i.board_id, i.stage_id)).collect::<Vec<_>>(), vec![(5, 0)]);
    assert!(b.reward_ids.is_empty());
}

#[test]
fn story_list_numbers_every_story() {
    let names = story_masters();
    assert_eq!(names.len(), 7);
    assert_eq!(names[2].0, "story_etc");
    assert_eq!(names[2].1.code(), 6);
    let tables = vec![
        (StoryType::Main, vec![row(&[("id", "100101")]), row(&[("id", "100102")])]),
        (StoryType::Member, vec![row(&[("id", "300102")])]),
    ];
    let r = story_list(&tables);
    assert_eq!(r.story_list.iter().map(|s| (s.user_story_id, s.story_type.code(), s.story_id)).collect::<Vec<_>>(), vec![(0, 1, 100101), (1, 1, 100102), (2, 2, 300102)]);
    assert_eq!(r.story_list[0].status.code(), 2);
    assert_eq!(r.story_list[0].selections.len(), 1);
}

#[test]
fn expedition_characters_carry_affinity() {
    let levels = LevelCalculator::new(vec![10]);
    let r = expedition_character(&vec![(101, 15)], &levels);
    assert_eq!((r.characters[0].id, r.characters[0].character_id, r.characters[0].rank, r.characters[0].rank_progress), (101, 101, 2, 15));
    let top = expedition_top();
    assert_eq!(top.expeditions.iter().map(|e| (e.expedition_id, e.status)).collect::<Vec<_>>(), vec![(4, 2), (1, 1), (2, 3)]);
    assert_eq!(expedition_set(&ExpeditionSetRequest { expedition_id: 0, user_character_id: 0 }).money, -100000);
}

#[test]
fn missions_list_regular_then_event() {
    let missions = vec![row(&[("mission_id", "1"), ("mission_type", "DAILY")]), row(&[("mission_id", "2"), ("mission_type", "BEGINNER")])];
    let events: Vec<MasterRow> = (0..150).map(|i| row(&[("mission_id", &format!("{}", 1000 + i)), ("mission_type", "EVENT")])).collect();
    let r = mission_list(&missions, &events);
    assert_eq!(r.missions.len(), 102);
    assert_eq!((r.missions[0].mission_id, r.missions[0].kind), (1, 2));
    assert_eq!((r.missions[1].mission_id, r.missions[1].kind), (2, 1));
    assert_eq!((r.missions[101].mission_id, r.missions[101].kind, r.missions[101].is_challenge), (1099, 3, 1));
}

#[test]
fn panel_missions_of_a_group() {
    let groups = vec![row(&[("panel_group_id", "3")])];
    let l = panel_mission_list(&groups);
    assert_eq!(l.panel_missions[0].panel_group_id, 3);
    assert!(l.panel_missions[0].is_new);
    let missions = vec![row(&[("panel_group_id", "3"), ("mission_id", "31")]), row(&[("panel_group_id", "4"), ("mission_id", "41")])];
    let p = panel_mission(&missions, &PanelMissionRequest { panel_group_id: 3 });
    assert_eq!(p.missions.iter().map(|m| (m.mission_id, m.max_progress)).collect::<Vec<_>>(), vec![(31, 100)]);
    assert_eq!(p.complete_reward.goods_id[0].item_num, 100);
}

#[test]
fn hunting_and_main_quest_lists() {
    let areas = vec![row(&[("type", "LIMITED"), ("area_id", "1")]), row(&[("type", "FREE"), ("area_id", "2")]), row(&[("type", "EVENT")])];
    let h = quest_hunting_list(&areas);
    assert_eq!(h.limitquests.iter().map(|q| (q.area_id, q.limit)).collect::<Vec<_>>(), vec![(1, 1)]);
    assert_eq!(h.freequests.iter().map(|q| q.area_id).collect::<Vec<_>>(), vec![2]);
    let stages = vec![row(&[("id", "10"), ("area_id", "1"), ("stage_id", "7")]), row(&[("id", "20"), ("area_id", "2"), ("stage_id", "8")])];
    let s = quest_hunting_stage_list(&stages, &QuestHuntingStageListRequest { area_id: 2 });
    assert_eq!(s.quests.iter().map(|q| (q.stage_id, q.status)).collect::<Vec<_>>(), vec![(20, 2)]);
    let l = quest_hunting_limit_stage_list(&stages);
    assert_eq!(l.quests.iter().map(|q| (q.stage_id, q.challenge_count)).collect::<Vec<_>>(), vec![(7, 42), (8, 42)]);
    let parts = quest_main_part_list(&vec![row(&[("part", "1")])]);
    assert_eq!((parts.quests[0].quest_part_id, parts.quests[0].status), (1, 3));
    let a = quest_main_area_list(&vec![row(&[("id", "5")])], 9);
    assert_eq!(a.custom.expert_area_list[0].quest_area_master_id, 5);
    assert_eq!((a.notifications[0].kind, a.notifications[0].key), (7, 20));
    let ms = vec![row(&[("area_id", "5"), ("stage_id", "51"), ("mode", "2")])];
    let m = quest_main_stage_list(&ms, &QuestMainStageListRequest { area_id: 5 });
    assert_eq!((m.quests[0].quest_stage_id, m.quests[0].difficulty), (51, 2));
    let old = axel::api::quest_main::quest_main_stage_list(&ms, &axel::api::quest_main::QuestMainStageListRequest { area_id: 5 });
    assert!(old.quests.is_empty());
    assert_eq!(battle_skip(&BattleSkipRequest { skip: vec![], splitcount: 0, max_splitcount: 0 }).reward[0].itemnum, 5000);
}

#[test]
fn fixed_fame_result() {
    let r = fame_quest_result(&FameQuestResultRequest { party_no: 1, win: 0, clear_mission_list: vec![0, 0, 0], stage_id: 710011 });
    assert_eq!(r.love.iter().map(|l| l.character_id).collect::<Vec<_>>(), vec![100, 101, 106]);
    assert_eq!(r.mission_reward.len(), 5);
    assert_eq!(r.clear_reward[2].itemnum, 50);
    assert_eq!(r.lvlup, 0);
}

#[test]
fn arena_party_from_rows() {
    let rows: Vec<PartyFormRow> = (1..=5)
        .map(|i| PartyFormRow {
            party_id: 2,
            name: "Kazumin".to_string(),
            form_id: i,
            main_member_id: 10 + i,
            sub1_member_id: 0,
            sub2_member_id: 0,
            weapon_id: 0,
            accessory_id: 0,
            special_skill_id: 100001,
        })
        .collect();
    let party = score_challenge_party(&rows, &ScoreChallengeStartRequest { is_practice: false, quest_id: 1, party_id: 2 });
    assert_eq!(party.party_forms[0].strength, 123);
    assert_eq!(party_main_members(&party), vec![11, 12, 13, 14, 15]);
    assert_eq!(member_form(&party, 13), Some(2));
    assert_eq!(member_form(&party, 99), None);
    let s = score_challenge_start(&party, vec![]);
    assert_eq!(s.party.party_forms[4].main, 15);
}
