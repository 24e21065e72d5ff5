use axel::api::account::{requested_username, SetNameError};
use axel::api::ad_reward::{advertisement_reward_status, buy, shop_item_list, BuyRequest, ShopItemListRequest};
use axel::api::assist::assist_make_list;
use axel::api::battle::{battle_retire, battle_wave_result};
use axel::api::battle_arena::{
    score_challenge_info, score_challenge_mission, score_challenge_mission_list, score_challenge_ranking, score_challenge_result,
    ScoreChallengeRankingRequest, ScoreChallengeResultRequest,
};
use axel::api::battle_multi::{
    marathon_multi_battling, marathon_multi_result_confirm, multi_battle_create_room, multi_battle_room_status,
    MarathonMultiBattlingRequest, MarathonMultiResultConfirmRequest, MultiBattleCreateRoomRequest, MultiBattleRoomStatusRequest,
};
use axel::api::dungeon::dungeon_status;
use axel::api::gacha::{gacha_chain, gacha_log, GachaChainRequest};
use axel::api::idlink_confirm_google::idlink_confirm_google;
use axel::api::interaction::{parse_date, try_parse_date};
use axel::api::items::{accessory_list, weapon_list};
use axel::api::maintenance_check::maintenance_check;
use axel::api::mission::{battle_marathon_info, battle_quest_info, marathon_boss_list, marathon_info, marathon_stage_list};
use axel::api::notice::notice;
use axel::api::party::{party_change_list, party_form_columns, party_members, PartyFormInfoRequestDto, SpecialSkillInfoRequestDto};
use axel::api::present::{present_get, present_list, present_log_list};
use axel::api::shop::{purchase_google_charge_status, purchase_google_limited_products_status, PurchaseGoogleChargeStatusRequest};
use axel::api::story::story_reward;
use axel::api::story_reward::route;
use axel::api::surprise::{
    surprise_mini_event_select, surprise_mini_event_top, surprise_quest_result, surprise_short_event, surprise_story_result,
    surprise_story_start, SurpriseMiniEventTopRequest, SurpriseShortEventRequest, SurpriseStoryResultRequest,
};
use axel::api::transfer::{id_confirm, id_login, new_id, new_id_check, prepare_set_migration, IdConfirmRequest, IdLoginRequest, NewIdRequest, PrepareSetMigrationRequest};
use axel::master::MasterRow;
use base64::Engine;
use std::io::Write;

fn row(fields: &[(&str, &str)]) -> MasterRow {
    MasterRow { fields: fields.iter().map(|(k, v)| (k.to_string(), v.to_string())).collect() }
}

#[test]
fn marathon_stages_of_the_event_only() {
    let rows = vec![
        row(&[("id", "514011"), ("event_id", "24013")]),
        row(&[("id", "514012"), ("event_id", "24013")]),
        row(&[("id", "520001"), ("event_id", "24014")]),
    ];
    let r = marathon_stage_list(&rows, 24013);
    assert_eq!(r.quests.iter().map(|q| (q.quest_id, q.status, q.task1, q.hardnum)).collect::<Vec<_>>(), vec![(514011, 3, 0, 0), (514012, 3, 0, 0)]);
    assert!(marathon_stage_list(&rows, 1).quests.is_empty());
}

#[test]
fn marathon_bosses_are_defeated_with_fixed_hit_points() {
    let rows = vec![row(&[("id", "7"), ("event_id", "2")]), row(&[("id", "8"), ("event_id", "3")])];
    let r = marathon_boss_list(&rows, 3);
    assert_eq!(r.bosses.len(), 1);
    let b = &r.bosses[0];
    assert_eq!((b.quest_id, b.hp1, b.hp2, b.hp3, b.status, b.kill), (8, 10, 20, 30, 2, 0));
}

#[test]
fn marathon_screens_are_fixed() {
    let q = battle_quest_info();
    assert_eq!((q.ticket, q.opflag, q.boss.quest_id, q.boss.status), (0, 0, 0, 0));
    let m = battle_marathon_info();
    assert_eq!(m.total_boss_info.total_defeat_count, 0);
    assert!(!m.total_boss_info.in_ranking_period);
    let i = marathon_info();
    assert_eq!(i.multi_battle_invitation.room_name, "Sosal");
    assert_eq!((i.boss, i.total_boss_info.total_defeat_count, i.total_boss_info.my_defeat_count, i.total_boss_info.ranking), (1, 30, 4, 3));
    assert!(i.open_scorechallenge);
    assert_eq!(i.emergency_boss_info.status, 1);
}

#[test]
fn advertisement_rewards_are_unwatched() {
    let rows = vec![row(&[("id", "1"), ("reward_type", "3")]), row(&[("id", "2"), ("reward_type", "5")])];
    let r = advertisement_reward_status(&rows);
    assert_eq!(r.advertisement_data_list.iter().map(|d| (d.id, d.reward_type, d.status)).collect::<Vec<_>>(), vec![(1, 3, 0), (2, 5, 0)]);
}

#[test]
fn shop_lists_the_items_of_its_shop() {
    let rows = vec![
        row(&[("id", "100"), ("shop_id", "1")]),
        row(&[("id", "200"), ("shop_id", "2")]),
        row(&[("id", "101"), ("shop_id", "1")]),
    ];
    let r = shop_item_list(&rows, &ShopItemListRequest { shop_master_id: 1 });
    assert_eq!(r.items.iter().map(|i| (i.shop_item_master_id, i.buycount, i.interval_time)).collect::<Vec<_>>(), vec![(100, 0, 0), (101, 0, 0)]);
    let b = buy(&BuyRequest { money_type: 1, count: 3, shop_item_master_id: 100 });
    assert_eq!((b.buymoney, b.money, b.realmoney, b.realmoneyfree), (0, 0, 0, 0));
}

#[test]
fn equipment_lists_use_the_detail_ids() {
    let rows = vec![row(&[("item_id_details", "1010001")]), row(&[("item_id_details", "1010002")])];
    let w = weapon_list(&rows);
    assert_eq!(w.items.iter().map(|i| (i.id, i.weapon_id, i.islock, i.trial)).collect::<Vec<_>>(), vec![(1010001, 1010001, false, false), (1010002, 1010002, false, false)]);
    let a = accessory_list(&rows[..1].to_vec());
    assert_eq!(a.items.iter().map(|i| (i.id, i.accessory_id, i.islock)).collect::<Vec<_>>(), vec![(1010001, 1010001, false)]);
}

#[test]
fn requested_names_decode_from_base64() {
    assert_eq!(requested_username("S2F6dW1h"), Ok("Kazuma".to_string()));
    assert_eq!(requested_username("S2F6dW1h!"), Err(SetNameError::NotBase64));
    assert_eq!(requested_username("/w"), Err(SetNameError::NotUtf8));
}

#[test]
fn presents_are_dated_from_the_clock() {
    let now = 1_700_000_000;
    let p = present_list(now);
    assert_eq!(p.custom.presents.len(), 1);
    let g = &p.custom.presents[0];
    assert_eq!((g.id, g.present_id, g.item_type, g.item_id, g.item_num), (28231780, 48, 2, 1, 10000));
    assert_eq!((g.senddate, g.expireddate), (now - 86400, now + 3 * 86400));
    assert_eq!(g.msg, "skebob");
    assert_eq!(p.notifications.iter().map(|n| (n.kind, n.key, n.value)).collect::<Vec<_>>(), vec![(7, 2, 6)]);
    let l = present_log_list(now);
    assert_eq!(l.custom.presents[0].recveddate, now - 300);
    let t = present_get(now);
    assert_eq!(t.custom.presents[0].expireddate, now + 7 * 86400);
    assert_eq!((t.custom.unrecvpresents[0].item_type, t.custom.unrecvpresents[0].item_num), (9, 500));
    assert_eq!(t.notifications.len(), 6);
    assert_eq!(t.notifications[2].msgkey, "show_button_new");
}

#[test]
fn transfer_answers_are_fixed() {
    let c = id_confirm(&IdConfirmRequest { take_over_id: "A".to_string(), password: "B".to_string() });
    assert_eq!((c.name.as_str(), c.lv, c.user_no.as_str()), ("Mock User", 333, "-1"));
    let m = prepare_set_migration(&PrepareSetMigrationRequest { uuid: "u".to_string() });
    assert_eq!(m.user_key, "ffffffffffffffffffffffffffffffee");
    assert_eq!(new_id_check().check, 0);
    assert_eq!(new_id(&NewIdRequest { newpassword: "p".to_string() }).take_over_id, "MTF00LTL");
    let l = id_login(&IdLoginRequest { take_over_id: "A".to_string(), password: "B".to_string(), uuid: "u".to_string() });
    assert_eq!((l.user_key.as_str(), l.rule_ver.as_str(), l.capture.as_str(), l.user_no.as_str()), ("ffffffffffffffffffffffffffffffee", "3", "", "-1"));
}

#[test]
fn small_screens_are_fixed() {
    let n = notice();
    assert_eq!(n.status, 1);
    assert_eq!(n.custom.answer_alarm, "fail");
    assert!(n.custom.text_english.is_none());
    let m = maintenance_check();
    assert_eq!(m.typestatus, 0);
    assert!(m.system_id.is_none());
    assert!(!idlink_confirm_google().islink);
    assert!(assist_make_list().assist_detail_id_list.is_empty());
    assert!(route().reward.is_empty());
    assert!(story_reward().reward.is_empty());
    assert!(purchase_google_limited_products_status().product_list.is_empty());
    assert_eq!(purchase_google_charge_status(&PurchaseGoogleChargeStatusRequest { product_id: "x".to_string() }).charge_total, 2112);
    assert_eq!(dungeon_status().custom.area_id, 0);
    assert!(party_members().members.is_empty());
    let c = party_change_list();
    assert!(c.members.is_empty() && c.weapons.is_empty() && c.accessories.is_empty() && c.assists.is_empty());
}

#[test]
fn battle_waves_drop_the_same_chest() {
    let w = battle_wave_result();
    assert_eq!((w.status, w.custom.chest), (0, 10101120));
    assert!(w.time.is_some() && w.remote.is_empty());
    let r = battle_retire();
    assert_eq!(r.status, 0);
    assert!(r.time.is_some());
}

#[test]
fn party_update_is_split_into_columns() {
    let form = |no: i32, main: i64, skill: i64| PartyFormInfoRequestDto {
        form_no: no,
        main,
        sub1: main + 1,
        sub2: 0,
        weapon: 7,
        acc: 8,
        special_skill: SpecialSkillInfoRequestDto { special_skill_id: skill, trial: false },
        skill_pa_fame: 0,
    };
    let c = party_form_columns(&vec![form(1, 11, 100001), form(2, 12, 101001)]);
    assert_eq!(c.form_ids, vec![1, 2]);
    assert_eq!(c.main_member_ids, vec![11, 12]);
    assert_eq!(c.sub1_member_ids, vec![12, 13]);
    assert_eq!(c.sub2_member_ids, vec![0, 0]);
    assert_eq!(c.weapon_ids, vec![7, 7]);
    assert_eq!(c.accessory_ids, vec![8, 8]);
    assert_eq!(c.special_skill_ids, vec![100001, 101001]);
}

#[test]
fn surprise_events_list_the_master() {
    let events = vec![row(&[("id", "3")]), row(&[("id", "4")])];
    let s = surprise_mini_event_select(&events);
    assert_eq!(s.select_list.iter().map(|e| (e.user_stock_id, e.surprise_event_id, e.expired_date)).collect::<Vec<_>>(), vec![(42, 3, 0), (42, 4, 0)]);
    let t = surprise_mini_event_top(&SurpriseMiniEventTopRequest { surprise_event_id: 3, user_stock_id: 42 });
    assert_eq!((t.best_score, t.expired_date), (2112, 0));
    let q = surprise_quest_result();
    assert_eq!((q.reward[0].item_type, q.reward[0].item_num, q.reward[0].is_rare), (2, 1_042_000, 1));
    assert_eq!((q.previous_best_score, q.best_score), (2112, 4242));
    let st = surprise_story_result(&SurpriseStoryResultRequest { surprise_story_id: 1, surprise_event_id: 3, user_stock_id: 42 });
    assert_eq!((st.reward[0].item_type, st.reward[0].num), (2, 520_000));
    assert_eq!(surprise_story_start(&events).result_id_list, vec![3, 4]);
}

#[test]
fn short_surprise_takes_the_first_matching_event() {
    let shorts = vec![
        row(&[("surprise_event_id", "1"), ("surprise_short_id", "10")]),
        row(&[("surprise_event_id", "2"), ("surprise_short_id", "20")]),
        row(&[("surprise_event_id", "2"), ("surprise_short_id", "21")]),
    ];
    let r = surprise_short_event(&shorts, &SurpriseShortEventRequest { surprise_event_id: 2, user_stock_id: 0 });
    assert_eq!((r.surprise_short_id, r.result.result_pattern_id), (20, 8));
}

#[test]
fn gacha_history_is_fixed() {
    let r = gacha_log();
    assert_eq!(r.time, Some(1723059245));
    assert_eq!(r.custom.goods.len(), 25);
    let first = &r.custom.goods[0];
    assert_eq!((first.itemtype, first.itemid, first.itemnum, first.gachaid), (4, 1063113, 1, 100002));
    assert_eq!(first.time, "2024-08-05 15:03:20");
    let last = &r.custom.goods[24];
    assert_eq!((last.itemid, last.gachaid), (1013116, 410535));
    assert_eq!(last.time, "2024-08-07 19:31:30");
}

#[test]
fn chain_draws_are_normal_draws() {
    let rows = vec![row(&[("id", "1"), ("rare", "3")]), row(&[("id", "2"), ("rare", "1")]), row(&[("id", "3"), ("rare", "2")])];
    let r = gacha_chain(&rows, &GachaChainRequest { gacha_id: 9, money_type: 1 }, 1).unwrap();
    assert_eq!(r.custom.gacha_id, 9);
    let mut ids: Vec<i64> = r.custom.goods.iter().map(|g| g.itemid).collect();
    ids.sort();
    assert_eq!(ids, vec![1, 3]);
    assert_eq!(r.remote.len(), 10);
}

#[test]
fn arena_screens_are_fixed() {
    let i = score_challenge_info();
    assert_eq!((i.challengenum, i.totalscore, i.rank), (3, 35000, 42));
    let r = score_challenge_ranking(&ScoreChallengeRankingRequest { mode: 2, ranking: 0 });
    assert_eq!((r.ranking[0].scoremode, r.ranking[0].rank, r.ranking[0].name.as_str()), (2, 3, "Megumin"));
    let res = score_challenge_result(&ScoreChallengeResultRequest { quest_id: 1, memcheckcount: 0, score: 5, party_no: 1, seed: 3, original_score: 6 });
    assert_eq!(res.totalrewardids, vec![101, 100208]);
    assert_eq!((res.reward[0].itemtype, res.reward[0].itemnum), (2, 42000));
    assert!(score_challenge_mission().best_score_info.is_empty());
    assert!(score_challenge_mission_list().scorechallenge_mission_list.is_empty());
}

#[test]
fn multi_battles_use_stand_in_players() {
    let room = multi_battle_create_room(&MultiBattleCreateRoomRequest { party_id: 1, quest_id: 2 });
    assert_eq!(room.room_no, 1);
    assert_eq!(room.read_only_token, "stub_token");
    let status = multi_battle_room_status(&MultiBattleRoomStatusRequest { read_only_token: "t".to_string(), room_no: 1 });
    assert_eq!(status.members.iter().map(|m| m.name.as_str()).collect::<Vec<_>>(), vec!["Megumin", "Aqua", "Kazuma", "Darkness"]);
    assert_eq!(status.room_status, 2);
    let b = marathon_multi_battling(&MarathonMultiBattlingRequest {
        damage: 777,
        battle_id: 99,
        battletime: 3,
        read_only_token: "t".to_string(),
        stamp: 0,
        event_id: 1,
        party_hp: 10,
        attack_type: 2,
        room_id: 1,
    });
    assert_eq!((b.user_host[0].damage, b.user_host[0].attack_type, b.user_host[1].damage), (777, 2, 1234));
    assert_eq!(b.battle_id, 99);
    assert_eq!(b.enemy, vec![17800029, 17800029]);
    let c = marathon_multi_result_confirm(&MarathonMultiResultConfirmRequest { battle_id: 99, win: 1, room_id: 1, event_id: 1 });
    assert_eq!((c.battle_status, c.confirmed_user), (1, 1));
}

#[test]
fn master_dates_read_with_or_without_seconds() {
    assert_eq!(parse_date("2024/08/05 15:03:20"), Some(1722870200));
    assert_eq!(parse_date("2024/08/05 15:03"), Some(1722870180));
    assert_eq!(parse_date("0"), None);
    assert_eq!(try_parse_date("0"), Some(None));
    assert_eq!(try_parse_date("2024/08/05 15:03"), Some(Some(1722870180)));
    assert_eq!(try_parse_date("yesterday"), None);
}

#[test]
fn captures_decode_to_their_settings() {
    let json = br#"{"tutoriaDataJson":"t","userLocalSettingsJson":"u"}"#;
    let mut enc = flate2::write::GzEncoder::new(Vec::new(), flate2::Compression::default());
    enc.write_all(json).unwrap();
    let zipped = enc.finish().unwrap();
    let serialized = base64::prelude::BASE64_STANDARD.encode(&zipped);
    assert_eq!(axel::api::capture::capture_payload(serialized.as_bytes()), Some(json.to_vec()));
    assert_eq!(axel::api::capture::capture_payload(b"!!"), None);
    let plain = base64::prelude::BASE64_STANDARD.encode(b"not gzip");
    assert_eq!(axel::api::capture::capture_payload(plain.as_bytes()), None);
    let outer = base64::prelude::BASE64_STANDARD_NO_PAD.encode(b"{\"version\":\"1\"}");
    assert_eq!(axel::api::capture::capture_request_bytes(outer.as_bytes()), Some(b"{\"version\":\"1\"}".to_vec()));
}
