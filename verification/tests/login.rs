use axel::api::login::{login_info, login_notifications, login_response, server_version, TutorialState};
use axel::api::{CharacterParameter, MemberParameter, NotificationData, RemoteDataItemType};
use axel::blob::{
    get_login_remote_data, login_base, CharacterSkillRow, EquipmentRow, ItemRow, LoginData, WeaponDetail,
};
use axel::build_info::BuildInfo;
use axel::level::LevelCalculator;

use base64::Engine;

#[test]
fn login_answer() {
    let key: Vec<u8> = (0u8..16).collect();
    let info = login_info(42, &key, &Some("Kazuma".to_string()), 99, 1722870200).unwrap();
    assert_eq!(info.created_at, "2024-08-05 15:03:20");
    assert_eq!(info.tutorial, 99);
    assert_eq!(info.user_no, "42");
    assert_eq!(info.user_key, "000102030405060708090a0b0c0d0e0f");
    assert_eq!(info.user_name, base64::prelude::BASE64_STANDARD_NO_PAD.encode("Kazuma"));
    let anonymous = login_info(-7, &key, &None, 0, 0).unwrap();
    assert_eq!(anonymous.created_at, "1970-01-01 00:00:00");
    assert!(login_info(1, &key, &None, 0, i64::MAX).is_none());
    assert_eq!(anonymous.user_no, "-7");
    assert_eq!(anonymous.user_name, "LS0t");
}

#[test]
fn login_notifications_list() {
    let n = login_notifications();
    assert_eq!(n.len(), 68);
    assert_eq!((n[0].cmd, n[0].kind, n[0].key, n[0].value), (1, 7, 6, 0));
    assert!(n.iter().any(|x| x.tag == "50081"));
    let greeting = NotificationData::new(1, 20, 0, 0, "axel/01234567".to_string(), String::new());
    let r = login_response(login_info(1, &[0; 16], &None, 0, 0).unwrap(), vec![], greeting.clone(), "session", 3);
    assert_eq!(r.signing_session, Some("session"));
    assert_eq!(r.response.notifications.len(), 69);
    assert_eq!(r.response.notifications[68], greeting);
    assert_eq!(r.response.status, 0);
}

#[test]
fn version_text() {
    let dev = BuildInfo { git_hash: "0123456789abcdef".to_string(), git_dirty: true, profile: "debug".to_string() };
    assert_eq!(server_version(&dev), "axel/01234567-dirty (development build)");
    let rel = BuildInfo { git_hash: "abc".to_string(), git_dirty: false, profile: "release".to_string() };
    assert_eq!(server_version(&rel), "axel/abc");
}

#[test]
fn tutorial_codes() {
    assert_eq!(TutorialState::Completed.code(), 99);
    assert!(matches!(TutorialState::of_code(4), Some(TutorialState::SetName)));
    assert!(TutorialState::of_code(3).is_none());
}

#[test]
fn levels_from_thresholds() {
    let levels = LevelCalculator::new(vec![10, 30, 60]);
    assert_eq!(levels.get_level(0), 1);
    assert_eq!(levels.get_level(10), 2);
    assert_eq!(levels.get_level(59), 3);
    assert_eq!(levels.get_level(1000), 4);
}

fn member(id: i32) -> MemberParameter {
    let mut m: MemberParameter = plain_member(id);
    m.member_id = 1001100 + id as i64;
    m
}

fn plain_member(id: i32) -> MemberParameter {
    MemberParameter {
        id,
        lv: 1,
        exp: 0,
        member_id: 0,
        ac_skill_id_a: 0,
        ac_skill_lv_a: 1,
        ac_skill_val_a: 0,
        ac_skill_id_b: 0,
        ac_skill_lv_b: 1,
        ac_skill_val_b: 0,
        ac_skill_id_c: 0,
        ac_skill_lv_c: 1,
        ac_skill_val_c: 0,
        hp: 1,
        magicattack: 1,
        defense: 1,
        magicdefence: 1,
        agility: 1,
        dexterity: 1,
        luck: 1,
        limit_break: 0,
        character_id: 100,
        passiveskill: 0,
        specialattack: 0,
        resist_state: 0,
        resist_attr: 0,
        attack: 1,
        waiting_room: 0,
        main_strength: 0,
        main_strength_for_fame_quest: 0,
        sub_strength: 0,
        sub_strength_for_fame_quest: 0,
        sub_strength_bonus: 0,
        sub_strength_bonus_for_fame_quest: 0,
        fame_hp_rank: 0,
        fame_attack_rank: 0,
        fame_defense_rank: 0,
        fame_magicattack_rank: 0,
        fame_magicdefence_rank: 0,
        skill_pa_fame_list: vec![],
    }
}

#[test]
fn login_remote_data_parts_in_order() {
    let base = login_base().len();
    assert_eq!(base, 31);
    let data = LoginData {
        members: vec![member(1), member(2)],
        reserve_members: vec![member(3)],
        characters: vec![
            CharacterSkillRow { character_id: 100, intimacy: 12, skill_id: Some(100001), skill_level: Some(2) },
            CharacterSkillRow { character_id: 101, intimacy: 0, skill_id: None, skill_level: None },
            CharacterSkillRow { character_id: 100, intimacy: 99, skill_id: Some(100002), skill_level: Some(1) },
        ],
        skill_groups: vec![(100001, 10000), (100002, 10001)],
        costume_ids: vec![5, 6],
        background_ids: vec![9],
        items: vec![ItemRow { item_type: 15, item_id: 1100, quantity: 3 }],
        weapon_details: vec![WeaponDetail { item_id: 7, lv: 1, item_id_details: 70 }, WeaponDetail { item_id: 8, lv: 2, item_id_details: 82 }],
        equipment: vec![
            EquipmentRow { id: 3, item_type: 5, item_id: 7, level: 1, is_locked: true },
            EquipmentRow { id: 4, item_type: 6, item_id: 8, level: 2, is_locked: false },
        ],
    };
    let r = get_login_remote_data(data, &LevelCalculator::new(vec![10, 20]));
    assert_eq!(r.len(), base + 2 + 1 + 2 + 2 + 1 + 1 + 2);
    assert_eq!(r[0].cmd, 3);
    assert_eq!(r[base].tag, "front");
    assert_eq!(r[base + 2].tag, "back");
    let character: &CharacterParameter = r[base + 3].character_parameter.as_ref().unwrap();
    assert_eq!((character.character_id, character.rank, character.rank_progress), (100, 12, 2));
    assert_eq!(character.sp_skill.len(), 2);
    assert_eq!(character.sp_skill[1].group_id, 10001);
    assert_eq!(r[base + 5].item_id, 5);
    assert_eq!(r[base + 6].uniqid, 1);
    assert_eq!(r[base + 7].item_type, 24);
    assert_eq!(r[base + 8].item_type, RemoteDataItemType::MaterialWA.code());
    let weapon = &r[base + 9];
    assert_eq!((weapon.cmd, weapon.item_type, weapon.item_id, weapon.uniqid), (1, 5, 70, 3));
    assert_eq!(weapon.tag, "lock:1");
    let accessory = &r[base + 10];
    assert_eq!((accessory.cmd, accessory.item_type, accessory.item_id, accessory.uniqid), (1, 6, 82, 4));
    assert_eq!(accessory.tag, "");
    assert_eq!(RemoteDataItemType::of_code(6), RemoteDataItemType::Accessory);
}
