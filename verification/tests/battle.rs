use axel::api::battle::{battle_result_response, make_battle_start};
use axel::api::battle_multi::{marathon_multi_result, marathon_multi_start};
use axel::api::party_info::{party_from_rows, party_info, Party, PartyForm, PartyFormRow};
use axel::api::quest_hunting::{
    battle_hunting_result_response, battle_love, battle_members, extract_items, quest_rewards, find_reward_row, party_characters_of, scale_items,
    HuntingRewardItem,
};
use axel::api::surprise::surprise_quest_start;
use axel::master::MasterRow;

fn row(fields: &[(&str, &str)]) -> MasterRow {
    MasterRow { fields: fields.iter().map(|(k, v)| (k.to_string(), v.to_string())).collect() }
}

fn form_row(party_id: i64, form_id: i64, main: i64) -> PartyFormRow {
    PartyFormRow {
        party_id,
        name: format!("P{party_id}"),
        form_id,
        main_member_id: main,
        sub1_member_id: 0,
        sub2_member_id: 0,
        weapon_id: 7,
        accessory_id: 8,
        special_skill_id: 100001,
    }
}

fn forms() -> [PartyForm; 5] {
    let mut f = [
        PartyForm::new(1, 1, 1, 11),
        PartyForm::new(2, 2, 1, 12),
        PartyForm::new(3, 3, 1, 0),
        PartyForm::new(4, 4, 1, 0),
        PartyForm::new(5, 5, 1, 0),
    ];
    f[0].sub1 = 13;
    f
}

#[test]
fn party_form_defaults() {
    let form = PartyForm::new(3, 4, 2, 11);
    assert_eq!(form.name, "Party2");
    assert_eq!(form.strength, 1);
    assert_eq!(form.specialskill.special_skill_id, 100001);
    let party = Party::new(forms(), 1);
    assert_eq!(party.power(10), 5 + 40);
}

#[test]
fn party_info_groups_rows_by_party() {
    let mut rows = Vec::new();
    for p in 1..=2 {
        for f in 1..=5 {
            rows.push(form_row(p, f, p * 10 + f));
        }
    }
    let wire = party_info(&rows, vec![]);
    assert_eq!(wire.party.len(), 2);
    assert_eq!(wire.party[1].party_no, 2);
    assert_eq!(wire.party[1].party_forms[2].main, 23);
    assert_eq!(wire.party[0].party_forms[4].strength, 12300);
    assert_eq!(wire.party[0].party_forms[0].name, "P1");
}

#[test]
fn battle_party_from_rows() {
    let rows: Vec<PartyFormRow> = (1..=5).map(|f| form_row(3, f, f)).collect();
    let party = party_from_rows(&rows, 3, 123, Some(100001));
    let start = make_battle_start(&party, vec![], 77);
    assert_eq!(start.custom.chest, "10101111,10101120,10101131");
    assert_eq!(start.custom.party.party_forms[4].main, 5);
    assert_eq!(start.notifications.len(), 1);
    assert_eq!(start.time, Some(77));
}

#[test]
fn reward_row_is_the_last_with_the_id() {
    let rows = vec![row(&[("id", "1")]), row(&[("id", "2")]), row(&[("id", "1"), ("x", "y")])];
    assert_eq!(find_reward_row(&rows, 1), Some(2));
    assert_eq!(find_reward_row(&rows, 2), Some(1));
    assert_eq!(find_reward_row(&rows, 3), None);
}

#[test]
fn reward_items_in_number_order() {
    let r = row(&[
        ("id", "5"),
        ("item_type2", "16"),
        ("item_id2", "151"),
        ("item_num2", "2"),
        ("item_rare2", "1"),
        ("item_type1", "15"),
        ("item_id1", "1100"),
        ("item_num1", "3"),
        ("item_rare1", "0"),
        ("item_type10", "0"),
        ("item_id10", "9"),
        ("item_num10", "9"),
        ("item_rare10", "0"),
    ]);
    let items = extract_items(&r);
    assert_eq!(
        items,
        vec![
            HuntingRewardItem { item_type: 15, item_id: 1100, item_num: 3, item_rare: false },
            HuntingRewardItem { item_type: 16, item_id: 151, item_num: 2, item_rare: true },
        ]
    );
    let scaled = scale_items(items, 20);
    assert_eq!(scaled[0].item_num, 60);
    assert_eq!(scaled[1].item_num, 40);
}

#[test]
fn quest_rewards_are_twenty_of_each_item_of_the_last_row_with_the_id() {
    let rows = vec![
        row(&[("id", "5"), ("item_type1", "15"), ("item_id1", "1100"), ("item_num1", "9"), ("item_rare1", "0")]),
        row(&[("id", "5"), ("item_type1", "15"), ("item_id1", "1100"), ("item_num1", "3"), ("item_rare1", "1")]),
        row(&[("id", "6"), ("item_type1", "15"), ("item_id1", "1"), ("item_num1", "200000000"), ("item_rare1", "0")]),
    ];
    assert_eq!(
        quest_rewards(&rows, 5),
        Some(vec![HuntingRewardItem { item_type: 15, item_id: 1100, item_num: 60, item_rare: true }])
    );
    assert_eq!(quest_rewards(&rows, 7), None);
    assert_eq!(quest_rewards(&rows, 6), None);
}

#[test]
fn battle_members_are_mains_and_subs() {
    assert_eq!(battle_members(&forms()), vec![11, 13, 12]);
}

#[test]
fn love_is_per_character_of_the_party() {
    let members = vec![(11, 100), (12, 101), (13, 106), (99, 200)];
    let characters = party_characters_of(&forms(), &members);
    assert_eq!(characters, vec![100, 106, 101]);
    let rows = vec![(100, 5), (200, 1), (101, 7), (100, 9)];
    let mut love: Vec<(i64, i32)> = battle_love(&rows, &characters).iter().map(|l| (l.character_id, l.love)).collect();
    love.sort();
    assert_eq!(love, vec![(100, 19), (101, 17)]);
}

#[test]
fn hunting_result_response() {
    let members = vec![(11, 100), (12, 101)];
    let reward_rows = vec![
        row(&[("id", "7"), ("item_type1", "15"), ("item_id1", "1"), ("item_num1", "1"), ("item_rare1", "0")]),
        row(&[("id", "8"), ("item_type1", "15"), ("item_id1", "1"), ("item_num1", "2"), ("item_rare1", "0")]),
    ];
    let r = battle_hunting_result_response(&forms(), &members, &vec![(100, 1)], &reward_rows, 8, vec![1, 0], vec![], 5);
    assert_eq!((r.custom.limit, r.custom.exp, r.custom.money), (1, 230, 42000));
    assert_eq!(r.custom.member_exp.iter().map(|m| (m.member_id, m.exp)).collect::<Vec<_>>(), vec![(11, 230), (13, 230), (12, 230)]);
    assert_eq!(r.custom.reward.len(), 1);
    assert_eq!((r.custom.reward[0].itemtype, r.custom.reward[0].itemnum), (15, 40));
    assert_eq!(r.custom.love.len(), 1);
    assert_eq!(r.custom.mission, vec![1, 0]);
}

#[test]
fn main_quest_result_response() {
    let reward_rows = vec![row(&[("id", "101011"), ("item_type1", "3"), ("item_id1", "1"), ("item_num1", "50"), ("item_rare1", "0")])];
    let r = battle_result_response(&forms(), &vec![(11, 100)], &vec![], &reward_rows, 101011, vec![], vec![], 9);
    assert_eq!((r.custom.exp, r.custom.money), (5, 85000));
    assert_eq!(r.custom.reward.iter().map(|x| (x.itemtype, x.itemid, x.itemnum)).collect::<Vec<_>>(), vec![(3, 1, 1000)]);
    assert_eq!(r.custom.member_exp.iter().map(|m| m.member_id).collect::<Vec<_>>(), vec![11, 13, 12]);
    assert!(r.custom.firstclear);
    assert_eq!(r.notifications.len(), 12);
    assert_eq!(r.notifications[8].msgkey, "show_button");
}

#[test]
fn multi_battle_stubs() {
    let r = marathon_multi_result(42);
    assert_eq!(r.battle_id, 42);
    assert_eq!(r.user_guest3[3].user_name, "Darkness");
    assert_eq!(r.user_host[0].is_mvp, 1);
    assert_eq!(r.reward[0].itemtype, 2);
    let party = Party::new(forms(), 1);
    let s = marathon_multi_start(&party, vec![]);
    assert_eq!(s.user_host[2].strength, 4);
    assert_eq!(s.read_only_token, "stub_token");
}

#[test]
fn surprise_quest_party() {
    let r = surprise_quest_start(1);
    assert_eq!(r.custom.party.party_forms.len(), 5);
    assert_eq!(r.custom.members[2].member_id, 1064217);
    assert_eq!(r.custom.members[2].ac_skill_id_b, 210042000000312082);
}

#[test]
fn battle_start_carries_the_sub_assists() {
    let mut party = Party::new(forms(), 1);
    party.assist = 7;
    party.sub_assists = vec![3, 4];
    let r = make_battle_start(&party, vec![], 1);
    assert_eq!(r.custom.party.assist, 7);
    assert_eq!(r.custom.party.sub_assists, vec![3, 4]);
}
