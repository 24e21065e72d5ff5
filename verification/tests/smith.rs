use axel::api::smith_craft::{blacksmith_list, blacksmith_response};
use axel::api::smith_sell::{sale_list, SaleListKind, SaleListRequest};
use axel::api::smith_upgrade::{item_power_up_list, item_power_up_response};
use axel::blob::{read_weapon_details, EquipmentRow, ItemRow, WeaponDetail};
use axel::master::MasterRow;

fn row(fields: &[(&str, &str)]) -> MasterRow {
    MasterRow { fields: fields.iter().map(|(k, v)| (k.to_string(), v.to_string())).collect() }
}

fn details() -> Vec<WeaponDetail> {
    vec![
        WeaponDetail { item_id: 11110, lv: 0, item_id_details: 111100 },
        WeaponDetail { item_id: 11110, lv: 1, item_id_details: 111101 },
        WeaponDetail { item_id: 11110, lv: 1, item_id_details: 111199 },
    ]
}

fn weapon(id: i64, level: i32, is_locked: bool) -> EquipmentRow {
    EquipmentRow { id, item_type: 5, item_id: 11110, level, is_locked }
}

#[test]
fn weapon_details_read_from_master() {
    let rows = vec![row(&[("item_id", "11110"), ("lv", "2"), ("item_id_details", "111102")])];
    let d = read_weapon_details(&rows).unwrap();
    assert_eq!((d[0].item_id, d[0].lv, d[0].item_id_details), (11110, 2, 111102));
    assert!(read_weapon_details(&vec![row(&[("item_id", "11110"), ("lv", "x"), ("item_id_details", "1")])]).is_none());
}

#[test]
fn equipment_sells_as_its_details() {
    let r = sale_list(
        &SaleListRequest { kind: SaleListKind::Equipment },
        &vec![weapon(7, 1, true), weapon(8, 0, false)],
        &vec![],
        &details(),
    );
    assert_eq!(r.items.len(), 2);
    // The last details row for a weapon and level wins.
    assert_eq!((r.items[0].item_type, r.items[0].item_id, r.items[0].target_item_id, r.items[0].item_num), (5, 111199, 7, 1));
    assert!(r.items[0].islock);
    assert_eq!(r.items[1].item_id, 111100);
    assert!(!r.items[1].islock && !r.items[1].isuse && !r.items[1].trial);
}

#[test]
fn materials_sell_by_quantity() {
    let r = sale_list(
        &SaleListRequest { kind: SaleListKind::Material },
        &vec![weapon(7, 1, true)],
        &vec![ItemRow { item_type: 15, item_id: 5001, quantity: 12 }],
        &details(),
    );
    assert_eq!(r.items.len(), 1);
    assert_eq!((r.items[0].item_type, r.items[0].item_id, r.items[0].target_item_id, r.items[0].item_num), (15, 5001, 5001, 12));
    assert!(!r.items[0].islock);
}

#[test]
fn forge_lists_every_weapon_and_one_equipped() {
    let weapons = vec![row(&[("item_id", "11110")]), row(&[("item_id", "12211")])];
    let items = vec![row(&[("id", "1"), ("type", "5")])];
    let r = blacksmith_list(&weapons, &items);
    assert_eq!(r.items.iter().map(|i| i.item_id).collect::<Vec<_>>(), vec![11110, 12211]);
    assert!(r.items.iter().all(|i| i.item_type == 5 && i.unlock == 1 && i.newflag == 0));
    assert_eq!(r.equipped_weapon_list.len(), 1);
    assert_eq!(r.equipped_weapon_list[0].unique_id, 1000011110);
    assert_eq!(r.equipped_weapon_list[0].item_id, 11110);
    assert!(r.equipped_accessory_list.is_empty());
}

#[test]
fn forging_sends_the_new_weapon() {
    let r = blacksmith_response(weapon(42, 0, false), &details(), 1000);
    assert_eq!((r.status, r.time), (0, Some(1000)));
    assert_eq!(r.custom.items.len(), 1);
    assert_eq!((r.custom.items[0].unique_id, r.custom.items[0].item_type, r.custom.items[0].item_id, r.custom.items[0].item_num), (42, 5, 111100, 1));
    assert!(r.custom.returned_items.is_empty());
    assert_eq!(r.remote.len(), 1);
    assert_eq!((r.remote[0].cmd, r.remote[0].item_type, r.remote[0].item_id, r.remote[0].item_num, r.remote[0].uniqid), (1, 5, 111100, 1, 42));
    assert_eq!(r.remote[0].tag, "");
}

#[test]
fn upgrade_list_shows_every_piece() {
    let r = item_power_up_list(&vec![weapon(7, 3, true)]);
    assert_eq!(r.items.len(), 1);
    assert_eq!((r.items[0].item_type, r.items[0].item_id, r.items[0].target_item_id, r.items[0].lv), (5, 11110, 7, 3));
    assert!(r.items[0].islock && !r.items[0].trial);
}

#[test]
fn upgrading_sends_the_weapon_at_its_new_level() {
    let r = item_power_up_response(weapon(9, 1, true), &details(), 5);
    assert_eq!((r.custom.items[0].itemtype, r.custom.items[0].itemid, r.custom.items[0].itemnum), (5, 111199, 1));
    assert_eq!(r.remote.len(), 1);
    assert_eq!(r.remote[0].tag, "lock:1");
    assert_eq!(r.remote[0].uniqid, 9);
}

#[test]
fn accessories_are_forged_under_their_own_type() {
    let accessory = EquipmentRow { id: 43, item_type: 6, item_id: 11110, level: 0, is_locked: true };
    let r = blacksmith_response(accessory, &details(), 1000);
    assert_eq!(r.custom.items[0].item_type, 6);
    assert_eq!((r.remote[0].cmd, r.remote[0].item_type, r.remote[0].uniqid), (1, 6, 43));
    assert_eq!(r.remote[0].tag, "lock:1");
}
