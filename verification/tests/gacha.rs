use axel::api::gacha::{drawable_members, gacha_info, gacha_normal, gacha_tutorial, GachaItem};
use axel::master::MasterRow;

fn row(fields: &[(&str, &str)]) -> MasterRow {
    MasterRow { fields: fields.iter().map(|(k, v)| (k.to_string(), v.to_string())).collect() }
}

#[test]
fn gacha_list_from_master() {
    let rows = vec![row(&[("gacha_id", "100001")]), row(&[("gacha_id", "410321"), ("name", "x")])];
    let r = gacha_info(&rows, 1).unwrap();
    assert_eq!(r.custom.gacha.len(), 2);
    assert_eq!(r.custom.gacha[1].gachaid, 410321);
    assert!(r.custom.gacha[0].daily);
    assert_eq!(r.custom.gacha[0].draw_count, 1);
    let notes: Vec<(i32, i32, i32, i32)> = r.notifications.iter().map(|n| (n.cmd, n.kind, n.key, n.value)).collect();
    assert_eq!(notes, vec![(1, 12, 19, 323041), (1, 12, 19, 410436), (1, 26, 323041, 1)]);
    assert!(gacha_info(&vec![row(&[("gacha_id", "-1")])], 1).is_none());
    assert!(gacha_info(&vec![row(&[("id", "1")])], 1).is_none());
}

#[test]
fn simple_gacha() {
    let g = GachaItem::new_simple(7);
    assert_eq!((g.gachaid, g.ticket, g.remain_draw_count), (7, 0, 0));
    assert!(g.first_free_ids.is_empty());
}

#[test]
fn tutorial_draw() {
    let first = gacha_tutorial(1);
    assert_eq!(first.gacha_id, 100002);
    assert_eq!(first.goods.len(), 1);
    assert_eq!(first.goods[0].item_id, 1032102);
    assert!(gacha_tutorial(2).goods.is_empty());
}

#[test]
fn normal_draw_gives_rare_members() {
    let mut rows = Vec::new();
    for i in 0..30 {
        let rare = (i % 3).to_string();
        let id = (1000 + i).to_string();
        rows.push(row(&[("id", id.as_str()), ("rare", rare.as_str())]));
    }
    assert_eq!(drawable_members(&rows).unwrap().len(), 10);
    let r = gacha_normal(&rows, 5, 1).unwrap();
    assert_eq!(r.custom.gacha_id, 5);
    assert_eq!(r.custom.goods.len(), 10);
    for g in &r.custom.goods {
        assert_eq!(g.itemtype, 4);
        assert_eq!((g.itemid - 1000) % 3, 2);
    }
    assert_eq!(r.remote.len(), 10);
    assert_eq!(r.remote[6].tag, "show_button");
    let few = vec![row(&[("id", "1"), ("rare", "3")]), row(&[("id", "2"), ("rare", "1")])];
    assert_eq!(gacha_normal(&few, 5, 1).unwrap().custom.goods.len(), 1);
    assert!(gacha_normal(&vec![row(&[("id", "1")])], 5, 1).is_none());
}
