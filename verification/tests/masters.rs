use axel::api::master_all::{
    gacha_priority_rows, get_masters_definitely_initialized, master_name_of, is_blacklisted, master_all, patch_master, patch_row,
    set_field_value, MasterAllItem, MasterManager,
};
use axel::master::{column_i64, MasterRow};

use base64::Engine;
use std::io::Read;

fn row(fields: &[(&str, &str)]) -> MasterRow {
    MasterRow { fields: fields.iter().map(|(k, v)| (k.to_string(), v.to_string())).collect() }
}

fn pairs(r: &MasterRow) -> Vec<(&str, &str)> {
    r.fields.iter().map(|(k, v)| (k.as_str(), v.as_str())).collect()
}

#[test]
fn master_item_is_gzipped_base64_with_md5() {
    let item = MasterAllItem::new("gacha".to_string(), "[{\"a\":\"1\"}]".to_string());
    assert_eq!(item.checkkey, const_hex::encode(md5::compute("[{\"a\":\"1\"}]").0));
    assert_eq!(item.master_decompressed, "[{\"a\":\"1\"}]");
    let compressed = base64::prelude::BASE64_STANDARD.decode(&item.master).unwrap();
    let mut text = String::new();
    flate2::read::GzDecoder::new(compressed.as_slice()).read_to_string(&mut text).unwrap();
    assert_eq!(text, "[{\"a\":\"1\"}]");
}

#[test]
fn set_field_replaces_every_match() {
    let r = set_field_value(&row(&[("a", "1"), ("b", "2")]), "b", "x");
    assert_eq!(pairs(&r), vec![("a", "1"), ("b", "x")]);
    let unchanged = set_field_value(&row(&[("a", "1")]), "b", "x");
    assert_eq!(pairs(&unchanged), vec![("a", "1")]);
}

#[test]
fn gacha_end_dates_move() {
    let r = patch_row("gacha", &row(&[("gacha_id", "1"), ("start_at", "s"), ("end_at", "e")]), "S", "E");
    assert_eq!(pairs(&r), vec![("gacha_id", "1"), ("start_at", "s"), ("end_at", "E")]);
}

#[test]
fn only_the_new_year_event_moves() {
    let rows = vec![
        row(&[("event_id", "24011"), ("start_at", "s"), ("reward_start_at", "s"), ("end_at", "e"), ("reward_end_at", "e")]),
        row(&[("event_id", "1"), ("start_at", "s"), ("end_at", "e")]),
    ];
    let patched = patch_master("event_config", &rows, "S", "E");
    assert_eq!(
        pairs(&patched[0]),
        vec![("event_id", "24011"), ("start_at", "S"), ("reward_start_at", "S"), ("end_at", "E"), ("reward_end_at", "E")]
    );
    assert_eq!(pairs(&patched[1]), vec![("event_id", "1"), ("start_at", "s"), ("end_at", "e")]);
}

#[test]
fn other_masters_are_untouched() {
    let r = patch_row("character", &row(&[("end_at", "e")]), "S", "E");
    assert_eq!(pairs(&r), vec![("end_at", "e")]);
    let w = patch_row("equip_weapon", &row(&[("display_end", "d"), ("start_at", "s")]), "S", "E");
    assert_eq!(pairs(&w), vec![("display_end", "E"), ("start_at", "S")]);
    let sc = patch_row("scorechallenge", &row(&[("id", "2039"), ("end_at", "e")]), "S", "E");
    assert_eq!(pairs(&sc), vec![("id", "2039"), ("end_at", "E")]);
}

fn gacha_row(id: &str) -> MasterRow {
    let names = [
        "gacha_id", "name", "description_text", "enable", "start_at", "end_at", "limit", "limit_x", "banner_url",
        "movie", "introduction_image", "info_banner_url", "gacha_info_url", "other_tab_priority", "footer_banner",
        "footer_banner_order", "limit_id", "exchang_id", "story", "story_fes", "ratio_text_pattern",
        "exchang_bonus_id", "exchang_name", "always_display_flag", "step_loop_count", "result_bg", "card_img_2",
        "card_img_3", "card_img_4", "home_appeal_priority",
    ];
    MasterRow {
        fields: names
            .iter()
            .map(|n| {
                let v = match *n {
                    "gacha_id" => id.to_string(),
                    "start_at" => "2024/01/01 00:00".to_string(),
                    "end_at" => "2024/02/01 00:00".to_string(),
                    _ => String::new(),
                };
                (n.to_string(), v)
            })
            .collect(),
    }
}

#[test]
fn gacha_priority_is_made_from_gacha() {
    let rows = gacha_priority_rows(&vec![gacha_row("100001"), gacha_row("410321")]).unwrap();
    assert_eq!(rows.len(), 2);
    assert_eq!(
        pairs(&rows[1]),
        vec![
            ("id", "410321"),
            ("priority", "0"),
            ("start_at", "2024/01/01 00:00"),
            ("end_at", "2024/02/01 00:00"),
            ("gacha_id", "410321"),
        ]
    );
    assert!(gacha_priority_rows(&vec![row(&[("gacha_id", "1")])]).is_none());
}

#[test]
fn master_all_serves_requested_masters_in_order() {
    let masters = vec![
        MasterAllItem::new("a".to_string(), "[]".to_string()),
        MasterAllItem::new("b".to_string(), "[1]".to_string()),
    ];
    let all = master_all(&masters, &vec!["b".to_string(), "a".to_string()]);
    assert_eq!(all.masterversion, "202408050001");
    assert!(all.compressed);
    assert_eq!(all.masterarray[0].master_key, "b");
    assert_eq!(all.masterarray[1].master_decompressed, "[]");
    assert_eq!(get_masters_definitely_initialized(&Some(masters)).len(), 2);
}

#[test]
fn manager_skips_client_only_masters() {
    assert!(is_blacklisted("voice"));
    assert!(!is_blacklisted("gacha"));
    let manager = MasterManager::new(vec![
        ("text".to_string(), vec![]),
        ("gacha".to_string(), vec![row(&[("gacha_id", "1")])]),
    ]);
    assert_eq!(manager.masters.len(), 1);
    assert_eq!(manager.get_master("gacha").unwrap().len(), 1);
    assert!(manager.get_master("text").is_none());
}

#[test]
fn id_column() {
    let rows = vec![row(&[("id", "3")]), row(&[("x", "1"), ("id", "-4")])];
    assert_eq!(column_i64(&rows, "id"), Some(vec![3, -4]));
    assert_eq!(column_i64(&vec![row(&[("id", "x")])], "id"), None);
}

#[test]
fn patching_twice_is_patching_once() {
    let rows = vec![
        MasterRow {
            fields: vec![
                ("event_id".to_string(), "24011".to_string()),
                ("start_at".to_string(), "a".to_string()),
                ("end_at".to_string(), "b".to_string()),
                ("reward_start_at".to_string(), "c".to_string()),
                ("reward_end_at".to_string(), "d".to_string()),
            ],
        },
        MasterRow { fields: vec![("event_id".to_string(), "1".to_string()), ("end_at".to_string(), "x".to_string())] },
    ];
    let once = patch_master("event_config", &rows, "S", "E");
    let twice = patch_master("event_config", &once, "S", "E");
    assert_eq!(once.iter().map(|r| r.fields.clone()).collect::<Vec<_>>(), twice.iter().map(|r| r.fields.clone()).collect::<Vec<_>>());
    assert_eq!(once[0].fields.iter().map(|f| f.1.as_str()).collect::<Vec<_>>(), vec!["24011", "S", "E", "S", "E"]);
    assert_eq!(once[1].fields[1].1, "x");
}

#[test]
fn master_files_are_named_by_their_stem() {
    assert_eq!(master_name_of("gacha.json"), Some("gacha".to_string()));
    assert_eq!(master_name_of("event.config.json"), Some("event.config".to_string()));
    assert_eq!(master_name_of(".json"), None);
    assert_eq!(master_name_of("gacha.txt"), None);
    assert_eq!(master_name_of("gacha"), None);
    assert_eq!(master_name_of("gacha.jsonx"), None);
}
