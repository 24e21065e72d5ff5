use axel::api::gacha::{gacha_rate, rarity_rates, DecimalValue, GachaBonusRow, GachaRateRequest, GachaRateRow};

fn dec(mantissa: i128, scale: u32) -> DecimalValue {
    DecimalValue { mantissa, scale }
}

fn rate_row(member_id: i64, rarity: i32, p: DecimalValue, pity: Option<DecimalValue>, priority: Option<i32>) -> GachaRateRow {
    GachaRateRow { member_id, rarity, probability: p, probability_pity: pity, is_rate_up: rarity == 4, details_priority: priority }
}

#[test]
fn member_rates_are_thousandths_rounded_half_to_even() {
    let rows = vec![
        rate_row(1001, 4, dec(125, 4), None, Some(2)),
        rate_row(1002, 4, dec(135, 4), None, None),
        rate_row(1003, 3, dec(15, 1), Some(dec(3, 0)), None),
    ];
    let g = gacha_rate(&GachaRateRequest { gacha_id: 7 }, &rows, &vec![]).unwrap();
    assert_eq!(g.gacha_id, 7);
    assert_eq!(g.rate.iter().map(|r| r.rate).collect::<Vec<_>>(), vec![12, 14, 1500]);
    assert!(g.rate[0].is_rate_up && g.rate[0].is_details_visible);
    assert_eq!(g.rate[0].details_priority, 2);
    assert!(!g.rate[1].is_details_visible);
    assert_eq!(g.rate[1].details_priority, 0);
    assert_eq!(g.limitrate.len(), 1);
    assert_eq!((g.limitrate[0].member_id, g.limitrate[0].rate), (1003, 3000));
    assert_eq!(g.bonus_per_draw_count, 42);
}

#[test]
fn rates_per_rarity_are_summed_and_sorted() {
    let rows = vec![
        rate_row(1001, 4, dec(125, 3), Some(dec(5, 1)), None),
        rate_row(1002, 2, dec(60, 0), None, None),
        rate_row(1003, 4, dec(875, 3), Some(dec(50, 2)), None),
    ];
    let g = gacha_rate(&GachaRateRequest { gacha_id: 1 }, &rows, &vec![]).unwrap();
    assert_eq!(g.rarerate.iter().map(|r| (r.rare, r.rate)).collect::<Vec<_>>(), vec![(2, 6000), (4, 100)]);
    assert_eq!(g.limitrarerate.iter().map(|r| (r.rare, r.rate)).collect::<Vec<_>>(), vec![(4, 100)]);
}

#[test]
fn tenth_draw_rates_are_summed_under_each_member_rarity() {
    let rows = vec![
        rate_row(1001, 3, dec(1, 0), Some(dec(25, 1)), None),
        rate_row(1002, 4, dec(1, 0), Some(dec(25, 1)), None),
        rate_row(1003, 3, dec(1, 0), Some(dec(5, 1)), None),
    ];
    let g = gacha_rate(&GachaRateRequest { gacha_id: 1 }, &rows, &vec![]).unwrap();
    assert_eq!(g.limitrarerate.iter().map(|r| (r.rare, r.rate)).collect::<Vec<_>>(), vec![(3, 300), (4, 250)]);
}

#[test]
fn bonus_packs_get_thousandths() {
    let g = gacha_rate(&GachaRateRequest { gacha_id: 1 }, &vec![], &vec![GachaBonusRow { pack_id: 9, rate: dec(2345, 2) }]).unwrap();
    assert_eq!(g.bonusrate.len(), 1);
    assert_eq!((g.bonusrate[0].pack_id, g.bonusrate[0].rate), (9, 23450));
    assert!(g.rate.is_empty() && g.rarerate.is_empty());
}

#[test]
fn rate_too_large_for_an_i32_gives_none() {
    let rows = vec![rate_row(1, 1, dec(10_000_000, 0), None, None)];
    assert!(gacha_rate(&GachaRateRequest { gacha_id: 1 }, &rows, &vec![]).is_none());
}

#[test]
fn rarity_table_of_no_pairs_is_empty() {
    assert_eq!(rarity_rates(&vec![]).unwrap().len(), 0);
    let t = rarity_rates(&vec![(5, dec(1, 0)), (1, dec(2, 0)), (5, dec(3, 0))]).unwrap();
    assert_eq!(t.iter().map(|r| (r.rare, r.rate)).collect::<Vec<_>>(), vec![(1, 200), (5, 400)]);
}
