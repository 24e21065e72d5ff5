use vstd::prelude::*;

verus! {

#[derive(Debug)]
pub struct LoginBonus {
  pub goods: Vec<LoginBonusGood>,
  pub omikuji: Omikuji,
  pub random_login_bonus: RandomLoginBonus,
  pub roulette_login_bonus: RouletteLoginBonus,
}

#[derive(Debug)]
pub struct LoginBonusGood {
  pub login_bonus_master_id: i32,
  pub day_count: i32,
  pub itemtype: i32,
  pub itemid: i32,
  pub itemnum: i32,
}

#[derive(Debug)]
pub struct Omikuji {
  pub omikuji_id: i32,
  pub fortune_id: i32,
}

#[derive(Debug)]
pub struct RandomLoginBonus {
  pub random_loginbonus_id: i32,
  pub lot_id: i32,
  pub story_id: i32,
  pub user_story_id: i32,
  pub days: Vec<RandomLoginBonusDay>,
}

#[derive(Debug)]
pub struct RandomLoginBonusDay {
  pub day: i32,
  pub pattern_id: i32,
}

#[derive(Debug)]
pub struct RouletteLoginBonus {
  pub roulette_loginbonus_id: i32,
  pub result_pattern_id: i32,
  pub roulette_view_id: i32,
  pub days: Vec<RouletteLoginBonusDay>,
  pub sns_share_results: Vec<RouletteLoginBonusSnsShareResult>,
}

#[derive(Debug)]
pub struct RouletteLoginBonusDay {
  pub day: i32,
  pub result_pattern_id: i32,
}

#[derive(Debug)]
pub struct RouletteLoginBonusSnsShareResult {
  pub day: i32,
  pub result_pattern_id: i32,
}

impl LoginBonusGood {
    pub fn new(login_bonus_master_id: i32, day_count: i32, itemtype: i32, itemid: i32, itemnum: i32) -> (r: Self)
        ensures
            r == (LoginBonusGood { login_bonus_master_id, day_count, itemtype, itemid, itemnum }),
    {
        Self { login_bonus_master_id, day_count, itemtype, itemid, itemnum }
    }
}

/// The login bonus: no goods, no fortune, no random or roulette bonus.
pub fn login_bonus() -> (r: LoginBonus)
    ensures
        r.goods@.len() == 0,
        r.omikuji == (Omikuji { omikuji_id: 0, fortune_id: 0 }),
        r.random_login_bonus.random_loginbonus_id == 0,
        r.random_login_bonus.lot_id == 0,
        r.random_login_bonus.story_id == 0,
        r.random_login_bonus.user_story_id == 0,
        r.random_login_bonus.days@.len() == 0,
        r.roulette_login_bonus.roulette_loginbonus_id == 0,
        r.roulette_login_bonus.result_pattern_id == 0,
        r.roulette_login_bonus.roulette_view_id == 0,
        r.roulette_login_bonus.days@.len() == 0,
        r.roulette_login_bonus.sns_share_results@.len() == 0,
{
    LoginBonus {
        goods: Vec::new(),
        omikuji: Omikuji { omikuji_id: 0, fortune_id: 0 },
        random_login_bonus: RandomLoginBonus { random_loginbonus_id: 0, lot_id: 0, story_id: 0, user_story_id: 0, days: Vec::new() },
        roulette_login_bonus: RouletteLoginBonus {
            roulette_loginbonus_id: 0,
            result_pattern_id: 0,
            roulette_view_id: 0,
            days: Vec::new(),
            sns_share_results: Vec::new(),
        },
    }
}

} // verus!
