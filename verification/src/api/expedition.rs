use vstd::prelude::*;
use crate::api::interaction::Character;
use crate::level::LevelCalculator;

verus! {

#[derive(Debug)]
pub struct ExpeditionTop {
  pub expeditions: Vec<ExpeditionInfo>,
  pub bonus_pack: i32,
}

#[derive(Debug)]
pub struct ExpeditionInfo {
  pub expedition_id: i32,
  pub character_id: i64,
  /// - 0 - invalid;
  /// - 1 - "Working", claim available if >= 864 seconds passed since [start_time];
  /// - 2 - "Now Hiring", character can be assigned;
  /// - 3 - "Job Complete", claim available (max).
  pub status: i32,
  /// Start time, relative to server time.
  pub start_time: String,
}

#[derive(Debug)]
pub struct ExpeditionCharacter {
  pub characters: Vec<ExpeditionCharacterInfo>,
}

#[derive(Debug)]
pub struct ExpeditionCharacterInfo {
  /// Opaque value to uniquely identify selected character.
  /// Used in [ExpeditionSetRequest] and [ExpeditionUpdate].
  pub id: i32,
  pub character_id: i64,
  pub rank: i32,
  pub rank_progress: i32,
}

#[derive(Debug)]
pub struct ExpeditionSet {
  /// Does not seem to be used anywhere
  pub updates: Vec<ExpeditionUpdate>,
  /// Displayed only if [items] is not empty
  pub money: i32,
  /// If not empty, shows a "Job Payment Received" popup, also see [expedition_set] docs.
  pub items: Vec<ExpeditionItem>,
}

#[derive(Debug)]
pub struct ExpeditionUpdate {
  pub expedition_id: i32,
  pub user_character_id: i32,
  pub love: i32,
  pub start_time: String,
}

#[derive(Debug)]
pub struct ExpeditionItem {
  pub item_type: i32,
  pub item_id: i64,
  pub item_num: i32,
}

/// If both [expedition_id] and [user_character_id] are zero, "Claim All" is performed.
#[derive(Debug)]
pub struct ExpeditionSetRequest {
  pub expedition_id: i32,
  pub user_character_id: i32,
}

/// The jobs: one open, one in progress, one done; one bonus pack.
pub fn expedition_top() -> (r: ExpeditionTop)
    ensures
        r.expeditions@.len() == 3,
        r.expeditions@[0].expedition_id == 4 && r.expeditions@[0].character_id == 0 && r.expeditions@[0].status == 2
            && r.expeditions@[0].start_time@ == ""@,
        r.expeditions@[1].expedition_id == 1 && r.expeditions@[1].character_id == 101 && r.expeditions@[1].status == 1
            && r.expeditions@[1].start_time@ == "2025/12/23 12:00"@,
        r.expeditions@[2].expedition_id == 2 && r.expeditions@[2].character_id == 102 && r.expeditions@[2].status == 3
            && r.expeditions@[2].start_time@ == "2025/12/23 13:00"@,
        r.bonus_pack == 1,
{
    ExpeditionTop {
        expeditions: vec![
            ExpeditionInfo { expedition_id: 4, character_id: 0, status: 2, start_time: String::from_str("") },
            ExpeditionInfo { expedition_id: 1, character_id: 101, status: 1, start_time: String::from_str("2025/12/23 12:00") },
            ExpeditionInfo { expedition_id: 2, character_id: 102, status: 3, start_time: String::from_str("2025/12/23 13:00") },
        ],
        bonus_pack: 1,
    }
}

/// A character as the job screen lists it: its id stands for it, with its affinity.
pub open spec fn expedition_line(c: ExpeditionCharacterInfo, character_id: i64, intimacy: i32, levels: LevelCalculator) -> bool {
    &&& c.id == character_id as i32
    &&& c.character_id == character_id
    &&& c.rank == levels.level_spec(intimacy as int)
    &&& c.rank_progress == intimacy
}

/// The characters that can take a job: each of the user's characters with its affinity, in
/// order.
pub fn expedition_character(rows: &Vec<(i64, i32)>, intimacy_levels: &LevelCalculator) -> (r: ExpeditionCharacter)
    requires
        intimacy_levels.thresholds@.len() < i32::MAX,
    ensures
        r.characters@.len() == rows@.len(),
        forall|k: int| 0 <= k < rows@.len() ==> expedition_line(#[trigger] r.characters@[k], rows@[k].0, rows@[k].1, *intimacy_levels),
{
    let mut characters: Vec<ExpeditionCharacterInfo> = Vec::new();
    let mut k: usize = 0;
    while k < rows.len()
        invariant
            k <= rows@.len(),
            intimacy_levels.thresholds@.len() < i32::MAX,
            characters@.len() == k,
            forall|j: int| 0 <= j < k ==> expedition_line(#[trigger] characters@[j], rows@[j].0, rows@[j].1, *intimacy_levels),
        decreases rows@.len() - k,
    {
        let (id, intimacy) = rows[k];
        let c = Character::new(id, intimacy, String::new(), 0, 0, [0, 0, 0, 0], String::new());
        #[verifier::truncate]
        let short_id = c.character_id as i32;
        let rank = c.rank(intimacy_levels);
        characters.push(ExpeditionCharacterInfo { id: short_id, character_id: c.character_id, rank, rank_progress: c.rank_progress });
        k = k + 1;
    }
    ExpeditionCharacter { characters }
}

/// Assigning a character or claiming pay: no updates, a debt of a hundred thousand, no items.
pub fn expedition_set(request: &ExpeditionSetRequest) -> (r: ExpeditionSet)
    ensures
        r.updates@.len() == 0,
        r.money == -100000,
        r.items@.len() == 0,
{
    ExpeditionSet { updates: Vec::new(), money: -100000, items: Vec::new() }
}

} // verus!
