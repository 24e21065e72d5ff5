use vstd::prelude::*;
use crate::master::{field_i32, rows_view, FieldsView, MasterRow};
use crate::api::dungeon::{find_first_where, first_where, has_first_where};

verus! {

#[derive(Debug)]
pub struct CharacterPieceBoardInfo {
  pub board_info: Vec<PieceBoardInfo>,
  pub reward_ids: Vec<i32>,
}

#[derive(Debug)]
pub struct PieceBoardInfo {
  pub board_id: i32,
  /// 0 if none
  pub stage_id: i32,
}

#[derive(Debug)]
pub struct CharacterPieceBoardInfoRequest {
  pub character_id: i32,
}

#[derive(Debug)]
pub struct CharacterEnhanceInfo {
  pub progress: Vec<CharacterEnhanceInfoProgress>,
  pub trial_timestamp: i64,
}

#[derive(Debug)]
pub struct CharacterEnhanceInfoProgress {
  pub root_id: i32,
  pub root_stage_id: i32,
  pub stage_id: i32,
  pub parameter: EnhanceParameter,
  pub unique_weapon_id: i64,
  pub specialskill: Vec<EnhanceSpecialSkill>,
  pub unique_stone: EnhanceUniqueStone,
  pub material_items: Vec<CharacterEnhanceMaterial>,
  pub money: i32,
}

#[derive(Debug)]
pub struct EnhanceSpecialSkill {
  pub sp_id: i64,
  pub sp_group_id: i64,
  pub sp_lv: i32,
}

#[derive(Debug)]
pub struct EnhanceUniqueStone {
  pub unique_stone_id: i64,
  pub unique_stone_lv: i32,
}

#[derive(Debug)]
pub struct EnhanceParameter {
  pub hp: i32,
  pub attack: i32,
  pub magicattack: i32,
  pub defense: i32,
  pub magicdefence: i32,
  pub agility: i32,
  pub dexterity: i32,
  pub luck: i32,
}

#[derive(Debug)]
pub struct CharacterEnhanceMaterial {
  pub item_type: i32,
  pub item_id: i64,
  pub item_num: i32,
}

#[derive(Debug)]
pub struct CharacterEnhanceInfoRequest {
  pub character_id: i32,
}

/// The trials of a character, in order: (root, root stage, stage) of each row of the master
/// for the character.
pub open spec fn character_trials(rows: Seq<FieldsView>, character_id: i32) -> Seq<(i32, i32, i32)>
    decreases rows.len(),
{
    if rows.len() == 0 {
        Seq::empty()
    } else {
        let rest = character_trials(rows.drop_last(), character_id);
        let r = rows.last();
        if field_i32(r, "character_id"@) == Some(character_id) {
            rest.push((field_i32(r, "root_id"@).unwrap(), field_i32(r, "root_stage_id"@).unwrap(), field_i32(r, "stage_id"@).unwrap()))
        } else {
            rest
        }
    }
}

/// Every trial names its character, and the trials of the character name their stages.
pub open spec fn trials_readable(rows: Seq<FieldsView>, character_id: i32) -> bool {
    forall|i: int| 0 <= i < rows.len() ==> {
        &&& (#[trigger] field_i32(rows[i], "character_id"@)) is Some
        &&& field_i32(rows[i], "character_id"@) == Some(character_id) ==> {
            &&& field_i32(rows[i], "root_id"@) is Some
            &&& field_i32(rows[i], "root_stage_id"@) is Some
            &&& field_i32(rows[i], "stage_id"@) is Some
        }
    }
}

/// A trial as the enhancement screen shows it: its stages, fixed parameters, no unique weapon,
/// skills, stone or materials, a thousand money.
pub open spec fn trial_progress(p: CharacterEnhanceInfoProgress, t: (i32, i32, i32)) -> bool {
    &&& p.root_id == t.0 && p.root_stage_id == t.1 && p.stage_id == t.2
    &&& p.parameter == (EnhanceParameter { hp: 100, attack: 50, magicattack: 50, defense: 30, magicdefence: 30, agility: 20, dexterity: 20, luck: 10 })
    &&& p.unique_weapon_id == 0
    &&& p.specialskill@.len() == 0
    &&& p.unique_stone == (EnhanceUniqueStone { unique_stone_id: 0, unique_stone_lv: 0 })
    &&& p.material_items@.len() == 0
    &&& p.money == 1000
}

/// A character's enhancement trials, stamped with the given time.
pub fn character_enhance_info(trials: &Vec<MasterRow>, request: &CharacterEnhanceInfoRequest, now: i64) -> (r: CharacterEnhanceInfo)
    requires
        trials_readable(rows_view(trials@), request.character_id),
    ensures
        r.progress@.len() == character_trials(rows_view(trials@), request.character_id).len(),
        forall|k: int| 0 <= k < r.progress@.len() ==>
            trial_progress(#[trigger] r.progress@[k], character_trials(rows_view(trials@), request.character_id)[k]),
        r.trial_timestamp == now,
{
    let ghost tv = rows_view(trials@);
    let mut progress: Vec<CharacterEnhanceInfoProgress> = Vec::new();
    let mut i: usize = 0;
    while i < trials.len()
        invariant
            i <= trials@.len(),
            tv == rows_view(trials@),
            trials_readable(tv, request.character_id),
            progress@.len() == character_trials(tv.take(i as int), request.character_id).len(),
            forall|k: int| 0 <= k < progress@.len() ==>
                trial_progress(#[trigger] progress@[k], character_trials(tv.take(i as int), request.character_id)[k]),
        decreases trials@.len() - i,
    {
        assert(tv[i as int] == trials@[i as int]@);
        assert(tv.take(i + 1).drop_last() =~= tv.take(i as int));
        assert(tv.take(i + 1).last() == tv[i as int]);
        assert(field_i32(tv[i as int], "character_id"@) is Some);
        let row = &trials[i];
        if row.get_i32("character_id") == Some(request.character_id) {
            let root_id = match row.get_i32("root_id") { Some(v) => v, None => 0 };
            let root_stage_id = match row.get_i32("root_stage_id") { Some(v) => v, None => 0 };
            let stage_id = match row.get_i32("stage_id") { Some(v) => v, None => 0 };
            progress.push(CharacterEnhanceInfoProgress {
                root_id,
                root_stage_id,
                stage_id,
                parameter: EnhanceParameter { hp: 100, attack: 50, magicattack: 50, defense: 30, magicdefence: 30, agility: 20, dexterity: 20, luck: 10 },
                unique_weapon_id: 0,
                specialskill: Vec::new(),
                unique_stone: EnhanceUniqueStone { unique_stone_id: 0, unique_stone_lv: 0 },
                material_items: Vec::new(),
                money: 1000,
            });
        }
        i = i + 1;
    }
    assert(tv.take(trials@.len() as int) =~= tv);
    CharacterEnhanceInfo { progress, trial_timestamp: now }
}

/// The boards of a character, in order, by their ids.
pub open spec fn character_boards(boards: Seq<FieldsView>, character_id: i32) -> Seq<i32>
    decreases boards.len(),
{
    if boards.len() == 0 {
        Seq::empty()
    } else {
        let rest = character_boards(boards.drop_last(), character_id);
        if field_i32(boards.last(), "chara_id"@) == Some(character_id) {
            rest.push(field_i32(boards.last(), "board_id"@).unwrap())
        } else {
            rest
        }
    }
}

/// Every board names its character; each board of the character has an id and a first stage
/// whose stage id reads.
pub open spec fn boards_readable(boards: Seq<FieldsView>, stages: Seq<FieldsView>, character_id: i32) -> bool {
    forall|i: int| 0 <= i < boards.len() ==> {
        &&& (#[trigger] field_i32(boards[i], "chara_id"@)) is Some
        &&& field_i32(boards[i], "chara_id"@) == Some(character_id) ==> {
            let board_id = field_i32(boards[i], "board_id"@).unwrap();
            &&& field_i32(boards[i], "board_id"@) is Some
            &&& has_first_where(stages, "board_id"@, board_id)
            &&& field_i32(stages[first_where(stages, "board_id"@, board_id)], "stage_id"@) is Some
        }
    }
}

/// The piece boards of a character, each at no stage, with no rewards.
pub fn character_piece_board_info(boards: &Vec<MasterRow>, stages: &Vec<MasterRow>, request: &CharacterPieceBoardInfoRequest) -> (r: CharacterPieceBoardInfo)
    requires
        boards_readable(rows_view(boards@), rows_view(stages@), request.character_id),
    ensures
        r.board_info@.len() == character_boards(rows_view(boards@), request.character_id).len(),
        forall|k: int| 0 <= k < r.board_info@.len() ==> #[trigger] r.board_info@[k]
            == (PieceBoardInfo { board_id: character_boards(rows_view(boards@), request.character_id)[k], stage_id: 0 }),
        r.reward_ids@.len() == 0,
{
    let ghost bv = rows_view(boards@);
    let mut info: Vec<PieceBoardInfo> = Vec::new();
    let mut i: usize = 0;
    while i < boards.len()
        invariant
            i <= boards@.len(),
            bv == rows_view(boards@),
            boards_readable(bv, rows_view(stages@), request.character_id),
            info@.len() == character_boards(bv.take(i as int), request.character_id).len(),
            forall|k: int| 0 <= k < info@.len() ==> #[trigger] info@[k]
                == (PieceBoardInfo { board_id: character_boards(bv.take(i as int), request.character_id)[k], stage_id: 0 }),
        decreases boards@.len() - i,
    {
        assert(bv[i as int] == boards@[i as int]@);
        assert(bv.take(i + 1).drop_last() =~= bv.take(i as int));
        assert(bv.take(i + 1).last() == bv[i as int]);
        assert(field_i32(bv[i as int], "chara_id"@) is Some);
        if boards[i].get_i32("chara_id") == Some(request.character_id) {
            let board_id = match boards[i].get_i32("board_id") {
                Some(v) => v,
                None => 0,
            };
            let _stage = find_first_where(stages, "board_id", board_id);
            info.push(PieceBoardInfo { board_id, stage_id: 0 });
        }
        i = i + 1;
    }
    assert(bv.take(boards@.len() as int) =~= bv);
    CharacterPieceBoardInfo { board_info: info, reward_ids: Vec::new() }
}

} // verus!
