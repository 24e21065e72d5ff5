use vstd::prelude::*;
use crate::level::LevelCalculator;
use crate::master::str_eq;

verus! {

#[derive(Debug)]
pub struct InteractionResponse {
  pub characters: Vec<Character>,
}

#[derive(Debug)]
pub struct Character {
  pub character_id: i64,
  /// "Affinity points". Does not wrap to zero when reaching next level.
  /// See 'intimacy_exp' master data.
  pub rank_progress: i32,
  pub voice: String,
  pub character_enhance_stage_id: i32,
  pub character_enhance_badge: i32,
  pub character_enhance_released_count: [i32; 4],
  pub bg: String,
}

#[derive(Debug)]
pub struct CharacterWire {
  pub character_id: i64,
  /// "Affinity"
  pub rank: i32,
  /// "Affinity points".
  pub rank_progress: i32,
  pub voice: String,
  pub character_enhance_stage_id: i32,
  pub character_enhance_badge: i32,
  pub character_enhance_released_count: [i32; 4],
  pub bg: String,
}

impl Character {
    pub fn new(
        character_id: i64,
        rank_progress: i32,
        voice: String,
        character_enhance_stage_id: i32,
        character_enhance_badge: i32,
        character_enhance_released_count: [i32; 4],
        bg: String,
    ) -> (r: Self)
        ensures
            r.character_id == character_id,
            r.rank_progress == rank_progress,
            r.voice@ == voice@,
            r.character_enhance_stage_id == character_enhance_stage_id,
            r.character_enhance_badge == character_enhance_badge,
            r.character_enhance_released_count@ == character_enhance_released_count@,
            r.bg@ == bg@,
    {
        Self {
            character_id,
            rank_progress,
            voice,
            character_enhance_stage_id,
            character_enhance_badge,
            character_enhance_released_count,
            bg,
        }
    }

    /// The character's affinity: the level its affinity points reach on the affinity table.
    pub fn rank(&self, intimacy_levels: &LevelCalculator) -> (r: i32)
        requires
            intimacy_levels.thresholds@.len() < i32::MAX,
        ensures
            r == intimacy_levels.level_spec(self.rank_progress as int),
    {
        intimacy_levels.get_level(self.rank_progress)
    }

    /// The character as the client reads it: with its affinity worked out.
    pub fn wire(&self, intimacy_levels: &LevelCalculator) -> (r: CharacterWire)
        requires
            intimacy_levels.thresholds@.len() < i32::MAX,
        ensures
            r.character_id == self.character_id,
            r.rank == intimacy_levels.level_spec(self.rank_progress as int),
            r.rank_progress == self.rank_progress,
            r.voice@ == self.voice@,
            r.character_enhance_stage_id == self.character_enhance_stage_id,
            r.character_enhance_badge == self.character_enhance_badge,
            r.character_enhance_released_count@ == self.character_enhance_released_count@,
            r.bg@ == self.bg@,
    {
        CharacterWire {
            character_id: self.character_id,
            rank: self.rank(intimacy_levels),
            rank_progress: self.rank_progress,
            voice: self.voice.clone(),
            character_enhance_stage_id: self.character_enhance_stage_id,
            character_enhance_badge: self.character_enhance_badge,
            character_enhance_released_count: self.character_enhance_released_count,
            bg: self.bg.clone(),
        }
    }
}

/// A character as the interaction screen lists it: its affinity points, nothing enhanced,
/// no voice and no background.
pub open spec fn listed_character(c: Character, id: i64, intimacy: i32) -> bool {
    &&& c.character_id == id
    &&& c.rank_progress == intimacy
    &&& c.voice@ == Seq::<char>::empty()
    &&& c.character_enhance_stage_id == 0
    &&& c.character_enhance_badge == 0
    &&& c.character_enhance_released_count@ == seq![0i32, 0, 0, 0]
    &&& c.bg@ == Seq::<char>::empty()
}

/// The characters of the interaction screen: each of the user's characters, with its
/// affinity points, in order.
pub fn interaction(rows: &Vec<(i64, i32)>) -> (r: InteractionResponse)
    ensures
        r.characters@.len() == rows@.len(),
        forall|k: int| 0 <= k < rows@.len() ==> listed_character(#[trigger] r.characters@[k], rows@[k].0, rows@[k].1),
{
    let mut characters: Vec<Character> = Vec::new();
    let mut k: usize = 0;
    while k < rows.len()
        invariant
            k <= rows@.len(),
            characters@.len() == k,
            forall|j: int| 0 <= j < k ==> listed_character(#[trigger] characters@[j], rows@[j].0, rows@[j].1),
        decreases rows@.len() - k,
    {
        let (id, intimacy) = rows[k];
        let released: [i32; 4] = [0, 0, 0, 0];
        assert(released@ =~= seq![0i32, 0, 0, 0]);
        characters.push(Character::new(id, intimacy, String::new(), 0, 0, released, String::new()));
        k = k + 1;
    }
    InteractionResponse { characters }
}

/// A character's rank grows with its affinity points and with nothing else: the points add
/// up across level-ups, so more points never give a lower rank, and two characters with the
/// same points have the same rank whatever their other fields.
pub proof fn law_rank_monotone(c1: Character, c2: Character, intimacy_levels: LevelCalculator)
    requires
        c1.rank_progress <= c2.rank_progress,
    ensures
        intimacy_levels.level_spec(c1.rank_progress as int) <= intimacy_levels.level_spec(c2.rank_progress as int),
        c1.rank_progress == c2.rank_progress ==> intimacy_levels.level_spec(c1.rank_progress as int) == intimacy_levels.level_spec(c2.rank_progress as int),
{
    crate::level::law_level_monotone(intimacy_levels.thresholds@, c1.rank_progress as int, c2.rank_progress as int);
}

/// What `NaiveDateTime::parse_from_str(text, format)` of chrono reads from the text, as seconds
/// since the Unix epoch taken in UTC; `None` where the text does not follow the format.
pub uninterp spec fn naive_date_time(text: Seq<char>, format: Seq<char>) -> Option<i64>;

/// `NaiveDateTime::parse_from_str` of chrono, the date-time it reads turned into its seconds
/// since the Unix epoch (`and_utc().timestamp()`). What it reads is named, not stated.
#[verifier::external_body]
fn parse_naive_date_time(text: &str, format: &str) -> (r: Option<i64>)
    ensures
        r == naive_date_time(text@, format@),
{
    chrono::NaiveDateTime::parse_from_str(text, format).ok().map(|d| d.and_utc().timestamp())
}

/// The two ways the masters write a date: with seconds, and without.
pub open spec fn long_date_format() -> Seq<char> {
    "%Y/%m/%d %H:%M:%S"@
}

pub open spec fn short_date_format() -> Seq<char> {
    "%Y/%m/%d %H:%M"@
}

/// A master date follows one of the two ways of writing one, or is "0".
pub open spec fn master_date_readable(text: Seq<char>) -> bool {
    text == "0"@ || naive_date_time(text, long_date_format()) is Some || naive_date_time(text, short_date_format()) is Some
}

/// The date a master date stands for, in seconds since the Unix epoch: none for "0", else the
/// date read with seconds, or failing that without.
pub open spec fn master_date_value(text: Seq<char>) -> Option<i64> {
    if text == "0"@ {
        None
    } else if naive_date_time(text, long_date_format()) is Some {
        naive_date_time(text, long_date_format())
    } else {
        naive_date_time(text, short_date_format())
    }
}

/// The date a master date stands for, in seconds since the Unix epoch; `None` for "0".
pub fn parse_date(master_date: &str) -> (r: Option<i64>)
    requires
        master_date_readable(master_date@),
    ensures
        r == master_date_value(master_date@),
{
    if str_eq(master_date, "0") {
        return None;
    }
    let long = parse_naive_date_time(master_date, "%Y/%m/%d %H:%M:%S");
    if long.is_some() {
        return long;
    }
    parse_naive_date_time(master_date, "%Y/%m/%d %H:%M")
}

/// A master date read where it can be: `None` where the text is neither "0" nor a date in
/// one of the two ways of writing one, else what `parse_date` gives.
pub fn try_parse_date(master_date: &str) -> (r: Option<Option<i64>>)
    ensures
        r is None <==> !master_date_readable(master_date@),
        r matches Some(d) ==> d == master_date_value(master_date@),
{
    if str_eq(master_date, "0") {
        return Some(parse_date(master_date));
    }
    let long = parse_naive_date_time(master_date, "%Y/%m/%d %H:%M:%S");
    let short = parse_naive_date_time(master_date, "%Y/%m/%d %H:%M");
    if long.is_some() || short.is_some() {
        Some(parse_date(master_date))
    } else {
        None
    }
}

} // verus!
