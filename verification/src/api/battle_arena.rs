use vstd::prelude::*;
use crate::api::{item_type_code, RemoteDataItemType};
use crate::api::battle::BattleMember;
use crate::api::battle::BattleParty;
use crate::api::party_info::{battle_party_of, form_of_row, party_from_rows, skill_for, Party, PartyFormRow, PartyPassiveSkillInfo};

verus! {

#[derive(Debug)]
pub struct ScoreChallengeInfoResponse {
  pub challengenum: i32,
  pub normalscore: i32,
  pub hardscore: i32,
  pub veryhardscore: i32,
  pub totalscore: i32,
  pub rank: i32,
  pub in_ranking_period: i32,
  pub beforeinfo: Vec<ScoreChallengeinfoBeforeInfo>,
  pub best_score_info: Vec<ScoreChallengeMissionBestScoreInfo>,
}

#[derive(Debug)]
pub struct ScoreChallengeinfoBeforeInfo {
  pub scorechallengeid: i32,
  pub score: i32,
  pub rank: i32,
}

#[derive(Debug)]
pub struct ScoreChallengeMissionBestScoreInfo {
  pub elemental: String,
  pub scorechallenge_id: i32,
  pub best_score: i32,
  pub reward_type: i32,
}

#[derive(Debug)]
pub struct ScoreChallengeRankingResponse {
  pub ranking: Vec<ScoreChallengeRanking>,
}

#[derive(Debug)]
pub struct ScoreChallengeRanking {
  pub user_no: String,
  pub icon: i64,
  pub name: String,
  pub score: i32,
  pub rank: i32,
  pub scoremode: i32,
  pub honor_id: i64,
}

#[derive(Debug)]
pub struct ScoreChallengeRankingRequest {
  /// 1 - around me, 2 - global.
  pub mode: i32,
  /// Start after: 1, 1k, 5k, 10k, 20k, 30k (29951), 0 for around me.
  /// Can be an arbitrary number if "View next" or "View previous" is pressed.
  pub ranking: i32,
}

#[derive(Debug)]
pub struct ScoreChallengeBestScorePartyResponse {
  pub user_name: String,
  pub icon: i64,
  pub rank: i32,
  pub bestscore: i32,
  /// Not displayed in-game.
  pub party_name: String,
  pub strength: i32,
  pub party: ScoreChallengeBestScoreParty,
  pub member: Vec<BestScorePartyMember>,
}

#[derive(Debug)]
pub struct BestScorePartyMember {
  pub member_id: i64,
  pub lv: i32,
  pub ex_flg: i32,
}

#[derive(Debug)]
pub struct ScoreChallengeBestScoreParty {
  pub party_forms: Vec<ScoreChallengeBestscorePartyFormInfoResponse>,
  pub assist: i32,
  pub sub_assists: Vec<i32>,
  pub party_passive_skill: ScoreChallengeBestscorePartyPassiveSkillInfoResponse,
}

/// Member IDs must be master IDs, not client-unique IDs, compared to other PartyForm structs.
#[derive(Debug)]
pub struct ScoreChallengeBestscorePartyFormInfoResponse {
  pub form_no: i32,
  pub main: i32,
  pub sub1: i32,
  pub sub2: i32,
  pub weapon: i64,
  pub acc: i64,
  pub specialskill: i64,
  pub skill_pa_fame: i64,
}

#[derive(Debug)]
pub struct ScoreChallengeBestscorePartyPassiveSkillInfoResponse {
  pub skill_id: i64,
  pub member_id: i64,
}

#[derive(Debug)]
pub struct ScoreChallengeBestScorePartyRequest {
  pub user_no: i32,
  pub scorechallengeid: i32,
}

#[derive(Debug)]
pub struct ScoreChallengeStartResponse {
  pub party: BattleParty,
  pub members: Vec<BattleMember>,
}

#[derive(Debug)]
pub struct ScoreChallengeStartRequest {
  pub is_practice: bool,
  pub quest_id: i32,
  pub party_id: i32,
}

#[derive(Debug)]
pub struct ScoreChallengeResultResponse {
  /// How many challenges to deduct?
  pub challengenum: i32,
  pub reward: Vec<ScoreChallengeResultReward>,
  pub totalrewardids: Vec<i32>,
  pub rank: i32,
  pub ranktype: i32,
  pub in_ranking_period: i32,
  pub totalscore: i32,
  pub previous_bestscore: i32,
  pub bestscore: i32,
  pub modescore: i32,
}

#[derive(Debug)]
pub struct ScoreChallengeResultReward {
  pub itemtype: i32,
  pub itemid: i64,
  pub itemnum: i32,
  pub rewardtype: i32,
}

#[derive(Debug)]
pub struct ScoreChallengeResultRequest {
  pub quest_id: i32,
  pub memcheckcount: i32,
  /// `decrypted_score = score ^ seed`.
  pub score: i64,
  pub party_no: i32,
  pub seed: i64,
  pub original_score: i32,
}

pub struct ScoreChallengeMissionResponse {
  pub best_score_info: Vec<ScoreChallengeMissionBestScoreInfo>,
  pub display_best_score_info: Vec<ScoreChallengeMissionDisplayBestScoreInfo>,
}

#[derive(Debug)]
pub struct ScoreChallengeMissionDisplayBestScoreInfo {
  pub elemental: String,
  pub best_score: i32,
  pub previous_best_score: i32,
}

#[derive(Debug)]
pub struct ScoreChallengeMissionListResponse {
  pub scorechallenge_mission_list: Vec<ScoreChallengeMissionListInfo>,
}

#[derive(Debug)]
pub struct ScoreChallengeMissionListInfo {
  pub mission_id: i32,
  pub achieve_flag: i32,
}

/// The party an arena battle starts with: the five form rows of the party, each form at
/// strength 123 with the skill its row names.
pub fn score_challenge_party(rows: &Vec<PartyFormRow>, request: &ScoreChallengeStartRequest) -> (r: Party)
    requires
        rows@.len() == 5,
    ensures
        r.party_no == request.party_id,
        r.assist == 0,
        r.sub_assists@.len() == 0,
        r.party_passive_skill == (PartyPassiveSkillInfo { skill_id: 0, user_member_id: 0 }),
        forall|i: int| 0 <= i < 5 ==> r.party_forms[i] == #[trigger] form_of_row(rows@[i], request.party_id, 123,
            skill_for(None, rows@[i])),
{
    party_from_rows(rows, request.party_id, 123, None)
}

/// The members a battle needs: the main member of each form, in order.
pub fn party_main_members(party: &Party) -> (r: Vec<i64>)
    ensures
        r@.len() == 5,
        forall|i: int| 0 <= i < 5 ==> r@[i] == #[trigger] party.party_forms[i].main as i64,
{
    let mut out: Vec<i64> = Vec::new();
    let mut i: usize = 0;
    while i < 5
        invariant
            i <= 5,
            out@.len() == i,
            forall|j: int| 0 <= j < i ==> out@[j] == #[trigger] party.party_forms[j].main as i64,
        decreases 5 - i,
    {
        out.push(party.party_forms[i].main as i64);
        i = i + 1;
    }
    out
}

/// The form a member leads: the first whose main member it is.
pub fn member_form(party: &Party, member_id: i32) -> (r: Option<usize>)
    ensures
        r matches Some(i) ==> i < 5 && party.party_forms[i as int].main == member_id
            && forall|j: int| 0 <= j < i ==> (#[trigger] party.party_forms[j]).main != member_id,
        r is None ==> forall|j: int| 0 <= j < 5 ==> (#[trigger] party.party_forms[j]).main != member_id,
{
    let mut i: usize = 0;
    while i < 5
        invariant
            i <= 5,
            forall|j: int| 0 <= j < i ==> (#[trigger] party.party_forms[j]).main != member_id,
        decreases 5 - i,
    {
        if party.party_forms[i].main == member_id {
            return Some(i);
        }
        i = i + 1;
    }
    None
}

/// The start of an arena battle: the party as a battle sees it, and its members.
pub fn score_challenge_start(party: &Party, members: Vec<BattleMember>) -> (r: ScoreChallengeStartResponse)
    ensures
        battle_party_of(*party, r.party),
        r.members@ == members@,
{
    ScoreChallengeStartResponse { party: party.to_battle_party(), members }
}

/// The arena: three challenges left, fixed scores per difficulty, rank 42 in the ranking period.
pub fn score_challenge_info() -> (r: ScoreChallengeInfoResponse)
    ensures
        r.challengenum == 3,
        r.normalscore == 15000 && r.hardscore == 12000 && r.veryhardscore == 8000,
        r.totalscore == 35000,
        r.rank == 42,
        r.in_ranking_period == 1,
        r.beforeinfo@.len() == 0 && r.best_score_info@.len() == 0,
{
    ScoreChallengeInfoResponse {
        challengenum: 3,
        normalscore: 15000,
        hardscore: 12000,
        veryhardscore: 8000,
        totalscore: 35000,
        rank: 42,
        in_ranking_period: 1,
        beforeinfo: Vec::new(),
        best_score_info: Vec::new(),
    }
}

/// The ranking: one stand-in player, third, in the mode asked for.
pub fn score_challenge_ranking(request: &ScoreChallengeRankingRequest) -> (r: ScoreChallengeRankingResponse)
    ensures
        r.ranking@.len() == 1,
        r.ranking@[0].user_no@ == "-1"@,
        r.ranking@[0].icon == 1083110,
        r.ranking@[0].name@ == "Megumin"@,
        r.ranking@[0].score == 120000000,
        r.ranking@[0].rank == 3,
        r.ranking@[0].scoremode == request.mode,
        r.ranking@[0].honor_id == 62010250,
{
    ScoreChallengeRankingResponse {
        ranking: vec![ScoreChallengeRanking {
            user_no: String::from_str("-1"),
            icon: 1083110,
            name: String::from_str("Megumin"),
            score: 120000000,
            rank: 3,
            scoremode: request.mode,
            honor_id: 62010250,
        }],
    }
}

/// Form `k` (from 0) of the best-score party: the member at that place, with the stand-in skill.
pub open spec fn best_score_form(f: ScoreChallengeBestscorePartyFormInfoResponse, k: int, members: Seq<(i32, i32)>) -> bool {
    &&& f.form_no == k + 1
    &&& f.main == (if k < members.len() { members[k].0 } else { 0 })
    &&& f.sub1 == 0 && f.sub2 == 0 && f.weapon == 0 && f.acc == 0
    &&& f.specialskill == 100001
    &&& f.skill_pa_fame == 0
}

/// The best-score party of a player: a stand-in player's, filled with the user's members
/// (each as (id, level)) in order, each member listed with its level.
pub fn score_challenge_best_score_party(request: &ScoreChallengeBestScorePartyRequest, members: &Vec<(i32, i32)>) -> (r: ScoreChallengeBestScorePartyResponse)
    ensures
        r.user_name@ == "Megumin"@,
        r.icon == 1083110,
        r.rank == 42,
        r.bestscore == 120000000,
        r.party_name@ == "Kazumin"@,
        r.strength == 99999,
        r.party.party_forms@.len() == 5,
        forall|k: int| 0 <= k < 5 ==> best_score_form(#[trigger] r.party.party_forms@[k], k, members@),
        r.party.assist == 0,
        r.party.sub_assists@.len() == 0,
        r.party.party_passive_skill == (ScoreChallengeBestscorePartyPassiveSkillInfoResponse { skill_id: 0, member_id: 0 }),
        r.member@.len() == members@.len(),
        forall|k: int| 0 <= k < members@.len() ==> #[trigger] r.member@[k]
            == (BestScorePartyMember { member_id: members@[k].0 as i64, lv: members@[k].1, ex_flg: 0 }),
{
    let mut forms: Vec<ScoreChallengeBestscorePartyFormInfoResponse> = Vec::new();
    let mut k: usize = 0;
    while k < 5
        invariant
            k <= 5,
            forms@.len() == k,
            forall|j: int| 0 <= j < k ==> best_score_form(#[trigger] forms@[j], j, members@),
        decreases 5 - k,
    {
        let main = if k < members.len() { members[k].0 } else { 0 };
        forms.push(ScoreChallengeBestscorePartyFormInfoResponse {
            form_no: (k + 1) as i32,
            main,
            sub1: 0,
            sub2: 0,
            weapon: 0,
            acc: 0,
            specialskill: 100001,
            skill_pa_fame: 0,
        });
        k = k + 1;
    }
    let mut listed: Vec<BestScorePartyMember> = Vec::new();
    let mut k: usize = 0;
    while k < members.len()
        invariant
            k <= members@.len(),
            listed@.len() == k,
            forall|j: int| 0 <= j < k ==> #[trigger] listed@[j]
                == (BestScorePartyMember { member_id: members@[j].0 as i64, lv: members@[j].1, ex_flg: 0 }),
        decreases members@.len() - k,
    {
        let (id, lv) = members[k];
        listed.push(BestScorePartyMember { member_id: id as i64, lv, ex_flg: 0 });
        k = k + 1;
    }
    ScoreChallengeBestScorePartyResponse {
        user_name: String::from_str("Megumin"),
        icon: 1083110,
        rank: 42,
        bestscore: 120000000,
        party_name: String::from_str("Kazumin"),
        strength: 99999,
        party: ScoreChallengeBestScoreParty {
            party_forms: forms,
            assist: 0,
            sub_assists: Vec::new(),
            party_passive_skill: ScoreChallengeBestscorePartyPassiveSkillInfoResponse { skill_id: 0, member_id: 0 },
        },
        member: listed,
    }
}

/// An arena result: one challenge used, 42000 paid gems, two total rewards, fixed scores.
pub fn score_challenge_result(request: &ScoreChallengeResultRequest) -> (r: ScoreChallengeResultResponse)
    ensures
        r.challengenum == 1,
        r.reward@ == seq![ScoreChallengeResultReward {
            itemtype: item_type_code(RemoteDataItemType::RealMoney),
            itemid: 1,
            itemnum: 42000,
            rewardtype: 1,
        }],
        r.totalrewardids@ == seq![101i32, 100208],
        r.rank == 42 && r.ranktype == 1 && r.in_ranking_period == 1,
        r.totalscore == 35000,
        r.previous_bestscore == 42000,
        r.bestscore == 1200000,
        r.modescore == 600000,
{
    let r = ScoreChallengeResultResponse {
        challengenum: 1,
        reward: vec![ScoreChallengeResultReward { itemtype: RemoteDataItemType::RealMoney.code(), itemid: 1, itemnum: 42000, rewardtype: 1 }],
        totalrewardids: vec![101, 100208],
        rank: 42,
        ranktype: 1,
        in_ranking_period: 1,
        totalscore: 35000,
        previous_bestscore: 42000,
        bestscore: 1200000,
        modescore: 600000,
    };
    assert(r.reward@ =~= seq![ScoreChallengeResultReward {
        itemtype: item_type_code(RemoteDataItemType::RealMoney),
        itemid: 1,
        itemnum: 42000,
        rewardtype: 1,
    }]);
    assert(r.totalrewardids@ =~= seq![101i32, 100208]);
    r
}

/// The arena missions: no best scores.
pub fn score_challenge_mission() -> (r: ScoreChallengeMissionResponse)
    ensures
        r.best_score_info@.len() == 0,
        r.display_best_score_info@.len() == 0,
{
    ScoreChallengeMissionResponse { best_score_info: Vec::new(), display_best_score_info: Vec::new() }
}

/// The arena mission list: empty.
pub fn score_challenge_mission_list() -> (r: ScoreChallengeMissionListResponse)
    ensures
        r.scorechallenge_mission_list@.len() == 0,
{
    ScoreChallengeMissionListResponse { scorechallenge_mission_list: Vec::new() }
}

} // verus!
