use vstd::prelude::*;
use crate::api::battle::BattleMember;
use crate::api::battle::BattleParty;
use crate::api::home::{MultiBattleInvitation, MultiBattleRoom};
use crate::api::party_info::{battle_party_of, Party};
use crate::call::CallCustom;

verus! {

#[derive(Debug)]
pub struct MultiBattleInvitationListResponse {
  pub multi_battle_invitation: MultiBattleInvitation,
}

#[derive(Debug)]
pub struct MultiBattleRoomInfoResponse {
  pub quest_id: i32,
  pub name: String,
  pub icon: i64,
  pub is_lock: bool,
}

#[derive(Debug)]
pub struct MultiBattleRoomInfoRequest {
  pub room_no: i32,
}

#[derive(Debug)]
pub struct MultiBattleRoomResponse {
  pub room_no: i32,
  pub members: Vec<MultiBattleRoomMember>,
  pub room_status: i32,
  pub open_flag: i32,
  pub invite_flag: i32,
  pub read_only_token: String,
}

#[derive(Debug)]
pub struct MultiBattleRoomMember {
  pub user_no: String,
  pub name: String,
  pub icon: i64,
  pub user_rank: i32,
  pub strength: i32,
  pub is_host: i32,
  pub honor_id: i64,
}

#[derive(Debug)]
pub struct MultiBattleCreateRoomRequest {
  pub party_id: i32,
  pub quest_id: i32,
}

#[derive(Debug)]
pub struct MultiBattleSearchAndJoinRoomRequest {
  pub party_id: i32,
  pub quest_id: i32,
}

#[derive(Debug)]
pub struct MultiBattleRoomStatusResponse {
  pub members: Vec<MultiBattleRoomMember>,
  /// 0 - waiting (invalid?), 1 - waiting, 2 - start battle
  pub room_status: i32,
  pub open_flag: i32,
  pub invite_flag: i32,
}

#[derive(Debug)]
pub struct MultiBattleRoomStatusRequest {
  pub read_only_token: String,
  pub room_no: i32,
}

#[derive(Debug)]
pub struct MarathonMultiStartResponse {
  pub user_host: Vec<MarathonMultiStartUser>,
  pub user_guest1: Vec<MarathonMultiStartUser>,
  pub user_guest2: Vec<MarathonMultiStartUser>,
  pub user_guest3: Vec<MarathonMultiStartUser>,
  pub chest: String,
  pub party: BattleParty,
  pub members: Vec<BattleMember>,
  pub battle_id: i64,
  pub will_use_ticket: i32,
  pub read_only_token: String,
  pub get_log: bool,
}

#[derive(Debug)]
pub struct MarathonMultiStartUser {
  pub user_no: String,
  pub user_name: String,
  pub hp: i32,
  pub icon: i32,
  pub strength: i32,
  pub status: i32,
}

#[derive(Debug)]
pub struct MarathonMultiStartRequest {
  pub party_id: i32,
  pub event_id: i32,
  pub quest_id: i32,
  pub ticket_ratio: i32,
  pub room_no: i32,
}

#[derive(Debug)]
pub struct MarathonMultiBattlingResponse {
  pub user_host: Vec<MarathonMultiBattlingUser>,
  pub user_guest1: Vec<MarathonMultiBattlingUser>,
  pub user_guest2: Vec<MarathonMultiBattlingUser>,
  pub user_guest3: Vec<MarathonMultiBattlingUser>,
  pub enemy: Vec<i32>,
  pub battletime: i32,
  pub battle_id: i64,
  pub is_timeup: i32,
}

#[derive(Debug)]
pub struct MarathonMultiBattlingUser {
  pub user_no: String,
  pub hp: i32,
  pub stamp: i32,
  pub damage: i32,
  pub attack_type: i32,
  pub status: i32,
}

#[derive(Debug)]
pub struct MarathonMultiBattlingRequest {
  pub damage: i32,
  pub battle_id: i64,
  pub battletime: i32,
  pub read_only_token: String,
  pub stamp: i64,
  pub event_id: i32,
  pub party_hp: i32,
  pub attack_type: i32,
  pub room_id: i32,
}

#[derive(Debug)]
pub struct MarathonMultiResultConfirmResponse {
  pub battle_status: i32,
  pub confirmed_user: i32,
}

#[derive(Debug)]
pub struct MarathonMultiResultConfirmRequest {
  pub battle_id: i64,
  pub win: i32,
  pub room_id: i32,
  pub event_id: i32,
}

#[derive(Debug)]
pub struct MarathonMultiLogRequest {
  pub event_id: i32,
  pub quest_id: i32,
  pub room_id: i32,
  pub log: Vec<String>,
}

#[derive(Debug)]
pub struct MarathonMultiResultResponse {
  pub exp: i32,
  pub lvup: i32,
  pub money: i32,
  pub friend_count: i32,
  pub request_count: i32,
  pub love: Vec<BattleCharacterLove>,
  pub member_exp: Vec<BattleMemberExp>,
  pub reward: Vec<MultiBattleReward>,
  pub clearreward: Vec<BattleClearReward>,
  pub user_host: Vec<MarathonMultiResultUser>,
  pub user_guest1: Vec<MarathonMultiResultUser>,
  pub user_guest2: Vec<MarathonMultiResultUser>,
  pub user_guest3: Vec<MarathonMultiResultUser>,
  pub battle_id: i64,
}

#[derive(Debug)]
pub struct BattleCharacterLove {
  pub character_id: i64,
  pub love: i32,
}

#[derive(Debug)]
pub struct BattleMemberExp {
  pub member_id: i64,
  pub exp: i32,
}

#[derive(Debug)]
pub struct MultiBattleReward {
  pub itemtype: i32,
  pub itemid: i64,
  pub itemnum: i32,
  pub is_rare: i32,
  pub is_mvp: i32,
}

#[derive(Debug)]
pub struct BattleClearReward {
  pub itemtype: i32,
  pub itemid: i64,
  pub itemnum: i32,
  pub mission: i32,
}

#[derive(Debug)]
pub struct MarathonMultiResultUser {
  pub user_no: String,
  pub user_name: String,
  pub damage: i32,
  pub friend_state: i32,
  pub friend_count: i32,
  pub request_received_count: i32,
  pub icon: i64,
  pub is_mvp: i32,
  pub status: i32,
}

#[derive(Debug)]
pub struct MarathonMultiResultRequest {
  pub win: i32,
  pub event_id: i32,
  pub battle_time: i32,
  pub room_id: i32,
  pub battle_id: i64,
}

#[derive(Debug)]
pub struct MarathonMultiStampResponse {
  pub user_host: Vec<MarathonMultiStampUser>,
  pub user_guest1: Vec<MarathonMultiStampUser>,
  pub user_guest2: Vec<MarathonMultiStampUser>,
  pub user_guest3: Vec<MarathonMultiStampUser>,
}

#[derive(Debug)]
pub struct MarathonMultiStampUser {
  pub user_no: String,
  pub stamp: i32,
}

#[derive(Debug)]
pub struct MarathonMultiStampRequest {
  pub read_only_token: String,
  pub battle_id: i64,
  pub stamp: i32,
}

#[derive(Debug)]
pub struct MultiBattleJoinRoomResponse {
  pub members: Vec<MultiBattleRoomMember>,
  /// 0 - waiting (invalid?), 1 - waiting, 2 - start battle
  pub room_status: i32,
  pub open_flag: i32,
  pub invite_flag: i32,
  pub read_only_token: String,
}

#[derive(Debug)]
pub struct MultiBattleJoinRoomRequest {
  pub party_id: i32,
  pub room_id: i32,
}

#[derive(Debug)]
pub struct MultiBattleRoomLeaveRequest {
  pub room_id: i32,
}

impl CallCustom for MarathonMultiStartResponse {}

impl CallCustom for MarathonMultiResultResponse {}

/// The stand-in players of a multi battle: (user number, name).
pub open spec fn stub_players() -> Seq<(Seq<char>, Seq<char>)> {
    seq![("-1"@, "Megumin"@), ("-2"@, "Aqua"@), ("-3"@, "Kazuma"@), ("-4"@, "Darkness"@)]
}

/// The damage each stand-in player dealt, and which of them was the MVP.
pub open spec fn stub_damage() -> Seq<i32> {
    seq![12345i32, 23456, 34567, 45678]
}

/// The strength each stand-in player starts with.
pub open spec fn stub_strength() -> Seq<i32> {
    seq![50000i32, 34000, 4, 90000]
}

/// The result rows of the stand-in players: the first is the MVP.
pub open spec fn stub_result_users(r: Seq<MarathonMultiResultUser>) -> bool {
    &&& r.len() == 4
    &&& forall|k: int| 0 <= k < 4 ==> {
        &&& (#[trigger] r[k]).user_no@ == stub_players()[k].0
        &&& r[k].user_name@ == stub_players()[k].1
        &&& r[k].damage == stub_damage()[k]
        &&& r[k].friend_state == 0
        &&& r[k].friend_count == 0
        &&& r[k].request_received_count == 0
        &&& r[k].icon == 1083110
        &&& r[k].is_mvp == (if k == 0 { 1i32 } else { 0i32 })
        &&& r[k].status == 0
    }
}

fn result_user(user_no: &str, user_name: &str, damage: i32, is_mvp: i32) -> (r: MarathonMultiResultUser)
    ensures
        r.user_no@ == user_no@,
        r.user_name@ == user_name@,
        r.damage == damage,
        r.friend_state == 0,
        r.friend_count == 0,
        r.request_received_count == 0,
        r.icon == 1083110,
        r.is_mvp == is_mvp,
        r.status == 0,
{
    MarathonMultiResultUser {
        user_no: user_no.to_owned(),
        user_name: user_name.to_owned(),
        damage,
        friend_state: 0,
        friend_count: 0,
        request_received_count: 0,
        icon: 1083110,
        is_mvp,
        status: 0,
    }
}

fn stub_result_users_vec() -> (r: Vec<MarathonMultiResultUser>)
    ensures
        stub_result_users(r@),
{
    let r = vec![
        result_user("-1", "Megumin", 12345, 1),
        result_user("-2", "Aqua", 23456, 0),
        result_user("-3", "Kazuma", 34567, 0),
        result_user("-4", "Darkness", 45678, 0),
    ];
    assert(stub_result_users(r@));
    r
}

/// The result of a multi battle: fixed experience and money, one MVP reward of 100 paid
/// money, one clear reward of 5000 free money, the four stand-in players in each of the
/// four slots, and the battle's id.
pub fn marathon_multi_result(battle_id: i64) -> (r: MarathonMultiResultResponse)
    ensures
        r.exp == 500,
        r.lvup == 1,
        r.money == 1000,
        r.friend_count == 0,
        r.request_count == 0,
        r.love@.len() == 0,
        r.member_exp@.len() == 0,
        r.reward@.len() == 1,
        r.reward@[0] == (MultiBattleReward { itemtype: 2, itemid: 1, itemnum: 100, is_rare: 1, is_mvp: 1 }),
        r.clearreward@.len() == 1,
        r.clearreward@[0] == (BattleClearReward { itemtype: 3, itemid: 1, itemnum: 5000, mission: 1 }),
        stub_result_users(r.user_host@),
        stub_result_users(r.user_guest1@),
        stub_result_users(r.user_guest2@),
        stub_result_users(r.user_guest3@),
        r.battle_id == battle_id,
{
    MarathonMultiResultResponse {
        exp: 500,
        lvup: 1,
        money: 1000,
        friend_count: 0,
        request_count: 0,
        love: Vec::new(),
        member_exp: Vec::new(),
        reward: vec![MultiBattleReward {
            itemtype: crate::api::RemoteDataItemType::RealMoney.code(),
            itemid: 1,
            itemnum: 100,
            is_rare: 1,
            is_mvp: 1,
        }],
        clearreward: vec![BattleClearReward {
            itemtype: crate::api::RemoteDataItemType::RealMoneyFree.code(),
            itemid: 1,
            itemnum: 5000,
            mission: 1,
        }],
        user_host: stub_result_users_vec(),
        user_guest1: stub_result_users_vec(),
        user_guest2: stub_result_users_vec(),
        user_guest3: stub_result_users_vec(),
        battle_id,
    }
}

/// The start rows of the stand-in players.
pub open spec fn stub_start_users(r: Seq<MarathonMultiStartUser>) -> bool {
    &&& r.len() == 4
    &&& forall|k: int| 0 <= k < 4 ==> {
        &&& (#[trigger] r[k]).user_no@ == stub_players()[k].0
        &&& r[k].user_name@ == stub_players()[k].1
        &&& r[k].hp == 100
        &&& r[k].icon == 1083110
        &&& r[k].strength == stub_strength()[k]
        &&& r[k].status == 0
    }
}

fn start_user(user_no: &str, user_name: &str, strength: i32) -> (r: MarathonMultiStartUser)
    ensures
        r.user_no@ == user_no@,
        r.user_name@ == user_name@,
        r.hp == 100,
        r.icon == 1083110,
        r.strength == strength,
        r.status == 0,
{
    MarathonMultiStartUser { user_no: user_no.to_owned(), user_name: user_name.to_owned(), hp: 100, icon: 1083110, strength, status: 0 }
}

/// The members that lead one of the party's forms.
pub open spec fn leads_a_form(party: Party, member: BattleMember) -> bool {
    exists|f: int| 0 <= f < 5 && (#[trigger] party.party_forms[f]).main == member.id
}

fn leads_form(party: &Party, id: i32) -> (r: bool)
    ensures
        r == exists|f: int| 0 <= f < 5 && (#[trigger] party.party_forms[f]).main == id,
{
    let mut f: usize = 0;
    while f < 5
        invariant
            f <= 5,
            forall|g: int| 0 <= g < f ==> party.party_forms[g].main != id,
        decreases 5 - f,
    {
        if party.party_forms[f].main == id {
            return true;
        }
        f = f + 1;
    }
    false
}

/// The start of a multi battle: the four stand-in players as the host's slot, the chests,
/// the party as a battle sees it, only the members that lead one of its forms (in their
/// order), the battle's id 1, one ticket, and a log to be fetched.
pub fn marathon_multi_start(party: &Party, members: Vec<BattleMember>) -> (r: MarathonMultiStartResponse)
    ensures
        stub_start_users(r.user_host@),
        r.user_guest1@.len() == 0,
        r.user_guest2@.len() == 0,
        r.user_guest3@.len() == 0,
        r.chest@ == crate::api::battle::battle_chest(),
        battle_party_of(*party, r.party),
        r.members@ == members@.filter(|m: BattleMember| leads_a_form(*party, m)),
        r.battle_id == 1,
        r.will_use_ticket == 1,
        r.read_only_token@ == "stub_token"@,
        r.get_log,
{
    let host = vec![
        start_user("-1", "Megumin", 50000),
        start_user("-2", "Aqua", 34000),
        start_user("-3", "Kazuma", 4),
        start_user("-4", "Darkness", 90000),
    ];
    assert(stub_start_users(host@));
    let ghost all = members@;
    let mut rest = members;
    let mut kept: Vec<BattleMember> = Vec::new();
    let ghost mut n: int = 0;
    while rest.len() > 0
        invariant
            0 <= n <= all.len(),
            rest@ == all.skip(n),
            kept@ == all.subrange(0, n).filter(|m: BattleMember| leads_a_form(*party, m)),
        decreases rest@.len(),
    {
        let m = rest.remove(0);
        assert(m == all[n]);
        let ghost pre = all.subrange(0, n);
        assert(all.subrange(0, n + 1) =~= pre.push(m));
        assert(pre.push(m).drop_last() =~= pre);
        reveal(Seq::filter);
        if leads_form(party, m.id) {
            kept.push(m);
        }
        proof {
            n = n + 1;
        }
        assert(rest@ =~= all.skip(n));
    }
    assert(all.subrange(0, n) =~= all);
    MarathonMultiStartResponse {
        user_host: host,
        user_guest1: Vec::new(),
        user_guest2: Vec::new(),
        user_guest3: Vec::new(),
        chest: String::from_str("10101111,10101120,10101131"),
        party: party.to_battle_party(),
        members: kept,
        battle_id: 1,
        will_use_ticket: 1,
        read_only_token: String::from_str("stub_token"),
        get_log: true,
    }
}

/// The invitations: one room of event 24011, hosted by a stand-in player.
pub fn multi_battle_invitation_list() -> (r: MultiBattleInvitationListResponse)
    ensures
        r.multi_battle_invitation.event_id == 24011,
        r.multi_battle_invitation.rooms@.len() == 1,
        r.multi_battle_invitation.rooms@[0].room_no == 1,
        r.multi_battle_invitation.rooms@[0].quest_id == 500101,
        r.multi_battle_invitation.rooms@[0].user_icon == 1083110,
        r.multi_battle_invitation.rooms@[0].user_name@ == "Megumin"@,
{
    MultiBattleInvitationListResponse {
        multi_battle_invitation: MultiBattleInvitation {
            event_id: 24011,
            rooms: vec![MultiBattleRoom { room_no: 1, quest_id: 500101, user_icon: 1083110, user_name: String::from_str("Megumin") }],
        },
    }
}

/// A room's details: a stand-in host, no quest, not locked.
pub fn multi_battle_room_info(request: &MultiBattleRoomInfoRequest) -> (r: MultiBattleRoomInfoResponse)
    ensures
        r.quest_id == 0,
        r.name@ == "Megumin"@,
        r.icon == 1083110,
        !r.is_lock,
{
    MultiBattleRoomInfoResponse { quest_id: 0, name: String::from_str("Megumin"), icon: 1083110, is_lock: false }
}

/// The host of every room: a stand-in player.
pub open spec fn room_host(m: MultiBattleRoomMember) -> bool {
    &&& m.user_no@ == "-1"@
    &&& m.name@ == "Megumin"@
    &&& m.icon == 1083110
    &&& m.user_rank == 100
    &&& m.strength == 50000
    &&& m.is_host == 1
    &&& m.honor_id == 62010250
}

fn host_member() -> (r: MultiBattleRoomMember)
    ensures
        room_host(r),
{
    room_member("-1", "Megumin", 100, 50000, 1)
}

fn room_member(user_no: &str, name: &str, user_rank: i32, strength: i32, is_host: i32) -> (r: MultiBattleRoomMember)
    ensures
        r.user_no@ == user_no@,
        r.name@ == name@,
        r.icon == 1083110,
        r.user_rank == user_rank,
        r.strength == strength,
        r.is_host == is_host,
        r.honor_id == 62010250,
{
    MultiBattleRoomMember {
        user_no: user_no.to_owned(),
        name: name.to_owned(),
        icon: 1083110,
        user_rank,
        strength,
        is_host,
        honor_id: 62010250,
    }
}

/// A room as creating or finding one answers it: room 1, the stand-in host alone, open.
pub open spec fn stand_in_room(r: MultiBattleRoomResponse) -> bool {
    &&& r.room_no == 1
    &&& r.members@.len() == 1 && room_host(r.members@[0])
    &&& r.room_status == 0
    &&& r.open_flag == 1 && r.invite_flag == 1
    &&& r.read_only_token@ == "stub_token"@
}

fn stand_in_room_response() -> (r: MultiBattleRoomResponse)
    ensures
        stand_in_room(r),
{
    MultiBattleRoomResponse {
        room_no: 1,
        members: vec![host_member()],
        room_status: 0,
        open_flag: 1,
        invite_flag: 1,
        read_only_token: String::from_str("stub_token"),
    }
}

/// Creating a room gives the stand-in room.
pub fn multi_battle_create_room(request: &MultiBattleCreateRoomRequest) -> (r: MultiBattleRoomResponse)
    ensures
        stand_in_room(r),
{
    stand_in_room_response()
}

/// Searching for a room joins the stand-in room.
pub fn multi_battle_search_and_join_room(request: &MultiBattleSearchAndJoinRoomRequest) -> (r: MultiBattleRoomResponse)
    ensures
        stand_in_room(r),
{
    stand_in_room_response()
}

/// Joining a room: the stand-in host alone, open.
pub fn multi_battle_join_room(request: &MultiBattleJoinRoomRequest) -> (r: MultiBattleJoinRoomResponse)
    ensures
        r.members@.len() == 1 && room_host(r.members@[0]),
        r.room_status == 0,
        r.open_flag == 1 && r.invite_flag == 1,
        r.read_only_token@ == "stub_token"@,
{
    MultiBattleJoinRoomResponse {
        members: vec![host_member()],
        room_status: 0,
        open_flag: 1,
        invite_flag: 1,
        read_only_token: String::from_str("stub_token"),
    }
}

/// The room's members while waiting: the four stand-in players, the first hosting, each with
/// their rank and strength; the battle starts.
pub fn multi_battle_room_status(request: &MultiBattleRoomStatusRequest) -> (r: MultiBattleRoomStatusResponse)
    ensures
        r.members@.len() == 4,
        forall|k: int| 0 <= k < 4 ==> {
            &&& (#[trigger] r.members@[k]).user_no@ == stub_players()[k].0
            &&& r.members@[k].name@ == stub_players()[k].1
            &&& r.members@[k].icon == 1083110
            &&& r.members@[k].user_rank == seq![100i32, 1000000032, 16, 8900][k]
            &&& r.members@[k].strength == stub_strength()[k]
            &&& r.members@[k].is_host == (if k == 0 { 1i32 } else { 0i32 })
            &&& r.members@[k].honor_id == 62010250
        },
        r.room_status == 2,
        r.open_flag == 1 && r.invite_flag == 1,
{
    let members = vec![
        room_member("-1", "Megumin", 100, 50000, 1),
        room_member("-2", "Aqua", 1000000032, 34000, 0),
        room_member("-3", "Kazuma", 16, 4, 0),
        room_member("-4", "Darkness", 8900, 90000, 0),
    ];
    MultiBattleRoomStatusResponse { members, room_status: 2, open_flag: 1, invite_flag: 1 }
}

fn battling_user(user_no: &str, hp: i32, damage: i32, attack_type: i32) -> (r: MarathonMultiBattlingUser)
    ensures
        r.user_no@ == user_no@,
        r.hp == hp,
        r.stamp == 0,
        r.damage == damage,
        r.attack_type == attack_type,
        r.status == 0,
{
    MarathonMultiBattlingUser { user_no: user_no.to_owned(), hp, stamp: 0, damage, attack_type, status: 0 }
}

/// A round of a multi battle: the user's damage and attack as sent, the other three stand-in
/// players' fixed ones, two enemies, the same battle.
pub fn marathon_multi_battling(request: &MarathonMultiBattlingRequest) -> (r: MarathonMultiBattlingResponse)
    ensures
        r.user_host@.len() == 4,
        forall|k: int| 0 <= k < 4 ==> {
            &&& (#[trigger] r.user_host@[k]).user_no@ == stub_players()[k].0
            &&& r.user_host@[k].hp == seq![3525i32, 4000, 5000, 6000][k]
            &&& r.user_host@[k].stamp == 0
            &&& r.user_host@[k].damage == seq![request.damage, 1234i32, 5678, 91011][k]
            &&& r.user_host@[k].attack_type == seq![request.attack_type, 1i32, 2, 1][k]
            &&& r.user_host@[k].status == 0
        },
        r.user_guest1@.len() == 0 && r.user_guest2@.len() == 0 && r.user_guest3@.len() == 0,
        r.enemy@ == seq![17800029i32, 17800029],
        r.battletime == 0,
        r.battle_id == request.battle_id,
        r.is_timeup == 0,
{
    let r = MarathonMultiBattlingResponse {
        user_host: vec![
            battling_user("-1", 3525, request.damage, request.attack_type),
            battling_user("-2", 4000, 1234, 1),
            battling_user("-3", 5000, 5678, 2),
            battling_user("-4", 6000, 91011, 1),
        ],
        user_guest1: Vec::new(),
        user_guest2: Vec::new(),
        user_guest3: Vec::new(),
        enemy: vec![17800029, 17800029],
        battletime: 0,
        battle_id: request.battle_id,
        is_timeup: 0,
    };
    assert(r.enemy@ =~= seq![17800029i32, 17800029]);
    r
}

/// Confirming a result: the boss is down, one user confirmed.
pub fn marathon_multi_result_confirm(request: &MarathonMultiResultConfirmRequest) -> (r: MarathonMultiResultConfirmResponse)
    ensures
        r.battle_status == 1,
        r.confirmed_user == 1,
{
    MarathonMultiResultConfirmResponse { battle_status: 1, confirmed_user: 1 }
}

/// Sending a stamp: nobody's stamps are shown.
pub fn marathon_multi_stamp(request: &MarathonMultiStampRequest) -> (r: MarathonMultiStampResponse)
    ensures
        r.user_host@.len() == 0 && r.user_guest1@.len() == 0 && r.user_guest2@.len() == 0 && r.user_guest3@.len() == 0,
{
    MarathonMultiStampResponse { user_host: Vec::new(), user_guest1: Vec::new(), user_guest2: Vec::new(), user_guest3: Vec::new() }
}

} // verus!
