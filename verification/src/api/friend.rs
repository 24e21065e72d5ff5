use vstd::prelude::*;

use crate::call::CallCustom;
use crate::text::{i64_text, int_text, law_int_text_parses};

verus! {

pub struct FriendList {
  pub friend_data: Vec<FriendData>,
  /// >= 100 disables Add Friend button
  pub friend_count: i32,
  pub greeting_sent_count: i32,
}

pub struct FriendData {
  pub user_no: String,
  pub user_icon: i64,
  pub user_name: String,
  pub user_rank: i32,
  pub last_access_time: i64,
  /// First friend 🔰 (Shoshinsha mark)
  pub first: bool,
  pub mute: bool,
  /// 0 - none, 1 - has greeted, 2 - has messaged
  pub greeting_status: i32,
  pub profile_comment: String,
  pub honor_id: i64,
}

#[derive(Debug, Clone, Copy)]
pub enum FriendListSortType {
  LatestLoginDescending,
  LatestLoginAscending,
}

#[derive(Debug, Clone, Copy)]
pub enum FriendListKind {
  SentRequests,
  PendingApproval,
  Friends,
}

#[derive(Debug)]
pub struct FriendListRequest {
  pub page: i32,
  pub sort_type: FriendListSortType,
  pub kind: FriendListKind,
}

pub struct GreetingList {
  pub sent_count: i32,
  pub received_count: i32,
  pub greeting_data: Vec<GreetingData>,
  pub greeting_count: i32,
}

pub struct GreetingData {
  pub user_no: String,
  pub user_icon: i64,
  pub user_name: String,
  pub message: String,
  pub first: bool,
}

pub struct FriendRecommendationList {
  pub friend_first_count: i32,
  pub friend_first_rank_total: i32,
  pub friend_count: i32,
  pub request_count: i32,
  pub friend_data: Vec<FriendRecommendation>,
  pub mission_completed: bool,
}

pub struct FriendRecommendation {
  pub user_no: String,
  pub user_icon: i64,
  pub user_name: String,
  pub user_rank: i32,
  pub first: bool,
}

#[derive(Debug, Clone, Copy)]
pub enum FriendRecommendationKind {
  RecommendedFirstFriends,
  SimilarlyRankedPlayers,
}

#[derive(Debug)]
pub struct FriendRecommendationRequest {
  pub kind: FriendRecommendationKind,
}

pub struct GreetingSend {
  /// Friend Beef amount
  pub item_count: i32,
  pub send_data: Vec<GreetingSendData>,
}

pub struct GreetingSendData {
  pub user_no: String,
  pub user_icon: i64,
  pub user_name: String,
  pub profile_comment: String,
  pub first: bool,
}

#[derive(Debug)]
pub struct GreetingSendRequest {
  pub user_ids: Vec<i64>,
  pub message: String,
}

pub struct FriendInfo {
  pub user_no: String,
  pub user_icon: i64,
  pub user_name: String,
  pub profile_comment: String,
  pub honor_id: i64,
  pub display_play_data: Vec<FriendDisplayPlayData>,
  /// >= 100 disables Add Friend button
  pub user_friend_count: i32,
  /// >= 100 disables Add Friend button
  pub user_request_count: i32,
  /// Actual value is invisible to the client, >= 100 disables Add Friend button
  pub target_friend_count: i32,
  /// Actual value is invisible to the client, >= 100 disables Add Friend button
  pub target_request_received_count: i32,
  pub friend_status: FriendStatus,
  /// Shoshinsha mark 🔰
  pub first: bool,
  pub mute: bool,
  /// 0 - none, 1 - has greeted, 2 - has messaged
  pub greeting_status: i32,
  pub greeting_sent_count: i32,
}

#[derive(Debug, Clone, Copy)]
pub enum FriendStatus {
  /// Not sure if this is a defined behavior, but any out of range value will hide friend related buttons.
  Disabled,
  Unrelated,
  OutgoingRequest,
  IncomingRequest,
  Friends,
}

pub struct FriendDisplayPlayData {
  pub kind: i32,
  pub value: i64,
}

#[derive(Debug)]
pub struct FriendInfoRequest {
  pub friend_user_no: i64,
}

#[derive(Debug)]
pub struct FriendMuteRequest {
  pub friend_user_no: i64,
}

#[derive(Debug)]
pub struct FriendRemoveRequest {
  pub friend_user_no: i64,
}

#[derive(Debug)]
pub struct FriendRequestRequest {
  pub friend_user_no: i64,
}

pub struct FriendSearch {
  pub user_no: String,
  pub user_icon: i64,
  pub user_name: String,
  pub profile_comment: String,
  pub honor_id: i64,
  pub display_play_data: Vec<FriendDisplayPlayData>,
  pub user_friend_count: i32,
  pub user_request_count: i32,
  pub target_friend_count: i32,
  pub target_request_received_count: i32,
  pub friend_status: FriendStatus,
  pub first: bool,
  pub mute: bool,
  /// 0 - none, 1 - has greeted, 2 - has messaged
  pub greeting_status: i32,
  pub greeting_sent_count: i32,
}

#[derive(Debug)]
pub struct FriendSearchRequest {
  pub friend_user_no: i64,
}

impl CallCustom for FriendList {}

impl CallCustom for GreetingList {}

impl CallCustom for FriendRecommendationList {}

impl CallCustom for GreetingSend {}

impl CallCustom for FriendInfo {}

impl CallCustom for FriendSearch {}

impl FriendListSortType {
    pub open spec fn spec_code(self) -> i32 {
        match self {
            FriendListSortType::LatestLoginDescending => 0,
            FriendListSortType::LatestLoginAscending => 1,
        }
    }

    /// The sort order a request names.
    pub fn of_code(code: i32) -> (r: Option<Self>)
        ensures
            r matches Some(t) ==> t.spec_code() == code,
            r is None ==> code != 0 && code != 1,
    {
        if code == 0 {
            Some(FriendListSortType::LatestLoginDescending)
        } else if code == 1 {
            Some(FriendListSortType::LatestLoginAscending)
        } else {
            None
        }
    }
}

impl FriendListKind {
    pub open spec fn spec_code(self) -> i32 {
        match self {
            FriendListKind::SentRequests => 1,
            FriendListKind::PendingApproval => 2,
            FriendListKind::Friends => 3,
        }
    }

    /// The list a request names.
    pub fn of_code(code: i32) -> (r: Option<Self>)
        ensures
            r matches Some(t) ==> t.spec_code() == code,
            r is None ==> !(1 <= code <= 3),
    {
        if code == 1 {
            Some(FriendListKind::SentRequests)
        } else if code == 2 {
            Some(FriendListKind::PendingApproval)
        } else if code == 3 {
            Some(FriendListKind::Friends)
        } else {
            None
        }
    }
}

impl FriendRecommendationKind {
    pub open spec fn spec_code(self) -> i32 {
        match self {
            FriendRecommendationKind::RecommendedFirstFriends => 1,
            FriendRecommendationKind::SimilarlyRankedPlayers => 2,
        }
    }

    pub fn of_code(code: i32) -> (r: Option<Self>)
        ensures
            r matches Some(t) ==> t.spec_code() == code,
            r is None ==> code != 1 && code != 2,
    {
        if code == 1 {
            Some(FriendRecommendationKind::RecommendedFirstFriends)
        } else if code == 2 {
            Some(FriendRecommendationKind::SimilarlyRankedPlayers)
        } else {
            None
        }
    }
}

impl FriendStatus {
    /// The number the client reads; any number out of range hides the friend buttons.
    pub open spec fn spec_code(self) -> i32 {
        match self {
            FriendStatus::Disabled => -1i32,
            FriendStatus::Unrelated => 0i32,
            FriendStatus::OutgoingRequest => 1i32,
            FriendStatus::IncomingRequest => 2i32,
            FriendStatus::Friends => 3i32,
        }
    }

    pub fn code(self) -> (r: i32)
        ensures
            r == self.spec_code(),
    {
        match self {
            FriendStatus::Disabled => -1,
            FriendStatus::Unrelated => 0,
            FriendStatus::OutgoingRequest => 1,
            FriendStatus::IncomingRequest => 2,
            FriendStatus::Friends => 3,
        }
    }
}

impl FriendDisplayPlayData {
    pub fn new(kind: i32, value: i64) -> (r: Self)
        ensures
            r == (FriendDisplayPlayData { kind, value }),
    {
        Self { kind, value }
    }
}

/// Another user, as the friend screens read them.
pub struct FriendUserRow {
    pub id: i64,
    pub username: String,
    pub about_me: Option<String>,
    pub favorite_member: i64,
    pub honor: i64,
    /// When the user last used any device, in seconds since the epoch; the earliest time
    /// there is where they never did.
    pub last_access_time: i64,
    /// How far the user is through the tutorial; 99 is done.
    pub tutorial_progress: i32,
}

/// A user as a friend list shows them: rank 1, a first friend, not muted, not greeted, the
/// profile comment empty where there is none.
pub open spec fn friend_data_of(d: FriendData, row: FriendUserRow) -> bool {
    &&& d.user_no@ == int_text(row.id as int)
    &&& d.user_icon == row.favorite_member
    &&& d.user_name@ == row.username@
    &&& d.user_rank == 1
    &&& d.last_access_time == row.last_access_time
    &&& d.first
    &&& !d.mute
    &&& d.greeting_status == 0
    &&& d.profile_comment@ == (match row.about_me { Some(t) => t@, None => Seq::<char>::empty() })
    &&& d.honor_id == row.honor
}

fn comment_of(about_me: &Option<String>) -> (r: String)
    ensures
        r@ == (match about_me { Some(t) => t@, None => Seq::<char>::empty() }),
{
    match about_me {
        Some(t) => t.clone(),
        None => String::new(),
    }
}

/// A user the friend list can show to the caller: another user, through the tutorial.
pub open spec fn listable(u: FriendUserRow, caller_id: i64) -> bool {
    u.id != caller_id && u.tutorial_progress == 99
}

/// The users the friend list can show to the caller, in the order the store gives them.
pub open spec fn listable_users(users: Seq<FriendUserRow>, caller_id: i64) -> Seq<FriendUserRow>
    decreases users.len(),
{
    if users.len() == 0 {
        seq![]
    } else {
        let rest = listable_users(users.drop_last(), caller_id);
        if listable(users.last(), caller_id) { rest.push(users.last()) } else { rest }
    }
}

/// The most users a friend list shows: a hundred or more disables adding friends.
pub open spec fn friend_list_cap() -> int {
    99
}

/// The users the friend list shows: the first 99 that it can show.
pub open spec fn friend_rows(users: Seq<FriendUserRow>, caller_id: i64) -> Seq<FriendUserRow> {
    let c = listable_users(users, caller_id);
    if c.len() <= friend_list_cap() { c } else { c.take(friend_list_cap()) }
}

proof fn lemma_listable_users(users: Seq<FriendUserRow>, caller_id: i64)
    ensures
        listable_users(users, caller_id).len() <= users.len(),
        forall|k: int| 0 <= k < listable_users(users, caller_id).len() ==> listable(#[trigger] listable_users(users, caller_id)[k], caller_id),
    decreases users.len(),
{
    if users.len() > 0 {
        lemma_listable_users(users.drop_last(), caller_id);
    }
}

/// The friend list: of the caller's friends, the first 99 other users who are through the
/// tutorial, each at rank 1, a first friend, not muted, not greeted, the profile comment empty
/// where there is none; no one in the other lists. The caller is never listed.
pub fn friend_list(kind: FriendListKind, caller_id: i64, users: &Vec<FriendUserRow>) -> (r: FriendList)
    ensures
        r.greeting_sent_count == 0,
        !(kind is Friends) ==> r.friend_data@.len() == 0 && r.friend_count == 0,
        kind is Friends ==> r.friend_data@.len() == friend_rows(users@, caller_id).len()
            && r.friend_count == friend_rows(users@, caller_id).len()
            && forall|k: int| 0 <= k < r.friend_data@.len() ==> friend_data_of(#[trigger] r.friend_data@[k], friend_rows(users@, caller_id)[k]),
        0 <= r.friend_count <= friend_list_cap(),
        r.friend_count == r.friend_data@.len(),
        forall|k: int| 0 <= k < r.friend_data@.len() ==> (#[trigger] r.friend_data@[k]).user_no@ != int_text(caller_id as int),
{
    match kind {
        FriendListKind::Friends => {
            let mut friends: Vec<FriendData> = Vec::new();
            let ghost mut cands: Seq<FriendUserRow> = seq![];
            let mut k: usize = 0;
            while k < users.len()
                invariant
                    k <= users@.len(),
                    cands == listable_users(users@.take(k as int), caller_id),
                    friends@.len() == (if cands.len() <= 99 { cands.len() as int } else { 99 }),
                    forall|j: int| 0 <= j < friends@.len() ==> friend_data_of(#[trigger] friends@[j], cands[j]),
                decreases users@.len() - k,
            {
                assert(users@.take(k + 1).drop_last() =~= users@.take(k as int));
                assert(users@.take(k + 1).last() == users@[k as int]);
                let u = &users[k];
                if u.id != caller_id && u.tutorial_progress == 99 {
                    proof {
                        cands = cands.push(users@[k as int]);
                    }
                    if friends.len() < 99 {
                        friends.push(FriendData {
                            user_no: i64_text(u.id),
                            user_icon: u.favorite_member,
                            user_name: u.username.clone(),
                            user_rank: 1,
                            last_access_time: u.last_access_time,
                            first: true,
                            mute: false,
                            greeting_status: 0,
                            profile_comment: comment_of(&u.about_me),
                            honor_id: u.honor,
                        });
                    }
                }
                k = k + 1;
            }
            assert(users@.take(users@.len() as int) =~= users@);
            proof {
                lemma_listable_users(users@, caller_id);
                let rows = friend_rows(users@, caller_id);
                assert forall|j: int| 0 <= j < friends@.len() implies friend_data_of(#[trigger] friends@[j], rows[j]) by {
                    assert(rows[j] == cands[j]);
                }
                assert forall|j: int| 0 <= j < friends@.len() implies (#[trigger] friends@[j]).user_no@ != int_text(caller_id as int) by {
                    assert(rows[j] == cands[j]);
                    assert(listable(cands[j], caller_id));
                    law_int_text_parses(cands[j].id as int);
                    law_int_text_parses(caller_id as int);
                }
            }
            let count = friends.len() as i32;
            FriendList { friend_data: friends, friend_count: count, greeting_sent_count: 0 }
        },
        _ => FriendList { friend_data: Vec::new(), friend_count: 0, greeting_sent_count: 0 },
    }
}

/// What a friend's or a found user's profile shows of their play, as (kind, value): player
/// rank, characters in the gallery, party power, crowns, latest login, arena rank, affinity.
pub open spec fn display_play_data_spec(last_login: i64) -> Seq<FriendDisplayPlayData> {
    seq![
        FriendDisplayPlayData { kind: 1, value: 2 },
        FriendDisplayPlayData { kind: 4, value: 14 },
        FriendDisplayPlayData { kind: 2, value: 200 },
        FriendDisplayPlayData { kind: 3, value: 3 },
        FriendDisplayPlayData { kind: 5, value: last_login },
        FriendDisplayPlayData { kind: 6, value: 42 },
        FriendDisplayPlayData { kind: 7, value: 1 },
    ]
}

pub fn display_play_data(last_login: i64) -> (r: Vec<FriendDisplayPlayData>)
    ensures
        r@ == display_play_data_spec(last_login),
{
    let r = vec![
        FriendDisplayPlayData::new(1, 2),
        FriendDisplayPlayData::new(4, 14),
        FriendDisplayPlayData::new(2, 200),
        FriendDisplayPlayData::new(3, 3),
        FriendDisplayPlayData::new(5, last_login),
        FriendDisplayPlayData::new(6, 42),
        FriendDisplayPlayData::new(7, 1),
    ];
    assert(r@ =~= display_play_data_spec(last_login));
    r
}

/// A user's profile as a friend sees it.
pub fn friend_info(user: &FriendUserRow) -> (r: FriendInfo)
    ensures
        r.user_no@ == int_text(user.id as int),
        r.user_icon == user.favorite_member,
        r.user_name@ == user.username@,
        r.profile_comment@ == (match user.about_me { Some(t) => t@, None => Seq::<char>::empty() }),
        r.honor_id == user.honor,
        r.display_play_data@ == display_play_data_spec(user.last_access_time),
        r.user_friend_count == 99,
        r.user_request_count == 50,
        r.target_friend_count == 0,
        r.target_request_received_count == 0,
        r.friend_status == FriendStatus::Friends,
        r.first,
        !r.mute,
        r.greeting_status == 0,
        r.greeting_sent_count == 50,
{
    FriendInfo {
        user_no: i64_text(user.id),
        user_icon: user.favorite_member,
        user_name: user.username.clone(),
        profile_comment: comment_of(&user.about_me),
        honor_id: user.honor,
        display_play_data: display_play_data(user.last_access_time),
        user_friend_count: 99,
        user_request_count: 50,
        target_friend_count: 0,
        target_request_received_count: 0,
        friend_status: FriendStatus::Friends,
        first: true,
        mute: false,
        greeting_status: 0,
        greeting_sent_count: 50,
    }
}

/// The user a search finds: always the same stand-in, last seen now.
pub fn friend_search(now: i64) -> (r: FriendSearch)
    ensures
        r.user_no@ == "-1"@,
        r.user_icon == 1083110,
        r.user_name@ == "Megumin"@,
        r.profile_comment@ == "█████ a whole bunch of ████ so it will seem like I ████ ██████."@,
        r.honor_id == 62010250,
        r.display_play_data@ == display_play_data_spec(now),
        r.user_friend_count == 99,
        r.user_request_count == 50,
        r.target_friend_count == 0,
        r.target_request_received_count == 0,
        r.friend_status == FriendStatus::Friends,
        r.first,
        !r.mute,
        r.greeting_status == 0,
        r.greeting_sent_count == 50,
{
    FriendSearch {
        user_no: String::from_str("-1"),
        user_icon: 1083110,
        user_name: String::from_str("Megumin"),
        profile_comment: String::from_str("█████ a whole bunch of ████ so it will seem like I ████ ██████."),
        honor_id: 62010250,
        display_play_data: display_play_data(now),
        user_friend_count: 99,
        user_request_count: 50,
        target_friend_count: 0,
        target_request_received_count: 0,
        friend_status: FriendStatus::Friends,
        first: true,
        mute: false,
        greeting_status: 0,
        greeting_sent_count: 50,
    }
}

/// The chant a stand-in friend greets with.
pub open spec fn explosion_chant() -> Seq<char> {
    "Darkness blacker than black and darker than dark, I beseech thee, combine with my deep crimson.\nThe time of awakening cometh. Justice, fallen upon the infallible boundary, appear now as an\nintangible distortion! Dance, Dance, Dance! I desire for my torrent of power a destructive force:\na destructive force without equal! Return all creation to cinders, and come from the abyss!\nThis is the mightiest means of attack known to man, the ultimate attack magic! EXPLOSION!!\n"@
}

/// The greetings received: one, from a stand-in friend.
pub fn greeting_list() -> (r: GreetingList)
    ensures
        r.sent_count == 0,
        r.received_count == 1,
        r.greeting_count == 1,
        r.greeting_data@.len() == 1,
        r.greeting_data@[0].user_no@ == "-1"@,
        r.greeting_data@[0].user_icon == 1083110,
        r.greeting_data@[0].user_name@ == "Megumin"@,
        r.greeting_data@[0].message@ == explosion_chant(),
        r.greeting_data@[0].first,
{
    GreetingList {
        sent_count: 0,
        received_count: 1,
        greeting_data: vec![GreetingData {
            user_no: String::from_str("-1"),
            user_icon: 1083110,
            user_name: String::from_str("Megumin"),
            message: String::from_str("Darkness blacker than black and darker than dark, I beseech thee, combine with my deep crimson.\nThe time of awakening cometh. Justice, fallen upon the infallible boundary, appear now as an\nintangible distortion! Dance, Dance, Dance! I desire for my torrent of power a destructive force:\na destructive force without equal! Return all creation to cinders, and come from the abyss!\nThis is the mightiest means of attack known to man, the ultimate attack magic! EXPLOSION!!\n"),
            first: true,
        }],
        greeting_count: 1,
    }
}

/// The users recommended as friends: one stand-in.
pub fn friend_recommendation_list() -> (r: FriendRecommendationList)
    ensures
        r.friend_first_count == 0,
        r.friend_first_rank_total == 0,
        r.friend_count == 1,
        r.request_count == 0,
        r.friend_data@.len() == 1,
        r.friend_data@[0].user_no@ == "-1"@,
        r.friend_data@[0].user_icon == 1083110,
        r.friend_data@[0].user_name@ == "Yunyun"@,
        r.friend_data@[0].user_rank == 42,
        r.friend_data@[0].first,
        !r.mission_completed,
{
    FriendRecommendationList {
        friend_first_count: 0,
        friend_first_rank_total: 0,
        friend_count: 1,
        request_count: 0,
        friend_data: vec![FriendRecommendation {
            user_no: String::from_str("-1"),
            user_icon: 1083110,
            user_name: String::from_str("Yunyun"),
            user_rank: 42,
            first: true,
        }],
        mission_completed: false,
    }
}

/// The answer to sending greetings: no beef, one stand-in greeted.
pub fn greeting_send() -> (r: GreetingSend)
    ensures
        r.item_count == 0,
        r.send_data@.len() == 1,
        r.send_data@[0].user_no@ == "-1"@,
        r.send_data@[0].user_icon == 1083110,
        r.send_data@[0].user_name@ == "Megumin"@,
        r.send_data@[0].profile_comment@ == "Nah."@,
        r.send_data@[0].first,
{
    GreetingSend {
        item_count: 0,
        send_data: vec![GreetingSendData {
            user_no: String::from_str("-1"),
            user_icon: 1083110,
            user_name: String::from_str("Megumin"),
            profile_comment: String::from_str("Nah."),
            first: true,
        }],
    }
}

} // verus!
