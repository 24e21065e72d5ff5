use vstd::prelude::*;
use crate::handler::HandlerResponse;

use base64::Engine;

use crate::api::NotificationData;
use crate::build_info::BuildInfo;
use crate::call::{CallCustom, CallResponse};
use crate::protocol::{hex_encode, hex_encoded};
use crate::text::{i64_text, int_text};

verus! {

#[derive(Debug)]
pub struct Login {
  pub user_no: String,
  pub user_key: String,
  pub user_name: String,
  pub tutorial: i32,
  pub created_at: String,
}

impl CallCustom for Login {}

#[derive(Debug, Clone, Copy)]
pub enum TutorialState {
  Story,
  Battle,
  Gacha,
  /// Client sets it only after username was already set, so it is never actually used.
  SetName,
  Completed,
}

impl TutorialState {
    /// The number the client stores for the state.
    pub open spec fn spec_code(self) -> u8 {
        match self {
            TutorialState::Story => 0,
            TutorialState::Battle => 1,
            TutorialState::Gacha => 2,
            TutorialState::SetName => 4,
            TutorialState::Completed => 99,
        }
    }

    pub fn code(self) -> (r: u8)
        ensures
            r == self.spec_code(),
    {
        match self {
            TutorialState::Story => 0,
            TutorialState::Battle => 1,
            TutorialState::Gacha => 2,
            TutorialState::SetName => 4,
            TutorialState::Completed => 99,
        }
    }

    /// The state a stored number stands for.
    pub fn of_code(code: u8) -> (r: Option<TutorialState>)
        ensures
            r matches Some(s) ==> s.spec_code() == code,
            r is None ==> forall|s: TutorialState| s.spec_code() != code,
    {
        match code {
            0 => Some(TutorialState::Story),
            1 => Some(TutorialState::Battle),
            2 => Some(TutorialState::Gacha),
            4 => Some(TutorialState::SetName),
            99 => Some(TutorialState::Completed),
            _ => None,
        }
    }
}

#[derive(Debug)]
pub struct LoginRequestRequest {
  pub uuid: String,
  pub device_name: Option<String>,
  pub os: Option<String>,
  pub game_version: Option<String>,
  pub language: Option<String>,
  pub country: Option<String>,
}

/// What `BASE64_STANDARD_NO_PAD.encode` gives for some bytes.
pub uninterp spec fn base64_no_pad_encoded(data: Seq<u8>) -> Seq<char>;

/// What `DateTime::<Utc>::from_timestamp(secs, 0)` formats to with `%Y-%m-%d %H:%M:%S`,
/// where the seconds are within the range of dates chrono holds.
pub uninterp spec fn utc_timestamp_text(secs: int) -> Option<Seq<char>>;

/// `BASE64_STANDARD_NO_PAD.encode` of the base64 crate. The text is named; what is stated of
/// it is that it decodes back to the bytes.
#[verifier::external_body]
pub(crate) fn base64_no_pad_encode(data: &[u8]) -> (r: String)
    ensures
        r@ == base64_no_pad_encoded(data@),
        crate::protocol::base64_no_pad_decoded(vstd::utf8::encode_utf8(r@)) == Some(data@),
{
    base64::prelude::BASE64_STANDARD_NO_PAD.encode(data)
}

/// `DateTime::<Utc>::from_timestamp(secs, 0)` of chrono, formatted `%Y-%m-%d %H:%M:%S`;
/// `None` where chrono holds no date that far out.
#[verifier::external_body]
pub(crate) fn format_utc_timestamp(secs: i64) -> (r: Option<String>)
    ensures
        r matches Some(t) ==> utc_timestamp_text(secs as int) == Some(t@),
        r is None ==> utc_timestamp_text(secs as int) is None,
{
    chrono::DateTime::<chrono::Utc>::from_timestamp(secs, 0).map(|d| d.format("%Y-%m-%d %H:%M:%S").to_string())
}

/// The name the client shows for a user who has none yet.
pub open spec fn shown_user_name(username: Option<Seq<char>>) -> Seq<char> {
    match username {
        Some(n) => n,
        None => "---"@,
    }
}

/// The login answer for a user: their number, their new key in hex, their name (or `---`)
/// in unpadded base64, their tutorial progress and when the account was made (seconds since
/// the Unix epoch), as UTC text. `None` where chrono holds no date that far out.
pub fn login_info(user_id: i64, user_key: &[u8], username: &Option<String>, tutorial: i32, created_at: i64) -> (r: Option<Login>)
    ensures
        r is None <==> utc_timestamp_text(created_at as int) is None,
        r matches Some(l) ==> {
            &&& l.user_no@ == int_text(user_id as int)
            &&& l.user_key@ == hex_encoded(user_key@)
            &&& l.user_name@ == base64_no_pad_encoded(vstd::utf8::encode_utf8(shown_user_name(crate::protocol::option_view(*username))))
            &&& l.tutorial == tutorial
            &&& utc_timestamp_text(created_at as int) == Some(l.created_at@)
        },
{
    let created = match format_utc_timestamp(created_at) {
        Some(t) => t,
        None => return None,
    };
    let name: &str = match username {
        Some(n) => n.as_str(),
        None => "---",
    };
    Some(Login {
        user_no: i64_text(user_id),
        user_key: hex_encode(user_key),
        user_name: base64_no_pad_encode(name.as_bytes()),
        tutorial,
        created_at: created,
    })
}

/// The notifications every login carries: badges, jobs, events, as
/// (cmd, kind, key, value, msgkey, tag).
pub open spec fn login_notification_table() -> Seq<(i32, i32, i32, i32, Seq<char>, Seq<char>)> {
    seq![
        (1i32, 7i32, 6i32, 0i32, ""@, ""@),
        (1i32, 8i32, 0i32, 0i32, ""@, ""@),
        (1i32, 7i32, 14i32, 1i32, ""@, ""@),
        (1i32, 7i32, 14i32, 1i32, ""@, ""@),
        (1i32, 7i32, 14i32, 1i32, ""@, ""@),
        (1i32, 7i32, 14i32, 1i32, ""@, ""@),
        (1i32, 6i32, 1i32, 30030001i32, ""@, ""@),
        (1i32, 10i32, 230731i32, 52307325i32, ""@, ""@),
        (1i32, 10i32, 230831i32, 52308305i32, ""@, ""@),
        (1i32, 12i32, 19i32, 200012i32, ""@, ""@),
        (1i32, 12i32, 19i32, 410535i32, ""@, ""@),
        (1i32, 12i32, 19i32, 410536i32, ""@, ""@),
        (1i32, 12i32, 19i32, 410553i32, ""@, ""@),
        (1i32, 12i32, 19i32, 410123i32, ""@, ""@),
        (1i32, 12i32, 19i32, 410436i32, ""@, ""@),
        (1i32, 12i32, 19i32, 410565i32, ""@, ""@),
        (1i32, 12i32, 19i32, 410433i32, ""@, ""@),
        (1i32, 12i32, 19i32, 410564i32, ""@, ""@),
        (1i32, 12i32, 19i32, 410554i32, ""@, ""@),
        (1i32, 12i32, 19i32, 410554i32, ""@, ""@),
        (1i32, 12i32, 19i32, 410554i32, ""@, ""@),
        (1i32, 12i32, 19i32, 410554i32, ""@, ""@),
        (1i32, 12i32, 19i32, 410554i32, ""@, ""@),
        (1i32, 14i32, 21i32, 11003i32, ""@, ""@),
        (1i32, 14i32, 21i32, 31015i32, ""@, ""@),
        (1i32, 14i32, 21i32, 31016i32, ""@, ""@),
        (1i32, 14i32, 21i32, 31017i32, ""@, ""@),
        (1i32, 16i32, 1i32, 0i32, ""@, ""@),
        (1i32, 15i32, 1i32, 0i32, ""@, ""@),
        (1i32, 23i32, 3i32, 1i32, ""@, ""@),
        (1i32, 25i32, 3i32, 0i32, "0"@, ""@),
        (1i32, 14i32, 4i32, 1722609570i32, ""@, ""@),
        (1i32, 19i32, 5i32, 1722620388i32, ""@, "100"@),
        (1i32, 19i32, 5i32, 1722620388i32, ""@, "101"@),
        (1i32, 19i32, 5i32, 1722620388i32, ""@, "102"@),
        (1i32, 19i32, 5i32, 1722620388i32, ""@, "103"@),
        (1i32, 19i32, 5i32, 1722620388i32, ""@, "104"@),
        (1i32, 19i32, 5i32, 1722620388i32, ""@, "105"@),
        (1i32, 19i32, 5i32, 1722620388i32, ""@, "106"@),
        (1i32, 19i32, 5i32, 1722620388i32, ""@, "107"@),
        (1i32, 19i32, 5i32, 0i32, ""@, "23083"@),
        (1i32, 19i32, 5i32, 1722620388i32, ""@, "50081"@),
        (1i32, 7i32, 23i32, 1i32, "[\"12209\",\"12206\",\"12204\",\"12203\",\"12205\",\"12207\",\"12208\",\"12210\",\"12211\",\"12212\",\"12320\",\"12900\",\"12100\",\"12200\",\"12300\",\"12310\"]"@, ""@),
        (1i32, 7i32, 401i32, 0i32, ""@, ""@),
        (1i32, 7i32, 4011i32, 0i32, ""@, ""@),
        (1i32, 7i32, 4012i32, 0i32, ""@, ""@),
        (1i32, 7i32, 15i32, 0i32, ""@, ""@),
        (1i32, 7i32, 16i32, 0i32, ""@, ""@),
        (1i32, 7i32, 18i32, 1722864558i32, ""@, ""@),
        (1i32, 7i32, 3i32, 2i32, ""@, ""@),
        (1i32, 7i32, 13i32, 7i32, ""@, ""@),
        (1i32, 7i32, 11i32, 0i32, ""@, ""@),
        (1i32, 7i32, 12i32, 0i32, ""@, ""@),
        (1i32, 7i32, 24i32, 0i32, ""@, ""@),
        (1i32, 7i32, 14i32, 1i32, ""@, ""@),
        (1i32, 7i32, 1i32, 1i32, ""@, ""@),
        (1i32, 7i32, 25i32, 1i32, ""@, ""@),
        (1i32, 7i32, 2i32, 1i32, ""@, ""@),
        (1i32, 7i32, 3i32, 1i32, ""@, ""@),
        (1i32, 7i32, 4i32, 1i32, ""@, ""@),
        (1i32, 7i32, 5i32, 1i32, ""@, ""@),
        (1i32, 7i32, 6i32, 1i32, ""@, ""@),
        (1i32, 7i32, 7i32, 1i32, ""@, ""@),
        (1i32, 7i32, 13i32, 1i32, ""@, ""@),
        (1i32, 7i32, 26i32, 1i32, ""@, ""@),
        (1i32, 7i32, 43i32, 1i32, ""@, ""@),
        (1i32, 7i32, 45i32, 1i32, ""@, ""@),
        (1i32, 7i32, 46i32, 1i32, ""@, ""@)
    ]
}

/// The notifications of the table, in order.
pub open spec fn notifications_match(r: Seq<NotificationData>, t: Seq<(i32, i32, i32, i32, Seq<char>, Seq<char>)>) -> bool {
    &&& r.len() == t.len()
    &&& forall|k: int| 0 <= k < r.len() ==> {
        let e = t[k];
        &&& (#[trigger] r[k]).cmd == e.0
        &&& r[k].kind == e.1
        &&& r[k].key == e.2
        &&& r[k].value == e.3
        &&& r[k].msgkey@ == e.4
        &&& r[k].tag@ == e.5
    }
}

pub fn login_notifications() -> (r: Vec<NotificationData>)
    ensures
        notifications_match(r@, login_notification_table()),
{
    let table: Vec<(i32, i32, i32, i32, &str, &str)> = vec![
        (1, 7, 6, 0, "", ""),
        (1, 8, 0, 0, "", ""),
        (1, 7, 14, 1, "", ""),
        (1, 7, 14, 1, "", ""),
        (1, 7, 14, 1, "", ""),
        (1, 7, 14, 1, "", ""),
        (1, 6, 1, 30030001, "", ""),
        (1, 10, 230731, 52307325, "", ""),
        (1, 10, 230831, 52308305, "", ""),
        (1, 12, 19, 200012, "", ""),
        (1, 12, 19, 410535, "", ""),
        (1, 12, 19, 410536, "", ""),
        (1, 12, 19, 410553, "", ""),
        (1, 12, 19, 410123, "", ""),
        (1, 12, 19, 410436, "", ""),
        (1, 12, 19, 410565, "", ""),
        (1, 12, 19, 410433, "", ""),
        (1, 12, 19, 410564, "", ""),
        (1, 12, 19, 410554, "", ""),
        (1, 12, 19, 410554, "", ""),
        (1, 12, 19, 410554, "", ""),
        (1, 12, 19, 410554, "", ""),
        (1, 12, 19, 410554, "", ""),
        (1, 14, 21, 11003, "", ""),
        (1, 14, 21, 31015, "", ""),
        (1, 14, 21, 31016, "", ""),
        (1, 14, 21, 31017, "", ""),
        (1, 16, 1, 0, "", ""),
        (1, 15, 1, 0, "", ""),
        (1, 23, 3, 1, "", ""),
        (1, 25, 3, 0, "0", ""),
        (1, 14, 4, 1722609570, "", ""),
        (1, 19, 5, 1722620388, "", "100"),
        (1, 19, 5, 1722620388, "", "101"),
        (1, 19, 5, 1722620388, "", "102"),
        (1, 19, 5, 1722620388, "", "103"),
        (1, 19, 5, 1722620388, "", "104"),
        (1, 19, 5, 1722620388, "", "105"),
        (1, 19, 5, 1722620388, "", "106"),
        (1, 19, 5, 1722620388, "", "107"),
        (1, 19, 5, 0, "", "23083"),
        (1, 19, 5, 1722620388, "", "50081"),
        (1, 7, 23, 1, "[\"12209\",\"12206\",\"12204\",\"12203\",\"12205\",\"12207\",\"12208\",\"12210\",\"12211\",\"12212\",\"12320\",\"12900\",\"12100\",\"12200\",\"12300\",\"12310\"]", ""),
        (1, 7, 401, 0, "", ""),
        (1, 7, 4011, 0, "", ""),
        (1, 7, 4012, 0, "", ""),
        (1, 7, 15, 0, "", ""),
        (1, 7, 16, 0, "", ""),
        (1, 7, 18, 1722864558, "", ""),
        (1, 7, 3, 2, "", ""),
        (1, 7, 13, 7, "", ""),
        (1, 7, 11, 0, "", ""),
        (1, 7, 12, 0, "", ""),
        (1, 7, 24, 0, "", ""),
        (1, 7, 14, 1, "", ""),
        (1, 7, 1, 1, "", ""),
        (1, 7, 25, 1, "", ""),
        (1, 7, 2, 1, "", ""),
        (1, 7, 3, 1, "", ""),
        (1, 7, 4, 1, "", ""),
        (1, 7, 5, 1, "", ""),
        (1, 7, 6, 1, "", ""),
        (1, 7, 7, 1, "", ""),
        (1, 7, 13, 1, "", ""),
        (1, 7, 26, 1, "", ""),
        (1, 7, 43, 1, "", ""),
        (1, 7, 45, 1, "", ""),
        (1, 7, 46, 1, "", "")
    ];
    let ghost t = login_notification_table();
    assert(table@.len() == t.len());
    assert forall|k: int| 0 <= k < table@.len() implies ({
        let x = #[trigger] table@[k];
        let e = t[k];
        x.0 == e.0 && x.1 == e.1 && x.2 == e.2 && x.3 == e.3 && x.4@ == e.4 && x.5@ == e.5
    }) by {}
    let mut r: Vec<NotificationData> = Vec::new();
    let mut k: usize = 0;
    while k < table.len()
        invariant
            k <= table@.len(),
            table@.len() == t.len(),
            t == login_notification_table(),
            forall|j: int| 0 <= j < table@.len() ==> ({
                let x = #[trigger] table@[j];
                let e = t[j];
                x.0 == e.0 && x.1 == e.1 && x.2 == e.2 && x.3 == e.3 && x.4@ == e.4 && x.5@ == e.5
            }),
            notifications_match(r@, t.subrange(0, k as int)),
        decreases table@.len() - k,
    {
        let (cmd, kind, key, value, msgkey, tag) = table[k];
        r.push(NotificationData::new(cmd, kind, key, value, msgkey.to_owned(), tag.to_owned()));
        k = k + 1;
        assert(r@[k - 1].msgkey@ == t[k - 1].4);
    }
    assert(t.subrange(0, table@.len() as int) =~= t);
    r
}

/// The version the server reports of itself: `axel/` and the first eight characters of the
/// commit, `-dirty` after them when the tree had changes, and ` (development build)` after
/// all of it for a debug build.
pub open spec fn server_version_spec(info: BuildInfo) -> Seq<char> {
    let n = if info.git_hash@.len() < 8 { info.git_hash@.len() as int } else { 8 };
    let hash = info.git_hash@.take(n);
    let revision = if info.git_dirty { hash + "-dirty"@ } else { hash };
    if info.profile@ == "debug"@ {
        "axel/"@ + revision + " (development build)"@
    } else {
        "axel/"@ + revision
    }
}

pub fn server_version(info: &BuildInfo) -> (r: String)
    ensures
        r@ == server_version_spec(*info),
{
    let chars = crate::text::chars_of(info.git_hash.as_str());
    let mut hash = String::new();
    let mut i: usize = 0;
    while i < chars.len() && i < 8
        invariant
            i <= chars@.len(),
            i <= 8,
            chars@ == info.git_hash@,
            hash@ == info.git_hash@.take(i as int),
        decreases chars@.len() - i,
    {
        crate::text::push_char(&mut hash, chars[i]);
        assert(info.git_hash@.take(i + 1) =~= info.git_hash@.take(i as int).push(chars@[i as int]));
        i = i + 1;
    }
    assert(hash@ =~= info.git_hash@.take(if info.git_hash@.len() < 8 { info.git_hash@.len() as int } else { 8 }));
    if info.git_dirty {
        crate::text::push_str(&mut hash, "-dirty");
    }
    let mut version = String::from_str("axel/");
    crate::text::push_str(&mut version, hash.as_str());
    if crate::master::str_eq(info.profile.as_str(), "debug") {
        crate::text::push_str(&mut version, " (development build)");
    }
    version
}

/// The login response, signed with the user's session: the login answer, the user's
/// parameters as remote data, the login notifications, and last the friend greeting that
/// carries the server's version (`server_version`).
pub fn login_response<S>(info: Login, remote: Vec<crate::api::RemoteData>, greeting: NotificationData, session: S, time: u32) -> (r: HandlerResponse<Login, S>)
    ensures
        r.signing_session == Some(session),
        r.response.status == 0,
        r.response.time == Some(time),
        r.response.remote@ == remote@,
        r.response.notifications@.len() == login_notification_table().len() + 1,
        notifications_match(r.response.notifications@.take(login_notification_table().len() as int), login_notification_table()),
        r.response.notifications@.last() == greeting,
        r.response.custom == info,
{
    let mut response = CallResponse::at_time(0, time, info);
    response.add_remote_data(remote);
    let mut notes = login_notifications();
    let ghost table = notes@;
    notes.push(greeting);
    response.add_notifications(notes);
    assert(response.notifications@.take(login_notification_table().len() as int) =~= table);
    HandlerResponse::signed(response, session)
}

} // verus!
