use vstd::prelude::*;

use crate::api::login::notifications_match;
use crate::api::{item_type_code, NotificationData, RemoteDataItemType};
use crate::call::CallResponse;

verus! {

#[derive(Debug)]
pub struct PresentList {
  pub presents: Vec<Present>,
}

#[derive(Debug)]
pub struct Present {
  pub id: i32,
  pub present_id: i32,
  pub senddate: i64,
  pub expireddate: i64,
  pub item_type: i32,
  /// Must be `1` even for singleton items.
  pub item_id: i64,
  pub item_num: i32,
  pub msg: String,
}

#[derive(Debug)]
pub struct PresentLogList {
  pub presents: Vec<PresentLog>,
}

#[derive(Debug)]
pub struct PresentLog {
  pub id: i32,
  pub present_id: i32,
  pub senddate: i64,
  pub recveddate: i64,
  pub item_type: i32,
  /// Must be `1` even for singleton items.
  pub item_id: i64,
  pub item_num: i32,
  pub msg: String,
}

#[derive(Debug)]
pub struct PresentGet {
  pub presents: Vec<PresentGetReceived>,
  pub unrecvpresents: Vec<PresentGetUnreceived>,
}

#[derive(Debug)]
pub struct PresentGetReceived {
  pub id: i32,
  pub present_id: i32,
  pub senddate: i64,
  pub expireddate: i64,
  pub item_type: i32,
  /// Must be `1` even for singleton items.
  pub item_id: i64,
  pub item_num: i32,
}

#[derive(Debug)]
pub struct PresentGetUnreceived {
  pub id: i32,
  pub present_id: i32,
  pub senddate: i64,
  pub expireddate: i64,
  pub item_type: i32,
  /// Must be `1` even for singleton items.
  pub item_id: i64,
  pub item_num: i32,
}

/// Seconds in a day.
pub const DAY_SECONDS: i64 = 86400;

/// A time far enough from the ends of `i64` that a week either side of it is still one.
pub open spec fn clock_in_range(now: i64) -> bool {
    i64::MIN + 7 * DAY_SECONDS <= now <= i64::MAX - 7 * DAY_SECONDS
}

/// The present box: one present of 10000 paid gems, sent a day before `now` and expiring three
/// days after it, with the notification that counts six presents.
pub fn present_list(now: i64) -> (r: CallResponse<PresentList>)
    requires
        clock_in_range(now),
    ensures
        r.status == 0,
        r.remote@.len() == 0,
        notifications_match(r.notifications@, seq![(1i32, 7i32, 2i32, 6i32, ""@, ""@)]),
        r.custom.presents@.len() == 1,
        r.custom.presents@[0].id == 28231780,
        r.custom.presents@[0].present_id == 48,
        r.custom.presents@[0].senddate == now - DAY_SECONDS,
        r.custom.presents@[0].expireddate == now + 3 * DAY_SECONDS,
        r.custom.presents@[0].item_type == item_type_code(RemoteDataItemType::RealMoney),
        r.custom.presents@[0].item_id == 1,
        r.custom.presents@[0].item_num == 10000,
        r.custom.presents@[0].msg@ == "skebob"@,
{
    let present = Present {
        id: 28231780,
        present_id: 48,
        senddate: now - DAY_SECONDS,
        expireddate: now + 3 * DAY_SECONDS,
        item_type: RemoteDataItemType::RealMoney.code(),
        item_id: 1,
        item_num: 10000,
        msg: String::from_str("skebob"),
    };
    let mut response = CallResponse::new_success(PresentList { presents: vec![present] });
    response.add_notifications(vec![NotificationData::new(1, 7, 2, 6, String::from_str(""), String::from_str(""))]);
    response
}

/// The present log: the same present of 10000 paid gems, sent a day before `now` and received
/// five minutes before it.
pub fn present_log_list(now: i64) -> (r: CallResponse<PresentLogList>)
    requires
        clock_in_range(now),
    ensures
        r.status == 0,
        r.remote@.len() == 0 && r.notifications@.len() == 0,
        r.custom.presents@.len() == 1,
        r.custom.presents@[0].id == 28231780,
        r.custom.presents@[0].present_id == 48,
        r.custom.presents@[0].senddate == now - DAY_SECONDS,
        r.custom.presents@[0].recveddate == now - 300,
        r.custom.presents@[0].item_type == item_type_code(RemoteDataItemType::RealMoney),
        r.custom.presents@[0].item_id == 1,
        r.custom.presents@[0].item_num == 10000,
        r.custom.presents@[0].msg@ == "skebob"@,
{
    let log = PresentLog {
        id: 28231780,
        present_id: 48,
        senddate: now - DAY_SECONDS,
        recveddate: now - 300,
        item_type: RemoteDataItemType::RealMoney.code(),
        item_id: 1,
        item_num: 10000,
        msg: String::from_str("skebob"),
    };
    CallResponse::new_success(PresentLogList { presents: vec![log] })
}

/// The notifications that follow taking presents.
pub open spec fn present_get_notifications() -> Seq<(i32, i32, i32, i32, Seq<char>, Seq<char>)> {
    seq![
        (1i32, 7i32, 3i32, 4i32, ""@, ""@),
        (1i32, 7i32, 13i32, 7i32, ""@, ""@),
        (1i32, 7i32, 34i32, 1i32, "show_button_new"@, ""@),
        (1i32, 6i32, 1i32, 30030001i32, ""@, ""@),
        (1i32, 10i32, 230731i32, 52307325i32, ""@, ""@),
        (1i32, 10i32, 230831i32, 52308305i32, ""@, ""@)
    ]
}

/// Taking presents, whichever were asked for: the gem present is received and 500 stamina
/// stays unreceived, both sent a day before `now` and expiring a week after it.
pub fn present_get(now: i64) -> (r: CallResponse<PresentGet>)
    requires
        clock_in_range(now),
    ensures
        r.status == 0,
        r.remote@.len() == 0,
        notifications_match(r.notifications@, present_get_notifications()),
        r.custom.presents@.len() == 1,
        r.custom.presents@[0] == (PresentGetReceived {
            id: 28231780,
            present_id: 48,
            senddate: (now - DAY_SECONDS) as i64,
            expireddate: (now + 7 * DAY_SECONDS) as i64,
            item_type: item_type_code(RemoteDataItemType::RealMoney),
            item_id: 1,
            item_num: 10000,
        }),
        r.custom.unrecvpresents@.len() == 1,
        r.custom.unrecvpresents@[0] == (PresentGetUnreceived {
            id: 28231781,
            present_id: 3,
            senddate: (now - DAY_SECONDS) as i64,
            expireddate: (now + 7 * DAY_SECONDS) as i64,
            item_type: item_type_code(RemoteDataItemType::Stamina),
            item_id: 1,
            item_num: 500,
        }),
{
    let received = PresentGetReceived {
        id: 28231780,
        present_id: 48,
        senddate: now - DAY_SECONDS,
        expireddate: now + 7 * DAY_SECONDS,
        item_type: RemoteDataItemType::RealMoney.code(),
        item_id: 1,
        item_num: 10000,
    };
    let unreceived = PresentGetUnreceived {
        id: 28231781,
        present_id: 3,
        senddate: now - DAY_SECONDS,
        expireddate: now + 7 * DAY_SECONDS,
        item_type: RemoteDataItemType::Stamina.code(),
        item_id: 1,
        item_num: 500,
    };
    let mut response = CallResponse::new_success(PresentGet { presents: vec![received], unrecvpresents: vec![unreceived] });
    response.add_notifications(vec![
        NotificationData::new(1, 7, 3, 4, String::from_str(""), String::from_str("")),
        NotificationData::new(1, 7, 13, 7, String::from_str(""), String::from_str("")),
        NotificationData::new(1, 7, 34, 1, String::from_str("show_button_new"), String::from_str("")),
        NotificationData::new(1, 6, 1, 30030001, String::from_str(""), String::from_str("")),
        NotificationData::new(1, 10, 230731, 52307325, String::from_str(""), String::from_str("")),
        NotificationData::new(1, 10, 230831, 52308305, String::from_str(""), String::from_str("")),
    ]);
    response
}

} // verus!
