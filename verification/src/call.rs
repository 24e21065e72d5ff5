//! The envelope of every API response: status, server time, remote data and notifications.

use vstd::prelude::*;

use crate::api::{NotificationData, RemoteData};

verus! {

/// The claims of the JWT the client sends with every call.
#[derive(Debug, Clone)]
pub struct CallMeta {
    pub cs: String,
    pub uk: Option<String>,
}

/// The query parameters of an API call.
#[derive(Debug, Clone)]
pub struct ApiCallParams {
    pub user_id: Option<i64>,
}

/// A method-specific response body, flattened into the envelope.
pub trait CallCustom {}

impl CallCustom for () {}

pub const STATUS_ERROR: i32 = -100;

pub const STATUS_MAINTENANCE: i32 = -102;

pub const STATUS_QUARTZ_NOT_ENOUGH: i32 = -110;

pub const STATUS_LOGIN_TRANSFER_WRONG_KEY: i32 = -104;

/// Logs the user out
pub const STATUS_LOGIN_TRANSFER_SAME: i32 = -169;

/// Account was transferred, no longer available on this device
pub const STATUS_LOGIN_TRANSFER_DONE: i32 = -1013;

/// Cannot transfer account
pub const STATUS_LOGIN_TRANSFER_LOCAL_ACCOUNT_PRESENT: i32 = -178;

pub const STATUS_ACCOUNT_RESTRICTED: i32 = -903;

pub const STATUS_NEW_DATA_AVAILABLE: i32 = -901;

pub const STATUS_APP_UPDATE_REQUIRED: i32 = -900;

/// The response envelope. `time` is the server's clock in seconds since the Unix epoch.
#[derive(Debug)]
pub struct CallResponse<T> {
    pub status: i32,
    pub time: Option<u32>,
    pub remote: Vec<RemoteData>,
    pub notifications: Vec<NotificationData>,
    pub custom: T,
}

/// The current time in whole seconds since the Unix epoch:
/// `SystemTime::now().duration_since(UNIX_EPOCH)`, as the clock reads it; `None` where the
/// clock reads a time before the epoch. Nothing is stated of the value: it is the machine's
/// clock.
#[verifier::external_body]
pub(crate) fn unix_time_now() -> (t: Option<u64>) {
    match std::time::SystemTime::now().duration_since(std::time::UNIX_EPOCH) {
        Ok(d) => Some(d.as_secs()),
        Err(_) => None,
    }
}

/// The server time a response carries: the clock's seconds wrapped into 32 bits, or none
/// where the clock reads a time before the epoch.
fn response_time() -> (t: Option<u32>) {
    match unix_time_now() {
        Some(secs) => {
            #[verifier::truncate]
            let t = secs as u32;
            Some(t)
        },
        None => None,
    }
}

impl<T> CallResponse<T> {
    /// A response with the given status and server time, no remote data and no notifications.
    pub fn at_time(status: i32, time: u32, custom: T) -> (r: Self)
        ensures
            r.status == status,
            r.time == Some(time),
            r.remote@.len() == 0,
            r.notifications@.len() == 0,
            r.custom == custom,
    {
        Self { status, time: Some(time), remote: Vec::new(), notifications: Vec::new(), custom }
    }

    /// A successful response stamped with the current time.
    pub fn new_success(custom: T) -> (r: Self)
        ensures
            r.status == 0,
            r.remote@.len() == 0,
            r.notifications@.len() == 0,
            r.custom == custom,
    {
        Self::new_custom(0, custom)
    }

    /// A response with the given status, stamped with the current time.
    pub fn new_custom(status: i32, custom: T) -> (r: Self)
        ensures
            r.status == status,
            r.remote@.len() == 0,
            r.notifications@.len() == 0,
            r.custom == custom,
    {
        Self { status, time: response_time(), remote: Vec::new(), notifications: Vec::new(), custom }
    }

    /// Appends remote data after what the response already carries.
    pub fn add_remote_data(&mut self, remote_data: Vec<RemoteData>)
        ensures
            final(self).remote@ == old(self).remote@ + remote_data@,
            final(self).notifications@ == old(self).notifications@,
            final(self).status == old(self).status,
            final(self).time == old(self).time,
            final(self).custom == old(self).custom,
    {
        let mut remote_data = remote_data;
        self.remote.append(&mut remote_data);
    }

    /// Appends notifications after what the response already carries.
    pub fn add_notifications(&mut self, notifications: Vec<NotificationData>)
        ensures
            final(self).notifications@ == old(self).notifications@ + notifications@,
            final(self).remote@ == old(self).remote@,
            final(self).status == old(self).status,
            final(self).time == old(self).time,
            final(self).custom == old(self).custom,
    {
        let mut notifications = notifications;
        self.notifications.append(&mut notifications);
    }
}

impl CallResponse<()> {
    /// A successful response with an empty body.
    pub fn new_success_empty() -> (r: Self)
        ensures
            r.status == 0,
            r.remote@.len() == 0,
            r.notifications@.len() == 0,
    {
        Self::new_success(())
    }
}

} // verus!
