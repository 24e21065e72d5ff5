use vstd::prelude::*;
use crate::api::RemoteData;
use crate::api::quest::{find_last_with, last_with, has_row_with};
use crate::api::quest::quest_fame::{ids_where, ids_where_exec, where_readable};
use crate::blob::{plain_entry, DeleteMember, IntoRemoteData};
use crate::master::{field_i32, rows_view, FieldsView, MasterRow};

verus! {

#[derive(Debug)]
pub struct ExchangeList {
  pub exchange_master_id: i32,
  pub items: Vec<ExchangeItem>,
}

#[derive(Debug)]
pub struct ExchangeItem {
  pub exchange_reward_master_id: i32,
  pub limit: i32,
  pub exchange_num: i32,
}

#[derive(Debug)]
pub struct ExchangeListRequest {
  pub exchange_master_id: i32,
}

#[derive(Debug)]
pub struct LeaveMembersRequest {
  pub ids: Vec<i64>,
}

#[derive(Debug)]
pub struct ExchangeRequest {
  pub exchange_reward_master_id: i32,
  pub num: i32,
}

/// The rewards of an exchange, each with a limit of a thousand and five hundred exchanged.
pub fn exchange_list(items: &Vec<MasterRow>, request: &ExchangeListRequest) -> (r: ExchangeList)
    requires
        where_readable(rows_view(items@), "exchange_id"@, request.exchange_master_id),
    ensures
        r.exchange_master_id == request.exchange_master_id,
        r.items@.len() == ids_where(rows_view(items@), "exchange_id"@, request.exchange_master_id).len(),
        forall|k: int| 0 <= k < r.items@.len() ==> #[trigger] r.items@[k] == (ExchangeItem {
            exchange_reward_master_id: ids_where(rows_view(items@), "exchange_id"@, request.exchange_master_id)[k],
            limit: 1000,
            exchange_num: 500,
        }),
{
    let ids = ids_where_exec(items, "exchange_id", request.exchange_master_id);
    let mut out: Vec<ExchangeItem> = Vec::new();
    let mut k: usize = 0;
    while k < ids.len()
        invariant
            k <= ids@.len(),
            out@.len() == k,
            forall|j: int| 0 <= j < k ==> #[trigger] out@[j] == (ExchangeItem { exchange_reward_master_id: ids@[j], limit: 1000, exchange_num: 500 }),
        decreases ids@.len() - k,
    {
        out.push(ExchangeItem { exchange_reward_master_id: ids[k], limit: 1000, exchange_num: 500 });
        k = k + 1;
    }
    ExchangeList { exchange_master_id: request.exchange_master_id, items: out }
}

/// A reserve member that was let go: its unique id, its member id and its rarity.
#[derive(Debug, Clone, Copy)]
pub struct LeftMember {
    pub id: i64,
    pub member_id: i64,
    pub rarity: i32,
}

/// Why letting members go failed.
#[derive(Debug, Clone, Copy, PartialEq, Eq)]
pub enum LeaveMembersError {
    /// No medal rate is listed for a member's rarity.
    NoMedalRate(i32),
}

/// Every row of `member_medal_rate` has a rarity and a medal count that read.
pub open spec fn medal_rates_readable(rates: Seq<FieldsView>) -> bool {
    forall|i: int| 0 <= i < rates.len() ==>
        (#[trigger] field_i32(rates[i], "rare"@)) is Some && field_i32(rates[i], "medal_rate"@) is Some
}

/// The medals a member of the rarity is worth: those of the last rate row for the rarity.
pub open spec fn medals_for(rates: Seq<FieldsView>, rarity: i32) -> i32 {
    field_i32(rates[last_with(rates, "rare"@, rarity)], "medal_rate"@).unwrap()
}

/// The medals of the first `n` members.
pub open spec fn medal_total(rates: Seq<FieldsView>, left: Seq<LeftMember>, n: int) -> int
    decreases n,
{
    if n <= 0 { 0 } else { medal_total(rates, left, n - 1) + medals_for(rates, left[n - 1].rarity) }
}

/// The first `n` members have medal rates.
pub open spec fn rated_upto(rates: Seq<FieldsView>, left: Seq<LeftMember>, n: int) -> bool {
    forall|k: int| 0 <= k < n ==> has_row_with(rates, "rare"@, (#[trigger] left[k]).rarity)
}

/// The running medal count stays an `i32` while members have rates.
pub open spec fn medal_totals_fit(rates: Seq<FieldsView>, left: Seq<LeftMember>) -> bool {
    forall|n: int| 0 <= n <= left.len() && rated_upto(rates, left, n) ==>
        i32::MIN <= #[trigger] medal_total(rates, left, n) <= i32::MAX
}

/// What letting reserve members go sends back: each member deleted, in order, and the medals
/// they are worth; or the rarity of the first member with no medal rate.
pub fn leave_members(left: &Vec<LeftMember>, rates: &Vec<MasterRow>) -> (r: Result<(Vec<RemoteData>, i32), LeaveMembersError>)
    requires
        medal_rates_readable(rows_view(rates@)),
        medal_totals_fit(rows_view(rates@), left@),
    ensures
        r is Ok <==> rated_upto(rows_view(rates@), left@, left@.len() as int),
        r matches Ok((remote, total)) ==> {
            &&& remote@.len() == left@.len()
            &&& forall|k: int| 0 <= k < left@.len() ==>
                plain_entry(2, 4, left@[k].member_id, 1, left@[k].id as i32, 0, "back"@, #[trigger] remote@[k])
            &&& total == medal_total(rows_view(rates@), left@, left@.len() as int)
        },
        r matches Err(LeaveMembersError::NoMedalRate(rarity)) ==> exists|k: int| {
            &&& 0 <= k < left@.len()
            &&& rated_upto(rows_view(rates@), left@, k)
            &&& (#[trigger] left@[k]).rarity == rarity
            &&& !has_row_with(rows_view(rates@), "rare"@, rarity)
        },
{
    let ghost rv = rows_view(rates@);
    let mut remote: Vec<RemoteData> = Vec::new();
    let mut total: i32 = 0;
    let mut k: usize = 0;
    while k < left.len()
        invariant
            k <= left@.len(),
            rv == rows_view(rates@),
            medal_rates_readable(rv),
            medal_totals_fit(rv, left@),
            rated_upto(rv, left@, k as int),
            total == medal_total(rv, left@, k as int),
            remote@.len() == k,
            forall|j: int| 0 <= j < k ==> plain_entry(2, 4, left@[j].member_id, 1, left@[j].id as i32, 0, "back"@, #[trigger] remote@[j]),
        decreases left@.len() - k,
    {
        let m = left[k];
        match find_last_with(rates, "rare", m.rarity) {
            None => {
                return Err(LeaveMembersError::NoMedalRate(m.rarity));
            },
            Some(j) => {
                assert(rv[j as int] == rates@[j as int]@);
                assert(field_i32(rv[j as int], "rare"@) is Some);
                let medals = match rates[j].get_i32("medal_rate") {
                    Some(v) => v,
                    None => 0,
                };
                assert(rated_upto(rv, left@, k + 1));
                assert(medal_total(rv, left@, k + 1) == medal_total(rv, left@, k as int) + medals);
                assert(i32::MIN <= medal_total(rv, left@, k + 1) <= i32::MAX);
                total = total + medals;
                let mut entries = DeleteMember::new(m.id, m.member_id).into_remote_data();
                remote.append(&mut entries);
            },
        }
        k = k + 1;
    }
    Ok((remote, total))
}

} // verus!
