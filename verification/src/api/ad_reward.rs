use vstd::prelude::*;

use crate::master::{column_i32, field_i32, read_column_i32, read_values_where, rows_view, values_readable, values_where, MasterRow};

verus! {

#[derive(Debug)]
pub struct AdvertisementRewardStatus {
  pub advertisement_data_list: Vec<AdvertisementData>,
}

#[derive(Debug)]
pub struct AdvertisementData {
  pub id: i32,
  pub reward_type: i32,
  pub status: i32,
}

#[derive(Debug)]
pub struct AdvertisementRewardStatusRequest {
  pub reward_type_list: Vec<i32>,
}

#[derive(Debug)]
pub struct ShopItemList {
  pub items: Vec<ShopItem>,
}

#[derive(Debug)]
pub struct ShopItem {
  pub shop_item_master_id: i32,
  pub interval_time: i32,
  pub buycount: i32,
}

#[derive(Debug)]
pub struct ShopItemListRequest {
  pub shop_master_id: i32,
}

#[derive(Debug)]
pub struct BuyResponse {
  pub buymoney: i32,
  pub buyrealmoney: i32,
  pub buyrealmoneyfree: i32,
  pub money: i32,
  pub realmoney: i32,
  pub realmoneyfree: i32,
}

#[derive(Debug)]
pub struct BuyRequest {
  pub money_type: i32,
  pub count: i32,
  pub shop_item_master_id: i32,
}

/// Every advertisement reward of the master, by id and reward type, none watched yet.
pub fn advertisement_reward_status(ad_rewards: &Vec<MasterRow>) -> (r: AdvertisementRewardStatus)
    requires
        forall|i: int| 0 <= i < ad_rewards@.len() ==> (#[trigger] field_i32(rows_view(ad_rewards@)[i], "id"@)) is Some,
        forall|i: int| 0 <= i < ad_rewards@.len() ==> (#[trigger] field_i32(rows_view(ad_rewards@)[i], "reward_type"@)) is Some,
    ensures
        r.advertisement_data_list@.len() == ad_rewards@.len(),
        forall|k: int| 0 <= k < ad_rewards@.len() ==> {
            let d = #[trigger] r.advertisement_data_list@[k];
            &&& d.id == column_i32(rows_view(ad_rewards@), "id"@)[k]
            &&& d.reward_type == column_i32(rows_view(ad_rewards@), "reward_type"@)[k]
            &&& d.status == 0
        },
{
    let ids = read_column_i32(ad_rewards, "id");
    let kinds = read_column_i32(ad_rewards, "reward_type");
    let mut list: Vec<AdvertisementData> = Vec::new();
    let mut i: usize = 0;
    while i < ids.len()
        invariant
            i <= ids@.len(),
            ids@.len() == kinds@.len(),
            list@.len() == i,
            forall|k: int| 0 <= k < i ==> {
                let d = #[trigger] list@[k];
                &&& d.id == ids@[k] && d.reward_type == kinds@[k] && d.status == 0
            },
        decreases ids@.len() - i,
    {
        list.push(AdvertisementData { id: ids[i], reward_type: kinds[i], status: 0 });
        i = i + 1;
    }
    AdvertisementRewardStatus { advertisement_data_list: list }
}

/// The items of a shop: one per item row of the shop, in order, never bought and with no
/// waiting time.
pub fn shop_item_list(shop_items: &Vec<MasterRow>, request: &ShopItemListRequest) -> (r: ShopItemList)
    requires
        values_readable(rows_view(shop_items@), "shop_id"@, request.shop_master_id, "id"@),
    ensures
        r.items@.len() == values_where(rows_view(shop_items@), "shop_id"@, request.shop_master_id, "id"@).len(),
        forall|k: int| 0 <= k < r.items@.len() ==> {
            let it = #[trigger] r.items@[k];
            &&& it.shop_item_master_id == values_where(rows_view(shop_items@), "shop_id"@, request.shop_master_id, "id"@)[k]
            &&& it.interval_time == 0 && it.buycount == 0
        },
{
    let ids = read_values_where(shop_items, "shop_id", request.shop_master_id, "id");
    let mut items: Vec<ShopItem> = Vec::new();
    let mut i: usize = 0;
    while i < ids.len()
        invariant
            i <= ids@.len(),
            items@.len() == i,
            forall|k: int| 0 <= k < i ==> {
                let it = #[trigger] items@[k];
                &&& it.shop_item_master_id == ids@[k] && it.interval_time == 0 && it.buycount == 0
            },
        decreases ids@.len() - i,
    {
        items.push(ShopItem { shop_item_master_id: ids[i], interval_time: 0, buycount: 0 });
        i = i + 1;
    }
    ShopItemList { items }
}

/// A purchase from a shop: nothing is spent and nothing is left.
pub fn buy(request: &BuyRequest) -> (r: BuyResponse)
    ensures
        r.buymoney == 0 && r.buyrealmoney == 0 && r.buyrealmoneyfree == 0,
        r.money == 0 && r.realmoney == 0 && r.realmoneyfree == 0,
{
    BuyResponse { buymoney: 0, buyrealmoney: 0, buyrealmoneyfree: 0, money: 0, realmoney: 0, realmoneyfree: 0 }
}

} // verus!
