use vstd::prelude::*;

verus! {

#[derive(Debug)]
pub struct PurchaseGoogleLimitedProductsStatus {
  pub product_list: Vec<GoogleLimitedProductStatus>,
}

#[derive(Debug)]
pub struct GoogleLimitedProductStatus {
  pub external_id: String,
  pub purchasable_amount: i32,
  pub end_at: String,
}

#[derive(Debug)]
pub struct PurchaseGoogleChargeStatusRequest {
  pub product_id: String,
}

#[derive(Debug)]
pub struct PurchaseGoogleChargeStatus {
  pub charge_total: i32,
}

/// The limited products on sale: none.
pub fn purchase_google_limited_products_status() -> (r: PurchaseGoogleLimitedProductsStatus)
    ensures
        r.product_list@.len() == 0,
{
    PurchaseGoogleLimitedProductsStatus { product_list: Vec::new() }
}

/// What the player has been charged for a product: 2112, whatever the product.
pub fn purchase_google_charge_status(request: &PurchaseGoogleChargeStatusRequest) -> (r: PurchaseGoogleChargeStatus)
    ensures
        r.charge_total == 2112,
{
    PurchaseGoogleChargeStatus { charge_total: 2112 }
}

} // verus!
