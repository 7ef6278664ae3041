//! Credit purchase shapes.

use vstd::prelude::*;

verus! {

#[derive(Clone, Debug)]
pub struct CreditProductResponse {
    pub id: String,
    pub price_id: String,
    pub name: String,
    pub description: Option<String>,
    pub price_cents: i64,
    pub currency: String,
    pub credits_amount: i64,
}

#[derive(Clone, Debug)]
pub struct BuyCreditsRequest {
    pub price_id: String,
}

#[derive(Clone, Debug)]
pub struct BuyCreditsResponse {
    pub checkout_url: String,
}

} // verus!
