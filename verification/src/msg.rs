//! Response shapes of the marketplace queries, and the (empty) message
//! a migration carries.

use vstd::prelude::*;

use crate::order::OrderComponents;
use crate::state::Listing;

verus! {

#[derive(Clone, Copy, Debug, PartialEq, Eq, Structural)]
pub struct MigrateMsg {}

#[derive(Debug, PartialEq, Eq)]
pub struct ListingsResponse {
    pub listings: Vec<Listing>,
}

#[derive(Clone, Copy, Debug, PartialEq, Eq, Structural)]
pub struct ValidateResponse {
    pub valid: bool,
}

#[derive(Debug, PartialEq, Eq)]
pub struct OffersResponse {
    pub offers: Vec<OrderComponents>,
}

#[derive(Debug, PartialEq, Eq)]
pub struct AuctionsResponse {
    pub auctions: Vec<OrderComponents>,
}

} // verus!
