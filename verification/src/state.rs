//! The marketplace state: configuration, fixed-price listings, and the
//! explicit store handles threaded through every call.

use vstd::prelude::*;

use crate::asset::Coin;
use crate::expiration::{BlockInfo, Expiration};
use crate::order::{AuctionConfig, OrderComponents, OrderKey};
use crate::store::KeyedStore;

verus! {

/// The host-provided call context.
#[derive(Clone, Debug, PartialEq, Eq)]
pub struct Env {
    pub block: BlockInfo,
    /// The marketplace contract's own address.
    pub contract_address: String,
}

/// The sender of a call and the native funds attached to it.
#[derive(Clone, Debug, PartialEq, Eq)]
pub struct MessageInfo {
    pub sender: String,
    pub funds: Vec<Coin>,
}

/// Identity of a listing: the NFT contract and the token id.
pub type ListingKey = (String, String);

pub fn listing_key(contract_address: &String, token_id: &str) -> (r: ListingKey)
    ensures
        r@ == (contract_address@, token_id@),
{
    (contract_address.clone(), token_id.to_owned())
}

/// A fixed-price sale of one NFT.
#[derive(Clone, Debug, PartialEq, Eq)]
pub struct Listing {
    pub contract_address: String,
    pub token_id: String,
    pub auction_config: AuctionConfig,
    pub seller: String,
    pub buyer: Option<String>,
}

impl Listing {
    /// A listing is expired once the end marker of its fixed-price
    /// window has passed.
    pub open spec fn spec_is_expired(self, block: BlockInfo) -> bool {
        match self.auction_config {
            AuctionConfig::FixedPrice { end_time: Some(e), .. } => e.spec_is_expired(block),
            _ => false,
        }
    }

    pub fn is_expired(&self, block: &BlockInfo) -> (r: bool)
        ensures
            r == self.spec_is_expired(*block),
    {
        match &self.auction_config {
            AuctionConfig::FixedPrice { end_time: Some(e), .. } => e.is_expired(block),
            _ => false,
        }
    }

    /// A field-by-field copy whose equality with the original is known.
    pub fn duplicate(&self) -> (r: Self)
        ensures
            r == *self,
    {
        Listing {
            contract_address: self.contract_address.clone(),
            token_id: self.token_id.clone(),
            auction_config: self.auction_config.duplicate(),
            seller: self.seller.clone(),
            buyer: match &self.buyer {
                Some(b) => Some(b.clone()),
                None => None,
            },
        }
    }
}

/// Contract-wide configuration.
#[derive(Clone, Debug, PartialEq, Eq)]
pub struct Config {
    pub owner: String,
    /// The fungible token that offers are denominated in.
    pub vaura_address: String,
}

/// The marketplace with its explicit store handles: fixed-price
/// listings, reversed-role offers, and escrowed auctions.
pub struct MarketplaceContract {
    pub config: Config,
    pub listings: KeyedStore<ListingKey, Listing>,
    pub offers: KeyedStore<OrderKey, OrderComponents>,
    pub auctions: KeyedStore<OrderKey, OrderComponents>,
}

impl MarketplaceContract {
    /// All stores are well-formed maps.
    pub open spec fn wf(&self) -> bool {
        &&& self.listings.wf()
        &&& self.offers.wf()
        &&& self.auctions.wf()
    }

    pub fn new(owner: String, vaura_address: String) -> (r: Self)
        ensures
            r.wf(),
            r.config.owner == owner,
            r.config.vaura_address == vaura_address,
            r.listings@.len() == 0,
            r.offers@.len() == 0,
            r.auctions@.len() == 0,
    {
        MarketplaceContract {
            config: Config { owner, vaura_address },
            listings: KeyedStore::new(),
            offers: KeyedStore::new(),
            auctions: KeyedStore::new(),
        }
    }

    /// Whether an auction configuration is acceptable at creation: a
    /// fixed price must be nonzero, a buyout must exceed the start
    /// price, a given time window must be properly ordered, and a
    /// Dutch price must decay towards its floor (the price query clamps
    /// the linear decay at that floor).  The step percentage is not
    /// validated; the bid arithmetic handles any value.
    pub open spec fn spec_valid_auction_config(&self, auction_config: AuctionConfig) -> bool {
        match auction_config {
            AuctionConfig::FixedPrice { price, start_time, end_time } => {
                &&& price.amount != 0
                &&& match (start_time, end_time) {
                    (Some(s), Some(e)) => s.spec_lt(e),
                    _ => true,
                }
            },
            AuctionConfig::EnglishAuction {
                start_price,
                step_percentage,
                buyout_price,
                start_time,
                end_time,
            } => {
                &&& (buyout_price matches Some(b) ==> start_price.amount < b)
                &&& (start_time matches Some(s) ==> s.spec_lt(end_time))
            },
            AuctionConfig::DutchAuction { start_price, end_price, step_amount, start_time, end_time } => {
                &&& end_price <= start_price.amount
                &&& (start_time matches Some(s) ==> s.spec_lt(end_time))
            },
        }
    }

    pub fn validate_auction_config(&self, auction_config: &AuctionConfig) -> (r: bool)
        ensures
            r == self.spec_valid_auction_config(*auction_config),
    {
        match auction_config {
            AuctionConfig::FixedPrice { price, start_time, end_time } => {
                if price.amount == 0 {
                    return false;
                }
                match (start_time, end_time) {
                    (Some(s), Some(e)) => s.lt(e),
                    _ => true,
                }
            },
            AuctionConfig::EnglishAuction {
                start_price,
                step_percentage,
                buyout_price,
                start_time,
                end_time,
            } => {
                if let Some(b) = buyout_price {
                    if start_price.amount >= *b {
                        return false;
                    }
                }
                match start_time {
                    Some(s) => s.lt(end_time),
                    None => true,
                }
            },
            AuctionConfig::DutchAuction { start_price, end_price, step_amount, start_time, end_time } => {
                if *end_price > start_price.amount {
                    return false;
                }
                match start_time {
                    Some(s) => s.lt(end_time),
                    None => true,
                }
            },
        }
    }
}

} // verus!
