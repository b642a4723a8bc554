//! The order model: a uniform trade descriptor for listings, offers and
//! auctions.  An order pairs exactly one offer leg (what the offerer puts
//! up) with exactly one consideration leg (what is expected in return),
//! inside an optional time window.

use vstd::prelude::*;

use crate::asset::{Asset, Coin, ItemType};
use crate::expiration::{BlockInfo, Expiration};

verus! {

/// Which lifecycle an order follows.
#[derive(Clone, Copy, Debug, PartialEq, Eq, Structural)]
pub enum OrderType {
    OFFER,
    LISTING,
    AUCTION,
}

/// Composite identity of an order.  The field order is load-bearing: the
/// actor address is the outer sort component for range scans, then the
/// NFT contract address, then the token id.
pub type OrderKey = (String, String, String);

/// Builds an [`OrderKey`]; the actor address stays the outer component.
pub fn order_key(user_address: &String, contract_address: &String, token_id: &str) -> (r: OrderKey)
    ensures
        r@ == (user_address@, contract_address@, token_id@),
{
    (user_address.clone(), contract_address.clone(), token_id.to_owned())
}

/// The offer leg of an order.
#[derive(Clone, Debug, PartialEq, Eq)]
pub struct OfferItem {
    pub item_type: ItemType,
    pub item: Asset,
    pub start_amount: u128,
    pub end_amount: u128,
}

/// The consideration leg of an order.  For auctions, `start_amount` is
/// the start price, `step_amount` the step percentage, and `end_amount`
/// the buyout price (English) or the floor price (Dutch).
#[derive(Clone, Debug, PartialEq, Eq)]
pub struct ConsiderationItem {
    pub item_type: ItemType,
    pub item: Asset,
    pub start_amount: u128,
    pub step_amount: Option<u64>,
    pub end_amount: Option<u128>,
    pub recipient: String,
}

/// The kind tag an asset carries in a trade leg.
pub fn asset_item_type(asset: &Asset) -> (r: ItemType)
    ensures
        r == ItemType::NATIVE <==> asset is Native,
        r == ItemType::CW20 <==> asset is Cw20,
        r == ItemType::CW721 <==> asset is Nft,
{
    match asset {
        Asset::Native(_) => ItemType::NATIVE,
        Asset::Cw20(_) => ItemType::CW20,
        Asset::Nft(_) => ItemType::CW721,
    }
}

/// Builds an offer leg from an asset.
pub fn offer_item(item: &Asset, start_amount: u128, end_amount: u128) -> (r: OfferItem)
    ensures
        r.item == *item,
        r.start_amount == start_amount,
        r.end_amount == end_amount,
{
    OfferItem {
        item_type: asset_item_type(item),
        item: item.duplicate(),
        start_amount,
        end_amount,
    }
}

/// Builds a consideration leg from an asset and its price parameters.
pub fn consideration_item(
    item: &Asset,
    start_amount: u128,
    step_amount: Option<u64>,
    end_amount: Option<u128>,
    recipient: &String,
) -> (r: ConsiderationItem)
    ensures
        r.item == *item,
        r.start_amount == start_amount,
        r.step_amount == step_amount,
        r.end_amount == end_amount,
        r.recipient@ == recipient@,
{
    ConsiderationItem {
        item_type: asset_item_type(item),
        item: item.duplicate(),
        start_amount,
        step_amount,
        end_amount,
        recipient: recipient.clone(),
    }
}

/// How an NFT is offered for sale.
#[derive(Clone, Debug, PartialEq, Eq)]
pub enum AuctionConfig {
    /// Sold to the first buyer paying the exact price.
    FixedPrice {
        price: Coin,
        start_time: Option<Expiration>,
        end_time: Option<Expiration>,
    },
    /// Ascending auction: bids climb by an integer step percentage.
    EnglishAuction {
        start_price: Coin,
        step_percentage: Option<u64>,
        buyout_price: Option<u128>,
        start_time: Option<Expiration>,
        end_time: Expiration,
    },
    /// Descending auction: the price decays by a fixed amount per minute
    /// down to a floor.
    DutchAuction {
        start_price: Coin,
        end_price: u128,
        step_amount: u128,
        start_time: Option<Expiration>,
        end_time: Expiration,
    },
}

impl AuctionConfig {
    /// A field-by-field copy whose equality with the original is known.
    pub fn duplicate(&self) -> (r: Self)
        ensures
            r == *self,
    {
        match self {
            AuctionConfig::FixedPrice { price, start_time, end_time } => {
                AuctionConfig::FixedPrice {
                    price: price.duplicate(),
                    start_time: *start_time,
                    end_time: *end_time,
                }
            },
            AuctionConfig::EnglishAuction {
                start_price,
                step_percentage,
                buyout_price,
                start_time,
                end_time,
            } => {
                AuctionConfig::EnglishAuction {
                    start_price: start_price.duplicate(),
                    step_percentage: *step_percentage,
                    buyout_price: *buyout_price,
                    start_time: *start_time,
                    end_time: *end_time,
                }
            },
            AuctionConfig::DutchAuction {
                start_price,
                end_price,
                step_amount,
                start_time,
                end_time,
            } => {
                AuctionConfig::DutchAuction {
                    start_price: start_price.duplicate(),
                    end_price: *end_price,
                    step_amount: *step_amount,
                    start_time: *start_time,
                    end_time: *end_time,
                }
            },
        }
    }
}

/// A structured trade descriptor: one offer leg, one consideration leg,
/// and an optional time window.
#[derive(Debug, PartialEq, Eq)]
pub struct OrderComponents {
    pub order_type: OrderType,
    pub order_id: OrderKey,
    /// The address that created the order and owns the offer leg.
    pub offerer: String,
    /// Current beneficiary of the consideration leg; for auctions the
    /// offerer itself until the first bid arrives.
    pub recipient: Option<String>,
    pub offer: OfferItem,
    pub consideration: ConsiderationItem,
    pub start_time: Option<Expiration>,
    pub end_time: Option<Expiration>,
    /// For auctions, the configuration the order was created with; the
    /// structured form of what the host persists alongside the order.
    pub config: Option<AuctionConfig>,
}

impl OrderComponents {
    /// An order is expired exactly when its end marker has passed; an
    /// order without one never expires.
    pub open spec fn spec_is_expired(self, block: BlockInfo) -> bool {
        match self.end_time {
            Some(end_time) => end_time.spec_is_expired(block),
            None => false,
        }
    }

    pub fn is_expired(&self, block: &BlockInfo) -> (r: bool)
        ensures
            r == self.spec_is_expired(*block),
    {
        match self.end_time {
            Some(end_time) => end_time.is_expired(block),
            None => false,
        }
    }

    /// A field-by-field copy whose equality with the original is known.
    pub fn duplicate(&self) -> (r: Self)
        ensures
            r == *self,
    {
        OrderComponents {
            order_type: self.order_type,
            order_id: (
                self.order_id.0.clone(),
                self.order_id.1.clone(),
                self.order_id.2.clone(),
            ),
            offerer: self.offerer.clone(),
            recipient: match &self.recipient {
                Some(r) => Some(r.clone()),
                None => None,
            },
            offer: OfferItem {
                item_type: self.offer.item_type,
                item: self.offer.item.duplicate(),
                start_amount: self.offer.start_amount,
                end_amount: self.offer.end_amount,
            },
            consideration: ConsiderationItem {
                item_type: self.consideration.item_type,
                item: self.consideration.item.duplicate(),
                start_amount: self.consideration.start_amount,
                step_amount: self.consideration.step_amount,
                end_amount: self.consideration.end_amount,
                recipient: self.consideration.recipient.clone(),
            },
            start_time: self.start_time,
            end_time: self.end_time,
            config: match &self.config {
                Some(c) => Some(c.duplicate()),
                None => None,
            },
        }
    }
}

} // verus!
