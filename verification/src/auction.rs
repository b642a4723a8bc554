//! The auction state machine: creation with escrow custody, English
//! bids with anti-snipe extension, and settlement.
//!
//! An auction order's key actor is the contract itself (the NFT is
//! escrowed), its offerer is the seller, and its recipient is the
//! current best bidder — the seller itself until a first bid arrives.

use vstd::prelude::*;

use crate::arith::percent_of_checked;
use crate::asset::{Asset, Coin, PaymentAsset, NATIVE, NFT};
use crate::error::ContractError;
use crate::expiration::Expiration;
use crate::msgs::{OutboundMsg, Response};
use crate::order::{
    consideration_item, offer_item, order_key, AuctionConfig, ConsiderationItem,
    OrderComponents, OrderType,
};
use crate::royalty::{
    payment_with_royalty, spec_effective_royalty, spec_settlement, RoyaltiesInfoResponse,
};
use crate::state::{listing_key, Env, MarketplaceContract, MessageInfo};
use crate::store::{contains_key, lookup};

verus! {

pub const NANOS_PER_SECOND: u64 = 1_000_000_000;

/// The anti-snipe window and extension: ten minutes, in nanoseconds.
pub const ANTI_SNIPE_NANOS: u64 = 600_000_000_000;

pub const MINUTE_NANOS: u64 = 60_000_000_000;

/// The default step percentage when an English auction names none.
pub const DEFAULT_STEP_PERCENTAGE: u64 = 5;

/// Whether some attached coin covers `amount` of `denom`.
pub open spec fn spec_funds_cover(funds: Seq<Coin>, denom: Seq<char>, amount: u128) -> bool {
    exists|i: int| 0 <= i < funds.len() && (#[trigger] funds[i]).denom@ == denom
        && funds[i].amount >= amount
}

/// Whether some attached coin is exactly `amount` of `denom`: a bid
/// must attach its price exactly, no more and no less.
pub open spec fn spec_funds_exact(funds: Seq<Coin>, denom: Seq<char>, amount: u128) -> bool {
    exists|i: int| 0 <= i < funds.len() && (#[trigger] funds[i]).denom@ == denom
        && funds[i].amount == amount
}

fn funds_exact(funds: &Vec<Coin>, denom: &String, amount: u128) -> (r: bool)
    ensures
        r == spec_funds_exact(funds@, denom@, amount),
{
    let n = funds.len();
    let mut i: usize = 0;
    while i < n
        invariant
            n == funds@.len(),
            i <= n,
            forall|j: int|
                0 <= j < i ==> !((#[trigger] funds@[j]).denom@ == denom@ && funds@[j].amount
                    == amount),
        decreases n - i,
    {
        if funds[i].denom == *denom && funds[i].amount == amount {
            return true;
        }
        i = i + 1;
    }
    false
}

/// The step percentage an English auction bids by.
pub open spec fn spec_step_percentage(step_percentage: Option<u64>) -> u64 {
    match step_percentage {
        Some(p) => p,
        None => DEFAULT_STEP_PERCENTAGE,
    }
}

/// The least acceptable bid: the current price for a first bid, else
/// the current price plus the truncated step percentage of it.
pub open spec fn spec_min_bid(current: u128, first_bid: bool, step: u64) -> int {
    if first_bid {
        current as int
    } else {
        current + (current * step) / 100
    }
}

/// The bidder an auction order currently names: its recipient, or the
/// offerer itself while no bid has arrived.
pub open spec fn spec_current_bidder(o: OrderComponents) -> Seq<char> {
    match o.recipient {
        Some(r) => r@,
        None => o.offerer@,
    }
}

/// The end marker after a bid at `now`: extended to ten minutes from
/// `now` when the pre-bid marker lay inside the anti-snipe window,
/// unchanged otherwise.  The comparison uses the pre-bid marker, so a
/// stream of bids cannot extend an auction without bound.
pub open spec fn spec_end_after_bid(end_time: Option<Expiration>, now: u64) -> Option<
    Expiration,
> {
    match end_time {
        Some(e) => if e.spec_le(Expiration::AtTime((now + ANTI_SNIPE_NANOS) as u64)) {
            Some(Expiration::AtTime((now + ANTI_SNIPE_NANOS) as u64))
        } else {
            Some(e)
        },
        None => None,
    }
}

impl MarketplaceContract {
    /// Opens an auction for an NFT the caller owns.  The NFT is pulled
    /// into contract custody as part of the same response; any stale
    /// fixed-price listing of the token is dropped.  A missing start
    /// time defaults to one second from now.  `owner_of` is the
    /// ownership oracle's answer.
    pub fn execute_auction_nft(
        &mut self,
        env: &Env,
        info: &MessageInfo,
        nft: NFT,
        auction_config: AuctionConfig,
        owner_of: Option<String>,
    ) -> (r: Result<Response, ContractError>)
        requires
            old(self).wf(),
            env.block.time + NANOS_PER_SECOND <= u64::MAX,
        ensures
            final(self).wf(),
            final(self).config == old(self).config,
            final(self).offers@ == old(self).offers@,
            r is Ok <==> {
                let eff_start = spec_effective_start(auction_config, env.block.time);
                let end = spec_config_end(auction_config);
                &&& !(auction_config is FixedPrice)
                &&& !eff_start.spec_is_expired(env.block)
                &&& !(end is Never)
                &&& eff_start.spec_lt(end)
                &&& nft.token_id matches Some(t)
                &&& owner_of matches Some(o) && o@ == info.sender@
            },
            r matches Ok(resp) ==> nft.token_id matches Some(t) && {
                let key = (env.contract_address@, nft.contract_address@, t@);
                let start_price = spec_config_start_price(auction_config);
                &&& lookup(final(self).auctions@, key) matches Some(o)
                    && o.order_type == OrderType::AUCTION
                    && o.offerer@ == info.sender@
                    && (o.recipient matches Some(rec) && rec@ == info.sender@)
                    && (o.offer.item matches Asset::Nft(n) && n.contract_address@
                        == nft.contract_address@
                    && (n.token_id matches Some(nt) && nt@ == t@))
                    && (o.consideration.item matches Asset::Native(na)
                    && na.denom@ == start_price.denom@
                    && na.amount == start_price.amount)
                    && o.consideration.start_amount == start_price.amount
                    && o.consideration.step_amount == spec_config_step_amount(auction_config)
                    && o.consideration.end_amount == spec_config_end_amount(auction_config)
                    && o.start_time == Some(spec_effective_start(auction_config, env.block.time))
                    && o.end_time == Some(spec_config_end(auction_config))
                    && o.config == Some(auction_config)
                &&& forall|k2: (Seq<char>, Seq<char>, Seq<char>)|
                    k2 != key ==> lookup(final(self).auctions@, k2) == lookup(
                        old(self).auctions@,
                        k2,
                    )
                &&& !contains_key(final(self).listings@, (nft.contract_address@, t@))
                &&& forall|k2: (Seq<char>, Seq<char>)|
                    k2 != (nft.contract_address@, t@) ==> lookup(final(self).listings@, k2)
                        == lookup(old(self).listings@, k2)
                &&& resp.messages@.len() == 1
                &&& resp.messages@[0] matches OutboundMsg::TransferNft {
                    contract_address: c,
                    recipient,
                    token_id: mt,
                } && c@ == nft.contract_address@ && recipient@ == env.contract_address@ && mt@
                    == t@
            },
            r is Err ==> final(self).auctions@ == old(self).auctions@ && final(self).listings@
                == old(self).listings@,
            r matches Err(e) ==> {
                let eff_start = spec_effective_start(auction_config, env.block.time);
                let end = spec_config_end(auction_config);
                if auction_config is FixedPrice {
                    e matches ContractError::CustomError { val }
                        && val@ == "Invalid auction config"@
                } else if eff_start.spec_is_expired(env.block) || end is Never
                    || !eff_start.spec_lt(end) {
                    e matches ContractError::CustomError { val }
                        && val@ == "Time config invalid"@
                } else if nft.token_id is None {
                    e matches ContractError::CustomError { val }
                        && val@ == "Token id is required"@
                } else {
                    e == (ContractError::Unauthorized {})
                }
            },
    {
        let (start_time_in, end_time, start_price) = match &auction_config {
            AuctionConfig::FixedPrice { .. } => {
                return Err(
                    ContractError::CustomError { val: "Invalid auction config".to_owned() },
                );
            },
            AuctionConfig::EnglishAuction { start_price, start_time, end_time, .. } => {
                (*start_time, *end_time, start_price.duplicate())
            },
            AuctionConfig::DutchAuction { start_price, start_time, end_time, .. } => {
                (*start_time, *end_time, start_price.duplicate())
            },
        };
        let start_time = match start_time_in {
            Some(s) => s,
            None => Expiration::AtTime(env.block.time + NANOS_PER_SECOND),
        };
        let never = match end_time {
            Expiration::Never => true,
            _ => false,
        };
        if start_time.is_expired(&env.block) || never || !start_time.lt(&end_time) {
            return Err(
                ContractError::CustomError { val: "Time config invalid".to_owned() },
            );
        }
        let token_id = match &nft.token_id {
            Some(t) => t.clone(),
            None => {
                return Err(
                    ContractError::CustomError { val: "Token id is required".to_owned() },
                );
            },
        };
        match &owner_of {
            Some(owner) => {
                if *owner != info.sender {
                    return Err(ContractError::Unauthorized {});
                }
            },
            None => {
                return Err(ContractError::Unauthorized {});
            },
        }
        let (step_amount, end_amount) = match &auction_config {
            AuctionConfig::EnglishAuction { step_percentage, buyout_price, .. } => {
                let step = match step_percentage {
                    Some(p) => *p,
                    None => DEFAULT_STEP_PERCENTAGE,
                };
                let buyout = match buyout_price {
                    Some(b) => *b,
                    None => 0,
                };
                (Some(step), Some(buyout))
            },
            AuctionConfig::DutchAuction { end_price, .. } => (None, Some(*end_price)),
            AuctionConfig::FixedPrice { .. } => (None, None),
        };
        let offer_leg = offer_item(
            &Asset::Nft(
                NFT {
                    contract_address: nft.contract_address.clone(),
                    token_id: Some(token_id.clone()),
                },
            ),
            1,
            1,
        );
        let consideration_leg = consideration_item(
            &Asset::Native(
                NATIVE { denom: start_price.denom.clone(), amount: start_price.amount },
            ),
            start_price.amount,
            step_amount,
            end_amount,
            &info.sender,
        );
        let key = order_key(&env.contract_address, &nft.contract_address, token_id.as_str());
        let order = OrderComponents {
            order_type: OrderType::AUCTION,
            order_id: (key.0.clone(), key.1.clone(), key.2.clone()),
            offerer: info.sender.clone(),
            recipient: Some(info.sender.clone()),
            offer: offer_leg,
            consideration: consideration_leg,
            start_time: Some(start_time),
            end_time: Some(end_time),
            config: Some(auction_config),
        };
        self.auctions.save(key, order);
        let lkey = listing_key(&nft.contract_address, token_id.as_str());
        self.listings.remove(&lkey);
        let mut messages: Vec<OutboundMsg> = Vec::new();
        messages.push(
            OutboundMsg::TransferNft {
                contract_address: nft.contract_address.clone(),
                recipient: env.contract_address.clone(),
                token_id: token_id.clone(),
            },
        );
        Ok(Response { messages })
    }
}

impl MarketplaceContract {
    /// Places a bid on an English auction.  A first bid must reach the
    /// start price; a later bid must reach the current price plus the
    /// truncated step percentage of it, and the displaced bidder is
    /// refunded.  A bid inside the last ten minutes pushes the end
    /// marker to ten minutes from now — judged against the pre-bid end
    /// marker, so extensions cannot cascade.
    pub fn execute_bid_auction(
        &mut self,
        env: &Env,
        info: &MessageInfo,
        nft: NFT,
        bid_price: u128,
    ) -> (r: Result<Response, ContractError>)
        requires
            old(self).wf(),
            env.block.time + ANTI_SNIPE_NANOS <= u64::MAX,
        ensures
            final(self).wf(),
            final(self).config == old(self).config,
            final(self).offers@ == old(self).offers@,
            final(self).listings@ == old(self).listings@,
            r is Ok <==> {
                &&& nft.token_id matches Some(t)
                &&& lookup(
                    old(self).auctions@,
                    (env.contract_address@, nft.contract_address@, t@),
                ) matches Some(o)
                    && (o.config matches Some(AuctionConfig::EnglishAuction {
                        step_percentage,
                        ..
                    })
                    && info.sender@ != o.offerer@
                    && !o.spec_is_expired(env.block)
                    && (o.consideration.item matches Asset::Native(cur)
                    && spec_funds_exact(info.funds@, cur.denom@, bid_price)
                    && bid_price >= spec_min_bid(
                        cur.amount,
                        spec_current_bidder(o) == o.offerer@,
                        spec_step_percentage(step_percentage),
                    )))
            },
            r matches Ok(resp) ==> nft.token_id matches Some(t) && {
                let key = (env.contract_address@, nft.contract_address@, t@);
                &&& lookup(old(self).auctions@, key) matches Some(o)
                    && (o.consideration.item matches Asset::Native(cur) && {
                    let first_bid = spec_current_bidder(o) == o.offerer@;
                    &&& lookup(final(self).auctions@, key) matches Some(no)
                        && no == OrderComponents {
                        recipient: Some(info.sender),
                        consideration: ConsiderationItem {
                            item: Asset::Native(
                                NATIVE { denom: cur.denom, amount: bid_price },
                            ),
                            recipient: info.sender,
                            ..o.consideration
                        },
                        end_time: spec_end_after_bid(o.end_time, env.block.time),
                        ..o
                    }
                    &&& if first_bid {
                        resp.messages@.len() == 0
                    } else {
                        resp.messages@.len() == 1 && (resp.messages@[0]
                            matches OutboundMsg::BankSend { to_address, denom, amount }
                            && to_address@ == spec_current_bidder(o) && denom@ == cur.denom@
                            && amount == cur.amount)
                    }
                })
                &&& forall|k2: (Seq<char>, Seq<char>, Seq<char>)|
                    k2 != key ==> lookup(final(self).auctions@, k2) == lookup(
                        old(self).auctions@,
                        k2,
                    )
            },
            r is Err ==> final(self).auctions@ == old(self).auctions@,
            r matches Err(e) ==> {
                if nft.token_id is None {
                    e matches ContractError::CustomError { val }
                        && val@ == "Token id is required"@
                } else {
                    nft.token_id matches Some(t) && {
                        let prior = lookup(
                            old(self).auctions@,
                            (env.contract_address@, nft.contract_address@, t@),
                        );
                        if prior is None {
                            e == (ContractError::NotFound {})
                        } else {
                            prior matches Some(o) && {
                                if !(o.config matches Some(
                                    AuctionConfig::EnglishAuction { .. },
                                )) {
                                    e matches ContractError::CustomError { val }
                                        && val@ == "Invalid auction type"@
                                } else if info.sender@ == o.offerer@ {
                                    e matches ContractError::CustomError { val }
                                        && val@ == "Cannot bid on your own auction"@
                                } else if o.spec_is_expired(env.block) {
                                    e matches ContractError::CustomError { val }
                                        && val@ == "Auction is expired"@
                                } else if !(o.consideration.item is Native) {
                                    e matches ContractError::CustomError { val }
                                        && val@ == "Invalid consideration item"@
                                } else {
                                    o.consideration.item matches Asset::Native(cur) && {
                                        if !spec_funds_exact(
                                            info.funds@,
                                            cur.denom@,
                                            bid_price,
                                        ) {
                                            e matches ContractError::CustomError { val }
                                                && val@
                                                == "Different funding amount and bidding price"@
                                        } else {
                                            e matches ContractError::CustomError { val }
                                                && val@ == "Bidding price invalid"@
                                        }
                                    }
                                }
                            }
                        }
                    }
                }
            },
    {
        let token_id = match &nft.token_id {
            Some(t) => t.clone(),
            None => {
                return Err(
                    ContractError::CustomError { val: "Token id is required".to_owned() },
                );
            },
        };
        let key = order_key(&env.contract_address, &nft.contract_address, token_id.as_str());
        let order = match self.auctions.get(&key) {
            Some(o) => o.duplicate(),
            None => {
                return Err(ContractError::NotFound {});
            },
        };
        let step_percentage = match &order.config {
            Some(AuctionConfig::EnglishAuction { step_percentage, .. }) => {
                match step_percentage {
                    Some(p) => *p,
                    None => DEFAULT_STEP_PERCENTAGE,
                }
            },
            _ => {
                return Err(
                    ContractError::CustomError { val: "Invalid auction type".to_owned() },
                );
            },
        };
        if info.sender == order.offerer {
            return Err(
                ContractError::CustomError {
                    val: "Cannot bid on your own auction".to_owned(),
                },
            );
        }
        if order.is_expired(&env.block) {
            return Err(
                ContractError::CustomError { val: "Auction is expired".to_owned() },
            );
        }
        let current = match &order.consideration.item {
            Asset::Native(cur) => cur.duplicate(),
            _ => {
                return Err(
                    ContractError::CustomError {
                        val: "Invalid consideration item".to_owned(),
                    },
                );
            },
        };
        if !funds_exact(&info.funds, &current.denom, bid_price) {
            return Err(
                ContractError::CustomError {
                    val: "Different funding amount and bidding price".to_owned(),
                },
            );
        }
        let previous_bidder = match &order.recipient {
            Some(r) => r.clone(),
            None => order.offerer.clone(),
        };
        let first_bid = previous_bidder == order.offerer;
        let mut messages: Vec<OutboundMsg> = Vec::new();
        if !first_bid {
            let min_bid = match percent_of_checked(current.amount, step_percentage) {
                Some(step_price) => current.amount.checked_add(step_price),
                None => None,
            };
            let acceptable = match min_bid {
                Some(m) => bid_price >= m,
                None => false,
            };
            if !acceptable {
                return Err(
                    ContractError::CustomError { val: "Bidding price invalid".to_owned() },
                );
            }
            messages.push(
                OutboundMsg::BankSend {
                    to_address: previous_bidder,
                    denom: current.denom.clone(),
                    amount: current.amount,
                },
            );
        } else {
            if bid_price < current.amount {
                return Err(
                    ContractError::CustomError { val: "Bidding price invalid".to_owned() },
                );
            }
        }
        let extended_end = match order.end_time {
            Some(e) => {
                let cutoff = Expiration::AtTime(env.block.time + ANTI_SNIPE_NANOS);
                if e.le(&cutoff) {
                    Some(cutoff)
                } else {
                    Some(e)
                }
            },
            None => None,
        };
        let new_order = OrderComponents {
            order_type: order.order_type,
            order_id: order.order_id,
            offerer: order.offerer,
            recipient: Some(info.sender.clone()),
            offer: order.offer,
            consideration: ConsiderationItem {
                item_type: order.consideration.item_type,
                item: Asset::Native(
                    NATIVE { denom: current.denom.clone(), amount: bid_price },
                ),
                start_amount: order.consideration.start_amount,
                step_amount: order.consideration.step_amount,
                end_amount: order.consideration.end_amount,
                recipient: info.sender.clone(),
            },
            start_time: order.start_time,
            end_time: extended_end,
            config: order.config,
        };
        self.auctions.save(key, new_order);
        Ok(Response { messages })
    }
}

impl MarketplaceContract {
    /// Settles an expired auction.  Only the offerer or the current
    /// bidder may call.  The NFT goes to the current bidder; when no
    /// bid ever arrived (the bidder is still the offerer) it simply
    /// goes back and no payment message is produced, otherwise the
    /// escrowed winning bid is routed to the offerer through the
    /// settlement engine, and the order is deleted either way.
    pub fn execute_settle_auction(
        &mut self,
        env: &Env,
        info: &MessageInfo,
        nft: NFT,
        royalty_info: Option<RoyaltiesInfoResponse>,
    ) -> (r: Result<Response, ContractError>)
        requires
            old(self).wf(),
        ensures
            final(self).wf(),
            final(self).config == old(self).config,
            final(self).offers@ == old(self).offers@,
            final(self).listings@ == old(self).listings@,
            r is Ok <==> {
                &&& nft.token_id matches Some(t)
                &&& lookup(
                    old(self).auctions@,
                    (env.contract_address@, nft.contract_address@, t@),
                ) matches Some(o)
                    && (info.sender@ == o.offerer@ || info.sender@ == spec_current_bidder(o))
                    && o.spec_is_expired(env.block)
                    && (spec_current_bidder(o) == o.offerer@ || (o.consideration.item.spec_is_payment()
                    && (match spec_effective_royalty(royalty_info, o.offerer@) {
                        Some((creator, royalty_amount)) => royalty_amount
                            <= o.consideration.item.spec_as_payment().spec_amount(),
                        None => true,
                    })))
            },
            r matches Ok(resp) ==> nft.token_id matches Some(t) && {
                let key = (env.contract_address@, nft.contract_address@, t@);
                &&& lookup(old(self).auctions@, key) matches Some(o) && {
                    &&& resp.messages@.len() >= 1
                    &&& resp.messages@[0] matches OutboundMsg::TransferNft {
                        contract_address: c,
                        recipient,
                        token_id: mt,
                    } && c@ == nft.contract_address@ && recipient@ == spec_current_bidder(o)
                        && mt@ == t@
                    &&& if spec_current_bidder(o) == o.offerer@ {
                        resp.messages@.len() == 1
                    } else {
                        spec_settlement(
                            resp.messages@.skip(1),
                            o.consideration.item.spec_as_payment(),
                            env.contract_address@,
                            o.offerer@,
                            royalty_info,
                        )
                    }
                }
                &&& !contains_key(final(self).auctions@, key)
                &&& forall|k2: (Seq<char>, Seq<char>, Seq<char>)|
                    k2 != key ==> lookup(final(self).auctions@, k2) == lookup(
                        old(self).auctions@,
                        k2,
                    )
            },
            r is Err ==> final(self).auctions@ == old(self).auctions@,
            r matches Err(e) ==> {
                if nft.token_id is None {
                    e matches ContractError::CustomError { val }
                        && val@ == "Token id is required"@
                } else {
                    nft.token_id matches Some(t) && {
                        let prior = lookup(
                            old(self).auctions@,
                            (env.contract_address@, nft.contract_address@, t@),
                        );
                        if prior is None {
                            e == (ContractError::NotFound {})
                        } else {
                            prior matches Some(o) && {
                                if !(info.sender@ == o.offerer@ || info.sender@
                                    == spec_current_bidder(o)) {
                                    e == (ContractError::Unauthorized {})
                                } else if !o.spec_is_expired(env.block) {
                                    e matches ContractError::CustomError { val }
                                        && val@ == "Auction is not expired"@
                                } else if !o.consideration.item.spec_is_payment() {
                                    e matches ContractError::CustomError { val }
                                        && val@ == "Invalid consideration item"@
                                } else {
                                    e matches ContractError::CustomError { val }
                                        && val@ == "Royalty exceeds sale price"@
                                }
                            }
                        }
                    }
                }
            },
    {
        let token_id = match &nft.token_id {
            Some(t) => t.clone(),
            None => {
                return Err(
                    ContractError::CustomError { val: "Token id is required".to_owned() },
                );
            },
        };
        let key = order_key(&env.contract_address, &nft.contract_address, token_id.as_str());
        let order = match self.auctions.get(&key) {
            Some(o) => o.duplicate(),
            None => {
                return Err(ContractError::NotFound {});
            },
        };
        let recipient = match &order.recipient {
            Some(r) => r.clone(),
            None => order.offerer.clone(),
        };
        if info.sender != order.offerer && info.sender != recipient {
            return Err(ContractError::Unauthorized {});
        }
        if !order.is_expired(&env.block) {
            return Err(
                ContractError::CustomError { val: "Auction is not expired".to_owned() },
            );
        }
        let mut messages: Vec<OutboundMsg> = Vec::new();
        messages.push(
            OutboundMsg::TransferNft {
                contract_address: nft.contract_address.clone(),
                recipient: recipient.clone(),
                token_id: token_id.clone(),
            },
        );
        if recipient == order.offerer {
            self.auctions.remove(&key);
            return Ok(Response { messages });
        }
        let payment = match PaymentAsset::try_from_asset(&order.consideration.item) {
            Some(p) => p,
            None => {
                return Err(
                    ContractError::CustomError {
                        val: "Invalid consideration item".to_owned(),
                    },
                );
            },
        };
        let mut payment_messages = payment_with_royalty(
            &payment,
            &env.contract_address,
            &order.offerer,
            royalty_info,
        )?;
        messages.append(&mut payment_messages);
        self.auctions.remove(&key);
        Ok(Response { messages })
    }
}

/// The current Dutch-auction price: the start amount, lowered by the
/// per-minute step for each full elapsed minute, and never below the
/// floor price.  The explicit clamp is what keeps the linear decay from
/// underflowing.
pub open spec fn spec_dutch_price(
    amount: u128,
    end_price: u128,
    step: u128,
    start: u64,
    now: u64,
) -> u128 {
    if now <= start {
        amount
    } else {
        let decay = (((now - start) as int) / (MINUTE_NANOS as int)) * step;
        if decay <= amount && amount - decay >= end_price {
            (amount - decay) as u128
        } else {
            end_price
        }
    }
}

impl MarketplaceContract {
    /// The price a bid (or Dutch purchase) must reach right now: the
    /// anti-underflow clamped Dutch decay, or the English minimum next
    /// bid; zero for an expired or unpriceable auction.
    pub fn query_valid_price(
        &self,
        env: &Env,
        contract_address: String,
        token_id: String,
    ) -> (r: Result<u128, ContractError>)
        requires
            self.wf(),
        ensures
            ({
                let prior = lookup(
                    self.auctions@,
                    (env.contract_address@, contract_address@, token_id@),
                );
                match prior {
                    None => r == Err::<u128, ContractError>(ContractError::NotFound {}),
                    Some(o) => {
                        if o.spec_is_expired(env.block) {
                            r == Ok::<u128, ContractError>(0)
                        } else if !(o.consideration.item is Native) {
                            r == Ok::<u128, ContractError>(0)
                        } else {
                            let cur = o.consideration.item->Native_0;
                            match o.config {
                                Some(AuctionConfig::EnglishAuction { step_percentage, .. }) => {
                                    let first = spec_current_bidder(o) == o.offerer@;
                                    let min = spec_min_bid(
                                        cur.amount,
                                        first,
                                        spec_step_percentage(step_percentage),
                                    );
                                    if min <= u128::MAX {
                                        r == Ok::<u128, ContractError>(min as u128)
                                    } else {
                                        r matches Err(e) && e matches
                                            ContractError::CustomError { val } && val@
                                            == "Price overflow"@
                                    }
                                },
                                Some(AuctionConfig::DutchAuction { end_price, step_amount, .. }) => {
                                    match o.start_time {
                                        Some(Expiration::AtTime(st)) => r == Ok::<
                                            u128,
                                            ContractError,
                                        >(
                                            spec_dutch_price(
                                                cur.amount,
                                                end_price,
                                                step_amount,
                                                st,
                                                env.block.time,
                                            ),
                                        ),
                                        _ => r == Ok::<u128, ContractError>(0),
                                    }
                                },
                                _ => r == Ok::<u128, ContractError>(0),
                            }
                        }
                    },
                }
            }),
    {
        let key = order_key(&env.contract_address, &contract_address, token_id.as_str());
        let order = match self.auctions.get(&key) {
            Some(o) => o,
            None => {
                return Err(ContractError::NotFound {});
            },
        };
        if order.is_expired(&env.block) {
            return Ok(0);
        }
        let current = match &order.consideration.item {
            Asset::Native(cur) => cur,
            _ => {
                return Ok(0);
            },
        };
        match &order.config {
            Some(AuctionConfig::EnglishAuction { step_percentage, .. }) => {
                let first = match &order.recipient {
                    Some(r) => *r == order.offerer,
                    None => true,
                };
                if first {
                    Ok(current.amount)
                } else {
                    let step = match step_percentage {
                        Some(p) => *p,
                        None => DEFAULT_STEP_PERCENTAGE,
                    };
                    let min = match percent_of_checked(current.amount, step) {
                        Some(step_price) => current.amount.checked_add(step_price),
                        None => None,
                    };
                    match min {
                        Some(m) => Ok(m),
                        None => Err(
                            ContractError::CustomError { val: "Price overflow".to_owned() },
                        ),
                    }
                }
            },
            Some(AuctionConfig::DutchAuction { end_price, step_amount, .. }) => {
                let (end_price, step_amount) = (*end_price, *step_amount);
                match &order.start_time {
                    Some(Expiration::AtTime(st)) => {
                        let st = *st;
                        let now = env.block.time;
                        if now <= st {
                            Ok(current.amount)
                        } else {
                            let minutes: u64 = (now - st) / MINUTE_NANOS;
                            let price = match (minutes as u128).checked_mul(step_amount) {
                                Some(decay) => {
                                    if decay <= current.amount && current.amount - decay
                                        >= end_price {
                                        current.amount - decay
                                    } else {
                                        end_price
                                    }
                                },
                                None => end_price,
                            };
                            Ok(price)
                        }
                    },
                    _ => Ok(0),
                }
            },
            _ => Ok(0),
        }
    }
}

/// The start marker an auction config takes effect with: the given one,
/// or one second past `now` when none was given.
pub open spec fn spec_effective_start(auction_config: AuctionConfig, now: u64) -> Expiration {
    let given = match auction_config {
        AuctionConfig::FixedPrice { start_time, .. } => start_time,
        AuctionConfig::EnglishAuction { start_time, .. } => start_time,
        AuctionConfig::DutchAuction { start_time, .. } => start_time,
    };
    match given {
        Some(s) => s,
        None => Expiration::AtTime((now + NANOS_PER_SECOND) as u64),
    }
}

/// The end marker of an auction config.
pub open spec fn spec_config_end(auction_config: AuctionConfig) -> Expiration {
    match auction_config {
        AuctionConfig::FixedPrice { end_time, .. } => match end_time {
            Some(e) => e,
            None => Expiration::Never,
        },
        AuctionConfig::EnglishAuction { end_time, .. } => end_time,
        AuctionConfig::DutchAuction { end_time, .. } => end_time,
    }
}

/// The start price of an auction config.
pub open spec fn spec_config_start_price(auction_config: AuctionConfig) -> Coin {
    match auction_config {
        AuctionConfig::FixedPrice { price, .. } => price,
        AuctionConfig::EnglishAuction { start_price, .. } => start_price,
        AuctionConfig::DutchAuction { start_price, .. } => start_price,
    }
}

/// The step field a stored auction order carries: the English step
/// percentage (default five when unset); a Dutch auction keeps its
/// per-minute step in the config instead.
pub open spec fn spec_config_step_amount(auction_config: AuctionConfig) -> Option<u64> {
    match auction_config {
        AuctionConfig::EnglishAuction { step_percentage, .. } => Some(
            spec_step_percentage(step_percentage),
        ),
        _ => None,
    }
}

/// The end-amount field a stored auction order carries: the English
/// buyout price (zero when unset), or the Dutch floor price.
pub open spec fn spec_config_end_amount(auction_config: AuctionConfig) -> Option<u128> {
    match auction_config {
        AuctionConfig::EnglishAuction { buyout_price, .. } => Some(
            match buyout_price {
                Some(b) => b,
                None => 0,
            },
        ),
        AuctionConfig::DutchAuction { end_price, .. } => Some(end_price),
        AuctionConfig::FixedPrice { .. } => None,
    }
}

} // verus!
