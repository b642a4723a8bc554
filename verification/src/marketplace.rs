//! Fixed-price listing and offer handlers.
//!
//! Each handler validates against the state and the oracle answers the
//! host passed in, and only then mutates; on any error the state is left
//! exactly as it was, mirroring the all-or-nothing transaction the host
//! guarantees.

use vstd::prelude::*;

use crate::asset::{Asset, PaymentAsset, CW20, NFT};
use crate::error::ContractError;
use crate::expiration::Expiration;
use crate::msgs::{OutboundMsg, Response};
use crate::order::{order_key, OrderComponents, OrderType};
use crate::order::{consideration_item, offer_item};
use crate::royalty::{
    payment_with_royalty, spec_effective_royalty, spec_settlement, RoyaltiesInfoResponse,
};
use crate::order::AuctionConfig;
use crate::state::{listing_key, Env, Listing, MarketplaceContract, MessageInfo};
use crate::store::{contains_key, lookup};

verus! {

/// The sentinel address meaning "no fungible token configured yet".
pub open spec fn spec_unset_vaura() -> Seq<char> {
    "aura0"@
}

/// Whether `k` identifies one of the offers a batch cancellation by
/// `sender` names.
pub open spec fn spec_batch_key(
    k: (Seq<char>, Seq<char>, Seq<char>),
    sender: Seq<char>,
    nfts: Seq<NFT>,
) -> bool {
    exists|i: int|
        0 <= i < nfts.len() && (#[trigger] nfts[i]).token_id is Some && k == (
            sender,
            nfts[i].contract_address@,
            nfts[i].token_id->0@,
        )
}

impl MarketplaceContract {
    /// Lists an NFT at a fixed price.  The caller must be the token's
    /// current owner by the ownership oracle's answer and must have
    /// granted this contract a never-expiring approval; any existing
    /// listing under the same key is overwritten, last writer wins.
    ///
    /// `owner_of` and `approval_expires` are the answers of the NFT
    /// contract's ownership and approval queries; `None` means the
    /// query failed.
    pub fn execute_list_nft(
        &mut self,
        env: &Env,
        info: &MessageInfo,
        contract_address: String,
        token_id: String,
        auction_config: AuctionConfig,
        owner_of: Option<String>,
        approval_expires: Option<Expiration>,
    ) -> (r: Result<Response, ContractError>)
        requires
            old(self).wf(),
        ensures
            final(self).wf(),
            final(self).config == old(self).config,
            final(self).offers@ == old(self).offers@,
            final(self).auctions@ == old(self).auctions@,
            r is Ok <==> {
                &&& owner_of matches Some(o) && o@ == info.sender@
                &&& approval_expires matches Some(a) && a is Never
                &&& auction_config is FixedPrice
                &&& old(self).spec_valid_auction_config(auction_config)
            },
            r matches Ok(resp) ==> {
                &&& resp.messages@.len() == 0
                &&& lookup(final(self).listings@, (contract_address@, token_id@)) matches Some(l)
                    && l.contract_address@ == contract_address@
                    && l.token_id@ == token_id@
                    && l.auction_config == auction_config
                    && l.seller@ == info.sender@
                    && l.buyer is None
                &&& forall|k2: (Seq<char>, Seq<char>)|
                    k2 != (contract_address@, token_id@) ==> lookup(final(self).listings@, k2)
                        == lookup(old(self).listings@, k2)
            },
            r is Err ==> final(self).listings@ == old(self).listings@,
            r matches Err(e) ==> {
                if !(owner_of matches Some(o) && o@ == info.sender@) {
                    e == (ContractError::Unauthorized {})
                } else if approval_expires is None {
                    e matches ContractError::CustomError { val }
                        && val@ == "Require never expired approval"@
                } else if !(approval_expires matches Some(a) && a is Never) {
                    e == (ContractError::Unauthorized {})
                } else {
                    e matches ContractError::CustomError { val }
                        && val@ == "Invalid auction config"@
                }
            },
    {
        match &owner_of {
            Some(owner) => {
                if *owner != info.sender {
                    return Err(ContractError::Unauthorized {});
                }
            },
            None => {
                return Err(ContractError::Unauthorized {});
            },
        }
        match &approval_expires {
            Some(approval) => {
                match approval {
                    Expiration::Never => {},
                    _ => {
                        return Err(ContractError::Unauthorized {});
                    },
                }
            },
            None => {
                return Err(
                    ContractError::CustomError {
                        val: "Require never expired approval".to_owned(),
                    },
                );
            },
        }
        let fixed = match &auction_config {
            AuctionConfig::FixedPrice { .. } => true,
            _ => false,
        };
        if !fixed || !self.validate_auction_config(&auction_config) {
            return Err(
                ContractError::CustomError { val: "Invalid auction config".to_owned() },
            );
        }
        let listing = Listing {
            contract_address: contract_address.clone(),
            token_id: token_id.clone(),
            auction_config,
            seller: info.sender.clone(),
            buyer: None,
        };
        let key = listing_key(&contract_address, &token_id);
        self.listings.save(key, listing);
        Ok(Response { messages: Vec::new() })
    }

    /// Buys a listed NFT at its fixed price.  The exact price must be
    /// attached as the single funds coin; the NFT goes to the buyer and
    /// the payment is routed through the settlement engine, royalty cut
    /// first.  `royalty_info` is the royalty oracle's answer for this
    /// token at the sale price; `None` means the query failed and the
    /// whole amount goes to the seller.
    pub fn execute_buy(
        &mut self,
        env: &Env,
        info: &MessageInfo,
        contract_address: String,
        token_id: String,
        royalty_info: Option<RoyaltiesInfoResponse>,
    ) -> (r: Result<Response, ContractError>)
        requires
            old(self).wf(),
        ensures
            final(self).wf(),
            final(self).config == old(self).config,
            final(self).offers@ == old(self).offers@,
            final(self).auctions@ == old(self).auctions@,
            r is Ok <==> {
                &&& lookup(old(self).listings@, (contract_address@, token_id@)) matches Some(l)
                    && l.seller@ != info.sender@
                    && (l.auction_config matches AuctionConfig::FixedPrice {
                        price,
                        start_time,
                        end_time,
                    }
                    && (start_time matches Some(s) ==> s.spec_is_expired(env.block))
                    && (end_time matches Some(e) ==> !e.spec_is_expired(env.block))
                    && info.funds@.len() > 0
                    && info.funds@[0].denom@ == price.denom@
                    && info.funds@[0].amount == price.amount
                    && (match spec_effective_royalty(royalty_info, l.seller@) {
                        Some((creator, royalty_amount)) => royalty_amount <= price.amount,
                        None => true,
                    }))
            },
            r matches Ok(resp) ==> {
                &&& !contains_key(final(self).listings@, (contract_address@, token_id@))
                &&& forall|k2: (Seq<char>, Seq<char>)|
                    k2 != (contract_address@, token_id@) ==> lookup(final(self).listings@, k2)
                        == lookup(old(self).listings@, k2)
                &&& lookup(old(self).listings@, (contract_address@, token_id@)) matches Some(l)
                    && (l.auction_config matches AuctionConfig::FixedPrice { price, .. }
                    && resp.messages@.len() >= 1
                    && (resp.messages@[0] matches OutboundMsg::TransferNft {
                        contract_address: c,
                        recipient,
                        token_id: t,
                    }
                    && c@ == contract_address@
                    && recipient@ == info.sender@
                    && t@ == token_id@)
                    && spec_settlement(
                        resp.messages@.skip(1),
                        PaymentAsset::Native { denom: price.denom, amount: price.amount },
                        info.sender@,
                        l.seller@,
                        royalty_info,
                    ))
            },
            r is Err ==> final(self).listings@ == old(self).listings@,
            r matches Err(e) ==> {
                if !contains_key(old(self).listings@, (contract_address@, token_id@)) {
                    e == (ContractError::NotFound {})
                } else {
                    lookup(old(self).listings@, (contract_address@, token_id@)) matches Some(l)
                        && {
                        if l.seller@ == info.sender@ {
                            e matches ContractError::CustomError { val }
                                && val@ == "Owner cannot buy"@
                        } else if !(l.auction_config is FixedPrice) {
                            e matches ContractError::CustomError { val }
                                && val@ == "Auction config invalid"@
                        } else {
                            l.auction_config matches AuctionConfig::FixedPrice {
                                price,
                                start_time,
                                end_time,
                            } && {
                                if start_time matches Some(s) && !s.spec_is_expired(env.block) {
                                    e matches ContractError::CustomError { val }
                                        && val@ == "Auction not started"@
                                } else if end_time matches Some(en) && en.spec_is_expired(
                                    env.block,
                                ) {
                                    e matches ContractError::CustomError { val }
                                        && val@ == "Auction ended"@
                                } else if !(info.funds@.len() > 0 && info.funds@[0].denom@
                                    == price.denom@ && info.funds@[0].amount == price.amount) {
                                    e == (ContractError::InsufficientFunds {})
                                } else {
                                    e matches ContractError::CustomError { val }
                                        && val@ == "Royalty exceeds sale price"@
                                }
                            }
                        }
                    }
                }
            },
    {
        let key = listing_key(&contract_address, &token_id);
        let listing = match self.listings.get(&key) {
            Some(l) => l.duplicate(),
            None => {
                return Err(ContractError::NotFound {});
            },
        };
        if info.sender == listing.seller {
            return Err(ContractError::CustomError { val: "Owner cannot buy".to_owned() });
        }
        let (price, start_time, end_time) = match &listing.auction_config {
            AuctionConfig::FixedPrice { price, start_time, end_time } => {
                (price.duplicate(), *start_time, *end_time)
            },
            _ => {
                return Err(
                    ContractError::CustomError { val: "Auction config invalid".to_owned() },
                );
            },
        };
        if let Some(s) = start_time {
            if !s.is_expired(&env.block) {
                return Err(
                    ContractError::CustomError { val: "Auction not started".to_owned() },
                );
            }
        }
        if let Some(e) = end_time {
            if e.is_expired(&env.block) {
                return Err(ContractError::CustomError { val: "Auction ended".to_owned() });
            }
        }
        let funds_ok = if info.funds.len() == 0 {
            false
        } else {
            info.funds[0].denom == price.denom && info.funds[0].amount == price.amount
        };
        if !funds_ok {
            return Err(ContractError::InsufficientFunds {});
        }
        let payment = PaymentAsset::Native { denom: price.denom.clone(), amount: price.amount };
        let mut payment_messages = payment_with_royalty(
            &payment,
            &info.sender,
            &listing.seller,
            royalty_info,
        )?;
        self.listings.remove(&key);
        let mut messages: Vec<OutboundMsg> = Vec::new();
        messages.push(
            OutboundMsg::TransferNft {
                contract_address: contract_address.clone(),
                recipient: info.sender.clone(),
                token_id: token_id.clone(),
            },
        );
        messages.append(&mut payment_messages);
        Ok(Response { messages })
    }

    /// Cancels a listing.  While the listing is unexpired only the
    /// seller may cancel; once expired, any address may clean it up —
    /// a deliberate storage-hygiene rule, not an oversight.
    pub fn execute_cancel(
        &mut self,
        env: &Env,
        info: &MessageInfo,
        contract_address: String,
        token_id: String,
    ) -> (r: Result<Response, ContractError>)
        requires
            old(self).wf(),
        ensures
            final(self).wf(),
            final(self).config == old(self).config,
            final(self).offers@ == old(self).offers@,
            final(self).auctions@ == old(self).auctions@,
            r is Ok <==> {
                &&& lookup(old(self).listings@, (contract_address@, token_id@)) matches Some(l)
                    && (l.spec_is_expired(env.block) || l.seller@ == info.sender@)
            },
            r is Ok ==> {
                &&& !contains_key(final(self).listings@, (contract_address@, token_id@))
                &&& forall|k2: (Seq<char>, Seq<char>)|
                    k2 != (contract_address@, token_id@) ==> lookup(final(self).listings@, k2)
                        == lookup(old(self).listings@, k2)
            },
            r matches Ok(resp) ==> resp.messages@.len() == 0,
            r is Err ==> final(self).listings@ == old(self).listings@,
            r matches Err(e) ==> {
                if !contains_key(old(self).listings@, (contract_address@, token_id@)) {
                    e == (ContractError::NotFound {})
                } else {
                    e == (ContractError::Unauthorized {})
                }
            },
    {
        let key = listing_key(&contract_address, &token_id);
        let authorized = match self.listings.get(&key) {
            Some(listing) => listing.is_expired(&env.block) || listing.seller == info.sender,
            None => {
                return Err(ContractError::NotFound {});
            },
        };
        if !authorized {
            return Err(ContractError::Unauthorized {});
        }
        self.listings.remove(&key);
        Ok(Response { messages: Vec::new() })
    }

    /// Places (or replaces) an offer on someone else's NFT: a reversed
    /// order whose offer leg is the configured fungible token and whose
    /// consideration leg is the NFT.  `allowance` is the amount the
    /// sender has pre-authorized this contract to spend; `owner_of` is
    /// the ownership oracle's answer (`None` means the token does not
    /// exist).
    pub fn execute_offer_nft(
        &mut self,
        env: &Env,
        info: &MessageInfo,
        nft: NFT,
        funds_amount: u128,
        end_time: Expiration,
        allowance: u128,
        owner_of: Option<String>,
    ) -> (r: Result<Response, ContractError>)
        requires
            old(self).wf(),
        ensures
            final(self).wf(),
            final(self).config == old(self).config,
            final(self).listings@ == old(self).listings@,
            final(self).auctions@ == old(self).auctions@,
            r is Ok <==> {
                &&& old(self).config.vaura_address@ != spec_unset_vaura()
                &&& !end_time.spec_is_expired(env.block)
                &&& allowance >= funds_amount
                &&& nft.token_id matches Some(t)
                &&& owner_of matches Some(o) && o@ != info.sender@
            },
            r matches Ok(resp) ==> {
                &&& resp.messages@.len() == 0
                &&& nft.token_id matches Some(t) && {
                    let key = (info.sender@, nft.contract_address@, t@);
                    &&& lookup(final(self).offers@, key) matches Some(o)
                        && o.order_type == OrderType::OFFER
                        && o.offerer@ == info.sender@
                        && o.recipient is None
                        && (o.offer.item matches Asset::Cw20(c)
                        && c.contract_address@ == old(self).config.vaura_address@
                        && c.amount == funds_amount)
                        && (o.consideration.item matches Asset::Nft(n)
                        && n.contract_address@ == nft.contract_address@
                        && (n.token_id matches Some(nt) && nt@ == t@)
                        && o.consideration.recipient@ == info.sender@)
                        && o.start_time is None
                        && o.end_time == Some(end_time)
                    &&& forall|k2: (Seq<char>, Seq<char>, Seq<char>)|
                        k2 != key ==> lookup(final(self).offers@, k2) == lookup(
                            old(self).offers@,
                            k2,
                        )
                }
            },
            r is Err ==> final(self).offers@ == old(self).offers@,
            r matches Err(e) ==> {
                if old(self).config.vaura_address@ == spec_unset_vaura() {
                    e == (ContractError::VauraAddressNotSet {})
                } else if end_time.spec_is_expired(env.block) {
                    e == (ContractError::InvalidEndTime {})
                } else if allowance < funds_amount {
                    e == (ContractError::InsufficientAllowance {})
                } else if nft.token_id is None {
                    e matches ContractError::CustomError { val }
                        && val@ == "Collection offer is not supported"@
                } else if owner_of is None {
                    e matches ContractError::CustomError { val } && val@ == "Nft not exist"@
                } else {
                    e matches ContractError::CustomError { val }
                        && val@ == "Cannot offer owned nft"@
                }
            },
    {
        let unset: String = String::from_str("aura0");
        if self.config.vaura_address == unset {
            return Err(ContractError::VauraAddressNotSet {});
        }
        if end_time.is_expired(&env.block) {
            return Err(ContractError::InvalidEndTime {});
        }
        if allowance < funds_amount {
            return Err(ContractError::InsufficientAllowance {});
        }
        let token_id = match &nft.token_id {
            Some(t) => t.clone(),
            None => {
                return Err(
                    ContractError::CustomError {
                        val: "Collection offer is not supported".to_owned(),
                    },
                );
            },
        };
        match &owner_of {
            Some(owner) => {
                if *owner == info.sender {
                    return Err(
                        ContractError::CustomError {
                            val: "Cannot offer owned nft".to_owned(),
                        },
                    );
                }
            },
            None => {
                return Err(
                    ContractError::CustomError { val: "Nft not exist".to_owned() },
                );
            },
        }
        let key = order_key(&info.sender, &nft.contract_address, token_id.as_str());
        let offer_leg = offer_item(
            &Asset::Cw20(
                CW20 {
                    contract_address: self.config.vaura_address.clone(),
                    amount: funds_amount,
                },
            ),
            funds_amount,
            funds_amount,
        );
        let consideration_leg = consideration_item(
            &Asset::Nft(
                NFT {
                    contract_address: nft.contract_address.clone(),
                    token_id: Some(token_id.clone()),
                },
            ),
            0,
            Some(0),
            Some(0),
            &info.sender,
        );
        let order = OrderComponents {
            order_type: OrderType::OFFER,
            order_id: (key.0.clone(), key.1.clone(), key.2.clone()),
            offerer: info.sender.clone(),
            recipient: None,
            offer: offer_leg,
            consideration: consideration_leg,
            start_time: None,
            end_time: Some(end_time),
            config: None,
        };
        self.offers.save(key, order);
        Ok(Response { messages: Vec::new() })
    }

    /// Accepts an offer on an NFT the caller owns: routes the offered
    /// fungible funds from the offerer through the settlement engine,
    /// transfers the NFT to the offerer, and deletes both the offer and
    /// any stale listing of the same NFT.
    pub fn execute_accept_nft_offer(
        &mut self,
        env: &Env,
        info: &MessageInfo,
        offerer: String,
        nft: NFT,
        funds_amount: u128,
        owner_of: Option<String>,
        royalty_info: Option<RoyaltiesInfoResponse>,
    ) -> (r: Result<Response, ContractError>)
        requires
            old(self).wf(),
        ensures
            final(self).wf(),
            final(self).config == old(self).config,
            final(self).auctions@ == old(self).auctions@,
            r is Ok <==> {
                &&& nft.token_id matches Some(t)
                &&& lookup(
                    old(self).offers@,
                    (offerer@, nft.contract_address@, t@),
                ) matches Some(o)
                    && !o.spec_is_expired(env.block)
                    && o.consideration.item is Nft
                    && (owner_of matches Some(ow) && ow@ == info.sender@)
                    && o.offer.item is Cw20
                    && funds_amount == o.offer.item.spec_as_payment().spec_amount()
                    && (match spec_effective_royalty(royalty_info, info.sender@) {
                        Some((creator, royalty_amount)) => royalty_amount
                            <= o.offer.item.spec_as_payment().spec_amount(),
                        None => true,
                    })
            },
            r matches Ok(resp) ==> nft.token_id matches Some(t) && {
                let key = (offerer@, nft.contract_address@, t@);
                &&& lookup(old(self).offers@, key) matches Some(o)
                    && (o.consideration.item matches Asset::Nft(n)
                    && {
                    let ct = if n.token_id is Some {
                        n.token_id->0@
                    } else {
                        t@
                    };
                    let lkey = (n.contract_address@, ct);
                    &&& !contains_key(final(self).listings@, lkey)
                    &&& forall|k2: (Seq<char>, Seq<char>)|
                        k2 != lkey ==> lookup(final(self).listings@, k2) == lookup(
                            old(self).listings@,
                            k2,
                        )
                    &&& resp.messages@.len() >= 2
                    &&& spec_settlement(
                        resp.messages@.subrange(0, resp.messages@.len() - 1),
                        o.offer.item.spec_as_payment(),
                        offerer@,
                        info.sender@,
                        royalty_info,
                    )
                    &&& resp.messages@.last() matches OutboundMsg::TransferNft {
                        contract_address: c,
                        recipient,
                        token_id: mt,
                    } && c@ == n.contract_address@ && recipient@ == o.offerer@ && mt@ == ct
                })
                &&& !contains_key(final(self).offers@, key)
                &&& forall|k2: (Seq<char>, Seq<char>, Seq<char>)|
                    k2 != key ==> lookup(final(self).offers@, k2) == lookup(
                        old(self).offers@,
                        k2,
                    )
            },
            r is Err ==> final(self).offers@ == old(self).offers@ && final(self).listings@
                == old(self).listings@,
            r matches Err(e) ==> {
                if nft.token_id is None {
                    e matches ContractError::CustomError { val }
                        && val@ == "Collection offer is not supported"@
                } else {
                    nft.token_id matches Some(t) && {
                        let prior = lookup(
                            old(self).offers@,
                            (offerer@, nft.contract_address@, t@),
                        );
                        if prior is None {
                            e == (ContractError::NotFound {})
                        } else {
                            prior matches Some(o) && {
                                if o.spec_is_expired(env.block) {
                                    e matches ContractError::CustomError { val }
                                        && val@ == "Offer is expired"@
                                } else if !(o.consideration.item is Nft) {
                                    e matches ContractError::CustomError { val }
                                        && val@ == "Consideration is not NFT"@
                                } else if !(owner_of matches Some(ow) && ow@ == info.sender@) {
                                    e == (ContractError::Unauthorized {})
                                } else if !(o.offer.item is Cw20) {
                                    e matches ContractError::CustomError { val }
                                        && val@ == "Invalid Offer funding type"@
                                } else if funds_amount != o.offer.item.spec_as_payment(
                                ).spec_amount() {
                                    e matches ContractError::CustomError { val }
                                        && val@ == "Insufficient funds"@
                                } else {
                                    e matches ContractError::CustomError { val }
                                        && val@ == "Royalty exceeds sale price"@
                                }
                            }
                        }
                    }
                }
            },
    {
        let token_id = match &nft.token_id {
            Some(t) => t.clone(),
            None => {
                return Err(
                    ContractError::CustomError {
                        val: "Collection offer is not supported".to_owned(),
                    },
                );
            },
        };
        let key = order_key(&offerer, &nft.contract_address, token_id.as_str());
        let order = match self.offers.get(&key) {
            Some(o) => o.duplicate(),
            None => {
                return Err(ContractError::NotFound {});
            },
        };
        if order.is_expired(&env.block) {
            return Err(ContractError::CustomError { val: "Offer is expired".to_owned() });
        }
        let consideration_nft = match &order.consideration.item {
            Asset::Nft(n) => n.duplicate(),
            _ => {
                return Err(
                    ContractError::CustomError {
                        val: "Consideration is not NFT".to_owned(),
                    },
                );
            },
        };
        match &owner_of {
            Some(owner) => {
                if *owner != info.sender {
                    return Err(ContractError::Unauthorized {});
                }
            },
            None => {
                return Err(ContractError::Unauthorized {});
            },
        }
        let payment = match PaymentAsset::try_from_asset(&order.offer.item) {
            Some(p@ PaymentAsset::Cw20 { .. }) => p,
            _ => {
                return Err(
                    ContractError::CustomError {
                        val: "Invalid Offer funding type".to_owned(),
                    },
                );
            },
        };
        let amount = match &payment {
            PaymentAsset::Cw20 { amount, .. } => *amount,
            PaymentAsset::Native { amount, .. } => *amount,
        };
        if funds_amount != amount {
            return Err(
                ContractError::CustomError { val: "Insufficient funds".to_owned() },
            );
        }
        let mut messages = payment_with_royalty(&payment, &offerer, &info.sender, royalty_info)?;
        let consideration_token = match &consideration_nft.token_id {
            Some(t) => t.clone(),
            None => token_id.clone(),
        };
        messages.push(
            OutboundMsg::TransferNft {
                contract_address: consideration_nft.contract_address.clone(),
                recipient: order.offerer.clone(),
                token_id: consideration_token.clone(),
            },
        );
        self.offers.remove(&key);
        let lkey = listing_key(&consideration_nft.contract_address, consideration_token.as_str());
        self.listings.remove(&lkey);
        Ok(Response { messages })
    }

    /// Cancels up to 50 of the caller's own offers in one batch.  The
    /// batch is all-or-nothing: if any referenced offer does not exist
    /// (or names no token), nothing is removed.
    pub fn execute_cancel_offer(
        &mut self,
        env: &Env,
        info: &MessageInfo,
        nfts: Vec<NFT>,
    ) -> (r: Result<Response, ContractError>)
        requires
            old(self).wf(),
        ensures
            final(self).wf(),
            final(self).config == old(self).config,
            final(self).listings@ == old(self).listings@,
            final(self).auctions@ == old(self).auctions@,
            r is Ok <==> {
                &&& nfts@.len() <= 50
                &&& forall|i: int|
                    0 <= i < nfts@.len() ==> ((#[trigger] nfts@[i]).token_id matches Some(t)
                        && contains_key(
                        old(self).offers@,
                        (info.sender@, nfts@[i].contract_address@, t@),
                    ))
            },
            r is Ok ==> {
                &&& forall|i: int|
                    0 <= i < nfts@.len() ==> !contains_key(
                        final(self).offers@,
                        (
                            info.sender@,
                            (#[trigger] nfts@[i]).contract_address@,
                            nfts@[i].token_id->0@,
                        ),
                    )
                &&& forall|k2: (Seq<char>, Seq<char>, Seq<char>)|
                    !spec_batch_key(k2, info.sender@, nfts@) ==> lookup(final(self).offers@, k2)
                        == lookup(old(self).offers@, k2)
            },
            r matches Ok(resp) ==> resp.messages@.len() == 0,
            r is Err ==> final(self).offers@ == old(self).offers@,
            r matches Err(e) ==> {
                if nfts@.len() > 50 {
                    e matches ContractError::CustomError { val }
                        && val@ == "Number of NFTs is greater than 50"@
                } else {
                    e matches ContractError::CustomError { val }
                        && val@ == "Offer does not exist"@
                }
            },
    {
        if nfts.len() > 50 {
            return Err(
                ContractError::CustomError {
                    val: "Number of NFTs is greater than 50".to_owned(),
                },
            );
        }
        let n = nfts.len();
        let mut i: usize = 0;
        while i < n
            invariant
                n == nfts@.len(),
                n <= 50,
                i <= n,
                self == old(self),
                self.wf(),
                forall|j: int|
                    0 <= j < i ==> ((#[trigger] nfts@[j]).token_id matches Some(t)
                        && contains_key(
                        self.offers@,
                        (info.sender@, nfts@[j].contract_address@, t@),
                    )),
            decreases n - i,
        {
            match &nfts[i].token_id {
                Some(t) => {
                    let key = order_key(&info.sender, &nfts[i].contract_address, t.as_str());
                    if !self.offers.contains(&key) {
                        return Err(
                            ContractError::CustomError {
                                val: "Offer does not exist".to_owned(),
                            },
                        );
                    }
                },
                None => {
                    return Err(
                        ContractError::CustomError {
                            val: "Offer does not exist".to_owned(),
                        },
                    );
                },
            }
            i = i + 1;
        }
        let mut i: usize = 0;
        while i < n
            invariant
                n == nfts@.len(),
                i <= n,
                self.wf(),
                self.config == old(self).config,
                self.listings@ == old(self).listings@,
                self.auctions@ == old(self).auctions@,
                forall|j: int|
                    0 <= j < n ==> (#[trigger] nfts@[j]).token_id is Some,
                forall|j: int|
                    0 <= j < i ==> !contains_key(
                        self.offers@,
                        (
                            info.sender@,
                            (#[trigger] nfts@[j]).contract_address@,
                            nfts@[j].token_id->0@,
                        ),
                    ),
                forall|k2: (Seq<char>, Seq<char>, Seq<char>)|
                    !spec_batch_key(k2, info.sender@, nfts@) ==> lookup(self.offers@, k2)
                        == lookup(old(self).offers@, k2),
            decreases n - i,
        {
            match &nfts[i].token_id {
                Some(t) => {
                    let key = order_key(&info.sender, &nfts[i].contract_address, t.as_str());
                    proof {
                        assert(spec_batch_key(key@, info.sender@, nfts@));
                    }
                    self.offers.remove(&key);
                },
                None => {},
            }
            i = i + 1;
        }
        Ok(Response { messages: Vec::new() })
    }

    /// Overrides the fungible-token address used for offers.  Admin
    /// only.
    pub fn execute_edit_vaura_token(
        &mut self,
        info: &MessageInfo,
        token_address: String,
    ) -> (r: Result<Response, ContractError>)
        requires
            old(self).wf(),
        ensures
            final(self).wf(),
            final(self).listings@ == old(self).listings@,
            final(self).offers@ == old(self).offers@,
            final(self).auctions@ == old(self).auctions@,
            final(self).config.owner == old(self).config.owner,
            r is Ok <==> old(self).config.owner@ == info.sender@,
            r is Ok ==> final(self).config.vaura_address@ == token_address@,
            r is Err ==> final(self).config == old(self).config,
            r matches Err(e) ==> e == (ContractError::Unauthorized {}),
            r matches Ok(resp) ==> resp.messages@.len() == 0,
    {
        if self.config.owner != info.sender {
            return Err(ContractError::Unauthorized {});
        }
        self.config.vaura_address = token_address;
        Ok(Response { messages: Vec::new() })
    }
}

} // verus!
