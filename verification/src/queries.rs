//! Read-only range scans over the stores.
//!
//! The stores keep their entries in ascending key order, so a backwards
//! walk yields results in descending key order — the fixed order of
//! every paginated scan, optionally starting strictly after a named
//! key and clamped to a page-size ceiling.

use vstd::prelude::*;

use crate::asset::NFT;
use crate::error::ContractError;
use crate::msg::{AuctionsResponse, ListingsResponse, OffersResponse};
use crate::order::{order_key, OrderComponents, OrderKey};
use crate::state::{listing_key, Env, Listing, ListingKey, MarketplaceContract};
use crate::store::{contains_key, index_of, lookup, KeyedStore};

verus! {

/// The page-size ceiling: a missing limit defaults to it and a larger
/// one is clamped to it.
pub const MAX_LIMIT: u32 = 30;

/// The matching values of `s`, scanned from its end, at most `limit` of
/// them.
pub open spec fn scan_rev<K, V>(s: Seq<(K, V)>, pred: spec_fn(V) -> bool, limit: int) -> Seq<
    V,
>
    decreases s.len(),
{
    if s.len() == 0 || limit <= 0 {
        Seq::empty()
    } else {
        let last = s[s.len() - 1].1;
        if pred(last) {
            seq![last] + scan_rev(s.drop_last(), pred, limit - 1)
        } else {
            scan_rev(s.drop_last(), pred, limit)
        }
    }
}

/// Where a scan that starts strictly after `k` begins: at `k`'s
/// position when it is bound, else at the end.
pub open spec fn scan_start<K: View, V>(s: Seq<(K, V)>, k: Option<K::V>) -> int {
    match k {
        Some(key) => if contains_key(s, key) {
            index_of(s, key)
        } else {
            s.len() as int
        },
        None => s.len() as int,
    }
}

/// The effective page size.
pub open spec fn spec_limit(limit: Option<u32>) -> int {
    match limit {
        Some(l) => if l < MAX_LIMIT {
            l as int
        } else {
            MAX_LIMIT as int
        },
        None => MAX_LIMIT as int,
    }
}

fn effective_limit(limit: Option<u32>) -> (r: usize)
    ensures
        r == spec_limit(limit),
{
    match limit {
        Some(l) => if l < MAX_LIMIT {
            l as usize
        } else {
            MAX_LIMIT as usize
        },
        None => MAX_LIMIT as usize,
    }
}

/// Listings of one NFT contract.
pub open spec fn pred_listing_of_contract(contract: Seq<char>) -> spec_fn(Listing) -> bool {
    |l: Listing| l.contract_address@ == contract
}

/// Offers on one NFT, whatever the offerer.
pub open spec fn pred_offer_on_nft(contract: Seq<char>, token: Seq<char>) -> spec_fn(
    OrderComponents,
) -> bool {
    |o: OrderComponents| o.order_id.1@ == contract && o.order_id.2@ == token
}

/// Offers created by one user.
pub open spec fn pred_offer_of_user(user: Seq<char>) -> spec_fn(OrderComponents) -> bool {
    |o: OrderComponents| o.order_id.0@ == user
}

/// Auctions opened by one seller.
pub open spec fn pred_auction_of_owner(owner: Seq<char>) -> spec_fn(OrderComponents) -> bool {
    |o: OrderComponents| o.offerer@ == owner
}

/// Auctions whose current bidder is one buyer.
pub open spec fn pred_auction_of_buyer(buyer: Seq<char>) -> spec_fn(OrderComponents) -> bool {
    |o: OrderComponents| o.consideration.recipient@ == buyer
}

/// The position of a listing key in the store's key order.
fn find_listing_index(store: &KeyedStore<ListingKey, Listing>, key: &ListingKey) -> (r: Option<
    usize,
>)
    requires
        store.wf(),
    ensures
        match r {
            Some(i) => contains_key(store@, key@) && i == index_of(store@, key@),
            None => !contains_key(store@, key@),
        },
{
    let n = store.len();
    let mut i: usize = 0;
    while i < n
        invariant
            store.wf(),
            n == store@.len(),
            i <= n,
            forall|j: int| 0 <= j < i ==> store@[j].0@ != key@,
        decreases n - i,
    {
        let entry = store.entry_at(i);
        if entry.0.0 == key.0 && entry.0.1 == key.1 {
            proof {
                crate::store::lemma_index_unique(store@, key@, i as int);
            }
            return Some(i);
        }
        i = i + 1;
    }
    None
}

/// Collects, in descending key order, the listings of one NFT
/// contract before position `start`, stopping at `limit` of them.
fn scan_listings(
    store: &KeyedStore<ListingKey, Listing>,
    start: usize,
    limit: usize,
    contract_address: &String,
) -> (r: Vec<Listing>)
    requires
        store.wf(),
        start <= store@.len(),
    ensures
        r@ == scan_rev(
            store@.take(start as int),
            pred_listing_of_contract(contract_address@),
            limit as int,
        ),
{
    let ghost s = store@.take(start as int);
    let mut out: Vec<Listing> = Vec::new();
    let mut i: usize = start;
    proof {
        assert(s.take(i as int) =~= s);
        assert(Seq::<Listing>::empty() + scan_rev(
            s,
            pred_listing_of_contract(contract_address@),
            limit as int,
        ) =~= scan_rev(s, pred_listing_of_contract(contract_address@), limit as int));
    }
    while i > 0 && out.len() < limit
        invariant
            store.wf(),
            s == store@.take(start as int),
            i <= start <= store@.len(),
            out@.len() <= limit,
            s.take(i as int).len() == i,
            scan_rev(s, pred_listing_of_contract(contract_address@), limit as int) == out@
                + scan_rev(
                s.take(i as int),
                pred_listing_of_contract(contract_address@),
                limit - out@.len(),
            ),
        decreases i,
    {
        i = i - 1;
        let entry = store.entry_at(i);
        let ghost out0 = out@;
        proof {
            let t = s.take(i as int + 1);
            assert(t.drop_last() =~= s.take(i as int));
            assert(t.last() == store@[i as int]);
            assert(t.len() == i + 1);
            if pred_listing_of_contract(contract_address@)(t[t.len() - 1].1) {
                assert(scan_rev(
                    t,
                    pred_listing_of_contract(contract_address@),
                    limit - out0.len(),
                ) == seq![t.last().1] + scan_rev(
                    s.take(i as int),
                    pred_listing_of_contract(contract_address@),
                    limit - out0.len() - 1,
                ));
            } else {
                assert(scan_rev(
                    t,
                    pred_listing_of_contract(contract_address@),
                    limit - out0.len(),
                ) == scan_rev(
                    s.take(i as int),
                    pred_listing_of_contract(contract_address@),
                    limit - out0.len(),
                ));
            }
        }
        if entry.1.contract_address == *contract_address {
            out.push(entry.1.duplicate());
            proof {
                assert(out0 + (seq![store@[i as int].1] + scan_rev(
                    s.take(i as int),
                    pred_listing_of_contract(contract_address@),
                    limit - out0.len() - 1,
                )) =~= out@ + scan_rev(
                    s.take(i as int),
                    pred_listing_of_contract(contract_address@),
                    limit - out@.len(),
                ));
            }
        }
    }
    proof {
        if i == 0 {
            assert(s.take(0) =~= Seq::<(ListingKey, Listing)>::empty());
        }
        assert(scan_rev(
            s.take(i as int),
            pred_listing_of_contract(contract_address@),
            limit - out@.len(),
        ) =~= Seq::<Listing>::empty());
        assert(out@ + Seq::<Listing>::empty() =~= out@);
    }
    out
}

/// The position of an order key in the store's key order.
fn find_order_index(store: &KeyedStore<OrderKey, OrderComponents>, key: &OrderKey) -> (r: Option<
    usize,
>)
    requires
        store.wf(),
    ensures
        match r {
            Some(i) => contains_key(store@, key@) && i == index_of(store@, key@),
            None => !contains_key(store@, key@),
        },
{
    let n = store.len();
    let mut i: usize = 0;
    while i < n
        invariant
            store.wf(),
            n == store@.len(),
            i <= n,
            forall|j: int| 0 <= j < i ==> store@[j].0@ != key@,
        decreases n - i,
    {
        let entry = store.entry_at(i);
        if entry.0.0 == key.0 && entry.0.1 == key.1 && entry.0.2 == key.2 {
            proof {
                crate::store::lemma_index_unique(store@, key@, i as int);
            }
            return Some(i);
        }
        i = i + 1;
    }
    None
}

/// Collects, in descending key order, the orders before position
/// `start` that satisfy the matching rule, stopping at `limit` of
/// them.  `which` selects the
/// matching rule so the proof and the run-time test agree.
fn scan_orders(
    store: &KeyedStore<OrderKey, OrderComponents>,
    start: usize,
    limit: usize,
    which: &OrderScanKind,
) -> (r: Vec<OrderComponents>)
    requires
        store.wf(),
        start <= store@.len(),
    ensures
        r@ == scan_rev(store@.take(start as int), which.spec_pred(), limit as int),
{
    let ghost s = store@.take(start as int);
    let mut out: Vec<OrderComponents> = Vec::new();
    let mut i: usize = start;
    proof {
        assert(s.take(i as int) =~= s);
        assert(Seq::<OrderComponents>::empty() + scan_rev(s, which.spec_pred(), limit as int) =~= scan_rev(
            s,
            which.spec_pred(),
            limit as int,
        ));
    }
    while i > 0 && out.len() < limit
        invariant
            store.wf(),
            s == store@.take(start as int),
            i <= start <= store@.len(),
            out@.len() <= limit,
            s.take(i as int).len() == i,
            scan_rev(s, which.spec_pred(), limit as int) == out@ + scan_rev(
                s.take(i as int),
                which.spec_pred(),
                limit - out@.len(),
            ),
        decreases i,
    {
        i = i - 1;
        let entry = store.entry_at(i);
        let ghost out0 = out@;
        let matched = which.matches_order(&entry.1);
        proof {
            let t = s.take(i as int + 1);
            assert(t.drop_last() =~= s.take(i as int));
            assert(t.len() == i + 1);
            assert(t[t.len() - 1] == store@[i as int]);
            assert(matched == which.spec_pred()(t[t.len() - 1].1));
            if matched {
                assert(scan_rev(t, which.spec_pred(), limit - out0.len()) == seq![t[t.len() - 1].1]
                    + scan_rev(s.take(i as int), which.spec_pred(), limit - out0.len() - 1));
            } else {
                assert(scan_rev(t, which.spec_pred(), limit - out0.len()) == scan_rev(
                    s.take(i as int),
                    which.spec_pred(),
                    limit - out0.len(),
                ));
            }
        }
        if matched {
            out.push(entry.1.duplicate());
            proof {
                let t = s.take(i as int + 1);
                assert(out0 + (seq![t[t.len() - 1].1] + scan_rev(
                    s.take(i as int),
                    which.spec_pred(),
                    limit - out0.len() - 1,
                )) =~= out@ + scan_rev(s.take(i as int), which.spec_pred(), limit - out@.len()));
            }
        }
    }
    proof {
        if i == 0 {
            assert(s.take(0) =~= Seq::<(OrderKey, OrderComponents)>::empty());
        }
        assert(scan_rev(s.take(i as int), which.spec_pred(), limit - out@.len()) =~= Seq::<
            OrderComponents,
        >::empty());
        assert(out@ + Seq::<OrderComponents>::empty() =~= out@);
    }
    out
}

/// Which orders a scan keeps.
pub enum OrderScanKind {
    OfferOnNft { contract_address: String, token_id: String },
    OfferOfUser { user: String },
    AuctionOfOwner { owner: String },
    AuctionOfBuyer { buyer: String },
}

impl OrderScanKind {
    /// The matching rule as a predicate on orders.
    pub open spec fn spec_pred(&self) -> spec_fn(OrderComponents) -> bool {
        match self {
            OrderScanKind::OfferOnNft { contract_address, token_id } => pred_offer_on_nft(
                contract_address@,
                token_id@,
            ),
            OrderScanKind::OfferOfUser { user } => pred_offer_of_user(user@),
            OrderScanKind::AuctionOfOwner { owner } => pred_auction_of_owner(owner@),
            OrderScanKind::AuctionOfBuyer { buyer } => pred_auction_of_buyer(buyer@),
        }
    }

    fn matches_order(&self, o: &OrderComponents) -> (r: bool)
        ensures
            r == self.spec_pred()(*o),
    {
        match self {
            OrderScanKind::OfferOnNft { contract_address, token_id } => {
                o.order_id.1 == *contract_address && o.order_id.2 == *token_id
            },
            OrderScanKind::OfferOfUser { user } => o.order_id.0 == *user,
            OrderScanKind::AuctionOfOwner { owner } => o.offerer == *owner,
            OrderScanKind::AuctionOfBuyer { buyer } => o.consideration.recipient == *buyer,
        }
    }
}

impl MarketplaceContract {
    /// The listing of one NFT.
    pub fn query_listing(&self, contract_address: String, token_id: String) -> (r: Result<
        Listing,
        ContractError,
    >)
        requires
            self.wf(),
        ensures
            match lookup(self.listings@, (contract_address@, token_id@)) {
                Some(l) => r == Ok::<Listing, ContractError>(l),
                None => r == Err::<Listing, ContractError>(ContractError::NotFound {}),
            },
    {
        let key = listing_key(&contract_address, token_id.as_str());
        match self.listings.get(&key) {
            Some(l) => Ok(l.duplicate()),
            None => Err(ContractError::NotFound {}),
        }
    }

    /// One offer, by NFT and offerer.
    pub fn query_offer(&self, contract_address: String, token_id: String, offerer: String) -> (r:
        Result<OrderComponents, ContractError>)
        requires
            self.wf(),
        ensures
            match lookup(self.offers@, (offerer@, contract_address@, token_id@)) {
                Some(o) => r == Ok::<OrderComponents, ContractError>(o),
                None => r == Err::<OrderComponents, ContractError>(ContractError::NotFound {}),
            },
    {
        let key = order_key(&offerer, &contract_address, token_id.as_str());
        match self.offers.get(&key) {
            Some(o) => Ok(o.duplicate()),
            None => Err(ContractError::NotFound {}),
        }
    }

    /// The auction of one NFT.
    pub fn query_nft_auction(&self, env: &Env, contract_address: String, token_id: String) -> (r:
        Result<OrderComponents, ContractError>)
        requires
            self.wf(),
        ensures
            match lookup(
                self.auctions@,
                (env.contract_address@, contract_address@, token_id@),
            ) {
                Some(o) => r == Ok::<OrderComponents, ContractError>(o),
                None => r == Err::<OrderComponents, ContractError>(ContractError::NotFound {}),
            },
    {
        let key = order_key(&env.contract_address, &contract_address, token_id.as_str());
        match self.auctions.get(&key) {
            Some(o) => Ok(o.duplicate()),
            None => Err(ContractError::NotFound {}),
        }
    }

    /// The listings of one NFT contract, in descending key order.
    pub fn query_listings_by_contract_address(
        &self,
        contract_address: String,
        start_after: Option<String>,
        limit: Option<u32>,
    ) -> (r: ListingsResponse)
        requires
            self.wf(),
        ensures
            r.listings@ == scan_rev(
                self.listings@.take(
                    scan_start(
                        self.listings@,
                        match start_after {
                            Some(t) => Some((contract_address@, t@)),
                            None => None,
                        },
                    ),
                ),
                pred_listing_of_contract(contract_address@),
                spec_limit(limit),
            ),
    {
        let limit = effective_limit(limit);
        let start: usize = match &start_after {
            Some(t) => {
                let key = listing_key(&contract_address, t.as_str());
                match find_listing_index(&self.listings, &key) {
                    Some(idx) => idx,
                    None => self.listings.len(),
                }
            },
            None => self.listings.len(),
        };
        let listings = scan_listings(&self.listings, start, limit, &contract_address);
        ListingsResponse { listings }
    }

    /// All offers on one NFT, in descending key order.
    pub fn query_nft_offers(
        &self,
        contract_address: String,
        token_id: String,
        start_after_offerer: Option<String>,
        limit: Option<u32>,
    ) -> (r: OffersResponse)
        requires
            self.wf(),
        ensures
            r.offers@ == scan_rev(
                self.offers@.take(
                    scan_start(
                        self.offers@,
                        match start_after_offerer {
                            Some(of) => Some((of@, contract_address@, token_id@)),
                            None => None,
                        },
                    ),
                ),
                pred_offer_on_nft(contract_address@, token_id@),
                spec_limit(limit),
            ),
    {
        let limit = effective_limit(limit);
        let start: usize = match &start_after_offerer {
            Some(of) => {
                let key = order_key(of, &contract_address, token_id.as_str());
                match find_order_index(&self.offers, &key) {
                    Some(idx) => idx,
                    None => self.offers.len(),
                }
            },
            None => self.offers.len(),
        };
        let which = OrderScanKind::OfferOnNft {
            contract_address: contract_address.clone(),
            token_id: token_id.clone(),
        };
        let offers = scan_orders(&self.offers, start, limit, &which);
        OffersResponse { offers }
    }

    /// All offers one user has open, in descending key order.
    pub fn query_user_offers(
        &self,
        offerer: String,
        start_after_nft: Option<NFT>,
        limit: Option<u32>,
    ) -> (r: OffersResponse)
        requires
            self.wf(),
        ensures
            r.offers@ == scan_rev(
                self.offers@.take(
                    scan_start(self.offers@, spec_start_key(offerer@, start_after_nft)),
                ),
                pred_offer_of_user(offerer@),
                spec_limit(limit),
            ),
    {
        let limit = effective_limit(limit);
        let start: usize = self.start_index_offers(&offerer, &start_after_nft);
        let which = OrderScanKind::OfferOfUser { user: offerer.clone() };
        let offers = scan_orders(&self.offers, start, limit, &which);
        OffersResponse { offers }
    }

    /// All auctions one seller has open, in descending key order.
    pub fn query_owner_auctions(
        &self,
        env: &Env,
        owner: String,
        start_after_nft: Option<NFT>,
        limit: Option<u32>,
    ) -> (r: AuctionsResponse)
        requires
            self.wf(),
        ensures
            r.auctions@ == scan_rev(
                self.auctions@.take(
                    scan_start(
                        self.auctions@,
                        spec_start_key(env.contract_address@, start_after_nft),
                    ),
                ),
                pred_auction_of_owner(owner@),
                spec_limit(limit),
            ),
    {
        let limit = effective_limit(limit);
        let start: usize = self.start_index_auctions(&env.contract_address, &start_after_nft);
        let which = OrderScanKind::AuctionOfOwner { owner: owner.clone() };
        let auctions = scan_orders(&self.auctions, start, limit, &which);
        AuctionsResponse { auctions }
    }

    /// All auctions one buyer currently leads, in descending key order.
    pub fn query_buyer_auctions(
        &self,
        env: &Env,
        buyer: String,
        start_after_nft: Option<NFT>,
        limit: Option<u32>,
    ) -> (r: AuctionsResponse)
        requires
            self.wf(),
        ensures
            r.auctions@ == scan_rev(
                self.auctions@.take(
                    scan_start(
                        self.auctions@,
                        spec_start_key(env.contract_address@, start_after_nft),
                    ),
                ),
                pred_auction_of_buyer(buyer@),
                spec_limit(limit),
            ),
    {
        let limit = effective_limit(limit);
        let start: usize = self.start_index_auctions(&env.contract_address, &start_after_nft);
        let which = OrderScanKind::AuctionOfBuyer { buyer: buyer.clone() };
        let auctions = scan_orders(&self.auctions, start, limit, &which);
        AuctionsResponse { auctions }
    }

    /// The scan start position an `Option<NFT>` bound selects in the
    /// offers store.
    fn start_index_offers(&self, actor: &String, start_after_nft: &Option<NFT>) -> (r: usize)
        requires
            self.wf(),
        ensures
            r == scan_start(self.offers@, spec_start_key(actor@, *start_after_nft)),
    {
        match start_after_nft {
            Some(nft) => match &nft.token_id {
                Some(t) => {
                    let key = order_key(actor, &nft.contract_address, t.as_str());
                    match find_order_index(&self.offers, &key) {
                        Some(idx) => idx,
                        None => self.offers.len(),
                    }
                },
                None => self.offers.len(),
            },
            None => self.offers.len(),
        }
    }

    /// The scan start position an `Option<NFT>` bound selects in the
    /// auctions store.
    fn start_index_auctions(&self, actor: &String, start_after_nft: &Option<NFT>) -> (r: usize)
        requires
            self.wf(),
        ensures
            r == scan_start(self.auctions@, spec_start_key(actor@, *start_after_nft)),
    {
        match start_after_nft {
            Some(nft) => match &nft.token_id {
                Some(t) => {
                    let key = order_key(actor, &nft.contract_address, t.as_str());
                    match find_order_index(&self.auctions, &key) {
                        Some(idx) => idx,
                        None => self.auctions.len(),
                    }
                },
                None => self.auctions.len(),
            },
            None => self.auctions.len(),
        }
    }
}

/// The exclusive start key an `Option<NFT>` bound names, if it names
/// one.
pub open spec fn spec_start_key(actor: Seq<char>, start_after_nft: Option<NFT>) -> Option<
    (Seq<char>, Seq<char>, Seq<char>),
> {
    match start_after_nft {
        Some(nft) => match nft.token_id {
            Some(t) => Some((actor, nft.contract_address@, t@)),
            None => None,
        },
        None => None,
    }
}

} // verus!
