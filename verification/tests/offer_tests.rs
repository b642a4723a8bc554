//! Offer flows: placing fungible-token offers on NFTs, accepting them,
//! and the all-or-nothing batch cancellation.

use nft_market::asset::{Coin, NFT};
use nft_market::error::ContractError;
use nft_market::expiration::{BlockInfo, Expiration};
use nft_market::msgs::OutboundMsg;
use nft_market::royalty::RoyaltiesInfoResponse;
use nft_market::state::{Env, MarketplaceContract, MessageInfo};

const CW2981_ADDR: &str = "cw2981_addr";
const VAURA_ADDR: &str = "vaura_addr";
const BASE_TIME: u64 = 1_571_797_419_879_305_533;
const SECOND: u64 = 1_000_000_000;

fn mock_env() -> Env {
    Env {
        block: BlockInfo {
            height: 12_345,
            time: BASE_TIME,
        },
        contract_address: "marketplace_addr".to_string(),
    }
}

fn info(sender: &str) -> MessageInfo {
    MessageInfo {
        sender: sender.to_string(),
        funds: Vec::<Coin>::new(),
    }
}

fn nft(token_id: &str) -> NFT {
    NFT {
        contract_address: CW2981_ADDR.to_string(),
        token_id: Some(token_id.to_string()),
    }
}

fn market_with_vaura() -> MarketplaceContract {
    let mut market = MarketplaceContract::new("owner".to_string(), "aura0".to_string());
    market
        .execute_edit_vaura_token(&info("owner"), VAURA_ADDR.to_string())
        .unwrap();
    market
}

fn place_offer(
    market: &mut MarketplaceContract,
    offerer: &str,
    token_id: &str,
    amount: u128,
) -> Result<nft_market::msgs::Response, ContractError> {
    let env = mock_env();
    market.execute_offer_nft(
        &env,
        &info(offerer),
        nft(token_id),
        amount,
        Expiration::AtTime(BASE_TIME + 1000 * SECOND),
        // the offerer pre-authorized the full amount, and the token's
        // owner is somebody else
        amount,
        Some("owner".to_string()),
    )
}

#[test]
fn offer_requires_vaura_address() {
    let mut market = MarketplaceContract::new("owner".to_string(), "aura0".to_string());
    let env = mock_env();
    let res = market.execute_offer_nft(
        &env,
        &info("offerer"),
        nft("1"),
        100,
        Expiration::AtTime(BASE_TIME + 1000 * SECOND),
        100,
        Some("owner".to_string()),
    );
    match res {
        Err(ContractError::VauraAddressNotSet {}) => {}
        other => panic!("Unexpected result: {:?}", other.is_ok()),
    }
}

#[test]
fn offer_requires_allowance() {
    let mut market = market_with_vaura();
    let env = mock_env();
    let res = market.execute_offer_nft(
        &env,
        &info("offerer"),
        nft("1"),
        100,
        Expiration::AtTime(BASE_TIME + 1000 * SECOND),
        99,
        Some("owner".to_string()),
    );
    match res {
        Err(ContractError::InsufficientAllowance {}) => {}
        other => panic!("Unexpected result: {:?}", other.is_ok()),
    }
}

#[test]
fn cannot_offer_own_nft() {
    let mut market = market_with_vaura();
    let env = mock_env();
    let res = market.execute_offer_nft(
        &env,
        &info("owner"),
        nft("1"),
        100,
        Expiration::AtTime(BASE_TIME + 1000 * SECOND),
        100,
        Some("owner".to_string()),
    );
    match res {
        Err(ContractError::CustomError { val }) => assert_eq!(val, "Cannot offer owned nft"),
        other => panic!("Unexpected result: {:?}", other.is_ok()),
    }
}

#[test]
fn accept_offer_routes_payment_and_nft() {
    let mut market = market_with_vaura();
    place_offer(&mut market, "offerer", "1", 100).unwrap();

    let offer = market
        .query_offer(
            CW2981_ADDR.to_string(),
            "1".to_string(),
            "offerer".to_string(),
        )
        .unwrap();
    assert_eq!(offer.offerer, "offerer");

    let env = mock_env();
    let res = market
        .execute_accept_nft_offer(
            &env,
            &info("owner"),
            "offerer".to_string(),
            nft("1"),
            100,
            Some("owner".to_string()),
            Some(RoyaltiesInfoResponse {
                address: "creator".to_string(),
                royalty_amount: 10,
            }),
        )
        .unwrap();

    // the creator's cut and the seller's remainder move as fungible
    // transfer-from instructions, then the NFT goes to the offerer
    assert_eq!(res.messages.len(), 3);
    assert_eq!(
        res.messages[0],
        OutboundMsg::Cw20TransferFrom {
            token_address: VAURA_ADDR.to_string(),
            owner: "offerer".to_string(),
            recipient: "creator".to_string(),
            amount: 10,
        }
    );
    assert_eq!(
        res.messages[1],
        OutboundMsg::Cw20TransferFrom {
            token_address: VAURA_ADDR.to_string(),
            owner: "offerer".to_string(),
            recipient: "owner".to_string(),
            amount: 90,
        }
    );
    assert_eq!(
        res.messages[2],
        OutboundMsg::TransferNft {
            contract_address: CW2981_ADDR.to_string(),
            recipient: "offerer".to_string(),
            token_id: "1".to_string(),
        }
    );

    // the offer is gone
    assert!(market
        .query_offer(
            CW2981_ADDR.to_string(),
            "1".to_string(),
            "offerer".to_string(),
        )
        .is_err());
}

#[test]
fn only_owner_accepts_offer() {
    let mut market = market_with_vaura();
    place_offer(&mut market, "offerer", "1", 100).unwrap();

    let env = mock_env();
    let res = market.execute_accept_nft_offer(
        &env,
        &info("stranger"),
        "offerer".to_string(),
        nft("1"),
        100,
        Some("owner".to_string()),
        None,
    );
    match res {
        Err(ContractError::Unauthorized {}) => {}
        other => panic!("Unexpected result: {:?}", other.is_ok()),
    }
}

#[test]
fn cancel_offer_is_all_or_nothing() {
    let mut market = market_with_vaura();
    place_offer(&mut market, "offerer", "1", 100).unwrap();
    place_offer(&mut market, "offerer", "2", 100).unwrap();

    let env = mock_env();
    // one of the referenced offers does not exist: the whole batch
    // fails and both existing offers survive
    let res = market.execute_cancel_offer(
        &env,
        &info("offerer"),
        vec![nft("1"), nft("2"), nft("3")],
    );
    match res {
        Err(ContractError::CustomError { val }) => assert_eq!(val, "Offer does not exist"),
        other => panic!("Unexpected result: {:?}", other.is_ok()),
    }
    assert!(market
        .query_offer(
            CW2981_ADDR.to_string(),
            "1".to_string(),
            "offerer".to_string(),
        )
        .is_ok());

    // naming only existing offers removes them all
    market
        .execute_cancel_offer(&env, &info("offerer"), vec![nft("1"), nft("2")])
        .unwrap();
    assert!(market
        .query_offer(
            CW2981_ADDR.to_string(),
            "1".to_string(),
            "offerer".to_string(),
        )
        .is_err());
    assert!(market
        .query_offer(
            CW2981_ADDR.to_string(),
            "2".to_string(),
            "offerer".to_string(),
        )
        .is_err());
}

#[test]
fn offers_are_queryable_by_nft_and_user() {
    let mut market = market_with_vaura();
    place_offer(&mut market, "alice", "1", 100).unwrap();
    place_offer(&mut market, "bob", "1", 150).unwrap();
    place_offer(&mut market, "alice", "2", 120).unwrap();

    let by_nft = market.query_nft_offers(CW2981_ADDR.to_string(), "1".to_string(), None, None);
    assert_eq!(by_nft.offers.len(), 2);

    let by_user = market.query_user_offers("alice".to_string(), None, None);
    assert_eq!(by_user.offers.len(), 2);
    // descending key order
    assert_eq!(by_user.offers[0].order_id.2, "2");
}
