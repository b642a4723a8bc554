//! Fixed-price listing and buying flows, driving the library's
//! handlers directly: the host's querier is replaced by the oracle
//! answers the tests hand in.

use nft_market::asset::Coin;
use nft_market::error::ContractError;
use nft_market::expiration::{BlockInfo, Expiration};
use nft_market::msgs::OutboundMsg;
use nft_market::order::AuctionConfig;
use nft_market::royalty::RoyaltiesInfoResponse;
use nft_market::state::{Env, MarketplaceContract, MessageInfo};

const MOCK_CW2981_ADDR: &str = "cw2981_addr";
const MARKETPLACE_ADDR: &str = "marketplace_addr";
const BASE_HEIGHT: u64 = 12_345;
const BASE_TIME: u64 = 1_571_797_419_879_305_533;

fn mock_env() -> Env {
    Env {
        block: BlockInfo {
            height: BASE_HEIGHT,
            time: BASE_TIME,
        },
        contract_address: MARKETPLACE_ADDR.to_string(),
    }
}

fn mock_info(sender: &str, funds: Vec<Coin>) -> MessageInfo {
    MessageInfo {
        sender: sender.to_string(),
        funds,
    }
}

fn coins(amount: u128, denom: &str) -> Vec<Coin> {
    vec![Coin {
        denom: denom.to_string(),
        amount,
    }]
}

fn mock_market() -> MarketplaceContract {
    MarketplaceContract::new("owner".to_string(), "aura0".to_string())
}

/// What the royalty oracle of the mock collection answers per token:
/// token "1" pays 10 to "creator", token "2" pays 0, token "3" pays 10
/// to "owner" itself, anything else fails the query.
fn mock_royalty(token_id: &str) -> Option<RoyaltiesInfoResponse> {
    match token_id {
        "1" => Some(RoyaltiesInfoResponse {
            address: "creator".to_string(),
            royalty_amount: 10,
        }),
        "2" => Some(RoyaltiesInfoResponse {
            address: "creator".to_string(),
            royalty_amount: 0,
        }),
        "3" => Some(RoyaltiesInfoResponse {
            address: "owner".to_string(),
            royalty_amount: 10,
        }),
        _ => None,
    }
}

fn create_listing(
    market: &mut MarketplaceContract,
    sender: &str,
    contract_address: &str,
    token_id: &str,
    start_time: Option<Expiration>,
    end_time: Option<Expiration>,
) -> Result<nft_market::msgs::Response, ContractError> {
    create_listing_with_price(
        market,
        sender,
        contract_address,
        token_id,
        100,
        start_time,
        end_time,
    )
}

fn create_listing_with_price(
    market: &mut MarketplaceContract,
    sender: &str,
    contract_address: &str,
    token_id: &str,
    price: u128,
    start_time: Option<Expiration>,
    end_time: Option<Expiration>,
) -> Result<nft_market::msgs::Response, ContractError> {
    let env = mock_env();
    let info = mock_info(sender, coins(1000, "uaura"));
    // the mock collection reports "owner" as every token's owner and a
    // never-expiring approval
    market.execute_list_nft(
        &env,
        &info,
        contract_address.to_string(),
        token_id.to_string(),
        AuctionConfig::FixedPrice {
            price: Coin {
                denom: "uaura".to_string(),
                amount: price,
            },
            start_time,
            end_time,
        },
        Some("owner".to_string()),
        Some(Expiration::Never),
    )
}

fn buy(
    market: &mut MarketplaceContract,
    env: &Env,
    sender: &str,
    funds: Vec<Coin>,
    token_id: &str,
) -> Result<nft_market::msgs::Response, ContractError> {
    let info = mock_info(sender, funds);
    market.execute_buy(
        env,
        &info,
        MOCK_CW2981_ADDR.to_string(),
        token_id.to_string(),
        mock_royalty(token_id),
    )
}

#[test]
fn proper_initialization() {
    let market = mock_market();
    println!("Got: {}", &market.config.owner);
    assert_eq!("owner", market.config.owner);
}

#[test]
fn anyone_can_create_listing() {
    let mut market = mock_market();
    let response = create_listing(&mut market, "owner", MOCK_CW2981_ADDR, "1", None, None);
    println!("Response: {:?}", &response);
    assert!(response.is_ok());
}

#[test]
fn cannot_update_listing_of_other() {
    let mut market = mock_market();
    let response = create_listing(&mut market, "owner", MOCK_CW2981_ADDR, "1", None, None);
    println!("Response: {:?}", &response);
    assert!(response.is_ok());

    // "another_user" is not the owner the ownership oracle reports, so
    // re-listing with price 200 is rejected
    let response = create_listing_with_price(
        &mut market,
        "another_user",
        MOCK_CW2981_ADDR,
        "1",
        200,
        None,
        None,
    );
    println!("Response: {:?}", &response);
    assert!(response.is_err());
}

#[test]
fn update_listing_by_owner() {
    let mut market = mock_market();
    let response = create_listing(&mut market, "owner", MOCK_CW2981_ADDR, "1", None, None);
    assert!(response.is_ok());

    let err_response =
        create_listing(&mut market, "another_user", MOCK_CW2981_ADDR, "1", None, None);
    println!("Error Response: {:?}", &err_response);
    assert!(err_response.is_err());

    let update_response =
        create_listing(&mut market, "owner", MOCK_CW2981_ADDR, "1", None, None);
    println!("Update Response: {:?}", &update_response);
    assert!(update_response.is_ok());
}

#[test]
fn owner_cancel_listing() {
    let mut market = mock_market();
    create_listing(&mut market, "owner", MOCK_CW2981_ADDR, "1", None, None).unwrap();

    let listing = market
        .query_listing(MOCK_CW2981_ADDR.to_string(), "1".to_string())
        .unwrap();
    assert_eq!(listing.token_id, "1");

    let env = mock_env();
    let info = mock_info("owner", vec![]);
    market
        .execute_cancel(&env, &info, MOCK_CW2981_ADDR.to_string(), "1".to_string())
        .unwrap();

    let res = market.query_listing(MOCK_CW2981_ADDR.to_string(), "1".to_string());
    println!("Response: {:?}", &res);
    assert!(res.is_err());
}

#[test]
fn other_cannot_cancel_listing() {
    let mut market = mock_market();
    create_listing(&mut market, "owner", MOCK_CW2981_ADDR, "1", None, None).unwrap();

    let env = mock_env();
    let info = mock_info("anyone", coins(100, "uaura"));
    let response =
        market.execute_cancel(&env, &info, MOCK_CW2981_ADDR.to_string(), "1".to_string());
    match response {
        Ok(_) => panic!("Expected error"),
        Err(ContractError::Unauthorized {}) => {}
        Err(e) => panic!("Unexpected error: {:?}", e),
    }
}

#[test]
fn anyone_can_cancel_after_end_time() {
    let mut market = mock_market();
    create_listing(
        &mut market,
        "owner",
        MOCK_CW2981_ADDR,
        "1",
        None,
        Some(Expiration::AtHeight(100)),
    )
    .unwrap();

    let mut env = mock_env();
    env.block.height = 99;
    let info = mock_info("anyone", coins(100, "uaura"));
    let response =
        market.execute_cancel(&env, &info, MOCK_CW2981_ADDR.to_string(), "1".to_string());
    match response {
        Ok(_) => panic!("Expected error"),
        Err(ContractError::Unauthorized {}) => {}
        Err(e) => panic!("Unexpected error: {:?}", e),
    }

    env.block.height = 101;
    let response =
        market.execute_cancel(&env, &info, MOCK_CW2981_ADDR.to_string(), "1".to_string());
    match response {
        Ok(_) => {}
        Err(e) => panic!("Unexpected error: {:?}", e),
    }
}

#[test]
fn can_query_by_contract_address() {
    let mut market = mock_market();
    for i in 0..5 {
        create_listing(
            &mut market,
            "owner",
            MOCK_CW2981_ADDR,
            &format!("{:0>8}", i),
            None,
            None,
        )
        .unwrap();
    }

    let query_res = market.query_listings_by_contract_address(
        MOCK_CW2981_ADDR.to_string(),
        Some("".to_string()),
        Some(10),
    );
    println!("Query Response: {:?}", &query_res.listings.len());
    assert_eq!(query_res.listings.len(), 5);

    let env = mock_env();
    let info = mock_info("owner", coins(100, "uaura"));
    market
        .execute_cancel(
            &env,
            &info,
            MOCK_CW2981_ADDR.to_string(),
            "00000003".to_string(),
        )
        .unwrap();

    let query_res = market.query_listings_by_contract_address(
        MOCK_CW2981_ADDR.to_string(),
        Some("".to_string()),
        Some(10),
    );
    println!("Query Response: {:?}", &query_res.listings.len());
    assert_eq!(query_res.listings.len(), 4);
}

#[test]
fn cannot_buy_non_existent_listing() {
    let mut market = mock_market();
    let env = mock_env();
    let response = buy(&mut market, &env, "buyer", coins(100, "uaura"), "1");
    println!("Response: {:?}", &response);
    match response {
        Ok(_) => panic!("Expected error"),
        Err(ContractError::NotFound {}) => {}
        Err(e) => panic!("Unexpected error: {:?}", e),
    }
}

#[test]
fn cannot_buy_cancelled_listing() {
    let mut market = mock_market();
    create_listing(&mut market, "owner", MOCK_CW2981_ADDR, "1", None, None).unwrap();

    let env = mock_env();
    let info = mock_info("owner", coins(100, "uaura"));
    market
        .execute_cancel(&env, &info, MOCK_CW2981_ADDR.to_string(), "1".to_string())
        .unwrap();

    let response = buy(&mut market, &env, "buyer", coins(100, "uaura"), "1");
    println!("Response: {:?}", &response);
    assert!(response.is_err());
}

#[test]
fn cannot_buy_as_owner() {
    let mut market = mock_market();
    create_listing(&mut market, "owner", MOCK_CW2981_ADDR, "1", None, None).unwrap();

    let env = mock_env();
    let response = buy(&mut market, &env, "owner", coins(100, "uaura"), "1");
    match response {
        Ok(_) => panic!("Expected error"),
        Err(ContractError::CustomError { .. }) => {}
        Err(e) => panic!("Unexpected error: {:?}", e),
    }
}

#[test]
fn cannot_buy_without_enough_funds() {
    let mut market = mock_market();
    create_listing(&mut market, "owner", MOCK_CW2981_ADDR, "1", None, None).unwrap();

    let env = mock_env();
    let response = buy(&mut market, &env, "buyer", coins(99, "uaura"), "1");
    println!("Response: {:?}", &response);
    match response {
        Ok(_) => panic!("Expected error"),
        Err(ContractError::InsufficientFunds {}) => {}
        Err(e) => panic!("Unexpected error: {:?}", e),
    }
}

#[test]
fn buy_listing_with_royalty() {
    let mut market = mock_market();
    create_listing(&mut market, "owner", MOCK_CW2981_ADDR, "1", None, None).unwrap();

    let env = mock_env();
    let response = buy(&mut market, &env, "buyer", coins(100, "uaura"), "1").unwrap();
    println!("Response: {:?}", &response);
    assert_eq!(3, response.messages.len());
    assert_eq!(
        response.messages[0],
        OutboundMsg::TransferNft {
            contract_address: MOCK_CW2981_ADDR.to_string(),
            recipient: "buyer".to_string(),
            token_id: "1".to_string(),
        },
        "should transfer nft to buyer"
    );
    assert_eq!(
        response.messages[1],
        OutboundMsg::BankSend {
            to_address: "creator".to_string(),
            denom: "uaura".to_string(),
            amount: 10,
        },
        "should transfer royalty to owner"
    );
    assert_eq!(
        response.messages[2],
        OutboundMsg::BankSend {
            to_address: "owner".to_string(),
            denom: "uaura".to_string(),
            amount: 90,
        },
        "should transfer the rest to owner"
    );
}

#[test]
fn cannot_buy_listing_before_start_time() {
    let mut market = mock_market();
    create_listing(
        &mut market,
        "owner",
        MOCK_CW2981_ADDR,
        "1",
        Some(Expiration::AtTime(1_600_000_001)),
        None,
    )
    .unwrap();

    let mut env = mock_env();
    env.block.time = 1_600_000_000;
    let response = buy(&mut market, &env, "buyer", coins(100, "uaura"), "1");
    println!("Response: {:?}", &response);
    match response {
        Ok(_) => panic!("Expected error"),
        Err(ContractError::CustomError { .. }) => {}
        Err(e) => panic!("Unexpected error: {:?}", e),
    }
}

#[test]
fn cannot_buy_listing_after_end_time() {
    let mut market = mock_market();
    create_listing(
        &mut market,
        "owner",
        MOCK_CW2981_ADDR,
        "1",
        None,
        Some(Expiration::AtTime(1_600_000_000)),
    )
    .unwrap();

    let mut env = mock_env();
    env.block.time = 1_600_000_001;
    let response = buy(&mut market, &env, "buyer", coins(100, "uaura"), "1");
    println!("Response: {:?}", &response);
    match response {
        Ok(_) => panic!("Expected error"),
        Err(ContractError::CustomError { .. }) => {}
        Err(e) => panic!("Unexpected error: {:?}", e),
    }
}

#[test]
fn can_buy_listing_with_0_royalty() {
    let mut market = mock_market();
    create_listing(&mut market, "owner", MOCK_CW2981_ADDR, "2", None, None).unwrap();

    let env = mock_env();
    let response = buy(&mut market, &env, "buyer", coins(100, "uaura"), "2").unwrap();
    println!("Response: {:?}", &response);
    assert_eq!(2, response.messages.len());
    assert_eq!(
        response.messages[0],
        OutboundMsg::TransferNft {
            contract_address: MOCK_CW2981_ADDR.to_string(),
            recipient: "buyer".to_string(),
            token_id: "2".to_string(),
        },
        "should transfer nft to buyer"
    );
    assert_eq!(
        response.messages[1],
        OutboundMsg::BankSend {
            to_address: "owner".to_string(),
            denom: "uaura".to_string(),
            amount: 100,
        },
        "should transfer all funds to owner"
    );
}

#[test]
fn can_buy_listing_without_royalty() {
    let mut market = mock_market();
    create_listing(&mut market, "owner", MOCK_CW2981_ADDR, "2", None, None).unwrap();

    let env = mock_env();
    let response = buy(&mut market, &env, "buyer", coins(100, "uaura"), "2").unwrap();
    println!("Response: {:?}", &response);
    assert_eq!(2, response.messages.len());
    assert_eq!(
        response.messages[1],
        OutboundMsg::BankSend {
            to_address: "owner".to_string(),
            denom: "uaura".to_string(),
            amount: 100,
        },
        "should transfer all funds to owner"
    );
}

#[test]
fn buy_when_owner_is_creator() {
    let mut market = mock_market();
    create_listing(&mut market, "owner", MOCK_CW2981_ADDR, "3", None, None).unwrap();

    let env = mock_env();
    let response = buy(&mut market, &env, "buyer", coins(100, "uaura"), "3").unwrap();
    println!("Response: {:?}", &response);
    assert_eq!(2, response.messages.len());
    assert_eq!(
        response.messages[0],
        OutboundMsg::TransferNft {
            contract_address: MOCK_CW2981_ADDR.to_string(),
            recipient: "buyer".to_string(),
            token_id: "3".to_string(),
        },
        "should transfer nft to buyer"
    );
    assert_eq!(
        response.messages[1],
        OutboundMsg::BankSend {
            to_address: "owner".to_string(),
            denom: "uaura".to_string(),
            amount: 100,
        },
        "should transfer all funds to owner"
    );
}

#[test]
fn listing_replacement_overwrites_old_terms() {
    let mut market = mock_market();
    create_listing_with_price(&mut market, "owner", MOCK_CW2981_ADDR, "1", 100, None, None)
        .unwrap();
    create_listing_with_price(&mut market, "owner", MOCK_CW2981_ADDR, "1", 250, None, None)
        .unwrap();

    // the second listing replaced the first; the old terms are gone
    let listing = market
        .query_listing(MOCK_CW2981_ADDR.to_string(), "1".to_string())
        .unwrap();
    match listing.auction_config {
        AuctionConfig::FixedPrice { price, .. } => assert_eq!(price.amount, 250),
        _ => panic!("Expected fixed price config"),
    }
    let all = market.query_listings_by_contract_address(
        MOCK_CW2981_ADDR.to_string(),
        None,
        None,
    );
    assert_eq!(all.listings.len(), 1);
}

#[test]
fn listings_scan_in_descending_key_order() {
    // insertion order differs from key order: the scan must come back
    // descending by token id, not by recency
    let mut market = mock_market();
    for token in ["b", "a", "c"] {
        create_listing(&mut market, "owner", MOCK_CW2981_ADDR, token, None, None).unwrap();
    }
    let res = market.query_listings_by_contract_address(
        MOCK_CW2981_ADDR.to_string(),
        None,
        None,
    );
    assert_eq!(res.listings.len(), 3);
    assert_eq!(res.listings[0].token_id, "c");
    assert_eq!(res.listings[1].token_id, "b");
    assert_eq!(res.listings[2].token_id, "a");

    // an exclusive start bound resumes strictly after the named key
    let res = market.query_listings_by_contract_address(
        MOCK_CW2981_ADDR.to_string(),
        Some("b".to_string()),
        None,
    );
    assert_eq!(res.listings.len(), 1);
    assert_eq!(res.listings[0].token_id, "a");
}

#[test]
fn royalty_rounds_down() {
    // a 10% royalty on a sale of 43 owes 4 (the floor of 4.3), and the
    // seller keeps 39
    let mut market = mock_market();
    create_listing_with_price(&mut market, "owner", MOCK_CW2981_ADDR, "9", 43, None, None)
        .unwrap();

    let env = mock_env();
    let info = mock_info("buyer", coins(43, "uaura"));
    let sale_price = 43u128;
    let royalty_percent = 10u64;
    let royalty_amount = sale_price * u128::from(royalty_percent) / 100;
    assert_eq!(royalty_amount, 4);
    let response = market
        .execute_buy(
            &env,
            &info,
            MOCK_CW2981_ADDR.to_string(),
            "9".to_string(),
            Some(RoyaltiesInfoResponse {
                address: "creator".to_string(),
                royalty_amount,
            }),
        )
        .unwrap();
    assert_eq!(3, response.messages.len());
    assert_eq!(
        response.messages[1],
        OutboundMsg::BankSend {
            to_address: "creator".to_string(),
            denom: "uaura".to_string(),
            amount: 4,
        }
    );
    assert_eq!(
        response.messages[2],
        OutboundMsg::BankSend {
            to_address: "owner".to_string(),
            denom: "uaura".to_string(),
            amount: 39,
        }
    );
}
