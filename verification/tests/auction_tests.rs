//! English and Dutch auction flows: creation, bidding with the
//! anti-snipe extension, and settlement, driven directly against the
//! library's state machine.

use nft_market::asset::{Coin, NFT};
use nft_market::error::ContractError;
use nft_market::expiration::{BlockInfo, Expiration};
use nft_market::msgs::OutboundMsg;
use nft_market::order::AuctionConfig;
use nft_market::royalty::RoyaltiesInfoResponse;
use nft_market::state::{Env, MarketplaceContract, MessageInfo};

const TOKEN_ID_1: &str = "token1";
const START_PRICE: u128 = 10_000_000;
const STEP_PERCENTAGE: u64 = 5;
const NATIVE_DENOM: &str = "uaura";
const OWNER: &str = "owner";
const USER_1: &str = "user1";
const USER_2: &str = "user2";
const CW2981_ADDR: &str = "cw2981_addr";
const MARKETPLACE_ADDR: &str = "marketplace_addr";
const BASE_TIME: u64 = 1_571_797_419_879_305_533;
const SECOND: u64 = 1_000_000_000;

fn env_at(time: u64) -> Env {
    Env {
        block: BlockInfo {
            height: 12_345,
            time,
        },
        contract_address: MARKETPLACE_ADDR.to_string(),
    }
}

fn info(sender: &str, funds: Vec<Coin>) -> MessageInfo {
    MessageInfo {
        sender: sender.to_string(),
        funds,
    }
}

fn coin(amount: u128, denom: &str) -> Coin {
    Coin {
        denom: denom.to_string(),
        amount,
    }
}

fn nft(token_id: Option<&str>) -> NFT {
    NFT {
        contract_address: CW2981_ADDR.to_string(),
        token_id: token_id.map(|t| t.to_string()),
    }
}

fn mock_market() -> MarketplaceContract {
    MarketplaceContract::new(OWNER.to_string(), "aura0".to_string())
}

fn english_config(start_time: Option<Expiration>, end_time: Expiration) -> AuctionConfig {
    AuctionConfig::EnglishAuction {
        start_price: coin(START_PRICE, NATIVE_DENOM),
        step_percentage: Some(STEP_PERCENTAGE),
        buyout_price: None,
        start_time,
        end_time,
    }
}

fn create_auction(
    market: &mut MarketplaceContract,
    now: u64,
    sender: &str,
    token_id: Option<&str>,
    config: AuctionConfig,
) -> Result<nft_market::msgs::Response, ContractError> {
    let env = env_at(now);
    let i = info(sender, vec![]);
    // the ownership oracle reports the seller as the token's owner
    market.execute_auction_nft(&env, &i, nft(token_id), config, Some(sender.to_string()))
}

fn bid(
    market: &mut MarketplaceContract,
    now: u64,
    sender: &str,
    bid_price: u128,
    bid_funds: Option<u128>,
) -> Result<nft_market::msgs::Response, ContractError> {
    let env = env_at(now);
    let funds = match bid_funds {
        Some(f) => vec![coin(f, NATIVE_DENOM)],
        None => vec![],
    };
    let i = info(sender, funds);
    market.execute_bid_auction(&env, &i, nft(Some(TOKEN_ID_1)), bid_price)
}

fn settle(
    market: &mut MarketplaceContract,
    now: u64,
    sender: &str,
    royalty_info: Option<RoyaltiesInfoResponse>,
) -> Result<nft_market::msgs::Response, ContractError> {
    let env = env_at(now);
    let i = info(sender, vec![]);
    market.execute_settle_auction(&env, &i, nft(Some(TOKEN_ID_1)), royalty_info)
}

#[test]
fn owner_cannot_auction_because_time_invalid() {
    let mut market = mock_market();
    // the start marker lies 10 nanoseconds in the past
    let config = english_config(
        Some(Expiration::AtTime(BASE_TIME - 10)),
        Expiration::AtTime(BASE_TIME + 1000 * SECOND),
    );
    let res = create_auction(&mut market, BASE_TIME, USER_1, Some(TOKEN_ID_1), config);
    match res {
        Err(ContractError::CustomError { val }) => assert_eq!(val, "Time config invalid"),
        other => panic!("Unexpected result: {:?}", other),
    }
}

#[test]
fn owner_cannot_auction_collection() {
    let mut market = mock_market();
    let config = english_config(None, Expiration::AtTime(BASE_TIME + 1000 * SECOND));
    let res = create_auction(&mut market, BASE_TIME, USER_1, None, config);
    match res {
        Err(ContractError::CustomError { val }) => assert_eq!(val, "Token id is required"),
        other => panic!("Unexpected result: {:?}", other),
    }
}

#[test]
fn owner_cannot_auction_nft_beccause_config_invalid() {
    let mut market = mock_market();
    let config = AuctionConfig::FixedPrice {
        price: coin(START_PRICE, NATIVE_DENOM),
        start_time: None,
        end_time: None,
    };
    let res = create_auction(&mut market, BASE_TIME, USER_1, None, config);
    match res {
        Err(ContractError::CustomError { val }) => assert_eq!(val, "Invalid auction config"),
        other => panic!("Unexpected result: {:?}", other),
    }
}

#[test]
fn auction_tests_owner_can_auction_nft() {
    let mut market = mock_market();
    let config = english_config(None, Expiration::AtTime(BASE_TIME + 1000 * SECOND));
    let res = create_auction(&mut market, BASE_TIME, OWNER, Some(TOKEN_ID_1), config).unwrap();

    // the NFT is escrowed: the transfer instruction hands it to the
    // marketplace itself
    assert_eq!(res.messages.len(), 1);
    assert_eq!(
        res.messages[0],
        OutboundMsg::TransferNft {
            contract_address: CW2981_ADDR.to_string(),
            recipient: MARKETPLACE_ADDR.to_string(),
            token_id: TOKEN_ID_1.to_string(),
        }
    );
    let env = env_at(BASE_TIME);
    let order = market
        .query_nft_auction(&env, CW2981_ADDR.to_string(), TOKEN_ID_1.to_string())
        .unwrap();
    assert_eq!(order.offerer, OWNER);
    assert_eq!(order.recipient, Some(OWNER.to_string()));
}

#[test]
fn dutch_auction_owner_can_auction_nft() {
    let mut market = mock_market();
    let config = AuctionConfig::DutchAuction {
        start_price: coin(START_PRICE, NATIVE_DENOM),
        end_price: START_PRICE / 2,
        step_amount: 1000,
        start_time: None,
        end_time: Expiration::AtTime(BASE_TIME + 1000 * SECOND),
    };
    let res = create_auction(&mut market, BASE_TIME, OWNER, Some(TOKEN_ID_1), config).unwrap();
    assert_eq!(res.messages.len(), 1);
    let env = env_at(BASE_TIME);
    let order = market
        .query_nft_auction(&env, CW2981_ADDR.to_string(), TOKEN_ID_1.to_string())
        .unwrap();
    assert_eq!(order.consideration.start_amount, START_PRICE);
}

#[test]
fn cannot_bid_your_own_auction() {
    let mut market = mock_market();
    let config = english_config(None, Expiration::AtTime(BASE_TIME + 1000 * SECOND));
    create_auction(&mut market, BASE_TIME, USER_2, Some(TOKEN_ID_1), config).unwrap();

    let res = bid(&mut market, BASE_TIME + 2 * SECOND, USER_2, 10000, None);
    match res {
        Err(ContractError::CustomError { val }) => {
            assert_eq!(val, "Cannot bid on your own auction")
        }
        other => panic!("Unexpected result: {:?}", other),
    }
}

#[test]
fn cannot_bid_when_auction_expired() {
    let mut market = mock_market();
    let config = english_config(None, Expiration::AtTime(BASE_TIME + 1000 * SECOND));
    create_auction(&mut market, BASE_TIME, USER_2, Some(TOKEN_ID_1), config).unwrap();

    let res = bid(
        &mut market,
        BASE_TIME + 1001 * SECOND,
        USER_1,
        START_PRICE,
        Some(START_PRICE),
    );
    match res {
        Err(ContractError::CustomError { val }) => assert_eq!(val, "Auction is expired"),
        other => panic!("Unexpected result: {:?}", other),
    }
}

#[test]
fn the_end_time_will_be_increased_when_bidding_in_last_10_minutes() {
    let mut market = mock_market();
    let first_end_time = BASE_TIME + 1000 * SECOND;
    let config = english_config(None, Expiration::AtTime(first_end_time));
    create_auction(&mut market, BASE_TIME, USER_2, Some(TOKEN_ID_1), config).unwrap();

    // a bid 399 seconds in: 601 seconds remain, outside the anti-snipe
    // window, so the end marker must not move
    let res = bid(
        &mut market,
        BASE_TIME + 399 * SECOND,
        USER_1,
        START_PRICE,
        Some(START_PRICE),
    );
    assert!(res.is_ok());

    let env = env_at(BASE_TIME + 399 * SECOND);
    let order = market
        .query_nft_auction(&env, CW2981_ADDR.to_string(), TOKEN_ID_1.to_string())
        .unwrap();
    assert_eq!(order.end_time, Some(Expiration::AtTime(first_end_time)));

    // one second later exactly 600 seconds remain: the next bid extends
    // the end marker to 600 seconds from now, exactly once
    let bid_time = BASE_TIME + 400 * SECOND;
    let second_end_time = bid_time + 600 * SECOND;
    let res = bid(
        &mut market,
        bid_time,
        USER_1,
        START_PRICE * 105 / 100,
        Some(START_PRICE * 105 / 100),
    );
    assert!(res.is_ok());

    let order = market
        .query_nft_auction(&env, CW2981_ADDR.to_string(), TOKEN_ID_1.to_string())
        .unwrap();
    assert_eq!(order.end_time, Some(Expiration::AtTime(second_end_time)));
}

#[test]
fn user_cannot_bid_auction_because_not_enought_funds() {
    let mut market = mock_market();
    let config = english_config(None, Expiration::AtTime(BASE_TIME + 1000 * SECOND));
    create_auction(&mut market, BASE_TIME, OWNER, Some(TOKEN_ID_1), config).unwrap();

    let res = bid(&mut market, BASE_TIME + 2 * SECOND, USER_1, 10000, None);
    match res {
        Err(ContractError::CustomError { val }) => {
            assert_eq!(val, "Different funding amount and bidding price")
        }
        other => panic!("Unexpected result: {:?}", other),
    }
}

#[test]
fn user_can_not_bid_auction_because_price_too_small() {
    let mut market = mock_market();
    let config = english_config(None, Expiration::AtTime(BASE_TIME + 1000 * SECOND));
    create_auction(&mut market, BASE_TIME, OWNER, Some(TOKEN_ID_1), config).unwrap();

    let res = bid(
        &mut market,
        BASE_TIME + 2 * SECOND,
        USER_1,
        START_PRICE - 1,
        Some(START_PRICE - 1),
    );
    match res {
        Err(ContractError::CustomError { val }) => assert_eq!(val, "Bidding price invalid"),
        other => panic!("Unexpected result: {:?}", other),
    }
}

#[test]
fn user_can_bid_auction() {
    let mut market = mock_market();
    let config = english_config(None, Expiration::AtTime(BASE_TIME + 1000 * SECOND));
    create_auction(&mut market, BASE_TIME, OWNER, Some(TOKEN_ID_1), config).unwrap();

    let res = bid(
        &mut market,
        BASE_TIME + 2 * SECOND,
        USER_1,
        START_PRICE,
        Some(START_PRICE),
    );
    assert!(res.is_ok());
}

#[test]
fn the_new_bid_price_must_greater_than_the_old_one() {
    let mut market = mock_market();
    let config = english_config(None, Expiration::AtTime(BASE_TIME + 1000 * SECOND));
    create_auction(&mut market, BASE_TIME, OWNER, Some(TOKEN_ID_1), config).unwrap();

    // first bid at the start price
    let res = bid(
        &mut market,
        BASE_TIME + 2 * SECOND,
        USER_1,
        START_PRICE,
        Some(START_PRICE),
    );
    assert!(res.is_ok());

    // one below the current price plus the 5% step is rejected
    let res = bid(
        &mut market,
        BASE_TIME + 3 * SECOND,
        USER_2,
        (START_PRICE * 105 / 100) - 1,
        Some((START_PRICE * 105 / 100) - 1),
    );
    match res {
        Err(ContractError::CustomError { val }) => assert_eq!(val, "Bidding price invalid"),
        other => panic!("Unexpected result: {:?}", other),
    }

    // exactly the current price plus the step is accepted, and the
    // displaced bidder is refunded
    let res = bid(
        &mut market,
        BASE_TIME + 3 * SECOND,
        USER_2,
        START_PRICE * 105 / 100,
        Some(START_PRICE * 105 / 100),
    )
    .unwrap();
    assert_eq!(res.messages.len(), 1);
    assert_eq!(
        res.messages[0],
        OutboundMsg::BankSend {
            to_address: USER_1.to_string(),
            denom: NATIVE_DENOM.to_string(),
            amount: START_PRICE,
        }
    );
}

#[test]
fn owner_can_settle_auction() {
    let mut market = mock_market();
    let config = english_config(None, Expiration::AtTime(BASE_TIME + 1000 * SECOND));
    create_auction(&mut market, BASE_TIME, USER_2, Some(TOKEN_ID_1), config).unwrap();

    let res = bid(
        &mut market,
        BASE_TIME + 2 * SECOND,
        USER_1,
        START_PRICE,
        Some(START_PRICE),
    );
    assert!(res.is_ok());

    // the creator takes a 20% royalty of the winning bid
    let royalty = Some(RoyaltiesInfoResponse {
        address: OWNER.to_string(),
        royalty_amount: START_PRICE * 20 / 100,
    });
    let res = settle(&mut market, BASE_TIME + 1001 * SECOND, USER_2, royalty).unwrap();

    assert_eq!(res.messages.len(), 3);
    assert_eq!(
        res.messages[0],
        OutboundMsg::TransferNft {
            contract_address: CW2981_ADDR.to_string(),
            recipient: USER_1.to_string(),
            token_id: TOKEN_ID_1.to_string(),
        }
    );
    assert_eq!(
        res.messages[1],
        OutboundMsg::BankSend {
            to_address: OWNER.to_string(),
            denom: NATIVE_DENOM.to_string(),
            amount: START_PRICE * 20 / 100,
        }
    );
    assert_eq!(
        res.messages[2],
        OutboundMsg::BankSend {
            to_address: USER_2.to_string(),
            denom: NATIVE_DENOM.to_string(),
            amount: START_PRICE * 80 / 100,
        }
    );
    let env = env_at(BASE_TIME + 1001 * SECOND);
    assert!(market
        .query_nft_auction(&env, CW2981_ADDR.to_string(), TOKEN_ID_1.to_string())
        .is_err());
}

#[test]
fn last_bidder_can_settle_auction() {
    let mut market = mock_market();
    let config = english_config(None, Expiration::AtTime(BASE_TIME + 1000 * SECOND));
    create_auction(&mut market, BASE_TIME, USER_2, Some(TOKEN_ID_1), config).unwrap();

    let res = bid(
        &mut market,
        BASE_TIME + 2 * SECOND,
        USER_1,
        START_PRICE,
        Some(START_PRICE),
    );
    assert!(res.is_ok());

    let royalty = Some(RoyaltiesInfoResponse {
        address: OWNER.to_string(),
        royalty_amount: START_PRICE * 20 / 100,
    });
    let res = settle(&mut market, BASE_TIME + 1001 * SECOND, USER_1, royalty).unwrap();
    assert_eq!(res.messages.len(), 3);
    assert_eq!(
        res.messages[1],
        OutboundMsg::BankSend {
            to_address: OWNER.to_string(),
            denom: NATIVE_DENOM.to_string(),
            amount: START_PRICE * 20 / 100,
        }
    );
    assert_eq!(
        res.messages[2],
        OutboundMsg::BankSend {
            to_address: USER_2.to_string(),
            denom: NATIVE_DENOM.to_string(),
            amount: START_PRICE * 80 / 100,
        }
    );
}

#[test]
fn owner_receive_his_nft_if_no_bid() {
    let mut market = mock_market();
    let config = english_config(None, Expiration::AtTime(BASE_TIME + 1000 * SECOND));
    create_auction(&mut market, BASE_TIME, USER_2, Some(TOKEN_ID_1), config).unwrap();

    // nobody bid: settlement transfers the NFT back to the offerer and
    // produces no payment message at all
    let res = settle(&mut market, BASE_TIME + 1001 * SECOND, USER_2, None).unwrap();
    assert_eq!(res.messages.len(), 1);
    assert_eq!(
        res.messages[0],
        OutboundMsg::TransferNft {
            contract_address: CW2981_ADDR.to_string(),
            recipient: USER_2.to_string(),
            token_id: TOKEN_ID_1.to_string(),
        }
    );
}

#[test]
fn cannot_settle_auction_because_unauthorized() {
    let mut market = mock_market();
    let config = english_config(None, Expiration::AtTime(BASE_TIME + 1000 * SECOND));
    create_auction(&mut market, BASE_TIME, USER_2, Some(TOKEN_ID_1), config).unwrap();

    let res = settle(&mut market, BASE_TIME + 1001 * SECOND, "stranger", None);
    match res {
        Err(ContractError::Unauthorized {}) => {}
        other => panic!("Unexpected result: {:?}", other),
    }
}

#[test]
fn cannot_settle_auction_because_auction_not_expired() {
    let mut market = mock_market();
    let config = english_config(None, Expiration::AtTime(BASE_TIME + 1000 * SECOND));
    create_auction(&mut market, BASE_TIME, USER_2, Some(TOKEN_ID_1), config).unwrap();

    let res = settle(&mut market, BASE_TIME + 999 * SECOND, USER_2, None);
    match res {
        Err(ContractError::CustomError { val }) => assert_eq!(val, "Auction is not expired"),
        other => panic!("Unexpected result: {:?}", other),
    }
}

#[test]
fn query_all_auctions_of_owner() {
    let mut market = mock_market();
    for i in 1..=3 {
        let token = format!("token{}", i);
        let env = env_at(BASE_TIME);
        let i_info = info(OWNER, vec![]);
        let config = english_config(None, Expiration::AtTime(BASE_TIME + 1000 * SECOND));
        market
            .execute_auction_nft(
                &env,
                &i_info,
                NFT {
                    contract_address: CW2981_ADDR.to_string(),
                    token_id: Some(token),
                },
                config,
                Some(OWNER.to_string()),
            )
            .unwrap();
    }

    let env = env_at(BASE_TIME);
    let res = market.query_owner_auctions(&env, OWNER.to_string(), None, None);
    assert_eq!(res.auctions.len(), 3);
    // descending key order
    assert_eq!(res.auctions[0].order_id.2, "token3");
    let res = market.query_buyer_auctions(&env, USER_1.to_string(), None, None);
    assert_eq!(res.auctions.len(), 0);
}

#[test]
fn english_valid_price_follows_bids() {
    let mut market = mock_market();
    let config = english_config(None, Expiration::AtTime(BASE_TIME + 1000 * SECOND));
    create_auction(&mut market, BASE_TIME, OWNER, Some(TOKEN_ID_1), config).unwrap();

    // before any bid the valid price is the start price
    let env = env_at(BASE_TIME + 2 * SECOND);
    let p = market
        .query_valid_price(&env, CW2981_ADDR.to_string(), TOKEN_ID_1.to_string())
        .unwrap();
    assert_eq!(p, START_PRICE);

    bid(
        &mut market,
        BASE_TIME + 2 * SECOND,
        USER_1,
        START_PRICE,
        Some(START_PRICE),
    )
    .unwrap();

    // after a bid it is the current price plus the truncated step
    let p = market
        .query_valid_price(&env, CW2981_ADDR.to_string(), TOKEN_ID_1.to_string())
        .unwrap();
    assert_eq!(p, START_PRICE + START_PRICE * 5 / 100);

    // an expired auction prices at zero
    let env = env_at(BASE_TIME + 2000 * SECOND);
    let p = market
        .query_valid_price(&env, CW2981_ADDR.to_string(), TOKEN_ID_1.to_string())
        .unwrap();
    assert_eq!(p, 0);
}

#[test]
fn dutch_price_decays_to_floor() {
    let mut market = mock_market();
    let end_price = START_PRICE / 2;
    let step_amount: u128 = 10_000;
    let config = AuctionConfig::DutchAuction {
        start_price: coin(START_PRICE, NATIVE_DENOM),
        end_price,
        step_amount,
        start_time: Some(Expiration::AtTime(BASE_TIME + SECOND)),
        end_time: Expiration::AtTime(BASE_TIME + 100_000 * SECOND),
    };
    create_auction(&mut market, BASE_TIME, OWNER, Some(TOKEN_ID_1), config).unwrap();

    // before the start the price is the start price
    let env = env_at(BASE_TIME + SECOND);
    let p = market
        .query_valid_price(&env, CW2981_ADDR.to_string(), TOKEN_ID_1.to_string())
        .unwrap();
    assert_eq!(p, START_PRICE);

    // ten full minutes later the price dropped by ten steps
    let env = env_at(BASE_TIME + SECOND + 600 * SECOND);
    let p = market
        .query_valid_price(&env, CW2981_ADDR.to_string(), TOKEN_ID_1.to_string())
        .unwrap();
    assert_eq!(p, START_PRICE - 10 * step_amount);

    // far beyond the window's span the price clamps at the floor
    // instead of underflowing
    let env = env_at(BASE_TIME + SECOND + 90_000 * SECOND);
    let p = market
        .query_valid_price(&env, CW2981_ADDR.to_string(), TOKEN_ID_1.to_string())
        .unwrap();
    assert_eq!(p, end_price);
}
