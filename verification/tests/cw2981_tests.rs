//! The royalty-aware token model: collection configuration, per-token
//! royalty terms, and the floor-rounded royalty computation.

use nft_market::cw2981::{check_royalties, query_royalties_info, Config, Metadata};
use nft_market::error::ContractError;
use nft_market::royalty::{payment_with_royalty, RoyaltiesInfoResponse};
use nft_market::asset::PaymentAsset;
use nft_market::msgs::OutboundMsg;

fn metadata_with_royalty(percentage: Option<u64>, address: Option<&str>) -> Metadata {
    let base = Metadata::empty();
    Metadata {
        royalty_percentage: percentage,
        royalty_payment_address: address.map(|a| a.to_string()),
        ..base
    }
}

#[test]
fn validate_royalty_information() {
    // a collection named SpaceShips/SPACE minted by john cannot take a
    // royalty above 100 percent
    let res = Config::build(Some(101), Some("john".to_string()), None);
    assert!(res.is_err());
    let res = Config::build(Some(50), Some("john".to_string()), None);
    assert!(res.is_ok());
}

#[test]
fn not_allow_setting_royalty_when_minting() {
    let config = Config::build(Some(50), Some("john".to_string()), None).unwrap();
    // the mint message must not carry its own royalty terms
    let res = config.apply_royalty(metadata_with_royalty(Some(30), None));
    match res {
        Err(ContractError::CustomError { val }) => {
            assert_eq!(val, "Cannot set royalty information in mint message")
        }
        other => panic!("Unexpected result: {:?}", other.is_ok()),
    }
    // a plain extension is filled in from the collection's terms
    let minted = config.apply_royalty(Metadata::empty()).unwrap();
    assert_eq!(minted.royalty_percentage, Some(50));
    assert_eq!(minted.royalty_payment_address, Some("john".to_string()));
}

#[test]
fn check_royalties_response() {
    let res = check_royalties();
    assert!(res.royalty_payments);
}

#[test]
fn check_token_royalties() {
    // 10% of a sale of 100 owes 10 to jeanluc
    let meta = metadata_with_royalty(Some(10), Some("jeanluc"));
    let res = query_royalties_info(&Some(meta), 100);
    assert_eq!(res.address, "jeanluc");
    assert_eq!(res.royalty_amount, 10);

    // check at a price of 43: the royalty of 4.3 rounds down to 4
    let meta = metadata_with_royalty(Some(10), Some("jeanluc"));
    let res = query_royalties_info(&Some(meta), 43);
    assert_eq!(res.royalty_amount, 4);
}

#[test]
fn check_token_without_royalties() {
    let meta = metadata_with_royalty(None, None);
    let res = query_royalties_info(&Some(meta), 100);
    assert_eq!(res.address, "");
    assert_eq!(res.royalty_amount, 0);
}

#[test]
fn check_token_without_extension() {
    let res = query_royalties_info(&None, 100);
    assert_eq!(res.address, "");
    assert_eq!(res.royalty_amount, 0);
}

#[test]
fn settlement_splits_sum_to_sale_amount() {
    // a royalty of 10 on a native sale of 100: exactly two payment
    // instructions, 10 to the creator first, then 90 to the seller
    let token = PaymentAsset::Native {
        denom: "uaura".to_string(),
        amount: 100,
    };
    let msgs = payment_with_royalty(
        &token,
        &"buyer".to_string(),
        &"seller".to_string(),
        Some(RoyaltiesInfoResponse {
            address: "creator".to_string(),
            royalty_amount: 10,
        }),
    )
    .unwrap();
    assert_eq!(msgs.len(), 2);
    assert_eq!(
        msgs[0],
        OutboundMsg::BankSend {
            to_address: "creator".to_string(),
            denom: "uaura".to_string(),
            amount: 10,
        }
    );
    assert_eq!(
        msgs[1],
        OutboundMsg::BankSend {
            to_address: "seller".to_string(),
            denom: "uaura".to_string(),
            amount: 90,
        }
    );
}

#[test]
fn settlement_of_fungible_token_uses_transfer_from() {
    let token = PaymentAsset::Cw20 {
        contract_address: "vaura_addr".to_string(),
        amount: 50,
    };
    let msgs = payment_with_royalty(
        &token,
        &"buyer".to_string(),
        &"seller".to_string(),
        None,
    )
    .unwrap();
    assert_eq!(msgs.len(), 1);
    assert_eq!(
        msgs[0],
        OutboundMsg::Cw20TransferFrom {
            token_address: "vaura_addr".to_string(),
            owner: "buyer".to_string(),
            recipient: "seller".to_string(),
            amount: 50,
        }
    );
}

#[test]
fn royalty_to_the_payee_itself_is_not_split() {
    // the creator being the payee is a deliberate no-split case, even
    // with a nonzero royalty
    let token = PaymentAsset::Native {
        denom: "uaura".to_string(),
        amount: 100,
    };
    let msgs = payment_with_royalty(
        &token,
        &"buyer".to_string(),
        &"seller".to_string(),
        Some(RoyaltiesInfoResponse {
            address: "seller".to_string(),
            royalty_amount: 10,
        }),
    )
    .unwrap();
    assert_eq!(msgs.len(), 1);
    assert_eq!(
        msgs[0],
        OutboundMsg::BankSend {
            to_address: "seller".to_string(),
            denom: "uaura".to_string(),
            amount: 100,
        }
    );
}

#[test]
fn royalty_above_sale_price_fails_settlement() {
    let token = PaymentAsset::Native {
        denom: "uaura".to_string(),
        amount: 100,
    };
    let res = payment_with_royalty(
        &token,
        &"buyer".to_string(),
        &"seller".to_string(),
        Some(RoyaltiesInfoResponse {
            address: "creator".to_string(),
            royalty_amount: 101,
        }),
    );
    assert!(res.is_err());
}
