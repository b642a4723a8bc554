//! Launchpad flows: the phase list, whitelists, supply-capped minting
//! with real seeded randomness, and the withdrawal split.

use nft_market::asset::Coin;
use nft_market::launchpad::{
    ColectionInfo, ContractError, Launchpad, PhaseData,
};
use nft_market::msgs::OutboundMsg;
use nft_market::text::get_token_uri;

const ADMIN: &str = "admin";
const COLLECTOR: &str = "collector";
const CREATOR: &str = "creator";
const USER_1: &str = "user1";
const NATIVE_DENOM: &str = "uaura";
const BASE_TIME: u64 = 1_571_797_419_879_305_533;
const SECOND: u64 = 1_000_000_000;

fn seed() -> [u8; 32] {
    [7u8; 32]
}

fn collection(max_supply: u64) -> ColectionInfo {
    ColectionInfo {
        name: "SpaceShips".to_string(),
        symbol: "SPACE".to_string(),
        creator: CREATOR.to_string(),
        max_supply,
        uri_prefix: "ipfs://collection/".to_string(),
        uri_suffix: ".json".to_string(),
        royalty_percentage: Some(10),
        royalty_payment_address: Some(CREATOR.to_string()),
    }
}

fn mock_launchpad(max_supply: u64) -> Launchpad {
    let mut lp = Launchpad::new(
        ADMIN.to_string(),
        COLLECTOR.to_string(),
        collection(max_supply),
        10,
        seed(),
    )
    .unwrap();
    lp.set_collection_address("collection_addr".to_string());
    lp
}

fn phase_data(start: u64, end: u64, max_supply: Option<u64>, price: u128) -> PhaseData {
    PhaseData {
        start_time: start,
        end_time: end,
        max_supply,
        max_nfts_per_address: 10,
        price: Coin {
            denom: NATIVE_DENOM.to_string(),
            amount: price,
        },
        is_public: true,
    }
}

#[test]
fn launchpad_fee_must_stay_below_100() {
    let res = Launchpad::new(
        ADMIN.to_string(),
        COLLECTOR.to_string(),
        collection(100),
        100,
        seed(),
    );
    match res {
        Err(ContractError::InvalidLaunchpadFee {}) => {}
        other => panic!("Unexpected result: {:?}", other.is_ok()),
    }
}

#[test]
fn add_phases_in_order() {
    let mut lp = mock_launchpad(100);
    let admin = ADMIN.to_string();
    let p1 = lp
        .add_mint_phase(
            BASE_TIME,
            &admin,
            None,
            phase_data(BASE_TIME + SECOND, BASE_TIME + 100 * SECOND, Some(50), 100),
        )
        .unwrap();
    assert_eq!(p1, 1);
    let p2 = lp
        .add_mint_phase(
            BASE_TIME,
            &admin,
            None,
            phase_data(
                BASE_TIME + 200 * SECOND,
                BASE_TIME + 300 * SECOND,
                Some(50),
                200,
            ),
        )
        .unwrap();
    assert_eq!(p2, 2);
    assert_eq!(lp.info.last_phase_id, 2);

    let phases = lp.query_all_phase_configs();
    assert_eq!(phases.len(), 2);
    assert_eq!(phases[0].phase_id, 1);
    assert_eq!(phases[1].phase_id, 2);
}

#[test]
fn overlapping_phase_is_rejected() {
    let mut lp = mock_launchpad(100);
    let admin = ADMIN.to_string();
    lp.add_mint_phase(
        BASE_TIME,
        &admin,
        None,
        phase_data(BASE_TIME + SECOND, BASE_TIME + 100 * SECOND, None, 100),
    )
    .unwrap();
    // the next phase's window starts before the previous one ends
    let res = lp.add_mint_phase(
        BASE_TIME,
        &admin,
        None,
        phase_data(
            BASE_TIME + 50 * SECOND,
            BASE_TIME + 300 * SECOND,
            None,
            100,
        ),
    );
    match res {
        Err(ContractError::InvalidPhaseTime {}) => {}
        other => panic!("Unexpected result: {:?}", other.is_ok()),
    }
}

#[test]
fn only_admin_changes_phases() {
    let mut lp = mock_launchpad(100);
    let someone = USER_1.to_string();
    let res = lp.add_mint_phase(
        BASE_TIME,
        &someone,
        None,
        phase_data(BASE_TIME + SECOND, BASE_TIME + 100 * SECOND, None, 100),
    );
    match res {
        Err(ContractError::Unauthorized {}) => {}
        other => panic!("Unexpected result: {:?}", other.is_ok()),
    }
}

#[test]
fn phase_list_integrity_after_insert_and_remove() {
    // insert phase X after phase Y, then remove Y: X's predecessor must
    // be Y's old predecessor, and that predecessor's successor must be X
    let mut lp = mock_launchpad(100);
    let admin = ADMIN.to_string();
    let p = lp
        .add_mint_phase(
            BASE_TIME,
            &admin,
            None,
            phase_data(BASE_TIME + SECOND, BASE_TIME + 100 * SECOND, None, 100),
        )
        .unwrap();
    let y = lp
        .add_mint_phase(
            BASE_TIME,
            &admin,
            None,
            phase_data(
                BASE_TIME + 200 * SECOND,
                BASE_TIME + 300 * SECOND,
                None,
                100,
            ),
        )
        .unwrap();
    // X goes right after Y
    let x = lp
        .add_mint_phase(
            BASE_TIME,
            &admin,
            Some(y),
            phase_data(
                BASE_TIME + 400 * SECOND,
                BASE_TIME + 500 * SECOND,
                None,
                100,
            ),
        )
        .unwrap();

    lp.remove_mint_phase(BASE_TIME, &admin, y).unwrap();

    let phases = lp.query_all_phase_configs();
    assert_eq!(phases.len(), 2);
    assert_eq!(phases[0].phase_id, p);
    assert_eq!(phases[1].phase_id, x);
}

#[test]
fn removing_tail_moves_last_phase_pointer() {
    let mut lp = mock_launchpad(100);
    let admin = ADMIN.to_string();
    let p1 = lp
        .add_mint_phase(
            BASE_TIME,
            &admin,
            None,
            phase_data(BASE_TIME + SECOND, BASE_TIME + 100 * SECOND, None, 100),
        )
        .unwrap();
    let p2 = lp
        .add_mint_phase(
            BASE_TIME,
            &admin,
            None,
            phase_data(
                BASE_TIME + 200 * SECOND,
                BASE_TIME + 300 * SECOND,
                None,
                100,
            ),
        )
        .unwrap();
    assert_eq!(lp.info.last_phase_id, p2);
    lp.remove_mint_phase(BASE_TIME, &admin, p2).unwrap();
    assert_eq!(lp.info.last_phase_id, p1);
    // the sentinel phase with id 0 can never be removed
    let res = lp.remove_mint_phase(BASE_TIME, &admin, 0);
    match res {
        Err(ContractError::InvalidPhaseId {}) => {}
        other => panic!("Unexpected result: {:?}", other.is_ok()),
    }
}

#[test]
fn update_phase_keeps_links_and_counter() {
    let mut lp = mock_launchpad(100);
    let admin = ADMIN.to_string();
    let p1 = lp
        .add_mint_phase(
            BASE_TIME,
            &admin,
            None,
            phase_data(BASE_TIME + SECOND, BASE_TIME + 100 * SECOND, None, 100),
        )
        .unwrap();
    lp.update_mint_phase(
        BASE_TIME,
        &admin,
        p1,
        phase_data(BASE_TIME + 2 * SECOND, BASE_TIME + 90 * SECOND, Some(40), 150),
    )
    .unwrap();
    let phases = lp.query_all_phase_configs();
    assert_eq!(phases.len(), 1);
    assert_eq!(phases[0].price.amount, 150);
    assert_eq!(phases[0].max_supply, Some(40));
    assert_eq!(phases[0].total_supply, 0);
}

#[test]
fn whitelist_add_and_remove() {
    let mut lp = mock_launchpad(100);
    let admin = ADMIN.to_string();
    let p1 = lp
        .add_mint_phase(
            BASE_TIME,
            &admin,
            None,
            phase_data(BASE_TIME + SECOND, BASE_TIME + 100 * SECOND, None, 100),
        )
        .unwrap();
    lp.add_whitelist(
        BASE_TIME,
        &admin,
        p1,
        vec![USER_1.to_string(), "user2".to_string()],
    )
    .unwrap();
    let mintable = lp.query_mintable(&USER_1.to_string());
    assert_eq!(mintable.len(), 1);
    assert_eq!(mintable[0].remaining_nfts, 10);
    lp.remove_whitelist(BASE_TIME, &admin, p1, vec![USER_1.to_string()])
        .unwrap();
    lp.active_launchpad(&admin).unwrap();
    // once started (here: activated), the whitelist is frozen
    let res = lp.add_whitelist(BASE_TIME, &admin, p1, vec![USER_1.to_string()]);
    match res {
        Err(ContractError::LaunchpadStarted {}) => {}
        other => panic!("Unexpected result: {:?}", other.is_ok()),
    }
}

#[test]
fn mint_fails_over_max_supply_without_mutation() {
    // minting past the launchpad-wide cap must fail and must leave the
    // supply counter untouched
    let mut lp = mock_launchpad(5);
    let admin = ADMIN.to_string();
    let p1 = lp
        .add_mint_phase(
            BASE_TIME,
            &admin,
            None,
            phase_data(BASE_TIME + SECOND, BASE_TIME + 1000 * SECOND, None, 100),
        )
        .unwrap();
    lp.active_launchpad(&admin).unwrap();

    let user = USER_1.to_string();
    let now = BASE_TIME + 2 * SECOND;
    let funds = vec![Coin {
        denom: NATIVE_DENOM.to_string(),
        amount: 1000,
    }];
    // 6 tokens would exceed the cap of 5
    let total_before = lp.info.total_supply;
    let res = lp.mint(now, &user, &funds, p1, Some(6));
    match res {
        Err(ContractError::MaxSupplyReached {}) => {}
        other => panic!("Unexpected result: {:?}", other.is_ok()),
    }
    assert_eq!(lp.info.total_supply, total_before);
    let phases = lp.query_all_phase_configs();
    assert_eq!(phases[0].total_supply, 0);
}

#[test]
fn mint_draws_distinct_tokens_and_updates_counters() {
    let mut lp = mock_launchpad(5);
    let admin = ADMIN.to_string();
    let p1 = lp
        .add_mint_phase(
            BASE_TIME,
            &admin,
            None,
            phase_data(BASE_TIME + SECOND, BASE_TIME + 1000 * SECOND, None, 100),
        )
        .unwrap();
    lp.active_launchpad(&admin).unwrap();

    let user = USER_1.to_string();
    let now = BASE_TIME + 2 * SECOND;
    let funds = vec![Coin {
        denom: NATIVE_DENOM.to_string(),
        amount: 500,
    }];
    let msgs = lp.mint(now, &user, &funds, p1, Some(5)).unwrap();
    assert_eq!(msgs.len(), 5);
    assert_eq!(lp.info.total_supply, 5);
    let phases = lp.query_all_phase_configs();
    assert_eq!(phases[0].total_supply, 5);

    // five draws over a five-token collection yield each id exactly once
    let mut ids: Vec<u64> = msgs
        .iter()
        .map(|m| match m {
            OutboundMsg::MintNft {
                token_id,
                owner,
                contract_address,
                token_uri,
            } => {
                assert_eq!(owner, USER_1);
                assert_eq!(contract_address, "collection_addr");
                assert_eq!(
                    *token_uri,
                    format!("ipfs://collection/{}.json", token_id)
                );
                token_id.parse::<u64>().unwrap()
            }
            other => panic!("Unexpected message: {:?}", other),
        })
        .collect();
    ids.sort();
    assert_eq!(ids, vec![1, 2, 3, 4, 5]);
}

#[test]
fn random_allocation_is_deterministic_in_the_seed() {
    // same seed, same draw sequence — and the full sequence covers
    // every id in [1, max_supply] exactly once
    let max: u64 = 12;
    let mut first_run: Vec<u64> = Vec::new();
    let mut second_run: Vec<u64> = Vec::new();
    for run in 0..2 {
        let mut lp = mock_launchpad(max);
        let user = USER_1.to_string();
        let mut drawn: Vec<u64> = Vec::new();
        for i in 0..max {
            let remaining = max - i;
            let token =
                lp.generate_random_token_id(BASE_TIME + i * SECOND, &user, remaining);
            drawn.push(token);
        }
        if run == 0 {
            first_run = drawn;
        } else {
            second_run = drawn;
        }
    }
    assert_eq!(first_run, second_run);
    let mut sorted = first_run.clone();
    sorted.sort();
    let expected: Vec<u64> = (1..=max).collect();
    assert_eq!(sorted, expected);
}

#[test]
fn withdraw_splits_fee() {
    let mut lp = mock_launchpad(100);
    let admin = ADMIN.to_string();
    lp.add_mint_phase(
        BASE_TIME,
        &admin,
        None,
        phase_data(BASE_TIME + SECOND, BASE_TIME + 100 * SECOND, None, 100),
    )
    .unwrap();

    let creator = CREATOR.to_string();
    // before the last phase ends nothing can be withdrawn
    let res = lp.withdraw(BASE_TIME + 50 * SECOND, &creator, NATIVE_DENOM.to_string(), 1000);
    match res {
        Err(ContractError::LastPhaseNotFinished {}) => {}
        other => panic!("Unexpected result: {:?}", other.is_ok()),
    }

    // after it ends, a 10% fee leaves 900 for the creator and 100 for
    // the collector
    let msgs = lp
        .withdraw(
            BASE_TIME + 200 * SECOND,
            &creator,
            NATIVE_DENOM.to_string(),
            1000,
        )
        .unwrap();
    assert_eq!(msgs.len(), 2);
    assert_eq!(
        msgs[0],
        OutboundMsg::BankSend {
            to_address: CREATOR.to_string(),
            denom: NATIVE_DENOM.to_string(),
            amount: 900,
        }
    );
    assert_eq!(
        msgs[1],
        OutboundMsg::BankSend {
            to_address: COLLECTOR.to_string(),
            denom: NATIVE_DENOM.to_string(),
            amount: 100,
        }
    );
}

#[test]
fn token_uri_concatenates_prefix_id_suffix() {
    let uri = get_token_uri("ipfs://collection/", "7", ".json");
    assert_eq!(uri, "ipfs://collection/7.json");
}
