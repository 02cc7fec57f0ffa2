//! Read-only queries, answer converters, whitelist resolution, and the
//! attached-funds helpers.

use ido_tier::band::{BandProtocol, QUOTE_OFFER_AMOUNT};
use ido_tier::contract::{query_config, query_user_info, query_withdrawals, start_ido, whitelist_add, whitelist_remove};
use ido_tier::error::ContractError;
use ido_tier::msg::{
    Coin, InstantiateMsg, OraiswapContract, PurchaseAnswer, QueryResponse, SerializedWithdrawals,
    Whitelist,
};
use ido_tier::state::{Config, Ido, Purchase, Store, TierUserInfo, UserInfo, UserWithdrawal};
use ido_tier::utils::{get_received_funds, in_whitelist, sent_funds};

fn base_store() -> Store {
    ido_tier::contract::instantiate(
        &"admin".to_string(),
        InstantiateMsg {
            admin: Some("admin".to_string()),
            lock_periods: vec![11, 22],
            nft_contract: "nft".to_string(),
            validator: "validator1".to_string(),
            deposits: vec![40],
            oraiswap_contract: OraiswapContract {
                orai_contract: "oraiswap".to_string(),
                usdt_contract: "usdt".to_string(),
            },
        },
    )
    .unwrap()
}

#[test]
fn config_query_reflects_instantiation() {
    let store = base_store();
    match query_config(&store).unwrap() {
        QueryResponse::Config { admin, nft_contract, lock_periods, validator, status, usd_deposits, min_tier } => {
            assert_eq!(admin, "admin".to_string());
            assert_eq!(nft_contract, "nft".to_string());
            assert_eq!(lock_periods, vec![11, 22]);
            assert_eq!(validator, "validator1".to_string());
            assert_eq!(status, 0);
            assert_eq!(usd_deposits, vec![40]);
            assert_eq!(min_tier, 2);
        }
        other => panic!("unexpected answer {:?}", other),
    }
}

#[test]
fn tier_ladder_accessors() {
    let store = base_store();
    let cfg = &store.config;
    assert_eq!(cfg.min_tier(), 2);
    assert_eq!(cfg.max_tier(), 1);
    assert_eq!(cfg.deposit_by_tier(1), 40);
    assert_eq!(cfg.lock_period(1), 11);
    assert_eq!(cfg.lock_period(2), 22);
    assert_eq!(cfg.tier_by_deposit(39), 2);
    assert_eq!(cfg.tier_by_deposit(40), 1);
    assert_eq!(cfg.tier_by_deposit(41), 1);
    assert_eq!(cfg.tier_by_deposit(0), 2);
}

#[test]
fn user_info_query_defaults_to_minimum_tier() {
    let store = base_store();
    match query_user_info(&store, &"nobody".to_string()).unwrap() {
        QueryResponse::TierUserInfo { tier, timestamp, usd_deposit, orai_deposit } => {
            assert_eq!(tier, 2);
            assert_eq!(timestamp, 0);
            assert_eq!(usd_deposit, 0);
            assert_eq!(orai_deposit, 0);
        }
        other => panic!("unexpected answer {:?}", other),
    }
}

#[test]
fn withdrawals_query_pages() {
    let mut store = base_store();
    let alice = "alice".to_string();
    let mut ws = Vec::new();
    for k in 0..5u64 {
        ws.push(UserWithdrawal { amount: 100 + k as u128, claim_time: 1000 + k, timestamp: k });
    }
    store.withdrawals.put(&alice, ws);
    match query_withdrawals(&store, &alice, Some(1), Some(2)).unwrap() {
        QueryResponse::Withdrawals { amount, withdrawals } => {
            assert_eq!(amount, 5);
            assert_eq!(
                withdrawals,
                vec![
                    SerializedWithdrawals { amount: 101, claim_time: 1001, timestamp: 1 },
                    SerializedWithdrawals { amount: 102, claim_time: 1002, timestamp: 2 },
                ]
            );
        }
        other => panic!("unexpected answer {:?}", other),
    }
    // a window past the end is empty
    match query_withdrawals(&store, &alice, Some(7), Some(3)).unwrap() {
        QueryResponse::Withdrawals { amount, withdrawals } => {
            assert_eq!(amount, 5);
            assert!(withdrawals.is_empty());
        }
        other => panic!("unexpected answer {:?}", other),
    }
}

#[test]
fn whitelist_flags_override_shared_default() {
    let mut store = base_store();
    let contract = "self".to_string();
    let admin = "admin".to_string();
    let alice = "alice".to_string();
    let bob = "bob".to_string();

    // a shared (open) sale blocks only the listed addresses
    let mut ido = Ido::default();
    ido.admin = "admin".to_string();
    ido.start_time = 100;
    ido.end_time = 200;
    ido.token_contract = "t".to_string();
    ido.price = 1;
    ido.total_tokens_amount = 10;
    ido.soft_cap = 5;
    ido.remaining_tokens_per_tier = vec![5, 5];
    start_ido(
        &mut store,
        50,
        &contract,
        &admin,
        ido,
        Whitelist::Shared { with_blocked: Some(vec![bob.clone()]) },
    )
    .unwrap();
    assert!(in_whitelist(&store, &alice, 0));
    assert!(!in_whitelist(&store, &bob, 0));

    whitelist_remove(&mut store, &admin, vec![alice.clone()], 0).unwrap();
    assert!(!in_whitelist(&store, &alice, 0));
    whitelist_add(&mut store, &admin, vec![bob.clone()], 0).unwrap();
    assert!(in_whitelist(&store, &bob, 0));

    // whitelist administration is for the sale admin only
    let r = whitelist_add(&mut store, &alice, vec![alice.clone()], 0);
    assert_eq!(r.unwrap_err(), ContractError::Unauthorized);
}

#[test]
fn sent_funds_sums_native_coins_only() {
    let coins = vec![
        Coin { denom: "orai".to_string(), amount: 5 },
        Coin { denom: "orai".to_string(), amount: 7 },
    ];
    assert_eq!(sent_funds(&coins), Ok(12));
    let mixed = vec![
        Coin { denom: "orai".to_string(), amount: 5 },
        Coin { denom: "atom".to_string(), amount: 7 },
    ];
    assert_eq!(sent_funds(&mixed), Err(ContractError::UnsupportedToken));
    assert_eq!(sent_funds(&vec![]), Ok(0));
}

#[test]
fn received_funds_accepts_one_native_coin() {
    let one = vec![Coin { denom: "orai".to_string(), amount: 9 }];
    let coin = get_received_funds(&one).unwrap();
    assert_eq!(coin.amount, 9);
    assert_eq!(coin.denom, "orai".to_string());
}

#[test]
fn answer_converters_carry_fields() {
    let p = Purchase { tokens_amount: 5, timestamp: 6, unlock_time: 7 };
    assert_eq!(
        p.to_answer(),
        PurchaseAnswer { tokens_amount: 5, timestamp: 6, unlock_time: 7 }
    );
    let u = UserInfo { total_payment: 1, total_tokens_bought: 2, total_tokens_received: 3 };
    match u.to_answer() {
        QueryResponse::UserInfo { total_payment, total_tokens_bought, total_tokens_received } => {
            assert_eq!((total_payment, total_tokens_bought, total_tokens_received), (1, 2, 3));
        }
        other => panic!("unexpected answer {:?}", other),
    }
    let t = TierUserInfo { tier: 1, timestamp: 2, usd_deposit: 3, orai_deposit: 4 };
    assert_eq!(t.get_tier(), 1);
    let w = UserWithdrawal { amount: 1, claim_time: 2, timestamp: 3 };
    assert_eq!(
        w.to_serialized(),
        SerializedWithdrawals { amount: 1, claim_time: 2, timestamp: 3 }
    );
}

#[test]
fn ido_answer_caps_pools_by_remainder() {
    let mut ido = Ido::default();
    ido.token_contract = "t".to_string();
    ido.price = 2;
    ido.total_tokens_amount = 100;
    ido.sold_amount = 70;
    ido.remaining_tokens_per_tier = vec![50, 10];
    ido.soft_cap = 30;
    match ido.to_answer().unwrap() {
        QueryResponse::IdoInfo { remaining_per_tiers, sold_amount, .. } => {
            assert_eq!(sold_amount, 70);
            // each pool is capped by the unsold remainder of 30
            assert_eq!(remaining_per_tiers, vec![30, 10]);
        }
        other => panic!("unexpected answer {:?}", other),
    }
    assert_eq!(ido.remaining_tokens(), 30);
    assert_eq!(ido.remaining_tokens_per_tier(1), 30);
    assert_eq!(ido.remaining_tokens_per_tier(2), 10);
}

#[test]
fn config_answer_moves_fields() {
    let store = base_store();
    let cfg: Config = store.config.clone();
    match cfg.to_answer().unwrap() {
        QueryResponse::Config { admin, min_tier, usd_deposits, .. } => {
            assert_eq!(admin, "admin".to_string());
            assert_eq!(min_tier, 2);
            assert_eq!(usd_deposits, vec![40]);
        }
        other => panic!("unexpected answer {:?}", other),
    }
}

#[test]
fn rate_query_names_the_swap_pair() {
    let msg = BandProtocol::rate_query(&OraiswapContract {
        orai_contract: "oraiswap".to_string(),
        usdt_contract: "usdt".to_string(),
    });
    assert_eq!(msg.simulate_swap_operations.offer_amount, QUOTE_OFFER_AMOUNT);
    assert_eq!(msg.simulate_swap_operations.operations.len(), 1);
    let op = &msg.simulate_swap_operations.operations[0];
    assert_eq!(op.orai_swap.offer_asset_info.native_token.denom, "orai".to_string());
    assert_eq!(op.orai_swap.ask_asset_info.token.contract_addr, "usdt".to_string());
}
