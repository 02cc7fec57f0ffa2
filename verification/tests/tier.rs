//! Tier ladder: deposits, promotion, unbonding withdrawal, claim, and the
//! delegation maintenance calls.

use ido_tier::band::{BandProtocol, ONE_USD};
use ido_tier::contract::{
    try_claim, try_deposit, try_redelegate, try_withdraw_rewards, withdraw_from_tier,
    UNBOUND_LATENCY, UNDELEGATE_BUFFER,
};
use ido_tier::error::ContractError;
use ido_tier::msg::{
    Coin, Delegation, DelegationQuery, ExecuteMsg, ExecuteResponse, InstantiateMsg, LedgerOp,
    OraiswapContract, ResponseStatus,
};
use ido_tier::state::Store;

fn tier_store(deposits: Vec<u128>, lock_periods: Vec<u64>) -> Store {
    ido_tier::contract::instantiate(
        &"admin".to_string(),
        InstantiateMsg {
            admin: None,
            lock_periods,
            nft_contract: "nft".to_string(),
            validator: "validator1".to_string(),
            deposits,
            oraiswap_contract: OraiswapContract {
                orai_contract: "oraiswap".to_string(),
                usdt_contract: "usdt".to_string(),
            },
        },
    )
    .unwrap()
}

fn orai(amount: u128) -> Vec<Coin> {
    vec![Coin { denom: "orai".to_string(), amount }]
}

// with a quote of 1, the rate is 1_000_000: one USD (18 decimals) converts
// to 10^12 native micro-tokens
const PER_USD: u128 = 1_000_000_000_000;

#[test]
fn exact_threshold_deposit_promotes_without_refund() {
    // thresholds [100, 50]: tier 1 at 100 USD, tier 2 at 50 USD, minimum
    // tier 3; deposit exactly the tier-2 threshold
    let mut store = tier_store(vec![100, 50], vec![10, 20, 30]);
    let band = BandProtocol::new(1);
    let depositor = "alice".to_string();
    let (resp, ops) = try_deposit(&mut store, 1000, &depositor, &orai(50 * PER_USD), &band).unwrap();
    assert_eq!(
        resp,
        ExecuteResponse::Deposit {
            usd_deposit: 50,
            orai_deposit: 50 * PER_USD,
            tier: 2,
            status: ResponseStatus::Success,
        }
    );
    // no refund: the whole native deposit is delegated
    assert_eq!(
        ops,
        vec![LedgerOp::Delegate { validator: "validator1".to_string(), amount: 50 * PER_USD }]
    );
}

#[test]
fn excess_deposit_is_refunded_exactly() {
    let mut store = tier_store(vec![100, 50], vec![10, 20, 30]);
    let band = BandProtocol::new(1);
    let depositor = "alice".to_string();
    // 75 USD reaches tier 2 (threshold 50); the 25 USD excess comes back
    let (resp, ops) = try_deposit(&mut store, 1000, &depositor, &orai(75 * PER_USD), &band).unwrap();
    assert_eq!(
        resp,
        ExecuteResponse::Deposit {
            usd_deposit: 50,
            orai_deposit: 50 * PER_USD,
            tier: 2,
            status: ResponseStatus::Success,
        }
    );
    assert_eq!(
        ops,
        vec![
            LedgerOp::BankSend { to: "alice".to_string(), amount: 25 * PER_USD },
            LedgerOp::Delegate { validator: "validator1".to_string(), amount: 50 * PER_USD },
        ]
    );
}

#[test]
fn insufficient_deposit_names_exact_shortfall() {
    let mut store = tier_store(vec![100, 50], vec![10, 20, 30]);
    let band = BandProtocol::new(1);
    let depositor = "alice".to_string();
    // 10 USD stays at the minimum tier; the failed call rolls back, so
    // reaching tier 2 still takes its full 50 USD threshold
    let r = try_deposit(&mut store, 1000, &depositor, &orai(10 * PER_USD), &band);
    assert_eq!(
        r.unwrap_err(),
        ContractError::InsufficientDeposit { usd: 50, orai: 50 * PER_USD }
    );
}

#[test]
fn deposit_funds_validation() {
    let mut store = tier_store(vec![100, 50], vec![10, 20, 30]);
    let band = BandProtocol::new(1);
    let depositor = "alice".to_string();
    let r = try_deposit(&mut store, 1000, &depositor, &vec![], &band);
    assert_eq!(r.unwrap_err(), ContractError::NoFunds);
    let r = try_deposit(&mut store, 1000, &depositor, &orai(0), &band);
    assert_eq!(r.unwrap_err(), ContractError::ZeroFunds);
    let atom = vec![Coin { denom: "atom".to_string(), amount: 5 }];
    let r = try_deposit(&mut store, 1000, &depositor, &atom, &band);
    assert_eq!(r.unwrap_err(), ContractError::UnsupportedToken);
    let two = vec![
        Coin { denom: "orai".to_string(), amount: 5 },
        Coin { denom: "orai".to_string(), amount: 5 },
    ];
    let r = try_deposit(&mut store, 1000, &depositor, &two, &band);
    assert_eq!(r.unwrap_err(), ContractError::MultipleFunds);
}

#[test]
fn max_tier_cannot_be_topped_up() {
    let mut store = tier_store(vec![100, 50], vec![10, 20, 30]);
    let band = BandProtocol::new(1);
    let depositor = "alice".to_string();
    try_deposit(&mut store, 1000, &depositor, &orai(100 * PER_USD), &band).unwrap();
    let r = try_deposit(&mut store, 1001, &depositor, &orai(PER_USD), &band);
    assert_eq!(r.unwrap_err(), ContractError::MaxTierReached);
}

#[test]
fn promotion_is_monotonic_across_deposits() {
    // a second deposit can only improve (numerically lower) the tier
    let mut store = tier_store(vec![100, 50], vec![10, 20, 30]);
    let band = BandProtocol::new(1);
    let depositor = "alice".to_string();
    try_deposit(&mut store, 1000, &depositor, &orai(50 * PER_USD), &band).unwrap();
    let tier_before =
        store.tier_user_infos.find(&depositor).map(|i| store.tier_user_infos.entries[i].val.tier);
    let tier_before = tier_before.unwrap();
    assert_eq!(tier_before, 2);
    try_deposit(&mut store, 1001, &depositor, &orai(50 * PER_USD), &band).unwrap();
    let tier_after =
        store.tier_user_infos.find(&depositor).map(|i| store.tier_user_infos.entries[i].val.tier);
    let tier_after = tier_after.unwrap();
    assert!(tier_after <= tier_before);
    assert_eq!(tier_after, 1);
}

#[test]
fn tier_withdrawal_queues_unbonding_and_claim_respects_maturity() {
    let mut store = tier_store(vec![100, 50], vec![10, 20, 30]);
    let band = BandProtocol::new(1);
    let depositor = "alice".to_string();
    try_deposit(&mut store, 1000, &depositor, &orai(50 * PER_USD), &band).unwrap();

    let (resp, ops) = withdraw_from_tier(&mut store, 2000, &depositor).unwrap();
    assert_eq!(resp, ExecuteResponse::WithdrawFromTier { status: ResponseStatus::Success });
    assert_eq!(
        ops,
        vec![LedgerOp::Undelegate {
            validator: "validator1".to_string(),
            amount: 50 * PER_USD - UNDELEGATE_BUFFER,
        }]
    );
    // the tier record is gone
    assert!(store.tier_user_infos.find(&depositor).is_none());
    let claim_time = 2000 + UNBOUND_LATENCY;

    // one second before maturity: nothing to claim
    let r = try_claim(&mut store, claim_time - 1, &depositor, None, None, None);
    assert_eq!(r.unwrap_err(), ContractError::NothingToClaim);

    // exactly at maturity: the full amount is paid and the entry removed
    let (resp, ops) = try_claim(&mut store, claim_time, &depositor, None, None, None).unwrap();
    assert_eq!(
        resp,
        ExecuteResponse::Claim { amount: 50 * PER_USD, status: ResponseStatus::Success }
    );
    assert_eq!(ops, vec![LedgerOp::BankSend { to: "alice".to_string(), amount: 50 * PER_USD }]);
    let ws = store.withdrawals.find(&depositor).map(|i| store.withdrawals.entries[i].val.clone());
    assert_eq!(ws.unwrap().len(), 0);

    // and afterwards the queue is empty again
    let r = try_claim(&mut store, claim_time + 1, &depositor, None, None, None);
    assert_eq!(r.unwrap_err(), ContractError::NothingToClaim);
}

#[test]
fn tier_withdrawal_without_deposit_aborts() {
    // the undelegated amount keeps a fixed buffer back; with no deposit the
    // subtraction underflows and the call aborts
    let mut store = tier_store(vec![100, 50], vec![10, 20, 30]);
    let depositor = "alice".to_string();
    let r = withdraw_from_tier(&mut store, 2000, &depositor);
    assert_eq!(r.unwrap_err(), ContractError::Arithmetic);
}

#[test]
fn claim_pays_recipient_and_skips_unmatured() {
    let mut store = tier_store(vec![100, 50], vec![10, 20, 30]);
    let band = BandProtocol::new(1);
    let depositor = "alice".to_string();
    try_deposit(&mut store, 1000, &depositor, &orai(50 * PER_USD), &band).unwrap();
    withdraw_from_tier(&mut store, 2000, &depositor).unwrap();
    try_deposit(&mut store, 3000, &depositor, &orai(50 * PER_USD), &band).unwrap();
    withdraw_from_tier(&mut store, 4000, &depositor).unwrap();

    // only the first entry has matured; it is paid to the named recipient
    let now = 2000 + UNBOUND_LATENCY;
    let (resp, ops) =
        try_claim(&mut store, now, &depositor, Some("bob".to_string()), None, None).unwrap();
    assert_eq!(
        resp,
        ExecuteResponse::Claim { amount: 50 * PER_USD, status: ResponseStatus::Success }
    );
    assert_eq!(ops, vec![LedgerOp::BankSend { to: "bob".to_string(), amount: 50 * PER_USD }]);
    let ws = store.withdrawals.find(&depositor).map(|i| store.withdrawals.entries[i].val.clone());
    let ws = ws.unwrap();
    assert_eq!(ws.len(), 1);
    assert_eq!(ws[0].claim_time, 4000 + UNBOUND_LATENCY);
}

#[test]
fn withdraw_rewards_admin_only_and_exact_amount() {
    let mut store = tier_store(vec![100, 50], vec![10, 20, 30]);
    let admin = "admin".to_string();
    let other = "mallory".to_string();
    let found = DelegationQuery::Found(Delegation {
        validator: "validator1".to_string(),
        amount: 1000,
        can_redelegate: 1000,
        accumulated_rewards: 77,
    });
    let r = try_withdraw_rewards(&mut store, &other, None, &found);
    assert_eq!(r.unwrap_err(), ContractError::Unauthorized);

    let (resp, ops) = try_withdraw_rewards(&mut store, &admin, None, &found).unwrap();
    assert_eq!(
        resp,
        ExecuteResponse::WithdrawRewards { amount: 77, status: ResponseStatus::Success }
    );
    assert_eq!(
        ops,
        vec![LedgerOp::WithdrawDelegatorReward { validator: "validator1".to_string() }]
    );

    let r = try_withdraw_rewards(&mut store, &admin, None, &DelegationQuery::Failed);
    assert_eq!(r.unwrap_err(), ContractError::NothingToWithdraw);
}

#[test]
fn redelegate_moves_full_delegation() {
    let mut store = tier_store(vec![100, 50], vec![10, 20, 30]);
    let admin = "admin".to_string();

    let r = try_redelegate(
        &mut store,
        &admin,
        "validator1".to_string(),
        None,
        &DelegationQuery::Failed,
    );
    assert_eq!(r.unwrap_err(), ContractError::RedelegateToSameValidator);

    let partial = DelegationQuery::Found(Delegation {
        validator: "validator1".to_string(),
        amount: 1000,
        can_redelegate: 400,
        accumulated_rewards: 0,
    });
    let r = try_redelegate(&mut store, &admin, "validator2".to_string(), None, &partial);
    assert_eq!(r.unwrap_err(), ContractError::CannotRedelegateFullAmount);

    let full = DelegationQuery::Found(Delegation {
        validator: "validator1".to_string(),
        amount: 1000,
        can_redelegate: 1000,
        accumulated_rewards: 5,
    });
    let (resp, ops) = try_redelegate(&mut store, &admin, "validator2".to_string(), None, &full)
        .unwrap();
    assert_eq!(resp, ExecuteResponse::Redelegate { amount: 1000, status: ResponseStatus::Success });
    assert_eq!(
        ops,
        vec![
            LedgerOp::WithdrawDelegatorReward { validator: "validator1".to_string() },
            LedgerOp::Redelegate {
                src_validator: "validator1".to_string(),
                dst_validator: "validator2".to_string(),
                amount: 1000,
            },
        ]
    );
    assert_eq!(store.config.validator, "validator2".to_string());

    // a failed query still switches the configured validator
    let (resp, ops) = try_redelegate(
        &mut store,
        &admin,
        "validator3".to_string(),
        None,
        &DelegationQuery::Failed,
    )
    .unwrap();
    assert_eq!(resp, ExecuteResponse::Redelegate { amount: 0, status: ResponseStatus::Success });
    assert!(ops.is_empty());
    assert_eq!(store.config.validator, "validator3".to_string());
}

#[test]
fn band_conversions_are_exact() {
    let band = BandProtocol::new(2);
    // quote 2 gives a rate of 500_000
    assert_eq!(band.usd_amount(4_000_000_000_000), 2);
    assert_eq!(band.orai_amount(2), 4_000_000_000_000);
    assert_eq!(ONE_USD, 1_000_000_000_000_000_000);
    let band1 = BandProtocol::new(1);
    assert_eq!(band1.usd_amount(3 * PER_USD), 3);
    assert_eq!(band1.orai_amount(3), 3 * PER_USD);
}

#[test]
fn instantiate_validates_ladder() {
    let msg = |deposits: Vec<u128>, lock: Vec<u64>| InstantiateMsg {
        admin: None,
        lock_periods: lock,
        nft_contract: "nft".to_string(),
        validator: "validator1".to_string(),
        deposits,
        oraiswap_contract: OraiswapContract {
            orai_contract: "oraiswap".to_string(),
            usdt_contract: "usdt".to_string(),
        },
    };
    let sender = "admin".to_string();
    let r = ido_tier::contract::instantiate(&sender, msg(vec![], vec![1]));
    assert_eq!(r.unwrap_err(), ContractError::EmptyDeposits);

    let r = ido_tier::contract::instantiate(&sender, msg(vec![5, 7], vec![1, 2, 3]));
    assert_eq!(r.unwrap_err(), ContractError::DepositsNotDescending);

    let r = ido_tier::contract::instantiate(&sender, msg(vec![10], vec![1, 2, 3]));
    assert_eq!(r.unwrap_err(), ContractError::WrongLockPeriodsLength { expected: 2 });

    let too_many: Vec<u128> = (0..255u128).rev().collect();
    let lock: Vec<u64> = (0..256u64).collect();
    let r = ido_tier::contract::instantiate(&sender, msg(too_many, lock));
    assert_eq!(r.unwrap_err(), ContractError::TooManyDeposits);
}

#[test]
fn execute_routes_deposit_with_oracle() {
    let mut store = tier_store(vec![100, 50], vec![10, 20, 30]);
    let contract = "self".to_string();
    let depositor = "alice".to_string();
    let band = BandProtocol::new(1);
    let (resp, ops) = ido_tier::contract::execute(
        &mut store,
        1000,
        &contract,
        &depositor,
        &orai(50 * PER_USD),
        ExecuteMsg::Deposit { padding: None },
        &band,
        &DelegationQuery::Failed,
    )
    .unwrap();
    assert_eq!(
        resp,
        ExecuteResponse::Deposit {
            usd_deposit: 50,
            orai_deposit: 50 * PER_USD,
            tier: 2,
            status: ResponseStatus::Success,
        }
    );
    assert_eq!(ops.len(), 1);
}

#[test]
fn claim_windows_select_only_their_range() {
    let mut store = tier_store(vec![100, 50], vec![10, 20, 30]);
    let band = BandProtocol::new(1);
    let depositor = "alice".to_string();
    for k in 0..3u64 {
        try_deposit(&mut store, 1000 + k, &depositor, &orai(50 * PER_USD), &band).unwrap();
        withdraw_from_tier(&mut store, 2000 + k, &depositor).unwrap();
    }
    let now = 2002 + UNBOUND_LATENCY;
    // a window that covers only the middle entry pays only it
    let (resp, _) = try_claim(&mut store, now, &depositor, None, Some(1), Some(1)).unwrap();
    assert_eq!(
        resp,
        ExecuteResponse::Claim { amount: 50 * PER_USD, status: ResponseStatus::Success }
    );
    let ws = store.withdrawals.find(&depositor).map(|i| store.withdrawals.entries[i].val.clone());
    let ws = ws.unwrap();
    assert_eq!(ws.len(), 2);
    assert_eq!(ws[0].timestamp, 2000);
    assert_eq!(ws[1].timestamp, 2002);
}
