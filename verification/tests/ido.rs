//! Sale lifecycle: registry bookkeeping, creation checks, purchases,
//! vesting receipts, refunds and settlement.

use ido_tier::contract::{
    buy_tokens, change_status, execute, recv_tokens, start_ido, try_deposit, withdraw,
};
use ido_tier::band::BandProtocol;
use ido_tier::error::ContractError;
use ido_tier::msg::{
    Coin, ContractStatus, DelegationQuery, ExecuteMsg, ExecuteResponse, InstantiateMsg, LedgerOp,
    OraiswapContract, PaymentMethod, ResponseStatus, Whitelist,
};
use ido_tier::state::{Ido, Store};

fn fresh_store(deposits: Vec<u128>, lock_periods: Vec<u64>) -> Store {
    ido_tier::contract::instantiate(
        &"admin".to_string(),
        InstantiateMsg {
            admin: None,
            lock_periods,
            nft_contract: "nft".to_string(),
            validator: "validator1".to_string(),
            deposits,
            oraiswap_contract: OraiswapContract {
                orai_contract: "oraiswap".to_string(),
                usdt_contract: "usdt".to_string(),
            },
        },
    )
    .unwrap()
}

fn token_sale(total: u128, soft_cap: u128, price: u128, pools: Vec<u128>) -> Ido {
    let mut ido = Ido::default();
    ido.admin = "admin".to_string();
    ido.start_time = 100;
    ido.end_time = 200;
    ido.token_contract = "sale_token".to_string();
    ido.price = price;
    ido.total_tokens_amount = total;
    ido.soft_cap = soft_cap;
    ido.remaining_tokens_per_tier = pools;
    ido.payment_token_contract = Some("pay_token".to_string());
    ido.payment_token_hash = Some("pay_hash".to_string());
    ido
}

#[test]
fn ido() {
    let mut storage = fresh_store(vec![50], vec![100, 200]);

    assert_eq!(Ido::len(&storage), Ok(0));

    let token_address: String = "token".to_string();
    let canonical_token_address = token_address.clone();

    let mut new_ido = Ido {
        start_time: 100,
        end_time: 150,
        token_contract: canonical_token_address,
        price: 100,
        total_tokens_amount: 1000,
        ..Ido::default()
    };

    assert!(!new_ido.is_stored());
    assert_eq!(Ido::len(&storage), Ok(0));

    new_ido.save(&mut storage).unwrap();
    assert!(new_ido.is_stored());
    assert_eq!(new_ido.id(), 0);
    assert_eq!(Ido::len(&storage), Ok(1));

    new_ido.save(&mut storage).unwrap();
    assert!(new_ido.is_stored());
    assert_eq!(new_ido.id(), 0);
    assert_eq!(Ido::len(&storage), Ok(1));

    let mut loaded_ido = Ido::load(&storage, 0).unwrap();
    assert_eq!(new_ido, loaded_ido);

    loaded_ido.save(&mut storage).unwrap();
    assert!(loaded_ido.is_stored());
    assert_eq!(new_ido, loaded_ido);
    assert_eq!(loaded_ido.id(), 0);
    assert_eq!(Ido::len(&storage), Ok(1));

    loaded_ido.id = None;
    loaded_ido.save(&mut storage).unwrap();
    assert!(loaded_ido.is_stored());
    assert_eq!(loaded_ido.id(), 1);
    assert_eq!(Ido::len(&storage), Ok(2));
}

#[test]
fn start_ido_records_sale_and_custody_transfer() {
    let mut store = fresh_store(vec![50], vec![100, 200]);
    let contract = "self".to_string();
    let admin = "admin".to_string();
    let ido = token_sale(1000, 500, 2, vec![700, 300]);
    let (resp, ops) = start_ido(
        &mut store,
        50,
        &contract,
        &admin,
        ido,
        Whitelist::Empty { with: None },
    )
    .unwrap();
    assert_eq!(resp, ExecuteResponse::StartIdo { ido_id: 0, status: ResponseStatus::Success });
    assert_eq!(
        ops,
        vec![LedgerOp::TokenTransfer {
            token_contract: "sale_token".to_string(),
            from: "admin".to_string(),
            to: "self".to_string(),
            amount: 1000,
        }]
    );
    let stored = Ido::load(&store, 0).unwrap();
    assert_eq!(stored.sold_amount, 0);
    assert_eq!(stored.total_tokens_amount, 1000);
    assert!(!stored.shared_whitelist);
}

#[test]
fn start_ido_validation_errors() {
    let mut store = fresh_store(vec![50], vec![100, 200]);
    let contract = "self".to_string();
    let admin = "admin".to_string();
    let buyer = "buyer".to_string();
    let wl = || Whitelist::Empty { with: None };

    // not the admin
    let r = start_ido(&mut store, 50, &contract, &buyer, token_sale(10, 5, 1, vec![5, 5]), wl());
    assert_eq!(r.unwrap_err(), ContractError::Unauthorized);

    // wrong pool count for two tiers
    let r = start_ido(&mut store, 50, &contract, &admin, token_sale(10, 5, 1, vec![10]), wl());
    assert_eq!(r.unwrap_err(), ContractError::WrongTokensPerTierLength);

    // pools must cover the total
    let r = start_ido(&mut store, 50, &contract, &admin, token_sale(10, 5, 1, vec![4, 5]), wl());
    assert_eq!(r.unwrap_err(), ContractError::TokensPerTierSumTooSmall);

    // end before start
    let mut ido = token_sale(10, 5, 1, vec![5, 5]);
    ido.start_time = 200;
    ido.end_time = 100;
    let r = start_ido(&mut store, 50, &contract, &admin, ido, wl());
    assert_eq!(r.unwrap_err(), ContractError::EndBeforeStart);

    // zero price
    let r = start_ido(&mut store, 50, &contract, &admin, token_sale(10, 5, 0, vec![5, 5]), wl());
    assert_eq!(r.unwrap_err(), ContractError::ZeroPrice);

    // already over at creation time
    let r = start_ido(&mut store, 250, &contract, &admin, token_sale(10, 5, 1, vec![5, 5]), wl());
    assert_eq!(r.unwrap_err(), ContractError::EndsInPast);

    // zero soft cap
    let r = start_ido(&mut store, 50, &contract, &admin, token_sale(10, 0, 1, vec![5, 5]), wl());
    assert_eq!(r.unwrap_err(), ContractError::ZeroSoftCap);

    // soft cap above the total
    let r = start_ido(&mut store, 50, &contract, &admin, token_sale(10, 11, 1, vec![5, 5]), wl());
    assert_eq!(r.unwrap_err(), ContractError::SoftCapTooBig);

    // inactive contract refuses sale creation
    change_status(&mut store, &admin, ContractStatus::Stopped).unwrap();
    let r = start_ido(&mut store, 50, &contract, &admin, token_sale(10, 5, 1, vec![5, 5]), wl());
    assert_eq!(r.unwrap_err(), ContractError::InactiveContract);
}

#[test]
fn min_tier_buyer_empties_tier_pool_then_cannot_buy() {
    // a buyer at the minimum tier buys the whole tier pool; one more unit
    // fails with the over-allocation error naming the empty remainder
    let mut store = fresh_store(vec![50], vec![100, 200]);
    let contract = "self".to_string();
    let admin = "admin".to_string();
    let buyer = "buyer".to_string();
    let ido = token_sale(1000, 500, 2, vec![700, 300]);
    start_ido(&mut store, 50, &contract, &admin, ido, Whitelist::Empty { with: None }).unwrap();

    let no_funds: Vec<Coin> = vec![];
    let (resp, ops) =
        buy_tokens(&mut store, 150, &contract, &buyer, 0, 300, None, &no_funds).unwrap();
    // tier 2 (the minimum) vests with the 200-second lock after end time 200
    assert_eq!(
        resp,
        ExecuteResponse::BuyTokens { amount: 300, unlock_time: 400, status: ResponseStatus::Success }
    );
    assert_eq!(
        ops,
        vec![LedgerOp::TokenTransfer {
            token_contract: "pay_token".to_string(),
            from: "buyer".to_string(),
            to: "self".to_string(),
            amount: 150,
        }]
    );
    let stored = Ido::load(&store, 0).unwrap();
    assert_eq!(stored.remaining_tokens_per_tier, vec![700, 0]);
    assert_eq!(stored.sold_amount, 300);
    assert_eq!(stored.remaining_tokens_per_tier(2), 0);

    let r = buy_tokens(&mut store, 150, &contract, &buyer, 0, 1, None, &no_funds);
    assert_eq!(r.unwrap_err(), ContractError::BuyLimitExceeded { remaining: 0 });
}

#[test]
fn buy_limit_error_names_exact_remaining() {
    let mut store = fresh_store(vec![50], vec![100, 200]);
    let contract = "self".to_string();
    let admin = "admin".to_string();
    let buyer = "buyer".to_string();
    start_ido(
        &mut store,
        50,
        &contract,
        &admin,
        token_sale(1000, 500, 2, vec![700, 300]),
        Whitelist::Empty { with: None },
    )
    .unwrap();
    let no_funds: Vec<Coin> = vec![];
    let r = buy_tokens(&mut store, 150, &contract, &buyer, 0, 301, None, &no_funds);
    assert_eq!(r.unwrap_err(), ContractError::BuyLimitExceeded { remaining: 300 });
}

#[test]
fn buy_errors_inactive_zero_and_exhausted() {
    let mut store = fresh_store(vec![50], vec![100, 200]);
    let contract = "self".to_string();
    let admin = "admin".to_string();
    let buyer = "buyer".to_string();
    start_ido(
        &mut store,
        50,
        &contract,
        &admin,
        token_sale(1000, 500, 2, vec![0, 1000]),
        Whitelist::Empty { with: None },
    )
    .unwrap();
    let no_funds: Vec<Coin> = vec![];

    // before the start window
    let r = buy_tokens(&mut store, 50, &contract, &buyer, 0, 1, None, &no_funds);
    assert_eq!(r.unwrap_err(), ContractError::IdoNotActive);

    // zero amount
    let r = buy_tokens(&mut store, 150, &contract, &buyer, 0, 0, None, &no_funds);
    assert_eq!(r.unwrap_err(), ContractError::ZeroAmount);

    // buy everything; any further attempt exceeds a remainder of zero
    buy_tokens(&mut store, 150, &contract, &buyer, 0, 1000, None, &no_funds).unwrap();
    let r = buy_tokens(&mut store, 150, &contract, &buyer, 0, 1, None, &no_funds);
    assert_eq!(r.unwrap_err(), ContractError::BuyLimitExceeded { remaining: 0 });
}

#[test]
fn sold_never_exceeds_total_and_pools_stay_within_remainder() {
    let mut store = fresh_store(vec![50], vec![100, 200]);
    let contract = "self".to_string();
    let admin = "admin".to_string();
    let buyer = "buyer".to_string();
    start_ido(
        &mut store,
        50,
        &contract,
        &admin,
        token_sale(1000, 500, 2, vec![700, 300]),
        Whitelist::Empty { with: None },
    )
    .unwrap();
    let no_funds: Vec<Coin> = vec![];
    buy_tokens(&mut store, 150, &contract, &buyer, 0, 200, None, &no_funds).unwrap();
    let ido = Ido::load(&store, 0).unwrap();
    assert!(ido.sold_amount <= ido.total_tokens_amount);
    let pool_sum: u128 = ido.remaining_tokens_per_tier.iter().sum();
    assert!(pool_sum <= ido.total_tokens_amount - ido.sold_amount);
}

#[test]
fn failed_sale_refunds_full_payment_and_resets_counters() {
    // the sale ends under its soft cap; the receipt call takes the refund
    // path
    let mut store = fresh_store(vec![50], vec![100, 200]);
    let contract = "self".to_string();
    let admin = "admin".to_string();
    let buyer = "buyer".to_string();
    let mut ido = token_sale(1000, 500, 2, vec![600, 400]);
    ido.payment_token_contract = None;
    ido.payment_token_hash = None;
    start_ido(&mut store, 50, &contract, &admin, ido, Whitelist::Empty { with: None }).unwrap();

    // native sale: 200 orai at price 2 buys 400 tokens
    let funds = vec![Coin { denom: "orai".to_string(), amount: 200 }];
    buy_tokens(&mut store, 150, &contract, &buyer, 0, 0, None, &funds).unwrap();
    let sale = Ido::load(&store, 0).unwrap();
    assert_eq!(sale.sold_amount, 400);
    assert!(sale.sold_amount < sale.soft_cap);

    let (resp, ops) = recv_tokens(&mut store, 300, &contract, &buyer, 0, None, None, None).unwrap();
    assert_eq!(
        resp,
        ExecuteResponse::RecvTokens { amount: 200, status: ResponseStatus::Success, ido_success: false }
    );
    assert_eq!(ops, vec![LedgerOp::BankSend { to: "buyer".to_string(), amount: 200 }]);

    // sale-scoped counters reset to zero; the global ones dropped by the
    // same amounts
    let si = store.ido_to_info.find(&buyer, 0).map(|i| store.ido_to_info.entries[i].val);
    let si = si.unwrap();
    assert_eq!(si.total_payment, 0);
    assert_eq!(si.total_tokens_bought, 0);
    assert_eq!(si.total_tokens_received, 0);
    let gi = store.user_infos.find(&buyer).map(|i| store.user_infos.entries[i].val).unwrap();
    assert_eq!(gi.total_payment, 0);
    assert_eq!(gi.total_tokens_bought, 0);
}

#[test]
fn vesting_receipt_archives_and_pays_out() {
    let mut store = fresh_store(vec![50], vec![100, 0]);
    let contract = "self".to_string();
    let admin = "admin".to_string();
    let buyer = "buyer".to_string();
    start_ido(
        &mut store,
        50,
        &contract,
        &admin,
        token_sale(1000, 100, 2, vec![600, 400]),
        Whitelist::Empty { with: None },
    )
    .unwrap();
    let no_funds: Vec<Coin> = vec![];
    // two purchases at the minimum tier (zero lock: unlock at end time 200)
    buy_tokens(&mut store, 150, &contract, &buyer, 0, 100, None, &no_funds).unwrap();
    buy_tokens(&mut store, 160, &contract, &buyer, 0, 150, None, &no_funds).unwrap();

    // nothing has vested before the end
    let r = recv_tokens(&mut store, 199, &contract, &buyer, 0, None, None, None);
    assert_eq!(r.unwrap_err(), ContractError::NothingToReceive);

    let (resp, ops) = recv_tokens(&mut store, 200, &contract, &buyer, 0, None, None, None).unwrap();
    assert_eq!(
        resp,
        ExecuteResponse::RecvTokens { amount: 250, status: ResponseStatus::Success, ido_success: true }
    );
    assert_eq!(
        ops,
        vec![LedgerOp::TokenTransfer {
            token_contract: "sale_token".to_string(),
            from: "self".to_string(),
            to: "buyer".to_string(),
            amount: 250,
        }]
    );
    // the queue is empty, the archive holds both purchases in order
    let live = store.purchases.find(&buyer, 0).map(|i| store.purchases.entries[i].val.clone());
    assert_eq!(live.unwrap().len(), 0);
    let arch =
        store.archived_purchases.find(&buyer, 0).map(|i| store.archived_purchases.entries[i].val.clone());
    let arch = arch.unwrap();
    assert_eq!(arch.len(), 2);
    assert_eq!(arch[0].tokens_amount, 100);
    assert_eq!(arch[1].tokens_amount, 150);
    // received never exceeds bought
    let gi = store.user_infos.find(&buyer).map(|i| store.user_infos.entries[i].val).unwrap();
    assert!(gi.total_tokens_received <= gi.total_tokens_bought);
    assert_eq!(gi.total_tokens_received, 250);
}

#[test]
fn withdraw_settles_creator_once() {
    let mut store = fresh_store(vec![50], vec![100, 200]);
    let contract = "self".to_string();
    let admin = "admin".to_string();
    let buyer = "buyer".to_string();
    let mut ido = token_sale(1000, 100, 2, vec![600, 400]);
    ido.payment_token_contract = None;
    ido.payment_token_hash = None;
    start_ido(&mut store, 50, &contract, &admin, ido, Whitelist::Empty { with: None }).unwrap();
    let funds = vec![Coin { denom: "orai".to_string(), amount: 100 }];
    buy_tokens(&mut store, 150, &contract, &buyer, 0, 0, None, &funds).unwrap();

    // not finished yet
    let r = withdraw(&mut store, 150, &contract, &admin, 0);
    assert_eq!(r.unwrap_err(), ContractError::IdoNotFinished);

    // only the creator settles
    let r = withdraw(&mut store, 250, &contract, &buyer, 0);
    assert_eq!(r.unwrap_err(), ContractError::Unauthorized);

    // soft cap met: the unsold remainder comes back and the payment is owed
    let (resp, ops) = withdraw(&mut store, 250, &contract, &admin, 0).unwrap();
    assert_eq!(
        resp,
        ExecuteResponse::Withdraw {
            ido_amount: 800,
            payment_amount: 100,
            status: ResponseStatus::Success,
        }
    );
    assert_eq!(
        ops,
        vec![
            LedgerOp::BankSend { to: "admin".to_string(), amount: 100 },
            LedgerOp::TokenTransfer {
                token_contract: "sale_token".to_string(),
                from: "self".to_string(),
                to: "admin".to_string(),
                amount: 800,
            },
        ]
    );

    let r = withdraw(&mut store, 260, &contract, &admin, 0);
    assert_eq!(r.unwrap_err(), ContractError::AlreadyWithdrawn);
}

#[test]
fn explicit_indices_release_outside_window() {
    let mut store = fresh_store(vec![50], vec![100, 0]);
    let contract = "self".to_string();
    let admin = "admin".to_string();
    let buyer = "buyer".to_string();
    start_ido(
        &mut store,
        50,
        &contract,
        &admin,
        token_sale(1000, 100, 1, vec![500, 500]),
        Whitelist::Empty { with: None },
    )
    .unwrap();
    let no_funds: Vec<Coin> = vec![];
    for amount in [10u128, 20, 30] {
        buy_tokens(&mut store, 150, &contract, &buyer, 0, amount, None, &no_funds).unwrap();
    }
    // window [1, 2) plus the explicitly named first purchase
    let (resp, _ops) = recv_tokens(
        &mut store,
        200,
        &contract,
        &buyer,
        0,
        Some(1),
        Some(1),
        Some(vec![0]),
    )
    .unwrap();
    assert_eq!(
        resp,
        ExecuteResponse::RecvTokens { amount: 30, status: ResponseStatus::Success, ido_success: true }
    );
    let live = store.purchases.find(&buyer, 0).map(|i| store.purchases.entries[i].val.clone());
    let live = live.unwrap();
    assert_eq!(live.len(), 1);
    assert_eq!(live[0].tokens_amount, 30);
}

#[test]
fn execute_routes_commands() {
    let mut store = fresh_store(vec![50], vec![100, 200]);
    let contract = "self".to_string();
    let admin = "admin".to_string();
    let no_funds: Vec<Coin> = vec![];
    let band = BandProtocol::new(1);
    let delegation = DelegationQuery::Failed;
    let (resp, ops) = execute(
        &mut store,
        10,
        &contract,
        &admin,
        &no_funds,
        ExecuteMsg::ChangeAdmin { admin: "admin2".to_string(), padding: None },
        &band,
        &delegation,
    )
    .unwrap();
    assert_eq!(resp, ExecuteResponse::ChangeAdmin { status: ResponseStatus::Success });
    assert!(ops.is_empty());
    assert_eq!(store.config.admin, "admin2".to_string());

    // the old admin lost its power
    let r = execute(
        &mut store,
        10,
        &contract,
        &admin,
        &no_funds,
        ExecuteMsg::ChangeStatus { status: ContractStatus::Stopped, padding: None },
        &band,
        &delegation,
    );
    assert_eq!(r.unwrap_err(), ContractError::Unauthorized);
}

#[test]
fn buy_unlock_time_follows_tier_lock_period() {
    // the unlock time is exactly the sale's end plus the buyer's tier lock
    let mut store = fresh_store(vec![50], vec![111, 222]);
    let contract = "self".to_string();
    let admin = "admin".to_string();
    let buyer = "buyer".to_string();
    start_ido(
        &mut store,
        50,
        &contract,
        &admin,
        token_sale(1000, 100, 1, vec![500, 500]),
        Whitelist::Empty { with: None },
    )
    .unwrap();
    let no_funds: Vec<Coin> = vec![];
    let (resp, _) = buy_tokens(&mut store, 150, &contract, &buyer, 0, 10, None, &no_funds).unwrap();
    match resp {
        ExecuteResponse::BuyTokens { unlock_time, .. } => {
            assert_eq!(unlock_time, 200 + store.config.lock_period(2));
            assert_eq!(unlock_time, 422);
        }
        other => panic!("unexpected response {:?}", other),
    }
    let p = store.purchases.find(&buyer, 0).map(|i| store.purchases.entries[i].val.clone());
    assert_eq!(p.unwrap()[0].unlock_time, 422);
}

#[test]
fn execute_starts_sale_from_message_fields() {
    let mut store = fresh_store(vec![50], vec![100, 200]);
    let contract = "self".to_string();
    let admin = "admin".to_string();
    let no_funds: Vec<Coin> = vec![];
    let band = BandProtocol::new(1);
    let (resp, ops) = execute(
        &mut store,
        50,
        &contract,
        &admin,
        &no_funds,
        ExecuteMsg::StartIdo {
            start_time: 100,
            end_time: 200,
            token_contract: "sale_token".to_string(),
            price: 3,
            soft_cap: 10,
            payment: PaymentMethod::Native,
            total_amount: 30,
            tokens_per_tier: vec![15, 15],
            padding: None,
            whitelist: Whitelist::Shared { with_blocked: None },
        },
        &band,
        &DelegationQuery::Failed,
    )
    .unwrap();
    assert_eq!(resp, ExecuteResponse::StartIdo { ido_id: 0, status: ResponseStatus::Success });
    assert_eq!(ops.len(), 1);
    let stored = Ido::load(&store, 0).unwrap();
    assert_eq!(stored.admin, "admin".to_string());
    assert!(stored.shared_whitelist);
    assert!(stored.is_native_payment());
    assert_eq!(stored.price, 3);
}

#[test]
fn payment_is_floor_of_amount_over_price() {
    let mut store = fresh_store(vec![50], vec![100, 200]);
    let contract = "self".to_string();
    let admin = "admin".to_string();
    let buyer = "buyer".to_string();
    start_ido(
        &mut store,
        50,
        &contract,
        &admin,
        token_sale(1000, 100, 3, vec![500, 500]),
        Whitelist::Empty { with: None },
    )
    .unwrap();
    let no_funds: Vec<Coin> = vec![];
    let (_, ops) = buy_tokens(&mut store, 150, &contract, &buyer, 0, 100, None, &no_funds).unwrap();
    // 100 tokens at price 3 charge floor(100 / 3) = 33
    assert_eq!(
        ops,
        vec![LedgerOp::TokenTransfer {
            token_contract: "pay_token".to_string(),
            from: "buyer".to_string(),
            to: "self".to_string(),
            amount: 33,
        }]
    );
    let gi = store.user_infos.find(&buyer).map(|i| store.user_infos.entries[i].val).unwrap();
    assert_eq!(gi.total_payment, 33);
    assert_eq!(gi.total_tokens_bought, 100);
}

#[test]
fn refund_after_receipt_keeps_received_within_bought() {
    // with a zero lock period a purchase vests at the sale's end; a receipt
    // at exactly the end takes the vesting path, and a later call takes the
    // refund path, which must also pull the global received counter down
    let mut store = fresh_store(vec![50], vec![100, 0]);
    let contract = "self".to_string();
    let admin = "admin".to_string();
    let buyer = "buyer".to_string();
    start_ido(
        &mut store,
        50,
        &contract,
        &admin,
        token_sale(1000, 500, 1, vec![600, 400]),
        Whitelist::Empty { with: None },
    )
    .unwrap();
    let no_funds: Vec<Coin> = vec![];
    buy_tokens(&mut store, 150, &contract, &buyer, 0, 10, None, &no_funds).unwrap();

    // at the end the sale has missed its soft cap but refund mode has not
    // triggered yet, so the vested purchase is received
    let (resp, _) = recv_tokens(&mut store, 200, &contract, &buyer, 0, None, None, None).unwrap();
    assert_eq!(
        resp,
        ExecuteResponse::RecvTokens { amount: 10, status: ResponseStatus::Success, ido_success: true }
    );
    let gi = store.user_infos.find(&buyer).map(|i| store.user_infos.entries[i].val).unwrap();
    assert_eq!(gi.total_tokens_received, 10);
    assert_eq!(gi.total_tokens_bought, 10);

    // past the end the refund path resets the sale and pulls every global
    // counter down by the sale's amounts
    recv_tokens(&mut store, 201, &contract, &buyer, 0, None, None, None).unwrap();
    let si = store.ido_to_info.find(&buyer, 0).map(|i| store.ido_to_info.entries[i].val).unwrap();
    assert_eq!((si.total_payment, si.total_tokens_bought, si.total_tokens_received), (0, 0, 0));
    let gi = store.user_infos.find(&buyer).map(|i| store.user_infos.entries[i].val).unwrap();
    assert_eq!(gi.total_tokens_received, 0);
    assert_eq!(gi.total_tokens_bought, 0);
    assert!(gi.total_tokens_received <= gi.total_tokens_bought);
}

#[test]
fn withdraw_skips_zero_payment() {
    // soft cap met but sold below the price: the owed payment floors to
    // zero, and no zero-amount operation is emitted
    let mut store = fresh_store(vec![50], vec![100, 200]);
    let contract = "self".to_string();
    let admin = "admin".to_string();
    let buyer = "buyer".to_string();
    let mut ido = token_sale(1000, 100, 500, vec![500, 500]);
    ido.payment_token_contract = None;
    ido.payment_token_hash = None;
    start_ido(&mut store, 50, &contract, &admin, ido, Whitelist::Empty { with: None }).unwrap();
    // one orai at price 500 buys 500 tokens, meeting the soft cap of 100
    let funds = vec![Coin { denom: "orai".to_string(), amount: 1 }];
    buy_tokens(&mut store, 150, &contract, &buyer, 0, 0, None, &funds).unwrap();
    let sale = Ido::load(&store, 0).unwrap();
    assert_eq!(sale.sold_amount, 500);
    assert!(sale.sold_amount >= sale.soft_cap);

    // hold the sold amount below the price so the payment floors to zero
    let mut sale = Ido::load(&store, 0).unwrap();
    sale.price = 501;
    sale.save(&mut store).unwrap();

    let (resp, ops) = withdraw(&mut store, 250, &contract, &admin, 0).unwrap();
    assert_eq!(
        resp,
        ExecuteResponse::Withdraw {
            ido_amount: 500,
            payment_amount: 0,
            status: ResponseStatus::Success,
        }
    );
    // only the custody return: the zero payment is skipped
    assert_eq!(
        ops,
        vec![LedgerOp::TokenTransfer {
            token_contract: "sale_token".to_string(),
            from: "self".to_string(),
            to: "admin".to_string(),
            amount: 500,
        }]
    );
}
