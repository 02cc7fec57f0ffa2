//! The entry points of the state machine.  Each one performs a single
//! read-validate-mutate cycle on the store and returns the answer together
//! with the ledger operations the host must execute; on any error the store
//! is handed back untouched.

use crate::band::BandProtocol;
use crate::compact::{
    all_below, asc_filter, lemma_asc_filter_empty, lemma_asc_filter_prefix,
    lemma_asc_filter_props, lemma_asc_filter_tail, lemma_seq_sum_bounds, picked, remove_idxs,
    remove_sorted_indices, seq_sum, sorted_strict,
};
use crate::error::ContractError;
use crate::msg::{
    Coin, ContractStatus, DelegationQuery, ExecuteMsg, ExecuteResponse, InstantiateMsg, LedgerOp,
    PaymentMethod, QueryResponse, ResponseStatus, SerializedWithdrawals, Whitelist,
};
use crate::state::{Config, Ido, Purchase, Store, TierUserInfo, UserInfo, UserWithdrawal};
use crate::utils;
use vstd::prelude::*;

verus! {

/// Seconds between a tier withdrawal and its funds becoming claimable.
pub const UNBOUND_LATENCY: u64 = 21 * 24 * 60 * 60;

/// Held back from the undelegated amount as a rounding/fee safety margin.
pub const UNDELEGATE_BUFFER: u128 = 4;

/// What a successful call returns: the answer and the ledger operations to
/// execute, in order.
pub type ExecuteResult = Result<(ExecuteResponse, Vec<LedgerOp>), ContractError>;

/// The sale-side collections of two stores coincide.
pub open spec fn same_ido_state(a: Store, b: Store) -> bool {
    &&& a.idos@ == b.idos@
    &&& a.purchases == b.purchases
    &&& a.archived_purchases == b.archived_purchases
    &&& a.active_idos == b.active_idos
    &&& a.ido_to_info == b.ido_to_info
    &&& a.owner_to_idos == b.owner_to_idos
    &&& a.whitelist == b.whitelist
    &&& a.user_infos == b.user_infos
}

/// The tier-side collections of two stores coincide.
pub open spec fn same_tier_state(a: Store, b: Store) -> bool {
    &&& a.tier_user_infos == b.tier_user_infos
    &&& a.withdrawals == b.withdrawals
}

// ---------------------------------------------------------------------------
// admin operations
// ---------------------------------------------------------------------------

/// Replaces the contract admin.  Only the current admin may do so.
pub fn change_admin(store: &mut Store, sender: &String, admin: String) -> (r: ExecuteResult)
    requires
        old(store).wf(),
    ensures
        final(store).wf(),
        change_admin_rel(*old(store), *final(store), *sender, admin, r),
{
    let check = utils::assert_admin(store, sender);
    match check {
        Err(e) => Err(e),
        Ok(()) => {
            let ghost pre = *store;
            store.config.admin = admin;
            proof {
                pre.lemma_tiers_wf_unchanged(*store);
            }
            Ok((ExecuteResponse::ChangeAdmin { status: ResponseStatus::Success }, Vec::new()))
        },
    }
}

/// Replaces the contract status.  Only the admin may do so.
pub fn change_status(store: &mut Store, sender: &String, status: ContractStatus) -> (r:
    ExecuteResult)
    requires
        old(store).wf(),
    ensures
        final(store).wf(),
        change_status_rel(*old(store), *final(store), *sender, status, r),
{
    let check = utils::assert_admin(store, sender);
    match check {
        Err(e) => Err(e),
        Ok(()) => {
            let ghost pre = *store;
            store.config.status = status.code();
            proof {
                pre.lemma_tiers_wf_unchanged(*store);
            }
            Ok((ExecuteResponse::ChangeStatus { status: ResponseStatus::Success }, Vec::new()))
        },
    }
}

// ---------------------------------------------------------------------------
// delegation maintenance
// ---------------------------------------------------------------------------

/// The rewards the host's delegation query reports: zero when the query
/// failed.  A query that found no delegation is excluded by the callers.
pub open spec fn spec_rewards_of(d: DelegationQuery) -> u128 {
    match d {
        DelegationQuery::Failed => 0,
        DelegationQuery::Missing => 0,
        DelegationQuery::Found(del) => del.accumulated_rewards,
    }
}

/// Withdraws the accumulated delegation rewards.  Admin only; fails when
/// there is nothing to withdraw.  The store is never changed.
pub fn try_withdraw_rewards(
    store: &mut Store,
    sender: &String,
    recipient: Option<String>,
    delegation: &DelegationQuery,
) -> (r: ExecuteResult)
    requires
        old(store).wf(),
        delegation is Missing ==> old(store).config.admin@ != sender@,
    ensures
        final(store).wf(),
        try_withdraw_rewards_rel(*old(store), *final(store), *sender, *delegation, r),
{
    if store.config.admin != *sender {
        return Err(ContractError::Unauthorized);
    }
    let can_withdraw = match delegation {
        DelegationQuery::Failed => 0,
        DelegationQuery::Missing => 0,
        DelegationQuery::Found(del) => del.accumulated_rewards,
    };
    if can_withdraw == 0 {
        return Err(ContractError::NothingToWithdraw);
    }
    let validator = store.config.validator.clone();
    let mut ops: Vec<LedgerOp> = Vec::new();
    ops.push(LedgerOp::WithdrawDelegatorReward { validator });
    let resp = ExecuteResponse::WithdrawRewards {
        amount: can_withdraw,
        status: ResponseStatus::Success,
    };
    let _ = recipient;
    Ok((resp, ops))
}

/// Moves the delegation to another validator.  Admin only.  When the
/// delegation query failed, only the configured validator is replaced; a
/// found delegation must be movable in full.
pub fn try_redelegate(
    store: &mut Store,
    sender: &String,
    validator_address: String,
    recipient: Option<String>,
    delegation: &DelegationQuery,
) -> (r: ExecuteResult)
    requires
        old(store).wf(),
        delegation is Missing ==> old(store).config.admin@ != sender@ || validator_address@ == old(store).config.validator@,
    ensures
        final(store).wf(),
        try_redelegate_rel(*old(store), *final(store), *sender, validator_address, *delegation, r),
{
    if store.config.admin != *sender {
        return Err(ContractError::Unauthorized);
    }
    if validator_address == store.config.validator {
        return Err(ContractError::RedelegateToSameValidator);
    }
    let _ = recipient;
    let ghost pre = *store;
    match delegation {
        DelegationQuery::Failed => {
            store.config.validator = validator_address;
            proof {
                pre.lemma_tiers_wf_unchanged(*store);
            }
            let resp = ExecuteResponse::Redelegate { amount: 0, status: ResponseStatus::Success };
            Ok((resp, Vec::new()))
        },
        DelegationQuery::Missing => {
            proof {
                assert(false);
            }
            Err(ContractError::Unauthorized)
        },
        DelegationQuery::Found(del) => {
            if del.can_redelegate != del.amount {
                return Err(ContractError::CannotRedelegateFullAmount);
            }
            let old_validator = store.config.validator.clone();
            store.config.validator = validator_address;
            proof {
                pre.lemma_tiers_wf_unchanged(*store);
            }
            let mut ops: Vec<LedgerOp> = Vec::new();
            if del.accumulated_rewards != 0 {
                ops.push(
                    LedgerOp::WithdrawDelegatorReward { validator: old_validator.clone() },
                );
            }
            ops.push(
                LedgerOp::Redelegate {
                    src_validator: old_validator,
                    dst_validator: store.config.validator.clone(),
                    amount: del.can_redelegate,
                },
            );
            let resp = ExecuteResponse::Redelegate {
                amount: del.can_redelegate,
                status: ResponseStatus::Success,
            };
            Ok((resp, ops))
        },
    }
}

// ---------------------------------------------------------------------------
// whitelist administration
// ---------------------------------------------------------------------------

/// Whether one of the given address strings reads as `a`.
pub open spec fn contains_addr(addrs: Seq<String>, a: Seq<char>) -> bool {
    exists|k: int| 0 <= k < addrs.len() && addrs[k]@ == a
}

/// Everything but the whitelist flags of two stores coincides.
pub open spec fn same_except_whitelist(a: Store, b: Store) -> bool {
    &&& a.config == b.config
    &&& a.idos@ == b.idos@
    &&& a.purchases == b.purchases
    &&& a.archived_purchases == b.archived_purchases
    &&& a.active_idos == b.active_idos
    &&& a.ido_to_info == b.ido_to_info
    &&& a.owner_to_idos == b.owner_to_idos
    &&& a.user_infos == b.user_infos
    &&& same_tier_state(a, b)
}

/// Writes the explicit whitelist flag `value` for every given address of the
/// sale.  Contract must be active; sale admin only.
fn whitelist_set(
    store: &mut Store,
    sender: &String,
    addresses: Vec<String>,
    ido_id: u32,
    value: bool,
) -> (r: Result<(), ContractError>)
    requires
        old(store).wf(),
    ensures
        final(store).wf(),
        match r {
            Ok(()) => {
                &&& old(store).config.status == ContractStatus::Active.spec_code()
                &&& crate::utils::spec_ido_admin(*old(store), ido_id) == sender@
                &&& same_except_whitelist(*final(store), *old(store))
                &&& forall|a: Seq<char>, id2: u32|
                    id2 != ido_id ==> final(store).whitelist.spec_get(a, id2) == old(store).whitelist.spec_get(a, id2)
                &&& forall|a: Seq<char>|
                    contains_addr(addresses@, a) ==> final(store).whitelist.spec_get(a, ido_id)
                        == Some(value)
                &&& forall|a: Seq<char>|
                    !contains_addr(addresses@, a) ==> final(store).whitelist.spec_get(a, ido_id)
                        == old(store).whitelist.spec_get(a, ido_id)
            },
            Err(e) => {
                &&& *final(store) == *old(store)
                &&& if old(store).config.status != ContractStatus::Active.spec_code() {
                    e == ContractError::InactiveContract
                } else {
                    &&& crate::utils::spec_ido_admin(*old(store), ido_id) != sender@
                    &&& e == ContractError::Unauthorized
                }
            },
        },
{
    let active = utils::assert_contract_active(store);
    if let Err(e) = active {
        return Err(e);
    }
    let admin = utils::assert_ido_admin(store, sender, ido_id);
    if let Err(e) = admin {
        return Err(e);
    }
    let ghost pre = *store;
    let mut k: usize = 0;
    while k < addresses.len()
        invariant
            0 <= k <= addresses@.len(),
            pre.wf(),
            store.wf(),
            same_except_whitelist(*store, pre),
            forall|a: Seq<char>, id2: u32|
                id2 != ido_id ==> store.whitelist.spec_get(a, id2) == pre.whitelist.spec_get(
                    a,
                    id2,
                ),
            forall|a: Seq<char>|
                contains_addr(addresses@.take(k as int), a) ==> store.whitelist.spec_get(a, ido_id)
                    == Some(value),
            forall|a: Seq<char>|
                !contains_addr(addresses@.take(k as int), a) ==> store.whitelist.spec_get(a, ido_id)
                    == pre.whitelist.spec_get(a, ido_id),
        decreases addresses@.len() - k,
    {
        store.whitelist.put(&addresses[k], ido_id, value);
        proof {
            let t1 = addresses@.take(k as int + 1);
            let t0 = addresses@.take(k as int);
            assert forall|a: Seq<char>| contains_addr(t1, a) implies contains_addr(t0, a) || a
                == addresses@[k as int]@ by {
                let w = choose|w: int| 0 <= w < t1.len() && t1[w]@ == a;
                if w < k {
                    assert(t0[w]@ == a);
                }
            };
            assert forall|a: Seq<char>| contains_addr(t0, a) implies contains_addr(t1, a) by {
                let w = choose|w: int| 0 <= w < t0.len() && t0[w]@ == a;
                assert(t1[w]@ == a);
            };
            assert(t1[k as int]@ == addresses@[k as int]@);
            pre.lemma_tiers_wf_unchanged(*store);
        }
        k = k + 1;
    }
    proof {
        assert(addresses@.take(addresses@.len() as int) =~= addresses@);
    }
    Ok(())
}

/// Grants the given addresses explicit access to the sale, overriding the
/// shared-whitelist default.
pub fn whitelist_add(store: &mut Store, sender: &String, addresses: Vec<String>, ido_id: u32) -> (r:
    ExecuteResult)
    requires
        old(store).wf(),
    ensures
        final(store).wf(),
        whitelist_add_rel(*old(store), *final(store), *sender, addresses@, ido_id, r),
{
    match whitelist_set(store, sender, addresses, ido_id, true) {
        Ok(()) => Ok(
            (ExecuteResponse::WhitelistAdd { status: ResponseStatus::Success }, Vec::new()),
        ),
        Err(e) => Err(e),
    }
}

/// Blocks the given addresses from the sale, overriding the
/// shared-whitelist default.
pub fn whitelist_remove(
    store: &mut Store,
    sender: &String,
    addresses: Vec<String>,
    ido_id: u32,
) -> (r: ExecuteResult)
    requires
        old(store).wf(),
    ensures
        final(store).wf(),
        whitelist_remove_rel(*old(store), *final(store), *sender, addresses@, ido_id, r),
{
    match whitelist_set(store, sender, addresses, ido_id, false) {
        Ok(()) => Ok(
            (ExecuteResponse::WhitelistRemove { status: ResponseStatus::Success }, Vec::new()),
        ),
        Err(e) => Err(e),
    }
}

// ---------------------------------------------------------------------------
// sale creation and settlement
// ---------------------------------------------------------------------------

/// The addresses a whitelist policy names at sale creation.
pub open spec fn whitelist_addrs(w: Whitelist) -> Seq<String> {
    match w {
        Whitelist::Empty { with } => match with {
            Some(v) => v@,
            None => Seq::empty(),
        },
        Whitelist::Shared { with_blocked } => match with_blocked {
            Some(v) => v@,
            None => Seq::empty(),
        },
    }
}

/// The explicit flag those addresses receive: access under an empty
/// (closed) policy, a block under a shared (open) one.
pub open spec fn whitelist_flag(w: Whitelist) -> bool {
    w is Empty
}

/// The first check a sale creation fails, if any, over the sale's plain
/// fields.
pub open spec fn start_ido_err_fields(
    s: Store,
    now: u64,
    sender: Seq<char>,
    pools: Seq<u128>,
    start_time: u64,
    end_time: u64,
    price: u128,
    soft_cap: u128,
    total: u128,
) -> Option<ContractError> {
    if s.config.status != ContractStatus::Active.spec_code() {
        Some(ContractError::InactiveContract)
    } else if s.config.admin@ != sender {
        Some(ContractError::Unauthorized)
    } else if pools.len() != s.config.min_tier as int {
        Some(ContractError::WrongTokensPerTierLength)
    } else if seq_sum(pools) > u128::MAX {
        Some(ContractError::Arithmetic)
    } else if seq_sum(pools) < total {
        Some(ContractError::TokensPerTierSumTooSmall)
    } else if start_time >= end_time {
        Some(ContractError::EndBeforeStart)
    } else if price == 0 {
        Some(ContractError::ZeroPrice)
    } else if now >= end_time {
        Some(ContractError::EndsInPast)
    } else if soft_cap == 0 {
        Some(ContractError::ZeroSoftCap)
    } else if soft_cap > total {
        Some(ContractError::SoftCapTooBig)
    } else if s.idos@.len() >= u32::MAX {
        Some(ContractError::Arithmetic)
    } else {
        None
    }
}

/// The first check a sale creation fails, if any.
pub open spec fn start_ido_err(s: Store, now: u64, sender: Seq<char>, ido: Ido) -> Option<
    ContractError,
> {
    start_ido_err_fields(
        s,
        now,
        sender,
        ido.remaining_tokens_per_tier@,
        ido.start_time,
        ido.end_time,
        ido.price,
        ido.soft_cap,
        ido.total_tokens_amount,
    )
}

/// Creates a sale: validates it, allocates the next sequential id, records
/// the named whitelist entries and the creator's ownership, and takes the
/// full token amount into custody.
pub fn start_ido(
    store: &mut Store,
    now: u64,
    contract_addr: &String,
    sender: &String,
    ido: Ido,
    whitelist: Whitelist,
) -> (r: ExecuteResult)
    requires
        old(store).wf(),
        ido.id is None,
    ensures
        final(store).wf(),
        match r {
            Ok((resp, ops)) => {
                let n = old(store).idos@.len();
                let new_id = n as u32;
                &&& start_ido_err(*old(store), now, sender@, ido) is None
                &&& final(store).idos@.len() == n + 1
                &&& crate::state::ido_eqv(
                    final(store).idos@.last(),
                    Ido {
                        id: Some(new_id),
                        shared_whitelist: !whitelist_flag(whitelist),
                        ..ido
                    },
                )
                &&& forall|j: int| 0 <= j < n ==> final(store).idos@[j] == old(store).idos@[j]
                &&& forall|a: Seq<char>, id2: u32|
                    id2 != new_id ==> final(store).whitelist.spec_get(a, id2) == old(store).whitelist.spec_get(a, id2)
                &&& forall|a: Seq<char>|
                    contains_addr(whitelist_addrs(whitelist), a) ==> final(store).whitelist.spec_get(a, new_id) == Some(whitelist_flag(whitelist))
                &&& forall|a: Seq<char>|
                    !contains_addr(whitelist_addrs(whitelist), a) ==> final(store).whitelist.spec_get(a, new_id) == old(store).whitelist.spec_get(a, new_id)
                &&& final(store).spec_owner_idos(sender@) == old(store).spec_owner_idos(
                    sender@,
                ).push(new_id)
                &&& forall|a: Seq<char>|
                    a != sender@ ==> final(store).owner_to_idos.spec_get(a) == old(store).owner_to_idos.spec_get(a)
                &&& final(store).purchases == old(store).purchases
                &&& final(store).archived_purchases == old(store).archived_purchases
                &&& final(store).active_idos == old(store).active_idos
                &&& final(store).ido_to_info == old(store).ido_to_info
                &&& final(store).user_infos == old(store).user_infos
                &&& same_tier_state(*final(store), *old(store))
                &&& final(store).config == old(store).config
                &&& ops@ == seq![
                    LedgerOp::TokenTransfer {
                        token_contract: ido.token_contract,
                        from: *sender,
                        to: *contract_addr,
                        amount: ido.total_tokens_amount,
                    },
                ]
                &&& resp == (ExecuteResponse::StartIdo {
                    ido_id: new_id,
                    status: ResponseStatus::Success,
                })
            },
            Err(e) => {
                &&& *final(store) == *old(store)
                &&& start_ido_err(*old(store), now, sender@, ido) == Some(e)
            },
        },
{
    let active = utils::assert_contract_active(store);
    if let Err(e) = active {
        return Err(e);
    }
    let admin = utils::assert_admin(store, sender);
    if let Err(e) = admin {
        return Err(e);
    }
    if ido.remaining_tokens_per_tier.len() != store.config.min_tier as usize {
        return Err(ContractError::WrongTokensPerTierLength);
    }
    let ghost pools = ido.remaining_tokens_per_tier@;
    let mut sum: u128 = 0;
    let mut i: usize = 0;
    proof {
        assert(pools.take(0) =~= Seq::<u128>::empty());
    }
    while i < ido.remaining_tokens_per_tier.len()
        invariant
            0 <= i <= pools.len(),
            pools == ido.remaining_tokens_per_tier@,
            sum == seq_sum(pools.take(i as int)),
            *store == *old(store),
            old(store).wf(),
            old(store).config.status == ContractStatus::Active.spec_code(),
            old(store).config.admin@ == sender@,
            pools.len() == old(store).config.min_tier as int,
        decreases pools.len() - i,
    {
        proof {
            assert(pools.take(i as int + 1).drop_last() =~= pools.take(i as int));
            assert(pools.take(i as int + 1).last() == pools[i as int]);
        }
        match sum.checked_add(ido.remaining_tokens_per_tier[i]) {
            Some(v) => {
                sum = v;
            },
            None => {
                proof {
                    assert(seq_sum(pools.take(i as int + 1)) > u128::MAX);
                    lemma_seq_sum_bounds(pools);
                    assert(seq_sum(pools) >= seq_sum(pools.take(i as int + 1)));
                }
                return Err(ContractError::Arithmetic);
            },
        }
        i = i + 1;
    }
    proof {
        assert(pools.take(pools.len() as int) =~= pools);
    }
    if sum < ido.total_tokens_amount {
        return Err(ContractError::TokensPerTierSumTooSmall);
    }
    if ido.start_time >= ido.end_time {
        return Err(ContractError::EndBeforeStart);
    }
    if ido.price == 0 {
        return Err(ContractError::ZeroPrice);
    }
    if now >= ido.end_time {
        return Err(ContractError::EndsInPast);
    }
    if ido.soft_cap == 0 {
        return Err(ContractError::ZeroSoftCap);
    }
    if ido.soft_cap > ido.total_tokens_amount {
        return Err(ContractError::SoftCapTooBig);
    }
    if store.idos.len() >= u32::MAX as usize {
        return Err(ContractError::Arithmetic);
    }
    let mut to_save = ido;
    to_save.shared_whitelist = match &whitelist {
        Whitelist::Shared { .. } => true,
        Whitelist::Empty { .. } => false,
    };
    let ghost ido_saved = to_save;
    let ghost pre = *store;
    let saved = to_save.save(store);
    let ido_id = match saved {
        Ok(id) => id,
        Err(_) => {
            proof {
                assert(false);
            }
            return Err(ContractError::Arithmetic);
        },
    };
    let ghost idos_after = store.idos@;
    proof {
        pre.lemma_tiers_wf_unchanged(*store);
    }
    let flag = match &whitelist {
        Whitelist::Empty { .. } => true,
        Whitelist::Shared { .. } => false,
    };
    let addresses_opt: Option<&Vec<String>> = match &whitelist {
        Whitelist::Empty { with } => with.as_ref(),
        Whitelist::Shared { with_blocked } => with_blocked.as_ref(),
    };
    let ghost addrs = whitelist_addrs(whitelist);
    let addresses: &Vec<String> = match addresses_opt {
        Some(v) => v,
        None => {
            let transfer = LedgerOp::TokenTransfer {
                token_contract: to_save.token_contract.clone(),
                from: sender.clone(),
                to: contract_addr.clone(),
                amount: to_save.total_tokens_amount,
            };
            let taken = store.owner_to_idos.take(sender);
            let mut startup_ido_list = match taken {
                Some(v) => v,
                None => Vec::new(),
            };
            startup_ido_list.push(ido_id);
            store.owner_to_idos.put(sender, startup_ido_list);
            proof {
                pre.lemma_tiers_wf_unchanged(*store);
                assert(addrs =~= Seq::<String>::empty());
            }
            let mut ops: Vec<LedgerOp> = Vec::new();
            ops.push(transfer);
            return Ok((ExecuteResponse::StartIdo { ido_id, status: ResponseStatus::Success }, ops));
        },
    };
    let mut k: usize = 0;
    while k < addresses.len()
        invariant
            0 <= k <= addresses@.len(),
            addresses@ == addrs,
            flag == whitelist_flag(whitelist),
            store.wf(),
            pre.wf(),
            store.config == pre.config,
            store.idos@ == idos_after,
            idos_after.len() == pre.idos@.len() + 1,
            crate::state::ido_eqv(idos_after.last(), Ido { id: Some(ido_id), ..ido_saved }),
            ido_saved == (Ido { shared_whitelist: !whitelist_flag(whitelist), ..ido }),
            forall|j: int| 0 <= j < pre.idos@.len() ==> idos_after[j] == pre.idos@[j],
            ido_id as int == pre.idos@.len(),
            store.purchases == pre.purchases,
            store.archived_purchases == pre.archived_purchases,
            store.active_idos == pre.active_idos,
            store.ido_to_info == pre.ido_to_info,
            store.owner_to_idos == pre.owner_to_idos,
            store.user_infos == pre.user_infos,
            same_tier_state(*store, pre),
            forall|a: Seq<char>, id2: u32|
                id2 != ido_id ==> store.whitelist.spec_get(a, id2) == pre.whitelist.spec_get(
                    a,
                    id2,
                ),
            forall|a: Seq<char>|
                contains_addr(addrs.take(k as int), a) ==> store.whitelist.spec_get(a, ido_id)
                    == Some(flag),
            forall|a: Seq<char>|
                !contains_addr(addrs.take(k as int), a) ==> store.whitelist.spec_get(a, ido_id)
                    == pre.whitelist.spec_get(a, ido_id),
        decreases addresses@.len() - k,
    {
        store.whitelist.put(&addresses[k], ido_id, flag);
        proof {
            let t1 = addrs.take(k as int + 1);
            let t0 = addrs.take(k as int);
            assert forall|a: Seq<char>| contains_addr(t1, a) implies contains_addr(t0, a) || a
                == addrs[k as int]@ by {
                let w = choose|w: int| 0 <= w < t1.len() && t1[w]@ == a;
                if w < k {
                    assert(t0[w]@ == a);
                }
            };
            assert forall|a: Seq<char>| contains_addr(t0, a) implies contains_addr(t1, a) by {
                let w = choose|w: int| 0 <= w < t0.len() && t0[w]@ == a;
                assert(t1[w]@ == a);
            };
            assert(t1[k as int]@ == addrs[k as int]@);
            pre.lemma_tiers_wf_unchanged(*store);
        }
        k = k + 1;
    }
    proof {
        assert(addrs.take(addrs.len() as int) =~= addrs);
    }
    let taken = store.owner_to_idos.take(sender);
    let mut startup_ido_list = match taken {
        Some(v) => v,
        None => Vec::new(),
    };
    startup_ido_list.push(ido_id);
    store.owner_to_idos.put(sender, startup_ido_list);
    proof {
        pre.lemma_tiers_wf_unchanged(*store);
    }
    let transfer = LedgerOp::TokenTransfer {
        token_contract: to_save.token_contract.clone(),
        from: sender.clone(),
        to: contract_addr.clone(),
        amount: to_save.total_tokens_amount,
    };
    let mut ops: Vec<LedgerOp> = Vec::new();
    ops.push(transfer);
    Ok((ExecuteResponse::StartIdo { ido_id, status: ResponseStatus::Success }, ops))
}

/// The first check a settlement fails, if any.
pub open spec fn withdraw_err(s: Store, now: u64, sender: Seq<char>, ido_id: u32) -> Option<
    ContractError,
> {
    if crate::utils::spec_ido_admin(s, ido_id) != sender {
        Some(ContractError::Unauthorized)
    } else if s.config.status != ContractStatus::Active.spec_code() {
        Some(ContractError::InactiveContract)
    } else {
        match s.spec_ido_opt(ido_id) {
            None => None,
            Some(ido) => {
                if ido.withdrawn {
                    Some(ContractError::AlreadyWithdrawn)
                } else if now < ido.end_time {
                    Some(ContractError::IdoNotFinished)
                } else if ido.soft_cap <= ido.sold_amount && ido.sold_amount
                    > ido.total_tokens_amount {
                    Some(ContractError::Arithmetic)
                } else if ido.price == 0 {
                    Some(ContractError::Arithmetic)
                } else {
                    None
                }
            },
        }
    }
}

/// Settles an ended sale for its creator: returns the unsold tokens (all of
/// them when the soft cap was missed), pays out the collected payment when
/// the soft cap was met, and marks the sale withdrawn.
///
/// The caller's address must be non-empty: the host validates addresses
/// before a call, and an unsaved sale reads as a default record with an
/// empty admin, which must not match anyone.
pub fn withdraw(
    store: &mut Store,
    now: u64,
    contract_addr: &String,
    sender: &String,
    ido_id: u32,
) -> (r: ExecuteResult)
    requires
        old(store).wf(),
        sender@.len() > 0,
        (ido_id as int) < old(store).idos@.len() ==> crate::state::ido_payment_consistent(
            old(store).idos@[ido_id as int],
        ),
    ensures
        final(store).wf(),
        withdraw_rel(*old(store), *final(store), now, *contract_addr, *sender, ido_id, r),
{
    let admin = utils::assert_ido_admin(store, sender, ido_id);
    if let Err(e) = admin {
        return Err(e);
    }
    let active = utils::assert_contract_active(store);
    if let Err(e) = active {
        return Err(e);
    }
    if ido_id as usize >= store.idos.len() {
        // an unsaved sale can only pass the admin check for the empty
        // address, which the host never supplies
        proof {
            assert(false);
        }
        return Err(ContractError::Unauthorized);
    }
    let loaded = Ido::load(store, ido_id);
    let mut ido = match loaded {
        Ok(i) => i,
        Err(e) => {
            return Err(e);
        },
    };
    if ido.withdrawn {
        return Err(ContractError::AlreadyWithdrawn);
    }
    if now < ido.end_time {
        return Err(ContractError::IdoNotFinished);
    }
    let remaining_tokens: u128 = if ido.soft_cap > ido.sold_amount {
        ido.total_tokens_amount
    } else {
        match ido.total_tokens_amount.checked_sub(ido.sold_amount) {
            Some(v) => v,
            None => {
                return Err(ContractError::Arithmetic);
            },
        }
    };
    let payment_amount: u128 = match ido.sold_amount.checked_div(ido.price) {
        Some(v) => v,
        None => {
            return Err(ContractError::Arithmetic);
        },
    };
    ido.withdrawn = true;
    let ghost pre = *store;
    let saved = ido.save(store);
    if let Err(e) = saved {
        return Err(e);
    }
    proof {
        pre.lemma_tiers_wf_unchanged(*store);
    }
    let mut ops: Vec<LedgerOp> = Vec::new();
    let native = ido.is_native_payment();
    if native && ido.sold_amount >= ido.soft_cap && payment_amount != 0 {
        ops.push(LedgerOp::BankSend { to: sender.clone(), amount: payment_amount });
    }
    if remaining_tokens != 0 {
        ops.push(
            LedgerOp::TokenTransfer {
                token_contract: ido.token_contract.clone(),
                from: contract_addr.clone(),
                to: sender.clone(),
                amount: remaining_tokens,
            },
        );
    }
    if !native && ido.sold_amount >= ido.soft_cap && payment_amount != 0 {
        let token_contract = match &ido.payment_token_contract {
            Some(c) => c.clone(),
            None => {
                proof {
                    assert(false);
                }
                String::new()
            },
        };
        ops.push(
            LedgerOp::TokenTransfer {
                token_contract,
                from: contract_addr.clone(),
                to: sender.clone(),
                amount: payment_amount,
            },
        );
    }
    let resp = ExecuteResponse::Withdraw {
        ido_amount: remaining_tokens,
        payment_amount,
        status: ResponseStatus::Success,
    };
    Ok((resp, ops))
}

/// The ledger operations a settlement emits: the payment first when it is a
/// native bank send, the custody return of the unsold tokens, and the
/// payment last when it moves a payment token.  Zero-amount operations are
/// skipped.
pub open spec fn withdraw_ops(
    ido: Ido,
    contract_addr: String,
    sender: String,
    remaining: u128,
    payment: u128,
) -> Seq<LedgerOp> {
    let native = ido.payment_token_contract is None && ido.payment_token_hash is None;
    let met = ido.sold_amount >= ido.soft_cap;
    let bank: Seq<LedgerOp> = if native && met && payment != 0 {
        seq![LedgerOp::BankSend { to: sender, amount: payment }]
    } else {
        Seq::empty()
    };
    let custody: Seq<LedgerOp> = if remaining != 0 {
        seq![
            LedgerOp::TokenTransfer {
                token_contract: ido.token_contract,
                from: contract_addr,
                to: sender,
                amount: remaining,
            },
        ]
    } else {
        Seq::empty()
    };
    let pay_token: Seq<LedgerOp> = if !native && met && payment != 0 {
        seq![
            LedgerOp::TokenTransfer {
                token_contract: ido.payment_token_contract->0,
                from: contract_addr,
                to: sender,
                amount: payment,
            },
        ]
    } else {
        Seq::empty()
    };
    bank + custody + pay_token
}

// ---------------------------------------------------------------------------
// purchase
// ---------------------------------------------------------------------------

/// What a purchase resolves to: the token amount, the payment charged, the
/// buyer's tier, and the vesting unlock time — or the error that aborts it.
/// Every arithmetic overflow, wherever it strikes in the bookkeeping,
/// aborts with the same error.
pub open spec fn buy_outcome(
    s: Store,
    now: u64,
    sender: Seq<char>,
    funds: Seq<Coin>,
    ido_id: u32,
    amount_arg: u128,
) -> Result<(u128, u128, u8, u64), ContractError> {
    if s.config.status != ContractStatus::Active.spec_code() {
        Err(ContractError::InactiveContract)
    } else if !s.spec_ido_active(ido_id, now) {
        Err(ContractError::IdoNotActive)
    } else {
        let ido = s.spec_ido_opt(ido_id)->Some_0;
        let native = ido.payment_token_contract is None && ido.payment_token_hash is None;
        let amount_r: Result<u128, ContractError> = if native {
            match crate::utils::spec_sent_funds(funds, 0) {
                Err(e) => Err(e),
                Ok(f) => if f * ido.price > u128::MAX {
                    Err(ContractError::Arithmetic)
                } else {
                    Ok((f * ido.price) as u128)
                },
            }
        } else {
            Ok(amount_arg)
        };
        match amount_r {
            Err(e) => Err(e),
            Ok(amount) => {
                if amount == 0 {
                    Err(ContractError::ZeroAmount)
                } else {
                    let tier: u8 = if s.spec_in_whitelist(sender, ido_id) {
                        s.spec_tier_info(sender).tier
                    } else {
                        s.config.min_tier
                    };
                    let remaining = ido.spec_remaining_per_tier(tier);
                    if amount > remaining {
                        Err(ContractError::BuyLimitExceeded { remaining: remaining as u128 })
                    } else if ido.price == 0 {
                        Err(ContractError::Arithmetic)
                    } else {
                        let payment = amount / ido.price;
                        let lock = s.config.lock_periods@[tier - 1];
                        if ido.end_time + lock > u64::MAX {
                            Err(ContractError::Arithmetic)
                        } else {
                            let unlock = (ido.end_time + lock) as u64;
                            let sale_info = s.spec_sale_info(sender, ido_id);
                            let user_info = s.spec_user_info(sender);
                            if (sale_info.total_payment == 0 && ido.participants + 1 > u64::MAX)
                                || sale_info.total_payment + payment > u128::MAX
                                || sale_info.total_tokens_bought + amount > u128::MAX
                                || user_info.total_payment + payment > u128::MAX
                                || user_info.total_tokens_bought + amount > u128::MAX
                                || ido.sold_amount + amount > u128::MAX
                                || ido.total_payment + payment > u128::MAX {
                                Err(ContractError::Arithmetic)
                            } else {
                                Ok((amount, payment, tier, unlock))
                            }
                        }
                    }
                }
            },
        }
    }
}

/// How a purchase rewrites the sale record: one more participant when this
/// is the buyer's first payment in the sale, the amount moved from the
/// tier's pool into the sold total, and the payment added to the take.
pub open spec fn buy_updates_ido(
    o: Ido,
    n: Ido,
    ido_id: u32,
    amt: u128,
    payment: u128,
    tier: u8,
    first: bool,
) -> bool {
    &&& n.id == Some(ido_id)
    &&& n.admin == o.admin
    &&& n.start_time == o.start_time
    &&& n.end_time == o.end_time
    &&& n.token_contract == o.token_contract
    &&& n.token_contract_hash == o.token_contract_hash
    &&& n.payment_token_contract == o.payment_token_contract
    &&& n.payment_token_hash == o.payment_token_hash
    &&& n.price == o.price
    &&& n.participants == o.participants + (if first {
        1int
    } else {
        0int
    })
    &&& n.sold_amount == o.sold_amount + amt
    &&& n.remaining_tokens_per_tier@ == o.remaining_tokens_per_tier@.update(
        tier - 1,
        (o.remaining_tokens_per_tier@[tier - 1] - amt) as u128,
    )
    &&& n.total_tokens_amount == o.total_tokens_amount
    &&& n.soft_cap == o.soft_cap
    &&& n.total_payment == o.total_payment + payment
    &&& n.withdrawn == o.withdrawn
    &&& n.shared_whitelist == o.shared_whitelist
}

/// Buys into an active sale: charges the payment, appends a vesting-locked
/// purchase, and updates the buyer's and the sale's aggregates.  For a
/// native-payment sale the purchase amount is derived from the attached
/// funds; a token payment is collected by the emitted transfer.
pub fn buy_tokens(
    store: &mut Store,
    now: u64,
    contract_addr: &String,
    sender: &String,
    ido_id: u32,
    amount: u128,
    viewing_key: Option<String>,
    funds: &Vec<Coin>,
) -> (r: ExecuteResult)
    requires
        old(store).wf(),
        (ido_id as int) < old(store).idos@.len() ==> crate::state::ido_saleable(
            old(store).idos@[ido_id as int],
            old(store).config,
        ) && crate::state::ido_payment_consistent(old(store).idos@[ido_id as int]),
    ensures
        final(store).wf(),
        buy_tokens_rel(*old(store), *final(store), now, *contract_addr, *sender, ido_id, amount, funds@, r),
{
    let active = utils::assert_contract_active(store);
    if let Err(e) = active {
        return Err(e);
    }
    let loaded = Ido::load(store, ido_id);
    let mut ido = match loaded {
        Ok(i) => i,
        Err(e) => {
            return Err(e);
        },
    };
    if !ido.is_active(now) {
        return Err(ContractError::IdoNotActive);
    }
    proof {
        assert((ido_id as int) < store.idos@.len());
    }
    let native = ido.is_native_payment();
    let amount = if native {
        let sent = utils::sent_funds(funds);
        let f = match sent {
            Ok(f) => f,
            Err(e) => {
                return Err(e);
            },
        };
        match f.checked_mul(ido.price) {
            Some(a) => a,
            None => {
                return Err(ContractError::Arithmetic);
            },
        }
    } else {
        amount
    };
    if amount == 0 {
        return Err(ContractError::ZeroAmount);
    }
    let _ = viewing_key;
    let whitelisted = utils::in_whitelist(store, sender, ido_id);
    let tier: u8 = if whitelisted {
        let found = store.tier_user_infos.find(sender);
        match found {
            Some(i) => store.tier_user_infos.entries[i].val.tier,
            None => store.config.min_tier,
        }
    } else {
        store.config.min_tier
    };
    proof {
        assert(1 <= tier <= store.config.min_tier);
    }
    let remaining = ido.remaining_tokens_per_tier(tier);
    if amount > remaining {
        return Err(ContractError::BuyLimitExceeded { remaining });
    }
    let payment = match amount.checked_div(ido.price) {
        Some(p) => p,
        None => {
            return Err(ContractError::Arithmetic);
        },
    };
    let lock_period = store.config.lock_period(tier);
    let unlock_time = match ido.end_time.checked_add(lock_period) {
        Some(t) => t,
        None => {
            return Err(ContractError::Arithmetic);
        },
    };
    let purchase = Purchase { tokens_amount: amount, timestamp: now, unlock_time };
    let sale_info = {
        let found = store.ido_to_info.find(sender, ido_id);
        match found {
            Some(i) => store.ido_to_info.entries[i].val,
            None => UserInfo { total_payment: 0, total_tokens_bought: 0, total_tokens_received: 0 },
        }
    };
    let user_info = {
        let found = store.user_infos.find(sender);
        match found {
            Some(i) => store.user_infos.entries[i].val,
            None => UserInfo { total_payment: 0, total_tokens_bought: 0, total_tokens_received: 0 },
        }
    };
    let first = sale_info.total_payment == 0;
    let participants = if first {
        match ido.participants.checked_add(1) {
            Some(p) => p,
            None => {
                return Err(ContractError::Arithmetic);
            },
        }
    } else {
        ido.participants
    };
    let new_sale_payment = match sale_info.total_payment.checked_add(payment) {
        Some(v) => v,
        None => {
            return Err(ContractError::Arithmetic);
        },
    };
    let new_sale_bought = match sale_info.total_tokens_bought.checked_add(amount) {
        Some(v) => v,
        None => {
            return Err(ContractError::Arithmetic);
        },
    };
    let new_user_payment = match user_info.total_payment.checked_add(payment) {
        Some(v) => v,
        None => {
            return Err(ContractError::Arithmetic);
        },
    };
    let new_user_bought = match user_info.total_tokens_bought.checked_add(amount) {
        Some(v) => v,
        None => {
            return Err(ContractError::Arithmetic);
        },
    };
    let new_sold = match ido.sold_amount.checked_add(amount) {
        Some(v) => v,
        None => {
            return Err(ContractError::Arithmetic);
        },
    };
    let new_total_payment = match ido.total_payment.checked_add(payment) {
        Some(v) => v,
        None => {
            return Err(ContractError::Arithmetic);
        },
    };
    let tier_index = (tier - 1) as usize;
    let pool = ido.remaining_tokens_per_tier[tier_index];
    proof {
        assert(amount <= pool);
    }
    let new_pool = pool - amount;
    // all checks passed: stage the mutations
    let ghost pre = *store;
    let taken = store.purchases.take(sender, ido_id);
    let mut purchase_list = match taken {
        Some(v) => v,
        None => Vec::new(),
    };
    purchase_list.push(purchase);
    store.purchases.put(sender, ido_id, purchase_list);
    store.ido_to_info.put(
        sender,
        ido_id,
        UserInfo {
            total_payment: new_sale_payment,
            total_tokens_bought: new_sale_bought,
            total_tokens_received: sale_info.total_tokens_received,
        },
    );
    store.user_infos.put(
        sender,
        UserInfo {
            total_payment: new_user_payment,
            total_tokens_bought: new_user_bought,
            total_tokens_received: user_info.total_tokens_received,
        },
    );
    store.active_idos.put(sender, ido_id, true);
    ido.participants = participants;
    ido.sold_amount = new_sold;
    ido.total_payment = new_total_payment;
    ido.remaining_tokens_per_tier.set(tier_index, new_pool);
    let saved = ido.save(store);
    if let Err(e) = saved {
        proof {
            assert(false);
        }
        return Err(e);
    }
    proof {
        pre.lemma_tiers_wf_unchanged(*store);
    }
    let mut ops: Vec<LedgerOp> = Vec::new();
    if !native {
        let token_contract = match &ido.payment_token_contract {
            Some(c) => c.clone(),
            None => {
                proof {
                    assert(false);
                }
                String::new()
            },
        };
        ops.push(
            LedgerOp::TokenTransfer {
                token_contract,
                from: sender.clone(),
                to: contract_addr.clone(),
                amount: payment,
            },
        );
    }
    let resp = ExecuteResponse::BuyTokens {
        amount,
        unlock_time,
        status: ResponseStatus::Success,
    };
    Ok((resp, ops))
}

// ---------------------------------------------------------------------------
// vesting receipt and refund
// ---------------------------------------------------------------------------

/// `a - b`, stopping at zero.
pub open spec fn sat_sub(a: u128, b: u128) -> u128 {
    if a >= b {
        (a - b) as u128
    } else {
        0
    }
}

/// Whether a position was named explicitly by the caller.
pub open spec fn explicit_contains(ex: Seq<u32>, u: usize) -> bool {
    exists|k: int| 0 <= k < ex.len() && ex[k] as int == u as int
}

/// Whether the purchase at a position is released by this call: its unlock
/// time has passed, and it lies in the scanned window or was named
/// explicitly.
pub open spec fn recv_selected(
    ps: Seq<Purchase>,
    now: u64,
    start: int,
    endw: int,
    ex: Seq<u32>,
    u: usize,
) -> bool {
    let ui = u as int;
    let in_window = start <= ui && ui < endw;
    let vested = now >= ps[ui].unlock_time;
    vested && (in_window || explicit_contains(ex, u))
}

/// An explicitly named position is acceptable when it lies in the scanned
/// window (it is skipped there) or addresses a live purchase.
pub open spec fn explicit_index_ok(start: int, endw: int, n: int, x: u32) -> bool {
    let xi = x as int;
    (start <= xi && xi < endw) || xi < n
}

/// Selection state after the window scan and the first `kk` explicit
/// positions: released in the window, or named among those `kk` outside it.
pub open spec fn explicit_scanned(
    ps: Seq<Purchase>,
    now: u64,
    start: int,
    endw: int,
    ex: Seq<u32>,
    kk: int,
    u: usize,
) -> bool {
    let ui = u as int;
    let in_window = start <= ui && ui < endw;
    let vested = ui < ps.len() && now >= ps[ui].unlock_time;
    vested && (in_window || (exists|j: int|
        0 <= j < kk && ex[j] as int == ui && !in_window))
}

/// [`recv_selected`] as a predicate over positions.
pub open spec fn recv_pred(
    ps: Seq<Purchase>,
    now: u64,
    start: int,
    endw: int,
    ex: Seq<u32>,
) -> spec_fn(usize) -> bool {
    |u: usize| recv_selected(ps, now, start, endw, ex, u)
}

/// The positions a receipt removes: every released purchase, ascending and
/// deduplicated.
pub open spec fn recv_selection(
    ps: Seq<Purchase>,
    now: u64,
    start: int,
    endw: int,
    ex: Seq<u32>,
) -> Seq<usize> {
    asc_filter(ps.len(), recv_pred(ps, now, start, endw, ex))
}

/// The token amounts of the purchases at the selected positions.
pub open spec fn p_amounts(ps: Seq<Purchase>, sel: Seq<usize>) -> Seq<u128> {
    Seq::new(sel.len(), |k: int| ps[sel[k] as int].tokens_amount)
}

/// Whether a receipt call takes the failure-refund path: the sale is over
/// and missed its soft cap.
pub open spec fn recv_refund_mode(s: Store, ido_id: u32, now: u64) -> bool {
    match s.spec_ido_opt(ido_id) {
        Some(ido) => now > ido.end_time && ido.soft_cap > ido.sold_amount,
        None => false,
    }
}

/// Claims vested purchases, or refunds the payment when the sale failed.
///
/// In the refund path the buyer's sale-scoped aggregates reset to zero, the
/// global ones drop by the same amounts, and the full payment of the sale
/// comes back.  In the vesting path every released purchase in the window
/// `[start, start+limit)` — plus any explicitly named outside it — moves to
/// the archive, and their sum is sent to the buyer.
pub fn recv_tokens(
    store: &mut Store,
    now: u64,
    contract_addr: &String,
    sender: &String,
    ido_id: u32,
    start: Option<u32>,
    limit: Option<u32>,
    purchase_indices: Option<Vec<u32>>,
) -> (r: ExecuteResult)
    requires
        old(store).wf(),
        (ido_id as int) < old(store).idos@.len() ==> crate::state::ido_payment_consistent(
            old(store).idos@[ido_id as int],
        ),
        ({
            let start_i = (match start {
                Some(s) => s,
                None => 0u32,
            }) as int;
            let endw = start_i + (match limit {
                Some(l) => l,
                None => 300u32,
            }) as int;
            let ps = old(store).spec_purchases(sender@, ido_id);
            purchase_indices matches Some(v) ==> (endw <= u32::MAX ==> forall|k: int|
                0 <= k < v@.len() ==> explicit_index_ok(start_i, endw, ps.len() as int, v@[k]))
        }),
    ensures
        final(store).wf(),
        (({
            let start_i = (match start {
                Some(s) => s,
                None => 0u32,
            }) as int;
            let endw = start_i + (match limit {
                Some(l) => l,
                None => 300u32,
            }) as int;
            let ex = (match purchase_indices {
                Some(v) => v@,
                None => Seq::<u32>::empty(),
            });
            let ps = old(store).spec_purchases(sender@, ido_id);
            let sel = recv_selection(ps, now, start_i, endw, ex);
            let total = seq_sum(p_amounts(ps, sel));
            let sale_info = old(store).spec_sale_info(sender@, ido_id);
            let user_info = old(store).spec_user_info(sender@);
            if old(store).config.status != ContractStatus::Active.spec_code() {
                r matches Err(e) && e == ContractError::InactiveContract && *final(store) == *old(store)
            } else if recv_refund_mode(*old(store), ido_id, now) {
                let ido = old(store).spec_ido_opt(ido_id)->Some_0;
                let native = ido.payment_token_contract is None && ido.payment_token_hash is None;
                r matches Ok((resp, ops)) && {
                    &&& final(store).spec_sale_info(sender@, ido_id) == (UserInfo {
                        total_payment: 0,
                        total_tokens_bought: 0,
                        total_tokens_received: 0,
                    })
                    &&& forall|a: Seq<char>, id2: u32|
                        !(a == sender@ && id2 == ido_id) ==> final(store).ido_to_info.spec_get(
                            a,
                            id2,
                        ) == old(store).ido_to_info.spec_get(a, id2)
                    &&& final(store).spec_user_info(sender@) == (UserInfo {
                        total_payment: sat_sub(user_info.total_payment, sale_info.total_payment),
                        total_tokens_bought: sat_sub(
                            user_info.total_tokens_bought,
                            sale_info.total_tokens_bought,
                        ),
                        total_tokens_received: sat_sub(
                            user_info.total_tokens_received,
                            sale_info.total_tokens_received,
                        ),
                    })
                    &&& forall|a: Seq<char>|
                        a != sender@ ==> final(store).user_infos.spec_get(a) == old(store).user_infos.spec_get(a)
                    &&& final(store).active_idos.spec_get(sender@, ido_id) is None
                    &&& forall|a: Seq<char>, id2: u32|
                        !(a == sender@ && id2 == ido_id) ==> final(store).active_idos.spec_get(
                            a,
                            id2,
                        ) == old(store).active_idos.spec_get(a, id2)
                    &&& final(store).purchases == old(store).purchases
                    &&& final(store).archived_purchases == old(store).archived_purchases
                    &&& final(store).idos@ == old(store).idos@
                    &&& final(store).owner_to_idos == old(store).owner_to_idos
                    &&& final(store).whitelist == old(store).whitelist
                    &&& same_tier_state(*final(store), *old(store))
                    &&& final(store).config == old(store).config
                    &&& resp == (ExecuteResponse::RecvTokens {
                        amount: sale_info.total_payment,
                        status: ResponseStatus::Success,
                        ido_success: false,
                    })
                    &&& ops@ == if native {
                        seq![LedgerOp::BankSend { to: *sender, amount: sale_info.total_payment }]
                    } else {
                        seq![
                            LedgerOp::TokenTransfer {
                                token_contract: ido.payment_token_contract->0,
                                from: *contract_addr,
                                to: *sender,
                                amount: sale_info.total_payment,
                            },
                        ]
                    }
                }
            } else if purchase_indices is Some && endw > u32::MAX {
                r matches Err(e) && e == ContractError::Arithmetic && *final(store) == *old(store)
            } else if total > u128::MAX {
                r matches Err(e) && e == ContractError::Arithmetic && *final(store) == *old(store)
            } else if total == 0 {
                r matches Err(e) && e == ContractError::NothingToReceive && *final(store) == *old(store)
            } else if user_info.total_tokens_received + total > u128::MAX
                || sale_info.total_tokens_received + total > u128::MAX {
                r matches Err(e) && e == ContractError::Arithmetic && *final(store) == *old(store)
            } else {
                r matches Ok((resp, ops)) && {
                    &&& final(store).spec_purchases(sender@, ido_id) == remove_idxs(ps, sel)
                    &&& forall|a: Seq<char>, id2: u32|
                        !(a == sender@ && id2 == ido_id) ==> final(store).purchases.spec_get(
                            a,
                            id2,
                        ) == old(store).purchases.spec_get(a, id2)
                    &&& final(store).spec_archived(sender@, ido_id) == old(store).spec_archived(
                        sender@,
                        ido_id,
                    ) + picked(ps, sel)
                    &&& forall|a: Seq<char>, id2: u32|
                        !(a == sender@ && id2 == ido_id) ==> final(store).archived_purchases.spec_get(a, id2) == old(store).archived_purchases.spec_get(a, id2)
                    &&& final(store).spec_sale_info(sender@, ido_id) == (UserInfo {
                        total_payment: sale_info.total_payment,
                        total_tokens_bought: sale_info.total_tokens_bought,
                        total_tokens_received: (sale_info.total_tokens_received + total) as u128,
                    })
                    &&& forall|a: Seq<char>, id2: u32|
                        !(a == sender@ && id2 == ido_id) ==> final(store).ido_to_info.spec_get(
                            a,
                            id2,
                        ) == old(store).ido_to_info.spec_get(a, id2)
                    &&& final(store).spec_user_info(sender@) == (UserInfo {
                        total_payment: user_info.total_payment,
                        total_tokens_bought: user_info.total_tokens_bought,
                        total_tokens_received: (user_info.total_tokens_received + total) as u128,
                    })
                    &&& forall|a: Seq<char>|
                        a != sender@ ==> final(store).user_infos.spec_get(a) == old(store).user_infos.spec_get(a)
                    &&& if sale_info.total_tokens_bought == sale_info.total_tokens_received
                        + total {
                        final(store).active_idos.spec_get(sender@, ido_id) is None
                    } else {
                        final(store).active_idos.spec_get(sender@, ido_id) == old(store).active_idos.spec_get(sender@, ido_id)
                    }
                    &&& forall|a: Seq<char>, id2: u32|
                        !(a == sender@ && id2 == ido_id) ==> final(store).active_idos.spec_get(
                            a,
                            id2,
                        ) == old(store).active_idos.spec_get(a, id2)
                    &&& final(store).idos@ == old(store).idos@
                    &&& final(store).owner_to_idos == old(store).owner_to_idos
                    &&& final(store).whitelist == old(store).whitelist
                    &&& same_tier_state(*final(store), *old(store))
                    &&& final(store).config == old(store).config
                    &&& resp == (ExecuteResponse::RecvTokens {
                        amount: total as u128,
                        status: ResponseStatus::Success,
                        ido_success: true,
                    })
                    &&& ops@.len() == 1
                    &&& (ops@[0] matches LedgerOp::TokenTransfer {
                        token_contract: tc,
                        from: f,
                        to: t,
                        amount: am,
                    } && tc@ == (match old(store).spec_ido_opt(ido_id) {
                        Some(ido) => ido.token_contract@,
                        None => Seq::<char>::empty(),
                    }) && f == *contract_addr && t == *sender && am == total as u128)
                }
            }
        })),
{
    let active = utils::assert_contract_active(store);
    if let Err(e) = active {
        return Err(e);
    }
    // failure-refund path
    let refund_mode = if (ido_id as usize) < store.idos.len() {
        now > store.idos[ido_id as usize].end_time && store.idos[ido_id as usize].soft_cap
            > store.idos[ido_id as usize].sold_amount
    } else {
        false
    };
    if refund_mode {
        let sale_info = {
            let found = store.ido_to_info.find(sender, ido_id);
            match found {
                Some(i) => store.ido_to_info.entries[i].val,
                None => UserInfo {
                    total_payment: 0,
                    total_tokens_bought: 0,
                    total_tokens_received: 0,
                },
            }
        };
        let user_info = {
            let found = store.user_infos.find(sender);
            match found {
                Some(i) => store.user_infos.entries[i].val,
                None => UserInfo {
                    total_payment: 0,
                    total_tokens_bought: 0,
                    total_tokens_received: 0,
                },
            }
        };
        let new_user = UserInfo {
            total_payment: if user_info.total_payment >= sale_info.total_payment {
                user_info.total_payment - sale_info.total_payment
            } else {
                0
            },
            total_tokens_bought: if user_info.total_tokens_bought
                >= sale_info.total_tokens_bought {
                user_info.total_tokens_bought - sale_info.total_tokens_bought
            } else {
                0
            },
            total_tokens_received: if user_info.total_tokens_received
                >= sale_info.total_tokens_received {
                user_info.total_tokens_received - sale_info.total_tokens_received
            } else {
                0
            },
        };
        let ghost pre = *store;
        store.user_infos.put(sender, new_user);
        store.ido_to_info.put(
            sender,
            ido_id,
            UserInfo { total_payment: 0, total_tokens_bought: 0, total_tokens_received: 0 },
        );
        store.active_idos.remove(sender, ido_id);
        proof {
            pre.lemma_tiers_wf_unchanged(*store);
        }
        let refund = sale_info.total_payment;
        let native = store.idos[ido_id as usize].payment_token_contract.is_none()
            && store.idos[ido_id as usize].payment_token_hash.is_none();
        let mut ops: Vec<LedgerOp> = Vec::new();
        if native {
            ops.push(LedgerOp::BankSend { to: sender.clone(), amount: refund });
        } else {
            let token_contract = match &store.idos[ido_id as usize].payment_token_contract {
                Some(c) => c.clone(),
                None => {
                    proof {
                        assert(false);
                    }
                    String::new()
                },
            };
            ops.push(
                LedgerOp::TokenTransfer {
                    token_contract,
                    from: contract_addr.clone(),
                    to: sender.clone(),
                    amount: refund,
                },
            );
        }
        let resp = ExecuteResponse::RecvTokens {
            amount: refund,
            status: ResponseStatus::Success,
            ido_success: false,
        };
        return Ok((resp, ops));
    }
    // vesting path
    let start_w32: u32 = match start {
        Some(s) => s,
        None => 0,
    };
    let limit_w32: u32 = match limit {
        Some(l) => l,
        None => 300,
    };
    let start_w = start_w32 as usize;
    let limit_w = limit_w32 as usize;
    let ghost start_i = start_w as int;
    let ghost endw = start_i + limit_w as int;
    let ghost ex: Seq<u32> = (match &purchase_indices {
        Some(v) => v@,
        None => Seq::<u32>::empty(),
    });
    let ghost ps = store.spec_purchases(sender@, ido_id);
    let ghost pred = recv_pred(ps, now, start_i, endw, ex);
    let found = store.purchases.find(sender, ido_id);
    let plen = match found {
        Some(i) => store.purchases.entries[i].val.len(),
        None => 0,
    };
    let mut cand: Vec<usize> = Vec::new();
    let mut i = start_w;
    while i < plen && i - start_w < limit_w
        invariant
            *store == *old(store),
            old(store).wf(),
            old(store).config.status == ContractStatus::Active.spec_code(),
            ps == old(store).spec_purchases(sender@, ido_id),
            plen == ps.len(),
            !recv_refund_mode(*old(store), ido_id, now),
            start_i == (match start {
                Some(st) => st,
                None => 0u32,
            }) as int,
            endw == start_i + (match limit {
                Some(l) => l,
                None => 300u32,
            }) as int,
            ex == (match purchase_indices {
                Some(v) => v@,
                None => Seq::<u32>::empty(),
            }),
            match found {
                Some(w) => w < store.purchases.entries@.len()
                    && store.purchases.entries@[w as int].val@ == ps,
                None => plen == 0,
            },
            start_w <= i,
            (i as int) <= endw,
            start_i == start_w as int,
            endw == start_i + limit_w as int,
            i == start_w || (i as int) <= endw,
            forall|u: usize|
                cand@.contains(u) <==> (start_i <= u as int && (u as int) < i as int && (u as int) < ps.len()
                    && now >= ps[u as int].unlock_time),
        decreases plen - i,
    {
        let wi = match found {
            Some(w) => w,
            None => {
                proof {
                    assert(false);
                }
                0
            },
        };
        let p = store.purchases.entries[wi].val[i];
        proof {
            assert(p == ps[i as int]);
        }
        let ghost cand0 = cand@;
        if now >= p.unlock_time {
            cand.push(i);
            proof {
                assert forall|u: usize| cand@.contains(u) implies (start_i <= u as int && (u as int) < i as int
                    + 1 && (u as int) < ps.len() && now >= ps[u as int].unlock_time) by {
                    if u != i {
                        assert(cand0.contains(u)) by {
                            let w = choose|w: int| 0 <= w < cand@.len() && cand@[w] == u;
                            assert(cand0[w] == u);
                        };
                    }
                };
                assert forall|u: usize| (start_i <= u as int && (u as int) < i as int + 1 && (u as int) < ps.len()
                    && now >= ps[u as int].unlock_time) implies cand@.contains(u) by {
                    if (u as int) < i as int {
                        assert(cand0.contains(u));
                        let w = choose|w: int| 0 <= w < cand0.len() && cand0[w] == u;
                        assert(cand@[w] == u);
                    } else {
                        assert(cand@[cand@.len() - 1] == u);
                    }
                };
            }
        }
        i = i + 1;
    }
    let ghost window_hi = i as int;
    proof {
        assert forall|u: usize|
            cand@.contains(u) <==> (start_i <= u as int && (u as int) < endw && (u as int) < ps.len() && now
                >= ps[u as int].unlock_time) by {
            if i < plen {
                assert(i as int - start_i == limit_w as int);
            }
        };
    }
    let mut indices_src = cand;
    if let Some(ref explicit) = purchase_indices {
        let end32 = match start_w32.checked_add(limit_w32) {
            Some(e) => e,
            None => {
                return Err(ContractError::Arithmetic);
            },
        };
        let mut k: usize = 0;
        while k < explicit.len()
            invariant
                *store == *old(store),
                old(store).wf(),
                old(store).config.status == ContractStatus::Active.spec_code(),
                ps == old(store).spec_purchases(sender@, ido_id),
                plen == ps.len(),
                match found {
                    Some(w) => w < store.purchases.entries@.len()
                        && store.purchases.entries@[w as int].val@ == ps,
                    None => plen == 0,
                },
                0 <= k <= explicit@.len(),
                explicit@ == ex,
                !recv_refund_mode(*old(store), ido_id, now),
                start_i == (match start {
                    Some(st) => st,
                    None => 0u32,
                }) as int,
                purchase_indices is Some,
                ex == (match purchase_indices {
                    Some(v) => v@,
                    None => Seq::<u32>::empty(),
                }),
                start_i == start_w32 as int,
                endw == start_i + limit_w32 as int,
                end32 as int == endw,
                forall|j: int|
                    0 <= j < ex.len() ==> explicit_index_ok(start_i, endw, ps.len() as int, ex[j]),
                forall|u: usize|
                    indices_src@.contains(u) <==> explicit_scanned(
                        ps,
                        now,
                        start_i,
                        endw,
                        ex,
                        k as int,
                        u,
                    ),
            decreases explicit@.len() - k,
        {
            let idx32 = explicit[k];
            let ghost cand0 = indices_src@;
            if idx32 >= start_w32 && idx32 < end32 {
                // inside the scanned window: already considered
                proof {
                    assert forall|u: usize|
                        explicit_scanned(ps, now, start_i, endw, ex, k as int + 1, u)
                            implies explicit_scanned(ps, now, start_i, endw, ex, k as int, u) by {
                        let ui = u as int;
                        let in_window = start_i <= ui && ui < endw;
                        if !in_window {
                            let j = choose|j: int|
                                0 <= j < k as int + 1 && ex[j] as int == ui && !in_window;
                            assert(j < k as int);
                        }
                    };
                }
            } else {
                let idx = idx32 as usize;
                let wi = match found {
                    Some(w) => w,
                    None => {
                        proof {
                            assert(false);
                        }
                        0
                    },
                };
                let p = store.purchases.entries[wi].val[idx];
                proof {
                    assert(p == ps[idx as int]);
                }
                if now >= p.unlock_time {
                    indices_src.push(idx);
                    proof {
                        assert forall|u: usize| indices_src@.contains(u) implies (cand0.contains(u)
                            || u == idx) by {
                            let w = choose|w: int|
                                0 <= w < indices_src@.len() && indices_src@[w] == u;
                            if w < cand0.len() {
                                assert(cand0[w] == u);
                            }
                        };
                        assert forall|u: usize| cand0.contains(u) implies indices_src@.contains(
                            u,
                        ) by {
                            let w = choose|w: int| 0 <= w < cand0.len() && cand0[w] == u;
                            assert(indices_src@[w] == u);
                        };
                        assert(indices_src@[indices_src@.len() - 1] == idx);
                        assert forall|u: usize| indices_src@.contains(u) implies explicit_scanned(
                            ps,
                            now,
                            start_i,
                            endw,
                            ex,
                            k as int + 1,
                            u,
                        ) by {
                            if u == idx {
                                assert(ex[k as int] as int == u as int);
                            } else {
                                assert(cand0.contains(u));
                            }
                        };
                        assert forall|u: usize|
                            explicit_scanned(ps, now, start_i, endw, ex, k as int + 1, u)
                                implies indices_src@.contains(u) by {
                            let ui = u as int;
                            let in_window = start_i <= ui && ui < endw;
                            if in_window {
                                assert(explicit_scanned(ps, now, start_i, endw, ex, k as int, u));
                                assert(cand0.contains(u));
                            } else {
                                let j = choose|j: int|
                                    0 <= j < k as int + 1 && ex[j] as int == ui && !in_window;
                                if j == k as int {
                                    assert(u == idx);
                                } else {
                                    assert(explicit_scanned(
                                        ps,
                                        now,
                                        start_i,
                                        endw,
                                        ex,
                                        k as int,
                                        u,
                                    ));
                                    assert(cand0.contains(u));
                                }
                            }
                        };
                    }
                } else {
                    proof {
                        assert forall|u: usize|
                            explicit_scanned(ps, now, start_i, endw, ex, k as int + 1, u)
                                implies explicit_scanned(ps, now, start_i, endw, ex, k as int, u) by {
                            let ui = u as int;
                            let in_window = start_i <= ui && ui < endw;
                            if !in_window {
                                let j = choose|j: int|
                                    0 <= j < k as int + 1 && ex[j] as int == ui && !in_window;
                                if j == k as int {
                                    assert(ui == idx as int);
                                    assert(now >= ps[ui].unlock_time);
                                    assert(false);
                                }
                            }
                        };
                    }
                }
            }
            k = k + 1;
        }
    }
    let ghost sel = recv_selection(ps, now, start_i, endw, ex);
    proof {
        lemma_asc_filter_props(ps.len(), pred);
    }
    let sorted = crate::compact::sort_dedup(&indices_src);
    proof {
        assert(sorted@.to_set() =~= sel.to_set()) by {
            assert forall|u: usize| sorted@.to_set().contains(u) implies sel.to_set().contains(
                u,
            ) by {
                assert(indices_src@.contains(u));
                assert((u as int) < ps.len() && pred(u));
                assert(sel.contains(u));
            };
            assert forall|u: usize| sel.to_set().contains(u) implies sorted@.to_set().contains(
                u,
            ) by {
                assert(sel.contains(u));
                let w = choose|w: int| 0 <= w < sel.len() && sel[w] == u;
                assert(all_below(sel, ps.len() as int));
                assert(pred(sel[w]));
                assert((u as int) < ps.len() && pred(u));
                assert(indices_src@.contains(u));
            };
        };
        crate::compact::lemma_sorted_set_unique(sorted@, sel);
        assert(sorted@ == sel);
    }
    // sum the released amounts before touching the store
    let mut recv_amount: u128 = 0;
    let mut k: usize = 0;
    while k < sorted.len()
        invariant
            *store == *old(store),
            old(store).wf(),
            old(store).config.status == ContractStatus::Active.spec_code(),
            ps == old(store).spec_purchases(sender@, ido_id),
            plen == ps.len(),
            !recv_refund_mode(*old(store), ido_id, now),
            start_i == (match start {
                Some(st) => st,
                None => 0u32,
            }) as int,
            endw == start_i + (match limit {
                Some(l) => l,
                None => 300u32,
            }) as int,
            ex == (match purchase_indices {
                Some(v) => v@,
                None => Seq::<u32>::empty(),
            }),
            purchase_indices is Some ==> endw <= u32::MAX,
            match found {
                Some(w) => w < store.purchases.entries@.len()
                    && store.purchases.entries@[w as int].val@ == ps,
                None => plen == 0,
            },
            0 <= k <= sorted@.len(),
            sorted@ == sel,
            sel == recv_selection(ps, now, start_i, endw, ex),
            sorted_strict(sorted@),
            all_below(sorted@, ps.len() as int),
            recv_amount == seq_sum(p_amounts(ps, sorted@.take(k as int))),
        decreases sorted@.len() - k,
    {
        let idx = sorted[k];
        let wi = match found {
            Some(w) => w,
            None => {
                proof {
                    assert(false);
                }
                0
            },
        };
        let p = store.purchases.entries[wi].val[idx];
        proof {
            assert(p == ps[idx as int]);
            let t1 = sorted@.take(k as int + 1);
            assert(p_amounts(ps, t1).drop_last() =~= p_amounts(ps, sorted@.take(k as int)));
            assert(p_amounts(ps, t1).last() == ps[idx as int].tokens_amount);
        }
        match recv_amount.checked_add(p.tokens_amount) {
            Some(a) => {
                recv_amount = a;
            },
            None => {
                proof {
                    let t1 = sorted@.take(k as int + 1);
                    assert(seq_sum(p_amounts(ps, t1)) > u128::MAX);
                    assert(p_amounts(ps, sel).take(k as int + 1) =~= p_amounts(ps, t1));
                    lemma_seq_sum_bounds(p_amounts(ps, sel));
                    assert(seq_sum(p_amounts(ps, sel)) >= seq_sum(p_amounts(ps, t1)));
                }
                return Err(ContractError::Arithmetic);
            },
        }
        k = k + 1;
    }
    proof {
        assert(sorted@.take(sorted@.len() as int) =~= sorted@);
    }
    if recv_amount == 0 {
        return Err(ContractError::NothingToReceive);
    }
    let sale_info = {
        let found2 = store.ido_to_info.find(sender, ido_id);
        match found2 {
            Some(i2) => store.ido_to_info.entries[i2].val,
            None => UserInfo { total_payment: 0, total_tokens_bought: 0, total_tokens_received: 0 },
        }
    };
    let user_info = {
        let found2 = store.user_infos.find(sender);
        match found2 {
            Some(i2) => store.user_infos.entries[i2].val,
            None => UserInfo { total_payment: 0, total_tokens_bought: 0, total_tokens_received: 0 },
        }
    };
    let new_user_received = match user_info.total_tokens_received.checked_add(recv_amount) {
        Some(v) => v,
        None => {
            return Err(ContractError::Arithmetic);
        },
    };
    let new_sale_received = match sale_info.total_tokens_received.checked_add(recv_amount) {
        Some(v) => v,
        None => {
            return Err(ContractError::Arithmetic);
        },
    };
    // all checks passed: stage the mutations
    let ghost pre = *store;
    let taken = store.purchases.take(sender, ido_id);
    let mut purchase_list = match taken {
        Some(v) => v,
        None => {
            proof {
                assert(ps.len() == 0);
                assert(sel.len() == 0) by {
                    if sel.len() > 0 {
                        assert((sel[0] as int) < ps.len());
                    }
                };
                assert(p_amounts(ps, sel) =~= Seq::<u128>::empty());
                assert(false);
            }
            Vec::new()
        },
    };
    let removed = remove_sorted_indices(&mut purchase_list, &sorted);
    store.purchases.put(sender, ido_id, purchase_list);
    let taken_arch = store.archived_purchases.take(sender, ido_id);
    let mut archived = match taken_arch {
        Some(v) => v,
        None => Vec::new(),
    };
    let ghost arch0 = archived@;
    let mut k2: usize = 0;
    while k2 < removed.len()
        invariant
            0 <= k2 <= removed@.len(),
            archived@ == arch0 + removed@.take(k2 as int),
        decreases removed@.len() - k2,
    {
        archived.push(removed[k2]);
        proof {
            assert(arch0 + removed@.take(k2 as int + 1) =~= (arch0 + removed@.take(
                k2 as int,
            )).push(removed@[k2 as int]));
        }
        k2 = k2 + 1;
    }
    proof {
        assert(removed@.take(removed@.len() as int) =~= removed@);
    }
    store.archived_purchases.put(sender, ido_id, archived);
    store.ido_to_info.put(
        sender,
        ido_id,
        UserInfo {
            total_payment: sale_info.total_payment,
            total_tokens_bought: sale_info.total_tokens_bought,
            total_tokens_received: new_sale_received,
        },
    );
    store.user_infos.put(
        sender,
        UserInfo {
            total_payment: user_info.total_payment,
            total_tokens_bought: user_info.total_tokens_bought,
            total_tokens_received: new_user_received,
        },
    );
    if sale_info.total_tokens_bought == new_sale_received {
        store.active_idos.remove(sender, ido_id);
    }
    proof {
        pre.lemma_tiers_wf_unchanged(*store);
    }
    let token_contract = if (ido_id as usize) < store.idos.len() {
        store.idos[ido_id as usize].token_contract.clone()
    } else {
        String::new()
    };
    let mut ops: Vec<LedgerOp> = Vec::new();
    ops.push(
        LedgerOp::TokenTransfer {
            token_contract,
            from: contract_addr.clone(),
            to: sender.clone(),
            amount: recv_amount,
        },
    );
    let resp = ExecuteResponse::RecvTokens {
        amount: recv_amount,
        status: ResponseStatus::Success,
        ido_success: true,
    };
    Ok((resp, ops))
}

// ---------------------------------------------------------------------------
// tier deposit
// ---------------------------------------------------------------------------

/// What a deposit call does, step by step: the new tier record, the native
/// refund, and the net amount to delegate — or the error that aborts it.
///
/// A deposit converts the attached native funds to USD and adds them to the
/// depositor's running total.  If that does not reach a better tier, the
/// call fails, naming the exact shortfall; otherwise the excess above the
/// new tier's threshold is refunded and the net native amount is staked.
pub open spec fn deposit_outcome(
    s: Store,
    now: u64,
    sender: Seq<char>,
    funds: Seq<Coin>,
    band: BandProtocol,
) -> Result<(TierUserInfo, u128, u128), ContractError> {
    if s.config.status != ContractStatus::Active.spec_code() {
        Err(ContractError::InactiveContract)
    } else {
        match crate::utils::spec_received_funds(funds) {
            Err(e) => Err(e),
            Ok(coin) => {
                let orai_dep = coin.amount;
                if orai_dep * band.rate() > u128::MAX {
                    Err(ContractError::Arithmetic)
                } else {
                    let usd_dep = band.spec_usd_amount(orai_dep);
                    let info = s.spec_tier_info(sender);
                    if info.usd_deposit + usd_dep > u128::MAX {
                        Err(ContractError::Arithmetic)
                    } else {
                        let new_usd = (info.usd_deposit + usd_dep) as u128;
                        let new_tier = s.config.spec_tier_by_deposit(new_usd);
                        if new_tier == info.tier as int {
                            if info.tier == 1 {
                                Err(ContractError::MaxTierReached)
                            } else {
                                let next_deposit = s.config.usd_deposits@[info.tier - 2];
                                let expected_usd = next_deposit - info.usd_deposit;
                                if expected_usd * (crate::band::ONE_USD as int) > u128::MAX
                                    || band.rate() == 0 {
                                    Err(ContractError::Arithmetic)
                                } else {
                                    Err(
                                        ContractError::InsufficientDeposit {
                                            usd: expected_usd as u128,
                                            orai: band.spec_orai_amount(expected_usd as u128)
                                                as u128,
                                        },
                                    )
                                }
                            }
                        } else {
                            let new_tier_deposit = s.config.usd_deposits@[new_tier - 1];
                            let usd_refund = new_usd - new_tier_deposit;
                            if usd_refund * (crate::band::ONE_USD as int) > u128::MAX
                                || band.rate() == 0 {
                                Err(ContractError::Arithmetic)
                            } else {
                                let orai_refund = band.spec_orai_amount(usd_refund as u128);
                                if orai_refund > orai_dep {
                                    Err(ContractError::Arithmetic)
                                } else {
                                    let net = (orai_dep - orai_refund) as u128;
                                    if info.orai_deposit + net > u128::MAX {
                                        Err(ContractError::Arithmetic)
                                    } else {
                                        Ok(
                                            (
                                                TierUserInfo {
                                                    tier: new_tier as u8,
                                                    timestamp: now,
                                                    usd_deposit: new_tier_deposit,
                                                    orai_deposit: (info.orai_deposit + net) as u128,
                                                },
                                                orai_refund as u128,
                                                net,
                                            ),
                                        )
                                    }
                                }
                            }
                        }
                    }
                }
            },
        }
    }
}

/// Accumulates a native deposit on the tier ladder: converts it to USD,
/// promotes the depositor when a better tier's threshold is reached,
/// refunds the excess above the exact threshold, and delegates the net
/// native amount to the configured validator.
pub fn try_deposit(
    store: &mut Store,
    now: u64,
    sender: &String,
    funds: &Vec<Coin>,
    band: &BandProtocol,
) -> (r: ExecuteResult)
    requires
        old(store).wf(),
    ensures
        final(store).wf(),
        try_deposit_rel(*old(store), *final(store), now, *sender, funds@, *band, r),
{
    let active = utils::assert_contract_active(store);
    if let Err(e) = active {
        return Err(e);
    }
    let received = utils::get_received_funds(funds);
    let coin = match received {
        Ok(c) => c,
        Err(e) => {
            return Err(e);
        },
    };
    let orai_deposit = coin.amount;
    let usd_deposit = match band.checked_usd_amount(orai_deposit) {
        Some(v) => v,
        None => {
            return Err(ContractError::Arithmetic);
        },
    };
    let found = store.tier_user_infos.find(sender);
    let info = match found {
        Some(i) => store.tier_user_infos.entries[i].val,
        None => TierUserInfo {
            tier: store.config.min_tier,
            timestamp: 0,
            usd_deposit: 0,
            orai_deposit: 0,
        },
    };
    let current_tier = info.tier;
    let old_usd_deposit = info.usd_deposit;
    let new_usd_deposit = match old_usd_deposit.checked_add(usd_deposit) {
        Some(v) => v,
        None => {
            return Err(ContractError::Arithmetic);
        },
    };
    let new_tier = store.config.tier_by_deposit(new_usd_deposit);
    proof {
        crate::state::lemma_first_le_inv(store.config.usd_deposits@, new_usd_deposit);
    }
    if current_tier == new_tier {
        if current_tier == store.config.max_tier() {
            return Err(ContractError::MaxTierReached);
        }
        let next_tier = current_tier - 1;
        let next_tier_deposit = store.config.deposit_by_tier(next_tier);
        proof {
            assert(next_tier_deposit > new_usd_deposit);
        }
        let expected_deposit_usd = next_tier_deposit - old_usd_deposit;
        let expected_deposit_orai = match band.checked_orai_amount(expected_deposit_usd) {
            Some(v) => v,
            None => {
                return Err(ContractError::Arithmetic);
            },
        };
        return Err(
            ContractError::InsufficientDeposit {
                usd: expected_deposit_usd,
                orai: expected_deposit_orai,
            },
        );
    }
    proof {
        // the stored record sits exactly at its tier threshold, so more
        // deposit can only improve the tier
        if current_tier < store.config.min_tier {
            assert(store.config.usd_deposits@[current_tier - 1] <= new_usd_deposit);
            crate::state::lemma_first_le_inv(store.config.usd_deposits@, new_usd_deposit);
            assert((new_tier as int) <= current_tier as int) by {
                if new_tier as int > current_tier as int {
                    assert(store.config.usd_deposits@[current_tier - 1] > new_usd_deposit);
                }
            };
        }
        assert(new_tier < current_tier);
        assert(((new_tier - 1) as int) < store.config.usd_deposits@.len());
    }
    let new_tier_deposit = store.config.deposit_by_tier(new_tier);
    proof {
        assert(new_tier_deposit <= new_usd_deposit);
    }
    let usd_refund = new_usd_deposit - new_tier_deposit;
    let orai_refund = match band.checked_orai_amount(usd_refund) {
        Some(v) => v,
        None => {
            return Err(ContractError::Arithmetic);
        },
    };
    let net_orai = if orai_refund != 0 {
        match orai_deposit.checked_sub(orai_refund) {
            Some(v) => v,
            None => {
                return Err(ContractError::Arithmetic);
            },
        }
    } else {
        orai_deposit
    };
    let new_orai_total = match info.orai_deposit.checked_add(net_orai) {
        Some(v) => v,
        None => {
            return Err(ContractError::Arithmetic);
        },
    };
    let new_info = TierUserInfo {
        tier: new_tier,
        timestamp: now,
        usd_deposit: new_tier_deposit,
        orai_deposit: new_orai_total,
    };
    let ghost pre = *store;
    store.tier_user_infos.put(sender, new_info);
    proof {
        pre.lemma_tiers_wf_update(*store, sender@, new_info);
    }
    let mut ops: Vec<LedgerOp> = Vec::new();
    if orai_refund != 0 {
        ops.push(LedgerOp::BankSend { to: sender.clone(), amount: orai_refund });
    }
    ops.push(
        LedgerOp::Delegate { validator: store.config.validator.clone(), amount: net_orai },
    );
    let resp = ExecuteResponse::Deposit {
        usd_deposit: new_info.usd_deposit,
        orai_deposit: new_info.orai_deposit,
        tier: new_tier,
        status: ResponseStatus::Success,
    };
    Ok((resp, ops))
}

// ---------------------------------------------------------------------------
// tier withdrawal and claim
// ---------------------------------------------------------------------------

/// Leaves the tier ladder: deletes the depositor's tier record, queues the
/// whole native deposit for unbonding, and undelegates it (minus the fixed
/// buffer) from the configured validator.
pub fn withdraw_from_tier(store: &mut Store, now: u64, sender: &String) -> (r: ExecuteResult)
    requires
        old(store).wf(),
    ensures
        final(store).wf(),
        withdraw_from_tier_rel(*old(store), *final(store), now, *sender, r),
{
    let active = utils::assert_contract_active(store);
    if let Err(e) = active {
        return Err(e);
    }
    let found = store.tier_user_infos.find(sender);
    let info = match found {
        Some(i) => store.tier_user_infos.entries[i].val,
        None => TierUserInfo {
            tier: store.config.min_tier,
            timestamp: 0,
            usd_deposit: 0,
            orai_deposit: 0,
        },
    };
    let amount = info.orai_deposit;
    let claim_time = match now.checked_add(UNBOUND_LATENCY) {
        Some(t) => t,
        None => {
            return Err(ContractError::Arithmetic);
        },
    };
    let undelegated = match amount.checked_sub(UNDELEGATE_BUFFER) {
        Some(a) => a,
        None => {
            return Err(ContractError::Arithmetic);
        },
    };
    let ghost pre = *store;
    store.tier_user_infos.remove(sender);
    let withdrawal = UserWithdrawal { amount, claim_time, timestamp: now };
    let taken = store.withdrawals.take(sender);
    let mut ws = match taken {
        Some(v) => v,
        None => Vec::new(),
    };
    ws.push(withdrawal);
    store.withdrawals.put(sender, ws);
    proof {
        pre.lemma_tiers_wf_update(
            *store,
            sender@,
            TierUserInfo {
                tier: store.config.min_tier,
                timestamp: 0,
                usd_deposit: 0,
                orai_deposit: 0,
            },
        );
    }
    let validator = store.config.validator.clone();
    let mut ops: Vec<LedgerOp> = Vec::new();
    ops.push(LedgerOp::Undelegate { validator, amount: undelegated });
    Ok((ExecuteResponse::WithdrawFromTier { status: ResponseStatus::Success }, ops))
}

/// Whether the withdrawal at a position falls in the claim window and has
/// matured.
pub open spec fn claim_pred(ws: Seq<UserWithdrawal>, now: u64, start: int, endw: int) -> spec_fn(
    usize,
) -> bool {
    |u: usize| start <= u < endw && now >= ws[u as int].claim_time
}

/// The amounts of the withdrawals at the selected positions.
pub open spec fn wd_amounts(ws: Seq<UserWithdrawal>, sel: Seq<usize>) -> Seq<u128> {
    Seq::new(sel.len(), |k: int| ws[sel[k] as int].amount)
}

/// The positions a claim over `[start, endw)` removes: every matured
/// withdrawal in the window, ascending.
pub open spec fn claim_selection(ws: Seq<UserWithdrawal>, now: u64, start: int, endw: int) -> Seq<
    usize,
> {
    asc_filter(ws.len(), claim_pred(ws, now, start, endw))
}

/// Pays out the matured withdrawals in the claimed window: sums them,
/// removes them by compaction, and sends the total to the recipient
/// (the caller when none is named).
pub fn try_claim(
    store: &mut Store,
    now: u64,
    sender: &String,
    recipient: Option<String>,
    start: Option<u32>,
    limit: Option<u32>,
) -> (r: ExecuteResult)
    requires
        old(store).wf(),
    ensures
        final(store).wf(),
        try_claim_rel(*old(store), *final(store), now, *sender, recipient, start, limit, r),
{
    let active = utils::assert_contract_active(store);
    if let Err(e) = active {
        return Err(e);
    }
    let ghost ws = store.spec_withdrawals(sender@);
    let found = store.withdrawals.find(sender);
    let wlen = match found {
        Some(i) => store.withdrawals.entries[i].val.len(),
        None => 0,
    };
    if wlen == 0 {
        return Err(ContractError::NothingToClaim);
    }
    let wi = match found {
        Some(i) => i,
        None => {
            proof {
                assert(false);
            }
            return Err(ContractError::NothingToClaim);
        },
    };
    let start_w: usize = match start {
        Some(s) => s as usize,
        None => 0,
    };
    let limit_w: usize = match limit {
        Some(l) => l as usize,
        None => 50,
    };
    let ghost start_i = start_w as int;
    let ghost endw = start_i + limit_w as int;
    let ghost pred = claim_pred(ws, now, start_i, endw);
    let end_c: usize = if start_w <= wlen && limit_w <= wlen - start_w {
        start_w + limit_w
    } else {
        wlen
    };
    let ghost pre = *store;
    let mut indices: Vec<usize> = Vec::new();
    let mut claim_amount: u128 = 0;
    let mut i = start_w;
    proof {
        lemma_asc_filter_empty(start_w as nat, pred);
    }
    while i < end_c
        invariant
            *store == *old(store),
            old(store).wf(),
            old(store).config.status == ContractStatus::Active.spec_code(),
            ws == old(store).spec_withdrawals(sender@),
            0 < wlen,
            start_w <= i,
            i <= end_c || i == start_w,
            end_c <= wlen,
            endw == start_i + limit_w as int,
            start_i == start_w as int,
            start_i == (match start {
                Some(s) => s,
                None => 0u32,
            }) as int,
            limit_w as int == (match limit {
                Some(l) => l,
                None => 50u32,
            }) as int,
            end_c as int == if endw <= wlen as int {
                endw
            } else {
                wlen as int
            },
            pred == claim_pred(ws, now, start_i, endw),
            wi < store.withdrawals.entries@.len(),
            store.withdrawals.entries@[wi as int].key@ == sender@,
            store.withdrawals.entries@[wi as int].val@ == ws,
            wlen == ws.len(),
            indices@ == asc_filter(i as nat, pred),
            claim_amount == seq_sum(wd_amounts(ws, indices@)),
        decreases end_c - i,
    {
        let w = store.withdrawals.entries[wi].val[i];
        proof {
            assert(w == ws[i as int]);
        }
        if now >= w.claim_time {
            proof {
                assert(pred(i));
                assert(asc_filter(i as nat + 1, pred) == indices@.push(i));
            }
            match claim_amount.checked_add(w.amount) {
                Some(a) => {
                    proof {
                        let s1 = indices@.push(i);
                        assert(wd_amounts(ws, s1).drop_last() =~= wd_amounts(ws, indices@));
                        assert(wd_amounts(ws, s1).last() == ws[i as int].amount);
                    }
                    claim_amount = a;
                },
                None => {
                    proof {
                        let s1 = indices@.push(i);
                        assert(wd_amounts(ws, s1).drop_last() =~= wd_amounts(ws, indices@));
                        assert(wd_amounts(ws, s1).last() == ws[i as int].amount);
                        assert(seq_sum(wd_amounts(ws, s1)) > u128::MAX);
                        let full = claim_selection(ws, now, start_i, endw);
                        lemma_asc_filter_prefix(i as nat + 1, ws.len(), pred);
                        assert(asc_filter(i as nat + 1, pred).is_prefix_of(full));
                        let pl = s1.len() as int;
                        assert(wd_amounts(ws, full).take(pl) =~= wd_amounts(ws, s1));
                        lemma_seq_sum_bounds(wd_amounts(ws, full));
                        assert(seq_sum(wd_amounts(ws, full)) >= seq_sum(wd_amounts(ws, s1)));
                    }
                    return Err(ContractError::Arithmetic);
                },
            }
            indices.push(i);
        } else {
            proof {
                assert(!pred(i));
                assert(asc_filter(i as nat + 1, pred) == indices@);
            }
        }
        i = i + 1;
    }
    proof {
        if wlen <= start_w {
            lemma_asc_filter_empty(wlen as nat, pred);
            assert(indices@ == asc_filter(wlen as nat, pred));
        } else {
            assert(i == end_c);
            if end_c < wlen {
                assert forall|u: usize| end_c <= u < wlen implies !#[trigger] pred(u) by {
                    assert(endw <= end_c as int);
                };
                lemma_asc_filter_tail(end_c as nat, wlen as nat, pred);
            }
            assert(indices@ == asc_filter(wlen as nat, pred));
        }
        assert(indices@ == claim_selection(ws, now, start_i, endw));
    }
    if claim_amount == 0 {
        return Err(ContractError::NothingToClaim);
    }
    let taken = store.withdrawals.take(sender);
    let mut wsv = match taken {
        Some(v) => v,
        None => {
            proof {
                assert(false);
            }
            Vec::new()
        },
    };
    proof {
        lemma_asc_filter_props(ws.len(), pred);
    }
    let _removed = remove_sorted_indices(&mut wsv, &indices);
    store.withdrawals.put(sender, wsv);
    proof {
        pre.lemma_tiers_wf_unchanged(*store);
    }
    let to = match recipient {
        Some(rc) => rc,
        None => sender.clone(),
    };
    let mut ops: Vec<LedgerOp> = Vec::new();
    ops.push(LedgerOp::BankSend { to, amount: claim_amount });
    Ok((ExecuteResponse::Claim { amount: claim_amount, status: ResponseStatus::Success }, ops))
}

/// Full contract relation of [`change_admin`]: how the new store and the result
/// follow from the old store and the arguments.
pub open spec fn change_admin_rel(s0: Store, s1: Store, sender: String, admin: String, r: ExecuteResult) -> bool {
    &&& (match r {
            Ok((resp, ops)) => {
                &&& s0.config.admin@ == sender@
                &&& s1 == (Store {
                    config: Config { admin: admin, ..s0.config },
                    ..s0
                })
                &&& resp == (ExecuteResponse::ChangeAdmin { status: ResponseStatus::Success })
                &&& ops@ =~= Seq::<LedgerOp>::empty()
            },
            Err(e) => {
                &&& s0.config.admin@ != sender@
                &&& e == ContractError::Unauthorized
                &&& s1 == s0
            },
        })
}

/// Full contract relation of [`change_status`]: how the new store and the result
/// follow from the old store and the arguments.
pub open spec fn change_status_rel(s0: Store, s1: Store, sender: String, status: ContractStatus, r: ExecuteResult) -> bool {
    &&& (match r {
            Ok((resp, ops)) => {
                &&& s0.config.admin@ == sender@
                &&& s1 == (Store {
                    config: Config { status: status.spec_code(), ..s0.config },
                    ..s0
                })
                &&& resp == (ExecuteResponse::ChangeStatus { status: ResponseStatus::Success })
                &&& ops@ =~= Seq::<LedgerOp>::empty()
            },
            Err(e) => {
                &&& s0.config.admin@ != sender@
                &&& e == ContractError::Unauthorized
                &&& s1 == s0
            },
        })
}

/// Full contract relation of [`try_withdraw_rewards`]: how the new store and the result
/// follow from the old store and the arguments.
pub open spec fn try_withdraw_rewards_rel(s0: Store, s1: Store, sender: String, delegation: DelegationQuery, r: ExecuteResult) -> bool {
    &&& (s1 == s0)
    &&& (match r {
            Ok((resp, ops)) => {
                &&& s0.config.admin@ == sender@
                &&& spec_rewards_of(delegation) > 0
                &&& resp == (ExecuteResponse::WithdrawRewards {
                    amount: spec_rewards_of(delegation),
                    status: ResponseStatus::Success,
                })
                &&& ops@ =~= seq![
                    LedgerOp::WithdrawDelegatorReward { validator: s0.config.validator },
                ]
            },
            Err(e) => {
                if s0.config.admin@ != sender@ {
                    e == ContractError::Unauthorized
                } else {
                    e == ContractError::NothingToWithdraw && spec_rewards_of(delegation) == 0
                }
            },
        })
}

/// Full contract relation of [`try_redelegate`]: how the new store and the result
/// follow from the old store and the arguments.
pub open spec fn try_redelegate_rel(s0: Store, s1: Store, sender: String, validator_address: String, delegation: DelegationQuery, r: ExecuteResult) -> bool {
    &&& (match r {
            Ok((resp, ops)) => {
                &&& s0.config.admin@ == sender@
                &&& validator_address@ != s0.config.validator@
                &&& s1 == (Store {
                    config: Config { validator: s1.config.validator, ..s0.config },
                    ..s0
                })
                &&& s1.config.validator@ == validator_address@
                &&& match delegation {
                    DelegationQuery::Failed => {
                        &&& resp == (ExecuteResponse::Redelegate {
                            amount: 0,
                            status: ResponseStatus::Success,
                        })
                        &&& ops@ =~= Seq::<LedgerOp>::empty()
                    },
                    DelegationQuery::Found(del) => {
                        &&& del.can_redelegate == del.amount
                        &&& resp == (ExecuteResponse::Redelegate {
                            amount: del.can_redelegate,
                            status: ResponseStatus::Success,
                        })
                        &&& ops@ =~= if del.accumulated_rewards != 0 {
                            seq![
                                LedgerOp::WithdrawDelegatorReward {
                                    validator: s0.config.validator,
                                },
                                LedgerOp::Redelegate {
                                    src_validator: s0.config.validator,
                                    dst_validator: s1.config.validator,
                                    amount: del.can_redelegate,
                                },
                            ]
                        } else {
                            seq![
                                LedgerOp::Redelegate {
                                    src_validator: s0.config.validator,
                                    dst_validator: s1.config.validator,
                                    amount: del.can_redelegate,
                                },
                            ]
                        }
                    },
                    DelegationQuery::Missing => false,
                }
            },
            Err(e) => {
                &&& s1 == s0
                &&& if s0.config.admin@ != sender@ {
                    e == ContractError::Unauthorized
                } else if validator_address@ == s0.config.validator@ {
                    e == ContractError::RedelegateToSameValidator
                } else {
                    &&& delegation matches DelegationQuery::Found(del)
                    &&& del.can_redelegate != del.amount
                    &&& e == ContractError::CannotRedelegateFullAmount
                }
            },
        })
}

/// Full contract relation of [`whitelist_add`]: how the new store and the result
/// follow from the old store and the arguments.
pub open spec fn whitelist_add_rel(s0: Store, s1: Store, sender: String, addresses: Seq<String>, ido_id: u32, r: ExecuteResult) -> bool {
    &&& (match r {
            Ok((resp, ops)) => {
                &&& s0.config.status == ContractStatus::Active.spec_code()
                &&& crate::utils::spec_ido_admin(s0, ido_id) == sender@
                &&& same_except_whitelist(s1, s0)
                &&& forall|a: Seq<char>, id2: u32|
                    id2 != ido_id ==> s1.whitelist.spec_get(a, id2) == s0.whitelist.spec_get(a, id2)
                &&& forall|a: Seq<char>|
                    contains_addr(addresses, a) ==> s1.whitelist.spec_get(a, ido_id)
                        == Some(true)
                &&& forall|a: Seq<char>|
                    !contains_addr(addresses, a) ==> s1.whitelist.spec_get(a, ido_id)
                        == s0.whitelist.spec_get(a, ido_id)
                &&& resp == (ExecuteResponse::WhitelistAdd { status: ResponseStatus::Success })
                &&& ops@ =~= Seq::<LedgerOp>::empty()
            },
            Err(e) => {
                &&& s1 == s0
                &&& if s0.config.status != ContractStatus::Active.spec_code() {
                    e == ContractError::InactiveContract
                } else {
                    &&& crate::utils::spec_ido_admin(s0, ido_id) != sender@
                    &&& e == ContractError::Unauthorized
                }
            },
        })
}

/// Full contract relation of [`whitelist_remove`]: how the new store and the result
/// follow from the old store and the arguments.
pub open spec fn whitelist_remove_rel(s0: Store, s1: Store, sender: String, addresses: Seq<String>, ido_id: u32, r: ExecuteResult) -> bool {
    &&& (match r {
            Ok((resp, ops)) => {
                &&& s0.config.status == ContractStatus::Active.spec_code()
                &&& crate::utils::spec_ido_admin(s0, ido_id) == sender@
                &&& same_except_whitelist(s1, s0)
                &&& forall|a: Seq<char>, id2: u32|
                    id2 != ido_id ==> s1.whitelist.spec_get(a, id2) == s0.whitelist.spec_get(a, id2)
                &&& forall|a: Seq<char>|
                    contains_addr(addresses, a) ==> s1.whitelist.spec_get(a, ido_id)
                        == Some(false)
                &&& forall|a: Seq<char>|
                    !contains_addr(addresses, a) ==> s1.whitelist.spec_get(a, ido_id)
                        == s0.whitelist.spec_get(a, ido_id)
                &&& resp == (ExecuteResponse::WhitelistRemove { status: ResponseStatus::Success })
                &&& ops@ =~= Seq::<LedgerOp>::empty()
            },
            Err(e) => {
                &&& s1 == s0
                &&& if s0.config.status != ContractStatus::Active.spec_code() {
                    e == ContractError::InactiveContract
                } else {
                    &&& crate::utils::spec_ido_admin(s0, ido_id) != sender@
                    &&& e == ContractError::Unauthorized
                }
            },
        })
}

/// Full contract relation of [`try_deposit`]: how the new store and the result
/// follow from the old store and the arguments.
pub open spec fn try_deposit_rel(s0: Store, s1: Store, now: u64, sender: String, funds: Seq<Coin>, band: BandProtocol, r: ExecuteResult) -> bool {
    &&& (match r {
            Ok((resp, ops)) => {
                &&& deposit_outcome(s0, now, sender@, funds, band) matches Ok(
                    (ninfo, refund, net),
                ) && {
                    &&& s1.tier_user_infos.spec_get(sender@) == Some(ninfo)
                    &&& forall|a: Seq<char>|
                        a != sender@ ==> s1.tier_user_infos.spec_get(a) == s0.tier_user_infos.spec_get(a)
                    &&& s1.withdrawals == s0.withdrawals
                    &&& same_ido_state(s1, s0)
                    &&& s1.config == s0.config
                    &&& resp == (ExecuteResponse::Deposit {
                        usd_deposit: ninfo.usd_deposit,
                        orai_deposit: ninfo.orai_deposit,
                        tier: ninfo.tier,
                        status: ResponseStatus::Success,
                    })
                    &&& ops@ =~= if refund != 0 {
                        seq![
                            LedgerOp::BankSend { to: sender, amount: refund },
                            LedgerOp::Delegate {
                                validator: s0.config.validator,
                                amount: net,
                            },
                        ]
                    } else {
                        seq![
                            LedgerOp::Delegate {
                                validator: s0.config.validator,
                                amount: net,
                            },
                        ]
                    }
                }
            },
            Err(e) => {
                &&& s1 == s0
                &&& deposit_outcome(s0, now, sender@, funds, band) == Err::<
                    (TierUserInfo, u128, u128),
                    ContractError,
                >(e)
            },
        })
}

/// Full contract relation of [`withdraw_from_tier`]: how the new store and the result
/// follow from the old store and the arguments.
pub open spec fn withdraw_from_tier_rel(s0: Store, s1: Store, now: u64, sender: String, r: ExecuteResult) -> bool {
    &&& (match r {
            Ok((resp, ops)) => {
                let info = s0.spec_tier_info(sender@);
                &&& s0.config.status == ContractStatus::Active.spec_code()
                &&& now + UNBOUND_LATENCY <= u64::MAX
                &&& info.orai_deposit >= UNDELEGATE_BUFFER
                &&& s1.tier_user_infos.spec_get(sender@) is None
                &&& forall|a: Seq<char>|
                    a != sender@ ==> s1.tier_user_infos.spec_get(a) == s0.tier_user_infos.spec_get(a)
                &&& s1.spec_withdrawals(sender@) =~= s0.spec_withdrawals(
                    sender@,
                ).push(
                    UserWithdrawal {
                        amount: info.orai_deposit,
                        claim_time: (now + UNBOUND_LATENCY) as u64,
                        timestamp: now,
                    },
                )
                &&& forall|a: Seq<char>|
                    a != sender@ ==> s1.withdrawals.spec_get(a) == s0.withdrawals.spec_get(a)
                &&& same_ido_state(s1, s0)
                &&& s1.config == s0.config
                &&& ops@ =~= seq![
                    LedgerOp::Undelegate {
                        validator: s0.config.validator,
                        amount: (info.orai_deposit - UNDELEGATE_BUFFER) as u128,
                    },
                ]
                &&& resp == (ExecuteResponse::WithdrawFromTier { status: ResponseStatus::Success })
            },
            Err(e) => {
                let info = s0.spec_tier_info(sender@);
                &&& s1 == s0
                &&& if s0.config.status != ContractStatus::Active.spec_code() {
                    e == ContractError::InactiveContract
                } else if now + UNBOUND_LATENCY > u64::MAX {
                    e == ContractError::Arithmetic
                } else {
                    info.orai_deposit < UNDELEGATE_BUFFER && e == ContractError::Arithmetic
                }
            },
        })
}

/// Full contract relation of [`try_claim`]: how the new store and the result
/// follow from the old store and the arguments.
pub open spec fn try_claim_rel(s0: Store, s1: Store, now: u64, sender: String, recipient: Option<String>, start: Option<u32>, limit: Option<u32>, r: ExecuteResult) -> bool {
    &&& (({
            let ws = s0.spec_withdrawals(sender@);
            let start_i = (match start {
                Some(s) => s,
                None => 0u32,
            }) as int;
            let endw = start_i + (match limit {
                Some(l) => l,
                None => 50u32,
            }) as int;
            let sel = claim_selection(ws, now, start_i, endw);
            let total = seq_sum(wd_amounts(ws, sel));
            match r {
                Ok((resp, ops)) => {
                    &&& s0.config.status == ContractStatus::Active.spec_code()
                    &&& ws.len() > 0
                    &&& 0 < total <= u128::MAX
                    &&& s1.spec_withdrawals(sender@) =~= remove_idxs(ws, sel)
                    &&& forall|a: Seq<char>|
                        a != sender@ ==> s1.withdrawals.spec_get(a) == s0.withdrawals.spec_get(a)
                    &&& s1.tier_user_infos == s0.tier_user_infos
                    &&& same_ido_state(s1, s0)
                    &&& s1.config == s0.config
                    &&& resp == (ExecuteResponse::Claim {
                        amount: total as u128,
                        status: ResponseStatus::Success,
                    })
                    &&& ops@ =~= seq![
                        LedgerOp::BankSend {
                            to: match recipient {
                                Some(rc) => rc,
                                None => sender,
                            },
                            amount: total as u128,
                        },
                    ]
                },
                Err(e) => {
                    &&& s1 == s0
                    &&& if s0.config.status != ContractStatus::Active.spec_code() {
                        e == ContractError::InactiveContract
                    } else if ws.len() == 0 {
                        e == ContractError::NothingToClaim
                    } else if total > u128::MAX {
                        e == ContractError::Arithmetic
                    } else {
                        total == 0 && e == ContractError::NothingToClaim
                    }
                },
            }
        }))
}

/// Full contract relation of [`withdraw`]: how the new store and the result
/// follow from the old store and the arguments.
pub open spec fn withdraw_rel(s0: Store, s1: Store, now: u64, contract_addr: String, sender: String, ido_id: u32, r: ExecuteResult) -> bool {
    &&& (match r {
            Ok((resp, ops)) => {
                let ido = s0.spec_ido_opt(ido_id)->Some_0;
                let remaining = if ido.soft_cap > ido.sold_amount {
                    ido.total_tokens_amount
                } else {
                    (ido.total_tokens_amount - ido.sold_amount) as u128
                };
                let payment = ido.sold_amount / ido.price;
                &&& withdraw_err(s0, now, sender@, ido_id) is None
                &&& s0.spec_ido_opt(ido_id) is Some
                &&& s1.idos@.len() == s0.idos@.len()
                &&& crate::state::ido_eqv(
                    s1.idos@[ido_id as int],
                    Ido { id: Some(ido_id), withdrawn: true, ..ido },
                )
                &&& forall|j: int|
                    0 <= j < s0.idos@.len() && j != ido_id as int ==> s1.idos@[j] == s0.idos@[j]
                &&& s1.purchases == s0.purchases
                &&& s1.archived_purchases == s0.archived_purchases
                &&& s1.active_idos == s0.active_idos
                &&& s1.ido_to_info == s0.ido_to_info
                &&& s1.owner_to_idos == s0.owner_to_idos
                &&& s1.whitelist == s0.whitelist
                &&& s1.user_infos == s0.user_infos
                &&& same_tier_state(s1, s0)
                &&& s1.config == s0.config
                &&& ops@ =~= withdraw_ops(ido, contract_addr, sender, remaining, payment)
                &&& resp == (ExecuteResponse::Withdraw {
                    ido_amount: remaining,
                    payment_amount: payment,
                    status: ResponseStatus::Success,
                })
            },
            Err(e) => {
                &&& s1 == s0
                &&& withdraw_err(s0, now, sender@, ido_id) == Some(e)
            },
        })
}

/// Full contract relation of [`buy_tokens`]: how the new store and the result
/// follow from the old store and the arguments.
pub open spec fn buy_tokens_rel(s0: Store, s1: Store, now: u64, contract_addr: String, sender: String, ido_id: u32, amount: u128, funds: Seq<Coin>, r: ExecuteResult) -> bool {
    &&& (match r {
            Ok((resp, ops)) => {
                &&& buy_outcome(s0, now, sender@, funds, ido_id, amount) matches Ok(
                    (amt, payment, tier, unlock),
                ) && {
                    let ido = s0.spec_ido_opt(ido_id)->Some_0;
                    let native = ido.payment_token_contract is None && ido.payment_token_hash
                        is None;
                    let purchase = Purchase {
                        tokens_amount: amt,
                        timestamp: now,
                        unlock_time: unlock,
                    };
                    let sale_info = s0.spec_sale_info(sender@, ido_id);
                    let user_info = s0.spec_user_info(sender@);
                    &&& s1.spec_purchases(sender@, ido_id) =~= s0.spec_purchases(
                        sender@,
                        ido_id,
                    ).push(purchase)
                    &&& forall|a: Seq<char>, id2: u32|
                        !(a == sender@ && id2 == ido_id) ==> s1.purchases.spec_get(
                            a,
                            id2,
                        ) == s0.purchases.spec_get(a, id2)
                    &&& s1.spec_sale_info(sender@, ido_id) == (UserInfo {
                        total_payment: (sale_info.total_payment + payment) as u128,
                        total_tokens_bought: (sale_info.total_tokens_bought + amt) as u128,
                        total_tokens_received: sale_info.total_tokens_received,
                    })
                    &&& forall|a: Seq<char>, id2: u32|
                        !(a == sender@ && id2 == ido_id) ==> s1.ido_to_info.spec_get(
                            a,
                            id2,
                        ) == s0.ido_to_info.spec_get(a, id2)
                    &&& s1.spec_user_info(sender@) == (UserInfo {
                        total_payment: (user_info.total_payment + payment) as u128,
                        total_tokens_bought: (user_info.total_tokens_bought + amt) as u128,
                        total_tokens_received: user_info.total_tokens_received,
                    })
                    &&& forall|a: Seq<char>|
                        a != sender@ ==> s1.user_infos.spec_get(a) == s0.user_infos.spec_get(a)
                    &&& s1.active_idos.spec_get(sender@, ido_id) == Some(true)
                    &&& forall|a: Seq<char>, id2: u32|
                        !(a == sender@ && id2 == ido_id) ==> s1.active_idos.spec_get(
                            a,
                            id2,
                        ) == s0.active_idos.spec_get(a, id2)
                    &&& s1.idos@.len() == s0.idos@.len()
                    &&& buy_updates_ido(
                        ido,
                        s1.idos@[ido_id as int],
                        ido_id,
                        amt,
                        payment,
                        tier,
                        sale_info.total_payment == 0,
                    )
                    &&& forall|j: int|
                        0 <= j < s0.idos@.len() && j != ido_id as int ==> s1.idos@[j] == s0.idos@[j]
                    &&& s1.archived_purchases == s0.archived_purchases
                    &&& s1.owner_to_idos == s0.owner_to_idos
                    &&& s1.whitelist == s0.whitelist
                    &&& same_tier_state(s1, s0)
                    &&& s1.config == s0.config
                    &&& ops@ =~= if native {
                        Seq::<LedgerOp>::empty()
                    } else {
                        seq![
                            LedgerOp::TokenTransfer {
                                token_contract: ido.payment_token_contract->0,
                                from: sender,
                                to: contract_addr,
                                amount: payment,
                            },
                        ]
                    }
                    &&& resp == (ExecuteResponse::BuyTokens {
                        amount: amt,
                        unlock_time: unlock,
                        status: ResponseStatus::Success,
                    })
                }
            },
            Err(e) => {
                &&& s1 == s0
                &&& buy_outcome(s0, now, sender@, funds, ido_id, amount) == Err::<
                    (u128, u128, u8, u64),
                    ContractError,
                >(e)
            },
        })
}

/// Full contract relation of [`recv_tokens`]: how the new store and the result
/// follow from the old store and the arguments.
pub open spec fn recv_tokens_rel(s0: Store, s1: Store, now: u64, contract_addr: String, sender: String, ido_id: u32, start: Option<u32>, limit: Option<u32>, purchase_indices: Option<Vec<u32>>, r: ExecuteResult) -> bool {
    &&& (({
            let start_i = (match start {
                Some(s) => s,
                None => 0u32,
            }) as int;
            let endw = start_i + (match limit {
                Some(l) => l,
                None => 300u32,
            }) as int;
            let ex = (match purchase_indices {
                Some(v) => v@,
                None => Seq::<u32>::empty(),
            });
            let ps = s0.spec_purchases(sender@, ido_id);
            let sel = recv_selection(ps, now, start_i, endw, ex);
            let total = seq_sum(p_amounts(ps, sel));
            let sale_info = s0.spec_sale_info(sender@, ido_id);
            let user_info = s0.spec_user_info(sender@);
            if s0.config.status != ContractStatus::Active.spec_code() {
                r matches Err(e) && e == ContractError::InactiveContract && s1 == s0
            } else if recv_refund_mode(s0, ido_id, now) {
                let ido = s0.spec_ido_opt(ido_id)->Some_0;
                let native = ido.payment_token_contract is None && ido.payment_token_hash is None;
                r matches Ok((resp, ops)) && {
                    &&& s1.spec_sale_info(sender@, ido_id) == (UserInfo {
                        total_payment: 0,
                        total_tokens_bought: 0,
                        total_tokens_received: 0,
                    })
                    &&& forall|a: Seq<char>, id2: u32|
                        !(a == sender@ && id2 == ido_id) ==> s1.ido_to_info.spec_get(
                            a,
                            id2,
                        ) == s0.ido_to_info.spec_get(a, id2)
                    &&& s1.spec_user_info(sender@) == (UserInfo {
                        total_payment: sat_sub(user_info.total_payment, sale_info.total_payment),
                        total_tokens_bought: sat_sub(
                            user_info.total_tokens_bought,
                            sale_info.total_tokens_bought,
                        ),
                        total_tokens_received: sat_sub(
                            user_info.total_tokens_received,
                            sale_info.total_tokens_received,
                        ),
                    })
                    &&& forall|a: Seq<char>|
                        a != sender@ ==> s1.user_infos.spec_get(a) == s0.user_infos.spec_get(a)
                    &&& s1.active_idos.spec_get(sender@, ido_id) is None
                    &&& forall|a: Seq<char>, id2: u32|
                        !(a == sender@ && id2 == ido_id) ==> s1.active_idos.spec_get(
                            a,
                            id2,
                        ) == s0.active_idos.spec_get(a, id2)
                    &&& s1.purchases == s0.purchases
                    &&& s1.archived_purchases == s0.archived_purchases
                    &&& s1.idos@ == s0.idos@
                    &&& s1.owner_to_idos == s0.owner_to_idos
                    &&& s1.whitelist == s0.whitelist
                    &&& same_tier_state(s1, s0)
                    &&& s1.config == s0.config
                    &&& resp == (ExecuteResponse::RecvTokens {
                        amount: sale_info.total_payment,
                        status: ResponseStatus::Success,
                        ido_success: false,
                    })
                    &&& ops@ =~= if native {
                        seq![LedgerOp::BankSend { to: sender, amount: sale_info.total_payment }]
                    } else {
                        seq![
                            LedgerOp::TokenTransfer {
                                token_contract: ido.payment_token_contract->0,
                                from: contract_addr,
                                to: sender,
                                amount: sale_info.total_payment,
                            },
                        ]
                    }
                }
            } else if purchase_indices is Some && endw > u32::MAX {
                r matches Err(e) && e == ContractError::Arithmetic && s1 == s0
            } else if total > u128::MAX {
                r matches Err(e) && e == ContractError::Arithmetic && s1 == s0
            } else if total == 0 {
                r matches Err(e) && e == ContractError::NothingToReceive && s1 == s0
            } else if user_info.total_tokens_received + total > u128::MAX
                || sale_info.total_tokens_received + total > u128::MAX {
                r matches Err(e) && e == ContractError::Arithmetic && s1 == s0
            } else {
                r matches Ok((resp, ops)) && {
                    &&& s1.spec_purchases(sender@, ido_id) =~= remove_idxs(ps, sel)
                    &&& forall|a: Seq<char>, id2: u32|
                        !(a == sender@ && id2 == ido_id) ==> s1.purchases.spec_get(
                            a,
                            id2,
                        ) == s0.purchases.spec_get(a, id2)
                    &&& s1.spec_archived(sender@, ido_id) =~= s0.spec_archived(
                        sender@,
                        ido_id,
                    ) + picked(ps, sel)
                    &&& forall|a: Seq<char>, id2: u32|
                        !(a == sender@ && id2 == ido_id) ==> s1.archived_purchases.spec_get(a, id2) == s0.archived_purchases.spec_get(a, id2)
                    &&& s1.spec_sale_info(sender@, ido_id) == (UserInfo {
                        total_payment: sale_info.total_payment,
                        total_tokens_bought: sale_info.total_tokens_bought,
                        total_tokens_received: (sale_info.total_tokens_received + total) as u128,
                    })
                    &&& forall|a: Seq<char>, id2: u32|
                        !(a == sender@ && id2 == ido_id) ==> s1.ido_to_info.spec_get(
                            a,
                            id2,
                        ) == s0.ido_to_info.spec_get(a, id2)
                    &&& s1.spec_user_info(sender@) == (UserInfo {
                        total_payment: user_info.total_payment,
                        total_tokens_bought: user_info.total_tokens_bought,
                        total_tokens_received: (user_info.total_tokens_received + total) as u128,
                    })
                    &&& forall|a: Seq<char>|
                        a != sender@ ==> s1.user_infos.spec_get(a) == s0.user_infos.spec_get(a)
                    &&& if sale_info.total_tokens_bought == sale_info.total_tokens_received
                        + total {
                        s1.active_idos.spec_get(sender@, ido_id) is None
                    } else {
                        s1.active_idos.spec_get(sender@, ido_id) == s0.active_idos.spec_get(sender@, ido_id)
                    }
                    &&& forall|a: Seq<char>, id2: u32|
                        !(a == sender@ && id2 == ido_id) ==> s1.active_idos.spec_get(
                            a,
                            id2,
                        ) == s0.active_idos.spec_get(a, id2)
                    &&& s1.idos@ == s0.idos@
                    &&& s1.owner_to_idos == s0.owner_to_idos
                    &&& s1.whitelist == s0.whitelist
                    &&& same_tier_state(s1, s0)
                    &&& s1.config == s0.config
                    &&& resp == (ExecuteResponse::RecvTokens {
                        amount: total as u128,
                        status: ResponseStatus::Success,
                        ido_success: true,
                    })
                    &&& ops@.len() == 1
                    &&& (ops@[0] matches LedgerOp::TokenTransfer {
                        token_contract: tc,
                        from: f,
                        to: t,
                        amount: am,
                    } && tc@ == (match s0.spec_ido_opt(ido_id) {
                        Some(ido) => ido.token_contract@,
                        None => Seq::<char>::empty(),
                    }) && f == contract_addr && t == sender && am == total as u128)
                }
            }
        }))
}

// ---------------------------------------------------------------------------
// instantiation
// ---------------------------------------------------------------------------

/// The first check instantiation fails, if any: the tier threshold table
/// must be non-empty, fit the tier numbering, descend strictly, and be
/// matched by one lock period per tier.
pub open spec fn instantiate_err(deposits: Seq<u128>, lock_len: int) -> Option<ContractError> {
    if deposits.len() == 0 {
        Some(ContractError::EmptyDeposits)
    } else if deposits.len() + 1 > u8::MAX as int {
        Some(ContractError::TooManyDeposits)
    } else if !(forall|i: int| 0 < i < deposits.len() ==> deposits[i - 1] > #[trigger] deposits[i]) {
        Some(ContractError::DepositsNotDescending)
    } else if lock_len != deposits.len() + 1 {
        Some(ContractError::WrongLockPeriodsLength { expected: (deposits.len() + 1) as u8 })
    } else {
        None
    }
}

/// A strictly descending chain descends between any two positions.
proof fn lemma_descending_chain(s: Seq<u128>, i: int, j: int)
    requires
        forall|k: int| 0 < k < s.len() ==> s[k - 1] > #[trigger] s[k],
        0 <= i < j < s.len(),
    ensures
        s[i] > s[j],
    decreases j - i,
{
    if j > i + 1 {
        lemma_descending_chain(s, i, j - 1);
    }
}

/// Creates the contract's store: an active configuration with the given
/// admin (the caller when none is named), tier ladder and lock periods, and
/// no sales, purchases, deposits or withdrawals.
#[verifier::rlimit(50)]
pub fn instantiate(sender: &String, msg: InstantiateMsg) -> (r: Result<Store, ContractError>)
    ensures
        match r {
            Ok(s) => {
                &&& instantiate_err(msg.deposits@, msg.lock_periods@.len() as int) is None
                &&& s.wf()
                &&& s.config.admin == (match msg.admin {
                    Some(a) => a,
                    None => *sender,
                })
                &&& s.config.status == ContractStatus::Active.spec_code()
                &&& s.config.nft_contract == msg.nft_contract
                &&& s.config.lock_periods@ == msg.lock_periods@
                &&& s.config.min_tier as int == msg.deposits@.len() + 1
                &&& s.config.validator == msg.validator
                &&& s.config.usd_deposits@ == msg.deposits@
                &&& s.config.oraiswap_contract == msg.oraiswap_contract
                &&& s.idos@ =~= Seq::<Ido>::empty()
                &&& forall|a: Seq<char>, id: u32| s.purchases.spec_get(a, id) is None
                &&& forall|a: Seq<char>, id: u32| s.archived_purchases.spec_get(a, id) is None
                &&& forall|a: Seq<char>, id: u32| s.active_idos.spec_get(a, id) is None
                &&& forall|a: Seq<char>, id: u32| s.ido_to_info.spec_get(a, id) is None
                &&& forall|a: Seq<char>, id: u32| s.whitelist.spec_get(a, id) is None
                &&& forall|a: Seq<char>| s.owner_to_idos.spec_get(a) is None
                &&& forall|a: Seq<char>| s.user_infos.spec_get(a) is None
                &&& forall|a: Seq<char>| s.tier_user_infos.spec_get(a) is None
                &&& forall|a: Seq<char>| s.withdrawals.spec_get(a) is None
            },
            Err(e) => instantiate_err(msg.deposits@, msg.lock_periods@.len() as int) == Some(e),
        },
{
    if msg.deposits.len() == 0 {
        return Err(ContractError::EmptyDeposits);
    }
    if msg.deposits.len() >= u8::MAX as usize {
        return Err(ContractError::TooManyDeposits);
    }
    let mut i: usize = 1;
    while i < msg.deposits.len()
        invariant
            1 <= i <= msg.deposits@.len(),
            forall|k: int| 0 < k < i ==> msg.deposits@[k - 1] > #[trigger] msg.deposits@[k],
            msg.deposits@.len() >= 1,
            msg.deposits@.len() + 1 <= u8::MAX as int,
        decreases msg.deposits@.len() - i,
    {
        if msg.deposits[i - 1] <= msg.deposits[i] {
            return Err(ContractError::DepositsNotDescending);
        }
        i = i + 1;
    }
    let min_tier = (msg.deposits.len() + 1) as u8;
    if msg.lock_periods.len() != min_tier as usize {
        return Err(ContractError::WrongLockPeriodsLength { expected: min_tier });
    }
    let admin = match msg.admin {
        Some(a) => a,
        None => sender.clone(),
    };
    let config = Config {
        admin,
        status: ContractStatus::Active.code(),
        nft_contract: msg.nft_contract,
        lock_periods: msg.lock_periods,
        min_tier,
        validator: msg.validator,
        usd_deposits: msg.deposits,
        oraiswap_contract: msg.oraiswap_contract,
    };
    let store = Store {
        config,
        idos: Vec::new(),
        purchases: crate::store::SaleMap::new(),
        archived_purchases: crate::store::SaleMap::new(),
        active_idos: crate::store::SaleMap::new(),
        ido_to_info: crate::store::SaleMap::new(),
        owner_to_idos: crate::store::AddrMap::new(),
        whitelist: crate::store::SaleMap::new(),
        user_infos: crate::store::AddrMap::new(),
        tier_user_infos: crate::store::AddrMap::new(),
        withdrawals: crate::store::AddrMap::new(),
    };
    proof {
        assert forall|a: int, b: int|
            0 <= a < b < store.config.usd_deposits@.len() implies store.config.usd_deposits@[a]
            > store.config.usd_deposits@[b] by {
            lemma_descending_chain(store.config.usd_deposits@, a, b);
        };
        assert(store.config.wf());
        assert forall|a: Seq<char>|
            {
                let t = #[trigger] store.spec_tier_info(a);
                &&& 1 <= t.tier <= store.config.min_tier
                &&& t.tier < store.config.min_tier ==> t.usd_deposit
                    == store.config.usd_deposits@[t.tier - 1]
                &&& t.tier == store.config.min_tier ==> t.usd_deposit == 0
            } by {
            assert(store.tier_user_infos.spec_get(a) is None);
        };
    }
    Ok(store)
}

// ---------------------------------------------------------------------------
// dispatch
// ---------------------------------------------------------------------------

/// Contract relation of a sale creation stated over the incoming message
/// fields, as the dispatcher sees them.
pub open spec fn start_ido_msg_rel(
    s0: Store,
    s1: Store,
    now: u64,
    contract_addr: String,
    sender: String,
    start_time: u64,
    end_time: u64,
    token_contract: String,
    price: u128,
    soft_cap: u128,
    payment: PaymentMethod,
    total_amount: u128,
    tokens_per_tier: Seq<u128>,
    whitelist: Whitelist,
    r: ExecuteResult,
) -> bool {
    let err = start_ido_err_fields(
        s0,
        now,
        sender@,
        tokens_per_tier,
        start_time,
        end_time,
        price,
        soft_cap,
        total_amount,
    );
    match r {
        Ok((resp, ops)) => {
            let n = s0.idos@.len();
            let new_id = n as u32;
            let last = s1.idos@.last();
            &&& err is None
            &&& s1.idos@.len() == n + 1
            &&& last.id == Some(new_id)
            &&& last.admin == sender
            &&& last.start_time == start_time
            &&& last.end_time == end_time
            &&& last.token_contract == token_contract
            &&& last.token_contract_hash@ == Seq::<char>::empty()
            &&& (match payment {
                PaymentMethod::Native => last.payment_token_contract is None
                    && last.payment_token_hash is None,
                PaymentMethod::Token { contract, code_hash } => last.payment_token_contract
                    == Some(contract) && last.payment_token_hash == Some(code_hash),
            })
            &&& last.price == price
            &&& last.participants == 0
            &&& last.sold_amount == 0
            &&& last.remaining_tokens_per_tier@ == tokens_per_tier
            &&& last.total_tokens_amount == total_amount
            &&& last.soft_cap == soft_cap
            &&& last.total_payment == 0
            &&& !last.withdrawn
            &&& last.shared_whitelist == !whitelist_flag(whitelist)
            &&& forall|j: int| 0 <= j < n ==> s1.idos@[j] == s0.idos@[j]
            &&& forall|a: Seq<char>, id2: u32|
                id2 != new_id ==> s1.whitelist.spec_get(a, id2) == s0.whitelist.spec_get(a, id2)
            &&& forall|a: Seq<char>|
                contains_addr(whitelist_addrs(whitelist), a) ==> s1.whitelist.spec_get(a, new_id)
                    == Some(whitelist_flag(whitelist))
            &&& forall|a: Seq<char>|
                !contains_addr(whitelist_addrs(whitelist), a) ==> s1.whitelist.spec_get(a, new_id)
                    == s0.whitelist.spec_get(a, new_id)
            &&& s1.spec_owner_idos(sender@) =~= s0.spec_owner_idos(sender@).push(new_id)
            &&& forall|a: Seq<char>|
                a != sender@ ==> s1.owner_to_idos.spec_get(a) == s0.owner_to_idos.spec_get(a)
            &&& s1.purchases == s0.purchases
            &&& s1.archived_purchases == s0.archived_purchases
            &&& s1.active_idos == s0.active_idos
            &&& s1.ido_to_info == s0.ido_to_info
            &&& s1.user_infos == s0.user_infos
            &&& same_tier_state(s1, s0)
            &&& s1.config == s0.config
            &&& ops@ =~= seq![
                LedgerOp::TokenTransfer {
                    token_contract: token_contract,
                    from: sender,
                    to: contract_addr,
                    amount: total_amount,
                },
            ]
            &&& resp == (ExecuteResponse::StartIdo { ido_id: new_id, status: ResponseStatus::Success })
        },
        Err(e) => {
            &&& s1 == s0
            &&& err == Some(e)
        },
    }
}

/// Routes one incoming command to its handler.  The oracle and the
/// delegation query result are consulted only by the deposit and the
/// delegation-maintenance commands; the other commands ignore them.  The
/// sender must be a non-empty address, as the host guarantees.
pub fn execute(
    store: &mut Store,
    now: u64,
    contract_addr: &String,
    sender: &String,
    funds: &Vec<Coin>,
    msg: ExecuteMsg,
    band: &BandProtocol,
    delegation: &DelegationQuery,
) -> (r: ExecuteResult)
    requires
        old(store).wf(),
        sender@.len() > 0,
        msg matches ExecuteMsg::BuyTokens { ido_id, .. } ==> ((ido_id as int) < old(
            store,
        ).idos@.len() ==> crate::state::ido_saleable(old(store).idos@[ido_id as int], old(store).config)
            && crate::state::ido_payment_consistent(old(store).idos@[ido_id as int])),
        msg matches ExecuteMsg::RecvTokens { ido_id, .. } ==> ((ido_id as int) < old(
            store,
        ).idos@.len() ==> crate::state::ido_payment_consistent(old(store).idos@[ido_id as int])),
        msg matches ExecuteMsg::Withdraw { ido_id, .. } ==> ((ido_id as int) < old(
            store,
        ).idos@.len() ==> crate::state::ido_payment_consistent(old(store).idos@[ido_id as int])),
        msg matches ExecuteMsg::RecvTokens { ido_id, start, limit, purchase_indices, .. } ==> ({
            let start_i = (match start {
                Some(s) => s,
                None => 0u32,
            }) as int;
            let endw = start_i + (match limit {
                Some(l) => l,
                None => 300u32,
            }) as int;
            let ps = old(store).spec_purchases(sender@, ido_id);
            purchase_indices matches Some(v) ==> (endw <= u32::MAX ==> forall|k: int|
                0 <= k < v@.len() ==> explicit_index_ok(start_i, endw, ps.len() as int, v@[k]))
        }),
        msg is WithdrawRewards ==> (delegation is Missing ==> old(store).config.admin@ != sender@),
        msg matches ExecuteMsg::Redelegate { validator_address, .. } ==> (delegation is Missing
            ==> old(store).config.admin@ != sender@ || validator_address@ == old(
            store,
        ).config.validator@),
    ensures
        final(store).wf(),
        match msg {
            ExecuteMsg::ChangeAdmin { admin, .. } => change_admin_rel(
                *old(store),
                *final(store),
                *sender,
                admin,
                r,
            ),
            ExecuteMsg::ChangeStatus { status, .. } => change_status_rel(
                *old(store),
                *final(store),
                *sender,
                status,
                r,
            ),
            ExecuteMsg::StartIdo {
                start_time,
                end_time,
                token_contract,
                price,
                soft_cap,
                payment,
                total_amount,
                tokens_per_tier,
                whitelist,
                ..
            } => start_ido_msg_rel(
                *old(store),
                *final(store),
                now,
                *contract_addr,
                *sender,
                start_time,
                end_time,
                token_contract,
                price,
                soft_cap,
                payment,
                total_amount,
                tokens_per_tier@,
                whitelist,
                r,
            ),
            ExecuteMsg::WhitelistAdd { addresses, ido_id, .. } => whitelist_add_rel(
                *old(store),
                *final(store),
                *sender,
                addresses@,
                ido_id,
                r,
            ),
            ExecuteMsg::WhitelistRemove { addresses, ido_id, .. } => whitelist_remove_rel(
                *old(store),
                *final(store),
                *sender,
                addresses@,
                ido_id,
                r,
            ),
            ExecuteMsg::BuyTokens { ido_id, amount, .. } => buy_tokens_rel(
                *old(store),
                *final(store),
                now,
                *contract_addr,
                *sender,
                ido_id,
                amount,
                funds@,
                r,
            ),
            ExecuteMsg::RecvTokens { ido_id, start, limit, purchase_indices, .. } => recv_tokens_rel(
                *old(store),
                *final(store),
                now,
                *contract_addr,
                *sender,
                ido_id,
                start,
                limit,
                purchase_indices,
                r,
            ),
            ExecuteMsg::Withdraw { ido_id, .. } => withdraw_rel(
                *old(store),
                *final(store),
                now,
                *contract_addr,
                *sender,
                ido_id,
                r,
            ),
            ExecuteMsg::Deposit { .. } => try_deposit_rel(
                *old(store),
                *final(store),
                now,
                *sender,
                funds@,
                *band,
                r,
            ),
            ExecuteMsg::WithdrawFromTier { .. } => withdraw_from_tier_rel(
                *old(store),
                *final(store),
                now,
                *sender,
                r,
            ),
            ExecuteMsg::Claim { recipient, start, limit, .. } => try_claim_rel(
                *old(store),
                *final(store),
                now,
                *sender,
                recipient,
                start,
                limit,
                r,
            ),
            ExecuteMsg::WithdrawRewards { recipient, .. } => try_withdraw_rewards_rel(
                *old(store),
                *final(store),
                *sender,
                *delegation,
                r,
            ),
            ExecuteMsg::Redelegate { validator_address, recipient, .. } => try_redelegate_rel(
                *old(store),
                *final(store),
                *sender,
                validator_address,
                *delegation,
                r,
            ),
        },
{
    match msg {
        ExecuteMsg::ChangeAdmin { admin, .. } => change_admin(store, sender, admin),
        ExecuteMsg::ChangeStatus { status, .. } => change_status(store, sender, status),
        ExecuteMsg::StartIdo {
            start_time,
            end_time,
            token_contract,
            price,
            soft_cap,
            payment,
            total_amount,
            tokens_per_tier,
            whitelist,
            ..
        } => {
            let mut ido = Ido::default();
            ido.admin = sender.clone();
            ido.start_time = start_time;
            ido.end_time = end_time;
            ido.token_contract = token_contract;
            ido.price = price;
            ido.total_tokens_amount = total_amount;
            ido.soft_cap = soft_cap;
            ido.remaining_tokens_per_tier = tokens_per_tier;
            match payment {
                PaymentMethod::Token { contract, code_hash } => {
                    ido.payment_token_contract = Some(contract);
                    ido.payment_token_hash = Some(code_hash);
                },
                PaymentMethod::Native => {},
            }
            start_ido(store, now, contract_addr, sender, ido, whitelist)
        },
        ExecuteMsg::WhitelistAdd { addresses, ido_id, .. } => whitelist_add(
            store,
            sender,
            addresses,
            ido_id,
        ),
        ExecuteMsg::WhitelistRemove { addresses, ido_id, .. } => whitelist_remove(
            store,
            sender,
            addresses,
            ido_id,
        ),
        ExecuteMsg::BuyTokens { ido_id, amount, viewing_key, .. } => buy_tokens(
            store,
            now,
            contract_addr,
            sender,
            ido_id,
            amount,
            viewing_key,
            funds,
        ),
        ExecuteMsg::RecvTokens { ido_id, start, limit, purchase_indices, .. } => recv_tokens(
            store,
            now,
            contract_addr,
            sender,
            ido_id,
            start,
            limit,
            purchase_indices,
        ),
        ExecuteMsg::Withdraw { ido_id, .. } => withdraw(store, now, contract_addr, sender, ido_id),
        ExecuteMsg::Deposit { .. } => try_deposit(store, now, sender, funds, band),
        ExecuteMsg::WithdrawFromTier { .. } => withdraw_from_tier(store, now, sender),
        ExecuteMsg::Claim { recipient, start, limit, .. } => try_claim(
            store,
            now,
            sender,
            recipient,
            start,
            limit,
        ),
        ExecuteMsg::WithdrawRewards { recipient, .. } => try_withdraw_rewards(
            store,
            sender,
            recipient,
            delegation,
        ),
        ExecuteMsg::Redelegate { validator_address, recipient, .. } => try_redelegate(
            store,
            sender,
            validator_address,
            recipient,
            delegation,
        ),
    }
}

// ---------------------------------------------------------------------------
// queries
// ---------------------------------------------------------------------------

/// The stored configuration, as an answer.
pub fn query_config(store: &Store) -> (r: Result<QueryResponse, ContractError>)
    ensures
        r matches Ok(q) && (q matches QueryResponse::Config {
            admin,
            nft_contract,
            lock_periods,
            validator,
            status,
            usd_deposits,
            min_tier,
        } && admin == store.config.admin && nft_contract == store.config.nft_contract
            && lock_periods@ == store.config.lock_periods@ && validator == store.config.validator
            && status == store.config.status && usd_deposits@ == store.config.usd_deposits@
            && min_tier == store.config.min_tier),
{
    let loaded = Config::load(store);
    match loaded {
        Ok(config) => config.to_answer(),
        Err(e) => Err(e),
    }
}

/// The depositor's tier record, as an answer; an absent one reads as the
/// worst tier with nothing deposited.
pub fn query_user_info(store: &Store, address: &String) -> (r: Result<QueryResponse, ContractError>)
    ensures
        ({
            let info = store.spec_tier_info(address@);
            r == Ok::<QueryResponse, ContractError>(
                QueryResponse::TierUserInfo {
                    tier: info.tier,
                    timestamp: info.timestamp,
                    usd_deposit: info.usd_deposit,
                    orai_deposit: info.orai_deposit,
                },
            )
        }),
{
    let found = store.tier_user_infos.find(address);
    let user_info = match found {
        Some(i) => store.tier_user_infos.entries[i].val,
        None => TierUserInfo {
            tier: store.config.min_tier,
            timestamp: 0,
            usd_deposit: 0,
            orai_deposit: 0,
        },
    };
    Ok(user_info.to_answer())
}

/// The serialized form of the withdrawals in the window `[start,
/// start+limit)`.
pub open spec fn spec_withdrawals_page(
    ws: Seq<UserWithdrawal>,
    lo: int,
    limit: int,
) -> Seq<SerializedWithdrawals> {
    let hi = if lo + limit <= ws.len() {
        lo + limit
    } else {
        ws.len() as int
    };
    let count = if hi > lo {
        (hi - lo) as nat
    } else {
        0
    };
    Seq::new(
        count,
        |k: int|
            SerializedWithdrawals {
                amount: ws[lo + k].amount,
                claim_time: ws[lo + k].claim_time,
                timestamp: ws[lo + k].timestamp,
            },
    )
}

/// A page of the depositor's pending withdrawals, with their total count.
pub fn query_withdrawals(
    store: &Store,
    address: &String,
    start: Option<u32>,
    limit: Option<u32>,
) -> (r: Result<QueryResponse, ContractError>)
    requires
        store.spec_withdrawals(address@).len() <= u32::MAX,
    ensures
        ({
            let ws = store.spec_withdrawals(address@);
            let lo = (match start {
                Some(s) => s,
                None => 0u32,
            }) as int;
            let limit_i = (match limit {
                Some(l) => l,
                None => 50u32,
            }) as int;
            r matches Ok(q) && (q matches QueryResponse::Withdrawals { amount, withdrawals }
                && amount == ws.len() && withdrawals@ == spec_withdrawals_page(ws, lo, limit_i))
        }),
{
    let found = store.withdrawals.find(address);
    let ghost ws = store.spec_withdrawals(address@);
    let wlen: usize = match found {
        Some(i) => store.withdrawals.entries[i].val.len(),
        None => 0,
    };
    let start_w: usize = match start {
        Some(s) => s as usize,
        None => 0,
    };
    let limit_w: usize = match limit {
        Some(l) => l as usize,
        None => 50,
    };
    let mut serialized: Vec<SerializedWithdrawals> = Vec::new();
    let mut i = start_w;
    while i < wlen && i - start_w < limit_w
        invariant
            ws == store.spec_withdrawals(address@),
            wlen == ws.len(),
            match found {
                Some(w) => w < store.withdrawals.entries@.len()
                    && store.withdrawals.entries@[w as int].val@ == ws,
                None => wlen == 0,
            },
            start_w <= i,
            i as int <= start_w as int + limit_w as int,
            i <= wlen || i == start_w,
            serialized@ =~= spec_withdrawals_page(ws, start_w as int, (i - start_w) as int),
        decreases wlen - i,
    {
        let wi = match found {
            Some(w) => w,
            None => {
                proof {
                    assert(false);
                }
                0
            },
        };
        let w = store.withdrawals.entries[wi].val[i];
        serialized.push(
            SerializedWithdrawals {
                amount: w.amount,
                claim_time: w.claim_time,
                timestamp: w.timestamp,
            },
        );
        proof {
            assert(serialized@ =~= spec_withdrawals_page(ws, start_w as int, (i + 1 - start_w) as int));
        }
        i = i + 1;
    }
    proof {
        assert(serialized@ =~= spec_withdrawals_page(
            ws,
            start_w as int,
            (match limit {
                Some(l) => l,
                None => 50u32,
            }) as int,
        ));
    }
    let amount = wlen as u32;
    Ok(QueryResponse::Withdrawals { amount, withdrawals: serialized })
}

} // verus!
