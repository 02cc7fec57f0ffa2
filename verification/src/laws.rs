//! The library's global guarantees, stated and proved over the entry-point
//! contracts: conservation of a sale's token accounting, vesting gates,
//! per-user balance bounds, canonical compaction, tier monotonicity, and
//! exact withdrawal maturity.

use crate::compact::{
    all_below, lemma_asc_filter_props, lemma_seq_sum_bounds, lemma_seq_sum_split,
    lemma_seq_sum_update, lemma_sorted_set_unique, picked, remove_idxs, seq_sum, sorted_strict,
};
use crate::contract::{
    buy_outcome, buy_tokens_rel, claim_selection, deposit_outcome, p_amounts, recv_pred,
    recv_refund_mode, recv_selection, recv_tokens_rel,
};
use crate::msg::Coin;
use crate::state::{
    first_le, lemma_first_le_inv, lemma_first_le_monotonic, lemma_first_le_range, Config, Purchase,
    Store, UserInfo,
};
use vstd::prelude::*;

verus! {

/// The token amounts of a purchase queue, in order.
pub open spec fn amounts_of(ps: Seq<Purchase>) -> Seq<u128> {
    ps.map_values(|p: Purchase| p.tokens_amount)
}

/// Compaction commutes with reading off the amounts.
proof fn lemma_amounts_remove_idxs(ps: Seq<Purchase>, idxs: Seq<usize>)
    requires
        sorted_strict(idxs),
        all_below(idxs, ps.len() as int),
    ensures
        amounts_of(remove_idxs(ps, idxs)) == remove_idxs(amounts_of(ps), idxs),
    decreases idxs.len(),
{
    if idxs.len() > 0 {
        let l = idxs.last() as int;
        ps.remove_ensures(l);
        amounts_of(ps).remove_ensures(l);
        assert(amounts_of(ps.remove(l)) =~= amounts_of(ps).remove(l));
        lemma_amounts_remove_idxs(ps.remove(l), idxs.drop_last());
    }
}

/// A sale never oversells: after any successful purchase the sold amount
/// stays within the sale's total, and a tier-pool balance within the unsold
/// remainder is kept.
pub proof fn lemma_buy_keeps_sale_sound(
    s0: Store,
    s1: Store,
    now: u64,
    contract_addr: String,
    sender: String,
    ido_id: u32,
    amount: u128,
    funds: Seq<Coin>,
    r: crate::contract::ExecuteResult,
)
    requires
        buy_tokens_rel(s0, s1, now, contract_addr, sender, ido_id, amount, funds, r),
        r is Ok,
        s0.wf(),
        (ido_id as int) < s0.idos@.len() ==> crate::state::ido_saleable(
            s0.idos@[ido_id as int],
            s0.config,
        ),
    ensures
        s1.idos@[ido_id as int].sold_amount <= s1.idos@[ido_id as int].total_tokens_amount,
        seq_sum(s0.idos@[ido_id as int].remaining_tokens_per_tier@) <= s0.idos@[ido_id as int].total_tokens_amount
            - s0.idos@[ido_id as int].sold_amount ==> seq_sum(
            s1.idos@[ido_id as int].remaining_tokens_per_tier@,
        ) <= s1.idos@[ido_id as int].total_tokens_amount - s1.idos@[ido_id as int].sold_amount,
{
    let outcome = buy_outcome(s0, now, sender@, funds, ido_id, amount);
    let (amt, payment, tier, unlock) = outcome->Ok_0;
    let ido = s0.idos@[ido_id as int];
    assert((ido_id as int) < s0.idos@.len());
    assert(amt <= ido.spec_remaining_per_tier(tier));
    assert(ido.spec_remaining_per_tier(tier) <= ido.total_tokens_amount - ido.sold_amount);
    lemma_seq_sum_update(
        ido.remaining_tokens_per_tier@,
        tier - 1,
        (ido.remaining_tokens_per_tier@[tier - 1] - amt) as u128,
    );
}

/// A sale starts sound: nothing is sold yet, so the sold amount lies within
/// the total, and when the pools are allotted exactly (their sum equals the
/// total) they open within the unsold remainder.  Creation admits pools
/// summing above the total; such a sale starts with more pool than
/// remainder.
pub proof fn lemma_new_sale_sound(
    s: Store,
    now: u64,
    sender: Seq<char>,
    pools: Seq<u128>,
    start_time: u64,
    end_time: u64,
    price: u128,
    soft_cap: u128,
    total: u128,
)
    requires
        crate::contract::start_ido_err_fields(
            s,
            now,
            sender,
            pools,
            start_time,
            end_time,
            price,
            soft_cap,
            total,
        ) is None,
    ensures
        0 <= total,
        seq_sum(pools) >= total,
        seq_sum(pools) == total ==> seq_sum(pools) <= total - 0,
{
}

/// Every purchase removed by a receipt had vested: its unlock time lies at
/// or before the call's time.
pub proof fn lemma_receipt_only_vested(
    ps: Seq<Purchase>,
    now: u64,
    start: int,
    endw: int,
    ex: Seq<u32>,
)
    requires
        ps.len() <= usize::MAX,
    ensures
        forall|k: int|
            0 <= k < recv_selection(ps, now, start, endw, ex).len() ==> now >= ps[#[trigger] recv_selection(
                ps,
                now,
                start,
                endw,
                ex,
            )[k] as int].unlock_time,
{
    lemma_asc_filter_props(ps.len(), recv_pred(ps, now, start, endw, ex));
}

/// Out of the vesting account's balance: as long as a buyer's bought total
/// splits into the received total plus the still-locked queue, the received
/// total cannot exceed the bought one.
pub proof fn lemma_received_within_bought(info: UserInfo, ps: Seq<Purchase>)
    requires
        info.total_tokens_bought == info.total_tokens_received + seq_sum(amounts_of(ps)),
    ensures
        info.total_tokens_received <= info.total_tokens_bought,
{
    lemma_seq_sum_bounds(amounts_of(ps));
}

/// A purchase maintains the vesting account: the appended purchase carries
/// exactly the newly bought amount.
pub proof fn lemma_buy_keeps_account(
    s0: Store,
    s1: Store,
    now: u64,
    contract_addr: String,
    sender: String,
    ido_id: u32,
    amount: u128,
    funds: Seq<Coin>,
    r: crate::contract::ExecuteResult,
)
    requires
        buy_tokens_rel(s0, s1, now, contract_addr, sender, ido_id, amount, funds, r),
        r is Ok,
        s0.spec_sale_info(sender@, ido_id).total_tokens_bought == s0.spec_sale_info(
            sender@,
            ido_id,
        ).total_tokens_received + seq_sum(amounts_of(s0.spec_purchases(sender@, ido_id))),
    ensures
        s1.spec_sale_info(sender@, ido_id).total_tokens_bought == s1.spec_sale_info(
            sender@,
            ido_id,
        ).total_tokens_received + seq_sum(amounts_of(s1.spec_purchases(sender@, ido_id))),
        s1.spec_sale_info(sender@, ido_id).total_tokens_received <= s1.spec_sale_info(
            sender@,
            ido_id,
        ).total_tokens_bought,
        s0.spec_user_info(sender@).total_tokens_received <= s0.spec_user_info(
            sender@,
        ).total_tokens_bought ==> s1.spec_user_info(sender@).total_tokens_received <= s1.spec_user_info(
            sender@,
        ).total_tokens_bought,
{
    let outcome = buy_outcome(s0, now, sender@, funds, ido_id, amount);
    let (amt, payment, tier, unlock) = outcome->Ok_0;
    let ps0 = s0.spec_purchases(sender@, ido_id);
    let ps1 = s1.spec_purchases(sender@, ido_id);
    let purchase = Purchase { tokens_amount: amt, timestamp: now, unlock_time: unlock };
    assert(ps1 == ps0.push(purchase));
    assert(amounts_of(ps1).drop_last() =~= amounts_of(ps0));
    assert(amounts_of(ps1).last() == amt);
    assert(seq_sum(amounts_of(ps1)) == seq_sum(amounts_of(ps0)) + amt);
    lemma_seq_sum_bounds(amounts_of(ps1));
}

/// A vesting receipt maintains the account: what leaves the queue is
/// exactly what is credited as received, so the received total stays within
/// the bought one.
pub proof fn lemma_recv_keeps_account(
    s0: Store,
    s1: Store,
    now: u64,
    contract_addr: String,
    sender: String,
    ido_id: u32,
    start: Option<u32>,
    limit: Option<u32>,
    purchase_indices: Option<Vec<u32>>,
    r: crate::contract::ExecuteResult,
)
    requires
        recv_tokens_rel(s0, s1, now, contract_addr, sender, ido_id, start, limit, purchase_indices, r),
        r is Ok,
        s0.spec_purchases(sender@, ido_id).len() <= usize::MAX,
        !recv_refund_mode(s0, ido_id, now),
        s0.spec_sale_info(sender@, ido_id).total_tokens_bought == s0.spec_sale_info(
            sender@,
            ido_id,
        ).total_tokens_received + seq_sum(amounts_of(s0.spec_purchases(sender@, ido_id))),
        s0.spec_user_info(sender@).total_tokens_bought >= s0.spec_user_info(
            sender@,
        ).total_tokens_received + seq_sum(amounts_of(s0.spec_purchases(sender@, ido_id))),
    ensures
        s1.spec_sale_info(sender@, ido_id).total_tokens_bought == s1.spec_sale_info(
            sender@,
            ido_id,
        ).total_tokens_received + seq_sum(amounts_of(s1.spec_purchases(sender@, ido_id))),
        s1.spec_user_info(sender@).total_tokens_received <= s1.spec_user_info(
            sender@,
        ).total_tokens_bought,
        s1.spec_user_info(sender@).total_tokens_bought >= s1.spec_user_info(
            sender@,
        ).total_tokens_received + seq_sum(amounts_of(s1.spec_purchases(sender@, ido_id))),
        s1.spec_sale_info(sender@, ido_id).total_tokens_received <= s1.spec_sale_info(
            sender@,
            ido_id,
        ).total_tokens_bought,
{
    let start_i = (match start {
        Some(s) => s,
        None => 0u32,
    }) as int;
    let endw = start_i + (match limit {
        Some(l) => l,
        None => 300u32,
    }) as int;
    let ex = (match purchase_indices {
        Some(v) => v@,
        None => Seq::<u32>::empty(),
    });
    let ps = s0.spec_purchases(sender@, ido_id);
    let sel = recv_selection(ps, now, start_i, endw, ex);
    let total = seq_sum(p_amounts(ps, sel));
    let sale_info = s0.spec_sale_info(sender@, ido_id);
    lemma_asc_filter_props(ps.len(), recv_pred(ps, now, start_i, endw, ex));
    assert(s0.config.status == crate::msg::ContractStatus::Active.spec_code());
    assert(!(purchase_indices is Some && endw > u32::MAX));
    lemma_seq_sum_bounds(p_amounts(ps, sel));
    assert(0 < total <= u128::MAX);
    assert(p_amounts(ps, sel) =~= picked(amounts_of(ps), sel));
    lemma_seq_sum_split(amounts_of(ps), sel);
    lemma_amounts_remove_idxs(ps, sel);
    assert(s1.spec_purchases(sender@, ido_id) == remove_idxs(ps, sel));
    assert(s1.spec_sale_info(sender@, ido_id).total_tokens_received == sale_info.total_tokens_received
        + total);
    assert(s1.spec_sale_info(sender@, ido_id).total_tokens_bought
        == sale_info.total_tokens_bought);
    assert(amounts_of(s1.spec_purchases(sender@, ido_id)) == remove_idxs(amounts_of(ps), sel));
    assert(seq_sum(amounts_of(ps)) == seq_sum(remove_idxs(amounts_of(ps), sel)) + total);
    lemma_seq_sum_bounds(amounts_of(s1.spec_purchases(sender@, ido_id)));
}

/// A failure refund keeps the balance bounds: the sale-scoped counters
/// reset to zero, and as long as the buyer's global slack (bought minus
/// received) covers this sale's slack — it always does when the global
/// aggregates are the sums over the sales — the global received total stays
/// within the global bought one.
pub proof fn lemma_refund_keeps_user_bounds(
    s0: Store,
    s1: Store,
    now: u64,
    contract_addr: String,
    sender: String,
    ido_id: u32,
    start: Option<u32>,
    limit: Option<u32>,
    purchase_indices: Option<Vec<u32>>,
    r: crate::contract::ExecuteResult,
)
    requires
        recv_tokens_rel(s0, s1, now, contract_addr, sender, ido_id, start, limit, purchase_indices, r),
        r is Ok,
        recv_refund_mode(s0, ido_id, now),
        s0.spec_user_info(sender@).total_tokens_bought - s0.spec_user_info(
            sender@,
        ).total_tokens_received >= s0.spec_sale_info(sender@, ido_id).total_tokens_bought
            - s0.spec_sale_info(sender@, ido_id).total_tokens_received,
    ensures
        s1.spec_sale_info(sender@, ido_id).total_tokens_received <= s1.spec_sale_info(
            sender@,
            ido_id,
        ).total_tokens_bought,
        s1.spec_user_info(sender@).total_tokens_received <= s1.spec_user_info(
            sender@,
        ).total_tokens_bought,
{
}

/// Compaction is canonical in its batch of positions: any two strictly
/// ascending batches with the same members remove the same elements and
/// leave the same sequence.
pub proof fn lemma_compaction_canonical<T>(s: Seq<T>, a: Seq<usize>, b: Seq<usize>)
    requires
        sorted_strict(a),
        sorted_strict(b),
        a.to_set() == b.to_set(),
    ensures
        remove_idxs(s, a) == remove_idxs(s, b),
        picked(s, a) == picked(s, b),
{
    lemma_sorted_set_unique(a, b);
}

/// Tier resolution is monotonic: a deeper USD deposit never resolves to a
/// worse (numerically larger) tier.
pub proof fn lemma_tier_monotonic(cfg: Config, usd1: u128, usd2: u128)
    requires
        usd1 <= usd2,
    ensures
        cfg.spec_tier_by_deposit(usd2) <= cfg.spec_tier_by_deposit(usd1),
{
    lemma_first_le_monotonic(cfg.usd_deposits@, usd1, usd2);
}

/// A successful deposit strictly improves the depositor's stored tier.
pub proof fn lemma_deposit_improves_tier(
    s0: Store,
    now: u64,
    sender: Seq<char>,
    funds: Seq<Coin>,
    band: crate::band::BandProtocol,
)
    requires
        s0.wf(),
        deposit_outcome(s0, now, sender, funds, band) is Ok,
    ensures
        deposit_outcome(s0, now, sender, funds, band)->Ok_0.0.tier < s0.spec_tier_info(
            sender,
        ).tier,
{
    let info = s0.spec_tier_info(sender);
    let coin = crate::utils::spec_received_funds(funds)->Ok_0;
    let usd_dep = band.spec_usd_amount(coin.amount);
    let new_usd = (info.usd_deposit + usd_dep) as u128;
    let new_tier = s0.config.spec_tier_by_deposit(new_usd);
    assert(new_tier != info.tier as int);
    lemma_first_le_range(s0.config.usd_deposits@, new_usd);
    if info.tier < s0.config.min_tier {
        assert(s0.config.usd_deposits@[info.tier - 1] == info.usd_deposit);
        assert(info.usd_deposit <= new_usd);
        lemma_first_le_inv(s0.config.usd_deposits@, new_usd);
        assert(new_tier <= info.tier as int) by {
            if new_tier > info.tier as int {
                assert(first_le(s0.config.usd_deposits@, new_usd) > info.tier - 1);
                assert(s0.config.usd_deposits@[info.tier - 1] > new_usd);
            }
        };
    } else {
        assert(new_tier <= s0.config.min_tier as int);
    }
}

/// Withdrawal maturity is exact: the batch a claim over `[start, endw)`
/// removes holds a position exactly when it lies in the window and its
/// claim time has come.
pub proof fn lemma_claim_maturity(
    ws: Seq<crate::state::UserWithdrawal>,
    now: u64,
    start: int,
    endw: int,
    u: usize,
)
    requires
        ws.len() <= usize::MAX,
    ensures
        claim_selection(ws, now, start, endw).contains(u) <==> ((u as int) < ws.len() && start
            <= u as int && (u as int) < endw && now >= ws[u as int].claim_time),
{
    let pred = crate::contract::claim_pred(ws, now, start, endw);
    lemma_asc_filter_props(ws.len(), pred);
    let sel = claim_selection(ws, now, start, endw);
    if sel.contains(u) {
        let k = choose|k: int| 0 <= k < sel.len() && sel[k] == u;
        assert(pred(sel[k]));
        assert(sel[k] < ws.len());
    }
}

} // verus!
