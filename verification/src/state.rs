//! Persistent entities and the store that holds them.

use crate::error::ContractError;
use crate::msg::{ContractStatus, OraiswapContract};
use crate::store::{AddrMap, SaleMap};
use vstd::prelude::*;

verus! {

// ---------------------------------------------------------------------------
// Config
// ---------------------------------------------------------------------------

#[derive(Debug)]
pub struct Config {
    pub admin: String,
    pub status: u8,
    pub nft_contract: String,
    /// One lock period per tier; index 0 belongs to tier 1, the best tier.
    pub lock_periods: Vec<u64>,
    /// The worst tier: one past the number of USD thresholds.
    pub min_tier: u8,
    pub validator: String,
    /// USD thresholds for promotion, strictly descending; index 0 is the
    /// threshold of tier 1.
    pub usd_deposits: Vec<u128>,
    pub oraiswap_contract: OraiswapContract,
}

/// Equality of configurations up to the identity of their backing vectors:
/// all scalar and string fields equal, vector fields equal element for
/// element.
pub open spec fn cfg_eqv(a: Config, b: Config) -> bool {
    &&& a.admin == b.admin
    &&& a.status == b.status
    &&& a.nft_contract == b.nft_contract
    &&& a.lock_periods@ == b.lock_periods@
    &&& a.min_tier == b.min_tier
    &&& a.validator == b.validator
    &&& a.usd_deposits@ == b.usd_deposits@
    &&& a.oraiswap_contract == b.oraiswap_contract
}

impl Clone for Config {
    fn clone(&self) -> (r: Config)
        ensures
            cfg_eqv(r, *self),
    {
        Config {
            admin: self.admin.clone(),
            status: self.status,
            nft_contract: self.nft_contract.clone(),
            lock_periods: self.lock_periods.clone(),
            min_tier: self.min_tier,
            validator: self.validator.clone(),
            usd_deposits: self.usd_deposits.clone(),
            oraiswap_contract: self.oraiswap_contract.clone(),
        }
    }
}

/// The position of the first threshold at or below `usd`; the length of `s`
/// when every threshold lies above it.
pub open spec fn first_le(s: Seq<u128>, usd: u128) -> int
    decreases s.len(),
{
    if s.len() == 0 {
        0
    } else if s[0] <= usd {
        0
    } else {
        1 + first_le(s.drop_first(), usd)
    }
}

/// `first_le` stays within `[0, s.len()]`.
pub proof fn lemma_first_le_range(s: Seq<u128>, usd: u128)
    ensures
        0 <= first_le(s, usd) <= s.len(),
    decreases s.len(),
{
    if s.len() > 0 && !(s[0] <= usd) {
        lemma_first_le_range(s.drop_first(), usd);
    }
}

/// Links the scanning loop to the recursive definition.
pub proof fn lemma_first_le_char(s: Seq<u128>, usd: u128, i: int)
    requires
        0 <= i <= s.len(),
        forall|j: int| 0 <= j < i ==> s[j] > usd,
        i < s.len() ==> s[i] <= usd,
    ensures
        first_le(s, usd) == i,
    decreases i, s.len(),
{
    if s.len() == 0 {
    } else if i == 0 {
    } else {
        lemma_first_le_char(s.drop_first(), usd, i - 1);
    }
}

/// What the resolved position means: every threshold before it lies above
/// the deposit, and the threshold at it (when there is one) does not.
pub proof fn lemma_first_le_inv(s: Seq<u128>, usd: u128)
    ensures
        0 <= first_le(s, usd) <= s.len(),
        first_le(s, usd) < s.len() ==> s[first_le(s, usd)] <= usd,
        forall|j: int| 0 <= j < first_le(s, usd) ==> s[j] > usd,
    decreases s.len(),
{
    if s.len() > 0 && !(s[0] <= usd) {
        lemma_first_le_inv(s.drop_first(), usd);
        assert forall|j: int| 0 <= j < first_le(s, usd) implies s[j] > usd by {
            if j > 0 {
                assert(s.drop_first()[j - 1] == s[j]);
            }
        };
    }
}

/// A deeper deposit never worsens the resolved position.
pub proof fn lemma_first_le_monotonic(s: Seq<u128>, usd1: u128, usd2: u128)
    requires
        usd1 <= usd2,
    ensures
        first_le(s, usd2) <= first_le(s, usd1),
    decreases s.len(),
{
    if s.len() > 0 {
        lemma_first_le_monotonic(s.drop_first(), usd1, usd2);
        lemma_first_le_range(s.drop_first(), usd1);
        lemma_first_le_range(s.drop_first(), usd2);
    }
}

impl Config {
    pub open spec fn wf(self) -> bool {
        &&& self.usd_deposits@.len() >= 1
        &&& self.usd_deposits@.len() + 1 <= u8::MAX as int
        &&& self.min_tier as int == self.usd_deposits@.len() + 1
        &&& self.lock_periods@.len() == self.min_tier as int
        &&& forall|i: int, j: int|
            0 <= i < j < self.usd_deposits@.len() ==> self.usd_deposits@[i]
                > self.usd_deposits@[j]
    }

    pub fn load(store: &Store) -> (r: Result<Config, ContractError>)
        ensures
            r matches Ok(c) && cfg_eqv(c, store.config),
    {
        Ok(store.config.clone())
    }

    pub fn save(&self, store: &mut Store) -> (r: Result<(), ContractError>)
        ensures
            r is Ok,
            cfg_eqv(final(store).config, *self),
            final(store).idos@ == old(store).idos@,
            final(store).purchases == old(store).purchases,
            final(store).archived_purchases == old(store).archived_purchases,
            final(store).active_idos == old(store).active_idos,
            final(store).ido_to_info == old(store).ido_to_info,
            final(store).owner_to_idos == old(store).owner_to_idos,
            final(store).whitelist == old(store).whitelist,
            final(store).user_infos == old(store).user_infos,
            final(store).tier_user_infos == old(store).tier_user_infos,
            final(store).withdrawals == old(store).withdrawals,
    {
        store.config = self.clone();
        Ok(())
    }

    /// The vesting delay for purchases made at `tier`.
    pub fn lock_period(&self, tier: u8) -> (r: u64)
        requires
            1 <= tier,
            tier as int <= self.lock_periods@.len(),
        ensures
            r == self.lock_periods@[tier - 1],
    {
        let tier_index = tier - 1;
        self.lock_periods[tier_index as usize]
    }

    /// The worst (default) tier: one past the number of thresholds.
    pub fn min_tier(&self) -> (r: u8)
        requires
            self.wf(),
        ensures
            r == self.min_tier,
            r as int == self.usd_deposits@.len() + 1,
    {
        (self.usd_deposits.len() + 1) as u8
    }

    /// The best tier.
    pub fn max_tier(&self) -> (r: u8)
        ensures
            r == 1,
    {
        1
    }

    /// The USD threshold that promotes a depositor to `tier`.
    pub fn deposit_by_tier(&self, tier: u8) -> (r: u128)
        requires
            1 <= tier,
            tier as int <= self.usd_deposits@.len(),
        ensures
            r == self.usd_deposits@[tier - 1],
    {
        let tier_index = tier - 1;
        self.usd_deposits[tier_index as usize]
    }

    /// The tier a total deposit of `usd` resolves to: the first tier whose
    /// threshold is at or below the deposit, or the worst tier.
    pub open spec fn spec_tier_by_deposit(self, usd: u128) -> int {
        1 + first_le(self.usd_deposits@, usd)
    }

    pub fn tier_by_deposit(&self, usd_deposit: u128) -> (r: u8)
        requires
            self.wf(),
        ensures
            r as int == self.spec_tier_by_deposit(usd_deposit),
            1 <= r <= self.min_tier,
    {
        let n = self.usd_deposits.len();
        let mut i: usize = 0;
        while i < n
            invariant
                0 <= i <= n,
                n == self.usd_deposits@.len(),
                self.wf(),
                forall|j: int| 0 <= j < i ==> self.usd_deposits@[j] > usd_deposit,
            decreases n - i,
        {
            if self.usd_deposits[i] <= usd_deposit {
                proof {
                    lemma_first_le_char(self.usd_deposits@, usd_deposit, i as int);
                }
                return (i + 1) as u8;
            }
            i = i + 1;
        }
        proof {
            lemma_first_le_char(self.usd_deposits@, usd_deposit, n as int);
        }
        (n + 1) as u8
    }

    /// Fails with `InactiveContract` unless the contract status is active.
    pub fn assert_contract_active(&self) -> (r: Result<(), ContractError>)
        ensures
            r == if self.status == ContractStatus::Active.spec_code() {
                Ok::<(), ContractError>(())
            } else {
                Err::<(), ContractError>(ContractError::InactiveContract)
            },
    {
        let active = ContractStatus::Active.code();
        if self.status != active {
            return Err(ContractError::InactiveContract);
        }
        Ok(())
    }
}

impl Config {
    /// The configuration as an answer.  Consumes the record, so the held
    /// vectors move into the answer unchanged.
    pub fn to_answer(self) -> (r: Result<crate::msg::QueryResponse, ContractError>)
        ensures
            r matches Ok(q) && (q matches crate::msg::QueryResponse::Config {
                admin,
                nft_contract,
                lock_periods,
                validator,
                status,
                usd_deposits,
                min_tier,
            } && admin == self.admin && nft_contract == self.nft_contract && lock_periods@
                == self.lock_periods@ && validator == self.validator && status == self.status
                && usd_deposits@ == self.usd_deposits@ && min_tier == self.min_tier),
    {
        Ok(
            crate::msg::QueryResponse::Config {
                admin: self.admin,
                nft_contract: self.nft_contract,
                lock_periods: self.lock_periods,
                validator: self.validator,
                status: self.status,
                usd_deposits: self.usd_deposits,
                min_tier: self.min_tier,
            },
        )
    }
}

// ---------------------------------------------------------------------------
// per-user records
// ---------------------------------------------------------------------------

#[derive(Clone, Copy, Debug, PartialEq, Eq, Structural)]
pub struct Purchase {
    pub tokens_amount: u128,
    pub timestamp: u64,
    pub unlock_time: u64,
}

impl Purchase {
    pub fn to_answer(&self) -> (r: crate::msg::PurchaseAnswer)
        ensures
            r == (crate::msg::PurchaseAnswer {
                tokens_amount: self.tokens_amount,
                timestamp: self.timestamp,
                unlock_time: self.unlock_time,
            }),
    {
        crate::msg::PurchaseAnswer {
            tokens_amount: self.tokens_amount,
            timestamp: self.timestamp,
            unlock_time: self.unlock_time,
        }
    }
}

impl Default for Purchase {
    fn default() -> (r: Self)
        ensures
            r == (Purchase { tokens_amount: 0, timestamp: 0, unlock_time: 0 }),
    {
        Purchase { tokens_amount: 0, timestamp: 0, unlock_time: 0 }
    }
}

#[derive(Clone, Copy, Debug, PartialEq, Eq, Structural)]
pub struct UserInfo {
    pub total_payment: u128,
    pub total_tokens_bought: u128,
    pub total_tokens_received: u128,
}

impl UserInfo {
    pub fn to_answer(&self) -> (r: crate::msg::QueryResponse)
        ensures
            r == (crate::msg::QueryResponse::UserInfo {
                total_payment: self.total_payment,
                total_tokens_bought: self.total_tokens_bought,
                total_tokens_received: self.total_tokens_received,
            }),
    {
        crate::msg::QueryResponse::UserInfo {
            total_payment: self.total_payment,
            total_tokens_bought: self.total_tokens_bought,
            total_tokens_received: self.total_tokens_received,
        }
    }
}

impl Default for UserInfo {
    fn default() -> (r: Self)
        ensures
            r == (UserInfo { total_payment: 0, total_tokens_bought: 0, total_tokens_received: 0 }),
    {
        UserInfo { total_payment: 0, total_tokens_bought: 0, total_tokens_received: 0 }
    }
}

#[derive(Clone, Copy, Debug, PartialEq, Eq, Structural)]
pub struct TierUserInfo {
    /// 1 is the best tier; the worst is the configured minimum tier.
    pub tier: u8,
    pub timestamp: u64,
    pub usd_deposit: u128,
    pub orai_deposit: u128,
}

impl TierUserInfo {
    pub fn get_tier(&self) -> (r: u8)
        ensures
            r == self.tier,
    {
        self.tier
    }

    pub fn to_answer(&self) -> (r: crate::msg::QueryResponse)
        ensures
            r == (crate::msg::QueryResponse::TierUserInfo {
                tier: self.tier,
                timestamp: self.timestamp,
                usd_deposit: self.usd_deposit,
                orai_deposit: self.orai_deposit,
            }),
    {
        crate::msg::QueryResponse::TierUserInfo {
            tier: self.tier,
            timestamp: self.timestamp,
            usd_deposit: self.usd_deposit,
            orai_deposit: self.orai_deposit,
        }
    }
}

impl Default for TierUserInfo {
    fn default() -> (r: Self)
        ensures
            r == (TierUserInfo { tier: 0, timestamp: 0, usd_deposit: 0, orai_deposit: 0 }),
    {
        TierUserInfo { tier: 0, timestamp: 0, usd_deposit: 0, orai_deposit: 0 }
    }
}

#[derive(Clone, Copy, Debug, PartialEq, Eq, Structural)]
pub struct UserWithdrawal {
    pub amount: u128,
    pub claim_time: u64,
    pub timestamp: u64,
}

impl UserWithdrawal {
    pub fn to_serialized(&self) -> (r: crate::msg::SerializedWithdrawals)
        ensures
            r == (crate::msg::SerializedWithdrawals {
                amount: self.amount,
                claim_time: self.claim_time,
                timestamp: self.timestamp,
            }),
    {
        crate::msg::SerializedWithdrawals {
            amount: self.amount,
            claim_time: self.claim_time,
            timestamp: self.timestamp,
        }
    }
}

// ---------------------------------------------------------------------------
// Ido
// ---------------------------------------------------------------------------

#[derive(Debug, PartialEq)]
pub struct Ido {
    pub id: Option<u32>,
    pub admin: String,
    pub start_time: u64,
    pub end_time: u64,
    pub token_contract: String,
    pub token_contract_hash: String,
    pub payment_token_contract: Option<String>,
    pub payment_token_hash: Option<String>,
    pub price: u128,
    pub participants: u64,
    pub sold_amount: u128,
    pub remaining_tokens_per_tier: Vec<u128>,
    pub total_tokens_amount: u128,
    pub soft_cap: u128,
    pub total_payment: u128,
    pub withdrawn: bool,
    pub shared_whitelist: bool,
}

/// What purchase handling relies on of a stored sale: one pool per
/// configured tier, and a sold amount within the sale's total.  Sales
/// created through the entry points always satisfy it.
pub open spec fn ido_saleable(ido: Ido, cfg: Config) -> bool {
    &&& ido.remaining_tokens_per_tier@.len() == cfg.min_tier as int
    &&& ido.sold_amount <= ido.total_tokens_amount
}

/// A sale's payment token address and code hash are set together: both
/// absent for native payment, both present for token payment.
pub open spec fn ido_payment_consistent(ido: Ido) -> bool {
    ido.payment_token_contract is None <==> ido.payment_token_hash is None
}

/// Equality of sale records up to the identity of their backing vectors.
pub open spec fn ido_eqv(a: Ido, b: Ido) -> bool {
    &&& a.id == b.id
    &&& a.admin == b.admin
    &&& a.start_time == b.start_time
    &&& a.end_time == b.end_time
    &&& a.token_contract == b.token_contract
    &&& a.token_contract_hash == b.token_contract_hash
    &&& a.payment_token_contract == b.payment_token_contract
    &&& a.payment_token_hash == b.payment_token_hash
    &&& a.price == b.price
    &&& a.participants == b.participants
    &&& a.sold_amount == b.sold_amount
    &&& a.remaining_tokens_per_tier@ == b.remaining_tokens_per_tier@
    &&& a.total_tokens_amount == b.total_tokens_amount
    &&& a.soft_cap == b.soft_cap
    &&& a.total_payment == b.total_payment
    &&& a.withdrawn == b.withdrawn
    &&& a.shared_whitelist == b.shared_whitelist
}

impl Clone for Ido {
    fn clone(&self) -> (r: Ido)
        ensures
            ido_eqv(r, *self),
    {
        Ido {
            id: self.id,
            admin: self.admin.clone(),
            start_time: self.start_time,
            end_time: self.end_time,
            token_contract: self.token_contract.clone(),
            token_contract_hash: self.token_contract_hash.clone(),
            payment_token_contract: match &self.payment_token_contract {
                Some(s) => Some(s.clone()),
                None => None,
            },
            payment_token_hash: match &self.payment_token_hash {
                Some(s) => Some(s.clone()),
                None => None,
            },
            price: self.price,
            participants: self.participants,
            sold_amount: self.sold_amount,
            remaining_tokens_per_tier: self.remaining_tokens_per_tier.clone(),
            total_tokens_amount: self.total_tokens_amount,
            soft_cap: self.soft_cap,
            total_payment: self.total_payment,
            withdrawn: self.withdrawn,
            shared_whitelist: self.shared_whitelist,
        }
    }
}

impl Default for Ido {
    fn default() -> (r: Self)
        ensures
            r.id is None,
            r.admin@ == Seq::<char>::empty(),
            r.start_time == 0,
            r.end_time == 0,
            r.token_contract@ == Seq::<char>::empty(),
            r.token_contract_hash@ == Seq::<char>::empty(),
            r.payment_token_contract is None,
            r.payment_token_hash is None,
            r.price == 0,
            r.participants == 0,
            r.sold_amount == 0,
            r.remaining_tokens_per_tier@ == Seq::<u128>::empty(),
            r.total_tokens_amount == 0,
            r.soft_cap == 0,
            r.total_payment == 0,
            !r.withdrawn,
            !r.shared_whitelist,
    {
        Ido {
            id: None,
            admin: String::new(),
            start_time: 0,
            end_time: 0,
            token_contract: String::new(),
            token_contract_hash: String::new(),
            payment_token_contract: None,
            payment_token_hash: None,
            price: 0,
            participants: 0,
            sold_amount: 0,
            remaining_tokens_per_tier: Vec::new(),
            total_tokens_amount: 0,
            soft_cap: 0,
            total_payment: 0,
            withdrawn: false,
            shared_whitelist: false,
        }
    }
}

impl Ido {
    /// Reads the sale with the given id, a fresh default when it is not
    /// stored; either way the returned record carries the id it was asked
    /// for.
    pub fn load(store: &Store, id: u32) -> (r: Result<Ido, ContractError>)
        ensures
            r is Ok,
            r matches Ok(ido) ==> {
                &&& ido.id == Some(id)
                &&& (id as int) < store.idos@.len() ==> ido_eqv(
                    ido,
                    Ido { id: Some(id), ..store.idos@[id as int] },
                )
                &&& (id as int) >= store.idos@.len() ==> {
                    &&& ido.admin@ == Seq::<char>::empty()
                    &&& ido.start_time == 0
                    &&& ido.end_time == 0
                    &&& ido.payment_token_contract is None
                    &&& ido.payment_token_hash is None
                    &&& ido.price == 0
                    &&& ido.participants == 0
                    &&& ido.sold_amount == 0
                    &&& ido.remaining_tokens_per_tier@ == Seq::<u128>::empty()
                    &&& ido.total_tokens_amount == 0
                    &&& ido.soft_cap == 0
                    &&& ido.total_payment == 0
                    &&& !ido.withdrawn
                    &&& !ido.shared_whitelist
                }
            },
    {
        let mut ido = if (id as usize) < store.idos.len() {
            store.idos[id as usize].clone()
        } else {
            Ido::default()
        };
        ido.id = Some(id);
        Ok(ido)
    }

    /// The number of stored sales.
    pub fn len(store: &Store) -> (r: Result<u32, ContractError>)
        requires
            store.idos@.len() <= u32::MAX,
        ensures
            r == Ok::<u32, ContractError>(store.idos@.len() as u32),
    {
        Ok(store.idos.len() as u32)
    }

    /// Writes the sale back under its id, allocating the next sequential id
    /// for a record that was never stored.
    pub fn save(&mut self, store: &mut Store) -> (r: Result<u32, ContractError>)
        requires
            old(self).id matches Some(i) ==> (i as int) < old(store).idos@.len(),
            old(self).id is None ==> old(store).idos@.len() < u32::MAX,
        ensures
            final(store).config == old(store).config,
            final(store).purchases == old(store).purchases,
            final(store).archived_purchases == old(store).archived_purchases,
            final(store).active_idos == old(store).active_idos,
            final(store).ido_to_info == old(store).ido_to_info,
            final(store).owner_to_idos == old(store).owner_to_idos,
            final(store).whitelist == old(store).whitelist,
            final(store).user_infos == old(store).user_infos,
            final(store).tier_user_infos == old(store).tier_user_infos,
            final(store).withdrawals == old(store).withdrawals,
            match old(self).id {
                Some(i) => {
                    &&& *final(self) == *old(self)
                    &&& r == Ok::<u32, ContractError>(i)
                    &&& final(store).idos@.len() == old(store).idos@.len()
                    &&& ido_eqv(final(store).idos@[i as int], *old(self))
                    &&& forall|j: int|
                        0 <= j < old(store).idos@.len() && j != i ==> final(store).idos@[j]
                            == old(store).idos@[j]
                },
                None => {
                    &&& *final(self) == (Ido {
                        id: Some(old(store).idos@.len() as u32),
                        ..*old(self)
                    })
                    &&& r == Ok::<u32, ContractError>(old(store).idos@.len() as u32)
                    &&& final(store).idos@.len() == old(store).idos@.len() + 1
                    &&& ido_eqv(final(store).idos@.last(), *final(self))
                    &&& forall|j: int|
                        0 <= j < old(store).idos@.len() ==> final(store).idos@[j]
                            == old(store).idos@[j]
                },
            },
    {
        let id = match self.id {
            Some(id) => {
                store.idos.set(id as usize, self.clone());
                id
            },
            None => {
                let id = store.idos.len() as u32;
                self.id = Some(id);
                store.idos.push(self.clone());
                id
            },
        };
        Ok(id)
    }

    pub fn id(&self) -> (r: u32)
        requires
            self.id is Some,
        ensures
            Some(r) == self.id,
    {
        self.id.unwrap()
    }

    pub fn is_stored(&self) -> (r: bool)
        ensures
            r == (self.id is Some),
    {
        self.id.is_some()
    }

    /// Whether the sale accepts purchases at `current_time`.
    pub fn is_active(&self, current_time: u64) -> (r: bool)
        ensures
            r == (current_time >= self.start_time && current_time < self.end_time),
    {
        current_time >= self.start_time && current_time < self.end_time
    }

    /// Whether payment is taken in the native token.
    pub fn is_native_payment(&self) -> (r: bool)
        ensures
            r == (self.payment_token_contract is None && self.payment_token_hash is None),
    {
        self.payment_token_contract.is_none() && self.payment_token_hash.is_none()
    }

    /// The tokens not sold yet.
    pub fn remaining_tokens(&self) -> (r: u128)
        requires
            self.sold_amount <= self.total_tokens_amount,
        ensures
            r == self.total_tokens_amount - self.sold_amount,
    {
        self.total_tokens_amount - self.sold_amount
    }

    /// What a buyer of `tier` may still purchase: the tier's pool, capped by
    /// the unsold remainder.
    pub fn remaining_tokens_per_tier(&self, tier: u8) -> (r: u128)
        requires
            1 <= tier,
            (tier - 1) < self.remaining_tokens_per_tier@.len(),
            self.sold_amount <= self.total_tokens_amount,
        ensures
            r == self.spec_remaining_per_tier(tier),
    {
        let tier_index = (tier - 1) as usize;
        let remaining_tokens_per_tier = self.remaining_tokens_per_tier[tier_index];
        let remaining_total_amount = self.remaining_tokens();
        if remaining_tokens_per_tier < remaining_total_amount {
            remaining_tokens_per_tier
        } else {
            remaining_total_amount
        }
    }

    /// The sale as an answer: its fields together with the capped remaining
    /// pool of each tier.
    pub fn to_answer(&self) -> (r: Result<crate::msg::QueryResponse, ContractError>)
        requires
            self.sold_amount <= self.total_tokens_amount,
            ido_payment_consistent(*self),
        ensures
            r matches Ok(q) && (q matches crate::msg::QueryResponse::IdoInfo {
                admin,
                start_time,
                end_time,
                token_contract,
                price,
                participants,
                payment,
                sold_amount,
                total_tokens_amount,
                total_payment,
                soft_cap,
                withdrawn,
                shared_whitelist,
                remaining_per_tiers,
            } && admin == self.admin && start_time == self.start_time && end_time == self.end_time
                && token_contract == self.token_contract && price == self.price && participants
                == self.participants && (match payment {
                crate::msg::PaymentMethod::Native => self.payment_token_contract is None,
                crate::msg::PaymentMethod::Token { contract, code_hash } => Some(contract)
                    == self.payment_token_contract && Some(code_hash) == self.payment_token_hash,
            }) && sold_amount == self.sold_amount && total_tokens_amount
                == self.total_tokens_amount && total_payment == self.total_payment && soft_cap
                == self.soft_cap && withdrawn == self.withdrawn && shared_whitelist
                == self.shared_whitelist && remaining_per_tiers@ =~= Seq::new(
                self.remaining_tokens_per_tier@.len(),
                |k: int|
                    {
                        let pool = self.remaining_tokens_per_tier@[k];
                        let rest = (self.total_tokens_amount - self.sold_amount) as u128;
                        if pool < rest {
                            pool
                        } else {
                            rest
                        }
                    },
            )),
    {
        let payment = if self.is_native_payment() {
            crate::msg::PaymentMethod::Native
        } else {
            let contract = match &self.payment_token_contract {
                Some(c) => c.clone(),
                None => {
                    proof {
                        assert(false);
                    }
                    String::new()
                },
            };
            let code_hash = match &self.payment_token_hash {
                Some(h) => h.clone(),
                None => {
                    proof {
                        assert(false);
                    }
                    String::new()
                },
            };
            crate::msg::PaymentMethod::Token { contract, code_hash }
        };
        let rest = self.total_tokens_amount - self.sold_amount;
        let mut remaining_per_tiers: Vec<u128> = Vec::new();
        let n = self.remaining_tokens_per_tier.len();
        let mut k: usize = 0;
        while k < n
            invariant
                0 <= k <= n,
                n == self.remaining_tokens_per_tier@.len(),
                rest == self.total_tokens_amount - self.sold_amount,
                remaining_per_tiers@ =~= Seq::new(
                    k as nat,
                    |j: int|
                        {
                            let pool = self.remaining_tokens_per_tier@[j];
                            if pool < rest {
                                pool
                            } else {
                                rest
                            }
                        },
                ),
            decreases n - k,
        {
            let pool = self.remaining_tokens_per_tier[k];
            let capped = if pool < rest {
                pool
            } else {
                rest
            };
            remaining_per_tiers.push(capped);
            k = k + 1;
        }
        Ok(
            crate::msg::QueryResponse::IdoInfo {
                admin: self.admin.clone(),
                start_time: self.start_time,
                end_time: self.end_time,
                token_contract: self.token_contract.clone(),
                price: self.price,
                participants: self.participants,
                payment,
                sold_amount: self.sold_amount,
                total_tokens_amount: self.total_tokens_amount,
                total_payment: self.total_payment,
                soft_cap: self.soft_cap,
                withdrawn: self.withdrawn,
                shared_whitelist: self.shared_whitelist,
                remaining_per_tiers,
            },
        )
    }

    /// The purchase cap for `tier`: `min(pool, total - sold)`.
    pub open spec fn spec_remaining_per_tier(self, tier: u8) -> int {
        let pool = self.remaining_tokens_per_tier@[tier - 1];
        let rest = self.total_tokens_amount - self.sold_amount;
        if pool < rest {
            pool as int
        } else {
            rest
        }
    }
}

// ---------------------------------------------------------------------------
// Store
// ---------------------------------------------------------------------------

/// Everything the contract persists.  The host owns durability and
/// atomicity: a failed call hands back the store unchanged.
#[derive(Debug)]
pub struct Store {
    pub config: Config,
    /// Sales, keyed by their sequential id.
    pub idos: Vec<Ido>,
    /// Live purchase queues, per buyer and sale.
    pub purchases: SaleMap<Vec<Purchase>>,
    /// Claimed purchases, per buyer and sale.
    pub archived_purchases: SaleMap<Vec<Purchase>>,
    /// Sales a buyer still has unclaimed purchases in.
    pub active_idos: SaleMap<bool>,
    /// Per-buyer, per-sale aggregates.
    pub ido_to_info: SaleMap<UserInfo>,
    /// Sales created by each admin.
    pub owner_to_idos: AddrMap<Vec<u32>>,
    /// Explicit allow/deny flags, per buyer and sale.
    pub whitelist: SaleMap<bool>,
    /// Global per-buyer aggregates.
    pub user_infos: AddrMap<UserInfo>,
    /// Tier-ladder deposits, per depositor.
    pub tier_user_infos: AddrMap<TierUserInfo>,
    /// Pending unbonding entries, per depositor.
    pub withdrawals: AddrMap<Vec<UserWithdrawal>>,
}

impl Store {
    pub open spec fn wf(self) -> bool {
        &&& self.config.wf()
        &&& self.idos@.len() <= u32::MAX
        &&& self.purchases.wf()
        &&& self.archived_purchases.wf()
        &&& self.active_idos.wf()
        &&& self.ido_to_info.wf()
        &&& self.owner_to_idos.wf()
        &&& self.whitelist.wf()
        &&& self.user_infos.wf()
        &&& self.tier_user_infos.wf()
        &&& self.withdrawals.wf()
        &&& self.tiers_wf()
    }

    /// Every tier record carries a tier of the configured ladder, and a
    /// promoted record holds exactly its tier's USD threshold — the worst
    /// tier holds nothing.
    pub open spec fn tiers_wf(self) -> bool {
        forall|a: Seq<char>|
            {
                let t = #[trigger] self.spec_tier_info(a);
                &&& 1 <= t.tier <= self.config.min_tier
                &&& t.tier < self.config.min_tier ==> t.usd_deposit
                    == self.config.usd_deposits@[t.tier - 1]
                &&& t.tier == self.config.min_tier ==> t.usd_deposit == 0
            }
    }

    /// The tier records of two stores with the same ladder read the same:
    /// well-formedness carries over.
    pub proof fn lemma_tiers_wf_unchanged(self, post: Store)
        requires
            self.tiers_wf(),
            post.tier_user_infos == self.tier_user_infos,
            post.config.min_tier == self.config.min_tier,
            post.config.usd_deposits@ == self.config.usd_deposits@,
        ensures
            post.tiers_wf(),
    {
        assert forall|a: Seq<char>|
            {
                let t = #[trigger] post.spec_tier_info(a);
                &&& 1 <= t.tier <= post.config.min_tier
                &&& t.tier < post.config.min_tier ==> t.usd_deposit
                    == post.config.usd_deposits@[t.tier - 1]
                &&& t.tier == post.config.min_tier ==> t.usd_deposit == 0
            } by {
            assert(post.spec_tier_info(a) == self.spec_tier_info(a));
        };
    }

    /// Replacing one depositor's record with a well-formed one keeps the
    /// tier records well-formed.
    pub proof fn lemma_tiers_wf_update(self, post: Store, who: Seq<char>, t: TierUserInfo)
        requires
            self.tiers_wf(),
            post.config.min_tier == self.config.min_tier,
            post.config.usd_deposits@ == self.config.usd_deposits@,
            forall|a: Seq<char>|
                a != who ==> post.tier_user_infos.spec_get(a) == self.tier_user_infos.spec_get(a),
            post.spec_tier_info(who) == t,
            1 <= t.tier <= post.config.min_tier,
            t.tier < post.config.min_tier ==> t.usd_deposit == post.config.usd_deposits@[t.tier
                - 1],
            t.tier == post.config.min_tier ==> t.usd_deposit == 0,
        ensures
            post.tiers_wf(),
    {
        assert forall|a: Seq<char>|
            {
                let u = #[trigger] post.spec_tier_info(a);
                &&& 1 <= u.tier <= post.config.min_tier
                &&& u.tier < post.config.min_tier ==> u.usd_deposit
                    == post.config.usd_deposits@[u.tier - 1]
                &&& u.tier == post.config.min_tier ==> u.usd_deposit == 0
            } by {
            if a != who {
                assert(post.spec_tier_info(a) == self.spec_tier_info(a));
            }
        };
    }

    /// The stored sale, if any.
    pub open spec fn spec_ido_opt(self, id: u32) -> Option<Ido> {
        if (id as int) < self.idos@.len() {
            Some(self.idos@[id as int])
        } else {
            None
        }
    }

    /// Whether the sale exists and accepts purchases at `now`.
    pub open spec fn spec_ido_active(self, id: u32, now: u64) -> bool {
        match self.spec_ido_opt(id) {
            Some(ido) => now >= ido.start_time && now < ido.end_time,
            None => false,
        }
    }

    /// The buyer's global aggregate, zero when absent.
    pub open spec fn spec_user_info(self, a: Seq<char>) -> UserInfo {
        match self.user_infos.spec_get(a) {
            Some(u) => u,
            None => UserInfo { total_payment: 0, total_tokens_bought: 0, total_tokens_received: 0 },
        }
    }

    /// The buyer's per-sale aggregate, zero when absent.
    pub open spec fn spec_sale_info(self, a: Seq<char>, id: u32) -> UserInfo {
        match self.ido_to_info.spec_get(a, id) {
            Some(u) => u,
            None => UserInfo { total_payment: 0, total_tokens_bought: 0, total_tokens_received: 0 },
        }
    }

    /// The buyer's live purchase queue in a sale, empty when absent.
    pub open spec fn spec_purchases(self, a: Seq<char>, id: u32) -> Seq<Purchase> {
        match self.purchases.spec_get(a, id) {
            Some(v) => v@,
            None => Seq::empty(),
        }
    }

    /// The buyer's archived purchases in a sale, empty when absent.
    pub open spec fn spec_archived(self, a: Seq<char>, id: u32) -> Seq<Purchase> {
        match self.archived_purchases.spec_get(a, id) {
            Some(v) => v@,
            None => Seq::empty(),
        }
    }

    /// The depositor's pending withdrawals, empty when absent.
    pub open spec fn spec_withdrawals(self, a: Seq<char>) -> Seq<UserWithdrawal> {
        match self.withdrawals.spec_get(a) {
            Some(v) => v@,
            None => Seq::empty(),
        }
    }

    /// The depositor's tier record; an absent one reads as the worst tier
    /// with nothing deposited.
    pub open spec fn spec_tier_info(self, a: Seq<char>) -> TierUserInfo {
        match self.tier_user_infos.spec_get(a) {
            Some(t) => t,
            None => TierUserInfo {
                tier: self.config.min_tier,
                timestamp: 0,
                usd_deposit: 0,
                orai_deposit: 0,
            },
        }
    }

    /// The whitelist answer: the explicit flag when present, the sale's
    /// shared-whitelist default otherwise.
    pub open spec fn spec_in_whitelist(self, a: Seq<char>, id: u32) -> bool {
        match self.whitelist.spec_get(a, id) {
            Some(b) => b,
            None => match self.spec_ido_opt(id) {
                Some(ido) => ido.shared_whitelist,
                None => false,
            },
        }
    }

    /// The sale ids created by an admin, empty when absent.
    pub open spec fn spec_owner_idos(self, a: Seq<char>) -> Seq<u32> {
        match self.owner_to_idos.spec_get(a) {
            Some(v) => v@,
            None => Seq::empty(),
        }
    }
}

} // verus!
