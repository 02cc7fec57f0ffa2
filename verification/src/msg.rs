//! Inbound commands, outbound answers, and the ledger operations a call
//! emits.  All monetary amounts are plain unsigned 128-bit integers in the
//! smallest denomination of the respective token; USD amounts carry 18
//! decimal places.

use vstd::prelude::*;

verus! {

#[derive(Clone, Copy, Debug, PartialEq, Eq, Structural)]
pub enum ResponseStatus {
    Success,
    Failure,
}

#[derive(Clone, Copy, Debug, PartialEq, Eq, Structural)]
pub enum ContractStatus {
    Active,
    Stopped,
}

impl ContractStatus {
    /// The persisted encoding of the status.
    pub open spec fn spec_code(self) -> u8 {
        match self {
            ContractStatus::Active => 0,
            ContractStatus::Stopped => 1,
        }
    }

    pub fn code(self) -> (r: u8)
        ensures
            r == self.spec_code(),
    {
        match self {
            ContractStatus::Active => 0,
            ContractStatus::Stopped => 1,
        }
    }
}

#[derive(Debug)]
pub struct NftToken {
    pub token_id: String,
    pub viewing_key: String,
}

#[derive(Debug)]
pub struct ValidatorWithWeight {
    pub address: String,
    pub weight: u128,
}

impl Clone for ValidatorWithWeight {
    fn clone(&self) -> (r: ValidatorWithWeight)
        ensures
            r == *self,
    {
        ValidatorWithWeight { address: self.address.clone(), weight: self.weight }
    }
}

#[derive(Debug)]
pub struct OraiswapContract {
    pub orai_contract: String,
    pub usdt_contract: String,
}

impl Clone for OraiswapContract {
    fn clone(&self) -> (r: OraiswapContract)
        ensures
            r == *self,
    {
        OraiswapContract {
            orai_contract: self.orai_contract.clone(),
            usdt_contract: self.usdt_contract.clone(),
        }
    }
}

/// A native coin attached to a call, as the host hands it in.
#[derive(Debug)]
pub struct Coin {
    pub denom: String,
    pub amount: u128,
}

impl Clone for Coin {
    fn clone(&self) -> (r: Coin)
        ensures
            r == *self,
    {
        Coin { denom: self.denom.clone(), amount: self.amount }
    }
}

#[derive(Debug)]
pub struct InstantiateMsg {
    pub admin: Option<String>,
    pub lock_periods: Vec<u64>,
    pub nft_contract: String,
    pub validator: String,
    pub deposits: Vec<u128>,
    pub oraiswap_contract: OraiswapContract,
}

#[derive(Debug)]
pub enum PaymentMethod {
    Native,
    Token { contract: String, code_hash: String },
}

#[derive(Debug)]
pub enum Whitelist {
    Empty { with: Option<Vec<String>> },
    Shared { with_blocked: Option<Vec<String>> },
}

#[derive(Debug)]
pub enum ExecuteMsg {
    ChangeAdmin {
        admin: String,
        padding: Option<String>,
    },
    ChangeStatus {
        status: ContractStatus,
        padding: Option<String>,
    },
    StartIdo {
        start_time: u64,
        end_time: u64,
        token_contract: String,
        price: u128,
        soft_cap: u128,
        payment: PaymentMethod,
        total_amount: u128,
        tokens_per_tier: Vec<u128>,
        padding: Option<String>,
        whitelist: Whitelist,
    },
    WhitelistAdd {
        addresses: Vec<String>,
        ido_id: u32,
        padding: Option<String>,
    },
    WhitelistRemove {
        addresses: Vec<String>,
        ido_id: u32,
        padding: Option<String>,
    },
    BuyTokens {
        ido_id: u32,
        amount: u128,
        viewing_key: Option<String>,
        padding: Option<String>,
    },
    RecvTokens {
        ido_id: u32,
        start: Option<u32>,
        limit: Option<u32>,
        purchase_indices: Option<Vec<u32>>,
        padding: Option<String>,
    },
    Withdraw {
        ido_id: u32,
        padding: Option<String>,
    },
    Deposit {
        padding: Option<String>,
    },
    WithdrawFromTier {
        padding: Option<String>,
    },
    Claim {
        recipient: Option<String>,
        start: Option<u32>,
        limit: Option<u32>,
        padding: Option<String>,
    },
    WithdrawRewards {
        recipient: Option<String>,
        padding: Option<String>,
    },
    Redelegate {
        validator_address: String,
        recipient: Option<String>,
        padding: Option<String>,
    },
}

#[derive(Clone, Copy, Debug, PartialEq, Eq, Structural)]
pub enum ExecuteResponse {
    ChangeAdmin { status: ResponseStatus },
    ChangeStatus { status: ResponseStatus },
    StartIdo { ido_id: u32, status: ResponseStatus },
    WhitelistAdd { status: ResponseStatus },
    WhitelistRemove { status: ResponseStatus },
    BuyTokens { amount: u128, unlock_time: u64, status: ResponseStatus },
    RecvTokens { amount: u128, status: ResponseStatus, ido_success: bool },
    Withdraw { ido_amount: u128, payment_amount: u128, status: ResponseStatus },
    Deposit { usd_deposit: u128, orai_deposit: u128, tier: u8, status: ResponseStatus },
    WithdrawFromTier { status: ResponseStatus },
    Claim { amount: u128, status: ResponseStatus },
    WithdrawRewards { amount: u128, status: ResponseStatus },
    Redelegate { amount: u128, status: ResponseStatus },
}

#[derive(Debug)]
pub enum QueryMsg {
    Config {},
    IdoAmount {},
    IdoInfo { ido_id: u32 },
    InWhitelist { address: String, ido_id: u32 },
    IdoListOwnedBy { address: String, start: u32, limit: u32 },
    Purchases { ido_id: u32, address: String, start: Option<u32>, limit: Option<u32> },
    ArchivedPurchases { ido_id: u32, address: String, start: u32, limit: u32 },
    UserInfo { address: String, ido_id: Option<u32> },
    TierUserInfo { address: String },
    Withdrawals { address: String, start: Option<u32>, limit: Option<u32> },
}

#[derive(Clone, Copy, Debug, PartialEq, Eq, Structural)]
pub struct PurchaseAnswer {
    pub tokens_amount: u128,
    pub timestamp: u64,
    pub unlock_time: u64,
}

#[derive(Clone, Copy, Debug, PartialEq, Eq, Structural)]
pub struct SerializedWithdrawals {
    pub amount: u128,
    pub claim_time: u64,
    pub timestamp: u64,
}

#[derive(Debug, PartialEq)]
pub enum QueryResponse {
    Config {
        admin: String,
        nft_contract: String,
        lock_periods: Vec<u64>,
        validator: String,
        status: u8,
        usd_deposits: Vec<u128>,
        min_tier: u8,
    },
    IdoAmount {
        amount: u32,
    },
    IdoInfo {
        admin: String,
        start_time: u64,
        end_time: u64,
        token_contract: String,
        price: u128,
        participants: u64,
        payment: PaymentMethod,
        sold_amount: u128,
        total_tokens_amount: u128,
        total_payment: u128,
        soft_cap: u128,
        withdrawn: bool,
        shared_whitelist: bool,
        remaining_per_tiers: Vec<u128>,
    },
    InWhitelist {
        in_whitelist: bool,
    },
    IdoListOwnedBy {
        ido_ids: Vec<u32>,
        amount: u32,
    },
    Purchases {
        purchases: Vec<PurchaseAnswer>,
        amount: u32,
    },
    ArchivedPurchases {
        purchases: Vec<PurchaseAnswer>,
        amount: u32,
    },
    UserInfo {
        total_payment: u128,
        total_tokens_bought: u128,
        total_tokens_received: u128,
    },
    TierUserInfo {
        tier: u8,
        timestamp: u64,
        usd_deposit: u128,
        orai_deposit: u128,
    },
    TierInfo {
        tier: u8,
        nft_tier: u8,
    },
    Withdrawals {
        amount: u32,
        withdrawals: Vec<SerializedWithdrawals>,
    },
}

impl PartialEq for PaymentMethod {
    fn eq(&self, other: &PaymentMethod) -> (r: bool) {
        match (self, other) {
            (PaymentMethod::Native, PaymentMethod::Native) => true,
            (
                PaymentMethod::Token { contract: c1, code_hash: h1 },
                PaymentMethod::Token { contract: c2, code_hash: h2 },
            ) => *c1 == *c2 && *h1 == *h2,
            _ => false,
        }
    }
}

impl vstd::std_specs::cmp::PartialEqSpecImpl for PaymentMethod {
    open spec fn obeys_eq_spec() -> bool {
        true
    }

    open spec fn eq_spec(&self, other: &PaymentMethod) -> bool {
        match (self, other) {
            (PaymentMethod::Native, PaymentMethod::Native) => true,
            (
                PaymentMethod::Token { contract: c1, code_hash: h1 },
                PaymentMethod::Token { contract: c2, code_hash: h2 },
            ) => c1@ == c2@ && h1@ == h2@,
            _ => false,
        }
    }
}

/// One ledger operation the host must execute, in order, after the call
/// returns successfully.  A rejected operation rolls the whole transaction
/// back, including the store mutations of the call that emitted it.
#[derive(Debug, PartialEq)]
pub enum LedgerOp {
    /// Move `amount` units of the token administered by `token_contract`
    /// from `from` to `to`.
    TokenTransfer { token_contract: String, from: String, to: String, amount: u128 },
    /// Send `amount` of the native token to `to`.
    BankSend { to: String, amount: u128 },
    /// Stake `amount` of the native token with `validator`.
    Delegate { validator: String, amount: u128 },
    /// Start unbonding `amount` of the native token from `validator`.
    Undelegate { validator: String, amount: u128 },
    /// Move a delegation of `amount` between validators.
    Redelegate { src_validator: String, dst_validator: String, amount: u128 },
    /// Withdraw the accumulated delegation rewards from `validator`.
    WithdrawDelegatorReward { validator: String },
}

/// What the host's delegation query returned, handed in as a plain value.
#[derive(Debug)]
pub struct Delegation {
    pub validator: String,
    /// Currently delegated amount of the native token.
    pub amount: u128,
    /// The part of the delegation that may be redelegated right now.
    pub can_redelegate: u128,
    /// Accumulated rewards in the native token.
    pub accumulated_rewards: u128,
}

/// Outcome of the host's delegation query.
#[derive(Debug)]
pub enum DelegationQuery {
    /// The query itself failed.
    Failed,
    /// The query succeeded and found no delegation.
    Missing,
    /// The query succeeded and found this delegation.
    Found(Delegation),
}

} // verus!
