//! Native/USD conversion.  The host queries the swap contract for the
//! current quote and hands the quoted amount in; everything else — the query
//! message itself and the fixed-point conversion arithmetic — is computed
//! here.

use crate::msg::OraiswapContract;
use vstd::prelude::*;

verus! {

/// USD amounts carry this many decimal places.
pub const DECIMALS: u8 = 18;

/// One USD in its smallest (18-decimal) denomination.
pub const ONE_USD: u128 = 1_000_000_000_000_000_000;

/// The amount of native micro-tokens offered to the swap contract when
/// asking for a quote.
pub const QUOTE_OFFER_AMOUNT: u128 = 1_000_000;

/// The price oracle: a conversion rate obtained from the swap contract's
/// quote, fixed for the duration of one call.
pub struct BandProtocol {
    orai_per_usd: u128,
}

impl BandProtocol {
    /// The stored conversion rate.
    pub closed spec fn rate(self) -> u128 {
        self.orai_per_usd
    }

    /// Builds the oracle from the swap contract's quote for
    /// [`QUOTE_OFFER_AMOUNT`] of the native token.
    pub fn new(quote: u128) -> (r: Self)
        requires
            quote > 0,
        ensures
            r.rate() == QUOTE_OFFER_AMOUNT as int / quote as int,
    {
        BandProtocol { orai_per_usd: QUOTE_OFFER_AMOUNT / quote }
    }

    /// The USD value of `usei` native micro-tokens, rounded down.
    pub open spec fn spec_usd_amount(self, usei: u128) -> int {
        usei * self.rate() / (ONE_USD as int)
    }

    /// The native micro-token value of `usd`, rounded down.
    pub open spec fn spec_orai_amount(self, usd: u128) -> int {
        usd * (ONE_USD as int) / (self.rate() as int)
    }

    pub fn usd_amount(&self, usei: u128) -> (r: u128)
        requires
            usei * self.rate() <= u128::MAX,
        ensures
            r == self.spec_usd_amount(usei),
    {
        usei * self.orai_per_usd / ONE_USD
    }

    pub fn orai_amount(&self, usd: u128) -> (r: u128)
        requires
            usd * ONE_USD <= u128::MAX,
            self.rate() > 0,
        ensures
            r == self.spec_orai_amount(usd),
    {
        usd * ONE_USD / self.orai_per_usd
    }

    /// As [`Self::usd_amount`], but reports overflow instead of demanding
    /// its absence.
    pub fn checked_usd_amount(&self, usei: u128) -> (r: Option<u128>)
        ensures
            usei * self.rate() <= u128::MAX ==> r == Some((self.spec_usd_amount(usei)) as u128),
            usei * self.rate() > u128::MAX ==> r is None,
    {
        match usei.checked_mul(self.orai_per_usd) {
            Some(v) => Some(v / ONE_USD),
            None => None,
        }
    }

    /// As [`Self::orai_amount`], but reports overflow and a zero rate
    /// instead of demanding their absence.
    pub fn checked_orai_amount(&self, usd: u128) -> (r: Option<u128>)
        ensures
            usd * ONE_USD <= u128::MAX && self.rate() > 0 ==> r == Some(
                (self.spec_orai_amount(usd)) as u128,
            ),
            usd * ONE_USD > u128::MAX || self.rate() == 0 ==> r is None,
    {
        match usd.checked_mul(ONE_USD) {
            Some(v) => v.checked_div(self.orai_per_usd),
            None => None,
        }
    }

    /// The message that asks the swap contract for the quote this oracle is
    /// built from: swap [`QUOTE_OFFER_AMOUNT`] of the native token for the
    /// configured USDT token.
    pub fn rate_query(oraiswap: &OraiswapContract) -> (r: SwapContractMessage)
        ensures
            r.simulate_swap_operations.offer_amount == QUOTE_OFFER_AMOUNT,
            r.simulate_swap_operations.operations@.len() == 1,
            r.simulate_swap_operations.operations@[0].orai_swap.offer_asset_info.native_token.denom@
                == "orai"@,
            r.simulate_swap_operations.operations@[0].orai_swap.ask_asset_info.token.contract_addr
                == oraiswap.usdt_contract,
    {
        broadcast use vstd::string::to_string_from_display_ensures_for_str;

        let native_token = NativeToken::new("orai".to_string());
        let offer_asset_info = OfferAssetInfo::new(native_token);
        SwapContractMessage {
            simulate_swap_operations: SwapCtrMessageContent {
                offer_amount: QUOTE_OFFER_AMOUNT,
                operations: vec![
                    Operation {
                        orai_swap: OraiSwap {
                            offer_asset_info,
                            ask_asset_info: AskAssetInfo {
                                token: UsdtContractAddr {
                                    contract_addr: oraiswap.usdt_contract.clone(),
                                },
                            },
                        },
                    },
                ],
            },
        }
    }
}

#[derive(Debug)]
pub struct NativeToken {
    pub denom: String,
}

impl NativeToken {
    pub fn new(native_token_denom: String) -> (r: Self)
        ensures
            r.denom == native_token_denom,
    {
        NativeToken { denom: native_token_denom }
    }
}

#[derive(Debug)]
pub struct OfferAssetInfo {
    pub native_token: NativeToken,
}

impl OfferAssetInfo {
    pub fn new(native_token: NativeToken) -> (r: Self)
        ensures
            r.native_token == native_token,
    {
        OfferAssetInfo { native_token }
    }
}

#[derive(Debug)]
pub struct UsdtContractAddr {
    pub contract_addr: String,
}

#[derive(Debug)]
pub struct AskAssetInfo {
    pub token: UsdtContractAddr,
}

#[derive(Debug)]
pub struct OraiSwap {
    pub offer_asset_info: OfferAssetInfo,
    pub ask_asset_info: AskAssetInfo,
}

#[derive(Debug)]
pub struct Operation {
    pub orai_swap: OraiSwap,
}

#[derive(Debug)]
pub struct SwapCtrMessageContent {
    pub offer_amount: u128,
    pub operations: Vec<Operation>,
}

#[derive(Debug)]
pub struct SwapContractMessage {
    pub simulate_swap_operations: SwapCtrMessageContent,
}

#[derive(Debug)]
pub struct Amount {
    pub amount: u128,
}

#[derive(Debug)]
pub struct ChangeRateResponse {
    pub data: Amount,
}

} // verus!
