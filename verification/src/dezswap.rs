//! The Dezswap adapter: a swap is dispatched as one pool swap per hop, sent by the
//! adapter to itself, each offering the adapter's whole balance of the hop's
//! `denom_in` to the hop's pair.

use vstd::prelude::*;
use crate::asset::{Asset, Coin};
use crate::decimal::Decimal;
use crate::error::ContractError;
use crate::spot_price::{max_allowed_slippage, max_spread_atomics};
use crate::swap::{check_caller, SwapOperation};

verus! {

/// The hops of a swap, each to be run as a pool swap by the adapter itself, and the
/// transfer back of the last hop's denomination to the entry point.
#[derive(Debug, Clone, PartialEq, Eq)]
pub struct DezswapSwapPlan {
    pub hops: Vec<SwapOperation>,
    pub swapper: String,
    pub return_denom: String,
}

/// The swap that the adapter dispatches for the entry point contract: one pool swap
/// per hop, then the transfer back to the entry point.
pub fn execute_swap(sender: &str, entry_point: &str, ops: Vec<SwapOperation>) -> (r: Result<DezswapSwapPlan, ContractError>)
    ensures
        sender@ != entry_point@ ==> r == Err::<DezswapSwapPlan, ContractError>(ContractError::Unauthorized),
        sender@ == entry_point@ && ops@.len() == 0 ==> r == Err::<DezswapSwapPlan, ContractError>(
            ContractError::SwapOperationsEmpty,
        ),
        sender@ == entry_point@ && ops@.len() > 0 ==> (r matches Ok(p) && p.hops == ops && p.swapper@ == entry_point@
            && p.return_denom@ == ops@.last().denom_out@),
{
    check_caller(sender, entry_point)?;
    let n = ops.len();
    if n == 0 {
        return Err(ContractError::SwapOperationsEmpty);
    }
    let return_denom = ops[n - 1].denom_out.clone();
    Ok(DezswapSwapPlan { hops: ops, swapper: entry_point.to_owned(), return_denom })
}

/// A pool swap: a native coin sent to the pair with its swap message, or a CW20
/// amount sent by the token contract to the pair with the swap hook; both with the
/// maximum spread of 50%.
#[derive(Debug, Clone, PartialEq, Eq)]
pub enum DezswapPoolSwap {
    Native { pair: String, coin: Coin, max_spread: Decimal },
    Cw20 { token: String, pair: String, amount: u128, max_spread: Decimal },
}

/// One hop's pool swap, run by the adapter itself (`sender` must be `contract`):
/// `offer_asset` is the adapter's whole balance of the hop's `denom_in`, which must
/// not be zero.
pub fn execute_dezswap_pool_swap(sender: &str, contract: &str, op: &SwapOperation, offer_asset: Asset) -> (r: Result<
    DezswapPoolSwap,
    ContractError,
>)
    ensures
        sender@ != contract@ ==> r == Err::<DezswapPoolSwap, ContractError>(ContractError::Unauthorized),
        sender@ == contract@ && offer_asset.spec_amount() == 0 ==> r == Err::<DezswapPoolSwap, ContractError>(
            ContractError::NoOfferAssetAmount,
        ),
        sender@ == contract@ && offer_asset.spec_amount() > 0 ==> match offer_asset {
            Asset::Native(c) => r matches Ok(DezswapPoolSwap::Native { pair, coin, max_spread }) && pair@ == op.pool@
                && coin == c && max_spread.atomics == max_spread_atomics(),
            Asset::Cw20(c) => r matches Ok(DezswapPoolSwap::Cw20 { token, pair, amount, max_spread }) && token
                == c.address && pair@ == op.pool@ && amount == c.amount && max_spread.atomics == max_spread_atomics(),
        },
{
    check_caller(sender, contract)?;
    if offer_asset.amount() == 0 {
        return Err(ContractError::NoOfferAssetAmount);
    }
    match offer_asset {
        Asset::Native(c) => Ok(DezswapPoolSwap::Native { pair: op.pool.clone(), coin: c, max_spread: max_allowed_slippage() }),
        Asset::Cw20(c) => Ok(
            DezswapPoolSwap::Cw20 {
                token: c.address,
                pair: op.pool.clone(),
                amount: c.amount,
                max_spread: max_allowed_slippage(),
            },
        ),
    }
}

} // verus!
