//! The Dexter adapter: multihop swap requests built from swap operations whose pools
//! are numbered, the checks of a swap, and the spot price as the product of the
//! pools' prices.

use vstd::prelude::*;
use crate::asset::{one_coin, spec_one_coin, Coin};
use crate::decimal::{parse_u64, spec_parse_u64, Decimal, DECIMAL_FRACTIONAL};
use crate::error::ContractError;
use crate::spot_price::{price_product, spec_price_product};
use crate::swap::{check_caller, pools_are_numbers, SwapOperation};

verus! {

/// One hop of a Dexter multihop swap: a pool by number and the native denominations
/// in and out.
#[derive(Debug, Clone, PartialEq, Eq)]
pub struct HopSwapRequest {
    pub pool_id: u128,
    pub asset_in: String,
    pub asset_out: String,
}

/// `v` are the vault's hop requests for `ops`: hop by hop, the pool's number and
/// the denominations in and out.
pub open spec fn requests_of(v: Seq<HopSwapRequest>, ops: Seq<SwapOperation>) -> bool {
    &&& v.len() == ops.len()
    &&& forall|i: int| 0 <= i < ops.len() ==> (#[trigger] v[i]).pool_id == spec_parse_u64(ops[i].pool@)->Some_0
        && v[i].asset_in@ == ops[i].denom_in@ && v[i].asset_out@ == ops[i].denom_out@
}

/// The hop requests for `ops`; a pool identifier that is not a `u64` number gives
/// `bad_pool`.
pub fn hop_swap_requests(ops: &Vec<SwapOperation>, bad_pool: ContractError) -> (r: Result<Vec<HopSwapRequest>, ContractError>)
    ensures
        pools_are_numbers(ops@) ==> (r matches Ok(v) && requests_of(v@, ops@)),
        !pools_are_numbers(ops@) ==> r == Err::<Vec<HopSwapRequest>, ContractError>(bad_pool),
{
    let mut v: Vec<HopSwapRequest> = Vec::new();
    let mut i: usize = 0;
    while i < ops.len()
        invariant
            0 <= i <= ops.len(),
            v@.len() == i,
            forall|j: int| 0 <= j < i ==> (#[trigger] spec_parse_u64(ops@[j].pool@)) is Some,
            forall|j: int| 0 <= j < i ==> (#[trigger] v@[j]).pool_id == spec_parse_u64(ops@[j].pool@)->Some_0
                && v@[j].asset_in@ == ops@[j].denom_in@ && v@[j].asset_out@ == ops@[j].denom_out@,
        decreases ops.len() - i,
    {
        let pool_id = match parse_u64(ops[i].pool.as_str()) {
            Some(p) => p,
            None => {
                return Err(bad_pool);
            },
        };
        v.push(HopSwapRequest { pool_id: pool_id as u128, asset_in: ops[i].denom_in.clone(), asset_out: ops[i].denom_out.clone() });
        i = i + 1;
    }
    Ok(v)
}

/// What a swap message with native funds must carry: hops, and exactly one non-zero
/// coin in the first hop's denomination.
pub fn check_swap_funds(ops: &Vec<SwapOperation>, funds: &Vec<Coin>) -> (r: Result<Coin, ContractError>)
    ensures
        ops@.len() == 0 ==> r == Err::<Coin, ContractError>(ContractError::SwapOperationsEmpty),
        ops@.len() > 0 ==> match spec_one_coin(funds@) {
            Err(e) => r == Err::<Coin, ContractError>(ContractError::Payment(e)),
            Ok(c) => if c.denom@ != ops@[0].denom_in@ {
                r == Err::<Coin, ContractError>(ContractError::CoinInDenomMismatch)
            } else {
                r matches Ok(k) && k.denom@ == c.denom@ && k.amount == c.amount
            },
        },
{
    if ops.len() == 0 {
        return Err(ContractError::SwapOperationsEmpty);
    }
    let coin = match one_coin(funds) {
        Ok(c) => c,
        Err(e) => {
            return Err(ContractError::Payment(e));
        },
    };
    if coin.denom != ops[0].denom_in {
        return Err(ContractError::CoinInDenomMismatch);
    }
    Ok(coin)
}

/// The multihop swap that the adapter sends to the router.
#[derive(Debug, Clone, PartialEq, Eq)]
pub struct DexterSwap {
    pub requests: Vec<HopSwapRequest>,
    pub offer_amount: u128,
    pub denom_in: String,
    pub return_denom: String,
}

/// The swap that the adapter dispatches for the entry point contract: the caller
/// must be the entry point; the hops' pools must be numbers; there must be hops (the
/// contract aborts when a CW20 hook brings none).
pub fn execute_swap(sender: &str, entry_point: &str, amount_in: u128, ops: &Vec<SwapOperation>) -> (r: Result<DexterSwap, ContractError>)
    ensures
        sender@ != entry_point@ ==> r == Err::<DexterSwap, ContractError>(ContractError::Unauthorized),
        sender@ == entry_point@ && !pools_are_numbers(ops@) ==> r == Err::<DexterSwap, ContractError>(
            ContractError::PoolIdParseError,
        ),
        sender@ == entry_point@ && pools_are_numbers(ops@) && ops@.len() == 0 ==> r == Err::<DexterSwap, ContractError>(
            ContractError::Aborted,
        ),
        sender@ == entry_point@ && pools_are_numbers(ops@) && ops@.len() > 0 ==> (r matches Ok(s)
            && requests_of(s.requests@, ops@) && s.offer_amount == amount_in && s.denom_in@ == ops@[0].denom_in@
            && s.return_denom@ == ops@.last().denom_out@),
{
    check_caller(sender, entry_point)?;
    let requests = hop_swap_requests(ops, ContractError::PoolIdParseError)?;
    let n = ops.len();
    if n == 0 {
        return Err(ContractError::Aborted);
    }
    Ok(DexterSwap {
        requests,
        offer_amount: amount_in,
        denom_in: ops[0].denom_in.clone(),
        return_denom: ops[n - 1].denom_out.clone(),
    })
}

/// The spot price of a swap: the product of the pools' prices including fees (the
/// contract aborts when it overflows).
pub fn calculate_spot_price(prices: &Vec<Decimal>) -> (r: Result<Decimal, ContractError>)
    ensures
        match spec_price_product(Decimal { atomics: DECIMAL_FRACTIONAL }, prices@, false) {
            Some(p) => r == Ok::<Decimal, ContractError>(p),
            None => r == Err::<Decimal, ContractError>(ContractError::Aborted),
        },
{
    match price_product(prices, false) {
        Some(p) => Ok(p),
        None => Err(ContractError::Aborted),
    }
}

/// The asset that a simulated swap gives, from the router's answer: when it
/// succeeded, the amount received at the last hop in that hop's denomination.
pub fn simulated_asset_out(success: bool, hops: &Vec<(String, u128)>) -> (r: Result<Coin, ContractError>)
    ensures
        !success ==> r == Err::<Coin, ContractError>(ContractError::SimulationError),
        success && hops@.len() == 0 ==> r == Err::<Coin, ContractError>(ContractError::Aborted),
        success && hops@.len() > 0 ==> (r matches Ok(c) && c.denom@ == hops@.last().0@ && c.amount == hops@.last().1),
{
    if !success {
        return Err(ContractError::SimulationError);
    }
    let n = hops.len();
    if n == 0 {
        return Err(ContractError::Aborted);
    }
    Ok(Coin { denom: hops[n - 1].0.clone(), amount: hops[n - 1].1 })
}

/// The asset that a simulated swap for an exact amount out needs, from the router's
/// answer: when it succeeded, the amount offered at the first hop in its
/// denomination.
pub fn simulated_asset_in(success: bool, hops: &Vec<(String, u128)>) -> (r: Result<Coin, ContractError>)
    ensures
        !success ==> r == Err::<Coin, ContractError>(ContractError::SimulationError),
        success && hops@.len() == 0 ==> r == Err::<Coin, ContractError>(ContractError::Aborted),
        success && hops@.len() > 0 ==> (r matches Ok(c) && c.denom@ == hops@[0].0@ && c.amount == hops@[0].1),
{
    if !success {
        return Err(ContractError::SimulationError);
    }
    if hops.len() == 0 {
        return Err(ContractError::Aborted);
    }
    Ok(Coin { denom: hops[0].0.clone(), amount: hops[0].1 })
}

} // verus!
