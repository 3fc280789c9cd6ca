//! The Injective swap contract adapter: its messages and queries, and the checks
//! that the adapter makes before it sends them.

use vstd::prelude::*;
use crate::asset::{one_coin, spec_one_coin, Asset, Coin};
use crate::error::ContractError;
use crate::swap::{check_caller, spec_check_exact_in, spec_check_exact_out, spec_sum, check_exact_in, check_exact_out, SwapOperation};

verus! {

/// The messages of the Injective swap contract.
#[derive(Debug, Clone, PartialEq, Eq)]
pub enum InjectiveExecuteMsg {
    SwapMinOutput { target_denom: String, min_output_quantity: String },
    SwapExactOutput { target_denom: String, target_output_quantity: String },
    SetRoute { source_denom: String, target_denom: String, route: Vec<String> },
}

/// The queries of the Injective swap contract.
#[derive(Debug, Clone, PartialEq, Eq)]
pub enum InjectiveQueryMsg {
    GetOutputQuantity { from_quantity: u128, source_denom: String, target_denom: String },
    GetInputQuantity { to_quantity: u128, source_denom: String, target_denom: String },
}

/// The answer to `GetOutputQuantity`.
#[derive(Debug, Clone, PartialEq, Eq)]
pub struct OutputQuantityResponse {
    pub quantity: u128,
}

/// The answer to `GetInputQuantity`.
#[derive(Debug, Clone, PartialEq, Eq)]
pub struct InputQuantityResponse {
    pub quantity: u128,
}

/// The swap that the adapter dispatches for the entry point contract: exactly one
/// non-zero coin, and hops; the swap asks for any amount of the last hop's
/// denomination (the entry point checks the minimum).
pub fn execute_swap(sender: &str, entry_point: &str, funds: &Vec<Coin>, ops: &Vec<SwapOperation>) -> (r: Result<(Coin, InjectiveExecuteMsg), ContractError>)
    ensures
        sender@ != entry_point@ ==> r == Err::<(Coin, InjectiveExecuteMsg), ContractError>(ContractError::Unauthorized),
        sender@ == entry_point@ ==> match spec_one_coin(funds@) {
            Err(e) => r == Err::<(Coin, InjectiveExecuteMsg), ContractError>(ContractError::Payment(e)),
            Ok(c) => if ops@.len() == 0 {
                r == Err::<(Coin, InjectiveExecuteMsg), ContractError>(ContractError::SwapOperationsEmpty)
            } else {
                r matches Ok((k, InjectiveExecuteMsg::SwapMinOutput { target_denom, min_output_quantity }))
                    && k.denom@ == c.denom@ && k.amount == c.amount && target_denom@ == ops@.last().denom_out@
                    && min_output_quantity@ == "0"@
            },
        },
{
    check_caller(sender, entry_point)?;
    let coin_in = match one_coin(funds) {
        Ok(c) => c,
        Err(e) => {
            return Err(ContractError::Payment(e));
        },
    };
    if coin_in.amount == 0 {
        return Err(ContractError::InvalidNativeCoin);
    }
    let n = ops.len();
    if n == 0 {
        return Err(ContractError::SwapOperationsEmpty);
    }
    let target_denom = ops[n - 1].denom_out.clone();
    let msg = InjectiveExecuteMsg::SwapMinOutput { target_denom, min_output_quantity: "0".to_owned() };
    Ok((coin_in, msg))
}

/// The query for the output of a swap of `asset_in` through `ops`.
pub fn output_quantity_query(asset_in: &Asset, ops: &Vec<SwapOperation>) -> (r: Result<InjectiveQueryMsg, ContractError>)
    ensures
        match spec_check_exact_in(asset_in.spec_denom(), ops@) {
            Err(e) => r == Err::<InjectiveQueryMsg, ContractError>(e),
            Ok(_) => r matches Ok(InjectiveQueryMsg::GetOutputQuantity { from_quantity, source_denom, target_denom })
                && from_quantity == asset_in.spec_amount() && source_denom@ == asset_in.spec_denom()
                && target_denom@ == ops@.last().denom_out@,
        },
{
    check_exact_in(asset_in.denom(), ops)?;
    let n = ops.len();
    Ok(InjectiveQueryMsg::GetOutputQuantity {
        from_quantity: asset_in.amount(),
        source_denom: asset_in.denom().to_owned(),
        target_denom: ops[n - 1].denom_out.clone(),
    })
}

/// The query for the input of a swap for `asset_out` through `ops`.
pub fn input_quantity_query(asset_out: &Asset, ops: &Vec<SwapOperation>) -> (r: Result<InjectiveQueryMsg, ContractError>)
    ensures
        match spec_check_exact_out(asset_out.spec_denom(), ops@) {
            Err(e) => r == Err::<InjectiveQueryMsg, ContractError>(e),
            Ok(_) => r matches Ok(InjectiveQueryMsg::GetInputQuantity { to_quantity, source_denom, target_denom })
                && to_quantity == asset_out.spec_amount() && source_denom@ == ops@[0].denom_in@
                && target_denom@ == asset_out.spec_denom(),
        },
{
    check_exact_out(asset_out.denom(), ops)?;
    Ok(InjectiveQueryMsg::GetInputQuantity {
        to_quantity: asset_out.amount(),
        source_denom: ops[0].denom_in.clone(),
        target_denom: asset_out.denom().to_owned(),
    })
}

/// The total output of a smart swap's routes (the contract aborts when the sum
/// overflows).
pub fn smart_swap_total(outputs: &Vec<u128>) -> (r: Result<u128, ContractError>)
    ensures
        spec_sum(outputs@) <= u128::MAX ==> r == Ok::<u128, ContractError>(spec_sum(outputs@) as u128),
        spec_sum(outputs@) > u128::MAX ==> r == Err::<u128, ContractError>(ContractError::Aborted),
{
    match crate::spot_price::checked_total(0, outputs) {
        Some(t) => Ok(t),
        None => Err(ContractError::Aborted),
    }
}

} // verus!
