//! The Oraichain IBC wasm adapter: a transfer to a remote chain through the IBC wasm
//! bridge contract, of a native coin or of a CW20 token.

use vstd::prelude::*;
use crate::asset::{one_coin, spec_one_coin, Asset, Coin, Cw20Coin};
use crate::error::ContractError;
use crate::swap::check_caller;

verus! {

/// How the bridge receives the asset.
#[derive(Debug, Clone, PartialEq, Eq)]
pub enum BridgeTransfer {
    /// The coin goes along with a transfer message to the bridge.
    Native { coin: Coin },
    /// The token contract sends the amount to the bridge with the transfer message.
    Cw20 { token: String, amount: u128 },
}

/// The native funds must be exactly the asset that the message names.
pub fn check_native_fund(funds: &Vec<Coin>, asset: &Asset) -> (r: Result<(), ContractError>)
    ensures
        match spec_one_coin(funds@) {
            Err(e) => r == Err::<(), ContractError>(ContractError::Payment(e)),
            Ok(c) => if asset is Native && asset.spec_denom() == c.denom@ && asset.spec_amount() == c.amount {
                r is Ok
            } else {
                r == Err::<(), ContractError>(ContractError::InvalidFund)
            },
        },
{
    let fund = match one_coin(funds) {
        Ok(c) => c,
        Err(e) => {
            return Err(ContractError::Payment(e));
        },
    };
    if Asset::Native(fund).same_as(asset) {
        Ok(())
    } else {
        Err(ContractError::InvalidFund)
    }
}

/// The tokens received from a CW20 contract (`token`) must be exactly the asset that
/// the hook message names.
pub fn check_cw20_fund(token: &str, amount: u128, asset: &Asset) -> (r: Result<(), ContractError>)
    ensures
        asset is Cw20 && asset.spec_denom() == token@ && asset.spec_amount() == amount ==> r is Ok,
        !(asset is Cw20 && asset.spec_denom() == token@ && asset.spec_amount() == amount) ==> r == Err::<(), ContractError>(
            ContractError::InvalidFund,
        ),
{
    let sent = Asset::Cw20(Cw20Coin { address: token.to_owned(), amount });
    if sent.same_as(asset) {
        Ok(())
    } else {
        Err(ContractError::InvalidFund)
    }
}

/// The transfer that the adapter dispatches for the entry point contract.
pub fn execute_ibc_wasm_transfer(sender: &str, entry_point: &str, asset: &Asset) -> (r: Result<BridgeTransfer, ContractError>)
    ensures
        sender@ != entry_point@ ==> r == Err::<BridgeTransfer, ContractError>(ContractError::Unauthorized),
        sender@ == entry_point@ ==> match asset {
            Asset::Native(c) => r matches Ok(BridgeTransfer::Native { coin }) && coin.denom@ == c.denom@
                && coin.amount == c.amount,
            Asset::Cw20(c) => r matches Ok(BridgeTransfer::Cw20 { token, amount }) && token@ == c.address@
                && amount == c.amount,
        },
{
    check_caller(sender, entry_point)?;
    match asset {
        Asset::Native(c) => Ok(BridgeTransfer::Native { coin: c.copy() }),
        Asset::Cw20(c) => Ok(BridgeTransfer::Cw20 { token: c.address.clone(), amount: c.amount }),
    }
}

} // verus!
