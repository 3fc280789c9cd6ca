//! The Hyperlane adapter: a remote transfer through a warp route of the coin that
//! the entry point contract sends.

use vstd::prelude::*;
use crate::asset::{one_coin, spec_one_coin, Coin};
use crate::error::ContractError;
use crate::swap::check_caller;

verus! {

/// The remote transfer that the adapter sends to the warp route contract.
#[derive(Debug, Clone, PartialEq, Eq)]
pub struct HplTransfer {
    pub warp_address: String,
    pub dest_domain: u32,
    pub recipient: Vec<u8>,
    pub amount: u128,
    pub hook: Option<String>,
    pub metadata: Option<Vec<u8>>,
    pub funds: Coin,
}

/// The transfer that the adapter dispatches for the entry point contract: exactly one
/// non-zero coin, sent along with a transfer of its whole amount.
pub fn execute_hpl_transfer(
    sender: &str,
    entry_point: &str,
    funds: &Vec<Coin>,
    dest_domain: u32,
    recipient: Vec<u8>,
    hook: Option<String>,
    metadata: Option<Vec<u8>>,
    warp_address: String,
) -> (r: Result<HplTransfer, ContractError>)
    ensures
        sender@ != entry_point@ ==> r == Err::<HplTransfer, ContractError>(ContractError::Unauthorized),
        sender@ == entry_point@ ==> match spec_one_coin(funds@) {
            Err(e) => r == Err::<HplTransfer, ContractError>(ContractError::Payment(e)),
            Ok(c) => r matches Ok(t) && t.amount == c.amount && t.funds.denom@ == c.denom@ && t.funds.amount
                == c.amount && t.dest_domain == dest_domain && t.recipient == recipient && t.hook == hook
                && t.metadata == metadata && t.warp_address == warp_address,
        },
{
    check_caller(sender, entry_point)?;
    let coin = match one_coin(funds) {
        Ok(c) => c,
        Err(e) => {
            return Err(ContractError::Payment(e));
        },
    };
    Ok(HplTransfer { warp_address, dest_domain, recipient, amount: coin.amount, hook, metadata, funds: coin })
}

} // verus!
