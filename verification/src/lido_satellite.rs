//! The Lido satellite adapter: minting the canonical denomination from the bridged
//! one and burning it back, one for one.

use vstd::prelude::*;
use crate::asset::{one_coin, spec_one_coin, Asset, Coin};
use crate::decimal::{Decimal, DECIMAL_FRACTIONAL};
use crate::error::ContractError;
use crate::swap::check_caller;

verus! {

/// The satellite's message for a swap.
#[derive(Debug, Clone, Copy, PartialEq, Eq)]
pub enum SatelliteMsg {
    /// Mint the canonical denomination for the bridged coins sent.
    Mint,
    /// Burn the canonical coins sent for the bridged denomination.
    Burn,
}

/// The other denomination of the pair (the contract leaves any other
/// denomination unimplemented).
pub open spec fn spec_other_denom(denom: Seq<char>, bridged: Seq<char>, canonical: Seq<char>) -> Result<Seq<char>, ContractError> {
    if denom == bridged {
        Ok(canonical)
    } else if denom == canonical {
        Ok(bridged)
    } else {
        Err(ContractError::Aborted)
    }
}

/// The denomination that a simulation gives for `denom`, amount for amount.
pub fn other_denom(denom: &str, bridged: &str, canonical: &str) -> (r: Result<String, ContractError>)
    ensures
        match spec_other_denom(denom@, bridged@, canonical@) {
            Ok(d) => r matches Ok(s) && s@ == d,
            Err(e) => r == Err::<String, ContractError>(e),
        },
{
    let d = denom.to_owned();
    if d == bridged.to_owned() {
        Ok(canonical.to_owned())
    } else if d == canonical.to_owned() {
        Ok(bridged.to_owned())
    } else {
        Err(ContractError::Aborted)
    }
}

/// Converting a denomination of the pair twice gives it back.
pub proof fn lemma_other_denom_involutive(denom: Seq<char>, bridged: Seq<char>, canonical: Seq<char>)
    requires
        spec_other_denom(denom, bridged, canonical) is Ok,
    ensures
        spec_other_denom(spec_other_denom(denom, bridged, canonical)->Ok_0, bridged, canonical)
            == Ok::<Seq<char>, ContractError>(denom),
{
}

/// The swap that the adapter dispatches for the entry point contract: one coin of
/// either denomination; bridged coins are minted into canonical ones, canonical
/// coins burnt into bridged ones.
pub fn execute_swap(sender: &str, entry_point: &str, funds: &Vec<Coin>, bridged: &str, canonical: &str) -> (r: Result<(SatelliteMsg, Coin, String), ContractError>)
    ensures
        sender@ != entry_point@ ==> r == Err::<(SatelliteMsg, Coin, String), ContractError>(ContractError::Unauthorized),
        sender@ == entry_point@ ==> match spec_one_coin(funds@) {
            Err(e) => r == Err::<(SatelliteMsg, Coin, String), ContractError>(ContractError::Payment(e)),
            Ok(c) => if c.denom@ == bridged@ {
                r matches Ok((m, k, back)) && m == SatelliteMsg::Mint && k.denom@ == c.denom@ && k.amount == c.amount
                    && back@ == canonical@
            } else if c.denom@ == canonical@ {
                r matches Ok((m, k, back)) && m == SatelliteMsg::Burn && k.denom@ == c.denom@ && k.amount == c.amount
                    && back@ == bridged@
            } else {
                r == Err::<(SatelliteMsg, Coin, String), ContractError>(ContractError::UnsupportedDenom)
            },
        },
{
    check_caller(sender, entry_point)?;
    let coin = match one_coin(funds) {
        Ok(c) => c,
        Err(e) => {
            return Err(ContractError::Payment(e));
        },
    };
    if coin.denom == bridged.to_owned() {
        Ok((SatelliteMsg::Mint, coin, canonical.to_owned()))
    } else if coin.denom == canonical.to_owned() {
        Ok((SatelliteMsg::Burn, coin, bridged.to_owned()))
    } else {
        Err(ContractError::UnsupportedDenom)
    }
}

/// The answer to a simulation of a swap, for an exact amount in or out alike: the
/// same amount in the other denomination of the pair, as a native coin.
pub fn simulate_conversion(asset: &Asset, bridged: &str, canonical: &str) -> (r: Result<Asset, ContractError>)
    ensures
        match spec_other_denom(asset.spec_denom(), bridged@, canonical@) {
            Ok(d) => r matches Ok(a) && a is Native && a.spec_denom() == d && a.spec_amount() == asset.spec_amount(),
            Err(e) => r == Err::<Asset, ContractError>(e),
        },
{
    let denom = other_denom(asset.denom(), bridged, canonical)?;
    Ok(Asset::Native(Coin { denom, amount: asset.amount() }))
}

/// The answer to a simulation with metadata: the converted asset, and a spot price
/// of one, which the contract gives whether or not it was asked for.
pub fn simulate_conversion_with_metadata(asset: &Asset, bridged: &str, canonical: &str) -> (r: Result<(Asset, Option<Decimal>), ContractError>)
    ensures
        match spec_other_denom(asset.spec_denom(), bridged@, canonical@) {
            Ok(d) => r matches Ok((a, p)) && a is Native && a.spec_denom() == d && a.spec_amount() == asset.spec_amount()
                && p is Some && p->0.atomics == DECIMAL_FRACTIONAL,
            Err(e) => r == Err::<(Asset, Option<Decimal>), ContractError>(e),
        },
{
    let asset_out = simulate_conversion(asset, bridged, canonical)?;
    Ok((asset_out, Some(Decimal::one())))
}

} // verus!
