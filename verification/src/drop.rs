//! The Drop liquid staking adapter: bonding the remote denomination for the bonded
//! one, and the amounts that its exchange rate gives.

use vstd::prelude::*;
use crate::asset::{one_coin, spec_one_coin, Asset, Coin};
use crate::decimal::{checked_div_floor, checked_mul_floor, spec_div_floor, spec_mul_floor, Decimal, DECIMAL_FRACTIONAL};
use crate::error::ContractError;
use crate::swap::check_caller;

verus! {

/// The denomination that a simulation of an exact amount in gives: only the remote
/// denomination can go in, for the bonded one; the contract leaves other
/// denominations unimplemented.
pub fn get_opposite_denom_in(denom_in: &str, remote_denom: &str, bonded_denom: &str) -> (r: Result<String, ContractError>)
    ensures
        denom_in@ == remote_denom@ ==> (r matches Ok(d) && d@ == bonded_denom@),
        denom_in@ != remote_denom@ && denom_in@ == bonded_denom@ ==> r == Err::<String, ContractError>(
            ContractError::UnsupportedDenom,
        ),
        denom_in@ != remote_denom@ && denom_in@ != bonded_denom@ ==> r == Err::<String, ContractError>(
            ContractError::Aborted,
        ),
{
    let d = denom_in.to_owned();
    if d == remote_denom.to_owned() {
        Ok(bonded_denom.to_owned())
    } else if d == bonded_denom.to_owned() {
        Err(ContractError::UnsupportedDenom)
    } else {
        Err(ContractError::Aborted)
    }
}

/// The denomination that a simulation for an exact amount out needs: only the
/// bonded denomination can come out, from the remote one.
pub fn get_opposite_denom_out(denom_out: &str, remote_denom: &str, bonded_denom: &str) -> (r: Result<String, ContractError>)
    ensures
        denom_out@ == remote_denom@ ==> r == Err::<String, ContractError>(ContractError::UnsupportedDenom),
        denom_out@ != remote_denom@ && denom_out@ == bonded_denom@ ==> (r matches Ok(d) && d@ == remote_denom@),
        denom_out@ != remote_denom@ && denom_out@ != bonded_denom@ ==> r == Err::<String, ContractError>(
            ContractError::Aborted,
        ),
{
    let d = denom_out.to_owned();
    if d == remote_denom.to_owned() {
        Err(ContractError::UnsupportedDenom)
    } else if d == bonded_denom.to_owned() {
        Ok(remote_denom.to_owned())
    } else {
        Err(ContractError::Aborted)
    }
}

/// The bonded amount for `amount` at `exchange_rate`: `floor(rate * amount)` (the
/// contract aborts when it overflows).
pub fn simulate_amount_in(exchange_rate: Decimal, amount: u128) -> (r: Result<u128, ContractError>)
    ensures
        match spec_mul_floor(amount, exchange_rate) {
            Some(v) => r == Ok::<u128, ContractError>(v),
            None => r == Err::<u128, ContractError>(ContractError::Aborted),
        },
{
    match checked_mul_floor(amount, exchange_rate) {
        Some(v) => Ok(v),
        None => Err(ContractError::Aborted),
    }
}

/// The remote amount needed for `amount` bonded: `floor(amount / rate)` (the contract
/// aborts on a zero rate or an overflow).
pub fn simulate_amount_out(exchange_rate: Decimal, amount: u128) -> (r: Result<u128, ContractError>)
    ensures
        match spec_div_floor(amount, exchange_rate) {
            Some(v) => r == Ok::<u128, ContractError>(v),
            None => r == Err::<u128, ContractError>(ContractError::Aborted),
        },
{
    match checked_div_floor(amount, exchange_rate) {
        Some(v) => Ok(v),
        None => Err(ContractError::Aborted),
    }
}

/// The answer to a simulation of a swap of exactly `asset_in` (also a smart swap's,
/// whose routes all start from it): the bonded coin that the exchange rate gives
/// for it, and, with `include_spot_price`, the rate as spot price. `exchange_rate` is
/// the outcome of asking the core contract for its rate, which is needed only when
/// the denomination can be simulated.
pub fn simulate_swap_exact_asset_in(
    asset_in: &Asset,
    remote_denom: &str,
    bonded_denom: &str,
    exchange_rate: Result<Decimal, ContractError>,
    include_spot_price: bool,
) -> (r: Result<(Asset, Option<Decimal>), ContractError>)
    ensures
        asset_in.spec_denom() != remote_denom@ && asset_in.spec_denom() == bonded_denom@ ==> r == Err::<
            (Asset, Option<Decimal>),
            ContractError,
        >(ContractError::UnsupportedDenom),
        asset_in.spec_denom() != remote_denom@ && asset_in.spec_denom() != bonded_denom@ ==> r == Err::<
            (Asset, Option<Decimal>),
            ContractError,
        >(ContractError::Aborted),
        asset_in.spec_denom() == remote_denom@ ==> match exchange_rate {
            Err(e) => r == Err::<(Asset, Option<Decimal>), ContractError>(e),
            Ok(rate) => match spec_mul_floor(asset_in.spec_amount(), rate) {
                None => r == Err::<(Asset, Option<Decimal>), ContractError>(ContractError::Aborted),
                Some(v) => r matches Ok((a, p)) && a is Native && a.spec_denom() == bonded_denom@ && a.spec_amount()
                    == v && p == (if include_spot_price {
                    Some(rate)
                } else {
                    None
                }),
            },
        },
{
    let denom_out = get_opposite_denom_in(asset_in.denom(), remote_denom, bonded_denom)?;
    let rate = exchange_rate?;
    let amount = simulate_amount_in(rate, asset_in.amount())?;
    let spot_price = if include_spot_price {
        Some(rate)
    } else {
        None
    };
    Ok((Asset::Native(Coin { denom: denom_out, amount }), spot_price))
}

/// The answer to a simulation of a swap for exactly `asset_out`: the remote coin
/// needed for it at the exchange rate, and, with `include_spot_price`, the rate as
/// spot price.
pub fn simulate_swap_exact_asset_out(
    asset_out: &Asset,
    remote_denom: &str,
    bonded_denom: &str,
    exchange_rate: Result<Decimal, ContractError>,
    include_spot_price: bool,
) -> (r: Result<(Asset, Option<Decimal>), ContractError>)
    ensures
        asset_out.spec_denom() == remote_denom@ ==> r == Err::<(Asset, Option<Decimal>), ContractError>(
            ContractError::UnsupportedDenom,
        ),
        asset_out.spec_denom() != remote_denom@ && asset_out.spec_denom() != bonded_denom@ ==> r == Err::<
            (Asset, Option<Decimal>),
            ContractError,
        >(ContractError::Aborted),
        asset_out.spec_denom() != remote_denom@ && asset_out.spec_denom() == bonded_denom@ ==> match exchange_rate {
            Err(e) => r == Err::<(Asset, Option<Decimal>), ContractError>(e),
            Ok(rate) => match spec_div_floor(asset_out.spec_amount(), rate) {
                None => r == Err::<(Asset, Option<Decimal>), ContractError>(ContractError::Aborted),
                Some(v) => r matches Ok((a, p)) && a is Native && a.spec_denom() == remote_denom@ && a.spec_amount()
                    == v && p == (if include_spot_price {
                    Some(rate)
                } else {
                    None
                }),
            },
        },
{
    let denom_in = get_opposite_denom_out(asset_out.denom(), remote_denom, bonded_denom)?;
    let rate = exchange_rate?;
    let amount = simulate_amount_out(rate, asset_out.amount())?;
    let spot_price = if include_spot_price {
        Some(rate)
    } else {
        None
    };
    Ok((Asset::Native(Coin { denom: denom_in, amount }), spot_price))
}

/// Asking for what an amount in bonds never asks for more than that amount: for a
/// non-zero rate, `floor(floor(x * rate) / rate) <= x`.
pub proof fn lemma_round_trip_does_not_gain(exchange_rate: Decimal, amount: u128)
    requires
        exchange_rate.atomics > 0,
        spec_mul_floor(amount, exchange_rate) is Some,
    ensures
        spec_div_floor(spec_mul_floor(amount, exchange_rate)->Some_0, exchange_rate) is Some,
        spec_div_floor(spec_mul_floor(amount, exchange_rate)->Some_0, exchange_rate)->Some_0 <= amount,
{
    let f: int = DECIMAL_FRACTIONAL as int;
    let x: int = amount as int;
    let r: int = exchange_rate.atomics as int;
    let a: int = x * r / f;
    assert(a * f / r <= x) by (nonlinear_arith)
        requires
            a == x * r / f,
            f > 0,
            r > 0,
            x >= 0,
    {
        assert(a * f <= x * r);
        let b = a * f / r;
        assert(b * r <= a * f);
        assert(b * r <= x * r);
    }
}

/// The bonding that the adapter dispatches for the entry point contract: one coin of
/// the remote denomination, which comes back as the bonded denomination.
pub fn execute_swap(sender: &str, entry_point: &str, funds: &Vec<Coin>, remote_denom: &str, bonded_denom: &str) -> (r: Result<(Coin, String), ContractError>)
    ensures
        sender@ != entry_point@ ==> r == Err::<(Coin, String), ContractError>(ContractError::Unauthorized),
        sender@ == entry_point@ ==> match spec_one_coin(funds@) {
            Err(e) => r == Err::<(Coin, String), ContractError>(ContractError::Payment(e)),
            Ok(c) => if c.denom@ == remote_denom@ {
                r matches Ok((k, back)) && k.denom@ == c.denom@ && k.amount == c.amount && back@ == bonded_denom@
            } else {
                r == Err::<(Coin, String), ContractError>(ContractError::UnsupportedDenom)
            },
        },
{
    check_caller(sender, entry_point)?;
    let coin = match one_coin(funds) {
        Ok(c) => c,
        Err(e) => {
            return Err(ContractError::Payment(e));
        },
    };
    if coin.denom == remote_denom.to_owned() {
        Ok((coin, bonded_denom.to_owned()))
    } else {
        Err(ContractError::UnsupportedDenom)
    }
}

} // verus!
