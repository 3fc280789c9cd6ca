//! The adapters for the chain modules that swap through pools named by number
//! (the Osmosis pool manager and the Elys AMM): they take native coins only, route
//! by pool number, and read the module's estimates, written as decimal text.

use vstd::prelude::*;
use crate::asset::{one_coin, spec_one_coin, Asset, Coin};
use crate::decimal::{parse_u128_error_prefix, spec_decimal_from_str_error, spec_checked_from_ratio, spec_checked_mul, spec_decimal_from_str, spec_parse_u128, spec_parse_u64, uint128_from_str, Decimal, DECIMAL_FRACTIONAL};
use crate::error::{ContractError, StdError};
use crate::strings::spec_starts_with;
use crate::spot_price::{spec_weighted_step, weighted_step};
use crate::swap::{
    check_caller, return_denom, convert_swap_operations_in, convert_swap_operations_out, in_routes_of, out_routes_of, pools_are_numbers,
    SwapAmountInRoute, SwapAmountOutRoute, SwapOperation,
};

verus! {

/// Checks a query for a swap of exactly `asset_in` through `ops` and prepares it:
/// the module's routes, the coin offered and the denomination that comes out.
/// The hops must not be empty, the asset must be a native coin of the first hop's
/// `denom_in`, and every pool must be named by number.
pub fn process_swap_exact_amount_in_query(asset_in: Asset, ops: &Vec<SwapOperation>) -> (r: Result<
    (Vec<SwapAmountInRoute>, Coin, String),
    ContractError,
>)
    ensures
        ops@.len() == 0 ==> r == Err::<(Vec<SwapAmountInRoute>, Coin, String), ContractError>(
            ContractError::SwapOperationsEmpty,
        ),
        ops@.len() > 0 && asset_in is Cw20 ==> r == Err::<(Vec<SwapAmountInRoute>, Coin, String), ContractError>(
            ContractError::AssetNotNative,
        ),
        ops@.len() > 0 && asset_in is Native && asset_in->Native_0.denom@ != ops@[0].denom_in@ ==> r == Err::<
            (Vec<SwapAmountInRoute>, Coin, String),
            ContractError,
        >(ContractError::CoinInDenomMismatch),
        ops@.len() > 0 && asset_in is Native && asset_in->Native_0.denom@ == ops@[0].denom_in@ ==> if pools_are_numbers(
            ops@,
        ) {
            r matches Ok((routes, coin, denom_out)) && in_routes_of(routes@, ops@) && coin == asset_in->Native_0
                && denom_out@ == ops@.last().denom_out@
        } else {
            r == Err::<(Vec<SwapAmountInRoute>, Coin, String), ContractError>(ContractError::ParseIntPoolID)
        },
{
    let n = ops.len();
    if n == 0 {
        return Err(ContractError::SwapOperationsEmpty);
    }
    let coin_in = match asset_in {
        Asset::Native(c) => c,
        Asset::Cw20(_) => {
            return Err(ContractError::AssetNotNative);
        },
    };
    if coin_in.denom != ops[0].denom_in {
        return Err(ContractError::CoinInDenomMismatch);
    }
    let denom_out = ops[n - 1].denom_out.clone();
    let routes = match convert_swap_operations_in(ops) {
        Ok(v) => v,
        Err(e) => {
            return Err(e);
        },
    };
    Ok((routes, coin_in, denom_out))
}

/// Checks a query for a swap for exactly `asset_out` through `ops` and prepares it:
/// the module's routes, the coin asked for and the denomination that goes in.
/// The hops must not be empty, the asset must be a native coin of the last hop's
/// `denom_out`, and every pool must be named by number.
pub fn process_swap_exact_amount_out_query(asset_out: Asset, ops: &Vec<SwapOperation>) -> (r: Result<
    (Vec<SwapAmountOutRoute>, Coin, String),
    ContractError,
>)
    ensures
        ops@.len() == 0 ==> r == Err::<(Vec<SwapAmountOutRoute>, Coin, String), ContractError>(
            ContractError::SwapOperationsEmpty,
        ),
        ops@.len() > 0 && asset_out is Cw20 ==> r == Err::<(Vec<SwapAmountOutRoute>, Coin, String), ContractError>(
            ContractError::AssetNotNative,
        ),
        ops@.len() > 0 && asset_out is Native && asset_out->Native_0.denom@ != ops@.last().denom_out@ ==> r == Err::<
            (Vec<SwapAmountOutRoute>, Coin, String),
            ContractError,
        >(ContractError::CoinOutDenomMismatch),
        ops@.len() > 0 && asset_out is Native && asset_out->Native_0.denom@ == ops@.last().denom_out@ ==> if pools_are_numbers(
            ops@,
        ) {
            r matches Ok((routes, coin, denom_in)) && out_routes_of(routes@, ops@) && coin == asset_out->Native_0
                && denom_in@ == ops@[0].denom_in@
        } else {
            r == Err::<(Vec<SwapAmountOutRoute>, Coin, String), ContractError>(ContractError::ParseIntPoolID)
        },
{
    let n = ops.len();
    if n == 0 {
        return Err(ContractError::SwapOperationsEmpty);
    }
    let coin_out = match asset_out {
        Asset::Native(c) => c,
        Asset::Cw20(_) => {
            return Err(ContractError::AssetNotNative);
        },
    };
    if coin_out.denom != ops[n - 1].denom_out {
        return Err(ContractError::CoinOutDenomMismatch);
    }
    let denom_in = ops[0].denom_in.clone();
    let routes = match convert_swap_operations_out(ops) {
        Ok(v) => v,
        Err(e) => {
            return Err(e);
        },
    };
    Ok((routes, coin_out, denom_in))
}

/// The native coin of `denom` that a module's estimate gives: `amount` is the
/// estimate's amount, as decimal text, or `None` when the estimate names no token
/// (which is the error `missing`).
pub fn estimated_asset(denom: String, amount: Option<String>, missing: ContractError) -> (r: Result<Asset, ContractError>)
    ensures
        amount is None ==> r == Err::<Asset, ContractError>(missing),
        amount is Some ==> match spec_parse_u128(amount->Some_0@) {
            Some(v) => r == Ok::<Asset, ContractError>(Asset::Native(Coin { denom, amount: v })),
            None => r matches Err(ContractError::Std(StdError::GenericErr { msg })) && spec_starts_with(
                msg@,
                parse_u128_error_prefix(),
            ),
        },
{
    let text = match amount {
        Some(t) => t,
        None => {
            return Err(missing);
        },
    };
    match uint128_from_str(text.as_str()) {
        Ok(v) => Ok(Asset::Native(Coin { denom, amount: v })),
        Err(e) => Err(ContractError::Std(e)),
    }
}

/// The spot price of a swap through the module's pools: the product of the hops'
/// spot prices, which the module answers as decimal text for each pool in turn.
/// `Err(m)` stands for a price text that does not parse (a generic error with the
/// parser's message `m`); a pool that is not named by number, a failed answer or an
/// overflow of the product are the errors returned.
pub open spec fn spec_module_spot_price(
    acc: Decimal,
    ops: Seq<SwapOperation>,
    answers: Seq<Result<String, ContractError>>,
) -> Result<Result<Decimal, ContractError>, Seq<char>>
    decreases ops.len(),
{
    if ops.len() == 0 || answers.len() == 0 {
        Ok(Ok(acc))
    } else if spec_parse_u64(ops[0].pool@) is None {
        Ok(Err(ContractError::ParseIntPoolID))
    } else {
        match answers[0] {
            Err(e) => Ok(Err(e)),
            Ok(text) => match spec_decimal_from_str(text@) {
                None => Err(spec_decimal_from_str_error(text@)),
                Some(price) => match spec_checked_mul(acc, price) {
                    None => Ok(Err(ContractError::Overflow)),
                    Some(p) => spec_module_spot_price(p, ops.drop_first(), answers.drop_first()),
                },
            },
        }
    }
}

/// The spot price of a swap through `ops`, from the module's answer for each hop's
/// pool (`answers[i]` for hop `i`).
pub fn module_spot_price(ops: &Vec<SwapOperation>, answers: Vec<Result<String, ContractError>>) -> (r: Result<
    Decimal,
    ContractError,
>)
    requires
        answers@.len() == ops@.len(),
    ensures
        match spec_module_spot_price(Decimal { atomics: DECIMAL_FRACTIONAL }, ops@, answers@) {
            Ok(res) => r == res,
            Err(m) => r matches Err(ContractError::Std(StdError::GenericErr { msg })) && msg@ == m,
        },
{
    let mut acc = Decimal::one();
    let mut i: usize = 0;
    let mut rest = answers;
    assert(ops@.skip(0) =~= ops@);
    assert(answers@.skip(0) =~= answers@);
    while i < ops.len()
        invariant
            0 <= i <= ops.len(),
            answers@.len() == ops@.len(),
            rest@ == answers@.skip(i as int),
            spec_module_spot_price(acc, ops@.skip(i as int), answers@.skip(i as int))
                == spec_module_spot_price(Decimal { atomics: DECIMAL_FRACTIONAL }, ops@, answers@),
        decreases ops.len() - i,
    {
        proof {
            assert(ops@.skip(i as int)[0] == ops@[i as int]);
            assert(ops@.skip(i as int).drop_first() =~= ops@.skip(i + 1));
            assert(answers@.skip(i as int)[0] == answers@[i as int]);
            assert(answers@.skip(i as int).drop_first() =~= answers@.skip(i + 1));
        }
        if crate::decimal::parse_u64(ops[i].pool.as_str()).is_none() {
            return Err(ContractError::ParseIntPoolID);
        }
        let answer = rest.remove(0);
        let text = match answer {
            Ok(t) => t,
            Err(e) => {
                return Err(e);
            },
        };
        let price = match Decimal::from_str(text.as_str()) {
            Ok(p) => p,
            Err(e) => {
                return Err(ContractError::Std(e));
            },
        };
        acc = match acc.checked_mul(price) {
            Some(p) => p,
            None => {
                return Err(ContractError::Overflow);
            },
        };
        i = i + 1;
    }
    assert(ops@.skip(i as int).len() == 0);
    Ok(acc)
}

/// A route's simulation with its spot price: the amount it returns and the spot
/// price, if the module gave one.
#[derive(Debug, Clone, Copy, PartialEq, Eq)]
pub struct RouteEstimate {
    pub amount_out: u128,
    pub spot_price: Option<Decimal>,
}

/// A smart swap simulated route by route, with its spot price: the routes' outputs
/// added up, and the routes' spot prices weighted by their share `offers[i]` of
/// `amount_in`. Per route, in order: the route's simulation (`answers[i]`), its
/// weight (the contract aborts on a zero `amount_in` or an overflow), its spot price
/// (missing: an error), the weighted sum (aborts on overflow), the output added up
/// (an overflow is an error).
pub open spec fn spec_smart_swap_with_spot_price(
    total: int,
    price: Decimal,
    amount_in: u128,
    offers: Seq<u128>,
    answers: Seq<Result<RouteEstimate, ContractError>>,
) -> Result<(int, Decimal), ContractError>
    decreases offers.len(),
{
    if offers.len() == 0 || answers.len() == 0 {
        Ok((total, price))
    } else {
        match answers[0] {
            Err(e) => Err(e),
            Ok(est) => match spec_checked_from_ratio(offers[0], amount_in) {
                None => Err(ContractError::Aborted),
                Some(_) => match est.spot_price {
                    None => Err(ContractError::SpotPriceNotFound),
                    Some(p) => match spec_weighted_step(price, offers[0], amount_in, p) {
                        Err(e) => Err(e),
                        Ok(np) => if total + est.amount_out > u128::MAX {
                            Err(ContractError::Overflow)
                        } else {
                            spec_smart_swap_with_spot_price(
                                total + est.amount_out,
                                np,
                                amount_in,
                                offers.drop_first(),
                                answers.drop_first(),
                            )
                        },
                    },
                },
            },
        }
    }
}

/// The asset (in `ask_denom`, a CW20 amount when `ask_is_address`) that a smart swap
/// of `amount_in` returns, and, with `include_spot_price`, its spot price, from the
/// simulation of each route (`answers[i]` for the route offering `offers[i]`).
pub fn smart_swap_with_spot_price(
    ask_denom: &str,
    ask_is_address: bool,
    amount_in: u128,
    offers: &Vec<u128>,
    answers: Vec<Result<RouteEstimate, ContractError>>,
    include_spot_price: bool,
) -> (r: Result<(Asset, Option<Decimal>), ContractError>)
    requires
        answers@.len() == offers@.len(),
    ensures
        match spec_smart_swap_with_spot_price(0, Decimal { atomics: 0 }, amount_in, offers@, answers@) {
            Ok((t, p)) => r matches Ok((a, sp)) && a.spec_denom() == ask_denom@ && a.spec_amount() == t && (a is Cw20)
                == ask_is_address && sp == (if include_spot_price {
                Some(p)
            } else {
                None
            }),
            Err(e) => r == Err::<(Asset, Option<Decimal>), ContractError>(e),
        },
{
    let mut asset_out = Asset::new(ask_denom, 0, ask_is_address);
    let mut price = Decimal::zero();
    let mut rest = answers;
    let mut i: usize = 0;
    assert(offers@.skip(0) =~= offers@);
    assert(answers@.skip(0) =~= answers@);
    while i < offers.len()
        invariant
            0 <= i <= offers.len(),
            answers@.len() == offers@.len(),
            rest@ == answers@.skip(i as int),
            asset_out.spec_denom() == ask_denom@,
            (asset_out is Cw20) == ask_is_address,
            spec_smart_swap_with_spot_price(
                asset_out.spec_amount() as int,
                price,
                amount_in,
                offers@.skip(i as int),
                answers@.skip(i as int),
            ) == spec_smart_swap_with_spot_price(0, Decimal { atomics: 0 }, amount_in, offers@, answers@),
        decreases offers.len() - i,
    {
        proof {
            assert(offers@.skip(i as int)[0] == offers@[i as int]);
            assert(offers@.skip(i as int).drop_first() =~= offers@.skip(i + 1));
            assert(answers@.skip(i as int)[0] == answers@[i as int]);
            assert(answers@.skip(i as int).drop_first() =~= answers@.skip(i + 1));
        }
        let est = match rest.remove(0) {
            Ok(e) => e,
            Err(e) => {
                return Err(e);
            },
        };
        if Decimal::checked_from_ratio(offers[i], amount_in).is_none() {
            return Err(ContractError::Aborted);
        }
        let route_price = match est.spot_price {
            Some(p) => p,
            None => {
                return Err(ContractError::SpotPriceNotFound);
            },
        };
        price = match weighted_step(price, offers[i], amount_in, route_price) {
            Ok(p) => p,
            Err(e) => {
                return Err(e);
            },
        };
        match asset_out.add(est.amount_out) {
            Ok(()) => {},
            Err(e) => {
                return Err(e);
            },
        }
        i = i + 1;
    }
    assert(offers@.skip(i as int).len() == 0);
    if include_spot_price {
        Ok((asset_out, Some(price)))
    } else {
        Ok((asset_out, None))
    }
}

/// The module's swap of an exact amount in that the adapter dispatches: the routes,
/// the coin offered, the least output (one: the entry point checks the real
/// minimum) and the denomination to send back.
#[derive(Debug, Clone, PartialEq, Eq)]
pub struct ModuleSwap {
    pub routes: Vec<SwapAmountInRoute>,
    pub token_in: Coin,
    pub token_out_min_amount: String,
    pub return_denom: String,
}

/// The swap that the adapter dispatches for the entry point contract: exactly one
/// coin, a non-empty list of hops, and pools named by number.
pub fn execute_swap(sender: &str, entry_point: &str, funds: &Vec<Coin>, ops: &Vec<SwapOperation>) -> (r: Result<ModuleSwap, ContractError>)
    ensures
        sender@ != entry_point@ ==> r == Err::<ModuleSwap, ContractError>(ContractError::Unauthorized),
        sender@ == entry_point@ ==> match spec_one_coin(funds@) {
            Err(e) => r == Err::<ModuleSwap, ContractError>(ContractError::Payment(e)),
            Ok(c) => if ops@.len() == 0 {
                r == Err::<ModuleSwap, ContractError>(ContractError::SwapOperationsEmpty)
            } else if !pools_are_numbers(ops@) {
                r == Err::<ModuleSwap, ContractError>(ContractError::ParseIntPoolID)
            } else {
                r matches Ok(s) && in_routes_of(s.routes@, ops@) && s.token_in.denom@ == c.denom@ && s.token_in.amount == c.amount && s.token_out_min_amount@ == "1"@
                    && s.return_denom@ == ops@.last().denom_out@
            },
        },
{
    check_caller(sender, entry_point)?;
    let token_in = match one_coin(funds) {
        Ok(c) => c,
        Err(e) => {
            return Err(ContractError::Payment(e));
        },
    };
    let return_denom = return_denom(ops)?;
    let routes = convert_swap_operations_in(ops)?;
    Ok(ModuleSwap { routes, token_in, token_out_min_amount: "1".to_owned(), return_denom })
}

} // verus!
