//! The Duality (Neutron dex) adapter: multi-hop routes as lists of denominations,
//! the conversions between the signed and unsigned amounts that the dex takes, pair
//! identifiers, and the parameters of its limit order and spot price queries.

use vstd::prelude::*;
use vstd::string::StringExecFns;
use crate::asset::{one_coin, spec_one_coin, Asset, Coin};
use crate::decimal::{generic_error_text, spec_decimal_from_str_error, spec_checked_div, spec_checked_mul, spec_decimal_from_str, Decimal, DECIMAL_FRACTIONAL};
use crate::error::{ContractError, StdError};
use crate::strings::{lemma_str_lt_lexicographic, spec_starts_with, spec_str_lt, str_lt};
use crate::swap::{check_caller, return_denom, spec_route_ask_denom, Route, SwapOperation};

verus! {

/// A route of the dex: the denominations that a multi-hop swap goes through.
#[derive(Debug, Clone, PartialEq, Eq)]
pub struct MultiHopRoute {
    pub hops: Vec<String>,
}

/// The route of denominations through `ops`: the first hop's `denom_in`, then every
/// hop's `denom_out`; each hop must take what the previous one gives.
pub open spec fn spec_route_from_operations(ops: Seq<SwapOperation>) -> Result<Seq<Seq<char>>, ContractError> {
    if ops.len() == 0 {
        Err(ContractError::SwapOperationsEmpty)
    } else if exists|i: int| 1 <= i < ops.len() && #[trigger] ops[i].denom_in@ != ops[i - 1].denom_out@ {
        Err(ContractError::SwapOperationDenomMismatch)
    } else {
        Ok(seq![ops[0].denom_in@] + Seq::new(ops.len(), |i: int| ops[i].denom_out@))
    }
}

/// The multi-hop route for a swap through `ops`.
pub fn get_route_from_swap_operations(ops: &Vec<SwapOperation>) -> (r: Result<MultiHopRoute, ContractError>)
    ensures
        match spec_route_from_operations(ops@) {
            Ok(hops) => r matches Ok(route) && route.hops@.len() == hops.len() && (forall|i: int|
                0 <= i < hops.len() ==> #[trigger] route.hops@[i]@ == hops[i]),
            Err(e) => r == Err::<MultiHopRoute, ContractError>(e),
        },
{
    if ops.len() == 0 {
        return Err(ContractError::SwapOperationsEmpty);
    }
    let mut hops: Vec<String> = Vec::new();
    hops.push(ops[0].denom_in.clone());
    hops.push(ops[0].denom_out.clone());
    let mut i: usize = 1;
    while i < ops.len()
        invariant
            1 <= i <= ops.len(),
            hops@.len() == i + 1,
            hops@[0]@ == ops@[0].denom_in@,
            forall|j: int| 1 <= j <= i ==> #[trigger] hops@[j]@ == ops@[j - 1].denom_out@,
            forall|j: int| 1 <= j < i ==> #[trigger] ops@[j].denom_in@ == ops@[j - 1].denom_out@,
        decreases ops.len() - i,
    {
        if ops[i].denom_in != ops[i - 1].denom_out {
            assert(1 <= i < ops@.len() && ops@[i as int].denom_in@ != ops@[i - 1].denom_out@);
            return Err(ContractError::SwapOperationDenomMismatch);
        }
        hops.push(ops[i].denom_out.clone());
        i = i + 1;
    }
    let route = MultiHopRoute { hops };
    proof {
        let expected = seq![ops@[0].denom_in@] + Seq::new(ops@.len(), |k: int| ops@[k].denom_out@);
        assert forall|k: int| 0 <= k < expected.len() implies #[trigger] route.hops@[k]@ == expected[k] by {
            if k > 0 {
                assert(expected[k] == ops@[k - 1].denom_out@);
            }
        }
    }
    Ok(route)
}

/// The multi-hop route for a query of a swap through `ops` (the same route).
pub fn get_route_from_swap_operations_for_query(ops: &Vec<SwapOperation>) -> (r: Result<MultiHopRoute, ContractError>)
    ensures
        match spec_route_from_operations(ops@) {
            Ok(hops) => r matches Ok(route) && route.hops@.len() == hops.len() && (forall|i: int|
                0 <= i < hops.len() ==> #[trigger] route.hops@[i]@ == hops[i]),
            Err(e) => r == Err::<MultiHopRoute, ContractError>(e),
        },
{
    get_route_from_swap_operations(ops)
}

/// An unsigned amount as the dex's signed amount; it must not exceed `i128::MAX`.
pub fn uint128_to_int128(u: u128) -> (r: Result<i128, ContractError>)
    ensures
        r == spec_uint128_to_int128(u),
{
    if u > i128::MAX as u128 {
        return Err(ContractError::ConversionError);
    }
    Ok(u as i128)
}

/// A signed amount of the dex as an unsigned one; it must not be negative.
pub fn int128_to_uint128(i: i128) -> (r: Result<u128, ContractError>)
    ensures
        r == spec_int128_to_uint128(i),
{
    if i < 0 {
        return Err(ContractError::ConversionError);
    }
    Ok(i as u128)
}

/// An unsigned amount as the dex's signed one, when it fits.
pub open spec fn spec_uint128_to_int128(u: u128) -> Result<i128, ContractError> {
    if u <= i128::MAX {
        Ok(u as i128)
    } else {
        Err(ContractError::ConversionError)
    }
}

/// A signed amount of the dex as an unsigned one, when it is not negative.
pub open spec fn spec_int128_to_uint128(i: i128) -> Result<u128, ContractError> {
    if i >= 0 {
        Ok(i as u128)
    } else {
        Err(ContractError::ConversionError)
    }
}

/// An amount that the dex can hold comes back unchanged from the dex's signed form:
/// converting an amount up to `i128::MAX` to a signed amount and back gives it back.
pub proof fn lemma_amount_conversion_round_trip(u: u128)
    requires
        u <= i128::MAX,
    ensures
        spec_uint128_to_int128(u) is Ok,
        spec_int128_to_uint128(spec_uint128_to_int128(u)->Ok_0) == Ok::<u128, ContractError>(u),
{
}

/// The identifier of the pair of two tokens: the two joined by `<>`, the smaller
/// first.
pub open spec fn spec_pair_id(token0: Seq<char>, token1: Seq<char>) -> Seq<char> {
    if spec_str_lt(token1, token0) {
        token1 + "<>"@ + token0
    } else {
        token0 + "<>"@ + token1
    }
}

/// The dex's identifier of the pair of `token0` and `token1`.
pub fn new_pair_id_str(token0: &String, token1: &String) -> (r: String)
    ensures
        r@ == spec_pair_id(token0@, token1@),
{
    let (first, second) = if str_lt(token1.as_str(), token0.as_str()) {
        (token1, token0)
    } else {
        (token0, token1)
    };
    let mut id = String::from_str(first.as_str());
    id.append("<>");
    id.append(second.as_str());
    id
}

proof fn lemma_str_lt_asymmetric(a: Seq<char>, b: Seq<char>)
    ensures
        spec_str_lt(a, b) ==> !spec_str_lt(b, a),
    decreases a.len(),
{
    if a.len() > 0 && b.len() > 0 && a[0] == b[0] {
        lemma_str_lt_asymmetric(a.drop_first(), b.drop_first());
    }
}

proof fn lemma_str_lt_total(a: Seq<char>, b: Seq<char>)
    ensures
        !spec_str_lt(a, b) && !spec_str_lt(b, a) ==> a == b,
    decreases a.len(),
{
    if a.len() > 0 && b.len() > 0 {
        if (a[0] as int) == (b[0] as int) {
            lemma_str_lt_total(a.drop_first(), b.drop_first());
            if !spec_str_lt(a, b) && !spec_str_lt(b, a) {
                assert(a[0] == b[0]);
                assert(a =~= seq![a[0]] + a.drop_first());
                assert(b =~= seq![b[0]] + b.drop_first());
            }
        }
    } else if a.len() == 0 && b.len() == 0 {
        assert(a =~= b);
    }
}

/// The pair identifier puts first the token that is smaller in lexicographic order:
/// when `x` and `y` agree on their first `k` characters and `x` has the smaller
/// character at `k` (or ends there while `y` goes on), the identifier is `x<>y`,
/// whatever order the two are given in and whatever their lengths.
pub proof fn lemma_pair_id_smaller_first(x: Seq<char>, y: Seq<char>, k: int)
    requires
        0 <= k <= x.len(),
        k < y.len(),
        x.take(k) == y.take(k),
        k < x.len() ==> (x[k] as int) < (y[k] as int),
    ensures
        spec_pair_id(x, y) == x + "<>"@ + y,
        spec_pair_id(y, x) == x + "<>"@ + y,
{
    lemma_str_lt_lexicographic(x, y, k);
    lemma_str_lt_lexicographic(y, x, k);
}

/// The pair identifier does not depend on the order in which the two tokens are
/// given.
pub proof fn lemma_pair_id_symmetric(token0: Seq<char>, token1: Seq<char>)
    ensures
        spec_pair_id(token0, token1) == spec_pair_id(token1, token0),
{
    lemma_str_lt_asymmetric(token0, token1);
    lemma_str_lt_asymmetric(token1, token0);
    lemma_str_lt_total(token0, token1);
}

/// The slippage, in ticks, allowed to a limit order that estimates a hop.
pub open spec fn max_slippage_ticks() -> int {
    2000
}

/// The tick of the limit order that estimates a hop: the current tick of the pair
/// plus the allowed slippage (the contract aborts if that overflows).
pub fn limit_order_tick(current_tick: i64) -> (r: Result<i64, ContractError>)
    ensures
        current_tick + max_slippage_ticks() <= i64::MAX ==> r == Ok::<i64, ContractError>(
            (current_tick + max_slippage_ticks()) as i64,
        ),
        current_tick + max_slippage_ticks() > i64::MAX ==> r == Err::<i64, ContractError>(
            ContractError::Aborted,
        ),
{
    match current_tick.checked_add(2000) {
        Some(t) => Ok(t),
        None => Err(ContractError::Aborted),
    }
}

/// The amounts of the limit order that estimates the input of a hop for an output:
/// it offers the dex's balance of the input denomination and caps the output at
/// `amount_out`; both as signed amounts.
pub fn limit_order_amounts(dex_balance: u128, amount_out: u128) -> (r: Result<(i128, i128), ContractError>)
    ensures
        dex_balance > i128::MAX || amount_out > i128::MAX ==> r == Err::<(i128, i128), ContractError>(
            ContractError::ConversionError,
        ),
        dex_balance <= i128::MAX && amount_out <= i128::MAX ==> r == Ok::<(i128, i128), ContractError>(
            (dex_balance as i128, amount_out as i128),
        ),
{
    let amount_in = uint128_to_int128(dex_balance)?;
    let max_out = uint128_to_int128(amount_out)?;
    Ok((amount_in, max_out))
}

/// The fill-or-kill limit order that the dex is asked to estimate for one hop of
/// a simulation for an exact amount out: placed by the dex module itself with its
/// balance of the hop's input, capped at the hop's wanted output.
#[derive(Debug, Clone, PartialEq, Eq)]
pub struct EstimatePlaceLimitOrder {
    pub creator: String,
    pub receiver: String,
    pub token_in: String,
    pub token_out: String,
    pub tick_index_in_to_out: i64,
    pub amount_in: i128,
    pub max_amount_out: i128,
}

/// The limit order estimate for the hop `op` that yields `amount_out`: `dex_balance`
/// is the dex module's balance of the hop's input, `current_tick` the outcome of
/// asking the dex for the pair's price and tick. The conversions of the two amounts
/// are checked before that outcome is looked at, as the contract asks for it only
/// after them.
pub fn limit_order_query(
    dex_address: &str,
    contract_address: &str,
    op: &SwapOperation,
    dex_balance: u128,
    amount_out: u128,
    current_tick: Result<i64, ContractError>,
) -> (r: Result<EstimatePlaceLimitOrder, ContractError>)
    ensures
        dex_balance > i128::MAX || amount_out > i128::MAX ==> r == Err::<EstimatePlaceLimitOrder, ContractError>(
            ContractError::ConversionError,
        ),
        dex_balance <= i128::MAX && amount_out <= i128::MAX ==> match current_tick {
            Err(e) => r == Err::<EstimatePlaceLimitOrder, ContractError>(e),
            Ok(t) => if t + max_slippage_ticks() > i64::MAX {
                r == Err::<EstimatePlaceLimitOrder, ContractError>(ContractError::Aborted)
            } else {
                r matches Ok(q) && q.creator@ == dex_address@ && q.receiver@ == contract_address@
                    && q.token_in@ == op.denom_in@ && q.token_out@ == op.denom_out@
                    && q.tick_index_in_to_out == t + max_slippage_ticks() && q.amount_in == dex_balance
                    && q.max_amount_out == amount_out
            },
        },
{
    let (amount_in, max_amount_out) = limit_order_amounts(dex_balance, amount_out)?;
    let tick = current_tick?;
    let tick_index_in_to_out = limit_order_tick(tick)?;
    Ok(EstimatePlaceLimitOrder {
        creator: dex_address.to_string(),
        receiver: contract_address.to_string(),
        token_in: op.denom_in.clone(),
        token_out: op.denom_out.clone(),
        tick_index_in_to_out,
        amount_in,
        max_amount_out,
    })
}

/// The price and tick of a pair from the first entry of its tick liquidity, as the
/// dex answers it: the price taker to maker, as text, and the tick index. The
/// contract aborts when the pair has no liquidity entry.
pub fn get_spot_price_and_tick(first_liquidity: Option<(String, i64)>) -> (r: Result<(Decimal, i64), ContractError>)
    ensures
        match first_liquidity {
            None => r == Err::<(Decimal, i64), ContractError>(ContractError::Aborted),
            Some((text, tick)) => match spec_decimal_from_str(text@) {
                Some(p) => r == Ok::<(Decimal, i64), ContractError>((p, tick)),
                None => r matches Err(ContractError::Std(StdError::GenericErr { msg })) && msg@
                    == "Failed to parse spot_price as Decimal: "@ + generic_error_text(spec_decimal_from_str_error(text@)),
            },
        },
{
    let (text, tick) = match first_liquidity {
        Some(l) => l,
        None => {
            return Err(ContractError::Aborted);
        },
    };
    match Decimal::from_str(text.as_str()) {
        Ok(p) => Ok((p, tick)),
        Err(StdError::GenericErr { msg }) => {
            let detail = message("Generic error: ", msg.as_str());
            Err(ContractError::Std(StdError::GenericErr { msg: message("Failed to parse spot_price as Decimal: ", detail.as_str()) }))
        },
        Err(_) => Err(ContractError::Aborted),
    }
}

/// `prefix` followed by `detail`.
pub(crate) fn message(prefix: &str, detail: &str) -> (r: String)
    ensures
        r@ == prefix@ + detail@,
{
    let mut m = String::from_str(prefix);
    m.append(detail);
    m
}

/// How the spot price of hops priced by the dex comes out: a price; the error of
/// asking for a hop's price; the inversion of a hop's price `p` failing; or the
/// product overflowing.
pub enum SpotPriceOutcome {
    Price(Decimal),
    Failed(ContractError),
    DivisionFailed(Decimal),
    MultiplicationFailed,
}

/// The spot price of a swap through hops priced by the dex, from `acc` on: the
/// product of the inverses of the hops' prices (the dex prices taker to maker).
/// `prices[i]` is the outcome of asking the dex for hop `i`'s price.
pub open spec fn spec_spot_price_multi(acc: Decimal, prices: Seq<Result<Decimal, ContractError>>) -> SpotPriceOutcome
    decreases prices.len(),
{
    if prices.len() == 0 {
        SpotPriceOutcome::Price(acc)
    } else {
        match prices[0] {
            Err(e) => SpotPriceOutcome::Failed(e),
            Ok(p) => match spec_checked_div(Decimal { atomics: DECIMAL_FRACTIONAL }, p) {
                None => SpotPriceOutcome::DivisionFailed(p),
                Some(inv) => match spec_checked_mul(acc, inv) {
                    None => SpotPriceOutcome::MultiplicationFailed,
                    Some(n) => spec_spot_price_multi(n, prices.drop_first()),
                },
            },
        }
    }
}

/// The message of a failed inversion of the price `p`.
pub open spec fn division_failure(p: Decimal) -> Seq<char> {
    "Failed to perform price division: "@ + (if p.atomics == 0 {
        "Denominator must not be zero"@
    } else {
        "Overflow"@
    })
}

/// The spot price of a swap through the hops whose prices the dex gave: the product
/// of the inverses of the prices; a failed inversion or product is a standard error
/// with the arithmetic's message.
pub fn calculate_spot_price_multi(prices: Vec<Result<Decimal, ContractError>>) -> (r: Result<Decimal, ContractError>)
    ensures
        match spec_spot_price_multi(Decimal { atomics: DECIMAL_FRACTIONAL }, prices@) {
            SpotPriceOutcome::Price(p) => r == Ok::<Decimal, ContractError>(p),
            SpotPriceOutcome::Failed(e) => r == Err::<Decimal, ContractError>(e),
            SpotPriceOutcome::DivisionFailed(p) => r matches Err(ContractError::Std(StdError::GenericErr { msg }))
                && msg@ == division_failure(p),
            SpotPriceOutcome::MultiplicationFailed => r matches Err(ContractError::Std(StdError::GenericErr { msg }))
                && msg@ == "Failed to perform price multiplication: Cannot Mul with given operands"@,
        },
{
    let mut acc = Decimal::one();
    let ghost all = prices@;
    assert(all.len() == prices.len());
    let mut rest = prices;
    let mut i: usize = 0;
    assert(all.skip(0) =~= all);
    while rest.len() > 0
        invariant
            all == prices@,
            all.len() <= usize::MAX,
            i <= all.len(),
            i + rest@.len() == all.len(),
            rest@ == all.skip(i as int),
            spec_spot_price_multi(acc, all.skip(i as int)) == spec_spot_price_multi(
                Decimal { atomics: DECIMAL_FRACTIONAL },
                all,
            ),
        decreases rest@.len(),
    {
        proof {
            assert(all.skip(i as int)[0] == all[i as int]);
            assert(all.skip(i as int).drop_first() =~= all.skip(i + 1));
        }
        let price = match rest.remove(0) {
            Ok(p) => p,
            Err(e) => {
                return Err(e);
            },
        };
        let inverse = match Decimal::one().checked_div_with_message(price) {
            Ok(v) => v,
            Err(m) => {
                proof {
                    reveal_strlit("Failed to perform price division: ");
                    reveal_strlit("Denominator must not be zero");
                    reveal_strlit("Overflow");
                }
                return Err(ContractError::Std(StdError::GenericErr { msg: message("Failed to perform price division: ", m.as_str()) }));
            },
        };
        acc = match acc.checked_mul_with_message(inverse) {
            Ok(v) => v,
            Err(m) => {
                proof {
                    reveal_strlit("Failed to perform price multiplication: ");
                    reveal_strlit("Cannot Mul with given operands");
                    reveal_strlit("Failed to perform price multiplication: Cannot Mul with given operands");
                    assert("Failed to perform price multiplication: "@ + "Cannot Mul with given operands"@
                        =~= "Failed to perform price multiplication: Cannot Mul with given operands"@);
                }
                return Err(ContractError::Std(StdError::GenericErr { msg: message("Failed to perform price multiplication: ", m.as_str()) }));
            },
        };
        i = i + 1;
    }
    Ok(acc)
}

/// What a query of a swap of an exact amount in checks before it asks the dex: hops,
/// a native coin in the first hop's denomination; it gives the coin and the
/// denomination out.
pub fn check_native_exact_in(asset_in: &Asset, ops: &Vec<SwapOperation>) -> (r: Result<(Coin, String), ContractError>)
    ensures
        ops@.len() == 0 ==> r == Err::<(Coin, String), ContractError>(ContractError::SwapOperationsEmpty),
        ops@.len() > 0 ==> match asset_in {
            Asset::Cw20(_) => r == Err::<(Coin, String), ContractError>(ContractError::AssetNotNative),
            Asset::Native(c) => if c.denom@ != ops@[0].denom_in@ {
                r == Err::<(Coin, String), ContractError>(ContractError::CoinInDenomMismatch)
            } else {
                r matches Ok((coin, out)) && coin.denom@ == c.denom@ && coin.amount == c.amount
                    && out@ == ops@.last().denom_out@
            },
        },
{
    let n = ops.len();
    if n == 0 {
        return Err(ContractError::SwapOperationsEmpty);
    }
    let coin = match asset_in {
        Asset::Native(c) => c.copy(),
        Asset::Cw20(_) => {
            return Err(ContractError::AssetNotNative);
        },
    };
    if coin.denom != ops[0].denom_in {
        return Err(ContractError::CoinInDenomMismatch);
    }
    Ok((coin, ops[n - 1].denom_out.clone()))
}

/// What a query of a swap for an exact amount out checks before it asks the dex:
/// hops, a native coin in the last hop's denomination; it gives the coin and the
/// denomination in.
pub fn check_native_exact_out(asset_out: &Asset, ops: &Vec<SwapOperation>) -> (r: Result<(Coin, String), ContractError>)
    ensures
        ops@.len() == 0 ==> r == Err::<(Coin, String), ContractError>(ContractError::SwapOperationsEmpty),
        ops@.len() > 0 ==> match asset_out {
            Asset::Cw20(_) => r == Err::<(Coin, String), ContractError>(ContractError::AssetNotNative),
            Asset::Native(c) => if c.denom@ != ops@.last().denom_out@ {
                r == Err::<(Coin, String), ContractError>(ContractError::CoinOutDenomMismatch)
            } else {
                r matches Ok((coin, din)) && coin.denom@ == c.denom@ && coin.amount == c.amount
                    && din@ == ops@[0].denom_in@
            },
        },
{
    let n = ops.len();
    if n == 0 {
        return Err(ContractError::SwapOperationsEmpty);
    }
    let coin = match asset_out {
        Asset::Native(c) => c.copy(),
        Asset::Cw20(_) => {
            return Err(ContractError::AssetNotNative);
        },
    };
    if coin.denom != ops[n - 1].denom_out {
        return Err(ContractError::CoinOutDenomMismatch);
    }
    Ok((coin, ops[0].denom_in.clone()))
}

/// The dex's estimate of a swap of an exact amount in, asked for the adapter.
#[derive(Debug, Clone, PartialEq, Eq)]
pub struct EstimateMultiHopSwap {
    pub route: MultiHopRoute,
    pub amount_in: i128,
    pub denom_out: String,
}

/// The estimate to ask the dex for in a query of a swap of an exact amount in.
pub fn simulate_exact_in_query(asset_in: &Asset, ops: &Vec<SwapOperation>) -> (r: Result<EstimateMultiHopSwap, ContractError>)
    ensures
        ops@.len() == 0 ==> r == Err::<EstimateMultiHopSwap, ContractError>(ContractError::SwapOperationsEmpty),
        ops@.len() > 0 ==> match asset_in {
            Asset::Cw20(_) => r == Err::<EstimateMultiHopSwap, ContractError>(ContractError::AssetNotNative),
            Asset::Native(c) => if c.denom@ != ops@[0].denom_in@ {
                r == Err::<EstimateMultiHopSwap, ContractError>(ContractError::CoinInDenomMismatch)
            } else {
                match spec_route_from_operations(ops@) {
                    Err(e) => r == Err::<EstimateMultiHopSwap, ContractError>(e),
                    Ok(hops) => if c.amount > i128::MAX {
                        r == Err::<EstimateMultiHopSwap, ContractError>(ContractError::ConversionError)
                    } else {
                        r matches Ok(q) && q.amount_in == c.amount && q.denom_out@ == ops@.last().denom_out@
                            && q.route.hops@.len() == hops.len() && (forall|i: int| 0 <= i < hops.len()
                            ==> #[trigger] q.route.hops@[i]@ == hops[i])
                    },
                }
            },
        },
{
    let (coin, denom_out) = check_native_exact_in(asset_in, ops)?;
    let route = get_route_from_swap_operations_for_query(ops)?;
    let amount_in = uint128_to_int128(coin.amount)?;
    Ok(EstimateMultiHopSwap { route, amount_in, denom_out })
}

/// A smart swap on the dex must have exactly one route.
pub fn single_route(routes: &Vec<Route>) -> (r: Result<&Route, ContractError>)
    ensures
        routes@.len() == 1 ==> r == Ok::<&Route, ContractError>(&routes@[0]),
        routes@.len() != 1 ==> r == Err::<&Route, ContractError>(ContractError::SmartSwapUnsupported),
{
    if routes.len() != 1 {
        return Err(ContractError::SmartSwapUnsupported);
    }
    Ok(&routes[0])
}

/// The simulated output of a smart swap must be in the denomination asked for.
pub fn check_smart_swap_output(asset_out: Asset, ask_denom: &str) -> (r: Result<Asset, ContractError>)
    ensures
        asset_out.spec_denom() == ask_denom@ ==> r == Ok::<Asset, ContractError>(asset_out),
        asset_out.spec_denom() != ask_denom@ ==> r == Err::<Asset, ContractError>(ContractError::SmartSwapUnexpectedOut),
{
    let d = asset_out.denom().to_owned();
    let a = ask_denom.to_owned();
    if d == a {
        Ok(asset_out)
    } else {
        Err(ContractError::SmartSwapUnexpectedOut)
    }
}

/// The multi-hop swap that the adapter sends to the dex, and the denomination that
/// it transfers back afterwards.
#[derive(Debug, Clone, PartialEq, Eq)]
pub struct DualitySwap {
    pub route: MultiHopRoute,
    pub amount_in: u128,
    pub return_denom: String,
}

/// The swap that the adapter dispatches for the entry point contract: it must be the
/// caller and send exactly one non-zero coin; the hops must chain.
pub fn execute_swap(sender: &str, entry_point: &str, funds: &Vec<Coin>, ops: &Vec<SwapOperation>) -> (r: Result<DualitySwap, ContractError>)
    ensures
        sender@ != entry_point@ ==> r == Err::<DualitySwap, ContractError>(ContractError::Unauthorized),
        sender@ == entry_point@ ==> match spec_one_coin(funds@) {
            Err(e) => r == Err::<DualitySwap, ContractError>(ContractError::Payment(e)),
            Ok(c) => match spec_route_ask_denom(ops@) {
                Err(e) => r == Err::<DualitySwap, ContractError>(e),
                Ok(d) => match spec_route_from_operations(ops@) {
                    Err(e) => r == Err::<DualitySwap, ContractError>(e),
                    Ok(hops) => r matches Ok(s) && s.amount_in == c.amount && s.return_denom@ == d
                        && s.route.hops@.len() == hops.len() && (forall|i: int| 0 <= i < hops.len()
                        ==> #[trigger] s.route.hops@[i]@ == hops[i]),
                },
            },
        },
{
    check_caller(sender, entry_point)?;
    let coin_in = match one_coin(funds) {
        Ok(c) => c,
        Err(e) => {
            return Err(ContractError::Payment(e));
        },
    };
    let denom = return_denom(ops)?;
    let route = get_route_from_swap_operations(ops)?;
    Ok(DualitySwap { route, amount_in: coin_in.amount, return_denom: denom })
}

} // verus!
