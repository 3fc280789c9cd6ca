//! Spot prices and spread checks computed from the simulations that the swap
//! venues answer, hop by hop and route by route.

use vstd::prelude::*;
use crate::decimal::{
    Decimal, DECIMAL_FRACTIONAL, product_atomics, ratio_atomics, spec_checked_add, spec_checked_div, spec_checked_from_ratio,
    spec_checked_mul,
};
use crate::error::ContractError;
use crate::swap::{lemma_sum_monotone, lemma_sum_nonneg, spec_sum};

verus! {

/// The atomics of the largest spread that a simulated hop may have: `0.5`.
pub open spec fn max_spread_atomics() -> int {
    500_000_000_000_000_000
}

/// The outcome of the spread check of one hop.
pub open spec fn spec_assert_max_spread(return_amount: u128, spread_amount: u128) -> Result<(), ContractError> {
    if return_amount + spread_amount > u128::MAX || return_amount + spread_amount == 0 {
        Err(ContractError::Aborted)
    } else if ratio_atomics(spread_amount as int, return_amount + spread_amount) > max_spread_atomics() {
        Err(ContractError::MaxSpreadAssertion)
    } else {
        Ok(())
    }
}

/// The maximum spread as a decimal.
pub fn max_allowed_slippage() -> (r: Decimal)
    ensures
        r.atomics == max_spread_atomics(),
{
    Decimal::percent(50)
}

/// Refuses a hop whose spread exceeds half of what it would return without it:
/// `spread / (return + spread) > 0.5`. The sum must fit and not be zero (the
/// contract aborts otherwise).
pub fn assert_max_spread(return_amount: u128, spread_amount: u128) -> (r: Result<(), ContractError>)
    ensures
        r == spec_assert_max_spread(return_amount, spread_amount),
{
    let max_spread = max_allowed_slippage();
    let total = match return_amount.checked_add(spread_amount) {
        Some(t) => t,
        None => {
            return Err(ContractError::Aborted);
        },
    };
    if total == 0 {
        return Err(ContractError::Aborted);
    }
    proof {
        let f: int = DECIMAL_FRACTIONAL as int;
        assert(spread_amount * f / (total as int) <= f) by (nonlinear_arith)
            requires
                spread_amount <= total,
                total > 0,
                f > 0,
        {
            let q = spread_amount * f / (total as int);
            assert(q * total <= spread_amount * f);
            assert(spread_amount * f <= total * f);
        }
    }
    let ratio = match Decimal::checked_from_ratio(spread_amount, total) {
        Some(d) => d,
        None => {
            return Err(ContractError::Aborted);
        },
    };
    if ratio.gt(max_spread) {
        Err(ContractError::MaxSpreadAssertion)
    } else {
        Ok(())
    }
}

/// A hop whose spread does not exceed what it returns passes the spread check.
pub proof fn lemma_spread_within_return_passes(return_amount: u128, spread_amount: u128)
    requires
        spread_amount <= return_amount,
        return_amount + spread_amount <= u128::MAX,
        return_amount > 0,
    ensures
        spec_assert_max_spread(return_amount, spread_amount) is Ok,
{
    let t: int = return_amount + spread_amount;
    let s: int = spread_amount as int;
    assert(2 * s <= t);
    assert(s * 1_000_000_000_000_000_000 / t <= 500_000_000_000_000_000) by (nonlinear_arith)
        requires
            2 * s <= t,
            t > 0,
            s >= 0,
    {
        assert(2 * (s * 1_000_000_000_000_000_000) <= t * 1_000_000_000_000_000_000);
        let q = s * 1_000_000_000_000_000_000 / t;
        assert(q * t <= s * 1_000_000_000_000_000_000);
    }
}

/// `first + sum(rest)`, added one by one, or `None` when it does not fit.
pub fn checked_total(first: u128, rest: &Vec<u128>) -> (r: Option<u128>)
    ensures
        first + spec_sum(rest@) <= u128::MAX ==> r == Some((first + spec_sum(rest@)) as u128),
        first + spec_sum(rest@) > u128::MAX ==> r is None,
{
    let mut acc: u128 = first;
    let mut i: usize = 0;
    while i < rest.len()
        invariant
            0 <= i <= rest.len(),
            acc == first + spec_sum(rest@.take(i as int)),
        decreases rest.len() - i,
    {
        proof {
            assert(rest@.take(i + 1).drop_last() =~= rest@.take(i as int));
            lemma_sum_monotone(rest@, i + 1);
        }
        match acc.checked_add(rest[i]) {
            Some(v) => {
                acc = v;
            },
            None => {
                return None;
            },
        }
        i = i + 1;
    }
    assert(rest@.take(i as int) =~= rest@);
    Some(acc)
}

/// What a venue answers for one hop of a swap of an exact amount in: the amount
/// returned, and the amounts that the spread and the fees took from it.
#[derive(Debug, Clone, PartialEq, Eq)]
pub struct SimHop {
    pub returned: u128,
    pub fees: Vec<u128>,
}

/// What a venue answers for one hop of a swap for an exact amount out: the amount to
/// offer, and the amounts that the spread and the fees take.
#[derive(Debug, Clone, PartialEq, Eq)]
pub struct ReverseHop {
    pub offer: u128,
    pub fees: Vec<u128>,
}

/// The price of a chain of hops without slippage, from the front: each hop's
/// factor is what it would return without spread and fees over what went in.
pub open spec fn spec_spot_price_forward(amount_in: u128, price: Decimal, hops: Seq<SimHop>) -> Result<Decimal, ContractError>
    decreases hops.len(),
{
    if hops.len() == 0 {
        Ok(price)
    } else {
        let h = hops[0];
        let without_slippage = h.returned + spec_sum(h.fees@);
        if without_slippage > u128::MAX {
            Err(ContractError::Overflow)
        } else {
            match spec_checked_from_ratio(without_slippage as u128, amount_in) {
                None => Err(ContractError::Aborted),
                Some(factor) => match spec_checked_mul(price, factor) {
                    None => Err(ContractError::Overflow),
                    Some(p) => spec_spot_price_forward(h.returned, p, hops.drop_first()),
                },
            }
        }
    }
}

/// The price of a chain of hops without slippage, from the back: each hop's factor
/// is what it would give without spread and fees over what it needs offered; the
/// amount needed before a hop is its offer plus one.
pub open spec fn spec_spot_price_reverse(amount_out: u128, price: Decimal, hops: Seq<ReverseHop>) -> Result<Decimal, ContractError>
    decreases hops.len(),
{
    if hops.len() == 0 {
        Ok(price)
    } else {
        let h = hops[0];
        let without_slippage = amount_out + spec_sum(h.fees@);
        if without_slippage > u128::MAX || h.offer + 1 > u128::MAX {
            Err(ContractError::Overflow)
        } else {
            match spec_checked_from_ratio(without_slippage as u128, h.offer) {
                None => Err(ContractError::Aborted),
                Some(factor) => match spec_checked_mul(price, factor) {
                    None => Err(ContractError::Overflow),
                    Some(p) => spec_spot_price_reverse((h.offer + 1) as u128, p, hops.drop_first()),
                },
            }
        }
    }
}

/// The reverse spot price of two hops is the product of their factors (each
/// product rounded down), and the amount that a hop's factor is computed on is what
/// the hop after it needs: the swap's amount out for the last hop, the last hop's
/// offer plus one for the hop before it.
pub proof fn lemma_reverse_price_two_hops(amount_out: u128, h0: ReverseHop, h1: ReverseHop)
    ensures
        spec_spot_price_reverse(amount_out, Decimal { atomics: DECIMAL_FRACTIONAL }, seq![h0, h1]) matches Ok(p)
            ==> p.atomics == product_atomics(
            ratio_atomics(amount_out + spec_sum(h0.fees@), h0.offer as int),
            ratio_atomics(h0.offer + 1 + spec_sum(h1.fees@), h1.offer as int),
        ),
{
    let s = seq![h0, h1];
    let one = Decimal { atomics: DECIMAL_FRACTIONAL };
    lemma_sum_nonneg(h0.fees@);
    lemma_sum_nonneg(h1.fees@);
    assert(s[0] == h0 && s[1] == h1);
    assert(s.drop_first() =~= seq![h1]);
    assert(seq![h1][0] == h1);
    assert(seq![h1].drop_first() =~= Seq::<ReverseHop>::empty());
    let r0 = ratio_atomics(amount_out + spec_sum(h0.fees@), h0.offer as int);
    let f = DECIMAL_FRACTIONAL as int;
    assert(product_atomics(f, r0) == r0) by (nonlinear_arith)
        requires
            f == 1_000_000_000_000_000_000,
    {
        assert(f * r0 / f == r0);
    }
    if let Ok(p) = spec_spot_price_reverse(amount_out, one, s) {
        let w0 = (amount_out + spec_sum(h0.fees@)) as u128;
        let f0 = spec_checked_from_ratio(w0, h0.offer)->Some_0;
        let p0 = spec_checked_mul(one, f0)->Some_0;
        assert(f0.atomics == r0);
        assert(p0.atomics == r0);
        assert(spec_spot_price_reverse(amount_out, one, s) == spec_spot_price_reverse((h0.offer + 1) as u128, p0, seq![h1]));
        let w1 = ((h0.offer + 1) as u128 + spec_sum(h1.fees@)) as u128;
        let f1 = spec_checked_from_ratio(w1, h1.offer)->Some_0;
        assert(spec_spot_price_reverse((h0.offer + 1) as u128, p0, seq![h1]) == spec_spot_price_reverse(
            (h1.offer + 1) as u128,
            spec_checked_mul(p0, f1)->Some_0,
            Seq::<ReverseHop>::empty(),
        ));
    }
}

/// The reverse spot price depends on the swap's amount out only through the last
/// hop's factor: two swaps through the same hops whose last hops have the same
/// factor have the same spot price, whatever their amounts out.
pub proof fn lemma_reverse_price_depends_on_amount_out_once(a1: u128, a2: u128, price: Decimal, hops: Seq<ReverseHop>)
    requires
        hops.len() > 0,
        a1 + spec_sum(hops[0].fees@) <= u128::MAX,
        a2 + spec_sum(hops[0].fees@) <= u128::MAX,
        ratio_atomics(a1 + spec_sum(hops[0].fees@), hops[0].offer as int) == ratio_atomics(
            a2 + spec_sum(hops[0].fees@),
            hops[0].offer as int,
        ),
    ensures
        spec_spot_price_reverse(a1, price, hops) == spec_spot_price_reverse(a2, price, hops),
{
    let h = hops[0];
    lemma_sum_nonneg(h.fees@);
    let w1 = (a1 + spec_sum(h.fees@)) as u128;
    let w2 = (a2 + spec_sum(h.fees@)) as u128;
    assert(spec_checked_from_ratio(w1, h.offer) == spec_checked_from_ratio(w2, h.offer));
}

/// The spot price of a swap of `amount_in` through the simulated hops, in the order
/// of the hops.
pub fn spot_price_from_simulation(amount_in: u128, hops: &Vec<SimHop>) -> (r: Result<Decimal, ContractError>)
    ensures
        r == spec_spot_price_forward(amount_in, Decimal { atomics: DECIMAL_FRACTIONAL }, hops@),
{
    let mut prev = amount_in;
    let mut price = Decimal::one();
    let mut i: usize = 0;
    assert(hops@.skip(0) =~= hops@);
    while i < hops.len()
        invariant
            0 <= i <= hops.len(),
            spec_spot_price_forward(prev, price, hops@.skip(i as int))
                == spec_spot_price_forward(amount_in, Decimal { atomics: DECIMAL_FRACTIONAL }, hops@),
        decreases hops.len() - i,
    {
        let h = &hops[i];
        proof {
            assert(hops@.skip(i as int)[0] == *h);
            assert(hops@.skip(i as int).drop_first() =~= hops@.skip(i + 1));
        }
        let without_slippage = match checked_total(h.returned, &h.fees) {
            Some(v) => v,
            None => {
                return Err(ContractError::Overflow);
            },
        };
        let factor = match Decimal::checked_from_ratio(without_slippage, prev) {
            Some(f) => f,
            None => {
                return Err(ContractError::Aborted);
            },
        };
        price = match price.checked_mul(factor) {
            Some(p) => p,
            None => {
                return Err(ContractError::Overflow);
            },
        };
        prev = h.returned;
        i = i + 1;
    }
    assert(hops@.skip(i as int).len() == 0);
    Ok(price)
}

/// The spot price of a swap for `amount_out` through the simulated hops, given in
/// the order they were simulated: from the last hop back to the first.
pub fn spot_price_from_reverse_simulation(amount_out: u128, hops: &Vec<ReverseHop>) -> (r: Result<Decimal, ContractError>)
    ensures
        r == spec_spot_price_reverse(amount_out, Decimal { atomics: DECIMAL_FRACTIONAL }, hops@),
{
    let mut needed = amount_out;
    let mut price = Decimal::one();
    let mut i: usize = 0;
    assert(hops@.skip(0) =~= hops@);
    while i < hops.len()
        invariant
            0 <= i <= hops.len(),
            spec_spot_price_reverse(needed, price, hops@.skip(i as int))
                == spec_spot_price_reverse(amount_out, Decimal { atomics: DECIMAL_FRACTIONAL }, hops@),
        decreases hops.len() - i,
    {
        let h = &hops[i];
        proof {
            assert(hops@.skip(i as int)[0] == *h);
            assert(hops@.skip(i as int).drop_first() =~= hops@.skip(i + 1));
        }
        let without_slippage = match checked_total(needed, &h.fees) {
            Some(v) => v,
            None => {
                return Err(ContractError::Overflow);
            },
        };
        let next_needed = match h.offer.checked_add(1) {
            Some(v) => v,
            None => {
                return Err(ContractError::Overflow);
            },
        };
        let factor = match Decimal::checked_from_ratio(without_slippage, h.offer) {
            Some(f) => f,
            None => {
                return Err(ContractError::Aborted);
            },
        };
        price = match price.checked_mul(factor) {
            Some(p) => p,
            None => {
                return Err(ContractError::Overflow);
            },
        };
        needed = next_needed;
        i = i + 1;
    }
    assert(hops@.skip(i as int).len() == 0);
    Ok(price)
}

/// One route's share of a smart swap's spot price: `price * offer / amount_in`
/// added to `acc`. The ratio, the product and the sum are unchecked in the contract
/// (it aborts on a zero `amount_in` or an overflow).
pub open spec fn spec_weighted_step(acc: Decimal, offer: u128, amount_in: u128, price: Decimal) -> Result<Decimal, ContractError> {
    match spec_checked_from_ratio(offer, amount_in) {
        None => Err(ContractError::Aborted),
        Some(weight) => match spec_checked_mul(price, weight) {
            None => Err(ContractError::Aborted),
            Some(part) => match spec_checked_add(acc, part) {
                None => Err(ContractError::Aborted),
                Some(s) => Ok(s),
            },
        },
    }
}

/// Adds one route's weighted price to the running spot price of a smart swap.
pub fn weighted_step(acc: Decimal, offer: u128, amount_in: u128, price: Decimal) -> (r: Result<Decimal, ContractError>)
    ensures
        r == spec_weighted_step(acc, offer, amount_in, price),
{
    let weight = match Decimal::checked_from_ratio(offer, amount_in) {
        Some(w) => w,
        None => {
            return Err(ContractError::Aborted);
        },
    };
    let part = match price.checked_mul(weight) {
        Some(p) => p,
        None => {
            return Err(ContractError::Aborted);
        },
    };
    match acc.checked_add(part) {
        Some(s) => Ok(s),
        None => Err(ContractError::Aborted),
    }
}

/// The spot price of a smart swap from the prices of its routes: the sum of each
/// route's price weighted by its share of the amount in. A route without a price
/// makes the contract abort.
pub open spec fn spec_weighted_spot_price(acc: Decimal, amount_in: u128, offers: Seq<u128>, prices: Seq<Decimal>) -> Result<Decimal, ContractError>
    decreases offers.len(),
{
    if offers.len() == 0 {
        Ok(acc)
    } else {
        match spec_checked_from_ratio(offers[0], amount_in) {
            None => Err(ContractError::Aborted),
            Some(_) => if prices.len() == 0 {
                Err(ContractError::Aborted)
            } else {
                match spec_weighted_step(acc, offers[0], amount_in, prices[0]) {
                    Err(e) => Err(e),
                    Ok(s) => spec_weighted_spot_price(s, amount_in, offers.drop_first(), prices.drop_first()),
                }
            },
        }
    }
}

/// A smart swap with a single route that is offered the whole amount in has that
/// route's spot price: its weight is exactly one.
pub proof fn lemma_single_route_has_its_price(amount_in: u128, price: Decimal)
    requires
        amount_in > 0,
    ensures
        spec_weighted_spot_price(Decimal { atomics: 0 }, amount_in, seq![amount_in], seq![price])
            == Ok::<Decimal, ContractError>(price),
{
    let f = DECIMAL_FRACTIONAL as int;
    let a = amount_in as int;
    assert(a * f / a == f) by (nonlinear_arith)
        requires
            a > 0,
    ;
    assert(ratio_atomics(a, a) == f);
    assert((price.atomics as int) * f / f == price.atomics) by (nonlinear_arith)
        requires
            f > 0,
    ;
    let w = Decimal { atomics: DECIMAL_FRACTIONAL };
    assert(spec_checked_from_ratio(amount_in, amount_in) == Some(w));
    assert(spec_checked_mul(price, w) == Some(price));
    assert(spec_checked_add(Decimal { atomics: 0 }, price) == Some(price));
    assert(spec_weighted_step(Decimal { atomics: 0 }, amount_in, amount_in, price) == Ok::<Decimal, ContractError>(price));
    assert(seq![amount_in].drop_first().len() == 0);
    assert(spec_weighted_spot_price(price, amount_in, seq![amount_in].drop_first(), seq![price].drop_first())
        == Ok::<Decimal, ContractError>(price));
}

/// The weighted spot price of a smart swap whose routes offer `offers` out of
/// `amount_in` and have the given prices.
pub fn weighted_spot_price(amount_in: u128, offers: &Vec<u128>, prices: &Vec<Decimal>) -> (r: Result<Decimal, ContractError>)
    ensures
        r == spec_weighted_spot_price(Decimal { atomics: 0 }, amount_in, offers@, prices@),
{
    let mut acc = Decimal::zero();
    let mut i: usize = 0;
    assert(offers@.skip(0) =~= offers@);
    assert(prices@.skip(0) =~= prices@);
    while i < offers.len()
        invariant
            0 <= i <= offers.len(),
            i <= prices.len(),
            spec_weighted_spot_price(acc, amount_in, offers@.skip(i as int), prices@.skip(i as int))
                == spec_weighted_spot_price(Decimal { atomics: 0 }, amount_in, offers@, prices@),
        decreases offers.len() - i,
    {
        proof {
            assert(offers@.skip(i as int)[0] == offers@[i as int]);
            assert(offers@.skip(i as int).drop_first() =~= offers@.skip(i + 1));
            if i < prices.len() {
                assert(prices@.skip(i as int)[0] == prices@[i as int]);
                assert(prices@.skip(i as int).drop_first() =~= prices@.skip(i + 1));
            }
        }
        if Decimal::checked_from_ratio(offers[i], amount_in).is_none() {
            return Err(ContractError::Aborted);
        }
        if i >= prices.len() {
            return Err(ContractError::Aborted);
        }
        acc = match weighted_step(acc, offers[i], amount_in, prices[i]) {
            Ok(s) => s,
            Err(e) => {
                return Err(e);
            },
        };
        i = i + 1;
    }
    assert(offers@.skip(i as int).len() == 0);
    Ok(acc)
}

/// The spot price of a smart swap whose routes were simulated hop by hop: each
/// route's price is computed from its hops starting from the whole amount in, then
/// weighted by the route's share of it.
pub open spec fn spec_weighted_spot_price_from_simulations(
    acc: Decimal,
    amount_in: u128,
    offers: Seq<u128>,
    routes: Seq<Vec<SimHop>>,
) -> Result<Decimal, ContractError>
    decreases offers.len(),
{
    if offers.len() == 0 || routes.len() == 0 {
        Ok(acc)
    } else {
        match spec_spot_price_forward(amount_in, Decimal { atomics: DECIMAL_FRACTIONAL }, routes[0]@) {
            Err(e) => Err(e),
            Ok(price) => match spec_weighted_step(acc, offers[0], amount_in, price) {
                Err(e) => Err(e),
                Ok(s) => spec_weighted_spot_price_from_simulations(s, amount_in, offers.drop_first(), routes.drop_first()),
            },
        }
    }
}

/// The weighted spot price of a smart swap from the simulations of its routes
/// (routes beyond the shorter of the two lists are not counted).
pub fn weighted_spot_price_from_simulations(amount_in: u128, offers: &Vec<u128>, routes: &Vec<Vec<SimHop>>) -> (r: Result<Decimal, ContractError>)
    ensures
        r == spec_weighted_spot_price_from_simulations(Decimal { atomics: 0 }, amount_in, offers@, routes@),
{
    let mut acc = Decimal::zero();
    let mut i: usize = 0;
    assert(offers@.skip(0) =~= offers@);
    assert(routes@.skip(0) =~= routes@);
    while i < offers.len() && i < routes.len()
        invariant
            0 <= i <= offers.len(),
            i <= routes.len(),
            spec_weighted_spot_price_from_simulations(acc, amount_in, offers@.skip(i as int), routes@.skip(i as int))
                == spec_weighted_spot_price_from_simulations(Decimal { atomics: 0 }, amount_in, offers@, routes@),
        decreases offers.len() - i,
    {
        proof {
            assert(offers@.skip(i as int)[0] == offers@[i as int]);
            assert(offers@.skip(i as int).drop_first() =~= offers@.skip(i + 1));
            assert(routes@.skip(i as int)[0] == routes@[i as int]);
            assert(routes@.skip(i as int).drop_first() =~= routes@.skip(i + 1));
        }
        let price = match spot_price_from_simulation(amount_in, &routes[i]) {
            Ok(p) => p,
            Err(e) => {
                return Err(e);
            },
        };
        acc = match weighted_step(acc, offers[i], amount_in, price) {
            Ok(s) => s,
            Err(e) => {
                return Err(e);
            },
        };
        i = i + 1;
    }
    assert(offers@.skip(i as int).len() == 0 || routes@.skip(i as int).len() == 0);
    Ok(acc)
}

/// The product of the hops' prices (`invert`: of their inverses), each step a
/// checked operation; `None` when a step fails.
pub open spec fn spec_price_product(acc: Decimal, prices: Seq<Decimal>, invert: bool) -> Option<Decimal>
    decreases prices.len(),
{
    if prices.len() == 0 {
        Some(acc)
    } else {
        let factor = if invert {
            spec_checked_div(Decimal { atomics: DECIMAL_FRACTIONAL }, prices[0])
        } else {
            Some(prices[0])
        };
        match factor {
            None => None,
            Some(f) => match spec_checked_mul(acc, f) {
                None => None,
                Some(p) => spec_price_product(p, prices.drop_first(), invert),
            },
        }
    }
}

/// The product of the prices (or of their inverses), or `None` when a division or
/// a multiplication fails.
pub fn price_product(prices: &Vec<Decimal>, invert: bool) -> (r: Option<Decimal>)
    ensures
        r == spec_price_product(Decimal { atomics: DECIMAL_FRACTIONAL }, prices@, invert),
{
    let mut acc = Decimal::one();
    let mut i: usize = 0;
    assert(prices@.skip(0) =~= prices@);
    while i < prices.len()
        invariant
            0 <= i <= prices.len(),
            spec_price_product(acc, prices@.skip(i as int), invert)
                == spec_price_product(Decimal { atomics: DECIMAL_FRACTIONAL }, prices@, invert),
        decreases prices.len() - i,
    {
        proof {
            assert(prices@.skip(i as int)[0] == prices@[i as int]);
            assert(prices@.skip(i as int).drop_first() =~= prices@.skip(i + 1));
        }
        let factor = if invert {
            match Decimal::one().checked_div(prices[i]) {
                Some(f) => f,
                None => {
                    return None;
                },
            }
        } else {
            prices[i]
        };
        acc = match acc.checked_mul(factor) {
            Some(p) => p,
            None => {
                return None;
            },
        };
        i = i + 1;
    }
    assert(prices@.skip(i as int).len() == 0);
    Some(acc)
}

} // verus!
