//! Multi-hop simulations: a venue is asked hop by hop what a hop returns (or needs),
//! each answer is held to the spread limit, and the next hop is asked with what the
//! previous one gave. The adapters ask the venue; these functions take its answers.

use vstd::prelude::*;
use crate::asset::Asset;
use crate::error::ContractError;
use crate::spot_price::{assert_max_spread, spec_assert_max_spread};
use crate::swap::SwapOperation;

verus! {

/// A venue's answer for one hop: the amount (returned, or to offer) and the spread.
#[derive(Debug, Clone, Copy, PartialEq, Eq)]
pub struct HopQuote {
    pub amount: u128,
    pub spread: u128,
}

/// The first error among the answers for the hops from `i` on, if any: a hop whose
/// spread is too large (or whose sum overflows); with `native_only`, a hop asked
/// with a CW20 asset (the contract leaves that unimplemented). Hop `i` is asked with
/// `asset_is_cw20`, each later hop with the kind of the previous hop's output.
pub open spec fn spec_exact_in_error(
    asset_is_cw20: bool,
    ops: Seq<SwapOperation>,
    quotes: Seq<HopQuote>,
    out_is_address: Seq<bool>,
    native_only: bool,
    i: int,
) -> Option<ContractError>
    decreases ops.len() - i,
{
    if i >= ops.len() || i < 0 {
        None
    } else if native_only && asset_is_cw20 {
        Some(ContractError::Aborted)
    } else {
        match spec_assert_max_spread(quotes[i].amount, quotes[i].spread) {
            Err(e) => Some(e),
            Ok(_) => spec_exact_in_error(out_is_address[i], ops, quotes, out_is_address, native_only, i + 1),
        }
    }
}

/// The asset that a swap of exactly `asset_in` through `ops` returns, from the
/// venue's answers for each hop in order; `out_is_address[i]` is whether hop `i`'s
/// `denom_out` is a token contract.
pub fn simulate_exact_in(
    asset_in: Asset,
    ops: &Vec<SwapOperation>,
    quotes: &Vec<HopQuote>,
    out_is_address: &Vec<bool>,
    native_only: bool,
) -> (r: Result<Asset, ContractError>)
    requires
        quotes@.len() == ops@.len(),
        out_is_address@.len() == ops@.len(),
    ensures
        match spec_exact_in_error(asset_in is Cw20, ops@, quotes@, out_is_address@, native_only, 0) {
            Some(e) => r == Err::<Asset, ContractError>(e),
            None => if ops@.len() == 0 {
                r == Ok::<Asset, ContractError>(asset_in)
            } else {
                r matches Ok(a) && a.spec_denom() == ops@.last().denom_out@ && a.spec_amount()
                    == quotes@.last().amount && (a is Cw20) == out_is_address@.last()
            },
        },
{
    let mut asset = asset_in;
    let mut i: usize = 0;
    while i < ops.len()
        invariant
            0 <= i <= ops.len(),
            quotes@.len() == ops@.len(),
            out_is_address@.len() == ops@.len(),
            spec_exact_in_error(asset_in is Cw20, ops@, quotes@, out_is_address@, native_only, 0)
                == spec_exact_in_error(asset is Cw20, ops@, quotes@, out_is_address@, native_only, i as int),
            i == 0 ==> asset == asset_in,
            i > 0 ==> asset.spec_denom() == ops@[i - 1].denom_out@ && asset.spec_amount() == quotes@[i - 1].amount
                && (asset is Cw20) == out_is_address@[i - 1],
        decreases ops.len() - i,
    {
        if native_only && asset.is_cw20() {
            return Err(ContractError::Aborted);
        }
        match assert_max_spread(quotes[i].amount, quotes[i].spread) {
            Err(e) => {
                return Err(e);
            },
            Ok(_) => {},
        }
        asset = Asset::new(ops[i].denom_out.as_str(), quotes[i].amount, out_is_address[i]);
        i = i + 1;
    }
    Ok(asset)
}

/// The first error among the answers for the hops from the back, the `k`-th answer
/// being for hop `ops.len() - 1 - k`.
pub open spec fn spec_exact_out_error(
    asset_is_cw20: bool,
    ops: Seq<SwapOperation>,
    quotes: Seq<HopQuote>,
    in_is_address: Seq<bool>,
    native_only: bool,
    k: int,
) -> Option<ContractError>
    decreases ops.len() - k,
{
    if k >= ops.len() || k < 0 {
        None
    } else if native_only && asset_is_cw20 {
        Some(ContractError::Aborted)
    } else {
        match spec_assert_max_spread(quotes[k].amount, quotes[k].spread) {
            Err(e) => Some(e),
            Ok(_) => if quotes[k].amount + 1 > u128::MAX {
                Some(ContractError::Overflow)
            } else {
                spec_exact_out_error(in_is_address[ops.len() - 1 - k], ops, quotes, in_is_address, native_only, k + 1)
            },
        }
    }
}

/// The asset that a swap for exactly `asset_out` through `ops` needs, from the
/// venue's answers for each hop from the last to the first: before a hop, what it
/// asks to be offered plus one. `in_is_address[i]` is whether hop `i`'s `denom_in` is
/// a token contract.
pub fn simulate_exact_out(
    asset_out: Asset,
    ops: &Vec<SwapOperation>,
    quotes: &Vec<HopQuote>,
    in_is_address: &Vec<bool>,
    native_only: bool,
) -> (r: Result<Asset, ContractError>)
    requires
        quotes@.len() == ops@.len(),
        in_is_address@.len() == ops@.len(),
    ensures
        match spec_exact_out_error(asset_out is Cw20, ops@, quotes@, in_is_address@, native_only, 0) {
            Some(e) => r == Err::<Asset, ContractError>(e),
            None => if ops@.len() == 0 {
                r == Ok::<Asset, ContractError>(asset_out)
            } else {
                r matches Ok(a) && a.spec_denom() == ops@[0].denom_in@ && a.spec_amount()
                    == quotes@.last().amount + 1 && (a is Cw20) == in_is_address@[0]
            },
        },
{
    let n = ops.len();
    let mut asset = asset_out;
    let mut k: usize = 0;
    while k < n
        invariant
            n == ops@.len(),
            0 <= k <= n,
            quotes@.len() == n,
            in_is_address@.len() == n,
            spec_exact_out_error(asset_out is Cw20, ops@, quotes@, in_is_address@, native_only, 0)
                == spec_exact_out_error(asset is Cw20, ops@, quotes@, in_is_address@, native_only, k as int),
            k == 0 ==> asset == asset_out,
            k > 0 ==> asset.spec_denom() == ops@[n - k].denom_in@ && asset.spec_amount() == quotes@[k - 1].amount + 1
                && (asset is Cw20) == in_is_address@[n - k],
        decreases n - k,
    {
        if native_only && asset.is_cw20() {
            return Err(ContractError::Aborted);
        }
        match assert_max_spread(quotes[k].amount, quotes[k].spread) {
            Err(e) => {
                return Err(e);
            },
            Ok(_) => {},
        }
        let needed = match quotes[k].amount.checked_add(1) {
            Some(v) => v,
            None => {
                return Err(ContractError::Overflow);
            },
        };
        let hop = n - 1 - k;
        asset = Asset::new(ops[hop].denom_in.as_str(), needed, in_is_address[hop]);
        k = k + 1;
    }
    Ok(asset)
}

/// A venue's answer keeps within the spread limit: `amount + spread` is positive and
/// fits, and the spread is at most half of it (`spread * 10^18 / (amount + spread)`,
/// rounded down, at most `0.5 * 10^18`).
pub open spec fn hop_within_spread_limit(q: HopQuote) -> bool {
    &&& 0 < q.amount + q.spread <= u128::MAX
    &&& (q.spread as int) * 1_000_000_000_000_000_000 / ((q.amount + q.spread) as int) <= 500_000_000_000_000_000
}

/// The answer's spread is over the limit, though `amount + spread` is positive and fits.
pub open spec fn hop_over_spread_limit(q: HopQuote) -> bool {
    &&& 0 < q.amount + q.spread <= u128::MAX
    &&& (q.spread as int) * 1_000_000_000_000_000_000 / ((q.amount + q.spread) as int) > 500_000_000_000_000_000
}

/// A simulation of a swap of an exact amount in that succeeds had every hop's
/// answer (not only the first) within the spread limit.
pub proof fn lemma_exact_in_success_checks_every_hop(
    asset_is_cw20: bool,
    ops: Seq<SwapOperation>,
    quotes: Seq<HopQuote>,
    out_is_address: Seq<bool>,
    native_only: bool,
    s: int,
)
    requires
        quotes.len() == ops.len(),
        out_is_address.len() == ops.len(),
        0 <= s,
        spec_exact_in_error(asset_is_cw20, ops, quotes, out_is_address, native_only, s) is None,
    ensures
        forall|i: int| s <= i < ops.len() ==> hop_within_spread_limit(#[trigger] quotes[i]),
    decreases ops.len() - s,
{
    if s < ops.len() {
        lemma_exact_in_success_checks_every_hop(out_is_address[s], ops, quotes, out_is_address, native_only, s + 1);
    }
}

/// The first hop whose answer is over the spread limit makes a simulation of a swap
/// of an exact amount in fail with `MaxSpreadAssertion`, when every hop before it
/// was within the limit (and the simulation is not restricted to native coins),
/// whichever hop it is.
pub proof fn lemma_exact_in_first_spread_over_limit(
    asset_is_cw20: bool,
    ops: Seq<SwapOperation>,
    quotes: Seq<HopQuote>,
    out_is_address: Seq<bool>,
    s: int,
    i: int,
)
    requires
        quotes.len() == ops.len(),
        out_is_address.len() == ops.len(),
        0 <= s <= i < ops.len(),
        forall|j: int| s <= j < i ==> hop_within_spread_limit(#[trigger] quotes[j]),
        hop_over_spread_limit(quotes[i]),
    ensures
        spec_exact_in_error(asset_is_cw20, ops, quotes, out_is_address, false, s) == Some(ContractError::MaxSpreadAssertion),
    decreases i - s,
{
    if s < i {
        assert(hop_within_spread_limit(quotes[s]));
        lemma_exact_in_first_spread_over_limit(out_is_address[s], ops, quotes, out_is_address, s + 1, i);
    }
}

/// A simulation of a swap for an exact amount out that succeeds had every hop's
/// answer within the spread limit.
pub proof fn lemma_exact_out_success_checks_every_hop(
    asset_is_cw20: bool,
    ops: Seq<SwapOperation>,
    quotes: Seq<HopQuote>,
    in_is_address: Seq<bool>,
    native_only: bool,
    k: int,
)
    requires
        quotes.len() == ops.len(),
        in_is_address.len() == ops.len(),
        0 <= k,
        spec_exact_out_error(asset_is_cw20, ops, quotes, in_is_address, native_only, k) is None,
    ensures
        forall|j: int| k <= j < ops.len() ==> hop_within_spread_limit(#[trigger] quotes[j]),
    decreases ops.len() - k,
{
    if k < ops.len() {
        lemma_exact_out_success_checks_every_hop(
            in_is_address[ops.len() - 1 - k],
            ops,
            quotes,
            in_is_address,
            native_only,
            k + 1,
        );
    }
}

/// The first answer over the spread limit makes a simulation of a swap for an exact
/// amount out fail with `MaxSpreadAssertion`, when every earlier answer was within
/// the limit and left room for the one added to what it asks (and the simulation is
/// not restricted to native coins).
pub proof fn lemma_exact_out_first_spread_over_limit(
    asset_is_cw20: bool,
    ops: Seq<SwapOperation>,
    quotes: Seq<HopQuote>,
    in_is_address: Seq<bool>,
    k: int,
    i: int,
)
    requires
        quotes.len() == ops.len(),
        in_is_address.len() == ops.len(),
        0 <= k <= i < ops.len(),
        forall|j: int| k <= j < i ==> hop_within_spread_limit(#[trigger] quotes[j]) && quotes[j].amount < u128::MAX,
        hop_over_spread_limit(quotes[i]),
    ensures
        spec_exact_out_error(asset_is_cw20, ops, quotes, in_is_address, false, k) == Some(ContractError::MaxSpreadAssertion),
    decreases i - k,
{
    if k < i {
        assert(hop_within_spread_limit(quotes[k]));
        lemma_exact_out_first_spread_over_limit(in_is_address[ops.len() - 1 - k], ops, quotes, in_is_address, k + 1, i);
    }
}

} // verus!
