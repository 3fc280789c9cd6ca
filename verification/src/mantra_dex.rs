//! The MANTRA dex: the pool manager's types that the adapter exchanges with it,
//! the pool fees, and the adapter's swap message and simulation steps.

use vstd::prelude::*;
use vstd::string::StringExecFns;
use crate::asset::{one_coin, spec_one_coin, Asset, Coin};
use crate::decimal::{spec_decimal_text, Decimal, DECIMAL_FRACTIONAL};
use crate::error::{ContractError, StdError};
use crate::spot_price::{assert_max_spread, max_allowed_slippage, max_spread_atomics, spec_assert_max_spread, ReverseHop, SimHop};
use crate::swap::{check_caller, lemma_sum_first, lemma_sum_nonneg, spec_sum, SwapOperation as SkipSwapOperation};
use crate::uint256::{uint256_max, Decimal256, Uint256};

verus! {

/// The type of swap operation to perform on the MANTRA dex.
#[derive(Debug, Clone, PartialEq, Eq)]
pub enum SwapOperation {
    /// A swap through one pool of the pool manager.
    MantraSwap { token_in_denom: String, token_out_denom: String, pool_identifier: String },
}

impl SwapOperation {
    pub open spec fn spec_token_in(&self) -> Seq<char> {
        match self {
            SwapOperation::MantraSwap { token_in_denom, .. } => token_in_denom@,
        }
    }

    pub open spec fn spec_token_out(&self) -> Seq<char> {
        match self {
            SwapOperation::MantraSwap { token_out_denom, .. } => token_out_denom@,
        }
    }

    pub open spec fn spec_pool(&self) -> Seq<char> {
        match self {
            SwapOperation::MantraSwap { pool_identifier, .. } => pool_identifier@,
        }
    }

    /// The denomination swapped in.
    pub fn get_input_asset_info(&self) -> (r: &String)
        ensures
            r@ == self.spec_token_in(),
    {
        match self {
            SwapOperation::MantraSwap { token_in_denom, .. } => token_in_denom,
        }
    }

    /// The denomination swapped out.
    pub fn get_target_asset_info(&self) -> (r: String)
        ensures
            r@ == self.spec_token_out(),
    {
        match self {
            SwapOperation::MantraSwap { token_out_denom, .. } => token_out_denom.clone(),
        }
    }

    /// The pool swapped through.
    pub fn get_pool_identifer(&self) -> (r: String)
        ensures
            r@ == self.spec_pool(),
    {
        match self {
            SwapOperation::MantraSwap { pool_identifier, .. } => pool_identifier.clone(),
        }
    }

    /// The operation as text, as the pool manager displays it.
    pub fn to_string(&self) -> (r: String)
        ensures
            r@ == "MantraSwap { token_in_info: "@ + self.spec_token_in() + ", token_out_info: "@ + self.spec_token_out()
                + ", pool_identifier: "@ + self.spec_pool() + " }"@,
    {
        match self {
            SwapOperation::MantraSwap { token_in_denom, token_out_denom, pool_identifier } => {
                let mut r = String::from_str("MantraSwap { token_in_info: ");
                r.append(token_in_denom.as_str());
                r.append(", token_out_info: ");
                r.append(token_out_denom.as_str());
                r.append(", pool_identifier: ");
                r.append(pool_identifier.as_str());
                r.append(" }");
                r
            },
        }
    }
}

/// A pool's type: a stable swap pool or a constant product (xyk) pool.
#[derive(Debug, Clone, PartialEq, Eq)]
pub enum PoolType {
    StableSwap { amp: u64 },
    ConstantProduct,
}

impl PoolType {
    /// The name of the pool type.
    pub fn get_label(&self) -> (r: &str)
        ensures
            self is ConstantProduct ==> r@ == "ConstantProduct"@,
            self is StableSwap ==> r@ == "StableSwap"@,
    {
        match self {
            PoolType::ConstantProduct => "ConstantProduct",
            PoolType::StableSwap { .. } => "StableSwap",
        }
    }
}

/// The pool manager's migration message; it has no fields.
#[derive(Debug, Clone, PartialEq, Eq)]
pub struct MigrateMsg {}

/// Which of swaps, deposits and withdrawals a pool allows.
#[derive(Debug, Clone, PartialEq, Eq)]
pub struct FeatureToggle {
    pub withdrawals_enabled: bool,
    pub deposits_enabled: bool,
    pub swaps_enabled: bool,
}

/// The decimals of a denomination in a pool.
#[derive(Debug, Clone, PartialEq, Eq)]
pub struct AssetDecimalsResponse {
    pub pool_identifier: String,
    pub denom: String,
    pub decimals: u8,
}

/// A pool of the pool manager.
#[derive(Debug, Clone, PartialEq, Eq)]
pub struct PoolInfo {
    pub pool_identifier: String,
    pub asset_denoms: Vec<String>,
    pub lp_denom: String,
    pub asset_decimals: Vec<u8>,
    pub assets: Vec<Coin>,
    pub pool_type: PoolType,
    pub pool_fees: PoolFee,
}

/// The pool manager's configuration.
#[derive(Debug, Clone, PartialEq, Eq)]
pub struct Config {
    pub fee_collector_addr: String,
    pub farm_manager_addr: String,
    pub pool_creation_fee: Coin,
    pub feature_toggle: FeatureToggle,
}

/// The pool manager's instantiation.
#[derive(Debug, Clone, PartialEq, Eq)]
pub struct InstantiateMsg {
    pub fee_collector_addr: String,
    pub farm_manager_addr: String,
    pub pool_creation_fee: Coin,
}

/// The pool manager's messages.
#[derive(Debug, Clone, PartialEq, Eq)]
pub enum ExecuteMsg {
    CreatePool {
        asset_denoms: Vec<String>,
        asset_decimals: Vec<u8>,
        pool_fees: PoolFee,
        pool_type: PoolType,
        pool_identifier: Option<String>,
    },
    ProvideLiquidity {
        slippage_tolerance: Option<Decimal>,
        max_spread: Option<Decimal>,
        receiver: Option<String>,
        pool_identifier: String,
        unlocking_duration: Option<u64>,
        lock_position_identifier: Option<String>,
    },
    Swap {
        ask_asset_denom: String,
        belief_price: Option<Decimal>,
        max_spread: Option<Decimal>,
        receiver: Option<String>,
        pool_identifier: String,
    },
    WithdrawLiquidity { pool_identifier: String },
    ExecuteSwapOperations {
        operations: Vec<SwapOperation>,
        minimum_receive: Option<u128>,
        receiver: Option<String>,
        max_spread: Option<Decimal>,
    },
    UpdateConfig {
        fee_collector_addr: Option<String>,
        farm_manager_addr: Option<String>,
        pool_creation_fee: Option<Coin>,
        feature_toggle: Option<FeatureToggle>,
    },
}

/// The pool manager's queries.
#[derive(Debug, Clone, PartialEq, Eq)]
pub enum QueryMsg {
    Config {},
    AssetDecimals { pool_identifier: String, denom: String },
    Simulation { offer_asset: Coin, ask_asset_denom: String, pool_identifier: String },
    ReverseSimulation { ask_asset: Coin, offer_asset_denom: String, pool_identifier: String },
    SimulateSwapOperations { offer_amount: u128, operations: Vec<SwapOperation> },
    ReverseSimulateSwapOperations { ask_amount: u128, operations: Vec<SwapOperation> },
    Pools { pool_identifier: Option<String>, start_after: Option<String>, limit: Option<u32> },
}

/// The answer to `Config`.
#[derive(Debug, Clone, PartialEq, Eq)]
pub struct ConfigResponse {
    pub config: Config,
}

/// A pool and its total LP tokens.
#[derive(Debug, Clone, PartialEq, Eq)]
pub struct PoolInfoResponse {
    pub pool_info: PoolInfo,
    pub total_share: Coin,
}

/// The answer to `Pools`.
#[derive(Debug, Clone, PartialEq, Eq)]
pub struct PoolsResponse {
    pub pools: Vec<PoolInfoResponse>,
}

/// The answer to `SimulateSwapOperations`: the amount returned and what the spreads
/// and fees of each hop took.
#[derive(Debug, Clone, PartialEq, Eq)]
pub struct SimulateSwapOperationsResponse {
    pub return_amount: u128,
    pub spreads: Vec<Coin>,
    pub swap_fees: Vec<Coin>,
    pub protocol_fees: Vec<Coin>,
    pub burn_fees: Vec<Coin>,
    pub extra_fees: Vec<Coin>,
}

/// The answer to `ReverseSimulateSwapOperations`: the amount to offer and what the
/// spreads and fees of each hop take.
#[derive(Debug, Clone, PartialEq, Eq)]
pub struct ReverseSimulateSwapOperationsResponse {
    pub offer_amount: u128,
    pub spreads: Vec<Coin>,
    pub swap_fees: Vec<Coin>,
    pub protocol_fees: Vec<Coin>,
    pub burn_fees: Vec<Coin>,
    pub extra_fees: Vec<Coin>,
}

/// The pool manager's answer to a simulated swap.
#[derive(Debug, Clone, PartialEq, Eq)]
pub struct SimulationResponse {
    pub return_amount: u128,
    pub spread_amount: u128,
    pub swap_fee_amount: u128,
    pub protocol_fee_amount: u128,
    pub burn_fee_amount: u128,
    pub extra_fees_amount: u128,
}

/// The pool manager's answer to a simulated reverse swap.
#[derive(Debug, Clone, PartialEq, Eq)]
pub struct ReverseSimulationResponse {
    pub offer_amount: u128,
    pub spread_amount: u128,
    pub swap_fee_amount: u128,
    pub protocol_fee_amount: u128,
    pub burn_fee_amount: u128,
    pub extra_fees_amount: u128,
}

impl SimulationResponse {
    /// The hop as the spot price computation reads it: the amount returned and
    /// what the spread and each fee took, in that order.
    pub fn to_hop(&self) -> (h: SimHop)
        ensures
            h.returned == self.return_amount,
            h.fees@ == seq![self.spread_amount, self.swap_fee_amount, self.protocol_fee_amount,
                self.burn_fee_amount, self.extra_fees_amount],
    {
        let mut fees: Vec<u128> = Vec::new();
        fees.push(self.spread_amount);
        fees.push(self.swap_fee_amount);
        fees.push(self.protocol_fee_amount);
        fees.push(self.burn_fee_amount);
        fees.push(self.extra_fees_amount);
        SimHop { returned: self.return_amount, fees }
    }
}

impl ReverseSimulationResponse {
    /// The hop as the spot price computation reads it: the amount to offer and what
    /// the spread and each fee take, in that order.
    pub fn to_hop(&self) -> (h: ReverseHop)
        ensures
            h.offer == self.offer_amount,
            h.fees@ == seq![self.spread_amount, self.swap_fee_amount, self.protocol_fee_amount,
                self.burn_fee_amount, self.extra_fees_amount],
    {
        let mut fees: Vec<u128> = Vec::new();
        fees.push(self.spread_amount);
        fees.push(self.swap_fee_amount);
        fees.push(self.protocol_fee_amount);
        fees.push(self.burn_fee_amount);
        fees.push(self.extra_fees_amount);
        ReverseHop { offer: self.offer_amount, fees }
    }
}

/// A fee: a share of an amount.
#[derive(Debug, Clone, PartialEq, Eq)]
pub struct Fee {
    pub share: Decimal,
}

/// The fee of `share` on `amount`: `floor(amount * share)`, or `None` when the
/// intermediate product does not fit in 256 bits.
pub open spec fn spec_fee_compute(amount: int, share: u128) -> Option<int> {
    if amount * share > uint256_max() {
        None
    } else {
        Some(amount * share / (DECIMAL_FRACTIONAL as int))
    }
}

/// The limit that fees are held to by the amounts they apply to: `amount * 10^18`
/// fits in 256 bits.
pub open spec fn fee_amount_in_range(amount: Uint256) -> bool {
    amount.value() * DECIMAL_FRACTIONAL <= uint256_max()
}

proof fn lemma_scale_cancels(amount: int, share: int)
    requires
        amount >= 0,
        share >= 0,
    ensures
        (amount * (DECIMAL_FRACTIONAL as int)) * share / (DECIMAL_FRACTIONAL as int) == amount * share,
{
    let f = DECIMAL_FRACTIONAL as int;
    assert((amount * f) * share == (amount * share) * f) by (nonlinear_arith);
    assert((amount * share) * f / f == amount * share) by (nonlinear_arith)
        requires
            f > 0,
    ;
}

impl Fee {
    /// The fee on `amount`, rounded down.
    pub fn compute(&self, amount: Uint256) -> (r: Result<Uint256, StdError>)
        requires
            fee_amount_in_range(amount),
        ensures
            match spec_fee_compute(amount.value(), self.share.atomics) {
                Some(v) => r matches Ok(f) && f.value() == v,
                None => r matches Err(StdError::GenericErr { msg }) && msg@ == "Cannot Mul with given operands"@,
            },
    {
        let base = Decimal256::from_integer(amount);
        proof {
            lemma_scale_cancels(amount.value(), self.share.atomics as int);
        }
        let share = self.to_decimal_256();
        match base.checked_mul(share) {
            Ok(p) => Ok(p.to_uint_floor()),
            Err(e) => Err(StdError::GenericErr { msg: e }),
        }
    }

    /// The share as a 256-bit decimal.
    pub fn to_decimal_256(&self) -> (r: Decimal256)
        ensures
            r.atomics.value() == self.share.atomics,
    {
        Decimal256 { atomics: Uint256::from_u128(self.share.atomics) }
    }

    /// The fee as text: its share times `1.0`, displayed as a decimal, then `%`.
    pub fn to_string(&self) -> (r: String)
        ensures
            r@ == spec_decimal_text(self.share.atomics) + "%"@,
    {
        let shown = match self.share.checked_mul(Decimal::percent(100)) {
            Some(d) => d,
            None => self.share,
        };
        assert(shown.atomics == self.share.atomics) by {
            assert((self.share.atomics as int) * (DECIMAL_FRACTIONAL as int) / (DECIMAL_FRACTIONAL as int)
                == self.share.atomics) by (nonlinear_arith);
        }
        let mut r = shown.to_string();
        r.append("%");
        r
    }

    /// A fee is valid when its share is below 100%.
    pub fn is_valid(&self) -> (r: Result<(), StdError>)
        ensures
            self.share.atomics < DECIMAL_FRACTIONAL ==> r is Ok,
            self.share.atomics >= DECIMAL_FRACTIONAL ==> (r matches Err(StdError::GenericErr { msg })
                && msg@ == "Invalid fee"@),
    {
        if self.share.ge(Decimal::percent(100)) {
            return Err(StdError::generic_err("Invalid fee"));
        }
        Ok(())
    }
}

/// The fees of a pool.
#[derive(Debug, Clone, PartialEq, Eq)]
pub struct PoolFee {
    pub protocol_fee: Fee,
    pub swap_fee: Fee,
    pub burn_fee: Fee,
    pub extra_fees: Vec<Fee>,
}

/// The shares of a pool's fees, in the order they are checked and applied: the
/// protocol, swap and burn fees, then the extra fees.
pub open spec fn pool_fee_shares(p: PoolFee) -> Seq<u128> {
    seq![p.protocol_fee.share.atomics, p.swap_fee.share.atomics, p.burn_fee.share.atomics]
        + Seq::new(p.extra_fees@.len(), |i: int| p.extra_fees@[i].share.atomics)
}

/// The total of the fees on `amount`, from `total` on; `Err(0)` when a fee's
/// product does not fit in 256 bits, `Err(1)` when the running total does not.
pub open spec fn spec_apply_fees(amount: int, total: int, shares: Seq<u128>) -> Result<int, int>
    decreases shares.len(),
{
    if shares.len() == 0 {
        Ok(total)
    } else {
        match spec_fee_compute(amount, shares[0]) {
            None => Err(0),
            Some(f) => if total + f > uint256_max() {
                Err(1)
            } else {
                spec_apply_fees(amount, total + f, shares.drop_first())
            },
        }
    }
}

/// Five percent as atomics times four: the cap of a pool's total fee share (20%).
pub open spec fn max_total_fee_atomics() -> int {
    200_000_000_000_000_000
}

/// The fees applied one by one from `total` on stay within `total` plus the shares'
/// part of `amount`: each fee is rounded down, none overflows when the bound fits.
proof fn lemma_apply_fees_bound(amount: int, total: int, shares: Seq<u128>)
    requires
        amount >= 0,
        total >= 0,
        amount * DECIMAL_FRACTIONAL <= uint256_max(),
        forall|i: int| 0 <= i < shares.len() ==> #[trigger] shares[i] < DECIMAL_FRACTIONAL,
        total * DECIMAL_FRACTIONAL + amount * spec_sum(shares) <= uint256_max() * DECIMAL_FRACTIONAL,
    ensures
        spec_apply_fees(amount, total, shares) is Ok,
        spec_apply_fees(amount, total, shares)->Ok_0 * DECIMAL_FRACTIONAL <= total * DECIMAL_FRACTIONAL + amount
            * spec_sum(shares),
    decreases shares.len(),
{
    if shares.len() > 0 {
        let f = DECIMAL_FRACTIONAL as int;
        let s0 = shares[0] as int;
        let rest = shares.drop_first();
        lemma_sum_first(shares);
        lemma_sum_nonneg(rest);
        let sr = spec_sum(rest);
        let m = uint256_max();
        assert(amount * s0 <= amount * f) by (nonlinear_arith)
            requires
                amount >= 0,
                0 <= s0 < f,
        ;
        let fee = amount * s0 / f;
        assert(fee * f <= amount * s0 && fee >= 0) by (nonlinear_arith)
            requires
                fee == amount * s0 / f,
                f > 0,
                amount >= 0,
                s0 >= 0,
        ;
        assert(amount * (s0 + sr) == amount * s0 + amount * sr) by (nonlinear_arith);
        assert(amount * sr >= 0) by (nonlinear_arith)
            requires
                amount >= 0,
                sr >= 0,
        ;
        assert((total + fee) * f == total * f + fee * f) by (nonlinear_arith);
        assert(total + fee <= m) by (nonlinear_arith)
            requires
                (total + fee) * f <= m * f,
                f > 0,
        ;
        assert forall|i: int| 0 <= i < rest.len() implies #[trigger] rest[i] < DECIMAL_FRACTIONAL by {
            assert(rest[i] == shares[i + 1]);
        }
        lemma_apply_fees_bound(amount, total + fee, rest);
    }
}

/// A pool's fees that pass validation never overcharge: on any amount that the fees
/// can be computed on, applying them all succeeds and takes at most a fifth of it.
pub proof fn lemma_valid_pool_fee_takes_at_most_a_fifth(p: PoolFee, amount: Uint256)
    requires
        fee_amount_in_range(amount),
        forall|i: int| 0 <= i < pool_fee_shares(p).len() ==> #[trigger] pool_fee_shares(p)[i] < DECIMAL_FRACTIONAL,
        spec_sum(pool_fee_shares(p)) <= max_total_fee_atomics(),
    ensures
        spec_apply_fees(amount.value(), 0, pool_fee_shares(p)) is Ok,
        5 * spec_apply_fees(amount.value(), 0, pool_fee_shares(p))->Ok_0 <= amount.value(),
{
    let a = amount.value();
    let sh = pool_fee_shares(p);
    let s = spec_sum(sh);
    let f = DECIMAL_FRACTIONAL as int;
    let m = uint256_max();
    lemma_sum_nonneg(sh);
    assert(a >= 0);
    assert(a * s <= a * max_total_fee_atomics()) by (nonlinear_arith)
        requires
            a >= 0,
            0 <= s <= max_total_fee_atomics(),
    ;
    assert(a * max_total_fee_atomics() <= a * f) by (nonlinear_arith)
        requires
            a >= 0,
            f == 1_000_000_000_000_000_000,
            max_total_fee_atomics() == 200_000_000_000_000_000,
    ;
    assert(m <= m * f) by (nonlinear_arith)
        requires
            m >= 0,
            f >= 1,
    ;
    lemma_apply_fees_bound(a, 0, sh);
    let t = spec_apply_fees(a, 0, sh)->Ok_0;
    assert(5 * t <= a) by (nonlinear_arith)
        requires
            t * f <= 0 * f + a * s,
            a * s <= a * max_total_fee_atomics(),
            f == 1_000_000_000_000_000_000,
            max_total_fee_atomics() == 200_000_000_000_000_000,
            a >= 0,
    ;
}

impl PoolFee {
    /// The shares, as a vector, in the order `pool_fee_shares` gives them.
    fn shares(&self) -> (r: Vec<u128>)
        ensures
            r@ == pool_fee_shares(*self),
    {
        let mut r: Vec<u128> = Vec::new();
        r.push(self.protocol_fee.share.atomics);
        r.push(self.swap_fee.share.atomics);
        r.push(self.burn_fee.share.atomics);
        let mut i: usize = 0;
        while i < self.extra_fees.len()
            invariant
                0 <= i <= self.extra_fees.len(),
                r@ == seq![self.protocol_fee.share.atomics, self.swap_fee.share.atomics, self.burn_fee.share.atomics]
                    + Seq::new(i as nat, |j: int| self.extra_fees@[j].share.atomics),
            decreases self.extra_fees.len() - i,
        {
            r.push(self.extra_fees[i].share.atomics);
            i = i + 1;
            assert(r@ =~= seq![self.protocol_fee.share.atomics, self.swap_fee.share.atomics, self.burn_fee.share.atomics]
                + Seq::new(i as nat, |j: int| self.extra_fees@[j].share.atomics));
        }
        assert(r@ =~= pool_fee_shares(*self));
        r
    }

    /// Checks that every fee is below 100% and that together they do not exceed 20%.
    pub fn is_valid(&self) -> (r: Result<(), StdError>)
        ensures
            (exists|i: int| 0 <= i < pool_fee_shares(*self).len()
                && #[trigger] pool_fee_shares(*self)[i] >= DECIMAL_FRACTIONAL) ==> (r matches Err(
                StdError::GenericErr { msg },
            ) && msg@ == "Invalid fee"@),
            (forall|i: int| 0 <= i < pool_fee_shares(*self).len()
                ==> #[trigger] pool_fee_shares(*self)[i] < DECIMAL_FRACTIONAL) ==> {
                &&& spec_sum(pool_fee_shares(*self)) <= max_total_fee_atomics() ==> r is Ok
                &&& spec_sum(pool_fee_shares(*self)) > max_total_fee_atomics() ==> (r matches Err(
                    StdError::GenericErr { msg },
                ) && msg@ == "Total fees cannot exceed 20%"@)
            },
    {
        let shares = self.shares();
        let mut total: u128 = 0;
        let mut i: usize = 0;
        while i < shares.len()
            invariant
                0 <= i <= shares.len(),
                shares@ == pool_fee_shares(*self),
                total == spec_sum(shares@.take(i as int)),
                total <= i * DECIMAL_FRACTIONAL,
                forall|j: int| 0 <= j < i ==> #[trigger] shares@[j] < DECIMAL_FRACTIONAL,
            decreases shares.len() - i,
        {
            if shares[i] >= DECIMAL_FRACTIONAL {
                return Err(StdError::generic_err("Invalid fee"));
            }
            proof {
                assert(shares@.take(i + 1).drop_last() =~= shares@.take(i as int));
            }
            total = total + shares[i];
            i = i + 1;
        }
        assert(shares@.take(i as int) =~= shares@);
        if total > 200_000_000_000_000_000u128 {
            return Err(StdError::generic_err("Total fees cannot exceed 20%"));
        }
        Ok(())
    }

    /// The total of all the fees on `amount`, as a 128-bit amount.
    pub fn compute_and_apply_fees(&self, amount: Uint256) -> (r: Result<u128, StdError>)
        requires
            fee_amount_in_range(amount),
        ensures
            match spec_apply_fees(amount.value(), 0, pool_fee_shares(*self)) {
                Ok(t) => if t <= u128::MAX {
                    r == Ok::<u128, StdError>(t as u128)
                } else {
                    r matches Err(StdError::GenericErr { msg }) && msg@ == "Fee conversion error"@
                },
                Err(k) => if k == 0 {
                    r matches Err(StdError::GenericErr { msg }) && msg@ == "Cannot Mul with given operands"@
                } else {
                    r == Err::<u128, StdError>(StdError::Overflow)
                },
            },
    {
        let shares = self.shares();
        let mut total = Uint256::zero();
        let mut i: usize = 0;
        assert(shares@.skip(0) =~= shares@);
        while i < shares.len()
            invariant
                0 <= i <= shares.len(),
                fee_amount_in_range(amount),
                spec_apply_fees(amount.value(), total.value(), shares@.skip(i as int))
                    == spec_apply_fees(amount.value(), 0, pool_fee_shares(*self)),
                total.value() >= 0,
            decreases shares.len() - i,
        {
            proof {
                assert(shares@.skip(i as int)[0] == shares@[i as int]);
                assert(shares@.skip(i as int).drop_first() =~= shares@.skip(i + 1));
            }
            let fee = Fee { share: Decimal { atomics: shares[i] } };
            let amt = match fee.compute(amount) {
                Ok(a) => a,
                Err(e) => {
                    return Err(e);
                },
            };
            total = match total.checked_add(amt) {
                Some(t) => t,
                None => {
                    return Err(StdError::Overflow);
                },
            };
            i = i + 1;
        }
        assert(shares@.skip(i as int).len() == 0);
        match total.to_u128() {
            Some(t) => Ok(t),
            None => Err(StdError::generic_err("Fee conversion error")),
        }
    }
}

/// The message that the adapter sends to the pool manager for a swap: the hops in
/// MANTRA's form, the receiver of the output, the maximum spread, and the coin in.
#[derive(Debug, Clone, PartialEq, Eq)]
pub struct MantraSwapMsg {
    pub operations: Vec<SwapOperation>,
    pub receiver: String,
    pub max_spread: Decimal,
    pub coin_in: Coin,
}

/// A skip swap operation in MANTRA's form.
pub open spec fn converts_to(op: SkipSwapOperation, m: SwapOperation) -> bool {
    m.spec_token_in() == op.denom_in@ && m.spec_token_out() == op.denom_out@ && m.spec_pool() == op.pool@
}

/// The swap that the adapter dispatches for the entry point contract: it must be
/// the caller and attach exactly one non-zero coin, and there must be hops. The
/// output goes back to the entry point with a maximum spread of 50%.
pub fn execute_swap(sender: &str, entry_point: &str, funds: &Vec<Coin>, operations: &Vec<SkipSwapOperation>) -> (r: Result<MantraSwapMsg, ContractError>)
    ensures
        sender@ != entry_point@ ==> r == Err::<MantraSwapMsg, ContractError>(ContractError::Unauthorized),
        sender@ == entry_point@ ==> match spec_one_coin(funds@) {
            Err(e) => r == Err::<MantraSwapMsg, ContractError>(ContractError::Payment(e)),
            Ok(c) => if operations@.len() == 0 {
                r == Err::<MantraSwapMsg, ContractError>(ContractError::SwapOperationsEmpty)
            } else {
                r matches Ok(m) && m.operations@.len() == operations@.len()
                    && (forall|i: int| 0 <= i < operations@.len() ==> converts_to(
                        operations@[i],
                        #[trigger] m.operations@[i],
                    )) && m.receiver@ == entry_point@ && m.max_spread.atomics == max_spread_atomics()
                    && m.coin_in.denom@ == c.denom@ && m.coin_in.amount == c.amount
            },
        },
{
    check_caller(sender, entry_point)?;
    let coin_in = match one_coin(funds) {
        Ok(c) => c,
        Err(e) => {
            return Err(ContractError::Payment(e));
        },
    };
    if coin_in.amount == 0 {
        return Err(ContractError::NoOfferAssetAmount);
    }
    let mut mantra_ops: Vec<SwapOperation> = Vec::new();
    let mut i: usize = 0;
    while i < operations.len()
        invariant
            0 <= i <= operations.len(),
            mantra_ops@.len() == i,
            forall|j: int| 0 <= j < i ==> converts_to(operations@[j], #[trigger] mantra_ops@[j]),
        decreases operations.len() - i,
    {
        let op = &operations[i];
        mantra_ops.push(
            SwapOperation::MantraSwap {
                token_in_denom: op.denom_in.clone(),
                token_out_denom: op.denom_out.clone(),
                pool_identifier: op.pool.clone(),
            },
        );
        i = i + 1;
    }
    if mantra_ops.len() == 0 {
        return Err(ContractError::SwapOperationsEmpty);
    }
    Ok(MantraSwapMsg {
        operations: mantra_ops,
        receiver: entry_point.to_owned(),
        max_spread: max_allowed_slippage(),
        coin_in,
    })
}

/// The coin to offer to the next simulated hop: the pool manager only takes native
/// coins (the contract leaves CW20 unimplemented).
pub fn offer_coin(asset: &Asset) -> (r: Result<Coin, ContractError>)
    ensures
        match asset {
            Asset::Native(c) => r matches Ok(o) && o.denom@ == c.denom@ && o.amount == c.amount,
            Asset::Cw20(_) => r == Err::<Coin, ContractError>(ContractError::Aborted),
        },
{
    match asset {
        Asset::Native(c) => Ok(c.copy()),
        Asset::Cw20(_) => Err(ContractError::Aborted),
    }
}

/// One hop of a simulated swap of an exact amount in: the pool manager's answer must
/// pass the spread check; the next asset is what the hop returns, in its
/// `denom_out`.
pub fn simulate_in_step(op: &SkipSwapOperation, res: &SimulationResponse, denom_out_is_address: bool) -> (r: Result<Asset, ContractError>)
    ensures
        match spec_assert_max_spread(res.return_amount, res.spread_amount) {
            Err(e) => r == Err::<Asset, ContractError>(e),
            Ok(_) => r matches Ok(a) && a.spec_denom() == op.denom_out@ && a.spec_amount()
                == res.return_amount && (a is Cw20) == denom_out_is_address,
        },
{
    assert_max_spread(res.return_amount, res.spread_amount)?;
    Ok(Asset::new(op.denom_out.as_str(), res.return_amount, denom_out_is_address))
}

/// One hop, from the back, of a simulated swap for an exact amount out: the answer
/// must pass the spread check; the asset needed before the hop is its offer plus
/// one, in its `denom_in`.
pub fn simulate_out_step(op: &SkipSwapOperation, res: &ReverseSimulationResponse, denom_in_is_address: bool) -> (r: Result<Asset, ContractError>)
    ensures
        match spec_assert_max_spread(res.offer_amount, res.spread_amount) {
            Err(e) => r == Err::<Asset, ContractError>(e),
            Ok(_) => if res.offer_amount + 1 > u128::MAX {
                r == Err::<Asset, ContractError>(ContractError::Overflow)
            } else {
                r matches Ok(a) && a.spec_denom() == op.denom_in@ && a.spec_amount()
                    == res.offer_amount + 1 && (a is Cw20) == denom_in_is_address
            },
        },
{
    assert_max_spread(res.offer_amount, res.spread_amount)?;
    match res.offer_amount.checked_add(1) {
        Some(v) => Ok(Asset::new(op.denom_in.as_str(), v, denom_in_is_address)),
        None => Err(ContractError::Overflow),
    }
}

} // verus!
