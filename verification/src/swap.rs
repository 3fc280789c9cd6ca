//! Swap operations and routes, and the checks that every swap adapter makes on
//! them before it swaps or simulates.

use vstd::prelude::*;
use crate::asset::Asset;
use crate::decimal::{parse_u64, spec_parse_u64};
use crate::error::ContractError;

verus! {

/// One hop of a swap: swap `denom_in` for `denom_out` in `pool`.
#[derive(Debug, Clone, PartialEq, Eq)]
pub struct SwapOperation {
    pub pool: String,
    pub denom_in: String,
    pub denom_out: String,
    pub interface: Option<Vec<u8>>,
}

/// A route of a smart swap: an amount offered and the hops it goes through.
#[derive(Debug, Clone, PartialEq, Eq)]
pub struct Route {
    pub offer_asset: Asset,
    pub operations: Vec<SwapOperation>,
}

/// The denomination that a route ends in.
pub open spec fn spec_route_ask_denom(ops: Seq<SwapOperation>) -> Result<Seq<char>, ContractError> {
    if ops.len() == 0 {
        Err(ContractError::SwapOperationsEmpty)
    } else {
        Ok(ops.last().denom_out@)
    }
}

/// The denomination that a smart swap asks for: that of its last route.
pub open spec fn spec_ask_denom_for_routes(routes: Seq<Route>) -> Result<Seq<char>, ContractError> {
    if routes.len() == 0 {
        Err(ContractError::RoutesEmpty)
    } else {
        spec_route_ask_denom(routes.last().operations@)
    }
}

impl Route {
    /// The denomination out of the route's last hop.
    pub fn ask_denom(&self) -> (r: Result<String, ContractError>)
        ensures
            match spec_route_ask_denom(self.operations@) {
                Ok(d) => r matches Ok(s) && s@ == d,
                Err(e) => r == Err::<String, ContractError>(e),
            },
    {
        let n = self.operations.len();
        if n == 0 {
            Err(ContractError::SwapOperationsEmpty)
        } else {
            Ok(self.operations[n - 1].denom_out.clone())
        }
    }
}

/// The denomination that a smart swap over `routes` asks for.
pub fn get_ask_denom_for_routes(routes: &Vec<Route>) -> (r: Result<String, ContractError>)
    ensures
        match spec_ask_denom_for_routes(routes@) {
            Ok(d) => r matches Ok(s) && s@ == d,
            Err(e) => r == Err::<String, ContractError>(e),
        },
{
    let n = routes.len();
    if n == 0 {
        Err(ContractError::RoutesEmpty)
    } else {
        routes[n - 1].ask_denom()
    }
}

/// Requires that the message comes from the expected contract.
pub fn check_caller(sender: &str, expected: &str) -> (r: Result<(), ContractError>)
    ensures
        r is Ok <==> sender@ == expected@,
        r is Err ==> r == Err::<(), ContractError>(ContractError::Unauthorized),
{
    let a = sender.to_owned();
    let b = expected.to_owned();
    if a == b {
        Ok(())
    } else {
        Err(ContractError::Unauthorized)
    }
}

/// The denomination that a swap through `ops` returns: the last hop's `denom_out`.
pub fn return_denom(ops: &Vec<SwapOperation>) -> (r: Result<String, ContractError>)
    ensures
        match spec_route_ask_denom(ops@) {
            Ok(d) => r matches Ok(s) && s@ == d,
            Err(e) => r == Err::<String, ContractError>(e),
        },
{
    let n = ops.len();
    if n == 0 {
        Err(ContractError::SwapOperationsEmpty)
    } else {
        Ok(ops[n - 1].denom_out.clone())
    }
}

/// What a query for a swap of an exact amount in requires: hops, the first of which
/// takes the denomination offered.
pub open spec fn spec_check_exact_in(denom_in: Seq<char>, ops: Seq<SwapOperation>) -> Result<(), ContractError> {
    if ops.len() == 0 {
        Err(ContractError::SwapOperationsEmpty)
    } else if ops[0].denom_in@ != denom_in {
        Err(ContractError::CoinInDenomMismatch)
    } else {
        Ok(())
    }
}

/// What a query for a swap of an exact amount out requires: hops, the last of which
/// gives the denomination asked for.
pub open spec fn spec_check_exact_out(denom_out: Seq<char>, ops: Seq<SwapOperation>) -> Result<(), ContractError> {
    if ops.len() == 0 {
        Err(ContractError::SwapOperationsEmpty)
    } else if ops.last().denom_out@ != denom_out {
        Err(ContractError::CoinOutDenomMismatch)
    } else {
        Ok(())
    }
}

/// Checks the hops of a swap of an exact amount of `denom_in`.
pub fn check_exact_in(denom_in: &str, ops: &Vec<SwapOperation>) -> (r: Result<(), ContractError>)
    ensures
        r == spec_check_exact_in(denom_in@, ops@),
{
    if ops.len() == 0 {
        return Err(ContractError::SwapOperationsEmpty);
    }
    let d = denom_in.to_owned();
    if ops[0].denom_in != d {
        return Err(ContractError::CoinInDenomMismatch);
    }
    Ok(())
}

/// Checks the hops of a swap for an exact amount of `denom_out`.
pub fn check_exact_out(denom_out: &str, ops: &Vec<SwapOperation>) -> (r: Result<(), ContractError>)
    ensures
        r == spec_check_exact_out(denom_out@, ops@),
{
    let n = ops.len();
    if n == 0 {
        return Err(ContractError::SwapOperationsEmpty);
    }
    let d = denom_out.to_owned();
    if ops[n - 1].denom_out != d {
        return Err(ContractError::CoinOutDenomMismatch);
    }
    Ok(())
}

/// The sum of the amounts.
pub open spec fn spec_sum(amounts: Seq<u128>) -> int
    decreases amounts.len(),
{
    if amounts.len() == 0 {
        0
    } else {
        spec_sum(amounts.drop_last()) + amounts.last()
    }
}

/// A prefix sums to at most the whole, and to no less than zero.
pub proof fn lemma_sum_monotone(amounts: Seq<u128>, i: int)
    requires
        0 <= i <= amounts.len(),
    ensures
        spec_sum(amounts.take(i)) <= spec_sum(amounts),
        spec_sum(amounts.take(i)) >= 0,
    decreases amounts.len() - i,
{
    if i == amounts.len() {
        assert(amounts.take(i) =~= amounts);
        lemma_sum_nonneg(amounts);
    } else {
        lemma_sum_monotone(amounts, i + 1);
        assert(amounts.take(i + 1).drop_last() =~= amounts.take(i));
        lemma_sum_nonneg(amounts.take(i));
    }
}

/// A sum of amounts is not negative.
pub proof fn lemma_sum_nonneg(amounts: Seq<u128>)
    ensures
        spec_sum(amounts) >= 0,
    decreases amounts.len(),
{
    if amounts.len() > 0 {
        lemma_sum_nonneg(amounts.drop_last());
    }
}

/// The sum is the first amount plus the sum of the others.
pub proof fn lemma_sum_first(amounts: Seq<u128>)
    requires
        amounts.len() > 0,
    ensures
        spec_sum(amounts) == amounts[0] + spec_sum(amounts.drop_first()),
    decreases amounts.len(),
{
    if amounts.len() > 1 {
        let t = amounts.drop_first();
        lemma_sum_first(amounts.drop_last());
        assert(amounts.drop_last().drop_first() =~= t.drop_last());
        assert(amounts.drop_last()[0] == amounts[0]);
        assert(t.last() == amounts.last());
        assert(spec_sum(t) == spec_sum(t.drop_last()) + t.last());
    } else {
        assert(amounts.drop_first().len() == 0);
        assert(amounts.drop_last().len() == 0);
        assert(spec_sum(amounts.drop_first()) == 0);
        assert(spec_sum(amounts.drop_last()) == 0);
        assert(amounts.last() == amounts[0]);
    }
}

/// The asset that a smart swap returns: the outputs of its routes added up in
/// `ask_denom` (a CW20 amount when `ask_is_address`); an overflow of the sum is an
/// error.
pub fn total_route_output(ask_denom: &str, ask_is_address: bool, outputs: &Vec<u128>) -> (r: Result<Asset, ContractError>)
    ensures
        spec_sum(outputs@) <= u128::MAX ==> (r matches Ok(a) && a.spec_denom() == ask_denom@
            && a.spec_amount() == spec_sum(outputs@) && (a is Cw20) == ask_is_address),
        spec_sum(outputs@) > u128::MAX ==> r == Err::<Asset, ContractError>(ContractError::Overflow),
{
    let mut total = Asset::new(ask_denom, 0, ask_is_address);
    let mut i: usize = 0;
    while i < outputs.len()
        invariant
            0 <= i <= outputs.len(),
            total.spec_denom() == ask_denom@,
            (total is Cw20) == ask_is_address,
            total.spec_amount() == spec_sum(outputs@.take(i as int)),
        decreases outputs.len() - i,
    {
        proof {
            assert(outputs@.take(i + 1).drop_last() =~= outputs@.take(i as int));
            lemma_sum_monotone(outputs@, i + 1);
        }
        let step = total.add(outputs[i]);
        if step.is_err() {
            return Err(ContractError::Overflow);
        }
        i = i + 1;
    }
    assert(outputs@.take(i as int) =~= outputs@);
    Ok(total)
}

/// A transfer of the adapter's funds after a swap.
#[derive(Debug, Clone, PartialEq, Eq)]
pub enum FundsTransfer {
    /// The adapter's whole balance of a CW20 token, sent to `to`.
    Cw20Balance { token: String, to: String },
    /// All of the adapter's native balances, sent to `to`.
    AllNativeBalances { to: String },
}

/// The transfer of a swap's output back to the swapper: the adapter's balance of the
/// return token when the return denomination is a token contract
/// (`return_denom_is_address`), else all its native balances. Only the adapter
/// itself may ask for it.
pub fn transfer_funds_back(
    sender: &str,
    contract: &str,
    swapper: &str,
    return_denom: &str,
    return_denom_is_address: bool,
) -> (r: Result<FundsTransfer, ContractError>)
    ensures
        sender@ != contract@ ==> r == Err::<FundsTransfer, ContractError>(ContractError::Unauthorized),
        sender@ == contract@ && return_denom_is_address ==> (r matches Ok(FundsTransfer::Cw20Balance { token, to })
            && token@ == return_denom@ && to@ == swapper@),
        sender@ == contract@ && !return_denom_is_address ==> (r matches Ok(FundsTransfer::AllNativeBalances { to })
            && to@ == swapper@),
{
    check_caller(sender, contract)?;
    if return_denom_is_address {
        Ok(FundsTransfer::Cw20Balance { token: return_denom.to_owned(), to: swapper.to_owned() })
    } else {
        Ok(FundsTransfer::AllNativeBalances { to: swapper.to_owned() })
    }
}

/// A hop of a chain module's swap of an exact amount in: a pool by number, and the
/// denomination it gives out.
#[derive(Debug, Clone, PartialEq, Eq)]
pub struct SwapAmountInRoute {
    pub pool_id: u64,
    pub token_out_denom: String,
}

/// A hop of a chain module's swap for an exact amount out: a pool by number, and the
/// denomination it takes in.
#[derive(Debug, Clone, PartialEq, Eq)]
pub struct SwapAmountOutRoute {
    pub pool_id: u64,
    pub token_in_denom: String,
}

/// Every hop's pool identifier is a number.
pub open spec fn pools_are_numbers(ops: Seq<SwapOperation>) -> bool {
    forall|i: int| 0 <= i < ops.len() ==> (#[trigger] spec_parse_u64(ops[i].pool@)) is Some
}

/// `routes` are the hops `ops` of a swap of an exact amount in: hop by hop, the
/// pool's number and the denomination it gives out.
pub open spec fn in_routes_of(routes: Seq<SwapAmountInRoute>, ops: Seq<SwapOperation>) -> bool {
    &&& routes.len() == ops.len()
    &&& forall|i: int| 0 <= i < ops.len() ==> (#[trigger] routes[i]).pool_id == spec_parse_u64(ops[i].pool@)->Some_0
        && routes[i].token_out_denom@ == ops[i].denom_out@
}

/// `routes` are the hops `ops` of a swap for an exact amount out: hop by hop, the
/// pool's number and the denomination it takes in.
pub open spec fn out_routes_of(routes: Seq<SwapAmountOutRoute>, ops: Seq<SwapOperation>) -> bool {
    &&& routes.len() == ops.len()
    &&& forall|i: int| 0 <= i < ops.len() ==> (#[trigger] routes[i]).pool_id == spec_parse_u64(ops[i].pool@)->Some_0
        && routes[i].token_in_denom@ == ops[i].denom_in@
}

/// The routes of a swap of an exact amount in through the hops of a chain module;
/// a pool identifier that is not a number is an error.
pub fn convert_swap_operations_in(ops: &Vec<SwapOperation>) -> (r: Result<Vec<SwapAmountInRoute>, ContractError>)
    ensures
        pools_are_numbers(ops@) ==> (r matches Ok(v) && in_routes_of(v@, ops@)),
        !pools_are_numbers(ops@) ==> r == Err::<Vec<SwapAmountInRoute>, ContractError>(ContractError::ParseIntPoolID),
{
    let mut v: Vec<SwapAmountInRoute> = Vec::new();
    let mut i: usize = 0;
    while i < ops.len()
        invariant
            0 <= i <= ops.len(),
            v@.len() == i,
            forall|j: int| 0 <= j < i ==> (#[trigger] spec_parse_u64(ops@[j].pool@)) is Some,
            forall|j: int| 0 <= j < i ==> (#[trigger] v@[j]).pool_id == spec_parse_u64(ops@[j].pool@)->Some_0
                && v@[j].token_out_denom@ == ops@[j].denom_out@,
        decreases ops.len() - i,
    {
        let pool_id = match parse_u64(ops[i].pool.as_str()) {
            Some(p) => p,
            None => {
                return Err(ContractError::ParseIntPoolID);
            },
        };
        v.push(SwapAmountInRoute { pool_id, token_out_denom: ops[i].denom_out.clone() });
        i = i + 1;
    }
    Ok(v)
}

/// The routes of a swap for an exact amount out through the hops of a chain module;
/// a pool identifier that is not a number is an error.
pub fn convert_swap_operations_out(ops: &Vec<SwapOperation>) -> (r: Result<Vec<SwapAmountOutRoute>, ContractError>)
    ensures
        pools_are_numbers(ops@) ==> (r matches Ok(v) && out_routes_of(v@, ops@)),
        !pools_are_numbers(ops@) ==> r == Err::<Vec<SwapAmountOutRoute>, ContractError>(ContractError::ParseIntPoolID),
{
    let mut v: Vec<SwapAmountOutRoute> = Vec::new();
    let mut i: usize = 0;
    while i < ops.len()
        invariant
            0 <= i <= ops.len(),
            v@.len() == i,
            forall|j: int| 0 <= j < i ==> (#[trigger] spec_parse_u64(ops@[j].pool@)) is Some,
            forall|j: int| 0 <= j < i ==> (#[trigger] v@[j]).pool_id == spec_parse_u64(ops@[j].pool@)->Some_0
                && v@[j].token_in_denom@ == ops@[j].denom_in@,
        decreases ops.len() - i,
    {
        let pool_id = match parse_u64(ops[i].pool.as_str()) {
            Some(p) => p,
            None => {
                return Err(ContractError::ParseIntPoolID);
            },
        };
        v.push(SwapAmountOutRoute { pool_id, token_in_denom: ops[i].denom_in.clone() });
        i = i + 1;
    }
    Ok(v)
}

} // verus!
