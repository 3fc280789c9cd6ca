//! The Astrovault adapter: the router hops built from swap operations and the pool
//! types that the router reports, and the transfer of the swap's output (and of any
//! cashback token) after a swap.

use vstd::prelude::*;
use crate::error::ContractError;
use crate::asset::Coin;
use crate::swap::{check_caller, transfer_funds_back, FundsTransfer, SwapOperation};

verus! {

/// What the router reports of a pool: its type and its assets, each named as text.
#[derive(Debug, Clone, PartialEq, Eq)]
pub struct RoutePoolType {
    pub pool_type: String,
    pub pool_asset_infos: Vec<String>,
}

/// One hop of the router, by the type of its pool.
#[derive(Debug, Clone, PartialEq, Eq)]
pub enum HopV2 {
    RatioHopInfo { pool: String, from_asset_index: u32 },
    StandardHopInfo { pool: String, from_asset_index: u32 },
    StableHopInfo { pool: String, from_asset_index: u32, to_asset_index: u32 },
}

/// The index of the first asset named `d`, or `-1`.
pub open spec fn spec_position(infos: Seq<String>, d: Seq<char>) -> int
    decreases infos.len(),
{
    if infos.len() == 0 {
        -1
    } else if infos[0]@ == d {
        0
    } else {
        let r = spec_position(infos.drop_first(), d);
        if r < 0 { -1 } else { r + 1 }
    }
}

/// `spec_position` finds the first asset named `d`: a non-negative position names
/// `d` and no asset before it does; `-1` means that no asset names `d`.
pub proof fn lemma_position(infos: Seq<String>, d: Seq<char>)
    ensures
        spec_position(infos, d) >= 0 ==> spec_position(infos, d) < infos.len() && infos[spec_position(infos, d)]@ == d
            && forall|j: int| 0 <= j < spec_position(infos, d) ==> (#[trigger] infos[j])@ != d,
        spec_position(infos, d) < 0 ==> spec_position(infos, d) == -1 && forall|j: int| 0 <= j < infos.len()
            ==> (#[trigger] infos[j])@ != d,
    decreases infos.len(),
{
    if infos.len() > 0 {
        lemma_position(infos.drop_first(), d);
        assert forall|j: int| 0 < j < infos.len() implies infos[j] == infos.drop_first()[j - 1] by {}
    }
}

/// The hop for `op` through a pool of the reported type.
pub open spec fn spec_hop(op: SwapOperation, pt: RoutePoolType) -> Result<HopV2, ContractError> {
    let from = spec_position(pt.pool_asset_infos@, op.denom_in@);
    if from < 0 {
        Err(ContractError::InvalidPoolAsset)
    } else if pt.pool_type@ == "hybrid"@ {
        Ok(HopV2::RatioHopInfo { pool: op.pool, from_asset_index: from as u32 })
    } else if pt.pool_type@ == "standard"@ {
        Ok(HopV2::StandardHopInfo { pool: op.pool, from_asset_index: from as u32 })
    } else if pt.pool_type@ == "stable"@ {
        let to = spec_position(pt.pool_asset_infos@, op.denom_out@);
        if to < 0 {
            Err(ContractError::InvalidPoolAsset)
        } else {
            Ok(HopV2::StableHopInfo { pool: op.pool, from_asset_index: from as u32, to_asset_index: to as u32 })
        }
    } else {
        Err(ContractError::InvalidPoolType)
    }
}

/// A hop through a stable pool (which can hold more than two assets) swaps from the
/// first asset that names the operation's `denom_in` to the first asset that names
/// its `denom_out`, wherever they stand among the pool's assets; and such a hop is
/// built whenever the pool holds both.
pub proof fn lemma_stable_hop_indices(op: SwapOperation, pt: RoutePoolType)
    requires
        pt.pool_type@ == "stable"@,
        pt.pool_asset_infos@.len() <= u32::MAX,
    ensures
        spec_hop(op, pt) matches Ok(HopV2::StableHopInfo { pool, from_asset_index, to_asset_index }) ==> {
            let infos = pt.pool_asset_infos@;
            &&& pool == op.pool
            &&& from_asset_index < infos.len() && infos[from_asset_index as int]@ == op.denom_in@
            &&& to_asset_index < infos.len() && infos[to_asset_index as int]@ == op.denom_out@
            &&& forall|j: int| 0 <= j < from_asset_index ==> (#[trigger] infos[j])@ != op.denom_in@
            &&& forall|j: int| 0 <= j < to_asset_index ==> (#[trigger] infos[j])@ != op.denom_out@
        },
        (exists|i: int| 0 <= i < pt.pool_asset_infos@.len() && (#[trigger] pt.pool_asset_infos@[i])@ == op.denom_in@)
            && (exists|i: int| 0 <= i < pt.pool_asset_infos@.len() && (#[trigger] pt.pool_asset_infos@[i])@ == op.denom_out@)
            ==> spec_hop(op, pt) is Ok,
{
    reveal_strlit("stable");
    reveal_strlit("hybrid");
    reveal_strlit("standard");
    lemma_position(pt.pool_asset_infos@, op.denom_in@);
    lemma_position(pt.pool_asset_infos@, op.denom_out@);
    assert("stable"@[0] != "hybrid"@[0]);
    assert("stable"@.len() != "standard"@.len());
}

/// Two hops are the same hop: the same kind, pool (as text) and indices.
pub open spec fn same_hop(a: HopV2, b: HopV2) -> bool {
    match (a, b) {
        (HopV2::RatioHopInfo { pool: p, from_asset_index: f }, HopV2::RatioHopInfo { pool: q, from_asset_index: g }) =>
            p@ == q@ && f == g,
        (HopV2::StandardHopInfo { pool: p, from_asset_index: f }, HopV2::StandardHopInfo { pool: q, from_asset_index: g }) =>
            p@ == q@ && f == g,
        (HopV2::StableHopInfo { pool: p, from_asset_index: f, to_asset_index: t }, HopV2::StableHopInfo { pool: q, from_asset_index: g, to_asset_index: u }) =>
            p@ == q@ && f == g && t == u,
        _ => false,
    }
}

/// The hops for `ops`, the first error among them, or `Aborted` when the router
/// reported fewer pools than there are hops.
pub open spec fn spec_hops(ops: Seq<SwapOperation>, types: Seq<RoutePoolType>) -> Result<Seq<HopV2>, ContractError>
    decreases ops.len(),
{
    if ops.len() == 0 {
        Ok(Seq::empty())
    } else if types.len() == 0 {
        Err(ContractError::Aborted)
    } else {
        match spec_hop(ops[0], types[0]) {
            Err(e) => Err(e),
            Ok(h) => match spec_hops(ops.drop_first(), types.drop_first()) {
                Err(e) => Err(e),
                Ok(rest) => Ok(seq![h] + rest),
            },
        }
    }
}

/// `r` with `done` put in front of its hops.
pub open spec fn prepend(done: Seq<HopV2>, r: Result<Seq<HopV2>, ContractError>) -> Result<Seq<HopV2>, ContractError> {
    match r {
        Err(e) => Err(e),
        Ok(rest) => Ok(done + rest),
    }
}

/// The index of the first asset named `d`.
fn position(infos: &Vec<String>, d: &String) -> (r: Option<usize>)
    ensures
        match r {
            Some(k) => spec_position(infos@, d@) == k,
            None => spec_position(infos@, d@) == -1,
        },
{
    let mut i: usize = 0;
    assert(infos@.skip(0) =~= infos@);
    while i < infos.len()
        invariant
            0 <= i <= infos.len(),
            spec_position(infos@, d@) == if spec_position(infos@.skip(i as int), d@) < 0 {
                -1
            } else {
                spec_position(infos@.skip(i as int), d@) + i
            },
        decreases infos.len() - i,
    {
        proof {
            assert(infos@.skip(i as int)[0] == infos@[i as int]);
            assert(infos@.skip(i as int).drop_first() =~= infos@.skip(i + 1));
        }
        if infos[i] == *d {
            return Some(i);
        }
        i = i + 1;
    }
    None
}

/// The router hop for one swap operation through a pool of the reported type.
pub fn convert_operation_to_hop(op: &SwapOperation, pt: &RoutePoolType) -> (r: Result<HopV2, ContractError>)
    ensures
        match spec_hop(*op, *pt) {
            Ok(h) => r matches Ok(g) && same_hop(g, h),
            Err(e) => r == Err::<HopV2, ContractError>(e),
        },
{
    let from = match position(&pt.pool_asset_infos, &op.denom_in) {
        Some(k) => k as u32,
        None => {
            return Err(ContractError::InvalidPoolAsset);
        },
    };
    let hybrid = String::from_str("hybrid");
    let standard = String::from_str("standard");
    let stable = String::from_str("stable");
    if pt.pool_type == hybrid {
        Ok(HopV2::RatioHopInfo { pool: op.pool.clone(), from_asset_index: from })
    } else if pt.pool_type == standard {
        Ok(HopV2::StandardHopInfo { pool: op.pool.clone(), from_asset_index: from })
    } else if pt.pool_type == stable {
        let to = match position(&pt.pool_asset_infos, &op.denom_out) {
            Some(k) => k as u32,
            None => {
                return Err(ContractError::InvalidPoolAsset);
            },
        };
        Ok(HopV2::StableHopInfo { pool: op.pool.clone(), from_asset_index: from, to_asset_index: to })
    } else {
        Err(ContractError::InvalidPoolType)
    }
}

/// The router query for the types of the pools of `ops`: their pools' addresses,
/// in the order of the hops.
pub fn route_pools_request(ops: &Vec<SwapOperation>) -> (r: Vec<String>)
    ensures
        r@.len() == ops@.len(),
        forall|i: int| 0 <= i < ops@.len() ==> (#[trigger] r@[i])@ == ops@[i].pool@,
{
    let mut r: Vec<String> = Vec::new();
    let mut i: usize = 0;
    while i < ops.len()
        invariant
            0 <= i <= ops@.len(),
            r@.len() == i,
            forall|j: int| 0 <= j < i ==> (#[trigger] r@[j])@ == ops@[j].pool@,
        decreases ops@.len() - i,
    {
        r.push(ops[i].pool.clone());
        i = i + 1;
    }
    r
}

/// The router hops for `ops`, given the types of their pools as the router reports
/// them (in the same order).
pub fn convert_operations_to_hops(ops: &Vec<SwapOperation>, types: &Vec<RoutePoolType>) -> (r: Result<Vec<HopV2>, ContractError>)
    ensures
        match spec_hops(ops@, types@) {
            Ok(hs) => r matches Ok(v) && v@.len() == hs.len() && (forall|i: int| 0 <= i < hs.len()
                ==> same_hop(#[trigger] v@[i], hs[i])),
            Err(e) => r == Err::<Vec<HopV2>, ContractError>(e),
        },
{
    let mut hops: Vec<HopV2> = Vec::new();
    let mut i: usize = 0;
    let ghost mut done: Seq<HopV2> = Seq::empty();
    assert(ops@.skip(0) =~= ops@);
    assert(types@.skip(0) =~= types@);
    assert(done + Seq::<HopV2>::empty() =~= done);
    proof {
        match spec_hops(ops@, types@) {
            Ok(rest) => {
                assert(done + rest =~= rest);
            },
            Err(_) => {},
        }
    }
    while i < ops.len()
        invariant
            0 <= i <= ops.len(),
            i <= types.len(),
            hops@.len() == i,
            done.len() == i,
            forall|j: int| 0 <= j < i ==> same_hop(#[trigger] hops@[j], done[j]),
            spec_hops(ops@, types@) == prepend(done, spec_hops(ops@.skip(i as int), types@.skip(i as int))),
        decreases ops.len() - i,
    {
        if i >= types.len() {
            assert(types@.skip(i as int).len() == 0);
            return Err(ContractError::Aborted);
        }
        proof {
            assert(ops@.skip(i as int)[0] == ops@[i as int]);
            assert(types@.skip(i as int)[0] == types@[i as int]);
            assert(ops@.skip(i as int).drop_first() =~= ops@.skip(i + 1));
            assert(types@.skip(i as int).drop_first() =~= types@.skip(i + 1));
        }
        let hop = match convert_operation_to_hop(&ops[i], &types[i]) {
            Ok(h) => h,
            Err(e) => {
                return Err(e);
            },
        };
        proof {
            let h = spec_hop(ops@[i as int], types@[i as int])->Ok_0;
            match spec_hops(ops@.skip(i + 1), types@.skip(i + 1)) {
                Ok(rest) => {
                    assert(done + (seq![h] + rest) =~= done.push(h) + rest);
                },
                Err(_) => {},
            }
            done = done.push(h);
        }
        hops.push(hop);
        i = i + 1;
    }
    assert(ops@.skip(i as int).len() == 0);
    assert(done + Seq::<HopV2>::empty() =~= done);
    Ok(hops)
}

/// How the router is handed the amount in: a native coin sent along with the
/// router's `Receive` message, or the CW20 token sending the amount to the router.
#[derive(Debug, Clone, PartialEq, Eq)]
pub enum RouterCall {
    Native { coin: Coin },
    Cw20 { token: String, amount: u128 },
}

/// The swap that the adapter sends to the router, and the denomination that it
/// transfers back to the entry point afterwards.
#[derive(Debug, Clone, PartialEq, Eq)]
pub struct AstrovaultSwap {
    pub hops: Vec<HopV2>,
    pub call: RouterCall,
    pub return_denom: String,
}

/// The swap of `amount_in` through `ops` that the adapter dispatches for the entry
/// point contract, given the types of the pools as the router reports them and
/// whether the first hop's `denom_in` is a token contract. The contract aborts when
/// there are no hops.
pub fn execute_swap(
    sender: &str,
    entry_point: &str,
    amount_in: u128,
    ops: &Vec<SwapOperation>,
    types: &Vec<RoutePoolType>,
    denom_in_is_address: bool,
) -> (r: Result<AstrovaultSwap, ContractError>)
    ensures
        sender@ != entry_point@ ==> r == Err::<AstrovaultSwap, ContractError>(ContractError::Unauthorized),
        sender@ == entry_point@ ==> match spec_hops(ops@, types@) {
            Err(e) => r == Err::<AstrovaultSwap, ContractError>(e),
            Ok(hs) => if ops@.len() == 0 {
                r == Err::<AstrovaultSwap, ContractError>(ContractError::Aborted)
            } else {
                r matches Ok(s) && s.hops@.len() == hs.len() && (forall|i: int| 0 <= i < hs.len()
                    ==> same_hop(#[trigger] s.hops@[i], hs[i])) && s.return_denom@ == ops@.last().denom_out@
                    && (denom_in_is_address ==> (s.call matches RouterCall::Cw20 { token, amount } && token@
                    == ops@[0].denom_in@ && amount == amount_in)) && (!denom_in_is_address ==> (
                s.call matches RouterCall::Native { coin } && coin.denom@ == ops@[0].denom_in@ && coin.amount
                    == amount_in))
            },
        },
{
    check_caller(sender, entry_point)?;
    let hops = convert_operations_to_hops(ops, types)?;
    let n = ops.len();
    if n == 0 {
        return Err(ContractError::Aborted);
    }
    let call = if denom_in_is_address {
        RouterCall::Cw20 { token: ops[0].denom_in.clone(), amount: amount_in }
    } else {
        RouterCall::Native { coin: Coin { denom: ops[0].denom_in.clone(), amount: amount_in } }
    };
    Ok(AstrovaultSwap { hops, call, return_denom: ops[n - 1].denom_out.clone() })
}

/// The transfers after an Astrovault swap: the output back to the swapper as
/// `transfer_funds_back` does, then, when the router has a cashback token
/// other than the return denomination, the adapter's balance of it to the router.
pub fn execute_transfer_funds_back(
    sender: &str,
    contract: &str,
    swapper: &str,
    return_denom: &str,
    return_denom_is_address: bool,
    cashback: Option<&str>,
    router: &str,
) -> (r: Result<Vec<FundsTransfer>, ContractError>)
    ensures
        sender@ != contract@ ==> r == Err::<Vec<FundsTransfer>, ContractError>(ContractError::Unauthorized),
        sender@ == contract@ ==> (r matches Ok(v) && v@.len() >= 1 && (return_denom_is_address ==> (
            v@[0] matches FundsTransfer::Cw20Balance { token, to } && token@ == return_denom@ && to@ == swapper@))
            && (!return_denom_is_address ==> (v@[0] matches FundsTransfer::AllNativeBalances { to } && to@ == swapper@))
            && match cashback {
                Some(c) => if c@ != return_denom@ {
                    v@.len() == 2 && (v@[1] matches FundsTransfer::Cw20Balance { token, to } && token@ == c@ && to@ == router@)
                } else {
                    v@.len() == 1
                },
                None => v@.len() == 1,
            }),
{
    let first = transfer_funds_back(sender, contract, swapper, return_denom, return_denom_is_address)?;
    let mut transfers: Vec<FundsTransfer> = Vec::new();
    transfers.push(first);
    match cashback {
        Some(c) => {
            let a = c.to_owned();
            let b = return_denom.to_owned();
            if a != b {
                transfers.push(FundsTransfer::Cw20Balance { token: a, to: router.to_owned() });
            }
        },
        None => {},
    }
    Ok(transfers)
}

} // verus!
