//! The Astroport adapter: the assets that its router and pairs speak of, a CW20
//! token or a native coin depending on the denomination.

use vstd::prelude::*;
use crate::asset::{one_coin, spec_one_coin, Coin};
use crate::error::ContractError;
use crate::swap::{check_caller, check_exact_in, spec_check_exact_in, SwapOperation};

verus! {

/// An asset as Astroport names it: a CW20 token contract or a native denomination.
#[derive(Debug, Clone, PartialEq, Eq)]
pub enum AssetInfo {
    Token { contract_addr: String },
    NativeToken { denom: String },
}

/// An amount of an Astroport asset.
#[derive(Debug, Clone, PartialEq, Eq)]
pub struct Asset {
    pub info: AssetInfo,
    pub amount: u128,
}

/// The Astroport asset that an adapter asset is: a CW20 amount becomes a token
/// amount of its contract, a native coin a native amount of its denomination. A
/// token's contract address must pass the chain's validation, whose outcome is
/// `address_check` (looked at for a CW20 amount only); a refused address is that
/// error.
pub fn to_astroport_asset(asset: &crate::asset::Asset, address_check: Result<(), ContractError>) -> (r: Result<
    Asset,
    ContractError,
>)
    ensures
        asset is Cw20 && address_check is Err ==> r == Err::<Asset, ContractError>(address_check->Err_0),
        !(asset is Cw20 && address_check is Err) ==> (r matches Ok(a) && a.amount == asset.spec_amount()
            && match a.info {
            AssetInfo::Token { contract_addr } => asset is Cw20 && contract_addr@ == asset.spec_denom(),
            AssetInfo::NativeToken { denom } => asset is Native && denom@ == asset.spec_denom(),
        }),
{
    match asset {
        crate::asset::Asset::Native(c) => Ok(Asset { info: AssetInfo::NativeToken { denom: c.denom.clone() }, amount: c.amount }),
        crate::asset::Asset::Cw20(c) => {
            address_check?;
            Ok(Asset { info: AssetInfo::Token { contract_addr: c.address.clone() }, amount: c.amount })
        },
    }
}

/// One hop, from the back, of a simulated swap for an exact amount out: the asset
/// needed before the hop is what the pair asks to be offered plus one, in the hop's
/// `denom_in`, a CW20 amount when that is a token address.
pub fn reverse_simulation_step(op: &SwapOperation, offer_amount: u128, denom_in_is_address: bool) -> (r: Result<crate::asset::Asset, ContractError>)
    ensures
        offer_amount + 1 > u128::MAX ==> r == Err::<crate::asset::Asset, ContractError>(ContractError::Overflow),
        offer_amount + 1 <= u128::MAX ==> (r matches Ok(a) && a.spec_denom() == op.denom_in@
            && a.spec_amount() == offer_amount + 1 && (a is Cw20) == denom_in_is_address),
{
    match offer_amount.checked_add(1) {
        Some(v) => Ok(crate::asset::Asset::new(op.denom_in.as_str(), v, denom_in_is_address)),
        None => Err(ContractError::Overflow),
    }
}

/// Whether `info` names the denomination `denom`, as a token contract when
/// `is_address` and as a native denomination otherwise.
pub open spec fn names(info: AssetInfo, denom: Seq<char>, is_address: bool) -> bool {
    match info {
        AssetInfo::Token { contract_addr } => is_address && contract_addr@ == denom,
        AssetInfo::NativeToken { denom: d } => !is_address && d@ == denom,
    }
}

/// The asset that a denomination names for Astroport, given whether the chain
/// accepts it as an address.
pub fn asset_info(denom: &String, is_address: bool) -> (r: AssetInfo)
    ensures
        names(r, denom@, is_address),
{
    if is_address {
        AssetInfo::Token { contract_addr: denom.clone() }
    } else {
        AssetInfo::NativeToken { denom: denom.clone() }
    }
}

/// A hop of the Astroport router.
#[derive(Debug, Clone, PartialEq, Eq)]
pub struct AstroSwap {
    pub offer_asset_info: AssetInfo,
    pub ask_asset_info: AssetInfo,
}

/// The router's hop for `op`, given whether each of its denominations is an address.
pub fn into_astroport_swap_operation(op: &SwapOperation, denom_in_is_address: bool, denom_out_is_address: bool) -> (r: AstroSwap)
    ensures
        names(r.offer_asset_info, op.denom_in@, denom_in_is_address),
        names(r.ask_asset_info, op.denom_out@, denom_out_is_address),
{
    AstroSwap {
        offer_asset_info: asset_info(&op.denom_in, denom_in_is_address),
        ask_asset_info: asset_info(&op.denom_out, denom_out_is_address),
    }
}

/// `swaps` are the router's hops for `ops`, hop by hop, with `addresses` telling
/// which denominations are addresses.
pub open spec fn astro_swaps_of(swaps: Seq<AstroSwap>, ops: Seq<SwapOperation>, addresses: Seq<(bool, bool)>) -> bool {
    &&& swaps.len() == ops.len()
    &&& forall|i: int| 0 <= i < ops.len() ==> names(#[trigger] swaps[i].offer_asset_info, ops[i].denom_in@, addresses[i].0)
        && names(swaps[i].ask_asset_info, ops[i].denom_out@, addresses[i].1)
}

/// The router's hops for `ops`, with `addresses` telling, hop by hop, which of the
/// two denominations the chain accepts as addresses.
pub fn into_astroport_swap_operations(ops: &Vec<SwapOperation>, addresses: &Vec<(bool, bool)>) -> (r: Vec<AstroSwap>)
    requires
        addresses@.len() == ops@.len(),
    ensures
        astro_swaps_of(r@, ops@, addresses@),
{
    let mut swaps: Vec<AstroSwap> = Vec::new();
    let mut i: usize = 0;
    while i < ops.len()
        invariant
            0 <= i <= ops@.len(),
            addresses@.len() == ops@.len(),
            swaps@.len() == i,
            forall|j: int| 0 <= j < i ==> names(#[trigger] swaps@[j].offer_asset_info, ops@[j].denom_in@, addresses@[j].0)
                && names(swaps@[j].ask_asset_info, ops@[j].denom_out@, addresses@[j].1),
        decreases ops@.len() - i,
    {
        let (a, b) = addresses[i];
        swaps.push(into_astroport_swap_operation(&ops[i], a, b));
        i = i + 1;
    }
    swaps
}

/// The router's simulation of a swap of exactly `asset_in` through `ops`: the
/// amount offered and the router's hops. The hops must not be empty and the first
/// must take `asset_in`'s denomination.
pub fn simulate_swap_operations_query(
    asset_in: &crate::asset::Asset,
    ops: &Vec<SwapOperation>,
    addresses: &Vec<(bool, bool)>,
) -> (r: Result<(u128, Vec<AstroSwap>), ContractError>)
    requires
        addresses@.len() == ops@.len(),
    ensures
        match spec_check_exact_in(asset_in.spec_denom(), ops@) {
            Err(e) => r == Err::<(u128, Vec<AstroSwap>), ContractError>(e),
            Ok(_) => r matches Ok((amount, swaps)) && amount == asset_in.spec_amount() && astro_swaps_of(
                swaps@,
                ops@,
                addresses@,
            ),
        },
{
    check_exact_in(asset_in.denom(), ops)?;
    Ok((asset_in.amount(), into_astroport_swap_operations(ops, addresses)))
}

/// The router's swap that the adapter dispatches for the entry point contract: the
/// coin sent (exactly one), through the hops, with no minimum, recipient or spread
/// (the entry point checks the output). `addresses` tells, hop by hop, whether the
/// chain accepts the hop's two denominations as addresses.
pub fn execute_swap(
    sender: &str,
    entry_point: &str,
    funds: &Vec<Coin>,
    ops: &Vec<SwapOperation>,
    addresses: &Vec<(bool, bool)>,
) -> (r: Result<(Coin, Vec<AstroSwap>), ContractError>)
    requires
        addresses@.len() == ops@.len(),
    ensures
        sender@ != entry_point@ ==> r == Err::<(Coin, Vec<AstroSwap>), ContractError>(ContractError::Unauthorized),
        sender@ == entry_point@ ==> match spec_one_coin(funds@) {
            Err(e) => r == Err::<(Coin, Vec<AstroSwap>), ContractError>(ContractError::Payment(e)),
            Ok(c) => r matches Ok((k, swaps)) && k.denom@ == c.denom@ && k.amount == c.amount
                && astro_swaps_of(swaps@, ops@, addresses@),
        },
{
    check_caller(sender, entry_point)?;
    let coin_in = match one_coin(funds) {
        Ok(c) => c,
        Err(e) => {
            return Err(ContractError::Payment(e));
        },
    };
    let swaps = into_astroport_swap_operations(ops, addresses);
    Ok((coin_in, swaps))
}

} // verus!
