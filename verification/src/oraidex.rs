//! The OraiDEX adapter: what a pool identifier of a swap operation says about how
//! to swap (a converter contract, a v3 pool, or a v2 pair) and the message that
//! follows from it.

use vstd::prelude::*;
use crate::decimal::{parse_u16, parse_u64, spec_parse_u16, spec_parse_u64};
use crate::error::{ContractError, StdError};
use crate::strings::{contains, spec_contains, spec_split, split};
use crate::swap::SwapOperation;

verus! {

/// An asset of OraiDEX: a CW20 token contract or a native denomination.
#[derive(Debug, Clone, PartialEq, Eq)]
pub enum AssetInfo {
    Token { contract_addr: String },
    NativeToken { denom: String },
}

/// `info` is the asset info of `denom`: a token when `is_address`, native otherwise.
pub open spec fn is_asset_info_of(info: AssetInfo, denom: Seq<char>, is_address: bool) -> bool {
    match info {
        AssetInfo::Token { contract_addr } => is_address && contract_addr@ == denom,
        AssetInfo::NativeToken { denom: d } => !is_address && d@ == denom,
    }
}

/// The asset info that a denomination stands for: a token contract when the
/// denomination is a valid address on the chain, a native denomination otherwise.
pub fn denom_to_asset_info(denom: &str, denom_is_address: bool) -> (r: AssetInfo)
    ensures
        is_asset_info_of(r, denom@, denom_is_address),
{
    if denom_is_address {
        AssetInfo::Token { contract_addr: denom.to_owned() }
    } else {
        AssetInfo::NativeToken { denom: denom.to_owned() }
    }
}

/// The fee tier of a v3 pool: its fee and its tick spacing.
#[derive(Debug, Clone, Copy, PartialEq, Eq)]
pub struct FeeTier {
    pub fee: u64,
    pub tick_spacing: u16,
}

/// The key of a v3 pool.
#[derive(Debug, Clone, PartialEq, Eq)]
pub struct PoolKey {
    pub token_x: String,
    pub token_y: String,
    pub fee_tier: FeeTier,
}

/// The pool key that a v3 pool identifier `tokenX-tokenY-fee-tickSpacing` names,
/// or which of its parts is wrong.
pub open spec fn spec_v3_pool_key(pool_id: Seq<char>) -> Result<(Seq<char>, Seq<char>, u64, u16), Seq<char>> {
    let parts = spec_split(pool_id, '-');
    if parts.len() != 4 {
        Err("Invalid v3 pool_id, require exactly 4 fields"@)
    } else {
        match spec_parse_u64(parts[2]) {
            None => Err("Invalid fee in v3 pool"@),
            Some(fee) => match spec_parse_u16(parts[3]) {
                None => Err("Invalid tick_spacing in v3 pool"@),
                Some(t) => Ok((parts[0], parts[1], fee, t)),
            },
        }
    }
}

/// Parses a v3 pool identifier into a pool key.
pub fn convert_pool_id_to_v3_pool_key(pool_id: &str) -> (r: Result<PoolKey, ContractError>)
    ensures
        match spec_v3_pool_key(pool_id@) {
            Ok((x, y, fee, t)) => r matches Ok(k) && k.token_x@ == x && k.token_y@ == y
                && k.fee_tier.fee == fee && k.fee_tier.tick_spacing == t,
            Err(m) => r matches Err(ContractError::Std(StdError::GenericErr { msg })) && msg@ == m,
        },
{
    let parts = split(pool_id, '-');
    if parts.len() != 4 {
        return Err(ContractError::Std(StdError::generic_err("Invalid v3 pool_id, require exactly 4 fields")));
    }
    let fee = match parse_u64(parts[2].as_str()) {
        Some(v) => v,
        None => {
            return Err(ContractError::Std(StdError::generic_err("Invalid fee in v3 pool")));
        },
    };
    let tick_spacing = match parse_u16(parts[3].as_str()) {
        Some(v) => v,
        None => {
            return Err(ContractError::Std(StdError::generic_err("Invalid tick_spacing in v3 pool")));
        },
    };
    Ok(PoolKey {
        token_x: parts[0].clone(),
        token_y: parts[1].clone(),
        fee_tier: FeeTier { fee, tick_spacing },
    })
}

/// The message of one hop on OraiDEX, and the contract it goes to.
#[derive(Debug, Clone, PartialEq, Eq)]
pub enum OraidexSwapMsg {
    /// Convert back through the converter contract.
    ConvertReverse { converter: String, from_asset: AssetInfo },
    /// Convert through the converter contract.
    Convert { converter: String },
    /// Swap through a v3 pool via the router.
    SwapV3 { pool_key: PoolKey, x_to_y: bool },
    /// Swap through a v2 pair via the router.
    OraiSwap { offer_asset_info: AssetInfo, ask_asset_info: AssetInfo },
}

/// The converter contract named by a convert pool identifier `kind-converter`, when
/// the identifier is one (the adapter checks that it is an address).
pub fn convert_pool_converter(pool: &str) -> (r: Option<String>)
    ensures
        spec_contains(pool@, "convert"@) && spec_split(pool@, '-').len() == 2 ==> (r matches Some(c)
            && c@ == spec_split(pool@, '-')[1]),
        !(spec_contains(pool@, "convert"@) && spec_split(pool@, '-').len() == 2) ==> r is None,
{
    if !contains(pool, "convert") {
        return None;
    }
    let parts = split(pool, '-');
    if parts.len() != 2 {
        return None;
    }
    Some(parts[1].clone())
}

/// The hop message for `op`. A pool identifier holding `convert` names a converter:
/// `convert_reverse-<converter>` or `convert-<converter>`; one holding `-` names a v3
/// pool; any other names a v2 pair. `converter_check` is the chain's validation of
/// the converter's address (see `convert_pool_converter`), `denom_in_is_address` and
/// `denom_out_is_address` its verdicts on the denominations.
pub fn parse_to_swap_msg(
    op: &SwapOperation,
    converter_check: Result<(), ContractError>,
    denom_in_is_address: bool,
    denom_out_is_address: bool,
) -> (r: Result<OraidexSwapMsg, ContractError>)
    ensures
        spec_contains(op.pool@, "convert"@) ==> {
            let parts = spec_split(op.pool@, '-');
            if parts.len() != 2 {
                r matches Err(ContractError::Std(StdError::GenericErr { msg }))
                    && msg@ == "Invalid convert type pool_id, require exactly 2 fields"@
            } else if converter_check is Err {
                r == Err::<OraidexSwapMsg, ContractError>(converter_check->Err_0)
            } else if parts[0] == "convert_reverse"@ {
                r matches Ok(OraidexSwapMsg::ConvertReverse { converter, from_asset }) && converter@
                    == parts[1] && is_asset_info_of(from_asset, op.denom_in@, denom_in_is_address)
            } else if parts[0] == "convert"@ {
                r matches Ok(OraidexSwapMsg::Convert { converter }) && converter@ == parts[1]
            } else {
                r matches Err(ContractError::Std(StdError::GenericErr { msg }))
                    && msg@ == "Invalid convert type pool_id"@
            }
        },
        !spec_contains(op.pool@, "convert"@) && spec_contains(op.pool@, "-"@) ==> match spec_v3_pool_key(op.pool@) {
            Err(m) => r matches Err(ContractError::Std(StdError::GenericErr { msg })) && msg@ == m,
            Ok((x, y, fee, t)) => r matches Ok(OraidexSwapMsg::SwapV3 { pool_key, x_to_y })
                && pool_key.token_x@ == x && pool_key.token_y@ == y && pool_key.fee_tier.fee == fee
                && pool_key.fee_tier.tick_spacing == t && x_to_y == (x == op.denom_in@),
        },
        !spec_contains(op.pool@, "convert"@) && !spec_contains(op.pool@, "-"@) ==> (r matches Ok(
            OraidexSwapMsg::OraiSwap { offer_asset_info, ask_asset_info },
        ) && is_asset_info_of(offer_asset_info, op.denom_in@, denom_in_is_address)
            && is_asset_info_of(ask_asset_info, op.denom_out@, denom_out_is_address)),
{
    let pool = op.pool.as_str();
    if contains(pool, "convert") {
        let parts = split(pool, '-');
        if parts.len() != 2 {
            return Err(ContractError::Std(StdError::generic_err("Invalid convert type pool_id, require exactly 2 fields")));
        }
        if let Err(e) = converter_check {
            return Err(e);
        }
        let converter = parts[1].clone();
        let kind = parts[0].clone();
        let reverse = String::from_str("convert_reverse");
        let forward = String::from_str("convert");
        if kind == reverse {
            return Ok(OraidexSwapMsg::ConvertReverse {
                converter,
                from_asset: denom_to_asset_info(op.denom_in.as_str(), denom_in_is_address),
            });
        } else if kind == forward {
            return Ok(OraidexSwapMsg::Convert { converter });
        } else {
            return Err(ContractError::Std(StdError::generic_err("Invalid convert type pool_id")));
        }
    }
    if contains(pool, "-") {
        let pool_key = convert_pool_id_to_v3_pool_key(pool)?;
        let x_to_y = pool_key.token_x == op.denom_in;
        return Ok(OraidexSwapMsg::SwapV3 { pool_key, x_to_y });
    }
    Ok(OraidexSwapMsg::OraiSwap {
        offer_asset_info: denom_to_asset_info(op.denom_in.as_str(), denom_in_is_address),
        ask_asset_info: denom_to_asset_info(op.denom_out.as_str(), denom_out_is_address),
    })
}

} // verus!
