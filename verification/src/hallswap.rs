//! The messages of the Hallswap aggregator: routes of hops through Astroport-style
//! pools, each route with the amount it is offered.

use vstd::prelude::*;
use crate::astroport::{Asset, AssetInfo};

verus! {

/// How a hop's pool is called, as the aggregator's binary payload.
#[derive(Debug, Clone, PartialEq, Eq)]
pub enum HallswapInterface {
    Binary(Vec<u8>),
}

/// One hop of a route: the pool contract, the asset offered and the asset returned.
#[derive(Debug, Clone, PartialEq, Eq)]
pub struct HallswapSwapOperation {
    pub contract_addr: String,
    pub offer_asset: AssetInfo,
    pub return_asset: AssetInfo,
    pub interface: Option<HallswapInterface>,
}

/// A route and the amount it is offered.
#[derive(Debug, Clone, PartialEq, Eq)]
pub struct HallswapRouteInfo {
    pub route: Vec<HallswapSwapOperation>,
    pub offer_amount: u128,
}

/// Executes the routes, requiring at least `minimum_receive` back, sent to `to` or
/// to the caller.
#[derive(Debug, Clone, PartialEq, Eq)]
pub enum HallswapExecuteMsg {
    ExecuteRoutesV2 { routes: Vec<HallswapRouteInfo>, minimum_receive: u128, to: Option<String> },
}

/// Asks what the routes would return.
#[derive(Debug, Clone, PartialEq, Eq)]
pub enum HallswapQueryMsg {
    Simulation { routes: Vec<HallswapRouteInfo> },
}

/// What a simulation returns: the asset out, and the fee taken, if any.
#[derive(Debug, Clone, PartialEq, Eq)]
pub struct HallswapQuerySimulationResult {
    pub return_asset: Asset,
    pub fee_asset: Option<Asset>,
}

} // verus!
