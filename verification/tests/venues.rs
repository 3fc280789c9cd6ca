use skip_go_adapters::asset::{Asset, Coin, Cw20Coin};
use skip_go_adapters::astroport::{reverse_simulation_step, to_astroport_asset, Asset as AstroportAsset, AssetInfo as AstroportAssetInfo};
use skip_go_adapters::astrovault::{
    convert_operation_to_hop, convert_operations_to_hops, route_pools_request, execute_swap as astrovault_swap, execute_transfer_funds_back, HopV2,
    RoutePoolType, RouterCall,
};
use skip_go_adapters::dezswap::{execute_dezswap_pool_swap, execute_swap as dezswap_swap, DezswapPoolSwap};
use skip_go_adapters::decimal::Decimal;
use skip_go_adapters::dexter::{calculate_spot_price, execute_swap as dexter_swap, hop_swap_requests, simulated_asset_in, simulated_asset_out, HopSwapRequest};
use skip_go_adapters::drop::{
    get_opposite_denom_in, get_opposite_denom_out, simulate_amount_in, simulate_amount_out, simulate_swap_exact_asset_in,
    simulate_swap_exact_asset_out,
};
use skip_go_adapters::duality::{
    calculate_spot_price_multi, execute_swap as duality_swap, get_route_from_swap_operations, get_spot_price_and_tick,
    int128_to_uint128, limit_order_query, EstimatePlaceLimitOrder,
    limit_order_amounts, limit_order_tick, new_pair_id_str, uint128_to_int128,
};
use skip_go_adapters::error::{ContractError, StdError};
use skip_go_adapters::hallswap::{HallswapQuerySimulationResult, HallswapRouteInfo, HallswapSwapOperation};
use skip_go_adapters::injective::{execute_swap as injective_swap, output_quantity_query, smart_swap_total, InjectiveExecuteMsg, InjectiveQueryMsg};
use skip_go_adapters::lido_satellite::{execute_swap as lido_swap, other_denom, simulate_conversion, simulate_conversion_with_metadata, SatelliteMsg};
use skip_go_adapters::mantra_dex::{execute_swap as mantra_swap, SwapOperation as MantraSwapOperation};
use skip_go_adapters::oraidex::{convert_pool_converter, convert_pool_id_to_v3_pool_key, parse_to_swap_msg, AssetInfo, FeeTier, OraidexSwapMsg, PoolKey};
use skip_go_adapters::swap::{FundsTransfer, SwapOperation};

const ONE: u128 = 1_000_000_000_000_000_000;

fn op(pool: &str, denom_in: &str, denom_out: &str) -> SwapOperation {
    SwapOperation { pool: pool.to_string(), denom_in: denom_in.to_string(), denom_out: denom_out.to_string(), interface: None }
}

fn coins(denom: &str, amount: u128) -> Vec<Coin> {
    vec![Coin { denom: denom.to_string(), amount }]
}

#[test]
fn pair_ids_put_the_smaller_token_first() {
    assert_eq!(new_pair_id_str(&"untrn".to_string(), &"uatom".to_string()), "uatom<>untrn");
    assert_eq!(new_pair_id_str(&"uatom".to_string(), &"untrn".to_string()), "uatom<>untrn");
    assert_eq!(new_pair_id_str(&"ab".to_string(), &"a".to_string()), "a<>ab");
}

#[test]
fn duality_amounts_and_ticks() {
    assert_eq!(uint128_to_int128(5), Ok(5));
    assert_eq!(uint128_to_int128(u128::MAX), Err(ContractError::ConversionError));
    assert_eq!(int128_to_uint128(-1), Err(ContractError::ConversionError));
    assert_eq!(int128_to_uint128(uint128_to_int128(77).unwrap()), Ok(77));
    assert_eq!(limit_order_tick(10), Ok(2010));
    assert_eq!(limit_order_tick(i64::MAX), Err(ContractError::Aborted));
    assert_eq!(limit_order_amounts(100, 40), Ok((100, 40)));
    assert_eq!(limit_order_amounts(u128::MAX, 40), Err(ContractError::ConversionError));
}

#[test]
fn duality_routes() {
    let route = get_route_from_swap_operations(&vec![op("p", "a", "b"), op("q", "b", "c")]).unwrap();
    assert_eq!(route.hops, vec!["a".to_string(), "b".to_string(), "c".to_string()]);
    assert_eq!(
        get_route_from_swap_operations(&vec![op("p", "a", "b"), op("q", "x", "c")]),
        Err(ContractError::SwapOperationDenomMismatch)
    );
    assert_eq!(get_route_from_swap_operations(&vec![]), Err(ContractError::SwapOperationsEmpty));
    let s = duality_swap("entry", "entry", &coins("a", 9), &vec![op("p", "a", "b")]).unwrap();
    assert_eq!(s.amount_in, 9);
    assert_eq!(s.return_denom, "b");
}

#[test]
fn duality_spot_price_inverts_prices() {
    assert_eq!(
        calculate_spot_price_multi(vec![Ok(Decimal::raw(2 * ONE)), Ok(Decimal::raw(4 * ONE))]),
        Ok(Decimal::raw(ONE / 8))
    );
    assert_eq!(
        calculate_spot_price_multi(vec![Ok(Decimal::zero())]),
        Err(ContractError::Std(StdError::generic_err("Failed to perform price division: Denominator must not be zero")))
    );
    assert_eq!(
        calculate_spot_price_multi(vec![Ok(Decimal::raw(1)), Ok(Decimal::raw(1))]),
        Err(ContractError::Std(StdError::generic_err(
            "Failed to perform price multiplication: Cannot Mul with given operands"
        )))
    );
    assert_eq!(calculate_spot_price_multi(vec![Err(ContractError::Aborted)]), Err(ContractError::Aborted));
    assert_eq!(calculate_spot_price_multi(vec![]), Ok(Decimal::one()));
}

#[test]
fn duality_price_and_tick() {
    assert_eq!(get_spot_price_and_tick(None), Err(ContractError::Aborted));
    assert_eq!(get_spot_price_and_tick(Some(("0.5".to_string(), 7))), Ok((Decimal::percent(50), 7)));
    assert_eq!(
        get_spot_price_and_tick(Some(("abc".to_string(), 1))),
        Err(ContractError::Std(StdError::GenericErr {
            msg: "Failed to parse spot_price as Decimal: Generic error: Error parsing whole".to_string()
        }))
    );
}

#[test]
fn drop_denoms_and_amounts() {
    assert_eq!(get_opposite_denom_in("uatom", "uatom", "dATOM"), Ok("dATOM".to_string()));
    assert_eq!(get_opposite_denom_in("dATOM", "uatom", "dATOM"), Err(ContractError::UnsupportedDenom));
    assert_eq!(get_opposite_denom_out("dATOM", "uatom", "dATOM"), Ok("uatom".to_string()));
    assert_eq!(get_opposite_denom_out("uatom", "uatom", "dATOM"), Err(ContractError::UnsupportedDenom));
    let rate = Decimal::from_ratio(3, 2);
    assert_eq!(simulate_amount_in(rate, 101), Ok(151));
    assert_eq!(simulate_amount_out(rate, 151), Ok(100));
    assert_eq!(simulate_amount_out(Decimal::zero(), 1), Err(ContractError::Aborted));
}

#[test]
fn drop_simulations_answer_with_the_rate() {
    let rate = Decimal::from_ratio(3, 2);
    let atom = Asset::new("uatom", 101, false);
    assert_eq!(
        simulate_swap_exact_asset_in(&atom, "uatom", "dATOM", Ok(rate), true),
        Ok((Asset::Native(Coin { denom: "dATOM".to_string(), amount: 151 }), Some(rate)))
    );
    assert_eq!(
        simulate_swap_exact_asset_in(&atom, "uatom", "dATOM", Ok(rate), false),
        Ok((Asset::Native(Coin { denom: "dATOM".to_string(), amount: 151 }), None))
    );
    assert_eq!(
        simulate_swap_exact_asset_in(&atom, "uatom", "dATOM", Err(ContractError::Aborted), true),
        Err(ContractError::Aborted)
    );
    let bonded = Asset::new("dATOM", 151, false);
    assert_eq!(simulate_swap_exact_asset_in(&bonded, "uatom", "dATOM", Ok(rate), true), Err(ContractError::UnsupportedDenom));
    assert_eq!(
        simulate_swap_exact_asset_out(&bonded, "uatom", "dATOM", Ok(rate), true),
        Ok((Asset::Native(Coin { denom: "uatom".to_string(), amount: 100 }), Some(rate)))
    );
    assert_eq!(simulate_swap_exact_asset_out(&atom, "uatom", "dATOM", Ok(rate), false), Err(ContractError::UnsupportedDenom));
    let other = Asset::new("uosmo", 5, false);
    assert_eq!(simulate_swap_exact_asset_out(&other, "uatom", "dATOM", Ok(rate), false), Err(ContractError::Aborted));
    assert_eq!(simulate_swap_exact_asset_out(&bonded, "uatom", "dATOM", Ok(Decimal::zero()), false), Err(ContractError::Aborted));
}

#[test]
fn lido_satellite_mints_and_burns() {
    assert_eq!(other_denom("ibc/ST", "ibc/ST", "factory/wst"), Ok("factory/wst".to_string()));
    assert_eq!(other_denom("factory/wst", "ibc/ST", "factory/wst"), Ok("ibc/ST".to_string()));
    assert_eq!(other_denom("uatom", "ibc/ST", "factory/wst"), Err(ContractError::Aborted));
    let (msg, coin, back) = lido_swap("entry", "entry", &coins("ibc/ST", 4), "ibc/ST", "factory/wst").unwrap();
    assert_eq!(msg, SatelliteMsg::Mint);
    assert_eq!(coin, Coin { denom: "ibc/ST".to_string(), amount: 4 });
    assert_eq!(back, "factory/wst");
}

#[test]
fn oraidex_pool_identifiers() {
    assert_eq!(
        convert_pool_id_to_v3_pool_key("orai-usdt-3000000000-100"),
        Ok(PoolKey {
            token_x: "orai".to_string(),
            token_y: "usdt".to_string(),
            fee_tier: FeeTier { fee: 3000000000, tick_spacing: 100 },
        })
    );
    assert_eq!(
        convert_pool_id_to_v3_pool_key("orai-usdt-3000"),
        Err(ContractError::Std(StdError::generic_err("Invalid v3 pool_id, require exactly 4 fields")))
    );
    assert_eq!(
        convert_pool_id_to_v3_pool_key("orai-usdt-x-100"),
        Err(ContractError::Std(StdError::generic_err("Invalid fee in v3 pool")))
    );
    assert_eq!(
        convert_pool_id_to_v3_pool_key("orai-usdt-1-70000"),
        Err(ContractError::Std(StdError::generic_err("Invalid tick_spacing in v3 pool")))
    );
    assert_eq!(convert_pool_converter("convert-orai1conv"), Some("orai1conv".to_string()));
    assert_eq!(convert_pool_converter("orai1pair"), None);
}

#[test]
fn oraidex_swap_messages() {
    let m = parse_to_swap_msg(&op("convert_reverse-orai1conv", "orai1token", "orai"), Ok(()), true, false).unwrap();
    assert_eq!(
        m,
        OraidexSwapMsg::ConvertReverse {
            converter: "orai1conv".to_string(),
            from_asset: AssetInfo::Token { contract_addr: "orai1token".to_string() },
        }
    );
    let m = parse_to_swap_msg(&op("convert-orai1conv", "a", "b"), Ok(()), false, false).unwrap();
    assert_eq!(m, OraidexSwapMsg::Convert { converter: "orai1conv".to_string() });
    assert_eq!(
        parse_to_swap_msg(&op("convert-x-y", "a", "b"), Ok(()), false, false),
        Err(ContractError::Std(StdError::generic_err("Invalid convert type pool_id, require exactly 2 fields")))
    );
    assert_eq!(
        parse_to_swap_msg(&op("convertx-orai1conv", "a", "b"), Ok(()), false, false),
        Err(ContractError::Std(StdError::generic_err("Invalid convert type pool_id")))
    );
    assert_eq!(
        parse_to_swap_msg(&op("convert-bad", "a", "b"), Err(ContractError::Unauthorized), false, false),
        Err(ContractError::Unauthorized)
    );
    let m = parse_to_swap_msg(&op("orai-usdt-3000000000-100", "usdt", "orai"), Ok(()), false, false).unwrap();
    assert!(matches!(m, OraidexSwapMsg::SwapV3 { x_to_y: false, .. }));
    let m = parse_to_swap_msg(&op("orai1pair", "orai", "orai1token"), Ok(()), false, true).unwrap();
    assert_eq!(
        m,
        OraidexSwapMsg::OraiSwap {
            offer_asset_info: AssetInfo::NativeToken { denom: "orai".to_string() },
            ask_asset_info: AssetInfo::Token { contract_addr: "orai1token".to_string() },
        }
    );
}

#[test]
fn dexter_requests_and_prices() {
    let reqs = hop_swap_requests(&vec![op("3", "a", "b")], ContractError::PoolIdParseError).unwrap();
    assert_eq!(reqs, vec![HopSwapRequest { pool_id: 3, asset_in: "a".to_string(), asset_out: "b".to_string() }]);
    assert_eq!(dexter_swap("x", "entry", 1, &vec![op("3", "a", "b")]), Err(ContractError::Unauthorized));
    assert_eq!(dexter_swap("entry", "entry", 1, &vec![op("z", "a", "b")]), Err(ContractError::PoolIdParseError));
    let s = dexter_swap("entry", "entry", 1000000, &vec![op("3", "uxprt", "stk/uxprt")]).unwrap();
    assert_eq!(s.offer_amount, 1000000);
    assert_eq!(s.return_denom, "stk/uxprt");
    assert_eq!(calculate_spot_price(&vec![Decimal::raw(2 * ONE), Decimal::raw(3 * ONE)]), Ok(Decimal::raw(6 * ONE)));
    let hops = vec![("stk/uxprt".to_string(), 984036u128), ("stk/uatom".to_string(), 5u128)];
    assert_eq!(simulated_asset_out(true, &hops), Ok(Coin { denom: "stk/uatom".to_string(), amount: 5 }));
    assert_eq!(simulated_asset_in(true, &hops), Ok(Coin { denom: "stk/uxprt".to_string(), amount: 984036 }));
    assert_eq!(simulated_asset_out(false, &hops), Err(ContractError::SimulationError));
}

#[test]
fn astrovault_hops() {
    let pt = |t: &str| RoutePoolType { pool_type: t.to_string(), pool_asset_infos: vec!["a".to_string(), "b".to_string()] };
    assert_eq!(
        convert_operation_to_hop(&op("p", "b", "a"), &pt("standard")),
        Ok(HopV2::StandardHopInfo { pool: "p".to_string(), from_asset_index: 1 })
    );
    assert_eq!(
        convert_operation_to_hop(&op("p", "a", "b"), &pt("stable")),
        Ok(HopV2::StableHopInfo { pool: "p".to_string(), from_asset_index: 0, to_asset_index: 1 })
    );
    assert_eq!(
        convert_operation_to_hop(&op("p", "a", "b"), &pt("hybrid")),
        Ok(HopV2::RatioHopInfo { pool: "p".to_string(), from_asset_index: 0 })
    );
    assert_eq!(convert_operation_to_hop(&op("p", "c", "b"), &pt("standard")), Err(ContractError::InvalidPoolAsset));
    assert_eq!(convert_operation_to_hop(&op("p", "a", "b"), &pt("weird")), Err(ContractError::InvalidPoolType));
    assert_eq!(convert_operations_to_hops(&vec![op("p", "a", "b")], &vec![]), Err(ContractError::Aborted));
    let t = execute_transfer_funds_back("adapter", "adapter", "entry", "b", false, Some("cashback"), "router").unwrap();
    assert_eq!(
        t,
        vec![
            FundsTransfer::AllNativeBalances { to: "entry".to_string() },
            FundsTransfer::Cw20Balance { token: "cashback".to_string(), to: "router".to_string() },
        ]
    );
}

#[test]
fn astroport_assets() {
    let token = Asset::Cw20(Cw20Coin { address: "terra1t".to_string(), amount: 3 });
    let a = to_astroport_asset(&token, Ok(()));
    assert_eq!(a, Ok(AstroportAsset { info: AstroportAssetInfo::Token { contract_addr: "terra1t".to_string() }, amount: 3 }));
    let refused = ContractError::Std(StdError::GenericErr { msg: "Invalid input: human address too short".to_string() });
    assert_eq!(to_astroport_asset(&token, Err(refused.clone())), Err(refused.clone()));
    let coin = Asset::Native(Coin { denom: "uluna".to_string(), amount: 4 });
    assert_eq!(
        to_astroport_asset(&coin, Err(refused)),
        Ok(AstroportAsset { info: AstroportAssetInfo::NativeToken { denom: "uluna".to_string() }, amount: 4 })
    );
    let r = reverse_simulation_step(&op("p", "uluna", "uusd"), 99, false);
    assert_eq!(r, Ok(Asset::Native(Coin { denom: "uluna".to_string(), amount: 100 })));
    assert_eq!(reverse_simulation_step(&op("p", "uluna", "uusd"), u128::MAX, false), Err(ContractError::Overflow));
}

#[test]
fn injective_messages() {
    let (coin, msg) = injective_swap("entry", "entry", &coins("inj", 10), &vec![op("p", "inj", "usdt")]).unwrap();
    assert_eq!(coin, Coin { denom: "inj".to_string(), amount: 10 });
    assert_eq!(msg, InjectiveExecuteMsg::SwapMinOutput { target_denom: "usdt".to_string(), min_output_quantity: "0".to_string() });
    let q = output_quantity_query(&Asset::Native(Coin { denom: "inj".to_string(), amount: 10 }), &vec![op("p", "inj", "usdt")]);
    assert_eq!(
        q,
        Ok(InjectiveQueryMsg::GetOutputQuantity { from_quantity: 10, source_denom: "inj".to_string(), target_denom: "usdt".to_string() })
    );
    assert_eq!(smart_swap_total(&vec![1, 2, 3]), Ok(6));
    assert_eq!(smart_swap_total(&vec![u128::MAX, 1]), Err(ContractError::Aborted));
}

#[test]
fn mantra_swap_message() {
    let m = mantra_swap("entry", "entry", &coins("uom", 8), &vec![op("o.uom.uusdc", "uom", "uusdc")]).unwrap();
    assert_eq!(
        m.operations,
        vec![MantraSwapOperation::MantraSwap {
            token_in_denom: "uom".to_string(),
            token_out_denom: "uusdc".to_string(),
            pool_identifier: "o.uom.uusdc".to_string(),
        }]
    );
    assert_eq!(m.receiver, "entry");
    assert_eq!(m.max_spread, Decimal::percent(50));
    assert_eq!(mantra_swap("entry", "entry", &coins("uom", 8), &vec![]), Err(ContractError::SwapOperationsEmpty));
}

#[test]
fn hallswap_simulation_result() {
    let r = HallswapQuerySimulationResult {
        return_asset: AstroportAsset { info: AstroportAssetInfo::NativeToken { denom: "uluna".to_string() }, amount: 5 },
        fee_asset: None,
    };
    let route = HallswapRouteInfo {
        route: vec![HallswapSwapOperation {
            contract_addr: "terra1pool".to_string(),
            offer_asset: AstroportAssetInfo::NativeToken { denom: "uusd".to_string() },
            return_asset: AstroportAssetInfo::NativeToken { denom: "uluna".to_string() },
            interface: None,
        }],
        offer_amount: 10,
    };
    assert_eq!(route.route.len(), 1);
    assert_eq!(r.return_asset.amount, 5);
}

#[test]
fn dezswap_dispatch_and_pool_swaps() {
    let ops = vec![op("pair1", "uxpla", "axpla"), op("pair2", "axpla", "xpla1token")];
    let plan = dezswap_swap("entry", "entry", ops.clone()).unwrap();
    assert_eq!(plan.hops, ops);
    assert_eq!(plan.swapper, "entry");
    assert_eq!(plan.return_denom, "xpla1token");
    assert_eq!(dezswap_swap("entry", "entry", vec![]), Err(ContractError::SwapOperationsEmpty));
    assert_eq!(dezswap_swap("x", "entry", ops.clone()), Err(ContractError::Unauthorized));
    let native = Asset::Native(Coin { denom: "uxpla".to_string(), amount: 9 });
    assert_eq!(
        execute_dezswap_pool_swap("adapter", "adapter", &ops[0], native),
        Ok(DezswapPoolSwap::Native {
            pair: "pair1".to_string(),
            coin: Coin { denom: "uxpla".to_string(), amount: 9 },
            max_spread: Decimal::percent(50),
        })
    );
    let token = Asset::Cw20(Cw20Coin { address: "xpla1t".to_string(), amount: 4 });
    assert_eq!(
        execute_dezswap_pool_swap("adapter", "adapter", &ops[1], token),
        Ok(DezswapPoolSwap::Cw20 {
            token: "xpla1t".to_string(),
            pair: "pair2".to_string(),
            amount: 4,
            max_spread: Decimal::percent(50),
        })
    );
    let empty = Asset::Native(Coin { denom: "uxpla".to_string(), amount: 0 });
    assert_eq!(execute_dezswap_pool_swap("adapter", "adapter", &ops[0], empty), Err(ContractError::NoOfferAssetAmount));
}

#[test]
fn astrovault_swap_dispatch() {
    let types = vec![RoutePoolType { pool_type: "standard".to_string(), pool_asset_infos: vec!["a".to_string(), "b".to_string()] }];
    let s = astrovault_swap("entry", "entry", 10, &vec![op("p", "a", "b")], &types, false).unwrap();
    assert_eq!(s.hops, vec![HopV2::StandardHopInfo { pool: "p".to_string(), from_asset_index: 0 }]);
    assert_eq!(s.call, RouterCall::Native { coin: Coin { denom: "a".to_string(), amount: 10 } });
    assert_eq!(s.return_denom, "b");
    let s = astrovault_swap("entry", "entry", 10, &vec![op("p", "a", "b")], &types, true).unwrap();
    assert_eq!(s.call, RouterCall::Cw20 { token: "a".to_string(), amount: 10 });
    assert_eq!(astrovault_swap("entry", "entry", 10, &vec![], &types, false), Err(ContractError::Aborted));
    assert_eq!(astrovault_swap("x", "entry", 10, &vec![], &types, false), Err(ContractError::Unauthorized));
}

#[test]
fn duality_limit_order_estimates_a_hop() {
    let hop = op("p", "uatom", "untrn");
    assert_eq!(
        limit_order_query("dex", "adapter", &hop, 1_000, 40, Ok(-5)),
        Ok(EstimatePlaceLimitOrder {
            creator: "dex".to_string(),
            receiver: "adapter".to_string(),
            token_in: "uatom".to_string(),
            token_out: "untrn".to_string(),
            tick_index_in_to_out: 1995,
            amount_in: 1_000,
            max_amount_out: 40,
        })
    );
    assert_eq!(limit_order_query("dex", "adapter", &hop, u128::MAX, 40, Ok(0)), Err(ContractError::ConversionError));
    assert_eq!(limit_order_query("dex", "adapter", &hop, 1, u128::MAX, Err(ContractError::Aborted)), Err(ContractError::ConversionError));
    assert_eq!(limit_order_query("dex", "adapter", &hop, 1, 1, Err(ContractError::SwapOperationsEmpty)), Err(ContractError::SwapOperationsEmpty));
    assert_eq!(limit_order_query("dex", "adapter", &hop, 1, 1, Ok(i64::MAX)), Err(ContractError::Aborted));
}

#[test]
fn lido_satellite_simulates_one_for_one() {
    let bridged = Asset::new("ibc/ST", 42, false);
    assert_eq!(
        simulate_conversion(&bridged, "ibc/ST", "factory/wst"),
        Ok(Asset::Native(Coin { denom: "factory/wst".to_string(), amount: 42 }))
    );
    let canonical = Asset::new("factory/wst", 7, false);
    assert_eq!(
        simulate_conversion_with_metadata(&canonical, "ibc/ST", "factory/wst"),
        Ok((Asset::Native(Coin { denom: "ibc/ST".to_string(), amount: 7 }), Some(Decimal::one())))
    );
    assert_eq!(simulate_conversion(&Asset::new("uatom", 1, false), "ibc/ST", "factory/wst"), Err(ContractError::Aborted));
}

#[test]
fn astrovault_asks_for_the_pools_of_the_hops_in_order() {
    let ops = vec![op("pool_1", "os", "ua"), op("pool_2", "ua", "un")];
    assert_eq!(route_pools_request(&ops), vec!["pool_1".to_string(), "pool_2".to_string()]);
    assert_eq!(route_pools_request(&vec![]), Vec::<String>::new());
}
