use skip_go_adapters::asset::{validate_received_asset, one_coin, Asset, Coin, Cw20Coin};
use skip_go_adapters::astroport::{
    execute_swap as astroport_swap, simulate_swap_operations_query, AssetInfo as AstroportAssetInfo, AstroSwap,
};
use skip_go_adapters::chain_amm::{
    execute_swap as module_swap, ModuleSwap, estimated_asset, module_spot_price, process_swap_exact_amount_in_query, process_swap_exact_amount_out_query,
    smart_swap_with_spot_price, RouteEstimate,
};
use skip_go_adapters::decimal::Decimal;
use skip_go_adapters::error::{ContractError, PaymentError, StdError};
use skip_go_adapters::simulate::{simulate_exact_in, simulate_exact_out, HopQuote};
use skip_go_adapters::swap::{
    check_exact_in, check_exact_out, convert_swap_operations_in, convert_swap_operations_out, get_ask_denom_for_routes,
    return_denom, total_route_output, transfer_funds_back, FundsTransfer, Route, SwapAmountInRoute, SwapAmountOutRoute,
    SwapOperation,
};

const ONE: u128 = 1_000_000_000_000_000_000;

fn op(pool: &str, denom_in: &str, denom_out: &str) -> SwapOperation {
    SwapOperation { pool: pool.to_string(), denom_in: denom_in.to_string(), denom_out: denom_out.to_string(), interface: None }
}

fn native(denom: &str, amount: u128) -> Asset {
    Asset::Native(Coin { denom: denom.to_string(), amount })
}

#[test]
fn exact_in_and_out_checks() {
    let ops = vec![op("1", "uosmo", "uatom"), op("2", "uatom", "uusdc")];
    assert_eq!(check_exact_in("uosmo", &ops), Ok(()));
    assert_eq!(check_exact_in("uatom", &ops), Err(ContractError::CoinInDenomMismatch));
    assert_eq!(check_exact_in("uosmo", &vec![]), Err(ContractError::SwapOperationsEmpty));
    assert_eq!(check_exact_out("uusdc", &ops), Ok(()));
    assert_eq!(check_exact_out("uatom", &ops), Err(ContractError::CoinOutDenomMismatch));
    assert_eq!(return_denom(&ops), Ok("uusdc".to_string()));
    assert_eq!(return_denom(&vec![]), Err(ContractError::SwapOperationsEmpty));
}

#[test]
fn ask_denom_of_routes() {
    let routes = vec![
        Route { offer_asset: native("uosmo", 1), operations: vec![op("1", "uosmo", "uatom")] },
        Route { offer_asset: native("uosmo", 1), operations: vec![op("2", "uosmo", "uusdc")] },
    ];
    assert_eq!(get_ask_denom_for_routes(&routes), Ok("uusdc".to_string()));
    assert_eq!(get_ask_denom_for_routes(&vec![]), Err(ContractError::RoutesEmpty));
    let empty_last = vec![Route { offer_asset: native("uosmo", 1), operations: vec![] }];
    assert_eq!(get_ask_denom_for_routes(&empty_last), Err(ContractError::SwapOperationsEmpty));
}

#[test]
fn pool_routes_by_number() {
    let ops = vec![op("1", "uosmo", "uatom"), op("42", "uatom", "uusdc")];
    assert_eq!(
        convert_swap_operations_in(&ops),
        Ok(vec![
            SwapAmountInRoute { pool_id: 1, token_out_denom: "uatom".to_string() },
            SwapAmountInRoute { pool_id: 42, token_out_denom: "uusdc".to_string() },
        ])
    );
    assert_eq!(
        convert_swap_operations_out(&ops),
        Ok(vec![
            SwapAmountOutRoute { pool_id: 1, token_in_denom: "uosmo".to_string() },
            SwapAmountOutRoute { pool_id: 42, token_in_denom: "uatom".to_string() },
        ])
    );
    assert_eq!(convert_swap_operations_in(&vec![op("pool", "a", "b")]), Err(ContractError::ParseIntPoolID));
}

#[test]
fn smart_swap_output_adds_up() {
    let a = total_route_output("uusdc", false, &vec![10, 20, 30]).unwrap();
    assert_eq!(a, native("uusdc", 60));
    assert_eq!(total_route_output("uusdc", false, &vec![u128::MAX, 1]), Err(ContractError::Overflow));
    let t = total_route_output("juno1token", true, &vec![]).unwrap();
    assert_eq!(t, Asset::Cw20(Cw20Coin { address: "juno1token".to_string(), amount: 0 }));
}

#[test]
fn funds_go_back_to_the_swapper() {
    assert_eq!(
        transfer_funds_back("adapter", "adapter", "entry", "uusdc", false),
        Ok(FundsTransfer::AllNativeBalances { to: "entry".to_string() })
    );
    assert_eq!(
        transfer_funds_back("adapter", "adapter", "entry", "juno1token", true),
        Ok(FundsTransfer::Cw20Balance { token: "juno1token".to_string(), to: "entry".to_string() })
    );
    assert_eq!(transfer_funds_back("x", "adapter", "entry", "uusdc", false), Err(ContractError::Unauthorized));
}

#[test]
fn received_assets() {
    assert_eq!(one_coin(&vec![]), Err(PaymentError::NoFunds));
    assert_eq!(one_coin(&vec![Coin { denom: "a".to_string(), amount: 0 }]), Err(PaymentError::NoFunds));
    assert_eq!(
        one_coin(&vec![Coin { denom: "a".to_string(), amount: 1 }, Coin { denom: "b".to_string(), amount: 1 }]),
        Err(PaymentError::MultipleDenoms)
    );
    let funds = vec![Coin { denom: "uosmo".to_string(), amount: 5 }];
    assert_eq!(validate_received_asset(&native("uosmo", 5), &funds, "anyone"), Ok(()));
    assert_eq!(validate_received_asset(&native("uosmo", 6), &funds, "anyone"), Err(ContractError::InvalidNativeCoin));
    let token = Asset::Cw20(Cw20Coin { address: "juno1token".to_string(), amount: 5 });
    assert_eq!(validate_received_asset(&token, &vec![], "juno1token"), Ok(()));
    assert_eq!(validate_received_asset(&token, &funds, "juno1token"), Err(ContractError::InvalidCw20Coin));
}

#[test]
fn asset_addition() {
    let mut a = native("uosmo", 5);
    assert_eq!(a.add(7), Ok(()));
    assert_eq!(a.amount(), 12);
    assert_eq!(a.add(u128::MAX), Err(ContractError::Overflow));
    assert_eq!(a.amount(), 12);
}

#[test]
fn multi_hop_exact_in_simulation() {
    let ops = vec![op("p1", "uosmo", "uatom"), op("p2", "uatom", "juno1token")];
    let quotes = vec![HopQuote { amount: 90, spread: 10 }, HopQuote { amount: 80, spread: 5 }];
    let r = simulate_exact_in(native("uosmo", 100), &ops, &quotes, &vec![false, true], false);
    assert_eq!(r, Ok(Asset::Cw20(Cw20Coin { address: "juno1token".to_string(), amount: 80 })));
    let bad = vec![HopQuote { amount: 10, spread: 90 }, HopQuote { amount: 80, spread: 5 }];
    assert_eq!(
        simulate_exact_in(native("uosmo", 100), &ops, &bad, &vec![false, true], false),
        Err(ContractError::MaxSpreadAssertion)
    );
    let token_in = Asset::Cw20(Cw20Coin { address: "juno1in".to_string(), amount: 100 });
    assert_eq!(simulate_exact_in(token_in, &ops, &quotes, &vec![false, true], true), Err(ContractError::Aborted));
}

#[test]
fn multi_hop_exact_out_simulation() {
    let ops = vec![op("p1", "uosmo", "uatom"), op("p2", "uatom", "uusdc")];
    let quotes = vec![HopQuote { amount: 50, spread: 1 }, HopQuote { amount: 120, spread: 2 }];
    let r = simulate_exact_out(native("uusdc", 40), &ops, &quotes, &vec![false, false], false);
    assert_eq!(r, Ok(native("uosmo", 121)));
    let overflow = vec![HopQuote { amount: u128::MAX, spread: 0 }, HopQuote { amount: 1, spread: 0 }];
    assert_eq!(
        simulate_exact_out(native("uusdc", 40), &ops, &overflow, &vec![false, false], false),
        Err(ContractError::Overflow)
    );
}

#[test]
fn chain_module_query_preparation() {
    let ops = vec![op("1", "uosmo", "uatom"), op("7", "uatom", "uusdc")];
    let (routes, coin, denom_out) = process_swap_exact_amount_in_query(native("uosmo", 9), &ops).unwrap();
    assert_eq!(routes[1], SwapAmountInRoute { pool_id: 7, token_out_denom: "uusdc".to_string() });
    assert_eq!(coin, Coin { denom: "uosmo".to_string(), amount: 9 });
    assert_eq!(denom_out, "uusdc");
    assert_eq!(process_swap_exact_amount_in_query(native("uosmo", 9), &vec![]).err(), Some(ContractError::SwapOperationsEmpty));
    let token = Asset::Cw20(Cw20Coin { address: "x".to_string(), amount: 9 });
    assert_eq!(process_swap_exact_amount_in_query(token, &ops).err(), Some(ContractError::AssetNotNative));
    assert_eq!(
        process_swap_exact_amount_in_query(native("uatom", 9), &ops).err(),
        Some(ContractError::CoinInDenomMismatch)
    );
    let (routes, coin, denom_in) = process_swap_exact_amount_out_query(native("uusdc", 3), &ops).unwrap();
    assert_eq!(routes[0], SwapAmountOutRoute { pool_id: 1, token_in_denom: "uosmo".to_string() });
    assert_eq!(coin, Coin { denom: "uusdc".to_string(), amount: 3 });
    assert_eq!(denom_in, "uosmo");
    assert_eq!(
        process_swap_exact_amount_out_query(native("uusdc", 3), &vec![op("x", "uosmo", "uusdc")]).err(),
        Some(ContractError::ParseIntPoolID)
    );
}

#[test]
fn module_estimates() {
    assert_eq!(
        estimated_asset("uusdc".to_string(), Some("77".to_string()), ContractError::TokenOutNotFound),
        Ok(native("uusdc", 77))
    );
    assert_eq!(
        estimated_asset("uusdc".to_string(), None, ContractError::TokenInNotFound),
        Err(ContractError::TokenInNotFound)
    );
    assert!(matches!(
        estimated_asset("uusdc".to_string(), Some("7.5".to_string()), ContractError::TokenOutNotFound),
        Err(ContractError::Std(StdError::GenericErr { .. }))
    ));
}

#[test]
fn module_spot_price_is_the_product_of_the_pools_prices() {
    let ops = vec![op("1", "a", "b"), op("2", "b", "c")];
    let r = module_spot_price(&ops, vec![Ok("2".to_string()), Ok("0.25".to_string())]);
    assert_eq!(r, Ok(Decimal::raw(ONE / 2)));
    let bad_pool = vec![op("x", "a", "b")];
    assert_eq!(module_spot_price(&bad_pool, vec![Ok("2".to_string())]), Err(ContractError::ParseIntPoolID));
    assert_eq!(
        module_spot_price(&ops, vec![Err(ContractError::SimulationError), Ok("1".to_string())]),
        Err(ContractError::SimulationError)
    );
    assert_eq!(
        module_spot_price(&ops, vec![Ok("two".to_string()), Ok("1".to_string())]),
        Err(ContractError::Std(StdError::GenericErr { msg: "Error parsing whole".to_string() }))
    );
}

#[test]
fn smart_swap_with_weighted_spot_price() {
    let answers = vec![
        Ok(RouteEstimate { amount_out: 300, spot_price: Some(Decimal::raw(2 * ONE)) }),
        Ok(RouteEstimate { amount_out: 100, spot_price: Some(Decimal::one()) }),
    ];
    let r = smart_swap_with_spot_price("uusdc", false, 200, &vec![150, 50], answers, true);
    assert_eq!(r, Ok((native("uusdc", 400), Some(Decimal::raw(7 * ONE / 4)))));
    let missing = vec![Ok(RouteEstimate { amount_out: 300, spot_price: None })];
    assert_eq!(
        smart_swap_with_spot_price("uusdc", false, 200, &vec![200], missing, true),
        Err(ContractError::SpotPriceNotFound)
    );
    let no_price = vec![Ok(RouteEstimate { amount_out: 5, spot_price: Some(Decimal::one()) })];
    assert_eq!(smart_swap_with_spot_price("uusdc", false, 5, &vec![5], no_price, false), Ok((native("uusdc", 5), None)));
}

#[test]
fn chain_module_swaps_route_by_pool_number() {
    let funds = vec![Coin { denom: "uosmo".to_string(), amount: 10 }];
    let ops = vec![op("1", "uosmo", "uatom"), op("42", "uatom", "uusdc")];
    assert_eq!(
        module_swap("entry", "entry", &funds, &ops),
        Ok(ModuleSwap {
            routes: vec![
                SwapAmountInRoute { pool_id: 1, token_out_denom: "uatom".to_string() },
                SwapAmountInRoute { pool_id: 42, token_out_denom: "uusdc".to_string() },
            ],
            token_in: Coin { denom: "uosmo".to_string(), amount: 10 },
            token_out_min_amount: "1".to_string(),
            return_denom: "uusdc".to_string(),
        })
    );
    assert_eq!(module_swap("other", "entry", &funds, &ops), Err(ContractError::Unauthorized));
    assert_eq!(module_swap("entry", "entry", &vec![], &ops), Err(ContractError::Payment(PaymentError::NoFunds)));
    assert_eq!(module_swap("entry", "entry", &funds, &vec![]), Err(ContractError::SwapOperationsEmpty));
    assert_eq!(module_swap("entry", "entry", &funds, &vec![op("pool", "uosmo", "uatom")]), Err(ContractError::ParseIntPoolID));
}

#[test]
fn astroport_hops_name_tokens_by_address() {
    let funds = vec![Coin { denom: "untrn".to_string(), amount: 5 }];
    let ops = vec![op("pair", "untrn", "neutron1token")];
    let (coin, swaps) = astroport_swap("entry", "entry", &funds, &ops, &vec![(false, true)]).unwrap();
    assert_eq!(coin, Coin { denom: "untrn".to_string(), amount: 5 });
    assert_eq!(
        swaps,
        vec![AstroSwap {
            offer_asset_info: AstroportAssetInfo::NativeToken { denom: "untrn".to_string() },
            ask_asset_info: AstroportAssetInfo::Token { contract_addr: "neutron1token".to_string() },
        }]
    );
    assert_eq!(astroport_swap("x", "entry", &funds, &ops, &vec![(false, true)]), Err(ContractError::Unauthorized));
}

#[test]
fn astroport_router_simulation_checks_the_first_hop() {
    let ops = vec![op("pair1", "uluna", "uusd"), op("pair2", "uusd", "terra1token")];
    let flags = vec![(false, false), (false, true)];
    let (amount, swaps) = simulate_swap_operations_query(&Asset::new("uluna", 77, false), &ops, &flags).unwrap();
    assert_eq!(amount, 77);
    assert_eq!(swaps.len(), 2);
    assert_eq!(swaps[1].ask_asset_info, AstroportAssetInfo::Token { contract_addr: "terra1token".to_string() });
    assert_eq!(
        simulate_swap_operations_query(&Asset::new("uusd", 77, false), &ops, &flags),
        Err(ContractError::CoinInDenomMismatch)
    );
    assert_eq!(simulate_swap_operations_query(&Asset::new("uluna", 77, false), &vec![], &vec![]), Err(ContractError::SwapOperationsEmpty));
}
