use skip_go_adapters::decimal::{checked_div_floor, checked_mul_floor, uint128_from_str, Decimal};
use skip_go_adapters::error::{ContractError, StdError};
use skip_go_adapters::spot_price::{
    assert_max_spread, max_allowed_slippage, price_product, spot_price_from_reverse_simulation,
    spot_price_from_simulation, weighted_spot_price, weighted_spot_price_from_simulations, ReverseHop, SimHop,
};

const ONE: u128 = 1_000_000_000_000_000_000;

#[test]
fn decimal_from_str_reads_whole_and_fraction() {
    assert_eq!(Decimal::from_str("0.5"), Ok(Decimal { atomics: ONE / 2 }));
    assert_eq!(Decimal::from_str("12"), Ok(Decimal { atomics: 12 * ONE }));
    assert_eq!(Decimal::from_str("1.000000000000000001"), Ok(Decimal { atomics: ONE + 1 }));
}

#[test]
fn decimal_from_str_rejects_malformed_text() {
    let refused = |msg: &str| -> Result<Decimal, StdError> { Err(StdError::GenericErr { msg: msg.to_string() }) };
    assert_eq!(Decimal::from_str("abc"), refused("Error parsing whole"));
    assert_eq!(Decimal::from_str("1.2.3"), refused("Unexpected number of dots"));
    assert_eq!(Decimal::from_str("0.0000000000000000001"), refused("Cannot parse more than 18 fractional digits"));
    assert_eq!(Decimal::from_str("1."), refused("Error parsing fractional"));
    assert_eq!(Decimal::from_str("340282366920938463464"), refused("Value too big"));
    assert_eq!(Decimal::from_str("340282366920938463463.9"), refused("Value too big"));
}

#[test]
fn decimal_display() {
    assert_eq!(Decimal::raw(3 * ONE / 2).to_string(), "1.5");
    assert_eq!(Decimal::one().to_string(), "1");
    assert_eq!(Decimal::zero().to_string(), "0");
    assert_eq!(Decimal::from_ratio(1, 3).to_string(), "0.333333333333333333");
}

#[test]
fn decimal_ratio_and_products() {
    assert_eq!(Decimal::from_ratio(1, 4), Decimal { atomics: ONE / 4 });
    assert_eq!(Decimal::checked_from_ratio(1, 0), None);
    assert_eq!(Decimal::checked_from_ratio(u128::MAX, 1), None);
    assert_eq!(Decimal::percent(50).checked_mul(Decimal::percent(50)), Some(Decimal::percent(25)));
    assert_eq!(Decimal::raw(u128::MAX).checked_mul(Decimal::raw(2 * ONE)), None);
    assert_eq!(Decimal::one().checked_div(Decimal::percent(25)), Some(Decimal::raw(4 * ONE)));
    assert_eq!(Decimal::one().checked_div(Decimal::zero()), None);
    assert_eq!(Decimal::percent(10).checked_add(Decimal::permille(5)), Some(Decimal::raw(105 * ONE / 1000)));
    assert!(Decimal::percent(51).gt(max_allowed_slippage()));
    assert!(!Decimal::percent(50).gt(max_allowed_slippage()));
}

#[test]
fn amounts_from_text() {
    assert_eq!(uint128_from_str("123"), Ok(123));
    assert_eq!(uint128_from_str("+7"), Ok(7));
    assert!(matches!(uint128_from_str("-1"), Err(StdError::GenericErr { .. })));
    assert!(matches!(uint128_from_str(""), Err(StdError::GenericErr { .. })));
    assert!(matches!(uint128_from_str("340282366920938463463374607431768211456"), Err(StdError::GenericErr { .. })));
    match uint128_from_str("abc") {
        Err(StdError::GenericErr { msg }) => assert!(msg.starts_with("Parsing u128:")),
        other => panic!("unexpected {:?}", other),
    }
}

#[test]
fn floor_products_and_quotients() {
    assert_eq!(checked_mul_floor(1000, Decimal::from_ratio(1, 3)), Some(333));
    assert_eq!(checked_div_floor(1000, Decimal::percent(50)), Some(2000));
    assert_eq!(checked_div_floor(1000, Decimal::zero()), None);
    assert_eq!(checked_mul_floor(u128::MAX, Decimal::raw(2 * ONE)), None);
}

#[test]
fn spread_check() {
    assert_eq!(assert_max_spread(100, 100), Ok(()));
    assert_eq!(assert_max_spread(100, 101), Err(ContractError::MaxSpreadAssertion));
    assert_eq!(assert_max_spread(0, 0), Err(ContractError::Aborted));
    assert_eq!(assert_max_spread(u128::MAX, 1), Err(ContractError::Aborted));
    assert_eq!(assert_max_spread(1000, 0), Ok(()));
}

#[test]
fn spot_price_of_simulated_hops() {
    let hop = SimHop { returned: 900, fees: vec![50, 50] };
    assert_eq!(spot_price_from_simulation(1000, &vec![hop]), Ok(Decimal::one()));
    let hops = vec![SimHop { returned: 1980, fees: vec![20] }, SimHop { returned: 990, fees: vec![10] }];
    assert_eq!(spot_price_from_simulation(1000, &hops), Ok(Decimal::raw(1_010_101_010_101_010_100)));
    assert_eq!(spot_price_from_simulation(0, &vec![SimHop { returned: 1, fees: vec![] }]), Err(ContractError::Aborted));
    assert_eq!(spot_price_from_simulation(1000, &vec![]), Ok(Decimal::one()));
}

#[test]
fn spot_price_of_reverse_simulated_hops() {
    let hops = vec![ReverseHop { offer: 500, fees: vec![0] }];
    assert_eq!(spot_price_from_reverse_simulation(1000, &hops), Ok(Decimal::raw(2 * ONE)));
    let bad = vec![ReverseHop { offer: 0, fees: vec![] }];
    assert_eq!(spot_price_from_reverse_simulation(1000, &bad), Err(ContractError::Aborted));
    let overflow = vec![ReverseHop { offer: u128::MAX, fees: vec![] }];
    assert_eq!(spot_price_from_reverse_simulation(1000, &overflow), Err(ContractError::Overflow));
}

#[test]
fn weighted_spot_price_of_routes() {
    let r = weighted_spot_price(1000, &vec![600, 400], &vec![Decimal::raw(2 * ONE), Decimal::one()]);
    assert_eq!(r, Ok(Decimal::raw(16 * ONE / 10)));
    assert_eq!(weighted_spot_price(0, &vec![1], &vec![Decimal::one()]), Err(ContractError::Aborted));
    assert_eq!(weighted_spot_price(1000, &vec![1000], &vec![]), Err(ContractError::Aborted));
}

#[test]
fn single_route_weighted_price_is_its_price() {
    let p = Decimal::raw(1_234_567_890_123_456_789);
    assert_eq!(weighted_spot_price(5000, &vec![5000], &vec![p]), Ok(p));
}

#[test]
fn weighted_spot_price_from_route_simulations() {
    let routes = vec![vec![SimHop { returned: 2000, fees: vec![] }], vec![SimHop { returned: 1000, fees: vec![] }]];
    let r = weighted_spot_price_from_simulations(1000, &vec![500, 500], &routes);
    assert_eq!(r, Ok(Decimal::raw(3 * ONE / 2)));
}

#[test]
fn price_products() {
    assert_eq!(price_product(&vec![Decimal::raw(2 * ONE), Decimal::percent(50)], false), Some(Decimal::one()));
    assert_eq!(price_product(&vec![Decimal::raw(2 * ONE), Decimal::raw(4 * ONE)], true), Some(Decimal::raw(ONE / 8)));
    assert_eq!(price_product(&vec![Decimal::zero()], true), None);
}
