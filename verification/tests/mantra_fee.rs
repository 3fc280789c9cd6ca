use skip_go_adapters::decimal::Decimal;
use skip_go_adapters::error::StdError;
use skip_go_adapters::mantra_dex::{Fee, PoolFee, PoolType, SwapOperation};
use skip_go_adapters::uint256::Uint256;

#[test]
fn valid_fee() {
    let fee = Fee { share: Decimal::from_ratio(9u128, 10u128) };
    let res = fee.is_valid();
    match res {
        Ok(_) => (),
        Err(_) => panic!("this fee shouldn't fail"),
    }

    let fee = Fee { share: Decimal::from_ratio(2u128, 100u128) };
    let res = fee.is_valid();
    match res {
        Ok(_) => (),
        Err(_) => panic!("this fee shouldn't fail"),
    }

    let fee = Fee { share: Decimal::zero() };
    let res = fee.is_valid();
    match res {
        Ok(_) => (),
        Err(_) => panic!("this fee shouldn't fail"),
    }
}

#[test]
fn invalid_fee() {
    let fee = Fee { share: Decimal::one() };
    assert_eq!(fee.is_valid(), Err(StdError::generic_err("Invalid fee")));

    let fee = Fee { share: Decimal::from_ratio(2u128, 1u128) };
    assert_eq!(fee.is_valid(), Err(StdError::generic_err("Invalid fee")));
}

fn pool_fee(protocol: Decimal, swap: Decimal, burn: Decimal, extra: Vec<Decimal>) -> PoolFee {
    PoolFee {
        protocol_fee: Fee { share: protocol },
        swap_fee: Fee { share: swap },
        burn_fee: Fee { share: burn },
        extra_fees: extra.into_iter().map(|share| Fee { share }).collect(),
    }
}

#[test]
fn pool_fee_application_low_fee_scenario() {
    let p = pool_fee(Decimal::permille(1), Decimal::permille(2), Decimal::permille(1), vec![]);
    assert_eq!(p.compute_and_apply_fees(Uint256::from_u128(1000)), Ok(4u128));
}

#[test]
fn pool_fee_application_higher_fee_scenario() {
    let p = pool_fee(Decimal::percent(1), Decimal::percent(2), Decimal::zero(), vec![]);
    assert_eq!(p.compute_and_apply_fees(Uint256::from_u128(1000)), Ok(30u128));
}

#[test]
fn pool_fee_exceeds_limit() {
    let p = pool_fee(Decimal::percent(10), Decimal::percent(5), Decimal::percent(5), vec![Decimal::percent(1)]);
    assert_eq!(p.is_valid(), Err(StdError::generic_err("Total fees cannot exceed 20%")));
}

#[test]
fn pool_fee_at_limit_is_valid() {
    let p = pool_fee(Decimal::percent(10), Decimal::percent(5), Decimal::percent(5), vec![]);
    assert_eq!(p.is_valid(), Ok(()));
}

#[test]
fn pool_fee_with_invalid_extra_fee() {
    let p = pool_fee(Decimal::zero(), Decimal::zero(), Decimal::zero(), vec![Decimal::one()]);
    assert_eq!(p.is_valid(), Err(StdError::generic_err("Invalid fee")));
}

#[test]
fn valid_pool_fee_takes_at_most_a_fifth_of_the_amount() {
    let p = pool_fee(Decimal::percent(10), Decimal::percent(5), Decimal::percent(5), vec![]);
    assert_eq!(p.is_valid(), Ok(()));
    let fees = p.compute_and_apply_fees(Uint256::from_u128(12345)).unwrap();
    assert_eq!(fees, 1234 + 617 + 617);
    assert!(5 * fees <= 12345);
}

#[test]
fn fee_compute_rounds_down() {
    let fee = Fee { share: Decimal::percent(3) };
    let f = fee.compute(Uint256::from_u128(999)).unwrap();
    assert_eq!(f.to_u128(), Some(29));
}

#[test]
fn fee_is_displayed_as_its_share() {
    let fee = Fee { share: Decimal::percent(10) };
    assert_eq!(fee.to_string(), "0.1%");
}

#[test]
fn mantra_swap_operation_getters() {
    let op = SwapOperation::MantraSwap {
        token_in_denom: "uom".to_string(),
        token_out_denom: "uusdc".to_string(),
        pool_identifier: "o.uom.uusdc".to_string(),
    };
    assert_eq!(op.get_input_asset_info(), "uom");
    assert_eq!(op.get_target_asset_info(), "uusdc");
    assert_eq!(op.get_pool_identifer(), "o.uom.uusdc");
    assert_eq!(
        op.to_string(),
        "MantraSwap { token_in_info: uom, token_out_info: uusdc, pool_identifier: o.uom.uusdc }"
    );
}

#[test]
fn pool_type_labels() {
    assert_eq!(PoolType::ConstantProduct.get_label(), "ConstantProduct");
    assert_eq!(PoolType::StableSwap { amp: 85 }.get_label(), "StableSwap");
}
