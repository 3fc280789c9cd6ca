use skip_go_adapters::asset::{Asset, Coin, Cw20Coin};
use skip_go_adapters::error::{ContractError, PaymentError, StdError};
use skip_go_adapters::hyperlane::execute_hpl_transfer;
use skip_go_adapters::ibc::{
    build_ibc_send_packet, check_transfer_port, check_transfer_request, destination_callback_coin, IbcFee, get_ack_id, get_recv_denom,
    ibc_source_callback, require_ibc_fee, trim_start_matches, IbcTimeout, SourceCallbackAction, SourceCallbackType,
};
use skip_go_adapters::memo::verify_and_create_memo;
use skip_go_adapters::orai_ibc_wasm::{check_cw20_fund, check_native_fund, execute_ibc_wasm_transfer, BridgeTransfer};

#[test]
fn recv_denom_of_a_new_denom_is_hashed() {
    let d = get_recv_denom("transfer", "client-6", "transfer", "08-wasm-0", "0xc30edcad074f093882d80424962415cf61494258");
    assert_eq!(d, "ibc/68afe084b6adf1e1df3867675072f23bf12f270033bd4ce65a10dd7d05d411e1");
}

#[test]
fn recv_denom_of_a_returning_denom_loses_its_trace() {
    let d = get_recv_denom("transfer", "client-6", "transfer", "08-wasm-0", "transfer/client-6/stake");
    assert_eq!(d, "stake");
    let d = get_recv_denom("transfer", "channel-0", "transfer", "channel-1", "transfer/channel-0/transfer/channel-5/uatom");
    assert_eq!(d, "transfer/channel-5/uatom");
}

#[test]
fn trimming_removes_every_leading_repetition() {
    assert_eq!(trim_start_matches("aaab", "a"), "b");
    assert_eq!(trim_start_matches("xyz", "a"), "xyz");
}

#[test]
fn destination_callback_handles_transfer_packets_only() {
    assert_eq!(check_transfer_port("transfer"), Ok(()));
    assert_eq!(
        check_transfer_port("icahost"),
        Err(ContractError::Std(StdError::generic_err("only want to handle transfer packets")))
    );
}

#[test]
fn destination_callback_coin_reads_its_amount_from_the_denom() {
    let c = destination_callback_coin("transfer", "channel-0", "transfer", "channel-1", "transfer/channel-0/123");
    assert_eq!(c, Ok(Coin { denom: "123".to_string(), amount: 123 }));
    let c = destination_callback_coin("transfer", "channel-0", "transfer", "channel-1", "transfer/channel-0/uatom");
    match c {
        Err(ContractError::Std(StdError::GenericErr { msg })) => assert!(msg.starts_with("Parsing u128: ")),
        other => panic!("unexpected {:?}", other),
    }
}

#[test]
fn ack_ids() {
    assert_eq!(get_ack_id(&Some("channel-1".to_string()), Some(4)), Ok(("channel-1".to_string(), 4)));
    assert_eq!(get_ack_id(&None, Some(4)), Err(ContractError::ChannelIDNotFound));
    assert_eq!(get_ack_id(&Some("channel-1".to_string()), None), Err(ContractError::SequenceNotFound));
}

#[test]
fn source_callbacks() {
    let ok = ibc_source_callback(Some(b"{\"result\":\"AQ==\"}".to_vec()), "channel-0".to_string(), 3);
    assert_eq!(ok, SourceCallbackAction::Forget { channel: "channel-0".to_string(), sequence: 3 });
    let on_chain = ibc_source_callback(Some(b"\n\x11{\"result\":\"AQ==\"}".to_vec()), "channel-0".to_string(), 3);
    assert_eq!(on_chain, SourceCallbackAction::Forget { channel: "channel-0".to_string(), sequence: 3 });
    let err = ibc_source_callback(Some(b"{\"error\":\"denied\"}".to_vec()), "channel-0".to_string(), 3);
    assert_eq!(
        err,
        SourceCallbackAction::Refund { channel: "channel-0".to_string(), sequence: 3, reason: SourceCallbackType::Error }
    );
    let timeout = ibc_source_callback(None, "channel-0".to_string(), 3);
    assert_eq!(
        timeout,
        SourceCallbackAction::Refund { channel: "channel-0".to_string(), sequence: 3, reason: SourceCallbackType::Timeout }
    );
}

#[test]
fn neutron_transfers_need_fees() {
    assert_eq!(require_ibc_fee::<u8>(None), Err(ContractError::IbcFeesRequired));
    assert_eq!(require_ibc_fee(Some(7u8)), Ok(7));
}

#[test]
fn ics20_send_packet() {
    let timeout = IbcTimeout { block: None, timestamp_nanos: Some(42) };
    let p = build_ibc_send_packet(10, "transfer/channel-0/uatom", "secret1a", "cosmos1b", None, "channel-3", timeout.clone());
    assert_eq!(p.channel_id, "channel-3");
    assert_eq!(p.packet.amount, 10);
    assert_eq!(p.packet.denom, "transfer/channel-0/uatom");
    assert_eq!(p.packet.sender, "secret1a");
    assert_eq!(p.packet.receiver, "cosmos1b");
    assert_eq!(p.timeout, timeout);
}

#[test]
fn hyperlane_transfer() {
    let funds = vec![Coin { denom: "untrn".to_string(), amount: 50 }];
    let t = execute_hpl_transfer("entry", "entry", &funds, 1, vec![1, 2], None, None, "warp".to_string()).unwrap();
    assert_eq!(t.amount, 50);
    assert_eq!(t.funds, Coin { denom: "untrn".to_string(), amount: 50 });
    assert_eq!(t.warp_address, "warp");
    assert_eq!(
        execute_hpl_transfer("other", "entry", &funds, 1, vec![], None, None, "warp".to_string()),
        Err(ContractError::Unauthorized)
    );
    assert_eq!(
        execute_hpl_transfer("entry", "entry", &vec![], 1, vec![], None, None, "warp".to_string()),
        Err(ContractError::Payment(PaymentError::NoFunds))
    );
}

#[test]
fn orai_bridge_transfers() {
    let native = Asset::Native(Coin { denom: "orai".to_string(), amount: 5 });
    let token = Asset::Cw20(Cw20Coin { address: "orai1token".to_string(), amount: 6 });
    assert_eq!(check_native_fund(&vec![Coin { denom: "orai".to_string(), amount: 5 }], &native), Ok(()));
    assert_eq!(
        check_native_fund(&vec![Coin { denom: "orai".to_string(), amount: 4 }], &native),
        Err(ContractError::InvalidFund)
    );
    assert_eq!(check_cw20_fund("orai1token", 6, &token), Ok(()));
    assert_eq!(check_cw20_fund("orai1other", 6, &token), Err(ContractError::InvalidFund));
    assert_eq!(
        execute_ibc_wasm_transfer("entry", "entry", &token),
        Ok(BridgeTransfer::Cw20 { token: "orai1token".to_string(), amount: 6 })
    );
    assert_eq!(execute_ibc_wasm_transfer("x", "entry", &native), Err(ContractError::Unauthorized));
}

fn generic(msg: &str) -> ContractError {
    ContractError::Std(StdError::GenericErr { msg: msg.to_string() })
}

#[test]
fn memo_gets_the_source_callback() {
    assert_eq!(
        verify_and_create_memo("", "ibc_transfer"),
        Ok(r#"{"src_callback":{"address":"ibc_transfer"}}"#.to_string())
    );
    assert_eq!(
        verify_and_create_memo(r#"{"src_callback":{"address":"random"}}"#, "ibc_transfer"),
        Ok(r#"{"src_callback":{"address":"ibc_transfer"}}"#.to_string())
    );
    assert_eq!(
        verify_and_create_memo(r#"{"pfm":"example_value","wasm":"example_contract"}"#, "ibc_transfer"),
        Ok(r#"{"pfm":"example_value","src_callback":{"address":"ibc_transfer"},"wasm":"example_contract"}"#.to_string())
    );
}

#[test]
fn memo_must_be_a_json_object() {
    assert_eq!(
        verify_and_create_memo("{invalid}", "ibc_transfer"),
        Err(generic("Error parsing memo: Object key is not a string."))
    );
    assert_eq!(verify_and_create_memo("[1]", "ibc_transfer"), Err(generic("Invalid memo")));
    assert_eq!(verify_and_create_memo("7", "ibc_transfer"), Err(generic("Invalid memo")));
}

#[test]
fn transfer_requests_pay_no_fees_and_name_evm_receivers() {
    let abi = Some("application/x-solidity-abi".to_string());
    let paid = Some(IbcFee { recv_fee: vec![Coin { denom: "atom".to_string(), amount: 100 }], ack_fee: vec![], timeout_fee: vec![] });
    assert_eq!(check_transfer_request(&paid, "receiver", &None), Err(ContractError::IbcFeesNotSupported));
    let empty = Some(IbcFee { recv_fee: vec![], ack_fee: vec![], timeout_fee: vec![] });
    assert_eq!(check_transfer_request(&empty, "receiver", &None), Ok(()));
    assert_eq!(check_transfer_request(&None, "receiver", &None), Ok(()));
    assert_eq!(
        check_transfer_request(&None, "cosmos1zhqrfu9w3sugwykef3rq8t0vlxkz72vw9pzsvv", &abi),
        Err(ContractError::InvalidEvmAddress)
    );
    assert_eq!(check_transfer_request(&None, "0x24a9267cE9e0a8F4467B584FDDa12baf1Df772B5", &abi), Ok(()));
    assert_eq!(check_transfer_request(&None, "0x24a9267cE9e0a8F4467B584FDDa12baf1Df772BZ", &abi), Err(ContractError::InvalidEvmAddress));
    assert_eq!(check_transfer_request(&None, "cosmos1zhqrfu9w3sugwykef3rq8t0vlxkz72vw9pzsvv", &None), Ok(()));
}

#[test]
fn memo_keeps_nested_values_and_sorts_keys() {
    assert_eq!(
        verify_and_create_memo(r#"{"wasm":{"contract":"x","msg":{"a":[1,-2,true,null,"s"]}},"b":"c"}"#, "ibc"),
        Ok(r#"{"b":"c","src_callback":{"address":"ibc"},"wasm":{"contract":"x","msg":{"a":[1,-2,true,null,"s"]}}}"#.to_string())
    );
    assert_eq!(verify_and_create_memo("null", "ibc"), Err(generic("Invalid memo")));
}
