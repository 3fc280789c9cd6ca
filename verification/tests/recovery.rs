use skip_go_adapters::asset::Coin;
use skip_go_adapters::error::{ContractError, StdError};
use skip_go_adapters::ibc::{SourceCallbackAction, SourceCallbackType};
use skip_go_adapters::recovery::{reply_data, AckEntry, RecoveryStore, Refund};

fn coin(denom: &str, amount: u128) -> Coin {
    Coin { denom: denom.to_string(), amount }
}

fn store_with_transfer(channel: &str, sequence: u64, recover: &str) -> RecoveryStore {
    let mut s = RecoveryStore::new();
    s.save_in_progress_recover_address(recover.to_string());
    s.save_in_progress_channel_id(channel.to_string());
    assert_eq!(s.register_reply(sequence), Ok(()));
    s
}

#[test]
fn reply_registers_the_transfer_being_sent() {
    let s = store_with_transfer("channel-0", 5, "osmo1recover");
    assert!(s.has(&"channel-0".to_string(), 5));
    assert_eq!(s.recover_address(&"channel-0".to_string(), 5), Ok("osmo1recover".to_string()));
    assert_eq!(
        s.recover_address(&"channel-0".to_string(), 6),
        Err(ContractError::Std(StdError::NotFound))
    );
}

#[test]
fn reply_without_transfer_in_progress_fails() {
    let mut s = RecoveryStore::new();
    assert_eq!(s.register_reply(1), Err(ContractError::Std(StdError::NotFound)));
    s.save_in_progress_recover_address("osmo1recover".to_string());
    assert_eq!(s.register_reply(1), Err(ContractError::Std(StdError::NotFound)));
    assert!(!s.has(&"channel-0".to_string(), 1));
}

#[test]
fn reply_for_a_registered_sequence_fails() {
    let mut s = store_with_transfer("channel-0", 5, "osmo1first");
    s.save_in_progress_recover_address("osmo1second".to_string());
    s.save_in_progress_channel_id("channel-0".to_string());
    assert_eq!(
        s.register_reply(5),
        Err(ContractError::AckIDAlreadyExists { channel_id: "channel-0".to_string(), sequence_id: 5 })
    );
    assert_eq!(s.recover_address(&"channel-0".to_string(), 5), Ok("osmo1first".to_string()));
}

#[test]
fn error_acknowledgement_refunds_the_recovery_address() {
    let mut s = store_with_transfer("channel-0", 5, "osmo1recover");
    let balances = vec![coin("uosmo", 100), coin("uatom", 3)];
    let r = s.sudo(&Some("channel-0".to_string()), Some(5), balances.clone());
    assert_eq!(r, Ok(Refund { to_address: "osmo1recover".to_string(), amount: balances }));
    assert!(!s.has(&"channel-0".to_string(), 5));
}

#[test]
fn sudo_errors() {
    let mut s = store_with_transfer("channel-0", 5, "osmo1recover");
    assert_eq!(s.sudo(&None, Some(5), vec![coin("uosmo", 1)]), Err(ContractError::ChannelIDNotFound));
    assert_eq!(s.sudo(&Some("channel-0".to_string()), None, vec![coin("uosmo", 1)]), Err(ContractError::SequenceNotFound));
    assert_eq!(
        s.sudo(&Some("channel-1".to_string()), Some(5), vec![coin("uosmo", 1)]),
        Err(ContractError::Std(StdError::NotFound))
    );
    assert_eq!(s.sudo(&Some("channel-0".to_string()), Some(5), vec![]), Err(ContractError::NoFundsToRefund));
    assert!(s.has(&"channel-0".to_string(), 5));
}

#[test]
fn neutron_reply_names_the_channel() {
    let mut s = RecoveryStore::new();
    s.save_in_progress_recover_address("neutron1recover".to_string());
    assert_eq!(s.register_reply_on_channel("channel-9".to_string(), 7), Ok(()));
    assert_eq!(s.take_recover_address(&"channel-9".to_string(), 7), Ok("neutron1recover".to_string()));
    assert_eq!(s.take_recover_address(&"channel-9".to_string(), 7), Err(ContractError::Std(StdError::NotFound)));
    assert_eq!(s.register_reply_on_channel("channel-9".to_string(), 8), Err(ContractError::Std(StdError::NotFound)));
}

#[test]
fn successful_acknowledgement_forgets_without_refund() {
    let mut s = store_with_transfer("channel-0", 5, "osmo1recover");
    let action = SourceCallbackAction::Forget { channel: "channel-0".to_string(), sequence: 5 };
    assert_eq!(s.source_callback(action, vec![coin("uosmo", 1)]), Ok(None));
    assert!(!s.has(&"channel-0".to_string(), 5));
}

#[test]
fn timeout_callback_refunds() {
    let mut s = store_with_transfer("channel-0", 5, "osmo1recover");
    let action = SourceCallbackAction::Refund {
        channel: "channel-0".to_string(),
        sequence: 5,
        reason: SourceCallbackType::Timeout,
    };
    let r = s.source_callback(action, vec![coin("uosmo", 9)]);
    assert_eq!(r, Ok(Some(Refund { to_address: "osmo1recover".to_string(), amount: vec![coin("uosmo", 9)] })));
}

#[test]
fn other_transfers_survive_a_refund() {
    let mut s = store_with_transfer("channel-0", 5, "osmo1a");
    s.save_in_progress_recover_address("osmo1b".to_string());
    s.save_in_progress_channel_id("channel-0".to_string());
    assert_eq!(s.register_reply(6), Ok(()));
    s.forget(&"channel-0".to_string(), 5);
    assert_eq!(s.recover_address(&"channel-0".to_string(), 6), Ok("osmo1b".to_string()));
}

#[test]
fn reply_needs_data() {
    assert_eq!(reply_data(None), Err(ContractError::MissingResponseData));
    assert_eq!(reply_data(Some(vec![8, 3])), Ok(vec![8, 3]));
}

#[test]
fn store_round_trips_through_its_parts() {
    let s = store_with_transfer("channel-0", 5, "osmo1recover");
    let (a, c, entries) = s.into_parts();
    assert_eq!(a, None);
    assert_eq!(c, None);
    assert_eq!(entries.len(), 1);
    let s = RecoveryStore::from_parts(a, c, entries).unwrap();
    assert_eq!(s.recover_address(&"channel-0".to_string(), 5), Ok("osmo1recover".to_string()));
    let dup = vec![
        AckEntry { channel_id: "c".to_string(), sequence: 1, recover_address: "a".to_string() },
        AckEntry { channel_id: "c".to_string(), sequence: 1, recover_address: "b".to_string() },
    ];
    assert!(RecoveryStore::from_parts(None, None, dup).is_none());
}

#[test]
fn transfers_begin_for_the_entry_point_only() {
    let mut s = RecoveryStore::new();
    assert_eq!(
        s.begin_transfer("other", "entry", "osmo1r".to_string(), "channel-2".to_string()),
        Err(ContractError::Unauthorized)
    );
    assert_eq!(s.register_reply(1), Err(ContractError::Std(StdError::NotFound)));
    assert_eq!(s.begin_transfer("entry", "entry", "osmo1r".to_string(), "channel-2".to_string()), Ok(()));
    assert_eq!(s.register_reply(1), Ok(()));
    assert_eq!(s.recover_address(&"channel-2".to_string(), 1), Ok("osmo1r".to_string()));
}

#[test]
fn neutron_transfers_need_fees_and_keep_the_recovery_address() {
    let mut s = RecoveryStore::new();
    assert_eq!(
        s.begin_fee_paid_transfer::<u8>("entry", "entry", None, "neutron1r".to_string()),
        Err(ContractError::IbcFeesRequired)
    );
    assert_eq!(s.register_reply_on_channel("channel-1".to_string(), 3), Err(ContractError::Std(StdError::NotFound)));
    assert_eq!(s.begin_fee_paid_transfer("entry", "entry", Some(5u8), "neutron1r".to_string()), Ok(5));
    assert_eq!(s.register_reply_on_channel("channel-1".to_string(), 3), Ok(()));
    let r = s.sudo(&Some("channel-1".to_string()), Some(3), vec![coin("untrn", 2)]);
    assert_eq!(r, Ok(Refund { to_address: "neutron1r".to_string(), amount: vec![coin("untrn", 2)] }));
}

#[test]
fn a_transfer_is_refunded_once() {
    let mut s = store_with_transfer("channel-0", 5, "osmo1first");
    s.save_in_progress_recover_address("osmo1second".to_string());
    s.save_in_progress_channel_id("channel-0".to_string());
    assert_eq!(s.register_reply(6), Ok(()));
    let balances = vec![coin("uosmo", 10)];
    assert_eq!(
        s.sudo(&Some("channel-0".to_string()), Some(5), balances.clone()),
        Ok(Refund { to_address: "osmo1first".to_string(), amount: balances.clone() })
    );
    assert_eq!(
        s.sudo(&Some("channel-0".to_string()), Some(5), balances.clone()),
        Err(ContractError::Std(StdError::NotFound))
    );
    assert_eq!(
        s.sudo(&Some("channel-0".to_string()), Some(6), balances.clone()),
        Ok(Refund { to_address: "osmo1second".to_string(), amount: balances })
    );
}
