use token_bridge::bridge::BridgeInstance;
use token_bridge::types::BridgeError;
use token_bridge::types::Bytes32;
use token_bridge::types::Pubkey;

fn addr(tag: u8) -> Bytes32 {
    Bytes32 { byte: [tag; 32] }
}

fn key(tag: u8) -> Pubkey {
    Pubkey { byte: [tag; 32] }
}

/// An instance with fee_send = 100 bps (1%), fee_fulfill = 200 bps (2%),
/// limit_send = 1_000_000, one enabled chain with the given rate.
fn bridge_with_chain(rate: u64) -> (BridgeInstance, Bytes32) {
    let mut b = BridgeInstance::initialize(100, 200, 1_000_000, key(9), false).unwrap();
    let chain = addr(1);
    b.set_chain_data(chain, true, rate).unwrap();
    (b, chain)
}

#[test]
fn initialize_rejects_send_fee_at_limit() {
    let r = BridgeInstance::initialize(10_000, 0, 1_000, key(9), false);
    assert_eq!(r.err(), Some(BridgeError::SendFeeTooHigh));
}

#[test]
fn initialize_rejects_fulfill_fee_at_limit() {
    let r = BridgeInstance::initialize(9_999, 10_000, 1_000, key(9), false);
    assert_eq!(r.err(), Some(BridgeError::FulfillFeeTooHigh));
}

#[test]
fn initialize_accepts_fees_below_limit() {
    let b = BridgeInstance::initialize(9_999, 9_999, 1_000, key(9), true).unwrap();
    let p = b.get_params();
    assert_eq!(p.fee_send, 9_999);
    assert_eq!(p.fee_fulfill, 9_999);
    assert_eq!(p.limit_send, 1_000);
    assert_eq!(p.fee_recipient, key(9));
    assert!(p.paused);
}

#[test]
fn set_params_overwrites_in_place() {
    let mut b = BridgeInstance::initialize(100, 200, 1_000, key(9), false).unwrap();
    b.set_params(300, 400, 2_000, key(8), true).unwrap();
    let p = b.get_params();
    assert_eq!(p.fee_send, 300);
    assert_eq!(p.fee_fulfill, 400);
    assert_eq!(p.limit_send, 2_000);
    assert_eq!(p.fee_recipient, key(8));
    assert!(p.paused);
}

#[test]
fn set_params_rejection_changes_nothing() {
    let mut b = BridgeInstance::initialize(100, 200, 1_000, key(9), false).unwrap();
    let r = b.set_params(10_000, 0, 2_000, key(8), true);
    assert_eq!(r.err(), Some(BridgeError::SendFeeTooHigh));
    let p = b.get_params();
    assert_eq!(p.fee_send, 100);
    assert_eq!(p.limit_send, 1_000);
    assert!(!p.paused);
}

#[test]
fn set_chain_data_rejects_zero_rate_and_leaves_registry_unchanged() {
    let mut b = BridgeInstance::initialize(100, 200, 1_000, key(9), false).unwrap();
    let chain = addr(1);
    // never configured: rejection leaves it absent
    let r = b.set_chain_data(chain, true, 0);
    assert_eq!(r.err(), Some(BridgeError::ExchangeRateZero));
    assert!(b.get_chain_data(&chain).is_none());
    // configured, then a rejected update: the prior entry survives
    b.set_chain_data(chain, true, 5).unwrap();
    let r = b.set_chain_data(chain, false, 0);
    assert_eq!(r.err(), Some(BridgeError::ExchangeRateZero));
    let d = b.get_chain_data(&chain).unwrap();
    assert!(d.enabled);
    assert_eq!(d.exchange_rate_from, 5);
}

#[test]
fn set_chain_data_updates_existing_entry() {
    let (mut b, chain) = bridge_with_chain(1);
    b.set_chain_data(chain, false, 7).unwrap();
    let d = b.get_chain_data(&chain).unwrap();
    assert!(!d.enabled);
    assert_eq!(d.exchange_rate_from, 7);
}

#[test]
fn send_scenario_one_percent_fee() {
    // fee_send = 100 bps (1%), limit 1_000_000, rate 1, chain enabled
    let (mut b, chain) = bridge_with_chain(1);
    let user = key(2);
    assert_eq!(b.get_nonce(&user), 0);
    let o = b.send(user, 500_000, addr(3), chain, 77, 55).unwrap();
    assert_eq!(o.converted, 500_000);
    assert_eq!(o.fee, 5_000);
    assert_eq!(o.amount_taxed, 495_000);
    assert_eq!(o.nonce, 0);
    assert_eq!(b.get_nonce(&user), 1);
    let tx = b.get_send_tx(&user, 0).unwrap();
    assert_eq!(tx.amount, 495_000);
    assert_eq!(tx.nonce, 0);
    assert_eq!(tx.initiator, user);
    assert_eq!(tx.to, addr(3));
    assert_eq!(tx.to_chain, chain);
    assert_eq!(tx.timestamp, 77);
    assert_eq!(tx.block, 55);
}

#[test]
fn send_over_limit_fails_and_leaves_no_trace() {
    let (mut b, chain) = bridge_with_chain(1);
    let user = key(2);
    let r = b.send(user, 1_500_000, addr(3), chain, 0, 0);
    assert_eq!(r.err(), Some(BridgeError::SendLimitExceeded));
    assert_eq!(b.get_nonce(&user), 0);
    assert!(b.get_send_tx(&user, 0).is_none());
}

#[test]
fn send_nonces_count_up_without_gaps() {
    let (mut b, chain) = bridge_with_chain(1);
    let user = key(2);
    for expected in 0..3u64 {
        let o = b.send(user, 20_000, addr(3), chain, 0, 0).unwrap();
        assert_eq!(o.nonce, expected);
    }
    assert_eq!(b.get_nonce(&user), 3);
    // each nonce got its record, exactly once
    for n in 0..3u64 {
        assert_eq!(b.get_send_tx(&user, n).unwrap().nonce, n);
    }
    assert!(b.get_send_tx(&user, 3).is_none());
    // another user's sequencer is independent
    let other = key(4);
    assert_eq!(b.get_nonce(&other), 0);
    let o = b.send(other, 20_000, addr(3), chain, 0, 0).unwrap();
    assert_eq!(o.nonce, 0);
}

#[test]
fn send_conserves_value_across_the_fee_split() {
    // rate 100: amounts move at home scale, the record at remote scale
    let (mut b, chain) = bridge_with_chain(100);
    let user = key(2);
    let o = b.send(user, 1_000_000, addr(3), chain, 0, 0).unwrap();
    assert_eq!(o.converted, 10_000);
    assert_eq!(o.fee, 100); // 1% of 10_000
    assert_eq!(o.amount_taxed, 9_900);
    assert_eq!(o.deposit, 990_000);
    assert_eq!(o.fee_deposit, 10_000);
    assert_eq!(o.deposit + o.fee_deposit, 1_000_000);
    assert_eq!(o.amount_taxed + o.fee, o.converted);
}

#[test]
fn send_uneven_amount_fails() {
    let (mut b, chain) = bridge_with_chain(100);
    let r = b.send(key(2), 999_950, addr(3), chain, 0, 0);
    assert_eq!(r.err(), Some(BridgeError::AmountUneven));
}

#[test]
fn send_converted_below_max_fee_fails() {
    // converted = 9_900 < 10_000: too small to guarantee a non-zero fee
    let (mut b, chain) = bridge_with_chain(100);
    let r = b.send(key(2), 990_000, addr(3), chain, 0, 0);
    assert_eq!(r.err(), Some(BridgeError::AmountTooLow));
}

#[test]
fn send_to_disabled_or_unknown_chain_fails() {
    let (mut b, chain) = bridge_with_chain(1);
    let r = b.send(key(2), 20_000, addr(3), addr(6), 0, 0);
    assert_eq!(r.err(), Some(BridgeError::ChainDisabled));
    b.set_chain_data(chain, false, 1).unwrap();
    let r = b.send(key(2), 20_000, addr(3), chain, 0, 0);
    assert_eq!(r.err(), Some(BridgeError::ChainDisabled));
}

#[test]
fn send_with_zero_fee_rate_charges_nothing() {
    let mut b = BridgeInstance::initialize(0, 0, 1_000_000, key(9), false).unwrap();
    let chain = addr(1);
    b.set_chain_data(chain, true, 1).unwrap();
    let o = b.send(key(2), 50_000, addr(3), chain, 0, 0).unwrap();
    assert_eq!(o.fee, 0);
    assert_eq!(o.fee_deposit, 0);
    assert_eq!(o.amount_taxed, 50_000);
    assert_eq!(o.deposit, 50_000);
}

#[test]
fn fulfill_scenario_and_double_spend_exclusion() {
    let (mut b, chain) = bridge_with_chain(1);
    let o = b.fulfill(chain, 7, 10_000).unwrap();
    assert_eq!(o.converted, 10_000);
    assert_eq!(o.fee, 200); // 2% of 10_000
    assert_eq!(o.amount_taxed, 9_800);
    assert!(b.is_fulfilled(&chain, 7));
    // a second fulfillment of remote nonce 7, whatever its amount, fails
    let r = b.fulfill(chain, 7, 123_456);
    assert_eq!(r.err(), Some(BridgeError::DuplicateFulfillment));
    // remote nonce 8 is independent
    let o = b.fulfill(chain, 8, 10_000).unwrap();
    assert_eq!(o.amount_taxed, 9_800);
    assert!(b.is_fulfilled(&chain, 8));
}

#[test]
fn fulfill_conserves_value_across_the_fee_split() {
    // rate 1000: inbound conversion multiplies
    let (mut b, chain) = bridge_with_chain(1_000);
    let o = b.fulfill(chain, 1, 500).unwrap();
    assert_eq!(o.converted, 500_000);
    assert_eq!(o.fee, 10_000);
    assert_eq!(o.amount_taxed, 490_000);
    assert_eq!(o.amount_taxed + o.fee, o.converted);
}

#[test]
fn fulfill_zero_payout_fails() {
    let (mut b, chain) = bridge_with_chain(1);
    let r = b.fulfill(chain, 1, 0);
    assert_eq!(r.err(), Some(BridgeError::AmountTooLow));
    // the guard was not claimed by the failed call
    assert!(!b.is_fulfilled(&chain, 1));
    let o = b.fulfill(chain, 1, 10_000).unwrap();
    assert_eq!(o.amount_taxed, 9_800);
}

#[test]
fn fulfill_from_disabled_or_unknown_chain_fails() {
    let (mut b, chain) = bridge_with_chain(1);
    let r = b.fulfill(addr(6), 1, 10_000);
    assert_eq!(r.err(), Some(BridgeError::ChainDisabled));
    b.set_chain_data(chain, false, 1).unwrap();
    let r = b.fulfill(chain, 1, 10_000);
    assert_eq!(r.err(), Some(BridgeError::ChainDisabled));
}

#[test]
fn pause_blocks_send_and_fulfill_but_not_admin_calls() {
    let (mut b, chain) = bridge_with_chain(1);
    b.set_params(100, 200, 1_000_000, key(9), true).unwrap();
    let r = b.send(key(2), 20_000, addr(3), chain, 0, 0);
    assert_eq!(r.err(), Some(BridgeError::BridgePaused));
    let r = b.fulfill(chain, 1, 10_000);
    assert_eq!(r.err(), Some(BridgeError::BridgePaused));
    // administrative operations are unaffected by pause
    b.set_chain_data(addr(6), true, 2).unwrap();
    assert_eq!(b.withdraw(5).unwrap(), 5);
    // set_params with paused = false reopens the bridge
    b.set_params(100, 200, 1_000_000, key(9), false).unwrap();
    let o = b.send(key(2), 20_000, addr(3), chain, 0, 0).unwrap();
    assert_eq!(o.nonce, 0);
    let o = b.fulfill(chain, 1, 10_000).unwrap();
    assert_eq!(o.amount_taxed, 9_800);
}

#[test]
fn withdraw_moves_the_entire_balance_or_nothing() {
    let b = BridgeInstance::initialize(100, 200, 1_000, key(9), false).unwrap();
    assert_eq!(b.withdraw(0).err(), Some(BridgeError::WithdrawZero));
    assert_eq!(b.withdraw(123_456).unwrap(), 123_456);
}
