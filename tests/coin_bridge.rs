use we_bridge::binding::Binding;
use we_bridge::calls::{Payment, RecipientKind};
use we_bridge::coin_bridge::CoinBridge;
use we_bridge::error::BridgeError;

fn account(net: u8, fill: u8) -> Vec<u8> {
    let mut a = vec![1u8, net];
    a.extend(std::iter::repeat(fill).take(24));
    a
}

fn program(fill: u8) -> Vec<u8> {
    vec![fill; 32]
}

fn new_bridge() -> CoinBridge {
    CoinBridge::new(
        false,
        b"this-tx".to_vec(),
        program(1),
        program(2),
        program(3),
        account(84, 4),
        b"fee-recipient".to_vec(),
        7,
        b"relay-config".to_vec(),
    )
    .unwrap()
}

fn usdt_record() -> Vec<u8> {
    b"USDT__100__1__1000__1000__2000__1".to_vec()
}

fn native(amount: i64) -> Vec<Payment> {
    vec![Payment { asset_id: Vec::new(), amount }]
}

#[test]
fn constructor_starts_empty_and_running() {
    let b = new_bridge();
    assert!(!b.governance.paused);
    assert_eq!(b.balance, 0);
    assert_eq!(b.fee, 0);
    assert_eq!(b.fee_chain, 7);
    assert_eq!(b.root_adapter, program(3));
    assert_eq!(b.governance.this, b"this-tx".to_vec());
}

#[test]
fn constructor_refusals() {
    let make = |init: bool, ms: Vec<u8>, ex: Vec<u8>, ad: Vec<u8>, pa: Vec<u8>, fr: &[u8], fc: i64, cc: &[u8]| {
        CoinBridge::new(init, b"t".to_vec(), ms, ex, ad, pa, fr.to_vec(), fc, cc.to_vec()).err()
    };
    assert_eq!(make(true, program(1), program(2), program(3), account(86, 4), b"r", 1, b"c"), Some(BridgeError::AlreadyInitialized));
    assert_eq!(make(false, vec![1; 31], program(2), program(3), account(86, 4), b"r", 1, b"c"), Some(BridgeError::InvalidMultisig));
    assert_eq!(make(false, program(1), vec![2; 26], program(3), account(86, 4), b"r", 1, b"c"), Some(BridgeError::InvalidExecutor));
    assert_eq!(make(false, program(1), program(2), vec![], account(86, 4), b"r", 1, b"c"), Some(BridgeError::InvalidAdapter));
    assert_eq!(make(false, program(1), program(2), program(3), account(85, 4), b"r", 1, b"c"), Some(BridgeError::InvalidPauser));
    assert_eq!(make(false, program(1), program(2), program(3), account(86, 4), b"", 1, b"c"), Some(BridgeError::InvalidFeeRecipient));
    assert_eq!(make(false, program(1), program(2), program(3), account(86, 4), b"r", 0, b"c"), Some(BridgeError::InvalidFeeChain));
    assert_eq!(make(false, program(1), program(2), program(3), account(86, 4), b"r", 1, b""), Some(BridgeError::InvalidCallerContract));
    assert_eq!(make(false, program(1), program(2), program(3), account(86, 4), b"r", 1, b"c"), None);
}

#[test]
fn lock_scenario_chain_five() {
    let mut b = new_bridge();
    let m = b
        .lock_tokens(5, b"dest".to_vec(), Vec::new(), 0, &native(2000), Some(true), Some(usdt_record()), None)
        .unwrap();
    assert_eq!(m.root_adapter, program(3));
    assert_eq!(m.call.execution_chain_id, 5);
    assert_eq!(m.call.execution_asset, b"USDT".to_vec());
    assert_eq!(m.call.amount, 1995 / 100);
    assert_eq!(m.call.recipient, b"dest".to_vec());
    assert_eq!(m.call.gasless_reward, 0);
    assert_eq!(m.call.referrer, Vec::<u8>::new());
    assert_eq!(m.call.referrer_fee, 0);
    assert_eq!(b.balance, 1995);
    assert_eq!(b.fee, 5);
}

#[test]
fn lock_with_referrer_and_gasless() {
    let mut b = new_bridge();
    let m = b
        .lock_tokens(5, b"dest".to_vec(), b"ref".to_vec(), 500_000, &native(10_000_000), Some(true), Some(usdt_record()), Some(200_000))
        .unwrap();
    assert_eq!(m.call.amount, 99_799);
    assert_eq!(m.call.gasless_reward, 5_000);
    assert_eq!(m.call.referrer, b"ref".to_vec());
    assert_eq!(m.call.referrer_fee, 40);
    assert_eq!(b.balance, 9_979_999 + 4_000);
    assert_eq!(b.fee, 20_001 - 4_000);
}

#[test]
fn lock_stored_share_ignored_without_referrer() {
    let mut b = new_bridge();
    let m = b
        .lock_tokens(5, b"dest".to_vec(), Vec::new(), 0, &native(10_000_000), Some(true), Some(usdt_record()), Some(200_000))
        .unwrap();
    assert_eq!(m.call.referrer_fee, 0);
    assert_eq!(b.fee, 20_001);
}

#[test]
fn lock_below_minimum_changes_nothing() {
    let mut b = new_bridge();
    let before = b.clone();
    let r = b.lock_tokens(5, b"dest".to_vec(), Vec::new(), 0, &native(50), Some(true), Some(usdt_record()), None);
    assert_eq!(r.err(), Some(BridgeError::BelowMinimum));
    assert_eq!(b.balance, before.balance);
    assert_eq!(b.fee, before.fee);
}

#[test]
fn lock_refusals() {
    let rec = || Some(usdt_record());
    let mut b = new_bridge();
    assert_eq!(b.lock_tokens(5, Vec::new(), Vec::new(), 0, &native(2000), Some(true), rec(), None).err(), Some(BridgeError::InvalidRecipient));
    assert_eq!(b.lock_tokens(5, b"d".to_vec(), Vec::new(), -1, &native(2000), Some(true), rec(), None).err(), Some(BridgeError::InvalidGaslessReward));
    assert_eq!(b.lock_tokens(5, b"d".to_vec(), Vec::new(), 0, &native(2000), None, rec(), None).err(), Some(BridgeError::ChainDisabled));
    assert_eq!(b.lock_tokens(5, b"d".to_vec(), Vec::new(), 0, &native(2000), Some(false), rec(), None).err(), Some(BridgeError::ChainDisabled));
    assert_eq!(b.lock_tokens(5, b"d".to_vec(), Vec::new(), 0, &[], Some(true), rec(), None).err(), Some(BridgeError::NoPayment));
    let two = vec![Payment { asset_id: Vec::new(), amount: 1000 }, Payment { asset_id: Vec::new(), amount: 1000 }];
    assert_eq!(b.lock_tokens(5, b"d".to_vec(), Vec::new(), 0, &two, Some(true), rec(), None).err(), Some(BridgeError::NoPayment));
    let token = vec![Payment { asset_id: vec![9; 32], amount: 2000 }];
    assert_eq!(b.lock_tokens(5, b"d".to_vec(), Vec::new(), 0, &token, Some(true), rec(), None).err(), Some(BridgeError::PaymentNotNative));
    assert_eq!(b.lock_tokens(5, b"d".to_vec(), Vec::new(), 0, &native(0), Some(true), rec(), None).err(), Some(BridgeError::InvalidAmount));
    assert_eq!(b.lock_tokens(5, b"d".to_vec(), Vec::new(), 0, &native(2000), Some(true), None, None).err(), Some(BridgeError::NoBinding));
    assert_eq!(b.lock_tokens(5, b"d".to_vec(), Vec::new(), 0, &native(2000), Some(true), Some(b"USDT__1".to_vec()), None).err(), Some(BridgeError::MalformedBinding));
    assert_eq!(b.lock_tokens(5, b"d".to_vec(), Vec::new(), 0, &native(2000), Some(true), Some(b"__100__1__1000__1000__2000__1".to_vec()), None).err(), Some(BridgeError::InvalidBinding));
    assert_eq!(b.lock_tokens(5, b"d".to_vec(), Vec::new(), 0, &native(2000), Some(true), Some(b"USDT__100__1__1000__1000__2000__0".to_vec()), None).err(), Some(BridgeError::BindingDisabled));
    assert_eq!(b.lock_tokens(5, b"d".to_vec(), b"r".to_vec(), 0, &native(2000), Some(true), rec(), Some(300_000)).err(), Some(BridgeError::InvalidReferrerFee));
    assert_eq!(b.lock_tokens(5, b"d".to_vec(), Vec::new(), 1995, &native(2000), Some(true), rec(), None).err(), Some(BridgeError::AmountBelowGaslessReward));
    b.governance.paused = true;
    assert_eq!(b.lock_tokens(5, b"d".to_vec(), Vec::new(), 0, &native(2000), Some(true), rec(), None).err(), Some(BridgeError::Paused));
    assert_eq!(b.balance, 0);
    assert_eq!(b.fee, 0);
}

#[test]
fn lock_overflow_is_refused() {
    let mut b = new_bridge();
    b.balance = i64::MAX - 10;
    let r = b.lock_tokens(5, b"d".to_vec(), Vec::new(), 0, &native(2000), Some(true), Some(usdt_record()), None);
    assert_eq!(r.err(), Some(BridgeError::Overflow));
    assert_eq!(b.balance, i64::MAX - 10);
}

fn funded_bridge(balance: i64) -> CoinBridge {
    let mut b = new_bridge();
    b.balance = balance;
    b
}

#[test]
fn release_single_transfer() {
    let mut b = funded_bridge(1_000_000);
    let r = account(86, 9);
    let t = b.release_tokens(b"relay-config", &r, b"1500", b"0", &account(86, 8), &program(2)).unwrap();
    assert_eq!(t.len(), 1);
    assert_eq!(t[0].kind, RecipientKind::Account);
    assert_eq!(t[0].recipient, r);
    assert_eq!(t[0].amount, 150_000);
    assert_eq!(b.balance, 850_000);
}

#[test]
fn release_splits_gasless_reward() {
    let mut b = funded_bridge(1_000_000);
    let r = program(9);
    let sender = account(86, 8);
    let t = b.release_tokens(b"relay-config", &r, b"1500", b"20", &sender, &program(2)).unwrap();
    assert_eq!(t.len(), 2);
    assert_eq!(t[0].kind, RecipientKind::Program);
    assert_eq!(t[0].recipient, r);
    assert_eq!(t[0].amount, 148_000);
    assert_eq!(t[1].kind, RecipientKind::Account);
    assert_eq!(t[1].recipient, sender);
    assert_eq!(t[1].amount, 2_000);
    assert_eq!(b.balance, 850_000);
}

#[test]
fn release_gasless_to_self_is_one_transfer() {
    let mut b = funded_bridge(1_000_000);
    let r = account(86, 9);
    let t = b.release_tokens(b"relay-config", &r, b"1500", b"20", &r, &program(2)).unwrap();
    assert_eq!(t.len(), 1);
    assert_eq!(t[0].amount, 150_000);
}

#[test]
fn release_more_than_balance_changes_nothing() {
    let mut b = funded_bridge(100_000);
    let r = b.release_tokens(b"relay-config", &account(86, 9), b"1001", b"0", &account(86, 8), &program(2));
    assert_eq!(r.err(), Some(BridgeError::InsufficientBalance));
    assert_eq!(b.balance, 100_000);
    assert!(b.release_tokens(b"relay-config", &account(86, 9), b"1000", b"0", &account(86, 8), &program(2)).is_ok());
    assert_eq!(b.balance, 0);
}

#[test]
fn release_refusals() {
    let mut b = funded_bridge(1_000_000);
    let r = account(86, 9);
    let s = account(86, 8);
    let ex = program(2);
    assert_eq!(b.release_tokens(b"relay-config", &r, b"1x", b"0", &s, &ex).err(), Some(BridgeError::InvalidAmount));
    assert_eq!(b.release_tokens(b"relay-config", &r, b"10", b"", &s, &ex).err(), Some(BridgeError::InvalidGaslessReward));
    assert_eq!(b.release_tokens(b"relay-config", &r, b"10", b"0", &s, &[]).err(), Some(BridgeError::CallerNotProgram));
    assert_eq!(b.release_tokens(b"relay-config", &r, b"10", b"0", &s, &program(5)).err(), Some(BridgeError::NotExecutor));
    assert_eq!(b.release_tokens(b"other", &r, b"10", b"0", &s, &ex).err(), Some(BridgeError::CallerContractMismatch));
    assert_eq!(b.release_tokens(b"relay-config", &[1, 86, 3], b"10", b"0", &s, &ex).err(), Some(BridgeError::InvalidRecipient));
    assert_eq!(b.release_tokens(b"relay-config", &r, b"0", b"0", &s, &ex).err(), Some(BridgeError::InvalidAmount));
    assert_eq!(b.release_tokens(b"relay-config", &r, b"10", b"-1", &s, &ex).err(), Some(BridgeError::InvalidGaslessReward));
    assert_eq!(b.release_tokens(b"relay-config", &r, b"10", b"11", &s, &ex).err(), Some(BridgeError::InvalidGaslessReward));
    assert_eq!(b.release_tokens(b"relay-config", &r, b"9223372036854775807", b"0", &s, &ex).err(), Some(BridgeError::Overflow));
    b.governance.paused = true;
    assert_eq!(b.release_tokens(b"relay-config", &r, b"10", b"0", &s, &ex).err(), Some(BridgeError::Paused));
    assert_eq!(b.balance, 1_000_000);
}

#[test]
fn transfer_fee_sweeps_into_custody() {
    let mut b = new_bridge();
    b.lock_tokens(5, b"dest".to_vec(), Vec::new(), 0, &native(10_000_000), Some(true), Some(usdt_record()), None).unwrap();
    assert_eq!(b.fee, 20_001);
    let m = b.transfer_fee(Some(true), Some(usdt_record())).unwrap();
    assert_eq!(m.root_adapter, program(3));
    assert_eq!(m.call.execution_chain_id, 7);
    assert_eq!(m.call.execution_asset, b"USDT".to_vec());
    assert_eq!(m.call.amount, 200);
    assert_eq!(m.call.recipient, b"fee-recipient".to_vec());
    assert_eq!(m.call.gasless_reward, 0);
    assert!(m.call.referrer.is_empty());
    assert_eq!(m.call.referrer_fee, 0);
    assert_eq!(b.fee, 0);
    assert_eq!(b.balance, 10_000_000);
}

#[test]
fn transfer_fee_refusals() {
    let mut b = new_bridge();
    b.fee = 50;
    assert_eq!(b.transfer_fee(Some(true), Some(usdt_record())).err(), Some(BridgeError::BelowMinimum));
    b.fee = 500;
    assert_eq!(b.transfer_fee(None, Some(usdt_record())).err(), Some(BridgeError::ChainDisabled));
    assert_eq!(b.transfer_fee(Some(true), None).err(), Some(BridgeError::NoBinding));
    assert_eq!(b.transfer_fee(Some(true), Some(b"a__b".to_vec())).err(), Some(BridgeError::MalformedBinding));
    assert_eq!(b.transfer_fee(Some(true), Some(b"USDT__-1__1__1__1__1__1".to_vec())).err(), Some(BridgeError::InvalidBinding));
    assert_eq!(b.transfer_fee(Some(true), Some(b"USDT__100__1__1000__1000__2000__0".to_vec())).err(), Some(BridgeError::BindingDisabled));
    b.balance = i64::MAX;
    assert_eq!(b.transfer_fee(Some(true), Some(usdt_record())).err(), Some(BridgeError::Overflow));
    b.balance = 0;
    b.governance.paused = true;
    assert_eq!(b.transfer_fee(Some(true), Some(usdt_record())).err(), Some(BridgeError::Paused));
    assert_eq!(b.fee, 500);
}

#[test]
fn accounts_stay_nonnegative_over_a_session() {
    let mut b = new_bridge();
    b.lock_tokens(5, b"d".to_vec(), b"ref".to_vec(), 0, &native(2000), Some(true), Some(usdt_record()), Some(200_000)).unwrap();
    assert!(b.balance >= 0 && b.fee >= 0);
    let big = b.release_tokens(b"relay-config", &account(86, 9), b"20", b"0", &account(86, 8), &program(2));
    assert_eq!(big.err(), Some(BridgeError::InsufficientBalance));
    b.release_tokens(b"relay-config", &account(86, 9), b"19", b"0", &account(86, 8), &program(2)).unwrap();
    assert!(b.balance >= 0 && b.fee >= 0);
    b.fee = 100;
    b.transfer_fee(Some(true), Some(usdt_record())).unwrap();
    assert!(b.balance >= 0);
    assert_eq!(b.fee, 0);
}

#[test]
fn coin_bridge_governance_updates() {
    let mut b = new_bridge();
    assert_eq!(b.update_fee_chain(None, 9).err(), Some(BridgeError::NotConfirmed));
    assert_eq!(b.update_fee_chain(Some(false), 9).err(), Some(BridgeError::NotConfirmed));
    assert_eq!(b.fee_chain, 7);
    assert_eq!(b.update_fee_chain(Some(true), 0).err(), Some(BridgeError::InvalidFeeChain));
    assert!(b.update_fee_chain(Some(true), 9).is_ok());
    assert_eq!(b.fee_chain, 9);
    assert_eq!(b.update_fee_recipient(Some(true), Vec::new()).err(), Some(BridgeError::InvalidFeeRecipient));
    assert!(b.update_fee_recipient(Some(true), b"new".to_vec()).is_ok());
    assert_eq!(b.fee_recipient, b"new".to_vec());
    assert_eq!(b.update_caller_contract(None, b"x".to_vec()).err(), Some(BridgeError::NotConfirmed));
    assert_eq!(b.update_caller_contract(Some(true), Vec::new()).err(), Some(BridgeError::InvalidCallerContract));
    assert!(b.update_caller_contract(Some(true), b"x".to_vec()).is_ok());
    assert_eq!(b.caller_contract, b"x".to_vec());
    assert_eq!(CoinBridge::update_execution_chain(None, 5, true).err(), Some(BridgeError::NotConfirmed));
    assert_eq!(CoinBridge::update_execution_chain(Some(true), -1, true).err(), Some(BridgeError::InvalidChainId));
    assert!(CoinBridge::update_execution_chain(Some(true), 5, false).is_ok());
}

#[test]
fn update_referrer_checks() {
    assert_eq!(CoinBridge::update_referrer(Some(false), Some(true), b"r", 10).err(), Some(BridgeError::NotConfirmed));
    assert_eq!(CoinBridge::update_referrer(Some(true), None, b"r", 10).err(), Some(BridgeError::ChainDisabled));
    assert_eq!(CoinBridge::update_referrer(Some(true), Some(true), b"", 10).err(), Some(BridgeError::InvalidReferrer));
    assert_eq!(CoinBridge::update_referrer(Some(true), Some(true), b"r", 200_001).err(), Some(BridgeError::InvalidReferrerFee));
    assert_eq!(CoinBridge::update_referrer(Some(true), Some(true), b"r", -1).err(), Some(BridgeError::InvalidReferrerFee));
    assert!(CoinBridge::update_referrer(Some(true), Some(true), b"r", 200_000).is_ok());
}

#[test]
fn update_binding_info_writes_record() {
    let binding = Binding {
        execution_asset: b"USDT".to_vec(),
        min_amount: 100,
        min_fee: 1,
        threshold_fee: 1000,
        before_percent_fee: 1000,
        after_percent_fee: 2000,
        enabled: true,
    };
    assert_eq!(CoinBridge::update_binding_info(None, 5, &binding).err(), Some(BridgeError::NotConfirmed));
    assert_eq!(CoinBridge::update_binding_info(Some(true), -5, &binding).err(), Some(BridgeError::InvalidChainId));
    let record = CoinBridge::update_binding_info(Some(true), 5, &binding).unwrap();
    assert_eq!(record, usdt_record());
    let mut empty = binding.clone();
    empty.execution_asset = Vec::new();
    assert_eq!(CoinBridge::update_binding_info(Some(true), 5, &empty).err(), Some(BridgeError::InvalidExecutionAsset));
    let mut negative = binding.clone();
    negative.after_percent_fee = -1;
    assert_eq!(CoinBridge::update_binding_info(Some(true), 5, &negative).err(), Some(BridgeError::InvalidBindingParameter));
    let mut b = new_bridge();
    assert!(b.lock_tokens(5, b"d".to_vec(), Vec::new(), 0, &native(2000), Some(true), Some(record), None).is_ok());
}
