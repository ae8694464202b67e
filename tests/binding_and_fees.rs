use we_bridge::binding::Binding;
use we_bridge::error::BridgeError;
use we_bridge::fees::{compute_fee, quote_deposit, FeeQuote};

fn usdt_binding() -> Binding {
    Binding {
        execution_asset: b"USDT".to_vec(),
        min_amount: 100,
        min_fee: 1,
        threshold_fee: 1000,
        before_percent_fee: 1000,
        after_percent_fee: 2000,
        enabled: true,
    }
}

#[test]
fn binding_encodes_seven_fields() {
    assert_eq!(usdt_binding().encode(), b"USDT__100__1__1000__1000__2000__1".to_vec());
    let mut off = usdt_binding();
    off.enabled = false;
    assert_eq!(off.encode(), b"USDT__100__1__1000__1000__2000__0".to_vec());
}

#[test]
fn binding_decodes_its_own_record() {
    let b = Binding::decode(&usdt_binding().encode()).unwrap();
    assert_eq!(b.execution_asset, b"USDT".to_vec());
    assert_eq!(b.min_amount, 100);
    assert_eq!(b.min_fee, 1);
    assert_eq!(b.threshold_fee, 1000);
    assert_eq!(b.before_percent_fee, 1000);
    assert_eq!(b.after_percent_fee, 2000);
    assert!(b.enabled);
}

#[test]
fn binding_flag_any_nonzero_is_enabled() {
    let b = Binding::decode(b"X__0__0__0__0__0__5").unwrap();
    assert!(b.enabled);
    let b = Binding::decode(b"X__0__0__0__0__0__0").unwrap();
    assert!(!b.enabled);
}

#[test]
fn binding_decode_refuses_malformed_records() {
    assert!(Binding::decode(b"USDT__100__1__1000__1000__2000").is_none());
    assert!(Binding::decode(b"USDT__100__1__1000__1000__2000__1__9").is_none());
    assert!(Binding::decode(b"USDT__100__x__1000__1000__2000__1").is_none());
    assert!(Binding::decode(b"").is_none());
}

#[test]
fn fee_tiers_follow_threshold() {
    let b = usdt_binding();
    assert_eq!(compute_fee(&b, 999), 1);
    assert_eq!(compute_fee(&b, 1000), 2);
    assert_eq!(compute_fee(&b, 1_000_000), 1 + 2000);
    assert_eq!(compute_fee(&b, 1_000_001), 1 + 2000);
    assert_eq!(compute_fee(&b, 3_000_000), 1 + 6000);
}

#[test]
fn deposit_scenario_above_threshold() {
    let q = quote_deposit(&usdt_binding(), 2000, 0, 0).unwrap();
    assert_eq!(q, FeeQuote { fee: 5, referrer_fee: 0, amount_to_send: 1995 });
}

#[test]
fn deposit_with_referrer_share() {
    let q = quote_deposit(&usdt_binding(), 10_000_000, 0, 200_000).unwrap();
    assert_eq!(q.fee, 20_001);
    assert_eq!(q.referrer_fee, 4_000);
    assert_eq!(q.amount_to_send, 9_979_999);
}

#[test]
fn deposit_refusals() {
    let b = usdt_binding();
    assert_eq!(quote_deposit(&b, 0, 0, 0), Err(BridgeError::InvalidAmount));
    assert_eq!(quote_deposit(&b, 50, 0, 0), Err(BridgeError::BelowMinimum));
    let mut off = usdt_binding();
    off.enabled = false;
    assert_eq!(quote_deposit(&off, 2000, 0, 0), Err(BridgeError::BindingDisabled));
    let mut bad = usdt_binding();
    bad.min_fee = -1;
    assert_eq!(quote_deposit(&bad, 2000, 0, 0), Err(BridgeError::InvalidBinding));
    let mut costly = usdt_binding();
    costly.min_fee = 2000;
    assert_eq!(quote_deposit(&costly, 2000, 0, 0), Err(BridgeError::FeeExceedsAmount));
    assert_eq!(quote_deposit(&b, 2000, 0, 200_001), Err(BridgeError::InvalidReferrerFee));
    assert_eq!(quote_deposit(&b, 2000, 0, -1), Err(BridgeError::InvalidReferrerFee));
    assert_eq!(quote_deposit(&b, 2000, 1995, 0), Err(BridgeError::AmountBelowGaslessReward));
    assert!(quote_deposit(&b, 2000, 1994, 0).is_ok());
}

#[test]
fn binding_round_trip_needs_plain_asset() {
    let mut b = usdt_binding();
    b.execution_asset = b"US__DT".to_vec();
    assert!(Binding::decode(&b.encode()).is_none());
    b.execution_asset = b"USD_".to_vec();
    assert!(Binding::decode(&b.encode()).is_none());
    b.execution_asset = b"U_S_D".to_vec();
    let back = Binding::decode(&b.encode()).unwrap();
    assert_eq!(back.execution_asset, b"U_S_D".to_vec());
    assert_eq!(back.after_percent_fee, 2000);
}
