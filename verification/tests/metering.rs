use gateway_session::errors::GatewaySessionError;
use gateway_session::ledger::open_session;
use gateway_session::meter::record_usage;
use gateway_session::registry::register_gateway;
use gateway_session::settlement::settle_session;
use gateway_session::state::{EvmAddress, Gateway, Identity, Session, SessionState};

const PROVIDER: Identity = [7u8; 32];
const AGENT: Identity = [9u8; 32];
const GATEWAY_KEY: Identity = [3u8; 32];
const SESSION_ID: [u8; 32] = [5u8; 32];
const PROVIDER_EVM: EvmAddress = [0x11u8; 20];
const AGENT_EVM: EvmAddress = [0x22u8; 20];

fn gateway_and_session() -> (Gateway, Session) {
    let mut g =
        register_gateway("weather-api".to_string(), 100, PROVIDER, PROVIDER_EVM, 1000).unwrap();
    let s = open_session(&mut g, GATEWAY_KEY, AGENT, AGENT_EVM, 1000, 3600, 1, 5000).unwrap();
    (g, s)
}

#[test]
fn record_usage_accumulates() {
    let (mut g, mut s) = gateway_and_session();
    assert_eq!(record_usage(&mut s, &mut g, PROVIDER, 300, 6000), Ok(()));
    assert_eq!(s.used, 300);
    assert_eq!(s.usage_count, 1);
    assert_eq!(g.total_volume, 300);
    assert_eq!(s.state, SessionState::Active);
}

#[test]
fn record_usage_rejects_sum_over_deposit() {
    let (mut g, mut s) = gateway_and_session();
    record_usage(&mut s, &mut g, PROVIDER, 300, 6000).unwrap();
    let r = record_usage(&mut s, &mut g, PROVIDER, 800, 6100);
    assert_eq!(r, Err(GatewaySessionError::UsageExceedsDeposit));
    assert_eq!(s.used, 300);
    assert_eq!(s.usage_count, 1);
    assert_eq!(g.total_volume, 300);
}

#[test]
fn record_usage_requires_provider() {
    let (mut g, mut s) = gateway_and_session();
    let r = record_usage(&mut s, &mut g, AGENT, 300, 6000);
    assert_eq!(r, Err(GatewaySessionError::Unauthorized));
    assert_eq!(s.used, 0);
    assert_eq!(g.total_volume, 0);
}

#[test]
fn record_usage_rejects_expired_session() {
    let (mut g, mut s) = gateway_and_session();
    // Expiry is inclusive: at exactly `expires_at` the session is spent.
    let at_expiry = s.expires_at;
    let r = record_usage(&mut s, &mut g, PROVIDER, 300, at_expiry);
    assert_eq!(r, Err(GatewaySessionError::SessionExpired));
    let r = record_usage(&mut s, &mut g, PROVIDER, 300, at_expiry + 50);
    assert_eq!(r, Err(GatewaySessionError::SessionExpired));
    // The state is only observed, never rewritten to `Expired`.
    assert_eq!(s.state, SessionState::Active);
    assert_eq!(s.used, 0);
    assert_eq!(g.total_volume, 0);
}

#[test]
fn record_usage_rejects_settled_session() {
    let (mut g, mut s) = gateway_and_session();
    settle_session(&mut s, &g, AGENT, SESSION_ID, 6000).unwrap();
    let r = record_usage(&mut s, &mut g, PROVIDER, 300, 6100);
    assert_eq!(r, Err(GatewaySessionError::SessionNotActive));
    assert_eq!(s.used, 0);
}

#[test]
fn record_usage_refuses_unrepresentable_sum() {
    let (mut g, mut s) = gateway_and_session();
    record_usage(&mut s, &mut g, PROVIDER, 300, 6000).unwrap();
    let r = record_usage(&mut s, &mut g, PROVIDER, u64::MAX, 6100);
    assert_eq!(r, Err(GatewaySessionError::UsageExceedsDeposit));
    assert_eq!(s.used, 300);
    assert_eq!(s.usage_count, 1);
    assert_eq!(g.total_volume, 300);
}

#[test]
fn record_usage_allows_exactly_the_deposit() {
    let (mut g, mut s) = gateway_and_session();
    assert_eq!(record_usage(&mut s, &mut g, PROVIDER, 1000, 6000), Ok(()));
    assert_eq!(s.used, 1000);
    let r = record_usage(&mut s, &mut g, PROVIDER, 1, 6100);
    assert_eq!(r, Err(GatewaySessionError::UsageExceedsDeposit));
    assert_eq!(s.used, 1000);
}

#[test]
fn record_usage_of_zero_still_counts() {
    let (mut g, mut s) = gateway_and_session();
    assert_eq!(record_usage(&mut s, &mut g, PROVIDER, 0, 6000), Ok(()));
    assert_eq!(s.used, 0);
    assert_eq!(s.usage_count, 1);
    assert_eq!(g.total_volume, 0);
}

#[test]
fn total_volume_sums_usage_across_sessions() {
    let mut g =
        register_gateway("weather-api".to_string(), 100, PROVIDER, PROVIDER_EVM, 1000).unwrap();
    let mut s1 = open_session(&mut g, GATEWAY_KEY, AGENT, AGENT_EVM, 1000, 3600, 1, 5000).unwrap();
    let mut s2 = open_session(&mut g, GATEWAY_KEY, AGENT, AGENT_EVM, 500, 3600, 2, 5000).unwrap();
    record_usage(&mut s1, &mut g, PROVIDER, 300, 6000).unwrap();
    record_usage(&mut s2, &mut g, PROVIDER, 200, 6010).unwrap();
    record_usage(&mut s1, &mut g, PROVIDER, 100, 6020).unwrap();
    // A refused attempt adds nothing.
    let r = record_usage(&mut s2, &mut g, PROVIDER, 400, 6030);
    assert_eq!(r, Err(GatewaySessionError::UsageExceedsDeposit));
    assert_eq!(g.total_volume, 300 + 200 + 100);
    assert_eq!(s1.used, 400);
    assert_eq!(s2.used, 200);
}

#[test]
fn usage_stays_within_deposit_throughout() {
    let (mut g, mut s) = gateway_and_session();
    let amounts = [250u64, 250, 600, 499, 1, 1];
    for (i, &amount) in amounts.iter().enumerate() {
        let _ = record_usage(&mut s, &mut g, PROVIDER, amount, 6000 + i as i64);
        assert!(s.used <= s.estimated_deposit);
    }
    assert_eq!(s.used, 1000);
}
