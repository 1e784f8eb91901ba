//! Session opening: the only way a session record comes into being.

use vstd::prelude::*;

use crate::errors::GatewaySessionError;
use crate::state::{
    gateway_wf, session_wf, EvmAddress, Gateway, Identity, Session, SessionState,
};

verus! {

/// The exact outcome of `open_session`: the checks in order, the freshly
/// initialized session, and the gateway's session counter moving up by one.
pub open spec fn open_session_model(
    g: Gateway,
    gateway_ref: Identity,
    agent: Identity,
    agent_evm_address: EvmAddress,
    estimated_deposit: u64,
    duration_seconds: i64,
    nonce: i64,
    now: i64,
) -> (Gateway, Result<Session, GatewaySessionError>) {
    if !g.is_active {
        (g, Err(GatewaySessionError::GatewayNotActive))
    } else if estimated_deposit == 0 {
        (g, Err(GatewaySessionError::InvalidDeposit))
    } else if duration_seconds <= 0 {
        (g, Err(GatewaySessionError::InvalidDuration))
    } else {
        (
            Gateway { total_sessions: (g.total_sessions + 1) as u64, ..g },
            Ok(
                Session {
                    agent,
                    agent_evm_address,
                    gateway: gateway_ref,
                    provider: g.provider,
                    estimated_deposit,
                    used: 0,
                    created_at: nonce,
                    expires_at: (now + duration_seconds) as i64,
                    state: SessionState::Active,
                    usage_count: 0,
                },
            ),
        )
    }
}

/// Open a session for `agent` against the gateway: a fresh `Active` record
/// with zero usage, expiring at `now + duration_seconds`, with the
/// gateway's provider identity captured once and never refreshed.
///
/// `gateway_ref` is the storage key the gateway record lives under and
/// `nonce` the caller-chosen distinguisher; the external keyed store files
/// the new session under `(agent, gateway_ref, nonce)` and must reject a
/// collision itself. The preconditions only rule out counter and clock
/// arithmetic that a 64-bit machine cannot represent; the substrate aborts
/// such a call outright.
pub fn open_session(
    gateway: &mut Gateway,
    gateway_ref: Identity,
    agent: Identity,
    agent_evm_address: EvmAddress,
    estimated_deposit: u64,
    duration_seconds: i64,
    nonce: i64,
    now: i64,
) -> (r: Result<Session, GatewaySessionError>)
    requires
        (old(gateway).is_active && estimated_deposit > 0 && duration_seconds > 0) ==> (
        old(gateway).total_sessions < u64::MAX && now + duration_seconds <= i64::MAX),
    ensures
        (*final(gateway), r) == open_session_model(
            *old(gateway),
            gateway_ref,
            agent,
            agent_evm_address,
            estimated_deposit,
            duration_seconds,
            nonce,
            now,
        ),
        r is Ok <==> old(gateway).is_active && estimated_deposit > 0 && duration_seconds > 0,
        r matches Ok(s) ==> session_wf(s) && s.used == 0 && s.usage_count == 0
            && s.state == SessionState::Active && s.expires_at == now + duration_seconds
            && s.provider == old(gateway).provider && s.agent == agent
            && s.gateway == gateway_ref && s.estimated_deposit == estimated_deposit
            && s.created_at == nonce,
        r is Ok ==> final(gateway).total_sessions == old(gateway).total_sessions + 1,
        r is Err ==> *final(gateway) == *old(gateway),
        final(gateway).total_sessions >= old(gateway).total_sessions,
        final(gateway).total_volume == old(gateway).total_volume,
        gateway_wf(*old(gateway)) ==> gateway_wf(*final(gateway)),
{
    if !gateway.is_active {
        return Err(GatewaySessionError::GatewayNotActive);
    }
    if estimated_deposit == 0 {
        return Err(GatewaySessionError::InvalidDeposit);
    }
    if duration_seconds <= 0 {
        return Err(GatewaySessionError::InvalidDuration);
    }
    let session = Session {
        agent,
        agent_evm_address,
        gateway: gateway_ref,
        provider: gateway.provider,
        estimated_deposit,
        used: 0,
        created_at: nonce,
        expires_at: now + duration_seconds,
        state: SessionState::Active,
        usage_count: 0,
    };
    gateway.total_sessions = gateway.total_sessions + 1;
    Ok(session)
}

} // verus!
