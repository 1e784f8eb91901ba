//! Settlement: the terminal transition that closes a session normally and
//! produces its one immutable settlement proof.

use vstd::prelude::*;

use crate::errors::GatewaySessionError;
use crate::state::{
    identity_eq, session_wf, Gateway, Identity, Session, SessionState, SettlementProof,
};

verus! {

/// Why settlement is refused, or `None` when it must go through: either
/// party to the session may settle it, and only while it is `Active` —
/// which is what makes a second settlement of the same session fail
/// cleanly instead of re-emitting a proof.
pub open spec fn settle_error(s: Session, caller: Identity) -> Option<GatewaySessionError> {
    if caller != s.agent && caller != s.provider {
        Some(GatewaySessionError::Unauthorized)
    } else if s.state != SessionState::Active {
        Some(GatewaySessionError::SessionNotActive)
    } else {
        None
    }
}

/// The exact outcome of `settle_session`: on refusal the session stays as
/// it was; on success only its state moves, to `Settled`, and the proof
/// carries the session's key, both external addresses, the final usage,
/// and the settlement instant.
pub open spec fn settle_session_model(
    s: Session,
    g: Gateway,
    caller: Identity,
    session_id: [u8; 32],
    now: i64,
) -> (Session, Result<SettlementProof, GatewaySessionError>) {
    match settle_error(s, caller) {
        Some(e) => (s, Err(e)),
        None => (
            Session { state: SessionState::Settled, ..s },
            Ok(
                SettlementProof {
                    session_id,
                    agent_evm_address: s.agent_evm_address,
                    provider_evm_address: g.provider_evm_address,
                    used_amount: s.used,
                    timestamp: now,
                },
            ),
        ),
    }
}

/// Close the session in `Settled` and hand back its settlement proof.
///
/// The caller passes the gateway record the session's `gateway` key
/// resolves to (only its external address is read) and `session_id`, the
/// storage key the session lives under. Relaying the returned proof across
/// the trust boundary is the caller's business; this core produces it
/// exactly once and makes no delivery promise.
pub fn settle_session(
    session: &mut Session,
    gateway: &Gateway,
    caller: Identity,
    session_id: [u8; 32],
    now: i64,
) -> (r: Result<SettlementProof, GatewaySessionError>)
    ensures
        (*final(session), r) == settle_session_model(
            *old(session),
            *gateway,
            caller,
            session_id,
            now,
        ),
        r is Ok <==> (caller == old(session).agent || caller == old(session).provider)
            && old(session).state == SessionState::Active,
        r matches Ok(p) ==> final(session).state == SessionState::Settled
            && p.session_id == session_id
            && p.agent_evm_address == old(session).agent_evm_address
            && p.provider_evm_address == gateway.provider_evm_address
            && p.used_amount == old(session).used && p.timestamp == now,
        r is Err ==> *final(session) == *old(session),
        final(session).used == old(session).used,
        final(session).usage_count == old(session).usage_count,
        final(session).estimated_deposit == old(session).estimated_deposit,
        session_wf(*old(session)) ==> session_wf(*final(session)),
{
    if !identity_eq(&caller, &session.agent) && !identity_eq(&caller, &session.provider) {
        return Err(GatewaySessionError::Unauthorized);
    }
    if session.state != SessionState::Active {
        return Err(GatewaySessionError::SessionNotActive);
    }
    session.state = SessionState::Settled;
    Ok(
        SettlementProof {
            session_id,
            agent_evm_address: session.agent_evm_address,
            provider_evm_address: gateway.provider_evm_address,
            used_amount: session.used,
            timestamp: now,
        },
    )
}

} // verus!
