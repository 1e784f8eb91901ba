//! Usage metering: the hot path, applying bounded, monotonic usage
//! increments to an open session and mirroring them into the gateway's
//! volume counter.

use vstd::prelude::*;

use crate::errors::GatewaySessionError;
use crate::state::{identity_eq, session_wf, Gateway, Identity, Session, SessionState};

verus! {

/// Why a usage increment is refused, or `None` when it must be applied:
/// the session's recorded provider alone may meter, the session must still
/// be `Active` and unexpired, and the new total may not pass the declared
/// deposit. The deposit comparison is in unbounded arithmetic, so a sum
/// that a 64-bit counter could not even represent is refused the same way.
pub open spec fn usage_error(s: Session, caller: Identity, amount: u64, now: i64) -> Option<
    GatewaySessionError,
> {
    if caller != s.provider {
        Some(GatewaySessionError::Unauthorized)
    } else if s.state != SessionState::Active {
        Some(GatewaySessionError::SessionNotActive)
    } else if now >= s.expires_at {
        Some(GatewaySessionError::SessionExpired)
    } else if s.used + amount > s.estimated_deposit {
        Some(GatewaySessionError::UsageExceedsDeposit)
    } else {
        None
    }
}

/// The exact outcome of `record_usage`: on refusal both records stay as
/// they were; on success the usage, the usage count, and the gateway's
/// volume each move up, and nothing else moves at all.
pub open spec fn record_usage_model(
    s: Session,
    g: Gateway,
    caller: Identity,
    amount: u64,
    now: i64,
) -> (Session, Gateway, Result<(), GatewaySessionError>) {
    match usage_error(s, caller, amount, now) {
        Some(e) => (s, g, Err(e)),
        None => (
            Session {
                used: (s.used + amount) as u64,
                usage_count: (s.usage_count + 1) as u32,
                ..s
            },
            Gateway { total_volume: (g.total_volume + amount) as u64, ..g },
            Ok(()),
        ),
    }
}

/// Meter `amount` of usage against the session and the gateway it runs on.
///
/// The caller passes the gateway record the session's `gateway` key
/// resolves to; looking it up is the external keyed store's duty. The
/// preconditions only rule out counter arithmetic that a 64-bit machine
/// cannot represent on the success path; the substrate aborts such a call
/// outright. A sum over the deposit — including one past the representable
/// range — fails with `UsageExceedsDeposit` and changes nothing.
pub fn record_usage(
    session: &mut Session,
    gateway: &mut Gateway,
    caller: Identity,
    amount: u64,
    now: i64,
) -> (r: Result<(), GatewaySessionError>)
    requires
        usage_error(*old(session), caller, amount, now) is None ==> (
        old(gateway).total_volume + amount <= u64::MAX
            && old(session).usage_count < u32::MAX),
    ensures
        (*final(session), *final(gateway), r) == record_usage_model(
            *old(session),
            *old(gateway),
            caller,
            amount,
            now,
        ),
        r is Ok <==> usage_error(*old(session), caller, amount, now) is None,
        r matches Err(e) ==> usage_error(*old(session), caller, amount, now) == Some(e),
        r is Err ==> *final(session) == *old(session) && *final(gateway) == *old(gateway),
        r is Ok ==> final(session).used == old(session).used + amount
            && final(session).usage_count == old(session).usage_count + 1
            && final(gateway).total_volume == old(gateway).total_volume + amount,
        final(session).state == old(session).state,
        final(session).used >= old(session).used,
        final(session).estimated_deposit == old(session).estimated_deposit,
        final(gateway).total_sessions == old(gateway).total_sessions,
        final(gateway).total_volume >= old(gateway).total_volume,
        session_wf(*old(session)) ==> session_wf(*final(session)),
{
    if !identity_eq(&caller, &session.provider) {
        return Err(GatewaySessionError::Unauthorized);
    }
    if session.state != SessionState::Active {
        return Err(GatewaySessionError::SessionNotActive);
    }
    if now >= session.expires_at {
        return Err(GatewaySessionError::SessionExpired);
    }
    if session.used > session.estimated_deposit || amount > session.estimated_deposit
        - session.used {
        return Err(GatewaySessionError::UsageExceedsDeposit);
    }
    session.used = session.used + amount;
    session.usage_count = session.usage_count + 1;
    gateway.total_volume = gateway.total_volume + amount;
    Ok(())
}

} // verus!
