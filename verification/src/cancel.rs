//! Cancellation: the terminal transition that reverses a session nobody
//! used, without producing a settlement proof.

use vstd::prelude::*;

use crate::errors::GatewaySessionError;
use crate::state::{identity_eq, session_wf, Identity, Session, SessionState};

verus! {

/// Why cancellation is refused, or `None` when it must go through: only
/// the opening agent may cancel, only while the session is `Active`, and
/// only if nothing was ever metered against it.
pub open spec fn cancel_error(s: Session, caller: Identity) -> Option<GatewaySessionError> {
    if caller != s.agent {
        Some(GatewaySessionError::Unauthorized)
    } else if s.state != SessionState::Active {
        Some(GatewaySessionError::SessionNotActive)
    } else if s.used != 0 {
        Some(GatewaySessionError::CannotCancelWithUsage)
    } else {
        None
    }
}

/// The exact outcome of `cancel_session`: on refusal the session stays as
/// it was; on success only its state moves, to `Cancelled`.
pub open spec fn cancel_session_model(s: Session, caller: Identity) -> (
    Session,
    Result<(), GatewaySessionError>,
) {
    match cancel_error(s, caller) {
        Some(e) => (s, Err(e)),
        None => (Session { state: SessionState::Cancelled, ..s }, Ok(())),
    }
}

/// Close the session in `Cancelled`. Succeeds exactly when the caller is
/// the session's agent, the session is still `Active`, and its metered
/// usage is zero; any recorded usage makes it fail with
/// `CannotCancelWithUsage`.
pub fn cancel_session(session: &mut Session, caller: Identity) -> (r: Result<
    (),
    GatewaySessionError,
>)
    ensures
        (*final(session), r) == cancel_session_model(*old(session), caller),
        r is Ok <==> caller == old(session).agent && old(session).state == SessionState::Active
            && old(session).used == 0,
        r is Ok ==> final(session).state == SessionState::Cancelled,
        r matches Err(e) ==> cancel_error(*old(session), caller) == Some(e),
        r is Err ==> *final(session) == *old(session),
        caller == old(session).agent && old(session).state == SessionState::Active
            && old(session).used != 0 ==> r == Err::<(), GatewaySessionError>(
            GatewaySessionError::CannotCancelWithUsage,
        ),
        final(session).used == old(session).used,
        session_wf(*old(session)) ==> session_wf(*final(session)),
{
    if !identity_eq(&caller, &session.agent) {
        return Err(GatewaySessionError::Unauthorized);
    }
    if session.state != SessionState::Active {
        return Err(GatewaySessionError::SessionNotActive);
    }
    if session.used != 0 {
        return Err(GatewaySessionError::CannotCancelWithUsage);
    }
    session.state = SessionState::Cancelled;
    Ok(())
}

} // verus!
