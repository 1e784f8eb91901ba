//! The guarantees that hold across operations, stated over the spec-level
//! transition models and proved once and for all: the deposit bound, the
//! exactness of both gateway counters, the forward-only lifecycle, the
//! refusal of a second settlement, the cancellation gate, and the refusal
//! of unrepresentable usage sums.

use vstd::prelude::*;

use crate::cancel::cancel_session_model;
use crate::errors::GatewaySessionError;
use crate::ledger::open_session_model;
use crate::meter::{record_usage_model, usage_error};
use crate::settlement::{settle_error, settle_session_model};
use crate::state::{session_wf, EvmAddress, Gateway, Identity, Session, SessionState};

verus! {

/// How far along its lifecycle a session has come. Every transition any
/// operation performs strictly raises or keeps this rank, never lowers it.
pub open spec fn state_rank(st: SessionState) -> int {
    match st {
        SessionState::Unopened => 0,
        SessionState::Active => 1,
        SessionState::Settled => 2,
        SessionState::Cancelled => 2,
        SessionState::Expired => 2,
    }
}

/// A state no operation leads out of.
pub open spec fn is_terminal(st: SessionState) -> bool {
    st == SessionState::Settled || st == SessionState::Cancelled
}

/// The deposit bound: a session comes out of opening with zero usage and a
/// strictly positive deposit, and every operation keeps the metered usage
/// within the deposit — so at every observable point, `0 <= used <=
/// estimated_deposit`.
pub proof fn lemma_deposit_bound_invariant(
    g0: Gateway,
    gateway_ref: Identity,
    agent: Identity,
    agent_evm_address: EvmAddress,
    estimated_deposit: u64,
    duration_seconds: i64,
    nonce: i64,
    t_open: i64,
    s: Session,
    g: Gateway,
    caller: Identity,
    amount: u64,
    session_id: [u8; 32],
    now: i64,
)
    ensures
        open_session_model(
            g0,
            gateway_ref,
            agent,
            agent_evm_address,
            estimated_deposit,
            duration_seconds,
            nonce,
            t_open,
        ).1 matches Ok(opened) ==> session_wf(opened) && opened.used == 0,
        session_wf(s) ==> session_wf(record_usage_model(s, g, caller, amount, now).0),
        session_wf(s) ==> session_wf(settle_session_model(s, g, caller, session_id, now).0),
        session_wf(s) ==> session_wf(cancel_session_model(s, caller).0),
{
}

/// The session counter: a successful opening raises `total_sessions` by
/// exactly one, a refused one leaves it alone, and no other operation —
/// metering included — ever moves it.
pub proof fn lemma_session_counter_exact(
    g: Gateway,
    gateway_ref: Identity,
    agent: Identity,
    agent_evm_address: EvmAddress,
    estimated_deposit: u64,
    duration_seconds: i64,
    nonce: i64,
    t_open: i64,
    s: Session,
    caller: Identity,
    amount: u64,
    now: i64,
)
    ensures
        g.total_sessions < u64::MAX ==> ({
            let (g2, r) = open_session_model(
                g,
                gateway_ref,
                agent,
                agent_evm_address,
                estimated_deposit,
                duration_seconds,
                nonce,
                t_open,
            );
            &&& (r is Ok ==> g2.total_sessions == g.total_sessions + 1)
            &&& (r is Err ==> g2 == g)
            &&& g2.total_sessions >= g.total_sessions
        }),
        record_usage_model(s, g, caller, amount, now).1.total_sessions == g.total_sessions,
{
}

/// The lifecycle only moves forward: metering never touches the state,
/// settlement and cancellation move `Active` to their own terminal state
/// and nothing else, and a session that has reached a terminal state is
/// never changed again by any operation.
pub proof fn lemma_state_monotone(
    s: Session,
    g: Gateway,
    caller: Identity,
    amount: u64,
    session_id: [u8; 32],
    now: i64,
)
    ensures
        record_usage_model(s, g, caller, amount, now).0.state == s.state,
        ({
            let after = settle_session_model(s, g, caller, session_id, now).0;
            &&& state_rank(after.state) >= state_rank(s.state)
            &&& (after.state == s.state || (s.state == SessionState::Active && after.state
                == SessionState::Settled))
        }),
        ({
            let after = cancel_session_model(s, caller).0;
            &&& state_rank(after.state) >= state_rank(s.state)
            &&& (after.state == s.state || (s.state == SessionState::Active && after.state
                == SessionState::Cancelled && s.used == 0))
        }),
        is_terminal(s.state) ==> record_usage_model(s, g, caller, amount, now).0 == s
            && settle_session_model(s, g, caller, session_id, now).0 == s && cancel_session_model(
            s,
            caller,
        ).0 == s,
{
}

/// Idempotency-refusal of settlement: on an `Active` session a party's
/// settlement succeeds and leaves the session `Settled`; a second
/// settlement of the result — by anyone, at any time — fails with
/// `SessionNotActive` and changes nothing, so the one proof already
/// emitted is never re-emitted.
pub proof fn lemma_settle_idempotency_refusal(
    s: Session,
    g1: Gateway,
    g2: Gateway,
    caller1: Identity,
    caller2: Identity,
    id1: [u8; 32],
    id2: [u8; 32],
    now1: i64,
    now2: i64,
)
    requires
        caller1 == s.agent || caller1 == s.provider,
        s.state == SessionState::Active,
    ensures
        ({
            let (s1, r1) = settle_session_model(s, g1, caller1, id1, now1);
            &&& r1 is Ok
            &&& s1.state == SessionState::Settled
            &&& ({
                let (s2, r2) = settle_session_model(s1, g2, caller2, id2, now2);
                &&& r2 is Err
                &&& settle_error(s1, caller2) is Some
                &&& (caller2 == s1.agent || caller2 == s1.provider) ==> r2 == Err::<
                    crate::state::SettlementProof,
                    GatewaySessionError,
                >(GatewaySessionError::SessionNotActive)
                &&& s2 == s1
            })
        }),
{
}

/// The cancellation gate: for the session's agent on an `Active` session,
/// cancellation succeeds exactly when nothing was ever metered; any
/// nonzero usage makes it fail with `CannotCancelWithUsage` and changes
/// nothing.
pub proof fn lemma_cancellation_gate(s: Session, caller: Identity)
    requires
        caller == s.agent,
        s.state == SessionState::Active,
    ensures
        cancel_session_model(s, caller).1 is Ok <==> s.used == 0,
        s.used != 0 ==> cancel_session_model(s, caller).1 == Err::<(), GatewaySessionError>(
            GatewaySessionError::CannotCancelWithUsage,
        ) && cancel_session_model(s, caller).0 == s,
{
}

/// Overflow safety: a usage amount whose sum with the metered usage does
/// not even fit the 64-bit counter is refused outright — both records stay
/// exactly as they were — and when every other check passes, the refusal
/// is `UsageExceedsDeposit`, since such a sum lies above any representable
/// deposit.
pub proof fn lemma_overflow_refused(
    s: Session,
    g: Gateway,
    caller: Identity,
    amount: u64,
    now: i64,
)
    requires
        s.used + amount > u64::MAX,
    ensures
        record_usage_model(s, g, caller, amount, now).2 is Err,
        record_usage_model(s, g, caller, amount, now).0 == s,
        record_usage_model(s, g, caller, amount, now).1 == g,
        caller == s.provider && s.state == SessionState::Active && now < s.expires_at
            ==> record_usage_model(s, g, caller, amount, now).2 == Err::<(), GatewaySessionError>(
            GatewaySessionError::UsageExceedsDeposit,
        ),
{
}

/// One metering attempt in a run: the index of the session it targets,
/// the caller, the amount, and the clock reading at the call.
pub type UsageAttempt = (int, Identity, u64, i64);

/// The records after a run of metering attempts against one gateway: each
/// attempt in turn is applied to the session it names — taking effect or
/// being refused exactly as `record_usage_model` says — and an attempt
/// naming no session leaves everything alone.
pub open spec fn apply_usage_attempts(
    sessions: Seq<Session>,
    g: Gateway,
    attempts: Seq<UsageAttempt>,
) -> (Seq<Session>, Gateway)
    decreases attempts.len(),
{
    if attempts.len() == 0 {
        (sessions, g)
    } else {
        let prior = apply_usage_attempts(sessions, g, attempts.drop_last());
        let ev = attempts.last();
        if 0 <= ev.0 < prior.0.len() {
            let step = record_usage_model(prior.0[ev.0], prior.1, ev.1, ev.2, ev.3);
            (prior.0.update(ev.0, step.0), step.1)
        } else {
            prior
        }
    }
}

/// The sum of the amounts of exactly those attempts in the run that
/// succeed — judged, for each attempt, against the records as the run has
/// left them so far.
pub open spec fn accepted_volume(
    sessions: Seq<Session>,
    g: Gateway,
    attempts: Seq<UsageAttempt>,
) -> int
    decreases attempts.len(),
{
    if attempts.len() == 0 {
        0
    } else {
        let prior_sum = accepted_volume(sessions, g, attempts.drop_last());
        let prior = apply_usage_attempts(sessions, g, attempts.drop_last());
        let ev = attempts.last();
        if 0 <= ev.0 < prior.0.len() && usage_error(prior.0[ev.0], ev.1, ev.2, ev.3) is None {
            prior_sum + ev.2
        } else {
            prior_sum
        }
    }
}

/// The sum of the amounts of all attempts in a run, successful or not.
pub open spec fn attempted_volume(attempts: Seq<UsageAttempt>) -> int
    decreases attempts.len(),
{
    if attempts.len() == 0 {
        0
    } else {
        attempted_volume(attempts.drop_last()) + attempts.last().2
    }
}

/// What a run can accept never exceeds what it attempted, and is never
/// negative.
pub proof fn lemma_accepted_within_attempted(
    sessions: Seq<Session>,
    g: Gateway,
    attempts: Seq<UsageAttempt>,
)
    ensures
        0 <= accepted_volume(sessions, g, attempts) <= attempted_volume(attempts),
    decreases attempts.len(),
{
    if attempts.len() != 0 {
        lemma_accepted_within_attempted(sessions, g, attempts.drop_last());
    }
}

/// One session-opening attempt in a run: the opening agent, its external
/// address, the declared deposit, the duration, the nonce, and the clock
/// reading at the call.
pub type OpenAttempt = (Identity, EvmAddress, u64, i64, i64, i64);

/// The gateway after a run of opening attempts against it, each taking
/// effect or being refused exactly as `open_session_model` says.
pub open spec fn apply_open_attempts(
    g: Gateway,
    gateway_ref: Identity,
    attempts: Seq<OpenAttempt>,
) -> Gateway
    decreases attempts.len(),
{
    if attempts.len() == 0 {
        g
    } else {
        let prior = apply_open_attempts(g, gateway_ref, attempts.drop_last());
        let ev = attempts.last();
        open_session_model(prior, gateway_ref, ev.0, ev.1, ev.2, ev.3, ev.4, ev.5).0
    }
}

/// How many attempts in the run open a session: exactly those with a
/// positive deposit and a positive duration, and none at all on an
/// inactive gateway — opening never flips the activation flag, so the
/// starting flag decides for the whole run.
pub open spec fn accepted_opens(g: Gateway, attempts: Seq<OpenAttempt>) -> int
    decreases attempts.len(),
{
    if attempts.len() == 0 {
        0
    } else {
        accepted_opens(g, attempts.drop_last()) + if g.is_active && attempts.last().2 > 0
            && attempts.last().3 > 0 {
            1int
        } else {
            0int
        }
    }
}

/// A run cannot accept more opens than it attempted.
pub proof fn lemma_accepted_opens_bounds(g: Gateway, attempts: Seq<OpenAttempt>)
    ensures
        0 <= accepted_opens(g, attempts) <= attempts.len(),
    decreases attempts.len(),
{
    if attempts.len() != 0 {
        lemma_accepted_opens_bounds(g, attempts.drop_last());
    }
}

/// The session counter is exact: after any run of opening attempts, the
/// gateway's `total_sessions` is its starting value plus one for each
/// accepted attempt — never more, never less, never decremented. The one
/// hypothesis is that the counter's 64-bit range can hold even one open
/// per attempt.
pub proof fn lemma_total_sessions_counts_opens(
    g: Gateway,
    gateway_ref: Identity,
    attempts: Seq<OpenAttempt>,
)
    requires
        g.total_sessions + attempts.len() <= u64::MAX,
    ensures
        apply_open_attempts(g, gateway_ref, attempts).is_active == g.is_active,
        apply_open_attempts(g, gateway_ref, attempts).total_sessions == g.total_sessions
            + accepted_opens(g, attempts),
    decreases attempts.len(),
{
    if attempts.len() != 0 {
        lemma_total_sessions_counts_opens(g, gateway_ref, attempts.drop_last());
        lemma_accepted_opens_bounds(g, attempts.drop_last());
    }
}

/// The volume counter is exact: after any run of metering attempts
/// against one gateway — however many sessions they target, in whatever
/// order, however many are refused — the gateway's `total_volume` is its
/// starting value plus precisely the sum of the accepted amounts. The one
/// hypothesis is that the counter's 64-bit range can hold even the sum of
/// everything attempted.
pub proof fn lemma_total_volume_is_sum_of_usage(
    sessions: Seq<Session>,
    g: Gateway,
    attempts: Seq<UsageAttempt>,
)
    requires
        g.total_volume + attempted_volume(attempts) <= u64::MAX,
    ensures
        apply_usage_attempts(sessions, g, attempts).1.total_volume == g.total_volume
            + accepted_volume(sessions, g, attempts),
    decreases attempts.len(),
{
    if attempts.len() != 0 {
        let prior_attempts = attempts.drop_last();
        lemma_accepted_within_attempted(sessions, g, prior_attempts);
        lemma_total_volume_is_sum_of_usage(sessions, g, prior_attempts);
    }
}

} // verus!
