//! The two persisted record types, the settlement artifact, and their
//! well-formedness conditions.

use vstd::prelude::*;

verus! {

broadcast use vstd::array::group_array_axioms;

/// The credential of a calling party. The substrate that invokes an
/// operation has already verified that the caller controls this identity;
/// the core only ever compares it against a stored identity field.
pub type Identity = [u8; 32];

/// A 20-byte external-chain address bound to a party, carried through
/// unchanged and never interpreted.
pub type EvmAddress = [u8; 20];

/// The longest slug a gateway may be registered under, in characters.
pub const MAX_SLUG_LEN: usize = 32;

/// Where a session stands in its lifecycle.
///
/// `Unopened` is the starting state of a record that was never opened; a
/// session record is only ever created directly in `Active`. `Settled` and
/// `Cancelled` are terminal. `Expired` is declared but never entered:
/// expiry is observed as a point-in-time check inside usage metering and is
/// never persisted.
#[derive(Clone, Copy, Debug, PartialEq, Eq, Structural)]
pub enum SessionState {
    Unopened,
    Active,
    Settled,
    Cancelled,
    Expired,
}

/// A provider's published, priced API endpoint.
#[derive(Clone, Debug)]
pub struct Gateway {
    /// Unique human-readable identifier, 1 to `MAX_SLUG_LEN` characters,
    /// immutable after registration. Uniqueness across gateways is enforced
    /// by the external keyed store, not here.
    pub slug: String,
    /// Only this identity may change the price or deactivate the gateway.
    pub provider: Identity,
    /// The provider's external-chain address, echoed into settlement proofs.
    pub provider_evm_address: EvmAddress,
    /// Price quoted per request; always greater than zero.
    pub price_per_request: u64,
    /// False blocks new sessions but never affects sessions already open.
    pub is_active: bool,
    /// How many sessions were ever opened against this gateway.
    pub total_sessions: u64,
    /// Sum of every usage amount ever successfully metered against this
    /// gateway, across all of its sessions.
    pub total_volume: u64,
    /// Registration timestamp; immutable.
    pub created_at: i64,
}

/// One agent's metered engagement with one gateway.
#[derive(Clone, Copy, Debug)]
pub struct Session {
    /// The opening agent; only this identity may cancel or (besides the
    /// provider) settle the session. Immutable.
    pub agent: Identity,
    /// The agent's external-chain address, echoed into the settlement proof.
    pub agent_evm_address: EvmAddress,
    /// The storage key of the gateway this session meters against.
    pub gateway: Identity,
    /// The gateway's provider, captured at open time and never refreshed:
    /// later gateway changes do not retroactively affect this session.
    pub provider: Identity,
    /// Declared upper bound on usage, fixed at open time, greater than zero.
    pub estimated_deposit: u64,
    /// Usage metered so far; never exceeds `estimated_deposit`.
    pub used: u64,
    /// The caller-supplied nonce that formed the session's storage key; not
    /// a trusted clock reading.
    pub created_at: i64,
    /// The instant after which no further usage may be metered.
    pub expires_at: i64,
    /// Lifecycle state; moves only forward.
    pub state: SessionState,
    /// Number of successful usage-metering operations so far.
    pub usage_count: u32,
}

/// The immutable artifact produced exactly once per session, at settlement,
/// for consumption by an external cross-boundary relay.
#[derive(Clone, Copy, Debug)]
pub struct SettlementProof {
    /// The settled session's storage key.
    pub session_id: [u8; 32],
    pub agent_evm_address: EvmAddress,
    pub provider_evm_address: EvmAddress,
    /// The session's final metered usage.
    pub used_amount: u64,
    /// When settlement happened, by the substrate's trusted clock.
    pub timestamp: i64,
}

/// What registration establishes and every later gateway operation keeps:
/// a slug of legal length and a strictly positive price.
pub open spec fn gateway_wf(g: Gateway) -> bool {
    &&& 1 <= g.slug@.len() <= MAX_SLUG_LEN
    &&& g.price_per_request > 0
}

/// What opening establishes and every later session operation keeps: a
/// strictly positive deposit that the metered usage never exceeds.
pub open spec fn session_wf(s: Session) -> bool {
    &&& s.estimated_deposit > 0
    &&& s.used <= s.estimated_deposit
}

/// Byte-for-byte comparison of two identities: the core's entire
/// authorization check, given that the substrate has already verified that
/// the caller controls the identity it claims.
pub fn identity_eq(a: &Identity, b: &Identity) -> (r: bool)
    ensures
        r <==> *a == *b,
{
    let mut i: usize = 0;
    while i < 32
        invariant
            i <= 32,
            forall|k: int| 0 <= k < i ==> a@[k] == b@[k],
        decreases 32 - i,
    {
        if a[i] != b[i] {
            return false;
        }
        i = i + 1;
    }
    proof {
        assert(*a =~= *b);
    }
    true
}

} // verus!
