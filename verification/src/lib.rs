//! A metering and settlement ledger for pay-per-call API access.
//!
//! A provider publishes an API behind a named, priced [`state::Gateway`]; an
//! agent opens a time-bounded [`state::Session`] against it, declaring an
//! upper bound on usage; the provider meters usage against that bound; either
//! party settles the session, producing an immutable
//! [`state::SettlementProof`], or the agent cancels it while unused.
//!
//! Every operation is a pure, atomic state transition on the two record
//! types. The surrounding substrate — the keyed store that enforces slug and
//! session-key uniqueness, the signer verification that establishes which
//! identity is calling, the trusted clock, and the relay that carries a
//! settlement proof across a trust boundary — is the caller's business: each
//! operation takes the caller's identity and the current time as plain
//! arguments and returns the changed records.

pub mod cancel;
pub mod errors;
pub mod laws;
pub mod ledger;
pub mod meter;
pub mod registry;
pub mod settlement;
pub mod state;
