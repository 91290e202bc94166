use vstd::prelude::*;

/// Participant identities and their comparison.
pub mod identity;
/// Properties that hold across requests, proved over the request specifications.
pub mod laws;
/// The ledger model: record slots, lamport balances, the event log, and transfers.
pub mod ledger;
/// The requests: configuration, registry lifecycle, and message relay.
pub mod messenger;
/// Stored records, the notification, and the error kinds.
pub mod state;
/// A table keyed by identity, viewed as a map.
pub mod table;

verus! {

/// Largest ciphertext, in bytes, that one message may carry.
pub const MAX_CIPHERTEXT_LEN: usize = 900;

} // verus!
