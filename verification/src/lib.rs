//! Capacity-limited, uniquely-keyed ticket issuance.
//!
//! Organizers register events with a capacity and metadata; holders are
//! issued tickets bound to an event, and a ticket's status moves one way
//! from unclaimed to claimed. The host that persists these records, verifies
//! caller identities and supplies the clock is out of scope: every operation
//! here is a pure state transition over plain records, and identities and
//! times enter as plain values.

pub mod constants;
pub mod errors;
pub mod state;
pub mod instructions;
pub mod ledger;
