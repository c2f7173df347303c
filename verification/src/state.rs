//! The three record types: registry, event and ticket.
//!
//! Identities (protocol authority, organizer, holder) are opaque numeric
//! handles supplied by the host; the records only ever compare them for
//! equality. Names and metadata pointers are byte strings, since their
//! limits are byte counts.

use vstd::prelude::*;
use crate::constants::{EventTier, TicketStatus, MAX_EVENT_NAME_LEN, MAX_METADATA_URI_LEN};

verus! {

/// The global registry: the protocol authority and the sequence id the next
/// event will receive. There is one registry per protocol instance and it is
/// never destroyed.
#[derive(Clone, Copy, Debug, PartialEq, Eq, Structural)]
pub struct GlobalState {
    /// Protocol-level owner identity.
    pub authority: u64,
    /// Sequence id assigned to the next event; strictly increases, never reused.
    pub last_event_id: u64,
}

/// A single event created by an organizer.
#[derive(Debug)]
pub struct Event {
    /// Identity of the organizer that created the event.
    pub authority: u64,
    /// Globally unique sequence id, immutable after creation.
    pub event_id: u64,
    /// Event title, at most `MAX_EVENT_NAME_LEN` bytes.
    pub name: Vec<u8>,
    /// Access tier.
    pub tier: EventTier,
    /// Scheduled time, as a host-supplied clock value.
    pub timestamp: i64,
    /// Capacity: the most tickets this event may ever issue.
    pub max_tickets: u32,
    /// Tickets issued so far; never exceeds `max_tickets`.
    pub minted_count: u32,
    /// Metadata pointer, at most `MAX_METADATA_URI_LEN` bytes.
    pub uri: Vec<u8>,
}

/// A ticket: the unique binding of an event to a holder.
#[derive(Clone, Copy, Debug, PartialEq, Eq, Structural)]
pub struct Ticket {
    /// Sequence id of the event this ticket belongs to.
    pub event: u64,
    /// Identity of the holder the ticket was issued to.
    pub owner: u64,
    /// Two-state status; moves from `Unclaimed` to `Claimed` at most once.
    pub status: TicketStatus,
}

impl Event {
    /// Record invariant: the variable-length fields respect their limits and
    /// the issued count stays within capacity.
    pub open spec fn wf(&self) -> bool {
        &&& self.name@.len() <= MAX_EVENT_NAME_LEN
        &&& self.uri@.len() <= MAX_METADATA_URI_LEN
        &&& self.minted_count <= self.max_tickets
    }

    /// Number of tickets still available for issuance; zero when the issued
    /// count has somehow outrun the capacity.
    pub fn remaining_tickets(&self) -> (r: u32)
        ensures
            r as int == if self.minted_count <= self.max_tickets {
                self.max_tickets - self.minted_count
            } else {
                0
            },
    {
        if self.minted_count <= self.max_tickets {
            self.max_tickets - self.minted_count
        } else {
            0
        }
    }
}

} // verus!
