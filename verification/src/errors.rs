//! The error taxonomy of the issuance operations.

use vstd::prelude::*;

verus! {

/// Everything an issuance operation can fail with. Each operation detects
/// its error before any mutation, so a failed call leaves every record
/// unchanged.
#[derive(Clone, Copy, Debug, PartialEq, Eq, Structural)]
pub enum ParchiError {
    /// The caller is not the identity this record answers to.
    Unauthorized,
    /// No event exists under the given sequence id.
    EventNotFound,
    /// The event has already issued as many tickets as its capacity allows.
    MaxTicketsReached,
    /// The requested tier is not available.
    InvalidTier,
    /// The ticket was already marked claimed.
    TicketAlreadyUsed,
    /// No ticket exists under the given (event, holder) key.
    InvalidTicket,
    /// Ticket usage could not be verified.
    TicketVerificationFailed,
    /// The event's scheduled time has already passed.
    EventExpired,
    /// A field update would break a record invariant.
    InvalidInput,
    /// The event name exceeds the permitted length.
    NameTooLong,
    /// The metadata pointer exceeds the permitted length.
    UriTooLong,
    /// Incrementing the event sequence counter would wrap.
    Overflow,
    /// A ticket already exists for this (event, holder) pair.
    DuplicateTicket,
    /// The registry was already initialized for this protocol instance.
    AlreadyInitialized,
    /// A checked arithmetic operation overflowed.
    MathOverflow,
}

impl ParchiError {
    /// Human-readable description of the error.
    pub fn message(&self) -> (r: &'static str)
        ensures
            r@ == match *self {
                ParchiError::Unauthorized => "You are not authorized to perform this action."@,
                ParchiError::EventNotFound => "Event not found."@,
                ParchiError::MaxTicketsReached => "Maximum tickets already minted."@,
                ParchiError::InvalidTier => "Invalid ticket tier."@,
                ParchiError::TicketAlreadyUsed => "Ticket already marked as used."@,
                ParchiError::InvalidTicket => "Ticket not found or does not belong to this event."@,
                ParchiError::TicketVerificationFailed => "Ticket usage verification failed."@,
                ParchiError::EventExpired => "Cannot mint tickets for past events."@,
                ParchiError::InvalidInput => "Invalid input."@,
                ParchiError::NameTooLong => "Event name too long."@,
                ParchiError::UriTooLong => "Metadata URI too long."@,
                ParchiError::Overflow => "Overflow while incrementing event ID."@,
                ParchiError::DuplicateTicket => "A ticket already exists for this event and holder."@,
                ParchiError::AlreadyInitialized => "Registry already initialized."@,
                ParchiError::MathOverflow => "Math operation overflowed."@,
            },
    {
        match self {
            ParchiError::Unauthorized => "You are not authorized to perform this action.",
            ParchiError::EventNotFound => "Event not found.",
            ParchiError::MaxTicketsReached => "Maximum tickets already minted.",
            ParchiError::InvalidTier => "Invalid ticket tier.",
            ParchiError::TicketAlreadyUsed => "Ticket already marked as used.",
            ParchiError::InvalidTicket => "Ticket not found or does not belong to this event.",
            ParchiError::TicketVerificationFailed => "Ticket usage verification failed.",
            ParchiError::EventExpired => "Cannot mint tickets for past events.",
            ParchiError::InvalidInput => "Invalid input.",
            ParchiError::NameTooLong => "Event name too long.",
            ParchiError::UriTooLong => "Metadata URI too long.",
            ParchiError::Overflow => "Overflow while incrementing event ID.",
            ParchiError::DuplicateTicket => "A ticket already exists for this event and holder.",
            ParchiError::AlreadyInitialized => "Registry already initialized.",
            ParchiError::MathOverflow => "Math operation overflowed.",
        }
    }
}

} // verus!
