//! The one-way claim transition on a ticket.

use vstd::prelude::*;
use crate::constants::TicketStatus;
use crate::errors::ParchiError;
use crate::state::Ticket;

verus! {

/// Marks `ticket` claimed on behalf of `caller`. Only the ticket's holder
/// may claim, and only an `Unclaimed` ticket: `Claimed` is terminal, so a
/// second claim always fails and leaves the ticket unchanged.
///
/// Errors, in the order they are detected: `Unauthorized` when `caller` is
/// not the holder, `TicketAlreadyUsed` when the ticket is already claimed.
pub fn handler(ticket: &mut Ticket, caller: u64) -> (r: Result<(), ParchiError>)
    ensures
        old(ticket).owner != caller ==> (r matches Err(e)
            && e == ParchiError::Unauthorized
            && *final(ticket) == *old(ticket)),
        old(ticket).owner == caller && old(ticket).status is Claimed ==> (r matches Err(e)
            && e == ParchiError::TicketAlreadyUsed
            && *final(ticket) == *old(ticket)),
        old(ticket).owner == caller && old(ticket).status is Unclaimed ==> (r matches Ok(u)
            && *final(ticket) == (Ticket { status: TicketStatus::Claimed, ..*old(ticket) })),
{
    if ticket.owner != caller {
        return Err(ParchiError::Unauthorized);
    }
    if matches!(ticket.status, TicketStatus::Claimed) {
        return Err(ParchiError::TicketAlreadyUsed);
    }
    ticket.status = TicketStatus::Claimed;
    Ok(())
}

} // verus!
