//! Ticket issuance against a single event record.

use vstd::prelude::*;
use crate::constants::TicketStatus;
use crate::errors::ParchiError;
use crate::state::{Event, Ticket};

verus! {

/// Issues a ticket on `event` to `user`, given the host clock reading `now`.
/// On success the ticket starts `Unclaimed` and the event's issued count
/// grows by one; only that one field of the event changes. On any error the
/// event is unchanged and no ticket exists.
///
/// Errors, in the order they are detected: `EventExpired` when the event's
/// scheduled time lies before `now`, `MaxTicketsReached` when the issued
/// count has reached the capacity. Uniqueness of the (event, holder) key is
/// the keyed store's concern, not this record transition's.
pub fn handler(event: &mut Event, user: u64, now: i64) -> (r: Result<Ticket, ParchiError>)
    ensures
        old(event).timestamp < now ==> (r matches Err(e)
            && e == ParchiError::EventExpired
            && *final(event) == *old(event)),
        old(event).timestamp >= now && old(event).minted_count >= old(event).max_tickets
            ==> (r matches Err(e)
            && e == ParchiError::MaxTicketsReached
            && *final(event) == *old(event)),
        old(event).timestamp >= now && old(event).minted_count < old(event).max_tickets
            ==> (r matches Ok(ticket)
            && ticket == (Ticket {
                event: old(event).event_id,
                owner: user,
                status: TicketStatus::Unclaimed,
            })
            && final(event).minted_count == old(event).minted_count + 1
            && final(event).authority == old(event).authority
            && final(event).event_id == old(event).event_id
            && final(event).name@ == old(event).name@
            && final(event).tier == old(event).tier
            && final(event).timestamp == old(event).timestamp
            && final(event).max_tickets == old(event).max_tickets
            && final(event).uri@ == old(event).uri@),
{
    if event.timestamp < now {
        return Err(ParchiError::EventExpired);
    }
    if event.minted_count >= event.max_tickets {
        return Err(ParchiError::MaxTicketsReached);
    }
    event.minted_count = event.minted_count + 1;
    Ok(Ticket { event: event.event_id, owner: user, status: TicketStatus::Unclaimed })
}

} // verus!
