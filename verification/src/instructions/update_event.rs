//! Organizer-only updates to an event's mutable fields.

use vstd::prelude::*;
use crate::constants::{EventTier, MAX_METADATA_URI_LEN};
use crate::errors::ParchiError;
use crate::state::Event;

verus! {

/// The fields an organizer may change after creation; a `None` leaves the
/// field as it is. The name, sequence id, organizer and issued count are
/// immutable.
#[derive(Debug)]
pub struct UpdateEventArgs {
    /// Replacement metadata pointer, at most `MAX_METADATA_URI_LEN` bytes.
    pub uri: Option<Vec<u8>>,
    /// Replacement scheduled time.
    pub timestamp: Option<i64>,
    /// Replacement access tier.
    pub tier: Option<EventTier>,
    /// Replacement capacity; may not fall below the issued count.
    pub max_tickets: Option<u32>,
}

/// Applies `args` to `event` on behalf of `caller`. All requested changes
/// commit together or not at all.
///
/// Errors, in the order they are detected: `Unauthorized` when `caller` is
/// not the organizer, `UriTooLong` when a requested metadata pointer is over
/// `MAX_METADATA_URI_LEN` bytes, `InvalidInput` when a requested capacity is
/// below the issued count (which would break the capacity invariant).
pub fn handler(event: &mut Event, caller: u64, args: UpdateEventArgs) -> (r: Result<
    (),
    ParchiError,
>)
    ensures
        old(event).authority != caller ==> (r matches Err(e)
            && e == ParchiError::Unauthorized
            && *final(event) == *old(event)),
        old(event).authority == caller
            && (args.uri matches Some(u) && u@.len() > MAX_METADATA_URI_LEN) ==> (r matches Err(e)
            && e == ParchiError::UriTooLong
            && *final(event) == *old(event)),
        old(event).authority == caller
            && (args.uri matches Some(u) ==> u@.len() <= MAX_METADATA_URI_LEN)
            && (args.max_tickets matches Some(m) && m < old(event).minted_count)
            ==> (r matches Err(e)
            && e == ParchiError::InvalidInput
            && *final(event) == *old(event)),
        old(event).authority == caller
            && (args.uri matches Some(u) ==> u@.len() <= MAX_METADATA_URI_LEN)
            && (args.max_tickets matches Some(m) ==> m >= old(event).minted_count)
            ==> (r matches Ok(u)
            && final(event).uri@ == (match args.uri {
                Some(new_uri) => new_uri@,
                None => old(event).uri@,
            })
            && final(event).timestamp == (match args.timestamp {
                Some(new_ts) => new_ts,
                None => old(event).timestamp,
            })
            && final(event).tier == (match args.tier {
                Some(new_tier) => new_tier,
                None => old(event).tier,
            })
            && final(event).max_tickets == (match args.max_tickets {
                Some(new_max) => new_max,
                None => old(event).max_tickets,
            })
            && final(event).authority == old(event).authority
            && final(event).event_id == old(event).event_id
            && final(event).name@ == old(event).name@
            && final(event).minted_count == old(event).minted_count
            && (old(event).wf() ==> final(event).wf())),
{
    if event.authority != caller {
        return Err(ParchiError::Unauthorized);
    }
    if let Some(new_uri) = &args.uri {
        if new_uri.len() > MAX_METADATA_URI_LEN {
            return Err(ParchiError::UriTooLong);
        }
    }
    if let Some(new_max) = &args.max_tickets {
        if *new_max < event.minted_count {
            return Err(ParchiError::InvalidInput);
        }
    }
    if let Some(new_uri) = args.uri {
        event.uri = new_uri;
    }
    if let Some(new_ts) = args.timestamp {
        event.timestamp = new_ts;
    }
    if let Some(new_tier) = args.tier {
        event.tier = new_tier;
    }
    if let Some(new_max) = args.max_tickets {
        event.max_tickets = new_max;
    }
    Ok(())
}

} // verus!
