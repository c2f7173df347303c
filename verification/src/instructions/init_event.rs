//! Event creation.

use vstd::prelude::*;
use crate::constants::{EventTier, MAX_EVENT_NAME_LEN, MAX_METADATA_URI_LEN};
use crate::errors::ParchiError;
use crate::state::{Event, GlobalState};

verus! {

/// Creates an event for `authority` and advances the registry's sequence
/// counter; the two effects are atomic, so on any error the registry is
/// unchanged and no event exists.
///
/// Errors, in the order they are detected: `NameTooLong` when the name is
/// over `MAX_EVENT_NAME_LEN` bytes, `UriTooLong` when the metadata pointer
/// is over `MAX_METADATA_URI_LEN` bytes, `Overflow` when the sequence
/// counter would wrap.
pub fn handler(
    global_state: &mut GlobalState,
    authority: u64,
    name: Vec<u8>,
    tier: EventTier,
    timestamp: i64,
    max_tickets: u32,
    uri: Vec<u8>,
) -> (r: Result<Event, ParchiError>)
    ensures
        name@.len() > MAX_EVENT_NAME_LEN ==> (r matches Err(e)
            && e == ParchiError::NameTooLong
            && *final(global_state) == *old(global_state)),
        name@.len() <= MAX_EVENT_NAME_LEN && uri@.len() > MAX_METADATA_URI_LEN ==> (r matches Err(e)
            && e == ParchiError::UriTooLong
            && *final(global_state) == *old(global_state)),
        name@.len() <= MAX_EVENT_NAME_LEN && uri@.len() <= MAX_METADATA_URI_LEN
            && old(global_state).last_event_id == u64::MAX ==> (r matches Err(e)
            && e == ParchiError::Overflow
            && *final(global_state) == *old(global_state)),
        name@.len() <= MAX_EVENT_NAME_LEN && uri@.len() <= MAX_METADATA_URI_LEN
            && old(global_state).last_event_id < u64::MAX ==> (r matches Ok(event)
            && event.authority == authority
            && event.event_id == old(global_state).last_event_id
            && event.name@ == name@
            && event.tier == tier
            && event.timestamp == timestamp
            && event.max_tickets == max_tickets
            && event.minted_count == 0
            && event.uri@ == uri@
            && event.wf()
            && final(global_state).authority == old(global_state).authority
            && final(global_state).last_event_id == old(global_state).last_event_id + 1),
{
    if name.len() > MAX_EVENT_NAME_LEN {
        return Err(ParchiError::NameTooLong);
    }
    if uri.len() > MAX_METADATA_URI_LEN {
        return Err(ParchiError::UriTooLong);
    }
    if global_state.last_event_id == u64::MAX {
        return Err(ParchiError::Overflow);
    }
    let event = Event {
        authority,
        event_id: global_state.last_event_id,
        name,
        tier,
        timestamp,
        max_tickets,
        minted_count: 0,
        uri,
    };
    global_state.last_event_id = global_state.last_event_id + 1;
    Ok(event)
}

} // verus!
