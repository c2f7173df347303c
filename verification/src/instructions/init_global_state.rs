//! Registry bootstrap.

use vstd::prelude::*;
use crate::state::GlobalState;

verus! {

/// Creates the global registry: the caller becomes the protocol authority
/// and the event sequence counter starts at zero. The host guarantees this
/// runs at most once per protocol instance.
pub fn handler(authority: u64) -> (g: GlobalState)
    ensures
        g.authority == authority,
        g.last_event_id == 0,
{
    GlobalState { authority, last_event_id: 0 }
}

} // verus!
