//! Size limits and the closed tier / status enumerations.

use vstd::prelude::*;

verus! {

/// Longest event name accepted, in bytes.
pub const MAX_EVENT_NAME_LEN: usize = 64;

/// Longest metadata pointer accepted, in bytes.
pub const MAX_METADATA_URI_LEN: usize = 256;

/// Access tier of an event, a closed set of variants.
#[derive(Clone, Copy, Debug, PartialEq, Eq, Structural)]
pub enum EventTier {
    Standard,
    VIP,
    Premium,
}

/// Status of a ticket: it starts `Unclaimed` and may move to `Claimed`
/// exactly once, never back.
#[derive(Clone, Copy, Debug, PartialEq, Eq, Structural)]
pub enum TicketStatus {
    Unclaimed,
    Claimed,
}

impl EventTier {
    /// Human-readable name of the tier.
    pub fn as_str(&self) -> (r: &'static str)
        ensures
            r@ == match *self {
                EventTier::Standard => "Standard"@,
                EventTier::VIP => "VIP"@,
                EventTier::Premium => "Premium"@,
            },
    {
        match self {
            EventTier::Standard => "Standard",
            EventTier::VIP => "VIP",
            EventTier::Premium => "Premium",
        }
    }
}

} // verus!
