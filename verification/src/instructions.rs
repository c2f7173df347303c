//! Per-record state transitions, one module per operation.
//!
//! Each handler works on the records it touches and on plain values the host
//! has already resolved (caller identity, clock reading). Every handler
//! detects its error before mutating anything, so an `Err` result always
//! leaves the records exactly as they were.

pub mod init_global_state;
pub mod init_event;
pub mod mint_ticket;
pub mod mark_ticket_claimed;
pub mod update_event;
