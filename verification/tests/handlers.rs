//! Unit tests against the per-record transition handlers.

use parchi::constants::{EventTier, TicketStatus};
use parchi::errors::ParchiError;
use parchi::instructions::update_event::UpdateEventArgs;
use parchi::instructions::{init_event, init_global_state, mark_ticket_claimed, mint_ticket, update_event};
use parchi::state::{Event, GlobalState, Ticket};

fn sample_event() -> Event {
    Event {
        authority: 7,
        event_id: 3,
        name: b"launch".to_vec(),
        tier: EventTier::Standard,
        timestamp: 100,
        max_tickets: 2,
        minted_count: 0,
        uri: b"ipfs://meta".to_vec(),
    }
}

#[test]
fn registry_bootstrap_sets_authority_and_zero_counter() {
    let g = init_global_state::handler(55);
    assert_eq!(g.authority, 55);
    assert_eq!(g.last_event_id, 0);
}

#[test]
fn event_creation_fills_record_and_bumps_counter() {
    let mut g = GlobalState { authority: 55, last_event_id: 4 };
    let e = init_event::handler(
        &mut g,
        7,
        b"launch".to_vec(),
        EventTier::VIP,
        123,
        10,
        b"ipfs://x".to_vec(),
    )
    .expect("creation succeeds");
    assert_eq!(e.authority, 7);
    assert_eq!(e.event_id, 4);
    assert_eq!(e.name, b"launch".to_vec());
    assert_eq!(e.tier, EventTier::VIP);
    assert_eq!(e.timestamp, 123);
    assert_eq!(e.max_tickets, 10);
    assert_eq!(e.minted_count, 0);
    assert_eq!(e.uri, b"ipfs://x".to_vec());
    assert_eq!(g.last_event_id, 5);
    assert_eq!(g.authority, 55);
}

#[test]
fn event_creation_rejects_overlong_name() {
    let mut g = GlobalState { authority: 55, last_event_id: 4 };
    let r = init_event::handler(
        &mut g,
        7,
        vec![b'n'; 65],
        EventTier::Standard,
        123,
        10,
        Vec::new(),
    );
    assert!(matches!(r, Err(ParchiError::NameTooLong)));
    assert_eq!(g.last_event_id, 4);
}

#[test]
fn event_creation_rejects_overlong_uri() {
    let mut g = GlobalState { authority: 55, last_event_id: 4 };
    let r = init_event::handler(
        &mut g,
        7,
        b"launch".to_vec(),
        EventTier::Standard,
        123,
        10,
        vec![b'u'; 257],
    );
    assert!(matches!(r, Err(ParchiError::UriTooLong)));
    assert_eq!(g.last_event_id, 4);
}

#[test]
fn event_creation_rejects_counter_wraparound() {
    let mut g = GlobalState { authority: 55, last_event_id: u64::MAX };
    let r = init_event::handler(
        &mut g,
        7,
        b"launch".to_vec(),
        EventTier::Standard,
        123,
        10,
        Vec::new(),
    );
    assert!(matches!(r, Err(ParchiError::Overflow)));
    assert_eq!(g.last_event_id, u64::MAX);
}

#[test]
fn issuance_creates_unclaimed_ticket_and_increments_count() {
    let mut e = sample_event();
    let t = mint_ticket::handler(&mut e, 21, 50).expect("issuance succeeds");
    assert_eq!(t.event, 3);
    assert_eq!(t.owner, 21);
    assert_eq!(t.status, TicketStatus::Unclaimed);
    assert_eq!(e.minted_count, 1);
    assert_eq!(e.max_tickets, 2);
}

#[test]
fn issuance_rejects_expired_event() {
    let mut e = sample_event();
    let r = mint_ticket::handler(&mut e, 21, 101);
    assert!(matches!(r, Err(ParchiError::EventExpired)));
    assert_eq!(e.minted_count, 0);
}

#[test]
fn issuance_at_the_scheduled_instant_still_succeeds() {
    let mut e = sample_event();
    let r = mint_ticket::handler(&mut e, 21, 100);
    assert!(r.is_ok());
}

#[test]
fn issuance_rejects_sold_out_event() {
    let mut e = sample_event();
    e.minted_count = 2;
    let r = mint_ticket::handler(&mut e, 21, 50);
    assert!(matches!(r, Err(ParchiError::MaxTicketsReached)));
    assert_eq!(e.minted_count, 2);
}

#[test]
fn claim_flips_status_once() {
    let mut t = Ticket { event: 3, owner: 21, status: TicketStatus::Unclaimed };
    assert_eq!(mark_ticket_claimed::handler(&mut t, 21), Ok(()));
    assert_eq!(t.status, TicketStatus::Claimed);
    let again = mark_ticket_claimed::handler(&mut t, 21);
    assert!(matches!(again, Err(ParchiError::TicketAlreadyUsed)));
    assert_eq!(t.status, TicketStatus::Claimed);
}

#[test]
fn claim_by_non_holder_is_rejected() {
    let mut t = Ticket { event: 3, owner: 21, status: TicketStatus::Unclaimed };
    let r = mark_ticket_claimed::handler(&mut t, 22);
    assert!(matches!(r, Err(ParchiError::Unauthorized)));
    assert_eq!(t.status, TicketStatus::Unclaimed);
}

#[test]
fn update_applies_only_requested_fields() {
    let mut e = sample_event();
    let r = update_event::handler(
        &mut e,
        7,
        UpdateEventArgs { uri: None, timestamp: Some(777), tier: None, max_tickets: None },
    );
    assert_eq!(r, Ok(()));
    assert_eq!(e.timestamp, 777);
    assert_eq!(e.tier, EventTier::Standard);
    assert_eq!(e.uri, b"ipfs://meta".to_vec());
    assert_eq!(e.max_tickets, 2);
}

#[test]
fn update_by_non_organizer_is_rejected() {
    let mut e = sample_event();
    let r = update_event::handler(
        &mut e,
        8,
        UpdateEventArgs { uri: None, timestamp: Some(777), tier: None, max_tickets: None },
    );
    assert!(matches!(r, Err(ParchiError::Unauthorized)));
    assert_eq!(e.timestamp, 100);
}

#[test]
fn update_rejects_overlong_uri() {
    let mut e = sample_event();
    let r = update_event::handler(
        &mut e,
        7,
        UpdateEventArgs { uri: Some(vec![b'u'; 257]), timestamp: None, tier: None, max_tickets: None },
    );
    assert!(matches!(r, Err(ParchiError::UriTooLong)));
    assert_eq!(e.uri, b"ipfs://meta".to_vec());
}

#[test]
fn update_rejects_capacity_below_issued_count() {
    let mut e = sample_event();
    e.minted_count = 2;
    let r = update_event::handler(
        &mut e,
        7,
        UpdateEventArgs { uri: None, timestamp: None, tier: None, max_tickets: Some(1) },
    );
    assert!(matches!(r, Err(ParchiError::InvalidInput)));
    assert_eq!(e.max_tickets, 2);
}

#[test]
fn remaining_tickets_saturates_at_zero() {
    let mut e = sample_event();
    assert_eq!(e.remaining_tickets(), 2);
    e.minted_count = 1;
    assert_eq!(e.remaining_tickets(), 1);
    e.minted_count = 5;
    assert_eq!(e.remaining_tickets(), 0);
}

#[test]
fn tier_names() {
    assert_eq!(EventTier::Standard.as_str(), "Standard");
    assert_eq!(EventTier::VIP.as_str(), "VIP");
    assert_eq!(EventTier::Premium.as_str(), "Premium");
}

#[test]
fn error_messages() {
    assert_eq!(ParchiError::Unauthorized.message(), "You are not authorized to perform this action.");
    assert_eq!(ParchiError::NameTooLong.message(), "Event name too long.");
    assert_eq!(ParchiError::UriTooLong.message(), "Metadata URI too long.");
    assert_eq!(ParchiError::MaxTicketsReached.message(), "Maximum tickets already minted.");
    assert_eq!(ParchiError::TicketAlreadyUsed.message(), "Ticket already marked as used.");
    assert_eq!(ParchiError::EventExpired.message(), "Cannot mint tickets for past events.");
    assert_eq!(ParchiError::Overflow.message(), "Overflow while incrementing event ID.");
    assert_eq!(
        ParchiError::DuplicateTicket.message(),
        "A ticket already exists for this event and holder."
    );
}
