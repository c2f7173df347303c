//! The issuance state machine over the host's keyed store, modeled whole.
//!
//! The host persists one registry, events keyed by sequence id and tickets
//! keyed by (event, holder), serializes operations and guarantees key
//! uniqueness on creation. `Ledger` models exactly that store, so the
//! operations here are the full check-then-write transitions: each one
//! detects its error before any mutation and either commits all its effects
//! or none. The fields are private: a `Ledger` can only be built by
//! `init_global_state` and changed by the operations, all of which preserve
//! well-formedness.

use vstd::prelude::*;
use crate::constants::{EventTier, TicketStatus};
use crate::errors::ParchiError;
use crate::instructions;
use crate::instructions::update_event::UpdateEventArgs;
use crate::state::{Event, GlobalState, Ticket};

verus! {

/// Notification emitted when a ticket is issued, for external observers.
#[derive(Clone, Copy, Debug, PartialEq, Eq, Structural)]
pub struct TicketMinted {
    /// Identity of the holder the ticket went to.
    pub user: u64,
    /// Sequence id of the event the ticket belongs to.
    pub event: u64,
}

/// Number of tickets in `s` bound to the event with sequence id `event_id`.
pub open spec fn tickets_for(s: Seq<Ticket>, event_id: u64) -> nat
    decreases s.len(),
{
    if s.len() == 0 {
        0
    } else {
        tickets_for(s.drop_last(), event_id) + if s.last().event == event_id {
            1nat
        } else {
            0nat
        }
    }
}

/// Whether `s` holds a ticket under the key (`event_id`, `owner`).
pub open spec fn has_ticket(s: Seq<Ticket>, event_id: u64, owner: u64) -> bool {
    exists|k: int|
        0 <= k < s.len() && (#[trigger] s[k]).event == event_id && s[k].owner == owner
}

/// Position of the ticket under the key (`event_id`, `owner`); meaningful
/// only when `has_ticket` holds, and unique in a well-formed ledger.
pub open spec fn ticket_index(s: Seq<Ticket>, event_id: u64, owner: u64) -> int {
    choose|k: int|
        0 <= k < s.len() && (#[trigger] s[k]).event == event_id && s[k].owner == owner
}

/// The ticket stored under the key (`event_id`, `owner`); meaningful only
/// when `has_ticket` holds.
pub open spec fn ticket_record(s: Seq<Ticket>, event_id: u64, owner: u64) -> Ticket {
    s[ticket_index(s, event_id, owner)]
}

proof fn lemma_tickets_for_push(s: Seq<Ticket>, t: Ticket, event_id: u64)
    ensures
        tickets_for(s.push(t), event_id) == tickets_for(s, event_id) + if t.event == event_id {
            1nat
        } else {
            0nat
        },
{
    assert(s.push(t).drop_last() =~= s);
    assert(s.push(t).last() == t);
}

proof fn lemma_tickets_for_absent(s: Seq<Ticket>, event_id: u64)
    requires
        forall|k: int| 0 <= k < s.len() ==> (#[trigger] s[k]).event != event_id,
    ensures
        tickets_for(s, event_id) == 0,
    decreases s.len(),
{
    if s.len() > 0 {
        assert(forall|k: int|
            0 <= k < s.drop_last().len() ==> (#[trigger] s.drop_last()[k]).event != event_id);
        lemma_tickets_for_absent(s.drop_last(), event_id);
        assert(s.last().event != event_id);
    }
}

proof fn lemma_tickets_for_same_events(s1: Seq<Ticket>, s2: Seq<Ticket>, event_id: u64)
    requires
        s1.len() == s2.len(),
        forall|k: int| 0 <= k < s1.len() ==> (#[trigger] s1[k]).event == s2[k].event,
    ensures
        tickets_for(s1, event_id) == tickets_for(s2, event_id),
    decreases s1.len(),
{
    if s1.len() > 0 {
        assert(forall|k: int|
            0 <= k < s1.drop_last().len() ==> (#[trigger] s1.drop_last()[k]).event
                == s2.drop_last()[k].event);
        lemma_tickets_for_same_events(s1.drop_last(), s2.drop_last(), event_id);
        assert(s1.last().event == s2.last().event);
    }
}

/// Linear scan for the ticket stored under the key (`event_id`, `owner`),
/// mirroring the host store's keyed lookup.
fn find_ticket_index(tickets: &Vec<Ticket>, event_id: u64, owner: u64) -> (r: Option<usize>)
    ensures
        match r {
            Some(k) => k < tickets@.len() && tickets@[k as int].event == event_id
                && tickets@[k as int].owner == owner,
            None => !has_ticket(tickets@, event_id, owner),
        },
{
    let mut k: usize = 0;
    while k < tickets.len()
        invariant
            k <= tickets@.len(),
            forall|j: int|
                0 <= j < k ==> !((#[trigger] tickets@[j]).event == event_id
                    && tickets@[j].owner == owner),
        decreases tickets@.len() - k,
    {
        if tickets[k].event == event_id && tickets[k].owner == owner {
            return Some(k);
        }
        k = k + 1;
    }
    None
}

/// The whole protocol state: the registry and the two keyed collections the
/// host stores for it.
pub struct Ledger {
    global: GlobalState,
    events: Vec<Event>,
    tickets: Vec<Ticket>,
}

impl Ledger {
    /// Identity of the protocol authority.
    pub closed spec fn authority(&self) -> u64 {
        self.global.authority
    }

    /// Sequence id the next created event will receive.
    pub closed spec fn next_event_id(&self) -> u64 {
        self.global.last_event_id
    }

    /// The event records, in creation order; the record at position `i` has
    /// sequence id `i`.
    pub closed spec fn events(&self) -> Seq<Event> {
        self.events@
    }

    /// The ticket records, in issuance order.
    pub closed spec fn tickets(&self) -> Seq<Ticket> {
        self.tickets@
    }

    /// Well-formedness: the counter agrees with the number of events, every
    /// event sits at the position of its sequence id and respects its record
    /// invariant, every event's issued count is exactly the number of its
    /// tickets (and so never exceeds its capacity), every ticket points at
    /// an existing event, and no two tickets share an (event, holder) key.
    pub open spec fn wf(&self) -> bool {
        &&& self.next_event_id() == self.events().len()
        &&& forall|i: int|
            0 <= i < self.events().len() ==> (#[trigger] self.events()[i]).event_id == i
        &&& forall|i: int| 0 <= i < self.events().len() ==> (#[trigger] self.events()[i]).wf()
        &&& forall|i: int|
            0 <= i < self.events().len() ==> tickets_for(
                self.tickets(),
                (#[trigger] self.events()[i]).event_id,
            ) == self.events()[i].minted_count
        &&& forall|k: int|
            0 <= k < self.tickets().len() ==> (#[trigger] self.tickets()[k]).event
                < self.events().len()
        &&& forall|k: int, l: int|
            0 <= k < l < self.tickets().len() ==> !((#[trigger] self.tickets()[k]).event
                == (#[trigger] self.tickets()[l]).event && self.tickets()[k].owner
                == self.tickets()[l].owner)
    }

    /// Nothing observable changed between `pre` and `post`; every failing
    /// operation guarantees this.
    pub open spec fn unchanged(pre: Ledger, post: Ledger) -> bool {
        &&& post.authority() == pre.authority()
        &&& post.next_event_id() == pre.next_event_id()
        &&& post.events() == pre.events()
        &&& post.tickets() == pre.tickets()
    }

    /// Bootstraps the protocol: the caller becomes the authority, the
    /// sequence counter starts at zero, and no event or ticket exists. The
    /// host guarantees this runs at most once per protocol instance.
    pub fn init_global_state(authority: u64) -> (l: Ledger)
        ensures
            l.wf(),
            l.authority() == authority,
            l.next_event_id() == 0,
            l.events() == Seq::<Event>::empty(),
            l.tickets() == Seq::<Ticket>::empty(),
    {
        Ledger {
            global: instructions::init_global_state::handler(authority),
            events: Vec::new(),
            tickets: Vec::new(),
        }
    }

    /// Creates an event for `authority` under the next sequence id and
    /// advances the counter; both effects commit together. Returns the new
    /// event's sequence id.
    ///
    /// Errors, in the order they are detected: `NameTooLong`, `UriTooLong`,
    /// `Overflow` when the sequence counter would wrap; on any error the
    /// ledger is unchanged.
    pub fn init_event(
        &mut self,
        authority: u64,
        name: Vec<u8>,
        tier: EventTier,
        timestamp: i64,
        max_tickets: u32,
        uri: Vec<u8>,
    ) -> (r: Result<u64, ParchiError>)
        requires
            old(self).wf(),
        ensures
            final(self).wf(),
            name@.len() > crate::constants::MAX_EVENT_NAME_LEN ==> (r matches Err(e)
                && e == ParchiError::NameTooLong
                && Ledger::unchanged(*old(self), *final(self))),
            name@.len() <= crate::constants::MAX_EVENT_NAME_LEN
                && uri@.len() > crate::constants::MAX_METADATA_URI_LEN ==> (r matches Err(e)
                && e == ParchiError::UriTooLong
                && Ledger::unchanged(*old(self), *final(self))),
            name@.len() <= crate::constants::MAX_EVENT_NAME_LEN
                && uri@.len() <= crate::constants::MAX_METADATA_URI_LEN
                && old(self).next_event_id() == u64::MAX ==> (r matches Err(e)
                && e == ParchiError::Overflow
                && Ledger::unchanged(*old(self), *final(self))),
            name@.len() <= crate::constants::MAX_EVENT_NAME_LEN
                && uri@.len() <= crate::constants::MAX_METADATA_URI_LEN
                && old(self).next_event_id() < u64::MAX ==> (r matches Ok(id)
                && id == old(self).next_event_id()
                && final(self).authority() == old(self).authority()
                && final(self).next_event_id() == old(self).next_event_id() + 1
                && final(self).tickets() == old(self).tickets()
                && final(self).events().len() == old(self).events().len() + 1
                && (forall|i: int|
                    0 <= i < old(self).events().len() ==> final(self).events()[i] == old(
                        self,
                    ).events()[i])
                && final(self).events().last().authority == authority
                && final(self).events().last().event_id == id
                && final(self).events().last().name@ == name@
                && final(self).events().last().tier == tier
                && final(self).events().last().timestamp == timestamp
                && final(self).events().last().max_tickets == max_tickets
                && final(self).events().last().minted_count == 0
                && final(self).events().last().uri@ == uri@),
    {
        let ghost pre_tickets = self.tickets@;
        match instructions::init_event::handler(
            &mut self.global,
            authority,
            name,
            tier,
            timestamp,
            max_tickets,
            uri,
        ) {
            Ok(event) => {
                let id = event.event_id;
                self.events.push(event);
                proof {
                    lemma_tickets_for_absent(pre_tickets, id);
                    assert forall|i: int| 0 <= i < self.events@.len() implies tickets_for(
                        self.tickets@,
                        (#[trigger] self.events@[i]).event_id,
                    ) == self.events@[i].minted_count by {
                        if i < self.events@.len() - 1 {
                            assert(self.events@[i] == old(self).events()[i]);
                        }
                    }
                }
                Ok(id)
            },
            Err(e) => Err(e),
        }
    }

    /// Issues a ticket to `user` on the event with sequence id `event_id`,
    /// given the host clock reading `now`. On success a ticket with status
    /// `Unclaimed` is created under the (event, holder) key, the event's
    /// issued count grows by one — both effects commit together — and the
    /// returned notification names the holder and the event. Tickets already
    /// issued are never touched.
    ///
    /// Errors, in the order they are detected: `EventNotFound`,
    /// `EventExpired` when the event's scheduled time lies before `now`,
    /// `MaxTicketsReached` when the issued count has reached the capacity,
    /// `DuplicateTicket` when a ticket already exists under (event, holder);
    /// on any error the ledger is unchanged.
    pub fn mint_ticket(&mut self, event_id: u64, user: u64, now: i64) -> (r: Result<
        TicketMinted,
        ParchiError,
    >)
        requires
            old(self).wf(),
        ensures
            final(self).wf(),
            forall|k: int|
                0 <= k < old(self).tickets().len() ==> final(self).tickets()[k] == old(
                    self,
                ).tickets()[k],
            event_id >= old(self).events().len() ==> (r matches Err(e)
                && e == ParchiError::EventNotFound
                && Ledger::unchanged(*old(self), *final(self))),
            event_id < old(self).events().len()
                && old(self).events()[event_id as int].timestamp < now ==> (r matches Err(e)
                && e == ParchiError::EventExpired
                && Ledger::unchanged(*old(self), *final(self))),
            event_id < old(self).events().len()
                && old(self).events()[event_id as int].timestamp >= now
                && old(self).events()[event_id as int].minted_count >= old(self).events()[event_id
                as int].max_tickets ==> (r matches Err(e)
                && e == ParchiError::MaxTicketsReached
                && Ledger::unchanged(*old(self), *final(self))),
            event_id < old(self).events().len()
                && old(self).events()[event_id as int].timestamp >= now
                && old(self).events()[event_id as int].minted_count < old(self).events()[event_id
                as int].max_tickets
                && has_ticket(old(self).tickets(), event_id, user) ==> (r matches Err(e)
                && e == ParchiError::DuplicateTicket
                && Ledger::unchanged(*old(self), *final(self))),
            event_id < old(self).events().len()
                && old(self).events()[event_id as int].timestamp >= now
                && old(self).events()[event_id as int].minted_count < old(self).events()[event_id
                as int].max_tickets
                && !has_ticket(old(self).tickets(), event_id, user) ==> (r matches Ok(n)
                && n == (TicketMinted { user, event: event_id })
                && final(self).tickets() == old(self).tickets().push(
                Ticket { event: event_id, owner: user, status: TicketStatus::Unclaimed },
            )
                && final(self).events().len() == old(self).events().len()
                && (forall|i: int|
                    0 <= i < old(self).events().len() && i != event_id ==> final(self).events()[i]
                        == old(self).events()[i])
                && final(self).events()[event_id as int].minted_count == old(self).events()[event_id
                as int].minted_count + 1
                && final(self).events()[event_id as int].authority == old(self).events()[event_id
                as int].authority
                && final(self).events()[event_id as int].event_id == old(self).events()[event_id
                as int].event_id
                && final(self).events()[event_id as int].name@ == old(self).events()[event_id
                as int].name@
                && final(self).events()[event_id as int].tier == old(self).events()[event_id
                as int].tier
                && final(self).events()[event_id as int].timestamp == old(self).events()[event_id
                as int].timestamp
                && final(self).events()[event_id as int].max_tickets == old(self).events()[event_id
                as int].max_tickets
                && final(self).events()[event_id as int].uri@ == old(self).events()[event_id
                as int].uri@
                && final(self).authority() == old(self).authority()
                && final(self).next_event_id() == old(self).next_event_id()),
    {
        if event_id >= self.events.len() as u64 {
            return Err(ParchiError::EventNotFound);
        }
        let idx = event_id as usize;
        if self.events[idx].timestamp < now {
            return Err(ParchiError::EventExpired);
        }
        if self.events[idx].minted_count >= self.events[idx].max_tickets {
            return Err(ParchiError::MaxTicketsReached);
        }
        if find_ticket_index(&self.tickets, event_id, user).is_some() {
            return Err(ParchiError::DuplicateTicket);
        }
        match instructions::mint_ticket::handler(&mut self.events[idx], user, now) {
            Ok(t) => {
                self.tickets.push(t);
                proof {
                    assert forall|i: int| 0 <= i < self.events@.len() implies tickets_for(
                        self.tickets@,
                        (#[trigger] self.events@[i]).event_id,
                    ) == self.events@[i].minted_count by {
                        lemma_tickets_for_push(old(self).tickets(), t, self.events@[i].event_id);
                        if i != event_id {
                            assert(self.events@[i] == old(self).events()[i]);
                        }
                    }
                }
                Ok(TicketMinted { user, event: event_id })
            },
            Err(e) => Err(e),
        }
    }

    /// Marks the ticket under (`event_id`, `owner`) claimed on behalf of
    /// `caller`. Only the ticket's holder may claim, and only once:
    /// `Claimed` is terminal, so a second claim always fails and leaves the
    /// ledger unchanged, and no operation ever moves a ticket back to
    /// `Unclaimed`.
    ///
    /// Errors, in the order they are detected: `InvalidTicket` when no
    /// ticket exists under the key, `Unauthorized` when `caller` is not the
    /// holder, `TicketAlreadyUsed` when the ticket is already claimed; on
    /// any error the ledger is unchanged.
    pub fn mark_ticket_claimed(&mut self, event_id: u64, owner: u64, caller: u64) -> (r: Result<
        (),
        ParchiError,
    >)
        requires
            old(self).wf(),
        ensures
            final(self).wf(),
            final(self).tickets().len() == old(self).tickets().len(),
            forall|k: int|
                0 <= k < old(self).tickets().len() && old(self).tickets()[k].status is Claimed
                    ==> (#[trigger] final(self).tickets()[k]).status is Claimed,
            !has_ticket(old(self).tickets(), event_id, owner) ==> (r matches Err(e)
                && e == ParchiError::InvalidTicket
                && Ledger::unchanged(*old(self), *final(self))),
            has_ticket(old(self).tickets(), event_id, owner) && caller != owner ==> (r matches Err(
                e,
            )
                && e == ParchiError::Unauthorized
                && Ledger::unchanged(*old(self), *final(self))),
            has_ticket(old(self).tickets(), event_id, owner) && caller == owner && ticket_record(
                old(self).tickets(),
                event_id,
                owner,
            ).status is Claimed ==> (r matches Err(e)
                && e == ParchiError::TicketAlreadyUsed
                && Ledger::unchanged(*old(self), *final(self))),
            has_ticket(old(self).tickets(), event_id, owner) && caller == owner && ticket_record(
                old(self).tickets(),
                event_id,
                owner,
            ).status is Unclaimed ==> (r matches Ok(u)
                && (forall|k: int|
                    0 <= k < old(self).tickets().len() ==> #[trigger] final(self).tickets()[k] == (
                    if old(self).tickets()[k].event == event_id && old(self).tickets()[k].owner
                        == owner {
                        Ticket { status: TicketStatus::Claimed, ..old(self).tickets()[k] }
                    } else {
                        old(self).tickets()[k]
                    }))
                && final(self).events() == old(self).events()
                && final(self).authority() == old(self).authority()
                && final(self).next_event_id() == old(self).next_event_id()),
    {
        match find_ticket_index(&self.tickets, event_id, owner) {
            None => Err(ParchiError::InvalidTicket),
            Some(k) => {
                proof {
                    let s = old(self).tickets();
                    assert(has_ticket(s, event_id, owner));
                    let ki = ticket_index(s, event_id, owner);
                    assert(0 <= ki < s.len() && s[ki].event == event_id && s[ki].owner == owner);
                    if ki < k as int {
                        assert(!(s[ki].event == s[k as int].event && s[ki].owner == s[
                            k as int].owner));
                    }
                    if (k as int) < ki {
                        assert(!(s[k as int].event == s[ki].event && s[k as int].owner
                            == s[ki].owner));
                    }
                    assert(ki == k as int);
                }
                let res = instructions::mark_ticket_claimed::handler(&mut self.tickets[k], caller);
                proof {
                    if res is Err {
                        assert(self.tickets@ =~= old(self).tickets());
                    }
                    assert forall|i: int| 0 <= i < self.events@.len() implies tickets_for(
                        self.tickets@,
                        (#[trigger] self.events@[i]).event_id,
                    ) == self.events@[i].minted_count by {
                        lemma_tickets_for_same_events(
                            old(self).tickets(),
                            self.tickets@,
                            self.events@[i].event_id,
                        );
                    }
                }
                res
            },
        }
    }

    /// Applies `args` to the event with sequence id `event_id` on behalf of
    /// `caller`, who must be the event's organizer. All requested changes
    /// commit together or not at all; the name, sequence id, organizer and
    /// issued count are immutable, and no ticket is touched.
    ///
    /// Errors, in the order they are detected: `EventNotFound`,
    /// `Unauthorized` when `caller` is not the organizer, `UriTooLong` when
    /// a requested metadata pointer is over `MAX_METADATA_URI_LEN` bytes,
    /// `InvalidInput` when a requested capacity is below the issued count;
    /// on any error the ledger is unchanged.
    pub fn update_event(&mut self, event_id: u64, caller: u64, args: UpdateEventArgs) -> (r: Result<
        (),
        ParchiError,
    >)
        requires
            old(self).wf(),
        ensures
            final(self).wf(),
            final(self).tickets() == old(self).tickets(),
            event_id >= old(self).events().len() ==> (r matches Err(e)
                && e == ParchiError::EventNotFound
                && Ledger::unchanged(*old(self), *final(self))),
            event_id < old(self).events().len()
                && old(self).events()[event_id as int].authority != caller ==> (r matches Err(e)
                && e == ParchiError::Unauthorized
                && Ledger::unchanged(*old(self), *final(self))),
            event_id < old(self).events().len()
                && old(self).events()[event_id as int].authority == caller
                && (args.uri matches Some(u) && u@.len() > crate::constants::MAX_METADATA_URI_LEN)
                ==> (r matches Err(e)
                && e == ParchiError::UriTooLong
                && Ledger::unchanged(*old(self), *final(self))),
            event_id < old(self).events().len()
                && old(self).events()[event_id as int].authority == caller
                && (args.uri matches Some(u) ==> u@.len() <= crate::constants::MAX_METADATA_URI_LEN)
                && (args.max_tickets matches Some(m) && m < old(self).events()[event_id
                as int].minted_count) ==> (r matches Err(e)
                && e == ParchiError::InvalidInput
                && Ledger::unchanged(*old(self), *final(self))),
            event_id < old(self).events().len()
                && old(self).events()[event_id as int].authority == caller
                && (args.uri matches Some(u) ==> u@.len() <= crate::constants::MAX_METADATA_URI_LEN)
                && (args.max_tickets matches Some(m) ==> m >= old(self).events()[event_id
                as int].minted_count) ==> (r matches Ok(u)
                && final(self).events().len() == old(self).events().len()
                && (forall|i: int|
                    0 <= i < old(self).events().len() && i != event_id ==> final(self).events()[i]
                        == old(self).events()[i])
                && final(self).events()[event_id as int].uri@ == (match args.uri {
                    Some(new_uri) => new_uri@,
                    None => old(self).events()[event_id as int].uri@,
                })
                && final(self).events()[event_id as int].timestamp == (match args.timestamp {
                    Some(new_ts) => new_ts,
                    None => old(self).events()[event_id as int].timestamp,
                })
                && final(self).events()[event_id as int].tier == (match args.tier {
                    Some(new_tier) => new_tier,
                    None => old(self).events()[event_id as int].tier,
                })
                && final(self).events()[event_id as int].max_tickets == (match args.max_tickets {
                    Some(new_max) => new_max,
                    None => old(self).events()[event_id as int].max_tickets,
                })
                && final(self).events()[event_id as int].authority == old(self).events()[event_id
                as int].authority
                && final(self).events()[event_id as int].event_id == old(self).events()[event_id
                as int].event_id
                && final(self).events()[event_id as int].name@ == old(self).events()[event_id
                as int].name@
                && final(self).events()[event_id as int].minted_count == old(self).events()[event_id
                as int].minted_count
                && final(self).authority() == old(self).authority()
                && final(self).next_event_id() == old(self).next_event_id()),
    {
        if event_id >= self.events.len() as u64 {
            return Err(ParchiError::EventNotFound);
        }
        let idx = event_id as usize;
        let res = instructions::update_event::handler(&mut self.events[idx], caller, args);
        proof {
            assert forall|i: int| 0 <= i < self.events@.len() implies tickets_for(
                self.tickets@,
                (#[trigger] self.events@[i]).event_id,
            ) == self.events@[i].minted_count by {
                assert(self.events@[i].event_id == old(self).events()[i].event_id);
                assert(self.events@[i].minted_count == old(self).events()[i].minted_count);
            }
            if res is Err {
                assert(self.events@ =~= old(self).events());
            }
        }
        res
    }

    /// Copy of the registry record.
    pub fn global_state(&self) -> (g: GlobalState)
        ensures
            g.authority == self.authority(),
            g.last_event_id == self.next_event_id(),
    {
        self.global
    }

    /// Number of events created so far.
    pub fn event_count(&self) -> (n: usize)
        ensures
            n == self.events().len(),
    {
        self.events.len()
    }

    /// Number of tickets issued so far, over all events.
    pub fn ticket_count(&self) -> (n: usize)
        ensures
            n == self.tickets().len(),
    {
        self.tickets.len()
    }

    /// Looks up the event with sequence id `event_id`.
    pub fn get_event(&self, event_id: u64) -> (r: Option<&Event>)
        ensures
            match r {
                Some(e) => event_id < self.events().len() && *e == self.events()[event_id as int],
                None => event_id >= self.events().len(),
            },
    {
        if event_id >= self.events.len() as u64 {
            None
        } else {
            Some(&self.events[event_id as usize])
        }
    }

    /// Looks up the ticket under the key (`event_id`, `owner`).
    pub fn get_ticket(&self, event_id: u64, owner: u64) -> (r: Option<&Ticket>)
        requires
            self.wf(),
        ensures
            match r {
                Some(t) => has_ticket(self.tickets(), event_id, owner) && *t == ticket_record(
                    self.tickets(),
                    event_id,
                    owner,
                ),
                None => !has_ticket(self.tickets(), event_id, owner),
            },
    {
        match find_ticket_index(&self.tickets, event_id, owner) {
            None => None,
            Some(k) => {
                proof {
                    let s = self.tickets@;
                    assert(has_ticket(s, event_id, owner));
                    let ki = ticket_index(s, event_id, owner);
                    assert(0 <= ki < s.len() && s[ki].event == event_id && s[ki].owner == owner);
                    if ki < k as int {
                        assert(!(s[ki].event == s[k as int].event && s[ki].owner == s[
                            k as int].owner));
                    }
                    if (k as int) < ki {
                        assert(!(s[k as int].event == s[ki].event && s[k as int].owner
                            == s[ki].owner));
                    }
                }
                Some(&self.tickets[k])
            },
        }
    }
}

/// Capacity law: in a well-formed ledger — and every operation both requires
/// and re-establishes well-formedness — an event's issued count is exactly
/// the number of tickets bound to it and never exceeds its capacity, after
/// any sequence of operations.
pub proof fn lemma_issued_count_within_capacity(l: Ledger, i: int)
    requires
        l.wf(),
        0 <= i < l.events().len(),
    ensures
        l.events()[i].minted_count <= l.events()[i].max_tickets,
        tickets_for(l.tickets(), l.events()[i].event_id) == l.events()[i].minted_count,
{
    assert(l.events()[i].wf());
}

/// Uniqueness law: in a well-formed ledger at most one ticket exists per
/// (event, holder) pair — any two positions holding the same key are the
/// same position.
pub proof fn lemma_at_most_one_ticket(l: Ledger, j: int, k: int)
    requires
        l.wf(),
        0 <= j < l.tickets().len(),
        0 <= k < l.tickets().len(),
        l.tickets()[j].event == l.tickets()[k].event,
        l.tickets()[j].owner == l.tickets()[k].owner,
    ensures
        j == k,
{
    if j != k {
        let a = if j < k {
            j
        } else {
            k
        };
        let b = if j < k {
            k
        } else {
            j
        };
        assert(!(l.tickets()[a].event == l.tickets()[b].event && l.tickets()[a].owner
            == l.tickets()[b].owner));
    }
}

/// Sequence-id law: in a well-formed ledger event sequence ids strictly
/// increase in creation order, so no id is ever repeated across event
/// creations.
pub proof fn lemma_event_ids_strictly_increasing(l: Ledger, i: int, j: int)
    requires
        l.wf(),
        0 <= i < j < l.events().len(),
    ensures
        l.events()[i].event_id < l.events()[j].event_id,
{
    assert(l.events()[i].event_id == i);
    assert(l.events()[j].event_id == j);
}

} // verus!
