//! The notices a raffle instance publishes. They are a record for observers
//! and are never read back by the contract.

use vstd::prelude::*;
use crate::address::Address;
use crate::instance::{RaffleStatus, RandomnessSource};

verus! {

// Lifecycle events

/// A new raffle was initialized.
#[derive(Clone, Debug, PartialEq, Eq)]
pub struct RaffleCreated {
    pub creator: Address,
    pub end_time: u64,
    pub max_tickets: u32,
    pub ticket_price: i128,
    pub payment_token: Address,
    pub prize_amount: i128,
    pub description: String,
    pub randomness_source: RandomnessSource,
}

/// The creator put the prize into escrow.
#[derive(Clone, Copy, Debug, PartialEq, Eq, Structural)]
pub struct PrizeDeposited {
    pub creator: Address,
    pub amount: i128,
    pub token: Address,
    pub timestamp: u64,
}

/// A buyer bought one or more tickets in one purchase.
#[derive(Clone, Debug, PartialEq, Eq)]
pub struct TicketPurchased {
    pub buyer: Address,
    pub ticket_ids: Vec<u32>,
    pub quantity: u32,
    pub total_paid: i128,
    pub timestamp: u64,
}

/// The draw was started.
#[derive(Clone, Copy, Debug, PartialEq, Eq, Structural)]
pub struct DrawTriggered {
    pub triggered_by: Address,
    pub total_tickets_sold: u32,
    pub timestamp: u64,
}

/// Randomness was asked of the oracle.
#[derive(Clone, Copy, Debug, PartialEq, Eq, Structural)]
pub struct RandomnessRequested {
    pub oracle: Address,
    pub timestamp: u64,
}

/// The oracle delivered its randomness.
#[derive(Clone, Copy, Debug, PartialEq, Eq, Structural)]
pub struct RandomnessReceived {
    pub oracle: Address,
    pub seed: u64,
    pub timestamp: u64,
}

/// The winner was fixed.
#[derive(Clone, Copy, Debug, PartialEq, Eq, Structural)]
pub struct RaffleFinalized {
    pub winner: Address,
    /// Position of the winning entry in the draw pool, counted from 0.
    pub winning_ticket_id: u32,
    pub total_tickets_sold: u32,
    pub randomness_source: RandomnessSource,
    pub finalized_at: u64,
}

/// The creator cancelled the raffle.
#[derive(Clone, Debug, PartialEq, Eq)]
pub struct RaffleCancelled {
    pub creator: Address,
    pub reason: String,
    pub tickets_sold: u32,
    pub timestamp: u64,
}

/// A ticket holder got the price of a ticket back.
#[derive(Clone, Copy, Debug, PartialEq, Eq, Structural)]
pub struct TicketRefunded {
    pub buyer: Address,
    pub ticket_id: u32,
    pub amount: i128,
    pub timestamp: u64,
}

/// The winner took the prize.
#[derive(Clone, Copy, Debug, PartialEq, Eq, Structural)]
pub struct PrizeClaimed {
    pub winner: Address,
    pub gross_amount: i128,
    pub net_amount: i128,
    pub platform_fee: i128,
    pub claimed_at: u64,
}

// Admin events

/// The oracle address was changed.
#[derive(Clone, Copy, Debug, PartialEq, Eq, Structural)]
pub struct OracleAddressUpdated {
    pub old_oracle: Option<Address>,
    pub new_oracle: Address,
    pub updated_by: Address,
    pub timestamp: u64,
}

/// The protocol fee was changed.
#[derive(Clone, Copy, Debug, PartialEq, Eq, Structural)]
pub struct FeeUpdated {
    pub old_fee_bp: u32,
    pub new_fee_bp: u32,
    pub updated_by: Address,
    pub timestamp: u64,
}

/// The treasury address was changed.
#[derive(Clone, Copy, Debug, PartialEq, Eq, Structural)]
pub struct TreasuryUpdated {
    pub old_treasury: Option<Address>,
    pub new_treasury: Address,
    pub updated_by: Address,
    pub timestamp: u64,
}

/// Collected fees were withdrawn.
#[derive(Clone, Copy, Debug, PartialEq, Eq, Structural)]
pub struct FeesWithdrawn {
    pub recipient: Address,
    pub amount: i128,
    pub token: Address,
    pub timestamp: u64,
}

/// The contract was paused.
#[derive(Clone, Copy, Debug, PartialEq, Eq, Structural)]
pub struct ContractPaused {
    pub paused_by: Address,
    pub timestamp: u64,
}

/// The contract was unpaused.
#[derive(Clone, Copy, Debug, PartialEq, Eq, Structural)]
pub struct ContractUnpaused {
    pub unpaused_by: Address,
    pub timestamp: u64,
}

/// A hand-over of the admin role was proposed.
#[derive(Clone, Copy, Debug, PartialEq, Eq, Structural)]
pub struct AdminTransferProposed {
    pub current_admin: Address,
    pub proposed_admin: Address,
    pub timestamp: u64,
}

/// A hand-over of the admin role was accepted.
#[derive(Clone, Copy, Debug, PartialEq, Eq, Structural)]
pub struct AdminTransferAccepted {
    pub old_admin: Address,
    pub new_admin: Address,
    pub timestamp: u64,
}

// Internal state change event

/// The raffle went from one status to another.
#[derive(Clone, Copy, Debug, PartialEq, Eq, Structural)]
pub struct StatusChanged {
    pub old_status: RaffleStatus,
    pub new_status: RaffleStatus,
    pub timestamp: u64,
}

/// A notice that a raffle instance publishes.
#[derive(Clone, Debug, PartialEq, Eq)]
pub enum Event {
    RaffleCreated(RaffleCreated),
    PrizeDeposited(PrizeDeposited),
    TicketPurchased(TicketPurchased),
    DrawTriggered(DrawTriggered),
    RandomnessRequested(RandomnessRequested),
    RandomnessReceived(RandomnessReceived),
    RaffleFinalized(RaffleFinalized),
    RaffleCancelled(RaffleCancelled),
    PrizeClaimed(PrizeClaimed),
    StatusChanged(StatusChanged),
}

/// What an [`Event`] says, with lists and texts as sequences.
pub enum EventView {
    RaffleCreated(RaffleCreated),
    PrizeDeposited(PrizeDeposited),
    TicketPurchased {
        buyer: Address,
        ticket_ids: Seq<u32>,
        quantity: u32,
        total_paid: i128,
        timestamp: u64,
    },
    DrawTriggered(DrawTriggered),
    RandomnessRequested(RandomnessRequested),
    RandomnessReceived(RandomnessReceived),
    RaffleFinalized(RaffleFinalized),
    RaffleCancelled { creator: Address, reason: Seq<char>, tickets_sold: u32, timestamp: u64 },
    PrizeClaimed(PrizeClaimed),
    StatusChanged(StatusChanged),
}

impl View for Event {
    type V = EventView;

    open spec fn view(&self) -> EventView {
        match *self {
            Event::RaffleCreated(e) => EventView::RaffleCreated(e),
            Event::PrizeDeposited(e) => EventView::PrizeDeposited(e),
            Event::TicketPurchased(e) => EventView::TicketPurchased {
                buyer: e.buyer,
                ticket_ids: e.ticket_ids@,
                quantity: e.quantity,
                total_paid: e.total_paid,
                timestamp: e.timestamp,
            },
            Event::DrawTriggered(e) => EventView::DrawTriggered(e),
            Event::RandomnessRequested(e) => EventView::RandomnessRequested(e),
            Event::RandomnessReceived(e) => EventView::RandomnessReceived(e),
            Event::RaffleFinalized(e) => EventView::RaffleFinalized(e),
            Event::RaffleCancelled(e) => EventView::RaffleCancelled {
                creator: e.creator,
                reason: e.reason@,
                tickets_sold: e.tickets_sold,
                timestamp: e.timestamp,
            },
            Event::PrizeClaimed(e) => EventView::PrizeClaimed(e),
            Event::StatusChanged(e) => EventView::StatusChanged(e),
        }
    }
}

/// What a run of events says, one by one.
pub open spec fn views(events: Seq<Event>) -> Seq<EventView> {
    Seq::new(events.len(), |i: int| events[i]@)
}

/// The name under which each kind of event is published.
pub open spec fn event_name(e: Event) -> Seq<char> {
    match e {
        Event::RaffleCreated(_) => "raffle_created"@,
        Event::PrizeDeposited(_) => "prize_deposited"@,
        Event::TicketPurchased(_) => "ticket_purchased"@,
        Event::DrawTriggered(_) => "draw_triggered"@,
        Event::RandomnessRequested(_) => "randomness_requested"@,
        Event::RandomnessReceived(_) => "randomness_received"@,
        Event::RaffleFinalized(_) => "raffle_finalized"@,
        Event::RaffleCancelled(_) => "raffle_cancelled"@,
        Event::PrizeClaimed(_) => "prize_claimed"@,
        Event::StatusChanged(_) => "status_changed"@,
    }
}

/// The namespace under which every event is published.
pub fn namespace() -> (n: &'static str)
    ensures
        n@ == "tikka"@,
{
    "tikka"
}

impl Event {
    /// The name under which this event is published, after the namespace.
    pub fn name(&self) -> (n: &'static str)
        ensures
            n@ == event_name(*self),
    {
        match self {
            Event::RaffleCreated(_) => "raffle_created",
            Event::PrizeDeposited(_) => "prize_deposited",
            Event::TicketPurchased(_) => "ticket_purchased",
            Event::DrawTriggered(_) => "draw_triggered",
            Event::RandomnessRequested(_) => "randomness_requested",
            Event::RandomnessReceived(_) => "randomness_received",
            Event::RaffleFinalized(_) => "raffle_finalized",
            Event::RaffleCancelled(_) => "raffle_cancelled",
            Event::PrizeClaimed(_) => "prize_claimed",
            Event::StatusChanged(_) => "status_changed",
        }
    }
}

} // verus!
