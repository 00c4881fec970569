//! The records, notices and errors of the multi-raffle contract.

use vstd::prelude::*;
use crate::address::Address;
use crate::pagination::PaginationMeta;

verus! {

/// A raffle: its terms, fixed at creation, and its changing state.
#[derive(Debug, PartialEq, Eq)]
pub struct Raffle {
    /// Assigned at creation: 0, 1, 2, ... in the order of creation.
    pub id: u64,
    pub creator: Address,
    pub description: String,
    /// Ledger time at which the sale ends; 0 for no deadline.
    pub end_time: u64,
    pub max_tickets: u32,
    /// Whether one buyer may hold more than one ticket.
    pub allow_multiple: bool,
    pub ticket_price: i128,
    pub payment_token: Address,
    pub prize_amount: i128,
    pub tickets_sold: u32,
    /// On sale: not yet finalized.
    pub is_active: bool,
    pub prize_deposited: bool,
    pub prize_claimed: bool,
    pub winner: Option<Address>,
}

impl Clone for Raffle {
    fn clone(&self) -> (r: Self)
        ensures
            r == *self,
    {
        Raffle {
            id: self.id,
            creator: self.creator,
            description: self.description.clone(),
            end_time: self.end_time,
            max_tickets: self.max_tickets,
            allow_multiple: self.allow_multiple,
            ticket_price: self.ticket_price,
            payment_token: self.payment_token,
            prize_amount: self.prize_amount,
            tickets_sold: self.tickets_sold,
            is_active: self.is_active,
            prize_deposited: self.prize_deposited,
            prize_claimed: self.prize_claimed,
            winner: self.winner,
        }
    }
}

/// Where a raffle stands, read off its flags.
#[derive(Clone, Copy, Debug, PartialEq, Eq, Structural)]
pub enum RaffleStatus {
    Active,
    Finalized,
    Claimed,
}

/// The sales figures of a raffle.
#[derive(Clone, Copy, Debug, PartialEq, Eq, Structural)]
pub struct RaffleStats {
    pub tickets_sold: u32,
    pub max_tickets: u32,
    pub tickets_remaining: u32,
    /// Ticket price times tickets sold.
    pub total_revenue: i128,
}

/// A raffle together with its sales figures.
#[derive(Debug, PartialEq, Eq)]
pub struct RaffleWithStats {
    pub raffle: Raffle,
    pub stats: RaffleStats,
}

/// One ticket of one raffle.
#[derive(Clone, Copy, Debug, PartialEq, Eq, Structural)]
pub struct Ticket {
    /// Sequential within the raffle, starting at 1.
    pub id: u32,
    pub raffle_id: u64,
    pub buyer: Address,
    pub purchase_time: u64,
    /// Position within the raffle, starting at 1.
    pub ticket_number: u32,
}

// Events

/// The winner took the prize.
#[derive(Clone, Copy, Debug, PartialEq, Eq, Structural)]
pub struct PrizeClaimed {
    pub raffle_id: u64,
    pub winner: Address,
    pub gross_amount: i128,
    pub net_amount: i128,
    pub platform_fee: i128,
    pub claimed_at: u64,
}

/// A raffle was created.
#[derive(Clone, Debug, PartialEq, Eq)]
pub struct RaffleCreated {
    pub raffle_id: u64,
    pub creator: Address,
    pub end_time: u64,
    pub max_tickets: u32,
    pub ticket_price: i128,
    pub payment_token: Address,
    pub description: String,
}

/// The winner of a raffle was fixed.
#[derive(Clone, Debug, PartialEq, Eq)]
pub struct RaffleFinalized {
    pub raffle_id: u64,
    pub winner: Address,
    /// Position of the winning entry in the draw pool, counted from 0.
    pub winning_ticket_id: u32,
    pub total_tickets_sold: u32,
    /// What the caller named as the source of the randomness.
    pub randomness_source: String,
    pub finalized_at: u64,
}

/// A buyer bought one or more tickets in one purchase.
#[derive(Clone, Debug, PartialEq, Eq)]
pub struct TicketPurchased {
    pub raffle_id: u64,
    pub buyer: Address,
    pub ticket_ids: Vec<u32>,
    pub quantity: u32,
    pub total_paid: i128,
    pub timestamp: u64,
}

/// A notice that the contract publishes.
#[derive(Clone, Debug, PartialEq, Eq)]
pub enum Event {
    PrizeClaimed(PrizeClaimed),
    RaffleCreated(RaffleCreated),
    RaffleFinalized(RaffleFinalized),
    TicketPurchased(TicketPurchased),
}

/// What an [`Event`] says, with the list of ticket ids as a sequence.
pub enum EventView {
    PrizeClaimed(PrizeClaimed),
    RaffleCreated(RaffleCreated),
    RaffleFinalized(RaffleFinalized),
    TicketPurchased {
        raffle_id: u64,
        buyer: Address,
        ticket_ids: Seq<u32>,
        quantity: u32,
        total_paid: i128,
        timestamp: u64,
    },
}

impl View for Event {
    type V = EventView;

    open spec fn view(&self) -> EventView {
        match *self {
            Event::PrizeClaimed(e) => EventView::PrizeClaimed(e),
            Event::RaffleCreated(e) => EventView::RaffleCreated(e),
            Event::RaffleFinalized(e) => EventView::RaffleFinalized(e),
            Event::TicketPurchased(e) => EventView::TicketPurchased {
                raffle_id: e.raffle_id,
                buyer: e.buyer,
                ticket_ids: e.ticket_ids@,
                quantity: e.quantity,
                total_paid: e.total_paid,
                timestamp: e.timestamp,
            },
        }
    }
}

/// What a run of events says, one by one.
pub open spec fn views(events: Seq<Event>) -> Seq<EventView> {
    Seq::new(events.len(), |i: int| events[i]@)
}

/// The first topic under which each kind of event is published.
pub open spec fn event_name(e: Event) -> Seq<char> {
    match e {
        Event::PrizeClaimed(_) => "PrizeClaimed"@,
        Event::RaffleCreated(_) => "RaffleCreated"@,
        Event::RaffleFinalized(_) => "RaffleFinalized"@,
        Event::TicketPurchased(_) => "TicketPurchased"@,
    }
}

impl Event {
    /// The two topics under which this event is published: the name of its
    /// kind, and the same second topic for all.
    pub fn topics(&self) -> (t: (&'static str, &'static str))
        ensures
            t.0@ == event_name(*self),
            t.1@ == "raffle_id"@,
    {
        match self {
            Event::PrizeClaimed(_) => ("PrizeClaimed", "raffle_id"),
            Event::RaffleCreated(_) => ("RaffleCreated", "raffle_id"),
            Event::RaffleFinalized(_) => ("RaffleFinalized", "raffle_id"),
            Event::TicketPurchased(_) => ("TicketPurchased", "raffle_id"),
        }
    }
}

// Errors

/// Why an invocation was refused.
#[derive(Clone, Copy, Debug, PartialEq, Eq, Structural, PartialOrd, Ord)]
pub enum Error {
    /// No raffle has the id.
    RaffleNotFound,
    /// The raffle is finalized.
    RaffleInactive,
    /// Every ticket is sold.
    TicketsSoldOut,
    /// The payment does not cover the price.
    InsufficientPayment,
    /// The invocation is not signed by whom it must be.
    NotAuthorized,
    /// The prize is not in escrow.
    PrizeNotDeposited,
    /// The prize was paid before. Kept for its number; a claim on a claimed
    /// raffle is an `InvalidStateTransition`.
    PrizeAlreadyClaimed,
    /// An argument is out of its range.
    InvalidParameters,
    /// The contract is paused.
    ContractPaused,
    /// Fewer tickets are left than were asked for.
    InsufficientTickets,
    /// The deadline of the sale has passed.
    RaffleEnded,
    /// The deadline of the sale is still ahead.
    RaffleStillRunning,
    /// There is nobody to draw from.
    NoTicketsSold,
    /// The raffle allows one ticket per buyer.
    MultipleTicketsNotAllowed,
    /// The prize is in escrow already.
    PrizeAlreadyDeposited,
    /// The claimant is not the winner.
    NotWinner,
    /// A sum or product does not fit.
    ArithmeticOverflow,
    /// The raffle is past the state that the call needs.
    InvalidStateTransition,
}

/// The stable number of each error: counted from 1 in declaration order, but
/// for the last, which has the number that it has on a raffle instance.
pub open spec fn error_code(e: Error) -> int {
    match e {
        Error::RaffleNotFound => 1,
        Error::RaffleInactive => 2,
        Error::TicketsSoldOut => 3,
        Error::InsufficientPayment => 4,
        Error::NotAuthorized => 5,
        Error::PrizeNotDeposited => 6,
        Error::PrizeAlreadyClaimed => 7,
        Error::InvalidParameters => 8,
        Error::ContractPaused => 9,
        Error::InsufficientTickets => 10,
        Error::RaffleEnded => 11,
        Error::RaffleStillRunning => 12,
        Error::NoTicketsSold => 13,
        Error::MultipleTicketsNotAllowed => 14,
        Error::PrizeAlreadyDeposited => 15,
        Error::NotWinner => 16,
        Error::ArithmeticOverflow => 17,
        Error::InvalidStateTransition => 20,
    }
}

impl Error {
    /// The stable number of this error.
    pub fn code(&self) -> (c: u32)
        ensures
            c == error_code(*self),
    {
        match self {
            Error::RaffleNotFound => 1,
            Error::RaffleInactive => 2,
            Error::TicketsSoldOut => 3,
            Error::InsufficientPayment => 4,
            Error::NotAuthorized => 5,
            Error::PrizeNotDeposited => 6,
            Error::PrizeAlreadyClaimed => 7,
            Error::InvalidParameters => 8,
            Error::ContractPaused => 9,
            Error::InsufficientTickets => 10,
            Error::RaffleEnded => 11,
            Error::RaffleStillRunning => 12,
            Error::NoTicketsSold => 13,
            Error::MultipleTicketsNotAllowed => 14,
            Error::PrizeAlreadyDeposited => 15,
            Error::NotWinner => 16,
            Error::ArithmeticOverflow => 17,
            Error::InvalidStateTransition => 20,
        }
    }
}

// Query results

/// A page of raffle ids.
#[derive(Clone, Debug, PartialEq, Eq)]
pub struct PaginatedRaffleIds {
    pub data: Vec<u64>,
    pub meta: PaginationMeta,
}

/// A page of ticket holders.
#[derive(Clone, Debug, PartialEq, Eq)]
pub struct PaginatedTickets {
    pub data: Vec<Address>,
    pub meta: PaginationMeta,
}

/// What one user did over a page of the raffles they took part in.
#[derive(Clone, Debug, PartialEq, Eq)]
pub struct UserParticipation {
    /// The raffles of the page, in the order in which the user joined them.
    pub raffle_ids: Vec<u64>,
    /// The user's tickets in each of them.
    pub ticket_counts: Vec<u32>,
    /// What the tickets cost together; saturates.
    pub total_spent: i128,
    pub win_count: u32,
    /// The prizes won together; saturates.
    pub total_winnings: i128,
}

// Sales figures and status

/// Whether the sales figures of a raffle cannot be given: more tickets sold
/// than on offer, or a revenue that does not fit.
pub open spec fn stats_overflow(r: Raffle) -> bool {
    r.tickets_sold > r.max_tickets || r.ticket_price * r.tickets_sold > i128::MAX || r.ticket_price
        * r.tickets_sold < i128::MIN
}

/// The sales figures of a raffle.
pub open spec fn stats_of(r: Raffle) -> RaffleStats {
    RaffleStats {
        tickets_sold: r.tickets_sold,
        max_tickets: r.max_tickets,
        tickets_remaining: (r.max_tickets - r.tickets_sold) as u32,
        total_revenue: (r.ticket_price * r.tickets_sold) as i128,
    }
}

/// Where a raffle stands: claimed once the prize is paid, else active while
/// on sale, else finalized.
pub open spec fn status_of(r: Raffle) -> RaffleStatus {
    if r.prize_claimed {
        RaffleStatus::Claimed
    } else if r.is_active {
        RaffleStatus::Active
    } else {
        RaffleStatus::Finalized
    }
}

/// The sales figures of a raffle, or `ArithmeticOverflow` where they do not
/// fit.
pub fn build_raffle_stats(raffle: &Raffle) -> (res: Result<RaffleStats, Error>)
    ensures
        match res {
            Ok(stats) => !stats_overflow(*raffle) && stats == stats_of(*raffle),
            Err(e) => stats_overflow(*raffle) && e == Error::ArithmeticOverflow,
        },
{
    let tickets_remaining = match raffle.max_tickets.checked_sub(raffle.tickets_sold) {
        Some(n) => n,
        None => {
            return Err(Error::ArithmeticOverflow);
        },
    };
    let total_revenue = match raffle.ticket_price.checked_mul(raffle.tickets_sold as i128) {
        Some(n) => n,
        None => {
            return Err(Error::ArithmeticOverflow);
        },
    };
    Ok(
        RaffleStats {
            tickets_sold: raffle.tickets_sold,
            max_tickets: raffle.max_tickets,
            tickets_remaining,
            total_revenue,
        },
    )
}

/// Where a raffle stands.
pub fn build_raffle_status(raffle: &Raffle) -> (status: RaffleStatus)
    ensures
        status == status_of(*raffle),
{
    if raffle.prize_claimed {
        return RaffleStatus::Claimed;
    }
    if raffle.is_active {
        return RaffleStatus::Active;
    }
    RaffleStatus::Finalized
}

} // verus!
