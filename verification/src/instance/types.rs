//! The records and errors of a raffle instance.

use vstd::prelude::*;
use crate::address::Address;

verus! {

/// Where a raffle stands in its life.
#[derive(Clone, Copy, Debug, PartialEq, Eq, Structural)]
pub enum RaffleStatus {
    /// Created, prize not yet in escrow.
    Proposed,
    /// Prize in escrow, tickets on sale.
    Active,
    /// Sale closed, winner not yet fixed.
    Drawing,
    /// Winner fixed, prize not yet paid.
    Finalized,
    /// Prize paid.
    Claimed,
    /// Called off by the creator.
    Cancelled,
}

/// Where the randomness of the draw comes from.
#[derive(Clone, Copy, Debug, PartialEq, Eq, Structural)]
pub enum RandomnessSource {
    /// From the ledger's clock and sequence number. Predictable: a known
    /// weakness, kept as the default.
    Internal,
    /// From an oracle that answers in a later invocation.
    External,
}

/// The raffle: its terms, fixed at creation, and its changing state.
#[derive(Debug, PartialEq, Eq)]
pub struct Raffle {
    pub creator: Address,
    pub description: String,
    /// Ledger time at which the sale ends; 0 for no deadline.
    pub end_time: u64,
    pub max_tickets: u32,
    /// Whether one buyer may hold more than one ticket.
    pub allow_multiple: bool,
    pub ticket_price: i128,
    pub payment_token: Address,
    pub prize_amount: i128,
    pub tickets_sold: u32,
    pub status: RaffleStatus,
    pub prize_deposited: bool,
    pub winner: Option<Address>,
    pub randomness_source: RandomnessSource,
    pub oracle_address: Option<Address>,
    /// The protocol's share of the prize in basis points: 10000 is all of it.
    pub protocol_fee_bp: u32,
    pub treasury_address: Option<Address>,
}

impl Clone for Raffle {
    fn clone(&self) -> (r: Self)
        ensures
            r == *self,
    {
        Raffle {
            creator: self.creator,
            description: self.description.clone(),
            end_time: self.end_time,
            max_tickets: self.max_tickets,
            allow_multiple: self.allow_multiple,
            ticket_price: self.ticket_price,
            payment_token: self.payment_token,
            prize_amount: self.prize_amount,
            tickets_sold: self.tickets_sold,
            status: self.status,
            prize_deposited: self.prize_deposited,
            winner: self.winner,
            randomness_source: self.randomness_source,
            oracle_address: self.oracle_address,
            protocol_fee_bp: self.protocol_fee_bp,
            treasury_address: self.treasury_address,
        }
    }
}

/// The terms of a raffle as its creation takes them.
#[derive(Clone, Debug, PartialEq, Eq)]
pub struct RaffleConfig {
    pub description: String,
    pub end_time: u64,
    pub max_tickets: u32,
    pub allow_multiple: bool,
    pub ticket_price: i128,
    pub payment_token: Address,
    pub prize_amount: i128,
    pub randomness_source: RandomnessSource,
    pub oracle_address: Option<Address>,
    pub protocol_fee_bp: u32,
    pub treasury_address: Option<Address>,
}

/// Why an invocation was refused.
#[derive(Clone, Copy, Debug, PartialEq, Eq, Structural, PartialOrd, Ord)]
pub enum Error {
    RaffleNotFound,
    RaffleInactive,
    TicketsSoldOut,
    InsufficientPayment,
    NotAuthorized,
    PrizeNotDeposited,
    PrizeAlreadyClaimed,
    InvalidParameters,
    ContractPaused,
    InsufficientTickets,
    RaffleEnded,
    RaffleStillRunning,
    NoTicketsSold,
    MultipleTicketsNotAllowed,
    PrizeAlreadyDeposited,
    NotWinner,
    ArithmeticOverflow,
    AlreadyInitialized,
    NotInitialized,
    InvalidStateTransition,
}

/// The stable number of each error, counted from 1 in declaration order.
pub open spec fn error_code(e: Error) -> int {
    match e {
        Error::RaffleNotFound => 1,
        Error::RaffleInactive => 2,
        Error::TicketsSoldOut => 3,
        Error::InsufficientPayment => 4,
        Error::NotAuthorized => 5,
        Error::PrizeNotDeposited => 6,
        Error::PrizeAlreadyClaimed => 7,
        Error::InvalidParameters => 8,
        Error::ContractPaused => 9,
        Error::InsufficientTickets => 10,
        Error::RaffleEnded => 11,
        Error::RaffleStillRunning => 12,
        Error::NoTicketsSold => 13,
        Error::MultipleTicketsNotAllowed => 14,
        Error::PrizeAlreadyDeposited => 15,
        Error::NotWinner => 16,
        Error::ArithmeticOverflow => 17,
        Error::AlreadyInitialized => 18,
        Error::NotInitialized => 19,
        Error::InvalidStateTransition => 20,
    }
}

impl Error {
    /// The stable number of this error.
    pub fn code(&self) -> (c: u32)
        ensures
            c == error_code(*self),
    {
        match self {
            Error::RaffleNotFound => 1,
            Error::RaffleInactive => 2,
            Error::TicketsSoldOut => 3,
            Error::InsufficientPayment => 4,
            Error::NotAuthorized => 5,
            Error::PrizeNotDeposited => 6,
            Error::PrizeAlreadyClaimed => 7,
            Error::InvalidParameters => 8,
            Error::ContractPaused => 9,
            Error::InsufficientTickets => 10,
            Error::RaffleEnded => 11,
            Error::RaffleStillRunning => 12,
            Error::NoTicketsSold => 13,
            Error::MultipleTicketsNotAllowed => 14,
            Error::PrizeAlreadyDeposited => 15,
            Error::NotWinner => 16,
            Error::ArithmeticOverflow => 17,
            Error::AlreadyInitialized => 18,
            Error::NotInitialized => 19,
            Error::InvalidStateTransition => 20,
        }
    }
}

} // verus!
