//! Many raffles under one contract, each with an id of its own.
//!
//! A raffle here is either on sale or finalized, with flags for the prize
//! in escrow and the prize paid. The draw happens within `finalize_raffle`.

pub mod contract;
pub mod laws;
pub mod queries;
pub mod state;
pub mod types;

pub use self::state::{Contract, Participation, State};
pub use self::types::{
    Error, Event, PaginatedRaffleIds, PaginatedTickets, PrizeClaimed, Raffle, RaffleCreated,
    RaffleFinalized, RaffleStats, RaffleStatus, RaffleWithStats, Ticket, TicketPurchased,
    UserParticipation,
};
pub use crate::pagination::PaginationMeta;
