//! One raffle as a state machine: created, funded, sold, drawn, claimed, or
//! cancelled on the way.

pub mod contract;
pub mod laws;
pub mod state;
pub mod types;

pub use self::state::{Contract, State};
pub use self::types::{Error, Raffle, RaffleConfig, RaffleStatus, RandomnessSource};
pub use crate::ledger::Ticket;
