//! Raffle contracts as verified state machines.
//!
//! Every entry point is a function from the contract's state and the facts of
//! one invocation (ledger time, sequence number, the identity that signed) to
//! the next state, the token transfers to carry out and the events to publish.
//! The host that stores the state, moves the tokens and publishes the events
//! stays outside: it hands plain values in and takes plain values back.

pub mod address;
pub mod events;
pub mod factory;
pub mod host;
pub mod instance;
pub mod ledger;
pub mod multi_raffle;
pub mod pagination;
