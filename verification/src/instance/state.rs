//! The state of a raffle instance and what holds of it throughout.

use vstd::prelude::*;
use crate::address::Address;
use crate::events::{Event, EventView, StatusChanged, views};
use crate::host::{Receipt, Step};
use crate::instance::types::{Error, Raffle, RaffleStatus, RandomnessSource};
use crate::ledger::{Ticket, TicketLedger, sequential};

verus! {

/// The state of a raffle instance as the contracts speak of it.
pub struct State {
    /// The contract's own address: the holder of the escrow.
    pub address: Address,
    /// The factory that set the instance up, once it is initialized.
    pub factory: Option<Address>,
    /// The raffle, once it is initialized.
    pub raffle: Option<Raffle>,
    /// The tickets sold, oldest first.
    pub tickets: Seq<Ticket>,
}

/// A raffle instance: the raffle and its ticket ledger.
#[derive(Debug)]
pub struct Contract {
    pub address: Address,
    pub factory: Option<Address>,
    pub raffle: Option<Raffle>,
    pub ledger: TicketLedger,
}

impl View for Contract {
    type V = State;

    open spec fn view(&self) -> State {
        State {
            address: self.address,
            factory: self.factory,
            raffle: self.raffle,
            tickets: self.ledger@,
        }
    }
}

/// Whether a status is one in which the prize lies in escrow or was paid out
/// of it.
pub open spec fn funded(status: RaffleStatus) -> bool {
    status == RaffleStatus::Active || status == RaffleStatus::Drawing || status
        == RaffleStatus::Finalized || status == RaffleStatus::Claimed
}

/// What holds of a raffle and its tickets in every state that the entry
/// points can reach.
pub open spec fn raffle_valid(r: Raffle, tickets: Seq<Ticket>) -> bool {
    &&& r.max_tickets > 0
    &&& r.ticket_price > 0
    &&& r.prize_amount > 0
    &&& (r.randomness_source == RandomnessSource::External ==> r.oracle_address is Some)
    &&& r.tickets_sold <= r.max_tickets
    &&& tickets.len() == r.tickets_sold
    &&& (r.winner is Some <==> (r.status == RaffleStatus::Finalized || r.status
        == RaffleStatus::Claimed))
    &&& (r.prize_deposited <==> funded(r.status))
    &&& (r.status == RaffleStatus::Proposed ==> r.tickets_sold == 0)
    &&& (r.status == RaffleStatus::Active ==> r.tickets_sold < r.max_tickets)
    &&& (r.status == RaffleStatus::Drawing || r.status == RaffleStatus::Finalized || r.status
        == RaffleStatus::Claimed ==> r.tickets_sold > 0)
}

/// What holds of every state that the entry points can reach.
pub open spec fn valid(s: State) -> bool {
    &&& sequential(s.tickets)
    &&& match s.raffle {
        None => s.tickets.len() == 0,
        Some(r) => raffle_valid(r, s.tickets),
    }
}

/// Whether `res` is what an entry point owes: with `error` set, that error
/// and the state untouched; without, the step taken.
pub open spec fn follows<T>(
    res: Result<Receipt<T, Event>, Error>,
    before: State,
    after: State,
    error: Option<Error>,
    step: Step<State, T, EventView>,
) -> bool {
    match res {
        Ok(r) => {
            &&& error is None
            &&& after == step.state
            &&& r.value == step.value
            &&& r.transfers@ == step.transfers
            &&& views(r.events@) == step.events
        },
        Err(e) => error == Some(e) && after == before,
    }
}

/// The notice of a change of status.
pub open spec fn status_changed(
    old_status: RaffleStatus,
    new_status: RaffleStatus,
    now: u64,
) -> EventView {
    EventView::StatusChanged(StatusChanged { old_status, new_status, timestamp: now })
}

impl Contract {
    /// The state is one that the entry points can reach.
    pub open spec fn wf(&self) -> bool {
        valid(self@)
    }

    /// The instance at `address`, not yet initialized.
    pub fn new(address: Address) -> (c: Self)
        ensures
            c.wf(),
            c@ == (State { address, factory: None, raffle: None, tickets: Seq::empty() }),
    {
        Contract { address, factory: None, raffle: None, ledger: TicketLedger::new() }
    }

    /// Whether the state is one that the entry points can reach.
    pub fn is_well_formed(&self) -> (b: bool)
        ensures
            b == self.wf(),
    {
        if !self.ledger.is_well_formed() {
            return false;
        }
        match &self.raffle {
            None => self.ledger.len() == 0,
            Some(r) => {
                let settled = r.status == RaffleStatus::Finalized || r.status
                    == RaffleStatus::Claimed;
                let in_escrow = r.status == RaffleStatus::Active || r.status
                    == RaffleStatus::Drawing || settled;
                r.max_tickets > 0 && r.ticket_price > 0 && r.prize_amount > 0 && (
                r.randomness_source != RandomnessSource::External || r.oracle_address.is_some())
                    && r.tickets_sold <= r.max_tickets && self.ledger.len() == r.tickets_sold
                    && r.winner.is_some() == settled && r.prize_deposited == in_escrow && (r.status
                    != RaffleStatus::Proposed || r.tickets_sold == 0) && (r.status
                    != RaffleStatus::Active || r.tickets_sold < r.max_tickets) && (!(r.status
                    == RaffleStatus::Drawing || settled) || r.tickets_sold > 0)
            },
        }
    }

    /// The raffle, once it is initialized.
    pub(crate) fn read_raffle(&self) -> (res: Result<Raffle, Error>)
        ensures
            match res {
                Ok(r) => self.raffle == Some(r),
                Err(e) => self.raffle is None && e == Error::NotInitialized,
            },
    {
        match &self.raffle {
            Some(r) => Ok(r.clone()),
            None => Err(Error::NotInitialized),
        }
    }
}

} // verus!
