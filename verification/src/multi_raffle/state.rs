//! The state of the multi-raffle contract and what holds of it throughout.

use vstd::prelude::*;
use crate::address::Address;
use crate::host::{Receipt, Step};
use crate::ledger;
use crate::ledger::{TicketLedger, sequential};
use crate::multi_raffle::types::{Error, Event, EventView, Raffle, views};

verus! {

/// A user took part in a raffle: written once, at the user's first purchase
/// in it.
#[derive(Clone, Copy, Debug, PartialEq, Eq, Structural)]
pub struct Participation {
    pub user: Address,
    pub raffle_id: u64,
}

/// The state of the contract as the contracts of its entry points speak of
/// it.
pub struct State {
    /// The contract's own address: the holder of the escrow.
    pub address: Address,
    /// The raffles; the one with id `i` is at position `i`.
    pub raffles: Seq<Raffle>,
    /// The tickets of each raffle, oldest first.
    pub tickets: Seq<Seq<ledger::Ticket>>,
    /// The ids of the raffles on sale, in the order of creation.
    pub active: Seq<u64>,
    /// Who took part in what, in the order of joining.
    pub joined: Seq<Participation>,
}

/// The multi-raffle contract: every raffle with its ticket ledger, the list
/// of raffles on sale and the record of who took part in what.
#[derive(Debug)]
pub struct Contract {
    pub address: Address,
    pub raffles: Vec<Raffle>,
    pub ledgers: Vec<TicketLedger>,
    pub active_raffles: Vec<u64>,
    pub participations: Vec<Participation>,
}

impl View for Contract {
    type V = State;

    open spec fn view(&self) -> State {
        State {
            address: self.address,
            raffles: self.raffles@,
            tickets: Seq::new(self.ledgers@.len(), |i: int| self.ledgers@[i]@),
            active: self.active_raffles@,
            joined: self.participations@,
        }
    }
}

/// What holds of the raffle with the id `id` and its tickets in every state
/// that the entry points can reach.
pub open spec fn raffle_valid(r: Raffle, id: int, tickets: Seq<ledger::Ticket>) -> bool {
    &&& r.id == id
    &&& r.max_tickets > 0
    &&& r.ticket_price > 0
    &&& r.prize_amount > 0
    &&& sequential(tickets)
    &&& tickets.len() == r.tickets_sold
    &&& r.tickets_sold <= r.max_tickets
    &&& (r.winner is Some <==> !r.is_active)
    &&& (!r.is_active ==> r.tickets_sold > 0)
    &&& (r.prize_claimed ==> !r.is_active && r.prize_deposited)
}

/// What holds of every state that the entry points can reach.
pub open spec fn valid(s: State) -> bool {
    &&& s.raffles.len() <= u64::MAX
    &&& s.tickets.len() == s.raffles.len()
    &&& forall|id: int|
        0 <= id < s.raffles.len() ==> raffle_valid(#[trigger] s.raffles[id], id, s.tickets[id])
}

/// Whether a raffle with the id `raffle_id` exists.
pub open spec fn exists_raffle(s: State, raffle_id: u64) -> bool {
    raffle_id < s.raffles.len()
}

/// Whether `res` is what an entry point owes: with `error` set, that error
/// and the state untouched; without, the step taken.
pub open spec fn follows<T>(
    res: Result<Receipt<T, Event>, Error>,
    before: State,
    after: State,
    error: Option<Error>,
    step: Step<State, T, EventView>,
) -> bool {
    match res {
        Ok(r) => {
            &&& error is None
            &&& after == step.state
            &&& r.value == step.value
            &&& r.transfers@ == step.transfers
            &&& views(r.events@) == step.events
        },
        Err(e) => error == Some(e) && after == before,
    }
}

impl Contract {
    /// The state is one that the entry points can reach.
    pub open spec fn wf(&self) -> bool {
        valid(self@)
    }

    /// The contract at `address`, with no raffle yet.
    pub fn new(address: Address) -> (c: Self)
        ensures
            c.wf(),
            c@ == (State {
                address,
                raffles: Seq::empty(),
                tickets: Seq::empty(),
                active: Seq::empty(),
                joined: Seq::empty(),
            }),
    {
        let c = Contract {
            address,
            raffles: Vec::new(),
            ledgers: Vec::new(),
            active_raffles: Vec::new(),
            participations: Vec::new(),
        };
        proof {
            assert(c@.tickets =~= Seq::empty());
        }
        c
    }

    /// Whether the state is one that the entry points can reach.
    pub fn is_well_formed(&self) -> (b: bool)
        ensures
            b == self.wf(),
    {
        if self.ledgers.len() != self.raffles.len() {
            return false;
        }
        let mut i: usize = 0;
        while i < self.raffles.len()
            invariant
                i <= self.raffles.len(),
                self.ledgers.len() == self.raffles.len(),
                forall|id: int|
                    0 <= id < i ==> raffle_valid(#[trigger] self@.raffles[id], id, self@.tickets[id]),
            decreases self.raffles.len() - i,
        {
            let r = &self.raffles[i];
            let ledger = &self.ledgers[i];
            if !ledger.is_well_formed() {
                assert(!raffle_valid(self@.raffles[i as int], i as int, self@.tickets[i as int]));
                return false;
            }
            let ok = r.id == i as u64 && r.max_tickets > 0 && r.ticket_price > 0 && r.prize_amount
                > 0 && ledger.len() == r.tickets_sold && r.tickets_sold <= r.max_tickets
                && r.winner.is_some() == !r.is_active && (r.is_active || r.tickets_sold > 0) && (
            !r.prize_claimed || (!r.is_active && r.prize_deposited));
            if !ok {
                assert(!raffle_valid(self@.raffles[i as int], i as int, self@.tickets[i as int]));
                return false;
            }
            i = i + 1;
        }
        true
    }

    /// The raffle with the id `raffle_id`.
    pub(crate) fn read_raffle(&self, raffle_id: u64) -> (res: Result<Raffle, Error>)
        ensures
            match res {
                Ok(r) => exists_raffle(self@, raffle_id) && r == self@.raffles[raffle_id as int]
                    && raffle_id <= usize::MAX,
                Err(e) => !exists_raffle(self@, raffle_id) && e == Error::RaffleNotFound,
            },
    {
        if raffle_id < self.raffles.len() as u64 {
            Ok(self.raffles[raffle_id as usize].clone())
        } else {
            Err(Error::RaffleNotFound)
        }
    }
}

} // verus!
