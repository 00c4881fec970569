//! The entry points of a raffle instance: creation, escrow, sale, draw,
//! payout and cancellation.
//!
//! Every entry point checks its preconditions in a fixed order and either
//! fails with the first error that applies, leaving the state as it was, or
//! moves to the next state and hands back the transfers and events that go
//! with the move.

use vstd::prelude::*;
use vstd::string::*;
use crate::address::Address;
use crate::events::{
    DrawTriggered, Event, EventView, PrizeClaimed, PrizeDeposited, RaffleCancelled, RaffleCreated,
    RaffleFinalized, RandomnessReceived, RandomnessRequested, StatusChanged, TicketPurchased, views,
};
use crate::host::{Env, Receipt, Step, Transfer};
use crate::instance::state::{Contract, State, follows, status_changed};
use crate::instance::types::{Error, Raffle, RaffleConfig, RaffleStatus, RandomnessSource};
use crate::ledger::{count_of, minted, minted_ids, pool};

verus! {

// Creation

/// Whether the terms of a raffle are acceptable at ledger time `now`.
pub open spec fn config_valid(config: RaffleConfig, now: u64) -> bool {
    &&& (config.end_time == 0 || config.end_time >= now)
    &&& config.max_tickets > 0
    &&& config.ticket_price > 0
    &&& config.prize_amount > 0
    &&& (config.randomness_source == RandomnessSource::External ==> config.oracle_address is Some)
}

/// The raffle that `creator` sets up with the terms `config`.
pub open spec fn new_raffle(creator: Address, config: RaffleConfig) -> Raffle {
    Raffle {
        creator,
        description: config.description,
        end_time: config.end_time,
        max_tickets: config.max_tickets,
        allow_multiple: config.allow_multiple,
        ticket_price: config.ticket_price,
        payment_token: config.payment_token,
        prize_amount: config.prize_amount,
        tickets_sold: 0,
        status: RaffleStatus::Proposed,
        prize_deposited: false,
        winner: None,
        randomness_source: config.randomness_source,
        oracle_address: config.oracle_address,
        protocol_fee_bp: config.protocol_fee_bp,
        treasury_address: config.treasury_address,
    }
}

/// Why `init` fails, if it does. An instance that is set up refuses a
/// second `init` whoever signs it.
pub open spec fn init_error(s: State, env: Env, creator: Address, config: RaffleConfig) -> Option<
    Error,
> {
    if s.raffle is Some {
        Some(Error::AlreadyInitialized)
    } else if !env.authorizes(creator) {
        Some(Error::NotAuthorized)
    } else if !config_valid(config, env.timestamp) {
        Some(Error::InvalidParameters)
    } else {
        None
    }
}

/// What `init` does when it succeeds.
pub open spec fn init_step(
    s: State,
    env: Env,
    factory: Address,
    creator: Address,
    config: RaffleConfig,
) -> Step<State, (), EventView> {
    Step {
        state: State { factory: Some(factory), raffle: Some(new_raffle(creator, config)), ..s },
        value: (),
        transfers: Seq::empty(),
        events: seq![
            EventView::RaffleCreated(
                RaffleCreated {
                    creator,
                    end_time: config.end_time,
                    max_tickets: config.max_tickets,
                    ticket_price: config.ticket_price,
                    payment_token: config.payment_token,
                    prize_amount: config.prize_amount,
                    description: config.description,
                    randomness_source: config.randomness_source,
                },
            ),
        ],
    }
}

// Prize escrow

/// Why `deposit_prize` fails, if it does.
pub open spec fn deposit_error(s: State, env: Env) -> Option<Error> {
    match s.raffle {
        None => Some(Error::NotInitialized),
        Some(r) => if !env.authorizes(r.creator) {
            Some(Error::NotAuthorized)
        } else if r.status != RaffleStatus::Proposed {
            Some(Error::InvalidStateTransition)
        } else if r.prize_deposited {
            Some(Error::PrizeAlreadyDeposited)
        } else {
            None
        },
    }
}

/// What `deposit_prize` does when it succeeds.
pub open spec fn deposit_step(s: State, env: Env) -> Step<State, (), EventView> {
    let r = s.raffle.unwrap();
    Step {
        state: State {
            raffle: Some(Raffle { prize_deposited: true, status: RaffleStatus::Active, ..r }),
            ..s
        },
        value: (),
        transfers: seq![
            Transfer { token: r.payment_token, from: r.creator, to: s.address, amount: r.prize_amount },
        ],
        events: seq![
            EventView::PrizeDeposited(
                PrizeDeposited {
                    creator: r.creator,
                    amount: r.prize_amount,
                    token: r.payment_token,
                    timestamp: env.timestamp,
                },
            ),
            status_changed(RaffleStatus::Proposed, RaffleStatus::Active, env.timestamp),
        ],
    }
}

// Ticket sale

/// Why `buy_ticket` fails, if it does.
pub open spec fn buy_ticket_error(s: State, env: Env, buyer: Address) -> Option<Error> {
    if !env.authorizes(buyer) {
        Some(Error::NotAuthorized)
    } else {
        match s.raffle {
            None => Some(Error::NotInitialized),
            Some(r) => if r.status != RaffleStatus::Active {
                Some(Error::RaffleInactive)
            } else if r.end_time != 0 && env.timestamp > r.end_time {
                Some(Error::RaffleEnded)
            } else if r.tickets_sold >= r.max_tickets {
                Some(Error::TicketsSoldOut)
            } else if !r.allow_multiple && count_of(s.tickets, buyer) > 0 {
                Some(Error::MultipleTicketsNotAllowed)
            } else {
                None
            },
        }
    }
}

/// What `buy_ticket` does when it succeeds.
pub open spec fn buy_ticket_step(s: State, env: Env, buyer: Address) -> Step<State, u32, EventView> {
    let r = s.raffle.unwrap();
    let sold = (r.tickets_sold + 1) as u32;
    let sells_out = sold >= r.max_tickets;
    let purchase = EventView::TicketPurchased {
        buyer,
        ticket_ids: minted_ids(s.tickets.len() as int, 1),
        quantity: 1,
        total_paid: r.ticket_price,
        timestamp: env.timestamp,
    };
    Step {
        state: State {
            raffle: Some(
                Raffle {
                    tickets_sold: sold,
                    status: if sells_out {
                        RaffleStatus::Drawing
                    } else {
                        r.status
                    },
                    ..r
                },
            ),
            tickets: s.tickets + minted(s.tickets.len() as int, buyer, 1, env.timestamp),
            ..s
        },
        value: sold,
        transfers: seq![
            Transfer { token: r.payment_token, from: buyer, to: s.address, amount: r.ticket_price },
        ],
        events: if sells_out {
            seq![status_changed(RaffleStatus::Active, RaffleStatus::Drawing, env.timestamp), purchase]
        } else {
            seq![purchase]
        },
    }
}

// Draw

/// The seed of an internal draw: ledger time plus sequence number.
pub open spec fn internal_seed(env: Env) -> int {
    env.timestamp + env.sequence
}

/// The pool entry that a seed picks: every entry is as likely as any other,
/// so a buyer's chance is in proportion to the tickets held.
pub open spec fn winner_index(seed: int, pool_len: int) -> int {
    seed % pool_len
}

/// Whether the sale of an active raffle is over at ledger time `now`: the
/// deadline has passed or every ticket is sold.
pub open spec fn sale_over(r: Raffle, now: u64) -> bool {
    (r.end_time != 0 && now >= r.end_time) || r.tickets_sold >= r.max_tickets
}

/// The state after a draw that picked the pool entry at `index`.
pub open spec fn drawn(s: State, index: int) -> State {
    let r = s.raffle.unwrap();
    State {
        raffle: Some(
            Raffle { status: RaffleStatus::Finalized, winner: Some(pool(s.tickets)[index]), ..r },
        ),
        ..s
    }
}

/// The notices that end a draw from `source` that picked the pool entry at
/// `index`: the winner, then the change of status.
pub open spec fn draw_events(s: State, index: int, source: RandomnessSource, now: u64) -> Seq<
    EventView,
> {
    seq![
        EventView::RaffleFinalized(
            RaffleFinalized {
                winner: pool(s.tickets)[index],
                winning_ticket_id: index as u32,
                total_tickets_sold: s.raffle.unwrap().tickets_sold,
                randomness_source: source,
                finalized_at: now,
            },
        ),
        status_changed(RaffleStatus::Drawing, RaffleStatus::Finalized, now),
    ]
}

/// Why `finalize_raffle` fails, if it does.
pub open spec fn finalize_error(s: State, env: Env) -> Option<Error> {
    match s.raffle {
        None => Some(Error::NotInitialized),
        Some(r) => if !env.authorizes(r.creator) {
            Some(Error::NotAuthorized)
        } else if !(r.status == RaffleStatus::Drawing || (r.status == RaffleStatus::Active
            && sale_over(r, env.timestamp))) {
            Some(Error::InvalidStateTransition)
        } else if r.tickets_sold == 0 {
            Some(Error::NoTicketsSold)
        } else {
            None
        },
    }
}

/// What `finalize_raffle` does when it succeeds: with an internal source the
/// draw itself, with an external one the request to the oracle.
pub open spec fn finalize_step(s: State, env: Env) -> Step<State, (), EventView> {
    let r = s.raffle.unwrap();
    let now = env.timestamp;
    let closing = if r.status == RaffleStatus::Active {
        seq![status_changed(RaffleStatus::Active, RaffleStatus::Drawing, now)]
    } else {
        Seq::empty()
    };
    let triggered = EventView::DrawTriggered(
        DrawTriggered { triggered_by: r.creator, total_tickets_sold: r.tickets_sold, timestamp: now },
    );
    if r.randomness_source == RandomnessSource::External {
        Step {
            state: State { raffle: Some(Raffle { status: RaffleStatus::Drawing, ..r }), ..s },
            value: (),
            transfers: Seq::empty(),
            events: closing + seq![
                triggered,
                EventView::RandomnessRequested(
                    RandomnessRequested { oracle: r.oracle_address.unwrap(), timestamp: now },
                ),
            ],
        }
    } else {
        let index = winner_index(internal_seed(env), s.tickets.len() as int);
        Step {
            state: drawn(s, index),
            value: (),
            transfers: Seq::empty(),
            events: closing + seq![triggered] + draw_events(
                s,
                index,
                RandomnessSource::Internal,
                now,
            ),
        }
    }
}

/// Why `provide_randomness` fails, if it does.
pub open spec fn provide_randomness_error(s: State, env: Env) -> Option<Error> {
    match s.raffle {
        None => Some(Error::NotInitialized),
        Some(r) => match r.oracle_address {
            None => Some(Error::NotAuthorized),
            Some(oracle) => if !env.authorizes(oracle) {
                Some(Error::NotAuthorized)
            } else if r.status != RaffleStatus::Drawing || r.randomness_source
                != RandomnessSource::External {
                Some(Error::InvalidStateTransition)
            } else if s.tickets.len() == 0 {
                Some(Error::NoTicketsSold)
            } else {
                None
            },
        },
    }
}

/// What `provide_randomness` does when it succeeds.
pub open spec fn provide_randomness_step(s: State, env: Env, random_seed: u64) -> Step<
    State,
    Address,
    EventView,
> {
    let r = s.raffle.unwrap();
    let index = winner_index(random_seed as int, s.tickets.len() as int);
    Step {
        state: drawn(s, index),
        value: pool(s.tickets)[index],
        transfers: Seq::empty(),
        events: seq![
            EventView::RandomnessReceived(
                RandomnessReceived {
                    oracle: r.oracle_address.unwrap(),
                    seed: random_seed,
                    timestamp: env.timestamp,
                },
            ),
        ] + draw_events(s, index, RandomnessSource::External, env.timestamp),
    }
}

// Payout

/// The protocol's share of a prize: `fee_bp` ten-thousandths, rounded down.
pub open spec fn platform_fee(prize: int, fee_bp: int) -> int {
    prize * fee_bp / 10000
}

/// What the winner gets of a prize: all but the protocol's share.
pub open spec fn net_amount(prize: int, fee_bp: int) -> int {
    prize - platform_fee(prize, fee_bp)
}

/// Why `claim_prize` fails, if it does.
pub open spec fn claim_error(s: State, env: Env, winner: Address) -> Option<Error> {
    if !env.authorizes(winner) {
        Some(Error::NotAuthorized)
    } else {
        match s.raffle {
            None => Some(Error::NotInitialized),
            Some(r) => if r.status != RaffleStatus::Finalized {
                Some(Error::InvalidStateTransition)
            } else if r.winner != Some(winner) {
                Some(Error::NotWinner)
            } else if !r.prize_deposited {
                Some(Error::PrizeNotDeposited)
            } else if r.prize_amount * r.protocol_fee_bp > i128::MAX {
                Some(Error::ArithmeticOverflow)
            } else {
                None
            },
        }
    }
}

/// The transfers of a claim: the net amount to the winner, then the fee to
/// the treasury where there is a fee and a treasury.
pub open spec fn claim_transfers(r: Raffle, escrow: Address, winner: Address) -> Seq<Transfer> {
    let fee = platform_fee(r.prize_amount as int, r.protocol_fee_bp as int);
    let net = net_amount(r.prize_amount as int, r.protocol_fee_bp as int);
    let payout = Transfer { token: r.payment_token, from: escrow, to: winner, amount: net as i128 };
    if fee > 0 && r.treasury_address is Some {
        seq![
            payout,
            Transfer {
                token: r.payment_token,
                from: escrow,
                to: r.treasury_address.unwrap(),
                amount: fee as i128,
            },
        ]
    } else {
        seq![payout]
    }
}

/// What `claim_prize` does when it succeeds.
pub open spec fn claim_step(s: State, env: Env, winner: Address) -> Step<State, i128, EventView> {
    let r = s.raffle.unwrap();
    let fee = platform_fee(r.prize_amount as int, r.protocol_fee_bp as int);
    let net = net_amount(r.prize_amount as int, r.protocol_fee_bp as int);
    Step {
        state: State { raffle: Some(Raffle { status: RaffleStatus::Claimed, ..r }), ..s },
        value: net as i128,
        transfers: claim_transfers(r, s.address, winner),
        events: seq![
            EventView::PrizeClaimed(
                PrizeClaimed {
                    winner,
                    gross_amount: r.prize_amount,
                    net_amount: net as i128,
                    platform_fee: fee as i128,
                    claimed_at: env.timestamp,
                },
            ),
            status_changed(RaffleStatus::Finalized, RaffleStatus::Claimed, env.timestamp),
        ],
    }
}

// Cancellation

/// Why `cancel_raffle` fails, if it does.
pub open spec fn cancel_error(s: State, env: Env) -> Option<Error> {
    match s.raffle {
        None => Some(Error::NotInitialized),
        Some(r) => if !env.authorizes(r.creator) {
            Some(Error::NotAuthorized)
        } else if r.status == RaffleStatus::Finalized || r.status == RaffleStatus::Claimed
            || r.status == RaffleStatus::Cancelled {
            Some(Error::InvalidStateTransition)
        } else {
            None
        },
    }
}

/// What `cancel_raffle` does when it succeeds: the prize, if it was in
/// escrow, goes back to the creator. Ticket buyers are not refunded.
pub open spec fn cancel_step(s: State, env: Env) -> Step<State, (), EventView> {
    let r = s.raffle.unwrap();
    Step {
        state: State {
            raffle: Some(Raffle { status: RaffleStatus::Cancelled, prize_deposited: false, ..r }),
            ..s
        },
        value: (),
        transfers: if r.prize_deposited {
            seq![
                Transfer {
                    token: r.payment_token,
                    from: s.address,
                    to: r.creator,
                    amount: r.prize_amount,
                },
            ]
        } else {
            Seq::empty()
        },
        events: seq![
            EventView::RaffleCancelled {
                creator: r.creator,
                reason: "Creator cancelled"@,
                tickets_sold: r.tickets_sold,
                timestamp: env.timestamp,
            },
            status_changed(r.status, RaffleStatus::Cancelled, env.timestamp),
        ],
    }
}


impl Contract {
    /// Sets the raffle up in status `Proposed` with the terms `config`, on
    /// behalf of `creator`, who must have authorized the invocation.
    pub fn init(&mut self, env: &Env, factory: Address, creator: Address, config: RaffleConfig) -> (res:
        Result<Receipt<(), Event>, Error>)
        requires
            old(self).wf(),
        ensures
            final(self).wf(),
            follows(
                res,
                old(self)@,
                final(self)@,
                init_error(old(self)@, *env, creator, config),
                init_step(old(self)@, *env, factory, creator, config),
            ),
    {
        if self.raffle.is_some() {
            return Err(Error::AlreadyInitialized);
        }
        if !env.is_authorized_by(&creator) {
            return Err(Error::NotAuthorized);
        }
        let now = env.timestamp;
        if config.end_time < now && config.end_time != 0 {
            return Err(Error::InvalidParameters);
        }
        if config.max_tickets == 0 {
            return Err(Error::InvalidParameters);
        }
        if config.ticket_price <= 0 {
            return Err(Error::InvalidParameters);
        }
        if config.prize_amount <= 0 {
            return Err(Error::InvalidParameters);
        }
        if config.randomness_source == RandomnessSource::External && config.oracle_address.is_none() {
            return Err(Error::InvalidParameters);
        }
        let raffle = Raffle {
            creator,
            description: config.description.clone(),
            end_time: config.end_time,
            max_tickets: config.max_tickets,
            allow_multiple: config.allow_multiple,
            ticket_price: config.ticket_price,
            payment_token: config.payment_token,
            prize_amount: config.prize_amount,
            tickets_sold: 0,
            status: RaffleStatus::Proposed,
            prize_deposited: false,
            winner: None,
            randomness_source: config.randomness_source,
            oracle_address: config.oracle_address,
            protocol_fee_bp: config.protocol_fee_bp,
            treasury_address: config.treasury_address,
        };
        self.raffle = Some(raffle);
        self.factory = Some(factory);
        let mut events: Vec<Event> = Vec::new();
        events.push(
            Event::RaffleCreated(
                RaffleCreated {
                    creator,
                    end_time: config.end_time,
                    max_tickets: config.max_tickets,
                    ticket_price: config.ticket_price,
                    payment_token: config.payment_token,
                    prize_amount: config.prize_amount,
                    description: config.description.clone(),
                    randomness_source: config.randomness_source,
                },
            ),
        );
        proof {
            let step = init_step(old(self)@, *env, factory, creator, config);
            assert(views(events@) =~= step.events);
        }
        Ok(Receipt { value: (), transfers: Vec::new(), events })
    }

    /// Moves the prize from the creator into escrow and opens the sale.
    pub fn deposit_prize(&mut self, env: &Env) -> (res: Result<Receipt<(), Event>, Error>)
        requires
            old(self).wf(),
        ensures
            final(self).wf(),
            follows(
                res,
                old(self)@,
                final(self)@,
                deposit_error(old(self)@, *env),
                deposit_step(old(self)@, *env),
            ),
    {
        let mut raffle = self.read_raffle()?;
        if !env.is_authorized_by(&raffle.creator) {
            return Err(Error::NotAuthorized);
        }
        if raffle.status != RaffleStatus::Proposed {
            return Err(Error::InvalidStateTransition);
        }
        if raffle.prize_deposited {
            return Err(Error::PrizeAlreadyDeposited);
        }
        let mut transfers: Vec<Transfer> = Vec::new();
        transfers.push(
            Transfer {
                token: raffle.payment_token,
                from: raffle.creator,
                to: self.address,
                amount: raffle.prize_amount,
            },
        );
        raffle.prize_deposited = true;
        raffle.status = RaffleStatus::Active;
        let mut events: Vec<Event> = Vec::new();
        events.push(
            Event::PrizeDeposited(
                PrizeDeposited {
                    creator: raffle.creator,
                    amount: raffle.prize_amount,
                    token: raffle.payment_token,
                    timestamp: env.timestamp,
                },
            ),
        );
        events.push(
            Event::StatusChanged(
                StatusChanged {
                    old_status: RaffleStatus::Proposed,
                    new_status: RaffleStatus::Active,
                    timestamp: env.timestamp,
                },
            ),
        );
        self.raffle = Some(raffle);
        proof {
            let step = deposit_step(old(self)@, *env);
            assert(views(events@) =~= step.events);
            assert(transfers@ =~= step.transfers);
        }
        Ok(Receipt { value: (), transfers, events })
    }

    /// Sells one ticket to `buyer`, who must have authorized the invocation,
    /// and closes the sale when it was the last one. Returns the number of
    /// tickets sold so far.
    pub fn buy_ticket(&mut self, env: &Env, buyer: Address) -> (res: Result<
        Receipt<u32, Event>,
        Error,
    >)
        requires
            old(self).wf(),
        ensures
            final(self).wf(),
            follows(
                res,
                old(self)@,
                final(self)@,
                buy_ticket_error(old(self)@, *env, buyer),
                buy_ticket_step(old(self)@, *env, buyer),
            ),
    {
        if !env.is_authorized_by(&buyer) {
            return Err(Error::NotAuthorized);
        }
        let mut raffle = self.read_raffle()?;
        if raffle.status != RaffleStatus::Active {
            return Err(Error::RaffleInactive);
        }
        if raffle.end_time != 0 && env.timestamp > raffle.end_time {
            return Err(Error::RaffleEnded);
        }
        if raffle.tickets_sold >= raffle.max_tickets {
            return Err(Error::TicketsSoldOut);
        }
        let current_count = self.ledger.count_for(&buyer);
        if !raffle.allow_multiple && current_count > 0 {
            return Err(Error::MultipleTicketsNotAllowed);
        }
        let mut transfers: Vec<Transfer> = Vec::new();
        transfers.push(
            Transfer {
                token: raffle.payment_token,
                from: buyer,
                to: self.address,
                amount: raffle.ticket_price,
            },
        );
        let timestamp = env.timestamp;
        let ticket_ids = self.ledger.record_purchase(buyer, 1, timestamp);
        raffle.tickets_sold = raffle.tickets_sold + 1;
        let mut events: Vec<Event> = Vec::new();
        if raffle.tickets_sold >= raffle.max_tickets {
            raffle.status = RaffleStatus::Drawing;
            events.push(
                Event::StatusChanged(
                    StatusChanged {
                        old_status: RaffleStatus::Active,
                        new_status: RaffleStatus::Drawing,
                        timestamp,
                    },
                ),
            );
        }
        events.push(
            Event::TicketPurchased(
                TicketPurchased {
                    buyer,
                    ticket_ids,
                    quantity: 1,
                    total_paid: raffle.ticket_price,
                    timestamp,
                },
            ),
        );
        let sold = raffle.tickets_sold;
        self.raffle = Some(raffle);
        proof {
            let step = buy_ticket_step(old(self)@, *env, buyer);
            assert(views(events@) =~= step.events);
            assert(transfers@ =~= step.transfers);
        }
        Ok(Receipt { value: sold, transfers, events })
    }

    /// Closes the sale if it is over and starts the draw: with an internal
    /// source the winner is fixed at once, with an external one the oracle is
    /// asked and the raffle waits in status `Drawing`.
    pub fn finalize_raffle(&mut self, env: &Env) -> (res: Result<Receipt<(), Event>, Error>)
        requires
            old(self).wf(),
        ensures
            final(self).wf(),
            follows(
                res,
                old(self)@,
                final(self)@,
                finalize_error(old(self)@, *env),
                finalize_step(old(self)@, *env),
            ),
    {
        let mut raffle = self.read_raffle()?;
        if !env.is_authorized_by(&raffle.creator) {
            return Err(Error::NotAuthorized);
        }
        let now = env.timestamp;
        let mut events: Vec<Event> = Vec::new();
        if raffle.status == RaffleStatus::Active {
            if (raffle.end_time != 0 && now >= raffle.end_time) || raffle.tickets_sold
                >= raffle.max_tickets {
                raffle.status = RaffleStatus::Drawing;
                events.push(
                    Event::StatusChanged(
                        StatusChanged {
                            old_status: RaffleStatus::Active,
                            new_status: RaffleStatus::Drawing,
                            timestamp: now,
                        },
                    ),
                );
            }
        }
        if raffle.status != RaffleStatus::Drawing {
            return Err(Error::InvalidStateTransition);
        }
        if raffle.tickets_sold == 0 {
            return Err(Error::NoTicketsSold);
        }
        events.push(
            Event::DrawTriggered(
                DrawTriggered {
                    triggered_by: raffle.creator,
                    total_tickets_sold: raffle.tickets_sold,
                    timestamp: now,
                },
            ),
        );
        if raffle.randomness_source == RandomnessSource::External {
            let oracle = raffle.oracle_address.unwrap();
            events.push(Event::RandomnessRequested(RandomnessRequested { oracle, timestamp: now }));
            self.raffle = Some(raffle);
            proof {
                assert(views(events@) =~= finalize_step(old(self)@, *env).events);
            }
            return Ok(Receipt { value: (), transfers: Vec::new(), events });
        }
        let seed: u128 = env.timestamp as u128 + env.sequence as u128;
        let winner_index: u32 = (seed % (self.ledger.len() as u128)) as u32;
        let winner = self.ledger.holder(winner_index);
        raffle.status = RaffleStatus::Finalized;
        raffle.winner = Some(winner);
        events.push(
            Event::RaffleFinalized(
                RaffleFinalized {
                    winner,
                    winning_ticket_id: winner_index,
                    total_tickets_sold: raffle.tickets_sold,
                    randomness_source: RandomnessSource::Internal,
                    finalized_at: now,
                },
            ),
        );
        events.push(
            Event::StatusChanged(
                StatusChanged {
                    old_status: RaffleStatus::Drawing,
                    new_status: RaffleStatus::Finalized,
                    timestamp: now,
                },
            ),
        );
        self.raffle = Some(raffle);
        proof {
            assert(views(events@) =~= finalize_step(old(self)@, *env).events);
        }
        Ok(Receipt { value: (), transfers: Vec::new(), events })
    }

    /// Takes the oracle's randomness and fixes the winner. The only way in
    /// which a raffle with an external source is finalized.
    pub fn provide_randomness(&mut self, env: &Env, random_seed: u64) -> (res: Result<
        Receipt<Address, Event>,
        Error,
    >)
        requires
            old(self).wf(),
        ensures
            final(self).wf(),
            follows(
                res,
                old(self)@,
                final(self)@,
                provide_randomness_error(old(self)@, *env),
                provide_randomness_step(old(self)@, *env, random_seed),
            ),
    {
        let mut raffle = self.read_raffle()?;
        let oracle = match raffle.oracle_address {
            Some(oracle) => oracle,
            None => {
                return Err(Error::NotAuthorized);
            },
        };
        if !env.is_authorized_by(&oracle) {
            return Err(Error::NotAuthorized);
        }
        if raffle.status != RaffleStatus::Drawing || raffle.randomness_source
            != RandomnessSource::External {
            return Err(Error::InvalidStateTransition);
        }
        if self.ledger.len() == 0 {
            return Err(Error::NoTicketsSold);
        }
        let winner_index: u32 = (random_seed % (self.ledger.len() as u64)) as u32;
        let winner = self.ledger.holder(winner_index);
        raffle.status = RaffleStatus::Finalized;
        raffle.winner = Some(winner);
        let now = env.timestamp;
        let mut events: Vec<Event> = Vec::new();
        events.push(
            Event::RandomnessReceived(RandomnessReceived { oracle, seed: random_seed, timestamp: now }),
        );
        events.push(
            Event::RaffleFinalized(
                RaffleFinalized {
                    winner,
                    winning_ticket_id: winner_index,
                    total_tickets_sold: raffle.tickets_sold,
                    randomness_source: RandomnessSource::External,
                    finalized_at: now,
                },
            ),
        );
        events.push(
            Event::StatusChanged(
                StatusChanged {
                    old_status: RaffleStatus::Drawing,
                    new_status: RaffleStatus::Finalized,
                    timestamp: now,
                },
            ),
        );
        self.raffle = Some(raffle);
        proof {
            assert(views(events@) =~= provide_randomness_step(old(self)@, *env, random_seed).events);
        }
        Ok(Receipt { value: winner, transfers: Vec::new(), events })
    }

    /// Pays the prize out of escrow: the net amount to `winner`, who must
    /// have authorized the invocation, and the fee to the treasury. Returns
    /// the net amount.
    pub fn claim_prize(&mut self, env: &Env, winner: Address) -> (res: Result<
        Receipt<i128, Event>,
        Error,
    >)
        requires
            old(self).wf(),
        ensures
            final(self).wf(),
            follows(
                res,
                old(self)@,
                final(self)@,
                claim_error(old(self)@, *env, winner),
                claim_step(old(self)@, *env, winner),
            ),
    {
        if !env.is_authorized_by(&winner) {
            return Err(Error::NotAuthorized);
        }
        let mut raffle = self.read_raffle()?;
        if raffle.status != RaffleStatus::Finalized {
            return Err(Error::InvalidStateTransition);
        }
        if raffle.winner != Some(winner) {
            return Err(Error::NotWinner);
        }
        if !raffle.prize_deposited {
            return Err(Error::PrizeNotDeposited);
        }
        assert(raffle.prize_amount * raffle.protocol_fee_bp >= 0 && (raffle.protocol_fee_bp == 0
            ==> raffle.prize_amount * raffle.protocol_fee_bp == 0)) by (nonlinear_arith)
            requires
                raffle.prize_amount > 0,
                raffle.protocol_fee_bp >= 0,
        ;
        let mut platform_fee: i128 = 0;
        if raffle.protocol_fee_bp > 0 {
            match raffle.prize_amount.checked_mul(raffle.protocol_fee_bp as i128) {
                Some(product) => {
                    platform_fee = product / 10000;
                },
                None => {
                    return Err(Error::ArithmeticOverflow);
                },
            }
        }
        let net_amount = raffle.prize_amount - platform_fee;
        let claimed_at = env.timestamp;
        let mut transfers: Vec<Transfer> = Vec::new();
        transfers.push(
            Transfer { token: raffle.payment_token, from: self.address, to: winner, amount: net_amount },
        );
        if platform_fee > 0 && raffle.treasury_address.is_some() {
            transfers.push(
                Transfer {
                    token: raffle.payment_token,
                    from: self.address,
                    to: raffle.treasury_address.unwrap(),
                    amount: platform_fee,
                },
            );
        }
        raffle.status = RaffleStatus::Claimed;
        let mut events: Vec<Event> = Vec::new();
        events.push(
            Event::PrizeClaimed(
                PrizeClaimed {
                    winner,
                    gross_amount: raffle.prize_amount,
                    net_amount,
                    platform_fee,
                    claimed_at,
                },
            ),
        );
        events.push(
            Event::StatusChanged(
                StatusChanged {
                    old_status: RaffleStatus::Finalized,
                    new_status: RaffleStatus::Claimed,
                    timestamp: claimed_at,
                },
            ),
        );
        self.raffle = Some(raffle);
        proof {
            let step = claim_step(old(self)@, *env, winner);
            assert(views(events@) =~= step.events);
            assert(transfers@ =~= step.transfers);
        }
        Ok(Receipt { value: net_amount, transfers, events })
    }

    /// Calls the raffle off before a winner is fixed and sends the prize, if
    /// it was in escrow, back to the creator.
    pub fn cancel_raffle(&mut self, env: &Env) -> (res: Result<Receipt<(), Event>, Error>)
        requires
            old(self).wf(),
        ensures
            final(self).wf(),
            follows(
                res,
                old(self)@,
                final(self)@,
                cancel_error(old(self)@, *env),
                cancel_step(old(self)@, *env),
            ),
    {
        let mut raffle = self.read_raffle()?;
        if !env.is_authorized_by(&raffle.creator) {
            return Err(Error::NotAuthorized);
        }
        if raffle.status == RaffleStatus::Finalized || raffle.status == RaffleStatus::Claimed
            || raffle.status == RaffleStatus::Cancelled {
            return Err(Error::InvalidStateTransition);
        }
        let old_status = raffle.status;
        raffle.status = RaffleStatus::Cancelled;
        let mut transfers: Vec<Transfer> = Vec::new();
        if raffle.prize_deposited {
            transfers.push(
                Transfer {
                    token: raffle.payment_token,
                    from: self.address,
                    to: raffle.creator,
                    amount: raffle.prize_amount,
                },
            );
            raffle.prize_deposited = false;
        }
        let mut events: Vec<Event> = Vec::new();
        events.push(
            Event::RaffleCancelled(
                RaffleCancelled {
                    creator: raffle.creator,
                    reason: String::from_str("Creator cancelled"),
                    tickets_sold: raffle.tickets_sold,
                    timestamp: env.timestamp,
                },
            ),
        );
        events.push(
            Event::StatusChanged(
                StatusChanged {
                    old_status,
                    new_status: RaffleStatus::Cancelled,
                    timestamp: env.timestamp,
                },
            ),
        );
        self.raffle = Some(raffle);
        proof {
            let step = cancel_step(old(self)@, *env);
            assert(views(events@) =~= step.events);
            assert(transfers@ =~= step.transfers);
        }
        Ok(Receipt { value: (), transfers, events })
    }

    /// The raffle as it stands.
    pub fn get_raffle(&self) -> (res: Result<Raffle, Error>)
        ensures
            match res {
                Ok(r) => self@.raffle == Some(r),
                Err(e) => self@.raffle is None && e == Error::NotInitialized,
            },
    {
        self.read_raffle()
    }
}

} // verus!
