//! The entry points that change the state: creation, escrow, sale, draw and
//! payout.

use vstd::prelude::*;
use crate::address::Address;
use crate::host::{Env, Receipt, Step, Transfer};
use crate::ledger::{TicketLedger, count_of, minted, minted_ids, pool};
use crate::multi_raffle::state::{
    Contract, Participation, State, exists_raffle, follows, raffle_valid,
};
use crate::multi_raffle::types::{
    Error, Event, EventView, PrizeClaimed, Raffle, RaffleCreated, RaffleFinalized, TicketPurchased,
    views,
};

verus! {

// The record of who took part in what

/// Whether `user` is on record as taking part in the raffle `raffle_id`.
pub open spec fn has_joined(joined: Seq<Participation>, user: Address, raffle_id: u64) -> bool {
    joined.contains(Participation { user, raffle_id })
}

/// The record after `user` bought into the raffle `raffle_id`: one entry
/// more where it is the user's first purchase there.
pub open spec fn joined_after(joined: Seq<Participation>, user: Address, raffle_id: u64) -> Seq<
    Participation,
> {
    if has_joined(joined, user, raffle_id) {
        joined
    } else {
        joined.push(Participation { user, raffle_id })
    }
}

/// The ids without `id`, in their order.
pub open spec fn without(ids: Seq<u64>, id: u64) -> Seq<u64>
    decreases ids.len(),
{
    if ids.len() == 0 {
        Seq::empty()
    } else if ids.last() == id {
        without(ids.drop_last(), id)
    } else {
        without(ids.drop_last(), id).push(ids.last())
    }
}

// Creation

/// Whether the terms of a raffle are acceptable at ledger time `now`.
pub open spec fn terms_valid(
    now: u64,
    end_time: u64,
    max_tickets: u32,
    ticket_price: i128,
    prize_amount: i128,
) -> bool {
    &&& (end_time == 0 || end_time >= now)
    &&& max_tickets > 0
    &&& ticket_price > 0
    &&& prize_amount > 0
}

/// Why `create_raffle` fails, if it does. The last of the errors is out of
/// reach in practice: it takes as many raffles as there are ids.
pub open spec fn create_raffle_error(
    s: State,
    env: Env,
    creator: Address,
    end_time: u64,
    max_tickets: u32,
    ticket_price: i128,
    prize_amount: i128,
) -> Option<Error> {
    if !env.authorizes(creator) {
        Some(Error::NotAuthorized)
    } else if !terms_valid(env.timestamp, end_time, max_tickets, ticket_price, prize_amount) {
        Some(Error::InvalidParameters)
    } else if s.raffles.len() >= u64::MAX {
        Some(Error::ArithmeticOverflow)
    } else {
        None
    }
}

/// What `create_raffle` does when it succeeds: the new raffle gets the next
/// id, is on sale at once and is listed as active.
pub open spec fn create_raffle_step(
    s: State,
    creator: Address,
    description: String,
    end_time: u64,
    max_tickets: u32,
    allow_multiple: bool,
    ticket_price: i128,
    payment_token: Address,
    prize_amount: i128,
) -> Step<State, u64, EventView> {
    let raffle_id = s.raffles.len() as u64;
    Step {
        state: State {
            raffles: s.raffles.push(
                Raffle {
                    id: raffle_id,
                    creator,
                    description,
                    end_time,
                    max_tickets,
                    allow_multiple,
                    ticket_price,
                    payment_token,
                    prize_amount,
                    tickets_sold: 0,
                    is_active: true,
                    prize_deposited: false,
                    prize_claimed: false,
                    winner: None,
                },
            ),
            tickets: s.tickets.push(Seq::empty()),
            active: s.active.push(raffle_id),
            ..s
        },
        value: raffle_id,
        transfers: Seq::empty(),
        events: seq![
            EventView::RaffleCreated(
                RaffleCreated {
                    raffle_id,
                    creator,
                    end_time,
                    max_tickets,
                    ticket_price,
                    payment_token,
                    description,
                },
            ),
        ],
    }
}

// Prize escrow

/// Why `deposit_prize` fails, if it does.
pub open spec fn deposit_error(s: State, env: Env, raffle_id: u64) -> Option<Error> {
    if !exists_raffle(s, raffle_id) {
        Some(Error::RaffleNotFound)
    } else {
        let r = s.raffles[raffle_id as int];
        if !env.authorizes(r.creator) {
            Some(Error::NotAuthorized)
        } else if !r.is_active {
            Some(Error::RaffleInactive)
        } else if r.prize_deposited {
            Some(Error::PrizeAlreadyDeposited)
        } else {
            None
        }
    }
}

/// What `deposit_prize` does when it succeeds.
pub open spec fn deposit_step(s: State, raffle_id: u64) -> Step<State, (), EventView> {
    let r = s.raffles[raffle_id as int];
    Step {
        state: State {
            raffles: s.raffles.update(raffle_id as int, Raffle { prize_deposited: true, ..r }),
            ..s
        },
        value: (),
        transfers: seq![
            Transfer { token: r.payment_token, from: r.creator, to: s.address, amount: r.prize_amount },
        ],
        events: Seq::empty(),
    }
}

// Ticket sale

/// Why `buy_ticket` fails, if it does.
pub open spec fn buy_ticket_error(s: State, env: Env, raffle_id: u64, buyer: Address) -> Option<
    Error,
> {
    if !env.authorizes(buyer) {
        Some(Error::NotAuthorized)
    } else if !exists_raffle(s, raffle_id) {
        Some(Error::RaffleNotFound)
    } else {
        let r = s.raffles[raffle_id as int];
        if !r.is_active {
            Some(Error::RaffleInactive)
        } else if r.end_time != 0 && env.timestamp > r.end_time {
            Some(Error::RaffleEnded)
        } else if r.tickets_sold >= r.max_tickets {
            Some(Error::TicketsSoldOut)
        } else if !r.allow_multiple && count_of(s.tickets[raffle_id as int], buyer) > 0 {
            Some(Error::MultipleTicketsNotAllowed)
        } else {
            None
        }
    }
}

/// Why `buy_tickets` fails, if it does.
pub open spec fn buy_tickets_error(
    s: State,
    env: Env,
    raffle_id: u64,
    buyer: Address,
    quantity: u32,
) -> Option<Error> {
    if !env.authorizes(buyer) {
        Some(Error::NotAuthorized)
    } else if !exists_raffle(s, raffle_id) {
        Some(Error::RaffleNotFound)
    } else {
        let r = s.raffles[raffle_id as int];
        if quantity == 0 {
            Some(Error::InvalidParameters)
        } else if !r.is_active {
            Some(Error::RaffleInactive)
        } else if r.end_time != 0 && env.timestamp > r.end_time {
            Some(Error::RaffleEnded)
        } else if quantity > r.max_tickets - r.tickets_sold {
            Some(Error::InsufficientTickets)
        } else if !r.allow_multiple && (count_of(s.tickets[raffle_id as int], buyer) > 0 || quantity
            > 1) {
            Some(Error::MultipleTicketsNotAllowed)
        } else if r.ticket_price * quantity > i128::MAX || r.ticket_price * quantity < i128::MIN {
            Some(Error::ArithmeticOverflow)
        } else {
            None
        }
    }
}

/// What a purchase of `quantity` tickets for `total_cost` does: one payment
/// for the whole batch, `quantity` new tickets with the next ids, and one
/// notice that lists them all.
pub open spec fn purchase_step(
    s: State,
    env: Env,
    raffle_id: u64,
    buyer: Address,
    quantity: u32,
    total_cost: i128,
) -> Step<State, u32, EventView> {
    let r = s.raffles[raffle_id as int];
    let sold = (r.tickets_sold + quantity) as u32;
    let tickets = s.tickets[raffle_id as int];
    Step {
        state: State {
            raffles: s.raffles.update(raffle_id as int, Raffle { tickets_sold: sold, ..r }),
            tickets: s.tickets.update(
                raffle_id as int,
                tickets + minted(tickets.len() as int, buyer, quantity as nat, env.timestamp),
            ),
            joined: joined_after(s.joined, buyer, raffle_id),
            ..s
        },
        value: sold,
        transfers: seq![
            Transfer { token: r.payment_token, from: buyer, to: s.address, amount: total_cost },
        ],
        events: seq![
            EventView::TicketPurchased {
                raffle_id,
                buyer,
                ticket_ids: minted_ids(tickets.len() as int, quantity as nat),
                quantity,
                total_paid: total_cost,
                timestamp: env.timestamp,
            },
        ],
    }
}

/// What `buy_ticket` does when it succeeds.
pub open spec fn buy_ticket_step(s: State, env: Env, raffle_id: u64, buyer: Address) -> Step<
    State,
    u32,
    EventView,
> {
    purchase_step(s, env, raffle_id, buyer, 1, s.raffles[raffle_id as int].ticket_price)
}

/// What `buy_tickets` does when it succeeds.
pub open spec fn buy_tickets_step(
    s: State,
    env: Env,
    raffle_id: u64,
    buyer: Address,
    quantity: u32,
) -> Step<State, u32, EventView> {
    purchase_step(
        s,
        env,
        raffle_id,
        buyer,
        quantity,
        (s.raffles[raffle_id as int].ticket_price * quantity) as i128,
    )
}

// Draw

/// The pool entry that the draw picks at ledger time `env.timestamp` and
/// sequence number `env.sequence` among `pool_len` entries.
pub open spec fn winner_index(env: Env, pool_len: int) -> int {
    (env.timestamp + env.sequence) % pool_len
}

/// Whether the sale of a raffle is over at ledger time `now`: it has no
/// deadline, the deadline has passed, or every ticket is sold.
pub open spec fn sale_over(r: Raffle, now: u64) -> bool {
    r.end_time == 0 || now >= r.end_time || r.tickets_sold >= r.max_tickets
}

/// Why `finalize_raffle` fails, if it does.
pub open spec fn finalize_error(s: State, env: Env, raffle_id: u64) -> Option<Error> {
    if !exists_raffle(s, raffle_id) {
        Some(Error::RaffleNotFound)
    } else {
        let r = s.raffles[raffle_id as int];
        if !env.authorizes(r.creator) {
            Some(Error::NotAuthorized)
        } else if !r.is_active {
            Some(Error::RaffleInactive)
        } else if !sale_over(r, env.timestamp) {
            Some(Error::RaffleStillRunning)
        } else if r.tickets_sold == 0 {
            Some(Error::NoTicketsSold)
        } else {
            None
        }
    }
}

/// What `finalize_raffle` does when it succeeds: the holder of the pool
/// entry that the draw picks wins, and the raffle is no longer on sale.
pub open spec fn finalize_step(s: State, env: Env, raffle_id: u64, source: String) -> Step<
    State,
    Address,
    EventView,
> {
    let r = s.raffles[raffle_id as int];
    let tickets = s.tickets[raffle_id as int];
    let index = winner_index(env, tickets.len() as int);
    let winner = pool(tickets)[index];
    Step {
        state: State {
            raffles: s.raffles.update(
                raffle_id as int,
                Raffle { is_active: false, winner: Some(winner), ..r },
            ),
            active: without(s.active, raffle_id),
            ..s
        },
        value: winner,
        transfers: Seq::empty(),
        events: seq![
            EventView::RaffleFinalized(
                RaffleFinalized {
                    raffle_id,
                    winner,
                    winning_ticket_id: index as u32,
                    total_tickets_sold: r.tickets_sold,
                    randomness_source: source,
                    finalized_at: env.timestamp,
                },
            ),
        ],
    }
}

// Payout

/// Why `claim_prize` fails, if it does.
pub open spec fn claim_error(s: State, env: Env, raffle_id: u64, winner: Address) -> Option<Error> {
    if !env.authorizes(winner) {
        Some(Error::NotAuthorized)
    } else if !exists_raffle(s, raffle_id) {
        Some(Error::RaffleNotFound)
    } else {
        let r = s.raffles[raffle_id as int];
        if r.prize_claimed {
            Some(Error::InvalidStateTransition)
        } else if r.winner != Some(winner) {
            Some(Error::NotWinner)
        } else if !r.prize_deposited {
            Some(Error::PrizeNotDeposited)
        } else {
            None
        }
    }
}

/// What `claim_prize` does when it succeeds: the whole prize goes to the
/// winner; this contract takes no fee.
pub open spec fn claim_step(s: State, env: Env, raffle_id: u64, winner: Address) -> Step<
    State,
    i128,
    EventView,
> {
    let r = s.raffles[raffle_id as int];
    Step {
        state: State {
            raffles: s.raffles.update(raffle_id as int, Raffle { prize_claimed: true, ..r }),
            ..s
        },
        value: r.prize_amount,
        transfers: seq![
            Transfer { token: r.payment_token, from: s.address, to: winner, amount: r.prize_amount },
        ],
        events: seq![
            EventView::PrizeClaimed(
                PrizeClaimed {
                    raffle_id,
                    winner,
                    gross_amount: r.prize_amount,
                    net_amount: r.prize_amount,
                    platform_fee: 0,
                    claimed_at: env.timestamp,
                },
            ),
        ],
    }
}

impl Contract {
    /// The id that the next raffle gets: the number of raffles so far.
    /// None where the ids have run out.
    fn next_raffle_id(&self) -> (id: Option<u64>)
        ensures
            id == (if self@.raffles.len() >= u64::MAX {
                None
            } else {
                Some(self@.raffles.len() as u64)
            }),
    {
        let current = self.raffles.len() as u64;
        if current == u64::MAX {
            None
        } else {
            Some(current)
        }
    }

    /// Lists the raffle `raffle_id` as on sale.
    fn add_active_raffle(&mut self, raffle_id: u64)
        ensures
            final(self).active_raffles@ == old(self).active_raffles@.push(raffle_id),
            final(self).address == old(self).address,
            final(self).raffles == old(self).raffles,
            final(self).ledgers == old(self).ledgers,
            final(self).participations == old(self).participations,
    {
        self.active_raffles.push(raffle_id);
    }

    /// Takes the raffle `raffle_id` off the list of raffles on sale.
    fn remove_active_raffle(&mut self, raffle_id: u64)
        ensures
            final(self).active_raffles@ == without(old(self).active_raffles@, raffle_id),
            final(self).address == old(self).address,
            final(self).raffles == old(self).raffles,
            final(self).ledgers == old(self).ledgers,
            final(self).participations == old(self).participations,
    {
        let mut new_active: Vec<u64> = Vec::new();
        let mut i: usize = 0;
        while i < self.active_raffles.len()
            invariant
                i <= self.active_raffles.len(),
                new_active@ == without(self.active_raffles@.take(i as int), raffle_id),
            decreases self.active_raffles.len() - i,
        {
            proof {
                assert(self.active_raffles@.take(i + 1).drop_last() =~= self.active_raffles@.take(
                    i as int,
                ));
            }
            let id = self.active_raffles[i];
            if id != raffle_id {
                new_active.push(id);
            }
            i = i + 1;
        }
        proof {
            assert(self.active_raffles@.take(i as int) =~= self.active_raffles@);
        }
        self.active_raffles = new_active;
    }

    /// Puts `user` on record as taking part in the raffle `raffle_id`,
    /// unless the record is there.
    fn add_user_raffle(&mut self, user: Address, raffle_id: u64)
        ensures
            final(self).participations@ == joined_after(old(self).participations@, user, raffle_id),
            final(self).address == old(self).address,
            final(self).raffles == old(self).raffles,
            final(self).ledgers == old(self).ledgers,
            final(self).active_raffles == old(self).active_raffles,
    {
        if !self.has_joined(user, raffle_id) {
            self.participations.push(Participation { user, raffle_id });
        }
    }

    /// Whether `user` is on record as taking part in the raffle
    /// `raffle_id`.
    fn has_joined(&self, user: Address, raffle_id: u64) -> (found: bool)
        ensures
            found == has_joined(self.participations@, user, raffle_id),
    {
        let entry = Participation { user, raffle_id };
        let mut i: usize = 0;
        while i < self.participations.len()
            invariant
                i <= self.participations.len(),
                entry == (Participation { user, raffle_id }),
                forall|j: int| 0 <= j < i ==> self.participations@[j] != entry,
            decreases self.participations.len() - i,
        {
            if self.participations[i] == entry {
                return true;
            }
            i = i + 1;
        }
        false
    }

    /// Creates a raffle for `creator`, who must have authorized the
    /// invocation, and puts it on sale. Returns the id of the raffle.
    pub fn create_raffle(
        &mut self,
        env: &Env,
        creator: Address,
        description: String,
        end_time: u64,
        max_tickets: u32,
        allow_multiple: bool,
        ticket_price: i128,
        payment_token: Address,
        prize_amount: i128,
    ) -> (res: Result<Receipt<u64, Event>, Error>)
        requires
            old(self).wf(),
        ensures
            final(self).wf(),
            follows(
                res,
                old(self)@,
                final(self)@,
                create_raffle_error(
                    old(self)@,
                    *env,
                    creator,
                    end_time,
                    max_tickets,
                    ticket_price,
                    prize_amount,
                ),
                create_raffle_step(
                    old(self)@,
                    creator,
                    description,
                    end_time,
                    max_tickets,
                    allow_multiple,
                    ticket_price,
                    payment_token,
                    prize_amount,
                ),
            ),
    {
        if !env.is_authorized_by(&creator) {
            return Err(Error::NotAuthorized);
        }
        let now = env.timestamp;
        if end_time < now && end_time != 0 {
            return Err(Error::InvalidParameters);
        }
        if max_tickets == 0 {
            return Err(Error::InvalidParameters);
        }
        if ticket_price <= 0 {
            return Err(Error::InvalidParameters);
        }
        if prize_amount <= 0 {
            return Err(Error::InvalidParameters);
        }
        let raffle_id = match self.next_raffle_id() {
            Some(id) => id,
            None => {
                return Err(Error::ArithmeticOverflow);
            },
        };
        let raffle = Raffle {
            id: raffle_id,
            creator,
            description: description.clone(),
            end_time,
            max_tickets,
            allow_multiple,
            ticket_price,
            payment_token,
            prize_amount,
            tickets_sold: 0,
            is_active: true,
            prize_deposited: false,
            prize_claimed: false,
            winner: None,
        };
        self.raffles.push(raffle);
        self.ledgers.push(TicketLedger::new());
        let mut events: Vec<Event> = Vec::new();
        events.push(
            Event::RaffleCreated(
                RaffleCreated {
                    raffle_id,
                    creator,
                    end_time,
                    max_tickets,
                    ticket_price,
                    payment_token,
                    description,
                },
            ),
        );
        self.add_active_raffle(raffle_id);
        proof {
            let step = create_raffle_step(
                old(self)@,
                creator,
                description,
                end_time,
                max_tickets,
                allow_multiple,
                ticket_price,
                payment_token,
                prize_amount,
            );
            assert(self@.tickets =~= step.state.tickets);
            assert(views(events@) =~= step.events);
            assert forall|id: int| 0 <= id < self@.raffles.len() implies raffle_valid(
                #[trigger] self@.raffles[id],
                id,
                self@.tickets[id],
            ) by {
                if id < old(self)@.raffles.len() {
                    assert(self@.raffles[id] == old(self)@.raffles[id]);
                    assert(self@.tickets[id] == old(self)@.tickets[id]);
                }
            }
        }
        Ok(Receipt { value: raffle_id, transfers: Vec::new(), events })
    }

    /// Moves the prize of the raffle from its creator into escrow.
    pub fn deposit_prize(&mut self, env: &Env, raffle_id: u64) -> (res: Result<
        Receipt<(), Event>,
        Error,
    >)
        requires
            old(self).wf(),
        ensures
            final(self).wf(),
            follows(
                res,
                old(self)@,
                final(self)@,
                deposit_error(old(self)@, *env, raffle_id),
                deposit_step(old(self)@, raffle_id),
            ),
    {
        let raffle = self.read_raffle(raffle_id)?;
        if !env.is_authorized_by(&raffle.creator) {
            return Err(Error::NotAuthorized);
        }
        if !raffle.is_active {
            return Err(Error::RaffleInactive);
        }
        if raffle.prize_deposited {
            return Err(Error::PrizeAlreadyDeposited);
        }
        let mut transfers: Vec<Transfer> = Vec::new();
        transfers.push(
            Transfer {
                token: raffle.payment_token,
                from: raffle.creator,
                to: self.address,
                amount: raffle.prize_amount,
            },
        );
        self.raffles[raffle_id as usize].prize_deposited = true;
        proof {
            let step = deposit_step(old(self)@, raffle_id);
            assert(self@.raffles =~= step.state.raffles);
            assert(self@.tickets =~= step.state.tickets);
            assert(transfers@ =~= step.transfers);
            assert(views(Seq::<Event>::empty()) =~= step.events);
        }
        Ok(Receipt { value: (), transfers, events: Vec::new() })
    }

    /// Sells `quantity` tickets of the raffle to `buyer` for `total_cost`:
    /// the part that `buy_ticket` and `buy_tickets` share, after their
    /// checks.
    fn purchase(
        &mut self,
        env: &Env,
        raffle_id: u64,
        buyer: Address,
        quantity: u32,
        total_cost: i128,
    ) -> (receipt: Receipt<u32, Event>)
        requires
            old(self).wf(),
            exists_raffle(old(self)@, raffle_id),
            raffle_id <= usize::MAX,
            quantity >= 1,
            old(self)@.raffles[raffle_id as int].is_active,
            old(self)@.raffles[raffle_id as int].tickets_sold + quantity <= old(
                self,
            )@.raffles[raffle_id as int].max_tickets,
        ensures
            final(self).wf(),
            follows(
                Ok(receipt),
                old(self)@,
                final(self)@,
                None,
                purchase_step(old(self)@, *env, raffle_id, buyer, quantity, total_cost),
            ),
    {
        let index = raffle_id as usize;
        let timestamp = env.timestamp;
        let mut transfers: Vec<Transfer> = Vec::new();
        transfers.push(
            Transfer {
                token: self.raffles[index].payment_token,
                from: buyer,
                to: self.address,
                amount: total_cost,
            },
        );
        let ticket_ids = self.ledgers[index].record_purchase(buyer, quantity, timestamp);
        let sold = self.raffles[index].tickets_sold + quantity;
        self.raffles[index].tickets_sold = sold;
        self.add_user_raffle(buyer, raffle_id);
        let mut events: Vec<Event> = Vec::new();
        events.push(
            Event::TicketPurchased(
                TicketPurchased {
                    raffle_id,
                    buyer,
                    ticket_ids,
                    quantity,
                    total_paid: total_cost,
                    timestamp,
                },
            ),
        );
        proof {
            let step = purchase_step(old(self)@, *env, raffle_id, buyer, quantity, total_cost);
            assert(self@.raffles =~= step.state.raffles);
            assert(self@.tickets =~= step.state.tickets);
            assert(transfers@ =~= step.transfers);
            assert(views(events@) =~= step.events);
            assert forall|id: int| 0 <= id < self@.raffles.len() implies raffle_valid(
                #[trigger] self@.raffles[id],
                id,
                self@.tickets[id],
            ) by {
                if id != raffle_id {
                    assert(self@.raffles[id] == old(self)@.raffles[id]);
                    assert(self@.tickets[id] == old(self)@.tickets[id]);
                }
            }
        }
        Receipt { value: sold, transfers, events }
    }

    /// Sells one ticket of the raffle to `buyer`, who must have authorized
    /// the invocation. Returns the number of tickets sold so far.
    pub fn buy_ticket(&mut self, env: &Env, raffle_id: u64, buyer: Address) -> (res: Result<
        Receipt<u32, Event>,
        Error,
    >)
        requires
            old(self).wf(),
        ensures
            final(self).wf(),
            follows(
                res,
                old(self)@,
                final(self)@,
                buy_ticket_error(old(self)@, *env, raffle_id, buyer),
                buy_ticket_step(old(self)@, *env, raffle_id, buyer),
            ),
    {
        if !env.is_authorized_by(&buyer) {
            return Err(Error::NotAuthorized);
        }
        let raffle = self.read_raffle(raffle_id)?;
        if !raffle.is_active {
            return Err(Error::RaffleInactive);
        }
        if raffle.end_time != 0 && env.timestamp > raffle.end_time {
            return Err(Error::RaffleEnded);
        }
        if raffle.tickets_sold >= raffle.max_tickets {
            return Err(Error::TicketsSoldOut);
        }
        let current_count = self.ledgers[raffle_id as usize].count_for(&buyer);
        if !raffle.allow_multiple && current_count > 0 {
            return Err(Error::MultipleTicketsNotAllowed);
        }
        Ok(self.purchase(env, raffle_id, buyer, 1, raffle.ticket_price))
    }

    /// Sells `quantity` tickets of the raffle to `buyer`, who must have
    /// authorized the invocation, against one payment for the batch.
    /// Returns the number of tickets sold so far.
    pub fn buy_tickets(&mut self, env: &Env, raffle_id: u64, buyer: Address, quantity: u32) -> (res:
        Result<Receipt<u32, Event>, Error>)
        requires
            old(self).wf(),
        ensures
            final(self).wf(),
            follows(
                res,
                old(self)@,
                final(self)@,
                buy_tickets_error(old(self)@, *env, raffle_id, buyer, quantity),
                buy_tickets_step(old(self)@, *env, raffle_id, buyer, quantity),
            ),
    {
        if !env.is_authorized_by(&buyer) {
            return Err(Error::NotAuthorized);
        }
        let raffle = self.read_raffle(raffle_id)?;
        if quantity == 0 {
            return Err(Error::InvalidParameters);
        }
        if !raffle.is_active {
            return Err(Error::RaffleInactive);
        }
        if raffle.end_time != 0 && env.timestamp > raffle.end_time {
            return Err(Error::RaffleEnded);
        }
        let remaining_tickets = raffle.max_tickets - raffle.tickets_sold;
        if quantity > remaining_tickets {
            return Err(Error::InsufficientTickets);
        }
        let current_count = self.ledgers[raffle_id as usize].count_for(&buyer);
        if !raffle.allow_multiple {
            if current_count > 0 {
                return Err(Error::MultipleTicketsNotAllowed);
            }
            if quantity > 1 {
                return Err(Error::MultipleTicketsNotAllowed);
            }
        }
        let total_cost = match raffle.ticket_price.checked_mul(quantity as i128) {
            Some(cost) => cost,
            None => {
                return Err(Error::ArithmeticOverflow);
            },
        };
        Ok(self.purchase(env, raffle_id, buyer, quantity, total_cost))
    }

    /// Ends the sale of the raffle, once its deadline has passed or every
    /// ticket is sold, and draws the winner from the pool. `source` names the source of the randomness for the record. Returns
    /// the winner.
    pub fn finalize_raffle(&mut self, env: &Env, raffle_id: u64, source: String) -> (res: Result<
        Receipt<Address, Event>,
        Error,
    >)
        requires
            old(self).wf(),
        ensures
            final(self).wf(),
            follows(
                res,
                old(self)@,
                final(self)@,
                finalize_error(old(self)@, *env, raffle_id),
                finalize_step(old(self)@, *env, raffle_id, source),
            ),
    {
        let raffle = self.read_raffle(raffle_id)?;
        if !env.is_authorized_by(&raffle.creator) {
            return Err(Error::NotAuthorized);
        }
        if !raffle.is_active {
            return Err(Error::RaffleInactive);
        }
        if raffle.end_time != 0 && env.timestamp < raffle.end_time && raffle.tickets_sold
            < raffle.max_tickets {
            return Err(Error::RaffleStillRunning);
        }
        if raffle.tickets_sold == 0 {
            return Err(Error::NoTicketsSold);
        }
        let index = raffle_id as usize;
        let seed: u128 = env.timestamp as u128 + env.sequence as u128;
        let winner_index: u32 = (seed % (self.ledgers[index].len() as u128)) as u32;
        let winner = self.ledgers[index].holder(winner_index);
        self.raffles[index].is_active = false;
        self.raffles[index].winner = Some(winner);
        self.remove_active_raffle(raffle_id);
        let mut events: Vec<Event> = Vec::new();
        events.push(
            Event::RaffleFinalized(
                RaffleFinalized {
                    raffle_id,
                    winner,
                    winning_ticket_id: winner_index,
                    total_tickets_sold: raffle.tickets_sold,
                    randomness_source: source,
                    finalized_at: env.timestamp,
                },
            ),
        );
        proof {
            let step = finalize_step(old(self)@, *env, raffle_id, source);
            assert(self@.raffles =~= step.state.raffles);
            assert(self@.tickets =~= step.state.tickets);
            assert(views(events@) =~= step.events);
            assert forall|id: int| 0 <= id < self@.raffles.len() implies raffle_valid(
                #[trigger] self@.raffles[id],
                id,
                self@.tickets[id],
            ) by {
                if id != raffle_id {
                    assert(self@.raffles[id] == old(self)@.raffles[id]);
                }
                assert(self@.tickets[id] == old(self)@.tickets[id]);
            }
        }
        Ok(Receipt { value: winner, transfers: Vec::new(), events })
    }

    /// Pays the prize of the raffle out of escrow to `winner`, who must
    /// have authorized the invocation. Returns the amount paid.
    pub fn claim_prize(&mut self, env: &Env, raffle_id: u64, winner: Address) -> (res: Result<
        Receipt<i128, Event>,
        Error,
    >)
        requires
            old(self).wf(),
        ensures
            final(self).wf(),
            follows(
                res,
                old(self)@,
                final(self)@,
                claim_error(old(self)@, *env, raffle_id, winner),
                claim_step(old(self)@, *env, raffle_id, winner),
            ),
    {
        if !env.is_authorized_by(&winner) {
            return Err(Error::NotAuthorized);
        }
        let raffle = self.read_raffle(raffle_id)?;
        if raffle.prize_claimed {
            return Err(Error::InvalidStateTransition);
        }
        if raffle.winner != Some(winner) {
            return Err(Error::NotWinner);
        }
        if !raffle.prize_deposited {
            return Err(Error::PrizeNotDeposited);
        }
        let gross_amount = raffle.prize_amount;
        let platform_fee: i128 = 0;
        let net_amount = gross_amount - platform_fee;
        let claimed_at = env.timestamp;
        let mut transfers: Vec<Transfer> = Vec::new();
        transfers.push(
            Transfer { token: raffle.payment_token, from: self.address, to: winner, amount: net_amount },
        );
        let mut events: Vec<Event> = Vec::new();
        events.push(
            Event::PrizeClaimed(
                PrizeClaimed {
                    raffle_id,
                    winner,
                    gross_amount,
                    net_amount,
                    platform_fee,
                    claimed_at,
                },
            ),
        );
        self.raffles[raffle_id as usize].prize_claimed = true;
        proof {
            let step = claim_step(old(self)@, *env, raffle_id, winner);
            assert(self@.raffles =~= step.state.raffles);
            assert(self@.tickets =~= step.state.tickets);
            assert(transfers@ =~= step.transfers);
            assert(views(events@) =~= step.events);
        }
        Ok(Receipt { value: net_amount, transfers, events })
    }
}

} // verus!
