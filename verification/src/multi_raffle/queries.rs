//! The entry points that only read: raffles, tickets, sales figures and
//! pages of ids. None of them asks for an authorization.

use vstd::prelude::*;
use crate::address::Address;
use crate::host::Env;
use crate::ledger;
use crate::ledger::count_of;
use crate::multi_raffle::state::{Contract, Participation, State, exists_raffle, raffle_valid};
use crate::multi_raffle::types::{
    Error, PaginatedRaffleIds, Raffle, RaffleStats, RaffleStatus, RaffleWithStats, Ticket,
    UserParticipation, build_raffle_stats, build_raffle_status, stats_of, stats_overflow, status_of,
};
use crate::pagination::{
    MAX_PAGE_LIMIT, cap_limit, capped, end_of_page, meta_of_page, page_end, page_len, page_meta,
    saturate, saturated, window,
};

verus! {

// Tickets

/// A ticket of the ledger as the contract hands it out: with the id of its
/// raffle.
pub open spec fn ticket_of(raffle_id: u64, t: ledger::Ticket) -> Ticket {
    Ticket {
        id: t.id,
        raffle_id,
        buyer: t.buyer,
        purchase_time: t.purchase_time,
        ticket_number: t.ticket_number,
    }
}

/// The tickets of a raffle, oldest first.
pub open spec fn tickets_of(raffle_id: u64, tickets: Seq<ledger::Ticket>) -> Seq<Ticket> {
    Seq::new(tickets.len(), |i: int| ticket_of(raffle_id, tickets[i]))
}

/// The tickets of a raffle that `buyer` holds, oldest first.
pub open spec fn tickets_held(raffle_id: u64, tickets: Seq<ledger::Ticket>, buyer: Address) -> Seq<
    Ticket,
>
    decreases tickets.len(),
{
    if tickets.len() == 0 {
        Seq::empty()
    } else if tickets.last().buyer == buyer {
        tickets_held(raffle_id, tickets.drop_last(), buyer).push(ticket_of(raffle_id, tickets.last()))
    } else {
        tickets_held(raffle_id, tickets.drop_last(), buyer)
    }
}

// Pages of raffle ids

/// The page of all raffle ids: of `total` ids, those at the positions from
/// `offset` on, counted from the oldest or, with `newest_first`, from the
/// newest.
pub open spec fn all_ids_page(total: u32, offset: u32, limit: u32, newest_first: bool) -> Seq<u64> {
    Seq::new(
        page_len(offset as int, limit, total as int) as nat,
        |i: int|
            if newest_first {
                (total - 1 - (offset + i)) as u64
            } else {
                (offset + i) as u64
            },
    )
}

/// Whether the raffle `raffle_id` is shown in the active listing: on sale
/// without a deadline or with one that is still ahead.
pub open spec fn is_listed(s: State, raffle_id: u64, now: u64) -> bool {
    exists_raffle(s, raffle_id) && s.raffles[raffle_id as int].is_active && (
    s.raffles[raffle_id as int].end_time == 0 || s.raffles[raffle_id as int].end_time > now)
}

/// Those of `ids` that are shown in the active listing, in their order.
pub open spec fn listed(s: State, ids: Seq<u64>, now: u64) -> Seq<u64>
    decreases ids.len(),
{
    if ids.len() == 0 {
        Seq::empty()
    } else if is_listed(s, ids.last(), now) {
        listed(s, ids.drop_last(), now).push(ids.last())
    } else {
        listed(s, ids.drop_last(), now)
    }
}

/// The total that the active listing reports at ledger time `now`: the
/// number of raffles that it shows, cut off at `u32::MAX`.
pub open spec fn active_total(s: State, now: u64) -> u32 {
    saturated(listed(s, s.active, now).len() as int)
}

/// The page of the active listing at ledger time `now`: the raffles shown
/// from `offset` on; empty where the offset is at or behind the total.
pub open spec fn active_page(s: State, now: u64, offset: u32, limit: u32) -> Seq<u64> {
    if capped(limit) == 0 || active_total(s, now) == 0 || offset >= active_total(s, now) {
        Seq::empty()
    } else {
        window(listed(s, s.active, now), offset as int, capped(limit) as int)
    }
}

// Participation

/// The raffles that `user` took part in, in the order of joining.
pub open spec fn raffles_of(joined: Seq<Participation>, user: Address) -> Seq<u64>
    decreases joined.len(),
{
    if joined.len() == 0 {
        Seq::empty()
    } else if joined.last().user == user {
        raffles_of(joined.drop_last(), user).push(joined.last().raffle_id)
    } else {
        raffles_of(joined.drop_last(), user)
    }
}

/// An amount as a total holds it: cut off at the ends of the range of
/// `i128`.
pub open spec fn clamped(amount: int) -> i128 {
    if amount > i128::MAX {
        i128::MAX
    } else if amount < i128::MIN {
        i128::MIN
    } else {
        amount as i128
    }
}

/// What `count` tickets of a raffle cost, cut off where the product does
/// not fit.
pub open spec fn spent_in(r: Raffle, count: u32) -> i128 {
    clamped(r.ticket_price * count)
}

/// What `count` tickets at `price` cost, cut off where the product does not
/// fit.
pub fn saturating_cost(price: i128, count: u32) -> (cost: i128)
    ensures
        cost == clamped(price * count),
{
    assert(price > 0 ==> price * count >= 0) by (nonlinear_arith);
    assert(price <= 0 ==> price * count <= 0) by (nonlinear_arith);
    match price.checked_mul(count as i128) {
        Some(cost) => cost,
        None => if price > 0 {
            i128::MAX
        } else {
            i128::MIN
        },
    }
}

/// A running total with `amount` added, cut off where the sum does not fit.
pub fn saturating_sum(total: i128, amount: i128) -> (sum: i128)
    ensures
        sum == clamped(total + amount),
{
    match total.checked_add(amount) {
        Some(sum) => sum,
        None => if amount > 0 {
            i128::MAX
        } else {
            i128::MIN
        },
    }
}

/// What a user did over some raffles, as a specification.
pub struct Rollup {
    pub raffle_ids: Seq<u64>,
    pub ticket_counts: Seq<u32>,
    pub total_spent: i128,
    pub win_count: int,
    pub total_winnings: i128,
}

/// What `user` did over the raffles `ids`, taken in order: for each that
/// exists its id, the user's tickets in it and what they cost, and where
/// the user is the winner one win and the prize. The totals saturate: a
/// cost or a running total that does not fit in `i128` is cut off at the end
/// of the range.
pub open spec fn rollup(s: State, user: Address, ids: Seq<u64>) -> Rollup
    decreases ids.len(),
{
    if ids.len() == 0 {
        Rollup {
            raffle_ids: Seq::empty(),
            ticket_counts: Seq::empty(),
            total_spent: 0,
            win_count: 0,
            total_winnings: 0,
        }
    } else {
        let before = rollup(s, user, ids.drop_last());
        let id = ids.last();
        if !exists_raffle(s, id) {
            before
        } else {
            let r = s.raffles[id as int];
            let count = count_of(s.tickets[id as int], user) as u32;
            let won = r.winner == Some(user);
            Rollup {
                raffle_ids: before.raffle_ids.push(id),
                ticket_counts: before.ticket_counts.push(count),
                total_spent: clamped(before.total_spent + spent_in(r, count)),
                win_count: before.win_count + if won {
                    1int
                } else {
                    0int
                },
                total_winnings: if won {
                    clamped(before.total_winnings + r.prize_amount)
                } else {
                    before.total_winnings
                },
            }
        }
    }
}

/// Whether `p` holds what the rollup `r` says.
pub open spec fn reports(p: UserParticipation, r: Rollup) -> bool {
    &&& p.raffle_ids@ == r.raffle_ids
    &&& p.ticket_counts@ == r.ticket_counts
    &&& p.total_spent == r.total_spent
    &&& p.win_count == r.win_count
    &&& p.total_winnings == r.total_winnings
}

/// A rollup has one id and one count for each raffle that exists, and at
/// most one win for each.
pub proof fn lemma_rollup_bounded(s: State, user: Address, ids: Seq<u64>)
    ensures
        rollup(s, user, ids).raffle_ids.len() == rollup(s, user, ids).ticket_counts.len(),
        rollup(s, user, ids).raffle_ids.len() <= ids.len(),
        0 <= rollup(s, user, ids).win_count <= ids.len(),
    decreases ids.len(),
{
    if ids.len() > 0 {
        lemma_rollup_bounded(s, user, ids.drop_last());
    }
}

impl Contract {
    /// The draw pool of the raffle `raffle_id`: the holder of each ticket,
    /// in the order of sale; empty where there is no such raffle.
    pub fn read_tickets(&self, raffle_id: u64) -> (p: Vec<Address>)
        requires
            self.wf(),
        ensures
            p@ == (if exists_raffle(self@, raffle_id) {
                ledger::pool(self@.tickets[raffle_id as int])
            } else {
                Seq::empty()
            }),
    {
        if raffle_id < self.raffles.len() as u64 {
            self.ledgers[raffle_id as usize].pool()
        } else {
            Vec::new()
        }
    }

    /// How many tickets of the raffle `raffle_id` the user holds; 0 where
    /// there is no such raffle.
    fn read_ticket_count(&self, raffle_id: u64, buyer: &Address) -> (n: u32)
        requires
            self.wf(),
        ensures
            n == (if exists_raffle(self@, raffle_id) {
                count_of(self@.tickets[raffle_id as int], *buyer)
            } else {
                0
            }),
    {
        if raffle_id < self.raffles.len() as u64 {
            assert(raffle_valid(
                self@.raffles[raffle_id as int],
                raffle_id as int,
                self@.tickets[raffle_id as int],
            ));
            self.ledgers[raffle_id as usize].count_for(buyer)
        } else {
            0
        }
    }

    /// The ticket `ticket_id` of the raffle `raffle_id`, if there is one.
    fn read_ticket(&self, raffle_id: u64, ticket_id: u32) -> (t: Option<Ticket>)
        requires
            self.wf(),
        ensures
            t == (if exists_raffle(self@, raffle_id) && 1 <= ticket_id
                <= self@.tickets[raffle_id as int].len() {
                Some(ticket_of(raffle_id, self@.tickets[raffle_id as int][ticket_id - 1]))
            } else {
                None
            }),
    {
        if raffle_id < self.raffles.len() as u64 {
            assert(raffle_valid(
                self@.raffles[raffle_id as int],
                raffle_id as int,
                self@.tickets[raffle_id as int],
            ));
            match self.ledgers[raffle_id as usize].get(ticket_id) {
                Some(t) => Some(
                    Ticket {
                        id: t.id,
                        raffle_id,
                        buyer: t.buyer,
                        purchase_time: t.purchase_time,
                        ticket_number: t.ticket_number,
                    },
                ),
                None => None,
            }
        } else {
            None
        }
    }

    /// The raffles that `user` took part in, in the order of joining.
    pub fn read_user_raffles(&self, user: &Address) -> (ids: Vec<u64>)
        ensures
            ids@ == raffles_of(self@.joined, *user),
    {
        let mut ids: Vec<u64> = Vec::new();
        let mut i: usize = 0;
        while i < self.participations.len()
            invariant
                i <= self.participations.len(),
                ids@ == raffles_of(self.participations@.take(i as int), *user),
            decreases self.participations.len() - i,
        {
            proof {
                assert(self.participations@.take(i + 1).drop_last() =~= self.participations@.take(
                    i as int,
                ));
            }
            if self.participations[i].user == *user {
                ids.push(self.participations[i].raffle_id);
            }
            i = i + 1;
        }
        proof {
            assert(self.participations@.take(i as int) =~= self.participations@);
        }
        ids
    }

    /// The raffle with the id `raffle_id`.
    pub fn get_raffle(&self, raffle_id: u64) -> (res: Result<Raffle, Error>)
        ensures
            match res {
                Ok(r) => exists_raffle(self@, raffle_id) && r == self@.raffles[raffle_id as int],
                Err(e) => !exists_raffle(self@, raffle_id) && e == Error::RaffleNotFound,
            },
    {
        self.read_raffle(raffle_id)
    }

    /// The raffle with the id `raffle_id` together with its sales figures.
    pub fn get_raffle_by_id(&self, raffle_id: u64) -> (res: Result<RaffleWithStats, Error>)
        ensures
            match res {
                Ok(both) => {
                    &&& exists_raffle(self@, raffle_id)
                    &&& both.raffle == self@.raffles[raffle_id as int]
                    &&& !stats_overflow(both.raffle)
                    &&& both.stats == stats_of(both.raffle)
                },
                Err(e) => e == (if !exists_raffle(self@, raffle_id) {
                    Error::RaffleNotFound
                } else {
                    Error::ArithmeticOverflow
                }) && (exists_raffle(self@, raffle_id) ==> stats_overflow(
                    self@.raffles[raffle_id as int],
                )),
            },
    {
        let raffle = self.read_raffle(raffle_id)?;
        let stats = build_raffle_stats(&raffle)?;
        Ok(RaffleWithStats { raffle, stats })
    }

    /// How many tickets of the raffle `raffle_id` the user holds; 0 where
    /// there is no such raffle.
    pub fn get_user_tickets(&self, raffle_id: u64, user: Address) -> (n: u32)
        requires
            self.wf(),
        ensures
            n == (if exists_raffle(self@, raffle_id) {
                count_of(self@.tickets[raffle_id as int], user)
            } else {
                0
            }),
    {
        self.read_ticket_count(raffle_id, &user)
    }

    /// Where the raffle `raffle_id` stands.
    pub fn get_raffle_status(&self, raffle_id: u64) -> (res: Result<RaffleStatus, Error>)
        ensures
            match res {
                Ok(status) => exists_raffle(self@, raffle_id) && status == status_of(
                    self@.raffles[raffle_id as int],
                ),
                Err(e) => !exists_raffle(self@, raffle_id) && e == Error::RaffleNotFound,
            },
    {
        let raffle = self.read_raffle(raffle_id)?;
        Ok(build_raffle_status(&raffle))
    }

    /// The sales figures of the raffle `raffle_id`.
    pub fn get_raffle_stats(&self, raffle_id: u64) -> (res: Result<RaffleStats, Error>)
        ensures
            match res {
                Ok(stats) => exists_raffle(self@, raffle_id) && !stats_overflow(
                    self@.raffles[raffle_id as int],
                ) && stats == stats_of(self@.raffles[raffle_id as int]),
                Err(e) => e == (if !exists_raffle(self@, raffle_id) {
                    Error::RaffleNotFound
                } else {
                    Error::ArithmeticOverflow
                }) && (exists_raffle(self@, raffle_id) ==> stats_overflow(
                    self@.raffles[raffle_id as int],
                )),
            },
    {
        let raffle = self.read_raffle(raffle_id)?;
        build_raffle_stats(&raffle)
    }

    /// A page of the ids of all raffles, oldest first or, with
    /// `newest_first`, newest first. The total is cut off at `u32::MAX`.
    pub fn get_all_raffle_ids(&self, offset: u32, limit: u32, newest_first: bool) -> (page:
        PaginatedRaffleIds)
        ensures
            page.data@ == all_ids_page(
                saturated(self@.raffles.len() as int),
                offset,
                limit,
                newest_first,
            ),
            page.meta == page_meta(
                offset,
                limit,
                saturated(self@.raffles.len() as int),
                page.data@.len() as int,
            ),
    {
        let total = saturate(self.raffles.len());
        let mut data: Vec<u64> = Vec::new();
        let end = end_of_page(offset as usize, limit, total as usize);
        let mut position: usize = offset as usize;
        while position < end
            invariant
                offset <= position <= end,
                end == page_end(offset as int, limit, total as int),
                offset < total ==> end <= total,
                data@ == all_ids_page(total, offset, limit, newest_first).take(position - offset),
            decreases end - position,
        {
            if newest_first {
                data.push((total as usize - 1 - position) as u64);
            } else {
                data.push(position as u64);
            }
            position = position + 1;
            proof {
                assert(data@ =~= all_ids_page(total, offset, limit, newest_first).take(
                    position - offset,
                ));
            }
        }
        proof {
            assert(data@ =~= all_ids_page(total, offset, limit, newest_first));
        }
        let meta = meta_of_page(offset, limit, total, data.len());
        PaginatedRaffleIds { data, meta }
    }

    /// The tickets of the raffle `raffle_id`, oldest first.
    pub fn get_tickets(&self, raffle_id: u64) -> (res: Result<Vec<Ticket>, Error>)
        requires
            self.wf(),
        ensures
            match res {
                Ok(tickets) => exists_raffle(self@, raffle_id) && tickets@ == tickets_of(
                    raffle_id,
                    self@.tickets[raffle_id as int],
                ),
                Err(e) => !exists_raffle(self@, raffle_id) && e == Error::RaffleNotFound,
            },
    {
        let raffle = self.read_raffle(raffle_id)?;
        assert(raffle_valid(
            self@.raffles[raffle_id as int],
            raffle_id as int,
            self@.tickets[raffle_id as int],
        ));
        let ghost all = self@.tickets[raffle_id as int];
        let mut tickets: Vec<Ticket> = Vec::new();
        let mut ticket_num: u32 = 1;
        while ticket_num <= raffle.tickets_sold
            invariant
                self.wf(),
                exists_raffle(self@, raffle_id),
                all == self@.tickets[raffle_id as int],
                all.len() == raffle.tickets_sold,
                1 <= ticket_num <= raffle.tickets_sold + 1,
                tickets@ == tickets_of(raffle_id, all.take(ticket_num - 1)),
            decreases raffle.tickets_sold + 1 - ticket_num,
        {
            if let Some(ticket) = self.read_ticket(raffle_id, ticket_num) {
                tickets.push(ticket);
            }
            proof {
                assert(tickets@ =~= tickets_of(raffle_id, all.take(ticket_num as int)));
            }
            if ticket_num == u32::MAX {
                proof {
                    assert(all.take(ticket_num as int) =~= all);
                }
                return Ok(tickets);
            }
            ticket_num = ticket_num + 1;
        }
        proof {
            assert(all.take(ticket_num - 1) =~= all);
        }
        Ok(tickets)
    }

    /// The ticket `ticket_id` of the raffle `raffle_id`, if there is one.
    pub fn get_ticket(&self, raffle_id: u64, ticket_id: u32) -> (t: Option<Ticket>)
        requires
            self.wf(),
        ensures
            t == (if exists_raffle(self@, raffle_id) && 1 <= ticket_id
                <= self@.tickets[raffle_id as int].len() {
                Some(ticket_of(raffle_id, self@.tickets[raffle_id as int][ticket_id - 1]))
            } else {
                None
            }),
    {
        self.read_ticket(raffle_id, ticket_id)
    }

    /// The tickets of the raffle `raffle_id` that `buyer` holds, oldest
    /// first.
    pub fn get_tickets_by_buyer(&self, raffle_id: u64, buyer: Address) -> (res: Result<
        Vec<Ticket>,
        Error,
    >)
        requires
            self.wf(),
        ensures
            match res {
                Ok(tickets) => exists_raffle(self@, raffle_id) && tickets@ == tickets_held(
                    raffle_id,
                    self@.tickets[raffle_id as int],
                    buyer,
                ),
                Err(e) => !exists_raffle(self@, raffle_id) && e == Error::RaffleNotFound,
            },
    {
        let raffle = self.read_raffle(raffle_id)?;
        assert(raffle_valid(
            self@.raffles[raffle_id as int],
            raffle_id as int,
            self@.tickets[raffle_id as int],
        ));
        let ghost all = self@.tickets[raffle_id as int];
        let mut buyer_tickets: Vec<Ticket> = Vec::new();
        let mut ticket_num: u32 = 1;
        while ticket_num <= raffle.tickets_sold
            invariant
                self.wf(),
                exists_raffle(self@, raffle_id),
                all == self@.tickets[raffle_id as int],
                all.len() == raffle.tickets_sold,
                1 <= ticket_num <= raffle.tickets_sold + 1,
                buyer_tickets@ == tickets_held(raffle_id, all.take(ticket_num - 1), buyer),
            decreases raffle.tickets_sold + 1 - ticket_num,
        {
            proof {
                assert(all.take(ticket_num as int).drop_last() =~= all.take(ticket_num - 1));
            }
            if let Some(ticket) = self.read_ticket(raffle_id, ticket_num) {
                if ticket.buyer == buyer {
                    buyer_tickets.push(ticket);
                }
            }
            if ticket_num == u32::MAX {
                proof {
                    assert(all.take(ticket_num as int) =~= all);
                }
                return Ok(buyer_tickets);
            }
            ticket_num = ticket_num + 1;
        }
        proof {
            assert(all.take(ticket_num - 1) =~= all);
        }
        Ok(buyer_tickets)
    }

    /// A page of the raffles on sale at ledger time `env.timestamp`.
    ///
    /// The listing holds the raffles on sale that have no deadline or whose
    /// deadline is still ahead, in the order of creation. The page shows
    /// them from `offset` on, and the total is their number, cut off at
    /// `u32::MAX`.
    pub fn get_active_raffle_ids(&self, env: &Env, offset: u32, limit: u32) -> (page:
        PaginatedRaffleIds)
        ensures
            page.data@ == active_page(self@, env.timestamp, offset, limit),
            page.meta == page_meta(
                offset,
                limit,
                active_total(self@, env.timestamp),
                page.data@.len() as int,
            ),
    {
        let capped_limit = cap_limit(limit);
        let current_time = env.timestamp;
        let mut total_active: u32 = 0;
        let mut i: usize = 0;
        while i < self.active_raffles.len()
            invariant
                i <= self.active_raffles.len(),
                total_active == saturated(
                    listed(self@, self.active_raffles@.take(i as int), current_time).len() as int,
                ),
            decreases self.active_raffles.len() - i,
        {
            proof {
                assert(self.active_raffles@.take(i + 1).drop_last() =~= self.active_raffles@.take(
                    i as int,
                ));
            }
            let raffle_id = self.active_raffles[i];
            if raffle_id < self.raffles.len() as u64 {
                let raffle = &self.raffles[raffle_id as usize];
                if raffle.is_active && (raffle.end_time == 0 || raffle.end_time > current_time) {
                    if total_active < u32::MAX {
                        total_active = total_active + 1;
                    }
                }
            }
            i = i + 1;
        }
        proof {
            assert(self.active_raffles@.take(i as int) =~= self.active_raffles@);
        }
        let mut data: Vec<u64> = Vec::new();
        if capped_limit == 0 || total_active == 0 || offset >= total_active {
            let meta = meta_of_page(offset, limit, total_active, 0);
            return PaginatedRaffleIds { data, meta };
        }
        let mut count: u32 = 0;
        let mut skipped: u32 = 0;
        let mut i: usize = 0;
        while i < self.active_raffles.len()
            invariant
                i <= self.active_raffles.len(),
                capped_limit == capped(limit),
                capped_limit <= MAX_PAGE_LIMIT,
                count == data@.len(),
                count <= capped_limit,
                skipped <= offset,
                skipped as int == (if offset <= listed(
                    self@,
                    self.active_raffles@.take(i as int),
                    current_time,
                ).len() {
                    offset as int
                } else {
                    listed(self@, self.active_raffles@.take(i as int), current_time).len() as int
                }),
                data@ == window(
                    listed(self@, self.active_raffles@.take(i as int), current_time),
                    offset as int,
                    capped_limit as int,
                ),
            decreases self.active_raffles.len() - i,
        {
            proof {
                assert(self.active_raffles@.take(i + 1).drop_last() =~= self.active_raffles@.take(
                    i as int,
                ));
            }
            let ghost shown = listed(self@, self.active_raffles@.take(i as int), current_time);
            let raffle_id = self.active_raffles[i];
            if raffle_id < self.raffles.len() as u64 {
                let raffle = &self.raffles[raffle_id as usize];
                if raffle.is_active && (raffle.end_time == 0 || raffle.end_time > current_time) {
                    if skipped < offset {
                        skipped = skipped + 1;
                    } else if count < capped_limit {
                        data.push(raffle_id);
                        count = count + 1;
                    }
                    proof {
                        assert(data@ =~= window(
                            shown.push(raffle_id),
                            offset as int,
                            capped_limit as int,
                        ));
                    }
                }
            }
            i = i + 1;
        }
        proof {
            assert(self.active_raffles@.take(i as int) =~= self.active_raffles@);
        }
        let meta = meta_of_page(offset, limit, total_active, data.len());
        PaginatedRaffleIds { data, meta }
    }

    /// What `user` did over a page of the raffles they took part in: the
    /// raffles from position `offset` on in the order of joining, the
    /// user's tickets in each, what the tickets cost, how often the user
    /// won and what was won. A cost or a total that does not fit is cut off
    /// at the end of the range.
    pub fn get_user_raffle_participation(&self, user: Address, offset: u32, limit: u32) -> (p:
        UserParticipation)
        requires
            self.wf(),
        ensures
            reports(
                p,
                rollup(
                    self@,
                    user,
                    window(raffles_of(self@.joined, user), offset as int, capped(limit) as int),
                ),
            ),
    {
        let all_user_raffles = self.read_user_raffles(&user);
        let mut raffle_ids: Vec<u64> = Vec::new();
        let mut ticket_counts: Vec<u32> = Vec::new();
        let mut total_spent: i128 = 0;
        let mut win_count: u32 = 0;
        let mut total_winnings: i128 = 0;
        let start = offset as usize;
        let end = end_of_page(start, limit, all_user_raffles.len());
        let ghost page = window(all_user_raffles@, offset as int, capped(limit) as int);
        if start >= all_user_raffles.len() {
            return UserParticipation {
                raffle_ids,
                ticket_counts,
                total_spent,
                win_count,
                total_winnings,
            };
        }
        proof {
            assert(page =~= all_user_raffles@.subrange(start as int, end as int));
        }
        let mut i: usize = start;
        while i < end
            invariant
                self.wf(),
                start <= i <= end <= all_user_raffles.len(),
                end - start <= MAX_PAGE_LIMIT,
                win_count <= i - start,
                reports(
                    UserParticipation {
                        raffle_ids,
                        ticket_counts,
                        total_spent,
                        win_count,
                        total_winnings,
                    },
                    rollup(self@, user, all_user_raffles@.subrange(start as int, i as int)),
                ),
            decreases end - i,
        {
            proof {
                assert(all_user_raffles@.subrange(start as int, i + 1).drop_last()
                    =~= all_user_raffles@.subrange(start as int, i as int));
            }
            let raffle_id = all_user_raffles[i];
            if let Ok(raffle) = self.read_raffle(raffle_id) {
                let ticket_count = self.read_ticket_count(raffle_id, &user);
                let spent_for_raffle = saturating_cost(raffle.ticket_price, ticket_count);
                total_spent = saturating_sum(total_spent, spent_for_raffle);
                if let Some(winner) = raffle.winner {
                    if winner == user {
                        win_count = win_count + 1;
                        total_winnings = saturating_sum(total_winnings, raffle.prize_amount);
                    }
                }
                raffle_ids.push(raffle_id);
                ticket_counts.push(ticket_count);
            }
            i = i + 1;
        }
        UserParticipation { raffle_ids, ticket_counts, total_spent, win_count, total_winnings }
    }
}

} // verus!
