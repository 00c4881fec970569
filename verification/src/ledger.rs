//! The ticket ledger of one raffle: who holds which ticket.
//!
//! Tickets are kept in the order in which they were sold. The ledger does no
//! gating of its own: whether a purchase is allowed is the raffle's decision.

use vstd::prelude::*;
use crate::address::Address;

verus! {

/// One ticket. Written once when it is sold, never changed.
#[derive(Clone, Copy, Debug, PartialEq, Eq, Structural)]
pub struct Ticket {
    /// Sequential within the raffle, starting at 1.
    pub id: u32,
    pub buyer: Address,
    /// Ledger time of the purchase.
    pub purchase_time: u64,
    /// Position within the raffle, starting at 1.
    pub ticket_number: u32,
}

/// The tickets of one raffle, oldest first.
#[derive(Debug)]
pub struct TicketLedger {
    pub tickets: Vec<Ticket>,
}

impl View for TicketLedger {
    type V = Seq<Ticket>;

    open spec fn view(&self) -> Seq<Ticket> {
        self.tickets@
    }
}

/// Ids and ticket numbers count up from 1 without a gap, and fit in `u32`.
pub open spec fn sequential(tickets: Seq<Ticket>) -> bool {
    &&& tickets.len() <= u32::MAX
    &&& forall|i: int|
        0 <= i < tickets.len() ==> (#[trigger] tickets[i]).id == i + 1 && tickets[i].ticket_number
            == i + 1
}

/// The draw pool: the holder of each ticket, one entry per ticket sold.
pub open spec fn pool(tickets: Seq<Ticket>) -> Seq<Address> {
    Seq::new(tickets.len(), |i: int| tickets[i].buyer)
}

/// How many of the tickets `buyer` holds.
pub open spec fn count_of(tickets: Seq<Ticket>, buyer: Address) -> nat
    decreases tickets.len(),
{
    if tickets.len() == 0 {
        0
    } else {
        count_of(tickets.drop_last(), buyer) + if tickets.last().buyer == buyer {
            1nat
        } else {
            0nat
        }
    }
}

/// The `quantity` tickets sold to `buyer` at time `now` when `sold` tickets
/// were sold before.
pub open spec fn minted(sold: int, buyer: Address, quantity: nat, now: u64) -> Seq<Ticket> {
    Seq::new(
        quantity,
        |i: int|
            Ticket {
                id: (sold + i + 1) as u32,
                buyer,
                purchase_time: now,
                ticket_number: (sold + i + 1) as u32,
            },
    )
}

/// The ids of the `quantity` tickets sold when `sold` were sold before.
pub open spec fn minted_ids(sold: int, quantity: nat) -> Seq<u32> {
    Seq::new(quantity, |i: int| (sold + i + 1) as u32)
}

/// How often `who` occurs among `entries`.
pub open spec fn occurrences(entries: Seq<Address>, who: Address) -> nat
    decreases entries.len(),
{
    if entries.len() == 0 {
        0
    } else {
        occurrences(entries.drop_last(), who) + if entries.last() == who {
            1nat
        } else {
            0nat
        }
    }
}

/// The pool has one entry per ticket, and a buyer's count is the number of
/// pool entries that name the buyer.
pub proof fn lemma_count_is_pool_occurrences(tickets: Seq<Ticket>, buyer: Address)
    ensures
        pool(tickets).len() == tickets.len(),
        count_of(tickets, buyer) == occurrences(pool(tickets), buyer),
    decreases tickets.len(),
{
    if tickets.len() > 0 {
        lemma_count_is_pool_occurrences(tickets.drop_last(), buyer);
        assert(pool(tickets).drop_last() =~= pool(tickets.drop_last()));
    }
}

/// Whoever a pool entry names holds at least one ticket.
pub proof fn lemma_holder_has_tickets(tickets: Seq<Ticket>, index: int)
    requires
        0 <= index < tickets.len(),
    ensures
        pool(tickets)[index] == tickets[index].buyer,
        count_of(tickets, tickets[index].buyer) >= 1,
    decreases tickets.len(),
{
    if index < tickets.len() - 1 {
        lemma_holder_has_tickets(tickets.drop_last(), index);
    }
}

/// A buyer holds no more tickets than there are.
pub proof fn lemma_count_at_most_len(tickets: Seq<Ticket>, buyer: Address)
    ensures
        count_of(tickets, buyer) <= tickets.len(),
    decreases tickets.len(),
{
    if tickets.len() > 0 {
        lemma_count_at_most_len(tickets.drop_last(), buyer);
    }
}

/// A sale of `quantity` tickets to `buyer` raises the count of `buyer` by
/// `quantity` and leaves every other count as it was.
pub proof fn lemma_count_after_sale(
    tickets: Seq<Ticket>,
    buyer: Address,
    quantity: nat,
    now: u64,
    who: Address,
)
    ensures
        count_of(tickets + minted(tickets.len() as int, buyer, quantity, now), who) == count_of(
            tickets,
            who,
        ) + if who == buyer {
            quantity
        } else {
            0
        },
    decreases quantity,
{
    let sold = tickets.len() as int;
    let all = tickets + minted(sold, buyer, quantity, now);
    if quantity == 0 {
        assert(all =~= tickets);
    } else {
        let fewer = (quantity - 1) as nat;
        assert(all.drop_last() =~= tickets + minted(sold, buyer, fewer, now));
        assert(all.last() == minted(sold, buyer, quantity, now)[quantity - 1]);
        lemma_count_after_sale(tickets, buyer, fewer, now, who);
    }
}

/// The pool is as long as the ledger, and a sale appends the buyer once per
/// ticket.
pub proof fn lemma_pool_after_sale(tickets: Seq<Ticket>, buyer: Address, quantity: nat, now: u64)
    ensures
        pool(tickets).len() == tickets.len(),
        pool(tickets + minted(tickets.len() as int, buyer, quantity, now)) == pool(tickets)
            + Seq::new(quantity, |i: int| buyer),
{
    assert(pool(tickets + minted(tickets.len() as int, buyer, quantity, now)) =~= pool(tickets)
        + Seq::new(quantity, |i: int| buyer));
}

/// A sale keeps ids and ticket numbers counting up without a gap.
pub proof fn lemma_sale_keeps_sequence(tickets: Seq<Ticket>, buyer: Address, quantity: nat, now: u64)
    requires
        sequential(tickets),
        tickets.len() + quantity <= u32::MAX,
    ensures
        sequential(tickets + minted(tickets.len() as int, buyer, quantity, now)),
        (tickets + minted(tickets.len() as int, buyer, quantity, now)).len() == tickets.len()
            + quantity,
{
    let after = tickets + minted(tickets.len() as int, buyer, quantity, now);
    assert forall|i: int| 0 <= i < after.len() implies (#[trigger] after[i]).id == i + 1
        && after[i].ticket_number == i + 1 by {
        if i < tickets.len() {
            assert(after[i] == tickets[i]);
        }
    }
}

impl TicketLedger {
    /// Ids and ticket numbers are 1, 2, 3, ... in ledger order.
    pub open spec fn wf(&self) -> bool {
        sequential(self@)
    }

    /// The ledger of a raffle that has sold nothing.
    pub fn new() -> (ledger: Self)
        ensures
            ledger@ == Seq::<Ticket>::empty(),
            ledger.wf(),
    {
        TicketLedger { tickets: Vec::new() }
    }

    /// Whether ids and ticket numbers are 1, 2, 3, ... in ledger order.
    pub fn is_well_formed(&self) -> (b: bool)
        ensures
            b == self.wf(),
    {
        if self.tickets.len() > u32::MAX as usize {
            return false;
        }
        let mut i: usize = 0;
        while i < self.tickets.len()
            invariant
                i <= self.tickets.len(),
                self.tickets.len() <= u32::MAX,
                forall|j: int|
                    0 <= j < i ==> (#[trigger] self@[j]).id == j + 1 && self@[j].ticket_number == j
                        + 1,
            decreases self.tickets.len() - i,
        {
            let t = self.tickets[i];
            if t.id as usize != i + 1 || t.ticket_number as usize != i + 1 {
                assert(!(self@[i as int].id == i + 1 && self@[i as int].ticket_number == i + 1));
                return false;
            }
            i = i + 1;
        }
        true
    }

    /// How many tickets were sold.
    pub fn len(&self) -> (n: u32)
        requires
            self.wf(),
        ensures
            n == self@.len(),
    {
        self.tickets.len() as u32
    }

    /// Sells `quantity` tickets to `buyer` at time `now`: appends them with
    /// the next ids and returns those ids, in order.
    pub fn record_purchase(&mut self, buyer: Address, quantity: u32, now: u64) -> (ids: Vec<u32>)
        requires
            old(self).wf(),
            old(self)@.len() + quantity <= u32::MAX,
        ensures
            final(self).wf(),
            final(self)@ == old(self)@ + minted(old(self)@.len() as int, buyer, quantity as nat, now),
            ids@ == minted_ids(old(self)@.len() as int, quantity as nat),
    {
        let ghost before = self@;
        let sold: u32 = self.tickets.len() as u32;
        let mut ids: Vec<u32> = Vec::new();
        let mut i: u32 = 0;
        while i < quantity
            invariant
                i <= quantity,
                sold == before.len(),
                sold + quantity <= u32::MAX,
                self@ == before + minted(sold as int, buyer, i as nat, now),
                ids@ == minted_ids(sold as int, i as nat),
            decreases quantity - i,
        {
            let id: u32 = sold + i + 1;
            self.tickets.push(Ticket { id, buyer, purchase_time: now, ticket_number: id });
            ids.push(id);
            i = i + 1;
            proof {
                assert(self@ =~= before + minted(sold as int, buyer, i as nat, now));
                assert(ids@ =~= minted_ids(sold as int, i as nat));
            }
        }
        ids
    }

    /// How many tickets `buyer` holds.
    pub fn count_for(&self, buyer: &Address) -> (n: u32)
        requires
            self.wf(),
        ensures
            n == count_of(self@, *buyer),
    {
        let mut n: u32 = 0;
        let mut i: usize = 0;
        while i < self.tickets.len()
            invariant
                i <= self.tickets.len(),
                self.tickets.len() <= u32::MAX,
                n == count_of(self@.take(i as int), *buyer),
                n <= i,
            decreases self.tickets.len() - i,
        {
            proof {
                assert(self@.take(i + 1).drop_last() =~= self@.take(i as int));
            }
            if self.tickets[i].buyer == *buyer {
                n = n + 1;
            }
            i = i + 1;
        }
        proof {
            assert(self@.take(i as int) =~= self@);
        }
        n
    }

    /// The holder of the pool entry at `index`, counted from 0.
    pub fn holder(&self, index: u32) -> (buyer: Address)
        requires
            index < self@.len(),
        ensures
            buyer == pool(self@)[index as int],
    {
        self.tickets[index as usize].buyer
    }

    /// The draw pool: one entry per ticket sold, in the order of sale.
    pub fn pool(&self) -> (p: Vec<Address>)
        ensures
            p@ == pool(self@),
    {
        let mut p: Vec<Address> = Vec::new();
        let mut i: usize = 0;
        while i < self.tickets.len()
            invariant
                i <= self.tickets.len(),
                p@ == pool(self@.take(i as int)),
            decreases self.tickets.len() - i,
        {
            p.push(self.tickets[i].buyer);
            i = i + 1;
            proof {
                assert(p@ =~= pool(self@.take(i as int)));
            }
        }
        proof {
            assert(self@.take(i as int) =~= self@);
        }
        p
    }

    /// The ticket with the id `id`, if it was sold.
    pub fn get(&self, id: u32) -> (t: Option<Ticket>)
        requires
            self.wf(),
        ensures
            t == (if 1 <= id <= self@.len() {
                Some(self@[id - 1])
            } else {
                None
            }),
            t matches Some(found) ==> found.id == id,
    {
        if id >= 1 && (id as usize) <= self.tickets.len() {
            Some(self.tickets[(id - 1) as usize])
        } else {
            None
        }
    }
}

} // verus!
