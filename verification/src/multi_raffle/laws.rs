//! What holds of the multi-raffle contract over all its states and calls.

use vstd::prelude::*;
use crate::address::Address;
use crate::host::{Env, Transfer, lemma_net_inflow_empty, lemma_net_inflow_one, net_inflow};
use crate::ledger::{lemma_sale_keeps_sequence, pool};
use crate::multi_raffle::contract::{
    buy_ticket_error, buy_ticket_step, buy_tickets_error, buy_tickets_step, claim_error, claim_step,
    create_raffle_error, create_raffle_step, deposit_error, deposit_step, finalize_error,
    finalize_step, has_joined, joined_after, without,
};
use crate::multi_raffle::queries::{all_ids_page, raffles_of};
use crate::multi_raffle::state::{Participation, State, exists_raffle, raffle_valid, valid};
use crate::multi_raffle::types::{Error, Raffle, RaffleStatus, status_of};
use crate::pagination::{MAX_PAGE_LIMIT, page_meta};

verus! {

/// An invocation of one of the entry points that change the state.
pub enum Call {
    CreateRaffle {
        creator: Address,
        description: String,
        end_time: u64,
        max_tickets: u32,
        allow_multiple: bool,
        ticket_price: i128,
        payment_token: Address,
        prize_amount: i128,
    },
    DepositPrize { raffle_id: u64 },
    BuyTicket { raffle_id: u64, buyer: Address },
    BuyTickets { raffle_id: u64, buyer: Address, quantity: u32 },
    FinalizeRaffle { raffle_id: u64, source: String },
    ClaimPrize { raffle_id: u64, winner: Address },
}

/// Why a call fails, if it does.
pub open spec fn call_error(s: State, env: Env, call: Call) -> Option<Error> {
    match call {
        Call::CreateRaffle {
            creator,
            description,
            end_time,
            max_tickets,
            allow_multiple,
            ticket_price,
            payment_token,
            prize_amount,
        } => create_raffle_error(
            s,
            env,
            creator,
            end_time,
            max_tickets,
            ticket_price,
            prize_amount,
        ),
        Call::DepositPrize { raffle_id } => deposit_error(s, env, raffle_id),
        Call::BuyTicket { raffle_id, buyer } => buy_ticket_error(s, env, raffle_id, buyer),
        Call::BuyTickets { raffle_id, buyer, quantity } => buy_tickets_error(
            s,
            env,
            raffle_id,
            buyer,
            quantity,
        ),
        Call::FinalizeRaffle { raffle_id, source } => finalize_error(s, env, raffle_id),
        Call::ClaimPrize { raffle_id, winner } => claim_error(s, env, raffle_id, winner),
    }
}

/// The state after a call: the step's where it succeeds, the old one where
/// it fails.
pub open spec fn next(s: State, env: Env, call: Call) -> State {
    if call_error(s, env, call) is Some {
        s
    } else {
        match call {
            Call::CreateRaffle {
                creator,
                description,
                end_time,
                max_tickets,
                allow_multiple,
                ticket_price,
                payment_token,
                prize_amount,
            } => create_raffle_step(
                s,
                creator,
                description,
                end_time,
                max_tickets,
                allow_multiple,
                ticket_price,
                payment_token,
                prize_amount,
            ).state,
            Call::DepositPrize { raffle_id } => deposit_step(s, raffle_id).state,
            Call::BuyTicket { raffle_id, buyer } => buy_ticket_step(s, env, raffle_id, buyer).state,
            Call::BuyTickets { raffle_id, buyer, quantity } => buy_tickets_step(
                s,
                env,
                raffle_id,
                buyer,
                quantity,
            ).state,
            Call::FinalizeRaffle { raffle_id, source } => finalize_step(
                s,
                env,
                raffle_id,
                source,
            ).state,
            Call::ClaimPrize { raffle_id, winner } => claim_step(s, env, raffle_id, winner).state,
        }
    }
}

/// The transfers that a call orders: none where it fails.
pub open spec fn moved(s: State, env: Env, call: Call) -> Seq<Transfer> {
    if call_error(s, env, call) is Some {
        Seq::empty()
    } else {
        match call {
            Call::CreateRaffle { .. } => Seq::empty(),
            Call::DepositPrize { raffle_id } => deposit_step(s, raffle_id).transfers,
            Call::BuyTicket { raffle_id, buyer } => buy_ticket_step(
                s,
                env,
                raffle_id,
                buyer,
            ).transfers,
            Call::BuyTickets { raffle_id, buyer, quantity } => buy_tickets_step(
                s,
                env,
                raffle_id,
                buyer,
                quantity,
            ).transfers,
            Call::FinalizeRaffle { .. } => Seq::empty(),
            Call::ClaimPrize { raffle_id, winner } => claim_step(s, env, raffle_id, winner).transfers,
        }
    }
}

/// The state of a fresh contract.
pub open spec fn initial(address: Address) -> State {
    State {
        address,
        raffles: Seq::empty(),
        tickets: Seq::empty(),
        active: Seq::empty(),
        joined: Seq::empty(),
    }
}

/// The state that a fresh contract reaches by a run of calls.
pub open spec fn run(address: Address, calls: Seq<(Env, Call)>) -> State
    decreases calls.len(),
{
    if calls.len() == 0 {
        initial(address)
    } else {
        next(run(address, calls.drop_last()), calls.last().0, calls.last().1)
    }
}

/// Every call takes a valid state to a valid state.
pub proof fn lemma_next_valid(s: State, env: Env, call: Call)
    requires
        valid(s),
    ensures
        valid(next(s, env, call)),
{
    let after = next(s, env, call);
    if call_error(s, env, call) is None {
        match call {
            Call::CreateRaffle { .. } => {
                assert forall|id: int| 0 <= id < after.raffles.len() implies raffle_valid(
                    #[trigger] after.raffles[id],
                    id,
                    after.tickets[id],
                ) by {
                    if id < s.raffles.len() {
                        assert(raffle_valid(s.raffles[id], id, s.tickets[id]));
                    }
                }
            },
            Call::DepositPrize { raffle_id } => {
                lemma_one_raffle_changed(s, after, raffle_id);
            },
            Call::BuyTicket { raffle_id, buyer } => {
                assert(raffle_valid(
                    s.raffles[raffle_id as int],
                    raffle_id as int,
                    s.tickets[raffle_id as int],
                ));
                lemma_sale_keeps_sequence(s.tickets[raffle_id as int], buyer, 1, env.timestamp);
                lemma_one_raffle_changed(s, after, raffle_id);
            },
            Call::BuyTickets { raffle_id, buyer, quantity } => {
                assert(raffle_valid(
                    s.raffles[raffle_id as int],
                    raffle_id as int,
                    s.tickets[raffle_id as int],
                ));
                lemma_sale_keeps_sequence(
                    s.tickets[raffle_id as int],
                    buyer,
                    quantity as nat,
                    env.timestamp,
                );
                lemma_one_raffle_changed(s, after, raffle_id);
            },
            Call::FinalizeRaffle { raffle_id, source } => {
                lemma_one_raffle_changed(s, after, raffle_id);
            },
            Call::ClaimPrize { raffle_id, winner } => {
                lemma_one_raffle_changed(s, after, raffle_id);
            },
        }
    }
}

/// A state stays valid where one raffle changes and stays valid itself.
proof fn lemma_one_raffle_changed(s: State, after: State, raffle_id: u64)
    requires
        valid(s),
        exists_raffle(s, raffle_id),
        after.raffles.len() == s.raffles.len(),
        after.tickets.len() == s.tickets.len(),
        forall|id: int|
            0 <= id < s.raffles.len() && id != raffle_id ==> after.raffles[id] == s.raffles[id]
                && after.tickets[id] == s.tickets[id],
        raffle_valid(
            s.raffles[raffle_id as int],
            raffle_id as int,
            s.tickets[raffle_id as int],
        ) ==> raffle_valid(
            after.raffles[raffle_id as int],
            raffle_id as int,
            after.tickets[raffle_id as int],
        ),
    ensures
        valid(after),
{
    assert forall|id: int| 0 <= id < after.raffles.len() implies raffle_valid(
        #[trigger] after.raffles[id],
        id,
        after.tickets[id],
    ) by {
        assert(raffle_valid(s.raffles[id], id, s.tickets[id]));
    }
}

/// Every state that a fresh contract can reach is valid.
pub proof fn lemma_reachable_valid(address: Address, calls: Seq<(Env, Call)>)
    ensures
        valid(run(address, calls)),
    decreases calls.len(),
{
    if calls.len() > 0 {
        lemma_reachable_valid(address, calls.drop_last());
        lemma_next_valid(run(address, calls.drop_last()), calls.last().0, calls.last().1);
    }
}

/// In every reachable state no raffle has sold more tickets than it has on
/// offer, and its draw pool has exactly one entry per ticket sold.
pub proof fn lemma_tickets_sold_bounded(address: Address, calls: Seq<(Env, Call)>, raffle_id: u64)
    requires
        exists_raffle(run(address, calls), raffle_id),
    ensures
        0 <= run(address, calls).raffles[raffle_id as int].tickets_sold <= run(
            address,
            calls,
        ).raffles[raffle_id as int].max_tickets,
        pool(run(address, calls).tickets[raffle_id as int]).len() == run(
            address,
            calls,
        ).raffles[raffle_id as int].tickets_sold,
{
    lemma_reachable_valid(address, calls);
    let s = run(address, calls);
    assert(raffle_valid(s.raffles[raffle_id as int], raffle_id as int, s.tickets[raffle_id as int]));
}

/// In every reachable state a raffle has a winner exactly when it is
/// finalized or claimed.
pub proof fn lemma_winner_iff_settled(address: Address, calls: Seq<(Env, Call)>, raffle_id: u64)
    requires
        exists_raffle(run(address, calls), raffle_id),
    ensures
        ({
            let r = run(address, calls).raffles[raffle_id as int];
            r.winner is Some <==> (status_of(r) == RaffleStatus::Finalized || status_of(r)
                == RaffleStatus::Claimed)
        }),
{
    lemma_reachable_valid(address, calls);
    let s = run(address, calls);
    assert(raffle_valid(s.raffles[raffle_id as int], raffle_id as int, s.tickets[raffle_id as int]));
}

/// A prize is claimed once: after a claim, a second claim by whoever signs
/// for it is refused as an invalid transition.
pub proof fn lemma_second_claim_refused(
    s: State,
    env: Env,
    raffle_id: u64,
    winner: Address,
    later: Env,
    claimant: Address,
)
    requires
        claim_error(s, env, raffle_id, winner) is None,
        later.authorizes(claimant),
    ensures
        claim_error(claim_step(s, env, raffle_id, winner).state, later, raffle_id, claimant) == Some(
            Error::InvalidStateTransition,
        ),
{
}

/// Once a winner is fixed the draw cannot be run again: a second
/// `finalize_raffle` fails, for the creator as on an inactive raffle.
pub proof fn lemma_finalize_once(s: State, env: Env, raffle_id: u64, source: String, later: Env)
    requires
        finalize_error(s, env, raffle_id) is None,
    ensures
        finalize_error(finalize_step(s, env, raffle_id, source).state, later, raffle_id) is Some,
        later.authorizes(s.raffles[raffle_id as int].creator) ==> finalize_error(
            finalize_step(s, env, raffle_id, source).state,
            later,
            raffle_id,
        ) == Some(Error::RaffleInactive),
{
}

/// Only the creator of a raffle deposits its prize and finalizes it, and
/// only the recorded winner claims.
pub proof fn lemma_access_control(s: State, env: Env, raffle_id: u64, claimant: Address)
    requires
        exists_raffle(s, raffle_id),
    ensures
        !env.authorizes(s.raffles[raffle_id as int].creator) ==> deposit_error(s, env, raffle_id)
            == Some(Error::NotAuthorized) && finalize_error(s, env, raffle_id) == Some(
            Error::NotAuthorized,
        ),
        s.raffles[raffle_id as int].winner != Some(env.invoker) ==> claim_error(
            s,
            env,
            raffle_id,
            claimant,
        ) == Some(
            if !env.authorizes(claimant) {
                Error::NotAuthorized
            } else if s.raffles[raffle_id as int].prize_claimed {
                Error::InvalidStateTransition
            } else {
                Error::NotWinner
            },
        ),
{
}

/// What the state says lies in escrow for a raffle: the prize while it is
/// deposited and not paid out, and the price of every ticket sold.
pub open spec fn escrow_due(r: Raffle) -> int {
    r.ticket_price * r.tickets_sold + if r.prize_deposited && !r.prize_claimed {
        r.prize_amount as int
    } else {
        0
    }
}

/// What a call changes of the escrow held for the raffle `raffle_id`.
pub open spec fn escrow_change(s: State, env: Env, call: Call, raffle_id: u64) -> int {
    let after = next(s, env, call);
    (if exists_raffle(after, raffle_id) {
        escrow_due(after.raffles[raffle_id as int])
    } else {
        0
    }) - (if exists_raffle(s, raffle_id) {
        escrow_due(s.raffles[raffle_id as int])
    } else {
        0
    })
}

/// The raffle that a call is about: the new one for a creation.
pub open spec fn subject(s: State, call: Call) -> u64 {
    match call {
        Call::CreateRaffle { .. } => s.raffles.len() as u64,
        Call::DepositPrize { raffle_id } => raffle_id,
        Call::BuyTicket { raffle_id, buyer } => raffle_id,
        Call::BuyTickets { raffle_id, buyer, quantity } => raffle_id,
        Call::FinalizeRaffle { raffle_id, source } => raffle_id,
        Call::ClaimPrize { raffle_id, winner } => raffle_id,
    }
}

/// Whether the one who pays or is paid in a call is another holder than the
/// contract itself.
pub open spec fn call_apart(s: State, call: Call) -> bool {
    match call {
        Call::DepositPrize { raffle_id } => exists_raffle(s, raffle_id)
            ==> s.raffles[raffle_id as int].creator != s.address,
        Call::BuyTicket { raffle_id, buyer } => buyer != s.address,
        Call::BuyTickets { raffle_id, buyer, quantity } => buyer != s.address,
        Call::ClaimPrize { raffle_id, winner } => winner != s.address,
        _ => true,
    }
}

/// Escrow is conserved raffle by raffle: by every call the contract's
/// balance changes by exactly as much as what the state says lies in
/// escrow for the raffle that the call is about, and what lies in escrow
/// for every other raffle stays as it is.
pub proof fn lemma_escrow_conserved(s: State, env: Env, call: Call, other: u64)
    requires
        valid(s),
        call_apart(s, call),
        other != subject(s, call),
    ensures
        net_inflow(moved(s, env, call), s.address) == escrow_change(s, env, call, subject(s, call)),
        escrow_change(s, env, call, other) == 0,
{
    lemma_net_inflow_empty(s.address);
    if call_error(s, env, call) is None {
        match call {
            Call::CreateRaffle {
                creator,
                description,
                end_time,
                max_tickets,
                allow_multiple,
                ticket_price,
                payment_token,
                prize_amount,
            } => {
                assert(ticket_price * 0 == 0);
            },
            Call::DepositPrize { raffle_id } => {
                let t = deposit_step(s, raffle_id).transfers[0];
                assert(deposit_step(s, raffle_id).transfers =~= seq![t]);
                lemma_net_inflow_one(t, s.address);
            },
            Call::BuyTicket { raffle_id, buyer } => {
                let r = s.raffles[raffle_id as int];
                let t = buy_ticket_step(s, env, raffle_id, buyer).transfers[0];
                assert(buy_ticket_step(s, env, raffle_id, buyer).transfers =~= seq![t]);
                lemma_net_inflow_one(t, s.address);
                assert(r.ticket_price * (r.tickets_sold + 1) == r.ticket_price * r.tickets_sold
                    + r.ticket_price) by (nonlinear_arith);
            },
            Call::BuyTickets { raffle_id, buyer, quantity } => {
                let r = s.raffles[raffle_id as int];
                let t = buy_tickets_step(s, env, raffle_id, buyer, quantity).transfers[0];
                assert(buy_tickets_step(s, env, raffle_id, buyer, quantity).transfers =~= seq![t]);
                lemma_net_inflow_one(t, s.address);
                assert(r.ticket_price * (r.tickets_sold + quantity) == r.ticket_price
                    * r.tickets_sold + r.ticket_price * quantity) by (nonlinear_arith);
            },
            Call::FinalizeRaffle { raffle_id, source } => {},
            Call::ClaimPrize { raffle_id, winner } => {
                let t = claim_step(s, env, raffle_id, winner).transfers[0];
                assert(claim_step(s, env, raffle_id, winner).transfers =~= seq![t]);
                lemma_net_inflow_one(t, s.address);
            },
        }
    }
}

/// A value is in a sequence with one more element exactly when it is in
/// the sequence before or is the element added.
proof fn lemma_contains_after_push<A>(s: Seq<A>, added: A, x: A)
    ensures
        s.push(added).contains(x) <==> s.contains(x) || added == x,
{
    let longer = s.push(added);
    if s.contains(x) {
        let i = choose|i: int| 0 <= i < s.len() && s[i] == x;
        assert(longer[i] == x);
    }
    if added == x {
        assert(longer[s.len() as int] == x);
    }
    if longer.contains(x) {
        let i = choose|i: int| 0 <= i < longer.len() && longer[i] == x;
        if i < s.len() {
            assert(s[i] == x);
        }
    }
}

/// A user is on record for a raffle exactly when the raffle is among those
/// that the user took part in.
pub proof fn lemma_joined_iff_listed(joined: Seq<Participation>, user: Address, raffle_id: u64)
    ensures
        has_joined(joined, user, raffle_id) <==> raffles_of(joined, user).contains(raffle_id),
    decreases joined.len(),
{
    if joined.len() > 0 {
        let before = joined.drop_last();
        lemma_joined_iff_listed(before, user, raffle_id);
        assert(joined =~= before.push(joined.last()));
        lemma_contains_after_push(before, joined.last(), Participation { user, raffle_id });
        if joined.last().user == user {
            lemma_contains_after_push(
                raffles_of(before, user),
                joined.last().raffle_id,
                raffle_id,
            );
        }
    }
}

/// A purchase puts the raffle on the buyer's list once: at the end where it
/// is the buyer's first purchase there, not at all after that; and it leaves
/// the list of every other user as it is.
pub proof fn lemma_join_appends_once(
    joined: Seq<Participation>,
    user: Address,
    raffle_id: u64,
    other: Address,
)
    ensures
        raffles_of(joined_after(joined, user, raffle_id), user) == (if raffles_of(
            joined,
            user,
        ).contains(raffle_id) {
            raffles_of(joined, user)
        } else {
            raffles_of(joined, user).push(raffle_id)
        }),
        other != user ==> raffles_of(joined_after(joined, user, raffle_id), other) == raffles_of(
            joined,
            other,
        ),
{
    lemma_joined_iff_listed(joined, user, raffle_id);
    if !has_joined(joined, user, raffle_id) {
        let after = joined.push(Participation { user, raffle_id });
        assert(after.drop_last() =~= joined);
    }
}

/// Taking a raffle off a list of ids removes it wherever it stands and
/// keeps every other id.
pub proof fn lemma_without_removes(ids: Seq<u64>, id: u64, other: u64)
    ensures
        !without(ids, id).contains(id),
        other != id ==> (without(ids, id).contains(other) <==> ids.contains(other)),
    decreases ids.len(),
{
    if ids.len() > 0 {
        let before = ids.drop_last();
        lemma_without_removes(before, id, other);
        assert(ids =~= before.push(ids.last()));
        lemma_contains_after_push(before, ids.last(), other);
        if ids.last() != id {
            lemma_contains_after_push(without(before, id), ids.last(), id);
            lemma_contains_after_push(without(before, id), ids.last(), other);
        }
    }
}

/// A page of raffle ids that starts at the end of the listing is empty and
/// has nothing behind it, and no page is longer than `MAX_PAGE_LIMIT`,
/// whatever limit is asked for.
pub proof fn lemma_page_boundaries(total: u32, offset: u32, limit: u32, newest_first: bool)
    ensures
        all_ids_page(total, offset, limit, newest_first).len() <= MAX_PAGE_LIMIT,
        page_meta(offset, limit, total, 0).limit <= MAX_PAGE_LIMIT,
        limit >= MAX_PAGE_LIMIT ==> page_meta(offset, limit, total, 0).limit == MAX_PAGE_LIMIT,
        offset >= total ==> all_ids_page(total, offset, limit, newest_first).len() == 0
            && !page_meta(offset, limit, total, 0).has_more,
{
}

} // verus!
