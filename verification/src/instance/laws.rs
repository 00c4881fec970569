//! What holds of a raffle instance over all its states and calls.

use vstd::prelude::*;
use crate::address::Address;
use crate::host::{
    Env, Transfer, lemma_net_inflow_empty, lemma_net_inflow_one, lemma_net_inflow_two, net_inflow,
};
use crate::instance::contract::{
    buy_ticket_error, buy_ticket_step, cancel_error, cancel_step, claim_error, claim_step,
    deposit_error, deposit_step, draw_events, drawn, finalize_error, finalize_step, init_error,
    init_step, internal_seed, net_amount, platform_fee, provide_randomness_error,
    provide_randomness_step, winner_index,
};
use crate::instance::state::{State, valid};
use crate::instance::types::{Error, Raffle, RaffleConfig, RaffleStatus, RandomnessSource};
use crate::ledger::{count_of, lemma_holder_has_tickets, lemma_sale_keeps_sequence, pool};

verus! {

/// An invocation of one of the entry points that change the state.
pub enum Call {
    Init { factory: Address, creator: Address, config: RaffleConfig },
    DepositPrize,
    BuyTicket { buyer: Address },
    FinalizeRaffle,
    ProvideRandomness { random_seed: u64 },
    ClaimPrize { winner: Address },
    CancelRaffle,
}

/// Why a call fails, if it does.
pub open spec fn call_error(s: State, env: Env, call: Call) -> Option<Error> {
    match call {
        Call::Init { factory, creator, config } => init_error(s, env, creator, config),
        Call::DepositPrize => deposit_error(s, env),
        Call::BuyTicket { buyer } => buy_ticket_error(s, env, buyer),
        Call::FinalizeRaffle => finalize_error(s, env),
        Call::ProvideRandomness { random_seed } => provide_randomness_error(s, env),
        Call::ClaimPrize { winner } => claim_error(s, env, winner),
        Call::CancelRaffle => cancel_error(s, env),
    }
}

/// The state after a call: the step's where it succeeds, the old one where
/// it fails.
pub open spec fn next(s: State, env: Env, call: Call) -> State {
    if call_error(s, env, call) is Some {
        s
    } else {
        match call {
            Call::Init { factory, creator, config } => init_step(s, env, factory, creator, config).state,
            Call::DepositPrize => deposit_step(s, env).state,
            Call::BuyTicket { buyer } => buy_ticket_step(s, env, buyer).state,
            Call::FinalizeRaffle => finalize_step(s, env).state,
            Call::ProvideRandomness { random_seed } => provide_randomness_step(
                s,
                env,
                random_seed,
            ).state,
            Call::ClaimPrize { winner } => claim_step(s, env, winner).state,
            Call::CancelRaffle => cancel_step(s, env).state,
        }
    }
}

/// The transfers that a call orders: none where it fails.
pub open spec fn moved(s: State, env: Env, call: Call) -> Seq<Transfer> {
    if call_error(s, env, call) is Some {
        Seq::empty()
    } else {
        match call {
            Call::Init { factory, creator, config } => init_step(
                s,
                env,
                factory,
                creator,
                config,
            ).transfers,
            Call::DepositPrize => deposit_step(s, env).transfers,
            Call::BuyTicket { buyer } => buy_ticket_step(s, env, buyer).transfers,
            Call::FinalizeRaffle => finalize_step(s, env).transfers,
            Call::ProvideRandomness { random_seed } => provide_randomness_step(
                s,
                env,
                random_seed,
            ).transfers,
            Call::ClaimPrize { winner } => claim_step(s, env, winner).transfers,
            Call::CancelRaffle => cancel_step(s, env).transfers,
        }
    }
}

/// The state of a fresh instance.
pub open spec fn initial(address: Address) -> State {
    State { address, factory: None, raffle: None, tickets: Seq::empty() }
}

/// The state that a fresh instance reaches by a run of calls.
pub open spec fn run(address: Address, calls: Seq<(Env, Call)>) -> State
    decreases calls.len(),
{
    if calls.len() == 0 {
        initial(address)
    } else {
        next(run(address, calls.drop_last()), calls.last().0, calls.last().1)
    }
}

/// Every call takes a valid state to a valid state.
pub proof fn lemma_next_valid(s: State, env: Env, call: Call)
    requires
        valid(s),
    ensures
        valid(next(s, env, call)),
{
    if call_error(s, env, call) is None {
        match call {
            Call::BuyTicket { buyer } => {
                lemma_sale_keeps_sequence(s.tickets, buyer, 1, env.timestamp);
            },
            _ => {},
        }
    }
}

/// Every state that a fresh instance can reach is valid.
pub proof fn lemma_reachable_valid(address: Address, calls: Seq<(Env, Call)>)
    ensures
        valid(run(address, calls)),
    decreases calls.len(),
{
    if calls.len() > 0 {
        lemma_reachable_valid(address, calls.drop_last());
        lemma_next_valid(run(address, calls.drop_last()), calls.last().0, calls.last().1);
    }
}

/// In every reachable state no more tickets are sold than are on offer, and
/// the draw pool has exactly one entry per ticket sold.
pub proof fn lemma_tickets_sold_bounded(address: Address, calls: Seq<(Env, Call)>)
    ensures
        run(address, calls).raffle matches Some(r) ==> 0 <= r.tickets_sold <= r.max_tickets && pool(
            run(address, calls).tickets,
        ).len() == r.tickets_sold,
{
    lemma_reachable_valid(address, calls);
}

/// In every reachable state there is a winner exactly when the raffle is
/// finalized or claimed.
pub proof fn lemma_winner_iff_settled(address: Address, calls: Seq<(Env, Call)>)
    ensures
        run(address, calls).raffle matches Some(r) ==> (r.winner is Some <==> (r.status
            == RaffleStatus::Finalized || r.status == RaffleStatus::Claimed)),
{
    lemma_reachable_valid(address, calls);
}

/// A prize is claimed once: after a claim, a second claim by whoever signs
/// for it is refused as an invalid transition.
pub proof fn lemma_second_claim_refused(
    s: State,
    env: Env,
    winner: Address,
    later: Env,
    claimant: Address,
)
    requires
        claim_error(s, env, winner) is None,
        later.authorizes(claimant),
    ensures
        claim_error(claim_step(s, env, winner).state, later, claimant) == Some(
            Error::InvalidStateTransition,
        ),
{
}

/// Once a winner is fixed the draw cannot be run again: `finalize_raffle`
/// fails in status `Finalized` and in status `Claimed`, for the creator as
/// an invalid transition.
pub proof fn lemma_finalize_after_finalized_refused(s: State, env: Env)
    requires
        s.raffle matches Some(r) && (r.status == RaffleStatus::Finalized || r.status
            == RaffleStatus::Claimed),
    ensures
        finalize_error(s, env) is Some,
        env.authorizes(s.raffle.unwrap().creator) ==> finalize_error(s, env) == Some(
            Error::InvalidStateTransition,
        ),
{
}

/// Only the creator deposits the prize, finalizes and cancels.
pub proof fn lemma_creator_only(s: State, env: Env)
    requires
        s.raffle matches Some(r) && !env.authorizes(r.creator),
    ensures
        deposit_error(s, env) == Some(Error::NotAuthorized),
        finalize_error(s, env) == Some(Error::NotAuthorized),
        cancel_error(s, env) == Some(Error::NotAuthorized),
{
}

/// Only the recorded winner claims: a claim signed by anyone else fails,
/// whatever winner it names.
pub proof fn lemma_winner_only(s: State, env: Env, winner: Address)
    requires
        s.raffle matches Some(r) && r.winner != Some(env.invoker),
    ensures
        claim_error(s, env, winner) is Some,
        env.authorizes(winner) ==> claim_error(s, env, winner) == Some(
            if s.raffle.unwrap().status != RaffleStatus::Finalized {
                Error::InvalidStateTransition
            } else {
                Error::NotWinner
            },
        ),
{
}

/// Only the configured oracle provides randomness; with no oracle
/// configured nobody does.
pub proof fn lemma_oracle_only(s: State, env: Env)
    requires
        s.raffle matches Some(r) && r.oracle_address != Some(env.invoker),
    ensures
        provide_randomness_error(s, env) == Some(Error::NotAuthorized),
{
}

/// The errors that guard against states which the entry points never leave
/// behind do not occur in a valid state.
pub proof fn lemma_guards_out_of_reach(s: State, env: Env, who: Address)
    requires
        valid(s),
    ensures
        deposit_error(s, env) != Some(Error::PrizeAlreadyDeposited),
        buy_ticket_error(s, env, who) != Some(Error::TicketsSoldOut),
        provide_randomness_error(s, env) != Some(Error::NoTicketsSold),
        claim_error(s, env, who) != Some(Error::PrizeNotDeposited),
{
}

/// A draw picks an entry of the pool, and whoever it picks holds a ticket.
pub proof fn lemma_winner_holds_a_ticket(s: State, seed: int)
    requires
        s.raffle is Some,
        s.tickets.len() > 0,
        seed >= 0,
    ensures
        0 <= winner_index(seed, s.tickets.len() as int) < s.tickets.len(),
        drawn(s, winner_index(seed, s.tickets.len() as int)).raffle.unwrap().winner matches Some(
            winner,
        ) && count_of(s.tickets, winner) >= 1,
{
    lemma_holder_has_tickets(s.tickets, winner_index(seed, s.tickets.len() as int));
}

/// The two draws are two edges out of the same state: where they draw the
/// same number at the same time, they fix the same winner, leave the same
/// status behind and close with the same notices but for the source that the
/// notice of the winner names.
pub proof fn lemma_draws_agree(s: State, env: Env, oracle_env: Env, random_seed: u64)
    requires
        valid(s),
        s.raffle matches Some(r) && r.status == RaffleStatus::Drawing && r.oracle_address is Some,
        env.authorizes(s.raffle.unwrap().creator),
        oracle_env.authorizes(s.raffle.unwrap().oracle_address.unwrap()),
        oracle_env.timestamp == env.timestamp,
        winner_index(internal_seed(env), s.tickets.len() as int) == winner_index(
            random_seed as int,
            s.tickets.len() as int,
        ),
    ensures
        ({
            let r = s.raffle.unwrap();
            let internal = State {
                raffle: Some(Raffle { randomness_source: RandomnessSource::Internal, ..r }),
                ..s
            };
            let external = State {
                raffle: Some(Raffle { randomness_source: RandomnessSource::External, ..r }),
                ..s
            };
            let drawn_within = finalize_step(internal, env);
            let drawn_by_oracle = provide_randomness_step(external, oracle_env, random_seed);
            let index = winner_index(random_seed as int, s.tickets.len() as int);
            &&& finalize_error(internal, env) is None
            &&& provide_randomness_error(external, oracle_env) is None
            &&& drawn_within.state.raffle.unwrap().winner == drawn_by_oracle.state.raffle.unwrap().winner
            &&& drawn_within.state.raffle.unwrap().status == RaffleStatus::Finalized
            &&& drawn_by_oracle.state.raffle.unwrap().status == RaffleStatus::Finalized
            &&& drawn_within.state.tickets == drawn_by_oracle.state.tickets
            &&& drawn_within.events.subrange(1, 3) == draw_events(
                s,
                index,
                RandomnessSource::Internal,
                env.timestamp,
            )
            &&& drawn_by_oracle.events.subrange(1, 3) == draw_events(
                s,
                index,
                RandomnessSource::External,
                env.timestamp,
            )
        }),
{
    let r = s.raffle.unwrap();
    let internal = State {
        raffle: Some(Raffle { randomness_source: RandomnessSource::Internal, ..r }),
        ..s
    };
    let external = State {
        raffle: Some(Raffle { randomness_source: RandomnessSource::External, ..r }),
        ..s
    };
    let index = winner_index(random_seed as int, s.tickets.len() as int);
    assert(finalize_step(internal, env).events.subrange(1, 3) =~= draw_events(
        s,
        index,
        RandomnessSource::Internal,
        env.timestamp,
    ));
    assert(provide_randomness_step(external, oracle_env, random_seed).events.subrange(1, 3)
        =~= draw_events(s, index, RandomnessSource::External, env.timestamp));
}

/// The fee and the net amount are a split of the prize: together they are
/// the prize, and with a fee of at most 10000 basis points neither is
/// negative.
pub proof fn lemma_fee_split(prize: int, fee_bp: int)
    requires
        prize >= 0,
        fee_bp >= 0,
    ensures
        platform_fee(prize, fee_bp) + net_amount(prize, fee_bp) == prize,
        platform_fee(prize, fee_bp) >= 0,
        fee_bp <= 10000 ==> 0 <= net_amount(prize, fee_bp) <= prize,
        fee_bp == 0 ==> platform_fee(prize, fee_bp) == 0,
{
    assert(prize * fee_bp >= 0) by (nonlinear_arith)
        requires
            prize >= 0,
            fee_bp >= 0,
    ;
    if fee_bp <= 10000 {
        assert(prize * fee_bp <= prize * 10000) by (nonlinear_arith)
            requires
                prize >= 0,
                fee_bp <= 10000,
        ;
    }
    if fee_bp == 0 {
        assert(prize * fee_bp == 0) by (nonlinear_arith)
            requires
                fee_bp == 0,
        ;
    }
}

/// What a claim pays: the winner's balance rises by the prize less the fee,
/// rounded down; the treasury's, where there is one, by the fee; and with a
/// treasury or without a fee the two together gain the prize exactly, which
/// is what leaves escrow.
pub proof fn lemma_claim_pays_prize(s: State, env: Env, winner: Address)
    requires
        valid(s),
        claim_error(s, env, winner) is None,
        winner != s.address,
        s.raffle.unwrap().treasury_address != Some(s.address),
        s.raffle.unwrap().treasury_address != Some(winner),
    ensures
        ({
            let r = s.raffle.unwrap();
            let paid = claim_step(s, env, winner).transfers;
            let fee = platform_fee(r.prize_amount as int, r.protocol_fee_bp as int);
            &&& net_inflow(paid, winner) == r.prize_amount - fee
            &&& r.treasury_address matches Some(treasury) ==> net_inflow(paid, treasury) == fee
            &&& r.treasury_address matches Some(treasury) ==> net_inflow(paid, winner) + net_inflow(
                paid,
                treasury,
            ) == r.prize_amount && net_inflow(paid, s.address) == -r.prize_amount
            &&& fee == 0 ==> net_inflow(paid, winner) == r.prize_amount && net_inflow(
                paid,
                s.address,
            ) == -r.prize_amount
        }),
{
    let r = s.raffle.unwrap();
    let paid = claim_step(s, env, winner).transfers;
    let prize = r.prize_amount as int;
    let fee = platform_fee(prize, r.protocol_fee_bp as int);
    let net = net_amount(prize, r.protocol_fee_bp as int);
    lemma_fee_split(prize, r.protocol_fee_bp as int);
    assert(prize * r.protocol_fee_bp <= i128::MAX);
    let payout = Transfer { token: r.payment_token, from: s.address, to: winner, amount: net as i128 };
    if fee > 0 && r.treasury_address is Some {
        let treasury = r.treasury_address.unwrap();
        let cut = Transfer {
            token: r.payment_token,
            from: s.address,
            to: treasury,
            amount: fee as i128,
        };
        assert(paid == seq![payout, cut]);
        lemma_net_inflow_two(payout, cut, winner);
        lemma_net_inflow_two(payout, cut, treasury);
        lemma_net_inflow_two(payout, cut, s.address);
    } else {
        assert(paid == seq![payout]);
        lemma_net_inflow_one(payout, winner);
        lemma_net_inflow_one(payout, s.address);
        if r.treasury_address is Some {
            lemma_net_inflow_one(payout, r.treasury_address.unwrap());
        }
    }
}

/// What the state says lies in escrow: the prize while it is deposited and
/// not paid out, after a claim the fee for which there was no treasury, and
/// the price of every ticket sold.
pub open spec fn escrow_due(s: State) -> int {
    match s.raffle {
        None => 0,
        Some(r) => r.ticket_price * r.tickets_sold + if r.status == RaffleStatus::Claimed {
            if r.treasury_address is None {
                platform_fee(r.prize_amount as int, r.protocol_fee_bp as int)
            } else {
                0
            }
        } else if r.prize_deposited {
            r.prize_amount as int
        } else {
            0
        },
    }
}

/// Whether the escrow is a holder of its own: neither the creator nor the
/// treasury nor the winner nor a ticket holder is the contract itself.
pub open spec fn escrow_apart(s: State) -> bool {
    &&& s.raffle matches Some(r) ==> r.creator != s.address && r.treasury_address != Some(s.address)
        && r.winner != Some(s.address)
    &&& forall|i: int| 0 <= i < s.tickets.len() ==> (#[trigger] s.tickets[i]).buyer != s.address
}

/// Whether a call keeps the escrow a holder of its own.
pub open spec fn call_apart(address: Address, call: Call) -> bool {
    match call {
        Call::Init { factory, creator, config } => creator != address && config.treasury_address
            != Some(address),
        Call::BuyTicket { buyer } => buyer != address,
        _ => true,
    }
}

/// Escrow is conserved: by every call the contract's balance changes by
/// exactly as much as what the state says lies in escrow.
pub proof fn lemma_escrow_conserved(s: State, env: Env, call: Call)
    requires
        valid(s),
        escrow_apart(s),
        call_apart(s.address, call),
    ensures
        escrow_apart(next(s, env, call)),
        net_inflow(moved(s, env, call), s.address) == escrow_due(next(s, env, call)) - escrow_due(s),
{
    lemma_net_inflow_empty(s.address);
    if call_error(s, env, call) is None {
        let r = s.raffle.unwrap();
        match call {
            Call::Init { factory, creator, config } => {
                assert(config.ticket_price * 0 == 0);
            },
            Call::DepositPrize => {
                lemma_net_inflow_one(deposit_step(s, env).transfers[0], s.address);
                assert(deposit_step(s, env).transfers =~= seq![deposit_step(s, env).transfers[0]]);
            },
            Call::BuyTicket { buyer } => {
                let t = buy_ticket_step(s, env, buyer).transfers[0];
                lemma_net_inflow_one(t, s.address);
                assert(buy_ticket_step(s, env, buyer).transfers =~= seq![t]);
                assert(r.ticket_price * (r.tickets_sold + 1) == r.ticket_price * r.tickets_sold
                    + r.ticket_price) by (nonlinear_arith);
            },
            Call::FinalizeRaffle => {
                let index = winner_index(internal_seed(env), s.tickets.len() as int);
                assert(0 <= index < s.tickets.len());
            },
            Call::ProvideRandomness { random_seed } => {
                let index = winner_index(random_seed as int, s.tickets.len() as int);
                assert(0 <= index < s.tickets.len());
            },
            Call::ClaimPrize { winner } => {
                let prize = r.prize_amount as int;
                let fee = platform_fee(prize, r.protocol_fee_bp as int);
                lemma_fee_split(prize, r.protocol_fee_bp as int);
                let payout = Transfer {
                    token: r.payment_token,
                    from: s.address,
                    to: winner,
                    amount: net_amount(prize, r.protocol_fee_bp as int) as i128,
                };
                if fee > 0 && r.treasury_address is Some {
                    let cut = Transfer {
                        token: r.payment_token,
                        from: s.address,
                        to: r.treasury_address.unwrap(),
                        amount: fee as i128,
                    };
                    assert(claim_step(s, env, winner).transfers == seq![payout, cut]);
                    lemma_net_inflow_two(payout, cut, s.address);
                } else {
                    assert(claim_step(s, env, winner).transfers == seq![payout]);
                    lemma_net_inflow_one(payout, s.address);
                }
            },
            Call::CancelRaffle => {
                if r.prize_deposited {
                    let t = cancel_step(s, env).transfers[0];
                    lemma_net_inflow_one(t, s.address);
                    assert(cancel_step(s, env).transfers =~= seq![t]);
                }
            },
        }
    }
}

/// What the contract has taken in less what it has paid out over a run of
/// calls on a fresh instance.
pub open spec fn escrow_balance(address: Address, calls: Seq<(Env, Call)>) -> int
    decreases calls.len(),
{
    if calls.len() == 0 {
        0
    } else {
        escrow_balance(address, calls.drop_last()) + net_inflow(
            moved(run(address, calls.drop_last()), calls.last().0, calls.last().1),
            address,
        )
    }
}

/// At every point of its life the contract holds exactly what the state
/// says lies in escrow: before a claim, the prize if it is deposited plus
/// the price of every ticket sold.
pub proof fn lemma_escrow_matches_state(address: Address, calls: Seq<(Env, Call)>)
    requires
        forall|i: int| 0 <= i < calls.len() ==> call_apart(address, (#[trigger] calls[i]).1),
    ensures
        run(address, calls).address == address,
        escrow_apart(run(address, calls)),
        escrow_balance(address, calls) == escrow_due(run(address, calls)),
        run(address, calls).raffle matches Some(r) ==> r.status != RaffleStatus::Claimed
            ==> escrow_balance(address, calls) == r.ticket_price * r.tickets_sold + if r.prize_deposited {
            r.prize_amount as int
        } else {
            0
        },
    decreases calls.len(),
{
    if calls.len() > 0 {
        let before = calls.drop_last();
        assert forall|i: int| 0 <= i < before.len() implies call_apart(
            address,
            (#[trigger] before[i]).1,
        ) by {
            assert(before[i] == calls[i]);
        }
        lemma_escrow_matches_state(address, before);
        lemma_reachable_valid(address, before);
        lemma_escrow_conserved(run(address, before), calls.last().0, calls.last().1);
    }
}

} // verus!
