//! What a contract sees of one invocation, and what it hands back.

use vstd::prelude::*;
use crate::address::Address;

verus! {

/// The facts of one invocation: the ledger's clock and sequence number, and
/// the identity whose authorization the invocation carries.
#[derive(Clone, Copy, Debug, PartialEq, Eq, Structural)]
pub struct Env {
    /// Ledger time in seconds.
    pub timestamp: u64,
    /// Ledger sequence number.
    pub sequence: u32,
    /// The identity that authorized this invocation.
    pub invoker: Address,
}

impl Env {
    /// The facts of an invocation at ledger time `timestamp` and sequence
    /// number `sequence` that `invoker` authorized.
    pub fn new(timestamp: u64, sequence: u32, invoker: Address) -> (env: Env)
        ensures
            env == (Env { timestamp, sequence, invoker }),
    {
        Env { timestamp, sequence, invoker }
    }

    /// Whether the invocation is authorized by `who`.
    pub open spec fn authorizes(&self, who: Address) -> bool {
        self.invoker == who
    }

    /// Whether the invocation is authorized by `who`.
    pub fn is_authorized_by(&self, who: &Address) -> (b: bool)
        ensures
            b == self.authorizes(*who),
    {
        self.invoker == *who
    }
}

/// An order to move `amount` of `token` from one holder to another. The host
/// carries it out as a whole or aborts the invocation.
#[derive(Clone, Copy, Debug, PartialEq, Eq, Structural)]
pub struct Transfer {
    pub token: Address,
    pub from: Address,
    pub to: Address,
    pub amount: i128,
}

/// What a successful invocation hands back: its return value, the transfers
/// to carry out, in order, and the events to publish, in order.
#[derive(Debug)]
pub struct Receipt<T, E> {
    pub value: T,
    pub transfers: Vec<Transfer>,
    pub events: Vec<E>,
}

/// What a successful invocation does, as a specification: the next state, the
/// value returned, the transfers ordered and what the events published say.
pub struct Step<S, T, V> {
    pub state: S,
    pub value: T,
    pub transfers: Seq<Transfer>,
    pub events: Seq<V>,
}

/// By how much one transfer changes the balance of `who`.
pub open spec fn balance_change(t: Transfer, who: Address) -> int {
    (if t.to == who { t.amount as int } else { 0 }) - (if t.from == who { t.amount as int } else { 0 })
}

/// By how much a run of transfers changes the balance of `who`.
pub open spec fn net_inflow(transfers: Seq<Transfer>, who: Address) -> int
    decreases transfers.len(),
{
    if transfers.len() == 0 {
        0
    } else {
        net_inflow(transfers.drop_last(), who) + balance_change(transfers.last(), who)
    }
}

/// No transfer changes no balance.
pub proof fn lemma_net_inflow_empty(who: Address)
    ensures
        net_inflow(Seq::<Transfer>::empty(), who) == 0,
{
}

/// One transfer changes a balance by its own amount.
pub proof fn lemma_net_inflow_one(t: Transfer, who: Address)
    ensures
        net_inflow(seq![t], who) == balance_change(t, who),
{
    reveal_with_fuel(net_inflow, 2);
    assert(seq![t].drop_last() =~= Seq::<Transfer>::empty());
}

/// Two transfers change a balance by the sum of their amounts.
pub proof fn lemma_net_inflow_two(t1: Transfer, t2: Transfer, who: Address)
    ensures
        net_inflow(seq![t1, t2], who) == balance_change(t1, who) + balance_change(t2, who),
{
    assert(seq![t1, t2].drop_last() =~= seq![t1]);
    lemma_net_inflow_one(t1, who);
}

} // verus!
