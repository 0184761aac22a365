//! Sequences of requests against one agent's record, and what holds of the
//! balance after them.

use crate::error::EscrowError;
use crate::identity::Pubkey;
use crate::state::Ledger;
use vstd::prelude::*;

verus! {

/// One request against an agent's record.
pub enum Request {
    /// A deposit of `amount` that names `agent_wallet`.
    Deposit { agent_wallet: Pubkey, amount: u64 },
    /// A withdrawal of `amount` requested by `signer`.
    Withdraw { signer: Pubkey, amount: u64 },
}

impl Ledger {
    /// The outcome of one request for the agent `agent_id` under the
    /// registry at `escrow_state`.
    pub open spec fn apply(self, escrow_state: Pubkey, agent_id: Seq<char>, request: Request) -> Result<
        Ledger,
        EscrowError,
    > {
        match request {
            Request::Deposit { agent_wallet, amount } => self.deposit(
                escrow_state,
                agent_wallet,
                agent_id,
                amount,
            ),
            Request::Withdraw { signer, amount } => self.withdraw(signer, amount),
        }
    }

    /// The outcome of the requests taken in order, each on the record the
    /// one before it left. The first rejection ends the sequence.
    pub open spec fn replay(self, escrow_state: Pubkey, agent_id: Seq<char>, requests: Seq<Request>) -> Result<
        Ledger,
        EscrowError,
    >
        decreases requests.len(),
    {
        if requests.len() == 0 {
            Ok(self)
        } else {
            match self.replay(escrow_state, agent_id, requests.drop_last()) {
                Ok(ledger) => ledger.apply(escrow_state, agent_id, requests.last()),
                Err(e) => Err(e),
            }
        }
    }
}

/// The sum of the amounts deposited by the requests.
pub open spec fn deposited(requests: Seq<Request>) -> nat
    decreases requests.len(),
{
    if requests.len() == 0 {
        0
    } else {
        deposited(requests.drop_last()) + match requests.last() {
            Request::Deposit { amount, .. } => amount as nat,
            Request::Withdraw { .. } => 0,
        }
    }
}

/// The sum of the amounts withdrawn by the requests.
pub open spec fn withdrawn(requests: Seq<Request>) -> nat
    decreases requests.len(),
{
    if requests.len() == 0 {
        0
    } else {
        withdrawn(requests.drop_last()) + match requests.last() {
            Request::Deposit { .. } => 0,
            Request::Withdraw { amount, .. } => amount as nat,
        }
    }
}

/// An accepted request leaves a well-formed record well-formed.
pub proof fn lemma_apply_keeps_wf(
    start: Ledger,
    escrow_state: Pubkey,
    agent_id: Seq<char>,
    request: Request,
)
    requires
        start.wf(),
        start.apply(escrow_state, agent_id, request) is Ok,
    ensures
        start.apply(escrow_state, agent_id, request)->Ok_0.wf(),
{
}

/// When every request of a sequence is accepted, so is every request of
/// each of its beginnings.
pub proof fn lemma_replay_prefix(
    start: Ledger,
    escrow_state: Pubkey,
    agent_id: Seq<char>,
    requests: Seq<Request>,
    n: int,
)
    requires
        0 <= n <= requests.len(),
        start.replay(escrow_state, agent_id, requests) is Ok,
    ensures
        start.replay(escrow_state, agent_id, requests.take(n)) is Ok,
    decreases requests.len(),
{
    if n == requests.len() {
        assert(requests.take(n) =~= requests);
    } else {
        assert(requests.take(n) =~= requests.drop_last().take(n));
        lemma_replay_prefix(start, escrow_state, agent_id, requests.drop_last(), n);
    }
}

/// After a sequence of deposits and withdrawals on one agent's record, all
/// of them accepted, the balance is what the record held at the start, plus
/// the sum of the deposits, minus the sum of the withdrawals; and the record
/// is still well-formed.
pub proof fn lemma_balance_is_deposits_less_withdrawals(
    start: Ledger,
    escrow_state: Pubkey,
    agent_id: Seq<char>,
    requests: Seq<Request>,
)
    requires
        start.wf(),
        start.replay(escrow_state, agent_id, requests) is Ok,
    ensures
        start.replay(escrow_state, agent_id, requests)->Ok_0.balance == start.balance + deposited(
            requests,
        ) - withdrawn(requests),
        start.replay(escrow_state, agent_id, requests)->Ok_0.wf(),
    decreases requests.len(),
{
    if requests.len() > 0 {
        let before = requests.drop_last();
        lemma_balance_is_deposits_less_withdrawals(start, escrow_state, agent_id, before);
        let ledger = start.replay(escrow_state, agent_id, before)->Ok_0;
        lemma_apply_keeps_wf(ledger, escrow_state, agent_id, requests.last());
    }
}

/// At no point of a sequence of accepted deposits and withdrawals have the
/// withdrawals taken more than the starting balance and the deposits so far
/// had brought in.
pub proof fn lemma_balance_never_negative(
    start: Ledger,
    escrow_state: Pubkey,
    agent_id: Seq<char>,
    requests: Seq<Request>,
)
    requires
        start.wf(),
        start.replay(escrow_state, agent_id, requests) is Ok,
    ensures
        forall|n: int|
            0 <= n <= requests.len() ==> start.balance + deposited(#[trigger] requests.take(n))
                - withdrawn(requests.take(n)) >= 0,
{
    assert forall|n: int| 0 <= n <= requests.len() implies start.balance + deposited(
        #[trigger] requests.take(n),
    ) - withdrawn(requests.take(n)) >= 0 by {
        lemma_replay_prefix(start, escrow_state, agent_id, requests, n);
        lemma_balance_is_deposits_less_withdrawals(
            start,
            escrow_state,
            agent_id,
            requests.take(n),
        );
    }
}

/// Two deposits for the same agent are accepted in one order exactly when
/// they are accepted in the other, and then both orders leave the same
/// record, whose balance is the starting balance plus both amounts: on a
/// record not yet created, exactly the two amounts.
pub proof fn lemma_deposits_commute(
    start: Ledger,
    escrow_state: Pubkey,
    agent_id: Seq<char>,
    wallet_a: Pubkey,
    a: u64,
    wallet_b: Pubkey,
    b: u64,
)
    requires
        start.wf(),
    ensures
        ({
            let first = Request::Deposit { agent_wallet: wallet_a, amount: a };
            let second = Request::Deposit { agent_wallet: wallet_b, amount: b };
            let one_way = start.replay(escrow_state, agent_id, seq![first, second]);
            let other_way = start.replay(escrow_state, agent_id, seq![second, first]);
            &&& one_way is Ok <==> other_way is Ok
            &&& one_way is Ok ==> {
                &&& one_way == other_way
                &&& one_way->Ok_0.balance == start.balance + a + b
                &&& !start.is_open() ==> one_way->Ok_0.balance == a + b
            }
        }),
{
    let first = Request::Deposit { agent_wallet: wallet_a, amount: a };
    let second = Request::Deposit { agent_wallet: wallet_b, amount: b };
    lemma_replay_two(start, escrow_state, agent_id, first, second);
    lemma_replay_two(start, escrow_state, agent_id, second, first);
    let one_way = start.replay(escrow_state, agent_id, seq![first, second]);
    let other_way = start.replay(escrow_state, agent_id, seq![second, first]);
    if one_way is Ok && other_way is Ok {
        assert(one_way->Ok_0 =~= other_way->Ok_0);
    }
}

/// A sequence of two requests is the second applied to what the first
/// left.
proof fn lemma_replay_two(
    start: Ledger,
    escrow_state: Pubkey,
    agent_id: Seq<char>,
    first: Request,
    second: Request,
)
    ensures
        start.replay(escrow_state, agent_id, seq![first, second]) == match start.apply(
            escrow_state,
            agent_id,
            first,
        ) {
            Ok(ledger) => ledger.apply(escrow_state, agent_id, second),
            Err(e) => Err(e),
        },
{
    let both = seq![first, second];
    assert(both.drop_last() =~= seq![first]);
    assert(both.last() == second);
    assert(seq![first].drop_last() =~= Seq::<Request>::empty());
    assert(seq![first].last() == first);
    reveal_with_fuel(Ledger::replay, 3);
}

} // verus!
