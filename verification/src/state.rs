//! The two kinds of record the escrow keeps, and the mathematical ledger
//! that an agent's record stands for.

use crate::error::EscrowError;
use crate::identity::Pubkey;
use vstd::prelude::*;
use vstd::utf8::encode_utf8;

verus! {

/// The registry: who administers the escrow and which asset it accepts.
#[derive(Clone, Copy, Debug, PartialEq, Eq)]
pub struct EscrowState {
    /// The administrator who created the registry.
    pub authority: Pubkey,
    /// The accepted asset.
    pub usdc_mint: Pubkey,
    /// The nonce with which the registry's own address was derived.
    pub bump: u8,
}

impl EscrowState {
    /// Bytes a stored registry takes: a tag, two identities and the nonce.
    pub const LEN: usize = 8 + 32 + 32 + 1;
}

/// One agent's record: the custodied balance and the wallet that may
/// withdraw it. A record whose `agent_id` is empty has not been created yet.
#[derive(Clone, Debug, PartialEq, Eq)]
pub struct AgentBalance {
    /// The agent's identifier, 1 to 64 bytes once the record is created.
    pub agent_id: String,
    /// The custodied amount, in the asset's smallest unit.
    pub balance: u64,
    /// The registry this record belongs to.
    pub escrow_state: Pubkey,
    /// The only wallet that may withdraw.
    pub agent_wallet: Pubkey,
}

/// The number of bytes an agent identifier takes when stored.
pub open spec fn agent_id_len(agent_id: Seq<char>) -> nat {
    encode_utf8(agent_id).len()
}

/// An agent identifier is acceptable when it takes 1 to 64 bytes.
pub open spec fn valid_agent_id(agent_id: Seq<char>) -> bool {
    1 <= agent_id_len(agent_id) <= AgentBalance::MAX_AGENT_ID_LEN
}

/// What an agent's record stands for: an identifier, a wallet, and a
/// balance that is a natural number.
#[verifier::ext_equal]
pub struct Ledger {
    pub agent_id: Seq<char>,
    pub balance: nat,
    pub escrow_state: Pubkey,
    pub agent_wallet: Pubkey,
}

impl Ledger {
    /// Whether the record has been created by a first deposit.
    pub open spec fn is_open(self) -> bool {
        self.agent_id.len() > 0
    }

    /// A record fits its storage, holds a balance that fits 64 bits, and
    /// holds nothing before it is created.
    pub open spec fn wf(self) -> bool {
        &&& agent_id_len(self.agent_id) <= AgentBalance::MAX_AGENT_ID_LEN
        &&& self.balance <= u64::MAX
        &&& !self.is_open() ==> self.balance == 0
    }

    /// The record as a first deposit creates it, before anything is
    /// credited.
    pub open spec fn opened(agent_id: Seq<char>, escrow_state: Pubkey, agent_wallet: Pubkey) -> Ledger {
        Ledger { agent_id, balance: 0, escrow_state, agent_wallet }
    }

    /// Adding `amount` to the balance; rejected when the sum does not fit
    /// 64 bits.
    pub open spec fn credit(self, amount: u64) -> Result<Ledger, EscrowError> {
        if self.balance + amount > u64::MAX {
            Err(EscrowError::Overflow)
        } else {
            Ok(Ledger { balance: self.balance + amount as nat, ..self })
        }
    }

    /// Taking `amount` from the balance; rejected when the balance is
    /// smaller.
    pub open spec fn debit(self, amount: u64) -> Result<Ledger, EscrowError> {
        if self.balance < amount {
            Err(EscrowError::Underflow)
        } else {
            Ok(Ledger { balance: (self.balance - amount) as nat, ..self })
        }
    }
}

impl View for AgentBalance {
    type V = Ledger;

    open spec fn view(&self) -> Ledger {
        Ledger {
            agent_id: self.agent_id@,
            balance: self.balance as nat,
            escrow_state: self.escrow_state,
            agent_wallet: self.agent_wallet,
        }
    }
}

impl AgentBalance {
    /// The longest agent identifier a record can hold, in bytes.
    pub const MAX_AGENT_ID_LEN: usize = 64;

    /// Bytes a stored record takes: a tag, the identifier with its length,
    /// the balance and two identities.
    pub const LEN: usize = 8 + 4 + 64 + 8 + 32 + 32;

    /// The record of an agent on its creation: nothing custodied yet.
    pub fn open(agent_id: String, escrow_state: Pubkey, agent_wallet: Pubkey) -> (record: AgentBalance)
        ensures
            record@ == Ledger::opened(agent_id@, escrow_state, agent_wallet),
            record.agent_id == agent_id,
            agent_id_len(agent_id@) <= AgentBalance::MAX_AGENT_ID_LEN ==> record@.wf(),
    {
        AgentBalance { agent_id, balance: 0, escrow_state, agent_wallet }
    }

    /// Whether a first deposit has created this record.
    pub fn is_open(&self) -> (open: bool)
        ensures
            open == self@.is_open(),
    {
        !self.agent_id.as_str().is_empty()
    }

    /// Adds `amount` to the balance, or rejects with `Overflow` and leaves
    /// the record as it was.
    pub fn credit(&mut self, amount: u64) -> (result: Result<(), EscrowError>)
        ensures
            match old(self)@.credit(amount) {
                Ok(ledger) => result is Ok && final(self)@ == ledger,
                Err(e) => result == Err::<(), EscrowError>(e) && *final(self) == *old(self),
            },
            final(self).agent_id == old(self).agent_id,
            old(self)@.wf() && old(self)@.is_open() ==> final(self)@.wf(),
    {
        match self.balance.checked_add(amount) {
            Some(sum) => {
                self.balance = sum;
                Ok(())
            },
            None => Err(EscrowError::Overflow),
        }
    }

    /// Takes `amount` from the balance, or rejects with `Underflow` and
    /// leaves the record as it was.
    pub fn debit(&mut self, amount: u64) -> (result: Result<(), EscrowError>)
        ensures
            match old(self)@.debit(amount) {
                Ok(ledger) => result is Ok && final(self)@ == ledger,
                Err(e) => result == Err::<(), EscrowError>(e) && *final(self) == *old(self),
            },
            final(self).agent_id == old(self).agent_id,
            old(self)@.wf() ==> final(self)@.wf(),
    {
        match self.balance.checked_sub(amount) {
            Some(rest) => {
                self.balance = rest;
                Ok(())
            },
            None => Err(EscrowError::Underflow),
        }
    }
}

} // verus!
