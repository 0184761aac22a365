//! The three operations of the escrow. Each one checks its request against
//! the records it is given, changes them only when every check passes, and
//! says which movement of funds goes with the change.

use crate::error::EscrowError;
use crate::identity::Pubkey;
use crate::state::{valid_agent_id, AgentBalance, EscrowState, Ledger};
use crate::transfer::{Authority, Transfer};
use vstd::prelude::*;

verus! {

/// What the creation of the registry works on.
#[derive(Clone, Copy, Debug, PartialEq, Eq)]
pub struct Initialize {
    /// The registry's record, to be filled in.
    pub escrow_state: EscrowState,
    /// The administrator, who signed the request.
    pub authority: Pubkey,
    /// The nonce with which the registry's address was derived.
    pub bump: u8,
}

/// What a deposit works on.
#[derive(Clone, Debug, PartialEq, Eq)]
pub struct Deposit {
    /// The address of the registry.
    pub escrow_state_key: Pubkey,
    /// The pooled custody account.
    pub escrow_token_account: Pubkey,
    /// The agent's record, found by identifier and registry; not yet
    /// created on a first deposit.
    pub agent_balance: AgentBalance,
    /// The depositor, who signed the request.
    pub user: Pubkey,
    /// The depositor's asset account.
    pub user_token_account: Pubkey,
    /// The wallet to bind the agent to.
    pub agent_wallet: Pubkey,
}

/// What a withdrawal works on.
#[derive(Clone, Debug, PartialEq, Eq)]
pub struct Withdraw {
    /// The registry's record.
    pub escrow_state: EscrowState,
    /// The address of the registry.
    pub escrow_state_key: Pubkey,
    /// The pooled custody account.
    pub escrow_token_account: Pubkey,
    /// The agent's record.
    pub agent_balance: AgentBalance,
    /// The caller, who signed the request.
    pub agent_wallet: Pubkey,
    /// The asset account the funds go to.
    pub agent_token_account: Pubkey,
}

impl Ledger {
    /// The outcome of a deposit of `amount` for `agent_id`, naming
    /// `agent_wallet`, on this record under the registry at `escrow_state`.
    ///
    /// The identifier's length is checked first, then the amount. A record
    /// that does not exist yet is created empty; on one that exists, the
    /// wallet and then the identifier must be the stored ones. Last, the
    /// amount is credited.
    pub open spec fn deposit(
        self,
        escrow_state: Pubkey,
        agent_wallet: Pubkey,
        agent_id: Seq<char>,
        amount: u64,
    ) -> Result<Ledger, EscrowError> {
        if !valid_agent_id(agent_id) {
            Err(EscrowError::InvalidAgentId)
        } else if amount == 0 {
            Err(EscrowError::InvalidAmount)
        } else if !self.is_open() {
            Ledger::opened(agent_id, escrow_state, agent_wallet).credit(amount)
        } else if self.agent_wallet != agent_wallet {
            Err(EscrowError::InvalidAgentWallet)
        } else if self.agent_id != agent_id {
            Err(EscrowError::InvalidAgentId)
        } else {
            self.credit(amount)
        }
    }

    /// The outcome of a withdrawal of `amount` requested by `signer`.
    ///
    /// The amount is checked first, then the caller, then the balance.
    pub open spec fn withdraw(self, signer: Pubkey, amount: u64) -> Result<Ledger, EscrowError> {
        if amount == 0 {
            Err(EscrowError::InvalidAmount)
        } else if signer != self.agent_wallet {
            Err(EscrowError::UnauthorizedWithdrawal)
        } else if self.balance < amount {
            Err(EscrowError::InsufficientBalance)
        } else {
            self.debit(amount)
        }
    }
}

impl Deposit {
    /// The movement of funds that goes with a deposit of `amount`: from the
    /// depositor's account into custody, on the depositor's word.
    pub open spec fn transfer(self, amount: u64) -> Transfer {
        Transfer {
            from: self.user_token_account,
            to: self.escrow_token_account,
            authority: Authority::Wallet(self.user),
            amount,
        }
    }
}

impl Withdraw {
    /// The movement of funds that goes with a withdrawal of `amount`: out
    /// of custody into the agent's account, on the registry's own word.
    pub open spec fn transfer(self, amount: u64) -> Transfer {
        Transfer {
            from: self.escrow_token_account,
            to: self.agent_token_account,
            authority: Authority::Registry {
                address: self.escrow_state_key,
                bump: self.escrow_state.bump,
            },
            amount,
        }
    }
}

/// Creates the registry: records the caller as its administrator and
/// `usdc_mint` as the asset it accepts.
pub fn initialize(ctx: &mut Initialize, usdc_mint: Pubkey) -> (result: Result<(), EscrowError>)
    ensures
        result is Ok,
        final(ctx).escrow_state.authority == old(ctx).authority,
        final(ctx).escrow_state.usdc_mint == usdc_mint,
        final(ctx).escrow_state.bump == old(ctx).bump,
        final(ctx).authority == old(ctx).authority,
        final(ctx).bump == old(ctx).bump,
{
    ctx.escrow_state.authority = ctx.authority;
    ctx.escrow_state.usdc_mint = usdc_mint;
    ctx.escrow_state.bump = ctx.bump;
    Ok(())
}

/// Credits `amount` to the agent `agent_id`, creating the agent's record on
/// the first deposit.
///
/// On success the record holds the outcome of [`Ledger::deposit`] and the
/// result is the transfer from the depositor into custody. On rejection the
/// result is the reason and nothing has changed.
pub fn deposit(ctx: &mut Deposit, agent_id: String, amount: u64) -> (result: Result<
    Transfer,
    EscrowError,
>)
    ensures
        match old(ctx).agent_balance@.deposit(
            old(ctx).escrow_state_key,
            old(ctx).agent_wallet,
            agent_id@,
            amount,
        ) {
            Ok(ledger) => {
                &&& result == Ok::<Transfer, EscrowError>(old(ctx).transfer(amount))
                &&& final(ctx).agent_balance@ == ledger
            },
            Err(e) => result == Err::<Transfer, EscrowError>(e),
        },
        result is Err ==> *final(ctx) == *old(ctx),
        result is Ok ==> final(ctx).agent_balance@.wf() && final(ctx).agent_balance@.is_open(),
        final(ctx).escrow_state_key == old(ctx).escrow_state_key,
        final(ctx).escrow_token_account == old(ctx).escrow_token_account,
        final(ctx).user == old(ctx).user,
        final(ctx).user_token_account == old(ctx).user_token_account,
        final(ctx).agent_wallet == old(ctx).agent_wallet,
        !valid_agent_id(agent_id@) ==> result == Err::<Transfer, EscrowError>(
            EscrowError::InvalidAgentId,
        ),
        valid_agent_id(agent_id@) && amount == 0 ==> result == Err::<Transfer, EscrowError>(
            EscrowError::InvalidAmount,
        ),
        valid_agent_id(agent_id@) && amount > 0 && old(ctx).agent_balance@.is_open() && old(
            ctx,
        ).agent_balance.agent_wallet != old(ctx).agent_wallet ==> result == Err::<
            Transfer,
            EscrowError,
        >(EscrowError::InvalidAgentWallet),
{
    broadcast use vstd::slice::group_slice_axioms;

    let len = agent_id.as_str().as_bytes().len();
    if len == 0 || len > AgentBalance::MAX_AGENT_ID_LEN {
        return Err(EscrowError::InvalidAgentId);
    }
    if amount == 0 {
        return Err(EscrowError::InvalidAmount);
    }
    if ctx.agent_balance.is_open() {
        if !(ctx.agent_balance.agent_wallet == ctx.agent_wallet) {
            return Err(EscrowError::InvalidAgentWallet);
        }
        if !(ctx.agent_balance.agent_id == agent_id) {
            return Err(EscrowError::InvalidAgentId);
        }
        match ctx.agent_balance.credit(amount) {
            Ok(()) => {},
            Err(e) => {
                return Err(e);
            },
        }
    } else {
        let mut record = AgentBalance::open(agent_id, ctx.escrow_state_key, ctx.agent_wallet);
        match record.credit(amount) {
            Ok(()) => {},
            Err(e) => {
                return Err(e);
            },
        }
        ctx.agent_balance = record;
    }
    Ok(
        Transfer {
            from: ctx.user_token_account,
            to: ctx.escrow_token_account,
            authority: Authority::Wallet(ctx.user),
            amount,
        },
    )
}

/// Debits `amount` from the agent's record on the request of the agent's
/// wallet.
///
/// On success the record holds the outcome of [`Ledger::withdraw`] and the
/// result is the transfer out of custody to the agent. On rejection the
/// result is the reason and nothing has changed.
pub fn withdraw(ctx: &mut Withdraw, amount: u64) -> (result: Result<Transfer, EscrowError>)
    ensures
        match old(ctx).agent_balance@.withdraw(old(ctx).agent_wallet, amount) {
            Ok(ledger) => {
                &&& result == Ok::<Transfer, EscrowError>(old(ctx).transfer(amount))
                &&& final(ctx).agent_balance@ == ledger
            },
            Err(e) => result == Err::<Transfer, EscrowError>(e),
        },
        result is Err ==> *final(ctx) == *old(ctx),
        old(ctx).agent_balance@.wf() ==> final(ctx).agent_balance@.wf(),
        final(ctx).escrow_state == old(ctx).escrow_state,
        final(ctx).escrow_state_key == old(ctx).escrow_state_key,
        final(ctx).escrow_token_account == old(ctx).escrow_token_account,
        final(ctx).agent_wallet == old(ctx).agent_wallet,
        final(ctx).agent_token_account == old(ctx).agent_token_account,
        amount == 0 ==> result == Err::<Transfer, EscrowError>(EscrowError::InvalidAmount),
        amount > 0 && old(ctx).agent_wallet != old(ctx).agent_balance.agent_wallet ==> result
            == Err::<Transfer, EscrowError>(EscrowError::UnauthorizedWithdrawal),
        old(ctx).agent_wallet == old(ctx).agent_balance.agent_wallet && amount > old(
            ctx,
        ).agent_balance.balance ==> result == Err::<Transfer, EscrowError>(
            EscrowError::InsufficientBalance,
        ),
{
    if amount == 0 {
        return Err(EscrowError::InvalidAmount);
    }
    if !(ctx.agent_wallet == ctx.agent_balance.agent_wallet) {
        return Err(EscrowError::UnauthorizedWithdrawal);
    }
    if ctx.agent_balance.balance < amount {
        return Err(EscrowError::InsufficientBalance);
    }
    match ctx.agent_balance.debit(amount) {
        Ok(()) => {},
        Err(e) => {
            return Err(e);
        },
    }
    Ok(
        Transfer {
            from: ctx.escrow_token_account,
            to: ctx.agent_token_account,
            authority: Authority::Registry {
                address: ctx.escrow_state_key,
                bump: ctx.escrow_state.bump,
            },
            amount,
        },
    )
}

} // verus!
