//! A custodial escrow ledger: one registry, one balance record per agent,
//! and the rules by which deposits credit and withdrawals debit a record.

pub mod error;
pub mod history;
pub mod identity;
pub mod operations;
pub mod state;
pub mod transfer;

pub use error::EscrowError;
pub use identity::Pubkey;
pub use operations::{deposit, initialize, withdraw, Deposit, Initialize, Withdraw};
pub use state::{AgentBalance, EscrowState};
pub use transfer::{Authority, Transfer};
