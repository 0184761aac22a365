//! Why an operation on the escrow was turned down.

use vstd::prelude::*;
use vstd::string::*;

verus! {

/// The ways an operation can be rejected. A rejected operation changes
/// nothing.
#[derive(Clone, Copy, Debug, PartialEq, Eq, Structural)]
pub enum EscrowError {
    /// The agent identifier is empty, longer than 64 bytes, or not the one
    /// the record was created with.
    InvalidAgentId,
    /// The amount is zero.
    InvalidAmount,
    /// The withdrawal asks for more than the record holds.
    InsufficientBalance,
    /// The caller is not the wallet the record belongs to.
    UnauthorizedWithdrawal,
    /// The wallet named in a deposit is not the one the record belongs to.
    InvalidAgentWallet,
    /// A credit would exceed what a balance can hold.
    Overflow,
    /// A debit would take a balance below zero.
    Underflow,
}

impl EscrowError {
    /// The text shown to a caller for each rejection.
    pub open spec fn message_text(self) -> Seq<char> {
        match self {
            EscrowError::InvalidAgentId => "Invalid agent ID length"@,
            EscrowError::InvalidAmount => "Invalid amount"@,
            EscrowError::InsufficientBalance => "Insufficient balance"@,
            EscrowError::UnauthorizedWithdrawal => "Unauthorized withdrawal"@,
            EscrowError::InvalidAgentWallet => "Invalid agent wallet"@,
            EscrowError::Overflow => "Arithmetic overflow"@,
            EscrowError::Underflow => "Arithmetic underflow"@,
        }
    }

    /// The text shown to a caller for this rejection.
    pub fn message(&self) -> (text: String)
        ensures
            text@ == self.message_text(),
    {
        match self {
            EscrowError::InvalidAgentId => String::from_str("Invalid agent ID length"),
            EscrowError::InvalidAmount => String::from_str("Invalid amount"),
            EscrowError::InsufficientBalance => String::from_str("Insufficient balance"),
            EscrowError::UnauthorizedWithdrawal => String::from_str("Unauthorized withdrawal"),
            EscrowError::InvalidAgentWallet => String::from_str("Invalid agent wallet"),
            EscrowError::Overflow => String::from_str("Arithmetic overflow"),
            EscrowError::Underflow => String::from_str("Arithmetic underflow"),
        }
    }
}

} // verus!
