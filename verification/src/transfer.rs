//! The movement of funds that an accepted operation asks for.

use crate::identity::Pubkey;
use vstd::prelude::*;

verus! {

/// Who authorizes a movement of funds.
#[derive(Clone, Copy, Debug, PartialEq, Eq)]
pub enum Authority {
    /// A wallet that signed the request itself.
    Wallet(Pubkey),
    /// The registry signing for itself: its own address, and the nonce that
    /// address was derived with.
    Registry { address: Pubkey, bump: u8 },
}

/// An instruction to the token ledger: move `amount` from one asset account
/// to another, on the word of `authority`.
#[derive(Clone, Copy, Debug, PartialEq, Eq)]
pub struct Transfer {
    pub from: Pubkey,
    pub to: Pubkey,
    pub authority: Authority,
    pub amount: u64,
}

} // verus!
