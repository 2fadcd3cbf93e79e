//! The failure kinds of the ledger's operations.

use vstd::prelude::*;

verus! {

/// Every failure aborts the whole call: no operation applies partially.
#[derive(Clone, Copy, Debug, PartialEq, Eq)]
pub enum WeaveError {
    /// The caller lacks the required admin or ownership authority.
    Unauthorized,
    /// The legacy withdrawal path was invoked.
    DeprecatedInstruction,
    /// No signature artifact accompanied the settlement request.
    MissingEd25519Instruction,
    /// The signature artifact is malformed, not self-contained, or covers
    /// the wrong key or message.
    InvalidEd25519Instruction,
    /// The authorization's expiry lies in the past.
    SettlementExpired,
    /// The request reuses a nonce at or below the player's last one.
    NonceAlreadyUsed,
    /// A burn rate outside [0, 10000] basis points was supplied.
    InvalidBurnBps,
    /// The supplied treasury account does not match the configuration.
    InvalidTreasuryAccount,
    /// The supplied asset mint does not match the configuration.
    InvalidMint,
    /// The treasury cannot cover the excess owed to the player.
    InsufficientTreasury,
}

} // verus!
