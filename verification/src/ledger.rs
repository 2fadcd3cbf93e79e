//! Per-player ledger records and the deposit path.

use vstd::prelude::*;

verus! {

/// Session bookkeeping: the sum of a player's deposits since the last
/// settlement. Informational only — settlement math reads the real vault
/// holdings, never this field.
#[derive(Clone, Copy, Debug, PartialEq, Eq)]
pub struct PlayerState {
    pub balance: u64,
}

/// Anti-replay record: the highest nonce this player has ever settled with.
#[derive(Clone, Copy, Debug, PartialEq, Eq)]
pub struct PlayerAuth {
    pub last_nonce: u64,
}

/// The balances a deposit touches: the player's wallet, the player's vault,
/// and the session bookkeeping record.
#[derive(Clone, Copy, Debug, PartialEq, Eq)]
pub struct Deposit {
    /// Real holdings of the player's own wallet.
    pub player_token_amount: u64,
    /// Real holdings of the player's custodial vault.
    pub vault_amount: u64,
    /// The player's session bookkeeping record.
    pub player_state: PlayerState,
}

/// Moves `amount` from the player's wallet into the vault and adds it to the
/// session balance. The wallet must cover the amount, and neither the vault
/// holdings nor the session balance may overflow; the host rejects a request
/// that would.
pub fn deposit(accounts: &mut Deposit, amount: u64)
    requires
        amount <= old(accounts).player_token_amount,
        old(accounts).vault_amount + amount <= u64::MAX,
        old(accounts).player_state.balance + amount <= u64::MAX,
    ensures
        final(accounts).player_token_amount == old(accounts).player_token_amount - amount,
        final(accounts).vault_amount == old(accounts).vault_amount + amount,
        final(accounts).player_state.balance == old(accounts).player_state.balance + amount,
{
    accounts.player_token_amount = accounts.player_token_amount - amount;
    accounts.vault_amount = accounts.vault_amount + amount;
    accounts.player_state.balance = accounts.player_state.balance + amount;
}

} // verus!
