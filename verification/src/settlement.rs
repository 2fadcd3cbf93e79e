//! The authorized settlement protocol: verification of a referee-signed
//! settlement authorization and the exact three-way fund split.

use vstd::prelude::*;

use crate::artifact::artifact_verified;
use crate::artifact::verify_ed25519_ix;
use crate::config::Config;
use crate::config::MAX_BURN_BPS;
use crate::errors::WeaveError;
use crate::keys::key_eq;
use crate::keys::Pubkey;
use crate::ledger::PlayerAuth;
use crate::ledger::PlayerState;
use crate::message::settlement_message;
use crate::message::spec_settlement_message;

verus! {

/// Everything a settlement request reads or moves: the player's records and
/// real holdings, the treasury, the asset, and the configuration.
#[derive(Clone, Copy, Debug, PartialEq, Eq)]
pub struct WithdrawV2 {
    /// The player being settled.
    pub player: Pubkey,
    /// The player's session bookkeeping record.
    pub player_state: PlayerState,
    /// The player's anti-replay record.
    pub player_auth: PlayerAuth,
    /// Real holdings of the player's own wallet.
    pub player_token_amount: u64,
    /// Real holdings of the player's custodial vault: the ground truth the
    /// settlement math works from.
    pub vault_amount: u64,
    /// Real holdings of the supplied treasury account.
    pub treasury_amount: u64,
    /// Owner recorded on the supplied treasury account.
    pub treasury_owner: Pubkey,
    /// The protocol's delegated treasury authority.
    pub treasury_pda: Pubkey,
    /// Mint recorded on the supplied treasury account.
    pub treasury_mint: Pubkey,
    /// The supplied asset mint.
    pub mint: Pubkey,
    /// Total supply of the asset; burning reduces it.
    pub mint_supply: u64,
    /// The protocol configuration.
    pub config: Config,
}

impl WithdrawV2 {
    /// Well-formedness: the configuration invariant holds and no more of the
    /// asset is held here than exists.
    pub open spec fn wf(&self) -> bool {
        &&& self.config.wf()
        &&& self.vault_amount + self.treasury_amount + self.player_token_amount
            <= self.mint_supply
    }

    /// The supplied treasury and mint accounts match the configuration.
    pub open spec fn accounts_valid(&self) -> bool {
        &&& self.treasury_owner@ == self.treasury_pda@
        &&& self.treasury_mint@ == self.config.mint@
        &&& self.mint@ == self.config.mint@
    }
}

/// The share of a swept loss that is burned: `floor(loss * burn_bps / 10000)`.
pub open spec fn spec_burn_amount(loss: u64, burn_bps: u16) -> int {
    (loss * burn_bps) / (MAX_BURN_BPS as int)
}

/// The burn never exceeds the loss it is taken from.
pub proof fn lemma_burn_amount_le_loss(loss: u64, burn_bps: u16)
    requires
        burn_bps <= MAX_BURN_BPS,
    ensures
        0 <= spec_burn_amount(loss, burn_bps) <= loss,
{
    assert(loss * burn_bps <= loss * (MAX_BURN_BPS as int)) by (nonlinear_arith)
        requires
            burn_bps <= MAX_BURN_BPS,
            loss >= 0,
    ;
    assert((loss * (MAX_BURN_BPS as int)) / (MAX_BURN_BPS as int) == loss) by (nonlinear_arith);
    vstd::arithmetic::div_mod::lemma_div_is_ordered(
        loss * burn_bps,
        loss * (MAX_BURN_BPS as int),
        MAX_BURN_BPS as int,
    );
    vstd::arithmetic::div_mod::lemma_div_pos_is_pos(loss * burn_bps, MAX_BURN_BPS as int);
}

/// A settlement authorization is approved exactly when the supplied accounts
/// match the configuration, the authorization has not expired, the nonce is
/// fresh, and a well-formed self-contained artifact carries a valid Ed25519
/// signature over the canonical message under the configured referee key.
pub open spec fn settlement_approved(
    a: WithdrawV2,
    authorized_amount: u64,
    nonce: u64,
    expiry: u64,
    now: u64,
    ed_ix: Option<Seq<u8>>,
) -> bool {
    &&& a.accounts_valid()
    &&& now <= expiry
    &&& nonce > a.player_auth.last_nonce
    &&& ed_ix matches Some(data) && artifact_verified(
        data,
        a.config.referee_pubkey@,
        spec_settlement_message(a.player@, authorized_amount, nonce, expiry),
    )
}

/// The treasury can cover the excess owed when the authorized amount exceeds
/// the vault holdings.
pub open spec fn treasury_covers(a: WithdrawV2, authorized_amount: u64) -> bool {
    authorized_amount > a.vault_amount ==> authorized_amount - a.vault_amount
        <= a.treasury_amount
}

/// The first check a settlement request fails, in the order the checks run.
pub open spec fn spec_withdraw_v2_err(
    a: WithdrawV2,
    authorized_amount: u64,
    nonce: u64,
    expiry: u64,
    now: u64,
    ed_ix: Option<Seq<u8>>,
) -> WeaveError {
    if a.treasury_owner@ != a.treasury_pda@ || a.treasury_mint@ != a.config.mint@ {
        WeaveError::InvalidTreasuryAccount
    } else if a.mint@ != a.config.mint@ {
        WeaveError::InvalidMint
    } else if now > expiry {
        WeaveError::SettlementExpired
    } else if nonce <= a.player_auth.last_nonce {
        WeaveError::NonceAlreadyUsed
    } else if ed_ix is None {
        WeaveError::MissingEd25519Instruction
    } else if !(ed_ix matches Some(data) && artifact_verified(
        data,
        a.config.referee_pubkey@,
        spec_settlement_message(a.player@, authorized_amount, nonce, expiry),
    )) {
        WeaveError::InvalidEd25519Instruction
    } else {
        WeaveError::InsufficientTreasury
    }
}

/// What a successful settlement leaves behind: the vault drained to zero, the
/// session balance reset, the nonce advanced to the request's, and the exact
/// three-way split applied.
pub open spec fn spec_settled(
    a0: WithdrawV2,
    a1: WithdrawV2,
    authorized_amount: u64,
    nonce: u64,
) -> bool {
    &&& a1.player_auth.last_nonce == nonce
    &&& a1.player_state.balance == 0
    &&& a1.vault_amount == 0
    &&& a1.player_token_amount == a0.player_token_amount + authorized_amount
    &&& if authorized_amount <= a0.vault_amount {
        let loss = a0.vault_amount - authorized_amount;
        let burn = spec_burn_amount(loss as u64, a0.config.burn_bps);
        &&& a1.treasury_amount == a0.treasury_amount + loss - burn
        &&& a1.mint_supply == a0.mint_supply - burn
    } else {
        &&& a1.treasury_amount == a0.treasury_amount - (authorized_amount - a0.vault_amount)
        &&& a1.mint_supply == a0.mint_supply
    }
    &&& a1.player == a0.player
    &&& a1.treasury_owner == a0.treasury_owner
    &&& a1.treasury_pda == a0.treasury_pda
    &&& a1.treasury_mint == a0.treasury_mint
    &&& a1.mint == a0.mint
    &&& a1.config == a0.config
}

/// The legacy withdrawal path: always rejected.
pub fn withdraw(_amount: u64, _server_sig: [u8; 64]) -> (r: Result<(), WeaveError>)
    ensures
        r == Err::<(), WeaveError>(WeaveError::DeprecatedInstruction),
{
    Err(WeaveError::DeprecatedInstruction)
}

/// Settles a player's session against a referee-signed authorization.
///
/// The request succeeds exactly when every check of `settlement_approved`
/// passes and the treasury can cover any excess; it then pays the player,
/// sweeps the loss to the treasury, burns the proportional share, and resets
/// the session. On any failure the whole call changes no state and reports
/// the first failing check.
pub fn withdraw_v2(
    accounts: &mut WithdrawV2,
    authorized_amount: u64,
    nonce: u64,
    expiry: u64,
    now: u64,
    ed_ix: Option<&Vec<u8>>,
) -> (r: Result<(), WeaveError>)
    requires
        old(accounts).wf(),
    ensures
        final(accounts).wf(),
        r is Ok <==> settlement_approved(
            *old(accounts),
            authorized_amount,
            nonce,
            expiry,
            now,
            match ed_ix {
                Some(d) => Some(d@),
                None => None,
            },
        ) && treasury_covers(*old(accounts), authorized_amount),
        r is Ok ==> spec_settled(*old(accounts), *final(accounts), authorized_amount, nonce),
        r is Err ==> *final(accounts) == *old(accounts),
        r is Err ==> r == Err::<(), WeaveError>(
            spec_withdraw_v2_err(
                *old(accounts),
                authorized_amount,
                nonce,
                expiry,
                now,
                match ed_ix {
                    Some(d) => Some(d@),
                    None => None,
                },
            ),
        ),
        final(accounts).player_auth.last_nonce >= old(accounts).player_auth.last_nonce,
        r is Ok ==> final(accounts).player_auth.last_nonce > old(
            accounts,
        ).player_auth.last_nonce,
{
    // Supplied treasury and mint accounts must match the configuration.
    if !key_eq(&accounts.treasury_owner, &accounts.treasury_pda) {
        return Err(WeaveError::InvalidTreasuryAccount);
    }
    if !key_eq(&accounts.treasury_mint, &accounts.config.mint) {
        return Err(WeaveError::InvalidTreasuryAccount);
    }
    if !key_eq(&accounts.mint, &accounts.config.mint) {
        return Err(WeaveError::InvalidMint);
    }
    // Expiry.
    if now > expiry {
        return Err(WeaveError::SettlementExpired);
    }
    // Anti-replay.
    if nonce <= accounts.player_auth.last_nonce {
        return Err(WeaveError::NonceAlreadyUsed);
    }
    // Referee signature artifact over the canonical message.
    let msg = settlement_message(&accounts.player, authorized_amount, nonce, expiry);
    let data = match ed_ix {
        None => {
            return Err(WeaveError::MissingEd25519Instruction);
        },
        Some(data) => data,
    };
    match verify_ed25519_ix(data, &accounts.config.referee_pubkey, &msg) {
        Err(e) => {
            return Err(e);
        },
        Ok(()) => {},
    }
    // Settle funds. Every check has passed except treasury solvency in the
    // excess case, which the transfer itself decides; no state is touched
    // until the call can no longer fail.
    let vault_amount = accounts.vault_amount;
    if authorized_amount <= vault_amount {
        // Pay the player from the vault.
        let loss = vault_amount - authorized_amount;
        // Sweep the loss to the treasury and burn the proportional share.
        proof {
            lemma_burn_amount_le_loss(loss, accounts.config.burn_bps);
            assert((loss as u128) * (accounts.config.burn_bps as u128) <= (u64::MAX as u128) * (
            u16::MAX as u128)) by (nonlinear_arith)
                requires
                    loss <= u64::MAX,
                    accounts.config.burn_bps <= u16::MAX,
            ;
        }
        let burn_wide: u128 = (loss as u128) * (accounts.config.burn_bps as u128) / (
        MAX_BURN_BPS as u128);
        let burn_amount: u64 = burn_wide as u64;
        accounts.player_token_amount = accounts.player_token_amount + authorized_amount;
        accounts.treasury_amount = accounts.treasury_amount + (loss - burn_amount);
        accounts.mint_supply = accounts.mint_supply - burn_amount;
        accounts.vault_amount = 0;
    } else {
        // Drain the vault to the player and pay the excess from the treasury.
        let extra = authorized_amount - vault_amount;
        if extra > accounts.treasury_amount {
            return Err(WeaveError::InsufficientTreasury);
        }
        accounts.player_token_amount = accounts.player_token_amount + authorized_amount;
        accounts.treasury_amount = accounts.treasury_amount - extra;
        accounts.vault_amount = 0;
    }
    accounts.player_auth.last_nonce = nonce;
    accounts.player_state.balance = 0;
    Ok(())
}

} // verus!
