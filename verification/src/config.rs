//! Admin-owned protocol configuration.

use vstd::prelude::*;

use crate::errors::WeaveError;
use crate::keys::key_eq;
use crate::keys::Pubkey;

verus! {

/// The largest admissible burn rate: 10000 basis points, i.e. 100%.
pub const MAX_BURN_BPS: u16 = 10000;

/// The protocol's singleton configuration. Mutable only by `admin`.
#[derive(Clone, Copy, Debug, PartialEq, Eq)]
pub struct Config {
    /// The identity allowed to change this configuration.
    pub admin: Pubkey,
    /// The public key settlement authorizations must be signed with.
    pub referee_pubkey: Pubkey,
    /// The asset every vault and the treasury hold.
    pub mint: Pubkey,
    /// The share of swept losses to burn, in basis points.
    pub burn_bps: u16,
}

impl Config {
    /// The configuration's invariant: the burn rate never leaves [0, 10000].
    pub open spec fn wf(&self) -> bool {
        self.burn_bps <= MAX_BURN_BPS
    }
}

/// Creates the configuration, rejecting a burn rate above 10000 basis points.
pub fn initialize(admin: Pubkey, referee_pubkey: Pubkey, mint: Pubkey, burn_bps: u16) -> (r: Result<
    Config,
    WeaveError,
>)
    ensures
        r is Ok <==> burn_bps <= MAX_BURN_BPS,
        r matches Ok(c) ==> c == (Config { admin, referee_pubkey, mint, burn_bps }) && c.wf(),
        r is Err ==> r == Err::<Config, WeaveError>(WeaveError::InvalidBurnBps),
{
    if burn_bps > MAX_BURN_BPS {
        return Err(WeaveError::InvalidBurnBps);
    }
    Ok(Config { admin, referee_pubkey, mint, burn_bps })
}

/// Rotates the referee key; only the stored admin may do so.
pub fn set_referee_pubkey(config: &mut Config, caller: &Pubkey, referee_pubkey: Pubkey) -> (r:
    Result<(), WeaveError>)
    ensures
        r is Ok <==> caller@ == old(config).admin@,
        r is Ok ==> *final(config) == (Config { referee_pubkey, ..*old(config) }),
        r is Err ==> *final(config) == *old(config) && r == Err::<(), WeaveError>(
            WeaveError::Unauthorized,
        ),
        old(config).wf() ==> final(config).wf(),
{
    if !key_eq(caller, &config.admin) {
        return Err(WeaveError::Unauthorized);
    }
    config.referee_pubkey = referee_pubkey;
    Ok(())
}

/// Sets the burn rate; only the stored admin may do so, and a rate above
/// 10000 basis points is rejected with no change.
pub fn set_burn_bps(config: &mut Config, caller: &Pubkey, burn_bps: u16) -> (r: Result<
    (),
    WeaveError,
>)
    ensures
        r is Ok <==> caller@ == old(config).admin@ && burn_bps <= MAX_BURN_BPS,
        r is Ok ==> *final(config) == (Config { burn_bps, ..*old(config) }),
        r is Err ==> *final(config) == *old(config),
        r is Err ==> r == Err::<(), WeaveError>(
            if caller@ != old(config).admin@ {
                WeaveError::Unauthorized
            } else {
                WeaveError::InvalidBurnBps
            },
        ),
        r is Ok ==> final(config).wf(),
        old(config).wf() ==> final(config).wf(),
{
    if !key_eq(caller, &config.admin) {
        return Err(WeaveError::Unauthorized);
    }
    if burn_bps > MAX_BURN_BPS {
        return Err(WeaveError::InvalidBurnBps);
    }
    config.burn_bps = burn_bps;
    Ok(())
}

} // verus!
