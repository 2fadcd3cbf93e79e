use weave_contract::config::{initialize, set_burn_bps, set_referee_pubkey, Config};
use weave_contract::errors::WeaveError;
use weave_contract::keys::Pubkey;

fn key(tag: u8) -> Pubkey {
    Pubkey::new([tag; 32])
}

fn fresh_config() -> Config {
    initialize(key(1), key(2), key(3), 1000).unwrap()
}

#[test]
fn initialize_sets_all_fields() {
    let c = initialize(key(1), key(2), key(3), 250).unwrap();
    assert_eq!(c.admin, key(1));
    assert_eq!(c.referee_pubkey, key(2));
    assert_eq!(c.mint, key(3));
    assert_eq!(c.burn_bps, 250);
}

#[test]
fn initialize_accepts_full_burn_rate() {
    let c = initialize(key(1), key(2), key(3), 10000).unwrap();
    assert_eq!(c.burn_bps, 10000);
}

#[test]
fn initialize_rejects_burn_rate_over_max() {
    let r = initialize(key(1), key(2), key(3), 10001);
    assert_eq!(r, Err(WeaveError::InvalidBurnBps));
}

#[test]
fn set_burn_bps_updates_rate() {
    let mut c = fresh_config();
    let admin = key(1);
    assert_eq!(set_burn_bps(&mut c, &admin, 500), Ok(()));
    assert_eq!(c.burn_bps, 500);
    assert_eq!(c.referee_pubkey, key(2));
}

#[test]
fn set_burn_bps_rejects_out_of_range_unchanged() {
    let mut c = fresh_config();
    let before = c;
    let admin = key(1);
    assert_eq!(set_burn_bps(&mut c, &admin, 10001), Err(WeaveError::InvalidBurnBps));
    assert_eq!(c, before);
}

#[test]
fn set_burn_bps_requires_admin() {
    let mut c = fresh_config();
    let before = c;
    let stranger = key(9);
    assert_eq!(set_burn_bps(&mut c, &stranger, 100), Err(WeaveError::Unauthorized));
    assert_eq!(c, before);
}

#[test]
fn set_referee_pubkey_rotates_key() {
    let mut c = fresh_config();
    let admin = key(1);
    assert_eq!(set_referee_pubkey(&mut c, &admin, key(7)), Ok(()));
    assert_eq!(c.referee_pubkey, key(7));
    assert_eq!(c.burn_bps, 1000);
}

#[test]
fn set_referee_pubkey_requires_admin() {
    let mut c = fresh_config();
    let before = c;
    let stranger = key(9);
    assert_eq!(set_referee_pubkey(&mut c, &stranger, key(7)), Err(WeaveError::Unauthorized));
    assert_eq!(c, before);
}
