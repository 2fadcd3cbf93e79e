//! The canonical settlement message that the referee signs.

use vstd::prelude::*;

use crate::keys::Pubkey;

verus! {

/// The number of bytes of a canonical settlement message:
/// a 32-byte player id followed by three 8-byte little-endian integers.
pub const SETTLEMENT_MESSAGE_LEN: usize = 56;

/// The exact byte sequence a settlement signature must cover:
/// `player (32 bytes) ++ authorized_amount (8 bytes LE) ++ nonce (8 bytes LE)
/// ++ expiry (8 bytes LE)`.
pub open spec fn spec_settlement_message(
    player: Seq<u8>,
    authorized_amount: u64,
    nonce: u64,
    expiry: u64,
) -> Seq<u8> {
    player + vstd::bytes::spec_u64_to_le_bytes(authorized_amount)
        + vstd::bytes::spec_u64_to_le_bytes(nonce) + vstd::bytes::spec_u64_to_le_bytes(expiry)
}

/// A canonical message binds its authorization: two settlement
/// authorizations have the same message only if they agree on the player,
/// the amount, the nonce, and the expiry. A referee signature over one
/// canonical message therefore authorizes exactly one settlement.
pub proof fn lemma_settlement_message_binds(
    p1: Seq<u8>,
    a1: u64,
    n1: u64,
    e1: u64,
    p2: Seq<u8>,
    a2: u64,
    n2: u64,
    e2: u64,
)
    requires
        p1.len() == 32,
        p2.len() == 32,
        spec_settlement_message(p1, a1, n1, e1) == spec_settlement_message(p2, a2, n2, e2),
    ensures
        p1 == p2,
        a1 == a2,
        n1 == n2,
        e1 == e2,
{
    vstd::bytes::lemma_auto_spec_u64_to_from_le_bytes();
    let m1 = spec_settlement_message(p1, a1, n1, e1);
    let m2 = spec_settlement_message(p2, a2, n2, e2);
    assert(p1 =~= m1.subrange(0, 32));
    assert(p2 =~= m2.subrange(0, 32));
    assert(vstd::bytes::spec_u64_to_le_bytes(a1) =~= m1.subrange(32, 40));
    assert(vstd::bytes::spec_u64_to_le_bytes(a2) =~= m2.subrange(32, 40));
    assert(vstd::bytes::spec_u64_to_le_bytes(n1) =~= m1.subrange(40, 48));
    assert(vstd::bytes::spec_u64_to_le_bytes(n2) =~= m2.subrange(40, 48));
    assert(vstd::bytes::spec_u64_to_le_bytes(e1) =~= m1.subrange(48, 56));
    assert(vstd::bytes::spec_u64_to_le_bytes(e2) =~= m2.subrange(48, 56));
    assert(vstd::bytes::spec_u64_from_le_bytes(vstd::bytes::spec_u64_to_le_bytes(a1))
        == vstd::bytes::spec_u64_from_le_bytes(vstd::bytes::spec_u64_to_le_bytes(a2)));
    assert(vstd::bytes::spec_u64_from_le_bytes(vstd::bytes::spec_u64_to_le_bytes(n1))
        == vstd::bytes::spec_u64_from_le_bytes(vstd::bytes::spec_u64_to_le_bytes(n2)));
    assert(vstd::bytes::spec_u64_from_le_bytes(vstd::bytes::spec_u64_to_le_bytes(e1))
        == vstd::bytes::spec_u64_from_le_bytes(vstd::bytes::spec_u64_to_le_bytes(e2)));
}

/// Builds the canonical message for one settlement authorization.
pub fn settlement_message(player: &Pubkey, authorized_amount: u64, nonce: u64, expiry: u64) -> (msg:
    Vec<u8>)
    ensures
        msg@ == spec_settlement_message(player@, authorized_amount, nonce, expiry),
        msg@.len() == SETTLEMENT_MESSAGE_LEN,
{
    proof {
        vstd::bytes::lemma_auto_spec_u64_to_from_le_bytes();
    }
    let mut msg: Vec<u8> = Vec::new();
    let mut i: usize = 0;
    while i < 32
        invariant
            i <= 32,
            msg@ =~= player@.subrange(0, i as int),
        decreases 32 - i,
    {
        msg.push(player.bytes[i]);
        i += 1;
    }
    assert(msg@ =~= player@);
    let mut amount_bytes = vstd::bytes::u64_to_le_bytes(authorized_amount);
    msg.append(&mut amount_bytes);
    let mut nonce_bytes = vstd::bytes::u64_to_le_bytes(nonce);
    msg.append(&mut nonce_bytes);
    let mut expiry_bytes = vstd::bytes::u64_to_le_bytes(expiry);
    msg.append(&mut expiry_bytes);
    msg
}

} // verus!
