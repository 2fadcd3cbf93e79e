//! The self-contained signature artifact a settlement request carries.
//!
//! The artifact is a single byte structure: a one-byte signature count, a
//! table of fixed-width offsets, and then the referenced public key,
//! signature, and message embedded in the same structure. Source-index
//! sentinels must say "self": the key and message may not point at anything
//! outside the artifact.

use vstd::prelude::*;

use crate::errors::WeaveError;
use crate::keys::Pubkey;

verus! {

/// The source-index value meaning "embedded in this artifact itself".
pub const SELF_INDEX_SENTINEL: u16 = 0xffff;

/// A 16-bit integer read from two little-endian bytes.
pub open spec fn spec_u16_le(b0: u8, b1: u8) -> u16 {
    (b0 as u16) | ((b1 as u16) << 8)
}

proof fn lemma_u16_le_split(x: u16)
    ensures
        x & 0xff < 256,
        (x >> 8) & 0xff < 256,
        spec_u16_le((x & 0xff) as u8, ((x >> 8) & 0xff) as u8) == x,
{
    assert(x & 0xff < 256) by (bit_vector);
    assert((x >> 8) & 0xff < 256) by (bit_vector);
    assert((((x & 0xff) as u8) as u16) | (((((x >> 8) & 0xff) as u8) as u16) << 8) == x)
        by (bit_vector);
}

/// Reads a 16-bit little-endian integer from two bytes.
fn u16_le(b0: u8, b1: u8) -> (r: u16)
    ensures
        r == spec_u16_le(b0, b1),
{
    (b0 as u16) | ((b1 as u16) << 8)
}

/// Splits a 16-bit integer into its two little-endian bytes.
fn u16_le_bytes(x: u16) -> (r: (u8, u8))
    ensures
        spec_u16_le(r.0, r.1) == x,
{
    proof {
        lemma_u16_le_split(x);
    }
    ((x & 0xff) as u8, ((x >> 8) & 0xff) as u8)
}

/// Whether `sig` is a valid Ed25519 signature over `msg` under the public
/// key `pk`: the outcome of the scheme's standard verification on exactly
/// those bytes.
pub uninterp spec fn ed25519_valid(pk: Seq<u8>, msg: Seq<u8>, sig: Seq<u8>) -> bool;

/// Relies on ed25519_dalek: `VerifyingKey::from_bytes` and the standard
/// `Verifier::verify`. Ed25519 verification is a function of the key, message
/// and signature bytes alone; a key that is no valid point encoding, or a
/// signature of the wrong length, verifies nothing.
#[verifier::external_body]
fn ed25519_verify(pk: &Pubkey, msg: &Vec<u8>, sig: &Vec<u8>) -> (r: bool)
    ensures
        r == ed25519_valid(pk@, msg@, sig@),
{
    let key = match ed25519_dalek::VerifyingKey::from_bytes(&pk.bytes) {
        Ok(key) => key,
        Err(_) => return false,
    };
    let signature = match ed25519_dalek::Signature::from_slice(sig.as_slice()) {
        Ok(signature) => signature,
        Err(_) => return false,
    };
    ed25519_dalek::Verifier::verify(&key, msg.as_slice(), &signature).is_ok()
}

/// What a settlement request's artifact must look like structurally:
/// exactly one signature; key and message source indices saying "self";
/// the embedded message of exactly the expected length and bytes; the
/// embedded key byte-equal to the expected key; the signature offset
/// pointing at 64 bytes inside the structure.
pub open spec fn artifact_well_formed(data: Seq<u8>, pk: Seq<u8>, msg: Seq<u8>) -> bool {
    let sig_off = spec_u16_le(data[2], data[3]) as int;
    let pk_off = spec_u16_le(data[6], data[7]) as int;
    let msg_off = spec_u16_le(data[10], data[11]) as int;
    &&& data.len() > 16
    &&& data[0] == 1
    &&& spec_u16_le(data[8], data[9]) == SELF_INDEX_SENTINEL
    &&& spec_u16_le(data[14], data[15]) == SELF_INDEX_SENTINEL
    &&& spec_u16_le(data[12], data[13]) == msg.len()
    &&& sig_off + 64 <= data.len()
    &&& pk_off + 32 <= data.len()
    &&& msg_off + msg.len() <= data.len()
    &&& data.subrange(pk_off, pk_off + 32) == pk
    &&& data.subrange(msg_off, msg_off + msg.len() as int) == msg
}

/// The embedded signature bytes an artifact's offset table points at.
pub open spec fn artifact_signature(data: Seq<u8>) -> Seq<u8> {
    let sig_off = spec_u16_le(data[2], data[3]) as int;
    data.subrange(sig_off, sig_off + 64)
}

/// An artifact authorizes a settlement exactly when it is structurally
/// well-formed and its embedded signature is a valid Ed25519 signature over
/// the expected message under the expected key.
pub open spec fn artifact_verified(data: Seq<u8>, pk: Seq<u8>, msg: Seq<u8>) -> bool {
    &&& artifact_well_formed(data, pk, msg)
    &&& ed25519_valid(pk, msg, artifact_signature(data))
}

/// Accepts a settlement artifact exactly when it is a well-formed,
/// self-contained single-signature structure whose embedded signature is a
/// valid Ed25519 signature over `expected_msg` under `expected_pubkey`;
/// anything else is rejected.
#[verifier::loop_isolation(false)]
pub fn verify_ed25519_ix(data: &Vec<u8>, expected_pubkey: &Pubkey, expected_msg: &Vec<u8>) -> (r:
    Result<(), WeaveError>)
    ensures
        r is Ok <==> artifact_verified(data@, expected_pubkey@, expected_msg@),
        r is Err ==> r == Err::<(), WeaveError>(WeaveError::InvalidEd25519Instruction),
{
    if data.len() <= 16 {
        return Err(WeaveError::InvalidEd25519Instruction);
    }
    if data[0] != 1 {
        return Err(WeaveError::InvalidEd25519Instruction);
    }
    let sig_off: usize = u16_le(data[2], data[3]) as usize;
    let pk_off: usize = u16_le(data[6], data[7]) as usize;
    let pk_ix: u16 = u16_le(data[8], data[9]);
    let msg_off: usize = u16_le(data[10], data[11]) as usize;
    let msg_sz: usize = u16_le(data[12], data[13]) as usize;
    let msg_ix: u16 = u16_le(data[14], data[15]);
    if pk_ix != SELF_INDEX_SENTINEL || msg_ix != SELF_INDEX_SENTINEL {
        return Err(WeaveError::InvalidEd25519Instruction);
    }
    if msg_sz != expected_msg.len() {
        return Err(WeaveError::InvalidEd25519Instruction);
    }
    if sig_off + 64 > data.len() {
        return Err(WeaveError::InvalidEd25519Instruction);
    }
    if pk_off + 32 > data.len() {
        return Err(WeaveError::InvalidEd25519Instruction);
    }
    if msg_off + msg_sz > data.len() {
        return Err(WeaveError::InvalidEd25519Instruction);
    }
    let mut i: usize = 0;
    while i < 32
        invariant
            i <= 32,
            data@.len() > 16,
            pk_off + 32 <= data@.len(),
            forall|j: int| 0 <= j < i ==> data@[pk_off + j] == expected_pubkey@[j],
        decreases 32 - i,
    {
        if data[pk_off + i] != expected_pubkey.bytes[i] {
            assert(data@.subrange(pk_off as int, pk_off + 32)[i as int] != expected_pubkey@[i as int]);
            return Err(WeaveError::InvalidEd25519Instruction);
        }
        i += 1;
    }
    assert(data@.subrange(pk_off as int, pk_off + 32) =~= expected_pubkey@);
    let mut i: usize = 0;
    while i < msg_sz
        invariant
            i <= msg_sz,
            msg_sz == expected_msg@.len(),
            msg_off + msg_sz <= data@.len(),
            forall|j: int| 0 <= j < i ==> data@[msg_off + j] == expected_msg@[j],
        decreases msg_sz - i,
    {
        if data[msg_off + i] != expected_msg[i] {
            assert(data@.subrange(msg_off as int, msg_off + expected_msg@.len() as int)[i as int]
                != expected_msg@[i as int]);
            return Err(WeaveError::InvalidEd25519Instruction);
        }
        i += 1;
    }
    assert(data@.subrange(msg_off as int, msg_off + expected_msg@.len() as int) =~= expected_msg@);
    // The structure is in order; what remains is the signature itself.
    let mut sig: Vec<u8> = Vec::new();
    let mut i: usize = 0;
    while i < 64
        invariant
            i <= 64,
            sig@ =~= data@.subrange(sig_off as int, sig_off + i as int),
        decreases 64 - i,
    {
        sig.push(data[sig_off + i]);
        i += 1;
    }
    assert(sig@ =~= artifact_signature(data@));
    if !ed25519_verify(expected_pubkey, expected_msg, &sig) {
        return Err(WeaveError::InvalidEd25519Instruction);
    }
    Ok(())
}

/// Encodes a self-contained single-signature artifact over `msg`, referencing
/// `pubkey`, with the signature bytes embedded after the key. The result is
/// structurally what `verify_ed25519_ix` accepts for this key and message;
/// it authorizes a settlement exactly when `signature` is a valid Ed25519
/// signature over `msg` under `pubkey`.
#[verifier::loop_isolation(false)]
pub fn build_ed25519_artifact(pubkey: &Pubkey, signature: &[u8; 64], msg: &Vec<u8>) -> (data: Vec<
    u8,
>)
    requires
        msg@.len() <= 0xffff,
    ensures
        data@.len() == 112 + msg@.len(),
        artifact_well_formed(data@, pubkey@, msg@),
        artifact_signature(data@) == signature@,
        artifact_verified(data@, pubkey@, msg@) <==> ed25519_valid(pubkey@, msg@, signature@),
{
    let mut data: Vec<u8> = Vec::new();
    data.push(1);  // signature count
    data.push(0);  // padding
    let (b0, b1) = u16_le_bytes(48);  // signature offset
    data.push(b0);
    data.push(b1);
    let (b0, b1) = u16_le_bytes(SELF_INDEX_SENTINEL);  // signature source index
    data.push(b0);
    data.push(b1);
    let (b0, b1) = u16_le_bytes(16);  // public-key offset
    data.push(b0);
    data.push(b1);
    let (b0, b1) = u16_le_bytes(SELF_INDEX_SENTINEL);  // public-key source index
    data.push(b0);
    data.push(b1);
    let (b0, b1) = u16_le_bytes(112);  // message offset
    data.push(b0);
    data.push(b1);
    let (b0, b1) = u16_le_bytes(msg.len() as u16);  // message length
    data.push(b0);
    data.push(b1);
    let (b0, b1) = u16_le_bytes(SELF_INDEX_SENTINEL);  // message source index
    data.push(b0);
    data.push(b1);
    let ghost header = data@;
    assert(header.len() == 16);
    let mut i: usize = 0;
    while i < 32
        invariant
            i <= 32,
            data@ =~= header + pubkey@.subrange(0, i as int),
        decreases 32 - i,
    {
        data.push(pubkey.bytes[i]);
        i += 1;
    }
    assert(data@ =~= header + pubkey@);
    let ghost with_key = data@;
    let mut i: usize = 0;
    while i < 64
        invariant
            i <= 64,
            data@ =~= with_key + signature@.subrange(0, i as int),
        decreases 64 - i,
    {
        data.push(signature[i]);
        i += 1;
    }
    assert(data@ =~= with_key + signature@);
    let ghost with_sig = data@;
    assert(with_sig.len() == 112);
    let mut i: usize = 0;
    while i < msg.len()
        invariant
            i <= msg@.len(),
            data@ =~= with_sig + msg@.subrange(0, i as int),
        decreases msg@.len() - i,
    {
        data.push(msg[i]);
        i += 1;
    }
    assert(data@ =~= with_sig + msg@);
    proof {
        assert(data@.subrange(16, 48) =~= pubkey@);
        assert(data@.subrange(48, 112) =~= signature@);
        assert(data@.subrange(112, 112 + msg@.len() as int) =~= msg@);
    }
    data
}

} // verus!
